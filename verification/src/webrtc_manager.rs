//! The call coordinator: one call context per room, the peer sessions of each call,
//! and the decisions taken when calls start, are joined or left, and when
//! participants come and go.
use vstd::prelude::*;

use crate::assoc::AssocMap;
use crate::call_state::{CallState, CallStateView, CallStates};
use crate::matrixrtc::{
    FocusActive, MatrixRTCMembership, generate_call_id, spec_default_expires_ms,
    FOCUS_TYPE_LIVEKIT,
};
use crate::media_capture::{now_millis, spec_millis_from_reading};
use crate::random::is_lower_hex;
use crate::text::{err_text, owned, str_eq};
use crate::webrtc_session::{WebRTCSession, WebRTCSessionConfig, WebRTCSessionEvent};

verus! {

/// Context for a single call.
pub struct CallContext {
    /// The room this call is in.
    pub room_id: String,
    /// Our call ID.
    pub call_id: String,
    /// Our device ID.
    pub local_device_id: String,
    /// Our user ID.
    pub local_user_id: String,
    /// The sessions with remote peers, keyed by (user ID, device ID).
    pub sessions: AssocMap<(String, String), WebRTCSession>,
    /// Whether this is a video call.
    pub is_video_call: bool,
    /// Call start time.
    pub start_time_ms: u64,
    /// Current call state.
    pub state: CallState,
    /// Session configuration.
    pub session_config: WebRTCSessionConfig,
}

/// What to do about a participant who joined a call.
#[derive(Clone, Copy, PartialEq, Eq, Structural, Debug)]
pub enum JoinDecision {
    /// Nothing: it is our own device, or we already hold a session with it.
    Skip,
    /// Open a new peer session with it, then record it.
    CreateSession,
}

/// What the call coordinator tells the interface.
pub enum WebRTCManagerEvent {
    /// The state of the call in a room changed.
    CallStateChanged { room_id: String, state: CallState },
    /// A MatrixRTC membership event is to be sent in a room.
    SendMembershipEvent { room_id: String, membership: MatrixRTCMembership },
    /// Something failed, in a room or outside any.
    Error { room_id: Option<String>, message: String },
}

/// Central coordinator for all WebRTC call sessions.
pub struct WebRTCManager {
    /// Whether the WebRTC API has been set up.
    api_initialized: bool,
    /// Active calls, keyed by room ID.
    calls: AssocMap<String, CallContext>,
}

/// Whether `m` is the membership a call start or join announces for `device_id` and
/// `call_id` at `start_time_ms`.
pub open spec fn is_announced_membership(
    m: MatrixRTCMembership,
    device_id: Seq<char>,
    call_id: Seq<char>,
    start_time_ms: u64,
) -> bool {
    &&& m.device_id@ == device_id
    &&& m.call_id@ == call_id
    &&& m.application@ == "m.call"@
    &&& m.scope@ == "m.room"@
    &&& m.focus_active matches Some(f) && f.focus_type@ == FOCUS_TYPE_LIVEKIT@
        && f.focus_selection@ == "oldest_membership"@
    &&& m.foci_preferred@.len() == 0
    &&& m.created_ts == start_time_ms
    &&& m.expires == spec_default_expires_ms()
}

/// Whether `c` is a fresh call context for `room_id` with the given identity, call and
/// start time, in the connecting state with no peer sessions.
pub open spec fn is_fresh_context(
    c: CallContext,
    room_id: Seq<char>,
    user_id: Seq<char>,
    device_id: Seq<char>,
    call_id: Seq<char>,
    is_video_call: bool,
    start_time_ms: u64,
) -> bool {
    &&& c.room_id@ == room_id
    &&& c.local_user_id@ == user_id
    &&& c.local_device_id@ == device_id
    &&& c.call_id@ == call_id
    &&& c.is_video_call == is_video_call
    &&& c.start_time_ms == start_time_ms
    &&& c.state@ == CallStateView::Connecting { room_id }
    &&& c.sessions.wf()
    &&& c.sessions@ == Map::<(Seq<char>, Seq<char>), WebRTCSession>::empty()
}

/// The events pending in the sessions `s`, session by session in their stored order and
/// each session's oldest first, each paired with the room `room_id`.
pub open spec fn session_events(room_id: String, s: Seq<((String, String), WebRTCSession)>) -> Seq<
    (String, WebRTCSessionEvent),
>
    decreases s.len(),
{
    if s.len() == 0 {
        Seq::empty()
    } else {
        session_events(room_id, s.drop_last()) + s.last().1.pending_events().map_values(
            |e: WebRTCSessionEvent| (room_id, e),
        )
    }
}

/// The events pending in the sessions of the calls `c`, call by call in their stored
/// order, each paired with its call's room.
pub open spec fn call_events(c: Seq<(String, CallContext)>) -> Seq<(String, WebRTCSessionEvent)>
    decreases c.len(),
{
    if c.len() == 0 {
        Seq::empty()
    } else {
        call_events(c.drop_last()) + session_events(c.last().0, c.last().1.sessions.entries())
    }
}

/// Receives every pending event of `session`, appending each to `out` with `room_id`.
fn drain_session(
    session: &mut WebRTCSession,
    room_id: &String,
    out: &mut Vec<(String, WebRTCSessionEvent)>,
)
    ensures
        final(out)@ == old(out)@ + old(session).pending_events().map_values(
            |e: WebRTCSessionEvent| (*room_id, e),
        ),
        old(session).drained_to(*final(session)),
{
    let ghost pending = session.pending_events();
    let ghost start = out@;
    let ghost first = *session;
    let ghost mut k: int = 0;
    loop
        invariant
            0 <= k <= pending.len(),
            session.pending_events() == pending.skip(k),
            out@ == start + pending.take(k).map_values(|e: WebRTCSessionEvent| (*room_id, e)),
            session.spec_remote_user_id() == first.spec_remote_user_id(),
            session.spec_remote_device_id() == first.spec_remote_device_id(),
            session.spec_local_tracks() == first.spec_local_tracks(),
            session.spec_connection_state() == first.spec_connection_state(),
            session.spec_ice_connection_state() == first.spec_ice_connection_state(),
            session.spec_is_offerer() == first.spec_is_offerer(),
            pending == first.pending_events(),
        ensures
            k == pending.len(),
            session.pending_events().len() == 0,
            out@ == start + pending.map_values(|e: WebRTCSessionEvent| (*room_id, e)),
            session.spec_remote_user_id() == first.spec_remote_user_id(),
            session.spec_remote_device_id() == first.spec_remote_device_id(),
            session.spec_local_tracks() == first.spec_local_tracks(),
            session.spec_connection_state() == first.spec_connection_state(),
            session.spec_ice_connection_state() == first.spec_ice_connection_state(),
            session.spec_is_offerer() == first.spec_is_offerer(),
        decreases pending.len() - k,
    {
        match session.try_recv_event() {
            Some(e) => {
                let tagged = (room_id.clone(), e);
                out.push(tagged);
                proof {
                    assert(pending.skip(k)[0] == pending[k]);
                    assert(pending.skip(k).drop_first() =~= pending.skip(k + 1));
                    assert(pending.take(k + 1) =~= pending.take(k).push(pending[k]));
                    assert(pending.take(k + 1).map_values(
                        |e: WebRTCSessionEvent| (*room_id, e),
                    ) =~= pending.take(k).map_values(|e: WebRTCSessionEvent| (*room_id, e)).push(
                        (*room_id, pending[k]),
                    ));
                    k = k + 1;
                }
            },
            None => {
                proof {
                    assert(pending.take(k) =~= pending);
                }
                break;
            },
        }
    }
}

/// Whether `c2` is the call `c` with every event of its sessions received: the same
/// peers, each session otherwise unchanged, and the rest of the call as it was.
pub open spec fn call_drained(c: CallContext, c2: CallContext) -> bool {
    &&& c2 == CallContext { sessions: c2.sessions, ..c }
    &&& c2.sessions@.dom() == c.sessions@.dom()
    &&& forall|p: (Seq<char>, Seq<char>)| #[trigger]
        c.sessions@.contains_key(p) ==> c.sessions@[p].drained_to(c2.sessions@[p])
}

/// Receives every pending event of every session in `sessions`, appending each to `out`
/// with `room_id`.
fn drain_sessions(
    sessions: &mut AssocMap<(String, String), WebRTCSession>,
    room_id: &String,
    out: &mut Vec<(String, WebRTCSessionEvent)>,
)
    requires
        old(sessions).wf(),
    ensures
        final(sessions).wf(),
        final(out)@ == old(out)@ + session_events(*room_id, old(sessions).entries()),
        final(sessions)@.dom() == old(sessions)@.dom(),
        forall|p: (Seq<char>, Seq<char>)| #[trigger]
            old(sessions)@.contains_key(p) ==> old(sessions)@[p].drained_to(final(sessions)@[p]),
{
    let ghost first = *sessions;
    let ghost start = out@;
    let n = sessions.len();
    let mut i: usize = 0;
    while i < n
        invariant
            first.wf(),
            sessions.wf(),
            n == first.entries().len(),
            sessions.entries().len() == n,
            i <= n,
            forall|j: int|
                0 <= j < i ==> (#[trigger] sessions.entries()[j]).0 == first.entries()[j].0
                    && first.entries()[j].1.drained_to(sessions.entries()[j].1),
            forall|j: int| i <= j < n ==> #[trigger] sessions.entries()[j] == first.entries()[j],
            out@ == start + session_events(*room_id, first.entries().take(i as int)),
        decreases n - i,
    {
        let ghost before = *sessions;
        let s = sessions.value_mut(i);
        drain_session(s, room_id, out);
        proof {
            AssocMap::lemma_value_updated(before, *sessions, i as int, sessions.entries()[i as int].1);
            let e = first.entries();
            assert(e.take(i + 1).drop_last() =~= e.take(i as int));
            assert(e.take(i + 1).last() == e[i as int]);
            assert(start + session_events(*room_id, e.take(i + 1)) =~= start + session_events(
                *room_id,
                e.take(i as int),
            ) + e[i as int].1.pending_events().map_values(|ev: WebRTCSessionEvent| (*room_id, ev)));
        }
        i = i + 1;
    }
    proof {
        assert(first.entries().take(n as int) =~= first.entries());
        assert forall|p: (Seq<char>, Seq<char>)| #[trigger] first@.contains_key(p) implies sessions@.contains_key(p)
            && first@[p].drained_to(sessions@[p]) by {
            let j = first.lemma_key(p);
            sessions.lemma_entry(j);
        }
        assert forall|p: (Seq<char>, Seq<char>)| #[trigger] sessions@.contains_key(p) implies first@.contains_key(p) by {
            let j = sessions.lemma_key(p);
            first.lemma_entry(j);
        }
        assert(sessions@.dom() =~= first@.dom());
    }
}

impl WebRTCManager {
    /// The manager's invariant.
    pub closed spec fn wf(&self) -> bool {
        &&& self.calls.wf()
        &&& forall|k: Seq<char>| #[trigger] self.calls@.contains_key(k) ==> self.calls@[k].sessions.wf()
    }

    /// The calls, keyed by room.
    pub closed spec fn spec_calls(&self) -> Map<Seq<char>, CallContext> {
        self.calls@
    }

    /// The calls in their stored order, with their rooms.
    pub closed spec fn spec_call_entries(&self) -> Seq<(String, CallContext)> {
        self.calls.entries()
    }

    /// Whether the WebRTC API has been set up.
    pub closed spec fn spec_initialized(&self) -> bool {
        self.api_initialized
    }

    /// Create a new WebRTC manager with no calls.
    pub fn new() -> (r: Self)
        ensures
            r.wf(),
            !r.spec_initialized(),
            r.spec_calls() == Map::<Seq<char>, CallContext>::empty(),
    {
        WebRTCManager { api_initialized: false, calls: AssocMap::new() }
    }

    /// Whether the WebRTC API has been set up.
    pub fn is_initialized(&self) -> (r: bool)
        ensures
            r == self.spec_initialized(),
    {
        self.api_initialized
    }

    /// Initialize the WebRTC API, once: `setup` is the outcome of building it (media
    /// engine, interceptors), which is only asked for while the API is not set up. An
    /// API already set up stays so and the call succeeds; otherwise the API is set up
    /// exactly when the build succeeded, and its error is returned.
    pub fn initialize(&mut self, setup: Result<(), String>) -> (r: Result<(), String>)
        ensures
            old(self).spec_initialized() ==> r is Ok && final(self).spec_initialized(),
            !old(self).spec_initialized() ==> r == setup && final(self).spec_initialized()
                == setup is Ok,
            final(self).spec_calls() == old(self).spec_calls(),
            old(self).wf() ==> final(self).wf(),
    {
        if self.api_initialized {
            return Ok(());
        }
        if setup.is_ok() {
            self.api_initialized = true;
        }
        setup
    }

    fn register_call(
        &mut self,
        states: &mut CallStates,
        room_id: String,
        local_user_id: String,
        local_device_id: String,
        is_video_call: bool,
        session_config: WebRTCSessionConfig,
        call_id: String,
    ) -> (r: MatrixRTCMembership)
        requires
            old(self).wf(),
            old(states).wf(),
        ensures
            final(self).wf(),
            final(states).wf(),
            final(self).spec_initialized() == old(self).spec_initialized(),
            final(self).spec_calls().dom() == old(self).spec_calls().dom().insert(room_id@),
            forall|k: Seq<char>|
                k != room_id@ && #[trigger] old(self).spec_calls().contains_key(k) ==> final(self).spec_calls()[k] == old(self).spec_calls()[k],
            is_fresh_context(
                final(self).spec_calls()[room_id@],
                room_id@,
                local_user_id@,
                local_device_id@,
                call_id@,
                is_video_call,
                r.created_ts,
            ),
            final(self).spec_calls()[room_id@].session_config == session_config,
            is_announced_membership(r, local_device_id@, call_id@, r.created_ts),
            exists|reading: Option<u128>| r.created_ts == spec_millis_from_reading(reading),
            final(states)@ == old(states)@.insert(
                room_id@,
                CallStateView::Connecting { room_id: room_id@ },
            ),
    {
        let start_time_ms = now_millis();
        let context = CallContext {
            room_id: room_id.clone(),
            call_id: call_id.clone(),
            local_device_id: local_device_id.clone(),
            local_user_id,
            sessions: AssocMap::new(),
            is_video_call,
            start_time_ms,
            state: CallState::Connecting { room_id: room_id.clone() },
            session_config,
        };
        let membership = MatrixRTCMembership::new(local_device_id, call_id).with_created_ts(
            start_time_ms,
        ).with_focus_active(FocusActive::livekit());
        let ghost old_calls = self.calls@;
        self.calls.insert(room_id.clone(), context);
        assert(self.calls@.dom() =~= old_calls.dom().insert(room_id@));
        states.set_call_state(room_id.clone(), CallState::Connecting { room_id });
        membership
    }

    /// Start a new call in the given room, with a fresh call ID.
    ///
    /// The WebRTC API is set up first (see [`WebRTCManager::initialize`]; `api_setup` is
    /// the outcome of building it, asked for only while it is not set up), and its error
    /// is returned with nothing else changed. Then the room's call context is replaced by a fresh one in the connecting state, the
    /// room's call state becomes `Connecting`, and the membership to announce is returned.
    pub fn start_call(
        &mut self,
        states: &mut CallStates,
        room_id: String,
        local_user_id: String,
        local_device_id: String,
        is_video_call: bool,
        session_config: WebRTCSessionConfig,
        api_setup: Result<(), String>,
    ) -> (r: Result<MatrixRTCMembership, String>)
        requires
            old(self).wf(),
            old(states).wf(),
        ensures
            final(self).wf(),
            final(states).wf(),
            !old(self).spec_initialized() && api_setup is Err ==> {
                &&& r == Err::<MatrixRTCMembership, String>(api_setup->Err_0)
                &&& !final(self).spec_initialized()
                &&& final(self).spec_calls() == old(self).spec_calls()
                &&& final(states)@ == old(states)@
            },
            !(!old(self).spec_initialized() && api_setup is Err) ==> final(self).spec_initialized(),
            !(!old(self).spec_initialized() && api_setup is Err) ==> (r matches Ok(m) && {
                &&& m.call_id@.len() == 16
                &&& is_lower_hex(m.call_id@)
                &&& is_announced_membership(m, local_device_id@, m.call_id@, m.created_ts)
                &&& exists|reading: Option<u128>| m.created_ts == spec_millis_from_reading(reading)
                &&& final(self).spec_calls().dom() == old(self).spec_calls().dom().insert(
                    room_id@,
                )
                &&& forall|k: Seq<char>|
                    k != room_id@ && #[trigger] old(self).spec_calls().contains_key(k) ==> final(self).spec_calls()[k] == old(self).spec_calls()[k]
                &&& is_fresh_context(
                    final(self).spec_calls()[room_id@],
                    room_id@,
                    local_user_id@,
                    local_device_id@,
                    m.call_id@,
                    is_video_call,
                    m.created_ts,
                )
                &&& final(self).spec_calls()[room_id@].session_config == session_config
                &&& final(states)@ == old(states)@.insert(
                    room_id@,
                    CallStateView::Connecting { room_id: room_id@ },
                )
            }),
    {
        if let Err(e) = self.initialize(api_setup) {
            return Err(e);
        }
        let call_id = generate_call_id();
        let m = self.register_call(
            states,
            room_id,
            local_user_id,
            local_device_id,
            is_video_call,
            session_config,
            call_id,
        );
        Ok(m)
    }

    /// Join an existing call in the given room: the call ID is that of the first existing
    /// membership, or a fresh one when there is none. Joined calls are video calls. The
    /// WebRTC API is set up first, as for [`WebRTCManager::start_call`].
    pub fn join_call(
        &mut self,
        states: &mut CallStates,
        room_id: String,
        local_user_id: String,
        local_device_id: String,
        existing_memberships: Vec<MatrixRTCMembership>,
        session_config: WebRTCSessionConfig,
        api_setup: Result<(), String>,
    ) -> (r: Result<MatrixRTCMembership, String>)
        requires
            old(self).wf(),
            old(states).wf(),
        ensures
            final(self).wf(),
            final(states).wf(),
            !old(self).spec_initialized() && api_setup is Err ==> {
                &&& r == Err::<MatrixRTCMembership, String>(api_setup->Err_0)
                &&& !final(self).spec_initialized()
                &&& final(self).spec_calls() == old(self).spec_calls()
                &&& final(states)@ == old(states)@
            },
            !(!old(self).spec_initialized() && api_setup is Err) ==> final(self).spec_initialized(),
            !(!old(self).spec_initialized() && api_setup is Err) ==> (r matches Ok(m) && {
                &&& existing_memberships@.len() > 0 ==> m.call_id@
                    == existing_memberships@[0].call_id@
                &&& existing_memberships@.len() == 0 ==> m.call_id@.len() == 16 && is_lower_hex(
                    m.call_id@,
                )
                &&& is_announced_membership(m, local_device_id@, m.call_id@, m.created_ts)
                &&& exists|reading: Option<u128>| m.created_ts == spec_millis_from_reading(reading)
                &&& final(self).spec_calls().dom() == old(self).spec_calls().dom().insert(
                    room_id@,
                )
                &&& forall|k: Seq<char>|
                    k != room_id@ && #[trigger] old(self).spec_calls().contains_key(k) ==> final(self).spec_calls()[k] == old(self).spec_calls()[k]
                &&& is_fresh_context(
                    final(self).spec_calls()[room_id@],
                    room_id@,
                    local_user_id@,
                    local_device_id@,
                    m.call_id@,
                    true,
                    m.created_ts,
                )
                &&& final(self).spec_calls()[room_id@].session_config == session_config
                &&& final(states)@ == old(states)@.insert(
                    room_id@,
                    CallStateView::Connecting { room_id: room_id@ },
                )
            }),
    {
        if let Err(e) = self.initialize(api_setup) {
            return Err(e);
        }
        let call_id = if existing_memberships.len() > 0 {
            existing_memberships[0].call_id.clone()
        } else {
            generate_call_id()
        };
        let m = self.register_call(
            states,
            room_id,
            local_user_id,
            local_device_id,
            true,
            session_config,
            call_id,
        );
        Ok(m)
    }

    /// Leave the call in the given room: its context is removed and returned (so that
    /// its peer sessions can be closed), and the room's call state becomes `Idle`. A room
    /// without a call is left as it is.
    pub fn leave_call(&mut self, states: &mut CallStates, room_id: &String) -> (r: Option<
        CallContext,
    >)
        requires
            old(self).wf(),
            old(states).wf(),
        ensures
            final(self).wf(),
            final(states).wf(),
            final(self).spec_initialized() == old(self).spec_initialized(),
            final(self).spec_calls() == old(self).spec_calls().remove(room_id@),
            match r {
                Some(c) => old(self).spec_calls().contains_key(room_id@) && c == old(self).spec_calls()[room_id@] && final(states)@ == old(states)@.insert(
                    room_id@,
                    CallStateView::Idle,
                ),
                None => !old(self).spec_calls().contains_key(room_id@) && final(states)@ == old(states)@,
            },
    {
        let removed = self.calls.remove(room_id);
        if removed.is_some() {
            states.set_call_state(room_id.clone(), CallState::Idle);
        }
        removed
    }

    /// Decide what to do about `user_id`'s device `device_id` joining the call in
    /// `room_id`.
    pub fn handle_participant_joined(&self, room_id: &String, user_id: &String, device_id: &String) -> (r:
        Result<JoinDecision, String>)
        requires
            self.wf(),
        ensures
            !self.spec_initialized() ==> err_text(r) == Some("WebRTC API not initialized"@),
            self.spec_initialized() && !self.spec_calls().contains_key(room_id@) ==> err_text(r)
                == Some("Call not found"@),
            self.spec_initialized() && self.spec_calls().contains_key(room_id@) ==> {
                let c = self.spec_calls()[room_id@];
                r == Ok::<JoinDecision, String>(
                    if (user_id@ == c.local_user_id@ && device_id@ == c.local_device_id@)
                        || c.sessions@.contains_key((user_id@, device_id@)) {
                        JoinDecision::Skip
                    } else {
                        JoinDecision::CreateSession
                    },
                )
            },
    {
        if !self.api_initialized {
            return Err(owned("WebRTC API not initialized"));
        }
        let context = match self.calls.get(room_id) {
            Some(c) => c,
            None => return Err(owned("Call not found")),
        };
        if str_eq(user_id.as_str(), context.local_user_id.as_str())
            && str_eq(device_id.as_str(), context.local_device_id.as_str()) {
            return Ok(JoinDecision::Skip);
        }
        let key = (user_id.clone(), device_id.clone());
        if context.sessions.contains_key(&key) {
            return Ok(JoinDecision::Skip);
        }
        Ok(JoinDecision::CreateSession)
    }

    /// Records a new session with a remote peer in the call in `room_id`, keyed by the
    /// peer's user and device, if the room has a call.
    pub fn record_session(&mut self, room_id: &String, session: WebRTCSession)
        requires
            old(self).wf(),
        ensures
            final(self).wf(),
            final(self).spec_initialized() == old(self).spec_initialized(),
            final(self).spec_calls().dom() == old(self).spec_calls().dom(),
            forall|k: Seq<char>|
                k != room_id@ && #[trigger] old(self).spec_calls().contains_key(k) ==> final(self).spec_calls()[k] == old(self).spec_calls()[k],
            old(self).spec_calls().contains_key(room_id@) ==> {
                let c = old(self).spec_calls()[room_id@];
                let c2 = final(self).spec_calls()[room_id@];
                &&& c2 == CallContext { sessions: c2.sessions, ..c }
                &&& c2.sessions@ == c.sessions@.insert(
                    (session.spec_remote_user_id()@, session.spec_remote_device_id()@),
                    session,
                )
            },
    {
        let ghost old_calls = self.calls@;
        if let Some(mut context) = self.calls.remove(room_id) {
            let key = (session.remote_user_id().clone(), session.remote_device_id().clone());
            context.sessions.insert(key, session);
            self.calls.insert(room_id.clone(), context);
            assert(self.calls@.dom() =~= old_calls.dom());
        }
    }

    /// Handle a participant leaving the call: the session with them, if any, is removed
    /// and returned, to be closed.
    pub fn handle_participant_left(&mut self, room_id: &String, user_id: &String, device_id: &String) -> (r:
        Result<Option<WebRTCSession>, String>)
        requires
            old(self).wf(),
        ensures
            final(self).wf(),
            final(self).spec_initialized() == old(self).spec_initialized(),
            !old(self).spec_calls().contains_key(room_id@) ==> err_text(r) == Some(
                "Call not found"@,
            ) && final(self).spec_calls() == old(self).spec_calls(),
            old(self).spec_calls().contains_key(room_id@) ==> {
                let c = old(self).spec_calls()[room_id@];
                let c2 = final(self).spec_calls()[room_id@];
                &&& c.sessions@.contains_key((user_id@, device_id@)) ==> r == Ok::<
                    Option<WebRTCSession>,
                    String,
                >(Some(c.sessions@[(user_id@, device_id@)]))
                &&& !c.sessions@.contains_key((user_id@, device_id@)) ==> r == Ok::<
                    Option<WebRTCSession>,
                    String,
                >(None)
                &&& final(self).spec_calls().dom() == old(self).spec_calls().dom()
                &&& forall|k: Seq<char>|
                    k != room_id@ && #[trigger] old(self).spec_calls().contains_key(k) ==> final(self).spec_calls()[k] == old(self).spec_calls()[k]
                &&& c2 == CallContext { sessions: c2.sessions, ..c }
                &&& c2.sessions@ == c.sessions@.remove((user_id@, device_id@))
            },
    {
        let ghost old_calls = self.calls@;
        match self.calls.remove(room_id) {
            Some(mut context) => {
                let key = (user_id.clone(), device_id.clone());
                let removed = context.sessions.remove(&key);
                self.calls.insert(room_id.clone(), context);
                assert(self.calls@.dom() =~= old_calls.dom());
                Ok(removed)
            },
            None => Err(owned("Call not found")),
        }
    }

    /// Poll for events from all active sessions: every pending event of every session is
    /// received and returned with its call's room, call by call and session by session in
    /// their stored order, each session's oldest first.
    pub fn poll_events(&mut self) -> (r: Vec<(String, WebRTCSessionEvent)>)
        requires
            old(self).wf(),
        ensures
            final(self).wf(),
            r@ == call_events(old(self).spec_call_entries()),
            final(self).spec_initialized() == old(self).spec_initialized(),
            final(self).spec_calls().dom() == old(self).spec_calls().dom(),
            forall|k: Seq<char>| #[trigger]
                old(self).spec_calls().contains_key(k) ==> call_drained(
                    old(self).spec_calls()[k],
                    final(self).spec_calls()[k],
                ),
    {
        let ghost first = self.calls;
        let mut out: Vec<(String, WebRTCSessionEvent)> = Vec::new();
        let n = self.calls.len();
        proof {
            assert forall|j: int| 0 <= j < n implies (#[trigger] first.entries()[j]).1.sessions.wf() by {
                first.lemma_entry(j);
            }
        }
        let mut i: usize = 0;
        while i < n
            invariant
                first.wf(),
                forall|j: int| 0 <= j < n ==> (#[trigger] first.entries()[j]).1.sessions.wf(),
                self.calls.wf(),
                n == first.entries().len(),
                self.calls.entries().len() == n,
                i <= n,
                forall|j: int|
                    0 <= j < i ==> (#[trigger] self.calls.entries()[j]).0 == first.entries()[j].0
                        && call_drained(first.entries()[j].1, self.calls.entries()[j].1)
                        && self.calls.entries()[j].1.sessions.wf(),
                forall|j: int| i <= j < n ==> #[trigger] self.calls.entries()[j] == first.entries()[j],
                out@ == call_events(first.entries().take(i as int)),
                self.api_initialized == old(self).api_initialized,
            decreases n - i,
        {
            let room_id = self.calls.entry(i).0.clone();
            let ghost before = self.calls;
            let ctx = self.calls.value_mut(i);
            drain_sessions(&mut ctx.sessions, &room_id, &mut out);
            proof {
                AssocMap::lemma_value_updated(
                    before,
                    self.calls,
                    i as int,
                    self.calls.entries()[i as int].1,
                );
                let e = first.entries();
                assert(e.take(i + 1).drop_last() =~= e.take(i as int));
                assert(e.take(i + 1).last() == e[i as int]);
            }
            i = i + 1;
        }
        proof {
            assert(first.entries().take(n as int) =~= first.entries());
            assert forall|k: Seq<char>| #[trigger] first@.contains_key(k) implies self.calls@.contains_key(k)
                && call_drained(first@[k], self.calls@[k]) && self.calls@[k].sessions.wf() by {
                let j = first.lemma_key(k);
                self.calls.lemma_entry(j);
            }
            assert forall|k: Seq<char>| #[trigger] self.calls@.contains_key(k) implies first@.contains_key(k) by {
                let j = self.calls.lemma_key(k);
                first.lemma_entry(j);
            }
            assert(self.calls@.dom() =~= first@.dom());
        }
        out
    }

    /// Toggle local audio mute (the call's media is not touched): always `Ok(true)`.
    pub fn toggle_audio(&self, room_id: &String) -> (r: Result<bool, String>)
        ensures
            r == Ok::<bool, String>(true),
    {
        Ok(true)
    }

    /// Toggle local video (the call's media is not touched): always `Ok(true)`.
    pub fn toggle_video(&self, room_id: &String) -> (r: Result<bool, String>)
        ensures
            r == Ok::<bool, String>(true),
    {
        Ok(true)
    }

    /// Get the current call state for a room.
    pub fn get_call_state(&self, room_id: &String) -> (r: Option<CallState>)
        requires
            self.wf(),
        ensures
            match r {
                Some(s) => self.spec_calls().contains_key(room_id@) && s@ == self.spec_calls()[room_id@].state@,
                None => !self.spec_calls().contains_key(room_id@),
            },
    {
        match self.calls.get(room_id) {
            Some(c) => Some(c.state.clone()),
            None => None,
        }
    }

    /// Check if there's an active call in the given room.
    pub fn has_active_call(&self, room_id: &String) -> (r: bool)
        requires
            self.wf(),
        ensures
            r == (self.spec_calls().contains_key(room_id@) && self.spec_calls()[room_id@].state.spec_is_active()),
    {
        match self.calls.get(room_id) {
            Some(c) => c.state.is_active(),
            None => false,
        }
    }

    /// The number of peer sessions in the call in `room_id`.
    pub open spec fn spec_session_count(&self, room_id: Seq<char>) -> nat {
        if self.spec_calls().contains_key(room_id) {
            self.spec_calls()[room_id].sessions@.dom().len()
        } else {
            0
        }
    }

    /// Get the number of participants in a call: its peer sessions plus ourselves, or 0
    /// when the room has no call.
    pub fn participant_count(&self, room_id: &String) -> (r: usize)
        requires
            self.wf(),
            self.spec_session_count(room_id@) < usize::MAX,
        ensures
            r == (if self.spec_calls().contains_key(room_id@) {
                self.spec_session_count(room_id@) + 1
            } else {
                0
            }),
    {
        match self.calls.get(room_id) {
            Some(c) => c.sessions.len() + 1,
            None => 0,
        }
    }
}


/// Leaving a call just started removes it and leaves every other room's call as it
/// was before the start: `before` are the calls before `start_call` in `room_id`,
/// `started` those after it (as its contract relates them).
pub proof fn law_leave_undoes_start(
    before: Map<Seq<char>, CallContext>,
    started: Map<Seq<char>, CallContext>,
    room_id: Seq<char>,
)
    requires
        started.dom() == before.dom().insert(room_id),
        forall|k: Seq<char>|
            k != room_id && #[trigger] before.contains_key(k) ==> started[k] == before[k],
    ensures
        started.remove(room_id) == before.remove(room_id),
{
    assert(started.remove(room_id) =~= before.remove(room_id));
}

/// When a participant who had no session joins and then leaves, the call's sessions are
/// as they were: recording the session and removing it undo each other.
pub proof fn law_leave_undoes_record(
    sessions: Map<(Seq<char>, Seq<char>), WebRTCSession>,
    session: WebRTCSession,
)
    requires
        !sessions.contains_key((session.spec_remote_user_id()@, session.spec_remote_device_id()@)),
    ensures
        ({
            let key = (session.spec_remote_user_id()@, session.spec_remote_device_id()@);
            sessions.insert(key, session).remove(key) == sessions
        }),
{
    let key = (session.spec_remote_user_id()@, session.spec_remote_device_id()@);
    assert(sessions.insert(key, session).remove(key) =~= sessions);
}

proof fn lemma_no_session_events(room_id: String, s: Seq<((String, String), WebRTCSession)>)
    requires
        forall|j: int| 0 <= j < s.len() ==> (#[trigger] s[j]).1.pending_events().len() == 0,
    ensures
        session_events(room_id, s) == Seq::<(String, WebRTCSessionEvent)>::empty(),
    decreases s.len(),
{
    if s.len() > 0 {
        lemma_no_session_events(room_id, s.drop_last());
        assert(s.last().1.pending_events().map_values(|e: WebRTCSessionEvent| (room_id, e))
            =~= Seq::<(String, WebRTCSessionEvent)>::empty());
        assert(session_events(room_id, s) =~= Seq::<(String, WebRTCSessionEvent)>::empty());
    }
}

proof fn lemma_no_call_events(c: Seq<(String, CallContext)>)
    requires
        forall|i: int, j: int|
            0 <= i < c.len() && 0 <= j < c[i].1.sessions.entries().len() ==> (#[trigger] c[i].1.sessions.entries()[j]).1.pending_events().len() == 0,
    ensures
        call_events(c) == Seq::<(String, WebRTCSessionEvent)>::empty(),
    decreases c.len(),
{
    if c.len() > 0 {
        let last = c.last();
        assert forall|j: int| 0 <= j < last.1.sessions.entries().len() implies (#[trigger] last.1.sessions.entries()[j]).1.pending_events().len() == 0 by {
            assert(c[c.len() - 1] == last);
        }
        lemma_no_session_events(last.0, last.1.sessions.entries());
        assert forall|i: int, j: int|
            0 <= i < c.drop_last().len() && 0 <= j < c.drop_last()[i].1.sessions.entries().len() implies (#[trigger] c.drop_last()[i].1.sessions.entries()[j]).1.pending_events().len() == 0 by {
            assert(c.drop_last()[i] == c[i]);
        }
        lemma_no_call_events(c.drop_last());
        assert(call_events(c) =~= Seq::<(String, WebRTCSessionEvent)>::empty());
    }
}

/// Events are delivered once: after a poll has received every session's events (as
/// `poll_events` states of the calls before and after it), a second poll finds none.
pub proof fn law_second_poll_finds_nothing(before: WebRTCManager, after: WebRTCManager)
    requires
        before.wf(),
        after.wf(),
        after.spec_calls().dom() == before.spec_calls().dom(),
        forall|k: Seq<char>| #[trigger]
            before.spec_calls().contains_key(k) ==> call_drained(
                before.spec_calls()[k],
                after.spec_calls()[k],
            ),
    ensures
        call_events(after.spec_call_entries()) == Seq::<(String, WebRTCSessionEvent)>::empty(),
{
    let c = after.calls.entries();
    assert forall|i: int, j: int|
        0 <= i < c.len() && 0 <= j < c[i].1.sessions.entries().len() implies (#[trigger] c[i].1.sessions.entries()[j]).1.pending_events().len() == 0 by {
        after.calls.lemma_entry(i);
        let k = c[i].0@;
        assert(before.spec_calls().contains_key(k));
        let ctx = after.calls@[k];
        assert(ctx == c[i].1);
        assert(ctx.sessions.wf());
        ctx.sessions.lemma_entry(j);
        let p = ctx.sessions.entries()[j].0@;
        assert(before.spec_calls()[k].sessions@.contains_key(p));
    }
    lemma_no_call_events(c);
}

} // verus!
