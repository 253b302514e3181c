//! Call state machine, participants, and the per-room registry of call states.
use vstd::prelude::*;

use crate::assoc::AssocMap;
use crate::text::owned;



verus! {

/// A copy of an optional string that is equal to the original.
pub fn clone_opt_string(o: &Option<String>) -> (r: Option<String>)
    ensures
        r == *o,
{
    match o {
        Some(s) => Some(s.clone()),
        None => None,
    }
}

/// Reason why a call ended.
pub enum CallEndReason {
    /// User hung up normally.
    HungUp,
    /// Call was rejected.
    Rejected,
    /// Call timed out (no answer).
    Timeout,
    /// Network or other error.
    Error(String),
    /// Remote party ended the call.
    RemoteHangup,
}

impl Clone for CallEndReason {
    fn clone(&self) -> (r: Self)
        ensures
            r == *self,
    {
        match self {
            CallEndReason::HungUp => CallEndReason::HungUp,
            CallEndReason::Rejected => CallEndReason::Rejected,
            CallEndReason::Timeout => CallEndReason::Timeout,
            CallEndReason::Error(e) => CallEndReason::Error(e.clone()),
            CallEndReason::RemoteHangup => CallEndReason::RemoteHangup,
        }
    }
}

/// Information about a call participant.
pub struct CallParticipant {
    /// The Matrix user ID of this participant.
    pub user_id: String,
    /// The device ID participating in the call.
    pub device_id: String,
    /// Display name of the participant.
    pub display_name: Option<String>,
    /// Video track identifier if video is enabled.
    pub video_track_id: Option<String>,
    /// Audio track identifier if audio is enabled.
    pub audio_track_id: Option<String>,
    /// Whether the participant's audio is muted.
    pub is_muted: bool,
    /// Whether the participant's video is off.
    pub is_video_off: bool,
    /// Whether this participant is sharing their screen.
    pub is_screen_sharing: bool,
    /// Whether this participant is currently speaking.
    pub is_speaking: bool,
}

impl Clone for CallParticipant {
    fn clone(&self) -> (r: Self)
        ensures
            r == *self,
    {
        CallParticipant {
            user_id: self.user_id.clone(),
            device_id: self.device_id.clone(),
            display_name: clone_opt_string(&self.display_name),
            video_track_id: clone_opt_string(&self.video_track_id),
            audio_track_id: clone_opt_string(&self.audio_track_id),
            is_muted: self.is_muted,
            is_video_off: self.is_video_off,
            is_screen_sharing: self.is_screen_sharing,
            is_speaking: self.is_speaking,
        }
    }
}

impl CallParticipant {
    /// Create a new participant with the given user and device IDs.
    pub fn new(user_id: String, device_id: String) -> (r: Self)
        ensures
            r.user_id == user_id,
            r.device_id == device_id,
            r.display_name is None,
            r.video_track_id is None,
            r.audio_track_id is None,
            !r.is_muted,
            !r.is_video_off,
            !r.is_screen_sharing,
            !r.is_speaking,
    {
        CallParticipant {
            user_id,
            device_id,
            display_name: None,
            video_track_id: None,
            audio_track_id: None,
            is_muted: false,
            is_video_off: false,
            is_screen_sharing: false,
            is_speaking: false,
        }
    }

    /// The name to show for this participant: the display name if set, else the user ID.
    pub open spec fn spec_displayable_name(&self) -> Seq<char> {
        match self.display_name {
            Some(n) => n@,
            None => self.user_id@,
        }
    }

    /// Returns the displayable name for this participant.
    pub fn displayable_name(&self) -> (r: &str)
        ensures
            r@ == self.spec_displayable_name(),
    {
        match &self.display_name {
            Some(n) => n.as_str(),
            None => self.user_id.as_str(),
        }
    }
}

/// A copy of a list of participants that is equal to the original.
pub fn clone_participants(v: &Vec<CallParticipant>) -> (r: Vec<CallParticipant>)
    ensures
        r@ == v@,
{
    let mut r: Vec<CallParticipant> = Vec::new();
    let mut i: usize = 0;
    while i < v.len()
        invariant
            i <= v@.len(),
            r@ == v@.subrange(0, i as int),
        decreases v@.len() - i,
    {
        r.push(v[i].clone());
        i = i + 1;
        assert(r@ =~= v@.subrange(0, i as int));
    }
    assert(r@ =~= v@);
    r
}

/// Represents the current state of a call.
pub enum CallState {
    /// No active call in the room.
    Idle,
    /// An incoming call is ringing.
    Ringing { room_id: String, caller: CallParticipant },
    /// Connecting to the call (negotiating WebRTC).
    Connecting { room_id: String },
    /// Actively connected to the call.
    Connected {
        room_id: String,
        participants: Vec<CallParticipant>,
        /// Our local participant info.
        local_participant: CallParticipant,
        /// Whether this is a video call (vs audio-only).
        is_video_call: bool,
        /// Call start time in milliseconds since Unix epoch.
        start_time_ms: u64,
    },
    /// Disconnecting from the call.
    Disconnecting { room_id: String },
    /// Call ended or failed.
    Ended { room_id: String, reason: CallEndReason },
}

/// The mathematical value of a [`CallState`]: the same variants, with the participant
/// list seen as a sequence.
pub enum CallStateView {
    Idle,
    Ringing { room_id: Seq<char>, caller: CallParticipant },
    Connecting { room_id: Seq<char> },
    Connected {
        room_id: Seq<char>,
        participants: Seq<CallParticipant>,
        local_participant: CallParticipant,
        is_video_call: bool,
        start_time_ms: u64,
    },
    Disconnecting { room_id: Seq<char> },
    Ended { room_id: Seq<char>, reason: CallEndReason },
}

impl View for CallState {
    type V = CallStateView;

    open spec fn view(&self) -> CallStateView {
        match self {
            CallState::Idle => CallStateView::Idle,
            CallState::Ringing { room_id, caller } => CallStateView::Ringing {
                room_id: room_id@,
                caller: *caller,
            },
            CallState::Connecting { room_id } => CallStateView::Connecting { room_id: room_id@ },
            CallState::Connected {
                room_id,
                participants,
                local_participant,
                is_video_call,
                start_time_ms,
            } => CallStateView::Connected {
                room_id: room_id@,
                participants: participants@,
                local_participant: *local_participant,
                is_video_call: *is_video_call,
                start_time_ms: *start_time_ms,
            },
            CallState::Disconnecting { room_id } => CallStateView::Disconnecting {
                room_id: room_id@,
            },
            CallState::Ended { room_id, reason } => CallStateView::Ended {
                room_id: room_id@,
                reason: *reason,
            },
        }
    }
}

impl Clone for CallState {
    fn clone(&self) -> (r: Self)
        ensures
            r@ == self@,
    {
        match self {
            CallState::Idle => CallState::Idle,
            CallState::Ringing { room_id, caller } => CallState::Ringing {
                room_id: room_id.clone(),
                caller: caller.clone(),
            },
            CallState::Connecting { room_id } => CallState::Connecting { room_id: room_id.clone() },
            CallState::Connected {
                room_id,
                participants,
                local_participant,
                is_video_call,
                start_time_ms,
            } => CallState::Connected {
                room_id: room_id.clone(),
                participants: clone_participants(participants),
                local_participant: local_participant.clone(),
                is_video_call: *is_video_call,
                start_time_ms: *start_time_ms,
            },
            CallState::Disconnecting { room_id } => CallState::Disconnecting {
                room_id: room_id.clone(),
            },
            CallState::Ended { room_id, reason } => CallState::Ended {
                room_id: room_id.clone(),
                reason: reason.clone(),
            },
        }
    }
}

impl CallState {
    /// The default call state: no call.
    pub fn default() -> (r: Self)
        ensures
            r is Idle,
    {
        CallState::Idle
    }

    /// Whether the state is ringing, connecting, connected or disconnecting.
    pub open spec fn spec_is_active(&self) -> bool {
        ||| self is Ringing
        ||| self is Connecting
        ||| self is Connected
        ||| self is Disconnecting
    }

    /// Returns true if there is an active or connecting call.
    pub fn is_active(&self) -> (r: bool)
        ensures
            r == self.spec_is_active(),
    {
        match self {
            CallState::Ringing { .. } | CallState::Connecting { .. } | CallState::Connected {
                ..
            } | CallState::Disconnecting { .. } => true,
            _ => false,
        }
    }

    /// The room of an active call (ringing, connecting, connected or disconnecting);
    /// `None` when idle or ended.
    pub open spec fn spec_room_id(&self) -> Option<String> {
        match self {
            CallState::Ringing { room_id, .. } => Some(*room_id),
            CallState::Connecting { room_id } => Some(*room_id),
            CallState::Connected { room_id, .. } => Some(*room_id),
            CallState::Disconnecting { room_id } => Some(*room_id),
            _ => None,
        }
    }

    /// Returns the room ID if the call is in any active state.
    pub fn room_id(&self) -> (r: Option<&String>)
        ensures
            r is Some == self.spec_is_active(),
            match r {
                Some(id) => self.spec_room_id() == Some(*id),
                None => self.spec_room_id() is None,
            },
    {
        match self {
            CallState::Ringing { room_id, .. } => Some(room_id),
            CallState::Connecting { room_id } => Some(room_id),
            CallState::Connected { room_id, .. } => Some(room_id),
            CallState::Disconnecting { room_id } => Some(room_id),
            _ => None,
        }
    }

    /// Returns true if connected to a call.
    pub fn is_connected(&self) -> (r: bool)
        ensures
            r == (self is Connected),
    {
        match self {
            CallState::Connected { .. } => true,
            _ => false,
        }
    }

    /// Returns the participants if connected.
    pub fn participants(&self) -> (r: Option<&Vec<CallParticipant>>)
        ensures
            match self {
                CallState::Connected { participants, .. } => r == Some(participants),
                _ => r is None,
            },
    {
        match self {
            CallState::Connected { participants, .. } => Some(participants),
            _ => None,
        }
    }
}

/// What a lookup of `room_id` in the registry view `m` gives.
pub open spec fn lookup_state(m: Map<Seq<char>, CallStateView>, room_id: Seq<char>) -> Option<
    CallStateView,
> {
    if m.contains_key(room_id) {
        Some(m[room_id])
    } else {
        None
    }
}

/// The call state of each room that has one.
pub struct CallStates {
    states: AssocMap<String, CallState>,
}

impl View for CallStates {
    type V = Map<Seq<char>, CallStateView>;

    closed spec fn view(&self) -> Map<Seq<char>, CallStateView> {
        self.states@.map_values(|s: CallState| s@)
    }
}

impl CallStates {
    /// The registry's invariant.
    pub closed spec fn wf(&self) -> bool {
        self.states.wf()
    }

    /// A registry with no call states.
    pub fn new() -> (r: Self)
        ensures
            r.wf(),
            r@ == Map::<Seq<char>, CallStateView>::empty(),
    {
        let r = CallStates { states: AssocMap::new() };
        assert(r@ =~= Map::<Seq<char>, CallStateView>::empty());
        r
    }

    /// Get the call state for a specific room.
    pub fn get_call_state(&self, room_id: &str) -> (r: Option<CallState>)
        requires
            self.wf(),
        ensures
            match r {
                Some(s) => lookup_state(self@, room_id@) == Some(s@),
                None => lookup_state(self@, room_id@) is None,
            },
    {
        let key = owned(room_id);
        match self.states.get(&key) {
            Some(s) => Some(s.clone()),
            None => None,
        }
    }

    /// Set the call state for a specific room.
    pub fn set_call_state(&mut self, room_id: String, state: CallState)
        requires
            old(self).wf(),
        ensures
            final(self).wf(),
            final(self)@ == old(self)@.insert(room_id@, state@),
    {
        let ghost k = room_id@;
        let ghost v = state@;
        self.states.insert(room_id, state);
        assert(self@ =~= old(self)@.insert(k, v));
    }

    /// Remove the call state for a specific room.
    pub fn remove_call_state(&mut self, room_id: &str)
        requires
            old(self).wf(),
        ensures
            final(self).wf(),
            final(self)@ == old(self)@.remove(room_id@),
    {
        let key = owned(room_id);
        let _ = self.states.remove(&key);
        assert(self@ =~= old(self)@.remove(room_id@));
    }
}

/// Reading a room's call state gives back the state last set for that room.
pub proof fn law_get_after_set(m: Map<Seq<char>, CallStateView>, room_id: Seq<char>, s: CallStateView)
    ensures
        lookup_state(m.insert(room_id, s), room_id) == Some(s),
{
}

/// Setting one room's call state leaves every other room's state as it was.
pub proof fn law_set_leaves_other_rooms(
    m: Map<Seq<char>, CallStateView>,
    room_id: Seq<char>,
    other: Seq<char>,
    s: CallStateView,
)
    requires
        room_id != other,
    ensures
        lookup_state(m.insert(room_id, s), other) == lookup_state(m, other),
{
}

/// After a room's call state is removed, reading it gives nothing.
pub proof fn law_get_after_remove(m: Map<Seq<char>, CallStateView>, room_id: Seq<char>)
    ensures
        lookup_state(m.remove(room_id), room_id) is None,
{
}

/// A call that is ringing, connecting, connected or disconnecting is active and belongs
/// to the room it was made in; an idle or ended call is not active and names no room.
pub proof fn law_active_call_states(s: CallState)
    ensures
        s matches CallState::Ringing { room_id, .. } ==> s.spec_is_active() && s.spec_room_id()
            == Some(room_id),
        s matches CallState::Connecting { room_id } ==> s.spec_is_active() && s.spec_room_id()
            == Some(room_id),
        s matches CallState::Connected { room_id, .. } ==> s.spec_is_active() && s.spec_room_id()
            == Some(room_id),
        s matches CallState::Disconnecting { room_id } ==> s.spec_is_active()
            && s.spec_room_id() == Some(room_id),
        s is Idle ==> !s.spec_is_active() && s.spec_room_id() is None,
        s is Ended ==> !s.spec_is_active() && s.spec_room_id() is None,
{
}

/// A connected call is active whatever its participants, media and start time, and its
/// room is the room it is connected in.
pub proof fn law_connected_call_is_active(
    room_id: String,
    participants: Vec<CallParticipant>,
    local_participant: CallParticipant,
    is_video_call: bool,
    start_time_ms: u64,
)
    ensures
        (CallState::Connected {
            room_id,
            participants,
            local_participant,
            is_video_call,
            start_time_ms,
        }).spec_is_active(),
        (CallState::Connected {
            room_id,
            participants,
            local_participant,
            is_video_call,
            start_time_ms,
        }).spec_room_id() == Some(room_id),
{
}


/// What the call machinery tells the interface.
pub enum CallAction {
    /// The call state of a room changed.
    StateChanged { room_id: String, new_state: CallState },
    /// Show the call screen for a room, when joining a call.
    ShowCallScreen { room_id: String, user_display_name: Option<String> },
    /// Hide the call screen.
    HideCallScreen,
    /// A participant joined the call.
    ParticipantJoined { room_id: String, participant: CallParticipant },
    /// A participant left the call.
    ParticipantLeft { room_id: String, user_id: String },
    /// A participant's media state changed.
    ParticipantMediaChanged { room_id: String, user_id: String, is_muted: bool, is_video_off: bool },
    /// A local media device failed.
    MediaError { error: String },
    /// A call is coming in.
    IncomingCall { room_id: String, caller: CallParticipant, is_video_call: bool },
}

} // verus!
