//! MatrixRTC signalling data: call memberships, foci, SDP descriptions and the
//! decisions taken when a call-member state event arrives.
use vstd::prelude::*;

use crate::random::{hex_of, lemma_hex_of_len, push_hex_range, random_byte_block, is_lower_hex};
use crate::text::{owned, str_eq};

verus! {

/// The state event type for MatrixRTC call membership.
pub const MATRIXRTC_MEMBER_EVENT_TYPE: &'static str = "org.matrix.msc3401.call.member";

/// Application type for standard Matrix calls.
pub const MATRIXRTC_APPLICATION_CALL: &'static str = "m.call";

/// Focus type for LiveKit SFU.
pub const FOCUS_TYPE_LIVEKIT: &'static str = "livekit";

/// The default membership lifetime: one hour, in milliseconds.
pub open spec fn spec_default_expires_ms() -> u64 {
    3_600_000
}

/// The default membership scope, `m.room`.
pub fn default_scope() -> (r: String)
    ensures
        r@ == "m.room"@,
{
    owned("m.room")
}

/// The default membership lifetime in milliseconds (one hour).
pub fn default_expires_ms() -> (r: u64)
    ensures
        r == spec_default_expires_ms(),
{
    3_600_000
}

/// Information about the currently active focus (SFU).
pub struct FocusActive {
    /// Type of focus (e.g., "livekit").
    pub focus_type: String,
    /// Selection strategy for this focus.
    pub focus_selection: String,
}

impl FocusActive {
    /// Create a new LiveKit focus.
    pub fn livekit() -> (r: Self)
        ensures
            r.focus_type@ == FOCUS_TYPE_LIVEKIT@,
            r.focus_selection@ == "oldest_membership"@,
    {
        FocusActive { focus_type: owned(FOCUS_TYPE_LIVEKIT), focus_selection: owned("oldest_membership") }
    }
}

/// Information about a focus (SFU) that can be used for the call.
pub struct FocusInfo {
    /// Type of focus (e.g., "livekit").
    pub focus_type: String,
    /// LiveKit-specific information.
    pub livekit_alias: Option<String>,
    /// LiveKit service URL.
    pub livekit_service_url: Option<String>,
}

impl FocusInfo {
    /// Create a new LiveKit focus info.
    pub fn livekit(service_url: String, alias: Option<String>) -> (r: Self)
        ensures
            r.focus_type@ == FOCUS_TYPE_LIVEKIT@,
            r.livekit_alias == alias,
            r.livekit_service_url == Some(service_url),
    {
        FocusInfo {
            focus_type: owned(FOCUS_TYPE_LIVEKIT),
            livekit_alias: alias,
            livekit_service_url: Some(service_url),
        }
    }
}

/// A single call membership entry.
pub struct MatrixRTCMembership {
    /// The device ID of the participant.
    pub device_id: String,
    /// Unique identifier for this call session.
    pub call_id: String,
    /// Application type (e.g., "m.call").
    pub application: String,
    /// Scope of the call ("m.room" for room calls).
    pub scope: String,
    /// The currently active focus (SFU) for this participant.
    pub focus_active: Option<FocusActive>,
    /// Preferred foci (SFUs) for this participant.
    pub foci_preferred: Vec<FocusInfo>,
    /// Timestamp when this membership was created (ms since epoch).
    pub created_ts: u64,
    /// Membership expiration time in milliseconds.
    pub expires: u64,
}

/// Whether a membership created at `created_ts` (0 meaning unknown) with lifetime
/// `expires` has lapsed at `now`.
pub open spec fn spec_is_expired(created_ts: u64, expires: u64, now: u64) -> bool {
    created_ts > 0 && now > created_ts + expires
}

/// The expiry check of `m` does not overflow.
pub open spec fn expiry_fits(m: MatrixRTCMembership) -> bool {
    m.created_ts > 0 ==> m.created_ts + m.expires <= u64::MAX
}

impl MatrixRTCMembership {
    /// Create a new membership for the given device and call.
    pub fn new(device_id: String, call_id: String) -> (r: Self)
        ensures
            r.device_id == device_id,
            r.call_id == call_id,
            r.application@ == MATRIXRTC_APPLICATION_CALL@,
            r.scope@ == "m.room"@,
            r.focus_active is None,
            r.foci_preferred@.len() == 0,
            r.created_ts == 0,
            r.expires == spec_default_expires_ms(),
    {
        MatrixRTCMembership {
            device_id,
            call_id,
            application: owned(MATRIXRTC_APPLICATION_CALL),
            scope: default_scope(),
            focus_active: None,
            foci_preferred: Vec::new(),
            created_ts: 0,
            expires: default_expires_ms(),
        }
    }

    /// Set the creation timestamp.
    pub fn with_created_ts(self, ts: u64) -> (r: Self)
        ensures
            r == (MatrixRTCMembership { created_ts: ts, ..self }),
    {
        let mut m = self;
        m.created_ts = ts;
        m
    }

    /// Set the active focus.
    pub fn with_focus_active(self, focus: FocusActive) -> (r: Self)
        ensures
            r == (MatrixRTCMembership { focus_active: Some(focus), ..self }),
    {
        let mut m = self;
        m.focus_active = Some(focus);
        m
    }

    /// Add a preferred focus.
    pub fn add_preferred_focus(&mut self, focus: FocusInfo)
        ensures
            final(self).foci_preferred@ == old(self).foci_preferred@.push(focus),
            final(self).device_id == old(self).device_id,
            final(self).call_id == old(self).call_id,
            final(self).application == old(self).application,
            final(self).scope == old(self).scope,
            final(self).focus_active == old(self).focus_active,
            final(self).created_ts == old(self).created_ts,
            final(self).expires == old(self).expires,
    {
        self.foci_preferred.push(focus);
    }

    /// Check if this membership has expired.
    pub fn is_expired(&self, current_time_ms: u64) -> (r: bool)
        requires
            expiry_fits(*self),
        ensures
            r == spec_is_expired(self.created_ts, self.expires, current_time_ms),
    {
        self.created_ts > 0 && current_time_ms > self.created_ts + self.expires
    }
}

/// MatrixRTC member state event content: the call memberships of one user.
pub struct MatrixRTCMemberEvent {
    /// List of active call memberships for this user.
    pub memberships: Vec<MatrixRTCMembership>,
}

/// Whether `m` is still current at `now`.
pub open spec fn is_current(now: u64) -> spec_fn(MatrixRTCMembership) -> bool {
    |m: MatrixRTCMembership| !spec_is_expired(m.created_ts, m.expires, now)
}

/// The position of the first membership in `s` for `device_id`, if any.
pub open spec fn first_device_index(s: Seq<MatrixRTCMembership>, device_id: Seq<char>) -> Option<
    int,
> {
    if exists|i: int| 0 <= i < s.len() && #[trigger] s[i].device_id@ == device_id {
        Some(
            choose|i: int|
                0 <= i < s.len() && #[trigger] s[i].device_id@ == device_id && forall|j: int|
                    0 <= j < i ==> #[trigger] s[j].device_id@ != device_id,
        )
    } else {
        None
    }
}

impl MatrixRTCMemberEvent {
    /// Create a new empty member event.
    pub fn new() -> (r: Self)
        ensures
            r.memberships@.len() == 0,
    {
        MatrixRTCMemberEvent { memberships: Vec::new() }
    }

    /// The default member event has no memberships.
    pub fn default() -> (r: Self)
        ensures
            r.memberships@.len() == 0,
    {
        Self::new()
    }

    /// Create a member event with a single membership.
    pub fn with_membership(membership: MatrixRTCMembership) -> (r: Self)
        ensures
            r.memberships@ == seq![membership],
    {
        let mut v = Vec::new();
        v.push(membership);
        assert(v@ =~= seq![membership]);
        MatrixRTCMemberEvent { memberships: v }
    }

    /// Add a membership to this event.
    pub fn add_membership(&mut self, membership: MatrixRTCMembership)
        ensures
            final(self).memberships@ == old(self).memberships@.push(membership),
    {
        self.memberships.push(membership);
    }

    /// Remove expired memberships, keeping the others in order.
    pub fn remove_expired(&mut self, current_time_ms: u64)
        requires
            forall|i: int|
                0 <= i < old(self).memberships@.len() ==> expiry_fits(
                    #[trigger] old(self).memberships@[i],
                ),
        ensures
            final(self).memberships@ == old(self).memberships@.filter(is_current(current_time_ms)),
    {
        let ghost orig = self.memberships@;
        let ghost pred = is_current(current_time_ms);
        let mut rest: Vec<MatrixRTCMembership> = Vec::new();
        std::mem::swap(&mut rest, &mut self.memberships);
        let mut kept: Vec<MatrixRTCMembership> = Vec::new();
        let ghost mut k: int = 0;
        assert(orig.subrange(0, 0) =~= Seq::<MatrixRTCMembership>::empty());
        assert(orig.subrange(0, 0).filter(pred) =~= Seq::<MatrixRTCMembership>::empty()) by {
            reveal_with_fuel(Seq::<_>::filter, 1);
        }
        while rest.len() > 0
            invariant
                0 <= k <= orig.len(),
                rest@ == orig.subrange(k, orig.len() as int),
                kept@ == orig.subrange(0, k).filter(pred),
                pred == is_current(current_time_ms),
                forall|i: int| 0 <= i < orig.len() ==> expiry_fits(#[trigger] orig[i]),
            decreases rest@.len(),
        {
            let m = rest.remove(0);
            assert(m == orig[k]);
            let expired = m.is_expired(current_time_ms);
            assert(orig.subrange(0, k + 1).drop_last() =~= orig.subrange(0, k));
            assert(orig.subrange(0, k + 1).last() == m);
            proof {
                reveal_with_fuel(Seq::<_>::filter, 1);
            }
            if !expired {
                kept.push(m);
            }
            proof {
                k = k + 1;
            }
            assert(rest@ =~= orig.subrange(k, orig.len() as int));
        }
        assert(orig.subrange(0, k) =~= orig);
        self.memberships = kept;
    }

    /// Find the first membership for the given device.
    pub fn find_membership(&self, device_id: &str) -> (r: Option<&MatrixRTCMembership>)
        ensures
            match first_device_index(self.memberships@, device_id@) {
                Some(i) => r == Some(&self.memberships@[i]),
                None => r is None,
            },
    {
        let mut i: usize = 0;
        while i < self.memberships.len()
            invariant
                i <= self.memberships@.len(),
                forall|j: int| 0 <= j < i ==> #[trigger] self.memberships@[j].device_id@ != device_id@,
            decreases self.memberships@.len() - i,
        {
            if str_eq(self.memberships[i].device_id.as_str(), device_id) {
                let ghost s = self.memberships@;
                assert(exists|a: int| 0 <= a < s.len() && #[trigger] s[a].device_id@ == device_id@);
                let ghost c = choose|a: int|
                    0 <= a < s.len() && #[trigger] s[a].device_id@ == device_id@ && forall|j: int|
                        0 <= j < a ==> #[trigger] s[j].device_id@ != device_id@;
                assert(0 <= i < s.len() && s[i as int].device_id@ == device_id@ && forall|j: int|
                    0 <= j < i ==> #[trigger] s[j].device_id@ != device_id@);
                assert(c == i) by {
                    if c < i {
                        assert(s[c].device_id@ != device_id@);
                    } else if c > i {
                        assert(s[i as int].device_id@ != device_id@);
                    }
                }
                return Some(&self.memberships[i]);
            }
            i = i + 1;
        }
        None
    }
}

/// SDP offer/answer for WebRTC signalling.
pub struct SessionDescription {
    /// Type of SDP ("offer" or "answer").
    pub sdp_type: String,
    /// The SDP content.
    pub sdp: String,
}

impl SessionDescription {
    /// Create a new offer.
    pub fn offer(sdp: String) -> (r: Self)
        ensures
            r.sdp_type@ == "offer"@,
            r.sdp == sdp,
    {
        SessionDescription { sdp_type: owned("offer"), sdp }
    }

    /// Create a new answer.
    pub fn answer(sdp: String) -> (r: Self)
        ensures
            r.sdp_type@ == "answer"@,
            r.sdp == sdp,
    {
        SessionDescription { sdp_type: owned("answer"), sdp }
    }

    /// Check if this is an offer.
    pub fn is_offer(&self) -> (r: bool)
        ensures
            r == (self.sdp_type@ == "offer"@),
    {
        str_eq(self.sdp_type.as_str(), "offer")
    }

    /// Check if this is an answer.
    pub fn is_answer(&self) -> (r: bool)
        ensures
            r == (self.sdp_type@ == "answer"@),
    {
        str_eq(self.sdp_type.as_str(), "answer")
    }
}

/// ICE candidate for WebRTC connectivity.
pub struct IceCandidate {
    /// The ICE candidate string.
    pub candidate: String,
    /// SDP mid (media stream identification).
    pub sdp_mid: Option<String>,
    /// SDP m-line index.
    pub sdp_m_line_index: Option<u32>,
}

/// Call configuration from the homeserver.
pub struct CallConfiguration {
    /// TURN server URIs.
    pub turn_uris: Vec<String>,
    /// TURN username.
    pub turn_username: Option<String>,
    /// TURN password.
    pub turn_password: Option<String>,
    /// TURN credential TTL in seconds.
    pub turn_ttl: Option<u64>,
    /// LiveKit service URL if available.
    pub livekit_service_url: Option<String>,
}

impl CallConfiguration {
    /// The empty configuration.
    pub fn default() -> (r: Self)
        ensures
            r.turn_uris@.len() == 0,
            r.turn_username is None,
            r.turn_password is None,
            r.turn_ttl is None,
            r.livekit_service_url is None,
    {
        CallConfiguration {
            turn_uris: Vec::new(),
            turn_username: None,
            turn_password: None,
            turn_ttl: None,
            livekit_service_url: None,
        }
    }
}

/// Helper to encode bytes as a lowercase hex string.
pub fn encode(bytes: [u8; 8]) -> (s: String)
    ensures
        s@ == hex_of(bytes@),
{
    let mut s = String::new();
    push_hex_range(&mut s, &bytes, 0, 8);
    assert(bytes@.subrange(0, 8) =~= bytes@);
    s
}

/// Generate a unique call ID: sixteen lowercase hex digits of eight random bytes.
pub fn generate_call_id() -> (r: String)
    ensures
        r@.len() == 16,
        is_lower_hex(r@),
{
    let block = random_byte_block();
    let bytes: [u8; 8] = [
        block[0],
        block[1],
        block[2],
        block[3],
        block[4],
        block[5],
        block[6],
        block[7],
    ];
    let r = encode(bytes);
    proof {
        lemma_hex_of_len(bytes@);
    }
    r
}

/// A step to take when a user's call-member state event arrives.
pub enum MemberEventStep {
    /// The user has left the call: report it for the room.
    ParticipantLeft { room_id: String, user_id: String },
    /// A remote device joined or updated its membership: open a session with it and
    /// report the new participant.
    RemoteParticipantJoined { room_id: String, user_id: String, device_id: String },
}

/// Whether `step` reports that `user_id` left `room_id`.
pub open spec fn is_left_step(step: MemberEventStep, room_id: Seq<char>, user_id: Seq<char>) -> bool {
    step matches MemberEventStep::ParticipantLeft { room_id: r, user_id: u } && r@ == room_id
        && u@ == user_id
}

/// Whether `step` reports that device `device_id` of `user_id` joined `room_id`.
pub open spec fn is_joined_step(
    step: MemberEventStep,
    room_id: Seq<char>,
    user_id: Seq<char>,
    device_id: Seq<char>,
) -> bool {
    step matches MemberEventStep::RemoteParticipantJoined { room_id: r, user_id: u, device_id: d }
        && r@ == room_id && u@ == user_id && d@ == device_id
}

/// Whether the sender of an event is the local user.
pub open spec fn sender_is_local(local_user_id: Option<&str>, sender: Seq<char>) -> bool {
    match local_user_id {
        Some(l) => l@ == sender,
        None => false,
    }
}

/// Processes a call-member state event from `sender_user_id` in `room_id`: returns the
/// steps it calls for, which the caller carries out in order.
///
/// An event with no memberships means the sender left the call. Otherwise every
/// membership of a remote sender is a device that joined; the local user's own
/// memberships call for nothing.
pub fn handle_call_member_event_raw(
    room_id: &str,
    sender_user_id: &str,
    member_event: &MatrixRTCMemberEvent,
    local_user_id: Option<&str>,
) -> (r: Vec<MemberEventStep>)
    ensures
        member_event.memberships@.len() == 0 ==> r@.len() == 1 && is_left_step(
            r@[0],
            room_id@,
            sender_user_id@,
        ),
        member_event.memberships@.len() > 0 && sender_is_local(local_user_id, sender_user_id@)
            ==> r@.len() == 0,
        member_event.memberships@.len() > 0 && !sender_is_local(local_user_id, sender_user_id@)
            ==> {
            &&& r@.len() == member_event.memberships@.len()
            &&& forall|i: int|
                0 <= i < r@.len() ==> is_joined_step(
                    #[trigger] r@[i],
                    room_id@,
                    sender_user_id@,
                    member_event.memberships@[i].device_id@,
                )
        },
{
    let is_local_user = match local_user_id {
        Some(l) => str_eq(l, sender_user_id),
        None => false,
    };
    let mut steps: Vec<MemberEventStep> = Vec::new();
    if member_event.memberships.len() == 0 {
        steps.push(
            MemberEventStep::ParticipantLeft { room_id: owned(room_id), user_id: owned(sender_user_id) },
        );
        return steps;
    }
    if is_local_user {
        return steps;
    }
    let mut i: usize = 0;
    while i < member_event.memberships.len()
        invariant
            i <= member_event.memberships@.len(),
            steps@.len() == i,
            forall|j: int|
                0 <= j < i ==> is_joined_step(
                    #[trigger] steps@[j],
                    room_id@,
                    sender_user_id@,
                    member_event.memberships@[j].device_id@,
                ),
        decreases member_event.memberships@.len() - i,
    {
        steps.push(
            MemberEventStep::RemoteParticipantJoined {
                room_id: owned(room_id),
                user_id: owned(sender_user_id),
                device_id: member_event.memberships[i].device_id.clone(),
            },
        );
        i = i + 1;
    }
    steps
}

} // verus!
