//! LiveKit SFU client model: room state, published and subscribed tracks, and the
//! queue of events the client reports.
use vstd::prelude::*;

use crate::assoc::AssocMap;
use crate::call_state::clone_opt_string;
use crate::random::{hex_of, push_hex_range, random_byte_block};
use crate::text::{owned, push_char, str_eq};

verus! {

/// JWT token for LiveKit authentication.
pub struct LiveKitToken {
    /// The JWT token string.
    pub token: String,
    /// The LiveKit server URL.
    pub server_url: String,
    /// The room name in LiveKit.
    pub room_name: String,
}

/// Type of media track.
#[derive(Clone, Copy, PartialEq, Eq, Structural, Debug)]
pub enum TrackKind {
    Audio,
    Video,
    ScreenShare,
    ScreenShareAudio,
}

/// Connection quality levels.
#[derive(Clone, Copy, PartialEq, Eq, Structural, Debug)]
pub enum ConnectionQuality {
    Excellent,
    Good,
    Poor,
    Lost,
    Unknown,
}

/// Events from the LiveKit client.
pub enum LiveKitEvent {
    /// Connected to the LiveKit room.
    Connected { room_name: String },
    /// Disconnected from the LiveKit room.
    Disconnected { room_name: String, reason: String },
    /// A participant joined the room.
    ParticipantJoined { participant_id: String, user_id: Option<String> },
    /// A participant left the room.
    ParticipantLeft { participant_id: String },
    /// A participant's track was subscribed.
    TrackSubscribed { participant_id: String, track_sid: String, track_kind: TrackKind },
    /// A participant's track was unsubscribed.
    TrackUnsubscribed { participant_id: String, track_sid: String },
    /// A participant muted/unmuted their track.
    TrackMuted { participant_id: String, track_sid: String, muted: bool },
    /// Connection quality changed for a participant.
    ConnectionQualityChanged { participant_id: String, quality: ConnectionQuality },
    /// Error occurred.
    Error { message: String },
}

/// Configuration for the LiveKit client.
pub struct LiveKitConfig {
    /// Whether to enable automatic reconnection.
    pub auto_reconnect: bool,
    /// Reconnection timeout in milliseconds.
    pub reconnect_timeout_ms: u64,
    /// Whether to enable adaptive streaming.
    pub adaptive_stream: bool,
    /// Whether to enable dynacast (dynamic track publishing).
    pub dynacast: bool,
}

impl LiveKitConfig {
    /// Reconnecting, adaptive, dynacast, with a 30 s reconnection timeout.
    pub fn default() -> (r: Self)
        ensures
            r.auto_reconnect,
            r.reconnect_timeout_ms == 30_000,
            r.adaptive_stream,
            r.dynacast,
    {
        LiveKitConfig {
            auto_reconnect: true,
            reconnect_timeout_ms: 30_000,
            adaptive_stream: true,
            dynacast: true,
        }
    }
}

/// A media track in LiveKit.
pub struct LiveKitTrack {
    /// Track SID.
    pub track_sid: String,
    /// Track kind.
    pub kind: TrackKind,
    /// Whether the track is muted.
    pub muted: bool,
    /// Whether we are subscribed to this track.
    pub subscribed: bool,
}

impl Clone for LiveKitTrack {
    fn clone(&self) -> (r: Self)
        ensures
            r == *self,
    {
        LiveKitTrack {
            track_sid: self.track_sid.clone(),
            kind: self.kind,
            muted: self.muted,
            subscribed: self.subscribed,
        }
    }
}

/// A participant in the LiveKit room.
pub struct LiveKitParticipant {
    /// Unique participant ID (SID).
    pub participant_id: String,
    /// Participant identity (often the user ID).
    pub identity: String,
    /// Matrix user ID if available.
    pub user_id: Option<String>,
    /// Tracks from this participant.
    pub tracks: Vec<LiveKitTrack>,
    /// Connection quality.
    pub connection_quality: ConnectionQuality,
    /// Whether the participant is speaking.
    pub is_speaking: bool,
}

/// Whether `a` and `b` hold the same participant data.
pub open spec fn same_participant(a: LiveKitParticipant, b: LiveKitParticipant) -> bool {
    &&& a.participant_id == b.participant_id
    &&& a.identity == b.identity
    &&& a.user_id == b.user_id
    &&& a.tracks@ == b.tracks@
    &&& a.connection_quality == b.connection_quality
    &&& a.is_speaking == b.is_speaking
}

fn clone_tracks(v: &Vec<LiveKitTrack>) -> (r: Vec<LiveKitTrack>)
    ensures
        r@ == v@,
{
    let mut r: Vec<LiveKitTrack> = Vec::new();
    let mut i: usize = 0;
    while i < v.len()
        invariant
            i <= v@.len(),
            r@ == v@.subrange(0, i as int),
        decreases v@.len() - i,
    {
        r.push(v[i].clone());
        i = i + 1;
        assert(r@ =~= v@.subrange(0, i as int));
    }
    assert(r@ =~= v@);
    r
}

impl LiveKitParticipant {
    /// A copy of this participant.
    pub fn duplicate(&self) -> (r: Self)
        ensures
            same_participant(r, *self),
    {
        LiveKitParticipant {
            participant_id: self.participant_id.clone(),
            identity: self.identity.clone(),
            user_id: clone_opt_string(&self.user_id),
            tracks: clone_tracks(&self.tracks),
            connection_quality: self.connection_quality,
            is_speaking: self.is_speaking,
        }
    }
}

/// LiveKit room state.
pub struct LiveKitRoomState {
    /// Whether we are connected to the room.
    pub is_connected: bool,
    /// The room name.
    pub room_name: Option<String>,
    /// Local participant identity.
    pub local_participant_id: Option<String>,
    /// Remote participants in the room, keyed by participant ID.
    pub participants: AssocMap<String, LiveKitParticipant>,
    /// Our local tracks that are published.
    pub local_tracks: Vec<LiveKitTrack>,
}

impl LiveKitRoomState {
    /// A disconnected room with no participants and no tracks.
    pub fn default() -> (r: Self)
        ensures
            !r.is_connected,
            r.room_name is None,
            r.local_participant_id is None,
            r.participants.wf(),
            r.participants@ == Map::<Seq<char>, LiveKitParticipant>::empty(),
            r.local_tracks@.len() == 0,
    {
        LiveKitRoomState {
            is_connected: false,
            room_name: None,
            local_participant_id: None,
            participants: AssocMap::new(),
            local_tracks: Vec::new(),
        }
    }
}

/// The position of the first track in `s` with SID `sid`, if any.
pub open spec fn first_track_index(s: Seq<LiveKitTrack>, sid: Seq<char>) -> Option<int> {
    if exists|i: int| 0 <= i < s.len() && #[trigger] s[i].track_sid@ == sid {
        Some(
            choose|i: int|
                0 <= i < s.len() && #[trigger] s[i].track_sid@ == sid && forall|j: int|
                    0 <= j < i ==> #[trigger] s[j].track_sid@ != sid,
        )
    } else {
        None
    }
}

/// `s` with the first track of SID `sid` (if any) muted or unmuted.
pub open spec fn with_track_muted(s: Seq<LiveKitTrack>, sid: Seq<char>, muted: bool) -> Seq<
    LiveKitTrack,
> {
    match first_track_index(s, sid) {
        Some(i) => s.update(i, LiveKitTrack { muted, ..s[i] }),
        None => s,
    }
}

/// `s` with the first track of SID `sid` (if any) marked subscribed or not.
pub open spec fn with_track_subscribed(s: Seq<LiveKitTrack>, sid: Seq<char>, subscribed: bool) -> Seq<
    LiveKitTrack,
> {
    match first_track_index(s, sid) {
        Some(i) => s.update(i, LiveKitTrack { subscribed, ..s[i] }),
        None => s,
    }
}

/// Whether `t` is not the track `sid`.
pub open spec fn track_other_than(sid: Seq<char>) -> spec_fn(LiveKitTrack) -> bool {
    |t: LiveKitTrack| t.track_sid@ != sid
}

/// Position of the first track with SID `sid`.
pub fn find_track(tracks: &Vec<LiveKitTrack>, sid: &str) -> (r: Option<usize>)
    ensures
        r matches Some(i) ==> i < tracks@.len() && tracks@[i as int].track_sid@ == sid@,
        match first_track_index(tracks@, sid@) {
            Some(i) => r matches Some(j) && j as int == i,
            None => r is None,
        },
{
    let mut i: usize = 0;
    while i < tracks.len()
        invariant
            i <= tracks@.len(),
            forall|j: int| 0 <= j < i ==> #[trigger] tracks@[j].track_sid@ != sid@,
        decreases tracks@.len() - i,
    {
        if str_eq(tracks[i].track_sid.as_str(), sid) {
            let ghost s = tracks@;
            assert(exists|a: int| 0 <= a < s.len() && #[trigger] s[a].track_sid@ == sid@);
            let ghost c = choose|a: int|
                0 <= a < s.len() && #[trigger] s[a].track_sid@ == sid@ && forall|j: int|
                    0 <= j < a ==> #[trigger] s[j].track_sid@ != sid@;
            assert(0 <= i < s.len() && s[i as int].track_sid@ == sid@ && forall|j: int|
                0 <= j < i ==> #[trigger] s[j].track_sid@ != sid@);
            assert(c == i) by {
                if c < i {
                    assert(s[c].track_sid@ != sid@);
                } else if c > i {
                    assert(s[i as int].track_sid@ != sid@);
                }
            }
            return Some(i);
        }
        i = i + 1;
    }
    None
}

/// The UUID-shaped text of sixteen bytes: hex groups of 4, 2, 2, 2 and 6 bytes
/// separated by hyphens.
pub open spec fn uuid_text(b: Seq<u8>) -> Seq<char> {
    hex_of(b.subrange(0, 4)) + seq!['-'] + hex_of(b.subrange(4, 6)) + seq!['-'] + hex_of(
        b.subrange(6, 8),
    ) + seq!['-'] + hex_of(b.subrange(8, 10)) + seq!['-'] + hex_of(b.subrange(10, 16))
}

/// Formats sixteen bytes in the UUID layout.
pub fn format_uuid(bytes: &[u8; 16]) -> (r: String)
    ensures
        r@ == uuid_text(bytes@),
{
    let mut s = String::new();
    push_hex_range(&mut s, bytes, 0, 4);
    push_char(&mut s, '-');
    push_hex_range(&mut s, bytes, 4, 6);
    push_char(&mut s, '-');
    push_hex_range(&mut s, bytes, 6, 8);
    push_char(&mut s, '-');
    push_hex_range(&mut s, bytes, 8, 10);
    push_char(&mut s, '-');
    push_hex_range(&mut s, bytes, 10, 16);
    assert(s@ =~= uuid_text(bytes@));
    s
}

/// Generate a random UUID v4-like string.
pub fn uuid_v4() -> (r: String)
    ensures
        exists|b: Seq<u8>| b.len() == 16 && r@ == uuid_text(b),
{
    let bytes = random_byte_block();
    format_uuid(&bytes)
}

/// Client for a LiveKit room.
pub struct LiveKitClient {
    /// Configuration.
    config: LiveKitConfig,
    /// Current room state.
    state: LiveKitRoomState,
    /// Events reported and not yet received, oldest first.
    events: Vec<LiveKitEvent>,
    /// Associated Matrix room ID.
    room_id: Option<String>,
}

impl LiveKitClient {
    /// The client's invariant.
    pub closed spec fn wf(&self) -> bool {
        self.state.participants.wf()
    }

    /// The current room state.
    pub closed spec fn spec_state(&self) -> LiveKitRoomState {
        self.state
    }

    /// The events not yet received, oldest first.
    pub closed spec fn pending_events(&self) -> Seq<LiveKitEvent> {
        self.events@
    }

    /// The associated Matrix room.
    pub closed spec fn spec_room_id(&self) -> Option<String> {
        self.room_id
    }

    /// The configuration.
    pub closed spec fn spec_config(&self) -> LiveKitConfig {
        self.config
    }

    /// Create a new LiveKit client.
    pub fn new(config: LiveKitConfig) -> (r: Self)
        ensures
            r.wf(),
            r.spec_config() == config,
            !r.spec_state().is_connected,
            r.spec_state().room_name is None,
            r.spec_state().local_participant_id is None,
            r.spec_state().participants@ == Map::<Seq<char>, LiveKitParticipant>::empty(),
            r.spec_state().local_tracks@.len() == 0,
            r.pending_events().len() == 0,
            r.spec_room_id() is None,
    {
        LiveKitClient {
            config,
            state: LiveKitRoomState::default(),
            events: Vec::new(),
            room_id: None,
        }
    }

    /// A client with the default configuration.
    pub fn default() -> (r: Self)
        ensures
            r.wf(),
            r.spec_config().auto_reconnect,
            r.spec_config().reconnect_timeout_ms == 30_000,
            r.spec_config().adaptive_stream,
            r.spec_config().dynacast,
            !r.spec_state().is_connected,
            r.spec_state().room_name is None,
            r.spec_state().local_participant_id is None,
            r.spec_state().participants@ == Map::<Seq<char>, LiveKitParticipant>::empty(),
            r.spec_state().local_tracks@.len() == 0,
            r.pending_events().len() == 0,
            r.spec_room_id() is None,
    {
        Self::new(LiveKitConfig::default())
    }

    /// Connect to a LiveKit room using the given token.
    pub fn connect(&mut self, token: LiveKitToken, room_id: String) -> (r: Result<(), String>)
        requires
            old(self).wf(),
        ensures
            final(self).wf(),
            r is Ok,
            final(self).spec_room_id() == Some(room_id),
            final(self).spec_state().is_connected,
            final(self).spec_state().room_name == Some(token.room_name),
            final(self).spec_state().local_participant_id matches Some(l) && l@ == "local"@,
            final(self).spec_state().participants == old(self).spec_state().participants,
            final(self).spec_state().local_tracks == old(self).spec_state().local_tracks,
            final(self).spec_config() == old(self).spec_config(),
            final(self).pending_events() == old(self).pending_events().push(
                LiveKitEvent::Connected { room_name: token.room_name },
            ),
    {
        self.room_id = Some(room_id);
        self.state.is_connected = true;
        self.state.room_name = Some(token.room_name.clone());
        self.state.local_participant_id = Some(owned("local"));
        self.events.push(LiveKitEvent::Connected { room_name: token.room_name });
        Ok(())
    }

    /// Disconnect from the current LiveKit room.
    pub fn disconnect(&mut self) -> (r: Result<(), String>)
        requires
            old(self).wf(),
        ensures
            final(self).wf(),
            r is Ok,
            final(self).spec_room_id() is None,
            final(self).spec_config() == old(self).spec_config(),
            match old(self).spec_state().room_name {
                Some(name) => {
                    &&& !final(self).spec_state().is_connected
                    &&& final(self).spec_state().room_name is None
                    &&& final(self).spec_state().local_participant_id is None
                    &&& final(self).spec_state().participants@ == Map::<
                        Seq<char>,
                        LiveKitParticipant,
                    >::empty()
                    &&& final(self).spec_state().local_tracks@.len() == 0
                    &&& final(self).pending_events().len() == old(self).pending_events().len() + 1
                    &&& final(self).pending_events().drop_last() == old(self).pending_events()
                    &&& final(self).pending_events().last() matches LiveKitEvent::Disconnected {
                        room_name,
                        reason,
                    } && room_name == name && reason@ == "User disconnected"@
                },
                None => {
                    &&& final(self).spec_state() == old(self).spec_state()
                    &&& final(self).pending_events() == old(self).pending_events()
                },
            },
    {
        let room_name = clone_opt_string(&self.state.room_name);
        if let Some(room_name) = room_name {
            self.state.is_connected = false;
            self.state.room_name = None;
            self.state.local_participant_id = None;
            self.state.participants = AssocMap::new();
            self.state.local_tracks = Vec::new();
            self.events.push(
                LiveKitEvent::Disconnected { room_name, reason: owned("User disconnected") },
            );
        }
        self.room_id = None;
        Ok(())
    }

    /// Publishes a local track of the given kind under a fresh SID `<prefix>_<uuid>`.
    fn publish(&mut self, prefix: &str, kind: TrackKind) -> (r: Result<String, String>)
        requires
            old(self).wf(),
        ensures
            final(self).wf(),
            r matches Ok(sid) && {
                &&& exists|b: Seq<u8>| b.len() == 16 && sid@ == prefix@ + seq!['_'] + uuid_text(b)
                &&& final(self).spec_state() == (LiveKitRoomState {
                    local_tracks: final(self).spec_state().local_tracks,
                    ..old(self).spec_state()
                })
                &&& final(self).spec_state().local_tracks@ == old(self).spec_state().local_tracks@.push(
                    LiveKitTrack { track_sid: sid, kind, muted: false, subscribed: true },
                )
            },
            final(self).pending_events() == old(self).pending_events(),
            final(self).spec_room_id() == old(self).spec_room_id(),
            final(self).spec_config() == old(self).spec_config(),
    {
        let mut track_sid = owned(prefix);
        push_char(&mut track_sid, '_');
        let id = uuid_v4();
        track_sid.append(id.as_str());
        self.state.local_tracks.push(
            LiveKitTrack { track_sid: track_sid.clone(), kind, muted: false, subscribed: true },
        );
        Ok(track_sid)
    }

    /// Publish a local video track; its SID is `video_` followed by a random UUID.
    pub fn publish_video(&mut self) -> (r: Result<String, String>)
        requires
            old(self).wf(),
        ensures
            final(self).wf(),
            r matches Ok(sid) && {
                &&& exists|b: Seq<u8>| b.len() == 16 && sid@ == "video"@ + seq!['_'] + uuid_text(b)
                &&& final(self).spec_state() == (LiveKitRoomState {
                    local_tracks: final(self).spec_state().local_tracks,
                    ..old(self).spec_state()
                })
                &&& final(self).spec_state().local_tracks@ == old(self).spec_state().local_tracks@.push(
                    LiveKitTrack {
                        track_sid: sid,
                        kind: TrackKind::Video,
                        muted: false,
                        subscribed: true,
                    },
                )
            },
            final(self).pending_events() == old(self).pending_events(),
            final(self).spec_room_id() == old(self).spec_room_id(),
            final(self).spec_config() == old(self).spec_config(),
    {
        self.publish("video", TrackKind::Video)
    }

    /// Publish a local audio track; its SID is `audio_` followed by a random UUID.
    pub fn publish_audio(&mut self) -> (r: Result<String, String>)
        requires
            old(self).wf(),
        ensures
            final(self).wf(),
            r matches Ok(sid) && {
                &&& exists|b: Seq<u8>| b.len() == 16 && sid@ == "audio"@ + seq!['_'] + uuid_text(b)
                &&& final(self).spec_state() == (LiveKitRoomState {
                    local_tracks: final(self).spec_state().local_tracks,
                    ..old(self).spec_state()
                })
                &&& final(self).spec_state().local_tracks@ == old(self).spec_state().local_tracks@.push(
                    LiveKitTrack {
                        track_sid: sid,
                        kind: TrackKind::Audio,
                        muted: false,
                        subscribed: true,
                    },
                )
            },
            final(self).pending_events() == old(self).pending_events(),
            final(self).spec_room_id() == old(self).spec_room_id(),
            final(self).spec_config() == old(self).spec_config(),
    {
        self.publish("audio", TrackKind::Audio)
    }

    /// Unpublish a local track: every local track with SID `track_sid` is dropped.
    pub fn unpublish_track(&mut self, track_sid: &str) -> (r: Result<(), String>)
        requires
            old(self).wf(),
        ensures
            final(self).wf(),
            r is Ok,
            final(self).spec_state() == (LiveKitRoomState {
                local_tracks: final(self).spec_state().local_tracks,
                ..old(self).spec_state()
            }),
            final(self).spec_state().local_tracks@ == old(self).spec_state().local_tracks@.filter(
                track_other_than(track_sid@),
            ),
            final(self).pending_events() == old(self).pending_events(),
            final(self).spec_room_id() == old(self).spec_room_id(),
            final(self).spec_config() == old(self).spec_config(),
    {
        let ghost orig = self.state.local_tracks@;
        let ghost pred = track_other_than(track_sid@);
        let mut rest: Vec<LiveKitTrack> = Vec::new();
        std::mem::swap(&mut rest, &mut self.state.local_tracks);
        let mut kept: Vec<LiveKitTrack> = Vec::new();
        let ghost mut k: int = 0;
        assert(orig.subrange(0, 0).filter(pred) =~= Seq::<LiveKitTrack>::empty()) by {
            reveal_with_fuel(Seq::<_>::filter, 1);
        }
        while rest.len() > 0
            invariant
                0 <= k <= orig.len(),
                rest@ == orig.subrange(k, orig.len() as int),
                kept@ == orig.subrange(0, k).filter(pred),
                pred == track_other_than(track_sid@),
            decreases rest@.len(),
        {
            let t = rest.remove(0);
            assert(t == orig[k]);
            let same = str_eq(t.track_sid.as_str(), track_sid);
            assert(orig.subrange(0, k + 1).drop_last() =~= orig.subrange(0, k));
            proof {
                reveal_with_fuel(Seq::<_>::filter, 1);
            }
            if !same {
                kept.push(t);
            }
            proof {
                k = k + 1;
            }
            assert(rest@ =~= orig.subrange(k, orig.len() as int));
        }
        assert(orig.subrange(0, k) =~= orig);
        self.state.local_tracks = kept;
        Ok(())
    }

    /// Mute or unmute the first local track with SID `track_sid`, if there is one.
    pub fn set_track_muted(&mut self, track_sid: &str, muted: bool) -> (r: Result<(), String>)
        requires
            old(self).wf(),
        ensures
            final(self).wf(),
            r is Ok,
            final(self).spec_state() == (LiveKitRoomState {
                local_tracks: final(self).spec_state().local_tracks,
                ..old(self).spec_state()
            }),
            final(self).spec_state().local_tracks@ == with_track_muted(
                old(self).spec_state().local_tracks@,
                track_sid@,
                muted,
            ),
            final(self).pending_events() == old(self).pending_events(),
            final(self).spec_room_id() == old(self).spec_room_id(),
            final(self).spec_config() == old(self).spec_config(),
    {
        if let Some(i) = find_track(&self.state.local_tracks, track_sid) {
            let t = self.state.local_tracks[i].clone();
            self.state.local_tracks.set(i, LiveKitTrack { muted, ..t });
        }
        Ok(())
    }

    /// Marks the first track `track_sid` of participant `participant_id` subscribed or not.
    fn mark_subscribed(&mut self, participant_id: &str, track_sid: &str, subscribed: bool)
        requires
            old(self).wf(),
        ensures
            final(self).wf(),
            final(self).spec_state() == (LiveKitRoomState {
                participants: final(self).spec_state().participants,
                ..old(self).spec_state()
            }),
            old(self).spec_state().participants@.contains_key(participant_id@) ==> {
                let p = old(self).spec_state().participants@[participant_id@];
                final(self).spec_state().participants@ == old(self).spec_state().participants@.insert(
                    participant_id@,
                    LiveKitParticipant {
                        tracks: final(self).spec_state().participants@[participant_id@].tracks,
                        ..p
                    },
                ) && final(self).spec_state().participants@[participant_id@].tracks@
                    == with_track_subscribed(p.tracks@, track_sid@, subscribed)
            },
            !old(self).spec_state().participants@.contains_key(participant_id@) ==> final(self).spec_state() == old(self).spec_state(),
            final(self).pending_events() == old(self).pending_events(),
            final(self).spec_room_id() == old(self).spec_room_id(),
            final(self).spec_config() == old(self).spec_config(),
    {
        let key = owned(participant_id);
        let ghost k = key@;
        let ghost before = self.state.participants@;
        match self.state.participants.remove(&key) {
            Some(p) => {
                let mut p = p;
                let ghost p0 = p;
                if let Some(i) = find_track(&p.tracks, track_sid) {
                    let t = p.tracks[i].clone();
                    p.tracks.set(i, LiveKitTrack { subscribed, ..t });
                }
                let ghost p1 = p;
                self.state.participants.insert(key, p);
                assert(self.state.participants@ =~= before.insert(k, p1));
                assert(p1 == LiveKitParticipant { tracks: p1.tracks, ..p0 });
            },
            None => {},
        }
    }

    /// Subscribe to a remote participant's track, and report the subscription.
    pub fn subscribe_track(&mut self, participant_id: &str, track_sid: &str) -> (r: Result<(), String>)
        requires
            old(self).wf(),
        ensures
            final(self).wf(),
            r is Ok,
            final(self).spec_state() == (LiveKitRoomState {
                participants: final(self).spec_state().participants,
                ..old(self).spec_state()
            }),
            old(self).spec_state().participants@.contains_key(participant_id@) ==> {
                let p = old(self).spec_state().participants@[participant_id@];
                final(self).spec_state().participants@ == old(self).spec_state().participants@.insert(
                    participant_id@,
                    LiveKitParticipant {
                        tracks: final(self).spec_state().participants@[participant_id@].tracks,
                        ..p
                    },
                ) && final(self).spec_state().participants@[participant_id@].tracks@
                    == with_track_subscribed(p.tracks@, track_sid@, true)
            },
            !old(self).spec_state().participants@.contains_key(participant_id@) ==> final(self).spec_state() == old(self).spec_state(),
            final(self).pending_events().drop_last() == old(self).pending_events(),
            final(self).pending_events().len() == old(self).pending_events().len() + 1,
            final(self).pending_events().last() matches LiveKitEvent::TrackSubscribed {
                participant_id: p,
                track_sid: t,
                track_kind,
            } && p@ == participant_id@ && t@ == track_sid@ && track_kind == TrackKind::Video,
            final(self).spec_room_id() == old(self).spec_room_id(),
            final(self).spec_config() == old(self).spec_config(),
    {
        self.mark_subscribed(participant_id, track_sid, true);
        let ghost before = self.events@;
        self.events.push(
            LiveKitEvent::TrackSubscribed {
                participant_id: owned(participant_id),
                track_sid: owned(track_sid),
                track_kind: TrackKind::Video,
            },
        );
        assert(self.events@.drop_last() =~= before);
        Ok(())
    }

    /// Unsubscribe from a remote participant's track, and report it.
    pub fn unsubscribe_track(&mut self, participant_id: &str, track_sid: &str) -> (r: Result<
        (),
        String,
    >)
        requires
            old(self).wf(),
        ensures
            final(self).wf(),
            r is Ok,
            final(self).spec_state() == (LiveKitRoomState {
                participants: final(self).spec_state().participants,
                ..old(self).spec_state()
            }),
            old(self).spec_state().participants@.contains_key(participant_id@) ==> {
                let p = old(self).spec_state().participants@[participant_id@];
                final(self).spec_state().participants@ == old(self).spec_state().participants@.insert(
                    participant_id@,
                    LiveKitParticipant {
                        tracks: final(self).spec_state().participants@[participant_id@].tracks,
                        ..p
                    },
                ) && final(self).spec_state().participants@[participant_id@].tracks@
                    == with_track_subscribed(p.tracks@, track_sid@, false)
            },
            !old(self).spec_state().participants@.contains_key(participant_id@) ==> final(self).spec_state() == old(self).spec_state(),
            final(self).pending_events().drop_last() == old(self).pending_events(),
            final(self).pending_events().len() == old(self).pending_events().len() + 1,
            final(self).pending_events().last() matches LiveKitEvent::TrackUnsubscribed {
                participant_id: p,
                track_sid: t,
            } && p@ == participant_id@ && t@ == track_sid@,
            final(self).spec_room_id() == old(self).spec_room_id(),
            final(self).spec_config() == old(self).spec_config(),
    {
        self.mark_subscribed(participant_id, track_sid, false);
        let ghost before = self.events@;
        self.events.push(
            LiveKitEvent::TrackUnsubscribed {
                participant_id: owned(participant_id),
                track_sid: owned(track_sid),
            },
        );
        assert(self.events@.drop_last() =~= before);
        Ok(())
    }

    /// The current room state.
    pub fn state(&self) -> (r: &LiveKitRoomState)
        ensures
            *r == self.spec_state(),
    {
        &self.state
    }

    /// Check if connected to a room.
    pub fn is_connected(&self) -> (r: bool)
        ensures
            r == self.spec_state().is_connected,
    {
        self.state.is_connected
    }

    /// Take the oldest event not yet received, if any.
    pub fn try_recv_event(&mut self) -> (r: Option<LiveKitEvent>)
        ensures
            final(self).spec_state() == old(self).spec_state(),
            final(self).spec_room_id() == old(self).spec_room_id(),
            final(self).spec_config() == old(self).spec_config(),
            old(self).wf() ==> final(self).wf(),
            old(self).pending_events().len() == 0 ==> r is None && final(self).pending_events()
                == old(self).pending_events(),
            old(self).pending_events().len() > 0 ==> r == Some(old(self).pending_events()[0])
                && final(self).pending_events() == old(self).pending_events().drop_first(),
    {
        if self.events.len() == 0 {
            None
        } else {
            let e = self.events.remove(0);
            assert(self.events@ =~= old(self).pending_events().drop_first());
            Some(e)
        }
    }

    /// Get the associated Matrix room ID.
    pub fn room_id(&self) -> (r: Option<&String>)
        ensures
            match self.spec_room_id() {
                Some(id) => r == Some(&id),
                None => r is None,
            },
    {
        match &self.room_id {
            Some(id) => Some(id),
            None => None,
        }
    }

    /// Get the list of participants, one per participant ID, in the order the room state
    /// stores them (each stored entry is a key of the participant map with its value:
    /// see `AssocMap::lemma_entry` and `AssocMap::lemma_key`).
    pub fn participants(&self) -> (r: Vec<LiveKitParticipant>)
        requires
            self.wf(),
        ensures
            r@.len() == self.spec_state().participants.entries().len(),
            r@.len() == self.spec_state().participants@.dom().len(),
            forall|j: int|
                0 <= j < r@.len() ==> same_participant(
                    #[trigger] r@[j],
                    self.spec_state().participants.entries()[j].1,
                ),
    {
        let n = self.state.participants.len();
        let mut r: Vec<LiveKitParticipant> = Vec::new();
        let mut i: usize = 0;
        while i < n
            invariant
                n == self.state.participants.entries().len(),
                self.state.participants.wf(),
                i <= n,
                r@.len() == i,
                forall|j: int|
                    0 <= j < i ==> same_participant(
                        #[trigger] r@[j],
                        self.state.participants.entries()[j].1,
                    ),
            decreases n - i,
        {
            let entry = self.state.participants.entry(i);
            r.push(entry.1.duplicate());
            i = i + 1;
        }
        r
    }
}

/// Helper to create a LiveKit JWT token.
///
/// Token generation is not available: every request is refused with the same message.
pub fn create_livekit_token(
    api_key: &str,
    api_secret: &str,
    room_name: &str,
    participant_identity: &str,
    ttl_seconds: u64,
) -> (r: Result<String, String>)
    ensures
        r matches Err(e) && e@ == "LiveKit token generation requires actual API keys"@,
{
    Err(owned("LiveKit token generation requires actual API keys"))
}


proof fn lemma_filter_keeps_all(tracks: Seq<LiveKitTrack>, sid: Seq<char>)
    requires
        forall|i: int| 0 <= i < tracks.len() ==> #[trigger] tracks[i].track_sid@ != sid,
    ensures
        tracks.filter(track_other_than(sid)) == tracks,
    decreases tracks.len(),
{
    reveal_with_fuel(Seq::<_>::filter, 1);
    if tracks.len() > 0 {
        let p = tracks.drop_last();
        assert forall|i: int| 0 <= i < p.len() implies #[trigger] p[i].track_sid@ != sid by {
            assert(p[i] == tracks[i]);
        }
        lemma_filter_keeps_all(p, sid);
        assert(tracks.last().track_sid@ != sid);
        assert(p.push(tracks.last()) =~= tracks);
    }
}

/// Unpublishing a track just published takes the local tracks back to what they were,
/// when no earlier local track had its SID.
pub proof fn law_unpublish_undoes_publish(tracks: Seq<LiveKitTrack>, published: LiveKitTrack)
    requires
        forall|i: int| 0 <= i < tracks.len() ==> #[trigger] tracks[i].track_sid@
            != published.track_sid@,
    ensures
        tracks.push(published).filter(track_other_than(published.track_sid@)) == tracks,
{
    reveal_with_fuel(Seq::<_>::filter, 1);
    lemma_filter_keeps_all(tracks, published.track_sid@);
    assert(tracks.push(published).drop_last() =~= tracks);
}

} // verus!
