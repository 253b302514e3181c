//! WebRTC peer sessions: their settings (track kinds, ICE server configuration) and the
//! state a session keeps of its peer connection (which side offered, the local tracks,
//! the reported connection states, and the events not yet received).
use vstd::prelude::*;

use crate::call_state::clone_opt_string;
use crate::matrixrtc::{IceCandidate, SessionDescription};
use crate::text::{first_id_index, index_of_str, owned};

verus! {

/// Type of media track.
#[derive(Clone, Copy, PartialEq, Eq, Structural, Debug)]
pub enum TrackKind {
    Audio,
    Video,
}

/// The codec type a remote track reports (`Unspecified`, `Audio` or `Video`).
#[derive(Clone, Copy, PartialEq, Eq, Structural, Debug)]
pub enum RtpCodecKind {
    Unspecified,
    Audio,
    Video,
}

/// The track kind for a codec type; anything but video counts as audio.
pub fn track_kind_from_codec(codec_type: RtpCodecKind) -> (r: TrackKind)
    ensures
        r == (if codec_type == RtpCodecKind::Video {
            TrackKind::Video
        } else {
            TrackKind::Audio
        }),
{
    match codec_type {
        RtpCodecKind::Audio => TrackKind::Audio,
        RtpCodecKind::Video => TrackKind::Video,
        _ => TrackKind::Audio,
    }
}

/// A copy of a list of strings.
pub fn clone_strings(v: &Vec<String>) -> (r: Vec<String>)
    ensures
        r@ == v@,
{
    let mut r: Vec<String> = Vec::new();
    let mut i: usize = 0;
    while i < v.len()
        invariant
            i <= v@.len(),
            r@ == v@.subrange(0, i as int),
        decreases v@.len() - i,
    {
        r.push(v[i].clone());
        i = i + 1;
        assert(r@ =~= v@.subrange(0, i as int));
    }
    assert(r@ =~= v@);
    r
}

/// Configuration for a single ICE server.
pub struct IceServerConfig {
    /// STUN/TURN server URLs.
    pub urls: Vec<String>,
    /// Username for TURN authentication.
    pub username: Option<String>,
    /// Credential for TURN authentication.
    pub credential: Option<String>,
}

impl IceServerConfig {
    /// A copy of this server configuration.
    pub fn duplicate(&self) -> (r: Self)
        ensures
            r.urls@ == self.urls@,
            r.username == self.username,
            r.credential == self.credential,
    {
        IceServerConfig {
            urls: clone_strings(&self.urls),
            username: clone_opt_string(&self.username),
            credential: clone_opt_string(&self.credential),
        }
    }
}

/// Configuration for creating a WebRTC session.
pub struct WebRTCSessionConfig {
    /// ICE servers to use for connectivity.
    pub ice_servers: Vec<IceServerConfig>,
    /// Whether to enable video.
    pub enable_video: bool,
    /// Whether to enable audio.
    pub enable_audio: bool,
}

impl WebRTCSessionConfig {
    /// Video and audio, with Google's public STUN server and no credentials.
    pub fn default() -> (r: Self)
        ensures
            r.enable_video,
            r.enable_audio,
            r.ice_servers@.len() == 1,
            r.ice_servers@[0].urls@.len() == 1,
            r.ice_servers@[0].urls@[0]@ == "stun:stun.l.google.com:19302"@,
            r.ice_servers@[0].username is None,
            r.ice_servers@[0].credential is None,
    {
        let mut urls: Vec<String> = Vec::new();
        urls.push(owned("stun:stun.l.google.com:19302"));
        let mut ice_servers: Vec<IceServerConfig> = Vec::new();
        ice_servers.push(IceServerConfig { urls, username: None, credential: None });
        WebRTCSessionConfig { ice_servers, enable_video: true, enable_audio: true }
    }

    /// A copy of this configuration.
    pub fn duplicate(&self) -> (r: Self)
        ensures
            r.enable_video == self.enable_video,
            r.enable_audio == self.enable_audio,
            r.ice_servers@.len() == self.ice_servers@.len(),
            forall|i: int|
                0 <= i < r.ice_servers@.len() ==> {
                    &&& (#[trigger] r.ice_servers@[i]).urls@ == self.ice_servers@[i].urls@
                    &&& r.ice_servers@[i].username == self.ice_servers@[i].username
                    &&& r.ice_servers@[i].credential == self.ice_servers@[i].credential
                },
    {
        let mut servers: Vec<IceServerConfig> = Vec::new();
        let mut i: usize = 0;
        while i < self.ice_servers.len()
            invariant
                i <= self.ice_servers@.len(),
                servers@.len() == i,
                forall|j: int|
                    0 <= j < i ==> {
                        &&& (#[trigger] servers@[j]).urls@ == self.ice_servers@[j].urls@
                        &&& servers@[j].username == self.ice_servers@[j].username
                        &&& servers@[j].credential == self.ice_servers@[j].credential
                    },
            decreases self.ice_servers@.len() - i,
        {
            servers.push(self.ice_servers[i].duplicate());
            i = i + 1;
        }
        WebRTCSessionConfig {
            ice_servers: servers,
            enable_video: self.enable_video,
            enable_audio: self.enable_audio,
        }
    }
}

/// An ICE server entry of a peer-connection configuration: missing credentials become
/// empty strings.
pub struct RtcIceServer {
    pub urls: Vec<String>,
    pub username: String,
    pub credential: String,
}

/// The text of an optional string, or the empty text.
pub open spec fn text_or_empty(o: Option<String>) -> Seq<char> {
    match o {
        Some(s) => s@,
        None => Seq::empty(),
    }
}

fn string_or_default(o: &Option<String>) -> (r: String)
    ensures
        r@ == text_or_empty(*o),
{
    match o {
        Some(s) => s.clone(),
        None => String::new(),
    }
}

/// The ICE servers of a peer-connection configuration built from `config`.
pub fn build_rtc_config(config: &WebRTCSessionConfig) -> (r: Vec<RtcIceServer>)
    ensures
        r@.len() == config.ice_servers@.len(),
        forall|i: int|
            0 <= i < r@.len() ==> {
                &&& (#[trigger] r@[i]).urls@ == config.ice_servers@[i].urls@
                &&& r@[i].username@ == text_or_empty(config.ice_servers@[i].username)
                &&& r@[i].credential@ == text_or_empty(config.ice_servers@[i].credential)
            },
{
    let mut r: Vec<RtcIceServer> = Vec::new();
    let mut i: usize = 0;
    while i < config.ice_servers.len()
        invariant
            i <= config.ice_servers@.len(),
            r@.len() == i,
            forall|j: int|
                0 <= j < i ==> {
                    &&& (#[trigger] r@[j]).urls@ == config.ice_servers@[j].urls@
                    &&& r@[j].username@ == text_or_empty(config.ice_servers@[j].username)
                    &&& r@[j].credential@ == text_or_empty(config.ice_servers@[j].credential)
                },
        decreases config.ice_servers@.len() - i,
    {
        let server = &config.ice_servers[i];
        r.push(
            RtcIceServer {
                urls: clone_strings(&server.urls),
                username: string_or_default(&server.username),
                credential: string_or_default(&server.credential),
            },
        );
        i = i + 1;
    }
    r
}

/// The kind of an SDP description.
#[derive(Clone, Copy, PartialEq, Eq, Structural, Debug)]
pub enum SdpKind {
    Offer,
    Answer,
}

/// Which local track a removal of `track_id` takes out: the first with that id.
pub fn local_track_to_remove(local_track_ids: &Vec<String>, track_id: &str) -> (r: Option<usize>)
    ensures
        r matches Some(j) ==> j < local_track_ids@.len(),
        match first_id_index(local_track_ids@, track_id@) {
            Some(i) => r matches Some(j) && j as int == i,
            None => r is None,
        },
{
    index_of_str(local_track_ids, track_id)
}

/// ICE connection states a peer connection reports.
#[derive(Clone, Copy, PartialEq, Eq, Structural, Debug)]
pub enum IceConnectionState {
    Unspecified,
    New,
    Checking,
    Connected,
    Completed,
    Disconnected,
    Failed,
    Closed,
}

/// Peer connection states a peer connection reports.
#[derive(Clone, Copy, PartialEq, Eq, Structural, Debug)]
pub enum PeerConnectionState {
    Unspecified,
    New,
    Connecting,
    Connected,
    Disconnected,
    Failed,
    Closed,
}

/// Events emitted by a WebRTC session.
pub enum WebRTCSessionEvent {
    /// ICE connection state changed.
    IceConnectionStateChanged(IceConnectionState),
    /// Peer connection state changed.
    PeerConnectionStateChanged(PeerConnectionState),
    /// New ICE candidate discovered.
    IceCandidate(IceCandidate),
    /// Remote track added.
    TrackAdded { track_id: String, kind: TrackKind },
    /// Remote track removed.
    TrackRemoved { track_id: String },
    /// Session negotiation needed.
    NegotiationNeeded,
    /// Session error.
    Error(String),
}

/// The event for a locally discovered ICE candidate: its text, with no media id and no
/// m-line index.
pub fn ice_candidate_event(candidate: String) -> (r: WebRTCSessionEvent)
    ensures
        r matches WebRTCSessionEvent::IceCandidate(c) && c.candidate == candidate
            && c.sdp_mid is None && c.sdp_m_line_index is None,
{
    WebRTCSessionEvent::IceCandidate(
        IceCandidate { candidate, sdp_mid: None, sdp_m_line_index: None },
    )
}

/// The event for a remote track: its id and the kind its codec type gives.
pub fn track_added_event(track_id: String, codec_type: RtpCodecKind) -> (r: WebRTCSessionEvent)
    ensures
        r matches WebRTCSessionEvent::TrackAdded { track_id: t, kind } && t == track_id && kind
            == (if codec_type == RtpCodecKind::Video {
            TrackKind::Video
        } else {
            TrackKind::Audio
        }),
{
    WebRTCSessionEvent::TrackAdded { track_id, kind: track_kind_from_codec(codec_type) }
}

/// An ICE candidate in the form a peer connection takes it: the m-line index becomes a
/// 16-bit number (keeping its low bits) and no username fragment is given.
pub struct RtcIceCandidateInit {
    pub candidate: String,
    pub sdp_mid: Option<String>,
    pub sdp_mline_index: Option<u16>,
    pub username_fragment: Option<String>,
}

/// The 16-bit m-line index of an optional 32-bit one.
pub open spec fn mline_index_u16(i: Option<u32>) -> Option<u16> {
    match i {
        Some(n) => Some(n as u16),
        None => None,
    }
}

/// A WebRTC session with a single remote peer: who the peer is, which side made the
/// offer, the ids of the local tracks added, the connection states the peer connection
/// last reported, and the events reported and not yet received.
pub struct WebRTCSession {
    /// The remote user we're connected to.
    remote_user_id: String,
    /// The remote device we're connected to.
    remote_device_id: String,
    /// Ids of the local tracks added to this session, in the order they were added.
    local_track_ids: Vec<String>,
    /// Events reported and not yet received, oldest first.
    events: Vec<WebRTCSessionEvent>,
    /// Last reported peer connection state.
    connection_state: PeerConnectionState,
    /// Last reported ICE connection state.
    ice_connection_state: IceConnectionState,
    /// Whether we initiated the call (offerer) or received it (answerer).
    is_offerer: bool,
}

impl WebRTCSession {
    /// The remote user.
    pub closed spec fn spec_remote_user_id(&self) -> String {
        self.remote_user_id
    }

    /// The remote device.
    pub closed spec fn spec_remote_device_id(&self) -> String {
        self.remote_device_id
    }

    /// The ids of the local tracks, in the order they were added.
    pub closed spec fn spec_local_tracks(&self) -> Seq<String> {
        self.local_track_ids@
    }

    /// The events not yet received, oldest first.
    pub closed spec fn pending_events(&self) -> Seq<WebRTCSessionEvent> {
        self.events@
    }

    /// The last reported peer connection state.
    pub closed spec fn spec_connection_state(&self) -> PeerConnectionState {
        self.connection_state
    }

    /// The last reported ICE connection state.
    pub closed spec fn spec_ice_connection_state(&self) -> IceConnectionState {
        self.ice_connection_state
    }

    /// Whether this side made the offer.
    pub closed spec fn spec_is_offerer(&self) -> bool {
        self.is_offerer
    }

    /// Whether `other` is this session with every event received: nothing else differs.
    pub open spec fn drained_to(&self, other: WebRTCSession) -> bool {
        &&& other.pending_events().len() == 0
        &&& other.spec_remote_user_id() == self.spec_remote_user_id()
        &&& other.spec_remote_device_id() == self.spec_remote_device_id()
        &&& other.spec_local_tracks() == self.spec_local_tracks()
        &&& other.spec_connection_state() == self.spec_connection_state()
        &&& other.spec_ice_connection_state() == self.spec_ice_connection_state()
        &&& other.spec_is_offerer() == self.spec_is_offerer()
    }

    /// A new session with a remote device: no tracks, no events, both connection states
    /// `New`, and not the offerer.
    pub fn new(remote_user_id: String, remote_device_id: String) -> (r: Self)
        ensures
            r.spec_remote_user_id() == remote_user_id,
            r.spec_remote_device_id() == remote_device_id,
            r.spec_local_tracks().len() == 0,
            r.pending_events().len() == 0,
            r.spec_connection_state() == PeerConnectionState::New,
            r.spec_ice_connection_state() == IceConnectionState::New,
            !r.spec_is_offerer(),
    {
        WebRTCSession {
            remote_user_id,
            remote_device_id,
            local_track_ids: Vec::new(),
            events: Vec::new(),
            connection_state: PeerConnectionState::New,
            ice_connection_state: IceConnectionState::New,
            is_offerer: false,
        }
    }

    /// Record an event the peer connection reported: a state change also becomes the
    /// session's state; every event is queued for receipt.
    pub fn report_event(&mut self, event: WebRTCSessionEvent)
        ensures
            final(self).pending_events() == old(self).pending_events().push(event),
            final(self).spec_connection_state() == (match event {
                WebRTCSessionEvent::PeerConnectionStateChanged(s) => s,
                _ => old(self).spec_connection_state(),
            }),
            final(self).spec_ice_connection_state() == (match event {
                WebRTCSessionEvent::IceConnectionStateChanged(s) => s,
                _ => old(self).spec_ice_connection_state(),
            }),
            final(self).spec_local_tracks() == old(self).spec_local_tracks(),
            final(self).spec_is_offerer() == old(self).spec_is_offerer(),
            final(self).spec_remote_user_id() == old(self).spec_remote_user_id(),
            final(self).spec_remote_device_id() == old(self).spec_remote_device_id(),
    {
        match &event {
            WebRTCSessionEvent::PeerConnectionStateChanged(s) => {
                self.connection_state = *s;
            },
            WebRTCSessionEvent::IceConnectionStateChanged(s) => {
                self.ice_connection_state = *s;
            },
            _ => {},
        }
        self.events.push(event);
    }

    /// Create an SDP offer from what the peer connection produced (`offer`: its SDP text,
    /// or the error it gave). This side becomes the offerer either way.
    pub fn create_offer(&mut self, offer: Result<String, String>) -> (r: Result<
        SessionDescription,
        String,
    >)
        ensures
            final(self).spec_is_offerer(),
            match offer {
                Ok(sdp) => r matches Ok(d) && d.sdp_type@ == "offer"@ && d.sdp == sdp,
                Err(e) => r == Err::<SessionDescription, String>(e),
            },
            final(self).spec_local_tracks() == old(self).spec_local_tracks(),
            final(self).pending_events() == old(self).pending_events(),
            final(self).spec_connection_state() == old(self).spec_connection_state(),
            final(self).spec_ice_connection_state() == old(self).spec_ice_connection_state(),
            final(self).spec_remote_user_id() == old(self).spec_remote_user_id(),
            final(self).spec_remote_device_id() == old(self).spec_remote_device_id(),
    {
        self.is_offerer = true;
        match offer {
            Ok(sdp) => Ok(SessionDescription::offer(sdp)),
            Err(e) => Err(e),
        }
    }

    /// Create an SDP answer from what the peer connection produced (`answer`: its SDP
    /// text, or the error it gave). This side becomes the answerer either way.
    pub fn create_answer(&mut self, answer: Result<String, String>) -> (r: Result<
        SessionDescription,
        String,
    >)
        ensures
            !final(self).spec_is_offerer(),
            match answer {
                Ok(sdp) => r matches Ok(d) && d.sdp_type@ == "answer"@ && d.sdp == sdp,
                Err(e) => r == Err::<SessionDescription, String>(e),
            },
            final(self).spec_local_tracks() == old(self).spec_local_tracks(),
            final(self).pending_events() == old(self).pending_events(),
            final(self).spec_connection_state() == old(self).spec_connection_state(),
            final(self).spec_ice_connection_state() == old(self).spec_ice_connection_state(),
            final(self).spec_remote_user_id() == old(self).spec_remote_user_id(),
            final(self).spec_remote_device_id() == old(self).spec_remote_device_id(),
    {
        self.is_offerer = false;
        match answer {
            Ok(sdp) => Ok(SessionDescription::answer(sdp)),
            Err(e) => Err(e),
        }
    }

    /// How a remote description is applied: as an offer when its type is "offer", as an
    /// answer otherwise.
    pub fn set_remote_description(&self, description: &SessionDescription) -> (r: SdpKind)
        ensures
            r == (if description.sdp_type@ == "offer"@ {
                SdpKind::Offer
            } else {
                SdpKind::Answer
            }),
    {
        if description.is_offer() {
            SdpKind::Offer
        } else {
            SdpKind::Answer
        }
    }

    /// A remote ICE candidate in the form the peer connection takes it.
    pub fn add_ice_candidate(&self, candidate: IceCandidate) -> (r: RtcIceCandidateInit)
        ensures
            r.candidate == candidate.candidate,
            r.sdp_mid == candidate.sdp_mid,
            r.sdp_mline_index == mline_index_u16(candidate.sdp_m_line_index),
            r.username_fragment is None,
    {
        let sdp_mline_index: Option<u16> = match candidate.sdp_m_line_index {
            Some(i) => Some(i as u16),
            None => None,
        };
        RtcIceCandidateInit {
            candidate: candidate.candidate,
            sdp_mid: candidate.sdp_mid,
            sdp_mline_index,
            username_fragment: None,
        }
    }

    /// Record a local track once the peer connection has taken it (`added`: whether it
    /// did, or the error it gave). The track is kept only on success.
    pub fn add_track(&mut self, track_id: String, added: Result<(), String>) -> (r: Result<
        (),
        String,
    >)
        ensures
            r == added,
            added is Ok ==> final(self).spec_local_tracks() == old(
                self,
            ).spec_local_tracks().push(track_id),
            added is Err ==> final(self).spec_local_tracks() == old(self).spec_local_tracks(),
            final(self).pending_events() == old(self).pending_events(),
            final(self).spec_is_offerer() == old(self).spec_is_offerer(),
            final(self).spec_connection_state() == old(self).spec_connection_state(),
            final(self).spec_ice_connection_state() == old(self).spec_ice_connection_state(),
            final(self).spec_remote_user_id() == old(self).spec_remote_user_id(),
            final(self).spec_remote_device_id() == old(self).spec_remote_device_id(),
    {
        if added.is_ok() {
            self.local_track_ids.push(track_id);
        }
        added
    }

    /// Remove a local track: the first with that id, if any. Always succeeds.
    pub fn remove_track(&mut self, track_id: &str) -> (r: Result<(), String>)
        ensures
            r is Ok,
            match first_id_index(old(self).spec_local_tracks(), track_id@) {
                Some(i) => final(self).spec_local_tracks() == old(self).spec_local_tracks().remove(i),
                None => final(self).spec_local_tracks() == old(self).spec_local_tracks(),
            },
            final(self).pending_events() == old(self).pending_events(),
            final(self).spec_is_offerer() == old(self).spec_is_offerer(),
            final(self).spec_connection_state() == old(self).spec_connection_state(),
            final(self).spec_ice_connection_state() == old(self).spec_ice_connection_state(),
            final(self).spec_remote_user_id() == old(self).spec_remote_user_id(),
            final(self).spec_remote_device_id() == old(self).spec_remote_device_id(),
    {
        match local_track_to_remove(&self.local_track_ids, track_id) {
            Some(idx) => {
                let _track = self.local_track_ids.remove(idx);
            },
            None => {},
        }
        Ok(())
    }

    /// Take the oldest event not yet received, if any.
    pub fn try_recv_event(&mut self) -> (r: Option<WebRTCSessionEvent>)
        ensures
            old(self).pending_events().len() == 0 ==> r is None && final(self).pending_events()
                == old(self).pending_events(),
            old(self).pending_events().len() > 0 ==> r == Some(old(self).pending_events()[0])
                && final(self).pending_events() == old(self).pending_events().drop_first(),
            final(self).spec_local_tracks() == old(self).spec_local_tracks(),
            final(self).spec_is_offerer() == old(self).spec_is_offerer(),
            final(self).spec_connection_state() == old(self).spec_connection_state(),
            final(self).spec_ice_connection_state() == old(self).spec_ice_connection_state(),
            final(self).spec_remote_user_id() == old(self).spec_remote_user_id(),
            final(self).spec_remote_device_id() == old(self).spec_remote_device_id(),
    {
        if self.events.len() == 0 {
            None
        } else {
            let e = self.events.remove(0);
            assert(self.events@ =~= old(self).pending_events().drop_first());
            Some(e)
        }
    }

    /// The last reported peer connection state.
    pub fn connection_state(&self) -> (r: PeerConnectionState)
        ensures
            r == self.spec_connection_state(),
    {
        self.connection_state
    }

    /// The last reported ICE connection state.
    pub fn ice_connection_state(&self) -> (r: IceConnectionState)
        ensures
            r == self.spec_ice_connection_state(),
    {
        self.ice_connection_state
    }

    /// Check if we are the offerer (initiated the call).
    pub fn is_offerer(&self) -> (r: bool)
        ensures
            r == self.spec_is_offerer(),
    {
        self.is_offerer
    }

    /// The remote user we're connected to.
    pub fn remote_user_id(&self) -> (r: &String)
        ensures
            *r == self.spec_remote_user_id(),
    {
        &self.remote_user_id
    }

    /// The remote device we're connected to.
    pub fn remote_device_id(&self) -> (r: &String)
        ensures
            *r == self.spec_remote_device_id(),
    {
        &self.remote_device_id
    }

    /// The ids of the local tracks, in the order they were added.
    pub fn local_track_ids(&self) -> (r: &Vec<String>)
        ensures
            r@ == self.spec_local_tracks(),
    {
        &self.local_track_ids
    }
}

/// Removing a local track just added undoes the addition, when no track with its id was
/// there before: the removal finds the new track, and the tracks are as they were.
pub proof fn law_remove_track_undoes_add_track(tracks: Seq<String>, track_id: String)
    requires
        first_id_index(tracks, track_id@) is None,
    ensures
        first_id_index(tracks.push(track_id), track_id@) == Some(tracks.len() as int),
        tracks.push(track_id).remove(tracks.len() as int) == tracks,
{
    let ids = tracks.push(track_id);
    let n = tracks.len() as int;
    assert(ids[n]@ == track_id@);
    assert forall|j: int| 0 <= j < n implies #[trigger] ids[j]@ != track_id@ by {
        assert(ids[j] == tracks[j]);
        if tracks[j]@ == track_id@ {
            assert(exists|i: int| 0 <= i < tracks.len() && #[trigger] tracks[i]@ == track_id@);
        }
    }
    assert(exists|i: int| 0 <= i < ids.len() && #[trigger] ids[i]@ == track_id@);
    let c = choose|i: int|
        0 <= i < ids.len() && #[trigger] ids[i]@ == track_id@ && forall|j: int|
            0 <= j < i ==> #[trigger] ids[j]@ != track_id@;
    assert(0 <= n < ids.len() && ids[n]@ == track_id@ && forall|j: int|
        0 <= j < n ==> #[trigger] ids[j]@ != track_id@);
    assert(c == n);
    assert(ids.remove(n) =~= tracks);
}

} // verus!
