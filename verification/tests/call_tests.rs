use robrix::call_state::{CallEndReason, CallParticipant, CallState, CallStates};
use robrix::call_ui::{
    avatar_initial, CallButton, CallControls, CallControlsAction, CallPreviewModal,
    CallPreviewModalAction, CallRequest, CallScreen, PreviewInput, VideoPreview,
};
use robrix::livekit::{create_livekit_token, LiveKitClient, LiveKitEvent, LiveKitToken};
use robrix::matrixrtc::{
    encode, generate_call_id, handle_call_member_event_raw, MatrixRTCMemberEvent, MatrixRTCMembership,
    MemberEventStep, SessionDescription,
};
use robrix::media_capture::{MediaCapture, MediaCaptureConfig, VideoFrame, VideoFrameFormat};
use robrix::membership::{
    no_longer_member_content, NoLongerMemberAction, NoLongerMemberReason, NoLongerMemberView,
    RoomState,
};
use robrix::webrtc_manager::{JoinDecision, WebRTCManager};
use robrix::matrixrtc::IceCandidate;
use robrix::webrtc_session::{
    build_rtc_config, ice_candidate_event, local_track_to_remove, track_added_event,
    IceConnectionState, PeerConnectionState, RtpCodecKind, SdpKind, TrackKind, WebRTCSession,
    WebRTCSessionConfig, WebRTCSessionEvent,
};

#[test]
fn call_states_read_back_what_was_set() {
    let mut states = CallStates::new();
    states.set_call_state("!a".into(), CallState::Connecting { room_id: "!a".into() });
    states.set_call_state("!b".into(), CallState::Idle);
    assert!(matches!(states.get_call_state("!a"), Some(CallState::Connecting { .. })));
    states.remove_call_state("!a");
    assert!(states.get_call_state("!a").is_none());
    assert!(matches!(states.get_call_state("!b"), Some(CallState::Idle)));
    let ended = CallState::Ended { room_id: "!a".into(), reason: CallEndReason::HungUp };
    assert!(!ended.is_active());
    assert!(CallState::Connecting { room_id: "!a".into() }.is_active());
}

#[test]
fn unpublishing_a_published_track_restores_the_tracks() {
    let mut c = LiveKitClient::default();
    c.connect(LiveKitToken { token: "t".into(), server_url: "wss://s".into(), room_name: "room".into() }, "!r".into())
        .unwrap();
    assert!(matches!(c.try_recv_event(), Some(LiveKitEvent::Connected { ref room_name }) if room_name == "room"));
    let audio = c.publish_audio().unwrap();
    let before: Vec<String> = c.state().local_tracks.iter().map(|t| t.track_sid.clone()).collect();
    let video = c.publish_video().unwrap();
    assert!(video.starts_with("video_") && video.len() == "video_".len() + 36);
    c.unpublish_track(&video).unwrap();
    let after: Vec<String> = c.state().local_tracks.iter().map(|t| t.track_sid.clone()).collect();
    assert_eq!(before, after);
    assert_eq!(after, vec![audio]);
    c.disconnect().unwrap();
    assert!(!c.is_connected());
    assert!(c.state().local_tracks.is_empty());
    assert!(create_livekit_token("k", "s", "r", "p", 60).is_err());
}

#[test]
fn media_toggles_undo_each_other() {
    let mut m = MediaCapture::new(MediaCaptureConfig::default());
    assert!(m.toggle_video_muted());
    assert!(!m.toggle_video_muted());
    assert!(!m.is_video_muted());
    assert!(m.toggle_audio_muted());
    assert!(m.is_audio_muted());
    let frame = VideoFrame::new(vec![0; 4 * 2 * 2], 2, 2, VideoFrameFormat::Rgba);
    assert!(frame.is_valid());
    let exact = VideoFrame::new(vec![0; 6], 2, 2, VideoFrameFormat::Yuv420);
    assert!(exact.is_valid());
    let too_short = VideoFrame::new(vec![0; 5], 2, 2, VideoFrameFormat::Nv12);
    assert!(!too_short.is_valid());
}

#[test]
fn leaving_a_started_call_removes_it() {
    let mut m = WebRTCManager::new();
    let mut states = CallStates::new();
    assert_eq!(
        m.handle_participant_joined(&"!r".to_string(), &"@you:x".to_string(), &"D2".to_string()),
        Err("WebRTC API not initialized".to_string())
    );
    assert_eq!(m.initialize(Err("no codecs".into())), Err("no codecs".to_string()));
    assert!(!m.is_initialized());
    let failed = m.start_call(
        &mut states,
        "!r".into(),
        "@me:x".into(),
        "DEV".into(),
        true,
        WebRTCSessionConfig::default(),
        Err("no codecs".into()),
    );
    assert_eq!(failed.err(), Some("no codecs".to_string()));
    assert!(!m.is_initialized() && !m.has_active_call(&"!r".to_string()));
    assert!(states.get_call_state("!r").is_none());
    let membership = m
        .start_call(&mut states, "!r".into(), "@me:x".into(), "DEV".into(), true, WebRTCSessionConfig::default(), Ok(()))
        .unwrap();
    assert!(m.is_initialized());
    assert_eq!(membership.call_id.len(), 16);
    assert_eq!(membership.device_id, "DEV");
    assert!(m.has_active_call(&"!r".to_string()));
    assert_eq!(m.participant_count(&"!r".to_string()), 1);
    assert_eq!(m.initialize(Err("not asked".into())), Ok(()));
    assert_eq!(
        m.handle_participant_joined(&"!r".to_string(), &"@you:x".to_string(), &"D2".to_string()),
        Ok(JoinDecision::CreateSession)
    );
    assert_eq!(
        m.handle_participant_joined(&"!r".to_string(), &"@me:x".to_string(), &"DEV".to_string()),
        Ok(JoinDecision::Skip)
    );
    let mut session = WebRTCSession::new("@you:x".into(), "D2".into());
    session.report_event(WebRTCSessionEvent::NegotiationNeeded);
    m.record_session(&"!r".to_string(), session);
    assert_eq!(m.participant_count(&"!r".to_string()), 2);
    assert_eq!(
        m.handle_participant_joined(&"!r".to_string(), &"@you:x".to_string(), &"D2".to_string()),
        Ok(JoinDecision::Skip)
    );
    let polled = m.poll_events();
    assert_eq!(polled.len(), 1);
    assert_eq!(polled[0].0, "!r");
    assert!(matches!(polled[0].1, WebRTCSessionEvent::NegotiationNeeded));
    assert!(m.poll_events().is_empty());
    let removed = m
        .handle_participant_left(&"!r".to_string(), &"@you:x".to_string(), &"D2".to_string())
        .unwrap()
        .unwrap();
    assert_eq!(removed.remote_device_id(), "D2");
    assert!(m
        .handle_participant_left(&"!r".to_string(), &"@you:x".to_string(), &"D2".to_string())
        .unwrap()
        .is_none());
    assert_eq!(m.participant_count(&"!r".to_string()), 1);
    assert!(m.leave_call(&mut states, &"!r".to_string()).is_some());
    assert!(!m.has_active_call(&"!r".to_string()));
    assert!(matches!(states.get_call_state("!r"), Some(CallState::Idle)));
    assert!(matches!(
        m.handle_participant_left(&"!r".to_string(), &"@you:x".to_string(), &"D2".to_string()),
        Err(e) if e == "Call not found"
    ));
}

#[test]
fn member_events_and_sessions() {
    let event = MatrixRTCMemberEvent::with_membership(MatrixRTCMembership::new("D1".into(), "c".into()));
    let steps = handle_call_member_event_raw("!r", "@you:x", &event, Some("@me:x"));
    assert!(matches!(&steps[..], [MemberEventStep::RemoteParticipantJoined { device_id, .. }] if device_id == "D1"));
    assert!(handle_call_member_event_raw("!r", "@me:x", &event, Some("@me:x")).is_empty());
    let left = handle_call_member_event_raw("!r", "@you:x", &MatrixRTCMemberEvent::new(), None);
    assert!(matches!(&left[..], [MemberEventStep::ParticipantLeft { user_id, .. }] if user_id == "@you:x"));
    assert_eq!(encode([0, 1, 2, 0xab, 0xcd, 0xef, 0x10, 0xff]), "000102abcdef10ff");
    let id = generate_call_id();
    assert!(id.len() == 16 && id.chars().all(|c| c.is_ascii_hexdigit() && !c.is_ascii_uppercase()));
    assert!(SessionDescription::offer("v=0".into()).is_offer());
    assert!(SessionDescription::answer("v=0".into()).is_answer());
    let servers = build_rtc_config(&WebRTCSessionConfig::default());
    assert_eq!(servers[0].urls, vec!["stun:stun.l.google.com:19302".to_string()]);
    assert_eq!(servers[0].username, "");
    let ids = vec!["a".to_string(), "b".to_string()];
    assert_eq!(local_track_to_remove(&ids, "b"), Some(1));
    assert_eq!(local_track_to_remove(&ids, "c"), None);
}

#[test]
fn call_screens_and_controls() {
    assert_eq!(avatar_initial(Some("alice")), "A");
    assert_eq!(avatar_initial(Some("ßeta")), "SS");
    assert_eq!(avatar_initial(None), "?");
    assert_eq!(avatar_initial(Some("")), "?");
    let mut controls = CallControls::new();
    assert!(controls.click(CallButton::Mute).is_none());
    controls.set_room_id("!r".into());
    assert!(matches!(controls.click(CallButton::Mute), Some(CallControlsAction::ToggleMute { .. })));
    assert!(controls.is_muted);
    assert!(matches!(controls.click(CallButton::Hangup), Some(CallControlsAction::EndCall { .. })));
    let mut screen = CallScreen::new();
    let none = screen.click(CallButton::Camera);
    assert!(none.request.is_none() && screen.is_camera_off);
    assert_eq!(screen.set_room("!r".into(), "bob"), "B");
    assert!(!screen.is_camera_off);
    let out = screen.click(CallButton::Hangup);
    assert!(out.hide_screen && matches!(out.request, Some(CallRequest::LeaveCall { .. })));
    let mut preview = CallPreviewModal::new();
    assert_eq!(preview.show("!r".into(), Some("carol".into())), "C");
    preview.handle(PreviewInput::Camera);
    let joined = preview.handle(PreviewInput::Join);
    assert!(matches!(joined.request, Some(CallRequest::StartCall { is_video_call: false, .. })));
    assert!(matches!(joined.action, Some(CallPreviewModalAction::JoinCall { is_video_call: false, .. })));
    assert!(matches!(preview.handle(PreviewInput::Dismissed).action, Some(CallPreviewModalAction::Close)));
    let mut tile = VideoPreview::new();
    tile.set_local(true);
    tile.set_participant_name("");
    assert!(!tile.name_visible);
    assert!(tile.placeholder_visible());
    tile.update_frame();
    assert!(!tile.placeholder_visible());
}

#[test]
fn no_longer_member_view() {
    let kicked = NoLongerMemberReason::Kicked(Some("spam".into()));
    let c = no_longer_member_content(&kicked);
    assert_eq!(c.title, "You were removed from this room");
    assert_eq!(c.reason_label.as_deref(), Some("Reason: spam"));
    assert!(c.rejoin_visible);
    let banned = NoLongerMemberReason::Banned(None);
    assert!(!banned.can_rejoin());
    assert_eq!(banned.reason_text(), None);
    assert!(matches!(NoLongerMemberReason::from_room_state(RoomState::Left), Some(NoLongerMemberReason::Left)));
    assert!(NoLongerMemberReason::from_room_state(RoomState::Joined).is_none());
    let mut view = NoLongerMemberView::new();
    let shown = view.show(NoLongerMemberReason::Left);
    assert!(view.visible && shown.reason_label.is_none());
    view.hide_view();
    assert!(!view.visible);
    assert_eq!(NoLongerMemberView::clicked(false, true), NoLongerMemberAction::Close);
    let p = CallParticipant::new("@u:x".into(), "D".into());
    assert_eq!(p.displayable_name(), "@u:x");
}

#[test]
fn webrtc_session_keeps_its_own_state() {
    let mut session = WebRTCSession::new("@bob:x".into(), "DEV".into());
    assert_eq!(session.remote_user_id(), "@bob:x");
    assert_eq!(session.remote_device_id(), "DEV");
    assert!(!session.is_offerer());
    assert_eq!(session.connection_state(), PeerConnectionState::New);
    assert_eq!(session.ice_connection_state(), IceConnectionState::New);
    let offer = session.create_offer(Ok("v=0 offer".into())).unwrap();
    assert!(offer.is_offer());
    assert_eq!(offer.sdp, "v=0 offer");
    assert!(session.is_offerer());
    assert_eq!(session.create_answer(Err("boom".into())).err(), Some("boom".to_string()));
    assert!(!session.is_offerer());
    assert_eq!(session.set_remote_description(&SessionDescription::offer("x".into())), SdpKind::Offer);
    assert_eq!(session.set_remote_description(&SessionDescription::answer("x".into())), SdpKind::Answer);
    assert!(session.add_track("t1".into(), Ok(())).is_ok());
    assert!(session.add_track("t2".into(), Err("no".into())).is_err());
    assert!(session.add_track("t3".into(), Ok(())).is_ok());
    assert_eq!(session.local_track_ids(), &vec!["t1".to_string(), "t3".to_string()]);
    assert!(session.remove_track("t1").is_ok());
    assert!(session.remove_track("zz").is_ok());
    assert_eq!(session.local_track_ids(), &vec!["t3".to_string()]);
    session.report_event(WebRTCSessionEvent::PeerConnectionStateChanged(PeerConnectionState::Connected));
    session.report_event(WebRTCSessionEvent::IceConnectionStateChanged(IceConnectionState::Checking));
    session.report_event(track_added_event("remote".into(), RtpCodecKind::Video));
    session.report_event(ice_candidate_event("candidate:1".into()));
    assert_eq!(session.connection_state(), PeerConnectionState::Connected);
    assert_eq!(session.ice_connection_state(), IceConnectionState::Checking);
    assert!(matches!(session.try_recv_event(), Some(WebRTCSessionEvent::PeerConnectionStateChanged(PeerConnectionState::Connected))));
    assert!(matches!(session.try_recv_event(), Some(WebRTCSessionEvent::IceConnectionStateChanged(IceConnectionState::Checking))));
    match session.try_recv_event() {
        Some(WebRTCSessionEvent::TrackAdded { track_id, kind }) => {
            assert_eq!(track_id, "remote");
            assert_eq!(kind, TrackKind::Video);
        }
        _ => panic!("expected a track"),
    }
    match session.try_recv_event() {
        Some(WebRTCSessionEvent::IceCandidate(c)) => {
            assert_eq!(c.candidate, "candidate:1");
            assert!(c.sdp_mid.is_none() && c.sdp_m_line_index.is_none());
        }
        _ => panic!("expected a candidate"),
    }
    assert!(session.try_recv_event().is_none());
    let init = session.add_ice_candidate(IceCandidate {
        candidate: "c".into(),
        sdp_mid: Some("0".into()),
        sdp_m_line_index: Some(70_000),
    });
    assert_eq!(init.sdp_mline_index, Some(4464));
    assert_eq!(init.sdp_mid.as_deref(), Some("0"));
    assert!(init.username_fragment.is_none());
}

#[test]
fn polling_collects_every_session_event_in_order() {
    let mut m = WebRTCManager::new();
    let mut states = CallStates::new();
    m.start_call(&mut states, "!a".into(), "@me:x".into(), "DEV".into(), false, WebRTCSessionConfig::default(), Ok(()))
        .unwrap();
    m.start_call(&mut states, "!b".into(), "@me:x".into(), "DEV".into(), true, WebRTCSessionConfig::default(), Err("not asked".into()))
        .unwrap();
    let mut s1 = WebRTCSession::new("@u1:x".into(), "D1".into());
    s1.report_event(WebRTCSessionEvent::Error("one".into()));
    s1.report_event(WebRTCSessionEvent::Error("two".into()));
    let mut s2 = WebRTCSession::new("@u2:x".into(), "D2".into());
    s2.report_event(WebRTCSessionEvent::Error("three".into()));
    let mut s3 = WebRTCSession::new("@u3:x".into(), "D3".into());
    s3.report_event(WebRTCSessionEvent::PeerConnectionStateChanged(PeerConnectionState::Failed));
    m.record_session(&"!a".to_string(), s1);
    m.record_session(&"!a".to_string(), s2);
    m.record_session(&"!b".to_string(), s3);
    m.record_session(&"!none".to_string(), WebRTCSession::new("@u4:x".into(), "D4".into()));
    let polled = m.poll_events();
    let rooms: Vec<&str> = polled.iter().map(|(r, _)| r.as_str()).collect();
    assert_eq!(rooms, vec!["!a", "!a", "!a", "!b"]);
    let texts: Vec<String> = polled
        .iter()
        .filter_map(|(_, e)| match e {
            WebRTCSessionEvent::Error(t) => Some(t.clone()),
            _ => None,
        })
        .collect();
    assert_eq!(texts, vec!["one".to_string(), "two".to_string(), "three".to_string()]);
    assert!(matches!(polled[3].1, WebRTCSessionEvent::PeerConnectionStateChanged(PeerConnectionState::Failed)));
    assert!(m.poll_events().is_empty());
    assert_eq!(m.participant_count(&"!a".to_string()), 3);
}
