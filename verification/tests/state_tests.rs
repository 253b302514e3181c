use robrix::app_state::{
    account_switched_notification, dm_create_failed_notification, AppState, PopupKind,
};
use robrix::botfather_panel::{BotfatherRoomPanel, SenderChoice};
use robrix::botfather_settings::{
    healthcheck_started_status, preview_toggle_text, save_defaults_status, verifying_status,
    RuntimeKind,
};
use robrix::call_state::{CallEndReason, CallState, CallStates};
use robrix::call_ui::{CallControls, CallScreen};
use robrix::live_id::{parse_hex_u64, push_hex16};
use robrix::livekit::{LiveKitClient, LiveKitEvent, LiveKitToken};
use robrix::matrixrtc::{FocusInfo, MatrixRTCMemberEvent, MatrixRTCMembership};
use robrix::media_capture::{millis_from_reading, MediaCapture, MediaCaptureConfig, VideoFrame, VideoFrameFormat};
use robrix::sender::SenderProfileKind;
use robrix::webrtc_manager::WebRTCManager;
use robrix::webrtc_session::WebRTCSessionConfig;

fn sender(id: &str) -> SenderChoice {
    SenderChoice { sender_profile_id: id.into(), label: id.to_uppercase(), kind: SenderProfileKind::DedicatedAccount }
}

#[test]
fn accounts_and_dm_notifications() {
    let mut s: AppState<()> = AppState::new();
    s.show_add_account_screen();
    assert!(s.adding_account);
    s.end_add_account();
    assert!(!s.adding_account);
    let n = account_switched_notification("@b:x");
    assert_eq!(n.text, "Switched to account @b:x");
    assert_eq!((n.kind, n.timeout_secs), (PopupKind::Info, Some(5)));
    let d = dm_create_failed_notification("Bob", "forbidden");
    assert_eq!(d.text, "Failed to create a new DM room with Bob.\n\nError: forbidden");
    assert_eq!((d.kind, d.timeout_secs), (PopupKind::Error, None));
}

#[test]
fn settings_status_texts_for_each_outcome() {
    assert_eq!(healthcheck_started_status(RuntimeKind::Crew, &Ok(())), "Running Crew runtime healthcheck...");
    assert_eq!(
        healthcheck_started_status(RuntimeKind::OpenClaw, &Ok(())),
        "Running OpenClaw runtime healthcheck..."
    );
    assert_eq!(healthcheck_started_status(RuntimeKind::Crew, &Err("down".into())), "down");
    assert_eq!(save_defaults_status(&Ok(())), "Saved the BotFather runtime and sender configuration.");
    assert_eq!(save_defaults_status(&Err("disk".into())), "disk");
    assert_eq!(verifying_status("secure-room-bot-sender"), "Verifying Secure Room Sender login...");
    assert_eq!(verifying_status("shared-bot-sender"), "Verifying Shared Bot Sender login...");
    assert_eq!(preview_toggle_text(true), "Disable Preview");
    assert_eq!(preview_toggle_text(false), "Enable Preview");
}

#[test]
fn room_panel_follows_the_room_and_its_sender() {
    let mut p = BotfatherRoomPanel::new();
    assert!(p.note_room(Some("!a:x")));
    assert!(!p.note_room(Some("!a:x")));
    assert!(p.note_room(None));
    assert!(!p.note_room(None));
    assert_eq!(p.rendered_room_id, None);
    p.update_sender_selector(&vec![sender("one"), sender("two")], None);
    assert_eq!(p.sync_selected_sender(None, Some("two")), None);
    assert_eq!(p.sync_selected_sender(Some("!a:x"), Some("two")), Some(1));
    assert_eq!(p.selected_sender_profile_id.as_deref(), Some("two"));
    assert_eq!(p.sync_selected_sender(Some("!a:x"), Some("nine")), None);
    assert_eq!(p.selected_sender_profile_id.as_deref(), Some("two"));
    assert_eq!(p.sync_selected_sender(Some("!a:x"), None), Some(0));
    assert_eq!(p.selected_sender_profile_id.as_deref(), Some("one"));
}

#[test]
fn call_controls_and_screen_setters() {
    let mut controls = CallControls::new();
    controls.set_camera_off(true);
    assert!(controls.is_camera_off && !controls.is_muted);
    let mut screen = CallScreen::new();
    screen.start_call_timer();
    assert!(screen.timer_running);
    screen.stop_call_timer();
    assert!(!screen.timer_running);
    screen.set_local_muted(true);
    assert!(screen.is_muted && !screen.is_camera_off);
}

#[test]
fn memberships_expire_and_are_found_by_device() {
    let mut m = MatrixRTCMembership::new("D1".into(), "c1".into()).with_created_ts(1_000);
    m.add_preferred_focus(FocusInfo::livekit("https://sfu".into(), Some("alias".into())));
    assert_eq!(m.foci_preferred.len(), 1);
    assert_eq!(m.foci_preferred[0].livekit_service_url.as_deref(), Some("https://sfu"));
    let expires = m.expires;
    let mut event = MatrixRTCMemberEvent::with_membership(m);
    event.add_membership(MatrixRTCMembership::new("D2".into(), "c2".into()).with_created_ts(5_000));
    event.add_membership(MatrixRTCMembership::new("D1".into(), "c3".into()));
    assert_eq!(event.find_membership("D1").unwrap().call_id, "c1");
    assert_eq!(event.find_membership("D2").unwrap().call_id, "c2");
    assert!(event.find_membership("D9").is_none());
    event.remove_expired(1_000 + expires + 1);
    let ids: Vec<&str> = event.memberships.iter().map(|m| m.call_id.as_str()).collect();
    assert_eq!(ids, vec!["c2", "c3"]);
    assert_eq!(event.find_membership("D1").unwrap().call_id, "c3");
}

#[test]
fn livekit_tracks_mute_and_subscriptions_are_reported() {
    let mut c = LiveKitClient::default();
    c.connect(LiveKitToken { token: "t".into(), server_url: "wss://s".into(), room_name: "room".into() }, "!r".into())
        .unwrap();
    let sid = c.publish_audio().unwrap();
    assert!(sid.starts_with("audio_"));
    assert!(c.set_track_muted(&sid, true).is_ok());
    assert!(c.state().local_tracks[0].muted);
    assert!(c.set_track_muted("missing", false).is_ok());
    assert!(c.state().local_tracks[0].muted);
    assert!(c.subscribe_track("peer", "T1").is_ok());
    assert!(c.unsubscribe_track("peer", "T1").is_ok());
    assert!(matches!(c.try_recv_event(), Some(LiveKitEvent::Connected { .. })));
    assert!(matches!(
        c.try_recv_event(),
        Some(LiveKitEvent::TrackSubscribed { ref participant_id, ref track_sid, .. })
            if participant_id == "peer" && track_sid == "T1"
    ));
    assert!(matches!(c.try_recv_event(), Some(LiveKitEvent::TrackUnsubscribed { .. })));
    assert!(c.try_recv_event().is_none());
}

#[test]
fn media_capture_start_and_stop() {
    assert!(MediaCapture::has_camera_permission());
    assert!(MediaCapture::has_microphone_permission());
    MediaCapture::request_permissions();
    let mut config = MediaCaptureConfig::default();
    config.enable_video = false;
    let mut m = MediaCapture::new(config);
    assert!(!m.is_video_enabled() && !m.is_audio_enabled());
    m.start().unwrap();
    assert!(!m.is_video_enabled() && m.is_audio_enabled());
    m.start_video().unwrap();
    assert!(m.is_video_enabled());
    m.set_video_muted(true);
    m.set_audio_muted(true);
    assert!(m.is_video_muted() && m.is_audio_muted());
    m.stop();
    assert!(!m.is_video_enabled() && !m.is_audio_enabled());
    assert!(m.is_video_muted());
}

#[test]
fn joining_a_call_takes_the_existing_call_id() {
    let mut m = WebRTCManager::new();
    let mut states = CallStates::new();
    let existing = vec![MatrixRTCMembership::new("OTHER".into(), "shared-call".into())];
    let joined = m
        .join_call(&mut states, "!r".into(), "@me:x".into(), "DEV".into(), existing, WebRTCSessionConfig::default(), Ok(()))
        .unwrap();
    assert_eq!(joined.call_id, "shared-call");
    assert_eq!(joined.device_id, "DEV");
    assert!(m.has_active_call(&"!r".to_string()));
    let fresh = m
        .join_call(&mut states, "!s".into(), "@me:x".into(), "DEV".into(), Vec::new(), WebRTCSessionConfig::default(), Err("not asked".into()))
        .unwrap();
    assert_eq!(fresh.call_id.len(), 16);
    assert_eq!(m.toggle_audio(&"!r".to_string()), Ok(true));
    assert_eq!(m.toggle_video(&"!r".to_string()), Ok(true));
}

#[test]
fn hex_ids_parse_back() {
    for n in [0u64, 1, 0xdead_beef, u64::MAX, 0x0123_4567_89ab_cdef] {
        let mut s = String::from("x");
        push_hex16(&mut s, n);
        assert_eq!(s.len(), 17);
        assert_eq!(parse_hex_u64(&s[1..]), Some(n));
    }
    assert_eq!(parse_hex_u64("00000000000000zz"), None);
}

#[test]
fn frames_of_any_size_are_checked_and_stamped() {
    let huge = VideoFrame::new(vec![0; 16], u32::MAX, u32::MAX, VideoFrameFormat::Rgba);
    assert!(!huge.is_valid());
    let wide = VideoFrame::new(vec![0; 3], 65_536, 65_536, VideoFrameFormat::Nv12);
    assert!(!wide.is_valid());
    assert_eq!(millis_from_reading(None), 0);
    assert_eq!(millis_from_reading(Some(1_700_000_000_123)), 1_700_000_000_123);
    assert_eq!(millis_from_reading(Some((1u128 << 64) + 5)), 5);
    let before = std::time::SystemTime::now().duration_since(std::time::UNIX_EPOCH).unwrap().as_millis() as u64;
    let frame = VideoFrame::new(Vec::new(), 0, 0, VideoFrameFormat::Rgba);
    assert!(frame.timestamp_ms >= before && frame.timestamp_ms < before + 60_000);
    assert!(frame.is_valid());
}

#[test]
fn call_room_is_known_only_while_active() {
    assert_eq!(CallState::Connecting { room_id: "!r".into() }.room_id().map(|s| s.as_str()), Some("!r"));
    assert_eq!(CallState::Disconnecting { room_id: "!r".into() }.room_id().map(|s| s.as_str()), Some("!r"));
    assert!(CallState::Ended { room_id: "!r".into(), reason: CallEndReason::HungUp }.room_id().is_none());
    assert!(CallState::Idle.room_id().is_none());
}
