use robrix::upload::guess_is_total_for;
use robrix::app_state::{
    account_switch_failed_notification, call_error_notification, call_overlay_visibility,
    create_dm_prompt, incoming_call_notification, App, AppActionOutcome, AppState, AppStateAction,
    NavigationOutcome, PopupKind,
};
use robrix::call_state::{CallEndReason, CallState};
use robrix::logging::{
    format_log_message, is_packaged_build, local_time_for, log_file_line, log_file_line_now, log_file_name, log_files_to_remove,
    logs_dir, new_log_file_name, LocalTime, LogFile, LogLevel, Platform,
};
use robrix::membership::RoomState;
use robrix::rooms::{RoomNameId, SelectedRoom};
use robrix::upload::{
    file_type_for, size_unit, thumbnail_decoder, FileData, FileLoadedData, FilePreviewerAction,
    FilePreviewerMetaData, FileType, FileUploadModal, ImageFormat, SizeUnit, Thumbnail,
};
use robrix::widgets::{
    BotEnableSwitch, BotEnableSwitchAction, BotSettings, BotSettingsState, RepliedToMessage,
    RepliedToMessageAction, SpaceContextMenu,
    SpaceContextMenuDetails, SpaceMenuButton, SpaceMenuOutcome,
};

fn live_id(s: &str) -> u64 {
    makepad_live_id::LiveId::from_str(s).0
}

fn room(id: &str, name: &str) -> RoomNameId {
    RoomNameId { room_id: id.into(), name: name.into() }
}

#[test]
fn login_logout_and_accounts() {
    let mut s: AppState<()> = AppState::new();
    assert!(s.login_screen_visible());
    s.show_add_account_screen();
    s.on_login_success();
    assert!(!s.login_screen_visible() && !s.adding_account);
    s.select_room(SelectedRoom::JoinedRoom { room_name_id: room("!a", "A") });
    let n = s.on_account_switch_starting("@other:x");
    assert_eq!(n.text, "Switching to account @other:x...");
    assert_eq!(n.kind, PopupKind::Info);
    assert_eq!(n.timeout_secs, Some(5));
    assert!(s.selected_room.is_none());
    assert!(s.logged_in);
    s.on_logout_success();
    assert!(s.login_screen_visible());
    s.clear();
    assert!(!s.logged_in && s.selected_room.is_none());
    assert_eq!(account_switch_failed_notification("boom").text, "Failed to switch account: boom");
}

#[test]
fn restoring_keeps_the_login_state() {
    let mut s: AppState<()> = AppState::new();
    s.on_login_success();
    let mut saved: AppState<()> = AppState::new();
    saved.focus_room(SelectedRoom::Space { space_name_id: room("!s", "S") });
    s.restore_from(saved);
    assert!(s.logged_in);
    assert!(matches!(s.selected_room, Some(SelectedRoom::Space { .. })));
    let title = s.select_room(SelectedRoom::InvitedRoom { room_name_id: room("!i", "Inv") });
    assert_eq!(title, "Inv");
    assert!(!s.upgrade_invite_to_joined("!x"));
    assert!(s.upgrade_invite_to_joined("!i"));
    assert!(matches!(s.selected_room, Some(SelectedRoom::JoinedRoom { .. })));
    s.focus_none();
    assert!(s.selected_room.is_none());
}

#[test]
fn navigation_waits_for_unknown_rooms() {
    let mut start: AppState<()> = AppState::new();
    start.add_room_tab_selected = true;
    let mut nav = App::new(start);
    match nav.navigate_to_room(Some("!old"), &room("!new", "New"), Some(RoomState::Joined)) {
        NavigationOutcome::Navigate { selected, go_home_first, close } => {
            assert!(matches!(selected, SelectedRoom::JoinedRoom { .. }));
            assert!(go_home_first);
            let close = close.unwrap();
            assert_eq!(close.room_id, "!old");
            assert_eq!(close.tab_id, live_id("!old"));
        }
        NavigationOutcome::AwaitJoin => panic!("should navigate"),
    }
    nav.app_state.add_room_tab_selected = false;
    assert!(matches!(
        nav.navigate_to_room(None, &room("!inv", "I"), Some(RoomState::Invited)),
        NavigationOutcome::Navigate { selected: SelectedRoom::InvitedRoom { .. }, close: None, go_home_first: false }
    ));
    assert!(matches!(
        nav.navigate_to_room(Some("!old"), &room("!far", "F"), None),
        NavigationOutcome::AwaitJoin
    ));
    assert!(nav.room_loaded("!other").is_none());
    let (dest, close) = nav.room_loaded("!far").unwrap();
    assert_eq!(dest.room_id, "!far");
    assert_eq!(close.as_deref(), Some("!old"));
    assert!(nav.waiting_to_navigate_to_room.is_none());
}

#[test]
fn app_state_actions_update_the_app() {
    let mut app: App<()> = App::new(AppState::new());
    app.app_state.on_login_success();
    let focus = AppStateAction::RoomFocused(SelectedRoom::InvitedRoom { room_name_id: room("!i", "I") });
    assert!(matches!(app.handle_app_state_action(focus, None), AppActionOutcome::Updated));
    assert!(matches!(
        app.handle_app_state_action(AppStateAction::UpgradedInviteToJoinedRoom("!x".into()), None),
        AppActionOutcome::Updated
    ));
    assert!(matches!(app.app_state.selected_room, Some(SelectedRoom::InvitedRoom { .. })));
    assert!(matches!(
        app.handle_app_state_action(AppStateAction::UpgradedInviteToJoinedRoom("!i".into()), None),
        AppActionOutcome::Redraw
    ));
    assert!(matches!(app.app_state.selected_room, Some(SelectedRoom::JoinedRoom { .. })));
    assert!(matches!(app.handle_app_state_action(AppStateAction::FocusNone, None), AppActionOutcome::Updated));
    assert!(app.app_state.selected_room.is_none());
    let mut saved: AppState<()> = AppState::new();
    saved.focus_room(SelectedRoom::JoinedRoom { room_name_id: room("!s", "S") });
    assert!(matches!(
        app.handle_app_state_action(AppStateAction::RestoreAppStateFromPersistentState(saved), None),
        AppActionOutcome::LoadDock
    ));
    assert!(app.app_state.logged_in);
    assert!(matches!(app.app_state.selected_room, Some(SelectedRoom::JoinedRoom { .. })));
    let go = AppStateAction::NavigateToRoom { room_to_close: Some("!s".into()), destination_room: room("!d", "D") };
    assert!(matches!(
        app.handle_app_state_action(go, None),
        AppActionOutcome::Navigation(NavigationOutcome::AwaitJoin)
    ));
    let other = AppStateAction::RoomLoadedSuccessfully { room_name_id: room("!o", "O"), is_invite: false };
    assert!(matches!(app.handle_app_state_action(other, Some(RoomState::Joined)), AppActionOutcome::NotHandled));
    let loaded = AppStateAction::RoomLoadedSuccessfully { room_name_id: room("!d", "D"), is_invite: false };
    match app.handle_app_state_action(loaded, Some(RoomState::Joined)) {
        AppActionOutcome::Navigation(NavigationOutcome::Navigate { selected, close, .. }) => {
            assert!(matches!(selected, SelectedRoom::JoinedRoom { room_name_id } if room_name_id.room_id == "!d"));
            assert_eq!(close.unwrap().room_id, "!s");
        }
        _ => panic!("should navigate"),
    }
    assert!(app.waiting_to_navigate_to_room.is_none());
    assert!(matches!(app.handle_app_state_action(AppStateAction::Nothing, None), AppActionOutcome::NotHandled));
}

#[test]
fn call_notifications_and_overlay() {
    assert_eq!(incoming_call_notification("Bob", true).text, "Incoming video call from Bob");
    assert_eq!(incoming_call_notification("Bob", false).timeout_secs, Some(30));
    assert_eq!(call_error_notification("no camera").kind, PopupKind::Error);
    assert_eq!(call_overlay_visibility(&CallState::Idle), Some(false));
    assert_eq!(
        call_overlay_visibility(&CallState::Ended { room_id: "!r".into(), reason: CallEndReason::Timeout }),
        Some(false)
    );
    assert_eq!(call_overlay_visibility(&CallState::Connecting { room_id: "!r".into() }), None);
    assert_eq!(
        create_dm_prompt(Some("Ann"), "@ann:x"),
        "You don't have an existing direct message room with Ann (@ann:x).\n\nWould you like to create one now?"
    );
    assert_eq!(
        create_dm_prompt(Some(""), "@ann:x"),
        "You don't have an existing direct message room with @ann:x.\n\nWould you like to create one now?"
    );
}

#[test]
fn packaged_build_detection() {
    assert!(is_packaged_build(Platform::MacOs, Some("/Applications/Robrix.app/Contents/MacOS/robrix"), false));
    assert!(!is_packaged_build(Platform::MacOs, Some("/Users/me/robrix/target/debug/robrix"), false));
    assert!(is_packaged_build(Platform::Windows, Some("C:\\PROGRAM FILES\\Robrix\\robrix.exe"), false));
    assert!(is_packaged_build(Platform::Windows, Some("C:\\Users\\me\\AppData\\Local\\Programs\\robrix.exe"), false));
    assert!(is_packaged_build(Platform::Linux, Some("/usr/bin/robrix"), false));
    assert!(is_packaged_build(Platform::Linux, Some("/home/me/Robrix.AppImage"), false));
    assert!(is_packaged_build(Platform::Linux, Some("/tmp/x"), true));
    assert!(!is_packaged_build(Platform::Linux, Some("/home/me/target/robrix"), false));
    assert!(!is_packaged_build(Platform::Linux, None, true));
    assert!(!is_packaged_build(Platform::Other, Some("/usr/bin/robrix"), false));
}

#[test]
fn logs_directory_per_platform() {
    assert_eq!(logs_dir(Platform::MacOs, Some("/Users/me"), None, None, "/data"), vec!["/Users/me", "Library", "Logs", "Robrix"]);
    assert_eq!(logs_dir(Platform::Windows, None, Some("C:\\AppData"), None, "/data"), vec!["C:\\AppData", "Robrix", "logs"]);
    assert_eq!(logs_dir(Platform::Linux, Some("/home/me"), None, Some("/xdg"), "/data"), vec!["/xdg", "robrix", "logs"]);
    assert_eq!(logs_dir(Platform::Linux, Some("/home/me"), None, None, "/data"), vec!["/home/me", ".local", "share", "robrix", "logs"]);
    assert_eq!(logs_dir(Platform::MacOs, None, None, None, "/data"), vec!["/data", "logs"]);
}

#[test]
fn log_names_and_lines() {
    let t = LocalTime { year: 2024, month: 3, day: 7, hour: 9, minute: 5, second: 2, nanosecond: 45_000_000 };
    assert_eq!(log_file_name(&t), "robrix_2024-03-07_09-05-02.log");
    assert_eq!(log_file_line(&t, "hi"), "[2024-03-07 09:05:02.045] hi");
    let leap = LocalTime { nanosecond: 1_999_000_000, ..t };
    let leap = LocalTime { second: 59, ..leap };
    assert_eq!(log_file_line(&leap, "x"), "[2024-03-07 09:05:60.999] x");
    assert_eq!(log_file_name(&leap), "robrix_2024-03-07_09-05-60.log");
    let far = LocalTime { year: 12345, ..t };
    assert!(log_file_name(&far).starts_with("robrix_+12345-03-07"));
    let early = LocalTime { year: -5, ..t };
    assert!(log_file_name(&early).starts_with("robrix_-0005-03-07"));
    let now = new_log_file_name().expect("the test machine's clock reads after 1970");
    let line = log_file_line_now("m").expect("the test machine's clock reads after 1970");
    assert!(line.starts_with('[') && line.ends_with("] m") && line.len() == "[2024-03-07 09:05:02.045] m".len());
    assert!(now.starts_with("robrix_") && now.ends_with(".log") && now.len() == "robrix_2024-03-07_09-05-02.log".len());
    assert_eq!(format_log_message(LogLevel::Error, "src/app.rs", 11, 4, "boom"), "[E] src/app.rs:12:5: boom");
    assert_eq!(format_log_message(LogLevel::Wait, "a", u32::MAX, 0, "m"), "[.] a:4294967296:1: m");
}

fn log(name: &str, t: Option<i128>) -> LogFile {
    LogFile { name: name.into(), modified: t }
}

#[test]
fn cleanup_removes_the_oldest_log_files() {
    let files = vec![
        log("robrix_c.log", Some(30)),
        log("robrix_latest.log", Some(1)),
        log("notes.txt", Some(0)),
        log("robrix_a.log", Some(10)),
        log("robrix_x.log", None),
        log("robrix_b.log", Some(20)),
        log("robrix_d.log", Some(20)),
    ];
    assert_eq!(log_files_to_remove(&files, 2), vec![3, 4, 5]);
    assert_eq!(log_files_to_remove(&files, 5), Vec::<usize>::new());
    assert_eq!(log_files_to_remove(&files, 0), vec![0, 3, 4, 5, 6]);
}

#[test]
fn image_decoders_follow_the_format_guess() {
    let mut png = vec![0x89, b'P', b'N', b'G', 0x0D, 0x0A, 0x1A, 0x0A];
    assert_eq!(thumbnail_decoder(&png), Some(ImageFormat::Png));
    png.extend_from_slice(&[0; 8]);
    assert_eq!(thumbnail_decoder(&png), Some(ImageFormat::Png));
    let jpeg = vec![0xFF, 0xD8, 0xFF, 0xE0, 0, 16, b'J', b'F', b'I', b'F', 0, 1];
    assert_eq!(thumbnail_decoder(&jpeg), Some(ImageFormat::Jpeg));
    let exif = vec![0xFF, 0xD8, 0xFF, 0xE1, 0, 16, b'E', b'x', b'i', b'f', 0, 0];
    assert_eq!(thumbnail_decoder(&exif), Some(ImageFormat::Jpeg));
    let gif = b"GIF89a\0\0\0\0\0\0".to_vec();
    assert_eq!(thumbnail_decoder(&gif), None);
    assert_eq!(thumbnail_decoder(&[0u8; 12]), None);
    assert_eq!(file_type_for("image"), FileType::Image);
    assert_eq!(file_type_for("text"), FileType::Document);
}

#[test]
fn small_widgets() {
    let mut menu: SpaceContextMenu<u8> = SpaceContextMenu::new();
    assert!(menu.click(SpaceMenuButton::Leave).is_none());
    menu.show(SpaceContextMenuDetails { space_name_id: room("!s", "S"), space_request_sender: 7 });
    assert!(menu.is_currently_shown());
    match menu.click(SpaceMenuButton::Leave) {
        Some(SpaceMenuOutcome::ConfirmLeave { space_name_id, space_request_sender }) => {
            assert_eq!(space_name_id.room_id, "!s");
            assert_eq!(space_request_sender, 7);
        }
        _ => panic!("leave expected"),
    }
    assert!(!menu.is_currently_shown());
    menu.show(SpaceContextMenuDetails { space_name_id: room("!s", "S"), space_request_sender: 7 });
    match menu.click(SpaceMenuButton::SpaceSettings) {
        Some(SpaceMenuOutcome::Notify(n)) => {
            assert_eq!(n.text, "The space settings page is not yet implemented.");
            assert_eq!(n.kind, PopupKind::Warning);
        }
        _ => panic!("notification expected"),
    }
    let mut reply = RepliedToMessage::new();
    assert_eq!(reply.expand_label(), None);
    reply.set_needs_truncation(true);
    assert_eq!(reply.expand_label(), Some("Show more"));
    assert!(reply.clipped());
    assert_eq!(reply.toggle_expand_collapse(), RepliedToMessageAction::Toggled { is_expanded: true });
    assert_eq!(reply.expand_label(), Some("Show less"));
    assert!(!reply.set_expanded(true));
    let mut switch = BotEnableSwitch { on: false, disabled: true };
    assert_eq!(switch.tap(), BotEnableSwitchAction::Nothing);
    switch.disabled = false;
    let action = switch.tap();
    assert_eq!(action, BotEnableSwitchAction::Changed(true));
    assert_eq!(BotEnableSwitch::changed(action), Some(true));
    assert_eq!(BotEnableSwitch::changed(BotEnableSwitchAction::Nothing), None);
    let mut settings = BotSettingsState { enabled: false, botfather_user_id: String::new() };
    assert!(settings.set_enabled(true));
    let n = settings.save("  @botfather:x  ");
    assert_eq!(settings.botfather_user_id, "@botfather:x");
    assert_eq!(n.timeout_secs, Some(3));
}

#[test]
fn format_guess_is_asked_only_what_it_can_answer() {
    assert!(guess_is_total_for(&[0u8; 12]));
    assert!(guess_is_total_for(&[0x89, b'P', b'N', b'G', 0x0D, 0x0A, 0x1A, 0x0A]));
    assert!(!guess_is_total_for(&[0u8; 8]));
    assert!(guess_is_total_for(&[0u8; 10]));
    assert!(!guess_is_total_for(b"RIFF\0\0\0\0\0\0"));
    assert!(!guess_is_total_for(&[]));
}

fn loaded(mime: &str, mime_type: &str, name: Option<&str>, size: u64, thumb: Option<Vec<u8>>) -> FileLoadedData {
    FileLoadedData {
        metadata: FilePreviewerMetaData {
            mime: mime.into(),
            mime_type: mime_type.into(),
            file_size: size,
            file_path: "/tmp/x".into(),
            file_name: name.map(|n| n.to_string()),
        },
        thumbnail: thumb.map(|data| Thumbnail {
            data,
            content_type: "image/png".into(),
            width: 1,
            height: 1,
            size: 8,
        }),
        dimensions: Some((640, 480)),
    }
}

#[test]
fn file_upload_modal_previews_and_confirms() {
    assert_eq!(size_unit(1023), (SizeUnit::Bytes, 1));
    assert_eq!(size_unit(1024), (SizeUnit::KB, 1024));
    assert_eq!(size_unit(5 * 1024 * 1024), (SizeUnit::MB, 1048576));
    assert_eq!(size_unit(u64::MAX), (SizeUnit::GB, 1073741824));
    let mut modal: FileUploadModal<u32> = FileUploadModal::new();
    let png = vec![0x89, 0x50, 0x4E, 0x47, 0x0D, 0x0A, 0x1A, 0x0A, 0, 0, 0, 0];
    let data = FileData::new(loaded("image/png", "image", Some("cat.png"), 2048, Some(png)), 9);
    assert_eq!(data.dimensions, Some((640, 480)));
    let preview = modal.show(data);
    assert_eq!(preview.file_name, "cat.png");
    assert_eq!(preview.size_unit, SizeUnit::KB);
    assert_eq!(preview.file_type, FileType::Image);
    assert_eq!(preview.thumbnail_decoder, Some(ImageFormat::Png));
    let (confirmed, action) = modal.upload_clicked();
    let confirmed = confirmed.unwrap();
    assert_eq!(confirmed.timeline_update_sender, 9);
    assert_eq!(confirmed.metadata.file_name.as_deref(), Some("cat.png"));
    assert!(matches!(action, FilePreviewerAction::Hide));
    assert!(modal.file_data.is_none());
    assert_eq!(modal.file_type, FileType::Document);
    let (nothing, _) = modal.upload_clicked();
    assert!(nothing.is_none());
    let doc = FileData::new(loaded("text/plain", "text", None, 10, None), 3);
    let preview = modal.show(doc);
    assert_eq!(preview.file_name, "Unknown file");
    assert_eq!(preview.file_type, FileType::Document);
    assert_eq!(preview.thumbnail_decoder, None);
    assert!(matches!(modal.cancel_clicked(), FilePreviewerAction::Hide));
    assert!(modal.file_data.is_none());
}

#[test]
fn bot_settings_view_follows_the_saved_settings() {
    let saved = BotSettingsState { enabled: true, botfather_user_id: "@bf:x".into() };
    let mut view = BotSettings {
        enable_switch: BotEnableSwitch { on: false, disabled: false },
        details_visible: false,
        bot_user_id_input: String::new(),
    };
    view.populate(&saved);
    assert!(view.enable_switch.on && view.details_visible);
    assert_eq!(view.bot_user_id_input, "@bf:x");
    let mut state = BotSettingsState { enabled: true, botfather_user_id: String::new() };
    let action = view.enable_switch.tap();
    assert!(view.handle_actions(&mut state, action, false).is_none());
    assert!(!state.enabled && !view.details_visible);
    view.bot_user_id_input = "  @new:x ".into();
    let n = view.handle_actions(&mut state, BotEnableSwitchAction::Nothing, true).unwrap();
    assert_eq!(n.text, "Saved Matrix app service settings.");
    assert_eq!(state.botfather_user_id, "@new:x");
    assert!(!state.enabled);
}

#[test]
fn clock_readings_have_a_local_time_within_the_date_range() {
    assert!(local_time_for(None).is_none());
    let epoch = local_time_for(Some(0)).unwrap();
    assert!(epoch.year == 1969 || epoch.year == 1970);
    let last = local_time_for(Some(8_210_266_876_799_999)).unwrap();
    assert!(last.year >= 262142);
    assert!(local_time_for(Some(8_210_266_876_800_000)).is_none());
    assert!(local_time_for(Some(u128::MAX)).is_none());
}
