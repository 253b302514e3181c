use robrix::botfather_panel::bind_status;
use robrix::botfather_settings::{unbind_entry_status, BindingEntryAction, BindingEntryButton, BindingListEntry};
use robrix::bot_modals::{
    create_bot_request, delete_bot_request, is_valid_bot_username, BotFormInput, CreateBotModal,
    CreateBotModalAction, DeleteBotModal, DeleteBotModalAction,
};
use robrix::botfather_panel::{
    binding_summary, healthcheck_status, post_preview_decision, preview_display, unbind_status,
    BindDecision, BotChoice, BotStreamPreview, BotStreamPreviewStatus, BotfatherRoomPanel,
    PostPreviewDecision, SenderChoice,
};
use robrix::botfather_settings::{
    binding_room_to_open, command_help, inventory_refresh_status, BindingsFilter,
    BotfatherOverview, BotfatherSettings, BotfatherSettingsSection, ConfigForm,
    ExplicitRoomBindingEntry, SettingsClick,
};
use robrix::sender::SenderProfileKind;

fn bots() -> Vec<BotChoice> {
    vec![
        BotChoice { bot_id: "alpha".into(), label: "Alpha".into() },
        BotChoice { bot_id: "beta".into(), label: "Beta".into() },
    ]
}

fn senders() -> Vec<SenderChoice> {
    vec![
        SenderChoice { sender_profile_id: "current-user".into(), label: "Me".into(), kind: SenderProfileKind::CurrentUser },
        SenderChoice { sender_profile_id: "shared-bot-sender".into(), label: "Shared".into(), kind: SenderProfileKind::DedicatedAccount },
    ]
}

#[test]
fn bot_selector_picks_the_primary_bot() {
    let mut p = BotfatherRoomPanel::new();
    let v = p.update_bot_selector(Some("!r:x"), &bots(), Some("beta"));
    assert_eq!(v.labels, vec!["Alpha".to_string(), "Beta".to_string()]);
    assert_eq!(v.selected_index, 1);
    assert_eq!(p.selected_bot_id.as_deref(), Some("beta"));
    let v = p.update_bot_selector(Some("!r:x"), &bots(), Some("gamma"));
    assert_eq!(v.selected_index, 0);
    let v = p.update_bot_selector(None, &bots(), None);
    assert_eq!(v.labels, vec!["Room unavailable".to_string()]);
    assert!(p.selected_bot_id.is_none());
    let v = p.update_bot_selector(Some("!r:x"), &vec![], None);
    assert_eq!(v.labels, vec!["No bots configured".to_string()]);
}

#[test]
fn dropdown_picks_report_their_status() {
    let mut p = BotfatherRoomPanel::new();
    assert_eq!(
        p.bot_selected(0).as_deref(),
        Some("Configure at least one bot in BotFather Settings first.")
    );
    p.update_bot_selector(Some("!r:x"), &bots(), None);
    assert_eq!(p.bot_selected(1).as_deref(), Some("Selected \"beta\". Click Bind Room to apply it."));
    assert_eq!(p.bot_selected(9), None);
    p.update_sender_selector(&senders(), None);
    assert_eq!(
        p.sender_selected(1).as_deref(),
        Some("Selected sender \"shared-bot-sender\". Click Bind Room to apply it.")
    );
    assert_eq!(p.sync_selected_bot(Some("!r:x"), Some("alpha")), Some(0));
    assert_eq!(p.selected_bot_id.as_deref(), Some("alpha"));
    assert_eq!(p.sync_selected_bot(Some("!r:x"), Some("zzz")), None);
    assert_eq!(p.sync_selected_bot(None, Some("beta")), None);
}

#[test]
fn bind_decisions() {
    let mut p = BotfatherRoomPanel::new();
    assert!(matches!(p.bind_room_decision(None, true, None, false), BindDecision::RoomNotReady));
    assert!(matches!(p.bind_room_decision(Some("!r:x"), true, None, false), BindDecision::PickBotFirst));
    p.update_bot_selector(Some("!r:x"), &bots(), None);
    p.update_sender_selector(&senders(), Some("shared-bot-sender"));
    assert!(matches!(
        p.bind_room_decision(Some("!r:x"), false, Some(SenderProfileKind::DedicatedAccount), true),
        BindDecision::SenderNotReady { ref profile_id } if profile_id == "shared-bot-sender"
    ));
    assert!(matches!(
        p.bind_room_decision(Some("!r:x"), true, Some(SenderProfileKind::DedicatedAccount), true),
        BindDecision::ConfirmSwitchToShared { .. }
    ));
    match p.bind_room_decision(Some("!r:x"), true, Some(SenderProfileKind::DedicatedAccount), false) {
        BindDecision::Bind { room_id, bot_id, sender_profile_id } => {
            assert_eq!(room_id, "!r:x");
            assert_eq!(bot_id, "alpha");
            assert_eq!(sender_profile_id.as_deref(), Some("shared-bot-sender"));
        }
        _ => panic!("expected a bind"),
    }
    assert_eq!(
        BindDecision::PickBotFirst.status_text(),
        Some("Pick a bot from the Room Bot dropdown before binding the room.")
    );
}

#[test]
fn preview_card_and_post_decision() {
    let preview = BotStreamPreview {
        status: BotStreamPreviewStatus::Streaming,
        detail: "d".into(),
        bot_name: "Alpha".into(),
        text: "  ".into(),
        can_post: false,
    };
    let shown = preview_display(Some(&preview));
    assert_eq!(shown.status_text, "Streaming Alpha...");
    assert!(shown.clear_enabled);
    let idle = BotStreamPreview { status: BotStreamPreviewStatus::Idle, ..preview };
    assert!(!preview_display(Some(&idle)).clear_enabled);
    let empty = preview_display(None);
    assert_eq!(empty.status_text, "No streamed preview yet.");
    assert!(!empty.post_enabled);
    assert!(matches!(post_preview_decision(false, Some("x"), true), PostPreviewDecision::RoomNotReady));
    assert!(matches!(post_preview_decision(true, Some(" \n"), true), PostPreviewDecision::NothingToPost));
    assert!(matches!(post_preview_decision(true, Some("hi"), true), PostPreviewDecision::PostDirectly(ref t) if t == "hi"));
    assert!(matches!(post_preview_decision(true, Some("hi"), false), PostPreviewDecision::PostViaSender(_)));
}

#[test]
fn panel_status_lines() {
    assert_eq!(unbind_status(None, &Ok(())), "This room is not ready for BotFather yet.");
    assert_eq!(unbind_status(Some("!r"), &Ok(())), "Removed the room-level bot override.");
    assert_eq!(unbind_status(Some("!r"), &Err("nope".into())), "nope");
    assert_eq!(healthcheck_status(Some("!r"), "!r", &Ok("fine".into())).as_deref(), Some("fine"));
    assert_eq!(healthcheck_status(Some("!r"), "!s", &Ok("fine".into())), None);
    assert_eq!(binding_summary(Some("!r"), "bound to alpha"), "bound to alpha");
}

fn entry(room: &str, mode: &str) -> ExplicitRoomBindingEntry {
    ExplicitRoomBindingEntry {
        room_id: room.into(),
        room_name: "Room".into(),
        bot_name: "Alpha".into(),
        sender_name: "Shared".into(),
        sender_profile_id: "shared-bot-sender".into(),
        source: "explicit".into(),
        mode: mode.into(),
        sender_security: "standard".into(),
        sender_ready: false,
        runtime: "crew".into(),
    }
}

#[test]
fn settings_sections_filters_and_focus() {
    let mut s = BotfatherSettings::new();
    s.set_binding_entries(vec![entry("!a", "shared-room-bot"), entry("!b", "personal-assist"), entry("!c", "shared-room-bot")]);
    assert_eq!(s.filtered_binding_entries().len(), 3);
    s.handle_click(SettingsClick::Filter(BindingsFilter::Shared));
    let shared: Vec<String> = s.filtered_binding_entries().into_iter().map(|e| e.room_id).collect();
    assert_eq!(shared, vec!["!a".to_string(), "!c".to_string()]);
    s.handle_click(SettingsClick::Filter(BindingsFilter::Personal));
    assert_eq!(s.filtered_binding_entries().len(), 1);
    s.handle_click(SettingsClick::ToggleCrewRuntime);
    assert!(s.crew_runtime_expanded);
    let status = s.focus_sender_profile("secure-room-bot-sender");
    assert_eq!(status, "Focused sender profile `secure-room-bot-sender` in Senders.");
    assert!(s.section_visible(BotfatherSettingsSection::Senders));
    assert!(s.secure_sender_expanded && !s.shared_sender_expanded);
    s.clear();
    assert!(s.binding_entries.is_empty());
    assert_eq!(entry("!a", "m").row_meta(), "bot: Alpha | sender: Shared | source: explicit");
    assert_eq!(entry("!a", "m").sender_chip(), "standard / needs setup");
}

#[test]
fn settings_status_lines() {
    assert_eq!(inventory_refresh_status(&Ok(false)), "Bot inventory was already up to date.");
    assert_eq!(command_help("help", "helper"), "help\n\nexamples\n/bot create helper\n/bot bind helper\n/bot set-model helper deepseek-chat\n/bot set-prompt helper You are my helper\n/bot diagnostics");
    assert_eq!(binding_room_to_open("!a:x.org"), Ok("!a:x.org".to_string()));
    assert_eq!(binding_room_to_open("a:x.org"), Err("Failed to parse room id for navigation.".to_string()));
}

#[test]
fn bot_forms() {
    assert!(is_valid_bot_username("bot_1"));
    assert!(!is_valid_bot_username("Bot"));
    assert!(!is_valid_bot_username(""));
    assert!(!is_valid_bot_username("bøt"));
    let req = create_bot_request("  helper ", "  ", " be nice ").unwrap();
    assert_eq!(req.username, "helper");
    assert_eq!(req.display_name, "helper");
    assert_eq!(req.system_prompt.as_deref(), Some("be nice"));
    let req = create_bot_request("helper", "Helper", "").unwrap();
    assert_eq!(req.display_name, "Helper");
    assert_eq!(req.system_prompt, None);
    assert_eq!(
        create_bot_request("Bad Name", "", "").err().as_deref(),
        Some("Username must use lowercase letters, digits, or underscores.")
    );
    assert_eq!(delete_bot_request("  @bot:x ").unwrap().user_id_or_localpart, "@bot:x");
    assert_eq!(
        delete_bot_request("  ").err().as_deref(),
        Some("Enter the bot Matrix user ID or localpart to delete.")
    );
}

#[test]
fn bot_form_rounds() {
    let mut m = CreateBotModal::new();
    assert_eq!(
        m.show("Room A"),
        "Robrix will send `/createbot` to BotFather in Room A. The bot becomes available immediately after octos creates it."
    );
    let submit = BotFormInput { cancel: false, changed: false, submit: true };
    assert!(m.handle_actions(&submit, "BAD", "", "").is_none());
    assert!(m.is_showing_error);
    let change = BotFormInput { cancel: false, changed: true, submit: false };
    assert!(m.handle_actions(&change, "BAD", "", "").is_none());
    assert!(!m.is_showing_error);
    assert!(matches!(m.handle_actions(&submit, "good", "", ""), Some(CreateBotModalAction::Submit(_))));
    let cancel = BotFormInput { cancel: true, changed: true, submit: true };
    assert!(matches!(m.handle_actions(&cancel, "good", "", ""), Some(CreateBotModalAction::Close)));
    let mut d = DeleteBotModal::new();
    assert!(d.handle_actions(&submit, "").is_none());
    assert!(d.is_showing_error);
    assert!(matches!(d.handle_actions(&submit, "@b:x"), Some(DeleteBotModalAction::Submit(ref r)) if r.user_id_or_localpart == "@b:x"));
}

#[test]
fn binding_rows_and_bind_status() {
    let row = BindingListEntry { entry: Some(entry("!a", "shared-room-bot")) };
    assert!(matches!(row.click(BindingEntryButton::OpenRoom), Some(BindingEntryAction::OpenRoom(ref r)) if r == "!a"));
    assert!(matches!(row.click(BindingEntryButton::ManageSender), Some(BindingEntryAction::ManageSender(ref s)) if s == "shared-bot-sender"));
    assert!(matches!(row.click(BindingEntryButton::Unbind), Some(BindingEntryAction::Unbind(ref r)) if r == "!a"));
    assert!(BindingListEntry { entry: None }.click(BindingEntryButton::Unbind).is_none());
    assert_eq!(unbind_entry_status(&Err("no".into())), "no");
    assert_eq!(bind_status(&Ok("Bound.".into())), "Bound.");
    assert_eq!(bind_status(&Err("Failed.".into())), "Failed.");
}

fn overview(preview_enabled: bool) -> BotfatherOverview {
    let mut defaults = ConfigForm::empty();
    defaults.crew_endpoint = "http://127.0.0.1:8000".into();
    defaults.shared_sender_user_id = "@bots:x".into();
    BotfatherOverview {
        defaults,
        crew_runtime_summary: "crew ok".into(),
        openclaw_runtime_summary: "openclaw off".into(),
        bots_overview: "2 bots".into(),
        current_sender_summary: "me".into(),
        shared_sender_summary: "shared".into(),
        secure_sender_summary: "secure".into(),
        binding_entries: vec![entry("!a", "shared-room-bot")],
        bindings_stats: "1 binding".into(),
        preview_enabled,
        help_text: "help".into(),
        workspace_overview: "ws".into(),
        diagnostics_overview: "diag".into(),
    }
}

#[test]
fn settings_populate_and_clear() {
    let mut s = BotfatherSettings::new();
    s.texts.status = "kept".into();
    s.texts.shared_sender_password = "secret".into();
    s.populate(overview(true), "helper");
    assert_eq!(s.texts.form.crew_endpoint, "http://127.0.0.1:8000");
    assert_eq!(s.texts.form.shared_sender_user_id, "@bots:x");
    assert_eq!(s.texts.shared_sender_password, "");
    assert_eq!(s.texts.bots_summary, "2 bots");
    assert_eq!(s.texts.bindings_stats, "1 binding");
    assert_eq!(s.texts.status, "kept");
    assert_eq!(
        s.texts.room_stream_mode_summary,
        "Preview mode is on. Bot output stays in the room panel until you click Post Preview."
    );
    assert_eq!(s.texts.command_hint, command_help("help", "helper"));
    assert_eq!(s.binding_entries.len(), 1);
    s.populate(overview(false), "helper");
    assert_eq!(
        s.texts.room_stream_mode_summary,
        "Preview mode is off. Finished bot output is sent back to Matrix automatically."
    );
    s.handle_click(SettingsClick::Filter(BindingsFilter::Personal));
    s.clear();
    assert_eq!(s.texts.form.crew_endpoint, "");
    assert_eq!(s.texts.status, "");
    assert_eq!(s.texts.command_hint, "");
    assert_eq!(s.bindings_filter, BindingsFilter::All);
    assert!(s.binding_entries.is_empty());
}
