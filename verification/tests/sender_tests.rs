use robrix::sender::{
    check_sender_kind, failure_message, parse_target_room, parse_thread_root,
    sanitize_path_component, sender_access_token, sender_client_settings,
    sender_device_display_name, sender_store_dir, sender_store_passphrase, token_env_var_name,
    unknown_room_message, validate_sender_login, SenderFailure, SenderProfile, SenderProfileKind,
};

fn profile() -> SenderProfile {
    SenderProfile {
        id: "shared-bot-sender".into(),
        name: "Shared".into(),
        kind: SenderProfileKind::DedicatedAccount,
        homeserver_url: Some("https://matrix.example.org".into()),
        matrix_user_id: Some("@bot:example.org".into()),
        device_id: Some("DEVICE".into()),
        access_token: Some("stored-token".into()),
        access_token_env: Some("BOT_TOKEN".into()),
    }
}

#[test]
fn sanitizes_path_components() {
    assert_eq!(sanitize_path_component("shared-bot_sender"), "shared-bot_sender");
    assert_eq!(sanitize_path_component("a/b c:é"), "a_b_c__");
    let once = sanitize_path_component("../x y");
    assert_eq!(sanitize_path_component(&once), once);
}

#[test]
fn store_paths_and_names() {
    assert_eq!(
        sender_store_dir("/data", "a/b"),
        vec!["/data".to_string(), "bot_senders".to_string(), "a_b".to_string()]
    );
    assert_eq!(sender_store_passphrase("x"), "robrix-bot-sender:x");
    assert_eq!(sender_device_display_name("x"), "robrix-bot-sender-x");
}

#[test]
fn login_input_is_trimmed_and_checked_in_order() {
    let ok = validate_sender_login(" https://h ", " @u:h ", " pw ").unwrap();
    assert_eq!(ok.homeserver_url, "https://h");
    assert_eq!(ok.matrix_user_id, "@u:h");
    assert_eq!(ok.password, "pw");
    assert_eq!(validate_sender_login(" ", "", "").err().as_deref(), Some("Sender homeserver URL cannot be empty."));
    assert_eq!(validate_sender_login("h", " ", "").err().as_deref(), Some("Sender Matrix user ID cannot be empty."));
    assert_eq!(
        validate_sender_login("h", "u", "\t").err().as_deref(),
        Some("Sender password cannot be empty for verification.")
    );
}

#[test]
fn access_token_prefers_a_usable_environment_value() {
    let p = profile();
    assert_eq!(token_env_var_name(&p).as_deref(), Some("BOT_TOKEN"));
    assert_eq!(sender_access_token(&p, Some("env-token")), Ok("env-token".to_string()));
    assert_eq!(sender_access_token(&p, Some("  ")), Ok("stored-token".to_string()));
    assert_eq!(sender_access_token(&p, None), Ok("stored-token".to_string()));
    let mut q = profile();
    q.access_token_env = Some(" ".into());
    assert_eq!(token_env_var_name(&q), None);
    assert_eq!(sender_access_token(&q, Some("env-token")), Ok("stored-token".to_string()));
    q.access_token = None;
    assert_eq!(
        sender_access_token(&q, None),
        Err("Sender \"Shared\" has no usable access token. Verify the account in BotFather Settings or provide a token env var.".to_string())
    );
}

#[test]
fn client_settings_check_fields_in_order() {
    let s = sender_client_settings(&profile(), None, "/data").unwrap();
    assert_eq!(s.homeserver_url, "https://matrix.example.org");
    assert_eq!(s.matrix_user_id, "@bot:example.org");
    assert_eq!(s.device_id, "DEVICE");
    assert_eq!(s.access_token, "stored-token");
    assert_eq!(s.store_passphrase, "robrix-bot-sender:shared-bot-sender");
    let mut p = profile();
    p.homeserver_url = Some("  ".into());
    assert_eq!(
        sender_client_settings(&p, None, "/d").err().as_deref(),
        Some("Sender \"Shared\" is missing a homeserver URL.")
    );
    let mut p = profile();
    p.matrix_user_id = None;
    assert_eq!(
        sender_client_settings(&p, None, "/d").err().as_deref(),
        Some("Sender \"Shared\" is missing a Matrix user ID.")
    );
    let mut p = profile();
    p.matrix_user_id = Some("not-a-user".into());
    assert!(sender_client_settings(&p, None, "/d")
        .err()
        .unwrap()
        .starts_with("Sender \"Shared\" has an invalid Matrix user ID: "));
    let mut p = profile();
    p.device_id = None;
    assert_eq!(
        sender_client_settings(&p, None, "/d").err().as_deref(),
        Some("Sender \"Shared\" is missing a device ID.")
    );
}

#[test]
fn sending_checks() {
    let mut p = profile();
    assert!(check_sender_kind(&p).is_ok());
    p.kind = SenderProfileKind::CurrentUser;
    assert_eq!(
        check_sender_kind(&p).err().as_deref(),
        Some("The current-user sender must use Robrix's primary Matrix client.")
    );
    assert_eq!(parse_target_room("!a:x.org"), Ok("!a:x.org".to_string()));
    assert_eq!(
        parse_target_room("a:x.org"),
        Err("Invalid Matrix room id `a:x.org`: leading sigil is incorrect or missing".to_string())
    );
    assert_eq!(parse_target_room(""), Err("Invalid Matrix room id ``: leading sigil is incorrect or missing".to_string()));
    assert!(parse_thread_root("$event:x.org").is_ok());
    assert!(parse_thread_root("event").err().unwrap().starts_with("Invalid thread root event id `event`: "));
    assert_eq!(
        unknown_room_message("Shared", "!a:x"),
        "Sender \"Shared\" is not aware of room `!a:x` yet. Make sure this bot account has joined the room."
    );
    assert_eq!(
        failure_message(SenderFailure::RestoreSession, "Shared", "boom"),
        "Failed to restore session for sender \"Shared\": boom"
    );
    assert_eq!(failure_message(SenderFailure::SendMessage, "Shared", "boom"), "Failed to send bot message: boom");
}

#[test]
fn identifier_checks_follow_the_identifier_library() {
    assert_eq!(parse_target_room("!abc:example.org"), Ok("!abc:example.org".to_string()));
    assert_eq!(
        parse_target_room("#abc:example.org"),
        Err(format!(
            "Invalid Matrix room id `#abc:example.org`: {}",
            ruma::RoomId::parse("#abc:example.org").unwrap_err()
        ))
    );
    assert_eq!(
        parse_target_room("#abc:example.org").unwrap_err(),
        "Invalid Matrix room id `#abc:example.org`: leading sigil is incorrect or missing"
    );
    let long = format!("!{}", "a".repeat(300));
    assert_eq!(
        parse_target_room(&long).unwrap_err(),
        format!("Invalid Matrix room id `{long}`: ID exceeds 255 bytes")
    );
    assert_eq!(parse_thread_root("$e"), Ok("$e".to_string()));
    assert_eq!(
        parse_thread_root("e"),
        Err(format!("Invalid thread root event id `e`: {}", ruma::EventId::parse("e").unwrap_err()))
    );
    let mut p = profile();
    p.matrix_user_id = Some("u:example.org".into());
    assert_eq!(
        sender_client_settings(&p, None, "/d").err(),
        Some(format!(
            "Sender \"Shared\" has an invalid Matrix user ID: {}",
            ruma::UserId::parse("u:example.org").unwrap_err()
        ))
    );
}
