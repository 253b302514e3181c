//! Bot sender accounts: validating login input and stored profiles, choosing the
//! access token, and naming the on-disk store of each sender.
use vstd::prelude::*;

use crate::ids::{event_id_parse_error, parse_event_id, parse_room_id, parse_user_id, room_id_error, user_id_parse_error};
use crate::text::{concat, from_chars, is_blank, owned, str_is_blank, to_chars, trim, trim_str};

verus! {

/// A sender session obtained by logging in.
pub struct VerifiedSenderSession {
    pub matrix_user_id: String,
    pub device_id: String,
    pub access_token: String,
}

/// Whose account a sender profile sends with.
#[derive(Clone, Copy, PartialEq, Eq, Structural, Debug)]
pub enum SenderProfileKind {
    /// The logged-in user's own account, through the primary client.
    CurrentUser,
    /// A bot account of its own.
    DedicatedAccount,
}

/// The stored settings of a sender profile.
pub struct SenderProfile {
    pub id: String,
    pub name: String,
    pub kind: SenderProfileKind,
    pub homeserver_url: Option<String>,
    pub matrix_user_id: Option<String>,
    pub device_id: Option<String>,
    pub access_token: Option<String>,
    pub access_token_env: Option<String>,
}

/// Whether `o` holds a value that is not blank.
pub open spec fn is_filled(o: Option<String>) -> bool {
    match o {
        Some(v) => !is_blank(v@),
        None => false,
    }
}

/// The text of `o`, which must be filled.
pub open spec fn filled_text(o: Option<String>) -> Seq<char> {
    match o {
        Some(v) => v@,
        None => Seq::empty(),
    }
}

fn filled(o: &Option<String>) -> (r: Option<&String>)
    ensures
        is_filled(*o) ==> (r matches Some(v) && v@ == filled_text(*o)),
        !is_filled(*o) ==> r is None,
{
    match o {
        Some(v) => if str_is_blank(v.as_str()) {
            None
        } else {
            Some(v)
        },
        None => None,
    }
}

/// The message for a send through the current user's sender.
pub open spec fn msg_current_user_sender() -> Seq<char> {
    "The current-user sender must use Robrix's primary Matrix client."@
}

/// Refuses a send through the current user's sender, which must go through the primary
/// client.
pub fn check_sender_kind(profile: &SenderProfile) -> (r: Result<(), String>)
    ensures
        profile.kind == SenderProfileKind::CurrentUser ==> (r matches Err(e) && e@
            == msg_current_user_sender()),
        profile.kind != SenderProfileKind::CurrentUser ==> r is Ok,
{
    if profile.kind == SenderProfileKind::CurrentUser {
        return Err(owned("The current-user sender must use Robrix's primary Matrix client."));
    }
    Ok(())
}

/// Checks the room a message is to be sent to: its ID, or the message explaining why
/// the ID is invalid.
pub fn parse_target_room(room_id: &str) -> (r: Result<String, String>)
    ensures
        match room_id_error(room_id) {
            Some(e) => r matches Err(t) && t@ == "Invalid Matrix room id `"@ + room_id@ + "`: "@
                + e,
            None => r matches Ok(id) && id@ == room_id@,
        },
{
    match parse_room_id(room_id) {
        Ok(id) => Ok(id),
        Err(e) => {
            let mut t = concat("Invalid Matrix room id `", room_id);
            t.append("`: ");
            t.append(e.as_str());
            Err(t)
        },
    }
}

/// Checks the thread root a message is to be sent into: its event ID, or the message
/// explaining why the ID is invalid.
pub fn parse_thread_root(thread_root_event_id: &str) -> (r: Result<String, String>)
    ensures
        match event_id_parse_error(thread_root_event_id@) {
            Some(e) => r matches Err(t) && t@ == "Invalid thread root event id `"@
                + thread_root_event_id@ + "`: "@ + e,
            None => r matches Ok(id) && id@ == thread_root_event_id@,
        },
{
    match parse_event_id(thread_root_event_id) {
        Ok(id) => Ok(id),
        Err(e) => {
            let mut t = concat("Invalid thread root event id `", thread_root_event_id);
            t.append("`: ");
            t.append(e.as_str());
            Err(t)
        },
    }
}

/// The message for a room the sender's client does not know.
pub fn unknown_room_message(sender_name: &str, room_id: &str) -> (r: String)
    ensures
        r@ == "Sender \""@ + sender_name@ + "\" is not aware of room `"@ + room_id@
            + "` yet. Make sure this bot account has joined the room."@,
{
    let mut t = concat("Sender \"", sender_name);
    t.append("\" is not aware of room `");
    t.append(room_id);
    t.append("` yet. Make sure this bot account has joined the room.");
    t
}

/// The login input of a sender verification, trimmed.
pub struct SenderLoginInput {
    pub homeserver_url: String,
    pub matrix_user_id: String,
    pub password: String,
}

/// Trims the login input of a sender verification and refuses blank fields, the
/// homeserver URL first, then the user ID, then the password.
pub fn validate_sender_login(homeserver_url: &str, matrix_user_id: &str, password: &str) -> (r:
    Result<SenderLoginInput, String>)
    ensures
        is_blank(homeserver_url@) ==> (r matches Err(e) && e@
            == "Sender homeserver URL cannot be empty."@),
        !is_blank(homeserver_url@) && is_blank(matrix_user_id@) ==> (r matches Err(e) && e@
            == "Sender Matrix user ID cannot be empty."@),
        !is_blank(homeserver_url@) && !is_blank(matrix_user_id@) && is_blank(password@) ==> (r matches Err(
            e,
        ) && e@ == "Sender password cannot be empty for verification."@),
        !is_blank(homeserver_url@) && !is_blank(matrix_user_id@) && !is_blank(password@) ==> (r matches Ok(
            input,
        ) && input.homeserver_url@ == trim(homeserver_url@) && input.matrix_user_id@ == trim(
            matrix_user_id@,
        ) && input.password@ == trim(password@)),
{
    let homeserver_url = trim_str(homeserver_url);
    let matrix_user_id = trim_str(matrix_user_id);
    let password = trim_str(password);
    if homeserver_url.as_str().unicode_len() == 0 {
        return Err(owned("Sender homeserver URL cannot be empty."));
    }
    if matrix_user_id.as_str().unicode_len() == 0 {
        return Err(owned("Sender Matrix user ID cannot be empty."));
    }
    if password.as_str().unicode_len() == 0 {
        return Err(owned("Sender password cannot be empty for verification."));
    }
    Ok(SenderLoginInput { homeserver_url, matrix_user_id, password })
}

/// Whether `c` is kept as it is in a path component.
pub open spec fn is_path_safe(c: char) -> bool {
    ('0' <= c <= '9') || ('a' <= c <= 'z') || ('A' <= c <= 'Z') || c == '-' || c == '_'
}

/// `s` with every character other than ASCII letters, digits, `-` and `_` replaced by `_`.
pub open spec fn sanitized(s: Seq<char>) -> Seq<char> {
    Seq::new(s.len(), |i: int| if is_path_safe(s[i]) { s[i] } else { '_' })
}

/// Makes `value` safe to use as one component of a file path.
pub fn sanitize_path_component(value: &str) -> (r: String)
    ensures
        r@ == sanitized(value@),
{
    let v = to_chars(value);
    let mut out: Vec<char> = Vec::new();
    let mut i: usize = 0;
    while i < v.len()
        invariant
            i <= v@.len(),
            v@ == value@,
            out@ == sanitized(value@).subrange(0, i as int),
        decreases v@.len() - i,
    {
        let c = v[i];
        let keep = ('0' <= c && c <= '9') || ('a' <= c && c <= 'z') || ('A' <= c && c <= 'Z')
            || c == '-' || c == '_';
        if keep {
            out.push(c);
        } else {
            out.push('_');
        }
        i = i + 1;
        assert(out@ =~= sanitized(value@).subrange(0, i as int));
    }
    assert(out@ =~= sanitized(value@));
    from_chars(out.as_slice())
}

/// The path components of the directory holding the store of sender
/// `sender_profile_id`, under the application's data directory:
/// `<app_data_dir>/bot_senders/<sanitized id>`.
pub open spec fn store_dir_parts(app_data_dir: Seq<char>, sender_profile_id: Seq<char>) -> Seq<Seq<char>> {
    seq![app_data_dir, "bot_senders"@, sanitized(sender_profile_id)]
}

/// The path components of the directory holding the store of sender
/// `sender_profile_id` (see [`store_dir_parts`]).
pub fn sender_store_dir(app_data_dir: &str, sender_profile_id: &str) -> (r: Vec<String>)
    ensures
        r@.map_values(|p: String| p@) == store_dir_parts(app_data_dir@, sender_profile_id@),
{
    let mut r: Vec<String> = Vec::new();
    r.push(owned(app_data_dir));
    r.push(owned("bot_senders"));
    r.push(sanitize_path_component(sender_profile_id));
    assert(r@.map_values(|p: String| p@) =~= store_dir_parts(app_data_dir@, sender_profile_id@));
    r
}

/// The passphrase of sender `id`'s store: `robrix-bot-sender:<id>`.
pub fn sender_store_passphrase(sender_profile_id: &str) -> (r: String)
    ensures
        r@ == "robrix-bot-sender:"@ + sender_profile_id@,
{
    concat("robrix-bot-sender:", sender_profile_id)
}

/// The device display name a sender verification logs in with: `robrix-bot-sender-<id>`.
pub fn sender_device_display_name(sender_profile_id: &str) -> (r: String)
    ensures
        r@ == "robrix-bot-sender-"@ + sender_profile_id@,
{
    concat("robrix-bot-sender-", sender_profile_id)
}

/// The environment variable that may hold the profile's access token: its name, when
/// one is set and not blank.
pub fn token_env_var_name(profile: &SenderProfile) -> (r: Option<String>)
    ensures
        is_filled(profile.access_token_env) ==> (r matches Some(n) && n@ == filled_text(
            profile.access_token_env,
        )),
        !is_filled(profile.access_token_env) ==> r is None,
{
    match filled(&profile.access_token_env) {
        Some(n) => Some(n.clone()),
        None => None,
    }
}

/// The message for a profile without a usable access token.
pub open spec fn msg_no_token(name: Seq<char>) -> Seq<char> {
    "Sender \""@ + name
        + "\" has no usable access token. Verify the account in BotFather Settings or provide a token env var."@
}

/// Whether the profile names a token variable and its value `env_value` is not blank.
pub open spec fn env_token_usable(profile: &SenderProfile, env_value: Option<&str>) -> bool {
    is_filled(profile.access_token_env) && match env_value {
        Some(v) => !is_blank(v@),
        None => false,
    }
}

/// The access token a profile uses, or the message explaining that it has none: the
/// value of its token variable when usable, else its stored token when filled.
pub open spec fn chosen_access_token(profile: &SenderProfile, env_value: Option<&str>) -> Result<
    Seq<char>,
    Seq<char>,
> {
    if env_token_usable(profile, env_value) {
        Ok(env_value->0@)
    } else if is_filled(profile.access_token) {
        Ok(filled_text(profile.access_token))
    } else {
        Err(msg_no_token(profile.name@))
    }
}

/// The access token a sender profile uses: the value of its token environment variable
/// (`env_value`, read when the profile names one) when that is not blank, else its
/// stored token when that is not blank.
pub fn sender_access_token(profile: &SenderProfile, env_value: Option<&str>) -> (r: Result<
    String,
    String,
>)
    ensures
        match chosen_access_token(profile, env_value) {
            Ok(t) => r matches Ok(v) && v@ == t,
            Err(e) => r matches Err(v) && v@ == e,
        },
{
    if filled(&profile.access_token_env).is_some() {
        if let Some(v) = env_value {
            if !str_is_blank(v) {
                return Ok(owned(v));
            }
        }
    }
    match filled(&profile.access_token) {
        Some(t) => Ok(t.clone()),
        None => {
            let mut e = concat("Sender \"", profile.name.as_str());
            e.append(
                "\" has no usable access token. Verify the account in BotFather Settings or provide a token env var.",
            );
            Err(e)
        },
    }
}

/// What a sender's client is built from.
pub struct SenderClientSettings {
    pub homeserver_url: String,
    pub matrix_user_id: String,
    pub device_id: String,
    pub access_token: String,
    /// The path components of the store's directory.
    pub store_dir: Vec<String>,
    pub store_passphrase: String,
}

/// The message naming a field a sender profile is missing.
pub open spec fn msg_missing(name: Seq<char>, what: Seq<char>) -> Seq<char> {
    "Sender \""@ + name + "\" is missing "@ + what + "."@
}

fn missing(name: &str, what: &str) -> (r: String)
    ensures
        r@ == msg_missing(name@, what@),
{
    let mut e = concat("Sender \"", name);
    e.append("\" is missing ");
    e.append(what);
    e.append(".");
    e
}

/// Checks a stored sender profile and gathers what its client is built from.
///
/// The homeserver URL, user ID and device ID must be filled in (checked in that
/// order), the user ID must parse, and an access token must be usable (see
/// [`sender_access_token`]). The store lives under `app_data_dir`.
pub fn sender_client_settings(profile: &SenderProfile, env_value: Option<&str>, app_data_dir: &str) -> (r:
    Result<SenderClientSettings, String>)
    ensures
        !is_filled(profile.homeserver_url) ==> (r matches Err(e) && e@ == msg_missing(
            profile.name@,
            "a homeserver URL"@,
        )),
        is_filled(profile.homeserver_url) && !is_filled(profile.matrix_user_id) ==> (r matches Err(
            e,
        ) && e@ == msg_missing(profile.name@, "a Matrix user ID"@)),
        is_filled(profile.homeserver_url) && is_filled(profile.matrix_user_id)
            && user_id_parse_error(filled_text(profile.matrix_user_id)) is Some ==> (r matches Err(
            e,
        ) && e@ == "Sender \""@ + profile.name@ + "\" has an invalid Matrix user ID: "@
            + user_id_parse_error(filled_text(profile.matrix_user_id))->0),
        is_filled(profile.homeserver_url) && is_filled(profile.matrix_user_id)
            && user_id_parse_error(filled_text(profile.matrix_user_id)) is None && !is_filled(
            profile.device_id,
        ) ==> (r matches Err(e) && e@ == msg_missing(profile.name@, "a device ID"@)),
        r matches Ok(s) ==> {
            &&& s.homeserver_url@ == filled_text(profile.homeserver_url)
            &&& s.matrix_user_id@ == filled_text(profile.matrix_user_id)
            &&& s.device_id@ == filled_text(profile.device_id)
            &&& s.store_dir@.map_values(|p: String| p@) == store_dir_parts(app_data_dir@, profile.id@)
            &&& s.store_passphrase@ == "robrix-bot-sender:"@ + profile.id@
        },
        is_filled(profile.homeserver_url) && is_filled(profile.matrix_user_id)
            && user_id_parse_error(filled_text(profile.matrix_user_id)) is None && is_filled(
            profile.device_id,
        ) ==> match chosen_access_token(profile, env_value) {
            Ok(t) => r matches Ok(s) && s.access_token@ == t,
            Err(e) => r matches Err(v) && v@ == e,
        },
{
    let homeserver_url = match filled(&profile.homeserver_url) {
        Some(u) => u.clone(),
        None => return Err(missing(profile.name.as_str(), "a homeserver URL")),
    };
    let raw_user_id = match filled(&profile.matrix_user_id) {
        Some(u) => u,
        None => return Err(missing(profile.name.as_str(), "a Matrix user ID")),
    };
    let matrix_user_id = match parse_user_id(raw_user_id.as_str()) {
        Ok(u) => u,
        Err(e) => {
            let mut t = concat("Sender \"", profile.name.as_str());
            t.append("\" has an invalid Matrix user ID: ");
            t.append(e.as_str());
            return Err(t);
        },
    };
    let device_id = match filled(&profile.device_id) {
        Some(d) => d.clone(),
        None => return Err(missing(profile.name.as_str(), "a device ID")),
    };
    let access_token = sender_access_token(profile, env_value)?;
    Ok(
        SenderClientSettings {
            homeserver_url,
            matrix_user_id,
            device_id,
            access_token,
            store_dir: sender_store_dir(app_data_dir, profile.id.as_str()),
            store_passphrase: sender_store_passphrase(profile.id.as_str()),
        },
    )
}


/// A step of building or using a sender's client that failed.
#[derive(Clone, Copy, PartialEq, Eq, Structural, Debug)]
pub enum SenderFailure {
    /// Building the client that verifies a login.
    CreateVerificationClient,
    /// Logging in.
    VerifyLogin,
    /// The login gave no session.
    NoSession,
    /// Building the client of a stored sender.
    CreateClient,
    /// Restoring the stored session.
    RestoreSession,
    /// Syncing before sending.
    RefreshSession,
    /// Building a reply in a thread.
    BuildThreadedMessage,
    /// Sending a reply in a thread.
    SendThreadedMessage,
    /// Sending a message.
    SendMessage,
}

/// The message for a failed step of sender `sender_name`, with the error `error` of the
/// Matrix client.
pub open spec fn failure_text(step: SenderFailure, sender_name: Seq<char>, error: Seq<char>) -> Seq<char> {
    match step {
        SenderFailure::CreateVerificationClient => "Failed to create sender verification client: "@
            + error,
        SenderFailure::VerifyLogin => "Failed to verify sender login: "@ + error,
        SenderFailure::NoSession => "Matrix login succeeded but no session was returned."@,
        SenderFailure::CreateClient => "Failed to create Matrix client for sender \""@ + sender_name
            + "\": "@ + error,
        SenderFailure::RestoreSession => "Failed to restore session for sender \""@ + sender_name
            + "\": "@ + error,
        SenderFailure::RefreshSession => "Failed to refresh sender session: "@ + error,
        SenderFailure::BuildThreadedMessage => "Failed to build threaded bot message: "@ + error,
        SenderFailure::SendThreadedMessage => "Failed to send threaded bot message: "@ + error,
        SenderFailure::SendMessage => "Failed to send bot message: "@ + error,
    }
}

/// The message for a failed step of sender `sender_name` (see [`failure_text`]).
pub fn failure_message(step: SenderFailure, sender_name: &str, error: &str) -> (r: String)
    ensures
        r@ == failure_text(step, sender_name@, error@),
{
    match step {
        SenderFailure::CreateVerificationClient => concat(
            "Failed to create sender verification client: ",
            error,
        ),
        SenderFailure::VerifyLogin => concat("Failed to verify sender login: ", error),
        SenderFailure::NoSession => owned("Matrix login succeeded but no session was returned."),
        SenderFailure::CreateClient => {
            let mut t = concat("Failed to create Matrix client for sender \"", sender_name);
            t.append("\": ");
            t.append(error);
            t
        },
        SenderFailure::RestoreSession => {
            let mut t = concat("Failed to restore session for sender \"", sender_name);
            t.append("\": ");
            t.append(error);
            t
        },
        SenderFailure::RefreshSession => concat("Failed to refresh sender session: ", error),
        SenderFailure::BuildThreadedMessage => concat("Failed to build threaded bot message: ", error),
        SenderFailure::SendThreadedMessage => concat("Failed to send threaded bot message: ", error),
        SenderFailure::SendMessage => concat("Failed to send bot message: ", error),
    }
}


/// Sanitizing leaves only safe characters, the same number of them, and changes nothing
/// in a component that is already safe: sanitizing twice is sanitizing once.
pub proof fn law_sanitize_idempotent(s: Seq<char>)
    ensures
        sanitized(s).len() == s.len(),
        forall|i: int| 0 <= i < s.len() ==> is_path_safe(#[trigger] sanitized(s)[i]),
        sanitized(sanitized(s)) == sanitized(s),
{
    assert(sanitized(sanitized(s)) =~= sanitized(s));
}

} // verus!
