//! The forms that ask BotFather to create or delete a room bot: what they accept, what
//! request they submit, and when they show or clear an error.
use vstd::prelude::*;

use crate::text::{concat, owned, trim, trim_str};

verus! {

/// Whether `c` may appear in a bot username: a lowercase ASCII letter, a digit or `_`.
pub open spec fn is_bot_username_char(c: char) -> bool {
    ('a' <= c <= 'z') || ('0' <= c <= '9') || c == '_'
}

/// Whether `s` is a valid bot username: not empty, and made of lowercase ASCII letters,
/// digits and underscores only.
pub open spec fn valid_bot_username(s: Seq<char>) -> bool {
    s.len() > 0 && forall|i: int| 0 <= i < s.len() ==> is_bot_username_char(#[trigger] s[i])
}

/// Checks that a bot username is not empty and uses only lowercase ASCII letters,
/// digits and underscores.
pub fn is_valid_bot_username(username: &str) -> (r: bool)
    ensures
        r == valid_bot_username(username@),
{
    let n = username.unicode_len();
    if n == 0 {
        return false;
    }
    let mut i: usize = 0;
    while i < n
        invariant
            n == username@.len(),
            i <= n,
            forall|j: int| 0 <= j < i ==> is_bot_username_char(#[trigger] username@[j]),
        decreases n - i,
    {
        let c = username.get_char(i);
        if !(('a' <= c && c <= 'z') || ('0' <= c && c <= '9') || c == '_') {
            return false;
        }
        i = i + 1;
    }
    true
}

/// A bot username is valid exactly when it is not empty and each of its characters is
/// one of `a` to `z`, `0` to `9` or `_`.
pub proof fn law_bot_username_alphabet(s: Seq<char>)
    ensures
        valid_bot_username(s) <==> (s.len() > 0 && forall|i: int|
            0 <= i < s.len() ==> (('a' <= #[trigger] s[i] && s[i] <= 'z') || ('0' <= s[i] && s[i]
                <= '9') || s[i] == '_')),
{
}

/// A username with a hyphen, a space, a dot, an `@` or an uppercase letter anywhere in it
/// is not a valid bot username.
pub proof fn law_bot_username_rejects_other_chars(s: Seq<char>, i: int)
    requires
        0 <= i < s.len(),
        s[i] == '-' || s[i] == ' ' || s[i] == '.' || s[i] == '@' || ('A' <= s[i] && s[i] <= 'Z'),
    ensures
        !valid_bot_username(s),
{
    assert(!is_bot_username_char(s[i]));
}

/// What the create form submits to BotFather.
pub struct CreateBotRequest {
    pub username: String,
    pub display_name: String,
    pub system_prompt: Option<String>,
}

/// What the create form asks of the screen that shows it.
pub enum CreateBotModalAction {
    Close,
    Submit(CreateBotRequest),
}

/// What the delete form submits to BotFather.
pub struct DeleteBotRequest {
    pub user_id_or_localpart: String,
}

/// What the delete form asks of the screen that shows it.
pub enum DeleteBotModalAction {
    Close,
    Submit(DeleteBotRequest),
}

/// The error shown for an invalid bot username.
pub open spec fn msg_invalid_username() -> Seq<char> {
    "Username must use lowercase letters, digits, or underscores."@
}

/// The error shown when no bot to delete was entered.
pub open spec fn msg_missing_bot() -> Seq<char> {
    "Enter the bot Matrix user ID or localpart to delete."@
}

/// The request the create form submits for its three fields, or the error it shows.
///
/// Each field is trimmed. The username must be valid; a blank display name falls back
/// to the username, and a blank prompt is left out.
pub fn create_bot_request(username: &str, display_name: &str, prompt: &str) -> (r: Result<
    CreateBotRequest,
    String,
>)
    ensures
        !valid_bot_username(trim(username@)) ==> (r matches Err(e) && e@
            == msg_invalid_username()),
        valid_bot_username(trim(username@)) ==> (r matches Ok(req) && {
            &&& req.username@ == trim(username@)
            &&& req.display_name@ == if trim(display_name@).len() == 0 {
                trim(username@)
            } else {
                trim(display_name@)
            }
            &&& if trim(prompt@).len() == 0 {
                req.system_prompt is None
            } else {
                req.system_prompt matches Some(p) && p@ == trim(prompt@)
            }
        }),
{
    let username = trim_str(username);
    if !is_valid_bot_username(username.as_str()) {
        return Err(owned("Username must use lowercase letters, digits, or underscores."));
    }
    let display_name = trim_str(display_name);
    let system_prompt = trim_str(prompt);
    let display_name = if display_name.as_str().unicode_len() == 0 {
        username.clone()
    } else {
        display_name
    };
    let system_prompt = if system_prompt.as_str().unicode_len() == 0 {
        None
    } else {
        Some(system_prompt)
    };
    Ok(CreateBotRequest { username, display_name, system_prompt })
}

/// The request the delete form submits for the text entered, or the error it shows:
/// the trimmed text, which must not be empty.
pub fn delete_bot_request(user_id_or_localpart: &str) -> (r: Result<DeleteBotRequest, String>)
    ensures
        trim(user_id_or_localpart@).len() == 0 ==> (r matches Err(e) && e@
            == msg_missing_bot()),
        trim(user_id_or_localpart@).len() > 0 ==> (r matches Ok(req)
            && req.user_id_or_localpart@ == trim(user_id_or_localpart@)),
{
    let t = trim_str(user_id_or_localpart);
    if t.as_str().unicode_len() == 0 {
        return Err(owned("Enter the bot Matrix user ID or localpart to delete."));
    }
    Ok(DeleteBotRequest { user_id_or_localpart: t })
}

/// What the user did in a form during one round of input.
pub struct BotFormInput {
    /// The cancel button was clicked or the modal was dismissed.
    pub cancel: bool,
    /// The text of a field changed.
    pub changed: bool,
    /// The submit button was clicked, or return was pressed in the last field.
    pub submit: bool,
}

/// The state of the create form: whether it shows an error under its fields.
pub struct CreateBotModal {
    pub is_showing_error: bool,
}

/// The state of the delete form: whether it shows an error under its field.
pub struct DeleteBotModal {
    pub is_showing_error: bool,
}

impl CreateBotModal {
    /// A form that shows no error.
    pub fn new() -> (r: Self)
        ensures
            !r.is_showing_error,
    {
        CreateBotModal { is_showing_error: false }
    }

    /// Opens the form for a room, clearing any error; returns the text of its body,
    /// which names the room by `room_label`.
    pub fn show(&mut self, room_label: &str) -> (body: String)
        ensures
            !final(self).is_showing_error,
            body@ == "Robrix will send `/createbot` to BotFather in "@ + room_label@
                + ". The bot becomes available immediately after octos creates it."@,
    {
        self.is_showing_error = false;
        let mut t = concat("Robrix will send `/createbot` to BotFather in ", room_label);
        t.append(". The bot becomes available immediately after octos creates it.");
        t
    }

    /// Handles one round of input with the fields' current texts.
    ///
    /// Cancelling closes the form and nothing else happens. Otherwise a change to a
    /// field clears a shown error; then a submission either submits the request or,
    /// when the username is invalid, shows the error (see [`create_bot_request`]).
    pub fn handle_actions(
        &mut self,
        input: &BotFormInput,
        username: &str,
        display_name: &str,
        prompt: &str,
    ) -> (r: Option<CreateBotModalAction>)
        ensures
            input.cancel ==> (r matches Some(CreateBotModalAction::Close))
                && final(self).is_showing_error == old(self).is_showing_error,
            !input.cancel && !input.submit ==> r is None && final(self).is_showing_error == (
            old(self).is_showing_error && !input.changed),
            !input.cancel && input.submit && !valid_bot_username(trim(username@)) ==> r is None
                && final(self).is_showing_error,
            !input.cancel && input.submit && valid_bot_username(trim(username@)) ==> (r matches Some(
                CreateBotModalAction::Submit(req),
            ) && req.username@ == trim(username@)) && final(self).is_showing_error == (old(
                self,
            ).is_showing_error && !input.changed),
            r matches Some(CreateBotModalAction::Submit(req)) ==> {
                &&& req.display_name@ == if trim(display_name@).len() == 0 {
                    trim(username@)
                } else {
                    trim(display_name@)
                }
                &&& if trim(prompt@).len() == 0 {
                    req.system_prompt is None
                } else {
                    req.system_prompt matches Some(p) && p@ == trim(prompt@)
                }
            },
    {
        if input.cancel {
            return Some(CreateBotModalAction::Close);
        }
        if self.is_showing_error && input.changed {
            self.is_showing_error = false;
        }
        if input.submit {
            match create_bot_request(username, display_name, prompt) {
                Ok(req) => return Some(CreateBotModalAction::Submit(req)),
                Err(_) => {
                    self.is_showing_error = true;
                    return None;
                },
            }
        }
        None
    }
}

impl DeleteBotModal {
    /// A form that shows no error.
    pub fn new() -> (r: Self)
        ensures
            !r.is_showing_error,
    {
        DeleteBotModal { is_showing_error: false }
    }

    /// Opens the form for a room, clearing any error; returns the text of its body,
    /// which names the room by `room_label`.
    pub fn show(&mut self, room_label: &str) -> (body: String)
        ensures
            !final(self).is_showing_error,
            body@ == "Robrix will send `/deletebot` to BotFather in "@ + room_label@
                + ". This only removes bots already managed by octos."@,
    {
        self.is_showing_error = false;
        let mut t = concat("Robrix will send `/deletebot` to BotFather in ", room_label);
        t.append(". This only removes bots already managed by octos.");
        t
    }

    /// Handles one round of input with the field's current text.
    ///
    /// Cancelling closes the form and nothing else happens. Otherwise a change to the
    /// field clears a shown error; then a submission either submits the request or,
    /// when the field is blank, shows the error.
    pub fn handle_actions(&mut self, input: &BotFormInput, user_id_or_localpart: &str) -> (r:
        Option<DeleteBotModalAction>)
        ensures
            input.cancel ==> (r matches Some(DeleteBotModalAction::Close))
                && final(self).is_showing_error == old(self).is_showing_error,
            !input.cancel && !input.submit ==> r is None && final(self).is_showing_error == (
            old(self).is_showing_error && !input.changed),
            !input.cancel && input.submit && trim(user_id_or_localpart@).len() == 0 ==> r is None
                && final(self).is_showing_error,
            !input.cancel && input.submit && trim(user_id_or_localpart@).len() > 0 ==> (r matches Some(
                DeleteBotModalAction::Submit(req),
            ) && req.user_id_or_localpart@ == trim(user_id_or_localpart@))
                && final(self).is_showing_error == (old(self).is_showing_error && !input.changed),
    {
        if input.cancel {
            return Some(DeleteBotModalAction::Close);
        }
        if self.is_showing_error && input.changed {
            self.is_showing_error = false;
        }
        if input.submit {
            match delete_bot_request(user_id_or_localpart) {
                Ok(req) => return Some(DeleteBotModalAction::Submit(req)),
                Err(_) => {
                    self.is_showing_error = true;
                    return None;
                },
            }
        }
        None
    }
}

} // verus!
