//! Matrix identifier checks (room, user and event IDs), as the Matrix identifier
//! library performs them.
use vstd::prelude::*;
use vstd::string::StringSliceAdditionalSpecFns;

verus! {

/// The text of each identifier error.
pub open spec fn msg_too_long() -> Seq<char> {
    "ID exceeds 255 bytes"@
}

pub open spec fn msg_bad_sigil() -> Seq<char> {
    "leading sigil is incorrect or missing"@
}

pub open spec fn msg_invalid_chars() -> Seq<char> {
    "identifier contains invalid characters"@
}

/// The error a room ID parse gives for `s`, or `None` when `s` is a valid room ID:
/// at most 255 bytes of UTF-8, starting with `!`, without a NUL character.
pub open spec fn room_id_error(s: &str) -> Option<Seq<char>> {
    if s.spec_bytes().len() > 255 {
        Some(msg_too_long())
    } else if s@.len() == 0 || s@[0] != '!' {
        Some(msg_bad_sigil())
    } else if s@.contains('\0') {
        Some(msg_invalid_chars())
    } else {
        None
    }
}

/// Parses a room ID.
///
/// Calls `ruma::RoomId::parse`. The contract states its validation rule and the text of
/// its error (its `Display`), as the source shows them: on success the ID is the
/// input text unchanged.
#[verifier::external_body]
pub(crate) fn parse_room_id(s: &str) -> (r: Result<String, String>)
    ensures
        match room_id_error(s) {
            Some(e) => r matches Err(t) && t@ == e,
            None => r matches Ok(id) && id@ == s@,
        },
{
    match ruma::RoomId::parse(s) {
        Ok(id) => Ok(id.as_str().to_string()),
        Err(e) => Err(e.to_string()),
    }
}

/// What a user ID parse gives for `s`: `None` when `s` is a valid user ID, else the
/// text of the error.
pub uninterp spec fn user_id_parse_error(s: Seq<char>) -> Option<Seq<char>>;

/// Parses a user ID.
///
/// Calls `ruma::UserId::parse`. Its validation (sigil, colon, server name, localpart)
/// is named, not restated: the contract says that the outcome is a function of the
/// text alone, and that on success the ID is the input text unchanged.
#[verifier::external_body]
pub(crate) fn parse_user_id(s: &str) -> (r: Result<String, String>)
    ensures
        match user_id_parse_error(s@) {
            Some(e) => r matches Err(t) && t@ == e,
            None => r matches Ok(id) && id@ == s@,
        },
{
    match ruma::UserId::parse(s) {
        Ok(id) => Ok(id.as_str().to_string()),
        Err(e) => Err(e.to_string()),
    }
}

/// What an event ID parse gives for `s`: `None` when `s` is a valid event ID, else the
/// text of the error.
pub uninterp spec fn event_id_parse_error(s: Seq<char>) -> Option<Seq<char>>;

/// Parses an event ID.
///
/// Calls `ruma::EventId::parse`. Its validation is named, not restated: the outcome is
/// a function of the text alone, and on success the ID is the input text unchanged.
#[verifier::external_body]
pub(crate) fn parse_event_id(s: &str) -> (r: Result<String, String>)
    ensures
        match event_id_parse_error(s@) {
            Some(e) => r matches Err(t) && t@ == e,
            None => r matches Ok(id) && id@ == s@,
        },
{
    match ruma::EventId::parse(s) {
        Ok(id) => Ok(id.as_str().to_string()),
        Err(e) => Err(e.to_string()),
    }
}

} // verus!
