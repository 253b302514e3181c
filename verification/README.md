# robrix

The core of a Matrix chat client's calling, bot-sender, room-navigation and settings
logic, written in Verus: Verus proves the contract of every function in `src/`, except
the few trusted wrappers listed below; `MediaCapture::request_permissions`, which does
nothing, has no contract.

## Layout

- `src/` — the verified library.
  - `text`, `assoc`, `random`, `ids`, `live_id`: strings, a key/value map kept as a list,
    random ids, Matrix id parsing, widget ids and their hex form.
  - `call_state`, `matrixrtc`, `livekit`, `media_capture`, `webrtc_session`,
    `webrtc_manager`, `call_ui`: call states per room, MatrixRTC memberships, the LiveKit
    room client, media capture state, peer sessions and the call coordinator, and the
    call controls, screen and preview.
  - `sender`, `bot_modals`, `botfather_panel`, `botfather_settings`: bot sender profiles
    and their login checks, the bot creation and deletion dialogs, the BotFather panel of
    a room and the BotFather settings screen.
  - `rooms`, `dock`, `app_state`, `members`, `membership`, `typing`, `widgets`, `upload`,
    `logging`: selected rooms, saved dock layouts and their serialisable form, the
    application state and its actions, the members panel, the "no longer a member"
    view, the typing notice, small widgets, the file upload preview, and log files.
- `tests/` — tests on concrete values, run against the compiled library.
- `app/` — what reads or writes the outside world: log files, the saved layouts (with
  serde), image decoding and size text for uploads, and the Matrix clients of bot
  senders. It hands plain values to the library, which decides.

## Trusted boundary

The library calls outside crates only through small wrappers whose contracts Verus
assumes (marked `#[verifier::external_body]`): `rand` for random bytes, `ruma` for Matrix
id parsing, `makepad-live-id` for widget ids, `chrono` for the local time at a given
instant, `imghdr` for image format guesses, and a few `std` functions (the system clock,
lowercasing, uppercasing a character, appending a character). Each wrapper's doc comment
says what its contract claims.
