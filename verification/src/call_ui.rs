//! The call screens: the preview shown before joining, the full call screen, the call
//! controls bar and a participant's video tile, each as the state it keeps and what a
//! click on it asks for.
use vstd::prelude::*;

use crate::text::owned;

verus! {

/// What `char::to_uppercase` gives for `c`: its uppercase mapping, one or more
/// characters.
pub uninterp spec fn char_uppercase(c: char) -> Seq<char>;

/// Uppercases one character.
///
/// Calls `char::to_uppercase` and collects the characters it yields. The Unicode case
/// mapping is named, not restated.
#[verifier::external_body]
pub(crate) fn uppercase_char(c: char) -> (r: String)
    ensures
        r@ == char_uppercase(c),
{
    c.to_uppercase().to_string()
}

/// The character an avatar shows for a name: its first character, or `?` for a missing
/// or empty name.
pub open spec fn initial_char(name: Option<Seq<char>>) -> char {
    match name {
        Some(n) => if n.len() > 0 {
            n[0]
        } else {
            '?'
        },
        None => '?',
    }
}

/// The text of the avatar of a user named `name`: the uppercase of its first
/// character, or of `?`.
pub fn avatar_initial(name: Option<&str>) -> (r: String)
    ensures
        r@ == char_uppercase(initial_char(
            match name {
                Some(n) => Some(n@),
                None => None,
            },
        )),
{
    let c = match name {
        Some(n) => if n.unicode_len() > 0 {
            n.get_char(0)
        } else {
            '?'
        },
        None => '?',
    };
    uppercase_char(c)
}

/// A request that a call screen sends to the Matrix worker.
pub enum CallRequest {
    ToggleCallAudio { room_id: String },
    ToggleCallVideo { room_id: String },
    LeaveCall { room_id: String },
    StartCall { room_id: String, is_video_call: bool },
}

/// A button of a call screen.
#[derive(Clone, Copy, PartialEq, Eq, Structural, Debug)]
pub enum CallButton {
    Mute,
    Camera,
    Hangup,
}

/// What the controls bar asks of the screen that holds it.
pub enum CallControlsAction {
    ToggleMute { room_id: String },
    ToggleCamera { room_id: String },
    EndCall { room_id: String },
}

/// The controls bar of a call.
pub struct CallControls {
    pub room_id: Option<String>,
    pub is_muted: bool,
    pub is_camera_off: bool,
}

impl CallControls {
    /// Controls for no call yet.
    pub fn new() -> (r: Self)
        ensures
            r.room_id is None,
            !r.is_muted,
            !r.is_camera_off,
    {
        CallControls { room_id: None, is_muted: false, is_camera_off: false }
    }

    /// Sets the room of the call.
    pub fn set_room_id(&mut self, room_id: String)
        ensures
            final(self).room_id == Some(room_id),
            final(self).is_muted == old(self).is_muted,
            final(self).is_camera_off == old(self).is_camera_off,
    {
        self.room_id = Some(room_id);
    }

    /// Sets whether audio is muted.
    pub fn set_muted(&mut self, muted: bool)
        ensures
            final(self).is_muted == muted,
            final(self).room_id == old(self).room_id,
            final(self).is_camera_off == old(self).is_camera_off,
    {
        self.is_muted = muted;
    }

    /// Sets whether the camera is off.
    pub fn set_camera_off(&mut self, off: bool)
        ensures
            final(self).is_camera_off == off,
            final(self).room_id == old(self).room_id,
            final(self).is_muted == old(self).is_muted,
    {
        self.is_camera_off = off;
    }

    /// A click on `button`. Without a room nothing happens. With one, mute and camera
    /// flip their state and ask for the toggle; hangup asks to end the call.
    pub fn click(&mut self, button: CallButton) -> (r: Option<CallControlsAction>)
        ensures
            final(self).room_id == old(self).room_id,
            old(self).room_id is None ==> r is None && final(self).is_muted == old(self).is_muted
                && final(self).is_camera_off == old(self).is_camera_off,
            old(self).room_id is Some ==> {
                let room = old(self).room_id->0;
                match button {
                    CallButton::Mute => final(self).is_muted == !old(self).is_muted
                        && final(self).is_camera_off == old(self).is_camera_off
                        && r == Some(CallControlsAction::ToggleMute { room_id: room }),
                    CallButton::Camera => final(self).is_camera_off == !old(self).is_camera_off
                        && final(self).is_muted == old(self).is_muted
                        && r == Some(CallControlsAction::ToggleCamera { room_id: room }),
                    CallButton::Hangup => final(self).is_muted == old(self).is_muted
                        && final(self).is_camera_off == old(self).is_camera_off
                        && r == Some(CallControlsAction::EndCall { room_id: room }),
                }
            },
    {
        let room_id = match &self.room_id {
            Some(r) => r.clone(),
            None => return None,
        };
        match button {
            CallButton::Mute => {
                self.is_muted = !self.is_muted;
                Some(CallControlsAction::ToggleMute { room_id })
            },
            CallButton::Camera => {
                self.is_camera_off = !self.is_camera_off;
                Some(CallControlsAction::ToggleCamera { room_id })
            },
            CallButton::Hangup => Some(CallControlsAction::EndCall { room_id }),
        }
    }
}

/// The full-screen view of a call.
pub struct CallScreen {
    pub room_id: Option<String>,
    pub user_display_name: Option<String>,
    /// Whether the call's duration is being timed.
    pub timer_running: bool,
    pub is_muted: bool,
    pub is_camera_off: bool,
}

/// What a click on the call screen asks for: a request to the Matrix worker, and whether
/// the call screen is to be hidden.
pub struct CallScreenOutcome {
    pub request: Option<CallRequest>,
    pub hide_screen: bool,
}

impl CallScreen {
    /// A call screen for no call yet.
    pub fn new() -> (r: Self)
        ensures
            r.room_id is None,
            r.user_display_name is None,
            !r.timer_running,
            !r.is_muted,
            !r.is_camera_off,
    {
        CallScreen {
            room_id: None,
            user_display_name: None,
            timer_running: false,
            is_muted: false,
            is_camera_off: false,
        }
    }

    /// Shows the call in the room `room_id` for the user `user_display_name`: audio and
    /// camera start on. Returns the text of the avatar.
    pub fn set_room(&mut self, room_id: String, user_display_name: &str) -> (initial: String)
        ensures
            final(self).room_id == Some(room_id),
            final(self).user_display_name matches Some(n) && n@ == user_display_name@,
            !final(self).is_muted,
            !final(self).is_camera_off,
            final(self).timer_running == old(self).timer_running,
            initial@ == char_uppercase(initial_char(Some(user_display_name@))),
    {
        self.room_id = Some(room_id);
        self.user_display_name = Some(owned(user_display_name));
        self.is_muted = false;
        self.is_camera_off = false;
        avatar_initial(Some(user_display_name))
    }

    /// Starts timing the call.
    pub fn start_call_timer(&mut self)
        ensures
            final(self).timer_running,
            final(self).room_id == old(self).room_id,
    {
        self.timer_running = true;
    }

    /// Stops timing the call.
    pub fn stop_call_timer(&mut self)
        ensures
            !final(self).timer_running,
            final(self).room_id == old(self).room_id,
    {
        self.timer_running = false;
    }

    /// Sets whether the local audio is muted.
    pub fn set_local_muted(&mut self, muted: bool)
        ensures
            final(self).is_muted == muted,
            final(self).is_camera_off == old(self).is_camera_off,
            final(self).room_id == old(self).room_id,
    {
        self.is_muted = muted;
    }

    /// A click on `button`. Mute and camera flip their state whether or not a room is
    /// set, and ask for the toggle when one is; hangup, with a room, leaves the call and
    /// hides the screen.
    pub fn click(&mut self, button: CallButton) -> (r: CallScreenOutcome)
        ensures
            final(self).room_id == old(self).room_id,
            final(self).timer_running == old(self).timer_running,
            final(self).is_muted == (old(self).is_muted != (button == CallButton::Mute)),
            final(self).is_camera_off == (old(self).is_camera_off != (button
                == CallButton::Camera)),
            r.hide_screen == (button == CallButton::Hangup && old(self).room_id is Some),
            old(self).room_id is None ==> r.request is None,
            old(self).room_id is Some ==> {
                let room = old(self).room_id->0;
                r.request == Some(
                    match button {
                        CallButton::Mute => CallRequest::ToggleCallAudio { room_id: room },
                        CallButton::Camera => CallRequest::ToggleCallVideo { room_id: room },
                        CallButton::Hangup => CallRequest::LeaveCall { room_id: room },
                    },
                )
            },
    {
        match button {
            CallButton::Mute => self.is_muted = !self.is_muted,
            CallButton::Camera => self.is_camera_off = !self.is_camera_off,
            CallButton::Hangup => {},
        }
        let room_id = match &self.room_id {
            Some(r) => r.clone(),
            None => return CallScreenOutcome { request: None, hide_screen: false },
        };
        match button {
            CallButton::Mute => CallScreenOutcome {
                request: Some(CallRequest::ToggleCallAudio { room_id }),
                hide_screen: false,
            },
            CallButton::Camera => CallScreenOutcome {
                request: Some(CallRequest::ToggleCallVideo { room_id }),
                hide_screen: false,
            },
            CallButton::Hangup => CallScreenOutcome {
                request: Some(CallRequest::LeaveCall { room_id }),
                hide_screen: true,
            },
        }
    }
}

/// What the preview modal asks of the screen that shows it.
pub enum CallPreviewModalAction {
    JoinCall { room_id: String, is_video_call: bool },
    Close,
}

/// A click or event on the preview modal.
#[derive(Clone, Copy, PartialEq, Eq, Structural, Debug)]
pub enum PreviewInput {
    Join,
    Mute,
    Camera,
    Dismissed,
}

/// The modal shown before joining a call, where audio and camera can be turned off.
pub struct CallPreviewModal {
    pub room_id: Option<String>,
    pub user_display_name: Option<String>,
    pub is_muted: bool,
    pub is_camera_off: bool,
}

/// What an input on the preview modal asks for: the request to start the call, and the
/// action for the screen that shows the modal.
pub struct PreviewOutcome {
    pub request: Option<CallRequest>,
    pub action: Option<CallPreviewModalAction>,
}

impl CallPreviewModal {
    /// A modal for no room yet.
    pub fn new() -> (r: Self)
        ensures
            r.room_id is None,
            !r.is_muted,
            !r.is_camera_off,
    {
        CallPreviewModal { room_id: None, user_display_name: None, is_muted: false, is_camera_off: false }
    }

    /// Opens the modal for the room `room_id`, with audio and camera on; returns the text
    /// of the avatar.
    pub fn show(&mut self, room_id: String, user_display_name: Option<String>) -> (initial: String)
        ensures
            final(self).room_id == Some(room_id),
            final(self).user_display_name == user_display_name,
            !final(self).is_muted,
            !final(self).is_camera_off,
            initial@ == char_uppercase(initial_char(
                match user_display_name {
                    Some(n) => Some(n@),
                    None => None,
                },
            )),
    {
        let initial = match &user_display_name {
            Some(n) => avatar_initial(Some(n.as_str())),
            None => avatar_initial(None),
        };
        self.room_id = Some(room_id);
        self.user_display_name = user_display_name;
        self.is_muted = false;
        self.is_camera_off = false;
        initial
    }

    /// An input on the modal. Joining, with a room, starts a video call when the camera
    /// is on and an audio call when it is off; mute and camera flip their state; a
    /// dismissal closes the modal.
    pub fn handle(&mut self, input: PreviewInput) -> (r: PreviewOutcome)
        ensures
            final(self).room_id == old(self).room_id,
            final(self).is_muted == (old(self).is_muted != (input == PreviewInput::Mute)),
            final(self).is_camera_off == (old(self).is_camera_off != (input
                == PreviewInput::Camera)),
            input == PreviewInput::Join && old(self).room_id is Some ==> {
                let room = old(self).room_id->0;
                &&& r.request == Some(
                    CallRequest::StartCall { room_id: room, is_video_call: !old(self).is_camera_off },
                )
                &&& r.action == Some(
                    CallPreviewModalAction::JoinCall {
                        room_id: room,
                        is_video_call: !old(self).is_camera_off,
                    },
                )
            },
            input == PreviewInput::Dismissed ==> r.request is None && r.action == Some(
                CallPreviewModalAction::Close,
            ),
            (input == PreviewInput::Mute || input == PreviewInput::Camera || (input
                == PreviewInput::Join && old(self).room_id is None)) ==> r.request is None
                && r.action is None,
    {
        match input {
            PreviewInput::Join => match &self.room_id {
                Some(room_id) => {
                    let is_video_call = !self.is_camera_off;
                    PreviewOutcome {
                        request: Some(CallRequest::StartCall { room_id: room_id.clone(), is_video_call }),
                        action: Some(CallPreviewModalAction::JoinCall { room_id: room_id.clone(), is_video_call }),
                    }
                },
                None => PreviewOutcome { request: None, action: None },
            },
            PreviewInput::Mute => {
                self.is_muted = !self.is_muted;
                PreviewOutcome { request: None, action: None }
            },
            PreviewInput::Camera => {
                self.is_camera_off = !self.is_camera_off;
                PreviewOutcome { request: None, action: None }
            },
            PreviewInput::Dismissed => PreviewOutcome {
                request: None,
                action: Some(CallPreviewModalAction::Close),
            },
        }
    }
}

/// The video tile of one participant.
pub struct VideoPreview {
    pub is_local: bool,
    pub participant_name: String,
    pub is_muted: bool,
    pub has_video: bool,
    /// Whether the name is shown over the video.
    pub name_visible: bool,
}

impl VideoPreview {
    /// A tile without video or name.
    pub fn new() -> (r: Self)
        ensures
            !r.is_local,
            r.participant_name@.len() == 0,
            !r.is_muted,
            !r.has_video,
            r.name_visible,
    {
        VideoPreview {
            is_local: false,
            participant_name: String::new(),
            is_muted: false,
            has_video: false,
            name_visible: true,
        }
    }

    /// Sets whether the tile shows the local camera.
    pub fn set_local(&mut self, is_local: bool)
        ensures
            final(self).is_local == is_local,
            final(self).has_video == old(self).has_video,
            final(self).participant_name@ == old(self).participant_name@,
    {
        self.is_local = is_local;
    }

    /// Sets the name shown; the local tile hides an empty name.
    pub fn set_participant_name(&mut self, name: &str)
        ensures
            final(self).participant_name@ == name@,
            final(self).name_visible == !(old(self).is_local && name@.len() == 0),
            final(self).is_local == old(self).is_local,
            final(self).has_video == old(self).has_video,
    {
        self.participant_name = owned(name);
        self.name_visible = !(self.is_local && name.unicode_len() == 0);
    }

    /// Sets whether the participant is muted, which shows the muted mark.
    pub fn set_muted(&mut self, muted: bool)
        ensures
            final(self).is_muted == muted,
            final(self).has_video == old(self).has_video,
    {
        self.is_muted = muted;
    }

    /// Sets whether video is available; without it a placeholder is shown.
    pub fn set_has_video(&mut self, has_video: bool)
        ensures
            final(self).has_video == has_video,
            final(self).is_muted == old(self).is_muted,
            final(self).is_local == old(self).is_local,
            final(self).name_visible == old(self).name_visible,
            final(self).participant_name == old(self).participant_name,
    {
        self.has_video = has_video;
    }

    /// Whether the placeholder is shown in place of video.
    pub fn placeholder_visible(&self) -> (r: bool)
        ensures
            r == !self.has_video,
    {
        !self.has_video
    }

    /// A new video frame arrived: the tile now has video.
    pub fn update_frame(&mut self)
        ensures
            final(self).has_video,
            final(self).is_muted == old(self).is_muted,
            final(self).participant_name@ == old(self).participant_name@,
    {
        if !self.has_video {
            self.set_has_video(true);
        }
    }
}

} // verus!
