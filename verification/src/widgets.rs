//! Small stateful pieces of the interface: the context menu of a space, the collapsible
//! preview of a replied-to message, the switch that enables the bot, and the bot
//! settings view it controls.
use vstd::prelude::*;

use crate::app_state::{Notification, PopupKind};
use crate::rooms::RoomNameId;
use crate::text::{owned, trim, trim_str};

verus! {

/// What the context menu of a space was opened for: the space, and the channel that
/// carries requests about it (which the menu only hands on).
pub struct SpaceContextMenuDetails<S> {
    pub space_name_id: RoomNameId,
    pub space_request_sender: S,
}

/// The buttons of the context menu of a space.
#[derive(Clone, Copy, PartialEq, Eq, Structural, Debug)]
pub enum SpaceMenuButton {
    CopyLink,
    SpaceSettings,
    Leave,
}

/// What a click in the context menu of a space asks for.
pub enum SpaceMenuOutcome<S> {
    /// Generate a link to the space (a `matrix.to` link that does not join on click).
    GenerateLink { room_id: String },
    /// Tell the user that the space settings page does not exist yet.
    Notify(Notification),
    /// Open the modal that confirms leaving the space.
    ConfirmLeave { space_name_id: RoomNameId, space_request_sender: S },
}

/// An action the context menu of a space can report: a request to open a space's
/// settings (the menu's own settings button only tells that the page does not exist).
pub enum SpaceContextMenuAction {
    OpenSpaceSettings(RoomNameId),
    Nothing,
}

/// The context menu of a space.
pub struct SpaceContextMenu<S> {
    pub details: Option<SpaceContextMenuDetails<S>>,
    pub visible: bool,
}

impl<S> SpaceContextMenu<S> {
    /// A closed menu.
    pub fn new() -> (r: Self)
        ensures
            r.details is None,
            !r.visible,
    {
        SpaceContextMenu { details: None, visible: false }
    }

    /// Opens the menu for a space.
    pub fn show(&mut self, details: SpaceContextMenuDetails<S>)
        ensures
            final(self).details == Some(details),
            final(self).visible,
    {
        self.details = Some(details);
        self.visible = true;
    }

    /// Whether the menu is open.
    pub fn is_currently_shown(&self) -> (r: bool)
        ensures
            r == self.visible,
    {
        self.visible
    }

    /// Closes the menu and forgets the space.
    pub fn close(&mut self)
        ensures
            final(self).details is None,
            !final(self).visible,
    {
        self.visible = false;
        self.details = None;
    }

    /// A click on `button`: without a space nothing happens; with one, the menu asks
    /// for the button's request and closes.
    pub fn click(&mut self, button: SpaceMenuButton) -> (r: Option<SpaceMenuOutcome<S>>)
        ensures
            old(self).details is None ==> r is None && final(self).details is None && final(self).visible == old(self).visible,
            old(self).details is Some ==> {
                let d = old(self).details->0;
                &&& final(self).details is None
                &&& !final(self).visible
                &&& match button {
                    SpaceMenuButton::CopyLink => (r matches Some(
                        SpaceMenuOutcome::GenerateLink { room_id },
                    ) && room_id@ == d.space_name_id.room_id@),
                    SpaceMenuButton::SpaceSettings => (r matches Some(SpaceMenuOutcome::Notify(n))
                        && n.text@ == "The space settings page is not yet implemented."@ && n.kind
                        == PopupKind::Warning && n.timeout_secs == Some(5u64)),
                    SpaceMenuButton::Leave => (r matches Some(
                        SpaceMenuOutcome::ConfirmLeave { space_name_id, space_request_sender },
                    ) && space_name_id == d.space_name_id && space_request_sender
                        == d.space_request_sender),
                }
            },
    {
        let d = match self.details.take() {
            Some(d) => d,
            None => return None,
        };
        self.visible = false;
        match button {
            SpaceMenuButton::CopyLink => Some(
                SpaceMenuOutcome::GenerateLink { room_id: d.space_name_id.room_id.clone() },
            ),
            SpaceMenuButton::SpaceSettings => Some(
                SpaceMenuOutcome::Notify(
                    Notification {
                        text: owned("The space settings page is not yet implemented."),
                        kind: PopupKind::Warning,
                        timeout_secs: Some(5),
                    },
                ),
            ),
            SpaceMenuButton::Leave => Some(
                SpaceMenuOutcome::ConfirmLeave {
                    space_name_id: d.space_name_id,
                    space_request_sender: d.space_request_sender,
                },
            ),
        }
    }
}

/// What the preview of a replied-to message reports.
#[derive(PartialEq, Eq, Structural, Debug)]
pub enum RepliedToMessageAction {
    /// The expand/collapse state was toggled.
    Toggled { is_expanded: bool },
    Nothing,
}

/// The preview of a message that was replied to, which collapses when it is too tall.
pub struct RepliedToMessage {
    pub is_expanded: bool,
    /// Whether the content is taller than the preview's height limit.
    pub needs_truncation: bool,
}

impl RepliedToMessage {
    /// A collapsed preview of content that fits.
    pub fn new() -> (r: Self)
        ensures
            !r.is_expanded,
            !r.needs_truncation,
    {
        RepliedToMessage { is_expanded: false, needs_truncation: false }
    }

    /// Records whether the measured content exceeds the height limit.
    pub fn set_needs_truncation(&mut self, needs: bool)
        ensures
            final(self).needs_truncation == needs,
            final(self).is_expanded == old(self).is_expanded,
    {
        self.needs_truncation = needs;
    }

    /// A tap on the expand/collapse button: the state flips, and the new state is
    /// reported.
    pub fn toggle_expand_collapse(&mut self) -> (r: RepliedToMessageAction)
        ensures
            final(self).is_expanded == !old(self).is_expanded,
            r == (RepliedToMessageAction::Toggled { is_expanded: final(self).is_expanded }),
            final(self).needs_truncation == old(self).needs_truncation,
    {
        self.is_expanded = !self.is_expanded;
        RepliedToMessageAction::Toggled { is_expanded: self.is_expanded }
    }

    /// Sets whether the preview is expanded; returns whether that changed anything (and
    /// the preview must be redrawn).
    pub fn set_expanded(&mut self, is_expanded: bool) -> (changed: bool)
        ensures
            final(self).is_expanded == is_expanded,
            changed == (old(self).is_expanded != is_expanded),
            final(self).needs_truncation == old(self).needs_truncation,
    {
        let changed = self.is_expanded != is_expanded;
        self.is_expanded = is_expanded;
        changed
    }

    /// The label of the expand/collapse button, which is shown only when the content is
    /// too tall.
    pub fn expand_label(&self) -> (r: Option<&'static str>)
        ensures
            !self.needs_truncation ==> r is None,
            self.needs_truncation && self.is_expanded ==> (r matches Some(t) && t@ == "Show less"@),
            self.needs_truncation && !self.is_expanded ==> (r matches Some(t) && t@ == "Show more"@),
    {
        if !self.needs_truncation {
            None
        } else if self.is_expanded {
            Some("Show less")
        } else {
            Some("Show more")
        }
    }

    /// Whether the content is clipped to the height limit: when it is too tall and
    /// collapsed.
    pub fn clipped(&self) -> (r: bool)
        ensures
            r == (!self.is_expanded && self.needs_truncation),
    {
        !self.is_expanded && self.needs_truncation
    }
}

/// What the switch that enables the bot reports.
#[derive(Clone, Copy, PartialEq, Eq, Structural, Debug)]
pub enum BotEnableSwitchAction {
    Changed(bool),
    Nothing,
}

/// The switch that enables the bot.
pub struct BotEnableSwitch {
    pub on: bool,
    pub disabled: bool,
}

impl BotEnableSwitch {
    /// Sets the switch.
    pub fn set_on(&mut self, on: bool)
        ensures
            final(self).on == on,
            final(self).disabled == old(self).disabled,
    {
        self.on = on;
    }

    /// A tap on the switch: a disabled switch ignores it; otherwise the switch flips and
    /// reports its new state.
    pub fn tap(&mut self) -> (r: BotEnableSwitchAction)
        ensures
            old(self).disabled ==> r == BotEnableSwitchAction::Nothing && final(self).on == old(
                self,
            ).on,
            !old(self).disabled ==> final(self).on == !old(self).on && r
                == BotEnableSwitchAction::Changed(final(self).on),
            final(self).disabled == old(self).disabled,
    {
        if self.disabled {
            return BotEnableSwitchAction::Nothing;
        }
        self.on = !self.on;
        BotEnableSwitchAction::Changed(self.on)
    }

    /// The new state a reported action carries, if it is a change.
    pub fn changed(action: BotEnableSwitchAction) -> (r: Option<bool>)
        ensures
            match action {
                BotEnableSwitchAction::Changed(on) => r == Some(on),
                BotEnableSwitchAction::Nothing => r is None,
            },
    {
        match action {
            BotEnableSwitchAction::Changed(on) => Some(on),
            BotEnableSwitchAction::Nothing => None,
        }
    }
}

/// The bot settings kept in the application's state.
pub struct BotSettingsState {
    pub enabled: bool,
    pub botfather_user_id: String,
}

impl BotSettingsState {
    /// The switch was changed: the setting follows it, and the bot details are shown
    /// exactly when the bot is enabled.
    pub fn set_enabled(&mut self, enabled: bool) -> (details_visible: bool)
        ensures
            final(self).enabled == enabled,
            details_visible == enabled,
            final(self).botfather_user_id == old(self).botfather_user_id,
    {
        self.enabled = enabled;
        enabled
    }

    /// "Save" was clicked: the entered BotFather user ID is kept, trimmed, and a
    /// confirmation is shown.
    pub fn save(&mut self, user_id_text: &str) -> (r: Notification)
        ensures
            final(self).botfather_user_id@ == trim(user_id_text@),
            final(self).enabled == old(self).enabled,
            r.text@ == "Saved Matrix app service settings."@,
            r.kind == PopupKind::Success,
            r.timeout_secs == Some(3u64),
    {
        self.botfather_user_id = trim_str(user_id_text);
        Notification {
            text: owned("Saved Matrix app service settings."),
            kind: PopupKind::Success,
            timeout_secs: Some(3),
        }
    }
}

/// The view of the bot settings: the switch that enables the bot, whether the bot
/// details are shown, and the text of the BotFather user ID field.
pub struct BotSettings {
    pub enable_switch: BotEnableSwitch,
    pub details_visible: bool,
    pub bot_user_id_input: String,
}

impl BotSettings {
    /// Populates the view from the saved bot settings.
    pub fn populate(&mut self, bot_settings: &BotSettingsState)
        ensures
            final(self).enable_switch.on == bot_settings.enabled,
            final(self).enable_switch.disabled == old(self).enable_switch.disabled,
            final(self).details_visible == bot_settings.enabled,
            final(self).bot_user_id_input@ == bot_settings.botfather_user_id@,
    {
        self.enable_switch.set_on(bot_settings.enabled);
        self.details_visible = bot_settings.enabled;
        self.bot_user_id_input = bot_settings.botfather_user_id.clone();
    }

    /// Handles what the switch reported and whether "Save" was clicked: a change of the
    /// switch enables or disables the bot and shows or hides its details; "Save" keeps
    /// the entered user ID, trimmed, and returns the confirmation to show.
    pub fn handle_actions(
        &mut self,
        state: &mut BotSettingsState,
        switch_action: BotEnableSwitchAction,
        save_clicked: bool,
    ) -> (r: Option<Notification>)
        ensures
            match switch_action {
                BotEnableSwitchAction::Changed(on) => final(state).enabled == on
                    && final(self).details_visible == on,
                BotEnableSwitchAction::Nothing => final(state).enabled == old(state).enabled
                    && final(self).details_visible == old(self).details_visible,
            },
            save_clicked ==> final(state).botfather_user_id@ == trim(old(self).bot_user_id_input@),
            save_clicked ==> (r matches Some(n) && n.text@ == "Saved Matrix app service settings."@
                && n.kind == PopupKind::Success && n.timeout_secs == Some(3u64)),
            !save_clicked ==> r is None && final(state).botfather_user_id == old(
                state,
            ).botfather_user_id,
            final(self).enable_switch == old(self).enable_switch,
            final(self).bot_user_id_input == old(self).bot_user_id_input,
    {
        match BotEnableSwitch::changed(switch_action) {
            Some(enabled) => {
                self.details_visible = state.set_enabled(enabled);
            },
            None => {},
        }
        if save_clicked {
            Some(state.save(self.bot_user_id_input.as_str()))
        } else {
            None
        }
    }
}

} // verus!
