//! The application-wide state kept across runs, and how the application's actions change
//! it: logging in and out, adding and switching accounts, selecting rooms, restoring the
//! saved state, and navigating to a room, including a navigation that waits for its
//! room to load.
use vstd::prelude::*;

use crate::assoc::AssocMap;
use crate::call_state::CallState;
use crate::dock::SavedDockState;
use crate::live_id::{live_id_from_str, live_id_hash};
use crate::membership::RoomState;
use crate::rooms::{sel_name, RoomNameId, SelectedRoom};
use crate::text::{concat, owned, str_eq};

verus! {

/// What the application keeps across runs, and what it shares between its views.
pub struct AppState<P> {
    /// The room highlighted in the rooms list and shown in the main view.
    pub selected_room: Option<SelectedRoom>,
    /// Whether the navigation bar shows the tab for adding a room (not saved).
    pub add_room_tab_selected: bool,
    /// The dock layout of the home view.
    pub saved_dock_state_home: SavedDockState<P>,
    /// The dock layout of each space, by space ID.
    pub saved_dock_state_per_space: AssocMap<String, SavedDockState<P>>,
    /// Whether a user is logged in.
    pub logged_in: bool,
    /// Whether the login screen is shown to add another account (not saved).
    pub adding_account: bool,
}

/// The kind of a popup notification.
#[derive(Clone, Copy, PartialEq, Eq, Structural, Debug)]
pub enum PopupKind {
    Info,
    Success,
    Warning,
    Error,
}

/// A popup notification: its text, its kind, and how many seconds it stays up (`None`
/// until dismissed).
pub struct Notification {
    pub text: String,
    pub kind: PopupKind,
    pub timeout_secs: Option<u64>,
}

impl<P> AppState<P> {
    /// Whether the state's maps are well formed.
    pub open spec fn wf(&self) -> bool {
        self.saved_dock_state_home.wf() && self.saved_dock_state_per_space.wf()
    }

    /// Whether this is the state of a fresh start: nothing selected, no saved layouts,
    /// nobody logged in.
    pub open spec fn is_default(&self) -> bool {
        &&& self.wf()
        &&& self.selected_room is None
        &&& !self.add_room_tab_selected
        &&& self.saved_dock_state_home.dock_items@.len() == 0
        &&& self.saved_dock_state_home.open_rooms@.len() == 0
        &&& self.saved_dock_state_home.room_order@.len() == 0
        &&& self.saved_dock_state_home.selected_room is None
        &&& self.saved_dock_state_per_space@.len() == 0
        &&& !self.logged_in
        &&& !self.adding_account
    }

    /// The state of a fresh start.
    pub fn new() -> (r: Self)
        ensures
            r.is_default(),
    {
        AppState {
            selected_room: None,
            add_room_tab_selected: false,
            saved_dock_state_home: SavedDockState::new(),
            saved_dock_state_per_space: AssocMap::new(),
            logged_in: false,
            adding_account: false,
        }
    }

    /// Whether the login screen is shown instead of the home screen.
    pub fn login_screen_visible(&self) -> (r: bool)
        ensures
            r == !self.logged_in,
    {
        !self.logged_in
    }

    /// A logout finished: nobody is logged in.
    pub fn on_logout_success(&mut self)
        ensures
            *final(self) == (AppState { logged_in: false, ..*old(self) }),
            !final(self).logged_in,
            final(self).adding_account == old(self).adding_account,
            final(self).selected_room == old(self).selected_room,
    {
        self.logged_in = false;
    }

    /// The state is cleared after a logout: everything is reset.
    pub fn clear(&mut self)
        ensures
            final(self).is_default(),
    {
        *self = AppState::new();
    }

    /// A login finished: the user is logged in and no account is being added.
    pub fn on_login_success(&mut self)
        ensures
            *final(self) == (AppState { logged_in: true, adding_account: false, ..*old(self) }),
            final(self).logged_in,
            !final(self).adding_account,
            final(self).selected_room == old(self).selected_room,
    {
        self.logged_in = true;
        self.adding_account = false;
    }

    /// The login screen is shown to add another account.
    pub fn show_add_account_screen(&mut self)
        ensures
            *final(self) == (AppState { adding_account: true, ..*old(self) }),
            final(self).adding_account,
            final(self).logged_in == old(self).logged_in,
    {
        self.adding_account = true;
    }

    /// Adding an account finished or was cancelled: the login screen goes away.
    pub fn end_add_account(&mut self)
        ensures
            *final(self) == (AppState { adding_account: false, ..*old(self) }),
            !final(self).adding_account,
            final(self).logged_in == old(self).logged_in,
    {
        self.adding_account = false;
    }

    /// A switch to the account `user_id` starts: no room stays selected and every saved
    /// layout is dropped, so that all tabs close. Returns the notification to show.
    pub fn on_account_switch_starting(&mut self, user_id: &str) -> (r: Notification)
        ensures
            final(self).wf(),
            final(self).selected_room is None,
            final(self).saved_dock_state_home.dock_items@.len() == 0,
            final(self).saved_dock_state_home.open_rooms@.len() == 0,
            final(self).saved_dock_state_home.room_order@.len() == 0,
            final(self).saved_dock_state_home.selected_room is None,
            final(self).saved_dock_state_per_space@.len() == 0,
            final(self).add_room_tab_selected == old(self).add_room_tab_selected,
            final(self).logged_in == old(self).logged_in,
            final(self).adding_account == old(self).adding_account,
            r.text@ == "Switching to account "@ + user_id@ + "..."@,
            r.kind == PopupKind::Info,
            r.timeout_secs == Some(5u64),
    {
        self.selected_room = None;
        self.saved_dock_state_home = SavedDockState::new();
        self.saved_dock_state_per_space = AssocMap::new();
        let mut t = concat("Switching to account ", user_id);
        t.append("...");
        Notification { text: t, kind: PopupKind::Info, timeout_secs: Some(5) }
    }

    /// A room was selected in the rooms list: it becomes the selected room; returns the
    /// title the main view's header shows.
    pub fn select_room(&mut self, room: SelectedRoom) -> (title: String)
        ensures
            *final(self) == (AppState { selected_room: Some(room), ..*old(self) }),
            final(self).selected_room == Some(room),
            final(self).logged_in == old(self).logged_in,
            final(self).adding_account == old(self).adding_account,
            title@ == crate::rooms::display_text(room),
    {
        let title = room.display_name();
        self.selected_room = Some(room);
        title
    }

    /// A room got the focus: it becomes the selected room.
    pub fn focus_room(&mut self, room: SelectedRoom)
        ensures
            *final(self) == (AppState { selected_room: Some(room), ..*old(self) }),
            final(self).selected_room == Some(room),
            final(self).logged_in == old(self).logged_in,
            final(self).adding_account == old(self).adding_account,
    {
        self.selected_room = Some(room);
    }

    /// The focus left every room: none is selected.
    pub fn focus_none(&mut self)
        ensures
            *final(self) == (AppState { selected_room: None, ..*old(self) }),
            final(self).selected_room is None,
            final(self).logged_in == old(self).logged_in,
            final(self).adding_account == old(self).adding_account,
    {
        self.selected_room = None;
    }

    /// The invite to the room `room_id` was accepted: if that invite is the selected
    /// room, it becomes the joined room. Returns whether it did.
    pub fn upgrade_invite_to_joined(&mut self, room_id: &str) -> (r: bool)
        ensures
            r == (old(self).selected_room matches Some(s) && s is InvitedRoom
                && crate::rooms::sel_room_id(s) == room_id@),
            r ==> final(self).selected_room == Some(
                SelectedRoom::JoinedRoom { room_name_id: sel_name(old(self).selected_room->0) },
            ),
            !r ==> final(self).selected_room == old(self).selected_room,
            *final(self) == (AppState { selected_room: final(self).selected_room, ..*old(self) }),
            final(self).logged_in == old(self).logged_in,
    {
        match &mut self.selected_room {
            Some(s) => s.upgrade_invite_to_joined(room_id),
            None => false,
        }
    }

    /// Takes the state saved by an earlier run, keeping whether a user is logged in now:
    /// the saved value of that is not trusted.
    pub fn restore_from(&mut self, saved: AppState<P>)
        ensures
            final(self).logged_in == old(self).logged_in,
            final(self).selected_room == saved.selected_room,
            final(self).add_room_tab_selected == saved.add_room_tab_selected,
            final(self).saved_dock_state_home == saved.saved_dock_state_home,
            final(self).saved_dock_state_per_space == saved.saved_dock_state_per_space,
            final(self).adding_account == saved.adding_account,
    {
        let logged_in = self.logged_in;
        *self = saved;
        self.logged_in = logged_in;
    }
}

/// The message shown when a switch to the account `user_id` completed.
pub fn account_switched_notification(user_id: &str) -> (r: Notification)
    ensures
        r.text@ == "Switched to account "@ + user_id@,
        r.kind == PopupKind::Info,
        r.timeout_secs == Some(5u64),
{
    Notification { text: concat("Switched to account ", user_id), kind: PopupKind::Info, timeout_secs: Some(5) }
}

/// The message shown when a switch of account failed.
pub fn account_switch_failed_notification(error: &str) -> (r: Notification)
    ensures
        r.text@ == "Failed to switch account: "@ + error@,
        r.kind == PopupKind::Error,
        r.timeout_secs is None,
{
    Notification { text: concat("Failed to switch account: ", error), kind: PopupKind::Error, timeout_secs: None }
}

/// The message shown for an incoming call from `caller_name`.
pub fn incoming_call_notification(caller_name: &str, is_video_call: bool) -> (r: Notification)
    ensures
        r.text@ == "Incoming "@ + (if is_video_call {
            "video"@
        } else {
            "audio"@
        }) + " call from "@ + caller_name@,
        r.kind == PopupKind::Info,
        r.timeout_secs == Some(30u64),
{
    let mut t = owned("Incoming ");
    if is_video_call {
        t.append("video");
    } else {
        t.append("audio");
    }
    t.append(" call from ");
    t.append(caller_name);
    Notification { text: t, kind: PopupKind::Info, timeout_secs: Some(30) }
}

/// The message shown for an error of the call's media.
pub fn call_error_notification(error: &str) -> (r: Notification)
    ensures
        r.text@ == "Call error: "@ + error@,
        r.kind == PopupKind::Error,
        r.timeout_secs is None,
{
    Notification { text: concat("Call error: ", error), kind: PopupKind::Error, timeout_secs: None }
}

/// Whether a change of call state shows the call overlay (`Some(true)`), hides it
/// (`Some(false)`), or leaves it as it is (`None`): a connected call shows it, an idle
/// or ended one hides it.
pub fn call_overlay_visibility(state: &CallState) -> (r: Option<bool>)
    ensures
        *state is Connected ==> r == Some(true),
        *state is Idle || *state is Ended ==> r == Some(false),
        !(*state is Connected || *state is Idle || *state is Ended) ==> r is None,
{
    match state {
        CallState::Connected { .. } => Some(true),
        CallState::Idle | CallState::Ended { .. } => Some(false),
        _ => None,
    }
}

/// The question asked before creating a direct-message room with a user: it names the
/// user by display name and ID when the display name is known and not empty.
pub fn create_dm_prompt(username: Option<&str>, user_id: &str) -> (r: String)
    ensures
        (username matches Some(u) && u@.len() > 0) ==> r@
            == "You don't have an existing direct message room with "@ + username->0@ + " ("@
            + user_id@ + ").\n\nWould you like to create one now?"@,
        !(username matches Some(u) && u@.len() > 0) ==> r@
            == "You don't have an existing direct message room with "@ + user_id@
            + ".\n\nWould you like to create one now?"@,
{
    let mut t = owned("You don't have an existing direct message room with ");
    match username {
        Some(u) => if u.unicode_len() > 0 {
            t.append(u);
            t.append(" (");
            t.append(user_id);
            t.append(").\n\nWould you like to create one now?");
            return t;
        },
        None => {},
    }
    t.append(user_id);
    t.append(".\n\nWould you like to create one now?");
    t
}

/// The message shown when creating a direct-message room failed.
pub fn dm_create_failed_notification(user_name: &str, error: &str) -> (r: Notification)
    ensures
        r.text@ == "Failed to create a new DM room with "@ + user_name@ + ".\n\nError: "@ + error@,
        r.kind == PopupKind::Error,
        r.timeout_secs is None,
{
    let mut t = concat("Failed to create a new DM room with ", user_name);
    t.append(".\n\nError: ");
    t.append(error);
    Notification { text: t, kind: PopupKind::Error, timeout_secs: None }
}

/// A room to close when navigation reaches its destination: its tab's widget id and its
/// ID, which the rooms list hides.
pub struct RoomToClose {
    pub tab_id: u64,
    pub room_id: String,
}

/// What a request to navigate to a room does.
pub enum NavigationOutcome {
    /// The destination is not loaded yet: the join modal is shown, and the navigation
    /// is remembered until the room loads.
    AwaitJoin,
    /// The destination is selected (after switching to the home tab when the tab for
    /// adding a room is shown), and the room to close, if any, is closed.
    Navigate { selected: SelectedRoom, go_home_first: bool, close: Option<RoomToClose> },
}

/// The application: its shared state, and the navigation that waits for its destination
/// room to load (with the room to close once it has).
pub struct App<P> {
    pub app_state: AppState<P>,
    pub waiting_to_navigate_to_room: Option<(RoomNameId, Option<String>)>,
}

/// An action that changes the application-wide state.
pub enum AppStateAction<P> {
    /// The given room was focused (selected).
    RoomFocused(SelectedRoom),
    /// Resets the focus to none, meaning that no room is selected.
    FocusNone,
    /// The given room has been upgraded from an invite to a joined room.
    UpgradedInviteToJoinedRoom(String),
    /// The given app state was loaded from persistent storage and is to be restored.
    RestoreAppStateFromPersistentState(AppState<P>),
    /// The given room was loaded from the homeserver.
    RoomLoadedSuccessfully { room_name_id: RoomNameId, is_invite: bool },
    /// A request to navigate to a room, optionally closing another one.
    NavigateToRoom { room_to_close: Option<String>, destination_room: RoomNameId },
    Nothing,
}

/// What handling an application-state action asks of the views.
pub enum AppActionOutcome {
    /// The state changed and nothing needs to be drawn anew.
    Updated,
    /// The state changed and the view is to be redrawn.
    Redraw,
    /// The saved state was restored and the dock is to load its layout from it.
    LoadDock,
    /// A navigation to a room was carried out or put off.
    Navigation(NavigationOutcome),
    /// The action was not one that changes the application state (or it reported a room
    /// that no navigation waits for): it is left to the other handlers.
    NotHandled,
}

/// The text of an optional string.
pub open spec fn opt_text(o: Option<String>) -> Option<Seq<char>> {
    match o {
        Some(s) => Some(s@),
        None => None,
    }
}

/// A waiting navigation with its room to close taken by its text.
pub open spec fn wait_text(w: Option<(RoomNameId, Option<String>)>) -> Option<(RoomNameId, Option<Seq<char>>)> {
    match w {
        Some(x) => Some((x.0, opt_text(x.1))),
        None => None,
    }
}

/// The text of an optional string slice.
pub open spec fn str_text(o: Option<&str>) -> Option<Seq<char>> {
    match o {
        Some(s) => Some(s@),
        None => None,
    }
}

/// Whether `r` is the navigation to `destination`, whose state the rooms list gives as
/// `state`, closing the room whose ID is `to_close`: a joined room or an invite is
/// selected at once (after going to the home tab when the tab for adding a room is
/// shown), and the room to close is closed by its tab; a room in any other state is
/// waited for.
pub open spec fn is_navigation(
    r: NavigationOutcome,
    to_close: Option<Seq<char>>,
    destination: RoomNameId,
    state: Option<RoomState>,
    add_room_tab_selected: bool,
) -> bool {
    if state == Some(RoomState::Joined) || state == Some(RoomState::Invited) {
        &&& r matches NavigationOutcome::Navigate { selected, go_home_first, close }
        &&& r->selected == (if state == Some(RoomState::Joined) {
            SelectedRoom::JoinedRoom { room_name_id: destination }
        } else {
            SelectedRoom::InvitedRoom { room_name_id: destination }
        })
        &&& r->go_home_first == add_room_tab_selected
        &&& match to_close {
            Some(c) => r->close matches Some(x) && x.room_id@ == c && x.tab_id == live_id_hash(c),
            None => r->close is None,
        }
    } else {
        r is AwaitJoin
    }
}

/// Whether `w` waits for the room `room_id`.
pub open spec fn waits_for(w: Option<(RoomNameId, Option<String>)>, room_id: Seq<char>) -> bool {
    w matches Some(x) && x.0.room_id@ == room_id
}

impl<P> App<P> {
    /// An application with the given state, waiting for nothing.
    pub fn new(app_state: AppState<P>) -> (r: Self)
        ensures
            r.app_state == app_state,
            r.waiting_to_navigate_to_room is None,
    {
        App { app_state, waiting_to_navigate_to_room: None }
    }

    /// Navigates to `destination`, closing `room_to_close` if given. `destination_state`
    /// is what the rooms list knows of the destination: a joined room or an invite is
    /// shown at once (going to the home tab first when the tab for adding a room is
    /// shown); any other state waits for the room to load.
    pub fn navigate_to_room(
        &mut self,
        room_to_close: Option<&str>,
        destination: &RoomNameId,
        destination_state: Option<RoomState>,
    ) -> (r: NavigationOutcome)
        ensures
            final(self).app_state == old(self).app_state,
            is_navigation(
                r,
                str_text(room_to_close),
                *destination,
                destination_state,
                old(self).app_state.add_room_tab_selected,
            ),
            r is Navigate ==> final(self).waiting_to_navigate_to_room == old(self).waiting_to_navigate_to_room,
            r is AwaitJoin ==> wait_text(final(self).waiting_to_navigate_to_room) == Some(
                (*destination, str_text(room_to_close)),
            ),
    {
        let selected = match destination_state {
            Some(RoomState::Joined) => SelectedRoom::JoinedRoom { room_name_id: destination.duplicate() },
            Some(RoomState::Invited) => SelectedRoom::InvitedRoom {
                room_name_id: destination.duplicate(),
            },
            _ => {
                let close = match room_to_close {
                    Some(c) => Some(owned(c)),
                    None => None,
                };
                self.waiting_to_navigate_to_room = Some((destination.duplicate(), close));
                return NavigationOutcome::AwaitJoin;
            },
        };
        let close = match room_to_close {
            Some(c) => Some(RoomToClose { tab_id: live_id_from_str(c), room_id: owned(c) }),
            None => None,
        };
        NavigationOutcome::Navigate {
            selected,
            go_home_first: self.app_state.add_room_tab_selected,
            close,
        }
    }

    /// The room `room_id` finished loading: if navigation was waiting for it, the waiting
    /// navigation is taken and returned, to be carried out now.
    pub fn room_loaded(&mut self, room_id: &str) -> (r: Option<(RoomNameId, Option<String>)>)
        ensures
            final(self).app_state == old(self).app_state,
            waits_for(old(self).waiting_to_navigate_to_room, room_id@) ==> r
                == old(self).waiting_to_navigate_to_room && final(self).waiting_to_navigate_to_room is None,
            !waits_for(old(self).waiting_to_navigate_to_room, room_id@) ==> r is None
                && final(self).waiting_to_navigate_to_room == old(self).waiting_to_navigate_to_room,
    {
        let matches_room = match &self.waiting_to_navigate_to_room {
            Some(w) => str_eq(w.0.room_id.as_str(), room_id),
            None => false,
        };
        if matches_room {
            let w = self.waiting_to_navigate_to_room.take();
            w
        } else {
            None
        }
    }

    /// Handles an action on the application state. `room_state` is what the rooms list
    /// knows of the room the action names (the destination of a navigation, or the room
    /// that loaded).
    pub fn handle_app_state_action(
        &mut self,
        action: AppStateAction<P>,
        room_state: Option<RoomState>,
    ) -> (r: AppActionOutcome)
        ensures
            match action {
                AppStateAction::RoomFocused(room) => r is Updated && final(self).app_state
                    == (AppState { selected_room: Some(room), ..old(self).app_state })
                    && final(self).waiting_to_navigate_to_room == old(self).waiting_to_navigate_to_room,
                AppStateAction::FocusNone => r is Updated && final(self).app_state == (AppState {
                    selected_room: None,
                    ..old(self).app_state
                }) && final(self).waiting_to_navigate_to_room == old(self).waiting_to_navigate_to_room,
                AppStateAction::UpgradedInviteToJoinedRoom(room_id) => {
                    let upgraded = old(self).app_state.selected_room matches Some(s)
                        && s is InvitedRoom && crate::rooms::sel_room_id(s) == room_id@;
                    &&& upgraded ==> r is Redraw && final(self).app_state.selected_room == Some(
                        SelectedRoom::JoinedRoom {
                            room_name_id: sel_name(old(self).app_state.selected_room->0),
                        },
                    )
                    &&& !upgraded ==> r is Updated && final(self).app_state.selected_room
                        == old(self).app_state.selected_room
                    &&& final(self).app_state == (AppState {
                        selected_room: final(self).app_state.selected_room,
                        ..old(self).app_state
                    })
                    &&& final(self).app_state.logged_in == old(self).app_state.logged_in
                    &&& final(self).waiting_to_navigate_to_room == old(self).waiting_to_navigate_to_room
                },
                AppStateAction::RestoreAppStateFromPersistentState(saved) => r is LoadDock
                    && final(self).app_state == (AppState {
                    logged_in: old(self).app_state.logged_in,
                    ..saved
                }) && final(self).waiting_to_navigate_to_room == old(self).waiting_to_navigate_to_room,
                AppStateAction::NavigateToRoom { room_to_close, destination_room } => {
                    &&& r is Navigation
                    &&& final(self).app_state == old(self).app_state
                    &&& is_navigation(
                        r->0,
                        opt_text(room_to_close),
                        destination_room,
                        room_state,
                        old(self).app_state.add_room_tab_selected,
                    )
                    &&& r->0 is AwaitJoin ==> wait_text(final(self).waiting_to_navigate_to_room)
                        == Some((destination_room, opt_text(room_to_close)))
                    &&& r->0 is Navigate ==> final(self).waiting_to_navigate_to_room
                        == old(self).waiting_to_navigate_to_room
                },
                AppStateAction::RoomLoadedSuccessfully { room_name_id, .. } => {
                    &&& final(self).app_state == old(self).app_state
                    &&& !waits_for(old(self).waiting_to_navigate_to_room, room_name_id.room_id@)
                        ==> r is NotHandled && final(self).waiting_to_navigate_to_room
                        == old(self).waiting_to_navigate_to_room
                    &&& waits_for(old(self).waiting_to_navigate_to_room, room_name_id.room_id@)
                        ==> r is Navigation && is_navigation(
                        r->0,
                        (wait_text(old(self).waiting_to_navigate_to_room)->0).1,
                        (old(self).waiting_to_navigate_to_room->0).0,
                        room_state,
                        old(self).app_state.add_room_tab_selected,
                    ) && (r->0 is Navigate
                        ==> final(self).waiting_to_navigate_to_room is None) && (r->0 is AwaitJoin
                        ==> wait_text(final(self).waiting_to_navigate_to_room) == wait_text(
                        old(self).waiting_to_navigate_to_room,
                    ))
                },
                AppStateAction::Nothing => r is NotHandled && final(self).app_state
                    == old(self).app_state && final(self).waiting_to_navigate_to_room
                    == old(self).waiting_to_navigate_to_room,
            },
    {
        match action {
            AppStateAction::RoomFocused(room) => {
                self.app_state.focus_room(room);
                AppActionOutcome::Updated
            },
            AppStateAction::FocusNone => {
                self.app_state.focus_none();
                AppActionOutcome::Updated
            },
            AppStateAction::UpgradedInviteToJoinedRoom(room_id) => {
                if self.app_state.upgrade_invite_to_joined(room_id.as_str()) {
                    AppActionOutcome::Redraw
                } else {
                    AppActionOutcome::Updated
                }
            },
            AppStateAction::RestoreAppStateFromPersistentState(saved) => {
                self.app_state.restore_from(saved);
                AppActionOutcome::LoadDock
            },
            AppStateAction::NavigateToRoom { room_to_close, destination_room } => {
                let close = match &room_to_close {
                    Some(c) => Some(c.as_str()),
                    None => None,
                };
                let outcome = self.navigate_to_room(close, &destination_room, room_state);
                AppActionOutcome::Navigation(outcome)
            },
            AppStateAction::RoomLoadedSuccessfully { room_name_id, .. } => {
                match self.room_loaded(room_name_id.room_id.as_str()) {
                    Some((destination, room_to_close)) => {
                        let close = match &room_to_close {
                            Some(c) => Some(c.as_str()),
                            None => None,
                        };
                        let outcome = self.navigate_to_room(close, &destination, room_state);
                        AppActionOutcome::Navigation(outcome)
                    },
                    None => AppActionOutcome::NotHandled,
                }
            },
            AppStateAction::Nothing => AppActionOutcome::NotHandled,
        }
    }
}

/// Only a joined room or an invite is opened at once: a navigation to a joined room
/// selects it as a joined room, one to an invite selects it as an invite, and one to a
/// room the user has left, is banned from or has knocked on, or whose state is unknown,
/// waits for it to be joined.
pub proof fn law_navigation_by_room_state(
    r: NavigationOutcome,
    to_close: Option<Seq<char>>,
    destination: RoomNameId,
    state: Option<RoomState>,
    add_room_tab_selected: bool,
)
    requires
        is_navigation(r, to_close, destination, state, add_room_tab_selected),
    ensures
        state == Some(RoomState::Joined) ==> (r matches NavigationOutcome::Navigate {
            selected: SelectedRoom::JoinedRoom { room_name_id },
            ..
        } && room_name_id == destination),
        state == Some(RoomState::Invited) ==> (r matches NavigationOutcome::Navigate {
            selected: SelectedRoom::InvitedRoom { room_name_id },
            ..
        } && room_name_id == destination),
        state == Some(RoomState::Left) ==> r is AwaitJoin,
        state == Some(RoomState::Banned) ==> r is AwaitJoin,
        state == Some(RoomState::Knocked) ==> r is AwaitJoin,
        state is None ==> r is AwaitJoin,
{
}

/// A navigation put off because its room was not loaded is carried out as it was asked
/// once that room loads: when the waiting navigation `w` is the one a request to go to
/// `destination` (closing `to_close`) left, the room's loading is one it waits for, and
/// the navigation then carried out (`r`, as `handle_app_state_action` states it) goes to
/// `destination` and closes `to_close`.
pub proof fn law_put_off_navigation_resumes(
    w: Option<(RoomNameId, Option<String>)>,
    destination: RoomNameId,
    to_close: Option<Seq<char>>,
    r: NavigationOutcome,
    state: Option<RoomState>,
    add_room_tab_selected: bool,
)
    requires
        wait_text(w) == Some((destination, to_close)),
        is_navigation(r, (wait_text(w)->0).1, (w->0).0, state, add_room_tab_selected),
    ensures
        waits_for(w, destination.room_id@),
        is_navigation(r, to_close, destination, state, add_room_tab_selected),
{
}

} // verus!
