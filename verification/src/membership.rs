//! Why the user is no longer a member of a room, and what the view explaining it shows.
use vstd::prelude::*;

use crate::text::{concat, owned};

verus! {

/// The membership state the client reports for a room.
#[derive(Clone, Copy, PartialEq, Eq, Structural, Debug)]
pub enum RoomState {
    Joined,
    Left,
    Invited,
    Banned,
    Knocked,
}

/// Why the user is no longer a member of a room.
pub enum NoLongerMemberReason {
    /// The user left the room on their own.
    Left,
    /// The user was kicked from the room, optionally with a reason.
    Kicked(Option<String>),
    /// The user was banned from the room, optionally with a reason.
    Banned(Option<String>),
}

/// The title shown for each reason.
pub open spec fn reason_title(r: NoLongerMemberReason) -> Seq<char> {
    match r {
        NoLongerMemberReason::Left => "You left this room"@,
        NoLongerMemberReason::Kicked(_) => "You were removed from this room"@,
        NoLongerMemberReason::Banned(_) => "You are banned from this room"@,
    }
}

/// The description shown for each reason.
pub open spec fn reason_description(r: NoLongerMemberReason) -> Seq<char> {
    match r {
        NoLongerMemberReason::Left =>
            "You are no longer a member of this room. If this is a public room, you can rejoin at any time."@,
        NoLongerMemberReason::Kicked(_) =>
            "A room administrator removed you from this room. You may be able to rejoin if the room is public."@,
        NoLongerMemberReason::Banned(_) =>
            "A room administrator has banned you from this room. You cannot rejoin until you are unbanned."@,
    }
}

/// The reason given by the administrator, if any.
pub open spec fn given_reason(r: NoLongerMemberReason) -> Option<Seq<char>> {
    match r {
        NoLongerMemberReason::Left => None,
        NoLongerMemberReason::Kicked(Some(t)) => Some(t@),
        NoLongerMemberReason::Banned(Some(t)) => Some(t@),
        _ => None,
    }
}

impl NoLongerMemberReason {
    /// A copy of this reason.
    pub fn duplicate(&self) -> (r: Self)
        ensures
            r == *self,
    {
        match self {
            NoLongerMemberReason::Left => NoLongerMemberReason::Left,
            NoLongerMemberReason::Kicked(t) => NoLongerMemberReason::Kicked(
                match t {
                    Some(s) => Some(s.clone()),
                    None => None,
                },
            ),
            NoLongerMemberReason::Banned(t) => NoLongerMemberReason::Banned(
                match t {
                    Some(s) => Some(s.clone()),
                    None => None,
                },
            ),
        }
    }

    /// Whether the user may try to rejoin: everyone but a banned user.
    pub fn can_rejoin(&self) -> (r: bool)
        ensures
            r == !(*self is Banned),
    {
        !matches!(self, NoLongerMemberReason::Banned(_))
    }

    /// The title text for this reason.
    pub fn title(&self) -> (r: &'static str)
        ensures
            r@ == reason_title(*self),
    {
        match self {
            NoLongerMemberReason::Left => "You left this room",
            NoLongerMemberReason::Kicked(_) => "You were removed from this room",
            NoLongerMemberReason::Banned(_) => "You are banned from this room",
        }
    }

    /// The description text for this reason.
    pub fn description(&self) -> (r: &'static str)
        ensures
            r@ == reason_description(*self),
    {
        match self {
            NoLongerMemberReason::Left => {
                "You are no longer a member of this room. If this is a public room, you can rejoin at any time."
            },
            NoLongerMemberReason::Kicked(_) => {
                "A room administrator removed you from this room. You may be able to rejoin if the room is public."
            },
            NoLongerMemberReason::Banned(_) => {
                "A room administrator has banned you from this room. You cannot rejoin until you are unbanned."
            },
        }
    }

    /// The reason the administrator gave, if one was given.
    pub fn reason_text(&self) -> (r: Option<&str>)
        ensures
            match given_reason(*self) {
                Some(t) => r matches Some(s) && s@ == t,
                None => r is None,
            },
    {
        match self {
            NoLongerMemberReason::Left => None,
            NoLongerMemberReason::Kicked(reason) | NoLongerMemberReason::Banned(reason) => {
                match reason {
                    Some(s) => Some(s.as_str()),
                    None => None,
                }
            },
        }
    }

    /// The reason that a room state implies: having left gives [`Left`](Self::Left),
    /// a ban gives [`Banned`](Self::Banned) with no reason known; any other state is
    /// membership, or not yet, and gives `None`.
    pub fn from_room_state(state: RoomState) -> (r: Option<Self>)
        ensures
            state == RoomState::Left ==> r == Some(NoLongerMemberReason::Left),
            state == RoomState::Banned ==> r == Some(NoLongerMemberReason::Banned(None)),
            state != RoomState::Left && state != RoomState::Banned ==> r is None,
    {
        match state {
            RoomState::Left => Some(NoLongerMemberReason::Left),
            RoomState::Banned => Some(NoLongerMemberReason::Banned(None)),
            _ => None,
        }
    }
}

/// What the view explaining a lost membership shows.
pub struct NoLongerMemberContent {
    pub title: String,
    pub description: String,
    /// The text of the reason line (`Reason: ...`), shown only when a reason was given.
    pub reason_label: Option<String>,
    /// Whether the rejoin button is shown.
    pub rejoin_visible: bool,
}

/// The contents of the view that explains why the user is no longer a member, for
/// `reason`.
pub fn no_longer_member_content(reason: &NoLongerMemberReason) -> (r: NoLongerMemberContent)
    ensures
        r.title@ == reason_title(*reason),
        r.description@ == reason_description(*reason),
        match given_reason(*reason) {
            Some(t) => r.reason_label matches Some(l) && l@ == "Reason: "@ + t,
            None => r.reason_label is None,
        },
        r.rejoin_visible == !(*reason is Banned),
{
    let reason_label = match reason.reason_text() {
        Some(t) => Some(concat("Reason: ", t)),
        None => None,
    };
    NoLongerMemberContent {
        title: owned(reason.title()),
        description: owned(reason.description()),
        reason_label,
        rejoin_visible: reason.can_rejoin(),
    }
}


/// What the view explaining a lost membership asks of the room screen.
#[derive(Clone, Copy, PartialEq, Eq, Structural, Debug)]
pub enum NoLongerMemberAction {
    Rejoin,
    Close,
    Nothing,
}

/// The view explaining why the user is no longer a member of a room.
pub struct NoLongerMemberView {
    pub visible: bool,
    pub reason: NoLongerMemberReason,
}

impl NoLongerMemberView {
    /// A hidden view.
    pub fn new() -> (r: Self)
        ensures
            !r.visible,
            r.reason is Left,
    {
        NoLongerMemberView { visible: false, reason: NoLongerMemberReason::Left }
    }

    /// Shows the view for `reason`; returns what it shows.
    pub fn show(&mut self, reason: NoLongerMemberReason) -> (r: NoLongerMemberContent)
        ensures
            final(self).visible,
            final(self).reason == reason,
            r.title@ == reason_title(reason),
            r.description@ == reason_description(reason),
            match given_reason(reason) {
                Some(t) => r.reason_label matches Some(l) && l@ == "Reason: "@ + t,
                None => r.reason_label is None,
            },
            r.rejoin_visible == !(reason is Banned),
    {
        let content = no_longer_member_content(&reason);
        self.reason = reason;
        self.visible = true;
        content
    }

    /// Hides the view.
    pub fn hide_view(&mut self)
        ensures
            !final(self).visible,
            final(self).reason == old(self).reason,
    {
        self.visible = false;
    }

    /// What a click asks for: the rejoin button asks to rejoin, the close button to
    /// close; nothing else asks for anything.
    pub fn clicked(rejoin_clicked: bool, close_clicked: bool) -> (r: NoLongerMemberAction)
        ensures
            rejoin_clicked ==> r == NoLongerMemberAction::Rejoin,
            !rejoin_clicked && close_clicked ==> r == NoLongerMemberAction::Close,
            !rejoin_clicked && !close_clicked ==> r == NoLongerMemberAction::Nothing,
    {
        if rejoin_clicked {
            NoLongerMemberAction::Rejoin
        } else if close_clicked {
            NoLongerMemberAction::Close
        } else {
            NoLongerMemberAction::Nothing
        }
    }
}

} // verus!
