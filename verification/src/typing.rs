//! The notice telling who is typing in a room.
use vstd::prelude::*;

use crate::text::{decimal, u64_to_decimal};

verus! {

/// At most this many typing users get an avatar in the notice.
pub const MAX_TYPING_AVATARS: usize = 3;

/// The text of the typing notice for the display names `names`, or `None` when
/// nobody is typing (the notice is then hidden).
pub open spec fn typing_text(names: Seq<Seq<char>>) -> Option<Seq<char>> {
    if names.len() == 0 {
        None
    } else if names.len() == 1 {
        Some(names[0] + " is typing "@)
    } else if names.len() == 2 {
        Some(names[0] + " and "@ + names[1] + " are typing "@)
    } else if names.len() == 3 {
        Some(names[0] + ", "@ + names[1] + ", and "@ + names[2] + " are typing "@)
    } else {
        Some(
            names[0] + ", "@ + names[1] + ", and "@ + decimal((names.len() - 2) as nat)
                + " others are typing "@,
        )
    }
}

/// The display names of `v`, as character sequences.
pub open spec fn names_of(v: Seq<String>) -> Seq<Seq<char>> {
    v.map_values(|s: String| s@)
}

/// The text of the typing notice for the users whose display names are `names`, in
/// order; `None` when the list is empty and the notice is to be hidden.
pub fn typing_notice_text(names: &[String]) -> (r: Option<String>)
    ensures
        match typing_text(names_of(names@)) {
            Some(t) => r matches Some(s) && s@ == t,
            None => r is None,
        },
{
    let n = names.len();
    if n == 0 {
        return None;
    }
    let mut t = names[0].clone();
    if n == 1 {
        t.append(" is typing ");
        return Some(t);
    }
    if n == 2 {
        t.append(" and ");
        t.append(names[1].as_str());
        t.append(" are typing ");
        return Some(t);
    }
    t.append(", ");
    t.append(names[1].as_str());
    t.append(", and ");
    if n == 3 {
        t.append(names[2].as_str());
        t.append(" are typing ");
    } else {
        let others = u64_to_decimal((n - 2) as u64);
        t.append(others.as_str());
        t.append(" others are typing ");
    }
    Some(t)
}

/// Whether the avatar slot `slot` of the typing notice shows a user, when `n` users are
/// typing: the first [`MAX_TYPING_AVATARS`] users get one each.
pub fn typing_avatar_visible(slot: usize, n: usize) -> (r: bool)
    ensures
        r == (slot < n && slot < MAX_TYPING_AVATARS),
{
    slot < n && slot < MAX_TYPING_AVATARS
}


/// The typing notice of a room: whether it is shown, its text, its avatar slots (each
/// showing the user named there, or hidden), and whether its dots bounce.
pub struct TypingNotice {
    pub visible: bool,
    pub text: String,
    /// The avatar slots, in order: the display name of the user a slot shows, or `None`
    /// for a hidden slot.
    pub avatar_slots: Vec<Option<String>>,
    pub dots_animating: bool,
}

/// What the avatar slot `slot` shows when the users named `names` are typing: the user
/// in the same position, for the first [`MAX_TYPING_AVATARS`] users; otherwise nothing.
pub open spec fn slot_user(names: Seq<String>, slot: int) -> Option<String> {
    if slot < names.len() && slot < MAX_TYPING_AVATARS {
        Some(names[slot])
    } else {
        None
    }
}

impl TypingNotice {
    /// A hidden notice, with its avatar slots hidden and its dots still.
    pub fn new() -> (r: Self)
        ensures
            !r.visible,
            r.text@.len() == 0,
            r.avatar_slots@ == seq![None::<String>, None::<String>, None::<String>],
            !r.dots_animating,
    {
        let mut slots: Vec<Option<String>> = Vec::new();
        slots.push(None);
        slots.push(None);
        slots.push(None);
        assert(slots@ =~= seq![None::<String>, None::<String>, None::<String>]);
        TypingNotice { visible: false, text: String::new(), avatar_slots: slots, dots_animating: false }
    }

    /// Shows the notice for the users typing, named by `names`, or hides it when nobody
    /// is typing.
    ///
    /// With someone typing, the notice shows its text, avatar slot `i` (of the
    /// [`MAX_TYPING_AVATARS`]) shows user `i` when there is one and is hidden otherwise,
    /// and the dots bounce. With nobody typing, the notice slides out with its text and
    /// avatars left as they were, and the dots stop.
    pub fn show_or_hide(&mut self, names: &[String])
        ensures
            match typing_text(names_of(names@)) {
                Some(t) => final(self).visible && final(self).text@ == t,
                None => !final(self).visible && final(self).text@ == old(self).text@,
            },
            names@.len() > 0 ==> final(self).avatar_slots@.len() == MAX_TYPING_AVATARS
                && forall|i: int|
                0 <= i < MAX_TYPING_AVATARS ==> #[trigger] final(self).avatar_slots@[i]
                    == slot_user(names@, i),
            names@.len() == 0 ==> final(self).avatar_slots == old(self).avatar_slots,
            final(self).dots_animating == (names@.len() > 0),
    {
        match typing_notice_text(names) {
            Some(t) => {
                let mut slots: Vec<Option<String>> = Vec::new();
                let mut i: usize = 0;
                while i < MAX_TYPING_AVATARS
                    invariant
                        i <= MAX_TYPING_AVATARS,
                        slots@.len() == i,
                        forall|j: int| 0 <= j < i ==> #[trigger] slots@[j] == slot_user(names@, j),
                    decreases MAX_TYPING_AVATARS - i,
                {
                    if typing_avatar_visible(i, names.len()) {
                        slots.push(Some(names[i].clone()));
                    } else {
                        slots.push(None);
                    }
                    i = i + 1;
                }
                self.avatar_slots = slots;
                self.text = t;
                self.visible = true;
                self.dots_animating = true;
            },
            None => {
                self.visible = false;
                self.dots_animating = false;
            },
        }
    }
}

} // verus!
