//! The room, thread, invite or space the user has selected, and how selections are
//! compared and named.
use vstd::prelude::*;

use crate::live_id::{live_id_from_str, live_id_hash};
use crate::text::{concat, contains_seq, str_eq};

verus! {

/// A room's ID together with the name it is shown under.
pub struct RoomNameId {
    pub room_id: String,
    /// The room's name as the user sees it.
    pub name: String,
}

impl RoomNameId {
    /// A copy of this value.
    pub fn duplicate(&self) -> (r: Self)
        ensures
            r == *self,
    {
        RoomNameId { room_id: self.room_id.clone(), name: self.name.clone() }
    }
}

/// A room or space currently or previously selected by the user.
pub enum SelectedRoom {
    JoinedRoom { room_name_id: RoomNameId },
    /// A thread of a room, told apart from the room's main timeline by its root event.
    Thread { room_name_id: RoomNameId, thread_root_event_id: String },
    InvitedRoom { room_name_id: RoomNameId },
    Space { space_name_id: RoomNameId },
}

/// The room (or space) a selection is in.
pub open spec fn sel_name(s: SelectedRoom) -> RoomNameId {
    match s {
        SelectedRoom::JoinedRoom { room_name_id } => room_name_id,
        SelectedRoom::Thread { room_name_id, .. } => room_name_id,
        SelectedRoom::InvitedRoom { room_name_id } => room_name_id,
        SelectedRoom::Space { space_name_id } => space_name_id,
    }
}

/// The ID of the room a selection is in.
pub open spec fn sel_room_id(s: SelectedRoom) -> Seq<char> {
    sel_name(s).room_id@
}

/// The text that identifies a selection's tab: the room ID, followed for a thread by
/// `##` and the thread's root event ID.
pub open spec fn tab_text(s: SelectedRoom) -> Seq<char> {
    match s {
        SelectedRoom::Thread { room_name_id, thread_root_event_id } => room_name_id.room_id@
            + "##"@ + thread_root_event_id@,
        _ => sel_room_id(s),
    }
}

/// The name shown for a selection: the room's name, marked for a space or a thread.
pub open spec fn display_text(s: SelectedRoom) -> Seq<char> {
    match s {
        SelectedRoom::Space { space_name_id } => "[Space] "@ + space_name_id.name@,
        SelectedRoom::Thread { room_name_id, .. } => "[Thread] "@ + room_name_id.name@,
        _ => sel_name(s).name@,
    }
}

/// When two selections are the same: names never matter; two threads are the same when
/// their rooms and root events are; a thread is never the same as anything else; any
/// two other selections are the same when their rooms are.
pub open spec fn same_selection(a: SelectedRoom, b: SelectedRoom) -> bool {
    match (a, b) {
        (
            SelectedRoom::Thread { room_name_id: ra, thread_root_event_id: ea },
            SelectedRoom::Thread { room_name_id: rb, thread_root_event_id: eb },
        ) => ra.room_id@ == rb.room_id@ && ea@ == eb@,
        (SelectedRoom::Thread { .. }, _) => false,
        (_, SelectedRoom::Thread { .. }) => false,
        _ => sel_room_id(a) == sel_room_id(b),
    }
}

/// Every selection is the same as itself.
pub proof fn law_same_selection_reflexive(a: SelectedRoom)
    ensures
        same_selection(a, a),
{
}

/// Sameness of selections does not depend on the order of the two.
pub proof fn law_same_selection_symmetric(a: SelectedRoom, b: SelectedRoom)
    ensures
        same_selection(a, b) == same_selection(b, a),
{
}

/// Two selections that are each the same as a third are the same as each other.
pub proof fn law_same_selection_transitive(a: SelectedRoom, b: SelectedRoom, c: SelectedRoom)
    requires
        same_selection(a, b),
        same_selection(b, c),
    ensures
        same_selection(a, c),
{
}

/// Two selections that are the same have the same tab.
pub proof fn law_same_selection_same_tab(a: SelectedRoom, b: SelectedRoom)
    requires
        same_selection(a, b),
    ensures
        tab_text(a) == tab_text(b),
{
}

/// Whether a selection's IDs keep its tab text unambiguous: its room ID holds no `##`,
/// and a thread's root event ID starts with the event sigil `$`, as every valid event ID
/// does.
pub open spec fn tab_text_unambiguous(s: SelectedRoom) -> bool {
    &&& !contains_seq(sel_room_id(s), "##"@)
    &&& s matches SelectedRoom::Thread { thread_root_event_id, .. } ==> thread_root_event_id@.len() > 0
        && thread_root_event_id@[0] == '$'
}

proof fn lemma_no_hash_pair_at(r: Seq<char>, k: int)
    requires
        !contains_seq(r, "##"@),
        0 <= k,
        k + 2 <= r.len(),
    ensures
        !(r[k] == '#' && r[k + 1] == '#'),
{
    reveal_strlit("##");
    if r[k] == '#' && r[k + 1] == '#' {
        assert(r.subrange(k, k + 2) =~= "##"@);
    }
}

/// Two threads whose tab texts are equal are the same thread, when their room IDs hold
/// no `##` and their root event IDs start with `$`.
proof fn lemma_thread_tabs_equal(ra: Seq<char>, ea: Seq<char>, rb: Seq<char>, eb: Seq<char>)
    requires
        !contains_seq(ra, "##"@),
        !contains_seq(rb, "##"@),
        ea.len() > 0 && ea[0] == '$',
        eb.len() > 0 && eb[0] == '$',
        ra + "##"@ + ea == rb + "##"@ + eb,
    ensures
        ra == rb,
        ea == eb,
{
    reveal_strlit("##");
    let l = ra + "##"@ + ea;
    let r = rb + "##"@ + eb;
    if ra.len() < rb.len() {
        let k = ra.len() as int;
        assert(l[k] == '#' && l[k + 1] == '#' && l[k + 2] == '$');
        if rb.len() >= k + 2 {
            assert(rb[k] == r[k] && rb[k + 1] == r[k + 1]);
            lemma_no_hash_pair_at(rb, k);
        } else {
            assert(r[k + 2] == '#');
        }
    } else if rb.len() < ra.len() {
        let k = rb.len() as int;
        assert(r[k] == '#' && r[k + 1] == '#' && r[k + 2] == '$');
        if ra.len() >= k + 2 {
            assert(ra[k] == l[k] && ra[k + 1] == l[k + 1]);
            lemma_no_hash_pair_at(ra, k);
        } else {
            assert(l[k + 2] == '#');
        }
    } else {
        assert(ra =~= l.subrange(0, ra.len() as int));
        assert(rb =~= r.subrange(0, rb.len() as int));
        assert(ea =~= l.subrange(ra.len() as int + 2, l.len() as int));
        assert(eb =~= r.subrange(rb.len() as int + 2, r.len() as int));
    }
}

/// Two selections with the same tab are the same, when their IDs keep the tab text
/// unambiguous (see [`tab_text_unambiguous`]): together with
/// [`law_same_selection_same_tab`], sameness is exactly equality of tab text.
pub proof fn law_same_tab_same_selection(a: SelectedRoom, b: SelectedRoom)
    requires
        tab_text_unambiguous(a),
        tab_text_unambiguous(b),
        tab_text(a) == tab_text(b),
    ensures
        same_selection(a, b),
{
    reveal_strlit("##");
    match (a, b) {
        (
            SelectedRoom::Thread { room_name_id: ra, thread_root_event_id: ea },
            SelectedRoom::Thread { room_name_id: rb, thread_root_event_id: eb },
        ) => {
            lemma_thread_tabs_equal(ra.room_id@, ea@, rb.room_id@, eb@);
        },
        (SelectedRoom::Thread { room_name_id: ra, thread_root_event_id: ea }, _) => {
            let t = ra.room_id@ + "##"@ + ea@;
            let k = ra.room_id@.len() as int;
            assert(t[k] == '#' && t[k + 1] == '#');
            lemma_no_hash_pair_at(sel_room_id(b), k);
        },
        (_, SelectedRoom::Thread { room_name_id: rb, thread_root_event_id: eb }) => {
            let t = rb.room_id@ + "##"@ + eb@;
            let k = rb.room_id@.len() as int;
            assert(t[k] == '#' && t[k + 1] == '#');
            lemma_no_hash_pair_at(sel_room_id(a), k);
        },
        _ => {},
    }
}

impl SelectedRoom {
    /// A copy of this selection.
    pub fn duplicate(&self) -> (r: Self)
        ensures
            r == *self,
    {
        match self {
            SelectedRoom::JoinedRoom { room_name_id } => SelectedRoom::JoinedRoom {
                room_name_id: room_name_id.duplicate(),
            },
            SelectedRoom::Thread { room_name_id, thread_root_event_id } => SelectedRoom::Thread {
                room_name_id: room_name_id.duplicate(),
                thread_root_event_id: thread_root_event_id.clone(),
            },
            SelectedRoom::InvitedRoom { room_name_id } => SelectedRoom::InvitedRoom {
                room_name_id: room_name_id.duplicate(),
            },
            SelectedRoom::Space { space_name_id } => SelectedRoom::Space {
                space_name_id: space_name_id.duplicate(),
            },
        }
    }

    /// The ID of the room (or space) this selection is in.
    pub fn room_id(&self) -> (r: &String)
        ensures
            r@ == sel_room_id(*self),
    {
        match self {
            SelectedRoom::JoinedRoom { room_name_id } => &room_name_id.room_id,
            SelectedRoom::InvitedRoom { room_name_id } => &room_name_id.room_id,
            SelectedRoom::Space { space_name_id } => &space_name_id.room_id,
            SelectedRoom::Thread { room_name_id, .. } => &room_name_id.room_id,
        }
    }

    /// The room (or space) this selection is in, with its name.
    pub fn room_name(&self) -> (r: &RoomNameId)
        ensures
            *r == sel_name(*self),
    {
        match self {
            SelectedRoom::JoinedRoom { room_name_id } => room_name_id,
            SelectedRoom::InvitedRoom { room_name_id } => room_name_id,
            SelectedRoom::Space { space_name_id } => space_name_id,
            SelectedRoom::Thread { room_name_id, .. } => room_name_id,
        }
    }

    /// Turns an invite to the room `room_id` into the joined room; returns whether it
    /// did. Any other selection is left as it is.
    pub fn upgrade_invite_to_joined(&mut self, room_id: &str) -> (r: bool)
        ensures
            r == (*old(self) is InvitedRoom && sel_room_id(*old(self)) == room_id@),
            r ==> *final(self) == (SelectedRoom::JoinedRoom { room_name_id: sel_name(*old(self)) }),
            !r ==> *final(self) == *old(self),
    {
        let name = match self {
            SelectedRoom::InvitedRoom { room_name_id } => {
                if str_eq(room_name_id.room_id.as_str(), room_id) {
                    room_name_id.duplicate()
                } else {
                    return false;
                }
            },
            _ => return false,
        };
        *self = SelectedRoom::JoinedRoom { room_name_id: name };
        true
    }

    /// The text that identifies this selection's tab.
    pub fn tab_id_string(&self) -> (r: String)
        ensures
            r@ == tab_text(*self),
    {
        match self {
            SelectedRoom::Thread { room_name_id, thread_root_event_id } => {
                let mut t = concat(room_name_id.room_id.as_str(), "##");
                t.append(thread_root_event_id.as_str());
                t
            },
            _ => self.room_id().clone(),
        }
    }

    /// The widget id of this selection's tab: the hash of its tab text.
    pub fn tab_id(&self) -> (r: u64)
        ensures
            r == live_id_hash(tab_text(*self)),
    {
        let t = self.tab_id_string();
        live_id_from_str(t.as_str())
    }

    /// The name shown for this selection: the room's name, marked for a space or a
    /// thread.
    pub fn display_name(&self) -> (r: String)
        ensures
            r@ == display_text(*self),
    {
        match self {
            SelectedRoom::JoinedRoom { room_name_id } => room_name_id.name.clone(),
            SelectedRoom::InvitedRoom { room_name_id } => room_name_id.name.clone(),
            SelectedRoom::Space { space_name_id } => concat("[Space] ", space_name_id.name.as_str()),
            SelectedRoom::Thread { room_name_id, .. } => concat(
                "[Thread] ",
                room_name_id.name.as_str(),
            ),
        }
    }

    /// Whether this selection and `other` are the same (see [`same_selection`]).
    pub fn same_as(&self, other: &SelectedRoom) -> (r: bool)
        ensures
            r == same_selection(*self, *other),
    {
        match (self, other) {
            (
                SelectedRoom::Thread { room_name_id: ra, thread_root_event_id: ea },
                SelectedRoom::Thread { room_name_id: rb, thread_root_event_id: eb },
            ) => str_eq(ra.room_id.as_str(), rb.room_id.as_str()) && str_eq(
                ea.as_str(),
                eb.as_str(),
            ),
            (SelectedRoom::Thread { .. }, _) => false,
            (_, SelectedRoom::Thread { .. }) => false,
            _ => str_eq(self.room_id().as_str(), other.room_id().as_str()),
        }
    }
}

/// A copy of an optional selection.
pub fn duplicate_selection(o: &Option<SelectedRoom>) -> (r: Option<SelectedRoom>)
    ensures
        r == *o,
{
    match o {
        Some(s) => Some(s.duplicate()),
        None => None,
    }
}

} // verus!
