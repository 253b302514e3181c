//! The panel listing the members of a room: how each member is shown, how the list is
//! searched, and when the panel is open.
use vstd::prelude::*;

use crate::text::{contains_seq, lowercase, owned, str_contains, to_lowercase, decimal, u64_to_decimal};

verus! {

/// The role a member's power level suggests.
#[derive(Clone, Copy, PartialEq, Eq, Structural, Debug)]
pub enum RoomMemberRole {
    Creator,
    Administrator,
    Moderator,
    User,
}

/// A member as the panel shows it.
pub struct DisplayedMember {
    pub user_id: String,
    pub display_name: Option<String>,
    pub avatar_url: Option<String>,
    /// The badge shown beside the member, if any.
    pub role: Option<String>,
}

/// The badge for a role: administrators and moderators get one.
pub open spec fn role_badge(role: RoomMemberRole) -> Option<Seq<char>> {
    match role {
        RoomMemberRole::Administrator => Some("Admin"@),
        RoomMemberRole::Moderator => Some("Mod"@),
        _ => None,
    }
}

/// The name a member is shown under: the display name when it is set and not empty,
/// else the user ID.
pub open spec fn displayable(m: DisplayedMember) -> Seq<char> {
    match m.display_name {
        Some(n) => if n@.len() > 0 {
            n@
        } else {
            m.user_id@
        },
        None => m.user_id@,
    }
}

/// Whether member `m` matches the search `query`: the lowercased query occurs in the
/// lowercased shown name or in the lowercased user ID.
pub open spec fn member_matches(m: DisplayedMember, query: Seq<char>) -> bool {
    contains_seq(lowercase(displayable(m)), lowercase(query)) || contains_seq(
        lowercase(m.user_id@),
        lowercase(query),
    )
}

/// The indices, in increasing order, of the first `n` members that match `query`.
pub open spec fn matching_indices(members: Seq<DisplayedMember>, query: Seq<char>, n: nat) -> Seq<
    usize,
>
    decreases n,
{
    if n == 0 {
        Seq::empty()
    } else {
        let prev = matching_indices(members, query, (n - 1) as nat);
        if member_matches(members[n - 1], query) {
            prev.push((n - 1) as usize)
        } else {
            prev
        }
    }
}

/// The indices `0, 1, .., n - 1`.
pub open spec fn all_indices(n: nat) -> Seq<usize> {
    Seq::new(n, |i: int| i as usize)
}

/// The members the panel lists for `query`: all of them when the query is empty, else
/// those that match it, in their order.
pub open spec fn filtered_for(members: Seq<DisplayedMember>, query: Seq<char>) -> Seq<usize> {
    if query.len() == 0 {
        all_indices(members.len())
    } else {
        matching_indices(members, query, members.len())
    }
}

fn copy_opt(o: Option<&str>) -> (r: Option<String>)
    ensures
        match o {
            Some(s) => r matches Some(t) && t@ == s@,
            None => r is None,
        },
{
    match o {
        Some(s) => Some(owned(s)),
        None => None,
    }
}

fn clone_opt(o: &Option<String>) -> (r: Option<String>)
    ensures
        r == *o,
{
    match o {
        Some(s) => Some(s.clone()),
        None => None,
    }
}

impl DisplayedMember {
    /// The member as the panel shows it, from what the room reports of it.
    pub fn from_room_member(
        user_id: &str,
        display_name: Option<&str>,
        avatar_url: Option<&str>,
        role: RoomMemberRole,
    ) -> (r: Self)
        ensures
            r.user_id@ == user_id@,
            match display_name {
                Some(s) => r.display_name matches Some(t) && t@ == s@,
                None => r.display_name is None,
            },
            match avatar_url {
                Some(s) => r.avatar_url matches Some(t) && t@ == s@,
                None => r.avatar_url is None,
            },
            match role_badge(role) {
                Some(b) => r.role matches Some(t) && t@ == b,
                None => r.role is None,
            },
    {
        let badge = match role {
            RoomMemberRole::Administrator => Some(owned("Admin")),
            RoomMemberRole::Moderator => Some(owned("Mod")),
            _ => None,
        };
        DisplayedMember {
            user_id: owned(user_id),
            display_name: copy_opt(display_name),
            avatar_url: copy_opt(avatar_url),
            role: badge,
        }
    }

    /// The name the member is shown under.
    pub fn displayable_name(&self) -> (r: &str)
        ensures
            r@ == displayable(*self),
    {
        match &self.display_name {
            Some(n) => if n.as_str().unicode_len() > 0 {
                n.as_str()
            } else {
                self.user_id.as_str()
            },
            None => self.user_id.as_str(),
        }
    }

    /// Whether this member matches a search whose lowercased query is `lowered_query`.
    fn matches_lowered(&self, lowered_query: &str, Ghost(query): Ghost<Seq<char>>) -> (r: bool)
        requires
            lowered_query@ == lowercase(query),
        ensures
            r == member_matches(*self, query),
    {
        let name = to_lowercase(self.displayable_name());
        if str_contains(name.as_str(), lowered_query) {
            return true;
        }
        let id = to_lowercase(self.user_id.as_str());
        str_contains(id.as_str(), lowered_query)
    }
}

/// What a click on a member asks for: that member's profile, in the panel's room.
pub struct ShowUserProfile {
    pub user_id: String,
    pub username: Option<String>,
    pub avatar_url: Option<String>,
    pub room_id: String,
}

/// The state of the members panel.
pub struct MembersPanel {
    /// The members of the room, in the order the room reported them.
    pub members: Vec<DisplayedMember>,
    /// The indices into `members` of the members listed for the current search.
    pub filtered_members: Vec<usize>,
    pub search_query: String,
    pub room_id: Option<String>,
    pub room_name: String,
    pub visible: bool,
    pub is_animating_out: bool,
}

impl MembersPanel {
    /// A hidden panel with no members.
    pub fn new() -> (r: Self)
        ensures
            r.members@.len() == 0,
            r.filtered_members@.len() == 0,
            r.search_query@.len() == 0,
            r.room_id is None,
            r.room_name@.len() == 0,
            !r.visible,
            !r.is_animating_out,
    {
        MembersPanel {
            members: Vec::new(),
            filtered_members: Vec::new(),
            search_query: String::new(),
            room_id: None,
            room_name: String::new(),
            visible: false,
            is_animating_out: false,
        }
    }

    /// Lists the members that match the current search.
    pub fn filter_members(&mut self)
        ensures
            final(self).filtered_members@ == filtered_for(old(self).members@, old(self).search_query@),
            final(self).members@ == old(self).members@,
            final(self).search_query@ == old(self).search_query@,
            final(self).room_id == old(self).room_id,
            final(self).room_name@ == old(self).room_name@,
            final(self).visible == old(self).visible,
            final(self).is_animating_out == old(self).is_animating_out,
    {
        let n = self.members.len();
        let mut out: Vec<usize> = Vec::new();
        if self.search_query.as_str().unicode_len() == 0 {
            let mut i: usize = 0;
            while i < n
                invariant
                    n == self.members@.len(),
                    i <= n,
                    out@ == all_indices(i as nat),
                decreases n - i,
            {
                out.push(i);
                i = i + 1;
                assert(out@ =~= all_indices(i as nat));
            }
        } else {
            let q = to_lowercase(self.search_query.as_str());
            let mut i: usize = 0;
            while i < n
                invariant
                    n == self.members@.len(),
                    i <= n,
                    q@ == lowercase(self.search_query@),
                    out@ == matching_indices(self.members@, self.search_query@, i as nat),
                decreases n - i,
            {
                if self.members[i].matches_lowered(q.as_str(), Ghost(self.search_query@)) {
                    out.push(i);
                }
                i = i + 1;
            }
        }
        self.filtered_members = out;
    }

    /// Shows the members of a room, with the search cleared.
    pub fn set_members(&mut self, members: Vec<DisplayedMember>, room_id: String, room_name: String)
        ensures
            final(self).members@ == members@,
            final(self).room_id == Some(room_id),
            final(self).room_name@ == room_name@,
            final(self).search_query@.len() == 0,
            final(self).filtered_members@ == all_indices(members@.len()),
            final(self).visible == old(self).visible,
            final(self).is_animating_out == old(self).is_animating_out,
    {
        self.members = members;
        self.room_id = Some(room_id);
        self.room_name = room_name;
        self.search_query = String::new();
        self.filter_members();
    }

    /// Takes a new search text and lists the members that match it.
    pub fn set_search_query(&mut self, text: String)
        ensures
            final(self).search_query@ == text@,
            final(self).filtered_members@ == filtered_for(old(self).members@, text@),
            final(self).members@ == old(self).members@,
            final(self).room_id == old(self).room_id,
            final(self).visible == old(self).visible,
            final(self).is_animating_out == old(self).is_animating_out,
    {
        self.search_query = text;
        self.filter_members();
    }

    /// The text of the member count: `(total)` without a search, `(listed/total)` with
    /// one.
    pub fn member_count_text(&self) -> (r: String)
        ensures
            self.search_query@.len() == 0 ==> r@ == "("@ + decimal(self.members@.len()) + ")"@,
            self.search_query@.len() > 0 ==> r@ == "("@ + decimal(self.filtered_members@.len())
                + "/"@ + decimal(self.members@.len()) + ")"@,
    {
        let total = u64_to_decimal(self.members.len() as u64);
        let mut t = owned("(");
        if self.search_query.as_str().unicode_len() > 0 {
            let count = u64_to_decimal(self.filtered_members.len() as u64);
            t.append(count.as_str());
            t.append("/");
        }
        t.append(total.as_str());
        t.append(")");
        t
    }

    /// What a click on the listed entry `index` asks for: the profile of the member
    /// listed there, when there is one and the panel knows its room.
    pub fn member_clicked(&self, index: usize) -> (r: Option<ShowUserProfile>)
        ensures
            ({
                let listed = 0 <= index < self.filtered_members@.len()
                    && self.filtered_members@[index as int] < self.members@.len();
                &&& !(listed && self.room_id is Some) ==> r is None
                &&& listed && self.room_id is Some ==> (r matches Some(p) && {
                    let m = self.members@[self.filtered_members@[index as int] as int];
                    &&& p.user_id@ == m.user_id@
                    &&& p.username == m.display_name
                    &&& p.avatar_url == m.avatar_url
                    &&& p.room_id == self.room_id->0
                })
            }),
    {
        if index >= self.filtered_members.len() {
            return None;
        }
        let member_idx = self.filtered_members[index];
        if member_idx >= self.members.len() {
            return None;
        }
        let member = &self.members[member_idx];
        match &self.room_id {
            Some(room_id) => Some(
                ShowUserProfile {
                    user_id: member.user_id.clone(),
                    username: clone_opt(&member.display_name),
                    avatar_url: clone_opt(&member.avatar_url),
                    room_id: room_id.clone(),
                },
            ),
            None => None,
        }
    }

    /// Opens the panel.
    pub fn show(&mut self)
        ensures
            *final(self) == (MembersPanel { visible: true, ..*old(self) }),
            final(self).visible,
            final(self).is_animating_out == old(self).is_animating_out,
            final(self).members@ == old(self).members@,
            final(self).filtered_members@ == old(self).filtered_members@,
    {
        self.visible = true;
    }

    /// Shows the members of a room, with the search cleared, and opens the panel.
    pub fn show_with_members(
        &mut self,
        members: Vec<DisplayedMember>,
        room_id: String,
        room_name: String,
    )
        ensures
            final(self).members@ == members@,
            final(self).room_id == Some(room_id),
            final(self).room_name@ == room_name@,
            final(self).search_query@.len() == 0,
            final(self).filtered_members@ == all_indices(members@.len()),
            final(self).visible,
            final(self).is_animating_out == old(self).is_animating_out,
    {
        self.set_members(members, room_id, room_name);
        self.show();
    }

    /// Starts closing the panel; it stays visible until the animation ends.
    pub fn begin_hide(&mut self)
        ensures
            final(self).is_animating_out,
            final(self).visible == old(self).visible,
            final(self).members@ == old(self).members@,
            final(self).filtered_members@ == old(self).filtered_members@,
    {
        self.is_animating_out = true;
    }

    /// Ends a closing animation that has finished: the panel is then hidden. Returns
    /// whether the panel was closing.
    pub fn finish_hiding(&mut self) -> (r: bool)
        ensures
            r == old(self).is_animating_out,
            r ==> !final(self).visible && !final(self).is_animating_out,
            !r ==> final(self).visible == old(self).visible && !final(self).is_animating_out,
            final(self).members@ == old(self).members@,
            final(self).filtered_members@ == old(self).filtered_members@,
    {
        if self.is_animating_out {
            self.visible = false;
            self.is_animating_out = false;
            true
        } else {
            false
        }
    }

    /// Whether the panel is open and not closing.
    pub fn is_currently_shown(&self) -> (r: bool)
        ensures
            r == (self.visible && !self.is_animating_out),
    {
        self.visible && !self.is_animating_out
    }
}


/// Whether the index list `f` lists `i`.
pub open spec fn lists(f: Seq<usize>, i: int) -> bool {
    exists|k: int| 0 <= k < f.len() && f[k] == i
}

/// The search lists exactly the members that match it, each once, in their order; an
/// empty search lists every member.
pub proof fn law_search_lists_matching_members(members: Seq<DisplayedMember>, query: Seq<char>)
    requires
        members.len() <= usize::MAX,
    ensures
        forall|a: int, b: int|
            0 <= a < b < filtered_for(members, query).len() ==> #[trigger] filtered_for(
                members,
                query,
            )[a] < #[trigger] filtered_for(members, query)[b],
        forall|k: int|
            0 <= k < filtered_for(members, query).len() ==> #[trigger] filtered_for(members, query)[k]
                < members.len(),
        forall|i: int|
            0 <= i < members.len() ==> (lists(filtered_for(members, query), i) <==> (query.len()
                == 0 || member_matches(#[trigger] members[i], query))),
{
    if query.len() == 0 {
        assert forall|i: int| 0 <= i < members.len() implies #[trigger] lists(
            filtered_for(members, query),
            i,
        ) by {
            assert(filtered_for(members, query) == all_indices(members.len()));
            assert(0 <= i < filtered_for(members, query).len() && filtered_for(members, query)[i]
                == i);
        }
    } else {
        lemma_matching_indices(members, query, members.len());
        assert(filtered_for(members, query) == matching_indices(members, query, members.len()));
    }
}

proof fn lemma_matching_indices(members: Seq<DisplayedMember>, query: Seq<char>, n: nat)
    requires
        n <= members.len(),
        members.len() <= usize::MAX,
    ensures
        forall|a: int, b: int|
            0 <= a < b < matching_indices(members, query, n).len() ==> #[trigger] matching_indices(
                members,
                query,
                n,
            )[a] < #[trigger] matching_indices(members, query, n)[b],
        forall|k: int|
            0 <= k < matching_indices(members, query, n).len() ==> #[trigger] matching_indices(
                members,
                query,
                n,
            )[k] < n,
        forall|i: int|
            0 <= i < n ==> (lists(matching_indices(members, query, n), i) <==> member_matches(
                #[trigger] members[i],
                query,
            )),
    decreases n,
{
    if n > 0 {
        lemma_matching_indices(members, query, (n - 1) as nat);
        let p = matching_indices(members, query, (n - 1) as nat);
        let m = matching_indices(members, query, n);
        assert((n - 1) as usize as int == n - 1);
        assert forall|i: int| 0 <= i < n implies (lists(m, i) <==> member_matches(
            #[trigger] members[i],
            query,
        )) by {
            if i < n - 1 {
                if lists(m, i) {
                    let k = choose|k: int| 0 <= k < m.len() && m[k] == i;
                    if k < p.len() {
                        assert(p[k] == i);
                    }
                }
                if member_matches(members[i], query) {
                    let k = choose|k: int| 0 <= k < p.len() && p[k] == i;
                    assert(m[k] == i);
                }
            } else {
                if member_matches(members[i], query) {
                    assert(m[p.len() as int] == i);
                } else {
                    if lists(m, i) {
                        let k = choose|k: int| 0 <= k < m.len() && m[k] == i;
                        assert(p[k] < n - 1);
                    }
                }
            }
        }
    }
}

} // verus!
