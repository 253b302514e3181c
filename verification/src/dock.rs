//! Saved dock layouts: the tabs and splitters of the main view, and the form they are
//! stored in, where widget ids are written as readable strings (room IDs and hex) so that
//! a saved layout does not depend on how ids are hashed.
use vstd::prelude::*;

use crate::assoc::{AssocMap, fold_entries, keys_distinct_under, lemma_fold_injective};
use crate::live_id::{hex16, law_hex16_parses_back, live_id_from_str, live_id_hash, parse_hex, parse_hex_u64, push_hex16};
use crate::rooms::{duplicate_selection, sel_room_id, tab_text, SelectedRoom};
use crate::text::{owned, starts_with, str_eq, strip_prefix};

verus! {

/// An item of the dock, whose children and tabs are named by widget id. `P` is the
/// splitter's axis and position, which the layout only carries.
pub enum DockItem<P> {
    Splitter { layout: P, a: u64, b: u64 },
    Tabs { tabs: Vec<u64>, selected: usize, closable: bool, hide_tab_bar: bool },
    Tab { name: String, template: u64, kind: u64 },
}

/// A dock item as a mathematical value.
pub enum DockItemView<P> {
    Splitter { layout: P, a: u64, b: u64 },
    Tabs { tabs: Seq<u64>, selected: usize, closable: bool, hide_tab_bar: bool },
    Tab { name: Seq<char>, template: u64, kind: u64 },
}

impl<P> View for DockItem<P> {
    type V = DockItemView<P>;

    open spec fn view(&self) -> DockItemView<P> {
        match self {
            DockItem::Splitter { layout, a, b } => DockItemView::Splitter {
                layout: *layout,
                a: *a,
                b: *b,
            },
            DockItem::Tabs { tabs, selected, closable, hide_tab_bar } => DockItemView::Tabs {
                tabs: tabs@,
                selected: *selected,
                closable: *closable,
                hide_tab_bar: *hide_tab_bar,
            },
            DockItem::Tab { name, template, kind } => DockItemView::Tab {
                name: name@,
                template: *template,
                kind: *kind,
            },
        }
    }
}

/// A dock item in stored form: the same item with each widget id written as a string.
pub enum SerializableDockItem<P> {
    Splitter { layout: P, a: String, b: String },
    Tabs { tabs: Vec<String>, selected: usize, closable: bool, hide_tab_bar: bool },
    Tab { name: String, template: String, kind: String },
}

/// A stored dock item as a mathematical value.
pub enum SerialItemView<P> {
    Splitter { layout: P, a: Seq<char>, b: Seq<char> },
    Tabs { tabs: Seq<Seq<char>>, selected: usize, closable: bool, hide_tab_bar: bool },
    Tab { name: Seq<char>, template: Seq<char>, kind: Seq<char> },
}

impl<P> View for SerializableDockItem<P> {
    type V = SerialItemView<P>;

    open spec fn view(&self) -> SerialItemView<P> {
        match self {
            SerializableDockItem::Splitter { layout, a, b } => SerialItemView::Splitter {
                layout: *layout,
                a: a@,
                b: b@,
            },
            SerializableDockItem::Tabs { tabs, selected, closable, hide_tab_bar } =>
                SerialItemView::Tabs {
                tabs: tabs@.map_values(|t: String| t@),
                selected: *selected,
                closable: *closable,
                hide_tab_bar: *hide_tab_bar,
            },
            SerializableDockItem::Tab { name, template, kind } => SerialItemView::Tab {
                name: name@,
                template: template@,
                kind: kind@,
            },
        }
    }
}

/// A snapshot of the dock: everything needed to restore its tabs and layout.
pub struct SavedDockState<P> {
    /// The items of the dock, by widget id.
    pub dock_items: AssocMap<u64, DockItem<P>>,
    /// The open rooms, by the widget id of their tab.
    pub open_rooms: AssocMap<u64, SelectedRoom>,
    /// The open rooms in the order they were opened.
    pub room_order: Vec<SelectedRoom>,
    /// The room whose tab was selected.
    pub selected_room: Option<SelectedRoom>,
}

/// A snapshot of the dock in stored form, keyed by strings.
pub struct SerializableSavedDockState<P> {
    pub dock_items: AssocMap<String, SerializableDockItem<P>>,
    pub open_rooms: AssocMap<String, SelectedRoom>,
    pub room_order: Vec<SelectedRoom>,
    pub selected_room: Option<SelectedRoom>,
}

impl<P> SavedDockState<P> {
    /// Both maps are well formed.
    pub open spec fn wf(&self) -> bool {
        self.dock_items.wf() && self.open_rooms.wf()
    }

    /// An empty dock.
    pub fn new() -> (r: Self)
        ensures
            r.wf(),
            r.dock_items@.len() == 0,
            r.open_rooms@.len() == 0,
            r.room_order@.len() == 0,
            r.selected_room is None,
    {
        SavedDockState {
            dock_items: AssocMap::new(),
            open_rooms: AssocMap::new(),
            room_order: Vec::new(),
            selected_room: None,
        }
    }
}

impl<P> SerializableSavedDockState<P> {
    /// Both maps are well formed.
    pub open spec fn wf(&self) -> bool {
        self.dock_items.wf() && self.open_rooms.wf()
    }
}

/// The prefix that marks a stored dock id written in hex.
pub open spec fn dock_prefix() -> Seq<char> {
    "__dock_"@
}

/// The prefix that marks a stored widget id written in hex.
pub open spec fn id_prefix() -> Seq<char> {
    "__id_"@
}

/// The string a dock id is stored as: the tab text of the room it is the tab of, else
/// `__dock_` and its sixteen hex digits.
pub open spec fn dock_key(rooms: Map<u64, SelectedRoom>, id: u64) -> Seq<char> {
    if rooms.contains_key(id) {
        tab_text(rooms[id])
    } else {
        dock_prefix() + hex16(id)
    }
}

/// The dock id a stored string stands for: the hex after `__dock_` (zero when it does
/// not parse), else the hash of the string.
pub open spec fn key_id(s: Seq<char>) -> u64 {
    if starts_with(s, dock_prefix()) {
        match parse_hex(s.subrange(dock_prefix().len() as int, s.len() as int)) {
            Some(v) => v,
            None => 0,
        }
    } else {
        live_id_hash(s)
    }
}

/// The names of the widget kinds and templates a stored layout writes by name.
pub open spec fn known_names() -> Seq<Seq<char>> {
    seq![
        "room_screen"@,
        "invite_screen"@,
        "space_lobby_screen"@,
        "welcome_screen"@,
        "settings_screen"@,
        "CloseableTab"@,
        "PermanentTab"@,
    ]
}

/// The string a widget id is stored as, looking at the known names from position `i`:
/// the first known name whose hash is `id`, else `__id_` and its sixteen hex digits.
pub open spec fn known_key_from(id: u64, i: nat) -> Seq<char>
    decreases 7 - i,
{
    if i >= 7 {
        id_prefix() + hex16(id)
    } else if live_id_hash(known_names()[i as int]) == id {
        known_names()[i as int]
    } else {
        known_key_from(id, i + 1)
    }
}

/// The string a widget kind or template id is stored as.
pub open spec fn known_key(id: u64) -> Seq<char> {
    known_key_from(id, 0)
}

/// The widget id a stored kind or template string stands for: a known name's id (its
/// hash), the hex after `__id_` (zero when it does not parse), else the hash.
pub open spec fn known_id(s: Seq<char>) -> u64 {
    if known_names().contains(s) {
        live_id_hash(s)
    } else if starts_with(s, id_prefix()) {
        match parse_hex(s.subrange(id_prefix().len() as int, s.len() as int)) {
            Some(v) => v,
            None => 0,
        }
    } else {
        live_id_hash(s)
    }
}

/// A dock item in stored form.
pub open spec fn ser_item<P>(rooms: Map<u64, SelectedRoom>, v: DockItemView<P>) -> SerialItemView<P> {
    match v {
        DockItemView::Splitter { layout, a, b } => SerialItemView::Splitter {
            layout,
            a: dock_key(rooms, a),
            b: dock_key(rooms, b),
        },
        DockItemView::Tabs { tabs, selected, closable, hide_tab_bar } => SerialItemView::Tabs {
            tabs: tabs.map_values(|t: u64| dock_key(rooms, t)),
            selected,
            closable,
            hide_tab_bar,
        },
        DockItemView::Tab { name, template, kind } => SerialItemView::Tab {
            name,
            template: known_key(template),
            kind: known_key(kind),
        },
    }
}

/// A stored dock item read back.
pub open spec fn de_item<P>(v: SerialItemView<P>) -> DockItemView<P> {
    match v {
        SerialItemView::Splitter { layout, a, b } => DockItemView::Splitter {
            layout,
            a: key_id(a),
            b: key_id(b),
        },
        SerialItemView::Tabs { tabs, selected, closable, hide_tab_bar } => DockItemView::Tabs {
            tabs: tabs.map_values(|t: Seq<char>| key_id(t)),
            selected,
            closable,
            hide_tab_bar,
        },
        SerialItemView::Tab { name, template, kind } => DockItemView::Tab {
            name,
            template: known_id(template),
            kind: known_id(kind),
        },
    }
}

/// The key each dock entry is stored under.
pub open spec fn ser_key_fn<P>(rooms: Map<u64, SelectedRoom>) -> spec_fn((u64, DockItem<P>)) -> Seq<char> {
    |e: (u64, DockItem<P>)| dock_key(rooms, e.0)
}

/// The stored form of each dock entry's item.
pub open spec fn ser_val_fn<P>(rooms: Map<u64, SelectedRoom>) -> spec_fn((u64, DockItem<P>)) -> SerialItemView<P> {
    |e: (u64, DockItem<P>)| ser_item(rooms, e.1@)
}

/// The id each stored entry is read back under.
pub open spec fn de_key_fn<P>() -> spec_fn((String, SerializableDockItem<P>)) -> u64 {
    |e: (String, SerializableDockItem<P>)| key_id(e.0@)
}

/// Each stored entry's item read back.
pub open spec fn de_val_fn<P>() -> spec_fn((String, SerializableDockItem<P>)) -> DockItemView<P> {
    |e: (String, SerializableDockItem<P>)| de_item(e.1@)
}

/// Each open room is stored under its tab text.
pub open spec fn room_ser_key_fn() -> spec_fn((u64, SelectedRoom)) -> Seq<char> {
    |e: (u64, SelectedRoom)| tab_text(e.1)
}

/// Each stored open room is read back under its tab id.
pub open spec fn room_de_key_fn() -> spec_fn((String, SelectedRoom)) -> u64 {
    |e: (String, SelectedRoom)| live_id_hash(tab_text(e.1))
}

/// The room of each entry.
pub open spec fn room_val_fn<K>() -> spec_fn((K, SelectedRoom)) -> SelectedRoom {
    |e: (K, SelectedRoom)| e.1
}

/// Whether the values of `m` have the views given by `w`, key for key.
pub open spec fn views_match<K, V: View>(m: Map<K, V>, w: Map<K, V::V>) -> bool {
    &&& m.dom() == w.dom()
    &&& forall|k: K| #[trigger] m.contains_key(k) ==> m[k]@ == w[k]
}

/// Whether `t` is what storing the dock `s` gives.
pub open spec fn stored_as<P>(s: SavedDockState<P>, t: SerializableSavedDockState<P>) -> bool {
    &&& t.wf()
    &&& views_match(
        t.dock_items@,
        fold_entries(s.dock_items.entries(), ser_key_fn(s.open_rooms@), ser_val_fn(s.open_rooms@)),
    )
    &&& t.open_rooms@ == fold_entries(s.open_rooms.entries(), room_ser_key_fn(), room_val_fn())
    &&& t.room_order@ == s.room_order@
    &&& t.selected_room == s.selected_room
}

/// Whether `r` is what reading back the stored dock `t` gives.
pub open spec fn restored_as<P>(t: SerializableSavedDockState<P>, r: SavedDockState<P>) -> bool {
    &&& r.wf()
    &&& views_match(r.dock_items@, fold_entries(t.dock_items.entries(), de_key_fn(), de_val_fn()))
    &&& r.open_rooms@ == fold_entries(t.open_rooms.entries(), room_de_key_fn(), room_val_fn())
    &&& r.room_order@ == t.room_order@
    &&& r.selected_room == t.selected_room
}

fn duplicate_rooms(v: &Vec<SelectedRoom>) -> (r: Vec<SelectedRoom>)
    ensures
        r@ == v@,
{
    let mut r: Vec<SelectedRoom> = Vec::new();
    let mut i: usize = 0;
    while i < v.len()
        invariant
            i <= v@.len(),
            r@ == v@.subrange(0, i as int),
        decreases v@.len() - i,
    {
        r.push(v[i].duplicate());
        i = i + 1;
        assert(r@ =~= v@.subrange(0, i as int));
    }
    assert(r@ =~= v@);
    r
}

/// The widget id stored under one of the known names, if `s` is one.
fn known_name_id(s: &str) -> (r: Option<u64>)
    ensures
        known_names().contains(s@) ==> r == Some(live_id_hash(s@)),
        !known_names().contains(s@) ==> r is None,
{
    let ghost names = known_names();
    if str_eq(s, "room_screen") || str_eq(s, "invite_screen") || str_eq(s, "space_lobby_screen")
        || str_eq(s, "welcome_screen") || str_eq(s, "settings_screen") || str_eq(
        s,
        "CloseableTab",
    ) || str_eq(s, "PermanentTab") {
        proof {
            if s@ == "room_screen"@ {
                assert(names[0] == s@);
            } else if s@ == "invite_screen"@ {
                assert(names[1] == s@);
            } else if s@ == "space_lobby_screen"@ {
                assert(names[2] == s@);
            } else if s@ == "welcome_screen"@ {
                assert(names[3] == s@);
            } else if s@ == "settings_screen"@ {
                assert(names[4] == s@);
            } else if s@ == "CloseableTab"@ {
                assert(names[5] == s@);
            } else {
                assert(names[6] == s@);
            }
        }
        Some(live_id_from_str(s))
    } else {
        proof {
            assert forall|i: int| 0 <= i < names.len() implies names[i] != s@ by {}
        }
        None
    }
}

/// The string a widget kind or template id is stored as (see [`known_key`]).
pub fn live_id_to_known_string(id: u64) -> (r: String)
    ensures
        r@ == known_key(id),
{
    proof {
        reveal_with_fuel(known_key_from, 8);
    }
    if live_id_from_str("room_screen") == id {
        return owned("room_screen");
    }
    if live_id_from_str("invite_screen") == id {
        return owned("invite_screen");
    }
    if live_id_from_str("space_lobby_screen") == id {
        return owned("space_lobby_screen");
    }
    if live_id_from_str("welcome_screen") == id {
        return owned("welcome_screen");
    }
    if live_id_from_str("settings_screen") == id {
        return owned("settings_screen");
    }
    if live_id_from_str("CloseableTab") == id {
        return owned("CloseableTab");
    }
    if live_id_from_str("PermanentTab") == id {
        return owned("PermanentTab");
    }
    let mut t = owned("__id_");
    push_hex16(&mut t, id);
    t
}

/// The widget id a stored kind or template string stands for (see [`known_id`]).
pub fn known_string_to_live_id(s: &str) -> (r: u64)
    ensures
        r == known_id(s@),
{
    match known_name_id(s) {
        Some(id) => id,
        None => match strip_prefix(s, "__id_") {
            Some(hex) => match parse_hex_u64(hex.as_str()) {
                Some(v) => v,
                None => 0,
            },
            None => live_id_from_str(s),
        },
    }
}

/// The dock id a stored string stands for (see [`key_id`]).
pub fn string_to_live_id(s: &str) -> (r: u64)
    ensures
        r == key_id(s@),
{
    match strip_prefix(s, "__dock_") {
        Some(hex) => match parse_hex_u64(hex.as_str()) {
            Some(v) => v,
            None => 0,
        },
        None => live_id_from_str(s),
    }
}

fn copy_layout<P: Copy>(p: &P) -> (r: P)
    ensures
        r == *p,
{
    *p
}

impl<P: Copy> SavedDockState<P> {
    /// The string the dock id `id` is stored as (see [`dock_key`]).
    pub fn live_id_to_string(&self, id: u64) -> (r: String)
        requires
            self.wf(),
        ensures
            r@ == dock_key(self.open_rooms@, id),
    {
        match self.open_rooms.get(&id) {
            Some(room) => room.tab_id_string(),
            None => {
                let mut t = owned("__dock_");
                push_hex16(&mut t, id);
                t
            },
        }
    }

    fn ser_item_of(&self, item: &DockItem<P>) -> (r: SerializableDockItem<P>)
        requires
            self.wf(),
        ensures
            r@ == ser_item(self.open_rooms@, item@),
    {
        match item {
            DockItem::Splitter { layout, a, b } => SerializableDockItem::Splitter {
                layout: copy_layout(layout),
                a: self.live_id_to_string(*a),
                b: self.live_id_to_string(*b),
            },
            DockItem::Tabs { tabs, selected, closable, hide_tab_bar } => {
                let mut out: Vec<String> = Vec::new();
                let mut i: usize = 0;
                while i < tabs.len()
                    invariant
                        self.wf(),
                        i <= tabs@.len(),
                        out@.len() == i,
                        forall|j: int|
                            0 <= j < i ==> #[trigger] out@[j]@ == dock_key(
                                self.open_rooms@,
                                tabs@[j],
                            ),
                    decreases tabs@.len() - i,
                {
                    out.push(self.live_id_to_string(tabs[i]));
                    i = i + 1;
                }
                let r = SerializableDockItem::Tabs {
                    tabs: out,
                    selected: *selected,
                    closable: *closable,
                    hide_tab_bar: *hide_tab_bar,
                };
                assert(out@.map_values(|t: String| t@) =~= tabs@.map_values(
                    |t: u64| dock_key(self.open_rooms@, t),
                ));
                r
            },
            DockItem::Tab { name, template, kind } => SerializableDockItem::Tab {
                name: name.clone(),
                template: live_id_to_known_string(*template),
                kind: live_id_to_known_string(*kind),
            },
        }
    }

    /// The stored form of this dock: each item and each open room keyed by its string,
    /// with every widget id inside the items written as a string too.
    pub fn to_serializable(&self) -> (r: SerializableSavedDockState<P>)
        requires
            self.wf(),
        ensures
            stored_as(*self, r),
    {
        let ghost rooms = self.open_rooms@;
        let ghost kf = ser_key_fn::<P>(rooms);
        let ghost vf = ser_val_fn::<P>(rooms);
        let ghost es = self.dock_items.entries();
        let mut items: AssocMap<String, SerializableDockItem<P>> = AssocMap::new();
        let n = self.dock_items.len();
        let mut i: usize = 0;
        while i < n
            invariant
                self.wf(),
                rooms == self.open_rooms@,
                kf == ser_key_fn::<P>(rooms),
                vf == ser_val_fn::<P>(rooms),
                es == self.dock_items.entries(),
                n == es.len(),
                i <= n,
                items.wf(),
                views_match(items@, fold_entries(es.take(i as int), kf, vf)),
            decreases n - i,
        {
            let e = self.dock_items.entry(i);
            let key = self.live_id_to_string(e.0);
            let item = self.ser_item_of(&e.1);
            let ghost before = items@;
            let ghost f = fold_entries(es.take(i as int), kf, vf);
            assert(es.take(i + 1).drop_last() =~= es.take(i as int));
            assert(es.take(i + 1).last() == es[i as int]);
            items.insert(key, item);
            assert(views_match(items@, fold_entries(es.take(i + 1), kf, vf))) by {
                let g = fold_entries(es.take(i + 1), kf, vf);
                assert(g == f.insert(kf(es[i as int]), vf(es[i as int])));
                assert(items@.dom() =~= g.dom());
            }
            i = i + 1;
        }
        assert(es.take(n as int) =~= es);
        let ghost rs = self.open_rooms.entries();
        let mut open_rooms: AssocMap<String, SelectedRoom> = AssocMap::new();
        let m = self.open_rooms.len();
        let mut j: usize = 0;
        while j < m
            invariant
                self.wf(),
                rs == self.open_rooms.entries(),
                m == rs.len(),
                j <= m,
                open_rooms.wf(),
                open_rooms@ == fold_entries(
                    rs.take(j as int),
                    room_ser_key_fn(),
                    room_val_fn::<u64>(),
                ),
            decreases m - j,
        {
            let e = self.open_rooms.entry(j);
            assert(rs.take(j + 1).drop_last() =~= rs.take(j as int));
            assert(rs.take(j + 1).last() == rs[j as int]);
            open_rooms.insert(e.1.tab_id_string(), e.1.duplicate());
            j = j + 1;
        }
        assert(rs.take(m as int) =~= rs);
        SerializableSavedDockState {
            dock_items: items,
            open_rooms,
            room_order: duplicate_rooms(&self.room_order),
            selected_room: duplicate_selection(&self.selected_room),
        }
    }
}

fn de_item_of<P: Copy>(item: &SerializableDockItem<P>) -> (r: DockItem<P>)
    ensures
        r@ == de_item(item@),
{
    match item {
        SerializableDockItem::Splitter { layout, a, b } => DockItem::Splitter {
            layout: copy_layout(layout),
            a: string_to_live_id(a.as_str()),
            b: string_to_live_id(b.as_str()),
        },
        SerializableDockItem::Tabs { tabs, selected, closable, hide_tab_bar } => {
            let mut out: Vec<u64> = Vec::new();
            let mut i: usize = 0;
            while i < tabs.len()
                invariant
                    i <= tabs@.len(),
                    out@.len() == i,
                    forall|j: int| 0 <= j < i ==> #[trigger] out@[j] == key_id(tabs@[j]@),
                decreases tabs@.len() - i,
            {
                out.push(string_to_live_id(tabs[i].as_str()));
                i = i + 1;
            }
            assert(out@ =~= tabs@.map_values(|t: String| t@).map_values(|t: Seq<char>| key_id(t)));
            DockItem::Tabs {
                tabs: out,
                selected: *selected,
                closable: *closable,
                hide_tab_bar: *hide_tab_bar,
            }
        },
        SerializableDockItem::Tab { name, template, kind } => DockItem::Tab {
            name: name.clone(),
            template: known_string_to_live_id(template.as_str()),
            kind: known_string_to_live_id(kind.as_str()),
        },
    }
}

impl<P: Copy> SerializableSavedDockState<P> {
    /// The dock this stored form stands for: each stored key read back as a dock id,
    /// each open room keyed by the id of its tab.
    pub fn from_serializable(&self) -> (r: SavedDockState<P>)
        requires
            self.wf(),
        ensures
            restored_as(*self, r),
    {
        let ghost es = self.dock_items.entries();
        let ghost kf = de_key_fn::<P>();
        let ghost vf = de_val_fn::<P>();
        let mut items: AssocMap<u64, DockItem<P>> = AssocMap::new();
        let n = self.dock_items.len();
        let mut i: usize = 0;
        while i < n
            invariant
                self.wf(),
                es == self.dock_items.entries(),
                kf == de_key_fn::<P>(),
                vf == de_val_fn::<P>(),
                n == es.len(),
                i <= n,
                items.wf(),
                views_match(items@, fold_entries(es.take(i as int), kf, vf)),
            decreases n - i,
        {
            let e = self.dock_items.entry(i);
            let key = string_to_live_id(e.0.as_str());
            let item = de_item_of(&e.1);
            let ghost f = fold_entries(es.take(i as int), kf, vf);
            assert(es.take(i + 1).drop_last() =~= es.take(i as int));
            assert(es.take(i + 1).last() == es[i as int]);
            items.insert(key, item);
            assert(views_match(items@, fold_entries(es.take(i + 1), kf, vf))) by {
                let g = fold_entries(es.take(i + 1), kf, vf);
                assert(g == f.insert(kf(es[i as int]), vf(es[i as int])));
                assert(items@.dom() =~= g.dom());
            }
            i = i + 1;
        }
        assert(es.take(n as int) =~= es);
        let ghost rs = self.open_rooms.entries();
        let mut open_rooms: AssocMap<u64, SelectedRoom> = AssocMap::new();
        let m = self.open_rooms.len();
        let mut j: usize = 0;
        while j < m
            invariant
                self.wf(),
                rs == self.open_rooms.entries(),
                m == rs.len(),
                j <= m,
                open_rooms.wf(),
                open_rooms@ == fold_entries(
                    rs.take(j as int),
                    room_de_key_fn(),
                    room_val_fn::<String>(),
                ),
            decreases m - j,
        {
            let e = self.open_rooms.entry(j);
            assert(rs.take(j + 1).drop_last() =~= rs.take(j as int));
            assert(rs.take(j + 1).last() == rs[j as int]);
            open_rooms.insert(e.1.tab_id(), e.1.duplicate());
            j = j + 1;
        }
        assert(rs.take(m as int) =~= rs);
        SavedDockState {
            dock_items: items,
            open_rooms,
            room_order: duplicate_rooms(&self.room_order),
            selected_room: duplicate_selection(&self.selected_room),
        }
    }
}


/// Whether `room_id` starts with the room sigil `!`, as every valid Matrix room ID does
/// (the ID parser refuses any other first character).
pub open spec fn has_room_sigil(room_id: Seq<char>) -> bool {
    room_id.len() > 0 && room_id[0] == '!'
}

/// Whether each open room is keyed by its tab's widget id and has a room ID with the
/// room sigil: what a dock built by the UI keeps.
pub open spec fn rooms_keyed_by_tab(rooms: Map<u64, SelectedRoom>) -> bool {
    forall|id: u64|
        #[trigger] rooms.contains_key(id) ==> live_id_hash(tab_text(rooms[id])) == id
            && has_room_sigil(sel_room_id(rooms[id]))
}

/// The tab text of a selection whose room ID has the room sigil never looks like a
/// stored dock id.
proof fn lemma_sigil_tab_not_dock_key(s: SelectedRoom)
    requires
        has_room_sigil(sel_room_id(s)),
    ensures
        !starts_with(tab_text(s), dock_prefix()),
{
    reveal_strlit("__dock_");
    reveal_strlit("##");
    let t = tab_text(s);
    assert(t[0] == '!');
    if starts_with(t, dock_prefix()) {
        assert(t.subrange(0, dock_prefix().len() as int)[0] == t[0]);
    }
}

proof fn lemma_prefixed_hex(p: Seq<char>, id: u64)
    ensures
        starts_with(p + hex16(id), p),
        (p + hex16(id)).subrange(p.len() as int, (p + hex16(id)).len() as int) == hex16(id),
        parse_hex(hex16(id)) == Some(id),
{
    law_hex16_parses_back(id);
    assert((p + hex16(id)).subrange(0, p.len() as int) =~= p);
    assert((p + hex16(id)).subrange(p.len() as int, (p + hex16(id)).len() as int) =~= hex16(id));
}

/// Reading back the string a dock id is stored as gives the id.
pub proof fn lemma_key_round_trip(rooms: Map<u64, SelectedRoom>, id: u64)
    requires
        rooms_keyed_by_tab(rooms),
    ensures
        key_id(dock_key(rooms, id)) == id,
{
    if !rooms.contains_key(id) {
        lemma_prefixed_hex(dock_prefix(), id);
    } else {
        lemma_sigil_tab_not_dock_key(rooms[id]);
    }
}

proof fn lemma_known_names_facts()
    ensures
        forall|i: int|
            0 <= i < 7 ==> #[trigger] known_names()[i].len() != 21 && !starts_with(
                known_names()[i],
                id_prefix(),
            ),
        known_names().len() == 7,
        id_prefix().len() == 5,
{
    reveal_strlit("room_screen");
    reveal_strlit("invite_screen");
    reveal_strlit("space_lobby_screen");
    reveal_strlit("welcome_screen");
    reveal_strlit("settings_screen");
    reveal_strlit("CloseableTab");
    reveal_strlit("PermanentTab");
    reveal_strlit("__id_");
    let n = known_names();
    assert forall|i: int| 0 <= i < 7 implies #[trigger] n[i].len() != 21 && !starts_with(
        n[i],
        id_prefix(),
    ) by {
        assert(n[i][0] != '_');
        assert(n[i].subrange(0, 5)[0] == n[i][0]);
    }
}

/// Reading back the string a widget kind or template id is stored as gives the id.
pub proof fn lemma_known_round_trip(id: u64)
    ensures
        known_id(known_key(id)) == id,
{
    reveal_with_fuel(known_key_from, 8);
    lemma_known_names_facts();
    let n = known_names();
    let k = known_key(id);
    if exists|i: int| 0 <= i < 7 && live_id_hash(#[trigger] n[i]) == id {
        assert(n.contains(k));
    } else {
        lemma_prefixed_hex(id_prefix(), id);
        assert(k == id_prefix() + hex16(id));
        assert(k.len() == 21) by {
            law_hex16_parses_back(id);
        }
        assert(!n.contains(k));
    }
}

/// Reading back a stored dock item gives the item.
pub proof fn lemma_item_round_trip<P>(rooms: Map<u64, SelectedRoom>, v: DockItemView<P>)
    requires
        rooms_keyed_by_tab(rooms),
    ensures
        de_item(ser_item(rooms, v)) == v,
{
    match v {
        DockItemView::Splitter { layout, a, b } => {
            lemma_key_round_trip(rooms, a);
            lemma_key_round_trip(rooms, b);
        },
        DockItemView::Tabs { tabs, selected, closable, hide_tab_bar } => {
            let back = tabs.map_values(|t: u64| dock_key(rooms, t)).map_values(
                |t: Seq<char>| key_id(t),
            );
            assert forall|j: int| 0 <= j < tabs.len() implies back[j] == tabs[j] by {
                lemma_key_round_trip(rooms, tabs[j]);
            }
            assert(back =~= tabs);
        },
        DockItemView::Tab { name, template, kind } => {
            lemma_known_round_trip(template);
            lemma_known_round_trip(kind);
        },
    }
}

/// Storing a dock and reading it back gives the same dock: the same items under the same
/// ids, the same open rooms under the same ids, the same order and the same selection.
/// This holds of every dock whose open rooms are keyed by their tab ids and have valid
/// room IDs, which start with `!` (see [`rooms_keyed_by_tab`]).
pub proof fn law_dock_state_round_trip<P>(
    s: SavedDockState<P>,
    t: SerializableSavedDockState<P>,
    r: SavedDockState<P>,
)
    requires
        s.wf(),
        rooms_keyed_by_tab(s.open_rooms@),
        stored_as(s, t),
        restored_as(t, r),
    ensures
        r.dock_items@.dom() == s.dock_items@.dom(),
        forall|id: u64| #[trigger] r.dock_items@.contains_key(id) ==> r.dock_items@[id]@ == s.dock_items@[id]@,
        r.open_rooms@ == s.open_rooms@,
        r.room_order@ == s.room_order@,
        r.selected_room == s.selected_room,
{
    let rooms = s.open_rooms@;
    // The dock items.
    let es = s.dock_items.entries();
    let kf = ser_key_fn::<P>(rooms);
    let vf = ser_val_fn::<P>(rooms);
    s.dock_items.lemma_entries_view();
    assert(keys_distinct_under(es, kf)) by {
        assert forall|a: int, b: int| 0 <= a < es.len() && 0 <= b < es.len() && a != b implies kf(
            #[trigger] es[a],
        ) != kf(#[trigger] es[b]) by {
            s.dock_items.lemma_distinct(a, b);
            assert(kf(es[a]) == dock_key(rooms, es[a].0));
            assert(kf(es[b]) == dock_key(rooms, es[b].0));
            lemma_key_round_trip(rooms, es[a].0);
            lemma_key_round_trip(rooms, es[b].0);
        }
    }
    lemma_fold_injective(es, kf, vf);
    let ser = fold_entries(es, kf, vf);
    let ts = t.dock_items.entries();
    let dkf = de_key_fn::<P>();
    let dvf = de_val_fn::<P>();
    t.dock_items.lemma_entries_view();
    // Every stored key is the key of some item of `s`.
    assert forall|j: int| 0 <= j < ts.len() implies exists|i: int|
        0 <= i < es.len() && kf(es[i]) == #[trigger] ts[j].0@ by {
        assert(t.dock_items@.contains_key(ts[j].0@));
        assert(ser.contains_key(ts[j].0@));
    }
    assert(keys_distinct_under(ts, dkf)) by {
        assert forall|a: int, b: int| 0 <= a < ts.len() && 0 <= b < ts.len() && a != b implies dkf(
            #[trigger] ts[a],
        ) != dkf(#[trigger] ts[b]) by {
            let ia = choose|i: int| 0 <= i < es.len() && kf(es[i]) == ts[a].0@;
            let ib = choose|i: int| 0 <= i < es.len() && kf(es[i]) == ts[b].0@;
            lemma_key_round_trip(rooms, es[ia].0);
            lemma_key_round_trip(rooms, es[ib].0);
            assert(ts[a].0@ != ts[b].0@);
        }
    }
    lemma_fold_injective(ts, dkf, dvf);
    let back = fold_entries(ts, dkf, dvf);
    assert(r.dock_items@.dom() =~= s.dock_items@.dom()) by {
        assert forall|id: u64| r.dock_items@.contains_key(id) implies s.dock_items@.contains_key(
            id,
        ) by {
            assert(back.contains_key(id));
            let j = choose|j: int| 0 <= j < ts.len() && dkf(ts[j]) == id;
            let i = choose|i: int| 0 <= i < es.len() && kf(es[i]) == ts[j].0@;
            assert(dkf(ts[j]) == key_id(ts[j].0@));
            assert(kf(es[i]) == dock_key(rooms, es[i].0));
            lemma_key_round_trip(rooms, es[i].0);
            assert(es[i].0 == id);
            s.dock_items.lemma_entry(i);
        }
        assert forall|id: u64| s.dock_items@.contains_key(id) implies r.dock_items@.contains_key(
            id,
        ) by {
            let i = choose|i: int| 0 <= i < es.len() && es[i].0@ == id;
            assert(ser.contains_key(kf(es[i])));
            assert(t.dock_items@.contains_key(kf(es[i])));
            let j = choose|j: int| 0 <= j < ts.len() && ts[j].0@ == kf(es[i]);
            lemma_key_round_trip(rooms, es[i].0);
            assert(back.contains_key(dkf(ts[j])));
        }
    }
    assert forall|id: u64| #[trigger] r.dock_items@.contains_key(id) implies r.dock_items@[id]@
        == s.dock_items@[id]@ by {
        let i = choose|i: int| 0 <= i < es.len() && es[i].0@ == id;
        assert(s.dock_items@[id] == es[i].1);
        assert(ser.contains_key(kf(es[i])));
        assert(t.dock_items@.contains_key(kf(es[i])));
        let j = choose|j: int| 0 <= j < ts.len() && ts[j].0@ == kf(es[i]);
        lemma_key_round_trip(rooms, es[i].0);
        assert(dkf(ts[j]) == id);
        assert(back[id] == dvf(ts[j]));
        assert(ts[j].1 == t.dock_items@[kf(es[i])]);
        assert(ts[j].1@ == ser[kf(es[i])]);
        lemma_item_round_trip(rooms, es[i].1@);
    }
    // The open rooms.
    let rs = s.open_rooms.entries();
    let rkf = room_ser_key_fn();
    let rvf = room_val_fn::<u64>();
    s.open_rooms.lemma_entries_view();
    assert forall|i: int| 0 <= i < rs.len() implies live_id_hash(tab_text(#[trigger] rs[i].1))
        == rs[i].0 by {
        s.open_rooms.lemma_entry(i);
    }
    assert(keys_distinct_under(rs, rkf)) by {
        assert forall|a: int, b: int| 0 <= a < rs.len() && 0 <= b < rs.len() && a != b implies rkf(
            #[trigger] rs[a],
        ) != rkf(#[trigger] rs[b]) by {
            s.open_rooms.lemma_entry(a);
            s.open_rooms.lemma_entry(b);
            s.open_rooms.lemma_distinct(a, b);
            assert(rkf(rs[a]) == tab_text(rs[a].1));
            assert(rkf(rs[b]) == tab_text(rs[b].1));
            assert(live_id_hash(tab_text(rs[a].1)) == rs[a].0);
            assert(live_id_hash(tab_text(rs[b].1)) == rs[b].0);
        }
    }
    lemma_fold_injective(rs, rkf, rvf);
    let sr = fold_entries(rs, rkf, rvf);
    let trs = t.open_rooms.entries();
    let tkf = room_de_key_fn();
    let tvf = room_val_fn::<String>();
    t.open_rooms.lemma_entries_view();
    assert forall|j: int| 0 <= j < trs.len() implies exists|i: int|
        0 <= i < rs.len() && rkf(rs[i]) == #[trigger] trs[j].0@ && trs[j].1 == rs[i].1 by {
        t.open_rooms.lemma_entry(j);
        assert(sr.contains_key(trs[j].0@));
        let i = choose|i: int| 0 <= i < rs.len() && rkf(rs[i]) == trs[j].0@;
        assert(trs[j].1 == t.open_rooms@[trs[j].0@]);
    }
    assert(keys_distinct_under(trs, tkf)) by {
        assert forall|a: int, b: int| 0 <= a < trs.len() && 0 <= b < trs.len() && a != b implies tkf(
            #[trigger] trs[a],
        ) != tkf(#[trigger] trs[b]) by {
            let ia = choose|i: int| 0 <= i < rs.len() && rkf(rs[i]) == trs[a].0@ && trs[a].1 == rs[i].1;
            let ib = choose|i: int| 0 <= i < rs.len() && rkf(rs[i]) == trs[b].0@ && trs[b].1 == rs[i].1;
            t.open_rooms.lemma_distinct(a, b);
            s.open_rooms.lemma_entry(ia);
            s.open_rooms.lemma_entry(ib);
            assert(tkf(trs[a]) == live_id_hash(tab_text(trs[a].1)));
            assert(tkf(trs[b]) == live_id_hash(tab_text(trs[b].1)));
            assert(rkf(rs[ia]) == tab_text(rs[ia].1));
            assert(rkf(rs[ib]) == tab_text(rs[ib].1));
            assert(live_id_hash(tab_text(rs[ia].1)) == rs[ia].0);
            assert(live_id_hash(tab_text(rs[ib].1)) == rs[ib].0);
        }
    }
    lemma_fold_injective(trs, tkf, tvf);
    let rb = fold_entries(trs, tkf, tvf);
    assert(r.open_rooms@ =~= s.open_rooms@) by {
        assert forall|id: u64| r.open_rooms@.contains_key(id) implies s.open_rooms@.contains_key(id)
            && r.open_rooms@[id] == s.open_rooms@[id] by {
            assert(rb.contains_key(id));
            let j = choose|j: int| 0 <= j < trs.len() && tkf(trs[j]) == id;
            let i = choose|i: int| 0 <= i < rs.len() && rkf(rs[i]) == trs[j].0@ && trs[j].1 == rs[i].1;
            s.open_rooms.lemma_entry(i);
            assert(tkf(trs[j]) == live_id_hash(tab_text(trs[j].1)));
            assert(live_id_hash(tab_text(rs[i].1)) == rs[i].0);
            assert(rs[i].0 == id);
            assert(rb[id] == tvf(trs[j]));
            assert(tvf(trs[j]) == trs[j].1);
        }
        assert forall|id: u64| s.open_rooms@.contains_key(id) implies r.open_rooms@.contains_key(id) by {
            let i = choose|i: int| 0 <= i < rs.len() && rs[i].0@ == id;
            assert(sr.contains_key(rkf(rs[i])));
            assert(t.open_rooms@.contains_key(rkf(rs[i])));
            let j = choose|j: int| 0 <= j < trs.len() && trs[j].0@ == rkf(rs[i]);
            assert(trs[j].1 == t.open_rooms@[rkf(rs[i])]);
            assert(trs[j].1 == rs[i].1);
            assert(live_id_hash(tab_text(rs[i].1)) == rs[i].0);
            assert(rb.contains_key(tkf(trs[j])));
        }
    }
}


/// The number the decimal digits `s` spell.
pub open spec fn decimal_value(s: Seq<char>) -> nat
    decreases s.len(),
{
    if s.len() == 0 {
        0
    } else {
        (decimal_value(s.drop_last()) * 10 + (s.last() as int - 48)) as nat
    }
}

/// Whether every character of `s` is a decimal digit.
pub open spec fn all_decimal(s: Seq<char>) -> bool {
    forall|i: int| 0 <= i < s.len() ==> '0' <= #[trigger] s[i] <= '9'
}

/// Whether `s` parses as a `u64`, as `str::parse::<u64>` does: an optional `+`, then at
/// least one decimal digit and nothing else, for a value below 2^64.
pub open spec fn parses_as_u64(s: Seq<char>) -> bool {
    let body = if s.len() > 0 && s[0] == '+' {
        s.drop_first()
    } else {
        s
    };
    body.len() > 0 && all_decimal(body) && decimal_value(body) <= u64::MAX
}

proof fn lemma_decimal_value_grows(s: Seq<char>, i: int, j: int)
    requires
        0 <= i <= j <= s.len(),
        all_decimal(s),
    ensures
        decimal_value(s.subrange(0, i)) <= decimal_value(s.subrange(0, j)),
    decreases j - i,
{
    if i < j {
        lemma_decimal_value_grows(s, i, j - 1);
        let t = s.subrange(0, j);
        assert(t.drop_last() =~= s.subrange(0, j - 1));
        assert('0' <= s[j - 1] <= '9');
        let a = decimal_value(s.subrange(0, j - 1));
        assert(a <= a * 10 + (t.last() as int - 48)) by (nonlinear_arith)
            requires
                a >= 0,
                t.last() as int - 48 >= 0,
        ;
    }
}

/// Whether a stored layout uses the old format, whose dock item keys are numeric widget
/// ids: the first key parses as a `u64`.
pub fn is_legacy_key(s: &str) -> (r: bool)
    ensures
        r == parses_as_u64(s@),
{
    let v = crate::text::to_chars(s);
    let start: usize = if v.len() > 0 && v[0] == '+' {
        1
    } else {
        0
    };
    let ghost body = if s@.len() > 0 && s@[0] == '+' {
        s@.drop_first()
    } else {
        s@
    };
    assert(body =~= s@.subrange(start as int, s@.len() as int));
    if v.len() == start {
        return false;
    }
    let mut value: u64 = 0;
    let mut i: usize = start;
    while i < v.len()
        invariant
            v@ == s@,
            start <= i <= v@.len(),
            body == s@.subrange(start as int, s@.len() as int),
            body == (if s@.len() > 0 && s@[0] == '+' {
                s@.drop_first()
            } else {
                s@
            }),
            all_decimal(body.subrange(0, i - start)),
            value == decimal_value(body.subrange(0, i - start)),
        decreases v@.len() - i,
    {
        let c = v[i];
        let ghost pre = body.subrange(0, i - start);
        let ghost next = body.subrange(0, i + 1 - start);
        assert(next.drop_last() =~= pre);
        assert(next.last() == c);
        if !('0' <= c && c <= '9') {
            assert(body[i - start] == c);
            assert(!all_decimal(body));
            return false;
        }
        let d: u64 = (c as u32 - 48) as u64;
        assert(decimal_value(next) == value * 10 + d);
        assert forall|j: int| 0 <= j < next.len() implies '0' <= #[trigger] next[j] <= '9' by {
            if j < pre.len() {
                assert(next[j] == pre[j]);
            }
        }
        match value.checked_mul(10) {
            Some(m) => match m.checked_add(d) {
                Some(w) => {
                    value = w;
                },
                None => {
                    proof {
                        assert(m == value * 10);
                        if all_decimal(body) {
                            lemma_decimal_value_grows(body, i + 1 - start, body.len() as int);
                            assert(body.subrange(0, body.len() as int) =~= body);
                        }
                    }
                    return false;
                },
            },
            None => {
                proof {
                    assert(decimal_value(next) > u64::MAX) by (nonlinear_arith)
                        requires
                            decimal_value(next) == value * 10 + d,
                            value * 10 > 0xffff_ffff_ffff_ffff,
                            d >= 0,
                    ;
                    if all_decimal(body) {
                        lemma_decimal_value_grows(body, i + 1 - start, body.len() as int);
                        assert(body.subrange(0, body.len() as int) =~= body);
                    }
                }
                return false;
            },
        }
        i = i + 1;
    }
    assert(body.subrange(0, body.len() as int) =~= body);
    true
}

} // verus!
