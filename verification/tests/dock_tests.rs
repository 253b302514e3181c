use robrix::dock::is_legacy_key;
use robrix::assoc::AssocMap;
use robrix::dock::{
    known_string_to_live_id, live_id_to_known_string, string_to_live_id, DockItem, SavedDockState,
    SerializableDockItem,
};
use robrix::rooms::{RoomNameId, SelectedRoom};

fn live_id(s: &str) -> u64 {
    makepad_live_id::LiveId::from_str(s).0
}

fn sample() -> (SavedDockState<(u8, u8)>, u64) {
    let room = SelectedRoom::JoinedRoom {
        room_name_id: RoomNameId { room_id: "!a:x.org".to_string(), name: "Alpha".to_string() },
    };
    let tab = room.tab_id();
    let mut open_rooms = AssocMap::new();
    open_rooms.insert(tab, room.duplicate());
    let mut dock_items = AssocMap::new();
    dock_items.insert(1u64, DockItem::Splitter { layout: (1, 2), a: 2, b: tab });
    dock_items.insert(2u64, DockItem::Tabs { tabs: vec![tab, 7], selected: 0, closable: true, hide_tab_bar: false });
    dock_items.insert(
        tab,
        DockItem::Tab {
            name: "Alpha".to_string(),
            template: live_id("CloseableTab"),
            kind: live_id("room_screen"),
        },
    );
    dock_items.insert(7u64, DockItem::Tab { name: "Odd".to_string(), template: 42, kind: 0x8000_0000_0000_0001 });
    let s = SavedDockState {
        dock_items,
        open_rooms,
        room_order: vec![room.duplicate()],
        selected_room: Some(room),
    };
    (s, tab)
}

#[test]
fn ids_are_stored_as_readable_strings() {
    let (s, tab) = sample();
    assert_eq!(s.live_id_to_string(1), "__dock_0000000000000001");
    assert_eq!(s.live_id_to_string(tab), "!a:x.org");
    assert_eq!(live_id_to_known_string(live_id("room_screen")), "room_screen");
    assert_eq!(live_id_to_known_string(live_id("PermanentTab")), "PermanentTab");
    assert_eq!(live_id_to_known_string(42), "__id_000000000000002a");
}

#[test]
fn stored_strings_read_back_as_ids() {
    assert_eq!(string_to_live_id("__dock_00000000000000ff"), 255);
    assert_eq!(string_to_live_id("__dock_zz"), 0);
    assert_eq!(string_to_live_id("!a:x.org"), live_id("!a:x.org"));
    assert_eq!(known_string_to_live_id("welcome_screen"), live_id("welcome_screen"));
    assert_eq!(known_string_to_live_id("__id_000000000000002a"), 42);
    assert_eq!(known_string_to_live_id("__id_nothex"), 0);
    assert_eq!(known_string_to_live_id("custom"), live_id("custom"));
}

#[test]
fn stored_dock_reads_back_the_same() {
    let (s, tab) = sample();
    let t = s.to_serializable();
    match t.dock_items.get(&"__dock_0000000000000001".to_string()) {
        Some(SerializableDockItem::Splitter { layout, a, b }) => {
            assert_eq!(*layout, (1, 2));
            assert_eq!(a, "__dock_0000000000000002");
            assert_eq!(b, "!a:x.org");
        }
        _ => panic!("splitter missing"),
    }
    match t.dock_items.get(&"__dock_0000000000000007".to_string()) {
        Some(SerializableDockItem::Tab { name, template, kind }) => {
            assert_eq!(name, "Odd");
            assert_eq!(template, "__id_000000000000002a");
            assert_eq!(kind, "__id_8000000000000001");
        }
        _ => panic!("tab missing"),
    }
    assert!(t.open_rooms.get(&"!a:x.org".to_string()).is_some());

    let r = t.from_serializable();
    assert_eq!(r.dock_items.len(), s.dock_items.len());
    match r.dock_items.get(&1) {
        Some(DockItem::Splitter { layout, a, b }) => {
            assert_eq!(*layout, (1, 2));
            assert_eq!(*a, 2);
            assert_eq!(*b, tab);
        }
        _ => panic!("splitter not restored"),
    }
    match r.dock_items.get(&2) {
        Some(DockItem::Tabs { tabs, selected, closable, hide_tab_bar }) => {
            assert_eq!(tabs, &vec![tab, 7]);
            assert_eq!(*selected, 0);
            assert!(*closable);
            assert!(!*hide_tab_bar);
        }
        _ => panic!("tabs not restored"),
    }
    match r.dock_items.get(&tab) {
        Some(DockItem::Tab { name, template, kind }) => {
            assert_eq!(name, "Alpha");
            assert_eq!(*template, live_id("CloseableTab"));
            assert_eq!(*kind, live_id("room_screen"));
        }
        _ => panic!("room tab not restored"),
    }
    match r.dock_items.get(&7) {
        Some(DockItem::Tab { template, kind, .. }) => {
            assert_eq!(*template, 42);
            assert_eq!(*kind, 0x8000_0000_0000_0001);
        }
        _ => panic!("odd tab not restored"),
    }
    assert!(r.open_rooms.get(&tab).is_some_and(|room| room.room_id() == "!a:x.org"));
    assert_eq!(r.room_order.len(), 1);
    assert!(r.selected_room.is_some());
}

#[test]
fn legacy_layouts_have_numeric_keys() {
    assert!(is_legacy_key("12345"));
    assert!(is_legacy_key("+7"));
    assert!(is_legacy_key("18446744073709551615"));
    assert!(!is_legacy_key("18446744073709551616"));
    assert!(!is_legacy_key("__dock_0000000000000001"));
    assert!(!is_legacy_key(""));
    assert!(!is_legacy_key("-1"));
    for s in ["12345", "+7", "18446744073709551616", "", "+", "1a", "007"] {
        assert_eq!(is_legacy_key(s), s.parse::<u64>().is_ok());
    }
}
