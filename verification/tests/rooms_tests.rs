use robrix::rooms::{RoomNameId, SelectedRoom};

fn name(id: &str, n: &str) -> RoomNameId {
    RoomNameId { room_id: id.to_string(), name: n.to_string() }
}

#[test]
fn tab_text_of_rooms_and_threads() {
    let joined = SelectedRoom::JoinedRoom { room_name_id: name("!a:x.org", "Alpha") };
    assert_eq!(joined.tab_id_string(), "!a:x.org");
    let thread = SelectedRoom::Thread {
        room_name_id: name("!a:x.org", "Alpha"),
        thread_root_event_id: "$root".to_string(),
    };
    assert_eq!(thread.tab_id_string(), "!a:x.org##$root");
    assert_ne!(joined.tab_id(), thread.tab_id());
    assert_eq!(thread.room_id(), "!a:x.org");
}

#[test]
fn display_names() {
    let space = SelectedRoom::Space { space_name_id: name("!s:x", "Home") };
    assert_eq!(space.display_name(), "[Space] Home");
    let thread = SelectedRoom::Thread { room_name_id: name("!a:x", "Alpha"), thread_root_event_id: "$e".into() };
    assert_eq!(thread.display_name(), "[Thread] Alpha");
    let invite = SelectedRoom::InvitedRoom { room_name_id: name("!i:x", "Invite") };
    assert_eq!(invite.display_name(), "Invite");
}

#[test]
fn sameness_ignores_names_and_separates_threads() {
    let a = SelectedRoom::JoinedRoom { room_name_id: name("!a:x", "One") };
    let b = SelectedRoom::InvitedRoom { room_name_id: name("!a:x", "Two") };
    let c = SelectedRoom::Space { space_name_id: name("!a:x", "Three") };
    let t1 = SelectedRoom::Thread { room_name_id: name("!a:x", "One"), thread_root_event_id: "$e".into() };
    let t2 = SelectedRoom::Thread { room_name_id: name("!a:x", "Other"), thread_root_event_id: "$e".into() };
    let t3 = SelectedRoom::Thread { room_name_id: name("!a:x", "One"), thread_root_event_id: "$f".into() };
    // Reflexive, symmetric, transitive.
    for r in [&a, &b, &c, &t1] {
        assert!(r.same_as(r));
    }
    assert_eq!(a.same_as(&b), b.same_as(&a));
    assert!(a.same_as(&b) && b.same_as(&c) && a.same_as(&c));
    // Threads.
    assert!(t1.same_as(&t2));
    assert!(!t1.same_as(&t3));
    assert!(!t1.same_as(&a));
    assert!(!a.same_as(&t1));
    // Same selections have the same tab.
    assert_eq!(t1.tab_id_string(), t2.tab_id_string());
}

#[test]
fn invite_upgrades_only_for_its_room() {
    let mut s = SelectedRoom::InvitedRoom { room_name_id: name("!a:x", "A") };
    assert!(!s.upgrade_invite_to_joined("!b:x"));
    assert!(matches!(s, SelectedRoom::InvitedRoom { .. }));
    assert!(s.upgrade_invite_to_joined("!a:x"));
    assert!(matches!(&s, SelectedRoom::JoinedRoom { room_name_id } if room_name_id.name == "A"));
    assert!(!s.upgrade_invite_to_joined("!a:x"));
}

#[test]
fn equal_tab_text_means_the_same_selection() {
    let rooms = vec![
        SelectedRoom::JoinedRoom { room_name_id: name("!a:x", "A") },
        SelectedRoom::InvitedRoom { room_name_id: name("!a:x", "B") },
        SelectedRoom::Space { space_name_id: name("!b:x", "S") },
        SelectedRoom::Thread { room_name_id: name("!a:x", "A"), thread_root_event_id: "$e".into() },
        SelectedRoom::Thread { room_name_id: name("!a:x#", "A"), thread_root_event_id: "$e".into() },
        SelectedRoom::Thread { room_name_id: name("!a:x", "A"), thread_root_event_id: "$f".into() },
    ];
    for a in &rooms {
        for b in &rooms {
            assert_eq!(a.same_as(b), a.tab_id_string() == b.tab_id_string());
        }
    }
}
