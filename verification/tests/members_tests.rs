use robrix::members::{DisplayedMember, MembersPanel, RoomMemberRole};
use robrix::typing::{typing_avatar_visible, typing_notice_text, TypingNotice};

fn member(id: &str, name: Option<&str>, role: RoomMemberRole) -> DisplayedMember {
    DisplayedMember::from_room_member(id, name, None, role)
}

fn panel() -> MembersPanel {
    let mut p = MembersPanel::new();
    p.set_members(
        vec![
            member("@alice:x.org", Some("Alice"), RoomMemberRole::Administrator),
            member("@bob:x.org", Some(""), RoomMemberRole::Moderator),
            member("@carol:x.org", None, RoomMemberRole::User),
        ],
        "!r:x.org".to_string(),
        "Room".to_string(),
    );
    p
}

#[test]
fn members_are_shown_with_names_and_badges() {
    let p = panel();
    assert_eq!(p.members[0].displayable_name(), "Alice");
    assert_eq!(p.members[1].displayable_name(), "@bob:x.org");
    assert_eq!(p.members[2].displayable_name(), "@carol:x.org");
    assert_eq!(p.members[0].role.as_deref(), Some("Admin"));
    assert_eq!(p.members[1].role.as_deref(), Some("Mod"));
    assert_eq!(p.members[2].role, None);
}

#[test]
fn search_lists_matching_members_case_insensitively() {
    let mut p = panel();
    assert_eq!(p.filtered_members, vec![0, 1, 2]);
    assert_eq!(p.member_count_text(), "(3)");
    p.set_search_query("ALI".to_string());
    assert_eq!(p.filtered_members, vec![0]);
    assert_eq!(p.member_count_text(), "(1/3)");
    p.set_search_query("x.org".to_string());
    assert_eq!(p.filtered_members, vec![0, 1, 2]);
    p.set_search_query("zzz".to_string());
    assert!(p.filtered_members.is_empty());
    assert_eq!(p.member_count_text(), "(0/3)");
    p.set_search_query(String::new());
    assert_eq!(p.filtered_members, vec![0, 1, 2]);
}

#[test]
fn clicking_a_listed_member_asks_for_its_profile() {
    let mut p = panel();
    p.set_search_query("carol".to_string());
    let profile = p.member_clicked(0).expect("listed");
    assert_eq!(profile.user_id, "@carol:x.org");
    assert_eq!(profile.room_id, "!r:x.org");
    assert!(p.member_clicked(1).is_none());
}

#[test]
fn panel_closes_after_its_animation() {
    let mut p = panel();
    p.show();
    assert!(p.is_currently_shown());
    p.begin_hide();
    assert!(!p.is_currently_shown());
    assert!(p.visible);
    assert!(p.finish_hiding());
    assert!(!p.visible);
    assert!(!p.finish_hiding());
}

#[test]
fn typing_notice_text_for_each_count() {
    let names = |v: &[&str]| v.iter().map(|s| s.to_string()).collect::<Vec<_>>();
    assert_eq!(typing_notice_text(&names(&[])), None);
    assert_eq!(typing_notice_text(&names(&["Ann"])).as_deref(), Some("Ann is typing "));
    assert_eq!(typing_notice_text(&names(&["Ann", "Bo"])).as_deref(), Some("Ann and Bo are typing "));
    assert_eq!(
        typing_notice_text(&names(&["Ann", "Bo", "Cy"])).as_deref(),
        Some("Ann, Bo, and Cy are typing ")
    );
    assert_eq!(
        typing_notice_text(&names(&["Ann", "Bo", "Cy", "Di", "Ed"])).as_deref(),
        Some("Ann, Bo, and 3 others are typing ")
    );
    assert!(typing_avatar_visible(2, 5));
    assert!(!typing_avatar_visible(3, 5));
    assert!(!typing_avatar_visible(1, 1));
    let mut notice = TypingNotice::new();
    assert_eq!(notice.avatar_slots, vec![None, None, None]);
    notice.show_or_hide(&names(&["Ann"]));
    assert!(notice.visible && notice.dots_animating);
    assert_eq!(notice.avatar_slots, vec![Some("Ann".to_string()), None, None]);
    notice.show_or_hide(&names(&[]));
    assert!(!notice.visible && !notice.dots_animating);
    assert_eq!(notice.text, "Ann is typing ");
    assert_eq!(notice.avatar_slots, vec![Some("Ann".to_string()), None, None]);
    notice.show_or_hide(&names(&["A", "B", "C", "D"]));
    assert_eq!(
        notice.avatar_slots,
        vec![Some("A".to_string()), Some("B".to_string()), Some("C".to_string())]
    );
    assert_eq!(notice.text, "A, B, and 2 others are typing ");
}

#[test]
fn showing_with_members_opens_the_panel_with_a_clear_search() {
    let mut p = panel();
    p.set_search_query("ali".to_string());
    assert!(!p.is_currently_shown());
    p.show_with_members(
        vec![member("@dan:y", Some("Dan"), RoomMemberRole::User)],
        "!other:y".to_string(),
        "Other".to_string(),
    );
    assert!(p.is_currently_shown());
    assert_eq!(p.filtered_members, vec![0]);
    assert!(p.search_query.is_empty());
    assert_eq!(p.room_id.as_deref(), Some("!other:y"));
    assert_eq!(p.room_name, "Other");
    p.begin_hide();
    assert!(!p.is_currently_shown());
    assert!(p.finish_hiding());
    assert!(!p.visible);
}
