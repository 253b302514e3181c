use robrix::dock::string_to_live_id;
use robrix::live_id::{parse_hex_u64, push_hex16};
use robrix::members::{DisplayedMember, MembersPanel, RoomMemberRole};
use robrix::text::{
    index_of_str, str_contains, str_ends_with, str_is_blank, str_starts_with, strip_prefix,
    trim_str, u64_to_decimal, zero_pad,
};

#[test]
fn trims_unicode_whitespace() {
    assert_eq!(trim_str("  \u{3000}hello world\t\n"), "hello world");
    assert_eq!(trim_str(""), "");
    assert!(str_is_blank(" \t\n"));
    assert!(!str_is_blank(" a "));
}

#[test]
fn decimal_and_padding() {
    assert_eq!(u64_to_decimal(0), "0");
    assert_eq!(u64_to_decimal(18446744073709551615), "18446744073709551615");
    assert_eq!(zero_pad(7, 3), "007");
    assert_eq!(zero_pad(12345, 3), "12345");
}

#[test]
fn substring_search_and_affixes() {
    assert!(str_contains("robrix_2024.log", "2024"));
    assert!(str_contains("abc", ""));
    assert!(!str_contains("abc", "abcd"));
    assert!(str_starts_with("robrix_x.log", "robrix_"));
    assert!(!str_starts_with("rob", "robrix_"));
    assert!(str_ends_with("robrix_x.log", ".log"));
    assert!(!str_ends_with("robrix_x.lo", ".log"));
    assert_eq!(strip_prefix("__dock_00ff", "__dock_"), Some("00ff".to_string()));
    assert_eq!(strip_prefix("__doc", "__dock_"), None);
}

#[test]
fn member_search_lowercases_as_std_does() {
    let mut p = MembersPanel::new();
    p.set_members(
        vec![DisplayedMember::from_room_member("@x:y", Some("ÄÖ Bär"), None, RoomMemberRole::User)],
        "!r".to_string(),
        "R".to_string(),
    );
    p.set_search_query("äö".to_string());
    assert_eq!(p.filtered_members, vec![0]);
    p.set_search_query("BÄR".to_string());
    assert_eq!(p.filtered_members, vec![0]);
    p.set_search_query("bar".to_string());
    assert!(p.filtered_members.is_empty());
}

#[test]
fn index_of_first_equal_string() {
    let ids = vec!["a".to_string(), "b".to_string(), "a".to_string()];
    assert_eq!(index_of_str(&ids, "a"), Some(0));
    assert_eq!(index_of_str(&ids, "b"), Some(1));
    assert_eq!(index_of_str(&ids, "c"), None);
}

#[test]
fn hex_parsing_matches_from_str_radix() {
    assert_eq!(parse_hex_u64("ff"), Some(255));
    assert_eq!(parse_hex_u64("+FF"), Some(255));
    assert_eq!(parse_hex_u64("0000000000000001"), Some(1));
    assert_eq!(parse_hex_u64("ffffffffffffffff"), Some(u64::MAX));
    assert_eq!(parse_hex_u64("10000000000000000"), None);
    assert_eq!(parse_hex_u64(""), None);
    assert_eq!(parse_hex_u64("+"), None);
    assert_eq!(parse_hex_u64("0x10"), None);
    assert_eq!(parse_hex_u64("-1"), None);
    for s in ["ff", "+FF", "0", "abc", "ffffffffffffffff", "10000000000000000", "", "+", "g1"] {
        assert_eq!(parse_hex_u64(s), u64::from_str_radix(s, 16).ok());
    }
}

#[test]
fn sixteen_hex_digits_parse_back() {
    for n in [0u64, 1, 255, 0xdead_beef, u64::MAX] {
        let mut s = String::new();
        push_hex16(&mut s, n);
        assert_eq!(s, format!("{:016x}", n));
        assert_eq!(parse_hex_u64(&s), Some(n));
    }
}

#[test]
fn live_ids_are_hashes_with_the_high_bit() {
    let a = string_to_live_id("room_screen");
    assert!(a >= 0x8000_0000_0000_0000);
    assert_eq!(a, makepad_live_id::LiveId::from_str("room_screen").0);
    assert_ne!(a, string_to_live_id("invite_screen"));
}
