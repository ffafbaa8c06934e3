use rebar::ids::WorkspaceIds;
use rebar::text::{parse_u8, push_decimal, str_eq, trim};

#[test]
fn trim_drops_unicode_white_space_at_both_ends() {
    assert_eq!(trim("  a b \t\n"), "a b");
    assert_eq!(trim("\u{3000}x\u{a0}"), "x");
    assert_eq!(trim("\u{2028}\u{85} y z\u{202f}"), "y z");
    assert_eq!(trim(""), "");
    assert_eq!(trim(" \t \r\n"), "");
    assert_eq!(trim("plain"), "plain");
}

#[test]
fn trim_agrees_with_std() {
    for s in ["  x ", "\u{1680}a\u{2000}", "a\u{200b}", "\u{feff}b", "\n{}\n", "  "] {
        assert_eq!(trim(s), s.trim());
    }
}

#[test]
fn parse_u8_accepts_what_std_accepts() {
    assert_eq!(parse_u8("7"), Some(7));
    assert_eq!(parse_u8("+7"), Some(7));
    assert_eq!(parse_u8("007"), Some(7));
    assert_eq!(parse_u8("0"), Some(0));
    assert_eq!(parse_u8("255"), Some(255));
    assert_eq!(parse_u8("000000000000000000255"), Some(255));
}

#[test]
fn parse_u8_refuses_what_std_refuses() {
    for s in ["", "+", "-", "-1", "-0", "256", "1000", "1a", " 1", "1 ", "++1", "\u{663}"] {
        assert_eq!(parse_u8(s), None, "{:?}", s);
        assert_eq!(s.parse::<u8>().ok(), None, "{:?}", s);
    }
}

#[test]
fn decimal_text_parses_back() {
    for n in 0..=255u8 {
        let mut s = String::new();
        push_decimal(&mut s, n as u32);
        assert_eq!(s, n.to_string());
        assert_eq!(parse_u8(&s), Some(n));
    }
    let mut s = String::from("x");
    push_decimal(&mut s, 4294967295);
    assert_eq!(s, "x4294967295");
}

#[test]
fn str_eq_compares_characters() {
    assert!(str_eq("window", "window"));
    assert!(!str_eq("window", "workspace"));
    assert!(!str_eq("", "a"));
}

#[test]
fn workspace_ids_insert_get_remove_clear() {
    let mut ids = WorkspaceIds::new();
    assert_eq!(ids.get("a"), None);
    ids.insert("a".to_string(), 1);
    ids.insert("b".to_string(), 2);
    assert_eq!(ids.get("a"), Some(1));
    assert_eq!(ids.get("b"), Some(2));
    ids.insert("a".to_string(), 5);
    assert_eq!(ids.get("a"), Some(5));
    ids.remove("a");
    assert_eq!(ids.get("a"), None);
    assert_eq!(ids.get("b"), Some(2));
    ids.remove("missing");
    assert_eq!(ids.get("b"), Some(2));
    ids.clear();
    assert_eq!(ids.get("b"), None);
}
