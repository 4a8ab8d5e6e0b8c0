use antigravity::json::{insert_member, parse_json, Json};
use antigravity::text::{
    begins_with, contains_text, is_blank, is_white_space, join_texts, same_text, trimmed,
    write_integer, write_natural,
};

#[test]
fn white_space_is_that_of_unicode() {
    for c in '\0'..=char::MAX {
        assert_eq!(is_white_space(c), c.is_whitespace(), "{:?}", c);
    }
}

#[test]
fn texts_are_trimmed_and_compared() {
    for s in ["", " ", "a", " a b\t", "\u{3000}\u{e9}\u{85}", "\u{200b}"] {
        assert_eq!(trimmed(s), s.trim());
        assert_eq!(is_blank(s), s.trim().is_empty());
    }
    assert!(same_text("h\u{e9}", "h\u{e9}") && same_text("", ""));
    assert!(!same_text("a", "b") && !same_text("a", "ab"));
    assert!(begins_with("abc", "ab") && begins_with("a", "") && !begins_with("a", "ab"));
    assert!(!begins_with("xab", "ab"));
    assert!(contains_text("aab", "ab") && contains_text("", "") && contains_text("x", ""));
    assert!(!contains_text("ab", "ba") && !contains_text("a", "ab"));
    assert_eq!(join_texts(&vec!["a", "", "b"], ", "), "a, , b");
    assert_eq!(join_texts(&vec![], ", "), "");
}

#[test]
fn integers_are_written_in_decimal() {
    for n in [0, 9, 10, 11, 100, 12345, u64::MAX] {
        assert_eq!(write_natural(n), n.to_string());
    }
    for n in [0, -1, -10, 7, i64::MIN, i64::MAX] {
        assert_eq!(write_integer(n), n.to_string());
    }
}

#[test]
fn json_keeps_every_kind_of_value() {
    let v = parse_json(r#" {"n": null, "b": true, "i": -3, "f": 1.5, "s": "t", "a": [1, "x"],
        "o": {"s": "inner"}, "s": "last"} "#)
        .unwrap();
    assert!(matches!(v.get("n"), Some(Json::Null)));
    assert!(matches!(v.get("b"), Some(Json::Bool(true))));
    assert_eq!(v.get("i").unwrap().as_i64(), Some(-3));
    assert_eq!(v.get("f").unwrap().as_i64(), None);
    match v.get("f") {
        Some(Json::Number(n)) => assert_eq!(n.text, "1.5"),
        _ => panic!("no number"),
    }
    assert_eq!(v.get_str("s"), Some("last"));
    assert_eq!(v.get("a").unwrap().as_array().unwrap()[1].as_str(), Some("x"));
    assert_eq!(v.get("o").unwrap().get_str("s"), Some("inner"));
    assert!(v.get("zzz").is_none() && v.as_str().is_none() && v.as_array().is_none());
    assert!(parse_json("{").is_none() && parse_json("1 2").is_none() && parse_json("").is_none());
    let copy = v.clone();
    assert_eq!(copy.get("a").unwrap().as_array().unwrap()[0].as_i64(), Some(1));
    assert_eq!(copy.get_str("s"), Some("last"));
}

#[test]
fn members_are_replaced_or_added() {
    let mut members = vec![("a".to_string(), Json::Null)];
    insert_member(&mut members, "a", Json::Bool(true));
    insert_member(&mut members, "b", Json::Bool(false));
    assert_eq!(members.len(), 2);
    let object = Json::Object(members);
    assert!(matches!(object.get("a"), Some(Json::Bool(true))));
    assert!(matches!(object.get("b"), Some(Json::Bool(false))));
}
