use martin::string_map::StringMap;
use martin::text::{contains_str, lower_char, push_decimal, starts_with};

#[test]
fn decimal_notation() {
    for (n, text) in [
        (0u128, "0"),
        (7, "7"),
        (10, "10"),
        (109, "109"),
        (4096, "4096"),
        (u128::MAX, "340282366920938463463374607431768211455"),
    ] {
        let mut out = String::from("x");
        push_decimal(&mut out, n);
        assert_eq!(out, format!("x{text}"));
    }
}

#[test]
fn starts_with_prefix() {
    assert!(starts_with("postgres://x", "postgres://"));
    assert!(starts_with("abc", ""));
    assert!(starts_with("abc", "abc"));
    assert!(!starts_with("ab", "abc"));
    assert!(!starts_with("xbc", "abc"));
    assert!(starts_with("ñandú", "ñan"));
}

#[test]
fn lower_char_ascii_only() {
    assert_eq!(lower_char('A'), 'a');
    assert_eq!(lower_char('Z'), 'z');
    assert_eq!(lower_char('q'), 'q');
    assert_eq!(lower_char('['), '[');
    assert_eq!(lower_char('@'), '@');
    assert_eq!(lower_char('É'), 'É');
}

#[test]
fn contains_str_exact() {
    let list = vec!["a".to_string(), "bc".to_string()];
    assert!(contains_str(&list, "bc"));
    assert!(!contains_str(&list, "b"));
    assert!(!contains_str(&Vec::new(), ""));
}

#[test]
fn string_map_insert_and_get() {
    let mut m = StringMap::new();
    assert_eq!(m.len(), 0);
    assert_eq!(m.get("a"), None);
    m.insert("a".to_string(), "1".to_string());
    m.insert("b".to_string(), "2".to_string());
    assert_eq!(m.get("a"), Some(&"1".to_string()));
    assert_eq!(m.get("b"), Some(&"2".to_string()));
    assert_eq!(m.len(), 2);
    m.insert("a".to_string(), "3".to_string());
    assert_eq!(m.get("a"), Some(&"3".to_string()));
    assert_eq!(m.len(), 2);
    assert_eq!(m.entry(0), (&"a".to_string(), &"3".to_string()));
    assert_eq!(m.entry(1), (&"b".to_string(), &"2".to_string()));
    assert_eq!(m.get("c"), None);
}

#[test]
fn string_map_equality_ignores_order() {
    let pairs = |list: &[(&str, &str)]| -> Vec<(String, String)> {
        list.iter().map(|(k, v)| (k.to_string(), v.to_string())).collect()
    };
    let ab = StringMap::from_pairs(&pairs(&[("a", "1"), ("b", "2")]));
    let ba = StringMap::from_pairs(&pairs(&[("b", "2"), ("a", "1")]));
    assert_eq!(ab, ba);
    assert_eq!(ab.entry(0).0, "a");
    assert_eq!(ba.entry(0).0, "b");
    assert_ne!(ab, StringMap::from_pairs(&pairs(&[("a", "1")])));
    assert_ne!(ab, StringMap::from_pairs(&pairs(&[("a", "1"), ("b", "3")])));
    assert_ne!(ab, StringMap::from_pairs(&pairs(&[("a", "1"), ("c", "2")])));
    assert_eq!(StringMap::new(), StringMap::from_pairs(&Vec::new()));
    let later_wins = StringMap::from_pairs(&pairs(&[("a", "0"), ("b", "2"), ("a", "1")]));
    assert_eq!(later_wins, ab);
    assert_eq!(later_wins.len(), 2);
    assert_eq!(ab.duplicate(), ab);
}
