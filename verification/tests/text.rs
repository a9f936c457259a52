use bar::text::{chars_of, str_contains};

#[test]
fn contains_finds_runs() {
    assert!(str_contains("bluetooth", "tooth"));
    assert!(str_contains("bluetooth", ""));
    assert!(str_contains("", ""));
    assert!(!str_contains("", "a"));
    assert!(!str_contains("wifi", "wifi!"));
    assert!(!str_contains("power", "pw"));
    assert!(str_contains("power", "power"));
    assert!(str_contains("ééa", "éa"));
}

#[test]
fn chars_of_splits_characters() {
    assert_eq!(chars_of("aé\u{f0581}"), vec!['a', 'é', '\u{f0581}']);
    assert!(chars_of("").is_empty());
}
