use pyorion::text::{replace_all, same_text};
use pyorion::text_map::TextMap;

#[test]
fn same_text_compares_whole_strings() {
    assert!(same_text("", ""));
    assert!(same_text("ping", "ping"));
    assert!(!same_text("ping", "pong"));
    assert!(!same_text("ping", "pin"));
    assert!(same_text("żółw", "żółw"));
    assert!(!same_text("żółw", "zolw"));
}

#[test]
fn text_map_inserts_gets_and_removes() {
    let mut map: TextMap<i32> = TextMap::new();
    assert_eq!(map.get("a"), None);
    assert!(!map.contains_key("a"));
    assert_eq!(map.insert("a".to_string(), 1), None);
    assert_eq!(map.insert("b".to_string(), 2), None);
    assert_eq!(map.get("a"), Some(&1));
    assert_eq!(map.get("b"), Some(&2));
    assert_eq!(map.insert("a".to_string(), 3), Some(1));
    assert_eq!(map.get("a"), Some(&3));
    assert_eq!(map.remove("a"), Some(3));
    assert_eq!(map.remove("a"), None);
    assert_eq!(map.get("a"), None);
    assert_eq!(map.get("b"), Some(&2));
    assert!(map.contains_key("b"));
}

#[test]
fn replace_all_goes_from_left_to_right() {
    assert_eq!(replace_all("aaa", "aa", "b"), "ba");
    assert_eq!(replace_all("abcabc", "bc", "x"), "axax");
    assert_eq!(replace_all("abc", "", "x"), "abc");
    assert_eq!(replace_all("", "a", "x"), "");
    assert_eq!(replace_all("abc", "abcd", "x"), "abc");
    assert_eq!(replace_all("ab", "ab", ""), "");
    assert_eq!(replace_all("żółw-żółw", "ół", "o"), "żow-żow");
}
