use fuse_query::functions::like::filter_like;
use fuse_query::functions::like::like_bytes;

fn like(pattern: &str, text: &str) -> bool {
    like_bytes(pattern.as_bytes(), text.as_bytes())
}

fn names(list: &[&str]) -> Vec<String> {
    list.iter().map(|s| s.to_string()).collect()
}

#[test]
fn test_show_tables_like() {
    // SHOW TABLES LIKE 'a%' against a catalog that holds apples, bananas and avocado
    let tables = names(&["apples", "bananas", "avocado"]);
    assert_eq!(filter_like(&tables, "a%"), names(&["apples", "avocado"]));
    // an empty result is not an error
    assert_eq!(filter_like(&tables, "c%"), names(&[]));
    assert_eq!(filter_like(&tables, "%"), tables);
    assert_eq!(filter_like(&tables, "%an%"), names(&["bananas"]));
    assert_eq!(filter_like(&tables, "%s"), names(&["apples", "bananas"]));
    assert_eq!(filter_like(&tables, "a_o%"), names(&["avocado"]));
    assert_eq!(filter_like(&tables, "aaa"), names(&[]));
    assert_eq!(filter_like(&names(&[]), "a%"), names(&[]));
    assert_eq!(filter_like(&names(&["a", "b", "a"]), "a"), names(&["a", "a"]));
}

#[test]
fn test_like_literals() {
    assert!(like("", ""));
    assert!(!like("", "a"));
    assert!(!like("a", ""));
    assert!(like("abc", "abc"));
    assert!(!like("abc", "abd"));
    assert!(!like("abc", "ab"));
    assert!(!like("ab", "abc"));
    assert!(!like("abc", "ABC"));
}

#[test]
fn test_like_wildcards() {
    assert!(like("%", ""));
    assert!(like("%", "anything"));
    assert!(like("%%", ""));
    assert!(like("a%", "a"));
    assert!(like("a%", "abc"));
    assert!(!like("a%", "ba"));
    assert!(like("%a", "a"));
    assert!(like("%a", "bca"));
    assert!(!like("%a", "ab"));
    assert!(like("a%c", "ac"));
    assert!(like("a%c", "abbbc"));
    assert!(like("a%c", "acbc"));
    assert!(!like("a%c", "acb"));
    assert!(like("%a%a%", "banana"));
    assert!(!like("%a%a%a%a%", "banana"));
    assert!(like("_", "x"));
    assert!(!like("_", ""));
    assert!(!like("_", "xy"));
    assert!(like("a_c", "abc"));
    assert!(!like("a_c", "ac"));
    assert!(like("_%", "x"));
    assert!(!like("_%", ""));
    assert!(like("%_", "xyz"));
    assert!(like("__%__", "abcd"));
    assert!(!like("__%__", "abc"));
    assert!(like("ss%", "ss"));
    assert!(like("aaa", "aaa"));
    // a pattern that would need much backtracking
    assert!(!like("%a%a%a%a%a%a%a%a%b", &"a".repeat(40)));
    assert!(like("%a%a%a%a%a%a%a%a%b", &format!("{}b", "a".repeat(40))));
}

#[test]
fn test_like_matches_byte_by_byte() {
    // `_` stands for one byte: a letter of two bytes needs two of them
    assert!(!like("_", "é"));
    assert!(like("__", "é"));
    assert!(like("%é", "café"));
    assert!(like_bytes(&[0xff, b'%'], &[0xff, 0x00]));
    assert!(!like_bytes(&[0xff, b'%'], &[0xfe, 0x00]));
}
