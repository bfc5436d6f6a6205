use cmi::strutil::{
    contains_str, ensure_trailing_slash, find_char_from, has_prefix, has_suffix, replace_all,
    rfind_char, str_eq, trim_char, trim_ws, u64_to_dec,
};

#[test]
fn string_equality_is_by_characters() {
    assert!(str_eq("abc", "abc"));
    assert!(!str_eq("abc", "abd"));
    assert!(!str_eq("abc", "ab"));
    assert!(str_eq("", ""));
}

#[test]
fn prefix_suffix_and_containment() {
    assert!(has_prefix("vmlinuz-linux", "vmlinuz"));
    assert!(!has_prefix("linux", "vmlinuz"));
    assert!(has_suffix("live.iso", ".iso"));
    assert!(!has_suffix("iso", ".iso"));
    assert!(contains_str("cachyos", "chy"));
    assert!(!contains_str("cachyos", "arch"));
    assert!(contains_str("anything", ""));
}

#[test]
fn character_search_from_both_ends() {
    assert_eq!(find_char_from("a=b=c", 0, '='), Some(1));
    assert_eq!(find_char_from("a=b=c", 2, '='), Some(3));
    assert_eq!(find_char_from("abc", 0, '='), None);
    assert_eq!(rfind_char("/boot/vmlinuz", '/'), Some(5));
    assert_eq!(rfind_char("vmlinuz", '/'), None);
}

#[test]
fn replacement_is_left_to_right_and_non_overlapping() {
    assert_eq!(replace_all("$USER/$USER", "$USER", "bob"), "bob/bob");
    assert_eq!(replace_all("aaa", "aa", "b"), "ba");
    assert_eq!(replace_all("none", "$USER", "bob"), "none");
    assert_eq!(replace_all("~", "~", "/home/bob"), "/home/bob");
    assert_eq!(replace_all("x", "", "y"), "x");
}

#[test]
fn trailing_slash_is_idempotent() {
    assert_eq!(ensure_trailing_slash("/a/b"), "/a/b/");
    assert_eq!(ensure_trailing_slash("/a/b/"), "/a/b/");
    assert_eq!(ensure_trailing_slash(""), "/");
}

#[test]
fn trimming_removes_only_the_ends() {
    assert_eq!(trim_ws("  a b \n"), "a b");
    assert_eq!(trim_ws("\t\r\n "), "");
    assert_eq!(trim_ws("ab"), "ab");
    assert_eq!(trim_char("\"12.4\"", '"'), "12.4");
    assert_eq!(trim_char("\"\"x\"\"", '"'), "x");
    assert_eq!(trim_char("\"\"", '"'), "");
}

#[test]
fn decimal_writing_matches_the_usual_notation() {
    assert_eq!(u64_to_dec(0), "0");
    assert_eq!(u64_to_dec(7), "7");
    assert_eq!(u64_to_dec(1073741824), "1073741824");
    assert_eq!(u64_to_dec(u64::MAX), "18446744073709551615");
}
