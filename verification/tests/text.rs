use cm_launcher::text::{
    eq_ignore_ascii_case, from_chars, has_prefix, has_substring, has_suffix, join, position_of,
    i64_to_decimal, replaced, split, str_eq, to_chars, to_u32, trim, u64_to_decimal,
    without_prefix,
};

#[test]
fn chars_round_trip() {
    let s = "héllo wörld";
    assert_eq!(from_chars(&to_chars(s)), s);
    assert_eq!(to_chars("ab"), vec!['a', 'b']);
}

#[test]
fn split_matches_std() {
    for s in ["", "a", "a.b", ".a", "a.", "..", "516.1684", "a.b.c"] {
        let want: Vec<String> = s.split('.').map(|p| p.to_string()).collect();
        assert_eq!(split(s, '.'), want);
    }
}

#[test]
fn join_matches_std() {
    let parts = vec!["a".to_string(), "".to_string(), "c".to_string()];
    assert_eq!(join(&parts, "&"), "a&&c");
    assert_eq!(join(&Vec::new(), "&"), "");
    assert_eq!(join(&vec!["x".to_string()], ", "), "x");
}

#[test]
fn prefix_suffix_substring() {
    assert!(has_prefix("wine-10.5", "wine-"));
    assert!(!has_prefix("win", "wine-"));
    assert!(has_prefix("abc", ""));
    assert!(has_suffix("dir/", "/"));
    assert!(!has_suffix("dir", "/"));
    assert!(has_substring("/opt/CM-SS13/bin", "CM-SS13"));
    assert!(!has_substring("/usr/bin", "CM-SS13"));
    assert!(has_substring("abc", ""));
    assert_eq!(without_prefix("byond://host:1", "byond://"), Some("host:1".to_string()));
    assert_eq!(without_prefix("host:1", "byond://"), None);
}

#[test]
fn replace_and_compare() {
    assert_eq!(replaced("Alpha+Colony", '+', ' '), "Alpha Colony");
    assert!(str_eq("a", "a"));
    assert!(!str_eq("a", "A"));
    assert!(eq_ignore_ascii_case("ABCdef09", "abcDEF09"));
    assert!(!eq_ignore_ascii_case("abc", "abd"));
    assert!(!eq_ignore_ascii_case("abc", "abcd"));
    assert!(!eq_ignore_ascii_case("@", "`"));
}

#[test]
fn numbers_read_and_written() {
    assert_eq!(to_u32("0"), Some(0));
    assert_eq!(to_u32("+17"), Some(17));
    assert_eq!(to_u32("007"), Some(7));
    assert_eq!(to_u32("4294967295"), Some(u32::MAX));
    assert_eq!(to_u32("4294967296"), None);
    assert_eq!(to_u32(""), None);
    assert_eq!(to_u32("+"), None);
    assert_eq!(to_u32("-1"), None);
    assert_eq!(to_u32("1a"), None);
    for s in ["0", "+17", "007", "4294967295", "4294967296", "", "+", "-1", "1a", " 1", "１"] {
        assert_eq!(to_u32(s), s.parse::<u32>().ok());
    }
    assert_eq!(u64_to_decimal(0), "0");
    assert_eq!(u64_to_decimal(10), "10");
    assert_eq!(u64_to_decimal(u64::MAX), u64::MAX.to_string());
}

#[test]
fn first_position_is_found() {
    let keys = vec!["b".to_string(), "a".to_string(), "a".to_string()];
    assert_eq!(position_of(&keys, "a"), Some(1));
    assert_eq!(position_of(&keys, "c"), None);
}

#[test]
fn trim_matches_std_for_every_kind_of_white_space() {
    for code in 0u32..0x3100 {
        if let Some(c) = char::from_u32(code) {
            let s = format!("{}{}a{}b{}", c, c, c, c);
            assert_eq!(trim(&s), s.trim(), "U+{:04X}", code);
        }
    }
    assert_eq!(trim("  wine-10.5 \r\n"), "wine-10.5");
    assert_eq!(trim(""), "");
    assert_eq!(trim(" \t\n"), "");
    assert_eq!(trim("a"), "a");
}

#[test]
fn signed_numbers_are_written() {
    for n in [0i64, 1, -1, 42, -42, i64::MAX, i64::MIN] {
        assert_eq!(i64_to_decimal(n), n.to_string());
    }
}
