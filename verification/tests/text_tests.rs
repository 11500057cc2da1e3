use obs_relay::text::{split_char, str_contains, trim_str, u64_to_string};

#[test]
fn substring_search_matches_anywhere() {
    assert!(str_contains("opensuse.obs.package.build_success", "obs.package.build_success"));
    assert!(!str_contains("opensuse.obs.package.build_success", "obs.request.change"));
    assert!(str_contains("anything", ""));
    assert!(!str_contains("short", "much longer needle"));
}

#[test]
fn split_keeps_empty_segments() {
    let parts = split_char("a/b//c", '/');
    assert_eq!(parts, vec!["a", "b", "", "c"]);
    assert_eq!(split_char("no separator", '/'), vec!["no separator"]);
    assert_eq!(split_char("/", '/'), vec!["", ""]);
}

#[test]
fn trim_takes_whitespace_off_both_ends() {
    assert_eq!(trim_str("  mypkg\t\n"), "mypkg");
    assert_eq!(trim_str("untouched"), "untouched");
    assert_eq!(trim_str(" \t "), "");
}

#[test]
fn trim_covers_unicode_whitespace() {
    assert_eq!(trim_str("\u{00A0}mypkg\u{2003}"), "mypkg");
    assert_eq!(trim_str("\u{3000}\u{202F}x"), "x");
    assert_eq!(trim_str("my\u{00A0}proj"), "my\u{00A0}proj");
}

#[test]
fn decimal_rendering_is_exact() {
    assert_eq!(u64_to_string(0), "0");
    assert_eq!(u64_to_string(42), "42");
    assert_eq!(u64_to_string(18446744073709551615), "18446744073709551615");
}
