use monero_node_module::node::normalise_url;
use monero_node_module::text::{
    comes_before, contains, decimal_text, from_first, is_white_space, strip_end, trim,
};

#[test]
fn white_space_is_unicodes() {
    for c in '\0'..=char::MAX {
        assert_eq!(is_white_space(c), c.is_whitespace(), "{c:?}");
    }
}

#[test]
fn trimming_takes_both_ends() {
    for s in ["", " ", "a", " a b ", "\u{3000}x\u{a0}", "\t\r\n", "é ", " \u{1f600}"] {
        assert_eq!(trim(s), s.trim());
    }
}

#[test]
fn slashes_are_stripped_from_the_end_only() {
    for s in ["", "/", "///", "a", "a/", "/a//", "http://x/y//"] {
        assert_eq!(strip_end(s, '/'), s.trim_end_matches('/'));
    }
}

#[test]
fn parts_are_found() {
    for (s, part) in [
        ("http://x", "://"),
        ("://", "://"),
        ("x:/", "://"),
        (":::///", "://"),
        ("", ""),
        ("a", ""),
        ("", "a"),
        ("::/:://", "://"),
    ] {
        assert_eq!(contains(s, part), s.contains(part), "{s} {part}");
    }
}

#[test]
fn the_rest_from_a_character() {
    assert_eq!(from_first("ab{c{d", '{'), Some("{c{d"));
    assert_eq!(from_first("{", '{'), Some("{"));
    assert_eq!(from_first("é{", '{'), Some("{"));
    assert_eq!(from_first("abc", '{'), None);
    assert_eq!(from_first("", '{'), None);
}

#[test]
fn the_order_is_that_of_strings() {
    let all = ["", "a", "ab", "b", "mainnet", "stagenet", "\u{e9}", "\u{ffff}", "\u{10000}"];
    for a in all {
        for b in all {
            assert_eq!(comes_before(a, b), a < b, "{a:?} {b:?}");
        }
    }
}

#[test]
fn numbers_are_decimal() {
    for n in [0, 7, 10, 42, -1, -32601, 1234567890, i64::MAX, i64::MIN] {
        assert_eq!(decimal_text(n), n.to_string());
    }
}

#[test]
fn urls_are_normalised() {
    assert_eq!(normalise_url("node.example:38089"), "http://node.example:38089");
    assert_eq!(normalise_url("  node.example:38089\n"), "http://node.example:38089");
    assert_eq!(normalise_url("https://my.node:443"), "https://my.node:443");
    assert_eq!(normalise_url("socks5h://x"), "socks5h://x");
    assert_eq!(normalise_url(" \t "), "");
    let once = normalise_url("host:1");
    assert_eq!(normalise_url(&once), once);
}
