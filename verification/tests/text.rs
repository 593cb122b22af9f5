use netwatch_core::paths::join_path;
use netwatch_core::storage_mount::mount_from_findmnt;
use netwatch_core::text::{
    contains_char, join_spaced_from, lines, normalize_mac_text, parse_u64, same_text,
    split_whitespace, starts_with, trim, white_space,
};

#[test]
fn trims_unicode_whitespace_like_std() {
    for s in [
        "",
        "   ",
        "  abc  ",
        "\t\nabc\r\n",
        "\u{a0}x y\u{3000}",
        "\u{2000}\u{200a}z\u{85}",
        "no-space",
    ] {
        assert_eq!(trim(s), s.trim(), "input {:?}", s);
    }
}

#[test]
fn whitespace_matches_std() {
    for c in ['\t', '\n', '\u{b}', '\u{c}', '\r', ' ', '\u{85}', '\u{a0}', '\u{1680}', '\u{2000}',
        '\u{2005}', '\u{200a}', '\u{2028}', '\u{2029}', '\u{202f}', '\u{205f}', '\u{3000}', 'a',
        '\u{200b}', '\u{180e}', '0', '\u{feff}']
    {
        assert_eq!(white_space(c), c.is_whitespace(), "char {:?}", c);
    }
}

#[test]
fn splits_words_like_std() {
    for s in ["", "  ", "a", " a  b\tc\n", "192.168.1.1\taa:bb\tVendor Inc.", "x\u{a0}y"] {
        let expected: Vec<String> = s.split_whitespace().map(|w| w.to_string()).collect();
        assert_eq!(split_whitespace(s), expected, "input {:?}", s);
    }
}

#[test]
fn splits_lines_like_std() {
    for s in ["", "a", "a\n", "a\nb", "a\r\nb\r\n", "\n\n", "x\r", "a\rb\n", "\r\n"] {
        let expected: Vec<String> = s.lines().map(|l| l.to_string()).collect();
        assert_eq!(lines(s), expected, "input {:?}", s);
    }
}

#[test]
fn parses_unsigned_numbers_like_std() {
    for s in [
        "0",
        "42",
        "+7",
        "",
        "+",
        "-1",
        "-0",
        "12a",
        " 1",
        "18446744073709551615",
        "18446744073709551616",
        "99999999999999999999x",
        "000123",
    ] {
        assert_eq!(parse_u64(s), s.parse::<u64>().ok(), "input {:?}", s);
    }
}

#[test]
fn prefixes_and_characters() {
    assert!(starts_with("Interface: eth0", "Interface"));
    assert!(!starts_with("Inter", "Interface"));
    assert!(starts_with("abc", ""));
    assert!(contains_char("aa:bb", ':'));
    assert!(!contains_char("aabb", ':'));
    assert!(same_text("lo", "lo"));
    assert!(!same_text("lo", "lo0"));
}

#[test]
fn uppercases_like_std() {
    assert_eq!(normalize_mac_text("aa:bb:cc:0d:ee:ff"), "AA:BB:CC:0D:EE:FF");
    assert_eq!(normalize_mac_text(" straße "), "STRASSE");
    assert_eq!(normalize_mac_text("  a1:b2:c3:d4:e5:f6\n"), "A1:B2:C3:D4:E5:F6");
}

#[test]
fn decodes_bytes_lossily() {
    let plain = mount_from_findmnt(true, b"/mnt/plain\n").unwrap();
    assert_eq!(plain.mount_point, "/mnt/plain");
    let broken = mount_from_findmnt(true, &[b'/', b'm', 0xff, b'x']).unwrap();
    assert_eq!(broken.mount_point, "/m\u{fffd}x");
}

#[test]
fn joins_words_with_single_spaces() {
    let parts: Vec<String> = ["a", "b", "Vendor", "Inc."].iter().map(|s| s.to_string()).collect();
    assert_eq!(join_spaced_from(&parts, 2), "Vendor Inc.");
    assert_eq!(join_spaced_from(&parts, 4), "");
    assert_eq!(join_spaced_from(&parts, 0), "a b Vendor Inc.");
}

#[test]
fn joins_paths_like_std() {
    for (base, name) in [("/a/b", "c"), ("/a/b/", "c"), ("", "c"), ("/", "config.toml")] {
        let expected = std::path::Path::new(base).join(name);
        assert_eq!(join_path(base, name), expected.to_str().unwrap());
    }
}

