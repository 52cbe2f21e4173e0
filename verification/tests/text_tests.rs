use mp4_player::text::{decimal_string, is_space, same_text, trim};
use mp4_player::uri::{cannot_resolve_message, looks_like_uri, playing_notice, to_uri, Resolution};

#[test]
fn decimal_string_writes_base_ten() {
    assert_eq!(decimal_string(0), "0");
    assert_eq!(decimal_string(7), "7");
    assert_eq!(decimal_string(9), "9");
    assert_eq!(decimal_string(10), "10");
    assert_eq!(decimal_string(15_000), "15000");
    assert_eq!(decimal_string(1_234_567_890), "1234567890");
    assert_eq!(decimal_string(u64::MAX), "18446744073709551615");
}

#[test]
fn decimal_string_agrees_with_the_standard_formatting() {
    let mut n: u64 = 1;
    for _ in 0..64 {
        assert_eq!(decimal_string(n), n.to_string());
        assert_eq!(decimal_string(n - 1), (n - 1).to_string());
        n = n.wrapping_mul(3).wrapping_add(1);
    }
}

#[test]
fn is_space_agrees_with_char_is_whitespace() {
    for n in 0u32..=0x11_0000 {
        if let Some(c) = char::from_u32(n) {
            assert_eq!(is_space(c), c.is_whitespace(), "code point {:#x}", n);
        }
    }
}

#[test]
fn trim_removes_white_space_at_both_ends_only() {
    assert_eq!(trim(""), "");
    assert_eq!(trim("   "), "");
    assert_eq!(trim("a"), "a");
    assert_eq!(trim("  a b  "), "a b");
    assert_eq!(trim("\t\r\nq\n"), "q");
    assert_eq!(trim("\u{2003}\u{e9}t\u{e9} \u{3000}"), "\u{e9}t\u{e9}");
    for s in ["", " ", " x", "x ", " x y ", "\u{85}p\u{a0}", "\u{feff}a"] {
        assert_eq!(trim(s), s.trim());
    }
}

#[test]
fn same_text_compares_characters() {
    assert!(same_text("", ""));
    assert!(same_text("/GstPlayBin:playbin0", "/GstPlayBin:playbin0"));
    assert!(!same_text("/GstPlayBin:playbin0", "/GstPlayBin:playbin1"));
    assert!(!same_text("a", "ab"));
}

#[test]
fn uri_inputs_pass_through_unchanged() {
    for s in ["file:///home/u/movie.mp4", "http://example.org/a b.mp4", "://", "x://", "a:b://c"] {
        assert!(looks_like_uri(s));
        assert_eq!(to_uri(s), Resolution::Uri(s.to_string()));
    }
}

#[test]
fn other_inputs_are_local_paths() {
    for s in ["movie.mp4", "/home/u/movie.mp4", "", ":", ":/", "c:/x/y", "a:/ /b", "//", "\u{e9}:/\u{e9}/"] {
        assert!(!looks_like_uri(s));
        assert_eq!(to_uri(s), Resolution::LocalPath);
    }
}

#[test]
fn looks_like_uri_agrees_with_contains() {
    for s in ["\u{e9}://x", "ab:/", "ab://", "a:///", "/:/:/", "::///", "\u{1f600}\u{1f600}://"] {
        assert_eq!(looks_like_uri(s), s.contains("://"));
    }
}

#[test]
fn playing_notice_names_the_uri() {
    assert_eq!(to_uri("movie.mp4"), Resolution::LocalPath);
    assert_eq!(
        playing_notice("file:///home/u/movie.mp4"),
        "Playing: file:///home/u/movie.mp4"
    );
}

#[test]
fn cannot_resolve_message_names_the_input() {
    assert_eq!(cannot_resolve_message("nope.mp4"), "Cannot resolve path: nope.mp4");
}
