use incant::text::{contains, decimal, join_path, lines_of, pad_right, same_text, split_on, trim};

#[test]
fn trim_strips_unicode_white_space() {
    assert_eq!(trim("  hello world \n"), "hello world");
    assert_eq!(trim("\u{3000}\u{a0}x\u{2003}"), "x");
    assert_eq!(trim(" \t\r\n "), "");
    assert_eq!(trim(""), "");
    assert_eq!(trim("a b"), "a b");
    for s in ["  a\tb  ", "\u{85}text\u{2029}", "x", "   "] {
        assert_eq!(trim(s), s.trim());
    }
}

#[test]
fn split_matches_std() {
    for s in ["", "a", "a\nb", "\n", "a\n\nb\n", "\nx"] {
        let expected: Vec<String> = s.split('\n').map(|p| p.to_string()).collect();
        assert_eq!(split_on(s, '\n'), expected);
    }
}

#[test]
fn lines_match_std() {
    for s in ["", "a", "a\nb", "a\n", "a\r\nb\r\n", "x\r", "\n\n", "one\r\n\r\ntwo"] {
        let expected: Vec<String> = s.lines().map(|p| p.to_string()).collect();
        assert_eq!(lines_of(s), expected);
    }
}

#[test]
fn contains_finds_substrings() {
    assert!(contains("alsa_input.pci", "input"));
    assert!(!contains("alsa_output.pci", "input"));
    assert!(contains("abc", ""));
    assert!(!contains("", "a"));
    assert!(contains("{\"ok\":true,\"message\":\"pong\"}", "\"ok\":true"));
}

#[test]
fn same_text_compares_characters() {
    assert!(same_text("wtype", "wtype"));
    assert!(!same_text("wtype", "wtyp"));
    assert!(!same_text("dotool", "DOTOOL"));
}

#[test]
fn pad_right_matches_format() {
    assert_eq!(pad_right("abc", 6), format!("{:<6}", "abc"));
    assert_eq!(pad_right("Wayland display", 28), format!("{:<28}", "Wayland display"));
    assert_eq!(pad_right("too long for it", 4), "too long for it");
}

#[test]
fn decimal_matches_to_string() {
    for n in [0u64, 7, 10, 42, 1000, 8000, u64::MAX] {
        assert_eq!(decimal(n), n.to_string());
    }
}

#[test]
fn join_path_inserts_one_separator() {
    assert_eq!(join_path("/tmp", "incant/daemon.sock"), "/tmp/incant/daemon.sock");
    assert_eq!(join_path("/tmp/", "x"), "/tmp/x");
    assert_eq!(join_path("", "incant-overlay"), "incant-overlay");
}
