use lorewyld::slug::slugify;
use lorewyld::text::{
    blank, contains_str, decimal_string, join_strings, starts_with, str_eq, string_of, trim_str,
};

#[test]
fn slugify_lowercases_and_hyphenates() {
    assert_eq!(slugify("My World"), "my-world");
    assert_eq!(slugify("Tough"), "tough");
    assert_eq!(slugify("Brawler's Guide, 2nd Ed."), "brawler-s-guide-2nd-ed");
}

#[test]
fn slugify_collapses_runs_and_trims_edges() {
    assert_eq!(slugify("  Hello,   World!!  "), "hello-world");
    assert_eq!(slugify("--a--b--"), "a-b");
}

#[test]
fn slugify_drops_everything_but_ascii_letters_and_digits() {
    assert_eq!(slugify("Ünïcode Näme"), "n-code-n-me");
    assert_eq!(slugify("!!!"), "");
    assert_eq!(slugify(""), "");
    assert_eq!(slugify("日本語"), "");
}

#[test]
fn slugify_is_idempotent() {
    for name in ["My World", "  x  y  ", "Fire-Bolt!", "a1 B2 c3", "---"] {
        let once = slugify(name);
        assert_eq!(slugify(&once), once);
    }
}

#[test]
fn slug_of_a_slug_is_normal() {
    for name in ["Big Bad Wolf", "Zz9 -- Top", "x"] {
        let s = slugify(name);
        assert!(!s.starts_with('-'));
        assert!(!s.ends_with('-'));
        assert!(!s.contains("--"));
        assert!(s.chars().all(|c| c == '-' || c.is_ascii_lowercase() || c.is_ascii_digit()));
    }
}

#[test]
fn trim_and_blank_follow_unicode_white_space() {
    assert_eq!(trim_str("  a b \t\n"), "a b");
    assert_eq!(trim_str("\u{3000}x\u{00a0}"), "x");
    assert!(blank(" \t\r\n\u{2003}"));
    assert!(blank(""));
    assert!(!blank(" . "));
}

#[test]
fn string_helpers() {
    assert!(str_eq("abc", "abc"));
    assert!(!str_eq("abc", "abd"));
    assert!(starts_with("/compendium/spell", "/compendium"));
    assert!(!starts_with("/comp", "/compendium"));
    assert!(contains_str("UNIQUE constraint failed: users.email", "users.email"));
    assert!(!contains_str("users.emai", "users.email"));
    assert_eq!(decimal_string(0), "0");
    assert_eq!(decimal_string(18446744073709551615), "18446744073709551615");
    assert_eq!(
        join_strings(&vec!["a".to_string(), "b".to_string(), "c".to_string()], ", "),
        "a, b, c"
    );
    assert_eq!(join_strings(&vec![], ", "), "");
    assert_eq!(string_of(&vec!['h', 'é', '!']), "hé!");
}
