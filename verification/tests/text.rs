use ga::text::{blank, contains_str};

#[test]
fn empty_string_is_blank() {
    assert!(blank(""));
}

#[test]
fn whitespace_only_is_blank() {
    assert!(blank(" \t\r\n"));
    assert!(blank("   "));
}

#[test]
fn unicode_whitespace_is_blank() {
    // no-break space, em space, ideographic space
    assert!(blank("\u{a0}\u{2003}\u{3000}"));
}

#[test]
fn text_is_not_blank() {
    assert!(!blank("fix bug"));
    assert!(!blank("  x  "));
    assert!(!blank("."));
}

#[test]
fn contains_finds_needle_in_middle() {
    assert!(contains_str(
        "On branch main: nothing to commit, working tree clean",
        "nothing to commit"
    ));
}

#[test]
fn contains_finds_needle_at_start_and_end() {
    assert!(contains_str("nothing to commit here", "nothing to commit"));
    assert!(contains_str("error: nothing to commit", "nothing to commit"));
    assert!(contains_str("abc", "abc"));
}

#[test]
fn contains_rejects_absent_needle() {
    assert!(!contains_str("remote rejected the push", "nothing to commit"));
    assert!(!contains_str("nothing to commi", "nothing to commit"));
    assert!(!contains_str("", "nothing to commit"));
}

#[test]
fn contains_empty_needle_always_occurs() {
    assert!(contains_str("anything", ""));
    assert!(contains_str("", ""));
}

#[test]
fn contains_handles_repeated_prefixes() {
    assert!(contains_str("aaab", "aab"));
    assert!(!contains_str("aaab", "abb"));
}
