use clip_history::matching::{contains_ignoring_case, fold, matches_at, same_bytes, same_text};

#[test]
fn folding_lowers_ascii_capitals_only() {
    assert_eq!(fold(b'A'), b'a');
    assert_eq!(fold(b'Z'), b'z');
    assert_eq!(fold(b'M'), b'm');
    assert_eq!(fold(b'a'), b'a');
    assert_eq!(fold(b'z'), b'z');
    assert_eq!(fold(b'@'), b'@');
    assert_eq!(fold(b'['), b'[');
    assert_eq!(fold(b'0'), b'0');
    assert_eq!(fold(0), 0);
    assert_eq!(fold(0xc4), 0xc4);
    assert_eq!(fold(0xff), 0xff);
}

#[test]
fn a_needle_is_found_wherever_it_lies() {
    assert!(contains_ignoring_case(b"hello world", b"hello"));
    assert!(contains_ignoring_case(b"hello world", b"o w"));
    assert!(contains_ignoring_case(b"hello world", b"world"));
    assert!(contains_ignoring_case(b"hello world", b"hello world"));
    assert!(!contains_ignoring_case(b"hello world", b"hello world!"));
    assert!(!contains_ignoring_case(b"hello world", b"worlds"));
    assert!(!contains_ignoring_case(b"hello", b"hex"));
    assert!(!contains_ignoring_case(b"", b"a"));
}

#[test]
fn the_empty_needle_is_found_everywhere() {
    assert!(contains_ignoring_case(b"", b""));
    assert!(contains_ignoring_case(b"abc", b""));
}

#[test]
fn the_case_of_ascii_letters_is_ignored_both_ways() {
    assert!(contains_ignoring_case(b"Hello World", b"hello"));
    assert!(contains_ignoring_case(b"hello world", b"WORLD"));
    assert!(contains_ignoring_case(b"HeLLo", b"hEllO"));
    assert!(!contains_ignoring_case(b"a@b", b"a`b"));
    assert!(!contains_ignoring_case(b"a[b", b"a{b"));
}

#[test]
fn a_needle_is_matched_at_an_offset() {
    assert!(matches_at(b"xxABCxx", b"abc", 2));
    assert!(!matches_at(b"xxABCxx", b"abc", 1));
    assert!(matches_at(b"abc", b"", 3));
    assert!(matches_at(b"abc", b"C", 2));
}

#[test]
fn byte_strings_and_texts_are_compared_exactly() {
    assert!(same_bytes(b"abc", b"abc"));
    assert!(same_bytes(b"", b""));
    assert!(!same_bytes(b"abc", b"abd"));
    assert!(!same_bytes(b"abc", b"ab"));
    assert!(!same_bytes(b"abc", b"ABC"));
    assert!(same_text("TEXT", "TEXT"));
    assert!(same_text("é", "é"));
    assert!(!same_text("TEXT", "text"));
    assert!(!same_text("TEXT", "TEXT "));
}
