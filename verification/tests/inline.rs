use agmawrite::inline::{flanks_left, flanks_right, is_punctuation, is_punctuation_or_whitespace};

/// Letters and digits of any script are not punctuation; Unicode
/// whitespace is whitespace.
#[test]
fn punctuation_follows_unicode_classes() {
    assert!(is_punctuation('*'));
    assert!(!is_punctuation('é'));
    assert!(!is_punctuation('٣'));
    assert!(!is_punctuation('\u{2003}'));
    assert!(is_punctuation_or_whitespace('\u{2003}'));
    assert!(!is_punctuation_or_whitespace('ж'));
}

/// A delimiter between two non-ASCII letters flanks both ways; one after
/// an em space opens but does not close.
#[test]
fn flanking_reads_unicode_neighbours() {
    assert!(flanks_left(Some('é'), Some('ж')));
    assert!(flanks_right(Some('é'), Some('ж')));
    assert!(flanks_left(Some('\u{2003}'), Some('a')));
    assert!(!flanks_right(Some('\u{2003}'), Some('a')));
}
