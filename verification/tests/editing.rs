use agmawrite::editing::Continuation::{Break, Continue, Outdent};
use agmawrite::editing::{char_matches, continuation, try_continuation};

#[test]
fn continues_bullets_with_their_indent() {
    assert_eq!(continuation("- item"), Continue("- ".to_owned()));
    assert_eq!(continuation("* item"), Continue("* ".to_owned()));
    assert_eq!(continuation("+ item"), Continue("+ ".to_owned()));
    assert_eq!(continuation("  - nested"), Continue("  - ".to_owned()));
}

#[test]
fn continues_tasks_unchecked() {
    assert_eq!(continuation("- [ ] todo"), Continue("- [ ] ".to_owned()));
    assert_eq!(continuation("- [x] done"), Continue("- [ ] ".to_owned()));
    assert_eq!(continuation("* [X] done"), Continue("* [ ] ".to_owned()));
}

#[test]
fn continues_ordered_lists_incrementing() {
    assert_eq!(continuation("1. first"), Continue("2. ".to_owned()));
    assert_eq!(continuation("9) nine"), Continue("10) ".to_owned()));
    assert_eq!(continuation("  4. nested"), Continue("  5. ".to_owned()));
}

#[test]
fn empty_items_end_the_list() {
    assert_eq!(continuation("- "), Outdent(2));
    assert_eq!(continuation("  - "), Outdent(4));
    assert_eq!(continuation("- [ ] "), Outdent(6));
    assert_eq!(continuation("3. "), Outdent(3));
}

#[test]
fn plain_lines_break_plainly() {
    assert_eq!(continuation("plain"), Break);
    assert_eq!(continuation(""), Break);
    assert_eq!(continuation("> quote"), Break);
    assert_eq!(continuation("# heading"), Break);
    // Not markers without the trailing space.
    assert_eq!(continuation("-tight"), Break);
    assert_eq!(continuation("1.versioned"), Break);
}

#[test]
fn tabs_indent_items_and_empty_items_count_characters() {
    assert_eq!(continuation("\t- item"), Continue("\t- ".to_owned()));
    assert_eq!(continuation("- é"), Continue("- ".to_owned()));
    assert_eq!(continuation("é. x"), Break);
    assert_eq!(continuation("  1) \t"), Outdent(6));
}

#[test]
fn numbers_too_large_to_parse_restart_at_one() {
    assert_eq!(
        continuation("99999999999999999999999. item"),
        Continue("1. ".to_owned())
    );
}

#[test]
fn the_largest_number_has_no_successor() {
    let line = format!("{}. item", usize::MAX);
    assert_eq!(try_continuation(&line), None);
    assert_eq!(try_continuation("7. item"), Some(Continue("8. ".to_owned())));
}

#[test]
fn matches_ignore_ascii_case_and_never_overlap() {
    let text: Vec<char> = "aAaA".chars().collect();
    let query: Vec<char> = "aa".chars().collect();
    assert_eq!(char_matches(&text, &query), vec![(0, 2), (2, 4)]);

    let text: Vec<char> = "ÉÉ é".chars().collect();
    let query: Vec<char> = "é".chars().collect();
    assert_eq!(char_matches(&text, &query), vec![(3, 4)]);

    let empty: Vec<char> = Vec::new();
    assert!(char_matches(&text, &empty).is_empty());
}

/// Enter on the item just continued ends the list: the fresh prefix is
/// outdented whole.
#[test]
fn enter_twice_ends_the_list() {
    for line in ["  - item", "- [x] done", "9. nine", "\t* star"] {
        let prefix = match continuation(line) {
            Continue(prefix) => prefix,
            other => panic!("{line:?} continued as {other:?}"),
        };
        assert_eq!(continuation(&prefix), Outdent(prefix.chars().count()));
    }
    assert_eq!(continuation(""), Break);
}
