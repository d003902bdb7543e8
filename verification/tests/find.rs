use agmawrite::find::{counter, preview_matches, CounterTone, Find, Way};
use agmawrite::preview::PreviewElement;

fn element(text: &str) -> PreviewElement {
    PreviewElement {
        text: text.to_owned(),
        source_start: 0,
        source_end: text.len(),
    }
}

/// The find state walks the match list: selecting restarts at the first
/// match, next/previous step and wrap around, and a stale index clamps to
/// the live match count.
#[test]
fn the_current_match_walks_and_wraps() {
    let mut find = Find::new();
    assert_eq!(find.query(), "");
    assert!(!find.is_active());

    find.set_query("word");
    assert_eq!(find.query(), "word");
    assert!(find.is_active());

    assert_eq!(find.current(3), None);
    assert_eq!(find.select(Way::First, 3), Some(0));
    assert_eq!(find.current(3), Some(0));
    assert_eq!(find.select(Way::Next, 3), Some(1));
    assert_eq!(find.select(Way::Next, 3), Some(2));
    assert_eq!(find.select(Way::Next, 3), Some(0)); // wraps
    assert_eq!(find.select(Way::Previous, 3), Some(2)); // wraps back
    assert_eq!(find.select(Way::Previous, 3), Some(1));

    // A stale index clamps to the live count as matches shift under it.
    assert_eq!(find.select(Way::First, 5), Some(0));
    find.select(Way::Next, 5);
    find.select(Way::Next, 5);
    find.select(Way::Next, 5); // current = 3
    assert_eq!(find.current(2), Some(1));

    // No matches: nothing to select, in any direction.
    assert_eq!(find.select(Way::First, 0), None);
    assert_eq!(find.select(Way::Next, 0), None);
    assert_eq!(find.select(Way::Previous, 0), None);

    // Retyping restarts from the first match.
    find.set_query("other");
    assert_eq!(find.current(4), None);
    assert_eq!(find.select(Way::Next, 4), Some(0));
}

/// Matches enumerate across the preview elements in document order —
/// element index and grapheme range — case-insensitively.
#[test]
fn preview_matches_walk_elements_in_order() {
    let elements = vec![element("one two"), element("three ONE")];

    assert_eq!(
        preview_matches(&elements, "one"),
        vec![(0, (0, 3)), (1, (6, 9))]
    );
    assert!(preview_matches(&elements, "zzz").is_empty());
    assert!(preview_matches(&elements, "").is_empty());
}

#[test]
fn preview_matches_count_graphemes_not_characters() {
    let elements = vec![element("e\u{301}x ex")];
    assert_eq!(preview_matches(&elements, "ex"), vec![(0, (3, 5))]);
    assert_eq!(preview_matches(&elements, "x"), vec![(0, (1, 2)), (0, (4, 5))]);
}

#[test]
fn preview_selection_walks_the_matches_of_every_element() {
    let elements = vec![element("one two"), element("three ONE")];
    let mut find = Find::new();

    // Nothing selects while the query is empty.
    assert_eq!(find.select_preview(Way::First, &elements), None);

    find.set_query("one");
    assert_eq!(find.current_preview_match(&elements), None);
    assert_eq!(find.select_preview(Way::First, &elements), Some((0, (0, 3))));
    assert_eq!(find.select_preview(Way::Next, &elements), Some((1, (6, 9))));
    assert_eq!(find.current_preview_match(&elements), Some((1, (6, 9))));
    assert_eq!(find.select_preview(Way::Next, &elements), Some((0, (0, 3))));
    assert_eq!(find.select_preview(Way::Previous, &elements), Some((1, (6, 9))));

    // Fewer matches now: the stale index clamps to the last one.
    let fewer = vec![element("one")];
    assert_eq!(find.current_preview_match(&fewer), Some((0, (0, 3))));
    assert_eq!(find.current_preview_match(&Vec::new()), None);
}

/// The counter reads nothing for an empty query, warns when nothing
/// matched, and otherwise shows the current match over the total.
#[test]
fn counter_shows_position_among_matches() {
    let mut find = Find::new();
    assert_eq!(counter(&find, 3), None);

    find.set_query("fox");
    assert_eq!(
        counter(&find, 0),
        Some(("no match".to_owned(), CounterTone::Unmatched))
    );
    assert_eq!(counter(&find, 12), Some(("1/12".to_owned(), CounterTone::Counted)));

    find.select(Way::Next, 12);
    find.select(Way::Next, 12);
    assert_eq!(counter(&find, 12), Some(("2/12".to_owned(), CounterTone::Counted)));

    // A stale index clamps to the last live match.
    assert_eq!(counter(&find, 1), Some(("1/1".to_owned(), CounterTone::Counted)));
}

/// The counter hides for an empty query, reports a missing match, and
/// otherwise shows the current match over the total — here for the two
/// matches of `one` in `one two one`.
#[test]
fn counter_is_hidden_empty_and_reports_missing_and_current_matches() {
    let mut find = Find::new();
    assert!(counter(&find, 0).is_none());

    find.set_query("missing");
    find.select(Way::First, 0);
    assert_eq!(counter(&find, 0).map(|value| value.0), Some("no match".to_owned()));

    find.set_query("one");
    find.select(Way::First, 2);
    assert_eq!(counter(&find, 2).map(|value| value.0), Some("1/2".to_owned()));

    find.select(Way::Next, 2);
    assert_eq!(counter(&find, 2).map(|value| value.0), Some("2/2".to_owned()));
}

/// `total` successive Next selections come back to the match they
/// started from.
#[test]
fn next_wraps_back_to_the_start() {
    let mut find = Find::new();
    find.set_query("x");
    assert_eq!(find.select(Way::First, 4), Some(0));
    find.select(Way::Next, 4);
    let start = find.current(4);
    assert_eq!(start, Some(1));
    for _ in 0..4 {
        find.select(Way::Next, 4);
    }
    assert_eq!(find.current(4), start);
    assert_eq!(find.select(Way::Previous, 4), Some(0));
}
