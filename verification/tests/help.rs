use agmawrite::help::{shortcuts, Help, Message};

#[test]
fn shortcut_vocabulary_includes_standard_editing_commands() {
    let table = shortcuts();
    for shortcut in ["Ctrl + A", "Ctrl + C", "Ctrl + X", "Ctrl + V"] {
        assert!(table.iter().any(|(key, _)| *key == shortcut));
    }
    assert_eq!(table[0].0, "Ctrl + ?");
}

#[test]
fn state_filters_and_clears_on_close() {
    let mut help = Help::new();
    help.update(Message::QueryChanged("gg".to_owned()));
    assert_eq!(help.query(), "gg");

    help.update(Message::Close);
    assert_eq!(help.query(), "");
}

#[test]
fn search_matches_both_columns_case_insensitively() {
    assert_eq!(agmawrite::help::matches("").len(), shortcuts().len());

    for query in ["preview", "PREVIEW", "Ctrl"] {
        assert!(!agmawrite::help::matches(query).is_empty());
    }
    assert!(agmawrite::help::matches("sidebar")
        .iter()
        .all(|(_, description)| description.to_lowercase().contains("sidebar")));
    assert!(agmawrite::help::matches("page up")
        .iter()
        .any(|(key, _)| key.to_lowercase().contains("page up")));
    assert!(agmawrite::help::matches("no shortcut has this text").is_empty());
}

#[test]
fn opening_and_pressing_cards_keep_the_query() {
    let mut help = Help::new();
    help.update(Message::QueryChanged("find".to_owned()));
    help.update(Message::Open);
    help.update(Message::CardPressed);
    assert_eq!(help.query(), "find");
}

#[test]
fn matches_keep_the_table_order() {
    let found = agmawrite::help::matches("enter");
    let table = shortcuts();
    let positions: Vec<usize> = found
        .iter()
        .map(|row| table.iter().position(|other| other == row).unwrap())
        .collect();
    let mut sorted = positions.clone();
    sorted.sort();
    assert_eq!(positions, sorted);
    assert_eq!(found.len(), 7);
}

/// Search ignores ASCII case and finds nothing for text in no row.
#[test]
fn search_ignores_case_and_misses_unknown_text() {
    let upper = agmawrite::help::matches("PREVIEW");
    assert_eq!(upper, agmawrite::help::matches("preview"));
    assert!(!upper.is_empty());
    assert!(agmawrite::help::matches("no shortcut has this text").is_empty());
    assert_eq!(agmawrite::help::matches("").len(), shortcuts().len());
}
