use agmawrite::document::{
    clamp_position, enter_continuation, line_before, warning, DocumentState, Event, Message,
    SourceReplacement, Work,
};
use agmawrite::editing::Continuation;
use agmawrite::interaction::UnsavedAction;

fn path(text: &str) -> Vec<u8> {
    text.as_bytes().to_vec()
}

fn lines(text: &str) -> Vec<String> {
    text.split('\n').map(str::to_owned).collect()
}

/// The live text with `character` inserted at character `column`.
fn insert(live: &str, column: usize, character: char) -> String {
    let mut chars: Vec<char> = live.chars().collect();
    chars.insert(column, character);
    chars.into_iter().collect()
}

#[test]
fn external_replacement_preserves_and_clamps_the_cursor() {
    let mut document = DocumentState::new("first line\nsecond line\nthird line", None);
    let live = "first line\nsecond line\nthird line";

    let update = document.update(
        Message::ExternalRead(Some("changed\nstill here\nlast".to_owned())),
        live,
    );
    assert_eq!(
        update.event,
        Some(Event::SourceReplaced {
            reason: SourceReplacement::External
        })
    );
    let live = update.text.expect("replaced text");
    let replaced = lines(&live);
    assert_eq!(clamp_position(&replaced, 1, 6), (1, 6));
    assert_eq!(clamp_position(&replaced, 2, 5), (2, 4));

    let update = document.update(Message::ExternalRead(Some("short".to_owned())), &live);
    let live = update.text.expect("replaced text");
    let replaced = lines(&live);
    assert_eq!(clamp_position(&replaced, 1, 6), (0, 5));
    assert_eq!(clamp_position(&replaced, 2, 4), (0, 4));
    assert!(!document.is_modified(&live));

    // Reading back the text the editor already holds replaces nothing.
    let update = document.update(Message::ExternalRead(Some("short".to_owned())), &live);
    assert!(update.event.is_none());
    assert!(update.text.is_none());
}

#[test]
fn clamped_columns_land_on_character_boundaries() {
    let replaced = lines("héllo");
    // Byte 2 sits inside the two bytes of `é`.
    assert_eq!(clamp_position(&replaced, 0, 2), (0, 1));
    assert_eq!(clamp_position(&replaced, 0, 3), (0, 3));
    assert_eq!(clamp_position(&replaced, 0, 99), (0, 6));
    assert_eq!(clamp_position(&Vec::new(), 3, 3), (0, 0));
}

#[test]
fn modified_tracking_follows_load_save_and_edits() {
    let mut document = DocumentState::new("body", None);
    let live = "body".to_owned();
    assert!(!document.is_modified(&live));

    let live = insert(&live, 0, 'x');
    assert!(document.is_modified(&live));

    let snapshot = live.clone();
    document.update(Message::Saved(Ok(path("saved")), snapshot), &live);
    assert!(!document.is_modified(&live));

    let result = document.update(
        Message::OpenLoaded(Some((path("/tmp/a.md"), "other".to_owned()))),
        &live,
    );
    assert_eq!(
        result.event,
        Some(Event::SourceReplaced {
            reason: SourceReplacement::Loaded
        })
    );
    let live = result.text.expect("loaded text");
    assert_eq!(live, "other");
    assert!(!document.is_modified(&live));
    assert_eq!(document.path(), Some(&path("/tmp/a.md")));
}

#[test]
fn save_completion_baselines_the_exact_written_snapshot() {
    let mut document = DocumentState::new("draft", None);
    let live = insert("draft", 5, '!');
    let snapshot = live.clone();
    let live = insert(&live, 6, '?');

    document.update(Message::Saved(Ok(path("saved")), snapshot), &live);

    assert_eq!(live, "draft!?");
    assert!(document.is_modified(&live));
    assert_eq!(document.saved_contents(), "draft!");
}

#[test]
fn enter_continues_and_terminates_lists() {
    assert_eq!(
        enter_continuation("- item", 6),
        Some(Continuation::Continue("- ".to_owned()))
    );
    // On the continued line, Enter on the empty item ends the list.
    assert_eq!(enter_continuation("- ", 2), Some(Continuation::Outdent(2)));
    // Mid-line, only the text before the cursor counts.
    assert_eq!(line_before("- item", 3), "- i");
    assert_eq!(line_before("- item", 99), "- item");
    assert_eq!(enter_continuation("- item", 1), Some(Continuation::Break));
}

#[test]
fn guarded_open_cancels_discards_and_waits_for_a_clean_save() {
    let mut document = DocumentState::new("draft", Some(path("/tmp/document-open.md")));
    let live = insert("draft", 0, '!');

    let result = document.update(Message::OpenRequested, &live);
    assert_eq!(result.event, Some(Event::UnsavedVisibilityChanged(true)));
    assert_eq!(document.pending_action(), Some(UnsavedAction::OpenFile));

    let result = document.update(Message::UnsavedCancel, &live);
    assert_eq!(result.event, Some(Event::UnsavedVisibilityChanged(false)));
    assert!(document.pending_action().is_none());
    assert!(document.is_modified(&live));

    document.update(Message::OpenRequested, &live);
    let discarded = document.update(Message::UnsavedDiscard, &live);
    assert!(matches!(discarded.work, Work::PickAndOpen));
    assert!(document.pending_action().is_none());
    assert!(document.is_modified(&live));

    document.update(Message::OpenRequested, &live);
    let save = document.update(Message::UnsavedSave, &live);
    let snapshot = match save.work {
        Work::Save { path: target, snapshot } => {
            assert_eq!(target, path("/tmp/document-open.md"));
            snapshot
        }
        other => panic!("expected a save, got {other:?}"),
    };
    let result = document.update(Message::Saved(Ok(path("saved")), snapshot), &live);
    assert!(result.event.is_none());
    assert!(matches!(result.work, Work::PickAndOpen));
    assert!(document.pending_action().is_none());
    assert!(!document.is_modified(&live));
}

#[test]
fn guarded_open_reopens_when_edits_arrive_during_save() {
    let mut document = DocumentState::new("draft", Some(path("/tmp/document-stale.md")));
    let live = insert("draft", 5, '!');
    document.update(Message::OpenRequested, &live);
    document.update(Message::UnsavedSave, &live);
    let snapshot = live.clone();

    let live = insert(&live, 6, '?');
    let result = document.update(Message::Saved(Ok(path("saved")), snapshot), &live);

    assert_eq!(result.event, Some(Event::UnsavedVisibilityChanged(true)));
    assert_eq!(document.pending_action(), Some(UnsavedAction::OpenFile));
    assert_eq!(live, "draft!?");
    assert!(document.is_modified(&live));
}

#[test]
fn cancelling_save_path_drops_the_guarded_action() {
    let mut document = DocumentState::new("draft", None);
    let live = insert("draft", 0, '!');
    document.update(Message::OpenRequested, &live);
    let save = document.update(Message::UnsavedSave, &live);
    assert!(matches!(save.work, Work::PickSavePath));

    let result = document.update(Message::SavePathChosen(None), &live);

    assert_eq!(result.event, Some(Event::UnsavedVisibilityChanged(false)));
    assert!(document.pending_action().is_none());
    assert!(document.is_modified(&live));
}

#[test]
fn guarded_close_reopens_after_a_stale_save_and_closes_when_clean() {
    let id = 42;
    let mut document = DocumentState::new("draft", Some(path("/tmp/document-close.md")));
    let live = insert("draft", 5, '!');

    let result = document.update(Message::CloseRequested(id), &live);
    assert_eq!(result.event, Some(Event::UnsavedVisibilityChanged(true)));
    assert_eq!(
        document.pending_action(),
        Some(UnsavedAction::CloseWindow(id))
    );

    document.update(Message::UnsavedSave, &live);
    let snapshot = live.clone();
    let live = insert(&live, 6, '?');
    let stale = document.update(Message::Saved(Ok(path("saved")), snapshot), &live);
    assert_eq!(stale.event, Some(Event::UnsavedVisibilityChanged(true)));
    assert_eq!(
        document.pending_action(),
        Some(UnsavedAction::CloseWindow(id))
    );

    document.update(Message::UnsavedSave, &live);
    let snapshot = live.clone();
    let clean = document.update(Message::Saved(Ok(path("saved")), snapshot), &live);
    assert_eq!(clean.event, Some(Event::CloseWindow(id)));
    assert!(document.pending_action().is_none());
    assert!(!document.is_modified(&live));
}

#[test]
fn choosing_a_save_path_remembers_it_and_saves_the_live_text() {
    let mut document = DocumentState::new("", None);
    let save = document.update(Message::SaveRequested, "text");
    assert!(matches!(save.work, Work::PickSavePath));

    let chosen = document.update(Message::SavePathChosen(Some(path("/tmp/new.md"))), "text");
    match chosen.work {
        Work::Save { path: target, snapshot } => {
            assert_eq!(target, path("/tmp/new.md"));
            assert_eq!(snapshot, "text");
        }
        other => panic!("expected a save, got {other:?}"),
    }
    assert_eq!(document.path(), Some(&path("/tmp/new.md")));

    // A failed save hides the prompt and keeps the document modified.
    let failed = document.update(Message::Saved(Err("disk full".to_owned()), "text".to_owned()), "text");
    assert_eq!(failed.event, Some(Event::UnsavedVisibilityChanged(false)));
    assert!(document.is_modified("text"));
}

#[test]
fn outside_changes_are_read_only_for_documents_with_a_file() {
    let mut untitled = DocumentState::new("a", None);
    assert!(matches!(
        untitled.update(Message::ExternalChange, "a").work,
        Work::Nothing
    ));

    let mut saved = DocumentState::new("a", Some(path("/tmp/a.md")));
    match saved.update(Message::ExternalChange, "a").work {
        Work::ReadExternal { path: target } => assert_eq!(target, path("/tmp/a.md")),
        other => panic!("expected a read, got {other:?}"),
    }
    assert!(saved.update(Message::ExternalRead(None), "a").event.is_none());
}

#[test]
fn warning_describes_the_pending_action() {
    assert_eq!(
        warning(UnsavedAction::OpenFile),
        "The document has unsaved changes. Opening a new file will discard them."
    );
    assert_eq!(
        warning(UnsavedAction::CloseWindow(7)),
        "The document has unsaved changes. Close without saving?"
    );
}
