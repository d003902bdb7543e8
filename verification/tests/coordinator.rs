use agmawrite::bindings::InputMessage;
use agmawrite::command::{Command, DocumentCommand, PreviewCommand};
use agmawrite::comment_workflow::Message as CommentsMessage;
use agmawrite::coordinator::{AppMessage, AppState, DialogStep, FindMessage, FindSelection, Surroundings};
use agmawrite::document::{Message as DocumentMessage, SourceReplacement, Work};
use agmawrite::help::Message as HelpMessage;
use agmawrite::interaction::{FocusTarget, ModeBadge, Overlay, Surface, UnsavedAction};
use agmawrite::preview::{CaretPosition, Motion, PreviewElement};

fn around(live: &str) -> Surroundings {
    Surroundings {
        live: live.to_owned(),
        caret: CaretPosition { element: 0, column: 0 },
        selection: None,
        selected_text: String::new(),
        composer: String::new(),
        draft: String::new(),
        elements: vec![PreviewElement {
            text: "one two one".to_owned(),
            source_start: 0,
            source_end: 11,
        }],
        source_matches: 2,
    }
}

fn execute(command: Command) -> AppMessage {
    AppMessage::Input(InputMessage::Execute(command))
}

fn preview_app() -> AppState {
    AppState::new("one two one", None, true)
}

/// `y` is a visual-mode verb: it copies the selection, reports the
/// number of characters, and leaves visual mode.
#[test]
fn yank_copies_reports_and_leaves_visual_mode() {
    let mut app = preview_app();
    let mut shell = around("one two one");
    shell.selected_text = "ab\u{1F469}\u{200D}\u{1F4BB}".to_owned();

    let action = app.step(execute(Command::Preview(PreviewCommand::Yank)), &shell);
    assert!(action.clipboard.is_none());
    assert!(app.report().is_none());

    app.step(execute(Command::Preview(PreviewCommand::ToggleVisual)), &shell);
    assert!(app.interaction().projection().visual());

    let action = app.step(execute(Command::Preview(PreviewCommand::Yank)), &shell);
    assert_eq!(action.clipboard.as_deref(), Some("ab\u{1F469}\u{200D}\u{1F4BB}"));
    assert_eq!(action.preview, Some((PreviewCommand::Yank, false)));
    assert_eq!(app.report(), Some("3 characters yanked"));
    assert!(!app.interaction().projection().visual());
    assert_eq!(app.interaction().projection().badge(), ModeBadge::View);

    // The report stays until the next interaction replaces it.
    app.step(execute(Command::Preview(PreviewCommand::Move(Motion::Down, 1))), &shell);
    assert!(app.report().is_none());
}

/// Opening another file over unsaved edits shows the prompt; cancelling
/// it hides the prompt and hands focus back to the source editor.
#[test]
fn unsaved_prompt_follows_the_document() {
    let mut app = AppState::new("saved", Some(b"/tmp/a.md".to_vec()), false);
    let shell = around("edited");

    let action = app.step(execute(Command::Document(DocumentCommand::Open)), &shell);
    assert!(matches!(action.work, Work::Nothing));
    assert_eq!(
        app.interaction().projection().unsaved_action(),
        Some(UnsavedAction::OpenFile)
    );

    let action = app.step(execute(Command::Document(DocumentCommand::UnsavedNext)), &shell);
    assert_eq!(action.dialog, Some(DialogStep::Next));

    let action = app.step(execute(Command::Document(DocumentCommand::CancelUnsaved)), &shell);
    assert_eq!(action.focus, Some(FocusTarget::SourceEditor));
    assert!(app.interaction().projection().unsaved_action().is_none());
    assert_eq!(app.document().pending_action(), None);

    // Without a prompt, answering it does nothing.
    let action = app.step(AppMessage::Document(DocumentMessage::UnsavedDiscard), &shell);
    assert!(matches!(action.work, Work::Nothing));
    assert_eq!(action.focus, None);
}

/// A loaded file replaces the source, resets the comments, and asks the
/// shell to rebuild the preview.
#[test]
fn loading_a_file_resets_the_comments() {
    let mut app = preview_app();
    let mut shell = around("one two one");
    shell.composer = "a note".to_owned();
    app.step(AppMessage::Comments(CommentsMessage::OpenComposer), &shell);
    assert!(app.interaction().projection().contains(Overlay::Note));
    let action = app.step(AppMessage::Comments(CommentsMessage::SaveComposer), &shell);
    assert_eq!(action.focus, None);
    assert_eq!(app.comments().comments().len(), 1);
    assert!(!app.interaction().projection().contains(Overlay::Note));

    let action = app.step(
        AppMessage::Document(DocumentMessage::OpenLoaded(Some((
            b"/tmp/b.md".to_vec(),
            "fresh".to_owned(),
        )))),
        &shell,
    );
    assert_eq!(action.source, Some(SourceReplacement::Loaded));
    assert_eq!(action.text.as_deref(), Some("fresh"));
    assert!(app.comments().comments().is_empty());
}

/// Find opens with focus, selects matches on the surface shown, and
/// closing gives focus back to what it covered.
#[test]
fn find_selects_on_the_surface_shown() {
    let mut write = AppState::new("one two one", None, false);
    let shell = around("one two one");
    let action = write.step(AppMessage::Find(FindMessage::Open), &shell);
    assert_eq!(action.focus, Some(FocusTarget::FindInput));
    let action = write.step(AppMessage::Find(FindMessage::QueryChanged("one".to_owned())), &shell);
    assert_eq!(action.find, Some(FindSelection::Source(0)));
    let action = write.step(AppMessage::Find(FindMessage::Next), &shell);
    assert_eq!(action.find, Some(FindSelection::Source(1)));
    let action = write.step(AppMessage::Find(FindMessage::Close), &shell);
    assert_eq!(action.focus, Some(FocusTarget::SourceEditor));

    let mut preview = preview_app();
    preview.step(AppMessage::Find(FindMessage::Open), &shell);
    let action = preview.step(AppMessage::Find(FindMessage::QueryChanged("one".to_owned())), &shell);
    assert_eq!(action.find, Some(FindSelection::Preview(0, (0, 3))));
    let action = preview.step(AppMessage::Find(FindMessage::Previous), &shell);
    assert_eq!(action.find, Some(FindSelection::Preview(0, (8, 11))));
}

/// Help opens above everything with its field focused, and closing it
/// clears its query and focuses what it covered; toggling the preview
/// focuses the source editor on the write surface.
#[test]
fn help_and_surface_switches_move_focus() {
    let mut app = AppState::new("text", None, false);
    let shell = around("text");
    let action = app.step(AppMessage::Help(HelpMessage::Open), &shell);
    assert_eq!(action.focus, Some(FocusTarget::HelpInput));
    app.step(AppMessage::Help(HelpMessage::QueryChanged("save".to_owned())), &shell);
    let action = app.step(AppMessage::Help(HelpMessage::Close), &shell);
    assert_eq!(action.focus, Some(FocusTarget::SourceEditor));
    let action = app.step(AppMessage::Help(HelpMessage::Close), &shell);
    assert_eq!(action.focus, None);

    let action = app.step(execute(Command::Preview(PreviewCommand::Toggle)), &shell);
    assert_eq!(action.switched_from, Some(Surface::Write));
    assert_eq!(app.interaction().projection().surface(), Surface::Preview);
    let action = app.step(execute(Command::Preview(PreviewCommand::Toggle)), &shell);
    assert_eq!(action.focus, Some(FocusTarget::SourceEditor));

    let mut locked = preview_app();
    let action = locked.step(execute(Command::Preview(PreviewCommand::Toggle)), &shell);
    assert_eq!(action.switched_from, None);
}
