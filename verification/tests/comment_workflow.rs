use agmawrite::comment_workflow::{
    ComposerChange, CommentsState, Context, Event, Message, Update,
};
use agmawrite::comments::Mark;
use agmawrite::preview::{CaretPosition, PreviewElement};

fn at(element: usize, column: usize) -> CaretPosition {
    CaretPosition { element, column }
}

fn context(caret: CaretPosition) -> Context {
    Context {
        caret,
        selection: None,
        composer_open: true,
    }
}

/// The preview elements of a document of blank-line separated blocks,
/// each recording the bytes of its source.
fn paragraphs(markdown: &str) -> Vec<PreviewElement> {
    let mut elements = Vec::new();
    let mut offset = 0;
    for block in markdown.split("\n\n") {
        let text = block.trim_start_matches('#').trim_start();
        elements.push(PreviewElement {
            text: text.to_owned(),
            source_start: offset,
            source_end: offset + block.len(),
        });
        offset += block.len() + 2;
    }
    elements
}

/// The feature with its two editors, which the steps tell how to change.
struct Feature {
    state: CommentsState,
    composer: String,
    draft: String,
}

impl Feature {
    fn new() -> Self {
        Self {
            state: CommentsState::new(),
            composer: String::new(),
            draft: String::new(),
        }
    }

    fn send(&mut self, message: Message, context: Context) -> Update {
        let update = self
            .state
            .update(message, context, &self.composer, &self.draft);
        match &update.composer {
            ComposerChange::Keep => {}
            ComposerChange::Clear => self.composer.clear(),
            ComposerChange::Fill(text) => self.composer = text.clone(),
        }
        if update.clear_draft {
            self.draft.clear();
        }
        update
    }

    fn save_at(&mut self, text: &str, position: CaretPosition) {
        self.composer.push_str(text);
        self.send(Message::SaveComposer, context(position));
    }

    fn len(&self) -> usize {
        self.state.comments().len()
    }
}

#[test]
fn saving_and_dismissing_the_composer_preserve_note_behavior() {
    let mut feature = Feature::new();
    let position = at(1, 2);

    feature.composer.push_str("  fix this  \n");
    feature.send(Message::SaveComposer, context(position));

    assert_eq!(feature.composer, "");
    assert_eq!(feature.len(), 1);
    let markdown = "# Title\n\nbody";
    assert_eq!(
        feature.state.comments().cards(markdown, &paragraphs(markdown))[0].text,
        "fix this"
    );
    assert_eq!(
        feature.send(Message::Cycle, context(position)).event,
        Some(Event::NavigateTo(position))
    );

    feature.composer.push_str("half-written");
    feature.send(Message::CloseComposer, context(position));
    assert_eq!(feature.composer, "");
    assert_eq!(feature.len(), 1);
}

#[test]
fn saving_without_an_open_composer_is_a_no_op() {
    let mut feature = Feature::new();
    feature.composer.push_str("should not save");

    feature.send(
        Message::SaveComposer,
        Context {
            composer_open: false,
            ..context(at(0, 0))
        },
    );

    assert!(feature.state.comments().is_empty());
    assert_eq!(feature.composer, "should not save");
}

#[test]
fn composer_saves_comments_on_code_block_elements() {
    let markdown = "text\n\n```\ncode line\n```\n\nafter";
    let elements = paragraphs(markdown);
    let mut feature = Feature::new();

    feature.save_at("about the code", at(1, 4));

    assert_eq!(feature.state.comments().mark_for(1, 32), Mark::Active);
    assert!(feature.state.comments().cards(markdown, &elements)[0]
        .quote
        .contains("```"));
}

#[test]
fn selection_context_anchors_the_saved_comment() {
    let markdown = "alpha\n\nbeta\n\ngamma";
    let elements = paragraphs(markdown);
    let mut feature = Feature::new();
    feature.composer.push_str("about the span");

    feature.send(
        Message::SaveComposer,
        Context {
            caret: at(2, 3),
            selection: Some((at(1, 1), at(2, 3))),
            composer_open: true,
        },
    );

    let cards = feature.state.comments().cards(markdown, &elements);
    assert_eq!(cards[0].quote, "eta gam");
    assert_eq!(
        feature.state.comments().anchor_selection_for(1, 4),
        Some((1, 4))
    );
    assert_eq!(
        feature.state.comments().anchor_selection_for(2, 5),
        Some((0, 3))
    );
}

#[test]
fn editing_keeps_history_and_dismissal_discards_changes() {
    let mut feature = Feature::new();
    feature.save_at("first", at(1, 0));

    let result = feature.send(Message::EditActive, context(at(1, 0)));
    assert_eq!(result.event, Some(Event::FocusComposer));
    assert_eq!(feature.state.editing_target(), Some((0, 0)));
    assert_eq!(feature.composer, "first");

    feature.composer = "  second take  ".to_owned();
    feature.send(Message::SaveComposer, context(at(1, 0)));
    assert_eq!(
        feature.state.comments().cards("", &Vec::new())[0].text,
        "second take"
    );
    assert_eq!(feature.state.comments().active_history(), ["first"]);

    feature.send(Message::EditActive, context(at(1, 0)));
    feature.composer = "nope".to_owned();
    feature.send(Message::CloseComposer, context(at(1, 0)));
    assert_eq!(
        feature.state.comments().cards("", &Vec::new())[0].text,
        "second take"
    );
    assert_eq!(feature.composer, "");
    assert!(feature.state.editing_target().is_none());
}

#[test]
fn threads_grow_resolve_and_delete_through_the_reducer() {
    let mut feature = Feature::new();
    feature.save_at("root", at(0, 0));
    feature.save_at("reply", at(0, 0));

    let markdown = "one\n\ntwo";
    let cards = feature.state.comments().cards(markdown, &paragraphs(markdown));
    assert_eq!((cards[1].thread, cards[1].entry), (0, 1));
    assert_eq!(cards[1].depth, 1);

    feature.send(Message::ResolveThread(0), context(at(0, 0)));
    assert_eq!(feature.state.comments().mark_for(0, 32), Mark::Unmarked);
    feature.send(Message::ResolveThread(0), context(at(0, 0)));
    assert_eq!(feature.state.comments().mark_for(0, 32), Mark::Active);

    feature.send(Message::DeleteComment(0, 1), context(at(0, 0)));
    assert_eq!(feature.len(), 1);
    feature.send(Message::DeleteComment(0, 0), context(at(0, 0)));
    assert!(feature.state.comments().is_empty());
}

#[test]
fn draft_add_and_publish_are_local_workflow_actions() {
    let mut feature = Feature::new();
    feature.draft.push_str("  overall note  ");
    feature.send(Message::AddDraftAsGlobal, context(at(0, 0)));

    assert_eq!(feature.len(), 1);
    let cards = feature.state.comments().cards("", &Vec::new());
    assert_eq!(cards[0].label, Some("Global"));
    assert_eq!(cards[0].text, "overall note");
    assert_eq!(feature.draft, "");
    assert_eq!(
        feature.send(Message::PublishDraft, context(at(0, 0))).event,
        Some(Event::PublishRequested)
    );

    // A blank draft adds nothing and stays as it is.
    feature.draft.push_str("   ");
    let update = feature.send(Message::AddDraftAsGlobal, context(at(0, 0)));
    assert!(!update.clear_draft);
    assert_eq!(feature.draft, "   ");
    assert_eq!(feature.len(), 1);
}

#[test]
fn composer_focus_delete_and_sidebar_visibility_stay_feature_local() {
    let mut feature = Feature::new();
    assert!(!feature.state.sidebar_shown());
    assert_eq!(
        feature.send(Message::OpenComposer, context(at(0, 0))).event,
        Some(Event::FocusComposer)
    );

    feature.save_at("note", at(0, 0));
    assert!(feature.state.sidebar_shown());
    feature.send(Message::ToggleSidebar, context(at(0, 0)));
    assert!(!feature.state.sidebar_shown());

    feature.send(Message::EditActive, context(at(0, 0)));
    assert_eq!(feature.state.editing_target(), Some((0, 0)));
    feature.send(Message::DeleteComment(0, 0), context(at(0, 0)));
    assert!(feature.state.editing_target().is_none());
    assert_eq!(feature.composer, "");
    assert!(feature.state.comments().is_empty());
}

#[test]
fn card_activation_and_cycle_emit_navigation_requests() {
    let mut feature = Feature::new();
    let position = at(2, 4);
    feature.save_at("note", position);

    assert_eq!(
        feature.send(Message::ActivateCard(0, 0), context(at(0, 0))).event,
        Some(Event::NavigateTo(position))
    );
    assert_eq!(
        feature.send(Message::Cycle, context(at(0, 0))).event,
        Some(Event::NavigateTo(position))
    );
}
