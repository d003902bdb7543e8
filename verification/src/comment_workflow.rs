//! The comments feature as one workflow: the store, the comment the note
//! composer is editing, and the sidebar's visibility, driven by the
//! feature's messages.
//!
//! The composer's and the publish draft's text stay in their editors; a
//! step reads them as arguments and says how each editor must change.
use crate::comments::{
    cycle_target, deleted, edited, names_comment, saved, shifted_active, toggled, trim_spec, Anchor,
    Comments, EntryModel, Span, ThreadModel,
};
use crate::preview::CaretPosition;
use vstd::prelude::*;

verus! {

/// The comments feature's own messages (edits inside the composer and
/// the draft are applied to their editors directly).
#[derive(Debug, Clone, Copy, PartialEq, Eq)]
pub enum Message {
    OpenComposer,
    CloseComposer,
    SaveComposer,
    EditActive,
    ComposerCardPressed,
    ActivateCard(usize, usize),
    DeleteComment(usize, usize),
    ResolveThread(usize),
    AddDraftAsGlobal,
    PublishDraft,
    Cycle,
    ToggleSidebar,
}

/// What a step reads of the rest of the application: where the caret
/// is, the visual selection, and whether the composer is open.
#[derive(Debug, Clone, Copy, PartialEq, Eq)]
pub struct Context {
    pub caret: CaretPosition,
    pub selection: Option<(CaretPosition, CaretPosition)>,
    pub composer_open: bool,
}

/// Consequences the composing application interprets.
#[derive(Debug, Clone, Copy, PartialEq, Eq)]
pub enum Event {
    NavigateTo(CaretPosition),
    FocusComposer,
    PublishRequested,
}

/// How the composer's editor must change.
#[derive(Debug, Clone, PartialEq, Eq)]
pub enum ComposerChange {
    Keep,
    Clear,
    /// Replace its text with this one.
    Fill(String),
}

/// What one step asks of the application.
#[derive(Debug, Clone, PartialEq, Eq)]
pub struct Update {
    pub event: Option<Event>,
    pub composer: ComposerChange,
    /// Whether the publish draft's editor must be emptied.
    pub clear_draft: bool,
}

/// The feature as the contracts see it.
pub struct WorkflowModel {
    pub threads: Seq<ThreadModel>,
    pub active: Option<(usize, usize)>,
    pub editing: Option<(usize, usize)>,
    pub sidebar: Option<bool>,
}

/// A composer change as the contracts see it.
pub enum ComposerModel {
    Keep,
    Clear,
    Fill(Seq<char>),
}

/// The view of a composer change.
pub open spec fn composer_view(change: ComposerChange) -> ComposerModel {
    match change {
        ComposerChange::Keep => ComposerModel::Keep,
        ComposerChange::Clear => ComposerModel::Clear,
        ComposerChange::Fill(text) => ComposerModel::Fill(text@),
    }
}

/// A step's result as the contracts see it.
pub struct UpdateModel {
    pub event: Option<Event>,
    pub composer: ComposerModel,
    pub clear_draft: bool,
}

/// The view of a step's result.
pub open spec fn update_view(update: Update) -> UpdateModel {
    UpdateModel {
        event: update.event,
        composer: composer_view(update.composer),
        clear_draft: update.clear_draft,
    }
}

/// A step raising `event`, if any, and changing no editor.
pub open spec fn only(event: Option<Event>) -> UpdateModel {
    UpdateModel { event, composer: ComposerModel::Keep, clear_draft: false }
}

/// Where the caret jumps when a thread activates.
pub open spec fn navigate(position: Option<CaretPosition>) -> Option<Event> {
    match position {
        Some(at) => Some(Event::NavigateTo(at)),
        None => None,
    }
}

/// The active comment after activating `at`: it, when it names a
/// comment; otherwise unchanged.
pub open spec fn activated(threads: Seq<ThreadModel>, active: Option<(usize, usize)>, at: (usize, usize)) -> Option<
    (usize, usize),
> {
    if names_comment(threads, at) {
        Some(at)
    } else {
        active
    }
}

/// Whether the sidebar shows: an explicit toggle wins, otherwise it
/// appears as soon as there are comments.
pub open spec fn sidebar_shown_spec(model: WorkflowModel) -> bool {
    match model.sidebar {
        Some(shown) => shown,
        None => model.threads.len() > 0,
    }
}

/// The note saved from the composer: an edit of the comment being
/// edited, or a new note on the selection or at the caret.
pub open spec fn composer_saved(model: WorkflowModel, context: Context, composer: Seq<char>) -> (
    Seq<ThreadModel>,
    Option<(usize, usize)>,
) {
    match model.editing {
        Some(at) => {
            let active = activated(model.threads, model.active, at);
            (edited(model.threads, active, composer), active)
        },
        None => match context.selection {
            Some((anchor, caret)) => saved(
                model.threads,
                model.active,
                composer,
                Anchor::Selection(Span::between(anchor, caret)),
            ),
            None => saved(model.threads, model.active, composer, Anchor::Caret(context.caret)),
        },
    }
}

/// The store after `add_draft_as_global`.
pub open spec fn draft_added(threads: Seq<ThreadModel>, active: Option<(usize, usize)>, draft: Seq<char>) -> (
    Seq<ThreadModel>,
    Option<(usize, usize)>,
) {
    if trim_spec(draft).len() > 0 {
        (
            threads.push(
                ThreadModel {
                    entries: seq![EntryModel { text: trim_spec(draft), history: seq![] }],
                    anchor: Anchor::Global,
                    resolved: false,
                },
            ),
            Some((threads.len() as usize, 0usize)),
        )
    } else {
        (threads, active)
    }
}

/// The feature's step for the messages that touch only its own fields
/// or raise events; the others are stated on [`CommentsState::update`].
pub open spec fn simple_step(model: WorkflowModel, message: Message, context: Context, composer: Seq<char>) -> Option<
    (WorkflowModel, UpdateModel),
> {
    match message {
        Message::OpenComposer => Some((model, only(Some(Event::FocusComposer)))),
        Message::CloseComposer => Some(
            (
                WorkflowModel { editing: None, ..model },
                UpdateModel { event: None, composer: ComposerModel::Clear, clear_draft: false },
            ),
        ),
        Message::SaveComposer => if !context.composer_open {
            Some((model, only(None)))
        } else {
            let (threads, active) = composer_saved(model, context, composer);
            Some(
                (
                    WorkflowModel { threads, active, editing: None, ..model },
                    UpdateModel { event: None, composer: ComposerModel::Clear, clear_draft: false },
                ),
            )
        },
        Message::ComposerCardPressed => Some((model, only(None))),
        Message::PublishDraft => Some((model, only(Some(Event::PublishRequested)))),
        Message::ToggleSidebar => Some(
            (WorkflowModel { sidebar: Some(!sidebar_shown_spec(model)), ..model }, only(None)),
        ),
        Message::EditActive => match model.active {
            Some((t, e)) => Some(
                (
                    WorkflowModel { editing: Some((t, e)), ..model },
                    UpdateModel {
                        event: Some(Event::FocusComposer),
                        composer: ComposerModel::Fill(model.threads[t as int].entries[e as int].text),
                        clear_draft: false,
                    },
                ),
            ),
            None => Some((model, only(None))),
        },
        Message::AddDraftAsGlobal => None,
        _ => None,
    }
}

/// What one comments step does: the feature before and after, and what
/// it asks of the application, for a message, the context, and the
/// composer's and the draft's text.
pub open spec fn workflow_step(
    before: WorkflowModel,
    message: Message,
    context: Context,
    composer: Seq<char>,
    draft: Seq<char>,
    after: WorkflowModel,
    update: UpdateModel,
) -> bool {
    &&& (simple_step(before, message, context, composer) matches Some(expected) ==> (
            after, update) == expected)
    &&& (message == Message::AddDraftAsGlobal ==> ({
                let (threads, active) = draft_added(
                    before.threads,
                    before.active,
                    draft,
                );
                &&& after == (WorkflowModel { threads, active, ..before })
                &&& update == (UpdateModel {
                    event: None,
                    composer: ComposerModel::Keep,
                    clear_draft: trim_spec(draft).len() > 0,
                })
            }))
    &&& (message matches Message::ActivateCard(t, e) ==> {
                &&& after == (WorkflowModel {
                    active: activated(before.threads, before.active, (t, e)),
                    ..before
                })
                &&& update == only(
                    navigate(
                        if names_comment(before.threads, (t, e)) {
                            before.threads[t as int].anchor.position_spec()
                        } else {
                            None
                        },
                    ),
                )
            })
    &&& (message matches Message::DeleteComment(t, e) ==> {
                &&& after.editing == if before.editing == Some((t, e)) {
                    None
                } else {
                    before.editing
                }
                &&& after.sidebar == before.sidebar
                &&& names_comment(before.threads, (t, e)) ==> after.threads == deleted(
                    before.threads,
                    t as int,
                    e as int,
                ) && after.active == shifted_active(
                    before.active,
                    t,
                    e,
                    before.threads[t as int].entries.len() == 1,
                )
                &&& !names_comment(before.threads, (t, e)) ==> after.threads == before.threads
                    && after.active == before.active
                &&& update == (UpdateModel {
                    event: None,
                    composer: if before.editing == Some((t, e)) {
                        ComposerModel::Clear
                    } else {
                        ComposerModel::Keep
                    },
                    clear_draft: false,
                })
            })
    &&& (message matches Message::ResolveThread(t) ==> {
                &&& after.threads == toggled(before.threads, t as int)
                &&& after.active == before.active
                &&& after.editing == before.editing
                &&& after.sidebar == before.sidebar
                &&& update == only(None)
            })
    &&& (message == Message::Cycle ==> {
                &&& after.threads == before.threads
                &&& after.editing == before.editing
                &&& after.sidebar == before.sidebar
                &&& match cycle_target(before.threads, before.active) {
                    Some(t) => after.active == Some((t as usize, 0usize))
                        && update == only(
                        navigate(before.threads[t].anchor.position_spec()),
                    ),
                    None => after.active == before.active && update
                        == only(None),
                }
            })
}

/// The comments feature's state.
pub struct CommentsState {
    model: Comments,
    /// The comment the composer is editing, when it edits one.
    editing_target: Option<(usize, usize)>,
    /// The sidebar's visibility, once toggled explicitly.
    sidebar_override: Option<bool>,
}

impl CommentsState {
    /// The feature as the contracts see it.
    pub closed spec fn model(&self) -> WorkflowModel {
        WorkflowModel {
            threads: self.model.threads_view(),
            active: self.model.active_view(),
            editing: self.editing_target,
            sidebar: self.sidebar_override,
        }
    }

    /// Well-formedness: the store's.
    pub closed spec fn wf(&self) -> bool {
        self.model.wf()
    }

    /// A feature with no comments, nothing being edited, and the sidebar
    /// following the comments.
    pub fn new() -> (state: CommentsState)
        ensures
            state.wf(),
            state.model() == (WorkflowModel {
                threads: Seq::empty(),
                active: None,
                editing: None,
                sidebar: None,
            }),
    {
        CommentsState { model: Comments::new(), editing_target: None, sidebar_override: None }
    }

    /// The comments store.
    pub fn comments(&self) -> (comments: &Comments)
        ensures
            comments.threads_view() == self.model().threads,
            comments.active_view() == self.model().active,
            self.wf() ==> comments.wf(),
    {
        &self.model
    }

    /// The comment the composer is editing, if any.
    pub fn editing_target(&self) -> (target: Option<(usize, usize)>)
        ensures
            target == self.model().editing,
    {
        self.editing_target
    }

    /// Whether the sidebar is visible: an explicit toggle wins, otherwise
    /// comments make it appear.
    pub fn sidebar_shown(&self) -> (shown: bool)
        ensures
            shown == sidebar_shown_spec(self.model()),
    {
        match self.sidebar_override {
            Some(shown) => shown,
            None => !self.model.is_empty(),
        }
    }

    /// Applies one comments message, given the composer's and the publish
    /// draft's text, and says what the application must do.
    pub fn update(&mut self, message: Message, context: Context, composer: &str, draft: &str) -> (update:
        Update)
        requires
            old(self).wf(),
        ensures
            final(self).wf(),
            workflow_step(
                old(self).model(),
                message,
                context,
                composer@,
                draft@,
                final(self).model(),
                update_view(update),
            ),
    {
        let keep = Update { event: None, composer: ComposerChange::Keep, clear_draft: false };
        match message {
            Message::OpenComposer => Update {
                event: Some(Event::FocusComposer),
                composer: ComposerChange::Keep,
                clear_draft: false,
            },
            Message::CloseComposer => {
                self.editing_target = None;
                Update { event: None, composer: ComposerChange::Clear, clear_draft: false }
            },
            Message::SaveComposer => {
                if !context.composer_open {
                    return keep;
                }
                match self.editing_target {
                    Some((thread, entry)) => {
                        self.editing_target = None;
                        let _ = self.model.activate(thread, entry);
                        self.model.edit_active(composer);
                    },
                    None => match context.selection {
                        Some((anchor, caret)) => {
                            self.model.save_selection(composer, Span::new(anchor, caret));
                        },
                        None => {
                            self.model.save(composer, context.caret);
                        },
                    },
                }
                Update { event: None, composer: ComposerChange::Clear, clear_draft: false }
            },
            Message::EditActive => {
                let text = match self.model.active_text() {
                    Some(text) => text.to_owned(),
                    None => {
                        return keep;
                    },
                };
                self.editing_target = self.model.active_entry();
                Update {
                    event: Some(Event::FocusComposer),
                    composer: ComposerChange::Fill(text),
                    clear_draft: false,
                }
            },
            Message::ComposerCardPressed => keep,
            Message::ActivateCard(thread, entry) => match self.model.activate(thread, entry) {
                Some(position) => Update {
                    event: Some(Event::NavigateTo(position)),
                    composer: ComposerChange::Keep,
                    clear_draft: false,
                },
                None => keep,
            },
            Message::DeleteComment(thread, entry) => {
                self.model.delete(thread, entry);
                let editing_deleted = match self.editing_target {
                    Some((t, e)) => t == thread && e == entry,
                    None => false,
                };
                if editing_deleted {
                    self.editing_target = None;
                    Update { event: None, composer: ComposerChange::Clear, clear_draft: false }
                } else {
                    keep
                }
            },
            Message::ResolveThread(thread) => {
                self.model.resolve(thread);
                keep
            },
            Message::AddDraftAsGlobal => {
                let added = self.model.add_draft_as_global(draft);
                Update { event: None, composer: ComposerChange::Keep, clear_draft: added }
            },
            Message::PublishDraft => Update {
                event: Some(Event::PublishRequested),
                composer: ComposerChange::Keep,
                clear_draft: false,
            },
            Message::Cycle => match self.model.cycle() {
                Some(position) => Update {
                    event: Some(Event::NavigateTo(position)),
                    composer: ComposerChange::Keep,
                    clear_draft: false,
                },
                None => keep,
            },
            Message::ToggleSidebar => {
                let shown = self.sidebar_shown();
                self.sidebar_override = Some(!shown);
                keep
            },
        }
    }
}

} // verus!
