//! The application's coordinator: one step from the whole editor state and
//! a message to the next state and the outside work the shell performs.
//!
//! The feature states — interaction, document, comments, find, Help —
//! each have their own verified step; the coordinator decides which of
//! them a message reaches, in what order, and how their consequences feed
//! each other: the unsaved prompt follows the document, a loaded file
//! resets the comments, a yank in visual mode copies the selection,
//! reports it and leaves visual mode, and focus returns to whatever field
//! a closed popup uncovers. What the shell owns — the preview widget, the
//! text editors, the clipboard, the window — is read from
//! [`Surroundings`] and written through [`AppAction`].
use crate::bindings::{help_window_open, InputMessage};
use crate::command::{
    Command, CommentsCommand, DocumentCommand, FindCommand, HelpCommand, PreviewCommand,
};
use crate::comment_workflow::{
    composer_view, ComposerChange, ComposerModel, CommentsState, Context, Event as CommentsEvent,
    Message as CommentsMessage, WorkflowModel, workflow_step,
};
use crate::document::{
    step as document_step, work_view, DocumentModel, DocumentState, Event as DocumentEvent,
    Message as DocumentMessage, PathBytes, SourceReplacement, Work, WorkModel,
};
use crate::find::{element_texts, preview_matches_spec, selected, Find, Way};
use crate::help::{Help, Message as HelpMessage};
use crate::interaction::{
    EditableWorkspace, FocusTarget, HelpResume, InteractionState, Overlay, PreviewMode,
    PreviewState, RootState, Surface, Transition, UnsavedAction, Workspace,
};
use crate::pending::Pending;
use crate::preview::{CaretPosition, PreviewElement};
use crate::status::{yank_report, yank_wording_spec};
use crate::text::grapheme_clusters;
use vstd::prelude::*;

verus! {

// ---------------------------------------------------------------------------
// Messages, surroundings and actions.
// ---------------------------------------------------------------------------

/// The find popup's messages.
#[derive(Debug, Clone, PartialEq, Eq)]
pub enum FindMessage {
    Open,
    Close,
    QueryChanged(String),
    Next,
    Previous,
}

/// Every message the editor's features receive.
#[derive(Debug)]
pub enum AppMessage {
    /// A decision of the key bindings.
    Input(InputMessage),
    Document(DocumentMessage),
    Preview(PreviewCommand),
    Comments(CommentsMessage),
    Find(FindMessage),
    Help(HelpMessage),
}

/// What a step reads of the widgets the shell owns.
#[derive(Debug, Clone)]
pub struct Surroundings {
    /// The source editor's text.
    pub live: String,
    /// The preview caret.
    pub caret: CaretPosition,
    /// The visual selection's anchor and caret, while one is made.
    pub selection: Option<(CaretPosition, CaretPosition)>,
    /// The text the visual selection covers.
    pub selected_text: String,
    /// The note composer's text.
    pub composer: String,
    /// The publish draft's text.
    pub draft: String,
    /// The preview's elements.
    pub elements: Vec<PreviewElement>,
    /// How many matches the find query has in the source text.
    pub source_matches: usize,
}

/// Which button of the unsaved prompt takes focus next.
#[derive(Debug, Clone, Copy, PartialEq, Eq)]
pub enum DialogStep {
    Next,
    Previous,
}

/// A find match to select: by its index among the source matches, or by
/// its element and grapheme range in the preview.
#[derive(Debug, Clone, Copy, PartialEq, Eq)]
pub enum FindSelection {
    Source(usize),
    Preview(usize, (usize, usize)),
}

/// What the shell must do after a step.
#[derive(Debug)]
pub struct AppAction {
    /// The document's outside work.
    pub work: Work,
    /// The text the source editor must now hold.
    pub text: Option<String>,
    /// The preview must be rebuilt from the new source text.
    pub source: Option<SourceReplacement>,
    /// The window with this identifier closes.
    pub close_window: Option<u64>,
    /// A command the preview widget carries out, with whether visual
    /// mode is active once it has.
    pub preview: Option<(PreviewCommand, bool)>,
    /// The surface the editor switched away from: the shell mirrors the
    /// caret into the surface now shown.
    pub switched_from: Option<Surface>,
    /// Text to write to the clipboard.
    pub clipboard: Option<String>,
    /// The field that takes keyboard focus.
    pub focus: Option<FocusTarget>,
    /// The unsaved prompt's focus moves.
    pub dialog: Option<DialogStep>,
    /// How the note composer's editor changes.
    pub composer: ComposerChange,
    /// Whether the publish draft's editor is emptied.
    pub clear_draft: bool,
    /// The position a comment's anchor sits at, to bring into view.
    pub navigate: Option<CaretPosition>,
    /// The find match to select.
    pub find: Option<FindSelection>,
}

/// An action as the contracts see it.
pub struct ActionModel {
    pub work: WorkModel,
    pub text: Option<Seq<char>>,
    pub source: Option<SourceReplacement>,
    pub close_window: Option<u64>,
    pub preview: Option<(PreviewCommand, bool)>,
    pub switched_from: Option<Surface>,
    pub clipboard: Option<Seq<char>>,
    pub focus: Option<FocusTarget>,
    pub dialog: Option<DialogStep>,
    pub composer: ComposerModel,
    pub clear_draft: bool,
    pub navigate: Option<CaretPosition>,
    pub find: Option<FindSelection>,
}

pub open spec fn text_view(text: Option<String>) -> Option<Seq<char>> {
    match text {
        Some(text) => Some(text@),
        None => None,
    }
}

/// The view of an action.
pub open spec fn action_view(action: AppAction) -> ActionModel {
    ActionModel {
        work: work_view(action.work),
        text: text_view(action.text),
        source: action.source,
        close_window: action.close_window,
        preview: action.preview,
        switched_from: action.switched_from,
        clipboard: text_view(action.clipboard),
        focus: action.focus,
        dialog: action.dialog,
        composer: composer_view(action.composer),
        clear_draft: action.clear_draft,
        navigate: action.navigate,
        find: action.find,
    }
}

/// Nothing to do.
pub open spec fn idle() -> ActionModel {
    ActionModel {
        work: WorkModel::Nothing,
        text: None,
        source: None,
        close_window: None,
        preview: None,
        switched_from: None,
        clipboard: None,
        focus: None,
        dialog: None,
        composer: ComposerModel::Keep,
        clear_draft: false,
        navigate: None,
        find: None,
    }
}

/// The editor as the contracts see it.
pub struct AppModel {
    pub interaction: RootState,
    pub document: DocumentModel,
    pub comments: WorkflowModel,
    pub find_query: Seq<char>,
    pub find_current: Option<usize>,
    pub help_query: Seq<char>,
    /// The status line's report of the last yank.
    pub report: Option<Seq<char>>,
}

// ---------------------------------------------------------------------------
// The interaction transitions the coordinator composes, as functions.
// ---------------------------------------------------------------------------

/// The workspace with the canvas's pending input dropped.
pub open spec fn cleared(workspace: Workspace) -> Workspace {
    match workspace {
        Workspace::Editable(EditableWorkspace::Preview(PreviewState::Canvas { mode, .. })) => Workspace::Editable(
            EditableWorkspace::Preview(PreviewState::Canvas { mode, pending: Pending::Idle }),
        ),
        Workspace::PreviewOnly(PreviewState::Canvas { mode, .. }) => Workspace::PreviewOnly(
            PreviewState::Canvas { mode, pending: Pending::Idle },
        ),
        _ => workspace,
    }
}

/// The root after activity: the workspace's pending input dropped.
pub open spec fn settled(root: RootState) -> RootState {
    root.with_workspace(cleared(root.workspace_spec()))
}

/// The root with the unsaved prompt opened for `action`, pending input
/// dropped; unchanged when a prompt already shows.
pub open spec fn prompted(root: RootState, action: UnsavedAction) -> RootState {
    match root {
        RootState::Active(workspace) => RootState::Unsaved { action, resume: cleared(workspace) },
        RootState::Help { resume: HelpResume::Active(workspace) } => RootState::Help {
            resume: HelpResume::Unsaved { action, resume: cleared(workspace) },
        },
        _ => root,
    }
}

proof fn lemma_cleared(workspace: Workspace, next: Workspace)
    requires
        workspace.transitioned(next, Transition::ClearPending),
    ensures
        next == cleared(workspace),
{
}

proof fn lemma_prompted(root: RootState, next: RootState, action: UnsavedAction)
    requires
        root.unsaved_opened(next, action),
    ensures
        next == prompted(root, action),
{
}

/// Whether visual mode is active.
pub open spec fn in_visual(root: RootState) -> bool {
    root.workspace_spec().preview_mode_spec() == Some(PreviewMode::Visual)
}

// ---------------------------------------------------------------------------
// The step, as the contracts see it.
// ---------------------------------------------------------------------------

/// The feature message a key binding's command stands for; the unsaved
/// prompt's focus moves have none.
pub open spec fn command_message(command: Command) -> Option<AppMessage> {
    match command {
        Command::Document(command) => match command {
            DocumentCommand::Open => Some(AppMessage::Document(DocumentMessage::OpenRequested)),
            DocumentCommand::Save => Some(AppMessage::Document(DocumentMessage::SaveRequested)),
            DocumentCommand::CancelUnsaved => Some(AppMessage::Document(DocumentMessage::UnsavedCancel)),
            DocumentCommand::ConfirmUnsaved => Some(AppMessage::Document(DocumentMessage::UnsavedSave)),
            DocumentCommand::UnsavedNext | DocumentCommand::UnsavedPrevious => None,
        },
        Command::Preview(command) => Some(AppMessage::Preview(command)),
        Command::Comments(command) => Some(
            AppMessage::Comments(
                match command {
                    CommentsCommand::OpenNote => CommentsMessage::OpenComposer,
                    CommentsCommand::CloseNote => CommentsMessage::CloseComposer,
                    CommentsCommand::SaveNote => CommentsMessage::SaveComposer,
                    CommentsCommand::EditActive => CommentsMessage::EditActive,
                    CommentsCommand::Next => CommentsMessage::Cycle,
                    CommentsCommand::ToggleSidebar => CommentsMessage::ToggleSidebar,
                    CommentsCommand::AddGlobal => CommentsMessage::AddDraftAsGlobal,
                    CommentsCommand::Publish => CommentsMessage::PublishDraft,
                },
            ),
        ),
        Command::Find(command) => Some(
            AppMessage::Find(
                match command {
                    FindCommand::Open => FindMessage::Open,
                    FindCommand::Close => FindMessage::Close,
                    FindCommand::Next => FindMessage::Next,
                    FindCommand::Previous => FindMessage::Previous,
                },
            ),
        ),
        Command::Help(command) => Some(
            AppMessage::Help(
                match command {
                    HelpCommand::Open => HelpMessage::Open,
                    HelpCommand::Close => HelpMessage::Close,
                },
            ),
        ),
    }
}

/// Whether a document message answers the unsaved prompt.
pub open spec fn answers_prompt(message: DocumentMessage) -> bool {
    message is UnsavedCancel || message is UnsavedSave || message is UnsavedDiscard
}

/// The root and focus after the document raised `event`, the document
/// being `document` after its step.
pub open spec fn document_event_root(
    root: RootState,
    document: DocumentModel,
    event: Option<DocumentEvent>,
) -> (RootState, Option<Option<FocusTarget>>) {
    match event {
        Some(DocumentEvent::SourceReplaced { reason: SourceReplacement::Loaded }) => (
            root.with_workspace(root.workspace_spec().loaded()),
            None,
        ),
        Some(DocumentEvent::UnsavedVisibilityChanged(true)) => match document.pending {
            Some(action) => (prompted(root, action), None),
            None => (root, None),
        },
        Some(DocumentEvent::UnsavedVisibilityChanged(false)) => match root.unsaved_spec() {
            Some(_) => (root.unsaved_resolved(), Some(root.unsaved_resolved().focus_spec())),
            None => (root, None),
        },
        _ => (root, None),
    }
}

/// A document message: the prompt's answers first resolve the prompt
/// (nothing happens when none shows); the document steps; its event moves
/// the interaction — a load normalizes it and resets the comments, the
/// prompt opens or closes with the document's pending action — and any
/// other message counts as activity.
pub open spec fn document_app_step(before: AppModel, message: DocumentMessage, live: Seq<char>) -> (
    AppModel,
    ActionModel,
) {
    if answers_prompt(message) && before.interaction.unsaved_spec() is None {
        (before, idle())
    } else {
        let root = if answers_prompt(message) {
            before.interaction.unsaved_resolved()
        } else {
            before.interaction
        };
        let answer_focus = if answers_prompt(message) {
            root.focus_spec()
        } else {
            None
        };
        let (document, update) = document_step(before.document, message, live);
        let (raised, raised_focus) = document_event_root(root, document, update.event);
        let settled_root = if answers_prompt(message) {
            raised
        } else {
            settled(raised)
        };
        let loaded = update.event == Some(
            DocumentEvent::SourceReplaced { reason: SourceReplacement::Loaded },
        );
        (
            AppModel {
                interaction: settled_root,
                document,
                comments: if loaded {
                    WorkflowModel { threads: seq![], active: None, editing: None, sidebar: None }
                } else {
                    before.comments
                },
                ..before
            },
            ActionModel {
                work: update.work,
                text: update.text,
                source: match update.event {
                    Some(DocumentEvent::SourceReplaced { reason }) => Some(reason),
                    _ => None,
                },
                close_window: match update.event {
                    Some(DocumentEvent::CloseWindow(id)) => Some(id),
                    _ => None,
                },
                focus: match raised_focus {
                    Some(focus) => focus,
                    None => answer_focus,
                },
                ..idle()
            },
        )
    }
}

/// A preview command. Toggling switches the surface where the session
/// allows it and focuses the field the new surface shows. Visual mode and
/// cancelling apply where the workspace accepts them. A yank acts only in
/// visual mode: the selection goes to the clipboard, the status line
/// reports its length in characters (grapheme clusters), and visual mode
/// ends. Every other command moves the preview and counts as activity.
pub open spec fn preview_app_step(before: AppModel, command: PreviewCommand, selected_text: Seq<char>) -> (
    AppModel,
    ActionModel,
) {
    let root = before.interaction;
    let workspace = root.workspace_spec();
    match command {
        PreviewCommand::Toggle => if workspace.can_toggle_spec() {
            let next = root.with_workspace(workspace.preview_toggled());
            (
                AppModel { interaction: next, ..before },
                ActionModel {
                    switched_from: Some(workspace.surface_spec()),
                    focus: next.focus_spec(),
                    ..idle()
                },
            )
        } else {
            (before, idle())
        },
        PreviewCommand::ToggleVisual => match workspace.visual_toggled() {
            Ok(next) => (
                AppModel { interaction: root.with_workspace(next), ..before },
                ActionModel {
                    preview: Some((command, next.preview_mode_spec() == Some(PreviewMode::Visual))),
                    ..idle()
                },
            ),
            Err(_) => (before, idle()),
        },
        PreviewCommand::Cancel => if workspace.surface_spec() == Surface::Preview {
            let next = workspace.preview_cancelled();
            (
                AppModel { interaction: root.with_workspace(next), ..before },
                ActionModel {
                    preview: Some((command, next.preview_mode_spec() == Some(PreviewMode::Visual))),
                    ..idle()
                },
            )
        } else {
            (before, idle())
        },
        PreviewCommand::Yank => if in_visual(root) && workspace.visual_toggled() is Ok {
            let next = settled(root.with_workspace(workspace.visual_toggled()->Ok_0));
            (
                AppModel {
                    interaction: next,
                    report: Some(yank_wording_spec(grapheme_clusters(selected_text).len())),
                    ..before
                },
                ActionModel {
                    preview: Some((command, in_visual(next))),
                    clipboard: Some(selected_text),
                    ..idle()
                },
            )
        } else {
            (before, idle())
        },
        _ => (
            AppModel { interaction: settled(root), ..before },
            ActionModel { preview: Some((command, in_visual(root))), ..idle() },
        ),
    }
}

/// What the comments feature reads of the rest of the editor.
pub open spec fn comments_context(root: RootState, around: Surroundings) -> Context {
    Context {
        caret: around.caret,
        selection: around.selection,
        composer_open: root.overlays_spec().contains(Overlay::Note),
    }
}

/// The root and focus after a comments step asked for `event` and
/// changed the composer by `composer`: a request for the composer opens
/// the note popup where the workspace allows it; a composer cleared by
/// closing, saving or deleting closes the popup and focuses what it
/// uncovers.
pub open spec fn comments_event_root(root: RootState, event: Option<CommentsEvent>, composer: ComposerModel) -> (
    RootState,
    Option<FocusTarget>,
) {
    match event {
        Some(CommentsEvent::FocusComposer) => match root.workspace_spec().note_opened() {
            Ok(next) => (root.with_workspace(next), root.with_workspace(next).focus_spec()),
            Err(_) => (root, None),
        },
        _ => if composer is Clear {
            let next = root.with_workspace(root.workspace_spec().note_closed());
            (
                next,
                if root.overlays_spec().contains(Overlay::Note) {
                    next.focus_spec()
                } else {
                    None
                },
            )
        } else {
            (root, None)
        },
    }
}

/// A comments message: opening the composer (directly or to edit the
/// active comment) needs a workspace that takes the note popup; the
/// feature then steps with the caret, the selection and whether the
/// popup is open, and its consequences move the interaction.
pub open spec fn comments_app_step(
    before: AppModel,
    message: CommentsMessage,
    around: Surroundings,
    after: AppModel,
    action: ActionModel,
) -> bool {
    if (message is OpenComposer || message is EditActive)
        && before.interaction.workspace_spec().note_opened() is Err {
        after == before && action == idle()
    } else {
        let context = comments_context(before.interaction, around);
        exists|update: crate::comment_workflow::UpdateModel|
            {
                &&& #[trigger] workflow_step(
                    before.comments,
                    message,
                    context,
                    around.composer@,
                    around.draft@,
                    after.comments,
                    update,
                )
                &&& after == AppModel {
                    interaction: comments_event_root(before.interaction, update.event, update.composer).0,
                    comments: after.comments,
                    ..before
                }
                &&& action == ActionModel {
                    focus: comments_event_root(before.interaction, update.event, update.composer).1,
                    composer: update.composer,
                    clear_draft: update.clear_draft,
                    navigate: match update.event {
                        Some(CommentsEvent::NavigateTo(at)) => Some(at),
                        _ => None,
                    },
                    ..idle()
                }
            }
    }
}

/// Selecting a find match the way `way` says: nothing without a query;
/// on the write surface among the source matches, on the preview among
/// the matches across its elements.
pub open spec fn find_select(before: AppModel, way: Way, around: Surroundings) -> (AppModel, ActionModel) {
    if before.find_query.len() == 0 {
        (before, idle())
    } else if before.interaction.workspace_spec().surface_spec() == Surface::Write {
        match selected(before.find_current, way, around.source_matches as int) {
            Some(index) => (
                AppModel { find_current: Some(index as usize), ..before },
                ActionModel { find: Some(FindSelection::Source(index as usize)), ..idle() },
            ),
            None => (before, idle()),
        }
    } else {
        let all = preview_matches_spec(element_texts(around.elements@), before.find_query);
        match selected(before.find_current, way, all.len() as int) {
            Some(index) => (
                AppModel { find_current: Some(index as usize), ..before },
                ActionModel {
                    find: Some(
                        FindSelection::Preview(
                            all[index].0 as usize,
                            (all[index].1.0 as usize, all[index].1.1 as usize),
                        ),
                    ),
                    ..idle()
                },
            ),
            None => (before, idle()),
        }
    }
}

/// A find message: opening shows the popup and focuses its field;
/// closing hides it and focuses what it uncovers; a new query restarts at
/// the first match; next and previous step through the matches.
pub open spec fn find_app_step(before: AppModel, message: FindMessage, around: Surroundings) -> (
    AppModel,
    ActionModel,
) {
    let root = before.interaction;
    match message {
        FindMessage::Open => (
            AppModel { interaction: root.with_workspace(root.workspace_spec().find_opened()), ..before },
            ActionModel { focus: Some(FocusTarget::FindInput), ..idle() },
        ),
        FindMessage::Close => {
            let next = root.with_workspace(root.workspace_spec().find_closed());
            (
                AppModel { interaction: next, ..before },
                ActionModel {
                    focus: if root.overlays_spec().contains(Overlay::Find) {
                        next.focus_spec()
                    } else {
                        None
                    },
                    ..idle()
                },
            )
        },
        FindMessage::QueryChanged(query) => find_select(
            AppModel { find_query: query@, find_current: None, ..before },
            Way::First,
            around,
        ),
        FindMessage::Next => find_select(before, Way::Next, around),
        FindMessage::Previous => find_select(before, Way::Previous, around),
    }
}

/// A Help message: opening raises the window over everything and focuses
/// its field; closing an open window clears its query and focuses what it
/// uncovers; the query follows what is typed.
pub open spec fn help_app_step(before: AppModel, message: HelpMessage) -> (AppModel, ActionModel) {
    let root = before.interaction;
    match message {
        HelpMessage::Open => (
            AppModel { interaction: root.help_opened(), ..before },
            ActionModel { focus: Some(FocusTarget::HelpInput), ..idle() },
        ),
        HelpMessage::Close => if root.help_open_spec() {
            (
                AppModel { interaction: root.help_closed(), help_query: seq![], ..before },
                ActionModel { focus: root.help_closed().focus_spec(), ..idle() },
            )
        } else {
            (before, idle())
        },
        HelpMessage::QueryChanged(query) => (AppModel { help_query: query@, ..before }, idle()),
        HelpMessage::CardPressed => (before, idle()),
    }
}

/// A feature message, after the status report was cleared or kept.
pub open spec fn feature_step(
    before: AppModel,
    message: AppMessage,
    around: Surroundings,
    after: AppModel,
    action: ActionModel,
) -> bool {
    match message {
        AppMessage::Document(message) => (after, action) == document_app_step(before, message, around.live@),
        AppMessage::Preview(command) => (after, action) == preview_app_step(
            before,
            command,
            around.selected_text@,
        ),
        AppMessage::Comments(message) => comments_app_step(before, message, around, after, action),
        AppMessage::Find(message) => (after, action) == find_app_step(before, message, around),
        AppMessage::Help(message) => (after, action) == help_app_step(before, message),
        AppMessage::Input(_) => after == before && action == idle(),
    }
}

/// One step of the editor. The status report clears on every message
/// but a yank, which writes its own. A binding's command reaches the
/// feature it names; arming a prefix or typing a count digit only moves
/// the canvas's pending input; moving the unsaved prompt's focus is the
/// shell's, and counts as activity.
pub open spec fn app_step(
    before: AppModel,
    message: AppMessage,
    around: Surroundings,
    after: AppModel,
    action: ActionModel,
) -> bool {
    let start = if message matches AppMessage::Preview(PreviewCommand::Yank) {
        before
    } else {
        AppModel { report: None, ..before }
    };
    match message {
        AppMessage::Input(InputMessage::ArmPrefix(prefix)) => {
            &&& after == AppModel { interaction: after.interaction, ..start }
            &&& after.interaction == start.interaction.with_workspace(after.interaction.workspace_spec())
            &&& start.interaction.workspace_spec().transitioned(
                after.interaction.workspace_spec(),
                Transition::ArmPrefix(prefix),
            )
            &&& action == idle()
        },
        AppMessage::Input(InputMessage::PushCountDigit(digit)) => {
            &&& after == AppModel { interaction: after.interaction, ..start }
            &&& after.interaction == start.interaction.with_workspace(after.interaction.workspace_spec())
            &&& start.interaction.workspace_spec().transitioned(
                after.interaction.workspace_spec(),
                Transition::PushDigit(digit as u32),
            )
            &&& action == idle()
        },
        AppMessage::Input(InputMessage::Execute(command)) => match command_message(command) {
            Some(mapped) => feature_step(start, mapped, around, after, action),
            None => {
                &&& after == AppModel { interaction: settled(start.interaction), ..start }
                &&& action == ActionModel {
                    dialog: Some(
                        if command == Command::Document(DocumentCommand::UnsavedNext) {
                            DialogStep::Next
                        } else {
                            DialogStep::Previous
                        },
                    ),
                    ..idle()
                }
            },
        },
        _ => feature_step(start, message, around, after, action),
    }
}

// ---------------------------------------------------------------------------
// The editor's state.
// ---------------------------------------------------------------------------

/// Everything the editor decides over.
pub struct AppState {
    interaction: InteractionState,
    document: DocumentState,
    comments: CommentsState,
    find: Find,
    help: Help,
    report: Option<String>,
}

impl AppState {
    /// The editor as the contracts see it.
    pub closed spec fn model(&self) -> AppModel {
        AppModel {
            interaction: self.interaction@,
            document: self.document.model(),
            comments: self.comments.model(),
            find_query: self.find.query_view(),
            find_current: self.find.current_view(),
            help_query: self.help.query_view(),
            report: text_view(self.report),
        }
    }

    /// Well-formedness: the comments store's.
    pub closed spec fn wf(&self) -> bool {
        self.comments.wf()
    }

    /// An editor over a document with `contents`, read from `path` when
    /// there is one: editable in the write surface, or preview-only.
    pub fn new(contents: &str, path: Option<PathBytes>, preview_only: bool) -> (app: AppState)
        ensures
            app.wf(),
            app.model() == (AppModel {
                interaction: if preview_only {
                    RootState::Active(Workspace::PreviewOnly(PreviewState::canvas_spec(PreviewMode::View)))
                } else {
                    RootState::Active(Workspace::Editable(EditableWorkspace::Write(crate::interaction::WriteState::Editor)))
                },
                document: DocumentModel {
                    path: match path {
                        Some(path) => Some(path@),
                        None => None,
                    },
                    saved: contents@,
                    pending: None,
                },
                comments: WorkflowModel { threads: seq![], active: None, editing: None, sidebar: None },
                find_query: seq![],
                find_current: None,
                help_query: seq![],
                report: None,
            }),
    {
        AppState {
            interaction: if preview_only {
                InteractionState::preview_only()
            } else {
                InteractionState::editable()
            },
            document: DocumentState::new(contents, path),
            comments: CommentsState::new(),
            find: Find::new(),
            help: Help::new(),
            report: None,
        }
    }

    /// The interaction state.
    pub fn interaction(&self) -> (interaction: &InteractionState)
        ensures
            interaction@ == self.model().interaction,
    {
        &self.interaction
    }

    /// The document's persistence state.
    pub fn document(&self) -> (document: &DocumentState)
        ensures
            document.model() == self.model().document,
    {
        &self.document
    }

    /// The comments feature.
    pub fn comments(&self) -> (comments: &CommentsState)
        ensures
            comments.model() == self.model().comments,
    {
        &self.comments
    }

    /// The find popup's state.
    pub fn find(&self) -> (find: &Find)
        ensures
            find.query_view() == self.model().find_query,
            find.current_view() == self.model().find_current,
    {
        &self.find
    }

    /// The Help window's state.
    pub fn help(&self) -> (help: &Help)
        ensures
            help.query_view() == self.model().help_query,
    {
        &self.help
    }

    /// The status line's yank report, if one shows.
    pub fn report(&self) -> (report: Option<&str>)
        ensures
            match (report, self.model().report) {
                (Some(shown), Some(expected)) => shown@ == expected,
                (None, None) => true,
                _ => false,
            },
    {
        match &self.report {
            Some(report) => Some(report.as_str()),
            None => None,
        }
    }
}


impl AppAction {
    /// Nothing to do.
    pub fn idle() -> (action: AppAction)
        ensures
            action_view(action) == idle(),
    {
        AppAction {
            work: Work::Nothing,
            text: None,
            source: None,
            close_window: None,
            preview: None,
            switched_from: None,
            clipboard: None,
            focus: None,
            dialog: None,
            composer: ComposerChange::Keep,
            clear_draft: false,
            navigate: None,
            find: None,
        }
    }
}

/// The feature message a binding's command stands for.
pub fn command_message_of(command: Command) -> (message: Option<AppMessage>)
    ensures
        message == command_message(command),
{
    match command {
        Command::Document(command) => match command {
            DocumentCommand::Open => Some(AppMessage::Document(DocumentMessage::OpenRequested)),
            DocumentCommand::Save => Some(AppMessage::Document(DocumentMessage::SaveRequested)),
            DocumentCommand::CancelUnsaved => Some(AppMessage::Document(DocumentMessage::UnsavedCancel)),
            DocumentCommand::ConfirmUnsaved => Some(AppMessage::Document(DocumentMessage::UnsavedSave)),
            DocumentCommand::UnsavedNext | DocumentCommand::UnsavedPrevious => None,
        },
        Command::Preview(command) => Some(AppMessage::Preview(command)),
        Command::Comments(command) => Some(
            AppMessage::Comments(
                match command {
                    CommentsCommand::OpenNote => CommentsMessage::OpenComposer,
                    CommentsCommand::CloseNote => CommentsMessage::CloseComposer,
                    CommentsCommand::SaveNote => CommentsMessage::SaveComposer,
                    CommentsCommand::EditActive => CommentsMessage::EditActive,
                    CommentsCommand::Next => CommentsMessage::Cycle,
                    CommentsCommand::ToggleSidebar => CommentsMessage::ToggleSidebar,
                    CommentsCommand::AddGlobal => CommentsMessage::AddDraftAsGlobal,
                    CommentsCommand::Publish => CommentsMessage::PublishDraft,
                },
            ),
        ),
        Command::Find(command) => Some(
            AppMessage::Find(
                match command {
                    FindCommand::Open => FindMessage::Open,
                    FindCommand::Close => FindMessage::Close,
                    FindCommand::Next => FindMessage::Next,
                    FindCommand::Previous => FindMessage::Previous,
                },
            ),
        ),
        Command::Help(command) => Some(
            AppMessage::Help(
                match command {
                    HelpCommand::Open => HelpMessage::Open,
                    HelpCommand::Close => HelpMessage::Close,
                },
            ),
        ),
    }
}

impl AppState {
    /// Applies one message, reading the shell's widgets from `around`,
    /// and says what the shell must do.
    pub fn step(&mut self, message: AppMessage, around: &Surroundings) -> (action: AppAction)
        requires
            old(self).wf(),
        ensures
            final(self).wf(),
            app_step(old(self).model(), message, *around, final(self).model(), action_view(action)),
    {
        let keeps_report = matches!(message, AppMessage::Preview(PreviewCommand::Yank));
        if !keeps_report {
            self.report = None;
        }
        match message {
            AppMessage::Input(InputMessage::ArmPrefix(prefix)) => {
                self.interaction.arm_prefix(prefix);
                AppAction::idle()
            },
            AppMessage::Input(InputMessage::PushCountDigit(digit)) => {
                self.interaction.push_count_digit(digit as u32);
                AppAction::idle()
            },
            AppMessage::Input(InputMessage::Execute(command)) => match command_message_of(command) {
                Some(mapped) => self.feature(mapped, around),
                None => {
                    let ghost root = self.interaction@;
                    self.interaction.activity();
                    proof {
                        lemma_cleared(root.workspace_spec(), self.interaction@.workspace_spec());
                    }
                    let mut action = AppAction::idle();
                    action.dialog = Some(
                        match command {
                            Command::Document(DocumentCommand::UnsavedNext) => DialogStep::Next,
                            _ => DialogStep::Previous,
                        },
                    );
                    action
                },
            },
            message => self.feature(message, around),
        }
    }

    /// Hands a feature message to the feature it names.
    fn feature(&mut self, message: AppMessage, around: &Surroundings) -> (action: AppAction)
        requires
            old(self).wf(),
        ensures
            final(self).wf(),
            feature_step(old(self).model(), message, *around, final(self).model(), action_view(action)),
    {
        match message {
            AppMessage::Document(message) => self.on_document(message, around.live.as_str()),
            AppMessage::Preview(command) => self.on_preview(command, around.selected_text.as_str()),
            AppMessage::Comments(message) => self.on_comments(message, around),
            AppMessage::Find(message) => self.on_find(message, around),
            AppMessage::Help(message) => self.on_help(message),
            AppMessage::Input(_) => AppAction::idle(),
        }
    }

    fn on_document(&mut self, message: DocumentMessage, live: &str) -> (action: AppAction)
        requires
            old(self).wf(),
        ensures
            final(self).wf(),
            (final(self).model(), action_view(action)) == document_app_step(old(self).model(), message, live@),
    {
        let ghost before = self.model();
        let answers = match message {
            DocumentMessage::UnsavedCancel | DocumentMessage::UnsavedSave
            | DocumentMessage::UnsavedDiscard => true,
            _ => false,
        };
        let mut answer_focus: Option<FocusTarget> = None;
        if answers {
            match self.interaction.resolve_unsaved() {
                Some(resolution) => answer_focus = resolution.focus(),
                None => {
                    return AppAction::idle();
                },
            }
        }
        let ghost root = self.interaction@;
        let update = self.document.update(message, live);
        let crate::document::Update { work, event, text } = update;
        let mut raised_focus: Option<Option<FocusTarget>> = None;
        match event {
            Some(DocumentEvent::SourceReplaced { reason: SourceReplacement::Loaded }) => {
                self.interaction.document_loaded();
                self.comments = CommentsState::new();
            },
            Some(DocumentEvent::UnsavedVisibilityChanged(true)) => match self.document.pending_action() {
                Some(pending) => {
                    let ghost shown = self.interaction@;
                    self.interaction.open_unsaved(pending);
                    proof {
                        lemma_prompted(shown, self.interaction@, pending);
                    }
                },
                None => {},
            },
            Some(DocumentEvent::UnsavedVisibilityChanged(false)) => match self.interaction.resolve_unsaved() {
                Some(resolution) => raised_focus = Some(resolution.focus()),
                None => {},
            },
            _ => {},
        }
        if !answers {
            let ghost raised = self.interaction@;
            self.interaction.activity();
            proof {
                lemma_cleared(raised.workspace_spec(), self.interaction@.workspace_spec());
            }
        }
        let source = match event {
            Some(DocumentEvent::SourceReplaced { reason }) => Some(reason),
            _ => None,
        };
        let close_window = match event {
            Some(DocumentEvent::CloseWindow(id)) => Some(id),
            _ => None,
        };
        let focus = match raised_focus {
            Some(focus) => focus,
            None => answer_focus,
        };
        let mut action = AppAction::idle();
        action.work = work;
        action.text = text;
        action.source = source;
        action.close_window = close_window;
        action.focus = focus;
        action
    }

    fn on_preview(&mut self, command: PreviewCommand, selected: &str) -> (action: AppAction)
        ensures
            final(self).comments == old(self).comments,
            (final(self).model(), action_view(action)) == preview_app_step(old(self).model(), command, selected@),
    {
        let projection = self.interaction.projection();
        match command {
            PreviewCommand::Toggle => {
                if !projection.can_toggle_preview() {
                    return AppAction::idle();
                }
                let from = projection.surface();
                self.interaction.toggle_preview();
                let mut action = AppAction::idle();
                action.switched_from = Some(from);
                action.focus = self.interaction.focus_target();
                action
            },
            PreviewCommand::ToggleVisual => match self.interaction.toggle_visual() {
                Ok(()) => {
                    let visual = self.interaction.projection().visual();
                    let mut action = AppAction::idle();
                    action.preview = Some((command, visual));
                    action
                },
                Err(_) => AppAction::idle(),
            },
            PreviewCommand::Cancel => match projection.surface() {
                Surface::Preview => {
                    let _ = self.interaction.cancel_preview();
                    let visual = self.interaction.projection().visual();
                    let mut action = AppAction::idle();
                    action.preview = Some((command, visual));
                    action
                },
                Surface::Write => AppAction::idle(),
            },
            PreviewCommand::Yank => {
                if !projection.visual() {
                    return AppAction::idle();
                }
                match self.interaction.toggle_visual() {
                    Ok(()) => {},
                    Err(_) => {
                        return AppAction::idle();
                    },
                }
                let ghost toggled = self.interaction@;
                self.interaction.activity();
                proof {
                    lemma_cleared(toggled.workspace_spec(), self.interaction@.workspace_spec());
                }
                self.report = Some(yank_report(selected));
                let visual = self.interaction.projection().visual();
                let mut action = AppAction::idle();
                action.preview = Some((command, visual));
                action.clipboard = Some(selected.to_owned());
                action
            },
            _ => {
                let visual = projection.visual();
                let ghost root = self.interaction@;
                self.interaction.activity();
                proof {
                    lemma_cleared(root.workspace_spec(), self.interaction@.workspace_spec());
                }
                let mut action = AppAction::idle();
                action.preview = Some((command, visual));
                action
            },
        }
    }

    fn on_comments(&mut self, message: CommentsMessage, around: &Surroundings) -> (action: AppAction)
        requires
            old(self).wf(),
        ensures
            final(self).wf(),
            comments_app_step(old(self).model(), message, *around, final(self).model(), action_view(action)),
    {
        let opens = match message {
            CommentsMessage::OpenComposer | CommentsMessage::EditActive => true,
            _ => false,
        };
        if opens {
            let mut probe = self.interaction;
            if probe.open_note().is_err() {
                return AppAction::idle();
            }
        }
        let ghost before = self.model();
        let context = Context {
            caret: around.caret,
            selection: around.selection,
            composer_open: self.interaction.projection().contains(Overlay::Note),
        };
        let update = self.comments.update(message, context, around.composer.as_str(), around.draft.as_str());
        let ghost seen = crate::comment_workflow::update_view(update);
        let crate::comment_workflow::Update { event, composer, clear_draft } = update;
        let clears = match composer {
            ComposerChange::Clear => true,
            _ => false,
        };
        let mut focus: Option<FocusTarget> = None;
        match event {
            Some(CommentsEvent::FocusComposer) => match self.interaction.open_note() {
                Ok(()) => focus = self.interaction.focus_target(),
                Err(_) => {},
            },
            _ => if clears {
                focus = self.interaction.close_note();
            },
        }
        let navigate = match event {
            Some(CommentsEvent::NavigateTo(at)) => Some(at),
            _ => None,
        };
        let mut action = AppAction::idle();
        action.focus = focus;
        action.composer = composer;
        action.clear_draft = clear_draft;
        action.navigate = navigate;
        proof {
            assert(workflow_step(
                before.comments,
                message,
                comments_context(before.interaction, *around),
                around.composer@,
                around.draft@,
                self.model().comments,
                seen,
            ));
        }
        action
    }

    fn on_find(&mut self, message: FindMessage, around: &Surroundings) -> (action: AppAction)
        ensures
            final(self).comments == old(self).comments,
            (final(self).model(), action_view(action)) == find_app_step(old(self).model(), message, *around),
    {
        match message {
            FindMessage::Open => {
                self.interaction.open_find();
                let mut action = AppAction::idle();
                action.focus = Some(FocusTarget::FindInput);
                action
            },
            FindMessage::Close => {
                let focus = self.interaction.close_find();
                let mut action = AppAction::idle();
                action.focus = focus;
                action
            },
            FindMessage::QueryChanged(query) => {
                self.find.set_query(query.as_str());
                self.select_match(Way::First, around)
            },
            FindMessage::Next => self.select_match(Way::Next, around),
            FindMessage::Previous => self.select_match(Way::Previous, around),
        }
    }

    fn select_match(&mut self, way: Way, around: &Surroundings) -> (action: AppAction)
        ensures
            final(self).comments == old(self).comments,
            (final(self).model(), action_view(action)) == find_select(old(self).model(), way, *around),
    {
        if !self.find.is_active() {
            return AppAction::idle();
        }
        match self.interaction.projection().surface() {
            Surface::Write => match self.find.select(way, around.source_matches) {
                Some(index) => {
                    let mut action = AppAction::idle();
                    action.find = Some(FindSelection::Source(index));
                    action
                },
                None => AppAction::idle(),
            },
            Surface::Preview => match self.find.select_preview(way, &around.elements) {
                Some((element, range)) => {
                    let mut action = AppAction::idle();
                    action.find = Some(FindSelection::Preview(element, range));
                    action
                },
                None => AppAction::idle(),
            },
        }
    }

    fn on_help(&mut self, message: HelpMessage) -> (action: AppAction)
        ensures
            final(self).comments == old(self).comments,
            (final(self).model(), action_view(action)) == help_app_step(old(self).model(), message),
    {
        match message {
            HelpMessage::Open => {
                self.help.update(HelpMessage::Open);
                self.interaction.open_help();
                let mut action = AppAction::idle();
                action.focus = Some(FocusTarget::HelpInput);
                action
            },
            HelpMessage::Close => {
                if !help_window_open(&self.interaction) {
                    return AppAction::idle();
                }
                self.help.update(HelpMessage::Close);
                let focus = self.interaction.close_help();
                let mut action = AppAction::idle();
                action.focus = focus;
                action
            },
            message => {
                self.help.update(message);
                AppAction::idle()
            },
        }
    }
}

} // verus!
