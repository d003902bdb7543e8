//! Legal interaction states and their transitions.
//!
//! The interaction hierarchy is a small stack: a workspace (the write
//! editor, or the preview canvas with an optional note and find popup on
//! top), possibly suspended below the unsaved-changes prompt, possibly
//! suspended below the Help window. Every transition is a total function on
//! that stack, so the overlays always close back onto exactly what they
//! covered.
use crate::pending::{Pending, Prefix};
use vstd::prelude::*;

verus! {

/// What the unsaved-changes dialog guards: opening another file, or
/// closing the window with the given identifier.
#[derive(Debug, Clone, Copy, PartialEq, Eq, Hash)]
pub enum UnsavedAction {
    OpenFile,
    CloseWindow(u64),
}

/// Whether the preview canvas moves the caret or extends a selection.
#[derive(Debug, Clone, Copy, PartialEq, Eq, Hash)]
pub enum PreviewMode {
    View,
    Visual,
}

/// The write surface: the source editor, or the find popup above it.
#[derive(Debug, Clone, Copy, PartialEq, Eq, Hash)]
pub enum WriteState {
    Editor,
    Find,
}

/// What the find popup covers on the preview: the canvas in a mode, or the
/// note popup suspended with the canvas mode below it.
#[derive(Debug, Clone, Copy, PartialEq, Eq, Hash)]
pub enum FindResume {
    Canvas(PreviewMode),
    Note(PreviewMode),
}

/// The preview surface: the canvas with its pending input, the note popup
/// over it, or the find popup over either.
#[derive(Debug, Clone, Copy, PartialEq, Eq, Hash)]
pub enum PreviewState {
    Canvas { mode: PreviewMode, pending: Pending },
    Note { resume: PreviewMode },
    Find { resume: FindResume },
}

/// An editable session shows either the write editor or the preview.
#[derive(Debug, Clone, Copy, PartialEq, Eq, Hash)]
pub enum EditableWorkspace {
    Write(WriteState),
    Preview(PreviewState),
}

/// The document workspace: editable, or locked to the preview.
#[derive(Debug, Clone, Copy, PartialEq, Eq, Hash)]
pub enum Workspace {
    Editable(EditableWorkspace),
    PreviewOnly(PreviewState),
}

/// What Help suspends: the workspace, or the unsaved prompt over it.
#[derive(Debug, Clone, Copy, PartialEq, Eq, Hash)]
pub enum HelpResume {
    Active(Workspace),
    Unsaved { action: UnsavedAction, resume: Workspace },
}

/// The root of the hierarchy: the workspace, the unsaved prompt over it, or
/// Help over either.
#[derive(Debug, Clone, Copy, PartialEq, Eq, Hash)]
pub enum RootState {
    Active(Workspace),
    Unsaved { action: UnsavedAction, resume: Workspace },
    Help { resume: HelpResume },
}

/// The mode shown in the toolbar badge.
#[derive(Debug, Clone, Copy, PartialEq, Eq, Hash)]
pub enum ModeBadge {
    Write,
    View,
    Visual,
    Note,
    Find,
}

/// The document surface rendered below any overlays.
#[derive(Debug, Clone, Copy, PartialEq, Eq, Hash)]
pub enum Surface {
    Write,
    Preview,
}

/// An overlay in bottom-to-top rendering order.
#[derive(Debug, Clone, Copy, PartialEq, Eq, Hash)]
pub enum Overlay {
    Note,
    Find,
    Unsaved(UnsavedAction),
    Help,
}

/// The widget that should own keyboard focus in the current hierarchy.
#[derive(Debug, Clone, Copy, PartialEq, Eq, Hash)]
pub enum FocusTarget {
    SourceEditor,
    NoteComposer,
    FindInput,
    HelpInput,
}

/// Why a requested transition cannot originate in the current state.
#[derive(Debug, Clone, Copy, PartialEq, Eq)]
pub enum TransitionError {
    RequiresPreview,
    OverlayOwnsInput,
}

/// A workspace transition that always applies.
#[derive(Debug, Clone, Copy, PartialEq, Eq)]
pub enum Transition {
    TogglePreview,
    CancelPreview,
    CloseNote,
    OpenFind,
    CloseFind,
    DocumentLoaded,
    ClearPending,
    ArmPrefix(Prefix),
    PushDigit(u32),
}

/// A workspace transition that some workspaces refuse.
#[derive(Debug, Clone, Copy, PartialEq, Eq)]
pub enum FallibleTransition {
    ToggleVisual,
    OpenNote,
}

/// A resolved unsaved prompt and the focus encoded by its resumed state.
#[derive(Debug, Clone, Copy, PartialEq, Eq)]
pub struct UnsavedResolution {
    pub action: UnsavedAction,
    pub focus: Option<FocusTarget>,
}

/// A coherent, derived view of the interaction hierarchy.
#[derive(Debug, Clone, PartialEq, Eq)]
pub struct ViewProjection {
    pub surface: Surface,
    pub badge: ModeBadge,
    pub preview_mode: Option<PreviewMode>,
    pub can_toggle_preview: bool,
    /// The pending count shown beside the badge; never zero.
    pub pending_count: Option<u32>,
    /// The overlays, bottom to top.
    pub overlays: Vec<Overlay>,
}

/// The complete interaction state. Its root is private so callers can only
/// move between legal states through transition methods.
#[derive(Debug, Clone, Copy, PartialEq, Eq, Hash)]
pub struct InteractionState {
    root: RootState,
}

// ---------------------------------------------------------------------------
// The transition table, as spec functions.
// ---------------------------------------------------------------------------

impl PreviewMode {
    pub open spec fn toggled_spec(self) -> PreviewMode {
        match self {
            PreviewMode::View => PreviewMode::Visual,
            PreviewMode::Visual => PreviewMode::View,
        }
    }
}

/// Whether `next` is what a pending-input step makes of `prev`.
pub open spec fn pending_stepped(prev: Pending, next: Pending, step: Transition) -> bool {
    match step {
        Transition::ArmPrefix(prefix) => next == (Pending::Prefix { prefix, count: prev.count_of() }),
        Transition::PushDigit(digit) => crate::pending::digit_pushed(prev, next, digit),
        _ => next == Pending::Idle,
    }
}

/// Whether a transition only touches the pending input of the canvas.
pub open spec fn is_pending_step(step: Transition) -> bool {
    match step {
        Transition::ArmPrefix(_) | Transition::PushDigit(_) | Transition::ClearPending => true,
        _ => false,
    }
}

impl PreviewState {
    /// A fresh canvas in `mode` with nothing pending.
    pub open spec fn canvas_spec(mode: PreviewMode) -> PreviewState {
        PreviewState::Canvas { mode, pending: Pending::Idle }
    }

    /// The preview mode below any popups.
    pub open spec fn mode_spec(self) -> PreviewMode {
        match self {
            PreviewState::Canvas { mode, .. } => mode,
            PreviewState::Note { resume } => resume,
            PreviewState::Find { resume: FindResume::Canvas(mode) } => mode,
            PreviewState::Find { resume: FindResume::Note(mode) } => mode,
        }
    }

    pub open spec fn visual_toggled(self) -> Result<PreviewState, TransitionError> {
        match self {
            PreviewState::Canvas { mode, .. } => Ok(PreviewState::canvas_spec(mode.toggled_spec())),
            _ => Err(TransitionError::OverlayOwnsInput),
        }
    }

    pub open spec fn preview_cancelled(self) -> PreviewState {
        match self {
            PreviewState::Canvas { .. } => PreviewState::canvas_spec(PreviewMode::View),
            PreviewState::Note { .. } => PreviewState::Note { resume: PreviewMode::View },
            PreviewState::Find { resume: FindResume::Canvas(_) } => PreviewState::Find {
                resume: FindResume::Canvas(PreviewMode::View),
            },
            PreviewState::Find { resume: FindResume::Note(_) } => PreviewState::Find {
                resume: FindResume::Note(PreviewMode::View),
            },
        }
    }

    pub open spec fn note_opened(self) -> PreviewState {
        match self {
            PreviewState::Canvas { mode, .. } => PreviewState::Note { resume: mode },
            PreviewState::Note { .. } => self,
            PreviewState::Find { resume: FindResume::Canvas(mode) } => PreviewState::Find {
                resume: FindResume::Note(mode),
            },
            PreviewState::Find { resume: FindResume::Note(_) } => self,
        }
    }

    pub open spec fn note_closed(self) -> PreviewState {
        match self {
            PreviewState::Note { resume } => PreviewState::canvas_spec(resume),
            PreviewState::Find { resume: FindResume::Note(mode) } => PreviewState::Find {
                resume: FindResume::Canvas(mode),
            },
            _ => self,
        }
    }

    pub open spec fn find_opened(self) -> PreviewState {
        match self {
            PreviewState::Canvas { mode, .. } => PreviewState::Find {
                resume: FindResume::Canvas(mode),
            },
            PreviewState::Note { resume } => PreviewState::Find { resume: FindResume::Note(resume) },
            PreviewState::Find { .. } => self,
        }
    }

    pub open spec fn find_closed(self) -> PreviewState {
        match self {
            PreviewState::Find { resume: FindResume::Canvas(mode) } => PreviewState::canvas_spec(
                mode,
            ),
            PreviewState::Find { resume: FindResume::Note(mode) } => PreviewState::Note {
                resume: mode,
            },
            _ => self,
        }
    }

    /// Whether `next` is `self` with its pending input stepped.
    pub open spec fn pending_updated(self, next: PreviewState, step: Transition) -> bool {
        match self {
            PreviewState::Canvas { mode, pending } => next matches PreviewState::Canvas {
                mode: next_mode,
                pending: next_pending,
            } && next_mode == mode && pending_stepped(pending, next_pending, step),
            _ => next == self,
        }
    }

    /// The pending input the canvas holds; popups hold none.
    pub open spec fn pending_spec(self) -> Pending {
        match self {
            PreviewState::Canvas { pending, .. } => pending,
            _ => Pending::Idle,
        }
    }
}

impl Workspace {
    pub open spec fn preview_toggled(self) -> Workspace {
        match self {
            Workspace::Editable(EditableWorkspace::Write(WriteState::Editor)) => Workspace::Editable(
                EditableWorkspace::Preview(PreviewState::canvas_spec(PreviewMode::View)),
            ),
            Workspace::Editable(EditableWorkspace::Write(WriteState::Find)) => Workspace::Editable(
                EditableWorkspace::Preview(
                    PreviewState::Find { resume: FindResume::Canvas(PreviewMode::View) },
                ),
            ),
            Workspace::Editable(EditableWorkspace::Preview(PreviewState::Find { .. })) => {
                Workspace::Editable(EditableWorkspace::Write(WriteState::Find))
            },
            Workspace::Editable(EditableWorkspace::Preview(_)) => Workspace::Editable(
                EditableWorkspace::Write(WriteState::Editor),
            ),
            Workspace::PreviewOnly(_) => self,
        }
    }

    pub open spec fn visual_toggled(self) -> Result<Workspace, TransitionError> {
        match self {
            Workspace::Editable(EditableWorkspace::Write(_)) => Err(
                TransitionError::RequiresPreview,
            ),
            Workspace::Editable(EditableWorkspace::Preview(preview)) => match preview.visual_toggled() {
                Ok(next) => Ok(Workspace::Editable(EditableWorkspace::Preview(next))),
                Err(error) => Err(error),
            },
            Workspace::PreviewOnly(preview) => match preview.visual_toggled() {
                Ok(next) => Ok(Workspace::PreviewOnly(next)),
                Err(error) => Err(error),
            },
        }
    }

    pub open spec fn preview_cancelled(self) -> Workspace {
        match self {
            Workspace::Editable(EditableWorkspace::Write(_)) => self,
            Workspace::Editable(EditableWorkspace::Preview(preview)) => Workspace::Editable(
                EditableWorkspace::Preview(preview.preview_cancelled()),
            ),
            Workspace::PreviewOnly(preview) => Workspace::PreviewOnly(preview.preview_cancelled()),
        }
    }

    pub open spec fn note_opened(self) -> Result<Workspace, TransitionError> {
        match self {
            Workspace::Editable(EditableWorkspace::Write(_)) => Err(
                TransitionError::RequiresPreview,
            ),
            Workspace::Editable(EditableWorkspace::Preview(preview)) => Ok(
                Workspace::Editable(EditableWorkspace::Preview(preview.note_opened())),
            ),
            Workspace::PreviewOnly(preview) => Ok(Workspace::PreviewOnly(preview.note_opened())),
        }
    }

    pub open spec fn note_closed(self) -> Workspace {
        match self {
            Workspace::Editable(EditableWorkspace::Write(_)) => self,
            Workspace::Editable(EditableWorkspace::Preview(preview)) => Workspace::Editable(
                EditableWorkspace::Preview(preview.note_closed()),
            ),
            Workspace::PreviewOnly(preview) => Workspace::PreviewOnly(preview.note_closed()),
        }
    }

    pub open spec fn find_opened(self) -> Workspace {
        match self {
            Workspace::Editable(EditableWorkspace::Write(_)) => Workspace::Editable(
                EditableWorkspace::Write(WriteState::Find),
            ),
            Workspace::Editable(EditableWorkspace::Preview(preview)) => Workspace::Editable(
                EditableWorkspace::Preview(preview.find_opened()),
            ),
            Workspace::PreviewOnly(preview) => Workspace::PreviewOnly(preview.find_opened()),
        }
    }

    pub open spec fn find_closed(self) -> Workspace {
        match self {
            Workspace::Editable(EditableWorkspace::Write(_)) => Workspace::Editable(
                EditableWorkspace::Write(WriteState::Editor),
            ),
            Workspace::Editable(EditableWorkspace::Preview(preview)) => Workspace::Editable(
                EditableWorkspace::Preview(preview.find_closed()),
            ),
            Workspace::PreviewOnly(preview) => Workspace::PreviewOnly(preview.find_closed()),
        }
    }

    pub open spec fn loaded(self) -> Workspace {
        match self {
            Workspace::Editable(EditableWorkspace::Write(_)) => Workspace::Editable(
                EditableWorkspace::Write(WriteState::Editor),
            ),
            Workspace::Editable(EditableWorkspace::Preview(_)) => Workspace::Editable(
                EditableWorkspace::Preview(PreviewState::canvas_spec(PreviewMode::View)),
            ),
            Workspace::PreviewOnly(_) => Workspace::PreviewOnly(
                PreviewState::canvas_spec(PreviewMode::View),
            ),
        }
    }

    /// The preview state, when the preview is the surface.
    pub open spec fn preview_of(self) -> Option<PreviewState> {
        match self {
            Workspace::Editable(EditableWorkspace::Preview(preview)) => Some(preview),
            Workspace::PreviewOnly(preview) => Some(preview),
            _ => None,
        }
    }

    /// Whether `next` is `self` with the canvas's pending input stepped.
    pub open spec fn pending_updated(self, next: Workspace, step: Transition) -> bool {
        match self {
            Workspace::Editable(EditableWorkspace::Preview(preview)) => next matches Workspace::Editable(
                EditableWorkspace::Preview(next_preview),
            ) && preview.pending_updated(next_preview, step),
            Workspace::PreviewOnly(preview) => next matches Workspace::PreviewOnly(next_preview)
                && preview.pending_updated(next_preview, step),
            Workspace::Editable(EditableWorkspace::Write(_)) => next == self,
        }
    }

    /// Whether `next` is what an always-applicable transition makes of
    /// `self`.
    pub open spec fn transitioned(self, next: Workspace, step: Transition) -> bool {
        match step {
            Transition::TogglePreview => next == self.preview_toggled(),
            Transition::CancelPreview => next == self.preview_cancelled(),
            Transition::CloseNote => next == self.note_closed(),
            Transition::OpenFind => next == self.find_opened(),
            Transition::CloseFind => next == self.find_closed(),
            Transition::DocumentLoaded => next == self.loaded(),
            _ => self.pending_updated(next, step),
        }
    }

    pub open spec fn fallibly_transitioned(self, step: FallibleTransition) -> Result<
        Workspace,
        TransitionError,
    > {
        match step {
            FallibleTransition::ToggleVisual => self.visual_toggled(),
            FallibleTransition::OpenNote => self.note_opened(),
        }
    }

    /// The pending input of an exposed canvas; every other state holds none.
    pub open spec fn pending_spec(self) -> Pending {
        match self.preview_of() {
            Some(preview) => preview.pending_spec(),
            None => Pending::Idle,
        }
    }

    pub open spec fn focus_spec(self) -> Option<FocusTarget> {
        match self {
            Workspace::Editable(EditableWorkspace::Write(WriteState::Editor)) => Some(
                FocusTarget::SourceEditor,
            ),
            Workspace::Editable(EditableWorkspace::Write(WriteState::Find)) => Some(
                FocusTarget::FindInput,
            ),
            Workspace::Editable(EditableWorkspace::Preview(preview)) => preview.focus_spec(),
            Workspace::PreviewOnly(preview) => preview.focus_spec(),
        }
    }

    pub open spec fn surface_spec(self) -> Surface {
        match self {
            Workspace::Editable(EditableWorkspace::Write(_)) => Surface::Write,
            _ => Surface::Preview,
        }
    }

    pub open spec fn badge_spec(self) -> ModeBadge {
        match self {
            Workspace::Editable(EditableWorkspace::Write(WriteState::Editor)) => ModeBadge::Write,
            Workspace::Editable(EditableWorkspace::Write(WriteState::Find)) => ModeBadge::Find,
            Workspace::Editable(EditableWorkspace::Preview(preview)) => preview.badge_spec(),
            Workspace::PreviewOnly(preview) => preview.badge_spec(),
        }
    }

    pub open spec fn preview_mode_spec(self) -> Option<PreviewMode> {
        match self.preview_of() {
            Some(preview) => Some(preview.mode_spec()),
            None => None,
        }
    }

    pub open spec fn can_toggle_spec(self) -> bool {
        self is Editable
    }

    /// The workspace's own overlays, bottom to top.
    pub open spec fn overlays_spec(self) -> Seq<Overlay> {
        match self {
            Workspace::Editable(EditableWorkspace::Write(WriteState::Editor)) => seq![],
            Workspace::Editable(EditableWorkspace::Write(WriteState::Find)) => seq![Overlay::Find],
            Workspace::Editable(EditableWorkspace::Preview(preview)) => preview.overlays_spec(),
            Workspace::PreviewOnly(preview) => preview.overlays_spec(),
        }
    }
}

impl PreviewState {
    pub open spec fn focus_spec(self) -> Option<FocusTarget> {
        match self {
            PreviewState::Canvas { .. } => None,
            PreviewState::Note { .. } => Some(FocusTarget::NoteComposer),
            PreviewState::Find { .. } => Some(FocusTarget::FindInput),
        }
    }

    pub open spec fn badge_spec(self) -> ModeBadge {
        match self {
            PreviewState::Canvas { mode: PreviewMode::View, .. } => ModeBadge::View,
            PreviewState::Canvas { mode: PreviewMode::Visual, .. } => ModeBadge::Visual,
            PreviewState::Note { .. } => ModeBadge::Note,
            PreviewState::Find { .. } => ModeBadge::Find,
        }
    }

    pub open spec fn overlays_spec(self) -> Seq<Overlay> {
        match self {
            PreviewState::Canvas { .. } => seq![],
            PreviewState::Note { .. } => seq![Overlay::Note],
            PreviewState::Find { resume: FindResume::Canvas(_) } => seq![Overlay::Find],
            PreviewState::Find { resume: FindResume::Note(_) } => seq![Overlay::Note, Overlay::Find],
        }
    }
}

impl RootState {
    /// The workspace below every root overlay.
    pub open spec fn workspace_spec(self) -> Workspace {
        match self {
            RootState::Active(workspace) => workspace,
            RootState::Unsaved { resume, .. } => resume,
            RootState::Help { resume: HelpResume::Active(workspace) } => workspace,
            RootState::Help { resume: HelpResume::Unsaved { resume, .. } } => resume,
        }
    }

    /// The same root overlays over another workspace.
    pub open spec fn with_workspace(self, workspace: Workspace) -> RootState {
        match self {
            RootState::Active(_) => RootState::Active(workspace),
            RootState::Unsaved { action, .. } => RootState::Unsaved { action, resume: workspace },
            RootState::Help { resume: HelpResume::Active(_) } => RootState::Help {
                resume: HelpResume::Active(workspace),
            },
            RootState::Help { resume: HelpResume::Unsaved { action, .. } } => RootState::Help {
                resume: HelpResume::Unsaved { action, resume: workspace },
            },
        }
    }

    /// The action the unsaved prompt confirms, when it is open.
    pub open spec fn unsaved_spec(self) -> Option<UnsavedAction> {
        match self {
            RootState::Unsaved { action, .. } => Some(action),
            RootState::Help { resume: HelpResume::Unsaved { action, .. } } => Some(action),
            _ => None,
        }
    }

    pub open spec fn help_open_spec(self) -> bool {
        self is Help
    }

    pub open spec fn help_opened(self) -> RootState {
        match self {
            RootState::Active(workspace) => RootState::Help { resume: HelpResume::Active(workspace) },
            RootState::Unsaved { action, resume } => RootState::Help {
                resume: HelpResume::Unsaved { action, resume },
            },
            RootState::Help { .. } => self,
        }
    }

    pub open spec fn help_closed(self) -> RootState {
        match self {
            RootState::Help { resume: HelpResume::Active(workspace) } => RootState::Active(workspace),
            RootState::Help { resume: HelpResume::Unsaved { action, resume } } => RootState::Unsaved {
                action,
                resume,
            },
            _ => self,
        }
    }

    /// Whether `next` is `self` with the unsaved prompt opened for `action`
    /// (pending input consumed), or unchanged when a prompt already shows.
    pub open spec fn unsaved_opened(self, next: RootState, action: UnsavedAction) -> bool {
        match self {
            RootState::Active(workspace) => next matches RootState::Unsaved {
                action: next_action,
                resume,
            } && next_action == action && workspace.transitioned(resume, Transition::ClearPending),
            RootState::Help { resume: HelpResume::Active(workspace) } => next matches RootState::Help {
                resume: HelpResume::Unsaved { action: next_action, resume },
            } && next_action == action && workspace.transitioned(resume, Transition::ClearPending),
            _ => next == self,
        }
    }

    pub open spec fn unsaved_resolved(self) -> RootState {
        match self {
            RootState::Unsaved { resume, .. } => RootState::Active(resume),
            RootState::Help { resume: HelpResume::Unsaved { resume, .. } } => RootState::Help {
                resume: HelpResume::Active(resume),
            },
            _ => self,
        }
    }

    pub open spec fn focus_spec(self) -> Option<FocusTarget> {
        match self {
            RootState::Help { .. } => Some(FocusTarget::HelpInput),
            RootState::Unsaved { .. } => None,
            RootState::Active(workspace) => workspace.focus_spec(),
        }
    }

    /// Every overlay, bottom to top: the workspace's popups, then the
    /// unsaved prompt, then Help.
    pub open spec fn overlays_spec(self) -> Seq<Overlay> {
        let below = self.workspace_spec().overlays_spec();
        let with_prompt = match self.unsaved_spec() {
            Some(action) => below.push(Overlay::Unsaved(action)),
            None => below,
        };
        if self.help_open_spec() {
            with_prompt.push(Overlay::Help)
        } else {
            with_prompt
        }
    }

    /// The pending count the badge shows: only an exposed canvas shows one.
    pub open spec fn pending_count_spec(self) -> Option<u32> {
        let pending = self.workspace_spec().pending_spec();
        if pending.count_of() is Some {
            Some(pending.count_value() as u32)
        } else {
            None
        }
    }
}

/// Whether a projection is exactly the projection of `root`.
pub open spec fn projects(projection: ViewProjection, root: RootState) -> bool {
    let workspace = root.workspace_spec();
    &&& projection.surface == workspace.surface_spec()
    &&& projection.badge == workspace.badge_spec()
    &&& projection.preview_mode == workspace.preview_mode_spec()
    &&& projection.can_toggle_preview == workspace.can_toggle_spec()
    &&& projection.pending_count == root.pending_count_spec()
    &&& projection.overlays@ == root.overlays_spec()
}

// ---------------------------------------------------------------------------
// The executable transitions.
// ---------------------------------------------------------------------------

impl PreviewMode {
    pub fn toggled(self) -> (next: PreviewMode)
        ensures
            next == self.toggled_spec(),
    {
        match self {
            PreviewMode::View => PreviewMode::Visual,
            PreviewMode::Visual => PreviewMode::View,
        }
    }

    /// Leaving visual mode always lands in view mode.
    pub fn cancel_visual(self) -> (next: PreviewMode)
        ensures
            next == PreviewMode::View,
    {
        PreviewMode::View
    }
}

impl PreviewState {
    pub fn canvas(mode: PreviewMode) -> (state: PreviewState)
        ensures
            state == PreviewState::canvas_spec(mode),
    {
        PreviewState::Canvas { mode, pending: Pending::idle() }
    }

    pub fn toggle_visual(self) -> (next: Result<PreviewState, TransitionError>)
        ensures
            next == self.visual_toggled(),
    {
        match self {
            PreviewState::Canvas { mode, .. } => Ok(PreviewState::canvas(mode.toggled())),
            _ => Err(TransitionError::OverlayOwnsInput),
        }
    }

    pub fn cancel_preview(self) -> (next: PreviewState)
        ensures
            next == self.preview_cancelled(),
    {
        match self {
            PreviewState::Canvas { mode, .. } => PreviewState::canvas(mode.cancel_visual()),
            PreviewState::Note { resume } => PreviewState::Note { resume: resume.cancel_visual() },
            PreviewState::Find { resume: FindResume::Canvas(mode) } => PreviewState::Find {
                resume: FindResume::Canvas(mode.cancel_visual()),
            },
            PreviewState::Find { resume: FindResume::Note(mode) } => PreviewState::Find {
                resume: FindResume::Note(mode.cancel_visual()),
            },
        }
    }

    pub fn open_note(self) -> (next: PreviewState)
        ensures
            next == self.note_opened(),
    {
        match self {
            PreviewState::Canvas { mode, .. } => PreviewState::Note { resume: mode },
            PreviewState::Note { .. } => self,
            PreviewState::Find { resume: FindResume::Canvas(mode) } => PreviewState::Find {
                resume: FindResume::Note(mode),
            },
            PreviewState::Find { resume: FindResume::Note(_) } => self,
        }
    }

    pub fn close_note(self) -> (next: PreviewState)
        ensures
            next == self.note_closed(),
    {
        match self {
            PreviewState::Note { resume } => PreviewState::canvas(resume),
            PreviewState::Find { resume: FindResume::Note(mode) } => PreviewState::Find {
                resume: FindResume::Canvas(mode),
            },
            _ => self,
        }
    }

    pub fn open_find(self) -> (next: PreviewState)
        ensures
            next == self.find_opened(),
    {
        match self {
            PreviewState::Canvas { mode, .. } => PreviewState::Find {
                resume: FindResume::Canvas(mode),
            },
            PreviewState::Note { resume } => PreviewState::Find { resume: FindResume::Note(resume) },
            PreviewState::Find { .. } => self,
        }
    }

    pub fn close_find(self) -> (next: PreviewState)
        ensures
            next == self.find_closed(),
    {
        match self {
            PreviewState::Find { resume: FindResume::Canvas(mode) } => PreviewState::canvas(mode),
            PreviewState::Find { resume: FindResume::Note(mode) } => PreviewState::Note {
                resume: mode,
            },
            _ => self,
        }
    }

    /// Applies a pending-input step to the canvas; popups hold no pending
    /// input and stay as they are.
    pub fn update_pending(self, step: Transition) -> (next: PreviewState)
        requires
            is_pending_step(step),
        ensures
            self.pending_updated(next, step),
    {
        match self {
            PreviewState::Canvas { mode, pending } => {
                let mut pending = pending;
                match step {
                    Transition::ArmPrefix(prefix) => pending.arm(prefix),
                    Transition::PushDigit(digit) => pending.push_digit(digit),
                    _ => pending.consume(),
                }
                PreviewState::Canvas { mode, pending }
            },
            _ => self,
        }
    }

    pub fn mode(self) -> (mode: PreviewMode)
        ensures
            mode == self.mode_spec(),
    {
        match self {
            PreviewState::Canvas { mode, .. } => mode,
            PreviewState::Note { resume } => resume,
            PreviewState::Find { resume: FindResume::Canvas(mode) } => mode,
            PreviewState::Find { resume: FindResume::Note(mode) } => mode,
        }
    }

    fn pending(self) -> (pending: Pending)
        ensures
            pending == self.pending_spec(),
    {
        match self {
            PreviewState::Canvas { pending, .. } => pending,
            _ => Pending::idle(),
        }
    }

    fn focus_target(self) -> (focus: Option<FocusTarget>)
        ensures
            focus == self.focus_spec(),
    {
        match self {
            PreviewState::Canvas { .. } => None,
            PreviewState::Note { .. } => Some(FocusTarget::NoteComposer),
            PreviewState::Find { .. } => Some(FocusTarget::FindInput),
        }
    }
}

impl Workspace {
    pub fn toggle_preview(self) -> (next: Workspace)
        ensures
            next == self.preview_toggled(),
    {
        match self {
            Workspace::Editable(EditableWorkspace::Write(WriteState::Editor)) => Workspace::Editable(
                EditableWorkspace::Preview(PreviewState::canvas(PreviewMode::View)),
            ),
            Workspace::Editable(EditableWorkspace::Write(WriteState::Find)) => Workspace::Editable(
                EditableWorkspace::Preview(
                    PreviewState::Find { resume: FindResume::Canvas(PreviewMode::View) },
                ),
            ),
            Workspace::Editable(EditableWorkspace::Preview(PreviewState::Find { .. })) => {
                Workspace::Editable(EditableWorkspace::Write(WriteState::Find))
            },
            Workspace::Editable(EditableWorkspace::Preview(_)) => Workspace::Editable(
                EditableWorkspace::Write(WriteState::Editor),
            ),
            Workspace::PreviewOnly(_) => self,
        }
    }

    pub fn toggle_visual(self) -> (next: Result<Workspace, TransitionError>)
        ensures
            next == self.visual_toggled(),
    {
        match self {
            Workspace::Editable(EditableWorkspace::Write(_)) => Err(
                TransitionError::RequiresPreview,
            ),
            Workspace::Editable(EditableWorkspace::Preview(preview)) => match preview.toggle_visual() {
                Ok(next) => Ok(Workspace::Editable(EditableWorkspace::Preview(next))),
                Err(error) => Err(error),
            },
            Workspace::PreviewOnly(preview) => match preview.toggle_visual() {
                Ok(next) => Ok(Workspace::PreviewOnly(next)),
                Err(error) => Err(error),
            },
        }
    }

    pub fn cancel_preview(self) -> (next: Workspace)
        ensures
            next == self.preview_cancelled(),
    {
        match self {
            Workspace::Editable(EditableWorkspace::Write(_)) => self,
            Workspace::Editable(EditableWorkspace::Preview(preview)) => Workspace::Editable(
                EditableWorkspace::Preview(preview.cancel_preview()),
            ),
            Workspace::PreviewOnly(preview) => Workspace::PreviewOnly(preview.cancel_preview()),
        }
    }

    pub fn open_note(self) -> (next: Result<Workspace, TransitionError>)
        ensures
            next == self.note_opened(),
    {
        match self {
            Workspace::Editable(EditableWorkspace::Write(_)) => Err(
                TransitionError::RequiresPreview,
            ),
            Workspace::Editable(EditableWorkspace::Preview(preview)) => Ok(
                Workspace::Editable(EditableWorkspace::Preview(preview.open_note())),
            ),
            Workspace::PreviewOnly(preview) => Ok(Workspace::PreviewOnly(preview.open_note())),
        }
    }

    pub fn close_note(self) -> (next: Workspace)
        ensures
            next == self.note_closed(),
    {
        match self {
            Workspace::Editable(EditableWorkspace::Write(_)) => self,
            Workspace::Editable(EditableWorkspace::Preview(preview)) => Workspace::Editable(
                EditableWorkspace::Preview(preview.close_note()),
            ),
            Workspace::PreviewOnly(preview) => Workspace::PreviewOnly(preview.close_note()),
        }
    }

    pub fn open_find(self) -> (next: Workspace)
        ensures
            next == self.find_opened(),
    {
        match self {
            Workspace::Editable(EditableWorkspace::Write(_)) => Workspace::Editable(
                EditableWorkspace::Write(WriteState::Find),
            ),
            Workspace::Editable(EditableWorkspace::Preview(preview)) => Workspace::Editable(
                EditableWorkspace::Preview(preview.open_find()),
            ),
            Workspace::PreviewOnly(preview) => Workspace::PreviewOnly(preview.open_find()),
        }
    }

    pub fn close_find(self) -> (next: Workspace)
        ensures
            next == self.find_closed(),
    {
        match self {
            Workspace::Editable(EditableWorkspace::Write(_)) => Workspace::Editable(
                EditableWorkspace::Write(WriteState::Editor),
            ),
            Workspace::Editable(EditableWorkspace::Preview(preview)) => Workspace::Editable(
                EditableWorkspace::Preview(preview.close_find()),
            ),
            Workspace::PreviewOnly(preview) => Workspace::PreviewOnly(preview.close_find()),
        }
    }

    pub fn document_loaded(self) -> (next: Workspace)
        ensures
            next == self.loaded(),
    {
        match self {
            Workspace::Editable(EditableWorkspace::Write(_)) => Workspace::Editable(
                EditableWorkspace::Write(WriteState::Editor),
            ),
            Workspace::Editable(EditableWorkspace::Preview(_)) => Workspace::Editable(
                EditableWorkspace::Preview(PreviewState::canvas(PreviewMode::View)),
            ),
            Workspace::PreviewOnly(_) => Workspace::PreviewOnly(
                PreviewState::canvas(PreviewMode::View),
            ),
        }
    }

    pub fn clear_pending(self) -> (next: Workspace)
        ensures
            self.transitioned(next, Transition::ClearPending),
    {
        self.update_pending(Transition::ClearPending)
    }

    pub fn update_pending(self, step: Transition) -> (next: Workspace)
        requires
            is_pending_step(step),
        ensures
            self.pending_updated(next, step),
    {
        match self {
            Workspace::Editable(EditableWorkspace::Preview(preview)) => Workspace::Editable(
                EditableWorkspace::Preview(preview.update_pending(step)),
            ),
            Workspace::PreviewOnly(preview) => Workspace::PreviewOnly(preview.update_pending(step)),
            Workspace::Editable(EditableWorkspace::Write(_)) => self,
        }
    }

    /// Applies an always-applicable transition.
    pub fn apply(self, step: Transition) -> (next: Workspace)
        ensures
            self.transitioned(next, step),
    {
        match step {
            Transition::TogglePreview => self.toggle_preview(),
            Transition::CancelPreview => self.cancel_preview(),
            Transition::CloseNote => self.close_note(),
            Transition::OpenFind => self.open_find(),
            Transition::CloseFind => self.close_find(),
            Transition::DocumentLoaded => self.document_loaded(),
            _ => self.update_pending(step),
        }
    }

    /// Applies a transition that some workspaces refuse.
    pub fn try_apply(self, step: FallibleTransition) -> (next: Result<Workspace, TransitionError>)
        ensures
            next == self.fallibly_transitioned(step),
    {
        match step {
            FallibleTransition::ToggleVisual => self.toggle_visual(),
            FallibleTransition::OpenNote => self.open_note(),
        }
    }

    /// The pending input of an exposed canvas; popups hold none.
    pub fn pending(self) -> (pending: Pending)
        ensures
            pending == self.pending_spec(),
    {
        match self {
            Workspace::Editable(EditableWorkspace::Preview(preview)) => preview.pending(),
            Workspace::PreviewOnly(preview) => preview.pending(),
            Workspace::Editable(EditableWorkspace::Write(_)) => Pending::idle(),
        }
    }

    pub fn focus_target(self) -> (focus: Option<FocusTarget>)
        ensures
            focus == self.focus_spec(),
    {
        match self {
            Workspace::Editable(EditableWorkspace::Write(WriteState::Editor)) => Some(
                FocusTarget::SourceEditor,
            ),
            Workspace::Editable(EditableWorkspace::Write(WriteState::Find)) => Some(
                FocusTarget::FindInput,
            ),
            Workspace::Editable(EditableWorkspace::Preview(preview)) => preview.focus_target(),
            Workspace::PreviewOnly(preview) => preview.focus_target(),
        }
    }

    /// The projection of the workspace alone, before any root overlays.
    pub fn view(self) -> (projection: ViewProjection)
        ensures
            projects(projection, RootState::Active(self)),
    {
        match self {
            Workspace::Editable(EditableWorkspace::Write(write)) => ViewProjection::write(write),
            Workspace::Editable(EditableWorkspace::Preview(preview)) => ViewProjection::preview(
                preview,
                true,
            ),
            Workspace::PreviewOnly(preview) => ViewProjection::preview(preview, false),
        }
    }
}

impl RootState {
    /// Applies an always-applicable transition to the suspended workspace,
    /// keeping every root overlay.
    pub fn map_workspace(self, step: Transition) -> (next: RootState)
        ensures
            next == self.with_workspace(next.workspace_spec()),
            self.workspace_spec().transitioned(next.workspace_spec(), step),
    {
        match self {
            RootState::Active(workspace) => RootState::Active(workspace.apply(step)),
            RootState::Unsaved { action, resume } => RootState::Unsaved {
                action,
                resume: resume.apply(step),
            },
            RootState::Help { resume: HelpResume::Active(workspace) } => RootState::Help {
                resume: HelpResume::Active(workspace.apply(step)),
            },
            RootState::Help { resume: HelpResume::Unsaved { action, resume } } => RootState::Help {
                resume: HelpResume::Unsaved { action, resume: resume.apply(step) },
            },
        }
    }

    /// Applies a fallible transition to the suspended workspace, keeping
    /// every root overlay; a refusal leaves nothing changed.
    pub fn try_map_workspace(self, step: FallibleTransition) -> (next: Result<
        RootState,
        TransitionError,
    >)
        ensures
            next == match self.workspace_spec().fallibly_transitioned(step) {
                Ok(workspace) => Ok(self.with_workspace(workspace)),
                Err(error) => Err(error),
            },
    {
        match self {
            RootState::Active(workspace) => match workspace.try_apply(step) {
                Ok(next) => Ok(RootState::Active(next)),
                Err(error) => Err(error),
            },
            RootState::Unsaved { action, resume } => match resume.try_apply(step) {
                Ok(next) => Ok(RootState::Unsaved { action, resume: next }),
                Err(error) => Err(error),
            },
            RootState::Help { resume: HelpResume::Active(workspace) } => match workspace.try_apply(
                step,
            ) {
                Ok(next) => Ok(RootState::Help { resume: HelpResume::Active(next) }),
                Err(error) => Err(error),
            },
            RootState::Help { resume: HelpResume::Unsaved { action, resume } } => match resume.try_apply(
                step,
            ) {
                Ok(next) => Ok(
                    RootState::Help { resume: HelpResume::Unsaved { action, resume: next } },
                ),
                Err(error) => Err(error),
            },
        }
    }

    fn workspace(self) -> (workspace: Workspace)
        ensures
            workspace == self.workspace_spec(),
    {
        match self {
            RootState::Active(workspace) => workspace,
            RootState::Unsaved { resume, .. } => resume,
            RootState::Help { resume: HelpResume::Active(workspace) } => workspace,
            RootState::Help { resume: HelpResume::Unsaved { resume, .. } } => resume,
        }
    }
}

impl ViewProjection {
    fn write(write: WriteState) -> (projection: ViewProjection)
        ensures
            projects(projection, RootState::Active(Workspace::Editable(EditableWorkspace::Write(write)))),
    {
        let mut overlays: Vec<Overlay> = Vec::new();
        let badge = match write {
            WriteState::Editor => ModeBadge::Write,
            WriteState::Find => {
                overlays.push(Overlay::Find);
                ModeBadge::Find
            },
        };
        ViewProjection {
            surface: Surface::Write,
            badge,
            preview_mode: None,
            can_toggle_preview: true,
            pending_count: None,
            overlays,
        }
    }

    fn preview(preview: PreviewState, can_toggle_preview: bool) -> (projection: ViewProjection)
        ensures
            projects(
                projection,
                RootState::Active(
                    if can_toggle_preview {
                        Workspace::Editable(EditableWorkspace::Preview(preview))
                    } else {
                        Workspace::PreviewOnly(preview)
                    },
                ),
            ),
    {
        let mode = preview.mode();
        let pending = preview.pending();
        let shown = pending.pending_count();
        let pending_count = if shown == 0 {
            None
        } else {
            Some(shown)
        };
        let mut overlays: Vec<Overlay> = Vec::new();
        let badge = match preview {
            PreviewState::Canvas { mode: PreviewMode::View, .. } => ModeBadge::View,
            PreviewState::Canvas { mode: PreviewMode::Visual, .. } => ModeBadge::Visual,
            PreviewState::Note { .. } => {
                overlays.push(Overlay::Note);
                ModeBadge::Note
            },
            PreviewState::Find { resume: FindResume::Canvas(_) } => {
                overlays.push(Overlay::Find);
                ModeBadge::Find
            },
            PreviewState::Find { resume: FindResume::Note(_) } => {
                overlays.push(Overlay::Note);
                overlays.push(Overlay::Find);
                ModeBadge::Find
            },
        };
        proof {
            assert(overlays@ =~= preview.overlays_spec());
        }
        ViewProjection {
            surface: Surface::Preview,
            badge,
            preview_mode: Some(mode),
            can_toggle_preview,
            pending_count,
            overlays,
        }
    }

    pub fn surface(&self) -> (surface: Surface)
        ensures
            surface == self.surface,
    {
        self.surface
    }

    pub fn badge(&self) -> (badge: ModeBadge)
        ensures
            badge == self.badge,
    {
        self.badge
    }

    pub fn can_toggle_preview(&self) -> (can: bool)
        ensures
            can == self.can_toggle_preview,
    {
        self.can_toggle_preview
    }

    pub fn pending_count(&self) -> (count: Option<u32>)
        ensures
            count == self.pending_count,
    {
        self.pending_count
    }

    pub fn visual(&self) -> (visual: bool)
        ensures
            visual == (self.preview_mode == Some(PreviewMode::Visual)),
    {
        match self.preview_mode {
            Some(PreviewMode::Visual) => true,
            _ => false,
        }
    }

    /// The topmost overlay.
    pub fn overlay(&self) -> (top: Option<Overlay>)
        ensures
            top == if self.overlays@.len() == 0 {
                None
            } else {
                Some(self.overlays@.last())
            },
    {
        if self.overlays.len() == 0 {
            None
        } else {
            Some(self.overlays[self.overlays.len() - 1])
        }
    }

    /// Whether `expected` is among the overlays.
    pub fn contains(&self, expected: Overlay) -> (found: bool)
        ensures
            found == self.overlays@.contains(expected),
    {
        let mut index: usize = 0;
        while index < self.overlays.len()
            invariant
                index <= self.overlays@.len(),
                forall|j: int| 0 <= j < index ==> self.overlays@[j] != expected,
            decreases self.overlays@.len() - index,
        {
            if overlay_eq(self.overlays[index], expected) {
                return true;
            }
            index += 1;
        }
        false
    }

    /// The action of the unsaved prompt among the overlays, if it shows.
    pub fn unsaved_action(&self) -> (action: Option<UnsavedAction>)
        ensures
            action matches Some(a) ==> self.overlays@.contains(Overlay::Unsaved(a)),
            action is None ==> forall|j: int|
                0 <= j < self.overlays@.len() ==> !(self.overlays@[j] is Unsaved),
    {
        let mut index: usize = 0;
        while index < self.overlays.len()
            invariant
                index <= self.overlays@.len(),
                forall|j: int| 0 <= j < index ==> !(self.overlays@[j] is Unsaved),
            decreases self.overlays@.len() - index,
        {
            if let Overlay::Unsaved(action) = self.overlays[index] {
                assert(self.overlays@[index as int] == Overlay::Unsaved(action));
                return Some(action);
            }
            index += 1;
        }
        None
    }

    fn push_overlay(&mut self, overlay: Overlay)
        ensures
            final(self).overlays@ == old(self).overlays@.push(overlay),
            final(self).surface == old(self).surface,
            final(self).badge == old(self).badge,
            final(self).preview_mode == old(self).preview_mode,
            final(self).can_toggle_preview == old(self).can_toggle_preview,
            final(self).pending_count == old(self).pending_count,
    {
        self.overlays.push(overlay);
    }
}

fn unsaved_eq(a: UnsavedAction, b: UnsavedAction) -> (equal: bool)
    ensures
        equal == (a == b),
{
    match (a, b) {
        (UnsavedAction::OpenFile, UnsavedAction::OpenFile) => true,
        (UnsavedAction::CloseWindow(x), UnsavedAction::CloseWindow(y)) => x == y,
        _ => false,
    }
}

fn overlay_eq(a: Overlay, b: Overlay) -> (equal: bool)
    ensures
        equal == (a == b),
{
    match (a, b) {
        (Overlay::Note, Overlay::Note) => true,
        (Overlay::Find, Overlay::Find) => true,
        (Overlay::Help, Overlay::Help) => true,
        (Overlay::Unsaved(x), Overlay::Unsaved(y)) => unsaved_eq(x, y),
        _ => false,
    }
}

impl View for InteractionState {
    type V = RootState;

    closed spec fn view(&self) -> RootState {
        self.root
    }
}

impl InteractionState {
    /// Starts an editable session on the source editor.
    pub fn editable() -> (state: InteractionState)
        ensures
            state@ == RootState::Active(Workspace::Editable(EditableWorkspace::Write(WriteState::Editor))),
    {
        InteractionState {
            root: RootState::Active(Workspace::Editable(EditableWorkspace::Write(WriteState::Editor))),
        }
    }

    /// Starts a preview-only session on the preview canvas.
    pub fn preview_only() -> (state: InteractionState)
        ensures
            state@ == RootState::Active(
                Workspace::PreviewOnly(PreviewState::canvas_spec(PreviewMode::View)),
            ),
    {
        InteractionState::from_workspace(Workspace::PreviewOnly(PreviewState::canvas(PreviewMode::View)))
    }

    /// A session on the given workspace with no root overlays.
    pub fn from_workspace(workspace: Workspace) -> (state: InteractionState)
        ensures
            state@ == RootState::Active(workspace),
    {
        InteractionState { root: RootState::Active(workspace) }
    }

    /// A session in the given state of the hierarchy; every root is a
    /// legal state.
    pub fn from_root(root: RootState) -> (state: InteractionState)
        ensures
            state@ == root,
    {
        InteractionState { root }
    }

    /// The root of the hierarchy, for callers that match on it.
    pub fn root(&self) -> (root: RootState)
        ensures
            root == self@,
    {
        self.root
    }

    /// Switches between editable Write and Preview. Preview-only sessions
    /// are unchanged; the result says whether the switch happened.
    pub fn toggle_preview(&mut self) -> (toggled: bool)
        ensures
            toggled == old(self)@.workspace_spec().can_toggle_spec(),
            toggled ==> final(self)@ == old(self)@.with_workspace(
                old(self)@.workspace_spec().preview_toggled(),
            ),
            !toggled ==> final(self)@ == old(self)@,
    {
        let can = match self.root.workspace() {
            Workspace::Editable(_) => true,
            Workspace::PreviewOnly(_) => false,
        };
        if !can {
            return false;
        }
        self.root = self.root.map_workspace(Transition::TogglePreview);
        true
    }

    /// Toggles Visual only on an exposed preview canvas; a refusal changes
    /// nothing.
    pub fn toggle_visual(&mut self) -> (result: Result<(), TransitionError>)
        ensures
            match old(self)@.workspace_spec().visual_toggled() {
                Ok(workspace) => result is Ok && final(self)@ == old(self)@.with_workspace(
                    workspace,
                ),
                Err(error) => result == Err::<(), TransitionError>(error) && final(self)@ == old(
                    self,
                )@,
            },
    {
        self.try_map_workspace(FallibleTransition::ToggleVisual)
    }

    /// Returns Visual to View and consumes pending preview input; refused
    /// on the write surface.
    pub fn cancel_preview(&mut self) -> (result: Result<(), TransitionError>)
        ensures
            old(self)@.workspace_spec().surface_spec() == Surface::Write ==> result == Err::<
                (),
                TransitionError,
            >(TransitionError::RequiresPreview) && final(self)@ == old(self)@,
            old(self)@.workspace_spec().surface_spec() == Surface::Preview ==> result is Ok
                && final(self)@ == old(self)@.with_workspace(
                old(self)@.workspace_spec().preview_cancelled(),
            ),
    {
        match self.root.workspace() {
            Workspace::Editable(EditableWorkspace::Write(_)) => {
                return Err(TransitionError::RequiresPreview);
            },
            _ => {},
        }
        self.root = self.root.map_workspace(Transition::CancelPreview);
        Ok(())
    }

    /// Opens Note on Preview, preserving the suspended preview mode.
    pub fn open_note(&mut self) -> (result: Result<(), TransitionError>)
        ensures
            match old(self)@.workspace_spec().note_opened() {
                Ok(workspace) => result is Ok && final(self)@ == old(self)@.with_workspace(
                    workspace,
                ),
                Err(error) => result == Err::<(), TransitionError>(error) && final(self)@ == old(
                    self,
                )@,
            },
    {
        self.try_map_workspace(FallibleTransition::OpenNote)
    }

    /// Closes Note wherever it appears, including below Find, and returns
    /// the focus the uncovered state asks for when a note was open.
    pub fn close_note(&mut self) -> (focus: Option<FocusTarget>)
        ensures
            final(self)@ == old(self)@.with_workspace(old(self)@.workspace_spec().note_closed()),
            focus == if old(self)@.overlays_spec().contains(Overlay::Note) {
                final(self)@.focus_spec()
            } else {
                None
            },
    {
        let was_open = self.projection().contains(Overlay::Note);
        self.root = self.root.map_workspace(Transition::CloseNote);
        if was_open {
            self.focus_target()
        } else {
            None
        }
    }

    /// Opens Find over the current surface and any Note overlay.
    pub fn open_find(&mut self)
        ensures
            final(self)@ == old(self)@.with_workspace(old(self)@.workspace_spec().find_opened()),
    {
        self.root = self.root.map_workspace(Transition::OpenFind);
    }

    /// Closes Find and restores its exact suspended interaction; returns the
    /// restored focus when find was open.
    pub fn close_find(&mut self) -> (focus: Option<FocusTarget>)
        ensures
            final(self)@ == old(self)@.with_workspace(old(self)@.workspace_spec().find_closed()),
            focus == if old(self)@.overlays_spec().contains(Overlay::Find) {
                final(self)@.focus_spec()
            } else {
                None
            },
    {
        let was_open = self.projection().contains(Overlay::Find);
        self.root = self.root.map_workspace(Transition::CloseFind);
        if was_open {
            self.focus_target()
        } else {
            None
        }
    }

    /// Normalizes document-bound state after loading a new document while
    /// retaining Write versus Preview and any root overlays.
    pub fn document_loaded(&mut self)
        ensures
            final(self)@ == old(self)@.with_workspace(old(self)@.workspace_spec().loaded()),
    {
        self.root = self.root.map_workspace(Transition::DocumentLoaded);
    }

    /// Consumes pending input after an unrelated or completed command.
    pub fn activity(&mut self)
        ensures
            final(self)@ == old(self)@.with_workspace(final(self)@.workspace_spec()),
            old(self)@.workspace_spec().transitioned(
                final(self)@.workspace_spec(),
                Transition::ClearPending,
            ),
    {
        self.root = self.root.map_workspace(Transition::ClearPending);
    }

    /// Arms a `g` or `z` prefix on an exposed canvas.
    pub fn arm_prefix(&mut self, prefix: Prefix)
        ensures
            final(self)@ == old(self)@.with_workspace(final(self)@.workspace_spec()),
            old(self)@.workspace_spec().transitioned(
                final(self)@.workspace_spec(),
                Transition::ArmPrefix(prefix),
            ),
    {
        self.root = self.root.map_workspace(Transition::ArmPrefix(prefix));
    }

    pub fn arm_g(&mut self)
        ensures
            final(self)@ == old(self)@.with_workspace(final(self)@.workspace_spec()),
            old(self)@.workspace_spec().transitioned(
                final(self)@.workspace_spec(),
                Transition::ArmPrefix(Prefix::G),
            ),
    {
        self.arm_prefix(Prefix::G);
    }

    pub fn arm_z(&mut self)
        ensures
            final(self)@ == old(self)@.with_workspace(final(self)@.workspace_spec()),
            old(self)@.workspace_spec().transitioned(
                final(self)@.workspace_spec(),
                Transition::ArmPrefix(Prefix::Z),
            ),
    {
        self.arm_prefix(Prefix::Z);
    }

    /// Appends a count digit on an exposed canvas.
    pub fn push_count_digit(&mut self, digit: u32)
        ensures
            final(self)@ == old(self)@.with_workspace(final(self)@.workspace_spec()),
            old(self)@.workspace_spec().transitioned(
                final(self)@.workspace_spec(),
                Transition::PushDigit(digit),
            ),
    {
        self.root = self.root.map_workspace(Transition::PushDigit(digit));
    }

    /// The pending input of the exposed canvas, if any.
    pub fn pending(&self) -> (pending: Pending)
        ensures
            pending == self@.workspace_spec().pending_spec(),
    {
        self.root.workspace().pending()
    }

    pub fn has_count(&self) -> (started: bool)
        ensures
            started == self@.workspace_spec().pending_spec().count_of() is Some,
    {
        self.pending().has_count()
    }

    pub fn has_prefix(&self, prefix: Prefix) -> (waiting: bool)
        ensures
            waiting == (self@.workspace_spec().pending_spec() matches Pending::Prefix {
                prefix: armed,
                ..
            } && armed == prefix),
    {
        self.pending().has_prefix(prefix)
    }

    pub fn motion_count(&self) -> (repeats: usize)
        ensures
            repeats == if self@.workspace_spec().pending_spec().count_of() is Some {
                self@.workspace_spec().pending_spec().count_value()
            } else {
                1
            },
    {
        self.pending().motion_count()
    }

    pub fn jump_count(&self) -> (target: usize)
        ensures
            target == self@.workspace_spec().pending_spec().count_value(),
    {
        self.pending().jump_count()
    }

    /// Projects all state needed by input and presentation callers.
    pub fn projection(&self) -> (projection: ViewProjection)
        ensures
            projects(projection, self@),
    {
        let mut projection = self.root.workspace().view();
        match self.root {
            RootState::Unsaved { action, .. } => projection.push_overlay(Overlay::Unsaved(action)),
            RootState::Help { resume: HelpResume::Unsaved { action, .. } } => {
                projection.push_overlay(Overlay::Unsaved(action));
                projection.push_overlay(Overlay::Help);
            },
            RootState::Help { resume: HelpResume::Active(_) } => projection.push_overlay(
                Overlay::Help,
            ),
            RootState::Active(_) => {},
        }
        proof {
            let root = self.root;
            assert(root.workspace_spec().pending_spec() == RootState::Active(
                root.workspace_spec(),
            ).workspace_spec().pending_spec());
        }
        projection
    }

    /// Derives focus directly from the top interaction payload.
    pub fn focus_target(&self) -> (focus: Option<FocusTarget>)
        ensures
            focus == self@.focus_spec(),
    {
        match self.root {
            RootState::Help { .. } => Some(FocusTarget::HelpInput),
            RootState::Unsaved { .. } => None,
            RootState::Active(workspace) => workspace.focus_target(),
        }
    }

    /// Wraps Active or Unsaved with Help. Duplicate opens are idempotent.
    pub fn open_help(&mut self)
        ensures
            final(self)@ == old(self)@.help_opened(),
    {
        self.root = match self.root {
            RootState::Active(workspace) => RootState::Help { resume: HelpResume::Active(workspace) },
            RootState::Unsaved { action, resume } => RootState::Help {
                resume: HelpResume::Unsaved { action, resume },
            },
            RootState::Help { .. } => self.root,
        };
    }

    /// Removes exactly one Help layer and restores the suspended root; the
    /// restored focus is returned when Help was open.
    pub fn close_help(&mut self) -> (focus: Option<FocusTarget>)
        ensures
            final(self)@ == old(self)@.help_closed(),
            focus == if old(self)@.help_open_spec() {
                final(self)@.focus_spec()
            } else {
                None
            },
    {
        let was_open = match self.root {
            RootState::Help { .. } => true,
            _ => false,
        };
        self.root = match self.root {
            RootState::Help { resume: HelpResume::Active(workspace) } => RootState::Active(workspace),
            RootState::Help { resume: HelpResume::Unsaved { action, resume } } => RootState::Unsaved {
                action,
                resume,
            },
            _ => self.root,
        };
        if was_open {
            self.focus_target()
        } else {
            None
        }
    }

    /// Opens Unsaved below Help when necessary and consumes pending input.
    /// A duplicate request retains the first action being confirmed.
    pub fn open_unsaved(&mut self, action: UnsavedAction)
        ensures
            old(self)@.unsaved_opened(final(self)@, action),
    {
        self.root = match self.root {
            RootState::Active(workspace) => RootState::Unsaved {
                action,
                resume: workspace.clear_pending(),
            },
            RootState::Unsaved { .. } => self.root,
            RootState::Help { resume: HelpResume::Active(workspace) } => RootState::Help {
                resume: HelpResume::Unsaved { action, resume: workspace.clear_pending() },
            },
            RootState::Help { resume: HelpResume::Unsaved { .. } } => self.root,
        };
    }

    /// Extracts the action being answered without disturbing Help above it.
    pub fn resolve_unsaved(&mut self) -> (resolution: Option<UnsavedResolution>)
        ensures
            final(self)@ == old(self)@.unsaved_resolved(),
            resolution == match old(self)@.unsaved_spec() {
                Some(action) => Some(UnsavedResolution { action, focus: final(self)@.focus_spec() }),
                None => None,
            },
    {
        let (root, action) = match self.root {
            RootState::Unsaved { action, resume } => (RootState::Active(resume), Some(action)),
            RootState::Help { resume: HelpResume::Unsaved { action, resume } } => (
                RootState::Help { resume: HelpResume::Active(resume) },
                Some(action),
            ),
            _ => (self.root, None),
        };
        self.root = root;
        match action {
            Some(action) => Some(UnsavedResolution { action, focus: self.focus_target() }),
            None => None,
        }
    }

    fn try_map_workspace(&mut self, step: FallibleTransition) -> (result: Result<
        (),
        TransitionError,
    >)
        ensures
            match old(self)@.workspace_spec().fallibly_transitioned(step) {
                Ok(workspace) => result is Ok && final(self)@ == old(self)@.with_workspace(
                    workspace,
                ),
                Err(error) => result == Err::<(), TransitionError>(error) && final(self)@ == old(
                    self,
                )@,
            },
    {
        match self.root.try_map_workspace(step) {
            Ok(root) => {
                self.root = root;
                Ok(())
            },
            Err(error) => Err(error),
        }
    }
}

impl UnsavedResolution {
    pub fn action(self) -> (action: UnsavedAction)
        ensures
            action == self.action,
    {
        self.action
    }

    pub fn focus(self) -> (focus: Option<FocusTarget>)
        ensures
            focus == self.focus,
    {
        self.focus
    }
}


// ---------------------------------------------------------------------------
// Laws of the hierarchy.
// ---------------------------------------------------------------------------

/// Closing find restores exactly what opening it covered, for every
/// workspace without a find popup and without pending canvas input
/// (pending input never survives a popup).
pub proof fn law_find_round_trip(workspace: Workspace)
    requires
        !workspace.overlays_spec().contains(Overlay::Find),
        workspace.pending_spec() == Pending::Idle,
    ensures
        workspace.find_opened().find_closed() == workspace,
{
    match workspace {
        Workspace::Editable(EditableWorkspace::Write(WriteState::Find)) => {
            assert(workspace.overlays_spec()[0] == Overlay::Find);
        },
        Workspace::Editable(EditableWorkspace::Preview(PreviewState::Find { resume })) => {
            assert(workspace.overlays_spec().last() == Overlay::Find);
        },
        Workspace::PreviewOnly(PreviewState::Find { resume }) => {
            assert(workspace.overlays_spec().last() == Overlay::Find);
        },
        _ => {},
    }
}

/// Opening find twice is opening it once, and closing a closed find
/// changes nothing.
pub proof fn law_find_idempotent(workspace: Workspace)
    ensures
        workspace.find_opened().find_opened() == workspace.find_opened(),
        workspace.find_closed().find_closed() == workspace.find_closed(),
{
}

/// Opening a note over an idle canvas (or over find on a canvas) and
/// closing it again restores the state it covered; opening twice is
/// opening once.
pub proof fn law_note_round_trip(preview: PreviewState)
    requires
        preview matches PreviewState::Canvas { pending, .. } ==> pending == Pending::Idle,
        !(preview is Note),
        !(preview matches PreviewState::Find { resume: FindResume::Note(_) }),
    ensures
        preview.note_opened().note_closed() == preview,
        preview.note_opened().note_opened() == preview.note_opened(),
{
}

/// The write surface refuses notes and visual mode, whatever popup is open.
pub proof fn law_write_refuses_preview_transitions(write: WriteState)
    ensures
        Workspace::Editable(EditableWorkspace::Write(write)).note_opened() == Err::<
            Workspace,
            TransitionError,
        >(TransitionError::RequiresPreview),
        Workspace::Editable(EditableWorkspace::Write(write)).visual_toggled() == Err::<
            Workspace,
            TransitionError,
        >(TransitionError::RequiresPreview),
{
}

/// Help is transparent: opening and closing it restores the root exactly,
/// pending input included, and a second open changes nothing.
pub proof fn law_help_round_trip(root: RootState)
    requires
        !root.help_open_spec(),
    ensures
        root.help_opened().help_closed() == root,
        root.help_opened().help_opened() == root.help_opened(),
        root.help_opened().workspace_spec() == root.workspace_spec(),
{
}

/// A second unsaved prompt keeps the first action, and resolving the prompt
/// answers with the action that opened it, over the same workspace with
/// its pending input consumed; Help above the prompt stays open.
pub proof fn law_unsaved_keeps_first_action(
    root: RootState,
    opened: RootState,
    reopened: RootState,
    first: UnsavedAction,
    second: UnsavedAction,
)
    requires
        root.unsaved_spec() is None,
        root.unsaved_opened(opened, first),
        opened.unsaved_opened(reopened, second),
    ensures
        reopened == opened,
        opened.unsaved_spec() == Some(first),
        opened.unsaved_resolved().unsaved_spec() is None,
        opened.unsaved_resolved().help_open_spec() == root.help_open_spec(),
        opened.unsaved_resolved().workspace_spec().pending_spec() == Pending::Idle,
{
}

/// Loading a document keeps write versus preview and every root overlay,
/// and leaves no popup and no pending input behind.
pub proof fn law_loading_normalizes(root: RootState)
    ensures
        ({
            let next = root.with_workspace(root.workspace_spec().loaded());
            &&& next.unsaved_spec() == root.unsaved_spec()
            &&& next.help_open_spec() == root.help_open_spec()
            &&& next.workspace_spec().surface_spec() == root.workspace_spec().surface_spec()
            &&& next.workspace_spec().overlays_spec().len() == 0
            &&& next.workspace_spec().pending_spec() == Pending::Idle
        }),
{
}

/// Switching an editable session to the preview and back keeps an open
/// find popup open on both surfaces.
pub proof fn law_toggle_preserves_find(workspace: Workspace)
    requires
        workspace is Editable,
    ensures
        workspace.preview_toggled().overlays_spec().contains(Overlay::Find)
            == workspace.overlays_spec().contains(Overlay::Find),
{
    let next = workspace.preview_toggled();
    if workspace.overlays_spec().contains(Overlay::Find) {
        match workspace {
            Workspace::Editable(EditableWorkspace::Preview(PreviewState::Note { .. })) => {
                assert(workspace.overlays_spec()[0] == Overlay::Note);
            },
            Workspace::Editable(EditableWorkspace::Preview(PreviewState::Canvas { .. })) => {},
            _ => {},
        }
        match next {
            Workspace::Editable(EditableWorkspace::Write(WriteState::Find)) => {
                assert(next.overlays_spec()[0] == Overlay::Find);
            },
            Workspace::Editable(EditableWorkspace::Preview(PreviewState::Find { .. })) => {
                assert(next.overlays_spec().last() == Overlay::Find);
            },
            _ => {},
        }
    } else {
        match workspace {
            Workspace::Editable(EditableWorkspace::Write(WriteState::Find)) => {
                assert(workspace.overlays_spec()[0] == Overlay::Find);
            },
            Workspace::Editable(EditableWorkspace::Preview(PreviewState::Find { .. })) => {
                assert(workspace.overlays_spec().last() == Overlay::Find);
            },
            _ => {},
        }
        match next {
            Workspace::Editable(EditableWorkspace::Preview(PreviewState::Canvas { .. })) => {},
            Workspace::Editable(EditableWorkspace::Write(WriteState::Editor)) => {},
            _ => {},
        }
    }
}

/// The badge's pending count is never zero, never above the cap, and only
/// an exposed canvas shows one.
pub proof fn law_pending_count_only_on_canvas(root: RootState)
    ensures
        root.pending_count_spec() matches Some(count) ==> (1 <= count <= crate::pending::MAX_COUNT
            && (root.workspace_spec().preview_of() matches Some(preview) && preview is Canvas)),
{
    let pending = root.workspace_spec().pending_spec();
    if let Some(count) = pending.count_of() {
        crate::pending::lemma_count_bounds(count);
    }
}

} // verus!
