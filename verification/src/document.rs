//! The source document's persistence policy: which snapshot counts as
//! saved, which action the unsaved-changes prompt guards, and what each
//! document message asks of the outside world.
//!
//! The live text stays in the editor; each step reads it as an argument.
//! Outside work (file dialogs, reading and writing files) is described by
//! a [`Work`] value that the application performs, answering with the
//! message the work names.
use crate::editing::{continuation, continuation_of, numbering_overflows, Continuation};
use crate::highlight::{byte_offset, byte_offsets};
use crate::interaction::UnsavedAction;
use crate::text::{chars_of, string_of_range};
use vstd::prelude::*;

verus! {

/// Why the text in the editor was replaced.
#[derive(Debug, Clone, Copy, PartialEq, Eq)]
pub enum SourceReplacement {
    Loaded,
    External,
}

/// Consequences that the composing application owns.
#[derive(Debug, Clone, Copy, PartialEq, Eq)]
pub enum Event {
    SourceReplaced { reason: SourceReplacement },
    CloseWindow(u64),
    UnsavedVisibilityChanged(bool),
}

/// A file path, as the bytes of the platform's path.
pub type PathBytes = Vec<u8>;

/// Outside work the application performs for the document, and the
/// message it answers with.
#[derive(Debug)]
pub enum Work {
    Nothing,
    /// Ask for a file and read it; answer with `OpenLoaded`.
    PickAndOpen,
    /// Write `snapshot` to `path`; answer with `Saved`, carrying the
    /// snapshot.
    Save { path: PathBytes, snapshot: String },
    /// Ask where to save; answer with `SavePathChosen`.
    PickSavePath,
    /// Read the document's file again after it changed on disk; answer
    /// with `ExternalRead`.
    ReadExternal { path: PathBytes },
}

/// Document lifecycle messages.
#[derive(Debug)]
pub enum Message {
    OpenRequested,
    OpenLoaded(Option<(PathBytes, String)>),
    SaveRequested,
    SavePathChosen(Option<PathBytes>),
    /// A finished save, with the exact snapshot it wrote; the live text
    /// may have moved on since.
    Saved(Result<PathBytes, String>, String),
    ExternalChange,
    /// The document's file as read after an outside change, if it could
    /// be read.
    ExternalRead(Option<String>),
    CloseRequested(u64),
    UnsavedCardPressed,
    UnsavedCancel,
    UnsavedSave,
    UnsavedDiscard,
}

/// What one step asks of the application: outside work, an event, and
/// the text the editor must now hold, when it was replaced.
#[derive(Debug)]
pub struct Update {
    pub work: Work,
    pub event: Option<Event>,
    pub text: Option<String>,
}

/// Outside work as the contracts see it.
pub enum WorkModel {
    Nothing,
    PickAndOpen,
    Save { path: Seq<u8>, snapshot: Seq<char> },
    PickSavePath,
    ReadExternal { path: Seq<u8> },
}

/// The view of outside work.
pub open spec fn work_view(work: Work) -> WorkModel {
    match work {
        Work::Nothing => WorkModel::Nothing,
        Work::PickAndOpen => WorkModel::PickAndOpen,
        Work::Save { path, snapshot } => WorkModel::Save { path: path@, snapshot: snapshot@ },
        Work::PickSavePath => WorkModel::PickSavePath,
        Work::ReadExternal { path } => WorkModel::ReadExternal { path: path@ },
    }
}

/// The document as the contracts see it: its path, the text last loaded
/// or saved, and the action the unsaved prompt guards.
pub struct DocumentModel {
    pub path: Option<Seq<u8>>,
    pub saved: Seq<char>,
    pub pending: Option<UnsavedAction>,
}

/// A step's result as the contracts see it.
pub struct UpdateModel {
    pub work: WorkModel,
    pub event: Option<Event>,
    pub text: Option<Seq<char>>,
}

/// The view of a step's result.
pub open spec fn update_view(update: Update) -> UpdateModel {
    UpdateModel {
        work: work_view(update.work),
        event: update.event,
        text: match update.text {
            Some(text) => Some(text@),
            None => None,
        },
    }
}

/// A step asking nothing.
pub open spec fn nothing() -> UpdateModel {
    UpdateModel { work: WorkModel::Nothing, event: None, text: None }
}

/// A step raising one event.
pub open spec fn raising(event: Event) -> UpdateModel {
    UpdateModel { work: WorkModel::Nothing, event: Some(event), text: None }
}

/// A step asking for work.
pub open spec fn working(work: WorkModel) -> UpdateModel {
    UpdateModel { work, event: None, text: None }
}

/// Starting a save of the live text: to the known path, or after asking
/// for one.
pub open spec fn save_work(doc: DocumentModel, live: Seq<char>) -> WorkModel {
    match doc.path {
        Some(path) => WorkModel::Save { path, snapshot: live },
        None => WorkModel::PickSavePath,
    }
}

/// Running the action the unsaved prompt guarded.
pub open spec fn run_action(action: UnsavedAction) -> UpdateModel {
    match action {
        UnsavedAction::OpenFile => working(WorkModel::PickAndOpen),
        UnsavedAction::CloseWindow(id) => raising(Event::CloseWindow(id)),
    }
}

/// The prompt guarding `action` shows.
pub open spec fn prompting(doc: DocumentModel, action: UnsavedAction) -> (DocumentModel, UpdateModel) {
    (DocumentModel { pending: Some(action), ..doc }, raising(Event::UnsavedVisibilityChanged(true)))
}

/// The prompt hides, guarding nothing.
pub open spec fn hiding(doc: DocumentModel, work: WorkModel) -> (DocumentModel, UpdateModel) {
    (
        DocumentModel { pending: None, ..doc },
        UpdateModel { work, event: Some(Event::UnsavedVisibilityChanged(false)), text: None },
    )
}

/// The document step for a message, given the live text in the editor.
pub open spec fn step(doc: DocumentModel, message: Message, live: Seq<char>) -> (DocumentModel, UpdateModel) {
    let modified = live != doc.saved;
    match message {
        Message::OpenRequested => if modified {
            prompting(doc, UnsavedAction::OpenFile)
        } else {
            (doc, working(WorkModel::PickAndOpen))
        },
        Message::OpenLoaded(Some((path, contents))) => (
            DocumentModel { path: Some(path@), saved: contents@, ..doc },
            UpdateModel {
                work: WorkModel::Nothing,
                event: Some(Event::SourceReplaced { reason: SourceReplacement::Loaded }),
                text: Some(contents@),
            },
        ),
        Message::OpenLoaded(None) => (doc, nothing()),
        Message::SaveRequested => (doc, working(save_work(doc, live))),
        Message::SavePathChosen(Some(path)) => (
            DocumentModel { path: Some(path@), ..doc },
            working(WorkModel::Save { path: path@, snapshot: live }),
        ),
        Message::SavePathChosen(None) => hiding(doc, WorkModel::Nothing),
        Message::Saved(Ok(_), snapshot) => {
            let saved = DocumentModel { saved: snapshot@, pending: None, ..doc };
            match doc.pending {
                Some(action) => if live != snapshot@ {
                    prompting(saved, action)
                } else {
                    (saved, run_action(action))
                },
                None => (saved, nothing()),
            }
        },
        Message::Saved(Err(_), _) => hiding(doc, WorkModel::Nothing),
        Message::UnsavedCardPressed => (doc, nothing()),
        Message::UnsavedCancel => hiding(doc, WorkModel::Nothing),
        Message::UnsavedSave => (
            doc,
            UpdateModel {
                work: save_work(doc, live),
                event: Some(Event::UnsavedVisibilityChanged(false)),
                text: None,
            },
        ),
        Message::UnsavedDiscard => match doc.pending {
            Some(action) => (DocumentModel { pending: None, ..doc }, run_action(action)),
            None => (doc, nothing()),
        },
        Message::CloseRequested(id) => if modified {
            prompting(doc, UnsavedAction::CloseWindow(id))
        } else {
            (doc, raising(Event::CloseWindow(id)))
        },
        Message::ExternalChange => match doc.path {
            Some(path) => (doc, working(WorkModel::ReadExternal { path })),
            None => (doc, nothing()),
        },
        Message::ExternalRead(Some(contents)) => if contents@ == live {
            (doc, nothing())
        } else {
            (
                DocumentModel { saved: contents@, ..doc },
                UpdateModel {
                    work: WorkModel::Nothing,
                    event: Some(Event::SourceReplaced { reason: SourceReplacement::External }),
                    text: Some(contents@),
                },
            )
        },
        Message::ExternalRead(None) => (doc, nothing()),
    }
}

/// The path's bytes, copied.
fn copy_path(path: &PathBytes) -> (copy: PathBytes)
    ensures
        copy@ == path@,
{
    let mut copy: Vec<u8> = Vec::new();
    let mut i: usize = 0;
    while i < path.len()
        invariant
            i <= path@.len(),
            copy@ == path@.take(i as int),
        decreases path@.len() - i,
    {
        copy.push(path[i]);
        assert(copy@ =~= path@.take(i + 1));
        i += 1;
    }
    assert(path@.take(path@.len() as int) =~= path@);
    copy
}

/// Whether two texts hold the same characters.
fn same_text(a: &str, b: &str) -> (same: bool)
    ensures
        same == (a@ == b@),
{
    let x = chars_of(a);
    let y = chars_of(b);
    if x.len() != y.len() {
        return false;
    }
    let mut i: usize = 0;
    while i < x.len()
        invariant
            i <= x@.len(),
            x@ == a@,
            y@ == b@,
            x@.len() == y@.len(),
            forall|k: int| 0 <= k < i ==> x@[k] == y@[k],
        decreases x@.len() - i,
    {
        if x[i] != y[i] {
            assert(x@[i as int] != y@[i as int]);
            return false;
        }
        i += 1;
    }
    assert(x@ =~= y@);
    true
}

/// The source document's persistence state.
pub struct DocumentState {
    path: Option<PathBytes>,
    saved_contents: String,
    pending_unsaved: Option<UnsavedAction>,
}

impl DocumentState {
    /// The document as the contracts see it.
    pub closed spec fn model(&self) -> DocumentModel {
        DocumentModel {
            path: match self.path {
                Some(path) => Some(path@),
                None => None,
            },
            saved: self.saved_contents@,
            pending: self.pending_unsaved,
        }
    }

    /// A document holding `contents`, saved as they are.
    pub fn new(contents: &str, path: Option<PathBytes>) -> (doc: DocumentState)
        ensures
            doc.model() == (DocumentModel {
                path: match path {
                    Some(path) => Some(path@),
                    None => None,
                },
                saved: contents@,
                pending: None,
            }),
    {
        DocumentState { path, saved_contents: contents.to_owned(), pending_unsaved: None }
    }

    /// The file the document came from and saves back to, once known.
    pub fn path(&self) -> (path: Option<&PathBytes>)
        ensures
            match (path, self.model().path) {
                (Some(p), Some(q)) => p@ == q,
                (None, None) => true,
                _ => false,
            },
    {
        match &self.path {
            Some(path) => Some(path),
            None => None,
        }
    }

    /// The text last loaded or saved.
    pub fn saved_contents(&self) -> (saved: &str)
        ensures
            saved@ == self.model().saved,
    {
        self.saved_contents.as_str()
    }

    /// Whether the live text differs from the last loaded or saved one.
    pub fn is_modified(&self, live: &str) -> (modified: bool)
        ensures
            modified == (live@ != self.model().saved),
    {
        !same_text(live, self.saved_contents.as_str())
    }

    /// The action the unsaved-changes prompt currently guards.
    pub fn pending_action(&self) -> (action: Option<UnsavedAction>)
        ensures
            action == self.model().pending,
    {
        self.pending_unsaved
    }

    /// Starts a save of the live text.
    fn start_save(&self, live: &str) -> (work: Work)
        ensures
            work_view(work) == save_work(self.model(), live@),
    {
        match &self.path {
            Some(path) => Work::Save { path: copy_path(path), snapshot: live.to_owned() },
            None => Work::PickSavePath,
        }
    }

    /// Shows the prompt guarding `action`.
    fn prompt(&mut self, action: UnsavedAction) -> (update: Update)
        ensures
            (final(self).model(), update_view(update)) == prompting(old(self).model(), action),
    {
        self.pending_unsaved = Some(action);
        Update { work: Work::Nothing, event: Some(Event::UnsavedVisibilityChanged(true)), text: None }
    }

    /// Hides the prompt with `work` still to do.
    fn close_prompt(&mut self, work: Work) -> (update: Update)
        ensures
            (final(self).model(), update_view(update)) == hiding(old(self).model(), work_view(work)),
    {
        self.pending_unsaved = None;
        Update { work, event: Some(Event::UnsavedVisibilityChanged(false)), text: None }
    }

    /// Applies one document message, given the live text in the editor,
    /// and says what the application must do.
    pub fn update(&mut self, message: Message, live: &str) -> (update: Update)
        ensures
            (final(self).model(), update_view(update)) == step(old(self).model(), message, live@),
    {
        let ghost doc = self.model();
        let nothing = Update { work: Work::Nothing, event: None, text: None };
        match message {
            Message::OpenRequested => if self.is_modified(live) {
                self.prompt(UnsavedAction::OpenFile)
            } else {
                Update { work: Work::PickAndOpen, event: None, text: None }
            },
            Message::OpenLoaded(Some((path, contents))) => {
                self.path = Some(path);
                self.saved_contents = contents.clone();
                Update {
                    work: Work::Nothing,
                    event: Some(Event::SourceReplaced { reason: SourceReplacement::Loaded }),
                    text: Some(contents),
                }
            },
            Message::OpenLoaded(None) => nothing,
            Message::SaveRequested => Update { work: self.start_save(live), event: None, text: None },
            Message::SavePathChosen(Some(path)) => {
                let target = copy_path(&path);
                self.path = Some(path);
                Update {
                    work: Work::Save { path: target, snapshot: live.to_owned() },
                    event: None,
                    text: None,
                }
            },
            Message::SavePathChosen(None) => self.close_prompt(Work::Nothing),
            Message::Saved(Ok(_), snapshot) => {
                let pending = self.pending_unsaved;
                self.pending_unsaved = None;
                let changed = !same_text(live, snapshot.as_str());
                self.saved_contents = snapshot;
                match pending {
                    Some(action) => if changed {
                        self.prompt(action)
                    } else {
                        match action {
                            UnsavedAction::OpenFile => Update {
                                work: Work::PickAndOpen,
                                event: None,
                                text: None,
                            },
                            UnsavedAction::CloseWindow(id) => Update {
                                work: Work::Nothing,
                                event: Some(Event::CloseWindow(id)),
                                text: None,
                            },
                        }
                    },
                    None => nothing,
                }
            },
            Message::Saved(Err(_), _) => self.close_prompt(Work::Nothing),
            Message::UnsavedCardPressed => nothing,
            Message::UnsavedCancel => self.close_prompt(Work::Nothing),
            Message::UnsavedSave => Update {
                work: self.start_save(live),
                event: Some(Event::UnsavedVisibilityChanged(false)),
                text: None,
            },
            Message::UnsavedDiscard => match self.pending_unsaved {
                Some(action) => {
                    self.pending_unsaved = None;
                    match action {
                        UnsavedAction::OpenFile => Update {
                            work: Work::PickAndOpen,
                            event: None,
                            text: None,
                        },
                        UnsavedAction::CloseWindow(id) => Update {
                            work: Work::Nothing,
                            event: Some(Event::CloseWindow(id)),
                            text: None,
                        },
                    }
                },
                None => nothing,
            },
            Message::CloseRequested(id) => if self.is_modified(live) {
                self.prompt(UnsavedAction::CloseWindow(id))
            } else {
                Update { work: Work::Nothing, event: Some(Event::CloseWindow(id)), text: None }
            },
            Message::ExternalChange => match &self.path {
                Some(path) => Update {
                    work: Work::ReadExternal { path: copy_path(path) },
                    event: None,
                    text: None,
                },
                None => nothing,
            },
            Message::ExternalRead(Some(contents)) => if same_text(contents.as_str(), live) {
                nothing
            } else {
                self.saved_contents = contents.clone();
                Update {
                    work: Work::Nothing,
                    event: Some(Event::SourceReplaced { reason: SourceReplacement::External }),
                    text: Some(contents),
                }
            },
            Message::ExternalRead(None) => nothing,
        }
    }
}

// ---------------------------------------------------------------------------
// Editor positions.
// ---------------------------------------------------------------------------

/// The number of characters of `text` that end at or before byte `limit`.
pub open spec fn chars_within(text: Seq<char>, limit: int) -> nat
    decreases text.len(),
{
    if text.len() == 0 || byte_offset(text, text.len() as int) <= limit {
        text.len()
    } else {
        chars_within(text.drop_last(), limit)
    }
}

/// The byte column a clamped position takes in `text`: the nearest
/// character boundary at or before `column`, within the line.
pub open spec fn clamped_column(text: Seq<char>, column: int) -> int {
    byte_offset(text, chars_within(text, column) as int)
}

/// The line a clamped position takes among `count` lines.
pub open spec fn clamped_line(count: int, line: int) -> int {
    let last = if count > 0 {
        count - 1
    } else {
        0
    };
    if line <= last {
        line
    } else {
        last
    }
}

proof fn lemma_byte_offset_prefix(text: Seq<char>, i: int)
    requires
        0 <= i < text.len(),
    ensures
        byte_offset(text.drop_last(), i) == byte_offset(text, i),
{
    assert(text.drop_last().take(i) =~= text.take(i));
}

proof fn lemma_chars_within(text: Seq<char>, limit: int)
    requires
        limit >= 0,
    ensures
        chars_within(text, limit) <= text.len(),
        byte_offset(text, chars_within(text, limit) as int) <= limit,
        forall|i: int|
            chars_within(text, limit) < i <= text.len() ==> byte_offset(text, i) > limit,
    decreases text.len(),
{
    if text.len() == 0 {
        assert(text.take(0) =~= Seq::<char>::empty());
        assert(vstd::utf8::encode_utf8(Seq::<char>::empty()) =~= Seq::<u8>::empty());
    } else if byte_offset(text, text.len() as int) > limit {
        let shorter = text.drop_last();
        lemma_chars_within(shorter, limit);
        let k = chars_within(shorter, limit);
        assert(k < text.len());
        lemma_byte_offset_prefix(text, k as int);
        assert forall|i: int| k < i <= text.len() implies byte_offset(text, i) > limit by {
            if i < text.len() {
                lemma_byte_offset_prefix(text, i);
            }
        }
    }
}

/// Clamps an editor position to a line holding `text`: the column moves
/// to the nearest character boundary at or before it, within the line.
fn clamp_column(text: &str, column: usize) -> (clamped: usize)
    ensures
        clamped == clamped_column(text@, column as int),
{
    let chars = chars_of(text);
    let offsets = byte_offsets(text, &chars);
    let mut k: usize = chars.len();
    proof {
        lemma_chars_within(chars@, column as int);
    }
    while k > 0 && offsets[k] > column
        invariant
            k <= chars@.len(),
            chars@ == text@,
            offsets@.len() == chars@.len() + 1,
            forall|i: int| 0 <= i <= chars@.len() ==> #[trigger] offsets@[i] == byte_offset(chars@, i),
            chars_within(chars@, column as int) <= k,
            byte_offset(chars@, chars_within(chars@, column as int) as int) <= column,
            forall|i: int|
                chars_within(chars@, column as int) < i <= chars@.len() ==> byte_offset(chars@, i)
                    > column,
        decreases k,
    {
        k -= 1;
    }
    proof {
        if k > chars_within(chars@, column as int) {
            assert(offsets@[k as int] == byte_offset(chars@, k as int));
        }
    }
    offsets[k]
}

/// Clamps an editor position to the editor's lines, as after the text
/// was replaced from disk: the line to the last line, the column to the
/// nearest character boundary at or before it within that line.
pub fn clamp_position(lines: &Vec<String>, line: usize, column: usize) -> (clamped: (usize, usize))
    ensures
        clamped.0 == clamped_line(lines@.len() as int, line as int),
        clamped.1 == if clamped.0 < lines@.len() {
            clamped_column(lines@[clamped.0 as int]@, column as int)
        } else {
            0
        },
{
    let last = if lines.len() > 0 {
        lines.len() - 1
    } else {
        0
    };
    let row = if line <= last {
        line
    } else {
        last
    };
    if row < lines.len() {
        (row, clamp_column(lines[row].as_str(), column))
    } else {
        (row, 0)
    }
}

/// The text of a line before the cursor's character column: the whole
/// line when the column lies past its end.
pub open spec fn before_column(line: Seq<char>, column: int) -> Seq<char> {
    if column < line.len() {
        line.take(column)
    } else {
        line
    }
}

/// The text of `line` before character column `column`.
pub fn line_before(line: &str, column: usize) -> (before: String)
    ensures
        before@ == before_column(line@, column as int),
{
    let chars = chars_of(line);
    let end = if column < chars.len() {
        column
    } else {
        chars.len()
    };
    let before = string_of_range(&chars, 0, end);
    assert(chars@.subrange(0, chars@.len() as int) =~= chars@);
    before
}

/// What Enter does with the cursor at `column` of `line`: continue a
/// list, end an empty item, or break the line plainly; `None` for an
/// ordered item numbered `usize::MAX`, which has no successor.
pub fn enter_continuation(line: &str, column: usize) -> (next: Option<Continuation>)
    ensures
        next is None <==> numbering_overflows(before_column(line@, column as int)),
        next matches Some(next) ==> ({
            let before = before_column(line@, column as int);
            let (outdent, prefix) = continuation_of(before);
            match next {
                Continuation::Break => outdent == 0 && prefix is None,
                Continuation::Outdent(count) => prefix is None && outdent == count && count
                    == before.len() && count > 0,
                Continuation::Continue(text) => prefix == Some(text@),
            }
        }),
{
    let before = line_before(line, column);
    crate::editing::try_continuation(before.as_str())
}

// ---------------------------------------------------------------------------
// Laws.
// ---------------------------------------------------------------------------

/// A finished save baselines exactly the snapshot it wrote: afterwards
/// the document counts as modified exactly when the live text differs
/// from that snapshot, whatever happened meanwhile.
pub proof fn law_save_baselines_its_snapshot(
    doc: DocumentModel,
    path: PathBytes,
    snapshot: String,
    live: Seq<char>,
)
    ensures
        step(doc, Message::Saved(Ok(path), snapshot), live).0.saved == snapshot@,
        step(doc, Message::Saved(Ok(path), snapshot), live).0.pending is None || live
            != snapshot@,
{
}

/// A guarded action waits for a clean save: when the save that the
/// prompt asked for finishes with the live text equal to what it wrote,
/// the action runs; when edits arrived meanwhile, the prompt shows again
/// guarding the same action.
pub proof fn law_guarded_action_waits_for_a_clean_save(
    doc: DocumentModel,
    action: UnsavedAction,
    path: PathBytes,
    snapshot: String,
    live: Seq<char>,
)
    requires
        doc.pending == Some(action),
    ensures
        live == snapshot@ ==> step(doc, Message::Saved(Ok(path), snapshot), live) == (
        DocumentModel { saved: snapshot@, pending: None, ..doc },
        run_action(action),
        ),
        live != snapshot@ ==> step(doc, Message::Saved(Ok(path), snapshot), live) == (
        DocumentModel { saved: snapshot@, pending: Some(action), ..doc },
        raising(Event::UnsavedVisibilityChanged(true)),
        ),
{
}

/// An unmodified document never prompts: opening another file or closing
/// the window goes ahead at once.
pub proof fn law_unmodified_documents_never_prompt(doc: DocumentModel, id: u64)
    ensures
        step(doc, Message::OpenRequested, doc.saved) == (doc, working(WorkModel::PickAndOpen)),
        step(doc, Message::CloseRequested(id), doc.saved) == (doc, raising(Event::CloseWindow(id))),
{
}

/// A loaded file is the new baseline: right after loading, the editor
/// holds the file's text and the document is not modified.
pub proof fn law_loading_baselines_the_file(
    doc: DocumentModel,
    path: PathBytes,
    contents: String,
    live: Seq<char>,
)
    ensures
        ({
            let (after, update) = step(doc, Message::OpenLoaded(Some((path, contents))), live);
            update.text == Some(contents@) && after.saved == contents@
        }),
{
}


/// The unsaved-changes dialog's wording for the action it guards.
pub fn warning(action: UnsavedAction) -> (text: &'static str)
    ensures
        text@ == (match action {
            UnsavedAction::OpenFile =>
                "The document has unsaved changes. Opening a new file will discard them."@,
            UnsavedAction::CloseWindow(_) => "The document has unsaved changes. Close without saving?"@,
        }),
{
    match action {
        UnsavedAction::OpenFile => {
            "The document has unsaved changes. Opening a new file will discard them."
        },
        UnsavedAction::CloseWindow(_) => "The document has unsaved changes. Close without saving?",
    }
}

} // verus!
