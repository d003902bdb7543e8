//! The keymap: one representation of the input mode, read both by key
//! handling and by the mode badge.
//!
//! The mode is a small stack: write or view at the base, visual mode as a
//! layer over view, and the note and find popups on top. [`Keymap`] owns
//! the stack, the overlays (help and the unsaved-changes dialog), and the
//! pending `g`/`z` prefix and count of a vim-like sequence, behind two entry
//! points: [`Keymap::handle`] turns a key press into an optional message,
//! and [`Keymap::note`] keeps the stack in sync with every dispatched
//! message, so key handling and message handling never disagree.
use crate::bindings::{
    help_event_action, help_event_spec, HelpAction, InputEvent, Key, KeyPress, Modifiers, NamedKey,
};
use crate::editing::digits_value;
use crate::pending::MAX_COUNT;
use crate::preview::{Jump, Motion, Page, Placement, WordMotion};
use crate::text::{ascii_digit, chars_of, is_ascii_digit};
use vstd::prelude::*;

verus! {

/// The mode the editor is in, as the badge shows it.
#[derive(Debug, Clone, Copy, PartialEq, Eq, Hash)]
pub enum Mode {
    /// Editing the Markdown source.
    Write,
    /// Previewing; caret moves without selecting.
    View,
    /// Previewing; motions extend the selection.
    Visual,
    /// The note popup is open over the preview.
    Note,
    /// The find popup is open.
    Find,
}

/// The mode stack without the popups: write, or the preview with an
/// optional visual layer.
#[derive(Debug, Clone, Copy, PartialEq, Eq, Hash)]
pub enum Layer {
    Write,
    View,
    Visual,
}

/// The messages the keymap produces from keys and follows when they are
/// dispatched; any other message of the application is `Other`.
#[derive(Debug, Clone, Copy, PartialEq, Eq)]
pub enum Message {
    OpenHelp,
    CloseHelp,
    HelpCardPressed,
    UnsavedChanges,
    UnsavedCancel,
    UnsavedSave,
    UnsavedDiscard,
    OpenNotePopup,
    CloseNotePopup,
    SaveNote,
    EditActiveComment,
    /// Yank the visual selection to the clipboard, leaving visual mode.
    Yank,
    OpenFind,
    CloseFind,
    FindNext,
    FindPrevious,
    MovePreviewCursor(Motion, usize),
    MovePreviewWord(WordMotion, usize),
    MovePreviewJump(Jump, usize),
    ScrollPreviewPage(Page, usize),
    ScrollPreviewCaret(Placement),
    PreviewCountPressed(u32),
    PreviewGPressed,
    PreviewZPressed,
    PreviewCancel,
    ToggleVisualMode,
    TogglePreview,
    OpenFile,
    SaveFile,
    ToggleSidebar,
    NextComment,
    AddGlobalComment,
    PublishPressed,
    /// A file finished loading: `true` when one was actually loaded.
    FileLoaded(bool),
    Other,
}

/// The input mode stack and the pending sequence state.
#[derive(Debug, Clone, Copy, PartialEq, Eq, Hash)]
pub struct Keymap {
    layer: Layer,
    note_open: bool,
    find_open: bool,
    /// Help floats above the mode without changing it.
    help_open: bool,
    /// The unsaved-changes dialog floats above the mode too.
    unsaved_open: bool,
    preview_only: bool,
    /// Whether a lone `g` awaits the second key of `gg`/`ge`.
    pending_g: bool,
    /// Whether a lone `z` awaits the second key of `zz`/`zt`/`zb`.
    pending_z: bool,
    /// The digits of a pending count, like vim's `3` of `3j`.
    pending_count: Option<u32>,
}

/// A character key producing exactly the character `c`.
pub open spec fn is_char(key: Key, c: char) -> bool {
    key matches Key::Character(text) && text@ == seq![c]
}

/// Whether a key is the named key.
pub open spec fn is_named(key: Key, named: NamedKey) -> bool {
    key == Key::Named(named)
}

/// Whether every character of `s` is an ASCII digit.
pub open spec fn all_digits(s: Seq<char>) -> bool {
    forall|i: int| 0 <= i < s.len() ==> is_ascii_digit(#[trigger] s[i])
}

/// The number a run of digits parses to as a `u32`, or zero when it does
/// not parse: empty, or too large.
pub open spec fn parsed_count(s: Seq<char>) -> u32 {
    if s.len() > 0 && digits_value(s) <= u32::MAX {
        digits_value(s) as u32
    } else {
        0
    }
}

/// The smaller of a number and [`MAX_COUNT`].
pub open spec fn capped(n: int) -> int {
    if n <= MAX_COUNT {
        n
    } else {
        MAX_COUNT as int
    }
}

/// A count extended by one more digit: times ten plus the digit, each
/// step saturating, then capped at [`MAX_COUNT`].
pub open spec fn extended_count(digits: u32, digit: u32) -> u32 {
    let times = if digits * 10 <= u32::MAX {
        digits * 10
    } else {
        u32::MAX as int
    };
    let plus = if times + digit <= u32::MAX {
        times + digit
    } else {
        u32::MAX as int
    };
    capped(plus) as u32
}

/// The keymap as the contracts see it: the same fields, readable.
pub struct KeymapModel {
    pub layer: Layer,
    pub note_open: bool,
    pub find_open: bool,
    pub help_open: bool,
    pub unsaved_open: bool,
    pub preview_only: bool,
    pub pending_g: bool,
    pub pending_z: bool,
    pub pending_count: Option<u32>,
}

impl KeymapModel {
    /// Whether the preview shows: every layer but write.
    pub open spec fn previewing(self) -> bool {
        self.layer != Layer::Write
    }

    /// The mode the badge shows.
    pub open spec fn mode_spec(self) -> Mode {
        if self.note_open {
            Mode::Note
        } else if self.find_open {
            Mode::Find
        } else {
            match self.layer {
                Layer::Write => Mode::Write,
                Layer::View => Mode::View,
                Layer::Visual => Mode::Visual,
            }
        }
    }

    /// The count a motion repeats: the typed digits, or once, capped.
    pub open spec fn count_spec(self) -> usize {
        match self.pending_count {
            Some(n) => capped(n as int) as usize,
            None => 1,
        }
    }

    /// The count a jump carries: the typed digits, capped, or none.
    pub open spec fn jump_count_spec(self) -> usize {
        match self.pending_count {
            Some(n) => capped(n as int) as usize,
            None => 0,
        }
    }

    /// What the preview canvas's keys mean.
    pub open spec fn preview_keys(self, press: KeyPress) -> Option<Message> {
        let key = press.key;
        let repeat = press.repeat;
        let count = self.count_spec();
        let jump = self.jump_count_spec();
        match key {
            Key::Character(text) => if !repeat && all_digits(text@) {
                if text@ == seq!['0'] && self.pending_count is None {
                    Some(Message::MovePreviewCursor(Motion::Start, 1))
                } else {
                    Some(Message::PreviewCountPressed(parsed_count(text@)))
                }
            } else {
                self.preview_motion_keys(press)
            },
            _ => self.preview_motion_keys(press),
        }
    }

    /// What the preview canvas's keys other than digits mean.
    pub open spec fn preview_motion_keys(self, press: KeyPress) -> Option<Message> {
        let key = press.key;
        let repeat = press.repeat;
        let count = self.count_spec();
        let jump = self.jump_count_spec();
        if is_named(key, NamedKey::ArrowUp) || is_char(key, 'k') || is_char(key, 'K') {
            Some(Message::MovePreviewCursor(Motion::Up, count))
        } else if is_named(key, NamedKey::ArrowDown) || is_char(key, 'j') || is_char(key, 'J') {
            Some(Message::MovePreviewCursor(Motion::Down, count))
        } else if is_named(key, NamedKey::ArrowLeft) || is_char(key, 'h') || is_char(key, 'H') {
            Some(Message::MovePreviewCursor(Motion::Left, count))
        } else if is_named(key, NamedKey::ArrowRight) || is_char(key, 'l') || is_char(key, 'L') {
            Some(Message::MovePreviewCursor(Motion::Right, count))
        } else if is_named(key, NamedKey::PageUp) {
            Some(Message::ScrollPreviewPage(Page::FullUp, count))
        } else if is_named(key, NamedKey::PageDown) {
            Some(Message::ScrollPreviewPage(Page::FullDown, count))
        } else if is_char(key, 'z') && self.pending_z && !repeat {
            Some(Message::ScrollPreviewCaret(Placement::Center))
        } else if is_char(key, 't') && self.pending_z && !repeat {
            Some(Message::ScrollPreviewCaret(Placement::Top))
        } else if is_char(key, 'b') && self.pending_z && !repeat {
            Some(Message::ScrollPreviewCaret(Placement::Bottom))
        } else if is_char(key, 'z') && !repeat {
            Some(Message::PreviewZPressed)
        } else if is_char(key, 'g') && self.pending_g && !repeat {
            Some(Message::MovePreviewJump(Jump::First, jump))
        } else if is_char(key, 'g') && !repeat {
            Some(Message::PreviewGPressed)
        } else if (is_char(key, 'e') || is_char(key, 'E')) && self.pending_g && !repeat {
            Some(Message::MovePreviewWord(WordMotion::PreviousEnd, count))
        } else if is_char(key, 'e') || is_char(key, 'E') {
            Some(Message::MovePreviewWord(WordMotion::NextEnd, count))
        } else if is_char(key, 'w') || is_char(key, 'W') {
            Some(Message::MovePreviewWord(WordMotion::NextStart, count))
        } else if is_char(key, 'b') || is_char(key, 'B') {
            Some(Message::MovePreviewWord(WordMotion::PreviousStart, count))
        } else if is_char(key, 'G') {
            Some(Message::MovePreviewJump(Jump::Last, jump))
        } else if (is_char(key, 'v') || is_char(key, 'V')) && !repeat {
            Some(Message::ToggleVisualMode)
        } else if (is_char(key, 'c') || is_char(key, 'C')) && !repeat {
            Some(Message::OpenNotePopup)
        } else if is_char(key, 'y') && !repeat && self.layer == Layer::Visual {
            Some(Message::Yank)
        } else if is_char(key, '/') && !repeat {
            Some(Message::OpenFind)
        } else if is_named(key, NamedKey::Enter) && !repeat {
            Some(Message::EditActiveComment)
        } else if is_named(key, NamedKey::Escape) && !repeat {
            Some(Message::PreviewCancel)
        } else {
            None
        }
    }

    /// What a Ctrl chord means.
    pub open spec fn ctrl_keys(self, press: KeyPress) -> Option<Message> {
        let key = press.key;
        if is_char(key, 'o') || is_char(key, 'O') {
            Some(Message::OpenFile)
        } else if (is_char(key, 'p') || is_char(key, 'P')) && !self.preview_only {
            Some(Message::TogglePreview)
        } else if is_char(key, 'b') || is_char(key, 'B') {
            Some(Message::ToggleSidebar)
        } else if is_char(key, 's') || is_char(key, 'S') {
            Some(Message::SaveFile)
        } else if is_char(key, 'f') || is_char(key, 'F') {
            Some(Message::OpenFind)
        } else if (is_char(key, 'g') || is_char(key, 'G')) && self.find_open {
            Some(Message::FindNext)
        } else if (is_char(key, 'n') || is_char(key, 'N')) && self.previewing() {
            Some(Message::NextComment)
        } else if (is_char(key, 'd') || is_char(key, 'D')) && self.previewing() {
            Some(Message::ScrollPreviewPage(Page::HalfDown, self.count_spec()))
        } else if (is_char(key, 'u') || is_char(key, 'U')) && self.previewing() {
            Some(Message::ScrollPreviewPage(Page::HalfUp, self.count_spec()))
        } else if is_named(key, NamedKey::Enter) {
            Some(
                if press.modifiers.shift {
                    Message::PublishPressed
                } else {
                    Message::AddGlobalComment
                },
            )
        } else {
            None
        }
    }

    /// The message a key press means in the current mode, if any: the
    /// help and unsaved modals swallow every key but Escape; `?`, with or
    /// without Ctrl, and Ctrl+/ open help from every mode; the note popup
    /// keeps Escape and Ctrl+S; the find popup keeps Escape and Enter; the
    /// preview reads vim keys (`/` opens find, `y` yanks in visual mode);
    /// Ctrl chords are the global shortcuts.
    pub open spec fn handle_spec(self, event: InputEvent) -> Option<Message> {
        match event {
            InputEvent::KeyPressed(press) => {
                let key = press.key;
                let m = press.modifiers;
                let repeat = press.repeat;
                if self.help_open {
                    if is_named(key, NamedKey::Escape) && !repeat {
                        Some(Message::CloseHelp)
                    } else {
                        None
                    }
                } else if self.unsaved_open {
                    if is_named(key, NamedKey::Escape) && !repeat {
                        Some(Message::UnsavedCancel)
                    } else {
                        None
                    }
                } else if !m.alt && !m.logo && !repeat && (is_char(key, '?') || (m.control && is_char(
                    key,
                    '/',
                ))) {
                    Some(Message::OpenHelp)
                } else if self.note_open && !m.alt && !m.logo {
                    if is_named(key, NamedKey::Escape) && !repeat {
                        Some(Message::CloseNotePopup)
                    } else if (is_char(key, 's') || is_char(key, 'S')) && m.control && !repeat {
                        Some(Message::SaveNote)
                    } else {
                        None
                    }
                } else if self.find_open && !m.control && !m.alt && !m.logo {
                    if is_named(key, NamedKey::Escape) && !repeat {
                        Some(Message::CloseFind)
                    } else if is_named(key, NamedKey::Enter) {
                        Some(
                            if m.shift {
                                Message::FindPrevious
                            } else {
                                Message::FindNext
                            },
                        )
                    } else {
                        None
                    }
                } else if self.previewing() && !m.control && !m.alt && !m.logo {
                    self.preview_keys(press)
                } else if m.control && !repeat {
                    self.ctrl_keys(press)
                } else {
                    None
                }
            },
            _ => None,
        }
    }

    /// Whether a message keeps the pending sequence: arming a prefix,
    /// typing a digit, and Help, which is transparent to it.
    pub open spec fn keeps_pending(message: Message) -> bool {
        match message {
            Message::PreviewGPressed | Message::PreviewZPressed | Message::PreviewCountPressed(_)
            | Message::OpenHelp | Message::CloseHelp | Message::HelpCardPressed => true,
            _ => false,
        }
    }

    /// The keymap after a dispatched message.
    pub open spec fn noted(self, message: Message) -> KeymapModel {
        let after_pending = if Self::keeps_pending(message) {
            match message {
                Message::PreviewGPressed => KeymapModel { pending_g: true, pending_z: false, ..self },
                Message::PreviewZPressed => KeymapModel { pending_z: true, pending_g: false, ..self },
                Message::PreviewCountPressed(digit) => KeymapModel {
                    pending_g: false,
                    pending_z: false,
                    pending_count: Some(
                        extended_count(
                            match self.pending_count {
                                Some(n) => n,
                                None => 0,
                            },
                            digit,
                        ),
                    ),
                    ..self
                },
                _ => self,
            }
        } else {
            KeymapModel { pending_g: false, pending_z: false, pending_count: None, ..self }
        };
        let k = after_pending;
        match message {
            Message::FileLoaded(true) => KeymapModel {
                note_open: false,
                find_open: false,
                layer: if k.layer == Layer::Visual {
                    Layer::View
                } else {
                    k.layer
                },
                ..k
            },
            Message::TogglePreview => if !k.preview_only {
                KeymapModel {
                    note_open: false,
                    layer: if k.previewing() {
                        Layer::Write
                    } else {
                        Layer::View
                    },
                    ..k
                }
            } else {
                k
            },
            Message::ToggleVisualMode => if k.previewing() {
                KeymapModel {
                    layer: if k.layer == Layer::Visual {
                        Layer::View
                    } else {
                        Layer::Visual
                    },
                    ..k
                }
            } else {
                k
            },
            Message::OpenNotePopup => KeymapModel { note_open: true, ..k },
            Message::CloseNotePopup | Message::SaveNote => KeymapModel { note_open: false, ..k },
            Message::OpenFind => KeymapModel { find_open: true, ..k },
            Message::CloseFind => KeymapModel { find_open: false, ..k },
            Message::OpenHelp => KeymapModel { help_open: true, ..k },
            Message::CloseHelp => KeymapModel { help_open: false, ..k },
            Message::UnsavedChanges => KeymapModel { unsaved_open: true, ..k },
            Message::UnsavedCancel | Message::UnsavedSave | Message::UnsavedDiscard => KeymapModel {
                unsaved_open: false,
                ..k
            },
            Message::PreviewCancel | Message::Yank => if k.layer == Layer::Visual {
                KeymapModel { layer: Layer::View, ..k }
            } else {
                k
            },
            _ => k,
        }
    }

}

impl Keymap {
    /// The keymap as the contracts see it.
    pub closed spec fn model(self) -> KeymapModel {
        KeymapModel {
            layer: self.layer,
            note_open: self.note_open,
            find_open: self.find_open,
            help_open: self.help_open,
            unsaved_open: self.unsaved_open,
            preview_only: self.preview_only,
            pending_g: self.pending_g,
            pending_z: self.pending_z,
            pending_count: self.pending_count,
        }
    }

    /// Whether the preview shows.
    pub open spec fn previewing(self) -> bool {
        self.model().previewing()
    }

    /// The mode the badge shows.
    pub open spec fn mode_spec(self) -> Mode {
        self.model().mode_spec()
    }

    /// The count a motion repeats.
    pub open spec fn count_spec(self) -> usize {
        self.model().count_spec()
    }

    /// The count a jump carries.
    pub open spec fn jump_count_spec(self) -> usize {
        self.model().jump_count_spec()
    }

    /// The layer of the mode stack.
    pub open spec fn layer_of(self) -> Layer {
        self.model().layer
    }

    /// The popups and the preview-only flag: note, find, help, unsaved,
    /// preview-only.
    pub open spec fn flags(self) -> (bool, bool, bool, bool, bool) {
        let m = self.model();
        (m.note_open, m.find_open, m.help_open, m.unsaved_open, m.preview_only)
    }

    /// The pending sequence: `g` armed, `z` armed, the count typed.
    pub open spec fn pending(self) -> (bool, bool, Option<u32>) {
        let m = self.model();
        (m.pending_g, m.pending_z, m.pending_count)
    }

    /// The message a key press means.
    pub open spec fn handle_spec(self, event: InputEvent) -> Option<Message> {
        self.model().handle_spec(event)
    }

    /// A keymap starting in write mode, or in view mode when the session
    /// is preview-only.
    pub fn new(preview_only: bool) -> (keymap: Keymap)
        ensures
            keymap.layer_of() == if preview_only {
                Layer::View
            } else {
                Layer::Write
            },
            keymap.flags() == (false, false, false, false, preview_only),
            keymap.pending() == (false, false, None::<u32>),
    {
        Keymap {
            layer: if preview_only {
                Layer::View
            } else {
                Layer::Write
            },
            note_open: false,
            find_open: false,
            help_open: false,
            unsaved_open: false,
            preview_only,
            pending_g: false,
            pending_z: false,
            pending_count: None,
        }
    }

    /// The current mode, popups included — the badge reads this.
    pub fn mode(&self) -> (mode: Mode)
        ensures
            mode == self.mode_spec(),
    {
        if self.note_open {
            Mode::Note
        } else if self.find_open {
            Mode::Find
        } else {
            match self.layer {
                Layer::Write => Mode::Write,
                Layer::View => Mode::View,
                Layer::Visual => Mode::Visual,
            }
        }
    }

    /// Whether the preview shows: in every mode but write.
    pub fn preview(&self) -> (shown: bool)
        ensures
            shown == self.previewing(),
    {
        match self.layer {
            Layer::Write => false,
            _ => true,
        }
    }

    /// Whether the session is preview-only: editing and switching to write
    /// mode are disabled.
    pub fn preview_only(&self) -> (locked: bool)
        ensures
            locked == self.flags().4,
    {
        self.preview_only
    }

    /// Whether the note popup is open.
    pub fn note_open(&self) -> (open: bool)
        ensures
            open == self.flags().0,
    {
        self.note_open
    }

    /// Whether the find popup is open.
    pub fn find_open(&self) -> (open: bool)
        ensures
            open == self.flags().1,
    {
        self.find_open
    }

    /// Whether Help is open; the mode itself stays as it was.
    pub fn help_open(&self) -> (open: bool)
        ensures
            open == self.flags().2,
    {
        self.help_open
    }

    /// Whether the unsaved-changes dialog is open; the mode stays as it
    /// was beneath it.
    pub fn unsaved_open(&self) -> (open: bool)
        ensures
            open == self.flags().3,
    {
        self.unsaved_open
    }

    /// The pending count for the badge's hint, `0` when none is pending.
    pub fn pending_count(&self) -> (count: u32)
        ensures
            count == match self.pending().2 {
                Some(n) => n,
                None => 0,
            },
    {
        match self.pending_count {
            Some(n) => n,
            None => 0,
        }
    }

    /// The count a motion repeats: the typed digits, or once.
    fn count(&self) -> (count: usize)
        ensures
            count == self.count_spec(),
    {
        match self.pending_count {
            Some(n) => if n <= MAX_COUNT {
                n as usize
            } else {
                MAX_COUNT as usize
            },
            None => 1,
        }
    }

    /// The count a jump carries: the typed digits, or `0`, so a plain
    /// `gg`/`G` keeps its first/last meaning.
    fn jump_count(&self) -> (count: usize)
        ensures
            count == self.jump_count_spec(),
    {
        match self.pending_count {
            Some(n) => if n <= MAX_COUNT {
                n as usize
            } else {
                MAX_COUNT as usize
            },
            None => 0,
        }
    }

    /// Whether visual mode is active: motions extend the selection.
    pub fn visual(&self) -> (visual: bool)
        ensures
            visual == (self.layer_of() == Layer::Visual),
    {
        match self.layer {
            Layer::Visual => true,
            _ => false,
        }
    }

    /// The message a key press means in the current mode, if any. This
    /// only reads the mode; transitions happen in [`Keymap::note`] once the
    /// message is dispatched.
    pub fn handle(&self, event: &InputEvent) -> (message: Option<Message>)
        ensures
            message == self.handle_spec(*event),
    {
        let press = match event {
            InputEvent::KeyPressed(press) => press,
            _ => {
                return None;
            },
        };
        let keys = KeyFacts::of(&press.key);
        let m = press.modifiers;
        let repeat = press.repeat;
        if self.help_open {
            return if keys.escape && !repeat {
                Some(Message::CloseHelp)
            } else {
                None
            };
        }
        if self.unsaved_open {
            return if keys.escape && !repeat {
                Some(Message::UnsavedCancel)
            } else {
                None
            };
        }
        if !m.alt && !m.logo && !repeat && (keys.single == Some('?') || (m.control && keys.single
            == Some('/'))) {
            return Some(Message::OpenHelp);
        }
        if self.note_open && !m.alt && !m.logo {
            return if keys.escape && !repeat {
                Some(Message::CloseNotePopup)
            } else if (keys.single == Some('s') || keys.single == Some('S')) && m.control && !repeat {
                Some(Message::SaveNote)
            } else {
                None
            };
        }
        if self.find_open && !m.control && !m.alt && !m.logo {
            return if keys.escape && !repeat {
                Some(Message::CloseFind)
            } else if keys.enter {
                Some(
                    if m.shift {
                        Message::FindPrevious
                    } else {
                        Message::FindNext
                    },
                )
            } else {
                None
            };
        }
        if self.preview() && !m.control && !m.alt && !m.logo {
            return self.preview_keys_exec(press, &keys);
        }
        if m.control && !repeat {
            self.ctrl_keys_exec(press, &keys)
        } else {
            None
        }
    }

    fn preview_keys_exec(&self, press: &KeyPress, keys: &KeyFacts) -> (message: Option<Message>)
        requires
            keys.describes(press.key),
        ensures
            message == self.model().preview_keys(*press),
    {
        let repeat = press.repeat;
        let count = self.count();
        let jump = self.jump_count();
        let c = keys.single;
        let is = |x: char| -> (same: bool)
            ensures
                same == (c == Some(x)),
            { c == Some(x) };
        if keys.character && !repeat && keys.digits {
            return if keys.zero && self.pending_count.is_none() {
                Some(Message::MovePreviewCursor(Motion::Start, 1))
            } else {
                Some(Message::PreviewCountPressed(keys.number))
            };
        }
        if keys.named == Some(NamedKey::ArrowUp) || is('k') || is('K') {
            Some(Message::MovePreviewCursor(Motion::Up, count))
        } else if keys.named == Some(NamedKey::ArrowDown) || is('j') || is('J') {
            Some(Message::MovePreviewCursor(Motion::Down, count))
        } else if keys.named == Some(NamedKey::ArrowLeft) || is('h') || is('H') {
            Some(Message::MovePreviewCursor(Motion::Left, count))
        } else if keys.named == Some(NamedKey::ArrowRight) || is('l') || is('L') {
            Some(Message::MovePreviewCursor(Motion::Right, count))
        } else if keys.named == Some(NamedKey::PageUp) {
            Some(Message::ScrollPreviewPage(Page::FullUp, count))
        } else if keys.named == Some(NamedKey::PageDown) {
            Some(Message::ScrollPreviewPage(Page::FullDown, count))
        } else if is('z') && self.pending_z && !repeat {
            Some(Message::ScrollPreviewCaret(Placement::Center))
        } else if is('t') && self.pending_z && !repeat {
            Some(Message::ScrollPreviewCaret(Placement::Top))
        } else if is('b') && self.pending_z && !repeat {
            Some(Message::ScrollPreviewCaret(Placement::Bottom))
        } else if is('z') && !repeat {
            Some(Message::PreviewZPressed)
        } else if is('g') && self.pending_g && !repeat {
            Some(Message::MovePreviewJump(Jump::First, jump))
        } else if is('g') && !repeat {
            Some(Message::PreviewGPressed)
        } else if (is('e') || is('E')) && self.pending_g && !repeat {
            Some(Message::MovePreviewWord(WordMotion::PreviousEnd, count))
        } else if is('e') || is('E') {
            Some(Message::MovePreviewWord(WordMotion::NextEnd, count))
        } else if is('w') || is('W') {
            Some(Message::MovePreviewWord(WordMotion::NextStart, count))
        } else if is('b') || is('B') {
            Some(Message::MovePreviewWord(WordMotion::PreviousStart, count))
        } else if is('G') {
            Some(Message::MovePreviewJump(Jump::Last, jump))
        } else if (is('v') || is('V')) && !repeat {
            Some(Message::ToggleVisualMode)
        } else if (is('c') || is('C')) && !repeat {
            Some(Message::OpenNotePopup)
        } else if is('y') && !repeat && self.visual() {
            Some(Message::Yank)
        } else if is('/') && !repeat {
            Some(Message::OpenFind)
        } else if keys.enter && !repeat {
            Some(Message::EditActiveComment)
        } else if keys.escape && !repeat {
            Some(Message::PreviewCancel)
        } else {
            None
        }
    }

    fn ctrl_keys_exec(&self, press: &KeyPress, keys: &KeyFacts) -> (message: Option<Message>)
        requires
            keys.describes(press.key),
        ensures
            message == self.model().ctrl_keys(*press),
    {
        let c = keys.single;
        let is = |x: char| -> (same: bool)
            ensures
                same == (c == Some(x)),
            { c == Some(x) };
        let previewing = self.preview();
        if is('o') || is('O') {
            Some(Message::OpenFile)
        } else if (is('p') || is('P')) && !self.preview_only {
            Some(Message::TogglePreview)
        } else if is('b') || is('B') {
            Some(Message::ToggleSidebar)
        } else if is('s') || is('S') {
            Some(Message::SaveFile)
        } else if is('f') || is('F') {
            Some(Message::OpenFind)
        } else if (is('g') || is('G')) && self.find_open {
            Some(Message::FindNext)
        } else if (is('n') || is('N')) && previewing {
            Some(Message::NextComment)
        } else if (is('d') || is('D')) && previewing {
            Some(Message::ScrollPreviewPage(Page::HalfDown, self.count()))
        } else if (is('u') || is('U')) && previewing {
            Some(Message::ScrollPreviewPage(Page::HalfUp, self.count()))
        } else if keys.enter {
            Some(
                if press.modifiers.shift {
                    Message::PublishPressed
                } else {
                    Message::AddGlobalComment
                },
            )
        } else {
            None
        }
    }

    /// Keeps the mode stack in sync with a dispatched message, so
    /// transitions triggered without keys (button and backdrop clicks)
    /// land exactly like the key-driven ones. Any message but arming a
    /// prefix or typing a digit ends the pending sequence; Help is
    /// transparent to it.
    pub fn note(&mut self, message: &Message)
        ensures
            final(self).model() == old(self).model().noted(*message),
    {
        let keeps = match message {
            Message::PreviewGPressed | Message::PreviewZPressed | Message::PreviewCountPressed(_)
            | Message::OpenHelp | Message::CloseHelp | Message::HelpCardPressed => true,
            _ => false,
        };
        if keeps {
            match message {
                Message::PreviewGPressed => {
                    self.pending_g = true;
                    self.pending_z = false;
                },
                Message::PreviewZPressed => {
                    self.pending_z = true;
                    self.pending_g = false;
                },
                Message::PreviewCountPressed(digit) => {
                    self.pending_g = false;
                    self.pending_z = false;
                    let digits = match self.pending_count {
                        Some(n) => n,
                        None => 0,
                    };
                    let times = match digits.checked_mul(10) {
                        Some(times) => times,
                        None => u32::MAX,
                    };
                    let grown = match times.checked_add(*digit) {
                        Some(grown) => grown,
                        None => u32::MAX,
                    };
                    self.pending_count = Some(
                        if grown <= MAX_COUNT {
                            grown
                        } else {
                            MAX_COUNT
                        },
                    );
                },
                _ => {},
            }
        } else {
            self.pending_g = false;
            self.pending_z = false;
            self.pending_count = None;
        }
        match message {
            Message::FileLoaded(true) => {
                self.note_open = false;
                self.find_open = false;
                if self.visual() {
                    self.layer = Layer::View;
                }
            },
            Message::TogglePreview => {
                if !self.preview_only {
                    self.note_open = false;
                    self.layer = if self.preview() {
                        Layer::Write
                    } else {
                        Layer::View
                    };
                }
            },
            Message::ToggleVisualMode => {
                if self.preview() {
                    self.layer = if self.visual() {
                        Layer::View
                    } else {
                        Layer::Visual
                    };
                }
            },
            Message::OpenNotePopup => self.note_open = true,
            Message::CloseNotePopup | Message::SaveNote => self.note_open = false,
            Message::OpenFind => self.find_open = true,
            Message::CloseFind => self.find_open = false,
            Message::OpenHelp => self.help_open = true,
            Message::CloseHelp => self.help_open = false,
            Message::UnsavedChanges => self.unsaved_open = true,
            Message::UnsavedCancel | Message::UnsavedSave | Message::UnsavedDiscard => {
                self.unsaved_open = false
            },
            Message::PreviewCancel | Message::Yank => {
                if self.visual() {
                    self.layer = Layer::View;
                }
            },
            _ => {},
        }
    }
}

/// What key handling reads of a key, computed once.
struct KeyFacts {
    /// The named key, if it is one.
    named: Option<NamedKey>,
    escape: bool,
    enter: bool,
    /// Whether it is a character key.
    character: bool,
    /// The character, when the key produces exactly one.
    single: Option<char>,
    /// Whether every character it produces is an ASCII digit.
    digits: bool,
    /// Whether it produces exactly `0`.
    zero: bool,
    /// The number its characters parse to, zero when they do not parse.
    number: u32,
}

impl KeyFacts {
    /// Whether the facts describe `key`.
    spec fn describes(self, key: Key) -> bool {
        &&& self.named == match key {
            Key::Named(named) => Some(named),
            _ => None,
        }
        &&& self.escape == is_named(key, NamedKey::Escape)
        &&& self.enter == is_named(key, NamedKey::Enter)
        &&& self.character == key is Character
        &&& (forall|c: char| #[trigger] is_char(key, c) <==> self.single == Some(c))
        &&& key matches Key::Character(text) ==> (self.digits == all_digits(text@) && self.zero == (
        text@ == seq!['0']) && (self.digits ==> self.number == parsed_count(text@)))
    }

    /// The facts of `key`.
    fn of(key: &Key) -> (facts: KeyFacts)
        ensures
            facts.describes(*key),
    {
        match key {
            Key::Named(named) => KeyFacts {
                named: Some(*named),
                escape: match named {
                    NamedKey::Escape => true,
                    _ => false,
                },
                enter: match named {
                    NamedKey::Enter => true,
                    _ => false,
                },
                character: false,
                single: None,
                digits: false,
                zero: false,
                number: 0,
            },
            Key::Character(text) => {
                let chars = chars_of(text.as_str());
                let single = if chars.len() == 1 {
                    Some(chars[0])
                } else {
                    None
                };
                proof {
                    if chars@.len() == 1 {
                        assert(chars@ =~= seq![chars@[0]]);
                    }
                }
                let (digits, number) = parse_count(&chars);
                KeyFacts {
                    named: None,
                    escape: false,
                    enter: false,
                    character: true,
                    single,
                    digits,
                    zero: single == Some('0'),
                    number,
                }
            },
            Key::Unidentified => KeyFacts {
                named: None,
                escape: false,
                enter: false,
                character: false,
                single: None,
                digits: false,
                zero: false,
                number: 0,
            },
        }
    }
}

/// Whether `chars` are all ASCII digits, and the number they parse to as
/// a `u32` (zero when empty or too large).
fn parse_count(chars: &Vec<char>) -> (parsed: (bool, u32))
    ensures
        parsed.0 == all_digits(chars@),
        parsed.0 ==> parsed.1 == parsed_count(chars@),
{
    let mut value: Option<u32> = Some(0);
    let mut i: usize = 0;
    while i < chars.len()
        invariant
            i <= chars@.len(),
            all_digits(chars@.take(i as int)),
            value == if digits_value(chars@.take(i as int)) <= u32::MAX {
                Some(digits_value(chars@.take(i as int)) as u32)
            } else {
                None::<u32>
            },
        decreases chars@.len() - i,
    {
        if !ascii_digit(chars[i]) {
            assert(!is_ascii_digit(chars@[i as int]));
            return (false, 0);
        }
        let ghost before = chars@.take(i as int);
        let ghost after = chars@.take(i + 1);
        assert(after.drop_last() =~= before);
        assert(after.last() == chars@[i as int]);
        let digit = (chars[i] as u32) - ('0' as u32);
        assert(digits_value(after) == digits_value(before) * 10 + digit);
        value = match value {
            Some(v) => match v.checked_mul(10) {
                Some(w) => w.checked_add(digit),
                None => None,
            },
            None => None,
        };
        i += 1;
    }
    assert(chars@.take(chars@.len() as int) =~= chars@);
    let number = match value {
        Some(v) => if chars.len() > 0 {
            v
        } else {
            0
        },
        None => 0,
    };
    (true, number)
}

// ---------------------------------------------------------------------------
// Laws.
// ---------------------------------------------------------------------------

// ---------------------------------------------------------------------------
// The root keyboard guard.
// ---------------------------------------------------------------------------

/// What the root keyboard guard does with an event before any focused
/// widget sees it.
#[derive(Debug, Clone, Copy, PartialEq, Eq)]
pub enum KeyboardGuardAction {
    /// Let the focused widget have it.
    Pass,
    /// Stop it.
    Capture,
    OpenHelp,
    CloseHelp,
    CloseFind,
    CloseNote,
    CancelUnsaved,
}

/// Whether a key press is Escape.
pub open spec fn is_escape(press: KeyPress) -> bool {
    press.key matches Key::Named(NamedKey::Escape)
}

/// The guard's decision, given the popups open (note, find, help, unsaved)
/// and Help's own verdict on the event. Help has first refusal; while it
/// is open everything it lets through goes to its search field. The
/// unsaved dialog stops every key press and input-method event, and a
/// fresh Escape cancels it. Otherwise a fresh, unmodified Escape closes
/// find, or else the note popup.
pub open spec fn guard_action_spec(
    flags: (bool, bool, bool, bool, bool),
    event: InputEvent,
    help: HelpAction,
) -> KeyboardGuardAction {
    let (note_open, find_open, help_open, unsaved_open, _) = flags;
    match help {
        HelpAction::Open => KeyboardGuardAction::OpenHelp,
        HelpAction::Close => KeyboardGuardAction::CloseHelp,
        HelpAction::Capture => KeyboardGuardAction::Capture,
        HelpAction::Pass => if help_open {
            KeyboardGuardAction::Pass
        } else {
            match event {
                InputEvent::InputMethod => if unsaved_open {
                    KeyboardGuardAction::Capture
                } else {
                    KeyboardGuardAction::Pass
                },
                InputEvent::KeyPressed(press) => if unsaved_open {
                    if !press.repeat && is_escape(press) {
                        KeyboardGuardAction::CancelUnsaved
                    } else {
                        KeyboardGuardAction::Capture
                    }
                } else if !press.repeat && !press.modifiers.control && !press.modifiers.alt
                    && !press.modifiers.logo && is_escape(press) {
                    if find_open {
                        KeyboardGuardAction::CloseFind
                    } else if note_open {
                        KeyboardGuardAction::CloseNote
                    } else {
                        KeyboardGuardAction::Pass
                    }
                } else {
                    KeyboardGuardAction::Pass
                },
                InputEvent::Other => KeyboardGuardAction::Pass,
            }
        },
    }
}

/// The root keyboard guard: intercepts Help's chord and the modal popups'
/// keys before focused widgets can consume them. `help` is Help's verdict
/// on the event.
pub fn keyboard_guard_action(keymap: &Keymap, event: &InputEvent, help: HelpAction) -> (action:
    KeyboardGuardAction)
    ensures
        action == guard_action_spec(keymap.flags(), *event, help),
{
    match help {
        HelpAction::Open => return KeyboardGuardAction::OpenHelp,
        HelpAction::Close => return KeyboardGuardAction::CloseHelp,
        HelpAction::Capture => return KeyboardGuardAction::Capture,
        HelpAction::Pass => {},
    }
    if keymap.help_open() {
        return KeyboardGuardAction::Pass;
    }
    if keymap.unsaved_open() && matches!(event, InputEvent::InputMethod) {
        return KeyboardGuardAction::Capture;
    }
    let press = match event {
        InputEvent::KeyPressed(press) => press,
        _ => return KeyboardGuardAction::Pass,
    };
    let escape = matches!(press.key, Key::Named(NamedKey::Escape));
    if keymap.unsaved_open() {
        return if !press.repeat && escape {
            KeyboardGuardAction::CancelUnsaved
        } else {
            KeyboardGuardAction::Capture
        };
    }
    if !press.repeat && !press.modifiers.control && !press.modifiers.alt && !press.modifiers.logo
        && escape {
        if keymap.find_open() {
            return KeyboardGuardAction::CloseFind;
        }
        if keymap.note_open() {
            return KeyboardGuardAction::CloseNote;
        }
    }
    KeyboardGuardAction::Pass
}

/// The root keyboard guard with Help's own verdict for the keymap's Help
/// state.
pub fn keyboard_guard(keymap: &Keymap, event: &InputEvent) -> (action: KeyboardGuardAction)
    ensures
        action == guard_action_spec(keymap.flags(), *event, help_event_spec(keymap.flags().2, *event)),
{
    let help = help_event_action(keymap.help_open(), event);
    keyboard_guard_action(keymap, event, help)
}

/// Help is transparent: opening it leaves the mode and the pending
/// sequence as they were and only raises Help; closing it again restores
/// the keymap — mode, popups, and pending sequence — exactly.
pub proof fn law_help_is_transparent(keymap: KeymapModel)
    requires
        !keymap.help_open,
    ensures
        keymap.noted(Message::OpenHelp) == (KeymapModel { help_open: true, ..keymap }),
        keymap.noted(Message::OpenHelp).mode_spec() == keymap.mode_spec(),
        keymap.noted(Message::OpenHelp).noted(Message::CloseHelp) == keymap,
{
}

/// While Help is open it swallows every key but Escape, which closes it.
pub proof fn law_help_swallows_keys(keymap: KeymapModel, event: InputEvent)
    requires
        keymap.help_open,
    ensures
        keymap.handle_spec(event) is None || keymap.handle_spec(event) == Some(Message::CloseHelp),
{
}

/// The note popup is a layer over the mode: opening it shows the note
/// mode, and closing it brings back the mode it covered.
pub proof fn law_note_popup_round_trip(keymap: KeymapModel)
    requires
        !keymap.note_open,
    ensures
        keymap.noted(Message::OpenNotePopup).mode_spec() == Mode::Note,
        keymap.noted(Message::OpenNotePopup).noted(Message::CloseNotePopup).mode_spec()
            == keymap.mode_spec(),
{
}

/// The `g` and `z` prefixes never wait together: whatever is dispatched,
/// at most one stays armed.
pub proof fn law_prefixes_are_exclusive(keymap: KeymapModel, message: Message)
    requires
        !(keymap.pending_g && keymap.pending_z),
    ensures
        !(keymap.noted(message).pending_g && keymap.noted(message).pending_z),
{
}

/// A pending count never exceeds [`MAX_COUNT`], whatever digits arrive.
pub proof fn law_count_is_capped(keymap: KeymapModel, message: Message)
    requires
        keymap.pending_count matches Some(n) ==> n <= MAX_COUNT,
    ensures
        keymap.noted(message).pending_count matches Some(n) ==> n <= MAX_COUNT,
{
}

/// A preview-only session never leaves the preview, whatever is
/// dispatched.
pub proof fn law_preview_only_stays_in_preview(keymap: KeymapModel, message: Message)
    requires
        keymap.preview_only,
        keymap.layer != Layer::Write,
    ensures
        keymap.noted(message).layer != Layer::Write,
        keymap.noted(message).preview_only,
{
}

/// In the preview, with no popup open and no Ctrl, Alt or logo key
/// held, the arrow keys are the vim letters: ArrowUp means what `k`
/// means, ArrowDown `j`, ArrowLeft `h` and ArrowRight `l`, each moving the
/// caret its own way by the pending count (capped), or once without one.
pub proof fn law_keymap_arrows_are_vim_letters(
    keymap: KeymapModel,
    modifiers: Modifiers,
    repeat: bool,
    k: String,
    j: String,
    h: String,
    l: String,
)
    requires
        keymap.layer != Layer::Write,
        !keymap.help_open && !keymap.unsaved_open && !keymap.note_open && !keymap.find_open,
        !modifiers.control && !modifiers.alt && !modifiers.logo,
        k@ == seq!['k'],
        j@ == seq!['j'],
        h@ == seq!['h'],
        l@ == seq!['l'],
    ensures
        ({
            let count = match keymap.pending_count {
                Some(n) => if n <= MAX_COUNT {
                    n as usize
                } else {
                    MAX_COUNT as usize
                },
                None => 1usize,
            };
            let press = |key: Key| InputEvent::KeyPressed(KeyPress { key, modifiers, repeat });
            &&& keymap.handle_spec(press(Key::Named(NamedKey::ArrowUp))) == keymap.handle_spec(
                press(Key::Character(k)),
            )
            &&& keymap.handle_spec(press(Key::Named(NamedKey::ArrowDown))) == keymap.handle_spec(
                press(Key::Character(j)),
            )
            &&& keymap.handle_spec(press(Key::Named(NamedKey::ArrowLeft))) == keymap.handle_spec(
                press(Key::Character(h)),
            )
            &&& keymap.handle_spec(press(Key::Named(NamedKey::ArrowRight))) == keymap.handle_spec(
                press(Key::Character(l)),
            )
            &&& keymap.handle_spec(press(Key::Named(NamedKey::ArrowUp))) == Some(
                Message::MovePreviewCursor(Motion::Up, count),
            )
            &&& keymap.handle_spec(press(Key::Named(NamedKey::ArrowDown))) == Some(
                Message::MovePreviewCursor(Motion::Down, count),
            )
            &&& keymap.handle_spec(press(Key::Named(NamedKey::ArrowLeft))) == Some(
                Message::MovePreviewCursor(Motion::Left, count),
            )
            &&& keymap.handle_spec(press(Key::Named(NamedKey::ArrowRight))) == Some(
                Message::MovePreviewCursor(Motion::Right, count),
            )
        }),
{
    assert(!all_digits(k@) && !all_digits(j@) && !all_digits(h@) && !all_digits(l@)) by {
        assert(!is_ascii_digit(k@[0]));
        assert(!is_ascii_digit(j@[0]));
        assert(!is_ascii_digit(h@[0]));
        assert(!is_ascii_digit(l@[0]));
    }
}

} // verus!
