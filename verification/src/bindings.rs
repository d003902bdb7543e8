//! Keyboard binding resolution: which input message a key press means in
//! the current interaction state.
//!
//! Resolution only reads an interaction snapshot and an event; it changes
//! nothing. Callers apply the returned decision at the application
//! boundary. Events are described here by what the bindings read of them:
//! the key, the modifiers held, and whether the press is an auto-repeat.
use crate::command::{
    Command, CommentsCommand, DocumentCommand, FindCommand, HelpCommand, PreviewCommand,
};
use crate::interaction::{
    EditableWorkspace, HelpResume, InteractionState, PreviewState, RootState, Workspace, WriteState,
};
use crate::pending::{Pending, Prefix, MAX_COUNT};
use crate::preview::{Jump, Motion, Page, Placement, WordMotion};
use crate::text::chars_of;
use vstd::prelude::*;

verus! {

/// The named keys the bindings tell apart; every other named key is
/// `Other`.
#[derive(Debug, Clone, Copy, PartialEq, Eq, Structural)]
pub enum NamedKey {
    Escape,
    Enter,
    Tab,
    ArrowUp,
    ArrowDown,
    ArrowLeft,
    ArrowRight,
    PageUp,
    PageDown,
    Other,
}

/// A key as the keyboard reports it, after modifiers apply.
#[derive(Debug, Clone, PartialEq, Eq)]
pub enum Key {
    Named(NamedKey),
    Character(String),
    Unidentified,
}

/// The modifier keys held during a press.
#[derive(Debug, Clone, Copy, PartialEq, Eq, Default)]
pub struct Modifiers {
    pub control: bool,
    pub alt: bool,
    pub logo: bool,
    pub shift: bool,
}

/// A key press.
#[derive(Debug, Clone, PartialEq, Eq)]
pub struct KeyPress {
    pub key: Key,
    pub modifiers: Modifiers,
    /// Whether the press is the keyboard's auto-repeat of a held key.
    pub repeat: bool,
}

/// An event reaching the root of the interface.
#[derive(Debug, Clone, PartialEq, Eq)]
pub enum InputEvent {
    KeyPressed(KeyPress),
    /// An input-method (composition) event.
    InputMethod,
    /// Any other event: key releases, mouse, window.
    Other,
}

/// The Help window's own verdict on an event: let it through, stop it,
/// or open or close the window.
#[derive(Debug, Clone, Copy, PartialEq, Eq)]
pub enum HelpAction {
    Pass,
    Capture,
    Open,
    Close,
}

/// The root event policy for one event.
#[derive(Debug, Clone, Copy, PartialEq, Eq)]
pub enum Decision {
    /// Let the focused child widget handle the event.
    Pass,
    /// Stop the event without publishing a message.
    Capture,
    /// Publish an input message and stop the event.
    Dispatch(InputMessage),
}

/// An input consequence, separating semantic intent from parser changes.
#[derive(Debug, Clone, Copy, PartialEq, Eq)]
pub enum InputMessage {
    Execute(Command),
    ArmPrefix(Prefix),
    PushCountDigit(u8),
}

/// Where application-wide shortcuts are resolved from.
#[derive(Debug, Clone, Copy, PartialEq, Eq)]
pub enum GlobalContext {
    EditableWrite,
    EditableWriteFind,
    EditablePreview(Pending),
    EditablePreviewFind,
    PreviewOnly(Pending),
    PreviewOnlyFind,
}

/// What the bindings read of a key: a named key, a single character, or
/// anything else.
#[derive(Debug, Clone, Copy, PartialEq, Eq)]
pub enum KeyShape {
    Named(NamedKey),
    Char(char),
    Other,
}

/// The shape of a key: a character key counts as a character only when it
/// produces exactly one.
pub open spec fn shape_of(key: Key) -> KeyShape {
    match key {
        Key::Named(named) => KeyShape::Named(named),
        Key::Character(text) => if text@.len() == 1 {
            KeyShape::Char(text@[0])
        } else {
            KeyShape::Other
        },
        Key::Unidentified => KeyShape::Other,
    }
}

/// The shape of a key.
pub fn shape(key: &Key) -> (shape: KeyShape)
    ensures
        shape == shape_of(*key),
{
    match key {
        Key::Named(named) => KeyShape::Named(*named),
        Key::Character(text) => {
            let chars = chars_of(text.as_str());
            if chars.len() == 1 {
                KeyShape::Char(chars[0])
            } else {
                KeyShape::Other
            }
        },
        Key::Unidentified => KeyShape::Other,
    }
}

/// Dispatching a command.
pub open spec fn execute_spec(command: Command) -> Decision {
    Decision::Dispatch(InputMessage::Execute(command))
}

/// A one-shot command: a held key repeats nothing.
pub open spec fn one_shot_spec(repeat: bool, command: Command) -> Decision {
    if repeat {
        Decision::Capture
    } else {
        execute_spec(command)
    }
}

/// The primary decision, or the secondary one when the primary passes.
pub open spec fn fallback_spec(primary: Decision, secondary: Decision) -> Decision {
    match primary {
        Decision::Pass => secondary,
        _ => primary,
    }
}

/// Takes the primary decision unless it passes; then the secondary.
pub fn fallback(primary: Decision, secondary: Decision) -> (decision: Decision)
    ensures
        decision == fallback_spec(primary, secondary),
{
    match primary {
        Decision::Pass => secondary,
        _ => primary,
    }
}

/// Dispatches a command.
pub fn execute(command: Command) -> (decision: Decision)
    ensures
        decision == execute_spec(command),
{
    Decision::Dispatch(InputMessage::Execute(command))
}

/// Dispatches a one-shot command; a held key's repeats are captured.
pub fn one_shot(repeat: bool, command: Command) -> (decision: Decision)
    ensures
        decision == one_shot_spec(repeat, command),
{
    if repeat {
        Decision::Capture
    } else {
        execute(command)
    }
}

/// Help's verdict as a root decision.
pub open spec fn help_decision_spec(help: HelpAction) -> Decision {
    match help {
        HelpAction::Pass => Decision::Pass,
        HelpAction::Capture => Decision::Capture,
        HelpAction::Open => execute_spec(Command::Help(HelpCommand::Open)),
        HelpAction::Close => execute_spec(Command::Help(HelpCommand::Close)),
    }
}

/// Whether a key press is Help's chord: Control with `?` or `/` (Shift
/// may be held, as typing `?` needs it), without Alt or the logo key.
pub open spec fn help_chord(press: KeyPress) -> bool {
    &&& press.modifiers.control
    &&& !press.modifiers.alt
    &&& !press.modifiers.logo
    &&& (shape_of(press.key) == KeyShape::Char('?') || shape_of(press.key) == KeyShape::Char('/'))
}

/// Help's own verdict on an event, given whether its window is open: the
/// chord opens a closed window and closes an open one; while it is open,
/// Escape closes it, Tab stays with it so focus cannot wander beneath,
/// and everything else — typing, input methods — reaches its search
/// field. A held chord or Escape repeats nothing.
pub open spec fn help_event_spec(open: bool, event: InputEvent) -> HelpAction {
    match event {
        InputEvent::KeyPressed(press) => if help_chord(press) {
            if press.repeat {
                HelpAction::Capture
            } else if open {
                HelpAction::Close
            } else {
                HelpAction::Open
            }
        } else if !open {
            HelpAction::Pass
        } else if shape_of(press.key) == KeyShape::Named(NamedKey::Escape) {
            if press.repeat {
                HelpAction::Capture
            } else {
                HelpAction::Close
            }
        } else if shape_of(press.key) == KeyShape::Named(NamedKey::Tab) {
            HelpAction::Capture
        } else {
            HelpAction::Pass
        },
        _ => HelpAction::Pass,
    }
}

/// Help's verdict on an event, given whether its window is open.
pub fn help_event_action(open: bool, event: &InputEvent) -> (action: HelpAction)
    ensures
        action == help_event_spec(open, *event),
{
    let press = match event {
        InputEvent::KeyPressed(press) => press,
        _ => {
            return HelpAction::Pass;
        },
    };
    let key = shape(&press.key);
    let m = press.modifiers;
    let chord = m.control && !m.alt && !m.logo && match key {
        KeyShape::Char(c) => c == '?' || c == '/',
        _ => false,
    };
    if chord {
        return if press.repeat {
            HelpAction::Capture
        } else if open {
            HelpAction::Close
        } else {
            HelpAction::Open
        };
    }
    if !open {
        return HelpAction::Pass;
    }
    match key {
        KeyShape::Named(NamedKey::Escape) => if press.repeat {
            HelpAction::Capture
        } else {
            HelpAction::Close
        },
        KeyShape::Named(NamedKey::Tab) => HelpAction::Capture,
        _ => HelpAction::Pass,
    }
}

/// Help's verdict as a root decision.
pub fn help_decision(help: HelpAction) -> (decision: Decision)
    ensures
        decision == help_decision_spec(help),
{
    match help {
        HelpAction::Pass => Decision::Pass,
        HelpAction::Capture => Decision::Capture,
        HelpAction::Open => execute(Command::Help(HelpCommand::Open)),
        HelpAction::Close => execute(Command::Help(HelpCommand::Close)),
    }
}

// ---------------------------------------------------------------------------
// The unsaved prompt, the note composer, and the find field.
// ---------------------------------------------------------------------------

/// The unsaved prompt owns every key press and input method: Escape
/// cancels it, and everything else is captured.
pub open spec fn unsaved_spec(event: InputEvent, help: HelpAction) -> Decision {
    if help != HelpAction::Pass {
        help_decision_spec(help)
    } else {
        match event {
            InputEvent::InputMethod => Decision::Capture,
            InputEvent::KeyPressed(press) => if shape_of(press.key) == KeyShape::Named(
                NamedKey::Escape,
            ) {
                one_shot_spec(press.repeat, Command::Document(DocumentCommand::CancelUnsaved))
            } else {
                Decision::Capture
            },
            InputEvent::Other => Decision::Pass,
        }
    }
}

/// Routes the unsaved prompt, after Help's verdict on the event.
pub fn route_unsaved(event: &InputEvent, help: HelpAction) -> (decision: Decision)
    ensures
        decision == unsaved_spec(*event, help),
{
    match help {
        HelpAction::Pass => {},
        _ => {
            return help_decision(help);
        },
    }
    match event {
        InputEvent::InputMethod => Decision::Capture,
        InputEvent::KeyPressed(press) => match shape(&press.key) {
            KeyShape::Named(NamedKey::Escape) => one_shot(
                press.repeat,
                Command::Document(DocumentCommand::CancelUnsaved),
            ),
            _ => Decision::Capture,
        },
        InputEvent::Other => Decision::Pass,
    }
}

/// The note composer's shortcuts: Escape closes it and Ctrl+S saves the
/// note; everything else reaches the text field.
pub open spec fn note_spec(event: InputEvent) -> Decision {
    match event {
        InputEvent::KeyPressed(press) => if press.modifiers.alt || press.modifiers.logo {
            Decision::Pass
        } else {
            match shape_of(press.key) {
                KeyShape::Named(NamedKey::Escape) => one_shot_spec(
                    press.repeat,
                    Command::Comments(CommentsCommand::CloseNote),
                ),
                KeyShape::Char(c) => if (c == 's' || c == 'S') && press.modifiers.control {
                    one_shot_spec(press.repeat, Command::Comments(CommentsCommand::SaveNote))
                } else {
                    Decision::Pass
                },
                _ => Decision::Pass,
            }
        },
        _ => Decision::Pass,
    }
}

/// Routes the shortcuts owned by the note composer and passes text
/// editing on.
pub fn route_note(event: &InputEvent) -> (decision: Decision)
    ensures
        decision == note_spec(*event),
{
    let press = match event {
        InputEvent::KeyPressed(press) => press,
        _ => {
            return Decision::Pass;
        },
    };
    if press.modifiers.alt || press.modifiers.logo {
        return Decision::Pass;
    }
    match shape(&press.key) {
        KeyShape::Named(NamedKey::Escape) => one_shot(
            press.repeat,
            Command::Comments(CommentsCommand::CloseNote),
        ),
        KeyShape::Char(c) => if (c == 's' || c == 'S') && press.modifiers.control {
            one_shot(press.repeat, Command::Comments(CommentsCommand::SaveNote))
        } else {
            Decision::Pass
        },
        _ => Decision::Pass,
    }
}

/// The find field's navigation: Escape closes find, Enter steps to the
/// next match and Shift+Enter to the previous one (held Enter keeps
/// stepping); everything else edits the query.
pub open spec fn find_spec(event: InputEvent) -> Decision {
    match event {
        InputEvent::KeyPressed(press) => if press.modifiers.control || press.modifiers.alt
            || press.modifiers.logo {
            Decision::Pass
        } else {
            match shape_of(press.key) {
                KeyShape::Named(NamedKey::Escape) => one_shot_spec(
                    press.repeat,
                    Command::Find(FindCommand::Close),
                ),
                KeyShape::Named(NamedKey::Enter) => execute_spec(
                    Command::Find(
                        if press.modifiers.shift {
                            FindCommand::Previous
                        } else {
                            FindCommand::Next
                        },
                    ),
                ),
                _ => Decision::Pass,
            }
        },
        _ => Decision::Pass,
    }
}

/// Routes the navigation owned by a focused find field and passes query
/// editing on.
pub fn route_find(event: &InputEvent) -> (decision: Decision)
    ensures
        decision == find_spec(*event),
{
    let press = match event {
        InputEvent::KeyPressed(press) => press,
        _ => {
            return Decision::Pass;
        },
    };
    if press.modifiers.control || press.modifiers.alt || press.modifiers.logo {
        return Decision::Pass;
    }
    match shape(&press.key) {
        KeyShape::Named(NamedKey::Escape) => one_shot(press.repeat, Command::Find(FindCommand::Close)),
        KeyShape::Named(NamedKey::Enter) => execute(
            Command::Find(
                if press.modifiers.shift {
                    FindCommand::Previous
                } else {
                    FindCommand::Next
                },
            ),
        ),
        _ => Decision::Pass,
    }
}

// ---------------------------------------------------------------------------
// The preview canvas.
// ---------------------------------------------------------------------------

/// The digit a character stands for, if it is an ASCII digit.
pub open spec fn digit_of(c: char) -> Option<u8> {
    if '0' <= c <= '9' {
        Some((c as u32 - '0' as u32) as u8)
    } else {
        None
    }
}

/// The digit a character stands for, if it is an ASCII digit.
fn ascii_digit_value(c: char) -> (digit: Option<u8>)
    ensures
        digit == digit_of(c),
{
    if '0' <= c && c <= '9' {
        let value = (c as u32) - ('0' as u32);
        Some(value as u8)
    } else {
        None
    }
}

/// A preview motion repeated by the pending count.
pub open spec fn moved(motion: Motion, pending: Pending) -> Decision {
    execute_spec(Command::Preview(PreviewCommand::Move(motion, motion_count_of(pending))))
}

/// The count a motion repeats: the typed digits, or once.
pub open spec fn motion_count_of(pending: Pending) -> usize {
    if pending.count_of() is Some {
        pending.count_value() as usize
    } else {
        1
    }
}

/// The count a jump carries: the typed digits, or none.
pub open spec fn jump_count_of(pending: Pending) -> usize {
    pending.count_value() as usize
}

/// Whether the pending input waits on `prefix`.
pub open spec fn waits_on(pending: Pending, prefix: Prefix) -> bool {
    pending matches Pending::Prefix { prefix: p, .. } && p == prefix
}

/// Arming a prefix; a held key arms nothing.
pub open spec fn arming(repeat: bool, prefix: Prefix) -> Decision {
    if repeat {
        Decision::Capture
    } else {
        Decision::Dispatch(InputMessage::ArmPrefix(prefix))
    }
}

/// The vim-like keys of the preview canvas, given the pending count and
/// prefix: digits build a count (a lone `0` is the element-start motion),
/// motions repeat by the count and may be held, the `g` and `z` prefixes
/// arm and complete sequences, and one-shot actions ignore held keys.
/// `/` opens find and `y` yanks (the yank acts only in visual mode).
pub open spec fn preview_spec(pending: Pending, event: InputEvent) -> Decision {
    match event {
        InputEvent::KeyPressed(press) => {
            let repeat = press.repeat;
            let count = motion_count_of(pending);
            if press.modifiers.control || press.modifiers.alt || press.modifiers.logo {
                Decision::Pass
            } else {
                match shape_of(press.key) {
                    KeyShape::Char(c) => match digit_of(c) {
                        Some(digit) => if repeat {
                            Decision::Capture
                        } else if digit == 0 && pending == Pending::Idle {
                            execute_spec(Command::Preview(PreviewCommand::Move(Motion::Start, 1)))
                        } else {
                            Decision::Dispatch(InputMessage::PushCountDigit(digit))
                        },
                        None => preview_char_spec(pending, c, repeat),
                    },
                    KeyShape::Named(named) => match named {
                        NamedKey::ArrowUp => moved(Motion::Up, pending),
                        NamedKey::ArrowDown => moved(Motion::Down, pending),
                        NamedKey::ArrowLeft => moved(Motion::Left, pending),
                        NamedKey::ArrowRight => moved(Motion::Right, pending),
                        NamedKey::PageUp => execute_spec(
                            Command::Preview(PreviewCommand::ScrollPage(Page::FullUp, count)),
                        ),
                        NamedKey::PageDown => execute_spec(
                            Command::Preview(PreviewCommand::ScrollPage(Page::FullDown, count)),
                        ),
                        NamedKey::Enter => one_shot_spec(
                            repeat,
                            Command::Comments(CommentsCommand::EditActive),
                        ),
                        NamedKey::Escape => one_shot_spec(repeat, Command::Preview(PreviewCommand::Cancel)),
                        _ => Decision::Pass,
                    },
                    KeyShape::Other => Decision::Pass,
                }
            }
        },
        _ => Decision::Pass,
    }
}

/// The preview canvas's character keys other than digits.
pub open spec fn preview_char_spec(pending: Pending, c: char, repeat: bool) -> Decision {
    let count = motion_count_of(pending);
    let jump = jump_count_of(pending);
    if c == 'k' || c == 'K' {
        moved(Motion::Up, pending)
    } else if c == 'j' || c == 'J' {
        moved(Motion::Down, pending)
    } else if c == 'h' || c == 'H' {
        moved(Motion::Left, pending)
    } else if c == 'l' || c == 'L' {
        moved(Motion::Right, pending)
    } else if c == 'z' && waits_on(pending, Prefix::Z) {
        one_shot_spec(repeat, Command::Preview(PreviewCommand::ScrollCaret(Placement::Center)))
    } else if c == 't' && waits_on(pending, Prefix::Z) {
        one_shot_spec(repeat, Command::Preview(PreviewCommand::ScrollCaret(Placement::Top)))
    } else if c == 'b' && waits_on(pending, Prefix::Z) {
        one_shot_spec(repeat, Command::Preview(PreviewCommand::ScrollCaret(Placement::Bottom)))
    } else if c == 'z' {
        arming(repeat, Prefix::Z)
    } else if c == 'g' && waits_on(pending, Prefix::G) {
        one_shot_spec(repeat, Command::Preview(PreviewCommand::Jump(Jump::First, jump)))
    } else if c == 'g' {
        arming(repeat, Prefix::G)
    } else if (c == 'e' || c == 'E') && waits_on(pending, Prefix::G) {
        one_shot_spec(repeat, Command::Preview(PreviewCommand::MoveWord(WordMotion::PreviousEnd, count)))
    } else if c == 'e' || c == 'E' {
        execute_spec(Command::Preview(PreviewCommand::MoveWord(WordMotion::NextEnd, count)))
    } else if c == 'w' || c == 'W' {
        execute_spec(Command::Preview(PreviewCommand::MoveWord(WordMotion::NextStart, count)))
    } else if c == 'b' || c == 'B' {
        execute_spec(Command::Preview(PreviewCommand::MoveWord(WordMotion::PreviousStart, count)))
    } else if c == 'G' {
        execute_spec(Command::Preview(PreviewCommand::Jump(Jump::Last, jump)))
    } else if c == 'v' || c == 'V' {
        one_shot_spec(repeat, Command::Preview(PreviewCommand::ToggleVisual))
    } else if c == 'c' || c == 'C' {
        one_shot_spec(repeat, Command::Comments(CommentsCommand::OpenNote))
    } else if c == 'y' {
        one_shot_spec(repeat, Command::Preview(PreviewCommand::Yank))
    } else if c == '/' {
        one_shot_spec(repeat, Command::Find(FindCommand::Open))
    } else {
        Decision::Pass
    }
}

/// Routes the vim-like preview motions and the sequence parser's input.
pub fn route_preview(pending: Pending, event: &InputEvent) -> (decision: Decision)
    ensures
        decision == preview_spec(pending, *event),
{
    let press = match event {
        InputEvent::KeyPressed(press) => press,
        _ => {
            return Decision::Pass;
        },
    };
    if press.modifiers.control || press.modifiers.alt || press.modifiers.logo {
        return Decision::Pass;
    }
    let repeat = press.repeat;
    let count = pending.motion_count();
    let jump = pending.jump_count();
    let key = shape(&press.key);
    match key {
        KeyShape::Char(c) => {
            if let Some(digit) = ascii_digit_value(c) {
                if repeat {
                    return Decision::Capture;
                }
                let idle = match pending {
                    Pending::Idle => true,
                    _ => false,
                };
                return if digit == 0 && idle {
                    execute(Command::Preview(PreviewCommand::Move(Motion::Start, 1)))
                } else {
                    Decision::Dispatch(InputMessage::PushCountDigit(digit))
                };
            }
            let on_z = pending.has_prefix(Prefix::Z);
            let on_g = pending.has_prefix(Prefix::G);
            if c == 'k' || c == 'K' {
                execute(Command::Preview(PreviewCommand::Move(Motion::Up, count)))
            } else if c == 'j' || c == 'J' {
                execute(Command::Preview(PreviewCommand::Move(Motion::Down, count)))
            } else if c == 'h' || c == 'H' {
                execute(Command::Preview(PreviewCommand::Move(Motion::Left, count)))
            } else if c == 'l' || c == 'L' {
                execute(Command::Preview(PreviewCommand::Move(Motion::Right, count)))
            } else if c == 'z' && on_z {
                one_shot(repeat, Command::Preview(PreviewCommand::ScrollCaret(Placement::Center)))
            } else if c == 't' && on_z {
                one_shot(repeat, Command::Preview(PreviewCommand::ScrollCaret(Placement::Top)))
            } else if c == 'b' && on_z {
                one_shot(repeat, Command::Preview(PreviewCommand::ScrollCaret(Placement::Bottom)))
            } else if c == 'z' {
                if repeat {
                    Decision::Capture
                } else {
                    Decision::Dispatch(InputMessage::ArmPrefix(Prefix::Z))
                }
            } else if c == 'g' && on_g {
                one_shot(repeat, Command::Preview(PreviewCommand::Jump(Jump::First, jump)))
            } else if c == 'g' {
                if repeat {
                    Decision::Capture
                } else {
                    Decision::Dispatch(InputMessage::ArmPrefix(Prefix::G))
                }
            } else if (c == 'e' || c == 'E') && on_g {
                one_shot(
                    repeat,
                    Command::Preview(PreviewCommand::MoveWord(WordMotion::PreviousEnd, count)),
                )
            } else if c == 'e' || c == 'E' {
                execute(Command::Preview(PreviewCommand::MoveWord(WordMotion::NextEnd, count)))
            } else if c == 'w' || c == 'W' {
                execute(Command::Preview(PreviewCommand::MoveWord(WordMotion::NextStart, count)))
            } else if c == 'b' || c == 'B' {
                execute(Command::Preview(PreviewCommand::MoveWord(WordMotion::PreviousStart, count)))
            } else if c == 'G' {
                execute(Command::Preview(PreviewCommand::Jump(Jump::Last, jump)))
            } else if c == 'v' || c == 'V' {
                one_shot(repeat, Command::Preview(PreviewCommand::ToggleVisual))
            } else if c == 'c' || c == 'C' {
                one_shot(repeat, Command::Comments(CommentsCommand::OpenNote))
            } else if c == 'y' {
                one_shot(repeat, Command::Preview(PreviewCommand::Yank))
            } else if c == '/' {
                one_shot(repeat, Command::Find(FindCommand::Open))
            } else {
                Decision::Pass
            }
        },
        KeyShape::Named(named) => match named {
            NamedKey::ArrowUp => execute(Command::Preview(PreviewCommand::Move(Motion::Up, count))),
            NamedKey::ArrowDown => execute(Command::Preview(PreviewCommand::Move(Motion::Down, count))),
            NamedKey::ArrowLeft => execute(Command::Preview(PreviewCommand::Move(Motion::Left, count))),
            NamedKey::ArrowRight => execute(
                Command::Preview(PreviewCommand::Move(Motion::Right, count)),
            ),
            NamedKey::PageUp => execute(
                Command::Preview(PreviewCommand::ScrollPage(Page::FullUp, count)),
            ),
            NamedKey::PageDown => execute(
                Command::Preview(PreviewCommand::ScrollPage(Page::FullDown, count)),
            ),
            NamedKey::Enter => one_shot(repeat, Command::Comments(CommentsCommand::EditActive)),
            NamedKey::Escape => one_shot(repeat, Command::Preview(PreviewCommand::Cancel)),
            _ => Decision::Pass,
        },
        KeyShape::Other => Decision::Pass,
    }
}

// ---------------------------------------------------------------------------
// Application-wide shortcuts.
// ---------------------------------------------------------------------------

/// Whether the context can toggle between writing and the preview.
pub open spec fn can_toggle(context: GlobalContext) -> bool {
    match context {
        GlobalContext::EditableWrite | GlobalContext::EditableWriteFind
        | GlobalContext::EditablePreview(_) | GlobalContext::EditablePreviewFind => true,
        _ => false,
    }
}

/// Whether find owns the input in the context.
pub open spec fn finding(context: GlobalContext) -> bool {
    match context {
        GlobalContext::EditableWriteFind | GlobalContext::EditablePreviewFind
        | GlobalContext::PreviewOnlyFind => true,
        _ => false,
    }
}

/// Whether the context shows the preview.
pub open spec fn previewing(context: GlobalContext) -> bool {
    match context {
        GlobalContext::EditablePreview(_) | GlobalContext::EditablePreviewFind
        | GlobalContext::PreviewOnly(_) | GlobalContext::PreviewOnlyFind => true,
        _ => false,
    }
}

/// The count the global half-page scrolls repeat by: the canvas's pending
/// count, or once above find.
pub open spec fn global_motion_count_spec(context: GlobalContext) -> usize {
    match context {
        GlobalContext::EditablePreview(pending) | GlobalContext::PreviewOnly(pending) => motion_count_of(pending),
        _ => 1,
    }
}

/// The count the global half-page scrolls repeat by: the canvas's
/// pending count, or once in any other context.
pub fn global_motion_count(context: GlobalContext) -> (count: usize)
    ensures
        count == global_motion_count_spec(context),
{
    match context {
        GlobalContext::EditablePreview(pending) | GlobalContext::PreviewOnly(pending) => {
            pending.motion_count()
        },
        _ => 1,
    }
}

/// The command a Ctrl chord means in the context, if any.
pub open spec fn global_command(context: GlobalContext, key: KeyShape, shift: bool) -> Option<Command> {
    match key {
        KeyShape::Char(c) => if c == 'o' || c == 'O' {
            Some(Command::Document(DocumentCommand::Open))
        } else if (c == 'p' || c == 'P') && can_toggle(context) {
            Some(Command::Preview(PreviewCommand::Toggle))
        } else if c == 'b' || c == 'B' {
            Some(Command::Comments(CommentsCommand::ToggleSidebar))
        } else if c == 's' || c == 'S' {
            Some(Command::Document(DocumentCommand::Save))
        } else if c == 'f' || c == 'F' {
            Some(Command::Find(FindCommand::Open))
        } else if (c == 'g' || c == 'G') && finding(context) {
            Some(Command::Find(FindCommand::Next))
        } else if (c == 'n' || c == 'N') && previewing(context) {
            Some(Command::Comments(CommentsCommand::Next))
        } else if (c == 'd' || c == 'D') && previewing(context) {
            Some(
                Command::Preview(
                    PreviewCommand::ScrollPage(Page::HalfDown, global_motion_count_spec(context)),
                ),
            )
        } else if (c == 'u' || c == 'U') && previewing(context) {
            Some(
                Command::Preview(
                    PreviewCommand::ScrollPage(Page::HalfUp, global_motion_count_spec(context)),
                ),
            )
        } else {
            None
        },
        KeyShape::Named(NamedKey::Enter) => Some(
            Command::Comments(
                if shift {
                    CommentsCommand::Publish
                } else {
                    CommentsCommand::AddGlobal
                },
            ),
        ),
        _ => None,
    }
}

/// Application-wide shortcuts: Ctrl chords without Alt or the logo key,
/// each one-shot.
pub open spec fn global_spec(context: GlobalContext, event: InputEvent) -> Decision {
    match event {
        InputEvent::KeyPressed(press) => if !press.modifiers.control || press.modifiers.alt
            || press.modifiers.logo {
            Decision::Pass
        } else {
            match global_command(context, shape_of(press.key), press.modifiers.shift) {
                Some(command) => one_shot_spec(press.repeat, command),
                None => Decision::Pass,
            }
        },
        _ => Decision::Pass,
    }
}

/// Routes application-wide shortcuts after the active interaction has had
/// first refusal.
pub fn route_global(context: GlobalContext, event: &InputEvent) -> (decision: Decision)
    ensures
        decision == global_spec(context, *event),
{
    let press = match event {
        InputEvent::KeyPressed(press) => press,
        _ => {
            return Decision::Pass;
        },
    };
    if !press.modifiers.control || press.modifiers.alt || press.modifiers.logo {
        return Decision::Pass;
    }
    let toggles = match context {
        GlobalContext::EditableWrite | GlobalContext::EditableWriteFind
        | GlobalContext::EditablePreview(_) | GlobalContext::EditablePreviewFind => true,
        _ => false,
    };
    let finds = match context {
        GlobalContext::EditableWriteFind | GlobalContext::EditablePreviewFind
        | GlobalContext::PreviewOnlyFind => true,
        _ => false,
    };
    let previews = match context {
        GlobalContext::EditablePreview(_) | GlobalContext::EditablePreviewFind
        | GlobalContext::PreviewOnly(_) | GlobalContext::PreviewOnlyFind => true,
        _ => false,
    };
    let command = match shape(&press.key) {
        KeyShape::Char(c) => if c == 'o' || c == 'O' {
            Command::Document(DocumentCommand::Open)
        } else if (c == 'p' || c == 'P') && toggles {
            Command::Preview(PreviewCommand::Toggle)
        } else if c == 'b' || c == 'B' {
            Command::Comments(CommentsCommand::ToggleSidebar)
        } else if c == 's' || c == 'S' {
            Command::Document(DocumentCommand::Save)
        } else if c == 'f' || c == 'F' {
            Command::Find(FindCommand::Open)
        } else if (c == 'g' || c == 'G') && finds {
            Command::Find(FindCommand::Next)
        } else if (c == 'n' || c == 'N') && previews {
            Command::Comments(CommentsCommand::Next)
        } else if (c == 'd' || c == 'D') && previews {
            Command::Preview(PreviewCommand::ScrollPage(Page::HalfDown, global_motion_count(context)))
        } else if (c == 'u' || c == 'U') && previews {
            Command::Preview(PreviewCommand::ScrollPage(Page::HalfUp, global_motion_count(context)))
        } else {
            return Decision::Pass;
        },
        KeyShape::Named(NamedKey::Enter) => Command::Comments(
            if press.modifiers.shift {
                CommentsCommand::Publish
            } else {
                CommentsCommand::AddGlobal
            },
        ),
        _ => {
            return Decision::Pass;
        },
    };
    one_shot(press.repeat, command)
}

// ---------------------------------------------------------------------------
// The whole hierarchy.
// ---------------------------------------------------------------------------

/// The decision for an active workspace: Help's verdict first, then the
/// owner of the focused layer, falling back to the global shortcuts where
/// the layer passes.
pub open spec fn workspace_spec(workspace: Workspace, event: InputEvent, help: HelpAction) -> Decision {
    if help != HelpAction::Pass {
        help_decision_spec(help)
    } else {
        match workspace {
            Workspace::Editable(EditableWorkspace::Write(WriteState::Editor)) => global_spec(
                GlobalContext::EditableWrite,
                event,
            ),
            Workspace::Editable(EditableWorkspace::Write(WriteState::Find)) => fallback_spec(
                find_spec(event),
                global_spec(GlobalContext::EditableWriteFind, event),
            ),
            Workspace::Editable(EditableWorkspace::Preview(PreviewState::Canvas { pending, .. })) => fallback_spec(
                preview_spec(pending, event),
                global_spec(GlobalContext::EditablePreview(pending), event),
            ),
            Workspace::Editable(EditableWorkspace::Preview(PreviewState::Note { .. })) => note_spec(event),
            Workspace::Editable(EditableWorkspace::Preview(PreviewState::Find { .. })) => fallback_spec(
                find_spec(event),
                global_spec(GlobalContext::EditablePreviewFind, event),
            ),
            Workspace::PreviewOnly(PreviewState::Canvas { pending, .. }) => fallback_spec(
                preview_spec(pending, event),
                global_spec(GlobalContext::PreviewOnly(pending), event),
            ),
            Workspace::PreviewOnly(PreviewState::Note { .. }) => note_spec(event),
            Workspace::PreviewOnly(PreviewState::Find { .. }) => fallback_spec(
                find_spec(event),
                global_spec(GlobalContext::PreviewOnlyFind, event),
            ),
        }
    }
}

/// Routes an event through an active workspace, after Help's verdict on
/// it.
pub fn route_workspace(workspace: Workspace, event: &InputEvent, help: HelpAction) -> (decision:
    Decision)
    ensures
        decision == workspace_spec(workspace, *event, help),
{
    match help {
        HelpAction::Pass => {},
        _ => {
            return help_decision(help);
        },
    }
    match workspace {
        Workspace::Editable(EditableWorkspace::Write(WriteState::Editor)) => route_global(
            GlobalContext::EditableWrite,
            event,
        ),
        Workspace::Editable(EditableWorkspace::Write(WriteState::Find)) => {
            let primary = route_find(event);
            match primary {
                Decision::Pass => route_global(GlobalContext::EditableWriteFind, event),
                _ => primary,
            }
        },
        Workspace::Editable(EditableWorkspace::Preview(PreviewState::Canvas { pending, .. })) => {
            let primary = route_preview(pending, event);
            match primary {
                Decision::Pass => route_global(GlobalContext::EditablePreview(pending), event),
                _ => primary,
            }
        },
        Workspace::Editable(EditableWorkspace::Preview(PreviewState::Note { .. })) => route_note(
            event,
        ),
        Workspace::Editable(EditableWorkspace::Preview(PreviewState::Find { .. })) => {
            let primary = route_find(event);
            match primary {
                Decision::Pass => route_global(GlobalContext::EditablePreviewFind, event),
                _ => primary,
            }
        },
        Workspace::PreviewOnly(PreviewState::Canvas { pending, .. }) => {
            let primary = route_preview(pending, event);
            match primary {
                Decision::Pass => route_global(GlobalContext::PreviewOnly(pending), event),
                _ => primary,
            }
        },
        Workspace::PreviewOnly(PreviewState::Note { .. }) => route_note(event),
        Workspace::PreviewOnly(PreviewState::Find { .. }) => {
            let primary = route_find(event);
            match primary {
                Decision::Pass => route_global(GlobalContext::PreviewOnlyFind, event),
                _ => primary,
            }
        },
    }
}

/// Whether Help's verdict on an event is asked for an open Help window:
/// Help is the root of the hierarchy.
pub open spec fn help_window_open_spec(root: RootState) -> bool {
    root is Help
}

/// Whether the Help window is open, which is the state Help's verdict on
/// an event must be asked for.
pub fn help_window_open(state: &InteractionState) -> (open: bool)
    ensures
        open == help_window_open_spec(state@),
{
    match state.root() {
        RootState::Help { .. } => true,
        _ => false,
    }
}

/// The decision for an event at the root: an open Help window owns every
/// event it does not pass on; the unsaved prompt owns the rest; otherwise
/// the workspace decides.
pub open spec fn route_spec(root: RootState, event: InputEvent, help: HelpAction) -> Decision {
    match root {
        RootState::Help { .. } => help_decision_spec(help),
        RootState::Unsaved { .. } => unsaved_spec(event, help),
        RootState::Active(workspace) => workspace_spec(workspace, event, help),
    }
}

/// Routes one root event through the legal interaction hierarchy, given
/// Help's verdict on the event for the window's state
/// ([`help_window_open`]).
pub fn route(state: &InteractionState, event: &InputEvent, help: HelpAction) -> (decision: Decision)
    ensures
        decision == route_spec(state@, *event, help),
{
    match state.root() {
        RootState::Help { resume: HelpResume::Active(_) } | RootState::Help {
            resume: HelpResume::Unsaved { .. },
        } => help_decision(help),
        RootState::Unsaved { .. } => route_unsaved(event, help),
        RootState::Active(workspace) => route_workspace(workspace, event, help),
    }
}

/// Routes one root event, Help's verdict included: what [`route`] decides
/// with Help's own verdict for the window's current state.
pub fn route_event(state: &InteractionState, event: &InputEvent) -> (decision: Decision)
    ensures
        decision == route_spec(state@, *event, help_event_spec(help_window_open_spec(state@), *event)),
{
    let open = help_window_open(state);
    let help = help_event_action(open, event);
    route(state, event, help)
}

// ---------------------------------------------------------------------------
// Laws.
// ---------------------------------------------------------------------------

/// Whether a decision changes the sequence parser: arming a prefix or
/// extending a count.
pub open spec fn feeds_parser(decision: Decision) -> bool {
    decision matches Decision::Dispatch(InputMessage::ArmPrefix(_)) || decision matches Decision::Dispatch(
        InputMessage::PushCountDigit(_),
    )
}

/// A held key never feeds the sequence parser: auto-repeats of digits and
/// prefix keys are captured, whatever the state.
pub proof fn law_held_keys_never_feed_the_parser(root: RootState, press: KeyPress, help: HelpAction)
    requires
        press.repeat,
    ensures
        !feeds_parser(route_spec(root, InputEvent::KeyPressed(press), help)),
{
}

/// A preview-only session never toggles to the write surface, whatever
/// the key.
pub proof fn law_preview_only_never_toggles(preview: PreviewState, event: InputEvent, help: HelpAction)
    ensures
        route_spec(RootState::Active(Workspace::PreviewOnly(preview)), event, help) != execute_spec(
            Command::Preview(PreviewCommand::Toggle),
        ),
{
}

/// The unsaved prompt owns the keyboard: when Help lets a key press
/// through, anything but Escape is captured.
pub proof fn law_unsaved_prompt_captures_keys(root: RootState, press: KeyPress)
    requires
        root is Unsaved,
        shape_of(press.key) != KeyShape::Named(NamedKey::Escape),
    ensures
        route_spec(root, InputEvent::KeyPressed(press), HelpAction::Pass) == Decision::Capture,
{
}

/// Help comes first: whatever the state, a verdict of Help's other than
/// letting the event through is the decision.
pub proof fn law_help_verdict_comes_first(root: RootState, event: InputEvent, help: HelpAction)
    requires
        help != HelpAction::Pass,
    ensures
        route_spec(root, event, help) == help_decision_spec(help),
{
}


/// A key press with the given key, modifiers and repeat flag.
pub open spec fn press_of(key: Key, modifiers: Modifiers, repeat: bool) -> InputEvent {
    InputEvent::KeyPressed(KeyPress { key, modifiers, repeat })
}

/// The canvas's arrow keys are its vim letters: ArrowUp decides as `k`,
/// ArrowDown as `j`, ArrowLeft as `h` and ArrowRight as `l`, whatever
/// is pending, held and modified. Unmodified, each moves the caret its
/// own way — up, down, left, right — by the pending count, or once when
/// no count was typed.
pub proof fn law_arrows_are_vim_letters(
    pending: Pending,
    modifiers: Modifiers,
    repeat: bool,
    k: String,
    j: String,
    h: String,
    l: String,
)
    requires
        k@ == seq!['k'],
        j@ == seq!['j'],
        h@ == seq!['h'],
        l@ == seq!['l'],
    ensures
        preview_spec(pending, press_of(Key::Named(NamedKey::ArrowUp), modifiers, repeat)) == preview_spec(
            pending,
            press_of(Key::Character(k), modifiers, repeat),
        ),
        preview_spec(pending, press_of(Key::Named(NamedKey::ArrowDown), modifiers, repeat))
            == preview_spec(pending, press_of(Key::Character(j), modifiers, repeat)),
        preview_spec(pending, press_of(Key::Named(NamedKey::ArrowLeft), modifiers, repeat))
            == preview_spec(pending, press_of(Key::Character(h), modifiers, repeat)),
        preview_spec(pending, press_of(Key::Named(NamedKey::ArrowRight), modifiers, repeat))
            == preview_spec(pending, press_of(Key::Character(l), modifiers, repeat)),
        !modifiers.control && !modifiers.alt && !modifiers.logo ==> {
            let count = (if pending.count_of() is Some {
                pending.count_value()
            } else {
                1
            }) as usize;
            let moving = |motion: Motion|
                Decision::Dispatch(
                    InputMessage::Execute(Command::Preview(PreviewCommand::Move(motion, count))),
                );
            &&& preview_spec(pending, press_of(Key::Named(NamedKey::ArrowUp), modifiers, repeat))
                == moving(Motion::Up)
            &&& preview_spec(pending, press_of(Key::Named(NamedKey::ArrowDown), modifiers, repeat))
                == moving(Motion::Down)
            &&& preview_spec(pending, press_of(Key::Named(NamedKey::ArrowLeft), modifiers, repeat))
                == moving(Motion::Left)
            &&& preview_spec(pending, press_of(Key::Named(NamedKey::ArrowRight), modifiers, repeat))
                == moving(Motion::Right)
        },
{
    assert(digit_of('k') is None);
    assert(digit_of('j') is None);
    assert(digit_of('h') is None);
    assert(digit_of('l') is None);
}

} // verus!
