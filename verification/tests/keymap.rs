use agmawrite::bindings::{HelpAction, InputEvent, Key, KeyPress, Modifiers, NamedKey};
use agmawrite::keymap::{keyboard_guard, keyboard_guard_action, Keymap, KeyboardGuardAction, Message, Mode};
use agmawrite::preview::{Jump, Motion, Page, Placement, WordMotion};

const CTRL: Modifiers = Modifiers {
    control: true,
    alt: false,
    logo: false,
    shift: false,
};

const SHIFT: Modifiers = Modifiers {
    control: false,
    alt: false,
    logo: false,
    shift: true,
};

const CTRL_SHIFT: Modifiers = Modifiers {
    control: true,
    alt: false,
    logo: false,
    shift: true,
};

fn key_press(character: &str, repeat: bool) -> InputEvent {
    key_press_with(character, Modifiers::default(), repeat)
}

fn key_press_with(character: &str, modifiers: Modifiers, repeat: bool) -> InputEvent {
    InputEvent::KeyPressed(KeyPress {
        key: Key::Character(character.to_owned()),
        modifiers,
        repeat,
    })
}

fn escape() -> InputEvent {
    named(NamedKey::Escape, Modifiers::default())
}

fn named(key: NamedKey, modifiers: Modifiers) -> InputEvent {
    InputEvent::KeyPressed(KeyPress {
        key: Key::Named(key),
        modifiers,
        repeat: false,
    })
}

fn key_press_named_enter(modifiers: Modifiers, _repeat: bool) -> InputEvent {
    named(NamedKey::Enter, modifiers)
}

/// A keymap in view mode, as if `Ctrl+P` had switched to the preview.
fn viewing() -> Keymap {
    let mut keymap = Keymap::new(false);
    keymap.note(&Message::TogglePreview);
    keymap
}

/// The badge and key handling read one representation: write when
/// editing, view when previewing, visual while a selection is
/// anchored, note while the popup is open.
#[test]
fn one_mode_for_badge_and_keys() {
    let mut keymap = Keymap::new(false);
    assert_eq!(keymap.mode(), Mode::Write);
    assert!(!keymap.preview());

    keymap.note(&Message::TogglePreview);
    assert_eq!(keymap.mode(), Mode::View);
    assert!(keymap.preview());

    keymap.note(&Message::ToggleVisualMode);
    assert_eq!(keymap.mode(), Mode::Visual);

    // The note popup floats above visual mode and closing it returns
    // there.
    keymap.note(&Message::OpenNotePopup);
    assert_eq!(keymap.mode(), Mode::Note);
    keymap.note(&Message::CloseNotePopup);
    assert_eq!(keymap.mode(), Mode::Visual);

    keymap.note(&Message::ToggleVisualMode);
    assert_eq!(keymap.mode(), Mode::View);

    keymap.note(&Message::TogglePreview);
    assert_eq!(keymap.mode(), Mode::Write);
}

/// Holding a motion key auto-repeats the motion, like holding `j` or
/// `k` in vim; one-shot actions and the `g`-prefix never repeat.
#[test]
fn held_motion_keys_repeat() {
    let keymap = viewing();
    let pressed = |character: &str, repeat: bool| keymap.handle(&key_press(character, repeat));

    // Plain presses and repeats both move.
    assert!(matches!(
        pressed("j", false),
        Some(Message::MovePreviewCursor(Motion::Down, 1))
    ));
    assert!(matches!(
        pressed("j", true),
        Some(Message::MovePreviewCursor(Motion::Down, 1))
    ));
    assert!(matches!(
        pressed("k", true),
        Some(Message::MovePreviewCursor(Motion::Up, 1))
    ));
    assert!(matches!(
        pressed("h", true),
        Some(Message::MovePreviewCursor(Motion::Left, 1))
    ));
    assert!(matches!(
        pressed("l", true),
        Some(Message::MovePreviewCursor(Motion::Right, 1))
    ));
    assert!(matches!(
        pressed("w", true),
        Some(Message::MovePreviewWord(WordMotion::NextStart, 1))
    ));
    assert!(matches!(
        pressed("b", true),
        Some(Message::MovePreviewWord(WordMotion::PreviousStart, 1))
    ));
    assert!(matches!(
        pressed("e", true),
        Some(Message::MovePreviewWord(WordMotion::NextEnd, 1))
    ));

    // One-shot actions ignore repeats.
    assert!(matches!(pressed("c", false), Some(Message::OpenNotePopup)));
    assert!(pressed("c", true).is_none());

    // The `g` prefix never arms or fires on repeat — `gg` and `ge` need
    // two fresh presses.
    assert!(matches!(
        pressed("g", false),
        Some(Message::PreviewGPressed)
    ));
    assert!(pressed("g", true).is_none());

    // `v` toggles visual mode on fresh presses only.
    assert!(matches!(
        pressed("v", false),
        Some(Message::ToggleVisualMode)
    ));
    assert!(pressed("v", true).is_none());
}

/// `gg` jumps to the first element: the first `g` arms the prefix
/// through its message, the second fresh `g` fires the jump, and any
/// other key ends the sequence.
#[test]
fn gg_arms_then_fires() {
    let mut keymap = viewing();

    assert!(matches!(
        keymap.handle(&key_press("g", false)),
        Some(Message::PreviewGPressed)
    ));
    keymap.note(&Message::PreviewGPressed);
    assert!(matches!(
        keymap.handle(&key_press("g", false)),
        Some(Message::MovePreviewJump(Jump::First, 0))
    ));

    // The sequence fired; a third `g` starts over.
    keymap.note(&Message::MovePreviewJump(Jump::First, 0));
    assert!(matches!(
        keymap.handle(&key_press("g", false)),
        Some(Message::PreviewGPressed)
    ));

    // Any other key ends the pending sequence.
    keymap.note(&Message::PreviewGPressed);
    assert!(matches!(
        keymap.handle(&key_press("j", false)),
        Some(Message::MovePreviewCursor(Motion::Down, 1))
    ));
    keymap.note(&Message::MovePreviewCursor(Motion::Down, 1));
    assert!(matches!(
        keymap.handle(&key_press("g", false)),
        Some(Message::PreviewGPressed)
    ));

    // `ge` moves to the end of the previous word.
    keymap.note(&Message::PreviewGPressed);
    assert!(matches!(
        keymap.handle(&key_press("e", false)),
        Some(Message::MovePreviewWord(WordMotion::PreviousEnd, 1))
    ));
}

/// While the note popup is open, plain keys go to its text area — only
/// Escape closes it and Ctrl+S saves the comment.
#[test]
fn note_popup_swallows_keys() {
    let mut keymap = viewing();
    keymap.note(&Message::OpenNotePopup);

    assert!(matches!(
        keymap.handle(&escape()),
        Some(Message::CloseNotePopup)
    ));

    // Motions, `c`, and typing characters produce nothing while the
    // popup is open.
    for key in ["j", "k", "h", "l", "w", "b", "e", "g", "c", "G", "x"] {
        assert!(
            keymap.handle(&key_press(key, false)).is_none(),
            "'{key}' should be swallowed by the note popup"
        );
    }

    // Ctrl+S saves the note while the popup is open; other Ctrl combos
    // (even Ctrl+O) stay swallowed.
    assert!(matches!(
        keymap.handle(&key_press_with("s", CTRL, false)),
        Some(Message::SaveNote)
    ));
    assert!(keymap
        .handle(&key_press_with("o", CTRL, false))
        .is_none());
}

/// Ctrl+F opens the find popup in any mode; while it is open, plain
/// keys type into its query field and only Escape closes it.
#[test]
fn find_popup_swallows_plain_keys_but_not_ctrl() {
    for mut keymap in [Keymap::new(false), viewing()] {
        assert!(matches!(
            keymap.handle(&key_press_with("f", CTRL, false)),
            Some(Message::OpenFind)
        ));
        keymap.note(&Message::OpenFind);
        assert_eq!(keymap.mode(), Mode::Find);

        // Typing reaches the query field, motions included.
        for key in ["j", "k", "g", "c", "x"] {
            assert!(
                keymap.handle(&key_press(key, false)).is_none(),
                "'{key}' should be swallowed by the find popup"
            );
        }

        // Global shortcuts still work.
        assert!(matches!(
            keymap.handle(&key_press_with("b", CTRL, false)),
            Some(Message::ToggleSidebar)
        ));

        assert!(matches!(keymap.handle(&escape()), Some(Message::CloseFind)));
        keymap.note(&Message::CloseFind);
        assert!(keymap.mode() != Mode::Find);
    }
}

/// While the find popup is open, Enter and Ctrl+G step to the next
/// match and Shift+Enter to the previous one; Ctrl+G does nothing
/// once the popup is closed.
#[test]
fn find_navigation_keys_step_through_matches() {
    let mut keymap = viewing();
    keymap.note(&Message::OpenFind);

    assert!(matches!(
        keymap.handle(&named(NamedKey::Enter, Modifiers::default())),
        Some(Message::FindNext)
    ));
    // Holding Enter keeps stepping, like holding `n` in vim.
    assert!(matches!(
        keymap.handle(&named(NamedKey::Enter, Modifiers::default())),
        Some(Message::FindNext)
    ));
    assert!(matches!(
        keymap.handle(&named(NamedKey::Enter, SHIFT)),
        Some(Message::FindPrevious)
    ));
    assert!(matches!(
        keymap.handle(&key_press_with("g", CTRL, false)),
        Some(Message::FindNext)
    ));

    keymap.note(&Message::CloseFind);
    assert!(keymap
        .handle(&key_press_with("g", CTRL, false))
        .is_none());
}

/// Help opens from every underlying mode, swallows keys while visible,
/// closes with Escape, and leaves a pending preview prefix untouched.
#[test]
fn help_is_a_transparent_modal_overlay() {
    let mut write = Keymap::new(false);
    assert_eq!(write.mode(), Mode::Write);
    assert!(matches!(
        write.handle(&key_press("?", false)),
        Some(Message::OpenHelp)
    ));
    write.note(&Message::OpenHelp);
    assert!(write.help_open());
    assert_eq!(write.mode(), Mode::Write);
    assert!(write.handle(&key_press("j", false)).is_none());
    assert!(matches!(write.handle(&escape()), Some(Message::CloseHelp)));
    write.note(&Message::CloseHelp);
    assert!(!write.help_open());
    assert_eq!(write.mode(), Mode::Write);

    let mut view = viewing();
    view.note(&Message::PreviewGPressed);
    view.note(&Message::OpenHelp);
    assert_eq!(view.mode(), Mode::View);
    view.note(&Message::CloseHelp);
    assert!(matches!(
        view.handle(&key_press("g", false)),
        Some(Message::MovePreviewJump(Jump::First, 0))
    ));
}

/// Ctrl+S saves the document in write and view mode; with the note
/// popup open it saves the note instead.
#[test]
fn ctrl_s_saves_the_file_unless_a_note_is_open() {
    for keymap in [Keymap::new(false), viewing()] {
        assert!(matches!(
            keymap.handle(&key_press_with("s", CTRL, false)),
            Some(Message::SaveFile)
        ));
    }

    let mut keymap = viewing();
    keymap.note(&Message::OpenNotePopup);
    assert!(matches!(
        keymap.handle(&key_press_with("s", CTRL, false)),
        Some(Message::SaveNote)
    ));
}

/// Ctrl+B toggles the comments sidebar in any mode.
#[test]
fn ctrl_b_toggles_the_sidebar() {
    for keymap in [Keymap::new(false), viewing()] {
        assert!(matches!(
            keymap.handle(&key_press_with("b", CTRL, false)),
            Some(Message::ToggleSidebar)
        ));
        // Held down, the toggle does not flip back and forth.
        assert!(keymap
            .handle(&key_press_with("b", CTRL, true))
            .is_none());
    }
}

/// Preview-only mode disables switching back to write mode, from keys
/// and from clicks alike.
#[test]
fn preview_only_locks_the_mode() {
    let mut keymap = Keymap::new(true);
    assert_eq!(keymap.mode(), Mode::View);
    assert!(keymap.preview_only());

    assert!(keymap
        .handle(&key_press_with("p", CTRL, false))
        .is_none());

    keymap.note(&Message::TogglePreview);
    assert_eq!(keymap.mode(), Mode::View);
}

/// Digits accumulate a count like vim and the next motion carries it:
/// `3j` fires `Down` with count 3, `10k` with 10. The count dies with
/// the motion, a lone `0` is the element-start motion, a `0` after
/// digits extends the count, and held digits never repeat.
#[test]
fn counts_arm_and_repeat_motions() {
    let mut keymap = viewing();

    // 3j fires Down with count 3.
    assert!(matches!(
        keymap.handle(&key_press("3", false)),
        Some(Message::PreviewCountPressed(3))
    ));
    keymap.note(&Message::PreviewCountPressed(3));
    assert_eq!(keymap.pending_count(), 3);

    assert!(matches!(
        keymap.handle(&key_press("j", false)),
        Some(Message::MovePreviewCursor(Motion::Down, 3))
    ));
    keymap.note(&Message::MovePreviewCursor(Motion::Down, 3));
    assert_eq!(keymap.pending_count(), 0);

    // 10k: a `0` extends a pending count rather than starting a motion.
    keymap.note(&Message::PreviewCountPressed(1));
    assert!(matches!(
        keymap.handle(&key_press("0", false)),
        Some(Message::PreviewCountPressed(0))
    ));
    keymap.note(&Message::PreviewCountPressed(0));
    assert!(matches!(
        keymap.handle(&key_press("k", false)),
        Some(Message::MovePreviewCursor(Motion::Up, 10))
    ));
    keymap.note(&Message::MovePreviewCursor(Motion::Up, 10));

    // A lone `0` is the element-start motion; a count then repeats it.
    assert!(matches!(
        keymap.handle(&key_press("0", false)),
        Some(Message::MovePreviewCursor(Motion::Start, 1))
    ));

    keymap.note(&Message::MovePreviewCursor(Motion::Start, 1));

    // 2h and 3l carry their counts.
    keymap.note(&Message::PreviewCountPressed(2));
    assert!(matches!(
        keymap.handle(&key_press("h", false)),
        Some(Message::MovePreviewCursor(Motion::Left, 2))
    ));
    keymap.note(&Message::MovePreviewCursor(Motion::Left, 2));
    keymap.note(&Message::PreviewCountPressed(3));
    assert!(matches!(
        keymap.handle(&key_press("l", false)),
        Some(Message::MovePreviewCursor(Motion::Right, 3))
    ));
    keymap.note(&Message::MovePreviewCursor(Motion::Right, 3));

    // 3w carries its count like the character motions.
    keymap.note(&Message::PreviewCountPressed(3));
    assert!(matches!(
        keymap.handle(&key_press("w", false)),
        Some(Message::MovePreviewWord(WordMotion::NextStart, 3))
    ));

    // Held digits never extend the count.
    keymap.note(&Message::PreviewCountPressed(1));
    assert!(keymap.handle(&key_press("1", true)).is_none());

    // Any other message clears the pending count.
    keymap.note(&Message::ToggleSidebar);
    assert_eq!(keymap.pending_count(), 0);

    // Write mode never arms counts — digits type into the editor.
    let write = Keymap::new(false);
    assert!(write.handle(&key_press("3", false)).is_none());
}

/// The count survives the `g` prefix: `3gg` jumps with count 3 and `5G`
/// lands on the fifth element; a plain `gg`/`G` carries no count.
#[test]
fn counts_survive_the_g_prefix() {
    let mut keymap = viewing();

    keymap.note(&Message::PreviewCountPressed(3));
    assert!(matches!(
        keymap.handle(&key_press("g", false)),
        Some(Message::PreviewGPressed)
    ));
    keymap.note(&Message::PreviewGPressed);
    assert_eq!(keymap.pending_count(), 3);

    assert!(matches!(
        keymap.handle(&key_press("g", false)),
        Some(Message::MovePreviewJump(Jump::First, 3))
    ));
    keymap.note(&Message::MovePreviewJump(Jump::First, 3));

    // 5G carries the count; plain G carries none.
    keymap.note(&Message::PreviewCountPressed(5));
    assert!(matches!(
        keymap.handle(&key_press("G", false)),
        Some(Message::MovePreviewJump(Jump::Last, 5))
    ));
    keymap.note(&Message::MovePreviewJump(Jump::Last, 5));
    assert!(matches!(
        keymap.handle(&key_press("G", false)),
        Some(Message::MovePreviewJump(Jump::Last, 0))
    ));
}

/// `zz`/`zt`/`zb` scroll the caret to the viewport's middle, top, and
/// bottom: the first `z` arms the prefix, the second key fires, and any
/// other key ends the sequence.
#[test]
fn zz_zt_zb_scroll_the_caret_into_place() {
    let mut keymap = viewing();

    // zz centers.
    assert!(matches!(
        keymap.handle(&key_press("z", false)),
        Some(Message::PreviewZPressed)
    ));
    keymap.note(&Message::PreviewZPressed);
    assert!(matches!(
        keymap.handle(&key_press("z", false)),
        Some(Message::ScrollPreviewCaret(Placement::Center))
    ));
    keymap.note(&Message::ScrollPreviewCaret(Placement::Center));

    // zt puts the caret at the top.
    keymap.note(&Message::PreviewZPressed);
    assert!(matches!(
        keymap.handle(&key_press("t", false)),
        Some(Message::ScrollPreviewCaret(Placement::Top))
    ));
    keymap.note(&Message::ScrollPreviewCaret(Placement::Top));

    // zb puts the caret at the bottom — `b` returns to its word motion
    // once the prefix ended.
    keymap.note(&Message::PreviewZPressed);
    assert!(matches!(
        keymap.handle(&key_press("b", false)),
        Some(Message::ScrollPreviewCaret(Placement::Bottom))
    ));
    keymap.note(&Message::ScrollPreviewCaret(Placement::Bottom));
    assert!(matches!(
        keymap.handle(&key_press("b", false)),
        Some(Message::MovePreviewWord(WordMotion::PreviousStart, 1))
    ));

    // Any other key ends a pending `z` sequence.
    keymap.note(&Message::PreviewZPressed);
    assert!(matches!(
        keymap.handle(&key_press("j", false)),
        Some(Message::MovePreviewCursor(Motion::Down, 1))
    ));
    keymap.note(&Message::MovePreviewCursor(Motion::Down, 1));
    assert!(keymap.handle(&key_press("t", false)).is_none());

    // Held `z` never arms or fires.
    assert!(keymap.handle(&key_press("z", true)).is_none());

    // In write mode `z` types into the editor.
    let write = Keymap::new(false);
    assert!(write.handle(&key_press("z", false)).is_none());
}

/// Half and full pages scroll the preview: Ctrl+D/Ctrl+U scroll half a
/// page down/up and PageDown/PageUp a full one, counts repeating
/// pages. In write mode the editor keeps its own page keys.
#[test]
fn page_keys_scroll_the_preview() {
    let keymap = viewing();

    assert!(matches!(
        keymap.handle(&named(NamedKey::PageDown, Modifiers::default())),
        Some(Message::ScrollPreviewPage(Page::FullDown, 1))
    ));
    assert!(matches!(
        keymap.handle(&named(NamedKey::PageUp, Modifiers::default())),
        Some(Message::ScrollPreviewPage(Page::FullUp, 1))
    ));
    assert!(matches!(
        keymap.handle(&key_press_with("d", CTRL, false)),
        Some(Message::ScrollPreviewPage(Page::HalfDown, 1))
    ));
    assert!(matches!(
        keymap.handle(&key_press_with("u", CTRL, false)),
        Some(Message::ScrollPreviewPage(Page::HalfUp, 1))
    ));

    // 3Ctrl+D scrolls three half pages.
    let mut keymap = viewing();
    keymap.note(&Message::PreviewCountPressed(3));
    assert!(matches!(
        keymap.handle(&key_press_with("d", CTRL, false)),
        Some(Message::ScrollPreviewPage(Page::HalfDown, 3))
    ));

    // Write mode keeps Ctrl+D and the page keys for its editor.
    let write = Keymap::new(false);
    assert!(write
        .handle(&key_press_with("d", CTRL, false))
        .is_none());
    assert!(write
        .handle(&named(NamedKey::PageDown, Modifiers::default()))
        .is_none());
}

/// Enter in the preview opens the active comment for editing; without
/// one it does nothing (update decides), and the popups keep their own
/// Enter meanings.
#[test]
fn enter_edits_the_active_comment() {
    let keymap = viewing();
    assert!(matches!(
        keymap.handle(&named(NamedKey::Enter, Modifiers::default())),
        Some(Message::EditActiveComment)
    ));

    // Enter repeats do not re-trigger the popup.
    let held_enter = |repeat: bool| {
        InputEvent::KeyPressed(KeyPress {
            key: Key::Named(NamedKey::Enter),
            modifiers: Modifiers::default(),
            repeat,
        })
    };
    assert!(keymap.handle(&held_enter(true)).is_none());

    // While the note popup is open, Enter types a newline instead.
    let mut note = viewing();
    note.note(&Message::OpenNotePopup);
    assert!(note
        .handle(&named(NamedKey::Enter, Modifiers::default()))
        .is_none());

    // While find is open, Enter steps to the next match.
    let mut find = viewing();
    find.note(&Message::OpenFind);
    assert!(matches!(
        find.handle(&named(NamedKey::Enter, Modifiers::default())),
        Some(Message::FindNext)
    ));
}

/// Ctrl+Enter triggers the sidebar's Add button and Ctrl+Shift+Enter
/// its Publish button, in every mode — even with the sidebar's draft
/// editor focused.
#[test]
fn ctrl_enter_triggers_add_and_publish() {
    for keymap in [Keymap::new(false), viewing()] {
        assert!(matches!(
            keymap.handle(&key_press_named_enter(CTRL, false)),
            Some(Message::AddGlobalComment)
        ));
        assert!(matches!(
            keymap.handle(&key_press_named_enter(CTRL_SHIFT, false)),
            Some(Message::PublishPressed)
        ));
    }

    // With the note popup open, the popup keeps every Ctrl combo but
    // Ctrl+S.
    let mut note = viewing();
    note.note(&Message::OpenNotePopup);
    assert!(note
        .handle(&key_press_named_enter(CTRL, false))
        .is_none());
}

/// Arming one `g`/`z` prefix disarms the other, and digits end a
/// pending prefix: `gzg` never fires `gg`, `zgb` never fires `zb`, and
/// `z3z` never fires `zz` — an unrelated key cancels the sequence.
#[test]
fn g_and_z_prefixes_are_mutually_exclusive() {
    let mut keymap = viewing();

    // gzg: the middle z ends the g sequence; the final g only re-arms.
    keymap.note(&Message::PreviewGPressed);
    assert!(matches!(
        keymap.handle(&key_press("z", false)),
        Some(Message::PreviewZPressed)
    ));
    keymap.note(&Message::PreviewZPressed);
    assert!(matches!(
        keymap.handle(&key_press("g", false)),
        Some(Message::PreviewGPressed)
    ));
    keymap.note(&Message::PreviewGPressed);
    // Now gg would fire — but the point is z's g did not. Arm z and
    // check the mirrored case.
    assert!(matches!(
        keymap.handle(&key_press("g", false)),
        Some(Message::MovePreviewJump(Jump::First, 0))
    ));
    keymap.note(&Message::MovePreviewJump(Jump::First, 0));

    // zgb: the middle g ends the z sequence, so b is just a word
    // motion — never zb's scroll.
    keymap.note(&Message::PreviewZPressed);
    assert!(matches!(
        keymap.handle(&key_press("g", false)),
        Some(Message::PreviewGPressed)
    ));
    keymap.note(&Message::PreviewGPressed);
    assert!(matches!(
        keymap.handle(&key_press("b", false)),
        Some(Message::MovePreviewWord(WordMotion::PreviousStart, 1))
    ));
    keymap.note(&Message::MovePreviewWord(WordMotion::PreviousStart, 1));

    // ztz fires normally after the fix: arm z fresh and complete it.
    keymap.note(&Message::PreviewZPressed);
    assert!(matches!(
        keymap.handle(&key_press("t", false)),
        Some(Message::ScrollPreviewCaret(Placement::Top))
    ));

    // A digit ends a pending prefix: z3z is two fresh presses.
    keymap.note(&Message::PreviewZPressed);
    keymap.note(&Message::PreviewCountPressed(3));
    assert!(matches!(
        keymap.handle(&key_press("z", false)),
        Some(Message::PreviewZPressed)
    ));
    keymap.note(&Message::PreviewZPressed);
    assert!(matches!(
        keymap.handle(&key_press("z", false)),
        Some(Message::ScrollPreviewCaret(Placement::Center))
    ));
}

/// The unsaved-changes dialog swallows every key but Escape, and its
/// messages open and close it; the mode beneath stays untouched.
#[test]
fn unsaved_dialog_is_a_modal() {
    let mut keymap = viewing();
    keymap.note(&Message::UnsavedChanges);
    assert!(keymap.unsaved_open());
    assert_eq!(keymap.mode(), Mode::View);

    // Motions and shortcuts are swallowed; Escape cancels.
    for key in ["j", "k", "g", "c", "0", "3"] {
        assert!(
            keymap.handle(&key_press(key, false)).is_none(),
            "'{key}' should be swallowed by the unsaved dialog"
        );
    }
    assert!(keymap
        .handle(&key_press_with("s", CTRL, false))
        .is_none());
    assert!(matches!(
        keymap.handle(&escape()),
        Some(Message::UnsavedCancel)
    ));

    // Answering closes it too.
    keymap.note(&Message::UnsavedSave);
    assert!(!keymap.unsaved_open());
    keymap.note(&Message::UnsavedChanges);
    keymap.note(&Message::UnsavedDiscard);
    assert!(!keymap.unsaved_open());
    assert_eq!(keymap.mode(), Mode::View);
}

/// The root keyboard guard claims Help's chord before any focused input
/// can edit, and while Help is open it only claims what Help claims —
/// every other key press and input-method event reaches the window's
/// search field. Help's own verdict on each event is given alongside it.
#[test]
fn help_guard_routes_keys_to_the_help_window() {
    let write = Keymap::new(false);

    // A plain `?` (Shift + /) types into the editor like any character.
    let question = key_press_with("?", SHIFT, false);
    assert_eq!(
        keyboard_guard_action(&write, &question, HelpAction::Pass),
        KeyboardGuardAction::Pass
    );

    // The chord opens help — both the `?` and the `/` spelling.
    let chord = key_press_with("?", CTRL_SHIFT, false);
    assert_eq!(
        keyboard_guard_action(&write, &chord, HelpAction::Open),
        KeyboardGuardAction::OpenHelp
    );
    let slash_chord = key_press_with("/", CTRL, false);
    assert_eq!(
        keyboard_guard_action(&write, &slash_chord, HelpAction::Open),
        KeyboardGuardAction::OpenHelp
    );

    // While help is open, typing and input-method events reach the
    // window's search field; Tab stays captured; Escape and the chord
    // close.
    let mut help = write;
    help.note(&Message::OpenHelp);

    let typing = key_press("x", false);
    assert_eq!(
        keyboard_guard_action(&help, &typing, HelpAction::Pass),
        KeyboardGuardAction::Pass
    );
    assert_eq!(
        keyboard_guard_action(&help, &chord, HelpAction::Close),
        KeyboardGuardAction::CloseHelp
    );
    assert_eq!(
        keyboard_guard_action(&help, &InputEvent::InputMethod, HelpAction::Pass),
        KeyboardGuardAction::Pass
    );
    let tab = named(NamedKey::Tab, Modifiers::default());
    assert_eq!(
        keyboard_guard_action(&help, &tab, HelpAction::Capture),
        KeyboardGuardAction::Capture
    );
    assert_eq!(
        keyboard_guard_action(&help, &escape(), HelpAction::Close),
        KeyboardGuardAction::CloseHelp
    );

    // Escape with the find popup open still closes find.
    let mut find = write;
    find.note(&Message::OpenFind);
    assert_eq!(
        keyboard_guard_action(&find, &escape(), HelpAction::Pass),
        KeyboardGuardAction::CloseFind
    );
}

/// The unsaved dialog stops key presses and input-method events, and a
/// fresh Escape cancels it; Escape closes the note popup when find is
/// not open.
#[test]
fn guard_owns_the_unsaved_dialog_and_popups() {
    let mut unsaved = Keymap::new(false);
    unsaved.note(&Message::UnsavedChanges);
    assert_eq!(
        keyboard_guard_action(&unsaved, &key_press("x", false), HelpAction::Pass),
        KeyboardGuardAction::Capture
    );
    assert_eq!(
        keyboard_guard_action(&unsaved, &InputEvent::InputMethod, HelpAction::Pass),
        KeyboardGuardAction::Capture
    );
    assert_eq!(
        keyboard_guard_action(&unsaved, &escape(), HelpAction::Pass),
        KeyboardGuardAction::CancelUnsaved
    );
    let held_escape = InputEvent::KeyPressed(KeyPress {
        key: Key::Named(NamedKey::Escape),
        modifiers: Modifiers::default(),
        repeat: true,
    });
    assert_eq!(
        keyboard_guard_action(&unsaved, &held_escape, HelpAction::Pass),
        KeyboardGuardAction::Capture
    );

    let mut note = Keymap::new(false);
    note.note(&Message::TogglePreview);
    note.note(&Message::OpenNotePopup);
    assert!(note.note_open());
    assert_eq!(
        keyboard_guard_action(&note, &escape(), HelpAction::Pass),
        KeyboardGuardAction::CloseNote
    );
    assert_eq!(
        keyboard_guard_action(&note, &named(NamedKey::Escape, CTRL), HelpAction::Pass),
        KeyboardGuardAction::Pass
    );
    assert_eq!(
        keyboard_guard_action(&note, &InputEvent::Other, HelpAction::Pass),
        KeyboardGuardAction::Pass
    );
}

/// The README's keys: the Ctrl chords, `/` for find on the preview in
/// view and visual mode, and `?` for Help.
#[test]
fn readme_keys_reach_their_messages() {
    let write = Keymap::new(false);
    let mut view = write;
    view.note(&Message::TogglePreview);
    assert_eq!(write.handle(&key_press_with("p", CTRL, false)), Some(Message::TogglePreview));
    assert_eq!(write.handle(&key_press_with("o", CTRL, false)), Some(Message::OpenFile));
    assert_eq!(write.handle(&key_press_with("s", CTRL, false)), Some(Message::SaveFile));
    assert_eq!(view.handle(&key_press_with("f", CTRL, false)), Some(Message::OpenFind));
    assert_eq!(view.handle(&key_press_with("n", CTRL, false)), Some(Message::NextComment));
    assert_eq!(view.handle(&key_press("/", false)), Some(Message::OpenFind));
    assert_eq!(write.handle(&key_press("/", false)), None);
    let mut visual = view;
    visual.note(&Message::ToggleVisualMode);
    assert_eq!(visual.handle(&key_press("/", false)), Some(Message::OpenFind));
    assert_eq!(write.handle(&key_press_with("?", SHIFT, false)), Some(Message::OpenHelp));
}

/// `y` yanks only in visual mode, and the yank leaves visual mode.
#[test]
fn yank_is_a_visual_mode_verb() {
    let mut view = Keymap::new(false);
    view.note(&Message::TogglePreview);
    assert_eq!(view.handle(&key_press("y", false)), None);
    let mut visual = view;
    visual.note(&Message::ToggleVisualMode);
    assert_eq!(visual.mode(), Mode::Visual);
    assert_eq!(visual.handle(&key_press("y", false)), Some(Message::Yank));
    assert_eq!(visual.handle(&key_press("y", true)), None);
    visual.note(&Message::Yank);
    assert_eq!(visual.mode(), Mode::View);
}

/// The note popup covers the mode and gives it back when it closes.
#[test]
fn note_popup_restores_the_mode_it_covered() {
    let mut visual = Keymap::new(false);
    visual.note(&Message::TogglePreview);
    visual.note(&Message::ToggleVisualMode);
    visual.note(&Message::OpenNotePopup);
    assert_eq!(visual.mode(), Mode::Note);
    visual.note(&Message::CloseNotePopup);
    assert_eq!(visual.mode(), Mode::Visual);
}

/// The guard asks Help first: the chord opens the window, and once it is
/// open the chord and Escape close it.
#[test]
fn guard_asks_help_first() {
    let write = Keymap::new(false);
    let chord = key_press_with("?", CTRL_SHIFT, false);
    assert_eq!(keyboard_guard(&write, &chord), KeyboardGuardAction::OpenHelp);
    assert_eq!(keyboard_guard(&write, &key_press("x", false)), KeyboardGuardAction::Pass);
    let mut help = write;
    help.note(&Message::OpenHelp);
    assert_eq!(keyboard_guard(&help, &chord), KeyboardGuardAction::CloseHelp);
    assert_eq!(keyboard_guard(&help, &escape()), KeyboardGuardAction::CloseHelp);
}

/// Help's chord, as the shortcut list spells it, opens Help from the
/// write surface too.
#[test]
fn ctrl_question_mark_opens_help() {
    let write = Keymap::new(false);
    assert_eq!(write.handle(&key_press_with("?", CTRL, false)), Some(Message::OpenHelp));
    assert_eq!(write.handle(&key_press_with("/", CTRL, false)), Some(Message::OpenHelp));
    assert_eq!(write.handle(&key_press_with("?", CTRL, true)), None);
}
