use agmawrite::bindings::{
    help_event_action, help_window_open, route, route_event, Decision, HelpAction, InputEvent, InputMessage, Key, KeyPress,
    Modifiers, NamedKey,
};
use agmawrite::command::{
    Command, CommentsCommand, DocumentCommand, FindCommand, HelpCommand, PreviewCommand,
};
use agmawrite::interaction::{InteractionState, UnsavedAction};
use agmawrite::pending::Prefix;
use agmawrite::preview::{Jump, Motion, Page, Placement};

const CTRL: Modifiers = Modifiers {
    control: true,
    alt: false,
    logo: false,
    shift: false,
};

const SHIFT: Modifiers = Modifiers {
    control: false,
    alt: false,
    logo: false,
    shift: true,
};

const CTRL_SHIFT: Modifiers = Modifiers {
    control: true,
    alt: false,
    logo: false,
    shift: true,
};

fn pressed(key: Key, modifiers: Modifiers, repeat: bool) -> InputEvent {
    InputEvent::KeyPressed(KeyPress {
        key,
        modifiers,
        repeat,
    })
}

fn character(value: &str) -> InputEvent {
    character_with(value, Modifiers::default(), false)
}

fn character_with(value: &str, modifiers: Modifiers, repeat: bool) -> InputEvent {
    pressed(Key::Character(value.to_owned()), modifiers, repeat)
}

fn named(value: NamedKey, modifiers: Modifiers, repeat: bool) -> InputEvent {
    pressed(Key::Named(value), modifiers, repeat)
}

fn escape() -> InputEvent {
    named(NamedKey::Escape, Modifiers::default(), false)
}

fn editable_preview(visual: bool) -> InteractionState {
    let mut state = InteractionState::editable();
    assert!(state.toggle_preview());
    if visual {
        state.toggle_visual().unwrap();
    }
    state
}

fn preview_only(visual: bool) -> InteractionState {
    let mut state = InteractionState::preview_only();
    if visual {
        state.toggle_visual().unwrap();
    }
    state
}

fn note(mut state: InteractionState) -> InteractionState {
    state.open_note().unwrap();
    state
}

fn find(mut state: InteractionState) -> InteractionState {
    state.open_find();
    state
}

fn dispatch(command: Command) -> Decision {
    Decision::Dispatch(InputMessage::Execute(command))
}

/// Routing with Help letting the event through.
fn plain(state: &InteractionState, event: &InputEvent) -> Decision {
    route(state, event, HelpAction::Pass)
}

#[test]
fn exhaustive_workspace_variants_route_to_their_focused_owner() {
    let mut cases = vec![
        (
            "editable write editor".to_owned(),
            InteractionState::editable(),
            character("x"),
            Decision::Pass,
        ),
        (
            "editable write find".to_owned(),
            find(InteractionState::editable()),
            named(NamedKey::Enter, Modifiers::default(), false),
            dispatch(Command::Find(FindCommand::Next)),
        ),
    ];

    for (preview_only_session, label) in [(false, "editable"), (true, "preview-only")] {
        for visual in [false, true] {
            let mode = if visual { "visual" } else { "view" };
            let base = || {
                if preview_only_session {
                    preview_only(visual)
                } else {
                    editable_preview(visual)
                }
            };
            cases.push((
                format!("{label} canvas {mode}"),
                base(),
                character("j"),
                dispatch(Command::Preview(PreviewCommand::Move(Motion::Down, 1))),
            ));
            cases.push((
                format!("{label} note {mode}"),
                note(base()),
                character("x"),
                Decision::Pass,
            ));
            cases.push((
                format!("{label} find over canvas {mode}"),
                find(base()),
                named(NamedKey::Enter, Modifiers::default(), false),
                dispatch(Command::Find(FindCommand::Next)),
            ));
            cases.push((
                format!("{label} find over note {mode}"),
                find(note(base())),
                named(NamedKey::Enter, SHIFT, false),
                dispatch(Command::Find(FindCommand::Previous)),
            ));
        }
    }

    for (name, state, event, expected) in cases {
        assert_eq!(plain(&state, &event), expected, "{name}");
    }
}

#[test]
fn modal_root_variants_enforce_top_down_ownership() {
    let mut state = find(note(editable_preview(false)));
    state.open_unsaved(UnsavedAction::OpenFile);
    state.open_help();
    assert!(help_window_open(&state));

    // With Help on top, Help's own verdict decides.
    assert_eq!(
        route(&state, &escape(), HelpAction::Close),
        dispatch(Command::Help(HelpCommand::Close))
    );
    assert_eq!(route(&state, &character("x"), HelpAction::Pass), Decision::Pass);

    let _ = state.close_help();
    assert!(!help_window_open(&state));
    assert_eq!(
        plain(&state, &escape()),
        dispatch(Command::Document(DocumentCommand::CancelUnsaved))
    );
    assert_eq!(plain(&state, &character("x")), Decision::Capture);
    assert_eq!(plain(&state, &InputEvent::InputMethod), Decision::Capture);

    let help_chord = character_with("?", CTRL, false);
    assert_eq!(
        route(&state, &help_chord, HelpAction::Open),
        dispatch(Command::Help(HelpCommand::Open))
    );

    let _ = state.resolve_unsaved();
    assert_eq!(
        plain(&state, &escape()),
        dispatch(Command::Find(FindCommand::Close))
    );
    let _ = state.close_find();
    assert_eq!(
        plain(&state, &escape()),
        dispatch(Command::Comments(CommentsCommand::CloseNote))
    );
}

#[test]
fn help_routes_open_close_capture_and_text_pass_through() {
    let chord = character_with("/", CTRL, false);
    let write = InteractionState::editable();
    assert!(!help_window_open(&write));
    assert_eq!(
        route(&write, &chord, HelpAction::Open),
        dispatch(Command::Help(HelpCommand::Open))
    );

    let mut help = write;
    help.open_help();
    assert!(help_window_open(&help));
    let cases = [
        ("typing", character("x"), HelpAction::Pass, Decision::Pass),
        (
            "tab containment",
            named(NamedKey::Tab, Modifiers::default(), false),
            HelpAction::Capture,
            Decision::Capture,
        ),
        (
            "escape",
            escape(),
            HelpAction::Close,
            dispatch(Command::Help(HelpCommand::Close)),
        ),
        (
            "toggle chord",
            chord,
            HelpAction::Close,
            dispatch(Command::Help(HelpCommand::Close)),
        ),
    ];
    for (name, event, verdict, expected) in cases {
        assert_eq!(route(&help, &event, verdict), expected, "{name}");
    }
    assert_eq!(
        route(&help, &InputEvent::InputMethod, HelpAction::Pass),
        Decision::Pass
    );
}

#[test]
fn note_find_help_and_write_fields_receive_unbound_editing_input() {
    let write = InteractionState::editable();
    let note = note(editable_preview(false));
    let find = find(editable_preview(false));
    let mut help = InteractionState::editable();
    help.open_help();

    let cases = [
        ("write typing", write, character("x")),
        ("write select all", write, character_with("a", CTRL, false)),
        ("note typing", note, character("x")),
        (
            "note newline",
            note,
            named(NamedKey::Enter, Modifiers::default(), false),
        ),
        ("note select all", note, character_with("a", CTRL, false)),
        ("find typing", find, character("j")),
        ("find select all", find, character_with("a", CTRL, false)),
        ("help typing", help, character("x")),
    ];

    for (name, state, event) in cases {
        assert_eq!(plain(&state, &event), Decision::Pass, "{name}");
    }

    assert_eq!(
        plain(&note, &character_with("s", CTRL, false)),
        dispatch(Command::Comments(CommentsCommand::SaveNote))
    );
}

#[test]
fn preview_sequences_emit_internal_parser_messages_only() {
    let idle = editable_preview(false);
    let mut counted = idle;
    counted.push_count_digit(1);
    let mut g = idle;
    g.arm_prefix(Prefix::G);
    let mut counted_g = counted;
    counted_g.arm_prefix(Prefix::G);
    let mut z = idle;
    z.arm_prefix(Prefix::Z);

    let cases = [
        (
            "lone zero is semantic",
            idle,
            character("0"),
            dispatch(Command::Preview(PreviewCommand::Move(Motion::Start, 1))),
        ),
        (
            "digit starts count",
            idle,
            character("3"),
            Decision::Dispatch(InputMessage::PushCountDigit(3)),
        ),
        (
            "zero extends count",
            counted,
            character("0"),
            Decision::Dispatch(InputMessage::PushCountDigit(0)),
        ),
        (
            "g arms internally",
            idle,
            character("g"),
            Decision::Dispatch(InputMessage::ArmPrefix(Prefix::G)),
        ),
        (
            "gg completes semantically",
            g,
            character("g"),
            dispatch(Command::Preview(PreviewCommand::Jump(Jump::First, 0))),
        ),
        (
            "count survives g",
            counted_g,
            character("g"),
            dispatch(Command::Preview(PreviewCommand::Jump(Jump::First, 1))),
        ),
        (
            "z arms internally",
            idle,
            character("z"),
            Decision::Dispatch(InputMessage::ArmPrefix(Prefix::Z)),
        ),
        (
            "zt completes semantically",
            z,
            character("t"),
            dispatch(Command::Preview(PreviewCommand::ScrollCaret(Placement::Top))),
        ),
        (
            "digit after prefix is parser input",
            z,
            character("0"),
            Decision::Dispatch(InputMessage::PushCountDigit(0)),
        ),
    ];

    for (name, state, event, expected) in cases {
        let before = state;
        assert_eq!(plain(&state, &event), expected, "{name}");
        assert_eq!(state, before, "{name}: routing must be pure");
    }
}

#[test]
fn repeat_policy_distinguishes_motions_navigation_and_one_shots() {
    let preview = editable_preview(false);
    let find = find(preview);
    let cases = [
        (
            "held motion",
            preview,
            character_with("j", Modifiers::default(), true),
            dispatch(Command::Preview(PreviewCommand::Move(Motion::Down, 1))),
        ),
        (
            "held full page",
            preview,
            named(NamedKey::PageDown, Modifiers::default(), true),
            dispatch(Command::Preview(PreviewCommand::ScrollPage(
                Page::FullDown,
                1,
            ))),
        ),
        (
            "held note open",
            preview,
            character_with("c", Modifiers::default(), true),
            Decision::Capture,
        ),
        (
            "held prefix",
            preview,
            character_with("g", Modifiers::default(), true),
            Decision::Capture,
        ),
        (
            "held digit",
            preview,
            character_with("3", Modifiers::default(), true),
            Decision::Capture,
        ),
        (
            "held preview enter",
            preview,
            named(NamedKey::Enter, Modifiers::default(), true),
            Decision::Capture,
        ),
        (
            "held find enter",
            find,
            named(NamedKey::Enter, Modifiers::default(), true),
            dispatch(Command::Find(FindCommand::Next)),
        ),
        (
            "held global toggle",
            preview,
            character_with("b", CTRL, true),
            Decision::Capture,
        ),
    ];

    for (name, state, event, expected) in cases {
        assert_eq!(plain(&state, &event), expected, "{name}");
    }
}

#[test]
fn global_shortcuts_respect_structural_workspace_capabilities() {
    let write = InteractionState::editable();
    let preview = editable_preview(false);
    let preview_only = InteractionState::preview_only();
    let find = find(preview);
    let mut counted = preview;
    counted.push_count_digit(3);

    let cases = [
        (
            "open from write",
            write,
            character_with("o", CTRL, false),
            dispatch(Command::Document(DocumentCommand::Open)),
        ),
        (
            "save from write",
            write,
            character_with("s", CTRL, false),
            dispatch(Command::Document(DocumentCommand::Save)),
        ),
        (
            "toggle sidebar from preview",
            preview,
            character_with("b", CTRL, false),
            dispatch(Command::Comments(CommentsCommand::ToggleSidebar)),
        ),
        (
            "open find from write",
            write,
            character_with("f", CTRL, false),
            dispatch(Command::Find(FindCommand::Open)),
        ),
        (
            "toggle from write",
            write,
            character_with("p", CTRL, false),
            dispatch(Command::Preview(PreviewCommand::Toggle)),
        ),
        (
            "toggle from preview",
            preview,
            character_with("p", CTRL, false),
            dispatch(Command::Preview(PreviewCommand::Toggle)),
        ),
        (
            "preview-only cannot toggle",
            preview_only,
            character_with("p", CTRL, false),
            Decision::Pass,
        ),
        (
            "next comment in preview",
            preview,
            character_with("n", CTRL, false),
            dispatch(Command::Comments(CommentsCommand::Next)),
        ),
        (
            "no next comment in write",
            write,
            character_with("n", CTRL, false),
            Decision::Pass,
        ),
        (
            "counted half page down",
            counted,
            character_with("d", CTRL, false),
            dispatch(Command::Preview(PreviewCommand::ScrollPage(
                Page::HalfDown,
                3,
            ))),
        ),
        (
            "counted half page up",
            counted,
            character_with("u", CTRL, false),
            dispatch(Command::Preview(PreviewCommand::ScrollPage(Page::HalfUp, 3))),
        ),
        (
            "next find match only while find owns input",
            find,
            character_with("g", CTRL, false),
            dispatch(Command::Find(FindCommand::Next)),
        ),
        (
            "ctrl enter adds global",
            write,
            named(NamedKey::Enter, CTRL, false),
            dispatch(Command::Comments(CommentsCommand::AddGlobal)),
        ),
        (
            "ctrl shift enter publishes",
            preview,
            named(NamedKey::Enter, CTRL_SHIFT, false),
            dispatch(Command::Comments(CommentsCommand::Publish)),
        ),
    ];

    for (name, state, event, expected) in cases {
        assert_eq!(plain(&state, &event), expected, "{name}");
    }
}

#[test]
fn multi_character_keys_bind_nothing() {
    let preview = editable_preview(false);
    assert_eq!(plain(&preview, &character("jj")), Decision::Pass);
    assert_eq!(plain(&preview, &character("12")), Decision::Pass);
    assert_eq!(
        plain(&preview, &pressed(Key::Unidentified, Modifiers::default(), false)),
        Decision::Pass
    );
    assert_eq!(plain(&preview, &InputEvent::Other), Decision::Pass);
}

/// Help decides its own chord: Ctrl with `?` or `/` opens it and, once
/// open, closes it; while open, Escape closes, Tab stays, typing and
/// input methods pass to its search field.
#[test]
fn help_verdicts_follow_the_chord_and_the_window() {
    let chord = character_with("/", CTRL, false);
    let question = character_with("?", CTRL_SHIFT, false);
    assert_eq!(help_event_action(false, &chord), HelpAction::Open);
    assert_eq!(help_event_action(false, &question), HelpAction::Open);
    assert_eq!(help_event_action(false, &character("?")), HelpAction::Pass);
    assert_eq!(help_event_action(false, &escape()), HelpAction::Pass);
    assert_eq!(help_event_action(true, &chord), HelpAction::Close);
    assert_eq!(help_event_action(true, &escape()), HelpAction::Close);
    assert_eq!(
        help_event_action(true, &named(NamedKey::Tab, Modifiers::default(), false)),
        HelpAction::Capture
    );
    assert_eq!(help_event_action(true, &character("x")), HelpAction::Pass);
    assert_eq!(help_event_action(true, &InputEvent::InputMethod), HelpAction::Pass);
    assert_eq!(
        help_event_action(false, &character_with("/", CTRL, true)),
        HelpAction::Capture
    );
}

/// With Help's verdict computed for the window's state, the chord opens
/// Help over the editor and closes it again; `/` on the preview canvas
/// opens find and `y` asks for a yank.
#[test]
fn routing_with_helps_own_verdict() {
    let write = InteractionState::editable();
    let chord = character_with("/", CTRL, false);
    assert_eq!(
        route_event(&write, &chord),
        Decision::Dispatch(InputMessage::Execute(Command::Help(HelpCommand::Open)))
    );
    let mut help = write;
    help.open_help();
    assert_eq!(
        route_event(&help, &chord),
        Decision::Dispatch(InputMessage::Execute(Command::Help(HelpCommand::Close)))
    );
    assert_eq!(route_event(&help, &character("x")), Decision::Pass);

    for visual in [false, true] {
        let preview = editable_preview(visual);
        assert_eq!(
            route_event(&preview, &character("/")),
            Decision::Dispatch(InputMessage::Execute(Command::Find(FindCommand::Open)))
        );
        assert_eq!(
            route_event(&preview, &character("y")),
            Decision::Dispatch(InputMessage::Execute(Command::Preview(PreviewCommand::Yank)))
        );
    }
    assert_eq!(route_event(&write, &character("/")), Decision::Pass);
}
