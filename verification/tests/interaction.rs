use agmawrite::interaction::{
    EditableWorkspace, FindResume, FocusTarget, HelpResume, InteractionState, ModeBadge, Overlay,
    PreviewMode, PreviewState, RootState, Surface, TransitionError, UnsavedAction, Workspace,
    WriteState,
};
use agmawrite::pending::Prefix;

fn active(workspace: Workspace) -> InteractionState {
    InteractionState::from_workspace(workspace)
}

fn editable_preview(preview: PreviewState) -> Workspace {
    Workspace::Editable(EditableWorkspace::Preview(preview))
}

fn canvas(mode: PreviewMode) -> PreviewState {
    PreviewState::canvas(mode)
}

fn counted_canvas(mode: PreviewMode, digit: u32) -> InteractionState {
    let mut state = active(editable_preview(canvas(mode)));
    state.push_count_digit(digit);
    state
}

fn workspace(state: InteractionState) -> Workspace {
    match state.root() {
        RootState::Active(workspace)
        | RootState::Unsaved {
            resume: workspace, ..
        } => workspace,
        RootState::Help {
            resume:
                HelpResume::Active(workspace)
                | HelpResume::Unsaved {
                    resume: workspace, ..
                },
        } => workspace,
    }
}

#[test]
fn constructors_create_editable_write_and_preview_only_view() {
    let editable = InteractionState::editable().projection();
    assert_eq!(editable.surface(), Surface::Write);
    assert_eq!(editable.badge(), ModeBadge::Write);
    assert!(editable.can_toggle_preview());
    assert_eq!(editable.overlay(), None);

    let preview_only = InteractionState::preview_only().projection();
    assert_eq!(preview_only.surface(), Surface::Preview);
    assert_eq!(preview_only.badge(), ModeBadge::View);
    assert!(!preview_only.can_toggle_preview());
    assert!(!preview_only.visual());
}

#[test]
fn preview_toggle_covers_every_editable_variant_and_preview_only_is_unchanged() {
    let preview_variants = [
        canvas(PreviewMode::View),
        canvas(PreviewMode::Visual),
        PreviewState::Note {
            resume: PreviewMode::View,
        },
        PreviewState::Note {
            resume: PreviewMode::Visual,
        },
        PreviewState::Find {
            resume: FindResume::Canvas(PreviewMode::View),
        },
        PreviewState::Find {
            resume: FindResume::Canvas(PreviewMode::Visual),
        },
        PreviewState::Find {
            resume: FindResume::Note(PreviewMode::View),
        },
        PreviewState::Find {
            resume: FindResume::Note(PreviewMode::Visual),
        },
    ];

    for write in [WriteState::Editor, WriteState::Find] {
        let mut state = active(Workspace::Editable(EditableWorkspace::Write(write)));
        state.toggle_preview();
        let expected = match write {
            WriteState::Editor => canvas(PreviewMode::View),
            WriteState::Find => PreviewState::Find {
                resume: FindResume::Canvas(PreviewMode::View),
            },
        };
        assert_eq!(workspace(state), editable_preview(expected));
    }

    for preview in preview_variants {
        let mut state = active(editable_preview(preview));
        state.toggle_preview();
        let expected = if matches!(preview, PreviewState::Find { .. }) {
            WriteState::Find
        } else {
            WriteState::Editor
        };
        assert_eq!(
            workspace(state),
            Workspace::Editable(EditableWorkspace::Write(expected))
        );

        let mut preview_only = active(Workspace::PreviewOnly(preview));
        let before = preview_only;
        preview_only.toggle_preview();
        assert_eq!(preview_only, before);
    }
}

#[test]
fn visual_toggle_is_exhaustive_and_rejects_hidden_or_write_surfaces() {
    for (mode, expected) in [
        (PreviewMode::View, PreviewMode::Visual),
        (PreviewMode::Visual, PreviewMode::View),
    ] {
        let mut editable = counted_canvas(mode, 3);
        assert_eq!(editable.toggle_visual(), Ok(()));
        assert_eq!(workspace(editable), editable_preview(canvas(expected)));

        let mut preview_only = active(Workspace::PreviewOnly(canvas(mode)));
        assert_eq!(preview_only.toggle_visual(), Ok(()));
        assert_eq!(
            workspace(preview_only),
            Workspace::PreviewOnly(canvas(expected))
        );
    }

    for write in [WriteState::Editor, WriteState::Find] {
        let mut state = active(Workspace::Editable(EditableWorkspace::Write(write)));
        let before = state;
        assert_eq!(state.toggle_visual(), Err(TransitionError::RequiresPreview));
        assert_eq!(state, before);
    }

    for preview in [
        PreviewState::Note {
            resume: PreviewMode::View,
        },
        PreviewState::Find {
            resume: FindResume::Canvas(PreviewMode::Visual),
        },
        PreviewState::Find {
            resume: FindResume::Note(PreviewMode::View),
        },
    ] {
        for wrap in [
            editable_preview as fn(PreviewState) -> Workspace,
            Workspace::PreviewOnly,
        ] {
            let mut state = active(wrap(preview));
            let before = state;
            assert_eq!(
                state.toggle_visual(),
                Err(TransitionError::OverlayOwnsInput)
            );
            assert_eq!(state, before);
        }
    }
}

#[test]
fn note_transitions_cover_rejection_idempotence_and_find_restoration() {
    for write in [WriteState::Editor, WriteState::Find] {
        let mut state = active(Workspace::Editable(EditableWorkspace::Write(write)));
        let before = state;
        assert_eq!(state.open_note(), Err(TransitionError::RequiresPreview));
        assert_eq!(state, before);
    }

    for mode in [PreviewMode::View, PreviewMode::Visual] {
        for wrap in [
            editable_preview as fn(PreviewState) -> Workspace,
            Workspace::PreviewOnly,
        ] {
            let mut canvas_state = active(wrap(canvas(mode)));
            assert_eq!(canvas_state.open_note(), Ok(()));
            let note = wrap(PreviewState::Note { resume: mode });
            assert_eq!(workspace(canvas_state), note);
            assert_eq!(canvas_state.open_note(), Ok(()));
            assert_eq!(workspace(canvas_state), note);
            let _ = canvas_state.close_note();
            assert_eq!(workspace(canvas_state), wrap(canvas(mode)));
            let closed = canvas_state;
            let _ = canvas_state.close_note();
            assert_eq!(canvas_state, closed);

            let mut find = active(wrap(PreviewState::Find {
                resume: FindResume::Canvas(mode),
            }));
            assert_eq!(find.open_note(), Ok(()));
            assert_eq!(
                workspace(find),
                wrap(PreviewState::Find {
                    resume: FindResume::Note(mode),
                })
            );
            assert_eq!(find.open_note(), Ok(()));
            let _ = find.close_note();
            assert_eq!(
                workspace(find),
                wrap(PreviewState::Find {
                    resume: FindResume::Canvas(mode),
                })
            );
        }
    }
}

#[test]
fn find_transitions_restore_every_surface_and_are_idempotent() {
    let cases = [
        Workspace::Editable(EditableWorkspace::Write(WriteState::Editor)),
        editable_preview(canvas(PreviewMode::View)),
        editable_preview(canvas(PreviewMode::Visual)),
        editable_preview(PreviewState::Note {
            resume: PreviewMode::View,
        }),
        editable_preview(PreviewState::Note {
            resume: PreviewMode::Visual,
        }),
        Workspace::PreviewOnly(canvas(PreviewMode::View)),
        Workspace::PreviewOnly(canvas(PreviewMode::Visual)),
        Workspace::PreviewOnly(PreviewState::Note {
            resume: PreviewMode::View,
        }),
        Workspace::PreviewOnly(PreviewState::Note {
            resume: PreviewMode::Visual,
        }),
    ];

    for initial in cases {
        let mut state = active(initial);
        state.open_find();
        let opened = state;
        state.open_find();
        assert_eq!(state, opened);
        let _ = state.close_find();
        assert_eq!(workspace(state), initial);
        let closed = state;
        let _ = state.close_find();
        assert_eq!(state, closed);
    }
}

#[test]
fn help_and_unsaved_wrap_and_restore_every_root_path() {
    let action = UnsavedAction::OpenFile;
    let other = UnsavedAction::CloseWindow(7);
    let mut state = counted_canvas(PreviewMode::Visual, 3);
    state.arm_prefix(Prefix::G);
    let active_root = state.root();

    state.open_help();
    let help_over_active = state.root();
    state.open_help();
    assert_eq!(state.root(), help_over_active);
    assert_eq!(state.projection().pending_count(), Some(3));
    assert!(state.has_prefix(Prefix::G));
    assert_eq!(state.close_help(), None);
    assert_eq!(state.root(), active_root);
    assert_eq!(state.close_help(), None);
    assert_eq!(state.root(), active_root);

    state.open_unsaved(action);
    let unsaved_root = state.root();
    assert_eq!(state.projection().pending_count(), None);
    assert!(!state.has_prefix(Prefix::G));
    state.open_unsaved(other);
    assert_eq!(
        state.root(),
        unsaved_root,
        "duplicate retains the first action"
    );
    state.open_help();
    let help_over_unsaved = state.root();
    state.open_help();
    assert_eq!(state.root(), help_over_unsaved);
    assert_eq!(
        state.projection().overlays,
        vec![Overlay::Unsaved(action), Overlay::Help]
    );
    assert_eq!(state.close_help(), None);
    assert_eq!(state.root(), unsaved_root);
    let resolved = state.resolve_unsaved().expect("unsaved action");
    assert_eq!(resolved.action(), action);
    assert_eq!(resolved.focus(), None);
    assert!(matches!(state.root(), RootState::Active(_)));

    let mut help_first = counted_canvas(PreviewMode::View, 5);
    help_first.open_help();
    help_first.open_unsaved(action);
    assert_eq!(
        help_first.projection().overlays,
        vec![Overlay::Unsaved(action), Overlay::Help]
    );
    assert_eq!(help_first.projection().pending_count(), None);
    let nested = help_first.root();
    help_first.open_unsaved(other);
    assert_eq!(help_first.root(), nested);
    let resolved = help_first.resolve_unsaved().expect("unsaved below Help");
    assert_eq!(resolved.action(), action);
    assert_eq!(resolved.focus(), Some(FocusTarget::HelpInput));
    assert_eq!(help_first.projection().overlays, vec![Overlay::Help]);
    assert_eq!(help_first.resolve_unsaved(), None);
    assert_eq!(help_first.projection().overlays, vec![Overlay::Help]);
    let _ = help_first.close_help();
    assert!(matches!(help_first.root(), RootState::Active(_)));
}

#[test]
fn closing_overlays_restores_focus_from_the_suspended_payload() {
    let mut write = InteractionState::editable();
    write.open_help();
    assert_eq!(write.close_help(), Some(FocusTarget::SourceEditor));

    let mut note = active(editable_preview(canvas(PreviewMode::View)));
    note.open_note().unwrap();
    note.open_help();
    assert_eq!(note.close_help(), Some(FocusTarget::NoteComposer));

    note.open_find();
    note.open_help();
    assert_eq!(note.close_help(), Some(FocusTarget::FindInput));
    assert_eq!(note.close_find(), Some(FocusTarget::NoteComposer));
    assert_eq!(note.close_note(), None);

    let mut unsaved = InteractionState::editable();
    unsaved.open_unsaved(UnsavedAction::OpenFile);
    let resolution = unsaved.resolve_unsaved().expect("visible prompt");
    assert_eq!(resolution.focus(), Some(FocusTarget::SourceEditor));

    let mut nested = active(editable_preview(PreviewState::Note {
        resume: PreviewMode::Visual,
    }));
    nested.open_unsaved(UnsavedAction::OpenFile);
    nested.open_help();
    let resolution = nested.resolve_unsaved().expect("prompt below Help");
    assert_eq!(resolution.focus(), Some(FocusTarget::HelpInput));
    assert_eq!(nested.close_help(), Some(FocusTarget::NoteComposer));
}

#[test]
fn projections_cover_every_workspace_variant_and_overlay_order() {
    let cases = [
        (
            Workspace::Editable(EditableWorkspace::Write(WriteState::Editor)),
            Surface::Write,
            ModeBadge::Write,
            false,
            vec![],
        ),
        (
            Workspace::Editable(EditableWorkspace::Write(WriteState::Find)),
            Surface::Write,
            ModeBadge::Find,
            false,
            vec![Overlay::Find],
        ),
        (
            editable_preview(canvas(PreviewMode::View)),
            Surface::Preview,
            ModeBadge::View,
            false,
            vec![],
        ),
        (
            editable_preview(canvas(PreviewMode::Visual)),
            Surface::Preview,
            ModeBadge::Visual,
            true,
            vec![],
        ),
        (
            editable_preview(PreviewState::Note {
                resume: PreviewMode::Visual,
            }),
            Surface::Preview,
            ModeBadge::Note,
            true,
            vec![Overlay::Note],
        ),
        (
            editable_preview(PreviewState::Find {
                resume: FindResume::Canvas(PreviewMode::View),
            }),
            Surface::Preview,
            ModeBadge::Find,
            false,
            vec![Overlay::Find],
        ),
        (
            editable_preview(PreviewState::Find {
                resume: FindResume::Note(PreviewMode::Visual),
            }),
            Surface::Preview,
            ModeBadge::Find,
            true,
            vec![Overlay::Note, Overlay::Find],
        ),
    ];

    for (workspace, surface, badge, visual, overlays) in cases {
        let projection = active(workspace).projection();
        assert_eq!(projection.surface(), surface);
        assert_eq!(projection.badge(), badge);
        assert_eq!(projection.visual(), visual);
        assert_eq!(projection.overlays, overlays);
    }

    for preview in [
        canvas(PreviewMode::View),
        canvas(PreviewMode::Visual),
        PreviewState::Note {
            resume: PreviewMode::View,
        },
        PreviewState::Note {
            resume: PreviewMode::Visual,
        },
        PreviewState::Find {
            resume: FindResume::Canvas(PreviewMode::View),
        },
        PreviewState::Find {
            resume: FindResume::Note(PreviewMode::Visual),
        },
    ] {
        let editable = active(editable_preview(preview)).projection();
        let preview_only = active(Workspace::PreviewOnly(preview)).projection();
        assert_eq!(preview_only.surface(), editable.surface());
        assert_eq!(preview_only.badge(), editable.badge());
        assert_eq!(preview_only.visual(), editable.visual());
        assert_eq!(preview_only.overlays, editable.overlays);
        assert!(editable.can_toggle_preview());
        assert!(!preview_only.can_toggle_preview());
    }

    let mut nested = active(editable_preview(PreviewState::Find {
        resume: FindResume::Note(PreviewMode::Visual),
    }));
    nested.open_unsaved(UnsavedAction::OpenFile);
    nested.open_help();
    let projection = nested.projection();
    assert_eq!(projection.badge(), ModeBadge::Find);
    assert_eq!(projection.overlay(), Some(Overlay::Help));
    assert_eq!(
        projection.overlays,
        vec![
            Overlay::Note,
            Overlay::Find,
            Overlay::Unsaved(UnsavedAction::OpenFile),
            Overlay::Help,
        ]
    );
}

#[test]
fn document_loaded_normalizes_every_workspace_variant_under_every_root() {
    let variants = [
        Workspace::Editable(EditableWorkspace::Write(WriteState::Editor)),
        Workspace::Editable(EditableWorkspace::Write(WriteState::Find)),
        editable_preview(canvas(PreviewMode::View)),
        editable_preview(canvas(PreviewMode::Visual)),
        editable_preview(PreviewState::Note {
            resume: PreviewMode::Visual,
        }),
        editable_preview(PreviewState::Find {
            resume: FindResume::Canvas(PreviewMode::Visual),
        }),
        editable_preview(PreviewState::Find {
            resume: FindResume::Note(PreviewMode::Visual),
        }),
        Workspace::PreviewOnly(canvas(PreviewMode::Visual)),
        Workspace::PreviewOnly(PreviewState::Note {
            resume: PreviewMode::View,
        }),
        Workspace::PreviewOnly(PreviewState::Find {
            resume: FindResume::Note(PreviewMode::Visual),
        }),
    ];

    for variant in variants {
        let expected = match variant {
            Workspace::Editable(EditableWorkspace::Write(_)) => {
                Workspace::Editable(EditableWorkspace::Write(WriteState::Editor))
            }
            Workspace::Editable(EditableWorkspace::Preview(_)) => {
                editable_preview(canvas(PreviewMode::View))
            }
            Workspace::PreviewOnly(_) => Workspace::PreviewOnly(canvas(PreviewMode::View)),
        };

        let roots = [
            RootState::Active(variant),
            RootState::Unsaved {
                action: UnsavedAction::OpenFile,
                resume: variant,
            },
            RootState::Help {
                resume: HelpResume::Active(variant),
            },
            RootState::Help {
                resume: HelpResume::Unsaved {
                    action: UnsavedAction::OpenFile,
                    resume: variant,
                },
            },
        ];

        for root in roots {
            let mut state = InteractionState::from_root(root);
            state.document_loaded();
            assert_eq!(workspace(state), expected);
            assert_eq!(
                state.projection().overlays,
                match root {
                    RootState::Active(_) => vec![],
                    RootState::Unsaved { action, .. } => vec![Overlay::Unsaved(action)],
                    RootState::Help {
                        resume: HelpResume::Active(_),
                    } => vec![Overlay::Help],
                    RootState::Help {
                        resume: HelpResume::Unsaved { action, .. },
                    } => vec![Overlay::Unsaved(action), Overlay::Help],
                }
            );
        }
    }
}

#[test]
fn preview_cancel_clears_pending_and_normalizes_every_suspended_visual_mode() {
    let variants = [
        canvas(PreviewMode::Visual),
        PreviewState::Note {
            resume: PreviewMode::Visual,
        },
        PreviewState::Find {
            resume: FindResume::Canvas(PreviewMode::Visual),
        },
        PreviewState::Find {
            resume: FindResume::Note(PreviewMode::Visual),
        },
    ];
    let expected = [
        canvas(PreviewMode::View),
        PreviewState::Note {
            resume: PreviewMode::View,
        },
        PreviewState::Find {
            resume: FindResume::Canvas(PreviewMode::View),
        },
        PreviewState::Find {
            resume: FindResume::Note(PreviewMode::View),
        },
    ];

    for (variant, expected) in variants.into_iter().zip(expected) {
        for wrap in [
            editable_preview as fn(PreviewState) -> Workspace,
            Workspace::PreviewOnly,
        ] {
            let mut state = active(wrap(variant));
            assert_eq!(state.cancel_preview(), Ok(()));
            assert_eq!(workspace(state), wrap(expected));
        }
    }

    let mut pending = counted_canvas(PreviewMode::View, 4);
    assert_eq!(pending.projection().pending_count(), Some(4));
    assert_eq!(pending.cancel_preview(), Ok(()));
    assert_eq!(pending.projection().pending_count(), None);

    let mut write = InteractionState::editable();
    let before = write;
    assert_eq!(
        write.cancel_preview(),
        Err(TransitionError::RequiresPreview)
    );
    assert_eq!(write, before);
}

/// Two count digits typed on the canvas make one multi-digit count.
#[test]
fn input_commands_stay_grouped_and_preserve_multi_digit_counts() {
    let mut state = active(editable_preview(canvas(PreviewMode::View)));
    state.push_count_digit(1);
    state.push_count_digit(0);
    assert_eq!(state.projection().pending_count(), Some(10));
}

/// Closing find over an open note leaves the note open beneath.
#[test]
fn closing_find_above_note_restores_the_note_layer() {
    let mut state = active(editable_preview(canvas(PreviewMode::View)));
    assert_eq!(state.open_note(), Ok(()));
    state.open_find();

    let projection = state.projection();
    assert!(projection.contains(Overlay::Note));
    assert_eq!(projection.overlay(), Some(Overlay::Find));

    let _ = state.close_find();
    let projection = state.projection();
    assert_eq!(projection.overlay(), Some(Overlay::Note));
    assert!(!projection.contains(Overlay::Find));
}

/// Switching to the write surface and back keeps an open find popup.
#[test]
fn preview_toggle_preserves_an_open_find_across_surfaces() {
    let mut state = active(editable_preview(canvas(PreviewMode::View)));
    state.open_find();

    assert!(state.toggle_preview());
    assert_eq!(state.projection().surface(), Surface::Write);
    assert!(state.projection().contains(Overlay::Find));

    assert!(state.toggle_preview());
    assert_eq!(state.projection().surface(), Surface::Preview);
    assert!(state.projection().contains(Overlay::Find));
}
