use agmawrite::cli::{parse_args, usage, Args, ParseOutcome};

fn strings(args: &[&str]) -> Vec<String> {
    args.iter().map(ToString::to_string).collect()
}

#[test]
fn no_arguments_runs_with_defaults() {
    assert_eq!(
        parse_args(Vec::new()),
        Ok(ParseOutcome::Run(Args {
            path: None,
            preview: false,
        }))
    );
}

#[test]
fn one_file_runs_in_write_mode() {
    assert_eq!(
        parse_args(strings(&["notes.md"])),
        Ok(ParseOutcome::Run(Args {
            path: Some("notes.md".to_string()),
            preview: false,
        }))
    );
}

#[test]
fn file_and_preview_are_accepted_in_either_order() {
    let expected = Ok(ParseOutcome::Run(Args {
        path: Some("notes.md".to_string()),
        preview: true,
    }));

    assert_eq!(parse_args(strings(&["notes.md", "--preview"])), expected);
    assert_eq!(parse_args(strings(&["--preview", "notes.md"])), expected);
}

#[test]
fn preview_requires_a_file() {
    assert_eq!(
        parse_args(strings(&["--preview"])),
        Err("--preview requires a FILE".to_string())
    );
}

#[test]
fn duplicate_file_arguments_are_rejected() {
    assert_eq!(
        parse_args(strings(&["one.md", "two.md"])),
        Err("unexpected extra file argument".to_string())
    );
}

#[test]
fn unknown_flags_are_rejected() {
    assert_eq!(
        parse_args(strings(&["--unknown"])),
        Err("unexpected argument '--unknown'".to_string())
    );
}

#[test]
fn short_and_long_help_return_help_outcome() {
    assert_eq!(parse_args(strings(&["-h"])), Ok(ParseOutcome::Help));
    assert_eq!(parse_args(strings(&["--help"])), Ok(ParseOutcome::Help));
}

#[test]
fn help_wins_over_every_other_argument() {
    assert_eq!(
        parse_args(strings(&["--unknown", "one.md", "two.md", "--help"])),
        Ok(ParseOutcome::Help)
    );
}

#[test]
fn a_lone_dash_is_an_unexpected_argument() {
    assert_eq!(
        parse_args(strings(&["-"])),
        Err("unexpected argument '-'".to_string())
    );
}

#[test]
fn usage_names_the_program_and_its_options() {
    let text = usage();
    assert!(text.starts_with("Usage: agmawrite [FILE] [--preview]"));
    assert!(text.contains("-h, --help"));
}
