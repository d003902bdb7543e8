//! Command-line arguments: an optional Markdown file and `--preview`.
use crate::text::{chars_of, push_char, push_str_chars};
use vstd::prelude::*;

verus! {

/// Command-line arguments used to configure the editor at startup.
#[derive(Debug, Clone, PartialEq, Eq)]
pub struct Args {
    pub path: Option<String>,
    pub preview: bool,
}

/// A successfully parsed command line either starts the application or prints
/// help without booting it.
#[derive(Debug, Clone, PartialEq, Eq)]
pub enum ParseOutcome {
    Run(Args),
    Help,
}

/// The usage text `--help` prints.
pub open spec fn usage_spec() -> Seq<char> {
    "Usage: agmawrite [FILE] [--preview]

Arguments:
  FILE         Path to a Markdown file to open

Options:
  --preview    Open FILE in preview-only mode; editing and switching to
               write mode are disabled
  -h, --help   Print this message"@
}

/// The usage text `--help` prints.
pub fn usage() -> (text: &'static str)
    ensures
        text@ == usage_spec(),
{
    "Usage: agmawrite [FILE] [--preview]

Arguments:
  FILE         Path to a Markdown file to open

Options:
  --preview    Open FILE in preview-only mode; editing and switching to
               write mode are disabled
  -h, --help   Print this message"
}

/// Whether an argument asks for help.
pub open spec fn is_help_flag(arg: Seq<char>) -> bool {
    arg == "-h"@ || arg == "--help"@
}

/// Whether an argument names a file: anything not starting with `-`.
pub open spec fn is_path(arg: Seq<char>) -> bool {
    arg.len() == 0 || arg[0] != '-'
}

/// The error for an argument that is neither a file nor a known flag.
pub open spec fn unexpected_argument(arg: Seq<char>) -> Seq<char> {
    "unexpected argument '"@ + arg + "'"@
}

/// Reads the arguments from `i` on, given the path and flag read so far:
/// `--preview` sets the flag, a file fills the path (a second file is an
/// error), and any other flag is an error. The first error wins.
pub open spec fn scan(
    argv: Seq<Seq<char>>,
    i: int,
    path: Option<Seq<char>>,
    preview: bool,
) -> Result<(Option<Seq<char>>, bool), Seq<char>>
    decreases argv.len() - i,
{
    if i < 0 || i >= argv.len() {
        Ok((path, preview))
    } else if argv[i] == "--preview"@ {
        scan(argv, i + 1, path, true)
    } else if is_path(argv[i]) {
        if path is Some {
            Err("unexpected extra file argument"@)
        } else {
            scan(argv, i + 1, Some(argv[i]), preview)
        }
    } else {
        Err(unexpected_argument(argv[i]))
    }
}

/// What a command line means: help when any argument asks for it, else the
/// scanned arguments, where `--preview` needs a file.
pub open spec fn parse_spec(argv: Seq<Seq<char>>) -> Result<Option<(Option<Seq<char>>, bool)>, Seq<char>> {
    if exists|i: int| 0 <= i < argv.len() && is_help_flag(#[trigger] argv[i]) {
        Ok(None)
    } else {
        match scan(argv, 0, None, false) {
            Err(message) => Err(message),
            Ok((path, preview)) => if preview && path is None {
                Err("--preview requires a FILE"@)
            } else {
                Ok(Some((path, preview)))
            },
        }
    }
}

/// The views of a vector of strings.
pub open spec fn string_views(argv: Seq<String>) -> Seq<Seq<char>> {
    argv.map_values(|arg: String| arg@)
}

fn same_chars(a: &Vec<char>, b: &Vec<char>) -> (equal: bool)
    ensures
        equal == (a@ == b@),
{
    if a.len() != b.len() {
        return false;
    }
    let mut i: usize = 0;
    while i < a.len()
        invariant
            a@.len() == b@.len(),
            i <= a@.len(),
            forall|k: int| 0 <= k < i ==> a@[k] == b@[k],
        decreases a@.len() - i,
    {
        if a[i] != b[i] {
            return false;
        }
        i += 1;
    }
    assert(a@ =~= b@);
    true
}

fn is_literal(arg: &Vec<char>, literal: &str) -> (equal: bool)
    ensures
        equal == (arg@ == literal@),
{
    let expected = chars_of(literal);
    same_chars(arg, &expected)
}

fn literal(text: &str) -> (owned: String)
    ensures
        owned@ == text@,
{
    text.to_owned()
}

/// Parses command-line arguments without printing or terminating the process.
pub fn parse_args(argv: Vec<String>) -> (outcome: Result<ParseOutcome, String>)
    ensures
        match parse_spec(string_views(argv@)) {
            Ok(None) => outcome == Ok::<ParseOutcome, String>(ParseOutcome::Help),
            Ok(Some((path, preview))) => outcome matches Ok(ParseOutcome::Run(args)) && args.preview
                == preview && match (args.path, path) {
                (None, None) => true,
                (Some(p), Some(q)) => p@ == q,
                _ => false,
            },
            Err(message) => outcome matches Err(text) && text@ == message,
        },
{
    let ghost views = string_views(argv@);
    let mut i: usize = 0;
    while i < argv.len()
        invariant
            i <= argv@.len(),
            views == string_views(argv@),
            forall|k: int| 0 <= k < i ==> !is_help_flag(#[trigger] views[k]),
        decreases argv@.len() - i,
    {
        let arg = chars_of(argv[i].as_str());
        if is_literal(&arg, "-h") || is_literal(&arg, "--help") {
            assert(is_help_flag(views[i as int]));
            return Ok(ParseOutcome::Help);
        }
        i += 1;
    }
    let mut path: Option<String> = None;
    let mut preview = false;
    let mut i: usize = 0;
    while i < argv.len()
        invariant
            i <= argv@.len(),
            views == string_views(argv@),
            forall|k: int| 0 <= k < argv@.len() ==> !is_help_flag(#[trigger] views[k]),
            scan(views, 0, None, false) == scan(
                views,
                i as int,
                match path {
                    Some(p) => Some(p@),
                    None => None,
                },
                preview,
            ),
        decreases argv@.len() - i,
    {
        let arg = chars_of(argv[i].as_str());
        if is_literal(&arg, "--preview") {
            preview = true;
        } else if arg.len() == 0 || arg[0] != '-' {
            if path.is_some() {
                return Err(literal("unexpected extra file argument"));
            }
            path = Some(argv[i].clone());
        } else {
            let mut message = literal("unexpected argument '");
            push_str_chars(&mut message, argv[i].as_str());
            push_char(&mut message, '\'');
            proof {
                reveal_strlit("'");
                assert(message@ =~= unexpected_argument(views[i as int]));
            }
            return Err(message);
        }
        i += 1;
    }
    if preview && path.is_none() {
        return Err(literal("--preview requires a FILE"));
    }
    Ok(ParseOutcome::Run(Args { path, preview }))
}


/// Preview-only mode needs a file: every command line that starts the
/// editor in preview-only mode names one.
pub proof fn law_preview_needs_a_file(argv: Seq<Seq<char>>)
    ensures
        parse_spec(argv) matches Ok(Some((file, true))) ==> file is Some,
{
}

} // verus!
