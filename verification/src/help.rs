//! The shortcuts Help window's state and vocabulary: the query that
//! filters the list, every keyboard shortcut the application handles, and
//! the filter itself.
use crate::editing::{char_matches, found_at, occurrence_ranges, occurrences, same_char};
use crate::text::ascii_ci_seq_eq;
use crate::bindings::{global_command, GlobalContext, KeyShape};
use crate::command::{
    Command, CommentsCommand, DocumentCommand, FindCommand, PreviewCommand,
};
use crate::text::chars_of;
use vstd::prelude::*;

verus! {

/// State owned by the Help window: the live shortcut filter.
#[derive(Debug, Default)]
pub struct Help {
    query: String,
}

/// Events produced by the widgets inside the Help window.
#[derive(Debug, Clone)]
pub enum Message {
    Open,
    QueryChanged(String),
    CardPressed,
    Close,
}

impl Help {
    /// The query, as the contracts see it.
    pub closed spec fn query_view(&self) -> Seq<char> {
        self.query@
    }

    /// A Help window with an empty query.
    pub fn new() -> (help: Help)
        ensures
            help.query_view() == Seq::<char>::empty(),
    {
        Help { query: String::new() }
    }

    /// The live shortcut filter.
    pub fn query(&self) -> (query: &str)
        ensures
            query@ == self.query_view(),
    {
        self.query.as_str()
    }

    /// Applies a Help-window message. Closing clears the query so the next
    /// visit starts with the full shortcut list.
    pub fn update(&mut self, message: Message)
        ensures
            match message {
                Message::QueryChanged(query) => final(self).query_view() == query@,
                Message::Close => final(self).query_view() == Seq::<char>::empty(),
                _ => final(self).query_view() == old(self).query_view(),
            },
    {
        match message {
            Message::QueryChanged(query) => self.query = query,
            Message::Close => self.query = String::new(),
            Message::Open | Message::CardPressed => {},
        }
    }
}

/// Every keyboard shortcut the application handles, with what it does,
/// in the order the window lists them.
pub open spec fn shortcut_table() -> Seq<(&'static str, &'static str)> {
    seq![
        ("Ctrl + ?", "Open this shortcuts help window."),
        ("Esc", "Close help/popups, leave visual mode, or unfocus a text field."),
        ("Ctrl + O", "Open a Markdown file."),
        ("Ctrl + P", "Toggle between writing and preview mode."),
        ("Ctrl + S", "Save the document; save the note when its popup is open."),
        ("j / k", "Move the focused button while the unsaved-changes dialog is open."),
        ("Enter", "In the unsaved-changes dialog: save the document and proceed."),
        ("Ctrl + F", "Open find in the document."),
        ("/", "Open find from the preview canvas (view or visual mode)."),
        ("Ctrl + G", "Find the next match while find is open."),
        ("Ctrl + B", "Show or hide the comments sidebar."),
        ("Ctrl + N", "Jump to the next saved comment in preview."),
        ("Ctrl + A", "Select all text in the focused editor or field."),
        ("Ctrl + C", "Copy selected text."),
        ("Ctrl + X", "Cut selected text."),
        ("Ctrl + V", "Paste text."),
        ("Arrow keys", "Move the focused text cursor, or the caret in preview."),
        ("Shift + movement keys", "Extend a focused selection while moving."),
        ("Ctrl + ← / →", "Move by words in the focused editor or field."),
        ("Ctrl + Shift + ← / →", "Extend the focused selection by words."),
        ("Home / End", "Move to the start or end of a line or field."),
        ("Ctrl + Home / End", "Move to the start or end of the source document."),
        ("Page Up / Page Down", "Move by pages in the source editor."),
        ("Backspace / Delete", "Delete text before or after the focused cursor."),
        ("h/H · j/J · k/K · l/L", "Move the preview caret left, down, up, or right."),
        ("w/W", "Move to the next word start in preview."),
        ("b/B", "Move to the previous word start in preview."),
        ("e/E", "Move to the next word end in preview."),
        ("0", "Move to the start of the preview element."),
        ("1-9 then motion", "Repeat a preview motion: 3j, 10k, 2h, 3l, 3w, 5G, 3gg."),
        ("Ctrl + D / Ctrl + U", "Scroll the preview half a page down or up."),
        ("Page Up / Page Down", "Scroll the preview a full page."),
        ("z then z/t/b", "Center, top, or bottom the preview around the caret."),
        ("g then e/E", "Move to the previous word end in preview."),
        ("g then g", "Jump to the first preview element."),
        ("G", "Jump to the last preview element."),
        ("v/V", "Toggle visual selection mode in preview."),
        ("c/C", "Open a note popup at the preview caret."),
        ("Enter", "Insert a line break, or find the next match while find is open."),
        ("Shift + Enter", "Find the previous match while find is open."),
        ("Enter (preview)", "Open the active comment for editing."),
        ("Ctrl + Enter", "Add the sidebar draft as a global comment."),
        ("Ctrl + Shift + Enter", "Trigger the sidebar's Publish button."),
    ]
}

/// Every keyboard shortcut the application handles. Keeping the
/// vocabulary beside the window keeps its displayed behavior from drifting
/// away from its filter.
pub fn shortcuts() -> (rows: Vec<(&'static str, &'static str)>)
    ensures
        rows@ == shortcut_table(),
{
    let rows = vec![
        ("Ctrl + ?", "Open this shortcuts help window."),
        ("Esc", "Close help/popups, leave visual mode, or unfocus a text field."),
        ("Ctrl + O", "Open a Markdown file."),
        ("Ctrl + P", "Toggle between writing and preview mode."),
        ("Ctrl + S", "Save the document; save the note when its popup is open."),
        ("j / k", "Move the focused button while the unsaved-changes dialog is open."),
        ("Enter", "In the unsaved-changes dialog: save the document and proceed."),
        ("Ctrl + F", "Open find in the document."),
        ("/", "Open find from the preview canvas (view or visual mode)."),
        ("Ctrl + G", "Find the next match while find is open."),
        ("Ctrl + B", "Show or hide the comments sidebar."),
        ("Ctrl + N", "Jump to the next saved comment in preview."),
        ("Ctrl + A", "Select all text in the focused editor or field."),
        ("Ctrl + C", "Copy selected text."),
        ("Ctrl + X", "Cut selected text."),
        ("Ctrl + V", "Paste text."),
        ("Arrow keys", "Move the focused text cursor, or the caret in preview."),
        ("Shift + movement keys", "Extend a focused selection while moving."),
        ("Ctrl + ← / →", "Move by words in the focused editor or field."),
        ("Ctrl + Shift + ← / →", "Extend the focused selection by words."),
        ("Home / End", "Move to the start or end of a line or field."),
        ("Ctrl + Home / End", "Move to the start or end of the source document."),
        ("Page Up / Page Down", "Move by pages in the source editor."),
        ("Backspace / Delete", "Delete text before or after the focused cursor."),
        ("h/H · j/J · k/K · l/L", "Move the preview caret left, down, up, or right."),
        ("w/W", "Move to the next word start in preview."),
        ("b/B", "Move to the previous word start in preview."),
        ("e/E", "Move to the next word end in preview."),
        ("0", "Move to the start of the preview element."),
        ("1-9 then motion", "Repeat a preview motion: 3j, 10k, 2h, 3l, 3w, 5G, 3gg."),
        ("Ctrl + D / Ctrl + U", "Scroll the preview half a page down or up."),
        ("Page Up / Page Down", "Scroll the preview a full page."),
        ("z then z/t/b", "Center, top, or bottom the preview around the caret."),
        ("g then e/E", "Move to the previous word end in preview."),
        ("g then g", "Jump to the first preview element."),
        ("G", "Jump to the last preview element."),
        ("v/V", "Toggle visual selection mode in preview."),
        ("c/C", "Open a note popup at the preview caret."),
        ("Enter", "Insert a line break, or find the next match while find is open."),
        ("Shift + Enter", "Find the previous match while find is open."),
        ("Enter (preview)", "Open the active comment for editing."),
        ("Ctrl + Enter", "Add the sidebar draft as a global comment."),
        ("Ctrl + Shift + Enter", "Trigger the sidebar's Publish button."),
    ];
    assert(rows@ =~= shortcut_table());
    rows
}

/// Whether `query` occurs in `text`, ignoring ASCII case.
pub open spec fn mentions(text: Seq<char>, query: Seq<char>) -> bool {
    occurrence_ranges(text, query, same_char()).len() > 0
}

/// Whether a row matches the query: every row matches an empty query;
/// otherwise the query occurs in either column, ignoring ASCII case like
/// document find.
pub open spec fn row_matches(row: (&'static str, &'static str), query: Seq<char>) -> bool {
    query.len() == 0 || mentions(row.0@, query) || mentions(row.1@, query)
}

/// The rows of `rows` matching `query`, in order.
pub open spec fn matching(rows: Seq<(&'static str, &'static str)>, query: Seq<char>) -> Seq<
    (&'static str, &'static str),
> {
    rows.filter(|row: (&'static str, &'static str)| row_matches(row, query))
}

/// Whether `query` occurs in `text`, ignoring ASCII case.
fn mentions_exec(text: &str, query: &Vec<char>) -> (found: bool)
    ensures
        found == mentions(text@, query@),
{
    let chars = chars_of(text);
    let ranges = char_matches(&chars, query);
    ranges.len() > 0
}

/// The shortcut rows matching `query` over either column.
pub fn matches(query: &str) -> (found: Vec<(&'static str, &'static str)>)
    ensures
        found@ == matching(shortcut_table(), query@),
{
    let rows = shortcuts();
    let needle = chars_of(query);
    let ghost pred = |row: (&'static str, &'static str)| row_matches(row, query@);
    let mut found: Vec<(&'static str, &'static str)> = Vec::new();
    let mut k: usize = 0;
    while k < rows.len()
        invariant
            k <= rows@.len(),
            rows@ == shortcut_table(),
            needle@ == query@,
            pred == (|row: (&'static str, &'static str)| row_matches(row, query@)),
            found@ == rows@.take(k as int).filter(pred),
        decreases rows@.len() - k,
    {
        let row = rows[k];
        let keep = needle.len() == 0 || mentions_exec(row.0, &needle) || mentions_exec(row.1, &needle);
        proof {
            reveal(Seq::filter);
            assert(rows@.take(k + 1).drop_last() =~= rows@.take(k as int));
            assert(rows@.take(k + 1).last() == row);
        }
        if keep {
            found.push(row);
        }
        k += 1;
    }
    assert(rows@.take(rows@.len() as int) =~= rows@);
    found
}


proof fn lemma_occurrences_ignore_case(text: Seq<char>, a: Seq<char>, b: Seq<char>, from: int)
    requires
        ascii_ci_seq_eq(a, b),
    ensures
        occurrences(text, a, from, same_char()) == occurrences(text, b, from, same_char()),
    decreases text.len() - from,
{
    if !(a.len() == 0 || from < 0 || from + a.len() > text.len()) {
        assert(found_at(text, a, from, same_char()) == found_at(text, b, from, same_char())) by {
            assert forall|j: int| 0 <= j < a.len() implies (same_char()(text[from + j], a[j])
                <==> same_char()(text[from + j], b[j])) by {
                assert(crate::text::ascii_ci_eq(a[j], b[j]));
            }
        }
        lemma_occurrences_ignore_case(text, a, b, from + a.len());
        lemma_occurrences_ignore_case(text, a, b, from + 1);
    }
}

/// Help's search ignores ASCII case: two queries that differ only in the
/// case of ASCII letters list the same rows, in the same order.
pub proof fn law_matches_ignore_ascii_case(a: Seq<char>, b: Seq<char>)
    requires
        ascii_ci_seq_eq(a, b),
    ensures
        matching(shortcut_table(), a) == matching(shortcut_table(), b),
{
    assert forall|row: (&'static str, &'static str)| row_matches(row, a) == row_matches(row, b) by {
        lemma_occurrences_ignore_case(row.0@, a, b, 0);
        lemma_occurrences_ignore_case(row.1@, a, b, 0);
    }
    let pa = |row: (&'static str, &'static str)| row_matches(row, a);
    let pb = |row: (&'static str, &'static str)| row_matches(row, b);
    assert(pa =~= pb);
}

/// A query that no row's shortcut or description holds lists nothing, and
/// the empty query lists every row.
pub proof fn law_matches_nothing_or_everything(query: Seq<char>)
    ensures
        query.len() > 0 && (forall|i: int|
            0 <= i < shortcut_table().len() ==> !mentions(#[trigger] shortcut_table()[i].0@, query)
                && !mentions(shortcut_table()[i].1@, query)) ==> matching(shortcut_table(), query).len()
            == 0,
        query.len() == 0 ==> matching(shortcut_table(), query) == shortcut_table(),
{
    let rows = shortcut_table();
    let pred = |row: (&'static str, &'static str)| row_matches(row, query);
    if query.len() > 0 && (forall|i: int|
        0 <= i < rows.len() ==> !mentions(#[trigger] rows[i].0@, query) && !mentions(rows[i].1@, query)) {
        assert(rows.all(|x: (&'static str, &'static str)| !pred(x)));
        rows.lemma_all_neg_filter_empty(pred);
    }
    if query.len() == 0 {
        lemma_filter_all(rows, pred);
    }
}

proof fn lemma_filter_all<A>(rows: Seq<A>, pred: spec_fn(A) -> bool)
    requires
        forall|x: A| #[trigger] pred(x),
    ensures
        rows.filter(pred) == rows,
    decreases rows.len(),
{
    reveal(Seq::filter);
    if rows.len() > 0 {
        lemma_filter_all(rows.drop_last(), pred);
        assert(rows.drop_last().push(rows.last()) =~= rows);
    }
}


/// The label a table row gives the Ctrl chord on `letter`.
pub open spec fn chord_label(letter: char) -> Seq<char> {
    "Ctrl + "@.push(letter)
}

/// What each command bound to a Ctrl chord does, in the words of the
/// shortcut table.
pub open spec fn described(command: Command) -> Seq<char> {
    match command {
        Command::Document(DocumentCommand::Open) => "Open a Markdown file."@,
        Command::Document(DocumentCommand::Save) => "Save the document; save the note when its popup is open."@,
        Command::Preview(PreviewCommand::Toggle) => "Toggle between writing and preview mode."@,
        Command::Preview(PreviewCommand::ScrollPage(_, _)) => "Scroll the preview half a page down or up."@,
        Command::Comments(CommentsCommand::ToggleSidebar) => "Show or hide the comments sidebar."@,
        Command::Comments(CommentsCommand::Next) => "Jump to the next saved comment in preview."@,
        Command::Comments(CommentsCommand::AddGlobal) => "Add the sidebar draft as a global comment."@,
        Command::Comments(CommentsCommand::Publish) => "Trigger the sidebar's Publish button."@,
        Command::Find(FindCommand::Open) => "Open find in the document."@,
        Command::Find(FindCommand::Next) => "Find the next match while find is open."@,
        _ => seq![],
    }
}

/// The table describes the bindings: a row labelled with the Ctrl chord
/// on a letter says what the application-wide binding of that chord
/// does, in every context where the chord is bound.
pub proof fn law_chord_rows_describe_their_bindings(i: int, letter: char, context: GlobalContext)
    requires
        0 <= i < shortcut_table().len(),
        'A' <= letter <= 'Z',
        shortcut_table()[i].0@ == chord_label(letter),
        global_command(context, KeyShape::Char(letter), false) is Some,
    ensures
        shortcut_table()[i].1@ == described(global_command(context, KeyShape::Char(letter), false)->0),
{
    reveal_strlit("Ctrl + ");
    assert(chord_label(letter).len() == 8);
    assert(chord_label(letter)[7] == letter);
    if i == 0 {
        assert(shortcut_table()[i] == ("Ctrl + ?", "Open this shortcuts help window."));
        reveal_strlit("Ctrl + ?");
        assert("Ctrl + ?"@[7] == letter);
    } else if i == 1 {
        assert(shortcut_table()[i] == ("Esc", "Close help/popups, leave visual mode, or unfocus a text field."));
        reveal_strlit("Esc");
    } else if i == 2 {
        assert(shortcut_table()[i] == ("Ctrl + O", "Open a Markdown file."));
        reveal_strlit("Ctrl + O");
        assert("Ctrl + O"@[7] == letter);
    } else if i == 3 {
        assert(shortcut_table()[i] == ("Ctrl + P", "Toggle between writing and preview mode."));
        reveal_strlit("Ctrl + P");
        assert("Ctrl + P"@[7] == letter);
    } else if i == 4 {
        assert(shortcut_table()[i] == ("Ctrl + S", "Save the document; save the note when its popup is open."));
        reveal_strlit("Ctrl + S");
        assert("Ctrl + S"@[7] == letter);
    } else if i == 5 {
        assert(shortcut_table()[i] == ("j / k", "Move the focused button while the unsaved-changes dialog is open."));
        reveal_strlit("j / k");
    } else if i == 6 {
        assert(shortcut_table()[i] == ("Enter", "In the unsaved-changes dialog: save the document and proceed."));
        reveal_strlit("Enter");
    } else if i == 7 {
        assert(shortcut_table()[i] == ("Ctrl + F", "Open find in the document."));
        reveal_strlit("Ctrl + F");
        assert("Ctrl + F"@[7] == letter);
    } else if i == 8 {
        assert(shortcut_table()[i] == ("/", "Open find from the preview canvas (view or visual mode)."));
        reveal_strlit("/");
    } else if i == 9 {
        assert(shortcut_table()[i] == ("Ctrl + G", "Find the next match while find is open."));
        reveal_strlit("Ctrl + G");
        assert("Ctrl + G"@[7] == letter);
    } else if i == 10 {
        assert(shortcut_table()[i] == ("Ctrl + B", "Show or hide the comments sidebar."));
        reveal_strlit("Ctrl + B");
        assert("Ctrl + B"@[7] == letter);
    } else if i == 11 {
        assert(shortcut_table()[i] == ("Ctrl + N", "Jump to the next saved comment in preview."));
        reveal_strlit("Ctrl + N");
        assert("Ctrl + N"@[7] == letter);
    } else if i == 12 {
        assert(shortcut_table()[i] == ("Ctrl + A", "Select all text in the focused editor or field."));
        reveal_strlit("Ctrl + A");
        assert("Ctrl + A"@[7] == letter);
    } else if i == 13 {
        assert(shortcut_table()[i] == ("Ctrl + C", "Copy selected text."));
        reveal_strlit("Ctrl + C");
        assert("Ctrl + C"@[7] == letter);
    } else if i == 14 {
        assert(shortcut_table()[i] == ("Ctrl + X", "Cut selected text."));
        reveal_strlit("Ctrl + X");
        assert("Ctrl + X"@[7] == letter);
    } else if i == 15 {
        assert(shortcut_table()[i] == ("Ctrl + V", "Paste text."));
        reveal_strlit("Ctrl + V");
        assert("Ctrl + V"@[7] == letter);
    } else if i == 16 {
        assert(shortcut_table()[i] == ("Arrow keys", "Move the focused text cursor, or the caret in preview."));
        reveal_strlit("Arrow keys");
    } else if i == 17 {
        assert(shortcut_table()[i] == ("Shift + movement keys", "Extend a focused selection while moving."));
        reveal_strlit("Shift + movement keys");
    } else if i == 18 {
        assert(shortcut_table()[i] == ("Ctrl + ← / →", "Move by words in the focused editor or field."));
        reveal_strlit("Ctrl + ← / →");
    } else if i == 19 {
        assert(shortcut_table()[i] == ("Ctrl + Shift + ← / →", "Extend the focused selection by words."));
        reveal_strlit("Ctrl + Shift + ← / →");
    } else if i == 20 {
        assert(shortcut_table()[i] == ("Home / End", "Move to the start or end of a line or field."));
        reveal_strlit("Home / End");
    } else if i == 21 {
        assert(shortcut_table()[i] == ("Ctrl + Home / End", "Move to the start or end of the source document."));
        reveal_strlit("Ctrl + Home / End");
    } else if i == 22 {
        assert(shortcut_table()[i] == ("Page Up / Page Down", "Move by pages in the source editor."));
        reveal_strlit("Page Up / Page Down");
    } else if i == 23 {
        assert(shortcut_table()[i] == ("Backspace / Delete", "Delete text before or after the focused cursor."));
        reveal_strlit("Backspace / Delete");
    } else if i == 24 {
        assert(shortcut_table()[i] == ("h/H · j/J · k/K · l/L", "Move the preview caret left, down, up, or right."));
        reveal_strlit("h/H · j/J · k/K · l/L");
    } else if i == 25 {
        assert(shortcut_table()[i] == ("w/W", "Move to the next word start in preview."));
        reveal_strlit("w/W");
    } else if i == 26 {
        assert(shortcut_table()[i] == ("b/B", "Move to the previous word start in preview."));
        reveal_strlit("b/B");
    } else if i == 27 {
        assert(shortcut_table()[i] == ("e/E", "Move to the next word end in preview."));
        reveal_strlit("e/E");
    } else if i == 28 {
        assert(shortcut_table()[i] == ("0", "Move to the start of the preview element."));
        reveal_strlit("0");
    } else if i == 29 {
        assert(shortcut_table()[i] == ("1-9 then motion", "Repeat a preview motion: 3j, 10k, 2h, 3l, 3w, 5G, 3gg."));
        reveal_strlit("1-9 then motion");
    } else if i == 30 {
        assert(shortcut_table()[i] == ("Ctrl + D / Ctrl + U", "Scroll the preview half a page down or up."));
        reveal_strlit("Ctrl + D / Ctrl + U");
    } else if i == 31 {
        assert(shortcut_table()[i] == ("Page Up / Page Down", "Scroll the preview a full page."));
        reveal_strlit("Page Up / Page Down");
    } else if i == 32 {
        assert(shortcut_table()[i] == ("z then z/t/b", "Center, top, or bottom the preview around the caret."));
        reveal_strlit("z then z/t/b");
    } else if i == 33 {
        assert(shortcut_table()[i] == ("g then e/E", "Move to the previous word end in preview."));
        reveal_strlit("g then e/E");
    } else if i == 34 {
        assert(shortcut_table()[i] == ("g then g", "Jump to the first preview element."));
        reveal_strlit("g then g");
    } else if i == 35 {
        assert(shortcut_table()[i] == ("G", "Jump to the last preview element."));
        reveal_strlit("G");
    } else if i == 36 {
        assert(shortcut_table()[i] == ("v/V", "Toggle visual selection mode in preview."));
        reveal_strlit("v/V");
    } else if i == 37 {
        assert(shortcut_table()[i] == ("c/C", "Open a note popup at the preview caret."));
        reveal_strlit("c/C");
    } else if i == 38 {
        assert(shortcut_table()[i] == ("Enter", "Insert a line break, or find the next match while find is open."));
        reveal_strlit("Enter");
    } else if i == 39 {
        assert(shortcut_table()[i] == ("Shift + Enter", "Find the previous match while find is open."));
        reveal_strlit("Shift + Enter");
    } else if i == 40 {
        assert(shortcut_table()[i] == ("Enter (preview)", "Open the active comment for editing."));
        reveal_strlit("Enter (preview)");
    } else if i == 41 {
        assert(shortcut_table()[i] == ("Ctrl + Enter", "Add the sidebar draft as a global comment."));
        reveal_strlit("Ctrl + Enter");
    } else if i == 42 {
        assert(shortcut_table()[i] == ("Ctrl + Shift + Enter", "Trigger the sidebar's Publish button."));
        reveal_strlit("Ctrl + Shift + Enter");
    }
}

} // verus!
