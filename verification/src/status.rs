//! The words of the status line: the yank report and the ruler's
//! progress through the document.
use crate::text::{decimal, decimal_string, grapheme_clusters, graphemes, push_str_chars};
use vstd::prelude::*;

verus! {

/// Vim's report for a charwise yank of `characters` characters, with the
/// singular form for one.
pub open spec fn yank_wording_spec(characters: nat) -> Seq<char> {
    if characters == 1 {
        "1 character yanked"@
    } else {
        decimal(characters) + " characters yanked"@
    }
}

/// Vim's report for a charwise yank of `characters` characters.
pub fn yank_wording(characters: usize) -> (report: String)
    ensures
        report@ == yank_wording_spec(characters as nat),
{
    if characters == 1 {
        "1 character yanked".to_owned()
    } else {
        let mut report = decimal_string(characters);
        push_str_chars(&mut report, " characters yanked");
        report
    }
}

/// The yank report for `text`: counted like the editor counts, one
/// character per grapheme cluster.
pub fn yank_report(text: &str) -> (report: String)
    ensures
        report@ == yank_wording_spec(grapheme_clusters(text@).len()),
{
    let clusters = graphemes(text);
    yank_wording(clusters.len())
}

/// The ruler's progress, as Lualine words it: `Top` on the first line,
/// `Bot` from the last line on, and otherwise the caret line's share of
/// the source lines in whole percent.
pub open spec fn progress_spec(line: nat, total: nat) -> Seq<char> {
    if line == 1 {
        "Top"@
    } else if line >= total {
        "Bot"@
    } else {
        decimal(line * 100 / total) + "%"@
    }
}

/// The ruler's progress: caret line against total source lines, not the
/// viewport's scroll position.
pub fn progress(line: usize, total: usize) -> (words: String)
    requires
        line == 1 || line >= total || line * 100 <= usize::MAX,
    ensures
        words@ == progress_spec(line as nat, total as nat),
{
    if line == 1 {
        "Top".to_owned()
    } else if line >= total {
        "Bot".to_owned()
    } else {
        let mut words = decimal_string(line * 100 / total);
        push_str_chars(&mut words, "%");
        words
    }
}

} // verus!
