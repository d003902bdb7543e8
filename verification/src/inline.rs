//! The inline punctuation of a Markdown line: code-span backticks,
//! emphasis and strikethrough delimiters, and link or image brackets.
//! Ranges are half-open character ranges.
use crate::scan::{
    count_run, lemma_run_of, lemma_sort_pairs_within, pair_key, pairs_within, run_of, sort_by,
    sort_pairs_by_start,
};
use crate::text::{is_alphanumeric, is_whitespace, unicode_alphanumeric, unicode_whitespace};
use vstd::prelude::*;

verus! {

// ---------------------------------------------------------------------------
// Character classes.
// ---------------------------------------------------------------------------

/// Whether the character at `index` is escaped by a preceding backslash.
pub open spec fn escaped_spec(s: Seq<char>, index: int) -> bool {
    index > 0 && s[index - 1] == '\\'
}

/// Markdown treats everything that is neither a letter, a digit, nor
/// whitespace as punctuation — including its own marker characters.
pub open spec fn punctuation(c: char) -> bool {
    !unicode_alphanumeric(c) && !unicode_whitespace(c)
}

pub open spec fn punctuation_or_whitespace(c: char) -> bool {
    punctuation(c) || unicode_whitespace(c)
}

/// A delimiter run is left-flanking when it could open emphasis: not
/// followed by whitespace, and not followed by punctuation unless it also
/// follows whitespace or punctuation.
pub open spec fn flanks_left_spec(before: Option<char>, after: Option<char>) -> bool {
    match after {
        Some(next) => !unicode_whitespace(next) && (!punctuation(next) || match before {
            None => true,
            Some(previous) => punctuation_or_whitespace(previous),
        }),
        None => false,
    }
}

/// A delimiter run is right-flanking when it could close emphasis: not
/// preceded by whitespace, and not preceded by punctuation unless it also
/// precedes whitespace or punctuation.
pub open spec fn flanks_right_spec(before: Option<char>, after: Option<char>) -> bool {
    match before {
        Some(previous) => !unicode_whitespace(previous) && (!punctuation(previous) || match after {
            None => true,
            Some(next) => punctuation_or_whitespace(next),
        }),
        None => false,
    }
}

/// Whether the character at `index` is escaped by a preceding backslash.
pub fn escaped(chars: &Vec<char>, index: usize) -> (esc: bool)
    requires
        index <= chars@.len(),
    ensures
        esc == escaped_spec(chars@, index as int),
{
    index > 0 && chars[index - 1] == '\\'
}

pub fn is_punctuation(c: char) -> (punct: bool)
    ensures
        punct == punctuation(c),
{
    !is_alphanumeric(c) && !is_whitespace(c)
}

pub fn is_punctuation_or_whitespace(c: char) -> (either: bool)
    ensures
        either == punctuation_or_whitespace(c),
{
    is_punctuation(c) || is_whitespace(c)
}

pub fn flanks_left(before: Option<char>, after: Option<char>) -> (left: bool)
    ensures
        left == flanks_left_spec(before, after),
{
    match after {
        Some(next) => !is_whitespace(next) && (!is_punctuation(next) || match before {
            None => true,
            Some(previous) => is_punctuation_or_whitespace(previous),
        }),
        None => false,
    }
}

pub fn flanks_right(before: Option<char>, after: Option<char>) -> (right: bool)
    ensures
        right == flanks_right_spec(before, after),
{
    match before {
        Some(previous) => !is_whitespace(previous) && (!is_punctuation(previous) || match after {
            None => true,
            Some(next) => is_punctuation_or_whitespace(next),
        }),
        None => false,
    }
}

/// Whether `offset` sits inside any of `ranges`.
pub open spec fn within_spec(offset: int, ranges: Seq<(usize, usize)>) -> bool {
    exists|k: int| 0 <= k < ranges.len() && (#[trigger] ranges[k]).0 <= offset < ranges[k].1
}

/// Whether `offset` sits inside any of `ranges`.
pub fn within(offset: usize, ranges: &Vec<(usize, usize)>) -> (inside: bool)
    ensures
        inside == within_spec(offset as int, ranges@),
{
    let mut k: usize = 0;
    while k < ranges.len()
        invariant
            k <= ranges@.len(),
            forall|j: int| 0 <= j < k ==> !((#[trigger] ranges@[j]).0 <= offset < ranges@[j].1),
        decreases ranges@.len() - k,
    {
        if ranges[k].0 <= offset && offset < ranges[k].1 {
            return true;
        }
        k += 1;
    }
    false
}

// ---------------------------------------------------------------------------
// Code spans.
// ---------------------------------------------------------------------------

pub proof fn lemma_run_positive(s: Seq<char>, i: int, c: char)
    requires
        0 <= i < s.len(),
        s[i] == c,
    ensures
        1 <= run_of(s.skip(i), c) <= s.len() - i,
{
    assert(s.skip(i)[0] == c);
    lemma_run_of(s.skip(i), c, 0);
}

/// The unescaped backtick runs from `i` on, as `(start, end, length)`.
pub open spec fn tick_runs(s: Seq<char>, i: int) -> Seq<(usize, usize, usize)>
    decreases s.len() - i,
{
    if i < 0 || i >= s.len() {
        seq![]
    } else if s[i] != '`' {
        tick_runs(s, i + 1)
    } else {
        let run = run_of(s.skip(i), '`') as int;
        proof {
            lemma_run_positive(s, i, '`');
        }
        if escaped_spec(s, i) {
            tick_runs(s, i + run)
        } else {
            seq![(i as usize, (i + run) as usize, run as usize)] + tick_runs(s, i + run)
        }
    }
}

/// The first pending run, in pending order, of length `len`.
pub open spec fn first_of_len(
    runs: Seq<(usize, usize, usize)>,
    pending: Seq<usize>,
    len: usize,
    j: int,
) -> Option<int>
    decreases pending.len() - j,
{
    if j < 0 || j >= pending.len() {
        None
    } else if runs[pending[j] as int].2 == len {
        Some(j)
    } else {
        first_of_len(runs, pending, len, j + 1)
    }
}

/// Pairs the runs from `k` on: a run closes the first pending run of the
/// same length, spanning from the opener's start to its own end;
/// otherwise it waits as an opener.
pub open spec fn pair_ticks(
    runs: Seq<(usize, usize, usize)>,
    k: int,
    pending: Seq<usize>,
    spans: Seq<(usize, usize, usize)>,
) -> Seq<(usize, usize, usize)>
    decreases runs.len() - k,
{
    if k < 0 || k >= runs.len() {
        spans
    } else {
        match first_of_len(runs, pending, runs[k].2, 0) {
            Some(j) => pair_ticks(
                runs,
                k + 1,
                pending.remove(j),
                spans.push((runs[pending[j] as int].0, runs[k].1, runs[k].2)),
            ),
            None => pair_ticks(runs, k + 1, pending.push(k as usize), spans),
        }
    }
}

/// The code spans of a line, as `(start, end, run)`: the span covers
/// delimiters and content; `run` is the backtick length of each
/// delimiter. An opening run pairs with the next run of the same length.
pub open spec fn code_spans_spec(s: Seq<char>) -> Seq<(usize, usize, usize)> {
    pair_ticks(tick_runs(s, 0), 0, seq![], seq![])
}

fn collect_tick_runs(chars: &Vec<char>) -> (runs: Vec<(usize, usize, usize)>)
    ensures
        runs@ == tick_runs(chars@, 0),
        well_ordered_runs(runs@, chars@.len() as int),
{
    let mut runs: Vec<(usize, usize, usize)> = Vec::new();
    let mut i: usize = 0;
    while i < chars.len()
        invariant
            i <= chars@.len(),
            tick_runs(chars@, 0) == runs@ + tick_runs(chars@, i as int),
            well_ordered_runs(runs@, i as int),
        decreases chars@.len() - i,
    {
        if chars[i] != '`' {
            i += 1;
        } else {
            let start = i;
            let run = count_run(chars, i, '`');
            proof {
                lemma_run_positive(chars@, i as int, '`');
            }
            i = i + run;
            if !escaped(chars, start) {
                let ghost before = runs@;
                runs.push((start, i, run));
                assert(runs@ + tick_runs(chars@, i as int) =~= before + (seq![(start, i, run)]
                    + tick_runs(chars@, i as int)));
            }
        }
    }
    assert(runs@ + tick_runs(chars@, i as int) =~= runs@);
    runs
}

/// Runs that are non-empty, consistent in length, in order, and within
/// the first `bound` characters.
pub open spec fn well_ordered_runs(runs: Seq<(usize, usize, usize)>, bound: int) -> bool {
    &&& forall|k: int|
        0 <= k < runs.len() ==> (#[trigger] runs[k]).0 < runs[k].1 <= bound && runs[k].1
            == runs[k].0 + runs[k].2
    &&& forall|a: int, b: int| 0 <= a < b < runs.len() ==> (#[trigger] runs[a]).1 <= (#[trigger] runs[b]).0
}

/// Spans whose two delimiters fit inside them, within `bound` characters.
pub open spec fn well_formed_spans(spans: Seq<(usize, usize, usize)>, bound: int) -> bool {
    forall|k: int|
        0 <= k < spans.len() ==> (#[trigger] spans[k]).2 >= 1 && spans[k].0 + spans[k].2
            <= spans[k].1 <= bound && spans[k].2 <= spans[k].1
}

/// The code spans of a line, as `(start, end, run)`.
pub fn code_spans(chars: &Vec<char>) -> (spans: Vec<(usize, usize, usize)>)
    ensures
        spans@ == code_spans_spec(chars@),
        well_formed_spans(spans@, chars@.len() as int),
{
    let runs = collect_tick_runs(chars);
    let mut spans: Vec<(usize, usize, usize)> = Vec::new();
    let mut pending: Vec<usize> = Vec::new();
    let mut k: usize = 0;
    while k < runs.len()
        invariant
            k <= runs@.len(),
            runs@ == tick_runs(chars@, 0),
            well_ordered_runs(runs@, chars@.len() as int),
            forall|j: int| 0 <= j < pending@.len() ==> #[trigger] pending@[j] < k,
            code_spans_spec(chars@) == pair_ticks(runs@, k as int, pending@, spans@),
            well_formed_spans(spans@, chars@.len() as int),
        decreases runs@.len() - k,
    {
        let len = runs[k].2;
        let mut j: usize = 0;
        while j < pending.len() && runs[pending[j]].2 != len
            invariant
                j <= pending@.len(),
                forall|i: int| 0 <= i < pending@.len() ==> #[trigger] pending@[i] < k,
                k < runs@.len(),
                first_of_len(runs@, pending@, len, 0) == first_of_len(
                    runs@,
                    pending@,
                    len,
                    j as int,
                ),
            decreases pending@.len() - j,
        {
            j += 1;
        }
        if j < pending.len() {
            let ghost before = pending@;
            let open = pending.remove(j);
            assert(open == before[j as int]);
            assert(runs@[open as int].1 <= runs@[k as int].0);
            assert forall|i: int| 0 <= i < pending@.len() implies #[trigger] pending@[i] < k + 1 by {
                if i < j {
                    assert(pending@[i] == before[i]);
                } else {
                    assert(pending@[i] == before[i + 1]);
                }
            }
            spans.push((runs[open].0, runs[k].1, len));
        } else {
            pending.push(k);
        }
        k += 1;
    }
    spans
}


// ---------------------------------------------------------------------------
// Emphasis and strikethrough delimiters.
// ---------------------------------------------------------------------------

/// A run of one delimiter character and whether it can open or close.
#[derive(Debug, Clone, Copy, PartialEq, Eq)]
pub struct DelimiterRun {
    pub start: usize,
    pub end: usize,
    pub marker: char,
    pub len: usize,
    pub opens: bool,
    pub closes: bool,
}

pub open spec fn is_delimiter_char(c: char) -> bool {
    c == '*' || c == '_' || c == '~'
}

/// Runs of one to three `*` or `_`, or exactly two `~`.
pub open spec fn valid_run(c: char, len: int) -> bool {
    (c != '~' && 1 <= len <= 3) || (c == '~' && len == 2)
}

/// The character before `index`, if any.
pub open spec fn char_before(s: Seq<char>, index: int) -> Option<char> {
    if 0 < index <= s.len() {
        Some(s[index - 1])
    } else {
        None
    }
}

/// The character at `index`, if any.
pub open spec fn char_at(s: Seq<char>, index: int) -> Option<char> {
    if 0 <= index < s.len() {
        Some(s[index])
    } else {
        None
    }
}

/// Whether an optional character is punctuation.
pub open spec fn is_some_punctuation(c: Option<char>) -> bool {
    match c {
        Some(c) => punctuation(c),
        None => false,
    }
}

/// The delimiter runs from `i` on, outside the code spans: `*` and `~~`
/// open when left-flanking and close when right-flanking, while `_`
/// additionally refuses to open or close between word characters.
pub open spec fn delimiter_runs(s: Seq<char>, code: Seq<(usize, usize)>, i: int) -> Seq<DelimiterRun>
    decreases s.len() - i,
{
    if i < 0 || i >= s.len() {
        seq![]
    } else if !is_delimiter_char(s[i]) || within_spec(i, code) {
        delimiter_runs(s, code, i + 1)
    } else {
        let c = s[i];
        let len = run_of(s.skip(i), c) as int;
        let next = i + len;
        proof {
            lemma_run_positive(s, i, c);
        }
        if !valid_run(c, len) || escaped_spec(s, i) {
            delimiter_runs(s, code, next)
        } else {
            let before = char_before(s, i);
            let after = char_at(s, next);
            let left = flanks_left_spec(before, after);
            let right = flanks_right_spec(before, after);
            let opens = if c == '_' {
                left && (!right || is_some_punctuation(before))
            } else {
                left
            };
            let closes = if c == '_' {
                right && (!left || is_some_punctuation(after))
            } else {
                right
            };
            seq![
                DelimiterRun {
                    start: i as usize,
                    end: next as usize,
                    marker: c,
                    len: len as usize,
                    opens,
                    closes,
                },
            ] + delimiter_runs(s, code, next)
        }
    }
}

/// The first pending opener, in pending order, with the marker and length
/// of `run`.
pub open spec fn first_opener(
    runs: Seq<DelimiterRun>,
    pending: Seq<usize>,
    run: DelimiterRun,
    j: int,
) -> Option<int>
    decreases pending.len() - j,
{
    if j < 0 || j >= pending.len() {
        None
    } else if runs[pending[j] as int].marker == run.marker && runs[pending[j] as int].len
        == run.len {
        Some(j)
    } else {
        first_opener(runs, pending, run, j + 1)
    }
}

/// Pairs the runs from `k` on: a closing run pairs with the first pending
/// opener of the same character and length, dimming both; an opening run
/// that closes nothing waits.
pub open spec fn pair_delimiters(
    runs: Seq<DelimiterRun>,
    k: int,
    pending: Seq<usize>,
    ranges: Seq<(usize, usize)>,
) -> Seq<(usize, usize)>
    decreases runs.len() - k,
{
    if k < 0 || k >= runs.len() {
        ranges
    } else {
        let run = runs[k];
        if run.closes && first_opener(runs, pending, run, 0) is Some {
            let j = first_opener(runs, pending, run, 0)->0;
            let open = runs[pending[j] as int];
            pair_delimiters(
                runs,
                k + 1,
                pending.remove(j),
                ranges.push((open.start, open.end)).push((run.start, run.end)),
            )
        } else if run.opens {
            pair_delimiters(runs, k + 1, pending.push(k as usize), ranges)
        } else {
            pair_delimiters(runs, k + 1, pending, ranges)
        }
    }
}

/// The dimmed delimiter ranges of emphasis, strong emphasis, and
/// strikethrough outside the code spans.
pub open spec fn delimiters_spec(s: Seq<char>, code: Seq<(usize, usize)>) -> Seq<(usize, usize)> {
    pair_delimiters(delimiter_runs(s, code, 0), 0, seq![], seq![])
}

fn collect_delimiter_runs(chars: &Vec<char>, code: &Vec<(usize, usize)>) -> (runs: Vec<DelimiterRun>)
    ensures
        runs@ == delimiter_runs(chars@, code@, 0),
        forall|k: int|
            0 <= k < runs@.len() ==> (#[trigger] runs@[k]).start <= runs@[k].end <= chars@.len(),
{
    let mut runs: Vec<DelimiterRun> = Vec::new();
    let mut index: usize = 0;
    while index < chars.len()
        invariant
            index <= chars@.len(),
            delimiter_runs(chars@, code@, 0) == runs@ + delimiter_runs(chars@, code@, index as int),
            forall|k: int|
                0 <= k < runs@.len() ==> (#[trigger] runs@[k]).start <= runs@[k].end <= chars@.len(),
        decreases chars@.len() - index,
    {
        let character = chars[index];
        if !(character == '*' || character == '_' || character == '~') || within(index, code) {
            index += 1;
        } else {
            let start = index;
            let len = count_run(chars, index, character);
            proof {
                lemma_run_positive(chars@, index as int, character);
            }
            index = index + len;
            let valid = (character != '~' && 1 <= len && len <= 3) || (character == '~' && len == 2);
            if valid && !escaped(chars, start) {
                let before = if start > 0 {
                    Some(chars[start - 1])
                } else {
                    None
                };
                let after = if index < chars.len() {
                    Some(chars[index])
                } else {
                    None
                };
                let left = flanks_left(before, after);
                let right = flanks_right(before, after);
                let before_punct = match before {
                    Some(c) => is_punctuation(c),
                    None => false,
                };
                let after_punct = match after {
                    Some(c) => is_punctuation(c),
                    None => false,
                };
                let opens = if character == '_' {
                    left && (!right || before_punct)
                } else {
                    left
                };
                let closes = if character == '_' {
                    right && (!left || after_punct)
                } else {
                    right
                };
                let run = DelimiterRun { start, end: index, marker: character, len, opens, closes };
                let ghost prev = runs@;
                runs.push(run);
                assert(runs@ + delimiter_runs(chars@, code@, index as int) =~= prev + (seq![run]
                    + delimiter_runs(chars@, code@, index as int)));
            }
        }
    }
    assert(runs@ + delimiter_runs(chars@, code@, index as int) =~= runs@);
    runs
}

/// The dimmed delimiter ranges of emphasis, strong emphasis, and
/// strikethrough outside the code spans.
pub fn delimiters(chars: &Vec<char>, code: &Vec<(usize, usize)>) -> (ranges: Vec<(usize, usize)>)
    ensures
        ranges@ == delimiters_spec(chars@, code@),
        pairs_within(ranges@, chars@.len() as int),
{
    let runs = collect_delimiter_runs(chars, code);
    let mut ranges: Vec<(usize, usize)> = Vec::new();
    let mut pending: Vec<usize> = Vec::new();
    let mut k: usize = 0;
    while k < runs.len()
        invariant
            k <= runs@.len(),
            runs@ == delimiter_runs(chars@, code@, 0),
            forall|j: int| 0 <= j < pending@.len() ==> #[trigger] pending@[j] < k,
            delimiters_spec(chars@, code@) == pair_delimiters(runs@, k as int, pending@, ranges@),
            forall|i: int|
                0 <= i < runs@.len() ==> (#[trigger] runs@[i]).start <= runs@[i].end <= chars@.len(),
            pairs_within(ranges@, chars@.len() as int),
        decreases runs@.len() - k,
    {
        let run = runs[k];
        let mut j: usize = pending.len();
        if run.closes {
            j = 0;
            while j < pending.len() && !(runs[pending[j]].marker == run.marker
                && runs[pending[j]].len == run.len)
                invariant
                    j <= pending@.len(),
                    forall|i: int| 0 <= i < pending@.len() ==> #[trigger] pending@[i] < k,
                    k < runs@.len(),
                    run == runs@[k as int],
                    first_opener(runs@, pending@, run, 0) == first_opener(
                        runs@,
                        pending@,
                        run,
                        j as int,
                    ),
                decreases pending@.len() - j,
            {
                j += 1;
            }
        }
        if run.closes && j < pending.len() {
            let ghost before = pending@;
            let open = pending.remove(j);
            assert(open == before[j as int]);
            assert forall|i: int| 0 <= i < pending@.len() implies #[trigger] pending@[i] < k + 1 by {
                if i < j {
                    assert(pending@[i] == before[i]);
                } else {
                    assert(pending@[i] == before[i + 1]);
                }
            }
            ranges.push((runs[open].start, runs[open].end));
            ranges.push((run.start, run.end));
        } else if run.opens {
            proof {
                if run.closes {
                    assert(first_opener(runs@, pending@, run, j as int) is None);
                }
            }
            pending.push(k);
        } else {
            proof {
                if run.closes {
                    assert(first_opener(runs@, pending@, run, j as int) is None);
                }
            }
        }
        k += 1;
    }
    ranges
}

// ---------------------------------------------------------------------------
// Links and images.
// ---------------------------------------------------------------------------

/// The first unescaped `c` at or after `from`.
pub open spec fn first_unescaped(s: Seq<char>, from: int, c: char) -> Option<int>
    decreases s.len() - from,
{
    if from < 0 || from >= s.len() {
        None
    } else if s[from] == c && !escaped_spec(s, from) {
        Some(from)
    } else {
        first_unescaped(s, from + 1, c)
    }
}

pub proof fn lemma_first_unescaped(s: Seq<char>, from: int, c: char)
    requires
        0 <= from,
    ensures
        first_unescaped(s, from, c) matches Some(at) ==> from <= at < s.len() && s[at] == c,
    decreases s.len() - from,
{
    if from < s.len() && !(s[from] == c && !escaped_spec(s, from)) {
        lemma_first_unescaped(s, from + 1, c);
    }
}

/// The punctuation of the inline links, reference links, and images from
/// `i` on: `[` (with the `!` of an image), the `](` or `][` separator, and
/// the `)` or `]` terminator. Brackets without an address are left alone;
/// an opening bracket that is never closed ends the scan.
pub open spec fn links_from(s: Seq<char>, code: Seq<(usize, usize)>, i: int) -> Seq<(usize, usize)>
    decreases s.len() - i,
{
    if i < 0 || i >= s.len() {
        seq![]
    } else if s[i] != '[' || within_spec(i, code) || escaped_spec(s, i) {
        links_from(s, code, i + 1)
    } else {
        proof {
            lemma_first_unescaped(s, i + 1, ']');
        }
        match first_unescaped(s, i + 1, ']') {
            None => seq![],
            Some(close) => {
                let terminator = if close + 1 < s.len() && s[close + 1] == '(' {
                    first_unescaped(s, close + 2, ')')
                } else if close + 1 < s.len() && s[close + 1] == '[' {
                    first_unescaped(s, close + 2, ']')
                } else {
                    None
                };
                proof {
                    lemma_first_unescaped(s, close + 2, ')');
                    lemma_first_unescaped(s, close + 2, ']');
                }
                match terminator {
                    Some(end) => {
                        let start = if i > 0 && s[i - 1] == '!' {
                            i - 1
                        } else {
                            i
                        };
                        seq![
                            (start as usize, (i + 1) as usize),
                            (close as usize, (close + 2) as usize),
                            (end as usize, (end + 1) as usize),
                        ] + links_from(s, code, end + 1)
                    },
                    None => links_from(s, code, close + 1),
                }
            },
        }
    }
}

/// The first unescaped `c` at or after `from`.
fn find_unescaped(chars: &Vec<char>, from: usize, c: char) -> (found: Option<usize>)
    requires
        from <= chars@.len(),
    ensures
        match (found, first_unescaped(chars@, from as int, c)) {
            (Some(a), Some(b)) => a == b,
            (None, None) => true,
            _ => false,
        },
{
    let mut at = from;
    while at < chars.len()
        invariant
            from <= at <= chars@.len(),
            first_unescaped(chars@, from as int, c) == first_unescaped(chars@, at as int, c),
        decreases chars@.len() - at,
    {
        if chars[at] == c && !escaped(chars, at) {
            return Some(at);
        }
        at += 1;
    }
    None
}

/// The punctuation of a line's inline links, reference links, and images.
pub fn links(chars: &Vec<char>, code: &Vec<(usize, usize)>) -> (ranges: Vec<(usize, usize)>)
    ensures
        ranges@ == links_from(chars@, code@, 0),
        pairs_within(ranges@, chars@.len() as int),
{
    let mut ranges: Vec<(usize, usize)> = Vec::new();
    let mut index: usize = 0;
    while index < chars.len()
        invariant
            index <= chars@.len(),
            links_from(chars@, code@, 0) == ranges@ + links_from(chars@, code@, index as int),
            pairs_within(ranges@, chars@.len() as int),
        decreases chars@.len() - index,
    {
        if chars[index] != '[' || within(index, code) || escaped(chars, index) {
            index += 1;
        } else {
            proof {
                lemma_first_unescaped(chars@, index + 1, ']');
            }
            let close = match find_unescaped(chars, index + 1, ']') {
                Some(close) => close,
                None => {
                    assert(ranges@ + links_from(chars@, code@, index as int) =~= ranges@);
                    return ranges;
                },
            };
            proof {
                lemma_first_unescaped(chars@, close + 2, ')');
                lemma_first_unescaped(chars@, close + 2, ']');
            }
            let terminator = if close + 1 < chars.len() && chars[close + 1] == '(' {
                find_unescaped(chars, close + 2, ')')
            } else if close + 1 < chars.len() && chars[close + 1] == '[' {
                find_unescaped(chars, close + 2, ']')
            } else {
                None
            };
            match terminator {
                Some(end) => {
                    let start = if index > 0 && chars[index - 1] == '!' {
                        index - 1
                    } else {
                        index
                    };
                    let ghost prev = ranges@;
                    let first = (start, index + 1);
                    let second = (close, close + 2);
                    let third = (end, end + 1);
                    ranges.push(first);
                    ranges.push(second);
                    ranges.push(third);
                    assert(ranges@ + links_from(chars@, code@, end + 1) =~= prev + (seq![
                        first,
                        second,
                        third,
                    ] + links_from(chars@, code@, end + 1)));
                    index = end + 1;
                },
                None => {
                    index = close + 1;
                },
            }
        }
    }
    assert(ranges@ + links_from(chars@, code@, index as int) =~= ranges@);
    ranges
}

// ---------------------------------------------------------------------------
// All inline punctuation.
// ---------------------------------------------------------------------------

/// The backtick delimiters at both ends of each code span.
pub open spec fn tick_marks(code: Seq<(usize, usize, usize)>) -> Seq<(usize, usize)>
    decreases code.len(),
{
    if code.len() == 0 {
        seq![]
    } else {
        let span = code.last();
        tick_marks(code.drop_last()).push((span.0, (span.0 + span.2) as usize)).push(
            ((span.1 - span.2) as usize, span.1),
        )
    }
}

/// The spans of the code spans.
pub open spec fn span_ranges(code: Seq<(usize, usize, usize)>) -> Seq<(usize, usize)> {
    code.map_values(|span: (usize, usize, usize)| (span.0, span.1))
}

/// The inline punctuation of a line, sorted by start: code-span backticks,
/// then emphasis and strikethrough delimiters and link punctuation outside
/// the code spans. The code inside a span stays prose.
pub open spec fn inline_ranges_spec(s: Seq<char>) -> Seq<(usize, usize)> {
    let code = code_spans_spec(s);
    let spans = span_ranges(code);
    sort_by(
        tick_marks(code) + delimiters_spec(s, spans) + links_from(s, spans, 0),
        pair_key(),
    )
}

/// The ranges of a line's inline Markdown punctuation.
pub fn inline_ranges(chars: &Vec<char>) -> (ranges: Vec<(usize, usize)>)
    ensures
        ranges@ == inline_ranges_spec(chars@),
        pairs_within(ranges@, chars@.len() as int),
{
    let code = code_spans(chars);
    let mut ranges: Vec<(usize, usize)> = Vec::new();
    let mut spans: Vec<(usize, usize)> = Vec::new();
    let mut k: usize = 0;
    while k < code.len()
        invariant
            k <= code@.len(),
            well_formed_spans(code@, chars@.len() as int),
            ranges@ == tick_marks(code@.take(k as int)),
            spans@ == span_ranges(code@.take(k as int)),
            pairs_within(ranges@, chars@.len() as int),
        decreases code@.len() - k,
    {
        let (start, end, run) = code[k];
        ranges.push((start, start + run));
        ranges.push((end - run, end));
        spans.push((start, end));
        proof {
            assert(code@.take(k + 1).drop_last() =~= code@.take(k as int));
            assert(span_ranges(code@.take(k + 1)) =~= span_ranges(code@.take(k as int)).push(
                (start, end),
            ));
        }
        k += 1;
    }
    assert(code@.take(code@.len() as int) =~= code@);
    let emphasis = delimiters(chars, &spans);
    let link_marks = links(chars, &spans);
    let ghost marks = ranges@;
    let mut i: usize = 0;
    while i < emphasis.len()
        invariant
            i <= emphasis@.len(),
            ranges@ == marks + emphasis@.take(i as int),
            pairs_within(ranges@, chars@.len() as int),
            pairs_within(emphasis@, chars@.len() as int),
        decreases emphasis@.len() - i,
    {
        ranges.push(emphasis[i]);
        assert(emphasis@.take(i + 1) =~= emphasis@.take(i as int).push(emphasis@[i as int]));
        i += 1;
    }
    assert(emphasis@.take(emphasis@.len() as int) =~= emphasis@);
    let ghost with_emphasis = ranges@;
    let mut i: usize = 0;
    while i < link_marks.len()
        invariant
            i <= link_marks@.len(),
            ranges@ == with_emphasis + link_marks@.take(i as int),
            pairs_within(ranges@, chars@.len() as int),
            pairs_within(link_marks@, chars@.len() as int),
        decreases link_marks@.len() - i,
    {
        ranges.push(link_marks[i]);
        assert(link_marks@.take(i + 1) =~= link_marks@.take(i as int).push(link_marks@[i as int]));
        i += 1;
    }
    assert(link_marks@.take(link_marks@.len() as int) =~= link_marks@);
    proof {
        lemma_sort_pairs_within(ranges@, chars@.len() as int);
    }
    sort_pairs_by_start(ranges)
}

} // verus!
