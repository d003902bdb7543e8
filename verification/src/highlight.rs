//! Syntax dimming and heading tints for the write-mode editor: Markdown's
//! own markers — block prefixes like heading hashes, list bullets,
//! checkboxes, ordered numbers, blockquote bars, code fences, and thematic
//! breaks, plus the inline punctuation of emphasis, code spans,
//! strikethroughs, links, and images — render dimmer than the text, so the
//! writing stands out from the syntax. Heading text takes its level's tint
//! instead.
//!
//! Every range here is a half-open range of character indices into the
//! line; [`MarkdownMarkers::highlight_line`] converts them to the byte
//! ranges an editor paints.
use crate::editing::{char_matches, int_ranges, occurrence_ranges, same_char};

use crate::scan::{
    all_blank, blank_from, blank_prefix, count_blank_prefix, count_run, has_char, contains_from,
    lemma_blank_prefix, lemma_run_of, lemma_sort_len, run_of, sort_by,
    sort_ranges_by_start, trim_end_len, trimmed_end,
};
use crate::inline::{inline_ranges, inline_ranges_spec};
use crate::scan::{
    lemma_sort_pairs_within, lemma_sort_triples_within, pair_key, pairs_within,
    sort_pairs_by_start, start_key, triples_within,
};
use crate::text::{ascii_digit, chars_of, is_ascii_digit, is_whitespace, unicode_whitespace};
use crate::editing::{leading_digits, starts_with_checkbox};
use vstd::prelude::*;

verus! {

/// A fenced code block currently open around a line: its fence character
/// and the length of the opening run.
#[derive(Debug, Clone, Copy, PartialEq, Eq)]
pub struct Fence {
    pub marker: char,
    pub len: usize,
}

/// A highlighted stretch of a source line: a Markdown syntax marker, a
/// heading's text (with its level, which picks its tint), or a find match.
#[derive(Debug, Clone, Copy, PartialEq, Eq)]
pub enum Highlight {
    /// Markdown punctuation, dimmed.
    Marker,
    /// Heading text of the given level (1 to 6).
    Heading(usize),
    /// A match of the find query.
    FindMatch,
}

/// Machine ranges as integer ranges.
pub open spec fn pair_ranges(ranges: Seq<(usize, usize)>) -> Seq<(int, int)> {
    int_ranges(ranges)
}

// ---------------------------------------------------------------------------
// Fences.
// ---------------------------------------------------------------------------

/// The range of the run closing `fence`, if `line` closes it: at most
/// three spaces of indentation, then a run of the fence's own character at
/// least as long as the opening one (and at least three), then only
/// blanks.
pub open spec fn closing_fence_spec(line: Seq<char>, fence: Fence) -> Option<(int, int)> {
    let indent = run_of(line, ' ');
    let rest = line.skip(indent as int);
    let run = run_of(rest, fence.marker);
    if indent <= 3 && run >= fence.len && run >= 3 && all_blank(rest.skip(run as int)) {
        Some((indent as int, (indent + run) as int))
    } else {
        None
    }
}

/// The fence open after `line`, given the fence open before it: a run of
/// at least three backticks (with no backtick after it) or tildes opens a
/// fence, and a later run of the same character at least as long closes
/// it.
pub open spec fn fence_after_spec(line: Seq<char>, entering: Option<Fence>) -> Option<Fence> {
    match entering {
        Some(fence) => if closing_fence_spec(line, fence) is None {
            Some(fence)
        } else {
            None
        },
        None => {
            let indent = run_of(line, ' ');
            let rest = line.skip(indent as int);
            let ticks = run_of(rest, '`');
            let tildes = run_of(rest, '~');
            if indent > 3 {
                None
            } else if ticks >= 3 && !has_char(rest.skip(ticks as int), '`') {
                Some(Fence { marker: '`', len: ticks as usize })
            } else if tildes >= 3 {
                Some(Fence { marker: '~', len: tildes as usize })
            } else {
                None
            }
        },
    }
}

/// The marker range of the line closing `fence`, if it does.
pub fn closing_fence(line: &Vec<char>, fence: Fence) -> (closing: Option<(usize, usize)>)
    ensures
        match (closing, closing_fence_spec(line@, fence)) {
            (Some(r), Some(s)) => r.0 == s.0 && r.1 == s.1,
            (None, None) => true,
            _ => false,
        },
        closing matches Some(r) ==> r.0 <= r.1 <= line@.len(),
{
    let indent = count_run(line, 0, ' ');
    assert(line@.skip(0) =~= line@);
    let run = count_run(line, indent, fence.marker);
    proof {
        assert(line@.skip(indent as int).skip(run as int) =~= line@.skip(indent + run));
    }
    if indent <= 3 && run >= fence.len && run >= 3 && blank_from(line, indent + run) {
        Some((indent, indent + run))
    } else {
        None
    }
}

/// The fence open after `line`, given the fence open before it.
pub fn fence_after(line: &Vec<char>, entering: Option<Fence>) -> (after: Option<Fence>)
    ensures
        after == fence_after_spec(line@, entering),
{
    if let Some(fence) = entering {
        return if closing_fence(line, fence).is_none() {
            Some(fence)
        } else {
            None
        };
    }
    assert(line@.skip(0) =~= line@);
    let indent = count_run(line, 0, ' ');
    if indent > 3 {
        return None;
    }
    let ticks = count_run(line, indent, '`');
    proof {
        assert(line@.skip(indent as int).skip(ticks as int) =~= line@.skip(indent + ticks));
    }
    if ticks >= 3 && !contains_from(line, indent + ticks, '`') {
        return Some(Fence { marker: '`', len: ticks });
    }
    let tildes = count_run(line, indent, '~');
    if tildes >= 3 {
        return Some(Fence { marker: '~', len: tildes });
    }
    None
}

// ---------------------------------------------------------------------------
// Blockquote bars and headings.
// ---------------------------------------------------------------------------

/// The blockquote bars from `offset` on: one range per `>`, each possibly
/// followed by a space, and the offset after them.
pub open spec fn bars_from(line: Seq<char>, offset: int) -> (int, Seq<(usize, usize)>)
    decreases line.len() - offset,
{
    if 0 <= offset < line.len() && line[offset] == '>' {
        let next = if offset + 1 < line.len() && line[offset + 1] == ' ' {
            offset + 2
        } else {
            offset + 1
        };
        let (end, rest) = bars_from(line, next);
        (end, seq![(offset as usize, (offset + 1) as usize)] + rest)
    } else {
        (offset, seq![])
    }
}

proof fn lemma_bars_from(line: Seq<char>, offset: int)
    requires
        0 <= offset <= line.len(),
    ensures
        offset <= bars_from(line, offset).0 <= line.len(),
    decreases line.len() - offset,
{
    if 0 <= offset < line.len() && line[offset] == '>' {
        let next = if offset + 1 < line.len() && line[offset + 1] == ' ' {
            offset + 2
        } else {
            offset + 1
        };
        lemma_bars_from(line, next);
    }
}

/// Walks a line's blockquote bars from `indent`, pushing one range per
/// `>`, and returns the offset after them.
pub fn after_bars(line: &Vec<char>, indent: usize, ranges: &mut Vec<(usize, usize)>) -> (offset: usize)
    requires
        indent <= line@.len(),
        pairs_within(old(ranges)@, line@.len() as int),
    ensures
        offset == bars_from(line@, indent as int).0,
        final(ranges)@ == old(ranges)@ + bars_from(line@, indent as int).1,
        offset <= line@.len(),
        pairs_within(final(ranges)@, line@.len() as int),
{
    let mut offset = indent;
    let ghost start = old(ranges)@;

    while offset < line.len() && line[offset] == '>'
        invariant
            indent <= offset <= line@.len(),
            bars_from(line@, indent as int).0 == bars_from(line@, offset as int).0,
            start + bars_from(line@, indent as int).1 == ranges@ + bars_from(
                line@,
                offset as int,
            ).1,
            pairs_within(ranges@, line@.len() as int),
        decreases line@.len() - offset,
    {
        let ghost before = ranges@;
        ranges.push((offset, offset + 1));
        let next = if offset + 1 < line.len() && line[offset + 1] == ' ' {
            offset + 2
        } else {
            offset + 1
        };
        proof {
            let (_, rest) = bars_from(line@, next as int);
            assert(bars_from(line@, offset as int).1 == seq![(offset, (offset + 1) as usize)] + rest);
            assert(before + (seq![(offset, (offset + 1) as usize)] + rest) =~= ranges@ + rest);
        }
        offset = next;
    }
    proof {
        assert(ranges@ + seq![] =~= ranges@);
    }
    offset
}

/// The level and text span of a line's heading, if it is one: one to six
/// `#` after the indentation and blockquote bars, then a space, then the
/// text — from after the separating spaces to before trailing whitespace.
pub open spec fn heading_span_spec(line: Seq<char>) -> Option<(nat, (int, int))> {
    let offset = bars_from(line, blank_prefix(line) as int).0;
    let rest = line.skip(offset);
    let hashes = run_of(rest, '#');
    if 1 <= hashes <= 6 && hashes < rest.len() && rest[hashes as int] == ' ' {
        let start = offset + hashes + run_of(rest.skip(hashes as int), ' ');
        let end = trimmed_end(line) as int;
        if start < end {
            Some((hashes, (start, end)))
        } else {
            None
        }
    } else {
        None
    }
}

/// The level and text span of a line's heading, if it is one.
pub fn heading_span(line: &Vec<char>) -> (heading: Option<(usize, (usize, usize))>)
    ensures
        match (heading, heading_span_spec(line@)) {
            (Some((level, (start, end))), Some((l, (s, e)))) => level == l && start == s && end
                == e,
            (None, None) => true,
            _ => false,
        },
        heading matches Some((_, (start, end))) ==> start < end <= line@.len(),
{
    let indent = count_blank_prefix(line);
    let mut scratch: Vec<(usize, usize)> = Vec::new();
    let offset = after_bars(line, indent, &mut scratch);
    let hashes = count_run(line, offset, '#');
    if 1 <= hashes && hashes <= 6 && offset + hashes < line.len() && line[offset + hashes] == ' ' {
        let spaces = count_run(line, offset + hashes, ' ');
        proof {
            assert(line@.skip(offset as int).skip(hashes as int) =~= line@.skip(offset + hashes));
            assert(line@.skip(offset as int)[hashes as int] == line@[offset + hashes]);
        }
        let start = offset + hashes + spaces;
        let end = trim_end_len(line);
        if start < end {
            Some((hashes, (start, end)))
        } else {
            None
        }
    } else {
        proof {
            if hashes < line@.skip(offset as int).len() {
                assert(line@.skip(offset as int)[hashes as int] == line@[offset + hashes]);
            }
        }
        None
    }
}

// ---------------------------------------------------------------------------
// Subtracting ranges.
// ---------------------------------------------------------------------------

/// What remains of `[start, end)` after cutting `cuts[k..]` out, in
/// order, appended to `leftovers`.
pub open spec fn subtract_from(
    end: int,
    cuts: Seq<(int, int)>,
    k: int,
    start: int,
    leftovers: Seq<(int, int)>,
) -> Seq<(int, int)>
    decreases cuts.len() - k,
{
    if k < 0 || k >= cuts.len() {
        if start < end {
            leftovers.push((start, end))
        } else {
            leftovers
        }
    } else {
        let cut = cuts[k];
        if cut.1 <= start || cut.0 >= end {
            subtract_from(end, cuts, k + 1, start, leftovers)
        } else {
            let kept = if cut.0 > start {
                leftovers.push((start, cut.0))
            } else {
                leftovers
            };
            subtract_from(end, cuts, k + 1, if start >= cut.1 { start } else { cut.1 }, kept)
        }
    }
}

/// `range` with every cut removed, the leftover sub-ranges in order.
pub open spec fn subtract_spec(range: (int, int), cuts: Seq<(int, int)>) -> Seq<(int, int)> {
    subtract_from(range.1, cuts, 0, range.0, seq![])
}

/// Removes `cuts` from `range`, returning the leftover sub-ranges in
/// order.
pub fn subtract(range: (usize, usize), cuts: &Vec<(usize, usize)>) -> (leftovers: Vec<(usize, usize)>)
    ensures
        pair_ranges(leftovers@) == subtract_spec((range.0 as int, range.1 as int), pair_ranges(cuts@)),
        pairs_within(leftovers@, range.1 as int),
{
    let ghost all = pair_ranges(cuts@);
    let mut leftovers: Vec<(usize, usize)> = Vec::new();
    let mut start = range.0;
    let mut k: usize = 0;
    assert(pair_ranges(leftovers@) =~= seq![]);
    while k < cuts.len()
        invariant
            k <= cuts@.len(),
            all == pair_ranges(cuts@),
            subtract_spec((range.0 as int, range.1 as int), all) == subtract_from(
                range.1 as int,
                all,
                k as int,
                start as int,
                pair_ranges(leftovers@),
            ),
            pairs_within(leftovers@, range.1 as int),
        decreases cuts@.len() - k,
    {
        let cut = cuts[k];
        if !(cut.1 <= start || cut.0 >= range.1) {
            if cut.0 > start {
                let ghost before = leftovers@;
                leftovers.push((start, cut.0));
                assert(pair_ranges(leftovers@) =~= pair_ranges(before).push((start as int, cut.0 as int)));
            }
            if start < cut.1 {
                start = cut.1;
            }
        }
        k += 1;
    }
    if start < range.1 {
        let ghost before = leftovers@;
        leftovers.push((start, range.1));
        assert(pair_ranges(leftovers@) =~= pair_ranges(before).push((start as int, range.1 as int)));
    }
    leftovers
}


// ---------------------------------------------------------------------------
// Block and inline markers.
// ---------------------------------------------------------------------------

/// The first character of `s` that is not whitespace.
pub open spec fn first_significant(s: Seq<char>) -> Option<char>
    decreases s.len(),
{
    if s.len() == 0 {
        None
    } else if !unicode_whitespace(s[0]) {
        Some(s[0])
    } else {
        first_significant(s.drop_first())
    }
}

/// How many characters of `s` are not whitespace.
pub open spec fn significant_count(s: Seq<char>) -> nat
    decreases s.len(),
{
    if s.len() == 0 {
        0
    } else {
        significant_count(s.drop_last()) + if unicode_whitespace(s.last()) {
            0nat
        } else {
            1nat
        }
    }
}

/// A thematic break: at least three of the same `-`, `*`, or `_`, with
/// only whitespace between them.
pub open spec fn thematic_break(rest: Seq<char>) -> bool {
    match first_significant(rest) {
        Some(c) => (c == '-' || c == '*' || c == '_') && significant_count(rest) >= 3 && forall|
            i: int,
        | 0 <= i < rest.len() && !unicode_whitespace(#[trigger] rest[i]) ==> rest[i] == c,
        None => false,
    }
}

/// The block prefix markers of a line that is neither a fence nor a
/// break: its blockquote bars, then heading hashes, a list bullet (with a
/// task checkbox), or an ordered number with its delimiter.
pub open spec fn block_markers(line: Seq<char>) -> Seq<(usize, usize)> {
    let (offset, bars) = bars_from(line, blank_prefix(line) as int);
    let rest = line.skip(offset);
    let hashes = run_of(rest, '#');
    let digits = leading_digits(rest);
    if 1 <= hashes <= 6 && hashes < rest.len() && rest[hashes as int] == ' ' {
        bars.push((offset as usize, (offset + hashes) as usize))
    } else if rest.len() >= 2 && (rest[0] == '-' || rest[0] == '*' || rest[0] == '+') && rest[1]
        == ' ' {
        let bullet = bars.push((offset as usize, (offset + 1) as usize));
        if starts_with_checkbox(rest.skip(2)) {
            bullet.push(((offset + 2) as usize, (offset + 5) as usize))
        } else {
            bullet
        }
    } else if digits > 0 && rest.len() >= digits + 2 && (rest[digits as int] == '.'
        || rest[digits as int] == ')') && rest[digits + 1int] == ' ' {
        bars.push((offset as usize, (offset + digits + 1) as usize))
    } else {
        bars
    }
}

/// The ranges of a source line that hold Markdown syntax markers rather
/// than text, sorted by start: a fence run alone, a thematic break alone,
/// or the block prefixes plus the inline punctuation.
pub open spec fn marker_ranges_spec(line: Seq<char>) -> Seq<(usize, usize)> {
    let indent = blank_prefix(line) as int;
    let rest = line.skip(indent);
    let ticks = run_of(rest, '`');
    let tildes = run_of(rest, '~');
    if rest.len() == 0 {
        seq![]
    } else if ticks >= 3 {
        seq![(indent as usize, (indent + ticks) as usize)]
    } else if tildes >= 3 {
        seq![(indent as usize, (indent + tildes) as usize)]
    } else if thematic_break(rest) {
        seq![(indent as usize, trimmed_end(line) as usize)]
    } else {
        sort_by(block_markers(line) + inline_ranges_spec(line), pair_key())
    }
}

proof fn lemma_first_significant(s: Seq<char>)
    ensures
        match first_significant(s) {
            Some(c) => exists|i: int|
                0 <= i < s.len() && s[i] == c && !unicode_whitespace(s[i]) && forall|j: int|
                    0 <= j < i ==> unicode_whitespace(#[trigger] s[j]),
            None => forall|j: int| 0 <= j < s.len() ==> unicode_whitespace(#[trigger] s[j]),
        },
    decreases s.len(),
{
    if s.len() > 0 && unicode_whitespace(s[0]) {
        let rest = s.drop_first();
        lemma_first_significant(rest);
        match first_significant(rest) {
            Some(c) => {
                let i = choose|i: int|
                    0 <= i < rest.len() && rest[i] == c && !unicode_whitespace(rest[i]) && forall|
                        j: int,
                    | 0 <= j < i ==> unicode_whitespace(#[trigger] rest[j]);
                assert(s[i + 1] == c);
                assert forall|j: int| 0 <= j < i + 1 implies unicode_whitespace(#[trigger] s[j]) by {
                    if j > 0 {
                        assert(s[j] == rest[j - 1]);
                    }
                }
            },
            None => {
                assert forall|j: int| 0 <= j < s.len() implies unicode_whitespace(#[trigger] s[j]) by {
                    if j > 0 {
                        assert(s[j] == rest[j - 1]);
                    }
                }
            },
        }
    }
}

/// Whether `line[from..]` is a thematic break.
fn is_thematic_break(line: &Vec<char>, from: usize) -> (brk: bool)
    requires
        from <= line@.len(),
    ensures
        brk == thematic_break(line@.skip(from as int)),
{
    let ghost rest = line@.skip(from as int);
    let mut first: Option<char> = None;
    let mut count: usize = 0;
    let mut uniform = true;
    let mut i: usize = from;
    proof {
        assert(rest.take(0) =~= seq![]);
    }
    while i < line.len()
        invariant
            from <= i <= line@.len(),
            rest == line@.skip(from as int),
            count == significant_count(rest.take(i - from)),
            count <= i - from,
            first == first_significant(rest.take(i - from)),
            first is None ==> count == 0,
            uniform == (first matches Some(c) ==> forall|k: int|
                0 <= k < i - from && !unicode_whitespace(#[trigger] rest[k]) ==> rest[k] == c),
        decreases line@.len() - i,
    {
        let c = line[i];
        let ghost prefix = rest.take(i - from);
        let ghost next = rest.take(i - from + 1);
        assert(next.drop_last() =~= prefix);
        assert(next.last() == c);
        proof {
            lemma_first_significant(prefix);
            lemma_first_significant(next);
            if first is None {
                assert(forall|j: int| 0 <= j < prefix.len() ==> unicode_whitespace(#[trigger] prefix[j]));
                if !unicode_whitespace(c) {
                    assert(first_significant(next) == Some(c)) by {
                        match first_significant(next) {
                            Some(d) => {
                                let w = choose|w: int|
                                    0 <= w < next.len() && next[w] == d && !unicode_whitespace(next[w])
                                        && forall|j: int| 0 <= j < w ==> unicode_whitespace(#[trigger] next[j]);
                                if w < prefix.len() {
                                    assert(next[w] == prefix[w]);
                                }
                            },
                            None => {},
                        }
                    }
                } else {
                    assert forall|j: int| 0 <= j < next.len() implies unicode_whitespace(#[trigger] next[j]) by {
                        if j < prefix.len() {
                            assert(next[j] == prefix[j]);
                        }
                    }
                    assert(first_significant(next) is None) by {
                        match first_significant(next) {
                            Some(d) => {
                                let w = choose|w: int|
                                    0 <= w < next.len() && next[w] == d && !unicode_whitespace(next[w])
                                        && forall|j: int| 0 <= j < w ==> unicode_whitespace(#[trigger] next[j]);
                            },
                            None => {},
                        }
                    }
                }
            } else {
                let d = first->0;
                let w = choose|w: int|
                    0 <= w < prefix.len() && prefix[w] == d && !unicode_whitespace(prefix[w]) && forall|
                        j: int,
                    | 0 <= j < w ==> unicode_whitespace(#[trigger] prefix[j]);
                assert(next[w] == prefix[w]);
                match first_significant(next) {
                    Some(e) => {
                        let v = choose|v: int|
                            0 <= v < next.len() && next[v] == e && !unicode_whitespace(next[v]) && forall|
                                j: int,
                            | 0 <= j < v ==> unicode_whitespace(#[trigger] next[j]);
                        if v < w {
                            assert(prefix[v] == next[v]);
                        } else if v > w {
                            assert(unicode_whitespace(next[w]));
                        }
                    },
                    None => {
                        assert(unicode_whitespace(next[w]));
                    },
                }
            }
        }
        let ghost old_first = first;
        let ghost old_uniform = uniform;
        let white = is_whitespace(c);
        if !white {
            if first.is_none() {
                first = Some(c);
            } else if first != Some(c) {
                uniform = false;
            }
            count += 1;
        }
        proof {
            assert(rest[i - from] == c);
            if old_first is None {
                assert(forall|j: int| 0 <= j < prefix.len() ==> unicode_whitespace(#[trigger] prefix[j]));
            }
            if first is Some {
                let d = first->0;
                if uniform {
                    assert forall|k: int|
                        0 <= k < i - from + 1 && !unicode_whitespace(#[trigger] rest[k]) implies rest[k]
                        == d by {
                        if k < i - from {
                            assert(rest[k] == prefix[k]);
                        }
                    }
                } else {
                    if old_uniform {
                        assert(!white && old_first == Some(d) && c != d);
                    } else {
                        let k = choose|k: int|
                            0 <= k < i - from && !unicode_whitespace(#[trigger] rest[k]) && rest[k] != d;
                    }
                }
            }
        }
        i += 1;
    }
    assert(rest.take(line@.len() - from) =~= rest);
    match first {
        Some(c) => (c == '-' || c == '*' || c == '_') && count >= 3 && uniform,
        None => false,
    }
}

/// The ranges of a source line that hold Markdown syntax markers rather
/// than text: the block prefixes of the line, then its inline
/// punctuation.
pub fn marker_ranges(line: &Vec<char>) -> (ranges: Vec<(usize, usize)>)
    ensures
        ranges@ == marker_ranges_spec(line@),
        pairs_within(ranges@, line@.len() as int),
{
    let indent = count_blank_prefix(line);
    let mut ranges: Vec<(usize, usize)> = Vec::new();
    if indent == line.len() {
        return ranges;
    }
    let ticks = count_run(line, indent, '`');
    if ticks >= 3 {
        ranges.push((indent, indent + ticks));
        return ranges;
    }
    let tildes = count_run(line, indent, '~');
    if tildes >= 3 {
        ranges.push((indent, indent + tildes));
        return ranges;
    }
    if is_thematic_break(line, indent) {
        ranges.push((indent, trim_end_len(line)));
        return ranges;
    }
    let offset = after_bars(line, indent, &mut ranges);
    let ghost rest = line@.skip(offset as int);
    let hashes = count_run(line, offset, '#');
    let rest_len = line.len() - offset;
    proof {
        assert(ranges@ =~= bars_from(line@, indent as int).1);
    }
    if 1 <= hashes && hashes <= 6 && hashes < rest_len && line[offset + hashes] == ' ' {
        assert(rest[hashes as int] == line@[offset + hashes]);
        ranges.push((offset, offset + hashes));
    } else if rest_len >= 2 && (line[offset] == '-' || line[offset] == '*' || line[offset] == '+')
        && line[offset + 1] == ' ' {
        proof {
            if hashes < rest_len {
                assert(rest[hashes as int] == line@[offset + hashes]);
            }
        }
        ranges.push((offset, offset + 1));
        let item = offset + 2;
        let checkbox = line.len() - item >= 4 && line[item] == '[' && (line[item + 1] == ' '
            || line[item + 1] == 'x' || line[item + 1] == 'X') && line[item + 2] == ']'
            && line[item + 3] == ' ';
        assert(starts_with_checkbox(rest.skip(2)) == checkbox);
        if checkbox {
            ranges.push((offset + 2, offset + 5));
        }
    } else {
        proof {
            if hashes < rest_len {
                assert(rest[hashes as int] == line@[offset + hashes]);
            }
        }
        let mut digits: usize = 0;
        assert(rest.skip(0) =~= rest);
        while offset + digits < line.len() && ascii_digit(line[offset + digits])
            invariant
                offset + digits <= line@.len(),
                line@.len() <= usize::MAX,
                rest == line@.skip(offset as int),
                leading_digits(rest) == digits + leading_digits(rest.skip(digits as int)),
            decreases line@.len() - offset - digits,
        {
            assert(rest.skip(digits as int).drop_first() =~= rest.skip(digits + 1));
            digits += 1;
        }
        proof {
            assert(rest.skip(digits as int).len() == 0 || !is_ascii_digit(rest.skip(digits as int)[0]));
            assert(leading_digits(rest.skip(digits as int)) == 0);
        }
        if digits > 0 && rest_len - digits >= 2 && (line[offset + digits] == '.' || line[offset
            + digits] == ')') && line[offset + digits + 1] == ' ' {
            ranges.push((offset, offset + digits + 1));
        }
    }
    proof {
        assert(ranges@ == block_markers(line@));
    }
    let inline = inline_ranges(line);
    let ghost block = ranges@;
    let mut i: usize = 0;
    while i < inline.len()
        invariant
            i <= inline@.len(),
            ranges@ == block + inline@.take(i as int),
            pairs_within(ranges@, line@.len() as int),
            pairs_within(inline@, line@.len() as int),
        decreases inline@.len() - i,
    {
        ranges.push(inline[i]);
        assert(inline@.take(i + 1) =~= inline@.take(i as int).push(inline@[i as int]));
        i += 1;
    }
    assert(inline@.take(inline@.len() as int) =~= inline@);
    proof {
        lemma_sort_pairs_within(ranges@, line@.len() as int);
    }
    sort_pairs_by_start(ranges)
}


// ---------------------------------------------------------------------------
// The highlights of a line.
// ---------------------------------------------------------------------------

/// Whether a heading's text span covers the character at `at`.
pub open spec fn heading_covers(heading: Option<(nat, (int, int))>, at: int) -> bool {
    match heading {
        Some((_, (start, end))) => start <= at < end,
        None => false,
    }
}

/// Integer ranges tagged with a highlight.
pub open spec fn tagged(ranges: Seq<(int, int)>, highlight: Highlight) -> Seq<(usize, usize, Highlight)> {
    ranges.map_values(|r: (int, int)| (r.0 as usize, r.1 as usize, highlight))
}

/// The dimmed stretches of the markers: a marker starting inside the
/// heading text belongs to the heading's tint, and every find match cuts
/// its stretch out of a marker.
pub open spec fn marker_parts(
    markers: Seq<(usize, usize)>,
    heading: Option<(nat, (int, int))>,
    cuts: Seq<(int, int)>,
) -> Seq<(usize, usize, Highlight)>
    decreases markers.len(),
{
    if markers.len() == 0 {
        seq![]
    } else {
        let before = marker_parts(markers.drop_last(), heading, cuts);
        let marker = markers.last();
        if heading_covers(heading, marker.0 as int) {
            before
        } else {
            before + tagged(
                subtract_spec((marker.0 as int, marker.1 as int), cuts),
                Highlight::Marker,
            )
        }
    }
}

/// The highlights of a source line, sorted by start: inside a fenced
/// block only the closing fence and find matches; elsewhere the markers,
/// the heading text, and the find matches — a match wins every stretch it
/// shares with a marker or a heading.
pub open spec fn line_highlights_spec(
    line: Seq<char>,
    query: Seq<char>,
    fence: Option<Fence>,
) -> Seq<(usize, usize, Highlight)> {
    let cuts = occurrence_ranges(line, query, same_char());
    let heading = if fence is Some {
        None
    } else {
        heading_span_spec(line)
    };
    let markers = match fence {
        Some(f) => match closing_fence_spec(line, f) {
            Some(r) => seq![(r.0 as usize, r.1 as usize)],
            None => seq![],
        },
        None => marker_ranges_spec(line),
    };
    let heading_parts = match heading {
        Some((level, span)) => tagged(subtract_spec(span, cuts), Highlight::Heading(level as usize)),
        None => seq![],
    };
    sort_by(
        marker_parts(markers, heading, cuts) + heading_parts + tagged(cuts, Highlight::FindMatch),
        start_key(),
    )
}

/// Appends `ranges` tagged with `highlight`.
fn push_tagged(
    highlights: &mut Vec<(usize, usize, Highlight)>,
    ranges: &Vec<(usize, usize)>,
    highlight: Highlight,
)
    ensures
        final(highlights)@ == old(highlights)@ + tagged(pair_ranges(ranges@), highlight),
        forall|n: int|
            triples_within(old(highlights)@, n) && pairs_within(ranges@, n) ==> triples_within(
                final(highlights)@,
                n,
            ),
{
    let ghost start = highlights@;
    let mut i: usize = 0;
    while i < ranges.len()
        invariant
            i <= ranges@.len(),
            highlights@ == start + tagged(pair_ranges(ranges@.take(i as int)), highlight),
            forall|n: int|
                triples_within(start, n) && pairs_within(ranges@, n) ==> triples_within(
                    highlights@,
                    n,
                ),
        decreases ranges@.len() - i,
    {
        highlights.push((ranges[i].0, ranges[i].1, highlight));
        assert(tagged(pair_ranges(ranges@.take(i + 1)), highlight) =~= tagged(
            pair_ranges(ranges@.take(i as int)),
            highlight,
        ).push((ranges@[i as int].0, ranges@[i as int].1, highlight)));
        i += 1;
    }
    assert(ranges@.take(ranges@.len() as int) =~= ranges@);
}

/// The highlights of a source line, as character ranges.
pub fn line_highlights(line: &Vec<char>, query: &Vec<char>, fence: Option<Fence>) -> (highlights: Vec<
    (usize, usize, Highlight),
>)
    ensures
        highlights@ == line_highlights_spec(line@, query@, fence),
        triples_within(highlights@, line@.len() as int),
{
    let matches = char_matches(line, query);
    let ghost cuts = occurrence_ranges(line@, query@, same_char());
    let heading = match fence {
        Some(_) => None,
        None => heading_span(line),
    };
    let ghost heading_view: Option<(nat, (int, int))> = if fence is Some {
        None
    } else {
        heading_span_spec(line@)
    };
    let markers: Vec<(usize, usize)> = match fence {
        Some(f) => {
            let mut closing: Vec<(usize, usize)> = Vec::new();
            match closing_fence(line, f) {
                Some(r) => closing.push(r),
                None => {},
            }
            closing
        },
        None => marker_ranges(line),
    };
    proof {
        match fence {
            Some(f) => {
                match closing_fence_spec(line@, f) {
                    Some(r) => assert(markers@ =~= seq![(r.0 as usize, r.1 as usize)]),
                    None => assert(markers@ =~= seq![]),
                }
            },
            None => {},
        }
    }
    let mut highlights: Vec<(usize, usize, Highlight)> = Vec::new();
    let mut k: usize = 0;
    while k < markers.len()
        invariant
            k <= markers@.len(),
            pair_ranges(matches@) == cuts,
            match (heading, heading_view) {
                (Some((level, (start, end))), Some((l, (s, e)))) => level == l && start == s
                    && end == e,
                (None, None) => true,
                _ => false,
            },
            highlights@ == marker_parts(markers@.take(k as int), heading_view, cuts),
            pairs_within(markers@, line@.len() as int),
            pairs_within(matches@, line@.len() as int),
            heading matches Some((_, (start, end))) ==> start < end <= line@.len(),
            triples_within(highlights@, line@.len() as int),
        decreases markers@.len() - k,
    {
        let range = markers[k];
        assert(markers@.take(k + 1).drop_last() =~= markers@.take(k as int));
        let inside = match heading {
            Some((_, (start, end))) => start <= range.0 && range.0 < end,
            None => false,
        };
        if !inside {
            let parts = subtract(range, &matches);
            assert(pairs_within(parts@, line@.len() as int)) by {
                assert(markers@[k as int] == range);
            }
            push_tagged(&mut highlights, &parts, Highlight::Marker);
        }
        k += 1;
    }
    assert(markers@.take(markers@.len() as int) =~= markers@);
    match heading {
        Some((level, span)) => {
            let parts = subtract(span, &matches);
            assert(pairs_within(parts@, line@.len() as int));
            push_tagged(&mut highlights, &parts, Highlight::Heading(level));
        },
        None => {},
    }
    push_tagged(&mut highlights, &matches, Highlight::FindMatch);
    assert(triples_within(highlights@, line@.len() as int));
    proof {
        let heading_parts = match heading_view {
            Some((level, span)) => tagged(subtract_spec(span, cuts), Highlight::Heading(level as usize)),
            None => seq![],
        };
        assert(highlights@ =~= marker_parts(markers@, heading_view, cuts) + heading_parts + tagged(
            cuts,
            Highlight::FindMatch,
        ));
        lemma_sort_triples_within(highlights@, line@.len() as int);
    }
    sort_ranges_by_start(highlights)
}

// ---------------------------------------------------------------------------
// Character ranges to byte ranges.
// ---------------------------------------------------------------------------

/// The UTF-8 byte offset of character index `i` in `line`.
pub open spec fn byte_offset(line: Seq<char>, i: int) -> int {
    vstd::utf8::encode_utf8(line.take(i)).len() as int
}

/// Highlights over character ranges, moved to the byte ranges of `line`.
pub open spec fn in_bytes(line: Seq<char>, highlights: Seq<(usize, usize, Highlight)>) -> Seq<
    (usize, usize, Highlight),
> {
    highlights.map_values(
        |h: (usize, usize, Highlight)|
            (byte_offset(line, h.0 as int) as usize, byte_offset(line, h.1 as int) as usize, h.2),
    )
}

proof fn lemma_encode_concat(a: Seq<char>, b: Seq<char>)
    ensures
        vstd::utf8::encode_utf8(a + b) == vstd::utf8::encode_utf8(a) + vstd::utf8::encode_utf8(b),
    decreases a.len(),
{
    if a.len() == 0 {
        assert(a + b =~= b);
        assert(vstd::utf8::encode_utf8(a) =~= seq![]);
        assert(seq![] + vstd::utf8::encode_utf8(b) =~= vstd::utf8::encode_utf8(b));
    } else {
        assert((a + b).drop_first() =~= a.drop_first() + b);
        assert((a + b)[0] == a[0]);
        lemma_encode_concat(a.drop_first(), b);
        assert(vstd::utf8::encode_utf8(a + b) =~= vstd::utf8::encode_utf8(a) + vstd::utf8::encode_utf8(
            b,
        ));
    }
}

/// The UTF-8 width of a character.
fn utf8_width(c: char) -> (width: usize)
    ensures
        width == vstd::utf8::encode_utf8(seq![c]).len(),
        1 <= width <= 4,
{
    let v = c as u32;
    assert(seq![c].drop_first() =~= Seq::<char>::empty());
    assert(vstd::utf8::encode_utf8(Seq::<char>::empty()) =~= Seq::<u8>::empty());
    assert(vstd::utf8::encode_utf8(seq![c]) =~= vstd::utf8::encode_scalar(v));
    if v <= 0x7F {
        1
    } else if v <= 0x7FF {
        2
    } else if v <= 0xFFFF {
        3
    } else {
        4
    }
}

/// The byte offset of every character index of `line`, end included;
/// they strictly increase.
pub(crate) fn byte_offsets(text: &str, line: &Vec<char>) -> (offsets: Vec<usize>)
    requires
        line@ == text@,
    ensures
        offsets@.len() == line@.len() + 1,
        forall|i: int| 0 <= i <= line@.len() ==> #[trigger] offsets@[i] == byte_offset(line@, i),
        forall|i: int, j: int| 0 <= i < j <= line@.len() ==> offsets@[i] < offsets@[j],
{
    let bytes = text.as_bytes();
    let total = bytes.len();
    let mut offsets: Vec<usize> = Vec::new();
    offsets.push(0);
    assert(line@.take(0) =~= seq![]);
    assert(vstd::utf8::encode_utf8(seq![]) =~= seq![]);
    let mut at: usize = 0;
    let mut i: usize = 0;
    while i < line.len()
        invariant
            i <= line@.len(),
            total == vstd::utf8::encode_utf8(line@).len(),
            offsets@.len() == i + 1,
            at == offsets@[i as int],
            forall|j: int| 0 <= j <= i ==> #[trigger] offsets@[j] == byte_offset(line@, j),
            forall|a: int, b: int| 0 <= a < b <= i ==> offsets@[a] < offsets@[b],
        decreases line@.len() - i,
    {
        let width = utf8_width(line[i]);
        proof {
            assert(line@.take(i + 1) =~= line@.take(i as int) + seq![line@[i as int]]);
            lemma_encode_concat(line@.take(i as int), seq![line@[i as int]]);
            assert(line@ =~= line@.take(i + 1) + line@.skip(i + 1));
            lemma_encode_concat(line@.take(i + 1), line@.skip(i + 1));
        }
        at = at + width;
        offsets.push(at);
        i += 1;
    }
    offsets
}

/// Moves highlights from character ranges to the byte ranges of `text`.
fn to_bytes(text: &str, line: &Vec<char>, highlights: &Vec<(usize, usize, Highlight)>) -> (moved: Vec<
    (usize, usize, Highlight),
>)
    requires
        line@ == text@,
        forall|k: int|
            0 <= k < highlights@.len() ==> (#[trigger] highlights@[k]).0 <= line@.len()
                && highlights@[k].1 <= line@.len(),
    ensures
        moved@ == in_bytes(line@, highlights@),
{
    let offsets = byte_offsets(text, line);
    let mut moved: Vec<(usize, usize, Highlight)> = Vec::new();
    let mut k: usize = 0;
    while k < highlights.len()
        invariant
            k <= highlights@.len(),
            offsets@.len() == line@.len() + 1,
            forall|i: int| 0 <= i <= line@.len() ==> #[trigger] offsets@[i] == byte_offset(line@, i),
            forall|j: int|
                0 <= j < highlights@.len() ==> (#[trigger] highlights@[j]).0 <= line@.len()
                    && highlights@[j].1 <= line@.len(),
            moved@ == in_bytes(line@, highlights@.take(k as int)),
        decreases highlights@.len() - k,
    {
        let (start, end, kind) = highlights[k];
        moved.push((offsets[start], offsets[end], kind));
        assert(in_bytes(line@, highlights@.take(k + 1)) =~= in_bytes(line@, highlights@.take(k as int)).push(
            (offsets@[start as int], offsets@[end as int], kind),
        ));
        k += 1;
    }
    assert(highlights@.take(highlights@.len() as int) =~= highlights@);
    moved
}

// ---------------------------------------------------------------------------
// The highlighter the editor feeds line by line.
// ---------------------------------------------------------------------------

/// The write-mode highlighter's settings: the find query whose matches
/// tint.
#[derive(Debug, Clone, PartialEq, Eq, Default)]
pub struct Settings {
    pub query: String,
}

/// The fence open entering each of `lines` and after the last: entry `i`
/// is the fence open at the start of line `i`.
pub open spec fn fence_states(lines: Seq<Seq<char>>) -> Seq<Option<Fence>>
    decreases lines.len(),
{
    if lines.len() == 0 {
        seq![None]
    } else {
        let before = fence_states(lines.drop_last());
        before.push(fence_after_spec(lines.last(), before.last()))
    }
}

pub proof fn lemma_fence_states_len(lines: Seq<Seq<char>>)
    ensures
        fence_states(lines).len() == lines.len() + 1,
        fence_states(lines)[0] == None::<Fence>,
    decreases lines.len(),
{
    if lines.len() > 0 {
        lemma_fence_states_len(lines.drop_last());
    }
}

/// The fence states of a prefix of the lines are a prefix of the fence
/// states.
pub proof fn lemma_fence_states_prefix(lines: Seq<Seq<char>>, n: int)
    requires
        0 <= n <= lines.len(),
    ensures
        fence_states(lines.take(n)) == fence_states(lines).take(n + 1),
    decreases lines.len(),
{
    lemma_fence_states_len(lines);
    lemma_fence_states_len(lines.take(n));
    if n < lines.len() {
        assert(lines.drop_last().take(n) =~= lines.take(n));
        lemma_fence_states_prefix(lines.drop_last(), n);
        lemma_fence_states_len(lines.drop_last());
        assert(fence_states(lines).take(n + 1) =~= fence_states(lines.drop_last()).take(n + 1));
    } else {
        assert(lines.take(n) =~= lines);
        assert(fence_states(lines).take(n + 1) =~= fence_states(lines));
    }
}

/// The write-mode highlighter. The editor feeds lines in document order
/// and rewinds with [`MarkdownMarkers::change_line`] after an edit, so the
/// highlighter remembers the fence open entering every line it has been
/// fed: only that way can a line know whether it sits inside a code
/// block. A settings change restarts the scan from the top.
pub struct MarkdownMarkers {
    query: Vec<char>,
    /// The index of the next line the editor will feed.
    next_line: usize,
    /// The fence open entering each fed line, and after the last one.
    fences: Vec<Option<Fence>>,
    /// The lines fed so far, in order.
    lines: Ghost<Seq<Seq<char>>>,
}

impl MarkdownMarkers {
    /// Well-formedness: the fence states follow from the lines fed so far.
    pub closed spec fn wf(&self) -> bool {
        &&& self.lines@.len() == self.next_line
        &&& self.fences@ == fence_states(self.lines@)
    }

    /// The find query whose matches tint.
    pub closed spec fn query_view(&self) -> Seq<char> {
        self.query@
    }

    /// The lines fed since the scan last started, in order.
    pub closed spec fn fed_lines(&self) -> Seq<Seq<char>> {
        self.lines@
    }

    /// The fence open entering the next line.
    pub open spec fn entering(&self) -> Option<Fence> {
        fence_states(self.fed_lines()).last()
    }

    /// A highlighter at the top of the document.
    pub fn new(settings: &Settings) -> (markers: MarkdownMarkers)
        ensures
            markers.wf(),
            markers.query_view() == settings.query@,
            markers.fed_lines() == Seq::<Seq<char>>::empty(),
    {
        let mut fences: Vec<Option<Fence>> = Vec::new();
        fences.push(None);
        let markers = MarkdownMarkers {
            query: chars_of(settings.query.as_str()),
            next_line: 0,
            fences,
            lines: Ghost(Seq::empty()),
        };
        assert(markers.fences@ =~= fence_states(Seq::<Seq<char>>::empty()));
        markers
    }

    /// Takes new settings and restarts the scan from the top: every line
    /// already highlighted must be fed again.
    pub fn update(&mut self, settings: &Settings)
        ensures
            final(self).wf(),
            final(self).query_view() == settings.query@,
            final(self).fed_lines() == Seq::<Seq<char>>::empty(),
    {
        *self = MarkdownMarkers::new(settings);
    }

    /// Rewinds to `line` after an edit there. An edit below the lines fed
    /// so far rewinds nothing: the lines in between must still be fed
    /// before their fences are known.
    pub fn change_line(&mut self, line: usize)
        requires
            old(self).wf(),
        ensures
            final(self).wf(),
            final(self).query_view() == old(self).query_view(),
            final(self).fed_lines() == old(self).fed_lines().take(
                min_nat(line as nat, old(self).fed_lines().len()) as int,
            ),
    {
        proof {
            lemma_fence_states_len(self.lines@);
        }
        let count = self.fences.len();
        assert(count == self.next_line + 1);
        let next = if line < self.next_line {
            line
        } else {
            self.next_line
        };
        let ghost kept = self.lines@.take(next as int);
        proof {
            lemma_fence_states_prefix(self.lines@, next as int);
        }
        self.fences.truncate(next + 1);
        self.next_line = next;
        self.lines = Ghost(kept);
    }

    /// Whether `line` lays out as a paragraph gap: blank, and outside any
    /// code block.
    pub fn is_paragraph_gap(&self, line: &str) -> (gap: bool)
        requires
            self.wf(),
        ensures
            gap == (all_blank(line@) && self.entering() is None),
    {
        proof {
            lemma_fence_states_len(self.lines@);
        }
        let chars = chars_of(line);
        assert(chars@.skip(0) =~= chars@);
        let blank = blank_from(&chars, 0);
        let last = self.fences.len() - 1;
        blank && self.fences[last].is_none()
    }

    /// The highlights of the next line, as byte ranges sorted by start;
    /// the line then counts as fed.
    pub fn highlight_line(&mut self, line: &str) -> (highlights: Vec<(usize, usize, Highlight)>)
        requires
            old(self).wf(),
        ensures
            final(self).wf(),
            highlights@ == in_bytes(
                line@,
                line_highlights_spec(line@, old(self).query_view(), old(self).entering()),
            ),
            final(self).query_view() == old(self).query_view(),
            final(self).fed_lines() == old(self).fed_lines().push(line@),
    {
        proof {
            lemma_fence_states_len(self.lines@);
        }
        let chars = chars_of(line);
        let count = self.fences.len();
        let entering = self.fences[count - 1];
        let found = line_highlights(&chars, &self.query, entering);
        let moved = to_bytes(line, &chars, &found);
        let after = fence_after(&chars, entering);
        let ghost fed = self.lines@.push(line@);
        proof {
            assert(fed.drop_last() =~= self.lines@);
            assert(fence_states(fed) =~= self.fences@.push(after));
        }
        self.fences.push(after);
        self.next_line = self.next_line + 1;
        self.lines = Ghost(fed);
        moved
    }

    /// The index of the next line the editor will feed.
    pub fn current_line(&self) -> (line: usize)
        requires
            self.wf(),
        ensures
            line == self.fed_lines().len(),
    {
        self.next_line
    }
}

/// The smaller of two naturals.
pub open spec fn min_nat(a: nat, b: nat) -> nat {
    if a <= b {
        a
    } else {
        b
    }
}

/// Rewinding to a line the editor already fed and feeding it again gives
/// the fence state that line was first highlighted with: the fences depend
/// only on the lines above.
pub proof fn law_rewind_replays_fences(lines: Seq<Seq<char>>, line: nat)
    requires
        line <= lines.len(),
    ensures
        fence_states(lines.take(line as int)).last() == fence_states(lines)[line as int],
{
    lemma_fence_states_prefix(lines, line as int);
    lemma_fence_states_len(lines);
    lemma_fence_states_len(lines.take(line as int));
}

} // verus!
