//! Write-mode editing helpers: what Enter means on a list line, and the
//! ASCII-case-insensitive matching that find highlights and navigates.
use crate::text::{
    ascii_ci_eq, ascii_ci_seq_eq, ascii_digit, chars_of, decimal, eq_ignore_ascii_case,
    is_ascii_digit, is_whitespace, push_all, push_char, push_decimal, seq_eq_ignore_ascii_case,
    string_of_range, unicode_whitespace,
};
use vstd::prelude::*;

verus! {

// ---------------------------------------------------------------------------
// Matching.
// ---------------------------------------------------------------------------

/// Whether `query` occurs in `text` at `at`, element by element under
/// `same`.
pub open spec fn found_at<A>(text: Seq<A>, query: Seq<A>, at: int, same: spec_fn(A, A) -> bool) -> bool {
    &&& 0 <= at
    &&& at + query.len() <= text.len()
    &&& forall|j: int| 0 <= j < query.len() ==> same(#[trigger] text[at + j], query[j])
}

/// The start of every occurrence of `query` in `text` from `from` on,
/// scanning left to right and resuming after each occurrence, so
/// occurrences never overlap. An empty query occurs nowhere.
pub open spec fn occurrences<A>(
    text: Seq<A>,
    query: Seq<A>,
    from: int,
    same: spec_fn(A, A) -> bool,
) -> Seq<int>
    decreases text.len() - from,
{
    if query.len() == 0 || from < 0 || from + query.len() > text.len() {
        seq![]
    } else if found_at(text, query, from, same) {
        seq![from] + occurrences(text, query, from + query.len(), same)
    } else {
        occurrences(text, query, from + 1, same)
    }
}

/// The half-open ranges of the occurrences.
pub open spec fn occurrence_ranges<A>(
    text: Seq<A>,
    query: Seq<A>,
    same: spec_fn(A, A) -> bool,
) -> Seq<(int, int)> {
    occurrences(text, query, 0, same).map_values(|start: int| (start, start + query.len()))
}

/// Machine ranges read as integer ranges.
pub open spec fn int_ranges(ranges: Seq<(usize, usize)>) -> Seq<(int, int)> {
    ranges.map_values(|range: (usize, usize)| (range.0 as int, range.1 as int))
}

/// Characters equal ignoring ASCII case.
pub open spec fn same_char() -> spec_fn(char, char) -> bool {
    |a: char, b: char| ascii_ci_eq(a, b)
}

/// Grapheme clusters equal ignoring ASCII case.
pub open spec fn same_cluster() -> spec_fn(Seq<char>, Seq<char>) -> bool {
    |a: Seq<char>, b: Seq<char>| ascii_ci_seq_eq(a, b)
}

/// Whether `query` occurs in `text` at `at`, ignoring ASCII case.
pub fn chars_found_at(text: &Vec<char>, query: &Vec<char>, at: usize) -> (found: bool)
    requires
        at + query@.len() <= text@.len(),
    ensures
        found == found_at(text@, query@, at as int, same_char()),
{
    let n = text.len();
    let mut j: usize = 0;
    while j < query.len()
        invariant
            n == text@.len(),
            at + query@.len() <= text@.len(),
            j <= query@.len(),
            forall|k: int| 0 <= k < j ==> ascii_ci_eq(#[trigger] text@[at + k], query@[k]),
        decreases query@.len() - j,
    {
        if !eq_ignore_ascii_case(text[at + j], query[j]) {
            assert(!ascii_ci_eq(text@[at + j as int], query@[j as int]));
            return false;
        }
        j += 1;
    }
    true
}

/// The character ranges where `query` occurs in `text`,
/// ASCII-case-insensitively, left to right and without overlap.
pub fn char_matches(text: &Vec<char>, query: &Vec<char>) -> (ranges: Vec<(usize, usize)>)
    ensures
        int_ranges(ranges@) == occurrence_ranges(text@, query@, same_char()),
        crate::scan::pairs_within(ranges@, text@.len() as int),
{
    let mut ranges: Vec<(usize, usize)> = Vec::new();
    let ghost len = query@.len();
    let ghost span = |start: int| (start, start + len);
    if query.len() == 0 {
        assert(int_ranges(ranges@) =~= occurrence_ranges(text@, query@, same_char()));
        return ranges;
    }
    if query.len() > text.len() {
        assert(int_ranges(ranges@) =~= occurrence_ranges(text@, query@, same_char()));
        return ranges;
    }
    let n = text.len();
    let last = n - query.len();
    let mut at: usize = 0;
    assert(int_ranges(ranges@) + occurrences(text@, query@, 0, same_char()).map_values(span)
        =~= occurrence_ranges(text@, query@, same_char()));
    while at <= last
        invariant
            query@.len() == len > 0,
            span == (|start: int| (start, start + len)),
            at <= n,
            n == text@.len(),
            last == text@.len() - query@.len(),
            int_ranges(ranges@) + occurrences(text@, query@, at as int, same_char()).map_values(span)
                == occurrence_ranges(text@, query@, same_char()),
            crate::scan::pairs_within(ranges@, text@.len() as int),
        decreases text@.len() - at,
    {
        let found = chars_found_at(text, query, at);
        let ghost before = ranges@;
        if found {
            let ghost rest = occurrences(text@, query@, (at + query.len()) as int, same_char());
            assert(occurrences(text@, query@, at as int, same_char()) == seq![at as int] + rest);
            assert((seq![at as int] + rest).map_values(span) =~= seq![span(at as int)]
                + rest.map_values(span));
            ranges.push((at, at + query.len()));
            assert(int_ranges(ranges@) =~= int_ranges(before).push(span(at as int)));
            at = at + query.len();
        } else {
            at = at + 1;
        }
    }
    assert(occurrences(text@, query@, at as int, same_char()) =~= seq![]);
    assert(int_ranges(ranges@) + seq![] =~= int_ranges(ranges@));
    ranges
}


/// The clusters of a vector of character vectors.
pub open spec fn cluster_views(clusters: Seq<Vec<char>>) -> Seq<Seq<char>> {
    clusters.map_values(|cluster: Vec<char>| cluster@)
}

/// Whether `query` occurs in `text` at `at`, cluster by cluster ignoring
/// ASCII case.
pub fn clusters_found_at(text: &Vec<Vec<char>>, query: &Vec<Vec<char>>, at: usize) -> (found: bool)
    requires
        at + query@.len() <= text@.len(),
    ensures
        found == found_at(cluster_views(text@), cluster_views(query@), at as int, same_cluster()),
{
    let n = text.len();
    let mut j: usize = 0;
    while j < query.len()
        invariant
            n == text@.len(),
            at + query@.len() <= text@.len(),
            j <= query@.len(),
            forall|k: int|
                0 <= k < j ==> ascii_ci_seq_eq(
                    #[trigger] cluster_views(text@)[at + k],
                    cluster_views(query@)[k],
                ),
        decreases query@.len() - j,
    {
        if !seq_eq_ignore_ascii_case(&text[at + j], &query[j]) {
            assert(!ascii_ci_seq_eq(
                cluster_views(text@)[at + j as int],
                cluster_views(query@)[j as int],
            ));
            return false;
        }
        j += 1;
    }
    true
}

/// The cluster ranges where `query` occurs in `text`, each cluster
/// compared ignoring ASCII case, left to right and without overlap.
pub fn cluster_matches(text: &Vec<Vec<char>>, query: &Vec<Vec<char>>) -> (ranges: Vec<
    (usize, usize),
>)
    ensures
        int_ranges(ranges@) == occurrence_ranges(
            cluster_views(text@),
            cluster_views(query@),
            same_cluster(),
        ),
{
    let ghost t = cluster_views(text@);
    let ghost q = cluster_views(query@);
    let mut ranges: Vec<(usize, usize)> = Vec::new();
    let ghost len = query@.len();
    let ghost span = |start: int| (start, start + len);
    if query.len() == 0 {
        assert(int_ranges(ranges@) =~= occurrence_ranges(t, q, same_cluster()));
        return ranges;
    }
    if query.len() > text.len() {
        assert(int_ranges(ranges@) =~= occurrence_ranges(t, q, same_cluster()));
        return ranges;
    }
    let n = text.len();
    let last = n - query.len();
    let mut at: usize = 0;
    assert(int_ranges(ranges@) + occurrences(t, q, 0, same_cluster()).map_values(span)
        =~= occurrence_ranges(t, q, same_cluster()));
    while at <= last
        invariant
            t == cluster_views(text@),
            q == cluster_views(query@),
            query@.len() == len > 0,
            span == (|start: int| (start, start + len)),
            at <= n,
            n == text@.len(),
            last == text@.len() - query@.len(),
            int_ranges(ranges@) + occurrences(t, q, at as int, same_cluster()).map_values(span)
                == occurrence_ranges(t, q, same_cluster()),
        decreases text@.len() - at,
    {
        let found = clusters_found_at(text, query, at);
        let ghost before = ranges@;
        if found {
            let ghost rest = occurrences(t, q, (at + query.len()) as int, same_cluster());
            assert(occurrences(t, q, at as int, same_cluster()) == seq![at as int] + rest);
            assert((seq![at as int] + rest).map_values(span) =~= seq![span(at as int)]
                + rest.map_values(span));
            ranges.push((at, at + query.len()));
            assert(int_ranges(ranges@) =~= int_ranges(before).push(span(at as int)));
            at = at + query.len();
        } else {
            at = at + 1;
        }
    }
    assert(occurrences(t, q, at as int, same_cluster()) =~= seq![]);
    assert(int_ranges(ranges@) + seq![] =~= int_ranges(ranges@));
    ranges
}


// ---------------------------------------------------------------------------
// List continuation.
// ---------------------------------------------------------------------------

/// What pressing Enter does, based on the line before the cursor.
#[derive(Debug, Clone, PartialEq, Eq)]
pub enum Continuation {
    /// A plain line break.
    Break,
    /// Continue a list: break the line, then insert this prefix
    /// (e.g. `"- "`, `"2. "`, `"- [ ] "`), indent included.
    Continue(String),
    /// The list item is empty: remove this many characters (the marker)
    /// before breaking the line, ending the list.
    Outdent(usize),
}

/// How many spaces and tabs a line starts with.
pub open spec fn indent_len(line: Seq<char>) -> nat
    decreases line.len(),
{
    if line.len() > 0 && (line[0] == ' ' || line[0] == '\t') {
        1 + indent_len(line.drop_first())
    } else {
        0
    }
}

/// How many ASCII digits a text starts with.
pub open spec fn leading_digits(text: Seq<char>) -> nat
    decreases text.len(),
{
    if text.len() > 0 && is_ascii_digit(text[0]) {
        1 + leading_digits(text.drop_first())
    } else {
        0
    }
}

/// The number a run of ASCII digits spells.
pub open spec fn digits_value(digits: Seq<char>) -> nat
    decreases digits.len(),
{
    if digits.len() == 0 {
        0
    } else {
        digits_value(digits.drop_last()) * 10 + ((digits.last() as u32 - '0' as u32) as nat)
    }
}

/// Whether a list item's text starts with a task checkbox and a space.
pub open spec fn starts_with_checkbox(item: Seq<char>) -> bool {
    &&& item.len() >= 4
    &&& item[0] == '['
    &&& (item[1] == ' ' || item[1] == 'x' || item[1] == 'X')
    &&& item[2] == ']'
    &&& item[3] == ' '
}

/// The number an ordered item's digits parse to: a number too large for a
/// `usize` fails to parse and counts as zero.
pub open spec fn item_number(digits: Seq<char>) -> nat {
    if digits_value(digits) <= usize::MAX {
        digits_value(digits)
    } else {
        0
    }
}

/// The list marker a line (after its indentation) starts with: its length
/// and the prefix the next item starts with. Bullets continue as
/// themselves, tasks continue unchecked, ordered items continue with the
/// next number and the same delimiter.
pub open spec fn list_marker(rest: Seq<char>) -> Option<(nat, Seq<char>)> {
    if rest.len() >= 2 && (rest[0] == '-' || rest[0] == '*' || rest[0] == '+') && rest[1] == ' ' {
        if starts_with_checkbox(rest.skip(2)) {
            Some((6, seq![rest[0], ' ', '[', ' ', ']', ' ']))
        } else {
            Some((2, seq![rest[0], ' ']))
        }
    } else {
        let d = leading_digits(rest);
        if d > 0 && rest.len() >= d + 2 && (rest[d as int] == '.' || rest[d as int] == ')')
            && rest[d + 1int] == ' ' {
            Some(
                (
                    (d + 2) as nat,
                    decimal(item_number(rest.take(d as int)) + 1) + seq![rest[d as int], ' '],
                ),
            )
        } else {
            None
        }
    }
}

/// Whether every character of a text is whitespace.
pub open spec fn all_whitespace(text: Seq<char>) -> bool {
    forall|i: int| 0 <= i < text.len() ==> unicode_whitespace(#[trigger] text[i])
}

/// Whether the line is an ordered item numbered `usize::MAX`, whose
/// successor has no `usize`.
pub open spec fn numbering_overflows(line: Seq<char>) -> bool {
    let rest = line.skip(indent_len(line) as int);
    let d = leading_digits(rest);
    &&& !(rest.len() >= 2 && (rest[0] == '-' || rest[0] == '*' || rest[0] == '+') && rest[1]
        == ' ')
    &&& d > 0
    &&& rest.len() >= d + 2
    &&& (rest[d as int] == '.' || rest[d as int] == ')')
    &&& rest[d + 1int] == ' '
    &&& digits_value(rest.take(d as int)) == usize::MAX
}

/// What Enter does at the end of a line, as a function of the line.
pub open spec fn continuation_of(line: Seq<char>) -> (int, Option<Seq<char>>) {
    let indent = indent_len(line);
    let rest = line.skip(indent as int);
    match list_marker(rest) {
        None => (0, None),
        Some((len, next)) => if all_whitespace(rest.skip(len as int)) {
            (line.len() as int, None)
        } else {
            (-1, Some(line.take(indent as int) + next))
        },
    }
}

proof fn lemma_indent_len(line: Seq<char>, i: int)
    requires
        0 <= i <= indent_len(line),
    ensures
        indent_len(line) <= line.len(),
        i < indent_len(line) ==> (line[i] == ' ' || line[i] == '\t'),
        i == indent_len(line) ==> !(i < line.len() && (line[i] == ' ' || line[i] == '\t')),
    decreases line.len(),
{
    if line.len() > 0 && (line[0] == ' ' || line[0] == '\t') {
        if i > 0 {
            lemma_indent_len(line.drop_first(), i - 1);
        } else {
            lemma_indent_len(line.drop_first(), 0);
        }
    }
}

proof fn lemma_leading_digits(text: Seq<char>, i: int)
    requires
        0 <= i <= leading_digits(text),
    ensures
        leading_digits(text) <= text.len(),
        i < leading_digits(text) ==> is_ascii_digit(text[i]),
        i == leading_digits(text) ==> !(i < text.len() && is_ascii_digit(text[i])),
    decreases text.len(),
{
    if text.len() > 0 && is_ascii_digit(text[0]) {
        if i > 0 {
            lemma_leading_digits(text.drop_first(), i - 1);
        } else {
            lemma_leading_digits(text.drop_first(), 0);
        }
    }
}

/// How many spaces and tabs `line` starts with.
fn count_indent(line: &Vec<char>) -> (count: usize)
    ensures
        count == indent_len(line@),
{
    let mut i: usize = 0;
    assert(line@.skip(0) =~= line@);
    while i < line.len() && (line[i] == ' ' || line[i] == '\t')
        invariant
            i <= line@.len(),
            indent_len(line@) == i + indent_len(line@.skip(i as int)),
        decreases line@.len() - i,
    {
        assert(line@.skip(i as int).drop_first() =~= line@.skip(i + 1));
        i += 1;
    }
    i
}

/// How many ASCII digits follow `from` in `line`.
fn count_digits(line: &Vec<char>, from: usize) -> (count: usize)
    requires
        from <= line@.len(),
    ensures
        count == leading_digits(line@.skip(from as int)),
        from + count <= line@.len(),
{
    let mut i: usize = from;
    while i < line.len() && ascii_digit(line[i])
        invariant
            from <= i <= line@.len(),
            leading_digits(line@.skip(from as int)) == (i - from) + leading_digits(
                line@.skip(i as int),
            ),
        decreases line@.len() - i,
    {
        assert(line@.skip(i as int).drop_first() =~= line@.skip(i + 1));
        i += 1;
    }
    i - from
}

/// The number `line[from..to]` spells, or `None` when it does not fit a
/// `usize`.
fn parse_digits(line: &Vec<char>, from: usize, to: usize) -> (number: Option<usize>)
    requires
        from <= to <= line@.len(),
        forall|i: int| from <= i < to ==> is_ascii_digit(#[trigger] line@[i]),
    ensures
        number == if digits_value(line@.subrange(from as int, to as int)) <= usize::MAX {
            Some(digits_value(line@.subrange(from as int, to as int)) as usize)
        } else {
            None::<usize>
        },
{
    let mut value: Option<usize> = Some(0);
    let mut i: usize = from;
    while i < to
        invariant
            from <= i <= to <= line@.len(),
            forall|k: int| from <= k < to ==> is_ascii_digit(#[trigger] line@[k]),
            value == if digits_value(line@.subrange(from as int, i as int)) <= usize::MAX {
                Some(digits_value(line@.subrange(from as int, i as int)) as usize)
            } else {
                None::<usize>
            },
        decreases to - i,
    {
        let ghost before = line@.subrange(from as int, i as int);
        let ghost after = line@.subrange(from as int, i + 1);
        assert(after.drop_last() =~= before);
        assert(after.last() == line@[i as int]);
        let digit = (line[i] as u32 - '0' as u32) as usize;
        assert(digits_value(after) == digits_value(before) * 10 + digit);
        value = match value {
            Some(v) => match v.checked_mul(10) {
                Some(w) => w.checked_add(digit),
                None => None,
            },
            None => None,
        };
        i += 1;
    }
    value
}

proof fn lemma_decimal_digits(n: nat)
    ensures
        decimal(n).len() > 0,
        forall|i: int| 0 <= i < decimal(n).len() ==> is_ascii_digit(#[trigger] decimal(n)[i]),
    decreases n,
{
    if n >= 10 {
        lemma_decimal_digits(n / 10);
    }
}

proof fn lemma_leading_digits_of(digits: Seq<char>, tail: Seq<char>)
    requires
        forall|i: int| 0 <= i < digits.len() ==> is_ascii_digit(#[trigger] digits[i]),
        tail.len() > 0,
        !is_ascii_digit(tail[0]),
    ensures
        leading_digits(digits + tail) == digits.len(),
    decreases digits.len(),
{
    if digits.len() > 0 {
        assert((digits + tail).drop_first() =~= digits.drop_first() + tail);
        lemma_leading_digits_of(digits.drop_first(), tail);
    } else {
        assert(digits + tail =~= tail);
    }
}

proof fn lemma_indent_of(blanks: Seq<char>, text: Seq<char>)
    requires
        forall|i: int| 0 <= i < blanks.len() ==> (#[trigger] blanks[i] == ' ' || blanks[i] == '\t'),
        text.len() > 0,
        text[0] != ' ' && text[0] != '\t',
    ensures
        indent_len(blanks + text) == blanks.len(),
    decreases blanks.len(),
{
    if blanks.len() > 0 {
        assert((blanks + text).drop_first() =~= blanks.drop_first() + text);
        lemma_indent_of(blanks.drop_first(), text);
    } else {
        assert(blanks + text =~= text);
    }
}

/// The prefix a list line continues with ends its list when Enter comes
/// again: it keeps the line's indentation, ends in a space, and, holding
/// a list marker and nothing after it, is outdented whole.
pub proof fn law_enter_twice_ends_the_list(line: Seq<char>)
    requires
        continuation_of(line).1 is Some,
    ensures
        ({
            let prefix = continuation_of(line).1->0;
            let indent = indent_len(line) as int;
            &&& indent <= prefix.len()
            &&& prefix.take(indent) == line.take(indent)
            &&& prefix.len() > 0 && prefix.last() == ' '
            &&& continuation_of(prefix) == (prefix.len() as int, None::<Seq<char>>)
        }),
{
    let indent = indent_len(line);
    lemma_indent_len(line, indent as int);
    let rest = line.skip(indent as int);
    let (len, next) = list_marker(rest)->0;
    let blanks = line.take(indent as int);
    assert forall|i: int| 0 <= i < blanks.len() implies (#[trigger] blanks[i] == ' ' || blanks[i]
        == '\t') by {
        lemma_indent_len(line, i);
    }
    let prefix = blanks + next;
    assert(continuation_of(line).1->0 == prefix);
    if rest.len() >= 2 && (rest[0] == '-' || rest[0] == '*' || rest[0] == '+') && rest[1] == ' ' {
        lemma_indent_of(blanks, next);
        assert(prefix.skip(indent as int) =~= next);
        assert(next.skip(2).len() < 4 || next.skip(2).len() == 4);
        if starts_with_checkbox(rest.skip(2)) {
            assert(next.skip(2) =~= seq!['[', ' ', ']', ' ']);
            assert(next.skip(6) =~= Seq::<char>::empty());
        } else {
            assert(next.skip(2) =~= Seq::<char>::empty());
        }
    } else {
        let d = leading_digits(rest);
        let number = decimal(item_number(rest.take(d as int)) + 1);
        let tail = seq![rest[d as int], ' '];
        assert(next == number + tail);
        lemma_decimal_digits(item_number(rest.take(d as int)) + 1);
        lemma_leading_digits_of(number, tail);
        lemma_indent_of(blanks, next);
        assert(prefix.skip(indent as int) =~= next);
        assert(next[0] == number[0]);
        assert(!(next[0] == '-' || next[0] == '*' || next[0] == '+'));
        assert(next[number.len() as int] == rest[d as int]);
        assert(next.skip(number.len() + 2int) =~= Seq::<char>::empty());
    }
}

/// Enter on a bullet item with text continues the list at the same depth:
/// the new item repeats the item's indentation and bullet, whatever the
/// indentation and the text.
pub proof fn law_bullets_continue_with_their_indent(
    blanks: Seq<char>,
    bullet: char,
    item: Seq<char>,
    visible: int,
)
    requires
        forall|i: int| 0 <= i < blanks.len() ==> (#[trigger] blanks[i] == ' ' || blanks[i] == '\t'),
        bullet == '-' || bullet == '*' || bullet == '+',
        !starts_with_checkbox(item),
        0 <= visible < item.len(),
        !unicode_whitespace(item[visible]),
    ensures
        continuation_of(blanks + seq![bullet, ' '] + item) == (
            -1int,
            Some(blanks + seq![bullet, ' ']),
        ),
{
    let line = blanks + seq![bullet, ' '] + item;
    let rest = seq![bullet, ' '] + item;
    assert(line =~= blanks + rest);
    lemma_indent_of(blanks, rest);
    assert(line.skip(blanks.len() as int) =~= rest);
    assert(rest.skip(2) =~= item);
    assert(line.take(blanks.len() as int) =~= blanks);
    assert(!all_whitespace(item));
}

/// Decides what Enter does at the end of `line_before_cursor`.
pub fn continuation(before: &str) -> (next: Continuation)
    requires
        !numbering_overflows(before@),
    ensures
        ({
            let (outdent, prefix) = continuation_of(before@);
            match next {
                Continuation::Break => outdent == 0 && prefix is None,
                Continuation::Outdent(count) => prefix is None && outdent == count && count
                    == before@.len() && count > 0,
                Continuation::Continue(text) => prefix == Some(text@),
            }
        }),
{
    match try_continuation(before) {
        Some(next) => next,
        None => {
            assert(false);
            Continuation::Break
        },
    }
}

/// What Enter does at the end of `line_before_cursor`, or `None` for an
/// ordered item numbered `usize::MAX`, whose successor has no number.
pub fn try_continuation(before: &str) -> (next: Option<Continuation>)
    ensures
        next is None <==> numbering_overflows(before@),
        next matches Some(next) ==> ({
            let (outdent, prefix) = continuation_of(before@);
            match next {
                Continuation::Break => outdent == 0 && prefix is None,
                Continuation::Outdent(count) => prefix is None && outdent == count && count
                    == before@.len() && count > 0,
                Continuation::Continue(text) => prefix == Some(text@),
            }
        }),
{
    let line = chars_of(before);
    let indent = count_indent(&line);
    proof {
        lemma_indent_len(line@, indent as int);
    }
    let ghost rest = line@.skip(indent as int);
    let rest_len = line.len() - indent;
    let mut next = String::new();
    let marker_len: usize;
    if rest_len >= 2 && (line[indent] == '-' || line[indent] == '*' || line[indent] == '+')
        && line[indent + 1] == ' ' {
        let bullet = line[indent];
        let item = indent + 2;
        let checkbox = line.len() - item >= 4 && line[item] == '[' && (line[item + 1] == ' '
            || line[item + 1] == 'x' || line[item + 1] == 'X') && line[item + 2] == ']'
            && line[item + 3] == ' ';
        push_char(&mut next, bullet);
        push_char(&mut next, ' ');
        if checkbox {
            push_char(&mut next, '[');
            push_char(&mut next, ' ');
            push_char(&mut next, ']');
            push_char(&mut next, ' ');
            marker_len = 6;
        } else {
            marker_len = 2;
        }
        proof {
            assert(starts_with_checkbox(rest.skip(2)) == checkbox);
        }
    } else {
        let digits = count_digits(&line, indent);
        proof {
            lemma_leading_digits(rest, digits as int);
        }
        if digits > 0 && rest_len - digits >= 2 && (line[indent + digits] == '.' || line[indent
            + digits] == ')') && line[indent + digits + 1] == ' ' {
            proof {
                assert forall|i: int| indent <= i < indent + digits implies is_ascii_digit(
                    #[trigger] line@[i],
                ) by {
                    lemma_leading_digits(rest, i - indent);
                }
                assert(line@.subrange(indent as int, (indent + digits) as int) =~= rest.take(
                    digits as int,
                ));
            }
            let number = match parse_digits(&line, indent, indent + digits) {
                Some(n) => n,
                None => 0,
            };
            if number == usize::MAX {
                return None;
            }
            push_decimal(&mut next, number + 1);
            push_char(&mut next, line[indent + digits]);
            push_char(&mut next, ' ');
            marker_len = digits + 2;
        } else {
            return Some(Continuation::Break);
        }
    }
    // An empty item: Enter removes the marker and ends the list.
    let mut blank = true;
    let mut i: usize = indent + marker_len;
    while i < line.len()
        invariant
            indent + marker_len <= i <= line@.len(),
            blank == forall|k: int|
                indent + marker_len <= k < i ==> unicode_whitespace(#[trigger] line@[k]),
        decreases line@.len() - i,
    {
        if !is_whitespace(line[i]) {
            blank = false;
        }
        i += 1;
    }
    proof {
        let tail = rest.skip(marker_len as int);
        assert(blank == all_whitespace(tail)) by {
            if blank {
                assert forall|k: int| 0 <= k < tail.len() implies unicode_whitespace(
                    #[trigger] tail[k],
                ) by {
                    assert(tail[k] == line@[indent + marker_len + k]);
                }
            } else {
                let k = choose|k: int|
                    indent + marker_len <= k < line@.len() && !unicode_whitespace(line@[k]);
                assert(tail[k - indent - marker_len] == line@[k]);
            }
        }
    }
    if blank {
        Some(Continuation::Outdent(line.len()))
    } else {
        let mut prefix = string_of_range(&line, 0, indent);
        let next_chars = chars_of(next.as_str());
        push_all(&mut prefix, &next_chars);
        Some(Continuation::Continue(prefix))
    }
}

} // verus!
