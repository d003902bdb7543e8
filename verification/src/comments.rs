//! Comments: threads of notes anchored to preview elements (a spot, a
//! selected span, or the document as a whole), the active comment, each
//! comment's edit history, and the cards the sidebar shows.
//!
//! A **thread** is its root comment plus the replies saved on the same
//! anchor, and a resolved flag. Resolved threads are history: they stop
//! marking elements, cycling skips them, and the cards list them below the
//! open ones. Editing a comment keeps its previous texts as history.
use crate::highlight::{byte_offset, byte_offsets};
use crate::preview::{caret_le, CaretPosition, PreviewElement};
use crate::text::{
    chars_of, flatten, grapheme_clusters, graphemes, is_whitespace, push_char, push_str_chars,
    string_of_range, unicode_whitespace,
};
use vstd::prelude::*;

verus! {

/// How many characters of an element's Markdown source a comment card
/// quotes before cutting it off.
pub const COMMENT_QUOTE_MAX_CHARS: usize = 60;

/// How many characters of the comment text itself a card shows before
/// cutting it off, so every card keeps the same bounded height.
pub const COMMENT_TEXT_MAX_CHARS: usize = 100;

/// Whether a preview element carries a comment, and which kind.
#[derive(Debug, Clone, Copy, PartialEq, Eq, Structural)]
pub enum Mark {
    /// No comment marks the element.
    Unmarked,
    Commented,
    /// The element the currently active comment is anchored to.
    Active,
}

/// A bordered rectangle framing commented text in a preview element: the
/// grapheme range it surrounds and whether it belongs to the active
/// comment.
#[derive(Debug, Clone, Copy, PartialEq, Eq)]
pub struct Outline {
    pub range: (usize, usize),
    pub mark: Mark,
}

/// A span of the preview between two caret positions, normalized so
/// `start <= end`.
#[derive(Debug, Clone, Copy, PartialEq, Eq, Structural)]
pub struct Span {
    start: CaretPosition,
    end: CaretPosition,
}

impl Span {
    /// The first position of the span.
    pub closed spec fn first(self) -> CaretPosition {
        self.start
    }

    /// The last position of the span.
    pub closed spec fn last(self) -> CaretPosition {
        self.end
    }

    /// The span between `a` and `b`, in whichever order they come.
    pub closed spec fn between(a: CaretPosition, b: CaretPosition) -> Span {
        if caret_le(a, b) {
            Span { start: a, end: b }
        } else {
            Span { start: b, end: a }
        }
    }

    /// The span between `a` and `b`, in whichever order they come.
    pub fn new(a: CaretPosition, b: CaretPosition) -> (span: Span)
        ensures
            span == Span::between(a, b),
            caret_le(a, b) ==> span.first() == a && span.last() == b,
            !caret_le(a, b) ==> span.first() == b && span.last() == a,
    {
        if a.le(&b) {
            Span { start: a, end: b }
        } else {
            Span { start: b, end: a }
        }
    }

    /// The position the caret jumps to: the start of the span.
    pub fn start(&self) -> (start: CaretPosition)
        ensures
            start == self.first(),
    {
        self.start
    }

    /// The end of the span.
    pub fn end(&self) -> (end: CaretPosition)
        ensures
            end == self.last(),
    {
        self.end
    }
}

/// A span forgets the order of its ends: the span between `a` and `b` is
/// the span between `b` and `a`, it starts at the earlier of the two and
/// ends at the later one, so its start never comes after its end.
pub proof fn law_span_is_unordered(a: CaretPosition, b: CaretPosition)
    ensures
        Span::between(a, b) == Span::between(b, a),
        caret_le(Span::between(a, b).first(), Span::between(a, b).last()),
        caret_le(Span::between(a, b).first(), a) && caret_le(Span::between(a, b).first(), b),
        caret_le(a, Span::between(a, b).last()) && caret_le(b, Span::between(a, b).last()),
        Span::between(a, b).first() == a || Span::between(a, b).first() == b,
        Span::between(a, b).last() == a || Span::between(a, b).last() == b,
{
}

/// Whether the span is normalized: its start comes no later than its end.
pub open spec fn ordered(span: Span) -> bool {
    caret_le(span.first(), span.last())
}

/// What a thread is anchored to: a caret position, a selected span, or
/// nothing — a global comment about the whole document.
#[derive(Debug, Clone, Copy, PartialEq, Eq, Structural)]
pub enum Anchor {
    Caret(CaretPosition),
    Selection(Span),
    Global,
}

/// The grapheme slice of `element` a span covers: partial at the span's
/// endpoints, whole elements in between, nothing when empty.
pub open spec fn span_slice_spec(span: Span, element: int, len: int) -> Option<(int, int)> {
    let lo = span.first();
    let hi = span.last();
    if element < lo.element || element > hi.element {
        None
    } else {
        let start = if element == lo.element {
            if lo.column <= len {
                lo.column as int
            } else {
                len
            }
        } else {
            0
        };
        let end = if element == hi.element {
            if hi.column <= len {
                hi.column as int
            } else {
                len
            }
        } else {
            len
        };
        if end > start {
            Some((start, end))
        } else {
            None
        }
    }
}

/// The grapheme slice of `element` a span covers: partial at the span's
/// endpoints, whole elements in between — the same slicing the visual
/// selection paints.
pub fn span_slice(span: Span, element: usize, len: usize) -> (slice: Option<(usize, usize)>)
    ensures
        match (slice, span_slice_spec(span, element as int, len as int)) {
            (Some(r), Some(s)) => r.0 == s.0 && r.1 == s.1,
            (None, None) => true,
            _ => false,
        },
{
    let lo = span.start;
    let hi = span.end;
    if element < lo.element || element > hi.element {
        return None;
    }
    let start = if element == lo.element {
        if lo.column <= len {
            lo.column
        } else {
            len
        }
    } else {
        0
    };
    let end = if element == hi.element {
        if hi.column <= len {
            hi.column
        } else {
            len
        }
    } else {
        len
    };
    if end > start {
        Some((start, end))
    } else {
        None
    }
}

impl Anchor {
    /// Where the anchor begins; global anchors have no position.
    pub open spec fn position_spec(self) -> Option<CaretPosition> {
        match self {
            Anchor::Caret(position) => Some(position),
            Anchor::Selection(span) => Some(span.first()),
            Anchor::Global => None,
        }
    }

    /// Whether a caret position falls inside the anchor: the same element
    /// for spot anchors, anywhere within the span for selections.
    pub open spec fn covers_spec(self, position: CaretPosition) -> bool {
        match self {
            Anchor::Caret(at) => at.element == position.element,
            Anchor::Selection(span) => caret_le(span.first(), position) && caret_le(
                position,
                span.last(),
            ),
            Anchor::Global => false,
        }
    }

    /// Whether the anchor marks the element: spot anchors mark their
    /// element, selections the elements contributing at least one grapheme
    /// of the span.
    pub open spec fn marks_spec(self, element: int, len: int) -> bool {
        match self {
            Anchor::Caret(at) => at.element == element,
            Anchor::Selection(span) => span_slice_spec(span, element, len) is Some,
            Anchor::Global => false,
        }
    }

    /// The position the caret jumps to when the thread activates: where
    /// the anchor begins. Global anchors have nowhere to jump to.
    pub fn position(&self) -> (position: Option<CaretPosition>)
        ensures
            position == self.position_spec(),
    {
        match self {
            Anchor::Caret(position) => Some(*position),
            Anchor::Selection(span) => Some(span.start()),
            Anchor::Global => None,
        }
    }

    /// Whether a caret position falls inside the anchor. Saving a note at
    /// a covered position replies to that thread.
    pub fn covers(&self, position: CaretPosition) -> (inside: bool)
        ensures
            inside == self.covers_spec(position),
    {
        match self {
            Anchor::Caret(at) => at.element == position.element,
            Anchor::Selection(span) => span.start.le(&position) && position.le(&span.end),
            Anchor::Global => false,
        }
    }

    /// Whether the anchor marks the given element.
    pub fn marks(&self, element: usize, len: usize) -> (marked: bool)
        ensures
            marked == self.marks_spec(element as int, len as int),
    {
        match self {
            Anchor::Caret(at) => at.element == element,
            Anchor::Selection(span) => span_slice(*span, element, len).is_some(),
            Anchor::Global => false,
        }
    }
}

// ---------------------------------------------------------------------------
// Trimming and condensing text.
// ---------------------------------------------------------------------------

/// How many whitespace characters start `s`.
pub open spec fn leading_whitespace(s: Seq<char>) -> nat
    decreases s.len(),
{
    if s.len() > 0 && unicode_whitespace(s[0]) {
        1 + leading_whitespace(s.drop_first())
    } else {
        0
    }
}

/// How many whitespace characters end `s`.
pub open spec fn trailing_whitespace(s: Seq<char>) -> nat
    decreases s.len(),
{
    if s.len() > 0 && unicode_whitespace(s.last()) {
        1 + trailing_whitespace(s.drop_last())
    } else {
        0
    }
}

/// `s` without its leading and trailing whitespace.
pub open spec fn trim_spec(s: Seq<char>) -> Seq<char> {
    let rest = s.skip(leading_whitespace(s) as int);
    rest.take(rest.len() - trailing_whitespace(rest))
}

proof fn lemma_leading_bound(s: Seq<char>)
    ensures
        leading_whitespace(s) <= s.len(),
    decreases s.len(),
{
    if s.len() > 0 && unicode_whitespace(s[0]) {
        lemma_leading_bound(s.drop_first());
    }
}

proof fn lemma_trailing_bound(s: Seq<char>)
    ensures
        trailing_whitespace(s) <= s.len(),
    decreases s.len(),
{
    if s.len() > 0 && unicode_whitespace(s.last()) {
        lemma_trailing_bound(s.drop_last());
    }
}

/// A note's text without its surrounding whitespace.
pub fn trimmed(text: &str) -> (trimmed: String)
    ensures
        trimmed@ == trim_spec(text@),
{
    let chars = chars_of(text);
    let ghost s = chars@;
    let mut start: usize = 0;
    assert(s.skip(0) =~= s);
    while start < chars.len() && is_whitespace(chars[start])
        invariant
            start <= s.len(),
            s == chars@,
            leading_whitespace(s) == start + leading_whitespace(s.skip(start as int)),
        decreases s.len() - start,
    {
        assert(s.skip(start as int).drop_first() =~= s.skip(start + 1));
        start += 1;
    }
    assert(leading_whitespace(s.skip(start as int)) == 0);
    let ghost rest = s.skip(start as int);
    let mut end: usize = chars.len();
    assert(rest.take(rest.len() as int) =~= rest);
    while end > start && is_whitespace(chars[end - 1])
        invariant
            start <= end <= s.len(),
            s == chars@,
            rest == s.skip(start as int),
            trailing_whitespace(rest) == (s.len() - end) + trailing_whitespace(
                rest.take(end - start),
            ),
        decreases end - start,
    {
        assert(rest.take(end - start).drop_last() =~= rest.take(end - start - 1));
        assert(rest.take(end - start).last() == s[end - 1]);
        end -= 1;
    }
    proof {
        if end > start {
            assert(rest.take(end - start).last() == s[end - 1]);
        }
        assert(trailing_whitespace(rest.take(end - start)) == 0);
        assert(rest.take(end - start) =~= s.subrange(start as int, end as int));
    }
    string_of_range(&chars, start, end)
}

/// `s` collapsed to one line: its whitespace-separated words joined by
/// single spaces. A character that is not whitespace continues the last
/// word, or, after whitespace, starts a new one.
pub open spec fn collapsed(s: Seq<char>) -> Seq<char>
    decreases s.len(),
{
    if s.len() == 0 {
        seq![]
    } else {
        let before = collapsed(s.drop_last());
        let c = s.last();
        if unicode_whitespace(c) {
            before
        } else if s.len() >= 2 && unicode_whitespace(s[s.len() - 2]) && before.len() > 0 {
            before.push(' ').push(c)
        } else {
            before.push(c)
        }
    }
}

/// Text condensed for a card: collapsed to one line, and cut off after
/// `max` characters with an ellipsis.
pub open spec fn condensed_spec(s: Seq<char>, max: nat) -> Seq<char> {
    let line = collapsed(s);
    if line.len() > max {
        line.take(max as int).push('…')
    } else {
        line
    }
}

/// Condenses text for a comment card: collapses it to one line and cuts it
/// off after `max_chars` characters with an ellipsis.
pub fn condensed(text: &str, max_chars: usize) -> (line: String)
    ensures
        line@ == condensed_spec(text@, max_chars as nat),
{
    let chars = chars_of(text);
    let ghost s = chars@;
    let mut out: Vec<char> = Vec::new();
    let mut after_space = false;
    let mut i: usize = 0;
    while i < chars.len()
        invariant
            i <= s.len(),
            s == chars@,
            out@ == collapsed(s.take(i as int)),
            after_space == (i > 0 && unicode_whitespace(s[i - 1])),
        decreases s.len() - i,
    {
        let c = chars[i];
        assert(s.take(i + 1).drop_last() =~= s.take(i as int));
        assert(s.take(i + 1).last() == c);
        if is_whitespace(c) {
            after_space = true;
        } else {
            if after_space && out.len() > 0 {
                assert(s.take(i + 1)[i - 1] == s[i - 1]);
                out.push(' ');
            } else {
                proof {
                    if i >= 1 {
                        assert(s.take(i + 1)[i - 1] == s[i - 1]);
                    }
                }
            }
            out.push(c);
            after_space = false;
        }
        i += 1;
    }
    assert(s.take(s.len() as int) =~= s);
    if out.len() > max_chars {
        let mut line = string_of_range(&out, 0, max_chars);
        push_char(&mut line, '…');
        line
    } else {
        let line = string_of_range(&out, 0, out.len());
        assert(out@.subrange(0, out@.len() as int) =~= out@);
        line
    }
}

/// Whitespace in `line` stands only as single spaces between two
/// characters that are not whitespace.
pub open spec fn spaces_only_between_words(line: Seq<char>) -> bool {
    forall|i: int|
        0 <= i < line.len() && unicode_whitespace(#[trigger] line[i]) ==> {
            &&& line[i] == ' '
            &&& 0 < i < line.len() - 1
            &&& !unicode_whitespace(line[i - 1])
            &&& !unicode_whitespace(line[i + 1])
        }
}

proof fn lemma_collapsed_one_line(s: Seq<char>)
    ensures
        spaces_only_between_words(collapsed(s)),
        collapsed(s).len() > 0 ==> !unicode_whitespace(collapsed(s).last()),
    decreases s.len(),
{
    if s.len() > 0 {
        let before = collapsed(s.drop_last());
        lemma_collapsed_one_line(s.drop_last());
        let c = s.last();
        let line = collapsed(s);
        if !unicode_whitespace(c) {
            assert forall|i: int|
                0 <= i < line.len() && unicode_whitespace(#[trigger] line[i]) implies {
                &&& line[i] == ' '
                &&& 0 < i < line.len() - 1
                &&& !unicode_whitespace(line[i - 1])
                &&& !unicode_whitespace(line[i + 1])
            } by {
                if i < before.len() {
                    assert(line[i] == before[i]);
                    assert(line[i - 1] == before[i - 1]);
                    assert(line[i + 1] == before[i + 1]);
                }
            }
        }
    }
}

/// A condensed card line is one short line: whitespace survives in the
/// collapsed text only as single spaces between words, and the card shows
/// that text whole when it fits in `max` characters, or else its first
/// `max` characters and an ellipsis.
pub proof fn law_condensed_is_one_short_line(s: Seq<char>, max: nat)
    ensures
        spaces_only_between_words(collapsed(s)),
        condensed_spec(s, max).len() <= max + 1,
        collapsed(s).len() <= max ==> condensed_spec(s, max) == collapsed(s),
        collapsed(s).len() > max ==> condensed_spec(s, max) == collapsed(s).take(max as int).push(
            '…',
        ),
{
    lemma_collapsed_one_line(s);
}

// ---------------------------------------------------------------------------
// The comments store.
// ---------------------------------------------------------------------------

/// One comment as the contracts see it: its text and the texts it
/// replaced, oldest first.
pub struct EntryModel {
    pub text: Seq<char>,
    pub history: Seq<Seq<char>>,
}

/// A thread as the contracts see it.
pub struct ThreadModel {
    pub entries: Seq<EntryModel>,
    pub anchor: Anchor,
    pub resolved: bool,
}

/// One comment in a thread: its current text and the texts it replaced.
struct Entry {
    text: String,
    history: Vec<String>,
}

impl Entry {
    closed spec fn model(self) -> EntryModel {
        EntryModel { text: self.text@, history: self.history@.map_values(|h: String| h@) }
    }
}

/// A thread of comments sharing one anchor: the root comment plus its
/// replies, and whether the discussion was resolved.
struct Thread {
    entries: Vec<Entry>,
    anchor: Anchor,
    resolved: bool,
}

impl Thread {
    closed spec fn model(self) -> ThreadModel {
        ThreadModel {
            entries: self.entries@.map_values(|e: Entry| e.model()),
            anchor: self.anchor,
            resolved: self.resolved,
        }
    }
}

/// A new comment holding `text`, with no history.
pub open spec fn fresh_entry(text: Seq<char>) -> EntryModel {
    EntryModel { text, history: seq![] }
}

/// A new open thread on `anchor` holding one comment.
pub open spec fn fresh_thread(text: Seq<char>, anchor: Anchor) -> ThreadModel {
    ThreadModel { entries: seq![fresh_entry(text)], anchor, resolved: false }
}

/// Whether `(thread, entry)` names a comment.
pub open spec fn names_comment(threads: Seq<ThreadModel>, at: (usize, usize)) -> bool {
    at.0 < threads.len() && at.1 < threads[at.0 as int].entries.len()
}

/// Whether a thread takes a reply saved with `anchor`: open, and covering
/// the caret position, or anchored to the very same span.
pub open spec fn takes_reply(thread: ThreadModel, anchor: Anchor) -> bool {
    !thread.resolved && match anchor {
        Anchor::Caret(position) => thread.anchor.covers_spec(position),
        Anchor::Selection(span) => thread.anchor == Anchor::Selection(span),
        Anchor::Global => false,
    }
}

/// The most recent of the first `n` threads that takes the reply.
pub open spec fn latest_taking(threads: Seq<ThreadModel>, anchor: Anchor, n: int) -> Option<int>
    decreases n,
{
    if n <= 0 {
        None
    } else if takes_reply(threads[n - 1], anchor) {
        Some(n - 1)
    } else {
        latest_taking(threads, anchor, n - 1)
    }
}

/// The thread a note with this anchor replies to: the active thread when
/// it takes the reply, otherwise the most recent thread that does.
pub open spec fn reply_target_spec(
    threads: Seq<ThreadModel>,
    active: Option<(usize, usize)>,
    anchor: Anchor,
) -> Option<int> {
    match active {
        Some((t, _)) if t < threads.len() && takes_reply(threads[t as int], anchor) => Some(t as int),
        _ => latest_taking(threads, anchor, threads.len() as int),
    }
}

/// The store after saving a note with `anchor`: nothing changes for a
/// blank note; otherwise it replies to the target thread, or starts a new
/// one, and becomes the active comment.
pub open spec fn saved(
    threads: Seq<ThreadModel>,
    active: Option<(usize, usize)>,
    text: Seq<char>,
    anchor: Anchor,
) -> (Seq<ThreadModel>, Option<(usize, usize)>) {
    let note = trim_spec(text);
    if note.len() == 0 {
        (threads, active)
    } else {
        match reply_target_spec(threads, active, anchor) {
            Some(t) => {
                let thread = threads[t];
                (
                    threads.update(
                        t,
                        ThreadModel { entries: thread.entries.push(fresh_entry(note)), ..thread },
                    ),
                    Some((t as usize, thread.entries.len() as usize)),
                )
            },
            None => (
                threads.push(fresh_thread(note, anchor)),
                Some((threads.len() as usize, 0usize)),
            ),
        }
    }
}

/// The thread index `step` places past `start`, wrapping around `len`.
pub open spec fn wrapped(start: int, step: int, len: int) -> int {
    if start + step < len {
        start + step
    } else {
        start + step - len
    }
}

/// Whether a thread can be cycled to: open, and anchored somewhere.
pub open spec fn cyclable(thread: ThreadModel) -> bool {
    !thread.resolved && thread.anchor.position_spec() is Some
}

/// The first cyclable thread among the `steps` threads from `start` on,
/// wrapping around.
pub open spec fn next_cyclable(threads: Seq<ThreadModel>, start: int, steps: int) -> Option<int>
    decreases steps,
{
    if steps <= 0 {
        None
    } else {
        match next_cyclable(threads, start, steps - 1) {
            Some(t) => Some(t),
            None => {
                let t = wrapped(start, steps - 1, threads.len() as int);
                if cyclable(threads[t]) {
                    Some(t)
                } else {
                    None
                }
            },
        }
    }
}

/// The thread cycling activates: the first cyclable thread after the
/// active one, wrapping around.
pub open spec fn cycle_target(threads: Seq<ThreadModel>, active: Option<(usize, usize)>) -> Option<
    int,
> {
    let start = match active {
        Some((t, _)) => t + 1,
        None => 0,
    };
    next_cyclable(threads, start, threads.len() as int)
}

/// Whether a thread marks the element: open, and anchored to it.
pub open spec fn thread_marks(thread: ThreadModel, element: int, len: int) -> bool {
    !thread.resolved && thread.anchor.marks_spec(element, len)
}

/// The mark an element carries.
pub open spec fn mark_spec(
    threads: Seq<ThreadModel>,
    active: Option<(usize, usize)>,
    element: int,
    len: int,
) -> Mark {
    if active matches Some((t, _)) && t < threads.len() && thread_marks(
        threads[t as int],
        element,
        len,
    ) {
        Mark::Active
    } else if exists|t: int| 0 <= t < threads.len() && thread_marks(#[trigger] threads[t], element, len) {
        Mark::Commented
    } else {
        Mark::Unmarked
    }
}

/// The range a marking thread frames in the element: its slice for a
/// selection, the whole element otherwise.
pub open spec fn frame(thread: ThreadModel, element: int, len: int) -> Option<(int, int)> {
    match thread.anchor {
        Anchor::Selection(span) => span_slice_spec(span, element, len),
        _ => if len > 0 {
            Some((0, len))
        } else {
            None
        },
    }
}

/// The outlines the first `n` threads frame in the element, keeping only
/// the active one or only the others.
pub open spec fn outlines_among(
    threads: Seq<ThreadModel>,
    active: Option<(usize, usize)>,
    element: int,
    len: int,
    n: int,
    want_active: bool,
) -> Seq<Outline>
    decreases n,
{
    if n <= 0 {
        seq![]
    } else {
        let before = outlines_among(threads, active, element, len, n - 1, want_active);
        let t = n - 1;
        let is_active = active matches Some((a, _)) && a == t;
        if thread_marks(threads[t], element, len) && frame(threads[t], element, len) is Some
            && is_active == want_active {
            let r = frame(threads[t], element, len)->0;
            before.push(
                Outline {
                    range: (r.0 as usize, r.1 as usize),
                    mark: if is_active {
                        Mark::Active
                    } else {
                        Mark::Commented
                    },
                },
            )
        } else {
            before
        }
    }
}

/// The outlines framing an element's commented text: the other threads'
/// first, in thread order, and the active thread's last so it paints on
/// top.
pub open spec fn outlines_spec(
    threads: Seq<ThreadModel>,
    active: Option<(usize, usize)>,
    element: int,
    len: int,
) -> Seq<Outline> {
    outlines_among(threads, active, element, len, threads.len() as int, false) + outlines_among(
        threads,
        active,
        element,
        len,
        threads.len() as int,
        true,
    )
}

/// The number of comments across the first `n` threads.
pub open spec fn comment_count(threads: Seq<ThreadModel>, n: int) -> int
    decreases n,
{
    if n <= 0 {
        0
    } else {
        comment_count(threads, n - 1) + threads[n - 1].entries.len()
    }
}

/// Where the active comment names `(thread, entry)` after that comment is
/// deleted, the thread disappearing with it when `thread_gone`: the same
/// comment, shifted down past the removed one, or none when it was the
/// one deleted.
pub open spec fn shifted_active(
    active: Option<(usize, usize)>,
    thread: usize,
    entry: usize,
    thread_gone: bool,
) -> Option<(usize, usize)> {
    match active {
        None => None,
        Some((t, e)) => if t != thread {
            if thread_gone && t > thread {
                Some(((t - 1) as usize, e))
            } else {
                Some((t, e))
            }
        } else if e == entry || thread_gone {
            None
        } else if e > entry {
            Some((t, (e - 1) as usize))
        } else {
            Some((t, e))
        },
    }
}

/// The store after deleting the comment at `(thread, entry)`: the comment
/// goes, and its thread too when it was the last one.
pub open spec fn deleted(threads: Seq<ThreadModel>, thread: int, entry: int) -> Seq<ThreadModel> {
    let target = threads[thread];
    let rest = target.entries.remove(entry);
    if rest.len() == 0 {
        threads.remove(thread)
    } else {
        threads.update(thread, ThreadModel { entries: rest, ..target })
    }
}

/// The comments store: threads of comments, oldest first, and the active
/// comment as `(thread, entry)`.
pub struct Comments {
    threads: Vec<Thread>,
    active: Option<(usize, usize)>,
}

impl Comments {
    /// The threads, oldest first.
    pub closed spec fn threads_view(&self) -> Seq<ThreadModel> {
        self.threads@.map_values(|t: Thread| t.model())
    }

    /// The active comment.
    pub closed spec fn active_view(&self) -> Option<(usize, usize)> {
        self.active
    }

    /// Well-formedness: every thread holds a comment, and the active
    /// comment, if any, exists.
    pub open spec fn wf(&self) -> bool {
        &&& forall|t: int|
            0 <= t < self.threads_view().len() ==> (#[trigger] self.threads_view()[t]).entries.len()
                > 0
        &&& match self.active_view() {
            Some(at) => names_comment(self.threads_view(), at),
            None => true,
        }
    }

    /// An empty store.
    pub fn new() -> (comments: Comments)
        ensures
            comments.wf(),
            comments.threads_view() == Seq::<ThreadModel>::empty(),
            comments.active_view() is None,
    {
        let comments = Comments { threads: Vec::new(), active: None };
        assert(comments.threads_view() =~= Seq::<ThreadModel>::empty());
        comments
    }

    /// Whether no comment was saved.
    pub fn is_empty(&self) -> (empty: bool)
        ensures
            empty == (self.threads_view().len() == 0),
    {
        self.threads.len() == 0
    }

    /// The number of comments across all threads.
    pub fn len(&self) -> (count: usize)
        requires
            comment_count(self.threads_view(), self.threads_view().len() as int) <= usize::MAX,
        ensures
            count == comment_count(self.threads_view(), self.threads_view().len() as int),
    {
        let ghost threads = self.threads_view();
        let mut count: usize = 0;
        let mut t: usize = 0;
        while t < self.threads.len()
            invariant
                t <= threads.len(),
                threads == self.threads_view(),
                count == comment_count(threads, t as int),
                comment_count(threads, threads.len() as int) <= usize::MAX,
            decreases threads.len() - t,
        {
            proof {
                lemma_count_monotone(threads, t + 1, threads.len() as int);
            }
            assert(threads[t as int].entries.len() == self.threads@[t as int].entries@.len());
            count = count + self.threads[t].entries.len();
            t += 1;
        }
        count
    }

    /// Whether a thread takes a reply saved with `anchor`.
    fn takes_reply(thread: &Thread, anchor: &Anchor) -> (takes: bool)
        ensures
            takes == takes_reply(thread.model(), *anchor),
    {
        if thread.resolved {
            return false;
        }
        match anchor {
            Anchor::Caret(position) => thread.anchor.covers(*position),
            Anchor::Selection(span) => thread.anchor == Anchor::Selection(*span),
            Anchor::Global => false,
        }
    }

    /// The open thread a note with this anchor replies to, if any: the
    /// active thread when it takes the reply, otherwise the most recent
    /// one that does. Resolved threads never take replies.
    fn reply_target(&self, anchor: &Anchor) -> (target: Option<usize>)
        requires
            self.wf(),
        ensures
            match (target, reply_target_spec(self.threads_view(), self.active_view(), *anchor)) {
                (Some(t), Some(u)) => t == u,
                (None, None) => true,
                _ => false,
            },
            target matches Some(t) ==> t < self.threads_view().len(),
    {
        proof {
            lemma_latest_taking_bound(self.threads_view(), *anchor, self.threads_view().len() as int);
        }
        let ghost threads = self.threads_view();
        if let Some((t, _)) = self.active {
            assert(threads[t as int] == self.threads@[t as int].model());
            if Comments::takes_reply(&self.threads[t], anchor) {
                return Some(t);
            }
        }
        assert(reply_target_spec(threads, self.active, *anchor) == latest_taking(
            threads,
            *anchor,
            threads.len() as int,
        ));
        let mut n: usize = self.threads.len();
        while n > 0
            invariant
                n <= threads.len(),
                threads == self.threads_view(),
                reply_target_spec(threads, self.active_view(), *anchor) == latest_taking(
                    threads,
                    *anchor,
                    n as int,
                ),
            decreases n,
        {
            assert(threads[n - 1] == self.threads@[n - 1].model());
            if Comments::takes_reply(&self.threads[n - 1], anchor) {
                assert(takes_reply(threads[n - 1], *anchor));
                assert(latest_taking(threads, *anchor, n as int) == Some((n - 1) as int));
                return Some(n - 1);
            }
            n -= 1;
        }
        None
    }

    /// Starts a new open thread holding `text` and makes it active.
    fn push_new(&mut self, text: String, anchor: Anchor)
        requires
            old(self).wf(),
        ensures
            final(self).wf(),
            final(self).threads_view() == old(self).threads_view().push(fresh_thread(text@, anchor)),
            final(self).active_view() == Some((old(self).threads_view().len() as usize, 0usize)),
    {
        let ghost before = self.threads_view();
        let mut entries: Vec<Entry> = Vec::new();
        entries.push(Entry { text, history: Vec::new() });
        let thread = Thread { entries, anchor, resolved: false };
        proof {
            assert(thread.entries@[0].model().history =~= Seq::<Seq<char>>::empty());
            assert(thread.model().entries =~= seq![fresh_entry(text@)]);
        }
        self.threads.push(thread);
        let last = self.threads.len() - 1;
        self.active = Some((last, 0));
        assert(self.threads_view() =~= before.push(fresh_thread(text@, anchor)));
    }

    /// Saves a note with `anchor`: a blank note is discarded; otherwise
    /// it replies to the thread the anchor lands on, or starts a new one,
    /// and becomes the active comment.
    fn save_with(&mut self, text: &str, anchor: Anchor)
        requires
            old(self).wf(),
        ensures
            final(self).wf(),
            (final(self).threads_view(), final(self).active_view()) == saved(
                old(self).threads_view(),
                old(self).active_view(),
                text@,
                anchor,
            ),
    {
        let note = trimmed(text);
        if note.as_str().is_empty() {
            return;
        }
        let ghost before = self.threads_view();
        match self.reply_target(&anchor) {
            Some(index) => {
                let ghost thread = before[index as int];
                let entry = Entry { text: note, history: Vec::new() };
                assert(entry.history@.map_values(|h: String| h@) =~= Seq::<Seq<char>>::empty());
                let target = &mut self.threads[index];
                target.entries.push(entry);
                let count = target.entries.len();
                self.active = Some((index, count - 1));
                proof {
                    assert(self.threads@[index as int].model().entries =~= thread.entries.push(
                        fresh_entry(trim_spec(text@)),
                    ));
                    assert(self.threads_view() =~= before.update(
                        index as int,
                        ThreadModel { entries: thread.entries.push(fresh_entry(trim_spec(text@))), ..thread },
                    ));
                }
            },
            None => {
                self.push_new(note, anchor);
            },
        }
    }

    /// Saves a comment anchored at `at`, replying to the open thread that
    /// covers the position when there is one. Blank notes are discarded.
    pub fn save(&mut self, text: &str, at: CaretPosition)
        requires
            old(self).wf(),
        ensures
            final(self).wf(),
            (final(self).threads_view(), final(self).active_view()) == saved(
                old(self).threads_view(),
                old(self).active_view(),
                text@,
                Anchor::Caret(at),
            ),
    {
        self.save_with(text, Anchor::Caret(at));
    }

    /// Saves a comment anchored to the selected span, replying to the open
    /// thread anchored to the same span when there is one. Blank notes are
    /// discarded.
    pub fn save_selection(&mut self, text: &str, span: Span)
        requires
            old(self).wf(),
        ensures
            final(self).wf(),
            (final(self).threads_view(), final(self).active_view()) == saved(
                old(self).threads_view(),
                old(self).active_view(),
                text@,
                Anchor::Selection(span),
            ),
    {
        self.save_with(text, Anchor::Selection(span));
    }

    /// Saves a global comment, about the document as a whole, as its own
    /// thread, and makes it the active one. Blank notes are discarded.
    pub fn save_global(&mut self, text: &str)
        requires
            old(self).wf(),
        ensures
            final(self).wf(),
            trim_spec(text@).len() == 0 ==> final(self).threads_view() == old(self).threads_view()
                && final(self).active_view() == old(self).active_view(),
            trim_spec(text@).len() > 0 ==> final(self).threads_view() == old(
                self,
            ).threads_view().push(fresh_thread(trim_spec(text@), Anchor::Global))
                && final(self).active_view() == Some(
                (old(self).threads_view().len() as usize, 0usize),
            ),
    {
        let note = trimmed(text);
        if note.as_str().is_empty() {
            return;
        }
        self.push_new(note, Anchor::Global);
    }

    /// Adds the publish draft as a global comment, and says whether it did:
    /// a blank draft is discarded and should stay as it is.
    pub fn add_draft_as_global(&mut self, draft: &str) -> (added: bool)
        requires
            old(self).wf(),
        ensures
            final(self).wf(),
            added == (trim_spec(draft@).len() > 0),
            !added ==> final(self).threads_view() == old(self).threads_view()
                && final(self).active_view() == old(self).active_view(),
            added ==> final(self).threads_view() == old(self).threads_view().push(
                fresh_thread(trim_spec(draft@), Anchor::Global),
            ) && final(self).active_view() == Some(
                (old(self).threads_view().len() as usize, 0usize),
            ),
    {
        let note = trimmed(draft);
        if note.as_str().is_empty() {
            return false;
        }
        self.push_new(note, Anchor::Global);
        true
    }

    /// Cycles the active comment forward through the anchored, open
    /// threads, wrapping around at the end, and returns where the caret
    /// should jump to. Global and resolved threads are skipped.
    pub fn cycle(&mut self) -> (jump: Option<CaretPosition>)
        requires
            old(self).wf(),
        ensures
            final(self).wf(),
            final(self).threads_view() == old(self).threads_view(),
            match cycle_target(old(self).threads_view(), old(self).active_view()) {
                Some(t) => final(self).active_view() == Some((t as usize, 0usize)) && jump
                    == old(self).threads_view()[t].anchor.position_spec(),
                None => final(self).active_view() == old(self).active_view() && jump is None,
            },
    {
        let ghost threads = self.threads_view();
        let len = self.threads.len();
        let start: usize = match self.active {
            Some((t, _)) => t + 1,
            None => 0,
        };
        let mut step: usize = 0;
        while step < len
            invariant
                len == threads.len(),
                threads == self.threads_view(),
                threads == old(self).threads_view(),
                self.active_view() == old(self).active_view(),
                self.wf(),
                start <= len,
                start == match self.active_view() {
                    Some((t, _)) => t + 1,
                    None => 0,
                },
                step <= len,
                next_cyclable(threads, start as int, step as int) is None,
            decreases len - step,
        {
            let index = if step < len - start {
                start + step
            } else {
                step - (len - start)
            };
            assert(index == wrapped(start as int, step as int, len as int));
            assert(threads[index as int] == self.threads@[index as int].model());
            if !self.threads[index].resolved {
                if let Some(position) = self.threads[index].anchor.position() {
                    self.active = Some((index, 0));
                    proof {
                        assert(next_cyclable(threads, start as int, step + 1) == Some(index as int));
                        lemma_next_cyclable_stable(threads, start as int, step + 1, len as int);
                    }
                    return Some(position);
                }
            }
            step += 1;
        }
        None
    }

    /// Whether a thread marks the element.
    fn thread_marks(thread: &Thread, element: usize, len: usize) -> (marked: bool)
        ensures
            marked == thread_marks(thread.model(), element as int, len as int),
    {
        !thread.resolved && thread.anchor.marks(element, len)
    }

    /// The mark a preview element carries: the active comment's element is
    /// `Active`, any other open thread's element is `Commented`. Resolved
    /// threads mark nothing.
    pub fn mark_for(&self, element: usize, len: usize) -> (mark: Mark)
        requires
            self.wf(),
        ensures
            mark == mark_spec(self.threads_view(), self.active_view(), element as int, len as int),
    {
        let ghost threads = self.threads_view();
        if let Some((t, _)) = self.active {
            assert(threads[t as int] == self.threads@[t as int].model());
            if Comments::thread_marks(&self.threads[t], element, len) {
                return Mark::Active;
            }
        }
        let mut t: usize = 0;
        while t < self.threads.len()
            invariant
                t <= threads.len(),
                threads == self.threads_view(),
                forall|j: int| 0 <= j < t ==> !thread_marks(#[trigger] threads[j], element as int, len as int),
                !(self.active_view() matches Some((a, _)) && a < threads.len() && thread_marks(
                    threads[a as int],
                    element as int,
                    len as int,
                )),
            decreases threads.len() - t,
        {
            assert(threads[t as int] == self.threads@[t as int].model());
            if Comments::thread_marks(&self.threads[t], element, len) {
                assert(thread_marks(threads[t as int], element as int, len as int));
                return Mark::Commented;
            }
            t += 1;
        }
        Mark::Unmarked
    }

    /// The range a marking thread frames in the element.
    fn frame(thread: &Thread, element: usize, len: usize) -> (range: Option<(usize, usize)>)
        ensures
            match (range, frame(thread.model(), element as int, len as int)) {
                (Some(r), Some(s)) => r.0 == s.0 && r.1 == s.1,
                (None, None) => true,
                _ => false,
            },
    {
        match thread.anchor {
            Anchor::Selection(span) => span_slice(span, element, len),
            _ => if len > 0 {
                Some((0, len))
            } else {
                None
            },
        }
    }

    /// The bordered rectangles framing this element's commented text: one
    /// per open thread marking it — its selected span for a selection, the
    /// whole element for a spot. The active outline comes last, so it
    /// paints on top where threads overlap. Resolved threads frame
    /// nothing.
    pub fn outlines_for(&self, element: usize, len: usize) -> (outlines: Vec<Outline>)
        ensures
            outlines@ == outlines_spec(self.threads_view(), self.active_view(), element as int, len as int),
    {
        let ghost threads = self.threads_view();
        let mut others: Vec<Outline> = Vec::new();
        let mut actives: Vec<Outline> = Vec::new();
        let mut t: usize = 0;
        while t < self.threads.len()
            invariant
                t <= threads.len(),
                threads == self.threads_view(),
                others@ == outlines_among(threads, self.active_view(), element as int, len as int, t as int, false),
                actives@ == outlines_among(threads, self.active_view(), element as int, len as int, t as int, true),
            decreases threads.len() - t,
        {
            assert(threads[t as int] == self.threads@[t as int].model());
            if Comments::thread_marks(&self.threads[t], element, len) {
                if let Some(range) = Comments::frame(&self.threads[t], element, len) {
                    let is_active = match self.active {
                        Some((a, _)) => a == t,
                        None => false,
                    };
                    if is_active {
                        actives.push(Outline { range, mark: Mark::Active });
                    } else {
                        others.push(Outline { range, mark: Mark::Commented });
                    }
                }
            }
            t += 1;
        }
        others.append(&mut actives);
        others
    }

    /// Whether the active comment's thread anchors this element, resolved
    /// or not, so activating a comment can scroll its element into view.
    pub fn anchors_element(&self, element: usize, len: usize) -> (anchored: bool)
        requires
            self.wf(),
        ensures
            anchored == (self.active_view() matches Some((t, _)) && self.threads_view()[t as int].anchor.marks_spec(
                element as int,
                len as int,
            )),
    {
        match self.active {
            Some((t, _)) => {
                assert(self.threads_view()[t as int] == self.threads@[t as int].model());
                self.threads[t].anchor.marks(element, len)
            },
            None => false,
        }
    }

    /// The slice of the element's text the active selection covers, so the
    /// preview can highlight exactly the selected text. Spot, global, and
    /// resolved anchors highlight nothing beyond the element-level mark.
    pub fn anchor_selection_for(&self, element: usize, len: usize) -> (slice: Option<(usize, usize)>)
        requires
            self.wf(),
        ensures
            match self.active_view() {
                Some((t, _)) if !self.threads_view()[t as int].resolved
                    && self.threads_view()[t as int].anchor is Selection => match (
                    slice,
                    span_slice_spec(self.threads_view()[t as int].anchor->Selection_0, element as int, len as int),
                ) {
                    (Some(r), Some(s)) => r.0 == s.0 && r.1 == s.1,
                    (None, None) => true,
                    _ => false,
                },
                _ => slice is None,
            },
    {
        match self.active {
            Some((t, _)) => {
                assert(self.threads_view()[t as int] == self.threads@[t as int].model());
                if self.threads[t].resolved {
                    return None;
                }
                match self.threads[t].anchor {
                    Anchor::Selection(span) => span_slice(span, element, len),
                    _ => None,
                }
            },
            None => None,
        }
    }

    /// Activates the comment at `(thread, entry)` — the card that was
    /// clicked — and returns where the caret should jump to. Global
    /// comments activate but have nowhere to jump to; unknown indices
    /// change nothing.
    pub fn activate(&mut self, thread: usize, entry: usize) -> (jump: Option<CaretPosition>)
        requires
            old(self).wf(),
        ensures
            final(self).wf(),
            final(self).threads_view() == old(self).threads_view(),
            names_comment(old(self).threads_view(), (thread, entry)) ==> final(self).active_view()
                == Some((thread, entry)) && jump == old(self).threads_view()[thread as int].anchor.position_spec(),
            !names_comment(old(self).threads_view(), (thread, entry)) ==> final(self).active_view()
                == old(self).active_view() && jump is None,
    {
        if thread >= self.threads.len() {
            return None;
        }
        assert(self.threads_view()[thread as int] == self.threads@[thread as int].model());
        if entry >= self.threads[thread].entries.len() {
            return None;
        }
        self.active = Some((thread, entry));
        self.threads[thread].anchor.position()
    }

    /// The active comment, as the `(thread, entry)` the popup edits and the
    /// sidebar highlights.
    pub fn active_entry(&self) -> (active: Option<(usize, usize)>)
        ensures
            active == self.active_view(),
    {
        self.active
    }

    /// The current text of the active comment, for the edit popup.
    pub fn active_text(&self) -> (text: Option<&str>)
        requires
            self.wf(),
        ensures
            match self.active_view() {
                Some((t, e)) => text matches Some(s) && s@ == self.threads_view()[t as int].entries[e as int].text,
                None => text is None,
            },
    {
        match self.active {
            Some((t, e)) => {
                assert(self.threads_view()[t as int] == self.threads@[t as int].model());
                assert(self.threads_view()[t as int].entries[e as int] == self.threads@[t as int].entries@[e as int].model());
                Some(self.threads[t].entries[e].text.as_str())
            },
            None => None,
        }
    }

    /// The edit history of the active comment, oldest first.
    pub fn active_history(&self) -> (history: &[String])
        requires
            self.wf(),
        ensures
            match self.active_view() {
                Some((t, e)) => history@.map_values(|h: String| h@) == self.threads_view()[t as int].entries[e as int].history,
                None => history@.len() == 0,
            },
    {
        match self.active {
            Some((t, e)) => {
                assert(self.threads_view()[t as int] == self.threads@[t as int].model());
                assert(self.threads_view()[t as int].entries[e as int] == self.threads@[t as int].entries@[e as int].model());
                self.threads[t].entries[e].history.as_slice()
            },
            None => &[],
        }
    }

    /// Replaces the active comment's text, keeping the old text as
    /// history. A blank text changes nothing — deletion has its own path.
    pub fn edit_active(&mut self, text: &str)
        requires
            old(self).wf(),
        ensures
            final(self).wf(),
            final(self).active_view() == old(self).active_view(),
            final(self).threads_view() == edited(old(self).threads_view(), old(self).active_view(), text@),
    {
        let note = trimmed(text);
        let (t, e) = match self.active {
            Some(at) => at,
            None => {
                return;
            },
        };
        if note.as_str().is_empty() {
            return;
        }
        let ghost before = self.threads_view();
        let ghost thread = before[t as int];
        let ghost entry = thread.entries[e as int];
        assert(before[t as int] == self.threads@[t as int].model());
        assert(thread.entries[e as int] == self.threads@[t as int].entries@[e as int].model());
        if self.threads[t].entries[e].text == note {
            return;
        }
        let target = &mut self.threads[t];
        let comment = &mut target.entries[e];
        let previous = comment.text.clone();
        comment.history.push(previous);
        comment.text = note;
        proof {
            let updated = EntryModel { text: trim_spec(text@), history: entry.history.push(entry.text) };
            assert(self.threads@[t as int].entries@[e as int].model().history =~= updated.history);
            assert(self.threads@[t as int].model().entries =~= thread.entries.update(e as int, updated));
            assert(self.threads_view() =~= before.update(
                t as int,
                ThreadModel { entries: thread.entries.update(e as int, updated), ..thread },
            ));
        }
    }

    /// Deletes the comment at `(thread, entry)`. A thread whose last
    /// comment was deleted disappears. The active comment keeps naming the
    /// same comment, shifting down past the removed one, and is gone when
    /// it was the one deleted. Unknown indices change nothing.
    pub fn delete(&mut self, thread: usize, entry: usize)
        requires
            old(self).wf(),
        ensures
            final(self).wf(),
            !names_comment(old(self).threads_view(), (thread, entry)) ==> final(self).threads_view()
                == old(self).threads_view() && final(self).active_view() == old(self).active_view(),
            names_comment(old(self).threads_view(), (thread, entry)) ==> final(self).threads_view()
                == deleted(old(self).threads_view(), thread as int, entry as int)
                && final(self).active_view() == shifted_active(
                old(self).active_view(),
                thread,
                entry,
                old(self).threads_view()[thread as int].entries.len() == 1,
            ),
    {
        if thread >= self.threads.len() {
            return;
        }
        let ghost before = self.threads_view();
        let ghost target_model = before[thread as int];
        assert(before[thread as int] == self.threads@[thread as int].model());
        if entry >= self.threads[thread].entries.len() {
            return;
        }
        let target = &mut self.threads[thread];
        target.entries.remove(entry);
        let gone = target.entries.len() == 0;
        proof {
            assert(self.threads@[thread as int].model().entries =~= target_model.entries.remove(entry as int));
        }
        if gone {
            self.threads.remove(thread);
            assert(self.threads_view() =~= before.remove(thread as int));
        } else {
            assert(self.threads_view() =~= before.update(
                thread as int,
                ThreadModel { entries: target_model.entries.remove(entry as int), ..target_model },
            ));
        }
        let ghost old_active = self.active;
        self.active = match self.active {
            None => None,
            Some((t, e)) => if t != thread {
                if gone && t > thread {
                    Some((t - 1, e))
                } else {
                    Some((t, e))
                }
            } else if e == entry || gone {
                None
            } else if e > entry {
                Some((t, e - 1))
            } else {
                Some((t, e))
            },
        };
        proof {
            law_delete_keeps_active_comment(before, old_active, thread, entry);
        }
    }

    /// Resolves or reopens the thread at `thread`. Resolved threads keep
    /// their comments and history but stop marking elements and drop out
    /// of cycling. An unknown index changes nothing.
    pub fn resolve(&mut self, thread: usize)
        requires
            old(self).wf(),
        ensures
            final(self).wf(),
            final(self).active_view() == old(self).active_view(),
            final(self).threads_view() == toggled(old(self).threads_view(), thread as int),
    {
        if thread >= self.threads.len() {
            return;
        }
        let ghost before = self.threads_view();
        assert(before[thread as int] == self.threads@[thread as int].model());
        let target = &mut self.threads[thread];
        target.resolved = !target.resolved;
        assert(self.threads_view() =~= toggled(before, thread as int));
    }

    /// Whether the thread at `thread` is resolved.
    pub fn is_resolved(&self, thread: usize) -> (resolved: bool)
        ensures
            resolved == (thread < self.threads_view().len() && self.threads_view()[thread as int].resolved),
    {
        if thread < self.threads.len() {
            assert(self.threads_view()[thread as int] == self.threads@[thread as int].model());
            self.threads[thread].resolved
        } else {
            false
        }
    }
}

impl Default for Comments {
    fn default() -> (comments: Comments)
        ensures
            comments.wf(),
            comments.threads_view() == Seq::<ThreadModel>::empty(),
            comments.active_view() is None,
    {
        Comments::new()
    }
}

/// The store after the active comment's text is edited to `text`: the
/// old text joins the history when it changes; a blank text, or no active
/// comment, changes nothing.
pub open spec fn edited(threads: Seq<ThreadModel>, active: Option<(usize, usize)>, text: Seq<char>) -> Seq<
    ThreadModel,
> {
    let note = trim_spec(text);
    match active {
        Some((t, e)) => if note.len() > 0 && names_comment(threads, (t, e)) {
            let thread = threads[t as int];
            let entry = thread.entries[e as int];
            if entry.text == note {
                threads
            } else {
                threads.update(
                    t as int,
                    ThreadModel {
                        entries: thread.entries.update(
                            e as int,
                            EntryModel { text: note, history: entry.history.push(entry.text) },
                        ),
                        ..thread
                    },
                )
            }
        } else {
            threads
        },
        None => threads,
    }
}

/// The threads with the resolved flag of `thread` flipped, when it exists.
pub open spec fn toggled(threads: Seq<ThreadModel>, thread: int) -> Seq<ThreadModel> {
    if 0 <= thread < threads.len() {
        threads.update(thread, ThreadModel { resolved: !threads[thread].resolved, ..threads[thread] })
    } else {
        threads
    }
}

/// Deleting a comment leaves every other comment where the shifted active
/// index finds it: the active comment, unless it was the one deleted,
/// names the same comment afterwards.
pub proof fn law_delete_keeps_active_comment(
    threads: Seq<ThreadModel>,
    active: Option<(usize, usize)>,
    thread: usize,
    entry: usize,
)
    requires
        names_comment(threads, (thread, entry)),
        forall|t: int| 0 <= t < threads.len() ==> (#[trigger] threads[t]).entries.len() > 0,
        active matches Some(at) ==> names_comment(threads, at),
    ensures
        ({
            let after = deleted(threads, thread as int, entry as int);
            let gone = threads[thread as int].entries.len() == 1;
            &&& forall|t: int| 0 <= t < after.len() ==> (#[trigger] after[t]).entries.len() > 0
            &&& match shifted_active(active, thread, entry, gone) {
                Some(b) => names_comment(after, b) && (active matches Some(a)
                    && after[b.0 as int].entries[b.1 as int] == threads[a.0 as int].entries[a.1 as int]),
                None => active matches Some(a) ==> a == (thread, entry) || (gone && a.0 == thread),
            }
        }),
{
}

proof fn lemma_next_cyclable_stable(threads: Seq<ThreadModel>, start: int, k: int, n: int)
    requires
        0 <= k <= n,
        next_cyclable(threads, start, k) is Some,
    ensures
        next_cyclable(threads, start, n) == next_cyclable(threads, start, k),
    decreases n - k,
{
    if k < n {
        lemma_next_cyclable_stable(threads, start, k, n - 1);
    }
}

proof fn lemma_latest_taking_bound(threads: Seq<ThreadModel>, anchor: Anchor, n: int)
    ensures
        latest_taking(threads, anchor, n) matches Some(t) ==> 0 <= t < n,
    decreases n,
{
    if n > 0 {
        lemma_latest_taking_bound(threads, anchor, n - 1);
    }
}

/// The count of comments grows with the threads counted.
pub proof fn lemma_count_monotone(threads: Seq<ThreadModel>, m: int, n: int)
    requires
        0 <= m <= n <= threads.len(),
    ensures
        comment_count(threads, m) <= comment_count(threads, n),
    decreases n - m,
{
    if m < n {
        lemma_count_monotone(threads, m, n - 1);
    }
}

/// Resolving a thread twice leaves the threads as they were.
pub proof fn law_resolve_twice_restores(threads: Seq<ThreadModel>, thread: int)
    ensures
        toggled(toggled(threads, thread), thread) == threads,
{
    if 0 <= thread < threads.len() {
        assert(toggled(toggled(threads, thread), thread) =~= threads);
    }
}

/// Editing keeps history: editing the active comment to a different note
/// that is not blank makes the trimmed note its text and appends the text
/// it replaced to its history; every other comment, and the anchor and
/// resolved flag of every thread, stay as they were.
pub proof fn law_edit_keeps_history(threads: Seq<ThreadModel>, t: usize, e: usize, text: Seq<char>)
    requires
        names_comment(threads, (t, e)),
        trim_spec(text).len() > 0,
        trim_spec(text) != threads[t as int].entries[e as int].text,
    ensures
        ({
            let after = edited(threads, Some((t, e)), text);
            let entry = threads[t as int].entries[e as int];
            &&& after.len() == threads.len()
            &&& after[t as int].entries.len() == threads[t as int].entries.len()
            &&& after[t as int].entries[e as int].text == trim_spec(text)
            &&& after[t as int].entries[e as int].history == entry.history.push(entry.text)
            &&& forall|u: int| 0 <= u < threads.len() ==> #[trigger] after[u].anchor == threads[u].anchor
                && after[u].resolved == threads[u].resolved
            &&& forall|u: int, f: int|
                0 <= u < threads.len() && 0 <= f < threads[u].entries.len() && (u, f) != (
                    t as int,
                    e as int,
                ) ==> #[trigger] after[u].entries[f] == threads[u].entries[f]
        }),
{
}

/// A saved note reads back: after saving a note that is not blank, the
/// active comment holds the trimmed note.
pub proof fn law_saved_note_is_active(
    threads: Seq<ThreadModel>,
    active: Option<(usize, usize)>,
    text: Seq<char>,
    anchor: Anchor,
)
    requires
        trim_spec(text).len() > 0,
        threads.len() < usize::MAX,
        forall|t: int| 0 <= t < threads.len() ==> (#[trigger] threads[t]).entries.len() < usize::MAX,
    ensures
        ({
            let (after, now) = saved(threads, active, text, anchor);
            now matches Some(at) && names_comment(after, at) && after[at.0 as int].entries[at.1 as int]
                == fresh_entry(trim_spec(text))
        }),
{
    lemma_reply_target_bound(threads, active, anchor);
}

/// Saving a note that is not blank adds exactly one comment.
pub proof fn law_save_adds_one_comment(
    threads: Seq<ThreadModel>,
    active: Option<(usize, usize)>,
    text: Seq<char>,
    anchor: Anchor,
)
    requires
        trim_spec(text).len() > 0,
    ensures
        ({
            let (after, _) = saved(threads, active, text, anchor);
            comment_count(after, after.len() as int) == comment_count(threads, threads.len() as int) + 1
        }),
{
    lemma_reply_target_bound(threads, active, anchor);
    let note = trim_spec(text);
    match reply_target_spec(threads, active, anchor) {
        Some(t) => {
            let thread = threads[t];
            let updated = ThreadModel { entries: thread.entries.push(fresh_entry(note)), ..thread };
            lemma_count_update(threads, t, updated, threads.len() as int);
        },
        None => {
            let after = threads.push(fresh_thread(note, anchor));
            lemma_count_prefix(threads, after, threads.len() as int);
        },
    }
}

/// Cycling only ever lands on an open, anchored thread.
pub proof fn law_cycle_lands_on_open_anchors(threads: Seq<ThreadModel>, active: Option<(usize, usize)>)
    requires
        active matches Some(at) ==> at.0 < threads.len(),
    ensures
        cycle_target(threads, active) matches Some(t) ==> 0 <= t < threads.len() && cyclable(threads[t]),
{
    let start = match active {
        Some((t, _)) => t + 1,
        None => 0,
    };
    lemma_next_cyclable_found(threads, start, threads.len() as int);
}

proof fn lemma_next_cyclable_found(threads: Seq<ThreadModel>, start: int, steps: int)
    requires
        0 <= start <= threads.len(),
        steps <= threads.len(),
    ensures
        next_cyclable(threads, start, steps) matches Some(t) ==> 0 <= t < threads.len() && cyclable(
            threads[t],
        ),
    decreases steps,
{
    if steps > 0 {
        lemma_next_cyclable_found(threads, start, steps - 1);
    }
}

proof fn lemma_reply_target_bound(threads: Seq<ThreadModel>, active: Option<(usize, usize)>, anchor: Anchor)
    ensures
        reply_target_spec(threads, active, anchor) matches Some(t) ==> 0 <= t < threads.len(),
{
    lemma_latest_taking_bound(threads, anchor, threads.len() as int);
}

proof fn lemma_count_update(threads: Seq<ThreadModel>, t: int, updated: ThreadModel, n: int)
    requires
        0 <= t < threads.len(),
        0 <= n <= threads.len(),
    ensures
        comment_count(threads.update(t, updated), n) == comment_count(threads, n) + if t < n {
            updated.entries.len() - threads[t].entries.len()
        } else {
            0
        },
    decreases n,
{
    if n > 0 {
        lemma_count_update(threads, t, updated, n - 1);
    }
}

proof fn lemma_count_prefix(threads: Seq<ThreadModel>, longer: Seq<ThreadModel>, n: int)
    requires
        0 <= n <= threads.len(),
        n <= longer.len(),
        forall|i: int| 0 <= i < n ==> longer[i] == threads[i],
    ensures
        comment_count(longer, n) == comment_count(threads, n),
    decreases n,
{
    if n > 0 {
        lemma_count_prefix(threads, longer, n - 1);
    }
}

// ---------------------------------------------------------------------------
// Quotes and cards.
// ---------------------------------------------------------------------------

/// Whether the byte range an element records is a range of whole
/// characters of `source`.
pub open spec fn source_range_valid(source: Seq<char>, element: PreviewElement) -> bool {
    exists|i: int, j: int|
        0 <= i <= j <= source.len() && byte_offset(source, i) == element.source_start
            && byte_offset(source, j) == element.source_end
}

/// The character index sitting at byte offset `byte` of `source`.
pub open spec fn char_at_byte(source: Seq<char>, byte: int) -> int {
    choose|i: int| 0 <= i <= source.len() && byte_offset(source, i) == byte
}

/// The Markdown source of the element at `index`, condensed for a card;
/// nothing when there is no such element.
pub open spec fn quote_spec(source: Seq<char>, elements: Seq<PreviewElement>, index: int, max: nat) -> Seq<
    char,
> {
    if 0 <= index < elements.len() {
        let element = elements[index];
        let from = char_at_byte(source, element.source_start as int);
        let to = char_at_byte(source, element.source_end as int);
        condensed_spec(trim_spec(source.subrange(from, to)), max)
    } else {
        seq![]
    }
}

/// Returns the Markdown source of the preview element at `index`,
/// condensed for a comment card.
pub fn quote(source: &str, elements: &Vec<PreviewElement>, index: usize, max_chars: usize) -> (quoted:
    String)
    requires
        index < elements@.len() ==> source_range_valid(source@, elements@[index as int]),
    ensures
        quoted@ == quote_spec(source@, elements@, index as int, max_chars as nat),
{
    if index >= elements.len() {
        return String::new();
    }
    let element = &elements[index];
    let chars = chars_of(source);
    let offsets = byte_offsets(source, &chars);
    let ghost (i, j) = choose|i: int, j: int|
        0 <= i <= j <= source@.len() && byte_offset(source@, i) == element.source_start
            && byte_offset(source@, j) == element.source_end;
    assert(offsets@[i] == element.source_start);
    assert(offsets@[j] == element.source_end);
    let from = char_index(&offsets, element.source_start);
    let to = char_index(&offsets, element.source_end);
    proof {
        assert(from == i && to == j);
        let ci = char_at_byte(source@, element.source_start as int);
        let cj = char_at_byte(source@, element.source_end as int);
        assert(offsets@[ci] == element.source_start);
        assert(offsets@[cj] == element.source_end);
        assert(ci == i && cj == j);
    }
    let text = string_of_range(&chars, from, to);
    let trimmed_text = trimmed(text.as_str());
    condensed(trimmed_text.as_str(), max_chars)
}

/// The index at which `offsets` holds `byte`; the offsets strictly
/// increase, so it is the only one.
fn char_index(offsets: &Vec<usize>, byte: usize) -> (index: usize)
    requires
        exists|i: int| 0 <= i < offsets@.len() && offsets@[i] == byte,
        forall|i: int, j: int| 0 <= i < j < offsets@.len() ==> offsets@[i] < offsets@[j],
    ensures
        index < offsets@.len(),
        offsets@[index as int] == byte,
        forall|i: int| 0 <= i < offsets@.len() && offsets@[i] == byte ==> i == index,
{
    let mut k: usize = 0;
    while k < offsets.len()
        invariant
            k <= offsets@.len(),
            exists|i: int| k <= i < offsets@.len() && offsets@[i] == byte,
            forall|i: int, j: int| 0 <= i < j < offsets@.len() ==> offsets@[i] < offsets@[j],
        decreases offsets@.len() - k,
    {
        if offsets[k] == byte {
            return k;
        }
        k += 1;
    }
    k
}

/// The smaller of two integers.
pub open spec fn min_of(a: int, b: int) -> int {
    if a <= b {
        a
    } else {
        b
    }
}

/// The text between grapheme columns `start` and `end`, clamped to the
/// text's length.
pub open spec fn slice_graphemes_spec(text: Seq<char>, start: int, end: int) -> Seq<char> {
    let clusters = grapheme_clusters(text);
    let total = clusters.len() as int;
    let from = min_of(start, total);
    let to = if min_of(end, total) < from {
        from
    } else {
        min_of(end, total)
    };
    flatten(clusters.subrange(from, to))
}

/// The substring of `text` between grapheme columns `start` and `end`,
/// clamped to the text's length.
pub fn slice_graphemes(text: &str, start: usize, end: usize) -> (slice: String)
    ensures
        slice@ == slice_graphemes_spec(text@, start as int, end as int),
{
    let clusters = graphemes(text);
    let total = clusters.len();
    let from = if start < total {
        start
    } else {
        total
    };
    let clamped = if end < total {
        end
    } else {
        total
    };
    let to = if clamped < from {
        from
    } else {
        clamped
    };
    let ghost all = grapheme_clusters(text@);
    let mut slice = String::new();
    let mut k: usize = from;
    assert(all.subrange(from as int, from as int) =~= Seq::<Seq<char>>::empty());
    while k < to
        invariant
            from <= k <= to <= total,
            total == all.len(),
            clusters@.len() == all.len(),
            forall|i: int| 0 <= i < clusters@.len() ==> #[trigger] clusters@[i]@ == all[i],
            slice@ == flatten(all.subrange(from as int, k as int)),
        decreases to - k,
    {
        push_str_chars(&mut slice, clusters[k].as_str());
        assert(all.subrange(from as int, k + 1).drop_last() =~= all.subrange(from as int, k as int));
        k += 1;
    }
    slice
}

/// The grapheme columns of element `index` a span's quote takes: from the
/// span's start column in its first element, up to its end column in its
/// last element, everything in between.
pub open spec fn quote_part(texts: Seq<Seq<char>>, span: Span, index: int) -> Seq<char> {
    let start = if index == span.first().element {
        span.first().column as int
    } else {
        0
    };
    let end = if index == span.last().element {
        span.last().column as int
    } else {
        usize::MAX as int
    };
    slice_graphemes_spec(texts[index], start, end)
}

/// The parts of the span's elements before `n`, the empty ones left out,
/// joined by single spaces.
pub open spec fn joined_parts(texts: Seq<Seq<char>>, span: Span, n: int) -> Seq<char>
    decreases n - span.first().element,
{
    if n <= span.first().element {
        seq![]
    } else {
        let before = joined_parts(texts, span, n - 1);
        let part = quote_part(texts, span, n - 1);
        if part.len() == 0 {
            before
        } else if before.len() == 0 {
            part
        } else {
            before.push(' ') + part
        }
    }
}

/// The rendered texts of the elements.
pub open spec fn element_texts(elements: Seq<PreviewElement>) -> Seq<Seq<char>> {
    elements.map_values(|element: PreviewElement| element.text@)
}

/// The selected text a span covers, condensed for a card: the endpoint
/// elements give exactly their selected graphemes, the elements between
/// all of theirs, and elements giving nothing give no quote either.
pub open spec fn span_quote_spec(elements: Seq<PreviewElement>, span: Span, max: nat) -> Seq<char> {
    let last = if span.last().element < elements.len() {
        span.last().element + 1
    } else {
        elements.len() as int
    };
    condensed_spec(joined_parts(element_texts(elements), span, last), max)
}

/// Returns the selected text a span covers, condensed for a comment card.
pub fn span_quote(elements: &Vec<PreviewElement>, span: Span, max_chars: usize) -> (quoted: String)
    ensures
        quoted@ == span_quote_spec(elements@, span, max_chars as nat),
{
    let ghost texts = element_texts(elements@);
    let last = if span.end.element < elements.len() {
        span.end.element + 1
    } else {
        elements.len()
    };
    let mut joined = String::new();
    let mut index = span.start.element;
    if index < last {
        while index < last
            invariant
                span.first().element <= index <= last <= elements@.len(),
                texts == element_texts(elements@),
                joined@ == joined_parts(texts, span, index as int),
            decreases last - index,
        {
            let start = if index == span.start.element {
                span.start.column
            } else {
                0
            };
            let end = if index == span.end.element {
                span.end.column
            } else {
                usize::MAX
            };
            let part = slice_graphemes(elements[index].text.as_str(), start, end);
            assert(texts[index as int] == elements@[index as int].text@);
            if !part.as_str().is_empty() {
                if !joined.as_str().is_empty() {
                    push_char(&mut joined, ' ');
                }
                push_str_chars(&mut joined, part.as_str());
            }
            index += 1;
        }
    }
    proof {
        if span.first().element >= last {
            assert(joined_parts(texts, span, last as int) == Seq::<char>::empty());
        }
    }
    condensed(joined.as_str(), max_chars)
}

/// A comment as the sidebar renders it.
#[derive(Debug, Clone)]
pub struct CommentCard {
    /// The thread and entry the card shows: what clicking, deleting, and
    /// editing address.
    pub thread: usize,
    pub entry: usize,
    /// The note text, condensed like the quote.
    pub text: String,
    pub quote: String,
    /// The card's label when the comment has no anchor: `"Global"`.
    pub label: Option<&'static str>,
    pub active: bool,
    /// Whether the card is its thread's root, the one quoting the source.
    pub first: bool,
    /// Whether the thread is resolved history.
    pub resolved: bool,
    /// How deep in the thread the comment sits: replies indent.
    pub depth: usize,
    /// How many previous versions the comment has.
    pub history: usize,
}

/// A card as the contracts see it.
pub struct CardModel {
    pub thread: int,
    pub entry: int,
    pub text: Seq<char>,
    pub quote: Seq<char>,
    pub global: bool,
    pub active: bool,
    pub first: bool,
    pub resolved: bool,
    pub depth: int,
    pub history: int,
}

/// The card of comment `entry` of thread `t`.
pub open spec fn card_of(
    threads: Seq<ThreadModel>,
    active: Option<(usize, usize)>,
    source: Seq<char>,
    elements: Seq<PreviewElement>,
    t: int,
    entry: int,
) -> CardModel {
    let thread = threads[t];
    let comment = thread.entries[entry];
    CardModel {
        thread: t,
        entry,
        text: condensed_spec(comment.text, COMMENT_TEXT_MAX_CHARS as nat),
        quote: match thread.anchor {
            Anchor::Caret(position) => quote_spec(
                source,
                elements,
                position.element as int,
                COMMENT_QUOTE_MAX_CHARS as nat,
            ),
            Anchor::Selection(span) => span_quote_spec(elements, span, COMMENT_QUOTE_MAX_CHARS as nat),
            Anchor::Global => seq![],
        },
        global: thread.anchor is Global,
        active: active == Some((t as usize, entry as usize)),
        first: entry == 0,
        resolved: thread.resolved,
        depth: entry,
        history: comment.history.len() as int,
    }
}

/// The cards of the first `n` threads whose resolved flag is `resolved`,
/// thread by thread, each thread's comments in order.
pub open spec fn section(
    threads: Seq<ThreadModel>,
    active: Option<(usize, usize)>,
    source: Seq<char>,
    elements: Seq<PreviewElement>,
    resolved: bool,
    n: int,
) -> Seq<CardModel>
    decreases n,
{
    if n <= 0 {
        seq![]
    } else {
        let before = section(threads, active, source, elements, resolved, n - 1);
        let t = n - 1;
        if threads[t].resolved == resolved {
            before + Seq::new(
                threads[t].entries.len(),
                |e: int| card_of(threads, active, source, elements, t, e),
            )
        } else {
            before
        }
    }
}

/// The sidebar's cards: the open threads, then the resolved ones.
pub open spec fn cards_spec(
    threads: Seq<ThreadModel>,
    active: Option<(usize, usize)>,
    source: Seq<char>,
    elements: Seq<PreviewElement>,
) -> Seq<CardModel> {
    section(threads, active, source, elements, false, threads.len() as int) + section(
        threads,
        active,
        source,
        elements,
        true,
        threads.len() as int,
    )
}

/// Whether a card shows what its model says.
pub open spec fn card_matches(card: CommentCard, model: CardModel) -> bool {
    &&& card.thread == model.thread
    &&& card.entry == model.entry
    &&& card.text@ == model.text
    &&& card.quote@ == model.quote
    &&& (card.label is Some <==> model.global)
    &&& card.label matches Some(label) ==> label@ == "Global"@
    &&& card.active == model.active
    &&& card.first == model.first
    &&& card.resolved == model.resolved
    &&& card.depth == model.depth
    &&& card.history == model.history
}

/// Whether the cards show the models, one for one.
pub open spec fn cards_match(cards: Seq<CommentCard>, models: Seq<CardModel>) -> bool {
    &&& cards.len() == models.len()
    &&& forall|k: int| 0 <= k < cards.len() ==> card_matches(#[trigger] cards[k], models[k])
}

/// Whether every element a spot anchor quotes records a range of whole
/// characters of the source.
pub open spec fn quotable(threads: Seq<ThreadModel>, source: Seq<char>, elements: Seq<PreviewElement>) -> bool {
    forall|t: int|
        0 <= t < threads.len() ==> match (#[trigger] threads[t]).anchor {
            Anchor::Caret(position) => position.element < elements.len() ==> source_range_valid(
                source,
                elements[position.element as int],
            ),
            _ => true,
        }
}

impl Comments {
    /// The card of comment `entry` of thread `t`.
    fn card(&self, t: usize, entry: usize, source: &str, elements: &Vec<PreviewElement>) -> (card:
        CommentCard)
        requires
            self.wf(),
            names_comment(self.threads_view(), (t, entry)),
            quotable(self.threads_view(), source@, elements@),
        ensures
            card_matches(
                card,
                card_of(self.threads_view(), self.active_view(), source@, elements@, t as int, entry as int),
            ),
    {
        let ghost threads = self.threads_view();
        assert(threads[t as int] == self.threads@[t as int].model());
        assert(threads[t as int].entries[entry as int] == self.threads@[t as int].entries@[entry as int].model());
        let thread = &self.threads[t];
        let comment = &thread.entries[entry];
        let (quoted, label) = match thread.anchor {
            Anchor::Caret(position) => {
                assert(threads[t as int].anchor == Anchor::Caret(position));
                (quote(source, elements, position.element, COMMENT_QUOTE_MAX_CHARS), None)
            },
            Anchor::Selection(span) => (span_quote(elements, span, COMMENT_QUOTE_MAX_CHARS), None),
            Anchor::Global => (String::new(), Some("Global")),
        };
        let active = match self.active {
            Some((a, b)) => a == t && b == entry,
            None => false,
        };
        CommentCard {
            thread: t,
            entry,
            text: condensed(comment.text.as_str(), COMMENT_TEXT_MAX_CHARS),
            quote: quoted,
            label,
            active,
            first: entry == 0,
            resolved: thread.resolved,
            depth: entry,
            history: comment.history.len(),
        }
    }

    /// Appends the cards of the threads whose resolved flag is `resolved`.
    fn push_section(
        &self,
        cards: &mut Vec<CommentCard>,
        resolved: bool,
        source: &str,
        elements: &Vec<PreviewElement>,
    )
        requires
            self.wf(),
            quotable(self.threads_view(), source@, elements@),
        ensures
            final(cards)@.len() == old(cards)@.len() + section(
                self.threads_view(),
                self.active_view(),
                source@,
                elements@,
                resolved,
                self.threads_view().len() as int,
            ).len(),
            final(cards)@.take(old(cards)@.len() as int) == old(cards)@,
            cards_match(
                final(cards)@.skip(old(cards)@.len() as int),
                section(
                    self.threads_view(),
                    self.active_view(),
                    source@,
                    elements@,
                    resolved,
                    self.threads_view().len() as int,
                ),
            ),
    {
        let ghost threads = self.threads_view();
        let ghost start = cards@;
        let ghost base = start.len() as int;
        let mut t: usize = 0;
        while t < self.threads.len()
            invariant
                t <= threads.len(),
                threads == self.threads_view(),
                self.wf(),
                quotable(threads, source@, elements@),
                base == start.len(),
                cards@.len() == base + section(threads, self.active_view(), source@, elements@, resolved, t as int).len(),
                cards@.take(base) == start,
                cards_match(
                    cards@.skip(base),
                    section(threads, self.active_view(), source@, elements@, resolved, t as int),
                ),
            decreases threads.len() - t,
        {
            assert(threads[t as int] == self.threads@[t as int].model());
            let ghost done = section(threads, self.active_view(), source@, elements@, resolved, t as int);
            if self.threads[t].resolved == resolved {
                let count = self.threads[t].entries.len();
                let ghost row = Seq::new(
                    threads[t as int].entries.len(),
                    |e: int| card_of(threads, self.active_view(), source@, elements@, t as int, e),
                );
                let mut e: usize = 0;
                while e < count
                    invariant
                        t < threads.len(),
                        count == threads[t as int].entries.len(),
                        e <= count,
                        threads == self.threads_view(),
                        self.wf(),
                        quotable(threads, source@, elements@),
                        row == Seq::new(
                            threads[t as int].entries.len(),
                            |e: int| card_of(threads, self.active_view(), source@, elements@, t as int, e),
                        ),
                        base == start.len(),
                        done == section(threads, self.active_view(), source@, elements@, resolved, t as int),
                        cards@.len() == base + done.len() + e,
                        cards@.take(base) == start,
                        cards_match(cards@.skip(base), done + row.take(e as int)),
                    decreases count - e,
                {
                    let card = self.card(t, e, source, elements);
                    let ghost prior = cards@;
                    cards.push(card);
                    proof {
                        assert(cards@ == prior.push(card));
                        assert(0 <= base <= prior.len());
                        assert(cards@.take(base) =~= prior.take(base));
                        assert(cards@.skip(base) =~= prior.skip(base).push(card));
                        assert(done + row.take(e + 1) =~= (done + row.take(e as int)).push(row[e as int]));
                        let all = cards@.skip(base);
                        let models = done + row.take(e + 1);
                        assert forall|k: int| 0 <= k < all.len() implies card_matches(#[trigger] all[k], models[k]) by {
                            if k < all.len() - 1 {
                                assert(all[k] == prior.skip(base)[k]);
                                assert(models[k] == (done + row.take(e as int))[k]);
                            }
                        }
                    }
                    e += 1;
                }
                proof {
                    assert(row.take(count as int) =~= row);
                }
            }
            t += 1;
        }
    }

    /// The comments as sidebar cards, oldest first: open threads, then
    /// resolved ones — the history section. Replies come after their
    /// thread's root, indented by their depth.
    pub fn cards(&self, source: &str, elements: &Vec<PreviewElement>) -> (cards: Vec<CommentCard>)
        requires
            self.wf(),
            quotable(self.threads_view(), source@, elements@),
        ensures
            cards_match(cards@, cards_spec(self.threads_view(), self.active_view(), source@, elements@)),
    {
        let mut cards: Vec<CommentCard> = Vec::new();
        self.push_section(&mut cards, false, source, elements);
        let ghost open = cards@;
        self.push_section(&mut cards, true, source, elements);
        proof {
            let models = cards_spec(self.threads_view(), self.active_view(), source@, elements@);
            let first = section(self.threads_view(), self.active_view(), source@, elements@, false, self.threads_view().len() as int);
            assert(open.skip(0) =~= open);
            assert forall|k: int| 0 <= k < cards@.len() implies card_matches(#[trigger] cards@[k], models[k]) by {
                if k < open.len() {
                    assert(cards@[k] == cards@.take(open.len() as int)[k]);
                    assert(open.skip(0)[k] == open[k]);
                } else {
                    assert(cards@[k] == cards@.skip(open.len() as int)[k - open.len()]);
                }
            }
        }
        cards
    }
}

} // verus!
