//! Small scanning primitives over character sequences: runs of a
//! character, leading indentation, trailing whitespace, and ordering
//! ranges by their start.
use crate::text::{is_whitespace, unicode_whitespace};
use vstd::prelude::*;

verus! {

/// How many times `c` repeats at the start of `s`.
pub open spec fn run_of(s: Seq<char>, c: char) -> nat
    decreases s.len(),
{
    if s.len() > 0 && s[0] == c {
        1 + run_of(s.drop_first(), c)
    } else {
        0
    }
}

/// How many spaces or tabs start `s`.
pub open spec fn blank_prefix(s: Seq<char>) -> nat
    decreases s.len(),
{
    if s.len() > 0 && (s[0] == ' ' || s[0] == '\t') {
        1 + blank_prefix(s.drop_first())
    } else {
        0
    }
}

/// The length of `s` without its trailing whitespace.
pub open spec fn trimmed_end(s: Seq<char>) -> nat
    decreases s.len(),
{
    if s.len() > 0 && unicode_whitespace(s.last()) {
        trimmed_end(s.drop_last())
    } else {
        s.len()
    }
}

/// Whether `c` occurs in `s`.
pub open spec fn has_char(s: Seq<char>, c: char) -> bool {
    exists|i: int| 0 <= i < s.len() && s[i] == c
}

/// Whether every character of `s` is a space or a tab.
pub open spec fn all_blank(s: Seq<char>) -> bool {
    forall|i: int| 0 <= i < s.len() ==> (#[trigger] s[i] == ' ' || s[i] == '\t')
}

pub proof fn lemma_run_of(s: Seq<char>, c: char, i: int)
    requires
        0 <= i <= run_of(s, c),
    ensures
        run_of(s, c) <= s.len(),
        i < run_of(s, c) ==> s[i] == c,
        i == run_of(s, c) ==> !(i < s.len() && s[i] == c),
    decreases s.len(),
{
    if s.len() > 0 && s[0] == c {
        lemma_run_of(s.drop_first(), c, if i > 0 { i - 1 } else { 0 });
    }
}

pub proof fn lemma_blank_prefix(s: Seq<char>, i: int)
    requires
        0 <= i <= blank_prefix(s),
    ensures
        blank_prefix(s) <= s.len(),
        i < blank_prefix(s) ==> (s[i] == ' ' || s[i] == '\t'),
        i == blank_prefix(s) ==> !(i < s.len() && (s[i] == ' ' || s[i] == '\t')),
    decreases s.len(),
{
    if s.len() > 0 && (s[0] == ' ' || s[0] == '\t') {
        lemma_blank_prefix(s.drop_first(), if i > 0 { i - 1 } else { 0 });
    }
}

pub proof fn lemma_trimmed_end(s: Seq<char>)
    ensures
        trimmed_end(s) <= s.len(),
        trimmed_end(s) == 0 || !unicode_whitespace(s[trimmed_end(s) - 1]),
        forall|i: int| trimmed_end(s) <= i < s.len() ==> unicode_whitespace(#[trigger] s[i]),
    decreases s.len(),
{
    if s.len() > 0 && unicode_whitespace(s.last()) {
        let shorter = s.drop_last();
        lemma_trimmed_end(shorter);
        assert forall|i: int| trimmed_end(s) <= i < s.len() implies unicode_whitespace(
            #[trigger] s[i],
        ) by {
            if i < s.len() - 1 {
                assert(s[i] == shorter[i]);
            }
        }
    }
}

/// How many times `c` repeats in `line` from `from` on.
pub fn count_run(line: &Vec<char>, from: usize, c: char) -> (count: usize)
    requires
        from <= line@.len(),
    ensures
        count == run_of(line@.skip(from as int), c),
        from + count <= line@.len(),
        line@.len() <= usize::MAX,
{
    let _ = line.len();
    let mut i: usize = from;
    while i < line.len() && line[i] == c
        invariant
            from <= i <= line@.len(),
            run_of(line@.skip(from as int), c) == (i - from) + run_of(line@.skip(i as int), c),
        decreases line@.len() - i,
    {
        assert(line@.skip(i as int).drop_first() =~= line@.skip(i + 1));
        i += 1;
    }
    i - from
}

/// How many spaces and tabs start `line`.
pub fn count_blank_prefix(line: &Vec<char>) -> (count: usize)
    ensures
        count == blank_prefix(line@),
        count <= line@.len(),
{
    let mut i: usize = 0;
    assert(line@.skip(0) =~= line@);
    while i < line.len() && (line[i] == ' ' || line[i] == '\t')
        invariant
            i <= line@.len(),
            blank_prefix(line@) == i + blank_prefix(line@.skip(i as int)),
        decreases line@.len() - i,
    {
        assert(line@.skip(i as int).drop_first() =~= line@.skip(i + 1));
        i += 1;
    }
    i
}

/// The length of `line` without its trailing whitespace.
pub fn trim_end_len(line: &Vec<char>) -> (len: usize)
    ensures
        len == trimmed_end(line@),
        len <= line@.len(),
{
    proof {
        lemma_trimmed_end(line@);
    }
    let mut end: usize = line.len();
    assert(line@.take(end as int) =~= line@);
    while end > 0 && is_whitespace(line[end - 1])
        invariant
            end <= line@.len(),
            trimmed_end(line@) == trimmed_end(line@.take(end as int)),
        decreases end,
    {
        assert(line@.take(end as int).drop_last() =~= line@.take(end - 1));
        end -= 1;
    }
    end
}

/// Whether `c` occurs in `line[from..]`.
pub fn contains_from(line: &Vec<char>, from: usize, c: char) -> (found: bool)
    requires
        from <= line@.len(),
    ensures
        found == has_char(line@.skip(from as int), c),
{
    let mut i: usize = from;
    while i < line.len()
        invariant
            from <= i <= line@.len(),
            forall|k: int| from <= k < i ==> line@[k] != c,
        decreases line@.len() - i,
    {
        if line[i] == c {
            assert(line@.skip(from as int)[i - from] == c);
            return true;
        }
        i += 1;
    }
    assert forall|k: int| 0 <= k < line@.skip(from as int).len() implies line@.skip(
        from as int,
    )[k] != c by {
        assert(line@.skip(from as int)[k] == line@[from + k]);
    }
    false
}

/// Whether `line[from..]` holds only spaces and tabs.
pub fn blank_from(line: &Vec<char>, from: usize) -> (blank: bool)
    requires
        from <= line@.len(),
    ensures
        blank == all_blank(line@.skip(from as int)),
{
    let mut i: usize = from;
    while i < line.len()
        invariant
            from <= i <= line@.len(),
            forall|k: int| from <= k < i ==> (#[trigger] line@[k] == ' ' || line@[k] == '\t'),
        decreases line@.len() - i,
    {
        if line[i] != ' ' && line[i] != '\t' {
            assert(!(line@.skip(from as int)[i - from] == ' ' || line@.skip(from as int)[i
                - from] == '\t'));
            return false;
        }
        i += 1;
    }
    assert forall|k: int| 0 <= k < line@.skip(from as int).len() implies (#[trigger] line@.skip(
        from as int,
    )[k] == ' ' || line@.skip(from as int)[k] == '\t') by {
        assert(line@.skip(from as int)[k] == line@[from + k]);
    }
    true
}

// ---------------------------------------------------------------------------
// Ordering ranges by their start, stably.
// ---------------------------------------------------------------------------

/// `item` inserted into `sorted` after every element whose key is not
/// greater than its own.
pub open spec fn insert_by<A>(sorted: Seq<A>, item: A, key: spec_fn(A) -> int) -> Seq<A>
    decreases sorted.len(),
{
    if sorted.len() == 0 {
        seq![item]
    } else if key(sorted.last()) <= key(item) {
        sorted.push(item)
    } else {
        insert_by(sorted.drop_last(), item, key).push(sorted.last())
    }
}

/// The stable sort of `items` by `key`: equal keys keep their order.
pub open spec fn sort_by<A>(items: Seq<A>, key: spec_fn(A) -> int) -> Seq<A>
    decreases items.len(),
{
    if items.len() == 0 {
        seq![]
    } else {
        insert_by(sort_by(items.drop_last(), key), items.last(), key)
    }
}

/// The start of a machine range.
pub open spec fn start_key<T>() -> spec_fn((usize, usize, T)) -> int {
    |item: (usize, usize, T)| item.0 as int
}

proof fn lemma_insert_map<A, B>(
    sorted: Seq<A>,
    item: A,
    f: spec_fn(A) -> B,
    ka: spec_fn(A) -> int,
    kb: spec_fn(B) -> int,
)
    requires
        forall|x: A| #[trigger] kb(f(x)) == ka(x),
    ensures
        insert_by(sorted.map_values(f), f(item), kb) == insert_by(sorted, item, ka).map_values(f),
    decreases sorted.len(),
{
    if sorted.len() == 0 {
        assert(seq![f(item)] =~= seq![item].map_values(f));
    } else {
        assert(sorted.map_values(f).last() == f(sorted.last()));
        assert(sorted.map_values(f).drop_last() =~= sorted.drop_last().map_values(f));
        if ka(sorted.last()) <= ka(item) {
            assert(sorted.map_values(f).push(f(item)) =~= sorted.push(item).map_values(f));
        } else {
            lemma_insert_map(sorted.drop_last(), item, f, ka, kb);
            let inner = insert_by(sorted.drop_last(), item, ka);
            assert(inner.map_values(f).push(f(sorted.last())) =~= inner.push(
                sorted.last(),
            ).map_values(f));
        }
    }
}

/// Sorting commutes with a map that keeps every key.
pub proof fn lemma_sort_map<A, B>(
    items: Seq<A>,
    f: spec_fn(A) -> B,
    ka: spec_fn(A) -> int,
    kb: spec_fn(B) -> int,
)
    requires
        forall|x: A| #[trigger] kb(f(x)) == ka(x),
    ensures
        sort_by(items.map_values(f), kb) == sort_by(items, ka).map_values(f),
    decreases items.len(),
{
    if items.len() == 0 {
        assert(sort_by(items, ka).map_values(f) =~= seq![]);
    } else {
        assert(items.map_values(f).drop_last() =~= items.drop_last().map_values(f));
        assert(items.map_values(f).last() == f(items.last()));
        lemma_sort_map(items.drop_last(), f, ka, kb);
        lemma_insert_map(sort_by(items.drop_last(), ka), items.last(), f, ka, kb);
    }
}

proof fn lemma_insert_len<A>(sorted: Seq<A>, item: A, key: spec_fn(A) -> int)
    ensures
        insert_by(sorted, item, key).len() == sorted.len() + 1,
    decreases sorted.len(),
{
    if sorted.len() > 0 && key(sorted.last()) > key(item) {
        lemma_insert_len(sorted.drop_last(), item, key);
    }
}

pub proof fn lemma_sort_len<A>(items: Seq<A>, key: spec_fn(A) -> int)
    ensures
        sort_by(items, key).len() == items.len(),
    decreases items.len(),
{
    if items.len() > 0 {
        lemma_sort_len(items.drop_last(), key);
        lemma_insert_len(sort_by(items.drop_last(), key), items.last(), key);
    }
}

/// Inserts `item` into the sorted prefix, as `insert_by` does.
fn insert_sorted<T: Copy>(sorted: &mut Vec<(usize, usize, T)>, item: (usize, usize, T))
    ensures
        final(sorted)@ == insert_by(old(sorted)@, item, start_key()),
{
    let ghost key = start_key::<T>();
    let ghost initial = sorted@;
    let mut moved: Vec<(usize, usize, T)> = Vec::new();
    // Pop every larger start off the end, then push the item back and the
    // popped elements after it.
    while sorted.len() > 0 && sorted[sorted.len() - 1].0 > item.0
        invariant
            key == start_key::<T>(),
            insert_by(initial, item, key) == insert_by(sorted@, item, key) + moved@.reverse(),
        decreases sorted@.len(),
    {
        let last = sorted.pop().unwrap();
        proof {
            let before = sorted@.push(last);
            assert(before.drop_last() =~= sorted@);
            assert(insert_by(before, item, key) == insert_by(sorted@, item, key).push(last));
        }
        let ghost prev_moved = moved@;
        moved.push(last);
        proof {
            assert(moved@.reverse() =~= seq![last] + prev_moved.reverse());
            assert(insert_by(sorted@, item, key).push(last) + prev_moved.reverse()
                =~= insert_by(sorted@, item, key) + moved@.reverse());
        }
    }
    assert(insert_by(sorted@, item, key) == sorted@.push(item));
    sorted.push(item);
    while moved.len() > 0
        invariant
            insert_by(initial, item, key) == sorted@ + moved@.reverse(),
        decreases moved@.len(),
    {
        let ghost prev_moved = moved@;
        let next = moved.pop().unwrap();
        proof {
            assert(prev_moved.reverse() =~= seq![next] + moved@.reverse());
        }
        let ghost prev_sorted = sorted@;
        sorted.push(next);
        assert(prev_sorted + prev_moved.reverse() =~= sorted@ + moved@.reverse());
    }
    assert(sorted@ + moved@.reverse() =~= sorted@);
}

/// Sorts ranges by their start, stably.
pub fn sort_ranges_by_start<T: Copy>(items: Vec<(usize, usize, T)>) -> (sorted: Vec<
    (usize, usize, T),
>)
    ensures
        sorted@ == sort_by(items@, start_key()),
{
    let mut sorted: Vec<(usize, usize, T)> = Vec::new();
    let mut i: usize = 0;
    while i < items.len()
        invariant
            i <= items@.len(),
            sorted@ == sort_by(items@.take(i as int), start_key()),
        decreases items@.len() - i,
    {
        assert(items@.take(i + 1).drop_last() =~= items@.take(i as int));
        insert_sorted(&mut sorted, items[i]);
        i += 1;
    }
    assert(items@.take(items@.len() as int) =~= items@);
    sorted
}


/// Whether every element satisfies `p`.
pub open spec fn all_satisfy<A>(s: Seq<A>, p: spec_fn(A) -> bool) -> bool {
    forall|i: int| 0 <= i < s.len() ==> #[trigger] p(s[i])
}

/// Whether every pair range lies within `[0, n]`.
pub open spec fn pairs_within(s: Seq<(usize, usize)>, n: int) -> bool {
    forall|i: int| 0 <= i < s.len() ==> (#[trigger] s[i]).0 <= n && s[i].1 <= n
}

/// Whether every tagged range lies within `[0, n]`.
pub open spec fn triples_within<T>(s: Seq<(usize, usize, T)>, n: int) -> bool {
    forall|i: int| 0 <= i < s.len() ==> (#[trigger] s[i]).0 <= n && s[i].1 <= n
}

proof fn lemma_insert_preserves<A>(sorted: Seq<A>, item: A, key: spec_fn(A) -> int, p: spec_fn(A) -> bool)
    requires
        all_satisfy(sorted, p),
        p(item),
    ensures
        all_satisfy(insert_by(sorted, item, key), p),
    decreases sorted.len(),
{
    if sorted.len() > 0 && key(sorted.last()) > key(item) {
        assert(all_satisfy(sorted.drop_last(), p)) by {
            assert forall|i: int| 0 <= i < sorted.drop_last().len() implies #[trigger] p(
                sorted.drop_last()[i],
            ) by {
                assert(sorted.drop_last()[i] == sorted[i]);
            }
        }
        lemma_insert_preserves(sorted.drop_last(), item, key, p);
        assert(p(sorted[sorted.len() - 1]));
    } else if sorted.len() > 0 {
        assert(p(item));
    }
}

/// Sorting keeps every element's property.
pub proof fn lemma_sort_preserves<A>(items: Seq<A>, key: spec_fn(A) -> int, p: spec_fn(A) -> bool)
    requires
        all_satisfy(items, p),
    ensures
        all_satisfy(sort_by(items, key), p),
    decreases items.len(),
{
    if items.len() > 0 {
        assert(all_satisfy(items.drop_last(), p)) by {
            assert forall|i: int| 0 <= i < items.drop_last().len() implies #[trigger] p(
                items.drop_last()[i],
            ) by {
                assert(items.drop_last()[i] == items[i]);
            }
        }
        lemma_sort_preserves(items.drop_last(), key, p);
        assert(p(items[items.len() - 1]));
        lemma_insert_preserves(sort_by(items.drop_last(), key), items.last(), key, p);
    }
}

/// Sorting keeps pair ranges within bounds.
pub proof fn lemma_sort_pairs_within(items: Seq<(usize, usize)>, n: int)
    requires
        pairs_within(items, n),
    ensures
        pairs_within(sort_by(items, pair_key()), n),
{
    let p = |r: (usize, usize)| r.0 <= n && r.1 <= n;
    assert(all_satisfy(items, p));
    lemma_sort_preserves(items, pair_key(), p);
    let sorted = sort_by(items, pair_key());
    assert forall|i: int| 0 <= i < sorted.len() implies (#[trigger] sorted[i]).0 <= n && sorted[i].1
        <= n by {
        assert(p(sorted[i]));
    }
}

/// Sorting keeps tagged ranges within bounds.
pub proof fn lemma_sort_triples_within<T>(items: Seq<(usize, usize, T)>, n: int)
    requires
        triples_within(items, n),
    ensures
        triples_within(sort_by(items, start_key()), n),
{
    let p = |r: (usize, usize, T)| r.0 <= n && r.1 <= n;
    assert(all_satisfy(items, p));
    lemma_sort_preserves(items, start_key(), p);
    let sorted = sort_by(items, start_key());
    assert forall|i: int| 0 <= i < sorted.len() implies (#[trigger] sorted[i]).0 <= n && sorted[i].1
        <= n by {
        assert(p(sorted[i]));
    }
}

/// The start of a pair range.
pub open spec fn pair_key() -> spec_fn((usize, usize)) -> int {
    |item: (usize, usize)| item.0 as int
}

/// Sorts pair ranges by their start, stably.
pub fn sort_pairs_by_start(items: Vec<(usize, usize)>) -> (sorted: Vec<(usize, usize)>)
    ensures
        sorted@ == sort_by(items@, pair_key()),
{
    let ghost widen = |r: (usize, usize)| (r.0, r.1, ());
    let ghost narrow = |t: (usize, usize, ())| (t.0, t.1);
    let mut wide: Vec<(usize, usize, ())> = Vec::new();
    let mut i: usize = 0;
    while i < items.len()
        invariant
            i <= items@.len(),
            widen == (|r: (usize, usize)| (r.0, r.1, ())),
            wide@ == items@.take(i as int).map_values(widen),
        decreases items@.len() - i,
    {
        let ghost before = wide@;
        wide.push((items[i].0, items[i].1, ()));
        assert(items@.take(i + 1).map_values(widen) =~= items@.take(i as int).map_values(widen).push(
            widen(items@[i as int]),
        ));
        i += 1;
    }
    assert(items@.take(items@.len() as int) =~= items@);
    let ordered = sort_ranges_by_start(wide);
    proof {
        assert forall|x: (usize, usize)| #[trigger] start_key::<()>()(widen(x)) == pair_key()(x) by {}
        lemma_sort_map(items@, widen, pair_key(), start_key::<()>());
        lemma_sort_len(items@, pair_key());
    }
    let mut sorted: Vec<(usize, usize)> = Vec::new();
    let mut k: usize = 0;
    while k < ordered.len()
        invariant
            k <= ordered@.len(),
            ordered@ == sort_by(items@, pair_key()).map_values(widen),
            widen == (|r: (usize, usize)| (r.0, r.1, ())),
            sorted@ =~= sort_by(items@, pair_key()).take(k as int),
            sort_by(items@, pair_key()).len() == ordered@.len(),
        decreases ordered@.len() - k,
    {
        sorted.push((ordered[k].0, ordered[k].1));
        proof {
            let full = sort_by(items@, pair_key());
            assert(ordered@[k as int] == widen(full[k as int]));
            assert(sorted@ =~= full.take(k + 1));
        }
        k += 1;
    }
    proof {
        let full = sort_by(items@, pair_key());
        assert(full.take(full.len() as int) =~= full);
    }
    sorted
}

} // verus!
