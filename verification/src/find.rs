//! The find feature: the query, which match is current, and the match
//! lists the preview navigates.
//!
//! Matching is ASCII-case-insensitive and lives in the editing module;
//! this module owns the selection state — the query plus the index of the
//! current match — and the enumeration that orders matches across the
//! preview's elements.
use crate::editing::{cluster_matches, cluster_views, int_ranges, occurrence_ranges, same_cluster};
use crate::preview::PreviewElement;
use crate::text::{cluster_chars, decimal, decimal_string, grapheme_clusters, push_str_chars};
use vstd::prelude::*;

verus! {

/// The state of the find popup: the query typed so far and the index of
/// the current match among the live ones.
#[derive(Debug, Clone, Default)]
pub struct Find {
    query: String,
    current: Option<usize>,
}

/// Which match becomes the current one.
#[derive(Debug, Clone, Copy, PartialEq, Eq)]
pub enum Way {
    /// The first match — what every keystroke restarts at.
    First,
    /// The next match, wrapping around the end.
    Next,
    /// The previous match, wrapping around the start.
    Previous,
}

/// The index `current` names among `total` matches: clamped to the last one.
pub open spec fn clamped(current: Option<usize>, total: int) -> Option<int> {
    match current {
        Some(index) => Some(if index < total { index as int } else if total > 0 {
            total - 1
        } else {
            0
        }),
        None => None,
    }
}

/// The index a step of `forward` lands on among `total > 0` matches.
pub open spec fn stepped(current: Option<usize>, total: int, forward: int) -> int {
    match clamped(current, total) {
        Some(index) => (index + forward) % total,
        None => 0,
    }
}

/// The match `way` selects among `total` matches, from `current`.
pub open spec fn selected(current: Option<usize>, way: Way, total: int) -> Option<int> {
    if total <= 0 {
        None
    } else {
        match way {
            Way::First => Some(0),
            Way::Next => Some(stepped(current, total, 1)),
            Way::Previous => Some(stepped(current, total, total - 1)),
        }
    }
}

impl Find {
    /// The query typed so far.
    pub closed spec fn query_view(self) -> Seq<char> {
        self.query@
    }

    /// The index of the current match, as last selected.
    pub closed spec fn current_view(self) -> Option<usize> {
        self.current
    }

    pub fn new() -> (find: Find)
        ensures
            find.query_view() == Seq::<char>::empty(),
            find.current_view() is None,
    {
        Find { query: String::new(), current: None }
    }

    /// The query, matched case-insensitively.
    pub fn query(&self) -> (query: &str)
        ensures
            query@ == self.query_view(),
    {
        self.query.as_str()
    }

    /// Whether the query is live: matches highlight and navigate.
    pub fn is_active(&self) -> (active: bool)
        ensures
            active == (self.query_view().len() > 0),
    {
        !self.query.as_str().is_empty()
    }

    /// Replaces the query, unsetting the current match — the next
    /// selection restarts at the first match.
    pub fn set_query(&mut self, query: &str)
        ensures
            final(self).query_view() == query@,
            final(self).current_view() is None,
    {
        self.query = query.to_owned();
        self.current = None;
    }

    /// The current match's index among `total` live matches, clamped
    /// when the document shifted underneath it.
    pub fn current(&self, total: usize) -> (index: Option<usize>)
        ensures
            match (index, clamped(self.current_view(), total as int)) {
                (Some(i), Some(j)) => i == j,
                (None, None) => true,
                _ => false,
            },
    {
        match self.current {
            Some(index) => Some(if index < total {
                index
            } else if total > 0 {
                total - 1
            } else {
                0
            }),
            None => None,
        }
    }

    /// Makes the match `way` points at current and returns its index;
    /// `None` when there is nothing to select, changing nothing.
    pub fn select(&mut self, way: Way, total: usize) -> (index: Option<usize>)
        ensures
            match (index, selected(old(self).current_view(), way, total as int)) {
                (Some(i), Some(j)) => i == j && final(self).current_view() == Some(i),
                (None, None) => final(self).current_view() == old(self).current_view(),
                _ => false,
            },
            final(self).query_view() == old(self).query_view(),
    {
        match way {
            Way::First => if total > 0 {
                self.current = Some(0);
                Some(0)
            } else {
                None
            },
            Way::Next => self.step(total, 1),
            Way::Previous => self.step(total, if total > 0 { total - 1 } else { 0 }),
        }
    }

    /// Steps `forward` matches from the current one, wrapping around;
    /// without a current match, selects the first.
    fn step(&mut self, total: usize, forward: usize) -> (index: Option<usize>)
        requires
            forward <= total || total == 0,
        ensures
            total == 0 ==> index is None && final(self).current_view() == old(
                self,
            ).current_view(),
            total > 0 ==> index == Some(stepped(old(self).current_view(), total as int, forward as int) as usize)
                && final(self).current_view() == index,
            final(self).query_view() == old(self).query_view(),
    {
        if total == 0 {
            return None;
        }
        let index = match self.current(total) {
            Some(index) => ((index as u128 + forward as u128) % (total as u128)) as usize,
            None => 0,
        };
        self.current = Some(index);
        Some(index)
    }
}

/// Stepping forward then backward returns to the current match, and every
/// selected index is a live match.
pub proof fn law_next_then_previous_returns(current: usize, total: int)
    requires
        current < total <= usize::MAX,
    ensures
        stepped(Some(stepped(Some(current), total, 1) as usize), total, total - 1) == current,
        0 <= stepped(Some(current), total, 1) < total,
{
    let next = stepped(Some(current), total, 1);
    vstd::arithmetic::div_mod::lemma_mod_bound(current + 1, total);
    if current + 1 < total {
        vstd::arithmetic::div_mod::lemma_small_mod((current + 1) as nat, total as nat);
        assert(next == current + 1);
        vstd::arithmetic::div_mod::lemma_mod_add_multiples_vanish(current as int, total);
        vstd::arithmetic::div_mod::lemma_small_mod(current as nat, total as nat);
        assert((current + 1 + total - 1) % total == current);
    } else {
        vstd::arithmetic::div_mod::lemma_mod_self_0(total);
        assert(next == 0);
        vstd::arithmetic::div_mod::lemma_small_mod((total - 1) as nat, total as nat);
        assert((0 + total - 1) % total == total - 1);
    }
}

/// The match `n` successive Next selections land on, starting from the
/// live match `index`.
pub open spec fn after_nexts(index: int, total: int, n: nat) -> int
    decreases n,
{
    if n == 0 {
        index
    } else {
        stepped(Some(after_nexts(index, total, (n - 1) as nat) as usize), total, 1)
    }
}

proof fn lemma_after_nexts(index: int, total: int, n: nat)
    requires
        0 <= index < total <= usize::MAX,
    ensures
        after_nexts(index, total, n) == (index + n) % total,
    decreases n,
{
    if n == 0 {
        vstd::arithmetic::div_mod::lemma_small_mod(index as nat, total as nat);
    } else {
        lemma_after_nexts(index, total, (n - 1) as nat);
        let previous = (index + n - 1) % total;
        vstd::arithmetic::div_mod::lemma_mod_bound(index + n - 1, total);
        assert(clamped(Some(previous as usize), total) == Some(previous));
        vstd::arithmetic::div_mod::lemma_add_mod_noop(index + n - 1, 1, total);
        vstd::arithmetic::div_mod::lemma_mod_twice(index + n - 1, total);
        assert((previous + 1) % total == (index + n) % total) by {
            vstd::arithmetic::div_mod::lemma_add_mod_noop(previous, 1, total);
            if total == 1 {
                vstd::arithmetic::div_mod::lemma_mod_self_0(1);
            }
        }
    }
}

/// Next wraps around: `n` successive Next selections from the live match
/// `index` land `n` matches further on, modulo the total, so `total` of
/// them come back to where they started.
pub proof fn law_nexts_wrap_around(index: usize, total: int, n: nat)
    requires
        index < total <= usize::MAX,
    ensures
        after_nexts(index as int, total, n) == (index + n) % total,
        after_nexts(index as int, total, total as nat) == index,
{
    lemma_after_nexts(index as int, total, n);
    lemma_after_nexts(index as int, total, total as nat);
    vstd::arithmetic::div_mod::lemma_mod_add_multiples_vanish(index as int, total);
    vstd::arithmetic::div_mod::lemma_small_mod(index as nat, total as nat);
}

/// Every selection lands on a live match.
pub proof fn law_selection_in_range(current: Option<usize>, way: Way, total: int)
    requires
        total > 0,
    ensures
        selected(current, way, total) matches Some(index) && 0 <= index < total,
{
}

/// Every match of the query over the preview elements, in document order:
/// the element and the grapheme range within its text.
pub open spec fn preview_matches_spec(texts: Seq<Seq<char>>, query: Seq<char>) -> Seq<(int, (int, int))>
    decreases texts.len(),
{
    if texts.len() == 0 {
        seq![]
    } else {
        let last = texts.len() - 1;
        preview_matches_spec(texts.drop_last(), query) + occurrence_ranges(
            grapheme_clusters(texts[last]),
            grapheme_clusters(query),
            same_cluster(),
        ).map_values(|range: (int, int)| (last, range))
    }
}

/// The texts of the preview elements.
pub open spec fn element_texts(elements: Seq<PreviewElement>) -> Seq<Seq<char>> {
    elements.map_values(|element: PreviewElement| element.text@)
}

/// Machine matches read as integers.
pub open spec fn int_matches(found: Seq<(usize, (usize, usize))>) -> Seq<(int, (int, int))> {
    found.map_values(
        |m: (usize, (usize, usize))| (m.0 as int, (m.1.0 as int, m.1.1 as int)),
    )
}

/// All matches over the preview elements, in document order: the element
/// each match lives in and its grapheme range within it — the units the
/// preview caret and highlights use.
pub fn preview_matches(elements: &Vec<PreviewElement>, query: &str) -> (found: Vec<
    (usize, (usize, usize)),
>)
    ensures
        int_matches(found@) == preview_matches_spec(element_texts(elements@), query@),
{
    let query_clusters = cluster_chars(query);
    proof {
        assert(cluster_views(query_clusters@) =~= grapheme_clusters(query@));
    }
    let mut found: Vec<(usize, (usize, usize))> = Vec::new();
    let mut index: usize = 0;
    while index < elements.len()
        invariant
            index <= elements@.len(),
            cluster_views(query_clusters@) == grapheme_clusters(query@),
            int_matches(found@) == preview_matches_spec(
                element_texts(elements@).take(index as int),
                query@,
            ),
        decreases elements@.len() - index,
    {
        let text_clusters = cluster_chars(elements[index].text());
        proof {
            assert(cluster_views(text_clusters@) =~= grapheme_clusters(elements@[index as int].text@));
        }
        let ranges = cluster_matches(&text_clusters, &query_clusters);
        let ghost before = found@;
        let mut k: usize = 0;
        while k < ranges.len()
            invariant
                k <= ranges@.len(),
                found@.len() == before.len() + k,
                found@.subrange(0, before.len() as int) == before,
                forall|j: int|
                    0 <= j < k ==> #[trigger] found@[before.len() + j] == (index, ranges@[j]),
            decreases ranges@.len() - k,
        {
            found.push((index, ranges[k]));
            k += 1;
        }
        proof {
            let texts = element_texts(elements@);
            assert(texts.take(index + 1).drop_last() =~= texts.take(index as int));
            assert(texts.take(index + 1)[index as int] == elements@[index as int].text@);
            let added = occurrence_ranges(
                grapheme_clusters(elements@[index as int].text@),
                grapheme_clusters(query@),
                same_cluster(),
            ).map_values(|range: (int, int)| (index as int, range));
            assert(int_ranges(ranges@) == occurrence_ranges(
                grapheme_clusters(elements@[index as int].text@),
                grapheme_clusters(query@),
                same_cluster(),
            ));
            assert(added.len() == ranges@.len());
            assert forall|j: int| 0 <= j < added.len() implies int_matches(found@)[before.len() + j]
                == added[j] by {
                assert(found@[before.len() + j] == (index, ranges@[j]));
            }
            assert forall|j: int| 0 <= j < before.len() implies int_matches(found@)[j]
                == int_matches(before)[j] by {
                assert(found@[j] == found@.subrange(0, before.len() as int)[j]);
            }
            assert(int_matches(found@) =~= int_matches(before) + added);
        }
        index += 1;
    }
    proof {
        assert(element_texts(elements@).take(elements@.len() as int) =~= element_texts(elements@));
    }
    found
}

/// The match at index `index` of the list, when there is one.
pub open spec fn match_at(matches: Seq<(int, (int, int))>, index: Option<int>) -> Option<(int, (int, int))> {
    match index {
        Some(i) => if 0 <= i < matches.len() {
            Some(matches[i])
        } else {
            None
        },
        None => None,
    }
}

/// A machine match read as integers.
pub open spec fn int_match(found: Option<(usize, (usize, usize))>) -> Option<(int, (int, int))> {
    match found {
        Some(m) => Some((m.0 as int, (m.1.0 as int, m.1.1 as int))),
        None => None,
    }
}

impl Find {
    /// The current preview match, which the preview paints distinctly.
    pub fn current_preview_match(&self, elements: &Vec<PreviewElement>) -> (found: Option<
        (usize, (usize, usize)),
    >)
        ensures
            ({
                let all = preview_matches_spec(element_texts(elements@), self.query_view());
                int_match(found) == match_at(all, clamped(self.current_view(), all.len() as int))
            }),
    {
        let matches = preview_matches(elements, self.query());
        proof {
            assert(int_matches(matches@).len() == matches@.len());
        }
        match self.current(matches.len()) {
            Some(index) => if index < matches.len() {
                assert(int_matches(matches@)[index as int] == int_match(Some(matches@[index as int]))->0);
                Some(matches[index])
            } else {
                None
            },
            None => None,
        }
    }

    /// Moves the current match the way given over the preview's matches
    /// and returns it; nothing moves while the query is empty or nothing
    /// matches.
    pub fn select_preview(&mut self, way: Way, elements: &Vec<PreviewElement>) -> (found: Option<
        (usize, (usize, usize)),
    >)
        ensures
            final(self).query_view() == old(self).query_view(),
            ({
                let all = preview_matches_spec(element_texts(elements@), old(self).query_view());
                let pick = if old(self).query_view().len() > 0 {
                    selected(old(self).current_view(), way, all.len() as int)
                } else {
                    None
                };
                &&& int_match(found) == match_at(all, pick)
                &&& pick is None ==> final(self).current_view() == old(self).current_view()
                &&& pick matches Some(i) ==> final(self).current_view() == Some(i as usize)
            }),
    {
        if !self.is_active() {
            return None;
        }
        let matches = preview_matches(elements, self.query());
        proof {
            assert(int_matches(matches@).len() == matches@.len());
        }
        match self.select(way, matches.len()) {
            Some(index) => {
                proof {
                    law_selection_in_range(old(self).current_view(), way, matches@.len() as int);
                }
                assert(int_matches(matches@)[index as int] == int_match(Some(matches@[index as int]))->0);
                Some(matches[index])
            },
            None => None,
        }
    }
}


/// How the find counter reads: a count of the matches, or the warning
/// that the query matched nothing.
#[derive(Debug, Clone, Copy, PartialEq, Eq)]
pub enum CounterTone {
    Counted,
    Unmatched,
}

/// The find counter for a query, the current match and `total` live
/// matches: nothing while the query is empty, `no match` when nothing
/// matched, and otherwise the 1-based current match (the first when none
/// is selected yet) over the total.
pub open spec fn counter_spec(query: Seq<char>, current: Option<usize>, total: nat) -> Option<
    (Seq<char>, CounterTone),
> {
    if query.len() == 0 {
        None
    } else if total == 0 {
        Some(("no match"@, CounterTone::Unmatched))
    } else {
        let shown: nat = match clamped(current, total as int) {
            Some(index) => (index + 1) as nat,
            None => 1,
        };
        Some((decimal(shown) + "/"@ + decimal(total), CounterTone::Counted))
    }
}

/// The find popup's counter for `total` live matches.
pub fn counter(find: &Find, total: usize) -> (label: Option<(String, CounterTone)>)
    ensures
        match (label, counter_spec(find.query_view(), find.current_view(), total as nat)) {
            (None, None) => true,
            (Some((text, tone)), Some((words, expected))) => text@ == words && tone == expected,
            _ => false,
        },
{
    if !find.is_active() {
        return None;
    }
    if total == 0 {
        let text = "no match".to_owned();
        return Some((text, CounterTone::Unmatched));
    }
    let shown: usize = match find.current(total) {
        Some(index) => index + 1,
        None => 1,
    };
    let mut text = decimal_string(shown);
    push_str_chars(&mut text, "/");
    let tail = decimal_string(total);
    push_str_chars(&mut text, tail.as_str());
    Some((text, CounterTone::Counted))
}

} // verus!
