//! Pending preview counts and multi-key prefixes.
//!
//! A count is never zero: a lone `0` is the element-start motion, so the
//! parser only starts a count on a non-zero digit, and every count
//! saturates at [`MAX_COUNT`] instead of overflowing.
use vstd::prelude::*;

verus! {

/// The highest a pending count may grow: `99999j` and `9999999999j` both
/// scroll to the document's end instead of overflowing.
pub const MAX_COUNT: u32 = 99_999;

/// The smaller of two integers.
pub open spec fn min_int(a: int, b: int) -> int {
    if a <= b {
        a
    } else {
        b
    }
}

/// A non-zero, saturated preview command count.
#[derive(Debug, Clone, Copy, PartialEq, Eq, Hash)]
pub struct Count {
    value: u32,
}

impl Count {
    #[verifier::type_invariant]
    spec fn well_formed(self) -> bool {
        1 <= self.value <= MAX_COUNT
    }

    /// The number the count stands for. The type invariant keeps the
    /// stored number within `1..=MAX_COUNT`, so the clamp below never
    /// changes it; stating it clamped lets proofs rely on the bounds for
    /// every count, ghost ones included.
    pub closed spec fn value(self) -> u32 {
        if self.value < 1 {
            1
        } else if self.value > MAX_COUNT {
            MAX_COUNT
        } else {
            self.value
        }
    }

    /// A count of `value`, saturated at [`MAX_COUNT`]; zero is no count.
    pub fn new(value: u32) -> (count: Option<Count>)
        ensures
            value == 0 <==> count is None,
            count matches Some(c) ==> c.value() == min_int(value as int, MAX_COUNT as int),
    {
        if value == 0 {
            None
        } else if value > MAX_COUNT {
            Some(Count { value: MAX_COUNT })
        } else {
            Some(Count { value })
        }
    }

    /// Appends one decimal digit, saturating at [`MAX_COUNT`].
    pub fn push_digit(self, digit: u32) -> (next: Count)
        ensures
            next.value() == min_int(self.value() * 10 + digit, MAX_COUNT as int),
    {
        proof {
            use_type_invariant(&self);
        }
        let extended: u64 = (self.value as u64) * 10 + (digit as u64);
        if extended > MAX_COUNT as u64 {
            Count { value: MAX_COUNT }
        } else {
            Count { value: extended as u32 }
        }
    }

    /// The number the count stands for: never zero, never above the cap.
    pub fn get(self) -> (value: u32)
        ensures
            value == self.value(),
            1 <= value <= MAX_COUNT,
    {
        proof {
            use_type_invariant(&self);
        }
        self.value
    }
}

/// Whether `next` is what appending `digit` makes of `prev`: the digit
/// extends a pending count (saturating at the cap), starts a count when it
/// is not zero, and otherwise leaves nothing pending. Any prefix ends.
pub open spec fn digit_pushed(prev: Pending, next: Pending, digit: u32) -> bool {
    match prev.count_of() {
        Some(count) => next.count_of() matches Some(extended) && next == Pending::Count(extended)
            && extended.value() == min_int(count.value() * 10 + digit, MAX_COUNT as int),
        None => if digit == 0 {
            next == Pending::Idle
        } else {
            next.count_of() matches Some(started) && next == Pending::Count(started)
                && started.value() == min_int(digit as int, MAX_COUNT as int)
        },
    }
}

/// Every count a caller can hold lies between one and the cap.
pub proof fn lemma_count_bounds(count: Count)
    ensures
        1 <= count.value() <= MAX_COUNT,
{
}

/// A preview command prefix awaiting its second key.
#[derive(Debug, Clone, Copy, PartialEq, Eq, Hash)]
pub enum Prefix {
    G,
    Z,
}

/// The mutually exclusive pending input accepted by the preview.
#[derive(Debug, Clone, Copy, PartialEq, Eq, Hash, Default)]
pub enum Pending {
    #[default]
    Idle,
    Count(Count),
    Prefix { prefix: Prefix, count: Option<Count> },
}

impl Pending {
    /// The count carried by the pending input, if any.
    pub open spec fn count_of(self) -> Option<Count> {
        match self {
            Pending::Idle => None,
            Pending::Count(count) => Some(count),
            Pending::Prefix { count, .. } => count,
        }
    }

    /// The number carried by the pending input, zero when there is none.
    pub open spec fn count_value(self) -> int {
        match self.count_of() {
            Some(count) => count.value() as int,
            None => 0,
        }
    }

    /// The idle pending state.
    pub fn idle() -> (pending: Pending)
        ensures
            pending == Pending::Idle,
    {
        Pending::Idle
    }

    /// The count shown by the mode badge, or zero when no count is pending.
    pub fn pending_count(self) -> (shown: u32)
        ensures
            shown == self.count_value(),
            shown <= MAX_COUNT,
            self.count_of() is Some ==> shown >= 1,
    {
        match self.count() {
            Some(count) => count.get(),
            None => 0,
        }
    }

    /// Whether digits have already started a count.
    pub fn has_count(self) -> (started: bool)
        ensures
            started == self.count_of() is Some,
    {
        self.count().is_some()
    }

    /// The count a motion repeats: the typed digits, or once.
    pub fn motion_count(self) -> (repeats: usize)
        ensures
            repeats == if self.count_of() is Some {
                self.count_value()
            } else {
                1
            },
            1 <= repeats <= MAX_COUNT,
    {
        match self.count() {
            Some(count) => count.get() as usize,
            None => 1,
        }
    }

    /// The count a jump carries: the typed digits, or none. This preserves
    /// the distinct first/last meaning of a plain `gg` or `G`.
    pub fn jump_count(self) -> (target: usize)
        ensures
            target == self.count_value(),
            target <= MAX_COUNT,
    {
        match self.count() {
            Some(count) => count.get() as usize,
            None => 0,
        }
    }

    /// Whether this pending sequence is waiting for `expected`.
    pub fn has_prefix(self, expected: Prefix) -> (waiting: bool)
        ensures
            waiting == (self matches Pending::Prefix { prefix, .. } && prefix == expected),
    {
        match self {
            Pending::Prefix { prefix, .. } => match (prefix, expected) {
                (Prefix::G, Prefix::G) | (Prefix::Z, Prefix::Z) => true,
                _ => false,
            },
            _ => false,
        }
    }

    /// Arms a prefix, replacing any other prefix while preserving its count.
    pub fn arm(&mut self, prefix: Prefix)
        ensures
            *final(self) == (Pending::Prefix { prefix, count: old(self).count_of() }),
    {
        *self = Pending::Prefix { prefix, count: self.count() };
    }

    /// Appends one digit, cancelling a prefix while preserving its count.
    /// A zero without an existing count returns to idle, so a [`Count`] can
    /// never be zero.
    pub fn push_digit(&mut self, digit: u32)
        ensures
            digit_pushed(*old(self), *final(self), digit),
    {
        *self = match self.count() {
            Some(count) => Pending::Count(count.push_digit(digit)),
            None => match Count::new(digit) {
                Some(count) => Pending::Count(count),
                None => Pending::Idle,
            },
        };
    }

    /// Consumes or cancels all pending sequence input.
    pub fn consume(&mut self)
        ensures
            *final(self) == Pending::Idle,
    {
        *self = Pending::Idle;
    }

    /// The count carried by the pending input, if any.
    pub fn count(self) -> (count: Option<Count>)
        ensures
            count == self.count_of(),
    {
        match self {
            Pending::Idle => None,
            Pending::Count(count) => Some(count),
            Pending::Prefix { count, .. } => count,
        }
    }
}

} // verus!
