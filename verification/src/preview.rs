//! What the library knows of the rendered preview: caret positions,
//! elements (their rendered text and the source bytes they came from), and
//! the vocabulary of caret motions.
use vstd::prelude::*;

verus! {

/// A caret position in the preview: an element index plus a grapheme column
/// within the element's rendered text. Positions order by element, then
/// column.
#[derive(Debug, Clone, Copy, PartialEq, Eq, Hash, Structural)]
pub struct CaretPosition {
    pub element: usize,
    pub column: usize,
}

/// Whether `a` comes no later than `b` in document order.
pub open spec fn caret_le(a: CaretPosition, b: CaretPosition) -> bool {
    a.element < b.element || (a.element == b.element && a.column <= b.column)
}

impl CaretPosition {
    /// Whether `self` comes no later than `other` in document order.
    pub fn le(&self, other: &CaretPosition) -> (earlier: bool)
        ensures
            earlier == caret_le(*self, *other),
    {
        self.element < other.element || (self.element == other.element && self.column
            <= other.column)
    }
}

/// A rendered preview element: its text as the preview shows it, and the
/// byte range of the Markdown source it was rendered from.
#[derive(Debug, Clone, PartialEq, Eq)]
pub struct PreviewElement {
    pub text: String,
    pub source_start: usize,
    pub source_end: usize,
}

impl PreviewElement {
    /// The rendered text.
    pub fn text(&self) -> (text: &str)
        ensures
            text@ == self.text@,
    {
        self.text.as_str()
    }
}

/// A caret motion by characters or lines.
#[derive(Debug, Clone, Copy, PartialEq, Eq, Hash)]
pub enum Motion {
    Up,
    Down,
    Left,
    Right,
    Start,
    DocumentEnd,
}

/// A caret motion by words.
#[derive(Debug, Clone, Copy, PartialEq, Eq, Hash)]
pub enum WordMotion {
    NextStart,
    PreviousStart,
    NextEnd,
    PreviousEnd,
}

/// A jump to the first or last element (or the counted one).
#[derive(Debug, Clone, Copy, PartialEq, Eq, Hash)]
pub enum Jump {
    First,
    Last,
}

/// A page scroll.
#[derive(Debug, Clone, Copy, PartialEq, Eq, Hash)]
pub enum Page {
    HalfUp,
    HalfDown,
    FullUp,
    FullDown,
}

/// Where a scroll puts the caret in the viewport.
#[derive(Debug, Clone, Copy, PartialEq, Eq, Hash)]
pub enum Placement {
    Center,
    Top,
    Bottom,
}

} // verus!
