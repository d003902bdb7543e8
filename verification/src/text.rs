//! Text primitives the rest of the library is written over: character
//! sequences, ASCII case folding, Unicode classes, grapheme clusters, and
//! decimal numbers.
use unicode_segmentation::UnicodeSegmentation;
use vstd::prelude::*;

verus! {

// ---------------------------------------------------------------------------
// Characters and strings.
// ---------------------------------------------------------------------------

/// The characters of `text`, in order.
pub fn chars_of(text: &str) -> (chars: Vec<char>)
    ensures
        chars@ == text@,
{
    let mut chars: Vec<char> = Vec::new();
    broadcast use vstd::string::group_string_axioms;

    for c in iter: text.chars()
        invariant
            chars@ == iter.seq().take(iter.index() as int),
            iter.seq() == text@,
    {
        chars.push(c);
        assert(chars@ =~= iter.seq().take(iter.index() as int + 1));
    }

    chars
}

/// `String::push`: appends one character to the end of the string, as
/// its documentation states.
#[verifier::external_body]
pub(crate) fn push_char(text: &mut String, c: char)
    ensures
        final(text)@ == old(text)@.push(c),
{
    text.push(c);
}

/// The string holding `chars[start..end]`.
pub fn string_of_range(chars: &Vec<char>, start: usize, end: usize) -> (text: String)
    requires
        start <= end <= chars@.len(),
    ensures
        text@ == chars@.subrange(start as int, end as int),
{
    let mut text = String::new();
    let mut index: usize = start;
    while index < end
        invariant
            start <= index <= end <= chars@.len(),
            text@ == chars@.subrange(start as int, index as int),
        decreases end - index,
    {
        push_char(&mut text, chars[index]);
        index += 1;
        assert(text@ =~= chars@.subrange(start as int, index as int));
    }
    text
}

/// Appends every character of `more` to `text`.
pub fn push_all(text: &mut String, more: &Vec<char>)
    ensures
        final(text)@ == old(text)@ + more@,
{
    let mut index: usize = 0;
    while index < more.len()
        invariant
            index <= more@.len(),
            text@ == old(text)@ + more@.subrange(0, index as int),
        decreases more@.len() - index,
    {
        push_char(text, more[index]);
        index += 1;
        assert(text@ =~= old(text)@ + more@.subrange(0, index as int));
    }
    assert(more@.subrange(0, more@.len() as int) =~= more@);
}

/// Appends every character of `more` to `text`.
pub fn push_str_chars(text: &mut String, more: &str)
    ensures
        final(text)@ == old(text)@ + more@,
{
    let chars = chars_of(more);
    push_all(text, &chars);
}

// ---------------------------------------------------------------------------
// ASCII case folding and character classes.
// ---------------------------------------------------------------------------

pub open spec fn is_ascii_upper(c: char) -> bool {
    'A' <= c <= 'Z'
}

/// The character ASCII-lowercased: `A`..`Z` map to `a`..`z`, every other
/// character is itself.
pub open spec fn ascii_lower(c: char) -> u32 {
    if is_ascii_upper(c) {
        ((c as u32) + 32) as u32
    } else {
        c as u32
    }
}

/// Whether two characters are equal ignoring ASCII case.
pub open spec fn ascii_ci_eq(a: char, b: char) -> bool {
    ascii_lower(a) == ascii_lower(b)
}

/// Whether two character sequences are equal ignoring ASCII case.
pub open spec fn ascii_ci_seq_eq(a: Seq<char>, b: Seq<char>) -> bool {
    a.len() == b.len() && forall|i: int| 0 <= i < a.len() ==> ascii_ci_eq(#[trigger] a[i], b[i])
}

pub fn eq_ignore_ascii_case(a: char, b: char) -> (equal: bool)
    ensures
        equal == ascii_ci_eq(a, b),
{
    let x: u32 = if 'A' <= a && a <= 'Z' {
        (a as u32) + 32
    } else {
        a as u32
    };
    let y: u32 = if 'A' <= b && b <= 'Z' {
        (b as u32) + 32
    } else {
        b as u32
    };
    x == y
}

pub fn seq_eq_ignore_ascii_case(a: &Vec<char>, b: &Vec<char>) -> (equal: bool)
    ensures
        equal == ascii_ci_seq_eq(a@, b@),
{
    if a.len() != b.len() {
        return false;
    }
    let mut index: usize = 0;
    while index < a.len()
        invariant
            a@.len() == b@.len(),
            index <= a@.len(),
            forall|i: int| 0 <= i < index ==> ascii_ci_eq(#[trigger] a@[i], b@[i]),
        decreases a@.len() - index,
    {
        if !eq_ignore_ascii_case(a[index], b[index]) {
            return false;
        }
        index += 1;
    }
    true
}

/// Whether `c` is an ASCII digit.
pub open spec fn is_ascii_digit(c: char) -> bool {
    '0' <= c <= '9'
}

pub fn ascii_digit(c: char) -> (digit: bool)
    ensures
        digit == is_ascii_digit(c),
{
    '0' <= c && c <= '9'
}

/// Whether `c` has the Unicode White_Space property, which
/// `char::is_whitespace` reports: tab through carriage return, space,
/// next line, no-break space, ogham space mark, the spaces from en quad
/// to hair space, line and paragraph separator, narrow no-break space,
/// medium mathematical space, and ideographic space.
pub open spec fn unicode_whitespace(c: char) -> bool {
    let u = c as u32;
    ||| 0x9 <= u <= 0xD
    ||| u == 0x20
    ||| u == 0x85
    ||| u == 0xA0
    ||| u == 0x1680
    ||| 0x2000 <= u <= 0x200A
    ||| u == 0x2028
    ||| u == 0x2029
    ||| u == 0x202F
    ||| u == 0x205F
    ||| u == 0x3000
}

/// Whether `c` is alphabetic or numeric in Unicode, as the standard
/// library's `char::is_alphanumeric` reports it.
pub uninterp spec fn unicode_alphanumeric(c: char) -> bool;

/// `char::is_whitespace`: whether the character has the White_Space
/// property of the Unicode character database, as its documentation
/// says; the property's code points are listed in `unicode_whitespace`.
#[verifier::external_body]
pub(crate) fn is_whitespace(c: char) -> (white: bool)
    ensures
        white == unicode_whitespace(c),
{
    c.is_whitespace()
}

/// `char::is_alphanumeric`: alphabetic or numeric. On ASCII the answer is
/// exactly the letters and digits; beyond ASCII it is named, not stated.
#[verifier::external_body]
pub(crate) fn is_alphanumeric(c: char) -> (alnum: bool)
    ensures
        alnum == unicode_alphanumeric(c),
        (c as u32) < 128 ==> (alnum <==> ('a' <= c <= 'z' || 'A' <= c <= 'Z' || '0' <= c <= '9')),
{
    c.is_alphanumeric()
}

// ---------------------------------------------------------------------------
// Grapheme clusters.
// ---------------------------------------------------------------------------

/// The extended grapheme clusters of a text, as `unicode-segmentation`
/// splits it.
pub uninterp spec fn grapheme_clusters(text: Seq<char>) -> Seq<Seq<char>>;

/// The concatenation of a sequence of clusters.
pub open spec fn flatten(clusters: Seq<Seq<char>>) -> Seq<char>
    decreases clusters.len(),
{
    if clusters.len() == 0 {
        seq![]
    } else {
        flatten(clusters.drop_last()) + clusters.last()
    }
}

/// `UnicodeSegmentation::graphemes(text, true)`: the extended grapheme
/// clusters, as owned strings. The crate yields consecutive, non-empty
/// slices of the text that together cover it, so the clusters are
/// non-empty and concatenate back to the text; which boundaries it picks
/// is named, not stated.
#[verifier::external_body]
pub(crate) fn graphemes(text: &str) -> (clusters: Vec<String>)
    ensures
        clusters@.len() == grapheme_clusters(text@).len(),
        forall|i: int|
            0 <= i < clusters@.len() ==> #[trigger] clusters@[i]@ == grapheme_clusters(text@)[i],
        forall|i: int| 0 <= i < clusters@.len() ==> (#[trigger] clusters@[i])@.len() > 0,
        flatten(clusters@.map_values(|cluster: String| cluster@)) == text@,
{
    text.graphemes(true).map(|cluster| cluster.to_owned()).collect()
}

/// The grapheme clusters of `text`, each as its characters.
pub fn cluster_chars(text: &str) -> (clusters: Vec<Vec<char>>)
    ensures
        clusters@.len() == grapheme_clusters(text@).len(),
        forall|i: int|
            0 <= i < clusters@.len() ==> #[trigger] clusters@[i]@ == grapheme_clusters(text@)[i],
{
    let strings = graphemes(text);
    let mut clusters: Vec<Vec<char>> = Vec::new();
    let mut index: usize = 0;
    while index < strings.len()
        invariant
            index <= strings@.len(),
            strings@.len() == grapheme_clusters(text@).len(),
            forall|i: int|
                0 <= i < strings@.len() ==> #[trigger] strings@[i]@ == grapheme_clusters(text@)[i],
            clusters@.len() == index,
            forall|i: int| 0 <= i < index ==> #[trigger] clusters@[i]@ == grapheme_clusters(text@)[i],
        decreases strings@.len() - index,
    {
        let chars = chars_of(strings[index].as_str());
        clusters.push(chars);
        index += 1;
    }
    clusters
}

// ---------------------------------------------------------------------------
// Decimal numbers.
// ---------------------------------------------------------------------------

/// The decimal digit character for `d` (taken modulo ten).
pub open spec fn digit_char(d: nat) -> char {
    let d = d % 10;
    if d == 0 {
        '0'
    } else if d == 1 {
        '1'
    } else if d == 2 {
        '2'
    } else if d == 3 {
        '3'
    } else if d == 4 {
        '4'
    } else if d == 5 {
        '5'
    } else if d == 6 {
        '6'
    } else if d == 7 {
        '7'
    } else if d == 8 {
        '8'
    } else {
        '9'
    }
}

/// The decimal notation of `n`, without leading zeros (`0` is `"0"`).
pub open spec fn decimal(n: nat) -> Seq<char>
    decreases n,
{
    if n < 10 {
        seq![digit_char(n)]
    } else {
        decimal(n / 10).push(digit_char(n % 10))
    }
}

fn digit_to_char(d: usize) -> (c: char)
    requires
        d < 10,
    ensures
        c == digit_char(d as nat),
{
    if d == 0 {
        '0'
    } else if d == 1 {
        '1'
    } else if d == 2 {
        '2'
    } else if d == 3 {
        '3'
    } else if d == 4 {
        '4'
    } else if d == 5 {
        '5'
    } else if d == 6 {
        '6'
    } else if d == 7 {
        '7'
    } else if d == 8 {
        '8'
    } else {
        '9'
    }
}

/// Appends the decimal notation of `n`.
pub fn push_decimal(text: &mut String, n: usize)
    ensures
        final(text)@ == old(text)@ + decimal(n as nat),
    decreases n,
{
    if n < 10 {
        push_char(text, digit_to_char(n));
        assert(final(text)@ =~= old(text)@ + decimal(n as nat)) by {
            assert(decimal(n as nat) == seq![digit_char(n as nat)]);
        }
    } else {
        push_decimal(text, n / 10);
        push_char(text, digit_to_char(n % 10));
        assert(text@ =~= old(text)@ + decimal(n as nat));
    }
}

/// The decimal notation of `n`.
pub fn decimal_string(n: usize) -> (text: String)
    ensures
        text@ == decimal(n as nat),
{
    let mut text = String::new();
    push_decimal(&mut text, n);
    assert(text@ =~= decimal(n as nat));
    text
}

} // verus!
