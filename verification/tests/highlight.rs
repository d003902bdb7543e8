use agmawrite::highlight::{
    closing_fence, fence_after, heading_span, line_highlights, marker_ranges, Fence, Highlight,
    MarkdownMarkers, Settings,
};

fn chars(text: &str) -> Vec<char> {
    text.chars().collect()
}

fn settings(query: &str) -> Settings {
    Settings {
        query: query.to_owned(),
    }
}

/// The character ranges of `line` that dim, as slices for readability.
fn dimmed(line: &str) -> Vec<String> {
    let text = chars(line);
    marker_ranges(&text)
        .into_iter()
        .map(|(start, end)| text[start..end].iter().collect())
        .collect()
}

/// The highlights of `line` outside any fence, as slices paired with
/// kinds.
fn highlights(line: &str, query: &str) -> Vec<(String, Highlight)> {
    let text = chars(line);
    line_highlights(&text, &chars(query), None)
        .into_iter()
        .map(|(start, end, kind)| (text[start..end].iter().collect(), kind))
        .collect()
}

/// Heading spans give their level and the range of the text: after the
/// hashes and their separating spaces, before trailing whitespace. Quoted
/// headings start past their bars.
#[test]
fn heading_spans_find_their_level_and_text() {
    assert_eq!(heading_span(&chars("# Title")), Some((1, (2, 7))));
    assert_eq!(heading_span(&chars("###### Deep")), Some((6, (7, 11))));
    assert_eq!(heading_span(&chars("  ## Indented")), Some((2, (5, 13))));
    assert_eq!(heading_span(&chars("> ### Quoted")), Some((3, (6, 12))));
    assert_eq!(heading_span(&chars("# Title  ")), Some((1, (2, 7))));

    // Not headings: no space after the hashes, too many of them, or a
    // different block prefix in the way.
    assert_eq!(heading_span(&chars("#")), None);
    assert_eq!(heading_span(&chars("# ")), None);
    assert_eq!(heading_span(&chars("#\ttitle")), None);
    assert_eq!(heading_span(&chars("#tag")), None);
    assert_eq!(heading_span(&chars("####### Too deep")), None);
    assert_eq!(heading_span(&chars("plain text")), None);
    assert_eq!(heading_span(&chars("- # not nested")), None);
}

/// A fenced code block opens with a backtick or tilde run and closes with
/// a same-character run at least as long; other lines leave the state
/// untouched.
#[test]
fn fences_open_close_and_ignore_strangers() {
    let backtick = Fence {
        marker: '`',
        len: 3,
    };

    assert_eq!(
        fence_after(&chars("```rust"), None),
        Some(backtick),
        "an opening fence remembers its character and length"
    );
    assert_eq!(
        fence_after(&chars("code *inside*"), Some(backtick)),
        Some(backtick),
        "content lines keep the fence open"
    );
    assert_eq!(
        fence_after(&chars("```"), Some(backtick)),
        None,
        "an equal run closes the fence"
    );
    assert_eq!(
        fence_after(&chars("````"), Some(backtick)),
        None,
        "a longer run closes the fence too"
    );
    assert_eq!(
        fence_after(&chars("``"), Some(backtick)),
        Some(backtick),
        "a shorter run does not"
    );
    assert_eq!(
        fence_after(&chars("~~~"), Some(backtick)),
        Some(backtick),
        "a tilde run does not close a backtick fence"
    );

    let tilde = Fence {
        marker: '~',
        len: 4,
    };
    assert_eq!(fence_after(&chars("~~~~ md"), None), Some(tilde));
    assert_eq!(fence_after(&chars("plain text"), Some(tilde)), Some(tilde));
}

#[test]
fn dims_heading_hashes() {
    assert_eq!(dimmed("# Title"), ["#"]);
    assert_eq!(dimmed("###### Deep"), ["######"]);
    assert_eq!(dimmed("  ## Indented"), ["##"]);
    // Not headings: no space, or too many hashes.
    assert_eq!(dimmed("#tag").len(), 0);
    assert_eq!(dimmed("####### Too deep").len(), 0);
}

#[test]
fn dims_list_markers_and_checkboxes() {
    assert_eq!(dimmed("- item"), ["-"]);
    assert_eq!(dimmed("* item"), ["*"]);
    assert_eq!(dimmed("+ item"), ["+"]);
    assert_eq!(dimmed("  - nested"), ["-"]);
    assert_eq!(dimmed("- [ ] todo"), ["-", "[ ]"]);
    assert_eq!(dimmed("- [x] done"), ["-", "[x]"]);
    assert_eq!(dimmed("1. first"), ["1."]);
    assert_eq!(dimmed("12) twelfth"), ["12)"]);
    // Not list items: no trailing space.
    assert_eq!(dimmed("-tight").len(), 0);
    assert_eq!(dimmed("1.versioned").len(), 0);
}

#[test]
fn dims_blockquote_bars() {
    assert_eq!(dimmed("> quote"), [">"]);
    assert_eq!(dimmed("> > nested"), [">", ">"]);
    assert_eq!(dimmed(">> nested"), [">", ">"]);
    // A list item inside a quote dims both markers.
    assert_eq!(dimmed("> - item"), [">", "-"]);
    assert_eq!(dimmed("> ## Quoted heading"), [">", "##"]);
}

#[test]
fn dims_fences_and_breaks() {
    assert_eq!(dimmed("```rust"), ["```"]);
    assert_eq!(dimmed("~~~~"), ["~~~~"]);
    assert_eq!(dimmed("`` not a fence").len(), 0);

    assert_eq!(dimmed("---"), ["---"]);
    assert_eq!(dimmed("* * *"), ["* * *"]);
    assert_eq!(dimmed("___"), ["___"]);
    assert_eq!(dimmed("--").len(), 0);
    // A break-like line of mixed chars is not a break.
    assert_eq!(dimmed("-*-").len(), 0);
}

#[test]
fn dims_emphasis_delimiters() {
    assert_eq!(dimmed("*emphasis*"), ["*", "*"]);
    assert_eq!(dimmed("**strong**"), ["**", "**"]);
    assert_eq!(dimmed("***all***"), ["***", "***"]);
    assert_eq!(dimmed("_under_"), ["_", "_"]);
    assert_eq!(dimmed("__dunder__"), ["__", "__"]);
    assert_eq!(dimmed("mix *mid* word"), ["*", "*"]);
    assert_eq!(dimmed("a*b*c intraword"), ["*", "*"]);
    assert_eq!(dimmed("**bold** and *em*"), ["**", "**", "*", "*"]);

    // Intraword underscores are identifiers, not emphasis.
    assert_eq!(dimmed("file_name_here").len(), 0);
    // Unpaired delimiters are not emphasis; "* dangling" is a list bullet
    // and belongs to the block markers instead.
    assert_eq!(dimmed("*italic").len(), 0);
    assert_eq!(dimmed("x * spaced *").len(), 0);
    // Escaped delimiters are literal characters.
    assert_eq!(dimmed("\\*literal\\*").len(), 0);
}

#[test]
fn dims_strikethrough_tildes() {
    assert_eq!(dimmed("~~gone~~"), ["~~", "~~"]);
    assert_eq!(dimmed("a ~~b~~ c"), ["~~", "~~"]);
    // A single tilde is not a strikethrough.
    assert_eq!(dimmed("~single~").len(), 0);
}

#[test]
fn dims_code_span_backticks() {
    assert_eq!(dimmed("`code`"), ["`", "`"]);
    assert_eq!(dimmed("say `hi` twice"), ["`", "`"]);
    assert_eq!(dimmed("``two`` and `one`"), ["``", "``", "`", "`"]);
    // Unclosed backticks pair with nothing.
    assert_eq!(dimmed("unclosed `tick").len(), 0);
    // The code between the delimiters stays prose-colored.
    let ranges = marker_ranges(&chars("`*not emphasis*`"));
    assert_eq!(ranges.len(), 2);
}

#[test]
fn dims_link_punctuation() {
    assert_eq!(dimmed("[label](https://agma.dev)"), ["[", "](", ")"]);
    assert_eq!(dimmed("![image](photo.png)"), ["![", "](", ")"]);
    assert_eq!(dimmed("see [ref][1] here"), ["[", "][", "]"]);
    assert_eq!(dimmed("[**bold**](url)"), ["[", "**", "**", "](", ")"]);

    // Brackets without an address are not links.
    assert_eq!(dimmed("see [1] in the text").len(), 0);
    assert_eq!(dimmed("[unclosed").len(), 0);
    // Escaped brackets are literal.
    assert_eq!(dimmed("\\[not a link\\]").len(), 0);
}

#[test]
fn plain_text_dims_nothing() {
    assert_eq!(dimmed("just text").len(), 0);
    assert_eq!(dimmed("").len(), 0);
    assert_eq!(dimmed("   ").len(), 0);
    assert_eq!(dimmed("text with # hash inside").len(), 0);
    assert_eq!(dimmed("2 * 3 * 4 = x").len(), 0);
}

/// A heading's text carries its level, while the hashes keep their dimmed
/// marker.
#[test]
fn heading_text_carries_its_level() {
    assert_eq!(
        highlights("# Title", ""),
        vec![
            ("#".to_owned(), Highlight::Marker),
            ("Title".to_owned(), Highlight::Heading(1))
        ]
    );
    assert_eq!(
        highlights("  ## Indented  ", ""),
        vec![
            ("##".to_owned(), Highlight::Marker),
            ("Indented".to_owned(), Highlight::Heading(2)),
        ]
    );
    assert_eq!(
        highlights("> ## Quoted heading", ""),
        vec![
            (">".to_owned(), Highlight::Marker),
            ("##".to_owned(), Highlight::Marker),
            ("Quoted heading".to_owned(), Highlight::Heading(2)),
        ]
    );
    assert_eq!(highlights("#tag", ""), vec![]);
    assert_eq!(highlights("####### Too deep", ""), vec![]);
    assert_eq!(highlights("# ", ""), vec![("#".to_owned(), Highlight::Marker)]);
}

/// Punctuation inside a heading belongs to its text: the heading reads as
/// one unit.
#[test]
fn heading_text_swallows_its_inline_markers() {
    assert_eq!(
        highlights("# a *b* `c` d", ""),
        vec![
            ("#".to_owned(), Highlight::Marker),
            ("a *b* `c` d".to_owned(), Highlight::Heading(1)),
        ]
    );
}

/// A find match inside heading text wins the stretch it shares; the
/// leftover text keeps its level.
#[test]
fn find_matches_win_over_heading_tints() {
    assert_eq!(
        highlights("# Title", "Ti"),
        vec![
            ("#".to_owned(), Highlight::Marker),
            ("Ti".to_owned(), Highlight::FindMatch),
            ("tle".to_owned(), Highlight::Heading(1)),
        ]
    );
}

/// Find matches tint their range, and a match overlapping a marker wins
/// the stretch they share; the leftover markers stay dimmed. Everything
/// comes out sorted by position.
#[test]
fn find_matches_tint_and_win_over_markers() {
    assert_eq!(
        highlights("plain text", "text"),
        vec![("text".to_owned(), Highlight::FindMatch)]
    );
    assert_eq!(
        highlights("# heading", "#"),
        vec![
            ("#".to_owned(), Highlight::FindMatch),
            ("heading".to_owned(), Highlight::Heading(1)),
        ]
    );
    assert_eq!(
        highlights("- item", "item"),
        vec![
            ("-".to_owned(), Highlight::Marker),
            ("item".to_owned(), Highlight::FindMatch),
        ]
    );
    assert_eq!(
        highlights("- [x] done", "x"),
        vec![
            ("-".to_owned(), Highlight::Marker),
            ("[".to_owned(), Highlight::Marker),
            ("x".to_owned(), Highlight::FindMatch),
            ("]".to_owned(), Highlight::Marker),
        ]
    );
    assert_eq!(
        highlights("- item", ""),
        vec![("-".to_owned(), Highlight::Marker)]
    );
}

/// Inside a fence only the closing marker and find matches highlight:
/// code is content, so its asterisks and brackets stay prose-colored.
#[test]
fn fenced_lines_dim_only_their_closing_marker() {
    let fence = Fence {
        marker: '`',
        len: 3,
    };

    let inside = |line: &str, query: &str| {
        let text = chars(line);
        line_highlights(&text, &chars(query), Some(fence))
            .into_iter()
            .map(|(start, end, kind)| (text[start..end].iter().collect::<String>(), kind))
            .collect::<Vec<_>>()
    };

    assert_eq!(inside("* not emphasis", ""), vec![], "code content never dims");
    assert_eq!(
        inside("# not a heading", ""),
        vec![],
        "block prefixes do not apply inside code"
    );
    assert_eq!(inside("```", ""), vec![("```".to_owned(), Highlight::Marker)]);

    // Find matches still tint inside fences.
    assert_eq!(
        inside("let value = x;", "value"),
        vec![("value".to_owned(), Highlight::FindMatch)]
    );

    // A tilde run never closes a backtick fence.
    assert_eq!(inside("~~~", ""), vec![]);

    assert_eq!(
        line_highlights(&chars("```rust"), &chars(""), None),
        vec![(0, 3, Highlight::Marker)]
    );
    assert_eq!(
        closing_fence(&chars("not a fence"), fence),
        None,
        "ordinary lines do not close"
    );
}

/// Inside a code fence there are no headings: the line is code, so
/// nothing tints.
#[test]
fn fenced_headings_stay_prose() {
    let mut highlighter = MarkdownMarkers::new(&settings(""));

    let opening = highlighter.highlight_line("```");
    assert_eq!(opening, vec![(0, 3, Highlight::Marker)]);

    let inside = highlighter.highlight_line("# not a heading");
    assert!(inside.is_empty());
}

/// The highlighter follows the editor's feeding protocol: lines arrive in
/// order, `current_line` reports the next one expected, `change_line`
/// rewinds to an edit, and settings changes restart the scan from the
/// top.
#[test]
fn tracks_the_line_the_editor_will_feed_next() {
    let settings = settings("");
    let mut highlighter = MarkdownMarkers::new(&settings);
    assert_eq!(highlighter.current_line(), 0);

    highlighter.highlight_line("# heading");
    highlighter.highlight_line("plain");
    assert_eq!(highlighter.current_line(), 2);

    highlighter.change_line(1);
    assert_eq!(highlighter.current_line(), 1);
    highlighter.highlight_line("edited");
    assert_eq!(highlighter.current_line(), 2);

    // An edit beyond the fed lines must not skip unknown fence context.
    highlighter.change_line(9);
    assert_eq!(highlighter.current_line(), 2);
    highlighter.highlight_line("first unvisited line");
    assert_eq!(highlighter.current_line(), 3);

    highlighter.update(&settings);
    assert_eq!(highlighter.current_line(), 0);
}

/// Feeding a document in order dims fence markers and leaves the code
/// between them alone; a rewind into the block restores the same
/// highlights.
#[test]
fn tracks_fences_across_fed_lines() {
    let settings = settings("");
    let mut highlighter = MarkdownMarkers::new(&settings);

    let opening = highlighter.highlight_line("```rust");
    assert_eq!(opening, vec![(0, 3, Highlight::Marker)]);

    let content = highlighter.highlight_line("let x = a * b;");
    assert!(content.is_empty(), "code content stays prose-colored");

    let closing = highlighter.highlight_line("```");
    assert_eq!(closing, vec![(0, 3, Highlight::Marker)]);

    let after = highlighter.highlight_line("*emphasis* again");
    assert_eq!(
        after,
        vec![(0, 1, Highlight::Marker), (9, 10, Highlight::Marker)]
    );

    // Rewinding into the block replays the same fence state.
    highlighter.change_line(1);
    let replay = highlighter.highlight_line("let y = c * d;");
    assert!(replay.is_empty());
}

/// Highlights come out in bytes: a heading after a multi-byte character
/// starts at its byte offset.
#[test]
fn highlight_ranges_are_byte_ranges() {
    let mut highlighter = MarkdownMarkers::new(&settings("é"));
    let found = highlighter.highlight_line("> é *x*");
    assert_eq!(
        found,
        vec![
            (0, 1, Highlight::Marker),
            (2, 4, Highlight::FindMatch),
            (5, 6, Highlight::Marker),
            (7, 8, Highlight::Marker),
        ]
    );
}

/// Blank lines outside code blocks are paragraph gaps; inside a fence
/// they are code.
#[test]
fn blank_lines_are_gaps_only_outside_fences() {
    let mut highlighter = MarkdownMarkers::new(&settings(""));
    assert!(highlighter.is_paragraph_gap(""));
    assert!(highlighter.is_paragraph_gap(" \t "));
    assert!(!highlighter.is_paragraph_gap("text"));

    highlighter.highlight_line("~~~");
    assert!(!highlighter.is_paragraph_gap(""));
    highlighter.highlight_line("~~~");
    assert!(highlighter.is_paragraph_gap(""));
}
