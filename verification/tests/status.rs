use agmawrite::shell::{
    EDITOR_AREA_PORTION, MAIN_AREA_PORTION, SIDE_MARGIN_PORTION, TOOLBAR_PORTION,
    TOP_MARGIN_PORTION,
};
use agmawrite::status::{progress, yank_report, yank_wording};

#[test]
fn ruler_matches_lualine_progress_conventions() {
    assert_eq!(progress(1, 1), "Top");
    assert_eq!(progress(1, 10), "Top");
    assert_eq!(progress(5, 10), "50%");
    assert_eq!(progress(10, 10), "Bot");
}

#[test]
fn progress_rounds_down_and_saturates_at_the_bottom() {
    assert_eq!(progress(2, 3), "66%");
    assert_eq!(progress(12, 10), "Bot");
    assert_eq!(progress(0, 5), "0%");
    assert_eq!(progress(0, 0), "Bot");
}

#[test]
fn yank_report_counts_graphemes_with_vims_singular() {
    // `v` + `l` + `l` + `y` over two astral characters.
    assert_eq!(yank_report("👩‍💻"), "1 character yanked");
    assert_eq!(yank_report("ab👩‍💻"), "3 characters yanked");
    assert_eq!(yank_report(""), "0 characters yanked");
}

#[test]
fn yank_wording_is_plural_but_for_one() {
    assert_eq!(yank_wording(1), "1 character yanked");
    assert_eq!(yank_wording(2), "2 characters yanked");
    assert_eq!(yank_wording(120), "120 characters yanked");
    assert_eq!(yank_report("e\u{301}"), "1 character yanked");
}

#[test]
fn geometry_preserves_editor_margins_and_area_sizing() {
    assert_eq!(SIDE_MARGIN_PORTION * 2 + MAIN_AREA_PORTION, 100);
    assert_eq!(
        TOP_MARGIN_PORTION + EDITOR_AREA_PORTION + TOOLBAR_PORTION,
        10
    );
}
