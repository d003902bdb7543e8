//! The root shell's geometry: how the window splits between the margins,
//! the editor, the toolbar, and the comments sidebar, in fill portions.
use vstd::prelude::*;

verus! {

/// The top margin's share of the main column's height.
pub const TOP_MARGIN_PORTION: u16 = 1;

/// The editor's share of the main column's height.
pub const EDITOR_AREA_PORTION: u16 = 8;

/// The toolbar's share of the main column's height.
pub const TOOLBAR_PORTION: u16 = 1;

/// Each side margin's share of the editor row's width.
pub const SIDE_MARGIN_PORTION: u16 = 5;

/// The main area's share of the editor row's width.
pub const MAIN_AREA_PORTION: u16 = 90;

/// The editor keeps symmetric side margins that, with the main area,
/// split the row in hundredths; vertically, the top margin, the editor,
/// and the toolbar split the column in tenths.
pub proof fn law_geometry_splits_evenly()
    ensures
        SIDE_MARGIN_PORTION * 2 + MAIN_AREA_PORTION == 100,
        TOP_MARGIN_PORTION + EDITOR_AREA_PORTION + TOOLBAR_PORTION == 10,
{
}

} // verus!
