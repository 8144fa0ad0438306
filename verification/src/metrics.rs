//! The one metrics module.
//!
//! Every measurement the application arranges for itself lives here, in logical
//! pixels at the default text scale. Toolkit padding, radii, focus rings and
//! control minimums are the toolkit's and are never overridden.

use vstd::prelude::*;
use crate::text::{decimal, decimal_string, owned, push_str};

verus! {

/// The spacing scale. Nothing in the interface uses a gap outside it.
pub const SPACE_TIGHT: i32 = 6;
/// A heading and the content under it.
pub const SPACE_HEADING: i32 = 12;
/// The outer gutter while navigation is collapsed.
pub const SPACE_GUTTER_COLLAPSED: i32 = 18;
/// The outer gutter with the sidebar shown, and the gap between groups.
pub const SPACE_GUTTER: i32 = 24;
/// The leading artwork slot.
pub const SPACE_ARTWORK: i32 = 36;
/// The widest step of the scale.
pub const SPACE_WIDE: i32 = 48;

/// The sidebar's width.
pub const SIDEBAR_WIDTH: i32 = 216;
/// The detail column's readable budget. In single-column mode this is a
/// readability target, never a hard width.
pub const DETAIL_BUDGET: i32 = 420;

/// The content clamp every surface but Logs sits inside.
pub const CLAMP_MAXIMUM: i32 = 660;
/// Where the clamp starts tightening its margins.
pub const CLAMP_TIGHTENING: i32 = 480;

/// A control row's minimum height, or the toolkit's larger natural minimum.
pub const ROW_MINIMUM_HEIGHT: i32 = 48;

/// The shared leading artwork slot every list that draws a mark aligns on.
pub const ARTWORK_SLOT: i32 = SPACE_ARTWORK;

/// The prefix glyph a checklist row draws at, which the spinner that replaces
/// it while a step runs matches, so a row never changes height when its work
/// starts.
pub const PREFIX_GLYPH: i32 = 16;

/// One progress dot in the Setup assistant's header.
pub const PROGRESS_DOT: i32 = 8;

/// Vertical padding on a row the application arranges itself.
pub const ARRANGED_ROW_PADDING: i32 = SPACE_HEADING;

/// The window's default width.
pub const WINDOW_DEFAULT_WIDTH: i32 = 880;
/// The window's default height.
pub const WINDOW_DEFAULT_HEIGHT: i32 = 560;
/// The window's minimum width.
pub const WINDOW_MINIMUM_WIDTH: i32 = 460;
/// The window's minimum height.
pub const WINDOW_MINIMUM_HEIGHT: i32 = 440;

/// The two-column width budget: sidebar, readable detail and two outer
/// gutters. Below it the split view collapses.
pub const TWO_COLUMN_BUDGET: i32 = SIDEBAR_WIDTH + DETAIL_BUDGET + 2 * SPACE_GUTTER;

/// The breakpoint condition, in text-scaled units so a larger text size
/// collapses navigation sooner.
pub open spec fn collapse_text() -> Seq<char> {
    "max-width: "@ + decimal(TWO_COLUMN_BUDGET as nat) + "sp"@
}

/// The breakpoint condition the window declares, in text-scaled units.
pub fn collapse_condition() -> (r: String)
    ensures
        r@ == collapse_text(),
{
    let mut s = owned("max-width: ");
    let n: u64 = TWO_COLUMN_BUDGET as u64;
    let digits = decimal_string(n);
    push_str(&mut s, digits.as_str());
    push_str(&mut s, "sp");
    s
}

/// The two-column budget is its parts, and the window's minimum fits inside
/// its default in both directions.
pub proof fn the_window_measures_agree()
    ensures
        TWO_COLUMN_BUDGET == SIDEBAR_WIDTH + DETAIL_BUDGET + 2 * SPACE_GUTTER,
        TWO_COLUMN_BUDGET == 684,
        WINDOW_MINIMUM_WIDTH < WINDOW_DEFAULT_WIDTH,
        WINDOW_MINIMUM_HEIGHT < WINDOW_DEFAULT_HEIGHT,
        TWO_COLUMN_BUDGET < WINDOW_DEFAULT_WIDTH,
{
}

} // verus!
