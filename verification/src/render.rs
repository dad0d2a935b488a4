//! The decisions the render loop makes each frame: which view replaces the
//! board, which entries are actually drawn, where each row sits, and how the
//! alert view lays its border and text out. The drawing itself is done by
//! the surrounding application on its canvas backend.

use vstd::prelude::*;
use crate::alerts::{AlertMode, AlertState};
use crate::entry::SimpleArrivalDisplayable;

verus! {

/// The text row height, in pixels.
pub const LINE_HEIGHT: i32 = 10;

/// The row pitch, in pixels.
pub const LINE_HEIGHT_WITH_PADDING: i32 = 12;

/// How many entries the board draws.
pub const MAX_LINES: usize = 4;

/// The panel's width in pixels.
pub const SCREEN_WIDTH: u32 = 128;

/// The panel's height in pixels.
pub const SCREEN_HEIGHT: u32 = 64;

/// Which view fills the frame.
#[derive(Clone, Copy, Debug, PartialEq, Eq, Structural)]
pub enum FrameView {
    Alert,
    Arrival,
}

/// The view drawn for a given alert phase: any phase but `Hidden` replaces
/// the arrival board with the alert view.
pub open spec fn spec_select_view(mode: AlertMode) -> FrameView {
    if mode == AlertMode::Hidden {
        FrameView::Arrival
    } else {
        FrameView::Alert
    }
}

/// Decide which view this frame draws.
pub fn select_view(mode: AlertMode) -> (r: FrameView)
    ensures
        r == spec_select_view(mode),
{
    if mode == AlertMode::Hidden {
        FrameView::Arrival
    } else {
        FrameView::Alert
    }
}

/// The entries the board actually draws: the first `MAX_LINES` of the
/// merged sequence; the rest are computed but not shown.
pub fn visible_entries(entries: &Vec<SimpleArrivalDisplayable>) -> (r: Vec<
    SimpleArrivalDisplayable,
>)
    ensures
        r.deep_view() == entries.deep_view().subrange(
            0,
            if entries@.len() < MAX_LINES {
                entries@.len() as int
            } else {
                MAX_LINES as int
            },
        ),
{
    let n: usize = if entries.len() < MAX_LINES {
        entries.len()
    } else {
        MAX_LINES
    };
    let mut r: Vec<SimpleArrivalDisplayable> = Vec::new();
    let mut i: usize = 0;
    while i < n
        invariant
            i <= n,
            n <= entries@.len(),
            r.deep_view() == entries.deep_view().subrange(0, i as int),
        decreases n - i,
    {
        let e = entries[i].clone();
        let ghost pre = r.deep_view();
        r.push(e);
        proof {
            assert(r.deep_view() =~= pre.push(entries.deep_view()[i as int]));
            assert(pre.push(entries.deep_view()[i as int]) =~= entries.deep_view().subrange(
                0,
                i + 1 as int,
            ));
        }
        i = i + 1;
    }
    r
}

/// The vertical text position of board row `index` (the header is row
/// zero's predecessor).
pub fn row_y(index: usize) -> (r: i32)
    requires
        index < MAX_LINES,
    ensures
        r == LINE_HEIGHT_WITH_PADDING * (index + 2),
{
    LINE_HEIGHT_WITH_PADDING * (index as i32 + 2)
}

/// Whether the alert border's blink pattern is in its first position: the
/// `A` phases light the even squares, the `B` phases the odd ones.
pub open spec fn spec_border_pattern_a(mode: AlertMode) -> bool {
    mode == AlertMode::IntroA || mode == AlertMode::MessageA
}

/// Which border blink pattern an alert phase shows.
pub fn border_pattern_a(mode: AlertMode) -> (r: bool)
    ensures
        r == spec_border_pattern_a(mode),
{
    mode == AlertMode::IntroA || mode == AlertMode::MessageA
}

/// How the alert view lays its text out.
#[derive(Clone, Copy, Debug, PartialEq, Eq, Structural)]
pub enum AlertTextLayout {
    /// The attention-drawing intro card.
    Intro,
    /// The alert text, scrolled up by the given pixel offset because it
    /// does not fit the bounds.
    Scrolled(i32),
    /// The alert text, centered, because it fits.
    Centered,
    /// No alert text at all.
    Nothing,
}

/// The text layout for an alert state, given the measured height of its
/// text and the height of the text bounds (both in pixels): the intro card
/// in the intro phases, scrolled text in the message phases when the text
/// overflows (two pixels per scroll position), centered text when it fits,
/// and nothing when hidden.
pub open spec fn spec_alert_text_layout(
    mode: AlertMode,
    scroll: int,
    text_height: u32,
    bounds_height: u32,
) -> AlertTextLayout {
    match mode {
        AlertMode::IntroA | AlertMode::IntroB => AlertTextLayout::Intro,
        AlertMode::MessageA | AlertMode::MessageB => if text_height > bounds_height {
            AlertTextLayout::Scrolled((-2 * scroll) as i32)
        } else {
            AlertTextLayout::Centered
        },
        AlertMode::Hidden => AlertTextLayout::Nothing,
    }
}

/// Decide the alert view's text layout for this frame.
pub fn alert_text_layout(state: &AlertState, text_height: u32, bounds_height: u32) -> (r:
    AlertTextLayout)
    requires
        state.scroll_index <= 1000000,
    ensures
        r == spec_alert_text_layout(state@.mode, state@.scroll, text_height, bounds_height),
{
    match state.mode {
        AlertMode::IntroA | AlertMode::IntroB => AlertTextLayout::Intro,
        AlertMode::MessageA | AlertMode::MessageB => {
            if text_height > bounds_height {
                let s: i32 = state.scroll_index as i32;
                let off: i32 = -(2 * s);
                AlertTextLayout::Scrolled(off)
            } else {
                AlertTextLayout::Centered
            }
        },
        AlertMode::Hidden => AlertTextLayout::Nothing,
    }
}

} // verus!
