//! How the window is divided between the side panel and the viewports.

use vstd::prelude::*;

verus! {

/// Width of the side panel, in pixels.
pub const SIDEBAR_WIDTH: u32 = 320;

/// Space left around and between viewports, in pixels.
pub const VIEWS_SPACING: u32 = 10;

/// What the central area shows: the four viewports in a grid of two by two,
/// or one of them alone.
#[derive(Clone, Copy, Debug, PartialEq, Eq)]
pub enum Visualization {
    All,
    Front,
    Side,
    Top,
    Perspective,
}

/// One of the four projections of the scene.
#[derive(Clone, Copy, Debug, PartialEq, Eq)]
pub enum Viewport {
    Front,
    Side,
    Top,
    Perspective,
}

/// The viewport is on screen under the visualization.
pub open spec fn is_shown(visualization: Visualization, viewport: Viewport) -> bool {
    match visualization {
        Visualization::All => true,
        Visualization::Front => viewport is Front,
        Visualization::Side => viewport is Side,
        Visualization::Top => viewport is Top,
        Visualization::Perspective => viewport is Perspective,
    }
}

/// Decides [`is_shown`].
pub fn shows(visualization: Visualization, viewport: Viewport) -> (shown: bool)
    ensures
        shown == is_shown(visualization, viewport),
{
    match visualization {
        Visualization::All => true,
        Visualization::Front => matches!(viewport, Viewport::Front),
        Visualization::Side => matches!(viewport, Viewport::Side),
        Visualization::Top => matches!(viewport, Viewport::Top),
        Visualization::Perspective => matches!(viewport, Viewport::Perspective),
    }
}

/// Pixels of the window's width that no viewport can use: the side panel and
/// the spacing, which is three gaps around two columns or two gaps around
/// one.
pub open spec fn reserved_width(visualization: Visualization) -> int {
    if visualization is All {
        3 * VIEWS_SPACING + SIDEBAR_WIDTH
    } else {
        2 * VIEWS_SPACING + SIDEBAR_WIDTH
    }
}

/// Pixels of the window's height that no viewport can use: three gaps around
/// two rows or two gaps around one.
pub open spec fn reserved_height(visualization: Visualization) -> int {
    if visualization is All {
        3 * VIEWS_SPACING
    } else {
        2 * VIEWS_SPACING
    }
}

/// The window is large enough to hold the side panel and the spacing.
pub open spec fn window_fits(visualization: Visualization, width: u32, height: u32) -> bool {
    width >= reserved_width(visualization) && height >= reserved_height(visualization)
}

/// Decides [`window_fits`].
pub fn fits(visualization: Visualization, width: u32, height: u32) -> (enough: bool)
    ensures
        enough == window_fits(visualization, width, height),
{
    match visualization {
        Visualization::All => width >= 3 * VIEWS_SPACING + SIDEBAR_WIDTH && height >= 3
            * VIEWS_SPACING,
        _ => width >= 2 * VIEWS_SPACING + SIDEBAR_WIDTH && height >= 2 * VIEWS_SPACING,
    }
}

/// The size in pixels of every viewport on screen, for a window of the given
/// size: what the side panel and the spacing leave, halved in each direction
/// when the four viewports share it.
pub fn view_size(visualization: Visualization, width: u32, height: u32) -> (size: (u32, u32))
    requires
        window_fits(visualization, width, height),
    ensures
        visualization is All ==> size.0 == (width - reserved_width(visualization)) / 2 && size.1
            == (height - reserved_height(visualization)) / 2,
        !(visualization is All) ==> size.0 == width - reserved_width(visualization) && size.1
            == height - reserved_height(visualization),
{
    match visualization {
        Visualization::All => (
            (width - (3 * VIEWS_SPACING + SIDEBAR_WIDTH)) / 2,
            (height - (3 * VIEWS_SPACING)) / 2,
        ),
        _ => (width - (2 * VIEWS_SPACING + SIDEBAR_WIDTH), height - (2 * VIEWS_SPACING)),
    }
}

} // verus!
