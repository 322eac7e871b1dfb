use vstd::prelude::*;

verus! {

/// Position and content size of the panel, in logical (DPI-independent)
/// screen units.  `x` and `y` locate the window's top-left corner relative to
/// the screen origin; `width` and `height` size its content area.
#[derive(Clone, Copy, PartialEq, Eq, Structural, Debug)]
pub struct Geometry {
    pub x: i64,
    pub y: i64,
    pub width: u64,
    pub height: u64,
}

/// Horizontal position of the panel's top-left corner.
pub const PANEL_X: i64 = 300;

/// Vertical position of the panel's top-left corner.
pub const PANEL_Y: i64 = 200;

/// Width of the panel's content area.
pub const PANEL_WIDTH: u64 = 800;

/// Height of the panel's content area.
pub const PANEL_HEIGHT: u64 = 600;

impl Geometry {
    /// A geometry is well formed when its content area is not degenerate.
    pub open spec fn wf(self) -> bool {
        self.width > 0 && self.height > 0
    }
}

/// The one fixed geometry that every incarnation of the panel is created
/// with; the design persists no position or size, so re-creation always
/// starts from these constants.
pub open spec fn panel_geometry() -> Geometry {
    Geometry { x: PANEL_X, y: PANEL_Y, width: PANEL_WIDTH, height: PANEL_HEIGHT }
}

/// Runtime value of the fixed panel geometry.
pub fn make_panel_geometry() -> (g: Geometry)
    ensures
        g == panel_geometry(),
        g.wf(),
{
    Geometry { x: PANEL_X, y: PANEL_Y, width: PANEL_WIDTH, height: PANEL_HEIGHT }
}

} // verus!
