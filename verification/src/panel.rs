use vstd::prelude::*;
use crate::geometry::Geometry;
use crate::geometry::PANEL_HEIGHT;
use crate::geometry::PANEL_WIDTH;
use crate::geometry::PANEL_X;
use crate::geometry::PANEL_Y;
use crate::geometry::panel_geometry;
use crate::style::BEHAVIOR_FULL_SCREEN_AUXILIARY;
use crate::style::BEHAVIOR_MOVE_TO_ACTIVE_SPACE;
use crate::style::BEHAVIOR_STATIONARY;
use crate::style::LEVEL_DOCK;
use crate::style::STYLE_NONACTIVATING_PANEL;
use crate::style::lemma_panel_behavior_flags;
use crate::style::make_panel_collection_behavior;
use crate::style::mask_has;
use crate::style::panel_collection_behavior;
use crate::window::Window;

verus! {

/// The observable attributes of one panel, as plain values: everything the
/// lifecycle logic reads of a live panel, without the identity label or the
/// content reference.  Spec-level state machines range over these.
#[derive(Clone, Copy, PartialEq, Eq, Structural, Debug)]
pub struct PanelInfo {
    /// Horizontal position of the top-left corner, in logical units.
    pub x: i64,
    /// Vertical position of the top-left corner, in logical units.
    pub y: i64,
    /// Width of the content area, in logical units.
    pub width: u64,
    /// Height of the content area, in logical units.
    pub height: u64,
    /// Stacking tier the panel floats at.
    pub level: i64,
    /// Style mask the panel was reclassified with.
    pub style_mask: u64,
    /// Collection-behavior mask the panel was reclassified with.
    pub collection_behavior: u64,
    /// Closing the panel releases its OS resources instead of hiding it.
    pub released_when_closed: bool,
    /// An event handler is currently attached to the panel.
    pub has_event_handler: bool,
}

impl PanelInfo {
    /// The geometry the panel occupies.
    pub open spec fn geometry(self) -> Geometry {
        Geometry { x: self.x, y: self.y, width: self.width, height: self.height }
    }

    /// The defining contract of an overlay panel: it floats at the dock
    /// tier, its style is non-activating, and its collection behavior
    /// carries all three of — follows the active space, excluded from
    /// window-switcher enumeration, visible beside full-screen applications.
    pub open spec fn is_overlay(self) -> bool {
        &&& self.level == LEVEL_DOCK
        &&& self.style_mask == STYLE_NONACTIVATING_PANEL
        &&& mask_has(self.collection_behavior, BEHAVIOR_MOVE_TO_ACTIVE_SPACE)
        &&& mask_has(self.collection_behavior, BEHAVIOR_STATIONARY)
        &&& mask_has(self.collection_behavior, BEHAVIOR_FULL_SCREEN_AUXILIARY)
    }
}

/// The attributes every freshly transformed panel starts with: the fixed
/// geometry, the overlay reclassification, no release-on-close mark and no
/// attached event handler.
pub open spec fn fresh_panel_info() -> PanelInfo {
    PanelInfo {
        x: PANEL_X,
        y: PANEL_Y,
        width: PANEL_WIDTH,
        height: PANEL_HEIGHT,
        level: LEVEL_DOCK,
        style_mask: STYLE_NONACTIVATING_PANEL,
        collection_behavior: panel_collection_behavior(),
        released_when_closed: false,
        has_event_handler: false,
    }
}

/// A freshly transformed panel satisfies the overlay contract and sits at
/// the fixed geometry.
pub proof fn lemma_fresh_panel_is_overlay()
    ensures
        fresh_panel_info().is_overlay(),
        fresh_panel_info().geometry() == panel_geometry(),
{
    lemma_panel_behavior_flags();
}

/// A live panel: the identity label and content reference of the window it
/// was reclassified from, together with its observable attributes.
pub struct Panel {
    /// Identity label under which the panel is registered.
    pub label: String,
    /// Opaque reference to the document shown inside the panel.
    pub content: String,
    /// The panel's observable attributes.
    pub info: PanelInfo,
}

/// Reclassifies a window, in place, into an overlay panel and fixes its
/// content area to the given size.  The order of the underlying operations
/// is part of the platform contract: level, then style, then collection
/// behavior, and the content size only after the style change, so the
/// layout is never recomputed against stale decorations.
pub fn transform_to_panel(window: Window, width: u64, height: u64) -> (p: Panel)
    requires
        width > 0,
        height > 0,
    ensures
        p.label == window.label,
        p.content == window.content,
        p.info.x == window.x,
        p.info.y == window.y,
        p.info.is_overlay(),
        p.info.level == LEVEL_DOCK,
        p.info.style_mask == STYLE_NONACTIVATING_PANEL,
        p.info.collection_behavior == panel_collection_behavior(),
        p.info.width == width,
        p.info.height == height,
        !p.info.released_when_closed,
        !p.info.has_event_handler,
{
    let mut info = PanelInfo {
        x: window.x,
        y: window.y,
        width: 0,
        height: 0,
        level: 0,
        style_mask: 0,
        collection_behavior: 0,
        released_when_closed: false,
        has_event_handler: false,
    };
    info.level = LEVEL_DOCK;
    info.style_mask = STYLE_NONACTIVATING_PANEL;
    info.collection_behavior = make_panel_collection_behavior();
    info.width = width;
    info.height = height;
    Panel { label: window.label, content: window.content, info }
}

} // verus!
