use vstd::prelude::*;
use crate::geometry::Geometry;

verus! {

/// The decoration and behavior flags a panel window is built with.  They are
/// fixed for every panel: the window offers none of the standard chrome, and
/// the only way to dismiss it is the dedicated close action.
#[derive(Clone, Copy, PartialEq, Eq, Structural, Debug)]
pub struct WindowSettings {
    /// The user can minimize the window.
    pub minimizable: bool,
    /// The user can maximize the window.
    pub maximizable: bool,
    /// The window starts maximized.
    pub maximized: bool,
    /// The window can be closed through the standard close affordance.
    pub closable: bool,
    /// The user can resize the window.
    pub resizable: bool,
    /// The title text is hidden.
    pub hidden_title: bool,
    /// The title bar is drawn as an overlay, reserving no strip of its own.
    pub title_bar_overlay: bool,
    /// The window carries standard chrome and decorations.
    pub decorations: bool,
}

/// The fixed flag set of every panel window: not minimizable, not
/// maximizable, not initially maximized, not independently closable, not
/// resizable, title hidden, title bar overlaid, no decorations.
pub open spec fn panel_window_settings() -> WindowSettings {
    WindowSettings {
        minimizable: false,
        maximizable: false,
        maximized: false,
        closable: false,
        resizable: false,
        hidden_title: true,
        title_bar_overlay: true,
        decorations: false,
    }
}

/// An ordinary application window as the factory hands it over: labelled,
/// showing a content document, positioned, and carrying the fixed flag set.
/// The panel transformer consumes it in place.
pub struct Window {
    /// Identity label under which the window manager registers the window.
    pub label: String,
    /// Opaque reference to the bundled document shown inside the window.
    pub content: String,
    /// Horizontal position of the top-left corner, in logical units.
    pub x: i64,
    /// Vertical position of the top-left corner, in logical units.
    pub y: i64,
    /// The decoration and behavior flags the window was built with.
    pub settings: WindowSettings,
}

/// Builds a window under the given identity label, showing the given content
/// document, with the fixed panel flag set, and positions it at the
/// geometry's logical coordinates.
pub fn create_window(label: String, geometry: &Geometry, content: String) -> (w: Window)
    requires
        geometry.wf(),
    ensures
        w.label == label,
        w.content == content,
        w.x == geometry.x,
        w.y == geometry.y,
        w.settings == panel_window_settings(),
{
    let settings = WindowSettings {
        minimizable: false,
        maximizable: false,
        maximized: false,
        closable: false,
        resizable: false,
        hidden_title: true,
        title_bar_overlay: true,
        decorations: false,
    };
    Window { label, content, x: geometry.x, y: geometry.y, settings }
}

} // verus!
