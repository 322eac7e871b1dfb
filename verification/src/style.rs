use vstd::prelude::*;

verus! {

/// Stacking tier at which the panel floats: above all ordinary application
/// windows, at the tier the system reserves for the dock, and below
/// system-critical surfaces.  Raw value of the platform's dock window level.
pub const LEVEL_DOCK: i64 = 20;

/// Style-mask bit for a non-activating panel: the window may receive input
/// while visible, and may become the key window when interacted with, but
/// showing it never steals foreground status from the active application.
pub const STYLE_NONACTIVATING_PANEL: u64 = 0x80;

/// Collection-behavior bit: the window follows the user to whichever virtual
/// desktop or space is currently active, instead of staying pinned to the
/// space it was created on.
pub const BEHAVIOR_MOVE_TO_ACTIVE_SPACE: u64 = 0x2;

/// Collection-behavior bit: the window is excluded from the system's
/// window-cycling and window-switcher enumeration.
pub const BEHAVIOR_STATIONARY: u64 = 0x10;

/// Collection-behavior bit: the window stays visible alongside another
/// application's full-screen window without triggering a space switch.
pub const BEHAVIOR_FULL_SCREEN_AUXILIARY: u64 = 0x100;

/// A behavior mask carries a flag when every bit of the flag is set in it.
pub open spec fn mask_has(mask: u64, flag: u64) -> bool {
    mask & flag == flag
}

/// Union of two behavior masks.
pub fn mask_union(a: u64, b: u64) -> (r: u64)
    ensures
        r == (a | b),
{
    a | b
}

/// The collection behavior the panel is reclassified with: the union of the
/// three properties that make an overlay globally reachable — it moves to the
/// active space, stays out of window-switcher enumeration, and coexists with
/// full-screen applications.
pub open spec fn panel_collection_behavior() -> u64 {
    BEHAVIOR_MOVE_TO_ACTIVE_SPACE | BEHAVIOR_STATIONARY | BEHAVIOR_FULL_SCREEN_AUXILIARY
}

/// The panel's collection behavior carries each of its three flags.
pub proof fn lemma_panel_behavior_flags()
    ensures
        mask_has(panel_collection_behavior(), BEHAVIOR_MOVE_TO_ACTIVE_SPACE),
        mask_has(panel_collection_behavior(), BEHAVIOR_STATIONARY),
        mask_has(panel_collection_behavior(), BEHAVIOR_FULL_SCREEN_AUXILIARY),
{
    assert((0x2u64 | 0x10u64 | 0x100u64) & 0x2u64 == 0x2u64) by (bit_vector);
    assert((0x2u64 | 0x10u64 | 0x100u64) & 0x10u64 == 0x10u64) by (bit_vector);
    assert((0x2u64 | 0x10u64 | 0x100u64) & 0x100u64 == 0x100u64) by (bit_vector);
}

/// Runtime value of the panel's collection behavior.
pub fn make_panel_collection_behavior() -> (r: u64)
    ensures
        r == panel_collection_behavior(),
        mask_has(r, BEHAVIOR_MOVE_TO_ACTIVE_SPACE),
        mask_has(r, BEHAVIOR_STATIONARY),
        mask_has(r, BEHAVIOR_FULL_SCREEN_AUXILIARY),
{
    proof {
        lemma_panel_behavior_flags();
    }
    let moves = mask_union(BEHAVIOR_MOVE_TO_ACTIVE_SPACE, BEHAVIOR_STATIONARY);
    mask_union(moves, BEHAVIOR_FULL_SCREEN_AUXILIARY)
}

} // verus!
