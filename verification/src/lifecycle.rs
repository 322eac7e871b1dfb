use vstd::prelude::*;
use crate::geometry::panel_geometry;
use crate::panel::PanelInfo;
use crate::panel::fresh_panel_info;
use crate::panel::lemma_fresh_panel_is_overlay;

verus! {

/// An observable trigger of the panel lifecycle: the two states the global
/// shortcut subsystem delivers for its key combination, and the close action
/// the panel content invokes on itself.
#[derive(Clone, Copy, PartialEq, Eq, Structural, Debug)]
pub enum PanelEvent {
    /// The global key combination was pressed.
    HotkeyPressed,
    /// The global key combination was released.
    HotkeyReleased,
    /// The panel content invoked the close action.
    CloseRequested,
}

/// One transition of the panel identity slot.  The state is the sequence of
/// panels the window manager holds under the fixed identity — kept as a
/// sequence, not an option, precisely so that "at most one" is a proved
/// invariant rather than a modelling assumption.  A press creates a fresh
/// panel only when the slot is empty and is swallowed otherwise; a release
/// changes nothing; the close action empties the slot and is a no-op when
/// the slot already is empty.
pub open spec fn step(s: Seq<PanelInfo>, ev: PanelEvent) -> Seq<PanelInfo> {
    match ev {
        PanelEvent::HotkeyPressed => if s.len() == 0 {
            s.push(fresh_panel_info())
        } else {
            s
        },
        PanelEvent::HotkeyReleased => s,
        PanelEvent::CloseRequested => Seq::empty(),
    }
}

/// The state after a whole sequence of events, delivered in order.
pub open spec fn run_events(s: Seq<PanelInfo>, evs: Seq<PanelEvent>) -> Seq<PanelInfo>
    decreases evs.len(),
{
    if evs.len() == 0 {
        s
    } else {
        run_events(step(s, evs[0]), evs.subrange(1, evs.len() as int))
    }
}

/// Singleton invariant: from any state holding at most one panel, no
/// sequence of events — hotkey presses in particular, with or without
/// intervening closes — ever leaves more than one panel under the fixed
/// identity.
pub proof fn lemma_singleton_invariant(s: Seq<PanelInfo>, evs: Seq<PanelEvent>)
    requires
        s.len() <= 1,
    ensures
        run_events(s, evs).len() <= 1,
    decreases evs.len(),
{
    if evs.len() > 0 {
        lemma_singleton_invariant(step(s, evs[0]), evs.subrange(1, evs.len() as int));
    }
}

/// Key releases never change the state, whatever it is.
pub proof fn lemma_release_is_noop(s: Seq<PanelInfo>)
    ensures
        step(s, PanelEvent::HotkeyReleased) == s,
{
}

/// Closing with no panel present changes nothing.
pub proof fn lemma_close_when_absent(s: Seq<PanelInfo>)
    requires
        s.len() == 0,
    ensures
        step(s, PanelEvent::CloseRequested) == s,
{
    assert(step(s, PanelEvent::CloseRequested) =~= s);
}

/// Deterministic reconstruction: starting from an empty slot, a create
/// followed by a close and a second create yields a panel with exactly the
/// fixed geometry of the first one.
pub proof fn lemma_deterministic_reconstruction(s: Seq<PanelInfo>)
    requires
        s.len() == 0,
    ensures
        step(s, PanelEvent::HotkeyPressed).len() == 1,
        step(step(step(s, PanelEvent::HotkeyPressed), PanelEvent::CloseRequested),
            PanelEvent::HotkeyPressed).len() == 1,
        step(step(step(s, PanelEvent::HotkeyPressed), PanelEvent::CloseRequested),
            PanelEvent::HotkeyPressed)[0] == step(s, PanelEvent::HotkeyPressed)[0],
        step(s, PanelEvent::HotkeyPressed)[0].geometry() == panel_geometry(),
{
    lemma_fresh_panel_is_overlay();
}

/// Every panel in the state is a correctly reclassified overlay at the
/// fixed geometry.
pub open spec fn all_overlays(s: Seq<PanelInfo>) -> bool {
    forall|i: int|
        0 <= i < s.len() ==> (#[trigger] s[i]).is_overlay() && s[i].geometry() == panel_geometry()
}

/// Overlay persistence: once every live panel is a reclassified overlay —
/// non-activating, following the active space, excluded from
/// window-switcher enumeration, all simultaneously — every panel reachable
/// through any further events, close/reopen cycles included, still is.
pub proof fn lemma_overlay_persists(s: Seq<PanelInfo>, evs: Seq<PanelEvent>)
    requires
        all_overlays(s),
    ensures
        all_overlays(run_events(s, evs)),
    decreases evs.len(),
{
    if evs.len() > 0 {
        assert(all_overlays(step(s, evs[0]))) by {
            lemma_fresh_panel_is_overlay();
            if s.len() == 0 && evs[0] is HotkeyPressed {
                assert(step(s, evs[0]) =~= seq![fresh_panel_info()]);
            }
        }
        lemma_overlay_persists(step(s, evs[0]), evs.subrange(1, evs.len() as int));
    }
}

} // verus!
