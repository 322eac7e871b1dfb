use vstd::prelude::*;
use crate::geometry::make_panel_geometry;
use crate::lifecycle::PanelEvent;
use crate::lifecycle::step;
use crate::panel::Panel;
use crate::panel::PanelInfo;
use crate::panel::fresh_panel_info;
use crate::panel::transform_to_panel;
use crate::registry::PanelRegistry;
use crate::registry::lemma_has_label_iff_infos_nonempty;
use crate::registry::lemma_no_label_infos_empty;
use crate::window::create_window;

verus! {

/// The stable identity under which the one logical panel lives, process
/// wide.  Existence under this label is the single source of truth for the
/// dispatcher's decisions.
pub open spec fn panel_identity() -> Seq<char> {
    "pop_panel"@
}

/// Runtime value of the panel identity label.
pub fn panel_label() -> (s: String)
    ensures
        s@ == panel_identity(),
{
    "pop_panel".to_owned()
}

/// The one global key combination registered for the process lifetime.
pub fn shortcut_combination() -> (s: String)
    ensures
        s@ == "CommandOrControl+Shift+X"@,
{
    "CommandOrControl+Shift+X".to_owned()
}

/// The bundled document the panel displays; opaque to this crate beyond
/// being the factory's content input.
pub fn content_path() -> (s: String)
    ensures
        s@ == "dist/index.html"@,
{
    "dist/index.html".to_owned()
}

/// The state a delivered shortcut event carries.
#[derive(Clone, Copy, PartialEq, Eq, Structural, Debug)]
pub enum KeyState {
    /// The key combination went down.
    Pressed,
    /// The key combination came back up.
    Released,
}

/// What one shortcut delivery decides.
#[derive(Clone, Copy, PartialEq, Eq, Structural, Debug)]
pub enum HotkeyDecision {
    /// Schedule panel construction onto the UI thread.
    SpawnPanel,
    /// Swallow the event: either the panel already exists, or the key was
    /// merely released.
    Ignore,
}

/// The dispatcher's decision for one shortcut delivery, given the live
/// lookup's answer.  Construction is scheduled exactly on a press that
/// finds no panel; a press while the panel exists is swallowed — the hotkey
/// never toggles the panel closed — and releases are ignored entirely.
pub fn decide_hotkey(panel_exists: bool, key: KeyState) -> (d: HotkeyDecision)
    ensures
        d is SpawnPanel <==> (key is Pressed && !panel_exists),
{
    match key {
        KeyState::Pressed => if panel_exists {
            HotkeyDecision::Ignore
        } else {
            HotkeyDecision::SpawnPanel
        },
        KeyState::Released => HotkeyDecision::Ignore,
    }
}

/// One step of the panel teardown, in the order the platform demands.
#[derive(Clone, Copy, PartialEq, Eq, Structural, Debug)]
pub enum TeardownStep {
    /// Mark the panel so closing releases its OS resources instead of
    /// merely hiding it.
    MarkReleasedWhenClosed,
    /// Detach any event handler, so no callback fires on a half-destroyed
    /// object.
    ClearEventHandler,
    /// Issue the close operation itself.
    Close,
}

/// The mandatory teardown order: the release mark and the handler removal
/// strictly precede the close.
pub open spec fn teardown_sequence() -> Seq<TeardownStep> {
    seq![
        TeardownStep::MarkReleasedWhenClosed,
        TeardownStep::ClearEventHandler,
        TeardownStep::Close,
    ]
}

/// The teardown plan for one close request: the full ordered sequence when
/// a panel exists, and nothing at all when none does.
pub fn teardown_plan(panel_exists: bool) -> (steps: Vec<TeardownStep>)
    ensures
        panel_exists ==> steps@ == teardown_sequence(),
        !panel_exists ==> steps@ == Seq::<TeardownStep>::empty(),
{
    let mut steps: Vec<TeardownStep> = Vec::new();
    if panel_exists {
        steps.push(TeardownStep::MarkReleasedWhenClosed);
        steps.push(TeardownStep::ClearEventHandler);
        steps.push(TeardownStep::Close);
        proof {
            assert(steps@ =~= teardown_sequence());
        }
    } else {
        proof {
            assert(steps@ =~= Seq::<TeardownStep>::empty());
        }
    }
    steps
}

/// Builds the panel: a window under the fixed identity, at the fixed
/// geometry, showing the given content, reclassified into an overlay and
/// registered.  This is the work the dispatcher schedules onto the UI
/// thread; it presumes — and the dispatcher guarantees — that no panel
/// exists yet.
pub fn build_pop_panel(registry: &mut PanelRegistry, content: String)
    requires
        old(registry).wf(),
        !old(registry).spec_contains(panel_identity()),
    ensures
        final(registry).wf(),
        final(registry).spec_contains(panel_identity()),
        final(registry).infos(panel_identity()) == seq![fresh_panel_info()],
        forall|label: Seq<char>|
            label != panel_identity() ==> final(registry).infos(label) == old(registry).infos(
                label,
            ),
        exists|p: Panel|
            final(registry).panels@ == old(registry).panels@.push(p) && p.label@
                == panel_identity() && p.content@ == content@ && p.info == fresh_panel_info(),
{
    let label = panel_label();
    let geometry = make_panel_geometry();
    let window = create_window(label, &geometry, content);
    let panel = transform_to_panel(window, geometry.width, geometry.height);
    proof {
        assert(panel.info == fresh_panel_info());
        lemma_no_label_infos_empty(registry.panels@, panel_identity());
    }
    registry.register(panel);
    proof {
        assert(final(registry).infos(panel_identity()) =~= seq![fresh_panel_info()]);
    }
}

/// The externally invokable close action.  Looks the panel up by identity;
/// when absent the call is a silent, state-preserving no-op with an empty
/// plan, and when present the panel is removed and the returned plan holds
/// the three teardown steps in their mandatory order.
pub fn close_panel(registry: &mut PanelRegistry) -> (steps: Vec<TeardownStep>)
    requires
        old(registry).wf(),
    ensures
        final(registry).wf(),
        !final(registry).spec_contains(panel_identity()),
        final(registry).infos(panel_identity()) == Seq::<PanelInfo>::empty(),
        old(registry).spec_contains(panel_identity()) ==> steps@ == teardown_sequence(),
        !old(registry).spec_contains(panel_identity()) ==> *final(registry) == *old(registry)
            && steps@ == Seq::<TeardownStep>::empty(),
        forall|label: Seq<char>|
            label != panel_identity() ==> final(registry).spec_contains(label) == old(
                registry,
            ).spec_contains(label),
        old(registry).spec_contains(panel_identity()) ==> exists|i: int|
            0 <= i < old(registry).panels@.len() && old(registry).panels@[i].label@
                == panel_identity() && final(registry).panels@ == old(registry).panels@.remove(i),
{
    let label = panel_label();
    let removed = registry.unregister(&label);
    proof {
        let s = old(registry).panels@;
        let t = registry.panels@;
        if removed is Some {
            let i = choose|i: int|
                0 <= i < s.len() && removed->0 == s[i] && t == s.remove(i);
            s.remove_ensures(i);
            assert forall|label2: Seq<char>|
                label2 != panel_identity() implies registry.spec_contains(label2) == old(
                registry,
            ).spec_contains(label2) by {
                if old(registry).spec_contains(label2) {
                    let a = choose|a: int| 0 <= a < s.len() && s[a].label@ == label2;
                    let ta: int = if a < i { a } else { a - 1 };
                    assert(t[ta] == s[a]);
                }
                if registry.spec_contains(label2) {
                    let b = choose|b: int| 0 <= b < t.len() && t[b].label@ == label2;
                    let sb: int = if b < i { b } else { b + 1 };
                    assert(t[b] == s[sb]);
                }
            }
        }
    }
    teardown_plan(removed.is_some())
}

/// The outcome of one delivered event.
pub enum EventOutcome {
    /// Construction was scheduled onto the UI thread and ran: the panel now
    /// exists.
    Spawned,
    /// The event was swallowed: a press while the panel already existed, or
    /// a mere key release.
    Ignored,
    /// The close action ran; the payload is the teardown plan it executed.
    TornDown(Vec<TeardownStep>),
}

/// One complete transition of the running system, as observed once the
/// scheduled UI-thread work has run: the dispatcher's decision for hotkey
/// events, and the close action for close requests.  The identity slot
/// afterwards is exactly what the abstract lifecycle machine prescribes for
/// the slot before — the executable controller refines `lifecycle::step`.
pub fn handle_event(registry: &mut PanelRegistry, ev: PanelEvent, content: String) -> (out:
    EventOutcome)
    requires
        old(registry).wf(),
    ensures
        final(registry).wf(),
        final(registry).infos(panel_identity()) == step(
            old(registry).infos(panel_identity()),
            ev,
        ),
        out is Spawned <==> (ev is HotkeyPressed && !old(registry).spec_contains(
            panel_identity(),
        )),
        out is TornDown <==> ev is CloseRequested,
        out matches EventOutcome::TornDown(steps) ==> (old(registry).spec_contains(
            panel_identity(),
        ) ==> steps@ == teardown_sequence()) && (!old(registry).spec_contains(panel_identity())
            ==> steps@ == Seq::<TeardownStep>::empty()),
        ev is HotkeyReleased ==> *final(registry) == *old(registry),
        (ev is HotkeyPressed && old(registry).spec_contains(panel_identity()))
            ==> *final(registry) == *old(registry),
{
    proof {
        lemma_has_label_iff_infos_nonempty(registry.panels@, panel_identity());
    }
    match ev {
        PanelEvent::HotkeyPressed => {
            let label = panel_label();
            let exists_now = registry.contains(&label);
            match decide_hotkey(exists_now, KeyState::Pressed) {
                HotkeyDecision::SpawnPanel => {
                    build_pop_panel(registry, content);
                    proof {
                        lemma_no_label_infos_empty(old(registry).panels@, panel_identity());
                        assert(step(old(registry).infos(panel_identity()), ev) =~= seq![
                            fresh_panel_info(),
                        ]);
                    }
                    EventOutcome::Spawned
                },
                HotkeyDecision::Ignore => EventOutcome::Ignored,
            }
        },
        PanelEvent::HotkeyReleased => EventOutcome::Ignored,
        PanelEvent::CloseRequested => {
            let steps = close_panel(registry);
            EventOutcome::TornDown(steps)
        },
    }
}

/// Singleton invariant at the registry level: a well-formed window manager
/// never holds more than one panel under the fixed identity, at any
/// observation point.
pub proof fn lemma_registry_singleton(registry: PanelRegistry)
    requires
        registry.wf(),
    ensures
        registry.infos(panel_identity()).len() <= 1,
{
    crate::registry::lemma_unique_infos_at_most_one(registry.panels@, panel_identity());
}

/// Process initialization: the one panel is built eagerly, into a fresh
/// registry, with the fixed geometry and the given content.
pub fn startup(content: String) -> (registry: PanelRegistry)
    ensures
        registry.wf(),
        registry.spec_contains(panel_identity()),
        registry.infos(panel_identity()) == seq![fresh_panel_info()],
        registry.panels@.len() == 1,
{
    let mut registry = PanelRegistry::new();
    build_pop_panel(&mut registry, content);
    registry
}

} // verus!
