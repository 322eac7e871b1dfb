use pop_panel::controller::EventOutcome;
use pop_panel::controller::HotkeyDecision;
use pop_panel::controller::KeyState;
use pop_panel::controller::TeardownStep;
use pop_panel::controller::close_panel;
use pop_panel::controller::content_path;
use pop_panel::controller::decide_hotkey;
use pop_panel::controller::handle_event;
use pop_panel::controller::panel_label;
use pop_panel::controller::shortcut_combination;
use pop_panel::controller::startup;
use pop_panel::controller::teardown_plan;
use pop_panel::geometry::make_panel_geometry;
use pop_panel::lifecycle::PanelEvent;
use pop_panel::panel::transform_to_panel;
use pop_panel::registry::PanelRegistry;
use pop_panel::style::BEHAVIOR_FULL_SCREEN_AUXILIARY;
use pop_panel::style::BEHAVIOR_MOVE_TO_ACTIVE_SPACE;
use pop_panel::style::BEHAVIOR_STATIONARY;
use pop_panel::style::LEVEL_DOCK;
use pop_panel::style::STYLE_NONACTIVATING_PANEL;
use pop_panel::style::make_panel_collection_behavior;
use pop_panel::window::create_window;

#[test]
fn fixed_geometry_values() {
    let g = make_panel_geometry();
    assert_eq!(g.x, 300);
    assert_eq!(g.y, 200);
    assert_eq!(g.width, 800);
    assert_eq!(g.height, 600);
}

#[test]
fn fixed_identity_and_shortcut() {
    assert_eq!(panel_label(), "pop_panel");
    assert_eq!(shortcut_combination(), "CommandOrControl+Shift+X");
    assert_eq!(content_path(), "dist/index.html");
}

#[test]
fn collection_behavior_carries_all_three_flags() {
    let b = make_panel_collection_behavior();
    assert_eq!(b & BEHAVIOR_MOVE_TO_ACTIVE_SPACE, BEHAVIOR_MOVE_TO_ACTIVE_SPACE);
    assert_eq!(b & BEHAVIOR_STATIONARY, BEHAVIOR_STATIONARY);
    assert_eq!(b & BEHAVIOR_FULL_SCREEN_AUXILIARY, BEHAVIOR_FULL_SCREEN_AUXILIARY);
    assert_eq!(b, 0x112);
}

#[test]
fn window_factory_fixed_flags() {
    let g = make_panel_geometry();
    let w = create_window(panel_label(), &g, content_path());
    assert_eq!(w.label, "pop_panel");
    assert_eq!(w.content, "dist/index.html");
    assert_eq!(w.x, 300);
    assert_eq!(w.y, 200);
    assert!(!w.settings.minimizable);
    assert!(!w.settings.maximizable);
    assert!(!w.settings.maximized);
    assert!(!w.settings.closable);
    assert!(!w.settings.resizable);
    assert!(w.settings.hidden_title);
    assert!(w.settings.title_bar_overlay);
    assert!(!w.settings.decorations);
}

#[test]
fn transform_reports_overlay_attributes() {
    let g = make_panel_geometry();
    let w = create_window(panel_label(), &g, content_path());
    let p = transform_to_panel(w, g.width, g.height);
    assert_eq!(p.label, "pop_panel");
    assert_eq!(p.info.level, LEVEL_DOCK);
    assert_eq!(p.info.style_mask, STYLE_NONACTIVATING_PANEL);
    assert_eq!(
        p.info.collection_behavior & BEHAVIOR_MOVE_TO_ACTIVE_SPACE,
        BEHAVIOR_MOVE_TO_ACTIVE_SPACE
    );
    assert_eq!(p.info.collection_behavior & BEHAVIOR_STATIONARY, BEHAVIOR_STATIONARY);
    assert_eq!(
        p.info.collection_behavior & BEHAVIOR_FULL_SCREEN_AUXILIARY,
        BEHAVIOR_FULL_SCREEN_AUXILIARY
    );
    assert_eq!(p.info.width, 800);
    assert_eq!(p.info.height, 600);
    assert!(!p.info.released_when_closed);
    assert!(!p.info.has_event_handler);
}

#[test]
fn singleton_under_repeated_presses() {
    let mut registry = startup(content_path());
    assert_eq!(registry.panels.len(), 1);
    let first = handle_event(&mut registry, PanelEvent::HotkeyPressed, content_path());
    let second = handle_event(&mut registry, PanelEvent::HotkeyPressed, content_path());
    assert!(matches!(first, EventOutcome::Ignored));
    assert!(matches!(second, EventOutcome::Ignored));
    assert_eq!(registry.panels.len(), 1);
}

#[test]
fn press_twice_while_open_leaves_exactly_one() {
    let mut registry = startup(content_path());
    let before = registry.panels[0].info;
    handle_event(&mut registry, PanelEvent::HotkeyPressed, content_path());
    handle_event(&mut registry, PanelEvent::HotkeyPressed, content_path());
    assert_eq!(registry.panels.len(), 1);
    assert_eq!(registry.panels[0].info, before);
    assert!(registry.contains(&panel_label()));
}

#[test]
fn close_when_absent_is_noop() {
    let mut registry = PanelRegistry::new();
    let steps = close_panel(&mut registry);
    assert!(steps.is_empty());
    assert_eq!(registry.panels.len(), 0);
    let steps_again = close_panel(&mut registry);
    assert!(steps_again.is_empty());
    assert_eq!(registry.panels.len(), 0);
}

#[test]
fn teardown_order_is_mandatory() {
    let steps = teardown_plan(true);
    assert_eq!(
        steps,
        vec![
            TeardownStep::MarkReleasedWhenClosed,
            TeardownStep::ClearEventHandler,
            TeardownStep::Close,
        ]
    );
    assert!(teardown_plan(false).is_empty());
}

#[test]
fn close_returns_ordered_teardown_when_present() {
    let mut registry = startup(content_path());
    let steps = close_panel(&mut registry);
    assert_eq!(steps.len(), 3);
    assert_eq!(steps[0], TeardownStep::MarkReleasedWhenClosed);
    assert_eq!(steps[1], TeardownStep::ClearEventHandler);
    assert_eq!(steps[2], TeardownStep::Close);
    assert!(!registry.contains(&panel_label()));
}

#[test]
fn create_close_create_same_geometry() {
    let mut registry = startup(content_path());
    let first = registry.panels[0].info;
    close_panel(&mut registry);
    let out = handle_event(&mut registry, PanelEvent::HotkeyPressed, content_path());
    assert!(matches!(out, EventOutcome::Spawned));
    let second = registry.panels[0].info;
    assert_eq!(first.x, second.x);
    assert_eq!(first.y, second.y);
    assert_eq!(first.width, second.width);
    assert_eq!(first.height, second.height);
    assert_eq!(first, second);
}

#[test]
fn overlay_attributes_persist_across_reopen() {
    let mut registry = startup(content_path());
    close_panel(&mut registry);
    handle_event(&mut registry, PanelEvent::HotkeyPressed, content_path());
    let info = registry.panels[0].info;
    assert_eq!(info.style_mask, STYLE_NONACTIVATING_PANEL);
    assert_eq!(
        info.collection_behavior & BEHAVIOR_MOVE_TO_ACTIVE_SPACE,
        BEHAVIOR_MOVE_TO_ACTIVE_SPACE
    );
    assert_eq!(info.collection_behavior & BEHAVIOR_STATIONARY, BEHAVIOR_STATIONARY);
    assert_eq!(info.level, LEVEL_DOCK);
}

#[test]
fn startup_close_press_scenario() {
    let mut registry = startup(content_path());
    assert!(registry.contains(&panel_label()));
    let visible = &registry.panels[0];
    assert_eq!(visible.info.x, 300);
    assert_eq!(visible.info.y, 200);
    assert_eq!(visible.info.width, 800);
    assert_eq!(visible.info.height, 600);

    let steps = close_panel(&mut registry);
    assert_eq!(steps.len(), 3);
    assert!(!registry.contains(&panel_label()));
    assert!(registry.lookup(&panel_label()).is_none());

    let out = handle_event(&mut registry, PanelEvent::HotkeyPressed, content_path());
    assert!(matches!(out, EventOutcome::Spawned));
    assert!(registry.contains(&panel_label()));
    let reopened = &registry.panels[0];
    assert_eq!(reopened.info.x, 300);
    assert_eq!(reopened.info.y, 200);
    assert_eq!(reopened.info.width, 800);
    assert_eq!(reopened.info.height, 600);
}

#[test]
fn release_never_changes_state() {
    let mut empty = PanelRegistry::new();
    let out = handle_event(&mut empty, PanelEvent::HotkeyReleased, content_path());
    assert!(matches!(out, EventOutcome::Ignored));
    assert_eq!(empty.panels.len(), 0);

    let mut open = startup(content_path());
    let before = open.panels[0].info;
    let out_open = handle_event(&mut open, PanelEvent::HotkeyReleased, content_path());
    assert!(matches!(out_open, EventOutcome::Ignored));
    assert_eq!(open.panels.len(), 1);
    assert_eq!(open.panels[0].info, before);
}

#[test]
fn decide_hotkey_cases() {
    assert_eq!(decide_hotkey(false, KeyState::Pressed), HotkeyDecision::SpawnPanel);
    assert_eq!(decide_hotkey(true, KeyState::Pressed), HotkeyDecision::Ignore);
    assert_eq!(decide_hotkey(false, KeyState::Released), HotkeyDecision::Ignore);
    assert_eq!(decide_hotkey(true, KeyState::Released), HotkeyDecision::Ignore);
}

#[test]
fn close_request_through_handle_event() {
    let mut registry = startup(content_path());
    let out = handle_event(&mut registry, PanelEvent::CloseRequested, content_path());
    match out {
        EventOutcome::TornDown(steps) => {
            assert_eq!(steps.len(), 3);
            assert_eq!(steps[0], TeardownStep::MarkReleasedWhenClosed);
        },
        _ => panic!("a close request must run the close action"),
    }
    assert!(!registry.contains(&panel_label()));

    let out_again = handle_event(&mut registry, PanelEvent::CloseRequested, content_path());
    match out_again {
        EventOutcome::TornDown(steps) => assert!(steps.is_empty()),
        _ => panic!("a close request must run the close action"),
    }
}

#[test]
fn registry_lookup_and_unregister() {
    let mut registry = startup(content_path());
    let found = registry.lookup(&panel_label());
    assert_eq!(found, Some(0));
    let removed = registry.unregister(&panel_label());
    let removed = removed.expect("the registered panel must come back out");
    assert_eq!(removed.label, "pop_panel");
    assert_eq!(removed.content, "dist/index.html");
    assert!(registry.unregister(&panel_label()).is_none());
    assert!(!registry.contains(&panel_label()));
}
