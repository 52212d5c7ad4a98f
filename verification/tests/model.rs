//! Unit tests for the library's data model: geometry, the update ledger,
//! the session context and the view tree.

use plato_core::context::{build_context, reload_append, reload_replace, Context, LightLevels,
    Metadata, Settings};
use plato_core::event::{SleepType, ViewId};
use plato_core::geom::Rectangle;
use plato_core::ledger::UpdateLedger;
use plato_core::power::{power_step, PowerState, PowerTrigger};
use plato_core::view_tree::{frontlight_window_rect, notification_rect, ViewKind, ViewNode};
use plato_core::event::Event;
use plato_core::merger::{battery_tick_emission, clock_tick_emission, idle_timer_continues,
    IdleOutcome, BATTERY_REFRESH_SECS, CLOCK_REFRESH_SECS};

#[test]
fn rectangle_overlap_is_exact() {
    let a = Rectangle::new(0, 0, 10, 10);
    let b = Rectangle::new(10, 0, 20, 10);
    // Half-open boxes: touching edges do not overlap.
    assert!(!a.overlaps(&b));
    let c = Rectangle::new(9, 9, 20, 20);
    assert!(a.overlaps(&c));
    assert!(c.overlaps(&a));
    assert_eq!(a.width(), 10);
    assert_eq!(a.height(), 10);
}

#[test]
fn rectangle_merge_covers_both() {
    let a = Rectangle::new(2, 3, 10, 10);
    let b = Rectangle::new(0, 5, 12, 8);
    let m = a.merge(&b);
    assert_eq!(m, Rectangle::new(0, 3, 12, 10));
    assert!(a.contained_in(&m));
    assert!(b.contained_in(&m));
}

#[test]
fn ledger_tracks_and_drains_tokens() {
    let mut ledger = UpdateLedger::new();
    assert!(ledger.is_empty());
    ledger.insert(1, Rectangle::new(0, 0, 100, 100));
    ledger.insert(2, Rectangle::new(200, 200, 300, 300));
    assert_eq!(ledger.len(), 2);

    let drained = ledger.drain_all();
    assert!(ledger.is_empty());
    assert_eq!(drained.len(), 2);
    assert_eq!(drained[0], (1, Rectangle::new(0, 0, 100, 100)));
    assert_eq!(drained[1], (2, Rectangle::new(200, 200, 300, 300)));
}

#[test]
fn ledger_removes_exactly_overlapping_entries() {
    let mut ledger = UpdateLedger::new();
    ledger.insert(1, Rectangle::new(0, 0, 100, 100));
    ledger.insert(2, Rectangle::new(50, 50, 150, 150));
    ledger.insert(3, Rectangle::new(500, 500, 600, 600));

    let removed = ledger.remove_overlapping(Rectangle::new(90, 90, 120, 120));
    let tokens: Vec<u32> = removed.iter().map(|e| e.0).collect();
    assert_eq!(tokens, vec![1, 2]);
    assert_eq!(ledger.len(), 1);
}

#[test]
fn ledger_insert_supersedes_same_token() {
    let mut ledger = UpdateLedger::new();
    ledger.insert(5, Rectangle::new(0, 0, 10, 10));
    ledger.insert(5, Rectangle::new(20, 20, 30, 30));
    assert_eq!(ledger.len(), 1);
    let drained = ledger.drain_all();
    assert_eq!(drained[0], (5, Rectangle::new(20, 20, 30, 30)));
}

#[test]
fn settings_and_metadata_round_trip() {
    // A session's persisted documents, loaded back by a fresh instance,
    // reproduce the same values; the session-only flags start over.
    let settings = Settings {
        wifi: true,
        frontlight: false,
        frontlight_levels: LightLevels { intensity: 123, warmth: 45 },
        sleep_secs: 480,
        library_path: String::from("books"),
    };
    let metadata = Metadata { entries: vec![9, 8, 7] };
    let mut session = Context::new(settings, metadata, String::from("metadata.json"));
    session.inverted = true;
    session.suspended = true;
    session.sleep_type = SleepType::Deep;
    session.notification_index = 9;

    let restored = Context::new(
        session.settings.clone(),
        session.metadata.clone(),
        session.filename.clone(),
    );
    assert_eq!(restored.settings.wifi, session.settings.wifi);
    assert_eq!(restored.settings.frontlight, session.settings.frontlight);
    assert_eq!(restored.settings.frontlight_levels, session.settings.frontlight_levels);
    assert_eq!(restored.settings.sleep_secs, session.settings.sleep_secs);
    assert_eq!(restored.settings.library_path, session.settings.library_path);
    assert_eq!(restored.metadata.entries, session.metadata.entries);
    assert_eq!(restored.filename, session.filename);
    assert!(!restored.inverted);
    assert!(!restored.monochrome);
    assert!(!restored.suspended);
    assert!(!restored.mounted);
    assert_eq!(restored.notification_index, 0);
    assert_eq!(restored.sleep_type, SleepType::Light);
}

#[test]
fn build_context_falls_back_to_defaults() {
    let ctx = build_context(None, None, None, String::from("metadata.json"));
    assert!(!ctx.settings.wifi);
    assert!(ctx.settings.frontlight);
    assert_eq!(ctx.settings.sleep_secs, 600);
    assert!(ctx.metadata.entries.is_empty());

    let imported = Metadata { entries: vec![4, 5] };
    let ctx = build_context(None, None, Some(imported), String::from("metadata.json"));
    assert_eq!(ctx.metadata.entries, vec![4, 5]);
}

#[test]
fn reload_keeps_catalogue_on_empty_load() {
    let mut ctx = Context::new(
        Settings::default(),
        Metadata { entries: vec![1, 2] },
        String::from("metadata.json"),
    );
    reload_replace(&mut ctx, Some(Metadata { entries: vec![] }));
    assert_eq!(ctx.metadata.entries, vec![1, 2]);
    reload_replace(&mut ctx, Some(Metadata { entries: vec![3] }));
    assert_eq!(ctx.metadata.entries, vec![3]);
    reload_append(&mut ctx, Some(Metadata { entries: vec![4, 5] }));
    assert_eq!(ctx.metadata.entries, vec![3, 4, 5]);
    reload_append(&mut ctx, None);
    assert_eq!(ctx.metadata.entries, vec![3, 4, 5]);
}

#[test]
fn power_transitions_follow_the_table() {
    // Suspended is reachable only through Suspending.
    assert_eq!(
        power_step(PowerState::Awake, PowerTrigger::SuspendProcessed),
        PowerState::Awake
    );
    assert_eq!(
        power_step(PowerState::Awake, PowerTrigger::SleepRequested(SleepType::Deep)),
        PowerState::Suspending(SleepType::Deep)
    );
    assert_eq!(
        power_step(PowerState::Suspending(SleepType::Deep), PowerTrigger::SuspendProcessed),
        PowerState::Suspended(SleepType::Deep)
    );
    // Mounted is reachable only from Awake.
    assert_eq!(
        power_step(PowerState::Suspended(SleepType::Light), PowerTrigger::MountRequested),
        PowerState::Suspended(SleepType::Light)
    );
    assert_eq!(
        power_step(PowerState::Awake, PowerTrigger::MountRequested),
        PowerState::Mounted
    );
    assert_eq!(
        power_step(PowerState::Mounted, PowerTrigger::MountRequested),
        PowerState::Mounted
    );
    // Waking works from either sleep stage.
    assert_eq!(
        power_step(PowerState::Suspending(SleepType::Light), PowerTrigger::WakeRequested),
        PowerState::Awake
    );
    assert_eq!(
        power_step(PowerState::Suspended(SleepType::Deep), PowerTrigger::WakeRequested),
        PowerState::Awake
    );
}

#[test]
fn locate_by_id_finds_first_match() {
    let mut root = ViewNode::leaf(ViewKind::Home, None, Rectangle::new(0, 0, 100, 100));
    root.push_child(ViewNode::leaf(
        ViewKind::Menu,
        Some(ViewId::PresetMenu),
        Rectangle::new(0, 0, 10, 10),
    ));
    root.push_child(ViewNode::leaf(
        ViewKind::Menu,
        Some(ViewId::PresetMenu),
        Rectangle::new(20, 20, 30, 30),
    ));
    assert_eq!(root.locate_by_id(ViewId::PresetMenu), Some(0));
    assert_eq!(root.locate_by_id(ViewId::Frontlight), None);
    assert_eq!(root.locate_intermission(), None);
}

#[test]
fn paint_order_keeps_z_order_of_intersecting_children() {
    let mut root = ViewNode::leaf(ViewKind::Home, None, Rectangle::new(0, 0, 100, 100));
    root.push_child(ViewNode::leaf(ViewKind::Menu, None, Rectangle::new(0, 0, 30, 30)));
    root.push_child(ViewNode::leaf(ViewKind::Notification, None, Rectangle::new(60, 60, 90, 90)));
    root.push_child(ViewNode::leaf(ViewKind::Menu, None, Rectangle::new(10, 10, 40, 40)));

    let order = root.paint_order(&Rectangle::new(0, 0, 50, 50));
    assert_eq!(order, vec![0, 2]);
}

#[test]
fn overlapping_rectangle_covers_descendants() {
    let mut node = ViewNode::leaf(ViewKind::Menu, None, Rectangle::new(10, 10, 20, 20));
    node.push_child(ViewNode::leaf(ViewKind::Notification, None, Rectangle::new(5, 15, 25, 30)));
    let covering = node.overlapping_rectangle();
    assert_eq!(covering, Rectangle::new(5, 10, 25, 30));

    let leaf = ViewNode::leaf(ViewKind::Menu, None, Rectangle::new(1, 2, 3, 4));
    assert_eq!(leaf.overlapping_rectangle(), Rectangle::new(1, 2, 3, 4));
}

#[test]
fn overlay_layout_rects_stay_on_screen() {
    let fb = Rectangle::new(0, 0, 1404, 1872);
    let fl = frontlight_window_rect(&fb);
    assert!(fl.contained_in(&fb));
    assert_eq!(fl, Rectangle::new(351, 468, 1053, 1404));
    for index in 0..=255u8 {
        let n = notification_rect(&fb, index);
        assert!(n.contained_in(&fb));
    }
}

#[test]
fn producer_emissions_are_fixed() {
    assert_eq!(clock_tick_emission(), Event::ClockTick);
    assert_eq!(battery_tick_emission(), Event::BatteryTick);
    assert_eq!(CLOCK_REFRESH_SECS, 60);
    assert_eq!(BATTERY_REFRESH_SECS, 299);
    assert!(idle_timer_continues(IdleOutcome::Activity));
    assert!(idle_timer_continues(IdleOutcome::TimedOut));
    assert!(!idle_timer_continues(IdleOutcome::Disconnected));
}
