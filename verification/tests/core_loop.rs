//! Scenario tests driving the consumer loop's decision core.

use std::collections::VecDeque;

use plato_core::context::{Context, LightLevels, Metadata, Settings};
use plato_core::dispatch::{Action, CoreState, PaintKind, Script};
use plato_core::event::{
    ButtonCode, ButtonStatus, DeviceEvent, EntryId, Event, GestureEvent, SleepType, UpdateMode,
    ViewId,
};
use plato_core::geom::Rectangle;
use plato_core::merger::{idle_timer_emission, IdleOutcome};
use plato_core::power::PowerState;
use plato_core::view_tree::{IntermissionKind, ViewKind};

fn test_settings() -> Settings {
    Settings {
        wifi: true,
        frontlight: true,
        frontlight_levels: LightLevels { intensity: 400, warmth: 120 },
        sleep_secs: 600,
        library_path: String::from("library"),
    }
}

fn screen() -> Rectangle {
    Rectangle::new(0, 0, 1404, 1872)
}

fn fresh_state() -> CoreState {
    let ctx = Context::new(
        test_settings(),
        Metadata { entries: vec![1, 2, 3] },
        String::from("metadata.json"),
    );
    CoreState::new(ctx, screen())
}

fn power_button() -> Event {
    Event::Device(DeviceEvent::Button {
        code: ButtonCode::Power,
        status: ButtonStatus::Pressed,
    })
}

#[test]
fn power_button_suspend_cycle() {
    // Pressing power while awake prepares a deep sleep; processing the
    // queued events pushes the sleeping overlay, drains the ledger and
    // suspends, persisting each document exactly once.
    let mut state = fresh_state();
    let mut external: VecDeque<Event> = VecDeque::new();

    let actions = state.step(power_button());
    assert!(actions.is_empty());
    let next = state.take_next(&mut external).unwrap();
    assert_eq!(next, Event::PrepareForSleep(SleepType::Deep));

    let actions = state.step(next);
    assert!(actions.is_empty());
    assert_eq!(state.power, PowerState::Suspending(SleepType::Deep));
    assert_eq!(
        state.tree.children.last().unwrap().kind,
        ViewKind::Intermission(IntermissionKind::Sleeping)
    );

    // The overlay's render comes first, then the suspend event.
    let render = state.take_next(&mut external).unwrap();
    assert_eq!(render, Event::Render(screen(), UpdateMode::Gui));
    let actions = state.step(render);
    assert_eq!(
        actions,
        vec![
            Action::Paint(screen(), PaintKind::Tree),
            Action::Refresh(screen(), UpdateMode::Gui),
        ]
    );
    state.refresh_submitted(17, screen());
    assert_eq!(state.ledger.len(), 1);

    let suspend = state.take_next(&mut external).unwrap();
    assert_eq!(suspend, Event::Suspend);
    let actions = state.step(suspend);
    assert_eq!(
        actions,
        vec![
            Action::Wait(17),
            Action::SaveSettings,
            Action::SaveMetadata,
            Action::DeviceSuspend,
            Action::RunScript(Script::Suspend),
        ]
    );
    assert!(state.ledger.is_empty());
    assert_eq!(state.power, PowerState::Suspended(SleepType::Deep));
    assert_eq!(actions.iter().filter(|a| **a == Action::SaveSettings).count(), 1);
    assert_eq!(actions.iter().filter(|a| **a == Action::SaveMetadata).count(), 1);
    assert!(state.take_next(&mut external).is_none());
}

#[test]
fn power_button_wakes_from_deep_sleep() {
    let mut state = fresh_state();
    let mut external: VecDeque<Event> = VecDeque::new();
    state.step(Event::PrepareForSleep(SleepType::Deep));
    state.step(Event::Suspend);
    assert_eq!(state.power, PowerState::Suspended(SleepType::Deep));
    // Drop the queued render/suspend follow-ups of the sleep entry.
    while state.take_next(&mut external).is_some() {}

    let actions = state.step(power_button());
    assert_eq!(actions, vec![Action::RunScript(Script::Resume)]);
    assert_eq!(state.power, PowerState::Awake);
    // The intermission is gone and its rectangle re-exposed, then the
    // indicators refresh.
    assert!(state.tree.children.is_empty());
    assert_eq!(state.take_next(&mut external).unwrap(), Event::Expose(screen()));
    assert_eq!(state.take_next(&mut external).unwrap(), Event::ClockTick);
    assert_eq!(state.take_next(&mut external).unwrap(), Event::BatteryTick);
}

#[test]
fn other_button_swallowed_in_deep_sleep() {
    let mut state = fresh_state();
    let mut external: VecDeque<Event> = VecDeque::new();
    state.step(Event::PrepareForSleep(SleepType::Deep));
    state.step(Event::Suspend);
    while state.take_next(&mut external).is_some() {}

    let actions = state.step(Event::Device(DeviceEvent::Button {
        code: ButtonCode::Left,
        status: ButtonStatus::Pressed,
    }));
    assert_eq!(actions, vec![Action::RunScript(Script::Suspend)]);
    assert_eq!(state.power, PowerState::Suspended(SleepType::Deep));
}

#[test]
fn any_button_wakes_from_light_sleep() {
    let mut state = fresh_state();
    let mut external: VecDeque<Event> = VecDeque::new();
    state.step(Event::PrepareForSleep(SleepType::Light));
    state.step(Event::Suspend);
    while state.take_next(&mut external).is_some() {}

    let actions = state.step(Event::Device(DeviceEvent::Button {
        code: ButtonCode::Left,
        status: ButtonStatus::Pressed,
    }));
    assert_eq!(state.power, PowerState::Awake);
    assert_eq!(actions.len(), 2);
    assert_eq!(actions[0], Action::RunScript(Script::Resume));
    assert!(matches!(actions[1], Action::DispatchToView(Event::Device(_))));
}

#[test]
fn idle_timeout_emits_one_sleep_event() {
    // One elapsed idle period emits exactly one light-sleep request;
    // activity and shutdown emit nothing.
    assert_eq!(
        idle_timer_emission(IdleOutcome::TimedOut),
        Some(Event::PrepareForSleep(SleepType::Light))
    );
    assert_eq!(idle_timer_emission(IdleOutcome::Activity), None);
    assert_eq!(idle_timer_emission(IdleOutcome::Disconnected), None);

    let mut state = fresh_state();
    let actions = state.step(Event::PrepareForSleep(SleepType::Light));
    assert!(actions.is_empty());
    assert_eq!(state.power, PowerState::Suspending(SleepType::Light));
}

#[test]
fn mount_twice_is_idempotent() {
    let mut state = fresh_state();
    let mut external: VecDeque<Event> = VecDeque::new();

    let actions = state.step(Event::Mount);
    assert_eq!(state.power, PowerState::Mounted);
    assert!(state.context.mounted);
    assert_eq!(
        actions,
        vec![
            Action::SaveMetadata,
            Action::SetFrontlight(LightLevels { intensity: 0, warmth: 0 }),
            Action::RunScript(Script::WifiDisable),
            Action::RunScript(Script::UsbEnable),
        ]
    );
    assert_eq!(
        state.tree.children.last().unwrap().kind,
        ViewKind::Intermission(IntermissionKind::Mounted)
    );
    let children_before = state.tree.children.len();
    assert_eq!(
        state.take_next(&mut external).unwrap(),
        Event::Render(screen(), UpdateMode::Full)
    );

    // The second mount has no side effect at all: no actions, no overlay,
    // no queued render, no further persistence.
    let actions = state.step(Event::Mount);
    assert!(actions.is_empty());
    assert_eq!(state.tree.children.len(), children_before);
    assert!(state.take_next(&mut external).is_none());
    assert_eq!(state.power, PowerState::Mounted);
}

#[test]
fn followups_drain_before_external_events() {
    // Follow-ups enqueued during handling are consumed before any event
    // received after the handled one.
    let mut state = fresh_state();
    let mut external: VecDeque<Event> = VecDeque::new();
    external.push_back(Event::ClockTick);
    state.enqueue(Event::BatteryTick);
    state.enqueue(Event::Back);

    assert_eq!(state.take_next(&mut external).unwrap(), Event::BatteryTick);
    assert_eq!(state.take_next(&mut external).unwrap(), Event::Back);
    assert_eq!(state.take_next(&mut external).unwrap(), Event::ClockTick);
    assert!(state.take_next(&mut external).is_none());
}

#[test]
fn closing_overlay_exposes_its_rectangle() {
    let mut state = fresh_state();
    let mut external: VecDeque<Event> = VecDeque::new();
    let menu_rect = Rectangle::new(100, 200, 500, 900);

    // First toggle opens the menu and renders it.
    let actions = state.step(Event::TogglePresetMenu(menu_rect, 0));
    assert!(actions.is_empty());
    assert_eq!(
        state.take_next(&mut external).unwrap(),
        Event::Render(menu_rect, UpdateMode::Gui)
    );

    // Second toggle removes it: exactly one Expose for its rectangle.
    let actions = state.step(Event::TogglePresetMenu(menu_rect, 0));
    assert!(actions.is_empty());
    assert_eq!(state.take_next(&mut external).unwrap(), Event::Expose(menu_rect));
    assert!(state.take_next(&mut external).is_none());
    assert!(state.tree.children.is_empty());
}

#[test]
fn close_by_id_exposes_covering_rectangle() {
    let mut state = fresh_state();
    let mut external: VecDeque<Event> = VecDeque::new();
    let actions = state.step(Event::Show(ViewId::Frontlight));
    assert!(actions.is_empty());
    let rendered = state.take_next(&mut external).unwrap();
    let window_rect = match rendered {
        Event::Render(r, UpdateMode::Gui) => r,
        other => panic!("expected a render request, got {:?}", other),
    };

    let actions = state.step(Event::Close(ViewId::Frontlight));
    assert!(actions.is_empty());
    assert_eq!(state.take_next(&mut external).unwrap(), Event::Expose(window_rect));
    assert!(state.tree.children.is_empty());
}

#[test]
fn power_off_drains_ledger_before_full_refresh() {
    // Two outstanding updates, one overlapping the panel: both are waited
    // out before the final full-panel paint.
    let mut state = fresh_state();
    state.refresh_submitted(3, Rectangle::new(0, 0, 700, 900));
    state.refresh_submitted(4, Rectangle::new(700, 900, 1404, 1872));

    let actions = state.step(Event::Gesture(GestureEvent::HoldButton(ButtonCode::Power)));
    assert_eq!(
        actions,
        vec![
            Action::Wait(3),
            Action::Wait(4),
            Action::PaintIntermission(IntermissionKind::PoweredOff, screen()),
            Action::Refresh(screen(), UpdateMode::Full),
            Action::Exit,
        ]
    );
    assert!(state.ledger.is_empty());
}

#[test]
fn render_waits_out_overlapping_updates_only() {
    let mut state = fresh_state();
    state.refresh_submitted(8, Rectangle::new(0, 0, 200, 200));
    state.refresh_submitted(9, Rectangle::new(1000, 1000, 1200, 1200));

    let target = Rectangle::new(100, 100, 300, 300);
    let actions = state.step(Event::Render(target, UpdateMode::Partial));
    assert_eq!(
        actions,
        vec![
            Action::Wait(8),
            Action::Paint(target, PaintKind::Tree),
            Action::Refresh(target, UpdateMode::Partial),
        ]
    );
    // The disjoint update stays outstanding.
    assert_eq!(state.ledger.len(), 1);
}

#[test]
fn expose_patches_crack_in_gui_mode() {
    let mut state = fresh_state();
    let crack = Rectangle::new(10, 10, 50, 50);
    let actions = state.step(Event::Expose(crack));
    assert_eq!(
        actions,
        vec![
            Action::Paint(crack, PaintKind::Crack),
            Action::Refresh(crack, UpdateMode::Gui),
        ]
    );
}

#[test]
fn open_and_back_restore_previous_root() {
    let mut state = fresh_state();
    let actions = state.step(Event::Open(42));
    assert_eq!(actions, vec![Action::TryOpen(42)]);
    let actions = state.open_result(42, true);
    assert!(actions.is_empty());
    assert_eq!(state.tree.kind, ViewKind::Reader(42));
    assert_eq!(state.history.len(), 1);

    let actions = state.step(Event::Back);
    assert_eq!(actions, vec![Action::DispatchToView(Event::Reseed)]);
    assert_eq!(state.tree.kind, ViewKind::Home);
    assert!(state.history.is_empty());
}

#[test]
fn failed_open_becomes_invalid_event() {
    let mut state = fresh_state();
    state.step(Event::Open(7));
    let actions = state.open_result(7, false);
    assert_eq!(actions, vec![Action::DispatchToView(Event::Invalid(7))]);
    assert_eq!(state.tree.kind, ViewKind::Home);
    assert!(state.history.is_empty());
}

#[test]
fn selections_are_handled_centrally() {
    let mut state = fresh_state();
    let mut external: VecDeque<Event> = VecDeque::new();

    let actions = state.step(Event::Select(EntryId::ToggleInverted));
    assert_eq!(actions, vec![Action::ToggleInverted]);
    assert!(state.context.inverted);
    assert_eq!(
        state.take_next(&mut external).unwrap(),
        Event::Render(screen(), UpdateMode::Gui)
    );

    let actions = state.step(Event::Select(EntryId::ToggleWifi));
    assert_eq!(actions, vec![Action::RunScript(Script::WifiDisable)]);
    assert!(!state.context.settings.wifi);
    let actions = state.step(Event::Select(EntryId::ToggleWifi));
    assert_eq!(actions, vec![Action::RunScript(Script::WifiEnable)]);

    let actions = state.step(Event::Select(EntryId::Quit));
    assert_eq!(actions, vec![Action::Exit]);
    let actions = state.step(Event::Select(EntryId::StartNickel));
    assert_eq!(actions, vec![Action::RemoveBootlock, Action::Exit]);
}

#[test]
fn screenshot_pushes_notification_overlay() {
    let mut state = fresh_state();
    let mut external: VecDeque<Event> = VecDeque::new();
    let actions = state.step(Event::Select(EntryId::TakeScreenshot));
    assert_eq!(actions, vec![Action::SaveScreenshot]);

    let actions = state.screenshot_result();
    assert!(actions.is_empty());
    assert_eq!(state.context.notification_index, 1);
    let (notif_kind, notif_id, notif_rect) = {
        let notif = state.tree.children.last().unwrap();
        (notif.kind, notif.id, notif.rect)
    };
    assert_eq!(notif_kind, ViewKind::Notification);
    assert_eq!(notif_id, Some(ViewId::TakeScreenshotNotif));
    assert_eq!(
        state.take_next(&mut external).unwrap(),
        Event::Render(notif_rect, UpdateMode::Gui)
    );
}

#[test]
fn repeated_sleep_request_is_swallowed() {
    let mut state = fresh_state();
    let mut external: VecDeque<Event> = VecDeque::new();
    state.step(Event::PrepareForSleep(SleepType::Light));
    let children = state.tree.children.len();
    while state.take_next(&mut external).is_some() {}

    // A second request while already suspending: no second overlay, no
    // queued events, same state.
    let actions = state.step(Event::PrepareForSleep(SleepType::Deep));
    assert!(actions.is_empty());
    assert_eq!(state.tree.children.len(), children);
    assert_eq!(state.power, PowerState::Suspending(SleepType::Light));
    assert!(state.take_next(&mut external).is_none());
}

#[test]
fn wake_without_intermission_still_refreshes_indicators() {
    let mut state = fresh_state();
    let mut external: VecDeque<Event> = VecDeque::new();
    state.step(Event::PrepareForSleep(SleepType::Deep));
    while state.take_next(&mut external).is_some() {}
    // Remove the sleeping overlay behind the core's back, as a widget
    // could have.
    state.tree.children.clear();
    state.step(Event::Suspend);
    while state.take_next(&mut external).is_some() {}

    state.step(power_button());
    assert_eq!(state.take_next(&mut external).unwrap(), Event::ClockTick);
    assert_eq!(state.take_next(&mut external).unwrap(), Event::BatteryTick);
    assert!(state.take_next(&mut external).is_none());
}

#[test]
fn frontlight_window_respects_disabled_frontlight() {
    let mut state = fresh_state();
    state.context.settings.frontlight = false;
    let mut external: VecDeque<Event> = VecDeque::new();
    let actions = state.step(Event::Show(ViewId::Frontlight));
    assert!(actions.is_empty());
    assert!(state.tree.children.is_empty());
    assert!(state.take_next(&mut external).is_none());
}

#[test]
fn ticks_are_routed_to_the_views() {
    let mut state = fresh_state();
    let actions = state.step(Event::ClockTick);
    assert_eq!(actions, vec![Action::DispatchToView(Event::ClockTick)]);
    let actions = state.step(Event::BatteryTick);
    assert_eq!(actions, vec![Action::DispatchToView(Event::BatteryTick)]);
}
