//! The consumer loop's decision core.
//!
//! One `CoreState` is owned by the single consumer thread.  Each event taken
//! off the merged stream goes through `step`, which mutates the state and
//! returns the ordered list of outward actions the driver around the loop
//! must perform: run a script, persist a document, submit a refresh, wait on
//! a token, hand an event to the view catalogue's generic handler.  Whatever
//! the hardware then reports is fed back in through `refresh_submitted`.
//!
//! Follow-up events raised while handling one event go onto the pending bus
//! and are all consumed (`take_next`) before the next externally received
//! event: multi-step reactions are atomic with respect to new input.

use vstd::prelude::*;
use std::collections::VecDeque;
use crate::context::{Context, LightLevels};
use crate::event::{
    ButtonCode, ButtonStatus, DeviceEvent, EntryId, Event, GestureEvent, SleepType, UpdateMode,
    ViewId,
};
use crate::geom::Rectangle;
use crate::ledger::UpdateLedger;
use crate::power::{spec_power_step, PowerState, PowerTrigger};
use crate::view_tree::{IntermissionKind, ViewKind, ViewNode};

verus! {

/// External process hooks, invoked fire-and-forget: their exit status never
/// feeds back into the state machine.
#[derive(Clone, Copy, Debug, PartialEq, Eq, Structural)]
pub enum Script {
    Resume,
    Suspend,
    WifiEnable,
    WifiDisable,
    UsbEnable,
}

/// Which painting pass a refresh window needs: the whole subtree, or only
/// the content beneath a just-removed overlay (the crack left behind).
#[derive(Clone, Copy, Debug, PartialEq, Eq, Structural)]
pub enum PaintKind {
    Tree,
    Crack,
}

/// One outward effect of a dispatch step, to be performed in order by the
/// unverified driver around the loop.
#[derive(Clone, Copy, Debug, PartialEq, Eq, Structural)]
pub enum Action {
    /// Route the event to the view catalogue's generic handler; events it
    /// raises come back through `CoreState::enqueue`.
    DispatchToView(Event),
    RunScript(Script),
    SaveSettings,
    SaveMetadata,
    /// Reload the metadata document and re-import, through
    /// `reload_replace` and `reload_append`.
    ReloadLibrary,
    /// Invoke the device's low-power entry action.
    DeviceSuspend,
    /// Block until the refresh operation behind this token has completed.
    Wait(u32),
    /// Repaint the region into the frame buffer; report the refresh token
    /// back through `refresh_submitted`.
    Paint(Rectangle, PaintKind),
    /// Submit the painted region to the display driver.
    Refresh(Rectangle, UpdateMode),
    /// Paint a final intermission screen directly, outside the tree.
    PaintIntermission(IntermissionKind, Rectangle),
    ToggleInverted,
    ToggleMonochrome,
    SetFrontlight(LightLevels),
    SaveScreenshot,
    /// Try to open the document; report through `open_result`.
    TryOpen(u64),
    RemoveBootlock,
    /// Leave the consumer loop.
    Exit,
}

/// One `Wait` action per outstanding entry, in ledger order.
pub open spec fn wait_actions(entries: Seq<(u32, Rectangle)>) -> Seq<Action> {
    entries.map_values(|e: (u32, Rectangle)| Action::Wait(e.0))
}

/// `post` is `pre` with the bus extended by `tail` and nothing else
/// touched.
pub open spec fn spec_only_bus_extended(pre: CoreState, post: CoreState, tail: Seq<Event>)
    -> bool {
    &&& post.power == pre.power
    &&& post.context == pre.context
    &&& post.tree == pre.tree
    &&& post.history == pre.history
    &&& post.ledger == pre.ledger
    &&& post.fb_rect == pre.fb_rect
    &&& post.bus@ == pre.bus@ + tail
}

/// The wake transition: awake again, the suspended flag cleared, the first
/// intermission overlay (if any) removed with exactly one `Expose` for the
/// rectangle it occupied, and a clock and battery refresh queued — all
/// before the next external event can be taken.
pub open spec fn spec_wake_transition(pre: CoreState, post: CoreState) -> bool {
    &&& post.power == PowerState::Awake
    &&& !post.context.suspended
    &&& post.context.settings == pre.context.settings
    &&& post.context.metadata == pre.context.metadata
    &&& post.context.filename == pre.context.filename
    &&& post.context.notification_index == pre.context.notification_index
    &&& post.context.inverted == pre.context.inverted
    &&& post.context.monochrome == pre.context.monochrome
    &&& post.context.plugged == pre.context.plugged
    &&& post.context.mounted == pre.context.mounted
    &&& post.context.sleep_type == pre.context.sleep_type
    &&& post.history == pre.history
    &&& post.ledger == pre.ledger
    &&& post.fb_rect == pre.fb_rect
    &&& post.tree.kind == pre.tree.kind
    &&& post.tree.id == pre.tree.id
    &&& post.tree.rect == pre.tree.rect
    &&& if exists|i: int|
        crate::view_tree::is_first_intermission(pre.tree.children@, i) {
        let i = choose|i: int|
            crate::view_tree::is_first_intermission(pre.tree.children@, i);
        post.tree.children@ == pre.tree.children@.remove(i)
            && post.bus@ == pre.bus@ + seq![
                Event::Expose(pre.tree.children@[i].rect),
                Event::ClockTick,
                Event::BatteryTick,
            ]
    } else {
        post.tree.children@ == pre.tree.children@
            && post.bus@ == pre.bus@ + seq![Event::ClockTick, Event::BatteryTick]
    }
}

/// Exact effect of routing an event, unchanged, to the view catalogue's
/// generic handler.
pub open spec fn spec_dispatched(pre: CoreState, post: CoreState, e: Event, actions: Seq<Action>)
    -> bool {
    post == pre && actions == seq![Action::DispatchToView(e)]
}

/// Exact effect of one raw input event (see `on_device`).
pub open spec fn spec_device_step(
    pre: CoreState,
    post: CoreState,
    de: DeviceEvent,
    actions: Seq<Action>,
) -> bool {
    match de {
        DeviceEvent::Button { code: ButtonCode::Power, status: ButtonStatus::Pressed } => {
            &&& pre.power.is_sleeping() ==> spec_wake_transition(pre, post)
                && actions == seq![Action::RunScript(Script::Resume)]
            &&& !pre.power.is_sleeping() ==> spec_only_bus_extended(pre, post,
                    seq![Event::PrepareForSleep(SleepType::Deep)]) && actions.len() == 0
        },
        DeviceEvent::Button { code: _, status: ButtonStatus::Pressed } => {
            &&& (pre.power.is_sleeping() && pre.context.sleep_type is Light)
                ==> spec_wake_transition(pre, post) && actions == seq![
                    Action::RunScript(Script::Resume),
                    Action::DispatchToView(Event::Device(de)),
                ]
            &&& (pre.power.is_sleeping() && pre.context.sleep_type is Deep)
                ==> post == pre && actions == seq![Action::RunScript(Script::Suspend)]
            &&& !pre.power.is_sleeping() ==> spec_dispatched(pre, post, Event::Device(de), actions)
        },
        _ => spec_dispatched(pre, post, Event::Device(de), actions),
    }
}

/// Exact effect of one gesture (see `on_gesture`).
pub open spec fn spec_gesture_step(
    pre: CoreState,
    post: CoreState,
    ge: GestureEvent,
    actions: Seq<Action>,
) -> bool {
    match ge {
        GestureEvent::HoldButton(ButtonCode::Power) => {
            &&& post.ledger@.len() == 0
            &&& actions == wait_actions(pre.ledger@) + seq![
                Action::PaintIntermission(IntermissionKind::PoweredOff, pre.fb_rect),
                Action::Refresh(pre.fb_rect, UpdateMode::Full),
                Action::Exit,
            ]
            &&& post.power == pre.power
            &&& post.context == pre.context
            &&& post.tree == pre.tree
            &&& post.history == pre.history
            &&& post.bus@ == pre.bus@
            &&& post.fb_rect == pre.fb_rect
        },
        _ => spec_dispatched(pre, post, Event::Gesture(ge), actions),
    }
}

/// Exact effect of a sleep request (see `on_prepare_sleep`): only an awake
/// device starts to sleep; while already sleeping — or mounted, from which
/// the transition table has no edge into sleep — the request is swallowed.
pub open spec fn spec_prepare_sleep_step(
    pre: CoreState,
    post: CoreState,
    kind: SleepType,
    actions: Seq<Action>,
) -> bool {
    &&& actions.len() == 0
    &&& post.power == spec_power_step(pre.power, PowerTrigger::SleepRequested(kind))
    &&& (pre.power is Awake ==> {
        &&& post.power == PowerState::Suspending(kind)
        &&& post.context.suspended
        &&& post.context.sleep_type == kind
        &&& post.context.settings == pre.context.settings
        &&& post.context.metadata == pre.context.metadata
        &&& post.tree.children@.len() == pre.tree.children@.len() + 1
        &&& (forall|k: int| 0 <= k < pre.tree.children@.len()
            ==> post.tree.children@[k] == pre.tree.children@[k])
        &&& post.tree.children@.last().kind
            == ViewKind::Intermission(IntermissionKind::Sleeping)
        &&& post.tree.children@.last().id == Some(ViewId::SleepIntermission)
        &&& post.tree.children@.last().rect == pre.fb_rect
        &&& post.bus@ == pre.bus@ + seq![
            Event::Render(pre.fb_rect, UpdateMode::Gui),
            Event::Suspend,
        ]
        &&& post.history == pre.history
        &&& post.ledger == pre.ledger
        &&& post.fb_rect == pre.fb_rect
    })
    &&& (!(pre.power is Awake) ==> post == pre)
}

/// Exact effect of processing `Suspend` (see `on_suspend`): from the
/// suspending state the ledger drains ahead of the persistence and
/// low-power work; from any other state nothing happens.
pub open spec fn spec_suspend_step(pre: CoreState, post: CoreState, actions: Seq<Action>)
    -> bool {
    &&& post.power == spec_power_step(pre.power, PowerTrigger::SuspendProcessed)
    &&& (pre.power matches PowerState::Suspending(k) ==> {
        &&& post.ledger@.len() == 0
        &&& actions == wait_actions(pre.ledger@) + seq![
            Action::SaveSettings,
            Action::SaveMetadata,
            Action::DeviceSuspend,
            Action::RunScript(Script::Suspend),
        ]
        &&& post.power == PowerState::Suspended(k)
        &&& post.context == pre.context
        &&& post.bus@ == pre.bus@
        &&& post.tree == pre.tree
        &&& post.history == pre.history
        &&& post.fb_rect == pre.fb_rect
    })
    &&& (!(pre.power is Suspending) ==> post == pre && actions.len() == 0)
}

/// Exact effect of a `Mount` (see `on_mount`).
pub open spec fn spec_mount_step(pre: CoreState, post: CoreState, actions: Seq<Action>) -> bool {
    &&& post.power == spec_power_step(pre.power, PowerTrigger::MountRequested)
    &&& (pre.power is Mounted ==> post == pre && actions.len() == 0)
    &&& (pre.power.is_sleeping() ==> post == pre && actions.len() == 0)
    &&& (pre.power is Awake ==> {
        &&& post.power == PowerState::Mounted
        &&& post.context.mounted
        &&& !post.context.suspended
        &&& post.context.settings == pre.context.settings
        &&& post.context.metadata == pre.context.metadata
        &&& post.history@.len() == 0
        &&& post.tree.kind == spec_restored_root(pre).kind
        &&& post.tree.rect == spec_restored_root(pre).rect
        &&& post.tree.children@.len() == spec_restored_root(pre).children@.len() + 1
        &&& (forall|k: int| 0 <= k < spec_restored_root(pre).children@.len()
            ==> post.tree.children@[k] == spec_restored_root(pre).children@[k])
        &&& post.tree.children@.last().kind
            == ViewKind::Intermission(IntermissionKind::Mounted)
        &&& post.tree.children@.last().id == Some(ViewId::MountIntermission)
        &&& post.tree.children@.last().rect == pre.fb_rect
        &&& post.bus@ == pre.bus@ + seq![Event::Render(pre.fb_rect, UpdateMode::Full)]
        &&& post.ledger == pre.ledger
        &&& post.fb_rect == pre.fb_rect
        &&& actions == spec_mount_actions(pre)
    })
}

/// Exact effect of a `Render` (see `on_render`).
pub open spec fn spec_render_step(
    pre: CoreState,
    post: CoreState,
    rect: Rectangle,
    mode: UpdateMode,
    actions: Seq<Action>,
) -> bool {
    &&& post.ledger.none_overlapping(rect)
    &&& post.ledger@ == pre.ledger@.filter(|e: (u32, Rectangle)| !e.1.spec_overlaps(rect))
    &&& actions == wait_actions(pre.ledger@.filter(
            |e: (u32, Rectangle)| e.1.spec_overlaps(rect)))
        + seq![Action::Paint(rect, PaintKind::Tree), Action::Refresh(rect, mode)]
    &&& spec_same_but_ledger(pre, post)
}

/// Exact effect of a `RenderNoWait` (see `on_render_no_wait`).
pub open spec fn spec_render_no_wait_step(
    pre: CoreState,
    post: CoreState,
    rect: Rectangle,
    mode: UpdateMode,
    actions: Seq<Action>,
) -> bool {
    post == pre && actions == seq![
        Action::Paint(rect, PaintKind::Tree),
        Action::Refresh(rect, mode),
    ]
}

/// Exact effect of an `Expose` (see `on_expose`).
pub open spec fn spec_expose_step(
    pre: CoreState,
    post: CoreState,
    rect: Rectangle,
    actions: Seq<Action>,
) -> bool {
    &&& post.ledger.none_overlapping(rect)
    &&& post.ledger@ == pre.ledger@.filter(|e: (u32, Rectangle)| !e.1.spec_overlaps(rect))
    &&& actions == wait_actions(pre.ledger@.filter(
            |e: (u32, Rectangle)| e.1.spec_overlaps(rect)))
        + seq![Action::Paint(rect, PaintKind::Crack), Action::Refresh(rect, UpdateMode::Gui)]
    &&& spec_same_but_ledger(pre, post)
}

/// Exact effect of an `Open` request (see `on_open`): the collaborator is
/// asked; its verdict comes back through `open_result`.
pub open spec fn spec_open_step(pre: CoreState, post: CoreState, doc: u64, actions: Seq<Action>)
    -> bool {
    post == pre && actions == seq![Action::TryOpen(doc)]
}

/// Exact effect of an `OpenToc` (see `on_open_toc`).
pub open spec fn spec_open_toc_step(
    pre: CoreState,
    post: CoreState,
    doc: u64,
    actions: Seq<Action>,
) -> bool {
    &&& post.history@ == pre.history@.push(pre.tree)
    &&& post.tree.kind == ViewKind::Reader(doc)
    &&& post.tree.rect == pre.fb_rect
    &&& post.tree.children@.len() == 0
    &&& post.power == pre.power
    &&& post.context == pre.context
    &&& post.bus@ == pre.bus@
    &&& post.ledger == pre.ledger
    &&& post.fb_rect == pre.fb_rect
    &&& actions.len() == 0
}

/// Exact effect of a `Back` (see `on_back`).
pub open spec fn spec_back_step(pre: CoreState, post: CoreState, actions: Seq<Action>) -> bool {
    &&& (pre.history@.len() > 0 ==> {
        &&& post.tree == pre.history@.last()
        &&& post.history@ == pre.history@.drop_last()
        &&& post.power == pre.power
        &&& post.context == pre.context
        &&& post.bus@ == pre.bus@
        &&& post.ledger == pre.ledger
        &&& post.fb_rect == pre.fb_rect
        &&& actions == seq![Action::DispatchToView(Event::Reseed)]
    })
    &&& (pre.history@.len() == 0 ==> post == pre && actions.len() == 0)
}

/// Exact effect of a preset-menu toggle (see `on_toggle_preset_menu`).
pub open spec fn spec_toggle_preset_step(
    pre: CoreState,
    post: CoreState,
    rect: Rectangle,
    actions: Seq<Action>,
) -> bool {
    &&& actions.len() == 0
    &&& ({
        let cs = pre.tree.children@;
        if exists|i: int| crate::view_tree::is_first_with_id(cs, ViewId::PresetMenu, i) {
            let i = choose|i: int| crate::view_tree::is_first_with_id(cs, ViewId::PresetMenu, i);
            &&& post.tree.children@ == cs.remove(i)
            &&& post.bus@ == pre.bus@ + seq![Event::Expose(cs[i].rect)]
        } else if rect.well_formed() {
            &&& post.tree.children@.len() == cs.len() + 1
            &&& (forall|k: int| 0 <= k < cs.len() ==> post.tree.children@[k] == cs[k])
            &&& post.tree.children@.last().kind == ViewKind::Menu
            &&& post.tree.children@.last().id == Some(ViewId::PresetMenu)
            &&& post.tree.children@.last().rect == rect
            &&& post.bus@ == pre.bus@ + seq![Event::Render(rect, UpdateMode::Gui)]
        } else {
            post.tree.children@ == cs && post.bus@ == pre.bus@
        }
    })
    &&& post.power == pre.power
    &&& post.context == pre.context
    &&& post.history == pre.history
    &&& post.ledger == pre.ledger
    &&& post.fb_rect == pre.fb_rect
}

/// Exact effect of `Show(Frontlight)` (see `on_show_frontlight`).
pub open spec fn spec_show_frontlight_step(pre: CoreState, post: CoreState, actions: Seq<Action>)
    -> bool {
    &&& actions.len() == 0
    &&& (!pre.context.settings.frontlight ==> post == pre)
    &&& (pre.context.settings.frontlight ==> {
        &&& post.tree.children@.len() == pre.tree.children@.len() + 1
        &&& (forall|k: int| 0 <= k < pre.tree.children@.len()
            ==> post.tree.children@[k] == pre.tree.children@[k])
        &&& post.tree.children@.last().kind == ViewKind::FrontlightWindow
        &&& post.tree.children@.last().id == Some(ViewId::Frontlight)
        &&& post.bus@.len() == pre.bus@.len() + 1
        &&& (forall|k: int| 0 <= k < pre.bus@.len() ==> post.bus@[k] == pre.bus@[k])
        &&& post.bus@.last() == Event::Render(
            post.tree.children@.last().rect, UpdateMode::Gui)
        &&& post.power == pre.power
        &&& post.context == pre.context
        &&& post.history == pre.history
        &&& post.ledger == pre.ledger
        &&& post.fb_rect == pre.fb_rect
    })
}

/// Exact effect of a `Close` (see `on_close`): removing an overlay always
/// enqueues exactly one `Expose` for a rectangle covering it.
pub open spec fn spec_close_step(
    pre: CoreState,
    post: CoreState,
    id: ViewId,
    actions: Seq<Action>,
) -> bool {
    &&& actions.len() == 0
    &&& ({
        let cs = pre.tree.children@;
        if exists|i: int| crate::view_tree::is_first_with_id(cs, id, i) {
            let i = choose|i: int| crate::view_tree::is_first_with_id(cs, id, i);
            &&& post.tree.children@ == cs.remove(i)
            &&& post.bus@.len() == pre.bus@.len() + 1
            &&& (forall|k: int| 0 <= k < pre.bus@.len() ==> post.bus@[k] == pre.bus@[k])
            &&& (post.bus@.last() matches Event::Expose(r)
                && cs[i].rect.spec_contains(r) && r.well_formed())
        } else {
            post.tree.children@ == cs && post.bus@ == pre.bus@
        }
    })
    &&& post.power == pre.power
    &&& post.context == pre.context
    &&& post.history == pre.history
    &&& post.ledger == pre.ledger
    &&& post.fb_rect == pre.fb_rect
}

/// Exact effect of a central selection (see `on_select`).
pub open spec fn spec_select_step(
    pre: CoreState,
    post: CoreState,
    entry: EntryId,
    actions: Seq<Action>,
) -> bool {
    &&& post.power == pre.power
    &&& post.tree == pre.tree
    &&& post.history == pre.history
    &&& post.ledger == pre.ledger
    &&& post.fb_rect == pre.fb_rect
    &&& post.context.metadata == pre.context.metadata
    &&& match entry {
        EntryId::ToggleInverted => {
            &&& post.context.inverted == !pre.context.inverted
            &&& post.context.settings == pre.context.settings
            &&& post.bus@ == pre.bus@ + seq![Event::Render(pre.fb_rect, UpdateMode::Gui)]
            &&& actions == seq![Action::ToggleInverted]
        },
        EntryId::ToggleMonochrome => {
            &&& post.context.monochrome == !pre.context.monochrome
            &&& post.context.settings == pre.context.settings
            &&& post.bus@ == pre.bus@ + seq![Event::Render(pre.fb_rect, UpdateMode::Gui)]
            &&& actions == seq![Action::ToggleMonochrome]
        },
        EntryId::ToggleWifi => {
            &&& post.context.settings.wifi == !pre.context.settings.wifi
            &&& post.bus@ == pre.bus@
            &&& actions == (if post.context.settings.wifi {
                seq![Action::RunScript(Script::WifiEnable)]
            } else {
                seq![Action::RunScript(Script::WifiDisable)]
            })
        },
        EntryId::TakeScreenshot => post == pre && actions == seq![Action::SaveScreenshot],
        EntryId::Reboot => post == pre && actions == seq![Action::Exit],
        EntryId::Quit => post == pre && actions == seq![Action::Exit],
        EntryId::StartNickel => post == pre
            && actions == seq![Action::RemoveBootlock, Action::Exit],
        EntryId::RemovePreset(_) => spec_dispatched(pre, post, Event::Select(entry), actions),
    }
}

/// Exact effect of a `Reload` (see `on_reload`).
pub open spec fn spec_reload_step(pre: CoreState, post: CoreState, actions: Seq<Action>) -> bool {
    post == pre
        && actions == seq![Action::ReloadLibrary, Action::DispatchToView(Event::Reseed)]
}

/// The FIFO drain law: with follow-ups `bus` pending and external events
/// `ext` not yet received, `take_next` consumes events in exactly the order
/// `bus + ext` — every follow-up enqueued while handling an event is
/// processed before any event received after it.
pub proof fn lemma_fifo_drain(bus: Seq<Event>, ext: Seq<Event>)
    ensures
        (bus + ext).len() == bus.len() + ext.len(),
        forall|i: int| 0 <= i < bus.len() ==> (bus + ext)[i] == bus[i],
        forall|j: int| 0 <= j < ext.len() ==> (bus + ext)[bus.len() + j] == ext[j],
{
}

/// No torn full refresh: if a token is outstanding for a region that
/// intersects any region `r2`, then the drain performed before a full-panel
/// operation (see `on_suspend` and the power-off path of `on_gesture`, whose
/// action lists start with `wait_actions` of the whole ledger) contains a
/// `Wait` for that token, ahead of everything that follows — and the ledger
/// it leaves behind holds nothing that overlaps `r2`.
pub proof fn lemma_drain_retires_overlapping(
    entries: Seq<(u32, Rectangle)>,
    i: int,
    r2: Rectangle,
)
    requires
        0 <= i < entries.len(),
        entries[i].1.spec_overlaps(r2),
    ensures
        wait_actions(entries).len() == entries.len(),
        wait_actions(entries)[i] == Action::Wait(entries[i].0),
{
}

/// Which power transition, if any, an event triggers in a given state.
pub open spec fn spec_trigger(pre: CoreState, e: Event) -> Option<PowerTrigger> {
    match e {
        Event::PrepareForSleep(k) => Some(PowerTrigger::SleepRequested(k)),
        Event::Suspend => Some(PowerTrigger::SuspendProcessed),
        Event::Mount => Some(PowerTrigger::MountRequested),
        Event::Device(DeviceEvent::Button { code, status: ButtonStatus::Pressed }) => {
            if pre.power.is_sleeping()
                && (code == ButtonCode::Power || pre.context.sleep_type is Light) {
                Some(PowerTrigger::WakeRequested)
            } else {
                None
            }
        },
        _ => None,
    }
}

/// `post` is `pre` with at most the ledger changed.
pub open spec fn spec_same_but_ledger(pre: CoreState, post: CoreState) -> bool {
    &&& post.power == pre.power
    &&& post.context == pre.context
    &&& post.tree == pre.tree
    &&& post.history == pre.history
    &&& post.bus@ == pre.bus@
    &&& post.fb_rect == pre.fb_rect
}

/// The root view that owns the screen again once the back-navigation stack
/// is replayed to its bottom.
pub open spec fn spec_restored_root(pre: CoreState) -> ViewNode {
    if pre.history@.len() > 0 {
        pre.history@[0]
    } else {
        pre.tree
    }
}

/// The outward actions of a first `Mount`: one `Back` notification per
/// stacked root, persistence of the metadata, the frontlight zeroed if it
/// is in use, the network hook if it was up, and finally the USB hook.
pub open spec fn spec_mount_actions(pre: CoreState) -> Seq<Action> {
    Seq::new(pre.history@.len(), |k: int| Action::DispatchToView(Event::Back))
        + seq![Action::SaveMetadata]
        + (if pre.context.settings.frontlight {
            seq![Action::SetFrontlight(LightLevels { intensity: 0, warmth: 0 })]
        } else {
            Seq::<Action>::empty()
        })
        + (if pre.context.settings.wifi {
            seq![Action::RunScript(Script::WifiDisable)]
        } else {
            Seq::<Action>::empty()
        })
        + seq![Action::RunScript(Script::UsbEnable)]
}

/// One `Wait` action per drained ledger entry, in order.
fn wait_actions_of(entries: &Vec<(u32, Rectangle)>) -> (actions: Vec<Action>)
    ensures
        actions@ == wait_actions(entries@),
{
    let mut actions: Vec<Action> = Vec::new();
    let n = entries.len();
    let mut i: usize = 0;
    while i < n
        invariant
            n == entries@.len(),
            i <= n,
            actions@.len() == i,
            forall|k: int| 0 <= k < i ==> actions@[k] == Action::Wait(entries@[k].0),
        decreases n - i,
    {
        actions.push(Action::Wait(entries[i].0));
        i += 1;
    }
    proof {
        assert(actions@ =~= wait_actions(entries@));
    }
    actions
}

/// The whole mutable state of the consumer loop.
pub struct CoreState {
    pub power: PowerState,
    pub context: Context,
    /// Root of the view tree; owns the screen, overlays are its children.
    pub tree: ViewNode,
    /// Previous roots, pushed when a document is opened over the current
    /// view; `Back` pops.
    pub history: Vec<ViewNode>,
    /// Follow-up events raised during dispatch, drained FIFO before the
    /// next external event.
    pub bus: VecDeque<Event>,
    pub ledger: UpdateLedger,
    /// The full screen in device pixels.
    pub fb_rect: Rectangle,
}

impl CoreState {
    /// Consistency of the whole loop state.  The session flags mirror the
    /// power state exactly; the ledger is a map; every tree root, current
    /// or stacked, owns the full screen.
    pub open spec fn wf(self) -> bool {
        &&& self.fb_rect.well_formed()
        &&& self.tree.wf()
        &&& self.tree.rect == self.fb_rect
        &&& forall|i: int| 0 <= i < self.tree.children@.len()
            ==> (#[trigger] self.tree.children@[i]).children@.len() == 0
        &&& forall|i: int| 0 <= i < self.history@.len()
            ==> (#[trigger] self.history@[i]).wf() && self.history@[i].rect == self.fb_rect
        &&& forall|i: int, j: int|
            0 <= i < self.history@.len() && 0 <= j < self.history@[i].children@.len()
                ==> (#[trigger] self.history@[i].children@[j]).children@.len() == 0
        &&& self.ledger.well_formed()
        &&& self.context.suspended == self.power.is_sleeping()
        &&& self.context.mounted == (self.power is Mounted)
        &&& (self.power matches PowerState::Suspending(k) ==> self.context.sleep_type == k)
        &&& (self.power matches PowerState::Suspended(k) ==> self.context.sleep_type == k)
    }

    /// A fresh loop state: awake, an empty ledger and bus, and a bare home
    /// view owning the screen.
    pub fn new(context: Context, fb_rect: Rectangle) -> (r: CoreState)
        requires
            fb_rect.well_formed(),
            !context.suspended,
            !context.mounted,
        ensures
            r.wf(),
            r.power == PowerState::Awake,
            r.context == context,
            r.tree.kind == ViewKind::Home,
            r.tree.rect == fb_rect,
            r.tree.children@.len() == 0,
            r.history@.len() == 0,
            r.bus@.len() == 0,
            r.ledger@.len() == 0,
            r.fb_rect == fb_rect,
    {
        CoreState {
            power: PowerState::Awake,
            context,
            tree: ViewNode::leaf(ViewKind::Home, None, fb_rect),
            history: Vec::new(),
            bus: VecDeque::new(),
            ledger: UpdateLedger::new(),
            fb_rect,
        }
    }

    /// The next event to dispatch: the pending bus strictly first, the
    /// external stream only once the bus is empty.  This realizes the FIFO
    /// drain guarantee: follow-ups raised while handling an event are all
    /// consumed before any event received after it.
    pub fn take_next(&mut self, external: &mut VecDeque<Event>) -> (r: Option<Event>)
        ensures
            old(self).bus@.len() > 0 ==> {
                &&& r == Some(old(self).bus@[0])
                &&& final(self).bus@ == old(self).bus@.subrange(1, old(self).bus@.len() as int)
                &&& final(external)@ == old(external)@
            },
            old(self).bus@.len() == 0 ==> {
                &&& final(self).bus@ == old(self).bus@
                &&& match r {
                    Some(e) => old(external)@.len() > 0 && e == old(external)@[0]
                        && final(external)@
                            == old(external)@.subrange(1, old(external)@.len() as int),
                    None => old(external)@.len() == 0 && final(external)@ == old(external)@,
                }
            },
            final(self).power == old(self).power,
            final(self).context == old(self).context,
            final(self).tree == old(self).tree,
            final(self).history == old(self).history,
            final(self).ledger == old(self).ledger,
            final(self).fb_rect == old(self).fb_rect,
            old(self).wf() ==> final(self).wf(),
    {
        match self.bus.pop_front() {
            Some(e) => Some(e),
            None => external.pop_front(),
        }
    }

    /// Enqueue a follow-up event.  The view catalogue's handlers (run by
    /// the driver for a `DispatchToView` action) feed the events they raise
    /// back in through this.
    pub fn enqueue(&mut self, e: Event)
        ensures
            final(self).bus@ == old(self).bus@.push(e),
            final(self).power == old(self).power,
            final(self).context == old(self).context,
            final(self).tree == old(self).tree,
            final(self).history == old(self).history,
            final(self).ledger == old(self).ledger,
            final(self).fb_rect == old(self).fb_rect,
            old(self).wf() ==> final(self).wf(),
    {
        self.bus.push_back(e);
    }

    /// Record the token the display driver returned for a submitted
    /// refresh.  Every token enters the ledger; it leaves only through a
    /// drain (a `Wait` action), never silently.
    pub fn refresh_submitted(&mut self, token: u32, rect: Rectangle)
        requires
            old(self).wf(),
        ensures
            final(self).wf(),
            crate::ledger::has_entry(final(self).ledger@, token, rect),
            forall|t: u32, r: Rectangle| t != token
                ==> crate::ledger::has_entry(final(self).ledger@, t, r)
                    == crate::ledger::has_entry(old(self).ledger@, t, r),
            final(self).power == old(self).power,
            final(self).context == old(self).context,
            final(self).bus@ == old(self).bus@,
            final(self).fb_rect == old(self).fb_rect,
    {
        self.ledger.insert(token, rect);
    }

    /// Handle the queued `Suspend` event: the blocking drain point.  Every
    /// still-outstanding update token is retired (a `Wait` action each, in
    /// ledger order) before anything else; then both documents are
    /// persisted, the device's low-power action runs, and the state becomes
    /// suspended.  From any state but `Suspending` the event does nothing:
    /// suspension is reachable only through `Suspending`.
    pub fn on_suspend(&mut self) -> (actions: Vec<Action>)
        requires
            old(self).wf(),
        ensures
            final(self).wf(),
            spec_suspend_step(*old(self), *final(self), actions@),
    {
        match self.power {
            PowerState::Suspending(k) => {
                let mut actions = self.drain_ledger_actions();
                actions.push(Action::SaveSettings);
                actions.push(Action::SaveMetadata);
                actions.push(Action::DeviceSuspend);
                actions.push(Action::RunScript(Script::Suspend));
                self.power = PowerState::Suspended(k);
                proof {
                    assert(actions@ =~= wait_actions(old(self).ledger@) + seq![
                        Action::SaveSettings,
                        Action::SaveMetadata,
                        Action::DeviceSuspend,
                        Action::RunScript(Script::Suspend),
                    ]);
                }
                actions
            },
            _ => Vec::new(),
        }
    }

    /// Resume side effects: the device leaves sleep on the matching
    /// button press.  The intermission overlay, if one is up, is removed and
    /// its rectangle re-exposed; the clock and battery indicators are asked
    /// to refresh; the external resume hook runs.
    pub fn wake(&mut self) -> (actions: Vec<Action>)
        requires
            old(self).wf(),
            old(self).power.is_sleeping(),
        ensures
            final(self).wf(),
            spec_wake_transition(*old(self), *final(self)),
            actions@ == seq![Action::RunScript(Script::Resume)],
    {
        self.power = PowerState::Awake;
        self.context.suspended = false;
        let located = self.tree.locate_intermission();
        match located {
            Some(i) => {
                let removed = self.tree.remove_child(i);
                self.bus.push_back(Event::Expose(removed.rect));
                proof {
                    let cs = old(self).tree.children@;
                    assert(crate::view_tree::is_first_intermission(cs, i as int));
                    let j = choose|j: int| crate::view_tree::is_first_intermission(cs, j);
                    crate::view_tree::lemma_first_intermission_unique(cs, i as int, j);
                }
            },
            None => {
                proof {
                    let cs = old(self).tree.children@;
                    assert forall|j: int| !crate::view_tree::is_first_intermission(cs, j) by {
                        if 0 <= j < cs.len() {
                            assert(!(cs[j].kind is Intermission));
                        }
                    }
                }
            },
        }
        self.bus.push_back(Event::ClockTick);
        self.bus.push_back(Event::BatteryTick);
        proof {
            let cs = old(self).tree.children@;
            if exists|j: int| crate::view_tree::is_first_intermission(cs, j) {
                let j = choose|j: int| crate::view_tree::is_first_intermission(cs, j);
                assert(self.bus@ =~= old(self).bus@ + seq![
                    Event::Expose(cs[j].rect),
                    Event::ClockTick,
                    Event::BatteryTick,
                ]);
            } else {
                assert(self.bus@ =~= old(self).bus@ + seq![Event::ClockTick, Event::BatteryTick]);
            }
        }
        let mut actions: Vec<Action> = Vec::new();
        actions.push(Action::RunScript(Script::Resume));
        proof {
            assert(actions@ =~= seq![Action::RunScript(Script::Resume)]);
        }
        actions
    }

    /// A raw event from the input driver.  The power button toggles between
    /// sleep preparation and wake; any other button wakes from a light
    /// sleep (and is then also delivered to the views), re-arms the
    /// external suspend action in a deep sleep, and is otherwise routed to
    /// the view tree.
    pub fn on_device(&mut self, de: DeviceEvent) -> (actions: Vec<Action>)
        requires
            old(self).wf(),
        ensures
            final(self).wf(),
            spec_device_step(*old(self), *final(self), de, actions@),
    {
        match de {
            DeviceEvent::Button { code: ButtonCode::Power, status: ButtonStatus::Pressed } => {
                if matches!(self.power, PowerState::Suspending(_) | PowerState::Suspended(_)) {
                    self.wake()
                } else {
                    self.bus.push_back(Event::PrepareForSleep(SleepType::Deep));
                    proof {
                        assert(self.bus@
                            =~= old(self).bus@ + seq![Event::PrepareForSleep(SleepType::Deep)]);
                    }
                    Vec::new()
                }
            },
            DeviceEvent::Button { code: _, status: ButtonStatus::Pressed } => {
                if matches!(self.power, PowerState::Suspending(_) | PowerState::Suspended(_)) {
                    if matches!(self.context.sleep_type, SleepType::Light) {
                        let mut actions = self.wake();
                        actions.push(Action::DispatchToView(Event::Device(de)));
                        proof {
                            assert(actions@ =~= seq![
                                Action::RunScript(Script::Resume),
                                Action::DispatchToView(Event::Device(de)),
                            ]);
                        }
                        actions
                    } else {
                        let mut actions: Vec<Action> = Vec::new();
                        actions.push(Action::RunScript(Script::Suspend));
                        proof {
                            assert(actions@ =~= seq![Action::RunScript(Script::Suspend)]);
                        }
                        actions
                    }
                } else {
                    self.dispatch_to_view(Event::Device(de))
                }
            },
            _ => self.dispatch_to_view(Event::Device(de)),
        }
    }

    /// Enter the suspending state: a "Sleeping" intermission
    /// overlay is pushed, a render for it is requested, and a `Suspend`
    /// event is queued behind it.  Only an awake device starts to sleep; a
    /// repeated request while already sleeping (or mounted) is swallowed.
    pub fn on_prepare_sleep(&mut self, kind: SleepType) -> (actions: Vec<Action>)
        requires
            old(self).wf(),
        ensures
            final(self).wf(),
            spec_prepare_sleep_step(*old(self), *final(self), kind, actions@),
    {
        if matches!(self.power, PowerState::Awake) {
            self.power = PowerState::Suspending(kind);
            self.context.suspended = true;
            self.context.sleep_type = kind;
            let interm = ViewNode::leaf(
                ViewKind::Intermission(IntermissionKind::Sleeping),
                Some(ViewId::SleepIntermission),
                self.fb_rect,
            );
            self.bus.push_back(Event::Render(self.fb_rect, UpdateMode::Gui));
            self.tree.push_child(interm);
            self.bus.push_back(Event::Suspend);
            proof {
                assert(self.bus@ =~= old(self).bus@ + seq![
                    Event::Render(old(self).fb_rect, UpdateMode::Gui),
                    Event::Suspend,
                ]);
            }
        }
        Vec::new()
    }

    /// A recognized gesture.  Holding the power button powers the device
    /// off: every outstanding update is retired, a final "Powered off"
    /// intermission is painted over the full panel with a full refresh (so
    /// no torn refresh can be on the way), and the loop exits.  Any other
    /// gesture goes to the views.
    pub fn on_gesture(&mut self, ge: GestureEvent) -> (actions: Vec<Action>)
        requires
            old(self).wf(),
        ensures
            final(self).wf(),
            spec_gesture_step(*old(self), *final(self), ge, actions@),
    {
        match ge {
            GestureEvent::HoldButton(ButtonCode::Power) => {
                let mut actions = self.drain_ledger_actions();
                actions.push(Action::PaintIntermission(
                    IntermissionKind::PoweredOff,
                    self.fb_rect,
                ));
                actions.push(Action::Refresh(self.fb_rect, UpdateMode::Full));
                actions.push(Action::Exit);
                proof {
                    assert(actions@ =~= wait_actions(old(self).ledger@) + seq![
                        Action::PaintIntermission(
                            IntermissionKind::PoweredOff,
                            old(self).fb_rect,
                        ),
                        Action::Refresh(old(self).fb_rect, UpdateMode::Full),
                        Action::Exit,
                    ]);
                }
                actions
            },
            _ => self.dispatch_to_view(Event::Gesture(ge)),
        }
    }

    /// Handle a `Mount` event: hand the device over as USB mass storage.
    /// Only an awake device mounts.  The back-navigation stack is replayed
    /// down to the root view (one `Back` notification per stacked root),
    /// the metadata persisted, the frontlight zeroed, the network disabled
    /// if it was up, a "Mounted" intermission pushed and rendered with a
    /// full refresh, and the USB hook started.  A second `Mount` while
    /// already mounted performs no side effect at all.
    pub fn on_mount(&mut self) -> (actions: Vec<Action>)
        requires
            old(self).wf(),
        ensures
            final(self).wf(),
            spec_mount_step(*old(self), *final(self), actions@),
    {
        if !matches!(self.power, PowerState::Awake) {
            return Vec::new();
        }
        let mut actions: Vec<Action> = Vec::new();
        let ghost old_hist = self.history@;
        while self.history.len() > 0
            invariant
                forall|k: int| 0 <= k < self.history@.len()
                    ==> self.history@[k] == old_hist[k],
                self.history@.len() <= old_hist.len(),
                self.tree == if self.history@.len() == old_hist.len() {
                    old(self).tree
                } else {
                    old_hist[self.history@.len() as int]
                },
                actions@.len() == old_hist.len() - self.history@.len(),
                forall|k: int| 0 <= k < actions@.len()
                    ==> actions@[k] == Action::DispatchToView(Event::Back),
                self.power == old(self).power,
                self.context == old(self).context,
                self.bus == old(self).bus,
                self.ledger == old(self).ledger,
                self.fb_rect == old(self).fb_rect,
                old(self).wf(),
                old_hist == old(self).history@,
            decreases self.history@.len(),
        {
            actions.push(Action::DispatchToView(Event::Back));
            let v = self.history.pop().unwrap();
            self.tree = v;
        }
        actions.push(Action::SaveMetadata);
        if self.context.settings.frontlight {
            actions.push(Action::SetFrontlight(LightLevels { intensity: 0, warmth: 0 }));
        }
        if self.context.settings.wifi {
            actions.push(Action::RunScript(Script::WifiDisable));
        }
        let interm = ViewNode::leaf(
            ViewKind::Intermission(IntermissionKind::Mounted),
            Some(ViewId::MountIntermission),
            self.fb_rect,
        );
        self.bus.push_back(Event::Render(self.fb_rect, UpdateMode::Full));
        self.tree.push_child(interm);
        actions.push(Action::RunScript(Script::UsbEnable));
        self.power = PowerState::Mounted;
        self.context.mounted = true;
        proof {
            assert(self.bus@ =~= old(self).bus@
                + seq![Event::Render(old(self).fb_rect, UpdateMode::Full)]);
            assert(actions@ =~= spec_mount_actions(*old(self)));
        }
        actions
    }

    /// Handle a `Render` event: wait out every in-flight update overlapping
    /// the dirty region (so overlapping refreshes on one region stay
    /// serialized), repaint the region from the tree, and submit it with
    /// the requested mode.  The resulting token comes back through
    /// `refresh_submitted`.
    pub fn on_render(&mut self, rect: Rectangle, mode: UpdateMode) -> (actions: Vec<Action>)
        requires
            old(self).wf(),
        ensures
            final(self).wf(),
            spec_render_step(*old(self), *final(self), rect, mode, actions@),
    {
        let removed = self.ledger.remove_overlapping(rect);
        let mut actions = wait_actions_of(&removed);
        actions.push(Action::Paint(rect, PaintKind::Tree));
        actions.push(Action::Refresh(rect, mode));
        proof {
            assert(actions@ =~= wait_actions(old(self).ledger@.filter(
                    |e: (u32, Rectangle)| e.1.spec_overlaps(rect)))
                + seq![Action::Paint(rect, PaintKind::Tree), Action::Refresh(rect, mode)]);
        }
        actions
    }

    /// Handle a `RenderNoWait` event: begin the paint without retiring
    /// prior in-flight updates first — for callers that have already
    /// established the region is safe, such as a first paint.
    pub fn on_render_no_wait(&mut self, rect: Rectangle, mode: UpdateMode)
        -> (actions: Vec<Action>)
        requires
            old(self).wf(),
        ensures
            final(self).wf(),
            spec_render_no_wait_step(*old(self), *final(self), rect, mode, actions@),
    {
        let mut actions: Vec<Action> = Vec::new();
        actions.push(Action::Paint(rect, PaintKind::Tree));
        actions.push(Action::Refresh(rect, mode));
        proof {
            assert(actions@ =~= seq![
                Action::Paint(rect, PaintKind::Tree),
                Action::Refresh(rect, mode),
            ]);
        }
        actions
    }

    /// Handle an `Expose` event: patch the crack a removed overlay left
    /// behind, painting only the content beneath it, then refresh the
    /// region in the default interface mode.  Like a render, it first
    /// retires in-flight updates overlapping the region.
    pub fn on_expose(&mut self, rect: Rectangle) -> (actions: Vec<Action>)
        requires
            old(self).wf(),
        ensures
            final(self).wf(),
            spec_expose_step(*old(self), *final(self), rect, actions@),
    {
        let removed = self.ledger.remove_overlapping(rect);
        let mut actions = wait_actions_of(&removed);
        actions.push(Action::Paint(rect, PaintKind::Crack));
        actions.push(Action::Refresh(rect, UpdateMode::Gui));
        proof {
            assert(actions@ =~= wait_actions(old(self).ledger@.filter(
                    |e: (u32, Rectangle)| e.1.spec_overlaps(rect)))
                + seq![
                    Action::Paint(rect, PaintKind::Crack),
                    Action::Refresh(rect, UpdateMode::Gui),
                ]);
        }
        actions
    }

    /// Handle an `Open` request: the document-opening collaborator decides
    /// whether the document can be opened; its verdict comes back through
    /// `open_result`.
    pub fn on_open(&mut self, doc: u64) -> (actions: Vec<Action>)
        ensures
            spec_open_step(*old(self), *final(self), doc, actions@),
    {
        let mut actions: Vec<Action> = Vec::new();
        actions.push(Action::TryOpen(doc));
        proof {
            assert(actions@ =~= seq![Action::TryOpen(doc)]);
        }
        actions
    }

    /// The collaborator's verdict on an `Open` request.  On success the
    /// current root is pushed onto the history stack and a reader view for
    /// the document takes the screen.  On failure the request is turned
    /// into an `Invalid` event redelivered to the still-current root,
    /// rather than aborting the loop.
    pub fn open_result(&mut self, doc: u64, opened: bool) -> (actions: Vec<Action>)
        requires
            old(self).wf(),
        ensures
            final(self).wf(),
            opened ==> {
                &&& final(self).history@ == old(self).history@.push(old(self).tree)
                &&& final(self).tree.kind == ViewKind::Reader(doc)
                &&& final(self).tree.rect == old(self).fb_rect
                &&& final(self).tree.children@.len() == 0
                &&& final(self).power == old(self).power
                &&& final(self).context == old(self).context
                &&& final(self).bus@ == old(self).bus@
                &&& final(self).ledger == old(self).ledger
                &&& final(self).fb_rect == old(self).fb_rect
                &&& actions@.len() == 0
            },
            !opened ==> *final(self) == *old(self)
                && actions@ == seq![Action::DispatchToView(Event::Invalid(doc))],
    {
        if opened {
            let mut reader = ViewNode::leaf(ViewKind::Reader(doc), None, self.fb_rect);
            core::mem::swap(&mut self.tree, &mut reader);
            self.history.push(reader);
            Vec::new()
        } else {
            self.dispatch_to_view(Event::Invalid(doc))
        }
    }

    /// Open a document directly at a table-of-contents position; the
    /// current root is pushed onto the history stack unconditionally.
    pub fn on_open_toc(&mut self, doc: u64) -> (actions: Vec<Action>)
        requires
            old(self).wf(),
        ensures
            final(self).wf(),
            spec_open_toc_step(*old(self), *final(self), doc, actions@),
    {
        let mut reader = ViewNode::leaf(ViewKind::Reader(doc), None, self.fb_rect);
        core::mem::swap(&mut self.tree, &mut reader);
        self.history.push(reader);
        Vec::new()
    }

    /// Handle `Back`: restore the previous root and send it a reseed
    /// notification, so it can recheck whatever changed while it was
    /// backgrounded.  With an empty history there is nowhere to go.
    pub fn on_back(&mut self) -> (actions: Vec<Action>)
        requires
            old(self).wf(),
        ensures
            final(self).wf(),
            spec_back_step(*old(self), *final(self), actions@),
    {
        if self.history.len() == 0 {
            return Vec::new();
        }
        let v = self.history.pop().unwrap();
        self.tree = v;
        self.dispatch_to_view(Event::Reseed)
    }

    /// Toggle the preset menu: if one is up it is removed, with exactly one
    /// `Expose` for the rectangle it occupied; otherwise a menu overlay is
    /// opened over `rect` and rendered.  A degenerate rectangle opens
    /// nothing.
    pub fn on_toggle_preset_menu(&mut self, rect: Rectangle) -> (actions: Vec<Action>)
        requires
            old(self).wf(),
        ensures
            final(self).wf(),
            spec_toggle_preset_step(*old(self), *final(self), rect, actions@),
    {
        let located = self.tree.locate_by_id(ViewId::PresetMenu);
        match located {
            Some(i) => {
                let removed = self.tree.remove_child(i);
                self.bus.push_back(Event::Expose(removed.rect));
                proof {
                    let cs = old(self).tree.children@;
                    assert(crate::view_tree::is_first_with_id(cs, ViewId::PresetMenu, i as int));
                    let j = choose|j: int|
                        crate::view_tree::is_first_with_id(cs, ViewId::PresetMenu, j);
                    crate::view_tree::lemma_first_with_id_unique(
                        cs, ViewId::PresetMenu, i as int, j);
                    assert(self.bus@ =~= old(self).bus@ + seq![Event::Expose(cs[i as int].rect)]);
                }
            },
            None => {
                proof {
                    let cs = old(self).tree.children@;
                    assert forall|j: int|
                        !crate::view_tree::is_first_with_id(cs, ViewId::PresetMenu, j) by {
                        if 0 <= j < cs.len() {
                            assert(cs[j].id != Some(ViewId::PresetMenu));
                        }
                    }
                }
                if rect.min_x <= rect.max_x && rect.min_y <= rect.max_y && rect.min_x >= 0
                    && rect.min_y >= 0 {
                    let menu = ViewNode::leaf(ViewKind::Menu, Some(ViewId::PresetMenu), rect);
                    self.bus.push_back(Event::Render(rect, UpdateMode::Gui));
                    self.tree.push_child(menu);
                    proof {
                        assert(self.bus@
                            =~= old(self).bus@ + seq![Event::Render(rect, UpdateMode::Gui)]);
                    }
                }
            },
        }
        Vec::new()
    }

    /// Show the frontlight window, unless the frontlight is disabled in the
    /// settings.
    pub fn on_show_frontlight(&mut self) -> (actions: Vec<Action>)
        requires
            old(self).wf(),
        ensures
            final(self).wf(),
            spec_show_frontlight_step(*old(self), *final(self), actions@),
    {
        if !self.context.settings.frontlight {
            return Vec::new();
        }
        let rect = crate::view_tree::frontlight_window_rect(&self.fb_rect);
        let window = ViewNode::leaf(ViewKind::FrontlightWindow, Some(ViewId::Frontlight), rect);
        self.bus.push_back(Event::Render(rect, UpdateMode::Gui));
        self.tree.push_child(window);
        Vec::new()
    }

    /// Close the overlay carrying `id`.  Removing a view always accounts
    /// for its damage: exactly one `Expose` is enqueued, for a rectangle
    /// containing everything the removed node covered, before any further
    /// external event can be taken.  Without a matching overlay nothing
    /// happens.
    pub fn on_close(&mut self, id: ViewId) -> (actions: Vec<Action>)
        requires
            old(self).wf(),
        ensures
            final(self).wf(),
            spec_close_step(*old(self), *final(self), id, actions@),
    {
        let located = self.tree.locate_by_id(id);
        match located {
            Some(i) => {
                let exposed = self.tree.children[i].overlapping_rectangle();
                self.bus.push_back(Event::Expose(exposed));
                let _ = self.tree.remove_child(i);
                proof {
                    let cs = old(self).tree.children@;
                    assert(crate::view_tree::is_first_with_id(cs, id, i as int));
                    let j = choose|j: int| crate::view_tree::is_first_with_id(cs, id, j);
                    crate::view_tree::lemma_first_with_id_unique(cs, id, i as int, j);
                }
            },
            None => {
                proof {
                    let cs = old(self).tree.children@;
                    assert forall|j: int| !crate::view_tree::is_first_with_id(cs, id, j) by {
                        if 0 <= j < cs.len() {
                            assert(cs[j].id != Some(id));
                        }
                    }
                }
            },
        }
        Vec::new()
    }

    /// Handle a centrally handled selection: the closed set of actions a
    /// user can pick from a menu.  Toggles flip the session flag and
    /// request a full-screen repaint; reboot, quit and the return to the
    /// factory firmware all leave the loop, differing only in a side
    /// effect.
    pub fn on_select(&mut self, entry: EntryId) -> (actions: Vec<Action>)
        requires
            old(self).wf(),
        ensures
            final(self).wf(),
            spec_select_step(*old(self), *final(self), entry, actions@),
    {
        match entry {
            EntryId::ToggleInverted => {
                self.context.inverted = !self.context.inverted;
                self.bus.push_back(Event::Render(self.fb_rect, UpdateMode::Gui));
                proof {
                    assert(self.bus@ =~= old(self).bus@
                        + seq![Event::Render(old(self).fb_rect, UpdateMode::Gui)]);
                }
                let mut actions: Vec<Action> = Vec::new();
                actions.push(Action::ToggleInverted);
                proof {
                    assert(actions@ =~= seq![Action::ToggleInverted]);
                }
                actions
            },
            EntryId::ToggleMonochrome => {
                self.context.monochrome = !self.context.monochrome;
                self.bus.push_back(Event::Render(self.fb_rect, UpdateMode::Gui));
                proof {
                    assert(self.bus@ =~= old(self).bus@
                        + seq![Event::Render(old(self).fb_rect, UpdateMode::Gui)]);
                }
                let mut actions: Vec<Action> = Vec::new();
                actions.push(Action::ToggleMonochrome);
                proof {
                    assert(actions@ =~= seq![Action::ToggleMonochrome]);
                }
                actions
            },
            EntryId::ToggleWifi => {
                self.context.settings.wifi = !self.context.settings.wifi;
                let mut actions: Vec<Action> = Vec::new();
                if self.context.settings.wifi {
                    actions.push(Action::RunScript(Script::WifiEnable));
                    proof {
                        assert(actions@ =~= seq![Action::RunScript(Script::WifiEnable)]);
                    }
                } else {
                    actions.push(Action::RunScript(Script::WifiDisable));
                    proof {
                        assert(actions@ =~= seq![Action::RunScript(Script::WifiDisable)]);
                    }
                }
                actions
            },
            EntryId::TakeScreenshot => {
                let mut actions: Vec<Action> = Vec::new();
                actions.push(Action::SaveScreenshot);
                proof {
                    assert(actions@ =~= seq![Action::SaveScreenshot]);
                }
                actions
            },
            EntryId::Reboot | EntryId::Quit => {
                let mut actions: Vec<Action> = Vec::new();
                actions.push(Action::Exit);
                proof {
                    assert(actions@ =~= seq![Action::Exit]);
                }
                actions
            },
            EntryId::StartNickel => {
                let mut actions: Vec<Action> = Vec::new();
                actions.push(Action::RemoveBootlock);
                actions.push(Action::Exit);
                proof {
                    assert(actions@ =~= seq![Action::RemoveBootlock, Action::Exit]);
                }
                actions
            },
            EntryId::RemovePreset(_) => self.dispatch_to_view(Event::Select(entry)),
        }
    }

    /// The screenshot collaborator has finished (well or badly — either way
    /// the user is told through a transient notification): a notification
    /// overlay is pushed and rendered, and the running notification index
    /// advances.
    pub fn screenshot_result(&mut self) -> (actions: Vec<Action>)
        requires
            old(self).wf(),
        ensures
            final(self).wf(),
            actions@.len() == 0,
            final(self).tree.children@.len() == old(self).tree.children@.len() + 1,
            forall|k: int| 0 <= k < old(self).tree.children@.len()
                ==> final(self).tree.children@[k] == old(self).tree.children@[k],
            final(self).tree.children@.last().kind == ViewKind::Notification,
            final(self).tree.children@.last().id == Some(ViewId::TakeScreenshotNotif),
            final(self).context.notification_index
                == (old(self).context.notification_index + 1) % 256,
            final(self).context.settings == old(self).context.settings,
            final(self).context.metadata == old(self).context.metadata,
            final(self).power == old(self).power,
            final(self).bus@.len() == old(self).bus@.len() + 1,
            forall|k: int| 0 <= k < old(self).bus@.len()
                ==> final(self).bus@[k] == old(self).bus@[k],
            final(self).bus@.last() == Event::Render(
                final(self).tree.children@.last().rect, UpdateMode::Gui),
            final(self).history == old(self).history,
            final(self).ledger == old(self).ledger,
            final(self).fb_rect == old(self).fb_rect,
    {
        let rect = crate::view_tree::notification_rect(
            &self.fb_rect, self.context.notification_index);
        let notif = ViewNode::leaf(
            ViewKind::Notification, Some(ViewId::TakeScreenshotNotif), rect);
        if self.context.notification_index < 255 {
            self.context.notification_index = self.context.notification_index + 1;
        } else {
            self.context.notification_index = 0;
        }
        self.bus.push_back(Event::Render(rect, UpdateMode::Gui));
        self.tree.push_child(notif);
        Vec::new()
    }

    /// One dispatch step: route `event` to its handler, mutate the state,
    /// and return the ordered outward actions.  Every arm is pinned: each
    /// event's clause below cites the same `spec_*_step` predicate its
    /// handler ensures, so the contract fixes the final state and the
    /// exact action list for every event.  On top of that, the loop-wide
    /// laws:
    ///
    /// - the power state moves only along the transition table;
    /// - a `Suspend` processed while suspending leaves the ledger empty,
    ///   with a `Wait` for every outstanding token before the persistence
    ///   and low-power actions (no torn suspend);
    /// - a `Mount` while already mounted does nothing at all;
    /// - follow-ups already pending are never dropped or reordered: a step
    ///   only appends to the bus, so `take_next` drains them first-in
    ///   first-out.
    pub fn step(&mut self, event: Event) -> (actions: Vec<Action>)
        requires
            old(self).wf(),
        ensures
            final(self).wf(),
            final(self).fb_rect == old(self).fb_rect,
            final(self).power == match spec_trigger(*old(self), event) {
                Some(t) => spec_power_step(old(self).power, t),
                None => old(self).power,
            },
            event is Mount && old(self).power is Mounted
                ==> *final(self) == *old(self) && actions@.len() == 0,
            event matches Event::Device(de)
                ==> spec_device_step(*old(self), *final(self), de, actions@),
            event matches Event::Gesture(ge)
                ==> spec_gesture_step(*old(self), *final(self), ge, actions@),
            event matches Event::PrepareForSleep(kind)
                ==> spec_prepare_sleep_step(*old(self), *final(self), kind, actions@),
            event is Suspend ==> spec_suspend_step(*old(self), *final(self), actions@),
            event is Mount ==> spec_mount_step(*old(self), *final(self), actions@),
            event matches Event::Render(rect, mode)
                ==> spec_render_step(*old(self), *final(self), rect, mode, actions@),
            event matches Event::RenderNoWait(rect, mode)
                ==> spec_render_no_wait_step(*old(self), *final(self), rect, mode, actions@),
            event matches Event::Expose(rect)
                ==> spec_expose_step(*old(self), *final(self), rect, actions@),
            event matches Event::Open(doc)
                ==> spec_open_step(*old(self), *final(self), doc, actions@),
            event matches Event::OpenToc(doc, _page)
                ==> spec_open_toc_step(*old(self), *final(self), doc, actions@),
            event is Back ==> spec_back_step(*old(self), *final(self), actions@),
            event matches Event::TogglePresetMenu(rect, _index)
                ==> spec_toggle_preset_step(*old(self), *final(self), rect, actions@),
            event matches Event::Show(id) ==> (if id == ViewId::Frontlight {
                spec_show_frontlight_step(*old(self), *final(self), actions@)
            } else {
                spec_dispatched(*old(self), *final(self), event, actions@)
            }),
            event matches Event::Close(id)
                ==> spec_close_step(*old(self), *final(self), id, actions@),
            event matches Event::Select(entry)
                ==> spec_select_step(*old(self), *final(self), entry, actions@),
            event is Reload ==> spec_reload_step(*old(self), *final(self), actions@),
            event is Wake ==> *final(self) == *old(self) && actions@.len() == 0,
            event is ClockTick
                ==> spec_dispatched(*old(self), *final(self), event, actions@),
            event is BatteryTick
                ==> spec_dispatched(*old(self), *final(self), event, actions@),
            event is Reseed ==> spec_dispatched(*old(self), *final(self), event, actions@),
            event matches Event::Invalid(_)
                ==> spec_dispatched(*old(self), *final(self), event, actions@),
            final(self).bus@.len() >= old(self).bus@.len(),
            final(self).bus@.subrange(0, old(self).bus@.len() as int) == old(self).bus@,
    {
        match event {
            Event::Device(de) => self.on_device(de),
            Event::Gesture(ge) => self.on_gesture(ge),
            Event::Reload => self.on_reload(),
            Event::PrepareForSleep(kind) => self.on_prepare_sleep(kind),
            Event::Wake => Vec::new(),
            Event::Suspend => self.on_suspend(),
            Event::Mount => self.on_mount(),
            Event::Render(rect, mode) => self.on_render(rect, mode),
            Event::RenderNoWait(rect, mode) => self.on_render_no_wait(rect, mode),
            Event::Expose(rect) => self.on_expose(rect),
            Event::Open(doc) => self.on_open(doc),
            Event::OpenToc(doc, _page) => self.on_open_toc(doc),
            Event::Back => self.on_back(),
            Event::TogglePresetMenu(rect, _index) => self.on_toggle_preset_menu(rect),
            Event::Show(ViewId::Frontlight) => self.on_show_frontlight(),
            Event::Close(id) => self.on_close(id),
            Event::Select(entry) => self.on_select(entry),
            _ => self.dispatch_to_view(event),
        }
    }

    /// Handle a `Reload`: the persistence and import collaborators refresh
    /// the library catalogue (through `reload_replace` and
    /// `reload_append`), and the current root is reseeded so it can pick
    /// the changes up.
    pub fn on_reload(&mut self) -> (actions: Vec<Action>)
        ensures
            spec_reload_step(*old(self), *final(self), actions@),
    {
        let mut actions: Vec<Action> = Vec::new();
        actions.push(Action::ReloadLibrary);
        actions.push(Action::DispatchToView(Event::Reseed));
        proof {
            assert(actions@
                =~= seq![Action::ReloadLibrary, Action::DispatchToView(Event::Reseed)]);
        }
        actions
    }

    /// Route an event to the view catalogue's generic handler, unchanged.
    fn dispatch_to_view(&mut self, e: Event) -> (actions: Vec<Action>)
        ensures
            *final(self) == *old(self),
            actions@ == seq![Action::DispatchToView(e)],
    {
        let mut actions: Vec<Action> = Vec::new();
        actions.push(Action::DispatchToView(e));
        proof {
            assert(actions@ =~= seq![Action::DispatchToView(e)]);
        }
        actions
    }

    /// Empty the ledger into one `Wait` action per outstanding token, in
    /// order.
    fn drain_ledger_actions(&mut self) -> (actions: Vec<Action>)
        requires
            old(self).wf(),
        ensures
            final(self).wf(),
            final(self).ledger@.len() == 0,
            actions@ == wait_actions(old(self).ledger@),
            final(self).power == old(self).power,
            final(self).context == old(self).context,
            final(self).tree == old(self).tree,
            final(self).history == old(self).history,
            final(self).bus@ == old(self).bus@,
            final(self).fb_rect == old(self).fb_rect,
    {
        let drained = self.ledger.drain_all();
        let mut actions: Vec<Action> = Vec::new();
        let n = drained.len();
        let mut i: usize = 0;
        while i < n
            invariant
                n == drained@.len(),
                i <= n,
                actions@.len() == i,
                forall|k: int| 0 <= k < i
                    ==> actions@[k] == Action::Wait(drained@[k].0),
            decreases n - i,
        {
            actions.push(Action::Wait(drained[i].0));
            i += 1;
        }
        proof {
            assert(actions@ =~= wait_actions(drained@));
        }
        actions
    }
}

} // verus!
