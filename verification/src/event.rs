//! The event vocabulary of the core loop.
//!
//! Every event is an immutable plain value, constructed once and consumed
//! exactly once by the dispatch step that matches it.  Handling one event may
//! enqueue follow-up events onto a pending bus that is drained before the
//! next externally received event.

use vstd::prelude::*;
use crate::geom::Rectangle;

verus! {

/// How deeply the device sleeps: a light sleep wakes on any button, a deep
/// sleep wakes only on the power button.
#[derive(Clone, Copy, Debug, PartialEq, Eq, Structural)]
pub enum SleepType {
    Light,
    Deep,
}

/// Hardware refresh strategy for one update window.
#[derive(Clone, Copy, Debug, PartialEq, Eq, Structural)]
pub enum UpdateMode {
    Gui,
    Partial,
    Full,
    Fast,
    FastMono,
}

/// Physical buttons of the device.
#[derive(Clone, Copy, Debug, PartialEq, Eq, Structural)]
pub enum ButtonCode {
    Power,
    Left,
    Middle,
    Right,
}

#[derive(Clone, Copy, Debug, PartialEq, Eq, Structural)]
pub enum ButtonStatus {
    Pressed,
    Released,
    Repeated,
}

/// A raw event from the input driver.
#[derive(Clone, Copy, Debug, PartialEq, Eq, Structural)]
pub enum DeviceEvent {
    Button { code: ButtonCode, status: ButtonStatus },
    Finger { x: i32, y: i32 },
    Plug,
    Unplug,
}

/// A recognized gesture, derived from raw input.
#[derive(Clone, Copy, Debug, PartialEq, Eq, Structural)]
pub enum GestureEvent {
    HoldButton(ButtonCode),
    Tap { x: i32, y: i32 },
}

/// Identity of a named overlay view.
#[derive(Clone, Copy, Debug, PartialEq, Eq, Structural)]
pub enum ViewId {
    PresetMenu,
    Frontlight,
    TakeScreenshotNotif,
    SleepIntermission,
    MountIntermission,
}

/// A user-selectable action, handled centrally by the core loop.
#[derive(Clone, Copy, Debug, PartialEq, Eq, Structural)]
pub enum EntryId {
    ToggleInverted,
    ToggleMonochrome,
    ToggleWifi,
    TakeScreenshot,
    Reboot,
    Quit,
    StartNickel,
    RemovePreset(u32),
}

/// One event of the merged stream.
///
/// `Open`, `OpenToc` and `Invalid` carry a document reference as a plain
/// identifier; resolving it against the library catalogue belongs to the
/// document-opening collaborator, not to this core.
#[derive(Clone, Copy, Debug, PartialEq, Eq, Structural)]
pub enum Event {
    Device(DeviceEvent),
    Gesture(GestureEvent),
    ClockTick,
    BatteryTick,
    Reload,
    Reseed,
    PrepareForSleep(SleepType),
    Wake,
    Suspend,
    Mount,
    Render(Rectangle, UpdateMode),
    RenderNoWait(Rectangle, UpdateMode),
    Expose(Rectangle),
    Open(u64),
    OpenToc(u64, u32),
    Back,
    Invalid(u64),
    TogglePresetMenu(Rectangle, u32),
    Show(ViewId),
    Close(ViewId),
    Select(EntryId),
}

} // verus!
