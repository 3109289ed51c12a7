use vstd::prelude::*;

use crate::window_id::WindowId;

verus! {

/// What produced a pointer event.
#[derive(PartialEq, Eq, Structural, Hash, Debug, Copy, Clone)]
pub enum PointerSource {
    Mouse,
    Touch,
    Pen,
    Unknown,
}

/// Which button of a pointer device changed state.
#[derive(PartialEq, Eq, Structural, Hash, Debug, Copy, Clone)]
pub enum PointerButton {
    NoButton,
    Primary,
    Secondary,
    Auxillary,
    Extra1,
    Extra2,
    Unknown,
}

/// Mouse buttons as the MacOS and web backends name them.
#[derive(PartialEq, Eq, Structural, Hash, Debug, Copy, Clone)]
pub enum MouseButton {
    Left,
    Right,
    Middle,
    Extra1,
    Extra2,
    Unknown,
}

/// A keyboard key: one of the modifier keys that the library reports by
/// name, or the platform's own virtual key code.
#[derive(PartialEq, Eq, Structural, Hash, Debug, Copy, Clone)]
pub enum Key {
    CapsLock,
    LeftShift,
    RightShift,
    LeftControl,
    RightControl,
    LeftAlt,
    RightAlt,
    Meta,
    Code(u32),
}

/// The mouse cursors an application can select.
#[derive(PartialEq, Eq, Structural, Hash, Debug, Copy, Clone)]
pub enum Cursor {
    Arrow,
    IBeam,
    PointingHand,
    OpenHand,
    ClosedHand,
}

/// An input or system event as a platform backend reports it, in the
/// integer units the platform delivers: pixel coordinates, milliseconds,
/// and the screen's dots per inch.
#[derive(Debug, Clone, PartialEq)]
pub enum RawEvent {
    Draw { window_id: WindowId },
    KeyDown { key: Key, timestamp_ms: u64 },
    KeyUp { key: Key, timestamp_ms: u64 },
    KeyRepeat { key: Key, timestamp_ms: u64 },
    PointerMoved { x: i32, y: i32, source: PointerSource, timestamp_ms: u64 },
    PointerDown {
        x: i32,
        y: i32,
        source: PointerSource,
        button: PointerButton,
        timestamp_ms: u64,
    },
    PointerUp {
        x: i32,
        y: i32,
        source: PointerSource,
        button: PointerButton,
        timestamp_ms: u64,
    },
    DoubleClickDown { x: i32, y: i32, button: PointerButton, timestamp_ms: u64 },
    DoubleClickUp { x: i32, y: i32, button: PointerButton, timestamp_ms: u64 },
    DoubleClick { x: i32, y: i32, button: PointerButton, timestamp_ms: u64 },
    MouseMotion { delta_x: i32, delta_y: i32, timestamp_ms: u64 },
    CharacterReceived { character: char },
    IMEComposition { composition: Vec<char> },
    WindowMinimized { window_id: WindowId },
    WindowMaximized { window_id: WindowId },
    WindowFullscreened { window_id: WindowId },
    WindowRestored { window_id: WindowId },
    WindowStartResize { window_id: WindowId },
    WindowEndResize { window_id: WindowId },
    WindowResized { width: u32, height: u32, window_id: WindowId },
    WindowMoved { x: u32, y: u32, window_id: WindowId },
    WindowGainedFocus { window_id: WindowId },
    WindowLostFocus { window_id: WindowId },
    WindowCloseRequested { window_id: WindowId },
    /// The screen's new dots per inch; 96 is a scale of one.
    WindowScaleChanged { dpi: u32, window_id: WindowId },
    Quit,
    QuitRequested,
    EventsCleared,
}

/// The pointer button an event names, for the button events.
pub open spec fn event_button(e: RawEvent) -> Option<PointerButton> {
    match e {
        RawEvent::PointerDown { button, .. } => Some(button),
        RawEvent::PointerUp { button, .. } => Some(button),
        RawEvent::DoubleClickDown { button, .. } => Some(button),
        RawEvent::DoubleClickUp { button, .. } => Some(button),
        RawEvent::DoubleClick { button, .. } => Some(button),
        _ => None,
    }
}

} // verus!
