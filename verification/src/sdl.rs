use vstd::prelude::*;

use crate::events::{event_button, Cursor, Key, PointerButton, PointerSource, RawEvent};
use crate::window_id::WindowId;
use crate::window_parameters::WindowParameters;

verus! {

pub const SDL_QUIT: u32 = 0x100;
pub const SDL_WINDOWEVENT: u32 = 0x200;
pub const SDL_KEYDOWN: u32 = 0x300;
pub const SDL_KEYUP: u32 = 0x301;
pub const SDL_TEXTEDITING: u32 = 0x302;
pub const SDL_TEXTINPUT: u32 = 0x303;
pub const SDL_MOUSEMOTION: u32 = 0x400;
pub const SDL_MOUSEBUTTONDOWN: u32 = 0x401;
pub const SDL_MOUSEBUTTONUP: u32 = 0x402;
pub const SDL_WINDOWEVENT_CLOSE: u8 = 14;
pub const SDL_BUTTON_LEFT: u32 = 1;
pub const SDL_BUTTON_MIDDLE: u32 = 2;
pub const SDL_BUTTON_RIGHT: u32 = 3;
pub const SDL_BUTTON_X1: u32 = 4;
pub const SDL_BUTTON_X2: u32 = 5;
/// The mouse instance id SDL gives events synthesized from touches.
pub const SDL_TOUCH_MOUSEID: u32 = 0xFFFF_FFFF;
pub const SDL_WINDOWPOS_UNDEFINED: i32 = 0x1FFF0000;
pub const SDL_WINDOW_OPENGL: u32 = 0x00000002;
pub const SDL_WINDOW_RESIZABLE: u32 = 0x00000020;
pub const SDL_WINDOW_ALLOW_HIGHDPI: u32 = 0x00002000;

/// An SDL event, with the fields of the union member that its type selects.
pub enum SdlEvent {
    /// `SDL_QUIT`.
    Quit,
    /// `SDL_WINDOWEVENT` and its window event id.
    Window { event: u8 },
    /// `SDL_KEYDOWN` or `SDL_KEYUP`: the keyboard member.
    Keyboard { type_: u32, timestamp: u32, scancode: u32, repeat: u8 },
    /// `SDL_MOUSEMOTION`: the motion member.
    MouseMotion { timestamp: u32, which: u32, x: i32, y: i32, xrel: i32, yrel: i32 },
    /// `SDL_MOUSEBUTTONDOWN` or `SDL_MOUSEBUTTONUP`: the button member.
    MouseButton { type_: u32, timestamp: u32, which: u32, button: u8, clicks: u8, x: i32, y: i32 },
    /// `SDL_TEXTINPUT`: the characters of the text.
    TextInput { text: Vec<char> },
    /// `SDL_TEXTEDITING`: the characters of the composition.
    TextEditing { text: Vec<char> },
    /// Any other event type.
    Other { type_: u32 },
}

/// Touch events carry the touch mouse id; everything else is a mouse.
pub open spec fn source_of(which: u32) -> PointerSource {
    if which == SDL_TOUCH_MOUSEID {
        PointerSource::Touch
    } else {
        PointerSource::Mouse
    }
}

/// SDL's button index as a pointer button.
pub open spec fn button_of(button: u8) -> PointerButton {
    if button as u32 == SDL_BUTTON_LEFT {
        PointerButton::Primary
    } else if button as u32 == SDL_BUTTON_MIDDLE {
        PointerButton::Auxillary
    } else if button as u32 == SDL_BUTTON_RIGHT {
        PointerButton::Secondary
    } else if button as u32 == SDL_BUTTON_X1 {
        PointerButton::Extra1
    } else if button as u32 == SDL_BUTTON_X2 {
        PointerButton::Extra2
    } else {
        PointerButton::Unknown
    }
}

pub fn pointer_source(which: u32) -> (s: PointerSource)
    ensures
        s == source_of(which),
{
    if which == SDL_TOUCH_MOUSEID {
        PointerSource::Touch
    } else {
        PointerSource::Mouse
    }
}

pub fn pointer_button(button: u8) -> (b: PointerButton)
    ensures
        b == button_of(button),
{
    let button = button as u32;
    if button == SDL_BUTTON_LEFT {
        PointerButton::Primary
    } else if button == SDL_BUTTON_MIDDLE {
        PointerButton::Auxillary
    } else if button == SDL_BUTTON_RIGHT {
        PointerButton::Secondary
    } else if button == SDL_BUTTON_X1 {
        PointerButton::Extra1
    } else if button == SDL_BUTTON_X2 {
        PointerButton::Extra2
    } else {
        PointerButton::Unknown
    }
}

/// The window id SDL events are reported with: SDL's window lookup is not
/// available, so it is the null window.
pub open spec fn null_window() -> WindowId {
    WindowId::from_raw(0)
}

/// The events an SDL event produces, or `None` for event types that the
/// loop skips without checking for the end of the batch.
pub open spec fn sdl_events(e: SdlEvent) -> Option<Seq<RawEvent>> {
    match e {
        SdlEvent::Quit => Some(seq![RawEvent::QuitRequested]),
        SdlEvent::Window { event } => if event == SDL_WINDOWEVENT_CLOSE {
            Some(seq![RawEvent::WindowCloseRequested { window_id: null_window() }])
        } else {
            Some(seq![])
        },
        SdlEvent::Keyboard { type_, timestamp, scancode, repeat } => {
            let key = Key::Code(scancode);
            let t = timestamp as u64;
            if type_ == SDL_KEYDOWN {
                if repeat > 0 {
                    Some(seq![RawEvent::KeyRepeat { key, timestamp_ms: t }])
                } else {
                    Some(seq![RawEvent::KeyDown { key, timestamp_ms: t }])
                }
            } else if type_ == SDL_KEYUP {
                Some(seq![RawEvent::KeyUp { key, timestamp_ms: t }])
            } else {
                Some(seq![])
            }
        },
        SdlEvent::MouseMotion { timestamp, which, x, y, xrel, yrel } => Some(
            seq![
                RawEvent::MouseMotion { delta_x: xrel, delta_y: yrel, timestamp_ms: timestamp as u64 },
                RawEvent::PointerMoved { x, y, source: source_of(which), timestamp_ms: timestamp as u64 },
            ],
        ),
        SdlEvent::MouseButton { type_, timestamp, which, button, clicks, x, y } => {
            let t = timestamp as u64;
            let b = button_of(button);
            if type_ == SDL_MOUSEBUTTONDOWN {
                let down = RawEvent::PointerDown { x, y, source: source_of(which), button: b, timestamp_ms: t };
                if clicks == 2 {
                    Some(
                        seq![
                            down,
                            RawEvent::DoubleClickDown { x, y, button: b, timestamp_ms: t },
                            RawEvent::DoubleClick { x, y, button: b, timestamp_ms: t },
                        ],
                    )
                } else {
                    Some(seq![down])
                }
            } else if type_ == SDL_MOUSEBUTTONUP {
                let up = RawEvent::PointerUp { x, y, source: source_of(which), button: b, timestamp_ms: t };
                if clicks == 2 {
                    Some(seq![up, RawEvent::DoubleClickUp { x, y, button: b, timestamp_ms: t }])
                } else {
                    Some(seq![up])
                }
            } else {
                None
            }
        },
        SdlEvent::TextInput { text } => Some(characters_received(text@)),
        SdlEvent::TextEditing { text } => Some(seq![RawEvent::IMEComposition { composition: text }]),
        SdlEvent::Other { type_ } => None,
    }
}

/// One `CharacterReceived` event for each character of the text, in order.
pub open spec fn characters_received(text: Seq<char>) -> Seq<RawEvent>
    decreases text.len(),
{
    if text.len() == 0 {
        seq![]
    } else {
        characters_received(text.drop_last()).push(RawEvent::CharacterReceived { character: text.last() })
    }
}

/// Translates one SDL event for the event loop; `None` means the loop goes
/// straight to the next event.
pub fn translate_event(e: SdlEvent) -> (r: Option<Vec<RawEvent>>)
    ensures
        match (r, sdl_events(e)) {
            (Some(v), Some(s)) => v@ == s,
            (None, None) => true,
            _ => false,
        },
{
    let ghost spec_r = sdl_events(e);
    match e {
        SdlEvent::Quit => {
            let mut v: Vec<RawEvent> = Vec::new();
            v.push(RawEvent::QuitRequested);
            assert(v@ =~= spec_r->0);
            Some(v)
        },
        SdlEvent::Window { event } => {
            let mut v: Vec<RawEvent> = Vec::new();
            if event == SDL_WINDOWEVENT_CLOSE {
                v.push(RawEvent::WindowCloseRequested { window_id: WindowId::new(0) });
            }
            assert(v@ =~= spec_r->0);
            Some(v)
        },
        SdlEvent::Keyboard { type_, timestamp, scancode, repeat } => {
            let mut v: Vec<RawEvent> = Vec::new();
            let key = Key::Code(scancode);
            let t = timestamp as u64;
            if type_ == SDL_KEYDOWN {
                if repeat > 0 {
                    v.push(RawEvent::KeyRepeat { key, timestamp_ms: t });
                } else {
                    v.push(RawEvent::KeyDown { key, timestamp_ms: t });
                }
            } else if type_ == SDL_KEYUP {
                v.push(RawEvent::KeyUp { key, timestamp_ms: t });
            }
            assert(v@ =~= spec_r->0);
            Some(v)
        },
        SdlEvent::MouseMotion { timestamp, which, x, y, xrel, yrel } => {
            let mut v: Vec<RawEvent> = Vec::new();
            let t = timestamp as u64;
            v.push(RawEvent::MouseMotion { delta_x: xrel, delta_y: yrel, timestamp_ms: t });
            v.push(RawEvent::PointerMoved { x, y, source: pointer_source(which), timestamp_ms: t });
            assert(v@ =~= spec_r->0);
            Some(v)
        },
        SdlEvent::MouseButton { type_, timestamp, which, button, clicks, x, y } => {
            let t = timestamp as u64;
            let b = pointer_button(button);
            let source = pointer_source(which);
            let mut v: Vec<RawEvent> = Vec::new();
            if type_ == SDL_MOUSEBUTTONDOWN {
                v.push(RawEvent::PointerDown { x, y, source, button: b, timestamp_ms: t });
                if clicks == 2 {
                    v.push(RawEvent::DoubleClickDown { x, y, button: b, timestamp_ms: t });
                    v.push(RawEvent::DoubleClick { x, y, button: b, timestamp_ms: t });
                }
            } else if type_ == SDL_MOUSEBUTTONUP {
                v.push(RawEvent::PointerUp { x, y, source, button: b, timestamp_ms: t });
                if clicks == 2 {
                    v.push(RawEvent::DoubleClickUp { x, y, button: b, timestamp_ms: t });
                }
            } else {
                return None;
            }
            assert(v@ =~= spec_r->0);
            Some(v)
        },
        SdlEvent::TextInput { text } => {
            let mut v: Vec<RawEvent> = Vec::new();
            let n = text.len();
            let mut i: usize = 0;
            while i < n
                invariant
                    n == text@.len(),
                    i <= n,
                    v@ == characters_received(text@.take(i as int)),
                decreases n - i,
            {
                let ghost old_v = v@;
                let e = RawEvent::CharacterReceived { character: text[i] };
                v.push(e);
                proof {
                    assert(text@.take(i + 1).drop_last() =~= text@.take(i as int));
                    assert(text@.take(i + 1).last() == text@[i as int]);
                }
                i = i + 1;
            }
            assert(text@.take(n as int) =~= text@);
            assert(v@ == spec_r->0);
            Some(v)
        },
        SdlEvent::TextEditing { text } => {
            let mut v: Vec<RawEvent> = Vec::new();
            v.push(RawEvent::IMEComposition { composition: text });
            assert(v@ =~= spec_r->0);
            Some(v)
        },
        SdlEvent::Other { type_ } => None,
    }
}

/// After an event is handled: when no events remain, the batch ends with
/// `EventsCleared` and a draw of the null window.
pub fn end_of_batch(events_remaining: bool) -> (v: Vec<RawEvent>)
    ensures
        events_remaining ==> v@.len() == 0,
        !events_remaining ==> v@ == seq![
            RawEvent::EventsCleared,
            RawEvent::Draw { window_id: null_window() },
        ],
{
    let mut v: Vec<RawEvent> = Vec::new();
    if !events_remaining {
        v.push(RawEvent::EventsCleared);
        v.push(RawEvent::Draw { window_id: WindowId::new(0) });
    }
    assert(!events_remaining ==> v@ =~= seq![
        RawEvent::EventsCleared,
        RawEvent::Draw { window_id: null_window() },
    ]);
    v
}


/// A 32-bit unsigned value read as a two's complement signed number, as
/// `as i32` does.
pub open spec fn wrap_i32(v: u32) -> int {
    if v < 0x8000_0000 {
        v as int
    } else {
        v - 0x1_0000_0000
    }
}

pub fn to_i32(v: u32) -> (r: i32)
    ensures
        r == wrap_i32(v),
{
    assert((v as i32) as int == if v < 0x8000_0000 { v as int } else { v - 0x1_0000_0000 })
        by (bit_vector);
    v as i32
}

/// The arguments SDL's window creation is called with.
#[derive(Debug, Clone, Copy, PartialEq, Eq)]
pub struct SdlWindowPlan {
    pub x: i32,
    pub y: i32,
    pub width: i32,
    pub height: i32,
    pub flags: u32,
    pub minimum_size: Option<(i32, i32)>,
}

/// The window flags: always an OpenGL, high-DPI window, resizable on request.
pub open spec fn window_flags(resizable: bool) -> u32 {
    if resizable {
        SDL_WINDOW_OPENGL | SDL_WINDOW_ALLOW_HIGHDPI | SDL_WINDOW_RESIZABLE
    } else {
        SDL_WINDOW_OPENGL | SDL_WINDOW_ALLOW_HIGHDPI
    }
}

/// Plans the SDL window for `new_window`: an unset position is left to SDL,
/// and the requested size is halved because SDL counts logical pixels.
/// A size must be given.
pub fn new_window_plan(window_parameters: &WindowParameters) -> (plan: SdlWindowPlan)
    requires
        window_parameters.size is Some,
    ensures
        window_parameters.position matches Some(p) ==> plan.x == wrap_i32(p.0) && plan.y
            == wrap_i32(p.1),
        window_parameters.position is None ==> plan.x == SDL_WINDOWPOS_UNDEFINED && plan.y
            == SDL_WINDOWPOS_UNDEFINED,
        window_parameters.size matches Some(size) && plan.width == size.0 / 2 && plan.height
            == size.1 / 2,
        plan.flags == window_flags(window_parameters.resizable),
        match window_parameters.minimum_size {
            Some(m) => plan.minimum_size == Some((wrap_i32(m.0) as i32, wrap_i32(m.1) as i32)),
            None => plan.minimum_size is None,
        },
{
    let (x, y) = match window_parameters.position {
        Some(p) => p,
        None => (SDL_WINDOWPOS_UNDEFINED as u32, SDL_WINDOWPOS_UNDEFINED as u32),
    };
    let (width, height) = match window_parameters.size {
        Some(s) => s,
        None => (0, 0),
    };
    let mut flags = SDL_WINDOW_OPENGL | SDL_WINDOW_ALLOW_HIGHDPI;
    if window_parameters.resizable {
        flags = flags | SDL_WINDOW_RESIZABLE;
    }
    let minimum_size = match window_parameters.minimum_size {
        Some((min_width, min_height)) => Some((to_i32(min_width), to_i32(min_height))),
        None => None,
    };
    SdlWindowPlan {
        x: to_i32(x),
        y: to_i32(y),
        width: to_i32(width / 2),
        height: to_i32(height / 2),
        flags,
        minimum_size,
    }
}

/// The system cursors the SDL backend creates.
#[derive(Debug, Clone, Copy, PartialEq, Eq, Structural)]
pub enum SdlCursor {
    Arrow,
    IBeam,
    OpenHand,
}

/// The SDL cursor shown for a cursor: SDL has an I-beam and an open hand;
/// every other cursor shows the arrow.
pub fn system_cursor(cursor: Cursor) -> (c: SdlCursor)
    ensures
        c == (match cursor {
            Cursor::IBeam => SdlCursor::IBeam,
            Cursor::OpenHand => SdlCursor::OpenHand,
            _ => SdlCursor::Arrow,
        }),
{
    match cursor {
        Cursor::IBeam => SdlCursor::IBeam,
        Cursor::OpenHand => SdlCursor::OpenHand,
        _ => SdlCursor::Arrow,
    }
}

/// The pointer button SDL's button index stands for: 1 is the left
/// button (`Primary`), 2 the middle one (`Auxillary`), 3 the right one
/// (`Secondary`), 4 and 5 the extra ones.
pub open spec fn sdl_button_meaning(button: u8) -> PointerButton {
    if button == 1 {
        PointerButton::Primary
    } else if button == 2 {
        PointerButton::Auxillary
    } else if button == 3 {
        PointerButton::Secondary
    } else if button == 4 {
        PointerButton::Extra1
    } else if button == 5 {
        PointerButton::Extra2
    } else {
        PointerButton::Unknown
    }
}

/// A mouse-button press or release is reported with the button SDL names:
/// every event it produces carries `sdl_button_meaning(button)`, a press
/// starts with `PointerDown` and a release with `PointerUp`, at the event's
/// coordinates and time, from a touch exactly when SDL's touch mouse id is
/// given; a double click adds the double-click events. Distinct known buttons are never reported as the same
/// pointer button, and a press and the release of one button carry the
/// same pointer button.
pub proof fn law_sdl_buttons_keep_their_identity(
    type_: u32,
    timestamp: u32,
    which: u32,
    button: u8,
    clicks: u8,
    x: i32,
    y: i32,
    other: u8,
)
    requires
        type_ == 0x401 || type_ == 0x402,
    ensures
        ({
            let r = sdl_events(SdlEvent::MouseButton { type_, timestamp, which, button, clicks, x, y });
            let b = sdl_button_meaning(button);
            &&& r is Some
            &&& r->0.len() > 0
            &&& forall|i: int| 0 <= i < r->0.len() ==> event_button(#[trigger] r->0[i]) == Some(b)
            &&& type_ == 0x401 ==> r->0[0] == RawEvent::PointerDown {
                x,
                y,
                source: if which == 0xFFFF_FFFF { PointerSource::Touch } else { PointerSource::Mouse },
                button: b,
                timestamp_ms: timestamp as u64,
            }
            &&& type_ == 0x402 ==> r->0[0] == RawEvent::PointerUp {
                x,
                y,
                source: if which == 0xFFFF_FFFF { PointerSource::Touch } else { PointerSource::Mouse },
                button: b,
                timestamp_ms: timestamp as u64,
            }
            &&& r->0.len() == if clicks == 2 { if type_ == 0x401 { 3int } else { 2int } } else { 1int }
        }),
        1 <= button <= 5 && 1 <= other <= 5 && button != other ==> sdl_button_meaning(button)
            != sdl_button_meaning(other),
{
}

} // verus!
