use vstd::prelude::*;

use crate::events::{MouseButton, RawEvent};
use crate::window_id::WindowId;

verus! {

/// The button a DOM mouse event names.
pub open spec fn dom_button(button: i16) -> MouseButton {
    if button == 0 {
        MouseButton::Left
    } else if button == 1 {
        MouseButton::Middle
    } else if button == 2 {
        MouseButton::Right
    } else if button == 3 {
        MouseButton::Extra1
    } else if button == 4 {
        MouseButton::Extra2
    } else {
        MouseButton::Unknown
    }
}

/// The mouse button of a DOM `mousedown` or `mouseup` event.
pub fn mouse_button(button: i16) -> (b: MouseButton)
    ensures
        b == dom_button(button),
{
    if button == 0 {
        MouseButton::Left
    } else if button == 1 {
        MouseButton::Middle
    } else if button == 2 {
        MouseButton::Right
    } else if button == 3 {
        MouseButton::Extra1
    } else if button == 4 {
        MouseButton::Extra2
    } else {
        MouseButton::Unknown
    }
}

/// A 32-bit signed value read as unsigned, as `as u32` does.
pub open spec fn wrap_u32(v: i32) -> u32 {
    if v >= 0 {
        v as u32
    } else {
        (v + 0x1_0000_0000) as u32
    }
}

fn to_u32(v: i32) -> (r: u32)
    ensures
        r == wrap_u32(v),
{
    assert((v as u32) as int == if v >= 0 { v as int } else { v + 0x1_0000_0000 }) by (bit_vector);
    v as u32
}

/// What an animation frame does on the canvas.
#[derive(Debug, Clone, PartialEq)]
pub struct FramePlan {
    /// The size to give the canvas's drawing buffer, when it changes.
    pub resize_to: Option<(u32, u32)>,
    /// The events to send, in order.
    pub events: Vec<RawEvent>,
}

/// An animation frame: when the canvas's client size differs from its
/// drawing buffer, the buffer takes the client size and the window is
/// reported resized; then the window draws.
pub fn animation_frame(
    client_width: i32,
    client_height: i32,
    canvas_width: u32,
    canvas_height: u32,
) -> (plan: FramePlan)
    ensures
        ({
            let w = wrap_u32(client_width);
            let h = wrap_u32(client_height);
            let draw = RawEvent::Draw { window_id: WindowId::from_raw(0) };
            if w != canvas_width || h != canvas_height {
                &&& plan.resize_to == Some((w, h))
                &&& plan.events@ == seq![
                    RawEvent::WindowResized { width: w, height: h, window_id: WindowId::from_raw(0) },
                    draw,
                ]
            } else {
                &&& plan.resize_to is None
                &&& plan.events@ == seq![draw]
            }
        }),
{
    let w = to_u32(client_width);
    let h = to_u32(client_height);
    let mut events: Vec<RawEvent> = Vec::new();
    let mut resize_to: Option<(u32, u32)> = None;
    if w != canvas_width || h != canvas_height {
        resize_to = Some((w, h));
        events.push(RawEvent::WindowResized { width: w, height: h, window_id: WindowId::new(0) });
    }
    events.push(RawEvent::Draw { window_id: WindowId::new(0) });
    let ghost draw = RawEvent::Draw { window_id: WindowId::from_raw(0) };
    assert(w != canvas_width || h != canvas_height ==> events@ =~= seq![
        RawEvent::WindowResized { width: w, height: h, window_id: WindowId::from_raw(0) },
        draw,
    ]);
    assert(!(w != canvas_width || h != canvas_height) ==> events@ =~= seq![draw]);
    FramePlan { resize_to, events }
}

} // verus!
