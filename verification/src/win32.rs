use vstd::prelude::*;

use crate::events::{event_button, Cursor, Key, PointerButton, PointerSource, RawEvent};
use crate::window_parameters::WindowParameters;
use crate::window_id::WindowId;

verus! {

/// The low 16 bits of a 32-bit message parameter.
pub open spec fn low_word(v: u32) -> int {
    v as int % 0x10000
}

/// Bits 16 to 31 of a 32-bit message parameter.
pub open spec fn high_word(v: u32) -> int {
    v as int / 0x10000
}

/// A 16-bit word read as a two's complement signed number.
pub open spec fn signed_word(w: int) -> int {
    if w < 0x8000 {
        w
    } else {
        w - 0x10000
    }
}

/// Bit `n` of a 32-bit message parameter.
pub open spec fn bit_set(v: u32, n: nat) -> bool {
    (v as int / vstd::arithmetic::power2::pow2(n) as int) % 2 == 1
}

/// The two words of a 32-bit parameter put together give it back.
pub proof fn law_words_round_trip(v: u32)
    ensures
        high_word(v) * 0x10000 + low_word(v) == v,
        0 <= low_word(v) < 0x10000,
        0 <= high_word(v) < 0x10000,
{
}

/// A 16-bit coordinate read back as signed keeps its value.
pub proof fn law_signed_word_round_trip(c: int)
    requires
        -0x8000 <= c < 0x8000,
    ensures
        signed_word(if c < 0 { c + 0x10000 } else { c }) == c,
{
}

/// `LOWORD`: the low word of a 32-bit value.
pub fn loword(v: u32) -> (w: u16)
    ensures
        w == low_word(v),
{
    assert(v & 0xffff == v % 0x10000) by (bit_vector);
    (v & 0xffff) as u16
}

/// `HIWORD`: the high word of a 32-bit value.
pub fn hiword(v: u32) -> (w: u16)
    ensures
        w == high_word(v),
{
    assert((v >> 16) & 0xffff == v / 0x10000) by (bit_vector);
    ((v >> 16) & 0xffff) as u16
}

/// Sign-extends a 16-bit word.
fn sign_extend(w: u16) -> (r: i32)
    ensures
        r == signed_word(w as int),
{
    if w < 0x8000 {
        w as i32
    } else {
        w as i32 - 0x10000
    }
}

/// `GET_X_LPARAM`: the signed x coordinate packed in the low word.
pub fn get_x_lparam(l_param: isize) -> (x: i32)
    ensures
        x == signed_word(low_word(l_param as u32)),
{
    sign_extend(loword(l_param as u32))
}

/// `GET_Y_LPARAM`: the signed y coordinate packed in the high word.
pub fn get_y_lparam(l_param: isize) -> (y: i32)
    ensures
        y == signed_word(high_word(l_param as u32)),
{
    sign_extend(hiword(l_param as u32))
}


/// The scan code of a key message: bits 16 to 23 of `l_param`.
pub open spec fn scancode_of(l_param: isize) -> u32 {
    ((l_param as u32) >> 16u32) & 0xFFu32
}

/// Splits a key message into its scan code, key and repeat flag.
/// Bit 30 of `l_param` is the previous key state: set when the key was
/// already down, which makes the message a repeat.
pub fn process_key_event(w_param: usize, l_param: isize) -> (r: (u32, Key, bool))
    ensures
        r.0 == scancode_of(l_param),
        r.1 == Key::Code(w_param as u32),
        r.2 == bit_set(l_param as u32, 30),
{
    let lp = l_param as u32;
    proof {
        vstd::arithmetic::power2::lemma2_to64();
    }
    assert(((lp >> 30) & 1 == 1) == ((lp / 0x40000000) % 2 == 1)) by (bit_vector);
    let scancode = (lp >> 16) & 0xFF;
    let repeat = (lp >> 30) & 1 == 1;
    (scancode, Key::Code(w_param as u32), repeat)
}

/// The event a `WM_KEYDOWN` message produces.
pub open spec fn key_down_event(w_param: usize, l_param: isize, time_ms: u64) -> RawEvent {
    if bit_set(l_param as u32, 30) {
        RawEvent::KeyRepeat { key: Key::Code(w_param as u32), timestamp_ms: time_ms }
    } else {
        RawEvent::KeyDown { key: Key::Code(w_param as u32), timestamp_ms: time_ms }
    }
}

/// `WM_KEYDOWN`: a repeat when the key was already down, else a key press.
pub fn process_key_down(w_param: usize, l_param: isize, time_ms: u64) -> (e: RawEvent)
    ensures
        e == key_down_event(w_param, l_param, time_ms),
{
    let (_scancode, key, repeat) = process_key_event(w_param, l_param);
    if repeat {
        RawEvent::KeyRepeat { key, timestamp_ms: time_ms }
    } else {
        RawEvent::KeyDown { key, timestamp_ms: time_ms }
    }
}

/// `WM_KEYUP`: a key release.
pub fn process_key_up(w_param: usize, l_param: isize, time_ms: u64) -> (e: RawEvent)
    ensures
        e == (RawEvent::KeyUp { key: Key::Code(w_param as u32), timestamp_ms: time_ms }),
{
    let (_scancode, key, _repeat) = process_key_event(w_param, l_param);
    RawEvent::KeyUp { key, timestamp_ms: time_ms }
}

/// The new client size that `WM_SIZE` packs in its `l_param`.
pub fn get_width_height(l_param: isize) -> (r: (u32, u32))
    ensures
        r.0 == low_word(l_param as u32),
        r.1 == high_word(l_param as u32),
{
    let width = loword(l_param as u32) as u32;
    let height = hiword(l_param as u32) as u32;
    (width, height)
}

/// `WM_MOUSEMOVE`: the pointer moved to the coordinates in `l_param`.
pub fn process_mouse_move_event(l_param: isize, time_ms: u64) -> (e: RawEvent)
    ensures
        e == (RawEvent::PointerMoved {
            x: signed_word(low_word(l_param as u32)) as i32,
            y: signed_word(high_word(l_param as u32)) as i32,
            source: PointerSource::Mouse,
            timestamp_ms: time_ms,
        }),
{
    RawEvent::PointerMoved {
        x: get_x_lparam(l_param),
        y: get_y_lparam(l_param),
        source: PointerSource::Mouse,
        timestamp_ms: time_ms,
    }
}


pub const WM_CREATE: u32 = 0x0001;
pub const WM_SIZE: u32 = 0x0005;
pub const WM_PAINT: u32 = 0x000F;
pub const WM_CLOSE: u32 = 0x0010;
pub const WM_QUIT: u32 = 0x0012;
pub const WM_SETCURSOR: u32 = 0x0020;
pub const WM_GETMINMAXINFO: u32 = 0x0024;
pub const WM_NCDESTROY: u32 = 0x0082;
pub const WM_KEYDOWN: u32 = 0x0100;
pub const WM_KEYUP: u32 = 0x0101;
pub const WM_MOUSEMOVE: u32 = 0x0200;
pub const WM_LBUTTONDOWN: u32 = 0x0201;
pub const WM_LBUTTONUP: u32 = 0x0202;
pub const WM_LBUTTONDBLCLK: u32 = 0x0203;
pub const WM_RBUTTONDOWN: u32 = 0x0204;
pub const WM_RBUTTONUP: u32 = 0x0205;
pub const WM_RBUTTONDBLCLK: u32 = 0x0206;
pub const WM_MBUTTONDOWN: u32 = 0x0207;
pub const WM_MBUTTONUP: u32 = 0x0208;
pub const WM_MBUTTONDBLCLK: u32 = 0x0209;
pub const WM_XBUTTONDOWN: u32 = 0x020B;
pub const WM_XBUTTONUP: u32 = 0x020C;
pub const WM_XBUTTONDBLCLK: u32 = 0x020D;
pub const WM_SIZING: u32 = 0x0214;
pub const WM_ENTERSIZEMOVE: u32 = 0x0231;
pub const WM_EXITSIZEMOVE: u32 = 0x0232;
pub const WM_DPICHANGED: u32 = 0x02E0;
pub const XBUTTON1: u16 = 0x0001;
pub const XBUTTON2: u16 = 0x0002;
pub const SIZE_RESTORED: usize = 0;
pub const SIZE_MINIMIZED: usize = 1;
pub const SIZE_MAXIMIZED: usize = 2;
pub const TRUE: isize = 1;

/// One thing the window procedure does for a message, in order.
#[derive(Debug, Clone, PartialEq)]
pub enum Step {
    /// Hand the event to the program's callback.
    Send(RawEvent),
    /// Draw the window immediately, outside the event loop.
    DrawNow(WindowId),
}

/// Work for a message that needs the operating system's own data.
#[derive(Debug, Clone, Copy, PartialEq, Eq, Structural)]
pub enum Special {
    Nothing,
    /// `WM_CREATE`: keep the window data pointer handed to `CreateWindowExW`.
    StoreCreateParams,
    /// `WM_SETCURSOR`: let the default procedure choose the cursor, and set
    /// the program's cursor when it does not.
    SetCursorUnlessDefault,
    /// `WM_GETMINMAXINFO`: apply the window's minimum size, once its data exists.
    ApplyMinimumTrackSize,
    /// `WM_NCDESTROY`: free the window data.
    FreeWindowData,
}

/// What the window procedure does for one message: the steps, the work
/// that needs the operating system, and the value it returns; `None` means
/// that the message goes on to `DefWindowProcW`, whose result is returned.
#[derive(Debug, Clone, PartialEq)]
pub struct MessageResponse {
    pub steps: Vec<Step>,
    pub special: Special,
    pub result: Option<isize>,
}

/// The pointer button an `XBUTTON` message names in its high word.
pub open spec fn xbutton_of(w_param: usize) -> PointerButton {
    if high_word(w_param as u32) == XBUTTON1 as int {
        PointerButton::Extra1
    } else {
        PointerButton::Extra2
    }
}

/// The `XBUTTON` messages name the first or the second extra button.
pub open spec fn xbutton_known(w_param: usize) -> bool {
    high_word(w_param as u32) == XBUTTON1 as int || high_word(w_param as u32) == XBUTTON2 as int
}

pub open spec fn is_xbutton_message(msg: u32) -> bool {
    msg == WM_XBUTTONDOWN || msg == WM_XBUTTONUP || msg == WM_XBUTTONDBLCLK
}

/// The steps for `WM_SIZE`, before the final redraw: the new size, then the
/// state the window entered.
pub open spec fn resize_steps(hwnd: usize, l_param: isize, w_param: usize) -> Seq<Step> {
    let id = WindowId::from_raw(hwnd);
    let resized = Step::Send(
        RawEvent::WindowResized {
            width: low_word(l_param as u32) as u32,
            height: high_word(l_param as u32) as u32,
            window_id: id,
        },
    );
    if w_param == SIZE_MAXIMIZED {
        seq![resized, Step::Send(RawEvent::WindowMaximized { window_id: id })]
    } else if w_param == SIZE_MINIMIZED {
        seq![resized, Step::Send(RawEvent::WindowMinimized { window_id: id })]
    } else if w_param == SIZE_RESTORED {
        seq![resized, Step::Send(RawEvent::WindowRestored { window_id: id }), Step::DrawNow(id)]
    } else {
        seq![resized]
    }
}

/// A button press at the message's coordinates.
pub open spec fn press_steps(l_param: isize, button: PointerButton, time_ms: u64) -> Seq<Step> {
    seq![
        Step::Send(
            RawEvent::PointerDown {
                x: signed_word(low_word(l_param as u32)) as i32,
                y: signed_word(high_word(l_param as u32)) as i32,
                source: PointerSource::Mouse,
                button,
                timestamp_ms: time_ms,
            },
        ),
    ]
}

/// A button release at the message's coordinates.
pub open spec fn release_steps(l_param: isize, button: PointerButton, time_ms: u64) -> Seq<Step> {
    seq![
        Step::Send(
            RawEvent::PointerUp {
                x: signed_word(low_word(l_param as u32)) as i32,
                y: signed_word(high_word(l_param as u32)) as i32,
                source: PointerSource::Mouse,
                button,
                timestamp_ms: time_ms,
            },
        ),
    ]
}

/// A double click: Windows swallows the second press, so a press is sent
/// before the double click.
pub open spec fn double_click_steps(l_param: isize, button: PointerButton, time_ms: u64) -> Seq<Step> {
    press_steps(l_param, button, time_ms).push(
        Step::Send(
            RawEvent::DoubleClickDown {
                x: signed_word(low_word(l_param as u32)) as i32,
                y: signed_word(high_word(l_param as u32)) as i32,
                button,
                timestamp_ms: time_ms,
            },
        ),
    )
}

/// The steps the window procedure takes for a message.
pub open spec fn message_steps(
    msg: u32,
    w_param: usize,
    l_param: isize,
    hwnd: usize,
    time_ms: u64,
) -> Seq<Step> {
    let id = WindowId::from_raw(hwnd);
    if msg == WM_CLOSE {
        seq![Step::Send(RawEvent::WindowCloseRequested { window_id: id })]
    } else if msg == WM_KEYDOWN {
        seq![Step::Send(key_down_event(w_param, l_param, time_ms))]
    } else if msg == WM_KEYUP {
        seq![Step::Send(RawEvent::KeyUp { key: Key::Code(w_param as u32), timestamp_ms: time_ms })]
    } else if msg == WM_SIZE {
        resize_steps(hwnd, l_param, w_param).push(Step::DrawNow(id))
    } else if msg == WM_LBUTTONDOWN {
        press_steps(l_param, PointerButton::Primary, time_ms)
    } else if msg == WM_MBUTTONDOWN {
        press_steps(l_param, PointerButton::Auxillary, time_ms)
    } else if msg == WM_RBUTTONDOWN {
        press_steps(l_param, PointerButton::Secondary, time_ms)
    } else if msg == WM_XBUTTONDOWN {
        press_steps(l_param, xbutton_of(w_param), time_ms)
    } else if msg == WM_LBUTTONUP {
        release_steps(l_param, PointerButton::Primary, time_ms)
    } else if msg == WM_MBUTTONUP {
        release_steps(l_param, PointerButton::Auxillary, time_ms)
    } else if msg == WM_RBUTTONUP {
        release_steps(l_param, PointerButton::Secondary, time_ms)
    } else if msg == WM_XBUTTONUP {
        release_steps(l_param, xbutton_of(w_param), time_ms)
    } else if msg == WM_MOUSEMOVE {
        seq![
            Step::Send(
                RawEvent::PointerMoved {
                    x: signed_word(low_word(l_param as u32)) as i32,
                    y: signed_word(high_word(l_param as u32)) as i32,
                    source: PointerSource::Mouse,
                    timestamp_ms: time_ms,
                },
            ),
        ]
    } else if msg == WM_LBUTTONDBLCLK {
        double_click_steps(l_param, PointerButton::Primary, time_ms)
    } else if msg == WM_MBUTTONDBLCLK {
        double_click_steps(l_param, PointerButton::Auxillary, time_ms)
    } else if msg == WM_RBUTTONDBLCLK {
        double_click_steps(l_param, PointerButton::Secondary, time_ms)
    } else if msg == WM_XBUTTONDBLCLK {
        double_click_steps(l_param, xbutton_of(w_param), time_ms)
    } else if msg == WM_DPICHANGED {
        seq![
            Step::Send(
                RawEvent::WindowScaleChanged { dpi: low_word(w_param as u32) as u32, window_id: id },
            ),
        ]
    } else {
        seq![]
    }
}

/// The operating-system work a message needs.
pub open spec fn message_special(msg: u32) -> Special {
    if msg == WM_CREATE {
        Special::StoreCreateParams
    } else if msg == WM_SETCURSOR {
        Special::SetCursorUnlessDefault
    } else if msg == WM_GETMINMAXINFO {
        Special::ApplyMinimumTrackSize
    } else if msg == WM_NCDESTROY {
        Special::FreeWindowData
    } else {
        Special::Nothing
    }
}

/// What the window procedure returns without calling `DefWindowProcW`:
/// a close is refused until the program drops the window, a sizing drag is
/// accepted, and cursor, move-loop and size messages are answered with 0.
pub open spec fn message_result(msg: u32) -> Option<isize> {
    if msg == WM_CLOSE || msg == WM_SETCURSOR || msg == WM_ENTERSIZEMOVE || msg
        == WM_EXITSIZEMOVE || msg == WM_SIZE {
        Some(0)
    } else if msg == WM_SIZING {
        Some(TRUE)
    } else {
        None
    }
}

/// Whether a message is one of the extra-button messages, whose high word
/// must name the first or the second extra button.
pub fn is_xbutton(msg: u32) -> (b: bool)
    ensures
        b == is_xbutton_message(msg),
{
    msg == WM_XBUTTONDOWN || msg == WM_XBUTTONUP || msg == WM_XBUTTONDBLCLK
}

/// The pointer button of an `XBUTTON` message.
fn xbutton(w_param: usize) -> (b: PointerButton)
    requires
        xbutton_known(w_param),
    ensures
        b == xbutton_of(w_param),
{
    if hiword(w_param as u32) == XBUTTON1 {
        PointerButton::Extra1
    } else {
        PointerButton::Extra2
    }
}

/// The steps for `WM_SIZE` before its final redraw.
pub fn resize_event(hwnd: usize, l_param: isize, w_param: usize) -> (steps: Vec<Step>)
    ensures
        steps@ == resize_steps(hwnd, l_param, w_param),
{
    let (width, height) = get_width_height(l_param);
    let mut steps: Vec<Step> = Vec::new();
    steps.push(Step::Send(RawEvent::WindowResized { width, height, window_id: WindowId::new(hwnd) }));
    if w_param == SIZE_MAXIMIZED {
        steps.push(Step::Send(RawEvent::WindowMaximized { window_id: WindowId::new(hwnd) }));
    } else if w_param == SIZE_MINIMIZED {
        steps.push(Step::Send(RawEvent::WindowMinimized { window_id: WindowId::new(hwnd) }));
    } else if w_param == SIZE_RESTORED {
        steps.push(Step::Send(RawEvent::WindowRestored { window_id: WindowId::new(hwnd) }));
        steps.push(Step::DrawNow(WindowId::new(hwnd)));
    }
    assert(steps@ =~= resize_steps(hwnd, l_param, w_param));
    steps
}

fn press(l_param: isize, button: PointerButton, time_ms: u64) -> (steps: Vec<Step>)
    ensures
        steps@ == press_steps(l_param, button, time_ms),
{
    let mut steps: Vec<Step> = Vec::new();
    steps.push(
        Step::Send(
            RawEvent::PointerDown {
                x: get_x_lparam(l_param),
                y: get_y_lparam(l_param),
                source: PointerSource::Mouse,
                button,
                timestamp_ms: time_ms,
            },
        ),
    );
    assert(steps@ =~= press_steps(l_param, button, time_ms));
    steps
}

fn release(l_param: isize, button: PointerButton, time_ms: u64) -> (steps: Vec<Step>)
    ensures
        steps@ == release_steps(l_param, button, time_ms),
{
    let mut steps: Vec<Step> = Vec::new();
    steps.push(
        Step::Send(
            RawEvent::PointerUp {
                x: get_x_lparam(l_param),
                y: get_y_lparam(l_param),
                source: PointerSource::Mouse,
                button,
                timestamp_ms: time_ms,
            },
        ),
    );
    assert(steps@ =~= release_steps(l_param, button, time_ms));
    steps
}

fn double_click(l_param: isize, button: PointerButton, time_ms: u64) -> (steps: Vec<Step>)
    ensures
        steps@ == double_click_steps(l_param, button, time_ms),
{
    let mut steps = press(l_param, button, time_ms);
    steps.push(
        Step::Send(
            RawEvent::DoubleClickDown {
                x: get_x_lparam(l_param),
                y: get_y_lparam(l_param),
                button,
                timestamp_ms: time_ms,
            },
        ),
    );
    steps
}

/// Decides what the window procedure does for message `msg` sent to window
/// `hwnd` at `time_ms`. An `XBUTTON` message must name one of the two extra
/// buttons.
pub fn window_callback(
    hwnd: usize,
    msg: u32,
    w_param: usize,
    l_param: isize,
    time_ms: u64,
) -> (r: MessageResponse)
    requires
        is_xbutton_message(msg) ==> xbutton_known(w_param),
    ensures
        r.steps@ == message_steps(msg, w_param, l_param, hwnd, time_ms),
        r.special == message_special(msg),
        r.result == message_result(msg),
{
    let mut steps: Vec<Step> = Vec::new();
    let mut special = Special::Nothing;
    let mut result: Option<isize> = None;
    if msg == WM_CREATE {
        special = Special::StoreCreateParams;
    } else if msg == WM_CLOSE {
        steps.push(Step::Send(RawEvent::WindowCloseRequested { window_id: WindowId::new(hwnd) }));
        result = Some(0);
    } else if msg == WM_KEYDOWN {
        steps.push(Step::Send(process_key_down(w_param, l_param, time_ms)));
    } else if msg == WM_KEYUP {
        steps.push(Step::Send(process_key_up(w_param, l_param, time_ms)));
    } else if msg == WM_SIZING {
        result = Some(TRUE);
    } else if msg == WM_SETCURSOR {
        special = Special::SetCursorUnlessDefault;
        result = Some(0);
    } else if msg == WM_ENTERSIZEMOVE || msg == WM_EXITSIZEMOVE {
        result = Some(0);
    } else if msg == WM_SIZE {
        steps = resize_event(hwnd, l_param, w_param);
        steps.push(Step::DrawNow(WindowId::new(hwnd)));
        result = Some(0);
    } else if msg == WM_LBUTTONDOWN {
        steps = press(l_param, PointerButton::Primary, time_ms);
    } else if msg == WM_MBUTTONDOWN {
        steps = press(l_param, PointerButton::Auxillary, time_ms);
    } else if msg == WM_RBUTTONDOWN {
        steps = press(l_param, PointerButton::Secondary, time_ms);
    } else if msg == WM_XBUTTONDOWN {
        steps = press(l_param, xbutton(w_param), time_ms);
    } else if msg == WM_LBUTTONUP {
        steps = release(l_param, PointerButton::Primary, time_ms);
    } else if msg == WM_MBUTTONUP {
        steps = release(l_param, PointerButton::Auxillary, time_ms);
    } else if msg == WM_RBUTTONUP {
        steps = release(l_param, PointerButton::Secondary, time_ms);
    } else if msg == WM_XBUTTONUP {
        steps = release(l_param, xbutton(w_param), time_ms);
    } else if msg == WM_MOUSEMOVE {
        steps.push(Step::Send(process_mouse_move_event(l_param, time_ms)));
    } else if msg == WM_LBUTTONDBLCLK {
        steps = double_click(l_param, PointerButton::Primary, time_ms);
    } else if msg == WM_MBUTTONDBLCLK {
        steps = double_click(l_param, PointerButton::Auxillary, time_ms);
    } else if msg == WM_RBUTTONDBLCLK {
        steps = double_click(l_param, PointerButton::Secondary, time_ms);
    } else if msg == WM_XBUTTONDBLCLK {
        steps = double_click(l_param, xbutton(w_param), time_ms);
    } else if msg == WM_DPICHANGED {
        let dpi = loword(w_param as u32) as u32;
        steps.push(Step::Send(RawEvent::WindowScaleChanged { dpi, window_id: WindowId::new(hwnd) }));
    } else if msg == WM_GETMINMAXINFO {
        special = Special::ApplyMinimumTrackSize;
    } else if msg == WM_NCDESTROY {
        special = Special::FreeWindowData;
    }
    assert(steps@ =~= message_steps(msg, w_param, l_param, hwnd, time_ms));
    MessageResponse { steps, special, result }
}


pub const IDC_ARROW: u16 = 32512;
pub const IDC_IBEAM: u16 = 32513;
pub const IDC_HAND: u16 = 32649;
/// `CW_USEDEFAULT`: let Windows choose the position or size.
pub const CW_USEDEFAULT: i32 = -0x8000_0000;

/// The system cursor shown for a cursor. Windows has no pointing hand or
/// closed hand of its own: those show the arrow and the hand.
pub open spec fn cursor_id(cursor: Cursor) -> u16 {
    match cursor {
        Cursor::Arrow => IDC_ARROW,
        Cursor::IBeam => IDC_IBEAM,
        Cursor::PointingHand => IDC_ARROW,
        Cursor::OpenHand => IDC_HAND,
        Cursor::ClosedHand => IDC_HAND,
    }
}

/// The resource id of the system cursor `set_cursor` loads.
pub fn cursor_resource(cursor: Cursor) -> (id: u16)
    ensures
        id == cursor_id(cursor),
{
    match cursor {
        Cursor::Arrow => IDC_ARROW,
        Cursor::IBeam => IDC_IBEAM,
        Cursor::PointingHand => IDC_ARROW,
        Cursor::OpenHand => IDC_HAND,
        Cursor::ClosedHand => IDC_HAND,
    }
}

/// A 32-bit unsigned value read as signed, as `as i32` does.
pub open spec fn as_signed(v: u32) -> int {
    if v < 0x8000_0000 {
        v as int
    } else {
        v - 0x1_0000_0000
    }
}

fn to_i32(v: u32) -> (r: i32)
    ensures
        r == as_signed(v),
{
    assert((v as i32) as int == if v < 0x8000_0000 { v as int } else { v - 0x1_0000_0000 })
        by (bit_vector);
    v as i32
}

/// Where `new_window` places a window: at the requested position, or where
/// Windows chooses.
pub fn window_position(window_parameters: &WindowParameters) -> (p: (i32, i32))
    ensures
        window_parameters.position matches Some(q) ==> p.0 == as_signed(q.0) && p.1 == as_signed(
            q.1,
        ),
        window_parameters.position is None ==> p == (CW_USEDEFAULT, CW_USEDEFAULT),
{
    match window_parameters.position {
        Some(position) => (to_i32(position.0), to_i32(position.1)),
        None => (CW_USEDEFAULT, CW_USEDEFAULT),
    }
}

/// The client rectangle `new_window` asks for, before Windows adds the
/// borders: from the origin to the requested size; `None` lets Windows
/// choose the size.
pub fn requested_client_rect(window_parameters: &WindowParameters) -> (r: Option<(i32, i32)>)
    ensures
        window_parameters.size matches Some(s) ==> r == Some(
            (as_signed(s.0) as i32, as_signed(s.1) as i32),
        ),
        window_parameters.size is None ==> r is None,
{
    match window_parameters.size {
        Some(size) => Some((to_i32(size.0), to_i32(size.1))),
        None => None,
    }
}


/// The width and height of a rectangle given by its edges; the edges must
/// be close enough for the differences to fit.
pub fn rect_extent(left: i32, top: i32, right: i32, bottom: i32) -> (r: (i32, i32))
    requires
        i32::MIN <= right - left <= i32::MAX,
        i32::MIN <= bottom - top <= i32::MAX,
    ensures
        r.0 == right - left,
        r.1 == bottom - top,
{
    (right - left, bottom - top)
}

/// A 32-bit signed value read as unsigned, as `as u32` does.
pub open spec fn as_unsigned(v: i32) -> u32 {
    if v >= 0 {
        v as u32
    } else {
        (v + 0x1_0000_0000) as u32
    }
}

fn to_u32(v: i32) -> (r: u32)
    ensures
        r == as_unsigned(v),
{
    assert((v as u32) as int == if v >= 0 { v as int } else { v + 0x1_0000_0000 }) by (bit_vector);
    v as u32
}

/// `get_window_size`: the client rectangle's width and height as unsigned
/// numbers.
pub fn client_size(left: i32, top: i32, right: i32, bottom: i32) -> (r: (u32, u32))
    requires
        i32::MIN <= right - left <= i32::MAX,
        i32::MIN <= bottom - top <= i32::MAX,
    ensures
        r.0 == as_unsigned((right - left) as i32),
        r.1 == as_unsigned((bottom - top) as i32),
{
    let (width, height) = rect_extent(left, top, right, bottom);
    (to_u32(width), to_u32(height))
}

/// The UTF-16 code units of one character: one unit below 0x10000,
/// otherwise a high and a low surrogate.
pub open spec fn utf16_of_char(c: char) -> Seq<u16> {
    let v = c as u32 as int;
    if v < 0x10000 {
        seq![v as u16]
    } else {
        let w = v - 0x10000;
        seq![(0xD800 + w / 0x400) as u16, (0xDC00 + w % 0x400) as u16]
    }
}

/// The UTF-16 encoding of a string.
pub open spec fn utf16(s: Seq<char>) -> Seq<u16>
    decreases s.len(),
{
    if s.len() == 0 {
        seq![]
    } else {
        utf16(s.drop_last()) + utf16_of_char(s.last())
    }
}

/// `str::encode_utf16`, collected: the string's UTF-16 code units.
#[verifier::external_body]
fn encode_utf16(value: &str) -> (r: Vec<u16>)
    ensures
        r@ == utf16(value@),
{
    value.encode_utf16().collect()
}

/// A string as the wide-character API takes it: UTF-16 code units ended by
/// a NUL unit.
pub fn win32_string(value: &str) -> (r: Vec<u16>)
    ensures
        r@ == utf16(value@).push(0),
{
    let mut units = encode_utf16(value);
    units.push(0);
    units
}

/// Every mouse-button message names its own button: the left-button
/// messages (0x201 to 0x203) give `Primary`, the right-button messages
/// (0x204 to 0x206) give `Secondary`, and the middle-button messages (0x207
/// to 0x209) give `Auxillary`, for a press, a release and a double click
/// alike. A press sends `PointerDown`, a release `PointerUp`, and a double
/// click `PointerDown` then `DoubleClickDown`, all at the message's
/// coordinates and time and with that button, and nothing else.
pub proof fn law_mouse_messages_name_their_button(
    msg: u32,
    w_param: usize,
    l_param: isize,
    hwnd: usize,
    time_ms: u64,
)
    requires
        0x201 <= msg <= 0x209,
    ensures
        ({
            let steps = message_steps(msg, w_param, l_param, hwnd, time_ms);
            let button = if msg <= 0x203 {
                PointerButton::Primary
            } else if msg <= 0x206 {
                PointerButton::Secondary
            } else {
                PointerButton::Auxillary
            };
            let x = signed_word(low_word(l_param as u32)) as i32;
            let y = signed_word(high_word(l_param as u32)) as i32;
            let kind = (msg - 0x201) % 3;
            &&& steps.len() == if kind == 2 { 2int } else { 1int }
            &&& forall|i: int| 0 <= i < steps.len() ==> (#[trigger] steps[i] matches Step::Send(e)
                && event_button(e) == Some(button))
            &&& kind == 0 ==> steps[0] == Step::Send(RawEvent::PointerDown {
                x, y, source: PointerSource::Mouse, button, timestamp_ms: time_ms,
            })
            &&& kind == 1 ==> steps[0] == Step::Send(RawEvent::PointerUp {
                x, y, source: PointerSource::Mouse, button, timestamp_ms: time_ms,
            })
            &&& kind == 2 ==> steps[0] == Step::Send(RawEvent::PointerDown {
                x, y, source: PointerSource::Mouse, button, timestamp_ms: time_ms,
            }) && steps[1] == Step::Send(RawEvent::DoubleClickDown {
                x, y, button, timestamp_ms: time_ms,
            })
        }),
{
}

/// The extra-button messages name the button their high word gives: 1 is
/// `Extra1` and 2 is `Extra2`, for a press, a release and a double click.
pub proof fn law_xbutton_messages_name_their_button(
    msg: u32,
    w_param: usize,
    l_param: isize,
    hwnd: usize,
    time_ms: u64,
)
    requires
        msg == 0x20B || msg == 0x20C || msg == 0x20D,
        high_word(w_param as u32) == 1 || high_word(w_param as u32) == 2,
    ensures
        ({
            let steps = message_steps(msg, w_param, l_param, hwnd, time_ms);
            let button = if high_word(w_param as u32) == 1 {
                PointerButton::Extra1
            } else {
                PointerButton::Extra2
            };
            &&& steps.len() > 0
            &&& forall|i: int| 0 <= i < steps.len() ==> (#[trigger] steps[i] matches Step::Send(e)
                && event_button(e) == Some(button))
        }),
{
}

} // verus!
