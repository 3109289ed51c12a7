use kapp::events::{Key, PointerButton, PointerSource, RawEvent};
use kapp::win32::{
    client_size, cursor_resource, get_width_height, get_x_lparam, get_y_lparam, hiword, loword,
    process_key_down, process_key_event, process_key_up, requested_client_rect, resize_event,
    win32_string, window_callback, window_position, Special, Step, CW_USEDEFAULT, IDC_ARROW, IDC_HAND,
    IDC_IBEAM, WM_CLOSE, WM_CREATE, WM_DPICHANGED, WM_GETMINMAXINFO, WM_KEYDOWN, WM_KEYUP,
    WM_LBUTTONDBLCLK, WM_LBUTTONDOWN, WM_MOUSEMOVE, WM_NCDESTROY, WM_PAINT, WM_RBUTTONUP,
    WM_SETCURSOR, WM_SIZE, WM_SIZING, WM_XBUTTONDOWN, WM_XBUTTONUP,
};
use kapp::events::Cursor;
use kapp::window_id::WindowId;
use kapp::window_parameters::WindowParameters;

fn params(position: Option<(u32, u32)>, size: Option<(u32, u32)>) -> WindowParameters {
    WindowParameters {
        position,
        size,
        minimum_size: None,
        resizable: true,
        title: String::from("t"),
    }
}

#[test]
fn words_split_a_parameter() {
    assert_eq!(loword(0x1234_5678), 0x5678);
    assert_eq!(hiword(0x1234_5678), 0x1234);
    assert_eq!(get_width_height(0x0258_0320), (800, 600));
}

#[test]
fn word_split_round_trips() {
    let v: u32 = 0xBEEF_CAFE;
    assert_eq!((hiword(v) as u32) * 0x10000 + loword(v) as u32, v);
}

#[test]
fn coordinates_are_sign_extended() {
    // x = -1 (0xFFFF), y = 10
    let l_param: isize = 0x000A_FFFF;
    assert_eq!(get_x_lparam(l_param), -1);
    assert_eq!(get_y_lparam(l_param), 10);
    // y = -2 in the high word
    let l_param: isize = 0xFFFE_0005u32 as i32 as isize;
    assert_eq!(get_x_lparam(l_param), 5);
    assert_eq!(get_y_lparam(l_param), -2);
}

#[test]
fn key_event_fields() {
    // bit 30 set: repeat; bit 20 set: scan code 0x10
    let l_param: isize = (1 << 30) | (1 << 20);
    assert_eq!(process_key_event(0x41, l_param), (16, Key::Code(0x41), true));
    assert_eq!(process_key_event(0x41, 0x401E_0001), (0x1E, Key::Code(0x41), true));
    assert_eq!(process_key_event(0x41, 0x00FF_0000), (0xFF, Key::Code(0x41), false));
    assert_eq!(process_key_event(0x41, 0), (0, Key::Code(0x41), false));
}

#[test]
fn key_down_repeat_and_up() {
    assert_eq!(
        process_key_down(0x41, 0, 7),
        RawEvent::KeyDown { key: Key::Code(0x41), timestamp_ms: 7 }
    );
    assert_eq!(
        process_key_down(0x41, 1 << 30, 8),
        RawEvent::KeyRepeat { key: Key::Code(0x41), timestamp_ms: 8 }
    );
    assert_eq!(
        process_key_up(0x41, 1 << 30, 9),
        RawEvent::KeyUp { key: Key::Code(0x41), timestamp_ms: 9 }
    );
}

#[test]
fn close_is_refused_and_reported() {
    let r = window_callback(42, WM_CLOSE, 0, 0, 1);
    assert_eq!(
        r.steps,
        vec![Step::Send(RawEvent::WindowCloseRequested { window_id: WindowId::new(42) })]
    );
    assert_eq!(r.result, Some(0));
    assert_eq!(r.special, Special::Nothing);
}

#[test]
fn size_restored_draws_twice() {
    let id = WindowId::new(5);
    let r = window_callback(5, WM_SIZE, 0, 0x0064_00C8, 3);
    assert_eq!(
        r.steps,
        vec![
            Step::Send(RawEvent::WindowResized { width: 200, height: 100, window_id: id }),
            Step::Send(RawEvent::WindowRestored { window_id: id }),
            Step::DrawNow(id),
            Step::DrawNow(id),
        ]
    );
    assert_eq!(r.result, Some(0));
}

#[test]
fn size_maximized_and_minimized() {
    let id = WindowId::new(5);
    assert_eq!(
        resize_event(5, 0x0064_00C8, 2),
        vec![
            Step::Send(RawEvent::WindowResized { width: 200, height: 100, window_id: id }),
            Step::Send(RawEvent::WindowMaximized { window_id: id }),
        ]
    );
    assert_eq!(
        resize_event(5, 0, 1),
        vec![
            Step::Send(RawEvent::WindowResized { width: 0, height: 0, window_id: id }),
            Step::Send(RawEvent::WindowMinimized { window_id: id }),
        ]
    );
    assert_eq!(
        resize_event(5, 0, 4),
        vec![Step::Send(RawEvent::WindowResized { width: 0, height: 0, window_id: id })]
    );
}

#[test]
fn mouse_buttons() {
    let l_param: isize = 0x0014_000A; // x 10, y 20
    let r = window_callback(1, WM_LBUTTONDOWN, 0, l_param, 4);
    assert_eq!(
        r.steps,
        vec![Step::Send(RawEvent::PointerDown {
            x: 10,
            y: 20,
            source: PointerSource::Mouse,
            button: PointerButton::Primary,
            timestamp_ms: 4,
        })]
    );
    assert_eq!(r.result, None);
    let r = window_callback(1, WM_RBUTTONUP, 0, l_param, 4);
    assert_eq!(
        r.steps,
        vec![Step::Send(RawEvent::PointerUp {
            x: 10,
            y: 20,
            source: PointerSource::Mouse,
            button: PointerButton::Secondary,
            timestamp_ms: 4,
        })]
    );
    let r = window_callback(1, WM_XBUTTONDOWN, 0x0002_0000, l_param, 4);
    assert_eq!(
        r.steps,
        vec![Step::Send(RawEvent::PointerDown {
            x: 10,
            y: 20,
            source: PointerSource::Mouse,
            button: PointerButton::Extra2,
            timestamp_ms: 4,
        })]
    );
    let r = window_callback(1, WM_XBUTTONUP, 0x0001_0000, l_param, 4);
    assert_eq!(
        r.steps,
        vec![Step::Send(RawEvent::PointerUp {
            x: 10,
            y: 20,
            source: PointerSource::Mouse,
            button: PointerButton::Extra1,
            timestamp_ms: 4,
        })]
    );
}

#[test]
fn double_click_sends_a_press_first() {
    let r = window_callback(1, WM_LBUTTONDBLCLK, 0, 0x0002_0001, 6);
    assert_eq!(
        r.steps,
        vec![
            Step::Send(RawEvent::PointerDown {
                x: 1,
                y: 2,
                source: PointerSource::Mouse,
                button: PointerButton::Primary,
                timestamp_ms: 6,
            }),
            Step::Send(RawEvent::DoubleClickDown {
                x: 1,
                y: 2,
                button: PointerButton::Primary,
                timestamp_ms: 6,
            }),
        ]
    );
}

#[test]
fn mouse_move_and_keys() {
    let r = window_callback(1, WM_MOUSEMOVE, 0, 0x0002_0001, 6);
    assert_eq!(
        r.steps,
        vec![Step::Send(RawEvent::PointerMoved {
            x: 1,
            y: 2,
            source: PointerSource::Mouse,
            timestamp_ms: 6,
        })]
    );
    let r = window_callback(1, WM_KEYDOWN, 0x20, 1 << 30, 6);
    assert_eq!(
        r.steps,
        vec![Step::Send(RawEvent::KeyRepeat { key: Key::Code(0x20), timestamp_ms: 6 })]
    );
    let r = window_callback(1, WM_KEYUP, 0x20, 0, 6);
    assert_eq!(r.steps, vec![Step::Send(RawEvent::KeyUp { key: Key::Code(0x20), timestamp_ms: 6 })]);
}

#[test]
fn dpi_change_reports_dpi() {
    let r = window_callback(9, WM_DPICHANGED, 0x0090_0090, 0, 0);
    assert_eq!(
        r.steps,
        vec![Step::Send(RawEvent::WindowScaleChanged { dpi: 144, window_id: WindowId::new(9) })]
    );
    assert_eq!(r.result, None);
}

#[test]
fn special_messages() {
    assert_eq!(window_callback(1, WM_CREATE, 0, 0, 0).special, Special::StoreCreateParams);
    let r = window_callback(1, WM_SETCURSOR, 0, 0, 0);
    assert_eq!(r.special, Special::SetCursorUnlessDefault);
    assert_eq!(r.result, Some(0));
    assert_eq!(window_callback(1, WM_GETMINMAXINFO, 0, 0, 0).special, Special::ApplyMinimumTrackSize);
    assert_eq!(window_callback(1, WM_NCDESTROY, 0, 0, 0).special, Special::FreeWindowData);
    assert_eq!(window_callback(1, WM_SIZING, 0, 0, 0).result, Some(1));
    let r = window_callback(1, WM_PAINT, 0, 0, 0);
    assert!(r.steps.is_empty());
    assert_eq!(r.result, None);
    assert_eq!(r.special, Special::Nothing);
}

#[test]
fn win32_cursors() {
    assert_eq!(cursor_resource(Cursor::Arrow), IDC_ARROW);
    assert_eq!(cursor_resource(Cursor::IBeam), IDC_IBEAM);
    assert_eq!(cursor_resource(Cursor::PointingHand), IDC_ARROW);
    assert_eq!(cursor_resource(Cursor::OpenHand), IDC_HAND);
    assert_eq!(cursor_resource(Cursor::ClosedHand), IDC_HAND);
    assert_eq!(IDC_HAND, 32649);
}

#[test]
fn window_placement() {
    assert_eq!(window_position(&params(None, None)), (CW_USEDEFAULT, CW_USEDEFAULT));
    assert_eq!(CW_USEDEFAULT, i32::MIN);
    assert_eq!(window_position(&params(Some((200, 300)), None)), (200, 300));
    assert_eq!(window_position(&params(Some((u32::MAX, 1)), None)), (-1, 1));
    assert_eq!(requested_client_rect(&params(None, Some((640, 480)))), Some((640, 480)));
    assert_eq!(requested_client_rect(&params(None, None)), None);
}

#[test]
fn client_sizes() {
    assert_eq!(client_size(10, 20, 110, 220), (100, 200));
    assert_eq!(client_size(10, 0, 5, 0), (u32::MAX - 4, 0));
}

#[test]
fn wide_strings_end_with_nul() {
    assert_eq!(win32_string(""), vec![0]);
    assert_eq!(win32_string("Ab"), vec![0x41, 0x62, 0]);
    assert_eq!(win32_string("\u{e9}"), vec![0xE9, 0]);
    assert_eq!(win32_string("\u{1F600}"), vec![0xD83D, 0xDE00, 0]);
}
