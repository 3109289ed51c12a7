use kapp::events::{Cursor, Key, PointerButton, PointerSource, RawEvent};
use kapp::sdl::{
    end_of_batch, new_window_plan, system_cursor, translate_event, SdlCursor, SdlEvent,
    SDL_KEYDOWN, SDL_KEYUP, SDL_MOUSEBUTTONDOWN, SDL_MOUSEBUTTONUP, SDL_TOUCH_MOUSEID,
    SDL_WINDOWPOS_UNDEFINED, SDL_WINDOW_ALLOW_HIGHDPI, SDL_WINDOW_OPENGL, SDL_WINDOW_RESIZABLE,
};
use kapp::window_id::WindowId;
use kapp::window_parameters::WindowParameters;

#[test]
fn quit_and_close() {
    assert_eq!(translate_event(SdlEvent::Quit), Some(vec![RawEvent::QuitRequested]));
    assert_eq!(
        translate_event(SdlEvent::Window { event: 14 }),
        Some(vec![RawEvent::WindowCloseRequested { window_id: WindowId::new(0) }])
    );
    assert_eq!(translate_event(SdlEvent::Window { event: 3 }), Some(vec![]));
    assert_eq!(translate_event(SdlEvent::Other { type_: 0x700 }), None);
}

#[test]
fn keys() {
    let e = SdlEvent::Keyboard { type_: SDL_KEYDOWN, timestamp: 12, scancode: 4, repeat: 0 };
    assert_eq!(translate_event(e), Some(vec![RawEvent::KeyDown { key: Key::Code(4), timestamp_ms: 12 }]));
    let e = SdlEvent::Keyboard { type_: SDL_KEYDOWN, timestamp: 13, scancode: 4, repeat: 1 };
    assert_eq!(translate_event(e), Some(vec![RawEvent::KeyRepeat { key: Key::Code(4), timestamp_ms: 13 }]));
    let e = SdlEvent::Keyboard { type_: SDL_KEYUP, timestamp: 14, scancode: 4, repeat: 0 };
    assert_eq!(translate_event(e), Some(vec![RawEvent::KeyUp { key: Key::Code(4), timestamp_ms: 14 }]));
}

#[test]
fn motion_reports_delta_then_position() {
    let e = SdlEvent::MouseMotion { timestamp: 5, which: SDL_TOUCH_MOUSEID, x: 3, y: 4, xrel: -1, yrel: 2 };
    assert_eq!(
        translate_event(e),
        Some(vec![
            RawEvent::MouseMotion { delta_x: -1, delta_y: 2, timestamp_ms: 5 },
            RawEvent::PointerMoved { x: 3, y: 4, source: PointerSource::Touch, timestamp_ms: 5 },
        ])
    );
}

#[test]
fn double_clicks() {
    let e = SdlEvent::MouseButton { type_: SDL_MOUSEBUTTONDOWN, timestamp: 1, which: 0, button: 3, clicks: 2, x: 7, y: 8 };
    assert_eq!(
        translate_event(e),
        Some(vec![
            RawEvent::PointerDown { x: 7, y: 8, source: PointerSource::Mouse, button: PointerButton::Secondary, timestamp_ms: 1 },
            RawEvent::DoubleClickDown { x: 7, y: 8, button: PointerButton::Secondary, timestamp_ms: 1 },
            RawEvent::DoubleClick { x: 7, y: 8, button: PointerButton::Secondary, timestamp_ms: 1 },
        ])
    );
    let e = SdlEvent::MouseButton { type_: SDL_MOUSEBUTTONUP, timestamp: 2, which: 0, button: 9, clicks: 2, x: 7, y: 8 };
    assert_eq!(
        translate_event(e),
        Some(vec![
            RawEvent::PointerUp { x: 7, y: 8, source: PointerSource::Mouse, button: PointerButton::Unknown, timestamp_ms: 2 },
            RawEvent::DoubleClickUp { x: 7, y: 8, button: PointerButton::Unknown, timestamp_ms: 2 },
        ])
    );
    let e = SdlEvent::MouseButton { type_: SDL_MOUSEBUTTONDOWN, timestamp: 1, which: 0, button: 1, clicks: 1, x: 0, y: 0 };
    assert_eq!(
        translate_event(e),
        Some(vec![RawEvent::PointerDown { x: 0, y: 0, source: PointerSource::Mouse, button: PointerButton::Primary, timestamp_ms: 1 }])
    );
}

#[test]
fn text_input_sends_each_character() {
    let e = SdlEvent::TextInput { text: vec!['h', 'é'] };
    assert_eq!(
        translate_event(e),
        Some(vec![
            RawEvent::CharacterReceived { character: 'h' },
            RawEvent::CharacterReceived { character: 'é' },
        ])
    );
    let e = SdlEvent::TextEditing { text: vec!['a'] };
    assert_eq!(translate_event(e), Some(vec![RawEvent::IMEComposition { composition: vec!['a'] }]));
}

#[test]
fn batch_end() {
    assert_eq!(end_of_batch(true), vec![]);
    assert_eq!(
        end_of_batch(false),
        vec![RawEvent::EventsCleared, RawEvent::Draw { window_id: WindowId::new(0) }]
    );
}

#[test]
fn window_plan() {
    let p = WindowParameters {
        position: None,
        size: Some((800, 601)),
        minimum_size: Some((100, 50)),
        resizable: true,
        title: String::from("demo"),
    };
    let plan = new_window_plan(&p);
    assert_eq!(plan.x, SDL_WINDOWPOS_UNDEFINED);
    assert_eq!(plan.y, SDL_WINDOWPOS_UNDEFINED);
    assert_eq!((plan.width, plan.height), (400, 300));
    assert_eq!(plan.flags, SDL_WINDOW_OPENGL | SDL_WINDOW_ALLOW_HIGHDPI | SDL_WINDOW_RESIZABLE);
    assert_eq!(plan.minimum_size, Some((100, 50)));
    let p = WindowParameters { position: Some((10, 20)), resizable: false, minimum_size: None, ..p };
    let plan = new_window_plan(&p);
    assert_eq!((plan.x, plan.y), (10, 20));
    assert_eq!(plan.flags, 0x2002);
    assert_eq!(plan.minimum_size, None);
}

#[test]
fn sdl_cursors() {
    assert_eq!(system_cursor(Cursor::IBeam), SdlCursor::IBeam);
    assert_eq!(system_cursor(Cursor::OpenHand), SdlCursor::OpenHand);
    assert_eq!(system_cursor(Cursor::ClosedHand), SdlCursor::Arrow);
    assert_eq!(system_cursor(Cursor::PointingHand), SdlCursor::Arrow);
}
