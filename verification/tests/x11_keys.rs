use kapp::events::{Key, RawEvent};
use kapp::x11::{check_error, check_not_zero, KeyTracker, KEY_PRESS, KEY_RELEASE};

#[test]
fn second_press_is_a_repeat() {
    let mut t = KeyTracker::new();
    let k = Key::Code(38);
    assert_eq!(t.key_press(38, k, 1), RawEvent::KeyDown { key: k, timestamp_ms: 1 });
    assert_eq!(t.key_press(38, k, 2), RawEvent::KeyRepeat { key: k, timestamp_ms: 2 });
    assert!(t.is_down(38));
}

#[test]
fn press_after_release_is_down() {
    let mut t = KeyTracker::new();
    let k = Key::Code(9);
    t.key_press(9, k, 1);
    assert_eq!(t.key_release(9, k, 2), RawEvent::KeyUp { key: k, timestamp_ms: 2 });
    assert!(!t.is_down(9));
    assert_eq!(t.key_press(9, k, 3), RawEvent::KeyDown { key: k, timestamp_ms: 3 });
}

#[test]
fn other_keys_are_independent() {
    let mut t = KeyTracker::new();
    t.key_press(10, Key::Code(10), 1);
    assert_eq!(t.key_press(11, Key::Code(11), 2), RawEvent::KeyDown { key: Key::Code(11), timestamp_ms: 2 });
    t.key_release(10, Key::Code(10), 3);
    assert!(t.is_down(11));
    assert!(t.is_down(254) == false);
}

#[test]
fn events_by_type() {
    let mut t = KeyTracker::new();
    assert_eq!(t.handle_event(KEY_PRESS, 50, Key::Code(1), 1), Some(RawEvent::KeyDown { key: Key::Code(1), timestamp_ms: 1 }));
    assert_eq!(t.handle_event(12, 50, Key::Code(1), 2), None);
    assert_eq!(t.handle_event(KEY_PRESS, 50, Key::Code(1), 3), Some(RawEvent::KeyRepeat { key: Key::Code(1), timestamp_ms: 3 }));
    assert_eq!(t.handle_event(KEY_RELEASE, 50, Key::Code(1), 4), Some(RawEvent::KeyUp { key: Key::Code(1), timestamp_ms: 4 }));
}

#[test]
fn status_checks() {
    assert_eq!(check_error(0), Ok(()));
    assert_eq!(check_error(3), Err(3));
    assert_eq!(check_not_zero(0), Err(()));
    assert_eq!(check_not_zero(77), Ok(77));
}
