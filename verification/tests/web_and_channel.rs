use kapp::events::{MouseButton, RawEvent};
use kapp::single_value_channel::channel;
use kapp::web::{animation_frame, mouse_button};
use kapp::window_id::WindowId;

#[test]
fn dom_buttons() {
    assert_eq!(mouse_button(0), MouseButton::Left);
    assert_eq!(mouse_button(1), MouseButton::Middle);
    assert_eq!(mouse_button(2), MouseButton::Right);
    assert_eq!(mouse_button(3), MouseButton::Extra1);
    assert_eq!(mouse_button(4), MouseButton::Extra2);
    assert_eq!(mouse_button(-1), MouseButton::Unknown);
}

#[test]
fn frame_resizes_when_client_size_changes() {
    let plan = animation_frame(640, 480, 300, 150);
    assert_eq!(plan.resize_to, Some((640, 480)));
    assert_eq!(
        plan.events,
        vec![
            RawEvent::WindowResized { width: 640, height: 480, window_id: WindowId::new(0) },
            RawEvent::Draw { window_id: WindowId::new(0) },
        ]
    );
    let plan = animation_frame(640, 480, 640, 480);
    assert_eq!(plan.resize_to, None);
    assert_eq!(plan.events, vec![RawEvent::Draw { window_id: WindowId::new(0) }]);
}

#[test]
fn channel_delivers_sent_value() {
    let (s, r) = channel::<u32>();
    assert_eq!(s.send(5), Ok(()));
    assert_eq!(r.recv(), Some(5));
}

#[test]
fn channel_keeps_latest_value() {
    let (s, r) = channel::<&str>();
    assert_eq!(s.send("first"), Ok(()));
    assert_eq!(s.send("second"), Ok(()));
    assert_eq!(r.recv(), Some("second"));
}
