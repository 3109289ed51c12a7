use kapp::events::{Key, MouseButton, RawEvent};
use kapp::macos::{
    control_flow_end_handler, get_modifier_state, modifier_key_transitions, other_mouse_button,
    ApplicationData, KeyTransition, LoopEndStep, NSApplicationActivationPolicy,
    NS_EVENT_MODIFIER_FLAG_CAPS_LOCK, NS_TERMINATE_CANCEL, NS_TERMINATE_NOW,
    NX_DEVICELSHIFTKEYMASK, NX_DEVICERCMDKEYMASK, NX_DEVICERSHIFTKEYMASK,
};
use kapp::window_id::WindowId;

#[test]
fn modifier_state_reads_each_flag() {
    let s = get_modifier_state(NS_EVENT_MODIFIER_FLAG_CAPS_LOCK | NX_DEVICERSHIFTKEYMASK);
    assert_eq!(s, [true, false, true, false, false, false, false, false, false]);
    let s = get_modifier_state(NX_DEVICERCMDKEYMASK);
    assert_eq!(s, [false, false, false, false, false, false, false, false, true]);
}

#[test]
fn flag_changes_press_and_release() {
    let mut d = ApplicationData::new();
    assert_eq!(d.flags_changed(NX_DEVICELSHIFTKEYMASK), vec![KeyTransition::Pressed(Key::LeftShift)]);
    assert_eq!(d.modifier_flags, NX_DEVICELSHIFTKEYMASK);
    assert_eq!(
        d.flags_changed(NS_EVENT_MODIFIER_FLAG_CAPS_LOCK),
        vec![KeyTransition::Pressed(Key::CapsLock), KeyTransition::Released(Key::LeftShift)]
    );
    assert_eq!(d.flags_changed(NS_EVENT_MODIFIER_FLAG_CAPS_LOCK), vec![]);
}

#[test]
fn right_command_is_not_reported() {
    assert_eq!(modifier_key_transitions(0, NX_DEVICERCMDKEYMASK), vec![]);
    assert_eq!(modifier_key_transitions(0, 0x8), vec![KeyTransition::Pressed(Key::Meta)]);
}

#[test]
fn reverse_change_mirrors() {
    let a = 0x2 | 0x20;
    let b = 0x4 | 0x20 | 0x1;
    let forward = modifier_key_transitions(a, b);
    let back = modifier_key_transitions(b, a);
    assert_eq!(forward.len(), back.len());
    for (f, r) in forward.iter().zip(back.iter()) {
        match (f, r) {
            (KeyTransition::Pressed(k1), KeyTransition::Released(k2)) => assert_eq!(k1, k2),
            (KeyTransition::Released(k1), KeyTransition::Pressed(k2)) => assert_eq!(k1, k2),
            _ => panic!("not mirrored"),
        }
    }
}

#[test]
fn cursor_hide_calls_balanced() {
    let mut d = ApplicationData::new();
    assert!(d.hide_cursor());
    assert!(!d.hide_cursor());
    assert!(d.show_cursor());
    assert!(!d.show_cursor());
    assert!(d.hide_cursor());
    assert!(d.cursor_hidden);
}

#[test]
fn termination_waits_for_quit() {
    let mut d = ApplicationData::new();
    assert_eq!(d.application_should_terminate(), (NS_TERMINATE_CANCEL, Some(RawEvent::QuitRequested)));
    d.quit();
    assert_eq!(d.application_should_terminate(), (NS_TERMINATE_NOW, None));
}

#[test]
fn other_buttons() {
    assert_eq!(other_mouse_button(4), MouseButton::Middle);
    assert_eq!(other_mouse_button(8), MouseButton::Extra1);
    assert_eq!(other_mouse_button(16), MouseButton::Extra2);
    assert_eq!(other_mouse_button(2), MouseButton::Unknown);
}

#[test]
fn loop_end() {
    let a = WindowId::new(1);
    let b = WindowId::new(2);
    assert_eq!(
        control_flow_end_handler(&vec![a, b], &vec![false, true], true),
        vec![
            LoopEndStep::Send(RawEvent::Draw { window_id: a }),
            LoopEndStep::SetNeedsDisplay(b),
            LoopEndStep::Terminate,
            LoopEndStep::WakeRunLoop,
        ]
    );
    assert_eq!(
        control_flow_end_handler(&vec![], &vec![], false),
        vec![]
    );
    assert_eq!(
        control_flow_end_handler(&vec![], &vec![], true),
        vec![LoopEndStep::Terminate]
    );
}

#[test]
fn activation_policy() {
    assert_eq!(NSApplicationActivationPolicy::NSApplicationActivationPolicyRegular.code(), 0);
}
