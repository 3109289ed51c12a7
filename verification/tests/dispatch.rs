use kapp::event_receiver::EventReceiver;
use kapp::events::RawEvent;
use kapp::redraw::RedrawRequests;
use kapp::window_id::WindowId;

#[test]
fn idle_callback_gets_event_at_once() {
    let mut r: EventReceiver<u32> = EventReceiver::new();
    assert_eq!(r.send_event(1), Some(1));
    assert_eq!(r.next_overflow_event(), None);
    assert_eq!(r.send_event(2), Some(2));
}

#[test]
fn busy_callback_defers_and_drains_in_send_order() {
    let mut r: EventReceiver<u32> = EventReceiver::new();
    assert_eq!(r.send_event(1), Some(1));
    assert_eq!(r.send_event(2), None);
    assert_eq!(r.send_event(3), None);
    assert_eq!(r.next_overflow_event(), Some(2));
    assert_eq!(r.send_event(4), None);
    assert_eq!(r.next_overflow_event(), Some(3));
    assert_eq!(r.next_overflow_event(), Some(4));
    assert_eq!(r.next_overflow_event(), None);
    assert_eq!(r.send_event(5), Some(5));
}

#[test]
fn reentrant_events_reach_callback_in_send_order() {
    // e0 is delivered; its callback sends e1 then e2; e1's callback sends e3.
    let mut r: EventReceiver<u32> = EventReceiver::new();
    let mut received = Vec::new();
    let mut next = r.send_event(0);
    while let Some(e) = next {
        received.push(e);
        if e == 0 {
            assert_eq!(r.send_event(1), None);
            assert_eq!(r.send_event(2), None);
        } else if e == 1 {
            assert_eq!(r.send_event(3), None);
        }
        next = r.next_overflow_event();
    }
    assert_eq!(received, vec![0, 1, 2, 3]);
    assert_eq!(r.send_event(9), Some(9));
}

#[test]
fn redraw_requests_listed_once() {
    let mut q = RedrawRequests::new();
    let a = WindowId::new(1);
    let b = WindowId::new(2);
    q.redraw_window(a);
    q.redraw_window(a);
    q.redraw_window(b);
    assert_eq!(q.draw_requests_count(), 2);
    assert!(q.contains(b));
    assert_eq!(
        q.flush_draw_events(),
        vec![RawEvent::Draw { window_id: a }, RawEvent::Draw { window_id: b }]
    );
    assert_eq!(q.draw_requests_count(), 0);
    assert!(!q.contains(a));
}

#[test]
fn initial_draw_is_queued() {
    let mut q = RedrawRequests::new();
    q.request_initial_draw(WindowId::new(3));
    assert_eq!(q.flush_draw_events(), vec![RawEvent::Draw { window_id: WindowId::new(3) }]);
}

#[test]
fn initial_draw_after_redraw_is_one_draw() {
    let mut q = RedrawRequests::new();
    q.redraw_window(WindowId::new(3));
    q.request_initial_draw(WindowId::new(3));
    assert_eq!(q.flush_draw_events(), vec![RawEvent::Draw { window_id: WindowId::new(3) }]);
}

#[test]
fn window_ids() {
    assert_eq!(WindowId::new(77).raw(), 77);
    assert_eq!(WindowId::new(77), WindowId::new(77));
    assert_ne!(WindowId::new(1), WindowId::new(2));
}
