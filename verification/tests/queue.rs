use swhkd::events::{Event, KeyState, PointerEvent};
use swhkd::queue::{EventQueue, NextEvent};
use swhkd::translate::EvdevEvent;

fn ev(type_: u16, code: u16, value: i32) -> EvdevEvent {
    EvdevEvent { type_, code, value }
}

fn ready(q: &mut EventQueue) -> (String, EvdevEvent) {
    match q.next_event() {
        NextEvent::Ready(d, e) => (d, e),
        other => panic!("expected an event, got {:?}", other),
    }
}

#[test]
fn empty_queue_needs_input() {
    let mut q = EventQueue::new();
    assert!(matches!(q.next_event(), NextEvent::NeedsInput));
}

#[test]
fn events_come_out_in_order_with_motion_split() {
    let mut q = EventQueue::new();
    q.extend(vec![
        (
            "/dev/input/event1".to_string(),
            Event::Pointer(PointerEvent::Motion { dx: 1, dy: 2, dx_unaccelerated: 0, dy_unaccelerated: 0 }),
        ),
        ("/dev/input/event0".to_string(), Event::Device),
        ("/dev/input/event2".to_string(), Event::Keyboard { key: 30, state: KeyState::Pressed }),
    ]);
    assert_eq!(ready(&mut q), ("/dev/input/event1".to_string(), ev(2, 0, 1)));
    assert_eq!(ready(&mut q), ("/dev/input/event1".to_string(), ev(2, 1, 2)));
    assert_eq!(ready(&mut q), ("/dev/input/event2".to_string(), ev(1, 30, 1)));
    assert!(matches!(q.next_event(), NextEvent::NeedsInput));
}

#[test]
fn batches_follow_each_other() {
    let mut q = EventQueue::new();
    q.extend(vec![("a".to_string(), Event::Keyboard { key: 1, state: KeyState::Pressed })]);
    q.extend(vec![("b".to_string(), Event::Keyboard { key: 2, state: KeyState::Released })]);
    assert_eq!(ready(&mut q), ("a".to_string(), ev(1, 1, 1)));
    assert_eq!(ready(&mut q), ("b".to_string(), ev(1, 2, 0)));
    assert!(matches!(q.next_event(), NextEvent::NeedsInput));
}

#[test]
fn unimplemented_event_is_reported() {
    let mut q = EventQueue::new();
    q.extend(vec![
        ("a".to_string(), Event::Pointer(PointerEvent::ScrollFinger)),
        ("b".to_string(), Event::Keyboard { key: 2, state: KeyState::Pressed }),
    ]);
    match q.next_event() {
        NextEvent::Unimplemented(d, e) => {
            assert_eq!(d, "a");
            assert_eq!(e, Event::Pointer(PointerEvent::ScrollFinger));
        }
        other => panic!("unexpected {:?}", other),
    }
    assert_eq!(ready(&mut q), ("b".to_string(), ev(1, 2, 1)));
}
