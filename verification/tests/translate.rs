use swhkd::events::{ButtonState, Event, KeyState, PointerEvent, SwitchEvent, SwitchKind, SwitchState};
use swhkd::translate::{EvdevEvent, EvdevEvents, LibinputEvent};

fn translate(e: Event) -> Result<Vec<EvdevEvent>, ()> {
    let events: EvdevEvents = LibinputEvent::new(e).try_into_evdev()?;
    Ok((0..events.len()).map(|i| events.get(i)).collect())
}

fn ev(type_: u16, code: u16, value: i32) -> EvdevEvent {
    EvdevEvent { type_, code, value }
}

fn motion(dx: i32, dy: i32) -> Event {
    Event::Pointer(PointerEvent::Motion { dx, dy, dx_unaccelerated: 0, dy_unaccelerated: 0 })
}

#[test]
fn key_press_is_one_and_release_is_zero() {
    assert_eq!(
        translate(Event::Keyboard { key: 30, state: KeyState::Pressed }),
        Ok(vec![ev(1, 30, 1)])
    );
    assert_eq!(
        translate(Event::Keyboard { key: 30, state: KeyState::Released }),
        Ok(vec![ev(1, 30, 0)])
    );
}

#[test]
fn key_code_is_truncated_to_sixteen_bits() {
    assert_eq!(
        translate(Event::Keyboard { key: 0x1_0005, state: KeyState::Pressed }),
        Ok(vec![ev(1, 5, 1)])
    );
}

#[test]
fn motion_becomes_x_then_y() {
    assert_eq!(translate(motion(3, -7)), Ok(vec![ev(2, 0, 3), ev(2, 1, -7)]));
}

#[test]
fn button_becomes_key_event() {
    let e = Event::Pointer(PointerEvent::Button { button: 272, state: ButtonState::Pressed });
    assert_eq!(translate(e), Ok(vec![ev(1, 272, 1)]));
    let e = Event::Pointer(PointerEvent::Button { button: 273, state: ButtonState::Released });
    assert_eq!(translate(e), Ok(vec![ev(1, 273, 0)]));
}

#[test]
fn scroll_wheel_prefers_the_vertical_axis() {
    let e = Event::Pointer(PointerEvent::ScrollWheel {
        has_vertical: true,
        has_horizontal: true,
        vertical: -1,
        horizontal: 2,
        vertical_nonzero: true,
    });
    assert_eq!(translate(e), Ok(vec![ev(2, 8, -1)]));
    let e = Event::Pointer(PointerEvent::ScrollWheel {
        has_vertical: false,
        has_horizontal: true,
        vertical: 0,
        horizontal: 2,
        vertical_nonzero: false,
    });
    assert_eq!(translate(e), Ok(vec![ev(2, 6, 2)]));
}

#[test]
fn switches_lid_and_tablet_mode() {
    let lid = Event::Switch(SwitchEvent::Toggle { switch: SwitchKind::Lid, state: SwitchState::On });
    assert_eq!(translate(lid), Ok(vec![ev(5, 0, 0)]));
    let tablet =
        Event::Switch(SwitchEvent::Toggle { switch: SwitchKind::TabletMode, state: SwitchState::Off });
    assert_eq!(translate(tablet), Ok(vec![ev(5, 1, 1)]));
    let unknown =
        Event::Switch(SwitchEvent::Toggle { switch: SwitchKind::Unknown, state: SwitchState::On });
    assert_eq!(translate(unknown), Err(()));
}

#[test]
fn other_events_are_not_forwarded() {
    assert_eq!(translate(Event::Device), Err(()));
    assert_eq!(translate(Event::Other), Err(()));
    assert_eq!(translate(Event::Switch(SwitchEvent::Other)), Err(()));
    assert_eq!(translate(Event::Pointer(PointerEvent::Other)), Err(()));
}

#[test]
fn codes_agree_with_evdev() {
    let events = translate(motion(4, 5)).unwrap();
    let x = evdev::InputEvent::new(evdev::EventType(events[0].type_), events[0].code, events[0].value);
    let y = evdev::InputEvent::new(evdev::EventType(events[1].type_), events[1].code, events[1].value);
    assert_eq!(x.event_type(), evdev::EventType::RELATIVE);
    assert_eq!(x.code(), evdev::RelativeAxisType::REL_X.0);
    assert_eq!(y.code(), evdev::RelativeAxisType::REL_Y.0);
    assert_eq!(y.value(), 5);
    let key = translate(Event::Keyboard { key: 28, state: KeyState::Pressed }).unwrap();
    assert_eq!(evdev::EventType(key[0].type_), evdev::EventType::KEY);
    assert_eq!(key[0].code, evdev::Key::KEY_ENTER.code());
    let lid = translate(Event::Switch(SwitchEvent::Toggle {
        switch: SwitchKind::Lid,
        state: SwitchState::Off,
    }))
    .unwrap();
    assert_eq!(evdev::EventType(lid[0].type_), evdev::EventType::SWITCH);
    assert_eq!(lid[0].code, evdev::SwitchType::SW_LID.0);
}

#[test]
fn unimplemented_events_are_recognised() {
    assert!(Event::Pointer(PointerEvent::MotionAbsolute).unimplemented());
    assert!(Event::Pointer(PointerEvent::ScrollFinger).unimplemented());
    assert!(Event::Pointer(PointerEvent::ScrollContinuous).unimplemented());
    assert!(!Event::Device.unimplemented());
}
