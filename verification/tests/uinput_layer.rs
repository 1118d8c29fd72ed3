use swhkd::events::{ButtonState, Event, KeyState, PointerEvent};
use swhkd::uinput_layer::{
    handle_event, keyboard_event_commands, pointer_event_commands, PositionAxis, UinputCommand,
    WheelAxis, EV_KEY,
};

#[test]
fn keyboard_writes_key_then_synchronizes() {
    assert_eq!(
        keyboard_event_commands(30, KeyState::Pressed),
        vec![UinputCommand::Write { kind: EV_KEY, code: 30, value: 1 }, UinputCommand::Synchronize]
    );
    assert_eq!(
        keyboard_event_commands(30, KeyState::Released),
        vec![UinputCommand::Write { kind: 1, code: 30, value: 0 }, UinputCommand::Synchronize]
    );
}

#[test]
fn key_number_is_reinterpreted_as_signed() {
    assert_eq!(
        keyboard_event_commands(u32::MAX, KeyState::Pressed)[0],
        UinputCommand::Write { kind: 1, code: -1, value: 1 }
    );
}

#[test]
fn motion_sends_unaccelerated_deltas() {
    let p = PointerEvent::Motion { dx: 10, dy: 20, dx_unaccelerated: 3, dy_unaccelerated: -4 };
    assert_eq!(
        pointer_event_commands(p),
        vec![
            UinputCommand::SendPosition { axis: PositionAxis::X, value: 3 },
            UinputCommand::SendPosition { axis: PositionAxis::Y, value: -4 },
            UinputCommand::Synchronize,
        ]
    );
}

#[test]
fn button_is_written_as_key() {
    let p = PointerEvent::Button { button: 272, state: ButtonState::Pressed };
    assert_eq!(
        pointer_event_commands(p),
        vec![UinputCommand::Write { kind: 1, code: 272, value: 1 }, UinputCommand::Synchronize]
    );
}

#[test]
fn wheel_vertical_when_nonzero_else_horizontal() {
    let v = PointerEvent::ScrollWheel {
        has_vertical: true,
        has_horizontal: true,
        vertical: -2,
        horizontal: 5,
        vertical_nonzero: true,
    };
    assert_eq!(
        pointer_event_commands(v),
        vec![UinputCommand::SendWheel { wheel: WheelAxis::Vertical, value: -2 }, UinputCommand::Synchronize]
    );
    let h = PointerEvent::ScrollWheel {
        has_vertical: true,
        has_horizontal: true,
        vertical: 0,
        horizontal: 5,
        vertical_nonzero: false,
    };
    assert_eq!(
        pointer_event_commands(h),
        vec![UinputCommand::SendWheel { wheel: WheelAxis::Horizontal, value: 5 }, UinputCommand::Synchronize]
    );
    let none = PointerEvent::ScrollWheel {
        has_vertical: false,
        has_horizontal: false,
        vertical: 7,
        horizontal: 5,
        vertical_nonzero: true,
    };
    assert_eq!(
        pointer_event_commands(none),
        vec![UinputCommand::SendWheel { wheel: WheelAxis::Horizontal, value: 0 }, UinputCommand::Synchronize]
    );
}

#[test]
fn other_events_write_nothing() {
    assert!(handle_event(Event::Device).is_empty());
    assert!(handle_event(Event::Pointer(PointerEvent::MotionAbsolute)).is_empty());
    assert_eq!(handle_event(Event::Keyboard { key: 2, state: KeyState::Pressed }).len(), 2);
}
