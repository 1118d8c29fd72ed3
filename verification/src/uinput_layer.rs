//! What the libinput daemon writes to its uinput device for each libinput
//! event: a list of commands that the caller carries out in order.

use vstd::prelude::*;
use crate::events::{
    ButtonState, Event, KeyState, PointerEvent, button_event_value, button_state_code,
    key_event_value, key_state_code,
};

verus! {

/// The event type of key events, as the uinput device is written with it.
pub const EV_KEY: i32 = 0x01;

/// A relative position axis of the uinput device.
#[derive(Clone, Copy, Debug, PartialEq, Eq, Structural)]
pub enum PositionAxis {
    X,
    Y,
}

/// A wheel of the uinput device.
#[derive(Clone, Copy, Debug, PartialEq, Eq, Structural)]
pub enum WheelAxis {
    Vertical,
    Horizontal,
}

/// One operation on the uinput device.
#[derive(Clone, Copy, Debug, PartialEq, Eq, Structural)]
pub enum UinputCommand {
    /// Write a raw event of the given kind, code and value.
    Write { kind: i32, code: i32, value: i32 },
    /// Send a movement along a position axis.
    SendPosition { axis: PositionAxis, value: i32 },
    /// Send a movement of a wheel.
    SendWheel { wheel: WheelAxis, value: i32 },
    /// Send a synchronization report.
    Synchronize,
}

/// The commands for a key event: the key, as a signed number, with value 1
/// when pressed and 0 when released, then a synchronization.
pub open spec fn keyboard_commands(key: u32, state: KeyState) -> Seq<UinputCommand> {
    seq![
        UinputCommand::Write { kind: EV_KEY, code: key as i32, value: key_event_value(state) },
        UinputCommand::Synchronize,
    ]
}

/// The commands for a pointer event.
///
/// Motion sends the unaccelerated deltas along X then Y. A button is written
/// as a key. A scroll wheel sends the vertical wheel when the event carries a
/// nonzero vertical value, else the horizontal wheel, with 0 when the event
/// does not carry the horizontal axis either. Each of these ends with a
/// synchronization; any other pointer event sends nothing.
pub open spec fn pointer_commands(p: PointerEvent) -> Seq<UinputCommand> {
    match p {
        PointerEvent::Motion { dx_unaccelerated, dy_unaccelerated, .. } => seq![
            UinputCommand::SendPosition { axis: PositionAxis::X, value: dx_unaccelerated },
            UinputCommand::SendPosition { axis: PositionAxis::Y, value: dy_unaccelerated },
            UinputCommand::Synchronize,
        ],
        PointerEvent::Button { button, state } => seq![
            UinputCommand::Write {
                kind: EV_KEY,
                code: button as i32,
                value: button_event_value(state),
            },
            UinputCommand::Synchronize,
        ],
        PointerEvent::ScrollWheel {
            has_vertical,
            has_horizontal,
            vertical,
            horizontal,
            vertical_nonzero,
        } => if has_vertical && vertical_nonzero {
            seq![
                UinputCommand::SendWheel { wheel: WheelAxis::Vertical, value: vertical },
                UinputCommand::Synchronize,
            ]
        } else {
            seq![
                UinputCommand::SendWheel {
                    wheel: WheelAxis::Horizontal,
                    value: if has_horizontal {
                        horizontal
                    } else {
                        0
                    },
                },
                UinputCommand::Synchronize,
            ]
        },
        _ => Seq::empty(),
    }
}

/// The commands for any libinput event: key and pointer events as above,
/// nothing for the others.
pub open spec fn event_commands(e: Event) -> Seq<UinputCommand> {
    match e {
        Event::Keyboard { key, state } => keyboard_commands(key, state),
        Event::Pointer(p) => pointer_commands(p),
        _ => Seq::empty(),
    }
}

/// The commands that forward a key event.
pub fn keyboard_event_commands(key: u32, state: KeyState) -> (cmds: Vec<UinputCommand>)
    ensures
        cmds@ == keyboard_commands(key, state),
{
    let key_code = key as i32;
    let number = key_state_code(state);
    let mut cmds = Vec::new();
    cmds.push(UinputCommand::Write { kind: EV_KEY, code: key_code, value: 1 - number });
    cmds.push(UinputCommand::Synchronize);
    assert(cmds@ =~= keyboard_commands(key, state));
    cmds
}

/// The commands that forward a pointer event.
pub fn pointer_event_commands(p: PointerEvent) -> (cmds: Vec<UinputCommand>)
    ensures
        cmds@ == pointer_commands(p),
{
    let mut cmds = Vec::new();
    match p {
        PointerEvent::Motion { dx_unaccelerated, dy_unaccelerated, .. } => {
            cmds.push(UinputCommand::SendPosition { axis: PositionAxis::X, value: dx_unaccelerated });
            cmds.push(UinputCommand::SendPosition { axis: PositionAxis::Y, value: dy_unaccelerated });
            cmds.push(UinputCommand::Synchronize);
        },
        PointerEvent::Button { button, state } => {
            let number = button_state_code(state);
            cmds.push(UinputCommand::Write { kind: EV_KEY, code: button as i32, value: 1 - number });
            cmds.push(UinputCommand::Synchronize);
        },
        PointerEvent::ScrollWheel {
            has_vertical,
            has_horizontal,
            vertical,
            horizontal,
            vertical_nonzero,
        } => {
            // Without the horizontal axis its value counts as zero.
            let hori = if has_horizontal {
                horizontal
            } else {
                0
            };
            if has_vertical && vertical_nonzero {
                cmds.push(UinputCommand::SendWheel { wheel: WheelAxis::Vertical, value: vertical });
            } else {
                cmds.push(UinputCommand::SendWheel { wheel: WheelAxis::Horizontal, value: hori });
            }
            cmds.push(UinputCommand::Synchronize);
        },
        _ => {},
    }
    assert(cmds@ =~= pointer_commands(p));
    cmds
}

/// The commands that forward a libinput event: keys and pointer events are
/// forwarded, every other event is only reported.
pub fn handle_event(event: Event) -> (cmds: Vec<UinputCommand>)
    ensures
        cmds@ == event_commands(event),
{
    match event {
        Event::Keyboard { key, state } => keyboard_event_commands(key, state),
        Event::Pointer(p) => pointer_event_commands(p),
        _ => Vec::new(),
    }
}

/// Whatever the daemon writes for an event is one or two movements or
/// writes followed by exactly one synchronization, which comes last.
pub proof fn law_writes_end_with_synchronize(e: Event)
    ensures
        event_commands(e).len() > 0 ==> {
            &&& event_commands(e).last() == UinputCommand::Synchronize
            &&& forall|i: int|
                0 <= i < event_commands(e).len() - 1 ==> #[trigger] event_commands(e)[i]
                    != UinputCommand::Synchronize
        },
{
}

/// Every key event, pressed or released, is written as a key with the key
/// number and value 1 when pressed, 0 when released, followed by a
/// synchronization.
pub proof fn law_key_commands(key: u32, state: KeyState)
    ensures
        event_commands(Event::Keyboard { key, state }) == seq![
            UinputCommand::Write {
                kind: 1,
                code: key as i32,
                value: if state == KeyState::Pressed { 1i32 } else { 0i32 },
            },
            UinputCommand::Synchronize,
        ],
        keyboard_commands(key, state) == event_commands(Event::Keyboard { key, state }),
{
}

/// Every button event, pressed or released, is written as a key with the
/// button number and value 1 when pressed, 0 when released, followed by a
/// synchronization, whether it is handled alone or as an event.
pub proof fn law_button_commands(button: u32, state: ButtonState)
    ensures
        pointer_commands(PointerEvent::Button { button, state }) == seq![
            UinputCommand::Write {
                kind: 1,
                code: button as i32,
                value: if state == ButtonState::Pressed { 1i32 } else { 0i32 },
            },
            UinputCommand::Synchronize,
        ],
        event_commands(Event::Pointer(PointerEvent::Button { button, state })) == pointer_commands(
            PointerEvent::Button { button, state },
        ),
{
}

/// Motion sends the unaccelerated deltas, X then Y, then synchronizes.
pub proof fn law_motion_commands(dx: i32, dy: i32, ux: i32, uy: i32)
    ensures
        event_commands(
            Event::Pointer(
                PointerEvent::Motion { dx, dy, dx_unaccelerated: ux, dy_unaccelerated: uy },
            ),
        ) == seq![
            UinputCommand::SendPosition { axis: PositionAxis::X, value: ux },
            UinputCommand::SendPosition { axis: PositionAxis::Y, value: uy },
            UinputCommand::Synchronize,
        ],
{
}

/// A scroll wheel event moves the vertical wheel when it carries a nonzero
/// vertical value, else the horizontal wheel (by 0 when it does not carry
/// that axis), then synchronizes.
pub proof fn law_wheel_commands(hv: bool, hh: bool, v: i32, h: i32, nz: bool)
    ensures
        event_commands(
            Event::Pointer(
                PointerEvent::ScrollWheel {
                    has_vertical: hv,
                    has_horizontal: hh,
                    vertical: v,
                    horizontal: h,
                    vertical_nonzero: nz,
                },
            ),
        ) == seq![
            if hv && nz {
                UinputCommand::SendWheel { wheel: WheelAxis::Vertical, value: v }
            } else {
                UinputCommand::SendWheel {
                    wheel: WheelAxis::Horizontal,
                    value: if hh { h } else { 0i32 },
                }
            },
            UinputCommand::Synchronize,
        ],
{
}

/// Nothing is written for device, switch and other events, nor for the
/// pointer events that are neither motion, button nor scroll wheel.
pub proof fn law_nothing_written(sw: crate::events::SwitchEvent)
    ensures
        event_commands(Event::Device).len() == 0,
        event_commands(Event::Other).len() == 0,
        event_commands(Event::Switch(sw)).len() == 0,
        event_commands(Event::Pointer(PointerEvent::MotionAbsolute)).len() == 0,
        event_commands(Event::Pointer(PointerEvent::ScrollFinger)).len() == 0,
        event_commands(Event::Pointer(PointerEvent::ScrollContinuous)).len() == 0,
        event_commands(Event::Pointer(PointerEvent::Other)).len() == 0,
{
}

} // verus!
