//! Plain-value model of the libinput events that the daemon handles.
//!
//! Each variant holds the values that the translation and the uinput layer
//! read from the corresponding libinput event. Values that libinput reports
//! as floating point numbers arrive here already converted to `i32`, as the
//! caller computed them.

use vstd::prelude::*;

verus! {

/// State of a key, in the order of libinput's `KeyState`.
#[derive(Clone, Copy, Debug, PartialEq, Eq, Structural)]
pub enum KeyState {
    Pressed,
    Released,
}

/// State of a pointer button, in the order of libinput's `ButtonState`.
#[derive(Clone, Copy, Debug, PartialEq, Eq, Structural)]
pub enum ButtonState {
    Pressed,
    Released,
}

/// State of a switch, in the order of libinput's `SwitchState`.
#[derive(Clone, Copy, Debug, PartialEq, Eq, Structural)]
pub enum SwitchState {
    Off,
    On,
}

/// The switch that a toggle event reports; `Unknown` stands for a switch
/// that libinput reports but that is neither of the two others, and for
/// none at all.
#[derive(Clone, Copy, Debug, PartialEq, Eq, Structural)]
pub enum SwitchKind {
    Lid,
    TabletMode,
    Unknown,
}

/// A pointer event.
#[derive(Clone, Copy, Debug, PartialEq, Eq, Structural)]
pub enum PointerEvent {
    /// Relative motion: `dx`, `dy` are the accelerated deltas and
    /// `dx_unaccelerated`, `dy_unaccelerated` the raw ones, each converted
    /// to `i32`.
    Motion { dx: i32, dy: i32, dx_unaccelerated: i32, dy_unaccelerated: i32 },
    /// Absolute motion.
    MotionAbsolute,
    /// A button changed state.
    Button { button: u32, state: ButtonState },
    /// A scroll wheel moved. `has_vertical` and `has_horizontal` say which
    /// axes the event carries; `vertical` and `horizontal` are the negated
    /// v120 values divided by 120 and converted to `i32`;
    /// `vertical_nonzero` says whether the vertical v120 value is not zero.
    ScrollWheel {
        has_vertical: bool,
        has_horizontal: bool,
        vertical: i32,
        horizontal: i32,
        vertical_nonzero: bool,
    },
    /// Scrolling with fingers on a touchpad.
    ScrollFinger,
    /// Continuous scrolling, such as button scrolling.
    ScrollContinuous,
    /// Any other pointer event.
    Other,
}

/// A switch event.
#[derive(Clone, Copy, Debug, PartialEq, Eq, Structural)]
pub enum SwitchEvent {
    Toggle { switch: SwitchKind, state: SwitchState },
    Other,
}

/// A libinput event.
#[derive(Clone, Copy, Debug, PartialEq, Eq, Structural)]
pub enum Event {
    /// A device was added or removed.
    Device,
    /// A key changed state.
    Keyboard { key: u32, state: KeyState },
    Pointer(PointerEvent),
    Switch(SwitchEvent),
    /// Touch, tablet, tablet pad and gesture events.
    Other,
}

/// The number that libinput's `KeyState` converts to.
pub open spec fn key_state_number(s: KeyState) -> i32 {
    match s {
        KeyState::Pressed => 0,
        KeyState::Released => 1,
    }
}

/// The number that libinput's `ButtonState` converts to.
pub open spec fn button_state_number(s: ButtonState) -> i32 {
    match s {
        ButtonState::Pressed => 0,
        ButtonState::Released => 1,
    }
}

/// The number that libinput's `SwitchState` converts to.
pub open spec fn switch_state_number(s: SwitchState) -> i32 {
    match s {
        SwitchState::Off => 0,
        SwitchState::On => 1,
    }
}

/// The value an evdev key event gets for a key state: one minus the state's
/// number, so 1 for pressed and 0 for released.
pub open spec fn key_event_value(s: KeyState) -> i32 {
    (1 - key_state_number(s)) as i32
}

/// The value an evdev key event gets for a button state, as for keys.
pub open spec fn button_event_value(s: ButtonState) -> i32 {
    (1 - button_state_number(s)) as i32
}

/// The value an evdev switch event gets: one minus the state's number,
/// so 1 for off and 0 for on.
pub open spec fn switch_event_value(s: SwitchState) -> i32 {
    (1 - switch_state_number(s)) as i32
}

/// The events that the libinput backend has not implemented: absolute
/// motion, finger scrolling and continuous scrolling.
pub open spec fn is_unimplemented(e: Event) -> bool {
    match e {
        Event::Pointer(PointerEvent::MotionAbsolute) => true,
        Event::Pointer(PointerEvent::ScrollFinger) => true,
        Event::Pointer(PointerEvent::ScrollContinuous) => true,
        _ => false,
    }
}

impl Event {
    /// Whether the libinput backend leaves this event unimplemented.
    pub fn unimplemented(&self) -> (r: bool)
        ensures
            r == is_unimplemented(*self),
    {
        match self {
            Event::Pointer(PointerEvent::MotionAbsolute) => true,
            Event::Pointer(PointerEvent::ScrollFinger) => true,
            Event::Pointer(PointerEvent::ScrollContinuous) => true,
            _ => false,
        }
    }
}

/// Converts a key state to the number libinput gives it.
pub fn key_state_code(s: KeyState) -> (r: i32)
    ensures
        r == key_state_number(s),
{
    match s {
        KeyState::Pressed => 0,
        KeyState::Released => 1,
    }
}

/// Converts a button state to the number libinput gives it.
pub fn button_state_code(s: ButtonState) -> (r: i32)
    ensures
        r == button_state_number(s),
{
    match s {
        ButtonState::Pressed => 0,
        ButtonState::Released => 1,
    }
}

/// Converts a switch state to the number libinput gives it.
pub fn switch_state_code(s: SwitchState) -> (r: i32)
    ensures
        r == switch_state_number(s),
{
    match s {
        SwitchState::Off => 0,
        SwitchState::On => 1,
    }
}

} // verus!
