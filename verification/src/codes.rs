//! Event type and code numbers of the Linux input subsystem, as the `evdev`
//! and `libc` crates define them.
//!
//! The constants name the numbers in specifications; the executable code
//! reads the numbers from the outside crates through the functions below.

use vstd::prelude::*;

verus! {

/// Event type of key and button events.
pub const EVENT_TYPE_KEY: u16 = 0x01;

/// Event type of relative axis events.
pub const EVENT_TYPE_RELATIVE: u16 = 0x02;

/// Event type of switch events.
pub const EVENT_TYPE_SWITCH: u16 = 0x05;

/// Relative axis: horizontal motion.
pub const REL_X: u16 = 0x00;

/// Relative axis: vertical motion.
pub const REL_Y: u16 = 0x01;

/// Relative axis: horizontal wheel.
pub const REL_HWHEEL: u16 = 0x06;

/// Relative axis: vertical wheel.
pub const REL_WHEEL: u16 = 0x08;

/// Switch: laptop lid.
pub const SW_LID: u16 = 0x00;

/// Switch: tablet mode.
pub const SW_TABLET_MODE: u16 = 0x01;

/// Key code of the Enter key.
pub const KEY_ENTER: u16 = 28;

/// Open flag: read only.
pub const O_RDONLY: i32 = 0;

/// Open flag: write only.
pub const O_WRONLY: i32 = 1;

/// Open flag: read and write.
pub const O_RDWR: i32 = 2;

/// Reads `evdev::EventType::KEY`, which `evdev` defines as `EventType(0x01)`.
#[verifier::external_body]
pub(crate) fn event_type_key() -> (r: u16)
    ensures
        r == EVENT_TYPE_KEY,
{
    evdev::EventType::KEY.0
}

/// Reads `evdev::EventType::RELATIVE`, which `evdev` defines as `EventType(0x02)`.
#[verifier::external_body]
pub(crate) fn event_type_relative() -> (r: u16)
    ensures
        r == EVENT_TYPE_RELATIVE,
{
    evdev::EventType::RELATIVE.0
}

/// Reads `evdev::EventType::SWITCH`, which `evdev` defines as `EventType(0x05)`.
#[verifier::external_body]
pub(crate) fn event_type_switch() -> (r: u16)
    ensures
        r == EVENT_TYPE_SWITCH,
{
    evdev::EventType::SWITCH.0
}

/// Reads `evdev::RelativeAxisType::REL_X`, defined by `evdev` as `0x00`.
#[verifier::external_body]
pub(crate) fn rel_x() -> (r: u16)
    ensures
        r == REL_X,
{
    evdev::RelativeAxisType::REL_X.0
}

/// Reads `evdev::RelativeAxisType::REL_Y`, defined by `evdev` as `0x01`.
#[verifier::external_body]
pub(crate) fn rel_y() -> (r: u16)
    ensures
        r == REL_Y,
{
    evdev::RelativeAxisType::REL_Y.0
}

/// Reads `evdev::RelativeAxisType::REL_HWHEEL`, defined by `evdev` as `0x06`.
#[verifier::external_body]
pub(crate) fn rel_hwheel() -> (r: u16)
    ensures
        r == REL_HWHEEL,
{
    evdev::RelativeAxisType::REL_HWHEEL.0
}

/// Reads `evdev::RelativeAxisType::REL_WHEEL`, defined by `evdev` as `0x08`.
#[verifier::external_body]
pub(crate) fn rel_wheel() -> (r: u16)
    ensures
        r == REL_WHEEL,
{
    evdev::RelativeAxisType::REL_WHEEL.0
}

/// Reads `evdev::SwitchType::SW_LID`, defined by `evdev` as `0x00`.
#[verifier::external_body]
pub(crate) fn sw_lid() -> (r: u16)
    ensures
        r == SW_LID,
{
    evdev::SwitchType::SW_LID.0
}

/// Reads `evdev::SwitchType::SW_TABLET_MODE`, defined by `evdev` as `0x01`.
#[verifier::external_body]
pub(crate) fn sw_tablet_mode() -> (r: u16)
    ensures
        r == SW_TABLET_MODE,
{
    evdev::SwitchType::SW_TABLET_MODE.0
}

/// Reads `evdev::Key::KEY_ENTER`, defined by `evdev` as `Key(28)`.
#[verifier::external_body]
pub(crate) fn key_enter() -> (r: u16)
    ensures
        r == KEY_ENTER,
{
    evdev::Key::KEY_ENTER.code()
}

/// Reads `libc::O_RDONLY`, which `libc` defines as `0` on Linux.
#[verifier::external_body]
pub(crate) fn o_rdonly() -> (r: i32)
    ensures
        r == O_RDONLY,
{
    libc::O_RDONLY
}

/// Reads `libc::O_WRONLY`, which `libc` defines as `1` on Linux.
#[verifier::external_body]
pub(crate) fn o_wronly() -> (r: i32)
    ensures
        r == O_WRONLY,
{
    libc::O_WRONLY
}

/// Reads `libc::O_RDWR`, which `libc` defines as `2` on Linux.
#[verifier::external_body]
pub(crate) fn o_rdwr() -> (r: i32)
    ensures
        r == O_RDWR,
{
    libc::O_RDWR
}

} // verus!
