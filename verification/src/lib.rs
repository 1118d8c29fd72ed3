//! Verified core of a hotkey daemon's input layer: translation of libinput
//! events into evdev events, device selection and bookkeeping, the pending
//! event queue of the libinput backend, and the parsing of the device list.

pub mod codes;
pub mod events;
pub mod translate;
pub mod queue;
pub mod uinput_layer;
pub mod names;
pub mod table;
pub mod devices;
pub mod text;
pub mod interface;
