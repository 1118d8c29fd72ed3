//! Translation of libinput events into evdev events.

use vstd::prelude::*;
use smallvec::SmallVec;
use crate::codes::{
    EVENT_TYPE_KEY, EVENT_TYPE_RELATIVE, EVENT_TYPE_SWITCH, REL_X, REL_Y, REL_HWHEEL, REL_WHEEL,
    SW_LID, SW_TABLET_MODE, event_type_key, event_type_relative, event_type_switch, rel_x, rel_y,
    rel_hwheel, rel_wheel, sw_lid, sw_tablet_mode,
};
use crate::events::{
    ButtonState, KeyState, SwitchState, Event, PointerEvent, SwitchEvent, SwitchKind, is_unimplemented, key_event_value,
    button_event_value, switch_event_value, key_state_code, button_state_code, switch_state_code,
};

verus! {

/// An evdev input event: its type, code and value.
#[derive(Clone, Copy, Debug, PartialEq, Eq, Structural)]
pub struct EvdevEvent {
    pub type_: u16,
    pub code: u16,
    pub value: i32,
}

/// The evdev events that one libinput event translates to, held in a
/// `SmallVec` with room for two events inline.
#[verifier::external_body]
pub struct EvdevEvents {
    inner: SmallVec<[EvdevEvent; 2]>,
}

/// The events held by an `EvdevEvents`, in order.
pub uninterp spec fn events_of(v: EvdevEvents) -> Seq<EvdevEvent>;

impl EvdevEvents {
    /// Calls `SmallVec::new`, which makes an empty vector.
    #[verifier::external_body]
    fn new() -> (v: EvdevEvents)
        ensures
            events_of(v) == Seq::<EvdevEvent>::empty(),
    {
        EvdevEvents { inner: SmallVec::new() }
    }

    /// Calls `SmallVec::push`, which appends an event. It panics only when
    /// the new capacity overflows `usize`, which the bound excludes.
    #[verifier::external_body]
    fn push(&mut self, e: EvdevEvent)
        requires
            events_of(*old(self)).len() < usize::MAX / 2,
        ensures
            events_of(*final(self)) == events_of(*old(self)).push(e),
    {
        self.inner.push(e)
    }

    /// Calls `SmallVec::len`, the number of events held.
    #[verifier::external_body]
    pub fn len(&self) -> (n: usize)
        ensures
            n == events_of(*self).len(),
    {
        self.inner.len()
    }

    /// Indexes the `SmallVec`, which returns the event at position `i`.
    #[verifier::external_body]
    pub fn get(&self, i: usize) -> (e: EvdevEvent)
        requires
            i < events_of(*self).len(),
        ensures
            e == events_of(*self)[i as int],
    {
        self.inner[i]
    }
}

/// The evdev event with the given type, code and value.
pub open spec fn evdev_event(type_: u16, code: u16, value: i32) -> EvdevEvent {
    EvdevEvent { type_, code, value }
}

/// What the libinput backend turns an event into: `None` for an event it
/// does not forward, else the evdev events in the order it emits them.
///
/// A key or button event becomes one key event whose code is the key or
/// button number truncated to 16 bits and whose value is one minus the
/// number of its state (1 when pressed, 0 when released). Relative motion
/// becomes two events, `REL_X` then `REL_Y`. A scroll wheel event becomes one
/// wheel event, vertical when the event carries the vertical axis, else
/// horizontal. A lid or tablet mode toggle becomes one switch event. Every
/// other event is not forwarded.
pub open spec fn translation(e: Event) -> Option<Seq<EvdevEvent>> {
    match e {
        Event::Keyboard { key, state } => Some(
            seq![evdev_event(EVENT_TYPE_KEY, key as u16, key_event_value(state))],
        ),
        Event::Pointer(p) => match p {
            PointerEvent::Motion { dx, dy, .. } => Some(
                seq![
                    evdev_event(EVENT_TYPE_RELATIVE, REL_X, dx),
                    evdev_event(EVENT_TYPE_RELATIVE, REL_Y, dy),
                ],
            ),
            PointerEvent::Button { button, state } => Some(
                seq![evdev_event(EVENT_TYPE_KEY, button as u16, button_event_value(state))],
            ),
            PointerEvent::ScrollWheel { has_vertical, vertical, horizontal, .. } => Some(
                if has_vertical {
                    seq![evdev_event(EVENT_TYPE_RELATIVE, REL_WHEEL, vertical)]
                } else {
                    seq![evdev_event(EVENT_TYPE_RELATIVE, REL_HWHEEL, horizontal)]
                },
            ),
            _ => None,
        },
        Event::Switch(SwitchEvent::Toggle { switch, state }) => match switch {
            SwitchKind::Lid => Some(
                seq![evdev_event(EVENT_TYPE_SWITCH, SW_LID, switch_event_value(state))],
            ),
            SwitchKind::TabletMode => Some(
                seq![evdev_event(EVENT_TYPE_SWITCH, SW_TABLET_MODE, switch_event_value(state))],
            ),
            SwitchKind::Unknown => None,
        },
        _ => None,
    }
}

/// A libinput event on its way to evdev.
#[derive(Clone, Copy, Debug)]
pub struct LibinputEvent {
    pub inner_event: Event,
}

impl LibinputEvent {
    /// Wraps a libinput event.
    pub fn new(event: Event) -> (r: Self)
        ensures
            r.inner_event == event,
    {
        Self { inner_event: event }
    }

    /// Translates the event into evdev events; `Err(())` for an event that is
    /// not forwarded. Absolute motion, finger scrolling and continuous
    /// scrolling are not implemented and are not accepted.
    pub fn try_into_evdev(self) -> (res: Result<EvdevEvents, ()>)
        requires
            !is_unimplemented(self.inner_event),
        ensures
            match res {
                Ok(events) => translation(self.inner_event) == Some(events_of(events)),
                Err(()) => translation(self.inner_event) is None,
            },
            res matches Ok(events) ==> 1 <= events_of(events).len() <= 2,
    {
        let mut other_value: Option<i32> = None;
        let (type_, code, value): (u16, u16, i32) = match self.inner_event {
            Event::Keyboard { key, state } => {
                (event_type_key(), key as u16, 1 - key_state_code(state))
            },
            Event::Pointer(ptr_event) => {
                match ptr_event {
                    PointerEvent::Motion { dx, dy, .. } => {
                        // One libinput motion event becomes two evdev events;
                        // the second value waits in `other_value`.
                        other_value = Some(dy);
                        (event_type_relative(), rel_x(), dx)
                    },
                    PointerEvent::Button { button, state } => {
                        (event_type_key(), button as u16, 1 - button_state_code(state))
                    },
                    PointerEvent::ScrollWheel { has_vertical, vertical, horizontal, .. } => {
                        let type_ = event_type_relative();
                        if has_vertical {
                            (type_, rel_wheel(), vertical)
                        } else {
                            (type_, rel_hwheel(), horizontal)
                        }
                    },
                    _ => {
                        return Err(());
                    },
                }
            },
            Event::Switch(switch_event) => {
                match switch_event {
                    SwitchEvent::Toggle { switch, state } => {
                        let type_ = event_type_switch();
                        let code = match switch {
                            SwitchKind::Lid => sw_lid(),
                            SwitchKind::TabletMode => sw_tablet_mode(),
                            SwitchKind::Unknown => {
                                return Err(());
                            },
                        };
                        (type_, code, 1 - switch_state_code(state))
                    },
                    SwitchEvent::Other => {
                        return Err(());
                    },
                }
            },
            _ => {
                return Err(());
            },
        };
        let mut result = EvdevEvents::new();
        result.push(EvdevEvent { type_, code, value });
        // A relative X movement is followed by the movement along Y.
        if type_ == event_type_relative() && code == rel_x() {
            if let Some(other_value) = other_value {
                result.push(EvdevEvent { type_, code: rel_y(), value: other_value });
            }
        }
        assert(events_of(result) =~= translation(self.inner_event).unwrap());
        Ok(result)
    }
}

/// Only relative motion becomes two evdev events, `REL_X` then `REL_Y`;
/// every other forwarded event becomes exactly one.
pub proof fn law_only_motion_splits(e: Event)
    ensures
        translation(e) matches Some(evs) ==> {
            &&& 1 <= evs.len() <= 2
            &&& (evs.len() == 2 <==> e matches Event::Pointer(PointerEvent::Motion { .. }))
            &&& evs.len() == 2 ==> evs[0].code == REL_X && evs[1].code == REL_Y
                && evs[0].type_ == EVENT_TYPE_RELATIVE && evs[1].type_ == EVENT_TYPE_RELATIVE
        },
{
}

/// A pressed key or button becomes an evdev event with value 1, a released
/// one an event with value 0.
pub proof fn law_press_is_one_release_is_zero(key: u32, button: u32)
    ensures
        translation(Event::Keyboard { key, state: KeyState::Pressed }) == Some(
            seq![evdev_event(EVENT_TYPE_KEY, key as u16, 1)],
        ),
        translation(Event::Keyboard { key, state: KeyState::Released }) == Some(
            seq![evdev_event(EVENT_TYPE_KEY, key as u16, 0)],
        ),
        translation(Event::Pointer(PointerEvent::Button { button, state: ButtonState::Pressed }))
            == Some(seq![evdev_event(EVENT_TYPE_KEY, button as u16, 1)]),
        translation(Event::Pointer(PointerEvent::Button { button, state: ButtonState::Released }))
            == Some(seq![evdev_event(EVENT_TYPE_KEY, button as u16, 0)]),
{
}

/// A toggle of the lid or of tablet mode becomes exactly one switch event
/// whose code names the switch and whose value is 1 when the switch is off
/// and 0 when it is on, the same value for either switch; a toggle of any
/// other switch is not forwarded.
pub proof fn law_switch_toggle(state: SwitchState)
    ensures
        translation(Event::Switch(SwitchEvent::Toggle { switch: SwitchKind::Lid, state })) == Some(
            seq![
                EvdevEvent {
                    type_: EVENT_TYPE_SWITCH,
                    code: SW_LID,
                    value: if state == SwitchState::On { 0i32 } else { 1i32 },
                },
            ],
        ),
        translation(Event::Switch(SwitchEvent::Toggle { switch: SwitchKind::TabletMode, state }))
            == Some(
            seq![
                EvdevEvent {
                    type_: EVENT_TYPE_SWITCH,
                    code: SW_TABLET_MODE,
                    value: if state == SwitchState::On { 0i32 } else { 1i32 },
                },
            ],
        ),
        translation(Event::Switch(SwitchEvent::Toggle { switch: SwitchKind::Unknown, state }))
            is None,
        translation(Event::Switch(SwitchEvent::Toggle { switch: SwitchKind::Lid, state })).unwrap()[0].value
            == translation(
            Event::Switch(SwitchEvent::Toggle { switch: SwitchKind::TabletMode, state }),
        ).unwrap()[0].value,
{
}

/// The two states of a switch give different values, for either switch.
pub proof fn law_switch_states_differ(switch: SwitchKind)
    requires
        switch != SwitchKind::Unknown,
    ensures
        translation(Event::Switch(SwitchEvent::Toggle { switch, state: SwitchState::On })).unwrap()[0].value
            != translation(
            Event::Switch(SwitchEvent::Toggle { switch, state: SwitchState::Off }),
        ).unwrap()[0].value,
{
}

/// Relative motion becomes `REL_X` with the horizontal delta followed by
/// `REL_Y` with the vertical one; the unaccelerated deltas play no part.
pub proof fn law_motion(dx: i32, dy: i32, ux: i32, uy: i32)
    ensures
        translation(
            Event::Pointer(
                PointerEvent::Motion { dx, dy, dx_unaccelerated: ux, dy_unaccelerated: uy },
            ),
        ) == Some(
            seq![
                EvdevEvent { type_: EVENT_TYPE_RELATIVE, code: REL_X, value: dx },
                EvdevEvent { type_: EVENT_TYPE_RELATIVE, code: REL_Y, value: dy },
            ],
        ),
{
}

/// A scroll wheel event becomes one event on the vertical wheel with the
/// vertical steps when it carries the vertical axis, else one event on the
/// horizontal wheel with the horizontal steps.
pub proof fn law_scroll_wheel(hv: bool, hh: bool, v: i32, h: i32, nz: bool)
    ensures
        translation(
            Event::Pointer(
                PointerEvent::ScrollWheel {
                    has_vertical: hv,
                    has_horizontal: hh,
                    vertical: v,
                    horizontal: h,
                    vertical_nonzero: nz,
                },
            ),
        ) == Some(
            if hv {
                seq![EvdevEvent { type_: EVENT_TYPE_RELATIVE, code: REL_WHEEL, value: v }]
            } else {
                seq![EvdevEvent { type_: EVENT_TYPE_RELATIVE, code: REL_HWHEEL, value: h }]
            },
        ),
{
}

/// Device events, other switch events, other pointer events and the
/// remaining kinds are not forwarded.
pub proof fn law_not_forwarded()
    ensures
        translation(Event::Device) is None,
        translation(Event::Other) is None,
        translation(Event::Switch(SwitchEvent::Other)) is None,
        translation(Event::Pointer(PointerEvent::Other)) is None,
{
}

} // verus!
