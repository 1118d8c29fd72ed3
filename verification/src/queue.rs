//! The pending events of the libinput backend.
//!
//! libinput hands over events in batches. Each is translated into evdev
//! events when it is asked for; a libinput motion event yields two evdev
//! events, of which the second waits in a queue of its own until the next
//! request.

use vstd::prelude::*;
use std::collections::VecDeque;
use crate::events::{Event, PointerEvent, is_unimplemented};
use crate::translate::{EvdevEvent, LibinputEvent, events_of, translation};

verus! {

/// What the next request for an event yields.
#[derive(Debug)]
pub enum NextEvent {
    /// The next evdev event and the device node it came from.
    Ready(String, EvdevEvent),
    /// The next libinput event is one the backend has not implemented.
    Unimplemented(String, Event),
    /// No event is pending: more must be read from libinput.
    NeedsInput,
}

/// Outcome of a request for an event, with the evdev events that wait and
/// the libinput events that are pending afterwards.
///
/// Waiting evdev events come first. Otherwise libinput events are taken in
/// order: one that is not forwarded is dropped and the next is tried; the
/// first that is forwarded yields its first evdev event, and its second, if
/// any, waits. An unimplemented event is reported and dropped.
pub open spec fn next_outcome(
    ready: Seq<(String, EvdevEvent)>,
    pending: Seq<(String, Event)>,
) -> (NextEvent, Seq<(String, EvdevEvent)>, Seq<(String, Event)>)
    decreases pending.len(),
{
    if ready.len() > 0 {
        (NextEvent::Ready(ready[0].0, ready[0].1), ready.drop_first(), pending)
    } else if pending.len() == 0 {
        (NextEvent::NeedsInput, ready, pending)
    } else {
        let device = pending[0].0;
        let e = pending[0].1;
        if is_unimplemented(e) {
            (NextEvent::Unimplemented(device, e), ready, pending.drop_first())
        } else {
            match translation(e) {
                None => next_outcome(ready, pending.drop_first()),
                Some(evs) => (
                    NextEvent::Ready(device, evs[0]),
                    if evs.len() > 1 {
                        seq![(device, evs[1])]
                    } else {
                        Seq::empty()
                    },
                    pending.drop_first(),
                ),
            }
        }
    }
}

/// The evdev events, each with its device node, that the forwarded events
/// of `pending` translate to, in order.
pub open spec fn translated(pending: Seq<(String, Event)>) -> Seq<(String, EvdevEvent)>
    decreases pending.len(),
{
    if pending.len() == 0 {
        Seq::empty()
    } else {
        let device = pending[0].0;
        let head = match translation(pending[0].1) {
            Some(evs) => evs.map_values(|e: EvdevEvent| (device, e)),
            None => Seq::empty(),
        };
        head + translated(pending.drop_first())
    }
}

/// Events come out in order, none lost and none twice: while no pending
/// event is unimplemented, a request hands out the first of the waiting
/// events followed by the translations of the pending ones, and what remains
/// to be handed out afterwards is the rest; when it asks for more input,
/// nothing remains.
pub proof fn law_events_come_out_in_order(
    ready: Seq<(String, EvdevEvent)>,
    pending: Seq<(String, Event)>,
)
    requires
        forall|i: int| 0 <= i < pending.len() ==> !is_unimplemented(#[trigger] pending[i].1),
    ensures
        ({
            let (r, ready2, pending2) = next_outcome(ready, pending);
            match r {
                NextEvent::Ready(device, e) => ready + translated(pending) == seq![(device, e)]
                    + ready2 + translated(pending2),
                NextEvent::NeedsInput => ready + translated(pending) == Seq::<
                    (String, EvdevEvent),
                >::empty(),
                NextEvent::Unimplemented(..) => false,
            }
        }),
    decreases pending.len(),
{
    if ready.len() > 0 {
        assert(ready =~= seq![ready[0]] + ready.drop_first());
        assert(ready + translated(pending) =~= seq![(ready[0].0, ready[0].1)] + ready.drop_first()
            + translated(pending));
    } else if pending.len() == 0 {
        assert(ready + translated(pending) =~= Seq::<(String, EvdevEvent)>::empty());
    } else {
        let device = pending[0].0;
        let e = pending[0].1;
        assert(!is_unimplemented(pending[0].1));
        let rest = pending.drop_first();
        assert forall|i: int| 0 <= i < rest.len() implies !is_unimplemented(#[trigger] rest[i].1) by {
            assert(rest[i] == pending[i + 1]);
        }
        match translation(e) {
            None => {
                law_events_come_out_in_order(ready, rest);
                assert(ready + translated(pending) =~= ready + translated(rest));
            },
            Some(evs) => {
                let head = evs.map_values(|x: EvdevEvent| (device, x));
                assert(1 <= evs.len() <= 2);
                if evs.len() > 1 {
                    assert(head =~= seq![(device, evs[0])] + seq![(device, evs[1])]);
                } else {
                    assert(head =~= seq![(device, evs[0])]);
                }
                assert(ready =~= Seq::<(String, EvdevEvent)>::empty());
            },
        }
    }
}

/// Batches translate one after the other: what a batch appended to the
/// pending events translates to follows what the pending events translate
/// to.
pub proof fn law_batches_translate_in_order(
    pending: Seq<(String, Event)>,
    batch: Seq<(String, Event)>,
)
    ensures
        translated(pending + batch) == translated(pending) + translated(batch),
    decreases pending.len(),
{
    if pending.len() == 0 {
        assert(pending + batch =~= batch);
        assert(translated(pending) + translated(batch) =~= translated(batch));
    } else {
        law_batches_translate_in_order(pending.drop_first(), batch);
        assert((pending + batch).drop_first() =~= pending.drop_first() + batch);
        assert((pending + batch)[0] == pending[0]);
        let device = pending[0].0;
        let head = match translation(pending[0].1) {
            Some(evs) => evs.map_values(|e: EvdevEvent| (device, e)),
            None => Seq::empty(),
        };
        assert(translated(pending + batch) == head + translated(pending.drop_first() + batch));
        assert(head + (translated(pending.drop_first()) + translated(batch)) =~= (head
            + translated(pending.drop_first())) + translated(batch));
    }
}

/// A waiting evdev event is handed out before anything else; with nothing
/// waiting and nothing pending, more input is asked for; an event that is
/// not forwarded is passed over; a motion event comes out as its `REL_X`
/// event, and the next request hands out its `REL_Y` event, after which the
/// events behind it are pending as before.
pub proof fn law_queue_steps(
    first: (String, EvdevEvent),
    ready: Seq<(String, EvdevEvent)>,
    pending: Seq<(String, Event)>,
    device: String,
    dx: i32,
    dy: i32,
    ux: i32,
    uy: i32,
)
    ensures
        next_outcome(seq![first] + ready, pending) == (
            NextEvent::Ready(first.0, first.1),
            ready,
            pending,
        ),
        next_outcome(Seq::empty(), Seq::empty()).0 == NextEvent::NeedsInput,
        next_outcome(Seq::empty(), seq![(device, Event::Device)] + pending) == next_outcome(
            Seq::empty(),
            pending,
        ),
        ({
            let motion = Event::Pointer(
                PointerEvent::Motion { dx, dy, dx_unaccelerated: ux, dy_unaccelerated: uy },
            );
            let (r1, ready1, pending1) = next_outcome(Seq::empty(), seq![(device, motion)] + pending);
            let (r2, ready2, pending2) = next_outcome(ready1, pending1);
            &&& r1 == NextEvent::Ready(device, EvdevEvent { type_: 2, code: 0, value: dx })
            &&& r2 == NextEvent::Ready(device, EvdevEvent { type_: 2, code: 1, value: dy })
            &&& ready2.len() == 0
            &&& pending2 == pending
        }),
{
    assert((seq![first] + ready)[0] == first);
    assert((seq![first] + ready).drop_first() =~= ready);
    assert((seq![(device, Event::Device)] + pending).drop_first() =~= pending);
    let motion = Event::Pointer(
        PointerEvent::Motion { dx, dy, dx_unaccelerated: ux, dy_unaccelerated: uy },
    );
    assert((seq![(device, motion)] + pending).drop_first() =~= pending);
    assert((seq![(device, motion)] + pending)[0] == (device, motion));
    let (r1, ready1, pending1) = next_outcome(Seq::empty(), seq![(device, motion)] + pending);
    assert(ready1 =~= seq![(device, EvdevEvent { type_: 2, code: 1, value: dy })]);
    assert(ready1.drop_first() =~= Seq::<(String, EvdevEvent)>::empty());
}

/// The two queues of the libinput backend.
pub struct EventQueue {
    input_event_queue: VecDeque<(String, EvdevEvent)>,
    input_queue: VecDeque<(String, Event)>,
}

impl EventQueue {
    /// The evdev events that wait to be handed out, oldest first.
    pub closed spec fn ready(&self) -> Seq<(String, EvdevEvent)> {
        self.input_event_queue@
    }

    /// The libinput events that are not yet translated, oldest first, each
    /// with the device node it came from.
    pub closed spec fn pending(&self) -> Seq<(String, Event)> {
        self.input_queue@
    }

    /// Two empty queues.
    pub fn new() -> (q: Self)
        ensures
            q.ready() == Seq::<(String, EvdevEvent)>::empty(),
            q.pending() == Seq::<(String, Event)>::empty(),
    {
        EventQueue { input_event_queue: VecDeque::new(), input_queue: VecDeque::new() }
    }

    /// Appends the libinput events of a batch, in order, to the pending ones.
    pub fn extend(&mut self, events: Vec<(String, Event)>)
        ensures
            final(self).ready() == old(self).ready(),
            final(self).pending() == old(self).pending() + events@,
    {
        let ghost before = self.pending();
        for item in it: events
            invariant
                self.ready() == old(self).ready(),
                it.seq() == events@,
                self.pending() == before + events@.take(it.index() as int),
        {
            self.input_queue.push_back(item);
            assert(events@.take(it.index() as int + 1) =~= events@.take(it.index() as int).push(item));
        }
        assert(events@.take(events@.len() as int) =~= events@);
    }

    /// Hands out the next evdev event, as `next_outcome` describes.
    pub fn next_event(&mut self) -> (r: NextEvent)
        ensures
            (r, final(self).ready(), final(self).pending()) == next_outcome(
                old(self).ready(),
                old(self).pending(),
            ),
    {
        if let Some((device, event)) = self.input_event_queue.pop_front() {
            return NextEvent::Ready(device, event);
        }
        loop
            invariant
                self.ready().len() == 0,
                next_outcome(self.ready(), self.pending()) == next_outcome(
                    old(self).ready(),
                    old(self).pending(),
                ),
            decreases self.pending().len(),
        {
            let ghost pending = self.pending();
            match self.input_queue.pop_front() {
                None => {
                    return NextEvent::NeedsInput;
                },
                Some((device, event)) => {
                    if event.unimplemented() {
                        return NextEvent::Unimplemented(device, event);
                    }
                    let res = LibinputEvent::new(event).try_into_evdev();
                    if let Ok(events) = res {
                        let first = events.get(0);
                        if events.len() > 1 {
                            self.input_event_queue.push_back((device.clone(), events.get(1)));
                            assert(self.ready() =~= seq![(device, events_of(events)[1])]);
                        } else {
                            assert(self.ready() =~= Seq::<(String, EvdevEvent)>::empty());
                        }
                        return NextEvent::Ready(device, first);
                    }
                    assert(pending.drop_first() =~= self.pending());
                },
            }
        }
    }
}

} // verus!
