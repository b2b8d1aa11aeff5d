//! Seats: named capability bundles aggregating the input devices of one
//! input source. A seat holds at most one keyboard; installing or
//! removing one notifies the clients that the capabilities changed.
//! Identity is the seat's id, never its name: two seats may share a name.

use vstd::prelude::*;
use crate::keyboard::KeyboardHandle;
use crate::xkb::KeymapModel;

verus! {

/// A capability notification sent to the clients of a seat.
#[derive(Debug, Clone, Copy, PartialEq, Eq, Structural)]
pub enum SeatEvent {
    /// The set of capabilities was announced to the clients.
    CapabilitiesChanged,
}

/// A named capability bundle for one input source.
#[derive(Debug)]
pub struct Seat {
    /// The seat's identity; equality of seats is equality of ids.
    pub id: u64,
    /// The seat's name; not its identity.
    pub name: String,
    /// The keyboard capability, if installed.
    pub keyboard: Option<KeyboardHandle>,
    /// The capability notifications sent to clients, in order.
    pub events: Vec<SeatEvent>,
}

impl Seat {
    /// A seat is well formed when its keyboard, if any, is.
    pub open spec fn wf(self) -> bool {
        match self.keyboard {
            Some(k) => k.wf(),
            None => true,
        }
    }

    /// This seat's name.
    pub fn name(&self) -> (r: &String)
        ensures
            r@ == self.name@,
    {
        &self.name
    }

    /// Install a fresh keyboard over `keymap`, replacing and disposing of
    /// any previous one; clients are notified that the capabilities
    /// changed, once for the removal and once for the addition.
    pub fn add_keyboard(&mut self, keymap: KeymapModel, repeat_delay: i32, repeat_rate: i32)
        requires
            old(self).wf(),
            keymap.wf(),
        ensures
            final(self).wf(),
            final(self).keyboard matches Some(k) && k.internal.xkb.state.keymap == keymap
                && k.internal.focus is None && k.internal.spec_pressed() == Set::<u32>::empty()
                && k.internal.repeat_delay == repeat_delay && k.internal.repeat_rate == repeat_rate,
            final(self).events@ == if old(self).keyboard is Some {
                old(self).events@ + seq![SeatEvent::CapabilitiesChanged,
                    SeatEvent::CapabilitiesChanged]
            } else {
                old(self).events@ + seq![SeatEvent::CapabilitiesChanged]
            },
            final(self).id == old(self).id,
            final(self).name == old(self).name,
    {
        let keyboard = KeyboardHandle::new_from_keymap(keymap, repeat_delay, repeat_rate);
        if self.keyboard.is_some() {
            self.keyboard = None;
            self.events.push(SeatEvent::CapabilitiesChanged);
        }
        self.keyboard = Some(keyboard);
        self.events.push(SeatEvent::CapabilitiesChanged);
        proof {
            if old(self).keyboard is Some {
                assert(self.events@ =~= old(self).events@ + seq![SeatEvent::CapabilitiesChanged,
                    SeatEvent::CapabilitiesChanged]);
            } else {
                assert(self.events@ =~= old(self).events@ + seq![SeatEvent::CapabilitiesChanged]);
            }
        }
    }

    /// Whether this seat has a keyboard installed.
    pub fn has_keyboard(&self) -> (r: bool)
        ensures
            r == (self.keyboard is Some),
    {
        self.keyboard.is_some()
    }

    /// The keyboard of this seat, if any.
    pub fn get_keyboard(&self) -> (r: &Option<KeyboardHandle>)
        ensures
            r == &self.keyboard,
    {
        &self.keyboard
    }

    /// Remove the keyboard capability; clients are notified when one was
    /// installed.
    pub fn remove_keyboard(&mut self)
        requires
            old(self).wf(),
        ensures
            final(self).wf(),
            final(self).keyboard is None,
            final(self).events@ == if old(self).keyboard is Some {
                old(self).events@ + seq![SeatEvent::CapabilitiesChanged]
            } else {
                old(self).events@
            },
            final(self).id == old(self).id,
            final(self).name == old(self).name,
    {
        if self.keyboard.is_some() {
            self.keyboard = None;
            self.events.push(SeatEvent::CapabilitiesChanged);
        }
    }

    /// Whether two seat handles denote the same seat: identity, not name.
    pub fn same_seat(&self, other: &Seat) -> (r: bool)
        ensures
            r == (self.id == other.id),
    {
        self.id == other.id
    }
}

/// The registry of seats of one compositor.
#[derive(Debug)]
pub struct SeatState {
    /// The seats, in creation order.
    pub seats: Vec<Seat>,
    /// The id the next created seat will carry.
    pub next_seat_id: u64,
}

impl SeatState {
    /// Every seat well formed, and ids below the next one to hand out.
    pub open spec fn wf(self) -> bool {
        &&& forall|i: int| 0 <= i < self.seats@.len() ==> (#[trigger] self.seats@[i]).wf()
        &&& forall|i: int|
            0 <= i < self.seats@.len() ==> (#[trigger] self.seats@[i]).id < self.next_seat_id
    }

    /// An empty seat registry.
    pub fn new() -> (r: SeatState)
        ensures
            r.wf(),
            r.seats@.len() == 0,
    {
        SeatState { seats: Vec::new(), next_seat_id: 0 }
    }

    /// Create a new, empty seat under `name`. Its id is fresh: no other
    /// seat of this registry compares equal to it.
    pub fn new_seat(&mut self, name: String) -> (r: u64)
        requires
            old(self).wf(),
            old(self).next_seat_id < u64::MAX,
        ensures
            final(self).wf(),
            r == old(self).next_seat_id,
            final(self).next_seat_id == old(self).next_seat_id + 1,
            final(self).seats@.len() == old(self).seats@.len() + 1,
            final(self).seats@.take(old(self).seats@.len() as int) == old(self).seats@,
            final(self).seats@.last().id == r,
            final(self).seats@.last().name@ == name@,
            final(self).seats@.last().keyboard is None,
            forall|i: int|
                0 <= i < old(self).seats@.len() ==> (#[trigger] old(self).seats@[i]).id != r,
    {
        let id = self.next_seat_id;
        self.next_seat_id = id + 1;
        self.seats.push(Seat { id, name, keyboard: None, events: Vec::new() });
        proof {
            assert(self.seats@.take(old(self).seats@.len() as int) =~= old(self).seats@);
        }
        id
    }
}

} // verus!
