//! The event slot that hands the latest raw MIDI message from the input
//! callback to the session loop. The slot is a plain value: whoever shares it
//! between threads guards it with one lock, held for a single `write` or
//! `take_key_down`.
use vstd::prelude::*;

verus! {

/// Status byte of a key-down (note-on) message.
pub const STATUS_KEY_DOWN: u8 = 144;

/// Status byte of a key-up (note-off) message.
pub const STATUS_KEY_UP: u8 = 128;

/// Status byte of the idle reading left in an emptied slot.
pub const STATUS_IDLE: u8 = 0;

/// A raw three-byte MIDI message.
#[derive(Clone, Copy, Debug, PartialEq, Eq, Structural)]
pub struct RawEvent {
    pub status: u8,
    pub data1: u8,
    pub data2: u8,
}

impl RawEvent {
    /// The idle reading: all three bytes zero.
    pub fn idle() -> (r: RawEvent)
        ensures
            r == idle_event(),
    {
        RawEvent { status: 0, data1: 0, data2: 0 }
    }

    pub open spec fn is_key_down(self) -> bool {
        self.status == STATUS_KEY_DOWN
    }

    /// The key number that the message carries.
    pub fn key(&self) -> (r: u8)
        ensures
            r == self.data1,
    {
        self.data1
    }
}

pub open spec fn idle_event() -> RawEvent {
    RawEvent { status: 0, data1: 0, data2: 0 }
}

/// The message made of the first three bytes of `bytes`.
pub open spec fn event_of(bytes: Seq<u8>) -> RawEvent {
    RawEvent { status: bytes[0], data1: bytes[1], data2: bytes[2] }
}

/// Holds the most recent raw message until the session loop takes it.
pub struct EventSlot {
    pub event: RawEvent,
}

impl EventSlot {
    /// An empty slot, holding the idle reading.
    pub fn new() -> (r: EventSlot)
        ensures
            r.event == idle_event(),
    {
        EventSlot { event: RawEvent::idle() }
    }

    /// Stores a message that just arrived, replacing whatever the slot held,
    /// read or not. A message shorter than three bytes is malformed and
    /// leaves the slot as it was.
    pub fn write(&mut self, message: &[u8])
        ensures
            message@.len() >= 3 ==> final(self).event == event_of(message@),
            message@.len() < 3 ==> *final(self) == *old(self),
    {
        if message.len() >= 3 {
            self.event = RawEvent { status: message[0], data1: message[1], data2: message[2] };
        }
    }

    /// Takes a pending key-down: returns the whole message and empties the
    /// slot. Any other message (idle, key-up, an unrecognised status) is no
    /// key-down: the result is `None` and the slot stays as it was.
    pub fn take_key_down(&mut self) -> (r: Option<RawEvent>)
        ensures
            old(self).event.is_key_down() ==> r == Some(old(self).event) && final(self).event
                == idle_event(),
            !old(self).event.is_key_down() ==> r is None && *final(self) == *old(self),
    {
        if self.event.status == STATUS_KEY_DOWN {
            let e = self.event;
            self.event = RawEvent::idle();
            Some(e)
        } else {
            None
        }
    }

    /// Takes any pending message that is not the idle reading, key-ups
    /// included, and empties the slot.
    pub fn take_any(&mut self) -> (r: Option<RawEvent>)
        ensures
            old(self).event.status != STATUS_IDLE ==> r == Some(old(self).event)
                && final(self).event == idle_event(),
            old(self).event.status == STATUS_IDLE ==> r is None && *final(self) == *old(self),
    {
        if self.event.status != STATUS_IDLE {
            let e = self.event;
            self.event = RawEvent::idle();
            Some(e)
        } else {
            None
        }
    }
}

} // verus!
