//! An ordered, replayable event stream with registered reader cursors.
//!
//! Writers append; each reader owns a cursor and, on every read, receives
//! exactly the events written since its previous read, in arrival order.
//! The log is append-only for the session: nothing is ever reordered or
//! dropped, so reads are replayable from any registered position.

use vstd::prelude::*;

verus! {

/// An append-only event log.
pub struct EventChannel<E> {
    events: Vec<E>,
}

/// A reader's private cursor into one channel's log.
#[derive(Clone, Copy, Debug, PartialEq, Eq)]
pub struct ReaderId {
    cursor: usize,
}

impl ReaderId {
    /// How many events of the channel this reader has already seen.
    pub closed spec fn position(self) -> int {
        self.cursor as int
    }
}

impl<E> View for EventChannel<E> {
    type V = Seq<E>;

    closed spec fn view(&self) -> Seq<E> {
        self.events@
    }
}

impl<E: Copy> EventChannel<E> {
    pub fn new() -> (r: EventChannel<E>)
        ensures
            r@ == Seq::<E>::empty(),
    {
        EventChannel { events: Vec::new() }
    }

    /// Appends one event at the end of the log; everything already
    /// written keeps its place.
    pub fn single_write(&mut self, e: E)
        ensures
            final(self)@ == old(self)@.push(e),
    {
        self.events.push(e);
    }

    /// Hands out a cursor positioned at the current end of the log: a
    /// new reader sees only events written after registration.
    pub fn register_reader(&self) -> (r: ReaderId)
        ensures
            r.position() == self@.len(),
    {
        ReaderId { cursor: self.events.len() }
    }

    /// Drains, for this reader, every event written since its last
    /// read, in arrival order, and moves its cursor to the end.
    pub fn read(&self, reader: &mut ReaderId) -> (out: Vec<E>)
        requires
            old(reader).position() <= self@.len(),
        ensures
            out@ == self@.skip(old(reader).position()),
            final(reader).position() == self@.len(),
    {
        let start: usize = reader.cursor;
        let mut out: Vec<E> = Vec::new();
        let mut i: usize = start;
        while i < self.events.len()
            invariant
                start <= i <= self.events.len(),
                out@ == self@.subrange(start as int, i as int),
            decreases self.events.len() - i,
        {
            let e = self.events[i];
            proof {
                assert(self@.subrange(start as int, i + 1) =~= self@.subrange(
                    start as int,
                    i as int,
                ).push(self@[i as int]));
            }
            out.push(e);
            i += 1;
        }
        reader.cursor = self.events.len();
        proof {
            assert(self@.subrange(start as int, self@.len() as int) =~= self@.skip(start as int));
        }
        out
    }

    /// How many events the log holds in all, reads included: reading
    /// never truncates the log.
    pub fn len(&self) -> (n: usize)
        ensures
            n == self@.len(),
    {
        self.events.len()
    }
}

} // verus!
