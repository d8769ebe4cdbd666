//! Frame history: double-buffered (ping-pong) storage selected by the parity of
//! the frame counter.
use vstd::prelude::*;

verus! {

/// One of the two backing buffers of a ping-pong pair.
#[derive(Clone, Copy, Debug, PartialEq, Eq, Hash, Structural)]
pub enum Slot {
    A,
    B,
}

impl Slot {
    pub open spec fn other_of(self) -> Slot {
        match self {
            Slot::A => Slot::B,
            Slot::B => Slot::A,
        }
    }

    /// The other buffer of the pair.
    pub fn other(self) -> (r: Slot)
        ensures
            r == self.other_of(),
            r != self,
    {
        match self {
            Slot::A => Slot::B,
            Slot::B => Slot::A,
        }
    }
}

/// The slot that frame `frame` writes: even frames write `A`, odd frames write `B`.
pub open spec fn write_slot_of(frame: u32) -> Slot {
    if frame % 2 == 0 {
        Slot::A
    } else {
        Slot::B
    }
}

/// The slot that frame `frame` reads as history: the one it does not write.
pub open spec fn read_slot_of(frame: u32) -> Slot {
    write_slot_of(frame).other_of()
}

/// The frame counter after `frame`; it wraps around at `u32::MAX`.
pub open spec fn next_frame_of(frame: u32) -> u32 {
    if frame == u32::MAX {
        0
    } else {
        (frame + 1) as u32
    }
}

/// Advances the frame counter by one, wrapping around at `u32::MAX`.
pub fn next_frame(frame: u32) -> (r: u32)
    ensures
        r == next_frame_of(frame),
{
    if frame == u32::MAX {
        0
    } else {
        frame + 1
    }
}

/// Slot written during `frame`.
pub fn write_slot(frame: u32) -> (r: Slot)
    ensures
        r == write_slot_of(frame),
{
    if frame % 2 == 0 {
        Slot::A
    } else {
        Slot::B
    }
}

/// Slot read as history during `frame`.
pub fn read_slot(frame: u32) -> (r: Slot)
    ensures
        r == read_slot_of(frame),
        r != write_slot_of(frame),
{
    write_slot(frame).other()
}

/// Two buffers of the same kind, used alternately from frame to frame.
#[derive(Clone, Copy, Debug)]
pub struct PingPong<T> {
    pub a: T,
    pub b: T,
}

impl<T> PingPong<T> {
    pub open spec fn slot_spec(&self, slot: Slot) -> T {
        match slot {
            Slot::A => self.a,
            Slot::B => self.b,
        }
    }

    pub fn new(a: T, b: T) -> (r: Self)
        ensures
            r.a == a,
            r.b == b,
    {
        PingPong { a, b }
    }

    /// The buffer held in `slot`.
    pub fn slot(&self, slot: Slot) -> (r: &T)
        ensures
            *r == self.slot_spec(slot),
    {
        match slot {
            Slot::A => &self.a,
            Slot::B => &self.b,
        }
    }

    /// The buffer that `frame` writes.
    pub fn write(&self, frame: u32) -> (r: &T)
        ensures
            *r == self.slot_spec(write_slot_of(frame)),
    {
        self.slot(write_slot(frame))
    }

    /// The buffer that `frame` reads as history.
    pub fn read(&self, frame: u32) -> (r: &T)
        ensures
            *r == self.slot_spec(read_slot_of(frame)),
    {
        self.slot(read_slot(frame))
    }
}

/// The two roles of a ping-pong pair in one frame.
#[derive(Clone, Copy, Debug, PartialEq, Eq, Structural)]
pub struct HistorySlots {
    pub write: Slot,
    pub read: Slot,
}

/// Which buffer of a pair `frame` writes and which it reads.
pub fn history_slots(frame: u32) -> (r: HistorySlots)
    ensures
        r.write == write_slot_of(frame),
        r.read == read_slot_of(frame),
        r.read != r.write,
{
    HistorySlots { write: write_slot(frame), read: read_slot(frame) }
}

/// Within one frame the read buffer and the write buffer of a pair are never the
/// same one.
pub proof fn lemma_read_write_distinct(frame: u32)
    ensures
        read_slot_of(frame) != write_slot_of(frame),
{
}

/// The buffer written at frame `f` is exactly the buffer read at frame `f + 1`,
/// and the buffer read at `f` is the one written at `f + 1`: the pair swaps
/// roles every frame, also where the counter wraps around.
pub proof fn lemma_written_is_read_next(frame: u32)
    ensures
        read_slot_of(next_frame_of(frame)) == write_slot_of(frame),
        write_slot_of(next_frame_of(frame)) == read_slot_of(frame),
{
}

} // verus!
