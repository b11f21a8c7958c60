use vstd::prelude::*;
use crate::segment::AudioPacket;

verus! {

/// Above this many queued packets the health monitor flushes a queue.
pub const FLUSH_THRESHOLD: usize = 6000;

/// Hands out the sequence numbers of one stream: 0, 1, 2, ...
#[derive(Clone, Copy, Debug, PartialEq, Eq, Structural)]
pub struct SequenceCounter {
    pub next: u64,
}

impl SequenceCounter {
    pub fn new() -> (r: SequenceCounter)
        ensures
            r.next == 0,
    {
        SequenceCounter { next: 0 }
    }

    /// Takes the next sequence number. A number is taken whether or not its
    /// packet reaches the queue, so that a dropped packet leaves a gap.
    pub fn take(&mut self) -> (r: u64)
        requires
            old(self).next < u64::MAX,
        ensures
            r == old(self).next,
            final(self).next == old(self).next + 1,
    {
        let r = self.next;
        self.next = self.next + 1;
        r
    }
}

/// The captured packets of one stream that have not been flushed yet.
pub struct PacketQueue<T> {
    pub packets: Vec<AudioPacket<T>>,
}

impl<T> PacketQueue<T> {
    pub fn new() -> (r: PacketQueue<T>)
        ensures
            r.packets@.len() == 0,
    {
        PacketQueue { packets: Vec::new() }
    }

    pub fn len(&self) -> (r: usize)
        ensures
            r == self.packets@.len(),
    {
        self.packets.len()
    }

    /// Appends a captured packet.
    pub fn push(&mut self, packet: AudioPacket<T>)
        ensures
            final(self).packets@ == old(self).packets@.push(packet),
    {
        self.packets.push(packet);
    }

    /// Whether the queue has grown past the flush threshold.
    pub fn over_threshold(&self) -> (r: bool)
        ensures
            r == (self.packets@.len() > FLUSH_THRESHOLD),
    {
        self.packets.len() > FLUSH_THRESHOLD
    }

    /// Takes every queued packet out, leaving the queue empty.
    pub fn take_all(&mut self) -> (r: Vec<AudioPacket<T>>)
        ensures
            r@ == old(self).packets@,
            final(self).packets@.len() == 0,
    {
        let mut taken: Vec<AudioPacket<T>> = Vec::new();
        std::mem::swap(&mut taken, &mut self.packets);
        taken
    }
}

} // verus!
