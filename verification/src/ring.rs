//! Fixed-capacity FIFO ring of sample words.
//!
//! The playback pipeline streams interleaved samples from the producer
//! thread to the audio callback through a bounded queue: pushes append at
//! the tail, pops take the head, a full queue is backpressure and an empty
//! one an underrun.  The contracts pin the queue's exact contents, so no
//! item is duplicated, fabricated, reordered or skipped.  Samples travel as
//! their 32-bit words.  The single-producer/single-consumer discipline
//! itself is the host's obligation: it owns the two thread roles.

use vstd::prelude::*;

verus! {

/// Bounded FIFO ring buffer of 32-bit sample words.
pub struct RingBuffer {
    buf: Vec<u32>,
    head: usize,
    count: usize,
}

impl RingBuffer {
    /// Capacity chosen at construction.
    pub closed spec fn capacity(self) -> nat {
        self.buf@.len()
    }

    /// The queued words, oldest first.
    pub closed spec fn contents(self) -> Seq<u32> {
        Seq::new(
            self.count as nat,
            |i: int|
                self.buf@[if self.head + i < self.buf@.len() {
                    self.head + i
                } else {
                    self.head + i - self.buf@.len()
                }],
        )
    }

    /// Ring validity: a real, bounded capacity and in-range cursor and
    /// count.
    pub closed spec fn wf(self) -> bool {
        1 <= self.buf@.len() <= 0x4000_0000 && self.head < self.buf@.len() && self.count
            <= self.buf@.len()
    }

    /// Well-formedness is public knowledge for callers.
    pub open spec fn inv(self) -> bool {
        self.wf() && self.contents().len() <= self.capacity() && self.capacity() >= 1
    }

    /// An empty ring of `capacity` slots.
    pub fn with_capacity(capacity: usize) -> (r: RingBuffer)
        requires
            1 <= capacity <= 0x4000_0000,
        ensures
            r.inv(),
            r.capacity() == capacity,
            r.contents().len() == 0,
    {
        let mut buf: Vec<u32> = Vec::new();
        let mut i: usize = 0;
        while i < capacity
            invariant
                i <= capacity,
                buf@.len() == i,
            decreases capacity - i,
        {
            buf.push(0);
            i += 1;
        }
        RingBuffer { buf, head: 0, count: 0 }
    }

    /// Appends a word at the tail; a full ring rejects it unchanged.
    pub fn try_push(&mut self, sample: u32) -> (r: Result<(), u32>)
        requires
            old(self).inv(),
        ensures
            final(self).inv(),
            final(self).capacity() == old(self).capacity(),
            old(self).contents().len() < old(self).capacity() ==> r is Ok
                && final(self).contents() == old(self).contents().push(sample),
            old(self).contents().len() == old(self).capacity() ==> r == Err::<(), u32>(sample)
                && final(self).contents() == old(self).contents(),
    {
        if self.count == self.buf.len() {
            proof {
                assert(final(self).contents() =~= old(self).contents());
            }
            return Err(sample);
        }
        let cap = self.buf.len();
        let tail = if self.head + self.count < cap {
            self.head + self.count
        } else {
            self.head + self.count - cap
        };
        proof {
            assert(self.head + self.count < 2 * cap);
        }
        *vstd::std_specs::vec::vec_index_mut(&mut self.buf, tail) = sample;
        self.count = self.count + 1;
        proof {
            assert(final(self).contents() =~= old(self).contents().push(sample));
        }
        Ok(())
    }

    /// Takes the oldest word; an empty ring is an underrun and yields
    /// nothing.
    pub fn try_pop(&mut self) -> (r: Option<u32>)
        requires
            old(self).inv(),
        ensures
            final(self).inv(),
            final(self).capacity() == old(self).capacity(),
            old(self).contents().len() == 0 ==> r is None && final(self).contents() == old(
                self,
            ).contents(),
            old(self).contents().len() > 0 ==> r == Some(old(self).contents()[0])
                && final(self).contents() == old(self).contents().drop_first(),
    {
        if self.count == 0 {
            proof {
                assert(final(self).contents() =~= old(self).contents());
            }
            return None;
        }
        let sample = self.buf[self.head];
        self.head = if self.head + 1 < self.buf.len() {
            self.head + 1
        } else {
            0
        };
        self.count = self.count - 1;
        proof {
            assert(final(self).contents() =~= old(self).contents().drop_first());
        }
        Some(sample)
    }

    /// Free slots left before pushes start failing.
    pub fn vacant_len(&self) -> (r: usize)
        requires
            self.inv(),
        ensures
            r == self.capacity() - self.contents().len(),
    {
        self.buf.len() - self.count
    }

    /// Queued words waiting to be popped.
    pub fn occupied_len(&self) -> (r: usize)
        requires
            self.inv(),
        ensures
            r == self.contents().len(),
    {
        self.count
    }

    /// Drops everything queued; used when a seek discards stale samples.
    pub fn clear(&mut self)
        requires
            old(self).inv(),
        ensures
            final(self).inv(),
            final(self).capacity() == old(self).capacity(),
            final(self).contents().len() == 0,
    {
        self.count = 0;
    }
}

/// FIFO delivery: after pushing `a` and then `b` into a ring with room,
/// the next two pops return `a` and then `b`, around any queue already
/// present being drained first; stated here for the contents sequence the
/// operations above maintain.
pub proof fn lemma_ring_fifo(contents: Seq<u32>, a: u32, b: u32)
    ensures
        contents.push(a).push(b)[contents.len() as int] == a,
        contents.push(a).push(b)[contents.len() as int + 1] == b,
        forall|i: int| 0 <= i < contents.len() ==> contents.push(a).push(b)[i] == contents[i],
{
}

} // verus!
