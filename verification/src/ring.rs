//! The bounded queue of samples between the decode loop and the device
//! callback. Samples are opaque 32-bit words; the word 0 is silence. The
//! producer appends what fits, the consumer always receives exactly as many
//! words as it asks for, padded with silence when the queue runs dry, and a
//! flush discards everything buffered, so the next write lands at the read
//! head.

use vstd::prelude::*;

verus! {

pub struct SampleRingBuffer {
    buf: Vec<u32>,
    start: usize,
    capacity: usize,
}

impl SampleRingBuffer {
    /// The samples buffered and not yet read, oldest first.
    pub closed spec fn contents(self) -> Seq<u32> {
        self.buf@.skip(self.start as int)
    }

    /// The most samples the buffer ever holds.
    pub closed spec fn spec_capacity(self) -> nat {
        self.capacity as nat
    }

    /// The read position never passes the write position, and what is
    /// buffered never exceeds the capacity.
    pub closed spec fn wf(self) -> bool {
        self.start <= self.buf@.len() && self.buf@.len() - self.start <= self.capacity
    }

    /// True while any written sample has not been read.
    pub open spec fn spec_has_remaining(self) -> bool {
        self.contents().len() > 0
    }

    /// An empty buffer of the given capacity. The host sizes it to hold
    /// about five seconds of audio at the sink's spec; that window is also
    /// the decode-ahead of a gapless transition.
    pub fn new(capacity: usize) -> (r: SampleRingBuffer)
        ensures
            r.wf(),
            r.contents() == Seq::<u32>::empty(),
            r.spec_capacity() == capacity,
    {
        SampleRingBuffer { buf: Vec::new(), start: 0, capacity }
    }

    pub fn len(&self) -> (n: usize)
        requires
            self.wf(),
        ensures
            n == self.contents().len(),
    {
        self.buf.len() - self.start
    }

    /// Room left for the producer.
    pub fn available(&self) -> (n: usize)
        requires
            self.wf(),
        ensures
            n == self.spec_capacity() - self.contents().len(),
    {
        self.capacity - (self.buf.len() - self.start)
    }

    pub fn has_remaining_samples(&self) -> (r: bool)
        requires
            self.wf(),
        ensures
            r == self.spec_has_remaining(),
    {
        self.buf.len() - self.start > 0
    }

    /// Append as many of the samples as fit, in order, and report how many
    /// were taken; the producer parks on a partial write and offers the rest
    /// again once the consumer has drained some. After a flush — when
    /// nothing remains buffered — the written samples stand at the very
    /// read head: the next read returns them first, with no stale residue.
    pub fn write(&mut self, samples: &Vec<u32>) -> (n: usize)
        requires
            old(self).wf(),
        ensures
            final(self).wf(),
            final(self).spec_capacity() == old(self).spec_capacity(),
            n == if samples@.len() <= old(self).spec_capacity() - old(self).contents().len() {
                samples@.len() as int
            } else {
                old(self).spec_capacity() - old(self).contents().len()
            },
            final(self).contents() == old(self).contents() + samples@.take(n as int),
            !old(self).spec_has_remaining() ==> final(self).contents() == samples@.take(n as int),
    {
        if self.start > 0 {
            let ghost previous = self.contents();
            let mut fresh: Vec<u32> = Vec::new();
            let mut i: usize = self.start;
            while i < self.buf.len()
                invariant
                    self.start <= i <= self.buf@.len(),
                    previous == self.buf@.skip(self.start as int),
                    fresh@ == self.buf@.subrange(self.start as int, i as int),
                decreases self.buf@.len() - i,
            {
                fresh.push(self.buf[i]);
                i = i + 1;
            }
            proof {
                assert(fresh@ =~= previous);
            }
            self.buf = fresh;
            self.start = 0;
        }
        let ghost base = self.contents();
        let room: usize = self.capacity - self.buf.len();
        let take: usize = if samples.len() <= room {
            samples.len()
        } else {
            room
        };
        let mut k: usize = 0;
        while k < take
            invariant
                k <= take,
                take <= samples@.len(),
                self.start == 0,
                self.capacity == old(self).capacity,
                self.buf@.len() == base.len() + k,
                self.buf@.len() + (take - k) <= self.capacity,
                self.buf@ == base + samples@.take(k as int),
            decreases take - k,
        {
            self.buf.push(samples[k]);
            proof {
                assert(base + samples@.take(k as int) + seq![samples@[k as int]] =~= base
                    + samples@.take(k + 1));
            }
            k = k + 1;
        }
        proof {
            assert(self.contents() =~= self.buf@);
        }
        take
    }

    /// Hand the consumer exactly `dest_len` samples: what is buffered first,
    /// oldest first, and silence for any deficit. The consumer is the
    /// device callback — it must never wait, so an underrun renders as
    /// silence rather than as a stall.
    pub fn read(&mut self, dest_len: usize) -> (out: Vec<u32>)
        requires
            old(self).wf(),
        ensures
            final(self).wf(),
            final(self).spec_capacity() == old(self).spec_capacity(),
            out@.len() == dest_len,
            ({
                let k = if dest_len <= old(self).contents().len() {
                    dest_len as int
                } else {
                    old(self).contents().len() as int
                };
                &&& out@.take(k) == old(self).contents().take(k)
                &&& forall|i: int| k <= i < dest_len ==> out@[i] == 0u32
                &&& final(self).contents() == old(self).contents().skip(k)
            }),
    {
        let buffered: usize = self.buf.len() - self.start;
        let k: usize = if dest_len <= buffered {
            dest_len
        } else {
            buffered
        };
        let mut out: Vec<u32> = Vec::new();
        let mut i: usize = 0;
        while i < k
            invariant
                i <= k,
                k <= self.buf@.len() - self.start,
                self.start + k <= self.buf@.len(),
                self.buf@.len() <= usize::MAX,
                out@ == self.buf@.subrange(self.start as int, self.start + i),
            decreases k - i,
        {
            out.push(self.buf[self.start + i]);
            i = i + 1;
        }
        while i < dest_len
            invariant
                k <= i <= dest_len,
                out@.len() == i,
                out@.take(k as int) == self.buf@.subrange(self.start as int, self.start + k as int),
                forall|j: int| k <= j < i ==> out@[j] == 0u32,
            decreases dest_len - i,
        {
            out.push(0);
            i = i + 1;
        }
        self.start = self.start + k;
        proof {
            assert(out@.take(k as int) =~= old(self).contents().take(k as int));
            assert(self.contents() =~= old(self).contents().skip(k as int));
        }
        out
    }

    /// Discard everything buffered at once; used on cancellation so that the
    /// next session's samples land at the read head.
    pub fn flush(&mut self)
        ensures
            final(self).wf(),
            final(self).spec_capacity() == old(self).spec_capacity(),
            final(self).contents() == Seq::<u32>::empty(),
            !final(self).spec_has_remaining(),
    {
        self.buf.clear();
        self.start = 0;
    }
}

} // verus!
