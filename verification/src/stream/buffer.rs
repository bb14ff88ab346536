//! The fixed-capacity byte queue between the refill callback and the tick loop.

use crate::error::{Overflow, Underflow};
use crate::queue::{max_slots, queue_capacity, queue_len, queue_new, queue_pop, queue_push, queued, slots};
use crate::settings::FastStreamSettings;
use vstd::prelude::*;

verus! {

/// Milliseconds between two ticks of the consumer.
pub const READ_INTERVAL_MS: u64 = 10;

/// A first-in, first-out queue of raw audio bytes with a capacity fixed at
/// creation. Its view is the queued bytes, oldest first.
pub struct FastStreamBuffer {
    data: crossbeam_queue::ArrayQueue<u8>,
    frame_size: usize,
    sample_rate: usize,
}

/// The bytes a read of `n` takes from the front of `queued`: the first `n`,
/// or all of them where fewer are queued.
pub open spec fn drained(queued: Seq<u8>, n: nat) -> Seq<u8> {
    if n <= queued.len() {
        queued.take(n as int)
    } else {
        queued
    }
}

/// The bytes a read of `n` leaves queued.
pub open spec fn remaining(queued: Seq<u8>, n: nat) -> Seq<u8> {
    if n <= queued.len() {
        queued.skip(n as int)
    } else {
        Seq::empty()
    }
}

/// Whether `bytes` fit in what a buffer of `capacity` holding `queued` has free.
pub open spec fn fits(queued: Seq<u8>, capacity: nat, bytes: Seq<u8>) -> bool {
    queued.len() + bytes.len() <= capacity
}

/// The contents after a write of `bytes`: all of them appended where they
/// fit, and the queue as it was where they do not.
pub open spec fn written(queued: Seq<u8>, capacity: nat, bytes: Seq<u8>) -> Seq<u8> {
    if fits(queued, capacity, bytes) {
        queued + bytes
    } else {
        queued
    }
}

/// Bytes drained per tick: the frames that play in one tick interval.
pub open spec fn tick_bytes(sample_rate: nat, frame_size: nat) -> nat {
    (sample_rate / (1000nat / READ_INTERVAL_MS as nat)) * frame_size
}

impl View for FastStreamBuffer {
    type V = Seq<u8>;

    closed spec fn view(&self) -> Seq<u8> {
        queued(self.data)
    }
}

impl FastStreamBuffer {
    /// What holds of every buffer: it never holds more than its capacity,
    /// its capacity is one the queue can be built with, and a second of audio
    /// in its format is a number of bytes that fits in a `usize`.
    #[verifier::type_invariant]
    pub closed spec fn well_formed(self) -> bool {
        &&& queued(self.data).len() <= slots(self.data)
        &&& 0 < slots(self.data) <= max_slots()
        &&& self.frame_size * self.sample_rate <= usize::MAX
    }

    /// The bounds that well-formedness gives.
    pub proof fn lemma_well_formed_bounds(self)
        requires
            self.well_formed(),
        ensures
            self@.len() <= self.spec_capacity(),
            0 < self.spec_capacity() <= max_slots(),
            self.spec_frame_size() * self.spec_sample_rate() <= usize::MAX,
    {
    }

    /// The most bytes the buffer can hold.
    pub closed spec fn spec_capacity(self) -> nat {
        slots(self.data)
    }

    /// Bytes per frame.
    pub closed spec fn spec_frame_size(self) -> nat {
        self.frame_size as nat
    }

    /// Frames per second.
    pub closed spec fn spec_sample_rate(self) -> nat {
        self.sample_rate as nat
    }

    /// Bytes drained per tick.
    pub open spec fn spec_read_size(self) -> nat {
        tick_bytes(self.spec_sample_rate(), self.spec_frame_size())
    }

    /// Whether `other` has this buffer's capacity and audio format.
    pub open spec fn same_shape(self, other: FastStreamBuffer) -> bool {
        &&& self.spec_capacity() == other.spec_capacity()
        &&& self.spec_frame_size() == other.spec_frame_size()
        &&& self.spec_sample_rate() == other.spec_sample_rate()
    }

    /// An empty buffer sized for `buffer_ms` milliseconds of audio in the
    /// given format.
    pub fn new(settings: &FastStreamSettings) -> (buf: Self)
        requires
            settings.valid(),
        ensures
            buf@ == Seq::<u8>::empty(),
            buf.spec_capacity() == settings.capacity(),
            buf.spec_frame_size() == settings.frame_size(),
            buf.spec_sample_rate() == settings.sample_rate,
    {
        proof {
            settings.lemma_valid_bounds();
        }
        let frame_size: usize = (settings.sample_size as usize) * (settings.n_channels as usize);
        let sample_rate: usize = settings.sample_rate as usize;
        let buf_size: usize = (frame_size * sample_rate * (settings.buffer_ms as usize)) / 1000;
        FastStreamBuffer { data: queue_new(buf_size), frame_size, sample_rate }
    }

    /// Milliseconds between two ticks of the consumer.
    pub fn read_interval_ms() -> (ms: u64)
        ensures
            ms == READ_INTERVAL_MS,
    {
        READ_INTERVAL_MS
    }

    /// The most bytes the buffer can hold.
    pub fn capacity(&self) -> (n: usize)
        ensures
            n == self.spec_capacity(),
    {
        queue_capacity(&self.data)
    }

    /// Bytes per frame.
    pub fn frame_size(&self) -> (n: usize)
        ensures
            n == self.spec_frame_size(),
    {
        self.frame_size
    }

    /// Frames per second.
    pub fn sample_rate(&self) -> (n: usize)
        ensures
            n == self.spec_sample_rate(),
    {
        self.sample_rate
    }

    /// The bytes to drain on a tick that comes every `READ_INTERVAL_MS`
    /// milliseconds.
    pub fn read_size(&self) -> (n: usize)
        ensures
            n == self.spec_read_size(),
    {
        proof {
            use_type_invariant(self);
            lemma_tick_bytes_bound(self.sample_rate as nat, self.frame_size as nat);
        }
        (self.sample_rate / (1000 / READ_INTERVAL_MS as usize)) * self.frame_size
    }

    /// The most bytes a write can append now.
    pub fn write_capacity(&self) -> (n: usize)
        ensures
            n == self.spec_capacity() - self@.len(),
    {
        proof {
            use_type_invariant(self);
        }
        queue_capacity(&self.data) - queue_len(&self.data)
    }

    /// The number of bytes queued.
    pub fn len(&self) -> (n: usize)
        ensures
            n == self@.len(),
            n <= self.spec_capacity(),
    {
        proof {
            use_type_invariant(self);
        }
        queue_len(&self.data)
    }

    /// Appends all of `buf` at the back, or nothing: where `buf` is longer
    /// than the free capacity the buffer is left as it was and `Overflow` is
    /// returned.
    pub fn write(&mut self, buf: &[u8]) -> (r: Result<usize, Overflow>)
        ensures
            final(self).same_shape(*old(self)),
            final(self)@ == written(old(self)@, old(self).spec_capacity(), buf@),
            old(self)@.len() <= old(self).spec_capacity(),
            final(self)@.len() <= final(self).spec_capacity(),
            match r {
                Ok(n) => fits(old(self)@, old(self).spec_capacity(), buf@) && n == buf@.len(),
                Err(_) => !fits(old(self)@, old(self).spec_capacity(), buf@),
            },
    {
        proof {
            use_type_invariant(&*self);
        }
        if buf.len() > self.write_capacity() {
            return Err(Overflow);
        }
        let mut i: usize = 0;
        while i < buf.len()
            invariant
                i <= buf@.len(),
                self.well_formed(),
                self.same_shape(*old(self)),
                self@ == old(self)@ + buf@.take(i as int),
                old(self)@.len() + buf@.len() <= old(self).spec_capacity(),
            decreases buf@.len() - i,
        {
            let pushed = queue_push(&mut self.data, buf[i]);
            assert(pushed is Ok);
            i += 1;
        }
        Ok(i)
    }

    /// Removes up to `n` bytes from the front and discards them. Where fewer
    /// than `n` are queued, all of them are removed and `Underflow` says how
    /// many they were. Never waits for more bytes to arrive.
    pub fn read(&mut self, n: usize) -> (r: Result<usize, Underflow>)
        ensures
            final(self).same_shape(*old(self)),
            final(self)@ == remaining(old(self)@, n as nat),
            match r {
                Ok(count) => n <= old(self)@.len() && count == n,
                Err(e) => n > old(self)@.len() && e.available == old(self)@.len(),
            },
    {
        proof {
            use_type_invariant(&*self);
        }
        let mut count: usize = 0;
        while count < n
            invariant
                count <= n,
                count <= old(self)@.len(),
                self.well_formed(),
                self.same_shape(*old(self)),
                self@ == old(self)@.skip(count as int),
            decreases n - count,
        {
            match queue_pop(&mut self.data) {
                Some(_) => {
                    assert(old(self)@.skip(count as int).drop_first() == old(self)@.skip(
                        count + 1,
                    ));
                    count += 1;
                },
                None => { return Err(Underflow { available: count }); },
            }
        }
        Ok(n)
    }

    /// Removes up to `n` bytes from the front and appends them to `out` in the
    /// order they were written. Reports as `read` does.
    pub fn read_into(&mut self, n: usize, out: &mut Vec<u8>) -> (r: Result<usize, Underflow>)
        ensures
            final(self).same_shape(*old(self)),
            final(self)@ == remaining(old(self)@, n as nat),
            final(out)@ == old(out)@ + drained(old(self)@, n as nat),
            match r {
                Ok(count) => n <= old(self)@.len() && count == n,
                Err(e) => n > old(self)@.len() && e.available == old(self)@.len(),
            },
    {
        proof {
            use_type_invariant(&*self);
        }
        let mut count: usize = 0;
        while count < n
            invariant
                count <= n,
                count <= old(self)@.len(),
                self.well_formed(),
                self.same_shape(*old(self)),
                self@ == old(self)@.skip(count as int),
                out@ == old(out)@ + old(self)@.take(count as int),
            decreases n - count,
        {
            match queue_pop(&mut self.data) {
                Some(byte) => {
                    assert(old(self)@.skip(count as int).drop_first() == old(self)@.skip(
                        count + 1,
                    ));
                    out.push(byte);
                    count += 1;
                },
                None => { return Err(Underflow { available: count }); },
            }
        }
        Ok(n)
    }
}

/// A tick drains no more bytes than the format produces in a second.
proof fn lemma_tick_bytes_bound(sample_rate: nat, frame_size: nat)
    ensures
        tick_bytes(sample_rate, frame_size) <= frame_size * sample_rate,
{
    let per_tick = sample_rate / (1000nat / READ_INTERVAL_MS as nat);
    assert(per_tick * frame_size <= frame_size * sample_rate) by (nonlinear_arith)
        requires
            per_tick <= sample_rate,
    ;
}

/// Bytes come out in the order they went in. After a write that fits, a read
/// of everything queued drains the earlier bytes followed by the written ones
/// and leaves nothing; on an empty buffer a read of as many bytes as were
/// written drains exactly those bytes.
pub proof fn lemma_write_then_read_is_fifo(queued: Seq<u8>, capacity: nat, bytes: Seq<u8>)
    requires
        fits(queued, capacity, bytes),
    ensures
        drained(written(queued, capacity, bytes), queued.len() + bytes.len()) == queued + bytes,
        remaining(written(queued, capacity, bytes), queued.len() + bytes.len())
            == Seq::<u8>::empty(),
        drained(written(queued, capacity, bytes), queued.len()) == queued,
        remaining(written(queued, capacity, bytes), queued.len()) == bytes,
        queued.len() == 0 ==> drained(written(queued, capacity, bytes), bytes.len()) == bytes,
{
}

} // verus!
