//! The audio format and buffering a stream is created with.

use crate::queue::max_slots;
use vstd::prelude::*;

verus! {

/// The format of the audio a stream carries and the amount of it to buffer.
#[derive(Clone, Copy, Debug, PartialEq, Eq, Structural)]
pub struct FastStreamSettings {
    /// Bytes per sample of one channel.
    pub sample_size: u32,
    /// Channels per frame.
    pub n_channels: u32,
    /// Frames per second.
    pub sample_rate: u32,
    /// Milliseconds of audio the buffer can hold.
    pub buffer_ms: u32,
}

impl FastStreamSettings {
    /// Bytes per frame: one sample for each channel.
    pub open spec fn frame_size(self) -> nat {
        (self.sample_size * self.n_channels) as nat
    }

    /// A thousand times the bytes that `buffer_ms` milliseconds of audio take.
    pub open spec fn byte_millis(self) -> nat {
        (self.sample_size * self.n_channels * self.sample_rate * self.buffer_ms) as nat
    }

    /// Bytes the buffer holds.
    pub open spec fn capacity(self) -> nat {
        self.byte_millis() / 1000
    }

    /// Settings a buffer can be built from: the capacity is at least one byte
    /// and the product it is derived from fits in a `usize`.
    pub open spec fn valid(self) -> bool {
        &&& self.byte_millis() <= usize::MAX
        &&& 0 < self.capacity()
    }

    /// Decides whether a buffer can be built from these settings.
    pub fn is_valid(&self) -> (ok: bool)
        ensures
            ok == self.valid(),
    {
        match self.checked_byte_millis() {
            Some(product) => product / 1000 > 0,
            None => false,
        }
    }

    /// In valid settings no factor is zero, so the frame size and the bytes
    /// per second are bounded by the product the capacity is derived from,
    /// and the capacity is one that a queue can be created with.
    pub proof fn lemma_valid_bounds(self)
        requires
            self.valid(),
        ensures
            0 < self.capacity() <= max_slots(),
            self.sample_size >= 1,
            self.n_channels >= 1,
            self.sample_rate >= 1,
            self.buffer_ms >= 1,
            1 <= self.frame_size() <= self.frame_size() * self.sample_rate <= self.byte_millis(),
            self.byte_millis() == self.frame_size() * self.sample_rate * self.buffer_ms,
    {
        let a = self.sample_size as int;
        let b = self.n_channels as int;
        let c = self.sample_rate as int;
        let d = self.buffer_ms as int;
        assert(a != 0 && b != 0 && c != 0 && d != 0) by (nonlinear_arith)
            requires
                a * b * c * d >= 1000,
        ;
        lemma_product_grows(a, b, c, d);
    }

    /// The product behind the capacity, or `None` where it is zero or does not
    /// fit in a `usize`.
    fn checked_byte_millis(&self) -> (r: Option<usize>)
        ensures
            match r {
                Some(product) => 0 < product == self.byte_millis(),
                None => self.byte_millis() == 0 || self.byte_millis() > usize::MAX,
            },
    {
        if self.sample_size == 0 || self.n_channels == 0 || self.sample_rate == 0
            || self.buffer_ms == 0 {
            assert(self.byte_millis() == 0) by (nonlinear_arith)
                requires
                    self.sample_size == 0 || self.n_channels == 0 || self.sample_rate == 0
                        || self.buffer_ms == 0,
                    self.byte_millis() == self.sample_size * self.n_channels * self.sample_rate
                        * self.buffer_ms,
            ;
            return None;
        }
        let a: usize = self.sample_size as usize;
        let b: usize = self.n_channels as usize;
        let c: usize = self.sample_rate as usize;
        let d: usize = self.buffer_ms as usize;
        proof {
            lemma_product_grows(a as int, b as int, c as int, d as int);
        }
        let ab = match a.checked_mul(b) {
            Some(v) => v,
            None => { return None; },
        };
        let abc = match ab.checked_mul(c) {
            Some(v) => v,
            None => { return None; },
        };
        abc.checked_mul(d)
    }
}

/// With every factor at least one, a product of four is no smaller than the
/// products of its first two and of its first three factors.
proof fn lemma_product_grows(a: int, b: int, c: int, d: int)
    by (nonlinear_arith)
    requires
        a >= 1,
        b >= 1,
        c >= 1,
        d >= 1,
    ensures
        1 <= a * b <= a * b * c <= a * b * c * d,
{
}

} // verus!
