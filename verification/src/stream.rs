//! The stream engine: a buffer drained on a fixed clock and refilled on demand.
//!
//! The engine holds the decisions of the tick loop and of the calls that
//! control it. It never waits and never schedules anything itself: the task
//! that owns the clock calls `tick` at every tick boundary and
//! `apply_transition` whenever the controller has asked for a change, and
//! carries out what the answers say.

pub mod buffer;

use crate::error::{FastError, Underflow};
use crate::floop::{FastLoop, Invoke, LoopEvent, LoopState};
use crate::settings::FastStreamSettings;
use crate::stream::buffer::{fits, remaining, tick_bytes, written, FastStreamBuffer};
use crate::thread_flag::ThreadFlag;
use vstd::prelude::*;

verus! {

/// The number of ticks' worth of audio in one write block. Refills are asked
/// for in whole write blocks.
pub const WRITE_BLOCK_TICKS: usize = 5;

/// What a stream is, as far as its behaviour goes.
#[verifier::ext_equal]
pub struct StreamState {
    /// The bytes queued, oldest first.
    pub queued: Seq<u8>,
    /// The most bytes the buffer holds.
    pub capacity: nat,
    /// Bytes per frame.
    pub frame_size: nat,
    /// Frames per second.
    pub sample_rate: nat,
    /// Whether the stream is paused.
    pub paused: bool,
    /// The pause state the controller has asked for and the tick loop has not
    /// yet applied.
    pub pending: Option<bool>,
    /// Whether the stream has been torn down.
    pub destroyed: bool,
}

/// The answer to a request to play or pause.
#[derive(Clone, Copy, Debug, PartialEq, Eq, Structural)]
pub enum Play {
    /// The stream was already in the requested state; nothing was done and
    /// there is nothing to wait for.
    Debounced,
    /// The change has been published; it takes effect when the tick loop
    /// applies it.
    Requested,
}

/// What a tick decided about refilling the buffer.
#[derive(Clone, Copy, Debug, PartialEq, Eq, Structural)]
pub enum Refill {
    /// Less than one write block is free.
    NotNeeded,
    /// The lock was free: the callback is to be run and asked for this many
    /// bytes.
    Scheduled(usize),
    /// A refill is still in flight; this tick asks for nothing.
    Busy,
}

/// What a processed tick did.
#[derive(Clone, Copy, Debug, PartialEq, Eq, Structural)]
pub struct TickReport {
    /// Bytes removed from the buffer.
    pub drained: usize,
    /// Whether fewer bytes were queued than a tick drains.
    pub underflow: bool,
    /// What was decided about refilling.
    pub refill: Refill,
}

/// Bytes in one write block when a tick drains `read_size` bytes.
pub open spec fn write_block(read_size: nat) -> nat {
    WRITE_BLOCK_TICKS as nat * read_size
}

/// The bytes to ask the refill callback for when a tick drains `read_size`
/// bytes and `free` bytes of the buffer are unused: the whole write blocks
/// that fit, and nothing where not even one fits.
pub open spec fn refill_bytes(read_size: nat, free: int) -> Option<nat> {
    let block = write_block(read_size);
    if block > 0 && free >= block {
        Some(block * (free / block as int) as nat)
    } else {
        None
    }
}

/// The answer a tick gives about refilling, for the bytes it wants and the
/// state it finds the lock in.
pub open spec fn refill_answer(bytes: Option<nat>, lock: LoopState) -> Refill {
    match bytes {
        None => Refill::NotNeeded,
        Some(n) => if lock.starts(LoopEvent::Request) {
            Refill::Scheduled(n as usize)
        } else {
            Refill::Busy
        },
    }
}

impl StreamState {
    /// Bytes drained per tick.
    pub open spec fn read_size(self) -> nat {
        tick_bytes(self.sample_rate, self.frame_size)
    }

    /// Whether the queued bytes fit the capacity, as they do in every stream.
    pub open spec fn bounded(self) -> bool {
        self.queued.len() <= self.capacity
    }

    /// Bytes of the buffer that are unused.
    pub open spec fn free(self) -> int {
        self.capacity - self.queued.len()
    }

    /// Whether ticks are processed: the stream is neither paused nor torn down.
    pub open spec fn running(self) -> bool {
        !self.paused && !self.destroyed
    }

    /// The state after a request to play (`true`) or pause (`false`).
    pub open spec fn after_play(self, play: bool) -> StreamState {
        if self.destroyed || self.paused == !play {
            self
        } else {
            StreamState { pending: Some(!play), ..self }
        }
    }

    /// The state after the tick loop has looked for a pending request.
    pub open spec fn after_transition(self) -> StreamState {
        match self.pending {
            Some(paused) if !self.destroyed => StreamState { paused, pending: None, ..self },
            _ => self,
        }
    }

    /// The state after a write of `bytes`.
    pub open spec fn after_write(self, bytes: Seq<u8>) -> StreamState {
        if self.destroyed {
            self
        } else {
            StreamState { queued: written(self.queued, self.capacity, bytes), ..self }
        }
    }

    /// The state after a tick boundary.
    pub open spec fn after_tick(self) -> StreamState {
        if self.running() {
            StreamState { queued: remaining(self.queued, self.read_size()), ..self }
        } else {
            self
        }
    }

    /// The state after `n` tick boundaries in a row.
    pub open spec fn after_ticks(self, n: nat) -> StreamState
        decreases n,
    {
        if n == 0 {
            self
        } else {
            self.after_ticks((n - 1) as nat).after_tick()
        }
    }

    /// The bytes a tick wants refilled, if any.
    pub open spec fn tick_refill(self) -> Option<nat> {
        if self.running() {
            refill_bytes(self.read_size(), self.after_tick().free())
        } else {
            None
        }
    }

    /// The state a tick leaves the lock in, having found it in `lock`.
    pub open spec fn lock_after_tick(self, lock: LoopState) -> LoopState {
        if self.tick_refill() is Some {
            lock.after(LoopEvent::Request)
        } else {
            lock
        }
    }

    /// What a tick reports, or `None` where the tick is not processed.
    pub open spec fn tick_report(self, lock: LoopState) -> Option<TickReport> {
        if self.running() {
            Some(
                TickReport {
                    drained: if self.read_size() <= self.queued.len() {
                        self.read_size() as usize
                    } else {
                        self.queued.len() as usize
                    },
                    underflow: self.queued.len() < self.read_size(),
                    refill: refill_answer(self.tick_refill(), lock),
                },
            )
        } else {
            None
        }
    }

    /// The state after teardown.
    pub open spec fn after_destroy(self) -> StreamState {
        StreamState { destroyed: true, ..self }
    }
}

/// An audio sink: a buffer the tick loop drains, and the pause state that
/// decides whether it does.
pub struct FastStream {
    buffer: FastStreamBuffer,
    paused: ThreadFlag<bool>,
    destroyed: bool,
}

impl View for FastStream {
    type V = StreamState;

    closed spec fn view(&self) -> StreamState {
        StreamState {
            queued: self.buffer@,
            capacity: self.buffer.spec_capacity(),
            frame_size: self.buffer.spec_frame_size(),
            sample_rate: self.buffer.spec_sample_rate(),
            paused: self.paused.actual(),
            pending: self.paused.desired(),
            destroyed: self.destroyed,
        }
    }
}

impl FastStream {
    /// A paused stream with an empty buffer sized from `settings`.
    pub fn new(settings: &FastStreamSettings) -> (stream: Self)
        requires
            settings.valid(),
        ensures
            stream@ == (StreamState {
                queued: Seq::empty(),
                capacity: settings.capacity(),
                frame_size: settings.frame_size(),
                sample_rate: settings.sample_rate as nat,
                paused: true,
                pending: None,
                destroyed: false,
            }),
    {
        FastStream {
            buffer: FastStreamBuffer::new(settings),
            paused: ThreadFlag::new(true),
            destroyed: false,
        }
    }

    /// Whether the stream is paused. Changes nothing.
    pub fn is_paused(&self) -> (paused: bool)
        ensures
            paused == self@.paused,
    {
        self.paused.get()
    }

    /// Whether a request to play or pause is waiting for the tick loop.
    pub fn has_pending_transition(&self) -> (pending: bool)
        ensures
            pending == self@.pending.is_some(),
    {
        self.paused.is_pending()
    }

    /// Whether the stream has been torn down.
    pub fn is_destroyed(&self) -> (destroyed: bool)
        ensures
            destroyed == self@.destroyed,
    {
        self.destroyed
    }

    /// The stream's buffer, to look at.
    pub fn buffer(&self) -> (buf: &FastStreamBuffer)
        ensures
            buf@ == self@.queued,
            buf.spec_capacity() == self@.capacity,
            buf.spec_frame_size() == self@.frame_size,
            buf.spec_sample_rate() == self@.sample_rate,
    {
        &self.buffer
    }

    /// Asks the stream to play (`true`) or pause (`false`). A request for the
    /// state the stream is already in is dropped: nothing is published and
    /// there is no acknowledgement to wait for. Any other request is published
    /// for the tick loop to apply.
    pub fn play(&mut self, play: bool) -> (r: Result<Play, FastError>)
        ensures
            final(self)@ == old(self)@.after_play(play),
            match r {
                Ok(answer) => !old(self)@.destroyed && answer == if old(self)@.paused == !play {
                    Play::Debounced
                } else {
                    Play::Requested
                },
                Err(e) => old(self)@.destroyed && e == FastError::Cancelled,
            },
    {
        if self.destroyed {
            return Err(FastError::Cancelled);
        }
        let paused = self.paused.get();
        if (play && !paused) || (!play && paused) {
            return Ok(Play::Debounced);
        }
        self.paused.set(!play);
        Ok(Play::Requested)
    }

    /// Applies the pending request to play or pause, if there is one, and
    /// returns the pause state it brought about. The tick loop calls this
    /// whenever it is woken for a transition.
    pub fn apply_transition(&mut self) -> (applied: Option<bool>)
        ensures
            final(self)@ == old(self)@.after_transition(),
            applied == if old(self)@.destroyed {
                None
            } else {
                old(self)@.pending
            },
    {
        if self.destroyed {
            return None;
        }
        self.paused.get_new()
    }

    /// Appends all of `data` to the buffer, or nothing where it does not fit
    /// or the stream has been torn down.
    pub fn write(&mut self, data: &[u8]) -> (r: Result<usize, FastError>)
        ensures
            final(self)@ == old(self)@.after_write(data@),
            old(self)@.bounded(),
            final(self)@.bounded(),
            match r {
                Ok(n) => !old(self)@.destroyed && fits(old(self)@.queued, old(self)@.capacity, data@)
                    && n == data@.len(),
                Err(e) => if old(self)@.destroyed {
                    e == FastError::Cancelled
                } else {
                    !fits(old(self)@.queued, old(self)@.capacity, data@) && e == FastError::Overflow
                },
            },
    {
        proof {
            use_type_invariant(&self.buffer);
            self.buffer.lemma_well_formed_bounds();
        }
        if self.destroyed {
            return Err(FastError::Cancelled);
        }
        match self.buffer.write(data) {
            Ok(n) => Ok(n),
            Err(_) => Err(FastError::Overflow),
        }
    }

    /// One tick boundary. A running stream drains one tick's worth of bytes,
    /// or what is queued where that is less, and then decides whether to ask
    /// for a refill; a `Scheduled` refill has taken the lock, and the caller
    /// is to run the callback without waiting for it. A paused or torn-down
    /// stream does nothing and reports `None`.
    pub fn tick(&mut self, floop: &mut FastLoop) -> (report: Option<TickReport>)
        ensures
            final(self)@ == old(self)@.after_tick(),
            final(floop)@ == old(self)@.lock_after_tick(old(floop)@),
            report == old(self)@.tick_report(old(floop)@),
            old(self)@.bounded(),
            final(self)@.bounded(),
    {
        proof {
            use_type_invariant(&self.buffer);
            self.buffer.lemma_well_formed_bounds();
        }
        if self.destroyed || self.paused.get() {
            return None;
        }
        let read_size = self.buffer.read_size();
        let (drained, underflow) = match handle_reads(self, read_size) {
            Ok(count) => (count, false),
            Err(short) => (short.available, true),
        };
        let refill = handle_writes(self, floop, read_size);
        Some(TickReport { drained, underflow, refill })
    }

    /// Tears the stream down: the callback in flight is abandoned and the
    /// stream does nothing from now on. The bytes still queued are neither
    /// drained nor flushed. Tearing down twice changes nothing.
    pub fn destroy(&mut self, floop: &mut FastLoop)
        ensures
            final(self)@ == old(self)@.after_destroy(),
            final(floop)@ == if old(self)@.destroyed {
                old(floop)@
            } else {
                old(floop)@.after(LoopEvent::Cancel)
            },
    {
        if self.destroyed {
            return ;
        }
        floop.cancel();
        self.destroyed = true;
    }
}

/// The read of a tick: removes `read_size` bytes from the stream's buffer, or
/// all that is queued where that is less.
fn handle_reads(stream: &mut FastStream, read_size: usize) -> (r: Result<usize, Underflow>)
    ensures
        final(stream)@ == (StreamState {
            queued: remaining(old(stream)@.queued, read_size as nat),
            ..old(stream)@
        }),
        match r {
            Ok(count) => read_size <= old(stream)@.queued.len() && count == read_size,
            Err(e) => read_size > old(stream)@.queued.len() && e.available == old(
                stream,
            )@.queued.len(),
        },
{
    stream.buffer.read(read_size)
}

/// The refill decision of a tick: where at least one write block is free, asks
/// the lock for a callback that is to write the whole blocks that fit.
fn handle_writes(stream: &FastStream, floop: &mut FastLoop, read_size: usize) -> (refill: Refill)
    ensures
        refill == refill_answer(refill_bytes(read_size as nat, stream@.free()), old(floop)@),
        final(floop)@ == if refill_bytes(read_size as nat, stream@.free()) is Some {
            old(floop)@.after(LoopEvent::Request)
        } else {
            old(floop)@
        },
{
    let write_cap = stream.buffer.write_capacity();
    match refill_request(read_size, write_cap) {
        Some(n_bytes) => match floop.run_callback() {
            Invoke::Scheduled => Refill::Scheduled(n_bytes),
            Invoke::Busy => Refill::Busy,
        },
        None => Refill::NotNeeded,
    }
}

/// The bytes to ask the refill callback for, given what a tick drains and
/// what the buffer has free.
pub fn refill_request(read_size: usize, write_cap: usize) -> (request: Option<usize>)
    ensures
        match request {
            Some(n) => refill_bytes(read_size as nat, write_cap as int) == Some(n as nat),
            None => refill_bytes(read_size as nat, write_cap as int) is None,
        },
{
    // A block that does not fit in a `usize` fits in no buffer.
    let write_size = match read_size.checked_mul(WRITE_BLOCK_TICKS) {
        Some(size) => size,
        None => { return None; },
    };
    if write_size == 0 || write_cap < write_size {
        return None;
    }
    proof {
        lemma_refill_is_largest_multiple(read_size as nat, write_cap as int);
    }
    Some(write_size * (write_cap / write_size))
}

/// A refill is asked for exactly when at least one write block is free, and
/// it asks for the largest whole number of write blocks that fits in the free
/// space.
pub proof fn lemma_refill_is_largest_multiple(read_size: nat, free: int)
    ensures
        refill_bytes(read_size, free) is Some <==> 0 < write_block(read_size) <= free,
        refill_bytes(read_size, free) matches Some(n) ==> {
            let block = write_block(read_size);
            &&& n % block == 0
            &&& block <= n <= free
            &&& free - n < block
        },
{
    let block = write_block(read_size) as int;
    if block > 0 && free >= block {
        let blocks = free / block;
        assert(blocks >= 1 && block <= block * blocks <= free && free - block * blocks < block && (
        block * blocks) % block == 0) by (nonlinear_arith)
            requires
                block > 0,
                free >= block,
                blocks == free / block,
        ;
    }
}

/// A request for the state the stream is already in changes nothing: no
/// request is published, so there is nothing for the tick loop to apply or
/// acknowledge.
pub proof fn lemma_play_is_debounced(state: StreamState, play: bool)
    requires
        state.paused == !play,
    ensures
        state.after_play(play) == state,
{
}

/// While a stream is paused, tick boundaries pass without effect: nothing is
/// drained and no refill is asked for.
pub proof fn lemma_paused_stream_skips_ticks(state: StreamState, lock: LoopState)
    requires
        state.paused,
    ensures
        state.after_tick() == state,
        state.lock_after_tick(lock) == lock,
        state.tick_report(lock) is None,
{
}

/// Ticks drain the queue from the front, one tick's worth at a time: a
/// running stream that holds the bytes of `n` ticks has lost exactly the
/// first `n` times `read_size` bytes after `n` ticks, and each of those ticks
/// found at least `read_size` bytes queued.
pub proof fn lemma_ticks_drain_in_order(state: StreamState, n: nat)
    requires
        state.running(),
        n * state.read_size() <= state.queued.len(),
    ensures
        state.after_ticks(n) == (StreamState {
            queued: state.queued.skip((n * state.read_size()) as int),
            ..state
        }),
        forall|k: nat|
            k < n ==> state.read_size() <= (#[trigger] state.after_ticks(k)).queued.len(),
    decreases n,
{
    let size = state.read_size();
    if n == 0 {
        assert(n * size == 0) by (nonlinear_arith)
            requires
                n == 0,
        ;
    } else {
        let m = (n - 1) as nat;
        assert(m * size + size == n * size && m * size >= 0) by (nonlinear_arith)
            requires
                m + 1 == n,
        ;
        lemma_ticks_drain_in_order(state, m);
    }
}

/// On an empty buffer the clock keeps ticking: every tick of a running
/// stream is processed, drains nothing and leaves the stream as it was, and
/// reports an underflow wherever a tick is meant to drain anything.
pub proof fn lemma_ticks_on_an_empty_buffer(state: StreamState, n: nat, lock: LoopState)
    requires
        state.running(),
        state.queued.len() == 0,
    ensures
        state.after_ticks(n) == state,
        state.tick_report(lock) matches Some(report) && report.drained == 0 && report.underflow
            == (state.read_size() > 0),
    decreases n,
{
    if n > 0 {
        lemma_ticks_on_an_empty_buffer(state, (n - 1) as nat, lock);
    }
}

/// Pausing and resuming drain nothing by themselves: neither a request nor
/// its application touches the buffer, so a stream that resumes owes no ticks
/// for the time it was paused.
pub proof fn lemma_transitions_drain_nothing(state: StreamState, play: bool)
    ensures
        state.after_play(play).queued == state.queued,
        state.after_transition().queued == state.queued,
        state.after_play(play).after_transition().queued == state.queued,
{
}

/// Teardown is final: after it the stream is torn down whatever it was
/// before, and no later call changes the stream, its buffer or the lock.
pub proof fn lemma_destroyed_stream_is_inert(
    state: StreamState,
    play: bool,
    bytes: Seq<u8>,
    lock: LoopState,
)
    ensures
        state.after_destroy().destroyed,
        state.after_destroy().queued == state.queued,
        state.destroyed ==> {
            &&& state.after_play(play) == state
            &&& state.after_transition() == state
            &&& state.after_write(bytes) == state
            &&& state.after_tick() == state
            &&& state.lock_after_tick(lock) == lock
            &&& state.tick_report(lock) is None
            &&& state.after_destroy() == state
        },
{
}

} // verus!
