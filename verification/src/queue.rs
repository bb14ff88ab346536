//! The contract under which the stream buffer uses `crossbeam_queue::ArrayQueue`.
//!
//! Nothing in this file is proved. Every function here is a thin call into the
//! queue, and its contract restates what the queue's source does when the caller
//! holds the only reference to it.

use vstd::prelude::*;

verus! {

/// `crossbeam_queue::ArrayQueue`, of which nothing is known but what the
/// functions below say.
#[verifier::external_type_specification]
#[verifier::external_body]
#[verifier::reject_recursive_types(T)]
pub struct ExArrayQueue<T>(crossbeam_queue::ArrayQueue<T>);

/// The bytes an `ArrayQueue` holds, oldest first.
pub uninterp spec fn queued(q: crossbeam_queue::ArrayQueue<u8>) -> Seq<u8>;

/// The number of slots an `ArrayQueue` was created with.
pub uninterp spec fn slots(q: crossbeam_queue::ArrayQueue<u8>) -> nat;

/// The largest slot count `ArrayQueue::new` accepts without panicking: a slot
/// takes at most 16 bytes and the allocation may not exceed `isize::MAX` bytes.
pub open spec fn max_slots() -> nat {
    (isize::MAX / 16) as nat
}

/// `ArrayQueue::new`: an empty queue with exactly `cap` slots. The call panics
/// for a zero capacity and for one whose slot array cannot be laid out, so both
/// are excluded. Running out of memory is not a matter of the argument and is
/// outside this contract.
#[verifier::external_body]
pub(crate) fn queue_new(cap: usize) -> (q: crossbeam_queue::ArrayQueue<u8>)
    requires
        0 < cap <= max_slots(),
    ensures
        queued(q) == Seq::<u8>::empty(),
        slots(q) == cap,
{
    crossbeam_queue::ArrayQueue::new(cap)
}

/// `ArrayQueue::capacity`: the slot count given at creation.
#[verifier::external_body]
pub(crate) fn queue_capacity(q: &crossbeam_queue::ArrayQueue<u8>) -> (cap: usize)
    ensures
        cap == slots(*q),
{
    q.capacity()
}

/// `ArrayQueue::len`: the number of bytes currently held.
#[verifier::external_body]
pub(crate) fn queue_len(q: &crossbeam_queue::ArrayQueue<u8>) -> (len: usize)
    ensures
        len == queued(*q).len(),
{
    q.len()
}

/// `ArrayQueue::push`: appends `value` at the back when a slot is free, and
/// otherwise hands `value` back and leaves the queue as it was. The call
/// allocates nothing and has no panicking path, hence `no_unwind`.
#[verifier::external_body]
pub(crate) fn queue_push(q: &mut crossbeam_queue::ArrayQueue<u8>, value: u8) -> (r: Result<(), u8>)
    ensures
        slots(*final(q)) == slots(*old(q)),
        match r {
            Ok(_) => queued(*old(q)).len() < slots(*old(q)) && queued(*final(q)) == queued(
                *old(q),
            ).push(value),
            Err(v) => queued(*old(q)).len() >= slots(*old(q)) && v == value && queued(*final(q))
                == queued(*old(q)),
        },
    no_unwind
{
    q.push(value)
}

/// `ArrayQueue::pop`: removes and returns the oldest byte, or returns `None`
/// and leaves the queue as it was when it holds nothing. The call allocates
/// nothing and has no panicking path, hence `no_unwind`.
#[verifier::external_body]
pub(crate) fn queue_pop(q: &mut crossbeam_queue::ArrayQueue<u8>) -> (r: Option<u8>)
    ensures
        slots(*final(q)) == slots(*old(q)),
        match r {
            Some(v) => queued(*old(q)).len() > 0 && v == queued(*old(q)).first() && queued(
                *final(q),
            ) == queued(*old(q)).drop_first(),
            None => queued(*old(q)).len() == 0 && queued(*final(q)) == queued(*old(q)),
        },
    no_unwind
{
    q.pop()
}

} // verus!
