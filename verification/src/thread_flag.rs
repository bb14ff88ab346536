//! A flag a controller sets and a consumer applies, one request at a time.
//!
//! The flag is the state behind a rendezvous: the controller publishes the
//! value it wants with `set` and waits; the consumer, on its own thread, takes
//! the request with `get_new`, at which point the flag shows the new value and
//! the controller may go on. Waking and waiting are left to whoever shares
//! the flag between the two threads; the consumer has to ask `get_new` each
//! time it is woken, or a pending `set` is never answered.

use vstd::prelude::*;

verus! {

/// A value with at most one pending request to change it.
pub struct ThreadFlag<T: PartialEq + Copy> {
    desired: Option<T>,
    actual: T,
}

impl<T: PartialEq + Copy> ThreadFlag<T> {
    /// The value every reader sees.
    pub closed spec fn actual(self) -> T {
        self.actual
    }

    /// The value the controller has asked for and the consumer has not yet
    /// applied.
    pub closed spec fn desired(self) -> Option<T> {
        self.desired
    }

    /// A flag that shows `initial_val` and has no request pending.
    pub fn new(initial_val: T) -> (flag: Self)
        ensures
            flag.actual() == initial_val,
            flag.desired() is None,
    {
        ThreadFlag { desired: None, actual: initial_val }
    }

    /// Publishes a request for `val`. The value readers see does not change
    /// until the consumer applies the request. A request that is still
    /// pending is replaced.
    pub fn set(&mut self, val: T)
        ensures
            final(self).desired() == Some(val),
            final(self).actual() == old(self).actual(),
    {
        self.desired = Some(val);
    }

    /// The value every reader sees. Changes nothing.
    pub fn get(&self) -> (val: T)
        ensures
            val == self.actual(),
    {
        self.actual
    }

    /// Whether a request is waiting for the consumer.
    pub fn is_pending(&self) -> (pending: bool)
        ensures
            pending == self.desired().is_some(),
    {
        self.desired.is_some()
    }

    /// Applies the pending request, if there is one: the flag then shows the
    /// requested value, nothing is pending, and the value is returned so that
    /// the controller can be woken. Without a request the flag is left as it
    /// was and `None` tells the consumer to keep waiting.
    pub fn get_new(&mut self) -> (applied: Option<T>)
        ensures
            applied == old(self).desired(),
            final(self).desired() is None,
            final(self).actual() == match old(self).desired() {
                Some(val) => val,
                None => old(self).actual(),
            },
    {
        match self.desired {
            Some(val) => {
                self.desired = None;
                self.actual = val;
                Some(val)
            },
            None => None,
        }
    }
}

} // verus!
