//! A real-time audio sink core: a bounded byte queue drained on a fixed clock,
//! a pause/resume flag with acknowledgement, and a lock that lets at most one
//! refill callback run at a time.
//!
//! The library decides and never waits. Its types hold the state that the
//! threads of a sink share, and each of its functions is one step on that
//! state, with a contract that says what the step does. Clocks, worker
//! threads and the waiting between them belong to the program that uses the
//! library:
//!
//! - [`stream::buffer::FastStreamBuffer`] is the queue of audio bytes;
//! - [`thread_flag::ThreadFlag`] is a value with one pending request to
//!   change it;
//! - [`floop::FastLoop`] is the lock that refill callbacks run under;
//! - [`stream::FastStream`] is the sink itself: the decisions of its tick
//!   loop and of the calls that control it.

pub mod error;
pub mod floop;
pub mod queue;
pub mod settings;
pub mod stream;
pub mod thread_flag;
