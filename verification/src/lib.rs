//! Core of a remote pointer server: a phone's browser streams relative
//! cursor motion and button events over a message transport, and the host
//! turns them into real pointer actions.
//!
//! The verified part is the per-connection pipeline: the binary frame
//! decoder, the move-event coalescer that batches consecutive motion
//! deltas, and the session state machine that drives both and never drops
//! or reorders buffered motion.

pub mod actuator;
pub mod assets;
pub mod coalescer;
pub mod codec;
pub mod laws;
pub mod pairing;
pub mod session;
