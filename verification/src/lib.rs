//! A deterministic harness for unit-testing event-driven, non-blocking I/O
//! state machines without a real event loop, sockets, or timers.
//!
//! [`stream::MemIo`] is an in-memory duplex byte stream that reproduces the
//! non-blocking read/write contract (readiness, would-block, half-close).
//! [`scope::MockLoop`] mints [`scope::Scope`] views that capture every
//! scheduling side-effect a state-machine transition issues into an ordered
//! operation log, instead of touching a real reactor.

pub mod scope;
pub mod stream;

pub use scope::{MockLoop, Operation};
pub use stream::MemIo;
