//! In-memory substitutes for network streams and listeners.
//!
//! A connected pair of mock streams exchanges whole byte chunks through an
//! unbounded channel; the read side reassembles those chunks so that callers
//! may read with buffers of arbitrary size while byte order and byte counts
//! are preserved exactly.

pub mod chan;
pub mod error;
pub mod pipe;
pub mod sync;
