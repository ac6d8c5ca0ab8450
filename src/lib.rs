//! An asynchronous iteration protocol, and an adapter that turns one deferred
//! computation into a sequence of exactly one item.
//!
//! A call of `next` either hands the caller the computation whose result is the
//! next item, which the caller then drives to completion, or reports that the
//! sequence is exhausted, in which case there is nothing to wait on.
pub mod protocol;
pub mod single;

pub use protocol::Iterator;
pub use single::{once, Once};
