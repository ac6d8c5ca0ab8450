//! The iteration protocol.
use vstd::prelude::*;

verus! {

/// A producer of a sequence of items, each of which may take a suspension to
/// produce.
///
/// `next` needs exclusive access to the producer. It returns `Some(p)`, where
/// `p` is the computation that resolves to the next item, or `None` when the
/// sequence is exhausted; on `None` the caller completes at once. A
/// well-behaved producer keeps returning `None` once it has returned it, but
/// the protocol itself does not demand it.
pub trait Iterator {
    /// The type of the items yielded.
    type Item;

    /// The suspendable computation that resolves to one item.
    type Pending: core::future::Future<Output = Self::Item>;

    fn next(&mut self) -> (r: Option<Self::Pending>);
}

} // verus!
