//! The single-value adapter: one deferred computation, yielded once.
use vstd::prelude::*;

use crate::protocol::Iterator;

verus! {

/// A producer that yields the result of one deferred computation, then
/// reports exhaustion forever after.
///
/// The holder is either populated (the computation has not been handed out)
/// or empty. It goes from populated to empty on the first call of `next`, and
/// never back.
pub struct Once<F> {
    f: Option<F>,
}

impl<F> View for Once<F> {
    /// What the holder holds: the computation not yet handed out, if any.
    type V = Option<F>;

    closed spec fn view(&self) -> Option<F> {
        self.f
    }
}

/// What one call of `next` does to a holder: it hands out what the holder
/// held (`r`), and leaves it empty.
pub open spec fn next_step<F>(before: Option<F>, after: Option<F>, r: Option<F>) -> bool {
    &&& r == before
    &&& after is None
}

/// `states[i]` is the holder before the `i`-th of `results.len()` successive
/// calls of `next`, `results[i]` what that call returned, and the last state
/// is the holder after them all.
pub open spec fn is_trace<F>(states: Seq<Option<F>>, results: Seq<Option<F>>) -> bool {
    &&& states.len() == results.len() + 1
    &&& forall|i: int|
        #![trigger results[i]]
        0 <= i < results.len() ==> next_step(states[i], states[i + 1], results[i])
}

/// Wraps `f` into a producer that yields its result once. The computation is
/// not started.
pub fn once<F: core::future::Future>(f: F) -> (r: Once<F>)
    ensures
        r@ == Some(f),
{
    Once { f: Some(f) }
}

impl<F: core::future::Future> Iterator for Once<F> {
    type Item = F::Output;

    type Pending = F;

    /// Takes the computation out of the holder. On a populated holder it
    /// returns `Some(f)`, whose result is the one item; on an empty one it
    /// returns `None`, with nothing to wait on.
    fn next(&mut self) -> (r: Option<F>)
        ensures
            next_step(old(self)@, final(self)@, r),
    {
        self.f.take()
    }
}

/// The first call of `next` on a producer made by `once(f)` returns `Some(f)`,
/// so the item yielded is the result of `f`.
pub proof fn lemma_single_yield<F>(f: F, states: Seq<Option<F>>, results: Seq<Option<F>>)
    requires
        is_trace(states, results),
        states[0] == Some(f),
        results.len() >= 1,
    ensures
        results[0] == Some(f),
{
    assert(next_step(states[0], states[1], results[0]));
}

/// Once a first call of `next` has returned, every later call returns `None`,
/// whatever the first one returned.
pub proof fn lemma_fused<F>(states: Seq<Option<F>>, results: Seq<Option<F>>)
    requires
        is_trace(states, results),
    ensures
        forall|i: int| 1 <= i < results.len() ==> #[trigger] results[i] is None,
        forall|i: int| 1 <= i < states.len() ==> #[trigger] states[i] is None,
{
    assert forall|i: int| 1 <= i < states.len() implies #[trigger] states[i] is None by {
        assert(next_step(states[i - 1], states[i], results[i - 1]));
    }
    assert forall|i: int| 1 <= i < results.len() implies #[trigger] results[i] is None by {
        assert(next_step(states[i], states[i + 1], results[i]));
    }
}

/// A call of `next` on an empty holder returns `None`, handing out nothing to
/// wait on, and leaves the holder empty.
pub proof fn lemma_empty_completes<F>(states: Seq<Option<F>>, results: Seq<Option<F>>, i: int)
    requires
        is_trace(states, results),
        0 <= i < results.len(),
        states[i] is None,
    ensures
        results[i] is None,
        states[i + 1] is None,
{
    assert(next_step(states[i], states[i + 1], results[i]));
}

/// Over any number of calls of `next`, the computation is handed out, and so
/// driven, at most once; and if the holder was populated, the first call hands
/// it out.
pub proof fn lemma_single_consumption<F>(states: Seq<Option<F>>, results: Seq<Option<F>>)
    requires
        is_trace(states, results),
    ensures
        forall|i: int, j: int|
            0 <= i < results.len() && 0 <= j < results.len() && #[trigger] results[i] is Some
                && #[trigger] results[j] is Some ==> i == j,
        states[0] is Some && results.len() >= 1 ==> results[0] == states[0],
{
    lemma_fused(states, results);
    if results.len() >= 1 {
        assert(next_step(states[0], states[1], results[0]));
    }
}

} // verus!
