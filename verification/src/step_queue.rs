//! The step scheduler: an ordered queue of re-simulation requests, one
//! pending request per actor tag at most. Enqueuing a tag already present
//! is a no-op, so however many events target an actor between two drains,
//! it is stepped at most once per drain.

use vstd::prelude::*;

verus! {

/// A pending request that an actor's physics be re-evaluated.
#[derive(Clone, Copy, PartialEq, Eq, Structural, Debug)]
pub enum Step {
    Player,
    Coin,
    Object,
}

/// The queue `q` after a request for `s` is enqueued: unchanged when `s` is
/// already pending, otherwise `s` joins the back.
pub open spec fn enqueued(q: Seq<Step>, s: Step) -> Seq<Step> {
    if q.contains(s) {
        q
    } else {
        q.push(s)
    }
}

/// No tag occurs twice: the de-duplication invariant of the scheduler.
pub open spec fn distinct_steps(q: Seq<Step>) -> bool {
    forall|i: int, j: int| 0 <= i < j < q.len() ==> q[i] != q[j]
}

/// FIFO queue of step requests with de-duplication on enqueue.
#[derive(Debug, Clone, PartialEq, Eq)]
pub struct StepQueue {
    pub items: Vec<Step>,
}

impl View for StepQueue {
    type V = Seq<Step>;

    open spec fn view(&self) -> Seq<Step> {
        self.items@
    }
}

impl StepQueue {
    /// An empty scheduler.
    pub fn new() -> (q: StepQueue)
        ensures
            q@ == Seq::<Step>::empty(),
    {
        StepQueue { items: Vec::new() }
    }

    /// Whether a request for `s` is already pending.
    pub fn contains_step(&self, s: Step) -> (b: bool)
        ensures
            b == self@.contains(s),
    {
        let n: usize = self.items.len();
        let mut i: usize = 0;
        while i < n
            invariant
                i <= n,
                n == self.items@.len(),
                forall|k: int| 0 <= k < i ==> self.items@[k] != s,
            decreases n - i,
        {
            if self.items[i] == s {
                return true;
            }
            i = i + 1;
        }
        false
    }

    /// Enqueues a request for `s` unless one is already pending.
    pub fn peek_specific(&mut self, s: Step)
        ensures
            final(self)@ == enqueued(old(self)@, s),
    {
        if !self.contains_step(s) {
            self.items.push(s);
        }
    }

    /// Removes and returns the oldest pending request, or `None` when the
    /// queue is empty.
    pub fn pop(&mut self) -> (r: Option<Step>)
        ensures
            old(self)@.len() == 0 ==> r is None && final(self)@ == old(self)@,
            old(self)@.len() > 0 ==> r == Some(old(self)@[0]) && final(self)@ == old(
                self,
            )@.subrange(1, old(self)@.len() as int),
    {
        if self.items.len() == 0 {
            None
        } else {
            Some(self.items.remove(0))
        }
    }
}

/// Enqueuing the same tag twice is the same as enqueuing it once: the
/// second request is absorbed, so draining dispatches at most one step for
/// it.
pub proof fn lemma_enqueue_idempotent(q: Seq<Step>, s: Step)
    ensures
        enqueued(enqueued(q, s), s) == enqueued(q, s),
        enqueued(q, s).contains(s),
{
    if !q.contains(s) {
        assert(q.push(s)[q.len() as int] == s);
    }
}

/// Enqueuing keeps every tag unique in the queue.
pub proof fn lemma_enqueue_preserves_distinct(q: Seq<Step>, s: Step)
    requires
        distinct_steps(q),
    ensures
        distinct_steps(enqueued(q, s)),
{
    if !q.contains(s) {
        assert forall|i: int, j: int| 0 <= i < j < q.push(s).len() implies q.push(s)[i] != q.push(
            s,
        )[j] by {
            if j == q.len() {
                assert(!q.contains(s));
                assert(q[i] != s);
            }
        }
    }
}

/// Removing the front request keeps every remaining tag unique.
pub proof fn lemma_drop_front_preserves_distinct(q: Seq<Step>)
    requires
        distinct_steps(q),
        q.len() > 0,
    ensures
        distinct_steps(q.subrange(1, q.len() as int)),
{
    let rest = q.subrange(1, q.len() as int);
    assert forall|i: int, j: int| 0 <= i < j < rest.len() implies rest[i] != rest[j] by {
        assert(rest[i] == q[i + 1]);
        assert(rest[j] == q[j + 1]);
    }
}

} // verus!
