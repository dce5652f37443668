//! The block-history sweep: 99 sequential historical-block requests, used as
//! the latency benchmark against one endpoint.
//!
//! Starting from a reference height `start`, the sweep addresses the previous
//! 99 blocks, `start - 1` down to `start - 99`, in strictly descending order,
//! one request at a time. A failed request aborts the sweep: no further
//! request is issued.

use vstd::prelude::*;

verus! {

/// Number of requests in one sweep.
pub const SWEEP_REQUESTS: u64 = 99;

/// The height addressed by request number `k` (counting from 0) of a sweep
/// that starts at height `start`.
pub open spec fn sweep_height(start: u64, k: int) -> int {
    start - 1 - k
}

/// State of one sweep: how many requests were issued so far and whether the
/// last one failed.
pub struct Sweep {
    /// The reference height the sweep counts down from.
    pub start: u64,
    /// Number of requests issued so far.
    pub issued: u64,
    /// Whether the most recent response was a failure.
    pub failed: bool,
}

impl Sweep {
    /// The sweep addresses the 99 blocks below `start`, so `start` must cover
    /// them; `issued` never exceeds the sweep length, and only a response to
    /// an issued request can have failed.
    pub open spec fn wf(self) -> bool {
        &&& self.start >= SWEEP_REQUESTS
        &&& self.issued <= SWEEP_REQUESTS
        &&& self.failed ==> self.issued >= 1
    }

    /// The heights addressed so far, in the order they were issued.
    pub open spec fn issued_heights(self) -> Seq<int> {
        Seq::new(self.issued as nat, |k: int| sweep_height(self.start, k))
    }

    /// A further request may be issued: none has failed and fewer than 99
    /// were issued.
    pub open spec fn can_issue(self) -> bool {
        !self.failed && self.issued < SWEEP_REQUESTS
    }

    /// All 99 requests were issued and answered successfully.
    pub open spec fn complete(self) -> bool {
        self.issued == SWEEP_REQUESTS && !self.failed
    }

    /// Begin a sweep from reference height `start`.
    pub fn new(start: u64) -> (s: Sweep)
        requires
            start >= SWEEP_REQUESTS,
        ensures
            s.wf(),
            s.start == start,
            s.issued == 0,
            !s.failed,
    {
        Sweep { start, issued: 0, failed: false }
    }

    /// The height of the next request to issue, or `None` when the sweep is
    /// over — either complete or aborted by a failure.
    pub fn next_request(&self) -> (r: Option<u64>)
        requires
            self.wf(),
        ensures
            self.can_issue() ==> r == Some((self.start - 1 - self.issued) as u64),
            !self.can_issue() ==> r is None,
    {
        if !self.failed && self.issued < SWEEP_REQUESTS {
            Some(self.start - 1 - self.issued)
        } else {
            None
        }
    }

    /// Record the response to the request last handed out by `next_request`:
    /// `ok` says whether it succeeded. A failure makes the sweep refuse any
    /// further request.
    pub fn record(&mut self, ok: bool)
        requires
            old(self).wf(),
            old(self).can_issue(),
        ensures
            final(self).wf(),
            final(self).start == old(self).start,
            final(self).issued == old(self).issued + 1,
            final(self).failed == !ok,
            final(self).issued_heights() == old(self).issued_heights().push(
                sweep_height(old(self).start, old(self).issued as int),
            ),
    {
        proof {
            let pre = *self;
            assert(Seq::new((pre.issued + 1) as nat, |k: int| sweep_height(pre.start, k))
                =~= pre.issued_heights().push(sweep_height(pre.start, pre.issued as int)));
        }
        self.issued = self.issued + 1;
        self.failed = !ok;
    }
}

/// The full request plan of a sweep from `start`: the 99 heights `start - 1`
/// down to `start - 99`, in the order they are issued.
pub fn sweep_plan(start: u64) -> (plan: Vec<u64>)
    requires
        start >= SWEEP_REQUESTS,
    ensures
        plan@.len() == SWEEP_REQUESTS,
        forall|k: int| 0 <= k < plan@.len() ==> plan@[k] == sweep_height(start, k),
{
    let mut plan: Vec<u64> = Vec::new();
    let mut i: u64 = 0;
    while i < SWEEP_REQUESTS
        invariant
            start >= SWEEP_REQUESTS,
            i <= SWEEP_REQUESTS,
            plan@.len() == i,
            forall|k: int| 0 <= k < i ==> plan@[k] == sweep_height(start, k),
        decreases SWEEP_REQUESTS - i,
    {
        plan.push(start - 1 - i);
        i = i + 1;
    }
    plan
}

/// Law: a sweep from `start` addresses exactly 99 heights, `start - 1` through
/// `start - 99` inclusive, in strictly descending order.
pub proof fn lemma_sweep_plan_descending(start: u64, plan: Seq<u64>)
    requires
        start >= SWEEP_REQUESTS,
        plan.len() == SWEEP_REQUESTS,
        forall|k: int| 0 <= k < plan.len() ==> plan[k] == sweep_height(start, k),
    ensures
        plan[0] == start - 1,
        plan[SWEEP_REQUESTS - 1] == start - SWEEP_REQUESTS,
        forall|k1: int, k2: int| 0 <= k1 < k2 < plan.len() ==> plan[k1] > plan[k2],
{
}

/// Law: once a response has failed, the sweep can issue no further request,
/// and it never counts as complete.
pub proof fn lemma_failure_halts_sweep(s: Sweep)
    requires
        s.wf(),
        s.failed,
    ensures
        !s.can_issue(),
        !s.complete(),
{
}

} // verus!
