//! The benchmark run as a state machine.
//!
//! The run is a straight-line sequence: build the remote client, build the
//! local client, fetch the reference height from the remote endpoint, sweep
//! 99 historical blocks against the remote endpoint, the same against the
//! local one, then bind one contract handle and read it once against each
//! endpoint in turn. Any failure aborts the run.
//!
//! The machine decides; the caller acts. `next_action` says what to do in the
//! current state, the caller performs it (building a client, issuing a network
//! request, timing, printing) and hands the outcome back through `apply`.

use vstd::prelude::*;
use crate::client::{BenchError, Endpoint};
use crate::config::Env;
use crate::sweep::{Sweep, SWEEP_REQUESTS};

verus! {

/// Where the run stands.
#[derive(Debug, Clone, Copy, PartialEq, Eq)]
pub enum Phase {
    /// Building the remote client.
    BuildRemote,
    /// Building the local client.
    BuildLocal,
    /// Fetching the reference block height from the remote endpoint.
    FetchHeight,
    /// Sweeping historical blocks against the remote endpoint.
    SweepRemote,
    /// Sweeping historical blocks against the local endpoint.
    SweepLocal,
    /// Binding the contract handle on the remote endpoint.
    BindRemote,
    /// Issuing the single contract read against the remote endpoint.
    ReadRemote,
    /// Binding the contract handle on the local endpoint.
    BindLocal,
    /// Issuing the single contract read against the local endpoint.
    ReadLocal,
    /// The whole run succeeded.
    Done,
    /// The run was aborted by the recorded error.
    Failed(BenchError),
}

/// What the caller is to do next.
#[derive(Debug, Clone, Copy, PartialEq, Eq)]
pub enum Action {
    /// Build the client for this endpoint from its configured URL.
    BuildClient { endpoint: Endpoint },
    /// Ask the remote endpoint for the current block height.
    FetchHeight,
    /// Request the block at `height` from this endpoint.
    FetchBlock { endpoint: Endpoint, height: u64 },
    /// Bind the contract handle on this endpoint; a local construction.
    BindHandle { endpoint: Endpoint },
    /// Issue the single contract read against this endpoint.
    ReadContract { endpoint: Endpoint },
    /// Stop: the run is over, with its error if it failed.
    Finish { error: Option<BenchError> },
}

/// The outcome of the action last handed out, reported back by the caller.
#[derive(Debug, Clone, Copy, PartialEq, Eq)]
pub enum Event {
    /// Client construction succeeded or failed.
    Built { ok: bool },
    /// The reference height came back (`None`: the request failed). A height
    /// below the sweep length cannot seed the sweep and is left out by
    /// `apply`'s precondition; the caller must refuse it itself.
    Height { height: Option<u64> },
    /// One historical-block request succeeded or failed.
    Block { ok: bool },
    /// The contract handle was bound; a local construction, it cannot fail.
    HandleBound,
    /// The single contract read succeeded or failed.
    ReadDone { ok: bool },
}

/// How far the contract-read path got on one endpoint.
#[derive(Debug, Clone, Copy, PartialEq, Eq)]
pub struct ReadState {
    /// Contract handles bound so far.
    pub handles_built: u64,
    /// Contract reads issued so far.
    pub reads_issued: u64,
}

/// Nothing of the contract-read path has happened yet.
pub open spec fn reads_zero(r: ReadState) -> bool {
    r.handles_built == 0 && r.reads_issued == 0
}

/// The state of one benchmark run.
pub struct Program {
    /// The endpoint configuration the run was started with.
    pub env: Env,
    /// Where the run stands.
    pub phase: Phase,
    /// The reference block height, once fetched.
    pub height: u64,
    /// The sweep in progress during the sweep phases.
    pub sweep: Sweep,
    /// Contract-read progress on the remote endpoint.
    pub remote_read: ReadState,
    /// Contract-read progress on the local endpoint.
    pub local_read: ReadState,
    /// Network requests answered so far: the height fetch, each block fetch,
    /// each contract read. Client and handle construction are local and do
    /// not count.
    pub requests_issued: u64,
}

impl Program {
    /// The invariant every reachable state satisfies: per phase, how many
    /// requests have been answered and how far sweep and contract reads got.
    pub open spec fn wf(self) -> bool {
        match self.phase {
            Phase::BuildRemote | Phase::BuildLocal | Phase::FetchHeight => {
                &&& self.requests_issued == 0
                &&& reads_zero(self.remote_read)
                &&& reads_zero(self.local_read)
            },
            Phase::SweepRemote => {
                &&& self.sweep.wf()
                &&& self.sweep.start == self.height
                &&& self.sweep.can_issue()
                &&& self.requests_issued == 1 + self.sweep.issued
                &&& reads_zero(self.remote_read)
                &&& reads_zero(self.local_read)
            },
            Phase::SweepLocal => {
                &&& self.sweep.wf()
                &&& self.sweep.start == self.height
                &&& self.sweep.can_issue()
                &&& self.requests_issued == 1 + SWEEP_REQUESTS + self.sweep.issued
                &&& reads_zero(self.remote_read)
                &&& reads_zero(self.local_read)
            },
            Phase::BindRemote => {
                &&& self.requests_issued == 1 + 2 * SWEEP_REQUESTS
                &&& reads_zero(self.remote_read)
                &&& reads_zero(self.local_read)
            },
            Phase::ReadRemote => {
                &&& self.requests_issued == 1 + 2 * SWEEP_REQUESTS
                &&& self.remote_read.handles_built == 1
                &&& self.remote_read.reads_issued == 0
                &&& reads_zero(self.local_read)
            },
            Phase::BindLocal => {
                &&& self.requests_issued == 2 + 2 * SWEEP_REQUESTS
                &&& self.remote_read.handles_built == 1
                &&& self.remote_read.reads_issued == 1
                &&& reads_zero(self.local_read)
            },
            Phase::ReadLocal => {
                &&& self.requests_issued == 2 + 2 * SWEEP_REQUESTS
                &&& self.remote_read.handles_built == 1
                &&& self.remote_read.reads_issued == 1
                &&& self.local_read.handles_built == 1
                &&& self.local_read.reads_issued == 0
            },
            Phase::Done => {
                &&& self.requests_issued == 3 + 2 * SWEEP_REQUESTS
                &&& self.remote_read.handles_built == 1
                &&& self.remote_read.reads_issued == 1
                &&& self.local_read.handles_built == 1
                &&& self.local_read.reads_issued == 1
            },
            Phase::Failed(e) => match e {
                BenchError::Config(_) => {
                    &&& self.requests_issued == 0
                    &&& reads_zero(self.remote_read)
                    &&& reads_zero(self.local_read)
                },
                BenchError::Rpc(_) => {
                    &&& self.requests_issued <= 3 + 2 * SWEEP_REQUESTS
                    &&& self.remote_read.handles_built <= 1
                    &&& self.remote_read.reads_issued <= self.remote_read.handles_built
                    &&& self.local_read.handles_built <= 1
                    &&& self.local_read.reads_issued <= self.local_read.handles_built
                },
            },
        }
    }

    /// Begin a run with the given configuration: nothing built, nothing
    /// issued.
    pub fn new(env: Env) -> (p: Program)
        ensures
            p.wf(),
            p.phase == Phase::BuildRemote,
            p.env == env,
            p.requests_issued == 0,
    {
        Program {
            env,
            phase: Phase::BuildRemote,
            height: 0,
            sweep: Sweep { start: SWEEP_REQUESTS, issued: 0, failed: false },
            remote_read: ReadState { handles_built: 0, reads_issued: 0 },
            local_read: ReadState { handles_built: 0, reads_issued: 0 },
            requests_issued: 0,
        }
    }

    /// The configured URL of one endpoint.
    pub fn endpoint_url(&self, endpoint: Endpoint) -> (url: &String)
        ensures
            endpoint == Endpoint::Remote ==> url@ == self.env.alchemy_url@,
            endpoint == Endpoint::Local ==> url@ == self.env.local_node_url@,
    {
        match endpoint {
            Endpoint::Remote => &self.env.alchemy_url,
            Endpoint::Local => &self.env.local_node_url,
        }
    }

    /// What the caller is to do in the current state.
    pub fn next_action(&self) -> (a: Action)
        requires
            self.wf(),
        ensures
            a == action_spec(*self),
    {
        match self.phase {
            Phase::BuildRemote => Action::BuildClient { endpoint: Endpoint::Remote },
            Phase::BuildLocal => Action::BuildClient { endpoint: Endpoint::Local },
            Phase::FetchHeight => Action::FetchHeight,
            Phase::SweepRemote => Action::FetchBlock {
                endpoint: Endpoint::Remote,
                height: self.sweep.start - 1 - self.sweep.issued,
            },
            Phase::SweepLocal => Action::FetchBlock {
                endpoint: Endpoint::Local,
                height: self.sweep.start - 1 - self.sweep.issued,
            },
            Phase::BindRemote => Action::BindHandle { endpoint: Endpoint::Remote },
            Phase::ReadRemote => Action::ReadContract { endpoint: Endpoint::Remote },
            Phase::BindLocal => Action::BindHandle { endpoint: Endpoint::Local },
            Phase::ReadLocal => Action::ReadContract { endpoint: Endpoint::Local },
            Phase::Done => Action::Finish { error: None },
            Phase::Failed(e) => Action::Finish { error: Some(e) },
        }
    }

    /// Feed back the outcome of the action last handed out. The new state is
    /// exactly `step_spec` of the old one and the event.
    pub fn apply(&mut self, ev: Event)
        requires
            old(self).wf(),
            event_fits(*old(self), ev),
        ensures
            final(self).wf(),
            *final(self) == step_spec(*old(self), ev),
    {
        match (self.phase, ev) {
            (Phase::BuildRemote, Event::Built { ok }) => {
                if ok {
                    self.phase = Phase::BuildLocal;
                } else {
                    self.phase = Phase::Failed(BenchError::Config(Endpoint::Remote));
                }
            },
            (Phase::BuildLocal, Event::Built { ok }) => {
                if ok {
                    self.phase = Phase::FetchHeight;
                } else {
                    self.phase = Phase::Failed(BenchError::Config(Endpoint::Local));
                }
            },
            (Phase::FetchHeight, Event::Height { height }) => {
                self.requests_issued = self.requests_issued + 1;
                match height {
                    Some(h) => {
                        self.phase = Phase::SweepRemote;
                        self.height = h;
                        self.sweep = Sweep::new(h);
                    },
                    None => {
                        self.phase = Phase::Failed(BenchError::Rpc(Endpoint::Remote));
                    },
                }
            },
            (Phase::SweepRemote, Event::Block { ok }) => {
                self.sweep.record(ok);
                self.requests_issued = self.requests_issued + 1;
                if !ok {
                    self.phase = Phase::Failed(BenchError::Rpc(Endpoint::Remote));
                } else if self.sweep.issued == SWEEP_REQUESTS {
                    self.phase = Phase::SweepLocal;
                    self.sweep = Sweep::new(self.height);
                }
            },
            (Phase::SweepLocal, Event::Block { ok }) => {
                self.sweep.record(ok);
                self.requests_issued = self.requests_issued + 1;
                if !ok {
                    self.phase = Phase::Failed(BenchError::Rpc(Endpoint::Local));
                } else if self.sweep.issued == SWEEP_REQUESTS {
                    self.phase = Phase::BindRemote;
                }
            },
            (Phase::BindRemote, Event::HandleBound) => {
                self.remote_read.handles_built = 1;
                self.phase = Phase::ReadRemote;
            },
            (Phase::ReadRemote, Event::ReadDone { ok }) => {
                self.remote_read.reads_issued = 1;
                self.requests_issued = self.requests_issued + 1;
                if ok {
                    self.phase = Phase::BindLocal;
                } else {
                    self.phase = Phase::Failed(BenchError::Rpc(Endpoint::Remote));
                }
            },
            (Phase::BindLocal, Event::HandleBound) => {
                self.local_read.handles_built = 1;
                self.phase = Phase::ReadLocal;
            },
            (Phase::ReadLocal, Event::ReadDone { ok }) => {
                self.local_read.reads_issued = 1;
                self.requests_issued = self.requests_issued + 1;
                if ok {
                    self.phase = Phase::Done;
                } else {
                    self.phase = Phase::Failed(BenchError::Rpc(Endpoint::Local));
                }
            },
            _ => {},
        }
    }
}

/// Which events answer the action of the current phase. In the final phases
/// nothing does: the run is over.
pub open spec fn event_fits(p: Program, ev: Event) -> bool {
    match p.phase {
        Phase::BuildRemote | Phase::BuildLocal => ev is Built,
        Phase::FetchHeight => match ev {
            Event::Height { height } => match height {
                Some(h) => h >= SWEEP_REQUESTS,
                None => true,
            },
            _ => false,
        },
        Phase::SweepRemote | Phase::SweepLocal => ev is Block,
        Phase::BindRemote | Phase::BindLocal => ev is HandleBound,
        Phase::ReadRemote | Phase::ReadLocal => ev is ReadDone,
        Phase::Done => false,
        Phase::Failed(_) => false,
    }
}

/// The action of each phase.
pub open spec fn action_spec(p: Program) -> Action {
    match p.phase {
        Phase::BuildRemote => Action::BuildClient { endpoint: Endpoint::Remote },
        Phase::BuildLocal => Action::BuildClient { endpoint: Endpoint::Local },
        Phase::FetchHeight => Action::FetchHeight,
        Phase::SweepRemote => Action::FetchBlock {
            endpoint: Endpoint::Remote,
            height: (p.sweep.start - 1 - p.sweep.issued) as u64,
        },
        Phase::SweepLocal => Action::FetchBlock {
            endpoint: Endpoint::Local,
            height: (p.sweep.start - 1 - p.sweep.issued) as u64,
        },
        Phase::BindRemote => Action::BindHandle { endpoint: Endpoint::Remote },
        Phase::ReadRemote => Action::ReadContract { endpoint: Endpoint::Remote },
        Phase::BindLocal => Action::BindHandle { endpoint: Endpoint::Local },
        Phase::ReadLocal => Action::ReadContract { endpoint: Endpoint::Local },
        Phase::Done => Action::Finish { error: None },
        Phase::Failed(e) => Action::Finish { error: Some(e) },
    }
}

/// The state after one event: the exact transition relation of the run.
pub open spec fn step_spec(p: Program, ev: Event) -> Program {
    match (p.phase, ev) {
        (Phase::BuildRemote, Event::Built { ok }) => if ok {
            Program { phase: Phase::BuildLocal, ..p }
        } else {
            Program { phase: Phase::Failed(BenchError::Config(Endpoint::Remote)), ..p }
        },
        (Phase::BuildLocal, Event::Built { ok }) => if ok {
            Program { phase: Phase::FetchHeight, ..p }
        } else {
            Program { phase: Phase::Failed(BenchError::Config(Endpoint::Local)), ..p }
        },
        (Phase::FetchHeight, Event::Height { height }) => match height {
            Some(h) => Program {
                phase: Phase::SweepRemote,
                height: h,
                sweep: (Sweep { start: h, issued: 0, failed: false }),
                requests_issued: (p.requests_issued + 1) as u64,
                ..p
            },
            None => Program {
                phase: Phase::Failed(BenchError::Rpc(Endpoint::Remote)),
                requests_issued: (p.requests_issued + 1) as u64,
                ..p
            },
        },
        (Phase::SweepRemote, Event::Block { ok }) => {
            let stepped = Sweep {
                issued: (p.sweep.issued + 1) as u64,
                failed: !ok,
                ..p.sweep
            };
            let counted = (p.requests_issued + 1) as u64;
            if !ok {
                Program {
                    phase: Phase::Failed(BenchError::Rpc(Endpoint::Remote)),
                    sweep: stepped,
                    requests_issued: counted,
                    ..p
                }
            } else if stepped.issued == SWEEP_REQUESTS {
                Program {
                    phase: Phase::SweepLocal,
                    sweep: (Sweep { start: p.height, issued: 0, failed: false }),
                    requests_issued: counted,
                    ..p
                }
            } else {
                Program { sweep: stepped, requests_issued: counted, ..p }
            }
        },
        (Phase::SweepLocal, Event::Block { ok }) => {
            let stepped = Sweep {
                issued: (p.sweep.issued + 1) as u64,
                failed: !ok,
                ..p.sweep
            };
            let counted = (p.requests_issued + 1) as u64;
            if !ok {
                Program {
                    phase: Phase::Failed(BenchError::Rpc(Endpoint::Local)),
                    sweep: stepped,
                    requests_issued: counted,
                    ..p
                }
            } else if stepped.issued == SWEEP_REQUESTS {
                Program { phase: Phase::BindRemote, sweep: stepped, requests_issued: counted, ..p }
            } else {
                Program { sweep: stepped, requests_issued: counted, ..p }
            }
        },
        (Phase::BindRemote, Event::HandleBound) => Program {
            phase: Phase::ReadRemote,
            remote_read: (ReadState { handles_built: 1, reads_issued: 0 }),
            ..p
        },
        (Phase::ReadRemote, Event::ReadDone { ok }) => Program {
            phase: if ok {
                Phase::BindLocal
            } else {
                Phase::Failed(BenchError::Rpc(Endpoint::Remote))
            },
            remote_read: (ReadState { handles_built: 1, reads_issued: 1 }),
            requests_issued: (p.requests_issued + 1) as u64,
            ..p
        },
        (Phase::BindLocal, Event::HandleBound) => Program {
            phase: Phase::ReadLocal,
            local_read: (ReadState { handles_built: 1, reads_issued: 0 }),
            ..p
        },
        (Phase::ReadLocal, Event::ReadDone { ok }) => Program {
            phase: if ok {
                Phase::Done
            } else {
                Phase::Failed(BenchError::Rpc(Endpoint::Local))
            },
            local_read: (ReadState { handles_built: 1, reads_issued: 1 }),
            requests_issued: (p.requests_issued + 1) as u64,
            ..p
        },
        _ => p,
    }
}

/// Law: a failure is final and surfaced. In a failed state the only action is
/// to finish with that error, no event fits, and no event changes the state.
pub proof fn lemma_failure_surfaces(p: Program, e: BenchError, ev: Event)
    requires
        p.phase == Phase::Failed(e),
    ensures
        action_spec(p) == (Action::Finish { error: Some(e) }),
        !event_fits(p, ev),
        step_spec(p, ev) == p,
{
}

/// Law: client construction precedes every network request. While a client is
/// still being built, and in a state aborted by a configuration error, no
/// request has been issued.
pub proof fn lemma_construction_precedes_requests(p: Program)
    requires
        p.wf(),
        p.phase == Phase::BuildRemote || p.phase == Phase::BuildLocal || (p.phase matches Phase::Failed(BenchError::Config(_))),
    ensures
        p.requests_issued == 0,
{
}

/// Law: the contract-read path binds at most one handle and issues at most
/// one read per endpoint, never a read without its handle, and a completed
/// run has exactly one of each.
pub proof fn lemma_one_handle_one_read(p: Program)
    requires
        p.wf(),
    ensures
        p.remote_read.handles_built <= 1,
        p.remote_read.reads_issued <= p.remote_read.handles_built,
        p.local_read.handles_built <= 1,
        p.local_read.reads_issued <= p.local_read.handles_built,
        p.phase == Phase::Done ==> p.remote_read.handles_built == 1
            && p.remote_read.reads_issued == 1 && p.local_read.handles_built == 1
            && p.local_read.reads_issued == 1,
{
}

/// Law: a completed run has answered exactly one height fetch, two sweeps of
/// 99 block fetches each, and two contract reads.
pub proof fn lemma_done_request_count(p: Program)
    requires
        p.wf(),
        p.phase == Phase::Done,
    ensures
        p.requests_issued == 3 + 2 * SWEEP_REQUESTS,
{
}

/// Law: in a sweep phase the action requests exactly the next height of the
/// sweep plan, `start - 1 - issued`.
pub proof fn lemma_action_follows_plan(p: Program)
    requires
        p.wf(),
        p.phase == Phase::SweepRemote || p.phase == Phase::SweepLocal,
    ensures
        action_spec(p) matches Action::FetchBlock { endpoint: _, height }
            && height == crate::sweep::sweep_height(p.sweep.start, p.sweep.issued as int),
{
}

} // verus!
