use node_bench::client::{BenchError, Endpoint};
use node_bench::config::Env;
use node_bench::program::{Action, Event, Phase, Program};

fn env(remote: &str, local: &str) -> Env {
    Env::new(Some(remote.to_string()), Some(local.to_string()))
}

/// Drive one full successful run and collect every request action.
#[test]
fn successful_run_issues_the_whole_request_sequence() {
    let mut p = Program::new(env("https://remote", "http://localhost:8545"));

    assert_eq!(p.next_action(), Action::BuildClient { endpoint: Endpoint::Remote });
    p.apply(Event::Built { ok: true });
    assert_eq!(p.next_action(), Action::BuildClient { endpoint: Endpoint::Local });
    p.apply(Event::Built { ok: true });

    assert_eq!(p.next_action(), Action::FetchHeight);
    p.apply(Event::Height { height: Some(1000) });

    // Remote sweep: heights 999 down to 901, in that order.
    for expected in (901..=999).rev() {
        assert_eq!(
            p.next_action(),
            Action::FetchBlock { endpoint: Endpoint::Remote, height: expected }
        );
        p.apply(Event::Block { ok: true });
    }

    // Local sweep: the same 99 heights again.
    for expected in (901..=999).rev() {
        assert_eq!(
            p.next_action(),
            Action::FetchBlock { endpoint: Endpoint::Local, height: expected }
        );
        p.apply(Event::Block { ok: true });
    }

    // Contract read, remote then local: one handle and one read each.
    assert_eq!(p.next_action(), Action::BindHandle { endpoint: Endpoint::Remote });
    p.apply(Event::HandleBound);
    assert_eq!(p.next_action(), Action::ReadContract { endpoint: Endpoint::Remote });
    p.apply(Event::ReadDone { ok: true });
    assert_eq!(p.next_action(), Action::BindHandle { endpoint: Endpoint::Local });
    p.apply(Event::HandleBound);
    assert_eq!(p.next_action(), Action::ReadContract { endpoint: Endpoint::Local });
    p.apply(Event::ReadDone { ok: true });

    assert_eq!(p.next_action(), Action::Finish { error: None });
    assert_eq!(p.phase, Phase::Done);
    assert_eq!(p.requests_issued, 201);
    assert_eq!(p.remote_read.handles_built, 1);
    assert_eq!(p.remote_read.reads_issued, 1);
    assert_eq!(p.local_read.handles_built, 1);
    assert_eq!(p.local_read.reads_issued, 1);
}

/// Remote client builds, the local one fails: the run aborts with a local
/// configuration error before any request, so no local timing can follow.
#[test]
fn local_construction_failure_aborts_before_any_request() {
    let mut p = Program::new(env("https://valid-endpoint", ""));

    assert_eq!(p.next_action(), Action::BuildClient { endpoint: Endpoint::Remote });
    assert_eq!(p.endpoint_url(Endpoint::Remote).as_str(), "https://valid-endpoint");
    p.apply(Event::Built { ok: true });

    assert_eq!(p.next_action(), Action::BuildClient { endpoint: Endpoint::Local });
    assert_eq!(p.endpoint_url(Endpoint::Local).as_str(), "");
    p.apply(Event::Built { ok: false });

    assert_eq!(p.phase, Phase::Failed(BenchError::Config(Endpoint::Local)));
    assert_eq!(
        p.next_action(),
        Action::Finish { error: Some(BenchError::Config(Endpoint::Local)) }
    );
    assert_eq!(p.requests_issued, 0);
}

#[test]
fn remote_construction_failure_aborts_before_any_request() {
    let mut p = Program::new(env("", "http://localhost:8545"));
    p.apply(Event::Built { ok: false });
    assert_eq!(p.phase, Phase::Failed(BenchError::Config(Endpoint::Remote)));
    assert_eq!(p.requests_issued, 0);
}

#[test]
fn failed_height_fetch_aborts_the_run() {
    let mut p = Program::new(env("https://remote", "http://local"));
    p.apply(Event::Built { ok: true });
    p.apply(Event::Built { ok: true });
    p.apply(Event::Height { height: None });
    assert_eq!(p.phase, Phase::Failed(BenchError::Rpc(Endpoint::Remote)));
    assert_eq!(p.next_action(), Action::Finish { error: Some(BenchError::Rpc(Endpoint::Remote)) });
}

/// A failed block request aborts the sweep in progress: no further block is
/// requested and the error names the endpoint that failed.
#[test]
fn failed_block_request_aborts_the_sweep() {
    let mut p = Program::new(env("https://remote", "http://local"));
    p.apply(Event::Built { ok: true });
    p.apply(Event::Built { ok: true });
    p.apply(Event::Height { height: Some(5000) });

    assert_eq!(p.next_action(), Action::FetchBlock { endpoint: Endpoint::Remote, height: 4999 });
    p.apply(Event::Block { ok: true });
    assert_eq!(p.next_action(), Action::FetchBlock { endpoint: Endpoint::Remote, height: 4998 });
    p.apply(Event::Block { ok: false });

    assert_eq!(p.phase, Phase::Failed(BenchError::Rpc(Endpoint::Remote)));
    assert_eq!(p.next_action(), Action::Finish { error: Some(BenchError::Rpc(Endpoint::Remote)) });
    // One height fetch and two block fetches were answered, nothing more.
    assert_eq!(p.requests_issued, 3);
}

#[test]
fn failed_contract_read_aborts_the_run() {
    let mut p = Program::new(env("https://remote", "http://local"));
    p.apply(Event::Built { ok: true });
    p.apply(Event::Built { ok: true });
    p.apply(Event::Height { height: Some(1000) });
    for _ in 0..198 {
        p.apply(Event::Block { ok: true });
    }
    assert_eq!(p.next_action(), Action::BindHandle { endpoint: Endpoint::Remote });
    p.apply(Event::HandleBound);
    p.apply(Event::ReadDone { ok: false });
    assert_eq!(p.phase, Phase::Failed(BenchError::Rpc(Endpoint::Remote)));
    assert_eq!(p.remote_read.handles_built, 1);
    assert_eq!(p.remote_read.reads_issued, 1);
    assert_eq!(p.local_read.handles_built, 0);
}
