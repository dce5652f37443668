use node_bench::sweep::{sweep_plan, Sweep, SWEEP_REQUESTS};

#[test]
fn plan_from_height_1000_runs_999_down_to_901() {
    let plan = sweep_plan(1000);
    assert_eq!(plan.len(), 99);
    assert_eq!(plan[0], 999);
    assert_eq!(plan[98], 901);
    for (k, h) in plan.iter().enumerate() {
        assert_eq!(*h, 999 - k as u64);
    }
}

#[test]
fn plan_is_strictly_descending() {
    let plan = sweep_plan(12345);
    for w in plan.windows(2) {
        assert!(w[0] > w[1]);
    }
}

#[test]
fn plan_from_smallest_start_reaches_zero() {
    let plan = sweep_plan(SWEEP_REQUESTS);
    assert_eq!(plan.len(), 99);
    assert_eq!(plan[0], 98);
    assert_eq!(plan[98], 0);
}

#[test]
fn sweep_issues_exactly_99_requests_in_plan_order() {
    let mut sweep = Sweep::new(1000);
    let plan = sweep_plan(1000);
    let mut issued: Vec<u64> = Vec::new();
    while let Some(h) = sweep.next_request() {
        issued.push(h);
        sweep.record(true);
    }
    assert_eq!(issued, plan);
    assert_eq!(sweep.issued, 99);
    assert!(!sweep.failed);
}

#[test]
fn failed_response_stops_the_sweep() {
    let mut sweep = Sweep::new(1000);
    assert_eq!(sweep.next_request(), Some(999));
    sweep.record(true);
    assert_eq!(sweep.next_request(), Some(998));
    sweep.record(false);
    assert_eq!(sweep.next_request(), None);
    assert_eq!(sweep.issued, 2);
    assert!(sweep.failed);
}

#[test]
fn completed_sweep_hands_out_no_more_requests() {
    let mut sweep = Sweep::new(200);
    for _ in 0..99 {
        assert!(sweep.next_request().is_some());
        sweep.record(true);
    }
    assert_eq!(sweep.next_request(), None);
}
