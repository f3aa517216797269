use scale_value::Value;
use staking_miner::{
    bound_targets, build_snapshot, constants_from_decoded, decode_dry_run_response, dry_run_step, interpret_outcome,
    plan_solve, prepare_solve, read_metadata_constants, worker_result, AccountId, Algorithm,
    ConstantStore, DryRunAction, DryRunEvent, DryRunOutcome, DryRunState, ElectionScore, Error,
    ProtocolConstants, RawVoter, RoundSnapshot, Snapshot, Solver, Timed, TimedFuture,
};

fn acc(n: u8) -> AccountId {
    [n; 32]
}

fn voter(n: u8, stake: u64, targets: &[u8]) -> RawVoter {
    RawVoter { who: acc(n), stake, targets: targets.iter().map(|t| acc(*t)).collect() }
}

fn round_snapshot() -> RoundSnapshot {
    RoundSnapshot {
        voters: vec![voter(1, 10, &[100, 101]), voter(2, 20, &[101, 102])],
        targets: vec![acc(100), acc(101), acc(102)],
    }
}

fn score() -> ElectionScore {
    ElectionScore { minimal_stake: 10, sum_stake: 30, sum_stake_squared: 500 }
}

#[test]
fn bound_targets_keeps_order_and_content() {
    let raw = vec![acc(3), acc(1), acc(2)];
    assert_eq!(bound_targets(&raw, 16), Ok(raw.clone()));
}

#[test]
fn bound_targets_at_exact_capacity() {
    let raw = vec![acc(3), acc(1), acc(2)];
    assert_eq!(bound_targets(&raw, 3), Ok(raw.clone()));
}

#[test]
fn bound_targets_empty() {
    assert_eq!(bound_targets(&Vec::new(), 0), Ok(Vec::new()));
}

#[test]
fn bound_targets_never_truncates() {
    let raw = vec![acc(1), acc(2), acc(3), acc(4)];
    let r = bound_targets(&raw, 3);
    assert_eq!(r, Err(Error::BoundedCapacity { capacity: 3 }));
    assert!(r.unwrap_err().is_fatal());
}

#[test]
fn absent_snapshot_is_empty() {
    let s = build_snapshot(None, None, 16).unwrap();
    assert_eq!(s, Snapshot { voters: Vec::new(), targets: Vec::new(), desired_targets: 0 });
}

#[test]
fn snapshot_keeps_voters_and_targets() {
    let s = build_snapshot(Some(round_snapshot()), Some(2), 2).unwrap();
    assert_eq!(s.voters.len(), 2);
    assert_eq!(s.voters[0].who, acc(1));
    assert_eq!(s.voters[0].stake, 10);
    assert_eq!(s.voters[0].targets, vec![acc(100), acc(101)]);
    assert_eq!(s.voters[1].who, acc(2));
    assert_eq!(s.voters[1].stake, 20);
    assert_eq!(s.voters[1].targets, vec![acc(101), acc(102)]);
    assert_eq!(s.targets, vec![acc(100), acc(101), acc(102)]);
    assert_eq!(s.desired_targets, 2);
}

#[test]
fn snapshot_rejects_voter_over_capacity() {
    let mut round = round_snapshot();
    round.voters.push(voter(3, 5, &[100, 101, 102]));
    assert_eq!(build_snapshot(Some(round), Some(2), 2), Err(Error::BoundedCapacity { capacity: 2 }));
}

#[test]
fn timer_starts_on_first_resumption() {
    let mut t: Timed<u8> = 7u8.timed();
    assert_eq!(t.start, None);
    // queued from instant 0 to 1000 before the first resumption
    assert_eq!(t.on_poll::<u32>(1000, None, 1010), None);
    assert_eq!(t.start, Some(1000));
    assert_eq!(t.on_poll::<u32>(1200, None, 1210), None);
    assert_eq!(t.start, Some(1000));
    assert_eq!(t.on_poll(1240, Some(42u32), 1250), Some((42, 250)));
    assert_eq!(t.inner, 7);
}

#[test]
fn timer_ready_on_first_resumption_counts_that_poll() {
    let mut t = "op".timed();
    assert_eq!(t.on_poll(500, Some(1u8), 530), Some((1, 30)));
    assert_eq!(t.start, Some(500));
}

#[test]
fn timer_never_negative() {
    let mut t = Timed { inner: (), start: Some(900) };
    assert_eq!(t.on_poll(800, Some(()), 850), Some(((), 0)));
}

#[test]
fn outcome_both_ok_is_success() {
    assert_eq!(interpret_outcome(Ok(Ok(()))), Ok(()));
}

#[test]
fn outcome_inner_err_keeps_text() {
    let o: DryRunOutcome = Ok(Err("Module { index: 36, error: 9 }".to_string()));
    assert_eq!(interpret_outcome(o), Err(Error::Submission("Module { index: 36, error: 9 }".to_string())));
}

#[test]
fn outcome_outer_err_keeps_text() {
    let o: DryRunOutcome = Err("Invalid(Stale)".to_string());
    assert_eq!(interpret_outcome(o), Err(Error::Submission("Invalid(Stale)".to_string())));
}

#[test]
fn outcome_outer_err_over_inner_err() {
    let o: DryRunOutcome = Err("Invalid(Payment)".to_string());
    let r = interpret_outcome(o);
    assert_eq!(r, Err(Error::Submission("Invalid(Payment)".to_string())));
    assert!(!r.unwrap_err().is_fatal());
}

#[test]
fn constants_sync_is_idempotent() {
    let c = ProtocolConstants { max_weight: 1_000_000, max_length: 4096, max_votes_per_voter: 16 };
    let mut once = ConstantStore::new();
    once.sync(c);
    let mut twice = ConstantStore::new();
    twice.sync(c);
    twice.sync(c);
    assert_eq!(once, twice);
    assert_eq!(twice.max_votes_per_voter(), 16);
}

#[test]
fn constants_from_decoded_values() {
    assert_eq!(
        constants_from_decoded(Ok(5), Ok(6), Ok(7)),
        Ok(ProtocolConstants { max_weight: 5, max_length: 6, max_votes_per_voter: 7 })
    );
    assert_eq!(
        constants_from_decoded(Ok(5), Err("length".to_string()), Err("votes".to_string())),
        Err(Error::ConstantDecode("length".to_string()))
    );
    assert_eq!(
        constants_from_decoded(Err("weight".to_string()), Ok(6), Ok(7)),
        Err(Error::ConstantDecode("weight".to_string()))
    );
}

#[test]
fn read_constants_from_metadata_values() {
    let mut store = ConstantStore::new();
    let r = read_metadata_constants(&mut store, Value::u128(2_000_000_000_000), Value::u128(3_932_160), Value::u128(16));
    assert_eq!(r, Ok(()));
    assert_eq!(
        store.current,
        Some(ProtocolConstants { max_weight: 2_000_000_000_000, max_length: 3_932_160, max_votes_per_voter: 16 })
    );
    let again = read_metadata_constants(&mut store, Value::u128(2_000_000_000_000), Value::u128(3_932_160), Value::u128(16));
    assert_eq!(again, Ok(()));
    assert_eq!(store.current.unwrap().max_votes_per_voter, 16);
}

#[test]
fn read_constants_rejects_out_of_range() {
    let mut store = ConstantStore::new();
    let r = read_metadata_constants(&mut store, Value::u128(1), Value::u128(1u128 << 40), Value::u128(16));
    assert!(matches!(r, Err(Error::ConstantDecode(_))));
    assert_eq!(store.current, None);
}

#[test]
fn plan_follows_solver_choice() {
    let p = plan_solve(Solver::SeqPhragmen { iterations: 10 });
    assert_eq!(p.algorithm, Algorithm::SeqPhragmen);
    assert_eq!(p.balance_iterations, 10);
    let p = plan_solve(Solver::PhragMMS { iterations: 3 });
    assert_eq!(p.algorithm, Algorithm::PhragMMS);
    assert_eq!(p.balance_iterations, 3);
}

#[test]
fn worker_failures_are_solver_errors() {
    assert_eq!(worker_result::<u8>(Ok(Ok(4))), Ok(4));
    assert_eq!(worker_result::<u8>(Ok(Err("NoMoreCandidates".to_string()))), Err(Error::Solver("NoMoreCandidates".to_string())));
    assert_eq!(worker_result::<u8>(Err("task panicked".to_string())), Err(Error::Solver("task panicked".to_string())));
}

/// Voter index to target index, as a solver would hand back.
type Assignment = Vec<(u8, u8)>;

fn run_dry_run(outcome: DryRunOutcome) -> (Option<(staking_miner::RawSolution<Assignment>, u32)>, Result<(), Error>) {
    let (snapshot, plan) = prepare_solve(Some(round_snapshot()), Some(2), 16, Solver::SeqPhragmen { iterations: 10 }).unwrap();
    assert_eq!(snapshot.voters.len(), 2);
    assert_eq!(snapshot.targets.len(), 3);
    assert_eq!(plan.balance_iterations, 10);
    // each voter gets exactly one of its own listed targets
    let solution: Assignment = vec![(0, 0), (1, 2)];
    for (v, t) in &solution {
        assert!(snapshot.voters[*v as usize].targets.contains(&snapshot.targets[*t as usize]));
    }
    let state = DryRunState::Start;
    let (state, action) = dry_run_step(state, DryRunEvent::SignerReady(Ok(())));
    assert!(matches!(action, DryRunAction::MineSolution));
    let (state, action) = dry_run_step(state, DryRunEvent::Mined(Ok((solution, score()))));
    assert!(matches!(action, DryRunAction::FetchRound));
    let (state, action) = dry_run_step(state, DryRunEvent::Round(Ok(4)));
    assert!(matches!(action, DryRunAction::FetchNonce));
    let (state, action) = dry_run_step(state, DryRunEvent::Nonce(Ok(17)));
    let sent = match action {
        DryRunAction::SignAndDryRun { raw, nonce } => Some((raw, nonce)),
        _ => None,
    };
    assert!(state.accepts(&DryRunEvent::DryRun(Ok(Ok(Ok(()))))));
    let (state, action) = dry_run_step(state, DryRunEvent::DryRun(Ok(outcome)));
    assert!(matches!(state, DryRunState::Done));
    match action {
        DryRunAction::Finish(r) => (sent, r),
        _ => panic!("dry run did not finish"),
    }
}

#[test]
fn dry_run_succeeds_when_both_layers_succeed() {
    let (sent, r) = run_dry_run(Ok(Ok(())));
    let (raw, nonce) = sent.unwrap();
    assert_eq!(raw.round, 4);
    assert_eq!(raw.score, score());
    assert_eq!(raw.solution, vec![(0, 0), (1, 2)]);
    assert_eq!(nonce, 17);
    assert_eq!(r, Ok(()));
}

#[test]
fn dry_run_reports_execution_error() {
    let (sent, r) = run_dry_run(Ok(Err("Module(ModuleError { index: 36, error: [9, 0, 0, 0] })".to_string())));
    assert!(sent.is_some());
    assert_eq!(r, Err(Error::Submission("Module(ModuleError { index: 36, error: [9, 0, 0, 0] })".to_string())));
}

#[test]
fn oversized_voter_stops_before_solving() {
    let mut round = round_snapshot();
    round.voters[1] = voter(2, 20, &[100, 101, 102]);
    let r = prepare_solve(Some(round), Some(2), 2, Solver::SeqPhragmen { iterations: 10 });
    assert_eq!(r, Err(Error::BoundedCapacity { capacity: 2 }));
}

#[test]
fn dry_run_stops_on_first_failure() {
    let (state, action) = dry_run_step::<Assignment>(DryRunState::Start, DryRunEvent::SignerReady(Ok(())));
    assert!(matches!(action, DryRunAction::MineSolution));
    let (state, action) = dry_run_step(state, DryRunEvent::Mined(Err(Error::Solver("worker aborted".to_string()))));
    assert!(matches!(state, DryRunState::Done));
    assert!(matches!(action, DryRunAction::Finish(Err(Error::Solver(_)))));
    assert!(!state.accepts(&DryRunEvent::Round(Ok(1))));
}

#[test]
fn response_both_ok_decodes_to_success() {
    assert_eq!(decode_dry_run_response(&[0, 0]), Ok(Ok(Ok(()))));
    assert_eq!(interpret_outcome(decode_dry_run_response(&[0, 0]).unwrap()), Ok(()));
}

#[test]
fn response_execution_error_keeps_its_text() {
    let outcome = decode_dry_run_response(&[0, 1, 2]).unwrap();
    assert_eq!(outcome, Ok(Err("BadOrigin".to_string())));
    assert_eq!(interpret_outcome(outcome), Err(Error::Submission("BadOrigin".to_string())));
}

#[test]
fn response_validity_error_keeps_its_text() {
    let outcome = decode_dry_run_response(&[1, 0, 3]).unwrap();
    assert_eq!(outcome, Err("Invalid(Stale)".to_string()));
    assert_eq!(interpret_outcome(outcome), Err(Error::Submission("Invalid(Stale)".to_string())));
}

#[test]
fn response_that_does_not_decode_is_chain_access_error() {
    assert!(matches!(decode_dry_run_response(&[]), Err(Error::ChainAccess(_))));
    assert!(matches!(decode_dry_run_response(&[2, 0]), Err(Error::ChainAccess(_))));
    assert!(matches!(decode_dry_run_response(&[0]), Err(Error::ChainAccess(_))));
}
