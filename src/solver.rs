use crate::error::Error;
use crate::snapshot::{
    all_fit, bounded_views, build_snapshot, raw_views, targets_of, voters_of, RoundSnapshot, Snapshot,
};
use vstd::prelude::*;

verus! {

/// The solver chosen on the command line, with its balancing budget.
#[derive(Debug, Clone, Copy, PartialEq, Eq)]
pub enum Solver {
    SeqPhragmen { iterations: u32 },
    PhragMMS { iterations: u32 },
}

/// The algorithm family that a solve runs.
#[derive(Debug, Clone, Copy, PartialEq, Eq)]
pub enum Algorithm {
    SeqPhragmen,
    PhragMMS,
}

/// What the worker is to run: an algorithm and the number of balancing
/// iterations to set before it starts.
#[derive(Debug, Clone, Copy, PartialEq, Eq)]
pub struct SolvePlan {
    pub algorithm: Algorithm,
    pub balance_iterations: u32,
}

impl Solver {
    pub open spec fn algorithm(self) -> Algorithm {
        match self {
            Solver::SeqPhragmen { .. } => Algorithm::SeqPhragmen,
            Solver::PhragMMS { .. } => Algorithm::PhragMMS,
        }
    }

    pub open spec fn iterations(self) -> u32 {
        match self {
            Solver::SeqPhragmen { iterations } => iterations,
            Solver::PhragMMS { iterations } => iterations,
        }
    }
}

/// The plan for a solver choice: its algorithm family, and its iteration
/// count as the balancing budget.
pub fn plan_solve(solver: Solver) -> (r: SolvePlan)
    ensures
        r.algorithm == solver.algorithm(),
        r.balance_iterations == solver.iterations(),
{
    match solver {
        Solver::SeqPhragmen { iterations } => SolvePlan {
            algorithm: Algorithm::SeqPhragmen,
            balance_iterations: iterations,
        },
        Solver::PhragMMS { iterations } => SolvePlan {
            algorithm: Algorithm::PhragMMS,
            balance_iterations: iterations,
        },
    }
}

/// Maps what came back from the solver worker: a solution passes through;
/// a solver error or a failure of the worker itself (panic, abort) becomes
/// `Error::Solver` with its diagnostic.
pub fn worker_result<T>(joined: Result<Result<T, String>, String>) -> (r: Result<T, Error>)
    ensures
        r is Ok <==> (joined is Ok && joined->Ok_0 is Ok),
        r is Ok ==> r->Ok_0 == joined->Ok_0->Ok_0,
        joined is Ok && joined->Ok_0 is Err ==> r == Err::<T, Error>(
            Error::Solver(joined->Ok_0->Err_0),
        ),
        joined is Err ==> r == Err::<T, Error>(Error::Solver(joined->Err_0)),
{
    match joined {
        Ok(Ok(res)) => Ok(res),
        Ok(Err(e)) => Err(Error::Solver(e)),
        Err(e) => Err(Error::Solver(e)),
    }
}

/// Everything up to the solver's start: the bounded snapshot and the plan
/// that the worker runs on it.
///
/// Where a voter's edge list does not fit under `max_votes` the result is
/// the fatal `Error::BoundedCapacity`, and no plan is made: the solver is
/// never started.
pub fn prepare_solve(
    round: Option<RoundSnapshot>,
    desired_targets: Option<u32>,
    max_votes: u32,
    solver: Solver,
) -> (r: Result<(Snapshot, SolvePlan), Error>)
    ensures
        all_fit(voters_of(round), max_votes) <==> r is Ok,
        r is Ok ==> r->Ok_0.1.algorithm == solver.algorithm() && r->Ok_0.1.balance_iterations
            == solver.iterations() && r->Ok_0.0.bounded_by(max_votes),
        r is Ok ==> bounded_views(r->Ok_0.0.voters@) == raw_views(voters_of(round))
            && r->Ok_0.0.targets@ == targets_of(round) && r->Ok_0.0.desired_targets == match desired_targets {
                Some(d) => d,
                None => 0u32,
            },
        r is Err ==> r == Err::<(Snapshot, SolvePlan), Error>(
            Error::BoundedCapacity { capacity: max_votes },
        ),
{
    let snapshot = match build_snapshot(round, desired_targets, max_votes) {
        Ok(s) => s,
        Err(e) => return Err(e),
    };
    Ok((snapshot, plan_solve(solver)))
}

} // verus!
