//! Mining and dry-run orchestration for a multi-phase election: bounded
//! snapshot normalization, protocol constants, solver dispatch, timing and
//! dry-run outcome interpretation.

pub mod bounded;
pub mod constants;
pub mod dry_run;
pub mod error;
pub mod snapshot;
pub mod solver;
pub mod timing;

pub use bounded::{bound_targets, AccountId};
pub use constants::{
    constants_from_decoded, read_metadata_constants, ConstantStore, ProtocolConstants,
};
pub use dry_run::{
    decode_dry_run_response, dry_run_step, interpret_outcome, DryRunAction, DryRunEvent,
    DryRunOutcome, DryRunState, ElectionScore, RawSolution,
};
pub use error::Error;
pub use snapshot::{build_snapshot, RawVoter, RoundSnapshot, Snapshot, Voter};
pub use solver::{plan_solve, prepare_solve, worker_result, Algorithm, SolvePlan, Solver};
pub use timing::{Timed, TimedFuture};
