use crate::error::Error;
use vstd::prelude::*;

verus! {

/// The score that ranks a mined solution.
#[derive(Debug, Clone, Copy, PartialEq, Eq)]
pub struct ElectionScore {
    pub minimal_stake: u128,
    pub sum_stake: u128,
    pub sum_stake_squared: u128,
}

/// The unit submitted to the chain: a solution, its score and the round
/// it was mined for.
#[derive(Debug, Clone, PartialEq, Eq)]
pub struct RawSolution<S> {
    pub solution: S,
    pub score: ElectionScore,
    pub round: u32,
}

/// What a dry run reports: the dispatch-layer result wrapping the
/// execution-layer result, each error carried as its diagnostic text.
pub type DryRunOutcome = Result<Result<(), String>, String>;

/// Maps a dry-run outcome to the pipeline's result: success only when both
/// layers succeeded, otherwise a submission failure that keeps the
/// diagnostic text of the layer that failed.
pub fn interpret_outcome(outcome: DryRunOutcome) -> (r: Result<(), Error>)
    ensures
        r == interpret_outcome_spec(outcome),
        r is Ok <==> (outcome is Ok && outcome->Ok_0 is Ok),
        outcome is Ok && outcome->Ok_0 is Err ==> r == Err::<(), Error>(
            Error::Submission(outcome->Ok_0->Err_0),
        ),
        outcome is Err ==> r == Err::<(), Error>(Error::Submission(outcome->Err_0)),
{
    match outcome {
        Ok(Ok(())) => Ok(()),
        Ok(Err(e)) => Err(Error::Submission(e)),
        Err(e) => Err(Error::Submission(e)),
    }
}

/// What decoding `bytes` as an `sp_runtime::ApplyExtrinsicResult` gives:
/// the nested outcome with each layer's error as its debug text, or the
/// decode error's debug text.
pub uninterp spec fn apply_result_of(bytes: Seq<u8>) -> Result<
    Result<Result<(), String>, String>,
    String,
>;

/// Relies on parity-scale-codec's `Decode` for
/// `sp_runtime::ApplyExtrinsicResult`, a `Result` nested in a `Result`: each
/// `Result` is one variant byte (0 for `Ok`, 1 for `Err`, any other byte
/// refused) followed by its payload, and `()` takes no bytes. Errors of
/// either layer, and of the decode itself, are kept as their debug text.
#[verifier::external_body]
fn decode_apply_result(bytes: &[u8]) -> (r: Result<DryRunOutcome, String>)
    ensures
        r == apply_result_of(bytes@),
        (r is Ok && r->Ok_0 is Ok && r->Ok_0->Ok_0 is Ok) <==> (bytes@.len() >= 2 && bytes@[0] == 0
            && bytes@[1] == 0),
        r is Ok ==> bytes@.len() >= 1 && bytes@[0] <= 1,
        r is Ok && r->Ok_0 is Ok ==> bytes@.len() >= 2 && bytes@[0] == 0 && bytes@[1] <= 1,
        r is Ok && r->Ok_0 is Err ==> bytes@[0] == 1,
{
    match <sp_runtime::ApplyExtrinsicResult as parity_scale_codec::Decode>::decode(&mut &bytes[..]) {
        Ok(Ok(Ok(()))) => Ok(Ok(Ok(()))),
        Ok(Ok(Err(e))) => Ok(Ok(Err(format!("{:?}", e)))),
        Ok(Err(e)) => Ok(Err(format!("{:?}", e))),
        Err(e) => Err(format!("{:?}", e)),
    }
}

/// Decodes the dry-run endpoint's answer into its nested outcome.
///
/// An answer decodes to success exactly when its first two bytes are zero
/// (dispatch `Ok`, then execution `Ok`). Otherwise a decoded answer is
/// handed on as it decoded, each layer's error with its diagnostic text; an
/// answer that does not decode (empty, or with a first byte other than 0 or
/// 1, among others) is an `Error::ChainAccess` with the decoder's message.
pub fn decode_dry_run_response(bytes: &[u8]) -> (r: Result<DryRunOutcome, Error>)
    ensures
        (r is Ok && r->Ok_0 is Ok && r->Ok_0->Ok_0 is Ok) <==> (bytes@.len() >= 2 && bytes@[0] == 0
            && bytes@[1] == 0),
        (bytes@.len() == 0 || bytes@[0] > 1) ==> r is Err && r->Err_0 is ChainAccess,
        r is Ok && r->Ok_0 is Err ==> bytes@[0] == 1,
        r is Ok && r->Ok_0 is Ok && r->Ok_0->Ok_0 is Err ==> bytes@[0] == 0 && bytes@[1] == 1,
        r is Ok <==> apply_result_of(bytes@) is Ok,
        r is Ok ==> r->Ok_0 == apply_result_of(bytes@)->Ok_0,
        r is Err ==> r->Err_0 == Error::ChainAccess(apply_result_of(bytes@)->Err_0),
{
    match decode_apply_result(bytes) {
        Ok(outcome) => Ok(outcome),
        Err(e) => Err(Error::ChainAccess(e)),
    }
}

/// Where a dry run stands between two outside steps.
pub enum DryRunState<S> {
    /// Nothing has been asked yet.
    Start,
    /// Waiting for the solver.
    Mining,
    /// Waiting for the election round, with the mined solution at hand.
    FetchingRound { solution: S, score: ElectionScore },
    /// Waiting for the signer's nonce, with the packaged solution at hand.
    FetchingNonce { raw: RawSolution<S> },
    /// Waiting for the dry-run response.
    Submitting,
    /// The run is over.
    Done,
}

/// What the outside world reports back to the dry run.
pub enum DryRunEvent<S> {
    /// The signer was built from its seed or key file.
    SignerReady(Result<(), Error>),
    /// The solver finished.
    Mined(Result<(S, ElectionScore), Error>),
    /// The election round was read at the snapshot's block.
    Round(Result<u32, Error>),
    /// The signer's next nonce was read.
    Nonce(Result<u32, Error>),
    /// The dry-run endpoint answered, or the call failed.
    DryRun(Result<DryRunOutcome, Error>),
}

/// What the dry run asks the outside world to do next.
pub enum DryRunAction<S> {
    MineSolution,
    FetchRound,
    FetchNonce,
    /// Set `nonce` on the signer, sign a submission of `raw`, encode it and
    /// send it to the dry-run endpoint.
    SignAndDryRun { raw: RawSolution<S>, nonce: u32 },
    /// Stop with this result.
    Finish(Result<(), Error>),
}

impl<S> DryRunState<S> {
    /// The event that this state waits for.
    pub open spec fn awaits(&self, event: &DryRunEvent<S>) -> bool {
        match self {
            DryRunState::Start => event is SignerReady,
            DryRunState::Mining => event is Mined,
            DryRunState::FetchingRound { .. } => event is Round,
            DryRunState::FetchingNonce { .. } => event is Nonce,
            DryRunState::Submitting => event is DryRun,
            DryRunState::Done => false,
        }
    }

    pub fn accepts(&self, event: &DryRunEvent<S>) -> (r: bool)
        ensures
            r == self.awaits(event),
    {
        match self {
            DryRunState::Start => matches!(event, DryRunEvent::SignerReady(_)),
            DryRunState::Mining => matches!(event, DryRunEvent::Mined(_)),
            DryRunState::FetchingRound { .. } => matches!(event, DryRunEvent::Round(_)),
            DryRunState::FetchingNonce { .. } => matches!(event, DryRunEvent::Nonce(_)),
            DryRunState::Submitting => matches!(event, DryRunEvent::DryRun(_)),
            DryRunState::Done => false,
        }
    }
}

/// One decision of the dry run: from the current state and the event that
/// it awaited, the next state and the next outside action.
///
/// The steps run in a fixed order: signer, mining, round, nonce, signed
/// dry run, outcome. Any failure ends the run with that error, and nothing
/// is submitted after it. The round read is packaged with the solution
/// unchanged.
pub fn dry_run_step<S>(state: DryRunState<S>, event: DryRunEvent<S>) -> (r: (
    DryRunState<S>,
    DryRunAction<S>,
))
    requires
        state.awaits(&event),
    ensures
        r.1 is Finish <==> r.0 is Done,
        match (state, event) {
            (DryRunState::Start, DryRunEvent::SignerReady(Ok(()))) => r.0 is Mining
                && r.1 is MineSolution,
            (DryRunState::Mining, DryRunEvent::Mined(Ok((solution, score)))) => r.0
                == (DryRunState::FetchingRound { solution, score }) && r.1 is FetchRound,
            (DryRunState::FetchingRound { solution, score }, DryRunEvent::Round(Ok(round))) => r.0
                == (DryRunState::FetchingNonce { raw: RawSolution { solution, score, round } })
                && r.1 is FetchNonce,
            (DryRunState::FetchingNonce { raw }, DryRunEvent::Nonce(Ok(nonce))) => r.0
                is Submitting && r.1 == (DryRunAction::SignAndDryRun { raw, nonce }),
            (DryRunState::Submitting, DryRunEvent::DryRun(Ok(outcome))) => r.1
                == DryRunAction::<S>::Finish(interpret_outcome_spec(outcome)),
            (_, DryRunEvent::SignerReady(Err(e))) => r.1 == DryRunAction::<S>::Finish(Err(e)),
            (_, DryRunEvent::Mined(Err(e))) => r.1 == DryRunAction::<S>::Finish(Err(e)),
            (_, DryRunEvent::Round(Err(e))) => r.1 == DryRunAction::<S>::Finish(Err(e)),
            (_, DryRunEvent::Nonce(Err(e))) => r.1 == DryRunAction::<S>::Finish(Err(e)),
            (_, DryRunEvent::DryRun(Err(e))) => r.1 == DryRunAction::<S>::Finish(Err(e)),
            _ => false,
        },
{
    match (state, event) {
        (DryRunState::Start, DryRunEvent::SignerReady(Ok(()))) => (
            DryRunState::Mining,
            DryRunAction::MineSolution,
        ),
        (DryRunState::Mining, DryRunEvent::Mined(Ok((solution, score)))) => (
            DryRunState::FetchingRound { solution, score },
            DryRunAction::FetchRound,
        ),
        (DryRunState::FetchingRound { solution, score }, DryRunEvent::Round(Ok(round))) => (
            DryRunState::FetchingNonce { raw: RawSolution { solution, score, round } },
            DryRunAction::FetchNonce,
        ),
        (DryRunState::FetchingNonce { raw }, DryRunEvent::Nonce(Ok(nonce))) => (
            DryRunState::Submitting,
            DryRunAction::SignAndDryRun { raw, nonce },
        ),
        (DryRunState::Submitting, DryRunEvent::DryRun(Ok(outcome))) => (
            DryRunState::Done,
            DryRunAction::Finish(interpret_outcome(outcome)),
        ),
        (_, DryRunEvent::SignerReady(Err(e))) => (DryRunState::Done, DryRunAction::Finish(Err(e))),
        (_, DryRunEvent::Mined(Err(e))) => (DryRunState::Done, DryRunAction::Finish(Err(e))),
        (_, DryRunEvent::Round(Err(e))) => (DryRunState::Done, DryRunAction::Finish(Err(e))),
        (_, DryRunEvent::Nonce(Err(e))) => (DryRunState::Done, DryRunAction::Finish(Err(e))),
        (_, DryRunEvent::DryRun(Err(e))) => (DryRunState::Done, DryRunAction::Finish(Err(e))),
        (_, _) => unreached(),
    }
}

/// The result that `interpret_outcome` gives for an outcome.
pub open spec fn interpret_outcome_spec(outcome: DryRunOutcome) -> Result<(), Error> {
    match outcome {
        Ok(Ok(())) => Ok(()),
        Ok(Err(e)) => Err(Error::Submission(e)),
        Err(e) => Err(Error::Submission(e)),
    }
}

} // verus!
