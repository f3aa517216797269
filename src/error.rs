use vstd::prelude::*;

verus! {

/// Errors surfaced by the mining and dry-run pipeline.
///
/// `BoundedCapacity` and `ConstantDecode` are fatal: they mean that the
/// client's protocol assumptions no longer match the live chain, and the
/// caller is expected to abort rather than go on.
#[derive(Debug, Clone, PartialEq, Eq)]
pub enum Error {
    /// A voter's edge list does not fit under `MaxVotesPerVoter`.
    BoundedCapacity { capacity: u32 },
    /// A protocol constant could not be decoded into its expected type.
    ConstantDecode(String),
    /// A chain read, RPC call or decode of a chain response failed.
    ChainAccess(String),
    /// The solver worker failed or aborted.
    Solver(String),
    /// The chain rejected the transaction in a dry run.
    Submission(String),
}

impl Error {
    /// Whether this error must abort the process.
    pub open spec fn is_fatal_spec(&self) -> bool {
        self is BoundedCapacity || self is ConstantDecode
    }

    pub fn is_fatal(&self) -> (r: bool)
        ensures
            r == self.is_fatal_spec(),
    {
        match self {
            Error::BoundedCapacity { .. } => true,
            Error::ConstantDecode(_) => true,
            _ => false,
        }
    }
}

} // verus!
