use crate::bounded::{bound_targets, fits, AccountId};
use crate::error::Error;
use vstd::prelude::*;

verus! {

/// A voter as read from chain state: its edge list is not yet bounded.
#[derive(Debug, Clone, PartialEq, Eq)]
pub struct RawVoter {
    pub who: AccountId,
    pub stake: u64,
    pub targets: Vec<AccountId>,
}

/// The round snapshot as stored on chain: voters and targets.
#[derive(Debug, Clone, PartialEq, Eq)]
pub struct RoundSnapshot {
    pub voters: Vec<RawVoter>,
    pub targets: Vec<AccountId>,
}

/// A voter whose edge list has passed the `MaxVotesPerVoter` bound.
#[derive(Debug, Clone, PartialEq, Eq)]
pub struct Voter {
    pub who: AccountId,
    pub stake: u64,
    pub targets: Vec<AccountId>,
}

/// The solver's input: bounded voters, targets and the number of winners.
#[derive(Debug, Clone, PartialEq, Eq)]
pub struct Snapshot {
    pub voters: Vec<Voter>,
    pub targets: Vec<AccountId>,
    pub desired_targets: u32,
}

/// A voter seen as its identity, its stake and its edges.
pub type VoterView = (AccountId, u64, Seq<AccountId>);

impl RawVoter {
    pub open spec fn view(&self) -> VoterView {
        (self.who, self.stake, self.targets@)
    }
}

impl Voter {
    pub open spec fn view(&self) -> VoterView {
        (self.who, self.stake, self.targets@)
    }
}

/// Every voter's edge list fits under `max_votes`.
pub open spec fn all_fit(voters: Seq<RawVoter>, max_votes: u32) -> bool {
    forall|i: int| 0 <= i < voters.len() ==> fits(#[trigger] voters[i].targets@, max_votes)
}

/// The voters seen through their views.
pub open spec fn raw_views(voters: Seq<RawVoter>) -> Seq<VoterView> {
    voters.map_values(|v: RawVoter| v@)
}

pub open spec fn bounded_views(voters: Seq<Voter>) -> Seq<VoterView> {
    voters.map_values(|v: Voter| v@)
}

/// The voters that a possibly absent round snapshot holds.
pub open spec fn voters_of(round: Option<RoundSnapshot>) -> Seq<RawVoter> {
    match round {
        Some(s) => s.voters@,
        None => Seq::empty(),
    }
}

/// The targets that a possibly absent round snapshot holds.
pub open spec fn targets_of(round: Option<RoundSnapshot>) -> Seq<AccountId> {
    match round {
        Some(s) => s.targets@,
        None => Seq::empty(),
    }
}

impl Snapshot {
    /// Every voter's edge list fits under `max_votes`.
    pub open spec fn bounded_by(&self, max_votes: u32) -> bool {
        forall|i: int|
            0 <= i < self.voters@.len() ==> fits(#[trigger] self.voters@[i].targets@, max_votes)
    }
}

/// Builds the solver's snapshot from what chain state held.
///
/// An absent round snapshot counts as no voters and no targets, an absent
/// desired-target count as zero. Every voter's edge list is bounded by
/// `max_votes`; one that does not fit gives the fatal
/// `Error::BoundedCapacity`, and nothing is truncated.
pub fn build_snapshot(
    round: Option<RoundSnapshot>,
    desired_targets: Option<u32>,
    max_votes: u32,
) -> (r: Result<Snapshot, Error>)
    ensures
        ({
            let voters = voters_of(round);
            let targets = targets_of(round);
            &&& all_fit(voters, max_votes) <==> r is Ok
            &&& r is Ok ==> {
                let s = r->Ok_0;
                &&& bounded_views(s.voters@) == raw_views(voters)
                &&& s.targets@ == targets
                &&& s.desired_targets == match desired_targets {
                    Some(d) => d,
                    None => 0u32,
                }
                &&& s.bounded_by(max_votes)
            }
            &&& r is Err ==> r == Err::<Snapshot, Error>(Error::BoundedCapacity { capacity: max_votes })
        }),
{
    let desired: u32 = match desired_targets {
        Some(d) => d,
        None => 0,
    };
    let snap = match round {
        Some(s) => s,
        None => RoundSnapshot { voters: Vec::new(), targets: Vec::new() },
    };
    assert(snap.voters@ =~= voters_of(round));
    assert(snap.targets@ =~= targets_of(round));
    let mut voters: Vec<Voter> = Vec::new();
    let mut i: usize = 0;
    while i < snap.voters.len()
        invariant
            i <= snap.voters@.len(),
            snap.voters@ == voters_of(round),
            voters@.len() == i,
            all_fit(snap.voters@.subrange(0, i as int), max_votes),
            bounded_views(voters@) == raw_views(snap.voters@.subrange(0, i as int)),
            forall|j: int| 0 <= j < voters@.len() ==> fits(#[trigger] voters@[j].targets@, max_votes),
        decreases snap.voters@.len() - i,
    {
        let raw = &snap.voters[i];
        match bound_targets(&raw.targets, max_votes) {
            Ok(targets) => {
                let ghost before = voters@;
                voters.push(Voter { who: raw.who, stake: raw.stake, targets });
                proof {
                    let prev = snap.voters@.subrange(0, i as int);
                    let next = snap.voters@.subrange(0, i + 1);
                    assert(next =~= prev.push(snap.voters@[i as int]));
                    assert(voters@ == before.push(voters@[i as int]));
                    assert(bounded_views(voters@) =~= raw_views(next)) by {
                        assert(bounded_views(before) == raw_views(prev));
                        assert forall|j: int| 0 <= j < next.len() implies bounded_views(voters@)[j]
                            == raw_views(next)[j] by {
                            if j < i {
                                assert(bounded_views(before)[j] == raw_views(prev)[j]);
                            }
                        }
                    }
                    assert forall|j: int| 0 <= j < next.len() implies fits(#[trigger] next[j].targets@, max_votes) by {
                        if j < i {
                            assert(next[j] == prev[j]);
                        }
                    }
                }
            },
            Err(e) => {
                proof {
                    assert(!all_fit(snap.voters@, max_votes)) by {
                        assert(!fits(snap.voters@[i as int].targets@, max_votes));
                    }
                }
                return Err(e);
            },
        }
        i = i + 1;
    }
    assert(snap.voters@.subrange(0, i as int) =~= snap.voters@);
    Ok(Snapshot { voters, targets: snap.targets, desired_targets: desired })
}

} // verus!
