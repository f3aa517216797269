use crate::error::Error;
use vstd::prelude::*;

verus! {

/// A 32-byte account identifier of a voter or a target.
pub type AccountId = [u8; 32];

/// A sequence fits a capacity when its length does not exceed it.
pub open spec fn fits(s: Seq<AccountId>, capacity: u32) -> bool {
    s.len() <= capacity as nat
}

/// Copies a voter's raw edge list into a list bounded by `capacity`,
/// appending every edge in its original order.
///
/// A raw list longer than `capacity` is never truncated: the result is then
/// the fatal `Error::BoundedCapacity`.
pub fn bound_targets(raw: &Vec<AccountId>, capacity: u32) -> (r: Result<Vec<AccountId>, Error>)
    ensures
        fits(raw@, capacity) <==> r is Ok,
        r is Ok ==> r->Ok_0@ == raw@,
        !fits(raw@, capacity) ==> r == Err::<Vec<AccountId>, Error>(
            Error::BoundedCapacity { capacity },
        ),
{
    if raw.len() > capacity as usize {
        return Err(Error::BoundedCapacity { capacity });
    }
    let mut out: Vec<AccountId> = Vec::new();
    let mut i: usize = 0;
    while i < raw.len()
        invariant
            i <= raw@.len(),
            out@ == raw@.subrange(0, i as int),
        decreases raw@.len() - i,
    {
        out.push(raw[i]);
        i = i + 1;
    }
    assert(out@ =~= raw@);
    Ok(out)
}

} // verus!
