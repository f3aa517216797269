use crate::error::Error;
use scale_value::Value;
use vstd::prelude::*;

verus! {

#[verifier::external_type_specification]
#[verifier::external_body]
#[verifier::reject_recursive_types(T)]
pub struct ExValue<T>(Value<T>);

/// The chain-defined limits that every solve and every snapshot must obey.
#[derive(Debug, Clone, Copy, PartialEq, Eq)]
pub struct ProtocolConstants {
    /// Largest weight a signed solution may have.
    pub max_weight: u64,
    /// Largest encoded length of a solution.
    pub max_length: u32,
    /// Largest number of targets one voter may vote for.
    pub max_votes_per_voter: u32,
}

/// Where the protocol constants are kept once read from chain metadata.
#[derive(Debug, Clone, Copy, PartialEq, Eq)]
pub struct ConstantStore {
    pub current: Option<ProtocolConstants>,
}

impl ConstantStore {
    /// A store that holds no constants yet.
    pub fn new() -> (r: ConstantStore)
        ensures
            r.current is None,
    {
        ConstantStore { current: None }
    }

    /// The store after `c` was written into it.
    pub open spec fn synced(self, c: ProtocolConstants) -> ConstantStore {
        ConstantStore { current: Some(c) }
    }

    /// Writes `c` over whatever the store held.
    pub fn sync(&mut self, c: ProtocolConstants)
        ensures
            *final(self) == old(self).synced(c),
    {
        self.current = Some(c);
    }

    /// The stored bound on a voter's edges.
    pub fn max_votes_per_voter(&self) -> (r: u32)
        requires
            self.current is Some,
        ensures
            r == self.current->Some_0.max_votes_per_voter,
    {
        match self.current {
            Some(c) => c.max_votes_per_voter,
            None => 0,
        }
    }
}

/// The constants that three decoded values make, or the first decode error
/// (in the order weight, length, votes) as the fatal `Error::ConstantDecode`.
pub open spec fn constants_of(
    max_weight: Result<u64, String>,
    max_length: Result<u32, String>,
    max_votes: Result<u32, String>,
) -> Result<ProtocolConstants, Error> {
    match (max_weight, max_length, max_votes) {
        (Ok(w), Ok(l), Ok(v)) => Ok(
            ProtocolConstants { max_weight: w, max_length: l, max_votes_per_voter: v },
        ),
        (Err(e), _, _) => Err(Error::ConstantDecode(e)),
        (Ok(_), Err(e), _) => Err(Error::ConstantDecode(e)),
        (Ok(_), Ok(_), Err(e)) => Err(Error::ConstantDecode(e)),
    }
}

/// The store after reading three decoded constants into `s`: written with
/// them when all three decoded, left as it was otherwise.
pub open spec fn store_after(
    s: ConstantStore,
    max_weight: Result<u64, String>,
    max_length: Result<u32, String>,
    max_votes: Result<u32, String>,
) -> ConstantStore {
    match constants_of(max_weight, max_length, max_votes) {
        Ok(c) => s.synced(c),
        Err(_) => s,
    }
}

/// Reading the same decoded constants twice leaves the store as reading
/// them once; in particular writing the same constants twice does.
pub proof fn lemma_sync_idempotent(
    s: ConstantStore,
    max_weight: Result<u64, String>,
    max_length: Result<u32, String>,
    max_votes: Result<u32, String>,
)
    ensures
        store_after(store_after(s, max_weight, max_length, max_votes), max_weight, max_length, max_votes)
            == store_after(s, max_weight, max_length, max_votes),
        forall|c: ProtocolConstants| #[trigger] s.synced(c).synced(c) == s.synced(c),
{
}

/// Assembles the protocol constants from their decoded values.
pub fn constants_from_decoded(
    max_weight: Result<u64, String>,
    max_length: Result<u32, String>,
    max_votes: Result<u32, String>,
) -> (r: Result<ProtocolConstants, Error>)
    ensures
        r == constants_of(max_weight, max_length, max_votes),
        r is Ok <==> (max_weight is Ok && max_length is Ok && max_votes is Ok),
        r is Err ==> r->Err_0.is_fatal_spec(),
{
    let w = match max_weight {
        Ok(w) => w,
        Err(e) => return Err(Error::ConstantDecode(e)),
    };
    let l = match max_length {
        Ok(l) => l,
        Err(e) => return Err(Error::ConstantDecode(e)),
    };
    let v = match max_votes {
        Ok(v) => v,
        Err(e) => return Err(Error::ConstantDecode(e)),
    };
    Ok(ProtocolConstants { max_weight: w, max_length: l, max_votes_per_voter: v })
}

/// What `scale_value::serde::from_value` gives for a value decoded as a
/// `u64`: the number, or the decode error's message.
pub uninterp spec fn u64_of(v: Value<()>) -> Result<u64, String>;

/// What `scale_value::serde::from_value` gives for a value decoded as a
/// `u32`: the number, or the decode error's message.
pub uninterp spec fn u32_of(v: Value<()>) -> Result<u32, String>;

/// Relies on scale_value::serde::from_value to decode a metadata constant
/// as a `u64`; the result depends on the value alone, and a decode error is
/// kept as its message.
#[verifier::external_body]
fn decode_u64(v: Value<()>) -> (r: Result<u64, String>)
    ensures
        r == u64_of(v),
{
    scale_value::serde::from_value::<_, u64>(v).map_err(|e| e.to_string())
}

/// Relies on scale_value::serde::from_value to decode a metadata constant
/// as a `u32`; the result depends on the value alone, and a decode error is
/// kept as its message.
#[verifier::external_body]
fn decode_u32(v: Value<()>) -> (r: Result<u32, String>)
    ensures
        r == u32_of(v),
{
    scale_value::serde::from_value::<_, u32>(v).map_err(|e| e.to_string())
}

/// Reading the same metadata values twice stores what reading them once
/// stores.
pub proof fn lemma_read_idempotent(
    s: ConstantStore,
    max_weight: Value<()>,
    max_length: Value<()>,
    max_votes: Value<()>,
)
    ensures
        ({
            let (w, l, v) = (u64_of(max_weight), u32_of(max_length), u32_of(max_votes));
            store_after(store_after(s, w, l, v), w, l, v) == store_after(s, w, l, v)
        }),
{
    lemma_sync_idempotent(s, u64_of(max_weight), u32_of(max_length), u32_of(max_votes));
}

/// Decodes the three metadata constants (`SignedMaxWeight`,
/// `MinerMaxLength`, `MinerMaxVotesPerVoter`) and writes them into `store`.
///
/// The store is written exactly when all three decode, with the values
/// decoded; otherwise it is left as it was and the first decode error is
/// returned as the fatal `Error::ConstantDecode`. Reading the same values
/// twice therefore stores the same constants.
pub fn read_metadata_constants(
    store: &mut ConstantStore,
    max_weight: Value<()>,
    max_length: Value<()>,
    max_votes: Value<()>,
) -> (r: Result<(), Error>)
    ensures
        *final(store) == store_after(
            *old(store),
            u64_of(max_weight),
            u32_of(max_length),
            u32_of(max_votes),
        ),
        r is Ok <==> constants_of(u64_of(max_weight), u32_of(max_length), u32_of(max_votes)) is Ok,
        r is Err ==> r->Err_0 == constants_of(
            u64_of(max_weight),
            u32_of(max_length),
            u32_of(max_votes),
        )->Err_0,
        r is Err ==> r->Err_0.is_fatal_spec() && *final(store) == *old(store),
{
    let w = decode_u64(max_weight);
    let l = decode_u32(max_length);
    let v = decode_u32(max_votes);
    match constants_from_decoded(w, l, v) {
        Ok(c) => {
            store.sync(c);
            Ok(())
        },
        Err(e) => Err(e),
    }
}

} // verus!
