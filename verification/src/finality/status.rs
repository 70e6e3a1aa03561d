//! The finality status of a block and the recent statuses that are kept.

use vstd::prelude::*;

use crate::finality::voters::JustificationTally;
use crate::grandpa::BlockHash;
use crate::number;
use crate::number::{saturating_sub, BlockNumber};
use crate::store;
use crate::store::{HashStore, Stamped};

verus! {

/// What a verified justification says about its voting round.
#[derive(Clone, Copy, Debug)]
pub struct VotingRoundInfo {
    pub round: u64,
    pub set_id: u64,
    pub target_hash: BlockHash,
    pub target_number: u64,
    pub precommit_count: u32,
    pub total_weight: u64,
    pub valid_weight: u64,
}

/// The finality status of a block. The rate of participation is `signed_weight` out of
/// `total_weight`, and zero where both are zero.
#[derive(Debug)]
pub struct FinalityStatus<N> {
    pub block_number: N,
    pub confirmations: N,
    pub has_justification: bool,
    pub is_finalized: bool,
    pub signed_weight: u64,
    pub total_weight: u64,
}

impl<N: Copy> Copy for FinalityStatus<N> {

}

impl<N: Copy> Clone for FinalityStatus<N> {
    fn clone(&self) -> (r: Self)
        ensures
            r == *self,
    {
        *self
    }
}

/// What a finality status says.
pub struct StatusView {
    pub block_number: nat,
    pub confirmations: nat,
    pub has_justification: bool,
    pub is_finalized: bool,
    pub signed_weight: nat,
    pub total_weight: nat,
}

impl<N: BlockNumber> View for FinalityStatus<N> {
    type V = StatusView;

    open spec fn view(&self) -> StatusView {
        StatusView {
            block_number: self.block_number.as_nat(),
            confirmations: self.confirmations.as_nat(),
            has_justification: self.has_justification,
            is_finalized: self.is_finalized,
            signed_weight: self.signed_weight as nat,
            total_weight: self.total_weight as nat,
        }
    }
}

/// How many finalized blocks stand on top of block `number` once the chain has finalized block
/// `finalized`: none on top of a block that the chain does not hold (`on_chain`).
pub open spec fn confirmations(number: nat, finalized: nat, on_chain: bool) -> nat {
    if on_chain {
        number::difference(finalized, number)
    } else {
        0
    }
}

/// How many finalized blocks stand on top of block `number` once the chain has finalized block
/// `finalized`; `on_chain` says whether the chain holds the block at its height.
pub fn count_confirmations<N: BlockNumber>(number: N, finalized: N, on_chain: bool) -> (r: N)
    ensures
        r.as_nat() == confirmations(number.as_nat(), finalized.as_nat(), on_chain),
{
    if on_chain {
        saturating_sub(finalized, number)
    } else {
        N::zero()
    }
}

/// The status of block `number` once the chain has finalized block `finalized`: the finalized
/// blocks on top of it are its confirmations, and it is final itself where the chain holds it
/// (`on_chain`) at a finalized height.
pub open spec fn status(
    number: nat,
    finalized: nat,
    on_chain: bool,
    has_justification: bool,
    signed_weight: nat,
    total_weight: nat,
) -> StatusView {
    StatusView {
        block_number: number,
        confirmations: confirmations(number, finalized, on_chain),
        has_justification,
        is_finalized: number <= finalized && on_chain,
        signed_weight,
        total_weight,
    }
}

impl<N: BlockNumber> FinalityStatus<N> {
    /// The status of block `number` once the chain has finalized block `finalized`; `on_chain` says
    /// whether the block is the one that the chain holds at its height, and `tally` is the weight
    /// behind its justification, if it has one that can be read.
    pub fn new(
        number: N,
        finalized: N,
        on_chain: bool,
        has_justification: bool,
        tally: Option<JustificationTally>,
    ) -> (r: Self)
        ensures
            r@ == match tally {
                Some(t) => status(
                    number.as_nat(),
                    finalized.as_nat(),
                    on_chain,
                    has_justification,
                    t.signed_weight as nat,
                    t.total_weight as nat,
                ),
                None => status(
                    number.as_nat(),
                    finalized.as_nat(),
                    on_chain,
                    has_justification,
                    0,
                    0,
                ),
            },
    {
        let (signed_weight, total_weight): (u64, u64) = match tally {
            Some(t) => (t.signed_weight, t.total_weight),
            None => (0, 0),
        };
        FinalityStatus {
            block_number: number,
            confirmations: count_confirmations(number, finalized, on_chain),
            has_justification,
            is_finalized: number.to_u64() <= finalized.to_u64() && on_chain,
            signed_weight,
            total_weight,
        }
    }
}

/// Blocks with confirmations are final, and blocks that are not final have none. A block on an
/// abandoned fork is never final.
pub proof fn law_confirmed_blocks_are_final(
    number: nat,
    finalized: nat,
    on_chain: bool,
    has_justification: bool,
    signed_weight: nat,
    total_weight: nat,
)
    ensures
        ({
            let s = status(
                number,
                finalized,
                on_chain,
                has_justification,
                signed_weight,
                total_weight,
            );
            &&& s.confirmations > 0 ==> s.is_finalized
            &&& !s.is_finalized ==> s.confirmations == 0
            &&& s.is_finalized ==> s.block_number + s.confirmations == finalized
            &&& !on_chain ==> !s.is_finalized
        }),
{
}

/// Finality is never lost: as the chain finalizes further blocks, a final block that the chain still
/// holds stays final and gains the confirmations, whatever its justification says before and after.
pub proof fn law_finality_is_permanent(
    number: nat,
    earlier: nat,
    later: nat,
    justified_before: bool,
    justified_after: bool,
    before: JustificationTally,
    after: JustificationTally,
)
    requires
        earlier <= later,
        number <= earlier,
    ensures
        ({
            let first = status(
                number,
                earlier,
                true,
                justified_before,
                before.signed_weight as nat,
                before.total_weight as nat,
            );
            let second = status(
                number,
                later,
                true,
                justified_after,
                after.signed_weight as nat,
                after.total_weight as nat,
            );
            &&& first.is_finalized
            &&& second.is_finalized
            &&& second.confirmations == first.confirmations + (later - earlier)
        }),
{
}

/// For how long a kept status is served, in nanoseconds.
pub const FRESH_NANOS: u128 = 5_000_000_000;

/// For how long a status is kept, in nanoseconds.
pub const KEPT_NANOS: u128 = 30_000_000_000;

/// Recent finality statuses by block hash, each with the time at which it was established.
#[derive(Debug)]
pub struct FinalityCache<S> {
    statuses: HashStore<Stamped<S>>,
}

impl<S> View for FinalityCache<S> {
    type V = Map<Seq<u8>, Stamped<S>>;

    closed spec fn view(&self) -> Map<Seq<u8>, Stamped<S>> {
        self.statuses@
    }
}

/// The status that is served for `hash` at `now`: a kept one of less than five seconds.
pub open spec fn served<S>(
    kept: Map<Seq<u8>, Stamped<S>>,
    hash: Seq<u8>,
    now: u128,
) -> Option<S> {
    if kept.contains_key(hash) && store::age(kept[hash].at, now) < FRESH_NANOS {
        Some(kept[hash].value)
    } else {
        None
    }
}

/// What is kept after `status` was established for `hash` at `now`: it, and whatever else is
/// younger than thirty seconds.
pub open spec fn recorded<S>(
    kept: Map<Seq<u8>, Stamped<S>>,
    hash: Seq<u8>,
    status: S,
    now: u128,
) -> Map<Seq<u8>, Stamped<S>> {
    store::younger(kept.insert(hash, Stamped { value: status, at: now }), now, KEPT_NANOS)
}

impl<S: Copy> FinalityCache<S> {
    /// A cache that keeps no status yet.
    pub fn new() -> (r: Self)
        ensures
            r@ == Map::<Seq<u8>, Stamped<S>>::empty(),
    {
        FinalityCache { statuses: HashStore::new() }
    }

    /// The kept status of a block, if it is fresh at `now`.
    pub fn fresh(&self, hash: &BlockHash, now: u128) -> (r: Option<S>)
        ensures
            r == served(self@, hash@, now),
    {
        match self.statuses.get(hash) {
            Some(stamped) => if now.saturating_sub(stamped.at) < FRESH_NANOS {
                Some(stamped.value)
            } else {
                None
            },
            None => None,
        }
    }

    /// Keeps the status of a block that was established at `now`, and drops old ones.
    pub fn record(&mut self, hash: BlockHash, status: S, now: u128)
        ensures
            final(self)@ == recorded(old(self)@, hash@, status, now),
    {
        self.statuses.insert(hash, Stamped { value: status, at: now });
        self.statuses.retain_younger(now, KEPT_NANOS);
    }
}

/// A recorded status is served for that block for five seconds, and not afterwards.
pub proof fn law_recorded_status_is_served<S>(
    kept: Map<Seq<u8>, Stamped<S>>,
    hash: Seq<u8>,
    status: S,
    now: u128,
    later: u128,
)
    requires
        now <= later,
    ensures
        served(recorded(kept, hash, status, now), hash, later) == if later - now < FRESH_NANOS {
            Some(status)
        } else {
            None
        },
{
}

/// Recording a status does not change what is served for other blocks.
pub proof fn law_recording_leaves_other_blocks<S>(
    kept: Map<Seq<u8>, Stamped<S>>,
    hash: Seq<u8>,
    status: S,
    now: u128,
    other: Seq<u8>,
    later: u128,
)
    requires
        other != hash,
        now <= later,
    ensures
        served(recorded(kept, hash, status, now), other, later) == served(kept, other, later),
{
}

/// After a recording nothing of thirty seconds or more is kept.
pub proof fn law_recording_drops_old<S>(
    kept: Map<Seq<u8>, Stamped<S>>,
    hash: Seq<u8>,
    status: S,
    now: u128,
    key: Seq<u8>,
)
    requires
        recorded(kept, hash, status, now).contains_key(key),
    ensures
        store::age(recorded(kept, hash, status, now)[key].at, now) < KEPT_NANOS,
{
}

/// A block that the chain holds has as many confirmations as finalized blocks stand above it, and is
/// final at and below the finalized height. A block that the chain does not hold is not final and has
/// none. The other parts of a status are taken over as they are.
pub proof fn law_status_follows_from_the_heights(
    number: nat,
    finalized: nat,
    on_chain: bool,
    has_justification: bool,
    signed_weight: nat,
    total_weight: nat,
)
    ensures
        ({
            let s = status(
                number,
                finalized,
                on_chain,
                has_justification,
                signed_weight,
                total_weight,
            );
            &&& s.block_number == number
            &&& on_chain && number <= finalized ==> s.is_finalized && number + s.confirmations
                == finalized
            &&& !on_chain || number > finalized ==> !s.is_finalized && s.confirmations == 0
            &&& s.has_justification == has_justification
            &&& s.signed_weight == signed_weight
            &&& s.total_weight == total_weight
        }),
{
}

/// What a status says is what it holds.
pub proof fn law_statuses_say_what_they_hold<N: BlockNumber>(s: FinalityStatus<N>)
    ensures
        s@.block_number == s.block_number.as_nat(),
        s@.confirmations == s.confirmations.as_nat(),
        s@.has_justification == s.has_justification,
        s@.is_finalized == s.is_finalized,
        s@.signed_weight == s.signed_weight,
        s@.total_weight == s.total_weight,
{
}

/// A kept status is served exactly where it was established less than five seconds ago.
pub proof fn law_statuses_are_served_for_five_seconds<S>(
    kept: Map<Seq<u8>, Stamped<S>>,
    hash: Seq<u8>,
    now: u128,
)
    ensures
        kept.contains_key(hash) && now < kept[hash].at + 5_000_000_000 ==> served(kept, hash, now)
            == Some(kept[hash].value),
        !(kept.contains_key(hash) && now < kept[hash].at + 5_000_000_000) ==> served(
            kept,
            hash,
            now,
        ) is None,
{
}

/// After a recording the new status is kept for its block, as of now, and of the others exactly those
/// that were established less than thirty seconds ago.
pub proof fn law_statuses_are_kept_for_thirty_seconds<S>(
    kept: Map<Seq<u8>, Stamped<S>>,
    hash: Seq<u8>,
    status: S,
    now: u128,
    other: Seq<u8>,
)
    requires
        other != hash,
    ensures
        ({
            let after = recorded(kept, hash, status, now);
            &&& after.contains_key(hash)
            &&& after[hash].value == status
            &&& after[hash].at == now
            &&& after.contains_key(other) <==> kept.contains_key(other) && now < kept[other].at
                + 30_000_000_000
            &&& after.contains_key(other) ==> after[other] == kept[other]
        }),
{
}

} // verus!
