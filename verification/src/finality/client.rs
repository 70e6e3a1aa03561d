//! Verification of blocks against what the chain holds.

use std::sync::Arc;

use vstd::prelude::*;
use vstd::std_specs::convert::FromSpec;

use crate::finality::config::{ChainConfig, ChainRules, GrandpaVerificationParams};
use crate::finality::error::{
    ErrorView, FinalityVerificationError, GrandpaFinalityVerificationError,
};
use crate::finality::status;
use crate::finality::status::{FinalityCache, FinalityStatus, StatusView};
use crate::finality::voters;
use crate::finality::voters::{JustificationTally, Voters};
use crate::grandpa;
use crate::grandpa::{
    find_justification, AuthorityList, BlockHash, GrandpaJustification, Justifications,
    VoterWeights, GRANDPA_ENGINE_ID,
};
use crate::number;
use crate::number::{saturating_sub, BlockNumber, GrandpaNumber};
use crate::state::{BlockRef, ChainId};
use crate::store::{same_hash, Stamped};
use crate::text;
use crate::text::joined;
use crate::trusted::debug_hash;

verus! {

/// The header of a block, as far as it is read.
#[derive(Debug)]
pub struct BlockHeader<N> {
    pub number: N,
    pub hash: BlockHash,
    pub parent_hash: BlockHash,
}

impl<N: Copy> Copy for BlockHeader<N> {

}

impl<N: Copy> Clone for BlockHeader<N> {
    fn clone(&self) -> (r: Self)
        ensures
            r == *self,
    {
        *self
    }
}

/// The answer of the chain to a question for a header: the header, or none if the block is
/// unknown, or why the chain could not answer.
pub type HeaderLookup<N> = Result<Option<BlockHeader<N>>, String>;

/// The answers of the chain that the finality status of a block rests on.
#[derive(Debug)]
pub struct ChainReadings<N> {
    pub header: HeaderLookup<N>,
    pub finalized_number: N,
    /// The hash of the block that the chain holds at the height of the header.
    pub canonical: Result<Option<BlockHash>, String>,
    pub justifications: Result<Option<Justifications>, String>,
}

/// A block and the time, in seconds, at which it was read.
#[derive(Debug)]
pub struct SubstrateBlockRef {
    pub inner: BlockRef,
    pub timestamp: u64,
}

impl Clone for SubstrateBlockRef {
    fn clone(&self) -> (r: Self)
        ensures
            r == *self,
    {
        SubstrateBlockRef { inner: self.inner.clone(), timestamp: self.timestamp }
    }
}

impl From<SubstrateBlockRef> for BlockRef {
    fn from(block: SubstrateBlockRef) -> (r: Self) {
        block.inner
    }
}

impl vstd::std_specs::convert::FromSpecImpl<SubstrateBlockRef> for BlockRef {
    open spec fn obeys_from_spec() -> bool {
        true
    }

    open spec fn from_spec(block: SubstrateBlockRef) -> Self {
        block.inner
    }
}

impl SubstrateBlockRef {
    /// The block itself.
    pub fn as_ref(&self) -> (r: &BlockRef)
        ensures
            *r == self.inner,
    {
        &self.inner
    }
}

/// The message for a chain that could not answer.
pub open spec fn unanswered(question: Seq<char>, reason: Seq<char>) -> ErrorView {
    ErrorView::ChainError(question + reason)
}

/// The header that a lookup found, or why there is none.
pub open spec fn found<N>(hash: Seq<u8>, header: HeaderLookup<N>) -> Result<
    BlockHeader<N>,
    ErrorView,
> {
    match header {
        Err(reason) => Err(unanswered("Failed to get header: "@, reason@)),
        Ok(None) => Err(ErrorView::BlockNotFound("0x"@ + text::hex(hash))),
        Ok(Some(h)) => Ok(h),
    }
}

/// The header that a lookup found, or why there is none.
pub fn found_header<N: Copy>(
    hash: &BlockHash,
    header: &HeaderLookup<N>,
) -> (r: Result<BlockHeader<N>, GrandpaFinalityVerificationError>)
    ensures
        r matches Ok(h) ==> found(hash@, *header) == Ok::<_, ErrorView>(h),
        r matches Err(e) ==> found(hash@, *header) == Err::<BlockHeader<N>, _>(e@),
{
    match header {
        Err(reason) => Err(
            GrandpaFinalityVerificationError::ChainError(
                joined("Failed to get header: ", reason.as_str()),
            ),
        ),
        Ok(None) => Err(GrandpaFinalityVerificationError::BlockNotFound(debug_hash(hash))),
        Ok(Some(h)) => Ok(*h),
    }
}

/// The justification of GRANDPA among those of a block.
pub open spec fn grandpa_justification(justifications: Option<Justifications>) -> Option<Seq<u8>> {
    match justifications {
        Some(list) => grandpa::justification_of(list@, GRANDPA_ENGINE_ID@),
        None => None,
    }
}

/// The justification of GRANDPA among the answers of the chain, if there is one that can be read.
pub open spec fn readable_justification<N: GrandpaNumber>(readings: ChainReadings<N>) -> Option<
    grandpa::JustificationView,
> {
    match readings.justifications {
        Ok(justifications) => match grandpa_justification(justifications) {
            Some(bytes) => N::decoded_justification(bytes),
            None => None,
        },
        Err(_) => None,
    }
}

/// Whether the chain holds the block with the given hash at its height. Only an answer speaks
/// against the block: where the chain could not answer, its height alone decides.
pub open spec fn is_canonical(hash: Seq<u8>, canonical: Result<Option<BlockHash>, String>) -> bool {
    canonical is Err || (canonical matches Ok(Some(held)) && held@ == hash)
}

/// Whether the chain holds the block with the given hash at its height, as far as it answered.
pub fn holds(canonical: &Result<Option<BlockHash>, String>, hash: &BlockHash) -> (r: bool)
    ensures
        r == is_canonical(hash@, *canonical),
{
    match canonical {
        Ok(Some(held)) => same_hash(held, hash),
        Ok(None) => false,
        Err(_) => true,
    }
}

/// The finality status of a block with the given justification, under the given voters.
pub open spec fn status_under<N: GrandpaNumber>(
    weights: VoterWeights,
    total: nat,
    number: nat,
    finalized: nat,
    on_chain: bool,
    justification: Option<Seq<u8>>,
) -> StatusView {
    match justification {
        None => status::status(number, finalized, on_chain, false, 0, 0),
        Some(bytes) => match N::decoded_justification(bytes) {
            None => status::status(number, finalized, on_chain, true, 0, 0),
            Some(j) => status::status(
                number,
                finalized,
                on_chain,
                true,
                voters::capped(voters::signed_weight::<N>(weights, j.3)),
                total,
            ),
        },
    }
}

/// The finality status that follows from the answers of the chain, or why there is none.
pub open spec fn established<N: GrandpaNumber>(
    weights: VoterWeights,
    total: nat,
    hash: Seq<u8>,
    readings: ChainReadings<N>,
) -> Result<StatusView, ErrorView> {
    match found(hash, readings.header) {
        Err(e) => Err(e),
        Ok(header) => match readings.justifications {
            Err(reason) => Err(unanswered("Failed to get justification: "@, reason@)),
            Ok(justifications) => Ok(
                status_under::<N>(
                    weights,
                    total,
                    header.number.as_nat(),
                    readings.finalized_number.as_nat(),
                    is_canonical(hash, readings.canonical),
                    grandpa_justification(justifications),
                ),
            ),
        },
    }
}

/// The outcome of establishing a status, as far as it can be compared.
pub open spec fn status_outcome<N: BlockNumber>(
    outcome: Result<FinalityStatus<N>, GrandpaFinalityVerificationError>,
) -> Result<StatusView, ErrorView> {
    match outcome {
        Ok(s) => Ok(s@),
        Err(e) => Err(e@),
    }
}

/// The message for a status that could not be established.
pub open spec fn no_status_text(e: ErrorView) -> Seq<char> {
    ErrorView::ConsensusError(e.text()).text()
}

fn no_status(e: GrandpaFinalityVerificationError) -> (r: FinalityVerificationError)
    ensures
        r.0@ == no_status_text(e@),
{
    FinalityVerificationError::from(
        GrandpaFinalityVerificationError::ConsensusError(e.to_string()),
    )
}

/// What the confidence in the finality of a block rests on.
#[derive(Clone, Copy, Debug, PartialEq, Eq, Structural)]
pub enum ConfidenceBasis {
    /// The chain has finalized the block: full confidence.
    Finalized,
    /// Confirmations out of those asked for, and, of a justified block, the signed weight out of
    /// the weight of all voters.
    Evidence {
        confirmations: u64,
        min_confirmations: u32,
        participation: Option<JustificationTally>,
    },
}

/// What the confidence in a block with the given status rests on, where so many confirmations are
/// asked for.
pub open spec fn confidence_basis(s: StatusView, min_confirmations: u32) -> ConfidenceBasis {
    if s.is_finalized {
        ConfidenceBasis::Finalized
    } else {
        ConfidenceBasis::Evidence {
            confirmations: s.confirmations as u64,
            min_confirmations,
            participation: if s.has_justification {
                Some(
                    JustificationTally {
                        signed_weight: s.signed_weight as u64,
                        total_weight: s.total_weight as u64,
                    },
                )
            } else {
                None
            },
        }
    }
}

/// Whether a block with the given status meets the rules of the chain: confirmations, fork depth
/// and, of a justified block, participation.
pub open spec fn meets_rules(
    s: StatusView,
    best_number: nat,
    rules: ChainRules,
    max_number: nat,
    participation_below: bool,
) -> bool {
    &&& s.confirmations >= number::nearest(rules.min_confirmations as nat, max_number)
    &&& number::difference(best_number, s.block_number) <= number::nearest(
        rules.max_fork_depth as nat,
        max_number,
    )
    &&& !(s.has_justification && participation_below)
}

/// The answer to a question about a block, as far as it can be compared.
pub open spec fn answer_text(answer: Result<bool, FinalityVerificationError>) -> Result<
    bool,
    Seq<char>,
> {
    match answer {
        Ok(b) => Ok(b),
        Err(e) => Err(e.0@),
    }
}

/// Whether a block is known under its number, or why that could not be answered.
pub open spec fn lookup_answer<N: BlockNumber>(
    block_ref: BlockRef,
    header: HeaderLookup<N>,
) -> Result<bool, Seq<char>> {
    match found(block_ref.hash@, header) {
        Ok(h) => Ok(
            h.number.as_nat() == number::nearest(block_ref.number as nat, N::max_nat()),
        ),
        Err(e) => Err(e.text()),
    }
}

/// Whether a block meets the rules of the chain, or why that could not be answered.
pub open spec fn rules_answer(
    status: Result<StatusView, ErrorView>,
    best_number: nat,
    rules: ChainRules,
    max_number: nat,
    participation_below: bool,
) -> Result<bool, Seq<char>> {
    match status {
        Ok(s) => Ok(meets_rules(s, best_number, rules, max_number, participation_below)),
        Err(e) => Err(no_status_text(e)),
    }
}

/// Access to the voters and parameters of a verification client.
pub trait GrandpaFinalityProvider {
    /// The voters.
    spec fn voters(&self) -> Voters;

    /// The parameters.
    spec fn verification_params(&self) -> GrandpaVerificationParams;

    /// The voters.
    fn get_voter_set(&self) -> (r: &Voters)
        ensures
            *r == self.voters(),
    ;

    /// The parameters.
    fn get_verification_params(&self) -> (r: &GrandpaVerificationParams)
        ensures
            *r == self.verification_params(),
    ;
}

/// Verifies blocks by the answers of a chain client `C` with block numbers `N`.
pub struct SubstrateVerificationClient<C, N> {
    client: Arc<C>,
    voter_set: Voters,
    params: GrandpaVerificationParams,
    chain_config: ChainConfig,
    finality_cache: FinalityCache<FinalityStatus<N>>,
}

impl<C, N: BlockNumber> GrandpaFinalityProvider for SubstrateVerificationClient<C, N> {
    closed spec fn voters(&self) -> Voters {
        self.voter_set
    }

    closed spec fn verification_params(&self) -> GrandpaVerificationParams {
        self.params
    }

    fn get_voter_set(&self) -> (r: &Voters) {
        &self.voter_set
    }

    fn get_verification_params(&self) -> (r: &GrandpaVerificationParams) {
        &self.params
    }
}

impl<C, N: GrandpaNumber> SubstrateVerificationClient<C, N> {
    /// The chain client.
    pub closed spec fn chain_client(&self) -> Arc<C> {
        self.client
    }

    /// The configuration of the chain.
    pub closed spec fn config(&self) -> ChainConfig {
        self.chain_config
    }

    /// The statuses that are kept.
    pub closed spec fn kept(&self) -> Map<Seq<u8>, Stamped<FinalityStatus<N>>> {
        self.finality_cache@
    }

    /// The status that follows from the answers of the chain under the current voters.
    pub open spec fn status_of(&self, hash: Seq<u8>, readings: ChainReadings<N>) -> Result<
        StatusView,
        ErrorView,
    > {
        established(self.voters().weights(), self.voters().total(), hash, readings)
    }

    /// A client that keeps no status yet.
    pub fn new(
        client: Arc<C>,
        voter_set: Voters,
        params: GrandpaVerificationParams,
        chain_config: ChainConfig,
    ) -> (r: Self)
        ensures
            r.chain_client() == client,
            r.voters() == voter_set,
            r.verification_params() == params,
            r.config() == chain_config,
            r.kept() == Map::<Seq<u8>, Stamped<FinalityStatus<N>>>::empty(),
    {
        SubstrateVerificationClient {
            client,
            voter_set,
            params,
            chain_config,
            finality_cache: FinalityCache::new(),
        }
    }

    /// The chain client.
    pub fn client(&self) -> (r: &Arc<C>)
        ensures
            *r == self.chain_client(),
    {
        &self.client
    }

    /// Sums the weight of the valid precommits of a justification.
    pub fn verify_justification(&self, justification: &GrandpaJustification<N>) -> (r:
        JustificationTally)
        ensures
            r.signed_weight as nat == voters::capped(
                voters::signed_weight::<N>(self.voters().weights(), justification@.3),
            ),
            r.total_weight as nat == self.voters().total(),
    {
        self.voter_set.verify_justification(justification)
    }

    /// How many valid signatures of voters the justification of a block holds, if it has one that
    /// can be read.
    pub fn valid_signatures(&self, readings: &ChainReadings<N>) -> (r: Option<usize>)
        ensures
            match readable_justification(*readings) {
                Some(j) => r matches Some(count) && count as nat == voters::valid_votes::<N>(
                    self.voters().weights(),
                    j.3,
                ),
                None => r is None,
            },
    {
        let justification: Option<&Vec<u8>> = match &readings.justifications {
            Ok(Some(list)) => find_justification(list, &GRANDPA_ENGINE_ID),
            _ => None,
        };
        match justification {
            Some(bytes) => match N::decode_justification(bytes.as_slice()) {
                Some(j) => Some(self.voter_set.valid_signatures(&j)),
                None => None,
            },
            None => None,
        }
    }

    /// The finality status of a block, from the answers of the chain.
    pub fn get_finality_status(&self, block_hash: &BlockHash, readings: &ChainReadings<N>) -> (r:
        Result<FinalityStatus<N>, GrandpaFinalityVerificationError>)
        ensures
            status_outcome(r) == self.status_of(block_hash@, *readings),
    {
        let header = match found_header(block_hash, &readings.header) {
            Ok(h) => h,
            Err(e) => {
                return Err(e);
            },
        };
        let justification: Option<&Vec<u8>> = match &readings.justifications {
            Err(reason) => {
                return Err(
                    GrandpaFinalityVerificationError::ChainError(
                        joined("Failed to get justification: ", reason.as_str()),
                    ),
                );
            },
            Ok(Some(list)) => find_justification(list, &GRANDPA_ENGINE_ID),
            Ok(None) => None,
        };
        let tally = match justification {
            Some(bytes) => match N::decode_justification(bytes.as_slice()) {
                Some(j) => Some(self.verify_justification(&j)),
                None => None,
            },
            None => None,
        };
        Ok(
            FinalityStatus::new(
                header.number,
                readings.finalized_number,
                holds(&readings.canonical, block_hash),
                justification.is_some(),
                tally,
            ),
        )
    }

    /// The kept status of a block, if it is fresh at `now`.
    pub fn cached_status(&self, block_hash: &BlockHash, now: u128) -> (r: Option<
        FinalityStatus<N>,
    >)
        ensures
            r == status::served(self.kept(), block_hash@, now),
    {
        self.finality_cache.fresh(block_hash, now)
    }

    /// The finality status of a block: a fresh kept one, or else one from the answers of the
    /// chain, which is then kept.
    pub fn get_finality_status_cached(
        &mut self,
        block_hash: &BlockHash,
        now: u128,
        readings: &ChainReadings<N>,
    ) -> (r: Result<FinalityStatus<N>, GrandpaFinalityVerificationError>)
        ensures
            final(self).chain_client() == old(self).chain_client(),
            final(self).voters() == old(self).voters(),
            final(self).verification_params() == old(self).verification_params(),
            final(self).config() == old(self).config(),
            match status::served(old(self).kept(), block_hash@, now) {
                Some(s) => r == Ok::<_, GrandpaFinalityVerificationError>(s) && final(self).kept()
                    == old(self).kept(),
                None => {
                    &&& status_outcome(r) == old(self).status_of(block_hash@, *readings)
                    &&& final(self).kept() == match r {
                        Ok(s) => status::recorded(old(self).kept(), block_hash@, s, now),
                        Err(_) => old(self).kept(),
                    }
                },
            },
    {
        if let Some(s) = self.finality_cache.fresh(block_hash, now) {
            return Ok(s);
        }
        let r = self.get_finality_status(block_hash, readings);
        if let Ok(s) = &r {
            self.finality_cache.record(*block_hash, *s, now);
        }
        r
    }

    /// The identifier of the chain.
    pub fn get_chain_id(&self) -> (r: String)
        ensures
            r@ == self.config().full_id(),
    {
        self.chain_config.get_chain_id()
    }

    /// Whether a proof of inclusion in a known block holds anything.
    pub fn verify_merkle_proof(
        &self,
        block_hash: &BlockHash,
        header: &HeaderLookup<N>,
        proof: &[u8],
    ) -> (r: Result<bool, GrandpaFinalityVerificationError>)
        ensures
            match found(block_hash@, *header) {
                Ok(_) => r == Ok::<_, GrandpaFinalityVerificationError>(proof@.len() > 0),
                Err(e) => r matches Err(err) && err@ == e,
            },
    {
        match found_header(block_hash, header) {
            Ok(_) => Ok(proof.len() > 0),
            Err(e) => Err(e),
        }
    }

    /// Puts a new authority set in place of the current one, unless it is not valid.
    pub fn handle_authority_set_update(&mut self, new_set: &AuthorityList, set_id: u64) -> (r:
        Result<(), GrandpaFinalityVerificationError>)
        ensures
            final(self).chain_client() == old(self).chain_client(),
            final(self).verification_params() == old(self).verification_params(),
            final(self).config() == old(self).config(),
            final(self).kept() == old(self).kept(),
            if 0 < grandpa::total_weight(new_set@) <= u64::MAX {
                r is Ok && final(self).voters().describes(new_set@)
            } else {
                &&& r matches Err(e) && e@ == ErrorView::AuthoritySetError(
                    "Failed to create voter set"@,
                )
                &&& final(self).voters() == old(self).voters()
            },
    {
        match Voters::new(new_set) {
            Some(voters) => {
                self.voter_set = voters;
                Ok(())
            },
            None => Err(
                GrandpaFinalityVerificationError::AuthoritySetError(
                    "Failed to create voter set".to_owned(),
                ),
            ),
        }
    }

    /// The best block of the chain.
    pub fn get_chain_head(&self, best_hash: BlockHash, best_number: N) -> (r: BlockRef)
        ensures
            r.hash == best_hash,
            r.number as nat == best_number.as_nat(),
            r.chain_id.id@ == self.config().full_id(),
    {
        BlockRef {
            hash: best_hash,
            number: best_number.to_u64(),
            chain_id: ChainId::new(self.chain_config.get_chain_id().as_str()),
        }
    }

    /// The best block of the chain, read at `timestamp`.
    pub fn get_chain_head_internal(
        &self,
        best_hash: BlockHash,
        best_number: N,
        timestamp: u64,
    ) -> (r: SubstrateBlockRef)
        ensures
            r.inner.hash == best_hash,
            r.inner.number as nat == best_number.as_nat(),
            r.inner.chain_id.id@ == self.config().full_id(),
            r.timestamp == timestamp,
    {
        SubstrateBlockRef { inner: self.get_chain_head(best_hash, best_number), timestamp }
    }

    /// The block number nearest to `value`.
    pub fn u64_to_block_number(&self, value: u64) -> (r: N)
        ensures
            r.as_nat() == number::nearest(value as nat, N::max_nat()),
    {
        N::saturated_from(value)
    }

    /// The block number with 64 bits.
    pub fn block_number_to_u64(&self, value: N) -> (r: u64)
        ensures
            r as nat == value.as_nat(),
    {
        value.to_u64()
    }

    /// Whether the block is known under its number.
    pub fn verify_block_hash(&self, block_ref: &BlockRef, header: &HeaderLookup<N>) -> (r: Result<
        bool,
        FinalityVerificationError,
    >)
        ensures
            answer_text(r) == lookup_answer(*block_ref, *header),
    {
        match found_header(&block_ref.hash, header) {
            Ok(h) => Ok(h.number.to_u64() == N::saturated_from(block_ref.number).to_u64()),
            Err(e) => Err(FinalityVerificationError::from(e)),
        }
    }

    /// What the confidence in a block rests on, from the answers of the chain about it.
    pub fn get_finality_confidence(&self, block_ref: &BlockRef, readings: &ChainReadings<N>) -> (r:
        Result<ConfidenceBasis, FinalityVerificationError>)
        ensures
            match self.status_of(block_ref.hash@, *readings) {
                Ok(s) => r == Ok::<_, FinalityVerificationError>(
                    confidence_basis(s, self.verification_params().min_confirmations),
                ),
                Err(e) => r matches Err(err) && err.0@ == no_status_text(e),
            },
    {
        self.confidence_under(self.get_finality_status(&block_ref.hash, readings))
    }

    /// What the confidence in a block with the given status rests on.
    pub fn confidence_under(
        &self,
        status: Result<FinalityStatus<N>, GrandpaFinalityVerificationError>,
    ) -> (r: Result<ConfidenceBasis, FinalityVerificationError>)
        ensures
            match status {
                Ok(s) => r == Ok::<_, FinalityVerificationError>(
                    confidence_basis(s@, self.verification_params().min_confirmations),
                ),
                Err(e) => r matches Err(err) && err.0@ == no_status_text(e@),
            },
    {
        match status {
            Ok(s) => if s.is_finalized {
                Ok(ConfidenceBasis::Finalized)
            } else {
                let participation = if s.has_justification {
                    Some(
                        JustificationTally {
                            signed_weight: s.signed_weight,
                            total_weight: s.total_weight,
                        },
                    )
                } else {
                    None
                };
                Ok(
                    ConfidenceBasis::Evidence {
                        confirmations: s.confirmations.to_u64(),
                        min_confirmations: self.params.min_confirmations,
                        participation,
                    },
                )
            },
            Err(e) => Err(no_status(e)),
        }
    }

    /// Whether a block meets the rules of the chain, from the answers of the chain about it;
    /// `participation_below` says whether its rate of participation is below the one that the
    /// rules ask for.
    pub fn verify_chain_rules(
        &self,
        block_ref: &BlockRef,
        readings: &ChainReadings<N>,
        best_number: N,
        rules: &ChainRules,
        participation_below: bool,
    ) -> (r: Result<bool, FinalityVerificationError>)
        ensures
            answer_text(r) == rules_answer(
                self.status_of(block_ref.hash@, *readings),
                best_number.as_nat(),
                *rules,
                N::max_nat(),
                participation_below,
            ),
    {
        let status = self.get_finality_status(&block_ref.hash, readings);
        self.rules_met_under(status, best_number, rules, participation_below)
    }

    /// Whether a block with the given status meets the rules of the chain; `participation_below`
    /// says whether its rate of participation is below the one that the rules ask for.
    pub fn rules_met_under(
        &self,
        status: Result<FinalityStatus<N>, GrandpaFinalityVerificationError>,
        best_number: N,
        rules: &ChainRules,
        participation_below: bool,
    ) -> (r: Result<bool, FinalityVerificationError>)
        ensures
            answer_text(r) == rules_answer(
                status_outcome(status),
                best_number.as_nat(),
                *rules,
                N::max_nat(),
                participation_below,
            ),
    {
        let s = match status {
            Ok(s) => s,
            Err(e) => {
                return Err(no_status(e));
            },
        };
        if s.confirmations.to_u64() < N::saturated_from(rules.min_confirmations as u64).to_u64() {
            return Ok(false);
        }
        let fork_depth = saturating_sub(best_number, s.block_number);
        if fork_depth.to_u64() > N::saturated_from(rules.max_fork_depth as u64).to_u64() {
            return Ok(false);
        }
        if s.has_justification && participation_below {
            return Ok(false);
        }
        Ok(true)
    }

    /// The block itself, if the chain knows it.
    pub fn get_block(&self, block_ref: &BlockRef, header: &HeaderLookup<N>) -> (r: Result<
        Block,
        FinalityVerificationError,
    >)
        ensures
            match found(block_ref.hash@, *header) {
                Ok(_) => r == Ok::<_, FinalityVerificationError>(
                    Block { hash: block_ref.hash, number: block_ref.number },
                ),
                Err(e) => r matches Err(err) && err.0@ == e.text(),
            },
    {
        match found_header(&block_ref.hash, header) {
            Ok(_) => Ok(Block { hash: block_ref.hash, number: block_ref.number }),
            Err(e) => Err(FinalityVerificationError::from(e)),
        }
    }

    /// The number of the latest finalized block.
    pub fn get_latest_finalized_block(&self, finalized_number: N) -> (r: u64)
        ensures
            r as nat == finalized_number.as_nat(),
    {
        finalized_number.to_u64()
    }

    /// Whether a proof shows inclusion in a block that is known under its number. `header` is the
    /// answer to the question for the block, and `proof_header` the one to the question that
    /// precedes the reading of the proof.
    pub fn verify_block_inclusion(
        &self,
        block_ref: &BlockRef,
        header: &HeaderLookup<N>,
        proof_header: &HeaderLookup<N>,
        proof: &[u8],
    ) -> (r: Result<bool, FinalityVerificationError>)
        ensures
            match found(block_ref.hash@, *header) {
                Ok(h) => if h.number.as_nat() != number::nearest(
                    block_ref.number as nat,
                    N::max_nat(),
                ) {
                    r == Ok::<_, FinalityVerificationError>(false)
                } else {
                    match found(block_ref.hash@, *proof_header) {
                        Ok(_) => r == Ok::<_, FinalityVerificationError>(proof@.len() > 0),
                        Err(e) => r matches Err(err) && err.0@ == e.text(),
                    }
                },
                Err(e) => r matches Err(err) && err.0@ == e.text(),
            },
    {
        match self.verify_block_hash(block_ref, header) {
            Ok(true) => match self.verify_merkle_proof(&block_ref.hash, proof_header, proof) {
                Ok(included) => Ok(included),
                Err(e) => Err(FinalityVerificationError::from(e)),
            },
            Ok(false) => Ok(false),
            Err(e) => Err(e),
        }
    }
}

/// A verified block.
#[derive(Clone, Copy, Debug)]
pub struct Block {
    pub hash: BlockHash,
    pub number: u64,
}

/// A block that meets the rules also meets laxer ones.
pub proof fn law_laxer_rules_are_met(
    s: StatusView,
    best_number: nat,
    rules: ChainRules,
    laxer: ChainRules,
    max_number: nat,
    participation_below: bool,
)
    requires
        laxer.min_confirmations <= rules.min_confirmations,
        laxer.max_fork_depth >= rules.max_fork_depth,
        meets_rules(s, best_number, rules, max_number, participation_below),
    ensures
        meets_rules(s, best_number, laxer, max_number, participation_below),
{
}

/// The confidence in a block is full exactly where the chain has finalized it, and rests on no
/// confirmations elsewhere.
pub proof fn law_only_final_blocks_have_full_confidence<N: GrandpaNumber>(
    weights: VoterWeights,
    total: nat,
    hash: Seq<u8>,
    readings: ChainReadings<N>,
    min_confirmations: u32,
)
    requires
        established(weights, total, hash, readings) is Ok,
    ensures
        ({
            let s = established(weights, total, hash, readings)->Ok_0;
            let basis = confidence_basis(s, min_confirmations);
            &&& basis is Finalized <==> s.is_finalized
            &&& basis matches ConfidenceBasis::Evidence { confirmations, .. } ==> confirmations == 0
        }),
{
}

/// Where the chain does not say which block it holds at a height, the height alone decides whether
/// a block is final.
pub proof fn law_height_decides_without_an_answer<N: GrandpaNumber>(
    weights: VoterWeights,
    total: nat,
    hash: Seq<u8>,
    readings: ChainReadings<N>,
)
    requires
        readings.canonical is Err,
        established(weights, total, hash, readings) is Ok,
    ensures
        ({
            let s = established(weights, total, hash, readings)->Ok_0;
            let finalized = readings.finalized_number.as_nat();
            &&& s.is_finalized <==> s.block_number <= finalized
            &&& s.confirmations == number::difference(finalized, s.block_number)
        }),
{
}

/// With at least one confirmation asked for, only final blocks meet the rules, and the finalized
/// height is above them by as many blocks as are asked for.
pub proof fn law_only_final_blocks_meet_rules<N: GrandpaNumber>(
    weights: VoterWeights,
    total: nat,
    number: nat,
    finalized: nat,
    on_chain: bool,
    justification: Option<Seq<u8>>,
    best_number: nat,
    rules: ChainRules,
    participation_below: bool,
)
    requires
        rules.min_confirmations > 0,
        N::max_nat() > 0,
        meets_rules(
            status_under::<N>(weights, total, number, finalized, on_chain, justification),
            best_number,
            rules,
            N::max_nat(),
            participation_below,
        ),
    ensures
        status_under::<N>(
            weights,
            total,
            number,
            finalized,
            on_chain,
            justification,
        ).is_finalized,
        number + number::nearest(rules.min_confirmations as nat, N::max_nat()) <= finalized,
{
}

/// A justified block with less participation than the rules ask for never meets them, whatever
/// weight signed.
pub proof fn law_low_participation_never_meets_rules(
    s: StatusView,
    best_number: nat,
    rules: ChainRules,
    max_number: nat,
)
    requires
        s.has_justification,
    ensures
        !meets_rules(s, best_number, rules, max_number, true),
{
}

/// A block meets the rules exactly where it has as many confirmations as they ask for, the best
/// height is within the fork depth, and it is not justified with too little participation. Numbers
/// that the chain cannot express are taken as the largest one.
pub proof fn law_rules_ask_for_depth_and_participation(
    s: StatusView,
    best_number: nat,
    rules: ChainRules,
    max_number: nat,
    participation_below: bool,
)
    ensures
        ({
            let asked = if rules.min_confirmations <= max_number {
                rules.min_confirmations as nat
            } else {
                max_number
            };
            let depth = if rules.max_fork_depth <= max_number {
                rules.max_fork_depth as nat
            } else {
                max_number
            };
            meets_rules(s, best_number, rules, max_number, participation_below) <==> {
                &&& asked <= s.confirmations
                &&& best_number <= s.block_number + depth
                &&& s.has_justification ==> !participation_below
            }
        }),
{
}

/// A lookup gives the header that the chain holds. A block that the chain does not know is named by
/// its hash, and a chain that could not answer by its reason.
pub proof fn law_lookups_give_the_header_or_the_reason<N>(
    hash: Seq<u8>,
    h: BlockHeader<N>,
    reason: String,
)
    ensures
        found(hash, Ok(Some(h))) == Ok::<BlockHeader<N>, ErrorView>(h),
        found(hash, Ok(None::<BlockHeader<N>>)) == Err::<BlockHeader<N>, _>(
            ErrorView::BlockNotFound("0x"@ + text::hex(hash)),
        ),
        found(hash, Err::<Option<BlockHeader<N>>, String>(reason)) == Err::<BlockHeader<N>, _>(
            ErrorView::ChainError("Failed to get header: "@ + reason@),
        ),
{
}

/// The justification of a block is the first one under the identifier of GRANDPA, and none where no
/// justification is under it.
pub proof fn law_justifications_are_found_by_engine(list: Justifications, k: int)
    ensures
        grandpa_justification(None) is None,
        0 <= k < list@.len() && list@[k].0@ == seq![0x46u8, 0x52, 0x4e, 0x4b] && (forall|j: int|
            0 <= j < k ==> (#[trigger] list@[j]).0@ != seq![0x46u8, 0x52, 0x4e, 0x4b])
            ==> grandpa_justification(Some(list)) == Some(list@[k].1@),
        (forall|j: int|
            0 <= j < list@.len() ==> (#[trigger] list@[j]).0@ != seq![0x46u8, 0x52, 0x4e, 0x4b])
            ==> grandpa_justification(Some(list)) is None,
{
    let engine = seq![0x46u8, 0x52, 0x4e, 0x4b];
    assert(GRANDPA_ENGINE_ID@ =~= engine);
    if 0 <= k < list@.len() && list@[k].0@ == engine && (forall|j: int|
        0 <= j < k ==> (#[trigger] list@[j]).0@ != engine) {
        grandpa::law_first_entry_of_the_engine_counts(list@, engine, k);
    }
    if forall|j: int| 0 <= j < list@.len() ==> (#[trigger] list@[j]).0@ != engine {
        grandpa::law_no_entry_no_justification(list@, engine);
    }
}

/// Only an answer speaks against a block: that the chain holds another one at its height, or none.
pub proof fn law_only_an_answer_speaks_against_a_block(
    hash: Seq<u8>,
    held: BlockHash,
    reason: String,
)
    ensures
        is_canonical(hash, Ok(Some(held))) <==> held@ == hash,
        !is_canonical(hash, Ok(None)),
        is_canonical(hash, Err(reason)),
{
}

/// The status of a known block follows from what the chain answers: its own number, the finalized
/// height where the chain does not hold another block in its place, whether it is justified and, where
/// the justification can be read, the weight that its voters signed out of the weight of all.
pub proof fn law_status_follows_from_the_answers<N: GrandpaNumber>(
    weights: VoterWeights,
    total: nat,
    hash: Seq<u8>,
    readings: ChainReadings<N>,
    h: BlockHeader<N>,
    justifications: Option<Justifications>,
)
    requires
        readings.header == Ok::<_, String>(Some(h)),
        readings.justifications == Ok::<_, String>(justifications),
    ensures
        established(weights, total, hash, readings) matches Ok(s) && {
            let held = readings.canonical is Err || (readings.canonical matches Ok(Some(c)) && c@
                == hash);
            let finalized = readings.finalized_number.as_nat();
            let bytes = grandpa_justification(justifications);
            &&& s.block_number == h.number.as_nat()
            &&& held && h.number.as_nat() <= finalized ==> s.is_finalized && s.block_number
                + s.confirmations == finalized
            &&& !held || h.number.as_nat() > finalized ==> !s.is_finalized && s.confirmations == 0
            &&& s.has_justification <==> bytes is Some
            &&& bytes is Some && N::decoded_justification(bytes->0) is Some ==> {
                let j = N::decoded_justification(bytes->0)->0;
                let signed = voters::signed_weight::<N>(weights, j.3);
                &&& s.total_weight == total
                &&& signed <= u64::MAX ==> s.signed_weight == signed
                &&& signed > u64::MAX ==> s.signed_weight == u64::MAX
            }
            &&& bytes is None || N::decoded_justification(bytes->0) is None ==> s.signed_weight
                == 0 && s.total_weight == 0
        },
{
}

/// Without a header, or without an answer about justifications, there is no status, and the error
/// says which question failed and why.
pub proof fn law_no_status_without_answers<N: GrandpaNumber>(
    weights: VoterWeights,
    total: nat,
    hash: Seq<u8>,
    readings: ChainReadings<N>,
)
    ensures
        readings.header matches Err(reason) ==> established(weights, total, hash, readings) == Err::<
            StatusView,
            _,
        >(ErrorView::ChainError("Failed to get header: "@ + reason@)),
        readings.header matches Ok(None) ==> established(weights, total, hash, readings) == Err::<
            StatusView,
            _,
        >(ErrorView::BlockNotFound("0x"@ + text::hex(hash))),
        readings.header matches Ok(Some(_)) ==> (readings.justifications matches Err(reason)
            ==> established(weights, total, hash, readings) == Err::<StatusView, _>(
            ErrorView::ChainError("Failed to get justification: "@ + reason@),
        )),
{
}

/// The justification that can be read is the one under the identifier of GRANDPA, decoded for the
/// width of the block numbers.
pub proof fn law_readable_justifications_are_decoded<N: GrandpaNumber>(readings: ChainReadings<N>)
    ensures
        readings.justifications is Err ==> readable_justification(readings) is None,
        readings.justifications matches Ok(list) ==> {
            &&& grandpa_justification(list) is None ==> readable_justification(readings) is None
            &&& grandpa_justification(list) matches Some(bytes) ==> readable_justification(readings)
                == N::decoded_justification(bytes)
        },
{
}

/// The confidence in a block that is not final rests on its own confirmations, those that are asked
/// for and, where it is justified, the weight that signed out of the weight of all voters.
pub proof fn law_evidence_is_taken_from_the_status(s: StatusView, min_confirmations: u32)
    requires
        s.confirmations <= u64::MAX,
        s.signed_weight <= u64::MAX,
        s.total_weight <= u64::MAX,
    ensures
        s.is_finalized ==> confidence_basis(s, min_confirmations) == ConfidenceBasis::Finalized,
        !s.is_finalized ==> (confidence_basis(s, min_confirmations) matches
            ConfidenceBasis::Evidence { confirmations, min_confirmations: asked, participation } && {
            &&& confirmations == s.confirmations
            &&& asked == min_confirmations
            &&& participation is Some <==> s.has_justification
            &&& participation matches Some(tally) ==> tally.signed_weight == s.signed_weight
                && tally.total_weight == s.total_weight
        }),
{
}

/// A block is known under its number exactly where the header that the chain holds for its hash has
/// that number. A number that the chain cannot express is taken as the largest one.
pub proof fn law_blocks_are_known_by_number<N: BlockNumber>(
    block_ref: BlockRef,
    h: BlockHeader<N>,
    reason: String,
)
    ensures
        block_ref.number <= N::max_nat() ==> lookup_answer(block_ref, Ok(Some(h))) == Ok::<
            bool,
            Seq<char>,
        >(h.number.as_nat() == block_ref.number),
        block_ref.number > N::max_nat() ==> lookup_answer(block_ref, Ok(Some(h))) == Ok::<
            bool,
            Seq<char>,
        >(h.number.as_nat() == N::max_nat()),
        lookup_answer(block_ref, Ok(None::<BlockHeader<N>>)) == Err::<bool, _>(
            "Block not found: "@ + ("0x"@ + text::hex(block_ref.hash@)),
        ),
        lookup_answer(block_ref, Err::<Option<BlockHeader<N>>, String>(reason)) == Err::<bool, _>(
            "Chain error: "@ + ("Failed to get header: "@ + reason@),
        ),
{
}

/// Rules are answered by the status of the block; without a status the answer is the reason, marked
/// as an error of the consensus.
pub proof fn law_rules_are_answered_by_the_status(
    s: StatusView,
    e: ErrorView,
    best_number: nat,
    rules: ChainRules,
    max_number: nat,
    participation_below: bool,
)
    ensures
        rules_answer(Ok(s), best_number, rules, max_number, participation_below) == Ok::<
            bool,
            Seq<char>,
        >(meets_rules(s, best_number, rules, max_number, participation_below)),
        rules_answer(Err(e), best_number, rules, max_number, participation_below) == Err::<bool, _>(
            "Consensus error: "@ + e.text(),
        ),
        no_status_text(e) == "Consensus error: "@ + e.text(),
{
}

/// Answers and statuses are compared as they are, and errors by what they say.
pub proof fn law_outcomes_are_compared_as_they_are<N: BlockNumber>(
    b: bool,
    e: FinalityVerificationError,
    s: FinalityStatus<N>,
    error: GrandpaFinalityVerificationError,
)
    ensures
        answer_text(Ok(b)) == Ok::<bool, Seq<char>>(b),
        answer_text(Err(e)) == Err::<bool, _>(e.0@),
        status_outcome::<N>(Ok(s)) == Ok::<StatusView, ErrorView>(s@),
        status_outcome::<N>(Err(error)) == Err::<StatusView, _>(error@),
{
}

/// A client judges blocks by its own voters.
pub proof fn law_clients_judge_by_their_own_voters<C, N: GrandpaNumber>(
    verifier: SubstrateVerificationClient<C, N>,
    hash: Seq<u8>,
    readings: ChainReadings<N>,
)
    ensures
        verifier.status_of(hash, readings) == established(
            verifier.voters().weights(),
            verifier.voters().total(),
            hash,
            readings,
        ),
{
}

/// A block that was read at some time is the block itself.
pub proof fn law_read_blocks_are_the_blocks(block: SubstrateBlockRef)
    ensures
        <BlockRef as FromSpec<SubstrateBlockRef>>::obeys_from_spec(),
        BlockRef::from_spec(block) == block.inner,
{
}

} // verus!
