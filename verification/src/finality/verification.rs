//! Verification that records the whole voting round: a precommit counts where it is valid, with the
//! weight under which the authority list first names its author.

use std::sync::Arc;

use vstd::prelude::*;

use crate::finality::authority::AuthoritySet;
use crate::finality::client;
use crate::finality::client::{holds, BlockHeader, HeaderLookup};
use crate::finality::config::{ChainRules, GrandpaVerificationParams};
use crate::finality::status;
use crate::finality::status::{count_confirmations, FinalityCache, VotingRoundInfo};
use crate::finality::voters;
use crate::grandpa;
use crate::grandpa::{
    AuthorityId, AuthorityList, BlockHash, Commit, GrandpaJustification, PrecommitView,
    SignedPrecommit,
};
use crate::number;
use crate::number::{saturating_sub, BlockNumber, GrandpaNumber};
use crate::state::BlockRef;
use crate::store::{same_hash, Stamped};
use crate::text;
use crate::text::joined;
use crate::trusted;
use crate::trusted::{debug_hash, verify_ed25519};

verus! {

/// Why a block could not be verified.
#[derive(Debug)]
pub enum FinalityVerificationError {
    ChainError(String),
    BlockNotFound(String),
}

/// What a verification error says.
pub enum VerificationErrorView {
    ChainError(Seq<char>),
    BlockNotFound(Seq<char>),
}

impl View for FinalityVerificationError {
    type V = VerificationErrorView;

    open spec fn view(&self) -> VerificationErrorView {
        match self {
            FinalityVerificationError::ChainError(m) => VerificationErrorView::ChainError(m@),
            FinalityVerificationError::BlockNotFound(m) => VerificationErrorView::BlockNotFound(m@),
        }
    }
}

/// The finality status of a block together with the voting behind it. The rate of participation,
/// which is also the voting power, is `valid_weight` out of `total_weight`, and zero where both
/// are zero.
#[derive(Debug)]
pub struct FinalityStatus<N> {
    /// Block number.
    pub block_number: N,
    /// Number of confirmations.
    pub confirmations: N,
    /// Whether the block has a justification.
    pub has_justification: bool,
    /// Whether the block is finalized by the chain.
    pub is_finalized: bool,
    /// Weight of the precommits of the justification that count.
    pub valid_weight: u64,
    /// Weight of all authorities, where there is a justification.
    pub total_weight: u64,
    /// Number of valid signatures in the justification.
    pub valid_signatures: u32,
    /// Total number of authorities.
    pub total_authorities: u32,
}

impl<N: Copy> Copy for FinalityStatus<N> {

}

impl<N: Copy> Clone for FinalityStatus<N> {
    fn clone(&self) -> (r: Self)
        ensures
            r == *self,
    {
        *self
    }
}

/// What a finality status says.
pub struct RoundStatusView {
    pub block_number: nat,
    pub confirmations: nat,
    pub has_justification: bool,
    pub is_finalized: bool,
    pub valid_weight: nat,
    pub total_weight: nat,
    pub valid_signatures: u32,
    pub total_authorities: u32,
}

impl<N: BlockNumber> View for FinalityStatus<N> {
    type V = RoundStatusView;

    open spec fn view(&self) -> RoundStatusView {
        RoundStatusView {
            block_number: self.block_number.as_nat(),
            confirmations: self.confirmations.as_nat(),
            has_justification: self.has_justification,
            is_finalized: self.is_finalized,
            valid_weight: self.valid_weight as nat,
            total_weight: self.total_weight as nat,
            valid_signatures: self.valid_signatures,
            total_authorities: self.total_authorities,
        }
    }
}

/// The weight under which `list` first names `id`, if it does.
pub open spec fn listed_weight(list: Seq<(AuthorityId, u64)>, id: Seq<u8>) -> Option<u64>
    decreases list.len(),
{
    if list.len() == 0 {
        None
    } else if list[0].0@ == id {
        Some(list[0].1)
    } else {
        listed_weight(list.drop_first(), id)
    }
}

/// Whether a precommit is valid in a commit for the given block: it targets that block and, under
/// strict verification, carries its author's signature.
pub open spec fn is_valid_vote<N: GrandpaNumber>(
    target_hash: Seq<u8>,
    target_number: nat,
    strict: bool,
    vote: PrecommitView,
) -> bool {
    &&& vote.0 == target_hash
    &&& vote.1 == target_number
    &&& strict ==> voters::vote_valid::<N>(vote)
}

/// The weight that one precommit contributes to a commit for the given block.
pub open spec fn counted_weight<N: GrandpaNumber>(
    list: Seq<(AuthorityId, u64)>,
    target_hash: Seq<u8>,
    target_number: nat,
    strict: bool,
    vote: PrecommitView,
) -> nat {
    match listed_weight(list, vote.3) {
        Some(weight) if is_valid_vote::<N>(target_hash, target_number, strict, vote) => {
            weight as nat
        },
        _ => 0,
    }
}

/// The weight that the precommits of a commit for the given block contribute.
pub open spec fn commit_weight<N: GrandpaNumber>(
    list: Seq<(AuthorityId, u64)>,
    target_hash: Seq<u8>,
    target_number: nat,
    strict: bool,
    votes: Seq<PrecommitView>,
) -> nat
    decreases votes.len(),
{
    if votes.len() == 0 {
        0
    } else {
        commit_weight::<N>(list, target_hash, target_number, strict, votes.drop_last())
            + counted_weight::<N>(list, target_hash, target_number, strict, votes.last())
    }
}

/// Whether a precommit counts: it comes from an authority and is valid.
pub open spec fn is_counted<N: GrandpaNumber>(
    list: Seq<(AuthorityId, u64)>,
    target_hash: Seq<u8>,
    target_number: nat,
    strict: bool,
    vote: PrecommitView,
) -> bool {
    listed_weight(list, vote.3) is Some && is_valid_vote::<N>(
        target_hash,
        target_number,
        strict,
        vote,
    )
}

/// How many precommits of a commit for the given block count.
pub open spec fn counted_votes<N: GrandpaNumber>(
    list: Seq<(AuthorityId, u64)>,
    target_hash: Seq<u8>,
    target_number: nat,
    strict: bool,
    votes: Seq<PrecommitView>,
) -> nat
    decreases votes.len(),
{
    if votes.len() == 0 {
        0
    } else {
        counted_votes::<N>(list, target_hash, target_number, strict, votes.drop_last())
            + if is_counted::<N>(list, target_hash, target_number, strict, votes.last()) {
            1nat
        } else {
            0
        }
    }
}

/// Whether the weights of an authority list and of a justification fit 64 bits.
pub open spec fn weights_fit<N: GrandpaNumber>(
    list: Seq<(AuthorityId, u64)>,
    strict: bool,
    justification: grandpa::JustificationView,
) -> bool {
    &&& grandpa::total_weight(list) <= u64::MAX
    &&& commit_weight::<N>(list, justification.1, justification.2, strict, justification.3)
        <= u64::MAX
}

/// The status of block `number` once the chain has finalized block `finalized`, under the given
/// authorities and with the given justification, if it can be read. `on_chain` says whether the
/// block is the one that the chain holds at its height.
pub open spec fn round_status<N: GrandpaNumber>(
    list: Seq<(AuthorityId, u64)>,
    strict: bool,
    number: nat,
    finalized: nat,
    on_chain: bool,
    has_justification: bool,
    justification: Option<grandpa::JustificationView>,
) -> RoundStatusView {
    let base = RoundStatusView {
        block_number: number,
        confirmations: status::confirmations(number, finalized, on_chain),
        has_justification,
        is_finalized: number <= finalized && on_chain,
        valid_weight: 0,
        total_weight: 0,
        valid_signatures: 0,
        total_authorities: list.len() as u32,
    };
    match justification {
        Some(j) => RoundStatusView {
            valid_weight: commit_weight::<N>(list, j.1, j.2, strict, j.3),
            total_weight: grandpa::total_weight(list),
            valid_signatures: counted_votes::<N>(list, j.1, j.2, strict, j.3) as u32,
            ..base
        },
        None => base,
    }
}

/// The justification that encoded bytes hold, if there are any.
pub open spec fn decoded<N: GrandpaNumber>(bytes: Option<Vec<u8>>) -> Option<
    grandpa::JustificationView,
> {
    match bytes {
        Some(b) => N::decoded_justification(b@),
        None => None,
    }
}

/// The answers of the chain that the finality status of a block rests on.
#[derive(Debug)]
pub struct RoundReadings<N> {
    pub header: HeaderLookup<N>,
    pub finalized_number: N,
    /// The hash of the block that the chain holds at the height of the header.
    pub canonical: Result<Option<BlockHash>, String>,
    pub justification: Result<Option<Vec<u8>>, String>,
}

/// The header that a lookup found, or why there is none; `missing` is the message for a block
/// that the chain does not know.
pub open spec fn found<N>(missing: Seq<char>, header: HeaderLookup<N>) -> Result<
    BlockHeader<N>,
    VerificationErrorView,
> {
    match header {
        Err(reason) => Err(
            VerificationErrorView::ChainError("Failed to get header: "@ + reason@),
        ),
        Ok(None) => Err(VerificationErrorView::BlockNotFound(missing)),
        Ok(Some(h)) => Ok(h),
    }
}

/// The message for a block without a status, as the chain does not know it.
pub open spec fn missing_text(hash: Seq<u8>) -> Seq<char> {
    "Block not found: "@ + ("0x"@ + text::hex(hash))
}

/// The finality status that follows from the answers of the chain, or why there is none.
pub open spec fn established<N: GrandpaNumber>(
    list: Seq<(AuthorityId, u64)>,
    strict: bool,
    hash: Seq<u8>,
    readings: RoundReadings<N>,
) -> Result<RoundStatusView, VerificationErrorView> {
    match found(missing_text(hash), readings.header) {
        Err(e) => Err(e),
        Ok(header) => match readings.justification {
            Err(reason) => Err(
                VerificationErrorView::ChainError("Failed to get justification: "@ + reason@),
            ),
            Ok(bytes) => Ok(
                round_status::<N>(
                    list,
                    strict,
                    header.number.as_nat(),
                    readings.finalized_number.as_nat(),
                    client::is_canonical(hash, readings.canonical),
                    bytes is Some,
                    decoded::<N>(bytes),
                ),
            ),
        },
    }
}

/// Whether the status that follows from the answers of the chain fits its fields.
pub open spec fn can_establish<N: GrandpaNumber>(
    list: Seq<(AuthorityId, u64)>,
    strict: bool,
    hash: Seq<u8>,
    readings: RoundReadings<N>,
) -> bool {
    match (found(missing_text(hash), readings.header), readings.justification) {
        (Ok(_), Ok(bytes)) => decoded::<N>(bytes) matches Some(j) ==> weights_fit::<N>(
            list,
            strict,
            j,
        ),
        _ => true,
    }
}

/// What the confidence in a block with the given status rests on, where so many confirmations are
/// asked for; `participation_reached` says whether its rate of participation is at least the one
/// that is asked for.
pub open spec fn confidence_basis(
    s: RoundStatusView,
    min_confirmations: u32,
    participation_reached: bool,
) -> ConfidenceBasis {
    if s.is_finalized {
        ConfidenceBasis::Finalized
    } else if s.has_justification && participation_reached {
        ConfidenceBasis::Justified
    } else {
        ConfidenceBasis::Confirmations {
            confirmations: number::nearest(s.confirmations, u32::MAX as nat) as u32,
            min_confirmations,
        }
    }
}

/// Whether a block with the given status has the confirmations and the fork depth that the rules
/// of the chain ask for.
pub open spec fn is_deep_enough(s: RoundStatusView, best_number: nat, rules: ChainRules) -> bool {
    &&& number::nearest(s.confirmations, u32::MAX as nat) >= rules.min_confirmations
    &&& number::nearest(
        number::difference(best_number, s.block_number),
        u32::MAX as nat,
    ) <= rules.max_fork_depth
}

/// Whether a block with the given status meets the rules of the chain, or why that could not be
/// answered: confirmations, fork depth, confidence and, of a justified block, participation.
pub open spec fn rules_answer(
    s: RoundStatusView,
    best_number: nat,
    rules: ChainRules,
    confidence_below: Result<bool, FinalityVerificationError>,
    participation_below: bool,
) -> Result<bool, VerificationErrorView> {
    if !is_deep_enough(s, best_number, rules) {
        Ok(false)
    } else {
        match confidence_below {
            Err(e) => Err(e@),
            Ok(below) => Ok(!below && !(s.has_justification && participation_below)),
        }
    }
}

/// The answer to a question about a block, as far as it can be compared.
pub open spec fn answer_view(answer: Result<bool, FinalityVerificationError>) -> Result<
    bool,
    VerificationErrorView,
> {
    match answer {
        Ok(b) => Ok(b),
        Err(e) => Err(e@),
    }
}

/// The outcome of establishing a status, as far as it can be compared.
pub open spec fn status_outcome<N: BlockNumber>(
    outcome: Result<FinalityStatus<N>, FinalityVerificationError>,
) -> Result<RoundStatusView, VerificationErrorView> {
    match outcome {
        Ok(s) => Ok(s@),
        Err(e) => Err(e@),
    }
}

fn found_header<N: Copy>(missing: String, header: &HeaderLookup<N>) -> (r: Result<
    BlockHeader<N>,
    FinalityVerificationError,
>)
    ensures
        match found(missing@, *header) {
            Ok(h) => r == Ok::<_, FinalityVerificationError>(h),
            Err(e) => r matches Err(err) && err@ == e,
        },
{
    match header {
        Err(reason) => Err(
            FinalityVerificationError::ChainError(
                joined("Failed to get header: ", reason.as_str()),
            ),
        ),
        Ok(None) => Err(FinalityVerificationError::BlockNotFound(missing)),
        Ok(Some(h)) => Ok(*h),
    }
}

/// What the confidence in the finality of a block rests on.
#[derive(Clone, Copy, Debug, PartialEq, Eq, Structural)]
pub enum ConfidenceBasis {
    /// The chain has finalized the block: full confidence.
    Finalized,
    /// The block is justified with enough participation: high confidence.
    Justified,
    /// Confirmations out of those asked for.
    Confirmations { confirmations: u32, min_confirmations: u32 },
}

/// A verified block with what is known of its contents.
#[derive(Debug)]
pub struct Block {
    pub hash: BlockHash,
    pub number: u64,
    pub parent_hash: BlockHash,
    pub timestamp: u64,
    pub transactions: u32,
    pub substrate_header: Vec<u8>,
    pub extrinsics_count: usize,
}

/// Verifies blocks by the answers of a chain client `C` with block numbers `N`.
pub struct SubstrateVerificationClient<C, N> {
    client: Arc<C>,
    authority_set: Arc<AuthoritySet<BlockHash, N>>,
    params: GrandpaVerificationParams,
    finality_cache: FinalityCache<FinalityStatus<N>>,
}

proof fn lemma_total_weight_prefix(list: Seq<(AuthorityId, u64)>, n: int)
    requires
        0 <= n <= list.len(),
    ensures
        grandpa::total_weight(list.take(n)) <= grandpa::total_weight(list),
    decreases list.len() - n,
{
    if n == list.len() {
        assert(list.take(n) =~= list);
    } else {
        lemma_total_weight_prefix(list, n + 1);
        assert(list.take(n + 1).drop_last() =~= list.take(n));
    }
}

proof fn lemma_commit_weight_prefix<N: GrandpaNumber>(
    list: Seq<(AuthorityId, u64)>,
    target_hash: Seq<u8>,
    target_number: nat,
    strict: bool,
    votes: Seq<PrecommitView>,
    n: int,
)
    requires
        0 <= n <= votes.len(),
    ensures
        commit_weight::<N>(list, target_hash, target_number, strict, votes.take(n))
            <= commit_weight::<N>(list, target_hash, target_number, strict, votes),
    decreases votes.len() - n,
{
    if n == votes.len() {
        assert(votes.take(n) =~= votes);
    } else {
        lemma_commit_weight_prefix::<N>(list, target_hash, target_number, strict, votes, n + 1);
        assert(votes.take(n + 1).drop_last() =~= votes.take(n));
    }
}

/// The weight of all authorities, if it fits.
fn checked_total(list: &AuthorityList) -> (r: Option<u64>)
    ensures
        r is Some <==> grandpa::total_weight(list@) <= u64::MAX,
        r matches Some(total) ==> total as nat == grandpa::total_weight(list@),
{
    let mut total: u64 = 0;
    let mut i: usize = 0;
    assert(list@.take(0) =~= Seq::empty());
    while i < list.len()
        invariant
            i <= list@.len(),
            total as nat == grandpa::total_weight(list@.take(i as int)),
        decreases list@.len() - i,
    {
        proof {
            assert(list@.take(i + 1).drop_last() =~= list@.take(i as int));
            lemma_total_weight_prefix(list@, i + 1);
        }
        match total.checked_add(list[i].1) {
            Some(sum) => {
                total = sum;
            },
            None => {
                return None;
            },
        }
        i += 1;
    }
    assert(list@.take(i as int) =~= list@);
    Some(total)
}

/// The weight under which a list first names an authority, if it does.
fn find_weight(list: &AuthorityList, id: &AuthorityId) -> (r: Option<u64>)
    ensures
        r == listed_weight(list@, id@),
{
    let mut i: usize = 0;
    assert(list@.skip(0) =~= list@);
    while i < list.len()
        invariant
            i <= list@.len(),
            listed_weight(list@, id@) == listed_weight(list@.skip(i as int), id@),
        decreases list@.len() - i,
    {
        let ghost rest = list@.skip(i as int);
        assert(rest[0] == list@[i as int]);
        assert(rest.drop_first() =~= list@.skip(i + 1));
        if same_hash(&list[i].0, id) {
            return Some(list[i].1);
        }
        i += 1;
    }
    None
}

impl<C, N: GrandpaNumber> SubstrateVerificationClient<C, N> {
    /// The chain client.
    pub closed spec fn chain_client(&self) -> Arc<C> {
        self.client
    }

    /// The authorities.
    pub closed spec fn authorities(&self) -> Seq<(AuthorityId, u64)> {
        self.authority_set.authorities@
    }

    /// The parameters.
    pub closed spec fn verification_params(&self) -> GrandpaVerificationParams {
        self.params
    }

    /// The statuses that are kept.
    pub closed spec fn kept(&self) -> Map<Seq<u8>, Stamped<FinalityStatus<N>>> {
        self.finality_cache@
    }

    /// The status of a block at `now`: a fresh kept one, or else the one that follows from the
    /// answers of the chain; none where a weight would not fit 64 bits.
    pub open spec fn current_status(
        &self,
        hash: Seq<u8>,
        now: u128,
        readings: RoundReadings<N>,
    ) -> Option<Result<RoundStatusView, VerificationErrorView>> {
        match status::served(self.kept(), hash, now) {
            Some(s) => Some(Ok(s@)),
            None => if can_establish(self.authorities(), self.strict(), hash, readings) {
                Some(established(self.authorities(), self.strict(), hash, readings))
            } else {
                None
            },
        }
    }

    /// Whether `after` is this client after the status of a block was asked for at `now`: a new
    /// status is kept, and nothing else changed.
    pub open spec fn has_looked_up(
        &self,
        after: Self,
        hash: Seq<u8>,
        now: u128,
        readings: RoundReadings<N>,
    ) -> bool {
        &&& after.chain_client() == self.chain_client()
        &&& after.authorities() == self.authorities()
        &&& after.verification_params() == self.verification_params()
        &&& match (
            status::served(self.kept(), hash, now),
            self.current_status(hash, now, readings),
        ) {
            (None, Some(Ok(view))) => exists|s: FinalityStatus<N>|
                s@ == view && after.kept() == #[trigger] status::recorded(
                    self.kept(),
                    hash,
                    s,
                    now,
                ),
            _ => after.kept() == self.kept(),
        }
    }

    /// A client that keeps no status yet.
    pub fn new(
        client: Arc<C>,
        authority_set: Arc<AuthoritySet<BlockHash, N>>,
        params: GrandpaVerificationParams,
    ) -> (r: Self)
        ensures
            r.chain_client() == client,
            r.authorities() == authority_set.authorities@,
            r.verification_params() == params,
            r.kept() == Map::<Seq<u8>, Stamped<FinalityStatus<N>>>::empty(),
    {
        SubstrateVerificationClient {
            client,
            authority_set,
            params,
            finality_cache: FinalityCache::new(),
        }
    }

    /// The chain client.
    pub fn client(&self) -> (r: &Arc<C>)
        ensures
            *r == self.chain_client(),
    {
        &self.client
    }

    /// Whether signatures are verified strictly.
    pub open spec fn strict(&self) -> bool {
        self.verification_params().strict_signature_verification
    }

    /// Whether a precommit is valid: it targets the block of its commit and, under strict
    /// verification, carries its author's signature.
    pub fn verify_precommit(&self, precommit: &SignedPrecommit<N>, commit: &Commit<N>) -> (r: bool)
        ensures
            r == is_valid_vote::<N>(
                commit.target_hash@,
                commit.target_number.as_nat(),
                self.strict(),
                precommit@,
            ),
    {
        if !same_hash(&precommit.target_hash, &commit.target_hash) {
            return false;
        }
        if precommit.target_number.to_u64() != commit.target_number.to_u64() {
            return false;
        }
        if self.params.strict_signature_verification {
            if !self.verify_signature_cryptographically(precommit) {
                return false;
            }
        }
        true
    }

    /// Whether a precommit carries its author's signature over the vote.
    pub fn verify_signature_cryptographically(&self, precommit: &SignedPrecommit<N>) -> (r: bool)
        ensures
            r == voters::vote_valid::<N>(precommit@),
    {
        let message = N::encode_precommit(&precommit.target_hash, precommit.target_number);
        verify_ed25519(&precommit.signature, message.as_slice(), &precommit.id)
    }

    /// The weight of the precommits of a commit that count, if it fits.
    fn checked_commit_weight(&self, justification: &GrandpaJustification<N>) -> (r: Option<u64>)
        ensures
            ({
                let j = justification@;
                let weight = commit_weight::<N>(self.authorities(), j.1, j.2, self.strict(), j.3);
                &&& r is Some <==> weight <= u64::MAX
                &&& r matches Some(w) ==> w as nat == weight
            }),
    {
        let list = self.authority_set.current_authorities();
        let commit = &justification.commit;
        let count: usize = commit.precommits.len();
        let ghost votes = justification@.3;
        let ghost target = (justification@.1, justification@.2);
        let mut signed: u64 = 0;
        let mut i: usize = 0;
        assert(votes.take(0) =~= Seq::empty());
        while i < count
            invariant
                commit == justification.commit,
                count == commit.precommits@.len(),
                votes == justification@.3,
                target == (justification@.1, justification@.2),
                list@ == self.authorities(),
                i <= count,
                signed as nat == commit_weight::<N>(
                    list@,
                    target.0,
                    target.1,
                    self.strict(),
                    votes.take(i as int),
                ),
            decreases count - i,
        {
            let precommit = &commit.precommits[i];
            proof {
                let next = votes.take(i + 1);
                assert(next.drop_last() =~= votes.take(i as int));
                assert(next.last() == precommit@);
                lemma_commit_weight_prefix::<N>(
                    list@,
                    target.0,
                    target.1,
                    self.strict(),
                    votes,
                    i + 1,
                );
            }
            if let Some(weight) = find_weight(list, &precommit.id) {
                if self.verify_precommit(precommit, commit) {
                    match signed.checked_add(weight) {
                        Some(sum) => {
                            signed = sum;
                        },
                        None => {
                            return None;
                        },
                    }
                }
            }
            i += 1;
        }
        assert(votes.take(count as int) =~= votes);
        Some(signed)
    }

    /// How many precommits of a justification count.
    pub fn valid_signatures(&self, justification: &GrandpaJustification<N>) -> (r: usize)
        ensures
            r as nat == counted_votes::<N>(
                self.authorities(),
                justification@.1,
                justification@.2,
                self.strict(),
                justification@.3,
            ),
            r <= justification@.3.len(),
    {
        let list = self.authority_set.current_authorities();
        let commit = &justification.commit;
        let count: usize = commit.precommits.len();
        let ghost votes = justification@.3;
        let ghost target = (justification@.1, justification@.2);
        let mut valid: usize = 0;
        let mut i: usize = 0;
        assert(votes.take(0) =~= Seq::empty());
        while i < count
            invariant
                commit == justification.commit,
                count == commit.precommits@.len(),
                votes == justification@.3,
                target == (justification@.1, justification@.2),
                list@ == self.authorities(),
                valid <= i <= count,
                valid as nat == counted_votes::<N>(
                    list@,
                    target.0,
                    target.1,
                    self.strict(),
                    votes.take(i as int),
                ),
            decreases count - i,
        {
            let precommit = &commit.precommits[i];
            proof {
                let next = votes.take(i + 1);
                assert(next.drop_last() =~= votes.take(i as int));
                assert(next.last() == precommit@);
            }
            if find_weight(list, &precommit.id).is_some() && self.verify_precommit(
                precommit,
                commit,
            ) {
                valid += 1;
            }
            i += 1;
        }
        assert(votes.take(count as int) =~= votes);
        valid
    }

    /// The voting round of a justification: its target, the number of precommits, and the weight
    /// of those that count out of the weight of all authorities.
    pub fn verify_justification(&self, justification: &GrandpaJustification<N>) -> (r:
        VotingRoundInfo)
        requires
            weights_fit::<N>(self.authorities(), self.strict(), justification@),
        ensures
            r.round == justification@.0,
            r.set_id == self.verification_params().set_id,
            r.target_hash@ == justification@.1,
            r.target_number as nat == justification@.2,
            r.precommit_count == justification@.3.len() as u32,
            r.total_weight as nat == grandpa::total_weight(self.authorities()),
            r.valid_weight as nat == commit_weight::<N>(
                self.authorities(),
                justification@.1,
                justification@.2,
                self.strict(),
                justification@.3,
            ),
    {
        let total_weight: u64 = match checked_total(self.authority_set.current_authorities()) {
            Some(total) => total,
            None => 0,
        };
        let valid_weight: u64 = match self.checked_commit_weight(justification) {
            Some(weight) => weight,
            None => 0,
        };
        VotingRoundInfo {
            round: justification.round,
            set_id: self.params.set_id,
            target_hash: justification.commit.target_hash,
            target_number: justification.commit.target_number.to_u64(),
            precommit_count: #[verifier::truncate] (justification.commit.precommits.len() as u32),
            total_weight,
            valid_weight,
        }
    }

    /// The status of block `number` once the chain has finalized block `finalized`, with the
    /// given justification, if it can be read. `on_chain` says whether the block is the one that
    /// the chain holds at its height.
    pub fn status_with(
        &self,
        number: N,
        finalized: N,
        on_chain: bool,
        has_justification: bool,
        justification: Option<&GrandpaJustification<N>>,
    ) -> (r: FinalityStatus<N>)
        requires
            justification matches Some(j) ==> weights_fit::<N>(
                self.authorities(),
                self.strict(),
                j@,
            ),
        ensures
            r@ == round_status::<N>(
                self.authorities(),
                self.strict(),
                number.as_nat(),
                finalized.as_nat(),
                on_chain,
                has_justification,
                match justification {
                    Some(j) => Some(j@),
                    None => None,
                },
            ),
    {
        let mut s = FinalityStatus {
            block_number: number,
            confirmations: count_confirmations(number, finalized, on_chain),
            has_justification,
            is_finalized: number.to_u64() <= finalized.to_u64() && on_chain,
            valid_weight: 0,
            total_weight: 0,
            valid_signatures: 0,
            total_authorities: #[verifier::truncate] (
            self.authority_set.current_authorities().len() as u32),
        };
        if let Some(j) = justification {
            let info = self.verify_justification(j);
            s.valid_weight = info.valid_weight;
            s.total_weight = info.total_weight;
            s.valid_signatures = #[verifier::truncate] (self.valid_signatures(j) as u32);
        }
        s
    }

    /// The finality status of a block, from the answers of the chain; none where a weight would
    /// not fit 64 bits.
    pub fn compute_finality_status(
        &self,
        block_hash: &BlockHash,
        readings: &RoundReadings<N>,
    ) -> (r: Option<Result<FinalityStatus<N>, FinalityVerificationError>>)
        ensures
            r is Some <==> can_establish(
                self.authorities(),
                self.strict(),
                block_hash@,
                *readings,
            ),
            r matches Some(outcome) ==> status_outcome(outcome) == established(
                self.authorities(),
                self.strict(),
                block_hash@,
                *readings,
            ),
    {
        let missing = joined("Block not found: ", debug_hash(block_hash).as_str());
        let header = match found_header(missing, &readings.header) {
            Ok(h) => h,
            Err(e) => {
                return Some(Err(e));
            },
        };
        let bytes = match &readings.justification {
            Err(reason) => {
                return Some(
                    Err(
                        FinalityVerificationError::ChainError(
                            joined("Failed to get justification: ", reason.as_str()),
                        ),
                    ),
                );
            },
            Ok(b) => b,
        };
        let on_chain = holds(&readings.canonical, block_hash);
        let justification = match bytes {
            Some(b) => N::decode_justification(b.as_slice()),
            None => None,
        };
        match &justification {
            Some(j) => {
                if checked_total(self.authority_set.current_authorities()).is_none()
                    || self.checked_commit_weight(j).is_none() {
                    return None;
                }
                Some(
                    Ok(
                        self.status_with(
                            header.number,
                            readings.finalized_number,
                            on_chain,
                            bytes.is_some(),
                            Some(j),
                        ),
                    ),
                )
            },
            None => Some(
                Ok(
                    self.status_with(
                        header.number,
                        readings.finalized_number,
                        on_chain,
                        bytes.is_some(),
                        None,
                    ),
                ),
            ),
        }
    }

    /// The kept status of a block, if it is fresh at `now`.
    pub fn cached_status(&self, block_hash: &BlockHash, now: u128) -> (r: Option<
        FinalityStatus<N>,
    >)
        ensures
            r == status::served(self.kept(), block_hash@, now),
    {
        self.finality_cache.fresh(block_hash, now)
    }

    /// The finality status of a block: a fresh kept one, or else one from the answers of the
    /// chain, which is then kept; none where a weight would not fit 64 bits.
    pub fn get_finality_status(
        &mut self,
        block_hash: &BlockHash,
        now: u128,
        readings: &RoundReadings<N>,
    ) -> (r: Option<Result<FinalityStatus<N>, FinalityVerificationError>>)
        ensures
            old(self).has_looked_up(*final(self), block_hash@, now, *readings),
            match r {
                Some(outcome) => old(self).current_status(block_hash@, now, *readings) == Some(
                    status_outcome(outcome),
                ),
                None => old(self).current_status(block_hash@, now, *readings) is None,
            },
            match status::served(old(self).kept(), block_hash@, now) {
                Some(s) => r matches Some(Ok(served)) && served == s && final(self).kept() == old(
                    self,
                ).kept(),
                None => {
                    &&& r is Some <==> can_establish(
                        old(self).authorities(),
                        old(self).strict(),
                        block_hash@,
                        *readings,
                    )
                    &&& r matches Some(outcome) ==> status_outcome(outcome) == established(
                        old(self).authorities(),
                        old(self).strict(),
                        block_hash@,
                        *readings,
                    )
                    &&& final(self).kept() == match r {
                        Some(Ok(s)) => status::recorded(old(self).kept(), block_hash@, s, now),
                        _ => old(self).kept(),
                    }
                },
            },
    {
        if let Some(s) = self.finality_cache.fresh(block_hash, now) {
            return Some(Ok(s));
        }
        let r = self.compute_finality_status(block_hash, readings);
        if let Some(Ok(s)) = &r {
            self.finality_cache.record(*block_hash, *s, now);
        }
        r
    }

    /// Whether the block is known under its number.
    pub fn verify_block_hash(&self, block_ref: &BlockRef, header: &HeaderLookup<N>) -> (r: Result<
        bool,
        FinalityVerificationError,
    >)
        ensures
            match found("Block not found"@, *header) {
                Ok(h) => r == Ok::<_, FinalityVerificationError>(
                    h.number.as_nat() == block_ref.number as nat,
                ),
                Err(e) => r matches Err(err) && err@ == e,
            },
    {
        match found_header("Block not found".to_owned(), header) {
            Ok(h) => Ok(h.number.to_u64() == block_ref.number),
            Err(e) => Err(e),
        }
    }

    /// What the confidence in a block rests on, with its status at `now`; `participation_reached`
    /// says whether its rate of participation is at least the one that is asked for. None where a
    /// weight would not fit 64 bits.
    pub fn get_finality_confidence(
        &mut self,
        block_ref: &BlockRef,
        now: u128,
        readings: &RoundReadings<N>,
        participation_reached: bool,
    ) -> (r: Option<Result<ConfidenceBasis, FinalityVerificationError>>)
        ensures
            old(self).has_looked_up(*final(self), block_ref.hash@, now, *readings),
            match old(self).current_status(block_ref.hash@, now, *readings) {
                None => r is None,
                Some(Err(e)) => r matches Some(Err(err)) && err@ == e,
                Some(Ok(s)) => r == Some(
                    Ok::<_, FinalityVerificationError>(
                        confidence_basis(
                            s,
                            old(self).verification_params().min_confirmations,
                            participation_reached,
                        ),
                    ),
                ),
            },
    {
        match self.get_finality_status(&block_ref.hash, now, readings) {
            None => None,
            Some(Err(e)) => Some(Err(e)),
            Some(Ok(s)) => Some(Ok(self.confidence_under(&s, participation_reached))),
        }
    }

    /// What the confidence in a block with the given status rests on; `participation_reached`
    /// says whether its rate of participation is at least the one that is asked for.
    pub fn confidence_under(
        &self,
        status: &FinalityStatus<N>,
        participation_reached: bool,
    ) -> (r: ConfidenceBasis)
        ensures
            r == confidence_basis(
                status@,
                self.verification_params().min_confirmations,
                participation_reached,
            ),
    {
        if status.is_finalized {
            return ConfidenceBasis::Finalized;
        }
        if status.has_justification && participation_reached {
            return ConfidenceBasis::Justified;
        }
        ConfidenceBasis::Confirmations {
            confirmations: u32::saturated_from(status.confirmations.to_u64()),
            min_confirmations: self.params.min_confirmations,
        }
    }

    /// Whether a block meets the rules of the chain, with its status at `now`. `confidence_below`
    /// says whether the confidence in it is below the one that the rules ask for, or why it could
    /// not be had, and `participation_below` the same of its rate of participation. None where a
    /// weight would not fit 64 bits.
    pub fn verify_chain_rules(
        &mut self,
        block_ref: &BlockRef,
        now: u128,
        readings: &RoundReadings<N>,
        best_number: N,
        rules: &ChainRules,
        confidence_below: Result<bool, FinalityVerificationError>,
        participation_below: bool,
    ) -> (r: Option<Result<bool, FinalityVerificationError>>)
        ensures
            old(self).has_looked_up(*final(self), block_ref.hash@, now, *readings),
            match old(self).current_status(block_ref.hash@, now, *readings) {
                None => r is None,
                Some(Err(e)) => r matches Some(Err(err)) && err@ == e,
                Some(Ok(s)) => r matches Some(answer) && answer_view(answer) == rules_answer(
                    s,
                    best_number.as_nat(),
                    *rules,
                    confidence_below,
                    participation_below,
                ),
            },
    {
        match self.get_finality_status(&block_ref.hash, now, readings) {
            None => None,
            Some(Err(e)) => Some(Err(e)),
            Some(Ok(s)) => Some(
                self.rules_met_under(
                    &s,
                    best_number,
                    rules,
                    confidence_below,
                    participation_below,
                ),
            ),
        }
    }

    /// Whether a block with the given status meets the rules of the chain. `confidence_below`
    /// says whether the confidence in it is below the one that the rules ask for, or why it could
    /// not be had, and `participation_below` the same of its rate of participation.
    pub fn rules_met_under(
        &self,
        status: &FinalityStatus<N>,
        best_number: N,
        rules: &ChainRules,
        confidence_below: Result<bool, FinalityVerificationError>,
        participation_below: bool,
    ) -> (r: Result<bool, FinalityVerificationError>)
        ensures
            answer_view(r) == rules_answer(
                status@,
                best_number.as_nat(),
                *rules,
                confidence_below,
                participation_below,
            ),
    {
        if u32::saturated_from(status.confirmations.to_u64()) < rules.min_confirmations {
            return Ok(false);
        }
        let fork_depth = saturating_sub(best_number, status.block_number);
        if u32::saturated_from(fork_depth.to_u64()) > rules.max_fork_depth {
            return Ok(false);
        }
        match confidence_below {
            Err(e) => Err(e),
            Ok(below) => Ok(!below && !(status.has_justification && participation_below)),
        }
    }

    /// The block with what is known of its contents, if the chain knows it. `encoded_header` is
    /// its header in encoded form, and `body` the number of its extrinsics, if it has a body.
    pub fn get_block(
        &self,
        block_ref: &BlockRef,
        header: &HeaderLookup<N>,
        encoded_header: Vec<u8>,
        body: Result<Option<usize>, String>,
    ) -> (r: Result<Block, FinalityVerificationError>)
        ensures
            match found("Block not found"@, *header) {
                Err(e) => r matches Err(err) && err@ == e,
                Ok(h) => match body {
                    Err(reason) => r matches Err(err) && err@ == VerificationErrorView::ChainError(
                        "Failed to get body: "@ + reason@,
                    ),
                    Ok(extrinsics) => {
                        let count = match extrinsics {
                            Some(n) => n,
                            None => 0,
                        };
                        r == Ok::<_, FinalityVerificationError>(
                            Block {
                                hash: block_ref.hash,
                                number: block_ref.number,
                                parent_hash: h.parent_hash,
                                timestamp: 0,
                                transactions: count as u32,
                                substrate_header: encoded_header,
                                extrinsics_count: count,
                            },
                        )
                    },
                },
            },
    {
        let h = match found_header("Block not found".to_owned(), header) {
            Ok(h) => h,
            Err(e) => {
                return Err(e);
            },
        };
        let count: usize = match body {
            Err(reason) => {
                return Err(
                    FinalityVerificationError::ChainError(
                        joined("Failed to get body: ", reason.as_str()),
                    ),
                );
            },
            Ok(Some(n)) => n,
            Ok(None) => 0,
        };
        Ok(
            Block {
                hash: block_ref.hash,
                number: block_ref.number,
                parent_hash: h.parent_hash,
                timestamp: 0,
                transactions: #[verifier::truncate] (count as u32),
                substrate_header: encoded_header,
                extrinsics_count: count,
            },
        )
    }

    /// The number of the latest finalized block.
    pub fn get_latest_finalized_block(&self, finalized_number: N) -> (r: u64)
        ensures
            r as nat == finalized_number.as_nat(),
    {
        finalized_number.to_u64()
    }

    /// The hash and number of the best block of the chain.
    pub fn get_chain_head(&self, best_hash: BlockHash, best_number: N) -> (r: (BlockHash, u64))
        ensures
            r.0 == best_hash,
            r.1 as nat == best_number.as_nat(),
    {
        (best_hash, best_number.to_u64())
    }

    /// Takes anything as included in a block that is known under its number.
    pub fn verify_block_inclusion(
        &self,
        block_ref: &BlockRef,
        header: &HeaderLookup<N>,
        proof: &[u8],
    ) -> (r: Result<bool, FinalityVerificationError>)
        ensures
            match found("Block not found"@, *header) {
                Ok(h) => r == Ok::<_, FinalityVerificationError>(
                    h.number.as_nat() == block_ref.number as nat,
                ),
                Err(e) => r matches Err(err) && err@ == e,
            },
    {
        self.verify_block_hash(block_ref, header)
    }
}

/// An authority weighs no more under its first entry than under all its entries together.
proof fn lemma_listed_weight(list: Seq<(AuthorityId, u64)>, id: Seq<u8>)
    ensures
        listed_weight(list, id) matches Some(w) ==> w as nat <= grandpa::weight_of(list, id),
    decreases list.len(),
{
    if list.len() > 0 {
        let rest = list.drop_first();
        lemma_listed_weight(rest, id);
        lemma_weight_of_front(list, id);
    }
}

proof fn lemma_weight_of_front(list: Seq<(AuthorityId, u64)>, id: Seq<u8>)
    requires
        list.len() > 0,
    ensures
        grandpa::weight_of(list, id) == grandpa::weight_of(list.drop_first(), id)
            + if list[0].0@ == id {
            list[0].1 as nat
        } else {
            0
        },
    decreases list.len(),
{
    if list.len() == 1 {
        assert(list.drop_last() =~= Seq::empty());
        assert(list.drop_first() =~= Seq::empty());
    } else {
        lemma_weight_of_front(list.drop_last(), id);
        assert(list.drop_last().drop_first() =~= list.drop_first().drop_last());
        assert(list.drop_first().last() == list.last());
    }
}

proof fn lemma_commit_weight_of_all<N: GrandpaNumber>(
    list: Seq<(AuthorityId, u64)>,
    target_hash: Seq<u8>,
    target_number: nat,
    strict: bool,
    votes: Seq<PrecommitView>,
)
    ensures
        commit_weight::<N>(list, target_hash, target_number, strict, votes)
            <= voters::weight_of_all(list, votes.map_values(|v: PrecommitView| v.3)),
    decreases votes.len(),
{
    if votes.len() > 0 {
        lemma_commit_weight_of_all::<N>(
            list,
            target_hash,
            target_number,
            strict,
            votes.drop_last(),
        );
        lemma_listed_weight(list, votes.last().3);
        let ids = votes.map_values(|v: PrecommitView| v.3);
        assert(ids.drop_last() =~= votes.drop_last().map_values(|v: PrecommitView| v.3));
        assert(ids.last() == votes.last().3);
    }
}

/// Where every authority votes at most once, the weight that counts is at most the weight of all
/// authorities: both fit 64 bits if the latter does.
pub proof fn law_distinct_votes_fit<N: GrandpaNumber>(
    list: Seq<(AuthorityId, u64)>,
    strict: bool,
    justification: grandpa::JustificationView,
)
    requires
        forall|i: int, j: int|
            0 <= i < j < justification.3.len() ==> justification.3[i].3 != justification.3[j].3,
    ensures
        commit_weight::<N>(list, justification.1, justification.2, strict, justification.3)
            <= grandpa::total_weight(list),
        grandpa::total_weight(list) <= u64::MAX ==> weights_fit::<N>(list, strict, justification),
{
    let votes = justification.3;
    let ids = votes.map_values(|v: PrecommitView| v.3);
    assert(ids.no_duplicates());
    lemma_commit_weight_of_all::<N>(list, justification.1, justification.2, strict, votes);
    voters::lemma_weight_of_all_bounded(list, ids);
}

/// The confidence in a block is full exactly where the chain has finalized it, and rests on no
/// confirmations elsewhere.
pub proof fn law_only_final_blocks_have_full_confidence<N: GrandpaNumber>(
    list: Seq<(AuthorityId, u64)>,
    strict: bool,
    hash: Seq<u8>,
    readings: RoundReadings<N>,
    min_confirmations: u32,
    participation_reached: bool,
)
    requires
        established(list, strict, hash, readings) is Ok,
    ensures
        ({
            let s = established(list, strict, hash, readings)->Ok_0;
            let basis = confidence_basis(s, min_confirmations, participation_reached);
            &&& basis is Finalized <==> s.is_finalized
            &&& basis matches ConfidenceBasis::Confirmations { confirmations, .. } ==> confirmations
                == 0
        }),
{
}

/// With at least one confirmation asked for, only final blocks meet the rules, and the finalized
/// height is above them by as many blocks as are asked for.
pub proof fn law_only_final_blocks_meet_rules<N: GrandpaNumber>(
    list: Seq<(AuthorityId, u64)>,
    strict: bool,
    hash: Seq<u8>,
    readings: RoundReadings<N>,
    best_number: nat,
    rules: ChainRules,
    confidence_below: Result<bool, FinalityVerificationError>,
    participation_below: bool,
)
    requires
        rules.min_confirmations > 0,
        established(list, strict, hash, readings) is Ok,
        rules_answer(
            established(list, strict, hash, readings)->Ok_0,
            best_number,
            rules,
            confidence_below,
            participation_below,
        ) == Ok::<bool, VerificationErrorView>(true),
    ensures
        ({
            let s = established(list, strict, hash, readings)->Ok_0;
            &&& s.is_finalized
            &&& s.block_number + rules.min_confirmations <= readings.finalized_number.as_nat()
        }),
{
}

/// No more precommits count than there are, and where none counts there is no weight.
pub proof fn law_weight_comes_from_counted_votes<N: GrandpaNumber>(
    list: Seq<(AuthorityId, u64)>,
    target_hash: Seq<u8>,
    target_number: nat,
    strict: bool,
    votes: Seq<PrecommitView>,
)
    ensures
        counted_votes::<N>(list, target_hash, target_number, strict, votes) <= votes.len(),
        counted_votes::<N>(list, target_hash, target_number, strict, votes) == 0
            ==> commit_weight::<N>(list, target_hash, target_number, strict, votes) == 0,
    decreases votes.len(),
{
    if votes.len() > 0 {
        law_weight_comes_from_counted_votes::<N>(
            list,
            target_hash,
            target_number,
            strict,
            votes.drop_last(),
        );
    }
}

/// Strict verification only takes weight away, and never counts a vote whose signature is not its
/// author's.
pub proof fn law_strictness_takes_weight_away<N: GrandpaNumber>(
    list: Seq<(AuthorityId, u64)>,
    target_hash: Seq<u8>,
    target_number: nat,
    votes: Seq<PrecommitView>,
    vote: PrecommitView,
)
    ensures
        commit_weight::<N>(list, target_hash, target_number, true, votes) <= commit_weight::<N>(
            list,
            target_hash,
            target_number,
            false,
            votes,
        ),
        !voters::vote_valid::<N>(vote) ==> commit_weight::<N>(
            list,
            target_hash,
            target_number,
            true,
            votes.push(vote),
        ) == commit_weight::<N>(list, target_hash, target_number, true, votes),
    decreases votes.len(),
{
    assert(votes.push(vote).drop_last() =~= votes);
    if votes.len() > 0 {
        law_strictness_takes_weight_away::<N>(
            list,
            target_hash,
            target_number,
            votes.drop_last(),
            vote,
        );
    }
}

/// An authority has the weight of the first entry under its key, whatever stands around it.
pub proof fn law_first_entry_of_the_authority_counts(
    list: Seq<(AuthorityId, u64)>,
    id: Seq<u8>,
    k: int,
)
    requires
        0 <= k < list.len(),
        list[k].0@ == id,
        forall|j: int| 0 <= j < k ==> (#[trigger] list[j]).0@ != id,
    ensures
        listed_weight(list, id) == Some(list[k].1),
    decreases k,
{
    if k > 0 {
        assert(list[0].0@ != id);
        let rest = list.drop_first();
        assert forall|j: int| 0 <= j < k - 1 implies (#[trigger] rest[j]).0@ != id by {
            assert(list[j + 1].0@ != id);
        }
        law_first_entry_of_the_authority_counts(rest, id, k - 1);
    }
}

/// Whoever has no entry in the list has no weight.
pub proof fn law_strangers_have_no_weight(list: Seq<(AuthorityId, u64)>, id: Seq<u8>)
    requires
        forall|j: int| 0 <= j < list.len() ==> (#[trigger] list[j]).0@ != id,
    ensures
        listed_weight(list, id) is None,
    decreases list.len(),
{
    if list.len() > 0 {
        assert(list[0].0@ != id);
        let rest = list.drop_first();
        assert forall|j: int| 0 <= j < rest.len() implies (#[trigger] rest[j]).0@ != id by {
            assert(list[j + 1].0@ != id);
        }
        law_strangers_have_no_weight(rest, id);
    }
}

/// A precommit is valid exactly where its target is that of the commit, by hash and number, and, under
/// strict verification, its signature is its author's over that target.
pub proof fn law_valid_votes_are_for_the_commit<N: GrandpaNumber>(
    target_hash: Seq<u8>,
    target_number: nat,
    strict: bool,
    vote: PrecommitView,
)
    ensures
        is_valid_vote::<N>(target_hash, target_number, strict, vote) <==> {
            &&& vote.0 == target_hash
            &&& vote.1 == target_number
            &&& strict ==> trusted::ed25519_valid(
                vote.2,
                target_hash + N::le_bytes(target_number),
                vote.3,
            )
        },
{
}

/// A valid precommit of a listed authority adds exactly the weight of that authority's first entry,
/// however small, and counts once. Any other precommit adds nothing and does not count. Without
/// precommits there is nothing.
pub proof fn law_counted_votes_add_the_weight_of_their_author<N: GrandpaNumber>(
    list: Seq<(AuthorityId, u64)>,
    target_hash: Seq<u8>,
    target_number: nat,
    strict: bool,
    votes: Seq<PrecommitView>,
    vote: PrecommitView,
)
    ensures
        commit_weight::<N>(list, target_hash, target_number, strict, Seq::empty()) == 0,
        counted_votes::<N>(list, target_hash, target_number, strict, Seq::empty()) == 0,
        ({
            let weight = commit_weight::<N>(list, target_hash, target_number, strict, votes);
            let count = counted_votes::<N>(list, target_hash, target_number, strict, votes);
            let more = votes.push(vote);
            let valid = vote.0 == target_hash && vote.1 == target_number && (strict
                ==> trusted::ed25519_valid(
                vote.2,
                target_hash + N::le_bytes(target_number),
                vote.3,
            ));
            if listed_weight(list, vote.3) is Some && valid {
                &&& commit_weight::<N>(list, target_hash, target_number, strict, more) == weight
                    + listed_weight(list, vote.3)->0
                &&& counted_votes::<N>(list, target_hash, target_number, strict, more) == count + 1
            } else {
                &&& commit_weight::<N>(list, target_hash, target_number, strict, more) == weight
                &&& counted_votes::<N>(list, target_hash, target_number, strict, more) == count
            }
        }),
{
    assert(votes.push(vote).drop_last() =~= votes);
}

/// The status of a block follows from the heights, the list and its justification: the weight and the
/// number of the precommits that count, out of the weight and the number of all authorities.
pub proof fn law_round_status_follows_from_the_round<N: GrandpaNumber>(
    list: Seq<(AuthorityId, u64)>,
    strict: bool,
    number: nat,
    finalized: nat,
    on_chain: bool,
    has_justification: bool,
    justification: Option<grandpa::JustificationView>,
)
    requires
        list.len() <= u32::MAX,
        justification matches Some(j) ==> j.3.len() <= u32::MAX,
    ensures
        ({
            let s = round_status::<N>(
                list,
                strict,
                number,
                finalized,
                on_chain,
                has_justification,
                justification,
            );
            &&& s.block_number == number
            &&& on_chain && number <= finalized ==> s.is_finalized && number + s.confirmations
                == finalized
            &&& !on_chain || number > finalized ==> !s.is_finalized && s.confirmations == 0
            &&& s.has_justification == has_justification
            &&& s.total_authorities == list.len()
            &&& justification matches Some(j) ==> {
                &&& s.valid_weight == commit_weight::<N>(list, j.1, j.2, strict, j.3)
                &&& s.total_weight == grandpa::total_weight(list)
                &&& s.valid_signatures == counted_votes::<N>(list, j.1, j.2, strict, j.3)
            }
            &&& justification is None ==> s.valid_weight == 0 && s.total_weight == 0
                && s.valid_signatures == 0
        }),
{
    if let Some(j) = justification {
        law_weight_comes_from_counted_votes::<N>(list, j.1, j.2, strict, j.3);
    }
}

/// The status of a known block is the one that follows from its own header, the finalized height, the
/// block that the chain holds in its place, and its justification as far as it can be read.
pub proof fn law_round_status_follows_from_the_answers<N: GrandpaNumber>(
    list: Seq<(AuthorityId, u64)>,
    strict: bool,
    hash: Seq<u8>,
    readings: RoundReadings<N>,
    h: BlockHeader<N>,
    bytes: Option<Vec<u8>>,
)
    requires
        readings.header == Ok::<_, String>(Some(h)),
        readings.justification == Ok::<_, String>(bytes),
    ensures
        established(list, strict, hash, readings) == Ok::<_, VerificationErrorView>(
            round_status::<N>(
                list,
                strict,
                h.number.as_nat(),
                readings.finalized_number.as_nat(),
                readings.canonical is Err || (readings.canonical matches Ok(Some(held)) && held@
                    == hash),
                bytes is Some,
                match bytes {
                    Some(b) => N::decoded_justification(b@),
                    None => None,
                },
            ),
        ),
        can_establish(list, strict, hash, readings) <==> match bytes {
            None => true,
            Some(b) => match N::decoded_justification(b@) {
                None => true,
                Some(j) => grandpa::total_weight(list) <= u64::MAX && commit_weight::<N>(
                    list,
                    j.1,
                    j.2,
                    strict,
                    j.3,
                ) <= u64::MAX,
            },
        },
{
}

/// Without a header, or without an answer about the justification, there is no status, and the error
/// says which question failed and why.
pub proof fn law_no_round_status_without_answers<N: GrandpaNumber>(
    list: Seq<(AuthorityId, u64)>,
    strict: bool,
    hash: Seq<u8>,
    readings: RoundReadings<N>,
)
    ensures
        readings.header is Err || readings.justification is Err || readings.header == Ok::<
            Option<BlockHeader<N>>,
            String,
        >(None) ==> can_establish(list, strict, hash, readings),
        readings.header matches Err(reason) ==> established(list, strict, hash, readings) == Err::<
            RoundStatusView,
            _,
        >(VerificationErrorView::ChainError("Failed to get header: "@ + reason@)),
        readings.header matches Ok(None) ==> established(list, strict, hash, readings) == Err::<
            RoundStatusView,
            _,
        >(
            VerificationErrorView::BlockNotFound(
                "Block not found: "@ + ("0x"@ + text::hex(hash)),
            ),
        ),
        readings.header matches Ok(Some(_)) ==> (readings.justification matches Err(reason)
            ==> established(list, strict, hash, readings) == Err::<RoundStatusView, _>(
            VerificationErrorView::ChainError("Failed to get justification: "@ + reason@),
        )),
{
}

/// A lookup gives the header that the chain holds, or says that the block is missing, or why the chain
/// could not answer.
pub proof fn law_round_lookups_give_the_header_or_the_reason<N>(
    missing: Seq<char>,
    h: BlockHeader<N>,
    reason: String,
)
    ensures
        found(missing, Ok(Some(h))) == Ok::<BlockHeader<N>, VerificationErrorView>(h),
        found(missing, Ok(None::<BlockHeader<N>>)) == Err::<BlockHeader<N>, _>(
            VerificationErrorView::BlockNotFound(missing),
        ),
        found(missing, Err::<Option<BlockHeader<N>>, String>(reason)) == Err::<BlockHeader<N>, _>(
            VerificationErrorView::ChainError("Failed to get header: "@ + reason@),
        ),
{
}

/// The confidence in a block rests on its finality, else on a justification with enough
/// participation, else on its own confirmations out of those that are asked for.
pub proof fn law_round_confidence_goes_by_the_best_evidence(
    s: RoundStatusView,
    min_confirmations: u32,
    participation_reached: bool,
)
    ensures
        ({
            let basis = confidence_basis(s, min_confirmations, participation_reached);
            &&& s.is_finalized ==> basis == ConfidenceBasis::Finalized
            &&& !s.is_finalized && s.has_justification && participation_reached ==> basis
                == ConfidenceBasis::Justified
            &&& !s.is_finalized && !(s.has_justification && participation_reached) ==> (
            basis matches ConfidenceBasis::Confirmations {
                confirmations,
                min_confirmations: asked,
            } && {
                &&& asked == min_confirmations
                &&& s.confirmations <= u32::MAX ==> confirmations == s.confirmations
                &&& s.confirmations > u32::MAX ==> confirmations == u32::MAX
            })
        }),
{
}

/// Rules are met exactly where the block has as many confirmations as they ask for, the best height is
/// within the fork depth, where that is not the largest number, the confidence is not below the one
/// asked for, and the block is not justified with too little participation.
pub proof fn law_round_rules_ask_for_depth_confidence_and_participation(
    s: RoundStatusView,
    best_number: nat,
    rules: ChainRules,
    confidence_below: Result<bool, FinalityVerificationError>,
    participation_below: bool,
)
    ensures
        ({
            let answer = rules_answer(
                s,
                best_number,
                rules,
                confidence_below,
                participation_below,
            );
            let deep = rules.min_confirmations <= s.confirmations && (best_number <= s.block_number
                + rules.max_fork_depth || rules.max_fork_depth == u32::MAX);
            &&& !deep ==> answer == Ok::<bool, VerificationErrorView>(false)
            &&& deep ==> {
                &&& confidence_below matches Err(e) ==> answer == Err::<bool, _>(e@)
                &&& confidence_below == Ok::<bool, FinalityVerificationError>(true) ==> answer
                    == Ok::<bool, VerificationErrorView>(false)
                &&& confidence_below == Ok::<bool, FinalityVerificationError>(false) ==> answer
                    == Ok::<bool, VerificationErrorView>(
                    !(s.has_justification && participation_below),
                )
            }
        }),
{
}

/// A justified block with less participation than the rules ask for never meets them, whatever
/// weight signed.
pub proof fn law_low_participation_never_meets_round_rules(
    s: RoundStatusView,
    best_number: nat,
    rules: ChainRules,
    confidence_below: Result<bool, FinalityVerificationError>,
)
    requires
        s.has_justification,
    ensures
        rules_answer(s, best_number, rules, confidence_below, true) != Ok::<
            bool,
            VerificationErrorView,
        >(true),
{
}

/// A fresh kept status, of less than five seconds, is served as it is; else the status is the one that
/// follows from the answers of the chain under the client's own authorities and strictness.
pub proof fn law_kept_statuses_are_served_first<C, N: GrandpaNumber>(
    verifier: SubstrateVerificationClient<C, N>,
    hash: Seq<u8>,
    now: u128,
    readings: RoundReadings<N>,
)
    ensures
        ({
            let kept = verifier.kept();
            let list = verifier.authorities();
            let strict = verifier.verification_params().strict_signature_verification;
            let current = verifier.current_status(hash, now, readings);
            if kept.contains_key(hash) && now < kept[hash].at + 5_000_000_000 {
                current == Some(Ok::<_, VerificationErrorView>(kept[hash].value@))
            } else if can_establish(list, strict, hash, readings) {
                current == Some(established(list, strict, hash, readings))
            } else {
                current is None
            }
        }),
{
}

/// A lookup changes nothing about a client but the statuses that it keeps: a new one is recorded where
/// there is one and no fresh one was kept, and else nothing.
pub proof fn law_lookups_only_record_statuses<C, N: GrandpaNumber>(
    before: SubstrateVerificationClient<C, N>,
    after: SubstrateVerificationClient<C, N>,
    hash: Seq<u8>,
    now: u128,
    readings: RoundReadings<N>,
)
    requires
        before.has_looked_up(after, hash, now, readings),
    ensures
        after.chain_client() == before.chain_client(),
        after.authorities() == before.authorities(),
        after.verification_params() == before.verification_params(),
        ({
            let kept = before.kept();
            let fresh = kept.contains_key(hash) && now < kept[hash].at + 5_000_000_000;
            let current = before.current_status(hash, now, readings);
            if !fresh && current is Some && current->0 is Ok {
                &&& after.kept().contains_key(hash)
                &&& after.kept()[hash].value@ == current->0->Ok_0
                &&& after.kept()[hash].at == now
                &&& forall|other: Seq<u8>|
                    other != hash ==> (#[trigger] after.kept().contains_key(other)
                        <==> kept.contains_key(other) && now < kept[other].at + 30_000_000_000)
                &&& forall|other: Seq<u8>|
                    other != hash && #[trigger] after.kept().contains_key(other)
                        ==> after.kept()[other] == kept[other]
            } else {
                after.kept() == kept
            }
        }),
{
}

/// What statuses and errors say is what they hold.
pub proof fn law_round_statuses_say_what_they_hold<N: BlockNumber>(
    s: FinalityStatus<N>,
    m: String,
    e: FinalityVerificationError,
    b: bool,
)
    ensures
        s@.block_number == s.block_number.as_nat(),
        s@.confirmations == s.confirmations.as_nat(),
        s@.has_justification == s.has_justification,
        s@.is_finalized == s.is_finalized,
        s@.valid_weight == s.valid_weight,
        s@.total_weight == s.total_weight,
        s@.valid_signatures == s.valid_signatures,
        s@.total_authorities == s.total_authorities,
        FinalityVerificationError::ChainError(m)@ == VerificationErrorView::ChainError(m@),
        FinalityVerificationError::BlockNotFound(m)@ == VerificationErrorView::BlockNotFound(m@),
        status_outcome::<N>(Ok(s)) == Ok::<RoundStatusView, VerificationErrorView>(s@),
        status_outcome::<N>(Err(e)) == Err::<RoundStatusView, _>(e@),
        answer_view(Ok(b)) == Ok::<bool, VerificationErrorView>(b),
        answer_view(Err(e)) == Err::<bool, _>(e@),
{
}

} // verus!
