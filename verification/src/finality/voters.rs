//! The voters of an authority set and the weight that a justification gathers from them.

use vstd::prelude::*;

use finality_grandpa::voter_set::VoterSet;

use crate::grandpa;
use crate::grandpa::{
    AuthorityId, AuthorityList, GrandpaJustification, PrecommitView, SignedPrecommit, VoterWeights,
};
use crate::number;
use crate::number::GrandpaNumber;
use crate::trusted;
use crate::trusted::{new_voter_set, verify_ed25519, voter_set_total, voter_weight};

verus! {

/// The voters of the current authority set; an observer starts with none.
pub struct Voters {
    set: Option<VoterSet<AuthorityId>>,
}

impl Voters {
    /// The weight of each voter.
    pub closed spec fn weights(&self) -> VoterWeights {
        match self.set {
            Some(set) => trusted::voter_weights(set),
            None => Map::empty(),
        }
    }

    /// The summed weight of all voters.
    pub closed spec fn total(&self) -> nat {
        match self.set {
            Some(set) => trusted::voter_total(set),
            None => 0,
        }
    }

    /// Whether these are the voters that `authorities` describe.
    pub open spec fn describes(&self, authorities: Seq<(AuthorityId, u64)>) -> bool {
        &&& self.weights() == grandpa::accumulated(authorities)
        &&& self.total() == grandpa::total_weight(authorities)
    }

    /// No voters at all.
    pub fn none() -> (r: Self)
        ensures
            r.describes(Seq::empty()),
    {
        let r = Voters { set: None };
        assert(r.weights() =~= grandpa::accumulated(Seq::empty()));
        r
    }

    /// The voters of an authority list; an authority that is listed more than once votes with
    /// its summed weight, and one without weight does not vote. There are none to be had of a
    /// list without any weight, nor of one whose summed weight exceeds 64 bits.
    pub fn new(authorities: &AuthorityList) -> (r: Option<Self>)
        ensures
            r is Some <==> 0 < grandpa::total_weight(authorities@) <= u64::MAX,
            r matches Some(voters) ==> voters.describes(authorities@),
    {
        match new_voter_set(authorities) {
            Some(set) => Some(Voters { set: Some(set) }),
            None => None,
        }
    }

    /// The voters of an authority list, which may be empty.
    pub fn of(authorities: &AuthorityList) -> (r: Self)
        requires
            authorities@.len() == 0 || 0 < grandpa::total_weight(authorities@) <= u64::MAX,
        ensures
            r.describes(authorities@),
    {
        match Self::new(authorities) {
            Some(voters) => voters,
            None => {
                assert(authorities@ =~= Seq::empty());
                Self::none()
            },
        }
    }

    /// The weight of the given voter, if it is one.
    pub fn weight(&self, id: &AuthorityId) -> (r: Option<u64>)
        ensures
            r is Some <==> self.weights().contains_key(id@),
            r matches Some(weight) ==> weight as nat == self.weights()[id@],
    {
        match &self.set {
            Some(set) => voter_weight(set, id),
            None => None,
        }
    }

    /// The summed weight of all voters.
    pub fn total_weight(&self) -> (r: u64)
        ensures
            r as nat == self.total(),
    {
        match &self.set {
            Some(set) => voter_set_total(set),
            None => 0,
        }
    }
}

/// Whether a precommit carries its author's signature over the vote.
pub open spec fn vote_valid<N: GrandpaNumber>(vote: PrecommitView) -> bool {
    trusted::ed25519_valid(vote.2, vote.0 + N::le_bytes(vote.1), vote.3)
}

/// The weight that one precommit contributes: that of its author, if the author is a voter and
/// the signature is valid, else nothing.
pub open spec fn vote_weight<N: GrandpaNumber>(voters: VoterWeights, vote: PrecommitView) -> nat {
    if voters.contains_key(vote.3) && vote_valid::<N>(vote) {
        voters[vote.3]
    } else {
        0
    }
}

/// The weight that a sequence of precommits contributes.
pub open spec fn signed_weight<N: GrandpaNumber>(
    voters: VoterWeights,
    votes: Seq<PrecommitView>,
) -> nat
    decreases votes.len(),
{
    if votes.len() == 0 {
        0
    } else {
        signed_weight::<N>(voters, votes.drop_last()) + vote_weight::<N>(voters, votes.last())
    }
}

/// How many of a sequence of precommits come from a voter and carry a valid signature.
pub open spec fn valid_votes<N: GrandpaNumber>(
    voters: VoterWeights,
    votes: Seq<PrecommitView>,
) -> nat
    decreases votes.len(),
{
    if votes.len() == 0 {
        0
    } else {
        valid_votes::<N>(voters, votes.drop_last()) + if voters.contains_key(votes.last().3)
            && vote_valid::<N>(votes.last()) {
            1nat
        } else {
            0
        }
    }
}

/// `n`, or the largest 64-bit number where `n` exceeds it.
pub open spec fn capped(n: nat) -> nat {
    number::nearest(n, u64::MAX as nat)
}

/// The weight behind a justification, out of the weight of all voters.
#[derive(Clone, Copy, Debug, PartialEq, Eq, Structural)]
pub struct JustificationTally {
    pub signed_weight: u64,
    pub total_weight: u64,
}

/// Adds one precommit to the signed weight: `weight` is its author's weight, if the author is a
/// voter, and `signature_valid` the outcome of the signature check.
pub fn add_vote(signed_weight: u64, weight: Option<u64>, signature_valid: bool) -> (r: u64)
    ensures
        r as nat == match weight {
            Some(w) if signature_valid => capped(signed_weight as nat + w as nat),
            _ => signed_weight as nat,
        },
{
    match weight {
        Some(w) => if signature_valid {
            signed_weight.saturating_add(w)
        } else {
            signed_weight
        },
        None => signed_weight,
    }
}

impl Voters {
    /// Whether a precommit comes from a voter and carries a valid signature.
    fn verify_vote<N: GrandpaNumber>(&self, precommit: &SignedPrecommit<N>) -> (r: bool)
        ensures
            r == (self.weights().contains_key(precommit@.3) && vote_valid::<N>(precommit@)),
    {
        if self.weight(&precommit.id).is_some() {
            let message = N::encode_precommit(&precommit.target_hash, precommit.target_number);
            verify_ed25519(&precommit.signature, message.as_slice(), &precommit.id)
        } else {
            false
        }
    }

    /// How many precommits of a justification come from a voter and carry a valid signature.
    pub fn valid_signatures<N: GrandpaNumber>(&self, justification: &GrandpaJustification<N>) -> (r:
        usize)
        ensures
            r as nat == valid_votes::<N>(self.weights(), justification@.3),
    {
        let ghost votes = justification@.3;
        let count: usize = justification.commit.precommits.len();
        let mut valid: usize = 0;
        let mut i: usize = 0;
        assert(votes.take(0) =~= Seq::empty());
        while i < count
            invariant
                votes == justification@.3,
                count == justification.commit.precommits@.len(),
                valid <= i <= count,
                valid as nat == valid_votes::<N>(self.weights(), votes.take(i as int)),
            decreases count - i,
        {
            let precommit = &justification.commit.precommits[i];
            proof {
                let next = votes.take(i + 1);
                assert(next.drop_last() =~= votes.take(i as int));
                assert(next.last() == precommit@);
            }
            if self.verify_vote(precommit) {
                valid += 1;
            }
            i += 1;
        }
        assert(votes.take(count as int) =~= votes);
        valid
    }

    /// Sums the weight of all precommits of a justification that come from a voter and carry a
    /// valid signature.
    pub fn verify_justification<N: GrandpaNumber>(
        &self,
        justification: &GrandpaJustification<N>,
    ) -> (r: JustificationTally)
        ensures
            r.signed_weight as nat == capped(
                signed_weight::<N>(self.weights(), justification@.3),
            ),
            r.total_weight as nat == self.total(),
    {
        let ghost votes = justification@.3;
        let count: usize = justification.commit.precommits.len();
        let mut signed: u64 = 0;
        let mut i: usize = 0;
        assert(votes.take(0) =~= Seq::empty());
        while i < count
            invariant
                votes == justification@.3,
                count == justification.commit.precommits@.len(),
                i <= count,
                signed as nat == capped(signed_weight::<N>(self.weights(), votes.take(i as int))),
            decreases count - i,
        {
            let precommit = &justification.commit.precommits[i];
            proof {
                let next = votes.take(i + 1);
                assert(next.drop_last() =~= votes.take(i as int));
                assert(next.last() == precommit@);
            }
            let valid = self.verify_vote(precommit);
            signed = add_vote(signed, self.weight(&precommit.id), valid);
            i += 1;
        }
        assert(votes.take(count as int) =~= votes);
        JustificationTally { signed_weight: signed, total_weight: self.total_weight() }
    }
}

/// The summed weight that `list` gives to each of `ids`.
pub open spec fn weight_of_all(list: Seq<(AuthorityId, u64)>, ids: Seq<Seq<u8>>) -> nat
    decreases ids.len(),
{
    if ids.len() == 0 {
        0
    } else {
        weight_of_all(list, ids.drop_last()) + grandpa::weight_of(list, ids.last())
    }
}

/// Taking the last entry off an authority list lowers the weight of distinct authorities by that
/// entry's weight at most once.
proof fn lemma_weight_of_all_step(list: Seq<(AuthorityId, u64)>, ids: Seq<Seq<u8>>)
    requires
        list.len() > 0,
        ids.no_duplicates(),
    ensures
        weight_of_all(list, ids) == weight_of_all(list.drop_last(), ids) + if ids.contains(
            list.last().0@,
        ) {
            list.last().1 as nat
        } else {
            0
        },
    decreases ids.len(),
{
    if ids.len() > 0 {
        let front = ids.drop_last();
        let id = list.last().0@;
        lemma_weight_of_all_step(list, front);
        if ids.last() == id {
            assert(!front.contains(id)) by {
                if front.contains(id) {
                    let k = choose|k: int| 0 <= k < front.len() && front[k] == id;
                    assert(ids[k] == ids[ids.len() - 1]);
                }
            }
            assert(ids.contains(id));
        } else if ids.contains(id) {
            let k = choose|k: int| 0 <= k < ids.len() && ids[k] == id;
            assert(front[k] == id);
        } else if front.contains(id) {
            let k = choose|k: int| 0 <= k < front.len() && front[k] == id;
            assert(ids[k] == id);
        }
    }
}

/// Distinct authorities weigh together no more than the whole list.
pub proof fn lemma_weight_of_all_bounded(list: Seq<(AuthorityId, u64)>, ids: Seq<Seq<u8>>)
    requires
        ids.no_duplicates(),
    ensures
        weight_of_all(list, ids) <= grandpa::total_weight(list),
    decreases list.len(), ids.len(),
{
    if list.len() == 0 {
        if ids.len() > 0 {
            lemma_weight_of_all_bounded(list, ids.drop_last());
        }
    } else {
        lemma_weight_of_all_step(list, ids);
        lemma_weight_of_all_bounded(list.drop_last(), ids);
    }
}

proof fn lemma_signed_weight_of_all<N: GrandpaNumber>(
    list: Seq<(AuthorityId, u64)>,
    votes: Seq<PrecommitView>,
)
    ensures
        signed_weight::<N>(grandpa::accumulated(list), votes) <= weight_of_all(
            list,
            votes.map_values(|v: PrecommitView| v.3),
        ),
    decreases votes.len(),
{
    if votes.len() > 0 {
        lemma_signed_weight_of_all::<N>(list, votes.drop_last());
        let ids = votes.map_values(|v: PrecommitView| v.3);
        assert(ids.drop_last() =~= votes.drop_last().map_values(|v: PrecommitView| v.3));
        assert(ids.last() == votes.last().3);
    }
}

/// Where every authority votes at most once, the signed weight is at most the weight of all
/// voters, so that no vote is lost to the cap either.
pub proof fn law_distinct_votes_within_total<N: GrandpaNumber>(
    list: Seq<(AuthorityId, u64)>,
    votes: Seq<PrecommitView>,
)
    requires
        forall|i: int, j: int| 0 <= i < j < votes.len() ==> votes[i].3 != votes[j].3,
    ensures
        signed_weight::<N>(grandpa::accumulated(list), votes)
            <= grandpa::total_weight(list),
{
    let ids = votes.map_values(|v: PrecommitView| v.3);
    assert(ids.no_duplicates());
    lemma_signed_weight_of_all::<N>(list, votes);
    lemma_weight_of_all_bounded(list, ids);
}

/// A precommit from a stranger, or one with a bad signature, changes nothing, wherever it stands
/// among the others; any other one adds its author's weight.
pub proof fn law_each_vote_counts_for_itself<N: GrandpaNumber>(
    voters: VoterWeights,
    before: Seq<PrecommitView>,
    vote: PrecommitView,
    after: Seq<PrecommitView>,
)
    ensures
        signed_weight::<N>(voters, before.push(vote) + after) == signed_weight::<N>(
            voters,
            before + after,
        ) + vote_weight::<N>(voters, vote),
    decreases after.len(),
{
    if after.len() == 0 {
        assert(before.push(vote) + after =~= before.push(vote));
        assert(before + after =~= before);
        assert(before.push(vote).drop_last() =~= before);
    } else {
        let with = before.push(vote) + after;
        let without = before + after;
        assert(with.drop_last() =~= before.push(vote) + after.drop_last());
        assert(without.drop_last() =~= before + after.drop_last());
        law_each_vote_counts_for_itself::<N>(voters, before, vote, after.drop_last());
    }
}

/// A precommit is valid exactly where its signature is that of its author over the target hash
/// followed by the target number.
pub proof fn law_signatures_cover_the_target<N: GrandpaNumber>(
    hash: Seq<u8>,
    number: nat,
    signature: Seq<u8>,
    id: Seq<u8>,
)
    ensures
        vote_valid::<N>((hash, number, signature, id)) <==> trusted::ed25519_valid(
            signature,
            hash + N::le_bytes(number),
            id,
        ),
{
}

/// A precommit of a voter with the voter's signature over its target adds exactly the weight of that
/// voter, however small; any other one adds nothing. Without precommits there is no weight.
pub proof fn law_valid_votes_add_the_weight_of_their_voter<N: GrandpaNumber>(
    voters: VoterWeights,
    votes: Seq<PrecommitView>,
    vote: PrecommitView,
)
    ensures
        signed_weight::<N>(voters, Seq::empty()) == 0,
        voters.contains_key(vote.3) && trusted::ed25519_valid(
            vote.2,
            vote.0 + N::le_bytes(vote.1),
            vote.3,
        ) ==> signed_weight::<N>(voters, votes.push(vote)) == signed_weight::<N>(voters, votes)
            + voters[vote.3],
        !(voters.contains_key(vote.3) && trusted::ed25519_valid(
            vote.2,
            vote.0 + N::le_bytes(vote.1),
            vote.3,
        )) ==> signed_weight::<N>(voters, votes.push(vote)) == signed_weight::<N>(voters, votes),
{
    assert(votes.push(vote).drop_last() =~= votes);
}

/// A precommit of a voter with the voter's signature over its target counts as one valid signature;
/// any other one does not count.
pub proof fn law_valid_votes_are_counted_once<N: GrandpaNumber>(
    voters: VoterWeights,
    votes: Seq<PrecommitView>,
    vote: PrecommitView,
)
    ensures
        valid_votes::<N>(voters, Seq::empty()) == 0,
        valid_votes::<N>(voters, votes.push(vote)) == valid_votes::<N>(voters, votes) + if (
        voters.contains_key(vote.3) && trusted::ed25519_valid(
            vote.2,
            vote.0 + N::le_bytes(vote.1),
            vote.3,
        )) {
            1nat
        } else {
            0
        },
{
    assert(votes.push(vote).drop_last() =~= votes);
}

proof fn lemma_all_signed<N: GrandpaNumber>(
    list: Seq<(AuthorityId, u64)>,
    votes: Seq<PrecommitView>,
)
    requires
        forall|k: int|
            0 <= k < votes.len() ==> trusted::ed25519_valid(
                (#[trigger] votes[k]).2,
                votes[k].0 + N::le_bytes(votes[k].1),
                votes[k].3,
            ),
    ensures
        signed_weight::<N>(grandpa::accumulated(list), votes) == weight_of_all(
            list,
            votes.map_values(|v: PrecommitView| v.3),
        ),
    decreases votes.len(),
{
    if votes.len() > 0 {
        let front = votes.drop_last();
        assert forall|k: int| 0 <= k < front.len() implies trusted::ed25519_valid(
            (#[trigger] front[k]).2,
            front[k].0 + N::le_bytes(front[k].1),
            front[k].3,
        ) by {
            assert(front[k] == votes[k]);
        }
        lemma_all_signed::<N>(list, front);
        let last = votes[votes.len() - 1];
        assert(trusted::ed25519_valid(last.2, last.0 + N::le_bytes(last.1), last.3));
        let ids = votes.map_values(|v: PrecommitView| v.3);
        assert(ids.drop_last() =~= front.map_values(|v: PrecommitView| v.3));
        assert(ids.last() == last.3);
    }
}

proof fn lemma_weight_of_all_covers(list: Seq<(AuthorityId, u64)>, ids: Seq<Seq<u8>>)
    requires
        ids.no_duplicates(),
        forall|i: int| 0 <= i < list.len() ==> ids.contains((#[trigger] list[i]).0@),
    ensures
        weight_of_all(list, ids) == grandpa::total_weight(list),
    decreases list.len(), ids.len(),
{
    if list.len() == 0 {
        if ids.len() > 0 {
            lemma_weight_of_all_covers(list, ids.drop_last());
        }
    } else {
        assert(ids.contains(list[list.len() - 1].0@));
        lemma_weight_of_all_step(list, ids);
        let front = list.drop_last();
        assert forall|i: int| 0 <= i < front.len() implies ids.contains(
            (#[trigger] front[i]).0@,
        ) by {
            assert(front[i] == list[i]);
        }
        lemma_weight_of_all_covers(front, ids);
    }
}

/// Where every listed authority signs one precommit and no author signs two, the signed weight is
/// the weight of all authorities.
pub proof fn law_full_participation_is_the_whole_weight<N: GrandpaNumber>(
    list: Seq<(AuthorityId, u64)>,
    votes: Seq<PrecommitView>,
)
    requires
        forall|i: int, j: int| 0 <= i < j < votes.len() ==> votes[i].3 != votes[j].3,
        forall|i: int|
            0 <= i < list.len() ==> exists|k: int|
                0 <= k < votes.len() && (#[trigger] votes[k]).3 == (#[trigger] list[i]).0@,
        forall|k: int|
            0 <= k < votes.len() ==> trusted::ed25519_valid(
                (#[trigger] votes[k]).2,
                votes[k].0 + N::le_bytes(votes[k].1),
                votes[k].3,
            ),
    ensures
        signed_weight::<N>(grandpa::accumulated(list), votes) == grandpa::total_weight(list),
{
    let ids = votes.map_values(|v: PrecommitView| v.3);
    assert(ids.no_duplicates());
    assert forall|i: int| 0 <= i < list.len() implies ids.contains((#[trigger] list[i]).0@) by {
        let k = choose|k: int| 0 <= k < votes.len() && (#[trigger] votes[k]).3 == list[i].0@;
        assert(ids[k] == list[i].0@);
    }
    lemma_all_signed::<N>(list, votes);
    lemma_weight_of_all_covers(list, ids);
}

/// Sums of weights are kept as they are up to the largest 64-bit number, and at that number above
/// it.
pub proof fn law_only_excessive_weight_is_capped(n: nat)
    ensures
        n <= 0xffff_ffff_ffff_ffff ==> capped(n) == n,
        n > 0xffff_ffff_ffff_ffff ==> capped(n) == 0xffff_ffff_ffff_ffff,
{
}

/// Voters that describe an authority list are its authorities with an entry of positive weight, and
/// weigh together what all its entries weigh.
pub proof fn law_voters_describe_their_list(
    voters: Voters,
    list: Seq<(AuthorityId, u64)>,
    id: Seq<u8>,
)
    requires
        voters.describes(list),
    ensures
        voters.total() == grandpa::total_weight(list),
        voters.weights().contains_key(id) <==> exists|i: int|
            0 <= i < list.len() && (#[trigger] list[i]).0@ == id && list[i].1 > 0,
        voters.weights().contains_key(id) ==> voters.weights()[id] == grandpa::weight_of(list, id),
{
    grandpa::law_voters_have_an_entry_with_weight(list, id);
}

} // verus!
