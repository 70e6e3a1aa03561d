//! Authorities, votes and justifications of GRANDPA.

use vstd::prelude::*;

use crate::number::BlockNumber;

verus! {

/// The hash of a block.
pub type BlockHash = [u8; 32];

/// The raw public key of a GRANDPA authority.
pub type AuthorityId = [u8; 32];

/// The raw signature of a GRANDPA authority.
pub type AuthoritySignature = [u8; 64];

/// The voting weight of an authority.
pub type AuthorityWeight = u64;

/// Authorities with their weights, in the order in which the runtime lists them.
pub type AuthorityList = Vec<(AuthorityId, AuthorityWeight)>;

/// Copies an authority list.
pub fn copied_authorities(list: &AuthorityList) -> (r: AuthorityList)
    ensures
        r@ == list@,
{
    let mut r: AuthorityList = Vec::new();
    let mut i: usize = 0;
    while i < list.len()
        invariant
            i <= list@.len(),
            r@ == list@.take(i as int),
        decreases list@.len() - i,
    {
        r.push(list[i]);
        assert(r@ =~= list@.take(i + 1));
        i += 1;
    }
    assert(r@ =~= list@);
    r
}

/// The summed weight of all entries of an authority list.
pub open spec fn total_weight(list: Seq<(AuthorityId, u64)>) -> nat
    decreases list.len(),
{
    if list.len() == 0 {
        0
    } else {
        total_weight(list.drop_last()) + list.last().1 as nat
    }
}

/// The summed weight of all entries of `list` for `id`.
pub open spec fn weight_of(list: Seq<(AuthorityId, u64)>, id: Seq<u8>) -> nat
    decreases list.len(),
{
    if list.len() == 0 {
        0
    } else {
        weight_of(list.drop_last(), id) + if list.last().0@ == id {
            list.last().1 as nat
        } else {
            0
        }
    }
}

/// The weight of each voter, by the voter's raw public key.
pub type VoterWeights = Map<Seq<u8>, nat>;

/// The voters of `list`: every authority with a positive summed weight.
pub open spec fn accumulated(list: Seq<(AuthorityId, u64)>) -> VoterWeights {
    Map::new(|id: Seq<u8>| weight_of(list, id) > 0, |id: Seq<u8>| weight_of(list, id))
}

/// A precommit vote together with its author and signature.
#[derive(Debug)]
pub struct SignedPrecommit<N> {
    pub target_hash: BlockHash,
    pub target_number: N,
    pub signature: AuthoritySignature,
    pub id: AuthorityId,
}

/// What a signed precommit says: target hash, target number, signature and author.
pub type PrecommitView = (Seq<u8>, nat, Seq<u8>, Seq<u8>);

impl<N: BlockNumber> View for SignedPrecommit<N> {
    type V = PrecommitView;

    open spec fn view(&self) -> PrecommitView {
        (self.target_hash@, self.target_number.as_nat(), self.signature@, self.id@)
    }
}

/// A commit: the block it finalizes and the precommits for it.
#[derive(Debug)]
pub struct Commit<N> {
    pub target_hash: BlockHash,
    pub target_number: N,
    pub precommits: Vec<SignedPrecommit<N>>,
}

/// A GRANDPA justification: the round and the commit that ended it.
#[derive(Debug)]
pub struct GrandpaJustification<N> {
    pub round: u64,
    pub commit: Commit<N>,
}

/// What a justification says: round, target hash, target number and precommits.
pub type JustificationView = (u64, Seq<u8>, nat, Seq<PrecommitView>);

impl<N: BlockNumber> View for GrandpaJustification<N> {
    type V = JustificationView;

    open spec fn view(&self) -> JustificationView {
        (
            self.round,
            self.commit.target_hash@,
            self.commit.target_number.as_nat(),
            self.commit.precommits@.map_values(|p: SignedPrecommit<N>| p@),
        )
    }
}

/// The identifier of a consensus engine.
pub type ConsensusEngineId = [u8; 4];

/// The identifier of GRANDPA.
pub const GRANDPA_ENGINE_ID: ConsensusEngineId = [0x46, 0x52, 0x4e, 0x4b];

/// The encoded justifications of a block, each under its consensus engine.
pub type Justifications = Vec<(ConsensusEngineId, Vec<u8>)>;

/// The first justification of `engine` among `list`.
pub open spec fn justification_of(
    list: Seq<(ConsensusEngineId, Vec<u8>)>,
    engine: Seq<u8>,
) -> Option<Seq<u8>>
    decreases list.len(),
{
    if list.len() == 0 {
        None
    } else if list[0].0@ == engine {
        Some(list[0].1@)
    } else {
        justification_of(list.drop_first(), engine)
    }
}

/// The first justification of `engine` among `list`.
pub fn find_justification<'a>(
    list: &'a Justifications,
    engine: &ConsensusEngineId,
) -> (r: Option<&'a Vec<u8>>)
    ensures
        r matches Some(bytes) ==> justification_of(list@, engine@) == Some(bytes@),
        r is None ==> justification_of(list@, engine@) is None,
{
    let mut i: usize = 0;
    assert(list@.skip(0) =~= list@);
    while i < list.len()
        invariant
            i <= list@.len(),
            justification_of(list@, engine@) == justification_of(list@.skip(i as int), engine@),
        decreases list@.len() - i,
    {
        let id = &list[i].0;
        let ghost rest = list@.skip(i as int);
        assert(rest[0] == list@[i as int]);
        assert(rest.drop_first() =~= list@.skip(i + 1));
        if id[0] == engine[0] && id[1] == engine[1] && id[2] == engine[2] && id[3] == engine[3] {
            assert(id@ =~= engine@);
            return Some(&list[i].1);
        }
        assert(id@ != engine@) by {
            if id@ == engine@ {
                assert(id@[0] == engine@[0] && id@[1] == engine@[1] && id@[2] == engine@[2]
                    && id@[3] == engine@[3]);
            }
        }
        i += 1;
    }
    None
}

/// The view of a justification that may be absent.
pub open spec fn optional_view<N: BlockNumber>(
    justification: Option<GrandpaJustification<N>>,
) -> Option<JustificationView> {
    match justification {
        Some(j) => Some(j@),
        None => None,
    }
}

/// The weight of an authority list is what its entries weigh together: nothing without entries, and
/// each entry adds its weight, wherever it stands.
pub proof fn law_every_entry_adds_its_weight(
    before: Seq<(AuthorityId, u64)>,
    entry: (AuthorityId, u64),
    after: Seq<(AuthorityId, u64)>,
)
    ensures
        total_weight(Seq::empty()) == 0,
        total_weight(before.push(entry) + after) == total_weight(before + after) + entry.1,
    decreases after.len(),
{
    if after.len() == 0 {
        assert(before.push(entry) + after =~= before.push(entry));
        assert(before + after =~= before);
        assert(before.push(entry).drop_last() =~= before);
    } else {
        let with = before.push(entry) + after;
        let without = before + after;
        assert(with.drop_last() =~= before.push(entry) + after.drop_last());
        assert(without.drop_last() =~= before + after.drop_last());
        law_every_entry_adds_its_weight(before, entry, after.drop_last());
    }
}

/// An authority weighs what the entries under its own key weigh together: each of them adds its
/// weight, and no other entry does.
pub proof fn law_own_entries_add_to_an_authority(
    list: Seq<(AuthorityId, u64)>,
    entry: (AuthorityId, u64),
    id: Seq<u8>,
)
    ensures
        weight_of(Seq::empty(), id) == 0,
        entry.0@ == id ==> weight_of(list.push(entry), id) == weight_of(list, id) + entry.1,
        entry.0@ != id ==> weight_of(list.push(entry), id) == weight_of(list, id),
{
    assert(list.push(entry).drop_last() =~= list);
}

/// The voters of a list are the authorities with an entry of positive weight, each with what its
/// entries weigh together; an authority with one entry votes with the weight of that entry.
pub proof fn law_voters_have_an_entry_with_weight(list: Seq<(AuthorityId, u64)>, id: Seq<u8>)
    ensures
        accumulated(list).contains_key(id) <==> exists|i: int|
            0 <= i < list.len() && (#[trigger] list[i]).0@ == id && list[i].1 > 0,
        accumulated(list).contains_key(id) ==> accumulated(list)[id] == weight_of(list, id),
        forall|i: int|
            0 <= i < list.len() && (#[trigger] list[i]).0@ == id && (forall|j: int|
                0 <= j < list.len() && j != i ==> (#[trigger] list[j]).0@ != id) ==> weight_of(
                list,
                id,
            ) == list[i].1,
    decreases list.len(),
{
    if list.len() > 0 {
        let front = list.drop_last();
        law_voters_have_an_entry_with_weight(front, id);
        if accumulated(list).contains_key(id) {
            if list.last().0@ == id && list.last().1 > 0 {
                assert(list[list.len() - 1].0@ == id);
            } else {
                let i = choose|i: int|
                    0 <= i < front.len() && (#[trigger] front[i]).0@ == id && front[i].1 > 0;
                assert(list[i].0@ == id);
            }
        }
        if exists|i: int| 0 <= i < list.len() && (#[trigger] list[i]).0@ == id && list[i].1 > 0 {
            let i = choose|i: int|
                0 <= i < list.len() && (#[trigger] list[i]).0@ == id && list[i].1 > 0;
            if i < front.len() {
                assert(front[i].0@ == id);
            }
        }
        assert forall|i: int|
            0 <= i < list.len() && (#[trigger] list[i]).0@ == id && (forall|j: int|
                0 <= j < list.len() && j != i ==> (#[trigger] list[j]).0@ != id) implies weight_of(
            list,
            id,
        ) == list[i].1 by {
            if i < front.len() {
                assert(front[i].0@ == id);
                assert(list[list.len() - 1].0@ != id);
                assert forall|j: int| 0 <= j < front.len() && j != i implies (
                #[trigger] front[j]).0@ != id by {
                    assert(list[j].0@ != id);
                }
            } else {
                lemma_no_entry_no_weight(front, id);
            }
        }
    }
}

proof fn lemma_no_entry_no_weight(list: Seq<(AuthorityId, u64)>, id: Seq<u8>)
    requires
        forall|j: int| 0 <= j < list.len() ==> (#[trigger] list[j]).0@ != id,
    ensures
        weight_of(list, id) == 0,
    decreases list.len(),
{
    if list.len() > 0 {
        assert(list[list.len() - 1].0@ != id);
        assert forall|j: int| 0 <= j < list.drop_last().len() implies (
        #[trigger] list.drop_last()[j]).0@ != id by {
            assert(list[j].0@ != id);
        }
        lemma_no_entry_no_weight(list.drop_last(), id);
    }
}

/// The justification of an engine is the bytes of the first entry under its identifier, whatever
/// stands around it.
pub proof fn law_first_entry_of_the_engine_counts(
    list: Seq<(ConsensusEngineId, Vec<u8>)>,
    engine: Seq<u8>,
    k: int,
)
    requires
        0 <= k < list.len(),
        list[k].0@ == engine,
        forall|j: int| 0 <= j < k ==> (#[trigger] list[j]).0@ != engine,
    ensures
        justification_of(list, engine) == Some(list[k].1@),
    decreases k,
{
    if k > 0 {
        assert(list[0].0@ != engine);
        let rest = list.drop_first();
        assert forall|j: int| 0 <= j < k - 1 implies (#[trigger] rest[j]).0@ != engine by {
            assert(list[j + 1].0@ != engine);
        }
        law_first_entry_of_the_engine_counts(rest, engine, k - 1);
    }
}

/// Without an entry under its identifier an engine has no justification.
pub proof fn law_no_entry_no_justification(
    list: Seq<(ConsensusEngineId, Vec<u8>)>,
    engine: Seq<u8>,
)
    requires
        forall|j: int| 0 <= j < list.len() ==> (#[trigger] list[j]).0@ != engine,
    ensures
        justification_of(list, engine) is None,
    decreases list.len(),
{
    if list.len() > 0 {
        assert(list[0].0@ != engine);
        let rest = list.drop_first();
        assert forall|j: int| 0 <= j < rest.len() implies (#[trigger] rest[j]).0@ != engine by {
            assert(list[j + 1].0@ != engine);
        }
        law_no_entry_no_justification(rest, engine);
    }
}

/// What a justification says is what its fields hold: the round, the target of the commit, and
/// every precommit with its own target, signature and author, in order.
pub proof fn law_justifications_say_what_they_hold<N: BlockNumber>(
    justification: GrandpaJustification<N>,
    k: int,
)
    requires
        0 <= k < justification.commit.precommits@.len(),
    ensures
        justification@.0 == justification.round,
        justification@.1 == justification.commit.target_hash@,
        justification@.2 == justification.commit.target_number.as_nat(),
        justification@.3.len() == justification.commit.precommits@.len(),
        ({
            let vote = justification.commit.precommits@[k];
            let said = justification@.3[k];
            &&& said.0 == vote.target_hash@
            &&& said.1 == vote.target_number.as_nat()
            &&& said.2 == vote.signature@
            &&& said.3 == vote.id@
        }),
        optional_view(Some(justification)) == Some(justification@),
        optional_view(None::<GrandpaJustification<N>>) is None,
{
}

/// GRANDPA goes by the four letters "FRNK".
pub proof fn law_grandpa_goes_by_its_letters()
    ensures
        GRANDPA_ENGINE_ID@[0] as int == 'F' as int,
        GRANDPA_ENGINE_ID@[1] as int == 'R' as int,
        GRANDPA_ENGINE_ID@[2] as int == 'N' as int,
        GRANDPA_ENGINE_ID@[3] as int == 'K' as int,
{
}

} // verus!
