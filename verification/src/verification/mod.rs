//! Verification of proofs by the verifier that supports their kind.

use std::sync::Arc;

use vstd::prelude::*;

use crate::finality::client::HeaderLookup;
use crate::observer::target::same_bytes;
use crate::proofs::generator;
use crate::proofs::generator::{covered_root, ProofGenerationConfig};
use crate::state::{ProofType, ProofTypeView, StateError, StateProof};

verus! {

/// What proof types say.
pub open spec fn type_views(types: Seq<ProofType>) -> Seq<ProofTypeView> {
    types.map_values(|t: ProofType| t@)
}

/// The outcome of a verification, as far as it can be compared.
pub open spec fn verdict_view(outcome: Result<bool, StateError>) -> Result<bool, Seq<char>> {
    match outcome {
        Ok(holds) => Ok(holds),
        Err(e) => Err(e@),
    }
}

/// Verifies proofs of some kinds, under parameters `P`.
pub trait ProofVerifier<P> {
    /// The kinds of proof that this verifier supports.
    spec fn types(&self) -> Seq<ProofTypeView>;

    /// Whether the verifier may give this outcome.
    spec fn may_find(
        &self,
        state_proof: StateProof,
        params: P,
        outcome: Result<bool, Seq<char>>,
    ) -> bool;

    /// Verifies a proof.
    fn verify_proof(&self, state_proof: &StateProof, params: &P) -> (r: Result<bool, StateError>)
        ensures
            self.may_find(*state_proof, *params, verdict_view(r)),
    ;

    /// The kinds of proof that this verifier supports.
    fn supported_types(&self) -> (r: Vec<ProofType>)
        ensures
            type_views(r@) == self.types(),
    ;
}

/// Verifies that a proof holds the root of the Merkle tree over the data of its transition.
#[derive(Clone, Copy, Debug)]
pub struct MerkleVerifier {}

/// Whether a proof holds the root of the Merkle tree over the data of its transition.
pub open spec fn holds_root(state_proof: StateProof) -> bool {
    Some(state_proof.proof.data@) == generator::tree_top(
        generator::leaves(generator::covered(state_proof.transition@)),
    )
}

impl<P> ProofVerifier<P> for MerkleVerifier {
    open spec fn types(&self) -> Seq<ProofTypeView> {
        seq![ProofTypeView::Basic]
    }

    open spec fn may_find(
        &self,
        state_proof: StateProof,
        params: P,
        outcome: Result<bool, Seq<char>>,
    ) -> bool {
        outcome == Ok::<bool, Seq<char>>(holds_root(state_proof))
    }

    fn verify_proof(&self, state_proof: &StateProof, params: &P) -> (r: Result<bool, StateError>) {
        match covered_root(&state_proof.transition) {
            Some(root) => Ok(same_bytes(root.as_slice(), state_proof.proof.data.as_slice())),
            None => Ok(false),
        }
    }

    fn supported_types(&self) -> (r: Vec<ProofType>) {
        let types = vec![ProofType::Basic];
        assert(type_views(types@) =~= seq![ProofTypeView::Basic]);
        types
    }
}

/// Takes charge of signature proofs. There is no signature scheme behind it yet: nothing is
/// verified, and every proof is let through.
#[derive(Clone, Copy, Debug)]
pub struct BLSVerifier {}

impl<P> ProofVerifier<P> for BLSVerifier {
    open spec fn types(&self) -> Seq<ProofTypeView> {
        seq![ProofTypeView::Signature]
    }

    open spec fn may_find(
        &self,
        state_proof: StateProof,
        params: P,
        outcome: Result<bool, Seq<char>>,
    ) -> bool {
        outcome == Ok::<bool, Seq<char>>(true)
    }

    fn verify_proof(&self, state_proof: &StateProof, params: &P) -> (r: Result<bool, StateError>) {
        Ok(true)
    }

    fn supported_types(&self) -> (r: Vec<ProofType>) {
        let types = vec![ProofType::Signature];
        assert(type_views(types@) =~= seq![ProofTypeView::Signature]);
        types
    }
}

/// Of the proofs of a transition, the Merkle verifier accepts those with the data that the Merkle
/// generator makes for it, and no others.
pub proof fn law_generated_proofs_are_accepted<P>(
    config: ProofGenerationConfig,
    source: HeaderLookup<u32>,
    target: HeaderLookup<u32>,
    now: u128,
    state_proof: StateProof,
    params: P,
    outcome: Result<bool, Seq<char>>,
)
    requires
        generator::merkle_prepared(
            config,
            source,
            target,
            generator::tree_top(
                generator::leaves(generator::covered(state_proof.transition@)),
            ),
            now,
        ) is Ok,
    ensures
        ({
            let made = generator::merkle_prepared(
                config,
                source,
                target,
                generator::tree_top(
                    generator::leaves(generator::covered(state_proof.transition@)),
                ),
                now,
            )->Ok_0;
            ProofVerifier::<P>::may_find(&MerkleVerifier {  }, state_proof, params, outcome)
                <==> outcome == Ok::<bool, Seq<char>>(state_proof.proof.data@ == made.data)
        }),
{
}

/// Verifiers, in the order in which they are asked.
#[verifier::reject_recursive_types(P)]
pub struct VerificationRegistry<P> {
    verifiers: Vec<Arc<dyn ProofVerifier<P>>>,
}

/// Whether a kind of proof is among those that are supported.
pub open spec fn supports(types: Seq<ProofTypeView>, kind: ProofTypeView) -> bool {
    exists|i: int| 0 <= i < types.len() && #[trigger] types[i] == kind
}

fn includes(types: &Vec<ProofType>, kind: &ProofType) -> (r: bool)
    ensures
        r == supports(type_views(types@), kind@),
{
    let mut i: usize = 0;
    while i < types.len()
        invariant
            i <= types@.len(),
            forall|j: int| 0 <= j < i ==> #[trigger] type_views(types@)[j] != kind@,
        decreases types@.len() - i,
    {
        if types[i] == *kind {
            assert(type_views(types@)[i as int] == kind@);
            return true;
        }
        i += 1;
    }
    false
}

fn append<A>(item: A, items: &mut Vec<A>)
    ensures
        final(items)@ == old(items)@.push(item),
{
    items.push(item);
}

/// What lists of proof types say.
pub open spec fn support_views(supported: Seq<Vec<ProofType>>) -> Seq<Seq<ProofTypeView>> {
    supported.map_values(|types: Vec<ProofType>| type_views(types@))
}

/// Whether the list `i` is the first that holds a kind of proof.
pub open spec fn is_first_in(
    supported: Seq<Seq<ProofTypeView>>,
    kind: ProofTypeView,
    i: int,
) -> bool {
    &&& 0 <= i < supported.len()
    &&& supports(supported[i], kind)
    &&& forall|j: int| 0 <= j < i ==> !supports(#[trigger] supported[j], kind)
}

/// Which of several verifiers decides about a kind of proof, by the kinds that each of them
/// supports: the first that supports it.
pub fn first_supporting(supported: &Vec<Vec<ProofType>>, kind: &ProofType) -> (r: Result<
    usize,
    StateError,
>)
    ensures
        match r {
            Ok(i) => is_first_in(support_views(supported@), kind@, i as int),
            Err(e) => e@ == "No suitable verifier found"@ && forall|i: int|
                !is_first_in(support_views(supported@), kind@, i),
        },
{
    let mut i: usize = 0;
    while i < supported.len()
        invariant
            i <= supported@.len(),
            forall|j: int|
                0 <= j < i ==> !supports(#[trigger] support_views(supported@)[j], kind@),
        decreases supported@.len() - i,
    {
        if includes(&supported[i], kind) {
            assert(supports(support_views(supported@)[i as int], kind@));
            return Ok(i);
        }
        i += 1;
    }
    Err(StateError::Internal("No suitable verifier found".to_owned()))
}

impl<P> VerificationRegistry<P> {
    /// The verifiers, in the order in which they are asked.
    pub closed spec fn registered(&self) -> Seq<Arc<dyn ProofVerifier<P>>> {
        self.verifiers@
    }

    /// The kinds of proof that each verifier supports.
    pub open spec fn supported(&self) -> Seq<Seq<ProofTypeView>> {
        Seq::new(self.registered().len(), |i: int| self.registered()[i].types())
    }

    /// Whether the verifier `i` is the first that supports a kind of proof.
    pub open spec fn is_first(&self, kind: ProofTypeView, i: int) -> bool {
        is_first_in(self.supported(), kind, i)
    }

    /// A registry without verifiers.
    pub fn new() -> (r: Self)
        ensures
            r.registered() == Seq::<Arc<dyn ProofVerifier<P>>>::empty(),
    {
        VerificationRegistry { verifiers: Vec::new() }
    }

    /// Adds a verifier, which is asked after those that are there already.
    pub fn register_verifier(&mut self, added: Arc<dyn ProofVerifier<P>>)
        ensures
            final(self).registered().len() == old(self).registered().len() + 1,
            final(self).registered().drop_last() == old(self).registered(),
            final(self).registered().last() == added,
    {
        append(added, &mut self.verifiers);
        assert(self.registered().drop_last() =~= old(self).registered());
    }

    /// Verifies a proof with the first verifier that supports its kind.
    pub fn verify_proof(&self, state_proof: &StateProof, params: &P) -> (r: Result<
        bool,
        StateError,
    >)
        ensures
            ({
                let kind = state_proof.proof.proof_type@;
                ||| exists|i: int| #[trigger]
                    self.is_first(kind, i) && self.registered()[i].may_find(
                        *state_proof,
                        *params,
                        verdict_view(r),
                    )
                ||| (forall|i: int| !self.is_first(kind, i)) && verdict_view(r) == Err::<bool, _>(
                    "No suitable verifier found"@,
                )
            }),
    {
        let mut supported: Vec<Vec<ProofType>> = Vec::new();
        let mut i: usize = 0;
        while i < self.verifiers.len()
            invariant
                i <= self.verifiers@.len(),
                supported@.len() == i,
                forall|j: int|
                    0 <= j < i ==> type_views((#[trigger] supported@[j])@)
                        == self.registered()[j].types(),
            decreases self.verifiers@.len() - i,
        {
            supported.push(self.verifiers[i].supported_types());
            i += 1;
        }
        assert(support_views(supported@) =~= self.supported());
        match first_supporting(&supported, state_proof.proof_type()) {
            Ok(first) => {
                assert(self.is_first(state_proof.proof.proof_type@, first as int));
                self.verifiers[first].verify_proof(state_proof, params)
            },
            Err(e) => {
                assert forall|i: int| !self.is_first(state_proof.proof.proof_type@, i) by {
                    assert(!is_first_in(
                        support_views(supported@),
                        state_proof.proof.proof_type@,
                        i,
                    ));
                }
                Err(e)
            },
        }
    }
}

/// At most one verifier is the first that supports a kind of proof.
pub proof fn law_one_verifier_decides<P>(
    registry: VerificationRegistry<P>,
    kind: ProofTypeView,
    i: int,
    j: int,
)
    requires
        registry.is_first(kind, i),
        registry.is_first(kind, j),
    ensures
        i == j,
{
    if i < j {
        assert(!supports(registry.supported()[i], kind));
    } else if j < i {
        assert(!supports(registry.supported()[j], kind));
    }
}

/// A verifier that decided about a kind of proof still does so when more verifiers are registered.
pub proof fn law_earlier_verifiers_keep_deciding<P>(
    before: VerificationRegistry<P>,
    after: VerificationRegistry<P>,
    kind: ProofTypeView,
    i: int,
)
    requires
        after.registered().len() == before.registered().len() + 1,
        after.registered().drop_last() == before.registered(),
        before.is_first(kind, i),
    ensures
        after.is_first(kind, i),
        after.registered()[i] == before.registered()[i],
{
    let rest = after.registered().drop_last();
    assert forall|j: int| 0 <= j <= i implies #[trigger] after.supported()[j]
        == before.supported()[j] by {
        assert(rest[j] == after.registered()[j]);
    }
    assert(rest[i] == after.registered()[i]);
}

/// The Merkle verifier takes basic proofs and finds exactly whether their data are the root of the
/// tree over the bytes of their transition; without bytes no proof holds.
pub proof fn law_merkle_verifier_compares_roots<P>(
    state_proof: StateProof,
    params: P,
    outcome: Result<bool, Seq<char>>,
)
    ensures
        ProofVerifier::<P>::types(&MerkleVerifier {  }) == seq![ProofTypeView::Basic],
        ({
            let found = ProofVerifier::<P>::may_find(
                &MerkleVerifier {  },
                state_proof,
                params,
                outcome,
            );
            match state_proof.transition.transition_proof {
                Some(bytes) => match generator::tree_top(generator::leaves(bytes@)) {
                    Some(root) => found <==> outcome == Ok::<bool, Seq<char>>(
                        state_proof.proof.data@ == root,
                    ),
                    None => found <==> outcome == Ok::<bool, Seq<char>>(false),
                },
                None => found <==> outcome == Ok::<bool, Seq<char>>(false),
            }
        }),
{
    if state_proof.transition.transition_proof is None {
        generator::law_root_needs_data(generator::covered(state_proof.transition@));
    }
}

/// The verifier of signature proofs takes these only, and lets every one through.
pub proof fn law_bls_verifier_lets_everything_through<P>(
    state_proof: StateProof,
    params: P,
    outcome: Result<bool, Seq<char>>,
)
    ensures
        ProofVerifier::<P>::types(&BLSVerifier {  }) == seq![ProofTypeView::Signature],
        ProofVerifier::<P>::may_find(&BLSVerifier {  }, state_proof, params, outcome) <==> outcome
            == Ok::<bool, Seq<char>>(true),
{
}

/// A verifier decides about a kind of proof exactly where the kind is among its own and not among
/// those of any verifier before it.
pub proof fn law_first_verifier_of_a_kind_decides(
    supported: Seq<Seq<ProofTypeView>>,
    kind: ProofTypeView,
    i: int,
)
    ensures
        is_first_in(supported, kind, i) <==> {
            &&& 0 <= i < supported.len()
            &&& supported[i].contains(kind)
            &&& forall|j: int| 0 <= j < i ==> !(#[trigger] supported[j]).contains(kind)
        },
{
    assert forall|j: int| 0 <= j < supported.len() implies supports(supported[j], kind) == (
    #[trigger] supported[j]).contains(kind) by {
        lemma_supports(supported[j], kind);
    }
    if is_first_in(supported, kind, i) {
        assert forall|j: int| 0 <= j < i implies !(#[trigger] supported[j]).contains(kind) by {
            assert(!supports(supported[j], kind));
        }
    }
}

proof fn lemma_supports(types: Seq<ProofTypeView>, kind: ProofTypeView)
    ensures
        supports(types, kind) == types.contains(kind),
{
}

/// Kinds of proof are compared in order and one by one, as the verifiers name them.
pub proof fn law_supported_kinds_are_those_of_the_verifiers<P>(
    registry: VerificationRegistry<P>,
    supported: Seq<Vec<ProofType>>,
    i: int,
    k: int,
)
    ensures
        registry.supported().len() == registry.registered().len(),
        0 <= i < registry.registered().len() ==> registry.supported()[i]
            == registry.registered()[i].types(),
        support_views(supported).len() == supported.len(),
        0 <= i < supported.len() ==> {
            &&& support_views(supported)[i].len() == supported[i]@.len()
            &&& 0 <= k < supported[i]@.len() ==> support_views(supported)[i][k] == supported[i]@[k]@
        },
{
}

/// The verifier that decides in a registry is the first one whose own kinds hold the kind of the
/// proof.
pub proof fn law_registry_asks_the_first_that_supports<P>(
    registry: VerificationRegistry<P>,
    kind: ProofTypeView,
    i: int,
)
    ensures
        registry.is_first(kind, i) <==> {
            &&& 0 <= i < registry.registered().len()
            &&& registry.registered()[i].types().contains(kind)
            &&& forall|j: int|
                0 <= j < i ==> !(#[trigger] registry.registered()[j]).types().contains(kind)
        },
{
    law_first_verifier_of_a_kind_decides(registry.supported(), kind, i);
    if 0 <= i < registry.registered().len() {
        assert(registry.supported()[i] == registry.registered()[i].types());
        assert forall|j: int| 0 <= j < i implies #[trigger] registry.supported()[j]
            == registry.registered()[j].types() by {}
        if registry.is_first(kind, i) {
            assert forall|j: int| 0 <= j < i implies !(
            #[trigger] registry.registered()[j]).types().contains(kind) by {
                assert(!registry.supported()[j].contains(kind));
            }
        }
    }
}

/// Verdicts are compared as they are, and errors by what they say.
pub proof fn law_verdicts_are_compared_as_they_are(holds: bool, e: StateError)
    ensures
        verdict_view(Ok(holds)) == Ok::<bool, Seq<char>>(holds),
        verdict_view(Err(e)) == Err::<bool, _>(e@),
{
}

} // verus!
