//! Chains, blocks, state transitions and the proofs about them.

use vstd::prelude::*;
use vstd::std_specs::cmp::PartialEqSpec;

use crate::grandpa::BlockHash;

verus! {

/// The identifier of a chain.
#[derive(Debug)]
pub struct ChainId {
    pub id: String,
}

impl ChainId {
    /// The chain with the given identifier.
    pub fn new(id: &str) -> (r: Self)
        ensures
            r.id@ == id@,
    {
        ChainId { id: id.to_owned() }
    }

    /// The text of the identifier.
    pub fn as_str(&self) -> (r: &str)
        ensures
            r@ == self.id@,
    {
        self.id.as_str()
    }
}

impl Default for ChainId {
    fn default() -> (r: Self)
        ensures
            r.id@ == Seq::<char>::empty(),
    {
        ChainId { id: String::new() }
    }
}

impl Clone for ChainId {
    fn clone(&self) -> (r: Self)
        ensures
            r == *self,
    {
        ChainId { id: self.id.clone() }
    }
}

impl PartialEq for ChainId {
    fn eq(&self, other: &Self) -> (r: bool) {
        self.id == other.id
    }
}

impl vstd::std_specs::cmp::PartialEqSpecImpl for ChainId {
    open spec fn obeys_eq_spec() -> bool {
        true
    }

    open spec fn eq_spec(&self, other: &Self) -> bool {
        self.id@ == other.id@
    }
}

/// A block of a chain.
#[derive(Debug)]
pub struct BlockRef {
    pub chain_id: ChainId,
    pub number: u64,
    pub hash: BlockHash,
}

impl Default for BlockRef {
    fn default() -> (r: Self)
        ensures
            r.chain_id.id@ == Seq::<char>::empty(),
            r.number == 0,
            r.hash@ == Seq::new(32, |i: int| 0u8),
    {
        let hash: BlockHash = [0; 32];
        assert(hash@ =~= Seq::new(32, |i: int| 0u8));
        BlockRef { chain_id: ChainId::default(), number: 0, hash }
    }
}

impl Clone for BlockRef {
    fn clone(&self) -> (r: Self)
        ensures
            r == *self,
    {
        BlockRef { chain_id: self.chain_id.clone(), number: self.number, hash: self.hash }
    }
}

/// The kind of a proof.
#[derive(Debug)]
pub enum ProofType {
    Basic,
    Merkle,
    Signature,
    Custom(String),
}

/// What a proof type says.
pub enum ProofTypeView {
    Basic,
    Merkle,
    Signature,
    Custom(Seq<char>),
}

impl View for ProofType {
    type V = ProofTypeView;

    open spec fn view(&self) -> ProofTypeView {
        match self {
            ProofType::Basic => ProofTypeView::Basic,
            ProofType::Merkle => ProofTypeView::Merkle,
            ProofType::Signature => ProofTypeView::Signature,
            ProofType::Custom(name) => ProofTypeView::Custom(name@),
        }
    }
}

impl Clone for ProofType {
    fn clone(&self) -> (r: Self)
        ensures
            r == *self,
    {
        match self {
            ProofType::Basic => ProofType::Basic,
            ProofType::Merkle => ProofType::Merkle,
            ProofType::Signature => ProofType::Signature,
            ProofType::Custom(name) => ProofType::Custom(name.clone()),
        }
    }
}

impl PartialEq for ProofType {
    fn eq(&self, other: &Self) -> (r: bool) {
        match (self, other) {
            (ProofType::Basic, ProofType::Basic) => true,
            (ProofType::Merkle, ProofType::Merkle) => true,
            (ProofType::Signature, ProofType::Signature) => true,
            (ProofType::Custom(a), ProofType::Custom(b)) => *a == *b,
            _ => false,
        }
    }
}

impl vstd::std_specs::cmp::PartialEqSpecImpl for ProofType {
    open spec fn obeys_eq_spec() -> bool {
        true
    }

    open spec fn eq_spec(&self, other: &Self) -> bool {
        self@ == other@
    }
}

/// The state of a chain at a block.
#[derive(Debug)]
pub struct StateRoot {
    pub block_ref: BlockRef,
    pub root_hash: BlockHash,
    pub metadata: Option<String>,
}

impl Default for StateRoot {
    fn default() -> (r: Self)
        ensures
            r.block_ref.chain_id.id@ == Seq::<char>::empty(),
            r.block_ref.number == 0,
            r.block_ref.hash@ == Seq::new(32, |i: int| 0u8),
            r.root_hash@ == Seq::new(32, |i: int| 0u8),
            r.metadata is None,
    {
        let root_hash: BlockHash = [0; 32];
        assert(root_hash@ =~= Seq::new(32, |i: int| 0u8));
        StateRoot { block_ref: BlockRef::default(), root_hash, metadata: None }
    }
}

impl Clone for StateRoot {
    fn clone(&self) -> (r: Self)
        ensures
            r == *self,
    {
        let metadata = match &self.metadata {
            Some(text) => Some(text.clone()),
            None => None,
        };
        StateRoot { block_ref: self.block_ref.clone(), root_hash: self.root_hash, metadata }
    }
}

/// The runtime call that a transition was observed for, and the chain it is meant for.
#[derive(Debug)]
pub struct ChainSpecific {
    pub module_name: String,
    pub function_name: String,
    pub target_chain: String,
}

impl Clone for ChainSpecific {
    fn clone(&self) -> (r: Self)
        ensures
            r == *self,
    {
        ChainSpecific {
            module_name: self.module_name.clone(),
            function_name: self.function_name.clone(),
            target_chain: self.target_chain.clone(),
        }
    }
}

/// What is known about a transition besides the states.
#[derive(Debug)]
pub struct TransitionMetadata {
    pub timestamp: u64,
    pub version: u32,
    pub proof_type: ProofType,
    pub chain_specific: Option<ChainSpecific>,
}

impl Default for TransitionMetadata {
    fn default() -> (r: Self)
        ensures
            r.timestamp == 0,
            r.version == 0,
            r.proof_type is Basic,
            r.chain_specific is None,
    {
        TransitionMetadata {
            timestamp: 0,
            version: 0,
            proof_type: ProofType::Basic,
            chain_specific: None,
        }
    }
}

impl Clone for TransitionMetadata {
    fn clone(&self) -> (r: Self)
        ensures
            r == *self,
    {
        let chain_specific = match &self.chain_specific {
            Some(c) => Some(c.clone()),
            None => None,
        };
        TransitionMetadata {
            timestamp: self.timestamp,
            version: self.version,
            proof_type: self.proof_type.clone(),
            chain_specific,
        }
    }
}

/// The bytes in an optional byte vector.
pub open spec fn optional_bytes(bytes: Option<Vec<u8>>) -> Option<Seq<u8>> {
    match bytes {
        Some(b) => Some(b@),
        None => None,
    }
}

/// Copies a byte slice.
pub fn copied(bytes: &[u8]) -> (r: Vec<u8>)
    ensures
        r@ == bytes@,
{
    vstd::slice::slice_to_vec(bytes)
}

/// A transition of a chain from one state to another.
#[derive(Debug)]
pub struct StateTransition {
    pub chain_id: ChainId,
    pub block_height: u64,
    pub pre_state: StateRoot,
    pub post_state: StateRoot,
    pub transition_proof: Option<Vec<u8>>,
    pub metadata: TransitionMetadata,
}

/// What a transition says.
pub struct TransitionView {
    pub chain_id: ChainId,
    pub block_height: u64,
    pub pre_state: StateRoot,
    pub post_state: StateRoot,
    pub transition_proof: Option<Seq<u8>>,
    pub metadata: TransitionMetadata,
}

impl View for StateTransition {
    type V = TransitionView;

    open spec fn view(&self) -> TransitionView {
        TransitionView {
            chain_id: self.chain_id,
            block_height: self.block_height,
            pre_state: self.pre_state,
            post_state: self.post_state,
            transition_proof: optional_bytes(self.transition_proof),
            metadata: self.metadata,
        }
    }
}

impl Clone for StateTransition {
    fn clone(&self) -> (r: Self)
        ensures
            r@ == self@,
    {
        let transition_proof = match &self.transition_proof {
            Some(bytes) => Some(copied(bytes.as_slice())),
            None => None,
        };
        StateTransition {
            chain_id: self.chain_id.clone(),
            block_height: self.block_height,
            pre_state: self.pre_state.clone(),
            post_state: self.post_state.clone(),
            transition_proof,
            metadata: self.metadata.clone(),
        }
    }
}

/// A block as proofs mention it, with its hashes in hexadecimal notation.
#[derive(Debug)]
pub struct BlockSummary {
    pub number: u32,
    pub hash: String,
    pub parent_hash: String,
}

/// What a block summary says.
pub struct SummaryView {
    pub number: u32,
    pub hash: Seq<char>,
    pub parent_hash: Seq<char>,
}

impl View for BlockSummary {
    type V = SummaryView;

    open spec fn view(&self) -> SummaryView {
        SummaryView {
            number: self.number,
            hash: self.hash@,
            parent_hash: self.parent_hash@,
        }
    }
}

impl Clone for BlockSummary {
    fn clone(&self) -> (r: Self)
        ensures
            r == *self,
    {
        BlockSummary {
            number: self.number,
            hash: self.hash.clone(),
            parent_hash: self.parent_hash.clone(),
        }
    }
}

/// A validator as proofs mention it, with its key in hexadecimal notation.
#[derive(Debug)]
pub struct ValidatorEntry {
    pub id: String,
    pub weight: u64,
}

impl View for ValidatorEntry {
    type V = (Seq<char>, u64);

    open spec fn view(&self) -> (Seq<char>, u64) {
        (self.id@, self.weight)
    }
}

impl Clone for ValidatorEntry {
    fn clone(&self) -> (r: Self)
        ensures
            r == *self,
    {
        ValidatorEntry { id: self.id.clone(), weight: self.weight }
    }
}

fn copied_entries(entries: &Vec<ValidatorEntry>) -> (r: Vec<ValidatorEntry>)
    ensures
        r@ == entries@,
{
    let mut r: Vec<ValidatorEntry> = Vec::new();
    let mut i: usize = 0;
    while i < entries.len()
        invariant
            i <= entries@.len(),
            r@ == entries@.take(i as int),
        decreases entries@.len() - i,
    {
        r.push(entries[i].clone());
        assert(r@ =~= entries@.take(i + 1));
        i += 1;
    }
    assert(r@ =~= entries@);
    r
}

/// What a proof refers to: the blocks of the transition and, by the kind of proof, a Merkle root
/// or the validators.
#[derive(Debug)]
pub struct ProofMetadata {
    pub validator_set: Option<Vec<ValidatorEntry>>,
    pub source_block: BlockSummary,
    pub target_block: BlockSummary,
    pub merkle_root: Option<String>,
}

/// What proof metadata say.
#[verifier::ext_equal]
pub struct MetadataView {
    pub validator_set: Option<Seq<(Seq<char>, u64)>>,
    pub source_block: SummaryView,
    pub target_block: SummaryView,
    pub merkle_root: Option<Seq<char>>,
}

impl View for ProofMetadata {
    type V = MetadataView;

    open spec fn view(&self) -> MetadataView {
        MetadataView {
            validator_set: match self.validator_set {
                Some(entries) => Some(entries@.map_values(|e: ValidatorEntry| e@)),
                None => None,
            },
            source_block: self.source_block@,
            target_block: self.target_block@,
            merkle_root: match self.merkle_root {
                Some(root) => Some(root@),
                None => None,
            },
        }
    }
}

impl Clone for ProofMetadata {
    fn clone(&self) -> (r: Self)
        ensures
            r@ == self@,
    {
        let validator_set = match &self.validator_set {
            Some(entries) => Some(copied_entries(entries)),
            None => None,
        };
        let merkle_root = match &self.merkle_root {
            Some(root) => Some(root.clone()),
            None => None,
        };
        ProofMetadata {
            validator_set,
            source_block: self.source_block.clone(),
            target_block: self.target_block.clone(),
            merkle_root,
        }
    }
}

/// The data of a proof, with times in nanoseconds.
#[derive(Debug)]
pub struct ProofData {
    pub proof_type: ProofType,
    pub data: Vec<u8>,
    pub metadata: Option<ProofMetadata>,
    pub generated_at: u128,
    pub expires_at: Option<u128>,
    pub version: u32,
}

/// What the data of a proof say.
#[verifier::ext_equal]
pub struct ProofDataView {
    pub proof_type: ProofTypeView,
    pub data: Seq<u8>,
    pub metadata: Option<MetadataView>,
    pub generated_at: u128,
    pub expires_at: Option<u128>,
    pub version: u32,
}

impl View for ProofData {
    type V = ProofDataView;

    open spec fn view(&self) -> ProofDataView {
        ProofDataView {
            proof_type: self.proof_type@,
            data: self.data@,
            metadata: match self.metadata {
                Some(m) => Some(m@),
                None => None,
            },
            generated_at: self.generated_at,
            expires_at: self.expires_at,
            version: self.version,
        }
    }
}

impl Clone for ProofData {
    fn clone(&self) -> (r: Self)
        ensures
            r@ == self@,
    {
        let metadata = match &self.metadata {
            Some(m) => Some(m.clone()),
            None => None,
        };
        ProofData {
            proof_type: self.proof_type.clone(),
            data: copied(self.data.as_slice()),
            metadata,
            generated_at: self.generated_at,
            expires_at: self.expires_at,
            version: self.version,
        }
    }
}

/// A proof of a state transition.
#[derive(Debug)]
pub struct StateProof {
    pub transition: StateTransition,
    pub proof: ProofData,
}

impl View for StateProof {
    type V = (TransitionView, ProofDataView);

    open spec fn view(&self) -> (TransitionView, ProofDataView) {
        (self.transition@, self.proof@)
    }
}

impl Clone for StateProof {
    fn clone(&self) -> (r: Self)
        ensures
            r@ == self@,
    {
        StateProof { transition: self.transition.clone(), proof: self.proof.clone() }
    }
}

impl StateProof {
    /// The proof of a transition with the given data.
    pub fn new(transition: StateTransition, proof: ProofData) -> (r: Self)
        ensures
            r.transition == transition,
            r.proof == proof,
    {
        StateProof { transition, proof }
    }

    /// The kind of the proof.
    pub fn proof_type(&self) -> (r: &ProofType)
        ensures
            *r == self.proof.proof_type,
    {
        &self.proof.proof_type
    }
}

/// Why a state could not be proved or verified.
#[derive(Debug)]
pub enum StateError {
    Internal(String),
}

impl View for StateError {
    type V = Seq<char>;

    open spec fn view(&self) -> Seq<char> {
        match self {
            StateError::Internal(m) => m@,
        }
    }
}

/// What a transition says is what it holds; the bytes that it carries are read as they are.
pub proof fn law_transitions_say_what_they_hold(t: StateTransition)
    ensures
        t@.chain_id == t.chain_id,
        t@.block_height == t.block_height,
        t@.pre_state == t.pre_state,
        t@.post_state == t.post_state,
        t@.metadata == t.metadata,
        t.transition_proof matches Some(bytes) ==> t@.transition_proof == Some(bytes@),
        t.transition_proof is None ==> t@.transition_proof is None,
{
}

/// What a proof says is what it holds: its transition, its data, the blocks that it names and, by its
/// kind, the validators or the root.
pub proof fn law_proofs_say_what_they_hold(p: StateProof, m: ProofMetadata, e: StateError, k: int)
    ensures
        p@.0 == p.transition@,
        p@.1 == p.proof@,
        p.proof@.proof_type == p.proof.proof_type@,
        p.proof@.data == p.proof.data@,
        p.proof@.generated_at == p.proof.generated_at,
        p.proof@.expires_at == p.proof.expires_at,
        p.proof@.version == p.proof.version,
        p.proof.metadata matches Some(held) ==> p.proof@.metadata == Some(held@),
        p.proof.metadata is None ==> p.proof@.metadata is None,
        m@.source_block == m.source_block@,
        m@.target_block == m.target_block@,
        m.merkle_root matches Some(root) ==> m@.merkle_root == Some(root@),
        m.merkle_root is None ==> m@.merkle_root is None,
        m.validator_set is None ==> m@.validator_set is None,
        m.validator_set matches Some(set) ==> (m@.validator_set matches Some(said) && {
            &&& said.len() == set@.len()
            &&& 0 <= k < set@.len() ==> said[k].0 == set@[k].id@ && said[k].1 == set@[k].weight
        }),
        e matches StateError::Internal(message) && e@ == message@,
{
}

/// What a block summary says is what it holds.
pub proof fn law_summaries_say_what_they_hold(block: BlockSummary)
    ensures
        block@.number == block.number,
        block@.hash == block.hash@,
        block@.parent_hash == block.parent_hash@,
{
}

/// Kinds of proof are told apart, and custom ones by their names.
pub proof fn law_kinds_of_proof_are_told_apart(name: String)
    ensures
        ProofType::Basic@ == ProofTypeView::Basic,
        ProofType::Merkle@ == ProofTypeView::Merkle,
        ProofType::Signature@ == ProofTypeView::Signature,
        ProofType::Custom(name)@ == ProofTypeView::Custom(name@),
{
}

/// Chains are equal exactly where their names are.
pub proof fn law_chains_are_equal_by_name(a: ChainId, b: ChainId)
    ensures
        ChainId::obeys_eq_spec(),
        a.eq_spec(&b) <==> a.id@ == b.id@,
{
}

/// Kinds of proof are equal exactly where they are the same one or, both custom, have one name.
pub proof fn law_kinds_of_proof_are_equal_by_name(a: ProofType, b: ProofType)
    ensures
        ProofType::obeys_eq_spec(),
        a.eq_spec(&b) <==> match (a, b) {
            (ProofType::Custom(x), ProofType::Custom(y)) => x@ == y@,
            (ProofType::Basic, ProofType::Basic) => true,
            (ProofType::Merkle, ProofType::Merkle) => true,
            (ProofType::Signature, ProofType::Signature) => true,
            _ => false,
        },
{
}

} // verus!
