//! Generation of Merkle and signature proofs for state transitions.

use std::marker::PhantomData;
use std::sync::Arc;

use vstd::prelude::*;
use vstd::string::StringExecFns;

use crate::finality::client::{BlockHeader, HeaderLookup};
use crate::grandpa::{AuthorityId, AuthorityList, BlockHash};
use crate::state::{
    BlockSummary, MetadataView, ProofData, ProofDataView, ProofMetadata, ProofType, ProofTypeView,
    StateError, StateProof, StateTransition, SummaryView, TransitionView, ValidatorEntry,
};
use crate::text;
use crate::text::{joined, to_decimal};
use crate::trusted;
use crate::trusted::{hex_encode, sha256_digest, tree_root};

verus! {

/// Hashes the nodes of a Merkle tree with SHA-256.
#[derive(Clone, Copy, Debug)]
pub struct MerkleHasher;

impl rs_merkle::Hasher for MerkleHasher {
    type Hash = [u8; 32];

    fn hash(data: &[u8]) -> (r: [u8; 32])
        ensures
            r@ == trusted::sha256(data@),
    {
        sha256_digest(data)
    }
}

/// How proofs are generated.
#[derive(Debug)]
pub struct ProofGenerationConfig {
    /// Type of proof to generate.
    pub proof_type: ProofType,
    /// Maximum proof size in bytes.
    pub max_proof_size: u32,
    /// Time, in seconds, after which a proof expires.
    pub proof_ttl: u64,
}

/// Whether proofs are generated as by default: Merkle proofs of up to a megabyte that expire after
/// a day.
pub open spec fn is_default(config: ProofGenerationConfig) -> bool {
    &&& config.proof_type@ == ProofTypeView::Custom("Merkle"@)
    &&& config.max_proof_size == 1024 * 1024
    &&& config.proof_ttl == 3600 * 24
}

impl Default for ProofGenerationConfig {
    fn default() -> (r: Self)
        ensures
            is_default(r),
    {
        ProofGenerationConfig {
            proof_type: ProofType::Custom("Merkle".to_owned()),
            max_proof_size: 1024 * 1024,
            proof_ttl: 3600 * 24,
        }
    }
}

impl Clone for ProofGenerationConfig {
    fn clone(&self) -> (r: Self)
        ensures
            r == *self,
    {
        ProofGenerationConfig {
            proof_type: self.proof_type.clone(),
            max_proof_size: self.max_proof_size,
            proof_ttl: self.proof_ttl,
        }
    }
}

/// The first time, in nanoseconds since the epoch, that the system clock cannot express.
pub const END_OF_TIME: u128 = 9_223_372_036_854_775_808_000_000_000;

/// The number of nanoseconds in a second.
pub const SECOND: u128 = 1_000_000_000;

/// The number of bytes in an aggregated BLS signature.
pub const BLS_SIGNATURE_LEN: usize = 96;

/// The byte at place `j` of the leaf `i` of `data`: leaves hold 32 bytes each, and the last one is
/// filled up with zeros.
pub open spec fn leaf_byte(data: Seq<u8>, i: int, j: int) -> u8 {
    if 32 * i + j < data.len() {
        data[32 * i + j]
    } else {
        0
    }
}

/// The number of leaves of `data`.
pub open spec fn leaf_count(data: Seq<u8>) -> nat {
    (data.len() + 31) / 32
}

/// The leaves of the Merkle tree over `data`.
pub open spec fn leaves(data: Seq<u8>) -> Seq<Seq<u8>> {
    Seq::new(leaf_count(data), |i: int| Seq::new(32, |j: int| leaf_byte(data, i, j)))
}

/// The nodes above the given nodes of a Merkle tree: each hashes a pair of them, and a last one
/// without partner is taken over.
pub open spec fn level_above(nodes: Seq<Seq<u8>>) -> Seq<Seq<u8>> {
    Seq::new(
        (nodes.len() + 1) / 2,
        |i: int|
            if 2 * i + 1 < nodes.len() {
                trusted::sha256(nodes[2 * i] + nodes[2 * i + 1])
            } else {
                nodes[2 * i]
            },
    )
}

/// The root of a Merkle tree over the given leaves, unless there are none.
pub open spec fn tree_top(nodes: Seq<Seq<u8>>) -> Option<Seq<u8>>
    decreases nodes.len(),
{
    if nodes.len() == 0 {
        None
    } else if nodes.len() == 1 {
        Some(nodes[0])
    } else {
        tree_top(level_above(nodes))
    }
}

/// Splits `data` into the leaves of a Merkle tree.
pub fn split_leaves(data: &[u8]) -> (r: Vec<BlockHash>)
    ensures
        r@.map_values(|leaf: BlockHash| leaf@) == leaves(data@),
{
    let mut r: Vec<BlockHash> = Vec::new();
    let len: usize = data.len();
    let mut start: usize = 0;
    while start < len
        invariant
            len == data@.len(),
            start <= len,
            start == len || start == 32 * r@.len(),
            start == len ==> r@.len() == leaf_count(data@),
            start < len ==> r@.len() < leaf_count(data@),
            forall|i: int, j: int|
                0 <= i < r@.len() && 0 <= j < 32 ==> (#[trigger] r@[i]@[j]) == leaf_byte(
                    data@,
                    i,
                    j,
                ),
        decreases len - start,
    {
        let mut buffer: BlockHash = [0; 32];
        let size: usize = if len - start < 32 {
            len - start
        } else {
            32
        };
        let mut j: usize = 0;
        while j < size
            invariant
                len == data@.len(),
                start < len,
                j <= size <= 32,
                start + size <= len,
                forall|k: int| 0 <= k < j ==> buffer@[k] == data@[start + k],
                forall|k: int| j <= k < 32 ==> buffer@[k] == 0,
            decreases size - j,
        {
            buffer[j] = data[start + j];
            j += 1;
        }
        let ghost before = r@;
        r.push(buffer);
        proof {
            let n = before.len() as int;
            assert forall|i: int, j: int| 0 <= i < r@.len() && 0 <= j < 32 implies (
            #[trigger] r@[i]@[j]) == leaf_byte(data@, i, j) by {
                if i < n {
                    assert(r@[i] == before[i]);
                    assert(before[i]@[j] == leaf_byte(data@, i, j));
                }
            }
        }
        start = start + size;
    }
    proof {
        let views = r@.map_values(|leaf: BlockHash| leaf@);
        assert forall|i: int| 0 <= i < views.len() implies views[i] =~= #[trigger] leaves(
            data@,
        )[i] by {
            assert forall|j: int| 0 <= j < 32 implies views[i][j] == leaves(data@)[i][j] by {
                assert(r@[i]@[j] == leaf_byte(data@, i, j));
            }
        }
        assert(views =~= leaves(data@));
    }
    r
}

/// Data of one length with the same leaves are the same.
pub proof fn law_leaves_keep_the_data(a: Seq<u8>, b: Seq<u8>)
    requires
        a.len() == b.len(),
        leaves(a) == leaves(b),
    ensures
        a == b,
{
    assert forall|k: int| 0 <= k < a.len() implies a[k] == b[k] by {
        let i = k / 32;
        let j = k % 32;
        assert(leaves(a)[i][j] == leaf_byte(a, i, j));
        assert(leaves(b)[i][j] == leaf_byte(b, i, j));
    }
    assert(a =~= b);
}

/// The summary of a block.
pub open spec fn summary(header: BlockHeader<u32>) -> SummaryView {
    SummaryView {
        number: header.number,
        hash: text::hex(header.hash@),
        parent_hash: text::hex(header.parent_hash@),
    }
}

fn summarize(header: &BlockHeader<u32>) -> (r: BlockSummary)
    ensures
        r@ == summary(*header),
{
    BlockSummary {
        number: header.number,
        hash: hex_encode(header.hash.as_slice()),
        parent_hash: hex_encode(header.parent_hash.as_slice()),
    }
}

/// The header that a lookup found, or why there is none.
pub open spec fn looked_up(
    header: HeaderLookup<u32>,
    unanswered: Seq<char>,
    missing: Seq<char>,
) -> Result<BlockHeader<u32>, Seq<char>> {
    match header {
        Err(reason) => Err(unanswered + reason@),
        Ok(None) => Err(missing),
        Ok(Some(h)) => Ok(h),
    }
}

/// The headers of both blocks of a transition, or why one of them is missing.
pub open spec fn both_headers(source: HeaderLookup<u32>, target: HeaderLookup<u32>) -> Result<
    (BlockHeader<u32>, BlockHeader<u32>),
    Seq<char>,
> {
    match looked_up(source, "Failed to get source header: "@, "Source block not found"@) {
        Err(e) => Err(e),
        Ok(s) => match looked_up(
            target,
            "Failed to get target header: "@,
            "Target block not found"@,
        ) {
            Err(e) => Err(e),
            Ok(t) => Ok((s, t)),
        },
    }
}

fn look_up(header: &HeaderLookup<u32>, unanswered: &str, missing: &str) -> (r: Result<
    BlockHeader<u32>,
    StateError,
>)
    ensures
        match looked_up(*header, unanswered@, missing@) {
            Ok(h) => r == Ok::<_, StateError>(h),
            Err(e) => r matches Err(err) && err@ == e,
        },
{
    match header {
        Err(reason) => Err(StateError::Internal(joined(unanswered, reason.as_str()))),
        Ok(None) => Err(StateError::Internal(missing.to_owned())),
        Ok(Some(h)) => Ok(*h),
    }
}

fn look_up_both(source: &HeaderLookup<u32>, target: &HeaderLookup<u32>) -> (r: Result<
    (BlockHeader<u32>, BlockHeader<u32>),
    StateError,
>)
    ensures
        match both_headers(*source, *target) {
            Ok(headers) => r == Ok::<_, StateError>(headers),
            Err(e) => r matches Err(err) && err@ == e,
        },
{
    match look_up(source, "Failed to get source header: ", "Source block not found") {
        Err(e) => Err(e),
        Ok(s) => match look_up(target, "Failed to get target header: ", "Target block not found") {
            Err(e) => Err(e),
            Ok(t) => Ok((s, t)),
        },
    }
}

/// Whether the system clock can express the time at which a proof generated at `now` expires.
pub open spec fn expiry_fits(now: u128, ttl: u64) -> bool {
    now + ttl * SECOND < END_OF_TIME
}

/// Whether the system clock can express the time at which a proof generated at `now` expires.
pub fn can_expire(now: u128, ttl: u64) -> (r: bool)
    ensures
        r == expiry_fits(now, ttl),
{
    now < END_OF_TIME && now + ttl as u128 * SECOND < END_OF_TIME
}

/// The hashes of the blocks that a proof of a transition refers to: the block that it starts from,
/// and the one that it leads to.
pub fn blocks_to_look_up(transition: &StateTransition) -> (r: (BlockHash, BlockHash))
    ensures
        r.0 == transition.pre_state.block_ref.hash,
        r.1 == transition.post_state.block_ref.hash,
{
    (transition.pre_state.block_ref.hash, transition.post_state.block_ref.hash)
}

/// The time at which a proof generated at `now` expires.
pub open spec fn expiry(now: u128, ttl: u64) -> u128 {
    (now + ttl * SECOND) as u128
}

/// The data of a transition that a Merkle proof covers.
pub open spec fn covered(transition: TransitionView) -> Seq<u8> {
    match transition.transition_proof {
        Some(bytes) => bytes,
        None => Seq::empty(),
    }
}

/// The data of a Merkle proof with the given root.
pub open spec fn merkle_data(
    root: Seq<u8>,
    headers: (BlockHeader<u32>, BlockHeader<u32>),
    now: u128,
    ttl: u64,
) -> ProofDataView {
    ProofDataView {
        proof_type: ProofTypeView::Custom("Merkle"@),
        data: root,
        metadata: Some(
            MetadataView {
                validator_set: None,
                source_block: summary(headers.0),
                target_block: summary(headers.1),
                merkle_root: Some(text::hex(root)),
            },
        ),
        generated_at: now,
        expires_at: Some(expiry(now, ttl)),
        version: 1,
    }
}

/// The validators of an authority list, as proofs mention them.
pub open spec fn validators(list: Seq<(AuthorityId, u64)>) -> Seq<(Seq<char>, u64)> {
    list.map_values(|a: (AuthorityId, u64)| (text::hex(a.0@), a.1))
}

/// The data of a signature proof under the given authorities.
pub open spec fn signature_data(
    list: Seq<(AuthorityId, u64)>,
    headers: (BlockHeader<u32>, BlockHeader<u32>),
    now: u128,
    ttl: u64,
) -> ProofDataView {
    ProofDataView {
        proof_type: ProofTypeView::Signature,
        data: Seq::new(BLS_SIGNATURE_LEN as nat, |i: int| 0u8),
        metadata: Some(
            MetadataView {
                validator_set: Some(validators(list)),
                source_block: summary(headers.0),
                target_block: summary(headers.1),
                merkle_root: None,
            },
        ),
        generated_at: now,
        expires_at: Some(expiry(now, ttl)),
        version: 1,
    }
}

/// The message for a proof that is too large.
pub open spec fn too_large(size: nat, max: u32) -> Seq<char> {
    "Proof size "@ + text::decimal(size) + " exceeds maximum allowed size "@ + text::decimal(
        max as nat,
    )
}

/// The proof that comes of the given data, whose encoding has the given size or failed, or why
/// there is none.
pub open spec fn sized(
    transition: TransitionView,
    data: ProofDataView,
    encoded: Result<usize, String>,
    max: u32,
) -> Result<(TransitionView, ProofDataView), Seq<char>> {
    match encoded {
        Err(reason) => Err("Failed to encode proof: "@ + reason@),
        Ok(size) => if size > max {
            Err(too_large(size as nat, max))
        } else {
            Ok((transition, data))
        },
    }
}

/// The outcome of generating a proof, as far as it can be compared.
pub open spec fn proof_outcome(outcome: Result<StateProof, StateError>) -> Result<
    (TransitionView, ProofDataView),
    Seq<char>,
> {
    match outcome {
        Ok(p) => Ok(p@),
        Err(e) => Err(e@),
    }
}

/// The outcome of preparing the data of a proof, as far as it can be compared.
pub open spec fn data_outcome(outcome: Result<ProofData, StateError>) -> Result<
    ProofDataView,
    Seq<char>,
> {
    match outcome {
        Ok(d) => Ok(d@),
        Err(e) => Err(e@),
    }
}

/// The root of the Merkle tree over `data`; there is none over no data.
pub fn root_of(data: &[u8]) -> (r: Option<BlockHash>)
    ensures
        match r {
            Some(root) => tree_top(leaves(data@)) == Some(root@),
            None => tree_top(leaves(data@)) is None,
        },
        r is Some <==> data@.len() > 0,
{
    proof {
        law_root_needs_data(data@);
    }
    tree_root(&split_leaves(data))
}

/// The root of the Merkle tree over the data of a transition that a Merkle proof covers.
pub fn covered_root(transition: &StateTransition) -> (r: Option<BlockHash>)
    ensures
        match r {
            Some(root) => tree_top(leaves(covered(transition@))) == Some(root@),
            None => tree_top(leaves(covered(transition@))) is None,
        },
        r is Some <==> covered(transition@).len() > 0,
{
    match &transition.transition_proof {
        Some(bytes) => root_of(bytes.as_slice()),
        None => {
            let empty: Vec<u8> = Vec::new();
            root_of(empty.as_slice())
        },
    }
}

/// Makes a proof of the given data, unless their encoding failed or is too large. `encoded` is the
/// size of the encoded data in bytes, or why they could not be encoded.
pub fn finish_proof(
    transition: &StateTransition,
    data: ProofData,
    encoded: Result<usize, String>,
    max_proof_size: u32,
) -> (r: Result<StateProof, StateError>)
    ensures
        proof_outcome(r) == sized(transition@, data@, encoded, max_proof_size),
{
    match encoded {
        Err(reason) => Err(
            StateError::Internal(joined("Failed to encode proof: ", reason.as_str())),
        ),
        Ok(size) => if size as u64 > max_proof_size as u64 {
            let head = joined("Proof size ", to_decimal(size as u64).as_str());
            let middle = head.concat(" exceeds maximum allowed size ");
            Err(
                StateError::Internal(middle.concat(to_decimal(max_proof_size as u64).as_str())),
            )
        } else {
            Ok(StateProof::new(transition.clone(), data))
        },
    }
}

/// Generates Merkle proofs with a chain client `C` for blocks `B`.
pub struct MerkleProofGenerator<C, B> {
    client: Arc<C>,
    _phantom: PhantomData<B>,
}

/// The data of a Merkle proof, given the root of the tree, or why there are none.
pub open spec fn merkle_prepared(
    config: ProofGenerationConfig,
    source: HeaderLookup<u32>,
    target: HeaderLookup<u32>,
    root: Option<Seq<u8>>,
    now: u128,
) -> Result<ProofDataView, Seq<char>> {
    if config.proof_type@ != ProofTypeView::Custom("Merkle"@) {
        Err("Unsupported proof type"@)
    } else {
        match both_headers(source, target) {
            Err(e) => Err(e),
            Ok(headers) => match root {
                None => Err("Failed to get Merkle root"@),
                Some(r) => Ok(merkle_data(r, headers, now, config.proof_ttl)),
            },
        }
    }
}

/// Whether a Merkle proof is made: it is of the right kind, both blocks are known, and there is a
/// root.
pub open spec fn is_merkle_due(
    config: ProofGenerationConfig,
    source: HeaderLookup<u32>,
    target: HeaderLookup<u32>,
    has_root: bool,
) -> bool {
    &&& config.proof_type@ == ProofTypeView::Custom("Merkle"@)
    &&& both_headers(source, target) is Ok
    &&& has_root
}

impl<C, B> MerkleProofGenerator<C, B> {
    /// The chain client.
    pub closed spec fn chain_client(&self) -> Arc<C> {
        self.client
    }

    /// A generator with the given chain client.
    pub fn new(client: Arc<C>) -> (r: Self)
        ensures
            r.chain_client() == client,
    {
        MerkleProofGenerator { client, _phantom: PhantomData }
    }

    /// The chain client.
    pub fn client(&self) -> (r: &Arc<C>)
        ensures
            *r == self.chain_client(),
    {
        &self.client
    }

    /// The root of the Merkle tree over `data`; there is none over no data.
    pub fn generate_merkle_tree(&self, data: &[u8]) -> (r: Option<BlockHash>)
        ensures
            match r {
                Some(root) => tree_top(leaves(data@)) == Some(root@),
                None => tree_top(leaves(data@)) is None,
            },
            r is Some <==> data@.len() > 0,
    {
        root_of(data)
    }

    /// The data of a proof over a Merkle tree with the given root. `source` and `target` are the
    /// answers to the questions for the two blocks of the transition.
    pub fn prepare_with_root(
        &self,
        config: &ProofGenerationConfig,
        source: &HeaderLookup<u32>,
        target: &HeaderLookup<u32>,
        root: Option<BlockHash>,
        now: u128,
    ) -> (r: Result<ProofData, StateError>)
        requires
            is_merkle_due(*config, *source, *target, root is Some) ==> expiry_fits(
                now,
                config.proof_ttl,
            ),
        ensures
            data_outcome(r) == merkle_prepared(
                *config,
                *source,
                *target,
                match root {
                    Some(hash) => Some(hash@),
                    None => None,
                },
                now,
            ),
    {
        let merkle = ProofType::Custom("Merkle".to_owned());
        if config.proof_type != merkle {
            return Err(StateError::Internal("Unsupported proof type".to_owned()));
        }
        let headers = match look_up_both(source, target) {
            Ok(h) => h,
            Err(e) => {
                return Err(e);
            },
        };
        let root = match root {
            Some(hash) => hash,
            None => {
                return Err(StateError::Internal("Failed to get Merkle root".to_owned()));
            },
        };
        Ok(
            ProofData {
                proof_type: merkle,
                data: vstd::slice::slice_to_vec(root.as_slice()),
                metadata: Some(
                    ProofMetadata {
                        validator_set: None,
                        source_block: summarize(&headers.0),
                        target_block: summarize(&headers.1),
                        merkle_root: Some(hex_encode(root.as_slice())),
                    },
                ),
                generated_at: now,
                expires_at: Some(now + config.proof_ttl as u128 * SECOND),
                version: 1,
            },
        )
    }

    /// The data of a Merkle proof of a transition.
    pub fn prepare_proof(
        &self,
        transition: &StateTransition,
        config: &ProofGenerationConfig,
        source: &HeaderLookup<u32>,
        target: &HeaderLookup<u32>,
        now: u128,
    ) -> (r: Result<ProofData, StateError>)
        requires
            is_merkle_due(*config, *source, *target, covered(transition@).len() > 0)
                ==> expiry_fits(now, config.proof_ttl),
        ensures
            data_outcome(r) == merkle_prepared(
                *config,
                *source,
                *target,
                tree_top(leaves(covered(transition@))),
                now,
            ),
    {
        self.prepare_with_root(config, source, target, covered_root(transition), now)
    }

    /// Proves a transition. `encoded` is the size of the encoded proof data, or why they could not
    /// be encoded; it matters only where there are such data.
    pub fn generate_proof(
        &self,
        transition: &StateTransition,
        config: &ProofGenerationConfig,
        source: &HeaderLookup<u32>,
        target: &HeaderLookup<u32>,
        now: u128,
        encoded: Result<usize, String>,
    ) -> (r: Result<StateProof, StateError>)
        requires
            is_merkle_due(*config, *source, *target, covered(transition@).len() > 0)
                ==> expiry_fits(now, config.proof_ttl),
        ensures
            proof_outcome(r) == match merkle_prepared(
                *config,
                *source,
                *target,
                tree_top(leaves(covered(transition@))),
                now,
            ) {
                Ok(data) => sized(transition@, data, encoded, config.max_proof_size),
                Err(e) => Err(e),
            },
    {
        match self.prepare_proof(transition, config, source, target, now) {
            Ok(data) => finish_proof(transition, data, encoded, config.max_proof_size),
            Err(e) => Err(e),
        }
    }

    /// The kinds of proof that this generator makes.
    pub fn supported_types(&self) -> (r: Vec<ProofType>)
        ensures
            r@.len() == 1,
            r@[0]@ == ProofTypeView::Custom("Merkle"@),
    {
        vec![ProofType::Custom("Merkle".to_owned())]
    }
}

/// Generates signature proofs with a chain client `C` for blocks `B`.
pub struct BLSProofGenerator<C, B> {
    client: Arc<C>,
    authority_set: Arc<AuthorityList>,
    _phantom: PhantomData<B>,
}

/// The data of a signature proof, or why there are none.
pub open spec fn signature_prepared(
    list: Seq<(AuthorityId, u64)>,
    config: ProofGenerationConfig,
    source: HeaderLookup<u32>,
    target: HeaderLookup<u32>,
    now: u128,
) -> Result<ProofDataView, Seq<char>> {
    if config.proof_type@ != ProofTypeView::Signature {
        Err("Unsupported proof type"@)
    } else {
        match both_headers(source, target) {
            Err(e) => Err(e),
            Ok(headers) => Ok(signature_data(list, headers, now, config.proof_ttl)),
        }
    }
}

/// Whether a signature proof is made: it is of the right kind, and both blocks are known.
pub open spec fn is_signature_due(
    config: ProofGenerationConfig,
    source: HeaderLookup<u32>,
    target: HeaderLookup<u32>,
) -> bool {
    config.proof_type@ == ProofTypeView::Signature && both_headers(source, target) is Ok
}

impl<C, B> BLSProofGenerator<C, B> {
    /// The chain client.
    pub closed spec fn chain_client(&self) -> Arc<C> {
        self.client
    }

    /// The authorities.
    pub closed spec fn authorities(&self) -> Seq<(AuthorityId, u64)> {
        self.authority_set@
    }

    /// A generator with the given chain client and authorities.
    pub fn new(client: Arc<C>, authority_set: Arc<AuthorityList>) -> (r: Self)
        ensures
            r.chain_client() == client,
            r.authorities() == authority_set@,
    {
        BLSProofGenerator { client, authority_set, _phantom: PhantomData }
    }

    /// The chain client.
    pub fn client(&self) -> (r: &Arc<C>)
        ensures
            *r == self.chain_client(),
    {
        &self.client
    }

    /// The authorities, as proofs mention them.
    fn validator_set(&self) -> (r: Vec<ValidatorEntry>)
        ensures
            r@.map_values(|e: ValidatorEntry| e@) == validators(self.authorities()),
    {
        let list: &AuthorityList = &self.authority_set;
        let mut r: Vec<ValidatorEntry> = Vec::new();
        let mut i: usize = 0;
        while i < list.len()
            invariant
                list@ == self.authorities(),
                i <= list@.len(),
                r@.len() == i,
                forall|k: int|
                    0 <= k < i ==> (#[trigger] r@[k])@ == (text::hex(list@[k].0@), list@[k].1),
            decreases list@.len() - i,
        {
            r.push(ValidatorEntry { id: hex_encode(list[i].0.as_slice()), weight: list[i].1 });
            i += 1;
        }
        assert(r@.map_values(|e: ValidatorEntry| e@) =~= validators(self.authorities()));
        r
    }

    /// The data of a signature proof of a transition. `source` and `target` are the answers to the
    /// questions for its two blocks.
    pub fn prepare_proof(
        &self,
        config: &ProofGenerationConfig,
        source: &HeaderLookup<u32>,
        target: &HeaderLookup<u32>,
        now: u128,
    ) -> (r: Result<ProofData, StateError>)
        requires
            is_signature_due(*config, *source, *target) ==> expiry_fits(now, config.proof_ttl),
        ensures
            data_outcome(r) == signature_prepared(
                self.authorities(),
                *config,
                *source,
                *target,
                now,
            ),
    {
        if config.proof_type != ProofType::Signature {
            return Err(StateError::Internal("Unsupported proof type".to_owned()));
        }
        let headers = match look_up_both(source, target) {
            Ok(h) => h,
            Err(e) => {
                return Err(e);
            },
        };
        let signature: Vec<u8> = vec![0; BLS_SIGNATURE_LEN];
        assert(signature@ =~= Seq::new(BLS_SIGNATURE_LEN as nat, |i: int| 0u8));
        Ok(
            ProofData {
                proof_type: ProofType::Signature,
                data: signature,
                metadata: Some(
                    ProofMetadata {
                        validator_set: Some(self.validator_set()),
                        source_block: summarize(&headers.0),
                        target_block: summarize(&headers.1),
                        merkle_root: None,
                    },
                ),
                generated_at: now,
                expires_at: Some(now + config.proof_ttl as u128 * SECOND),
                version: 1,
            },
        )
    }

    /// Proves a transition. `encoded` is the size of the encoded proof data, or why they could not
    /// be encoded; it matters only where there are such data.
    pub fn generate_proof(
        &self,
        transition: &StateTransition,
        config: &ProofGenerationConfig,
        source: &HeaderLookup<u32>,
        target: &HeaderLookup<u32>,
        now: u128,
        encoded: Result<usize, String>,
    ) -> (r: Result<StateProof, StateError>)
        requires
            is_signature_due(*config, *source, *target) ==> expiry_fits(now, config.proof_ttl),
        ensures
            proof_outcome(r) == match signature_prepared(
                self.authorities(),
                *config,
                *source,
                *target,
                now,
            ) {
                Ok(data) => sized(transition@, data, encoded, config.max_proof_size),
                Err(e) => Err(e),
            },
    {
        match self.prepare_proof(config, source, target, now) {
            Ok(data) => finish_proof(transition, data, encoded, config.max_proof_size),
            Err(e) => Err(e),
        }
    }

    /// The kinds of proof that this generator makes.
    pub fn supported_types(&self) -> (r: Vec<ProofType>)
        ensures
            r@.len() == 1,
            r@[0]@ == ProofTypeView::Signature,
    {
        vec![ProofType::Signature]
    }
}

/// A Merkle proof is of the kind that was asked for, holds the root of the tree over the data of
/// the transition, expires after the time that was asked for, and its encoding is no larger than
/// allowed.
pub proof fn law_merkle_proofs_keep_the_configuration(
    transition: TransitionView,
    config: ProofGenerationConfig,
    source: HeaderLookup<u32>,
    target: HeaderLookup<u32>,
    now: u128,
    encoded: Result<usize, String>,
)
    requires
        expiry_fits(now, config.proof_ttl),
        merkle_prepared(
            config,
            source,
            target,
            tree_top(leaves(covered(transition))),
            now,
        ) is Ok,
        sized(
            transition,
            merkle_prepared(
                config,
                source,
                target,
                tree_top(leaves(covered(transition))),
                now,
            )->Ok_0,
            encoded,
            config.max_proof_size,
        ) is Ok,
    ensures
        ({
            let root = tree_top(leaves(covered(transition)));
            let data = merkle_prepared(config, source, target, root, now)->Ok_0;
            &&& data.proof_type == config.proof_type@
            &&& Some(data.data) == root
            &&& data.expires_at == Some((data.generated_at + config.proof_ttl * SECOND) as u128)
            &&& encoded matches Ok(size) && size <= config.max_proof_size
        }),
{
}

/// A signature proof is of the kind that was asked for, holds a signature of the fixed length,
/// names every authority, expires after the time that was asked for, and its encoding is no larger
/// than allowed.
pub proof fn law_signature_proofs_keep_the_configuration(
    list: Seq<(AuthorityId, u64)>,
    transition: TransitionView,
    config: ProofGenerationConfig,
    source: HeaderLookup<u32>,
    target: HeaderLookup<u32>,
    now: u128,
    encoded: Result<usize, String>,
)
    requires
        expiry_fits(now, config.proof_ttl),
        signature_prepared(list, config, source, target, now) is Ok,
        sized(
            transition,
            signature_prepared(list, config, source, target, now)->Ok_0,
            encoded,
            config.max_proof_size,
        ) is Ok,
    ensures
        ({
            let data = signature_prepared(list, config, source, target, now)->Ok_0;
            &&& data.proof_type == config.proof_type@
            &&& data.data.len() == BLS_SIGNATURE_LEN
            &&& data.metadata matches Some(m) && m.validator_set == Some(validators(list))
            &&& data.expires_at == Some((data.generated_at + config.proof_ttl * SECOND) as u128)
            &&& encoded matches Ok(size) && size <= config.max_proof_size
        }),
{
}

/// There is a Merkle root exactly where there are data to cover.
pub proof fn law_root_needs_data(data: Seq<u8>)
    ensures
        tree_top(leaves(data)) is Some <==> data.len() > 0,
{
    lemma_top_exists(leaves(data));
}

/// A Merkle proof of a transition without data fails for want of a root, whatever the time and the
/// expiry; one of a transition with data never does.
pub proof fn law_no_merkle_proof_without_data(
    transition: TransitionView,
    config: ProofGenerationConfig,
    source: HeaderLookup<u32>,
    target: HeaderLookup<u32>,
    now: u128,
)
    requires
        config.proof_type@ == ProofTypeView::Custom("Merkle"@),
        both_headers(source, target) is Ok,
    ensures
        merkle_prepared(
            config,
            source,
            target,
            tree_top(leaves(covered(transition))),
            now,
        ) == Err::<ProofDataView, _>("Failed to get Merkle root"@) <==> covered(transition).len()
            == 0,
{
    law_root_needs_data(covered(transition));
}

proof fn lemma_top_exists(nodes: Seq<Seq<u8>>)
    ensures
        tree_top(nodes) is Some <==> nodes.len() > 0,
    decreases nodes.len(),
{
    if nodes.len() > 1 {
        lemma_top_exists(level_above(nodes));
    }
}

/// Each generator refuses exactly the kinds that it does not support, before anything else is looked
/// at and for no other reason, and no kind is supported by both.
pub proof fn law_unsupported_kinds_are_refused(
    list: Seq<(AuthorityId, u64)>,
    transition: TransitionView,
    data: ProofDataView,
    encoded: Result<usize, String>,
    config: ProofGenerationConfig,
    source: HeaderLookup<u32>,
    target: HeaderLookup<u32>,
    root: Option<Seq<u8>>,
    now: u128,
)
    ensures
        config.proof_type@ != ProofTypeView::Custom("Merkle"@) <==> merkle_prepared(
            config,
            source,
            target,
            root,
            now,
        ) == Err::<ProofDataView, _>("Unsupported proof type"@),
        config.proof_type@ != ProofTypeView::Signature <==> signature_prepared(
            list,
            config,
            source,
            target,
            now,
        ) == Err::<ProofDataView, _>("Unsupported proof type"@),
        sized(transition, data, encoded, config.max_proof_size) != Err::<
            (TransitionView, ProofDataView),
            _,
        >("Unsupported proof type"@),
        merkle_prepared(config, source, target, root, now) is Err || signature_prepared(
            list,
            config,
            source,
            target,
            now,
        ) is Err,
{
    reveal_strlit("Unsupported proof type");
    reveal_strlit("Failed to get source header: ");
    reveal_strlit("Source block not found");
    reveal_strlit("Failed to get target header: ");
    reveal_strlit("Target block not found");
    reveal_strlit("Failed to get Merkle root");
    reveal_strlit("Failed to encode proof: ");
    reveal_strlit("Proof size ");
    let refused = "Unsupported proof type"@;
    assert(refused[0] == 'U');
    assert("Source block not found"@[0] == 'S');
    assert("Target block not found"@[0] == 'T');
    assert("Failed to get Merkle root"@[0] == 'F');
    if let Err(reason) = source {
        assert(("Failed to get source header: "@ + reason@)[0] == 'F');
    }
    if let Err(reason) = target {
        assert(("Failed to get target header: "@ + reason@)[0] == 'F');
    }
    match encoded {
        Err(reason) => assert(("Failed to encode proof: "@ + reason@)[0] == 'F'),
        Ok(size) => assert(too_large(size as nat, config.max_proof_size)[0] == 'P'),
    }
}

/// A Merkle proof names the two blocks that were looked up, each by its own number, hash and parent
/// hash, and the root that it holds; it was generated now and expires after the time asked for.
pub proof fn law_merkle_proofs_name_their_blocks(
    config: ProofGenerationConfig,
    s: BlockHeader<u32>,
    t: BlockHeader<u32>,
    root: Seq<u8>,
    now: u128,
)
    requires
        config.proof_type@ == ProofTypeView::Custom("Merkle"@),
        now + config.proof_ttl * 1_000_000_000 <= u128::MAX,
    ensures
        merkle_prepared(config, Ok(Some(s)), Ok(Some(t)), Some(root), now) matches Ok(data) && {
            &&& data.proof_type == ProofTypeView::Custom("Merkle"@)
            &&& data.data == root
            &&& data.generated_at == now
            &&& data.expires_at matches Some(end) && end == now + config.proof_ttl * 1_000_000_000
            &&& data.version == 1
            &&& data.metadata matches Some(m) && {
                &&& m.source_block.number == s.number
                &&& m.source_block.hash == text::hex(s.hash@)
                &&& m.source_block.parent_hash == text::hex(s.parent_hash@)
                &&& m.target_block.number == t.number
                &&& m.target_block.hash == text::hex(t.hash@)
                &&& m.target_block.parent_hash == text::hex(t.parent_hash@)
                &&& m.merkle_root == Some(text::hex(root))
                &&& m.validator_set is None
            }
        },
{
}

/// A signature proof names the two blocks that were looked up, each by its own number, hash and parent
/// hash, and every authority of the list, in order, by its key and weight; it was generated now and
/// expires after the time asked for.
pub proof fn law_signature_proofs_name_their_blocks(
    list: Seq<(AuthorityId, u64)>,
    config: ProofGenerationConfig,
    s: BlockHeader<u32>,
    t: BlockHeader<u32>,
    now: u128,
)
    requires
        config.proof_type@ == ProofTypeView::Signature,
        now + config.proof_ttl * 1_000_000_000 <= u128::MAX,
    ensures
        signature_prepared(list, config, Ok(Some(s)), Ok(Some(t)), now) matches Ok(data) && {
            &&& data.proof_type == ProofTypeView::Signature
            &&& data.data.len() == 96
            &&& forall|i: int| 0 <= i < 96 ==> #[trigger] data.data[i] == 0
            &&& data.generated_at == now
            &&& data.expires_at matches Some(end) && end == now + config.proof_ttl * 1_000_000_000
            &&& data.version == 1
            &&& data.metadata matches Some(m) && {
                &&& m.source_block.number == s.number
                &&& m.source_block.hash == text::hex(s.hash@)
                &&& m.source_block.parent_hash == text::hex(s.parent_hash@)
                &&& m.target_block.number == t.number
                &&& m.target_block.hash == text::hex(t.hash@)
                &&& m.target_block.parent_hash == text::hex(t.parent_hash@)
                &&& m.merkle_root is None
                &&& m.validator_set matches Some(set) && {
                    &&& set.len() == list.len()
                    &&& forall|i: int|
                        0 <= i < list.len() ==> (#[trigger] set[i]).0 == text::hex(list[i].0@)
                            && set[i].1 == list[i].1
                }
            }
        },
{
}

/// A block that cannot be looked up is named by the error, the source before the target: as not found,
/// or with the reason for which the chain could not answer. Neither generator makes a proof then.
pub proof fn law_missing_blocks_are_named(
    list: Seq<(AuthorityId, u64)>,
    merkle: ProofGenerationConfig,
    signature: ProofGenerationConfig,
    source: HeaderLookup<u32>,
    target: HeaderLookup<u32>,
    root: Option<Seq<u8>>,
    now: u128,
)
    requires
        merkle.proof_type@ == ProofTypeView::Custom("Merkle"@),
        signature.proof_type@ == ProofTypeView::Signature,
    ensures
        ({
            let m = merkle_prepared(merkle, source, target, root, now);
            let s = signature_prepared(list, signature, source, target, now);
            &&& source matches Err(reason) ==> {
                let e = "Failed to get source header: "@ + reason@;
                m == Err::<ProofDataView, _>(e) && s == Err::<ProofDataView, _>(e)
            }
            &&& source matches Ok(None) ==> {
                let e = "Source block not found"@;
                m == Err::<ProofDataView, _>(e) && s == Err::<ProofDataView, _>(e)
            }
            &&& source matches Ok(Some(_)) ==> {
                &&& target matches Err(reason) ==> {
                    let e = "Failed to get target header: "@ + reason@;
                    m == Err::<ProofDataView, _>(e) && s == Err::<ProofDataView, _>(e)
                }
                &&& target matches Ok(None) ==> {
                    let e = "Target block not found"@;
                    m == Err::<ProofDataView, _>(e) && s == Err::<ProofDataView, _>(e)
                }
            }
        }),
{
}

/// A proof is made of the transition and the data as they are exactly where their encoding is no
/// larger than allowed. The error says by which size, or why the data could not be encoded.
pub proof fn law_proofs_fit_their_limit(
    transition: TransitionView,
    data: ProofDataView,
    size: usize,
    reason: String,
    max: u32,
)
    ensures
        size <= max ==> sized(transition, data, Ok(size), max) == Ok::<_, Seq<char>>(
            (transition, data),
        ),
        size > max ==> sized(transition, data, Ok(size), max) == Err::<
            (TransitionView, ProofDataView),
            _,
        >(
            "Proof size "@ + text::decimal(size as nat) + " exceeds maximum allowed size "@
                + text::decimal(max as nat),
        ),
        sized(transition, data, Err(reason), max) == Err::<(TransitionView, ProofDataView), _>(
            "Failed to encode proof: "@ + reason@,
        ),
{
}

/// The leaves are the data in order, 32 bytes each, with zeros after the end of the data in the last
/// one only.
pub proof fn law_leaves_are_the_data_in_order(data: Seq<u8>, k: int)
    requires
        0 <= k < 32 * leaves(data).len(),
    ensures
        data.len() <= 32 * leaves(data).len() < data.len() + 32,
        leaves(data)[k / 32].len() == 32,
        k < data.len() ==> leaves(data)[k / 32][k % 32] == data[k],
        k >= data.len() ==> leaves(data)[k / 32][k % 32] == 0,
{
    assert(32 * (k / 32) + k % 32 == k);
}

/// The root of one leaf is that leaf. The root of more is the root of the level above them, in which
/// each node hashes two of them, in order, and a last one without partner is taken over.
pub proof fn law_roots_hash_pairs_of_nodes(nodes: Seq<Seq<u8>>, above: Seq<Seq<u8>>)
    requires
        nodes.len() > 0,
        2 * above.len() == nodes.len() || 2 * above.len() == nodes.len() + 1,
        forall|i: int|
            0 <= i < above.len() ==> #[trigger] above[i] == if 2 * i + 1 < nodes.len() {
                trusted::sha256(nodes[2 * i] + nodes[2 * i + 1])
            } else {
                nodes[2 * i]
            },
    ensures
        nodes.len() == 1 ==> tree_top(nodes) == Some(nodes[0]),
        nodes.len() > 1 ==> tree_top(nodes) == tree_top(above),
        tree_top(Seq::empty()) is None,
{
    assert(above =~= level_above(nodes));
}

/// A Merkle proof covers the bytes that the transition carries, and nothing where it carries none.
pub proof fn law_proofs_cover_the_carried_bytes(transition: TransitionView)
    ensures
        transition.transition_proof matches Some(bytes) ==> covered(transition) == bytes,
        transition.transition_proof is None ==> covered(transition).len() == 0,
{
}

/// By default proofs are Merkle proofs of at most 1048576 bytes that expire after 86400 seconds.
pub proof fn law_default_proofs_expire_after_a_day(config: ProofGenerationConfig)
    requires
        is_default(config),
    ensures
        config.proof_type@ == ProofTypeView::Custom("Merkle"@),
        config.max_proof_size == 1_048_576,
        config.proof_ttl == 86_400,
{
}

/// A proof that is due is asked of the clock only up to the last second that it can express; every
/// earlier end is allowed.
pub proof fn law_expiry_must_be_expressible(now: u128, ttl: u64)
    ensures
        expiry_fits(now, ttl) <==> now + ttl * 1_000_000_000
            < 9_223_372_036_854_775_808_000_000_000,
        expiry_fits(now, ttl) ==> expiry(now, ttl) == now + ttl * 1_000_000_000,
{
}

/// A proof is due exactly where its kind is the generator's, both blocks are known and, of a Merkle
/// proof, there is a root; only then it is made.
pub proof fn law_due_proofs_are_made(
    list: Seq<(AuthorityId, u64)>,
    config: ProofGenerationConfig,
    source: HeaderLookup<u32>,
    target: HeaderLookup<u32>,
    root: Option<Seq<u8>>,
    now: u128,
)
    ensures
        is_merkle_due(config, source, target, root is Some) <==> {
            &&& config.proof_type@ == ProofTypeView::Custom("Merkle"@)
            &&& source matches Ok(Some(_))
            &&& target matches Ok(Some(_))
            &&& root is Some
        },
        is_merkle_due(config, source, target, root is Some) <==> merkle_prepared(
            config,
            source,
            target,
            root,
            now,
        ) is Ok,
        is_signature_due(config, source, target) <==> {
            &&& config.proof_type@ == ProofTypeView::Signature
            &&& source matches Ok(Some(_))
            &&& target matches Ok(Some(_))
        },
        is_signature_due(config, source, target) <==> signature_prepared(
            list,
            config,
            source,
            target,
            now,
        ) is Ok,
{
}

/// Outcomes are compared by what they say.
pub proof fn law_proof_outcomes_are_compared_as_they_are(
    state_proof: StateProof,
    data: ProofData,
    e: StateError,
)
    ensures
        proof_outcome(Ok(state_proof)) == Ok::<_, Seq<char>>(
            (state_proof.transition@, state_proof.proof@),
        ),
        proof_outcome(Err(e)) == Err::<(TransitionView, ProofDataView), _>(e@),
        data_outcome(Ok(data)) == Ok::<_, Seq<char>>(data@),
        data_outcome(Err(e)) == Err::<ProofDataView, _>(e@),
{
}

} // verus!
