//! The calls into outside crates, each behind a contract that states what the call does.

use vstd::prelude::*;

use finality_grandpa::voter_set::VoterSet;
use frame_support::traits::ConstU32;
use frame_support::BoundedVec;
use parity_scale_codec::{Decode, Encode};
use sha2::Digest;
use sp_core::Pair;
use sp_runtime::traits::BlakeTwo256;

use crate::grandpa;
use crate::grandpa::{
    AuthorityId, AuthorityList, AuthoritySignature, BlockHash, Commit, GrandpaJustification,
    JustificationView, SignedPrecommit, VoterWeights,
};
use crate::observer::target;
use crate::proofs::generator;
use crate::proofs::generator::MerkleHasher;
use crate::text;

verus! {

/// `VoterSet` of finality-grandpa: voters with their weights.
#[verifier::external_type_specification]
#[verifier::external_body]
#[verifier::reject_recursive_types(Id)]
pub struct ExVoterSet<Id: Eq + Ord>(VoterSet<Id>);

/// `BoundedVec` of frame-support: a vector whose length has a bound.
#[verifier::external_type_specification]
#[verifier::external_body]
#[verifier::reject_recursive_types(T)]
#[verifier::reject_recursive_types(S)]
pub struct ExBoundedVec<T, S>(BoundedVec<T, S>);

/// `ConstU32` of frame-support: the bound of a `BoundedVec`.
#[verifier::external_type_specification]
#[verifier::external_body]
pub struct ExConstU32<const T: u32>(ConstU32<T>);

/// The bytes in a bounded vector of at most 32 bytes.
pub uninterp spec fn contents_32(bytes: BoundedVec<u8, ConstU32<32>>) -> Seq<u8>;

/// The bytes in a bounded vector of at most 64 bytes.
pub uninterp spec fn contents_64(bytes: BoundedVec<u8, ConstU32<64>>) -> Seq<u8>;

/// Calls `BoundedVec::try_from` with a bound of 32: takes the bytes over where there are at most
/// 32 of them, and refuses them elsewhere.
#[verifier::external_body]
pub(crate) fn bounded_32(bytes: Vec<u8>) -> (r: Option<BoundedVec<u8, ConstU32<32>>>)
    ensures
        match r {
            Some(bounded) => bytes@.len() <= 32 && contents_32(bounded) == bytes@,
            None => bytes@.len() > 32,
        },
{
    BoundedVec::try_from(bytes).ok()
}

/// Calls `BoundedVec::try_from` with a bound of 64: takes the bytes over where there are at most
/// 64 of them, and refuses them elsewhere.
#[verifier::external_body]
pub(crate) fn bounded_64(bytes: Vec<u8>) -> (r: Option<BoundedVec<u8, ConstU32<64>>>)
    ensures
        match r {
            Some(bounded) => bytes@.len() <= 64 && contents_64(bounded) == bytes@,
            None => bytes@.len() > 64,
        },
{
    BoundedVec::try_from(bytes).ok()
}

/// Calls `as_slice` on the vector inside a `BoundedVec` with a bound of 32, which `Deref` gives:
/// gives its bytes, of which there are at most 32.
#[verifier::external_body]
pub(crate) fn bounded_slice_32(bytes: &BoundedVec<u8, ConstU32<32>>) -> (r: &[u8])
    ensures
        r@ == contents_32(*bytes),
        r@.len() <= 32,
{
    bytes.as_slice()
}

/// Calls `as_slice` on the vector inside a `BoundedVec` with a bound of 64, which `Deref` gives:
/// gives its bytes, of which there are at most 64.
#[verifier::external_body]
pub(crate) fn bounded_slice_64(bytes: &BoundedVec<u8, ConstU32<64>>) -> (r: &[u8])
    ensures
        r@ == contents_64(*bytes),
        r@.len() <= 64,
{
    bytes.as_slice()
}

/// Calls `Encode::encode` of parity-scale-codec on the four parts of a watch target: gives their
/// SCALE forms, one after the other.
#[verifier::external_body]
pub(crate) fn encode_watch_target(
    module_name: &[u8],
    function_name: &[u8],
    message_hash: Option<&[u8]>,
    target_chain: &[u8],
) -> (r: Vec<u8>)
    requires
        module_name@.len() < 0x4000,
        function_name@.len() < 0x4000,
        message_hash matches Some(hash) ==> hash@.len() < 0x4000,
        target_chain@.len() < 0x4000,
    ensures
        r@ == target::encoded_target(
            target::TargetView {
                module_name: module_name@,
                function_name: function_name@,
                message_hash: match message_hash {
                    Some(hash) => Some(hash@),
                    None => None,
                },
                target_chain: target_chain@,
            },
        ),
{
    (module_name, function_name, message_hash, target_chain).encode()
}

/// The weight of each voter in a voter set.
pub uninterp spec fn voter_weights(set: VoterSet<AuthorityId>) -> VoterWeights;

/// The summed weight of the voters in a voter set.
pub uninterp spec fn voter_total(set: VoterSet<AuthorityId>) -> nat;

/// Calls `VoterSet::new` of finality-grandpa: sums up the weights that are listed for each voter and
/// leaves out voters without weight. There is no set where no weight is left, or where the weights
/// together exceed 64 bits.
#[verifier::external_body]
pub(crate) fn new_voter_set(authorities: &AuthorityList) -> (r: Option<VoterSet<AuthorityId>>)
    ensures
        r is Some <==> 0 < grandpa::total_weight(authorities@) <= u64::MAX,
        r matches Some(set) ==> voter_weights(set) == grandpa::accumulated(authorities@) && voter_total(set)
            == grandpa::total_weight(authorities@),
{
    VoterSet::new(authorities.iter().copied())
}

/// Calls `VoterSet::get` of finality-grandpa: the weight of a voter, if it is in the set.
#[verifier::external_body]
pub(crate) fn voter_weight(set: &VoterSet<AuthorityId>, id: &AuthorityId) -> (r: Option<u64>)
    ensures
        r is Some <==> voter_weights(*set).contains_key(id@),
        r matches Some(weight) ==> weight as nat == voter_weights(*set)[id@],
{
    set.get(id).map(|info| info.weight().get())
}

/// Calls `VoterSet::total_weight` of finality-grandpa: the summed weight of all voters.
#[verifier::external_body]
pub(crate) fn voter_set_total(set: &VoterSet<AuthorityId>) -> (r: u64)
    ensures
        r as nat == voter_total(*set),
{
    set.total_weight().get()
}

/// Calls `hex::encode`: two lower-case hexadecimal digits for each byte, the upper half first.
#[verifier::external_body]
pub(crate) fn hex_encode(bytes: &[u8]) -> (r: String)
    ensures
        r@ == text::hex(bytes@),
{
    hex::encode(bytes)
}

/// Formats a hash as `H256` of sp-core does for `Debug`: "0x", then two lower-case hexadecimal
/// digits for each byte.
#[verifier::external_body]
pub(crate) fn debug_hash(hash: &BlockHash) -> (r: String)
    ensures
        r@ == "0x"@ + text::hex(hash@),
{
    format!("{:?}", sp_core::H256(*hash))
}

/// The text that `String::from_utf8_lossy` makes of `bytes`.
pub uninterp spec fn lossy_text(bytes: Seq<u8>) -> Seq<char>;

/// Calls `String::from_utf8_lossy`. Bytes that are valid UTF-8 give the text that they encode; the
/// text for other bytes, in which replacement characters stand for what is not UTF-8, is only
/// named.
#[verifier::external_body]
pub(crate) fn utf8_lossy(bytes: &[u8]) -> (r: String)
    ensures
        r@ == lossy_text(bytes@),
        vstd::utf8::valid_utf8(bytes@) ==> r@ == vstd::utf8::decode_utf8(bytes@),
{
    String::from_utf8_lossy(bytes).into_owned()
}

/// The BLAKE2b hash of `data` with 32 bytes.
pub uninterp spec fn blake2_256(data: Seq<u8>) -> Seq<u8>;

/// Calls `BlakeTwo256::hash` of sp-runtime, whose result is only named.
#[verifier::external_body]
pub(crate) fn blake2_256_hash(data: &[u8]) -> (r: [u8; 32])
    ensures
        r@ == blake2_256(data@),
{
    <BlakeTwo256 as sp_runtime::traits::Hash>::hash(data).0
}

/// The SHA-256 hash of `data`.
pub uninterp spec fn sha256(data: Seq<u8>) -> Seq<u8>;

/// Calls `Sha256::digest` of sha2, whose result is only named.
#[verifier::external_body]
pub(crate) fn sha256_digest(data: &[u8]) -> (r: [u8; 32])
    ensures
        r@ == sha256(data@),
{
    sha2::Sha256::digest(data).into()
}

/// Calls `MerkleTree::from_leaves` and `MerkleTree::root` of rs_merkle, with a hasher that makes
/// SHA-256: hashes the leaves in pairs, and the nodes above them in the same way, until one node is
/// left, where a node without partner moves up as it is. There is no root of no leaves.
#[verifier::external_body]
pub(crate) fn tree_root(leaves: &Vec<[u8; 32]>) -> (r: Option<[u8; 32]>)
    ensures
        ({
            let hashes = leaves@.map_values(|leaf: [u8; 32]| leaf@);
            match r {
                Some(root) => generator::tree_top(hashes) == Some(root@),
                None => generator::tree_top(hashes) is None,
            }
        }),
{
    rs_merkle::MerkleTree::<MerkleHasher>::from_leaves(leaves).root()
}

/// Whether `signature` is the Ed25519 signature of `signer` over `message`.
pub uninterp spec fn ed25519_valid(signature: Seq<u8>, message: Seq<u8>, signer: Seq<u8>) -> bool;

/// Calls `Pair::verify` of sp-core for Ed25519, whose result is only named.
#[verifier::external_body]
pub(crate) fn verify_ed25519(
    signature: &AuthoritySignature,
    message: &[u8],
    signer: &AuthorityId,
) -> (r: bool)
    ensures
        r == ed25519_valid(signature@, message@, signer@),
{
    sp_core::ed25519::Pair::verify(
        &sp_core::ed25519::Signature::from_raw(*signature),
        message,
        &sp_core::ed25519::Public::from_raw(*signer),
    )
}

/// Calls `Encode::encode` on a `Precommit` of finality-grandpa with a `u32` block number: the target
/// hash, then the target number in little-endian byte order.
#[verifier::external_body]
pub(crate) fn encode_precommit_u32(target_hash: &BlockHash, target_number: u32) -> (r: Vec<u8>)
    ensures
        r@ == target_hash@ + vstd::bytes::spec_u32_to_le_bytes(target_number),
{
    finality_grandpa::Precommit::new(*target_hash, target_number).encode()
}

/// Calls `Encode::encode` on a `Precommit` of finality-grandpa with a `u64` block number: the target
/// hash, then the target number in little-endian byte order.
#[verifier::external_body]
pub(crate) fn encode_precommit_u64(target_hash: &BlockHash, target_number: u64) -> (r: Vec<u8>)
    ensures
        r@ == target_hash@ + vstd::bytes::spec_u64_to_le_bytes(target_number),
{
    finality_grandpa::Precommit::new(*target_hash, target_number).encode()
}

/// The justification that `bytes` start with in SCALE, for `u32` block numbers.
pub uninterp spec fn decoded_justification_u32(bytes: Seq<u8>) -> Option<JustificationView>;

/// Calls `Decode::decode` for a `GrandpaJustification` of sp-consensus-grandpa over headers with
/// `u32` block numbers, whose result is only named. Votes for ancestors are not carried over.
#[verifier::external_body]
pub(crate) fn decode_justification_u32(bytes: &[u8]) -> (r: Option<GrandpaJustification<u32>>)
    ensures
        grandpa::optional_view(r) == decoded_justification_u32(bytes@),
{
    let j = sp_consensus_grandpa::GrandpaJustification::<
        sp_runtime::generic::Header<u32, BlakeTwo256>,
    >::decode(&mut &bytes[..]).ok()?;
    let precommits = j.commit.precommits.into_iter().map(|p| SignedPrecommit {
        target_hash: p.precommit.target_hash.0,
        target_number: p.precommit.target_number,
        signature: sp_core::ed25519::Signature::from(p.signature).0,
        id: sp_core::ed25519::Public::from(p.id).0,
    }).collect();
    let (target_hash, target_number) = (j.commit.target_hash.0, j.commit.target_number);
    Some(GrandpaJustification { round: j.round, commit: Commit { target_hash, target_number, precommits } })
}

/// The justification that `bytes` start with in SCALE, for `u64` block numbers.
pub uninterp spec fn decoded_justification_u64(bytes: Seq<u8>) -> Option<JustificationView>;

/// Calls `Decode::decode` for a `GrandpaJustification` of sp-consensus-grandpa over headers with
/// `u64` block numbers, whose result is only named. Votes for ancestors are not carried over.
#[verifier::external_body]
pub(crate) fn decode_justification_u64(bytes: &[u8]) -> (r: Option<GrandpaJustification<u64>>)
    ensures
        grandpa::optional_view(r) == decoded_justification_u64(bytes@),
{
    let j = sp_consensus_grandpa::GrandpaJustification::<
        sp_runtime::generic::Header<u64, BlakeTwo256>,
    >::decode(&mut &bytes[..]).ok()?;
    let precommits = j.commit.precommits.into_iter().map(|p| SignedPrecommit {
        target_hash: p.precommit.target_hash.0,
        target_number: p.precommit.target_number,
        signature: sp_core::ed25519::Signature::from(p.signature).0,
        id: sp_core::ed25519::Public::from(p.id).0,
    }).collect();
    let (target_hash, target_number) = (j.commit.target_hash.0, j.commit.target_number);
    Some(GrandpaJustification { round: j.round, commit: Commit { target_hash, target_number, precommits } })
}

} // verus!
