use std::sync::Arc;

use frost_substrate::finality::client::{BlockHeader, HeaderLookup};
use frost_substrate::message::{FrostMessage, MessageType};
use frost_substrate::proofs::generator::{
    blocks_to_look_up, can_expire, split_leaves, BLSProofGenerator, MerkleProofGenerator,
    ProofGenerationConfig,
};
use frost_substrate::state::{
    BlockRef, ChainId, ProofType, StateError, StateProof, StateRoot, StateTransition,
    TransitionMetadata,
};
use frost_substrate::verification::{
    first_supporting, BLSVerifier, MerkleVerifier, ProofVerifier, VerificationRegistry,
};
use frost_substrate::{SSMPStateTransition, SubstrateFrostMessage, SubstrateStateProof};
use sha2::Digest;

fn sha(a: &[u8], b: &[u8]) -> [u8; 32] {
    let mut hasher = sha2::Sha256::new();
    hasher.update(a);
    hasher.update(b);
    hasher.finalize().into()
}

fn transition(data: Option<Vec<u8>>) -> StateTransition {
    StateTransition {
        chain_id: ChainId::new("c"),
        block_height: 4,
        pre_state: StateRoot::default(),
        post_state: StateRoot::default(),
        transition_proof: data,
        metadata: TransitionMetadata::default(),
    }
}

fn header(number: u32) -> HeaderLookup<u32> {
    Ok(Some(BlockHeader { number, hash: [0xab; 32], parent_hash: [0x0c; 32] }))
}

fn message(e: StateError) -> String {
    match e {
        StateError::Internal(m) => m,
    }
}

fn merkle() -> MerkleProofGenerator<(), ()> {
    MerkleProofGenerator::new(Arc::new(()))
}

fn generate(data: Option<Vec<u8>>, size: Result<usize, String>) -> Result<StateProof, StateError> {
    let config = ProofGenerationConfig::default();
    merkle().generate_proof(&transition(data), &config, &header(1), &header(2), 7, size)
}

#[test]
fn default_configuration() {
    let config = ProofGenerationConfig::default();
    assert!(config.proof_type == ProofType::Custom("Merkle".to_string()));
    assert_eq!(config.max_proof_size, 1_048_576);
    assert_eq!(config.proof_ttl, 86_400);
    assert_eq!(config.clone().proof_ttl, 86_400);
}

#[test]
fn data_are_split_into_padded_leaves() {
    assert!(split_leaves(&[]).is_empty());
    let data: Vec<u8> = (0..70).collect();
    let leaves = split_leaves(&data);
    assert_eq!(leaves.len(), 3);
    assert_eq!(&leaves[0][..], &data[..32]);
    assert_eq!(&leaves[1][..], &data[32..64]);
    assert_eq!(&leaves[2][..6], &data[64..]);
    assert_eq!(&leaves[2][6..], &[0u8; 26][..]);
    assert_eq!(split_leaves(&data[..64]).len(), 2);
}

#[test]
fn trees_are_hashed_in_pairs() {
    let g = merkle();
    let leaf = |i: u8| [i; 32];
    let data = |n: u8| (0..n).flat_map(|i| leaf(i).to_vec()).collect::<Vec<u8>>();
    assert_eq!(g.generate_merkle_tree(&[]), None);
    assert_eq!(g.generate_merkle_tree(&data(1)), Some(leaf(0)));
    let pair = sha(&leaf(0), &leaf(1));
    assert_eq!(g.generate_merkle_tree(&data(2)), Some(pair));
    assert_eq!(g.generate_merkle_tree(&data(3)), Some(sha(&pair, &leaf(2))));
    let four = sha(&pair, &sha(&leaf(2), &leaf(3)));
    assert_eq!(g.generate_merkle_tree(&data(4)), Some(four));
    assert_eq!(g.generate_merkle_tree(&data(5)), Some(sha(&four, &leaf(4))));
    let six = sha(&four, &sha(&leaf(4), &leaf(5)));
    assert_eq!(g.generate_merkle_tree(&data(6)), Some(six));
    let seven = sha(&four, &sha(&sha(&leaf(4), &leaf(5)), &leaf(6)));
    assert_eq!(g.generate_merkle_tree(&data(7)), Some(seven));
}

#[test]
fn merkle_proofs_hold_root_and_blocks() {
    let p = generate(Some(vec![3; 40]), Ok(100)).unwrap();
    let mut second = [0u8; 32];
    second[..8].copy_from_slice(&[3; 8]);
    let root = sha(&[3; 32], &second);
    assert_eq!(p.proof.data, root.to_vec());
    assert!(*p.proof_type() == ProofType::Custom("Merkle".to_string()));
    assert_eq!(p.proof.version, 1);
    assert_eq!(p.proof.generated_at, 7);
    assert_eq!(p.proof.expires_at, Some(7 + 86_400_000_000_000));
    assert_eq!(p.transition.block_height, 4);
    let metadata = p.proof.metadata.unwrap();
    assert!(metadata.validator_set.is_none());
    assert_eq!(metadata.source_block.number, 1);
    assert_eq!(metadata.target_block.number, 2);
    assert_eq!(metadata.source_block.hash, "ab".repeat(32));
    assert_eq!(metadata.target_block.parent_hash, "0c".repeat(32));
    assert_eq!(metadata.merkle_root, Some(hex::encode(root)));
}

#[test]
fn merkle_proofs_can_fail() {
    let m = |r: Result<StateProof, StateError>| message(r.unwrap_err());
    assert_eq!(m(generate(None, Ok(1))), "Failed to get Merkle root");
    assert_eq!(m(generate(Some(vec![]), Ok(1))), "Failed to get Merkle root");
    assert_eq!(m(generate(Some(vec![1]), Err("x".to_string()))), "Failed to encode proof: x");
    assert_eq!(
        m(generate(Some(vec![1]), Ok(1_048_577))),
        "Proof size 1048577 exceeds maximum allowed size 1048576"
    );
    assert!(generate(Some(vec![1]), Ok(1_048_576)).is_ok());
    let config = ProofGenerationConfig::default();
    let t = transition(Some(vec![1]));
    let with = |s: HeaderLookup<u32>, e: HeaderLookup<u32>| {
        m(merkle().generate_proof(&t, &config, &s, &e, 0, Ok(1)))
    };
    assert_eq!(with(Ok(None), header(2)), "Source block not found");
    assert_eq!(with(header(1), Ok(None)), "Target block not found");
    assert_eq!(with(Err("x".to_string()), Ok(None)), "Failed to get source header: x");
    assert_eq!(with(header(1), Err("y".to_string())), "Failed to get target header: y");
    let mut other = config.clone();
    other.proof_type = ProofType::Merkle;
    let r = merkle().generate_proof(&t, &other, &Ok(None), &Ok(None), 0, Ok(1));
    assert_eq!(m(r), "Unsupported proof type");
}

#[test]
fn a_given_root_makes_the_data() {
    let config = ProofGenerationConfig::default();
    let g = merkle();
    let data = g.prepare_with_root(&config, &header(1), &header(2), Some([0x10; 32]), 0).unwrap();
    assert_eq!(data.data, vec![0x10; 32]);
    assert_eq!(data.metadata.unwrap().merkle_root, Some("10".repeat(32)));
}

fn signature_config() -> ProofGenerationConfig {
    ProofGenerationConfig { proof_type: ProofType::Signature, max_proof_size: 10, proof_ttl: 2 }
}

#[test]
fn signature_proofs_name_the_validators() {
    let list = Arc::new(vec![([1; 32], 5), ([0xff; 32], 7)]);
    let g: BLSProofGenerator<(), ()> = BLSProofGenerator::new(Arc::new(()), list);
    let t = transition(None);
    let p = g
        .generate_proof(&t, &signature_config(), &header(1), &header(2), 9, Ok(10))
        .unwrap();
    assert_eq!(p.proof.data, vec![0; 96]);
    assert!(*p.proof_type() == ProofType::Signature);
    assert_eq!(p.proof.expires_at, Some(2_000_000_009));
    let metadata = p.proof.metadata.unwrap();
    assert!(metadata.merkle_root.is_none());
    let set = metadata.validator_set.unwrap();
    assert_eq!(set.len(), 2);
    assert_eq!((set[0].id.clone(), set[0].weight), ("01".repeat(32), 5));
    assert_eq!((set[1].id.clone(), set[1].weight), ("ff".repeat(32), 7));
    let r = g.generate_proof(&t, &signature_config(), &header(1), &header(2), 9, Ok(11));
    assert_eq!(message(r.unwrap_err()), "Proof size 11 exceeds maximum allowed size 10");
    let r = g.generate_proof(&t, &ProofGenerationConfig::default(), &header(1), &header(2), 9, Ok(1));
    assert_eq!(message(r.unwrap_err()), "Unsupported proof type");
    let r = g.generate_proof(&t, &signature_config(), &Ok(None), &header(2), 9, Ok(1));
    assert_eq!(message(r.unwrap_err()), "Source block not found");
}

#[test]
fn generators_name_their_kinds() {
    assert!(merkle().supported_types() == vec![ProofType::Custom("Merkle".to_string())]);
    let g: BLSProofGenerator<u8, ()> = BLSProofGenerator::new(Arc::new(3), Arc::new(vec![]));
    assert!(g.supported_types() == vec![ProofType::Signature]);
    assert_eq!(**g.client(), 3);
}

#[test]
fn same_leaves_mean_same_data() {
    let a: Vec<u8> = (0..45).collect();
    let mut b = a.clone();
    assert_eq!(split_leaves(&a), split_leaves(&b));
    b[44] = 0;
    assert_ne!(split_leaves(&a), split_leaves(&b));
}

fn proof_of(kind: ProofType) -> StateProof {
    let mut p = generate(Some(vec![1]), Ok(1)).unwrap();
    p.proof.proof_type = kind;
    p
}

#[test]
fn the_first_supporting_verifier_decides() {
    let mut registry: VerificationRegistry<u8> = VerificationRegistry::new();
    let r = registry.verify_proof(&proof_of(ProofType::Basic), &0);
    assert_eq!(message(r.unwrap_err()), "No suitable verifier found");
    registry.register_verifier(Arc::new(MerkleVerifier {}));
    registry.register_verifier(Arc::new(BLSVerifier {}));
    assert_eq!(registry.verify_proof(&proof_of(ProofType::Basic), &0).ok(), Some(true));
    let mut other = proof_of(ProofType::Basic);
    other.proof.data[5] ^= 1;
    assert_eq!(registry.verify_proof(&other, &0).ok(), Some(false));
    assert_eq!(registry.verify_proof(&proof_of(ProofType::Signature), &0).ok(), Some(true));
    let r = registry.verify_proof(&proof_of(ProofType::Custom("Merkle".to_string())), &0);
    assert_eq!(message(r.unwrap_err()), "No suitable verifier found");
}

#[test]
fn merkle_proofs_are_verified_against_their_data() {
    let v = MerkleVerifier {};
    let check = |p: &StateProof| ProofVerifier::<u8>::verify_proof(&v, p, &0).ok();
    let good = generate(Some(vec![3; 70]), Ok(1)).unwrap();
    assert_eq!(check(&good), Some(true));
    let mut bad = good.clone();
    bad.proof.data.pop();
    assert_eq!(check(&bad), Some(false));
    let mut bad = good.clone();
    bad.transition.transition_proof = Some(vec![3; 71]);
    assert_eq!(check(&bad), Some(false));
    let mut bad = good;
    bad.transition.transition_proof = None;
    assert_eq!(check(&bad), Some(false));
}

#[test]
fn refusals_do_not_depend_on_the_expiry() {
    let mut config = ProofGenerationConfig::default();
    config.proof_ttl = u64::MAX;
    assert!(!can_expire(0, u64::MAX));
    assert!(can_expire(0, 86_400));
    let far = |data, config: &ProofGenerationConfig, source: HeaderLookup<u32>| {
        let t = transition(data);
        message(merkle().generate_proof(&t, config, &source, &header(2), 7, Ok(1)).unwrap_err())
    };
    assert_eq!(far(None, &config, header(1)), "Failed to get Merkle root");
    assert_eq!(far(Some(vec![1]), &config, Ok(None)), "Source block not found");
    config.proof_type = ProofType::Signature;
    assert_eq!(far(Some(vec![1]), &config, header(1)), "Unsupported proof type");
}

#[test]
fn proofs_look_up_the_blocks_of_their_transition() {
    let mut t = transition(None);
    t.pre_state.block_ref.hash = [1; 32];
    t.post_state.block_ref.hash = [2; 32];
    assert_eq!(blocks_to_look_up(&t), ([1; 32], [2; 32]));
}

#[test]
fn earlier_verifiers_keep_deciding() {
    let mut supported = vec![vec![ProofType::Basic], vec![ProofType::Merkle, ProofType::Basic]];
    assert_eq!(first_supporting(&supported, &ProofType::Basic).ok(), Some(0));
    assert_eq!(first_supporting(&supported, &ProofType::Merkle).ok(), Some(1));
    assert!(first_supporting(&supported, &ProofType::Signature).is_err());
    supported.push(vec![ProofType::Signature, ProofType::Merkle]);
    assert_eq!(first_supporting(&supported, &ProofType::Merkle).ok(), Some(1));
    assert_eq!(first_supporting(&supported, &ProofType::Signature).ok(), Some(2));
}

#[test]
fn verifiers_name_their_kinds() {
    let basic: &dyn ProofVerifier<u8> = &MerkleVerifier {};
    assert!(basic.supported_types() == vec![ProofType::Basic]);
    let signature: &dyn ProofVerifier<u8> = &BLSVerifier {};
    assert!(signature.supported_types() == vec![ProofType::Signature]);
}

#[test]
fn observed_transitions_spell_their_call() {
    let block = BlockRef { chain_id: ChainId::new("c"), number: 8, hash: [1; 32] };
    let t = SSMPStateTransition::new(
        block.chain_id.clone(),
        block.number,
        StateRoot::default(),
        StateRoot::default(),
        b"balances".to_vec(),
        "\u{fc}bertrag".as_bytes().to_vec(),
        vec![b'a', 0xff, b'b'],
        123,
    );
    let inner = t.clone().0;
    assert_eq!(inner.block_height, 8);
    assert_eq!(inner.metadata.timestamp, 123);
    assert_eq!(inner.metadata.version, 0);
    assert!(inner.metadata.proof_type == ProofType::Basic);
    assert!(inner.transition_proof.is_none());
    let call = inner.metadata.chain_specific.unwrap();
    assert_eq!(call.module_name, "balances");
    assert_eq!(call.function_name, "\u{fc}bertrag");
    assert_eq!(call.target_chain, "a\u{fffd}b");
    assert_eq!(t.as_ref().block_height, 8);
    assert_eq!(StateTransition::from(t).chain_id.as_str(), "c");
}

#[test]
fn wrappers_hold_what_they_wrap() {
    let p = SubstrateStateProof::from(proof_of(ProofType::Basic));
    assert_eq!(p.clone().as_ref().proof.version, 1);
    let m = FrostMessage::new(MessageType::StateProof, vec![9], "s".to_string(), None);
    let m = SubstrateFrostMessage::from(m);
    assert_eq!(m.clone().as_ref().payload, vec![9]);
    assert_eq!(m.as_ref().message_type, MessageType::StateProof);
}
