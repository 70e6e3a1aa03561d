use std::sync::Arc;

use frost_substrate::finality::authority::{AuthoritySet, AuthoritySetManager};
use frost_substrate::finality::client::{
    BlockHeader, ChainReadings, ConfidenceBasis, SubstrateBlockRef, SubstrateVerificationClient,
};
use frost_substrate::finality::config::{
    ChainConfig, ChainRules, GrandpaVerificationParams, NetworkType, PredicateConfig,
};
use frost_substrate::finality::error::{
    FinalityError, FinalityVerificationError, GrandpaFinalityVerificationError,
};
use frost_substrate::finality::predicate::{ConfidenceReading, GrandpaFinality, WaitStep};
use frost_substrate::finality::status::{FinalityCache, FinalityStatus};
use frost_substrate::finality::verification;
use frost_substrate::finality::voters::{add_vote, JustificationTally, Voters};
use frost_substrate::finality::GrandpaFinalityProvider;
use frost_substrate::grandpa::{Commit, GrandpaJustification, SignedPrecommit, GRANDPA_ENGINE_ID};
use frost_substrate::state::{BlockRef, ChainId};
use parity_scale_codec::Encode;
use sp_core::Pair;

type Header<N> = sp_runtime::generic::Header<N, sp_runtime::traits::BlakeTwo256>;

fn key(seed: u8) -> sp_core::ed25519::Pair {
    sp_core::ed25519::Pair::from_seed(&[seed; 32])
}

fn id(seed: u8) -> [u8; 32] {
    key(seed).public().0
}

fn vote(seed: u8, hash: [u8; 32], number: u32) -> SignedPrecommit<u32> {
    let message = finality_grandpa::Precommit::new(hash, number).encode();
    SignedPrecommit {
        target_hash: hash,
        target_number: number,
        signature: key(seed).sign(&message).0,
        id: id(seed),
    }
}

fn vote_u64(seed: u8, hash: [u8; 32], number: u64) -> SignedPrecommit<u64> {
    let message = finality_grandpa::Precommit::new(hash, number).encode();
    SignedPrecommit {
        target_hash: hash,
        target_number: number,
        signature: key(seed).sign(&message).0,
        id: id(seed),
    }
}

fn justification(
    hash: [u8; 32],
    number: u32,
    votes: Vec<SignedPrecommit<u32>>,
) -> GrandpaJustification<u32> {
    GrandpaJustification {
        round: 4,
        commit: Commit { target_hash: hash, target_number: number, precommits: votes },
    }
}

fn encoded(round: u64, hash: [u8; 32], number: u32, votes: &[SignedPrecommit<u32>]) -> Vec<u8> {
    let precommits = votes
        .iter()
        .map(|v| finality_grandpa::SignedPrecommit {
            precommit: finality_grandpa::Precommit::new(
                sp_core::H256(v.target_hash),
                v.target_number,
            ),
            signature: sp_core::ed25519::Signature::from_raw(v.signature).into(),
            id: sp_core::ed25519::Public::from_raw(v.id).into(),
        })
        .collect();
    sp_consensus_grandpa::GrandpaJustification::<Header<u32>> {
        round,
        commit: finality_grandpa::Commit {
            target_hash: sp_core::H256(hash),
            target_number: number,
            precommits,
        },
        votes_ancestries: vec![],
    }
    .encode()
}

fn encoded_u64(hash: [u8; 32], number: u64, votes: &[SignedPrecommit<u64>]) -> Vec<u8> {
    let precommits = votes
        .iter()
        .map(|v| finality_grandpa::SignedPrecommit {
            precommit: finality_grandpa::Precommit::new(
                sp_core::H256(v.target_hash),
                v.target_number,
            ),
            signature: sp_core::ed25519::Signature::from_raw(v.signature).into(),
            id: sp_core::ed25519::Public::from_raw(v.id).into(),
        })
        .collect();
    sp_consensus_grandpa::GrandpaJustification::<Header<u64>> {
        round: 1,
        commit: finality_grandpa::Commit {
            target_hash: sp_core::H256(hash),
            target_number: number,
            precommits,
        },
        votes_ancestries: vec![],
    }
    .encode()
}

fn header(number: u32) -> BlockHeader<u32> {
    BlockHeader { number, hash: [number as u8; 32], parent_hash: [0; 32] }
}

fn block(number: u64) -> BlockRef {
    BlockRef { chain_id: ChainId::new("c"), number, hash: [5; 32] }
}

fn client(list: Vec<([u8; 32], u64)>) -> SubstrateVerificationClient<(), u32> {
    let voters = Voters::new(&list).unwrap();
    SubstrateVerificationClient::new(
        Arc::new(()),
        voters,
        GrandpaVerificationParams::default(),
        ChainConfig::default(),
    )
}

fn readings(number: u32, finalized: u32) -> ChainReadings<u32> {
    ChainReadings {
        header: Ok(Some(header(number))),
        finalized_number: finalized,
        canonical: Ok(Some([5; 32])),
        justifications: Ok(None),
    }
}

fn fives(n: usize) -> String {
    "05".repeat(n)
}

#[test]
fn authority_changes_wait_for_their_block() {
    let first = AuthoritySet::<[u8; 32], u32>::new(vec![([1; 32], 1)], 7);
    let mut manager = AuthoritySetManager::new(first);
    assert_eq!(manager.set_id(), 7);
    manager.schedule_change(vec![([2; 32], 2)], 10);
    manager.schedule_change(vec![([3; 32], 3)], 20);
    manager.process_finalized_block(9);
    assert_eq!(manager.current_authorities(), &vec![([1; 32], 1)]);
    manager.process_finalized_block(10);
    assert_eq!(manager.current_authorities(), &vec![([2; 32], 2)]);
    assert_eq!(manager.set_id(), 8);
    manager.process_finalized_block(25);
    assert_eq!(manager.current_authorities(), &vec![([3; 32], 3)]);
    assert_eq!(manager.set_id(), 8);
}

#[test]
fn a_late_change_holds_up_those_behind_it() {
    let first = AuthoritySet::<[u8; 32], u64>::new(vec![], 0);
    let mut manager = AuthoritySetManager::new(first);
    manager.schedule_change(vec![([2; 32], 2)], 30);
    manager.schedule_change(vec![([3; 32], 3)], 5);
    manager.process_finalized_block(29);
    assert!(manager.current_authorities().is_empty());
    manager.process_finalized_block(30);
    assert_eq!(manager.current_authorities(), &vec![([3; 32], 3)]);
    assert_eq!(manager.set_id(), 1);
}

#[test]
fn skipping_finalized_blocks_has_the_same_effect() {
    let make = || {
        let mut m = AuthoritySetManager::new(AuthoritySet::<[u8; 32], u32>::new(vec![], 0));
        m.schedule_change(vec![([1; 32], 1)], 3);
        m.schedule_change(vec![([2; 32], 1)], 6);
        m
    };
    let mut stepwise = make();
    stepwise.process_finalized_block(3);
    stepwise.process_finalized_block(6);
    let mut at_once = make();
    at_once.process_finalized_block(6);
    assert_eq!(stepwise.current_authorities(), at_once.current_authorities());
    assert_eq!(stepwise.set_id(), at_once.set_id());
}

#[test]
fn authority_sets_are_copied() {
    let set = AuthoritySet::<[u8; 32], u32>::new(vec![([1; 32], 4)], 3);
    let copy = set.clone();
    assert_eq!(copy.current_authorities(), set.current_authorities());
    assert_eq!(copy.set_id, 3);
}

#[test]
fn chain_identifiers_name_their_network() {
    let mut config = ChainConfig::default();
    assert_eq!(config.get_chain_id(), "substrate-default-dev");
    config.network_type = NetworkType::Testnet("rococo".to_string());
    assert_eq!(config.clone().get_chain_id(), "substrate-default-testnet-rococo");
    config.network_type = NetworkType::Mainnet;
    assert_eq!(config.get_chain_id(), "substrate-default");
}

#[test]
fn default_parameters() {
    let p = GrandpaVerificationParams::default();
    assert_eq!(p.min_confirmations, 2);
    assert_eq!(p.max_fork_depth, 50);
    assert_eq!(p.timeout_secs, 30);
    assert_eq!(p.set_id, 0);
    assert!(p.strict_signature_verification);
}

#[test]
fn voters_sum_their_entries() {
    let list = vec![([1; 32], 3), ([2; 32], 0), ([1; 32], 4), ([3; 32], 5)];
    let voters = Voters::new(&list).unwrap();
    assert_eq!(voters.weight(&[1; 32]), Some(7));
    assert_eq!(voters.weight(&[2; 32]), None);
    assert_eq!(voters.weight(&[3; 32]), Some(5));
    assert_eq!(voters.weight(&[4; 32]), None);
    assert_eq!(voters.total_weight(), 12);
}

#[test]
fn voters_need_a_weight_that_fits() {
    assert!(Voters::new(&vec![]).is_none());
    assert!(Voters::new(&vec![([1; 32], 0)]).is_none());
    assert!(Voters::new(&vec![([1; 32], u64::MAX), ([2; 32], 1)]).is_none());
    assert!(Voters::new(&vec![([1; 32], u64::MAX)]).is_some());
    assert_eq!(Voters::none().total_weight(), 0);
    assert_eq!(Voters::of(&vec![]).weight(&[1; 32]), None);
}

#[test]
fn votes_add_up_to_the_cap() {
    assert_eq!(add_vote(1, Some(2), true), 3);
    assert_eq!(add_vote(1, Some(2), false), 1);
    assert_eq!(add_vote(1, None, true), 1);
    assert_eq!(add_vote(u64::MAX, Some(2), true), u64::MAX);
}

#[test]
fn only_valid_votes_of_voters_count() {
    let voters = Voters::new(&vec![(id(1), 5), (id(2), 7), (id(3), 11)]).unwrap();
    let mut forged = vote(2, [9; 32], 8);
    forged.signature[0] ^= 1;
    let votes = vec![vote(1, [9; 32], 8), forged, vote(4, [9; 32], 8), vote(3, [8; 32], 1)];
    let tally = voters.verify_justification(&justification([9; 32], 8, votes));
    assert_eq!(tally, JustificationTally { signed_weight: 16, total_weight: 23 });
}

#[test]
fn a_signature_covers_hash_and_number() {
    let voters = Voters::new(&vec![(id(1), 5)]).unwrap();
    let mut moved = vote(1, [9; 32], 8);
    moved.target_number = 9;
    let mut other = vote(1, [9; 32], 8);
    other.target_hash = [8; 32];
    let tally = voters.verify_justification(&justification([9; 32], 8, vec![moved, other]));
    assert_eq!(tally.signed_weight, 0);
}

#[test]
fn votes_over_long_numbers_are_verified() {
    let voters = Voters::new(&vec![(id(1), 5)]).unwrap();
    let number = 1u64 << 40;
    let j = GrandpaJustification {
        round: 0,
        commit: Commit {
            target_hash: [1; 32],
            target_number: number,
            precommits: vec![vote_u64(1, [1; 32], number)],
        },
    };
    assert_eq!(voters.verify_justification(&j).signed_weight, 5);
}

#[test]
fn distinct_votes_stay_within_the_total() {
    let list = vec![(id(1), u64::MAX - 3), (id(2), 3)];
    let voters = Voters::new(&list).unwrap();
    let votes = vec![vote(1, [9; 32], 8), vote(2, [9; 32], 8)];
    let tally = voters.verify_justification(&justification([9; 32], 8, votes));
    assert_eq!(tally.signed_weight, u64::MAX);
    assert_eq!(tally.total_weight, u64::MAX);
}

#[test]
fn status_counts_finalized_blocks_after_the_block() {
    let c = client(vec![(id(1), 1)]);
    let s = c.get_finality_status(&[5; 32], &readings(7, 10)).unwrap();
    assert_eq!(s.block_number, 7);
    assert_eq!(s.confirmations, 3);
    assert!(s.is_finalized);
    assert!(!s.has_justification);
    assert_eq!((s.signed_weight, s.total_weight), (0, 0));
    let s = c.get_finality_status(&[5; 32], &readings(11, 10)).unwrap();
    assert_eq!(s.confirmations, 0);
    assert!(!s.is_finalized);
}

#[test]
fn status_reads_the_justification() {
    let c = client(vec![(id(1), 5), (id(2), 7)]);
    let bytes = encoded(3, [5; 32], 7, &[vote(2, [5; 32], 7)]);
    let mut r = readings(7, 7);
    r.justifications = Ok(Some(vec![(*b"BABE", vec![1]), (GRANDPA_ENGINE_ID, bytes)]));
    let s = c.get_finality_status(&[5; 32], &r).unwrap();
    assert!(s.has_justification);
    assert_eq!((s.signed_weight, s.total_weight), (7, 12));
    r.justifications = Ok(Some(vec![(GRANDPA_ENGINE_ID, vec![1, 2, 3])]));
    let s = c.get_finality_status(&[5; 32], &r).unwrap();
    assert!(s.has_justification);
    assert_eq!((s.signed_weight, s.total_weight), (0, 0));
    r.justifications = Ok(Some(vec![(*b"BABE", vec![1])]));
    assert!(!c.get_finality_status(&[5; 32], &r).unwrap().has_justification);
}

#[test]
fn status_reads_justifications_with_long_numbers() {
    let voters = Voters::new(&vec![(id(1), 5)]).unwrap();
    let c: SubstrateVerificationClient<(), u64> = SubstrateVerificationClient::new(
        Arc::new(()),
        voters,
        GrandpaVerificationParams::default(),
        ChainConfig::default(),
    );
    let number = 1u64 << 33;
    let bytes = encoded_u64([5; 32], number, &[vote_u64(1, [5; 32], number)]);
    let r = ChainReadings {
        header: Ok(Some(BlockHeader { number, hash: [5; 32], parent_hash: [0; 32] })),
        finalized_number: number + 1,
        canonical: Ok(Some([5; 32])),
        justifications: Ok(Some(vec![(GRANDPA_ENGINE_ID, bytes)])),
    };
    let s = c.get_finality_status(&[5; 32], &r).unwrap();
    assert_eq!((s.signed_weight, s.total_weight, s.confirmations), (5, 5, 1));
}

#[test]
fn unknown_blocks_have_no_status() {
    let c = client(vec![(id(1), 1)]);
    let mut r = readings(7, 10);
    r.header = Ok(None);
    let e = c.get_finality_status(&[5; 32], &r).unwrap_err();
    assert!(matches!(e, GrandpaFinalityVerificationError::BlockNotFound(_)));
    assert_eq!(e.to_string(), format!("Block not found: 0x{}", fives(32)));
    r.header = Err("down".to_string());
    let e = c.get_finality_status(&[5; 32], &r).unwrap_err();
    assert_eq!(e.to_string(), "Chain error: Failed to get header: down");
    let mut r = readings(7, 10);
    r.justifications = Err("gone".to_string());
    let e = c.get_finality_status(&[5; 32], &r).unwrap_err();
    assert_eq!(e.to_string(), "Chain error: Failed to get justification: gone");
}

#[test]
fn statuses_are_served_for_five_seconds() {
    let second = 1_000_000_000u128;
    let mut c = client(vec![(id(1), 1)]);
    assert!(c.cached_status(&[5; 32], 0).is_none());
    let s = c.get_finality_status_cached(&[5; 32], 0, &readings(7, 10)).unwrap();
    assert_eq!(s.confirmations, 3);
    let s = c.get_finality_status_cached(&[5; 32], 5 * second - 1, &readings(7, 20)).unwrap();
    assert_eq!(s.confirmations, 3);
    let s = c.get_finality_status_cached(&[5; 32], 5 * second, &readings(7, 20)).unwrap();
    assert_eq!(s.confirmations, 13);
    assert!(c.cached_status(&[6; 32], 5 * second).is_none());
}

#[test]
fn failed_lookups_are_not_kept() {
    let mut c = client(vec![(id(1), 1)]);
    let mut r = readings(7, 10);
    r.header = Ok(None);
    assert!(c.get_finality_status_cached(&[5; 32], 0, &r).is_err());
    assert!(c.cached_status(&[5; 32], 0).is_none());
}

#[test]
fn old_statuses_are_dropped() {
    let second = 1_000_000_000u128;
    let mut cache: FinalityCache<u8> = FinalityCache::new();
    cache.record([1; 32], 1, 0);
    cache.record([2; 32], 2, 30 * second);
    assert_eq!(cache.fresh(&[1; 32], 0), None);
    assert_eq!(cache.fresh(&[2; 32], 31 * second), Some(2));
    cache.record([2; 32], 3, 31 * second);
    assert_eq!(cache.fresh(&[2; 32], 31 * second), Some(3));
}

#[test]
fn block_hashes_are_verified_by_number() {
    let c = client(vec![(id(1), 1)]);
    assert_eq!(c.verify_block_hash(&block(7), &Ok(Some(header(7)))).ok(), Some(true));
    assert_eq!(c.verify_block_hash(&block(8), &Ok(Some(header(7)))).ok(), Some(false));
    let far = block(1 << 40);
    assert_eq!(c.verify_block_hash(&far, &Ok(Some(header(u32::MAX)))).ok(), Some(true));
    let e = c.verify_block_hash(&block(7), &Ok(None)).unwrap_err();
    assert_eq!(e.0, format!("Block not found: 0x{}", fives(32)));
}

#[test]
fn inclusion_needs_the_block_and_a_proof() {
    let c = client(vec![(id(1), 1)]);
    let known = Ok(Some(header(7)));
    assert_eq!(c.verify_block_inclusion(&block(7), &known, &known, &[1]).ok(), Some(true));
    assert_eq!(c.verify_block_inclusion(&block(7), &known, &known, &[]).ok(), Some(false));
    assert_eq!(c.verify_block_inclusion(&block(8), &known, &Ok(None), &[1]).ok(), Some(false));
    assert!(c.verify_block_inclusion(&block(7), &known, &Ok(None), &[1]).is_err());
    assert!(c.verify_block_inclusion(&block(7), &Ok(None), &known, &[1]).is_err());
    assert!(c.verify_merkle_proof(&[5; 32], &known, &[1]).unwrap());
}

#[test]
fn confidence_rests_on_finality_or_evidence() {
    let c = client(vec![(id(1), 1)]);
    let s = FinalityStatus::new(7u32, 10, true, false, None);
    assert_eq!(c.confidence_under(Ok(s)).ok(), Some(ConfidenceBasis::Finalized));
    let tally = JustificationTally { signed_weight: 2, total_weight: 3 };
    let s = FinalityStatus::new(11u32, 10, true, true, Some(tally));
    assert_eq!(
        c.confidence_under(Ok(s)).ok(),
        Some(ConfidenceBasis::Evidence {
            confirmations: 0,
            min_confirmations: 2,
            participation: Some(tally),
        })
    );
    let e = GrandpaFinalityVerificationError::ChainError("x".to_string());
    let e = c.confidence_under(Err(e)).unwrap_err();
    assert_eq!(e.0, "Consensus error: Chain error: x");
    let of = |r: &ChainReadings<u32>| c.get_finality_confidence(&block(7), r);
    assert_eq!(of(&readings(7, 10)).ok(), Some(ConfidenceBasis::Finalized));
    assert!(matches!(
        of(&readings(11, 10)),
        Ok(ConfidenceBasis::Evidence { confirmations: 0, min_confirmations: 2, participation: None })
    ));
    let mut r = readings(7, 10);
    r.canonical = Ok(None);
    assert!(matches!(of(&r), Ok(ConfidenceBasis::Evidence { confirmations: 0, .. })));
    r.canonical = Err("x".to_string());
    assert_eq!(of(&r).ok(), Some(ConfidenceBasis::Finalized));
    r.header = Err("x".to_string());
    let text = "Consensus error: Chain error: Failed to get header: x";
    assert_eq!(of(&r).unwrap_err().0, text);
}

#[test]
fn chain_rules_ask_for_depth_and_participation() {
    let c = client(vec![(id(1), 1)]);
    let rules = ChainRules { min_confirmations: 2, max_fork_depth: 50, voting_rounds: 2 };
    let status = |n: u32, f: u32, j: bool| Ok(FinalityStatus::new(n, f, true, j, None));
    assert_eq!(c.rules_met_under(status(8, 10, false), 58, &rules, true).ok(), Some(true));
    assert_eq!(c.rules_met_under(status(9, 10, false), 10, &rules, false).ok(), Some(false));
    assert_eq!(c.rules_met_under(status(8, 10, false), 59, &rules, false).ok(), Some(false));
    assert_eq!(c.rules_met_under(status(8, 10, true), 10, &rules, true).ok(), Some(false));
    assert_eq!(c.rules_met_under(status(8, 10, true), 10, &rules, false).ok(), Some(true));
    let e = GrandpaFinalityVerificationError::BlockNotFound("b".to_string());
    let e = c.rules_met_under(Err(e), 10, &rules, false).unwrap_err();
    assert_eq!(e.0, "Consensus error: Block not found: b");
}

#[test]
fn laxer_rules_are_met_as_well() {
    let c = client(vec![(id(1), 1)]);
    let rules = ChainRules { min_confirmations: 2, max_fork_depth: 5, voting_rounds: 2 };
    let laxer = ChainRules { min_confirmations: 1, max_fork_depth: 6, voting_rounds: 2 };
    let status = || Ok(FinalityStatus::new(8u32, 10, true, false, None));
    assert_eq!(c.rules_met_under(status(), 12, &rules, false).ok(), Some(true));
    assert_eq!(c.rules_met_under(status(), 12, &laxer, false).ok(), Some(true));
}

#[test]
fn chain_head_names_the_chain() {
    let c = client(vec![(id(1), 1)]);
    let head = c.get_chain_head([3; 32], 12);
    assert_eq!(head.number, 12);
    assert_eq!(head.hash, [3; 32]);
    assert_eq!(head.chain_id.as_str(), "substrate-default-dev");
    let head = c.get_chain_head_internal([3; 32], 12, 99);
    assert_eq!(head.timestamp, 99);
    assert_eq!(head.as_ref().number, 12);
    let inner: BlockRef = BlockRef::from(head.clone());
    assert_eq!(inner.hash, [3; 32]);
    assert_eq!(c.get_latest_finalized_block(4), 4);
    assert_eq!(c.u64_to_block_number(1 << 40), u32::MAX);
    assert_eq!(c.block_number_to_u64(8), 8);
    assert_eq!(c.get_chain_id(), "substrate-default-dev");
}

#[test]
fn blocks_are_given_if_known() {
    let c = client(vec![(id(1), 1)]);
    let b = c.get_block(&block(7), &Ok(Some(header(9)))).unwrap();
    assert_eq!((b.hash, b.number), ([5; 32], 7));
    assert!(c.get_block(&block(7), &Ok(None)).is_err());
}

#[test]
fn authority_updates_replace_the_voters() {
    let mut c = client(vec![(id(1), 1)]);
    assert!(c.handle_authority_set_update(&vec![(id(2), 4)], 1).is_ok());
    assert_eq!(c.get_voter_set().weight(&id(2)), Some(4));
    assert_eq!(c.get_voter_set().weight(&id(1)), None);
    let e = c.handle_authority_set_update(&vec![], 2).unwrap_err();
    assert_eq!(e.to_string(), "Authority set error: Failed to create voter set");
    assert_eq!(c.get_voter_set().weight(&id(2)), Some(4));
    assert_eq!(c.get_verification_params().max_fork_depth, 50);
}

#[test]
fn errors_read_as_messages() {
    let text = |e: GrandpaFinalityVerificationError| e.to_string();
    let m = || "m".to_string();
    assert_eq!(text(GrandpaFinalityVerificationError::TimeoutError(m())), "Timeout error: m");
    assert_eq!(
        text(GrandpaFinalityVerificationError::InvalidJustification(m())),
        "Invalid justification: m"
    );
    assert_eq!(text(GrandpaFinalityVerificationError::InvalidProof(m())), "Invalid proof: m");
    assert_eq!(
        text(GrandpaFinalityVerificationError::SignatureVerificationError(m())),
        "Signature verification failed: m"
    );
    assert_eq!(text(GrandpaFinalityVerificationError::InvalidInput(m())), "Invalid input: m");
    let e = FinalityVerificationError::from(GrandpaFinalityVerificationError::InvalidInput(m()));
    assert_eq!(e.0, "Invalid input: m");
    match FinalityError::from(GrandpaFinalityVerificationError::ConsensusError(m())) {
        FinalityError::ConsensusError { details, required_power, actual_power } => {
            assert_eq!((details.as_str(), required_power, actual_power), ("m", 0, 0));
        }
        _ => panic!("not a consensus error"),
    }
    match FinalityError::from(GrandpaFinalityVerificationError::TimeoutError(m())) {
        FinalityError::ChainError(text) => assert_eq!(text, "Timeout error: m"),
        _ => panic!("not a chain error"),
    }
}

fn predicate() -> GrandpaFinality<()> {
    let config = PredicateConfig {
        min_confirmations: 3,
        required_percent: 95,
        evaluation_timeout: 10_000_000_000,
    };
    GrandpaFinality::new(Arc::new(()), config, &vec![(id(1), 1)])
}

fn enough() -> Result<ConfidenceReading, String> {
    Ok(ConfidenceReading { below_threshold: false, percent: 97 })
}

#[test]
fn finality_needs_every_answer() {
    let f = predicate();
    assert!(f.is_final(Ok(true), enough(), Ok(true)).unwrap());
    assert!(!f.is_final(Ok(true), enough(), Ok(false)).unwrap());
    let low = ConfidenceReading { below_threshold: true, percent: 20 };
    assert!(!f.is_final(Ok(true), Ok(low), Ok(true)).unwrap());
    assert_eq!(
        f.chain_rules(),
        ChainRules { min_confirmations: 3, max_fork_depth: 50, voting_rounds: 2 }
    );
    assert_eq!(f.config().required_percent, 95);
}

#[test]
fn finality_errors_say_what_failed() {
    let f = predicate();
    match f.is_final(Ok(false), enough(), Ok(true)) {
        Err(FinalityError::ChainError(text)) => assert_eq!(text, "Block not found"),
        _ => panic!("unknown block"),
    }
    match f.is_final(Err("x".to_string()), enough(), Ok(true)) {
        Err(FinalityError::ChainError(text)) => assert_eq!(text, "Block verification failed: x"),
        _ => panic!("failed lookup"),
    }
    match f.is_final(Ok(true), Err("x".to_string()), Ok(true)) {
        Err(FinalityError::ConsensusError { details, required_power, actual_power }) => {
            assert_eq!(details, "Failed to get finality confidence: x");
            assert_eq!((required_power, actual_power), (95, 0));
        }
        _ => panic!("failed confidence"),
    }
    match f.is_final(Ok(true), enough(), Err("x".to_string())) {
        Err(FinalityError::ConsensusError { details, required_power, actual_power }) => {
            assert_eq!(details, "Chain rule verification failed: x");
            assert_eq!((required_power, actual_power), (67, 97));
        }
        _ => panic!("failed rules"),
    }
}

#[test]
fn waiting_ends_with_finality_error_or_timeout() {
    let f = predicate();
    let b = block(3);
    assert!(matches!(f.wait_for_finality(&b, Ok(true), 99_000_000_000, 4), WaitStep::Done(Ok(()))));
    match f.wait_for_finality(&b, Ok(false), 10_000_000_000, 4) {
        WaitStep::Retry { retry_count } => assert_eq!(retry_count, 5),
        _ => panic!("time is left"),
    }
    match f.wait_for_finality(&b, Ok(false), 10_000_000_001, 4) {
        WaitStep::Done(Err(FinalityError::Timeout { block_ref, timeout_nanos, retry_count })) => {
            assert_eq!(block_ref.number, 3);
            assert_eq!((timeout_nanos, retry_count), (10_000_000_000, 4));
        }
        _ => panic!("time is up"),
    }
    let e = Err(FinalityError::ChainError("x".to_string()));
    assert!(matches!(f.wait_for_finality(&b, e, 0, 0), WaitStep::Done(Err(_))));
}

#[test]
fn predicates_start_without_authorities() {
    let config =
        PredicateConfig { min_confirmations: 1, required_percent: 0, evaluation_timeout: 0 };
    let f: GrandpaFinality<()> = GrandpaFinality::new(Arc::new(()), config, &vec![]);
    assert_eq!(f.config().min_confirmations, 1);
}

fn round_client(list: Vec<([u8; 32], u64)>) -> verification::SubstrateVerificationClient<(), u32> {
    verification::SubstrateVerificationClient::new(
        Arc::new(()),
        Arc::new(AuthoritySet::new(list, 1)),
        GrandpaVerificationParams::default(),
    )
}

#[test]
fn rounds_count_votes_for_the_commit() {
    let c = round_client(vec![(id(1), 5), (id(2), 7), (id(1), 100)]);
    let votes = vec![vote(1, [9; 32], 8), vote(2, [9; 32], 9), vote(3, [9; 32], 8)];
    let j = justification([9; 32], 8, votes);
    let info = c.verify_justification(&j);
    assert_eq!(info.round, 4);
    assert_eq!(info.target_hash, [9; 32]);
    assert_eq!(info.target_number, 8);
    assert_eq!(info.precommit_count, 3);
    assert_eq!((info.valid_weight, info.total_weight), (5, 112));
    assert_eq!(c.valid_signatures(&j), 1);
}

fn round_readings(
    number: u32,
    justification: Option<Vec<u8>>,
) -> verification::RoundReadings<u32> {
    verification::RoundReadings {
        header: Ok(Some(header(number))),
        finalized_number: 10,
        canonical: Ok(Some([5; 32])),
        justification: Ok(justification),
    }
}

#[test]
fn round_status_holds_the_voting() {
    let mut c = round_client(vec![(id(1), 5), (id(2), 7)]);
    let votes = [vote(1, [5; 32], 7), vote(3, [5; 32], 7), vote(2, [4; 32], 7)];
    let r = round_readings(7, Some(encoded(2, [5; 32], 7, &votes)));
    let s = c.get_finality_status(&[5; 32], 0, &r).unwrap().unwrap();
    assert!(s.has_justification && s.is_finalized);
    assert_eq!((s.block_number, s.confirmations), (7, 3));
    assert_eq!((s.valid_weight, s.total_weight), (5, 12));
    assert_eq!((s.valid_signatures, s.total_authorities), (1, 2));
    let kept = c.cached_status(&[5; 32], 1).unwrap();
    assert_eq!(kept.valid_weight, 5);
    let s = c.compute_finality_status(&[5; 32], &round_readings(7, Some(vec![0]))).unwrap();
    let s = s.unwrap();
    assert!(s.has_justification);
    assert_eq!((s.valid_weight, s.total_weight, s.total_authorities), (0, 0, 2));
    let s = c.compute_finality_status(&[5; 32], &round_readings(7, None)).unwrap().unwrap();
    assert!(!s.has_justification);
    assert_eq!((s.valid_signatures, s.total_authorities), (0, 2));
}

#[test]
fn round_status_needs_weights_that_fit() {
    let c = round_client(vec![(id(1), u64::MAX), (id(2), 1)]);
    let r = round_readings(7, Some(encoded(2, [5; 32], 7, &[])));
    assert!(c.compute_finality_status(&[5; 32], &r).is_none());
    assert!(c.compute_finality_status(&[5; 32], &round_readings(7, None)).is_some());
}

#[test]
fn round_errors_say_what_failed() {
    let c = round_client(vec![(id(1), 1)]);
    let mut r = round_readings(7, None);
    r.header = Ok(None);
    match c.compute_finality_status(&[5; 32], &r).unwrap() {
        Err(verification::FinalityVerificationError::BlockNotFound(m)) => {
            assert_eq!(m, format!("Block not found: 0x{}", fives(32)));
        }
        _ => panic!("unknown block"),
    }
    let mut r = round_readings(7, None);
    r.justification = Err("x".to_string());
    match c.compute_finality_status(&[5; 32], &r).unwrap() {
        Err(verification::FinalityVerificationError::ChainError(m)) => {
            assert_eq!(m, "Failed to get justification: x");
        }
        _ => panic!("failed justification"),
    }
    match c.verify_block_hash(&block(7), &Err("x".to_string())) {
        Err(verification::FinalityVerificationError::ChainError(m)) => {
            assert_eq!(m, "Failed to get header: x");
        }
        _ => panic!("failed header"),
    }
    match c.get_block(&block(7), &Ok(Some(header(7))), vec![], Err("x".to_string())) {
        Err(verification::FinalityVerificationError::ChainError(m)) => {
            assert_eq!(m, "Failed to get body: x");
        }
        _ => panic!("failed body"),
    }
}

#[test]
fn round_client_verifies_blocks_and_rules() {
    let c = round_client(vec![(id(1), 1)]);
    let known = Ok(Some(header(7)));
    assert_eq!(c.verify_block_hash(&block(7), &known).ok(), Some(true));
    assert_eq!(c.verify_block_inclusion(&block(8), &known, &[]).ok(), Some(false));
    let b = c.get_block(&block(7), &known, vec![4, 2], Ok(Some(3))).unwrap();
    assert_eq!((b.number, b.transactions, b.extrinsics_count, b.timestamp), (7, 3, 3, 0));
    assert_eq!(b.substrate_header, vec![4, 2]);
    let s = c.compute_finality_status(&[5; 32], &round_readings(8, None)).unwrap().unwrap();
    let rules = ChainRules { min_confirmations: 2, max_fork_depth: 5, voting_rounds: 2 };
    assert_eq!(c.rules_met_under(&s, 13, &rules, Ok(false), true).ok(), Some(true));
    assert_eq!(c.rules_met_under(&s, 14, &rules, Ok(false), true).ok(), Some(false));
    assert_eq!(c.rules_met_under(&s, 13, &rules, Ok(true), false).ok(), Some(false));
    assert_eq!(
        c.confidence_under(&s, false),
        verification::ConfidenceBasis::Finalized
    );
    let s = c.compute_finality_status(&[5; 32], &round_readings(12, None)).unwrap().unwrap();
    assert_eq!(
        c.confidence_under(&s, true),
        verification::ConfidenceBasis::Confirmations { confirmations: 0, min_confirmations: 2 }
    );
    assert_eq!(c.get_chain_head([1; 32], 5), ([1; 32], 5));
    assert_eq!(c.get_latest_finalized_block(6), 6);
}

#[test]
fn round_client_answers_about_a_block() {
    let mut c = round_client(vec![(id(1), 1)]);
    let rules = ChainRules { min_confirmations: 2, max_fork_depth: 5, voting_rounds: 2 };
    let finalized = Some(verification::ConfidenceBasis::Finalized);
    let r = round_readings(8, None);
    let basis = c.get_finality_confidence(&block(8), 0, &r, false).unwrap();
    assert_eq!(basis.ok(), finalized);
    assert!(c.cached_status(&[5; 32], 1).unwrap().is_finalized);
    let later = round_readings(12, None);
    let basis = c.get_finality_confidence(&block(8), 1, &later, false).unwrap();
    assert_eq!(basis.ok(), finalized);
    let basis = c.get_finality_confidence(&block(8), 5_000_000_000, &later, false).unwrap();
    let expected =
        verification::ConfidenceBasis::Confirmations { confirmations: 0, min_confirmations: 2 };
    assert_eq!(basis.ok(), Some(expected));
    let mut c = round_client(vec![(id(1), 1)]);
    let met = c.verify_chain_rules(&block(8), 0, &r, 13, &rules, Ok(false), true).unwrap();
    assert_eq!(met.ok(), Some(true));
    let met = c.verify_chain_rules(&block(8), 0, &r, 14, &rules, Ok(false), true).unwrap();
    assert_eq!(met.ok(), Some(false));
    let mut c = round_client(vec![(id(1), 1)]);
    let mut fork = round_readings(8, None);
    fork.canonical = Ok(Some([6; 32]));
    let met = c.verify_chain_rules(&block(8), 0, &fork, 13, &rules, Ok(false), true).unwrap();
    assert_eq!(met.ok(), Some(false));
    let mut c = round_client(vec![(id(1), 1)]);
    fork.header = Ok(None);
    assert!(c.get_finality_confidence(&block(8), 0, &fork, true).unwrap().is_err());
    assert!(c.verify_chain_rules(&block(8), 0, &fork, 13, &rules, Ok(false), true).unwrap().is_err());
    assert!(c.cached_status(&[5; 32], 0).is_none());
}

#[test]
fn block_references_keep_their_time() {
    let r = SubstrateBlockRef { inner: block(3), timestamp: 8 };
    assert_eq!(r.clone().timestamp, 8);
    assert_eq!(r.as_ref().number, 3);
}

#[test]
fn finality_is_permanent() {
    let c = client(vec![(id(1), 1)]);
    for finalized in 7..20 {
        let s = c.get_finality_status(&[5; 32], &readings(7, finalized)).unwrap();
        assert!(s.is_finalized);
        assert_eq!(s.confirmations, finalized - 7);
    }
}

#[test]
fn recording_leaves_other_blocks() {
    let mut cache: FinalityCache<u8> = FinalityCache::new();
    cache.record([1; 32], 1, 0);
    cache.record([2; 32], 2, 1);
    assert_eq!(cache.fresh(&[1; 32], 4_999_999_999), Some(1));
    assert_eq!(cache.fresh(&[1; 32], 5_000_000_000), None);
    assert_eq!(cache.fresh(&[2; 32], 5_000_000_000), Some(2));
}

#[test]
fn each_vote_counts_for_itself() {
    let voters = Voters::new(&vec![(id(1), 5), (id(2), 7)]).unwrap();
    let tally = |votes| voters.verify_justification(&justification([9; 32], 8, votes));
    let (a, b) = (|| vote(1, [9; 32], 8), || vote(2, [9; 32], 8));
    let stranger = || vote(9, [9; 32], 8);
    assert_eq!(tally(vec![a(), b()]).signed_weight, 12);
    assert_eq!(tally(vec![b(), stranger(), a()]).signed_weight, 12);
    assert_eq!(tally(vec![b()]).signed_weight, 7);
    assert_eq!(tally(vec![a(), a()]).signed_weight, 10);
}

#[test]
fn only_final_blocks_meet_rules() {
    let c = client(vec![(id(1), 1)]);
    let rules = ChainRules { min_confirmations: 1, max_fork_depth: 50, voting_rounds: 2 };
    for number in 8u32..13 {
        let mut r = readings(number, 10);
        let met = c.verify_chain_rules(&block(number as u64), &r, 10, &rules, false).unwrap();
        assert_eq!(met, number < 10);
        r.canonical = Ok(Some([6; 32]));
        assert!(!c.verify_chain_rules(&block(number as u64), &r, 10, &rules, false).unwrap());
    }
    let mut r = readings(8, 10);
    r.header = Ok(None);
    let e = c.verify_chain_rules(&block(8), &r, 10, &rules, false).unwrap_err();
    assert_eq!(e.0, format!("Consensus error: Block not found: 0x{}", fives(32)));
}

#[test]
fn final_blocks_are_confirmed() {
    let c = client(vec![(id(1), 1)]);
    let f = predicate();
    let ask = |number: u32, finalized: u32, best: u32| {
        let r = readings(number, finalized);
        let b = block(7);
        let known = c.verify_block_hash(&b, &r.header).map_err(|e| e.0);
        let met = c.verify_chain_rules(&b, &r, best, &f.chain_rules(), false).map_err(|e| e.0);
        f.is_final(known, enough(), met)
    };
    assert_eq!(ask(7, 10, 57).ok(), Some(true));
    assert_eq!(ask(7, 9, 57).ok(), Some(false));
    assert_eq!(ask(7, 10, 58).ok(), Some(false));
    assert!(ask(8, 12, 12).is_err());
}

#[test]
fn waiting_is_bounded() {
    let f = predicate();
    let mut retries = 0;
    let mut elapsed = 0u128;
    while let WaitStep::Retry { retry_count } =
        f.wait_for_finality(&block(3), Ok(false), elapsed, retries)
    {
        retries = retry_count;
        elapsed += 2_000_000_000;
    }
    assert_eq!(retries, 6);
}

#[test]
fn distinct_round_votes_fit() {
    let c = round_client(vec![(id(1), u64::MAX - 1), (id(2), 1)]);
    let votes = vec![vote(1, [9; 32], 8), vote(2, [9; 32], 8)];
    let info = c.verify_justification(&justification([9; 32], 8, votes));
    assert_eq!(info.valid_weight, u64::MAX);
    assert_eq!(info.total_weight, u64::MAX);
}

#[test]
fn abandoned_forks_are_not_final() {
    let c = client(vec![(id(1), 1)]);
    for (canonical, held) in [
        (Ok(Some([6; 32])), false),
        (Ok(None), false),
        (Ok(Some([5; 32])), true),
        (Err("x".to_string()), true),
    ] {
        let confirmations = if held { 3 } else { 0 };
        let mut r = readings(7, 10);
        r.canonical = canonical.clone();
        let s = c.get_finality_status(&[5; 32], &r).unwrap();
        assert_eq!((s.is_finalized, s.confirmations), (held, confirmations));
        let c = round_client(vec![(id(1), 1)]);
        let mut r = round_readings(7, None);
        r.canonical = canonical;
        let s = c.compute_finality_status(&[5; 32], &r).unwrap().unwrap();
        assert_eq!((s.is_finalized, s.confirmations), (held, confirmations));
    }
}

#[test]
fn the_height_decides_without_an_answer() {
    let c = client(vec![(id(1), 1)]);
    for number in 9u32..12 {
        let mut r = readings(number, 10);
        r.canonical = Err("x".to_string());
        let s = c.get_finality_status(&[5; 32], &r).unwrap();
        assert_eq!(s.is_finalized, number <= 10);
    }
}

#[test]
fn strict_rounds_count_signed_votes_only() {
    let list = || Arc::new(AuthoritySet::new(vec![(id(1), 5), (id(2), 7)], 1));
    let mut forged = vote(2, [9; 32], 8);
    forged.signature[3] ^= 1;
    let j = justification([9; 32], 8, vec![vote(1, [9; 32], 8), forged]);
    let mut params = GrandpaVerificationParams::default();
    let strict: verification::SubstrateVerificationClient<(), u32> =
        verification::SubstrateVerificationClient::new(Arc::new(()), list(), params);
    assert!(strict.verify_precommit(&j.commit.precommits[0], &j.commit));
    assert!(!strict.verify_precommit(&j.commit.precommits[1], &j.commit));
    assert!(!strict.verify_signature_cryptographically(&j.commit.precommits[1]));
    assert_eq!(strict.verify_justification(&j).valid_weight, 5);
    assert_eq!(strict.valid_signatures(&j), 1);
    params.strict_signature_verification = false;
    let lax: verification::SubstrateVerificationClient<(), u32> =
        verification::SubstrateVerificationClient::new(Arc::new(()), list(), params);
    assert!(lax.verify_precommit(&j.commit.precommits[1], &j.commit));
    assert_eq!(lax.verify_justification(&j).valid_weight, 12);
    assert_eq!(lax.valid_signatures(&j), 2);
}

#[test]
fn the_last_retry_may_still_succeed() {
    let f = predicate();
    let done = f.wait_for_finality(&block(3), Ok(true), 0, u32::MAX);
    assert!(matches!(done, WaitStep::Done(Ok(()))));
    match f.wait_for_finality(&block(3), Ok(false), u128::MAX, u32::MAX) {
        WaitStep::Done(Err(FinalityError::Timeout { retry_count, .. })) => {
            assert_eq!(retry_count, u32::MAX);
        }
        _ => panic!("time is up"),
    }
}

#[test]
fn waiting_follows_the_checks() {
    let f = predicate();
    let waited = |checks: Vec<(Result<bool, FinalityError>, u128)>| {
        let mut retries = 0;
        let mut made = 0;
        for (outcome, elapsed) in checks {
            made += 1;
            match f.wait_for_finality(&block(3), outcome, elapsed, retries) {
                WaitStep::Done(result) => return Some((result, made)),
                WaitStep::Retry { retry_count } => retries = retry_count,
            }
        }
        None
    };
    let (result, made) = waited(vec![(Ok(false), 0), (Ok(false), 2), (Ok(true), 4)]).unwrap();
    assert!(result.is_ok());
    assert_eq!(made, 3);
    assert!(waited(vec![(Ok(false), 0), (Ok(false), 10_000_000_000)]).is_none());
    match waited(vec![(Ok(false), 0), (Ok(false), 10_000_000_001), (Ok(true), 0)]).unwrap() {
        (Err(FinalityError::Timeout { retry_count, .. }), 2) => assert_eq!(retry_count, 1),
        _ => panic!("time is up"),
    }
}

#[test]
fn valid_signatures_of_voters_are_counted() {
    let c = client(vec![(id(1), 5), (id(2), 7)]);
    let mut forged = vote(2, [5; 32], 8);
    forged.signature[0] ^= 1;
    let votes = [vote(1, [5; 32], 8), forged, vote(9, [5; 32], 8), vote(2, [5; 32], 8)];
    let mut r = readings(8, 10);
    assert_eq!(c.valid_signatures(&r), None);
    r.justifications = Ok(Some(vec![(GRANDPA_ENGINE_ID, encoded(1, [5; 32], 8, &votes))]));
    assert_eq!(c.valid_signatures(&r), Some(2));
    r.justifications = Ok(Some(vec![(GRANDPA_ENGINE_ID, vec![1])]));
    assert_eq!(c.valid_signatures(&r), None);
    r.justifications = Err("x".to_string());
    assert_eq!(c.valid_signatures(&r), None);
}
