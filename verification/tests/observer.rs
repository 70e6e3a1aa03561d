use std::sync::Arc;

use frost_substrate::error::ProtocolError;
use frost_substrate::finality::client::BlockHeader;
use frost_substrate::finality::config::{ChainConfig, NetworkType, PredicateConfig};
use frost_substrate::finality::error::FinalityError;
use frost_substrate::finality::GrandpaFinalityProvider;
use frost_substrate::message::{FrostMessage, MessageType};
use frost_substrate::observer::basic;
use frost_substrate::observer::error::ErrorKind;
use frost_substrate::observer::event::{are_comparable, contains, generic_event_match};
use frost_substrate::observer::handling::{Action, FinalityNotification, Stage};
use frost_substrate::observer::run::{HandledNotification, TargetAnswers};
use frost_substrate::observer::ssmp::{AnsweredNotification, SSMPObserver, SSMPWorker};
use frost_substrate::observer::target::WatchTarget;
use frost_substrate::pallet::config::{BlakeTwo256, Config, FrostHash};
use frost_substrate::pallet::origin::{DispatchError, Origin};
use frost_substrate::pallet::record;
use frost_substrate::pallet::ssmp::{registration_key, Error, Event, ObserverSetup, Pallet};
use frost_substrate::proofs::generator::{MerkleProofGenerator, ProofGenerationConfig};
use frost_substrate::state::{
    BlockRef, ChainId, ProofType, StateError, StateProof, StateRoot, StateTransition,
    TransitionMetadata,
};

struct Runtime;

impl Config for Runtime {
    type FrostHash = BlakeTwo256;
    type Number = u32;
    type Client = u8;
}

fn config() -> PredicateConfig {
    PredicateConfig { min_confirmations: 2, required_percent: 67, evaluation_timeout: 0 }
}

fn observer(has_router: bool) -> SSMPObserver<Runtime> {
    SSMPObserver::new(Arc::new(5), config(), has_router)
}

fn target(module: &[u8], function: &[u8], hash: Option<&[u8]>) -> WatchTarget {
    WatchTarget::new(
        module.to_vec(),
        function.to_vec(),
        hash.map(|h| h.to_vec()),
        b"chain".to_vec(),
    )
    .unwrap()
}

fn text(e: ProtocolError) -> String {
    match e {
        ProtocolError::Custom(m) => m,
        ProtocolError::Finality(_) => panic!("finality"),
    }
}

fn notification(hash: Vec<u8>) -> FinalityNotification<u32> {
    FinalityNotification { hash, number: 6, justification: None }
}

#[test]
fn targets_are_bounded() {
    let make = |m: usize, f: usize, h: Option<usize>, c: usize| {
        WatchTarget::new(vec![1; m], vec![2; f], h.map(|n| vec![3; n]), vec![4; c])
    };
    assert!(make(32, 32, Some(64), 32).is_ok());
    assert!(make(0, 0, Some(0), 0).is_ok());
    assert_eq!(make(33, 33, Some(65), 33).err(), Some("Module name too long"));
    assert_eq!(make(32, 33, Some(65), 33).err(), Some("Function name too long"));
    assert_eq!(make(32, 32, Some(65), 33).err(), Some("Message hash too long"));
    assert_eq!(make(32, 32, None, 33).err(), Some("Target chain too long"));
    let t = make(3, 2, Some(1), 4).unwrap();
    assert_eq!((t.module(), t.function()), (&[1u8; 3][..], &[2u8; 2][..]));
    assert_eq!((t.hash(), t.chain()), (Some(&[3u8][..]), &[4u8; 4][..]));
    assert!(t == t.clone());
    assert!(t != make(3, 2, None, 4).unwrap());
}

#[test]
fn targets_are_encoded_in_scale() {
    let t = target(b"ab", b"c", None);
    assert_eq!(t.encode(), [&[8, b'a', b'b', 4, b'c', 0, 20][..], b"chain"].concat());
    let hash = [7u8; 64];
    let t = target(b"ab", b"", Some(&hash));
    let expected = [&[8, b'a', b'b', 0, 1, 1, 1][..], &hash[..], &[20], b"chain"].concat();
    assert_eq!(t.encode(), expected);
    let hash = [7u8; 63];
    let t = target(b"", b"", Some(&hash));
    assert_eq!(&t.encode()[..4], &[0, 0, 1, 252]);
}

#[test]
fn encodings_tell_targets_apart() {
    let encodings = vec![
        target(b"a", b"b", None).encode(),
        target(b"ab", b"", None).encode(),
        target(b"", b"ab", None).encode(),
        target(b"a", b"b", Some(b"")).encode(),
        target(b"a", b"b", Some(b"c")).encode(),
    ];
    for i in 0..encodings.len() {
        for j in 0..i {
            assert_ne!(encodings[i], encodings[j]);
        }
    }
}

#[test]
fn parts_are_found_anywhere() {
    assert!(contains(b"hello", b"h"));
    assert!(contains(b"hello", b"llo"));
    assert!(contains(b"hello", b"hello"));
    assert!(!contains(b"hello", b"hellos"));
    assert!(!contains(b"hello", b"lol"));
    assert!(!contains(b"", b"a"));
}

#[test]
fn events_match_by_module_function_and_hash() {
    let event = b"..balances..transfer..HASH..";
    assert!(generic_event_match(event, &target(b"balances", b"transfer", None)));
    assert!(generic_event_match(event, &target(b"balances", b"transfer", Some(b"HASH"))));
    assert!(!generic_event_match(event, &target(b"balances", b"transfer", Some(b"hash"))));
    assert!(!generic_event_match(event, &target(b"balances", b"mint", None)));
    assert!(!generic_event_match(event, &target(b"assets", b"transfer", None)));
}

#[test]
fn a_match_survives_context() {
    let t = target(b"ab", b"cd", Some(b"ef"));
    assert!(generic_event_match(b"abcdef", &t));
    assert!(generic_event_match(b"xxabcdefyy", &t));
}

#[test]
fn empty_parts_cannot_be_compared() {
    let events = vec![b"abcd".to_vec()];
    assert!(!are_comparable(&events, &target(b"", b"cd", None)));
    assert!(!are_comparable(&events, &target(b"ab", b"", None)));
    assert!(!are_comparable(&events, &target(b"ab", b"cd", Some(b""))));
    assert!(are_comparable(&events, &target(b"xx", b"cd", Some(b""))));
    assert!(are_comparable(&events, &target(b"ab", b"cd", None)));
    assert!(are_comparable(&vec![], &target(b"", b"", None)));
}

#[test]
fn observers_report_failed_lookups() {
    let o = observer(false);
    let t = target(b"ab", b"cd", None);
    assert!(o.matches_watch_target(&Ok(vec![vec![], b"cdab".to_vec()]), &t).unwrap());
    assert!(!o.matches_watch_target(&Ok(vec![b"cd".to_vec(), b"ab".to_vec()]), &t).unwrap());
    let e = o.matches_watch_target(&Err("x".to_string()), &t).unwrap_err();
    assert_eq!(text(e), "Failed to fetch events: x");
    assert!(o.event_matches_target(b"-cd-ab-", &t));
    assert_eq!(o.get_block_events(Ok(vec![vec![1]])).ok(), Some(vec![vec![1]]));
    let e = o.get_block_events(Err("x".to_string())).unwrap_err();
    assert_eq!(text(e), "Failed to get events: x");
}

#[test]
fn new_observers_watch_nothing() {
    let mut o = observer(true);
    assert!(o.watch_targets().is_empty());
    assert_eq!(**o.client(), 5);
    assert_eq!(o.finality().config(), config());
    assert_eq!(o.verification_client().get_chain_id(), "substrate-default-dev");
    assert_eq!(o.verification_client().get_voter_set().total_weight(), 0);
}

#[test]
fn observers_take_authorities_from_the_runtime() {
    let chain = ChainConfig {
        chain_id: "x".to_string(),
        network_type: NetworkType::Mainnet,
        authority_set_id: 3,
    };
    let mut o = SSMPObserver::<Runtime>::new_with_runtime_authorities(
        Arc::new(5),
        config(),
        true,
        chain.clone(),
        Ok(vec![([1; 32], 4)]),
    )
    .ok()
    .unwrap();
    assert_eq!(o.verification_client().get_chain_id(), "x");
    assert_eq!(o.verification_client().get_voter_set().weight(&[1; 32]), Some(4));
    let r = SSMPObserver::<Runtime>::new_with_runtime_authorities(
        Arc::new(5),
        config(),
        true,
        chain,
        Err("no api".to_string()),
    );
    assert_eq!(text(r.err().unwrap()), "Failed to initialize finality: no api");
    let with = |list| {
        SSMPObserver::<Runtime>::new_with_runtime_authorities(
            Arc::new(5),
            config(),
            true,
            ChainConfig::default(),
            Ok(list),
        )
    };
    for list in [vec![([1; 32], 0)], vec![([1; 32], u64::MAX), ([2; 32], 1)]] {
        assert_eq!(
            text(with(list).err().unwrap()),
            "Failed to initialize finality: Authority set error: Failed to create voter set"
        );
    }
    assert!(with(vec![]).is_ok());
}

fn answers(events: &[&[u8]], proof: Option<u8>, routed: bool) -> TargetAnswers {
    TargetAnswers {
        events: Ok(events.iter().map(|e| e.to_vec()).collect()),
        now: 77,
        proof: proof.map(|p| vec![p]).ok_or(StateError::Internal("x".to_string())),
        routed,
    }
}

fn watching(has_router: bool) -> SSMPObserver<Runtime> {
    let mut o = observer(has_router);
    o.register_watch_target(target(b"ab", b"cd", None));
    o.register_watch_target(target(b"ef", b"gh", None));
    o.register_watch_target(target(b"ab", b"gh", None));
    o
}

fn all_match() -> Vec<TargetAnswers> {
    vec![
        answers(&[b"abcd"], Some(1), true),
        answers(&[b"abcd"], Some(2), true),
        answers(&[b"x", b"ghab"], Some(3), true),
    ]
}

#[test]
fn one_message_goes_out_for_each_match() {
    let o = watching(true);
    let n = notification(vec![9; 32]);
    let HandledNotification { outcome, messages, .. } = o.handle_finality_notification(&n, Ok(true), &all_match());
    assert!(outcome.is_ok());
    let payloads: Vec<Vec<u8>> = messages.iter().map(|m| m.payload.clone()).collect();
    assert_eq!(payloads, vec![vec![1], vec![3]]);
    assert_eq!(messages[0].message_type, MessageType::StateTransition);
    assert_eq!(messages[0].source_chain.as_str(), "source");
    assert_eq!(messages[0].target_chain.as_ref().unwrap().as_str(), "chain");
}

#[test]
fn one_proof_is_asked_for_each_match() {
    let n = notification(vec![9; 32]);
    for has_router in [true, false] {
        let r = watching(has_router).handle_finality_notification(&n, Ok(true), &all_match());
        assert!(r.outcome.is_ok());
        let functions: Vec<String> = r
            .requests
            .iter()
            .map(|q| q.transition.metadata.chain_specific.as_ref().unwrap().function_name.clone())
            .collect();
        assert_eq!(functions, vec!["cd".to_string(), "gh".to_string()]);
        for q in &r.requests {
            assert_eq!(q.transition.block_height, 6);
            assert_eq!(q.transition.metadata.timestamp, 77);
            assert_eq!((q.config.max_proof_size, q.config.proof_ttl), (1_048_576, 86_400));
        }
    }
    let mut a = all_match();
    a[0].routed = false;
    let r = watching(true).handle_finality_notification(&n, Ok(true), &a);
    assert_eq!(r.requests.len(), 1);
    let r = watching(true).handle_finality_notification(&n, Ok(false), &vec![]);
    assert!(r.requests.is_empty());
}

#[test]
fn nothing_goes_out_without_router_or_finality() {
    let n = notification(vec![9; 32]);
    let HandledNotification { outcome, messages, .. } =
        watching(false).handle_finality_notification(&n, Ok(true), &all_match());
    assert!(outcome.is_ok());
    assert!(messages.is_empty());
    let HandledNotification { outcome, messages, .. } = watching(true).handle_finality_notification(&n, Ok(false), &vec![]);
    assert!(outcome.is_ok());
    assert!(messages.is_empty());
    let failed = Err(FinalityError::ChainError("x".to_string()));
    let HandledNotification { outcome, messages, .. } = watching(true).handle_finality_notification(&n, failed, &vec![]);
    assert!(matches!(outcome, Err(ProtocolError::Finality(FinalityError::ChainError(_)))));
    assert!(messages.is_empty());
}

#[test]
fn a_failure_cuts_messages_off() {
    let o = watching(true);
    let n = notification(vec![9; 32]);
    let mut a = all_match();
    a[0].routed = false;
    let HandledNotification { outcome, messages, .. } = o.handle_finality_notification(&n, Ok(true), &a);
    assert_eq!(text(outcome.unwrap_err()), "Failed to route message");
    assert_eq!(messages.len(), 1);
    let mut a = all_match();
    a[2] = answers(&[b"abgh"], None, true);
    let HandledNotification { outcome, messages, .. } = o.handle_finality_notification(&n, Ok(true), &a);
    assert_eq!(text(outcome.unwrap_err()), "Failed to generate proof");
    assert_eq!(messages.len(), 1);
    let mut a = all_match();
    a[1].events = Err("x".to_string());
    let HandledNotification { outcome, messages, .. } = o.handle_finality_notification(&n, Ok(true), &a);
    assert_eq!(text(outcome.unwrap_err()), "Failed to fetch events: x");
    assert_eq!(messages.len(), 1);
}

#[test]
fn notifications_need_a_whole_hash() {
    let o = watching(true);
    let HandledNotification { outcome, .. } =
        o.handle_finality_notification(&notification(vec![9; 31]), Ok(false), &vec![]);
    assert_eq!(text(outcome.unwrap_err()), "Invalid block hash");
    assert!(o.begin(&notification(vec![9; 33])).is_err());
}

#[test]
fn notifications_are_handled_step_by_step() {
    let o = watching(true);
    let (mut state, action) = o.begin(&notification(vec![9; 32])).ok().unwrap();
    match action {
        Action::CheckFinality(block) => {
            assert_eq!((block.number, block.hash, block.chain_id.as_str()), (6, [9; 32], ""));
        }
        _ => panic!("finality first"),
    }
    assert!(matches!(o.after_finality(&mut state, Ok(true)), Action::FetchEvents(h) if h == [9; 32]));
    assert_eq!((state.stage(), state.position()), (Stage::Events, 0));
    assert!(*state.target() == target(b"ab", b"cd", None));
    match state.after_events(&Ok(vec![b"abcd".to_vec()]), 55) {
        Action::GenerateProof(request) => {
            assert!(request.config.proof_type == ProofType::Custom("Merkle".to_string()));
            assert_eq!(request.config.max_proof_size, 1_048_576);
            assert_eq!(request.config.proof_ttl, 86_400);
            let t = request.transition;
            assert_eq!(t.block_height, 6);
            assert_eq!(t.metadata.timestamp, 55);
            assert_eq!(t.pre_state.root_hash, [0; 32]);
            assert_eq!(t.metadata.chain_specific.unwrap().target_chain, "chain");
        }
        _ => panic!("a match needs a proof"),
    }
    match state.after_proof(Ok(vec![4, 2])) {
        Action::Route(m) => assert_eq!(m.payload, vec![4, 2]),
        _ => panic!("a proof is routed"),
    }
    assert!(matches!(state.after_routing(true), Action::FetchEvents(_)));
    assert_eq!(state.position(), 1);
    assert!(matches!(state.after_events(&Ok(vec![]), 56), Action::FetchEvents(_)));
    match state.after_events(&Err("x".to_string()), 57) {
        Action::Done(Err(e)) => assert_eq!(text(e), "Failed to fetch events: x"),
        _ => panic!("over"),
    }
    assert_eq!(state.stage(), Stage::Done);
    assert_eq!(state.block().number, 6);
}

#[test]
fn finalized_blocks_become_notifications() {
    let o = watching(true);
    let block = |number: u64| BlockRef { chain_id: ChainId::new("c"), number, hash: [9; 32] };
    let n = SSMPObserver::<Runtime>::notification_for(&block(7)).ok().unwrap();
    assert_eq!((n.number, n.hash), (7, vec![9; 32]));
    let HandledNotification { outcome, messages, .. } = o.on_block_finalized(&block(7), Ok(true), &all_match());
    assert!(outcome.is_ok());
    assert_eq!(messages.len(), 2);
    let HandledNotification { outcome, .. } = o.on_block_finalized(&block(1 << 32), Ok(true), &all_match());
    assert_eq!(text(outcome.unwrap_err()), "Invalid block number");
}

#[test]
fn transitions_are_made_for_a_target() {
    let o = observer(false);
    let block = BlockRef { chain_id: ChainId::new("c"), number: 3, hash: [9; 32] };
    let t = o.generate_state_transition(&block, &target(b"ab", b"cd", None), 12).0;
    assert_eq!(t.chain_id.as_str(), "c");
    assert_eq!(t.block_height, 3);
    assert_eq!(t.metadata.chain_specific.unwrap().module_name, "ab");
}

#[test]
fn a_worker_goes_on_after_failures() {
    let worker = SSMPWorker::new(Arc::new(watching(true)));
    let item = |hash: Vec<u8>, finality| AnsweredNotification {
        notification: notification(hash),
        finality,
        answers: all_match(),
    };
    let outcomes = worker.run_with_finality_stream(vec![
        item(vec![9; 32], Ok(true)),
        item(vec![9; 3], Ok(true)),
        item(vec![9; 32], Err(FinalityError::ChainError("x".to_string()))),
        item(vec![9; 32], Ok(false)),
    ]);
    let ok: Vec<bool> = outcomes.iter().map(|o| o.outcome.is_ok()).collect();
    assert_eq!(ok, vec![true, false, false, true]);
    let sent: Vec<usize> = outcomes.iter().map(|o| o.messages.len()).collect();
    assert_eq!(sent, vec![2, 0, 0, 0]);
    assert_eq!(outcomes[0].messages[1].payload, vec![3]);
    assert_eq!(worker.observer().watch_targets().len(), 3);
}

#[test]
fn observation_errors_read_as_messages() {
    let m = |k: ErrorKind| text(ProtocolError::from(k));
    assert_eq!(m(ErrorKind::RuntimeApiError("x".to_string())), "Runtime API error: x");
    assert_eq!(m(ErrorKind::StateNotFound), "State not found");
    assert_eq!(m(ErrorKind::InvalidBlockNumber), "Invalid block number");
}

#[test]
fn the_basic_observer_follows_finality_only() {
    let mut o: basic::SSMPObserver<Runtime> = basic::SSMPObserver::new(Arc::new(5), config());
    o.register_watch_target(target(b"ab", b"cd", None));
    let n = notification(vec![9; 32]);
    assert!(o.handle_finality_notification(&n, Ok(true)).is_ok());
    assert!(o.handle_finality_notification(&n, Ok(false)).is_ok());
    let e = o.handle_finality_notification(&notification(vec![]), Ok(true)).unwrap_err();
    assert_eq!(text(e), "Invalid block hash");
    let failed = Err(FinalityError::ChainError("x".to_string()));
    assert!(o.handle_finality_notification(&n, failed).is_err());
    let block = BlockRef { chain_id: ChainId::new("c"), number: 3, hash: [9; 32] };
    assert!(!o.matches_watch_target(&block, &target(b"ab", b"cd", None)));
    let t = o.generate_state_transition(&block);
    assert_eq!((t.block_height, t.metadata.timestamp), (3, 0));
    assert!(t.metadata.chain_specific.is_none());
    let m = o.message_for(vec![1], &target(b"ab", b"cd", None));
    assert_eq!(m.message_type, MessageType::StateProof);
    assert_eq!(m.target_chain.unwrap().as_str(), "chain");
    assert_eq!(**o.client(), 5);
    assert_eq!(o.finality().config(), config());
}

fn setup() -> Option<ObserverSetup<u8>> {
    Some(ObserverSetup { client: Arc::new(5), config: config(), has_router: true })
}

#[test]
fn targets_are_registered_under_their_hash() {
    let mut pallet: Pallet<Runtime> = Pallet::new();
    let t = target(b"ab", b"cd", Some(b"e"));
    let hash = BlakeTwo256::hash(&t.encode());
    assert!(pallet.watch_target(&hash).is_none());
    let signed = Origin::Signed([1; 32]);
    assert!(pallet.register_watch_target(signed, t.clone(), setup()).is_ok());
    assert!(*pallet.watch_target(&hash).unwrap() == t);
    assert_eq!(pallet.existing_observer().unwrap().watch_targets().len(), 1);
    match &pallet.events()[..] {
        [Event::WatchTargetRegistered { target_hash }] => assert_eq!(*target_hash, hash),
        _ => panic!("one event"),
    }
    assert!(pallet.register_watch_target(signed, t, setup()).is_ok());
    assert_eq!(pallet.existing_observer().unwrap().watch_targets().len(), 2);
    assert_eq!(pallet.events().len(), 2);
}

#[test]
fn registration_keeps_other_targets() {
    let mut pallet: Pallet<Runtime> = Pallet::new();
    let (a, b) = (target(b"ab", b"cd", None), target(b"ab", b"ce", None));
    let key = registration_key::<BlakeTwo256>(SIGNED, &a).ok().unwrap();
    assert_eq!(key, BlakeTwo256::hash(&a.encode()));
    assert_eq!(registration_key::<BlakeTwo256>(Origin::Root, &a), Err(DispatchError::BadOrigin));
    assert!(pallet.register_watch_target(SIGNED, a.clone(), None).is_ok());
    assert!(pallet.register_watch_target(SIGNED, b.clone(), None).is_ok());
    assert!(*pallet.watch_target(&key).unwrap() == a);
    let key = registration_key::<BlakeTwo256>(SIGNED, &b).ok().unwrap();
    assert!(*pallet.watch_target(&key).unwrap() == b);
}

#[test]
fn blake2_of_nothing() {
    let expected = "0e5751c026e543b2e8ab2eb06099daa1d1e5df47778f7787faab45cdf12fe3a8";
    assert_eq!(hex::encode(BlakeTwo256::hash(&[])), expected);
}

#[test]
fn refused_registrations_leave_no_trace() {
    let mut pallet: Pallet<Runtime> = Pallet::new();
    let good = target(b"ab", b"cd", None);
    for origin in [Origin::Root, Origin::Unsigned] {
        let r = pallet.register_watch_target(origin, good.clone(), setup());
        assert_eq!(r, Err(DispatchError::BadOrigin));
    }
    for bad in [target(b"", b"cd", None), target(b"ab", b"", None)] {
        let r = pallet.register_watch_target(Origin::Signed([1; 32]), bad, setup());
        assert_eq!(r, Err(DispatchError::Module(Error::InvalidWatchTarget)));
    }
    assert!(pallet.events().is_empty());
    assert!(pallet.existing_observer().is_none());
}

#[test]
fn observers_are_made_once() {
    let mut pallet: Pallet<Runtime> = Pallet::new();
    assert_eq!(pallet.on_initialize(None), 0);
    assert!(pallet.existing_observer().is_none());
    let t = target(b"ab", b"cd", None);
    assert!(pallet.register_watch_target(Origin::Signed([1; 32]), t.clone(), None).is_ok());
    assert!(pallet.existing_observer().is_none());
    assert_eq!(pallet.on_initialize(setup()), 0);
    assert!(pallet.existing_observer().unwrap().watch_targets().is_empty());
    assert!(pallet.register_watch_target(Origin::Signed([1; 32]), t, None).is_ok());
    assert_eq!(pallet.on_initialize(setup()), 0);
    assert_eq!(pallet.existing_observer().unwrap().watch_targets().len(), 1);
    let mut pallet: Pallet<Runtime> = Pallet::new();
    assert!(pallet.observer(None).is_none());
    assert!(pallet.observer(setup()).unwrap().watch_targets().is_empty());
    assert!(pallet.existing_observer().is_some());
}

fn transition() -> StateTransition {
    StateTransition {
        chain_id: ChainId::new("c"),
        block_height: 4,
        pre_state: StateRoot::default(),
        post_state: StateRoot::default(),
        transition_proof: Some(vec![1]),
        metadata: TransitionMetadata::default(),
    }
}

fn state_proof(kind: ProofType) -> StateProof {
    let g: MerkleProofGenerator<(), ()> = MerkleProofGenerator::new(Arc::new(()));
    let header = Ok(Some(BlockHeader { number: 1, hash: [1; 32], parent_hash: [0; 32] }));
    let config = ProofGenerationConfig::default();
    let mut p = g.generate_proof(&transition(), &config, &header, &header, 0, Ok(1)).ok().unwrap();
    p.proof.proof_type = kind;
    p
}

fn record() -> record::Module<Runtime> {
    record::Module::new(record::ProofGenerationConfig::default(), 100)
}

const SIGNED: Origin = Origin::Signed([1; 32]);

fn module(e: record::Error) -> Result<(), DispatchError<record::Error>> {
    Err(DispatchError::Module(e))
}

#[test]
fn transitions_from_final_blocks_are_recorded() {
    let mut m = record();
    assert!(m.record_transition(SIGNED, transition(), b"enc", true, Ok(true)).is_ok());
    let hash = BlakeTwo256::hash(b"enc");
    assert_eq!(m.transitions(&hash).unwrap().block_height, 4);
    assert!(matches!(m.events()[0], record::Event::TransitionRecorded(h) if h == hash));
    let r = m.record_transition(Origin::Root, transition(), b"x", true, Ok(true));
    assert_eq!(r, Err(DispatchError::BadOrigin));
    let r = m.record_transition(SIGNED, transition(), b"x", false, Ok(true));
    assert_eq!(r, module(record::Error::InvalidTransition));
    let r = m.record_transition(SIGNED, transition(), b"x", true, Ok(false));
    assert_eq!(r, module(record::Error::BlockNotFinalized));
    let failed = Err(FinalityError::ChainError("x".to_string()));
    let r = m.record_transition(SIGNED, transition(), b"x", true, failed);
    assert_eq!(r, module(record::Error::FinalityVerificationFailed));
    assert_eq!(m.events().len(), 1);
}

#[test]
fn proofs_are_recorded_for_transitions() {
    let mut m = record();
    let hash = BlakeTwo256::hash(b"enc");
    let good = || Ok(state_proof(ProofType::Merkle));
    let r = m.generate_proof(SIGNED, hash, ProofType::Merkle, good(), 100);
    assert_eq!(r, module(record::Error::InvalidTransition));
    m.record_transition(SIGNED, transition(), b"enc", true, Ok(true)).unwrap();
    let r = m.generate_proof(SIGNED, hash, ProofType::Basic, good(), 100);
    assert_eq!(r, module(record::Error::UnsupportedProofType));
    let r = m.generate_proof(SIGNED, hash, ProofType::Merkle, good(), 101);
    assert_eq!(r, module(record::Error::ProofTooLarge));
    let bad = Err(StateError::Internal("x".to_string()));
    let r = m.generate_proof(SIGNED, hash, ProofType::Merkle, bad, 1);
    assert_eq!(r, module(record::Error::InvalidProof));
    let r = m.generate_proof(Origin::Unsigned, hash, ProofType::Merkle, good(), 1);
    assert_eq!(r, Err(DispatchError::BadOrigin));
    assert!(m.proofs(&hash).is_none());
    let (t, kind, config) = m.proof_request(SIGNED, &hash, &ProofType::Signature).ok().unwrap();
    assert_eq!(t.block_height, 4);
    assert_eq!(kind, record::GeneratorKind::Signature);
    assert!(config.proof_type == ProofType::Signature);
    assert_eq!((config.max_size, config.timeout), (1_048_576, 30));
    assert!(m.generate_proof(SIGNED, hash, ProofType::Merkle, good(), 100).is_ok());
    assert_eq!(m.proofs(&hash).unwrap().proof.version, 1);
    assert_eq!(m.events().len(), 2);
    assert!(m.proof_config().proof_type == ProofType::Merkle);
}

fn proven(kind: ProofType) -> record::ProvenMessage {
    record::ProvenMessage {
        message: FrostMessage::new(MessageType::StateProof, vec![8], "s".to_string(), None),
        proof: state_proof(kind),
    }
}

#[test]
fn verified_messages_are_recorded() {
    let mut m = record();
    let hash = BlakeTwo256::hash(b"m");
    let r = m.verify_message(Origin::Root, proven(ProofType::Merkle), b"m", true, Ok(true));
    assert_eq!(r, Err(DispatchError::BadOrigin));
    let r = m.verify_message(SIGNED, proven(ProofType::Merkle), b"m", false, Ok(true));
    assert_eq!(r, module(record::Error::InvalidMessage));
    let r = m.verify_message(SIGNED, proven(ProofType::Basic), b"m", true, Ok(true));
    assert_eq!(r, module(record::Error::UnsupportedProofType));
    let r = m.verify_message(SIGNED, proven(ProofType::Merkle), b"m", true, Ok(false));
    assert_eq!(r, module(record::Error::InvalidProof));
    assert!(m.messages(&hash).is_none());
    let r = m.verify_message(SIGNED, proven(ProofType::Signature), b"m", true, Ok(true));
    assert!(r.is_ok());
    assert_eq!(m.messages(&hash).unwrap().message.payload, vec![8]);
}

#[test]
fn records_ask_about_the_source_block_and_the_generator() {
    let m = record();
    let mut t = transition();
    t.pre_state.block_ref = BlockRef { chain_id: ChainId::new("c"), number: 3, hash: [3; 32] };
    t.post_state.block_ref = BlockRef { chain_id: ChainId::new("c"), number: 4, hash: [4; 32] };
    let b = m.finality_request(SIGNED, &t, true).ok().unwrap();
    assert_eq!((b.number, b.hash), (3, [3; 32]));
    assert!(matches!(m.finality_request(Origin::Root, &t, false), Err(DispatchError::BadOrigin)));
    let e = m.finality_request(SIGNED, &t, false).err().unwrap();
    assert_eq!(e, DispatchError::Module(record::Error::InvalidTransition));
    let kind = |k| m.verification_request(SIGNED, &proven(k), true).map(|r| r.0).ok();
    assert_eq!(kind(ProofType::Merkle), Some(record::GeneratorKind::Merkle));
    assert_eq!(kind(ProofType::Signature), Some(record::GeneratorKind::Signature));
    assert_eq!(kind(ProofType::Basic), None);
    let (_, c) = m.verification_request(SIGNED, &proven(ProofType::Signature), true).ok().unwrap();
    assert!(c.proof_type == ProofType::Merkle);
    let e = m.verification_request(SIGNED, &proven(ProofType::Merkle), false).err().unwrap();
    assert_eq!(e, DispatchError::Module(record::Error::InvalidMessage));
}

#[test]
fn the_latest_block_is_replaced() {
    let mut m = record();
    assert!(m.latest_block().is_none());
    for number in [4, 9] {
        m.update_latest_block(BlockRef { chain_id: ChainId::default(), number, hash: [1; 32] });
    }
    assert_eq!(m.latest_block().unwrap().number, 9);
    assert!(matches!(&m.events()[1], record::Event::StateFinalized(b) if b.number == 9));
}

#[test]
fn messages_go_to_the_chain_of_their_target() {
    let mut o = observer(true);
    for chain in [&b"first"[..], &[b'a', 0xff][..]] {
        let t = WatchTarget::new(b"ab".to_vec(), b"cd".to_vec(), None, chain.to_vec()).unwrap();
        o.register_watch_target(t);
    }
    assert_eq!(o.watch_targets()[0].chain_text(), "first");
    let a = vec![answers(&[b"abcd"], Some(1), true), answers(&[b"abcd"], Some(2), true)];
    let HandledNotification { outcome, messages, .. } =
        o.handle_finality_notification(&notification(vec![9; 32]), Ok(true), &a);
    assert!(outcome.is_ok());
    let chains: Vec<String> =
        messages.iter().map(|m| m.target_chain.as_ref().unwrap().as_str().to_string()).collect();
    assert_eq!(chains, vec!["first".to_string(), "a\u{fffd}".to_string()]);
}

#[test]
fn answers_are_needed_up_to_the_stop_only() {
    let mut o = observer(true);
    o.register_watch_target(target(b"ab", b"cd", None));
    o.register_watch_target(target(b"", b"", None));
    let a = vec![answers(&[b"abcd"], None, true)];
    let HandledNotification { outcome, .. } = o.handle_finality_notification(&notification(vec![9; 32]), Ok(true), &a);
    assert_eq!(text(outcome.unwrap_err()), "Failed to generate proof");
}
