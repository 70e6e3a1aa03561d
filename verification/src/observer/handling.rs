//! How a finality notification is handled, step by step.

use vstd::prelude::*;

use crate::error;
use crate::error::{ProtocolError, ProtocolErrorView};
use crate::finality::error::{FinalityError, FinalityErrorView};
use crate::finality::predicate;
use crate::grandpa::{BlockHash, GrandpaJustification};
use crate::message::{FrostMessage, MessageType, MessageView};
use crate::number::BlockNumber;
use crate::observer::error::ErrorKind;
use crate::observer::event;
use crate::observer::event::any_event_matches;
use crate::observer::target::{TargetView, WatchTarget};
use crate::proofs::generator;
use crate::proofs::generator::ProofGenerationConfig;
use crate::state::{
    copied, BlockRef, ChainId, ProofTypeView, StateError, StateRoot, StateTransition,
};
use crate::text::joined;
use crate::trusted;
use crate::wrapper_types;
use crate::wrapper_types::SSMPStateTransition;

verus! {

/// The notice that a block was finalized.
#[derive(Debug)]
pub struct FinalityNotification<N> {
    /// Hash of the finalized block.
    pub hash: Vec<u8>,
    /// Number of the finalized block.
    pub number: N,
    /// Justification, if available.
    pub justification: Option<GrandpaJustification<N>>,
}

/// What a proof is generated from, and how.
#[derive(Debug)]
pub struct ProofRequest {
    pub transition: StateTransition,
    pub config: ProofGenerationConfig,
}

/// What is to be done next for a notification.
#[derive(Debug)]
pub enum Action {
    /// Check whether the block is final.
    CheckFinality(BlockRef),
    /// Fetch the events of the block with this hash.
    FetchEvents(BlockHash),
    /// Generate this proof.
    GenerateProof(ProofRequest),
    /// Route this message.
    Route(FrostMessage),
    /// Nothing more: this is the outcome.
    Done(Result<(), ProtocolError>),
}

/// What an action asks for.
pub enum Asked {
    Finality,
    Events,
    /// A proof of the transition for this target, observed at this time.
    Proof { target: TargetView, now: u64 },
    Route(MessageView),
    Done(Result<(), ProtocolErrorView>),
}

/// What a handled notification waits for.
#[derive(Clone, Copy, Debug, PartialEq, Eq, Structural)]
pub enum Stage {
    Finality,
    Events,
    Proof,
    Route,
    Done,
}

/// Whether a state is the one before any transition: no block, a root of zeros.
pub open spec fn is_initial_root(root: StateRoot) -> bool {
    &&& root.block_ref.chain_id.id@ == Seq::<char>::empty()
    &&& root.block_ref.number == 0
    &&& root.block_ref.hash@ == Seq::new(32, |i: int| 0u8)
    &&& root.root_hash@ == Seq::new(32, |i: int| 0u8)
    &&& root.metadata is None
}

/// Whether a transition is the one that is observed for a target at a block.
pub open spec fn is_transition_for(
    transition: StateTransition,
    block: BlockRef,
    target: TargetView,
    now: u64,
) -> bool {
    is_transition_at(transition, block.chain_id.id@, block.number as nat, target, now)
}

/// Whether a proof is asked for as it should be: by default, and of the transition that is observed
/// for a target at a height of a chain.
pub open spec fn is_request_at(
    request: ProofRequest,
    chain: Seq<char>,
    height: nat,
    target: TargetView,
    now: u64,
) -> bool {
    &&& is_transition_at(request.transition, chain, height, target, now)
    &&& generator::is_default(request.config)
}

/// Whether a transition is the one that is observed for a target at a height of a chain.
pub open spec fn is_transition_at(
    transition: StateTransition,
    chain: Seq<char>,
    height: nat,
    target: TargetView,
    now: u64,
) -> bool {
    &&& transition.chain_id.id@ == chain
    &&& transition.block_height as nat == height
    &&& is_initial_root(transition.pre_state)
    &&& is_initial_root(transition.post_state)
    &&& transition.transition_proof is None
    &&& transition.metadata.timestamp == now
    &&& transition.metadata.version == 0
    &&& transition.metadata.proof_type is Basic
    &&& transition.metadata.chain_specific matches Some(c) && {
        &&& wrapper_types::spells(c.module_name@, target.module_name)
        &&& wrapper_types::spells(c.function_name@, target.function_name)
        &&& wrapper_types::spells(c.target_chain@, target.target_chain)
    }
}

impl Action {
    /// Whether the action asks for what is expected, about the given block.
    pub open spec fn asks(self, block: BlockRef, expected: Asked) -> bool {
        match expected {
            Asked::Finality => self == Action::CheckFinality(block),
            Asked::Events => self == Action::FetchEvents(block.hash),
            Asked::Proof { target, now } => self matches Action::GenerateProof(request)
                && is_request_at(request, block.chain_id.id@, block.number as nat, target, now),
            Asked::Route(message) => self matches Action::Route(m) && m@ == message,
            Asked::Done(outcome) => self matches Action::Done(o) && error::outcome_view(o)
                == outcome,
        }
    }
}

/// The message that carries an encoded proof to the chain of a target.
pub open spec fn proof_message(
    message_type: MessageType,
    payload: Seq<u8>,
    target: TargetView,
) -> MessageView {
    MessageView {
        message_type,
        payload,
        source_chain: "source"@,
        target_chain: Some(trusted::lossy_text(target.target_chain)),
    }
}

/// The message that carries an encoded proof to the chain of a target.
pub fn message_for(message_type: MessageType, payload: Vec<u8>, target: &WatchTarget) -> (r:
    FrostMessage)
    ensures
        r@ == proof_message(message_type, payload@, target@),
        r@.target_chain matches Some(text) && wrapper_types::spells(text, target@.target_chain),
{
    FrostMessage::new(message_type, payload, "source".to_owned(), Some(target.chain_text()))
}

/// The block that a notification speaks of, or why it speaks of none.
pub open spec fn notified<N: BlockNumber>(
    notification: FinalityNotification<N>,
) -> Option<(nat, Seq<u8>)> {
    if notification.hash@.len() == 32 {
        Some((notification.number.as_nat(), notification.hash@))
    } else {
        None
    }
}

/// The block that a notification speaks of; the chain is left open.
pub fn notified_block<N: BlockNumber>(notification: &FinalityNotification<N>) -> (r: Result<
    BlockRef,
    ProtocolError,
>)
    ensures
        match notified(*notification) {
            Some((number, hash)) => r matches Ok(block) && block.number as nat == number
                && block.hash@ == hash && block.chain_id.id@ == Seq::<char>::empty(),
            None => r matches Err(e) && e@ == ProtocolErrorView::Custom(
                ErrorKind::InvalidBlockHash.message(),
            ),
        },
{
    if notification.hash.len() != 32 {
        return Err(ProtocolError::from(ErrorKind::InvalidBlockHash));
    }
    let hash = hash_of(notification.hash.as_slice());
    Ok(BlockRef { chain_id: ChainId::default(), number: notification.number.to_u64(), hash })
}

fn hash_of(bytes: &[u8]) -> (r: BlockHash)
    requires
        bytes@.len() == 32,
    ensures
        r@ == bytes@,
{
    let mut hash: BlockHash = [0; 32];
    let mut i: usize = 0;
    while i < 32
        invariant
            i <= 32,
            bytes@.len() == 32,
            forall|j: int| 0 <= j < i ==> hash@[j] == bytes@[j],
        decreases 32 - i,
    {
        hash[i] = bytes[i];
        i += 1;
    }
    assert(hash@ =~= bytes@);
    hash
}

/// The state of a notification that is being handled.
pub struct Handling {
    block: BlockRef,
    targets: Vec<WatchTarget>,
    next: usize,
    routes: bool,
    stage: Stage,
}

/// The targets as they read.
pub open spec fn target_views(targets: Seq<WatchTarget>) -> Seq<TargetView> {
    targets.map_values(|target: WatchTarget| target@)
}

/// What is known of a notification that is being handled: its block, the targets to go through,
/// which one is next, whether there is a router, and what is waited for.
pub struct HandlingView {
    pub block: BlockRef,
    pub targets: Seq<TargetView>,
    pub next: nat,
    pub routes: bool,
    pub stage: Stage,
}

impl HandlingView {
    /// Whether a target is up: something is asked for it.
    pub open spec fn has_target(self) -> bool {
        self.stage == Stage::Events || self.stage == Stage::Proof || self.stage == Stage::Route
    }

    /// The state after it was decided, with the outcome.
    pub open spec fn ended(self, outcome: Result<(), ProtocolErrorView>) -> (HandlingView, Asked) {
        (HandlingView { stage: Stage::Done, ..self }, Asked::Done(outcome))
    }

    /// The state in which the target `next` is up: its events are asked for, unless all targets
    /// are done.
    pub open spec fn at(self, next: nat) -> (HandlingView, Asked) {
        if next < self.targets.len() {
            (HandlingView { next, stage: Stage::Events, ..self }, Asked::Events)
        } else {
            (HandlingView { next, stage: Stage::Done, ..self }, Asked::Done(Ok(())))
        }
    }

    /// What follows from the answer whether the block is final, with the targets that are
    /// registered by then.
    pub open spec fn after_finality(
        self,
        answer: Result<bool, FinalityErrorView>,
        targets: Seq<TargetView>,
    ) -> (HandlingView, Asked) {
        match answer {
            Err(e) => self.ended(Err(ProtocolErrorView::Finality(e))),
            Ok(false) => self.ended(Ok(())),
            Ok(true) => (HandlingView { targets, ..self }).at(0),
        }
    }

    /// What follows from the events of the block, which came at `now`.
    pub open spec fn after_events(
        self,
        answer: Result<Seq<Seq<u8>>, Seq<char>>,
        now: u64,
    ) -> (HandlingView, Asked) {
        match answer {
            Err(reason) => self.ended(
                Err(ProtocolErrorView::Custom("Failed to fetch events: "@ + reason)),
            ),
            Ok(events) => if event::any_matches(events, self.targets[self.next as int]) {
                (
                    HandlingView { stage: Stage::Proof, ..self },
                    Asked::Proof { target: self.targets[self.next as int], now },
                )
            } else {
                self.at(self.next + 1)
            },
        }
    }

    /// What follows from an encoded proof, or its absence.
    pub open spec fn after_proof(self, answer: Option<Seq<u8>>) -> (HandlingView, Asked) {
        match answer {
            None => self.ended(
                Err(ProtocolErrorView::Custom(ErrorKind::ProofGenerationFailed.message())),
            ),
            Some(payload) => if self.routes {
                (
                    HandlingView { stage: Stage::Route, ..self },
                    Asked::Route(
                        proof_message(
                            MessageType::StateTransition,
                            payload,
                            self.targets[self.next as int],
                        ),
                    ),
                )
            } else {
                self.at(self.next + 1)
            },
        }
    }

    /// What follows once the message was routed, or not.
    pub open spec fn after_routing(self, routed: bool) -> (HandlingView, Asked) {
        if routed {
            self.at(self.next + 1)
        } else {
            self.ended(Err(ProtocolErrorView::Custom(ErrorKind::MessageRoutingFailed.message())))
        }
    }
}

impl View for Handling {
    type V = HandlingView;

    closed spec fn view(&self) -> HandlingView {
        HandlingView {
            block: self.block,
            targets: target_views(self.targets@),
            next: self.next as nat,
            routes: self.routes,
            stage: self.stage,
        }
    }
}

/// The answer to a question for events, as far as it can be compared.
pub open spec fn events_answer(answer: Result<Vec<Vec<u8>>, String>) -> Result<
    Seq<Seq<u8>>,
    Seq<char>,
> {
    match answer {
        Ok(events) => Ok(event::encoded_events(events@)),
        Err(reason) => Err(reason@),
    }
}

/// The answer to a question for a proof, as far as it matters.
pub open spec fn proof_answer(answer: Result<Vec<u8>, StateError>) -> Option<Seq<u8>> {
    match answer {
        Ok(payload) => Some(payload@),
        Err(_) => None,
    }
}

/// Whether the events of the block can be held against the target that is up.
pub open spec fn answerable(state: HandlingView, answer: Result<Seq<Seq<u8>>, Seq<char>>) -> bool {
    answer matches Ok(events) ==> event::all_comparable(events, state.targets[state.next as int])
}

/// Copies watch targets.
pub fn copied_targets(targets: &Vec<WatchTarget>) -> (r: Vec<WatchTarget>)
    ensures
        target_views(r@) == target_views(targets@),
{
    let mut r: Vec<WatchTarget> = Vec::new();
    let mut i: usize = 0;
    while i < targets.len()
        invariant
            i <= targets@.len(),
            r@.len() == i,
            forall|j: int| 0 <= j < i ==> (#[trigger] r@[j])@ == targets@[j]@,
        decreases targets@.len() - i,
    {
        r.push(targets[i].clone());
        i += 1;
    }
    assert(target_views(r@) =~= target_views(targets@));
    r
}

/// The transition that is observed for a target at a block.
pub fn transition_for(block: &BlockRef, target: &WatchTarget, now: u64) -> (r: SSMPStateTransition)
    ensures
        is_transition_for(r.0, *block, target@, now),
{
    SSMPStateTransition::new(
        block.chain_id.clone(),
        block.number,
        StateRoot::default(),
        StateRoot::default(),
        copied(target.module()),
        copied(target.function()),
        copied(target.chain()),
        now,
    )
}

impl Handling {
    #[verifier::type_invariant]
    spec fn well_formed(self) -> bool {
        self@.has_target() ==> self.next < self.targets@.len()
    }

    /// Begins to handle a notification of the given block.
    pub fn new(block: BlockRef, routes: bool) -> (r: (Self, Action))
        ensures
            r.0@ == (HandlingView {
                block,
                targets: Seq::empty(),
                next: 0,
                routes,
                stage: Stage::Finality,
            }),
            r.1.asks(block, Asked::Finality),
    {
        let action = Action::CheckFinality(block.clone());
        let r = Handling { block, targets: Vec::new(), next: 0, routes, stage: Stage::Finality };
        assert(r@.targets =~= Seq::empty());
        (r, action)
    }

    /// The block that is handled.
    pub fn block(&self) -> (r: &BlockRef)
        ensures
            *r == self@.block,
    {
        &self.block
    }

    /// The target that is up, counted from zero.
    pub fn position(&self) -> (r: usize)
        ensures
            r as nat == self@.next,
    {
        self.next
    }

    /// The target that is up.
    pub fn target(&self) -> (r: &WatchTarget)
        requires
            self@.has_target(),
        ensures
            self@.next < self@.targets.len(),
            r@ == self@.targets[self@.next as int],
    {
        proof {
            use_type_invariant(self);
        }
        &self.targets[self.next]
    }

    /// What is waited for.
    pub fn stage(&self) -> (r: Stage)
        ensures
            r == self@.stage,
            self@.has_target() ==> self@.next < self@.targets.len(),
    {
        proof {
            use_type_invariant(self);
        }
        self.stage
    }

    fn end(&mut self, outcome: Result<(), ProtocolError>) -> (r: Action)
        ensures
            final(self)@ == old(self)@.ended(error::outcome_view(outcome)).0,
            r.asks(old(self)@.block, old(self)@.ended(error::outcome_view(outcome)).1),
    {
        self.stage = Stage::Done;
        Action::Done(outcome)
    }

    fn go_to(&mut self, next: usize) -> (r: Action)
        ensures
            final(self)@ == old(self)@.at(next as nat).0,
            r.asks(old(self)@.block, old(self)@.at(next as nat).1),
    {
        self.stage = Stage::Done;
        self.next = next;
        if next < self.targets.len() {
            self.stage = Stage::Events;
            Action::FetchEvents(self.block.hash)
        } else {
            Action::Done(Ok(()))
        }
    }

    fn advance(&mut self) -> (r: Action)
        requires
            old(self)@.has_target(),
        ensures
            final(self)@ == old(self)@.at(old(self)@.next + 1).0,
            r.asks(old(self)@.block, old(self)@.at(old(self)@.next + 1).1),
    {
        proof {
            use_type_invariant(&*self);
        }
        let count: usize = self.targets.len();
        assert(self.next < count);
        self.go_to(self.next + 1)
    }

    /// Takes the answer whether the block is final, and the targets that are registered by then.
    pub fn after_finality(
        &mut self,
        answer: Result<bool, FinalityError>,
        targets: &Vec<WatchTarget>,
    ) -> (r: Action)
        requires
            old(self)@.stage == Stage::Finality,
        ensures
            ({
                let next = old(self)@.after_finality(
                    predicate::check_outcome(answer),
                    target_views(targets@),
                );
                final(self)@ == next.0 && r.asks(old(self)@.block, next.1)
            }),
    {
        match answer {
            Err(e) => self.end(Err(ProtocolError::from(e))),
            Ok(false) => self.end(Ok(())),
            Ok(true) => {
                self.targets = copied_targets(targets);
                self.go_to(0)
            },
        }
    }

    /// Takes the encoded events of the block, which came at `now`, in seconds since the epoch, or
    /// why there are none.
    pub fn after_events(&mut self, answer: &Result<Vec<Vec<u8>>, String>, now: u64) -> (r: Action)
        requires
            old(self)@.stage == Stage::Events,
            answerable(old(self)@, events_answer(*answer)),
        ensures
            ({
                let next = old(self)@.after_events(events_answer(*answer), now);
                final(self)@ == next.0 && r.asks(old(self)@.block, next.1)
            }),
    {
        proof {
            use_type_invariant(&*self);
        }
        match answer {
            Err(reason) => self.end(
                Err(ProtocolError::Custom(joined("Failed to fetch events: ", reason.as_str()))),
            ),
            Ok(events) => {
                if any_event_matches(events, &self.targets[self.next]) {
                    let transition = transition_for(&self.block, &self.targets[self.next], now);
                    self.stage = Stage::Proof;
                    Action::GenerateProof(
                        ProofRequest {
                            transition: transition.0,
                            config: ProofGenerationConfig::default(),
                        },
                    )
                } else {
                    self.advance()
                }
            },
        }
    }

    /// Takes an encoded proof, or why there is none.
    pub fn after_proof(&mut self, answer: Result<Vec<u8>, StateError>) -> (r: Action)
        requires
            old(self)@.stage == Stage::Proof,
        ensures
            ({
                let next = old(self)@.after_proof(proof_answer(answer));
                final(self)@ == next.0 && r.asks(old(self)@.block, next.1)
            }),
    {
        proof {
            use_type_invariant(&*self);
        }
        match answer {
            Err(_) => self.end(Err(ProtocolError::from(ErrorKind::ProofGenerationFailed))),
            Ok(payload) => if self.routes {
                let message = message_for(
                    MessageType::StateTransition,
                    payload,
                    &self.targets[self.next],
                );
                self.stage = Stage::Route;
                Action::Route(message)
            } else {
                self.advance()
            },
        }
    }

    /// Takes note of whether the message was routed.
    pub fn after_routing(&mut self, routed: bool) -> (r: Action)
        requires
            old(self)@.stage == Stage::Route,
        ensures
            ({
                let next = old(self)@.after_routing(routed);
                final(self)@ == next.0 && r.asks(old(self)@.block, next.1)
            }),
    {
        if routed {
            self.advance()
        } else {
            self.end(Err(ProtocolError::from(ErrorKind::MessageRoutingFailed)))
        }
    }
}

/// A notification speaks of a block exactly where its hash has 32 bytes: of the block with that hash
/// and its number.
pub proof fn law_notifications_speak_of_whole_hashes<N: BlockNumber>(
    notification: FinalityNotification<N>,
)
    ensures
        notification.hash@.len() == 32 ==> notified(notification) == Some(
            (notification.number.as_nat(), notification.hash@),
        ),
        notification.hash@.len() != 32 ==> notified(notification) is None,
{
}

/// The message for a target carries the encoded proof from the chain "source" to the chain that the
/// target names.
pub proof fn law_messages_carry_the_proof_to_the_target(
    message_type: MessageType,
    payload: Seq<u8>,
    target: TargetView,
)
    ensures
        ({
            let m = proof_message(message_type, payload, target);
            &&& m.message_type == message_type
            &&& m.payload == payload
            &&& m.source_chain == "source"@
            &&& m.target_chain == Some(trusted::lossy_text(target.target_chain))
        }),
{
}

/// An action that asks for something about a block is about that block: its finality, its events, a
/// proof of the transition at its height for the target, as by default, the message to route, or the
/// outcome.
pub proof fn law_actions_are_about_their_block(
    action: Action,
    block: BlockRef,
    target: TargetView,
    now: u64,
    message: MessageView,
    outcome: Result<(), ProtocolErrorView>,
)
    ensures
        action.asks(block, Asked::Finality) ==> action == Action::CheckFinality(block),
        action.asks(block, Asked::Events) ==> action == Action::FetchEvents(block.hash),
        action.asks(block, Asked::Proof { target, now }) ==> (action matches Action::GenerateProof(
            request,
        ) && {
            let t = request.transition;
            &&& t.chain_id.id@ == block.chain_id.id@
            &&& t.block_height == block.number
            &&& t.pre_state.block_ref.number == 0 && t.post_state.block_ref.number == 0
            &&& t.pre_state.metadata is None && t.post_state.metadata is None
            &&& forall|i: int|
                0 <= i < 32 ==> #[trigger] t.pre_state.root_hash@[i] == 0
            &&& forall|i: int|
                0 <= i < 32 ==> #[trigger] t.post_state.root_hash@[i] == 0
            &&& forall|i: int|
                0 <= i < 32 ==> #[trigger] t.pre_state.block_ref.hash@[i] == 0
            &&& forall|i: int|
                0 <= i < 32 ==> #[trigger] t.post_state.block_ref.hash@[i] == 0
            &&& t.pre_state.block_ref.chain_id.id@.len() == 0
            &&& t.post_state.block_ref.chain_id.id@.len() == 0
            &&& t.transition_proof is None
            &&& t.metadata.timestamp == now
            &&& t.metadata.version == 0
            &&& t.metadata.proof_type is Basic
            &&& t.metadata.chain_specific matches Some(call) && {
                &&& call.module_name@ == trusted::lossy_text(target.module_name)
                &&& call.function_name@ == trusted::lossy_text(target.function_name)
                &&& call.target_chain@ == trusted::lossy_text(target.target_chain)
            }
            &&& request.config.proof_type@ == ProofTypeView::Custom("Merkle"@)
            &&& request.config.max_proof_size == 1_048_576
            &&& request.config.proof_ttl == 86_400
        }),
        action.asks(block, Asked::Route(message)) ==> (action matches Action::Route(m) && m@
            == message),
        action.asks(block, Asked::Done(outcome)) ==> (action matches Action::Done(o)
            && error::outcome_view(o) == outcome),
{
    if action.asks(block, Asked::Proof { target, now }) {
        if let Action::GenerateProof(request) = action {
            let t = request.transition;
            let zeros = Seq::new(32, |i: int| 0u8);
            assert(t.pre_state.root_hash@ == zeros && t.post_state.root_hash@ == zeros);
            assert(t.pre_state.block_ref.hash@ == zeros && t.post_state.block_ref.hash@ == zeros);
        }
    }
}

/// The transition that is observed for a target at a block is at the height of that block and names
/// the call of the target.
pub proof fn law_transitions_are_observed_at_their_block(
    transition: StateTransition,
    block: BlockRef,
    target: TargetView,
    now: u64,
)
    requires
        is_transition_for(transition, block, target, now),
    ensures
        transition.chain_id.id@ == block.chain_id.id@,
        transition.block_height == block.number,
        transition.metadata.timestamp == now,
        transition.transition_proof is None,
        transition.metadata.chain_specific matches Some(call) && {
            &&& call.module_name@ == trusted::lossy_text(target.module_name)
            &&& call.function_name@ == trusted::lossy_text(target.function_name)
            &&& call.target_chain@ == trusted::lossy_text(target.target_chain)
            &&& vstd::utf8::valid_utf8(target.module_name) ==> call.module_name@
                == vstd::utf8::decode_utf8(target.module_name)
        },
{
}

/// The answer about finality decides what is next: its error, an end without error, or the events for
/// the first target of those that are registered by then, if there is one.
pub proof fn law_finality_comes_first(
    state: HandlingView,
    answer: Result<bool, FinalityErrorView>,
    targets: Seq<TargetView>,
)
    ensures
        ({
            let (next, asked) = state.after_finality(answer, targets);
            &&& next.block == state.block && next.routes == state.routes
            &&& answer matches Err(e) ==> next.stage == Stage::Done && asked == Asked::Done(
                Err(ProtocolErrorView::Finality(e)),
            )
            &&& answer == Ok::<bool, FinalityErrorView>(false) ==> next.stage == Stage::Done
                && asked == Asked::Done(Ok(()))
            &&& answer == Ok::<bool, FinalityErrorView>(true) ==> {
                &&& next.targets == targets
                &&& next.next == 0
                &&& targets.len() > 0 ==> next.stage == Stage::Events && asked == Asked::Events
                &&& targets.len() == 0 ==> next.stage == Stage::Done && asked == Asked::Done(Ok(()))
            }
        }),
{
}

/// After the events of a target a proof is asked for exactly where one of them matches it; else the
/// next target is up, or all is done. Without events handling ends with the reason.
pub proof fn law_a_matching_event_asks_for_a_proof(
    state: HandlingView,
    answer: Result<Seq<Seq<u8>>, Seq<char>>,
    now: u64,
)
    ensures
        ({
            let (next, asked) = state.after_events(answer, now);
            let target = state.targets[state.next as int];
            &&& next.block == state.block && next.routes == state.routes && next.targets
                == state.targets
            &&& answer matches Err(reason) ==> next.stage == Stage::Done && asked == Asked::Done(
                Err(ProtocolErrorView::Custom("Failed to fetch events: "@ + reason)),
            )
            &&& answer matches Ok(events) ==> {
                let matched = exists|k: int|
                    0 <= k < events.len() && event::event_matches(#[trigger] events[k], target);
                &&& matched ==> {
                    &&& next.stage == Stage::Proof
                    &&& next.next == state.next
                    &&& asked == (Asked::Proof { target, now })
                }
                &&& !matched ==> {
                    &&& next.next == state.next + 1
                    &&& next.next < state.targets.len() ==> next.stage == Stage::Events && asked
                        == Asked::Events
                    &&& next.next >= state.targets.len() ==> next.stage == Stage::Done && asked
                        == Asked::Done(Ok(()))
                }
            }
        }),
{
}

/// After a proof its message is routed to the target exactly where there is a router; else the next
/// target is up, or all is done. Without a proof handling ends with that failure.
pub proof fn law_a_proof_is_routed_where_there_is_a_router(
    state: HandlingView,
    answer: Option<Seq<u8>>,
)
    ensures
        ({
            let (next, asked) = state.after_proof(answer);
            let target = state.targets[state.next as int];
            &&& next.block == state.block && next.routes == state.routes && next.targets
                == state.targets
            &&& answer is None ==> next.stage == Stage::Done && asked == Asked::Done(
                Err(ProtocolErrorView::Custom("Failed to generate proof"@)),
            )
            &&& answer matches Some(payload) ==> {
                &&& state.routes ==> {
                    &&& next.stage == Stage::Route
                    &&& next.next == state.next
                    &&& asked matches Asked::Route(m) && m.payload == payload && m.message_type
                        == MessageType::StateTransition && m.source_chain == "source"@
                        && m.target_chain == Some(trusted::lossy_text(target.target_chain))
                }
                &&& !state.routes ==> {
                    &&& next.next == state.next + 1
                    &&& next.next < state.targets.len() ==> next.stage == Stage::Events && asked
                        == Asked::Events
                    &&& next.next >= state.targets.len() ==> next.stage == Stage::Done && asked
                        == Asked::Done(Ok(()))
                }
            }
        }),
{
}

/// After its message was routed the next target is up, or all is done. A message that was not routed
/// ends handling with that failure.
pub proof fn law_routing_leads_to_the_next_target(state: HandlingView, routed: bool)
    ensures
        ({
            let (next, asked) = state.after_routing(routed);
            &&& next.block == state.block && next.routes == state.routes && next.targets
                == state.targets
            &&& !routed ==> next.stage == Stage::Done && asked == Asked::Done(
                Err(ProtocolErrorView::Custom("Failed to route message"@)),
            )
            &&& routed ==> {
                &&& next.next == state.next + 1
                &&& next.next < state.targets.len() ==> next.stage == Stage::Events && asked
                    == Asked::Events
                &&& next.next >= state.targets.len() ==> next.stage == Stage::Done && asked
                    == Asked::Done(Ok(()))
            }
        }),
{
}

/// Answers and targets are read as they are, in order.
pub proof fn law_answers_are_read_as_they_are(
    events: Vec<Vec<u8>>,
    reason: String,
    payload: Vec<u8>,
    e: StateError,
    targets: Seq<WatchTarget>,
    k: int,
)
    ensures
        events_answer(Err(reason)) == Err::<Seq<Seq<u8>>, _>(reason@),
        events_answer(Ok(events)) matches Ok(read) && read.len() == events@.len() && (0 <= k
            < events@.len() ==> read[k] == events@[k]@),
        proof_answer(Ok(payload)) == Some(payload@),
        proof_answer(Err(e)) is None,
        target_views(targets).len() == targets.len(),
        0 <= k < targets.len() ==> target_views(targets)[k] == targets[k]@,
{
}

/// Something is asked for a target from its events on until its message is routed, and neither before
/// finality is known nor after the end.
pub proof fn law_targets_are_up_between_finality_and_end(state: HandlingView)
    ensures
        state.stage == Stage::Events || state.stage == Stage::Proof || state.stage == Stage::Route
            ==> state.has_target(),
        state.has_target() ==> state.stage != Stage::Done && state.stage != Stage::Finality,
{
}

} // verus!
