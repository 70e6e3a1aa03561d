//! The record of transitions, proofs and messages.

use std::marker::PhantomData;

use vstd::prelude::*;

use crate::finality::error::FinalityError;
use crate::grandpa::BlockHash;
use crate::message::{FrostMessage, MessageView};
use crate::pallet::config::{Config, FrostHash};
use crate::pallet::origin::{ensure_signed, DispatchError, Origin};
use crate::state::{
    BlockRef, ProofDataView, ProofType, ProofTypeView, StateError, StateProof, StateTransition,
    TransitionView,
};
use crate::store::HashStore;

verus! {

/// How proofs are generated.
#[derive(Debug)]
pub struct ProofGenerationConfig {
    pub proof_type: ProofType,
    /// Maximum proof size in bytes.
    pub max_size: u32,
    /// Time for the generation of a proof, in seconds.
    pub timeout: u32,
}

impl Default for ProofGenerationConfig {
    fn default() -> (r: Self)
        ensures
            r.proof_type is Merkle,
            r.max_size == 1024 * 1024,
            r.timeout == 30,
    {
        ProofGenerationConfig { proof_type: ProofType::Merkle, max_size: 1024 * 1024, timeout: 30 }
    }
}

impl Clone for ProofGenerationConfig {
    fn clone(&self) -> (r: Self)
        ensures
            r == *self,
    {
        ProofGenerationConfig {
            proof_type: self.proof_type.clone(),
            max_size: self.max_size,
            timeout: self.timeout,
        }
    }
}

/// A message with the proof of what it says.
#[derive(Debug)]
pub struct ProvenMessage {
    pub message: FrostMessage,
    pub proof: StateProof,
}

/// What a proof says.
pub type ProofView = (TransitionView, ProofDataView);

impl View for ProvenMessage {
    type V = (MessageView, ProofView);

    open spec fn view(&self) -> (MessageView, ProofView) {
        (self.message@, self.proof@)
    }
}

/// What the record tells about what it did.
#[derive(Debug)]
pub enum Event {
    /// New state transition recorded.
    TransitionRecorded(BlockHash),
    /// New proof generated.
    ProofGenerated(BlockHash, ProofType),
    /// Message verified.
    MessageVerified(BlockHash),
    /// State finalized.
    StateFinalized(BlockRef),
}

/// What an event says.
pub enum EventView {
    TransitionRecorded(Seq<u8>),
    ProofGenerated(Seq<u8>, ProofTypeView),
    MessageVerified(Seq<u8>),
    StateFinalized(BlockRef),
}

impl View for Event {
    type V = EventView;

    open spec fn view(&self) -> EventView {
        match self {
            Event::TransitionRecorded(hash) => EventView::TransitionRecorded(hash@),
            Event::ProofGenerated(hash, kind) => EventView::ProofGenerated(hash@, kind@),
            Event::MessageVerified(hash) => EventView::MessageVerified(hash@),
            Event::StateFinalized(block) => EventView::StateFinalized(*block),
        }
    }
}

/// Why the record refused a call.
#[derive(Clone, Copy, Debug, PartialEq, Eq, Structural)]
pub enum Error {
    /// Invalid state transition.
    InvalidTransition,
    /// Invalid proof.
    InvalidProof,
    /// Invalid message.
    InvalidMessage,
    /// Block not finalized.
    BlockNotFinalized,
    /// Proof too large.
    ProofTooLarge,
    /// Unsupported proof type.
    UnsupportedProofType,
    /// Finality verification failed.
    FinalityVerificationFailed,
}

/// Which generator makes and verifies proofs of a kind.
#[derive(Clone, Copy, Debug, PartialEq, Eq, Structural)]
pub enum GeneratorKind {
    Merkle,
    Signature,
}

/// The generator for a kind of proof, if there is one.
pub open spec fn generator_kind(proof_type: ProofTypeView) -> Option<GeneratorKind> {
    match proof_type {
        ProofTypeView::Merkle => Some(GeneratorKind::Merkle),
        ProofTypeView::Signature => Some(GeneratorKind::Signature),
        _ => None,
    }
}

/// The generator for a kind of proof, if there is one.
pub fn generator_for(proof_type: &ProofType) -> (r: Option<GeneratorKind>)
    ensures
        r == generator_kind(proof_type@),
{
    match proof_type {
        ProofType::Merkle => Some(GeneratorKind::Merkle),
        ProofType::Signature => Some(GeneratorKind::Signature),
        _ => None,
    }
}

/// The contents of the record.
#[verifier::ext_equal]
pub struct RecordView {
    pub transitions: Map<Seq<u8>, TransitionView>,
    pub proofs: Map<Seq<u8>, ProofView>,
    pub messages: Map<Seq<u8>, (MessageView, ProofView)>,
    pub latest_block: Option<BlockRef>,
    pub proof_config: ProofGenerationConfig,
    pub max_proof_size: u32,
    pub events: Seq<EventView>,
}

/// Why finality is not asked for a transition, if it is not.
pub open spec fn finality_refusal(origin: Origin, valid: bool) -> Option<DispatchError<Error>> {
    if !(origin is Signed) {
        Some(DispatchError::BadOrigin)
    } else if !valid {
        Some(DispatchError::Module(Error::InvalidTransition))
    } else {
        None
    }
}

/// Why a transition is not recorded, if it is not.
pub open spec fn transition_refusal(
    origin: Origin,
    valid: bool,
    finality: Result<bool, FinalityError>,
) -> Option<DispatchError<Error>> {
    match finality_refusal(origin, valid) {
        Some(e) => Some(e),
        None => match finality {
            Err(_) => Some(DispatchError::Module(Error::FinalityVerificationFailed)),
            Ok(false) => Some(DispatchError::Module(Error::BlockNotFinalized)),
            Ok(true) => None,
        },
    }
}

/// The block that a transition starts from, which has to be final.
pub open spec fn source_block(transition: StateTransition) -> BlockRef {
    transition.pre_state.block_ref
}

/// Why the proof of a message is not verified, if it is not.
pub open spec fn verification_refusal(
    origin: Origin,
    valid: bool,
    proof_type: ProofTypeView,
) -> Option<DispatchError<Error>> {
    if !(origin is Signed) {
        Some(DispatchError::BadOrigin)
    } else if !valid {
        Some(DispatchError::Module(Error::InvalidMessage))
    } else if generator_kind(proof_type) is None {
        Some(DispatchError::Module(Error::UnsupportedProofType))
    } else {
        None
    }
}

/// Why a message is not recorded, if it is not.
pub open spec fn message_refusal(
    origin: Origin,
    valid: bool,
    proof_type: ProofTypeView,
    verified: Result<bool, StateError>,
) -> Option<DispatchError<Error>> {
    match verification_refusal(origin, valid, proof_type) {
        Some(e) => Some(e),
        None => if verified != Ok::<bool, StateError>(true) {
            Some(DispatchError::Module(Error::InvalidProof))
        } else {
            None
        },
    }
}

impl RecordView {
    /// Why no proof is asked for, if it is not.
    pub open spec fn request_refusal(
        self,
        origin: Origin,
        transition_hash: Seq<u8>,
        proof_type: ProofTypeView,
    ) -> Option<DispatchError<Error>> {
        if !(origin is Signed) {
            Some(DispatchError::BadOrigin)
        } else if !self.transitions.contains_key(transition_hash) {
            Some(DispatchError::Module(Error::InvalidTransition))
        } else if generator_kind(proof_type) is None {
            Some(DispatchError::Module(Error::UnsupportedProofType))
        } else {
            None
        }
    }

    /// Why no proof is recorded, if it is not.
    pub open spec fn proof_refusal(
        self,
        origin: Origin,
        transition_hash: Seq<u8>,
        proof_type: ProofTypeView,
        generated: Result<StateProof, StateError>,
        encoded_size: usize,
    ) -> Option<DispatchError<Error>> {
        match self.request_refusal(origin, transition_hash, proof_type) {
            Some(e) => Some(e),
            None => if generated is Err {
                Some(DispatchError::Module(Error::InvalidProof))
            } else if encoded_size > self.max_proof_size {
                Some(DispatchError::Module(Error::ProofTooLarge))
            } else {
                None
            },
        }
    }

    /// The record with one more event.
    pub open spec fn told(self, event: EventView) -> RecordView {
        RecordView { events: self.events.push(event), ..self }
    }

    /// The record after a transition was recorded.
    pub open spec fn with_transition(self, hash: Seq<u8>, transition: TransitionView) -> RecordView {
        (RecordView { transitions: self.transitions.insert(hash, transition), ..self }).told(
            EventView::TransitionRecorded(hash),
        )
    }

    /// The record after a proof was recorded.
    pub open spec fn with_proof(
        self,
        hash: Seq<u8>,
        proof_type: ProofTypeView,
        proof_view: ProofView,
    ) -> RecordView {
        (RecordView { proofs: self.proofs.insert(hash, proof_view), ..self }).told(
            EventView::ProofGenerated(hash, proof_type),
        )
    }

    /// The record after a message was recorded.
    pub open spec fn with_message(
        self,
        hash: Seq<u8>,
        message: (MessageView, ProofView),
    ) -> RecordView {
        (RecordView { messages: self.messages.insert(hash, message), ..self }).told(
            EventView::MessageVerified(hash),
        )
    }

    /// The record after a block became the latest one.
    pub open spec fn with_latest(self, block: BlockRef) -> RecordView {
        (RecordView { latest_block: Some(block), ..self }).told(EventView::StateFinalized(block))
    }

    /// Whether every proof is one for a recorded transition.
    pub open spec fn proofs_have_transitions(self) -> bool {
        forall|hash: Seq<u8>| #[trigger]
            self.proofs.contains_key(hash) ==> self.transitions.contains_key(hash)
    }
}

/// The record of transitions, proofs and messages.
pub struct Module<T: Config> {
    transitions: HashStore<StateTransition>,
    proofs: HashStore<StateProof>,
    messages: HashStore<ProvenMessage>,
    latest_block: Option<BlockRef>,
    proof_config: ProofGenerationConfig,
    max_proof_size: u32,
    events: Vec<Event>,
    _phantom: PhantomData<T>,
}

impl<T: Config> View for Module<T> {
    type V = RecordView;

    closed spec fn view(&self) -> RecordView {
        RecordView {
            transitions: self.transitions@.map_values(|t: StateTransition| t@),
            proofs: self.proofs@.map_values(|p: StateProof| p@),
            messages: self.messages@.map_values(|m: ProvenMessage| m@),
            latest_block: self.latest_block,
            proof_config: self.proof_config,
            max_proof_size: self.max_proof_size,
            events: self.events@.map_values(|e: Event| e@),
        }
    }
}

impl<T: Config> Module<T> {
    /// An empty record.
    pub fn new(proof_config: ProofGenerationConfig, max_proof_size: u32) -> (r: Self)
        ensures
            r@ == (RecordView {
                transitions: Map::empty(),
                proofs: Map::empty(),
                messages: Map::empty(),
                latest_block: None,
                proof_config,
                max_proof_size,
                events: Seq::empty(),
            }),
    {
        let r = Module {
            transitions: HashStore::new(),
            proofs: HashStore::new(),
            messages: HashStore::new(),
            latest_block: None,
            proof_config,
            max_proof_size,
            events: Vec::new(),
            _phantom: PhantomData,
        };
        assert(r@.transitions =~= Map::empty());
        assert(r@.proofs =~= Map::empty());
        assert(r@.messages =~= Map::empty());
        assert(r@.events =~= Seq::empty());
        r
    }

    fn deposit_event(&mut self, event: Event)
        ensures
            final(self)@ == old(self)@.told(event@),
    {
        let ghost before = self@.events;
        let ghost view = event@;
        self.events.push(event);
        assert(self@.events =~= before.push(view));
    }

    /// The recorded transition under a hash, if there is one.
    pub fn transitions(&self, hash: &BlockHash) -> (r: Option<&StateTransition>)
        ensures
            match r {
                Some(t) => self@.transitions.contains_key(hash@) && self@.transitions[hash@] == t@,
                None => !self@.transitions.contains_key(hash@),
            },
    {
        self.transitions.get(hash)
    }

    /// The recorded proof under a hash, if there is one.
    pub fn proofs(&self, hash: &BlockHash) -> (r: Option<&StateProof>)
        ensures
            match r {
                Some(p) => self@.proofs.contains_key(hash@) && self@.proofs[hash@] == p@,
                None => !self@.proofs.contains_key(hash@),
            },
    {
        self.proofs.get(hash)
    }

    /// The recorded message under a hash, if there is one.
    pub fn messages(&self, hash: &BlockHash) -> (r: Option<&ProvenMessage>)
        ensures
            match r {
                Some(m) => self@.messages.contains_key(hash@) && self@.messages[hash@] == m@,
                None => !self@.messages.contains_key(hash@),
            },
    {
        self.messages.get(hash)
    }

    /// The latest block, once there is one.
    pub fn latest_block(&self) -> (r: Option<&BlockRef>)
        ensures
            match r {
                Some(block) => self@.latest_block == Some(*block),
                None => self@.latest_block is None,
            },
    {
        self.latest_block.as_ref()
    }

    /// How proofs are generated.
    pub fn proof_config(&self) -> (r: &ProofGenerationConfig)
        ensures
            *r == self@.proof_config,
    {
        &self.proof_config
    }

    /// What was told so far.
    pub fn events(&self) -> (r: &Vec<Event>)
        ensures
            r@.map_values(|e: Event| e@) == self@.events,
    {
        &self.events
    }

    /// The block whose finality a transition rests on, or why the transition is refused before
    /// that is asked. `valid` says whether the transition is sound in itself.
    pub fn finality_request(&self, origin: Origin, transition: &StateTransition, valid: bool) -> (r:
        Result<BlockRef, DispatchError<Error>>)
        ensures
            match finality_refusal(origin, valid) {
                Some(e) => r == Err::<BlockRef, _>(e),
                None => r == Ok::<_, DispatchError<Error>>(source_block(*transition)),
            },
    {
        match ensure_signed::<Error>(origin) {
            Err(e) => Err(e),
            Ok(_) => if !valid {
                Err(DispatchError::Module(Error::InvalidTransition))
            } else {
                Ok(transition.pre_state.block_ref.clone())
            },
        }
    }

    /// Records a transition on behalf of whoever signed the call, under the hash of its encoding.
    /// `valid` says whether the transition is sound in itself, and `finality` whether the block
    /// that `finality_request` gives is final.
    pub fn record_transition(
        &mut self,
        origin: Origin,
        transition: StateTransition,
        encoded: &[u8],
        valid: bool,
        finality: Result<bool, FinalityError>,
    ) -> (r: Result<(), DispatchError<Error>>)
        ensures
            match transition_refusal(origin, valid, finality) {
                Some(e) => r == Err::<(), _>(e) && *final(self) == *old(self),
                None => r is Ok && final(self)@ == old(self)@.with_transition(
                    T::FrostHash::digest(encoded@),
                    transition@,
                ),
            },
    {
        if let Err(e) = self.finality_request(origin, &transition, valid) {
            return Err(e);
        }
        match finality {
            Err(_) => {
                return Err(DispatchError::Module(Error::FinalityVerificationFailed));
            },
            Ok(false) => {
                return Err(DispatchError::Module(Error::BlockNotFinalized));
            },
            Ok(true) => {},
        }
        let hash = T::FrostHash::hash(encoded);
        let ghost before = self@;
        let ghost view = transition@;
        self.transitions.insert(hash, transition);
        assert(self@.transitions =~= before.transitions.insert(hash@, view));
        self.deposit_event(Event::TransitionRecorded(hash));
        Ok(())
    }

    /// The transition to prove, the generator that proves it, and how: what a proof of the given
    /// kind takes, or why it is refused.
    pub fn proof_request(
        &self,
        origin: Origin,
        transition_hash: &BlockHash,
        proof_type: &ProofType,
    ) -> (r: Result<
        (StateTransition, GeneratorKind, ProofGenerationConfig),
        DispatchError<Error>,
    >)
        ensures
            match self@.request_refusal(origin, transition_hash@, proof_type@) {
                Some(e) => r matches Err(err) && err == e,
                None => r matches Ok((transition, kind, config)) && {
                    &&& transition@ == self@.transitions[transition_hash@]
                    &&& Some(kind) == generator_kind(proof_type@)
                    &&& config == (ProofGenerationConfig {
                        proof_type: *proof_type,
                        ..self@.proof_config
                    })
                },
            },
    {
        if let Err(e) = ensure_signed::<Error>(origin) {
            return Err(e);
        }
        let transition = match self.transitions.get(transition_hash) {
            Some(t) => t.clone(),
            None => {
                return Err(DispatchError::Module(Error::InvalidTransition));
            },
        };
        match generator_for(proof_type) {
            None => Err(DispatchError::Module(Error::UnsupportedProofType)),
            Some(kind) => {
                let mut config = self.proof_config.clone();
                config.proof_type = proof_type.clone();
                Ok((transition, kind, config))
            },
        }
    }

    /// Records a proof of a recorded transition on behalf of whoever signed the call. `generated`
    /// is what the generator gave, and `encoded_size` the size of the proof in bytes.
    pub fn generate_proof(
        &mut self,
        origin: Origin,
        transition_hash: BlockHash,
        proof_type: ProofType,
        generated: Result<StateProof, StateError>,
        encoded_size: usize,
    ) -> (r: Result<(), DispatchError<Error>>)
        ensures
            match old(self)@.proof_refusal(
                origin,
                transition_hash@,
                proof_type@,
                generated,
                encoded_size,
            ) {
                Some(e) => r == Err::<(), _>(e) && *final(self) == *old(self),
                None => r is Ok && final(self)@ == old(self)@.with_proof(
                    transition_hash@,
                    proof_type@,
                    generated->Ok_0@,
                ),
            },
    {
        match self.proof_request(origin, &transition_hash, &proof_type) {
            Ok(_) => {},
            Err(e) => {
                return Err(e);
            },
        }
        let state_proof = match generated {
            Ok(p) => p,
            Err(_) => {
                return Err(DispatchError::Module(Error::InvalidProof));
            },
        };
        if encoded_size as u64 > self.max_proof_size as u64 {
            return Err(DispatchError::Module(Error::ProofTooLarge));
        }
        let ghost before = self@;
        let ghost view = state_proof@;
        self.proofs.insert(transition_hash, state_proof);
        assert(self@.proofs =~= before.proofs.insert(transition_hash@, view));
        self.deposit_event(Event::ProofGenerated(transition_hash, proof_type));
        Ok(())
    }

    /// The generator that verifies the proof of a message, and how: what the verification takes, or
    /// why it is refused. `valid` says whether the message is sound in itself.
    pub fn verification_request(&self, origin: Origin, message: &ProvenMessage, valid: bool) -> (r:
        Result<(GeneratorKind, ProofGenerationConfig), DispatchError<Error>>)
        ensures
            match verification_refusal(origin, valid, message.proof.proof.proof_type@) {
                Some(e) => r == Err::<(GeneratorKind, ProofGenerationConfig), _>(e),
                None => r matches Ok((kind, config)) && {
                    &&& Some(kind) == generator_kind(message.proof.proof.proof_type@)
                    &&& config == self@.proof_config
                },
            },
    {
        if let Err(e) = ensure_signed::<Error>(origin) {
            return Err(e);
        }
        if !valid {
            return Err(DispatchError::Module(Error::InvalidMessage));
        }
        match generator_for(message.proof.proof_type()) {
            None => Err(DispatchError::Module(Error::UnsupportedProofType)),
            Some(kind) => Ok((kind, self.proof_config.clone())),
        }
    }

    /// Records a verified message on behalf of whoever signed the call, under the hash of its
    /// encoding. `valid` says whether the message is sound in itself, and `verified` whether its
    /// proof holds, by the generator that `verification_request` gives.
    pub fn verify_message(
        &mut self,
        origin: Origin,
        message: ProvenMessage,
        encoded: &[u8],
        valid: bool,
        verified: Result<bool, StateError>,
    ) -> (r: Result<(), DispatchError<Error>>)
        ensures
            match message_refusal(origin, valid, message.proof.proof.proof_type@, verified) {
                Some(e) => r == Err::<(), _>(e) && *final(self) == *old(self),
                None => r is Ok && final(self)@ == old(self)@.with_message(
                    T::FrostHash::digest(encoded@),
                    message@,
                ),
            },
    {
        if let Err(e) = self.verification_request(origin, &message, valid) {
            return Err(e);
        }
        match verified {
            Ok(true) => {},
            _ => {
                return Err(DispatchError::Module(Error::InvalidProof));
            },
        }
        let hash = T::FrostHash::hash(encoded);
        let ghost before = self@;
        let ghost view = message@;
        self.messages.insert(hash, message);
        assert(self@.messages =~= before.messages.insert(hash@, view));
        self.deposit_event(Event::MessageVerified(hash));
        Ok(())
    }

    /// Makes a block the latest one.
    pub fn update_latest_block(&mut self, block_ref: BlockRef)
        ensures
            final(self)@ == old(self)@.with_latest(block_ref),
    {
        self.latest_block = Some(block_ref.clone());
        self.deposit_event(Event::StateFinalized(block_ref));
    }
}

/// A transition is recorded exactly where an account signed for it, it is valid, and it starts from
/// a final block.
pub proof fn law_only_final_transitions_are_recorded(
    origin: Origin,
    valid: bool,
    finality: Result<bool, FinalityError>,
)
    ensures
        transition_refusal(origin, valid, finality) is None <==> (origin is Signed && valid
            && finality == Ok::<bool, FinalityError>(true)),
{
}

/// Only proofs of recorded transitions are recorded, whatever is recorded after them.
pub proof fn law_proofs_have_transitions(
    record: RecordView,
    origin: Origin,
    transition_hash: Seq<u8>,
    proof_type: ProofTypeView,
    generated: Result<StateProof, StateError>,
    encoded_size: usize,
    other_hash: Seq<u8>,
    transition: TransitionView,
    message: (MessageView, ProofView),
    block: BlockRef,
)
    requires
        record.proofs_have_transitions(),
    ensures
        record.proof_refusal(origin, transition_hash, proof_type, generated, encoded_size) is None
            ==> record.with_proof(
            transition_hash,
            proof_type,
            generated->Ok_0@,
        ).proofs_have_transitions(),
        record.with_transition(other_hash, transition).proofs_have_transitions(),
        record.with_message(other_hash, message).proofs_have_transitions(),
        record.with_latest(block).proofs_have_transitions(),
{
}

/// What is recorded is found again, and what was recorded under other hashes stays.
pub proof fn law_record_keeps_transitions(
    record: RecordView,
    hash: Seq<u8>,
    transition: TransitionView,
    other: Seq<u8>,
)
    ensures
        record.with_transition(hash, transition).transitions[hash] == transition,
        other != hash ==> {
            let after = record.with_transition(hash, transition).transitions;
            &&& after.contains_key(other) == record.transitions.contains_key(other)
            &&& record.transitions.contains_key(other) ==> after[other]
                == record.transitions[other]
        },
{
}

/// Exactly Merkle and signature proofs have a generator, each its own.
pub proof fn law_two_kinds_have_a_generator(kind: ProofTypeView)
    ensures
        kind is Merkle ==> generator_kind(kind) == Some(GeneratorKind::Merkle),
        kind is Signature ==> generator_kind(kind) == Some(GeneratorKind::Signature),
        kind is Basic || kind is Custom ==> generator_kind(kind) is None,
{
}

/// A transition is refused for its origin first, then as not valid, then for what was found about the
/// finality of the block that it starts from.
pub proof fn law_transitions_are_refused_in_turn(
    origin: Origin,
    valid: bool,
    finality: Result<bool, FinalityError>,
    transition: StateTransition,
)
    ensures
        ({
            let refusal = transition_refusal(origin, valid, finality);
            &&& !(origin is Signed) ==> refusal == Some(DispatchError::<Error>::BadOrigin)
            &&& origin is Signed && !valid ==> refusal == Some(
                DispatchError::Module(Error::InvalidTransition),
            )
            &&& origin is Signed && valid ==> {
                &&& finality is Err ==> refusal == Some(
                    DispatchError::Module(Error::FinalityVerificationFailed),
                )
                &&& finality == Ok::<bool, FinalityError>(false) ==> refusal == Some(
                    DispatchError::Module(Error::BlockNotFinalized),
                )
                &&& finality == Ok::<bool, FinalityError>(true) ==> refusal is None
            }
        }),
        finality_refusal(origin, valid) is None <==> origin is Signed && valid,
        finality_refusal(origin, valid) is Some ==> finality_refusal(origin, valid)
            == transition_refusal(origin, valid, finality),
        source_block(transition) == transition.pre_state.block_ref,
{
}

/// A message is refused for its origin first, then as not valid, then for a kind of proof without
/// generator, then for a proof that does not hold.
pub proof fn law_messages_are_refused_in_turn(
    origin: Origin,
    valid: bool,
    kind: ProofTypeView,
    verified: Result<bool, StateError>,
)
    ensures
        ({
            let refusal = message_refusal(origin, valid, kind, verified);
            &&& !(origin is Signed) ==> refusal == Some(DispatchError::<Error>::BadOrigin)
            &&& origin is Signed && !valid ==> refusal == Some(
                DispatchError::Module(Error::InvalidMessage),
            )
            &&& origin is Signed && valid && (kind is Basic || kind is Custom) ==> refusal == Some(
                DispatchError::Module(Error::UnsupportedProofType),
            )
            &&& origin is Signed && valid && (kind is Merkle || kind is Signature) ==> {
                &&& verified == Ok::<bool, StateError>(true) ==> refusal is None
                &&& verified != Ok::<bool, StateError>(true) ==> refusal == Some(
                    DispatchError::Module(Error::InvalidProof),
                )
            }
        }),
        verification_refusal(origin, valid, kind) is None <==> origin is Signed && valid && (
        kind is Merkle || kind is Signature),
        verification_refusal(origin, valid, kind) is Some ==> verification_refusal(
            origin,
            valid,
            kind,
        ) == message_refusal(origin, valid, kind, verified),
{
}

/// A proof is refused for its origin first, then for a transition that is not recorded, then for a
/// kind without generator, then as not generated, then as larger than allowed.
pub proof fn law_proofs_are_refused_in_turn(
    record: RecordView,
    origin: Origin,
    hash: Seq<u8>,
    kind: ProofTypeView,
    generated: Result<StateProof, StateError>,
    size: usize,
)
    ensures
        ({
            let refusal = record.proof_refusal(origin, hash, kind, generated, size);
            let known = record.transitions.contains_key(hash);
            let generable = kind is Merkle || kind is Signature;
            &&& !(origin is Signed) ==> refusal == Some(DispatchError::<Error>::BadOrigin)
            &&& origin is Signed && !known ==> refusal == Some(
                DispatchError::Module(Error::InvalidTransition),
            )
            &&& origin is Signed && known && !generable ==> refusal == Some(
                DispatchError::Module(Error::UnsupportedProofType),
            )
            &&& origin is Signed && known && generable ==> {
                &&& generated is Err ==> refusal == Some(DispatchError::Module(Error::InvalidProof))
                &&& generated is Ok && size > record.max_proof_size ==> refusal == Some(
                    DispatchError::Module(Error::ProofTooLarge),
                )
                &&& generated is Ok && size <= record.max_proof_size ==> refusal is None
            }
            &&& record.request_refusal(origin, hash, kind) is None <==> origin is Signed && known
                && generable
            &&& record.request_refusal(origin, hash, kind) is Some ==> record.request_refusal(
                origin,
                hash,
                kind,
            ) == refusal
        }),
{
}

/// Recording something puts it under its hash, tells of it with that hash, and changes nothing else.
pub proof fn law_recording_changes_one_entry(
    record: RecordView,
    hash: Seq<u8>,
    transition: TransitionView,
    kind: ProofTypeView,
    proof_view: ProofView,
    message: (MessageView, ProofView),
    block: BlockRef,
)
    ensures
        ({
            let t = record.with_transition(hash, transition);
            &&& t.transitions == record.transitions.insert(hash, transition)
            &&& t.events == record.events.push(EventView::TransitionRecorded(hash))
            &&& t.proofs == record.proofs && t.messages == record.messages
            &&& t.latest_block == record.latest_block && t.proof_config == record.proof_config
            &&& t.max_proof_size == record.max_proof_size
        }),
        ({
            let p = record.with_proof(hash, kind, proof_view);
            &&& p.proofs == record.proofs.insert(hash, proof_view)
            &&& p.events == record.events.push(EventView::ProofGenerated(hash, kind))
            &&& p.transitions == record.transitions && p.messages == record.messages
            &&& p.latest_block == record.latest_block && p.proof_config == record.proof_config
            &&& p.max_proof_size == record.max_proof_size
        }),
        ({
            let m = record.with_message(hash, message);
            &&& m.messages == record.messages.insert(hash, message)
            &&& m.events == record.events.push(EventView::MessageVerified(hash))
            &&& m.transitions == record.transitions && m.proofs == record.proofs
            &&& m.latest_block == record.latest_block && m.proof_config == record.proof_config
            &&& m.max_proof_size == record.max_proof_size
        }),
        ({
            let b = record.with_latest(block);
            &&& b.latest_block == Some(block)
            &&& b.events == record.events.push(EventView::StateFinalized(block))
            &&& b.transitions == record.transitions && b.proofs == record.proofs
            &&& b.messages == record.messages && b.proof_config == record.proof_config
            &&& b.max_proof_size == record.max_proof_size
        }),
{
}

/// What messages and events say is what they hold.
pub proof fn law_recorded_things_say_what_they_hold(
    m: ProvenMessage,
    hash: BlockHash,
    kind: ProofType,
    block: BlockRef,
)
    ensures
        m@.0 == m.message@,
        m@.1 == m.proof@,
        Event::TransitionRecorded(hash)@ == EventView::TransitionRecorded(hash@),
        Event::ProofGenerated(hash, kind)@ == EventView::ProofGenerated(hash@, kind@),
        Event::MessageVerified(hash)@ == EventView::MessageVerified(hash@),
        Event::StateFinalized(block)@ == EventView::StateFinalized(block),
{
}

} // verus!
