//! State transitions, proofs and messages as the observer and the runtime hand them on.

use vstd::prelude::*;
use vstd::std_specs::convert::FromSpec;

use crate::message::FrostMessage;
use crate::state::{
    ChainId, ChainSpecific, ProofType, StateProof, StateRoot, StateTransition, TransitionMetadata,
};
use crate::trusted;
use crate::trusted::utf8_lossy;

verus! {

/// Whether `text` is what `bytes` spell: their UTF-8 text where they are valid UTF-8, and a text
/// with replacement characters elsewhere.
pub open spec fn spells(text: Seq<char>, bytes: Seq<u8>) -> bool {
    &&& text == trusted::lossy_text(bytes)
    &&& vstd::utf8::valid_utf8(bytes) ==> text == vstd::utf8::decode_utf8(bytes)
}

/// A state transition that was observed for a call of a runtime module.
#[derive(Debug)]
pub struct SSMPStateTransition(pub StateTransition);

impl SSMPStateTransition {
    /// The transition between the given states, observed at `timestamp`, in seconds since the
    /// epoch.
    pub fn new(
        chain_id: ChainId,
        block_height: u64,
        pre_state: StateRoot,
        post_state: StateRoot,
        module_name: Vec<u8>,
        function_name: Vec<u8>,
        target_chain: Vec<u8>,
        timestamp: u64,
    ) -> (r: Self)
        ensures
            r.0.chain_id == chain_id,
            r.0.block_height == block_height,
            r.0.pre_state == pre_state,
            r.0.post_state == post_state,
            r.0.transition_proof is None,
            r.0.metadata.timestamp == timestamp,
            r.0.metadata.version == 0,
            r.0.metadata.proof_type is Basic,
            r.0.metadata.chain_specific matches Some(c) && {
                &&& spells(c.module_name@, module_name@)
                &&& spells(c.function_name@, function_name@)
                &&& spells(c.target_chain@, target_chain@)
            },
    {
        let chain_specific = ChainSpecific {
            module_name: utf8_lossy(module_name.as_slice()),
            function_name: utf8_lossy(function_name.as_slice()),
            target_chain: utf8_lossy(target_chain.as_slice()),
        };
        Self::with_details(chain_id, block_height, pre_state, post_state, chain_specific, timestamp)
    }

    /// The transition between the given states, observed for the given call.
    pub fn with_details(
        chain_id: ChainId,
        block_height: u64,
        pre_state: StateRoot,
        post_state: StateRoot,
        chain_specific: ChainSpecific,
        timestamp: u64,
    ) -> (r: Self)
        ensures
            r.0 == (StateTransition {
                chain_id,
                block_height,
                pre_state,
                post_state,
                transition_proof: None,
                metadata: TransitionMetadata {
                    timestamp,
                    version: 0,
                    proof_type: ProofType::Basic,
                    chain_specific: Some(chain_specific),
                },
            }),
    {
        SSMPStateTransition(
            StateTransition {
                chain_id,
                block_height,
                pre_state,
                post_state,
                transition_proof: None,
                metadata: TransitionMetadata {
                    timestamp,
                    version: 0,
                    proof_type: ProofType::Basic,
                    chain_specific: Some(chain_specific),
                },
            },
        )
    }

    /// The transition itself.
    pub fn as_ref(&self) -> (r: &StateTransition)
        ensures
            *r == self.0,
    {
        &self.0
    }
}

impl Clone for SSMPStateTransition {
    fn clone(&self) -> (r: Self)
        ensures
            r.0@ == self.0@,
    {
        SSMPStateTransition(self.0.clone())
    }
}

impl From<SSMPStateTransition> for StateTransition {
    fn from(ssmp: SSMPStateTransition) -> (r: Self) {
        ssmp.0
    }
}

impl vstd::std_specs::convert::FromSpecImpl<SSMPStateTransition> for StateTransition {
    open spec fn obeys_from_spec() -> bool {
        true
    }

    open spec fn from_spec(ssmp: SSMPStateTransition) -> Self {
        ssmp.0
    }
}

/// A proof of a state transition.
#[derive(Debug)]
pub struct SubstrateStateProof(pub StateProof);

impl From<StateProof> for SubstrateStateProof {
    fn from(proof: StateProof) -> (r: Self) {
        SubstrateStateProof(proof)
    }
}

impl vstd::std_specs::convert::FromSpecImpl<StateProof> for SubstrateStateProof {
    open spec fn obeys_from_spec() -> bool {
        true
    }

    open spec fn from_spec(proof: StateProof) -> Self {
        SubstrateStateProof(proof)
    }
}

impl Clone for SubstrateStateProof {
    fn clone(&self) -> (r: Self)
        ensures
            r.0@ == self.0@,
    {
        SubstrateStateProof(self.0.clone())
    }
}

impl SubstrateStateProof {
    /// The proof itself.
    pub fn as_ref(&self) -> (r: &StateProof)
        ensures
            *r == self.0,
    {
        &self.0
    }
}

/// A message between chains.
#[derive(Debug)]
pub struct SubstrateFrostMessage(pub FrostMessage);

impl From<FrostMessage> for SubstrateFrostMessage {
    fn from(message: FrostMessage) -> (r: Self) {
        SubstrateFrostMessage(message)
    }
}

impl vstd::std_specs::convert::FromSpecImpl<FrostMessage> for SubstrateFrostMessage {
    open spec fn obeys_from_spec() -> bool {
        true
    }

    open spec fn from_spec(message: FrostMessage) -> Self {
        SubstrateFrostMessage(message)
    }
}

impl Clone for SubstrateFrostMessage {
    fn clone(&self) -> (r: Self)
        ensures
            r.0@ == self.0@,
    {
        SubstrateFrostMessage(self.0.clone())
    }
}

impl SubstrateFrostMessage {
    /// The message itself.
    pub fn as_ref(&self) -> (r: &FrostMessage)
        ensures
            *r == self.0,
    {
        &self.0
    }
}

/// What bytes spell is fixed: their UTF-8 text where they are valid, and one text elsewhere.
pub proof fn law_bytes_spell_one_text(a: Seq<char>, b: Seq<char>, bytes: Seq<u8>)
    requires
        spells(a, bytes),
    ensures
        vstd::utf8::valid_utf8(bytes) ==> a == vstd::utf8::decode_utf8(bytes),
        spells(b, bytes) ==> a == b,
        a == trusted::lossy_text(bytes),
{
}

/// A wrapper holds what it was made from, and gives back what it holds.
pub proof fn law_wrappers_keep_what_they_hold(
    observed: SSMPStateTransition,
    state_proof: StateProof,
    message: FrostMessage,
)
    ensures
        <StateTransition as FromSpec<SSMPStateTransition>>::obeys_from_spec(),
        StateTransition::from_spec(observed) == observed.0,
        <SubstrateStateProof as FromSpec<StateProof>>::obeys_from_spec(),
        SubstrateStateProof::from_spec(state_proof).0 == state_proof,
        <SubstrateFrostMessage as FromSpec<FrostMessage>>::obeys_from_spec(),
        SubstrateFrostMessage::from_spec(message).0 == message,
{
}

} // verus!
