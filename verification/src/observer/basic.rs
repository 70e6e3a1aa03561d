//! An observer that reads no events: it follows finality, but no target ever matches.

use std::sync::Arc;

use vstd::prelude::*;

use crate::error;
use crate::error::{ProtocolError, ProtocolErrorView};
use crate::finality::config::PredicateConfig;
use crate::finality::error::FinalityError;
use crate::finality::predicate;
use crate::finality::predicate::GrandpaFinality;
use crate::grandpa::AuthorityList;
use crate::message::{FrostMessage, MessageType};
use crate::observer::error::ErrorKind;
use crate::observer::handling;
use crate::observer::handling::{message_for, notified_block, FinalityNotification};
use crate::observer::run;
use crate::observer::target::{TargetView, WatchTarget};
use crate::pallet::config::Config;
use crate::state::{BlockRef, StateRoot, StateTransition, TransitionMetadata};

verus! {

/// Keeps watch targets and follows the finality of blocks.
pub struct SSMPObserver<T: Config> {
    /// Registered watch targets.
    watch_targets: Vec<WatchTarget>,
    /// Client reference.
    client: Arc<T::Client>,
    /// Finality predicate.
    finality: GrandpaFinality<T::Client>,
}

/// Whether a transition is the one that is observed at a block.
pub open spec fn is_transition_at(transition: StateTransition, block: BlockRef) -> bool {
    &&& transition.chain_id == block.chain_id
    &&& transition.block_height == block.number
    &&& handling::is_initial_root(transition.pre_state)
    &&& handling::is_initial_root(transition.post_state)
    &&& transition.transition_proof is None
    &&& transition.metadata.timestamp == 0
    &&& transition.metadata.version == 0
    &&& transition.metadata.proof_type is Basic
    &&& transition.metadata.chain_specific is None
}

impl<T: Config> SSMPObserver<T> {
    /// The registered targets, in the order of registration.
    pub closed spec fn targets(&self) -> Seq<TargetView> {
        handling::target_views(self.watch_targets@)
    }

    /// The chain client.
    pub closed spec fn chain_client(&self) -> Arc<T::Client> {
        self.client
    }

    /// The finality predicate.
    pub closed spec fn finality_predicate(&self) -> GrandpaFinality<T::Client> {
        self.finality
    }

    /// An observer that knows no authorities yet.
    pub fn new(client: Arc<T::Client>, config: PredicateConfig) -> (r: Self)
        ensures
            r.targets() == Seq::<TargetView>::empty(),
            r.chain_client() == client,
            r.finality_predicate().chain_client() == client,
            r.finality_predicate().predicate_config() == config,
            r.finality_predicate().voters().describes(Seq::empty()),
    {
        let authorities: AuthorityList = Vec::new();
        assert(authorities@ =~= Seq::empty());
        let finality = GrandpaFinality::new(client.clone(), config, &authorities);
        let r = SSMPObserver { watch_targets: Vec::new(), client, finality };
        assert(r.targets() =~= Seq::empty());
        r
    }

    /// The chain client.
    pub fn client(&self) -> (r: &Arc<T::Client>)
        ensures
            *r == self.chain_client(),
    {
        &self.client
    }

    /// The finality predicate.
    pub fn finality(&self) -> (r: &GrandpaFinality<T::Client>)
        ensures
            *r == self.finality_predicate(),
    {
        &self.finality
    }

    /// Registers a watch target, after those that are registered already.
    pub fn register_watch_target(&mut self, target: WatchTarget)
        ensures
            final(self).targets() == old(self).targets().push(target@),
            final(self).chain_client() == old(self).chain_client(),
            final(self).finality_predicate() == old(self).finality_predicate(),
    {
        let ghost before = self.targets();
        let ghost view = target@;
        self.watch_targets.push(target);
        assert(self.targets() =~= before.push(view));
    }

    /// The transition at a block.
    pub fn generate_state_transition(&self, block_ref: &BlockRef) -> (r: StateTransition)
        ensures
            is_transition_at(r, *block_ref),
    {
        StateTransition {
            chain_id: block_ref.chain_id.clone(),
            block_height: block_ref.number,
            pre_state: StateRoot::default(),
            post_state: StateRoot::default(),
            transition_proof: None,
            metadata: TransitionMetadata::default(),
        }
    }

    /// Whether a block matches a target: as no events are read, it does not.
    pub fn matches_watch_target(&self, block_ref: &BlockRef, target: &WatchTarget) -> (r: bool)
        ensures
            !r,
    {
        false
    }

    /// The message that carries an encoded proof to the chain of a target.
    pub fn message_for(&self, payload: Vec<u8>, target: &WatchTarget) -> (r: FrostMessage)
        ensures
            r@ == handling::proof_message(MessageType::StateProof, payload@, target@),
    {
        message_for(MessageType::StateProof, payload, target)
    }

    /// Handles a finality notification, by the answer whether its block is final.
    pub fn handle_finality_notification(
        &self,
        notification: &FinalityNotification<T::Number>,
        finality: Result<bool, FinalityError>,
    ) -> (r: Result<(), ProtocolError>)
        ensures
            error::outcome_view(r) == match handling::notified(*notification) {
                None => run::failed(ErrorKind::InvalidBlockHash.message()),
                Some(_) => match predicate::check_outcome(finality) {
                    Err(e) => Err(ProtocolErrorView::Finality(e)),
                    Ok(_) => Ok(()),
                },
            },
    {
        match notified_block(notification) {
            Err(e) => Err(e),
            Ok(_) => match finality {
                Err(e) => Err(ProtocolError::from(e)),
                Ok(_) => Ok(()),
            },
        }
    }
}

/// The transition at a block is at its height on its chain, between states without a block, and says
/// nothing of a call.
pub proof fn law_transitions_are_at_the_height_of_their_block(
    transition: StateTransition,
    block: BlockRef,
)
    requires
        is_transition_at(transition, block),
    ensures
        transition.chain_id == block.chain_id,
        transition.block_height == block.number,
        transition.pre_state.block_ref.number == 0,
        transition.post_state.block_ref.number == 0,
        transition.pre_state.metadata is None,
        transition.post_state.metadata is None,
        transition.transition_proof is None,
        transition.metadata.timestamp == 0,
        transition.metadata.version == 0,
        transition.metadata.proof_type is Basic,
        transition.metadata.chain_specific is None,
        forall|i: int| 0 <= i < 32 ==> #[trigger] transition.pre_state.root_hash@[i] == 0,
        forall|i: int| 0 <= i < 32 ==> #[trigger] transition.post_state.root_hash@[i] == 0,
{
    let zeros = Seq::new(32, |i: int| 0u8);
    assert(transition.pre_state.root_hash@ == zeros && transition.post_state.root_hash@ == zeros);
}

} // verus!
