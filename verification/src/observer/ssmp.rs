//! The observer and its worker.

use std::sync::Arc;

use vstd::prelude::*;

use crate::error::{ProtocolError, ProtocolErrorView};
use crate::finality::client::{GrandpaFinalityProvider, SubstrateVerificationClient};
use crate::finality::config::{ChainConfig, GrandpaVerificationParams, PredicateConfig};
use crate::finality::error::{ErrorView, FinalityError, GrandpaFinalityVerificationError};
use crate::finality::predicate;
use crate::finality::predicate::GrandpaFinality;
use crate::finality::status::FinalityStatus;
use crate::finality::voters::Voters;
use crate::grandpa;
use crate::grandpa::AuthorityList;
use crate::number::BlockNumber;
use crate::observer::error::ErrorKind;
use crate::observer::event;
use crate::observer::event::{any_event_matches, generic_event_match};
use crate::observer::handling;
use crate::observer::handling::{
    notified_block, transition_for, Action, Asked, FinalityNotification, Handling, Stage,
};
use crate::observer::run;
use crate::observer::run::{Handled, HandledNotification, TargetAnswers};
use crate::observer::target::{TargetView, WatchTarget};
use crate::pallet::config::Config;
use crate::state::{copied, BlockRef};
use crate::store::Stamped;
use crate::text::joined;
use crate::wrapper_types::SSMPStateTransition;

verus! {

/// The authorities that the runtime named, if there are voters to be had of them or they are none
/// yet, or why they cannot be taken.
pub open spec fn named(authorities: Result<AuthorityList, String>) -> Result<
    Seq<(grandpa::AuthorityId, u64)>,
    Seq<char>,
> {
    match authorities {
        Err(reason) => Err(reason@),
        Ok(list) => if list@.len() == 0 || 0 < grandpa::total_weight(list@) <= u64::MAX {
            Ok(list@)
        } else {
            Err(ErrorView::AuthoritySetError("Failed to create voter set"@).text())
        },
    }
}

/// Watches finalized blocks for registered targets.
pub struct SSMPObserver<T: Config> {
    /// Registered watch targets.
    watch_targets: Vec<WatchTarget>,
    /// Whether there is a router for messages.
    routes: bool,
    /// Client reference.
    client: Arc<T::Client>,
    /// Finality predicate.
    finality: GrandpaFinality<T::Client>,
    /// What the finality predicate asks about blocks.
    verification_client: SubstrateVerificationClient<T::Client, T::Number>,
}

impl<T: Config> SSMPObserver<T> {
    /// The registered targets, in the order of registration.
    pub closed spec fn targets(&self) -> Seq<TargetView> {
        handling::target_views(self.watch_targets@)
    }

    /// Whether there is a router for messages.
    pub closed spec fn has_router(&self) -> bool {
        self.routes
    }

    /// The chain client.
    pub closed spec fn chain_client(&self) -> Arc<T::Client> {
        self.client
    }

    /// The finality predicate.
    pub closed spec fn finality_predicate(&self) -> GrandpaFinality<T::Client> {
        self.finality
    }

    /// The client that verifies blocks for the finality predicate.
    pub closed spec fn block_verifier(&self) -> SubstrateVerificationClient<T::Client, T::Number> {
        self.verification_client
    }

    /// Whether the observer is set up as given, with default parameters and no targets yet.
    pub open spec fn is_new(
        &self,
        client: Arc<T::Client>,
        config: PredicateConfig,
        has_router: bool,
        chain_config: ChainConfig,
        authorities: Seq<(grandpa::AuthorityId, u64)>,
    ) -> bool {
        &&& self.targets() == Seq::<TargetView>::empty()
        &&& self.has_router() == has_router
        &&& self.chain_client() == client
        &&& self.finality_predicate().chain_client() == client
        &&& self.finality_predicate().predicate_config() == config
        &&& self.finality_predicate().voters().describes(authorities)
        &&& self.block_verifier().chain_client() == client
        &&& self.block_verifier().voters().describes(authorities)
        &&& self.block_verifier().verification_params() == (GrandpaVerificationParams {
            min_confirmations: 2,
            max_fork_depth: 50,
            timeout_secs: 30,
            set_id: 0,
            strict_signature_verification: true,
        })
        &&& self.block_verifier().config() == chain_config
        &&& self.block_verifier().kept() == Map::<
            Seq<u8>,
            Stamped<FinalityStatus<T::Number>>,
        >::empty()
    }

    /// An observer for the given authorities, which may be none yet.
    fn with_authorities(
        client: Arc<T::Client>,
        config: PredicateConfig,
        has_router: bool,
        chain_config: ChainConfig,
        authorities: &AuthorityList,
    ) -> (r: Self)
        requires
            authorities@.len() == 0 || 0 < grandpa::total_weight(authorities@) <= u64::MAX,
        ensures
            r.is_new(client, config, has_router, chain_config, authorities@),
    {
        let verification_client = SubstrateVerificationClient::new(
            client.clone(),
            Voters::of(authorities),
            GrandpaVerificationParams::default(),
            chain_config,
        );
        let finality = GrandpaFinality::new(client.clone(), config, authorities);
        let r = SSMPObserver {
            watch_targets: Vec::new(),
            routes: has_router,
            client,
            finality,
            verification_client,
        };
        assert(r.targets() =~= Seq::empty());
        r
    }

    /// An observer of the default chain that knows no authorities yet.
    pub fn new(client: Arc<T::Client>, config: PredicateConfig, has_router: bool) -> (r: Self)
        ensures
            r.is_new(client, config, has_router, r.block_verifier().config(), Seq::empty()),
            r.block_verifier().config().chain_id@ == "substrate-default"@,
            r.block_verifier().config().network_type is Development,
            r.block_verifier().config().authority_set_id == 0,
    {
        let authorities: AuthorityList = Vec::new();
        assert(authorities@ =~= Seq::empty());
        Self::with_authorities(client, config, has_router, ChainConfig::default(), &authorities)
    }

    /// An observer for the authorities that the runtime named, unless it could not name them or
    /// there are no voters to be had of them.
    pub fn new_with_runtime_authorities(
        client: Arc<T::Client>,
        config: PredicateConfig,
        has_router: bool,
        chain_config: ChainConfig,
        authorities: Result<AuthorityList, String>,
    ) -> (r: Result<Self, ProtocolError>)
        ensures
            match named(authorities) {
                Ok(list) => r matches Ok(observer) && observer.is_new(
                    client,
                    config,
                    has_router,
                    chain_config,
                    list,
                ),
                Err(reason) => r matches Err(e) && e@ == ProtocolErrorView::Custom(
                    "Failed to initialize finality: "@ + reason,
                ),
            },
    {
        match authorities {
            Ok(list) => if list.len() == 0 || Voters::new(&list).is_some() {
                Ok(Self::with_authorities(client, config, has_router, chain_config, &list))
            } else {
                let reason = GrandpaFinalityVerificationError::AuthoritySetError(
                    "Failed to create voter set".to_owned(),
                ).to_string();
                Err(
                    ProtocolError::Custom(
                        joined("Failed to initialize finality: ", reason.as_str()),
                    ),
                )
            },
            Err(reason) => Err(
                ProtocolError::Custom(joined("Failed to initialize finality: ", reason.as_str())),
            ),
        }
    }

    /// The chain client.
    pub fn client(&self) -> (r: &Arc<T::Client>)
        ensures
            *r == self.chain_client(),
    {
        &self.client
    }

    /// The finality predicate.
    pub fn finality(&self) -> (r: &GrandpaFinality<T::Client>)
        ensures
            *r == self.finality_predicate(),
    {
        &self.finality
    }

    /// The client that verifies blocks for the finality predicate.
    pub fn verification_client(&mut self) -> (r: &mut SubstrateVerificationClient<
        T::Client,
        T::Number,
    >)
        ensures
            *r == old(self).block_verifier(),
            final(self).block_verifier() == *final(r),
            final(self).targets() == old(self).targets(),
            final(self).has_router() == old(self).has_router(),
            final(self).chain_client() == old(self).chain_client(),
            final(self).finality_predicate() == old(self).finality_predicate(),
    {
        &mut self.verification_client
    }

    /// The registered targets, in the order of registration.
    pub fn watch_targets(&self) -> (r: &Vec<WatchTarget>)
        ensures
            handling::target_views(r@) == self.targets(),
    {
        &self.watch_targets
    }

    /// Registers a watch target, after those that are registered already.
    pub fn register_watch_target(&mut self, target: WatchTarget)
        ensures
            final(self).targets() == old(self).targets().push(target@),
            final(self).has_router() == old(self).has_router(),
            final(self).chain_client() == old(self).chain_client(),
            final(self).finality_predicate() == old(self).finality_predicate(),
            final(self).block_verifier() == old(self).block_verifier(),
    {
        let ghost before = self.targets();
        let ghost view = target@;
        self.watch_targets.push(target);
        assert(self.targets() =~= before.push(view));
    }

    /// Whether the block with the given encoded events holds a match for a target.
    pub fn matches_watch_target(
        &self,
        events: &Result<Vec<Vec<u8>>, String>,
        target: &WatchTarget,
    ) -> (r: Result<bool, ProtocolError>)
        requires
            events matches Ok(list) ==> event::all_comparable(
                event::encoded_events(list@),
                target@,
            ),
        ensures
            match *events {
                Ok(list) => r == Ok::<bool, ProtocolError>(
                    event::any_matches(event::encoded_events(list@), target@),
                ),
                Err(reason) => r matches Err(e) && e@ == ProtocolErrorView::Custom(
                    "Failed to fetch events: "@ + reason@,
                ),
            },
    {
        match events {
            Ok(list) => Ok(any_event_matches(list, target)),
            Err(reason) => Err(
                ProtocolError::Custom(joined("Failed to fetch events: ", reason.as_str())),
            ),
        }
    }

    /// Whether an encoded event matches a target.
    pub fn event_matches_target(&self, event: &[u8], target: &WatchTarget) -> (r: bool)
        requires
            event::comparable(event@, target@),
        ensures
            r == event::event_matches(event@, target@),
    {
        generic_event_match(event, target)
    }

    /// The encoded events of a block, unless the runtime could not give them.
    pub fn get_block_events(&self, events: Result<Vec<Vec<u8>>, String>) -> (r: Result<
        Vec<Vec<u8>>,
        ProtocolError,
    >)
        ensures
            match events {
                Ok(list) => r == Ok::<_, ProtocolError>(list),
                Err(reason) => r matches Err(e) && e@ == ProtocolErrorView::Custom(
                    "Failed to get events: "@ + reason@,
                ),
            },
    {
        match events {
            Ok(list) => Ok(list),
            Err(reason) => Err(
                ProtocolError::Custom(joined("Failed to get events: ", reason.as_str())),
            ),
        }
    }

    /// The transition for a matched target.
    pub fn generate_state_transition(
        &self,
        block_ref: &BlockRef,
        target: &WatchTarget,
        now: u64,
    ) -> (r: SSMPStateTransition)
        ensures
            handling::is_transition_for(r.0, *block_ref, target@, now),
    {
        transition_for(block_ref, target, now)
    }

    /// Begins to handle a finality notification.
    pub fn begin(&self, notification: &FinalityNotification<T::Number>) -> (r: Result<
        (Handling, Action),
        ProtocolError,
    >)
        ensures
            match handling::notified(*notification) {
                Some((number, hash)) => r matches Ok((state, action)) && {
                    &&& state@.block.number as nat == number
                    &&& state@.block.hash@ == hash
                    &&& state@.block.chain_id.id@ == Seq::<char>::empty()
                    &&& state@.routes == self.has_router()
                    &&& state@.stage == Stage::Finality
                    &&& action.asks(state@.block, Asked::Finality)
                },
                None => r matches Err(e) && e@ == ProtocolErrorView::Custom(
                    ErrorKind::InvalidBlockHash.message(),
                ),
            },
    {
        match notified_block(notification) {
            Ok(block) => Ok(Handling::new(block, self.routes)),
            Err(e) => Err(e),
        }
    }

    /// Goes on with a notification once it is known whether its block is final.
    pub fn after_finality(
        &self,
        state: &mut Handling,
        answer: Result<bool, FinalityError>,
    ) -> (r: Action)
        requires
            old(state)@.stage == Stage::Finality,
        ensures
            ({
                let next = old(state)@.after_finality(
                    predicate::check_outcome(answer),
                    self.targets(),
                );
                final(state)@ == next.0 && r.asks(old(state)@.block, next.1)
            }),
    {
        state.after_finality(answer, &self.watch_targets)
    }

    /// What comes of a finality notification, by the answer whether its block is final and the
    /// answers for each target.
    pub open spec fn outcome_of(
        &self,
        notification: FinalityNotification<T::Number>,
        finality: Result<bool, FinalityError>,
        answers: Seq<TargetAnswers>,
    ) -> Handled {
        match handling::notified(notification) {
            None => Handled {
                outcome: run::failed(ErrorKind::InvalidBlockHash.message()),
                requests: Seq::empty(),
                messages: Seq::empty(),
            },
            Some(_) => run::handled(
                predicate::check_outcome(finality),
                self.targets(),
                self.has_router(),
                run::answer_views(answers),
            ),
        }
    }

    /// Whether the answers suffice to handle a notification.
    pub open spec fn is_answered(&self, item: AnsweredNotification<T::Number>) -> bool {
        handling::notified(item.notification) is Some && item.finality == Ok::<bool, FinalityError>(true)
            ==> run::answerable_from(
            self.targets(),
            self.has_router(),
            run::answer_views(item.answers@),
            0,
        )
    }

    /// Handles a finality notification as a whole: by the answer whether its block is final and
    /// the answers for each target.
    pub fn handle_finality_notification(
        &self,
        notification: &FinalityNotification<T::Number>,
        finality: Result<bool, FinalityError>,
        answers: &Vec<TargetAnswers>,
    ) -> (r: HandledNotification)
        requires
            handling::notified(*notification) is Some && finality == Ok::<bool, FinalityError>(
                true,
            ) ==> run::answerable_from(
                self.targets(),
                self.has_router(),
                run::answer_views(answers@),
                0,
            ),
        ensures
            r.tells(
                Seq::empty(),
                notification.number.as_nat(),
                self.outcome_of(*notification, finality, answers@),
            ),
    {
        match notified_block(notification) {
            Ok(block) => run::run(block, self.routes, finality, &self.watch_targets, answers),
            Err(e) => HandledNotification::refused(e),
        }
    }

    /// The notification for a finalized block, unless its number is too large for the chain.
    pub fn notification_for(block: &BlockRef) -> (r: Result<
        FinalityNotification<T::Number>,
        ProtocolError,
    >)
        ensures
            if block.number as nat <= T::Number::max_nat() {
                r matches Ok(n) && n.hash@ == block.hash@ && n.number.as_nat()
                    == block.number as nat && n.justification is None
            } else {
                r matches Err(e) && e@ == ProtocolErrorView::Custom(
                    ErrorKind::InvalidBlockNumber.message(),
                )
            },
    {
        let number = T::Number::saturated_from(block.number);
        if number.to_u64() != block.number {
            return Err(ProtocolError::from(ErrorKind::InvalidBlockNumber));
        }
        Ok(
            FinalityNotification {
                hash: copied(block.hash.as_slice()),
                number,
                justification: None,
            },
        )
    }

    /// Handles the finality of a block as a whole, as a notification for it is handled.
    pub fn on_block_finalized(
        &self,
        block: &BlockRef,
        finality: Result<bool, FinalityError>,
        answers: &Vec<TargetAnswers>,
    ) -> (r: HandledNotification)
        requires
            block.number as nat <= T::Number::max_nat() && finality == Ok::<bool, FinalityError>(
                true,
            ) ==> run::answerable_from(
                self.targets(),
                self.has_router(),
                run::answer_views(answers@),
                0,
            ),
        ensures
            r.tells(
                Seq::empty(),
                block.number as nat,
                if block.number as nat <= T::Number::max_nat() {
                    run::handled(
                        predicate::check_outcome(finality),
                        self.targets(),
                        self.has_router(),
                        run::answer_views(answers@),
                    )
                } else {
                    Handled {
                        outcome: run::failed(ErrorKind::InvalidBlockNumber.message()),
                        requests: Seq::empty(),
                        messages: Seq::empty(),
                    }
                },
            ),
    {
        match Self::notification_for(block) {
            Ok(notification) => self.handle_finality_notification(&notification, finality, answers),
            Err(e) => HandledNotification::refused(e),
        }
    }
}

/// A finality notification with the answers to all that is asked about it.
#[derive(Debug)]
pub struct AnsweredNotification<N> {
    pub notification: FinalityNotification<N>,
    /// Whether the block is final.
    pub finality: Result<bool, FinalityError>,
    /// The answers for each target.
    pub answers: Vec<TargetAnswers>,
}

/// Runs an observer on a stream of finality notifications.
pub struct SSMPWorker<T: Config> {
    observer: Arc<SSMPObserver<T>>,
}

impl<T: Config> SSMPWorker<T> {
    /// The observer.
    pub closed spec fn observed_by(&self) -> Arc<SSMPObserver<T>> {
        self.observer
    }

    /// A worker for the given observer.
    pub fn new(observer: Arc<SSMPObserver<T>>) -> (r: Self)
        ensures
            r.observed_by() == observer,
    {
        SSMPWorker { observer }
    }

    /// The observer.
    pub fn observer(&self) -> (r: &Arc<SSMPObserver<T>>)
        ensures
            *r == self.observed_by(),
    {
        &self.observer
    }

    /// Handles notifications one after the other; a failure does not keep those after it from
    /// being handled. Gives what came of each.
    pub fn run_with_finality_stream(
        &self,
        notifications: Vec<AnsweredNotification<T::Number>>,
    ) -> (r: Vec<HandledNotification>)
        requires
            forall|i: int|
                0 <= i < notifications@.len() ==> self.observed_by().is_answered(
                    #[trigger] notifications@[i],
                ),
        ensures
            r@.len() == notifications@.len(),
            forall|i: int|
                0 <= i < r@.len() ==> (#[trigger] r@[i]).tells(
                    Seq::empty(),
                    notifications@[i].notification.number.as_nat(),
                    self.observed_by().outcome_of(
                        notifications@[i].notification,
                        notifications@[i].finality,
                        notifications@[i].answers@,
                    ),
                ),
    {
        let ghost all = notifications@;
        let ghost mut done: int = 0;
        let mut notifications = notifications;
        let mut outcomes: Vec<HandledNotification> = Vec::new();
        assert(notifications@ =~= all.skip(0));
        while notifications.len() > 0
            invariant
                0 <= done <= all.len(),
                notifications@ == all.skip(done),
                outcomes@.len() == done,
                forall|i: int|
                    0 <= i < all.len() ==> self.observed_by().is_answered(#[trigger] all[i]),
                forall|i: int|
                    0 <= i < done ==> (#[trigger] outcomes@[i]).tells(
                        Seq::empty(),
                        all[i].notification.number.as_nat(),
                        self.observed_by().outcome_of(
                            all[i].notification,
                            all[i].finality,
                            all[i].answers@,
                        ),
                    ),
            decreases notifications@.len(),
        {
            let next = notifications.remove(0);
            assert(next == all[done]);
            let outcome = self.observer.handle_finality_notification(
                &next.notification,
                next.finality,
                &next.answers,
            );
            outcomes.push(outcome);
            proof {
                assert(notifications@ =~= all.skip(done + 1));
                done = done + 1;
            }
        }
        outcomes
    }
}

/// The authorities that the runtime named are taken as they are where there are none yet, or where
/// they weigh something together that fits 64 bits. Else the reason says that there is no voter set,
/// or why the runtime could not name them.
pub proof fn law_named_authorities_are_taken_whole(list: AuthorityList, reason: String)
    ensures
        named(Err(reason)) == Err::<Seq<(grandpa::AuthorityId, u64)>, _>(reason@),
        list@.len() == 0 ==> named(Ok(list)) == Ok::<_, Seq<char>>(list@),
        0 < grandpa::total_weight(list@) <= u64::MAX ==> named(Ok(list)) == Ok::<_, Seq<char>>(
            list@,
        ),
        list@.len() > 0 && (grandpa::total_weight(list@) == 0 || grandpa::total_weight(list@)
            > u64::MAX) ==> named(Ok(list)) == Err::<Seq<(grandpa::AuthorityId, u64)>, _>(
            "Authority set error: "@ + "Failed to create voter set"@,
        ),
{
}

/// A new observer has no targets, the router, client, configuration and chain that it was given, the
/// voters of the authorities both for deciding and for verifying, the default parameters, and no kept
/// statuses.
pub proof fn law_new_observers_are_set_up_as_given<T: Config>(
    observer: SSMPObserver<T>,
    client: Arc<T::Client>,
    config: PredicateConfig,
    has_router: bool,
    chain_config: ChainConfig,
    authorities: Seq<(grandpa::AuthorityId, u64)>,
)
    requires
        observer.is_new(client, config, has_router, chain_config, authorities),
    ensures
        observer.targets().len() == 0,
        observer.has_router() == has_router,
        observer.chain_client() == client,
        observer.finality_predicate().chain_client() == client,
        observer.finality_predicate().predicate_config() == config,
        observer.finality_predicate().voters().weights() == grandpa::accumulated(authorities),
        observer.finality_predicate().voters().total() == grandpa::total_weight(authorities),
        observer.block_verifier().chain_client() == client,
        observer.block_verifier().voters().weights() == grandpa::accumulated(authorities),
        observer.block_verifier().voters().total() == grandpa::total_weight(authorities),
        observer.block_verifier().verification_params().min_confirmations == 2,
        observer.block_verifier().verification_params().max_fork_depth == 50,
        observer.block_verifier().verification_params().timeout_secs == 30,
        observer.block_verifier().verification_params().set_id == 0,
        observer.block_verifier().verification_params().strict_signature_verification,
        observer.block_verifier().config() == chain_config,
        forall|hash: Seq<u8>| !observer.block_verifier().kept().contains_key(hash),
{
}

/// A notification without a whole hash is refused; any other one is handled with the observer's own
/// targets and router.
pub proof fn law_notifications_are_handled_for_the_observers_targets<T: Config>(
    observer: SSMPObserver<T>,
    notification: FinalityNotification<T::Number>,
    finality: Result<bool, FinalityError>,
    answers: Seq<TargetAnswers>,
)
    ensures
        notification.hash@.len() != 32 ==> observer.outcome_of(notification, finality, answers) == (
        Handled {
            outcome: Err(ProtocolErrorView::Custom("Invalid block hash"@)),
            requests: Seq::empty(),
            messages: Seq::empty(),
        }),
        notification.hash@.len() == 32 ==> observer.outcome_of(notification, finality, answers)
            == run::handled(
            predicate::check_outcome(finality),
            observer.targets(),
            observer.has_router(),
            run::answer_views(answers),
        ),
{
}

/// Answers are needed only for a whole hash of a final block, and are then enough where there is one
/// for each target and all events can be held against it.
pub proof fn law_answers_are_needed_for_final_blocks_only<T: Config>(
    observer: SSMPObserver<T>,
    item: AnsweredNotification<T::Number>,
)
    ensures
        item.notification.hash@.len() != 32 ==> observer.is_answered(item),
        item.finality != Ok::<bool, FinalityError>(true) ==> observer.is_answered(item),
        observer.targets().len() <= item.answers@.len() && (forall|k: int|
            0 <= k < observer.targets().len() ==> ((#[trigger] run::answer_views(
                item.answers@,
            )[k]).events matches Ok(events) ==> event::all_comparable(
                events,
                observer.targets()[k],
            ))) ==> observer.is_answered(item),
{
    let replies = run::answer_views(item.answers@);
    if observer.targets().len() <= replies.len() && (forall|k: int|
        0 <= k < observer.targets().len() ==> ((#[trigger] replies[k]).events matches Ok(events)
            ==> event::all_comparable(events, observer.targets()[k]))) {
        run::law_an_answer_for_each_target_is_enough(
            observer.targets(),
            observer.has_router(),
            replies,
            0,
        );
    }
}

} // verus!
