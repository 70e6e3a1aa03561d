//! The registry of watch targets.

use std::sync::Arc;

use vstd::prelude::*;

use crate::finality::config::PredicateConfig;
use crate::grandpa::BlockHash;
use crate::observer::event;
use crate::observer::ssmp::SSMPObserver;
use crate::observer::target;
use crate::observer::target::{TargetView, WatchTarget};
use crate::pallet::config::{Config, FrostHash};
use crate::pallet::origin::{ensure_signed, DispatchError, Origin};
use crate::store::HashStore;

verus! {

/// What the registry tells about what it did.
#[derive(Debug)]
pub enum Event {
    /// New watch target registered.
    WatchTargetRegistered { target_hash: BlockHash },
    /// State transition observed and proof generated.
    ProofGenerated { proof_hash: BlockHash, target_chain: Vec<u8> },
    /// Message routed to target chain.
    MessageRouted { msg_hash: BlockHash, target_chain: Vec<u8> },
}

/// Why the registry refused a call.
#[derive(Clone, Copy, Debug, PartialEq, Eq, Structural)]
pub enum Error {
    /// Invalid watch target.
    InvalidWatchTarget,
    /// Invalid proof.
    InvalidProof,
    /// Proof size exceeds limit.
    ProofTooLarge,
    /// Routing failed.
    RoutingFailed,
}

/// The version of the storage layout.
pub const STORAGE_VERSION: u16 = 1;

/// What a new observer is made of.
pub struct ObserverSetup<C> {
    pub client: Arc<C>,
    pub config: PredicateConfig,
    pub has_router: bool,
}

/// The registry of watch targets, with the observer that watches for them.
pub struct Pallet<T: Config> {
    watch_targets: HashStore<WatchTarget>,
    observer: Option<SSMPObserver<T>>,
    events: Vec<Event>,
}

/// Whether a target can be registered: it names a module and a function.
pub open spec fn is_valid(target: TargetView) -> bool {
    target.module_name.len() > 0 && target.function_name.len() > 0
}

/// Why a call to register a target is refused, if it is.
pub open spec fn refusal(origin: Origin, target: TargetView) -> Option<DispatchError<Error>> {
    if !(origin is Signed) {
        Some(DispatchError::BadOrigin)
    } else if !is_valid(target) {
        Some(DispatchError::Module(Error::InvalidWatchTarget))
    } else {
        None
    }
}

/// The hash under which a target is registered.
pub open spec fn target_key<H: FrostHash>(target: TargetView) -> Seq<u8> {
    H::digest(target::encoded_target(target))
}

/// The registered targets after one more was registered.
pub open spec fn with_target<H: FrostHash>(
    registered: Map<Seq<u8>, TargetView>,
    target: TargetView,
) -> Map<Seq<u8>, TargetView> {
    registered.insert(target_key::<H>(target), target)
}

/// Whether every target is valid, within bounds, and registered under its own hash.
pub open spec fn well_keyed<H: FrostHash>(registered: Map<Seq<u8>, TargetView>) -> bool {
    forall|key: Seq<u8>| #[trigger]
        registered.contains_key(key) ==> key == target_key::<H>(registered[key]) && is_valid(
            registered[key],
        ) && registered[key].within_bounds()
}

/// The targets in a store.
pub open spec fn stored_targets(store: Map<Seq<u8>, WatchTarget>) -> Map<Seq<u8>, TargetView> {
    store.map_values(|target: WatchTarget| target@)
}

/// The hash under which a target is registered on behalf of whoever signed the call, or why it is
/// refused.
pub fn registration_key<H: FrostHash>(origin: Origin, target: &WatchTarget) -> (r: Result<
    BlockHash,
    DispatchError<Error>,
>)
    ensures
        target@.within_bounds(),
        match refusal(origin, target@) {
            Some(e) => r == Err::<BlockHash, _>(e),
            None => r matches Ok(hash) && hash@ == target_key::<H>(target@),
        },
{
    let encoded = target.encode();
    match ensure_signed(origin) {
        Ok(_) => if target.module().len() == 0 || target.function().len() == 0 {
            Err(DispatchError::Module(Error::InvalidWatchTarget))
        } else {
            Ok(H::hash(encoded.as_slice()))
        },
        Err(e) => Err(e),
    }
}

/// Whether an observer is new and made as `setup` says.
pub open spec fn is_fresh<T: Config>(
    observer: SSMPObserver<T>,
    setup: ObserverSetup<T::Client>,
) -> bool {
    &&& observer.is_new(
        setup.client,
        setup.config,
        setup.has_router,
        observer.block_verifier().config(),
        Seq::empty(),
    )
    &&& observer.block_verifier().config().chain_id@ == "substrate-default"@
    &&& observer.block_verifier().config().network_type is Development
    &&& observer.block_verifier().config().authority_set_id == 0
}

/// Whether `after` is the observer that was there before or, where there was none, one made as
/// `setup` says.
pub open spec fn prepared<T: Config>(
    before: Option<SSMPObserver<T>>,
    setup: Option<ObserverSetup<T::Client>>,
    after: Option<SSMPObserver<T>>,
) -> bool {
    match (before, setup) {
        (Some(_), _) => after == before,
        (None, Some(s)) => after matches Some(observer) && is_fresh(observer, s),
        (None, None) => after is None,
    }
}

/// Whether `after` is the prepared observer with one more target.
pub open spec fn informed<T: Config>(
    before: Option<SSMPObserver<T>>,
    setup: Option<ObserverSetup<T::Client>>,
    target: TargetView,
    after: Option<SSMPObserver<T>>,
) -> bool {
    if before is None && setup is None {
        after is None
    } else {
        exists|ready: SSMPObserver<T>| #[trigger]
            prepared(before, setup, Some(ready)) && (after matches Some(observer) && {
                &&& observer.targets() == ready.targets().push(target)
                &&& observer.has_router() == ready.has_router()
                &&& observer.chain_client() == ready.chain_client()
                &&& observer.finality_predicate() == ready.finality_predicate()
                &&& observer.block_verifier() == ready.block_verifier()
            })
    }
}

impl<T: Config> Pallet<T> {
    /// The registered targets, by their hashes.
    pub closed spec fn registered(&self) -> Map<Seq<u8>, TargetView> {
        stored_targets(self.watch_targets@)
    }

    /// The observer, once there is one.
    pub closed spec fn current_observer(&self) -> Option<SSMPObserver<T>> {
        self.observer
    }

    /// What was told so far.
    pub closed spec fn deposited(&self) -> Seq<Event> {
        self.events@
    }

    /// The targets that the observer watches for.
    pub open spec fn watched(&self) -> Seq<TargetView> {
        match self.current_observer() {
            Some(observer) => observer.targets(),
            None => Seq::empty(),
        }
    }

    #[verifier::type_invariant]
    spec fn well_formed(self) -> bool {
        well_keyed::<T::FrostHash>(stored_targets(self.watch_targets@))
    }

    /// A registry without targets.
    pub fn new() -> (r: Self)
        ensures
            r.registered() == Map::<Seq<u8>, TargetView>::empty(),
            r.current_observer() is None,
            r.deposited() == Seq::<Event>::empty(),
    {
        let watch_targets = HashStore::new();
        assert(stored_targets(watch_targets@) =~= Map::empty());
        Pallet { watch_targets, observer: None, events: Vec::new() }
    }

    /// The target that is registered under a hash, if there is one.
    pub fn watch_target(&self, hash: &BlockHash) -> (r: Option<&WatchTarget>)
        ensures
            match r {
                Some(target) => self.registered().contains_key(hash@) && self.registered()[hash@]
                    == target@,
                None => !self.registered().contains_key(hash@),
            },
            well_keyed::<T::FrostHash>(self.registered()),
    {
        proof {
            use_type_invariant(self);
        }
        self.watch_targets.get(hash)
    }

    /// What was told so far.
    pub fn events(&self) -> (r: &Vec<Event>)
        ensures
            r@ == self.deposited(),
    {
        &self.events
    }

    /// The observer; where there is none yet, one is made as `setup` says. Without a setup there is
    /// only the one that is there already.
    pub fn observer(&mut self, setup: Option<ObserverSetup<T::Client>>) -> (r: Option<
        &SSMPObserver<T>,
    >)
        ensures
            final(self).registered() == old(self).registered(),
            final(self).deposited() == old(self).deposited(),
            prepared(old(self).current_observer(), setup, final(self).current_observer()),
            match r {
                Some(observer) => final(self).current_observer() == Some(*observer),
                None => final(self).current_observer() is None,
            },
    {
        if let Some(setup) = setup {
            self.ensure_observer(setup);
        }
        self.observer.as_ref()
    }

    /// The observer that is there already, if there is one.
    pub fn existing_observer(&self) -> (r: Option<&SSMPObserver<T>>)
        ensures
            match r {
                Some(observer) => self.current_observer() == Some(*observer),
                None => self.current_observer() is None,
            },
    {
        self.observer.as_ref()
    }

    /// Makes an observer, unless there is one already.
    pub fn ensure_observer(&mut self, setup: ObserverSetup<T::Client>)
        ensures
            final(self).registered() == old(self).registered(),
            final(self).deposited() == old(self).deposited(),
            prepared(old(self).current_observer(), Some(setup), final(self).current_observer()),
    {
        proof {
            use_type_invariant(&*self);
        }
        if self.observer.is_none() {
            self.observer = Some(
                SSMPObserver::new(setup.client, setup.config, setup.has_router),
            );
        }
    }

    /// Prepares for a new block: makes an observer, unless there is one already. Takes no weight.
    pub fn on_initialize(&mut self, setup: Option<ObserverSetup<T::Client>>) -> (weight: u64)
        ensures
            weight == 0,
            final(self).registered() == old(self).registered(),
            final(self).deposited() == old(self).deposited(),
            prepared(old(self).current_observer(), setup, final(self).current_observer()),
    {
        if let Some(setup) = setup {
            self.ensure_observer(setup);
        }
        0
    }

    /// Registers a watch target on behalf of whoever signed the call, and tells the observer. A new
    /// observer is made as `setup` says where there is none yet; without a setup it stays so.
    pub fn register_watch_target(
        &mut self,
        origin: Origin,
        target: WatchTarget,
        setup: Option<ObserverSetup<T::Client>>,
    ) -> (r: Result<(), DispatchError<Error>>)
        ensures
            match refusal(origin, target@) {
                Some(e) => r == Err::<(), _>(e) && *final(self) == *old(self),
                None => {
                    &&& r is Ok
                    &&& final(self).registered() == with_target::<T::FrostHash>(
                        old(self).registered(),
                        target@,
                    )
                    &&& final(self).deposited().len() == old(self).deposited().len() + 1
                    &&& final(self).deposited().drop_last() == old(self).deposited()
                    &&& final(self).deposited().last() matches Event::WatchTargetRegistered {
                        target_hash,
                    } && target_hash@ == target_key::<T::FrostHash>(target@)
                    &&& informed(
                        old(self).current_observer(),
                        setup,
                        target@,
                        final(self).current_observer(),
                    )
                },
            },
    {
        proof {
            use_type_invariant(&*self);
        }
        let target_hash = match registration_key::<T::FrostHash>(origin, &target) {
            Ok(hash) => hash,
            Err(e) => {
                return Err(e);
            },
        };
        let ghost view = target@;
        let ghost before = self.watch_targets@;
        let copy = target.clone();

        let mut store: HashStore<WatchTarget> = HashStore::new();
        assert(stored_targets(store@) =~= Map::empty());
        std::mem::swap(&mut store, &mut self.watch_targets);
        store.insert(target_hash, copy);
        assert(stored_targets(store@) =~= with_target::<T::FrostHash>(
            stored_targets(before),
            view,
        ));
        self.watch_targets = store;

        if let Some(setup) = setup {
            self.ensure_observer(setup);
        }
        assert(prepared(old(self).current_observer(), setup, self.observer));
        let mut observer: Option<SSMPObserver<T>> = None;
        std::mem::swap(&mut observer, &mut self.observer);
        self.observer = match observer {
            Some(mut o) => {
                o.register_watch_target(target);
                Some(o)
            },
            None => None,
        };

        let mut events: Vec<Event> = Vec::new();
        std::mem::swap(&mut events, &mut self.events);
        let ghost told = events@;
        events.push(Event::WatchTargetRegistered { target_hash });
        assert(events@.drop_last() =~= told);
        self.events = events;
        Ok(())
    }
}

/// A registered target is found under its hash.
pub proof fn law_registered_target_is_found<H: FrostHash>(
    registered: Map<Seq<u8>, TargetView>,
    target: TargetView,
)
    ensures
        with_target::<H>(registered, target).contains_key(target_key::<H>(target)),
        with_target::<H>(registered, target)[target_key::<H>(target)] == target,
{
}

/// Registering a target leaves what is registered under other hashes as it was.
pub proof fn law_registration_keeps_others<H: FrostHash>(
    registered: Map<Seq<u8>, TargetView>,
    target: TargetView,
    key: Seq<u8>,
)
    requires
        key != target_key::<H>(target),
    ensures
        with_target::<H>(registered, target).contains_key(key) == registered.contains_key(key),
        registered.contains_key(key) ==> with_target::<H>(registered, target)[key]
            == registered[key],
{
}

/// Registering a target once more changes nothing.
pub proof fn law_registering_again_changes_nothing<H: FrostHash>(
    registered: Map<Seq<u8>, TargetView>,
    target: TargetView,
)
    ensures
        with_target::<H>(with_target::<H>(registered, target), target) == with_target::<H>(
            registered,
            target,
        ),
{
    assert(with_target::<H>(with_target::<H>(registered, target), target) =~= with_target::<H>(
        registered,
        target,
    ));
}

/// Registering a valid target keeps every target under its own hash.
pub proof fn law_registration_keeps_keys<H: FrostHash>(
    registered: Map<Seq<u8>, TargetView>,
    target: TargetView,
)
    requires
        well_keyed::<H>(registered),
        is_valid(target),
        target.within_bounds(),
    ensures
        well_keyed::<H>(with_target::<H>(registered, target)),
{
}

/// A different target takes the place of a registered one only where the hash function collides.
pub proof fn law_targets_clash_only_with_hashes<H: FrostHash>(
    registered: Map<Seq<u8>, TargetView>,
    target: TargetView,
)
    requires
        well_keyed::<H>(registered),
        target.within_bounds(),
        registered.contains_key(target_key::<H>(target)),
        registered[target_key::<H>(target)] != target,
    ensures
        ({
            let encoded = target::encoded_target(target);
            let other = target::encoded_target(registered[target_key::<H>(target)]);
            encoded != other && H::digest(encoded) == H::digest(other)
        }),
{
    let other = registered[target_key::<H>(target)];
    if target::encoded_target(target) == target::encoded_target(other) {
        target::law_encoding_tells_targets_apart(target, other);
    }
}

/// The observer learns of every target that is registered while it is there or can be made, after
/// those that it knows already.
pub proof fn law_registered_target_is_watched<T: Config>(
    before: Option<SSMPObserver<T>>,
    setup: Option<ObserverSetup<T::Client>>,
    target: TargetView,
    after: Option<SSMPObserver<T>>,
)
    requires
        before is Some || setup is Some,
        informed(before, setup, target, after),
    ensures
        after matches Some(observer) && observer.targets() == match before {
            Some(known) => known.targets().push(target),
            None => seq![target],
        },
{
    let ready = choose|ready: SSMPObserver<T>| #[trigger]
        prepared(before, setup, Some(ready)) && (after matches Some(observer) && {
            &&& observer.targets() == ready.targets().push(target)
            &&& observer.has_router() == ready.has_router()
            &&& observer.chain_client() == ready.chain_client()
            &&& observer.finality_predicate() == ready.finality_predicate()
            &&& observer.block_verifier() == ready.block_verifier()
        });
    if before is None {
        assert(ready.targets().push(target) =~= seq![target]);
    }
}

/// Any events can be held against a valid target, unless it looks for an empty message hash.
pub proof fn law_valid_targets_are_comparable(events: Seq<Seq<u8>>, target: TargetView)
    requires
        is_valid(target),
        target.message_hash matches Some(hash) ==> hash.len() > 0,
    ensures
        event::all_comparable(events, target),
{
}

/// A target is refused for its origin first, and then exactly where it names no module or no
/// function.
pub proof fn law_only_signed_calls_register_whole_targets(origin: Origin, target: TargetView)
    ensures
        !(origin is Signed) ==> refusal(origin, target) == Some(DispatchError::<Error>::BadOrigin),
        origin is Signed && (target.module_name.len() == 0 || target.function_name.len() == 0)
            ==> refusal(origin, target) == Some(DispatchError::Module(Error::InvalidWatchTarget)),
        origin is Signed && target.module_name.len() > 0 && target.function_name.len() > 0
            ==> refusal(origin, target) is None,
        is_valid(target) <==> target.module_name.len() > 0 && target.function_name.len() > 0,
{
}

/// A target is registered, as it is, under the hash of its whole encoding.
pub proof fn law_targets_are_keyed_by_their_encoding<H: FrostHash>(
    registered: Map<Seq<u8>, TargetView>,
    target: TargetView,
)
    ensures
        target_key::<H>(target) == H::digest(target::encoded_target(target)),
        with_target::<H>(registered, target) == registered.insert(
            H::digest(target::encoded_target(target)),
            target,
        ),
{
}

/// In a registry where every target is well keyed, what is found under a hash names a module and a
/// function, is within its bounds, and has that hash.
pub proof fn law_found_targets_have_their_hash<H: FrostHash>(
    registered: Map<Seq<u8>, TargetView>,
    key: Seq<u8>,
)
    requires
        well_keyed::<H>(registered),
        registered.contains_key(key),
    ensures
        key == H::digest(target::encoded_target(registered[key])),
        registered[key].module_name.len() > 0,
        registered[key].function_name.len() > 0,
        registered[key].module_name.len() <= 32,
        registered[key].function_name.len() <= 32,
        registered[key].target_chain.len() <= 32,
        registered[key].message_hash matches Some(hash) ==> hash.len() <= 64,
{
}

/// Stored targets are read as they are, each under its own hash.
pub proof fn law_stored_targets_are_read_as_they_are(
    store: Map<Seq<u8>, WatchTarget>,
    key: Seq<u8>,
)
    ensures
        stored_targets(store).contains_key(key) <==> store.contains_key(key),
        store.contains_key(key) ==> stored_targets(store)[key] == store[key]@,
{
}

/// An observer that is there stays as it is. Where there is none, one is made only of a setup: with
/// its client, its configuration and its router, for the default chain, without targets, voters or
/// kept statuses.
pub proof fn law_observers_are_made_once<T: Config>(
    before: Option<SSMPObserver<T>>,
    setup: Option<ObserverSetup<T::Client>>,
    after: Option<SSMPObserver<T>>,
)
    requires
        prepared(before, setup, after),
    ensures
        before is Some ==> after == before,
        before is None && setup is None ==> after is None,
        before is None ==> (setup matches Some(s) ==> (after matches Some(o) && {
            &&& o.targets().len() == 0
            &&& o.has_router() == s.has_router
            &&& o.chain_client() == s.client
            &&& o.finality_predicate().chain_client() == s.client
            &&& o.finality_predicate().predicate_config() == s.config
            &&& o.finality_predicate().voters().describes(Seq::empty())
            &&& o.block_verifier().chain_client() == s.client
            &&& o.block_verifier().config().chain_id@ == "substrate-default"@
            &&& o.block_verifier().config().network_type is Development
            &&& o.block_verifier().config().authority_set_id == 0
        })),
{
}

/// Registering a target adds it to the observer's targets, after the others, and leaves its router, its
/// client, its finality predicate and its verification client as they were.
pub proof fn law_registration_adds_one_target_only<T: Config>(
    before: SSMPObserver<T>,
    setup: Option<ObserverSetup<T::Client>>,
    target: TargetView,
    after: Option<SSMPObserver<T>>,
)
    requires
        informed(Some(before), setup, target, after),
    ensures
        after matches Some(o) && {
            &&& o.targets() == before.targets().push(target)
            &&& o.has_router() == before.has_router()
            &&& o.chain_client() == before.chain_client()
            &&& o.finality_predicate() == before.finality_predicate()
            &&& o.block_verifier() == before.block_verifier()
        },
{
}

/// Where there is no observer, registering a target makes one of the setup that watches for that target
/// alone, and none without a setup.
pub proof fn law_first_registration_makes_the_observer<T: Config>(
    setup: Option<ObserverSetup<T::Client>>,
    target: TargetView,
    after: Option<SSMPObserver<T>>,
)
    requires
        informed(None, setup, target, after),
    ensures
        setup is None ==> after is None,
        setup matches Some(s) ==> (after matches Some(o) && {
            &&& o.targets() == seq![target]
            &&& o.has_router() == s.has_router
            &&& o.chain_client() == s.client
            &&& o.finality_predicate().chain_client() == s.client
            &&& o.finality_predicate().predicate_config() == s.config
            &&& o.block_verifier().chain_client() == s.client
            &&& o.block_verifier().config().chain_id@ == "substrate-default"@
        }),
{
    if setup is Some {
        let ready = choose|ready: SSMPObserver<T>| #[trigger]
            prepared(None, setup, Some(ready)) && (after matches Some(observer) && {
                &&& observer.targets() == ready.targets().push(target)
                &&& observer.has_router() == ready.has_router()
                &&& observer.chain_client() == ready.chain_client()
                &&& observer.finality_predicate() == ready.finality_predicate()
                &&& observer.block_verifier() == ready.block_verifier()
            });
        law_observers_are_made_once(None, setup, Some(ready));
        assert(ready.targets().push(target) =~= seq![target]);
    }
}

/// A pallet watches for the targets of its observer, and for none without one.
pub proof fn law_pallets_watch_through_their_observer<T: Config>(pallet: Pallet<T>)
    ensures
        pallet.current_observer() matches Some(observer) ==> pallet.watched() == observer.targets(),
        pallet.current_observer() is None ==> pallet.watched().len() == 0,
{
}

} // verus!
