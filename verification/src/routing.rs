//! Routing of messages to peers.

use std::sync::Arc;

use vstd::prelude::*;

use crate::message::FrostMessage;
use crate::state::ChainId;

verus! {

/// How the protocol reaches its peers.
#[derive(Debug)]
pub struct ProtocolConfig {
    pub listen_addr: String,
    pub bootstrap_peers: Vec<String>,
}

/// How a peer-to-peer node is run.
#[derive(Debug)]
pub struct P2PConfig {
    pub listen_addresses: Vec<String>,
    pub bootstrap_peers: Vec<String>,
    /// In seconds.
    pub connection_timeout: u64,
    pub max_connections: u32,
    pub enable_nat: bool,
    pub enable_mdns: bool,
}

/// For how long a connection may take to come about, in seconds.
pub const CONNECTION_TIMEOUT: u64 = 30;

/// The number of connections that a node keeps at most.
pub const MAX_CONNECTIONS: u32 = 50;

/// The time that a message takes for one hop, in seconds.
pub const SECONDS_PER_HOP: u64 = 2;

/// A peer that a node is connected to.
#[derive(Debug)]
pub struct Peer {
    pub id: String,
    pub address: String,
}

fn copied_strings(strings: &Vec<String>) -> (r: Vec<String>)
    ensures
        r@ == strings@,
{
    let mut r: Vec<String> = Vec::new();
    let mut i: usize = 0;
    while i < strings.len()
        invariant
            i <= strings@.len(),
            r@ == strings@.take(i as int),
        decreases strings@.len() - i,
    {
        r.push(strings[i].clone());
        assert(r@ =~= strings@.take(i + 1));
        i += 1;
    }
    assert(r@ =~= strings@);
    r
}

/// The network of a runtime, as far as it is configured.
#[derive(Debug)]
pub struct SubstrateNetwork {
    config: ProtocolConfig,
}

impl SubstrateNetwork {
    /// How the network reaches its peers.
    pub closed spec fn protocol_config(&self) -> ProtocolConfig {
        self.config
    }

    /// The network with the given configuration, and how its node is run.
    pub fn new(config: ProtocolConfig) -> (r: (Self, P2PConfig))
        ensures
            r.0.protocol_config() == config,
            r.1.listen_addresses@ == seq![config.listen_addr],
            r.1.bootstrap_peers@ == config.bootstrap_peers@,
            r.1.connection_timeout == CONNECTION_TIMEOUT,
            r.1.connection_timeout == 30,
            r.1.max_connections == MAX_CONNECTIONS,
            r.1.max_connections == 50,
            r.1.enable_nat,
            r.1.enable_mdns,
    {
        let mut listen_addresses: Vec<String> = Vec::new();
        listen_addresses.push(config.listen_addr.clone());
        assert(listen_addresses@ =~= seq![config.listen_addr]);
        let node = P2PConfig {
            listen_addresses,
            bootstrap_peers: copied_strings(&config.bootstrap_peers),
            connection_timeout: CONNECTION_TIMEOUT,
            max_connections: MAX_CONNECTIONS,
            enable_nat: true,
            enable_mdns: true,
        };
        (SubstrateNetwork { config }, node)
    }

    /// How the network reaches its peers.
    pub fn config(&self) -> (r: &ProtocolConfig)
        ensures
            *r == self.protocol_config(),
    {
        &self.config
    }

    /// The addresses of the connected peers.
    pub fn get_peers(&self, connected: Vec<Peer>) -> (r: Vec<String>)
        ensures
            r@ == connected@.map_values(|p: Peer| p.address),
    {
        let mut r: Vec<String> = Vec::new();
        let mut i: usize = 0;
        while i < connected.len()
            invariant
                i <= connected@.len(),
                r@.len() == i,
                forall|j: int| 0 <= j < i ==> r@[j] == connected@[j].address,
            decreases connected@.len() - i,
        {
            r.push(connected[i].address.clone());
            i += 1;
        }
        assert(r@ =~= connected@.map_values(|p: Peer| p.address));
        r
    }
}

/// How far a message has come.
#[derive(Clone, Copy, Debug, PartialEq, Eq, Structural)]
pub enum RouteState {
    InProgress,
    Completed,
}

/// The identifier of a routed message.
pub type MessageId = [u8; 16];

/// Where a routed message stands.
#[derive(Debug)]
pub struct RouteStatus {
    pub message_id: MessageId,
    pub route: Vec<ChainId>,
    pub current_hop: usize,
    /// In seconds.
    pub estimated_time: u64,
    pub state: RouteState,
}

/// The routes so far.
#[derive(Clone, Copy, Debug, PartialEq, Eq, Structural)]
pub struct RouteMetrics {
    pub active_routes: u64,
    pub completed_routes: u64,
    pub failed_routes: u64,
}

impl Default for RouteMetrics {
    fn default() -> (r: Self)
        ensures
            r == (RouteMetrics { active_routes: 0, completed_routes: 0, failed_routes: 0 }),
    {
        RouteMetrics { active_routes: 0, completed_routes: 0, failed_routes: 0 }
    }
}

/// The routes after one more message was sent to its first hop.
pub open spec fn one_more(metrics: RouteMetrics) -> RouteMetrics {
    RouteMetrics {
        active_routes: (metrics.active_routes + 1) as u64,
        completed_routes: (metrics.completed_routes + 1) as u64,
        failed_routes: metrics.failed_routes,
    }
}

/// What is to be done with a message.
#[derive(Debug)]
pub enum Dispatch {
    /// Broadcast it to all peers.
    Broadcast,
    /// Send it to the peer with this name.
    SendTo(String),
}

/// Routes messages over a network.
pub struct SubstrateRouter {
    network: Arc<SubstrateNetwork>,
    metrics: RouteMetrics,
}

impl SubstrateRouter {
    /// The network.
    pub closed spec fn routed_over(&self) -> Arc<SubstrateNetwork> {
        self.network
    }

    /// The routes so far.
    pub closed spec fn route_metrics(&self) -> RouteMetrics {
        self.metrics
    }

    /// A router over the given network that has routed nothing yet.
    pub fn new(network: Arc<SubstrateNetwork>) -> (r: Self)
        ensures
            r.routed_over() == network,
            r.route_metrics() == (RouteMetrics {
                active_routes: 0,
                completed_routes: 0,
                failed_routes: 0,
            }),
    {
        SubstrateRouter { network, metrics: RouteMetrics::default() }
    }

    /// The network.
    pub fn network(&self) -> (r: &Arc<SubstrateNetwork>)
        ensures
            *r == self.routed_over(),
    {
        &self.network
    }

    /// The routes so far.
    pub fn get_metrics(&self) -> (r: RouteMetrics)
        ensures
            r == self.route_metrics(),
    {
        self.metrics
    }

    /// Between which chains a message is routed; a message without target goes to the chain
    /// without name.
    pub fn ends(&self, message: &FrostMessage) -> (r: (ChainId, ChainId))
        ensures
            r.0.id@ == message@.source_chain,
            r.1.id@ == match message@.target_chain {
                Some(chain) => chain,
                None => Seq::empty(),
            },
    {
        let target = match &message.target_chain {
            Some(chain) => chain.clone(),
            None => ChainId::default(),
        };
        (message.source_chain.clone(), target)
    }

    /// What is to be done with a message that has the given route: it goes to the first hop, or to
    /// all peers where there is no route.
    pub fn dispatch(&self, route: &Vec<ChainId>) -> (r: Dispatch)
        ensures
            if route@.len() == 0 {
                r is Broadcast
            } else {
                r matches Dispatch::SendTo(peer) && peer == route@[0].id
            },
    {
        if route.len() == 0 {
            Dispatch::Broadcast
        } else {
            Dispatch::SendTo(route[0].id.clone())
        }
    }

    /// Where a message stands once it was broadcast or sent as the route asks, and counts it where
    /// it was sent to a first hop. A message that could not be sent counts as nothing.
    pub fn route_message<E>(
        &mut self,
        message_id: MessageId,
        route: Vec<ChainId>,
        sent: Result<(), E>,
    ) -> (r: Result<RouteStatus, E>)
        requires
            sent is Ok && route@.len() > 0 ==> {
                &&& route@.len() * SECONDS_PER_HOP <= u64::MAX
                &&& old(self).route_metrics().active_routes < u64::MAX
                &&& old(self).route_metrics().completed_routes < u64::MAX
            },
        ensures
            final(self).routed_over() == old(self).routed_over(),
            match sent {
                Err(e) => r == Err::<RouteStatus, E>(e) && final(self).route_metrics() == old(
                    self).route_metrics(),
                Ok(_) => r matches Ok(status) && {
                    &&& status.message_id == message_id
                    &&& status.route == route
                    &&& status.estimated_time == route@.len() * SECONDS_PER_HOP
                    &&& status.estimated_time == route@.len() * 2
                    &&& if route@.len() == 0 {
                        &&& status.current_hop == 0
                        &&& status.state == RouteState::Completed
                        &&& final(self).route_metrics() == old(self).route_metrics()
                    } else {
                        &&& status.current_hop == 1
                        &&& status.state == RouteState::InProgress
                        &&& final(self).route_metrics() == one_more(old(self).route_metrics())
                    }
                },
            },
    {
        if let Err(e) = sent {
            return Err(e);
        }
        if route.len() == 0 {
            return Ok(
                RouteStatus {
                    message_id,
                    route,
                    current_hop: 0,
                    estimated_time: 0,
                    state: RouteState::Completed,
                },
            );
        }
        self.metrics.active_routes = self.metrics.active_routes + 1;
        self.metrics.completed_routes = self.metrics.completed_routes + 1;
        let estimated_time: u64 = route.len() as u64 * SECONDS_PER_HOP;
        Ok(
            RouteStatus {
                message_id,
                route,
                current_hop: 1,
                estimated_time,
                state: RouteState::InProgress,
            },
        )
    }
}

/// The routes after a number of messages were sent to their first hops.
pub open spec fn after_many(metrics: RouteMetrics, sent: nat) -> RouteMetrics
    decreases sent,
{
    if sent == 0 {
        metrics
    } else {
        one_more(after_many(metrics, (sent - 1) as nat))
    }
}

/// Every message that went to a first hop is counted once, as active and as completed; failures
/// are never counted.
pub proof fn law_routed_messages_are_counted(metrics: RouteMetrics, sent: nat)
    requires
        metrics.active_routes + sent <= u64::MAX,
        metrics.completed_routes + sent <= u64::MAX,
    ensures
        after_many(metrics, sent).active_routes == metrics.active_routes + sent,
        after_many(metrics, sent).completed_routes == metrics.completed_routes + sent,
        after_many(metrics, sent).failed_routes == metrics.failed_routes,
    decreases sent,
{
    if sent > 0 {
        law_routed_messages_are_counted(metrics, (sent - 1) as nat);
    }
}

/// A message that went to a first hop counts once as active and once as completed, and never as
/// failed.
pub proof fn law_one_message_counts_once(metrics: RouteMetrics)
    requires
        metrics.active_routes < u64::MAX,
        metrics.completed_routes < u64::MAX,
    ensures
        one_more(metrics).active_routes == metrics.active_routes + 1,
        one_more(metrics).completed_routes == metrics.completed_routes + 1,
        one_more(metrics).failed_routes == metrics.failed_routes,
{
}

} // verus!
