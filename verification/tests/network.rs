use std::collections::HashMap;

use frost_substrate::error::ProtocolError;
use frost_substrate::message::{FrostMessage, MessageType};
use frost_substrate::routing::{
    Dispatch, P2PConfig, Peer, ProtocolConfig, RouteState, RouteStatus, SubstrateNetwork,
    SubstrateRouter,
};
use frost_substrate::state::ChainId;
use std::sync::{Arc, Mutex};

struct PeerInfo {
    address: String,
}

#[derive(Default)]
struct MockNetworkProtocol {
    peers: Mutex<HashMap<String, PeerInfo>>,
    messages: Mutex<Vec<FrostMessage>>,
    running: bool,
}

impl MockNetworkProtocol {
    fn start(&mut self) -> Result<(), ProtocolError> {
        self.running = true;
        Ok(())
    }

    fn stop(&mut self) -> Result<(), ProtocolError> {
        self.running = false;
        Ok(())
    }

    fn send_to(&self, _target: &str, message: FrostMessage) -> Result<(), ProtocolError> {
        self.messages.lock().unwrap().push(message);
        Ok(())
    }

    fn add_peer(&self, peer_id: &str) -> Result<(), ProtocolError> {
        let info = PeerInfo { address: format!("mock://{}", peer_id) };
        self.peers.lock().unwrap().insert(peer_id.to_string(), info);
        Ok(())
    }

    fn get_sent_messages(&self) -> Vec<FrostMessage> {
        self.messages.lock().unwrap().clone()
    }

    fn is_running(&self) -> bool {
        self.running
    }
}

struct MockRouter {
    network: MockNetworkProtocol,
    router: SubstrateRouter,
}

impl Default for MockRouter {
    fn default() -> Self {
        let config = ProtocolConfig { listen_addr: String::new(), bootstrap_peers: Vec::new() };
        let (network, _) = SubstrateNetwork::new(config);
        MockRouter {
            network: MockNetworkProtocol::default(),
            router: SubstrateRouter::new(Arc::new(network)),
        }
    }
}

impl MockRouter {
    fn route_message(&mut self, message: FrostMessage) -> Result<RouteStatus, ProtocolError> {
        let sent = self.network.send_to("default_target", message);
        self.router.route_message([7; 16], vec![], sent)
    }

    fn get_route(&self, from: ChainId, to: ChainId) -> Result<Vec<ChainId>, ProtocolError> {
        Ok(vec![from, to])
    }
}

fn sample_message() -> FrostMessage {
    FrostMessage::new(MessageType::StateTransition, vec![1, 2, 3], "source".to_string(), None)
}

#[test]
fn test_network_protocol_lifecycle() {
    let mut network = MockNetworkProtocol::default();

    let result = network.start();
    assert!(result.is_ok());
    assert!(network.is_running());

    let result = network.stop();
    assert!(result.is_ok());
    assert!(!network.is_running());
}

#[test]
fn test_router_message_routing() {
    let mut router = MockRouter::default();
    let message = sample_message();

    let result = router.route_message(message.clone());
    assert!(result.is_ok());
    let status = result.unwrap();
    assert!(status.route.is_empty());
    assert_eq!(status.current_hop, 0);
    assert_eq!(status.estimated_time, 0);
    assert_eq!(status.state, RouteState::Completed);

    let messages = router.network.get_sent_messages();
    assert_eq!(messages.len(), 1);
    assert_eq!(messages[0].payload, message.payload);
}

#[test]
fn test_router_get_peers() {
    let router = MockRouter::default();

    router.network.add_peer("peer1").unwrap();
    router.network.add_peer("peer2").unwrap();
    assert_eq!(router.network.peers.lock().unwrap()["peer1"].address, "mock://peer1");

    let route = router.get_route(ChainId::new("1"), ChainId::new("2")).unwrap();
    assert_eq!(route.len(), 2);
    assert!(route[0] == ChainId::new("1"));
    assert!(route[1] == ChainId::new("2"));
}

fn network() -> (SubstrateNetwork, P2PConfig) {
    SubstrateNetwork::new(ProtocolConfig {
        listen_addr: "/ip4/0.0.0.0/tcp/30333".to_string(),
        bootstrap_peers: vec!["a".to_string(), "b".to_string()],
    })
}

#[test]
fn node_configuration_follows_protocol_configuration() {
    let (network, node) = network();
    assert_eq!(node.listen_addresses, vec!["/ip4/0.0.0.0/tcp/30333".to_string()]);
    assert_eq!(node.bootstrap_peers, vec!["a".to_string(), "b".to_string()]);
    assert_eq!(node.connection_timeout, 30);
    assert_eq!(node.max_connections, 50);
    assert!(node.enable_nat);
    assert!(node.enable_mdns);
    assert_eq!(network.config().bootstrap_peers.len(), 2);
}

#[test]
fn peers_are_given_by_address() {
    let (network, _) = network();
    let peers = vec![
        Peer { id: "p".to_string(), address: "x".to_string() },
        Peer { id: "q".to_string(), address: "y".to_string() },
    ];
    assert_eq!(network.get_peers(peers), vec!["x".to_string(), "y".to_string()]);
    assert!(network.get_peers(vec![]).is_empty());
}

#[test]
fn router_sends_to_first_hop_and_counts() {
    let (network, _) = network();
    let mut router = SubstrateRouter::new(Arc::new(network));
    let route = vec![ChainId::new("near"), ChainId::new("far"), ChainId::new("end")];
    match router.dispatch(&route) {
        Dispatch::SendTo(peer) => assert_eq!(peer, "near"),
        Dispatch::Broadcast => panic!("there is a route"),
    }
    let status = router.route_message::<()>([1; 16], route, Ok(())).unwrap();
    assert_eq!(status.message_id, [1; 16]);
    assert_eq!(status.route.len(), 3);
    assert_eq!(status.current_hop, 1);
    assert_eq!(status.estimated_time, 6);
    assert_eq!(status.state, RouteState::InProgress);
    let metrics = router.get_metrics();
    assert_eq!(metrics.active_routes, 1);
    assert_eq!(metrics.completed_routes, 1);
    assert_eq!(metrics.failed_routes, 0);
}

#[test]
fn router_broadcasts_without_route_and_counts_nothing() {
    let (network, _) = network();
    let mut router = SubstrateRouter::new(Arc::new(network));
    assert!(matches!(router.dispatch(&vec![]), Dispatch::Broadcast));
    let status = router.route_message::<()>([2; 16], vec![], Ok(())).unwrap();
    assert_eq!(status.state, RouteState::Completed);
    assert_eq!(router.get_metrics().active_routes, 0);
    let failed = router.route_message([3; 16], vec![ChainId::new("x")], Err("down"));
    assert_eq!(failed.err(), Some("down"));
    assert_eq!(router.get_metrics().completed_routes, 0);
}

#[test]
fn every_routed_message_is_counted() {
    let (network, _) = network();
    let mut router = SubstrateRouter::new(Arc::new(network));
    for i in 0..5u8 {
        let status = router.route_message::<()>([i; 16], vec![ChainId::new("x")], Ok(()));
        assert!(status.is_ok());
    }
    assert_eq!(router.get_metrics().active_routes, 5);
    assert_eq!(router.get_metrics().completed_routes, 5);
}

#[test]
fn messages_without_target_go_to_the_unnamed_chain() {
    let (network, _) = network();
    let router = SubstrateRouter::new(Arc::new(network));
    let (from, to) = router.ends(&sample_message());
    assert_eq!(from.as_str(), "source");
    assert_eq!(to.as_str(), "");
    let message =
        FrostMessage::new(MessageType::StateProof, vec![], "s".to_string(), Some("t".to_string()));
    assert_eq!(router.ends(&message).1.as_str(), "t");
}
