//! The engine's command surface, capability toggles and event
//! normalization.

use ursa_network::engine::{Behaviour, ConfigError, NetworkConfig, content_protocol_name};
use ursa_network::types::{
    Action, BehaviourEvent, DcutrEvent, DiscoveryEvent, GossipsubEvent, IdentifyEvent, PingEvent,
    PingResult, RelayClientEvent, RelayServerEvent, RequestResponseEvent, SubProtocolEvent,
    SubProtocolKind,
};
use ursa_network::ursa_agent;

fn fresh_engine(config: NetworkConfig, relay_client_present: bool) -> Behaviour {
    Behaviour::new(&config, relay_client_present).expect("valid configuration")
}

fn plain_engine() -> Behaviour {
    fresh_engine(
        NetworkConfig { autonat: false, relay_server: false, relay_client: false },
        false,
    )
}

#[test]
fn hole_punch_without_relay_client_is_rejected() {
    let config = NetworkConfig { autonat: true, relay_server: true, relay_client: true };
    match Behaviour::new(&config, false) {
        Err(ConfigError::RelayClientMissing) => {}
        Ok(_) => panic!("a conflicting configuration must be rejected"),
    }
}

#[test]
fn configured_toggles_are_reported() {
    let config = NetworkConfig { autonat: true, relay_server: false, relay_client: true };
    let engine = fresh_engine(config, true);
    assert!(engine.is_relay_client_enabled());
    let engine = plain_engine();
    assert!(!engine.is_relay_client_enabled());
}

#[test]
fn agent_string_names_the_network() {
    assert_eq!(ursa_agent(), "ursa/0.1.0");
}

#[test]
fn subscribe_reports_change_once() {
    let mut engine = plain_engine();
    let (changed, action) = engine.subscribe(b"blocks".to_vec());
    assert!(changed);
    assert_eq!(action, Action::Subscribe { topic: b"blocks".to_vec() });
    let (changed_again, _) = engine.subscribe(b"blocks".to_vec());
    assert!(!changed_again);
}

#[test]
fn unsubscribe_reports_change_once() {
    let mut engine = plain_engine();
    engine.subscribe(b"blocks".to_vec());
    let (removed, action) = engine.unsubscribe(b"blocks".to_vec());
    assert!(removed);
    assert_eq!(action, Action::Unsubscribe { topic: b"blocks".to_vec() });
    let (removed_again, _) = engine.unsubscribe(b"blocks".to_vec());
    assert!(!removed_again);
}

#[test]
fn publish_and_bootstrap_hand_back_their_actions() {
    let engine = plain_engine();
    let action = engine.publish(b"topic".to_vec(), vec![1, 2]);
    assert_eq!(action, Action::Publish { topic: b"topic".to_vec(), data: vec![1, 2] });
    assert_eq!(engine.bootstrap(), Action::Bootstrap);
}

#[test]
fn publish_ad_enqueues_start_publish() {
    let mut engine = plain_engine();
    engine.publish_ad(vec![4, 4, 4]);
    assert_eq!(
        engine.poll(),
        Some(BehaviourEvent::StartPublish { public_address: vec![4, 4, 4] })
    );
    assert_eq!(engine.poll(), None);
}

#[test]
fn events_drain_in_fifo_order() {
    let mut engine = plain_engine();
    engine.publish_ad(vec![1]);
    engine.publish_ad(vec![2]);
    assert_eq!(engine.poll(), Some(BehaviourEvent::StartPublish { public_address: vec![1] }));
    assert_eq!(engine.poll(), Some(BehaviourEvent::StartPublish { public_address: vec![2] }));
    assert_eq!(engine.poll(), None);
}

#[test]
fn discovery_events_track_the_peer_set() {
    let mut engine = plain_engine();
    engine.handle_event(SubProtocolEvent::Discovery(DiscoveryEvent::Connected(42)));
    assert_eq!(engine.poll(), Some(BehaviourEvent::PeerConnected(42)));
    assert_eq!(engine.peers(), vec![42]);
    // A repeated connect keeps the set duplicate-free.
    engine.handle_event(SubProtocolEvent::Discovery(DiscoveryEvent::Connected(42)));
    assert_eq!(engine.peers(), vec![42]);
    engine.handle_event(SubProtocolEvent::Discovery(DiscoveryEvent::Disconnected(42)));
    assert_eq!(engine.peers(), Vec::<u64>::new());
}

#[test]
fn identify_from_supporting_peer_promotes_it() {
    let mut engine = plain_engine();
    let protocols = vec![b"/other/1.0.0".to_vec(), content_protocol_name()];
    let addrs = vec![vec![10, 0, 0, 1], vec![10, 0, 0, 2]];
    engine.handle_event(SubProtocolEvent::Identify(IdentifyEvent::Received {
        peer_id: 7,
        protocols,
        listen_addrs: addrs.clone(),
    }));
    assert!(engine.gossip_peer_known(7));
    assert_eq!(engine.discovery_addresses(7), addrs);
    assert_eq!(engine.rpc_addresses(7), addrs);
    // Identification emits no outbound event.
    assert_eq!(engine.poll(), None);
}

#[test]
fn identify_without_content_protocol_changes_nothing() {
    let mut engine = plain_engine();
    engine.handle_event(SubProtocolEvent::Identify(IdentifyEvent::Received {
        peer_id: 7,
        protocols: vec![b"/other/1.0.0".to_vec()],
        listen_addrs: vec![vec![10, 0, 0, 1]],
    }));
    assert!(!engine.gossip_peer_known(7));
    assert_eq!(engine.discovery_addresses(7), Vec::<Vec<u8>>::new());
    assert_eq!(engine.rpc_addresses(7), Vec::<Vec<u8>>::new());
}

#[test]
fn identify_with_empty_info_changes_nothing() {
    let mut engine = plain_engine();
    engine.handle_event(SubProtocolEvent::Identify(IdentifyEvent::Received {
        peer_id: 3,
        protocols: vec![],
        listen_addrs: vec![],
    }));
    assert!(!engine.gossip_peer_known(3));
}

#[test]
fn reidentify_registers_no_duplicate_addresses() {
    let mut engine = plain_engine();
    let protocols = vec![content_protocol_name()];
    let addrs = vec![vec![10, 0, 0, 1]];
    engine.handle_event(SubProtocolEvent::Identify(IdentifyEvent::Received {
        peer_id: 7,
        protocols: protocols.clone(),
        listen_addrs: addrs.clone(),
    }));
    engine.handle_event(SubProtocolEvent::Identify(IdentifyEvent::Received {
        peer_id: 7,
        protocols,
        listen_addrs: addrs.clone(),
    }));
    assert_eq!(engine.discovery_addresses(7), addrs);
    assert_eq!(engine.rpc_addresses(7), addrs);
}

#[test]
fn identify_other_variants_are_ignored() {
    let mut engine = plain_engine();
    engine.handle_event(SubProtocolEvent::Identify(IdentifyEvent::Sent { peer_id: 1 }));
    engine.handle_event(SubProtocolEvent::Identify(IdentifyEvent::Pushed { peer_id: 1 }));
    engine.handle_event(SubProtocolEvent::Identify(IdentifyEvent::Error { peer_id: 1 }));
    assert_eq!(engine.poll(), None);
}

#[test]
fn relay_server_events_are_normalized() {
    let config = NetworkConfig { autonat: false, relay_server: true, relay_client: false };
    let mut engine = fresh_engine(config, false);
    engine.handle_event(SubProtocolEvent::RelayServer(
        RelayServerEvent::ReservationReqAccepted { src_peer_id: 5, renewed: false },
    ));
    assert_eq!(engine.poll(), Some(BehaviourEvent::RelayReservationOpened { peer_id: 5 }));
    // A renewal is not re-announced.
    engine.handle_event(SubProtocolEvent::RelayServer(
        RelayServerEvent::ReservationReqAccepted { src_peer_id: 5, renewed: true },
    ));
    assert_eq!(engine.poll(), None);
    engine.handle_event(SubProtocolEvent::RelayServer(RelayServerEvent::ReservationTimedOut {
        src_peer_id: 5,
    }));
    assert_eq!(engine.poll(), Some(BehaviourEvent::RelayReservationClosed { peer_id: 5 }));
    engine.handle_event(SubProtocolEvent::RelayServer(RelayServerEvent::CircuitReqAccepted));
    assert_eq!(engine.poll(), Some(BehaviourEvent::RelayCircuitOpened));
    engine.handle_event(SubProtocolEvent::RelayServer(RelayServerEvent::CircuitClosed));
    assert_eq!(engine.poll(), Some(BehaviourEvent::RelayCircuitClosed));
}

#[test]
fn relay_server_disabled_drops_events() {
    let mut engine = plain_engine();
    engine.handle_event(SubProtocolEvent::RelayServer(
        RelayServerEvent::ReservationReqAccepted { src_peer_id: 5, renewed: false },
    ));
    assert_eq!(engine.poll(), None);
}

#[test]
fn diagnostic_events_emit_nothing() {
    let mut engine = plain_engine();
    engine.handle_event(SubProtocolEvent::Ping(PingEvent { peer: 1, result: PingResult::Pong }));
    engine.handle_event(SubProtocolEvent::Ping(PingEvent {
        peer: 1,
        result: PingResult::Timeout,
    }));
    engine.handle_event(SubProtocolEvent::RelayClient(RelayClientEvent::Other));
    engine.handle_event(SubProtocolEvent::Dcutr(DcutrEvent { remote_peer_id: 2 }));
    assert_eq!(engine.poll(), None);
}

#[test]
fn gossip_message_is_forwarded() {
    let mut engine = plain_engine();
    engine.handle_event(SubProtocolEvent::Gossipsub(GossipsubEvent::Message {
        propagation_source: 8,
        topic: b"blocks".to_vec(),
        data: vec![1, 2, 3],
    }));
    assert_eq!(
        engine.poll(),
        Some(BehaviourEvent::GossipMessage {
            peer: 8,
            topic: b"blocks".to_vec(),
            message: vec![1, 2, 3],
        })
    );
    // Remote subscription changes are diagnostic only.
    engine.handle_event(SubProtocolEvent::Gossipsub(GossipsubEvent::Subscribed {
        peer_id: 8,
        topic: b"blocks".to_vec(),
    }));
    assert_eq!(engine.poll(), None);
}

#[test]
fn inbound_request_carries_its_reply_token() {
    let mut engine = plain_engine();
    let d = engine.handle_event(SubProtocolEvent::RequestResponse(
        RequestResponseEvent::Request { peer: 4, request_id: 90, request: vec![7], channel: 13 },
    ));
    assert_eq!(d, None);
    assert_eq!(
        engine.poll(),
        Some(BehaviourEvent::RequestMessage { peer: 4, request: vec![7], channel: 13 })
    );
}

#[test]
fn observational_rpc_events_change_nothing() {
    let mut engine = plain_engine();
    let d = engine.handle_event(SubProtocolEvent::RequestResponse(
        RequestResponseEvent::ResponseSent { peer: 4, request_id: 90 },
    ));
    assert_eq!(d, None);
    let d = engine.handle_event(SubProtocolEvent::RequestResponse(
        RequestResponseEvent::InboundFailure {
            peer: 4,
            request_id: 90,
            error: ursa_network::types::RequestFailure::Timeout,
        },
    ));
    assert_eq!(d, None);
    assert_eq!(engine.poll(), None);
}

#[test]
fn poll_plan_with_everything_enabled() {
    let config = NetworkConfig { autonat: true, relay_server: true, relay_client: true };
    let engine = fresh_engine(config, true);
    assert_eq!(
        engine.poll_plan(),
        vec![
            SubProtocolKind::Ping,
            SubProtocolKind::Identify,
            SubProtocolKind::Autonat,
            SubProtocolKind::RelayClient,
            SubProtocolKind::RelayServer,
            SubProtocolKind::Dcutr,
            SubProtocolKind::Bitswap,
            SubProtocolKind::Gossipsub,
            SubProtocolKind::Discovery,
            SubProtocolKind::RequestResponse,
        ]
    );
}

#[test]
fn poll_plan_skips_disabled_capabilities() {
    let engine = plain_engine();
    assert_eq!(
        engine.poll_plan(),
        vec![
            SubProtocolKind::Ping,
            SubProtocolKind::Identify,
            SubProtocolKind::Bitswap,
            SubProtocolKind::Gossipsub,
            SubProtocolKind::Discovery,
            SubProtocolKind::RequestResponse,
        ]
    );
}

#[test]
fn content_protocol_is_the_network_path() {
    assert_eq!(content_protocol_name(), b"/ursa/kad/0.0.1".to_vec());
}
