//! End-to-end scenarios of the engine's query, request and NAT behaviour.

use ursa_network::engine::{Behaviour, NetworkConfig};
use ursa_network::types::{
    AutonatEvent, BehaviourEvent, BitswapEvent, Cid, Delivery, NatStatus, RequestFailure,
    RequestResponseEvent, SubProtocolEvent,
};

fn engine_with(autonat: bool, relay_server: bool, relay_client: bool) -> Behaviour {
    let config = NetworkConfig { autonat, relay_server, relay_client };
    Behaviour::new(&config, relay_client).expect("valid configuration")
}

fn sample_cid() -> Cid {
    Cid { codec: 0x71, hash: vec![0xab, 0xcd, 0xef] }
}

#[test]
fn get_block_success_emits_exactly_one_outcome() {
    let mut engine = engine_with(false, false, false);
    let (handle, _action) = engine.get_block(sample_cid(), vec![11, 22]);

    let d = engine.handle_event(SubProtocolEvent::Bitswap(BitswapEvent::Complete {
        query_id: handle,
        succeeded: true,
    }));
    assert_eq!(d, None);

    match engine.poll() {
        Some(BehaviourEvent::Bitswap(info)) => {
            assert_eq!(info.cid, sample_cid());
            assert_eq!(info.query_id, handle);
            assert!(info.block_found);
        }
        other => panic!("expected the outcome event, got {:?}", other),
    }
    // Exactly one: the queue is drained and a repeated completion is an
    // orphan that emits nothing.
    assert_eq!(engine.poll(), None);
    engine.handle_event(SubProtocolEvent::Bitswap(BitswapEvent::Complete {
        query_id: handle,
        succeeded: true,
    }));
    assert_eq!(engine.poll(), None);
}

#[test]
fn failed_completion_reports_not_found() {
    let mut engine = engine_with(false, false, false);
    let (handle, _action) = engine.get_block(sample_cid(), vec![11]);
    engine.handle_event(SubProtocolEvent::Bitswap(BitswapEvent::Complete {
        query_id: handle,
        succeeded: false,
    }));
    match engine.poll() {
        Some(BehaviourEvent::Bitswap(info)) => {
            assert_eq!(info.query_id, handle);
            assert!(!info.block_found);
        }
        other => panic!("expected the outcome event, got {:?}", other),
    }
}

#[test]
fn send_request_failure_delivers_exactly_one_err() {
    let mut engine = engine_with(false, false, false);
    let channel = 77;
    let (request_id, _action) = engine.send_request(5, vec![1, 2, 3], channel);

    let d = engine.handle_event(SubProtocolEvent::RequestResponse(
        RequestResponseEvent::OutboundFailure {
            peer: 5,
            request_id,
            error: RequestFailure::Timeout,
        },
    ));
    assert_eq!(
        d,
        Some(Delivery { channel, result: Err(RequestFailure::Timeout) })
    );

    // A duplicate failure signal for the already-removed id produces no
    // further channel activity.
    let d2 = engine.handle_event(SubProtocolEvent::RequestResponse(
        RequestResponseEvent::OutboundFailure {
            peer: 5,
            request_id,
            error: RequestFailure::ConnectionClosed,
        },
    ));
    assert_eq!(d2, None);
}

#[test]
fn send_request_success_delivers_exactly_one_ok() {
    let mut engine = engine_with(false, false, false);
    let (request_id, _action) = engine.send_request(9, vec![4, 5], 31);
    let d = engine.handle_event(SubProtocolEvent::RequestResponse(
        RequestResponseEvent::Response { peer: 9, request_id, response: vec![6, 7] },
    ));
    assert_eq!(d, Some(Delivery { channel: 31, result: Ok(vec![6, 7]) }));
    let d2 = engine.handle_event(SubProtocolEvent::RequestResponse(
        RequestResponseEvent::Response { peer: 9, request_id, response: vec![6, 7] },
    ));
    assert_eq!(d2, None);
}

#[test]
fn nat_disabled_address_stays_absent() {
    let mut engine = engine_with(false, false, false);
    assert_eq!(engine.public_address(), None);
    // Even a simulated NAT event changes nothing while the capability is
    // disabled.
    engine.handle_event(SubProtocolEvent::Autonat(AutonatEvent::StatusChanged {
        previous: NatStatus::Unknown,
        current: NatStatus::Public(vec![9, 9, 9]),
    }));
    assert_eq!(engine.public_address(), None);
    assert_eq!(engine.poll(), None);
}

#[test]
fn nat_enabled_address_follows_status() {
    let mut engine = engine_with(true, false, false);
    assert_eq!(engine.public_address(), None);
    engine.handle_event(SubProtocolEvent::Autonat(AutonatEvent::StatusChanged {
        previous: NatStatus::Unknown,
        current: NatStatus::Public(vec![9, 8, 7]),
    }));
    assert_eq!(engine.public_address(), Some(vec![9, 8, 7]));
    match engine.poll() {
        Some(BehaviourEvent::NatStatusChanged { previous, current }) => {
            assert_eq!(previous, NatStatus::Unknown);
            assert_eq!(current, NatStatus::Public(vec![9, 8, 7]));
        }
        other => panic!("expected the NAT status event, got {:?}", other),
    }
    // Going private withdraws the address.
    engine.handle_event(SubProtocolEvent::Autonat(AutonatEvent::StatusChanged {
        previous: NatStatus::Public(vec![9, 8, 7]),
        current: NatStatus::Private,
    }));
    assert_eq!(engine.public_address(), None);
}

#[test]
fn cancel_then_completion_emits_nothing() {
    let mut engine = engine_with(false, false, false);
    let (handle, _action) = engine.get_block(sample_cid(), vec![11, 22]);
    engine.cancel(handle);
    let d = engine.handle_event(SubProtocolEvent::Bitswap(BitswapEvent::Complete {
        query_id: handle,
        succeeded: true,
    }));
    assert_eq!(d, None);
    assert_eq!(engine.poll(), None);
}

#[test]
fn cancel_is_idempotent() {
    let mut engine = engine_with(false, false, false);
    let (handle, _action) = engine.get_block(sample_cid(), vec![]);
    engine.cancel(handle);
    engine.cancel(handle);
    assert_eq!(engine.poll(), None);
}

#[test]
fn request_ids_are_never_reused_while_pending() {
    let mut engine = engine_with(false, false, false);
    let (a, _) = engine.send_request(1, vec![1], 100);
    let (b, _) = engine.send_request(2, vec![2], 200);
    assert_ne!(a, b);
    // Even after the first request resolves, fresh ids keep moving
    // forward: no id is handed out twice.
    engine.handle_event(SubProtocolEvent::RequestResponse(RequestResponseEvent::Response {
        peer: 1,
        request_id: a,
        response: vec![],
    }));
    let (c, _) = engine.send_request(3, vec![3], 300);
    assert_ne!(c, a);
    assert_ne!(c, b);
}

#[test]
fn sync_block_registers_like_get_block() {
    let mut engine = engine_with(false, false, false);
    let (handle, _action) = engine.sync_block(sample_cid(), vec![1]);
    engine.handle_event(SubProtocolEvent::Bitswap(BitswapEvent::Complete {
        query_id: handle,
        succeeded: true,
    }));
    match engine.poll() {
        Some(BehaviourEvent::Bitswap(info)) => assert!(info.block_found),
        other => panic!("expected the outcome event, got {:?}", other),
    }
}

#[test]
fn empty_provider_set_still_registers() {
    let mut engine = engine_with(false, false, false);
    let (handle, _action) = engine.get_block(sample_cid(), vec![]);
    engine.handle_event(SubProtocolEvent::Bitswap(BitswapEvent::Complete {
        query_id: handle,
        succeeded: false,
    }));
    assert!(matches!(engine.poll(), Some(BehaviourEvent::Bitswap(_))));
}

#[test]
fn handles_are_distinct_across_queries() {
    let mut engine = engine_with(false, false, false);
    let (a, _) = engine.get_block(sample_cid(), vec![1]);
    let (b, _) = engine.sync_block(sample_cid(), vec![1]);
    let (c, _) = engine.get_block(sample_cid(), vec![1]);
    assert_ne!(a, b);
    assert_ne!(b, c);
    assert_ne!(a, c);
}
