//! The engine's components taken one by one: registry, correlator, peer
//! tables, byte helpers and the gateway types.

use ursa_network::api::{
    NetworkError, NetworkGetFileParams, NetworkGetParams, NetworkPutFileParams, ProviderError,
};
use ursa_network::bridge::PeerTables;
use ursa_network::bytes::{bytes_eq, copy_bytes, copy_cid, list_contains};
use ursa_network::capability::Capability;
use ursa_network::correlator::RequestResponseCorrelator;
use ursa_network::registry::BlockExchangeRegistry;
use ursa_network::types::{BitswapInfo, Cid};

#[test]
fn registry_completion_is_terminal() {
    let mut registry = BlockExchangeRegistry::new();
    let cid = Cid { codec: 1, hash: vec![9] };
    let handle = registry.register(cid.clone());
    assert!(registry.contains(handle));
    let outcome = registry.complete(handle, true);
    assert_eq!(
        outcome,
        Some(BitswapInfo { cid, query_id: handle, block_found: true })
    );
    assert!(!registry.contains(handle));
    // The second completion is an orphan.
    assert_eq!(registry.complete(handle, true), None);
}

#[test]
fn registry_cancel_drops_the_entry() {
    let mut registry = BlockExchangeRegistry::new();
    let handle = registry.register(Cid { codec: 1, hash: vec![9] });
    registry.cancel(handle);
    assert!(!registry.contains(handle));
    assert_eq!(registry.complete(handle, true), None);
}

#[test]
fn registry_failure_sets_found_false() {
    let mut registry = BlockExchangeRegistry::new();
    let handle = registry.register(Cid { codec: 1, hash: vec![9] });
    let outcome = registry.complete(handle, false).expect("registered handle");
    assert!(!outcome.block_found);
}

#[test]
fn correlator_resolves_each_id_once() {
    let mut correlator = RequestResponseCorrelator::new();
    let a = correlator.send(500);
    let b = correlator.send(600);
    assert_ne!(a, b);
    assert!(correlator.contains(a));
    assert_eq!(correlator.resolve(a), Some(500));
    assert!(!correlator.contains(a));
    assert_eq!(correlator.resolve(a), None);
    assert_eq!(correlator.resolve(b), Some(600));
}

#[test]
fn correlator_ignores_unknown_ids() {
    let mut correlator = RequestResponseCorrelator::new();
    assert_eq!(correlator.resolve(12345), None);
}

#[test]
fn tables_promote_only_supporting_peers() {
    let mut tables = PeerTables::new();
    let protocol = b"/net/1".to_vec();
    tables.promote(1, vec![b"/net/1".to_vec()], vec![vec![1, 1]], &protocol);
    tables.promote(2, vec![b"/elsewhere/9".to_vec()], vec![vec![2, 2]], &protocol);
    assert!(tables.gossip_contains(1));
    assert!(!tables.gossip_contains(2));
    assert_eq!(tables.discovery_addresses(1), vec![vec![1, 1]]);
    assert_eq!(tables.discovery_addresses(2), Vec::<Vec<u8>>::new());
    assert_eq!(tables.rpc_addresses(1), vec![vec![1, 1]]);
}

#[test]
fn tables_merge_addresses_without_duplicates() {
    let mut tables = PeerTables::new();
    let protocol = b"/net/1".to_vec();
    tables.promote(1, vec![protocol.clone()], vec![vec![1], vec![2]], &protocol);
    tables.promote(1, vec![protocol.clone()], vec![vec![2], vec![3]], &protocol);
    assert_eq!(tables.discovery_addresses(1), vec![vec![1], vec![2], vec![3]]);
}

#[test]
fn byte_helpers_compare_and_copy() {
    let a = vec![1u8, 2, 3];
    assert_eq!(copy_bytes(&a), a);
    assert!(bytes_eq(&a, &vec![1, 2, 3]));
    assert!(!bytes_eq(&a, &vec![1, 2]));
    assert!(!bytes_eq(&a, &vec![1, 2, 4]));
    let list = vec![vec![1u8], vec![2u8]];
    assert!(list_contains(&list, &vec![2]));
    assert!(!list_contains(&list, &vec![3]));
    let cid = Cid { codec: 0x71, hash: vec![5, 6] };
    assert_eq!(copy_cid(&cid), cid);
}

#[test]
fn capability_reports_presence() {
    let enabled: Capability<u8> = Capability::Enabled(3);
    let disabled: Capability<u8> = Capability::Disabled;
    assert!(enabled.is_enabled());
    assert!(!disabled.is_enabled());
}

#[test]
fn gateway_errors_map_to_status_codes() {
    let missing = NetworkError::NotFoundError("no such block".to_string());
    assert_eq!(missing.status_code(), 404);
    assert_eq!(missing.message(), "no such block");
    let broken = NetworkError::InternalError("store failure".to_string());
    assert_eq!(broken.status_code(), 500);
    assert_eq!(broken.message(), "store failure");
    let no_head = ProviderError::NotFoundError("no head found".to_string());
    assert_eq!(no_head.status_code(), 404);
    assert_eq!(no_head.message(), "no head found");
    let bad = ProviderError::InternalError("bad chunk".to_string());
    assert_eq!(bad.status_code(), 500);
}

#[test]
fn gateway_params_carry_plain_values() {
    let get = NetworkGetParams { cid: "bafyexample".to_string() };
    assert_eq!(get.cid, "bafyexample");
    let put_file = NetworkPutFileParams { path: "/tmp/data.car".to_string() };
    assert_eq!(put_file.path, "/tmp/data.car");
    let get_file = NetworkGetFileParams {
        path: "/tmp/out".to_string(),
        cid: "bafyexample".to_string(),
    };
    assert_eq!(get_file.path, "/tmp/out");
    assert_eq!(get_file.cid, "bafyexample");
}
