//! Composite peer-protocol engine.
//!
//! Owns the block-exchange query registry, the request/response correlator,
//! the peer discovery bridge's tables, the capability toggles and the
//! outbound event queue.  External actors call the synchronous command
//! surface; the driving executor polls each enabled sub-protocol in a fixed
//! order, hands their native events to the engine, performs the actions the
//! engine decides on, and drains the unified event queue one event per poll
//! in FIFO order.

use vstd::prelude::*;
use crate::bridge::{PeerTables, advertises, known_addrs, merge_addrs};
use crate::bytes::{bytes_eq, bytes_list_view, copy_bytes, copy_cid, list_contains};
use crate::capability::{Capability, NatState, nat_public_address, opt_address_view};
use crate::correlator::{
    CorrelatorModel, RequestResponseCorrelator, correlator_can_issue, correlator_init,
    correlator_resolve, correlator_resolve_channel, correlator_send,
};
use crate::registry::{
    BlockExchangeRegistry, RegistryModel, registry_can_issue, registry_cancel, registry_complete,
    registry_complete_outcome, registry_init, registry_register,
};
use crate::types::{
    Action, ActionView, Address, AutonatEvent, BehaviourEvent, BitswapEvent, Cid, DcutrEvent,
    Delivery, DeliveryView, DiscoveryEvent, EventView, GossipsubEvent, IdentifyEvent, NatStatus,
    PeerId, PingEvent, RelayClientEvent, RelayServerEvent, RequestResponseEvent, SubProtocolEvent,
    SubProtocolKind, opt_view,
};

verus! {

/// Construction-time configuration of the optional sub-protocols.
#[derive(Clone, Copy, Debug, PartialEq, Eq)]
pub struct NetworkConfig {
    /// Enable NAT-reachability detection.
    pub autonat: bool,
    /// Enable the relay server.
    pub relay_server: bool,
    /// Enable relay-client assistance, and with it hole punching.
    pub relay_client: bool,
}

/// Fatal configuration conflict, raised at construction time, before the
/// engine is handed to the driving executor.
#[derive(Clone, Copy, Debug, PartialEq, Eq)]
pub enum ConfigError {
    /// Hole punching was requested but no relay-client instance is
    /// available to carry it.
    RelayClientMissing,
}

/// The dedicated content-protocol identifier of this network: the protocol
/// path `/ursa/kad/0.0.1`, as bytes.
pub open spec fn content_protocol_id() -> Seq<u8> {
    seq![
        47u8, 117u8, 114u8, 115u8, 97u8, 47u8, 107u8, 97u8, 100u8, 47u8, 48u8, 46u8, 48u8, 46u8,
        49u8,
    ]
}

/// The content-protocol identifier, as a byte vector.
pub fn content_protocol_name() -> (r: Vec<u8>)
    ensures
        r@ == content_protocol_id(),
{
    let r: Vec<u8> = vec![
        47u8, 117u8, 114u8, 115u8, 97u8, 47u8, 107u8, 97u8, 100u8, 47u8, 48u8, 46u8, 48u8, 46u8,
        49u8,
    ];
    proof {
        assert(r@ =~= content_protocol_id());
    }
    r
}

/// The views of queued outbound events, in queue order.
pub open spec fn events_view(s: Seq<BehaviourEvent>) -> Seq<EventView> {
    Seq::new(s.len(), |i: int| s[i]@)
}

/// Abstract state of the whole engine.
#[verifier::ext_equal]
pub struct EngineModel {
    /// Whether NAT detection is present.
    pub nat_enabled: bool,
    /// The resolved external address, if NAT detection has one.
    pub nat_addr: Option<Seq<u8>>,
    /// Whether the relay client is present.
    pub relay_client_enabled: bool,
    /// Whether the relay server is present.
    pub relay_server_enabled: bool,
    /// Whether hole punching is present.
    pub dcutr_enabled: bool,
    /// The block-exchange query registry.
    pub registry: RegistryModel,
    /// The request/response correlator.
    pub correlator: CorrelatorModel,
    /// The pub/sub explicit-peer set.
    pub gossip_peers: Set<u64>,
    /// The discovery table's per-peer addresses.
    pub discovery_book: Map<u64, Seq<Seq<u8>>>,
    /// The RPC address book's per-peer addresses.
    pub rpc_book: Map<u64, Seq<Seq<u8>>>,
    /// The currently connected peers.
    pub connected: Set<u64>,
    /// The topics this node is subscribed to.
    pub subscriptions: Set<Seq<u8>>,
    /// The content-protocol identifier the discovery bridge filters on.
    pub content_protocol: Seq<u8>,
    /// The outbound event queue, in FIFO order.
    pub events: Seq<EventView>,
}

/// The engine's state right after construction.
pub open spec fn engine_init(
    nat_on: bool,
    relay_client: bool,
    relay_server: bool,
    dcutr: bool,
) -> EngineModel {
    EngineModel {
        nat_enabled: nat_on,
        nat_addr: None,
        relay_client_enabled: relay_client,
        relay_server_enabled: relay_server,
        dcutr_enabled: dcutr,
        registry: registry_init(),
        correlator: correlator_init(),
        gossip_peers: Set::empty(),
        discovery_book: Map::empty(),
        rpc_book: Map::empty(),
        connected: Set::empty(),
        subscriptions: Set::empty(),
        content_protocol: content_protocol_id(),
        events: Seq::empty(),
    }
}

/// The composite engine: every sub-protocol's bookkeeping behind one
/// command surface and one poll-driven event source.
pub struct Behaviour {
    autonat: Capability<NatState>,
    relay_client: Capability<()>,
    relay_server: Capability<()>,
    dcutr: Capability<()>,
    registry: BlockExchangeRegistry,
    correlator: RequestResponseCorrelator,
    tables: PeerTables,
    connected: Vec<PeerId>,
    subscriptions: Vec<Vec<u8>>,
    content_protocol: Vec<u8>,
    events: Vec<BehaviourEvent>,
}

impl Behaviour {
    /// The engine's abstract state.
    pub closed spec fn model(&self) -> EngineModel {
        EngineModel {
            nat_enabled: self.autonat.is_enabled_spec(),
            nat_addr: match self.autonat {
                Capability::Enabled(st) => opt_address_view(st.public_addr),
                Capability::Disabled => None,
            },
            relay_client_enabled: self.relay_client.is_enabled_spec(),
            relay_server_enabled: self.relay_server.is_enabled_spec(),
            dcutr_enabled: self.dcutr.is_enabled_spec(),
            registry: self.registry.model(),
            correlator: self.correlator.model(),
            gossip_peers: self.tables.gossip_set(),
            discovery_book: self.tables.discovery_view(),
            rpc_book: self.tables.rpc_view(),
            connected: self.connected@.to_set(),
            subscriptions: bytes_list_view(self.subscriptions@).to_set(),
            content_protocol: self.content_protocol@,
            events: events_view(self.events@),
        }
    }

    /// Well-formedness: every component is well-formed and the peer and
    /// subscription lists hold no duplicates.
    pub closed spec fn wf(&self) -> bool {
        &&& self.registry.wf()
        &&& self.correlator.wf()
        &&& self.tables.wf()
        &&& self.connected@.no_duplicates()
        &&& forall|i: int, j: int|
            0 <= i < j < self.subscriptions@.len() ==> self.subscriptions@[i]@
                != self.subscriptions@[j]@
        &&& self.content_protocol@ == content_protocol_id()
    }

    /// Construct an engine.  The NAT-detection and relay-server
    /// capabilities follow the configuration; the relay client is enabled
    /// exactly when an instance was provided; hole punching follows the
    /// relay-client configuration flag.  Requesting hole punching without a
    /// relay-client instance is a configuration conflict, reported before
    /// any engine exists.
    pub fn new(config: &NetworkConfig, relay_client_present: bool) -> (r: Result<
        Behaviour,
        ConfigError,
    >)
        ensures
            r is Err <==> config.relay_client && !relay_client_present,
            r matches Err(e) ==> e == ConfigError::RelayClientMissing,
            r matches Ok(engine) ==> engine.wf() && engine.model() == engine_init(
                config.autonat,
                relay_client_present,
                config.relay_server,
                config.relay_client,
            ),
    {
        if config.relay_client && !relay_client_present {
            return Err(ConfigError::RelayClientMissing);
        }
        let autonat = if config.autonat {
            Capability::Enabled(NatState { public_addr: None })
        } else {
            Capability::Disabled
        };
        let relay_client = if relay_client_present {
            Capability::Enabled(())
        } else {
            Capability::Disabled
        };
        let relay_server = if config.relay_server {
            Capability::Enabled(())
        } else {
            Capability::Disabled
        };
        let dcutr = if config.relay_client {
            Capability::Enabled(())
        } else {
            Capability::Disabled
        };
        let engine = Behaviour {
            autonat,
            relay_client,
            relay_server,
            dcutr,
            registry: BlockExchangeRegistry::new(),
            correlator: RequestResponseCorrelator::new(),
            tables: PeerTables::new(),
            connected: Vec::new(),
            subscriptions: Vec::new(),
            content_protocol: content_protocol_name(),
            events: Vec::new(),
        };
        proof {
            assert(engine.model() =~= engine_init(
                config.autonat,
                relay_client_present,
                config.relay_server,
                config.relay_client,
            ));
        }
        Ok(engine)
    }

    /// Whether the relay client is enabled.
    pub fn is_relay_client_enabled(&self) -> (r: bool)
        ensures
            r == self.model().relay_client_enabled,
    {
        self.relay_client.is_enabled()
    }

    /// The externally reachable address, if NAT detection is enabled and
    /// has resolved one.  With the capability disabled the answer is absent
    /// no matter what the network did.
    pub fn public_address(&self) -> (r: Option<Address>)
        ensures
            opt_address_view(r) == self.model().nat_addr,
            !self.model().nat_enabled ==> r is None,
    {
        match &self.autonat {
            Capability::Disabled => None,
            Capability::Enabled(st) => match &st.public_addr {
                Some(a) => Some(copy_bytes(a)),
                None => None,
            },
        }
    }

    /// The currently known (connected) peers, without duplicates.
    pub fn peers(&self) -> (r: Vec<PeerId>)
        requires
            self.wf(),
        ensures
            r@.to_set() == self.model().connected,
            r@.no_duplicates(),
    {
        let mut r: Vec<PeerId> = Vec::new();
        let mut i: usize = 0;
        while i < self.connected.len()
            invariant
                0 <= i <= self.connected.len(),
                r@ == self.connected@.subrange(0, i as int),
            decreases self.connected.len() - i,
        {
            r.push(self.connected[i]);
            i = i + 1;
            proof {
                assert(r@ =~= self.connected@.subrange(0, i as int));
            }
        }
        proof {
            assert(r@ =~= self.connected@);
        }
        r
    }

    /// Publish a message on a gossip topic: a thin pass-through to the
    /// pub/sub sub-protocol, which the executor performs.
    pub fn publish(&self, topic: Vec<u8>, data: Vec<u8>) -> (action: Action)
        ensures
            action@ == (ActionView::Publish { topic: topic@, data: data@ }),
    {
        Action::Publish { topic, data }
    }

    /// Trigger a discovery-table bootstrap; the executor performs it and
    /// learns the discovery query id from the sub-protocol.
    pub fn bootstrap(&self) -> (action: Action)
        ensures
            action@ == ActionView::Bootstrap,
    {
        Action::Bootstrap
    }

    /// Ask the advertisement collaborator to begin an announce cycle with
    /// the given externally reachable address: enqueues the corresponding
    /// outbound event and changes nothing else.
    pub fn publish_ad(&mut self, public_address: Address)
        requires
            old(self).wf(),
        ensures
            final(self).wf(),
            final(self).model() == (EngineModel {
                events: old(self).model().events.push(
                    EventView::StartPublish { public_address: public_address@ },
                ),
                ..old(self).model()
            }),
    {
        let ghost target = EngineModel {
            events: old(self).model().events.push(
                EventView::StartPublish { public_address: public_address@ },
            ),
            ..old(self).model()
        };
        self.events.push(BehaviourEvent::StartPublish { public_address });
        proof {
            assert(events_view(self.events@) =~= target.events);
            assert(final(self).model() =~= target);
        }
    }

    /// Subscribe to a gossip topic.  The returned flag says whether the
    /// subscription set changed (false when the topic was already
    /// subscribed); the action tells the executor to subscribe the pub/sub
    /// sub-protocol.
    pub fn subscribe(&mut self, topic: Vec<u8>) -> (r: (bool, Action))
        requires
            old(self).wf(),
        ensures
            final(self).wf(),
            r.0 == !old(self).model().subscriptions.contains(topic@),
            final(self).model() == (EngineModel {
                subscriptions: old(self).model().subscriptions.insert(topic@),
                ..old(self).model()
            }),
            r.1@ == (ActionView::Subscribe { topic: topic@ }),
    {
        let ghost subs0 = bytes_list_view(self.subscriptions@);
        let present = list_contains(&self.subscriptions, &topic);
        if !present {
            self.subscriptions.push(copy_bytes(&topic));
            proof {
                assert(bytes_list_view(self.subscriptions@) =~= subs0.push(topic@));
                subs0.lemma_push_to_set_commute(topic@);
                assert forall|a: int, b: int|
                    0 <= a < b < self.subscriptions@.len() implies self.subscriptions@[a]@
                    != self.subscriptions@[b]@ by {
                    assert(bytes_list_view(self.subscriptions@)[a] == self.subscriptions@[a]@);
                    assert(bytes_list_view(self.subscriptions@)[b] == self.subscriptions@[b]@);
                    if b == self.subscriptions@.len() - 1 {
                        assert(subs0[a] != topic@);
                    }
                }
                assert(final(self).model() =~= (EngineModel {
                    subscriptions: old(self).model().subscriptions.insert(topic@),
                    ..old(self).model()
                }));
            }
        } else {
            proof {
                assert(subs0.to_set().contains(topic@));
                assert(subs0.to_set() =~= subs0.to_set().insert(topic@));
                assert(final(self).model() =~= (EngineModel {
                    subscriptions: old(self).model().subscriptions.insert(topic@),
                    ..old(self).model()
                }));
            }
        }
        (!present, Action::Subscribe { topic })
    }

    /// Unsubscribe from a gossip topic.  The returned flag says whether the
    /// subscription set changed (false when the topic was not subscribed);
    /// the action tells the executor to unsubscribe the pub/sub
    /// sub-protocol.
    pub fn unsubscribe(&mut self, topic: Vec<u8>) -> (r: (bool, Action))
        requires
            old(self).wf(),
        ensures
            final(self).wf(),
            r.0 == old(self).model().subscriptions.contains(topic@),
            final(self).model() == (EngineModel {
                subscriptions: old(self).model().subscriptions.remove(topic@),
                ..old(self).model()
            }),
            r.1@ == (ActionView::Unsubscribe { topic: topic@ }),
    {
        let ghost subs0 = bytes_list_view(self.subscriptions@);
        let mut i: usize = 0;
        let mut found = false;
        while i < self.subscriptions.len() && !found
            invariant
                0 <= i <= self.subscriptions.len(),
                !found ==> forall|j: int| 0 <= j < i ==> subs0[j] != topic@,
                found ==> i < self.subscriptions.len() && subs0[i as int] == topic@,
                self.subscriptions@ == old(self).subscriptions@,
                subs0 == bytes_list_view(self.subscriptions@),
            decreases self.subscriptions.len() - i + (if found {
                0int
            } else {
                1int
            }),
        {
            if bytes_eq(&self.subscriptions[i], &topic) {
                found = true;
            } else {
                i = i + 1;
            }
        }
        if found {
            self.subscriptions.remove(i);
            proof {
                assert(bytes_list_view(self.subscriptions@) =~= subs0.remove(i as int));
                lemma_distinct_remove_to_set(subs0, i as int);
                assert(final(self).model() =~= (EngineModel {
                    subscriptions: old(self).model().subscriptions.remove(topic@),
                    ..old(self).model()
                }));
            }
            (true, Action::Unsubscribe { topic })
        } else {
            proof {
                assert(!subs0.to_set().contains(topic@));
                assert(subs0.to_set() =~= subs0.to_set().remove(topic@));
                assert(final(self).model() =~= (EngineModel {
                    subscriptions: old(self).model().subscriptions.remove(topic@),
                    ..old(self).model()
                }));
            }
            (false, Action::Unsubscribe { topic })
        }
    }

    /// Start a single-block fetch from the given candidate providers: a
    /// fresh handle is registered as `Pending` with `found = false`, and
    /// the executor starts the query.  An empty provider set still
    /// registers the query; its completion may simply never arrive.
    pub fn get_block(&mut self, cid: Cid, providers: Vec<PeerId>) -> (r: (u64, Action))
        requires
            old(self).wf(),
            registry_can_issue(old(self).model().registry),
        ensures
            final(self).wf(),
            r.0 == old(self).model().registry.next_handle,
            !old(self).model().registry.queries.contains_key(r.0),
            final(self).model() == (EngineModel {
                registry: registry_register(old(self).model().registry, cid@),
                ..old(self).model()
            }),
            r.1@ == (ActionView::BitswapGet { handle: r.0, cid: cid@, providers: providers@ }),
    {
        let stored = copy_cid(&cid);
        let handle = self.registry.register(stored);
        proof {
            assert(final(self).model() =~= (EngineModel {
                registry: registry_register(old(self).model().registry, cid@),
                ..old(self).model()
            }));
        }
        (handle, Action::BitswapGet { handle, cid, providers })
    }

    /// Start a recursive content-tree fetch from the given providers; the
    /// registration contract is the same as for a single-block fetch.
    pub fn sync_block(&mut self, cid: Cid, providers: Vec<PeerId>) -> (r: (u64, Action))
        requires
            old(self).wf(),
            registry_can_issue(old(self).model().registry),
        ensures
            final(self).wf(),
            r.0 == old(self).model().registry.next_handle,
            !old(self).model().registry.queries.contains_key(r.0),
            final(self).model() == (EngineModel {
                registry: registry_register(old(self).model().registry, cid@),
                ..old(self).model()
            }),
            r.1@ == (ActionView::BitswapSync { handle: r.0, cid: cid@, providers: providers@ }),
    {
        let stored = copy_cid(&cid);
        let handle = self.registry.register(stored);
        proof {
            assert(final(self).model() =~= (EngineModel {
                registry: registry_register(old(self).model().registry, cid@),
                ..old(self).model()
            }));
        }
        (handle, Action::BitswapSync { handle, cid, providers })
    }

    /// Cancel a block-exchange query: the registry entry is removed
    /// unconditionally (idempotent), and the executor asks the
    /// sub-protocol to stop.  No outcome event is ever emitted for the
    /// handle afterwards, even if a completion later arrives.
    pub fn cancel(&mut self, id: u64) -> (action: Action)
        requires
            old(self).wf(),
        ensures
            final(self).wf(),
            final(self).model() == (EngineModel {
                registry: registry_cancel(old(self).model().registry, id),
                ..old(self).model()
            }),
            !final(self).model().registry.queries.contains_key(id),
            action@ == (ActionView::BitswapCancel { handle: id }),
    {
        self.registry.cancel(id);
        proof {
            assert(final(self).model() =~= (EngineModel {
                registry: registry_cancel(old(self).model().registry, id),
                ..old(self).model()
            }));
        }
        Action::BitswapCancel { handle: id }
    }

    /// Send an outbound RPC request to a peer.  The completion-channel
    /// token is stored under a fresh request id — never one that is still
    /// pending — and the executor performs the send.  The channel will
    /// receive exactly one resolution: the response, or the failure the
    /// sub-protocol reports (a timeout at the latest).
    pub fn send_request(&mut self, peer: PeerId, request: Vec<u8>, channel: u64) -> (r: (
        u64,
        Action,
    ))
        requires
            old(self).wf(),
            correlator_can_issue(old(self).model().correlator),
        ensures
            final(self).wf(),
            r.0 == old(self).model().correlator.next_request_id,
            !old(self).model().correlator.pending.contains_key(r.0),
            final(self).model() == (EngineModel {
                correlator: correlator_send(old(self).model().correlator, channel),
                ..old(self).model()
            }),
            r.1@ == (ActionView::SendRequest { peer, request_id: r.0, request: request@ }),
    {
        let id = self.correlator.send(channel);
        proof {
            assert(final(self).model() =~= (EngineModel {
                correlator: correlator_send(old(self).model().correlator, channel),
                ..old(self).model()
            }));
        }
        (id, Action::SendRequest { peer, request_id: id, request })
    }

    /// Take a liveness report: logged by the executor, never an outbound
    /// event — liveness is diagnostic, not safety-critical.
    pub fn handle_ping(&mut self, event: PingEvent)
        requires
            old(self).wf(),
        ensures
            final(self).wf(),
            final(self).model() == ping_step(old(self).model(), event),
    {
    }

    /// Take a peer-identification event: received info promotes the peer
    /// through the discovery bridge if and only if it advertises the
    /// content protocol; nothing else changes, and no event is queued.
    pub fn handle_identify(&mut self, event: IdentifyEvent)
        requires
            old(self).wf(),
        ensures
            final(self).wf(),
            final(self).model() == identify_step(old(self).model(), event),
    {
        let ghost m0 = old(self).model();
        match event {
            IdentifyEvent::Received { peer_id, protocols, listen_addrs } => {
                let ghost pv = bytes_list_view(protocols@);
                let ghost av = bytes_list_view(listen_addrs@);
                self.tables.promote(peer_id, protocols, listen_addrs, &self.content_protocol);
                proof {
                    if advertises(pv, m0.content_protocol) {
                        assert(final(self).model() =~= identify_step(m0, event));
                    } else {
                        assert(final(self).model() =~= m0);
                    }
                }
            },
            _ => {},
        }
    }

    /// Take a NAT-detection event: with the capability enabled, a status
    /// change updates the resolved external address and enqueues the
    /// change; disabled, nothing ever happens.
    pub fn handle_autonat(&mut self, event: AutonatEvent)
        requires
            old(self).wf(),
        ensures
            final(self).wf(),
            final(self).model() == autonat_step(old(self).model(), event),
    {
        let ghost m0 = old(self).model();
        if self.autonat.is_enabled() {
            match event {
                AutonatEvent::StatusChanged { previous, current } => {
                    let resolved: Option<Address> = match &current {
                        NatStatus::Public(addr) => Some(copy_bytes(addr)),
                        NatStatus::Private => None,
                        NatStatus::Unknown => None,
                    };
                    self.autonat = Capability::Enabled(NatState { public_addr: resolved });
                    self.events.push(
                        BehaviourEvent::NatStatusChanged { previous, current },
                    );
                    proof {
                        assert(events_view(self.events@) =~= autonat_step(m0, event).events);
                        assert(final(self).model() =~= autonat_step(m0, event));
                    }
                },
                _ => {},
            }
        }
    }

    /// Take a relay-client event: logged by the executor, diagnostic only.
    pub fn handle_relay_client(&mut self, event: RelayClientEvent)
        requires
            old(self).wf(),
        ensures
            final(self).wf(),
            final(self).model() == relay_client_step(old(self).model(), event),
    {
    }

    /// Take a hole-punching event: logged by the executor, diagnostic
    /// only.
    pub fn handle_dcutr(&mut self, event: DcutrEvent)
        requires
            old(self).wf(),
        ensures
            final(self).wf(),
            final(self).model() == dcutr_step(old(self).model(), event),
    {
    }

    /// Take a relay-server event: with the capability enabled, reservation
    /// and circuit changes are normalized into outbound events — a renewed
    /// reservation is not re-announced; disabled, nothing ever happens.
    pub fn handle_relay_server(&mut self, event: RelayServerEvent)
        requires
            old(self).wf(),
        ensures
            final(self).wf(),
            final(self).model() == relay_server_step(old(self).model(), event),
    {
        let ghost m0 = old(self).model();
        if self.relay_server.is_enabled() {
            match event {
                RelayServerEvent::ReservationReqAccepted { src_peer_id, renewed } => {
                    if !renewed {
                        self.events.push(
                            BehaviourEvent::RelayReservationOpened { peer_id: src_peer_id },
                        );
                        proof {
                            assert(events_view(self.events@) =~= relay_server_step(
                                m0,
                                event,
                            ).events);
                            assert(final(self).model() =~= relay_server_step(m0, event));
                        }
                    }
                },
                RelayServerEvent::ReservationTimedOut { src_peer_id } => {
                    self.events.push(
                        BehaviourEvent::RelayReservationClosed { peer_id: src_peer_id },
                    );
                    proof {
                        assert(events_view(self.events@) =~= relay_server_step(m0, event).events);
                        assert(final(self).model() =~= relay_server_step(m0, event));
                    }
                },
                RelayServerEvent::CircuitReqAccepted => {
                    self.events.push(BehaviourEvent::RelayCircuitOpened);
                    proof {
                        assert(events_view(self.events@) =~= relay_server_step(m0, event).events);
                        assert(final(self).model() =~= relay_server_step(m0, event));
                    }
                },
                RelayServerEvent::CircuitClosed => {
                    self.events.push(BehaviourEvent::RelayCircuitClosed);
                    proof {
                        assert(events_view(self.events@) =~= relay_server_step(m0, event).events);
                        assert(final(self).model() =~= relay_server_step(m0, event));
                    }
                },
                RelayServerEvent::Other => {},
            }
        }
    }

    /// Take a block-exchange event: a completion for a registered handle
    /// emits that handle's single outcome event; an orphan completion is
    /// dropped silently; progress reports are diagnostic only.
    pub fn handle_bitswap(&mut self, event: BitswapEvent)
        requires
            old(self).wf(),
        ensures
            final(self).wf(),
            final(self).model() == bitswap_step(old(self).model(), event),
    {
        let ghost m0 = old(self).model();
        match event {
            BitswapEvent::Progress { query_id, missing } => {},
            BitswapEvent::Complete { query_id, succeeded } => {
                match self.registry.complete(query_id, succeeded) {
                    Some(info) => {
                        self.events.push(BehaviourEvent::Bitswap(info));
                        proof {
                            assert(events_view(self.events@) =~= bitswap_step(m0, event).events);
                            assert(final(self).model() =~= bitswap_step(m0, event));
                        }
                    },
                    None => {
                        proof {
                            assert(final(self).model() =~= bitswap_step(m0, event));
                        }
                    },
                }
            },
        }
    }

    /// Take a publish/subscribe event: a received message is enqueued as a
    /// gossip event; everything else is diagnostic only.
    pub fn handle_gossipsub(&mut self, event: GossipsubEvent)
        requires
            old(self).wf(),
        ensures
            final(self).wf(),
            final(self).model() == gossipsub_step(old(self).model(), event),
    {
        let ghost m0 = old(self).model();
        match event {
            GossipsubEvent::Message { propagation_source, topic, data } => {
                self.events.push(
                    BehaviourEvent::GossipMessage {
                        peer: propagation_source,
                        topic,
                        message: data,
                    },
                );
                proof {
                    assert(events_view(self.events@) =~= gossipsub_step(m0, event).events);
                    assert(final(self).model() =~= gossipsub_step(m0, event));
                }
            },
            _ => {},
        }
    }

    /// Take a discovery event: the connected peer set and the outbound
    /// queue record the connection change.
    pub fn handle_discovery(&mut self, event: DiscoveryEvent)
        requires
            old(self).wf(),
        ensures
            final(self).wf(),
            final(self).model() == discovery_step(old(self).model(), event),
    {
        let ghost m0 = old(self).model();
        match event {
            DiscoveryEvent::Connected(peer) => {
                let mut i: usize = 0;
                let mut present = false;
                while i < self.connected.len() && !present
                    invariant
                        0 <= i <= self.connected.len(),
                        !present ==> forall|j: int| 0 <= j < i ==> self.connected@[j] != peer,
                        present ==> self.connected@.contains(peer),
                        *self == *old(self),
                    decreases self.connected.len() - i + (if present {
                        0int
                    } else {
                        1int
                    }),
                {
                    if self.connected[i] == peer {
                        present = true;
                    } else {
                        i = i + 1;
                    }
                }
                if !present {
                    proof {
                        self.connected@.lemma_push_to_set_commute(peer);
                    }
                    self.connected.push(peer);
                }
                self.events.push(BehaviourEvent::PeerConnected(peer));
                proof {
                    if present {
                        assert(self.connected@.to_set().contains(peer));
                        assert(self.connected@.to_set() =~= m0.connected.insert(peer));
                    }
                    assert(events_view(self.events@) =~= discovery_step(m0, event).events);
                    assert(final(self).model() =~= discovery_step(m0, event));
                }
            },
            DiscoveryEvent::Disconnected(peer) => {
                let ghost s0 = self.connected@;
                let mut i: usize = 0;
                let mut found = false;
                while i < self.connected.len() && !found
                    invariant
                        0 <= i <= self.connected.len(),
                        !found ==> forall|j: int| 0 <= j < i ==> self.connected@[j] != peer,
                        found ==> i < self.connected.len() && self.connected@[i as int] == peer,
                        *self == *old(self),
                    decreases self.connected.len() - i + (if found {
                        0int
                    } else {
                        1int
                    }),
                {
                    if self.connected[i] == peer {
                        found = true;
                    } else {
                        i = i + 1;
                    }
                }
                if found {
                    self.connected.remove(i);
                    proof {
                        lemma_distinct_remove_to_set(s0, i as int);
                    }
                } else {
                    proof {
                        assert(!s0.to_set().contains(peer));
                        assert(s0.to_set() =~= s0.to_set().remove(peer));
                    }
                }
                self.events.push(BehaviourEvent::PeerDisconnected(peer));
                proof {
                    assert(events_view(self.events@) =~= discovery_step(m0, event).events);
                    assert(final(self).model() =~= discovery_step(m0, event));
                }
            },
        }
    }

    /// Take a request/response event.  An inbound request is enqueued with
    /// its single-use reply token.  A response or an outbound failure
    /// resolves the pending request, handing back the resolution to
    /// deliver through its completion channel — exactly once per request;
    /// a duplicate or orphaned signal yields nothing.  Inbound failures
    /// and response-sent confirmations are observational only.
    pub fn handle_request_response(&mut self, event: RequestResponseEvent) -> (d: Option<Delivery>)
        requires
            old(self).wf(),
        ensures
            final(self).wf(),
            final(self).model() == request_response_step(old(self).model(), event),
            opt_view(d) == request_response_delivery(old(self).model(), event),
    {
        let ghost m0 = old(self).model();
        match event {
            RequestResponseEvent::Request { peer, request_id, request, channel } => {
                self.events.push(BehaviourEvent::RequestMessage { peer, request, channel });
                proof {
                    assert(events_view(self.events@) =~= request_response_step(m0, event).events);
                    assert(final(self).model() =~= request_response_step(m0, event));
                }
                None
            },
            RequestResponseEvent::Response { peer, request_id, response } => {
                let resolved = self.correlator.resolve(request_id);
                proof {
                    assert(final(self).model() =~= request_response_step(m0, event));
                }
                match resolved {
                    Some(channel) => Some(Delivery { channel, result: Ok(response) }),
                    None => None,
                }
            },
            RequestResponseEvent::OutboundFailure { peer, request_id, error } => {
                let resolved = self.correlator.resolve(request_id);
                proof {
                    assert(final(self).model() =~= request_response_step(m0, event));
                }
                match resolved {
                    Some(channel) => Some(Delivery { channel, result: Err(error) }),
                    None => None,
                }
            },
            RequestResponseEvent::InboundFailure { peer, request_id, error } => None,
            RequestResponseEvent::ResponseSent { peer, request_id } => None,
        }
    }

    /// Whether the registry can still issue a fresh query handle; callers
    /// of `get_block` and `sync_block` must check this first.
    pub fn can_issue_query(&self) -> (r: bool)
        ensures
            r == registry_can_issue(self.model().registry),
    {
        self.registry.can_issue()
    }

    /// Whether the correlator can still issue a fresh request id; callers
    /// of `send_request` must check this first.
    pub fn can_issue_request(&self) -> (r: bool)
        ensures
            r == correlator_can_issue(self.model().correlator),
    {
        self.correlator.can_issue()
    }

    /// Whether a peer has been promoted into the pub/sub explicit-peer
    /// set.
    pub fn gossip_peer_known(&self, peer: PeerId) -> (r: bool)
        ensures
            r == self.model().gossip_peers.contains(peer),
    {
        self.tables.gossip_contains(peer)
    }

    /// The addresses the discovery table knows for a peer.
    pub fn discovery_addresses(&self, peer: PeerId) -> (r: Vec<Address>)
        ensures
            bytes_list_view(r@) == known_addrs(self.model().discovery_book, peer),
    {
        self.tables.discovery_addresses(peer)
    }

    /// The addresses the RPC address book knows for a peer.
    pub fn rpc_addresses(&self, peer: PeerId) -> (r: Vec<Address>)
        ensures
            bytes_list_view(r@) == known_addrs(self.model().rpc_book, peer),
    {
        self.tables.rpc_addresses(peer)
    }

    /// The sub-protocols the executor polls this engine's tick, in the
    /// fixed deterministic order, with every absent capability left out.
    pub fn poll_plan(&self) -> (r: Vec<SubProtocolKind>)
        ensures
            r@ == poll_order(self.model()),
    {
        let mut r: Vec<SubProtocolKind> = Vec::new();
        r.push(SubProtocolKind::Ping);
        r.push(SubProtocolKind::Identify);
        if self.autonat.is_enabled() {
            r.push(SubProtocolKind::Autonat);
        }
        if self.relay_client.is_enabled() {
            r.push(SubProtocolKind::RelayClient);
        }
        if self.relay_server.is_enabled() {
            r.push(SubProtocolKind::RelayServer);
        }
        if self.dcutr.is_enabled() {
            r.push(SubProtocolKind::Dcutr);
        }
        r.push(SubProtocolKind::Bitswap);
        r.push(SubProtocolKind::Gossipsub);
        r.push(SubProtocolKind::Discovery);
        r.push(SubProtocolKind::RequestResponse);
        proof {
            assert(r@ =~= poll_order(self.model()));
        }
        r
    }

    /// Take any sub-protocol's native event, dispatching to the matching
    /// handler, and hand back the channel resolution it decided on, if
    /// any.
    pub fn handle_event(&mut self, event: SubProtocolEvent) -> (d: Option<Delivery>)
        requires
            old(self).wf(),
        ensures
            final(self).wf(),
            final(self).model() == engine_step(old(self).model(), event),
            opt_view(d) == engine_step_delivery(old(self).model(), event),
    {
        match event {
            SubProtocolEvent::Ping(e) => {
                self.handle_ping(e);
                None
            },
            SubProtocolEvent::Identify(e) => {
                self.handle_identify(e);
                None
            },
            SubProtocolEvent::Autonat(e) => {
                self.handle_autonat(e);
                None
            },
            SubProtocolEvent::RelayClient(e) => {
                self.handle_relay_client(e);
                None
            },
            SubProtocolEvent::RelayServer(e) => {
                self.handle_relay_server(e);
                None
            },
            SubProtocolEvent::Dcutr(e) => {
                self.handle_dcutr(e);
                None
            },
            SubProtocolEvent::Bitswap(e) => {
                self.handle_bitswap(e);
                None
            },
            SubProtocolEvent::Gossipsub(e) => {
                self.handle_gossipsub(e);
                None
            },
            SubProtocolEvent::Discovery(e) => {
                self.handle_discovery(e);
                None
            },
            SubProtocolEvent::RequestResponse(e) => self.handle_request_response(e),
        }
    }

    /// Yield the oldest queued outbound event, if any: at most one event
    /// per poll, in FIFO order.
    pub fn poll(&mut self) -> (r: Option<BehaviourEvent>)
        requires
            old(self).wf(),
        ensures
            final(self).wf(),
            old(self).model().events.len() == 0 ==> r is None && final(self).model() == old(
                self,
            ).model(),
            old(self).model().events.len() > 0 ==> opt_view(r) == Some(
                old(self).model().events[0],
            ) && final(self).model() == (EngineModel {
                events: old(self).model().events.drop_first(),
                ..old(self).model()
            }),
    {
        if self.events.len() == 0 {
            None
        } else {
            let e = self.events.remove(0);
            proof {
                assert(events_view(self.events@) =~= events_view(old(self).events@).drop_first());
                assert(final(self).model() =~= (EngineModel {
                    events: old(self).model().events.drop_first(),
                    ..old(self).model()
                }));
            }
            Some(e)
        }
    }
}

/// The fixed per-tick polling order: liveness, identify, NAT detection,
/// relay client, relay server, hole punching, block exchange, pub/sub,
/// discovery, RPC — with every absent capability left out, so a disabled
/// sub-protocol's event source is simply never polled.
pub open spec fn poll_order(m: EngineModel) -> Seq<SubProtocolKind> {
    seq![SubProtocolKind::Ping, SubProtocolKind::Identify] + (if m.nat_enabled {
        seq![SubProtocolKind::Autonat]
    } else {
        Seq::empty()
    }) + (if m.relay_client_enabled {
        seq![SubProtocolKind::RelayClient]
    } else {
        Seq::empty()
    }) + (if m.relay_server_enabled {
        seq![SubProtocolKind::RelayServer]
    } else {
        Seq::empty()
    }) + (if m.dcutr_enabled {
        seq![SubProtocolKind::Dcutr]
    } else {
        Seq::empty()
    }) + seq![
        SubProtocolKind::Bitswap,
        SubProtocolKind::Gossipsub,
        SubProtocolKind::Discovery,
        SubProtocolKind::RequestResponse,
    ]
}

/// State after the liveness sub-protocol reports: liveness results are
/// diagnostic only and never change state or emit an outbound event.
pub open spec fn ping_step(m: EngineModel, event: PingEvent) -> EngineModel {
    m
}

/// State after a peer-identification event.  Only identification info
/// received from a peer advertising the content protocol changes anything:
/// that peer joins the gossip explicit-peer set and its listen addresses
/// are registered in the discovery table and the RPC address book.  Every
/// other peer — and every other identify event — leaves the engine exactly
/// as it was.
pub open spec fn identify_step(m: EngineModel, event: IdentifyEvent) -> EngineModel {
    match event {
        IdentifyEvent::Received { peer_id, protocols, listen_addrs } => {
            if advertises(bytes_list_view(protocols@), m.content_protocol) {
                EngineModel {
                    gossip_peers: m.gossip_peers.insert(peer_id),
                    discovery_book: m.discovery_book.insert(
                        peer_id,
                        merge_addrs(
                            known_addrs(m.discovery_book, peer_id),
                            bytes_list_view(listen_addrs@),
                        ),
                    ),
                    rpc_book: m.rpc_book.insert(
                        peer_id,
                        merge_addrs(
                            known_addrs(m.rpc_book, peer_id),
                            bytes_list_view(listen_addrs@),
                        ),
                    ),
                    ..m
                }
            } else {
                m
            }
        },
        _ => m,
    }
}

/// State after a NAT-detection event.  With the capability disabled the
/// event source is never polled, and a stray event changes nothing.  With
/// it enabled, a status change updates the resolved external address and
/// enqueues the corresponding outbound event; probes are diagnostic only.
pub open spec fn autonat_step(m: EngineModel, event: AutonatEvent) -> EngineModel {
    if !m.nat_enabled {
        m
    } else {
        match event {
            AutonatEvent::StatusChanged { previous, current } => EngineModel {
                nat_addr: nat_public_address(current@),
                events: m.events.push(
                    EventView::NatStatusChanged { previous: previous@, current: current@ },
                ),
                ..m
            },
            _ => m,
        }
    }
}

/// State after a relay-client event: diagnostic only.
pub open spec fn relay_client_step(m: EngineModel, event: RelayClientEvent) -> EngineModel {
    m
}

/// State after a hole-punching event: diagnostic only.
pub open spec fn dcutr_step(m: EngineModel, event: DcutrEvent) -> EngineModel {
    m
}

/// State after a relay-server event.  With the capability disabled the
/// event source is never polled, and a stray event changes nothing.  With
/// it enabled: a first (not renewed) reservation acceptance and a
/// reservation expiry enqueue the reservation events; circuit acceptance
/// and closure enqueue the circuit events, which carry no peer identity.
pub open spec fn relay_server_step(m: EngineModel, event: RelayServerEvent) -> EngineModel {
    if !m.relay_server_enabled {
        m
    } else {
        match event {
            RelayServerEvent::ReservationReqAccepted { src_peer_id, renewed } => {
                if renewed {
                    m
                } else {
                    EngineModel {
                        events: m.events.push(
                            EventView::RelayReservationOpened { peer_id: src_peer_id },
                        ),
                        ..m
                    }
                }
            },
            RelayServerEvent::ReservationTimedOut { src_peer_id } => EngineModel {
                events: m.events.push(
                    EventView::RelayReservationClosed { peer_id: src_peer_id },
                ),
                ..m
            },
            RelayServerEvent::CircuitReqAccepted => EngineModel {
                events: m.events.push(EventView::RelayCircuitOpened),
                ..m
            },
            RelayServerEvent::CircuitClosed => EngineModel {
                events: m.events.push(EventView::RelayCircuitClosed),
                ..m
            },
            RelayServerEvent::Other => m,
        }
    }
}

/// State after a block-exchange event.  Progress reports are diagnostic
/// only.  A completion resolves the handle through the registry: a
/// registered handle emits exactly one outcome event, with `found` set
/// from the protocol result; an orphan completion (already cancelled or
/// completed) is dropped silently.
pub open spec fn bitswap_step(m: EngineModel, event: BitswapEvent) -> EngineModel {
    match event {
        BitswapEvent::Progress { query_id, missing } => m,
        BitswapEvent::Complete { query_id, succeeded } => EngineModel {
            registry: registry_complete(m.registry, query_id, succeeded),
            events: match registry_complete_outcome(m.registry, query_id, succeeded) {
                Some(info) => m.events.push(EventView::Bitswap(info)),
                None => m.events,
            },
            ..m
        },
    }
}

/// State after a publish/subscribe event: a received message is enqueued
/// as a gossip event; subscription changes and capability notices from
/// remotes are diagnostic only.
pub open spec fn gossipsub_step(m: EngineModel, event: GossipsubEvent) -> EngineModel {
    match event {
        GossipsubEvent::Message { propagation_source, topic, data } => EngineModel {
            events: m.events.push(
                EventView::GossipMessage {
                    peer: propagation_source,
                    topic: topic@,
                    message: data@,
                },
            ),
            ..m
        },
        _ => m,
    }
}

/// State after a discovery event: the connected peer set is updated and
/// the connection change is enqueued.
pub open spec fn discovery_step(m: EngineModel, event: DiscoveryEvent) -> EngineModel {
    match event {
        DiscoveryEvent::Connected(peer) => EngineModel {
            connected: m.connected.insert(peer),
            events: m.events.push(EventView::PeerConnected(peer)),
            ..m
        },
        DiscoveryEvent::Disconnected(peer) => EngineModel {
            connected: m.connected.remove(peer),
            events: m.events.push(EventView::PeerDisconnected(peer)),
            ..m
        },
    }
}

/// State after a request/response event.  An inbound request is enqueued
/// with its single-use reply token.  A response or an outbound failure for
/// a pending id removes the entry — exactly once — and resolves its
/// channel; for an unknown id they change nothing.  Inbound failures and
/// response-sent confirmations are observational only.
pub open spec fn request_response_step(m: EngineModel, event: RequestResponseEvent) -> EngineModel {
    match event {
        RequestResponseEvent::Request { peer, request_id, request, channel } => EngineModel {
            events: m.events.push(
                EventView::RequestMessage { peer, request: request@, channel },
            ),
            ..m
        },
        RequestResponseEvent::Response { peer, request_id, response } => EngineModel {
            correlator: correlator_resolve(m.correlator, request_id),
            ..m
        },
        RequestResponseEvent::OutboundFailure { peer, request_id, error } => EngineModel {
            correlator: correlator_resolve(m.correlator, request_id),
            ..m
        },
        _ => m,
    }
}

/// The resolution a request/response event delivers, if any: the response
/// or failure for a pending request id, through the channel stored for it.
pub open spec fn request_response_delivery(m: EngineModel, event: RequestResponseEvent) -> Option<
    DeliveryView,
> {
    match event {
        RequestResponseEvent::Response { peer, request_id, response } => {
            match correlator_resolve_channel(m.correlator, request_id) {
                Some(chan) => Some(DeliveryView { channel: chan, result: Ok(response@) }),
                None => None,
            }
        },
        RequestResponseEvent::OutboundFailure { peer, request_id, error } => {
            match correlator_resolve_channel(m.correlator, request_id) {
                Some(chan) => Some(DeliveryView { channel: chan, result: Err(error) }),
                None => None,
            }
        },
        _ => None,
    }
}

/// State after any sub-protocol event, by the per-protocol transitions.
pub open spec fn engine_step(m: EngineModel, event: SubProtocolEvent) -> EngineModel {
    match event {
        SubProtocolEvent::Ping(e) => ping_step(m, e),
        SubProtocolEvent::Identify(e) => identify_step(m, e),
        SubProtocolEvent::Autonat(e) => autonat_step(m, e),
        SubProtocolEvent::RelayClient(e) => relay_client_step(m, e),
        SubProtocolEvent::RelayServer(e) => relay_server_step(m, e),
        SubProtocolEvent::Dcutr(e) => dcutr_step(m, e),
        SubProtocolEvent::Bitswap(e) => bitswap_step(m, e),
        SubProtocolEvent::Gossipsub(e) => gossipsub_step(m, e),
        SubProtocolEvent::Discovery(e) => discovery_step(m, e),
        SubProtocolEvent::RequestResponse(e) => request_response_step(m, e),
    }
}

/// The resolution any sub-protocol event delivers: only request/response
/// completions resolve a channel.
pub open spec fn engine_step_delivery(m: EngineModel, event: SubProtocolEvent) -> Option<
    DeliveryView,
> {
    match event {
        SubProtocolEvent::RequestResponse(e) => request_response_delivery(m, e),
        _ => None,
    }
}

/// Removing the element at an index of a duplicate-free sequence removes
/// exactly that element from the sequence's set.
proof fn lemma_distinct_remove_to_set<A>(s: Seq<A>, j: int)
    requires
        0 <= j < s.len(),
        forall|a: int, b: int| 0 <= a < b < s.len() ==> s[a] != s[b],
    ensures
        s.remove(j).to_set() == s.to_set().remove(s[j]),
{
    let t = s.remove(j);
    assert forall|x: A| t.to_set().contains(x) implies s.to_set().remove(s[j]).contains(x) by {
        let i = choose|i: int| 0 <= i < t.len() && t[i] == x;
        if i < j {
            assert(s[i] == x);
        } else {
            assert(s[i + 1] == x);
        }
    }
    assert forall|x: A| s.to_set().remove(s[j]).contains(x) implies t.to_set().contains(x) by {
        let i = choose|i: int| 0 <= i < s.len() && s[i] == x;
        if i < j {
            assert(t[i] == x);
        } else {
            assert(t[i - 1] == x);
        }
    }
    assert(t.to_set() =~= s.to_set().remove(s[j]));
}

} // verus!
