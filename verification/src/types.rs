//! Plain-value models of the identifiers and messages that cross the
//! engine's boundary.
//!
//! Network participants, content addresses and multiaddresses are carried
//! here as plain values (integers and byte vectors): the engine's logic only
//! ever compares and stores them, so nothing of the wire substrate is needed
//! to state what the engine does with them.

use vstd::prelude::*;

verus! {

/// Globally unique identifier of a network participant.
pub type PeerId = u64;

/// A listen or reachability address, in its canonical byte encoding.
pub type Address = Vec<u8>;

/// Cryptographic content address: a codec tag plus the multihash bytes.
#[derive(Clone, Debug, PartialEq, Eq)]
pub struct Cid {
    /// Codec tag of the addressed content.
    pub codec: u64,
    /// Multihash bytes naming the content.
    pub hash: Vec<u8>,
}

/// Reachability status reported by the NAT-detection sub-protocol.
#[derive(Clone, Debug, PartialEq, Eq)]
pub enum NatStatus {
    /// Externally reachable at the given address.
    Public(Address),
    /// Behind a NAT; not directly reachable.
    Private,
    /// Not yet determined.
    Unknown,
}

/// One in-flight block-exchange query: target content id, issued handle,
/// and whether the block was found once the query completed.
#[derive(Clone, Debug, PartialEq, Eq)]
pub struct BitswapInfo {
    /// Content id the query asks for.
    pub cid: Cid,
    /// Handle issued when the query was started.
    pub query_id: u64,
    /// True only once a completion reported success.
    pub block_found: bool,
}

/// Unified outbound event stream: every sub-protocol's native notifications
/// normalized into one enum, delivered to the external consumer in
/// enqueue (FIFO) order.
#[derive(Clone, Debug, PartialEq, Eq)]
pub enum BehaviourEvent {
    /// The NAT-detection sub-protocol changed its reachability verdict.
    NatStatusChanged { previous: NatStatus, current: NatStatus },
    /// A remote peer connected.
    PeerConnected(PeerId),
    /// A remote peer disconnected.
    PeerDisconnected(PeerId),
    /// The relay server accepted a new (not renewed) reservation.
    RelayReservationOpened { peer_id: PeerId },
    /// A relay reservation expired.
    RelayReservationClosed { peer_id: PeerId },
    /// A relay circuit was accepted.
    RelayCircuitOpened,
    /// A relay circuit was closed.
    RelayCircuitClosed,
    /// A block-exchange query reached its single terminal outcome.
    Bitswap(BitswapInfo),
    /// A publish/subscribe message arrived.
    GossipMessage { peer: PeerId, topic: Vec<u8>, message: Vec<u8> },
    /// An inbound RPC request; `channel` is the single-use token the
    /// consumer must use at most once to answer.
    RequestMessage { peer: PeerId, request: Vec<u8>, channel: u64 },
    /// The advertisement collaborator should begin an announce cycle
    /// with the given externally reachable address.
    StartPublish { public_address: Address },
}

/// Failure reported by the RPC sub-protocol for an outbound request.
#[derive(Clone, Copy, Debug, PartialEq, Eq)]
pub enum RequestFailure {
    /// The peer could not be dialled.
    DialFailure,
    /// The request went unanswered past the protocol's deadline.
    Timeout,
    /// The connection closed before a response arrived.
    ConnectionClosed,
    /// The remote does not speak the exchange protocol.
    UnsupportedProtocols,
}

/// Instruction handed back to the driving executor: the outside work a
/// command or a completion decided on.  The executor performs it against
/// the concrete sub-protocol instances.
#[derive(Clone, Debug, PartialEq, Eq)]
pub enum Action {
    /// Start a single-block fetch under the given handle.
    BitswapGet { handle: u64, cid: Cid, providers: Vec<PeerId> },
    /// Start a recursive content-tree fetch under the given handle.
    BitswapSync { handle: u64, cid: Cid, providers: Vec<PeerId> },
    /// Ask the block-exchange sub-protocol to cancel the handle's query.
    BitswapCancel { handle: u64 },
    /// Send an outbound RPC request, correlated under `request_id`.
    SendRequest { peer: PeerId, request_id: u64, request: Vec<u8> },
    /// Publish a message on a gossip topic.
    Publish { topic: Vec<u8>, data: Vec<u8> },
    /// Subscribe to a gossip topic.
    Subscribe { topic: Vec<u8> },
    /// Unsubscribe from a gossip topic.
    Unsubscribe { topic: Vec<u8> },
    /// Trigger a discovery-table bootstrap.
    Bootstrap,
}

/// Resolution of one outbound RPC request, to be delivered through the
/// single-use completion channel named by `channel`.
#[derive(Debug, PartialEq, Eq)]
pub struct Delivery {
    /// Completion-channel token the caller registered with `send_request`.
    pub channel: u64,
    /// The response, or the failure the sub-protocol reported.
    pub result: Result<Vec<u8>, RequestFailure>,
}

/// Mathematical value of a content address.
pub struct CidView {
    /// Codec tag.
    pub codec: u64,
    /// Multihash bytes.
    pub hash: Seq<u8>,
}

impl View for Cid {
    type V = CidView;

    open spec fn view(&self) -> CidView {
        CidView { codec: self.codec, hash: self.hash@ }
    }
}

/// Mathematical value of a NAT status.
pub enum NatStatusView {
    /// Externally reachable at the given address bytes.
    Public(Seq<u8>),
    /// Behind a NAT.
    Private,
    /// Not yet determined.
    Unknown,
}

impl View for NatStatus {
    type V = NatStatusView;

    open spec fn view(&self) -> NatStatusView {
        match self {
            NatStatus::Public(addr) => NatStatusView::Public(addr@),
            NatStatus::Private => NatStatusView::Private,
            NatStatus::Unknown => NatStatusView::Unknown,
        }
    }
}

/// Mathematical value of an in-flight query record.
pub struct BitswapInfoView {
    /// Content id the query asks for.
    pub cid: CidView,
    /// The query's handle.
    pub query_id: u64,
    /// Whether a completion reported success.
    pub block_found: bool,
}

impl View for BitswapInfo {
    type V = BitswapInfoView;

    open spec fn view(&self) -> BitswapInfoView {
        BitswapInfoView { cid: self.cid@, query_id: self.query_id, block_found: self.block_found }
    }
}

/// Mathematical value of an outbound event.
pub enum EventView {
    /// See [`BehaviourEvent::NatStatusChanged`].
    NatStatusChanged { previous: NatStatusView, current: NatStatusView },
    /// See [`BehaviourEvent::PeerConnected`].
    PeerConnected(PeerId),
    /// See [`BehaviourEvent::PeerDisconnected`].
    PeerDisconnected(PeerId),
    /// See [`BehaviourEvent::RelayReservationOpened`].
    RelayReservationOpened { peer_id: PeerId },
    /// See [`BehaviourEvent::RelayReservationClosed`].
    RelayReservationClosed { peer_id: PeerId },
    /// See [`BehaviourEvent::RelayCircuitOpened`].
    RelayCircuitOpened,
    /// See [`BehaviourEvent::RelayCircuitClosed`].
    RelayCircuitClosed,
    /// See [`BehaviourEvent::Bitswap`].
    Bitswap(BitswapInfoView),
    /// See [`BehaviourEvent::GossipMessage`].
    GossipMessage { peer: PeerId, topic: Seq<u8>, message: Seq<u8> },
    /// See [`BehaviourEvent::RequestMessage`].
    RequestMessage { peer: PeerId, request: Seq<u8>, channel: u64 },
    /// See [`BehaviourEvent::StartPublish`].
    StartPublish { public_address: Seq<u8> },
}

impl View for BehaviourEvent {
    type V = EventView;

    open spec fn view(&self) -> EventView {
        match self {
            BehaviourEvent::NatStatusChanged { previous, current } => EventView::NatStatusChanged {
                previous: previous@,
                current: current@,
            },
            BehaviourEvent::PeerConnected(p) => EventView::PeerConnected(*p),
            BehaviourEvent::PeerDisconnected(p) => EventView::PeerDisconnected(*p),
            BehaviourEvent::RelayReservationOpened { peer_id } => {
                EventView::RelayReservationOpened { peer_id: *peer_id }
            },
            BehaviourEvent::RelayReservationClosed { peer_id } => {
                EventView::RelayReservationClosed { peer_id: *peer_id }
            },
            BehaviourEvent::RelayCircuitOpened => EventView::RelayCircuitOpened,
            BehaviourEvent::RelayCircuitClosed => EventView::RelayCircuitClosed,
            BehaviourEvent::Bitswap(info) => EventView::Bitswap(info@),
            BehaviourEvent::GossipMessage { peer, topic, message } => EventView::GossipMessage {
                peer: *peer,
                topic: topic@,
                message: message@,
            },
            BehaviourEvent::RequestMessage { peer, request, channel } => {
                EventView::RequestMessage { peer: *peer, request: request@, channel: *channel }
            },
            BehaviourEvent::StartPublish { public_address } => EventView::StartPublish {
                public_address: public_address@,
            },
        }
    }
}

/// Mathematical value of an executor instruction.
pub enum ActionView {
    /// See [`Action::BitswapGet`].
    BitswapGet { handle: u64, cid: CidView, providers: Seq<PeerId> },
    /// See [`Action::BitswapSync`].
    BitswapSync { handle: u64, cid: CidView, providers: Seq<PeerId> },
    /// See [`Action::BitswapCancel`].
    BitswapCancel { handle: u64 },
    /// See [`Action::SendRequest`].
    SendRequest { peer: PeerId, request_id: u64, request: Seq<u8> },
    /// See [`Action::Publish`].
    Publish { topic: Seq<u8>, data: Seq<u8> },
    /// See [`Action::Subscribe`].
    Subscribe { topic: Seq<u8> },
    /// See [`Action::Unsubscribe`].
    Unsubscribe { topic: Seq<u8> },
    /// See [`Action::Bootstrap`].
    Bootstrap,
}

impl View for Action {
    type V = ActionView;

    open spec fn view(&self) -> ActionView {
        match self {
            Action::BitswapGet { handle, cid, providers } => ActionView::BitswapGet {
                handle: *handle,
                cid: cid@,
                providers: providers@,
            },
            Action::BitswapSync { handle, cid, providers } => ActionView::BitswapSync {
                handle: *handle,
                cid: cid@,
                providers: providers@,
            },
            Action::BitswapCancel { handle } => ActionView::BitswapCancel { handle: *handle },
            Action::SendRequest { peer, request_id, request } => ActionView::SendRequest {
                peer: *peer,
                request_id: *request_id,
                request: request@,
            },
            Action::Publish { topic, data } => ActionView::Publish { topic: topic@, data: data@ },
            Action::Subscribe { topic } => ActionView::Subscribe { topic: topic@ },
            Action::Unsubscribe { topic } => ActionView::Unsubscribe { topic: topic@ },
            Action::Bootstrap => ActionView::Bootstrap,
        }
    }
}

/// Mathematical value of a completion-channel resolution.
pub struct DeliveryView {
    /// Completion-channel token.
    pub channel: u64,
    /// The response bytes, or the reported failure.
    pub result: Result<Seq<u8>, RequestFailure>,
}

impl View for Delivery {
    type V = DeliveryView;

    open spec fn view(&self) -> DeliveryView {
        DeliveryView {
            channel: self.channel,
            result: match &self.result {
                Ok(bytes) => Ok(bytes@),
                Err(e) => Err(*e),
            },
        }
    }
}

/// The view of an optional value, element-wise.
pub open spec fn opt_view<T: View>(o: Option<T>) -> Option<T::V> {
    match o {
        Some(x) => Some(x@),
        None => None,
    }
}

/// Result of one liveness exchange with a peer.
#[derive(Clone, Copy, Debug, PartialEq, Eq)]
pub enum PingResult {
    /// Answered an inbound ping.
    Pong,
    /// An outbound ping came back, with its round-trip time in
    /// milliseconds.
    Rtt { millis: u64 },
    /// No answer arrived in time.
    Timeout,
    /// The peer does not speak the liveness protocol.
    Unsupported,
    /// The exchange failed for another reason.
    Failure,
}

/// Native event of the liveness sub-protocol.
#[derive(Clone, Copy, Debug, PartialEq, Eq)]
pub struct PingEvent {
    /// The peer the exchange was with.
    pub peer: PeerId,
    /// How the exchange went.
    pub result: PingResult,
}

/// Native event of the peer-identification sub-protocol.
#[derive(Clone, Debug, PartialEq, Eq)]
pub enum IdentifyEvent {
    /// Identification info arrived from a peer: the protocols it speaks
    /// and the addresses it listens on.
    Received { peer_id: PeerId, protocols: Vec<Vec<u8>>, listen_addrs: Vec<Address> },
    /// This node sent its own info to a peer.
    Sent { peer_id: PeerId },
    /// A peer pushed an info update.
    Pushed { peer_id: PeerId },
    /// An identification exchange failed.
    Error { peer_id: PeerId },
}

/// Native event of the NAT-detection sub-protocol.
#[derive(Clone, Debug, PartialEq, Eq)]
pub enum AutonatEvent {
    /// The reachability verdict changed.
    StatusChanged { previous: NatStatus, current: NatStatus },
    /// An outbound reachability probe ran; diagnostic only.
    OutboundProbe,
    /// An inbound reachability probe ran; diagnostic only.
    InboundProbe,
}

/// Native event of the relay-server sub-protocol.
#[derive(Clone, Copy, Debug, PartialEq, Eq)]
pub enum RelayServerEvent {
    /// A reservation request was accepted; `renewed` distinguishes a
    /// renewal from a first acceptance.
    ReservationReqAccepted { src_peer_id: PeerId, renewed: bool },
    /// A reservation expired.
    ReservationTimedOut { src_peer_id: PeerId },
    /// A circuit request was accepted.
    CircuitReqAccepted,
    /// A circuit was closed.
    CircuitClosed,
    /// Any other relay-server notification; diagnostic only.
    Other,
}

/// Native event of the relay-client sub-protocol; diagnostic only.
#[derive(Clone, Copy, Debug, PartialEq, Eq)]
pub enum RelayClientEvent {
    /// A reservation with a relay was accepted.
    ReservationReqAccepted { relay_peer_id: PeerId, renewal: bool },
    /// Any other relay-client notification.
    Other,
}

/// Native event of the hole-punching sub-protocol; diagnostic only.
#[derive(Clone, Copy, Debug, PartialEq, Eq)]
pub struct DcutrEvent {
    /// The peer the direct-connection upgrade concerns.
    pub remote_peer_id: PeerId,
}

/// Native event of the block-exchange sub-protocol.
#[derive(Clone, Copy, Debug, PartialEq, Eq)]
pub enum BitswapEvent {
    /// A sync query made progress; `missing` blocks are still wanted.
    Progress { query_id: u64, missing: u64 },
    /// A get or sync query completed, successfully or not.
    Complete { query_id: u64, succeeded: bool },
}

/// Native event of the publish/subscribe sub-protocol.
#[derive(Clone, Debug, PartialEq, Eq)]
pub enum GossipsubEvent {
    /// A message arrived on a subscribed topic.
    Message { propagation_source: PeerId, topic: Vec<u8>, data: Vec<u8> },
    /// A remote subscribed to a topic.
    Subscribed { peer_id: PeerId, topic: Vec<u8> },
    /// A remote unsubscribed from a topic.
    Unsubscribed { peer_id: PeerId, topic: Vec<u8> },
    /// A connected peer does not speak the pub/sub protocol.
    NotSupported { peer_id: PeerId },
}

/// Native event of the discovery sub-protocol.
#[derive(Clone, Copy, Debug, PartialEq, Eq)]
pub enum DiscoveryEvent {
    /// A peer connected.
    Connected(PeerId),
    /// A peer disconnected.
    Disconnected(PeerId),
}

/// Native event of the request/response sub-protocol.
#[derive(Clone, Debug, PartialEq, Eq)]
pub enum RequestResponseEvent {
    /// An inbound request; `channel` is the single-use reply token.
    Request { peer: PeerId, request_id: u64, request: Vec<u8>, channel: u64 },
    /// The success response to an outbound request.
    Response { peer: PeerId, request_id: u64, response: Vec<u8> },
    /// An outbound request failed (dial failure, timeout, closed
    /// connection, or unsupported protocol).
    OutboundFailure { peer: PeerId, request_id: u64, error: RequestFailure },
    /// Answering an inbound request failed; observational only.
    InboundFailure { peer: PeerId, request_id: u64, error: RequestFailure },
    /// The answer to an inbound request went out; observational only.
    ResponseSent { peer: PeerId, request_id: u64 },
}

/// Any sub-protocol's native event, as the driving executor hands them to
/// the engine.
#[derive(Clone, Debug, PartialEq, Eq)]
pub enum SubProtocolEvent {
    /// From the liveness sub-protocol.
    Ping(PingEvent),
    /// From the peer-identification sub-protocol.
    Identify(IdentifyEvent),
    /// From the NAT-detection sub-protocol.
    Autonat(AutonatEvent),
    /// From the relay-client sub-protocol.
    RelayClient(RelayClientEvent),
    /// From the relay-server sub-protocol.
    RelayServer(RelayServerEvent),
    /// From the hole-punching sub-protocol.
    Dcutr(DcutrEvent),
    /// From the block-exchange sub-protocol.
    Bitswap(BitswapEvent),
    /// From the publish/subscribe sub-protocol.
    Gossipsub(GossipsubEvent),
    /// From the discovery sub-protocol.
    Discovery(DiscoveryEvent),
    /// From the request/response sub-protocol.
    RequestResponse(RequestResponseEvent),
}

/// The sub-protocols the engine multiplexes, in no particular order; the
/// engine's poll plan fixes the per-tick order.
#[derive(Clone, Copy, Debug, PartialEq, Eq)]
pub enum SubProtocolKind {
    /// Liveness checks.
    Ping,
    /// Peer identification.
    Identify,
    /// NAT-reachability detection.
    Autonat,
    /// Relay client.
    RelayClient,
    /// Relay server.
    RelayServer,
    /// Hole-punching assistance.
    Dcutr,
    /// Block exchange.
    Bitswap,
    /// Topic-based publish/subscribe.
    Gossipsub,
    /// Distributed peer discovery.
    Discovery,
    /// Generic request/response RPC.
    RequestResponse,
}

} // verus!
