//! Peer discovery bridge.
//!
//! Consumes peer-identification results and selectively promotes peers into
//! the discovery table, the pub/sub explicit-peer set, and the RPC address
//! book — but only peers that advertise this network's dedicated
//! content-protocol identifier.  Peers lacking it are left untouched in all
//! three tables, so unrelated peers reachable over a shared generic
//! transport never pollute routing, gossip, or RPC address books.  A peer
//! re-identifying is a no-op beyond re-registering its addresses.

use vstd::prelude::*;
use std::collections::HashMap;
use crate::bytes::{bytes_list_view, copy_bytes, list_contains, seq_contains};
use crate::types::{Address, PeerId};

verus! {

broadcast use vstd::std_specs::hash::group_hash_axioms;

/// Whether an advertised protocol list contains the given protocol name.
pub open spec fn advertises(protocols: Seq<Seq<u8>>, name: Seq<u8>) -> bool {
    seq_contains(protocols, name)
}

/// Address registration: every added address is appended to the known list
/// unless the same bytes are already present, keeping first-seen order.
pub open spec fn merge_addrs(existing: Seq<Seq<u8>>, added: Seq<Seq<u8>>) -> Seq<Seq<u8>>
    decreases added.len(),
{
    if added.len() == 0 {
        existing
    } else {
        let prev = merge_addrs(existing, added.drop_last());
        if seq_contains(prev, added.last()) {
            prev
        } else {
            prev.push(added.last())
        }
    }
}

/// The abstract content of an address book: each known peer's addresses,
/// as byte sequences in registration order.
pub open spec fn book_view(t: Map<u64, Vec<Address>>) -> Map<u64, Seq<Seq<u8>>> {
    Map::new(|k: u64| t.contains_key(k), |k: u64| bytes_list_view(t[k]@))
}

/// The addresses a book knows for a peer; an unknown peer has none.
pub open spec fn book_addrs_of(t: Map<u64, Vec<Address>>, peer: u64) -> Seq<Seq<u8>> {
    if t.contains_key(peer) {
        bytes_list_view(t[peer]@)
    } else {
        Seq::empty()
    }
}

/// The addresses an abstract book knows for a peer; an unknown peer has
/// none.
pub open spec fn known_addrs(book: Map<u64, Seq<Seq<u8>>>, peer: u64) -> Seq<Seq<u8>> {
    if book.contains_key(peer) {
        book[peer]
    } else {
        Seq::empty()
    }
}

/// The per-peer address books and the explicit gossip peer set that the
/// bridge writes and the discovery, pub/sub and RPC sub-protocols read.
pub struct PeerTables {
    gossip_peers: Vec<PeerId>,
    discovery_addrs: HashMap<u64, Vec<Address>>,
    rpc_addrs: HashMap<u64, Vec<Address>>,
}

impl PeerTables {
    /// The pub/sub explicit-peer set.
    pub closed spec fn gossip_set(&self) -> Set<u64> {
        self.gossip_peers@.to_set()
    }

    /// The discovery table's content.
    pub closed spec fn discovery_view(&self) -> Map<u64, Seq<Seq<u8>>> {
        book_view(self.discovery_addrs@)
    }

    /// The RPC address book's content.
    pub closed spec fn rpc_view(&self) -> Map<u64, Seq<Seq<u8>>> {
        book_view(self.rpc_addrs@)
    }

    /// Well-formedness: the explicit gossip peer set holds no duplicates.
    pub closed spec fn wf(&self) -> bool {
        forall|i: int, j: int|
            0 <= i < j < self.gossip_peers@.len() ==> self.gossip_peers@[i]
                != self.gossip_peers@[j]
    }

    /// Create empty tables.
    pub fn new() -> (r: Self)
        ensures
            r.wf(),
            r.gossip_set() == Set::<u64>::empty(),
            r.discovery_view() == Map::<u64, Seq<Seq<u8>>>::empty(),
            r.rpc_view() == Map::<u64, Seq<Seq<u8>>>::empty(),
    {
        let r = PeerTables {
            gossip_peers: Vec::new(),
            discovery_addrs: HashMap::new(),
            rpc_addrs: HashMap::new(),
        };
        proof {
            assert(r.gossip_set() =~= Set::<u64>::empty());
            assert(r.discovery_view() =~= Map::<u64, Seq<Seq<u8>>>::empty());
            assert(r.rpc_view() =~= Map::<u64, Seq<Seq<u8>>>::empty());
        }
        r
    }

    /// Whether a peer is in the pub/sub explicit-peer set.
    pub fn gossip_contains(&self, peer: PeerId) -> (r: bool)
        ensures
            r == self.gossip_set().contains(peer),
    {
        let mut i: usize = 0;
        while i < self.gossip_peers.len()
            invariant
                0 <= i <= self.gossip_peers.len(),
                forall|j: int| 0 <= j < i ==> self.gossip_peers@[j] != peer,
            decreases self.gossip_peers.len() - i,
        {
            if self.gossip_peers[i] == peer {
                return true;
            }
            i = i + 1;
        }
        assert(!self.gossip_peers@.to_set().contains(peer));
        false
    }

    /// The addresses the discovery table knows for a peer.
    pub fn discovery_addresses(&self, peer: PeerId) -> (r: Vec<Address>)
        ensures
            bytes_list_view(r@) == known_addrs(self.discovery_view(), peer),
    {
        match self.discovery_addrs.get(&peer) {
            Some(list) => {
                proof {
                    assert(bytes_list_view(list@) =~= known_addrs(self.discovery_view(), peer));
                }
                copy_addr_list(list)
            },
            None => {
                proof {
                    assert(bytes_list_view(Seq::<Address>::empty()) =~= Seq::<Seq<u8>>::empty());
                }
                Vec::new()
            },
        }
    }

    /// The addresses the RPC address book knows for a peer.
    pub fn rpc_addresses(&self, peer: PeerId) -> (r: Vec<Address>)
        ensures
            bytes_list_view(r@) == known_addrs(self.rpc_view(), peer),
    {
        match self.rpc_addrs.get(&peer) {
            Some(list) => {
                proof {
                    assert(bytes_list_view(list@) =~= known_addrs(self.rpc_view(), peer));
                }
                copy_addr_list(list)
            },
            None => {
                proof {
                    assert(bytes_list_view(Seq::<Address>::empty()) =~= Seq::<Seq<u8>>::empty());
                }
                Vec::new()
            },
        }
    }

    /// Promote an identified peer — but only if it advertises the
    /// content-protocol identifier `protocol`.  A peer advertising it joins
    /// the gossip explicit-peer set, and each listen address is registered
    /// in the discovery table and the RPC address book.  A peer not
    /// advertising it leaves every table exactly as it was.
    pub fn promote(
        &mut self,
        peer: PeerId,
        protocols: Vec<Vec<u8>>,
        listen_addrs: Vec<Address>,
        protocol: &Vec<u8>,
    )
        requires
            old(self).wf(),
        ensures
            final(self).wf(),
            !advertises(bytes_list_view(protocols@), protocol@) ==> *final(self) == *old(self),
            advertises(bytes_list_view(protocols@), protocol@) ==> {
                &&& final(self).gossip_set() == old(self).gossip_set().insert(peer)
                &&& final(self).discovery_view() == old(self).discovery_view().insert(
                    peer,
                    merge_addrs(
                        known_addrs(old(self).discovery_view(), peer),
                        bytes_list_view(listen_addrs@),
                    ),
                )
                &&& final(self).rpc_view() == old(self).rpc_view().insert(
                    peer,
                    merge_addrs(
                        known_addrs(old(self).rpc_view(), peer),
                        bytes_list_view(listen_addrs@),
                    ),
                )
            },
    {
        if !list_contains(&protocols, protocol) {
            return;
        }
        if !self.gossip_contains(peer) {
            self.gossip_peers.push(peer);
            proof {
                old(self).gossip_peers@.lemma_push_to_set_commute(peer);
            }
        } else {
            proof {
                assert(old(self).gossip_peers@.to_set().contains(peer));
                assert(self.gossip_peers@.to_set() =~= old(self).gossip_peers@.to_set().insert(
                    peer,
                ));
            }
        }
        let ghost mid = *self;
        let discovery_list = take_addrs(&mut self.discovery_addrs, peer);
        let merged_discovery = merge_into(discovery_list, &listen_addrs);
        self.discovery_addrs.insert(peer, merged_discovery);
        proof {
            let t0 = mid.discovery_addrs@;
            let t1 = self.discovery_addrs@;
            assert(known_addrs(book_view(t0), peer) =~= book_addrs_of(t0, peer));
            assert(t1 == t0.remove(peer).insert(peer, merged_discovery));
            assert(bytes_list_view(merged_discovery@) =~~= merge_addrs(
                book_addrs_of(t0, peer),
                bytes_list_view(listen_addrs@),
            ));
            let lhs = book_view(t1);
            let rhs = book_view(t0).insert(
                peer,
                merge_addrs(book_addrs_of(t0, peer), bytes_list_view(listen_addrs@)),
            );
            assert(lhs[peer] == rhs[peer]);
            assert forall|k: u64| k != peer && lhs.contains_key(k) implies lhs[k] == rhs[k] by {
                assert(t1[k] == t0[k]);
            }
            assert(lhs =~~= rhs);
        }
        let ghost mid2 = *self;
        let rpc_list = take_addrs(&mut self.rpc_addrs, peer);
        let merged_rpc = merge_into(rpc_list, &listen_addrs);
        self.rpc_addrs.insert(peer, merged_rpc);
        proof {
            assert(known_addrs(book_view(mid2.rpc_addrs@), peer) =~= book_addrs_of(
                mid2.rpc_addrs@,
                peer,
            ));
            assert(book_view(self.rpc_addrs@) =~~= book_view(mid2.rpc_addrs@).insert(
                peer,
                merge_addrs(book_addrs_of(mid2.rpc_addrs@, peer), bytes_list_view(listen_addrs@)),
            ));
        }
    }
}

/// Registration keeps exactly the addresses that were known or added:
/// nothing is lost, nothing else appears.
pub proof fn lemma_merge_addrs_contains(existing: Seq<Seq<u8>>, added: Seq<Seq<u8>>, x: Seq<u8>)
    ensures
        seq_contains(merge_addrs(existing, added), x) <==> seq_contains(existing, x)
            || seq_contains(added, x),
    decreases added.len(),
{
    if added.len() == 0 {
        assert(!seq_contains(added, x));
    } else {
        let prev = merge_addrs(existing, added.drop_last());
        lemma_merge_addrs_contains(existing, added.drop_last(), x);
        assert(seq_contains(added.drop_last(), x) || x == added.last() ==> seq_contains(
            added,
            x,
        )) by {
            if seq_contains(added.drop_last(), x) {
                let i = choose|i: int|
                    0 <= i < added.drop_last().len() && added.drop_last()[i] == x;
                assert(added[i] == x);
            } else if x == added.last() {
                assert(added[added.len() - 1] == x);
            }
        }
        assert(seq_contains(added, x) && x != added.last() ==> seq_contains(
            added.drop_last(),
            x,
        )) by {
            if seq_contains(added, x) && x != added.last() {
                let i = choose|i: int| 0 <= i < added.len() && added[i] == x;
                assert(added.drop_last()[i] == x);
            }
        }
        if !seq_contains(prev, added.last()) {
            assert(seq_contains(prev.push(added.last()), x) <==> seq_contains(prev, x) || x
                == added.last()) by {
                if seq_contains(prev.push(added.last()), x) {
                    let i = choose|i: int|
                        0 <= i < prev.push(added.last()).len() && prev.push(added.last())[i] == x;
                    if i < prev.len() {
                        assert(prev[i] == x);
                    }
                } else {
                    if seq_contains(prev, x) {
                        let i = choose|i: int| 0 <= i < prev.len() && prev[i] == x;
                        assert(prev.push(added.last())[i] == x);
                    }
                    if x == added.last() {
                        assert(prev.push(added.last())[prev.len() as int] == x);
                    }
                }
            }
        }
    }
}

/// Registering only already-known addresses changes nothing.
pub proof fn lemma_merge_addrs_noop(existing: Seq<Seq<u8>>, added: Seq<Seq<u8>>)
    requires
        forall|i: int| 0 <= i < added.len() ==> seq_contains(existing, #[trigger] added[i]),
    ensures
        merge_addrs(existing, added) == existing,
    decreases added.len(),
{
    if added.len() > 0 {
        lemma_merge_addrs_noop(existing, added.drop_last());
        assert(seq_contains(existing, added.last())) by {
            assert(added[added.len() - 1] == added.last());
        }
    }
}

/// Law: a peer re-identifying with the same listen addresses is a no-op
/// beyond re-registering them — merging the same additions a second time
/// leaves the address list exactly as the first merge made it.
pub proof fn lemma_reidentify_noop(existing: Seq<Seq<u8>>, added: Seq<Seq<u8>>)
    ensures
        merge_addrs(merge_addrs(existing, added), added) == merge_addrs(existing, added),
{
    let once = merge_addrs(existing, added);
    assert forall|i: int| 0 <= i < added.len() implies seq_contains(once, #[trigger] added[i]) by {
        lemma_merge_addrs_contains(existing, added, added[i]);
    }
    lemma_merge_addrs_noop(once, added);
}

/// Take a peer's stored address list out of a book, leaving the peer
/// unknown; an already unknown peer yields the empty list.
fn take_addrs(m: &mut HashMap<u64, Vec<Address>>, peer: u64) -> (r: Vec<Address>)
    ensures
        final(m)@ == old(m)@.remove(peer),
        bytes_list_view(r@) == book_addrs_of(old(m)@, peer),
{
    match m.remove(&peer) {
        Some(list) => {
            proof {
                assert(bytes_list_view(list@) =~~= book_addrs_of(old(m)@, peer));
            }
            list
        },
        None => {
            let r: Vec<Address> = Vec::new();
            proof {
                assert(final(m)@ =~~= old(m)@.remove(peer));
                assert(bytes_list_view(r@) =~~= book_addrs_of(old(m)@, peer));
            }
            r
        },
    }
}

/// Copy a list of addresses.
pub fn copy_addr_list(list: &Vec<Address>) -> (r: Vec<Address>)
    ensures
        bytes_list_view(r@) == bytes_list_view(list@),
{
    let mut r: Vec<Address> = Vec::new();
    let mut i: usize = 0;
    while i < list.len()
        invariant
            0 <= i <= list.len(),
            r@.len() == i,
            forall|j: int| 0 <= j < i ==> r@[j]@ == list@[j]@,
        decreases list.len() - i,
    {
        r.push(copy_bytes(&list[i]));
        i = i + 1;
    }
    proof {
        assert(bytes_list_view(r@) =~= bytes_list_view(list@));
    }
    r
}

/// Append each added address that the list does not already hold.
fn merge_into(existing: Vec<Address>, added: &Vec<Address>) -> (r: Vec<Address>)
    ensures
        bytes_list_view(r@) == merge_addrs(bytes_list_view(existing@), bytes_list_view(added@)),
{
    let mut cur = existing;
    let mut i: usize = 0;
    while i < added.len()
        invariant
            0 <= i <= added.len(),
            bytes_list_view(cur@) == merge_addrs(
                bytes_list_view(existing@),
                bytes_list_view(added@).subrange(0, i as int),
            ),
        decreases added.len() - i,
    {
        let ghost prefix = bytes_list_view(added@).subrange(0, i as int);
        let ghost prefix1 = bytes_list_view(added@).subrange(0, i + 1int);
        proof {
            assert(prefix1.drop_last() =~= prefix);
            assert(prefix1.last() == added@[i as int]@);
        }
        if !list_contains(&cur, &added[i]) {
            cur.push(copy_bytes(&added[i]));
            proof {
                assert(bytes_list_view(cur@) =~= merge_addrs(
                    bytes_list_view(existing@),
                    prefix,
                ).push(added@[i as int]@));
            }
        }
        i = i + 1;
    }
    proof {
        assert(bytes_list_view(added@).subrange(0, added@.len() as int) =~= bytes_list_view(
            added@,
        ));
    }
    cur
}

} // verus!
