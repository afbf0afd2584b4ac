//! Block-exchange query registry.
//!
//! Tracks the in-flight "get one block" / "sync whole content tree" queries
//! issued to the block-exchange sub-protocol.  Every query is `Pending` from
//! creation until it reaches exactly one of the terminal states
//! `Completed(found)` or `Cancelled`; a completion that arrives for a handle
//! no longer registered (already cancelled or already completed) is dropped
//! silently, so no handle ever sees a second terminal outcome.

use vstd::prelude::*;
use std::collections::HashMap;
use crate::types::{BitswapInfo, BitswapInfoView, Cid, CidView, opt_view};

verus! {

broadcast use vstd::std_specs::hash::group_hash_axioms;

/// Abstract state of the registry: the pending queries keyed by handle, the
/// next handle to issue, and the set of handles whose terminal outcome has
/// already been emitted.
#[verifier::ext_equal]
pub struct RegistryModel {
    /// In-flight queries, keyed by their handle.
    pub queries: Map<u64, BitswapInfoView>,
    /// Next handle to hand out; all handles ever issued are below it.
    pub next_handle: u64,
    /// Handles for which a terminal outcome was emitted.
    pub done: Set<u64>,
}

/// Well-formedness: issued handles stay below the issue counter, an entry's
/// stored handle is its key, and no pending handle already has an outcome.
pub open spec fn registry_wf(m: RegistryModel) -> bool {
    &&& forall|h: u64| m.queries.contains_key(h) ==> h < m.next_handle
    &&& forall|h: u64| m.done.contains(h) ==> h < m.next_handle
    &&& forall|h: u64| m.queries.contains_key(h) ==> !m.done.contains(h)
    &&& forall|h: u64| m.queries.contains_key(h) ==> (#[trigger] m.queries[h]).query_id == h
}

/// The empty registry.
pub open spec fn registry_init() -> RegistryModel {
    RegistryModel { queries: Map::empty(), next_handle: 0, done: Set::empty() }
}

/// True while the registry can still issue a fresh handle.
pub open spec fn registry_can_issue(m: RegistryModel) -> bool {
    m.next_handle < u64::MAX
}

/// Registration: record `{handle, cid, found: false}` under the fresh handle
/// `m.next_handle` and advance the counter.
pub open spec fn registry_register(m: RegistryModel, cid: CidView) -> RegistryModel {
    RegistryModel {
        queries: m.queries.insert(
            m.next_handle,
            BitswapInfoView { cid: cid, query_id: m.next_handle, block_found: false },
        ),
        next_handle: (m.next_handle + 1) as u64,
        done: m.done,
    }
}

/// Completion: if the handle is registered, remove it and mark its outcome
/// emitted; otherwise the completion is an orphan and nothing changes.
pub open spec fn registry_complete(m: RegistryModel, handle: u64, succeeded: bool) -> RegistryModel {
    if m.queries.contains_key(handle) {
        RegistryModel {
            queries: m.queries.remove(handle),
            next_handle: m.next_handle,
            done: m.done.insert(handle),
        }
    } else {
        m
    }
}

/// The single terminal outcome a completion emits: the registered query with
/// its found flag set from the protocol result, or nothing for an orphan.
pub open spec fn registry_complete_outcome(m: RegistryModel, handle: u64, succeeded: bool) -> Option<
    BitswapInfoView,
> {
    if m.queries.contains_key(handle) {
        Some(
            BitswapInfoView {
                cid: m.queries[handle].cid,
                query_id: handle,
                block_found: succeeded,
            },
        )
    } else {
        None
    }
}

/// Cancellation: remove the entry unconditionally; the handle's outcome set
/// is untouched, so a later completion finds nothing and emits nothing.
pub open spec fn registry_cancel(m: RegistryModel, handle: u64) -> RegistryModel {
    RegistryModel { queries: m.queries.remove(handle), next_handle: m.next_handle, done: m.done }
}

/// The abstract content of the executable query table.
pub open spec fn queries_view(t: Map<u64, BitswapInfo>) -> Map<u64, BitswapInfoView> {
    Map::new(|k: u64| t.contains_key(k), |k: u64| t[k]@)
}

/// Block-exchange query registry: the executable state the engine owns.
pub struct BlockExchangeRegistry {
    queries: HashMap<u64, BitswapInfo>,
    next_handle: u64,
    done: Ghost<Set<u64>>,
}

impl BlockExchangeRegistry {
    /// The registry's abstract state.
    pub closed spec fn model(&self) -> RegistryModel {
        RegistryModel {
            queries: queries_view(self.queries@),
            next_handle: self.next_handle,
            done: self.done@,
        }
    }

    /// Well-formedness of the registry's abstract state.
    pub open spec fn wf(&self) -> bool {
        registry_wf(self.model())
    }

    /// Create an empty registry.
    pub fn new() -> (r: Self)
        ensures
            r.wf(),
            r.model() == registry_init(),
    {
        let r = BlockExchangeRegistry {
            queries: HashMap::new(),
            next_handle: 0,
            done: Ghost(Set::empty()),
        };
        proof {
            assert(r.model() =~= registry_init());
        }
        r
    }

    /// Register a fresh query for `cid`; the returned handle has never been
    /// issued before and starts in the `Pending` state with `found = false`.
    pub fn register(&mut self, cid: Cid) -> (handle: u64)
        requires
            old(self).wf(),
            registry_can_issue(old(self).model()),
        ensures
            final(self).wf(),
            handle == old(self).model().next_handle,
            !old(self).model().queries.contains_key(handle),
            !old(self).model().done.contains(handle),
            final(self).model() == registry_register(old(self).model(), cid@),
    {
        let handle = self.next_handle;
        let info = BitswapInfo { cid: cid, query_id: handle, block_found: false };
        self.queries.insert(handle, info);
        self.next_handle = self.next_handle + 1;
        proof {
            assert(queries_view(self.queries@) =~= queries_view(old(self).queries@).insert(
                handle,
                info@,
            ));
            assert(final(self).model() =~= registry_register(old(self).model(), cid@));
        }
        handle
    }

    /// Deliver a completion from the block-exchange sub-protocol.  A
    /// registered handle yields its single terminal outcome and leaves the
    /// registry; an unknown handle (already cancelled or completed) is an
    /// orphan and is dropped silently.
    pub fn complete(&mut self, handle: u64, succeeded: bool) -> (outcome: Option<BitswapInfo>)
        requires
            old(self).wf(),
        ensures
            final(self).wf(),
            final(self).model() == registry_complete(old(self).model(), handle, succeeded),
            opt_view(outcome) == registry_complete_outcome(old(self).model(), handle, succeeded),
    {
        match self.queries.remove(&handle) {
            Some(info) => {
                let ghost m0 = old(self).model();
                self.done = Ghost(self.done@.insert(handle));
                proof {
                    assert(queries_view(self.queries@) =~= queries_view(old(self).queries@).remove(
                        handle,
                    ));
                    assert(final(self).model() =~= registry_complete(m0, handle, succeeded));
                }
                Some(BitswapInfo { cid: info.cid, query_id: handle, block_found: succeeded })
            },
            None => {
                proof {
                    assert(final(self).model() =~= registry_complete(
                        old(self).model(),
                        handle,
                        succeeded,
                    ));
                }
                None
            },
        }
    }

    /// Cancel a handle: its entry is removed unconditionally, so any later
    /// completion for it is an orphan and emits nothing.
    pub fn cancel(&mut self, handle: u64)
        requires
            old(self).wf(),
        ensures
            final(self).wf(),
            final(self).model() == registry_cancel(old(self).model(), handle),
            !final(self).model().queries.contains_key(handle),
    {
        self.queries.remove(&handle);
        proof {
            assert(queries_view(self.queries@) =~= queries_view(old(self).queries@).remove(
                handle,
            ));
            assert(final(self).model() =~= registry_cancel(old(self).model(), handle));
        }
    }

    /// Whether the registry can still issue a fresh handle.
    pub fn can_issue(&self) -> (r: bool)
        ensures
            r == registry_can_issue(self.model()),
    {
        self.next_handle < u64::MAX
    }

    /// Whether a handle is currently pending.
    pub fn contains(&self, handle: u64) -> (r: bool)
        requires
            self.wf(),
        ensures
            r == self.model().queries.contains_key(handle),
    {
        self.queries.contains_key(&handle)
    }
}

} // verus!
