//! Request/response correlator.
//!
//! Matches outbound generic RPC requests to their eventual response or
//! failure through single-use completion channels.  Each `send_request`
//! stores `{request id -> completion channel}`; the entry is removed exactly
//! once — on the success response, on an outbound failure, or on the
//! protocol-reported timeout (synthesized as a failure) — and the channel
//! receives exactly one resolution.  Request ids come from a monotone
//! counter, so an id is never reused while a request is pending.

use vstd::prelude::*;
use std::collections::HashMap;

verus! {

broadcast use vstd::std_specs::hash::group_hash_axioms;

/// Abstract state of the correlator: the pending requests (request id to
/// completion-channel token), the next request id to issue, and the set of
/// request ids whose resolution has been handed out.
#[verifier::ext_equal]
pub struct CorrelatorModel {
    /// Pending requests: request id to completion-channel token.
    pub pending: Map<u64, u64>,
    /// Next request id to issue; every id ever issued is below it.
    pub next_request_id: u64,
    /// Request ids for which a resolution was delivered.
    pub delivered: Set<u64>,
}

/// Well-formedness: issued ids stay below the issue counter, and no pending
/// id has been resolved already.
pub open spec fn correlator_wf(m: CorrelatorModel) -> bool {
    &&& forall|id: u64| m.pending.contains_key(id) ==> id < m.next_request_id
    &&& forall|id: u64| m.delivered.contains(id) ==> id < m.next_request_id
    &&& forall|id: u64| m.pending.contains_key(id) ==> !m.delivered.contains(id)
}

/// The empty correlator.
pub open spec fn correlator_init() -> CorrelatorModel {
    CorrelatorModel { pending: Map::empty(), next_request_id: 0, delivered: Set::empty() }
}

/// True while the correlator can still issue a fresh request id.
pub open spec fn correlator_can_issue(m: CorrelatorModel) -> bool {
    m.next_request_id < u64::MAX
}

/// Sending: store the completion channel under the fresh id
/// `m.next_request_id` and advance the counter.
pub open spec fn correlator_send(m: CorrelatorModel, channel: u64) -> CorrelatorModel {
    CorrelatorModel {
        pending: m.pending.insert(m.next_request_id, channel),
        next_request_id: (m.next_request_id + 1) as u64,
        delivered: m.delivered,
    }
}

/// Resolution: if the id is pending, remove the entry and mark the id
/// delivered; an unknown id (a duplicate or orphaned signal) changes
/// nothing.
pub open spec fn correlator_resolve(m: CorrelatorModel, id: u64) -> CorrelatorModel {
    if m.pending.contains_key(id) {
        CorrelatorModel {
            pending: m.pending.remove(id),
            next_request_id: m.next_request_id,
            delivered: m.delivered.insert(id),
        }
    } else {
        m
    }
}

/// The completion channel a resolution hands back, if the id was pending.
pub open spec fn correlator_resolve_channel(m: CorrelatorModel, id: u64) -> Option<u64> {
    if m.pending.contains_key(id) {
        Some(m.pending[id])
    } else {
        None
    }
}

/// Request/response correlator: the executable state the engine owns.
pub struct RequestResponseCorrelator {
    pending: HashMap<u64, u64>,
    next_request_id: u64,
    delivered: Ghost<Set<u64>>,
}

impl RequestResponseCorrelator {
    /// The correlator's abstract state.
    pub closed spec fn model(&self) -> CorrelatorModel {
        CorrelatorModel {
            pending: self.pending@,
            next_request_id: self.next_request_id,
            delivered: self.delivered@,
        }
    }

    /// Well-formedness of the correlator's abstract state.
    pub open spec fn wf(&self) -> bool {
        correlator_wf(self.model())
    }

    /// Create an empty correlator.
    pub fn new() -> (r: Self)
        ensures
            r.wf(),
            r.model() == correlator_init(),
    {
        let r = RequestResponseCorrelator {
            pending: HashMap::new(),
            next_request_id: 0,
            delivered: Ghost(Set::empty()),
        };
        proof {
            assert(r.model() =~= correlator_init());
        }
        r
    }

    /// Register an outbound request: the completion-channel token is stored
    /// under a fresh request id, which was not pending before and has never
    /// been issued before.
    pub fn send(&mut self, channel: u64) -> (id: u64)
        requires
            old(self).wf(),
            correlator_can_issue(old(self).model()),
        ensures
            final(self).wf(),
            id == old(self).model().next_request_id,
            !old(self).model().pending.contains_key(id),
            !old(self).model().delivered.contains(id),
            final(self).model() == correlator_send(old(self).model(), channel),
    {
        let id = self.next_request_id;
        self.pending.insert(id, channel);
        self.next_request_id = self.next_request_id + 1;
        proof {
            assert(final(self).model() =~= correlator_send(old(self).model(), channel));
        }
        id
    }

    /// Resolve a request id on a completion signal (success response,
    /// outbound failure, or synthesized timeout).  A pending id yields its
    /// completion channel exactly once; a duplicate or unknown id yields
    /// nothing and changes nothing.
    pub fn resolve(&mut self, id: u64) -> (channel: Option<u64>)
        requires
            old(self).wf(),
        ensures
            final(self).wf(),
            final(self).model() == correlator_resolve(old(self).model(), id),
            channel == correlator_resolve_channel(old(self).model(), id),
    {
        match self.pending.remove(&id) {
            Some(channel) => {
                let ghost m0 = old(self).model();
                self.delivered = Ghost(self.delivered@.insert(id));
                proof {
                    assert(final(self).model() =~= correlator_resolve(m0, id));
                }
                Some(channel)
            },
            None => {
                proof {
                    assert(final(self).model() =~= correlator_resolve(old(self).model(), id));
                }
                None
            },
        }
    }

    /// Whether the correlator can still issue a fresh request id.
    pub fn can_issue(&self) -> (r: bool)
        ensures
            r == correlator_can_issue(self.model()),
    {
        self.next_request_id < u64::MAX
    }

    /// Whether a request id is currently pending.
    pub fn contains(&self, id: u64) -> (r: bool)
        requires
            self.wf(),
        ensures
            r == self.model().pending.contains_key(id),
    {
        self.pending.contains_key(&id)
    }
}

} // verus!
