//! Engine execution traces.
//!
//! The engine's observable life is a sequence of operations: synchronous
//! commands and the sub-protocol events the executor feeds in.  This module
//! states the engine's behavioural guarantees over whole runs:
//!
//! - an issued block-exchange handle sees at most one terminal outcome
//!   event, ever;
//! - after a cancel, a handle sees no outcome event at all, however late
//!   its completion arrives;
//! - the completion channel of an outbound request is resolved exactly
//!   once, once any completion signal for the request arrives;
//! - a request id handed out by `send_request` is never one that is still
//!   pending.

use vstd::prelude::*;
use crate::correlator::{
    correlator_can_issue, correlator_send, correlator_wf,
};
use crate::engine::{EngineModel, engine_step};
use crate::registry::{
    registry_can_issue, registry_cancel, registry_complete, registry_complete_outcome,
    registry_register, registry_wf,
};
use crate::types::{
    Address, BitswapEvent, Cid, EventView, RequestResponseEvent, SubProtocolEvent,
};

verus! {

/// One operation of the engine's life: a command from an external actor,
/// a drain of the event queue, or a sub-protocol event fed in by the
/// executor.
pub enum EngineOp {
    /// A `get_block` command for this content id.
    GetBlock { cid: Cid },
    /// A `sync_block` command for this content id.
    SyncBlock { cid: Cid },
    /// A `cancel` command for this handle.
    CancelQuery { handle: u64 },
    /// A `send_request` command registering this completion channel.
    SendRequest { channel: u64 },
    /// A `subscribe` command for this topic.
    Subscribe { topic: Vec<u8> },
    /// An `unsubscribe` command for this topic.
    Unsubscribe { topic: Vec<u8> },
    /// A `publish_ad` command with this reachable address.
    PublishAd { public_address: Address },
    /// One `poll` call draining the oldest queued event.
    Poll,
    /// A sub-protocol event handed in by the executor.
    Event(SubProtocolEvent),
}

/// Whether commands that issue fresh identifiers still can; exhausted
/// issuers make the command a no-op so that runs are total.
pub open spec fn trace_wf(m: EngineModel) -> bool {
    &&& registry_wf(m.registry)
    &&& correlator_wf(m.correlator)
}

/// State after one operation, mirroring each exec function's contract.
pub open spec fn engine_op_step(m: EngineModel, op: EngineOp) -> EngineModel {
    match op {
        EngineOp::GetBlock { cid } => if registry_can_issue(m.registry) {
            EngineModel { registry: registry_register(m.registry, cid@), ..m }
        } else {
            m
        },
        EngineOp::SyncBlock { cid } => if registry_can_issue(m.registry) {
            EngineModel { registry: registry_register(m.registry, cid@), ..m }
        } else {
            m
        },
        EngineOp::CancelQuery { handle } => EngineModel {
            registry: registry_cancel(m.registry, handle),
            ..m
        },
        EngineOp::SendRequest { channel } => if correlator_can_issue(m.correlator) {
            EngineModel { correlator: correlator_send(m.correlator, channel), ..m }
        } else {
            m
        },
        EngineOp::Subscribe { topic } => EngineModel {
            subscriptions: m.subscriptions.insert(topic@),
            ..m
        },
        EngineOp::Unsubscribe { topic } => EngineModel {
            subscriptions: m.subscriptions.remove(topic@),
            ..m
        },
        EngineOp::PublishAd { public_address } => EngineModel {
            events: m.events.push(
                EventView::StartPublish { public_address: public_address@ },
            ),
            ..m
        },
        EngineOp::Poll => if m.events.len() > 0 {
            EngineModel { events: m.events.drop_first(), ..m }
        } else {
            m
        },
        EngineOp::Event(e) => engine_step(m, e),
    }
}

/// Whether an operation appends the terminal outcome event for handle `h`
/// to the queue: only a block-exchange completion of the registered
/// handle does.
pub open spec fn op_emits_outcome_for(m: EngineModel, op: EngineOp, h: u64) -> bool {
    match op {
        EngineOp::Event(SubProtocolEvent::Bitswap(BitswapEvent::Complete { query_id, succeeded })) => {
            match registry_complete_outcome(m.registry, query_id, succeeded) {
                Some(info) => info.query_id == h,
                None => false,
            }
        },
        _ => false,
    }
}

/// Whether an operation resolves the completion channel of request `id`:
/// only a response or outbound failure for the pending id does.
pub open spec fn op_delivers_for(m: EngineModel, op: EngineOp, id: u64) -> bool {
    match op {
        EngineOp::Event(SubProtocolEvent::RequestResponse(e)) => match e {
            RequestResponseEvent::Response { request_id, .. } => request_id == id
                && m.correlator.pending.contains_key(id),
            RequestResponseEvent::OutboundFailure { request_id, .. } => request_id == id
                && m.correlator.pending.contains_key(id),
            _ => false,
        },
        _ => false,
    }
}

/// Whether an operation is a completion signal (response or outbound
/// failure) for request `id`, pending or not.
pub open spec fn op_signals_for(op: EngineOp, id: u64) -> bool {
    match op {
        EngineOp::Event(SubProtocolEvent::RequestResponse(e)) => match e {
            RequestResponseEvent::Response { request_id, .. } => request_id == id,
            RequestResponseEvent::OutboundFailure { request_id, .. } => request_id == id,
            _ => false,
        },
        _ => false,
    }
}

/// How many outcome events a run appends for handle `h`.
pub open spec fn outcomes_in_run(m: EngineModel, ops: Seq<EngineOp>, h: u64) -> nat
    decreases ops.len(),
{
    if ops.len() == 0 {
        0
    } else {
        (if op_emits_outcome_for(m, ops[0], h) {
            1nat
        } else {
            0nat
        }) + outcomes_in_run(engine_op_step(m, ops[0]), ops.drop_first(), h)
    }
}

/// How many channel resolutions a run performs for request `id`.
pub open spec fn deliveries_in_run(m: EngineModel, ops: Seq<EngineOp>, id: u64) -> nat
    decreases ops.len(),
{
    if ops.len() == 0 {
        0
    } else {
        (if op_delivers_for(m, ops[0], id) {
            1nat
        } else {
            0nat
        }) + deliveries_in_run(engine_op_step(m, ops[0]), ops.drop_first(), id)
    }
}

/// Whether a run contains a completion signal for request `id`.
pub open spec fn run_has_signal_for(ops: Seq<EngineOp>, id: u64) -> bool {
    exists|i: int| 0 <= i < ops.len() && op_signals_for(ops[i], id)
}

/// Every operation preserves well-formedness; an outcome for `h` settles
/// `h` (done, no longer pending); a settled `h` never emits again; a
/// delivery for `id` settles `id` likewise.
pub proof fn lemma_engine_op_wf(m: EngineModel, op: EngineOp)
    requires
        trace_wf(m),
    ensures
        trace_wf(engine_op_step(m, op)),
        m.registry.done <= engine_op_step(m, op).registry.done,
        m.correlator.delivered <= engine_op_step(m, op).correlator.delivered,
        forall|h: u64|
            op_emits_outcome_for(m, op, h) ==> engine_op_step(m, op).registry.done.contains(h)
                && !engine_op_step(m, op).registry.queries.contains_key(h),
        forall|h: u64| m.registry.done.contains(h) ==> !op_emits_outcome_for(m, op, h),
        forall|h: u64|
            h < m.registry.next_handle && !m.registry.queries.contains_key(h) ==> h
                < engine_op_step(m, op).registry.next_handle && !engine_op_step(
                m,
                op,
            ).registry.queries.contains_key(h),
        forall|id: u64|
            op_delivers_for(m, op, id) ==> engine_op_step(m, op).correlator.delivered.contains(id)
                && !engine_op_step(m, op).correlator.pending.contains_key(id),
        forall|id: u64| m.correlator.delivered.contains(id) ==> !op_delivers_for(m, op, id),
        forall|id: u64|
            m.correlator.pending.contains_key(id) && !op_signals_for(op, id) ==> engine_op_step(
                m,
                op,
            ).correlator.pending.contains_key(id),
{
}

/// Law: for every issued `get_block`/`sync_block` handle, at most one
/// terminal outcome event is ever appended to the event queue — none at
/// all once the handle's outcome has been emitted.
pub proof fn lemma_run_at_most_one_outcome(m: EngineModel, ops: Seq<EngineOp>, h: u64)
    requires
        trace_wf(m),
    ensures
        outcomes_in_run(m, ops, h) <= if m.registry.done.contains(h) {
            0int
        } else {
            1int
        },
    decreases ops.len(),
{
    if ops.len() > 0 {
        let op = ops[0];
        let m1 = engine_op_step(m, op);
        lemma_engine_op_wf(m, op);
        lemma_run_at_most_one_outcome(m1, ops.drop_first(), h);
    }
}

/// Law: cancelling a handle before its completion arrives guarantees zero
/// outcome events for it thereafter — a late completion is silently
/// dropped, and the handle can never be re-registered because handles are
/// never reissued.
pub proof fn lemma_run_cancelled_stays_silent(m: EngineModel, ops: Seq<EngineOp>, h: u64)
    requires
        trace_wf(m),
        h < m.registry.next_handle,
        !m.registry.queries.contains_key(h),
    ensures
        outcomes_in_run(m, ops, h) == 0,
    decreases ops.len(),
{
    if ops.len() > 0 {
        let op = ops[0];
        let m1 = engine_op_step(m, op);
        lemma_engine_op_wf(m, op);
        lemma_run_cancelled_stays_silent(m1, ops.drop_first(), h);
    }
}

/// Law, first half: the completion channel of a request is resolved at
/// most once in any run — never again once its resolution went out.
pub proof fn lemma_run_at_most_one_delivery(m: EngineModel, ops: Seq<EngineOp>, id: u64)
    requires
        trace_wf(m),
    ensures
        deliveries_in_run(m, ops, id) <= if m.correlator.delivered.contains(id) {
            0int
        } else {
            1int
        },
    decreases ops.len(),
{
    if ops.len() > 0 {
        let op = ops[0];
        let m1 = engine_op_step(m, op);
        lemma_engine_op_wf(m, op);
        lemma_run_at_most_one_delivery(m1, ops.drop_first(), id);
    }
}

/// Law, second half: once any completion signal for a pending request
/// arrives — the sub-protocol reports every request eventually, a timeout
/// failure at the latest — its channel is resolved at least once: the
/// first signal finds the request still pending.
pub proof fn lemma_run_at_least_one_delivery(m: EngineModel, ops: Seq<EngineOp>, id: u64)
    requires
        trace_wf(m),
        m.correlator.pending.contains_key(id),
        run_has_signal_for(ops, id),
    ensures
        deliveries_in_run(m, ops, id) >= 1,
    decreases ops.len(),
{
    let op = ops[0];
    let m1 = engine_op_step(m, op);
    lemma_engine_op_wf(m, op);
    if !op_delivers_for(m, op, id) {
        assert(!op_signals_for(op, id));
        assert(m1.correlator.pending.contains_key(id));
        assert(run_has_signal_for(ops.drop_first(), id)) by {
            let i = choose|i: int| 0 <= i < ops.len() && op_signals_for(ops[i], id);
            assert(op_signals_for(ops.drop_first()[i - 1], id));
        }
        lemma_run_at_least_one_delivery(m1, ops.drop_first(), id);
    }
}

/// Law: for every `send_request`, the completion channel is resolved
/// exactly once — one `Ok` or one `Err`, never both, never none, absent
/// artificial channel abandonment — once the sub-protocol signals the
/// request's completion.
pub proof fn lemma_run_exactly_one_delivery(m: EngineModel, ops: Seq<EngineOp>, id: u64)
    requires
        trace_wf(m),
        m.correlator.pending.contains_key(id),
        run_has_signal_for(ops, id),
    ensures
        deliveries_in_run(m, ops, id) == 1,
{
    lemma_run_at_most_one_delivery(m, ops, id);
    lemma_run_at_least_one_delivery(m, ops, id);
}

/// Law: request identifiers are never reused while a request is pending —
/// the id a `send_request` hands out is not pending at that moment, and
/// every pending request keeps its entry, untouched, under its own id.
pub proof fn lemma_send_request_id_fresh(m: EngineModel, channel: u64)
    requires
        trace_wf(m),
        correlator_can_issue(m.correlator),
    ensures
        !m.correlator.pending.contains_key(m.correlator.next_request_id),
        !m.correlator.delivered.contains(m.correlator.next_request_id),
        forall|id: u64|
            m.correlator.pending.contains_key(id)
                ==> engine_op_step(m, EngineOp::SendRequest { channel }).correlator.pending.contains_key(id)
                && engine_op_step(m, EngineOp::SendRequest { channel }).correlator.pending[id]
                == m.correlator.pending[id],
{
}

} // verus!
