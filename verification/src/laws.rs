//! The engine's governing laws, stated over the same spec functions its
//! contracts use: deduplication of connection submissions, the scheduler's
//! clearing cadence, per-command failure isolation within a pass, and the
//! faithfulness of the data pass to what the node handed back.

use vstd::prelude::*;

use crate::commands::ConnectionCommandView;
use crate::commands::DataCommandView;
use crate::commands::DhtCommandView;
use crate::driver::LogEntryView;
use crate::driver::pass_violation;
use crate::driver::spec_connection_log;
use crate::driver::spec_connection_pass;
use crate::driver::spec_connection_request;
use crate::driver::spec_data_header;
use crate::driver::spec_data_log;
use crate::driver::spec_data_pass;
use crate::driver::spec_data_request;
use crate::driver::spec_dht_log;
use crate::driver::spec_dht_pass;
use crate::driver::spec_dht_request;
use crate::driver::spec_pass;
use crate::protocol::GatewayError;
use crate::protocol::GatewayOutcomeView;
use crate::protocol::IpfsRequestView;
use crate::protocol::is_utf8;
use crate::protocol::IpfsResponseView;
use crate::scheduler::data_queue_cleared_at;
use crate::scheduler::spec_data_queue_after;
use crate::store::enqueue_connection;
use crate::store::lemma_enqueue_connection_contains;
use crate::store::lemma_enqueue_connection_preserves_nodup;
use crate::store::no_duplicates;

verus! {

/// Submitting the same connection command a second time before the queue
/// is drained changes nothing: enqueueing is idempotent.
pub proof fn lemma_enqueue_connection_idempotent(
    q: Seq<ConnectionCommandView>,
    c: ConnectionCommandView,
)
    ensures
        enqueue_connection(enqueue_connection(q, c), c) == enqueue_connection(q, c),
{
    lemma_enqueue_connection_contains(q, c);
}

/// Submitting the same command twice to a duplicate-free queue leaves
/// exactly one entry equal to it: it is present, and any two positions
/// holding it coincide.
pub proof fn lemma_connect_twice_exactly_once(
    q: Seq<ConnectionCommandView>,
    c: ConnectionCommandView,
)
    requires
        no_duplicates(q),
    ensures
        ({
            let q2 = enqueue_connection(enqueue_connection(q, c), c);
            &&& no_duplicates(q2)
            &&& q2.contains(c)
            &&& forall|i: int, j: int|
                0 <= i < q2.len() && 0 <= j < q2.len() && q2[i] == c && q2[j] == c ==> i == j
        }),
{
    lemma_enqueue_connection_idempotent(q, c);
    lemma_enqueue_connection_preserves_nodup(q, c);
    lemma_enqueue_connection_contains(q, c);
}

/// Distinct variants are never deduplicated against each other: a connect
/// and a disconnect for the same address, neither yet queued, yield two
/// entries.
pub proof fn lemma_distinct_commands_not_deduplicated(
    q: Seq<ConnectionCommandView>,
    addr: Seq<u8>,
)
    requires
        !q.contains(ConnectionCommandView::ConnectTo(addr)),
        !q.contains(ConnectionCommandView::DisconnectFrom(addr)),
    ensures
        ({
            let q2 = enqueue_connection(
                enqueue_connection(q, ConnectionCommandView::ConnectTo(addr)),
                ConnectionCommandView::DisconnectFrom(addr),
            );
            q2.len() == q.len() + 2
        }),
{
    let ct = ConnectionCommandView::ConnectTo(addr);
    let df = ConnectionCommandView::DisconnectFrom(addr);
    let q1 = q.push(ct);
    assert forall|i: int| 0 <= i < q1.len() implies q1[i] != df by {
        if i < q.len() {
            if q1[i] == df {
                assert(q[i] == df);
                assert(q.contains(df));
            }
        }
    }
    assert(!q1.contains(df));
}

/// After the scheduler runs, the data queue is empty exactly when the new
/// block height is odd — provided something was queued before, since an
/// already-empty queue stays empty on even heights as well.
pub proof fn lemma_scheduler_data_cadence(before: Seq<DataCommandView>, block_number: u64)
    requires
        before.len() > 0,
    ensures
        spec_data_queue_after(before, block_number).len() == 0 <==> data_queue_cleared_at(
            block_number,
        ),
{
}

/// A gateway failure is never a protocol violation: only a response of the
/// wrong variant is.
pub proof fn lemma_gateway_failure_is_not_violation(req: IpfsRequestView, e: GatewayError)
    ensures
        !pass_violation(req, Err::<IpfsResponseView, GatewayError>(e)),
{
}

/// Failure isolation for any pass: as long as no response mismatches its
/// request's kind — gateway failures included — the pass walks the whole
/// snapshot exactly once, issuing one request and logging one line per
/// command, whatever each outcome was.
pub proof fn lemma_pass_failure_isolation<C>(
    q: Seq<C>,
    outs: Seq<GatewayOutcomeView>,
    req_of: spec_fn(C) -> IpfsRequestView,
    log_of: spec_fn(C, GatewayOutcomeView) -> LogEntryView,
)
    requires
        outs.len() == q.len(),
        forall|i: int| 0 <= i < q.len() ==> !pass_violation(req_of(#[trigger] q[i]), outs[i]),
    ensures
        ({
            let r = spec_pass(q, outs, req_of, log_of);
            &&& !r.aborted
            &&& r.requests == Seq::new(q.len(), |i: int| req_of(q[i]))
            &&& r.logs == Seq::new(q.len(), |i: int| log_of(q[i], outs[i]))
        }),
    decreases q.len(),
{
    let r = spec_pass(q, outs, req_of, log_of);
    if q.len() == 0 {
        assert(r.requests =~= Seq::new(q.len(), |i: int| req_of(q[i])));
        assert(r.logs =~= Seq::new(q.len(), |i: int| log_of(q[i], outs[i])));
    } else {
        let qp = q.drop_last();
        let op = outs.drop_last();
        assert forall|i: int| 0 <= i < qp.len() implies !pass_violation(
            req_of(#[trigger] qp[i]),
            op[i],
        ) by {
            assert(qp[i] == q[i]);
            assert(op[i] == outs[i]);
        }
        lemma_pass_failure_isolation(qp, op, req_of, log_of);
        let last = (q.len() - 1) as int;
        assert(q.last() == q[last]);
        assert(outs.last() == outs[last]);
        assert(!pass_violation(req_of(q[last]), outs[last]));
        assert(r.requests =~= Seq::new(q.len(), |i: int| req_of(q[i])));
        assert(r.logs =~= Seq::new(q.len(), |i: int| log_of(q[i], outs[i])));
    }
}

/// Failure isolation of the connection housekeeping pass: when the gateway
/// fails on any subset of the commands, every command's request is still
/// issued and every outcome logged.
pub proof fn lemma_connection_failure_isolation(
    q: Seq<ConnectionCommandView>,
    outs: Seq<GatewayOutcomeView>,
)
    requires
        outs.len() == q.len(),
        forall|i: int|
            0 <= i < q.len() ==> !pass_violation(spec_connection_request(#[trigger] q[i]), outs[i]),
    ensures
        ({
            let r = spec_connection_pass(q, outs);
            &&& !r.aborted
            &&& r.requests == Seq::new(q.len(), |i: int| spec_connection_request(q[i]))
            &&& r.logs == Seq::new(q.len(), |i: int| spec_connection_log(q[i], outs[i]))
        }),
{
    lemma_pass_failure_isolation(
        q,
        outs,
        |c: ConnectionCommandView| spec_connection_request(c),
        |c: ConnectionCommandView, o: GatewayOutcomeView| spec_connection_log(c, o),
    );
}

/// Failure isolation of the DHT resolution pass: a timed-out or failed
/// request is logged and the rest of the snapshot is still processed.
pub proof fn lemma_dht_failure_isolation(q: Seq<DhtCommandView>, outs: Seq<GatewayOutcomeView>)
    requires
        outs.len() == q.len(),
        forall|i: int|
            0 <= i < q.len() ==> !pass_violation(spec_dht_request(#[trigger] q[i]), outs[i]),
    ensures
        ({
            let r = spec_dht_pass(q, outs);
            &&& !r.aborted
            &&& r.requests == Seq::new(q.len(), |i: int| spec_dht_request(q[i]))
            &&& r.logs == Seq::new(q.len(), |i: int| spec_dht_log(q[i], outs[i]))
        }),
{
    lemma_pass_failure_isolation(
        q,
        outs,
        |c: DhtCommandView| spec_dht_request(c),
        |c: DhtCommandView, o: GatewayOutcomeView| spec_dht_log(c, o),
    );
}

/// Failure isolation of the data processing pass.
pub proof fn lemma_data_failure_isolation(q: Seq<DataCommandView>, outs: Seq<GatewayOutcomeView>)
    requires
        outs.len() == q.len(),
        forall|i: int|
            0 <= i < q.len() ==> !pass_violation(spec_data_request(#[trigger] q[i]), outs[i]),
    ensures
        ({
            let r = spec_data_pass(q, outs);
            &&& !r.aborted
            &&& r.requests == Seq::new(q.len(), |i: int| spec_data_request(q[i]))
            &&& r.logs == spec_data_header(q) + Seq::new(
                q.len(),
                |i: int| spec_data_log(q[i], outs[i]),
            )
        }),
{
    lemma_pass_failure_isolation(
        q,
        outs,
        |c: DataCommandView| spec_data_request(c),
        |c: DataCommandView, o: GatewayOutcomeView| spec_data_log(c, o),
    );
}

/// A pin command always yields a non-recursive pin request, whatever
/// recursive capability the node might support.
pub proof fn lemma_pins_always_non_recursive(cid: Seq<u8>)
    ensures
        spec_data_request(DataCommandView::InsertPin(cid)) == IpfsRequestView::InsertPin(
            cid,
            false,
        ),
        spec_data_request(DataCommandView::RemovePin(cid)) == IpfsRequestView::RemovePin(
            cid,
            false,
        ),
{
}

/// Round trip against a well-behaved node: one that answers an added
/// payload with some content identifier, and a cat of that identifier with
/// the very payload. The data pass then reproduces the added bytes byte
/// for byte in its log, after reporting the snapshot's size.
pub proof fn lemma_add_cat_round_trip(data: Seq<u8>, cid: Seq<u8>)
    ensures
        ({
            let q = seq![DataCommandView::AddBytes(data), DataCommandView::CatBytes(cid)];
            let outs = seq![
                Ok::<IpfsResponseView, GatewayError>(IpfsResponseView::AddBytes(cid)),
                Ok::<IpfsResponseView, GatewayError>(IpfsResponseView::CatBytes(data)),
            ];
            let r = spec_data_pass(q, outs);
            &&& !r.aborted
            &&& r.logs.len() == 3
            &&& r.logs[0] == LogEntryView::DataQueueLen(2)
            &&& r.logs[1] == LogEntryView::BytesAdded(cid)
            &&& r.logs[2] == (if is_utf8(data) {
                LogEntryView::TextDataCat(data)
            } else {
                LogEntryView::BinaryDataCat(data)
            })
        }),
{
    let q = seq![DataCommandView::AddBytes(data), DataCommandView::CatBytes(cid)];
    let outs = seq![
        Ok::<IpfsResponseView, GatewayError>(IpfsResponseView::AddBytes(cid)),
        Ok::<IpfsResponseView, GatewayError>(IpfsResponseView::CatBytes(data)),
    ];
    assert forall|i: int|
        0 <= i < q.len() implies !pass_violation(spec_data_request(#[trigger] q[i]), outs[i]) by {
        if i == 0 {
            assert(q[0] == DataCommandView::AddBytes(data));
            assert(outs[0] == Ok::<IpfsResponseView, GatewayError>(
                IpfsResponseView::AddBytes(cid),
            ));
        } else {
            assert(q[1] == DataCommandView::CatBytes(cid));
            assert(outs[1] == Ok::<IpfsResponseView, GatewayError>(
                IpfsResponseView::CatBytes(data),
            ));
        }
    }
    lemma_data_failure_isolation(q, outs);
    let r = spec_data_pass(q, outs);
    assert(spec_data_header(q) == seq![LogEntryView::DataQueueLen(2)]);
    assert(r.logs[1] == spec_data_log(q[0], outs[0]));
    assert(r.logs[2] == spec_data_log(q[1], outs[1]));
}

/// A pass aborts exactly at the first protocol violation: every earlier
/// command was walked normally, the violating command's request was still
/// issued, its violation logged last, and nothing after it was touched.
pub proof fn lemma_pass_aborts_at_first_violation<C>(
    q: Seq<C>,
    outs: Seq<GatewayOutcomeView>,
    req_of: spec_fn(C) -> IpfsRequestView,
    log_of: spec_fn(C, GatewayOutcomeView) -> LogEntryView,
    k: int,
)
    requires
        outs.len() == q.len(),
        0 <= k < q.len(),
        pass_violation(req_of(q[k]), outs[k]),
        forall|j: int| 0 <= j < k ==> !pass_violation(req_of(#[trigger] q[j]), outs[j]),
    ensures
        ({
            let r = spec_pass(q, outs, req_of, log_of);
            &&& r.aborted
            &&& r.requests.len() == k + 1
            &&& r.requests[k] == req_of(q[k])
            &&& r.logs.len() == k + 1
            &&& r.logs[k] == LogEntryView::ProtocolViolation
        }),
{
    let qk = q.take(k);
    let ok = outs.take(k);
    assert forall|j: int| 0 <= j < qk.len() implies !pass_violation(
        req_of(#[trigger] qk[j]),
        ok[j],
    ) by {
        assert(qk[j] == q[j]);
        assert(ok[j] == outs[j]);
    }
    lemma_pass_failure_isolation(qk, ok, req_of, log_of);
    crate::driver::lemma_pass_extend(q, outs, req_of, log_of, k);
    crate::driver::lemma_pass_absorb(q, outs, req_of, log_of, k + 1);
}

/// The whole pass report under failure isolation keeps queue order: the
/// request at each position is the one for the command at that position.
pub proof fn lemma_pass_preserves_order<C>(
    q: Seq<C>,
    outs: Seq<GatewayOutcomeView>,
    req_of: spec_fn(C) -> IpfsRequestView,
    log_of: spec_fn(C, GatewayOutcomeView) -> LogEntryView,
    i: int,
)
    requires
        outs.len() == q.len(),
        forall|j: int| 0 <= j < q.len() ==> !pass_violation(req_of(#[trigger] q[j]), outs[j]),
        0 <= i < q.len(),
    ensures
        spec_pass(q, outs, req_of, log_of).requests[i] == req_of(q[i]),
        spec_pass(q, outs, req_of, log_of).logs[i] == log_of(q[i], outs[i]),
{
    lemma_pass_failure_isolation(q, outs, req_of, log_of);
}

} // verus!
