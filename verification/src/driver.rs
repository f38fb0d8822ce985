//! The offchain dispatch driver. Once per imported block, outside the
//! consensus-critical path, it walks snapshots of the three queues in four
//! independent passes: connection housekeeping and DHT resolution on every
//! block, data queue processing on odd heights, and a metadata report on
//! every fifth block. Per-command failures are logged and the pass
//! continues; a response variant that does not match its request kind is an
//! internal-consistency violation that aborts that pass alone.
//!
//! The node I/O itself is the surrounding runtime's job: each pass here is
//! the pure decision logic, taking the queue snapshot together with the
//! outcome the gateway yielded for each issued request, and returning the
//! requests issued and the log entries produced.

use vstd::prelude::*;

use crate::commands::ConnectionCommand;
use crate::commands::ConnectionCommandView;
use crate::commands::DataCommand;
use crate::commands::DataCommandView;
use crate::commands::DhtCommand;
use crate::commands::DhtCommandView;
use crate::commands::clone_bytes;
use crate::commands::conn_seq_view;
use crate::commands::data_seq_view;
use crate::commands::dht_seq_view;
use crate::protocol::GatewayError;
use crate::protocol::GatewayOutcome;
use crate::protocol::GatewayOutcomeView;
use crate::protocol::IpfsRequest;
use crate::protocol::IpfsRequestView;
use crate::protocol::IpfsResponse;
use crate::protocol::IpfsResponseView;
use crate::protocol::NodeInteraction;
use crate::protocol::check_response_matches;
use crate::protocol::clone_bytes_list;
use crate::protocol::is_utf8;
use crate::protocol::outcome_view;
use crate::protocol::outcomes_view;
use crate::protocol::response_matches;
use crate::protocol::utf8_ok;
use crate::store::QueueStore;

verus! {

/// One structured log line: the only externally observable effect of the
/// offchain context.
pub enum LogEntryView {
    ConnectedTo(Seq<u8>),
    DisconnectedFrom(Seq<u8>),
    PeerAddressesFound(Seq<u8>, Seq<Seq<u8>>),
    ProvidersFound(Seq<u8>, Seq<Seq<u8>>),
    DataQueueLen(usize),
    BytesAdded(Seq<u8>),
    TextDataCat(Seq<u8>),
    BinaryDataCat(Seq<u8>),
    BlockRemoved(Seq<u8>),
    Pinned(Seq<u8>),
    Unpinned(Seq<u8>),
    PeerCount(usize),
    CommandFailed(GatewayError),
    RequestFailedIo(Seq<u8>, bool),
    RequestFailedOther,
    ProtocolViolation,
}

/// One structured log line, as the runtime renders it.
#[derive(Clone, Debug, PartialEq, Eq)]
pub enum LogEntry {
    ConnectedTo(Vec<u8>),
    DisconnectedFrom(Vec<u8>),
    PeerAddressesFound(Vec<u8>, Vec<Vec<u8>>),
    ProvidersFound(Vec<u8>, Vec<Vec<u8>>),
    DataQueueLen(usize),
    BytesAdded(Vec<u8>),
    TextDataCat(Vec<u8>),
    BinaryDataCat(Vec<u8>),
    BlockRemoved(Vec<u8>),
    Pinned(Vec<u8>),
    Unpinned(Vec<u8>),
    PeerCount(usize),
    CommandFailed(GatewayError),
    RequestFailedIo(Vec<u8>, bool),
    RequestFailedOther,
    ProtocolViolation,
}

impl View for LogEntry {
    type V = LogEntryView;

    open spec fn view(&self) -> LogEntryView {
        match self {
            LogEntry::ConnectedTo(addr) => LogEntryView::ConnectedTo(addr@),
            LogEntry::DisconnectedFrom(addr) => LogEntryView::DisconnectedFrom(addr@),
            LogEntry::PeerAddressesFound(peer_id, addrs) => LogEntryView::PeerAddressesFound(
                peer_id@,
                crate::protocol::bytes_seq_view(addrs@),
            ),
            LogEntry::ProvidersFound(cid, peer_ids) => LogEntryView::ProvidersFound(
                cid@,
                crate::protocol::bytes_seq_view(peer_ids@),
            ),
            LogEntry::DataQueueLen(n) => LogEntryView::DataQueueLen(*n),
            LogEntry::BytesAdded(cid) => LogEntryView::BytesAdded(cid@),
            LogEntry::TextDataCat(data) => LogEntryView::TextDataCat(data@),
            LogEntry::BinaryDataCat(data) => LogEntryView::BinaryDataCat(data@),
            LogEntry::BlockRemoved(cid) => LogEntryView::BlockRemoved(cid@),
            LogEntry::Pinned(cid) => LogEntryView::Pinned(cid@),
            LogEntry::Unpinned(cid) => LogEntryView::Unpinned(cid@),
            LogEntry::PeerCount(n) => LogEntryView::PeerCount(*n),
            LogEntry::CommandFailed(e) => LogEntryView::CommandFailed(*e),
            LogEntry::RequestFailedIo(bytes, textual) => LogEntryView::RequestFailedIo(
                bytes@,
                *textual,
            ),
            LogEntry::RequestFailedOther => LogEntryView::RequestFailedOther,
            LogEntry::ProtocolViolation => LogEntryView::ProtocolViolation,
        }
    }
}

/// Abstraction of a vector of requests, element by element.
pub open spec fn req_seq_view(s: Seq<IpfsRequest>) -> Seq<IpfsRequestView> {
    s.map_values(|r: IpfsRequest| r@)
}

/// Abstraction of a vector of log entries, element by element.
pub open spec fn log_seq_view(s: Seq<LogEntry>) -> Seq<LogEntryView> {
    s.map_values(|l: LogEntry| l@)
}

/// Offchain-context failure: a gateway failure surfaced by the metadata
/// pass, or a response variant that mismatched its request kind.
#[derive(Clone, Copy, Debug, PartialEq, Eq, Structural)]
pub enum DriverError {
    Gateway(GatewayError),
    ProtocolInvariantViolation,
}

/// The gateway's classification of one node interaction: the response, or
/// the failure mode of the attempt, together with the log line it emits
/// when the node itself reported an error (its error bytes are decoded as
/// text on a best-effort basis).
pub fn ipfs_request_outcome(raw: NodeInteraction) -> (r: (GatewayOutcome, Option<LogEntry>))
    ensures
        match raw {
            NodeInteraction::CouldNotCreate => r.0 == Err::<IpfsResponse, GatewayError>(
                GatewayError::CantCreateRequest,
            ) && r.1 is None,
            NodeInteraction::TimedOut => r.0 == Err::<IpfsResponse, GatewayError>(
                GatewayError::RequestTimeout,
            ) && r.1 is None,
            NodeInteraction::IoError(bytes) => r.0 == Err::<IpfsResponse, GatewayError>(
                GatewayError::RequestFailed,
            ) && (r.1 matches Some(l) && l@ == LogEntryView::RequestFailedIo(
                bytes@,
                is_utf8(bytes@),
            )),
            NodeInteraction::OtherNodeError => r.0 == Err::<IpfsResponse, GatewayError>(
                GatewayError::RequestFailed,
            ) && (r.1 matches Some(l) && l@ == LogEntryView::RequestFailedOther),
            NodeInteraction::Responded(resp) => r.0 == Ok::<IpfsResponse, GatewayError>(resp)
                && r.1 is None,
        },
{
    match raw {
        NodeInteraction::CouldNotCreate => (Err(GatewayError::CantCreateRequest), None),
        NodeInteraction::TimedOut => (Err(GatewayError::RequestTimeout), None),
        NodeInteraction::IoError(bytes) => {
            let textual = utf8_ok(&bytes);
            (Err(GatewayError::RequestFailed), Some(LogEntry::RequestFailedIo(bytes, textual)))
        },
        NodeInteraction::OtherNodeError => (
            Err(GatewayError::RequestFailed),
            Some(LogEntry::RequestFailedOther),
        ),
        NodeInteraction::Responded(resp) => (Ok(resp), None),
    }
}

/// The request issued for a connection command.
pub open spec fn spec_connection_request(c: ConnectionCommandView) -> IpfsRequestView {
    match c {
        ConnectionCommandView::ConnectTo(addr) => IpfsRequestView::Connect(addr),
        ConnectionCommandView::DisconnectFrom(addr) => IpfsRequestView::Disconnect(addr),
    }
}

/// The request issued for a DHT command.
pub open spec fn spec_dht_request(c: DhtCommandView) -> IpfsRequestView {
    match c {
        DhtCommandView::FindPeer(peer_id) => IpfsRequestView::FindPeer(peer_id),
        DhtCommandView::GetProviders(cid) => IpfsRequestView::GetProviders(cid),
    }
}

/// The request issued for a data command. Pin operations are always
/// non-recursive, whatever the node might support.
pub open spec fn spec_data_request(c: DataCommandView) -> IpfsRequestView {
    match c {
        DataCommandView::AddBytes(data) => IpfsRequestView::AddBytes(data),
        DataCommandView::CatBytes(cid) => IpfsRequestView::CatBytes(cid),
        DataCommandView::InsertPin(cid) => IpfsRequestView::InsertPin(cid, false),
        DataCommandView::RemoveBlock(cid) => IpfsRequestView::RemoveBlock(cid),
        DataCommandView::RemovePin(cid) => IpfsRequestView::RemovePin(cid, false),
    }
}

/// Builds the request for a connection command.
pub fn connection_request(c: &ConnectionCommand) -> (r: IpfsRequest)
    ensures
        r@ == spec_connection_request(c@),
{
    match c {
        ConnectionCommand::ConnectTo(addr) => IpfsRequest::Connect(clone_bytes(addr)),
        ConnectionCommand::DisconnectFrom(addr) => IpfsRequest::Disconnect(clone_bytes(addr)),
    }
}

/// Builds the request for a DHT command.
pub fn dht_request(c: &DhtCommand) -> (r: IpfsRequest)
    ensures
        r@ == spec_dht_request(c@),
{
    match c {
        DhtCommand::FindPeer(peer_id) => IpfsRequest::FindPeer(clone_bytes(peer_id)),
        DhtCommand::GetProviders(cid) => IpfsRequest::GetProviders(clone_bytes(cid)),
    }
}

/// Builds the request for a data command; pins are always non-recursive.
pub fn data_request(c: &DataCommand) -> (r: IpfsRequest)
    ensures
        r@ == spec_data_request(c@),
{
    match c {
        DataCommand::AddBytes(data) => IpfsRequest::AddBytes(clone_bytes(data)),
        DataCommand::CatBytes(cid) => IpfsRequest::CatBytes(clone_bytes(cid)),
        DataCommand::InsertPin(cid) => IpfsRequest::InsertPin(clone_bytes(cid), false),
        DataCommand::RemoveBlock(cid) => IpfsRequest::RemoveBlock(clone_bytes(cid)),
        DataCommand::RemovePin(cid) => IpfsRequest::RemovePin(clone_bytes(cid), false),
    }
}

/// A response variant that does not match its request's kind: the
/// internal-consistency violation that aborts the pass that saw it.
pub open spec fn pass_violation(req: IpfsRequestView, o: GatewayOutcomeView) -> bool {
    o matches Ok(resp) && !response_matches(req, resp)
}

/// The log line for a connection command whose request succeeded.
pub open spec fn spec_connection_success_log(c: ConnectionCommandView) -> LogEntryView {
    match c {
        ConnectionCommandView::ConnectTo(addr) => LogEntryView::ConnectedTo(addr),
        ConnectionCommandView::DisconnectFrom(addr) => LogEntryView::DisconnectedFrom(addr),
    }
}

/// The log line for one connection command, given what its request
/// yielded: the resolved address on success, the failure otherwise.
pub open spec fn spec_connection_log(
    c: ConnectionCommandView,
    o: GatewayOutcomeView,
) -> LogEntryView {
    match o {
        Ok(_) => spec_connection_success_log(c),
        Err(e) => LogEntryView::CommandFailed(e),
    }
}

/// The log line for one DHT command, given what its request yielded: the
/// resolved address or provider list on success, the failure otherwise.
pub open spec fn spec_dht_log(c: DhtCommandView, o: GatewayOutcomeView) -> LogEntryView {
    match o {
        Err(e) => LogEntryView::CommandFailed(e),
        Ok(resp) => match (c, resp) {
            (
                DhtCommandView::FindPeer(peer_id),
                IpfsResponseView::FindPeer(addrs),
            ) => LogEntryView::PeerAddressesFound(peer_id, addrs),
            (
                DhtCommandView::GetProviders(cid),
                IpfsResponseView::GetProviders(peer_ids),
            ) => LogEntryView::ProvidersFound(cid, peer_ids),
            _ => LogEntryView::ProtocolViolation,
        },
    }
}

/// The log line for one data command, given what its request yielded.
/// Fetched bytes are logged verbatim when they are valid text, and as a
/// byte-level representation otherwise.
pub open spec fn spec_data_log(c: DataCommandView, o: GatewayOutcomeView) -> LogEntryView {
    match o {
        Err(e) => LogEntryView::CommandFailed(e),
        Ok(resp) => match (c, resp) {
            (DataCommandView::AddBytes(_), IpfsResponseView::AddBytes(cid)) => (
                LogEntryView::BytesAdded(cid)
            ),
            (DataCommandView::CatBytes(_), IpfsResponseView::CatBytes(data)) => {
                if is_utf8(data) {
                    LogEntryView::TextDataCat(data)
                } else {
                    LogEntryView::BinaryDataCat(data)
                }
            },
            (DataCommandView::RemoveBlock(_), IpfsResponseView::RemoveBlock(cid)) => (
                LogEntryView::BlockRemoved(cid)
            ),
            (DataCommandView::InsertPin(cid), IpfsResponseView::Success) => LogEntryView::Pinned(
                cid,
            ),
            (DataCommandView::RemovePin(cid), IpfsResponseView::Success) => LogEntryView::Unpinned(
                cid,
            ),
            _ => LogEntryView::ProtocolViolation,
        },
    }
}

/// What one pass produced: the requests it issued in order, the log lines
/// it emitted, and whether it was aborted by a protocol violation.
pub struct PassReportView {
    pub requests: Seq<IpfsRequestView>,
    pub logs: Seq<LogEntryView>,
    pub aborted: bool,
}

/// What one pass produced, as the runtime sees it.
pub struct PassReport {
    pub requests: Vec<IpfsRequest>,
    pub logs: Vec<LogEntry>,
    pub aborted: bool,
}

impl View for PassReport {
    type V = PassReportView;

    open spec fn view(&self) -> PassReportView {
        PassReportView {
            requests: req_seq_view(self.requests@),
            logs: log_seq_view(self.logs@),
            aborted: self.aborted,
        }
    }
}

/// One pass over a queue snapshot, command by command in queue order: each
/// command's request is issued, a failure is logged and the pass walks on,
/// and a response of the wrong variant is logged as a violation and aborts
/// the pass at that command.
pub open spec fn spec_pass<C>(
    q: Seq<C>,
    outs: Seq<GatewayOutcomeView>,
    req_of: spec_fn(C) -> IpfsRequestView,
    log_of: spec_fn(C, GatewayOutcomeView) -> LogEntryView,
) -> PassReportView
    decreases q.len(),
{
    if q.len() == 0 {
        PassReportView {
            requests: Seq::<IpfsRequestView>::empty(),
            logs: Seq::<LogEntryView>::empty(),
            aborted: false,
        }
    } else {
        let prefix = spec_pass(q.drop_last(), outs.drop_last(), req_of, log_of);
        if prefix.aborted {
            prefix
        } else {
            let c = q.last();
            let o = outs.last();
            let req = req_of(c);
            if pass_violation(req, o) {
                PassReportView {
                    requests: prefix.requests.push(req),
                    logs: prefix.logs.push(LogEntryView::ProtocolViolation),
                    aborted: true,
                }
            } else {
                PassReportView {
                    requests: prefix.requests.push(req),
                    logs: prefix.logs.push(log_of(c, o)),
                    aborted: false,
                }
            }
        }
    }
}

/// The connection housekeeping pass over a snapshot and its outcomes.
pub open spec fn spec_connection_pass(
    q: Seq<ConnectionCommandView>,
    outs: Seq<GatewayOutcomeView>,
) -> PassReportView {
    spec_pass(
        q,
        outs,
        |c: ConnectionCommandView| spec_connection_request(c),
        |c: ConnectionCommandView, o: GatewayOutcomeView| spec_connection_log(c, o),
    )
}

/// The DHT resolution pass over a snapshot and its outcomes.
pub open spec fn spec_dht_pass(
    q: Seq<DhtCommandView>,
    outs: Seq<GatewayOutcomeView>,
) -> PassReportView {
    spec_pass(
        q,
        outs,
        |c: DhtCommandView| spec_dht_request(c),
        |c: DhtCommandView, o: GatewayOutcomeView| spec_dht_log(c, o),
    )
}

/// The log line the data pass emits before draining: the snapshot's size,
/// logged only when the queue is not empty.
pub open spec fn spec_data_header(q: Seq<DataCommandView>) -> Seq<LogEntryView> {
    if q.len() > 0 {
        seq![LogEntryView::DataQueueLen(q.len() as usize)]
    } else {
        Seq::<LogEntryView>::empty()
    }
}

/// The data processing pass over a snapshot and its outcomes: the size
/// header first, then one entry per command walked.
pub open spec fn spec_data_pass(
    q: Seq<DataCommandView>,
    outs: Seq<GatewayOutcomeView>,
) -> PassReportView {
    let body = spec_pass(
        q,
        outs,
        |c: DataCommandView| spec_data_request(c),
        |c: DataCommandView, o: GatewayOutcomeView| spec_data_log(c, o),
    );
    PassReportView {
        requests: body.requests,
        logs: spec_data_header(q) + body.logs,
        aborted: body.aborted,
    }
}

/// Once a prefix of a pass has aborted, the rest of the queue changes
/// nothing: the pass over the whole queue equals the pass over the prefix.
pub proof fn lemma_pass_absorb<C>(
    q: Seq<C>,
    outs: Seq<GatewayOutcomeView>,
    req_of: spec_fn(C) -> IpfsRequestView,
    log_of: spec_fn(C, GatewayOutcomeView) -> LogEntryView,
    i: int,
)
    requires
        0 <= i <= q.len(),
        outs.len() == q.len(),
        spec_pass(q.take(i), outs.take(i), req_of, log_of).aborted,
    ensures
        spec_pass(q, outs, req_of, log_of) == spec_pass(q.take(i), outs.take(i), req_of, log_of),
    decreases q.len() - i,
{
    if i == q.len() {
        assert(q.take(i) =~= q);
        assert(outs.take(i) =~= outs);
    } else {
        assert(q.take(i + 1).drop_last() =~= q.take(i));
        assert(outs.take(i + 1).drop_last() =~= outs.take(i));
        assert(spec_pass(q.take(i + 1), outs.take(i + 1), req_of, log_of) == spec_pass(
            q.take(i),
            outs.take(i),
            req_of,
            log_of,
        ));
        lemma_pass_absorb(q, outs, req_of, log_of, i + 1);
    }
}

/// Unfolds one step of a pass that has not aborted: walking one more
/// command appends its request, and either its log line or a violation.
pub proof fn lemma_pass_extend<C>(
    q: Seq<C>,
    outs: Seq<GatewayOutcomeView>,
    req_of: spec_fn(C) -> IpfsRequestView,
    log_of: spec_fn(C, GatewayOutcomeView) -> LogEntryView,
    i: int,
)
    requires
        0 <= i < q.len(),
        outs.len() == q.len(),
        !spec_pass(q.take(i), outs.take(i), req_of, log_of).aborted,
    ensures
        spec_pass(q.take(i + 1), outs.take(i + 1), req_of, log_of) == ({
            let prefix = spec_pass(q.take(i), outs.take(i), req_of, log_of);
            let req = req_of(q[i]);
            if pass_violation(req, outs[i]) {
                PassReportView {
                    requests: prefix.requests.push(req),
                    logs: prefix.logs.push(LogEntryView::ProtocolViolation),
                    aborted: true,
                }
            } else {
                PassReportView {
                    requests: prefix.requests.push(req),
                    logs: prefix.logs.push(log_of(q[i], outs[i])),
                    aborted: false,
                }
            }
        }),
{
    assert(q.take(i + 1).drop_last() =~= q.take(i));
    assert(outs.take(i + 1).drop_last() =~= outs.take(i));
    assert(q.take(i + 1).last() == q[i]);
    assert(outs.take(i + 1).last() == outs[i]);
}

/// One step of the connection pass: the issued request, the log line, and
/// whether the outcome was a protocol violation.
pub fn connection_step(cmd: &ConnectionCommand, outcome: &GatewayOutcome) -> (r: (
    IpfsRequest,
    LogEntry,
    bool,
))
    ensures
        r.0@ == spec_connection_request(cmd@),
        r.2 == pass_violation(spec_connection_request(cmd@), outcome_view(*outcome)),
        r.1@ == if r.2 {
            LogEntryView::ProtocolViolation
        } else {
            spec_connection_log(cmd@, outcome_view(*outcome))
        },
{
    let req = connection_request(cmd);
    match outcome {
        Ok(resp) => {
            if check_response_matches(&req, resp) {
                let log = match cmd {
                    ConnectionCommand::ConnectTo(addr) => LogEntry::ConnectedTo(clone_bytes(addr)),
                    ConnectionCommand::DisconnectFrom(addr) => LogEntry::DisconnectedFrom(
                        clone_bytes(addr),
                    ),
                };
                (req, log, false)
            } else {
                (req, LogEntry::ProtocolViolation, true)
            }
        },
        Err(e) => (req, LogEntry::CommandFailed(*e), false),
    }
}

/// One step of the DHT pass.
pub fn dht_step(cmd: &DhtCommand, outcome: &GatewayOutcome) -> (r: (IpfsRequest, LogEntry, bool))
    ensures
        r.0@ == spec_dht_request(cmd@),
        r.2 == pass_violation(spec_dht_request(cmd@), outcome_view(*outcome)),
        r.1@ == if r.2 {
            LogEntryView::ProtocolViolation
        } else {
            spec_dht_log(cmd@, outcome_view(*outcome))
        },
{
    let req = dht_request(cmd);
    match outcome {
        Ok(resp) => {
            if check_response_matches(&req, resp) {
                let log = match (cmd, resp) {
                    (DhtCommand::FindPeer(peer_id), IpfsResponse::FindPeer(addrs)) => (
                        LogEntry::PeerAddressesFound(clone_bytes(peer_id), clone_bytes_list(addrs))
                    ),
                    (DhtCommand::GetProviders(cid), IpfsResponse::GetProviders(peer_ids)) => (
                        LogEntry::ProvidersFound(clone_bytes(cid), clone_bytes_list(peer_ids))
                    ),
                    _ => LogEntry::ProtocolViolation,
                };
                (req, log, false)
            } else {
                (req, LogEntry::ProtocolViolation, true)
            }
        },
        Err(e) => (req, LogEntry::CommandFailed(*e), false),
    }
}

/// One step of the data pass.
pub fn data_step(cmd: &DataCommand, outcome: &GatewayOutcome) -> (r: (IpfsRequest, LogEntry, bool))
    ensures
        r.0@ == spec_data_request(cmd@),
        r.2 == pass_violation(spec_data_request(cmd@), outcome_view(*outcome)),
        r.1@ == if r.2 {
            LogEntryView::ProtocolViolation
        } else {
            spec_data_log(cmd@, outcome_view(*outcome))
        },
{
    let req = data_request(cmd);
    match outcome {
        Ok(resp) => {
            if check_response_matches(&req, resp) {
                let log = match (cmd, resp) {
                    (DataCommand::AddBytes(_), IpfsResponse::AddBytes(cid)) => LogEntry::BytesAdded(
                        clone_bytes(cid),
                    ),
                    (DataCommand::CatBytes(_), IpfsResponse::CatBytes(data)) => {
                        if utf8_ok(data) {
                            LogEntry::TextDataCat(clone_bytes(data))
                        } else {
                            LogEntry::BinaryDataCat(clone_bytes(data))
                        }
                    },
                    (DataCommand::RemoveBlock(_), IpfsResponse::RemoveBlock(cid)) => (
                        LogEntry::BlockRemoved(clone_bytes(cid))
                    ),
                    (DataCommand::InsertPin(cid), IpfsResponse::Success) => LogEntry::Pinned(
                        clone_bytes(cid),
                    ),
                    (DataCommand::RemovePin(cid), IpfsResponse::Success) => LogEntry::Unpinned(
                        clone_bytes(cid),
                    ),
                    _ => LogEntry::ProtocolViolation,
                };
                (req, log, false)
            } else {
                (req, LogEntry::ProtocolViolation, true)
            }
        },
        Err(e) => (req, LogEntry::CommandFailed(*e), false),
    }
}

/// The connection housekeeping pass: walks a snapshot of the connection
/// queue against the outcome of each issued request.
pub fn connection_housekeeping(
    queue: &Vec<ConnectionCommand>,
    outcomes: &Vec<GatewayOutcome>,
) -> (r: PassReport)
    requires
        queue@.len() == outcomes@.len(),
    ensures
        r@ == spec_connection_pass(conn_seq_view(queue@), outcomes_view(outcomes@)),
{
    let ghost qv = conn_seq_view(queue@);
    let ghost ov = outcomes_view(outcomes@);
    let mut requests: Vec<IpfsRequest> = Vec::new();
    let mut logs: Vec<LogEntry> = Vec::new();
    let mut aborted = false;
    let mut i: usize = 0;
    proof {
        assert(req_seq_view(requests@) =~= Seq::<IpfsRequestView>::empty());
        assert(log_seq_view(logs@) =~= Seq::<LogEntryView>::empty());
        assert(qv.take(0) =~= Seq::<ConnectionCommandView>::empty());
        assert(ov.take(0) =~= Seq::<GatewayOutcomeView>::empty());
    }
    while i < queue.len() && !aborted
        invariant
            i <= queue@.len(),
            queue@.len() == outcomes@.len(),
            qv == conn_seq_view(queue@),
            ov == outcomes_view(outcomes@),
            spec_connection_pass(qv.take(i as int), ov.take(i as int)) == (PassReportView {
                requests: req_seq_view(requests@),
                logs: log_seq_view(logs@),
                aborted: aborted,
            }),
        decreases queue@.len() - i,
    {
        proof {
            lemma_pass_extend(
                qv,
                ov,
                |c: ConnectionCommandView| spec_connection_request(c),
                |c: ConnectionCommandView, o: GatewayOutcomeView| spec_connection_log(c, o),
                i as int,
            );
        }
        let (req, log, viol) = connection_step(&queue[i], &outcomes[i]);
        let ghost reqs_prev = requests@;
        let ghost logs_prev = logs@;
        requests.push(req);
        logs.push(log);
        aborted = viol;
        proof {
            assert(req_seq_view(requests@) =~= req_seq_view(reqs_prev).push(req@));
            assert(log_seq_view(logs@) =~= log_seq_view(logs_prev).push(log@));
        }
        i += 1;
    }
    proof {
        if aborted {
            lemma_pass_absorb(
                qv,
                ov,
                |c: ConnectionCommandView| spec_connection_request(c),
                |c: ConnectionCommandView, o: GatewayOutcomeView| spec_connection_log(c, o),
                i as int,
            );
        } else {
            assert(qv.take(i as int) =~= qv);
            assert(ov.take(i as int) =~= ov);
        }
    }
    PassReport { requests, logs, aborted }
}

/// The DHT resolution pass: walks a snapshot of the DHT queue against the
/// outcome of each issued request.
pub fn handle_dht_requests(queue: &Vec<DhtCommand>, outcomes: &Vec<GatewayOutcome>) -> (r:
    PassReport)
    requires
        queue@.len() == outcomes@.len(),
    ensures
        r@ == spec_dht_pass(dht_seq_view(queue@), outcomes_view(outcomes@)),
{
    let ghost qv = dht_seq_view(queue@);
    let ghost ov = outcomes_view(outcomes@);
    let mut requests: Vec<IpfsRequest> = Vec::new();
    let mut logs: Vec<LogEntry> = Vec::new();
    let mut aborted = false;
    let mut i: usize = 0;
    proof {
        assert(req_seq_view(requests@) =~= Seq::<IpfsRequestView>::empty());
        assert(log_seq_view(logs@) =~= Seq::<LogEntryView>::empty());
        assert(qv.take(0) =~= Seq::<DhtCommandView>::empty());
        assert(ov.take(0) =~= Seq::<GatewayOutcomeView>::empty());
    }
    while i < queue.len() && !aborted
        invariant
            i <= queue@.len(),
            queue@.len() == outcomes@.len(),
            qv == dht_seq_view(queue@),
            ov == outcomes_view(outcomes@),
            spec_dht_pass(qv.take(i as int), ov.take(i as int)) == (PassReportView {
                requests: req_seq_view(requests@),
                logs: log_seq_view(logs@),
                aborted: aborted,
            }),
        decreases queue@.len() - i,
    {
        proof {
            lemma_pass_extend(
                qv,
                ov,
                |c: DhtCommandView| spec_dht_request(c),
                |c: DhtCommandView, o: GatewayOutcomeView| spec_dht_log(c, o),
                i as int,
            );
        }
        let (req, log, viol) = dht_step(&queue[i], &outcomes[i]);
        let ghost reqs_prev = requests@;
        let ghost logs_prev = logs@;
        requests.push(req);
        logs.push(log);
        aborted = viol;
        proof {
            assert(req_seq_view(requests@) =~= req_seq_view(reqs_prev).push(req@));
            assert(log_seq_view(logs@) =~= log_seq_view(logs_prev).push(log@));
        }
        i += 1;
    }
    proof {
        if aborted {
            lemma_pass_absorb(
                qv,
                ov,
                |c: DhtCommandView| spec_dht_request(c),
                |c: DhtCommandView, o: GatewayOutcomeView| spec_dht_log(c, o),
                i as int,
            );
        } else {
            assert(qv.take(i as int) =~= qv);
            assert(ov.take(i as int) =~= ov);
        }
    }
    PassReport { requests, logs, aborted }
}

/// The data processing pass: logs the snapshot's size when it is not
/// empty, then walks it against the outcome of each issued request.
pub fn handle_data_requests(queue: &Vec<DataCommand>, outcomes: &Vec<GatewayOutcome>) -> (r:
    PassReport)
    requires
        queue@.len() == outcomes@.len(),
    ensures
        r@ == spec_data_pass(data_seq_view(queue@), outcomes_view(outcomes@)),
{
    let ghost qv = data_seq_view(queue@);
    let ghost ov = outcomes_view(outcomes@);
    let mut requests: Vec<IpfsRequest> = Vec::new();
    let mut logs: Vec<LogEntry> = Vec::new();
    if queue.len() != 0 {
        logs.push(LogEntry::DataQueueLen(queue.len()));
    }
    proof {
        assert(log_seq_view(logs@) =~= spec_data_header(qv));
    }
    let mut aborted = false;
    let mut i: usize = 0;
    proof {
        assert(req_seq_view(requests@) =~= Seq::<IpfsRequestView>::empty());
        assert(qv.take(0) =~= Seq::<DataCommandView>::empty());
        assert(ov.take(0) =~= Seq::<GatewayOutcomeView>::empty());
        assert(spec_data_header(qv) + Seq::<LogEntryView>::empty() =~= spec_data_header(qv));
    }
    while i < queue.len() && !aborted
        invariant
            i <= queue@.len(),
            queue@.len() == outcomes@.len(),
            qv == data_seq_view(queue@),
            ov == outcomes_view(outcomes@),
            ({
                let body = spec_pass(
                    qv.take(i as int),
                    ov.take(i as int),
                    |c: DataCommandView| spec_data_request(c),
                    |c: DataCommandView, o: GatewayOutcomeView| spec_data_log(c, o),
                );
                &&& req_seq_view(requests@) == body.requests
                &&& log_seq_view(logs@) == spec_data_header(qv) + body.logs
                &&& aborted == body.aborted
            }),
        decreases queue@.len() - i,
    {
        proof {
            lemma_pass_extend(
                qv,
                ov,
                |c: DataCommandView| spec_data_request(c),
                |c: DataCommandView, o: GatewayOutcomeView| spec_data_log(c, o),
                i as int,
            );
        }
        let (req, log, viol) = data_step(&queue[i], &outcomes[i]);
        let ghost reqs_prev = requests@;
        let ghost logs_prev = logs@;
        requests.push(req);
        logs.push(log);
        aborted = viol;
        proof {
            let body_prev = spec_pass(
                qv.take(i as int),
                ov.take(i as int),
                |c: DataCommandView| spec_data_request(c),
                |c: DataCommandView, o: GatewayOutcomeView| spec_data_log(c, o),
            );
            assert(req_seq_view(requests@) =~= req_seq_view(reqs_prev).push(req@));
            assert(log_seq_view(logs@) =~= log_seq_view(logs_prev).push(log@));
            assert((spec_data_header(qv) + body_prev.logs).push(log@) =~= spec_data_header(qv)
                + body_prev.logs.push(log@));
        }
        i += 1;
    }
    proof {
        if aborted {
            lemma_pass_absorb(
                qv,
                ov,
                |c: DataCommandView| spec_data_request(c),
                |c: DataCommandView, o: GatewayOutcomeView| spec_data_log(c, o),
                i as int,
            );
        } else {
            assert(qv.take(i as int) =~= qv);
            assert(ov.take(i as int) =~= ov);
        }
    }
    PassReport { requests, logs, aborted }
}

/// The metadata report for one gateway outcome of the single peer-list
/// request: the connected-peer count on success. Unlike the other passes,
/// a failure here is surfaced to the driver's top-level handler.
pub open spec fn spec_print_metadata(o: GatewayOutcomeView) -> Result<LogEntryView, DriverError> {
    match o {
        Ok(resp) => match resp {
            IpfsResponseView::Peers(addrs) => Ok(LogEntryView::PeerCount(addrs.len() as usize)),
            _ => Err(DriverError::ProtocolInvariantViolation),
        },
        Err(e) => Err(DriverError::Gateway(e)),
    }
}

/// Abstraction of a metadata pass result.
pub open spec fn metadata_result_view(r: Result<LogEntry, DriverError>) -> Result<
    LogEntryView,
    DriverError,
> {
    match r {
        Ok(l) => Ok(l@),
        Err(e) => Err(e),
    }
}

/// The metadata pass: reports the connected-peer count, or the error that
/// the driver's top-level handler will log.
pub fn print_metadata(outcome: &GatewayOutcome) -> (r: Result<LogEntry, DriverError>)
    ensures
        metadata_result_view(r) == spec_print_metadata(outcome_view(*outcome)),
{
    match outcome {
        Ok(IpfsResponse::Peers(addrs)) => Ok(LogEntry::PeerCount(addrs.len())),
        Ok(_) => Err(DriverError::ProtocolInvariantViolation),
        Err(e) => Err(DriverError::Gateway(*e)),
    }
}

/// Whether the data processing pass runs at this block height.
pub open spec fn data_pass_runs(block_number: u64) -> bool {
    block_number % 2 == 1
}

/// Whether the metadata pass runs at this block height.
pub open spec fn metadata_pass_runs(block_number: u64) -> bool {
    block_number % 5 == 0
}

/// Cadence of the data processing pass: every other block.
pub fn should_run_data_pass(block_number: u64) -> (b: bool)
    ensures
        b == data_pass_runs(block_number),
{
    block_number % 2 == 1
}

/// Cadence of the metadata pass: every fifth block.
pub fn should_run_metadata_pass(block_number: u64) -> (b: bool)
    ensures
        b == metadata_pass_runs(block_number),
{
    block_number % 5 == 0
}

/// What one driver invocation produced: every pass that ran on this
/// block's cadence reports independently, so a failure in one never keeps
/// another from running.
pub struct WorkerReport {
    pub connection: PassReport,
    pub dht: PassReport,
    pub data: Option<PassReport>,
    pub metadata: Option<Result<LogEntry, DriverError>>,
}

/// One driver invocation for an imported block: the connection and DHT
/// passes always run, the data pass only on odd heights, the metadata pass
/// only on every fifth block. Each pass receives the outcome the gateway
/// yielded for each request it issues, and reports in isolation.
pub fn offchain_worker(
    block_number: u64,
    store: &QueueStore,
    connection_outcomes: &Vec<GatewayOutcome>,
    dht_outcomes: &Vec<GatewayOutcome>,
    data_outcomes: &Vec<GatewayOutcome>,
    metadata_outcome: Option<GatewayOutcome>,
) -> (r: WorkerReport)
    requires
        connection_outcomes@.len() == store@.connection.len(),
        dht_outcomes@.len() == store@.dht.len(),
        data_pass_runs(block_number) ==> data_outcomes@.len() == store@.data.len(),
        metadata_pass_runs(block_number) <==> metadata_outcome is Some,
    ensures
        r.connection@ == spec_connection_pass(
            store@.connection,
            outcomes_view(connection_outcomes@),
        ),
        r.dht@ == spec_dht_pass(store@.dht, outcomes_view(dht_outcomes@)),
        data_pass_runs(block_number) ==> (r.data matches Some(rep) && rep@ == spec_data_pass(
            store@.data,
            outcomes_view(data_outcomes@),
        )),
        !data_pass_runs(block_number) ==> r.data is None,
        metadata_pass_runs(block_number) ==> (metadata_outcome matches Some(o) && (
        r.metadata matches Some(m) && metadata_result_view(m) == spec_print_metadata(
            outcome_view(o),
        ))),
        !metadata_pass_runs(block_number) ==> r.metadata is None,
{
    let connection = connection_housekeeping(&store.connection_queue, connection_outcomes);
    let dht = handle_dht_requests(&store.dht_queue, dht_outcomes);
    let data = if should_run_data_pass(block_number) {
        Some(handle_data_requests(&store.data_queue, data_outcomes))
    } else {
        None
    };
    let metadata = match metadata_outcome {
        Some(o) => Some(print_metadata(&o)),
        None => None,
    };
    WorkerReport { connection, dht, data, metadata }
}

} // verus!
