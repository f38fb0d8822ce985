//! The node request/response protocol consumed by the offchain worker: one
//! typed request per operation, each paired with exactly one valid response
//! variant, plus the gateway's classification of what the node interaction
//! yielded (a response, a timeout, or a failure).

use vstd::prelude::*;

verus! {

/// Deadline offset, in milliseconds, for connection, data and DHT requests.
pub const COMMAND_DEADLINE_MS: u64 = 1000;

/// Deadline offset, in milliseconds, for the metadata (peer count) request.
pub const METADATA_DEADLINE_MS: u64 = 200;

/// Mathematical form of a request, payloads as byte sequences.
pub enum IpfsRequestView {
    Connect(Seq<u8>),
    Disconnect(Seq<u8>),
    FindPeer(Seq<u8>),
    GetProviders(Seq<u8>),
    AddBytes(Seq<u8>),
    CatBytes(Seq<u8>),
    RemoveBlock(Seq<u8>),
    InsertPin(Seq<u8>, bool),
    RemovePin(Seq<u8>, bool),
    Peers,
}

/// One typed request to the local storage node. The boolean on the pin
/// operations selects recursive pinning; this engine always passes `false`.
#[derive(Clone, Debug, PartialEq, Eq)]
pub enum IpfsRequest {
    Connect(Vec<u8>),
    Disconnect(Vec<u8>),
    FindPeer(Vec<u8>),
    GetProviders(Vec<u8>),
    AddBytes(Vec<u8>),
    CatBytes(Vec<u8>),
    RemoveBlock(Vec<u8>),
    InsertPin(Vec<u8>, bool),
    RemovePin(Vec<u8>, bool),
    Peers,
}

impl View for IpfsRequest {
    type V = IpfsRequestView;

    open spec fn view(&self) -> IpfsRequestView {
        match self {
            IpfsRequest::Connect(addr) => IpfsRequestView::Connect(addr@),
            IpfsRequest::Disconnect(addr) => IpfsRequestView::Disconnect(addr@),
            IpfsRequest::FindPeer(peer_id) => IpfsRequestView::FindPeer(peer_id@),
            IpfsRequest::GetProviders(cid) => IpfsRequestView::GetProviders(cid@),
            IpfsRequest::AddBytes(data) => IpfsRequestView::AddBytes(data@),
            IpfsRequest::CatBytes(cid) => IpfsRequestView::CatBytes(cid@),
            IpfsRequest::RemoveBlock(cid) => IpfsRequestView::RemoveBlock(cid@),
            IpfsRequest::InsertPin(cid, recursive) => IpfsRequestView::InsertPin(
                cid@,
                *recursive,
            ),
            IpfsRequest::RemovePin(cid, recursive) => IpfsRequestView::RemovePin(
                cid@,
                *recursive,
            ),
            IpfsRequest::Peers => IpfsRequestView::Peers,
        }
    }
}

/// Mathematical form of a response.
pub enum IpfsResponseView {
    Success,
    FindPeer(Seq<Seq<u8>>),
    GetProviders(Seq<Seq<u8>>),
    AddBytes(Seq<u8>),
    CatBytes(Seq<u8>),
    RemoveBlock(Seq<u8>),
    Peers(Seq<Seq<u8>>),
}

/// One typed response from the local storage node.
#[derive(Clone, Debug, PartialEq, Eq)]
pub enum IpfsResponse {
    Success,
    FindPeer(Vec<Vec<u8>>),
    GetProviders(Vec<Vec<u8>>),
    AddBytes(Vec<u8>),
    CatBytes(Vec<u8>),
    RemoveBlock(Vec<u8>),
    Peers(Vec<Vec<u8>>),
}

/// Abstraction of a list of byte payloads, element by element.
pub open spec fn bytes_seq_view(s: Seq<Vec<u8>>) -> Seq<Seq<u8>> {
    s.map_values(|b: Vec<u8>| b@)
}

impl View for IpfsResponse {
    type V = IpfsResponseView;

    open spec fn view(&self) -> IpfsResponseView {
        match self {
            IpfsResponse::Success => IpfsResponseView::Success,
            IpfsResponse::FindPeer(addrs) => IpfsResponseView::FindPeer(bytes_seq_view(addrs@)),
            IpfsResponse::GetProviders(peer_ids) => IpfsResponseView::GetProviders(
                bytes_seq_view(peer_ids@),
            ),
            IpfsResponse::AddBytes(cid) => IpfsResponseView::AddBytes(cid@),
            IpfsResponse::CatBytes(data) => IpfsResponseView::CatBytes(data@),
            IpfsResponse::RemoveBlock(cid) => IpfsResponseView::RemoveBlock(cid@),
            IpfsResponse::Peers(addrs) => IpfsResponseView::Peers(bytes_seq_view(addrs@)),
        }
    }
}

/// The tag of a response variant, used to enforce the closed
/// request-kind to response-kind pairing in one place.
#[derive(Clone, Copy, Debug, PartialEq, Eq, Structural)]
pub enum ResponseKind {
    Success,
    FindPeer,
    GetProviders,
    AddBytes,
    CatBytes,
    RemoveBlock,
    Peers,
}

/// The single lookup table of the protocol: the one response kind that is
/// valid for each request kind.
pub open spec fn spec_expected_response_kind(req: IpfsRequestView) -> ResponseKind {
    match req {
        IpfsRequestView::Connect(_) => ResponseKind::Success,
        IpfsRequestView::Disconnect(_) => ResponseKind::Success,
        IpfsRequestView::FindPeer(_) => ResponseKind::FindPeer,
        IpfsRequestView::GetProviders(_) => ResponseKind::GetProviders,
        IpfsRequestView::AddBytes(_) => ResponseKind::AddBytes,
        IpfsRequestView::CatBytes(_) => ResponseKind::CatBytes,
        IpfsRequestView::RemoveBlock(_) => ResponseKind::RemoveBlock,
        IpfsRequestView::InsertPin(_, _) => ResponseKind::Success,
        IpfsRequestView::RemovePin(_, _) => ResponseKind::Success,
        IpfsRequestView::Peers => ResponseKind::Peers,
    }
}

/// The tag carried by a response.
pub open spec fn spec_response_kind(resp: IpfsResponseView) -> ResponseKind {
    match resp {
        IpfsResponseView::Success => ResponseKind::Success,
        IpfsResponseView::FindPeer(_) => ResponseKind::FindPeer,
        IpfsResponseView::GetProviders(_) => ResponseKind::GetProviders,
        IpfsResponseView::AddBytes(_) => ResponseKind::AddBytes,
        IpfsResponseView::CatBytes(_) => ResponseKind::CatBytes,
        IpfsResponseView::RemoveBlock(_) => ResponseKind::RemoveBlock,
        IpfsResponseView::Peers(_) => ResponseKind::Peers,
    }
}

/// A response is valid for a request exactly when its kind is the one the
/// lookup table pairs with the request's kind.
pub open spec fn response_matches(req: IpfsRequestView, resp: IpfsResponseView) -> bool {
    spec_response_kind(resp) == spec_expected_response_kind(req)
}

/// The one response kind that is valid for the given request.
pub fn expected_response_kind(req: &IpfsRequest) -> (k: ResponseKind)
    ensures
        k == spec_expected_response_kind(req@),
{
    match req {
        IpfsRequest::Connect(_) => ResponseKind::Success,
        IpfsRequest::Disconnect(_) => ResponseKind::Success,
        IpfsRequest::FindPeer(_) => ResponseKind::FindPeer,
        IpfsRequest::GetProviders(_) => ResponseKind::GetProviders,
        IpfsRequest::AddBytes(_) => ResponseKind::AddBytes,
        IpfsRequest::CatBytes(_) => ResponseKind::CatBytes,
        IpfsRequest::RemoveBlock(_) => ResponseKind::RemoveBlock,
        IpfsRequest::InsertPin(_, _) => ResponseKind::Success,
        IpfsRequest::RemovePin(_, _) => ResponseKind::Success,
        IpfsRequest::Peers => ResponseKind::Peers,
    }
}

/// The tag carried by a response.
pub fn response_kind(resp: &IpfsResponse) -> (k: ResponseKind)
    ensures
        k == spec_response_kind(resp@),
{
    match resp {
        IpfsResponse::Success => ResponseKind::Success,
        IpfsResponse::FindPeer(_) => ResponseKind::FindPeer,
        IpfsResponse::GetProviders(_) => ResponseKind::GetProviders,
        IpfsResponse::AddBytes(_) => ResponseKind::AddBytes,
        IpfsResponse::CatBytes(_) => ResponseKind::CatBytes,
        IpfsResponse::RemoveBlock(_) => ResponseKind::RemoveBlock,
        IpfsResponse::Peers(_) => ResponseKind::Peers,
    }
}

/// The protocol assertion: accept a response only when its variant is the
/// one valid for the request that was issued.
pub fn check_response_matches(req: &IpfsRequest, resp: &IpfsResponse) -> (r: bool)
    ensures
        r == response_matches(req@, resp@),
{
    expected_response_kind(req) == response_kind(resp)
}

/// Failure modes of one node request.
#[derive(Clone, Copy, Debug, PartialEq, Eq, Structural)]
pub enum GatewayError {
    CantCreateRequest,
    RequestTimeout,
    RequestFailed,
}

/// What one deadline-guarded node interaction yields before this layer
/// classifies it: the request could not be constructed or submitted, the
/// deadline elapsed, the node reported an I/O error (with its raw error
/// bytes) or some other node-side error, or a response arrived.
#[derive(Clone, Debug, PartialEq, Eq)]
pub enum NodeInteraction {
    CouldNotCreate,
    TimedOut,
    IoError(Vec<u8>),
    OtherNodeError,
    Responded(IpfsResponse),
}

/// An absolute deadline: the current timestamp plus a fixed offset chosen
/// by the caller, both in milliseconds.
pub fn deadline_at(now_ms: u64, offset_ms: u64) -> (d: u64)
    requires
        now_ms + offset_ms <= u64::MAX,
    ensures
        d == now_ms + offset_ms,
{
    now_ms + offset_ms
}

/// What one node request yields once classified: the one response that is
/// valid for it, or the failure mode of the attempt.
pub type GatewayOutcome = Result<IpfsResponse, GatewayError>;

/// Mathematical form of a gateway outcome.
pub type GatewayOutcomeView = Result<IpfsResponseView, GatewayError>;

/// Abstraction of one gateway outcome.
pub open spec fn outcome_view(o: GatewayOutcome) -> GatewayOutcomeView {
    match o {
        Ok(resp) => Ok(resp@),
        Err(e) => Err(e),
    }
}

/// Abstraction of a sequence of gateway outcomes, element by element.
pub open spec fn outcomes_view(s: Seq<GatewayOutcome>) -> Seq<GatewayOutcomeView> {
    s.map_values(|o: GatewayOutcome| outcome_view(o))
}

/// An owned copy of a list of byte payloads.
pub fn clone_bytes_list(v: &Vec<Vec<u8>>) -> (r: Vec<Vec<u8>>)
    ensures
        bytes_seq_view(r@) == bytes_seq_view(v@),
{
    let mut r: Vec<Vec<u8>> = Vec::new();
    let mut i: usize = 0;
    while i < v.len()
        invariant
            i <= v@.len(),
            r@.len() == i,
            forall|j: int| 0 <= j < i ==> r@[j]@ == v@[j]@,
        decreases v@.len() - i,
    {
        r.push(crate::commands::clone_bytes(&v[i]));
        i += 1;
    }
    proof {
        assert(bytes_seq_view(r@) =~= bytes_seq_view(v@));
    }
    r
}

/// Whether a byte payload is well-formed UTF-8 text; the exact predicate is
/// the one `core::str::from_utf8` decides.
pub uninterp spec fn is_utf8(bytes: Seq<u8>) -> bool;

/// Relies on `core::str::from_utf8`: whether it accepts a byte slice is a
/// function of the bytes alone (UTF-8 well-formedness).
#[verifier::external_body]
pub fn utf8_ok(bytes: &Vec<u8>) -> (r: bool)
    ensures
        r == is_utf8(bytes@),
{
    core::str::from_utf8(bytes.as_slice()).is_ok()
}

} // verus!
