//! The command model: tagged variants for connection, data and DHT
//! operations, each carrying an opaque byte payload (an address, a block of
//! bytes, a content identifier or a peer identifier). No structural
//! validation of payloads happens at this layer.

use vstd::prelude::*;

verus! {

/// Mathematical form of a connection command: payloads as byte sequences.
pub enum ConnectionCommandView {
    ConnectTo(Seq<u8>),
    DisconnectFrom(Seq<u8>),
}

/// A queued intent to establish or sever a connection to a peer address.
#[derive(Clone, Debug, PartialEq, Eq)]
pub enum ConnectionCommand {
    ConnectTo(Vec<u8>),
    DisconnectFrom(Vec<u8>),
}

impl View for ConnectionCommand {
    type V = ConnectionCommandView;

    open spec fn view(&self) -> ConnectionCommandView {
        match self {
            ConnectionCommand::ConnectTo(addr) => ConnectionCommandView::ConnectTo(addr@),
            ConnectionCommand::DisconnectFrom(addr) => ConnectionCommandView::DisconnectFrom(
                addr@,
            ),
        }
    }
}

/// Mathematical form of a data command.
pub enum DataCommandView {
    AddBytes(Seq<u8>),
    CatBytes(Seq<u8>),
    InsertPin(Seq<u8>),
    RemoveBlock(Seq<u8>),
    RemovePin(Seq<u8>),
}

/// A queued intent to publish, fetch, pin or remove content on the node.
#[derive(Clone, Debug, PartialEq, Eq)]
pub enum DataCommand {
    AddBytes(Vec<u8>),
    CatBytes(Vec<u8>),
    InsertPin(Vec<u8>),
    RemoveBlock(Vec<u8>),
    RemovePin(Vec<u8>),
}

impl View for DataCommand {
    type V = DataCommandView;

    open spec fn view(&self) -> DataCommandView {
        match self {
            DataCommand::AddBytes(data) => DataCommandView::AddBytes(data@),
            DataCommand::CatBytes(cid) => DataCommandView::CatBytes(cid@),
            DataCommand::InsertPin(cid) => DataCommandView::InsertPin(cid@),
            DataCommand::RemoveBlock(cid) => DataCommandView::RemoveBlock(cid@),
            DataCommand::RemovePin(cid) => DataCommandView::RemovePin(cid@),
        }
    }
}

/// Mathematical form of a DHT command.
pub enum DhtCommandView {
    FindPeer(Seq<u8>),
    GetProviders(Seq<u8>),
}

/// A queued intent to resolve a peer or the providers of a content
/// identifier through the distributed hash table.
#[derive(Clone, Debug, PartialEq, Eq)]
pub enum DhtCommand {
    FindPeer(Vec<u8>),
    GetProviders(Vec<u8>),
}

impl View for DhtCommand {
    type V = DhtCommandView;

    open spec fn view(&self) -> DhtCommandView {
        match self {
            DhtCommand::FindPeer(peer_id) => DhtCommandView::FindPeer(peer_id@),
            DhtCommand::GetProviders(cid) => DhtCommandView::GetProviders(cid@),
        }
    }
}

/// Abstraction of a vector of connection commands, element by element.
pub open spec fn conn_seq_view(s: Seq<ConnectionCommand>) -> Seq<ConnectionCommandView> {
    s.map_values(|c: ConnectionCommand| c@)
}

/// Abstraction of a vector of data commands, element by element.
pub open spec fn data_seq_view(s: Seq<DataCommand>) -> Seq<DataCommandView> {
    s.map_values(|c: DataCommand| c@)
}

/// Abstraction of a vector of DHT commands, element by element.
pub open spec fn dht_seq_view(s: Seq<DhtCommand>) -> Seq<DhtCommandView> {
    s.map_values(|c: DhtCommand| c@)
}

/// Byte-for-byte comparison of two payloads.
pub fn bytes_eq(a: &Vec<u8>, b: &Vec<u8>) -> (r: bool)
    ensures
        r == (a@ == b@),
{
    if a.len() != b.len() {
        return false;
    }
    let mut i: usize = 0;
    while i < a.len()
        invariant
            i <= a@.len(),
            a@.len() == b@.len(),
            forall|j: int| 0 <= j < i ==> a@[j] == b@[j],
        decreases a@.len() - i,
    {
        if a[i] != b[i] {
            return false;
        }
        i += 1;
    }
    proof {
        assert(a@ =~= b@);
    }
    true
}

/// An owned copy of a byte payload.
pub fn clone_bytes(v: &Vec<u8>) -> (r: Vec<u8>)
    ensures
        r@ == v@,
{
    let r = v.clone();
    proof {
        assert(r@ =~= v@);
    }
    r
}

/// Structural equality of connection commands: same variant, same payload.
pub fn connection_command_eq(a: &ConnectionCommand, b: &ConnectionCommand) -> (r: bool)
    ensures
        r == (a@ == b@),
{
    match (a, b) {
        (ConnectionCommand::ConnectTo(x), ConnectionCommand::ConnectTo(y)) => bytes_eq(x, y),
        (ConnectionCommand::DisconnectFrom(x), ConnectionCommand::DisconnectFrom(y)) => bytes_eq(
            x,
            y,
        ),
        _ => false,
    }
}

} // verus!
