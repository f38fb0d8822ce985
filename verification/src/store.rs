//! The queue store and the submission handlers. Three independent ordered
//! command queues, mutated only here: connection commands are appended with
//! deduplication, data and DHT commands unconditionally. Each handler
//! authenticates the caller, appends, and emits one domain event naming the
//! caller; it fails only when the caller cannot be authenticated.

use vstd::prelude::*;

use crate::commands::ConnectionCommand;
use crate::commands::ConnectionCommandView;
use crate::commands::DataCommand;
use crate::commands::DataCommandView;
use crate::commands::DhtCommand;
use crate::commands::DhtCommandView;
use crate::commands::conn_seq_view;
use crate::commands::connection_command_eq;
use crate::commands::data_seq_view;
use crate::commands::dht_seq_view;

verus! {

/// An opaque caller identity, produced by the external authentication
/// collaborator once a submission's signature has been checked.
pub type AccountId = u64;

/// The provenance of a submission: either a signed transaction whose signer
/// was authenticated, or anything else, which no handler accepts.
#[derive(Clone, Copy, Debug, PartialEq, Eq, Structural)]
pub enum Origin {
    Signed(AccountId),
    Unsigned,
}

/// Submission-time failure: the caller could not be authenticated.
#[derive(Clone, Copy, Debug, PartialEq, Eq, Structural)]
pub enum SubmissionError {
    Unauthorized,
}

/// The domain event emitted by each successful submission, naming the
/// authenticated caller and the action queued.
#[derive(Clone, Copy, Debug, PartialEq, Eq, Structural)]
pub enum Event {
    ConnectionRequested(AccountId),
    DisconnectRequested(AccountId),
    QueuedDataToAdd(AccountId),
    QueuedDataToCat(AccountId),
    QueuedDataToPin(AccountId),
    QueuedDataToRemove(AccountId),
    QueuedDataToUnpin(AccountId),
    FindPeerIssued(AccountId),
    FindProvidersIssued(AccountId),
}

/// Authentication check: yields the caller behind a signed origin, and
/// rejects everything else.
pub fn ensure_signed(origin: &Origin) -> (r: Result<AccountId, SubmissionError>)
    ensures
        match *origin {
            Origin::Signed(who) => r == Ok::<AccountId, SubmissionError>(who),
            Origin::Unsigned => r == Err::<AccountId, SubmissionError>(
                SubmissionError::Unauthorized,
            ),
        },
{
    match origin {
        Origin::Signed(who) => Ok(*who),
        Origin::Unsigned => Err(SubmissionError::Unauthorized),
    }
}

/// Mathematical form of the store: the three queues as sequences.
pub struct QueueStoreView {
    pub connection: Seq<ConnectionCommandView>,
    pub data: Seq<DataCommandView>,
    pub dht: Seq<DhtCommandView>,
}

/// The persisted state: three named queues, each readable in full and
/// clearable in full, with insertion order equal to submission order.
pub struct QueueStore {
    pub connection_queue: Vec<ConnectionCommand>,
    pub data_queue: Vec<DataCommand>,
    pub dht_queue: Vec<DhtCommand>,
}

impl View for QueueStore {
    type V = QueueStoreView;

    open spec fn view(&self) -> QueueStoreView {
        QueueStoreView {
            connection: conn_seq_view(self.connection_queue@),
            data: data_seq_view(self.data_queue@),
            dht: dht_seq_view(self.dht_queue@),
        }
    }
}

/// No two structurally equal entries: the connection queue's invariant.
pub open spec fn no_duplicates<T>(q: Seq<T>) -> bool {
    forall|i: int, j: int| 0 <= i < j < q.len() ==> q[i] != q[j]
}

/// Appending with deduplication: the queue is unchanged when an equal
/// command is already present, and grows by one entry otherwise.
pub open spec fn enqueue_connection(
    q: Seq<ConnectionCommandView>,
    c: ConnectionCommandView,
) -> Seq<ConnectionCommandView> {
    if q.contains(c) {
        q
    } else {
        q.push(c)
    }
}

/// Appending with deduplication keeps the queue duplicate-free.
pub proof fn lemma_enqueue_connection_preserves_nodup(
    q: Seq<ConnectionCommandView>,
    c: ConnectionCommandView,
)
    requires
        no_duplicates(q),
    ensures
        no_duplicates(enqueue_connection(q, c)),
{
    if !q.contains(c) {
        let q2 = q.push(c);
        assert forall|i: int, j: int| 0 <= i < j < q2.len() implies q2[i] != q2[j] by {
            if j == q.len() {
                if q2[i] == c {
                    assert(q[i] == c);
                    assert(q.contains(c));
                }
            }
        }
    }
}

/// The enqueued command is present afterwards.
pub proof fn lemma_enqueue_connection_contains(
    q: Seq<ConnectionCommandView>,
    c: ConnectionCommandView,
)
    ensures
        enqueue_connection(q, c).contains(c),
{
    if !q.contains(c) {
        assert(q.push(c)[q.len() as int] == c);
    }
}

/// Whether an equal connection command is already queued.
pub fn connection_queue_contains(q: &Vec<ConnectionCommand>, c: &ConnectionCommand) -> (r: bool)
    ensures
        r == conn_seq_view(q@).contains(c@),
{
    let mut i: usize = 0;
    while i < q.len()
        invariant
            i <= q@.len(),
            forall|j: int| 0 <= j < i ==> conn_seq_view(q@)[j] != c@,
        decreases q@.len() - i,
    {
        if connection_command_eq(&q[i], c) {
            proof {
                assert(conn_seq_view(q@)[i as int] == c@);
            }
            return true;
        }
        i += 1;
    }
    false
}

impl QueueStore {
    /// Well-formedness: the connection queue never holds two structurally
    /// equal commands. Constructors establish it; every handler and the
    /// scheduler preserve it.
    pub open spec fn wf(self) -> bool {
        no_duplicates(self@.connection)
    }

    /// A store whose three queues are empty.
    pub fn new() -> (s: QueueStore)
        ensures
            s@.connection == Seq::<ConnectionCommandView>::empty(),
            s@.data == Seq::<DataCommandView>::empty(),
            s@.dht == Seq::<DhtCommandView>::empty(),
            s.wf(),
    {
        let s = QueueStore {
            connection_queue: Vec::new(),
            data_queue: Vec::new(),
            dht_queue: Vec::new(),
        };
        proof {
            assert(s@.connection =~= Seq::<ConnectionCommandView>::empty());
            assert(s@.data =~= Seq::<DataCommandView>::empty());
            assert(s@.dht =~= Seq::<DhtCommandView>::empty());
        }
        s
    }

    /// Queue a connection command, deduplicated against the queue.
    fn submit_connection(&mut self, cmd: ConnectionCommand)
        ensures
            final(self)@.connection == enqueue_connection(old(self)@.connection, cmd@),
            final(self)@.data == old(self)@.data,
            final(self)@.dht == old(self)@.dht,
            old(self).wf() ==> final(self).wf(),
    {
        proof {
            if no_duplicates(self@.connection) {
                lemma_enqueue_connection_preserves_nodup(self@.connection, cmd@);
            }
        }
        if !connection_queue_contains(&self.connection_queue, &cmd) {
            let ghost prev = self.connection_queue@;
            self.connection_queue.push(cmd);
            proof {
                assert(conn_seq_view(self.connection_queue@) =~= conn_seq_view(prev).push(cmd@));
            }
        }
    }

    /// Mark an address as a desired connection target; it is honoured by
    /// the next run of the offchain connection housekeeping pass.
    pub fn ipfs_connect(&mut self, origin: &Origin, addr: Vec<u8>) -> (r: Result<
        Event,
        SubmissionError,
    >)
        ensures
            match *origin {
                Origin::Signed(who) => {
                    &&& r == Ok::<Event, SubmissionError>(Event::ConnectionRequested(who))
                    &&& final(self)@.connection == enqueue_connection(
                        old(self)@.connection,
                        ConnectionCommandView::ConnectTo(addr@),
                    )
                    &&& final(self)@.data == old(self)@.data
                    &&& final(self)@.dht == old(self)@.dht
                },
                Origin::Unsigned => {
                    &&& r == Err::<Event, SubmissionError>(SubmissionError::Unauthorized)
                    &&& *final(self) == *old(self)
                },
            },
            old(self).wf() ==> final(self).wf(),
    {
        let who = match ensure_signed(origin) {
            Ok(who) => who,
            Err(e) => {
                return Err(e);
            },
        };
        self.submit_connection(ConnectionCommand::ConnectTo(addr));
        Ok(Event::ConnectionRequested(who))
    }

    /// Queue an address to be disconnected from; it is honoured by the next
    /// run of the offchain connection housekeeping pass.
    pub fn ipfs_disconnect(&mut self, origin: &Origin, addr: Vec<u8>) -> (r: Result<
        Event,
        SubmissionError,
    >)
        ensures
            match *origin {
                Origin::Signed(who) => {
                    &&& r == Ok::<Event, SubmissionError>(Event::DisconnectRequested(who))
                    &&& final(self)@.connection == enqueue_connection(
                        old(self)@.connection,
                        ConnectionCommandView::DisconnectFrom(addr@),
                    )
                    &&& final(self)@.data == old(self)@.data
                    &&& final(self)@.dht == old(self)@.dht
                },
                Origin::Unsigned => {
                    &&& r == Err::<Event, SubmissionError>(SubmissionError::Unauthorized)
                    &&& *final(self) == *old(self)
                },
            },
            old(self).wf() ==> final(self).wf(),
    {
        let who = match ensure_signed(origin) {
            Ok(who) => who,
            Err(e) => {
                return Err(e);
            },
        };
        self.submit_connection(ConnectionCommand::DisconnectFrom(addr));
        Ok(Event::DisconnectRequested(who))
    }

    /// Queue a data command, appended unconditionally.
    fn submit_data(&mut self, cmd: DataCommand)
        ensures
            final(self)@.data == old(self)@.data.push(cmd@),
            final(self)@.connection == old(self)@.connection,
            final(self)@.dht == old(self)@.dht,
    {
        let ghost prev = self.data_queue@;
        self.data_queue.push(cmd);
        proof {
            assert(data_seq_view(self.data_queue@) =~= data_seq_view(prev).push(cmd@));
        }
    }

    /// Queue arbitrary bytes to be added to the node's repository; the
    /// registered content identifier is reported through the logs.
    pub fn ipfs_add_bytes(&mut self, origin: &Origin, data: Vec<u8>) -> (r: Result<
        Event,
        SubmissionError,
    >)
        ensures
            match *origin {
                Origin::Signed(who) => {
                    &&& r == Ok::<Event, SubmissionError>(Event::QueuedDataToAdd(who))
                    &&& final(self)@.data == old(self)@.data.push(DataCommandView::AddBytes(data@))
                    &&& final(self)@.connection == old(self)@.connection
                    &&& final(self)@.dht == old(self)@.dht
                },
                Origin::Unsigned => {
                    &&& r == Err::<Event, SubmissionError>(SubmissionError::Unauthorized)
                    &&& *final(self) == *old(self)
                },
            },
            old(self).wf() ==> final(self).wf(),
    {
        let who = match ensure_signed(origin) {
            Ok(who) => who,
            Err(e) => {
                return Err(e);
            },
        };
        self.submit_data(DataCommand::AddBytes(data));
        Ok(Event::QueuedDataToAdd(who))
    }

    /// Queue a fetch of the data behind a content identifier; text payloads
    /// are logged verbatim, others as bytes.
    pub fn ipfs_cat_bytes(&mut self, origin: &Origin, cid: Vec<u8>) -> (r: Result<
        Event,
        SubmissionError,
    >)
        ensures
            match *origin {
                Origin::Signed(who) => {
                    &&& r == Ok::<Event, SubmissionError>(Event::QueuedDataToCat(who))
                    &&& final(self)@.data == old(self)@.data.push(DataCommandView::CatBytes(cid@))
                    &&& final(self)@.connection == old(self)@.connection
                    &&& final(self)@.dht == old(self)@.dht
                },
                Origin::Unsigned => {
                    &&& r == Err::<Event, SubmissionError>(SubmissionError::Unauthorized)
                    &&& *final(self) == *old(self)
                },
            },
            old(self).wf() ==> final(self).wf(),
    {
        let who = match ensure_signed(origin) {
            Ok(who) => who,
            Err(e) => {
                return Err(e);
            },
        };
        self.submit_data(DataCommand::CatBytes(cid));
        Ok(Event::QueuedDataToCat(who))
    }

    /// Queue the removal of the block behind a content identifier.
    pub fn ipfs_remove_block(&mut self, origin: &Origin, cid: Vec<u8>) -> (r: Result<
        Event,
        SubmissionError,
    >)
        ensures
            match *origin {
                Origin::Signed(who) => {
                    &&& r == Ok::<Event, SubmissionError>(Event::QueuedDataToRemove(who))
                    &&& final(self)@.data == old(self)@.data.push(
                        DataCommandView::RemoveBlock(cid@),
                    )
                    &&& final(self)@.connection == old(self)@.connection
                    &&& final(self)@.dht == old(self)@.dht
                },
                Origin::Unsigned => {
                    &&& r == Err::<Event, SubmissionError>(SubmissionError::Unauthorized)
                    &&& *final(self) == *old(self)
                },
            },
            old(self).wf() ==> final(self).wf(),
    {
        let who = match ensure_signed(origin) {
            Ok(who) => who,
            Err(e) => {
                return Err(e);
            },
        };
        self.submit_data(DataCommand::RemoveBlock(cid));
        Ok(Event::QueuedDataToRemove(who))
    }

    /// Queue a non-recursive pin of a content identifier.
    pub fn ipfs_insert_pin(&mut self, origin: &Origin, cid: Vec<u8>) -> (r: Result<
        Event,
        SubmissionError,
    >)
        ensures
            match *origin {
                Origin::Signed(who) => {
                    &&& r == Ok::<Event, SubmissionError>(Event::QueuedDataToPin(who))
                    &&& final(self)@.data == old(self)@.data.push(DataCommandView::InsertPin(cid@))
                    &&& final(self)@.connection == old(self)@.connection
                    &&& final(self)@.dht == old(self)@.dht
                },
                Origin::Unsigned => {
                    &&& r == Err::<Event, SubmissionError>(SubmissionError::Unauthorized)
                    &&& *final(self) == *old(self)
                },
            },
            old(self).wf() ==> final(self).wf(),
    {
        let who = match ensure_signed(origin) {
            Ok(who) => who,
            Err(e) => {
                return Err(e);
            },
        };
        self.submit_data(DataCommand::InsertPin(cid));
        Ok(Event::QueuedDataToPin(who))
    }

    /// Queue a non-recursive unpin of a content identifier.
    pub fn ipfs_remove_pin(&mut self, origin: &Origin, cid: Vec<u8>) -> (r: Result<
        Event,
        SubmissionError,
    >)
        ensures
            match *origin {
                Origin::Signed(who) => {
                    &&& r == Ok::<Event, SubmissionError>(Event::QueuedDataToUnpin(who))
                    &&& final(self)@.data == old(self)@.data.push(DataCommandView::RemovePin(cid@))
                    &&& final(self)@.connection == old(self)@.connection
                    &&& final(self)@.dht == old(self)@.dht
                },
                Origin::Unsigned => {
                    &&& r == Err::<Event, SubmissionError>(SubmissionError::Unauthorized)
                    &&& *final(self) == *old(self)
                },
            },
            old(self).wf() ==> final(self).wf(),
    {
        let who = match ensure_signed(origin) {
            Ok(who) => who,
            Err(e) => {
                return Err(e);
            },
        };
        self.submit_data(DataCommand::RemovePin(cid));
        Ok(Event::QueuedDataToUnpin(who))
    }

    /// Queue a DHT command, appended unconditionally.
    fn submit_dht(&mut self, cmd: DhtCommand)
        ensures
            final(self)@.dht == old(self)@.dht.push(cmd@),
            final(self)@.connection == old(self)@.connection,
            final(self)@.data == old(self)@.data,
    {
        let ghost prev = self.dht_queue@;
        self.dht_queue.push(cmd);
        proof {
            assert(dht_seq_view(self.dht_queue@) =~= dht_seq_view(prev).push(cmd@));
        }
    }

    /// Queue a DHT search for the addresses of a peer.
    pub fn ipfs_dht_find_peer(&mut self, origin: &Origin, peer_id: Vec<u8>) -> (r: Result<
        Event,
        SubmissionError,
    >)
        ensures
            match *origin {
                Origin::Signed(who) => {
                    &&& r == Ok::<Event, SubmissionError>(Event::FindPeerIssued(who))
                    &&& final(self)@.dht == old(self)@.dht.push(DhtCommandView::FindPeer(peer_id@))
                    &&& final(self)@.connection == old(self)@.connection
                    &&& final(self)@.data == old(self)@.data
                },
                Origin::Unsigned => {
                    &&& r == Err::<Event, SubmissionError>(SubmissionError::Unauthorized)
                    &&& *final(self) == *old(self)
                },
            },
            old(self).wf() ==> final(self).wf(),
    {
        let who = match ensure_signed(origin) {
            Ok(who) => who,
            Err(e) => {
                return Err(e);
            },
        };
        self.submit_dht(DhtCommand::FindPeer(peer_id));
        Ok(Event::FindPeerIssued(who))
    }

    /// Queue a DHT search for the peers known to provide a content
    /// identifier.
    pub fn ipfs_dht_find_providers(&mut self, origin: &Origin, cid: Vec<u8>) -> (r: Result<
        Event,
        SubmissionError,
    >)
        ensures
            match *origin {
                Origin::Signed(who) => {
                    &&& r == Ok::<Event, SubmissionError>(Event::FindProvidersIssued(who))
                    &&& final(self)@.dht == old(self)@.dht.push(DhtCommandView::GetProviders(cid@))
                    &&& final(self)@.connection == old(self)@.connection
                    &&& final(self)@.data == old(self)@.data
                },
                Origin::Unsigned => {
                    &&& r == Err::<Event, SubmissionError>(SubmissionError::Unauthorized)
                    &&& *final(self) == *old(self)
                },
            },
            old(self).wf() ==> final(self).wf(),
    {
        let who = match ensure_signed(origin) {
            Ok(who) => who,
            Err(e) => {
                return Err(e);
            },
        };
        self.submit_dht(DhtCommand::GetProviders(cid));
        Ok(Event::FindProvidersIssued(who))
    }
}

} // verus!
