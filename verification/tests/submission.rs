use ipfs_offchain::commands::ConnectionCommand;
use ipfs_offchain::commands::DataCommand;
use ipfs_offchain::commands::DhtCommand;
use ipfs_offchain::store::Event;
use ipfs_offchain::store::Origin;
use ipfs_offchain::store::QueueStore;
use ipfs_offchain::store::SubmissionError;

#[test]
fn connect_twice_deduplicates() {
    let mut store = QueueStore::new();
    let origin = Origin::Signed(7);
    let r1 = store.ipfs_connect(&origin, b"/ip4/1.2.3.4/tcp/4001".to_vec());
    let r2 = store.ipfs_connect(&origin, b"/ip4/1.2.3.4/tcp/4001".to_vec());
    assert_eq!(r1, Ok(Event::ConnectionRequested(7)));
    assert_eq!(r2, Ok(Event::ConnectionRequested(7)));
    assert_eq!(store.connection_queue.len(), 1);
    assert_eq!(
        store.connection_queue[0],
        ConnectionCommand::ConnectTo(b"/ip4/1.2.3.4/tcp/4001".to_vec())
    );
}

#[test]
fn connect_then_disconnect_yields_two_entries() {
    let mut store = QueueStore::new();
    let origin = Origin::Signed(1);
    store
        .ipfs_connect(&origin, b"/ip4/1.2.3.4/tcp/4001".to_vec())
        .unwrap();
    store
        .ipfs_disconnect(&origin, b"/ip4/1.2.3.4/tcp/4001".to_vec())
        .unwrap();
    assert_eq!(store.connection_queue.len(), 2);
    assert_eq!(
        store.connection_queue[0],
        ConnectionCommand::ConnectTo(b"/ip4/1.2.3.4/tcp/4001".to_vec())
    );
    assert_eq!(
        store.connection_queue[1],
        ConnectionCommand::DisconnectFrom(b"/ip4/1.2.3.4/tcp/4001".to_vec())
    );
}

#[test]
fn distinct_addresses_both_queued() {
    let mut store = QueueStore::new();
    let origin = Origin::Signed(1);
    store.ipfs_connect(&origin, b"addr-a".to_vec()).unwrap();
    store.ipfs_connect(&origin, b"addr-b".to_vec()).unwrap();
    assert_eq!(store.connection_queue.len(), 2);
}

#[test]
fn unauthorized_submissions_are_rejected_and_change_nothing() {
    let mut store = QueueStore::new();
    let origin = Origin::Unsigned;
    assert_eq!(
        store.ipfs_connect(&origin, b"a".to_vec()),
        Err(SubmissionError::Unauthorized)
    );
    assert_eq!(
        store.ipfs_disconnect(&origin, b"a".to_vec()),
        Err(SubmissionError::Unauthorized)
    );
    assert_eq!(
        store.ipfs_add_bytes(&origin, b"a".to_vec()),
        Err(SubmissionError::Unauthorized)
    );
    assert_eq!(
        store.ipfs_cat_bytes(&origin, b"a".to_vec()),
        Err(SubmissionError::Unauthorized)
    );
    assert_eq!(
        store.ipfs_remove_block(&origin, b"a".to_vec()),
        Err(SubmissionError::Unauthorized)
    );
    assert_eq!(
        store.ipfs_insert_pin(&origin, b"a".to_vec()),
        Err(SubmissionError::Unauthorized)
    );
    assert_eq!(
        store.ipfs_remove_pin(&origin, b"a".to_vec()),
        Err(SubmissionError::Unauthorized)
    );
    assert_eq!(
        store.ipfs_dht_find_peer(&origin, b"a".to_vec()),
        Err(SubmissionError::Unauthorized)
    );
    assert_eq!(
        store.ipfs_dht_find_providers(&origin, b"a".to_vec()),
        Err(SubmissionError::Unauthorized)
    );
    assert!(store.connection_queue.is_empty());
    assert!(store.data_queue.is_empty());
    assert!(store.dht_queue.is_empty());
}

#[test]
fn data_submissions_append_unconditionally_with_duplicates() {
    let mut store = QueueStore::new();
    let origin = Origin::Signed(3);
    assert_eq!(
        store.ipfs_add_bytes(&origin, b"payload".to_vec()),
        Ok(Event::QueuedDataToAdd(3))
    );
    assert_eq!(
        store.ipfs_add_bytes(&origin, b"payload".to_vec()),
        Ok(Event::QueuedDataToAdd(3))
    );
    assert_eq!(
        store.ipfs_cat_bytes(&origin, b"cid-1".to_vec()),
        Ok(Event::QueuedDataToCat(3))
    );
    assert_eq!(
        store.ipfs_remove_block(&origin, b"cid-1".to_vec()),
        Ok(Event::QueuedDataToRemove(3))
    );
    assert_eq!(
        store.ipfs_insert_pin(&origin, b"cid-1".to_vec()),
        Ok(Event::QueuedDataToPin(3))
    );
    assert_eq!(
        store.ipfs_remove_pin(&origin, b"cid-1".to_vec()),
        Ok(Event::QueuedDataToUnpin(3))
    );
    assert_eq!(
        store.data_queue,
        vec![
            DataCommand::AddBytes(b"payload".to_vec()),
            DataCommand::AddBytes(b"payload".to_vec()),
            DataCommand::CatBytes(b"cid-1".to_vec()),
            DataCommand::RemoveBlock(b"cid-1".to_vec()),
            DataCommand::InsertPin(b"cid-1".to_vec()),
            DataCommand::RemovePin(b"cid-1".to_vec()),
        ]
    );
}

#[test]
fn dht_submissions_append_in_order() {
    let mut store = QueueStore::new();
    let origin = Origin::Signed(9);
    assert_eq!(
        store.ipfs_dht_find_peer(&origin, b"peer-1".to_vec()),
        Ok(Event::FindPeerIssued(9))
    );
    assert_eq!(
        store.ipfs_dht_find_providers(&origin, b"cid-9".to_vec()),
        Ok(Event::FindProvidersIssued(9))
    );
    assert_eq!(
        store.dht_queue,
        vec![
            DhtCommand::FindPeer(b"peer-1".to_vec()),
            DhtCommand::GetProviders(b"cid-9".to_vec()),
        ]
    );
}
