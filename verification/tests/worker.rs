use ipfs_offchain::driver::LogEntry;
use ipfs_offchain::driver::offchain_worker;
use ipfs_offchain::protocol::COMMAND_DEADLINE_MS;
use ipfs_offchain::protocol::GatewayError;
use ipfs_offchain::protocol::IpfsResponse;
use ipfs_offchain::protocol::METADATA_DEADLINE_MS;
use ipfs_offchain::protocol::deadline_at;
use ipfs_offchain::store::Origin;
use ipfs_offchain::store::QueueStore;

fn populated_store() -> QueueStore {
    let mut store = QueueStore::new();
    let origin = Origin::Signed(1);
    store.ipfs_connect(&origin, b"addr".to_vec()).unwrap();
    store.ipfs_add_bytes(&origin, b"data".to_vec()).unwrap();
    store.ipfs_dht_find_peer(&origin, b"peer".to_vec()).unwrap();
    store
}

#[test]
fn worker_runs_data_pass_on_odd_heights_only() {
    let store = populated_store();
    let conn_outcomes = vec![Ok(IpfsResponse::Success)];
    let dht_outcomes = vec![Ok(IpfsResponse::FindPeer(vec![b"addr".to_vec()]))];
    let data_outcomes = vec![Ok(IpfsResponse::AddBytes(b"cid-1".to_vec()))];

    let odd = offchain_worker(1, &store, &conn_outcomes, &dht_outcomes, &data_outcomes, None);
    assert!(odd.data.is_some());
    assert!(odd.metadata.is_none());
    assert_eq!(odd.connection.logs, vec![LogEntry::ConnectedTo(b"addr".to_vec())]);

    let even = offchain_worker(2, &store, &conn_outcomes, &dht_outcomes, &Vec::new(), None);
    assert!(even.data.is_none());
    assert!(even.metadata.is_none());
    assert_eq!(even.connection.logs, vec![LogEntry::ConnectedTo(b"addr".to_vec())]);
    assert_eq!(
        even.dht.logs,
        vec![LogEntry::PeerAddressesFound(b"peer".to_vec(), vec![b"addr".to_vec()])]
    );
}

#[test]
fn worker_runs_metadata_pass_on_every_fifth_height_only() {
    let store = populated_store();
    let conn_outcomes = vec![Ok(IpfsResponse::Success)];
    let dht_outcomes = vec![Ok(IpfsResponse::FindPeer(vec![b"addr".to_vec()]))];
    let data_outcomes = vec![Ok(IpfsResponse::AddBytes(b"cid-1".to_vec()))];

    let fifth = offchain_worker(
        5,
        &store,
        &conn_outcomes,
        &dht_outcomes,
        &data_outcomes,
        Some(Ok(IpfsResponse::Peers(vec![b"p1".to_vec(), b"p2".to_vec(), b"p3".to_vec()]))),
    );
    assert_eq!(fifth.metadata, Some(Ok(LogEntry::PeerCount(3))));
    assert!(fifth.data.is_some());

    let sixth = offchain_worker(6, &store, &conn_outcomes, &dht_outcomes, &Vec::new(), None);
    assert!(sixth.metadata.is_none());
    assert!(sixth.data.is_none());
}

#[test]
fn worker_passes_are_isolated_from_each_other() {
    // The metadata pass failing never keeps the other passes from running,
    // and a failing connection pass does not stop the DHT pass.
    let store = populated_store();
    let conn_outcomes = vec![Err(GatewayError::RequestFailed)];
    let dht_outcomes = vec![Ok(IpfsResponse::FindPeer(vec![b"addr".to_vec()]))];
    let data_outcomes = vec![Err(GatewayError::RequestTimeout)];

    let report = offchain_worker(
        5,
        &store,
        &conn_outcomes,
        &dht_outcomes,
        &data_outcomes,
        Some(Err(GatewayError::RequestTimeout)),
    );
    assert_eq!(
        report.connection.logs,
        vec![LogEntry::CommandFailed(GatewayError::RequestFailed)]
    );
    assert_eq!(
        report.dht.logs,
        vec![LogEntry::PeerAddressesFound(b"peer".to_vec(), vec![b"addr".to_vec()])]
    );
    let data = report.data.expect("data pass runs on height five");
    assert_eq!(
        data.logs,
        vec![
            LogEntry::DataQueueLen(1),
            LogEntry::CommandFailed(GatewayError::RequestTimeout),
        ]
    );
    assert!(report.metadata.is_some());
}

#[test]
fn deadlines_are_absolute_timestamps_with_fixed_offsets() {
    assert_eq!(COMMAND_DEADLINE_MS, 1000);
    assert_eq!(METADATA_DEADLINE_MS, 200);
    assert_eq!(deadline_at(5_000, COMMAND_DEADLINE_MS), 6_000);
    assert_eq!(deadline_at(5_000, METADATA_DEADLINE_MS), 5_200);
}
