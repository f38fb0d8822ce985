use ipfs_offchain::commands::DataCommand;
use ipfs_offchain::scheduler::on_initialize;
use ipfs_offchain::store::Origin;
use ipfs_offchain::store::QueueStore;

fn populated_store() -> QueueStore {
    let mut store = QueueStore::new();
    let origin = Origin::Signed(1);
    store.ipfs_connect(&origin, b"addr".to_vec()).unwrap();
    store.ipfs_add_bytes(&origin, b"data".to_vec()).unwrap();
    store.ipfs_dht_find_peer(&origin, b"peer".to_vec()).unwrap();
    store
}

#[test]
fn scheduler_always_clears_connection_and_dht_queues() {
    for height in [1u64, 2, 3, 4, 5, 100] {
        let mut store = populated_store();
        let weight = on_initialize(&mut store, height);
        assert_eq!(weight, 0);
        assert!(store.connection_queue.is_empty());
        assert!(store.dht_queue.is_empty());
    }
}

#[test]
fn scheduler_clears_data_queue_only_on_odd_heights() {
    let mut store = populated_store();
    on_initialize(&mut store, 2);
    assert_eq!(store.data_queue, vec![DataCommand::AddBytes(b"data".to_vec())]);
    on_initialize(&mut store, 4);
    assert_eq!(store.data_queue, vec![DataCommand::AddBytes(b"data".to_vec())]);
    on_initialize(&mut store, 3);
    assert!(store.data_queue.is_empty());

    let mut store = populated_store();
    on_initialize(&mut store, 1);
    assert!(store.data_queue.is_empty());
}

#[test]
fn even_block_data_submissions_are_cleared_before_the_next_odd_pass() {
    // Data queued during an even block survives that block (the data pass
    // does not run on even heights), but the next odd block's scheduler
    // clears it before that block's own submissions are applied — so it is
    // never seen by any data pass.
    let mut store = QueueStore::new();
    let origin = Origin::Signed(1);

    on_initialize(&mut store, 2);
    store.ipfs_add_bytes(&origin, b"queued-on-even".to_vec()).unwrap();
    assert_eq!(store.data_queue.len(), 1);

    on_initialize(&mut store, 3);
    assert!(store.data_queue.is_empty());
    store.ipfs_add_bytes(&origin, b"queued-on-odd".to_vec()).unwrap();
    assert_eq!(
        store.data_queue,
        vec![DataCommand::AddBytes(b"queued-on-odd".to_vec())]
    );
}
