//! The queue lifecycle scheduler: a consensus-critical hook that runs at
//! the start of every block, before that block's submissions are applied.
//! It always clears the connection and DHT queues, clears the data queue
//! only when the new block height is odd, and reports a nominal cost to
//! the host. It is the only place queues are ever cleared; the offchain
//! driver's reads are snapshots and never mutate.

use vstd::prelude::*;

use crate::commands::ConnectionCommandView;
use crate::commands::DataCommandView;
use crate::commands::DhtCommandView;
use crate::store::QueueStore;

verus! {

/// Whether the scheduler clears the data queue at this block height.
pub open spec fn data_queue_cleared_at(block_number: u64) -> bool {
    block_number % 2 == 1
}

/// The data queue the scheduler leaves behind: cleared on odd heights,
/// untouched on even ones.
pub open spec fn spec_data_queue_after(
    before: Seq<DataCommandView>,
    block_number: u64,
) -> Seq<DataCommandView> {
    if data_queue_cleared_at(block_number) {
        Seq::<DataCommandView>::empty()
    } else {
        before
    }
}

/// Per-block queue reset. Failure is not possible: the hook is a pure
/// state reset whose returned weight is the nominal cost zero.
pub fn on_initialize(store: &mut QueueStore, block_number: u64) -> (weight: u64)
    ensures
        final(store)@.connection == Seq::<ConnectionCommandView>::empty(),
        final(store)@.dht == Seq::<DhtCommandView>::empty(),
        final(store)@.data == spec_data_queue_after(old(store)@.data, block_number),
        final(store).wf(),
        weight == 0,
{
    store.connection_queue = Vec::new();
    store.dht_queue = Vec::new();
    if block_number % 2 == 1 {
        store.data_queue = Vec::new();
    }
    proof {
        assert(store@.connection =~= Seq::<ConnectionCommandView>::empty());
        assert(store@.dht =~= Seq::<DhtCommandView>::empty());
        if data_queue_cleared_at(block_number) {
            assert(store@.data =~= Seq::<DataCommandView>::empty());
        }
    }
    0
}

} // verus!
