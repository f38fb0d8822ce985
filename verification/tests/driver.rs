use ipfs_offchain::commands::ConnectionCommand;
use ipfs_offchain::commands::DataCommand;
use ipfs_offchain::commands::DhtCommand;
use ipfs_offchain::driver::DriverError;
use ipfs_offchain::driver::LogEntry;
use ipfs_offchain::driver::connection_housekeeping;
use ipfs_offchain::driver::data_request;
use ipfs_offchain::driver::handle_data_requests;
use ipfs_offchain::driver::handle_dht_requests;
use ipfs_offchain::driver::ipfs_request_outcome;
use ipfs_offchain::driver::print_metadata;
use ipfs_offchain::driver::should_run_data_pass;
use ipfs_offchain::driver::should_run_metadata_pass;
use ipfs_offchain::protocol::GatewayError;
use ipfs_offchain::protocol::IpfsRequest;
use ipfs_offchain::protocol::IpfsResponse;
use ipfs_offchain::protocol::NodeInteraction;

#[test]
fn gateway_failure_on_one_command_does_not_stop_the_pass() {
    // Three queued connection commands; the gateway fails on the middle
    // one. All three requests are still issued, and every outcome logged.
    let queue = vec![
        ConnectionCommand::ConnectTo(b"addr-1".to_vec()),
        ConnectionCommand::ConnectTo(b"addr-2".to_vec()),
        ConnectionCommand::DisconnectFrom(b"addr-3".to_vec()),
    ];
    let outcomes = vec![
        Ok(IpfsResponse::Success),
        Err(GatewayError::RequestFailed),
        Ok(IpfsResponse::Success),
    ];
    let report = connection_housekeeping(&queue, &outcomes);
    assert!(!report.aborted);
    assert_eq!(report.requests.len(), 3);
    assert_eq!(report.requests[0], IpfsRequest::Connect(b"addr-1".to_vec()));
    assert_eq!(report.requests[1], IpfsRequest::Connect(b"addr-2".to_vec()));
    assert_eq!(report.requests[2], IpfsRequest::Disconnect(b"addr-3".to_vec()));
    assert_eq!(
        report.logs,
        vec![
            LogEntry::ConnectedTo(b"addr-1".to_vec()),
            LogEntry::CommandFailed(GatewayError::RequestFailed),
            LogEntry::DisconnectedFrom(b"addr-3".to_vec()),
        ]
    );
}

#[test]
fn mismatched_response_variant_aborts_the_pass() {
    let queue = vec![
        ConnectionCommand::ConnectTo(b"addr-1".to_vec()),
        ConnectionCommand::ConnectTo(b"addr-2".to_vec()),
    ];
    let outcomes = vec![
        Ok(IpfsResponse::CatBytes(b"bogus".to_vec())),
        Ok(IpfsResponse::Success),
    ];
    let report = connection_housekeeping(&queue, &outcomes);
    assert!(report.aborted);
    assert_eq!(report.requests.len(), 1);
    assert_eq!(report.logs, vec![LogEntry::ProtocolViolation]);
}

#[test]
fn dht_timeout_is_logged_and_remaining_commands_still_processed() {
    // A FindPeer request that times out at its deadline logs a timeout
    // outcome and does not crash the remaining DHT queue processing.
    let queue = vec![
        DhtCommand::FindPeer(b"peer-1".to_vec()),
        DhtCommand::GetProviders(b"cid-1".to_vec()),
    ];
    let outcomes = vec![
        Err(GatewayError::RequestTimeout),
        Ok(IpfsResponse::GetProviders(vec![b"peer-2".to_vec(), b"peer-3".to_vec()])),
    ];
    let report = handle_dht_requests(&queue, &outcomes);
    assert!(!report.aborted);
    assert_eq!(report.requests.len(), 2);
    assert_eq!(report.requests[0], IpfsRequest::FindPeer(b"peer-1".to_vec()));
    assert_eq!(
        report.logs,
        vec![
            LogEntry::CommandFailed(GatewayError::RequestTimeout),
            LogEntry::ProvidersFound(
                b"cid-1".to_vec(),
                vec![b"peer-2".to_vec(), b"peer-3".to_vec()]
            ),
        ]
    );
}

#[test]
fn dht_find_peer_success_logs_the_address_list() {
    let queue = vec![DhtCommand::FindPeer(b"peer-1".to_vec())];
    let outcomes = vec![Ok(IpfsResponse::FindPeer(vec![b"addr-a".to_vec()]))];
    let report = handle_dht_requests(&queue, &outcomes);
    assert_eq!(
        report.logs,
        vec![LogEntry::PeerAddressesFound(
            b"peer-1".to_vec(),
            vec![b"addr-a".to_vec()]
        )]
    );
}

/// A minimal well-behaved node: remembers added payloads under fresh
/// content identifiers and serves them back on a cat request.
struct MockNode {
    stored: Vec<(Vec<u8>, Vec<u8>)>,
}

impl MockNode {
    fn new() -> MockNode {
        MockNode { stored: Vec::new() }
    }

    fn handle(&mut self, req: &IpfsRequest) -> Result<IpfsResponse, GatewayError> {
        match req {
            IpfsRequest::AddBytes(data) => {
                let cid = format!("cid-{}", self.stored.len()).into_bytes();
                self.stored.push((cid.clone(), data.clone()));
                Ok(IpfsResponse::AddBytes(cid))
            }
            IpfsRequest::CatBytes(cid) => {
                for (stored_cid, data) in &self.stored {
                    if stored_cid == cid {
                        return Ok(IpfsResponse::CatBytes(data.clone()));
                    }
                }
                Err(GatewayError::RequestFailed)
            }
            _ => Ok(IpfsResponse::Success),
        }
    }
}

#[test]
fn add_bytes_then_cat_bytes_round_trips_byte_for_byte() {
    let payload = b"round trip payload".to_vec();
    let mut node = MockNode::new();

    // First data pass: add the payload, learn the content identifier.
    let add_queue = vec![DataCommand::AddBytes(payload.clone())];
    let add_outcomes: Vec<Result<IpfsResponse, GatewayError>> =
        add_queue.iter().map(|c| node.handle(&data_request(c))).collect();
    let add_report = handle_data_requests(&add_queue, &add_outcomes);
    assert_eq!(add_report.logs[0], LogEntry::DataQueueLen(1));
    let cid = match &add_report.logs[1] {
        LogEntry::BytesAdded(cid) => cid.clone(),
        other => panic!("expected a BytesAdded log line, got {:?}", other),
    };

    // Second data pass: cat the identifier; the payload comes back intact.
    let cat_queue = vec![DataCommand::CatBytes(cid)];
    let cat_outcomes: Vec<Result<IpfsResponse, GatewayError>> =
        cat_queue.iter().map(|c| node.handle(&data_request(c))).collect();
    let cat_report = handle_data_requests(&cat_queue, &cat_outcomes);
    assert_eq!(cat_report.logs[1], LogEntry::TextDataCat(payload));
}

#[test]
fn cat_of_non_text_bytes_is_logged_as_bytes() {
    let queue = vec![DataCommand::CatBytes(b"cid-bin".to_vec())];
    let outcomes = vec![Ok(IpfsResponse::CatBytes(vec![0xff, 0xfe, 0x00]))];
    let report = handle_data_requests(&queue, &outcomes);
    assert_eq!(report.logs[1], LogEntry::BinaryDataCat(vec![0xff, 0xfe, 0x00]));
}

#[test]
fn pin_requests_are_always_non_recursive() {
    assert_eq!(
        data_request(&DataCommand::InsertPin(b"cid-1".to_vec())),
        IpfsRequest::InsertPin(b"cid-1".to_vec(), false)
    );
    assert_eq!(
        data_request(&DataCommand::RemovePin(b"cid-1".to_vec())),
        IpfsRequest::RemovePin(b"cid-1".to_vec(), false)
    );
    let queue = vec![DataCommand::InsertPin(b"cid-1".to_vec())];
    let outcomes = vec![Ok(IpfsResponse::Success)];
    let report = handle_data_requests(&queue, &outcomes);
    assert_eq!(report.requests[0], IpfsRequest::InsertPin(b"cid-1".to_vec(), false));
    assert_eq!(report.logs[1], LogEntry::Pinned(b"cid-1".to_vec()));
}

#[test]
fn data_pass_logs_queue_size_only_when_not_empty() {
    let queue = vec![
        DataCommand::RemoveBlock(b"cid-1".to_vec()),
        DataCommand::RemovePin(b"cid-2".to_vec()),
    ];
    let outcomes = vec![
        Ok(IpfsResponse::RemoveBlock(b"cid-1".to_vec())),
        Ok(IpfsResponse::Success),
    ];
    let report = handle_data_requests(&queue, &outcomes);
    assert_eq!(
        report.logs,
        vec![
            LogEntry::DataQueueLen(2),
            LogEntry::BlockRemoved(b"cid-1".to_vec()),
            LogEntry::Unpinned(b"cid-2".to_vec()),
        ]
    );

    let empty_report = handle_data_requests(&Vec::new(), &Vec::new());
    assert!(empty_report.logs.is_empty());
    assert!(empty_report.requests.is_empty());
}

#[test]
fn metadata_pass_reports_peer_count_and_surfaces_failures() {
    let ok = print_metadata(&Ok(IpfsResponse::Peers(vec![
        b"peer-1".to_vec(),
        b"peer-2".to_vec(),
    ])));
    assert_eq!(ok, Ok(LogEntry::PeerCount(2)));

    let mismatched = print_metadata(&Ok(IpfsResponse::Success));
    assert_eq!(mismatched, Err(DriverError::ProtocolInvariantViolation));

    let timed_out = print_metadata(&Err(GatewayError::RequestTimeout));
    assert_eq!(timed_out, Err(DriverError::Gateway(GatewayError::RequestTimeout)));
}

#[test]
fn pass_cadences_follow_block_height() {
    assert!(should_run_data_pass(1));
    assert!(!should_run_data_pass(2));
    assert!(should_run_data_pass(3));
    assert!(should_run_metadata_pass(5));
    assert!(!should_run_metadata_pass(6));
    assert!(should_run_metadata_pass(0));
    assert!(should_run_metadata_pass(10));
}

#[test]
fn gateway_outcome_classification_matches_failure_modes() {
    let (outcome, log) = ipfs_request_outcome(NodeInteraction::CouldNotCreate);
    assert_eq!(outcome, Err(GatewayError::CantCreateRequest));
    assert_eq!(log, None);

    let (outcome, log) = ipfs_request_outcome(NodeInteraction::TimedOut);
    assert_eq!(outcome, Err(GatewayError::RequestTimeout));
    assert_eq!(log, None);

    let (outcome, log) = ipfs_request_outcome(NodeInteraction::IoError(b"disk full".to_vec()));
    assert_eq!(outcome, Err(GatewayError::RequestFailed));
    assert_eq!(log, Some(LogEntry::RequestFailedIo(b"disk full".to_vec(), true)));

    let (outcome, log) = ipfs_request_outcome(NodeInteraction::IoError(vec![0xff, 0xfe]));
    assert_eq!(outcome, Err(GatewayError::RequestFailed));
    assert_eq!(log, Some(LogEntry::RequestFailedIo(vec![0xff, 0xfe], false)));

    let (outcome, log) = ipfs_request_outcome(NodeInteraction::OtherNodeError);
    assert_eq!(outcome, Err(GatewayError::RequestFailed));
    assert_eq!(log, Some(LogEntry::RequestFailedOther));

    let (outcome, log) = ipfs_request_outcome(NodeInteraction::Responded(IpfsResponse::Success));
    assert_eq!(outcome, Ok(IpfsResponse::Success));
    assert_eq!(log, None);
}
