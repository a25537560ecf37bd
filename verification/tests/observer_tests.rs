use xatu::channel::{Enqueue, INGRESS_CAPACITY};
use xatu::config::{NetworkInfo, XatuConfig};
use xatu::event::EventData;
use xatu::ffi::{BridgePhase, InitError, SendError, XatuFFI};
use xatu::gossip::{
    Envelope, GossipAggregate, GossipAttestation, GossipBlobSidecar, GossipBlock,
    GossipDataColumnSidecar,
};
use xatu::metrics::DeliveryTotals;
use xatu::observer::{
    admission, observe_aggregate, observe_attestation, observe_blob_sidecar, observe_block,
    observe_data_column_sidecar, startup_result, Admission, ObserverResult, StartupError,
    XatuObserver, NO_NETWORK_INFO,
};
use xatu::scheduler::WorkerAction;
use xatu::worker::Worker;

fn network(slots_per_epoch: u64) -> NetworkInfo {
    NetworkInfo {
        genesis_time: 1606824023,
        network_name: "mainnet".to_string(),
        network_id: 1,
        slots_per_epoch,
        seconds_per_slot: 12,
    }
}

fn envelope() -> Envelope {
    Envelope {
        message_id: vec![0xab, 0xcd],
        peer_id: "peer-1".to_string(),
        timestamp_millis: 1_000,
        topic: "topic".to_string(),
        message_size: 10,
    }
}

fn block(slot: u64) -> GossipBlock {
    GossipBlock { slot, block_root: [0x11; 32], proposer_index: 5 }
}

fn attestation(slot: u64) -> GossipAttestation {
    GossipAttestation {
        slot,
        beacon_block_root: [1; 32],
        source_epoch: 1,
        source_root: [2; 32],
        target_epoch: 2,
        target_root: [3; 32],
        committee_index: 4,
        attester_index: 5,
        signature: [6; 96],
    }
}

fn aggregate(slot: u64) -> GossipAggregate {
    GossipAggregate {
        slot,
        beacon_block_root: [1; 32],
        source_epoch: 1,
        source_root: [2; 32],
        target_epoch: 2,
        target_root: [3; 32],
        data_index: 7,
        committee_index: None,
        aggregator_index: 8,
        aggregation_bits: vec![0x03],
        signature: [6; 96],
    }
}

fn blob(slot: u64) -> GossipBlobSidecar {
    GossipBlobSidecar {
        slot,
        block_root: [1; 32],
        parent_root: [2; 32],
        state_root: [3; 32],
        proposer_index: 4,
    }
}

fn column(slot: u64) -> GossipDataColumnSidecar {
    GossipDataColumnSidecar {
        slot,
        block_root: [1; 32],
        parent_root: [2; 32],
        state_root: [3; 32],
        proposer_index: 4,
        index: 9,
        kzg_commitments: 3,
    }
}

fn slot_and_epoch(event: &EventData) -> (u64, u64) {
    match event {
        EventData::BeaconBlock { slot, epoch, .. } => (*slot, *epoch),
        EventData::Attestation { slot, epoch, .. } => (*slot, *epoch),
        EventData::AggregateAndProof { slot, epoch, .. } => (*slot, *epoch),
        EventData::BlobSidecar { slot, epoch, .. } => (*slot, *epoch),
        EventData::DataColumnSidecar { slot, epoch, .. } => (*slot, *epoch),
    }
}

fn start() -> (XatuObserver, Worker) {
    let full = XatuConfig::enabled().get_full_config();
    XatuObserver::new_with_full_config(&full, Some(network(32)), &None, "1.2.3").expect("started")
}

fn start_ready() -> (XatuObserver, Worker) {
    let (observer, mut worker) = start();
    let mut bridge = XatuFFI::new();
    assert_eq!(worker.complete_init(&mut bridge, 0, 0), Ok(()));
    assert_eq!(bridge.phase(), BridgePhase::Ready);
    (observer, worker)
}

fn send_block(observer: &XatuObserver, slot: u64) -> ObserverResult {
    observer.on_gossip_block(
        vec![0xab, 0xcd],
        "peer-1".to_string(),
        None,
        &block(slot),
        1_000,
        "topic".to_string(),
        10,
    )
}

#[test]
fn readiness_is_asked_before_anything_else() {
    assert_eq!(admission(false, &None), Admission::NotReady);
    assert_eq!(admission(false, &Some(network(32))), Admission::NotReady);
    assert_eq!(admission(true, &None), Admission::NoNetworkInfo);
    assert_eq!(admission(true, &Some(network(32))), Admission::Admit { slots_per_epoch: 32 });
    assert_eq!(admission(true, &Some(network(8))), Admission::Admit { slots_per_epoch: 8 });
}

#[test]
fn a_call_before_readiness_is_dropped_without_an_error() {
    let not_ready = Admission::NotReady;
    let o = observe_block(not_ready, envelope(), &block(65));
    assert_eq!(o.result, ObserverResult::Acknowledged);
    assert!(o.event.is_none());
    let o = observe_attestation(not_ready, envelope(), &attestation(65), 1, true);
    assert_eq!(o.result, ObserverResult::Acknowledged);
    assert!(o.event.is_none());
    let o = observe_aggregate(not_ready, envelope(), &aggregate(65));
    assert_eq!(o.result, ObserverResult::Acknowledged);
    assert!(o.event.is_none());
    let o = observe_blob_sidecar(not_ready, envelope(), None, 0, &blob(65));
    assert_eq!(o.result, ObserverResult::Acknowledged);
    assert!(o.event.is_none());
    let o = observe_data_column_sidecar(not_ready, envelope(), None, &column(65));
    assert_eq!(o.result, ObserverResult::Acknowledged);
    assert!(o.event.is_none());
}

#[test]
fn a_call_without_network_info_is_an_error_for_that_call() {
    let missing = Admission::NoNetworkInfo;
    let expected = ObserverResult::Error("Network info not available".to_string());
    assert_eq!(NO_NETWORK_INFO, "Network info not available");
    let o = observe_block(missing, envelope(), &block(65));
    assert_eq!(o.result, expected);
    assert!(o.event.is_none());
    let o = observe_attestation(missing, envelope(), &attestation(65), 1, true);
    assert_eq!(o.result, expected);
    assert!(o.event.is_none());
    let o = observe_aggregate(missing, envelope(), &aggregate(65));
    assert_eq!(o.result, expected);
    assert!(o.event.is_none());
    let o = observe_blob_sidecar(missing, envelope(), None, 0, &blob(65));
    assert_eq!(o.result, expected);
    assert!(o.event.is_none());
    let o = observe_data_column_sidecar(missing, envelope(), None, &column(65));
    assert_eq!(o.result, expected);
    assert!(o.event.is_none());
}

#[test]
fn an_admitted_call_is_recorded_with_its_epoch() {
    let open = Admission::Admit { slots_per_epoch: 32 };
    let o = observe_block(open, envelope(), &block(65));
    assert_eq!(o.result, ObserverResult::Acknowledged);
    assert!(matches!(o.event, Some(EventData::BeaconBlock { slot: 65, epoch: 2, .. })));
    let o = observe_attestation(open, envelope(), &attestation(32), 3, false);
    assert_eq!(o.result, ObserverResult::Acknowledged);
    assert!(matches!(
        o.event,
        Some(EventData::Attestation { slot: 32, epoch: 1, subnet_id: 3, should_process: false, .. })
    ));
    let o = observe_aggregate(open, envelope(), &aggregate(0));
    assert_eq!(o.result, ObserverResult::Acknowledged);
    assert!(matches!(
        o.event,
        Some(EventData::AggregateAndProof { slot: 0, epoch: 0, committee_index: 7, .. })
    ));
    let o = observe_blob_sidecar(open, envelope(), None, 2, &blob(31));
    assert_eq!(o.result, ObserverResult::Acknowledged);
    assert!(matches!(o.event, Some(EventData::BlobSidecar { slot: 31, epoch: 0, blob_index: 2, .. })));
    let o = observe_data_column_sidecar(open, envelope(), None, &column(96));
    assert_eq!(o.result, ObserverResult::Acknowledged);
    assert!(matches!(
        o.event,
        Some(EventData::DataColumnSidecar {
            slot: 96,
            epoch: 3,
            column_index: 9,
            kzg_commitments_count: 3,
            ..
        })
    ));
    let o = observe_block(Admission::Admit { slots_per_epoch: 8 }, envelope(), &block(65));
    assert!(matches!(o.event, Some(EventData::BeaconBlock { slot: 65, epoch: 8, .. })));
}

#[test]
fn without_network_info_there_is_no_bridge() {
    let full = XatuConfig::enabled().get_full_config();
    match XatuObserver::new_with_full_config(&full, None, &None, "1.2.3") {
        Err(error) => {
            assert_eq!(error, StartupError::MissingNetworkInfo);
            assert_eq!(error.message(), "Network info is required for Xatu initialization");
        }
        Ok(_) => panic!("started without network info"),
    }
}

#[test]
fn the_worker_gets_the_assembled_configuration() {
    let full = XatuConfig {
        enabled: true,
        name: Some("node-9".to_string()),
        outputs: None,
        ntp_server: Some("ntp.example".to_string()),
        ethereum: None,
    }
    .get_full_config();
    let filter = Some("info,xatu=debug".to_string());
    let (_observer, worker) =
        XatuObserver::new_with_full_config(&full, Some(network(32)), &filter, "9.9.9")
            .expect("started");
    let config = worker.config();
    assert_eq!(config.log_level.as_deref(), Some("debug"));
    assert_eq!(config.processor.name, "node-9");
    assert_eq!(config.processor.ethereum.slots_per_epoch, 32);
    assert_eq!(config.processor.ethereum.network.name, "mainnet");
    assert_eq!(config.processor.client.name, "lighthouse");
    assert_eq!(config.processor.client.version, "9.9.9");
    assert_eq!(config.processor.ntp_server.as_deref(), Some("ntp.example"));
    assert_eq!(worker.pending(), 0);
    assert_eq!(worker.totals(), DeliveryTotals { events: 0, batches: 0 });
}

#[test]
fn startup_errors_in_words() {
    assert_eq!(startup_result(Some(Ok(()))), Ok(()));
    assert_eq!(startup_result(None), Err(StartupError::WorkerLost));
    assert_eq!(
        startup_result(Some(Err(InitError::SinkStartFailed))),
        Err(StartupError::InitFailed(InitError::SinkStartFailed))
    );
    assert_eq!(
        StartupError::WorkerLost.message(),
        "FFI thread failed to send initialization result"
    );
    assert_eq!(
        StartupError::InitFailed(InitError::SinkStartFailed).message(),
        "Failed to initialize Xatu FFI: Failed to start sink"
    );
    assert_eq!(
        StartupError::InitFailed(InitError::Unknown(-9)).message(),
        "Failed to initialize Xatu FFI: Failed to initialize: error code -9"
    );
}

#[test]
fn calls_before_the_handshake_are_dropped_and_never_reach_a_batch() {
    let (observer, mut worker) = start();
    for slot in 0..5 {
        assert_eq!(send_block(&observer, slot), ObserverResult::Acknowledged);
    }
    let mut bridge = XatuFFI::new();
    assert_eq!(worker.complete_init(&mut bridge, 0, 0), Ok(()));
    assert_eq!(send_block(&observer, 65), ObserverResult::Acknowledged);
    assert!(matches!(worker.poll(0), WorkerAction::Wait));
    assert_eq!(worker.pending(), 1);
    match worker.poll(1_001) {
        WorkerAction::Flush(batch) => {
            assert_eq!(batch.len(), 1);
            assert_eq!(slot_and_epoch(&batch[0]), (65, 2));
        }
        other => panic!("not a flush: {:?}", other),
    }
}

#[test]
fn a_failed_handshake_leaves_the_observers_shut_out() {
    let (observer, mut worker) = start();
    let mut bridge = XatuFFI::new();
    assert_eq!(worker.complete_init(&mut bridge, -2, 0), Err(InitError::SinkConstructionFailed));
    assert_eq!(bridge.phase(), BridgePhase::Uninitialized);
    assert_eq!(send_block(&observer, 1), ObserverResult::Acknowledged);
    assert!(matches!(worker.poll(5_000), WorkerAction::Wait));
    assert_eq!(worker.pending(), 0);
}

#[test]
fn every_kind_of_message_reaches_the_batch_in_the_order_of_the_calls() {
    let (observer, mut worker) = start_ready();
    assert_eq!(send_block(&observer, 65), ObserverResult::Acknowledged);
    assert_eq!(
        observer.on_gossip_attestation(
            vec![1],
            "p".to_string(),
            &attestation(66),
            2,
            true,
            5,
            "t".to_string(),
            1
        ),
        ObserverResult::Acknowledged
    );
    assert_eq!(
        observer.on_gossip_aggregate_and_proof(
            vec![1],
            "p".to_string(),
            &aggregate(67),
            5,
            "t".to_string(),
            1
        ),
        ObserverResult::Acknowledged
    );
    assert_eq!(
        observer.on_gossip_blob_sidecar(
            vec![1],
            "p".to_string(),
            Some("c".to_string()),
            3,
            &blob(68),
            5,
            "t".to_string(),
            1
        ),
        ObserverResult::Acknowledged
    );
    assert_eq!(
        observer.on_gossip_data_column_sidecar(
            vec![1],
            "p".to_string(),
            None,
            42,
            &column(69),
            5,
            "t".to_string(),
            1
        ),
        ObserverResult::Acknowledged
    );
    for expected in 1..=5usize {
        assert!(matches!(worker.poll(10), WorkerAction::Wait));
        assert_eq!(worker.pending(), expected);
    }
    match worker.poll(1_011) {
        WorkerAction::Flush(batch) => {
            assert_eq!(batch.len(), 5);
            assert!(matches!(batch[0], EventData::BeaconBlock { slot: 65, epoch: 2, .. }));
            assert!(matches!(batch[1], EventData::Attestation { slot: 66, epoch: 2, .. }));
            assert!(matches!(batch[2], EventData::AggregateAndProof { slot: 67, epoch: 2, .. }));
            assert!(matches!(batch[3], EventData::BlobSidecar { slot: 68, epoch: 2, blob_index: 3, .. }));
            assert!(matches!(batch[4], EventData::DataColumnSidecar { slot: 69, epoch: 2, .. }));
            match &batch[0] {
                EventData::BeaconBlock { message_id, block_root, peer_id, .. } => {
                    assert_eq!(message_id, "abcd");
                    assert_eq!(block_root, &format!("0x{}", "11".repeat(32)));
                    assert_eq!(peer_id, "peer-1");
                }
                other => panic!("not a block event: {:?}", other),
            }
        }
        other => panic!("not a flush: {:?}", other),
    }
    assert_eq!(worker.pending(), 0);
}

#[test]
fn ten_thousand_queued_attestations_leave_in_one_flush_without_the_timer() {
    let (observer, mut worker) = start_ready();
    assert_eq!(INGRESS_CAPACITY, 10_000);
    for n in 0..10_000u64 {
        let result = observer.on_gossip_attestation(
            vec![1],
            "p".to_string(),
            &attestation(n),
            n % 64,
            true,
            5,
            "t".to_string(),
            1,
        );
        assert_eq!(result, ObserverResult::Acknowledged);
    }
    for _ in 0..9_999 {
        assert!(matches!(worker.poll(0), WorkerAction::Wait));
    }
    match worker.poll(0) {
        WorkerAction::Flush(batch) => {
            assert_eq!(batch.len(), 10_000);
            for (n, event) in batch.iter().enumerate() {
                assert_eq!(slot_and_epoch(event), (n as u64, n as u64 / 32));
            }
        }
        other => panic!("not a flush: {:?}", other),
    }
    assert_eq!(worker.pending(), 0);
}

#[test]
fn a_full_queue_drops_the_event_and_does_not_hold_the_caller() {
    let (observer, mut worker) = start_ready();
    for slot in 0..10_003u64 {
        assert_eq!(send_block(&observer, slot), ObserverResult::Acknowledged);
    }
    let mut seen = 0u64;
    loop {
        match worker.poll(0) {
            WorkerAction::Wait => {
                if worker.pending() == 0 {
                    break;
                }
            }
            WorkerAction::Flush(batch) => {
                for event in &batch {
                    assert_eq!(slot_and_epoch(event).0, seen);
                    seen += 1;
                }
                break;
            }
            WorkerAction::Stop => panic!("stopped"),
        }
    }
    assert_eq!(seen, 10_000);
    // The three that found the queue full are gone.
    assert!(matches!(worker.poll(0), WorkerAction::Wait));
    assert_eq!(worker.pending(), 0);
}

#[test]
fn a_failed_delivery_does_not_disturb_the_next_batch() {
    let (observer, mut worker) = start_ready();
    assert_eq!(send_block(&observer, 1), ObserverResult::Acknowledged);
    assert_eq!(send_block(&observer, 2), ObserverResult::Acknowledged);
    assert!(matches!(worker.poll(0), WorkerAction::Wait));
    assert!(matches!(worker.poll(0), WorkerAction::Wait));
    let first = match worker.poll(1_001) {
        WorkerAction::Flush(batch) => batch,
        other => panic!("not a flush: {:?}", other),
    };
    assert_eq!(first.len(), 2);
    assert_eq!(send_block(&observer, 3), ObserverResult::Acknowledged);
    worker.record_delivery(first.len(), &XatuFFI::send_outcome(-3));
    assert_eq!(worker.totals(), DeliveryTotals { events: 0, batches: 0 });
    assert_eq!(worker.pending(), 0);
    assert!(matches!(worker.poll(1_001), WorkerAction::Wait));
    assert_eq!(worker.pending(), 1);
    let second = match worker.poll(2_002) {
        WorkerAction::Flush(batch) => batch,
        other => panic!("not a flush: {:?}", other),
    };
    assert_eq!(second.len(), 1);
    assert_eq!(slot_and_epoch(&second[0]), (3, 0));
    worker.record_delivery(second.len(), &XatuFFI::send_outcome(0));
    assert_eq!(worker.totals(), DeliveryTotals { events: 1, batches: 1 });
    worker.record_delivery(7, &Err(SendError::SinkRejected));
    assert_eq!(worker.totals(), DeliveryTotals { events: 1, batches: 1 });
}

#[test]
fn an_idle_timeout_flushes_nothing() {
    let (_observer, mut worker) = start_ready();
    assert!(matches!(worker.poll(5_000), WorkerAction::Wait));
    assert_eq!(worker.pending(), 0);
}

#[test]
fn dropping_the_observer_stops_the_worker() {
    let (observer, mut worker) = start_ready();
    assert_eq!(send_block(&observer, 1), ObserverResult::Acknowledged);
    drop(observer);
    assert!(matches!(worker.poll(0), WorkerAction::Wait));
    assert_eq!(worker.pending(), 1);
    assert!(matches!(worker.poll(0), WorkerAction::Stop));
    assert_eq!(worker.pending(), 0);
}

#[test]
fn the_network_can_be_replaced() {
    let (observer, mut worker) = start_ready();
    let observer = observer.with_network_info(network(8));
    assert_eq!(send_block(&observer, 65), ObserverResult::Acknowledged);
    assert!(matches!(worker.poll(0), WorkerAction::Wait));
    match worker.poll(1_001) {
        WorkerAction::Flush(batch) => assert_eq!(slot_and_epoch(&batch[0]), (65, 8)),
        other => panic!("not a flush: {:?}", other),
    }
}

#[test]
fn the_timer_runs_from_the_handshake() {
    let (observer, mut worker) = start();
    let mut bridge = XatuFFI::new();
    assert_eq!(worker.complete_init(&mut bridge, 0, 5_000), Ok(()));
    assert_eq!(send_block(&observer, 1), ObserverResult::Acknowledged);
    assert!(matches!(worker.poll(5_000), WorkerAction::Wait));
    assert_eq!(worker.pending(), 1);
    assert!(matches!(worker.poll(6_000), WorkerAction::Wait));
    assert_eq!(worker.pending(), 1);
    match worker.poll(6_001) {
        WorkerAction::Flush(batch) => assert_eq!(batch.len(), 1),
        other => panic!("not a flush: {:?}", other),
    }
}

#[test]
fn the_sink_is_started_once_for_a_worker() {
    let (observer, mut worker) = start();
    let mut bridge = XatuFFI::new();
    assert_eq!(worker.complete_init(&mut bridge, 0, 0), Ok(()));
    assert_eq!(send_block(&observer, 1), ObserverResult::Acknowledged);
    assert!(matches!(worker.poll(0), WorkerAction::Wait));
    assert_eq!(worker.pending(), 1);
    // A second handshake is refused and leaves the pending batch alone.
    assert_eq!(worker.complete_init(&mut bridge, 0, 9_000), Err(InitError::AlreadyInitialized));
    assert_eq!(bridge.phase(), BridgePhase::Ready);
    assert_eq!(worker.pending(), 1);
    match worker.poll(1_001) {
        WorkerAction::Flush(batch) => assert_eq!(batch.len(), 1),
        other => panic!("not a flush: {:?}", other),
    }
}

#[test]
fn a_call_is_accounted_for() {
    let (observer, mut worker) = start();
    let offer = observer.offer_block(
        vec![1],
        "p".to_string(),
        None,
        &block(1),
        5,
        "t".to_string(),
        1,
    );
    assert_eq!(offer.result, ObserverResult::Acknowledged);
    assert_eq!(offer.admission, Admission::NotReady);
    assert_eq!(offer.enqueue, None);

    let mut bridge = XatuFFI::new();
    assert_eq!(worker.complete_init(&mut bridge, 0, 0), Ok(()));
    let admitted = Admission::Admit { slots_per_epoch: 32 };
    let offer = observer.offer_block(
        vec![1],
        "p".to_string(),
        None,
        &block(65),
        5,
        "t".to_string(),
        1,
    );
    assert_eq!(offer.result, ObserverResult::Acknowledged);
    assert_eq!(offer.admission, admitted);
    assert_eq!(offer.enqueue, Some(Enqueue::Queued));
    let offer =
        observer.offer_attestation(vec![1], "p".to_string(), &attestation(66), 2, true, 5, "t".to_string(), 1);
    assert_eq!((offer.admission, offer.enqueue), (admitted, Some(Enqueue::Queued)));
    let offer =
        observer.offer_aggregate_and_proof(vec![1], "p".to_string(), &aggregate(67), 5, "t".to_string(), 1);
    assert_eq!((offer.admission, offer.enqueue), (admitted, Some(Enqueue::Queued)));
    let offer = observer.offer_blob_sidecar(
        vec![1],
        "p".to_string(),
        None,
        0,
        &blob(68),
        5,
        "t".to_string(),
        1,
    );
    assert_eq!((offer.admission, offer.enqueue), (admitted, Some(Enqueue::Queued)));
    let offer = observer.offer_data_column_sidecar(
        vec![1],
        "p".to_string(),
        None,
        3,
        &column(69),
        5,
        "t".to_string(),
        1,
    );
    assert_eq!((offer.admission, offer.enqueue), (admitted, Some(Enqueue::Queued)));
    for expected in 1..=5usize {
        assert!(matches!(worker.poll(0), WorkerAction::Wait));
        assert_eq!(worker.pending(), expected);
    }
}

#[test]
fn the_queue_holds_ten_thousand_records_and_no_more() {
    let (observer, worker) = start_ready();
    for slot in 0..10_000u64 {
        let offer = observer.offer_block(
            vec![1],
            "p".to_string(),
            None,
            &block(slot),
            5,
            "t".to_string(),
            1,
        );
        assert_eq!(offer.enqueue, Some(Enqueue::Queued));
    }
    for slot in 10_000..10_003u64 {
        let offer = observer.offer_block(
            vec![1],
            "p".to_string(),
            None,
            &block(slot),
            5,
            "t".to_string(),
            1,
        );
        assert_eq!(offer.result, ObserverResult::Acknowledged);
        assert_eq!(offer.enqueue, Some(Enqueue::Full));
    }
    drop(worker);
    let offer = observer.offer_block(
        vec![1],
        "p".to_string(),
        None,
        &block(1),
        5,
        "t".to_string(),
        1,
    );
    assert_eq!(offer.result, ObserverResult::Acknowledged);
    assert_eq!(offer.enqueue, Some(Enqueue::Closed));
}
