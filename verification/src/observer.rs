//! The observer: the entry points that the host calls for each kind of gossip message.
//!
//! A call never waits. Before the bridge is ready the message is dropped; once it is ready
//! the message's record is built and offered to the ingress queue, and dropped where the
//! queue is full or closed.

use crate::channel::{bounded, sender_limit, try_send, Enqueue, INGRESS_CAPACITY};
use crate::config::{
    log_level_for_filter, log_level_of, runtime_config_of, FullConfig, FullConfigWithRuntime,
    NetworkInfo,
};
use crate::event::{EventData, EventView};
use crate::ffi::InitError;
use crate::gossip::{
    aggregate_event, aggregate_event_of, attestation_event, attestation_event_of, blob_sidecar_event,
    blob_sidecar_event_of, block_event, block_event_of, data_column_sidecar_event,
    data_column_sidecar_event_of, Envelope, GossipAggregate, GossipAttestation, GossipBlobSidecar,
    GossipBlock, GossipDataColumnSidecar,
};
use crate::worker::{fresh_scheduler, is_raised, Worker};
use crate::metrics::DeliveryTotals;
use crossbeam_channel::Sender;
use std::sync::atomic::AtomicBool;
use std::sync::Arc;
use vstd::prelude::*;

verus! {

/// What an observer call tells its caller.
#[derive(Debug, PartialEq)]
pub enum ObserverResult {
    /// The call was taken. This says nothing about delivery.
    Acknowledged,
    /// The call could not be served.
    Error(String),
}

/// The mathematical content of an `ObserverResult`.
pub enum ObserverResultView {
    Acknowledged,
    Error(Seq<char>),
}

impl View for ObserverResult {
    type V = ObserverResultView;

    open spec fn view(&self) -> ObserverResultView {
        match self {
            ObserverResult::Acknowledged => ObserverResultView::Acknowledged,
            ObserverResult::Error(message) => ObserverResultView::Error(message@),
        }
    }
}

impl Clone for ObserverResult {
    fn clone(&self) -> (copy: Self)
        ensures
            copy@ == self@,
    {
        match self {
            ObserverResult::Acknowledged => ObserverResult::Acknowledged,
            ObserverResult::Error(message) => ObserverResult::Error(message.clone()),
        }
    }
}

/// What a call is answered with where nothing is known about the network.
pub const NO_NETWORK_INFO: &'static str = "Network info not available";

/// Whether a message is let in.
#[derive(Debug, Clone, Copy, PartialEq, Eq, Structural)]
pub enum Admission {
    /// The bridge is not ready yet: the message is dropped, and the caller is not troubled.
    NotReady,
    /// Nothing is known about the network: no epoch can be derived.
    NoNetworkInfo,
    /// The message is recorded, with epochs of this many slots.
    Admit { slots_per_epoch: u64 },
}

/// Whether a message is let in, given the readiness that was observed and what is known
/// about the network. Readiness is asked first.
pub open spec fn admission_of(ready: bool, network_info: Option<NetworkInfo>) -> Admission {
    if !ready {
        Admission::NotReady
    } else {
        match network_info {
            None => Admission::NoNetworkInfo,
            Some(info) => Admission::Admit { slots_per_epoch: info.slots_per_epoch },
        }
    }
}

/// Decides whether a message is let in.
pub fn admission(ready: bool, network_info: &Option<NetworkInfo>) -> (admission: Admission)
    ensures
        admission == admission_of(ready, *network_info),
{
    if !ready {
        Admission::NotReady
    } else {
        match network_info {
            None => Admission::NoNetworkInfo,
            Some(info) => Admission::Admit { slots_per_epoch: info.slots_per_epoch },
        }
    }
}

/// What an observer call comes to: what the caller is told, and the record that is offered
/// to the ingress queue, if any.
#[derive(Debug)]
pub struct Observation {
    pub result: ObserverResult,
    pub event: Option<EventData>,
}

/// The mathematical content of an `Observation`.
pub struct ObservationView {
    pub result: ObserverResultView,
    pub event: Option<EventView>,
}

impl View for Observation {
    type V = ObservationView;

    open spec fn view(&self) -> ObservationView {
        ObservationView {
            result: self.result@,
            event: match self.event {
                Some(event) => Some(event@),
                None => None,
            },
        }
    }
}

/// What the caller is told: an error where nothing is known about the network, and else
/// that the call was taken.
pub open spec fn answer_of(admission: Admission) -> ObserverResultView {
    if admission == Admission::NoNetworkInfo {
        ObserverResultView::Error(NO_NETWORK_INFO@)
    } else {
        ObserverResultView::Acknowledged
    }
}

/// What a call comes to where the message is not let in.
pub open spec fn turned_away(admission: Admission) -> ObservationView {
    ObservationView { result: answer_of(admission), event: None }
}

/// What a call comes to where the message is let in and `event` is its record.
pub open spec fn recorded(event: EventView) -> ObservationView {
    ObservationView { result: ObserverResultView::Acknowledged, event: Some(event) }
}

/// An account of an observer call, for the host to log: what the caller is told, whether
/// the message was let in, and what became of its record at the ingress queue, if one was
/// offered.
#[derive(Debug)]
pub struct Offer {
    pub result: ObserverResult,
    pub admission: Admission,
    pub enqueue: Option<Enqueue>,
}

/// What a call for a block comes to.
pub open spec fn block_observation_of(
    admission: Admission,
    envelope: Envelope,
    block: GossipBlock,
) -> ObservationView {
    match admission {
        Admission::Admit { slots_per_epoch } => recorded(
            block_event_of(envelope, block, slots_per_epoch),
        ),
        _ => turned_away(admission),
    }
}

/// What a call for a single attestation comes to.
pub open spec fn attestation_observation_of(
    admission: Admission,
    envelope: Envelope,
    attestation: GossipAttestation,
    subnet_id: u64,
    should_process: bool,
) -> ObservationView {
    match admission {
        Admission::Admit { slots_per_epoch } => recorded(
            attestation_event_of(envelope, attestation, subnet_id, should_process, slots_per_epoch),
        ),
        _ => turned_away(admission),
    }
}

/// What a call for an aggregate and proof comes to.
pub open spec fn aggregate_observation_of(
    admission: Admission,
    envelope: Envelope,
    aggregate: GossipAggregate,
) -> ObservationView {
    match admission {
        Admission::Admit { slots_per_epoch } => recorded(
            aggregate_event_of(envelope, aggregate, slots_per_epoch),
        ),
        _ => turned_away(admission),
    }
}

/// What a call for a blob sidecar comes to.
pub open spec fn blob_sidecar_observation_of(
    admission: Admission,
    envelope: Envelope,
    client: Option<String>,
    blob_index: u64,
    sidecar: GossipBlobSidecar,
) -> ObservationView {
    match admission {
        Admission::Admit { slots_per_epoch } => recorded(
            blob_sidecar_event_of(envelope, client, blob_index, sidecar, slots_per_epoch),
        ),
        _ => turned_away(admission),
    }
}

/// What a call for a data column sidecar comes to.
pub open spec fn data_column_sidecar_observation_of(
    admission: Admission,
    envelope: Envelope,
    client: Option<String>,
    sidecar: GossipDataColumnSidecar,
) -> ObservationView {
    match admission {
        Admission::Admit { slots_per_epoch } => recorded(
            data_column_sidecar_event_of(envelope, client, sidecar, slots_per_epoch),
        ),
        _ => turned_away(admission),
    }
}

/// Answers a call whose message is not let in.
fn turn_away(admission: Admission) -> (observation: Observation)
    requires
        !(admission is Admit),
    ensures
        observation@ == turned_away(admission),
{
    match admission {
        Admission::NoNetworkInfo => Observation {
            result: ObserverResult::Error(String::from_str(NO_NETWORK_INFO)),
            event: None,
        },
        _ => Observation { result: ObserverResult::Acknowledged, event: None },
    }
}

/// Decides what a call for a block comes to.
pub fn observe_block(admission: Admission, envelope: Envelope, block: &GossipBlock) -> (observation:
    Observation)
    requires
        admission matches Admission::Admit { slots_per_epoch } ==> slots_per_epoch > 0,
    ensures
        observation@ == block_observation_of(admission, envelope, *block),
{
    match admission {
        Admission::Admit { slots_per_epoch } => Observation {
            result: ObserverResult::Acknowledged,
            event: Some(block_event(envelope, block, slots_per_epoch)),
        },
        _ => turn_away(admission),
    }
}

/// Decides what a call for a single attestation comes to.
pub fn observe_attestation(
    admission: Admission,
    envelope: Envelope,
    attestation: &GossipAttestation,
    subnet_id: u64,
    should_process: bool,
) -> (observation: Observation)
    requires
        admission matches Admission::Admit { slots_per_epoch } ==> slots_per_epoch > 0,
    ensures
        observation@ == attestation_observation_of(
            admission,
            envelope,
            *attestation,
            subnet_id,
            should_process,
        ),
{
    match admission {
        Admission::Admit { slots_per_epoch } => Observation {
            result: ObserverResult::Acknowledged,
            event: Some(
                attestation_event(envelope, attestation, subnet_id, should_process, slots_per_epoch),
            ),
        },
        _ => turn_away(admission),
    }
}

/// Decides what a call for an aggregate and proof comes to.
pub fn observe_aggregate(admission: Admission, envelope: Envelope, aggregate: &GossipAggregate) -> (observation:
    Observation)
    requires
        admission matches Admission::Admit { slots_per_epoch } ==> slots_per_epoch > 0,
    ensures
        observation@ == aggregate_observation_of(admission, envelope, *aggregate),
{
    match admission {
        Admission::Admit { slots_per_epoch } => Observation {
            result: ObserverResult::Acknowledged,
            event: Some(aggregate_event(envelope, aggregate, slots_per_epoch)),
        },
        _ => turn_away(admission),
    }
}

/// Decides what a call for a blob sidecar comes to.
pub fn observe_blob_sidecar(
    admission: Admission,
    envelope: Envelope,
    client: Option<String>,
    blob_index: u64,
    sidecar: &GossipBlobSidecar,
) -> (observation: Observation)
    requires
        admission matches Admission::Admit { slots_per_epoch } ==> slots_per_epoch > 0,
    ensures
        observation@ == blob_sidecar_observation_of(
            admission,
            envelope,
            client,
            blob_index,
            *sidecar,
        ),
{
    match admission {
        Admission::Admit { slots_per_epoch } => Observation {
            result: ObserverResult::Acknowledged,
            event: Some(blob_sidecar_event(envelope, client, blob_index, sidecar, slots_per_epoch)),
        },
        _ => turn_away(admission),
    }
}

/// Decides what a call for a data column sidecar comes to.
pub fn observe_data_column_sidecar(
    admission: Admission,
    envelope: Envelope,
    client: Option<String>,
    sidecar: &GossipDataColumnSidecar,
) -> (observation: Observation)
    requires
        admission matches Admission::Admit { slots_per_epoch } ==> slots_per_epoch > 0,
    ensures
        observation@ == data_column_sidecar_observation_of(admission, envelope, client, *sidecar),
{
    match admission {
        Admission::Admit { slots_per_epoch } => Observation {
            result: ObserverResult::Acknowledged,
            event: Some(data_column_sidecar_event(envelope, client, sidecar, slots_per_epoch)),
        },
        _ => turn_away(admission),
    }
}

/// A message that arrives before the bridge is ready is dropped: no record of it is offered
/// to the queue, so none can stand in a batch, and the caller is told that the call was
/// taken, whatever is known about the network.
pub proof fn lemma_not_ready_drops(network_info: Option<NetworkInfo>)
    ensures
        admission_of(false, network_info) == Admission::NotReady,
        turned_away(Admission::NotReady).event is None,
        turned_away(Admission::NotReady).result == ObserverResultView::Acknowledged,
        forall|envelope: Envelope, block: GossipBlock|
            #[trigger] block_observation_of(Admission::NotReady, envelope, block) == turned_away(
                Admission::NotReady,
            ),
        forall|envelope: Envelope, attestation: GossipAttestation, subnet_id: u64, process: bool|
            #[trigger] attestation_observation_of(
                Admission::NotReady,
                envelope,
                attestation,
                subnet_id,
                process,
            ) == turned_away(Admission::NotReady),
        forall|envelope: Envelope, aggregate: GossipAggregate|
            #[trigger] aggregate_observation_of(Admission::NotReady, envelope, aggregate)
                == turned_away(Admission::NotReady),
        forall|envelope: Envelope, client: Option<String>, index: u64, sidecar: GossipBlobSidecar|
            #[trigger] blob_sidecar_observation_of(
                Admission::NotReady,
                envelope,
                client,
                index,
                sidecar,
            ) == turned_away(Admission::NotReady),
        forall|envelope: Envelope, client: Option<String>, sidecar: GossipDataColumnSidecar|
            #[trigger] data_column_sidecar_observation_of(
                Admission::NotReady,
                envelope,
                client,
                sidecar,
            ) == turned_away(Admission::NotReady),
{
}

/// Why the bridge did not start.
#[derive(Debug, PartialEq, Eq)]
pub enum StartupError {
    /// Nothing was supplied about the network.
    MissingNetworkInfo,
    /// The sink could not be started.
    InitFailed(InitError),
    /// The worker ended without saying how the handshake went.
    WorkerLost,
}

impl Clone for StartupError {
    fn clone(&self) -> (copy: Self)
        ensures
            copy == *self,
    {
        match self {
            StartupError::MissingNetworkInfo => StartupError::MissingNetworkInfo,
            StartupError::InitFailed(cause) => StartupError::InitFailed(cause.clone()),
            StartupError::WorkerLost => StartupError::WorkerLost,
        }
    }
}

impl StartupError {
    /// The error in words.
    pub open spec fn message_of(self) -> Seq<char> {
        match self {
            StartupError::MissingNetworkInfo => "Network info is required for Xatu initialization"@,
            StartupError::InitFailed(cause) => "Failed to initialize Xatu FFI: "@
                + cause.message_of(),
            StartupError::WorkerLost => "FFI thread failed to send initialization result"@,
        }
    }

    /// The error in words.
    pub fn message(&self) -> (text: String)
        ensures
            text@ == self.message_of(),
    {
        match self {
            StartupError::MissingNetworkInfo => String::from_str(
                "Network info is required for Xatu initialization",
            ),
            StartupError::InitFailed(cause) => String::from_str(
                "Failed to initialize Xatu FFI: ",
            ).concat(cause.message().as_str()),
            StartupError::WorkerLost => String::from_str(
                "FFI thread failed to send initialization result",
            ),
        }
    }
}

/// How the start of the bridge ended, given what the worker said about the handshake, or
/// that it said nothing.
pub open spec fn startup_result_of(reply: Option<Result<(), InitError>>) -> Result<
    (),
    StartupError,
> {
    match reply {
        Some(Ok(())) => Ok(()),
        Some(Err(cause)) => Err(StartupError::InitFailed(cause)),
        None => Err(StartupError::WorkerLost),
    }
}

/// Reads what the worker said about the handshake.
pub fn startup_result(reply: Option<Result<(), InitError>>) -> (result: Result<(), StartupError>)
    ensures
        result == startup_result_of(reply),
{
    match reply {
        Some(Ok(())) => Ok(()),
        Some(Err(cause)) => Err(StartupError::InitFailed(cause)),
        None => Err(StartupError::WorkerLost),
    }
}

/// The producers' side of the bridge.
pub struct XatuObserver {
    initialized: Arc<AtomicBool>,
    network_info: Option<NetworkInfo>,
    event_sender: Sender<EventData>,
}

impl XatuObserver {
    /// Where the network is known, its epochs span at least one slot.
    #[verifier::type_invariant]
    spec fn epochs_have_length(self) -> bool {
        self.network_info matches Some(info) ==> info.has_epoch_length()
    }

    /// What the observer knows about the network.
    pub closed spec fn network(&self) -> Option<NetworkInfo> {
        self.network_info
    }

    /// How many records the ingress queue holds at most.
    pub closed spec fn queue_limit(&self) -> nat {
        sender_limit(self.event_sender)
    }

    /// Where the network is known, its epochs span at least one slot.
    pub open spec fn wf(&self) -> bool {
        self.network() matches Some(info) ==> info.has_epoch_length()
    }

    /// What a call may be answered with: an error only where nothing is known about the
    /// network, and then only if the bridge was found ready.
    pub open spec fn may_answer(&self, result: ObserverResultView) -> bool {
        ||| result == ObserverResultView::Acknowledged
        ||| self.network() is None && result == ObserverResultView::Error(NO_NETWORK_INFO@)
    }

    /// What an account of a call must hold: the admission is the one that follows from what
    /// the observer knows about the network, for the readiness that was found; the answer is
    /// the one that goes with the admission; and a record was offered to the queue exactly
    /// where the message was let in.
    pub open spec fn accounts_for(&self, offer: Offer) -> bool {
        &&& exists|ready: bool| offer.admission == admission_of(ready, self.network())
        &&& offer.result@ == answer_of(offer.admission)
        &&& offer.enqueue is Some <==> offer.admission is Admit
    }

    /// Sets up both sides of the bridge for a network: the observer, not yet ready, and the
    /// worker that is to start the sink with the assembled configuration. Without network
    /// information there is no bridge.
    pub fn new_with_full_config(
        full_config: &FullConfig,
        network_info: Option<NetworkInfo>,
        log_filter: &Option<String>,
        client_version: &str,
    ) -> (started: Result<(XatuObserver, Worker), StartupError>)
        requires
            network_info matches Some(info) ==> info.has_epoch_length(),
        ensures
            match started {
                Ok((observer, worker)) => {
                    &&& network_info matches Some(info)
                    &&& observer.network() == Some(info)
                    &&& observer.wf()
                    &&& observer.queue_limit() == INGRESS_CAPACITY
                    &&& worker.queue_limit() == INGRESS_CAPACITY
                    &&& worker.config_of()@ == runtime_config_of(
                        full_config@,
                        info@,
                        log_level_of(log_filter.deep_view()),
                        client_version@,
                    )
                    &&& worker.state() == fresh_scheduler(0)
                    &&& worker.totals_of() == (DeliveryTotals { events: 0, batches: 0 })
                    &&& worker.wf()
                },
                Err(error) => network_info is None && error == StartupError::MissingNetworkInfo,
            },
    {
        match network_info {
            None => Err(StartupError::MissingNetworkInfo),
            Some(info) => {
                let config = FullConfigWithRuntime::assemble(
                    full_config,
                    &info,
                    log_level_for_filter(log_filter),
                    client_version,
                );
                let initialized = Arc::new(AtomicBool::new(false));
                let (event_sender, receiver) = bounded(INGRESS_CAPACITY);
                let worker = Worker::new(config, receiver, initialized.clone());
                let observer = XatuObserver {
                    initialized,
                    network_info: Some(info),
                    event_sender,
                };
                Ok((observer, worker))
            },
        }
    }

    /// The observer with what it knows about the network replaced.
    pub fn with_network_info(self, network_info: NetworkInfo) -> (observer: Self)
        requires
            network_info.has_epoch_length(),
        ensures
            observer.network() == Some(network_info),
            observer.wf(),
            observer.queue_limit() == self.queue_limit(),
    {
        XatuObserver {
            initialized: self.initialized,
            network_info: Some(network_info),
            event_sender: self.event_sender,
        }
    }

    /// Whether a message is let in right now.
    fn gate(&self) -> (admission: Admission)
        ensures
            exists|ready: bool| admission == admission_of(ready, self.network()),
            admission matches Admission::Admit { slots_per_epoch } ==> slots_per_epoch > 0,
    {
        proof {
            use_type_invariant(self);
        }
        let ready = is_raised(&self.initialized);
        let admission = admission(ready, &self.network_info);
        assert(admission == admission_of(ready, self.network()));
        admission
    }

    /// Offers the record of an observation to the queue, if there is one, and accounts for
    /// the call. A record that the queue does not take is dropped.
    fn conclude(&self, admission: Admission, observation: Observation) -> (offer: Offer)
        ensures
            offer.result == observation.result,
            offer.admission == admission,
            offer.enqueue is Some <==> observation.event is Some,
    {
        let Observation { result, event } = observation;
        let enqueue = match event {
            Some(event) => Some(try_send(&self.event_sender, event)),
            None => None,
        };
        Offer { result, admission, enqueue }
    }

    /// Takes a block received over gossip and accounts for what became of it.
    pub fn offer_block(
        &self,
        message_id: Vec<u8>,
        peer_id: String,
        _client: Option<String>,
        block: &GossipBlock,
        timestamp_millis: u64,
        topic: String,
        message_size: usize,
    ) -> (offer: Offer)
        ensures
            self.accounts_for(offer),
    {
        let envelope = Envelope { message_id, peer_id, timestamp_millis, topic, message_size };
        let admission = self.gate();
        let observation = observe_block(admission, envelope, block);
        self.conclude(admission, observation)
    }

    /// Takes a single attestation received on a subnet and accounts for what became of it.
    pub fn offer_attestation(
        &self,
        message_id: Vec<u8>,
        peer_id: String,
        attestation: &GossipAttestation,
        subnet_id: u64,
        should_process: bool,
        timestamp_millis: u64,
        topic: String,
        message_size: usize,
    ) -> (offer: Offer)
        ensures
            self.accounts_for(offer),
    {
        let envelope = Envelope { message_id, peer_id, timestamp_millis, topic, message_size };
        let admission = self.gate();
        let observation = observe_attestation(
            admission,
            envelope,
            attestation,
            subnet_id,
            should_process,
        );
        self.conclude(admission, observation)
    }

    /// Takes an aggregate and proof received over gossip and accounts for what became of
    /// it.
    pub fn offer_aggregate_and_proof(
        &self,
        message_id: Vec<u8>,
        peer_id: String,
        aggregate: &GossipAggregate,
        timestamp_millis: u64,
        topic: String,
        message_size: usize,
    ) -> (offer: Offer)
        ensures
            self.accounts_for(offer),
    {
        let envelope = Envelope { message_id, peer_id, timestamp_millis, topic, message_size };
        let admission = self.gate();
        let observation = observe_aggregate(admission, envelope, aggregate);
        self.conclude(admission, observation)
    }

    /// Takes a blob sidecar received over gossip and accounts for what became of it.
    pub fn offer_blob_sidecar(
        &self,
        message_id: Vec<u8>,
        peer_id: String,
        client: Option<String>,
        blob_index: u64,
        blob_sidecar: &GossipBlobSidecar,
        timestamp_millis: u64,
        topic: String,
        message_size: usize,
    ) -> (offer: Offer)
        ensures
            self.accounts_for(offer),
    {
        let envelope = Envelope { message_id, peer_id, timestamp_millis, topic, message_size };
        let admission = self.gate();
        let observation = observe_blob_sidecar(
            admission,
            envelope,
            client,
            blob_index,
            blob_sidecar,
        );
        self.conclude(admission, observation)
    }

    /// Takes a data column sidecar received over gossip and accounts for what became of it.
    /// The subnet that it came on is not recorded.
    pub fn offer_data_column_sidecar(
        &self,
        message_id: Vec<u8>,
        peer_id: String,
        client: Option<String>,
        _subnet_id: u64,
        column_sidecar: &GossipDataColumnSidecar,
        timestamp_millis: u64,
        topic: String,
        message_size: usize,
    ) -> (offer: Offer)
        ensures
            self.accounts_for(offer),
    {
        let envelope = Envelope { message_id, peer_id, timestamp_millis, topic, message_size };
        let admission = self.gate();
        let observation = observe_data_column_sidecar(admission, envelope, client, column_sidecar);
        self.conclude(admission, observation)
    }

    /// Takes a block received over gossip.
    pub fn on_gossip_block(
        &self,
        message_id: Vec<u8>,
        peer_id: String,
        client: Option<String>,
        block: &GossipBlock,
        timestamp_millis: u64,
        topic: String,
        message_size: usize,
    ) -> (result: ObserverResult)
        ensures
            self.may_answer(result@),
    {
        self.offer_block(
            message_id,
            peer_id,
            client,
            block,
            timestamp_millis,
            topic,
            message_size,
        ).result
    }

    /// Takes a single attestation received on a subnet.
    pub fn on_gossip_attestation(
        &self,
        message_id: Vec<u8>,
        peer_id: String,
        attestation: &GossipAttestation,
        subnet_id: u64,
        should_process: bool,
        timestamp_millis: u64,
        topic: String,
        message_size: usize,
    ) -> (result: ObserverResult)
        ensures
            self.may_answer(result@),
    {
        self.offer_attestation(
            message_id,
            peer_id,
            attestation,
            subnet_id,
            should_process,
            timestamp_millis,
            topic,
            message_size,
        ).result
    }

    /// Takes an aggregate and proof received over gossip.
    pub fn on_gossip_aggregate_and_proof(
        &self,
        message_id: Vec<u8>,
        peer_id: String,
        aggregate: &GossipAggregate,
        timestamp_millis: u64,
        topic: String,
        message_size: usize,
    ) -> (result: ObserverResult)
        ensures
            self.may_answer(result@),
    {
        self.offer_aggregate_and_proof(
            message_id,
            peer_id,
            aggregate,
            timestamp_millis,
            topic,
            message_size,
        ).result
    }

    /// Takes a blob sidecar received over gossip.
    pub fn on_gossip_blob_sidecar(
        &self,
        message_id: Vec<u8>,
        peer_id: String,
        client: Option<String>,
        blob_index: u64,
        blob_sidecar: &GossipBlobSidecar,
        timestamp_millis: u64,
        topic: String,
        message_size: usize,
    ) -> (result: ObserverResult)
        ensures
            self.may_answer(result@),
    {
        self.offer_blob_sidecar(
            message_id,
            peer_id,
            client,
            blob_index,
            blob_sidecar,
            timestamp_millis,
            topic,
            message_size,
        ).result
    }

    /// Takes a data column sidecar received over gossip. The subnet that it came on is not
    /// recorded.
    pub fn on_gossip_data_column_sidecar(
        &self,
        message_id: Vec<u8>,
        peer_id: String,
        client: Option<String>,
        subnet_id: u64,
        column_sidecar: &GossipDataColumnSidecar,
        timestamp_millis: u64,
        topic: String,
        message_size: usize,
    ) -> (result: ObserverResult)
        ensures
            self.may_answer(result@),
    {
        self.offer_data_column_sidecar(
            message_id,
            peer_id,
            client,
            subnet_id,
            column_sidecar,
            timestamp_millis,
            topic,
            message_size,
        ).result
    }
}

} // verus!
