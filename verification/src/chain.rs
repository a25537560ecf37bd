//! A chain of exporters that holds at most one: the form in which the host keeps the bridge.

use crate::gossip::{
    GossipAggregate, GossipAttestation, GossipBlobSidecar, GossipBlock, GossipDataColumnSidecar,
};
use crate::observer::{ObserverResult, ObserverResultView, XatuObserver};
use std::sync::Arc;
use vstd::prelude::*;

verus! {

/// A time in milliseconds as the observer takes it: the time itself where it fits in 64
/// bits, and in general its remainder by two to the power 64.
pub open spec fn observer_time(millis: u128) -> u64 {
    (millis as int % 0x1_0000_0000_0000_0000) as u64
}

/// Cuts a time in milliseconds down to what the observer takes.
pub fn observer_millis(millis: u128) -> (cut: u64)
    ensures
        cut == observer_time(millis),
        millis <= u64::MAX ==> cut == millis,
{
    assert(millis as u64 == millis % 0x1_0000_0000_0000_0000) by (bit_vector);
    #[verifier::truncate]
    (millis as u64)
}

/// Holds the exporter, if the bridge runs.
pub struct XatuChain {
    exporter: Option<Arc<XatuObserver>>,
}

impl XatuChain {
    /// The exporter that the chain holds.
    pub closed spec fn exporter_of(&self) -> Option<XatuObserver> {
        match self.exporter {
            Some(exporter) => Some(*exporter),
            None => None,
        }
    }

    /// A chain without an exporter.
    pub fn new() -> (chain: Self)
        ensures
            chain.exporter_of() is None,
    {
        XatuChain { exporter: None }
    }

    /// A chain with an exporter.
    pub fn with_exporter(exporter: Arc<XatuObserver>) -> (chain: Self)
        ensures
            chain.exporter_of() == Some(*exporter),
    {
        XatuChain { exporter: Some(exporter) }
    }

    /// Whether the chain has an exporter.
    pub fn is_enabled(&self) -> (enabled: bool)
        ensures
            enabled == self.exporter_of().is_some(),
    {
        self.exporter.is_some()
    }

    /// Passes a block on to the exporter, if there is one. The host is told that the call
    /// was taken, whatever the exporter answered.
    pub fn on_gossip_block(
        &self,
        message_id: Vec<u8>,
        peer_id: String,
        client: Option<String>,
        block: &GossipBlock,
        timestamp_millis: u128,
        topic: String,
        message_size: usize,
    ) -> (result: ObserverResult)
        ensures
            result@ == ObserverResultView::Acknowledged,
    {
        match &self.exporter {
            Some(exporter) => {
                let _ = exporter.on_gossip_block(
                    message_id,
                    peer_id,
                    client,
                    block,
                    observer_millis(timestamp_millis),
                    topic,
                    message_size,
                );
            },
            None => {},
        }
        ObserverResult::Acknowledged
    }

    /// Passes a single attestation on to the exporter, if there is one.
    pub fn process_gossip_attestation(
        &self,
        message_id: Vec<u8>,
        peer_id: String,
        attestation: &GossipAttestation,
        subnet_id: u64,
        should_process: bool,
        timestamp_millis: u128,
        topic: String,
        message_size: usize,
    ) -> (result: ObserverResult)
        ensures
            result@ == ObserverResultView::Acknowledged,
    {
        match &self.exporter {
            Some(exporter) => {
                let _ = exporter.on_gossip_attestation(
                    message_id,
                    peer_id,
                    attestation,
                    subnet_id,
                    should_process,
                    observer_millis(timestamp_millis),
                    topic,
                    message_size,
                );
            },
            None => {},
        }
        ObserverResult::Acknowledged
    }

    /// Passes an aggregate and proof on to the exporter, if there is one.
    pub fn process_gossip_aggregate_and_proof(
        &self,
        message_id: Vec<u8>,
        peer_id: String,
        aggregate: &GossipAggregate,
        timestamp_millis: u128,
        topic: String,
        message_size: usize,
    ) -> (result: ObserverResult)
        ensures
            result@ == ObserverResultView::Acknowledged,
    {
        match &self.exporter {
            Some(exporter) => {
                let _ = exporter.on_gossip_aggregate_and_proof(
                    message_id,
                    peer_id,
                    aggregate,
                    observer_millis(timestamp_millis),
                    topic,
                    message_size,
                );
            },
            None => {},
        }
        ObserverResult::Acknowledged
    }

    /// Passes a blob sidecar on to the exporter, if there is one.
    pub fn process_gossip_blob_sidecar(
        &self,
        message_id: Vec<u8>,
        peer_id: String,
        client: Option<String>,
        blob_index: u64,
        blob_sidecar: &GossipBlobSidecar,
        timestamp_millis: u128,
        topic: String,
        message_size: usize,
    ) -> (result: ObserverResult)
        ensures
            result@ == ObserverResultView::Acknowledged,
    {
        match &self.exporter {
            Some(exporter) => {
                let _ = exporter.on_gossip_blob_sidecar(
                    message_id,
                    peer_id,
                    client,
                    blob_index,
                    blob_sidecar,
                    observer_millis(timestamp_millis),
                    topic,
                    message_size,
                );
            },
            None => {},
        }
        ObserverResult::Acknowledged
    }

    /// Passes a data column sidecar on to the exporter, if there is one.
    pub fn process_gossip_data_column_sidecar(
        &self,
        message_id: Vec<u8>,
        peer_id: String,
        client: Option<String>,
        subnet_id: u64,
        column_sidecar: &GossipDataColumnSidecar,
        timestamp_millis: u128,
        topic: String,
        message_size: usize,
    ) -> (result: ObserverResult)
        ensures
            result@ == ObserverResultView::Acknowledged,
    {
        match &self.exporter {
            Some(exporter) => {
                let _ = exporter.on_gossip_data_column_sidecar(
                    message_id,
                    peer_id,
                    client,
                    subnet_id,
                    column_sidecar,
                    observer_millis(timestamp_millis),
                    topic,
                    message_size,
                );
            },
            None => {},
        }
        ObserverResult::Acknowledged
    }
}

} // verus!
