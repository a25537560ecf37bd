//! What the bridge reads from a gossip message, and the event record built from it.

use crate::event::{
    epoch_for_slot, epoch_of, hex_encode, hex_of, prefixed_hex_of, prefixed_hex_text, EventData,
    EventView,
};
use vstd::prelude::*;

verus! {

/// What is read from a signed beacon block.
#[derive(Debug)]
pub struct GossipBlock {
    pub slot: u64,
    pub block_root: [u8; 32],
    pub proposer_index: u64,
}

/// What is read from a single attestation.
#[derive(Debug)]
pub struct GossipAttestation {
    pub slot: u64,
    pub beacon_block_root: [u8; 32],
    pub source_epoch: u64,
    pub source_root: [u8; 32],
    pub target_epoch: u64,
    pub target_root: [u8; 32],
    pub committee_index: u64,
    pub attester_index: u64,
    pub signature: [u8; 96],
}

/// What is read from a signed aggregate and proof. `committee_index` is the committee that
/// the aggregate names by its committee bits, where it has such bits; `data_index` is the
/// index in its attestation data.
#[derive(Debug)]
pub struct GossipAggregate {
    pub slot: u64,
    pub beacon_block_root: [u8; 32],
    pub source_epoch: u64,
    pub source_root: [u8; 32],
    pub target_epoch: u64,
    pub target_root: [u8; 32],
    pub data_index: u64,
    pub committee_index: Option<u64>,
    pub aggregator_index: u64,
    pub aggregation_bits: Vec<u8>,
    pub signature: [u8; 96],
}

/// What is read from a blob sidecar.
#[derive(Debug)]
pub struct GossipBlobSidecar {
    pub slot: u64,
    pub block_root: [u8; 32],
    pub parent_root: [u8; 32],
    pub state_root: [u8; 32],
    pub proposer_index: u64,
}

/// What is read from a data column sidecar. `kzg_commitments` is how many commitments it
/// carries.
#[derive(Debug)]
pub struct GossipDataColumnSidecar {
    pub slot: u64,
    pub block_root: [u8; 32],
    pub parent_root: [u8; 32],
    pub state_root: [u8; 32],
    pub proposer_index: u64,
    pub index: u64,
    pub kzg_commitments: usize,
}

/// What travels with every gossip message.
#[derive(Debug)]
pub struct Envelope {
    pub message_id: Vec<u8>,
    pub peer_id: String,
    pub timestamp_millis: u64,
    pub topic: String,
    pub message_size: usize,
}

/// A size as the record holds it: the size itself where it fits in 32 bits, and in general
/// its remainder by two to the power 32.
pub open spec fn wire_size(size: usize) -> u32 {
    (size as int % 0x1_0000_0000) as u32
}

/// A time in milliseconds as the record holds it: the time itself where it fits in a signed
/// number of 64 bits, and else the negative number with the same 64 bits.
pub open spec fn wire_time(millis: u64) -> i64 {
    if millis <= i64::MAX {
        millis as i64
    } else {
        (millis - 0x1_0000_0000_0000_0000) as i64
    }
}

/// Cuts a size down to what the record holds.
pub fn size_on_wire(size: usize) -> (cut: u32)
    ensures
        cut == wire_size(size),
        size <= u32::MAX ==> cut == size,
{
    let wide: u64 = size as u64;
    assert(wide as u32 == wide % 0x1_0000_0000) by (bit_vector);
    #[verifier::truncate]
    (wide as u32)
}

/// Reads a time in milliseconds as the record holds it.
pub fn time_on_wire(millis: u64) -> (cut: i64)
    ensures
        cut == wire_time(millis),
        millis <= i64::MAX ==> cut == millis,
{
    assert(millis <= 0x7fff_ffff_ffff_ffff ==> millis as i64 == millis) by (bit_vector);
    assert(millis > 0x7fff_ffff_ffff_ffff ==> (millis as i64) as int == millis as int
        - 0x1_0000_0000_0000_0000) by (bit_vector);
    #[verifier::truncate]
    (millis as i64)
}

/// The committee of an aggregate: the one that its committee bits name, else the index in
/// its attestation data.
pub open spec fn committee_of(aggregate: GossipAggregate) -> u64 {
    match aggregate.committee_index {
        Some(index) => index,
        None => aggregate.data_index,
    }
}

/// The record of a block.
pub open spec fn block_event_of(
    envelope: Envelope,
    block: GossipBlock,
    slots_per_epoch: u64,
) -> EventView {
    EventView::BeaconBlock {
        peer_id: envelope.peer_id@,
        message_id: hex_of(envelope.message_id@),
        topic: envelope.topic@,
        message_size: wire_size(envelope.message_size),
        timestamp_ms: wire_time(envelope.timestamp_millis),
        slot: block.slot,
        epoch: epoch_of(block.slot, slots_per_epoch),
        block_root: prefixed_hex_of(block.block_root@),
        proposer_index: block.proposer_index,
    }
}

/// The record of a single attestation. It has no aggregation bits: their text is the bare
/// prefix.
pub open spec fn attestation_event_of(
    envelope: Envelope,
    attestation: GossipAttestation,
    subnet_id: u64,
    should_process: bool,
    slots_per_epoch: u64,
) -> EventView {
    EventView::Attestation {
        peer_id: envelope.peer_id@,
        slot: attestation.slot,
        epoch: epoch_of(attestation.slot, slots_per_epoch),
        attestation_data_root: prefixed_hex_of(attestation.beacon_block_root@),
        subnet_id,
        timestamp: wire_time(envelope.timestamp_millis),
        message_id: hex_of(envelope.message_id@),
        should_process,
        topic: envelope.topic@,
        message_size: wire_size(envelope.message_size),
        source_epoch: attestation.source_epoch,
        source_root: prefixed_hex_of(attestation.source_root@),
        target_epoch: attestation.target_epoch,
        target_root: prefixed_hex_of(attestation.target_root@),
        committee_index: attestation.committee_index,
        aggregation_bits: "0x"@,
        signature: prefixed_hex_of(attestation.signature@),
        attester_index: attestation.attester_index,
    }
}

/// The record of an aggregate and proof.
pub open spec fn aggregate_event_of(
    envelope: Envelope,
    aggregate: GossipAggregate,
    slots_per_epoch: u64,
) -> EventView {
    EventView::AggregateAndProof {
        peer_id: envelope.peer_id@,
        slot: aggregate.slot,
        epoch: epoch_of(aggregate.slot, slots_per_epoch),
        attestation_data_root: prefixed_hex_of(aggregate.beacon_block_root@),
        aggregator_index: aggregate.aggregator_index,
        timestamp: wire_time(envelope.timestamp_millis),
        message_id: hex_of(envelope.message_id@),
        topic: envelope.topic@,
        message_size: wire_size(envelope.message_size),
        source_epoch: aggregate.source_epoch,
        source_root: prefixed_hex_of(aggregate.source_root@),
        target_epoch: aggregate.target_epoch,
        target_root: prefixed_hex_of(aggregate.target_root@),
        committee_index: committee_of(aggregate),
        aggregation_bits: prefixed_hex_of(aggregate.aggregation_bits@),
        signature: prefixed_hex_of(aggregate.signature@),
    }
}

/// The record of a blob sidecar.
pub open spec fn blob_sidecar_event_of(
    envelope: Envelope,
    client: Option<String>,
    blob_index: u64,
    sidecar: GossipBlobSidecar,
    slots_per_epoch: u64,
) -> EventView {
    EventView::BlobSidecar {
        peer_id: envelope.peer_id@,
        slot: sidecar.slot,
        epoch: epoch_of(sidecar.slot, slots_per_epoch),
        block_root: prefixed_hex_of(sidecar.block_root@),
        parent_root: prefixed_hex_of(sidecar.parent_root@),
        state_root: prefixed_hex_of(sidecar.state_root@),
        proposer_index: sidecar.proposer_index,
        blob_index,
        timestamp_ms: wire_time(envelope.timestamp_millis),
        message_id: hex_of(envelope.message_id@),
        client: client.deep_view(),
        topic: envelope.topic@,
        message_size: wire_size(envelope.message_size),
    }
}

/// The record of a data column sidecar.
pub open spec fn data_column_sidecar_event_of(
    envelope: Envelope,
    client: Option<String>,
    sidecar: GossipDataColumnSidecar,
    slots_per_epoch: u64,
) -> EventView {
    EventView::DataColumnSidecar {
        peer_id: envelope.peer_id@,
        slot: sidecar.slot,
        epoch: epoch_of(sidecar.slot, slots_per_epoch),
        block_root: prefixed_hex_of(sidecar.block_root@),
        parent_root: prefixed_hex_of(sidecar.parent_root@),
        state_root: prefixed_hex_of(sidecar.state_root@),
        proposer_index: sidecar.proposer_index,
        column_index: sidecar.index,
        kzg_commitments_count: wire_size(sidecar.kzg_commitments),
        timestamp_ms: wire_time(envelope.timestamp_millis),
        message_id: hex_of(envelope.message_id@),
        client: client.deep_view(),
        topic: envelope.topic@,
        message_size: wire_size(envelope.message_size),
    }
}

/// Builds the record of a block.
pub fn block_event(envelope: Envelope, block: &GossipBlock, slots_per_epoch: u64) -> (event:
    EventData)
    requires
        slots_per_epoch > 0,
    ensures
        event@ == block_event_of(envelope, *block, slots_per_epoch),
        event@.epoch() == epoch_of(event@.slot(), slots_per_epoch),
{
    let message_id = hex_encode(envelope.message_id.as_slice());
    EventData::BeaconBlock {
        peer_id: envelope.peer_id,
        message_id,
        topic: envelope.topic,
        message_size: size_on_wire(envelope.message_size),
        timestamp_ms: time_on_wire(envelope.timestamp_millis),
        slot: block.slot,
        epoch: epoch_for_slot(block.slot, slots_per_epoch),
        block_root: prefixed_hex_text(block.block_root.as_slice()),
        proposer_index: block.proposer_index,
    }
}

/// Builds the record of a single attestation.
pub fn attestation_event(
    envelope: Envelope,
    attestation: &GossipAttestation,
    subnet_id: u64,
    should_process: bool,
    slots_per_epoch: u64,
) -> (event: EventData)
    requires
        slots_per_epoch > 0,
    ensures
        event@ == attestation_event_of(
            envelope,
            *attestation,
            subnet_id,
            should_process,
            slots_per_epoch,
        ),
        event@.epoch() == epoch_of(event@.slot(), slots_per_epoch),
{
    let message_id = hex_encode(envelope.message_id.as_slice());
    EventData::Attestation {
        peer_id: envelope.peer_id,
        slot: attestation.slot,
        epoch: epoch_for_slot(attestation.slot, slots_per_epoch),
        attestation_data_root: prefixed_hex_text(attestation.beacon_block_root.as_slice()),
        subnet_id,
        timestamp: time_on_wire(envelope.timestamp_millis),
        message_id,
        should_process,
        topic: envelope.topic,
        message_size: size_on_wire(envelope.message_size),
        source_epoch: attestation.source_epoch,
        source_root: prefixed_hex_text(attestation.source_root.as_slice()),
        target_epoch: attestation.target_epoch,
        target_root: prefixed_hex_text(attestation.target_root.as_slice()),
        committee_index: attestation.committee_index,
        aggregation_bits: String::from_str("0x"),
        signature: prefixed_hex_text(attestation.signature.as_slice()),
        attester_index: attestation.attester_index,
    }
}

/// Builds the record of an aggregate and proof.
pub fn aggregate_event(envelope: Envelope, aggregate: &GossipAggregate, slots_per_epoch: u64) -> (event:
    EventData)
    requires
        slots_per_epoch > 0,
    ensures
        event@ == aggregate_event_of(envelope, *aggregate, slots_per_epoch),
        event@.epoch() == epoch_of(event@.slot(), slots_per_epoch),
{
    let message_id = hex_encode(envelope.message_id.as_slice());
    let committee_index = match aggregate.committee_index {
        Some(index) => index,
        None => aggregate.data_index,
    };
    EventData::AggregateAndProof {
        peer_id: envelope.peer_id,
        slot: aggregate.slot,
        epoch: epoch_for_slot(aggregate.slot, slots_per_epoch),
        attestation_data_root: prefixed_hex_text(aggregate.beacon_block_root.as_slice()),
        aggregator_index: aggregate.aggregator_index,
        timestamp: time_on_wire(envelope.timestamp_millis),
        message_id,
        topic: envelope.topic,
        message_size: size_on_wire(envelope.message_size),
        source_epoch: aggregate.source_epoch,
        source_root: prefixed_hex_text(aggregate.source_root.as_slice()),
        target_epoch: aggregate.target_epoch,
        target_root: prefixed_hex_text(aggregate.target_root.as_slice()),
        committee_index,
        aggregation_bits: prefixed_hex_text(aggregate.aggregation_bits.as_slice()),
        signature: prefixed_hex_text(aggregate.signature.as_slice()),
    }
}

/// Builds the record of a blob sidecar.
pub fn blob_sidecar_event(
    envelope: Envelope,
    client: Option<String>,
    blob_index: u64,
    sidecar: &GossipBlobSidecar,
    slots_per_epoch: u64,
) -> (event: EventData)
    requires
        slots_per_epoch > 0,
    ensures
        event@ == blob_sidecar_event_of(envelope, client, blob_index, *sidecar, slots_per_epoch),
        event@.epoch() == epoch_of(event@.slot(), slots_per_epoch),
{
    let message_id = hex_encode(envelope.message_id.as_slice());
    EventData::BlobSidecar {
        peer_id: envelope.peer_id,
        slot: sidecar.slot,
        epoch: epoch_for_slot(sidecar.slot, slots_per_epoch),
        block_root: prefixed_hex_text(sidecar.block_root.as_slice()),
        parent_root: prefixed_hex_text(sidecar.parent_root.as_slice()),
        state_root: prefixed_hex_text(sidecar.state_root.as_slice()),
        proposer_index: sidecar.proposer_index,
        blob_index,
        timestamp_ms: time_on_wire(envelope.timestamp_millis),
        message_id,
        client,
        topic: envelope.topic,
        message_size: size_on_wire(envelope.message_size),
    }
}

/// Builds the record of a data column sidecar.
pub fn data_column_sidecar_event(
    envelope: Envelope,
    client: Option<String>,
    sidecar: &GossipDataColumnSidecar,
    slots_per_epoch: u64,
) -> (event: EventData)
    requires
        slots_per_epoch > 0,
    ensures
        event@ == data_column_sidecar_event_of(envelope, client, *sidecar, slots_per_epoch),
        event@.epoch() == epoch_of(event@.slot(), slots_per_epoch),
{
    let message_id = hex_encode(envelope.message_id.as_slice());
    EventData::DataColumnSidecar {
        peer_id: envelope.peer_id,
        slot: sidecar.slot,
        epoch: epoch_for_slot(sidecar.slot, slots_per_epoch),
        block_root: prefixed_hex_text(sidecar.block_root.as_slice()),
        parent_root: prefixed_hex_text(sidecar.parent_root.as_slice()),
        state_root: prefixed_hex_text(sidecar.state_root.as_slice()),
        proposer_index: sidecar.proposer_index,
        column_index: sidecar.index,
        kzg_commitments_count: size_on_wire(sidecar.kzg_commitments),
        timestamp_ms: time_on_wire(envelope.timestamp_millis),
        message_id,
        client,
        topic: envelope.topic,
        message_size: size_on_wire(envelope.message_size),
    }
}

} // verus!
