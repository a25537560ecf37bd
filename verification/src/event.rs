//! Event records and the fields derived for them.

use vstd::prelude::*;

verus! {

/// What is recorded about one gossip message. Roots, bit fields and signatures are
/// `0x`-prefixed lowercase hexadecimal; the message identifier is hexadecimal without a prefix.
#[derive(Debug)]
pub enum EventData {
    /// A block received over gossip.
    BeaconBlock {
        peer_id: String,
        message_id: String,
        topic: String,
        message_size: u32,
        timestamp_ms: i64,
        slot: u64,
        epoch: u64,
        block_root: String,
        proposer_index: u64,
    },
    /// A single attestation received on a subnet.
    Attestation {
        peer_id: String,
        slot: u64,
        epoch: u64,
        attestation_data_root: String,
        subnet_id: u64,
        timestamp: i64,
        message_id: String,
        should_process: bool,
        topic: String,
        message_size: u32,
        source_epoch: u64,
        source_root: String,
        target_epoch: u64,
        target_root: String,
        committee_index: u64,
        aggregation_bits: String,
        signature: String,
        attester_index: u64,
    },
    /// An aggregated attestation with its proof.
    AggregateAndProof {
        peer_id: String,
        slot: u64,
        epoch: u64,
        attestation_data_root: String,
        aggregator_index: u64,
        timestamp: i64,
        message_id: String,
        topic: String,
        message_size: u32,
        source_epoch: u64,
        source_root: String,
        target_epoch: u64,
        target_root: String,
        committee_index: u64,
        aggregation_bits: String,
        signature: String,
    },
    /// A blob sidecar.
    BlobSidecar {
        peer_id: String,
        slot: u64,
        epoch: u64,
        block_root: String,
        parent_root: String,
        state_root: String,
        proposer_index: u64,
        blob_index: u64,
        timestamp_ms: i64,
        message_id: String,
        client: Option<String>,
        topic: String,
        message_size: u32,
    },
    /// A data column sidecar.
    DataColumnSidecar {
        peer_id: String,
        slot: u64,
        epoch: u64,
        block_root: String,
        parent_root: String,
        state_root: String,
        proposer_index: u64,
        column_index: u64,
        kzg_commitments_count: u32,
        timestamp_ms: i64,
        message_id: String,
        client: Option<String>,
        topic: String,
        message_size: u32,
    },
}

/// The mathematical content of an event.
pub enum EventView {
    BeaconBlock {
        peer_id: Seq<char>,
        message_id: Seq<char>,
        topic: Seq<char>,
        message_size: u32,
        timestamp_ms: i64,
        slot: u64,
        epoch: u64,
        block_root: Seq<char>,
        proposer_index: u64,
    },
    Attestation {
        peer_id: Seq<char>,
        slot: u64,
        epoch: u64,
        attestation_data_root: Seq<char>,
        subnet_id: u64,
        timestamp: i64,
        message_id: Seq<char>,
        should_process: bool,
        topic: Seq<char>,
        message_size: u32,
        source_epoch: u64,
        source_root: Seq<char>,
        target_epoch: u64,
        target_root: Seq<char>,
        committee_index: u64,
        aggregation_bits: Seq<char>,
        signature: Seq<char>,
        attester_index: u64,
    },
    AggregateAndProof {
        peer_id: Seq<char>,
        slot: u64,
        epoch: u64,
        attestation_data_root: Seq<char>,
        aggregator_index: u64,
        timestamp: i64,
        message_id: Seq<char>,
        topic: Seq<char>,
        message_size: u32,
        source_epoch: u64,
        source_root: Seq<char>,
        target_epoch: u64,
        target_root: Seq<char>,
        committee_index: u64,
        aggregation_bits: Seq<char>,
        signature: Seq<char>,
    },
    BlobSidecar {
        peer_id: Seq<char>,
        slot: u64,
        epoch: u64,
        block_root: Seq<char>,
        parent_root: Seq<char>,
        state_root: Seq<char>,
        proposer_index: u64,
        blob_index: u64,
        timestamp_ms: i64,
        message_id: Seq<char>,
        client: Option<Seq<char>>,
        topic: Seq<char>,
        message_size: u32,
    },
    DataColumnSidecar {
        peer_id: Seq<char>,
        slot: u64,
        epoch: u64,
        block_root: Seq<char>,
        parent_root: Seq<char>,
        state_root: Seq<char>,
        proposer_index: u64,
        column_index: u64,
        kzg_commitments_count: u32,
        timestamp_ms: i64,
        message_id: Seq<char>,
        client: Option<Seq<char>>,
        topic: Seq<char>,
        message_size: u32,
    },
}

impl View for EventData {
    type V = EventView;

    open spec fn view(&self) -> EventView {
        match self {
            EventData::BeaconBlock {
                peer_id,
                message_id,
                topic,
                message_size,
                timestamp_ms,
                slot,
                epoch,
                block_root,
                proposer_index,
            } => EventView::BeaconBlock {
                peer_id: peer_id@,
                message_id: message_id@,
                topic: topic@,
                message_size: *message_size,
                timestamp_ms: *timestamp_ms,
                slot: *slot,
                epoch: *epoch,
                block_root: block_root@,
                proposer_index: *proposer_index,
            },
            EventData::Attestation {
                peer_id,
                slot,
                epoch,
                attestation_data_root,
                subnet_id,
                timestamp,
                message_id,
                should_process,
                topic,
                message_size,
                source_epoch,
                source_root,
                target_epoch,
                target_root,
                committee_index,
                aggregation_bits,
                signature,
                attester_index,
            } => EventView::Attestation {
                peer_id: peer_id@,
                slot: *slot,
                epoch: *epoch,
                attestation_data_root: attestation_data_root@,
                subnet_id: *subnet_id,
                timestamp: *timestamp,
                message_id: message_id@,
                should_process: *should_process,
                topic: topic@,
                message_size: *message_size,
                source_epoch: *source_epoch,
                source_root: source_root@,
                target_epoch: *target_epoch,
                target_root: target_root@,
                committee_index: *committee_index,
                aggregation_bits: aggregation_bits@,
                signature: signature@,
                attester_index: *attester_index,
            },
            EventData::AggregateAndProof {
                peer_id,
                slot,
                epoch,
                attestation_data_root,
                aggregator_index,
                timestamp,
                message_id,
                topic,
                message_size,
                source_epoch,
                source_root,
                target_epoch,
                target_root,
                committee_index,
                aggregation_bits,
                signature,
            } => EventView::AggregateAndProof {
                peer_id: peer_id@,
                slot: *slot,
                epoch: *epoch,
                attestation_data_root: attestation_data_root@,
                aggregator_index: *aggregator_index,
                timestamp: *timestamp,
                message_id: message_id@,
                topic: topic@,
                message_size: *message_size,
                source_epoch: *source_epoch,
                source_root: source_root@,
                target_epoch: *target_epoch,
                target_root: target_root@,
                committee_index: *committee_index,
                aggregation_bits: aggregation_bits@,
                signature: signature@,
            },
            EventData::BlobSidecar {
                peer_id,
                slot,
                epoch,
                block_root,
                parent_root,
                state_root,
                proposer_index,
                blob_index,
                timestamp_ms,
                message_id,
                client,
                topic,
                message_size,
            } => EventView::BlobSidecar {
                peer_id: peer_id@,
                slot: *slot,
                epoch: *epoch,
                block_root: block_root@,
                parent_root: parent_root@,
                state_root: state_root@,
                proposer_index: *proposer_index,
                blob_index: *blob_index,
                timestamp_ms: *timestamp_ms,
                message_id: message_id@,
                client: client.deep_view(),
                topic: topic@,
                message_size: *message_size,
            },
            EventData::DataColumnSidecar {
                peer_id,
                slot,
                epoch,
                block_root,
                parent_root,
                state_root,
                proposer_index,
                column_index,
                kzg_commitments_count,
                timestamp_ms,
                message_id,
                client,
                topic,
                message_size,
            } => EventView::DataColumnSidecar {
                peer_id: peer_id@,
                slot: *slot,
                epoch: *epoch,
                block_root: block_root@,
                parent_root: parent_root@,
                state_root: state_root@,
                proposer_index: *proposer_index,
                column_index: *column_index,
                kzg_commitments_count: *kzg_commitments_count,
                timestamp_ms: *timestamp_ms,
                message_id: message_id@,
                client: client.deep_view(),
                topic: topic@,
                message_size: *message_size,
            },
        }
    }
}

impl EventView {
    /// The slot that the event belongs to.
    pub open spec fn slot(self) -> u64 {
        match self {
            EventView::BeaconBlock { slot, .. } => slot,
            EventView::Attestation { slot, .. } => slot,
            EventView::AggregateAndProof { slot, .. } => slot,
            EventView::BlobSidecar { slot, .. } => slot,
            EventView::DataColumnSidecar { slot, .. } => slot,
        }
    }

    /// The epoch recorded for the event.
    pub open spec fn epoch(self) -> u64 {
        match self {
            EventView::BeaconBlock { epoch, .. } => epoch,
            EventView::Attestation { epoch, .. } => epoch,
            EventView::AggregateAndProof { epoch, .. } => epoch,
            EventView::BlobSidecar { epoch, .. } => epoch,
            EventView::DataColumnSidecar { epoch, .. } => epoch,
        }
    }
}

/// The epoch that holds `slot` when every epoch spans `slots_per_epoch` slots.
pub open spec fn epoch_of(slot: u64, slots_per_epoch: u64) -> u64 {
    slot / slots_per_epoch
}

/// Derives the epoch of `slot` by floor division: the one epoch whose span of
/// `slots_per_epoch` slots holds it.
pub fn epoch_for_slot(slot: u64, slots_per_epoch: u64) -> (epoch: u64)
    requires
        slots_per_epoch > 0,
    ensures
        epoch == epoch_of(slot, slots_per_epoch),
        epoch * slots_per_epoch <= slot < (epoch + 1) * slots_per_epoch,
{
    let epoch: u64 = slot / slots_per_epoch;
    proof {
        vstd::arithmetic::div_mod::lemma_fundamental_div_mod(slot as int, slots_per_epoch as int);
        vstd::arithmetic::div_mod::lemma_mod_pos_bound(slot as int, slots_per_epoch as int);
        assert(slots_per_epoch * epoch + slots_per_epoch == (epoch + 1) * slots_per_epoch)
            by (nonlinear_arith);
        assert(slots_per_epoch * epoch == epoch * slots_per_epoch) by (nonlinear_arith);
    }
    epoch
}

/// The first slot is in the first epoch, and the slot that follows a whole epoch opens the
/// next one.
pub proof fn lemma_epoch_at_boundaries(slots_per_epoch: u64)
    requires
        slots_per_epoch > 0,
    ensures
        epoch_of(0, slots_per_epoch) == 0,
        epoch_of(slots_per_epoch, slots_per_epoch) == 1,
        slots_per_epoch > 1 ==> epoch_of((slots_per_epoch - 1) as u64, slots_per_epoch) == 0,
{
    vstd::arithmetic::div_mod::lemma_div_basics(slots_per_epoch as int);
    if slots_per_epoch > 1 {
        vstd::arithmetic::div_mod::lemma_basic_div(
            slots_per_epoch as int - 1,
            slots_per_epoch as int,
        );
    }
}

/// The sixteen hexadecimal digits, in order of their value.
pub open spec fn hex_digits() -> Seq<char> {
    "0123456789abcdef"@
}

/// The lowercase hexadecimal text of `bytes`: two digits for each byte, the high half first.
pub open spec fn hex_of(bytes: Seq<u8>) -> Seq<char> {
    Seq::new(
        2 * bytes.len(),
        |i: int|
            if i % 2 == 0 {
                hex_digits()[bytes[i / 2] as int / 16]
            } else {
                hex_digits()[bytes[i / 2] as int % 16]
            },
    )
}

/// The hexadecimal text of `bytes` behind the prefix `0x`.
pub open spec fn prefixed_hex_of(bytes: Seq<u8>) -> Seq<char> {
    "0x"@ + hex_of(bytes)
}

/// Calls `hex::encode`, which writes each byte as two lowercase hexadecimal digits, the
/// high half first, and nothing else. The contract restates that; it is not proved here.
#[verifier::external_body]
pub(crate) fn hex_encode(bytes: &[u8]) -> (text: String)
    ensures
        text@ == hex_of(bytes@),
{
    hex::encode(bytes)
}

/// Writes `bytes` as lowercase hexadecimal text behind the prefix `0x`.
pub fn prefixed_hex_text(bytes: &[u8]) -> (text: String)
    ensures
        text@ == prefixed_hex_of(bytes@),
{
    let digits = hex_encode(bytes);
    String::from_str("0x").concat(digits.as_str())
}

} // verus!
