//! The bit layout of a generated identifier: 41 bits of timestamp delta,
//! 5 bits of datacenter id, 5 bits of worker id, and 12 bits of sequence,
//! packed most-significant first into the low 63 bits of a `u64`.

use vstd::prelude::*;

verus! {

pub const TIMESTAMP_BITS: u64 = 41;

pub const DATACENTER_ID_BITS: u64 = 5;

pub const WORKER_ID_BITS: u64 = 5;

pub const SEQUENCE_BITS: u64 = 12;

pub const MAX_DATACENTER_ID: u64 = 31;

pub const MAX_WORKER_ID: u64 = 31;

pub const MAX_SEQUENCE: u64 = 4095;

/// The largest timestamp delta that fits its 41-bit field.
pub const MAX_TIMESTAMP_DELTA: u64 = 0x1_FFFF_FFFF_FF;

/// How a generated identifier is assembled from its four fields.
pub open spec fn pack_spec(delta: u64, datacenter_id: u64, worker_id: u64, sequence: u64) -> u64 {
    (delta << 22) | (datacenter_id << 17) | (worker_id << 12) | sequence
}

/// The timestamp delta read back from an identifier (exact when the packed
/// delta fit its 41-bit field).
pub open spec fn timestamp_of(id: u64) -> u64 {
    id >> 22
}

/// The datacenter id read back from an identifier.
pub open spec fn datacenter_of(id: u64) -> u64 {
    (id >> 17) & 0x1F
}

/// The worker id read back from an identifier.
pub open spec fn worker_of(id: u64) -> u64 {
    (id >> 12) & 0x1F
}

/// The sequence read back from an identifier.
pub open spec fn sequence_of(id: u64) -> u64 {
    id & 0xFFF
}

/// The difference `now - epoch`, wrapping modulo 2^64 when the epoch lies
/// after `now`.
pub open spec fn delta_of(now: u64, epoch: u64) -> u64 {
    if now >= epoch {
        (now - epoch) as u64
    } else {
        (now - epoch + 0x1_0000_0000_0000_0000) as u64
    }
}

/// Assembles an identifier from its four fields. Bits of `delta` above the
/// 42 that fit under the field boundary are discarded.
pub fn pack_id(delta: u64, datacenter_id: u64, worker_id: u64, sequence: u64) -> (id: u64)
    ensures
        id == pack_spec(delta, datacenter_id, worker_id, sequence),
{
    (delta << 22) | (datacenter_id << 17) | (worker_id << 12) | sequence
}

/// Each field of a packed identifier, shifted and masked back out per the
/// documented layout, is the field that went in, as long as every field is
/// within its bit width.
pub proof fn lemma_id_decode(delta: u64, datacenter_id: u64, worker_id: u64, sequence: u64)
    by (bit_vector)
    requires
        delta <= MAX_TIMESTAMP_DELTA,
        datacenter_id <= MAX_DATACENTER_ID,
        worker_id <= MAX_WORKER_ID,
        sequence <= MAX_SEQUENCE,
    ensures
        timestamp_of(pack_spec(delta, datacenter_id, worker_id, sequence)) == delta,
        datacenter_of(pack_spec(delta, datacenter_id, worker_id, sequence)) == datacenter_id,
        worker_of(pack_spec(delta, datacenter_id, worker_id, sequence)) == worker_id,
        sequence_of(pack_spec(delta, datacenter_id, worker_id, sequence)) == sequence,
{
}

/// With equal datacenter and worker ids, a lexicographically larger
/// (timestamp delta, sequence) pair packs to a strictly larger identifier,
/// as long as both deltas fit the 41-bit field and both sequences fit
/// 12 bits.
pub proof fn lemma_pack_monotonic(
    delta1: u64,
    sequence1: u64,
    delta2: u64,
    sequence2: u64,
    datacenter_id: u64,
    worker_id: u64,
)
    by (bit_vector)
    requires
        delta1 <= MAX_TIMESTAMP_DELTA,
        delta2 <= MAX_TIMESTAMP_DELTA,
        datacenter_id <= MAX_DATACENTER_ID,
        worker_id <= MAX_WORKER_ID,
        sequence1 <= MAX_SEQUENCE,
        sequence2 <= MAX_SEQUENCE,
        delta1 < delta2 || (delta1 == delta2 && sequence1 < sequence2),
    ensures
        pack_spec(delta1, datacenter_id, worker_id, sequence1) < pack_spec(
            delta2,
            datacenter_id,
            worker_id,
            sequence2,
        ),
{
}

/// Monotonicity of identifiers: with equal datacenter and worker ids and one
/// epoch no later than either timestamp, an identifier issued at a
/// lexicographically larger (timestamp, sequence) pair is strictly larger as
/// an unsigned 64-bit integer, as long as both timestamp deltas fit the
/// 41-bit field.
pub proof fn lemma_id_monotonic(
    ts1: u64,
    sequence1: u64,
    ts2: u64,
    sequence2: u64,
    datacenter_id: u64,
    worker_id: u64,
    epoch: u64,
)
    requires
        epoch <= ts1,
        epoch <= ts2,
        ts1 - epoch <= MAX_TIMESTAMP_DELTA,
        ts2 - epoch <= MAX_TIMESTAMP_DELTA,
        datacenter_id <= MAX_DATACENTER_ID,
        worker_id <= MAX_WORKER_ID,
        sequence1 <= MAX_SEQUENCE,
        sequence2 <= MAX_SEQUENCE,
        ts1 < ts2 || (ts1 == ts2 && sequence1 < sequence2),
    ensures
        pack_spec(delta_of(ts1, epoch), datacenter_id, worker_id, sequence1) < pack_spec(
            delta_of(ts2, epoch),
            datacenter_id,
            worker_id,
            sequence2,
        ),
{
    lemma_pack_monotonic(
        delta_of(ts1, epoch),
        sequence1,
        delta_of(ts2, epoch),
        sequence2,
        datacenter_id,
        worker_id,
    );
}

/// Uniqueness of identifiers: under the same bounds as monotonicity, two
/// identifiers issued at distinct (timestamp, sequence) pairs are distinct
/// values.
pub proof fn lemma_id_unique(
    ts1: u64,
    sequence1: u64,
    ts2: u64,
    sequence2: u64,
    datacenter_id: u64,
    worker_id: u64,
    epoch: u64,
)
    requires
        epoch <= ts1,
        epoch <= ts2,
        ts1 - epoch <= MAX_TIMESTAMP_DELTA,
        ts2 - epoch <= MAX_TIMESTAMP_DELTA,
        datacenter_id <= MAX_DATACENTER_ID,
        worker_id <= MAX_WORKER_ID,
        sequence1 <= MAX_SEQUENCE,
        sequence2 <= MAX_SEQUENCE,
        ts1 != ts2 || sequence1 != sequence2,
    ensures
        pack_spec(delta_of(ts1, epoch), datacenter_id, worker_id, sequence1) != pack_spec(
            delta_of(ts2, epoch),
            datacenter_id,
            worker_id,
            sequence2,
        ),
{
    if ts1 < ts2 || (ts1 == ts2 && sequence1 < sequence2) {
        lemma_id_monotonic(ts1, sequence1, ts2, sequence2, datacenter_id, worker_id, epoch);
    } else {
        lemma_id_monotonic(ts2, sequence2, ts1, sequence1, datacenter_id, worker_id, epoch);
    }
}

} // verus!
