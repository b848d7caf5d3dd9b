//! How the three fields share the 64 bits of an identifier.
//!
//! From the most significant bit down: the timestamp, then `node_id_bits` bits
//! of node identifier, then `sequence_bits` bits of sequence. The timestamp
//! takes what the other two leave, and loses its high bits when it needs more.

use vstd::arithmetic::power2::{
    lemma2_to64, lemma_pow2_adds, lemma_pow2_pos, lemma_pow2_strictly_increases, pow2,
};
use vstd::bits::{lemma_u64_pow2_no_overflow, lemma_u64_shl_is_mul};
use vstd::prelude::*;

verus! {

/// The most bits the node and sequence fields may take together.
pub const MAX_LOW_BITS: u64 = 22;

/// The identifier with the given fields: each moved to its place, then joined.
pub open spec fn identifier(
    timestamp: u64,
    node_id: u64,
    sequence: u64,
    node_id_bits: u64,
    sequence_bits: u64,
) -> u64 {
    (timestamp << ((node_id_bits + sequence_bits) as u64)) | (node_id << sequence_bits) | sequence
}

/// The node and sequence values fit in fields of the given widths, and the
/// widths leave the timestamp its 41 bits.
pub open spec fn fields_fit(node_id: u64, sequence: u64, node_id_bits: u64, sequence_bits: u64) -> bool {
    &&& node_id_bits + sequence_bits <= MAX_LOW_BITS
    &&& node_id < pow2(node_id_bits as nat)
    &&& sequence < pow2(sequence_bits as nat)
}

/// The timestamp fits in what the node and sequence fields leave of 64 bits.
pub open spec fn timestamp_fits(timestamp: u64, node_id_bits: u64, sequence_bits: u64) -> bool {
    timestamp < pow2((64 - node_id_bits - sequence_bits) as nat)
}

/// The timestamp field of an identifier.
pub open spec fn timestamp_field(id: u64, node_id_bits: u64, sequence_bits: u64) -> u64 {
    id >> ((node_id_bits + sequence_bits) as u64)
}

/// The node field of an identifier.
pub open spec fn node_field(id: u64, node_id_bits: u64, sequence_bits: u64) -> u64 {
    (id >> sequence_bits) & ((pow2(node_id_bits as nat) - 1) as u64)
}

/// The sequence field of an identifier.
pub open spec fn sequence_field(id: u64, sequence_bits: u64) -> u64 {
    id & ((pow2(sequence_bits as nat) - 1) as u64)
}

/// A one moved left by fewer than 64 places is that power of two.
pub proof fn lemma_one_shifted(bits: u64)
    requires
        bits < 64,
    ensures
        (1u64 << bits) == pow2(bits as nat),
{
    lemma_u64_pow2_no_overflow(bits as nat);
    lemma_u64_shl_is_mul(1u64, bits);
}

/// `2^bits`, the number of values a field of that width can hold.
pub fn field_limit(bits: u64) -> (limit: u64)
    requires
        bits < 64,
    ensures
        limit == pow2(bits as nat),
{
    proof {
        lemma_one_shifted(bits);
    }
    1u64 << bits
}

/// The value with the low `bits` bits set and no other: the largest a field of
/// that width can hold.
pub fn field_mask(bits: u64) -> (mask: u64)
    requires
        bits < 64,
    ensures
        mask == pow2(bits as nat) - 1,
{
    let ones: u64 = !0u64;
    let mask: u64 = ones ^ (ones << bits);
    proof {
        lemma_one_shifted(bits);
        let limit: u64 = 1u64 << bits;
        assert(mask + 1 == limit) by (bit_vector)
            requires
                bits < 64,
                ones == !0u64,
                mask == ones ^ (ones << bits),
                limit == 1u64 << bits,
        ;
    }
    mask
}

/// Joins the three fields into one identifier.
pub fn compose(
    timestamp: u64,
    node_id: u64,
    sequence: u64,
    node_id_bits: u64,
    sequence_bits: u64,
) -> (id: u64)
    requires
        node_id_bits + sequence_bits < 64,
    ensures
        id == identifier(timestamp, node_id, sequence, node_id_bits, sequence_bits),
{
    (timestamp << (node_id_bits + sequence_bits)) | (node_id << sequence_bits) | sequence
}

/// Every field can be read back from an identifier whose fields fit: no
/// field runs into another.
pub proof fn lemma_fields_read_back(
    timestamp: u64,
    node_id: u64,
    sequence: u64,
    node_id_bits: u64,
    sequence_bits: u64,
)
    requires
        fields_fit(node_id, sequence, node_id_bits, sequence_bits),
        timestamp_fits(timestamp, node_id_bits, sequence_bits),
    ensures
        ({
            let id = identifier(timestamp, node_id, sequence, node_id_bits, sequence_bits);
            &&& timestamp_field(id, node_id_bits, sequence_bits) == timestamp
            &&& node_field(id, node_id_bits, sequence_bits) == node_id
            &&& sequence_field(id, sequence_bits) == sequence
        }),
{
    let low_bits: u64 = (node_id_bits + sequence_bits) as u64;
    let high_bits: u64 = (64 - low_bits) as u64;
    let node_limit: u64 = 1u64 << node_id_bits;
    let sequence_limit: u64 = 1u64 << sequence_bits;
    let timestamp_limit: u64 = 1u64 << high_bits;
    lemma_one_shifted(node_id_bits);
    lemma_one_shifted(sequence_bits);
    if low_bits > 0 {
        lemma_one_shifted(high_bits);
    }
    let node_mask: u64 = (node_limit - 1) as u64;
    let sequence_mask: u64 = (sequence_limit - 1) as u64;
    let id = (timestamp << low_bits) | (node_id << sequence_bits) | sequence;
    assert(id >> low_bits == timestamp && (id >> sequence_bits) & node_mask == node_id && id
        & sequence_mask == sequence) by (bit_vector)
        requires
            node_id_bits + sequence_bits <= 22,
            low_bits == node_id_bits + sequence_bits,
            high_bits == 64 - low_bits,
            node_limit == 1u64 << node_id_bits,
            sequence_limit == 1u64 << sequence_bits,
            timestamp_limit == 1u64 << high_bits,
            node_mask == node_limit - 1,
            sequence_mask == sequence_limit - 1,
            node_id < node_limit,
            sequence < sequence_limit,
            low_bits == 0 || timestamp < timestamp_limit,
            id == (timestamp << low_bits) | (node_id << sequence_bits) | sequence,
    ;
}

/// The sequence field reads back from an identifier of any timestamp, also
/// of one too large for its field.
pub proof fn lemma_sequence_reads_back(
    timestamp: u64,
    node_id: u64,
    sequence: u64,
    node_id_bits: u64,
    sequence_bits: u64,
)
    requires
        fields_fit(node_id, sequence, node_id_bits, sequence_bits),
    ensures
        sequence_field(
            identifier(timestamp, node_id, sequence, node_id_bits, sequence_bits),
            sequence_bits,
        ) == sequence,
{
    let low_bits: u64 = (node_id_bits + sequence_bits) as u64;
    let sequence_limit: u64 = 1u64 << sequence_bits;
    lemma_one_shifted(sequence_bits);
    let sequence_mask: u64 = (sequence_limit - 1) as u64;
    let id = (timestamp << low_bits) | (node_id << sequence_bits) | sequence;
    assert(id & sequence_mask == sequence) by (bit_vector)
        requires
            node_id_bits + sequence_bits <= 22,
            low_bits == node_id_bits + sequence_bits,
            sequence_limit == 1u64 << sequence_bits,
            sequence_mask == sequence_limit - 1,
            sequence < sequence_limit,
            id == (timestamp << low_bits) | (node_id << sequence_bits) | sequence,
    ;
}

/// An identifier whose fields fit is a sum: each field counts in units of the
/// power of two at which it starts.
pub proof fn lemma_identifier_is_sum(
    timestamp: u64,
    node_id: u64,
    sequence: u64,
    node_id_bits: u64,
    sequence_bits: u64,
)
    requires
        fields_fit(node_id, sequence, node_id_bits, sequence_bits),
        timestamp_fits(timestamp, node_id_bits, sequence_bits),
    ensures
        identifier(timestamp, node_id, sequence, node_id_bits, sequence_bits) == timestamp * pow2(
            (node_id_bits + sequence_bits) as nat,
        ) + node_id * pow2(sequence_bits as nat) + sequence,
{
    let low_bits: u64 = (node_id_bits + sequence_bits) as u64;
    let high_bits: u64 = (64 - low_bits) as u64;
    let node_limit: u64 = 1u64 << node_id_bits;
    let sequence_limit: u64 = 1u64 << sequence_bits;
    let timestamp_limit: u64 = 1u64 << high_bits;
    lemma_one_shifted(node_id_bits);
    lemma_one_shifted(sequence_bits);
    if low_bits > 0 {
        lemma_one_shifted(high_bits);
    }
    lemma_product_below(timestamp, high_bits as nat, low_bits as nat);
    lemma_product_below(node_id, node_id_bits as nat, sequence_bits as nat);
    lemma_pow2_strictly_increases(low_bits as nat, 64);
    lemma2_to64();
    lemma_u64_shl_is_mul(timestamp, low_bits);
    lemma_u64_shl_is_mul(node_id, sequence_bits);
    let high: u64 = timestamp << low_bits;
    let middle: u64 = node_id << sequence_bits;
    assert((high | middle | sequence) == high + middle + sequence) by (bit_vector)
        requires
            node_id_bits + sequence_bits <= 22,
            low_bits == node_id_bits + sequence_bits,
            high_bits == 64 - low_bits,
            node_limit == 1u64 << node_id_bits,
            sequence_limit == 1u64 << sequence_bits,
            timestamp_limit == 1u64 << high_bits,
            node_id < node_limit,
            sequence < sequence_limit,
            low_bits == 0 || timestamp < timestamp_limit,
            high == timestamp << low_bits,
            middle == node_id << sequence_bits,
    ;
}

/// A value below `2^width`, counted in units of `2^unit`, stays below
/// `2^(width + unit)`.
proof fn lemma_product_below(value: u64, width: nat, unit: nat)
    requires
        value < pow2(width),
    ensures
        value * pow2(unit) < pow2(width + unit),
{
    lemma_pow2_adds(width, unit);
    lemma_pow2_pos(unit);
    assert(value * pow2(unit) < pow2(width) * pow2(unit)) by (nonlinear_arith)
        requires
            value < pow2(width),
            0 < pow2(unit),
    ;
}

/// Between two identifiers of one node, the one with the later timestamp is
/// the greater, whatever their sequence numbers, as long as the later
/// timestamp fits its field.
pub proof fn lemma_later_timestamp_is_greater(
    earlier: u64,
    later: u64,
    node_id: u64,
    earlier_sequence: u64,
    later_sequence: u64,
    node_id_bits: u64,
    sequence_bits: u64,
)
    requires
        fields_fit(node_id, earlier_sequence, node_id_bits, sequence_bits),
        fields_fit(node_id, later_sequence, node_id_bits, sequence_bits),
        earlier < later,
        timestamp_fits(later, node_id_bits, sequence_bits),
    ensures
        identifier(earlier, node_id, earlier_sequence, node_id_bits, sequence_bits) < identifier(
            later,
            node_id,
            later_sequence,
            node_id_bits,
            sequence_bits,
        ),
{
    let low_bits: u64 = (node_id_bits + sequence_bits) as u64;
    let high_bits: u64 = (64 - low_bits) as u64;
    let node_limit: u64 = 1u64 << node_id_bits;
    let sequence_limit: u64 = 1u64 << sequence_bits;
    let timestamp_limit: u64 = 1u64 << high_bits;
    lemma_one_shifted(node_id_bits);
    lemma_one_shifted(sequence_bits);
    if low_bits > 0 {
        lemma_one_shifted(high_bits);
    }
    assert(((earlier << low_bits) | (node_id << sequence_bits) | earlier_sequence) < ((later
        << low_bits) | (node_id << sequence_bits) | later_sequence)) by (bit_vector)
        requires
            node_id_bits + sequence_bits <= 22,
            low_bits == node_id_bits + sequence_bits,
            high_bits == 64 - low_bits,
            node_limit == 1u64 << node_id_bits,
            sequence_limit == 1u64 << sequence_bits,
            timestamp_limit == 1u64 << high_bits,
            node_id < node_limit,
            earlier_sequence < sequence_limit,
            later_sequence < sequence_limit,
            earlier < later,
            low_bits == 0 || later < timestamp_limit,
    ;
}

/// Between two identifiers of one node and one millisecond, the one with the
/// next sequence number is the next integer, and the two differ in the
/// sequence field alone. This holds of every timestamp, also of one too large
/// for its field.
pub proof fn lemma_next_sequence_is_next_identifier(
    timestamp: u64,
    node_id: u64,
    sequence: u64,
    node_id_bits: u64,
    sequence_bits: u64,
)
    requires
        fields_fit(node_id, sequence, node_id_bits, sequence_bits),
        sequence + 1 < pow2(sequence_bits as nat),
    ensures
        ({
            let id = identifier(timestamp, node_id, sequence, node_id_bits, sequence_bits);
            let next = identifier(
                timestamp,
                node_id,
                (sequence + 1) as u64,
                node_id_bits,
                sequence_bits,
            );
            &&& next == id + 1
            &&& timestamp_field(next, node_id_bits, sequence_bits) == timestamp_field(
                id,
                node_id_bits,
                sequence_bits,
            )
            &&& node_field(next, node_id_bits, sequence_bits) == node_field(
                id,
                node_id_bits,
                sequence_bits,
            )
            &&& sequence_field(id, sequence_bits) == sequence
            &&& sequence_field(next, sequence_bits) == sequence + 1
        }),
{
    let low_bits: u64 = (node_id_bits + sequence_bits) as u64;
    let node_limit: u64 = 1u64 << node_id_bits;
    let sequence_limit: u64 = 1u64 << sequence_bits;
    lemma_one_shifted(node_id_bits);
    lemma_one_shifted(sequence_bits);
    let node_mask: u64 = (node_limit - 1) as u64;
    let sequence_mask: u64 = (sequence_limit - 1) as u64;
    let successor: u64 = (sequence + 1) as u64;
    let id = (timestamp << low_bits) | (node_id << sequence_bits) | sequence;
    let next = (timestamp << low_bits) | (node_id << sequence_bits) | successor;
    assert(next == id + 1 && next >> low_bits == id >> low_bits && (next >> sequence_bits)
        & node_mask == (id >> sequence_bits) & node_mask && id & sequence_mask == sequence && next
        & sequence_mask == successor) by (bit_vector)
        requires
            node_id_bits + sequence_bits <= 22,
            low_bits == node_id_bits + sequence_bits,
            node_limit == 1u64 << node_id_bits,
            sequence_limit == 1u64 << sequence_bits,
            node_mask == node_limit - 1,
            sequence_mask == sequence_limit - 1,
            node_id < node_limit,
            successor == sequence + 1,
            successor < sequence_limit,
            id == (timestamp << low_bits) | (node_id << sequence_bits) | sequence,
            next == (timestamp << low_bits) | (node_id << sequence_bits) | successor,
    ;
}

} // verus!
