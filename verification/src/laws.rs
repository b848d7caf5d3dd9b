//! What holds of every generator, proved over the model of
//! [`FlakeState`](crate::state::FlakeState).

use crate::config::Config;
use crate::error::CornFlakeError;
use crate::layout::{
    lemma_later_timestamp_is_greater, lemma_next_sequence_is_next_identifier,
    lemma_sequence_reads_back, node_field, sequence_field, timestamp_field, timestamp_fits,
};
use crate::state::FlakeState;
use vstd::arithmetic::power2::{lemma_pow2_pos, pow2};
use vstd::bits::lemma_u64_pow2_no_overflow;
use vstd::prelude::*;

verus! {

/// A valid configuration gives a generator that meets the invariant.
pub proof fn lemma_initial_state_is_sound(config: Config)
    requires
        config.has_widths(),
        config.is_valid(),
    ensures
        FlakeState::initial(config).inv(),
{
    lemma_pow2_pos(config.sequence_bits as nat);
}

/// The first identifier of a new generator has sequence number zero, at
/// whatever reading it is issued, the epoch's own millisecond among them.
pub proof fn lemma_new_generator_starts_at_zero(config: Config, timestamp: u64)
    requires
        config.has_widths(),
        config.is_valid(),
    ensures
        FlakeState::initial(config).outcome(timestamp) == Ok::<Option<u64>, CornFlakeError>(
            Some(FlakeState::initial(config).identifier(timestamp, 0)),
        ),
        FlakeState::initial(config).after(timestamp) == (FlakeState {
            last_timestamp: Some(timestamp),
            ..FlakeState::initial(config)
        }),
{
}

/// No reading takes a generator out of its invariant, changes its node or
/// layout, or moves its last timestamp back. A reading that yields an
/// identifier becomes the last timestamp; any other changes nothing.
pub proof fn lemma_reading_keeps_invariant(state: FlakeState, timestamp: u64)
    requires
        state.inv(),
    ensures
        state.after(timestamp).inv(),
        state.after(timestamp).node_id == state.node_id,
        state.after(timestamp).node_id_bits == state.node_id_bits,
        state.after(timestamp).sequence_bits == state.sequence_bits,
        state.after(timestamp).epoch == state.epoch,
        state.after(timestamp).reached() >= state.reached(),
        state.outcome(timestamp) matches Ok(Some(_)) ==> state.after(timestamp).last_timestamp
            == Some(timestamp),
        !(state.outcome(timestamp) matches Ok(Some(_))) ==> state.after(timestamp) == state,
{
    lemma_pow2_pos(state.sequence_bits as nat);
}

/// An identifier issued is greater than the last one issued before it,
/// provided the reading fits the timestamp field.
pub proof fn lemma_issue_increases(state: FlakeState, timestamp: u64)
    requires
        state.inv(),
        state.issues_at(timestamp),
        timestamp_fits(timestamp, state.node_id_bits, state.sequence_bits),
    ensures
        state.last_identifier() matches Some(last) ==> last < state.identifier(
            timestamp,
            state.next_sequence(timestamp),
        ),
{
    lemma_pow2_pos(state.sequence_bits as nat);
    if let Some(last) = state.last_timestamp {
        if timestamp == last {
            lemma_next_sequence_is_next_identifier(
                timestamp,
                state.node_id,
                state.sequence,
                state.node_id_bits,
                state.sequence_bits,
            );
        } else {
            lemma_later_timestamp_is_greater(
                last,
                timestamp,
                state.node_id,
                state.sequence,
                0,
                state.node_id_bits,
                state.sequence_bits,
            );
        }
    }
}

/// Two calls in a row that read the same millisecond and both issue: the
/// second identifier is the first plus one, and the two differ in the
/// sequence field alone.
pub proof fn lemma_same_millisecond_counts_up(
    state: FlakeState,
    timestamp: u64,
    first: u64,
    second: u64,
)
    requires
        state.inv(),
        state.outcome(timestamp) == Ok::<Option<u64>, CornFlakeError>(Some(first)),
        state.after(timestamp).outcome(timestamp) == Ok::<Option<u64>, CornFlakeError>(
            Some(second),
        ),
    ensures
        first < second,
        second == first + 1,
        timestamp_field(second, state.node_id_bits, state.sequence_bits) == timestamp_field(
            first,
            state.node_id_bits,
            state.sequence_bits,
        ),
        node_field(second, state.node_id_bits, state.sequence_bits) == node_field(
            first,
            state.node_id_bits,
            state.sequence_bits,
        ),
        sequence_field(second, state.sequence_bits) == sequence_field(first, state.sequence_bits)
            + 1,
{
    lemma_reading_keeps_invariant(state, timestamp);
    let middle = state.after(timestamp);
    lemma_next_sequence_is_next_identifier(
        timestamp,
        middle.node_id,
        middle.sequence,
        middle.node_id_bits,
        middle.sequence_bits,
    );
}

/// After an identifier whose sequence field is not yet at its largest value,
/// a call that reads the same millisecond again succeeds, and issues the next
/// integer.
pub proof fn lemma_same_millisecond_issues_again(state: FlakeState, timestamp: u64, first: u64)
    requires
        state.inv(),
        state.outcome(timestamp) == Ok::<Option<u64>, CornFlakeError>(Some(first)),
        sequence_field(first, state.sequence_bits) + 1 < pow2(state.sequence_bits as nat),
    ensures
        first < u64::MAX,
        state.after(timestamp).outcome(timestamp) == Ok::<Option<u64>, CornFlakeError>(
            Some((first + 1) as u64),
        ),
{
    lemma_reading_keeps_invariant(state, timestamp);
    let middle = state.after(timestamp);
    lemma_sequence_reads_back(
        timestamp,
        middle.node_id,
        middle.sequence,
        middle.node_id_bits,
        middle.sequence_bits,
    );
    lemma_next_sequence_is_next_identifier(
        timestamp,
        middle.node_id,
        middle.sequence,
        middle.node_id_bits,
        middle.sequence_bits,
    );
}

/// A millisecond in which the generator has issued nothing yet serves exactly
/// `2^sequence_bits` identifiers: call number `count`, counted from zero,
/// issues the identifier with sequence number `count`, and the call after the
/// last of them issues nothing, at that reading or any that is not later.
/// This holds of a new generator at every reading, and of any other at every
/// reading after its last timestamp.
pub proof fn lemma_millisecond_capacity(state: FlakeState, timestamp: u64, count: nat)
    requires
        state.inv(),
        state.is_new_at(timestamp),
        count <= pow2(state.sequence_bits as nat),
    ensures
        state.after_repeated(timestamp, count).inv(),
        count > 0 ==> state.after_repeated(timestamp, count) == (FlakeState {
            sequence: (count - 1) as u64,
            last_timestamp: Some(timestamp),
            ..state
        }),
        count < pow2(state.sequence_bits as nat) ==> state.after_repeated(timestamp, count).outcome(
            timestamp,
        ) == Ok::<Option<u64>, CornFlakeError>(Some(state.identifier(timestamp, count as u64))),
        count == pow2(state.sequence_bits as nat) ==> forall|reading: u64|
            reading <= timestamp ==> !(#[trigger] state.after_repeated(timestamp, count).outcome(
                reading,
            ) matches Ok(Some(_))),
        count == pow2(state.sequence_bits as nat) ==> state.after_repeated(
            timestamp,
            count,
        ).outcome(timestamp) == Ok::<Option<u64>, CornFlakeError>(None),
    decreases count,
{
    lemma_u64_pow2_no_overflow(state.sequence_bits as nat);
    if count > 0 {
        let before = state.after_repeated(timestamp, (count - 1) as nat);
        lemma_millisecond_capacity(state, timestamp, (count - 1) as nat);
        lemma_reading_keeps_invariant(before, timestamp);
        assert(state.after_repeated(timestamp, count) == before.after(timestamp));
    }
}

/// A generator that has used up its millisecond issues again only at a later
/// one, and then with sequence number zero.
pub proof fn lemma_used_up_millisecond_waits(state: FlakeState, timestamp: u64, id: u64)
    requires
        state.inv(),
        state.last_timestamp matches Some(last) && state.exhausted_at(last),
        state.outcome(timestamp) == Ok::<Option<u64>, CornFlakeError>(Some(id)),
    ensures
        timestamp > state.reached(),
        id == state.identifier(timestamp, 0),
{
}

/// A generator that has used up its millisecond sits out every reading that
/// repeats it, unchanged, and answers the first later reading with the first
/// identifier of that millisecond.
pub proof fn lemma_wait_ends_at_next_millisecond(
    state: FlakeState,
    waiting: Seq<u64>,
    later: u64,
)
    requires
        state.inv(),
        state.last_timestamp matches Some(last) && state.exhausted_at(last),
        forall|i: int| 0 <= i < waiting.len() ==> state.last_timestamp == Some(#[trigger] waiting[i]),
        later > state.reached(),
    ensures
        forall|i: int|
            0 <= i < waiting.len() ==> state.outcome(#[trigger] waiting[i]) == Ok::<
                Option<u64>,
                CornFlakeError,
            >(None),
        state.after_all(waiting) == state,
        state.after_all(waiting).outcome(later) == Ok::<Option<u64>, CornFlakeError>(
            Some(state.identifier(later, 0)),
        ),
    decreases waiting.len(),
{
    if waiting.len() > 0 {
        assert(state.last_timestamp == Some(waiting[0]));
        assert(state.after(waiting.first()) == state);
        assert forall|i: int| 0 <= i < waiting.drop_first().len() implies state.last_timestamp
            == Some(#[trigger] waiting.drop_first()[i]) by {
            assert(waiting.drop_first()[i] == waiting[i + 1]);
        }
        lemma_wait_ends_at_next_millisecond(state, waiting.drop_first(), later);
    }
}

/// A run of readings never moves the last timestamp back, and never lowers
/// the last identifier issued, as long as the last timestamp reached fits its
/// field.
pub proof fn lemma_run_never_decreases(state: FlakeState, readings: Seq<u64>)
    requires
        state.inv(),
    ensures
        state.after_all(readings).inv(),
        state.after_all(readings).node_id == state.node_id,
        state.after_all(readings).node_id_bits == state.node_id_bits,
        state.after_all(readings).sequence_bits == state.sequence_bits,
        state.reached() <= state.after_all(readings).reached(),
        (state.after_all(readings).last_timestamp matches Some(last) ==> timestamp_fits(
            last,
            state.node_id_bits,
            state.sequence_bits,
        )) ==> state.rank() <= state.after_all(readings).rank(),
    decreases readings.len(),
{
    if readings.len() > 0 {
        let next = state.after(readings.first());
        lemma_reading_keeps_invariant(state, readings.first());
        lemma_run_never_decreases(next, readings.drop_first());
        let end = state.after_all(readings);
        if let Some(last) = end.last_timestamp {
            if state.last_timestamp is Some && timestamp_fits(
                last,
                state.node_id_bits,
                state.sequence_bits,
            ) && state.issues_at(readings.first()) {
                lemma_issue_increases(state, readings.first());
            }
        }
    }
}

/// Of any two identifiers one generator issues, the later is the greater,
/// whatever readings came between them, as long as the reading of the later
/// one fits the timestamp field.
pub proof fn lemma_identifiers_increase(
    state: FlakeState,
    first_reading: u64,
    between: Seq<u64>,
    second_reading: u64,
    first: u64,
    second: u64,
)
    requires
        state.inv(),
        state.outcome(first_reading) == Ok::<Option<u64>, CornFlakeError>(Some(first)),
        state.after(first_reading).after_all(between).outcome(second_reading) == Ok::<
            Option<u64>,
            CornFlakeError,
        >(Some(second)),
        timestamp_fits(second_reading, state.node_id_bits, state.sequence_bits),
    ensures
        first < second,
{
    let issued = state.after(first_reading);
    lemma_reading_keeps_invariant(state, first_reading);
    lemma_run_never_decreases(issued, between);
    let before = issued.after_all(between);
    lemma_issue_increases(before, second_reading);
}

/// Once an identifier has been issued, a reading of an earlier millisecond is
/// reported as a clock that moved backwards, and changes nothing.
pub proof fn lemma_backward_jump_is_reported(state: FlakeState, issued_at: u64, reading: u64)
    requires
        state.inv(),
        state.outcome(issued_at) matches Ok(Some(_)),
        reading < issued_at,
    ensures
        state.after(issued_at).outcome(reading) == Err::<Option<u64>, CornFlakeError>(
            CornFlakeError::ClockMovedBackwards,
        ),
        state.after(issued_at).after(reading) == state.after(issued_at),
{
}

} // verus!
