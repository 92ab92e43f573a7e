//! The binary layout of a snapshot.
//!
//! A snapshot opens with a fixed prefix of two little-endian 32-bit words,
//! the tick at offset 0 and the seed at offset 4. Readers go by the length of
//! the byte string they are handed, never by a length they assume.

use crate::state::{current_tick, SimView, SimulationState};
use vstd::prelude::*;

verus! {

/// Bytes taken by one encoded 32-bit word.
pub const WORD_LEN: usize = 4;

/// Offset of the tick within a snapshot.
pub const TICK_OFFSET: usize = 0;

/// Offset of the seed within a snapshot.
pub const SEED_OFFSET: usize = 4;

/// Length of the fixed prefix that every snapshot starts with.
pub const PREFIX_LEN: usize = 8;

/// The four bytes of `value`, least significant first.
pub open spec fn le_bytes(value: u32) -> Seq<u8> {
    seq![
        (value % 0x100) as u8,
        (value / 0x100 % 0x100) as u8,
        (value / 0x1_0000 % 0x100) as u8,
        (value / 0x100_0000) as u8,
    ]
}

/// The number whose little-endian bytes are the first four of `bytes`.
pub open spec fn le_value(bytes: Seq<u8>) -> int
    recommends
        bytes.len() >= 4,
{
    bytes[0] + 0x100 * bytes[1] + 0x1_0000 * bytes[2] + 0x100_0000 * bytes[3]
}

/// The snapshot of `state`: its tick, then its seed.
pub open spec fn snapshot_bytes(state: SimView) -> Seq<u8> {
    le_bytes(state.tick) + le_bytes(state.seed)
}

/// Decoding undoes encoding: the four bytes of a word give the word back.
pub proof fn lemma_le_round_trip(value: u32)
    ensures
        le_bytes(value).len() == WORD_LEN,
        le_value(le_bytes(value)) == value,
{
}

/// The prefix of a snapshot decodes to the state it was taken of: the word at
/// [`TICK_OFFSET`] is the tick and the word at [`SEED_OFFSET`] is the seed.
pub proof fn lemma_snapshot_prefix(state: SimView)
    ensures
        snapshot_bytes(state).len() == PREFIX_LEN,
        le_value(snapshot_bytes(state).subrange(TICK_OFFSET as int, TICK_OFFSET + WORD_LEN))
            == state.tick,
        le_value(snapshot_bytes(state).subrange(SEED_OFFSET as int, SEED_OFFSET + WORD_LEN))
            == state.seed,
{
    lemma_le_round_trip(state.tick);
    lemma_le_round_trip(state.seed);
    let bytes = snapshot_bytes(state);
    assert(bytes.subrange(TICK_OFFSET as int, TICK_OFFSET + WORD_LEN) =~= le_bytes(state.tick));
    assert(bytes.subrange(SEED_OFFSET as int, SEED_OFFSET + WORD_LEN) =~= le_bytes(state.seed));
}

/// A snapshot is a function of the state alone: byte strings that meet the
/// contract of [`snapshot`] for one and the same state are equal, in content
/// and in length.
pub proof fn lemma_snapshot_repeatable(state: SimView, first: Seq<u8>, second: Seq<u8>)
    requires
        first == snapshot_bytes(state),
        second == snapshot_bytes(state),
    ensures
        first == second,
        first.len() == second.len(),
        first.len() == PREFIX_LEN,
{
}

/// A snapshot records the tick and the seed and nothing else: two states have
/// the same snapshot exactly when they agree on both.
pub proof fn lemma_snapshot_faithful(first: SimView, second: SimView)
    ensures
        snapshot_bytes(first) == snapshot_bytes(second) <==> first.tick == second.tick
            && first.seed == second.seed,
{
    lemma_snapshot_prefix(first);
    lemma_snapshot_prefix(second);
}

/// Appends the little-endian bytes of `value` to `out`.
fn push_le(out: &mut Vec<u8>, value: u32)
    ensures
        final(out)@ == old(out)@ + le_bytes(value),
{
    out.push((value % 0x100) as u8);
    out.push((value / 0x100 % 0x100) as u8);
    out.push((value / 0x1_0000 % 0x100) as u8);
    out.push((value / 0x100_0000) as u8);
}

/// Encodes the current state as a fresh byte string and leaves the state as it
/// is, so that two snapshots with no step between them are byte for byte the
/// same.
pub fn snapshot(state: &SimulationState) -> (bytes: Vec<u8>)
    ensures
        bytes@ == snapshot_bytes(state@),
        bytes@.len() == PREFIX_LEN,
{
    let mut bytes: Vec<u8> = Vec::with_capacity(PREFIX_LEN);
    push_le(&mut bytes, current_tick(state));
    push_le(&mut bytes, state.seed());
    bytes
}

} // verus!
