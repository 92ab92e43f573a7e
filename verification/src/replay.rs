//! Runs of the kernel, as a host observes them: one `init`, then one step per
//! input buffer. The lemmas here say what such a run can and cannot do, from
//! nothing but the contracts of `init` and `step`.

use crate::state::{effective_rate, SimView, TICK_MODULUS};
use crate::wire::{le_bytes, le_value, snapshot_bytes, SEED_OFFSET, TICK_OFFSET, WORD_LEN};
use vstd::prelude::*;

verus! {

/// Whether `trace` records a run that opens with `init(seed, rate_hz)` and then
/// steps once per buffer of `inputs`, in order: `trace[0]` is the state that
/// `init` left, and `trace[i + 1]` the state after the step fed with
/// `inputs[i]`.
pub open spec fn is_run(
    trace: Seq<SimView>,
    seed: u32,
    rate_hz: u32,
    inputs: Seq<Seq<u8>>,
) -> bool {
    &&& trace.len() == inputs.len() + 1
    &&& trace[0] == SimView::init(seed, rate_hz)
    &&& forall|i: int|
        0 <= i < inputs.len() ==> trace[i + 1] == trace[i].step(#[trigger] inputs[i])
}

/// The state of a run after `steps` steps: it depends on the seed, the rate
/// and the number of steps, and on nothing that the steps were fed.
pub open spec fn state_after(seed: u32, rate_hz: u32, steps: nat) -> SimView {
    SimView {
        tick: (steps % (TICK_MODULUS as nat)) as u32,
        seed,
        rate_hz: effective_rate(rate_hz),
    }
}

/// The states of the run from `seed` and `rate_hz` over `inputs`, listed from
/// the one that `init` leaves to the one after the last step.
pub open spec fn run_states(seed: u32, rate_hz: u32, inputs: Seq<Seq<u8>>) -> Seq<SimView> {
    Seq::new(inputs.len() + 1, |i: int| state_after(seed, rate_hz, i as nat))
}

/// Every seed, rate and list of input buffers has a run: no input, however
/// malformed, leaves the kernel without a next state.
pub proof fn lemma_run_exists(seed: u32, rate_hz: u32, inputs: Seq<Seq<u8>>)
    ensures
        is_run(run_states(seed, rate_hz, inputs), seed, rate_hz, inputs),
{
    let trace = run_states(seed, rate_hz, inputs);
    assert forall|i: int| 0 <= i < inputs.len() implies trace[i + 1] == trace[i].step(
        #[trigger] inputs[i],
    ) by {
        assert(trace[i] == state_after(seed, rate_hz, i as nat));
        assert(trace[i + 1] == state_after(seed, rate_hz, (i + 1) as nat));
    }
}

/// After `i` steps a run stands at `state_after(seed, rate_hz, i)`: its tick
/// is the number of steps modulo 2^32, its seed is the one given to `init`,
/// and its rate is the effective one, which is never zero.
pub proof fn lemma_run_state(
    trace: Seq<SimView>,
    seed: u32,
    rate_hz: u32,
    inputs: Seq<Seq<u8>>,
    i: int,
)
    requires
        is_run(trace, seed, rate_hz, inputs),
        0 <= i < trace.len(),
    ensures
        trace[i] == state_after(seed, rate_hz, i as nat),
        trace[i].tick == i % (TICK_MODULUS as int),
        trace[i].seed == seed,
        trace[i].is_initialized(),
    decreases i,
{
    if i > 0 {
        lemma_run_state(trace, seed, rate_hz, inputs, i - 1);
        assert(trace[i] == trace[i - 1].step(inputs[i - 1]));
    }
}

/// Replay is deterministic: two runs from the same seed and rate over the same
/// input buffers pass through the same states, and so end in snapshots that
/// are equal byte for byte.
pub proof fn lemma_runs_agree(
    first: Seq<SimView>,
    second: Seq<SimView>,
    seed: u32,
    rate_hz: u32,
    inputs: Seq<Seq<u8>>,
)
    requires
        is_run(first, seed, rate_hz, inputs),
        is_run(second, seed, rate_hz, inputs),
    ensures
        first == second,
        snapshot_bytes(first.last()) == snapshot_bytes(second.last()),
{
    assert forall|i: int| 0 <= i < first.len() implies first[i] == second[i] by {
        lemma_run_state(first, seed, rate_hz, inputs, i);
        lemma_run_state(second, seed, rate_hz, inputs, i);
    }
    assert(first =~= second);
}

/// The snapshot taken after `i` steps of a run holds the step count modulo
/// 2^32 in its first word and the seed of the run's `init` in its second.
pub proof fn lemma_run_snapshot(
    trace: Seq<SimView>,
    seed: u32,
    rate_hz: u32,
    inputs: Seq<Seq<u8>>,
    i: int,
)
    requires
        is_run(trace, seed, rate_hz, inputs),
        0 <= i < trace.len(),
    ensures
        snapshot_bytes(trace[i]) == le_bytes((i % (TICK_MODULUS as int)) as u32) + le_bytes(seed),
        le_value(snapshot_bytes(trace[i]).subrange(TICK_OFFSET as int, TICK_OFFSET + WORD_LEN))
            == i % (TICK_MODULUS as int),
        le_value(snapshot_bytes(trace[i]).subrange(SEED_OFFSET as int, SEED_OFFSET + WORD_LEN))
            == seed,
{
    lemma_run_state(trace, seed, rate_hz, inputs, i);
    crate::wire::lemma_snapshot_prefix(trace[i]);
}

} // verus!
