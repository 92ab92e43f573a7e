//! The kernel's state and the operations that read and advance it.

use vstd::prelude::*;

verus! {

/// The update rate that `init` stores when it is asked for a rate of zero.
pub const DEFAULT_RATE_HZ: u32 = 60;

/// Number of distinct tick values; the tick counter is kept modulo this.
pub const TICK_MODULUS: u64 = 0x1_0000_0000;

/// The tick that follows `tick`: one more, wrapping to zero past the largest
/// 32-bit value.
pub open spec fn next_tick(tick: u32) -> u32 {
    ((tick + 1) % (TICK_MODULUS as int)) as u32
}

/// The rate that is in effect when `rate_hz` is requested: a request of zero
/// selects [`DEFAULT_RATE_HZ`], any other request is taken as it is.
pub open spec fn effective_rate(rate_hz: u32) -> u32 {
    if rate_hz == 0 {
        DEFAULT_RATE_HZ
    } else {
        rate_hz
    }
}

/// The mathematical model of a [`SimulationState`].
pub ghost struct SimView {
    /// Steps completed since the last `init`, modulo [`TICK_MODULUS`].
    pub tick: u32,
    /// Randomness seed fixed by the last `init`.
    pub seed: u32,
    /// Nominal update frequency; zero only while `init` has never run.
    pub rate_hz: u32,
}

impl SimView {
    /// The state of a kernel on which `init` has never run: every field zero.
    pub open spec fn zeroed() -> SimView {
        SimView { tick: 0, seed: 0, rate_hz: 0 }
    }

    /// The state that `init(seed, rate_hz)` leaves behind, whatever came before.
    pub open spec fn init(seed: u32, rate_hz: u32) -> SimView {
        SimView { tick: 0, seed, rate_hz: effective_rate(rate_hz) }
    }

    /// The state that follows `self` after one step fed with `input`.
    ///
    /// The kernel defines no input encoding of its own, so every buffer, empty
    /// or not, stands for "no input this tick": the step advances the tick and
    /// leaves the configuration alone.
    pub open spec fn step(self, input: Seq<u8>) -> SimView {
        SimView { tick: next_tick(self.tick), seed: self.seed, rate_hz: self.rate_hz }
    }

    /// Whether `init` has run at least once: it alone sets a non-zero rate, and
    /// nothing ever sets the rate back to zero.
    pub open spec fn is_initialized(self) -> bool {
        self.rate_hz != 0
    }
}

/// Whatever bytes a step is fed, it does what a step without input does: the
/// tick goes up by one modulo 2^32, seed and rate stay as they are, and an
/// initialised kernel stays initialised.
pub proof fn lemma_step_any_input(state: SimView, input: Seq<u8>)
    ensures
        state.step(input) == state.step(Seq::empty()),
        state.step(input).tick == (state.tick + 1) % (TICK_MODULUS as int),
        state.step(input).seed == state.seed,
        state.step(input).rate_hz == state.rate_hz,
        state.step(input).is_initialized() == state.is_initialized(),
{
}

/// The whole mutable state of one simulation, owned by the host's handle.
#[derive(Clone, Copy, Debug, PartialEq, Eq)]
pub struct SimulationState {
    tick: u32,
    seed: u32,
    rate_hz: u32,
}

impl View for SimulationState {
    type V = SimView;

    closed spec fn view(&self) -> SimView {
        SimView { tick: self.tick, seed: self.seed, rate_hz: self.rate_hz }
    }
}

impl SimulationState {
    /// A kernel on which `init` has not run yet; every operation is already
    /// defined on it.
    pub fn new() -> (state: SimulationState)
        ensures
            state@ == SimView::zeroed(),
    {
        SimulationState { tick: 0, seed: 0, rate_hz: 0 }
    }

    /// The seed given to the last `init`, or zero before the first one.
    pub fn seed(&self) -> (seed: u32)
        ensures
            seed == self@.seed,
    {
        self.seed
    }

    /// The update rate in effect, or zero before the first `init`.
    pub fn rate_hz(&self) -> (rate_hz: u32)
        ensures
            rate_hz == self@.rate_hz,
    {
        self.rate_hz
    }
}

impl Default for SimulationState {
    fn default() -> (state: SimulationState)
        ensures
            state@ == SimView::zeroed(),
    {
        SimulationState::new()
    }
}

/// Re-initialises the simulation: the tick goes back to zero, `seed` is stored
/// as given, and `rate_hz` is stored unless it is zero, which selects
/// [`DEFAULT_RATE_HZ`]. Nothing of the earlier state survives.
pub fn init(state: &mut SimulationState, seed: u32, rate_hz: u32)
    ensures
        final(state)@ == SimView::init(seed, rate_hz),
        final(state)@.is_initialized(),
{
    state.seed = seed;
    state.rate_hz = if rate_hz == 0 {
        DEFAULT_RATE_HZ
    } else {
        rate_hz
    };
    state.tick = 0;
}

/// The number of steps completed since the last `init`, modulo
/// [`TICK_MODULUS`]; zero on a kernel that was never initialised or stepped.
pub fn current_tick(state: &SimulationState) -> (tick: u32)
    ensures
        tick == state@.tick,
{
    state.tick
}

/// Advances the simulation by exactly one tick, fed with the bytes of `inputs`.
///
/// Any buffer is accepted, the empty one included. The tick wraps past the
/// largest 32-bit value instead of overflowing; seed and rate are untouched.
pub fn step(state: &mut SimulationState, inputs: &[u8])
    ensures
        final(state)@ == old(state)@.step(inputs@),
{
    state.tick = state.tick.wrapping_add(1);
}

} // verus!
