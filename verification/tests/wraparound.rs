use wasm_sim::{current_tick, init, snapshot, step, SimulationState};

#[test]
fn tick_wraps_to_zero_after_two_to_the_thirty_two_steps() {
    let mut state = SimulationState::new();
    init(&mut state, 0xcafe, 60);
    let mut n: u32 = 0;
    while n < u32::MAX {
        step(&mut state, &[]);
        n += 1;
    }
    assert_eq!(current_tick(&state), u32::MAX);
    assert_eq!(snapshot(&state), vec![0xffu8, 0xff, 0xff, 0xff, 0xfe, 0xca, 0, 0]);
    step(&mut state, &[]);
    assert_eq!(current_tick(&state), 0);
    assert_eq!(state.seed(), 0xcafe);
    assert_eq!(state.rate_hz(), 60);
    assert_eq!(snapshot(&state), vec![0u8, 0, 0, 0, 0xfe, 0xca, 0, 0]);
    step(&mut state, &[]);
    assert_eq!(current_tick(&state), 1);
}
