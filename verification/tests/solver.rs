use clock_tree::{solve, ClockError, Hertz};

#[test]
fn solves_48mhz_from_internal_16mhz() {
    let plan = solve(Hertz(16_000_000), Hertz(48_000_000)).unwrap();
    assert_eq!(plan.m, 4);
    assert_eq!(plan.vco_input, Hertz(4_000_000));
    assert_eq!(plan.r, 2);
    assert_eq!(plan.n, 24);
    assert_eq!(plan.vco_output, Hertz(96_000_000));
    assert_eq!(plan.q, 2);
    assert_eq!(plan.r_flag, 0);
    assert_eq!(plan.q_flag, 0);
    assert_eq!(plan.output, Hertz(48_000_000));
}

#[test]
fn success_reproduces_reported_output() {
    let input = Hertz(16_000_000);
    let plan = solve(input, Hertz(48_000_000)).unwrap();
    let vco_input = input.0 / 4;
    assert!((2_660_000..=16_000_000).contains(&vco_input));
    let vco_output = vco_input * u32::from(plan.n);
    assert!((96_000_000..=344_000_000).contains(&vco_output));
    assert_eq!(vco_output / plan.r, plan.output.0);
    assert_eq!(vco_output / plan.q, 48_000_000);
}

#[test]
fn low_target_truncates_multiplier_to_zero() {
    // target 1 MHz gives N = 1 MHz * 2 / 4 MHz = 0 by truncation, so the
    // VCO output is 0 Hz and fails the output window.
    let r = solve(Hertz(16_000_000), Hertz(1_000_000));
    assert_eq!(r, Err(ClockError::InvalidVcoOutput));
}

#[test]
fn vco_input_window_enforced() {
    // 8 MHz / 4 = 2 MHz, below 2.66 MHz.
    assert_eq!(
        solve(Hertz(8_000_000), Hertz(48_000_000)),
        Err(ClockError::InvalidVcoInput)
    );
    // 80 MHz / 4 = 20 MHz, above 16 MHz.
    assert_eq!(
        solve(Hertz(80_000_000), Hertz(48_000_000)),
        Err(ClockError::InvalidVcoInput)
    );
}

#[test]
fn vco_input_boundary_is_inclusive() {
    // 10_640_000 / 4 = 2_660_000 Hz sits exactly on the lower edge of the
    // input window, so the failure comes later, from the output window.
    assert_eq!(
        solve(Hertz(10_640_000), Hertz(48_000_000)),
        Err(ClockError::InvalidVcoOutput)
    );
    // One Hz less and the input window itself rejects the plan.
    assert_eq!(
        solve(Hertz(10_639_999), Hertz(48_000_000)),
        Err(ClockError::InvalidVcoInput)
    );
}

#[test]
fn vco_output_window_enforced() {
    // N = 200 MHz * 2 / 4 MHz = 100, VCO output 400 MHz, above 344 MHz.
    assert_eq!(
        solve(Hertz(16_000_000), Hertz(200_000_000)),
        Err(ClockError::InvalidVcoOutput)
    );
}

#[test]
fn unachievable_48mhz_tap_rejected() {
    // 64 MHz / 4 = 16 MHz; N = 56 MHz * 2 / 16 MHz = 7; VCO output 112 MHz
    // is inside the window but not a multiple of 48 MHz.
    assert_eq!(
        solve(Hertz(64_000_000), Hertz(56_000_000)),
        Err(ClockError::Unachievable48MHzTap)
    );
}

#[test]
fn odd_q_divisor_rejected() {
    // N = 72 MHz * 2 / 4 MHz = 36; VCO output 144 MHz is a multiple of
    // 48 MHz, but Q = 3 has no hardware code.
    assert_eq!(
        solve(Hertz(16_000_000), Hertz(72_000_000)),
        Err(ClockError::InvalidDivisorCode)
    );
}
