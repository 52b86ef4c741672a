use clock_tree::{
    init, AHBPrescaler, APBPrescaler, ClockError, ClockSrc, Config, Hertz, PLLSource,
    RegisterBlock, HSI_FREQ,
};

fn base_config(mux: ClockSrc) -> Config {
    Config {
        mux,
        ahb_pre: AHBPrescaler::NotDivided,
        apb1_pre: APBPrescaler::NotDivided,
        apb2_pre: APBPrescaler::NotDivided,
        low_power_run: false,
    }
}

#[test]
fn default_config_runs_on_internal_oscillator() {
    let mut regs = RegisterBlock::new();
    let clocks = init(Config::default(), &mut regs).unwrap();
    assert_eq!(clocks.sys, Hertz(HSI_FREQ));
    assert_eq!(clocks.ahb1, Hertz(HSI_FREQ));
    assert_eq!(clocks.ahb2, Hertz(HSI_FREQ));
    assert_eq!(clocks.apb1, Hertz(HSI_FREQ));
    assert_eq!(clocks.apb1_tim, Hertz(HSI_FREQ));
    assert_eq!(clocks.apb2, Hertz(HSI_FREQ));
    assert_eq!(clocks.apb2_tim, Hertz(HSI_FREQ));
    assert!(regs.hsion && regs.hsirdy);
    assert_eq!(regs.sw, 0x01);
    assert_eq!(regs.sws, 0x01);
    assert!(!regs.lpr);
}

#[test]
fn internal_with_prescalers() {
    // 16 MHz system clock, AHB divided by 2, APB1 divided by 4.
    let mut config = base_config(ClockSrc::HSI16);
    config.ahb_pre = AHBPrescaler::Div2;
    config.apb1_pre = APBPrescaler::Div4;
    let mut regs = RegisterBlock::new();
    let clocks = init(config, &mut regs).unwrap();
    assert_eq!(clocks.sys, Hertz(16_000_000));
    assert_eq!(clocks.ahb1, Hertz(8_000_000));
    assert_eq!(clocks.ahb2, Hertz(8_000_000));
    assert_eq!(clocks.apb1, Hertz(2_000_000));
    assert_eq!(clocks.apb1_tim, Hertz(4_000_000));
    assert_eq!(clocks.apb2, Hertz(8_000_000));
    assert_eq!(clocks.apb2_tim, Hertz(8_000_000));
    assert_eq!(regs.hpre, 0x08);
    assert_eq!(regs.ppre1, 0x05);
    assert_eq!(regs.ppre2, 0x01);
}

#[test]
fn external_oscillator_direct() {
    let mut regs = RegisterBlock::new();
    let clocks = init(base_config(ClockSrc::HSE(Hertz(24_000_000))), &mut regs).unwrap();
    assert_eq!(clocks.sys, Hertz(24_000_000));
    assert!(regs.hseon && regs.hserdy);
    assert_eq!(regs.sw, 0x02);
    assert_eq!(regs.sws, 0x02);
}

#[test]
fn pll_48mhz_from_internal() {
    let mut regs = RegisterBlock::new();
    let config = base_config(ClockSrc::PLL(PLLSource::HSI16, Hertz(48_000_000)));
    let clocks = init(config, &mut regs).unwrap();
    assert_eq!(clocks.sys, Hertz(48_000_000));
    assert!(regs.hsion && regs.hsirdy);
    assert!(regs.pllon && regs.pllrdy);
    assert!(regs.pllren && regs.pllqen);
    assert_eq!(regs.pllsrc, 0b10);
    assert_eq!(regs.pllm, 3);
    assert_eq!(regs.plln, 24);
    assert_eq!(regs.pllr, 0);
    assert_eq!(regs.pllq, 0);
    assert_eq!(regs.clk48sel, 0b10);
    assert_eq!(regs.sw, 0x03);
    assert_eq!(regs.sws, 0x03);
}

#[test]
fn pll_from_external_oscillator() {
    // 32 MHz / 4 = 8 MHz; N = 96 MHz * 2 / 8 MHz = 24; VCO output 192 MHz;
    // Q = 4; main output 96 MHz.
    let mut regs = RegisterBlock::new();
    let config = base_config(ClockSrc::PLL(PLLSource::HSE(Hertz(32_000_000)), Hertz(96_000_000)));
    let clocks = init(config, &mut regs).unwrap();
    assert_eq!(clocks.sys, Hertz(96_000_000));
    assert!(regs.hseon && regs.hserdy);
    assert_eq!(regs.pllsrc, 0b11);
    assert_eq!(regs.plln, 24);
    assert_eq!(regs.pllq, 1);
    assert_eq!(regs.sws, 0x03);
}

#[test]
fn rejected_plan_leaves_registers_untouched() {
    let mut regs = RegisterBlock::new();
    let config = base_config(ClockSrc::PLL(PLLSource::HSI16, Hertz(1_000_000)));
    let r = init(config, &mut regs);
    assert_eq!(r, Err(ClockError::InvalidVcoOutput));
    assert_eq!(regs, RegisterBlock::new());
}

#[test]
fn low_power_run_at_1mhz_succeeds() {
    let mut config = base_config(ClockSrc::HSE(Hertz(1_000_000)));
    config.low_power_run = true;
    let mut regs = RegisterBlock::new();
    let clocks = init(config, &mut regs).unwrap();
    assert_eq!(clocks.sys, Hertz(1_000_000));
    assert!(regs.lpr);
}

#[test]
fn low_power_run_at_4mhz_is_fatal() {
    let mut config = base_config(ClockSrc::HSE(Hertz(4_000_000)));
    config.low_power_run = true;
    let mut regs = RegisterBlock::new();
    let r = init(config, &mut regs);
    assert_eq!(r, Err(ClockError::LowPowerFrequencyExceeded));
    assert_eq!(regs, RegisterBlock::new());
}
