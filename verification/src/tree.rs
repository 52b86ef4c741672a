use vstd::prelude::*;

verus! {

use crate::bus::{
    ahb_frequency, apb_frequencies, spec_ahb_freq, spec_apb_freq, spec_apb_tim_freq,
};
use crate::clocks::Clocks;
use crate::config::{
    spec_ahb_code, spec_apb_code, AHBPrescaler, APBPrescaler, ClockSrc, Config, PLLSource,
};
use crate::error::ClockError;
use crate::pll::{
    plan_matches, pll_solvable, solve, spec_divisor_flag, spec_pll_input, spec_pll_output,
    spec_plln, spec_pllq, tap_achievable, vco_input_valid, vco_output_valid, PllPlan,
};
use crate::registers::RegisterBlock;
use crate::time::{Hertz, HSI_FREQ};

/// The 2-bit source-select code a clock source is committed under.
pub open spec fn spec_sw_code(mux: ClockSrc) -> u8 {
    match mux {
        ClockSrc::HSI16 => 0x01,
        ClockSrc::HSE(_) => 0x02,
        ClockSrc::PLL(_, _) => 0x03,
    }
}

/// The 2-bit code selecting a PLL input source.
pub open spec fn spec_pllsrc_code(src: PLLSource) -> u8 {
    match src {
        PLLSource::HSE(_) => 0b11,
        PLLSource::HSI16 => 0b10,
    }
}

/// The system frequency a clock source yields: the fixed 16 MHz for the
/// internal oscillator, the board-supplied frequency for the external one,
/// and the solver's main-tap output for the PLL.
pub open spec fn spec_sys_clk(mux: ClockSrc) -> int {
    match mux {
        ClockSrc::HSI16 => HSI_FREQ as int,
        ClockSrc::HSE(f) => f.0 as int,
        ClockSrc::PLL(src, target) => spec_pll_output(spec_pll_input(src), target.0 as int),
    }
}

/// Whether a clock source can be activated: the internal and external
/// oscillators always can; a PLL source needs a solvable frequency plan.
pub open spec fn source_valid(mux: ClockSrc) -> bool {
    mux matches ClockSrc::PLL(src, target) ==> pll_solvable(
        spec_pll_input(src),
        target.0 as int,
    )
}

/// The validation failure that rules an unactivatable source out: the first
/// check of the solver's fixed order that fails.
pub open spec fn spec_source_error(mux: ClockSrc) -> ClockError {
    match mux {
        ClockSrc::PLL(src, target) => {
            let input = spec_pll_input(src);
            let t = target.0 as int;
            if !vco_input_valid(input) {
                ClockError::InvalidVcoInput
            } else if !vco_output_valid(input, t) {
                ClockError::InvalidVcoOutput
            } else if !tap_achievable(input, t) {
                ClockError::Unachievable48MHzTap
            } else {
                ClockError::InvalidDivisorCode
            }
        },
        _ => ClockError::InvalidVcoInput,
    }
}

/// Whether a whole configuration passes validation: the source activatable
/// and, if low-power run is requested, the resulting system frequency at
/// most 2 MHz.
pub open spec fn config_valid(c: Config) -> bool {
    &&& source_valid(c.mux)
    &&& (c.low_power_run ==> spec_sys_clk(c.mux) <= 2_000_000)
}

/// The validation failure an invalid configuration is rejected with: source
/// failures first, the low-power gate after them.
pub open spec fn spec_config_error(c: Config) -> ClockError {
    if !source_valid(c.mux) {
        spec_source_error(c.mux)
    } else {
        ClockError::LowPowerFrequencyExceeded
    }
}

/// The frequency plan a valid configuration publishes.
pub open spec fn spec_clocks(c: Config) -> Clocks {
    let sys = spec_sys_clk(c.mux);
    let ahb = spec_ahb_freq(sys, c.ahb_pre);
    Clocks {
        sys: Hertz(sys as u32),
        ahb1: Hertz(ahb as u32),
        ahb2: Hertz(ahb as u32),
        apb1: Hertz(spec_apb_freq(ahb, c.apb1_pre) as u32),
        apb1_tim: Hertz(spec_apb_tim_freq(ahb, c.apb1_pre) as u32),
        apb2: Hertz(spec_apb_freq(ahb, c.apb2_pre) as u32),
        apb2_tim: Hertz(spec_apb_tim_freq(ahb, c.apb2_pre) as u32),
    }
}

/// The validated activation plan for a clock source: the system frequency it
/// yields, its source-select code, and the PLL plan where the source is the
/// PLL.
#[derive(Clone, Copy, PartialEq, Eq, Structural, Debug)]
pub struct SourcePlan {
    pub sys: Hertz,
    pub sw: u8,
    pub pll: Option<PllPlan>,
}

/// Whether a plan is exactly the one planning derives for a source.
pub open spec fn source_plan_matches(p: SourcePlan, mux: ClockSrc) -> bool {
    &&& p.sys.0 == spec_sys_clk(mux)
    &&& p.sw == spec_sw_code(mux)
    &&& match mux {
        ClockSrc::PLL(src, target) => p.pll matches Some(plan) && plan_matches(
            plan,
            spec_pll_input(src),
            target.0 as int,
        ),
        _ => p.pll is None,
    }
}

/// The planning half of the clock source activator: validate the source and
/// derive its activation plan, without touching any register. For the PLL
/// case this invokes the solver; its validation failures pass through.
pub fn plan_source(mux: ClockSrc) -> (r: Result<SourcePlan, ClockError>)
    requires
        mux matches ClockSrc::PLL(_, target) ==> 2 * target.0 <= u32::MAX,
    ensures
        r is Ok <==> source_valid(mux),
        r matches Ok(p) ==> source_plan_matches(p, mux),
        r matches Err(e) ==> e == spec_source_error(mux),
{
    match mux {
        ClockSrc::HSI16 => Ok(SourcePlan { sys: Hertz(HSI_FREQ), sw: 0x01, pll: None }),
        ClockSrc::HSE(freq) => Ok(SourcePlan { sys: freq, sw: 0x02, pll: None }),
        ClockSrc::PLL(source, target) => {
            let pll_input: Hertz = match source {
                PLLSource::HSE(freq) => freq,
                PLLSource::HSI16 => Hertz::mhz(16),
            };
            match solve(pll_input, target) {
                Ok(plan) => Ok(SourcePlan { sys: plan.output, sw: 0x03, pll: Some(plan) }),
                Err(e) => Err(e),
            }
        },
    }
}

/// The low-power gate: a requested low-power run is permitted only when the
/// resulting system frequency is at most 2 MHz; above that the configuration
/// is rejected before any register is written.
pub fn low_power_gate(sys: Hertz, requested: bool) -> (r: Result<(), ClockError>)
    ensures
        r is Ok <==> (requested ==> sys.0 <= 2_000_000),
        r is Err ==> r == Err::<(), ClockError>(ClockError::LowPowerFrequencyExceeded),
{
    if requested && sys.0 > 2_000_000 {
        Err(ClockError::LowPowerFrequencyExceeded)
    } else {
        Ok(())
    }
}

/// The hardware half of the clock source activator: bring the selected
/// oscillator from off through enabling to ready, confirmed by the hardware;
/// for the PLL, first bring its input oscillator to ready the same way, then
/// program the divider/multiplier fields and tap enables, enable the PLL,
/// wait for its lock, and route the fixed 48 MHz tap to the peripheral
/// clock-select mux.
pub fn commit_source(mux: ClockSrc, plan: &SourcePlan, regs: &mut RegisterBlock)
    requires
        source_plan_matches(*plan, mux),
    ensures
        mux is HSI16 ==> (*final(regs) == RegisterBlock {
            hsion: true,
            hsirdy: true,
            ..*old(regs)
        }),
        mux matches ClockSrc::HSE(_) ==> (*final(regs) == RegisterBlock {
            hseon: true,
            hserdy: true,
            ..*old(regs)
        }),
        mux matches ClockSrc::PLL(src, _) ==> plan.pll matches Some(p) && (*final(regs)
            == RegisterBlock {
            hsion: src is HSI16 || old(regs).hsion,
            hsirdy: src is HSI16 || old(regs).hsirdy,
            hseon: src is HSE || old(regs).hseon,
            hserdy: src is HSE || old(regs).hserdy,
            pllsrc: spec_pllsrc_code(src),
            pllm: 3,
            plln: p.n,
            pllr: p.r_flag,
            pllren: true,
            pllq: p.q_flag,
            pllqen: true,
            pllon: true,
            pllrdy: true,
            clk48sel: 0b10,
            ..*old(regs)
        }),
{
    match mux {
        ClockSrc::HSI16 => {
            regs.set_hsion(true);
            regs.wait_hsi_ready();
        },
        ClockSrc::HSE(_) => {
            regs.set_hseon(true);
            regs.wait_hse_ready();
        },
        ClockSrc::PLL(source, _) => {
            let pllsrc: u8 = match source {
                PLLSource::HSE(_) => {
                    regs.set_hseon(true);
                    regs.wait_hse_ready();
                    0b11
                },
                PLLSource::HSI16 => {
                    regs.set_hsion(true);
                    regs.wait_hsi_ready();
                    0b10
                },
            };
            match &plan.pll {
                Some(p) => {
                    regs.pllcfgr_write(pllsrc, 3, p.n, p.r_flag, true, p.q_flag, true);
                    regs.set_pllon(true);
                    regs.wait_pll_ready();
                    regs.set_clk48sel(0b10);
                },
                None => {
                    // A PLL source always carries a plan; the precondition
                    // rules this arm out.
                    proof {
                        assert(false);
                    }
                },
            }
        },
    }
}

/// The clock switch sequencer: commit the activated source selection and the
/// three prescalers to the mux register in one write, then wait until the
/// status field confirms the requested selection.
pub fn commit_switch(
    sw: u8,
    ahb_pre: AHBPrescaler,
    apb1_pre: APBPrescaler,
    apb2_pre: APBPrescaler,
    regs: &mut RegisterBlock,
)
    requires
        sw < 4,
    ensures
        (*final(regs) == RegisterBlock {
            sw,
            hpre: spec_ahb_code(ahb_pre),
            ppre1: spec_apb_code(apb1_pre),
            ppre2: spec_apb_code(apb2_pre),
            sws: sw,
            ..*old(regs)
        }),
{
    regs.cfgr_modify(sw, ahb_pre.code(), apb1_pre.code(), apb2_pre.code());
    regs.wait_switch();
}

/// Whether the register file shows the selected source enabled and confirmed
/// ready, with the PLL fully programmed where the source is the PLL.
pub open spec fn source_committed(regs: RegisterBlock, mux: ClockSrc) -> bool {
    match mux {
        ClockSrc::HSI16 => regs.hsion && regs.hsirdy,
        ClockSrc::HSE(_) => regs.hseon && regs.hserdy,
        ClockSrc::PLL(src, target) => {
            let input = spec_pll_input(src);
            let t = target.0 as int;
            &&& regs.pllon
            &&& regs.pllrdy
            &&& regs.pllren
            &&& regs.pllqen
            &&& regs.pllsrc == spec_pllsrc_code(src)
            &&& regs.pllm == 3
            &&& regs.plln == spec_plln(input, t)
            &&& regs.pllr == spec_divisor_flag(2)
            &&& regs.pllq == spec_divisor_flag(spec_pllq(input, t))
            &&& regs.clk48sel == 0b10
            &&& (src is HSI16 ==> regs.hsion && regs.hsirdy)
            &&& (src is HSE ==> regs.hseon && regs.hserdy)
        },
    }
}

/// Whether the register file shows the source selection and the three
/// prescalers committed to the mux register, with the switch confirmed.
pub open spec fn switch_committed(regs: RegisterBlock, c: Config) -> bool {
    &&& regs.sw == spec_sw_code(c.mux)
    &&& regs.sws == spec_sw_code(c.mux)
    &&& regs.hpre == spec_ahb_code(c.ahb_pre)
    &&& regs.ppre1 == spec_apb_code(c.apb1_pre)
    &&& regs.ppre2 == spec_apb_code(c.apb2_pre)
}

/// Configure the clock tree: validate the whole configuration, and only then
/// activate the selected source, switch the system clock to it, derive the
/// bus-domain frequencies and return the resulting frequency plan.
///
/// Validation is strictly ahead of commitment: a rejected configuration
/// returns its error with every register untouched, so the hardware is never
/// left partially reconfigured.
pub fn init(config: Config, regs: &mut RegisterBlock) -> (r: Result<Clocks, ClockError>)
    requires
        config.mux matches ClockSrc::PLL(_, target) ==> 2 * target.0 <= u32::MAX,
    ensures
        r is Ok <==> config_valid(config),
        r matches Err(e) ==> e == spec_config_error(config) && *final(regs) == *old(regs),
        r matches Ok(c) ==> c == spec_clocks(config),
        r is Ok ==> switch_committed(*final(regs), config),
        r is Ok ==> final(regs).lpr == (config.low_power_run || old(regs).lpr),
        r is Ok ==> source_committed(*final(regs), config.mux),
{
    // Validate everything before the first register write.
    let plan: SourcePlan = match plan_source(config.mux) {
        Ok(p) => p,
        Err(e) => {
            return Err(e);
        },
    };
    match low_power_gate(plan.sys, config.low_power_run) {
        Ok(()) => (),
        Err(e) => {
            return Err(e);
        },
    }

    // Commit: activate the source, then switch the system clock to it.
    commit_source(config.mux, &plan, regs);
    commit_switch(plan.sw, config.ahb_pre, config.apb1_pre, config.apb2_pre, regs);

    // Derive the bus-domain frequencies from the confirmed system frequency.
    let ahb = ahb_frequency(plan.sys, config.ahb_pre);
    let (apb1, apb1_tim) = apb_frequencies(ahb, config.apb1_pre);
    let (apb2, apb2_tim) = apb_frequencies(ahb, config.apb2_pre);

    // The low-power step runs only after the switch is confirmed.
    if config.low_power_run {
        regs.set_lpr(true);
    }

    Ok(
        Clocks {
            sys: plan.sys,
            ahb1: ahb,
            ahb2: ahb,
            apb1,
            apb1_tim,
            apb2,
            apb2_tim,
        },
    )
}

} // verus!
