use vstd::prelude::*;

verus! {

use vstd::arithmetic::div_mod::{
    lemma_div_pos_is_pos, lemma_fundamental_div_mod, lemma_mod_division_less_than_divisor,
};

use crate::config::PLLSource;
use crate::error::ClockError;
use crate::time::{Hertz, HSI_FREQ};

/// A validated PLL frequency plan.
///
/// Well-formedness (established by [`solve`]): the VCO input frequency lies
/// in [2.66 MHz, 16 MHz], the VCO output frequency lies in [96 MHz, 344 MHz]
/// and is an exact multiple of 48 MHz, and both output dividers are
/// encodable values from {2, 4, 6, 8}.
#[derive(Clone, Copy, PartialEq, Eq, Structural, Debug)]
pub struct PllPlan {
    /// Input divider (M); fixed at 4 in this design.
    pub m: u32,
    /// Feedback multiplier (N).
    pub n: u8,
    /// Output divider of the main ("R") tap; fixed at 2 in this design.
    pub r: u32,
    /// Output divider of the fixed-48 MHz ("Q") tap.
    pub q: u32,
    /// Hardware code of the R divider.
    pub r_flag: u8,
    /// Hardware code of the Q divider.
    pub q_flag: u8,
    /// Frequency at the VCO input: the input frequency divided by M.
    pub vco_input: Hertz,
    /// Frequency at the VCO output: the VCO input times N.
    pub vco_output: Hertz,
    /// Frequency of the main tap: the VCO output divided by R.
    pub output: Hertz,
}

/// The frequency an oscillator feeds into the PLL.
pub open spec fn spec_pll_input(src: PLLSource) -> int {
    match src {
        PLLSource::HSE(f) => f.0 as int,
        PLLSource::HSI16 => HSI_FREQ as int,
    }
}

/// The VCO input frequency: the PLL input divided by the fixed divider 4.
pub open spec fn spec_vco_input(input: int) -> int {
    input / 4
}

/// Whether the VCO input frequency lies in the valid window [2.66 MHz, 16 MHz].
pub open spec fn vco_input_valid(input: int) -> bool {
    2_660_000 <= spec_vco_input(input) <= 16_000_000
}

/// The feedback multiplier N: the doubled target divided by the VCO input,
/// truncated. The truncation means the achieved frequency may fall short of
/// the requested target; that inexactness is part of the design.
pub open spec fn spec_plln(input: int, target: int) -> int {
    (target * 2) / spec_vco_input(input)
}

/// The VCO output frequency: the VCO input multiplied by N.
pub open spec fn spec_vco_output(input: int, target: int) -> int {
    spec_vco_input(input) * spec_plln(input, target)
}

/// Whether the VCO output frequency lies in the valid window [96 MHz, 344 MHz].
pub open spec fn vco_output_valid(input: int, target: int) -> bool {
    96_000_000 <= spec_vco_output(input, target) <= 344_000_000
}

/// Whether the VCO output can serve the fixed 48 MHz tap exactly.
pub open spec fn tap_achievable(input: int, target: int) -> bool {
    spec_vco_output(input, target) % 48_000_000 == 0
}

/// The Q divider: the VCO output divided by 48 MHz.
pub open spec fn spec_pllq(input: int, target: int) -> int {
    spec_vco_output(input, target) / 48_000_000
}

/// The frequency of the PLL's main tap: the VCO output divided by R = 2.
pub open spec fn spec_pll_output(input: int, target: int) -> int {
    spec_vco_output(input, target) / 2
}

/// Whether a divisor value has a hardware code: only 2, 4, 6 and 8 do.
pub open spec fn divisor_encodable(v: int) -> bool {
    v == 2 || v == 4 || v == 6 || v == 8
}

/// The 2-bit hardware code of an encodable R/Q divisor.
pub open spec fn spec_divisor_flag(v: int) -> u8 {
    if v == 2 {
        0
    } else if v == 4 {
        1
    } else if v == 6 {
        2
    } else {
        3
    }
}

/// The R/Q divisor a 2-bit hardware code stands for.
pub open spec fn spec_flag_divisor(f: u8) -> u32 {
    if f == 0 {
        2
    } else if f == 1 {
        4
    } else if f == 2 {
        6
    } else {
        8
    }
}

/// Whether the solver succeeds on the given input and target frequencies:
/// both VCO frequencies in their windows, the 48 MHz tap served exactly,
/// and the resulting Q divider encodable.
pub open spec fn pll_solvable(input: int, target: int) -> bool {
    &&& vco_input_valid(input)
    &&& vco_output_valid(input, target)
    &&& tap_achievable(input, target)
    &&& divisor_encodable(spec_pllq(input, target))
}

/// Whether a plan is exactly the one the solver derives for the given
/// input and target frequencies.
pub open spec fn plan_matches(p: PllPlan, input: int, target: int) -> bool {
    &&& p.m == 4
    &&& p.n == spec_plln(input, target)
    &&& p.r == 2
    &&& p.q == spec_pllq(input, target)
    &&& p.r_flag == spec_divisor_flag(2)
    &&& p.q_flag == spec_divisor_flag(spec_pllq(input, target))
    &&& p.vco_input.0 == spec_vco_input(input)
    &&& p.vco_output.0 == spec_vco_output(input, target)
    &&& p.output.0 == spec_pll_output(input, target)
}

/// Encode an R divider as its 2-bit hardware code. Any value outside
/// {2, 4, 6, 8} is a solver defect and fails validation rather than being
/// silently accepted.
pub fn pllr_flag(pllr: u32) -> (r: Result<u8, ClockError>)
    ensures
        divisor_encodable(pllr as int) ==> (r matches Ok(f) && f == spec_divisor_flag(
            pllr as int,
        )),
        !divisor_encodable(pllr as int) ==> r == Err::<u8, ClockError>(
            ClockError::InvalidDivisorCode,
        ),
{
    match pllr {
        2 => Ok(0),
        4 => Ok(1),
        6 => Ok(2),
        8 => Ok(3),
        _ => Err(ClockError::InvalidDivisorCode),
    }
}

/// Encode a Q divider as its 2-bit hardware code. Any value outside
/// {2, 4, 6, 8} is a solver defect and fails validation rather than being
/// silently accepted.
pub fn pllq_flag(pllq: u32) -> (r: Result<u8, ClockError>)
    ensures
        divisor_encodable(pllq as int) ==> (r matches Ok(f) && f == spec_divisor_flag(
            pllq as int,
        )),
        !divisor_encodable(pllq as int) ==> r == Err::<u8, ClockError>(
            ClockError::InvalidDivisorCode,
        ),
{
    match pllq {
        2 => Ok(0),
        4 => Ok(1),
        6 => Ok(2),
        8 => Ok(3),
        _ => Err(ClockError::InvalidDivisorCode),
    }
}

/// Decode a 2-bit hardware code back to the R/Q divisor it stands for.
pub fn divisor_from_flag(flag: u8) -> (r: u32)
    requires
        flag < 4,
    ensures
        r == spec_flag_divisor(flag),
{
    match flag {
        0 => 2,
        1 => 4,
        2 => 6,
        _ => 8,
    }
}

/// Every encodable R/Q divisor maps bijectively to its 2-bit hardware code:
/// decoding the code of any legal value gives the value back.
pub proof fn lemma_divisor_flag_round_trip(v: int)
    requires
        divisor_encodable(v),
    ensures
        spec_flag_divisor(spec_divisor_flag(v)) == v,
{
}

/// Solver validity: any plan the solver reports can be recomputed from its
/// own fields — the VCO input is the input frequency divided by 4 and lies
/// in its window, the VCO output is the VCO input times the multiplier and
/// lies in its window, dividing the VCO output by R reproduces the reported
/// main output frequency, and dividing it by Q yields exactly 48 MHz.
pub proof fn lemma_solver_validity(plan: PllPlan, input: int, target: int)
    requires
        pll_solvable(input, target),
        plan_matches(plan, input, target),
    ensures
        plan.vco_input.0 == input / 4,
        2_660_000 <= plan.vco_input.0 <= 16_000_000,
        plan.vco_output.0 == plan.vco_input.0 * plan.n,
        96_000_000 <= plan.vco_output.0 <= 344_000_000,
        plan.output.0 == plan.vco_output.0 as int / plan.r as int,
        plan.q * 48_000_000 == plan.vco_output.0,
{
    lemma_fundamental_div_mod(plan.vco_output.0 as int, 48_000_000);
}

/// The PLL solver: turn an input oscillator frequency and a target output
/// frequency into a validated divider/multiplier plan, or the validation
/// failure that rules it out.
///
/// The design point is fixed, not searched: the input divider M is 4 and the
/// main output divider R is 2. The feedback multiplier is computed with
/// truncating integer division, so the achieved output may differ from the
/// requested target by the rounding error; for low targets the truncation can
/// drive the VCO output to zero, which fails the output-window check.
pub fn solve(input: Hertz, target: Hertz) -> (r: Result<PllPlan, ClockError>)
    requires
        2 * target.0 <= u32::MAX,
    ensures
        r is Ok <==> pll_solvable(input.0 as int, target.0 as int),
        r matches Ok(plan) ==> plan_matches(plan, input.0 as int, target.0 as int),
        !vco_input_valid(input.0 as int) ==> r == Err::<PllPlan, ClockError>(
            ClockError::InvalidVcoInput,
        ),
        vco_input_valid(input.0 as int) && !vco_output_valid(input.0 as int, target.0 as int)
            ==> r == Err::<PllPlan, ClockError>(ClockError::InvalidVcoOutput),
        vco_input_valid(input.0 as int) && vco_output_valid(input.0 as int, target.0 as int)
            && !tap_achievable(input.0 as int, target.0 as int) ==> r == Err::<
            PllPlan,
            ClockError,
        >(ClockError::Unachievable48MHzTap),
        vco_input_valid(input.0 as int) && vco_output_valid(input.0 as int, target.0 as int)
            && tap_achievable(input.0 as int, target.0 as int) && !divisor_encodable(
            spec_pllq(input.0 as int, target.0 as int),
        ) ==> r == Err::<PllPlan, ClockError>(ClockError::InvalidDivisorCode),
{
    let pllm: u32 = 4;
    let vco_input: u32 = input.0 / pllm;

    if vco_input > 16_000_000 {
        return Err(ClockError::InvalidVcoInput);
    }
    if vco_input < 2_660_000 {
        return Err(ClockError::InvalidVcoInput);
    }

    let pllr: u32 = 2;
    let doubled: u32 = target.0 * pllr;
    let plln: u32 = doubled / vco_input;

    proof {
        // The product vco_input * plln folds the division back, so it cannot
        // exceed the doubled target and fits in u32.
        lemma_fundamental_div_mod(doubled as int, vco_input as int);
        lemma_mod_division_less_than_divisor(doubled as int, vco_input as int);
        lemma_div_pos_is_pos(doubled as int, vco_input as int);
    }
    let vco_output: u32 = vco_input * plln;

    if vco_output > 344_000_000 {
        return Err(ClockError::InvalidVcoOutput);
    }
    if vco_output < 96_000_000 {
        return Err(ClockError::InvalidVcoOutput);
    }

    let r_output: u32 = vco_output / pllr;

    if vco_output % 48_000_000 != 0 {
        return Err(ClockError::Unachievable48MHzTap);
    }
    let pllq: u32 = vco_output / 48_000_000;

    let q_flag: u8 = match pllq_flag(pllq) {
        Ok(f) => f,
        Err(e) => {
            return Err(e);
        },
    };
    let r_flag: u8 = match pllr_flag(pllr) {
        Ok(f) => f,
        Err(e) => {
            return Err(e);
        },
    };

    proof {
        // The multiplier fits the hardware field: from
        // plln * 2_660_000 <= plln * vco_input = vco_output <= 344 MHz
        // it is at most 129.
        assert(plln as int * 2_660_000 <= plln as int * vco_input as int) by (nonlinear_arith)
            requires
                plln as int >= 0,
                vco_input as int >= 2_660_000,
        ;
        assert(plln <= 129);
    }

    Ok(
        PllPlan {
            m: pllm,
            n: plln as u8,
            r: pllr,
            q: pllq,
            r_flag,
            q_flag,
            vco_input: Hertz(vco_input),
            vco_output: Hertz(vco_output),
            output: Hertz(r_output),
        },
    )
}

} // verus!
