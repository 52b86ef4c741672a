use vstd::prelude::*;

verus! {

use vstd::arithmetic::div_mod::{
    lemma_div_pos_is_pos, lemma_fundamental_div_mod, lemma_mod_division_less_than_divisor,
};

use crate::config::{AHBPrescaler, APBPrescaler};
use crate::time::Hertz;

/// The divider an AHB prescaler applies, as the calculator derives it:
/// `1 << (code - 7)` for every dividing variant, the exact inverse of the
/// code formula. The hardware codes above `Div16` step over the ÷32 ratio,
/// so from `Div64` up the code-derived divider is half the variant's named
/// ratio; the calculator follows the formula.
pub open spec fn spec_ahb_divisor(p: AHBPrescaler) -> int {
    match p {
        AHBPrescaler::NotDivided => 1,
        AHBPrescaler::Div2 => 2,
        AHBPrescaler::Div4 => 4,
        AHBPrescaler::Div8 => 8,
        AHBPrescaler::Div16 => 16,
        AHBPrescaler::Div64 => 32,
        AHBPrescaler::Div128 => 64,
        AHBPrescaler::Div256 => 128,
        AHBPrescaler::Div512 => 256,
    }
}

/// The divider an APB prescaler applies.
pub open spec fn spec_apb_divisor(p: APBPrescaler) -> int {
    match p {
        APBPrescaler::NotDivided => 1,
        APBPrescaler::Div2 => 2,
        APBPrescaler::Div4 => 4,
        APBPrescaler::Div8 => 8,
        APBPrescaler::Div16 => 16,
    }
}

/// The AHB domain frequency derived from the system frequency.
pub open spec fn spec_ahb_freq(sys: int, p: AHBPrescaler) -> int {
    sys / spec_ahb_divisor(p)
}

/// The peripheral-clock frequency of an APB domain derived from the AHB
/// frequency.
pub open spec fn spec_apb_freq(ahb: int, p: APBPrescaler) -> int {
    ahb / spec_apb_divisor(p)
}

/// The timer-clock frequency of an APB domain. With a non-unity APB
/// prescaler the timer clock runs at twice the divided peripheral clock,
/// keeping the timer input stable relative to AHB; undivided, it equals the
/// AHB frequency.
pub open spec fn spec_apb_tim_freq(ahb: int, p: APBPrescaler) -> int {
    if p is NotDivided {
        ahb
    } else {
        2 * spec_apb_freq(ahb, p)
    }
}

/// Derive the AHB domain frequency from the confirmed system frequency.
///
/// For a dividing prescaler the divider is recovered from the hardware code
/// as `1 << (code - 7)`; the body proves that this formula is exactly the
/// inverse of the AHB code table.
pub fn ahb_frequency(sys: Hertz, pre: AHBPrescaler) -> (r: Hertz)
    ensures
        r.0 == spec_ahb_freq(sys.0 as int, pre),
{
    match pre {
        AHBPrescaler::NotDivided => {
            assert(sys.0 as int / 1 == sys.0 as int);
            sys
        },
        _ => {
            let code: u8 = pre.code();
            let div: u32 = 1u32 << (code as u32 - 7);
            proof {
                assert(1u32 << 1 == 2) by (bit_vector);
                assert(1u32 << 2 == 4) by (bit_vector);
                assert(1u32 << 3 == 8) by (bit_vector);
                assert(1u32 << 4 == 16) by (bit_vector);
                assert(1u32 << 5 == 32) by (bit_vector);
                assert(1u32 << 6 == 64) by (bit_vector);
                assert(1u32 << 7 == 128) by (bit_vector);
                assert(1u32 << 8 == 256) by (bit_vector);
                assert(div == spec_ahb_divisor(pre));
            }
            Hertz(sys.0 / div)
        },
    }
}

/// Derive an APB domain's peripheral-clock and timer-clock frequencies from
/// the AHB frequency. Undivided, both equal the AHB frequency; otherwise the
/// peripheral clock is AHB divided by the prescaler (recovered from the
/// hardware code as `1 << (code - 3)`) and the timer clock is twice that.
pub fn apb_frequencies(ahb: Hertz, pre: APBPrescaler) -> (r: (Hertz, Hertz))
    ensures
        r.0.0 == spec_apb_freq(ahb.0 as int, pre),
        r.1.0 == spec_apb_tim_freq(ahb.0 as int, pre),
{
    match pre {
        APBPrescaler::NotDivided => {
            assert(ahb.0 as int / 1 == ahb.0 as int);
            (ahb, ahb)
        },
        _ => {
            let code: u8 = pre.code();
            let div: u32 = 1u32 << (code as u32 - 3);
            proof {
                assert(1u32 << 1 == 2) by (bit_vector);
                assert(1u32 << 2 == 4) by (bit_vector);
                assert(1u32 << 3 == 8) by (bit_vector);
                assert(1u32 << 4 == 16) by (bit_vector);
                assert(div == spec_apb_divisor(pre));
            }
            let freq: u32 = ahb.0 / div;
            proof {
                // The doubled timer clock cannot overflow: the peripheral
                // clock is at most half of AHB, since div >= 2.
                lemma_fundamental_div_mod(ahb.0 as int, div as int);
                lemma_mod_division_less_than_divisor(ahb.0 as int, div as int);
                lemma_div_pos_is_pos(ahb.0 as int, div as int);
                assert(2 * (freq as int) <= div as int * (freq as int)) by (nonlinear_arith)
                    requires
                        freq as int >= 0,
                        div as int >= 2,
                ;
            }
            (Hertz(freq), Hertz(freq * 2))
        },
    }
}

/// Identity law: with `not-divided` prescalers the calculator returns its
/// input unchanged — the AHB frequency equals the system frequency, and both
/// APB clocks of a domain equal the AHB frequency.
pub proof fn lemma_bus_identity(sys: int, ahb: int)
    ensures
        spec_ahb_freq(sys, AHBPrescaler::NotDivided) == sys,
        spec_apb_freq(ahb, APBPrescaler::NotDivided) == ahb,
        spec_apb_tim_freq(ahb, APBPrescaler::NotDivided) == ahb,
{
}

/// Timer-doubling law: for any non-unity APB prescaler the resulting timer
/// frequency is exactly twice the resulting peripheral frequency.
pub proof fn lemma_apb_timer_doubling(ahb: int, pre: APBPrescaler)
    requires
        !(pre is NotDivided),
    ensures
        spec_apb_tim_freq(ahb, pre) == 2 * spec_apb_freq(ahb, pre),
{
}

} // verus!
