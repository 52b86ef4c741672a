use vstd::prelude::*;

verus! {

use crate::time::Hertz;

/// The oscillator feeding the PLL: the external oscillator at a
/// board-supplied frequency, or the fixed 16 MHz internal oscillator.
#[derive(Clone, Copy, PartialEq, Eq, Structural, Debug)]
pub enum PLLSource {
    HSE(Hertz),
    HSI16,
}

/// System clock mux source.
#[derive(Clone, Copy, PartialEq, Eq, Structural, Debug)]
pub enum ClockSrc {
    HSE(Hertz),
    HSI16,
    PLL(PLLSource, Hertz),
}

/// AHB prescaler: the divider between the system clock and the AHB domain.
#[derive(Clone, Copy, PartialEq, Eq, Structural, Debug)]
pub enum AHBPrescaler {
    NotDivided,
    Div2,
    Div4,
    Div8,
    Div16,
    Div64,
    Div128,
    Div256,
    Div512,
}

/// APB prescaler: the divider between the AHB domain and an APB domain.
#[derive(Clone, Copy, PartialEq, Eq, Structural, Debug)]
pub enum APBPrescaler {
    NotDivided,
    Div2,
    Div4,
    Div8,
    Div16,
}

/// The hardware code of an APB prescaler. `NotDivided` shares the special
/// code 1 with the AHB table; the dividing variants occupy 4..=7.
pub open spec fn spec_apb_code(p: APBPrescaler) -> u8 {
    match p {
        APBPrescaler::NotDivided => 1,
        APBPrescaler::Div2 => 0x04,
        APBPrescaler::Div4 => 0x05,
        APBPrescaler::Div8 => 0x06,
        APBPrescaler::Div16 => 0x07,
    }
}

/// The APB prescaler a hardware code stands for, if any.
pub open spec fn spec_apb_of_code(c: u8) -> Option<APBPrescaler> {
    if c == 1 {
        Some(APBPrescaler::NotDivided)
    } else if c == 0x04 {
        Some(APBPrescaler::Div2)
    } else if c == 0x05 {
        Some(APBPrescaler::Div4)
    } else if c == 0x06 {
        Some(APBPrescaler::Div8)
    } else if c == 0x07 {
        Some(APBPrescaler::Div16)
    } else {
        None
    }
}

/// The hardware code of an AHB prescaler. `NotDivided` is the special
/// code 1; the dividing variants occupy 8..=15.
pub open spec fn spec_ahb_code(p: AHBPrescaler) -> u8 {
    match p {
        AHBPrescaler::NotDivided => 1,
        AHBPrescaler::Div2 => 0x08,
        AHBPrescaler::Div4 => 0x09,
        AHBPrescaler::Div8 => 0x0a,
        AHBPrescaler::Div16 => 0x0b,
        AHBPrescaler::Div64 => 0x0c,
        AHBPrescaler::Div128 => 0x0d,
        AHBPrescaler::Div256 => 0x0e,
        AHBPrescaler::Div512 => 0x0f,
    }
}

/// The AHB prescaler a hardware code stands for, if any.
pub open spec fn spec_ahb_of_code(c: u8) -> Option<AHBPrescaler> {
    if c == 1 {
        Some(AHBPrescaler::NotDivided)
    } else if c == 0x08 {
        Some(AHBPrescaler::Div2)
    } else if c == 0x09 {
        Some(AHBPrescaler::Div4)
    } else if c == 0x0a {
        Some(AHBPrescaler::Div8)
    } else if c == 0x0b {
        Some(AHBPrescaler::Div16)
    } else if c == 0x0c {
        Some(AHBPrescaler::Div64)
    } else if c == 0x0d {
        Some(AHBPrescaler::Div128)
    } else if c == 0x0e {
        Some(AHBPrescaler::Div256)
    } else if c == 0x0f {
        Some(AHBPrescaler::Div512)
    } else {
        None
    }
}

impl APBPrescaler {
    /// Encode this prescaler as its hardware code.
    pub fn code(self) -> (r: u8)
        ensures
            r == spec_apb_code(self),
    {
        match self {
            APBPrescaler::NotDivided => 1,
            APBPrescaler::Div2 => 0x04,
            APBPrescaler::Div4 => 0x05,
            APBPrescaler::Div8 => 0x06,
            APBPrescaler::Div16 => 0x07,
        }
    }

    /// Decode a hardware code back to a prescaler, if it stands for one.
    pub fn from_code(c: u8) -> (r: Option<APBPrescaler>)
        ensures
            r == spec_apb_of_code(c),
    {
        match c {
            1 => Some(APBPrescaler::NotDivided),
            0x04 => Some(APBPrescaler::Div2),
            0x05 => Some(APBPrescaler::Div4),
            0x06 => Some(APBPrescaler::Div8),
            0x07 => Some(APBPrescaler::Div16),
            _ => None,
        }
    }
}

impl AHBPrescaler {
    /// Encode this prescaler as its hardware code.
    pub fn code(self) -> (r: u8)
        ensures
            r == spec_ahb_code(self),
    {
        match self {
            AHBPrescaler::NotDivided => 1,
            AHBPrescaler::Div2 => 0x08,
            AHBPrescaler::Div4 => 0x09,
            AHBPrescaler::Div8 => 0x0a,
            AHBPrescaler::Div16 => 0x0b,
            AHBPrescaler::Div64 => 0x0c,
            AHBPrescaler::Div128 => 0x0d,
            AHBPrescaler::Div256 => 0x0e,
            AHBPrescaler::Div512 => 0x0f,
        }
    }

    /// Decode a hardware code back to a prescaler, if it stands for one.
    pub fn from_code(c: u8) -> (r: Option<AHBPrescaler>)
        ensures
            r == spec_ahb_of_code(c),
    {
        match c {
            1 => Some(AHBPrescaler::NotDivided),
            0x08 => Some(AHBPrescaler::Div2),
            0x09 => Some(AHBPrescaler::Div4),
            0x0a => Some(AHBPrescaler::Div8),
            0x0b => Some(AHBPrescaler::Div16),
            0x0c => Some(AHBPrescaler::Div64),
            0x0d => Some(AHBPrescaler::Div128),
            0x0e => Some(AHBPrescaler::Div256),
            0x0f => Some(AHBPrescaler::Div512),
            _ => None,
        }
    }
}

/// Every APB prescaler maps bijectively to its hardware code: decoding the
/// code of any variant gives the variant back.
pub proof fn lemma_apb_code_round_trip(p: APBPrescaler)
    ensures
        spec_apb_of_code(spec_apb_code(p)) == Some(p),
{
}

/// Every AHB prescaler maps bijectively to its hardware code: decoding the
/// code of any variant gives the variant back.
pub proof fn lemma_ahb_code_round_trip(p: AHBPrescaler)
    ensures
        spec_ahb_of_code(spec_ahb_code(p)) == Some(p),
{
}

/// The clock-tree configuration: a system clock source, the AHB prescaler,
/// the two independent APB prescalers, and the low-power-run request.
/// Created once by the caller at startup and consumed exactly once.
#[derive(Clone, Copy, PartialEq, Eq, Structural, Debug)]
pub struct Config {
    pub mux: ClockSrc,
    pub ahb_pre: AHBPrescaler,
    pub apb1_pre: APBPrescaler,
    pub apb2_pre: APBPrescaler,
    pub low_power_run: bool,
}

impl Default for Config {
    /// The default configuration: run directly from the internal oscillator
    /// with no division anywhere and low-power run off.
    fn default() -> (r: Config)
        ensures
            r.mux is HSI16,
            r.ahb_pre is NotDivided,
            r.apb1_pre is NotDivided,
            r.apb2_pre is NotDivided,
            !r.low_power_run,
    {
        Config {
            mux: ClockSrc::HSI16,
            ahb_pre: AHBPrescaler::NotDivided,
            apb1_pre: APBPrescaler::NotDivided,
            apb2_pre: APBPrescaler::NotDivided,
            low_power_run: false,
        }
    }
}

} // verus!
