use vstd::prelude::*;

verus! {

/// Frequency of the fixed internal oscillator (HSI), in Hz.
pub const HSI_FREQ: u32 = 16_000_000;

/// Frequency of the low-speed internal oscillator (LSI), in Hz.
pub const LSI_FREQ: u32 = 32_000;

/// A frequency, counted as a whole number of Hz.
///
/// All arithmetic on frequencies in this crate is exact integer arithmetic;
/// every operation is proved free of overflow.
#[derive(Clone, Copy, PartialEq, Eq, Structural, Debug)]
pub struct Hertz(pub u32);

impl Hertz {
    /// Build a frequency from a whole number of megahertz.
    pub fn mhz(m: u32) -> (r: Hertz)
        requires
            m * 1_000_000 <= u32::MAX,
        ensures
            r.0 == m * 1_000_000,
    {
        Hertz(m * 1_000_000)
    }
}

} // verus!
