use vstd::prelude::*;

verus! {

/// The ways a clock plan can fail validation.
///
/// Every failure is detected before any register write, so a rejected plan
/// never leaves the hardware partially reconfigured. There is no retry or
/// recovery path: an unattainable plan is a configuration error supplied by
/// the caller, not a transient condition.
#[derive(Clone, Copy, PartialEq, Eq, Structural, Debug)]
pub enum ClockError {
    /// The computed VCO input frequency lies outside [2.66 MHz, 16 MHz].
    InvalidVcoInput,
    /// The computed VCO output frequency lies outside [96 MHz, 344 MHz].
    InvalidVcoOutput,
    /// The VCO output frequency is not an integer multiple of 48 MHz, so the
    /// fixed 48 MHz tap cannot be served exactly.
    Unachievable48MHzTap,
    /// An R or Q output divider is not one of the encodable values 2, 4, 6, 8.
    InvalidDivisorCode,
    /// Low-power run was requested with a resulting system frequency above
    /// 2 MHz.
    LowPowerFrequencyExceeded,
}

} // verus!
