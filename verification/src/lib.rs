//! Clock-tree configuration engine for an STM32G4-class microcontroller.
//!
//! The crate selects a system clock source, computes and validates a PLL
//! frequency plan under the hardware's VCO constraints, sequences the
//! register writes that switch the active clock, derives the bus-domain
//! frequencies from the configured prescalers, and publishes the resulting
//! frequency plan for the rest of the system to consume.

pub mod bus;
pub mod clocks;
pub mod config;
pub mod error;
pub mod pll;
pub mod registers;
pub mod time;
pub mod tree;

pub use bus::{ahb_frequency, apb_frequencies};
pub use clocks::{BusDomain, ClockCell, Clocks};
pub use config::{AHBPrescaler, APBPrescaler, ClockSrc, Config, PLLSource};
pub use error::ClockError;
pub use pll::{divisor_from_flag, pllq_flag, pllr_flag, solve, PllPlan};
pub use registers::RegisterBlock;
pub use time::{Hertz, HSI_FREQ, LSI_FREQ};
pub use tree::{commit_source, commit_switch, init, low_power_gate, plan_source, SourcePlan};
