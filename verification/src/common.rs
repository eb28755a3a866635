//! Fixed platform configuration.
use vstd::prelude::*;

verus! {

/// Frequency of the core clock, in hertz.
pub const CORE_CLK_HZ: u64 = 250_000_000;

/// Physical address at which the peripherals start.
///
/// Peripherals are documented by their bus address, `0x7Ennnnnn`; the ARM
/// core sees the same peripheral at the physical address `0x3Fnnnnnn`.
pub const PERIPHERAL_BASE: usize = 0x3F00_0000;

} // verus!
