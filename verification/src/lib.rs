//! Control of the general-purpose I/O pins of a BCM2836 or BCM2837
//! system-on-chip.
//!
//! The controller is a block of memory-mapped registers. This crate knows
//! where each register lies ([`layout`]), where each pin lives in them
//! ([`pins`]), and which register accesses configure, drive and sample a pin
//! ([`gpio`]). It decides; it never touches memory itself. Whoever owns the
//! register block performs the accesses that a pin handle hands out, in the
//! order given; [`registers::Registers`] does so on a software image of the
//! block, and [`effects`] states what the accesses of each operation do.
pub mod access;
pub mod common;
pub mod effects;
pub mod gpio;
pub mod layout;
pub mod pins;
pub mod registers;

pub use access::{Access, Operation};
pub use common::{CORE_CLK_HZ, PERIPHERAL_BASE};
pub use gpio::{
    function_select, Alt, FunctionSelectMode, Gpio, GpioError, Input, Output, Uninitialized,
};
pub use layout::{AccessMode, Register, BLOCK_BYTES, BLOCK_WORDS, GPIO_BASE};
pub use pins::{fsel_bank, fsel_shift, level_bank, level_shift, GPIO_FSEL_MASK, PIN_COUNT};
pub use registers::Registers;
