//! Where a pin lives in the registers.
//!
//! A function select register holds the 3-bit codes of ten pins, the code of
//! the lowest pin in the lowest bits. The set, clear and level registers hold
//! one bit for each of 32 pins.
use vstd::prelude::*;

verus! {

/// Number of pins of the controller; pins are numbered from 0.
pub const PIN_COUNT: u8 = 54;

/// The bits of a function code, before they are shifted to a pin's field.
pub const GPIO_FSEL_MASK: u32 = 0b111;

/// Which function select register holds the code of `pin`.
pub open spec fn spec_fsel_bank(pin: u8) -> usize {
    (pin / 10) as usize
}

/// The lowest of the three bits that hold the code of `pin`.
pub open spec fn spec_fsel_shift(pin: u8) -> u32 {
    ((pin % 10) * 3) as u32
}

/// Which set, clear or level register holds the bit of `pin`.
pub open spec fn spec_level_bank(pin: u8) -> usize {
    (pin / 32) as usize
}

/// Which bit of its set, clear or level register belongs to `pin`.
pub open spec fn spec_level_shift(pin: u8) -> u32 {
    (pin % 32) as u32
}

/// Bit `index` of a word, bit 0 being the lowest.
pub open spec fn bit(word: u32, index: u32) -> bool {
    (word >> index) & 1 == 1
}

/// The function code that a function select word holds for `pin`.
pub open spec fn field(word: u32, pin: u8) -> u32 {
    (word >> spec_fsel_shift(pin)) & GPIO_FSEL_MASK
}

/// Which function select register holds the code of `pin`.
#[verifier::when_used_as_spec(spec_fsel_bank)]
pub fn fsel_bank(pin: u8) -> (bank: usize)
    ensures
        bank == spec_fsel_bank(pin),
        bank == pin / 10,
{
    (pin / 10) as usize
}

/// The lowest of the three bits that hold the code of `pin`.
#[verifier::when_used_as_spec(spec_fsel_shift)]
pub fn fsel_shift(pin: u8) -> (shift: u32)
    ensures
        shift == spec_fsel_shift(pin),
        shift == (pin % 10) * 3,
{
    ((pin % 10) * 3) as u32
}

/// Which set, clear or level register holds the bit of `pin`.
#[verifier::when_used_as_spec(spec_level_bank)]
pub fn level_bank(pin: u8) -> (bank: usize)
    ensures
        bank == spec_level_bank(pin),
        bank == pin / 32,
{
    (pin / 32) as usize
}

/// Which bit of its set, clear or level register belongs to `pin`.
#[verifier::when_used_as_spec(spec_level_shift)]
pub fn level_shift(pin: u8) -> (shift: u32)
    ensures
        shift == spec_level_shift(pin),
        shift == pin % 32,
{
    (pin % 32) as u32
}

/// Every pin of the controller has its code in one of the six function
/// select registers, in three bits below bit 30, and its bit in one of the
/// two registers of the set, clear and level groups. No two pins share a
/// place.
pub proof fn pins_have_places(pin: u8, other: u8)
    requires
        pin < PIN_COUNT,
        other < PIN_COUNT,
    ensures
        fsel_bank(pin) < 6,
        fsel_shift(pin) + 3 <= 30,
        fsel_shift(pin) % 3 == 0,
        level_bank(pin) < 2,
        level_shift(pin) < 32,
        pin == 10 * fsel_bank(pin) + fsel_shift(pin) / 3,
        pin == 32 * level_bank(pin) + level_shift(pin),
        pin != other ==> fsel_bank(pin) != fsel_bank(other) || fsel_shift(pin) != fsel_shift(other),
        pin != other ==> level_bank(pin) != level_bank(other) || level_shift(pin) != level_shift(
            other,
        ),
{
}

} // verus!
