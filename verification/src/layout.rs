//! The memory map of the GPIO controller.
//!
//! The controller is a block of forty-one 32-bit words. Registers of one
//! kind sit next to each other and form a group; single reserved words
//! separate most groups. Every position in the block is fixed by hardware.
use vstd::prelude::*;
use crate::common::PERIPHERAL_BASE;

verus! {

/// Physical address of the GPIO register block (bus address `0x7E20_0000`).
pub const GPIO_BASE: usize = PERIPHERAL_BASE + 0x20_0000;

/// Size of the register block in bytes, reserved words included.
pub const BLOCK_BYTES: usize = 0xA4;

/// Number of 32-bit words in the register block.
pub const BLOCK_WORDS: usize = 41;

/// How software may access a register.
#[derive(Clone, Copy, Debug, PartialEq, Eq, Structural)]
pub enum AccessMode {
    /// The register can be read and written.
    ReadWrite,
    /// The register can only be read; hardware decides what it holds.
    ReadOnly,
    /// The register can only be written; nothing can be read back.
    WriteOnly,
}

/// A group of registers of the controller.
#[derive(Clone, Copy, Debug, PartialEq, Eq, Structural)]
pub enum Register {
    /// Function select: a 3-bit code for each of ten pins per register.
    Gpfsel,
    /// Pin output set: writing 1 to a bit drives that pin high.
    Gpset,
    /// Pin output clear: writing 1 to a bit drives that pin low.
    Gpclr,
    /// Pin level: a bit shows the level currently on that pin.
    Gplev,
    /// Pin event detect status.
    Gpeds,
    /// Pin rising edge detect enable.
    Gpren,
    /// Pin falling edge detect enable.
    Gpfen,
    /// Pin high detect enable.
    Gphen,
    /// Pin low detect enable.
    Gplen,
    /// Pin asynchronous rising edge detect.
    Gparen,
    /// Pin asynchronous falling edge detect.
    Gpafen,
    /// Pin pull-up/down enable.
    Gppud,
    /// Pin pull-up/down enable clock.
    Gppudclk,
}

impl Register {
    /// Number of registers in the group.
    pub open spec fn spec_banks(self) -> usize {
        match self {
            Register::Gpfsel => 6,
            Register::Gppud => 1,
            _ => 2,
        }
    }

    /// Distance in bytes from the start of the block to the first register
    /// of the group.
    pub open spec fn spec_offset(self) -> usize {
        match self {
            Register::Gpfsel => 0x00,
            Register::Gpset => 0x1C,
            Register::Gpclr => 0x28,
            Register::Gplev => 0x34,
            Register::Gpeds => 0x40,
            Register::Gpren => 0x4C,
            Register::Gpfen => 0x58,
            Register::Gphen => 0x64,
            Register::Gplen => 0x70,
            Register::Gparen => 0x7C,
            Register::Gpafen => 0x88,
            Register::Gppud => 0x94,
            Register::Gppudclk => 0x98,
        }
    }

    /// Access that the hardware grants to the registers of the group.
    pub open spec fn spec_mode(self) -> AccessMode {
        match self {
            Register::Gpset | Register::Gpclr => AccessMode::WriteOnly,
            Register::Gplev => AccessMode::ReadOnly,
            _ => AccessMode::ReadWrite,
        }
    }

    /// Position of register `bank` of the group, counted in words from the
    /// start of the block.
    pub open spec fn spec_index(self, bank: usize) -> usize {
        (self.spec_offset() / 4 + bank) as usize
    }

    /// Physical address of register `bank` of the group.
    pub open spec fn spec_address(self, bank: usize) -> usize {
        (GPIO_BASE + self.spec_offset() + 4 * bank) as usize
    }

    /// Number of registers in the group.
    #[verifier::when_used_as_spec(spec_banks)]
    pub fn banks(self) -> (count: usize)
        ensures
            count == self.spec_banks(),
    {
        match self {
            Register::Gpfsel => 6,
            Register::Gppud => 1,
            _ => 2,
        }
    }

    /// Distance in bytes from the start of the block to the first register
    /// of the group.
    #[verifier::when_used_as_spec(spec_offset)]
    pub fn offset(self) -> (bytes: usize)
        ensures
            bytes == self.spec_offset(),
    {
        match self {
            Register::Gpfsel => 0x00,
            Register::Gpset => 0x1C,
            Register::Gpclr => 0x28,
            Register::Gplev => 0x34,
            Register::Gpeds => 0x40,
            Register::Gpren => 0x4C,
            Register::Gpfen => 0x58,
            Register::Gphen => 0x64,
            Register::Gplen => 0x70,
            Register::Gparen => 0x7C,
            Register::Gpafen => 0x88,
            Register::Gppud => 0x94,
            Register::Gppudclk => 0x98,
        }
    }

    /// Access that the hardware grants to the registers of the group.
    #[verifier::when_used_as_spec(spec_mode)]
    pub fn mode(self) -> (mode: AccessMode)
        ensures
            mode == self.spec_mode(),
    {
        match self {
            Register::Gpset | Register::Gpclr => AccessMode::WriteOnly,
            Register::Gplev => AccessMode::ReadOnly,
            _ => AccessMode::ReadWrite,
        }
    }

    /// Position of register `bank` of the group, counted in words from the
    /// start of the block.
    #[verifier::when_used_as_spec(spec_index)]
    pub fn index(self, bank: usize) -> (word: usize)
        requires
            bank < self.banks(),
        ensures
            word == self.spec_index(bank),
            word == self.offset() / 4 + bank,
            word < BLOCK_WORDS,
    {
        self.offset() / 4 + bank
    }

    /// Physical address of register `bank` of the group.
    #[verifier::when_used_as_spec(spec_address)]
    pub fn address(self, bank: usize) -> (address: usize)
        requires
            bank < self.banks(),
        ensures
            address == self.spec_address(bank),
            address == GPIO_BASE + self.offset() + 4 * bank,
            address == GPIO_BASE + 4 * self.index(bank),
            address + 4 <= GPIO_BASE + BLOCK_BYTES,
    {
        GPIO_BASE + self.offset() + 4 * bank
    }
}

/// Every register starts on a word boundary and lies wholly inside the
/// block, whose byte size is four times its word count.
pub proof fn registers_lie_in_block(register: Register, bank: usize)
    requires
        bank < register.banks(),
    ensures
        register.offset() % 4 == 0,
        4 * register.index(bank) == register.offset() + 4 * bank,
        register.offset() + 4 * bank + 4 <= BLOCK_BYTES,
        register.index(bank) < BLOCK_WORDS,
        BLOCK_BYTES == 4 * BLOCK_WORDS,
{
}

/// Two different registers never share a word of the block.
pub proof fn registers_do_not_overlap(first: Register, i: usize, second: Register, j: usize)
    requires
        i < first.banks(),
        j < second.banks(),
        first != second || i != j,
    ensures
        first.index(i) != second.index(j),
        first.address(i) != second.address(j),
{
}

/// The words that hold no register: one after each group but the pull-up/down
/// enable register, which is followed directly by its clock registers.
pub open spec fn reserved(word: int) -> bool {
    word == 6 || (9 <= word <= 36 && word % 3 == 0) || word == 40
}

/// A word of the block is reserved exactly when no register lies on it.
pub proof fn reserved_words_hold_no_register(word: int)
    requires
        0 <= word < BLOCK_WORDS,
    ensures
        reserved(word) <==> forall|register: Register, bank: usize|
            bank < register.banks() ==> #[trigger] register.index(bank) != word,
{
    if !reserved(word) {
        let register = if word < 6 {
            Register::Gpfsel
        } else if word < 9 {
            Register::Gpset
        } else if word < 12 {
            Register::Gpclr
        } else if word < 15 {
            Register::Gplev
        } else if word < 18 {
            Register::Gpeds
        } else if word < 21 {
            Register::Gpren
        } else if word < 24 {
            Register::Gpfen
        } else if word < 27 {
            Register::Gphen
        } else if word < 30 {
            Register::Gplen
        } else if word < 33 {
            Register::Gparen
        } else if word < 36 {
            Register::Gpafen
        } else if word < 38 {
            Register::Gppud
        } else {
            Register::Gppudclk
        };
        let bank = (word - register.offset() / 4) as usize;
        assert(bank < register.banks() && register.index(bank) == word);
    }
}

} // verus!
