//! What the accesses of each pin operation do to a register file.
use vstd::prelude::*;
use crate::gpio::{drive_high, drive_low, high, sample, select, FunctionSelectMode};
use crate::layout::{Register, BLOCK_WORDS};
use crate::pins::{
    bit, field, fsel_bank, fsel_shift, level_bank, level_shift, GPIO_FSEL_MASK, PIN_COUNT,
};
use crate::registers::RegisterFile;

verus! {

proof fn field_holds_new_code(word: u32, shift: u32, code: u32)
    by (bit_vector)
    requires
        shift <= 27,
        code <= 7,
    ensures
        ((((word & !(7u32 << shift)) | (code << shift)) >> shift) & 7) == code,
{
}

proof fn other_field_is_kept(word: u32, shift: u32, code: u32, other: u32)
    by (bit_vector)
    requires
        shift <= 27,
        other <= 27,
        shift % 3 == 0,
        other % 3 == 0,
        shift != other,
        code <= 7,
    ensures
        ((((word & !(7u32 << shift)) | (code << shift)) >> other) & 7) == ((word >> other) & 7),
{
}

proof fn other_bit_is_kept(word: u32, shift: u32, code: u32, index: u32)
    by (bit_vector)
    requires
        shift <= 27,
        code <= 7,
        index < 32,
        index < shift || index >= shift + 3,
    ensures
        ((((word & !(7u32 << shift)) | (code << shift)) >> index) & 1) == ((word >> index) & 1),
{
}

proof fn new_code_replaces_old(word: u32, shift: u32, old_code: u32, code: u32)
    by (bit_vector)
    requires
        shift <= 27,
        old_code <= 7,
    ensures
        ((((word & !(7u32 << shift)) | (old_code << shift)) & !(7u32 << shift)) | (code << shift))
            == ((word & !(7u32 << shift)) | (code << shift)),
{
}

proof fn mask_has_one_bit(shift: u32, index: u32)
    by (bit_vector)
    requires
        shift < 32,
        index < 32,
    ensures
        (((1u32 << shift) >> index) & 1 == 1) <==> index == shift,
{
}

/// The word that a function select register holds once `pin` has been given
/// the function `mode`, if it held `word` before.
pub open spec fn selected(word: u32, pin: u8, mode: FunctionSelectMode) -> u32 {
    (word & !(GPIO_FSEL_MASK << fsel_shift(pin))) | (mode.code() << fsel_shift(pin))
}

/// Selecting a function for a pin rewrites one function select register and
/// nothing else in the block. In that register the field of the pin holds
/// the code of the function, whatever it held before; every bit outside the
/// field, and so the field of every other pin, is as it was.
pub proof fn select_rewrites_one_field(file: RegisterFile, pin: u8, mode: FunctionSelectMode)
    requires
        file.wf(),
        pin < PIN_COUNT,
    ensures
        select(pin, mode)[0].wf(),
        select(pin, mode)[1].wf(),
        file.run(select(pin, mode)).wf(),
        file.run(select(pin, mode)).history == file.history + select(pin, mode),
        file.run(select(pin, mode)).words == file.words.update(
            Register::Gpfsel.index(fsel_bank(pin)) as int,
            selected(file.word(Register::Gpfsel, fsel_bank(pin)), pin, mode),
        ),
        field(file.run(select(pin, mode)).word(Register::Gpfsel, fsel_bank(pin)), pin)
            == mode.code(),
        forall|index: u32|
            index < 32 && !(fsel_shift(pin) <= index < fsel_shift(pin) + 3) ==> #[trigger] bit(
                file.run(select(pin, mode)).word(Register::Gpfsel, fsel_bank(pin)),
                index,
            ) == bit(file.word(Register::Gpfsel, fsel_bank(pin)), index),
        forall|other: u8|
            other < PIN_COUNT && other != pin ==> #[trigger] field(
                file.run(select(pin, mode)).word(Register::Gpfsel, fsel_bank(other)),
                other,
            ) == field(file.word(Register::Gpfsel, fsel_bank(other)), other),
        forall|word: int|
            0 <= word < BLOCK_WORDS && word != Register::Gpfsel.index(fsel_bank(pin))
                ==> #[trigger] file.run(select(pin, mode)).words[word] == file.words[word],
{
    let accesses = select(pin, mode);
    let bank = fsel_bank(pin);
    let shift = fsel_shift(pin);
    let index = Register::Gpfsel.index(bank) as int;
    let before = file.words[index];
    let cleared = file.perform(accesses[0]);
    let after = cleared.perform(accesses[1]);
    assert(accesses =~= seq![accesses[0]] + seq![accesses[1]]);
    crate::registers::run_in_parts(file, seq![accesses[0]], seq![accesses[1]]);
    crate::registers::run_of_one(file, accesses[0]);
    crate::registers::run_of_one(cleared, accesses[1]);
    assert(file.run(accesses) == after);
    assert(after.words =~= file.words.update(index, selected(before, pin, mode)));
    assert(after.history =~= file.history + accesses);
    field_holds_new_code(before, shift, mode.code());
    assert forall|i: u32| i < 32 && !(shift <= i < shift + 3) implies #[trigger] bit(
        after.word(Register::Gpfsel, bank),
        i,
    ) == bit(before, i) by {
        other_bit_is_kept(before, shift, mode.code(), i);
    }
    assert forall|other: u8| other < PIN_COUNT && other != pin implies #[trigger] field(
        after.word(Register::Gpfsel, fsel_bank(other)),
        other,
    ) == field(file.word(Register::Gpfsel, fsel_bank(other)), other) by {
        if fsel_bank(other) == bank {
            other_field_is_kept(before, shift, mode.code(), fsel_shift(other));
        }
    }
}

/// Selecting a function for a pin that already had one selected leaves the
/// words of the block as if only the second selection had been made: nothing
/// of the earlier code stays behind.
pub proof fn select_forgets_earlier_selection(
    file: RegisterFile,
    pin: u8,
    earlier: FunctionSelectMode,
    later: FunctionSelectMode,
)
    requires
        file.wf(),
        pin < PIN_COUNT,
    ensures
        file.run(select(pin, earlier)).run(select(pin, later)).words == file.run(
            select(pin, later),
        ).words,
        field(
            file.run(select(pin, earlier)).run(select(pin, later)).word(
                Register::Gpfsel,
                fsel_bank(pin),
            ),
            pin,
        ) == later.code(),
{
    let index = Register::Gpfsel.index(fsel_bank(pin)) as int;
    let between = file.run(select(pin, earlier));
    select_rewrites_one_field(file, pin, earlier);
    select_rewrites_one_field(file, pin, later);
    select_rewrites_one_field(between, pin, later);
    new_code_replaces_old(file.words[index], fsel_shift(pin), earlier.code(), later.code());
    assert(between.run(select(pin, later)).words =~= file.run(select(pin, later)).words);
}

/// Driving a pin is one write to one register: the set register of the pin
/// to drive it high, the clear register to drive it low. The word written has
/// the bit of the pin at 1 and every other bit at 0, and no other word of the
/// block changes.
pub proof fn drive_writes_one_bit(file: RegisterFile, pin: u8)
    requires
        file.wf(),
        pin < PIN_COUNT,
    ensures
        drive_high(pin).wf(),
        drive_low(pin).wf(),
        file.perform(drive_high(pin)).wf(),
        file.perform(drive_low(pin)).wf(),
        file.perform(drive_high(pin)).history == file.history.push(drive_high(pin)),
        file.perform(drive_low(pin)).history == file.history.push(drive_low(pin)),
        forall|index: u32|
            index < 32 ==> (#[trigger] bit(
                file.perform(drive_high(pin)).word(Register::Gpset, level_bank(pin)),
                index,
            ) <==> index == level_shift(pin)),
        forall|index: u32|
            index < 32 ==> (#[trigger] bit(
                file.perform(drive_low(pin)).word(Register::Gpclr, level_bank(pin)),
                index,
            ) <==> index == level_shift(pin)),
        forall|word: int|
            0 <= word < BLOCK_WORDS && word != Register::Gpset.index(level_bank(pin))
                ==> #[trigger] file.perform(drive_high(pin)).words[word] == file.words[word],
        forall|word: int|
            0 <= word < BLOCK_WORDS && word != Register::Gpclr.index(level_bank(pin))
                ==> #[trigger] file.perform(drive_low(pin)).words[word] == file.words[word],
{
    let shift = level_shift(pin);
    assert forall|index: u32| index < 32 implies (#[trigger] bit(
        file.perform(drive_high(pin)).word(Register::Gpset, level_bank(pin)),
        index,
    ) <==> index == shift) by {
        mask_has_one_bit(shift, index);
    }
    assert forall|index: u32| index < 32 implies (#[trigger] bit(
        file.perform(drive_low(pin)).word(Register::Gpclr, level_bank(pin)),
        index,
    ) <==> index == shift) by {
        mask_has_one_bit(shift, index);
    }
}

/// Sampling a pin reads its level register and changes no word of the block.
/// The pin is found high exactly when its bit in that register is 1, and low
/// exactly when it is not found high.
pub proof fn sample_reads_the_level_bit(file: RegisterFile, pin: u8)
    requires
        file.wf(),
        pin < PIN_COUNT,
    ensures
        sample(pin).wf(),
        file.perform(sample(pin)).words == file.words,
        file.perform(sample(pin)).history == file.history.push(sample(pin)),
        file.reply(sample(pin)) == file.word(Register::Gplev, level_bank(pin)),
        high(file.reply(sample(pin)), pin) <==> bit(
            file.word(Register::Gplev, level_bank(pin)),
            level_shift(pin),
        ),
{
}

} // verus!
