//! A software image of the register block.
//!
//! [`RegisterFile`] is the mathematical model: the words of the block and
//! the accesses performed on it so far. [`Registers`] is the same thing as a
//! value that runs, so that pin operations can be tried without hardware.
use vstd::prelude::*;
use crate::access::Access;
use crate::layout::{
    reserved, reserved_words_hold_no_register, AccessMode, Register, BLOCK_WORDS,
};

verus! {

/// The state of a register block: what each word holds, and every access
/// that was performed, oldest first.
pub struct RegisterFile {
    pub words: Seq<u32>,
    pub history: Seq<Access>,
}

impl RegisterFile {
    /// A register file has one word for each word of the block.
    pub open spec fn wf(self) -> bool {
        self.words.len() == BLOCK_WORDS
    }

    /// The word held by register `bank` of a group.
    pub open spec fn word(self, register: Register, bank: usize) -> u32 {
        self.words[register.index(bank) as int]
    }

    /// What performing an access hands back: the word read, or 0 when the
    /// access reads nothing.
    pub open spec fn reply(self, access: Access) -> u32 {
        if access.operation.reads() {
            self.word(access.register, access.bank)
        } else {
            0
        }
    }

    /// The state after an access: its register holds the merged word, all
    /// other words are as before, and the access is the newest in the
    /// history.
    pub open spec fn perform(self, access: Access) -> RegisterFile {
        let index = access.register.index(access.bank) as int;
        RegisterFile {
            words: if access.operation.writes() {
                self.words.update(index, access.operation.merge(self.words[index]))
            } else {
                self.words
            },
            history: self.history.push(access),
        }
    }

    /// The state after a sequence of accesses, performed first to last.
    pub open spec fn run(self, accesses: Seq<Access>) -> RegisterFile
        decreases accesses.len(),
    {
        if accesses.len() == 0 {
            self
        } else {
            self.run(accesses.drop_last()).perform(accesses.last())
        }
    }
}

/// Performing a single access is running the sequence that holds only it.
pub proof fn run_of_one(file: RegisterFile, access: Access)
    ensures
        file.run(seq![access]) == file.perform(access),
{
    reveal_with_fuel(RegisterFile::run, 2);
    assert(seq![access].drop_last() =~= Seq::<Access>::empty());
}

/// Running a sequence of accesses is running its first part and then, from
/// the state reached, the rest.
pub proof fn run_in_parts(file: RegisterFile, first: Seq<Access>, rest: Seq<Access>)
    ensures
        file.run(first + rest) == file.run(first).run(rest),
    decreases rest.len(),
{
    if rest.len() == 0 {
        assert(first + rest =~= first);
    } else {
        run_in_parts(file, first, rest.drop_last());
        assert((first + rest).drop_last() =~= first + rest.drop_last());
    }
}

/// An access changes no word but the one of its register, and none at all
/// where its register is read-only. Reserved words therefore never change.
pub proof fn perform_keeps_other_words(file: RegisterFile, access: Access, word: int)
    requires
        file.wf(),
        access.wf(),
        0 <= word < BLOCK_WORDS,
    ensures
        file.perform(access).wf(),
        word != access.register.index(access.bank) ==> file.perform(access).words[word]
            == file.words[word],
        access.register.mode() == AccessMode::ReadOnly ==> file.perform(access).words[word]
            == file.words[word],
        reserved(word) ==> file.perform(access).words[word] == file.words[word],
{
    reserved_words_hold_no_register(word);
}

/// A register block held in ordinary memory.
///
/// Every register keeps the last word written to it, also a write-only one,
/// so that [`Registers::word`] can show it. No access changes a read-only
/// register; [`Registers::load`] stands for the hardware that does.
#[derive(Debug)]
pub struct Registers {
    words: [u32; 41],
    history: Vec<Access>,
}

impl View for Registers {
    type V = RegisterFile;

    closed spec fn view(&self) -> RegisterFile {
        RegisterFile { words: self.words@, history: self.history@ }
    }
}

impl Registers {
    /// A block in which every word is 0 and nothing has been performed.
    pub fn new() -> (block: Self)
        ensures
            block@.wf(),
            forall|word: int| 0 <= word < BLOCK_WORDS ==> block@.words[word] == 0,
            block@.history.len() == 0,
    {
        Registers { words: [0u32; 41], history: Vec::new() }
    }

    /// The word held by register `bank` of a group.
    pub fn word(&self, register: Register, bank: usize) -> (word: u32)
        requires
            bank < register.banks(),
        ensures
            self@.wf(),
            word == self@.word(register, bank),
    {
        self.words[register.index(bank)]
    }

    /// The accesses performed so far, oldest first.
    pub fn history(&self) -> (history: &Vec<Access>)
        ensures
            history@ == self@.history,
    {
        &self.history
    }

    /// Puts a word into a register from outside, as the hardware does when
    /// the level on a pin changes. This is not an access: the history stays
    /// as it is.
    pub fn load(&mut self, register: Register, bank: usize, word: u32)
        requires
            bank < register.banks(),
        ensures
            final(self)@.wf(),
            final(self)@.words == old(self)@.words.update(register.index(bank) as int, word),
            final(self)@.history == old(self)@.history,
    {
        self.words[register.index(bank)] = word;
    }

    /// Performs one access and hands back the word read, or 0 when the
    /// access reads nothing.
    pub fn perform(&mut self, access: &Access) -> (reply: u32)
        requires
            access.wf(),
        ensures
            final(self)@.wf(),
            final(self)@ == old(self)@.perform(*access),
            reply == old(self)@.reply(*access),
    {
        let index = access.register.index(access.bank);
        let current = self.words[index];
        if access.operation.writes() {
            self.words[index] = access.operation.merge(current);
        }
        self.history.push(*access);
        if access.operation.reads() {
            current
        } else {
            0
        }
    }

    /// Performs a sequence of accesses, first to last.
    pub fn run(&mut self, accesses: &[Access])
        requires
            forall|i: int| 0 <= i < accesses@.len() ==> accesses@[i].wf(),
        ensures
            final(self)@.wf(),
            final(self)@ == old(self)@.run(accesses@),
    {
        let count = accesses.len();
        for done in 0..count
            invariant
                count == accesses@.len(),
                forall|i: int| 0 <= i < accesses@.len() ==> accesses@[i].wf(),
                self@.wf(),
                self@ == old(self)@.run(accesses@.take(done as int)),
        {
            assert(accesses@.take(done + 1).drop_last() == accesses@.take(done as int));
            self.perform(&accesses[done]);
        }
        assert(accesses@.take(count as int) == accesses@);
    }
}

} // verus!
