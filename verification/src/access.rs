//! Register accesses as values.
//!
//! An [`Access`] names one register and says what to do with it. Whoever
//! owns the register block performs it: a read hands back the word that the
//! register holds, and every other operation leaves in the register the word
//! that [`Operation::merge`] computes from the one it held.
use vstd::prelude::*;
use crate::layout::{AccessMode, Register};

verus! {

/// What an access does to its register.
#[derive(Clone, Copy, Debug, PartialEq, Eq, Structural)]
pub enum Operation {
    /// Read the register.
    Read,
    /// Write the word to the register, without reading it.
    Write(u32),
    /// Read the register and write it back with the bits of the mask at 0.
    ClearBits(u32),
    /// Read the register and write it back with the bits of the mask at 1.
    SetBits(u32),
}

impl Operation {
    /// Whether performing the operation reads the register.
    pub open spec fn spec_reads(self) -> bool {
        !(self is Write)
    }

    /// Whether performing the operation writes the register.
    pub open spec fn spec_writes(self) -> bool {
        !(self is Read)
    }

    /// The word that the register holds after the operation, given the word
    /// `current` that it held before.
    pub open spec fn spec_merge(self, current: u32) -> u32 {
        match self {
            Operation::Read => current,
            Operation::Write(word) => word,
            Operation::ClearBits(mask) => current & !mask,
            Operation::SetBits(mask) => current | mask,
        }
    }

    /// Whether a register with the given access mode admits the operation:
    /// a read-only register is only read, and a write-only register is only
    /// written without being read.
    pub open spec fn spec_allowed(self, mode: AccessMode) -> bool {
        match mode {
            AccessMode::ReadWrite => true,
            AccessMode::ReadOnly => self is Read,
            AccessMode::WriteOnly => self is Write,
        }
    }

    /// Whether performing the operation reads the register.
    #[verifier::when_used_as_spec(spec_reads)]
    pub fn reads(self) -> (reads: bool)
        ensures
            reads == self.spec_reads(),
    {
        match self {
            Operation::Write(_) => false,
            _ => true,
        }
    }

    /// Whether performing the operation writes the register.
    #[verifier::when_used_as_spec(spec_writes)]
    pub fn writes(self) -> (writes: bool)
        ensures
            writes == self.spec_writes(),
    {
        match self {
            Operation::Read => false,
            _ => true,
        }
    }

    /// The word that the register holds after the operation, given the word
    /// `current` that it held before.
    #[verifier::when_used_as_spec(spec_merge)]
    pub fn merge(self, current: u32) -> (word: u32)
        ensures
            word == self.spec_merge(current),
    {
        match self {
            Operation::Read => current,
            Operation::Write(word) => word,
            Operation::ClearBits(mask) => current & !mask,
            Operation::SetBits(mask) => current | mask,
        }
    }

    /// Whether a register with the given access mode admits the operation.
    #[verifier::when_used_as_spec(spec_allowed)]
    pub fn allowed(self, mode: AccessMode) -> (allowed: bool)
        ensures
            allowed == self.spec_allowed(mode),
    {
        match mode {
            AccessMode::ReadWrite => true,
            AccessMode::ReadOnly => match self {
                Operation::Read => true,
                _ => false,
            },
            AccessMode::WriteOnly => match self {
                Operation::Write(_) => true,
                _ => false,
            },
        }
    }
}

/// One operation on one register of the block.
#[derive(Clone, Copy, Debug, PartialEq, Eq, Structural)]
pub struct Access {
    /// The group that the register belongs to.
    pub register: Register,
    /// Which register of the group.
    pub bank: usize,
    /// What to do with the register.
    pub operation: Operation,
}

impl Access {
    /// An access is well formed when its register exists and admits its
    /// operation.
    pub open spec fn wf(self) -> bool {
        &&& self.bank < self.register.banks()
        &&& self.operation.allowed(self.register.mode())
    }

    /// Whether the access is well formed.
    pub fn is_wf(&self) -> (wf: bool)
        ensures
            wf == self.wf(),
    {
        self.bank < self.register.banks() && self.operation.allowed(self.register.mode())
    }
}

} // verus!
