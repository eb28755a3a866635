//! Pin handles whose type says how the pin is configured.
//!
//! A [`Gpio`] stands for one pin. It starts as `Gpio<Uninitialized>`; a
//! transition consumes it and gives back a handle in the new state, together
//! with the register accesses that bring the pin into that state. Each state
//! offers only the operations that make sense in it, so sampling an output or
//! driving an input does not compile.
//!
//! No operation touches the registers. Each hands out the accesses to
//! perform, and the owner of the register block performs them, in the order
//! given and before anything else is done with the pin.
use vstd::prelude::*;
use crate::access::{Access, Operation};
use crate::layout::Register;
use crate::pins::{
    bit, fsel_bank, fsel_shift, level_bank, level_shift, GPIO_FSEL_MASK, PIN_COUNT,
};

verus! {

/// The function of a pin, as the function select registers encode it.
#[allow(non_camel_case_types)]
#[derive(Clone, Copy, Debug, PartialEq, Eq, Structural)]
pub enum FunctionSelectMode {
    /// `0b000`: the pin is an input.
    GPIO_FSEL_INPUT,
    /// `0b001`: the pin is an output.
    GPIO_FSEL_OUTPUT,
    /// `0b100`: the pin takes alternate function 0.
    GPIO_FSEL_ALT0,
    /// `0b101`: the pin takes alternate function 1.
    GPIO_FSEL_ALT1,
    /// `0b110`: the pin takes alternate function 2.
    GPIO_FSEL_ALT2,
    /// `0b111`: the pin takes alternate function 3.
    GPIO_FSEL_ALT3,
    /// `0b011`: the pin takes alternate function 4.
    GPIO_FSEL_ALT4,
    /// `0b010`: the pin takes alternate function 5.
    GPIO_FSEL_ALT5,
}

impl FunctionSelectMode {
    /// The 3-bit code of the function.
    pub open spec fn spec_code(self) -> u32 {
        match self {
            FunctionSelectMode::GPIO_FSEL_INPUT => 0b000,
            FunctionSelectMode::GPIO_FSEL_OUTPUT => 0b001,
            FunctionSelectMode::GPIO_FSEL_ALT0 => 0b100,
            FunctionSelectMode::GPIO_FSEL_ALT1 => 0b101,
            FunctionSelectMode::GPIO_FSEL_ALT2 => 0b110,
            FunctionSelectMode::GPIO_FSEL_ALT3 => 0b111,
            FunctionSelectMode::GPIO_FSEL_ALT4 => 0b011,
            FunctionSelectMode::GPIO_FSEL_ALT5 => 0b010,
        }
    }

    /// The 3-bit code of the function.
    #[verifier::when_used_as_spec(spec_code)]
    pub fn code(self) -> (code: u32)
        ensures
            code == self.spec_code(),
            code <= GPIO_FSEL_MASK,
    {
        match self {
            FunctionSelectMode::GPIO_FSEL_INPUT => 0b000,
            FunctionSelectMode::GPIO_FSEL_OUTPUT => 0b001,
            FunctionSelectMode::GPIO_FSEL_ALT0 => 0b100,
            FunctionSelectMode::GPIO_FSEL_ALT1 => 0b101,
            FunctionSelectMode::GPIO_FSEL_ALT2 => 0b110,
            FunctionSelectMode::GPIO_FSEL_ALT3 => 0b111,
            FunctionSelectMode::GPIO_FSEL_ALT4 => 0b011,
            FunctionSelectMode::GPIO_FSEL_ALT5 => 0b010,
        }
    }
}

/// Why a pin operation was refused.
#[derive(Clone, Copy, Debug, PartialEq, Eq, Structural)]
pub enum GpioError {
    /// The controller has no pin with that number.
    PinOutOfRange,
    /// The operation is not supported.
    Unsupported,
}

/// State of a pin that carries an alternate function.
#[derive(Debug, PartialEq, Eq, Structural)]
pub struct Alt {}

/// State of a pin that is an input.
#[derive(Debug, PartialEq, Eq, Structural)]
pub struct Input {}

/// State of a pin that is an output.
#[derive(Debug, PartialEq, Eq, Structural)]
pub struct Output {}

/// State of a pin that has not been configured through its handle.
#[derive(Debug, PartialEq, Eq, Structural)]
pub struct Uninitialized {}

/// Control over one pin, in state `S`.
#[derive(Debug, PartialEq, Eq)]
pub struct Gpio<S> {
    pin: u8,
    state: S,
}

/// The accesses that give `pin` the function `mode`: the first clears the
/// three bits of the pin's code in its function select register, the second
/// sets those of them that are 1 in the code of `mode`.
pub open spec fn select(pin: u8, mode: FunctionSelectMode) -> Seq<Access> {
    seq![
        Access {
            register: Register::Gpfsel,
            bank: fsel_bank(pin),
            operation: Operation::ClearBits(GPIO_FSEL_MASK << fsel_shift(pin)),
        },
        Access {
            register: Register::Gpfsel,
            bank: fsel_bank(pin),
            operation: Operation::SetBits(mode.code() << fsel_shift(pin)),
        },
    ]
}

/// The access that drives `pin` high: a write to its set register with the
/// bit of the pin at 1 and every other bit at 0.
pub open spec fn drive_high(pin: u8) -> Access {
    Access {
        register: Register::Gpset,
        bank: level_bank(pin),
        operation: Operation::Write(1u32 << level_shift(pin)),
    }
}

/// The access that drives `pin` low: a write to its clear register with the
/// bit of the pin at 1 and every other bit at 0.
pub open spec fn drive_low(pin: u8) -> Access {
    Access {
        register: Register::Gpclr,
        bank: level_bank(pin),
        operation: Operation::Write(1u32 << level_shift(pin)),
    }
}

/// The access that samples `pin`: a read of its level register.
pub open spec fn sample(pin: u8) -> Access {
    Access { register: Register::Gplev, bank: level_bank(pin), operation: Operation::Read }
}

/// Whether `pin` is high when its level register holds `level`: whether the
/// bit of the pin in that word is 1.
pub open spec fn high(level: u32, pin: u8) -> bool {
    bit(level, level_shift(pin))
}

/// The accesses that give `pin` the function `mode`, to be performed in this
/// order. Every transition of a pin handle hands out these accesses, each
/// with its own code.
pub fn function_select(pin: u8, mode: FunctionSelectMode) -> (accesses: [Access; 2])
    requires
        pin < PIN_COUNT,
    ensures
        accesses@ == select(pin, mode),
        accesses[0].wf(),
        accesses[1].wf(),
{
    let bank = fsel_bank(pin);
    let shift = fsel_shift(pin);
    let accesses = [
        Access {
            register: Register::Gpfsel,
            bank,
            operation: Operation::ClearBits(GPIO_FSEL_MASK << shift),
        },
        Access { register: Register::Gpfsel, bank, operation: Operation::SetBits(mode.code() << shift) },
    ];
    assert(accesses@ =~= select(pin, mode));
    accesses
}

impl<S> Gpio<S> {
    #[verifier::type_invariant]
    spec fn in_range(self) -> bool {
        self.pin < PIN_COUNT
    }

    /// The number of the pin that the handle controls.
    pub closed spec fn spec_pin(&self) -> u8 {
        self.pin
    }

    /// The number of the pin that the handle controls.
    #[verifier::when_used_as_spec(spec_pin)]
    pub fn pin(&self) -> (pin: u8)
        ensures
            pin == self.spec_pin(),
            pin < PIN_COUNT,
    {
        proof {
            use_type_invariant(self);
        }
        self.pin
    }
}

impl Gpio<Uninitialized> {
    /// Creates the handle of a pin. Fails with [`GpioError::PinOutOfRange`]
    /// exactly when the controller has no pin with that number.
    pub fn new(pin: u8) -> (handle: Result<Self, GpioError>)
        ensures
            pin < PIN_COUNT ==> handle is Ok && handle->Ok_0.pin() == pin,
            pin >= PIN_COUNT ==> handle == Err::<Self, GpioError>(GpioError::PinOutOfRange),
    {
        if pin < PIN_COUNT {
            Ok(Gpio { pin, state: Uninitialized {  } })
        } else {
            Err(GpioError::PinOutOfRange)
        }
    }

    /// Makes the pin an input: hands out the handle of the input and the two
    /// accesses that select the function, to be performed in this order.
    pub fn into_input(self) -> (next: (Gpio<Input>, [Access; 2]))
        ensures
            next.0.pin() == self.pin(),
            next.1@ == select(self.pin(), FunctionSelectMode::GPIO_FSEL_INPUT),
            next.1[0].wf(),
            next.1[1].wf(),
    {
        let pin = self.pin();
        (Gpio { pin, state: Input {  } }, function_select(pin, FunctionSelectMode::GPIO_FSEL_INPUT))
    }

    /// Makes the pin an output: hands out the handle of the output and the
    /// two accesses that select the function, to be performed in this order.
    pub fn into_output(self) -> (next: (Gpio<Output>, [Access; 2]))
        ensures
            next.0.pin() == self.pin(),
            next.1@ == select(self.pin(), FunctionSelectMode::GPIO_FSEL_OUTPUT),
            next.1[0].wf(),
            next.1[1].wf(),
    {
        let pin = self.pin();
        (
            Gpio { pin, state: Output {  } },
            function_select(pin, FunctionSelectMode::GPIO_FSEL_OUTPUT),
        )
    }

    /// Refuses to give an unconfigured pin an alternate function: this
    /// transition is not supported, whatever the pin and the function. No
    /// access is handed out, so no register changes.
    #[allow(unused_variables)]
    pub fn into_alternate(self, function: FunctionSelectMode) -> (next: Result<
        (Gpio<Alt>, [Access; 2]),
        GpioError,
    >)
        ensures
            next == Err::<(Gpio<Alt>, [Access; 2]), GpioError>(GpioError::Unsupported),
    {
        Err(GpioError::Unsupported)
    }
}

impl Gpio<Alt> {
    /// Gives the pin the function `altfunc` in place of the one it has: hands
    /// out the handle and the two accesses that select the function, to be
    /// performed in this order. They are those that make a pin an input or an
    /// output, but for the code.
    pub fn into_alt(self, altfunc: FunctionSelectMode) -> (next: (Gpio<Alt>, [Access; 2]))
        ensures
            next.0.pin() == self.pin(),
            next.1@ == select(self.pin(), altfunc),
            next.1[0].wf(),
            next.1[1].wf(),
    {
        let pin = self.pin();
        (Gpio { pin, state: Alt {  } }, function_select(pin, altfunc))
    }

    /// Refuses to set the function select registers from a handle: this
    /// operation is not supported.
    #[allow(unused_variables)]
    pub fn set_fsel(value: Gpio<Alt>) -> (next: Result<Self, GpioError>)
        ensures
            next == Err::<Self, GpioError>(GpioError::Unsupported),
    {
        Err(GpioError::Unsupported)
    }
}

impl Gpio<Input> {
    /// The access that reads the level register of the pin. The word that
    /// it hands back is what [`Gpio::is_high`] and [`Gpio::is_low`] take.
    pub fn sample(&mut self) -> (access: Access)
        ensures
            *final(self) == *old(self),
            access == self::sample(old(self).pin()),
            access.wf(),
    {
        Access { register: Register::Gplev, bank: level_bank(self.pin()), operation: Operation::Read }
    }

    /// Whether the pin is high, given the word read from its level register.
    pub fn is_high(&mut self, level: u32) -> (high: bool)
        ensures
            *final(self) == *old(self),
            high == self::high(level, old(self).pin()),
    {
        let shift = level_shift(self.pin());
        let mask = 1u32 << shift;
        assert((level & (1u32 << shift)) == (1u32 << shift) <==> (level >> shift) & 1 == 1)
            by (bit_vector)
            requires
                shift < 32,
        ;
        (level & mask) == mask
    }

    /// Whether the pin is low, given the word read from its level register.
    pub fn is_low(&mut self, level: u32) -> (low: bool)
        ensures
            *final(self) == *old(self),
            low == !self::high(level, old(self).pin()),
    {
        !self.is_high(level)
    }
}

impl Gpio<Output> {
    /// The access that drives the pin high.
    pub fn set(&mut self) -> (access: Access)
        ensures
            *final(self) == *old(self),
            access == drive_high(old(self).pin()),
            access.wf(),
    {
        let pin = self.pin();
        Access {
            register: Register::Gpset,
            bank: level_bank(pin),
            operation: Operation::Write(1u32 << level_shift(pin)),
        }
    }

    /// The access that drives the pin low.
    pub fn clear(&mut self) -> (access: Access)
        ensures
            *final(self) == *old(self),
            access == drive_low(old(self).pin()),
            access.wf(),
    {
        let pin = self.pin();
        Access {
            register: Register::Gpclr,
            bank: level_bank(pin),
            operation: Operation::Write(1u32 << level_shift(pin)),
        }
    }
}

} // verus!
