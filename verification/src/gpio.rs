//! Identity and configuration value types for the GPIO pin multiplexer,
//! and the capability handles produced by successful pin claims.

use vstd::prelude::*;

pub mod port;
pub mod ports;
pub mod registers;

use crate::gpio::port::GpioPort;
use crate::gpio::registers::bit1;

verus! {

/// One of the 11 physical GPIO ports, each a multiplexed group of 16 pins
/// sharing a register block. Identity only; it carries no ownership.
#[derive(Clone, Copy, PartialEq, Eq, Structural, Debug)]
pub enum PortNumber {
    PortA,
    PortB,
    PortC,
    PortD,
    PortE,
    PortF,
    PortG,
    PortH,
    PortI,
    PortJ,
    PortK,
}

/// One of the 16 pin positions of a port. Identity only.
#[derive(Clone, Copy, PartialEq, Eq, Structural, Debug)]
pub enum PinNumber {
    Pin0,
    Pin1,
    Pin2,
    Pin3,
    Pin4,
    Pin5,
    Pin6,
    Pin7,
    Pin8,
    Pin9,
    Pin10,
    Pin11,
    Pin12,
    Pin13,
    Pin14,
    Pin15,
}

impl PinNumber {
    /// The pin's position inside its port's register words.
    pub open spec fn index(self) -> u32 {
        match self {
            PinNumber::Pin0 => 0,
            PinNumber::Pin1 => 1,
            PinNumber::Pin2 => 2,
            PinNumber::Pin3 => 3,
            PinNumber::Pin4 => 4,
            PinNumber::Pin5 => 5,
            PinNumber::Pin6 => 6,
            PinNumber::Pin7 => 7,
            PinNumber::Pin8 => 8,
            PinNumber::Pin9 => 9,
            PinNumber::Pin10 => 10,
            PinNumber::Pin11 => 11,
            PinNumber::Pin12 => 12,
            PinNumber::Pin13 => 13,
            PinNumber::Pin14 => 14,
            PinNumber::Pin15 => 15,
        }
    }

    pub fn as_index(self) -> (r: u32)
        ensures
            r == self.index(),
            r < 16,
    {
        match self {
            PinNumber::Pin0 => 0,
            PinNumber::Pin1 => 1,
            PinNumber::Pin2 => 2,
            PinNumber::Pin3 => 3,
            PinNumber::Pin4 => 4,
            PinNumber::Pin5 => 5,
            PinNumber::Pin6 => 6,
            PinNumber::Pin7 => 7,
            PinNumber::Pin8 => 8,
            PinNumber::Pin9 => 9,
            PinNumber::Pin10 => 10,
            PinNumber::Pin11 => 11,
            PinNumber::Pin12 => 12,
            PinNumber::Pin13 => 13,
            PinNumber::Pin14 => 14,
            PinNumber::Pin15 => 15,
        }
    }
}

/// Every pin position fits in a 16-pin port.
pub proof fn lemma_pin_index_bound(pin: PinNumber)
    ensures
        pin.index() < 16,
{
}

/// Mutually exclusive electrical function of a pin, encoded as the two-bit
/// code of the mode-select register field.
#[derive(Clone, Copy, PartialEq, Eq, Structural, Debug)]
pub enum Mode {
    Input,
    Output,
    Alternate,
    Analog,
}

impl Mode {
    pub open spec fn code(self) -> u32 {
        match self {
            Mode::Input => 0,
            Mode::Output => 1,
            Mode::Alternate => 2,
            Mode::Analog => 3,
        }
    }

    pub fn bits(self) -> (r: u32)
        ensures
            r == self.code(),
            r < 4,
    {
        match self {
            Mode::Input => 0,
            Mode::Output => 1,
            Mode::Alternate => 2,
            Mode::Analog => 3,
        }
    }
}

/// Pull-resistor configuration, encoded as the two-bit code of the
/// pull-resistor register field.
#[derive(Clone, Copy, PartialEq, Eq, Structural, Debug)]
pub enum Resistor {
    NoPull,
    PullUp,
    PullDown,
}

impl Resistor {
    pub open spec fn code(self) -> u32 {
        match self {
            Resistor::NoPull => 0,
            Resistor::PullUp => 1,
            Resistor::PullDown => 2,
        }
    }

    pub fn bits(self) -> (r: u32)
        ensures
            r == self.code(),
            r < 4,
    {
        match self {
            Resistor::NoPull => 0,
            Resistor::PullUp => 1,
            Resistor::PullDown => 2,
        }
    }
}

/// Drive style of an output or alternate-function pin, encoded as the
/// one-bit code of the output-type register field.
#[derive(Clone, Copy, PartialEq, Eq, Structural, Debug)]
pub enum OutputType {
    PushPull,
    OpenDrain,
}

impl OutputType {
    pub open spec fn code(self) -> u32 {
        match self {
            OutputType::PushPull => 0,
            OutputType::OpenDrain => 1,
        }
    }

    pub fn bits(self) -> (r: u32)
        ensures
            r == self.code(),
            r < 2,
    {
        match self {
            OutputType::PushPull => 0,
            OutputType::OpenDrain => 1,
        }
    }
}

/// Slew-rate class of an output or alternate-function pin, encoded as the
/// two-bit code of the output-speed register field.
#[derive(Clone, Copy, PartialEq, Eq, Structural, Debug)]
pub enum OutputSpeed {
    Low,
    Medium,
    High,
    VeryHigh,
}

impl OutputSpeed {
    pub open spec fn code(self) -> u32 {
        match self {
            OutputSpeed::Low => 0,
            OutputSpeed::Medium => 1,
            OutputSpeed::High => 2,
            OutputSpeed::VeryHigh => 3,
        }
    }

    pub fn bits(self) -> (r: u32)
        ensures
            r == self.code(),
            r < 4,
    {
        match self {
            OutputSpeed::Low => 0,
            OutputSpeed::Medium => 1,
            OutputSpeed::High => 2,
            OutputSpeed::VeryHigh => 3,
        }
    }
}

/// Peripheral-function code routable onto a pin in alternate mode, encoded
/// as the four-bit code of the alternate-function selector field.
#[derive(Clone, Copy, PartialEq, Eq, Structural, Debug)]
pub enum AlternateFunction {
    AF0,
    AF1,
    AF2,
    AF3,
    AF4,
    AF5,
    AF6,
    AF7,
    AF8,
    AF9,
    AF10,
    AF11,
    AF12,
    AF13,
    AF14,
    AF15,
}

impl AlternateFunction {
    pub open spec fn code(self) -> u32 {
        match self {
            AlternateFunction::AF0 => 0,
            AlternateFunction::AF1 => 1,
            AlternateFunction::AF2 => 2,
            AlternateFunction::AF3 => 3,
            AlternateFunction::AF4 => 4,
            AlternateFunction::AF5 => 5,
            AlternateFunction::AF6 => 6,
            AlternateFunction::AF7 => 7,
            AlternateFunction::AF8 => 8,
            AlternateFunction::AF9 => 9,
            AlternateFunction::AF10 => 10,
            AlternateFunction::AF11 => 11,
            AlternateFunction::AF12 => 12,
            AlternateFunction::AF13 => 13,
            AlternateFunction::AF14 => 14,
            AlternateFunction::AF15 => 15,
        }
    }

    pub fn bits(self) -> (r: u32)
        ensures
            r == self.code(),
            r < 16,
    {
        match self {
            AlternateFunction::AF0 => 0,
            AlternateFunction::AF1 => 1,
            AlternateFunction::AF2 => 2,
            AlternateFunction::AF3 => 3,
            AlternateFunction::AF4 => 4,
            AlternateFunction::AF5 => 5,
            AlternateFunction::AF6 => 6,
            AlternateFunction::AF7 => 7,
            AlternateFunction::AF8 => 8,
            AlternateFunction::AF9 => 9,
            AlternateFunction::AF10 => 10,
            AlternateFunction::AF11 => 11,
            AlternateFunction::AF12 => 12,
            AlternateFunction::AF13 => 13,
            AlternateFunction::AF14 => 14,
            AlternateFunction::AF15 => 15,
        }
    }
}

/// The single error kind of the pin-ownership engine: the requested
/// physical pin is already claimed by a live handle. Raised synchronously
/// at claim time and never retried automatically.
#[derive(Clone, Copy, PartialEq, Eq, Structural, Debug)]
pub enum Error {
    PinAlreadyInUse(PortNumber, PinNumber),
}

/// Read capability for one claimed input pin, bound to that pin's bit of
/// the port's input-data register. Only a successful claim can produce it.
pub struct InputPin {
    pub(crate) port: PortNumber,
    pub(crate) pin: PinNumber,
}

/// Write capability for one claimed output pin, bound to that pin's bit of
/// the port's output-data register and its atomic bit-set/reset register.
/// Only a successful claim can produce it.
pub struct OutputPin {
    pub(crate) port: PortNumber,
    pub(crate) pin: PinNumber,
}

impl InputPin {
    /// The port the capability is bound to.
    pub closed spec fn port_spec(self) -> PortNumber {
        self.port
    }

    /// The pin the capability is bound to.
    pub closed spec fn pin_spec(self) -> PinNumber {
        self.pin
    }

    pub fn port(&self) -> (r: PortNumber)
        ensures
            r == self.port_spec(),
    {
        self.port
    }

    pub fn pin(&self) -> (r: PinNumber)
        ensures
            r == self.pin_spec(),
    {
        self.pin
    }

    /// Reads the electrical level of the pin from the port's input-data
    /// register.
    pub fn is_high(&self, port: &GpioPort) -> (r: bool)
        requires
            port.port_id() == self.port_spec(),
        ensures
            r == (bit1(port.regs.idr, self.pin_spec().index()) == 1),
    {
        let i = self.pin.as_index();
        (port.regs.idr >> i) & 1 == 1
    }
}

impl OutputPin {
    /// The port the capability is bound to.
    pub closed spec fn port_spec(self) -> PortNumber {
        self.port
    }

    /// The pin the capability is bound to.
    pub closed spec fn pin_spec(self) -> PinNumber {
        self.pin
    }

    pub fn port(&self) -> (r: PortNumber)
        ensures
            r == self.port_spec(),
    {
        self.port
    }

    pub fn pin(&self) -> (r: PinNumber)
        ensures
            r == self.pin_spec(),
    {
        self.pin
    }

    /// Drives the pin high through the port's atomic bit-set/reset
    /// register; no other pin's output level or configuration changes.
    pub fn set_high(&self, port: &mut GpioPort)
        requires
            old(port).port_id() == self.port_spec(),
        ensures
            bit1(final(port).regs.odr, self.pin_spec().index()) == 1,
            forall|j: u32|
                j < 16 && j != self.pin_spec().index() ==> bit1(final(port).regs.odr, j) == bit1(
                    old(port).regs.odr,
                    j,
                ),
            final(port).regs.moder == old(port).regs.moder,
            final(port).regs.otyper == old(port).regs.otyper,
            final(port).regs.ospeedr == old(port).regs.ospeedr,
            final(port).regs.pupdr == old(port).regs.pupdr,
            final(port).regs.idr == old(port).regs.idr,
            final(port).regs.afrl == old(port).regs.afrl,
            final(port).regs.afrh == old(port).regs.afrh,
            final(port).port_id() == old(port).port_id(),
            forall|j: u32| final(port).owned(j) == old(port).owned(j),
    {
        let i = self.pin.as_index();
        port.regs.write_bsrr(1u32 << i);
        proof {
            assert(bit1(1u32 << i, i) == 1) by {
                assert(i < 16 ==> ((1u32 << i) >> i) & 1 == 1) by (bit_vector);
            }
            assert(port.regs.odr_of(i) == 1);
            assert forall|j: u32| j < 16 && j != i implies bit1(port.regs.odr, j) == bit1(
                old(port).regs.odr,
                j,
            ) by {
                assert(i < 16 && j < 16 && j != i ==> ((1u32 << i) >> j) & 1 == 0) by (bit_vector);
                assert(i < 16 && j < 16 ==> (((1u32 << i) >> 16) >> j) & 1 == 0) by (bit_vector);
                assert(bit1(1u32 << i, j) == 0);
                assert(bit1((1u32 << i) >> 16, j) == 0);
                assert(port.regs.odr_of(j) == old(port).regs.odr_of(j));
            }
        }
    }

    /// Drives the pin low through the port's atomic bit-set/reset register;
    /// no other pin's output level or configuration changes.
    pub fn set_low(&self, port: &mut GpioPort)
        requires
            old(port).port_id() == self.port_spec(),
        ensures
            bit1(final(port).regs.odr, self.pin_spec().index()) == 0,
            forall|j: u32|
                j < 16 && j != self.pin_spec().index() ==> bit1(final(port).regs.odr, j) == bit1(
                    old(port).regs.odr,
                    j,
                ),
            final(port).regs.moder == old(port).regs.moder,
            final(port).regs.otyper == old(port).regs.otyper,
            final(port).regs.ospeedr == old(port).regs.ospeedr,
            final(port).regs.pupdr == old(port).regs.pupdr,
            final(port).regs.idr == old(port).regs.idr,
            final(port).regs.afrl == old(port).regs.afrl,
            final(port).regs.afrh == old(port).regs.afrh,
            final(port).port_id() == old(port).port_id(),
            forall|j: u32| final(port).owned(j) == old(port).owned(j),
    {
        let i = self.pin.as_index();
        port.regs.write_bsrr((1u32 << i) << 16);
        proof {
            assert(bit1((1u32 << i) << 16, i) == 0 && bit1(((1u32 << i) << 16) >> 16, i) == 1) by {
                assert(i < 16 ==> (((1u32 << i) << 16) >> i) & 1 == 0) by (bit_vector);
                assert(i < 16 ==> ((((1u32 << i) << 16) >> 16) >> i) & 1 == 1) by (bit_vector);
            }
            assert(port.regs.odr_of(i) == 0);
            assert forall|j: u32| j < 16 && j != i implies bit1(port.regs.odr, j) == bit1(
                old(port).regs.odr,
                j,
            ) by {
                assert(i < 16 && j < 16 && j != i ==> (((1u32 << i) << 16) >> j) & 1 == 0)
                    by (bit_vector);
                assert(i < 16 && j < 16 && j != i ==> ((((1u32 << i) << 16) >> 16) >> j) & 1 == 0)
                    by (bit_vector);
                assert(bit1((1u32 << i) << 16, j) == 0);
                assert(bit1(((1u32 << i) << 16) >> 16, j) == 0);
                assert(port.regs.odr_of(j) == old(port).regs.odr_of(j));
            }
        }
    }
}

} // verus!
