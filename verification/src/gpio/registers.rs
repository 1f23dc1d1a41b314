//! Model of one GPIO port's register block.
//!
//! A single 32-bit register word holds the settings of all 16 pins of a
//! port (two bits per pin for mode select, pull resistor and output speed,
//! one bit per pin for output type, four bits per pin for the
//! alternate-function selector, split over a low and a high word). Every
//! write is therefore a read-modify-write that must touch only the field of
//! the requested pins and leave every other pin's field intact; the
//! contracts below state exactly that.

use vstd::prelude::*;

use crate::gpio::{AlternateFunction, Mode, OutputSpeed, OutputType, PinNumber, Resistor};

verus! {

/// The one-bit field of pin `i` inside a packed register word.
pub open spec fn bit1(w: u32, i: u32) -> u32 {
    (w >> i) & 1
}

/// The two-bit field of pin `i` inside a packed register word.
pub open spec fn bits2(w: u32, i: u32) -> u32 {
    ((w >> i) >> i) & 3
}

/// The four-bit field of slot `i` inside a packed register word (eight
/// slots per word).
pub open spec fn bits4(w: u32, i: u32) -> u32 {
    ((((w >> i) >> i) >> i) >> i) & 0xf
}

/// True iff some pin among the first `n` of `pins` has index `i`.
pub open spec fn pins_contain_upto(pins: Seq<PinNumber>, n: int, i: u32) -> bool {
    exists|k: int| 0 <= k < n && #[trigger] pins[k].index() == i
}

/// True iff some pin of `pins` has index `i`.
pub open spec fn pins_contain(pins: Seq<PinNumber>, i: u32) -> bool {
    pins_contain_upto(pins, pins.len() as int, i)
}

/// Read-modify-write of the one-bit field of pin `i`: only that bit of the
/// word changes.
fn word_set_bit1(w: u32, i: u32, v: u32) -> (r: u32)
    requires
        i < 16,
        v < 2,
    ensures
        bit1(r, i) == v,
        forall|j: u32| j < 32 && j != i ==> bit1(r, j) == bit1(w, j),
{
    let mask: u32 = 1u32 << i;
    let r = (w & !mask) | (v << i);
    proof {
        assert(i < 16 && v < 2 ==> (((w & !(1u32 << i)) | (v << i)) >> i) & 1 == v) by (bit_vector);
        assert forall|j: u32| j < 32 && j != i implies bit1(r, j) == bit1(w, j) by {
            assert(i < 16 && j < 32 && j != i && v < 2 ==> (((w & !(1u32 << i)) | (v << i)) >> j)
                & 1 == (w >> j) & 1) by (bit_vector);
        }
    }
    r
}

/// Read-modify-write of the two-bit field of pin `i`: only that bit pair of
/// the word changes.
fn word_set_bits2(w: u32, i: u32, v: u32) -> (r: u32)
    requires
        i < 16,
        v < 4,
    ensures
        bits2(r, i) == v,
        forall|j: u32| j < 16 && j != i ==> bits2(r, j) == bits2(w, j),
{
    let mask: u32 = (3u32 << i) << i;
    let r = (w & !mask) | ((v << i) << i);
    proof {
        assert(i < 16 && v < 4 ==> ((((w & !((3u32 << i) << i)) | ((v << i) << i)) >> i) >> i) & 3
            == v) by (bit_vector);
        assert forall|j: u32| j < 16 && j != i implies bits2(r, j) == bits2(w, j) by {
            assert(i < 16 && j < 16 && j != i && v < 4 ==> ((((w & !((3u32 << i) << i)) | ((v << i)
                << i)) >> j) >> j) & 3 == ((w >> j) >> j) & 3) by (bit_vector);
        }
    }
    r
}

/// Read-modify-write of the four-bit field of slot `i`: only that nibble of
/// the word changes.
fn word_set_bits4(w: u32, i: u32, v: u32) -> (r: u32)
    requires
        i < 8,
        v < 16,
    ensures
        bits4(r, i) == v,
        forall|j: u32| j < 8 && j != i ==> bits4(r, j) == bits4(w, j),
{
    let mask: u32 = (((0xfu32 << i) << i) << i) << i;
    let r = (w & !mask) | ((((v << i) << i) << i) << i);
    proof {
        assert(i < 8 && v < 16 ==> ((((((w & !((((0xfu32 << i) << i) << i) << i)) | ((((v << i)
            << i) << i) << i)) >> i) >> i) >> i) >> i) & 0xf == v) by (bit_vector);
        assert forall|j: u32| j < 8 && j != i implies bits4(r, j) == bits4(w, j) by {
            assert(i < 8 && j < 8 && j != i && v < 16 ==> ((((((w & !((((0xfu32 << i) << i) << i)
                << i)) | ((((v << i) << i) << i) << i)) >> j) >> j) >> j) >> j) & 0xf == ((((w
                >> j) >> j) >> j) >> j) & 0xf) by (bit_vector);
        }
    }
    r
}

/// One GPIO port's memory-mapped register block, as plain register words.
///
/// `idr` is the read-only input-data register (one bit per pin, driven by
/// the pins themselves) and `odr` the output-data register; the remaining
/// words hold the per-pin configuration fields.
#[derive(Clone, Copy, PartialEq, Eq, Structural, Debug)]
pub struct PortRegisters {
    /// Mode select, two bits per pin.
    pub moder: u32,
    /// Output type, one bit per pin.
    pub otyper: u32,
    /// Output speed, two bits per pin.
    pub ospeedr: u32,
    /// Pull resistor, two bits per pin.
    pub pupdr: u32,
    /// Alternate-function selector of pins 0..8, four bits per pin.
    pub afrl: u32,
    /// Alternate-function selector of pins 8..16, four bits per pin.
    pub afrh: u32,
    /// Input data, one bit per pin (read-only on hardware).
    pub idr: u32,
    /// Output data, one bit per pin.
    pub odr: u32,
}

impl PortRegisters {
    /// The mode-select field of pin `i`.
    pub open spec fn mode_of(self, i: u32) -> u32 {
        bits2(self.moder, i)
    }

    /// The pull-resistor field of pin `i`.
    pub open spec fn resistor_of(self, i: u32) -> u32 {
        bits2(self.pupdr, i)
    }

    /// The output-type field of pin `i`.
    pub open spec fn out_type_of(self, i: u32) -> u32 {
        bit1(self.otyper, i)
    }

    /// The output-speed field of pin `i`.
    pub open spec fn out_speed_of(self, i: u32) -> u32 {
        bits2(self.ospeedr, i)
    }

    /// The alternate-function selector field of pin `i`.
    pub open spec fn af_of(self, i: u32) -> u32 {
        if i < 8 {
            bits4(self.afrl, i)
        } else {
            bits4(self.afrh, (i - 8) as u32)
        }
    }

    /// The output-data bit of pin `i`.
    pub open spec fn odr_of(self, i: u32) -> u32 {
        bit1(self.odr, i)
    }

    /// The input-data bit of pin `i`.
    pub open spec fn idr_of(self, i: u32) -> u32 {
        bit1(self.idr, i)
    }

    /// A register block in its power-on reset state.
    pub fn new() -> (r: PortRegisters)
        ensures
            r == (PortRegisters {
                moder: 0u32,
                otyper: 0u32,
                ospeedr: 0u32,
                pupdr: 0u32,
                afrl: 0u32,
                afrh: 0u32,
                idr: 0u32,
                odr: 0u32,
            }),
    {
        PortRegisters { moder: 0, otyper: 0, ospeedr: 0, pupdr: 0, afrl: 0, afrh: 0, idr: 0, odr: 0 }
    }

    /// Writes the mode-select field of one pin, leaving the field of every
    /// other pin and all other registers untouched.
    pub fn set_mode_one(&mut self, pin: PinNumber, mode: Mode)
        ensures
            final(self).mode_of(pin.index()) == mode.code(),
            forall|j: u32| j < 16 && j != pin.index() ==> final(self).mode_of(j) == old(self).mode_of(j),
            *final(self) == (PortRegisters { moder: final(self).moder, ..*old(self) }),
    {
        let i = pin.as_index();
        self.moder = word_set_bits2(self.moder, i, mode.bits());
    }

    /// Writes the pull-resistor field of one pin, leaving the field of
    /// every other pin and all other registers untouched.
    pub fn set_resistor_one(&mut self, pin: PinNumber, resistor: Resistor)
        ensures
            final(self).resistor_of(pin.index()) == resistor.code(),
            forall|j: u32|
                j < 16 && j != pin.index() ==> final(self).resistor_of(j) == old(self).resistor_of(j),
            *final(self) == (PortRegisters { pupdr: final(self).pupdr, ..*old(self) }),
    {
        let i = pin.as_index();
        self.pupdr = word_set_bits2(self.pupdr, i, resistor.bits());
    }

    /// Writes the output-type field of one pin, leaving the field of every
    /// other pin and all other registers untouched.
    pub fn set_out_type_one(&mut self, pin: PinNumber, out_type: OutputType)
        ensures
            final(self).out_type_of(pin.index()) == out_type.code(),
            forall|j: u32|
                j < 16 && j != pin.index() ==> final(self).out_type_of(j) == old(self).out_type_of(j),
            *final(self) == (PortRegisters { otyper: final(self).otyper, ..*old(self) }),
    {
        let i = pin.as_index();
        self.otyper = word_set_bit1(self.otyper, i, out_type.bits());
    }

    /// Writes the output-speed field of one pin, leaving the field of every
    /// other pin and all other registers untouched.
    pub fn set_out_speed_one(&mut self, pin: PinNumber, out_speed: OutputSpeed)
        ensures
            final(self).out_speed_of(pin.index()) == out_speed.code(),
            forall|j: u32|
                j < 16 && j != pin.index() ==> final(self).out_speed_of(j) == old(self).out_speed_of(j),
            *final(self) == (PortRegisters { ospeedr: final(self).ospeedr, ..*old(self) }),
    {
        let i = pin.as_index();
        self.ospeedr = word_set_bits2(self.ospeedr, i, out_speed.bits());
    }

    /// Writes the alternate-function selector field of one pin, leaving the
    /// field of every other pin and all other registers untouched.
    pub fn set_alternate_fn_one(&mut self, pin: PinNumber, alternate_fn: AlternateFunction)
        ensures
            final(self).af_of(pin.index()) == alternate_fn.code(),
            forall|j: u32| j < 16 && j != pin.index() ==> final(self).af_of(j) == old(self).af_of(j),
            *final(self) == (PortRegisters { afrl: final(self).afrl, afrh: final(self).afrh, ..*old(self) }),
    {
        let i = pin.as_index();
        if i < 8 {
            self.afrl = word_set_bits4(self.afrl, i, alternate_fn.bits());
        } else {
            self.afrh = word_set_bits4(self.afrh, i - 8, alternate_fn.bits());
        }
    }

    /// Writes the mode-select field of every pin in `pins`, leaving the
    /// field of every other pin and all other registers untouched.
    pub fn set_mode(&mut self, pins: &[PinNumber], mode: Mode)
        ensures
            forall|i: u32| i < 16 && pins_contain(pins@, i) ==> final(self).mode_of(i) == mode.code(),
            forall|i: u32|
                i < 16 && !pins_contain(pins@, i) ==> final(self).mode_of(i) == old(self).mode_of(i),
            *final(self) == (PortRegisters { moder: final(self).moder, ..*old(self) }),
    {
        let mut k: usize = 0;
        while k < pins.len()
            invariant
                k <= pins.len(),
                forall|i: u32|
                    i < 16 && pins_contain_upto(pins@, k as int, i) ==> self.mode_of(i)
                        == mode.code(),
                forall|i: u32|
                    i < 16 && !pins_contain_upto(pins@, k as int, i) ==> self.mode_of(i) == old(
                        self,
                    ).mode_of(i),
                *self == (PortRegisters { moder: self.moder, ..*old(self) }),
            decreases pins.len() - k,
        {
            self.set_mode_one(pins[k], mode);
            k += 1;
        }
    }

    /// Writes the pull-resistor field of every pin in `pins`, leaving the
    /// field of every other pin and all other registers untouched.
    pub fn set_resistor(&mut self, pins: &[PinNumber], resistor: Resistor)
        ensures
            forall|i: u32|
                i < 16 && pins_contain(pins@, i) ==> final(self).resistor_of(i) == resistor.code(),
            forall|i: u32|
                i < 16 && !pins_contain(pins@, i) ==> final(self).resistor_of(i) == old(
                    self,
                ).resistor_of(i),
            *final(self) == (PortRegisters { pupdr: final(self).pupdr, ..*old(self) }),
    {
        let mut k: usize = 0;
        while k < pins.len()
            invariant
                k <= pins.len(),
                forall|i: u32|
                    i < 16 && pins_contain_upto(pins@, k as int, i) ==> self.resistor_of(i)
                        == resistor.code(),
                forall|i: u32|
                    i < 16 && !pins_contain_upto(pins@, k as int, i) ==> self.resistor_of(i)
                        == old(self).resistor_of(i),
                *self == (PortRegisters { pupdr: self.pupdr, ..*old(self) }),
            decreases pins.len() - k,
        {
            self.set_resistor_one(pins[k], resistor);
            k += 1;
        }
    }

    /// Writes the output-type field of every pin in `pins`, leaving the
    /// field of every other pin and all other registers untouched.
    pub fn set_out_type(&mut self, pins: &[PinNumber], out_type: OutputType)
        ensures
            forall|i: u32|
                i < 16 && pins_contain(pins@, i) ==> final(self).out_type_of(i) == out_type.code(),
            forall|i: u32|
                i < 16 && !pins_contain(pins@, i) ==> final(self).out_type_of(i) == old(
                    self,
                ).out_type_of(i),
            *final(self) == (PortRegisters { otyper: final(self).otyper, ..*old(self) }),
    {
        let mut k: usize = 0;
        while k < pins.len()
            invariant
                k <= pins.len(),
                forall|i: u32|
                    i < 16 && pins_contain_upto(pins@, k as int, i) ==> self.out_type_of(i)
                        == out_type.code(),
                forall|i: u32|
                    i < 16 && !pins_contain_upto(pins@, k as int, i) ==> self.out_type_of(i)
                        == old(self).out_type_of(i),
                *self == (PortRegisters { otyper: self.otyper, ..*old(self) }),
            decreases pins.len() - k,
        {
            self.set_out_type_one(pins[k], out_type);
            k += 1;
        }
    }

    /// Writes the output-speed field of every pin in `pins`, leaving the
    /// field of every other pin and all other registers untouched.
    pub fn set_out_speed(&mut self, pins: &[PinNumber], out_speed: OutputSpeed)
        ensures
            forall|i: u32|
                i < 16 && pins_contain(pins@, i) ==> final(self).out_speed_of(i) == out_speed.code(),
            forall|i: u32|
                i < 16 && !pins_contain(pins@, i) ==> final(self).out_speed_of(i) == old(
                    self,
                ).out_speed_of(i),
            *final(self) == (PortRegisters { ospeedr: final(self).ospeedr, ..*old(self) }),
    {
        let mut k: usize = 0;
        while k < pins.len()
            invariant
                k <= pins.len(),
                forall|i: u32|
                    i < 16 && pins_contain_upto(pins@, k as int, i) ==> self.out_speed_of(i)
                        == out_speed.code(),
                forall|i: u32|
                    i < 16 && !pins_contain_upto(pins@, k as int, i) ==> self.out_speed_of(i)
                        == old(self).out_speed_of(i),
                *self == (PortRegisters { ospeedr: self.ospeedr, ..*old(self) }),
            decreases pins.len() - k,
        {
            self.set_out_speed_one(pins[k], out_speed);
            k += 1;
        }
    }

    /// Writes the alternate-function selector field of every pin in `pins`,
    /// leaving the field of every other pin and all other registers
    /// untouched. The selector of pins 0..8 lives in the low word, that of
    /// pins 8..16 in the high word.
    pub fn set_alternate_fn(&mut self, pins: &[PinNumber], alternate_fn: AlternateFunction)
        ensures
            forall|i: u32| i < 16 && pins_contain(pins@, i) ==> final(self).af_of(i) == alternate_fn.code(),
            forall|i: u32|
                i < 16 && !pins_contain(pins@, i) ==> final(self).af_of(i) == old(self).af_of(i),
            *final(self) == (PortRegisters { afrl: final(self).afrl, afrh: final(self).afrh, ..*old(self) }),
    {
        let mut k: usize = 0;
        while k < pins.len()
            invariant
                k <= pins.len(),
                forall|i: u32|
                    i < 16 && pins_contain_upto(pins@, k as int, i) ==> self.af_of(i)
                        == alternate_fn.code(),
                forall|i: u32|
                    i < 16 && !pins_contain_upto(pins@, k as int, i) ==> self.af_of(i) == old(
                        self,
                    ).af_of(i),
                *self == (PortRegisters { afrl: self.afrl, afrh: self.afrh, ..*old(self) }),
            decreases pins.len() - k,
        {
            self.set_alternate_fn_one(pins[k], alternate_fn);
            k += 1;
        }
    }

    /// One write to the atomic bit-set/reset register: for each pin, bit
    /// `i` of `w` sets the output-data bit, bit `i + 16` resets it, and set
    /// wins over reset. No read-modify-write of the output-data register is
    /// involved, and no configuration register changes.
    pub fn write_bsrr(&mut self, w: u32)
        ensures
            forall|j: u32|
                j < 16 ==> final(self).odr_of(j) == (if bit1(w, j) == 1 {
                    1u32
                } else if bit1(w >> 16, j) == 1 {
                    0u32
                } else {
                    old(self).odr_of(j)
                }),
            *final(self) == (PortRegisters { odr: final(self).odr, ..*old(self) }),
    {
        let set_mask: u32 = w & 0xffff;
        let reset_mask: u32 = (w >> 16) & 0xffff;
        let orig = self.odr;
        self.odr = (self.odr & !reset_mask) | set_mask;
        proof {
            assert forall|j: u32| j < 16 implies bit1((orig & !((w >> 16) & 0xffff)) | (w & 0xffff),
                j) == (if bit1(w, j) == 1 {
                1u32
            } else if bit1(w >> 16, j) == 1 {
                0u32
            } else {
                bit1(orig, j)
            }) by {
                assert(j < 16 ==> (((orig & !((w >> 16) & 0xffff)) | (w & 0xffff)) >> j) & 1 == (
                if (w >> j) & 1 == 1 {
                    1u32
                } else if ((w >> 16) >> j) & 1 == 1 {
                    0u32
                } else {
                    (orig >> j) & 1
                })) by (bit_vector);
            }
        }
    }
}

} // verus!
