//! Per-port pin-ownership engine.
//!
//! One `GpioPort` tracks which of its 16 pins are claimed (the ownership
//! bitmap) and performs the register-level transitions that move a claimed
//! pin into its electrical mode. A pin, once claimed, is never returned to
//! the pool; multi-pin claims are atomic: either every requested pin
//! becomes owned, or none does.

use vstd::prelude::*;

use crate::gpio::registers::{bit1, pins_contain, pins_contain_upto, PortRegisters};
use crate::gpio::{
    AlternateFunction, Error, InputPin, Mode, OutputPin, OutputSpeed, OutputType, PinNumber,
    PortNumber, Resistor,
};

verus! {

/// One step of the ownership bitmap: claiming pin `i` fails if its bit is
/// already set, and otherwise sets exactly that bit.
pub open spec fn claim1(m: u32, i: u32) -> Option<u32> {
    if bit1(m, i) == 1 {
        Option::None
    } else {
        Option::Some(m | (1u32 << i))
    }
}

/// True iff every pin of `pins` is free in the bitmap `m` and no pin
/// appears twice in `pins`: exactly the condition under which a multi-pin
/// claim succeeds.
pub open spec fn pins_claimable(m: u32, pins: Seq<PinNumber>) -> bool {
    forall|k: int|
        0 <= k < pins.len() ==> bit1(m, (#[trigger] pins[k]).index()) != 1 && !pins_contain_upto(
            pins,
            k,
            pins[k].index(),
        )
}

/// Claiming the same pin twice without an intervening release always fails
/// the second claim, whatever else happened to the bitmap in between
/// claims of other pins; and a failed claim leaves the bitmap unchanged
/// (`claim1` returns no new bitmap, and `GpioPort::use_pin` ensures the
/// stored bitmap is untouched on failure).
pub proof fn lemma_second_claim_fails(m: u32, i: u32)
    requires
        i < 16,
    ensures
        claim1(m, i) matches Some(m2) ==> claim1(m2, i) is None,
{
    if claim1(m, i) is Some {
        assert(i < 16 ==> ((m | (1u32 << i)) >> i) & 1 == 1) by (bit_vector);
    }
}

/// A multi-pin claim whose request contains an already-owned pin can never
/// succeed; since a failed multi-pin claim leaves the bitmap unchanged
/// (see `GpioPort::use_pins`), every pin's ownership state stays exactly
/// as it was before the call.
pub proof fn lemma_owned_pin_blocks_claim(m: u32, pins: Seq<PinNumber>, k: int)
    requires
        0 <= k < pins.len(),
        bit1(m, pins[k].index()) == 1,
    ensures
        !pins_claimable(m, pins),
{
    assert(bit1(m, pins[k].index()) == 1);
}

/// The ownership engine and register block of one physical port.
pub struct GpioPort {
    /// Which physical port this engine owns.
    pub port: PortNumber,
    /// The ownership bitmap: bit `i` is set iff pin `i` is claimed. It
    /// mutates only through claim operations and never clears: this layer
    /// does not support returning a pin to the pool.
    pub in_use: u32,
    /// The port's register block model.
    pub regs: PortRegisters,
}

impl GpioPort {
    /// Which physical port this engine owns.
    pub open spec fn port_id(self) -> PortNumber {
        self.port
    }

    /// The ownership bitmap: bit `i` is set iff pin `i` is claimed.
    pub open spec fn bitmap(self) -> u32 {
        self.in_use
    }

    /// True iff pin `i` of this port is claimed by a live handle.
    pub open spec fn owned(self, i: u32) -> bool {
        bit1(self.bitmap(), i) == 1
    }

    /// A fresh engine for `port`: no pin is owned yet.
    pub fn new(port: PortNumber, regs: PortRegisters) -> (r: GpioPort)
        ensures
            r.port_id() == port,
            r.regs == regs,
            r.bitmap() == 0,
            forall|i: u32| !r.owned(i),
    {
        proof {
            assert(forall|i: u32| #[trigger] ((0u32 >> i) & 1) == 0) by (bit_vector);
        }
        GpioPort { port, in_use: 0, regs }
    }

    pub fn is_in_use(&self, pin: PinNumber) -> (r: bool)
        ensures
            r == self.owned(pin.index()),
    {
        let i = pin.as_index();
        (self.in_use >> i) & 1 == 1
    }

    /// Claims one pin: fails with `PinAlreadyInUse` — changing nothing —
    /// if the pin is already owned, and otherwise marks exactly that pin
    /// owned. No register is touched either way.
    pub fn use_pin(&mut self, pin: PinNumber) -> (r: Result<(), Error>)
        ensures
            r is Ok <==> !old(self).owned(pin.index()),
            r is Ok ==> claim1(old(self).bitmap(), pin.index()) == Some(final(self).bitmap()),
            r is Ok ==> final(self).owned(pin.index()) && forall|j: u32|
                j != pin.index() ==> final(self).owned(j) == old(self).owned(j),
            final(self).regs == old(self).regs,
            final(self).port_id() == old(self).port_id(),
            r matches Err(e) ==> *final(self) == *old(self) && e == Error::PinAlreadyInUse(
                old(self).port_id(),
                pin,
            ),
    {
        let i = pin.as_index();
        if (self.in_use >> i) & 1 == 1 {
            Err(Error::PinAlreadyInUse(self.port, pin))
        } else {
            let m = self.in_use;
            self.in_use = m | (1u32 << i);
            proof {
                assert(i < 16 ==> ((m | (1u32 << i)) >> i) & 1 == 1) by (bit_vector);
                assert forall|j: u32| j != i implies ((m | (1u32 << i)) >> j) & 1 == (m >> j)
                    & 1 by {
                    assert(i < 16 && j != i ==> ((m | (1u32 << i)) >> j) & 1 == (m >> j) & 1)
                        by (bit_vector);
                }
            }
            Ok(())
        }
    }

    /// Claims every pin in `pins` atomically: the ownership bitmap is
    /// validated against a snapshot first and only committed back when
    /// every requested pin was free, so either all requested pins become
    /// owned or every pin's ownership state is left exactly as it was. The
    /// first pin found already owned — or repeated within the request — is
    /// the one reported. No register is touched either way.
    pub fn use_pins(&mut self, pins: &[PinNumber]) -> (r: Result<(), Error>)
        ensures
            r is Ok <==> pins_claimable(old(self).bitmap(), pins@),
            r is Ok ==> forall|j: u32|
                final(self).owned(j) == (old(self).owned(j) || pins_contain(pins@, j)),
            final(self).regs == old(self).regs,
            final(self).port_id() == old(self).port_id(),
            r is Err ==> *final(self) == *old(self),
            r matches Err(e) ==> exists|k: int|
                0 <= k < pins@.len() && e == Error::PinAlreadyInUse(
                    old(self).port_id(),
                    #[trigger] pins@[k],
                ) && (old(self).owned(pins@[k].index()) || pins_contain_upto(
                    pins@,
                    k,
                    pins@[k].index(),
                )) && (forall|j: int|
                    0 <= j < k ==> !old(self).owned((#[trigger] pins@[j]).index())
                        && !pins_contain_upto(pins@, j, pins@[j].index())),
    {
        let ghost m0 = self.in_use;
        let mut snapshot: u32 = self.in_use;
        let mut k: usize = 0;
        while k < pins.len()
            invariant
                k <= pins.len(),
                self.in_use == m0,
                *self == *old(self),
                forall|j: u32|
                    (#[trigger] bit1(snapshot, j) == 1) <==> (bit1(m0, j) == 1 || pins_contain_upto(
                        pins@,
                        k as int,
                        j,
                    )),
                forall|j: int|
                    0 <= j < k ==> bit1(m0, (#[trigger] pins@[j]).index()) != 1
                        && !pins_contain_upto(pins@, j, pins@[j].index()),
            decreases pins.len() - k,
        {
            let pin = pins[k];
            let i = pin.as_index();
            if (snapshot >> i) & 1 == 1 {
                proof {
                    assert(pins@[k as int] == pin);
                    assert(bit1(snapshot, i) == 1);
                    if pins_claimable(m0, pins@) {
                        assert(bit1(m0, pins@[k as int].index()) != 1 && !pins_contain_upto(
                            pins@,
                            k as int,
                            pins@[k as int].index(),
                        ));
                        assert(false);
                    }
                }
                return Err(Error::PinAlreadyInUse(self.port, pin));
            }
            proof {
                assert(pins@[k as int] == pin);
                assert(bit1(snapshot, i) != 1);
            }
            let ghost snap_prev = snapshot;
            snapshot = snapshot | (1u32 << i);
            proof {
                assert forall|j: u32| (bit1(snapshot, j) == 1) == (bit1(snap_prev, j) == 1 || j
                    == i) by {
                    assert(i < 16 ==> ((snap_prev | (1u32 << i)) >> i) & 1 == 1) by (bit_vector);
                    assert(i < 16 && j != i ==> ((snap_prev | (1u32 << i)) >> j) & 1 == (snap_prev
                        >> j) & 1) by (bit_vector);
                }
            }
            k += 1;
        }
        self.in_use = snapshot;
        Ok(())
    }

    /// Claims the pin, then configures it as an input with the requested
    /// pull resistor; returns the read capability bound to that pin. On
    /// failure nothing — ownership or register — changes.
    pub fn to_input(&mut self, pin: PinNumber, resistor: Resistor) -> (r: Result<InputPin, Error>)
        ensures
            r is Ok <==> !old(self).owned(pin.index()),
            r matches Ok(h) ==> h.port_spec() == old(self).port_id() && h.pin_spec() == pin,
            r is Ok ==> final(self).regs.mode_of(pin.index()) == Mode::Input.code()
                && final(self).regs.resistor_of(pin.index()) == resistor.code() && final(self).owned(pin.index()),
            r is Ok ==> forall|j: u32| j != pin.index() ==> final(self).owned(j) == old(self).owned(j),
            r is Ok ==> forall|j: u32|
                j < 16 && j != pin.index() ==> final(self).regs.mode_of(j) == old(self).regs.mode_of(j)
                    && final(self).regs.resistor_of(j) == old(self).regs.resistor_of(j),
            r is Ok ==> final(self).regs == (PortRegisters {
                moder: final(self).regs.moder,
                pupdr: final(self).regs.pupdr,
                ..old(self).regs
            }),
            final(self).port_id() == old(self).port_id(),
            r matches Err(e) ==> *final(self) == *old(self) && e == Error::PinAlreadyInUse(
                old(self).port_id(),
                pin,
            ),
    {
        match self.use_pin(pin) {
            Err(e) => Err(e),
            Ok(()) => {
                self.regs.set_mode_one(pin, Mode::Input);
                self.regs.set_resistor_one(pin, resistor);
                Ok(InputPin { port: self.port, pin })
            },
        }
    }

    /// Claims the pin, then configures it as an output with the requested
    /// drive style, slew rate and pull resistor; returns the write
    /// capability bound to that pin. On failure nothing changes.
    pub fn to_output(
        &mut self,
        pin: PinNumber,
        out_type: OutputType,
        out_speed: OutputSpeed,
        resistor: Resistor,
    ) -> (r: Result<OutputPin, Error>)
        ensures
            r is Ok <==> !old(self).owned(pin.index()),
            r matches Ok(h) ==> h.port_spec() == old(self).port_id() && h.pin_spec() == pin,
            r is Ok ==> final(self).regs.mode_of(pin.index()) == Mode::Output.code()
                && final(self).regs.out_type_of(pin.index()) == out_type.code()
                && final(self).regs.out_speed_of(pin.index()) == out_speed.code()
                && final(self).regs.resistor_of(pin.index()) == resistor.code() && final(self).owned(pin.index()),
            r is Ok ==> forall|j: u32| j != pin.index() ==> final(self).owned(j) == old(self).owned(j),
            r is Ok ==> forall|j: u32|
                j < 16 && j != pin.index() ==> final(self).regs.mode_of(j) == old(self).regs.mode_of(j)
                    && final(self).regs.out_type_of(j) == old(self).regs.out_type_of(j)
                    && final(self).regs.out_speed_of(j) == old(self).regs.out_speed_of(j)
                    && final(self).regs.resistor_of(j) == old(self).regs.resistor_of(j),
            r is Ok ==> final(self).regs == (PortRegisters {
                moder: final(self).regs.moder,
                otyper: final(self).regs.otyper,
                ospeedr: final(self).regs.ospeedr,
                pupdr: final(self).regs.pupdr,
                ..old(self).regs
            }),
            final(self).port_id() == old(self).port_id(),
            r matches Err(e) ==> *final(self) == *old(self) && e == Error::PinAlreadyInUse(
                old(self).port_id(),
                pin,
            ),
    {
        match self.use_pin(pin) {
            Err(e) => Err(e),
            Ok(()) => {
                self.regs.set_mode_one(pin, Mode::Output);
                let ghost r1 = self.regs;
                self.regs.set_out_type_one(pin, out_type);
                let ghost r2 = self.regs;
                self.regs.set_out_speed_one(pin, out_speed);
                let ghost r3 = self.regs;
                self.regs.set_resistor_one(pin, resistor);
                proof {
                    let i = pin.index();
                    assert(r2.mode_of(i) == r1.mode_of(i));
                    assert(r3.mode_of(i) == r2.mode_of(i));
                    assert(self.regs.mode_of(i) == r3.mode_of(i));
                    assert(r3.out_type_of(i) == r2.out_type_of(i));
                    assert(self.regs.out_type_of(i) == r3.out_type_of(i));
                    assert(self.regs.out_speed_of(i) == r3.out_speed_of(i));
                    assert forall|j: u32| j < 16 && j != pin.index() implies self.regs.mode_of(j)
                        == old(self).regs.mode_of(j) && self.regs.out_type_of(j) == old(
                        self,
                    ).regs.out_type_of(j) && self.regs.out_speed_of(j) == old(
                        self,
                    ).regs.out_speed_of(j) && self.regs.resistor_of(j) == old(
                        self,
                    ).regs.resistor_of(j) by {
                        assert(r1.mode_of(j) == old(self).regs.mode_of(j));
                        assert(r2.mode_of(j) == r1.mode_of(j));
                        assert(r3.mode_of(j) == r2.mode_of(j));
                        assert(self.regs.mode_of(j) == r3.mode_of(j));
                        assert(r1.out_type_of(j) == old(self).regs.out_type_of(j));
                        assert(r2.out_type_of(j) == r1.out_type_of(j));
                        assert(r3.out_type_of(j) == r2.out_type_of(j));
                        assert(self.regs.out_type_of(j) == r3.out_type_of(j));
                        assert(r1.out_speed_of(j) == old(self).regs.out_speed_of(j));
                        assert(r2.out_speed_of(j) == r1.out_speed_of(j));
                        assert(r3.out_speed_of(j) == r2.out_speed_of(j));
                        assert(self.regs.out_speed_of(j) == r3.out_speed_of(j));
                        assert(r1.resistor_of(j) == old(self).regs.resistor_of(j));
                        assert(r2.resistor_of(j) == r1.resistor_of(j));
                        assert(r3.resistor_of(j) == r2.resistor_of(j));
                        assert(self.regs.resistor_of(j) == r3.resistor_of(j));
                    }
                }
                Ok(OutputPin { port: self.port, pin })
            },
        }
    }

    /// Claims the pin, then routes it to the requested alternate function
    /// with the given electrical configuration. No capability is returned:
    /// an alternate-function pin is driven by the peripheral it is routed
    /// to, not by this layer. On failure nothing changes.
    pub fn to_alternate_function(
        &mut self,
        pin: PinNumber,
        alternate_fn: AlternateFunction,
        typ: OutputType,
        speed: OutputSpeed,
        resistor: Resistor,
    ) -> (r: Result<(), Error>)
        ensures
            r is Ok <==> !old(self).owned(pin.index()),
            r is Ok ==> final(self).regs.mode_of(pin.index()) == Mode::Alternate.code()
                && final(self).regs.af_of(pin.index()) == alternate_fn.code()
                && final(self).regs.out_type_of(pin.index()) == typ.code()
                && final(self).regs.out_speed_of(pin.index()) == speed.code()
                && final(self).regs.resistor_of(pin.index()) == resistor.code() && final(self).owned(pin.index()),
            r is Ok ==> forall|j: u32| j != pin.index() ==> final(self).owned(j) == old(self).owned(j),
            r is Ok ==> forall|j: u32|
                j < 16 && j != pin.index() ==> final(self).regs.mode_of(j) == old(self).regs.mode_of(j)
                    && final(self).regs.af_of(j) == old(self).regs.af_of(j) && final(self).regs.out_type_of(j)
                    == old(self).regs.out_type_of(j) && final(self).regs.out_speed_of(j) == old(
                    self,
                ).regs.out_speed_of(j) && final(self).regs.resistor_of(j) == old(self).regs.resistor_of(j),
            final(self).regs.idr == old(self).regs.idr,
            final(self).regs.odr == old(self).regs.odr,
            final(self).port_id() == old(self).port_id(),
            r matches Err(e) ==> *final(self) == *old(self) && e == Error::PinAlreadyInUse(
                old(self).port_id(),
                pin,
            ),
    {
        match self.use_pin(pin) {
            Err(e) => Err(e),
            Ok(()) => {
                self.regs.set_mode_one(pin, Mode::Alternate);
                let ghost r1 = self.regs;
                self.regs.set_resistor_one(pin, resistor);
                let ghost r2 = self.regs;
                self.regs.set_out_type_one(pin, typ);
                let ghost r3 = self.regs;
                self.regs.set_out_speed_one(pin, speed);
                let ghost r4 = self.regs;
                self.regs.set_alternate_fn_one(pin, alternate_fn);
                proof {
                    let i = pin.index();
                    assert(r2.mode_of(i) == r1.mode_of(i));
                    assert(r3.mode_of(i) == r2.mode_of(i));
                    assert(r4.mode_of(i) == r3.mode_of(i));
                    assert(self.regs.mode_of(i) == r4.mode_of(i));
                    assert(r3.resistor_of(i) == r2.resistor_of(i));
                    assert(r4.resistor_of(i) == r3.resistor_of(i));
                    assert(self.regs.resistor_of(i) == r4.resistor_of(i));
                    assert(r4.out_type_of(i) == r3.out_type_of(i));
                    assert(self.regs.out_type_of(i) == r4.out_type_of(i));
                    assert(self.regs.out_speed_of(i) == r4.out_speed_of(i));
                    assert forall|j: u32| j < 16 && j != pin.index() implies self.regs.mode_of(j)
                        == old(self).regs.mode_of(j) && self.regs.af_of(j) == old(
                        self,
                    ).regs.af_of(j) && self.regs.out_type_of(j) == old(self).regs.out_type_of(j)
                        && self.regs.out_speed_of(j) == old(self).regs.out_speed_of(j)
                        && self.regs.resistor_of(j) == old(self).regs.resistor_of(j) by {
                        assert(r1.mode_of(j) == old(self).regs.mode_of(j));
                        assert(r2.mode_of(j) == r1.mode_of(j));
                        assert(r3.mode_of(j) == r2.mode_of(j));
                        assert(r4.mode_of(j) == r3.mode_of(j));
                        assert(self.regs.mode_of(j) == r4.mode_of(j));
                        assert(r1.resistor_of(j) == old(self).regs.resistor_of(j));
                        assert(r2.resistor_of(j) == r1.resistor_of(j));
                        assert(r3.resistor_of(j) == r2.resistor_of(j));
                        assert(r4.resistor_of(j) == r3.resistor_of(j));
                        assert(self.regs.resistor_of(j) == r4.resistor_of(j));
                        assert(r1.out_type_of(j) == old(self).regs.out_type_of(j));
                        assert(r2.out_type_of(j) == r1.out_type_of(j));
                        assert(r3.out_type_of(j) == r2.out_type_of(j));
                        assert(r4.out_type_of(j) == r3.out_type_of(j));
                        assert(self.regs.out_type_of(j) == r4.out_type_of(j));
                        assert(r1.out_speed_of(j) == old(self).regs.out_speed_of(j));
                        assert(r2.out_speed_of(j) == r1.out_speed_of(j));
                        assert(r3.out_speed_of(j) == r2.out_speed_of(j));
                        assert(r4.out_speed_of(j) == r3.out_speed_of(j));
                        assert(self.regs.out_speed_of(j) == r4.out_speed_of(j));
                        assert(r1.af_of(j) == old(self).regs.af_of(j));
                        assert(r2.af_of(j) == r1.af_of(j));
                        assert(r3.af_of(j) == r2.af_of(j));
                        assert(r4.af_of(j) == r3.af_of(j));
                        assert(self.regs.af_of(j) == r4.af_of(j));
                    }
                }
                Ok(())
            },
        }
    }

    /// Claims every pin in `pins` atomically, then routes them all to the
    /// same alternate function with the same electrical configuration. If
    /// any requested pin is already owned — or repeated in the request —
    /// that pin is reported and neither ownership nor any register
    /// changes.
    pub fn to_alternate_function_all(
        &mut self,
        pins: &[PinNumber],
        alternate_fn: AlternateFunction,
        typ: OutputType,
        speed: OutputSpeed,
        resistor: Resistor,
    ) -> (r: Result<(), Error>)
        ensures
            r is Ok <==> pins_claimable(old(self).bitmap(), pins@),
            r is Ok ==> forall|j: u32|
                final(self).owned(j) == (old(self).owned(j) || pins_contain(pins@, j)),
            r is Ok ==> forall|i: u32|
                i < 16 && pins_contain(pins@, i) ==> final(self).regs.mode_of(i) == Mode::Alternate.code()
                    && final(self).regs.af_of(i) == alternate_fn.code() && final(self).regs.out_type_of(i)
                    == typ.code() && final(self).regs.out_speed_of(i) == speed.code()
                    && final(self).regs.resistor_of(i) == resistor.code(),
            r is Ok ==> forall|i: u32|
                i < 16 && !pins_contain(pins@, i) ==> final(self).regs.mode_of(i) == old(
                    self,
                ).regs.mode_of(i) && final(self).regs.af_of(i) == old(self).regs.af_of(i)
                    && final(self).regs.out_type_of(i) == old(self).regs.out_type_of(i)
                    && final(self).regs.out_speed_of(i) == old(self).regs.out_speed_of(i)
                    && final(self).regs.resistor_of(i) == old(self).regs.resistor_of(i),
            final(self).regs.idr == old(self).regs.idr,
            final(self).regs.odr == old(self).regs.odr,
            final(self).port_id() == old(self).port_id(),
            r is Err ==> *final(self) == *old(self),
            r matches Err(e) ==> exists|k: int|
                0 <= k < pins@.len() && e == Error::PinAlreadyInUse(
                    old(self).port_id(),
                    #[trigger] pins@[k],
                ) && (old(self).owned(pins@[k].index()) || pins_contain_upto(
                    pins@,
                    k,
                    pins@[k].index(),
                )) && (forall|j: int|
                    0 <= j < k ==> !old(self).owned((#[trigger] pins@[j]).index())
                        && !pins_contain_upto(pins@, j, pins@[j].index())),
    {
        match self.use_pins(pins) {
            Err(e) => Err(e),
            Ok(()) => {
                self.regs.set_mode(pins, Mode::Alternate);
                self.regs.set_resistor(pins, resistor);
                self.regs.set_out_type(pins, typ);
                self.regs.set_out_speed(pins, speed);
                self.regs.set_alternate_fn(pins, alternate_fn);
                Ok(())
            },
        }
    }
}

} // verus!
