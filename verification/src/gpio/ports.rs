//! The port aggregate: one ownership engine per physical port.
//!
//! Owns all 11 `GpioPort` engines and provides the whole-device
//! operation: an atomic cross-port claim of an alternate-function group
//! (a bus-style peripheral spans several ports and must not be partially
//! configured if any one of its pins is unavailable).

use vstd::prelude::*;

use crate::gpio::port::GpioPort;
use crate::gpio::registers::PortRegisters;
use crate::gpio::{
    AlternateFunction, Error, Mode, OutputSpeed, OutputType, PinNumber, PortNumber, Resistor,
};

verus! {

/// True iff some request among the first `n` of `reqs` names pin `i` of
/// port `p`.
pub open spec fn reqs_contain_upto(
    reqs: Seq<(PortNumber, PinNumber)>,
    n: int,
    p: PortNumber,
    i: u32,
) -> bool {
    exists|k: int| 0 <= k < n && (#[trigger] reqs[k]).0 == p && reqs[k].1.index() == i
}

/// True iff some request of `reqs` names pin `i` of port `p`.
pub open spec fn reqs_contain(reqs: Seq<(PortNumber, PinNumber)>, p: PortNumber, i: u32) -> bool {
    reqs_contain_upto(reqs, reqs.len() as int, p, i)
}

/// A request found among the first `n` entries is also found among the
/// first `m`, for any larger `m`.
proof fn lemma_reqs_contain_upto_mono(
    reqs: Seq<(PortNumber, PinNumber)>,
    n: int,
    m: int,
    p: PortNumber,
    i: u32,
)
    requires
        0 <= n <= m,
        reqs_contain_upto(reqs, n, p, i),
    ensures
        reqs_contain_upto(reqs, m, p, i),
{
    let k = choose|k: int| 0 <= k < n && (#[trigger] reqs[k]).0 == p && reqs[k].1.index() == i;
    assert(0 <= k < m && reqs[k].0 == p && reqs[k].1.index() == i);
}

/// Pin `i` of engine `g` is owned and routed to `af` with the given
/// electrical configuration.
pub open spec fn af_configured(
    g: GpioPort,
    i: u32,
    af: AlternateFunction,
    typ: OutputType,
    speed: OutputSpeed,
    resistor: Resistor,
) -> bool {
    g.owned(i) && g.regs.mode_of(i) == Mode::Alternate.code() && g.regs.af_of(i) == af.code()
        && g.regs.out_type_of(i) == typ.code() && g.regs.out_speed_of(i) == speed.code()
        && g.regs.resistor_of(i) == resistor.code()
}

/// Pin `i` has the same ownership state and the same five configuration
/// fields in engine `g` as in engine `g0`.
pub open spec fn pin_unchanged(g: GpioPort, g0: GpioPort, i: u32) -> bool {
    g.owned(i) == g0.owned(i) && g.regs.mode_of(i) == g0.regs.mode_of(i) && g.regs.af_of(i)
        == g0.regs.af_of(i) && g.regs.out_type_of(i) == g0.regs.out_type_of(i)
        && g.regs.out_speed_of(i) == g0.regs.out_speed_of(i) && g.regs.resistor_of(i)
        == g0.regs.resistor_of(i)
}

/// One ownership engine per physical port.
pub struct GpioPorts {
    pub port_a: GpioPort,
    pub port_b: GpioPort,
    pub port_c: GpioPort,
    pub port_d: GpioPort,
    pub port_e: GpioPort,
    pub port_f: GpioPort,
    pub port_g: GpioPort,
    pub port_h: GpioPort,
    pub port_i: GpioPort,
    pub port_j: GpioPort,
    pub port_k: GpioPort,
}

impl GpioPorts {
    /// The engine responsible for port `p`.
    pub open spec fn port_spec(self, p: PortNumber) -> GpioPort {
        match p {
            PortNumber::PortA => self.port_a,
            PortNumber::PortB => self.port_b,
            PortNumber::PortC => self.port_c,
            PortNumber::PortD => self.port_d,
            PortNumber::PortE => self.port_e,
            PortNumber::PortF => self.port_f,
            PortNumber::PortG => self.port_g,
            PortNumber::PortH => self.port_h,
            PortNumber::PortI => self.port_i,
            PortNumber::PortJ => self.port_j,
            PortNumber::PortK => self.port_k,
        }
    }

    /// True iff pin `i` of port `p` is claimed.
    pub open spec fn owned_at(self, p: PortNumber, i: u32) -> bool {
        self.port_spec(p).owned(i)
    }

    /// Every engine answers for its own port.
    pub open spec fn wf(self) -> bool {
        forall|p: PortNumber| (#[trigger] self.port_spec(p)).port_id() == p
    }

    /// Builds the aggregate from the 11 register blocks, one engine per
    /// port, with no pin owned anywhere.
    pub fn new(
        gpio_a: PortRegisters,
        gpio_b: PortRegisters,
        gpio_c: PortRegisters,
        gpio_d: PortRegisters,
        gpio_e: PortRegisters,
        gpio_f: PortRegisters,
        gpio_g: PortRegisters,
        gpio_h: PortRegisters,
        gpio_i: PortRegisters,
        gpio_j: PortRegisters,
        gpio_k: PortRegisters,
    ) -> (r: GpioPorts)
        ensures
            r.wf(),
            forall|p: PortNumber, i: u32| !(#[trigger] r.owned_at(p, i)),
            r.port_a.regs == gpio_a,
            r.port_b.regs == gpio_b,
            r.port_c.regs == gpio_c,
            r.port_d.regs == gpio_d,
            r.port_e.regs == gpio_e,
            r.port_f.regs == gpio_f,
            r.port_g.regs == gpio_g,
            r.port_h.regs == gpio_h,
            r.port_i.regs == gpio_i,
            r.port_j.regs == gpio_j,
            r.port_k.regs == gpio_k,
    {
        GpioPorts {
            port_a: GpioPort::new(PortNumber::PortA, gpio_a),
            port_b: GpioPort::new(PortNumber::PortB, gpio_b),
            port_c: GpioPort::new(PortNumber::PortC, gpio_c),
            port_d: GpioPort::new(PortNumber::PortD, gpio_d),
            port_e: GpioPort::new(PortNumber::PortE, gpio_e),
            port_f: GpioPort::new(PortNumber::PortF, gpio_f),
            port_g: GpioPort::new(PortNumber::PortG, gpio_g),
            port_h: GpioPort::new(PortNumber::PortH, gpio_h),
            port_i: GpioPort::new(PortNumber::PortI, gpio_i),
            port_j: GpioPort::new(PortNumber::PortJ, gpio_j),
            port_k: GpioPort::new(PortNumber::PortK, gpio_k),
        }
    }

    /// True iff every requested (port, pin) is free and no (port, pin)
    /// appears twice in the request: exactly the condition under which the
    /// cross-port group claim succeeds.
    pub open spec fn group_claimable(self, reqs: Seq<(PortNumber, PinNumber)>) -> bool {
        forall|k: int|
            0 <= k < reqs.len() ==> !self.owned_at(
                (#[trigger] reqs[k]).0,
                reqs[k].1.index(),
            ) && !reqs_contain_upto(reqs, k, reqs[k].0, reqs[k].1.index())
    }

    /// True iff pin `pin` of port `p` is currently claimed.
    pub fn is_owned(&self, p: PortNumber, pin: PinNumber) -> (r: bool)
        ensures
            r == self.owned_at(p, pin.index()),
    {
        match p {
            PortNumber::PortA => self.port_a.is_in_use(pin),
            PortNumber::PortB => self.port_b.is_in_use(pin),
            PortNumber::PortC => self.port_c.is_in_use(pin),
            PortNumber::PortD => self.port_d.is_in_use(pin),
            PortNumber::PortE => self.port_e.is_in_use(pin),
            PortNumber::PortF => self.port_f.is_in_use(pin),
            PortNumber::PortG => self.port_g.is_in_use(pin),
            PortNumber::PortH => self.port_h.is_in_use(pin),
            PortNumber::PortI => self.port_i.is_in_use(pin),
            PortNumber::PortJ => self.port_j.is_in_use(pin),
            PortNumber::PortK => self.port_k.is_in_use(pin),
        }
    }

    /// Routes one alternate-function configuration to the engine of port
    /// `p`.
    fn af_one(
        &mut self,
        p: PortNumber,
        pin: PinNumber,
        alternate_fn: AlternateFunction,
        typ: OutputType,
        speed: OutputSpeed,
        resistor: Resistor,
    ) -> (r: Result<(), Error>)
        ensures
            r is Ok <==> !old(self).owned_at(p, pin.index()),
            r is Ok ==> af_configured(
                final(self).port_spec(p),
                pin.index(),
                alternate_fn,
                typ,
                speed,
                resistor,
            ),
            r is Ok ==> forall|j: u32|
                j < 16 && j != pin.index() ==> pin_unchanged(
                    final(self).port_spec(p),
                    old(self).port_spec(p),
                    j,
                ),
            final(self).port_spec(p).regs.idr == old(self).port_spec(p).regs.idr,
            final(self).port_spec(p).regs.odr == old(self).port_spec(p).regs.odr,
            final(self).port_spec(p).port_id() == old(self).port_spec(p).port_id(),
            forall|q: PortNumber|
                q != p ==> #[trigger] final(self).port_spec(q) == old(self).port_spec(q),
            r is Err ==> *final(self) == *old(self),
    {
        match p {
            PortNumber::PortA => self.port_a.to_alternate_function(
                pin,
                alternate_fn,
                typ,
                speed,
                resistor,
            ),
            PortNumber::PortB => self.port_b.to_alternate_function(
                pin,
                alternate_fn,
                typ,
                speed,
                resistor,
            ),
            PortNumber::PortC => self.port_c.to_alternate_function(
                pin,
                alternate_fn,
                typ,
                speed,
                resistor,
            ),
            PortNumber::PortD => self.port_d.to_alternate_function(
                pin,
                alternate_fn,
                typ,
                speed,
                resistor,
            ),
            PortNumber::PortE => self.port_e.to_alternate_function(
                pin,
                alternate_fn,
                typ,
                speed,
                resistor,
            ),
            PortNumber::PortF => self.port_f.to_alternate_function(
                pin,
                alternate_fn,
                typ,
                speed,
                resistor,
            ),
            PortNumber::PortG => self.port_g.to_alternate_function(
                pin,
                alternate_fn,
                typ,
                speed,
                resistor,
            ),
            PortNumber::PortH => self.port_h.to_alternate_function(
                pin,
                alternate_fn,
                typ,
                speed,
                resistor,
            ),
            PortNumber::PortI => self.port_i.to_alternate_function(
                pin,
                alternate_fn,
                typ,
                speed,
                resistor,
            ),
            PortNumber::PortJ => self.port_j.to_alternate_function(
                pin,
                alternate_fn,
                typ,
                speed,
                resistor,
            ),
            PortNumber::PortK => self.port_k.to_alternate_function(
                pin,
                alternate_fn,
                typ,
                speed,
                resistor,
            ),
        }
    }

    /// Atomically claims a multi-pin, possibly multi-port group and routes
    /// every pin in it to the same alternate function with the same
    /// electrical configuration.
    ///
    /// The request is validated first against a snapshot of all 11
    /// ownership bitmaps: if any requested pin is already owned, or is
    /// repeated within the request, the first such pin is reported and
    /// nothing — no bitmap, no register — has changed, even when the
    /// colliding pin is found late in the request. Only a fully validated
    /// request is committed, port by port.
    pub fn claim_alternate_function_group(
        &mut self,
        pins: &[(PortNumber, PinNumber)],
        alternate_fn: AlternateFunction,
        typ: OutputType,
        speed: OutputSpeed,
        resistor: Resistor,
    ) -> (r: Result<(), Error>)
        ensures
            r is Ok <==> old(self).group_claimable(pins@),
            r is Ok ==> forall|p: PortNumber, i: u32|
                #![trigger reqs_contain(pins@, p, i)]
                i < 16 && reqs_contain(pins@, p, i) ==> af_configured(
                    final(self).port_spec(p),
                    i,
                    alternate_fn,
                    typ,
                    speed,
                    resistor,
                ),
            r is Ok ==> forall|p: PortNumber, i: u32|
                #![trigger reqs_contain(pins@, p, i)]
                i < 16 && !reqs_contain(pins@, p, i) ==> pin_unchanged(
                    final(self).port_spec(p),
                    old(self).port_spec(p),
                    i,
                ),
            forall|p: PortNumber|
                (#[trigger] final(self).port_spec(p)).regs.idr == old(self).port_spec(p).regs.idr
                    && final(self).port_spec(p).regs.odr == old(self).port_spec(p).regs.odr
                    && final(self).port_spec(p).port_id() == old(self).port_spec(p).port_id(),
            r is Err ==> *final(self) == *old(self),
            r matches Err(e) ==> exists|k: int|
                0 <= k < pins@.len() && e == Error::PinAlreadyInUse(
                    (#[trigger] pins@[k]).0,
                    pins@[k].1,
                ) && (old(self).owned_at(pins@[k].0, pins@[k].1.index()) || reqs_contain_upto(
                    pins@,
                    k,
                    pins@[k].0,
                    pins@[k].1.index(),
                )) && (forall|j: int|
                    0 <= j < k ==> !old(self).owned_at(
                        (#[trigger] pins@[j]).0,
                        pins@[j].1.index(),
                    ) && !reqs_contain_upto(pins@, j, pins@[j].0, pins@[j].1.index())),
    {
        // Validation: scan every request against the current ownership
        // bitmaps and against the earlier part of the request itself,
        // mutating nothing.
        let mut k: usize = 0;
        while k < pins.len()
            invariant
                k <= pins.len(),
                *self == *old(self),
                forall|j: int|
                    0 <= j < k ==> !self.owned_at((#[trigger] pins@[j]).0, pins@[j].1.index())
                        && !reqs_contain_upto(pins@, j, pins@[j].0, pins@[j].1.index()),
            decreases pins.len() - k,
        {
            let (p, pin) = pins[k];
            proof {
                assert(pins@[k as int] == (p, pin));
            }
            if self.is_owned(p, pin) {
                proof {
                    if self.group_claimable(pins@) {
                        assert(!self.owned_at(pins@[k as int].0, pins@[k as int].1.index()));
                        assert(false);
                    }
                }
                return Err(Error::PinAlreadyInUse(p, pin));
            }
            let mut j: usize = 0;
            while j < k
                invariant
                    j <= k,
                    k < pins.len(),
                    *self == *old(self),
                    pins@[k as int] == (p, pin),
                    !self.owned_at(p, pin.index()),
                    forall|j2: int|
                        0 <= j2 < k ==> !self.owned_at(
                            (#[trigger] pins@[j2]).0,
                            pins@[j2].1.index(),
                        ) && !reqs_contain_upto(pins@, j2, pins@[j2].0, pins@[j2].1.index()),
                    forall|j2: int|
                        0 <= j2 < j ==> !((#[trigger] pins@[j2]).0 == p && pins@[j2].1.index()
                            == pin.index()),
                decreases k - j,
            {
                let (p2, pin2) = pins[j];
                proof {
                    assert(pins@[j as int] == (p2, pin2));
                }
                if p2 == p && pin2.as_index() == pin.as_index() {
                    proof {
                        assert(reqs_contain_upto(pins@, k as int, p, pin.index()));
                        if self.group_claimable(pins@) {
                            assert(!reqs_contain_upto(
                                pins@,
                                k as int,
                                pins@[k as int].0,
                                pins@[k as int].1.index(),
                            ));
                            assert(false);
                        }
                    }
                    return Err(Error::PinAlreadyInUse(p, pin));
                }
                j += 1;
            }
            proof {
                if reqs_contain_upto(pins@, k as int, p, pin.index()) {
                    let j2 = choose|j2: int|
                        0 <= j2 < k as int && (#[trigger] pins@[j2]).0 == p && pins@[j2].1.index()
                            == pin.index();
                    assert(false);
                }
            }
            k += 1;
        }
        // Commit: every request is known claimable, so each per-port
        // delegation is known to succeed; configuration grows over the
        // request, pin by pin, and touches nothing else.
        let mut k: usize = 0;
        while k < pins.len()
            invariant
                k <= pins.len(),
                old(self).group_claimable(pins@),
                forall|p: PortNumber, i: u32|
                    #![trigger reqs_contain_upto(pins@, k as int, p, i)]
                    i < 16 && reqs_contain_upto(pins@, k as int, p, i) ==> af_configured(
                        self.port_spec(p),
                        i,
                        alternate_fn,
                        typ,
                        speed,
                        resistor,
                    ),
                forall|p: PortNumber, i: u32|
                    #![trigger reqs_contain_upto(pins@, k as int, p, i)]
                    i < 16 && !reqs_contain_upto(pins@, k as int, p, i) ==> pin_unchanged(
                        self.port_spec(p),
                        old(self).port_spec(p),
                        i,
                    ),
                forall|p: PortNumber|
                    (#[trigger] self.port_spec(p)).regs.idr == old(self).port_spec(p).regs.idr
                        && self.port_spec(p).regs.odr == old(self).port_spec(p).regs.odr
                        && self.port_spec(p).port_id() == old(self).port_spec(p).port_id(),
            decreases pins.len() - k,
        {
            let (p, pin) = pins[k];
            let ghost sp = *self;
            proof {
                assert(pins@[k as int] == (p, pin));
                crate::gpio::lemma_pin_index_bound(pin);
                assert(!old(self).owned_at(p, pin.index()) && !reqs_contain_upto(
                    pins@,
                    k as int,
                    p,
                    pin.index(),
                ));
                assert(pin_unchanged(self.port_spec(p), old(self).port_spec(p), pin.index()));
                assert(!self.owned_at(p, pin.index()));
            }
            let res = self.af_one(p, pin, alternate_fn, typ, speed, resistor);
            if let Err(e) = res {
                proof {
                    assert(false);
                }
                return Err(e);
            }
            proof {
                let n = k as int;
                assert forall|p2: PortNumber, i2: u32|
                    #![trigger reqs_contain_upto(pins@, n + 1, p2, i2)]
                    i2 < 16 && reqs_contain_upto(pins@, n + 1, p2, i2) implies af_configured(
                    self.port_spec(p2),
                    i2,
                    alternate_fn,
                    typ,
                    speed,
                    resistor,
                ) by {
                    if reqs_contain_upto(pins@, n, p2, i2) {
                        assert(af_configured(sp.port_spec(p2), i2, alternate_fn, typ, speed,
                        resistor));
                        if p2 == p {
                            if i2 != pin.index() {
                                assert(pin_unchanged(self.port_spec(p2), sp.port_spec(p2), i2));
                            }
                        } else {
                            assert(self.port_spec(p2) == sp.port_spec(p2));
                        }
                    } else {
                        let k2 = choose|k2: int|
                            0 <= k2 < n + 1 && (#[trigger] pins@[k2]).0 == p2
                                && pins@[k2].1.index() == i2;
                        assert(k2 == n);
                        assert(p2 == p && i2 == pin.index());
                    }
                }
                assert forall|p2: PortNumber, i2: u32|
                    #![trigger reqs_contain_upto(pins@, n + 1, p2, i2)]
                    i2 < 16 && !reqs_contain_upto(pins@, n + 1, p2, i2) implies pin_unchanged(
                    self.port_spec(p2),
                    old(self).port_spec(p2),
                    i2,
                ) by {
                    if reqs_contain_upto(pins@, n, p2, i2) {
                        lemma_reqs_contain_upto_mono(pins@, n, n + 1, p2, i2);
                        assert(false);
                    }
                    if p2 == p && i2 == pin.index() {
                        assert(0 <= n < n + 1 && pins@[n].0 == p2 && pins@[n].1.index() == i2);
                        assert(reqs_contain_upto(pins@, n + 1, p2, i2));
                        assert(false);
                    }
                    assert(pin_unchanged(sp.port_spec(p2), old(self).port_spec(p2), i2));
                    if p2 == p {
                        assert(pin_unchanged(self.port_spec(p2), sp.port_spec(p2), i2));
                    } else {
                        assert(self.port_spec(p2) == sp.port_spec(p2));
                    }
                }
                assert forall|p2: PortNumber|
                    (#[trigger] self.port_spec(p2)).regs.idr == old(self).port_spec(p2).regs.idr
                        && self.port_spec(p2).regs.odr == old(self).port_spec(p2).regs.odr
                        && self.port_spec(p2).port_id() == old(self).port_spec(
                        p2,
                    ).port_id() by {
                    if p2 != p {
                        assert(self.port_spec(p2) == sp.port_spec(p2));
                    }
                }
            }
            k += 1;
        }
        Ok(())
    }
}

} // verus!
