//! Reset and clock control: the clock-domain sequencer.
//!
//! `RccRegisters` models the clock-control register block as named bit
//! fields, and `PwrRegisters` the power controller's overdrive control and
//! status bits. The hardware-asserted status bits (oscillator and PLL
//! lock, overdrive readiness, the system-clock switch status) are coupled
//! in this model to the enables that cause them: the model stands for a
//! board whose external oscillator is present and locks, the one situation
//! in which the sequencer's unbounded polls are sound. The sequencer still
//! polls every status bit before proceeding, mirroring the hardware
//! protocol, where a lock time is not architecturally bounded and polling
//! the status bit is the only correct synchronization.

use vstd::prelude::*;

use crate::flash::ACR;

verus! {

/// The frequency of the external oscillator on the target board, in hertz.
pub const HSE_CLOCK_HZ: u32 = 25_000_000;

/// Which source drives the system clock.
#[derive(Clone, Copy, PartialEq, Eq, Structural, Debug)]
pub enum SysClockSource {
    /// The internal RC oscillator (the reset default).
    Hsi,
    /// The external oscillator.
    Hse,
    /// The main PLL output.
    Pll,
}

/// The clock-control register block, as named bit fields.
#[derive(Clone, Copy, PartialEq, Eq, Structural, Debug)]
pub struct RccRegisters {
    /// Power-controller bus-clock enable.
    pub pwren: bool,
    /// External-oscillator enable.
    pub hseon: bool,
    /// External-oscillator bypass.
    pub hsebyp: bool,
    /// External-oscillator ready (hardware status).
    pub hserdy: bool,
    /// Main PLL enable.
    pub pllon: bool,
    /// Main PLL locked (hardware status).
    pub pllrdy: bool,
    /// PLL reference: the external oscillator when set, the internal one
    /// otherwise.
    pub pllsrc_hse: bool,
    /// PLL input division factor M.
    pub pllm: u8,
    /// PLL multiplication factor N.
    pub plln: u16,
    /// PLL output division factor P.
    pub pllp: u8,
    /// PLL peripheral-output division factor Q.
    pub pllq: u8,
    /// AHB prescaler: division factor from system clock to AHB clock.
    pub hpre: u16,
    /// APB low-speed prescaler: division factor from AHB clock.
    pub ppre1: u8,
    /// APB high-speed prescaler: division factor from AHB clock.
    pub ppre2: u8,
    /// Selected system-clock source.
    pub sw: SysClockSource,
    /// Active system-clock source (hardware status).
    pub sws: SysClockSource,
}

/// The PLL output frequency determined by the programmed factors, fed
/// from the external oscillator: reference / M * N / P.
pub open spec fn pll_output_hz(r: RccRegisters) -> int {
    HSE_CLOCK_HZ as int / r.pllm as int * r.plln as int / r.pllp as int
}

impl RccRegisters {
    /// The register block at power-on reset: internal oscillator selected
    /// and active, external oscillator and PLL off, PLL factors at their
    /// reset values, no bus division.
    pub fn new() -> (r: RccRegisters)
        ensures
            r == (RccRegisters {
                pwren: false,
                hseon: false,
                hsebyp: false,
                hserdy: false,
                pllon: false,
                pllrdy: false,
                pllsrc_hse: false,
                pllm: 16u8,
                plln: 192u16,
                pllp: 2u8,
                pllq: 4u8,
                hpre: 1u16,
                ppre1: 1u8,
                ppre2: 1u8,
                sw: SysClockSource::Hsi,
                sws: SysClockSource::Hsi,
            }),
    {
        RccRegisters {
            pwren: false,
            hseon: false,
            hsebyp: false,
            hserdy: false,
            pllon: false,
            pllrdy: false,
            pllsrc_hse: false,
            pllm: 16,
            plln: 192,
            pllp: 2,
            pllq: 4,
            hpre: 1,
            ppre1: 1,
            ppre2: 1,
            sw: SysClockSource::Hsi,
            sws: SysClockSource::Hsi,
        }
    }

    /// Enables the power-controller bus clock.
    pub fn enable_pwr_clock(&mut self)
        ensures
            *final(self) == (RccRegisters { pwren: true, ..*old(self) }),
    {
        self.pwren = true;
    }

    /// Reads the power-controller bus-clock enable back. The sequencer
    /// performs one such read to let the enable propagate before the
    /// controller is used.
    pub fn read_pwren(&self) -> (r: bool)
        ensures
            r == self.pwren,
    {
        self.pwren
    }

    /// Disables and un-bypasses the external oscillator; its ready flag
    /// clears with it (the model's oscillator reacts at once).
    pub fn reset_hse(&mut self)
        ensures
            *final(self) == (RccRegisters {
                hseon: false,
                hsebyp: false,
                hserdy: false,
                ..*old(self)
            }),
    {
        self.hseon = false;
        self.hsebyp = false;
        self.hserdy = false;
    }

    /// Enables the external oscillator; the ready flag follows, as on a
    /// board whose oscillator is present and locks.
    pub fn enable_hse(&mut self)
        ensures
            *final(self) == (RccRegisters { hseon: true, hserdy: true, ..*old(self) }),
    {
        self.hseon = true;
        self.hserdy = true;
    }

    /// Disables the main PLL; its lock flag clears with it.
    pub fn disable_pll(&mut self)
        ensures
            *final(self) == (RccRegisters { pllon: false, pllrdy: false, ..*old(self) }),
    {
        self.pllon = false;
        self.pllrdy = false;
    }

    /// Programs the PLL reference and its division/multiplication factors.
    /// The admitted ranges are the hardware's architectural limits on each
    /// field.
    pub fn configure_pll(&mut self, src_hse: bool, m: u8, n: u16, p: u8, q: u8)
        requires
            2 <= m <= 63,
            50 <= n <= 432,
            p == 2 || p == 4 || p == 6 || p == 8,
            2 <= q <= 15,
        ensures
            *final(self) == (RccRegisters {
                pllsrc_hse: src_hse,
                pllm: m,
                plln: n,
                pllp: p,
                pllq: q,
                ..*old(self)
            }),
    {
        self.pllsrc_hse = src_hse;
        self.pllm = m;
        self.plln = n;
        self.pllp = p;
        self.pllq = q;
    }

    /// Enables the main PLL; the lock flag follows.
    pub fn enable_pll(&mut self)
        ensures
            *final(self) == (RccRegisters { pllon: true, pllrdy: true, ..*old(self) }),
    {
        self.pllon = true;
        self.pllrdy = true;
    }

    /// Sets the AHB prescaler to one of the division factors the field
    /// encodes.
    pub fn set_ahb_prescaler(&mut self, div: u16)
        requires
            div == 1 || div == 2 || div == 4 || div == 8 || div == 16 || div == 64 || div == 128
                || div == 256 || div == 512,
        ensures
            *final(self) == (RccRegisters { hpre: div, ..*old(self) }),
    {
        self.hpre = div;
    }

    /// Selects the PLL output as the system clock; the switch status
    /// follows the selection (the switch completes at once in the model).
    pub fn switch_sysclk_to_pll(&mut self)
        ensures
            *final(self) == (RccRegisters {
                sw: SysClockSource::Pll,
                sws: SysClockSource::Pll,
                ..*old(self)
            }),
    {
        self.sw = SysClockSource::Pll;
        self.sws = SysClockSource::Pll;
    }

    /// Sets the APB low-speed prescaler to one of the division factors
    /// the field encodes.
    pub fn set_apb1_prescaler(&mut self, div: u8)
        requires
            div == 1 || div == 2 || div == 4 || div == 8 || div == 16,
        ensures
            *final(self) == (RccRegisters { ppre1: div, ..*old(self) }),
    {
        self.ppre1 = div;
    }

    /// Sets the APB high-speed prescaler to one of the division factors
    /// the field encodes.
    pub fn set_apb2_prescaler(&mut self, div: u8)
        requires
            div == 1 || div == 2 || div == 4 || div == 8 || div == 16,
        ensures
            *final(self) == (RccRegisters { ppre2: div, ..*old(self) }),
    {
        self.ppre2 = div;
    }
}

/// The power controller's overdrive control and status bits.
#[derive(Clone, Copy, PartialEq, Eq, Structural, Debug)]
pub struct PwrRegisters {
    /// Overdrive enable.
    pub oden: bool,
    /// Overdrive ready (hardware status).
    pub odrdy: bool,
    /// Overdrive switching enable.
    pub odswen: bool,
    /// Overdrive switch complete (hardware status).
    pub odswrdy: bool,
}

impl PwrRegisters {
    /// The power controller at power-on reset: overdrive off.
    pub fn new() -> (r: PwrRegisters)
        ensures
            r == (PwrRegisters { oden: false, odrdy: false, odswen: false, odswrdy: false }),
    {
        PwrRegisters { oden: false, odrdy: false, odswen: false, odswrdy: false }
    }

    /// Enables regulator overdrive; the ready flag follows, as on a
    /// healthy part.
    pub fn enable_overdrive(&mut self)
        ensures
            *final(self) == (PwrRegisters { oden: true, odrdy: true, ..*old(self) }),
    {
        self.oden = true;
        self.odrdy = true;
    }

    /// Enables overdrive switching; the switch-complete flag follows.
    pub fn enable_overdrive_switching(&mut self)
        ensures
            *final(self) == (PwrRegisters { odswen: true, odswrdy: true, ..*old(self) }),
    {
        self.odswen = true;
        self.odswrdy = true;
    }
}

/// The constrained clock-control peripheral: the entry point to the
/// one-shot clock configuration.
pub struct Rcc {
    /// The clock-control register block.
    pub regs: RccRegisters,
}

impl Rcc {
    /// Takes ownership of the clock-control register block.
    pub fn new(regs: RccRegisters) -> (r: Rcc)
        ensures
            r.regs == regs,
    {
        Rcc { regs }
    }

    /// The clock-configuration builder. Consumes the constrained
    /// peripheral: there is one builder, and so at most one freeze.
    pub fn cfgr(self) -> (r: CFGR)
        ensures
            r.rcc_spec() == self.regs,
    {
        CFGR { rcc: self.regs }
    }
}

/// The one-shot clock-configuration builder. It is deliberately neither
/// copyable nor cloneable, and `freeze` consumes it: invoking the freeze
/// twice is a type error, not a runtime condition.
pub struct CFGR {
    rcc: RccRegisters,
}

impl CFGR {
    /// The register block the builder wraps.
    pub closed spec fn rcc_spec(self) -> RccRegisters {
        self.rcc
    }

    /// Executes the oscillator/PLL/prescaler bring-up protocol and makes
    /// the clock configuration effective: a linear sequence of register
    /// writes, each enable followed by a poll of the hardware-asserted
    /// readiness bit it controls, in the order the hardware mandates —
    /// oscillator before PLL, PLL before overdrive, overdrive before
    /// flash wait states, wait states before the system-clock switch.
    ///
    /// Returns the immutable record of the resulting 216 MHz system clock
    /// together with the final register state, and consumes the builder,
    /// so the transition cannot be replayed.
    pub fn freeze(self, acr: &mut ACR, pwr: &mut PwrRegisters) -> (r: (Clocks, RccRegisters))
        ensures
            r.1.pwren,
            r.1.hseon && !r.1.hsebyp && r.1.hserdy,
            r.1.pllon && r.1.pllrdy && r.1.pllsrc_hse,
            r.1.pllm == 25 && r.1.plln == 432 && r.1.pllp == 2 && r.1.pllq == 9,
            r.1.hpre == 1 && r.1.ppre1 == 4 && r.1.ppre2 == 2,
            r.1.sw == SysClockSource::Pll && r.1.sws == SysClockSource::Pll,
            final(pwr).oden && final(pwr).odrdy && final(pwr).odswen && final(pwr).odswrdy,
            final(acr).latency_spec() == 5,
            r.0.sysclk_spec() == pll_output_hz(r.1),
            r.0.sysclk_spec() == 216_000_000u32,
    {
        let mut rcc = self.rcc;

        // Enable the power-controller bus clock, then read the enable
        // back once to let it propagate before the controller is used.
        rcc.enable_pwr_clock();
        let _propagated = rcc.read_pwren();

        // Reset the oscillator enable and bypass before configuring it,
        // and wait until it reports disabled.
        rcc.reset_hse();
        while rcc.hserdy
            invariant
                !rcc.hserdy,
            decreases 0int,
        {
        }

        // Turn the external oscillator on and wait for its lock.
        rcc.enable_hse();
        while !rcc.hserdy
            invariant
                rcc.hserdy,
            decreases 0int,
        {
        }

        // Disable the main PLL and wait until it reports unlocked before
        // touching its configuration.
        rcc.disable_pll();
        while rcc.pllrdy
            invariant
                !rcc.pllrdy,
            decreases 0int,
        {
        }

        // Program the PLL from the external oscillator:
        // 25 MHz reference / M 25 = 1 MHz into the VCO,
        // 1 MHz * N 432 = 432 MHz out of the VCO,
        // 432 MHz / P 2 = 216 MHz system clock,
        // 432 MHz / Q 9 = 48 MHz peripheral clock.
        rcc.configure_pll(true, 25, 432, 2, 9);

        // Turn the PLL on and wait for its lock.
        rcc.enable_pll();
        while !rcc.pllrdy
            invariant
                rcc.pllrdy,
            decreases 0int,
        {
        }

        // Raise the voltage regulator to overdrive for the target
        // frequency, then switch over to it, each step waiting on its
        // ready flag.
        pwr.enable_overdrive();
        while !pwr.odrdy
            invariant
                pwr.odrdy,
            decreases 0int,
        {
        }
        pwr.enable_overdrive_switching();
        while !pwr.odswrdy
            invariant
                pwr.odswrdy,
            decreases 0int,
        {
        }

        // Program the flash wait states required at 216 MHz and read the
        // field back: running at too low an access latency corrupts reads
        // silently, so the write must be known to have latched.
        acr.set_latency(5);
        let latched = acr.latency();
        assert(latched == 5);

        // Keep the AHB clock undivided, switch the system clock to the
        // PLL output, and wait until the switch is reported complete.
        rcc.set_ahb_prescaler(1);
        rcc.switch_sysclk_to_pll();
        while rcc.sws != SysClockSource::Pll
            invariant
                rcc.sws == SysClockSource::Pll,
            decreases 0int,
        {
        }

        // Divide the peripheral buses down to their rated maxima: the
        // low-speed bus to a quarter, the high-speed bus to half of the
        // AHB clock.
        rcc.set_apb1_prescaler(4);
        rcc.set_apb2_prescaler(2);

        let sysclk: u32 = HSE_CLOCK_HZ / 25 * 432 / 2;
        (Clocks { sysclk }, rcc)
    }
}

/// Frozen clock frequencies.
///
/// The existence of a value of this type is proof that the one-shot clock
/// configuration has completed; the configuration can no longer change.
#[derive(Clone, Copy, PartialEq, Eq, Structural, Debug)]
pub struct Clocks {
    sysclk: u32,
}

impl Clocks {
    /// The recorded system (core) clock frequency, in hertz.
    pub closed spec fn sysclk_spec(self) -> u32 {
        self.sysclk
    }

    /// Returns the system (core) clock frequency, in hertz.
    pub fn sysclk(&self) -> (r: u32)
        ensures
            r == self.sysclk_spec(),
    {
        self.sysclk
    }
}

} // verus!
