use stm32f7_hal::flash::ACR;
use stm32f7_hal::rcc::{PwrRegisters, Rcc, RccRegisters, SysClockSource, HSE_CLOCK_HZ};

#[test]
fn freeze_programs_pll_factors_and_reports_216_mhz() {
    let rcc = Rcc::new(RccRegisters::new());
    let mut acr = ACR::new();
    let mut pwr = PwrRegisters::new();
    let (clocks, regs) = rcc.cfgr().freeze(&mut acr, &mut pwr);

    // 216 MHz from the 25 MHz reference: M = 25, N = 432, P = /2
    assert_eq!(regs.pllm, 25);
    assert_eq!(regs.plln, 432);
    assert_eq!(regs.pllp, 2);
    assert_eq!(regs.pllq, 9);
    assert!(regs.pllsrc_hse);
    assert_eq!(clocks.sysclk(), 216_000_000);
    assert_eq!(
        clocks.sysclk(),
        HSE_CLOCK_HZ / u32::from(regs.pllm) * u32::from(regs.plln) / u32::from(regs.pllp)
    );
}

#[test]
fn freeze_leaves_the_clock_tree_fully_switched() {
    let rcc = Rcc::new(RccRegisters::new());
    let mut acr = ACR::new();
    let mut pwr = PwrRegisters::new();
    let (_clocks, regs) = rcc.cfgr().freeze(&mut acr, &mut pwr);

    assert!(regs.pwren);
    assert!(regs.hseon && regs.hserdy && !regs.hsebyp);
    assert!(regs.pllon && regs.pllrdy);
    assert_eq!(regs.sw, SysClockSource::Pll);
    assert_eq!(regs.sws, SysClockSource::Pll);
    assert_eq!(regs.hpre, 1);
    assert_eq!(regs.ppre1, 4);
    assert_eq!(regs.ppre2, 2);
    assert!(pwr.oden && pwr.odrdy && pwr.odswen && pwr.odswrdy);
    assert_eq!(acr.latency(), 5);
}

#[test]
fn clock_registers_reset_state() {
    let regs = RccRegisters::new();
    assert!(!regs.pwren && !regs.hseon && !regs.hserdy && !regs.pllon && !regs.pllrdy);
    assert_eq!(regs.sw, SysClockSource::Hsi);
    assert_eq!(regs.sws, SysClockSource::Hsi);
    assert_eq!(regs.pllm, 16);
    assert_eq!(regs.plln, 192);
    assert_eq!(regs.pllp, 2);
    assert_eq!(regs.hpre, 1);
}

#[test]
fn flash_latency_write_reads_back() {
    let mut acr = ACR::new();
    assert_eq!(acr.latency(), 0);
    acr.set_latency(5);
    assert_eq!(acr.latency(), 5);
}
