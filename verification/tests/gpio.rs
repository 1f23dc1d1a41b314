use stm32f7_hal::gpio::port::GpioPort;
use stm32f7_hal::gpio::ports::GpioPorts;
use stm32f7_hal::gpio::registers::PortRegisters;
use stm32f7_hal::gpio::{
    AlternateFunction, Error, Mode, OutputSpeed, OutputType, PinNumber, PortNumber, Resistor,
};

fn field1(w: u32, i: u32) -> u32 {
    (w >> i) & 1
}

fn field2(w: u32, i: u32) -> u32 {
    (w >> (2 * i)) & 3
}

fn field4(w: u32, i: u32) -> u32 {
    (w >> (4 * i)) & 0xf
}

fn fresh_ports() -> GpioPorts {
    GpioPorts::new(
        PortRegisters::new(),
        PortRegisters::new(),
        PortRegisters::new(),
        PortRegisters::new(),
        PortRegisters::new(),
        PortRegisters::new(),
        PortRegisters::new(),
        PortRegisters::new(),
        PortRegisters::new(),
        PortRegisters::new(),
        PortRegisters::new(),
    )
}

#[test]
fn claim_twice_fails_and_bitmap_unchanged() {
    let mut port = GpioPort::new(PortNumber::PortA, PortRegisters::new());
    assert_eq!(port.use_pin(PinNumber::Pin3), Ok(()));
    assert!(port.is_in_use(PinNumber::Pin3));
    assert_eq!(
        port.use_pin(PinNumber::Pin3),
        Err(Error::PinAlreadyInUse(PortNumber::PortA, PinNumber::Pin3))
    );
    assert!(port.is_in_use(PinNumber::Pin3));
    assert!(!port.is_in_use(PinNumber::Pin2));
    assert!(!port.is_in_use(PinNumber::Pin4));
}

#[test]
fn multi_pin_claim_is_all_or_nothing() {
    let mut port = GpioPort::new(PortNumber::PortB, PortRegisters::new());
    assert_eq!(port.use_pin(PinNumber::Pin2), Ok(()));
    let result = port.use_pins(&[PinNumber::Pin1, PinNumber::Pin2, PinNumber::Pin4]);
    assert_eq!(
        result,
        Err(Error::PinAlreadyInUse(PortNumber::PortB, PinNumber::Pin2))
    );
    assert!(!port.is_in_use(PinNumber::Pin1));
    assert!(port.is_in_use(PinNumber::Pin2));
    assert!(!port.is_in_use(PinNumber::Pin4));
}

#[test]
fn multi_pin_claim_rejects_duplicate_in_request() {
    let mut port = GpioPort::new(PortNumber::PortC, PortRegisters::new());
    let result = port.use_pins(&[PinNumber::Pin5, PinNumber::Pin5]);
    assert_eq!(
        result,
        Err(Error::PinAlreadyInUse(PortNumber::PortC, PinNumber::Pin5))
    );
    assert!(!port.is_in_use(PinNumber::Pin5));
}

#[test]
fn multi_pin_claim_succeeds_on_free_pins() {
    let mut port = GpioPort::new(PortNumber::PortD, PortRegisters::new());
    assert_eq!(
        port.use_pins(&[PinNumber::Pin0, PinNumber::Pin8, PinNumber::Pin15]),
        Ok(())
    );
    assert!(port.is_in_use(PinNumber::Pin0));
    assert!(port.is_in_use(PinNumber::Pin8));
    assert!(port.is_in_use(PinNumber::Pin15));
    assert!(!port.is_in_use(PinNumber::Pin1));
}

#[test]
fn input_configuration_writes_mode_and_resistor() {
    let mut port = GpioPort::new(PortNumber::PortA, PortRegisters::new());
    let pin = port.to_input(PinNumber::Pin4, Resistor::PullUp).unwrap();
    assert_eq!(pin.port(), PortNumber::PortA);
    assert_eq!(pin.pin(), PinNumber::Pin4);
    assert_eq!(field2(port.regs.moder, 4), 0);
    assert_eq!(field2(port.regs.pupdr, 4), 1);
    for i in 0..16 {
        if i != 4 {
            assert_eq!(field2(port.regs.pupdr, i), 0);
        }
    }
}

#[test]
fn input_pin_reads_input_data_bit() {
    let mut port = GpioPort::new(PortNumber::PortF, PortRegisters::new());
    let pin = port.to_input(PinNumber::Pin9, Resistor::NoPull).unwrap();
    assert!(!pin.is_high(&port));
    port.regs.idr = 1 << 9;
    assert!(pin.is_high(&port));
}

#[test]
fn output_write_high_then_low_end_to_end() {
    let mut port = GpioPort::new(PortNumber::PortA, PortRegisters::new());
    let pin = port
        .to_output(
            PinNumber::Pin5,
            OutputType::PushPull,
            OutputSpeed::Medium,
            Resistor::NoPull,
        )
        .unwrap();
    assert_eq!(field2(port.regs.moder, 5), 1);
    assert_eq!(field1(port.regs.otyper, 5), 0);
    assert_eq!(field2(port.regs.ospeedr, 5), 1);
    assert_eq!(field2(port.regs.pupdr, 5), 0);

    pin.set_high(&mut port);
    assert_eq!(field1(port.regs.odr, 5), 1);
    assert_eq!(field1(port.regs.odr, 6), 0);

    // the neighbouring pin is untouched and still claimable
    assert!(!port.is_in_use(PinNumber::Pin6));
    assert!(port.to_input(PinNumber::Pin6, Resistor::NoPull).is_ok());
    assert_eq!(field1(port.regs.odr, 5), 1);

    pin.set_low(&mut port);
    assert_eq!(field1(port.regs.odr, 5), 0);
}

#[test]
fn electrical_writes_do_not_disturb_other_pins() {
    let mut port = GpioPort::new(PortNumber::PortE, PortRegisters::new());
    port.to_output(
        PinNumber::Pin3,
        OutputType::OpenDrain,
        OutputSpeed::VeryHigh,
        Resistor::PullDown,
    )
    .unwrap();
    assert_eq!(field2(port.regs.moder, 3), 1);
    assert_eq!(field1(port.regs.otyper, 3), 1);
    assert_eq!(field2(port.regs.ospeedr, 3), 3);
    assert_eq!(field2(port.regs.pupdr, 3), 2);

    port.to_alternate_function(
        PinNumber::Pin12,
        AlternateFunction::AF7,
        OutputType::PushPull,
        OutputSpeed::Low,
        Resistor::NoPull,
    )
    .unwrap();

    // the later write configured its own pin ...
    assert_eq!(field2(port.regs.moder, 12), 2);
    assert_eq!(field4(port.regs.afrh, 12 - 8), 7);
    // ... and left every field of the earlier pin exactly as it was
    assert_eq!(field2(port.regs.moder, 3), 1);
    assert_eq!(field1(port.regs.otyper, 3), 1);
    assert_eq!(field2(port.regs.ospeedr, 3), 3);
    assert_eq!(field2(port.regs.pupdr, 3), 2);
    // and every other pin's fields at reset
    for i in 0..16 {
        if i != 3 && i != 12 {
            assert_eq!(field2(port.regs.moder, i), 0);
            assert_eq!(field2(port.regs.pupdr, i), 0);
            assert_eq!(field2(port.regs.ospeedr, i), 0);
            assert_eq!(field1(port.regs.otyper, i), 0);
        }
    }
}

#[test]
fn alternate_function_all_configures_every_requested_pin() {
    let mut port = GpioPort::new(PortNumber::PortG, PortRegisters::new());
    assert_eq!(
        port.to_alternate_function_all(
            &[PinNumber::Pin0, PinNumber::Pin7, PinNumber::Pin8],
            AlternateFunction::AF2,
            OutputType::PushPull,
            OutputSpeed::High,
            Resistor::PullUp,
        ),
        Ok(())
    );
    for i in [0u32, 7, 8] {
        assert_eq!(field2(port.regs.moder, i), 2);
        assert_eq!(field2(port.regs.ospeedr, i), 2);
        assert_eq!(field2(port.regs.pupdr, i), 1);
        assert_eq!(field1(port.regs.otyper, i), 0);
    }
    assert_eq!(field4(port.regs.afrl, 0), 2);
    assert_eq!(field4(port.regs.afrl, 7), 2);
    assert_eq!(field4(port.regs.afrh, 0), 2);
    // a second claim of any of those pins fails
    assert_eq!(
        port.to_alternate_function_all(
            &[PinNumber::Pin7],
            AlternateFunction::AF2,
            OutputType::PushPull,
            OutputSpeed::High,
            Resistor::PullUp,
        ),
        Err(Error::PinAlreadyInUse(PortNumber::PortG, PinNumber::Pin7))
    );
}

#[test]
fn group_claim_configures_all_ports_identically() {
    let mut ports = fresh_ports();
    let request = [
        (PortNumber::PortA, PinNumber::Pin0),
        (PortNumber::PortB, PinNumber::Pin3),
        (PortNumber::PortK, PinNumber::Pin15),
    ];
    assert_eq!(
        ports.claim_alternate_function_group(
            &request,
            AlternateFunction::AF5,
            OutputType::PushPull,
            OutputSpeed::High,
            Resistor::NoPull,
        ),
        Ok(())
    );
    assert!(ports.port_a.is_in_use(PinNumber::Pin0));
    assert!(ports.port_b.is_in_use(PinNumber::Pin3));
    assert!(ports.port_k.is_in_use(PinNumber::Pin15));
    assert_eq!(field2(ports.port_a.regs.moder, 0), 2);
    assert_eq!(field4(ports.port_a.regs.afrl, 0), 5);
    assert_eq!(field2(ports.port_b.regs.moder, 3), 2);
    assert_eq!(field4(ports.port_b.regs.afrl, 3), 5);
    assert_eq!(field2(ports.port_k.regs.moder, 15), 2);
    assert_eq!(field4(ports.port_k.regs.afrh, 15 - 8), 5);
    assert_eq!(field2(ports.port_b.regs.ospeedr, 3), 2);
    // unrequested ports and pins are untouched
    assert!(!ports.port_c.is_in_use(PinNumber::Pin0));
    assert_eq!(ports.port_c.regs.moder, 0);
    assert_eq!(field2(ports.port_a.regs.moder, 1), 0);
}

#[test]
fn group_claim_fails_whole_when_late_port_collides() {
    let mut ports = fresh_ports();
    assert_eq!(ports.port_k.use_pin(PinNumber::Pin9), Ok(()));
    let request = [
        (PortNumber::PortA, PinNumber::Pin1),
        (PortNumber::PortB, PinNumber::Pin2),
        (PortNumber::PortK, PinNumber::Pin9),
    ];
    assert_eq!(
        ports.claim_alternate_function_group(
            &request,
            AlternateFunction::AF4,
            OutputType::OpenDrain,
            OutputSpeed::Low,
            Resistor::PullDown,
        ),
        Err(Error::PinAlreadyInUse(PortNumber::PortK, PinNumber::Pin9))
    );
    // nothing was claimed and no register changed anywhere
    assert!(!ports.port_a.is_in_use(PinNumber::Pin1));
    assert!(!ports.port_b.is_in_use(PinNumber::Pin2));
    assert_eq!(ports.port_a.regs.moder, 0);
    assert_eq!(ports.port_b.regs.moder, 0);
    assert_eq!(ports.port_a.regs.pupdr, 0);
    assert_eq!(ports.port_k.regs.moder, 0);
}

#[test]
fn group_claim_rejects_duplicate_request_entry() {
    let mut ports = fresh_ports();
    let request = [
        (PortNumber::PortC, PinNumber::Pin4),
        (PortNumber::PortD, PinNumber::Pin4),
        (PortNumber::PortC, PinNumber::Pin4),
    ];
    assert_eq!(
        ports.claim_alternate_function_group(
            &request,
            AlternateFunction::AF1,
            OutputType::PushPull,
            OutputSpeed::Medium,
            Resistor::NoPull,
        ),
        Err(Error::PinAlreadyInUse(PortNumber::PortC, PinNumber::Pin4))
    );
    assert!(!ports.port_c.is_in_use(PinNumber::Pin4));
    assert!(!ports.port_d.is_in_use(PinNumber::Pin4));
    assert_eq!(ports.port_c.regs.moder, 0);
    assert_eq!(ports.port_d.regs.moder, 0);
}

#[test]
fn mode_codes_match_field_encoding() {
    let mut port = GpioPort::new(PortNumber::PortH, PortRegisters::new());
    port.to_alternate_function(
        PinNumber::Pin1,
        AlternateFunction::AF15,
        OutputType::OpenDrain,
        OutputSpeed::VeryHigh,
        Resistor::PullUp,
    )
    .unwrap();
    assert_eq!(Mode::Alternate.bits(), 2);
    assert_eq!(field2(port.regs.moder, 1), Mode::Alternate.bits());
    assert_eq!(field4(port.regs.afrl, 1), 15);
}
