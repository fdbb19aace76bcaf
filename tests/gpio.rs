use el_boot::gpio::{Gpio, GpioOp, PUDCLK14_15, PUD_OFF, SETTLE_CYCLES};
use el_boot::registry::Registry;

#[test]
fn gpio_second_take_is_refused() {
    let mut reg = Registry::new();
    assert!(Gpio::take(&mut reg, 0).is_some());
    assert!(Gpio::take(&mut reg, 0).is_none());
    assert!(Gpio::take(&mut reg, 0).is_none());
    assert!(reg.gpio_taken);
    assert!(!reg.uart_taken);
}

#[test]
fn claims_latch_per_device() {
    let mut reg = Registry::new();
    assert!(reg.claim_uart());
    assert!(reg.claim_gpio());
    assert!(!reg.claim_uart());
    assert!(!reg.claim_gpio());
}

#[test]
fn alternate_function_sequence_order() {
    let mut gpio = Gpio::steal(0xffff_ffff);
    gpio.configure_uart_alternate_function();
    let expected = vec![
        GpioOp::WriteFsel1(0xfffe_4fff),
        GpioOp::WritePud(PUD_OFF),
        GpioOp::Delay(SETTLE_CYCLES),
        GpioOp::WritePudClk0(PUDCLK14_15),
        GpioOp::Delay(SETTLE_CYCLES),
        GpioOp::WritePud(PUD_OFF),
        GpioOp::WritePudClk0(0),
    ];
    assert_eq!(gpio.ops, expected);
    assert_eq!(gpio.fsel1, 0xfffe_4fff);
    assert_eq!(PUDCLK14_15, (1 << 14) | (1 << 15));
    assert_eq!(SETTLE_CYCLES, 2000);
}

#[test]
fn alternate_function_keeps_other_pins() {
    let mut gpio = Gpio::steal(0x0000_0249);
    gpio.configure_uart_alternate_function();
    assert_eq!(gpio.fsel1, 0x0002_4249);
    assert_eq!(gpio.ops[0], GpioOp::WriteFsel1(0x0002_4249));
}
