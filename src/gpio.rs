use vstd::prelude::*;
use crate::bits::field32;
use crate::registry::Registry;

verus! {

/// Physical base address of the GPIO register block.
pub const GPIO_BASE: u64 = 0x3F20_0000;
/// Byte offsets of the registers used, from the base.
pub const GPFSEL1_OFFSET: u64 = 0x04;
pub const GPPUD_OFFSET: u64 = 0x94;
pub const GPPUDCLK0_OFFSET: u64 = 0x98;

/// `GPFSEL1`: three-bit function selects of pins 14 and 15.
pub const FSEL14_SHIFT: u32 = 12;
pub const FSEL15_SHIFT: u32 = 15;
pub const FSEL_INPUT: u32 = 0b000;
pub const FSEL_OUTPUT: u32 = 0b001;
pub const FSEL_UART0: u32 = 0b100;
/// `GPPUD`: pull control, two bits at bit 0.
pub const PUD_OFF: u32 = 0b00;
pub const PUD_PULL_DOWN: u32 = 0b01;
pub const PUD_PULL_UP: u32 = 0b10;
/// `GPPUDCLK0`: clock bits of pins 14 and 15.
pub const PUDCLK14_SHIFT: u32 = 14;
pub const PUDCLK15_SHIFT: u32 = 15;

/// No-op cycles held after each pull-control step.
pub const SETTLE_CYCLES: u32 = 2000;

/// Mask of both function selects in `GPFSEL1`.
pub const FSEL14_15_MASK: u32 = 0x3f000;
/// Both function selects set to UART0.
pub const FSEL14_15_UART0: u32 = 0x24000;
/// Both pull clocks asserted.
pub const PUDCLK14_15: u32 = 0xc000;

/// One access to the GPIO block, or a pause between accesses.
#[derive(Clone, Copy, Debug, PartialEq, Eq, Structural)]
pub enum GpioOp {
    WriteFsel1(u32),
    WritePud(u32),
    WritePudClk0(u32),
    Delay(u32),
}

/// `GPFSEL1` with pins 14 and 15 switched to UART0, other pins kept.
pub open spec fn fsel1_uart(fsel1: u32) -> u32 {
    (fsel1 & !FSEL14_15_MASK) | FSEL14_15_UART0
}

/// The pull-off, clock-latched sequence that routes pins 14 and 15 to UART0,
/// given the current `GPFSEL1`.
pub open spec fn uart_alternate_function_ops(fsel1: u32) -> Seq<GpioOp> {
    seq![
        GpioOp::WriteFsel1(fsel1_uart(fsel1)),
        GpioOp::WritePud(PUD_OFF),
        GpioOp::Delay(SETTLE_CYCLES),
        GpioOp::WritePudClk0(PUDCLK14_15),
        GpioOp::Delay(SETTLE_CYCLES),
        GpioOp::WritePud(PUD_OFF),
        GpioOp::WritePudClk0(0),
    ]
}

/// Exclusive handle on the GPIO block. `fsel1` is the last known `GPFSEL1`
/// image, `ops` the accesses issued through this handle, oldest first.
pub struct Gpio {
    pub fsel1: u32,
    pub ops: Vec<GpioOp>,
}

impl Gpio {
    /// Hands out the GPIO block on its first acquisition, and nothing after.
    pub fn take(registry: &mut Registry, fsel1: u32) -> (r: Option<Gpio>)
        ensures
            r is Some <==> !old(registry).gpio_taken,
            *final(registry) == old(registry).after_gpio_claim(),
            r matches Some(g) ==> g.fsel1 == fsel1 && g.ops@ == Seq::<GpioOp>::empty(),
    {
        if registry.claim_gpio() {
            Some(Gpio { fsel1, ops: Vec::new() })
        } else {
            None
        }
    }

    /// Hands out the GPIO block without consulting the registry, for paths
    /// (a panic report) that must reach it whatever the bookkeeping says.
    pub fn steal(fsel1: u32) -> (r: Gpio)
        ensures
            r.fsel1 == fsel1,
            r.ops@ == Seq::<GpioOp>::empty(),
    {
        Gpio { fsel1, ops: Vec::new() }
    }

    /// Routes pins 14 and 15 to UART0 with pulls off.
    pub fn configure_uart_alternate_function(&mut self)
        ensures
            final(self).ops@ == old(self).ops@ + uart_alternate_function_ops(old(self).fsel1),
            final(self).fsel1 == fsel1_uart(old(self).fsel1),
    {
        let fsel1: u32 = (self.fsel1 & !FSEL14_15_MASK) | FSEL14_15_UART0;
        self.ops.push(GpioOp::WriteFsel1(fsel1));
        self.ops.push(GpioOp::WritePud(PUD_OFF));
        self.ops.push(GpioOp::Delay(SETTLE_CYCLES));
        self.ops.push(GpioOp::WritePudClk0(PUDCLK14_15));
        self.ops.push(GpioOp::Delay(SETTLE_CYCLES));
        self.ops.push(GpioOp::WritePud(PUD_OFF));
        self.ops.push(GpioOp::WritePudClk0(0));
        self.fsel1 = fsel1;
        assert(self.ops@ =~= old(self).ops@ + uart_alternate_function_ops(old(self).fsel1));
    }
}

/// After the configuration, pins 14 and 15 select UART0 and the other pins of
/// `GPFSEL1` keep their function; the clock image asserts exactly the clocks
/// of pins 14 and 15; every pull write is "off"; and the pull mode is written
/// before each clock write, with a pause after the assertion.
pub proof fn lemma_uart_alternate_function(fsel1: u32)
    ensures
        field32(fsel1_uart(fsel1), FSEL14_SHIFT, 7) == FSEL_UART0,
        field32(fsel1_uart(fsel1), FSEL15_SHIFT, 7) == FSEL_UART0,
        fsel1_uart(fsel1) & !FSEL14_15_MASK == fsel1 & !FSEL14_15_MASK,
        field32(PUDCLK14_15, PUDCLK14_SHIFT, 1) == 1,
        field32(PUDCLK14_15, PUDCLK15_SHIFT, 1) == 1,
        PUDCLK14_15 & !0xc000u32 == 0,
        ({
            let ops = uart_alternate_function_ops(fsel1);
            &&& ops.len() == 7
            &&& ops[0] is WriteFsel1
            &&& ops[1] == GpioOp::WritePud(PUD_OFF)
            &&& ops[2] is Delay
            &&& ops[3] == GpioOp::WritePudClk0(PUDCLK14_15)
            &&& ops[4] is Delay
            &&& ops[5] == GpioOp::WritePud(PUD_OFF)
            &&& ops[6] == GpioOp::WritePudClk0(0)
        }),
{
    assert(field32((fsel1 & !0x3f000u32) | 0x24000u32, 12, 7) == 0b100u32) by (bit_vector);
    assert(field32((fsel1 & !0x3f000u32) | 0x24000u32, 15, 7) == 0b100u32) by (bit_vector);
    assert(((fsel1 & !0x3f000u32) | 0x24000u32) & !0x3f000u32 == fsel1 & !0x3f000u32)
        by (bit_vector);
    assert(field32(0xc000u32, 14, 1) == 1 && field32(0xc000u32, 15, 1) == 1 && 0xc000u32
        & !0xc000u32 == 0) by (bit_vector);
}

} // verus!
