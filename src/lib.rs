//! Early bring-up logic of a bare-metal ARMv8-A kernel: the descent from the
//! exception level that firmware leaves the core in down to EL1, the one-shot
//! ownership of the GPIO and UART register blocks, and the register sequences
//! that configure the GPIO pins and drive the PL011 UART.
//!
//! Every hardware access is described here as a value (a register image or an
//! ordered list of register operations); the board glue performs them.

pub mod bits;
pub mod boot;
pub mod gpio;
pub mod registry;
pub mod uart;
