use vstd::prelude::*;

verus! {

/// Which peripheral register blocks have been handed out. Each flag starts
/// clear, is set by the first acquisition of its device, and is never cleared.
#[derive(Clone, Copy, Debug, PartialEq, Eq, Structural)]
pub struct Registry {
    pub gpio_taken: bool,
    pub uart_taken: bool,
}

impl Registry {
    /// The registry after a GPIO claim.
    pub open spec fn after_gpio_claim(self) -> Registry {
        Registry { gpio_taken: true, ..self }
    }

    /// The registry after a UART claim.
    pub open spec fn after_uart_claim(self) -> Registry {
        Registry { uart_taken: true, ..self }
    }

    /// A registry in which no device has been handed out.
    pub fn new() -> (r: Registry)
        ensures
            !r.gpio_taken,
            !r.uart_taken,
    {
        Registry { gpio_taken: false, uart_taken: false }
    }

    /// Tests and sets the GPIO flag: true when this call is the first
    /// acquisition of the GPIO block.
    pub fn claim_gpio(&mut self) -> (granted: bool)
        ensures
            granted == !old(self).gpio_taken,
            *final(self) == old(self).after_gpio_claim(),
    {
        let granted = !self.gpio_taken;
        self.gpio_taken = true;
        granted
    }

    /// Tests and sets the UART flag: true when this call is the first
    /// acquisition of the UART block.
    pub fn claim_uart(&mut self) -> (granted: bool)
        ensures
            granted == !old(self).uart_taken,
            *final(self) == old(self).after_uart_claim(),
    {
        let granted = !self.uart_taken;
        self.uart_taken = true;
        granted
    }
}

/// Once a device has been claimed, every later claim of it is refused,
/// whatever claims of the other device come in between.
pub proof fn lemma_second_claim_refused(r: Registry)
    ensures
        r.after_gpio_claim().gpio_taken,
        r.after_gpio_claim().after_uart_claim().gpio_taken,
        r.after_gpio_claim().after_gpio_claim() == r.after_gpio_claim(),
        r.after_uart_claim().uart_taken,
        r.after_uart_claim().after_gpio_claim().uart_taken,
        r.after_uart_claim().after_uart_claim() == r.after_uart_claim(),
{
}

} // verus!
