//! Board support: the singleton peripheral drivers and the fixed boot
//! stages the board contributes — driver bring-up in registry order and the
//! post-init step that wires the GPIO pin mux into the UART.

pub mod gpio;
pub mod mmio;
pub mod uart;

use vstd::prelude::*;

use crate::bsp::gpio::{pin_mux_trace, FSEL14_FSEL15_ALT0, FSEL14_FSEL15_MASK, GPIO};
use crate::bsp::mmio::{RegOp, GPIO_BASE, UART_BASE};
use crate::bsp::uart::{
    uart_init_trace, PL011Uart, BAUD_FBRD, BAUD_IBRD, CR_ENABLED, LCRH_8BIT_FIFO,
};
use crate::kernel::driver::{Driver, DriverFailure};

verus! {

/// The board: exactly one driver instance per peripheral, because the
/// hardware resource itself is singular. The driver registry order is
/// fixed and significant: GPIO first, then the UART.
pub struct Board {
    pub gpio: GPIO,
    pub uart: PL011Uart,
}

impl Board {
    /// A board at reset, with `rx` already waiting on the serial line and
    /// no register operation issued by either driver.
    pub fn new(rx: Vec<u8>) -> (b: Board)
        ensures
            b.gpio.gpfsel1 == 0,
            b.gpio.gppud == 0,
            b.gpio.gppudclk0 == 0,
            b.gpio.trace@ == Seq::<crate::bsp::mmio::RegOp>::empty(),
            b.uart.cr == 0,
            b.uart.lcrh == 0,
            b.uart.ibrd == 0,
            b.uart.fbrd == 0,
            b.uart.icr == 0,
            b.uart.rx == rx,
            b.uart.tx@ == Seq::<u8>::empty(),
            b.uart.trace@ == Seq::<crate::bsp::mmio::RegOp>::empty(),
    {
        Board { gpio: GPIO::new(), uart: PL011Uart::new(rx) }
    }

    /// DriversInit stage: run each driver's one-time bring-up in registry
    /// order, halting at the first failure. On this board both bring-ups
    /// provably succeed; the GPIO driver is left untouched — in particular
    /// not one pin-mux register write is issued during this stage.
    pub fn init_drivers(&mut self) -> (r: Result<(), DriverFailure>)
        ensures
            r is Ok,
            final(self).gpio == old(self).gpio,
            final(self).uart.cr == CR_ENABLED,
            final(self).uart.lcrh == LCRH_8BIT_FIFO,
            final(self).uart.ibrd == BAUD_IBRD,
            final(self).uart.fbrd == BAUD_FBRD,
            final(self).uart.icr == 0,
            final(self).uart.rx == old(self).uart.rx,
            final(self).uart.tx == old(self).uart.tx,
            final(self).uart.trace@ == old(self).uart.trace@ + uart_init_trace(),
    {
        match self.gpio.init() {
            Err(e) => {
                let name = self.gpio.name();
                return Err(DriverFailure { index: 0, name, error: e });
            },
            Ok(_) => {},
        }
        match self.uart.init() {
            Err(e) => {
                let name = self.uart.name();
                return Err(DriverFailure { index: 1, name, error: e });
            },
            Ok(_) => {},
        }
        Ok(())
    }

    /// BoardPostInit stage: route the UART signals onto the physical pins.
    /// Runs after the UART's own bring-up, so the UART's internal state is
    /// configured before its signals are physically connected and the mux
    /// transition cannot emit garbage. The UART driver is untouched.
    pub fn post_init(&mut self)
        ensures
            final(self).gpio.gpfsel1 == (old(self).gpio.gpfsel1 & !FSEL14_FSEL15_MASK)
                | FSEL14_FSEL15_ALT0,
            final(self).gpio.gppud == 0,
            final(self).gpio.gppudclk0 == 0,
            final(self).gpio.trace@ == old(self).gpio.trace@ + pin_mux_trace(
                old(self).gpio.gpfsel1,
            ),
            final(self).uart == old(self).uart,
    {
        self.gpio.map_pl011_uart();
    }

    /// The complete replay plan of this boot: every register operation
    /// issued so far, tagged with its peripheral's base address, in the one
    /// global order the hardware accepts — the UART bring-up writes
    /// strictly before the pin-mux latch sequence. The platform layer
    /// performs the plan front to back with volatile word writes and
    /// busy-wait delays.
    pub fn replay_plan(&self) -> (plan: Vec<(u64, RegOp)>)
        ensures
            plan@ == self.uart.trace@.map(|i: int, op: RegOp| (UART_BASE, op))
                + self.gpio.trace@.map(|i: int, op: RegOp| (GPIO_BASE, op)),
    {
        let mut plan: Vec<(u64, RegOp)> = Vec::new();
        let mut i: usize = 0;
        while i < self.uart.trace.len()
            invariant
                i <= self.uart.trace@.len(),
                plan@ == self.uart.trace@.take(i as int).map(|j: int, op: RegOp| (UART_BASE, op)),
            decreases self.uart.trace@.len() - i,
        {
            plan.push((UART_BASE, self.uart.trace[i]));
            proof {
                let f = |j: int, op: RegOp| (UART_BASE, op);
                assert(plan@ =~= self.uart.trace@.take(i + 1).map(f));
            }
            i = i + 1;
        }
        proof {
            let f = |j: int, op: RegOp| (UART_BASE, op);
            assert(self.uart.trace@.take(self.uart.trace@.len() as int) =~= self.uart.trace@);
            assert(plan@ =~= self.uart.trace@.map(f));
        }
        let ghost uart_part = plan@;
        let mut k: usize = 0;
        while k < self.gpio.trace.len()
            invariant
                k <= self.gpio.trace@.len(),
                plan@ == uart_part + self.gpio.trace@.take(k as int).map(
                    |j: int, op: RegOp| (GPIO_BASE, op),
                ),
            decreases self.gpio.trace@.len() - k,
        {
            plan.push((GPIO_BASE, self.gpio.trace[k]));
            proof {
                let g = |j: int, op: RegOp| (GPIO_BASE, op);
                assert(plan@ =~= uart_part + self.gpio.trace@.take(k + 1).map(g));
            }
            k = k + 1;
        }
        proof {
            let g = |j: int, op: RegOp| (GPIO_BASE, op);
            assert(self.gpio.trace@.take(self.gpio.trace@.len() as int) =~= self.gpio.trace@);
            assert(plan@ =~= uart_part + self.gpio.trace@.map(g));
        }
        plan
    }
}

} // verus!
