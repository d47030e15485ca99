//! GPIO driver.
//!
//! Its one job is the pin-mux protocol that routes the PL011 UART onto the
//! board's pins 14 and 15: a function-select write, then the pull-up/down
//! latch transaction, whose order and settle delays are hardware
//! requirements, not incidental.

use vstd::prelude::*;

use crate::bsp::mmio::RegOp;
use crate::kernel::driver::Driver;

verus! {

/// Byte offset of the function select register covering pins 10-19.
pub const GPFSEL1_OFFSET: u64 = 0x04;

/// Byte offset of the pull-up/down control register.
pub const GPPUD_OFFSET: u64 = 0x94;

/// Byte offset of the pull-up/down clock register covering pins 0-31.
pub const GPPUDCLK0_OFFSET: u64 = 0x98;

/// The two three-bit function-select fields of pins 14 and 15 in GPFSEL1.
pub const FSEL14_FSEL15_MASK: u32 = 0x3F << 12;

/// Alternate function 0 (PL011 UART TX and RX) in both of those fields.
pub const FSEL14_FSEL15_ALT0: u32 = (0x4 << 12) | (0x4 << 15);

/// The pull clock bits of pins 14 and 15 in GPPUDCLK0.
pub const PUDCLK14_PUDCLK15: u32 = (1 << 14) | (1 << 15);

/// Cycles the pull-up/down latch needs between a control write and the
/// clock pulse, and for the pulse itself.
pub const PULL_SETTLE_CYCLES: u64 = 150;

/// GPIO driver: the register values it has programmed and the trace of
/// register operations it has issued, in issue order.
pub struct GPIO {
    /// Last value written to the function select register (reset value 0).
    pub gpfsel1: u32,
    /// Last value written to the pull-up/down control register.
    pub gppud: u32,
    /// Last value written to the pull-up/down clock register.
    pub gppudclk0: u32,
    /// Every register operation issued so far, oldest first.
    pub trace: Vec<RegOp>,
}

/// The exact register-operation sequence that routes the PL011 UART onto
/// pins 14 and 15, for the function-select value found beforehand:
/// function-select write, pull-disable write, settle delay, pull-clock
/// assert, settle delay, pull-clock clear.
pub open spec fn pin_mux_trace(gpfsel1_before: u32) -> Seq<RegOp> {
    seq![
        (RegOp::Write {
            offset: GPFSEL1_OFFSET,
            value: (gpfsel1_before & !FSEL14_FSEL15_MASK) | FSEL14_FSEL15_ALT0,
        }),
        (RegOp::Write { offset: GPPUD_OFFSET, value: 0 }),
        (RegOp::Delay { cycles: PULL_SETTLE_CYCLES }),
        (RegOp::Write { offset: GPPUDCLK0_OFFSET, value: PUDCLK14_PUDCLK15 }),
        (RegOp::Delay { cycles: PULL_SETTLE_CYCLES }),
        (RegOp::Write { offset: GPPUDCLK0_OFFSET, value: 0 }),
    ]
}

impl GPIO {
    /// Driver over a register block in its reset state, with no operation
    /// issued yet.
    pub fn new() -> (g: GPIO)
        ensures
            g.gpfsel1 == 0,
            g.gppud == 0,
            g.gppudclk0 == 0,
            g.trace@ == Seq::<RegOp>::empty(),
    {
        GPIO { gpfsel1: 0, gppud: 0, gppudclk0: 0, trace: Vec::new() }
    }

    /// Reconfigure pins 14 and 15 from their reset function to the PL011
    /// UART alternate function, then latch "no pull" for exactly those two
    /// pins. Issues precisely the operations of [`pin_mux_trace`], in that
    /// order; skipping or reordering a step leaves the pins in an undefined
    /// electrical state.
    pub fn map_pl011_uart(&mut self)
        ensures
            final(self).gpfsel1 == (old(self).gpfsel1 & !FSEL14_FSEL15_MASK)
                | FSEL14_FSEL15_ALT0,
            final(self).gppud == 0,
            final(self).gppudclk0 == 0,
            final(self).trace@ == old(self).trace@ + pin_mux_trace(old(self).gpfsel1),
    {
        // Select alternate function 0 for both pins in one combined write.
        let fsel: u32 = (self.gpfsel1 & !FSEL14_FSEL15_MASK) | FSEL14_FSEL15_ALT0;
        self.gpfsel1 = fsel;
        self.trace.push(RegOp::Write { offset: GPFSEL1_OFFSET, value: fsel });

        // Disable pull-up/down for the pins about to be latched.
        self.gppud = 0;
        self.trace.push(RegOp::Write { offset: GPPUD_OFFSET, value: 0 });

        // The latch needs the control line stable before the clock pulse.
        self.trace.push(RegOp::Delay { cycles: PULL_SETTLE_CYCLES });

        // Pulse the pull clock for exactly pins 14 and 15.
        self.gppudclk0 = PUDCLK14_PUDCLK15;
        self.trace.push(RegOp::Write { offset: GPPUDCLK0_OFFSET, value: PUDCLK14_PUDCLK15 });

        // The pulse must hold before the clock is removed.
        self.trace.push(RegOp::Delay { cycles: PULL_SETTLE_CYCLES });

        // Remove the clock, completing the latch transaction.
        self.gppudclk0 = 0;
        self.trace.push(RegOp::Write { offset: GPPUDCLK0_OFFSET, value: 0 });

        proof {
            assert(self.trace@ =~= old(self).trace@ + pin_mux_trace(old(self).gpfsel1));
        }
    }
}

/// The GPIO peripheral has no one-time bring-up of its own, so the lifecycle
/// contract's trivial default applies; pin muxing is a board post-init step.
impl Driver for GPIO {
    fn name(&self) -> (n: &'static str)
        ensures
            n@ == "GPIO"@,
    {
        "GPIO"
    }
}

} // verus!
