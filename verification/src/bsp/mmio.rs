//! The memory-mapped register window model.
//!
//! Register offsets and widths are immutable ABI facts of the SoC; every
//! access is word-sized and must not be reordered or elided. A driver in this
//! crate therefore records each operation it issues as a `RegOp`, in order;
//! the platform layer replays the recorded trace onto the physical window
//! with volatile word writes and busy-wait delays.

use vstd::prelude::*;

verus! {

/// Start of the SoC's memory-mapped peripheral window.
pub const MMIO_BASE: u64 = 0x3F00_0000;

/// Base physical address of the GPIO register block.
pub const GPIO_BASE: u64 = MMIO_BASE + 0x0020_0000;

/// Base physical address of the PL011 UART register block.
pub const UART_BASE: u64 = MMIO_BASE + 0x0020_1000;

/// One operation on a peripheral's register window, as the hardware must see
/// it: a word-sized register write, or a busy-wait between writes.
#[derive(Clone, Copy, Debug, PartialEq, Eq, Structural)]
pub enum RegOp {
    /// Write `value` to the register at byte offset `offset` from the
    /// peripheral's base address.
    Write { offset: u64, value: u32 },
    /// Spin for at least `cycles` processor cycles before the next operation.
    Delay { cycles: u64 },
}

} // verus!
