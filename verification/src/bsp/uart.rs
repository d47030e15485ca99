//! PL011 UART driver.
//!
//! Bring-up programs the line and baud configuration in the one order the
//! hardware accepts; steady state moves bytes between the caller and the
//! receive/transmit FIFOs, which the model holds as byte queues. Every
//! configuration register write is recorded in the driver's trace.

use vstd::prelude::*;

use crate::bsp::mmio::RegOp;
use crate::kernel::driver::Driver;
use crate::kernel::io::{EndOfFile, Read, Write};
use crate::kernel::result::{KernelError, KernelResult};

verus! {

/// Byte offset of the data register.
pub const DR_OFFSET: u64 = 0x00;

/// Byte offset of the flag register (FIFO status bits).
pub const FR_OFFSET: u64 = 0x18;

/// Byte offset of the integer baud rate divisor register.
pub const IBRD_OFFSET: u64 = 0x24;

/// Byte offset of the fractional baud rate divisor register.
pub const FBRD_OFFSET: u64 = 0x28;

/// Byte offset of the line control register.
pub const LCRH_OFFSET: u64 = 0x2C;

/// Byte offset of the control register.
pub const CR_OFFSET: u64 = 0x30;

/// Byte offset of the interrupt clear register.
pub const ICR_OFFSET: u64 = 0x44;

/// Flag register bit: receive FIFO empty.
pub const FR_RXFE: u32 = 1 << 4;

/// Flag register bit: transmit FIFO full.
pub const FR_TXFF: u32 = 1 << 5;

/// Integer baud divisor for 230400 baud from the 48 MHz reference clock.
pub const BAUD_IBRD: u32 = 13;

/// Fractional baud divisor for 230400 baud from the 48 MHz reference clock.
pub const BAUD_FBRD: u32 = 2;

/// Line control: 8-bit words with both FIFOs enabled.
pub const LCRH_8BIT_FIFO: u32 = (0x3 << 5) | (1 << 4);

/// Control register bit: enable the UART.
pub const CR_UARTEN: u32 = 1;

/// Control register bit: enable the transmit section.
pub const CR_TXE: u32 = 1 << 8;

/// Control register bit: enable the receive section.
pub const CR_RXE: u32 = 1 << 9;

/// Control register value after bring-up: UART, transmit and receive enabled.
pub const CR_ENABLED: u32 = CR_UARTEN | CR_TXE | CR_RXE;

/// PL011 UART driver: the configuration registers it has programmed, the
/// byte queues standing for the receive and transmit FIFOs, and the trace of
/// configuration register operations issued, in issue order.
pub struct PL011Uart {
    /// Last value written to the control register (reset value 0 here).
    pub cr: u32,
    /// Last value written to the line control register.
    pub lcrh: u32,
    /// Last value written to the integer baud divisor register.
    pub ibrd: u32,
    /// Last value written to the fractional baud divisor register.
    pub fbrd: u32,
    /// Last value written to the interrupt clear register.
    pub icr: u32,
    /// Bytes that have arrived on the line and not yet been read.
    pub rx: Vec<u8>,
    /// Bytes pushed into the transmit FIFO so far.
    pub tx: Vec<u8>,
    /// Every configuration register operation issued so far, oldest first.
    pub trace: Vec<RegOp>,
}

/// The exact register-write sequence of UART bring-up: disable the UART,
/// clear pending flags, program both baud divisors, set the line control,
/// and only then enable UART, transmit and receive.
pub open spec fn uart_init_trace() -> Seq<RegOp> {
    seq![
        (RegOp::Write { offset: CR_OFFSET, value: 0 }),
        (RegOp::Write { offset: ICR_OFFSET, value: 0 }),
        (RegOp::Write { offset: IBRD_OFFSET, value: BAUD_IBRD }),
        (RegOp::Write { offset: FBRD_OFFSET, value: BAUD_FBRD }),
        (RegOp::Write { offset: LCRH_OFFSET, value: LCRH_8BIT_FIFO }),
        (RegOp::Write { offset: CR_OFFSET, value: CR_ENABLED }),
    ]
}

impl PL011Uart {
    /// Driver over a register block in its reset state, with `rx` already
    /// waiting on the line and nothing transmitted or issued yet.
    pub fn new(rx: Vec<u8>) -> (u: PL011Uart)
        ensures
            u.cr == 0,
            u.lcrh == 0,
            u.ibrd == 0,
            u.fbrd == 0,
            u.icr == 0,
            u.rx == rx,
            u.tx@ == Seq::<u8>::empty(),
            u.trace@ == Seq::<RegOp>::empty(),
    {
        PL011Uart {
            cr: 0,
            lcrh: 0,
            ibrd: 0,
            fbrd: 0,
            icr: 0,
            rx,
            tx: Vec::new(),
            trace: Vec::new(),
        }
    }
}

impl Driver for PL011Uart {
    /// Program 8N1 at 230400 baud, assuming the reference clock was set to
    /// 48 MHz by the firmware. The UART is disabled and its flags cleared
    /// before the divisors and line control are programmed, and re-enabled
    /// only afterwards: enabling transmit or receive first yields garbage
    /// framing. Issues precisely the writes of [`uart_init_trace`], in that
    /// order, and touches neither FIFO.
    fn init(&mut self) -> (r: KernelResult)
        ensures
            r is Ok,
            final(self).cr == CR_ENABLED,
            final(self).lcrh == LCRH_8BIT_FIFO,
            final(self).ibrd == BAUD_IBRD,
            final(self).fbrd == BAUD_FBRD,
            final(self).icr == 0,
            final(self).rx == old(self).rx,
            final(self).tx == old(self).tx,
            final(self).trace@ == old(self).trace@ + uart_init_trace(),
    {
        // Disable the UART while it is reconfigured.
        self.cr = 0;
        self.trace.push(RegOp::Write { offset: CR_OFFSET, value: 0 });

        // Clear all pending status flags.
        self.icr = 0;
        self.trace.push(RegOp::Write { offset: ICR_OFFSET, value: 0 });

        // Program the baud rate divisors.
        self.ibrd = BAUD_IBRD;
        self.trace.push(RegOp::Write { offset: IBRD_OFFSET, value: BAUD_IBRD });
        self.fbrd = BAUD_FBRD;
        self.trace.push(RegOp::Write { offset: FBRD_OFFSET, value: BAUD_FBRD });

        // 8-bit words, FIFOs enabled.
        self.lcrh = LCRH_8BIT_FIFO;
        self.trace.push(RegOp::Write { offset: LCRH_OFFSET, value: LCRH_8BIT_FIFO });

        // Enable the UART with both sections active.
        self.cr = CR_ENABLED;
        self.trace.push(RegOp::Write { offset: CR_OFFSET, value: CR_ENABLED });

        proof {
            assert(self.trace@ =~= old(self).trace@ + uart_init_trace());
        }
        Ok(())
    }

    fn name(&self) -> (n: &'static str)
        ensures
            n@ == "PL011Uart"@,
    {
        "PL011Uart"
    }
}

impl Read for PL011Uart {
    open spec fn data(&self) -> Seq<u8> {
        self.rx@
    }

    /// Pop up to `max` bytes from the receive FIFO, in arrival order. On
    /// hardware every byte is preceded by a busy-wait on the "receive FIFO
    /// empty" flag; the model returns short instead of stalling when the
    /// line has nothing more to deliver. Configuration registers, the
    /// transmit FIFO and the trace are untouched.
    fn read(&mut self, max: usize) -> (r: Result<Vec<u8>, KernelError>)
        ensures
            r is Ok,
            r matches Ok(b) ==> b@.len() == vstd::math::min(
                max as int,
                old(self).rx@.len() as int,
            ),
            final(self).cr == old(self).cr,
            final(self).lcrh == old(self).lcrh,
            final(self).ibrd == old(self).ibrd,
            final(self).fbrd == old(self).fbrd,
            final(self).icr == old(self).icr,
            final(self).tx == old(self).tx,
            final(self).trace == old(self).trace,
    {
        let mut out: Vec<u8> = Vec::new();
        while out.len() < max && self.rx.len() > 0
            invariant
                out@.len() <= max,
                out@.len() <= old(self).rx@.len(),
                out@ == old(self).rx@.take(out@.len() as int),
                self.rx@ == old(self).rx@.skip(out@.len() as int),
                self.cr == old(self).cr,
                self.lcrh == old(self).lcrh,
                self.ibrd == old(self).ibrd,
                self.fbrd == old(self).fbrd,
                self.icr == old(self).icr,
                self.tx == old(self).tx,
                self.trace == old(self).trace,
            decreases self.rx@.len(),
        {
            let ghost done = out@.len() as int;
            let ghost d = old(self).rx@;
            let ghost pre = self.rx@;
            let byte = self.rx.remove(0);
            proof {
                assert(self.rx@ =~= pre.skip(1));
                assert(byte == pre[0]);
                assert(pre =~= d.skip(done));
                assert(byte == d[done]);
                assert(self.rx@ =~= d.skip(done + 1));
            }
            out.push(byte);
            proof {
                assert(out@ =~= d.take(done + 1));
            }
        }
        proof {
            assert(out@.len() == vstd::math::min(max as int, old(self).rx@.len() as int));
        }
        Ok(out)
    }

    /// On this source a read never fails, so the derived operation's failure
    /// is always the `EndOfFile` conversion: exactly `count` bytes come back
    /// when the line holds at least that many, and a shorter line is drained
    /// and reported as `EndOfFile` — never as a short result.
    fn read_exact(&mut self, count: usize) -> (r: Result<Vec<u8>, KernelError>)
        ensures
            count <= old(self).rx@.len() ==> r is Ok,
            count > old(self).rx@.len() ==> r == Err::<Vec<u8>, KernelError>(
                KernelError::EndOfFile,
            ) && final(self).rx@.len() == 0,
            final(self).cr == old(self).cr,
            final(self).lcrh == old(self).lcrh,
            final(self).ibrd == old(self).ibrd,
            final(self).fbrd == old(self).fbrd,
            final(self).icr == old(self).icr,
            final(self).tx == old(self).tx,
            final(self).trace == old(self).trace,
    {
        match self.read(count) {
            Err(e) => Err(e),
            Ok(bytes) => {
                if bytes.len() == count {
                    Ok(bytes)
                } else {
                    Err(KernelError::from_end_of_file(EndOfFile))
                }
            },
        }
    }
}

impl Write for PL011Uart {
    open spec fn sunk(&self) -> Seq<u8> {
        self.tx@
    }

    /// Push every byte of `buf` into the transmit FIFO, in order. On
    /// hardware every byte is preceded by a busy-wait on the "transmit FIFO
    /// full" flag; the model's FIFO always drains, so the count returned is
    /// always `buf`'s length — this driver has no partial writes.
    /// Configuration registers, the receive FIFO and the trace are
    /// untouched.
    fn write(&mut self, buf: &[u8]) -> (r: Result<usize, KernelError>)
        ensures
            r matches Ok(n) && n == buf@.len(),
            final(self).tx@ == old(self).tx@ + buf@,
            final(self).cr == old(self).cr,
            final(self).lcrh == old(self).lcrh,
            final(self).ibrd == old(self).ibrd,
            final(self).fbrd == old(self).fbrd,
            final(self).icr == old(self).icr,
            final(self).rx == old(self).rx,
            final(self).trace == old(self).trace,
    {
        let mut i: usize = 0;
        while i < buf.len()
            invariant
                i <= buf@.len(),
                self.tx@ == old(self).tx@ + buf@.take(i as int),
                self.cr == old(self).cr,
                self.lcrh == old(self).lcrh,
                self.ibrd == old(self).ibrd,
                self.fbrd == old(self).fbrd,
                self.icr == old(self).icr,
                self.rx == old(self).rx,
                self.trace == old(self).trace,
            decreases buf@.len() - i,
        {
            let byte = *vstd::slice::slice_index_get(buf, i);
            self.tx.push(byte);
            proof {
                assert(self.tx@ =~= old(self).tx@ + buf@.take(i + 1));
            }
            i = i + 1;
        }
        proof {
            assert(self.tx@ =~= old(self).tx@ + buf@);
            assert(buf@.take(buf@.len() as int) =~= buf@);
        }
        Ok(i)
    }

    /// On this sink a write never stalls and never fails, so the derived
    /// operation always succeeds: every byte of `buf` enters the transmit
    /// FIFO, in order.
    fn write_all(&mut self, buf: &[u8]) -> (r: KernelResult)
        ensures
            r is Ok,
            final(self).tx@ == old(self).tx@ + buf@,
            final(self).cr == old(self).cr,
            final(self).lcrh == old(self).lcrh,
            final(self).ibrd == old(self).ibrd,
            final(self).fbrd == old(self).fbrd,
            final(self).icr == old(self).icr,
            final(self).rx == old(self).rx,
            final(self).trace == old(self).trace,
    {
        match self.write(buf) {
            Err(e) => Err(e),
            Ok(_) => Ok(()),
        }
    }
}

} // verus!
