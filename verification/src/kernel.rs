//! Architecture-independent kernel code: the I/O capability model, the
//! driver lifecycle contract, the unified error type, and the boot
//! orchestrator with its echo main loop.
//!
//! The boot state machine is `Reset -> DriversInit -> BoardPostInit ->
//! MainLoop`: drivers come up in registry order (a failure halts boot before
//! a single pin-mux write), the board then routes the UART onto its pins,
//! and the main loop waits for the first newline before echoing every
//! following byte.

pub mod driver;
pub mod io;
pub mod result;

use vstd::prelude::*;

use crate::bsp::gpio::{pin_mux_trace, FSEL14_FSEL15_ALT0, FSEL14_FSEL15_MASK};
use crate::bsp::uart::{
    uart_init_trace, PL011Uart, BAUD_FBRD, BAUD_IBRD, CR_ENABLED, LCRH_8BIT_FIFO,
};
use crate::bsp::Board;
use crate::kernel::io::{Read, Write};
use crate::kernel::driver::{Driver, DriverFailure};

verus! {

/// The newline byte that starts the echo service: "press enter to start".
pub const NEWLINE: u8 = 0x0A;

/// The bytes the echo service transmits for the received bytes `s`:
/// everything after the first newline, and nothing when no newline arrives.
pub open spec fn after_first_newline(s: Seq<u8>) -> Seq<u8>
    decreases s.len(),
{
    if s.len() == 0 {
        Seq::empty()
    } else if s[0] == NEWLINE {
        s.skip(1)
    } else {
        after_first_newline(s.skip(1))
    }
}

/// First main-loop sub-phase: read and discard single bytes until a newline
/// is observed, leaving exactly the bytes after that newline on the line.
/// Nothing is ever echoed back from this phase. (When the line runs out
/// before a newline, nothing is left — which is again exactly
/// [`after_first_newline`] of what was waiting.)
fn wait_for_newline(console: &mut PL011Uart)
    ensures
        final(console).rx@ == after_first_newline(old(console).rx@),
        final(console).tx == old(console).tx,
        final(console).cr == old(console).cr,
        final(console).lcrh == old(console).lcrh,
        final(console).ibrd == old(console).ibrd,
        final(console).fbrd == old(console).fbrd,
        final(console).icr == old(console).icr,
        final(console).trace == old(console).trace,
{
    loop
        invariant_except_break
            after_first_newline(console.rx@) == after_first_newline(old(console).rx@),
        invariant
            console.tx == old(console).tx,
            console.cr == old(console).cr,
            console.lcrh == old(console).lcrh,
            console.ibrd == old(console).ibrd,
            console.fbrd == old(console).fbrd,
            console.icr == old(console).icr,
            console.trace == old(console).trace,
        ensures
            console.rx@ == after_first_newline(old(console).rx@),
        decreases console.rx@.len(),
    {
        let ghost pre = console.rx@;
        let r = console.read(1);
        if let Ok(b) = r {
            if b.len() == 0 {
                // The line is exhausted and no newline ever arrived.
                proof {
                    assert(console.rx@ =~= Seq::<u8>::empty());
                    assert(after_first_newline(console.rx@) =~= Seq::<u8>::empty());
                }
                break;
            }
            proof {
                assert(b@[0] == pre[0]);
                assert(console.rx@ =~= pre.skip(1));
            }
            if *vstd::slice::slice_index_get(b.as_slice(), 0) == NEWLINE {
                // Newline seen: what is left is everything after it.
                break;
            }
        } else {
            proof {
                assert(false);
            }
            break;
        }
    }
}

/// Second main-loop sub-phase: read one byte at a time and immediately write
/// it back, until the line has nothing more to deliver. Everything that was
/// waiting is echoed, in order, and nothing else.
fn echo(console: &mut PL011Uart)
    ensures
        final(console).rx@.len() == 0,
        final(console).tx@ == old(console).tx@ + old(console).rx@,
        final(console).cr == old(console).cr,
        final(console).lcrh == old(console).lcrh,
        final(console).ibrd == old(console).ibrd,
        final(console).fbrd == old(console).fbrd,
        final(console).icr == old(console).icr,
        final(console).trace == old(console).trace,
{
    loop
        invariant
            console.tx@ + console.rx@ == old(console).tx@ + old(console).rx@,
            console.cr == old(console).cr,
            console.lcrh == old(console).lcrh,
            console.ibrd == old(console).ibrd,
            console.fbrd == old(console).fbrd,
            console.icr == old(console).icr,
            console.trace == old(console).trace,
        ensures
            console.rx@.len() == 0,
            console.tx@ + console.rx@ == old(console).tx@ + old(console).rx@,
        decreases console.rx@.len(),
    {
        let ghost pre_tx = console.tx@;
        let ghost pre_rx = console.rx@;
        let r = console.read(1);
        if let Ok(b) = r {
            if b.len() == 0 {
                break;
            }
            let w = console.write(b.as_slice());
            proof {
                assert(b@ =~= pre_rx.take(1));
                assert(console.tx@ =~= pre_tx + b@);
                assert(console.tx@ + console.rx@ =~= pre_tx + pre_rx);
            }
            if let Err(_) = w {
                proof {
                    assert(false);
                }
                break;
            }
        } else {
            proof {
                assert(false);
            }
            break;
        }
    }
    proof {
        assert(console.tx@ =~= console.tx@ + console.rx@);
    }
}

/// MainLoop stage: wait for the first newline, then echo the input back.
/// The bytes transmitted are exactly [`after_first_newline`] of the bytes
/// that were waiting; everything up to and including the newline is consumed
/// and never echoed. Configuration registers and the register trace are
/// untouched. (On hardware the console blocks instead of reporting
/// exhaustion, so this loop never returns; the model runs the line dry.)
pub fn kernel_main(console: &mut PL011Uart)
    ensures
        final(console).rx@.len() == 0,
        final(console).tx@ == old(console).tx@ + after_first_newline(old(console).rx@),
        final(console).cr == old(console).cr,
        final(console).lcrh == old(console).lcrh,
        final(console).ibrd == old(console).ibrd,
        final(console).fbrd == old(console).fbrd,
        final(console).icr == old(console).icr,
        final(console).trace == old(console).trace,
{
    wait_for_newline(console);
    echo(console);
}

/// Where the MainLoop stands: still discarding bytes while waiting for the
/// newline that starts the service, or echoing every byte back.
#[derive(Clone, Copy, Debug, PartialEq, Eq, Structural)]
pub enum EchoPhase {
    /// Before the first newline: bytes are consumed and discarded.
    AwaitingNewline,
    /// After the first newline: every byte is echoed back.
    Echoing,
}

/// One step of the MainLoop policy: from the current phase and one received
/// byte to the next phase and the byte to transmit, if any. The first
/// newline is itself discarded; from then on every byte comes back.
/// A platform loop that feeds this function each received byte and performs
/// each returned transmission runs exactly the echo service.
pub fn echo_step(phase: EchoPhase, byte: u8) -> (r: (EchoPhase, Option<u8>))
    ensures
        phase is AwaitingNewline && byte == NEWLINE ==> r == (
            EchoPhase::Echoing,
            Option::<u8>::None,
        ),
        phase is AwaitingNewline && byte != NEWLINE ==> r == (
            EchoPhase::AwaitingNewline,
            Option::<u8>::None,
        ),
        phase is Echoing ==> r == (EchoPhase::Echoing, Some(byte)),
{
    match phase {
        EchoPhase::AwaitingNewline => {
            if byte == NEWLINE {
                (EchoPhase::Echoing, None)
            } else {
                (EchoPhase::AwaitingNewline, None)
            }
        },
        EchoPhase::Echoing => (EchoPhase::Echoing, Some(byte)),
    }
}

/// DriversInit over any two drivers of the lifecycle contract, in registry
/// order: each bring-up runs once, and the stage halts at the first failure,
/// reporting the failing driver's registry index and diagnostic name. A
/// failure of the first driver leaves the second completely untouched —
/// nothing later in the boot sequence has run.
pub fn init_drivers_in_order<A: Driver, B: Driver>(first: &mut A, second: &mut B) -> (r: Result<
    (),
    DriverFailure,
>)
    ensures
        r matches Err(f) ==> f.index == 0 || f.index == 1,
        r matches Err(f) && f.index == 0 ==> *final(second) == *old(second),
{
    match first.init() {
        Err(e) => {
            let name = first.name();
            return Err(DriverFailure { index: 0, name, error: e });
        },
        Ok(_) => {},
    }
    match second.init() {
        Err(e) => {
            let name = second.name();
            return Err(DriverFailure { index: 1, name, error: e });
        },
        Ok(_) => {},
    }
    Ok(())
}

/// Boot orchestrator, from reset to the echo service.
///
/// DriversInit runs each driver's bring-up in registry order; any failure
/// halts boot at once — BoardPostInit and MainLoop never run and not one
/// pin-mux register write is issued. On this board both bring-ups provably
/// succeed, so the UART leaves bring-up fully configured, BoardPostInit
/// issues exactly the pin-mux sequence once, and MainLoop echoes everything
/// after the first newline on the line.
pub fn init(board: &mut Board) -> (r: Result<(), DriverFailure>)
    ensures
        r is Ok,
        final(board).uart.cr == CR_ENABLED,
        final(board).uart.lcrh == LCRH_8BIT_FIFO,
        final(board).uart.ibrd == BAUD_IBRD,
        final(board).uart.fbrd == BAUD_FBRD,
        final(board).uart.icr == 0,
        final(board).uart.trace@ == old(board).uart.trace@ + uart_init_trace(),
        final(board).gpio.gpfsel1 == (old(board).gpio.gpfsel1 & !FSEL14_FSEL15_MASK)
            | FSEL14_FSEL15_ALT0,
        final(board).gpio.gppud == 0,
        final(board).gpio.gppudclk0 == 0,
        final(board).gpio.trace@ == old(board).gpio.trace@ + pin_mux_trace(
            old(board).gpio.gpfsel1,
        ),
        final(board).uart.rx@.len() == 0,
        final(board).uart.tx@ == old(board).uart.tx@ + after_first_newline(
            old(board).uart.rx@,
        ),
{
    let r = board.init_drivers();
    if let Err(f) = r {
        // DriversInit failed: halt immediately, before any pin-mux write,
        // reporting the failing driver.
        proof {
            assert(false);
        }
        return Err(f);
    }
    board.post_init();
    kernel_main(&mut board.uart);
    Ok(())
}

} // verus!
