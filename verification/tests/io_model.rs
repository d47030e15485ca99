//! Behavioral tests of the I/O capability model, using the PL011 UART model
//! as a concrete byte source and sink.

use echo_kernel::bsp::uart::PL011Uart;
use echo_kernel::kernel::io::{resolve_fmt_error, Chain, EndOfFile, FormatError, OutOfBounds, Read, Take, Write};
use echo_kernel::kernel::result::KernelError;

fn source(bytes: &[u8]) -> PL011Uart {
    PL011Uart::new(bytes.to_vec())
}

#[test]
fn read_delivers_in_order() {
    let mut s = source(b"abc");
    assert_eq!(s.read(2).unwrap(), b"ab".to_vec());
    assert_eq!(s.read(2).unwrap(), b"c".to_vec());
    assert_eq!(s.read(2).unwrap(), Vec::<u8>::new());
}

#[test]
fn take_caps_cumulative_bytes() {
    let mut t = Take::new(source(b"abcde"), 3);
    let first = t.read(2).unwrap();
    assert_eq!(first, b"ab".to_vec());
    assert_eq!(t.limit(), 1);
    let second = t.read(10).unwrap();
    assert_eq!(second, b"c".to_vec());
    assert_eq!(t.limit(), 0);
    // The budget is exhausted: reads return nothing, forever.
    assert_eq!(t.read(10).unwrap(), Vec::<u8>::new());
    assert_eq!(t.read(1).unwrap(), Vec::<u8>::new());
    assert_eq!(t.limit(), 0);
    // The inner source was never drained past the budget.
    assert_eq!(t.inner.rx, b"de".to_vec());
}

#[test]
fn take_zero_budget_never_touches_inner() {
    let mut t = Take::new(source(b"abcde"), 0);
    assert_eq!(t.read(4).unwrap(), Vec::<u8>::new());
    assert_eq!(t.inner.rx, b"abcde".to_vec());
}

#[test]
fn take_limit_reports_budget() {
    let t = Take::new(source(b""), 7);
    assert_eq!(t.limit(), 7);
}

#[test]
fn chain_reads_first_until_exhausted() {
    let mut c = Chain::new(source(b"ab"), source(b"cd"));
    assert_eq!(c.read(1).unwrap(), b"a".to_vec());
    assert!(!c.done_first);
    // Still only bytes from `first`, even when more were requested.
    assert_eq!(c.read(10).unwrap(), b"b".to_vec());
    // `first` yields nothing exactly once; the switch is permanent.
    assert_eq!(c.read(10).unwrap(), b"cd".to_vec());
    assert!(c.done_first);
    assert_eq!(c.read(10).unwrap(), Vec::<u8>::new());
    // `first` was never revisited.
    assert_eq!(c.first.rx, Vec::<u8>::new());
}

#[test]
fn chain_with_empty_first_goes_to_second() {
    let mut c = Chain::new(source(b""), source(b"xy"));
    assert_eq!(c.read(5).unwrap(), b"xy".to_vec());
    assert!(c.done_first);
}

#[test]
fn adapters_nest() {
    let mut r = Take::new(Chain::new(source(b"ab"), source(b"cdef")), 3);
    assert_eq!(r.read(10).unwrap(), b"ab".to_vec());
    assert_eq!(r.read(10).unwrap(), b"c".to_vec());
    assert_eq!(r.read(10).unwrap(), Vec::<u8>::new());
}

#[test]
fn read_exact_fills_or_fails() {
    let mut s = source(b"abcdef");
    assert_eq!(s.read_exact(4).unwrap(), b"abcd".to_vec());
    // Two bytes left: asking for three fails with EndOfFile, no short result.
    assert_eq!(s.read_exact(3).unwrap_err(), KernelError::EndOfFile);
}

#[test]
fn read_exact_zero_is_trivial() {
    let mut s = source(b"ab");
    assert_eq!(s.read_exact(0).unwrap(), Vec::<u8>::new());
    assert_eq!(s.rx, b"ab".to_vec());
}

#[test]
fn read_exact_through_chain() {
    let mut c = Chain::new(source(b"ab"), source(b"cd"));
    assert_eq!(c.read_exact(3).unwrap(), b"abc".to_vec());
}

#[test]
fn write_all_drains_everything() {
    let mut sink = source(b"");
    sink.write_all(b"xyz").unwrap();
    sink.write_all(b"!").unwrap();
    assert_eq!(sink.tx, b"xyz!".to_vec());
}

#[test]
fn write_reports_full_count() {
    let mut sink = source(b"");
    assert_eq!(sink.write(b"hello").unwrap(), 5);
    assert_eq!(sink.tx, b"hello".to_vec());
}

#[test]
fn resolve_fmt_error_prefers_captured_io_error() {
    assert_eq!(
        resolve_fmt_error(false, Some(KernelError::EndOfFile)),
        Err(KernelError::EndOfFile)
    );
    assert_eq!(resolve_fmt_error(true, None), Ok(()));
    assert_eq!(resolve_fmt_error(false, None), Err(KernelError::FormatError));
}

#[test]
fn sentinel_errors_convert_losslessly() {
    assert_eq!(KernelError::from_end_of_file(EndOfFile), KernelError::EndOfFile);
    assert_eq!(KernelError::from_out_of_bounds(OutOfBounds), KernelError::OutOfBounds);
    assert_eq!(KernelError::from_format_error(FormatError), KernelError::FormatError);
}

#[test]
fn write_all_empty_buffer_succeeds() {
    let mut sink = source(b"");
    assert_eq!(sink.write_all(b""), Ok(()));
    assert_eq!(sink.tx, Vec::<u8>::new());
}

#[test]
fn chain_empty_request_changes_nothing() {
    let mut c = Chain::new(source(b"ab"), source(b"cd"));
    assert_eq!(c.read(0).unwrap(), Vec::<u8>::new());
    assert!(!c.done_first);
    assert_eq!(c.first.rx, b"ab".to_vec());
}

#[test]
fn read_exact_through_take_names_the_error() {
    // The budget makes the stream shorter than requested: the derived
    // operation reports the unified EndOfFile, not a short result.
    let mut t = Take::new(source(b"abcdef"), 2);
    assert_eq!(t.read_exact(4).unwrap_err(), KernelError::EndOfFile);
}
