//! Behavioral tests of the drivers' register protocols and of the boot
//! orchestrator, checked against the recorded register-operation traces.

use echo_kernel::bsp::gpio::GPIO;
use echo_kernel::bsp::mmio::RegOp;
use echo_kernel::bsp::uart::PL011Uart;
use echo_kernel::bsp::Board;
use echo_kernel::kernel::driver::Driver;
use echo_kernel::kernel::result::KernelError;
use echo_kernel::kernel::{echo_step, EchoPhase};

fn pin_mux_ops() -> Vec<RegOp> {
    vec![
        RegOp::Write { offset: 0x04, value: 0x0002_4000 },
        RegOp::Write { offset: 0x94, value: 0 },
        RegOp::Delay { cycles: 150 },
        RegOp::Write { offset: 0x98, value: 0x0000_C000 },
        RegOp::Delay { cycles: 150 },
        RegOp::Write { offset: 0x98, value: 0 },
    ]
}

fn uart_bringup_ops() -> Vec<RegOp> {
    vec![
        RegOp::Write { offset: 0x30, value: 0 },
        RegOp::Write { offset: 0x44, value: 0 },
        RegOp::Write { offset: 0x24, value: 13 },
        RegOp::Write { offset: 0x28, value: 2 },
        RegOp::Write { offset: 0x2C, value: 0x70 },
        RegOp::Write { offset: 0x30, value: 0x301 },
    ]
}

#[test]
fn gpio_pin_mux_issues_exact_write_order() {
    let mut gpio = GPIO::new();
    gpio.map_pl011_uart();
    assert_eq!(gpio.trace, pin_mux_ops());
    assert_eq!(gpio.gpfsel1, 0x0002_4000);
    assert_eq!(gpio.gppud, 0);
    assert_eq!(gpio.gppudclk0, 0);
}

#[test]
fn gpio_pin_mux_preserves_other_fsel_fields() {
    let mut gpio = GPIO::new();
    gpio.gpfsel1 = 0xFFFF_FFFF;
    gpio.map_pl011_uart();
    // Only the pin 14/15 fields change; all other bits stay as found.
    assert_eq!(gpio.gpfsel1, (0xFFFF_FFFFu32 & !(0x3F << 12)) | 0x0002_4000);
}

#[test]
fn uart_init_sets_control_line_and_baud() {
    let mut uart = PL011Uart::new(Vec::new());
    assert_eq!(uart.init(), Ok(()));
    // UART enable, TX enable, RX enable all set.
    assert_ne!(uart.cr & 0x001, 0);
    assert_ne!(uart.cr & 0x100, 0);
    assert_ne!(uart.cr & 0x200, 0);
    assert_eq!(uart.cr, 0x301);
    // 8-bit words with FIFOs enabled.
    assert_ne!(uart.lcrh & (1 << 4), 0);
    assert_eq!(uart.lcrh >> 5 & 0x3, 0x3);
    assert_eq!(uart.lcrh, 0x70);
    // The specified baud divisors.
    assert_eq!(uart.ibrd, 13);
    assert_eq!(uart.fbrd, 2);
    assert_eq!(uart.trace, uart_bringup_ops());
}

#[test]
fn uart_driver_name_is_stable() {
    let uart = PL011Uart::new(Vec::new());
    assert_eq!(uart.name(), "PL011Uart");
    assert_eq!(GPIO::new().name(), "GPIO");
}

#[test]
fn drivers_init_issues_no_pin_mux_write() {
    let mut board = Board::new(Vec::new());
    assert_eq!(board.init_drivers(), Ok(()));
    // DriversInit touches the UART configuration only; the GPIO pin-mux
    // sequence cannot have run before board post-init.
    assert_eq!(board.gpio.trace, Vec::<RegOp>::new());
    assert_eq!(board.uart.trace, uart_bringup_ops());
    board.post_init();
    assert_eq!(board.gpio.trace, pin_mux_ops());
}

#[test]
fn echo_starts_after_newline() {
    let mut board = Board::new(b"hello\n world".to_vec());
    assert_eq!(echo_kernel::kernel::init(&mut board), Ok(()));
    // The pre-newline bytes are consumed and never echoed.
    assert_eq!(board.uart.tx, b" world".to_vec());
    assert_eq!(board.uart.rx, Vec::<u8>::new());
}

#[test]
fn echo_without_newline_transmits_nothing() {
    let mut board = Board::new(b"hello".to_vec());
    assert_eq!(echo_kernel::kernel::init(&mut board), Ok(()));
    assert_eq!(board.uart.tx, Vec::<u8>::new());
}

#[test]
fn echo_newline_only_input() {
    let mut board = Board::new(b"\nabc".to_vec());
    assert_eq!(echo_kernel::kernel::init(&mut board), Ok(()));
    assert_eq!(board.uart.tx, b"abc".to_vec());
}

#[test]
fn boot_runs_every_stage_in_order() {
    let mut board = Board::new(b"\nok".to_vec());
    assert_eq!(echo_kernel::kernel::init(&mut board), Ok(()));
    // DriversInit configured the UART, BoardPostInit latched the pin mux.
    assert_eq!(board.uart.cr, 0x301);
    assert_eq!(board.uart.trace, uart_bringup_ops());
    assert_eq!(board.gpio.trace, pin_mux_ops());
    assert_eq!(board.uart.tx, b"ok".to_vec());
}

/// A peripheral whose simulated bring-up always fails.
struct FailingDriver;

impl Driver for FailingDriver {
    fn init(&mut self) -> Result<(), KernelError> {
        Err(KernelError::DriverFault)
    }

    fn name(&self) -> &'static str {
        "FailingDriver"
    }
}

#[test]
fn failing_driver_init_prevents_later_stages() {
    let mut failing = FailingDriver;
    let mut board = Board::new(b"\nhello".to_vec());
    let r = echo_kernel::kernel::init_drivers_in_order(&mut failing, &mut board.gpio);
    let failure = r.unwrap_err();
    assert_eq!(failure.index, 0);
    assert_eq!(failure.name, "FailingDriver");
    assert_eq!(failure.error, KernelError::DriverFault);
    // Boot halted during DriversInit: the GPIO driver behind the failing one
    // was never touched, so no pin-mux register write was ever issued.
    assert_eq!(board.gpio.trace, Vec::<RegOp>::new());
    assert_eq!(board.uart.tx, Vec::<u8>::new());
}

#[test]
fn drivers_in_order_succeed_on_this_board() {
    let mut board = Board::new(Vec::new());
    let r = echo_kernel::kernel::init_drivers_in_order(&mut board.gpio, &mut board.uart);
    assert_eq!(r, Ok(()));
    assert_eq!(board.uart.cr, 0x301);
}

#[test]
fn echo_policy_waits_then_echoes() {
    // Before the newline: bytes are discarded.
    assert_eq!(echo_step(EchoPhase::AwaitingNewline, b'h'), (EchoPhase::AwaitingNewline, None));
    // The first newline starts the echo phase and is itself discarded.
    assert_eq!(echo_step(EchoPhase::AwaitingNewline, b'\n'), (EchoPhase::Echoing, None));
    // From then on every byte comes back, newline included.
    assert_eq!(echo_step(EchoPhase::Echoing, b'x'), (EchoPhase::Echoing, Some(b'x')));
    assert_eq!(echo_step(EchoPhase::Echoing, b'\n'), (EchoPhase::Echoing, Some(b'\n')));
}

#[test]
fn replay_plan_orders_uart_before_pin_mux() {
    let mut board = Board::new(b"\nx".to_vec());
    assert_eq!(echo_kernel::kernel::init(&mut board), Ok(()));
    let mut expected: Vec<(u64, RegOp)> = Vec::new();
    for op in uart_bringup_ops() {
        expected.push((0x3F20_1000, op));
    }
    for op in pin_mux_ops() {
        expected.push((0x3F20_0000, op));
    }
    assert_eq!(board.replay_plan(), expected);
}
