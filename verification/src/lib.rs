//! Boot and driver layer of a minimal single-core bare-metal kernel:
//! a composable I/O capability model, a driver lifecycle contract, and the
//! register-level protocols that bring a GPIO pin mux and a PL011 UART from
//! reset to a usable console. Every register operation a driver issues is
//! recorded in order, so the hardware protocols (pin-mux latch sequence,
//! baud/line configuration) are stated and proved over that trace; the
//! platform layer replays the trace onto the physical register windows.

pub mod bsp;
pub mod kernel;
