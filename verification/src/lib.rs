//! Core of a driver that repurposes the two-digit seven-segment POST-code
//! display on I/O port 0x80 as a coarse digital clock.
//!
//! The crate holds the verified logic of the driver: the digit encoder that
//! turns a two-digit decimal value into the byte a seven-segment decoder
//! renders as matching digits, the conflict detector that decides from the
//! kernel's `io_delay_type` setting whether the port is free for userspace,
//! and a model of the port guard that tracks every byte submitted to the
//! port. The unverified shell around the crate performs the actual file
//! read, the OS permission request and the raw `out` instruction, and feeds
//! their plain results to these functions.

pub mod display;
pub mod encode;
pub mod errors;
pub mod io_delay;

pub use display::Display;
pub use encode::to_hex_lookalike;
pub use errors::Error;
pub use io_delay::check_port_available;
pub use io_delay::parse_io_delay_type;
