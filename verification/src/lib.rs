//! A DMA-driven PWM engine for the GPIO pins of a small single-board
//! computer, together with the telemetry-stream descriptions its host
//! program publishes.
//!
//! The library holds everything that can be computed and checked ahead of
//! the hardware: configuration validation, board-revision decoding, the
//! firmware-mailbox wire codec, the circular control-block program that the
//! DMA engine executes, the live duty-cycle update protocol, and the ordered
//! register program that arms the pacing peripheral.  The thin layer that
//! actually touches device files, maps physical memory and performs volatile
//! register writes lives outside and consumes these values unchanged.

pub mod bits;
pub mod board;
pub mod chain;
pub mod errors;
pub mod fraction;
pub mod hwinit;
pub mod ioctl;
pub mod mailbox;
pub mod platform;
pub mod server;
pub mod telemetry;
