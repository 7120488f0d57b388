//! Driver logic for the program flash of STM32F4 microcontrollers.
//!
//! The flash controller is operated through a handful of memory-mapped
//! registers. This crate holds everything the driver decides: the sector
//! address map, the meaning of the status bits, and the command sequences
//! for unlocking, erasing and word programming. The sequences are written as
//! state machines that never touch hardware themselves, so a host can run
//! them against the real registers or against the peripheral model that
//! lives here too.

pub mod sector;
pub mod status;
pub mod protocol;
pub mod device;
pub mod peripheral;
pub mod outcome;
pub mod flash;
mod waiting;
mod erasing;
mod writing;
pub mod laws;

pub use flash::Flash;
pub use status::FlashError;
