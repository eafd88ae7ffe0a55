//! An emulator of a small 16-bit register machine.
//!
//! The machine executes big-endian 16-bit instruction words against 64
//! registers and 64 KiB of memory. [`Simple`] is the machine, [`alu`] its
//! arithmetic-logic unit, [`instruction`] the encoding, [`state`] the
//! mathematical model that the contracts are stated over, and [`laws`] what
//! is proved of the model.

pub mod alu;
pub mod instruction;
pub mod laws;
pub mod machine;
pub mod state;

pub use machine::{MachineError, Simple};
