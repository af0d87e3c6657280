//! A CHIP-8 virtual machine: 4 KiB of memory, sixteen 8-bit registers, a 64x32 monochrome
//! display, a sixteen-key pad and two countdown timers, driven one instruction at a time.
//!
//! `Emu` is the machine. `model::MachineState` is the mathematical value that its contracts
//! speak of, `laws` holds what is proved of that model for every state.

pub mod emu;
pub mod engine;
mod entropy;
pub mod error;
pub mod instruction;
pub mod keymap;
pub mod laws;
pub mod model;

pub use crate::emu::Emu;
pub use crate::error::EmuError;
pub use crate::instruction::{decode, Instruction};
pub use crate::keymap::key2btn;
pub use crate::model::{
    FONTSET, FONTSET_SIZE, MAX_PROGRAM_SIZE, NUM_KEYS, NUM_REGS, RAM_SIZE, SCREEN_HEIGHT,
    SCREEN_SIZE, SCREEN_WIDTH, STACK_SIZE, START_ADDR,
};
