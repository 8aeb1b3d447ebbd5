//! A verified CHIP-8 virtual machine: instruction decoding, the interpreter
//! state with one handler per instruction, and the fixed-cadence scheduler
//! that decides how many instruction and timer steps are due.

pub mod instruction;
pub mod sprite;
pub mod machine;
pub mod chip8;
pub mod scheduler;
pub mod laws;
pub mod display;
pub mod keymap;
