//! An interpreter for the CHIP-8 virtual machine.

pub mod display;
pub mod entropy;
pub mod fault;
pub mod font;
pub mod instruction;
pub mod interpreter;
pub mod laws;
pub mod machine;

pub use crate::fault::Fault;
pub use crate::font::FONTSET;
pub use crate::instruction::Instruction;
pub use crate::interpreter::CHIP8;
pub use crate::machine::Machine;
