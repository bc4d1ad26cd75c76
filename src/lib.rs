//! A CHIP-8 interpreter core: memory with the built-in font, the return
//! stack, instruction decoding and the per-instruction state transition.
//! Windowing, input polling and ROM file reading live outside this library.

pub mod error;
pub mod stack;
pub mod memory;
pub mod instruction;
pub mod cpu;
pub mod machine;
pub mod laws;
