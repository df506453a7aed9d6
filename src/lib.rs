//! A CHIP-8 interpreter core: instruction decoding, machine state, the
//! keypad and display models, and the one-instruction execution engine.

pub mod decode;
pub mod display;
pub mod keypad;
pub mod machine;
pub mod exec;
pub mod laws;
