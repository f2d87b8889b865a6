//! An interpreter core for the classic 8-bit CHIP-8 virtual machine: machine state,
//! fetch and decode, the operation set with its compatibility quirks, the frame
//! timing scheduler and the keypad edge tracker.
pub mod alu;
pub mod cycle;
mod exec;
pub mod keypad;
pub mod laws;
pub mod machine;
pub mod ops;
pub mod semantics;
pub mod settings;
