//! A CHIP-8 virtual machine core.
//!
//! The crate holds the opcode decoder, a pure mapping from 16-bit words
//! into a closed instruction set, and the execution engine: registers, index
//! pointer, program counter, call stack, timers, and the sprite-blit rule
//! over a monochrome framebuffer. Window handling, keyboard mapping and file
//! reading live outside the core and talk to it through plain values.

pub mod cpu;
pub mod errors;
pub mod framebuffer;
pub mod instructions;
pub mod keypad;
pub mod laws;
pub mod memory;
pub mod stack;
