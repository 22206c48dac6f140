//! A verified CHIP-8 virtual machine: a 4096-byte memory, 16 registers, a
//! 16-deep call stack, two countdown timers, a 64x32 monochrome framebuffer
//! and a 16-key pad, driven by a fetch-decode-execute cycle over the base
//! 35-instruction set. Every state transition carries a contract; the host
//! only renders the framebuffer, feeds the keypad and paces the timers.

pub mod font;
pub mod state;
pub mod decode;
pub mod ops;
pub mod draw;
pub mod cycle;
