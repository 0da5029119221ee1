//! A CHIP-8 virtual machine core: memory, opcode decoder, framebuffer and
//! execution engine, with machine-checked contracts.

pub mod fault;
pub mod memory;
pub mod op;
pub mod screen;
pub mod cpu;
pub mod chip8;
pub mod theorems;
