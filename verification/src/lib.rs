//! The processor and memory-mapped fabric of an 8-bit handheld console
//! (a Sharp LR35902-class CPU): registers and flags, the memory bus and the
//! devices behind it, the instruction set, interrupts and the timer.
//!
//! Every executable function carries a contract over the mathematical model
//! in [`machine`]: a `Cpu` is viewed as a `Machine`, and each operation states
//! which `Machine` it leads to.

pub mod bits;
pub mod flags;
pub mod alu;
pub mod rom;
pub mod memory_bank_controller;
pub mod timer;
pub mod vram;
pub mod ppu;
pub mod machine;
pub mod cpu;
pub mod instructions;
pub mod opcode_table;
pub mod execute;
pub mod laws;
pub mod invariants;
