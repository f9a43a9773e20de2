//! An emulator core for the TGS, a small fictional 8-bit register machine.
//!
//! The machine has eight general-purpose registers, two button registers,
//! four display registers, a program counter and a condition register, all
//! one byte wide and all reachable through one register address space. A
//! program is a sequence of three-byte instructions: an opcode, a left
//! operand and a right operand.
//!
//! Every function of this crate is verified against a mathematical model of
//! the machine: [`registers::Registers`] is the state of the machine, and
//! [`tgs::spec_step`] is what one instruction does to it.
//!
//! - [`registers`]: the register file and the register address space.
//! - [`decode`]: from opcodes to operations and operand modes.
//! - [`alu`]: wrapping arithmetic, shifts and bitwise operations.
//! - [`branch`]: comparison and branch predicates.
//! - [`tgs`]: the machine, which executes one instruction per call, and the
//!   trait through which it reaches its peripherals.
//! - [`program`]: program images and instruction fetch.
//! - [`clock`]: when the peripherals are due for an update.
//! - [`display`]: the display registers as seven-segment digits in text.
//! - [`buttons`]: the button registers as driven by a keyboard.
//! - [`fault`]: what can go wrong.

pub mod alu;
pub mod branch;
pub mod buttons;
pub mod clock;
pub mod decode;
pub mod display;
pub mod fault;
pub mod program;
pub mod registers;
pub mod tgs;
