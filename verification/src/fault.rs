use vstd::prelude::*;

verus! {

/// The ways in which the machine or its program loader can fail.
///
/// All three are fatal: no function of this crate recovers from one, and a
/// function that reports one leaves the state it was given untouched.
#[derive(Clone, Copy, Debug, PartialEq, Eq, Structural)]
pub enum Fault {
    /// The opcode byte, with its addressing-mode bit cleared, names no
    /// operation of the instruction set.
    InvalidOpcode,
    /// A register address lies outside the register address space.
    InvalidRegisterAddress,
    /// A program image does not consist of whole three-byte instructions.
    MalformedProgramImage,
}

} // verus!
