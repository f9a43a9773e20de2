use crate::alu::AluOp;
use crate::branch::Condition;
use crate::fault::Fault;
use vstd::prelude::*;

verus! {

/// Opcode of `ADD`, with a register as right operand.
pub const OP_ADD: u8 = 0x10;

/// Opcode of `SUB`, with a register as right operand.
pub const OP_SUB: u8 = 0x12;

/// Opcode of `LSH`, with a register as right operand.
pub const OP_LSH: u8 = 0x20;

/// Opcode of `RSH`, with a register as right operand.
pub const OP_RSH: u8 = 0x22;

/// Opcode of `AND`, with a register as right operand.
pub const OP_AND: u8 = 0x30;

/// Opcode of `OR`, with a register as right operand.
pub const OP_OR: u8 = 0x32;

/// Opcode of `XOR`, with a register as right operand.
pub const OP_XOR: u8 = 0x34;

/// Opcode of `CMP`, with a register as right operand.
pub const OP_COMPARE: u8 = 0x40;

/// Opcode of `BR`, the unconditional branch.
pub const OP_BR: u8 = 0x50;

/// Opcode of `BE`, branch if equal.
pub const OP_BE: u8 = 0x52;

/// Opcode of `BNE`, branch if not equal.
pub const OP_BNE: u8 = 0x54;

/// Opcode of `BG`, branch if the last difference was not negative.
pub const OP_BG: u8 = 0x56;

/// Opcode of `BL`, branch if the last difference was negative.
pub const OP_BL: u8 = 0x58;

/// Opcode of `MOV`, with a register as right operand.
pub const OP_MOV: u8 = 0x60;

/// Added to an opcode, makes the right operand an immediate value.
pub const IMMEDIATE_BIT: u8 = 0x01;

/// The bits of an opcode that name the operation.
pub const FAMILY_MASK: u8 = 0xFE;

/// How the right operand byte of an instruction is to be read.
#[derive(Clone, Copy, Debug, PartialEq, Eq, Structural)]
pub enum OperandMode {
    /// The byte is the address of the register that holds the operand.
    Register,
    /// The byte is the operand.
    Immediate,
}

/// What an instruction does, as far as its opcode says.
///
/// A branch carries no operand mode: it has no right operand, and the lowest
/// bit of its opcode means nothing.
#[derive(Clone, Copy, Debug, PartialEq, Eq, Structural)]
pub enum Operation {
    /// Replace the left operand by the result of an ALU operation.
    Alu(AluOp, OperandMode),
    /// Store the difference of the operands in the condition register.
    Compare(OperandMode),
    /// Set the program counter to the left operand byte if the predicate
    /// holds of the condition register.
    Branch(Condition),
    /// Replace the left operand by the right operand.
    Move(OperandMode),
}

/// The operand mode that the lowest bit of `opcode` selects.
pub open spec fn spec_operand_mode(opcode: u8) -> OperandMode {
    if opcode % 2 == 0 {
        OperandMode::Register
    } else {
        OperandMode::Immediate
    }
}

/// The opcode with its lowest bit cleared.
pub open spec fn spec_family(opcode: u8) -> u8 {
    (opcode - opcode % 2) as u8
}

/// The instruction set as a table from opcodes to operations.
///
/// An opcode names an operation by its upper seven bits; of the 128 values
/// they can take, fourteen are defined.
pub open spec fn spec_decode(opcode: u8) -> Result<Operation, Fault> {
    let family = spec_family(opcode);
    let mode = spec_operand_mode(opcode);
    if family == OP_ADD {
        Ok(Operation::Alu(AluOp::Add, mode))
    } else if family == OP_SUB {
        Ok(Operation::Alu(AluOp::Subtract, mode))
    } else if family == OP_LSH {
        Ok(Operation::Alu(AluOp::ShiftLeft, mode))
    } else if family == OP_RSH {
        Ok(Operation::Alu(AluOp::ShiftRight, mode))
    } else if family == OP_AND {
        Ok(Operation::Alu(AluOp::And, mode))
    } else if family == OP_OR {
        Ok(Operation::Alu(AluOp::Or, mode))
    } else if family == OP_XOR {
        Ok(Operation::Alu(AluOp::Xor, mode))
    } else if family == OP_COMPARE {
        Ok(Operation::Compare(mode))
    } else if family == OP_BR {
        Ok(Operation::Branch(Condition::Always))
    } else if family == OP_BE {
        Ok(Operation::Branch(Condition::Equal))
    } else if family == OP_BNE {
        Ok(Operation::Branch(Condition::NotEqual))
    } else if family == OP_BG {
        Ok(Operation::Branch(Condition::Greater))
    } else if family == OP_BL {
        Ok(Operation::Branch(Condition::Less))
    } else if family == OP_MOV {
        Ok(Operation::Move(mode))
    } else {
        Err(Fault::InvalidOpcode)
    }
}

/// Clearing the lowest bit with a mask and testing it with a mask agree with
/// the arithmetic reading of the opcode.
proof fn lemma_masks(opcode: u8)
    by (bit_vector)
    ensures
        ({
            &&& (opcode & 0xFE) as int == opcode as int - (opcode as int) % 2
            &&& (opcode & 0x01) as int == (opcode as int) % 2
        }),
{
}

/// Reads the operand mode off the lowest bit of an opcode.
pub fn operand_mode(opcode: u8) -> (mode: OperandMode)
    ensures
        mode == spec_operand_mode(opcode),
{
    proof {
        lemma_masks(opcode);
    }
    if opcode & IMMEDIATE_BIT == 0 {
        OperandMode::Register
    } else {
        OperandMode::Immediate
    }
}

/// Decodes an opcode.
///
/// Fails with [`Fault::InvalidOpcode`] exactly when the opcode, with its
/// lowest bit cleared, is none of the fourteen defined ones.
pub fn decode(opcode: u8) -> (operation: Result<Operation, Fault>)
    ensures
        operation == spec_decode(opcode),
        operation is Err ==> operation == Err::<Operation, Fault>(Fault::InvalidOpcode),
{
    proof {
        lemma_masks(opcode);
    }
    let family = opcode & FAMILY_MASK;
    let mode = operand_mode(opcode);
    if family == OP_ADD {
        Ok(Operation::Alu(AluOp::Add, mode))
    } else if family == OP_SUB {
        Ok(Operation::Alu(AluOp::Subtract, mode))
    } else if family == OP_LSH {
        Ok(Operation::Alu(AluOp::ShiftLeft, mode))
    } else if family == OP_RSH {
        Ok(Operation::Alu(AluOp::ShiftRight, mode))
    } else if family == OP_AND {
        Ok(Operation::Alu(AluOp::And, mode))
    } else if family == OP_OR {
        Ok(Operation::Alu(AluOp::Or, mode))
    } else if family == OP_XOR {
        Ok(Operation::Alu(AluOp::Xor, mode))
    } else if family == OP_COMPARE {
        Ok(Operation::Compare(mode))
    } else if family == OP_BR {
        Ok(Operation::Branch(Condition::Always))
    } else if family == OP_BE {
        Ok(Operation::Branch(Condition::Equal))
    } else if family == OP_BNE {
        Ok(Operation::Branch(Condition::NotEqual))
    } else if family == OP_BG {
        Ok(Operation::Branch(Condition::Greater))
    } else if family == OP_BL {
        Ok(Operation::Branch(Condition::Less))
    } else if family == OP_MOV {
        Ok(Operation::Move(mode))
    } else {
        Err(Fault::InvalidOpcode)
    }
}

/// The lowest bit of a branch opcode changes nothing, and the lowest bit of
/// any other defined opcode changes the operand mode and nothing else.
pub proof fn lemma_mode_bit(opcode: u8)
    requires
        opcode % 2 == 0,
    ensures
        spec_decode(opcode) is Ok <==> spec_decode((opcode + 1) as u8) is Ok,
        spec_decode(opcode) matches Ok(Operation::Branch(condition)) ==> spec_decode(
            (opcode + 1) as u8,
        ) == spec_decode(opcode),
        spec_decode(opcode) matches Ok(Operation::Alu(op, mode)) ==> mode == OperandMode::Register
            && spec_decode((opcode + 1) as u8) == Ok::<Operation, Fault>(
            Operation::Alu(op, OperandMode::Immediate),
        ),
        spec_decode(opcode) matches Ok(Operation::Compare(mode)) ==> mode == OperandMode::Register
            && spec_decode((opcode + 1) as u8) == Ok::<Operation, Fault>(
            Operation::Compare(OperandMode::Immediate),
        ),
        spec_decode(opcode) matches Ok(Operation::Move(mode)) ==> mode == OperandMode::Register
            && spec_decode((opcode + 1) as u8) == Ok::<Operation, Fault>(
            Operation::Move(OperandMode::Immediate),
        ),
{
}

} // verus!
