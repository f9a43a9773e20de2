use crate::fault::Fault;
use vstd::prelude::*;

verus! {

/// Length of an instruction in bytes.
pub const INSTRUCTION_BYTES: usize = 3;

/// One instruction of a program.
#[derive(Clone, Copy, Debug, PartialEq, Eq, Structural)]
pub struct Instruction {
    /// What the instruction does and how its right operand is to be read.
    pub opcode: u8,
    /// The address of the register that the instruction reads and
    /// overwrites, or the target of a branch.
    pub operand_left: u8,
    /// A register address or an immediate value, as the opcode says.
    pub operand_right: u8,
}

/// An image holds whole instructions only.
pub open spec fn spec_well_formed(image: Seq<u8>) -> bool {
    image.len() % 3 == 0
}

/// The instruction with index `index` of a program image: an image is a
/// sequence of instructions without header, padding or trailer.
pub open spec fn spec_instruction_at(image: Seq<u8>, index: int) -> Instruction {
    Instruction {
        opcode: image[3 * index],
        operand_left: image[3 * index + 1],
        operand_right: image[3 * index + 2],
    }
}

/// The program that an image holds.
pub open spec fn spec_program(image: Seq<u8>) -> Seq<Instruction> {
    Seq::new(image.len() / 3, |index: int| spec_instruction_at(image, index))
}

/// The image of a program: its instructions, three bytes each, one after
/// the other.
pub open spec fn spec_image(program: Seq<Instruction>) -> Seq<u8> {
    Seq::new(
        3 * program.len(),
        |at: int|
            if at % 3 == 0 {
                program[at / 3].opcode
            } else if at % 3 == 1 {
                program[at / 3].operand_left
            } else {
                program[at / 3].operand_right
            },
    )
}

/// Splits a program image into its instructions.
///
/// Fails with [`Fault::MalformedProgramImage`] exactly when the length of
/// the image is no multiple of three.
pub fn parse_program(image: &[u8]) -> (program: Result<Vec<Instruction>, Fault>)
    ensures
        (match program {
            Ok(instructions) => spec_well_formed(image@) && instructions@ == spec_program(image@),
            Err(fault) => !spec_well_formed(image@) && fault == Fault::MalformedProgramImage,
        }),
{
    let length = image.len();
    if length % INSTRUCTION_BYTES != 0 {
        return Err(Fault::MalformedProgramImage);
    }
    let count = length / INSTRUCTION_BYTES;
    let mut instructions: Vec<Instruction> = Vec::new();
    let mut index: usize = 0;
    while index < count
        invariant
            length == image@.len(),
            length % 3 == 0,
            count == length / 3,
            index <= count,
            instructions@.len() == index,
            forall|i: int|
                0 <= i < index ==> #[trigger] instructions@[i] == spec_instruction_at(image@, i),
        decreases count - index,
    {
        let base = index * INSTRUCTION_BYTES;
        instructions.push(
            Instruction {
                opcode: image[base],
                operand_left: image[base + 1],
                operand_right: image[base + 2],
            },
        );
        index += 1;
    }
    assert(instructions@ =~= spec_program(image@));
    Ok(instructions)
}

/// The instruction at which the program counter `pc` points, or `None`
/// where the program counter points past the end of the program.
pub open spec fn spec_fetch(program: Seq<Instruction>, pc: u8) -> Option<Instruction> {
    if pc < program.len() {
        Some(program[pc as int])
    } else {
        None
    }
}

/// Fetches the instruction at which the program counter points.
pub fn fetch(program: &[Instruction], pc: u8) -> (instruction: Option<Instruction>)
    ensures
        instruction == spec_fetch(program@, pc),
{
    let index = pc as usize;
    if index < program.len() {
        Some(program[index])
    } else {
        None
    }
}

/// Nothing of a well-formed image is lost in its program: the image of the
/// program is the image again.
pub proof fn lemma_program_keeps_every_byte(image: Seq<u8>)
    requires
        spec_well_formed(image),
    ensures
        spec_image(spec_program(image)) == image,
{
    assert(spec_image(spec_program(image)) =~= image);
}

/// The program of the image of a program is the program again.
pub proof fn lemma_image_keeps_every_instruction(program: Seq<Instruction>)
    ensures
        spec_well_formed(spec_image(program)),
        spec_program(spec_image(program)) == program,
{
    assert(spec_program(spec_image(program)) =~= program);
}

} // verus!
