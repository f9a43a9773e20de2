use crate::branch::{branch_target, compare, spec_branch_target, spec_compare, Condition};
use crate::decode::{
    decode, spec_decode, spec_family, spec_operand_mode, OperandMode, Operation, OP_BR,
};
use crate::fault::Fault;
use crate::registers::{
    valid_address, Register, RegisterFile, Registers, PROGRAM_COUNTER_ADDRESS,
};
use vstd::prelude::*;

verus! {

/// The peripherals of the machine, as the host provides them.
///
/// The machine promises nothing about what an implementation does and
/// expects nothing of it: whatever `update_buttons` leaves in the two bytes
/// becomes the contents of the button registers.
pub trait TGSUI {
    /// Prepares the host for showing the display and reading the buttons.
    fn init(&self);

    /// Shows the contents of the four display registers. In each byte, bits
    /// 0 to 6 light the seven segments of one digit; bit 7 is unused.
    fn update_display(&self, dp: [u8; 4]);

    /// Polls the two buttons and records what it finds in `bt`, the
    /// contents of the button registers: 1 for a pressed button, 0 for a
    /// released one.
    fn update_buttons(&self, bt: &mut [u8; 2]);
}

/// The machine: a register file and the peripherals attached to it.
pub struct TGS<T: TGSUI> {
    registers: RegisterFile,
    ui: T,
}

/// The program counter once the instruction at `pc` has been fetched. The
/// counter wraps from 255 to 0.
pub open spec fn spec_next_pc(pc: u8) -> u8 {
    ((pc + 1) % 256) as u8
}

/// The value of a right operand in `state`.
pub open spec fn spec_right_operand(state: Registers, mode: OperandMode, operand: u8) -> Result<
    u8,
    Fault,
> {
    match mode {
        OperandMode::Register => state.load(operand),
        OperandMode::Immediate => Ok(operand),
    }
}

/// The left operand cell and the right operand value of an instruction that
/// is no branch, or the fault that reading them raises.
pub open spec fn spec_operands(state: Registers, mode: OperandMode, left: u8, right: u8) -> Result<
    (Register, u8),
    Fault,
> {
    match (Register::spec_resolve(left), spec_right_operand(state, mode, right)) {
        (Ok(cell), Ok(value)) => Ok((cell, value)),
        _ => Err(Fault::InvalidRegisterAddress),
    }
}

/// The effect of a decoded instruction on a state whose program counter
/// already points past it.
///
/// - An ALU operation replaces the left operand by the result.
/// - A comparison stores the difference of the operands in the condition
///   register and leaves the left operand alone.
/// - A move replaces the left operand by the right operand.
/// - A branch sets the program counter to the left operand byte where its
///   predicate holds of the condition register. It reads no register other
///   than that one and so raises no fault.
///
/// The program counter and the condition register are operands like any
/// other register: an instruction that names one of them as its left operand
/// overwrites it.
pub open spec fn spec_execute(state: Registers, operation: Operation, left: u8, right: u8) -> Result<
    Registers,
    Fault,
> {
    match operation {
        Operation::Branch(condition) => Ok(
            Registers { pc: spec_branch_target(condition, state.cr, left, state.pc), ..state },
        ),
        Operation::Alu(op, mode) => match spec_operands(state, mode, left, right) {
            Ok((cell, value)) => Ok(state.write(cell, op.spec_apply(state.read(cell), value))),
            Err(fault) => Err(fault),
        },
        Operation::Compare(mode) => match spec_operands(state, mode, left, right) {
            Ok((cell, value)) => Ok(Registers { cr: spec_compare(state.read(cell), value), ..state }),
            Err(fault) => Err(fault),
        },
        Operation::Move(mode) => match spec_operands(state, mode, left, right) {
            Ok((cell, value)) => Ok(state.write(cell, value)),
            Err(fault) => Err(fault),
        },
    }
}

/// One step of the machine: the state that the instruction
/// `(opcode, left, right)` leaves behind, or the fault that it raises.
///
/// The opcode is decoded first, so an undefined opcode is reported as
/// [`Fault::InvalidOpcode`] whatever the operand bytes are. The program
/// counter is then advanced, and the instruction acts on the state with the
/// advanced counter.
pub open spec fn spec_step(state: Registers, opcode: u8, left: u8, right: u8) -> Result<
    Registers,
    Fault,
> {
    match spec_decode(opcode) {
        Ok(operation) => spec_execute(
            Registers { pc: spec_next_pc(state.pc), ..state },
            operation,
            left,
            right,
        ),
        Err(fault) => Err(fault),
    }
}

/// The fault that an instruction raises. It depends on the three bytes of
/// the instruction alone, not on the state of the machine.
pub open spec fn spec_fault(opcode: u8, left: u8, right: u8) -> Option<Fault> {
    match spec_decode(opcode) {
        Err(fault) => Some(fault),
        Ok(Operation::Branch(_)) => None,
        Ok(Operation::Alu(_, mode)) | Ok(Operation::Compare(mode)) | Ok(Operation::Move(mode)) => {
            if !valid_address(left) || (mode == OperandMode::Register && !valid_address(right)) {
                Some(Fault::InvalidRegisterAddress)
            } else {
                None
            }
        },
    }
}

/// Whether an instruction can write to the program counter other than by
/// advancing it: a branch can, and so can an ALU operation or a move whose
/// left operand is the program counter.
pub open spec fn spec_writes_pc(opcode: u8, left: u8) -> bool {
    match spec_decode(opcode) {
        Ok(Operation::Branch(_)) => true,
        Ok(Operation::Alu(_, _)) | Ok(Operation::Move(_)) => left == PROGRAM_COUNTER_ADDRESS,
        Ok(Operation::Compare(_)) => false,
        Err(_) => false,
    }
}

/// Advances a program counter by one instruction.
pub fn next_pc(pc: u8) -> (next: u8)
    ensures
        next == spec_next_pc(pc),
{
    pc.wrapping_add(1)
}

/// Reads the right operand of an instruction.
pub fn right_operand(registers: &RegisterFile, mode: OperandMode, operand: u8) -> (value: Result<
    u8,
    Fault,
>)
    ensures
        value == spec_right_operand(registers@, mode, operand),
{
    match mode {
        OperandMode::Register => registers.load(operand),
        OperandMode::Immediate => Ok(operand),
    }
}

/// Resolves the left operand of an instruction to its cell and reads the
/// right operand.
pub fn operands(registers: &RegisterFile, mode: OperandMode, left: u8, right: u8) -> (found: Result<
    (Register, u8),
    Fault,
>)
    ensures
        found == spec_operands(registers@, mode, left, right),
        found matches Ok((cell, _)) ==> cell.wf(),
{
    let value = match right_operand(registers, mode, right) {
        Ok(value) => value,
        Err(_) => {
            return Err(Fault::InvalidRegisterAddress);
        },
    };
    match Register::resolve(left) {
        Ok(cell) => Ok((cell, value)),
        Err(_) => Err(Fault::InvalidRegisterAddress),
    }
}

/// Carries out a decoded instruction on a register file whose program
/// counter already points past it. A fault leaves the register file as it
/// was.
pub fn execute(registers: &mut RegisterFile, operation: Operation, left: u8, right: u8) -> (done:
    Result<(), Fault>)
    ensures
        (match spec_execute(old(registers)@, operation, left, right) {
            Ok(after) => done is Ok && final(registers)@ == after,
            Err(fault) => done == Err::<(), Fault>(fault) && *final(registers) == *old(registers),
        }),
{
    match operation {
        Operation::Branch(condition) => {
            registers.pc = branch_target(condition, registers.cr, left, registers.pc);
            Ok(())
        },
        Operation::Alu(op, mode) => match operands(registers, mode, left, right) {
            Ok((cell, value)) => {
                let result = op.apply(registers.read(cell), value);
                registers.write(cell, result);
                Ok(())
            },
            Err(fault) => Err(fault),
        },
        Operation::Compare(mode) => match operands(registers, mode, left, right) {
            Ok((cell, value)) => {
                registers.cr = compare(registers.read(cell), value);
                Ok(())
            },
            Err(fault) => Err(fault),
        },
        Operation::Move(mode) => match operands(registers, mode, left, right) {
            Ok((cell, value)) => {
                registers.write(cell, value);
                Ok(())
            },
            Err(fault) => Err(fault),
        },
    }
}

impl<T: TGSUI> View for TGS<T> {
    type V = Registers;

    open spec fn view(&self) -> Registers {
        self.register_file()@
    }
}

impl<T: TGSUI> TGS<T> {
    /// The register file of the machine.
    pub closed spec fn register_file(self) -> RegisterFile {
        self.registers
    }

    /// The peripherals attached to the machine.
    pub closed spec fn peripheral(self) -> T {
        self.ui
    }

    /// A machine in its reset state: every register, the program counter
    /// included, holds zero.
    pub fn new(ui: T) -> (machine: TGS<T>)
        ensures
            machine@ == Registers::zeroed(),
            machine.peripheral() == ui,
    {
        TGS { registers: RegisterFile::new(), ui }
    }

    /// Executes one instruction and returns the program counter that it
    /// leaves behind: the index of the instruction to execute next.
    ///
    /// The step succeeds unless the opcode is undefined or the instruction
    /// names a register address at which no register sits. It then fails
    /// with [`Fault::InvalidOpcode`] or [`Fault::InvalidRegisterAddress`]
    /// and leaves every register, the program counter included, as it was.
    pub fn instruct(&mut self, opcode: u8, operand_left: u8, operand_right: u8) -> (new_pc: Result<
        u8,
        Fault,
    >)
        ensures
            (match spec_step(old(self)@, opcode, operand_left, operand_right) {
                Ok(after) => new_pc == Ok::<u8, Fault>(after.pc) && final(self)@ == after,
                Err(fault) => new_pc == Err::<u8, Fault>(fault) && final(self).register_file()
                    == old(self).register_file(),
            }),
            final(self).peripheral() == old(self).peripheral(),
            new_pc is Err <==> spec_fault(opcode, operand_left, operand_right) is Some,
            new_pc matches Err(fault) ==> spec_fault(opcode, operand_left, operand_right) == Some(
                fault,
            ),
            new_pc is Ok && !spec_writes_pc(opcode, operand_left) ==> new_pc == Ok::<u8, Fault>(
                spec_next_pc(old(self)@.pc),
            ),
            spec_family(opcode) == OP_BR ==> new_pc == Ok::<u8, Fault>(operand_left),
    {
        proof {
            lemma_fault_is_stateless(self@, opcode, operand_left, operand_right);
            if !spec_writes_pc(opcode, operand_left) {
                lemma_pc_advances(self@, opcode, operand_left, operand_right);
            }
            if spec_family(opcode) == OP_BR {
                lemma_unconditional_branch(self@, opcode, operand_left, operand_right);
            }
        }
        let operation = match decode(opcode) {
            Ok(operation) => operation,
            Err(fault) => {
                return Err(fault);
            },
        };
        let mut next = self.registers;
        next.pc = next_pc(next.pc);
        match execute(&mut next, operation, operand_left, operand_right) {
            Ok(()) => {
                self.registers = next;
                Ok(next.pc)
            },
            Err(fault) => Err(fault),
        }
    }

    /// Reads the register at address `reg`.
    ///
    /// Fails with [`Fault::InvalidRegisterAddress`] exactly when no register
    /// sits at `reg`.
    pub fn load_register(&self, reg: u8) -> (value: Result<u8, Fault>)
        ensures
            value == self@.load(reg),
            value is Ok <==> valid_address(reg),
            value is Err ==> value == Err::<u8, Fault>(Fault::InvalidRegisterAddress),
    {
        self.registers.load(reg)
    }

    /// Writes `val` to the register at address `reg` and leaves every other
    /// register alone.
    ///
    /// Fails with [`Fault::InvalidRegisterAddress`] exactly when no register
    /// sits at `reg`, and then changes nothing.
    pub fn store_register(&mut self, reg: u8, val: u8) -> (done: Result<(), Fault>)
        ensures
            (match old(self)@.store(reg, val) {
                Ok(after) => done is Ok && final(self)@ == after,
                Err(fault) => done == Err::<(), Fault>(fault) && final(self).register_file()
                    == old(self).register_file(),
            }),
            final(self).peripheral() == old(self).peripheral(),
            done is Ok <==> valid_address(reg),
            done is Err ==> done == Err::<(), Fault>(Fault::InvalidRegisterAddress),
    {
        self.registers.store(reg, val)
    }

    /// A copy of the register file.
    pub fn registers(&self) -> (file: RegisterFile)
        ensures
            file == self.register_file(),
    {
        self.registers
    }

    /// The peripherals attached to the machine.
    pub fn ui(&self) -> (ui: &T)
        ensures
            *ui == self.peripheral(),
    {
        &self.ui
    }

    /// The contents of the display registers.
    pub fn display(&self) -> (dp: [u8; 4])
        ensures
            dp@ == self@.dp,
    {
        self.registers.dp
    }

    /// The contents of the button registers.
    pub fn buttons(&self) -> (bt: [u8; 2])
        ensures
            bt@ == self@.bt,
    {
        self.registers.bt
    }

    /// Replaces the contents of the button registers and leaves every other
    /// register alone.
    pub fn set_buttons(&mut self, bt: [u8; 2])
        ensures
            final(self)@ == (Registers { bt: bt@, ..old(self)@ }),
            final(self).peripheral() == old(self).peripheral(),
    {
        self.registers.bt = bt;
    }

    /// Hands the contents of the display registers to the display.
    pub fn update_display(&self) {
        self.ui.update_display(self.display());
    }

    /// Lets the input peripheral rewrite the button registers. Whatever it
    /// does, no other register changes.
    pub fn update_buttons(&mut self)
        ensures
            final(self)@.gp == old(self)@.gp,
            final(self)@.dp == old(self)@.dp,
            final(self)@.pc == old(self)@.pc,
            final(self)@.cr == old(self)@.cr,
            final(self).peripheral() == old(self).peripheral(),
    {
        let mut bt = self.buttons();
        self.ui.update_buttons(&mut bt);
        self.set_buttons(bt);
    }
}

/// Whether an instruction faults, and with which fault, is decided by its
/// three bytes: an undefined opcode, or, in an instruction that is no
/// branch, a left operand or a register-mode right operand that is no
/// register address.
pub proof fn lemma_fault_is_stateless(state: Registers, opcode: u8, left: u8, right: u8)
    ensures
        spec_step(state, opcode, left, right) is Err <==> spec_fault(opcode, left, right) is Some,
        spec_step(state, opcode, left, right) matches Err(fault) ==> spec_fault(opcode, left, right)
            == Some(fault),
{
}

/// A step leaves a well-formed state well-formed.
pub proof fn lemma_step_preserves_wf(state: Registers, opcode: u8, left: u8, right: u8)
    requires
        state.wf(),
    ensures
        spec_step(state, opcode, left, right) matches Ok(after) ==> after.wf(),
{
}

/// An instruction that is no branch and does not name the program counter
/// as the operand it overwrites leaves the program counter pointing at the
/// instruction that follows it.
pub proof fn lemma_pc_advances(state: Registers, opcode: u8, left: u8, right: u8)
    requires
        !spec_writes_pc(opcode, left),
    ensures
        spec_step(state, opcode, left, right) matches Ok(after) ==> after.pc == spec_next_pc(
            state.pc,
        ),
{
}

/// An ALU operation or a move whose left operand is the program counter
/// works on the advanced counter: with the right operand `value`, it leaves
/// in the program counter what it computes from the address of the
/// following instruction and `value`, and changes nothing else.
pub proof fn lemma_pc_as_left_operand(state: Registers, opcode: u8, right: u8, value: u8)
    requires
        spec_right_operand(
            Registers { pc: spec_next_pc(state.pc), ..state },
            spec_operand_mode(opcode),
            right,
        ) == Ok::<u8, Fault>(value),
    ensures
        spec_decode(opcode) matches Ok(Operation::Alu(op, _)) ==> spec_step(
            state,
            opcode,
            PROGRAM_COUNTER_ADDRESS,
            right,
        ) == Ok::<Registers, Fault>(
            Registers { pc: op.spec_apply(spec_next_pc(state.pc), value), ..state },
        ),
        spec_decode(opcode) matches Ok(Operation::Move(_)) ==> spec_step(
            state,
            opcode,
            PROGRAM_COUNTER_ADDRESS,
            right,
        ) == Ok::<Registers, Fault>(Registers { pc: value, ..state }),
{
}

/// The unconditional branch sets the program counter to its left operand
/// byte whatever the condition register holds, and changes nothing else.
pub proof fn lemma_unconditional_branch(state: Registers, opcode: u8, left: u8, right: u8)
    requires
        spec_family(opcode) == OP_BR,
    ensures
        spec_step(state, opcode, left, right) == Ok::<Registers, Fault>(
            Registers { pc: left, ..state },
        ),
{
}

/// A conditional branch changes nothing but the program counter, which it
/// sets to the left operand byte where its predicate holds of the condition
/// register and to the following instruction where it does not.
pub proof fn lemma_conditional_branch(
    state: Registers,
    opcode: u8,
    left: u8,
    right: u8,
    condition: Condition,
)
    requires
        spec_decode(opcode) == Ok::<Operation, Fault>(Operation::Branch(condition)),
    ensures
        spec_step(state, opcode, left, right) == Ok::<Registers, Fault>(
            Registers {
                pc: if condition.spec_holds(state.cr) {
                    left
                } else {
                    spec_next_pc(state.pc)
                },
                ..state
            },
        ),
{
}

} // verus!
