use crate::fault::Fault;
use vstd::prelude::*;

verus! {

/// Number of general-purpose registers.
pub const GENERAL_COUNT: u8 = 8;

/// Number of button registers.
pub const BUTTON_COUNT: u8 = 2;

/// Number of display registers.
pub const DISPLAY_COUNT: u8 = 4;

/// Address of the first general-purpose register.
pub const GENERAL_BASE: u8 = 0x00;

/// Address of the first button register.
pub const BUTTON_BASE: u8 = 0x10;

/// Address of the first display register.
pub const DISPLAY_BASE: u8 = 0x12;

/// Address of the program counter.
pub const PROGRAM_COUNTER_ADDRESS: u8 = 0x16;

/// Address of the condition register.
pub const CONDITION_RESULT_ADDRESS: u8 = 0x17;

/// A storage cell of the machine, named by what it is rather than by where
/// it sits in the address space.
#[derive(Clone, Copy, Debug, PartialEq, Eq, Structural)]
pub enum Register {
    /// General-purpose register `0..8`.
    General(u8),
    /// Button register `0..2`, written by the input peripheral.
    Button(u8),
    /// Display register `0..4`, read by the display peripheral.
    Display(u8),
    /// The program counter.
    ProgramCounter,
    /// The condition register, which holds the last comparison's difference.
    ConditionResult,
}

impl Register {
    /// The index of a banked register lies inside its bank.
    pub open spec fn wf(self) -> bool {
        match self {
            Register::General(index) => index < GENERAL_COUNT,
            Register::Button(index) => index < BUTTON_COUNT,
            Register::Display(index) => index < DISPLAY_COUNT,
            Register::ProgramCounter => true,
            Register::ConditionResult => true,
        }
    }

    /// The address space of the machine as a table:
    ///
    /// | Address       | Cell               |
    /// |---------------|--------------------|
    /// | `0x00..=0x07` | `General(0..8)`    |
    /// | `0x10..=0x11` | `Button(0..2)`     |
    /// | `0x12..=0x15` | `Display(0..4)`    |
    /// | `0x16`        | `ProgramCounter`   |
    /// | `0x17`        | `ConditionResult`  |
    ///
    /// Every other address is invalid.
    pub open spec fn spec_resolve(address: u8) -> Result<Register, Fault> {
        if address < GENERAL_BASE + GENERAL_COUNT {
            Ok(Register::General((address - GENERAL_BASE) as u8))
        } else if BUTTON_BASE <= address < BUTTON_BASE + BUTTON_COUNT {
            Ok(Register::Button((address - BUTTON_BASE) as u8))
        } else if DISPLAY_BASE <= address < DISPLAY_BASE + DISPLAY_COUNT {
            Ok(Register::Display((address - DISPLAY_BASE) as u8))
        } else if address == PROGRAM_COUNTER_ADDRESS {
            Ok(Register::ProgramCounter)
        } else if address == CONDITION_RESULT_ADDRESS {
            Ok(Register::ConditionResult)
        } else {
            Err(Fault::InvalidRegisterAddress)
        }
    }

    /// The address at which a well-formed cell sits.
    pub open spec fn spec_address(self) -> u8 {
        match self {
            Register::General(index) => (GENERAL_BASE + index) as u8,
            Register::Button(index) => (BUTTON_BASE + index) as u8,
            Register::Display(index) => (DISPLAY_BASE + index) as u8,
            Register::ProgramCounter => PROGRAM_COUNTER_ADDRESS,
            Register::ConditionResult => CONDITION_RESULT_ADDRESS,
        }
    }

    /// Finds the cell behind a register address.
    pub fn resolve(address: u8) -> (cell: Result<Register, Fault>)
        ensures
            cell == Self::spec_resolve(address),
            cell matches Ok(found) ==> found.wf() && found.spec_address() == address,
    {
        if address < GENERAL_BASE + GENERAL_COUNT {
            Ok(Register::General(address - GENERAL_BASE))
        } else if BUTTON_BASE <= address && address < BUTTON_BASE + BUTTON_COUNT {
            Ok(Register::Button(address - BUTTON_BASE))
        } else if DISPLAY_BASE <= address && address < DISPLAY_BASE + DISPLAY_COUNT {
            Ok(Register::Display(address - DISPLAY_BASE))
        } else if address == PROGRAM_COUNTER_ADDRESS {
            Ok(Register::ProgramCounter)
        } else if address == CONDITION_RESULT_ADDRESS {
            Ok(Register::ConditionResult)
        } else {
            Err(Fault::InvalidRegisterAddress)
        }
    }
}

/// The addresses behind which a register sits.
pub open spec fn valid_address(address: u8) -> bool {
    ||| 0x00 <= address <= 0x07
    ||| 0x10 <= address <= 0x17
}

/// The state of the machine: the contents of every register.
pub struct Registers {
    /// The eight general-purpose registers.
    pub gp: Seq<u8>,
    /// The two button registers.
    pub bt: Seq<u8>,
    /// The four display registers.
    pub dp: Seq<u8>,
    /// The program counter.
    pub pc: u8,
    /// The condition register.
    pub cr: u8,
}

impl Registers {
    /// Each bank holds as many registers as the machine has.
    pub open spec fn wf(self) -> bool {
        &&& self.gp.len() == GENERAL_COUNT
        &&& self.bt.len() == BUTTON_COUNT
        &&& self.dp.len() == DISPLAY_COUNT
    }

    /// The state in which every register holds zero.
    pub open spec fn zeroed() -> Registers {
        Registers {
            gp: Seq::new(GENERAL_COUNT as nat, |i: int| 0u8),
            bt: Seq::new(BUTTON_COUNT as nat, |i: int| 0u8),
            dp: Seq::new(DISPLAY_COUNT as nat, |i: int| 0u8),
            pc: 0,
            cr: 0,
        }
    }

    /// The byte held in `cell`.
    pub open spec fn read(self, cell: Register) -> u8 {
        match cell {
            Register::General(index) => self.gp[index as int],
            Register::Button(index) => self.bt[index as int],
            Register::Display(index) => self.dp[index as int],
            Register::ProgramCounter => self.pc,
            Register::ConditionResult => self.cr,
        }
    }

    /// The state in which `cell` holds `value` and every other cell holds
    /// what it held before.
    pub open spec fn write(self, cell: Register, value: u8) -> Registers {
        match cell {
            Register::General(index) => Registers { gp: self.gp.update(index as int, value), ..self },
            Register::Button(index) => Registers { bt: self.bt.update(index as int, value), ..self },
            Register::Display(index) => Registers { dp: self.dp.update(index as int, value), ..self },
            Register::ProgramCounter => Registers { pc: value, ..self },
            Register::ConditionResult => Registers { cr: value, ..self },
        }
    }

    /// What a load from `address` yields.
    pub open spec fn load(self, address: u8) -> Result<u8, Fault> {
        match Register::spec_resolve(address) {
            Ok(cell) => Ok(self.read(cell)),
            Err(fault) => Err(fault),
        }
    }

    /// What a store of `value` to `address` leaves behind.
    pub open spec fn store(self, address: u8, value: u8) -> Result<Registers, Fault> {
        match Register::spec_resolve(address) {
            Ok(cell) => Ok(self.write(cell, value)),
            Err(fault) => Err(fault),
        }
    }
}

/// The register file: plain storage for every register of the machine.
#[derive(Clone, Copy, Debug, PartialEq, Eq)]
pub struct RegisterFile {
    /// The general-purpose registers.
    pub gp: [u8; 8],
    /// The button registers.
    pub bt: [u8; 2],
    /// The display registers.
    pub dp: [u8; 4],
    /// The program counter.
    pub pc: u8,
    /// The condition register.
    pub cr: u8,
}

impl View for RegisterFile {
    type V = Registers;

    open spec fn view(&self) -> Registers {
        Registers { gp: self.gp@, bt: self.bt@, dp: self.dp@, pc: self.pc, cr: self.cr }
    }
}

impl RegisterFile {
    /// A register file in which every register holds zero.
    pub fn new() -> (file: RegisterFile)
        ensures
            file@ == Registers::zeroed(),
    {
        let file = RegisterFile { gp: [0; 8], bt: [0; 2], dp: [0; 4], pc: 0, cr: 0 };
        assert(file@.gp =~= Registers::zeroed().gp);
        assert(file@.bt =~= Registers::zeroed().bt);
        assert(file@.dp =~= Registers::zeroed().dp);
        file
    }

    /// Reads a cell.
    pub fn read(&self, cell: Register) -> (value: u8)
        requires
            cell.wf(),
        ensures
            value == self@.read(cell),
    {
        match cell {
            Register::General(index) => self.gp[index as usize],
            Register::Button(index) => self.bt[index as usize],
            Register::Display(index) => self.dp[index as usize],
            Register::ProgramCounter => self.pc,
            Register::ConditionResult => self.cr,
        }
    }

    /// Overwrites a cell and leaves every other cell alone.
    pub fn write(&mut self, cell: Register, value: u8)
        requires
            cell.wf(),
        ensures
            final(self)@ == old(self)@.write(cell, value),
    {
        match cell {
            Register::General(index) => {
                self.gp[index as usize] = value;
            },
            Register::Button(index) => {
                self.bt[index as usize] = value;
            },
            Register::Display(index) => {
                self.dp[index as usize] = value;
            },
            Register::ProgramCounter => {
                self.pc = value;
            },
            Register::ConditionResult => {
                self.cr = value;
            },
        }
    }

    /// Reads the register at `address`.
    ///
    /// Fails with [`Fault::InvalidRegisterAddress`] exactly when no register
    /// sits at `address`.
    pub fn load(&self, address: u8) -> (value: Result<u8, Fault>)
        ensures
            value == self@.load(address),
            value is Ok <==> valid_address(address),
            value is Err ==> value == Err::<u8, Fault>(Fault::InvalidRegisterAddress),
    {
        match Register::resolve(address) {
            Ok(cell) => Ok(self.read(cell)),
            Err(fault) => Err(fault),
        }
    }

    /// Writes `value` to the register at `address`.
    ///
    /// Fails with [`Fault::InvalidRegisterAddress`] exactly when no register
    /// sits at `address`, and then changes nothing.
    pub fn store(&mut self, address: u8, value: u8) -> (done: Result<(), Fault>)
        ensures
            (match old(self)@.store(address, value) {
                Ok(after) => done is Ok && final(self)@ == after,
                Err(fault) => done == Err::<(), Fault>(fault) && *final(self) == *old(self),
            }),
            done is Ok <==> valid_address(address),
            done is Err ==> done == Err::<(), Fault>(Fault::InvalidRegisterAddress),
    {
        match Register::resolve(address) {
            Ok(cell) => {
                self.write(cell, value);
                Ok(())
            },
            Err(fault) => Err(fault),
        }
    }
}

/// A register sits at exactly the addresses `0x00..=0x07` and
/// `0x10..=0x17`; every other address raises
/// [`Fault::InvalidRegisterAddress`]. The cell found at a valid address is
/// well-formed and sits at that address.
pub proof fn lemma_resolve_succeeds_on_valid_addresses(address: u8)
    ensures
        Register::spec_resolve(address) is Ok <==> valid_address(address),
        !valid_address(address) ==> Register::spec_resolve(address) == Err::<Register, Fault>(
            Fault::InvalidRegisterAddress,
        ),
        Register::spec_resolve(address) matches Ok(cell) ==> cell.wf() && cell.spec_address()
            == address,
{
}

/// Every well-formed cell has an address, and resolving that address finds
/// the cell again.
pub proof fn lemma_every_cell_has_an_address(cell: Register)
    requires
        cell.wf(),
    ensures
        valid_address(cell.spec_address()),
        Register::spec_resolve(cell.spec_address()) == Ok::<Register, Fault>(cell),
{
}

/// Two different valid addresses name two different cells.
pub proof fn lemma_addresses_name_distinct_cells(first: u8, second: u8)
    requires
        valid_address(first),
        valid_address(second),
        first != second,
    ensures
        Register::spec_resolve(first) is Ok,
        Register::spec_resolve(second) is Ok,
        Register::spec_resolve(first) != Register::spec_resolve(second),
{
}

/// A cell holds what was last written to it, and a write to one cell is not
/// seen in any other.
pub proof fn lemma_read_after_write(state: Registers, written: Register, value: u8, read: Register)
    requires
        state.wf(),
        written.wf(),
        read.wf(),
    ensures
        state.write(written, value).wf(),
        state.write(written, value).read(read) == if read == written {
            value
        } else {
            state.read(read)
        },
{
}

/// A store to a valid address is seen by a load from that address and by no
/// load from any other: the registers are sixteen separate storage cells.
pub proof fn lemma_load_after_store(state: Registers, stored: u8, value: u8, loaded: u8)
    requires
        state.wf(),
        valid_address(stored),
        valid_address(loaded),
    ensures
        state.store(stored, value) matches Ok(after) && after.wf() && after.load(loaded) == if loaded
            == stored {
            Ok::<u8, Fault>(value)
        } else {
            state.load(loaded)
        },
{
}

} // verus!
