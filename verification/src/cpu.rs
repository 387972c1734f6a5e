//! The cpu module contains the privileged mode, registers, and CPU.

use vstd::prelude::*;

use crate::bus::{Bus, BusView};
use crate::csr::{csr_reset_spec, State};
use crate::dram::{DRAM_BASE, DRAM_SIZE};

pub use crate::le::{BYTE, DOUBLEWORD, HALFWORD, WORD};

pub mod access;
pub mod alu;
pub mod compressed;
pub mod cycle;
pub mod decode;
pub mod general;

verus! {

/// The stack pointer.
pub const SP: u64 = 2;

/// The number of registers.
pub const REGISTERS_COUNT: usize = 32;

/// The page size (4 KiB) for the virtual memory system.
pub const PAGE_SIZE: u64 = 4096;

/// Access type that is used in the virtual address translation process. It decides which
/// exception should raises (InstructionPageFault, LoadPageFault or StoreAMOPageFault).
#[derive(Debug, Clone, Copy, PartialEq, Eq, Structural)]
pub enum AccessType {
    /// Raises the exception InstructionPageFault. It is used for an instruction fetch.
    Instruction,
    /// Raises the exception LoadPageFault.
    Load,
    /// Raises the exception StoreAMOPageFault.
    Store,
}

/// The privileged mode.
#[derive(Debug, Clone, Copy, PartialEq, Eq, Structural)]
pub enum Mode {
    User,
    Supervisor,
    Machine,
    Debug,
}

impl Mode {
    /// The encoding of a privilege mode in the `xPP` fields: 0b00 for user, 0b01 for supervisor
    /// and 0b11 for machine mode.
    pub open spec fn bits_spec(self) -> u64 {
        match self {
            Mode::User => 0b00,
            Mode::Supervisor => 0b01,
            Mode::Machine => 0b11,
            Mode::Debug => 0b100,
        }
    }

    /// The encoding of a privilege mode in the `xPP` fields.
    pub fn to_bits(&self) -> (r: u64)
        ensures
            r == self.bits_spec(),
    {
        match self {
            Mode::User => 0b00,
            Mode::Supervisor => 0b01,
            Mode::Machine => 0b11,
            Mode::Debug => 0b100,
        }
    }

    /// The privilege mode an `MPP` field encodes.
    pub open spec fn from_mpp_spec(bits: u64) -> Mode {
        if bits == 0b00 {
            Mode::User
        } else if bits == 0b01 {
            Mode::Supervisor
        } else if bits == 0b11 {
            Mode::Machine
        } else {
            Mode::Debug
        }
    }

    /// The privilege mode an `MPP` field encodes; the reserved encoding gives `Debug`.
    pub fn from_mpp(bits: u64) -> (r: Mode)
        ensures
            r == Self::from_mpp_spec(bits),
    {
        if bits == 0b00 {
            Mode::User
        } else if bits == 0b01 {
            Mode::Supervisor
        } else if bits == 0b11 {
            Mode::Machine
        } else {
            Mode::Debug
        }
    }

    /// A mode at or below supervisor privilege: user or supervisor.
    pub open spec fn at_most_supervisor(self) -> bool {
        self == Mode::User || self == Mode::Supervisor
    }
}

/// `x` after writing `value` to register `index`; register x0 is hardwired with all bits equal
/// to 0, so a write to it changes nothing.
pub open spec fn xwrite(x: Seq<u64>, index: u64, value: u64) -> Seq<u64> {
    if index == 0 {
        x
    } else {
        x.update(index as int, value)
    }
}

/// The integer registers a hart starts with: all zero but the stack pointer, at the end of
/// DRAM, and a1 (x11), which points to the device tree blob as a boot loader leaves it.
pub open spec fn initial_xregs() -> Seq<u64> {
    Seq::new(REGISTERS_COUNT as nat, |i: int| 0u64).update(SP as int, 0xc000_0000u64).update(
        11,
        0x1020,
    )
}

/// The integer registers.
#[derive(Debug)]
pub struct XRegisters {
    xregs: [u64; REGISTERS_COUNT],
}

impl View for XRegisters {
    type V = Seq<u64>;

    closed spec fn view(&self) -> Seq<u64> {
        self.xregs@
    }
}

impl XRegisters {
    #[verifier::type_invariant]
    spec fn inv(&self) -> bool {
        self.xregs[0] == 0
    }

    /// There are 32 registers.
    pub proof fn lemma_len(&self)
        ensures
            self@.len() == REGISTERS_COUNT,
    {
    }

    /// Register x0 always holds 0.
    pub fn zero_is_zero(&self)
        ensures
            self@[0] == 0,
    {
        proof {
            use_type_invariant(self);
        }
    }

    /// Create a new `XRegisters` object.
    pub fn new() -> (x: Self)
        ensures
            x@ == initial_xregs(),
    {
        let mut xregs = [0u64; REGISTERS_COUNT];
        // The stack pointer is set in the default maximum mamory size + the start address of
        // dram.
        xregs[SP as usize] = DRAM_BASE + DRAM_SIZE;
        // From riscv-pk: `void init_first_hart(uintptr_t hartid, uintptr_t dtb)`, where x10 (a0)
        // is the hartid and x11 (a1) the pointer to the dtb; the registers are set to the state
        // they are in when a boot loader finished.
        xregs[10] = 0;
        xregs[11] = 0x1020;
        let x = Self { xregs };
        assert(x@ =~= initial_xregs());
        x
    }

    /// Read the value from a register.
    pub fn read(&self, index: u64) -> (r: u64)
        requires
            index < REGISTERS_COUNT,
        ensures
            r == self@[index as int],
            index == 0 ==> r == 0,
    {
        proof {
            use_type_invariant(self);
        }
        self.xregs[index as usize]
    }

    /// Write the value to a register.
    pub fn write(&mut self, index: u64, value: u64)
        requires
            index < REGISTERS_COUNT,
        ensures
            final(self)@ == xwrite(old(self)@, index, value),
    {
        proof {
            use_type_invariant(&*self);
        }
        // Register x0 is hardwired with all bits equal to 0.
        if index != 0 {
            self.xregs[index as usize] = value;
        }
        assert(self@ =~= xwrite(old(self)@, index, value));
    }
}

/// The floating-point registers, each holding the bit pattern of a 64-bit floating-point value.
#[derive(Debug)]
pub struct FRegisters {
    fregs: [u64; REGISTERS_COUNT],
}

impl View for FRegisters {
    type V = Seq<u64>;

    closed spec fn view(&self) -> Seq<u64> {
        self.fregs@
    }
}

impl FRegisters {
    /// There are 32 registers.
    pub proof fn lemma_len(&self)
        ensures
            self@.len() == REGISTERS_COUNT,
    {
    }

    /// Create a new `FRegisters` object: every register holds +0.0.
    pub fn new() -> (f: Self)
        ensures
            f@ == Seq::new(REGISTERS_COUNT as nat, |i: int| 0u64),
    {
        let f = Self { fregs: [0u64; REGISTERS_COUNT] };
        assert(f@ =~= Seq::new(REGISTERS_COUNT as nat, |i: int| 0u64));
        f
    }

    /// Read the bit pattern held in a regsiter.
    pub fn read(&self, index: u64) -> (r: u64)
        requires
            index < REGISTERS_COUNT,
        ensures
            r == self@[index as int],
    {
        self.fregs[index as usize]
    }

    /// Write a bit pattern to a regsiter.
    pub fn write(&mut self, index: u64, value: u64)
        requires
            index < REGISTERS_COUNT,
        ensures
            final(self)@ == old(self)@.update(index as int, value),
    {
        self.fregs[index as usize] = value;
        assert(self@ =~= old(self)@.update(index as int, value));
    }
}

/// The architectural state of a hart and of everything on its bus.
pub struct CpuView {
    pub xregs: Seq<u64>,
    pub fregs: Seq<u64>,
    pub pc: u64,
    pub csrs: Seq<u64>,
    pub mode: Mode,
    pub prev_mode: Mode,
    pub bus: BusView,
    pub enable_paging: bool,
    pub page_table: u64,
    pub reservations: Seq<u64>,
    pub idle: bool,
}

/// The CPU to contain registers, a program coutner, status, and a privileged mode.
pub struct Cpu {
    /// 64-bit integer registers.
    pub xregs: XRegisters,
    /// 64-bit floating-point registers.
    pub fregs: FRegisters,
    /// Program coutner.
    pub pc: u64,
    /// Control and status registers (CSR).
    pub state: State,
    /// Privilege level.
    pub mode: Mode,
    /// Previous privilege level.
    pub prev_mode: Mode,
    /// System bus.
    pub bus: Bus,
    /// SV39 paging flag.
    pub enable_paging: bool,
    /// Physical page number (PPN) × PAGE_SIZE (4096).
    pub page_table: u64,
    /// A set of bytes that subsumes the bytes in the addressed word used in
    /// load-reserved/store-conditional instructions.
    pub reservation_set: Vec<u64>,
    /// Idle state. True when WFI is called, and becomes false when an interrupt happens.
    pub idle: bool,
}

impl View for Cpu {
    type V = CpuView;

    open spec fn view(&self) -> CpuView {
        CpuView {
            xregs: self.xregs@,
            fregs: self.fregs@,
            pc: self.pc,
            csrs: self.state@,
            mode: self.mode,
            prev_mode: self.prev_mode,
            bus: self.bus@,
            enable_paging: self.enable_paging,
            page_table: self.page_table,
            reservations: self.reservation_set@,
            idle: self.idle,
        }
    }
}

impl Cpu {
    /// A new hart: registers as a boot loader leaves them, the program counter at 0, the CSRs
    /// after a reset, machine mode, a new bus, no paging, no reservation, not idle.
    pub open spec fn new_spec() -> CpuView {
        CpuView {
            xregs: initial_xregs(),
            fregs: Seq::new(REGISTERS_COUNT as nat, |i: int| 0u64),
            pc: 0,
            csrs: csr_reset_spec(),
            mode: Mode::Machine,
            prev_mode: Mode::Machine,
            bus: Bus::new_spec(),
            enable_paging: false,
            page_table: 0,
            reservations: Seq::<u64>::empty(),
            idle: false,
        }
    }

    /// Create a new `Cpu` object.
    pub fn new() -> (c: Cpu)
        ensures
            c@ == Self::new_spec(),
    {
        let c = Cpu {
            xregs: XRegisters::new(),
            fregs: FRegisters::new(),
            pc: 0,
            state: State::new(),
            mode: Mode::Machine,
            prev_mode: Mode::Machine,
            bus: Bus::new(),
            enable_paging: false,
            page_table: 0,
            reservation_set: Vec::new(),
            idle: false,
        };
        assert(c@.reservations =~= Seq::<u64>::empty());
        c
    }
}

} // verus!
