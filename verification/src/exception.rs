//! The exception module contains all the exception kinds and the function to handle exceptions.

use vstd::prelude::*;

use crate::cpu::{Cpu, CpuView, Mode};
use crate::cpu::general::{mret_spec, sret_spec};
use crate::csr::{
    bit_spec, bits_spec, csr_read_spec, csr_write_spec, outside_mask, write_bit_spec,
    write_bits_spec, BitBound, CSR_SIZE, MEDELEG, MEPC, MCAUSE, MSTATUS, MTVAL, MTVEC, SCAUSE,
    SEPC, SSTATUS, SSTATUS_READ_MASK, SSTATUS_WRITE_MASK, STVAL, STVEC,
};

verus! {

/// The CSRs after a trap is taken into S-mode from `prev`: SPIE takes the value of SIE, SIE
/// becomes 0 and SPP records whether the trap came from user mode (0) or not (1).
pub open spec fn enter_supervisor(csrs: Seq<u64>, prev: Mode) -> Seq<u64> {
    let c1 = write_bit_spec(csrs, SSTATUS, 5, bit_spec(csr_read_spec(csrs, SSTATUS), 1));
    let c2 = write_bit_spec(c1, SSTATUS, 1, 0);
    write_bit_spec(
        c2,
        SSTATUS,
        8,
        if prev == Mode::User {
            0
        } else {
            1
        },
    )
}

/// The CSRs after a trap is taken into M-mode from `prev`: MPIE takes the value of MIE, MIE
/// becomes 0 and MPP records the mode the trap came from.
pub open spec fn enter_machine(csrs: Seq<u64>, prev: Mode) -> Seq<u64> {
    let c1 = write_bit_spec(csrs, MSTATUS, 7, bit_spec(csr_read_spec(csrs, MSTATUS), 3));
    let c2 = write_bit_spec(c1, MSTATUS, 3, 0);
    write_bits_spec(c2, MSTATUS, 11, 13, prev.bits_spec())
}

/// Whether an exception with cause `cause` raised in mode `mode` is handled in S-mode: the trap
/// comes from user or supervisor mode and bit `cause` of `medeleg` is set.
pub open spec fn delegated(csrs: Seq<u64>, mode: Mode, deleg: u16, cause: u64) -> bool {
    mode.at_most_supervisor() && (csr_read_spec(csrs, deleg) >> cause) & 1 == 1
}

/// The CPU after taking the trap for exception `e`. By default a trap is handled in M-mode;
/// one delegated by `medeleg` is handled in S-mode. The handler's mode is entered, the program
/// counter goes to the trap vector base (`xtvec` with bit 0 cleared), `xepc` records the
/// exception's program counter with bit 0 cleared, `xcause` the exception code and `xtval` the
/// trap value.
pub open spec fn exception_trap_spec(e: Exception, v: CpuView) -> CpuView {
    let epc = e.epc_spec(v.pc);
    let cause = e.code_spec();
    if delegated(v.csrs, v.mode, MEDELEG, cause) {
        let c1 = csr_write_spec(v.csrs, SEPC, epc & !1u64);
        let c2 = csr_write_spec(c1, SCAUSE, cause);
        let c3 = csr_write_spec(c2, STVAL, e.trap_value_spec(epc));
        CpuView {
            mode: Mode::Supervisor,
            pc: csr_read_spec(v.csrs, STVEC) & !1u64,
            csrs: enter_supervisor(c3, v.mode),
            ..v
        }
    } else {
        let c1 = csr_write_spec(v.csrs, MEPC, epc & !1u64);
        let c2 = csr_write_spec(c1, MCAUSE, cause);
        let c3 = csr_write_spec(c2, MTVAL, e.trap_value_spec(epc));
        CpuView {
            mode: Mode::Machine,
            pc: csr_read_spec(v.csrs, MTVEC) & !1u64,
            csrs: enter_machine(c3, v.mode),
            ..v
        }
    }
}

/// All the exception kinds.
#[derive(Debug, Clone, Copy, PartialEq, Eq, Structural)]
pub enum Exception {
    /// With the addition of the C extension, no instructions can raise
    /// instruction-address-misaligned exceptions.
    InstructionAddressMisaligned,
    InstructionAccessFault,
    /// Stores the faulting instruction.
    IllegalInstruction(u64),
    Breakpoint,
    LoadAddressMisaligned,
    LoadAccessFault,
    StoreAMOAddressMisaligned,
    StoreAMOAccessFault,
    EnvironmentCallFromUMode,
    EnvironmentCallFromSMode,
    EnvironmentCallFromMMode,
    /// Stores a trap value (the faulting address) for page fault exceptions.
    InstructionPageFault(u64),
    LoadPageFault(u64),
    StoreAMOPageFault(u64),
}

/// All the trap kinds.
#[derive(Debug, Clone, Copy, PartialEq, Eq, Structural)]
pub enum Trap {
    /// The trap is visible to, and handled by, software running inside the execution
    /// environment.
    Contained,
    /// The trap is a synchronous exception that is an explicit call to the execution
    /// environment requesting an action on behalf of software inside the execution environment.
    Requested,
    /// The trap is handled transparently by the execution environment and execution
    /// resumes normally after the trap is handled.
    Invisible,
    /// The trap represents a fatal failure and causes the execution environment to terminate
    /// execution.
    Fatal,
}

impl Exception {
    /// The exception code written to `mcause` or `scause` (Table 3.6 of the privileged spec).
    pub open spec fn code_spec(self) -> u64 {
        match self {
            Exception::InstructionAddressMisaligned => 0,
            Exception::InstructionAccessFault => 1,
            Exception::IllegalInstruction(_) => 2,
            Exception::Breakpoint => 3,
            Exception::LoadAddressMisaligned => 4,
            Exception::LoadAccessFault => 5,
            Exception::StoreAMOAddressMisaligned => 6,
            Exception::StoreAMOAccessFault => 7,
            Exception::EnvironmentCallFromUMode => 8,
            Exception::EnvironmentCallFromSMode => 9,
            Exception::EnvironmentCallFromMMode => 11,
            Exception::InstructionPageFault(_) => 12,
            Exception::LoadPageFault(_) => 13,
            Exception::StoreAMOPageFault(_) => 15,
        }
    }

    /// The exception code written to `mcause` or `scause`.
    pub fn exception_code(&self) -> (r: u64)
        ensures
            r == self.code_spec(),
    {
        match self {
            Exception::InstructionAddressMisaligned => 0,
            Exception::InstructionAccessFault => 1,
            Exception::IllegalInstruction(_) => 2,
            Exception::Breakpoint => 3,
            Exception::LoadAddressMisaligned => 4,
            Exception::LoadAccessFault => 5,
            Exception::StoreAMOAddressMisaligned => 6,
            Exception::StoreAMOAccessFault => 7,
            Exception::EnvironmentCallFromUMode => 8,
            Exception::EnvironmentCallFromSMode => 9,
            Exception::EnvironmentCallFromMMode => 11,
            Exception::InstructionPageFault(_) => 12,
            Exception::LoadPageFault(_) => 13,
            Exception::StoreAMOPageFault(_) => 15,
        }
    }

    /// The exception program counter saved when the exception is taken at `pc`.
    /// 3.2.1: "ECALL and EBREAK cause the receiving privilege mode's epc register to be set to
    /// the address of the ECALL or EBREAK instruction itself, not the address of the following
    /// instruction." Page faults keep `pc` too; the other exceptions point after it.
    pub open spec fn epc_spec(self, pc: u64) -> u64 {
        match self {
            Exception::Breakpoint
            | Exception::EnvironmentCallFromUMode
            | Exception::EnvironmentCallFromSMode
            | Exception::EnvironmentCallFromMMode
            | Exception::InstructionPageFault(_)
            | Exception::LoadPageFault(_)
            | Exception::StoreAMOPageFault(_) => pc,
            _ => pc.wrapping_add(4),
        }
    }

    /// The exception program counter saved when the exception is taken at `pc`.
    pub fn epc(&self, pc: u64) -> (r: u64)
        ensures
            r == self.epc_spec(pc),
    {
        match self {
            Exception::Breakpoint
            | Exception::EnvironmentCallFromUMode
            | Exception::EnvironmentCallFromSMode
            | Exception::EnvironmentCallFromMMode
            | Exception::InstructionPageFault(_)
            | Exception::LoadPageFault(_)
            | Exception::StoreAMOPageFault(_) => pc,
            _ => pc.wrapping_add(4),
        }
    }

    /// The trap value written to `mtval` or `stval` (3.1.17): the faulting address for access and
    /// misalignment faults and breakpoints (`pc` here), the stored address for page faults, the
    /// faulting instruction for an illegal instruction, and zero otherwise.
    pub open spec fn trap_value_spec(self, pc: u64) -> u64 {
        match self {
            Exception::InstructionAddressMisaligned
            | Exception::InstructionAccessFault
            | Exception::Breakpoint
            | Exception::LoadAddressMisaligned
            | Exception::LoadAccessFault
            | Exception::StoreAMOAddressMisaligned
            | Exception::StoreAMOAccessFault => pc,
            Exception::InstructionPageFault(val)
            | Exception::LoadPageFault(val)
            | Exception::StoreAMOPageFault(val) => val,
            Exception::IllegalInstruction(val) => val,
            _ => 0,
        }
    }

    /// The trap value written to `mtval` or `stval`.
    pub fn trap_value(&self, pc: u64) -> (r: u64)
        ensures
            r == self.trap_value_spec(pc),
    {
        match self {
            Exception::InstructionAddressMisaligned
            | Exception::InstructionAccessFault
            | Exception::Breakpoint
            | Exception::LoadAddressMisaligned
            | Exception::LoadAccessFault
            | Exception::StoreAMOAddressMisaligned
            | Exception::StoreAMOAccessFault => pc,
            Exception::InstructionPageFault(val)
            | Exception::LoadPageFault(val)
            | Exception::StoreAMOPageFault(val) => *val,
            Exception::IllegalInstruction(val) => *val,
            _ => 0,
        }
    }

    /// The kind of trap an exception is.
    pub open spec fn trap_kind_spec(self) -> Trap {
        match self {
            Exception::InstructionAddressMisaligned | Exception::InstructionAccessFault => {
                Trap::Fatal
            },
            Exception::IllegalInstruction(_) => Trap::Invisible,
            Exception::Breakpoint => Trap::Requested,
            Exception::LoadAddressMisaligned
            | Exception::LoadAccessFault
            | Exception::StoreAMOAddressMisaligned
            | Exception::StoreAMOAccessFault => Trap::Fatal,
            Exception::EnvironmentCallFromUMode
            | Exception::EnvironmentCallFromSMode
            | Exception::EnvironmentCallFromMMode => Trap::Requested,
            Exception::InstructionPageFault(_)
            | Exception::LoadPageFault(_)
            | Exception::StoreAMOPageFault(_) => Trap::Invisible,
        }
    }

    /// The kind of trap an exception is.
    pub fn trap_kind(&self) -> (r: Trap)
        ensures
            r == self.trap_kind_spec(),
    {
        match self {
            Exception::InstructionAddressMisaligned | Exception::InstructionAccessFault => {
                Trap::Fatal
            },
            Exception::IllegalInstruction(_) => Trap::Invisible,
            Exception::Breakpoint => Trap::Requested,
            Exception::LoadAddressMisaligned
            | Exception::LoadAccessFault
            | Exception::StoreAMOAddressMisaligned
            | Exception::StoreAMOAccessFault => Trap::Fatal,
            Exception::EnvironmentCallFromUMode
            | Exception::EnvironmentCallFromSMode
            | Exception::EnvironmentCallFromMMode => Trap::Requested,
            Exception::InstructionPageFault(_)
            | Exception::LoadPageFault(_)
            | Exception::StoreAMOPageFault(_) => Trap::Invisible,
        }
    }

    /// Update CSRs and the program counter depending on an exception.
    pub fn take_trap(&self, cpu: &mut Cpu) -> (t: Trap)
        requires
            old(cpu).mode != Mode::Debug,
        ensures
            final(cpu)@ == exception_trap_spec(*self, old(cpu)@),
            t == self.trap_kind_spec(),
    {
        // 1.2 Privilege Levels
        // "Traps that increase privilege level are termed vertical traps, while traps that remain
        // at the same privilege level are termed horizontal traps."
        let exception_pc = self.epc(cpu.pc);
        let previous_mode = cpu.mode;
        let cause = self.exception_code();
        // 3.1.8 Machine Trap Delegation Registers (medeleg and mideleg)
        // "By default, all traps at any privilege level are handled in machine mode"
        if (previous_mode == Mode::User || previous_mode == Mode::Supervisor) && ((
        cpu.state.read(MEDELEG) >> cause) & 1) == 1 {
            // Handle the trap in S-mode.
            cpu.mode = Mode::Supervisor;
            // Set the program counter to the supervisor trap-handler base address (stvec).
            cpu.pc = cpu.state.read(STVEC) & !1;
            // "The low bit of sepc (sepc[0]) is always zero."
            cpu.state.write(SEPC, exception_pc & !1);
            cpu.state.write(SCAUSE, cause);
            cpu.state.write(STVAL, self.trap_value(exception_pc));
            // Set SPIE (5) to SIE (1), then clear SIE.
            let sie = cpu.state.read_bit(SSTATUS, 1);
            cpu.state.write_bit(SSTATUS, 5, sie);
            cpu.state.write_bit(SSTATUS, 1, 0);
            // "When a trap is taken, SPP is set to 0 if the trap originated from user mode, or
            // 1 otherwise."
            match previous_mode {
                Mode::User => cpu.state.write_bit(SSTATUS, 8, 0),
                _ => cpu.state.write_bit(SSTATUS, 8, 1),
            }
        } else {
            // Handle the trap in M-mode.
            cpu.mode = Mode::Machine;
            // Set the program counter to the machine trap-handler base address (mtvec).
            cpu.pc = cpu.state.read(MTVEC) & !1;
            // "The low bit of mepc (mepc[0]) is always zero."
            cpu.state.write(MEPC, exception_pc & !1);
            cpu.state.write(MCAUSE, cause);
            cpu.state.write(MTVAL, self.trap_value(exception_pc));
            // Set MPIE (7) to MIE (3), then clear MIE.
            let mie = cpu.state.read_bit(MSTATUS, 3);
            cpu.state.write_bit(MSTATUS, 7, mie);
            cpu.state.write_bit(MSTATUS, 3, 0);
            // "xPP is set to y", the mode the trap was taken from.
            cpu.state.write_bits(
                MSTATUS,
                BitBound::Included(11),
                BitBound::Included(12),
                previous_mode.to_bits(),
            );
        }
        self.trap_kind()
    }
}

/// The `mstatus` value after entering M-mode from a mode encoded as `mpp`: MPIE (bit 7) takes
/// MIE (bit 3), MIE is cleared, and MPP (bits 11 and 12) holds `mpp`.
pub open spec fn mstatus_after_trap(m: u64, mpp: u64) -> u64 {
    let m1 = if m & (1u64 << 3u64) != 0 {
        m | (1u64 << 7u64)
    } else {
        m & !(1u64 << 7u64)
    };
    let m2 = m1 & !(1u64 << 3u64);
    (m2 & ((!0u64 << 13u64) | !(!0u64 << 11u64))) | (mpp << 11u64)
}

/// The MPP field of `mstatus` after entering M-mode holds the mode, and MPIE the former MIE.
pub(crate) proof fn lemma_enter_machine_bits(m: u64, mpp: u64)
    requires
        mpp < 4,
    ensures
        (mstatus_after_trap(m, mpp) & !(!0u64 << 13u64)) >> 11u64 == mpp,
        (mstatus_after_trap(m, mpp) & (1u64 << 7u64) != 0) == (m & (1u64 << 3u64) != 0),
{
    assert((mstatus_after_trap(m, mpp) & !(!0u64 << 13u64)) >> 11u64 == mpp && ((mstatus_after_trap(
        m,
        mpp,
    ) & (1u64 << 7u64) != 0) == (m & (1u64 << 3u64) != 0))) by (bit_vector)
        requires
            mpp < 4,
    ;
}

/// The `mstatus` value after `mret`: MIE (bit 3) takes MPIE (bit 7), MPIE is set, and MPP
/// (bits 11 and 12) is cleared.
pub open spec fn mstatus_after_mret(x: u64) -> u64 {
    let x1 = if x & (1u64 << 7u64) != 0 {
        x | (1u64 << 3u64)
    } else {
        x & !(1u64 << 3u64)
    };
    let x2 = x1 | (1u64 << 7u64);
    (x2 & ((!0u64 << 13u64) | !(!0u64 << 11u64))) | (0u64 << 11u64)
}

/// After `mret`, MIE holds what MPIE held.
pub(crate) proof fn lemma_mret_bits(x: u64)
    ensures
        (mstatus_after_mret(x) & (1u64 << 3u64) != 0) == (x & (1u64 << 7u64) != 0),
{
    assert((mstatus_after_mret(x) & (1u64 << 3u64) != 0) == (x & (1u64 << 7u64) != 0))
        by (bit_vector);
}

/// A trap into M-mode and the `mret` that ends its handler bring the hart back where it was:
/// the privilege mode it was in, the exception's program counter (bit 0 cleared), and the
/// machine interrupt-enable bit it had.
pub proof fn law_trap_then_mret(e: Exception, v: CpuView)
    requires
        v.csrs.len() == CSR_SIZE,
        v.mode != Mode::Debug,
        !delegated(v.csrs, v.mode, MEDELEG, e.code_spec()),
    ensures
        mret_spec(exception_trap_spec(e, v)).mode == v.mode,
        mret_spec(exception_trap_spec(e, v)).pc == e.epc_spec(v.pc) & !1u64,
        bit_spec(csr_read_spec(mret_spec(exception_trap_spec(e, v)).csrs, MSTATUS), 3)
            == bit_spec(csr_read_spec(v.csrs, MSTATUS), 3),
{
    let t = exception_trap_spec(e, v);
    let m = v.csrs[MSTATUS as int];
    lemma_enter_machine_bits(m, v.mode.bits_spec());
    let epc = e.epc_spec(v.pc);
    let c3 = csr_write_spec(
        csr_write_spec(csr_write_spec(v.csrs, MEPC, epc & !1u64), MCAUSE, e.code_spec()),
        MTVAL,
        e.trap_value_spec(epc),
    );
    assert(c3[MSTATUS as int] == m);
    assert(c3[MEPC as int] == epc & !1u64);
    assert(t.csrs[MEPC as int] == epc & !1u64);
    let m3 = t.csrs[MSTATUS as int];
    assert(bits_spec(m3, 11, 13) == v.mode.bits_spec());
    let mpie = bit_spec(m3, 7);
    lemma_mret_bits(m3);
    let r = mret_spec(t);
    assert(r.csrs[MSTATUS as int] == mstatus_after_mret(m3));
}

/// `mstatus` after a write of `val` through `sstatus`.
pub open spec fn through_sstatus(m: u64, val: u64) -> u64 {
    (m & !SSTATUS_WRITE_MASK) | (val & SSTATUS_WRITE_MASK)
}

/// `v` with bit `bit` set when `b` is 1 and cleared otherwise.
pub open spec fn with_bit_u64(v: u64, bit: u64, b: bool) -> u64 {
    if b {
        v | (1u64 << bit)
    } else {
        v & !(1u64 << bit)
    }
}

/// `mstatus` after a write of bit `bit` of `sstatus`.
pub open spec fn sstatus_bit_write(m: u64, bit: u64, b: bool) -> u64 {
    through_sstatus(m, with_bit_u64(m & SSTATUS_READ_MASK, bit, b))
}

/// Whether bit `bit` of `sstatus` is set, given `mstatus`.
pub open spec fn sstatus_bit(m: u64, bit: u64) -> bool {
    (m & SSTATUS_READ_MASK) & (1u64 << bit) != 0
}

/// After entering S-mode (SPIE takes SIE, SIE cleared, SPP set to `spp`) and `sret` (SIE takes
/// SPIE, SPIE set, SPP cleared), SPP read `spp` in between and SIE is back as it was.
pub(crate) proof fn lemma_supervisor_round_trip(m: u64, spp: bool)
    ensures
        ({
            let m3 = sstatus_bit_write(
                sstatus_bit_write(sstatus_bit_write(m, 5, sstatus_bit(m, 1)), 1, false),
                8,
                spp,
            );
            let x3 = sstatus_bit_write(
                sstatus_bit_write(sstatus_bit_write(m3, 1, sstatus_bit(m3, 5)), 5, true),
                8,
                false,
            );
            &&& sstatus_bit(m3, 8) == spp
            &&& sstatus_bit(x3, 1) == sstatus_bit(m, 1)
        }),
{
    let m3 = sstatus_bit_write(
        sstatus_bit_write(sstatus_bit_write(m, 5, sstatus_bit(m, 1)), 1, false),
        8,
        spp,
    );
    assert(sstatus_bit(m3, 8) == spp) by (bit_vector)
        requires
            m3 == sstatus_bit_write(
                sstatus_bit_write(sstatus_bit_write(m, 5, sstatus_bit(m, 1)), 1, false),
                8,
                spp,
            ),
    ;
    assert(sstatus_bit(m3, 5) == sstatus_bit(m, 1)) by (bit_vector)
        requires
            m3 == sstatus_bit_write(
                sstatus_bit_write(sstatus_bit_write(m, 5, sstatus_bit(m, 1)), 1, false),
                8,
                spp,
            ),
    ;
    assert(sstatus_bit(
        sstatus_bit_write(
            sstatus_bit_write(sstatus_bit_write(m3, 1, sstatus_bit(m3, 5)), 5, true),
            8,
            false,
        ),
        1,
    ) == sstatus_bit(m3, 5)) by (bit_vector);
}

/// A trap delegated to S-mode and the `sret` that ends its handler bring the hart back where
/// it was: the privilege mode it was in (user or supervisor), the exception's program counter
/// (bit 0 cleared), and the supervisor interrupt-enable bit it had.
pub proof fn law_delegated_trap_then_sret(e: Exception, v: CpuView)
    requires
        v.csrs.len() == CSR_SIZE,
        delegated(v.csrs, v.mode, MEDELEG, e.code_spec()),
    ensures
        sret_spec(exception_trap_spec(e, v)).mode == v.mode,
        sret_spec(exception_trap_spec(e, v)).pc == e.epc_spec(v.pc) & !1u64,
        bit_spec(csr_read_spec(sret_spec(exception_trap_spec(e, v)).csrs, SSTATUS), 1)
            == bit_spec(csr_read_spec(v.csrs, SSTATUS), 1),
{
    let m = v.csrs[MSTATUS as int];
    lemma_supervisor_round_trip(m, v.mode != Mode::User);
}

/// Taking an exception trap goes to the handler of the mode that takes it: when `medeleg`
/// delegates the exception from user or supervisor mode, the hart enters S-mode at the
/// supervisor trap vector (`stvec` with bit 0 cleared), `sepc` holds the exception's program
/// counter (bit 0 cleared), `scause` its code and `stval` its trap value, and the machine trap
/// registers are kept; otherwise the hart enters M-mode at `mtvec` (bit 0 cleared) and `mepc`,
/// `mcause` and `mtval` are written likewise, and the supervisor trap registers are kept.
pub proof fn law_exception_trap_target(e: Exception, v: CpuView)
    requires
        v.csrs.len() == CSR_SIZE,
    ensures
        delegated(v.csrs, v.mode, MEDELEG, e.code_spec()) ==> {
            let w = exception_trap_spec(e, v);
            &&& w.mode == Mode::Supervisor
            &&& w.pc == csr_read_spec(v.csrs, STVEC) & !1u64
            &&& csr_read_spec(w.csrs, SEPC) == e.epc_spec(v.pc) & !1u64
            &&& csr_read_spec(w.csrs, SCAUSE) == e.code_spec()
            &&& csr_read_spec(w.csrs, STVAL) == e.trap_value_spec(e.epc_spec(v.pc))
            &&& csr_read_spec(w.csrs, MEPC) == csr_read_spec(v.csrs, MEPC)
            &&& csr_read_spec(w.csrs, MCAUSE) == csr_read_spec(v.csrs, MCAUSE)
            &&& csr_read_spec(w.csrs, MTVAL) == csr_read_spec(v.csrs, MTVAL)
        },
        !delegated(v.csrs, v.mode, MEDELEG, e.code_spec()) ==> {
            let w = exception_trap_spec(e, v);
            &&& w.mode == Mode::Machine
            &&& w.pc == csr_read_spec(v.csrs, MTVEC) & !1u64
            &&& csr_read_spec(w.csrs, MEPC) == e.epc_spec(v.pc) & !1u64
            &&& csr_read_spec(w.csrs, MCAUSE) == e.code_spec()
            &&& csr_read_spec(w.csrs, MTVAL) == e.trap_value_spec(e.epc_spec(v.pc))
            &&& csr_read_spec(w.csrs, SEPC) == csr_read_spec(v.csrs, SEPC)
            &&& csr_read_spec(w.csrs, SCAUSE) == csr_read_spec(v.csrs, SCAUSE)
            &&& csr_read_spec(w.csrs, STVAL) == csr_read_spec(v.csrs, STVAL)
        },
{
}

} // verus!
