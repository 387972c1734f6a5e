//! The interrupt module contains all the interrupt kinds and the function to handle interrupts.

use vstd::prelude::*;

use crate::cpu::{Cpu, CpuView, Mode};
use crate::csr::{
    bit_spec, csr_read_spec, csr_write_spec, BitBound, MCAUSE, MEPC, MIDELEG, MSTATUS, MTVAL,
    MTVEC, SCAUSE, SEPC, SSTATUS, STVAL, STVEC,
};
use crate::cpu::general::mret_spec;
use crate::csr::CSR_SIZE;
use crate::exception::{
    delegated, enter_machine, enter_supervisor, lemma_enter_machine_bits, lemma_mret_bits,
    mstatus_after_mret,
};

verus! {

/// The trap handler address for an interrupt with cause `cause` given the trap vector register
/// `tvec`: its base (bit 0 cleared), plus 4 × cause in vectored mode (bit 0 set).
pub open spec fn vector_address(tvec: u64, cause: u64) -> u64 {
    (tvec & !1u64).wrapping_add(
        if bit_spec(tvec, 0) == 1 {
            (4 * cause) as u64
        } else {
            0
        },
    )
}

/// The CPU after taking the trap for interrupt `i`: the hart leaves the idle state, and the
/// trap is handled in S-mode if it is delegated by `mideleg` and is not a machine timer
/// interrupt, otherwise in M-mode. The handler's mode is entered, the program counter goes to
/// the trap vector, `xepc` records the program counter with bit 0 cleared, `xcause` the
/// exception code with the interrupt bit (63) set, and `xtval` becomes 0.
pub open spec fn interrupt_trap_spec(i: Interrupt, v: CpuView) -> CpuView {
    let cause = i.code_spec();
    if delegated(v.csrs, v.mode, MIDELEG, cause) && cause != 7 {
        let c1 = csr_write_spec(v.csrs, SEPC, v.pc & !1u64);
        let c2 = csr_write_spec(c1, SCAUSE, (1u64 << 63u64) | cause);
        let c3 = csr_write_spec(c2, STVAL, 0);
        CpuView {
            idle: false,
            mode: Mode::Supervisor,
            pc: vector_address(csr_read_spec(v.csrs, STVEC), cause),
            csrs: enter_supervisor(c3, v.mode),
            ..v
        }
    } else {
        let c1 = csr_write_spec(v.csrs, MEPC, v.pc & !1u64);
        let c2 = csr_write_spec(c1, MCAUSE, (1u64 << 63u64) | cause);
        let c3 = csr_write_spec(c2, MTVAL, 0);
        CpuView {
            idle: false,
            mode: Mode::Machine,
            pc: vector_address(csr_read_spec(v.csrs, MTVEC), cause),
            csrs: enter_machine(c3, v.mode),
            ..v
        }
    }
}

/// All the interrupt kinds.
#[derive(Debug, Clone, Copy, PartialEq, Eq, Structural)]
pub enum Interrupt {
    UserSoftwareInterrupt,
    SupervisorSoftwareInterrupt,
    MachineSoftwareInterrupt,
    UserTimerInterrupt,
    SupervisorTimerInterrupt,
    MachineTimerInterrupt,
    UserExternalInterrupt,
    SupervisorExternalInterrupt,
    MachineExternalInterrupt,
}

impl Interrupt {
    /// The exception code of an interrupt (Table 3.6 of the privileged spec).
    pub open spec fn code_spec(self) -> u64 {
        match self {
            Interrupt::UserSoftwareInterrupt => 0,
            Interrupt::SupervisorSoftwareInterrupt => 1,
            Interrupt::MachineSoftwareInterrupt => 3,
            Interrupt::UserTimerInterrupt => 4,
            Interrupt::SupervisorTimerInterrupt => 5,
            Interrupt::MachineTimerInterrupt => 7,
            Interrupt::UserExternalInterrupt => 8,
            Interrupt::SupervisorExternalInterrupt => 9,
            Interrupt::MachineExternalInterrupt => 11,
        }
    }

    /// The exception code of an interrupt.
    pub fn exception_code(&self) -> (r: u64)
        ensures
            r == self.code_spec(),
    {
        match self {
            Interrupt::UserSoftwareInterrupt => 0,
            Interrupt::SupervisorSoftwareInterrupt => 1,
            Interrupt::MachineSoftwareInterrupt => 3,
            Interrupt::UserTimerInterrupt => 4,
            Interrupt::SupervisorTimerInterrupt => 5,
            Interrupt::MachineTimerInterrupt => 7,
            Interrupt::UserExternalInterrupt => 8,
            Interrupt::SupervisorExternalInterrupt => 9,
            Interrupt::MachineExternalInterrupt => 11,
        }
    }

    /// Update CSRs and the program counter depending on an interrupt.
    pub fn take_trap(&self, cpu: &mut Cpu)
        requires
            old(cpu).mode != Mode::Debug,
        ensures
            final(cpu)@ == interrupt_trap_spec(*self, old(cpu)@),
    {
        cpu.idle = false;
        let exception_pc = cpu.pc;
        let previous_mode = cpu.mode;
        let cause = self.exception_code();
        // 3.1.8 Machine Trap Delegation Registers (medeleg and mideleg): "mideleg holds trap
        // delegation bits for individual interrupts, with the layout of bits matching those in
        // the mip register". A machine timer interrupt is always taken in M-mode.
        if (previous_mode == Mode::User || previous_mode == Mode::Supervisor) && ((
        cpu.state.read(MIDELEG) >> cause) & 1) == 1 && cause
            != Interrupt::MachineTimerInterrupt.exception_code() {
            // Handle the trap in S-mode.
            cpu.mode = Mode::Supervisor;
            // The trap vector, depending on the mode in bit 0 of stvec.
            let vector = match cpu.state.read_bit(STVEC, 0) {
                1 => 4 * cause,  // vectored mode
                _ => 0,  // direct mode
            };
            cpu.pc = (cpu.state.read(STVEC) & !1).wrapping_add(vector);
            cpu.state.write(SEPC, exception_pc & !1);
            cpu.state.write(SCAUSE, 1 << 63 | cause);
            cpu.state.write(STVAL, 0);
            // Set SPIE (5) to SIE (1), then clear SIE; SPP records the previous mode.
            let sie = cpu.state.read_bit(SSTATUS, 1);
            cpu.state.write_bit(SSTATUS, 5, sie);
            cpu.state.write_bit(SSTATUS, 1, 0);
            match previous_mode {
                Mode::User => cpu.state.write_bit(SSTATUS, 8, 0),
                _ => cpu.state.write_bit(SSTATUS, 8, 1),
            }
        } else {
            // Handle the trap in M-mode.
            cpu.mode = Mode::Machine;
            let vector = match cpu.state.read_bit(MTVEC, 0) {
                1 => 4 * cause,  // vectored mode
                _ => 0,  // direct mode
            };
            cpu.pc = (cpu.state.read(MTVEC) & !1).wrapping_add(vector);
            cpu.state.write(MEPC, exception_pc & !1);
            cpu.state.write(MCAUSE, 1 << 63 | cause);
            cpu.state.write(MTVAL, 0);
            // Set MPIE (7) to MIE (3), then clear MIE; MPP records the previous mode.
            let mie = cpu.state.read_bit(MSTATUS, 3);
            cpu.state.write_bit(MSTATUS, 7, mie);
            cpu.state.write_bit(MSTATUS, 3, 0);
            cpu.state.write_bits(
                MSTATUS,
                BitBound::Included(11),
                BitBound::Included(12),
                previous_mode.to_bits(),
            );
        }
    }
}

/// An interrupt taken in M-mode and the `mret` that ends its handler bring the hart back where
/// it was: the privilege mode it was in, the interrupted program counter (bit 0 cleared), and
/// the machine interrupt-enable bit it had.
pub proof fn law_interrupt_then_mret(i: Interrupt, v: CpuView)
    requires
        v.csrs.len() == CSR_SIZE,
        v.mode != Mode::Debug,
        !(delegated(v.csrs, v.mode, MIDELEG, i.code_spec()) && i.code_spec() != 7),
    ensures
        mret_spec(interrupt_trap_spec(i, v)).mode == v.mode,
        mret_spec(interrupt_trap_spec(i, v)).pc == v.pc & !1u64,
        bit_spec(csr_read_spec(mret_spec(interrupt_trap_spec(i, v)).csrs, MSTATUS), 3)
            == bit_spec(csr_read_spec(v.csrs, MSTATUS), 3),
{
    let t = interrupt_trap_spec(i, v);
    let m = v.csrs[MSTATUS as int];
    lemma_enter_machine_bits(m, v.mode.bits_spec());
    let m3 = t.csrs[MSTATUS as int];
    lemma_mret_bits(m3);
    assert(mret_spec(t).csrs[MSTATUS as int] == mstatus_after_mret(m3));
}

/// Taking an interrupt trap records it as an interrupt: the cause register of the mode that takes
/// it (`scause` when `mideleg` delegates it from user or supervisor mode and it is not the
/// machine timer interrupt, `mcause` otherwise) holds the interrupt bit (bit 63) together with
/// the interrupt's code, the exception program counter of that mode holds the program counter
/// with bit 0 cleared, its trap value register holds 0, and the hart runs in that mode from that
/// mode's trap vector.
pub proof fn law_interrupt_trap_cause(i: Interrupt, v: CpuView)
    requires
        v.csrs.len() == CSR_SIZE,
    ensures
        delegated(v.csrs, v.mode, MIDELEG, i.code_spec()) && i.code_spec() != 7 ==> {
            let w = interrupt_trap_spec(i, v);
            &&& w.mode == Mode::Supervisor
            &&& w.pc == vector_address(csr_read_spec(v.csrs, STVEC), i.code_spec())
            &&& csr_read_spec(w.csrs, SCAUSE) == 0x8000_0000_0000_0000u64 + i.code_spec()
            &&& csr_read_spec(w.csrs, SEPC) == v.pc & !1u64
            &&& csr_read_spec(w.csrs, STVAL) == 0
            &&& csr_read_spec(w.csrs, MCAUSE) == csr_read_spec(v.csrs, MCAUSE)
        },
        !(delegated(v.csrs, v.mode, MIDELEG, i.code_spec()) && i.code_spec() != 7) ==> {
            let w = interrupt_trap_spec(i, v);
            &&& w.mode == Mode::Machine
            &&& w.pc == vector_address(csr_read_spec(v.csrs, MTVEC), i.code_spec())
            &&& csr_read_spec(w.csrs, MCAUSE) == 0x8000_0000_0000_0000u64 + i.code_spec()
            &&& csr_read_spec(w.csrs, MEPC) == v.pc & !1u64
            &&& csr_read_spec(w.csrs, MTVAL) == 0
            &&& csr_read_spec(w.csrs, SCAUSE) == csr_read_spec(v.csrs, SCAUSE)
        },
{
    let c = i.code_spec();
    assert((1u64 << 63u64) | c == 0x8000_0000_0000_0000u64 + c) by (bit_vector)
        requires
            c < 64,
    ;
}

} // verus!
