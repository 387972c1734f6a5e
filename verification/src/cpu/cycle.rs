//! One cycle of the hart: the peripheral devices tick, a pending interrupt is selected, and an
//! instruction is fetched and executed.

use vstd::prelude::*;

use crate::bus::{bus_write_spec, BusView};
use crate::cpu::access::fetch_spec;
use crate::cpu::compressed::compressed_spec;
use crate::cpu::decode::{lemma_register_fields, opcode, Executed};
use crate::cpu::compressed::{lemma_compressed_fields, quadrant0, quadrant1, quadrant2};
use crate::cpu::general::{
    dispatch_general, general_spec, step_load, step_load_fp, step_misc_mem, step_op_imm, step_op_imm32, step_store, step_store_fp, step_amo, step_op, step_op32, step_fused, step_op_fp, step_branch, step_system,
};
use crate::cpu::{Cpu, CpuView, Mode, REGISTERS_COUNT};
use crate::csr::{
    State, csr_read_spec, csr_reset_spec, csr_write_spec, MEIP_BIT, MIE, MIP, MSIP_BIT, MSTATUS,
    MTIP_BIT, SEIP_BIT, SSIP_BIT, SSTATUS, STIP_BIT, TIME,
};
use crate::devices::clint::{mip_after_tick, ClintView};
use crate::devices::plic::PLIC_SCLAIM;
use crate::devices::uart::{UartView, UART_IRQ};
use crate::devices::virtio_blk::{Virtio, VirtioView, VIRTIO_IRQ};
use crate::devices::virtqueue::disk_access_spec;
use crate::exception::Exception;
use crate::interrupt::Interrupt;
use crate::le::{HALFWORD, WORD};

verus! {

/// The CPU after one tick of the devices: the CLINT's timer counts up and raises its pending
/// bits in `mip`, and the TIME CSR counts up.
pub open spec fn tick_spec(v: CpuView) -> CpuView {
    let c = v.bus.clint;
    let mtime = c.mtime.wrapping_add(1);
    let csrs = v.csrs.update(
        MIP as int,
        mip_after_tick(v.csrs[MIP as int], c.msip, c.mtime_compare, mtime),
    );
    CpuView {
        bus: BusView { clint: ClintView { mtime, ..c }, ..v.bus },
        csrs: csrs.update(TIME as int, csrs[TIME as int].wrapping_add(1)),
        ..v
    }
}

/// Interrupts are globally enabled: in M-mode when MIE (mstatus bit 3) is set, in S-mode when
/// SIE (sstatus bit 1) is set, and always in a lower mode.
pub open spec fn interrupts_enabled(v: CpuView) -> bool {
    match v.mode {
        Mode::Machine => (csr_read_spec(v.csrs, MSTATUS) >> 3u64) & 1 != 0,
        Mode::Supervisor => (csr_read_spec(v.csrs, SSTATUS) >> 1u64) & 1 != 0,
        _ => true,
    }
}

/// The external interrupt request of the devices, with the devices' interrupting flags
/// cleared: the UART's first; otherwise the virtio disk's, whose request is carried out first
/// (its failure is the result); 0 when no device interrupts.
pub open spec fn external_irq_spec(v: CpuView) -> (CpuView, Result<u64, Exception>) {
    let b0 = BusView { uart: UartView { interrupting: false, ..v.bus.uart }, ..v.bus };
    if v.bus.uart.interrupting {
        (CpuView { bus: b0, ..v }, Ok(UART_IRQ))
    } else {
        let b1 = BusView { virtio: VirtioView { queue_notify: u32::MAX, ..b0.virtio }, ..b0 };
        if v.bus.virtio.queue_notify != u32::MAX {
            let (b2, r) = disk_access_spec(b1);
            (
                CpuView { bus: b2, ..v },
                match r {
                    Err(e) => Err(e),
                    Ok(_) => Ok(VIRTIO_IRQ),
                },
            )
        } else {
            (CpuView { bus: b1, ..v }, Ok(0))
        }
    }
}

/// `csrs` with `bit` of `mip` cleared.
pub open spec fn clear_mip(csrs: Seq<u64>, bit: u64) -> Seq<u64> {
    csr_write_spec(csrs, MIP, csr_read_spec(csrs, MIP) & !bit)
}

/// The interrupt that is taken among those pending in both `mip` and `mie`, by priority MEI,
/// MSI, MTI, SEI, SSI, STI, with its pending bit cleared; `None` when none is.
pub open spec fn take_pending(csrs: Seq<u64>) -> (Seq<u64>, Option<Interrupt>) {
    let pending = csr_read_spec(csrs, MIE) & csr_read_spec(csrs, MIP);
    if pending & MEIP_BIT != 0 {
        (clear_mip(csrs, MEIP_BIT), Some(Interrupt::MachineExternalInterrupt))
    } else if pending & MSIP_BIT != 0 {
        (clear_mip(csrs, MSIP_BIT), Some(Interrupt::MachineSoftwareInterrupt))
    } else if pending & MTIP_BIT != 0 {
        (clear_mip(csrs, MTIP_BIT), Some(Interrupt::MachineTimerInterrupt))
    } else if pending & SEIP_BIT != 0 {
        (clear_mip(csrs, SEIP_BIT), Some(Interrupt::SupervisorExternalInterrupt))
    } else if pending & SSIP_BIT != 0 {
        (clear_mip(csrs, SSIP_BIT), Some(Interrupt::SupervisorSoftwareInterrupt))
    } else if pending & STIP_BIT != 0 {
        (clear_mip(csrs, STIP_BIT), Some(Interrupt::SupervisorTimerInterrupt))
    } else {
        (csrs, None)
    }
}

/// Checking the pending interrupts. Nothing happens while interrupts are globally disabled.
/// Otherwise an external interrupt request of a device is claimed in the PLIC (context 1, the
/// supervisor's) and raises SEIP, then the interrupt to take is selected. A failing disk access
/// or claim is the result.
pub open spec fn pending_interrupt_spec(v: CpuView) -> (
    CpuView,
    Result<Option<Interrupt>, Exception>,
) {
    if !interrupts_enabled(v) {
        (v, Ok(None))
    } else {
        let (v1, r) = external_irq_spec(v);
        match r {
            Err(e) => (v1, Err(e)),
            Ok(irq) => if irq == 0 {
                let (c, i) = take_pending(v1.csrs);
                (CpuView { csrs: c, ..v1 }, Ok(i))
            } else {
                let (b2, w) = bus_write_spec(v1.bus, PLIC_SCLAIM, irq, WORD);
                match w {
                    Err(e) => (CpuView { bus: b2, ..v1 }, Err(e)),
                    Ok(_) => {
                        let c1 = csr_write_spec(
                            v1.csrs,
                            MIP,
                            csr_read_spec(v1.csrs, MIP) | SEIP_BIT,
                        );
                        let (c, i) = take_pending(c1);
                        (CpuView { bus: b2, csrs: c, ..v1 }, Ok(i))
                    },
                }
            },
        }
    }
}

/// The execution of one instruction. An idle hart (after WFI) executes nothing and gives 0. The
/// low two bits of the halfword at the program counter tell a compressed instruction (0, 1 or
/// 2) from a general one (3); a zero halfword is illegal.
pub open spec fn execute_spec(v: CpuView) -> (CpuView, Result<Executed, Exception>) {
    if v.idle {
        (v, Ok(Executed::Instruction(0)))
    } else {
        match fetch_spec(v, HALFWORD) {
            Err(e) => (v, Err(e)),
            Ok(inst16) => if inst16 & 0x3 != 3 {
                if inst16 == 0 {
                    (v, Err(Exception::IllegalInstruction(0)))
                } else {
                    compressed_spec(v)
                }
            } else {
                general_spec(v)
            },
        }
    }
}

/// Take the pending interrupt of the highest priority.
fn select_interrupt(state: &mut State) -> (r: Option<Interrupt>)
    ensures
        (final(state)@, r) == take_pending(old(state)@),
{
    // 3.1.9 Machine Interrupt Registers (mip and mie): "An interrupt i will be taken if bit i is
    // set in both mip and mie, and if interrupts are globally enabled."
    let pending = state.read(MIE) & state.read(MIP);
    let bit = if (pending & MEIP_BIT) != 0 {
        MEIP_BIT
    } else if (pending & MSIP_BIT) != 0 {
        MSIP_BIT
    } else if (pending & MTIP_BIT) != 0 {
        MTIP_BIT
    } else if (pending & SEIP_BIT) != 0 {
        SEIP_BIT
    } else if (pending & SSIP_BIT) != 0 {
        SSIP_BIT
    } else if (pending & STIP_BIT) != 0 {
        STIP_BIT
    } else {
        return None;
    };
    let mip = state.read(MIP) & !bit;
    state.write(MIP, mip);
    if bit == MEIP_BIT {
        Some(Interrupt::MachineExternalInterrupt)
    } else if bit == MSIP_BIT {
        Some(Interrupt::MachineSoftwareInterrupt)
    } else if bit == MTIP_BIT {
        Some(Interrupt::MachineTimerInterrupt)
    } else if bit == SEIP_BIT {
        Some(Interrupt::SupervisorExternalInterrupt)
    } else if bit == SSIP_BIT {
        Some(Interrupt::SupervisorSoftwareInterrupt)
    } else {
        Some(Interrupt::SupervisorTimerInterrupt)
    }
}

impl Cpu {
    /// Reset CPU states: the program counter, the privilege modes, the CSRs and the registers.
    pub fn reset(&mut self)
        ensures
            final(self)@ == (CpuView {
                pc: 0,
                mode: Mode::Machine,
                prev_mode: Mode::Machine,
                csrs: csr_reset_spec(),
                xregs: Seq::new(REGISTERS_COUNT as nat, |i: int| 0u64),
                fregs: Seq::new(REGISTERS_COUNT as nat, |i: int| 0u64),
                ..old(self)@
            }),
    {
        self.pc = 0;
        self.mode = Mode::Machine;
        self.prev_mode = Mode::Machine;
        self.state.reset();
        proof {
            self.xregs.lemma_len();
            self.fregs.lemma_len();
        }
        let mut i: usize = 0;
        while i < REGISTERS_COUNT
            invariant
                i <= REGISTERS_COUNT,
                self.xregs@.len() == REGISTERS_COUNT,
                self.fregs@.len() == REGISTERS_COUNT,
                forall|j: int| 0 <= j < i ==> self.xregs@[j] == 0 && self.fregs@[j] == 0,
                self@ == (CpuView {
                    pc: 0,
                    mode: Mode::Machine,
                    prev_mode: Mode::Machine,
                    csrs: csr_reset_spec(),
                    xregs: self@.xregs,
                    fregs: self@.fregs,
                    ..old(self)@
                }),
            decreases REGISTERS_COUNT - i,
        {
            self.xregs.zero_is_zero();
            self.xregs.write(i as u64, 0);
            self.fregs.write(i as u64, 0);
            i = i + 1;
        }
        assert(self.xregs@ =~= Seq::new(REGISTERS_COUNT as nat, |i: int| 0u64));
        assert(self.fregs@ =~= Seq::new(REGISTERS_COUNT as nat, |i: int| 0u64));
    }

    /// Execute a cycle on peripheral devices.
    pub fn devices_increment(&mut self)
        ensures
            final(self)@ == tick_spec(old(self)@),
    {
        // Increment the timer register (mtimer) in Clint.
        self.bus.clint.increment(&mut self.state);
        // Increment the value in the TIME and CYCLE registers in CSR.
        self.state.increment_time();
    }

    /// Check interrupt flags for all devices that can interrupt, and select the interrupt to
    /// take. An error is a failure of the disk access the virtio device asked for.
    pub fn check_pending_interrupt(&mut self) -> (r: Result<Option<Interrupt>, Exception>)
        ensures
            (final(self)@, r) == pending_interrupt_spec(old(self)@),
    {
        // 3.1.6.1 Privilege and Global Interrupt-Enable Stack in mstatus register
        // "When a hart is executing in privilege mode x, interrupts are globally enabled when
        // xIE=1 and globally disabled when xIE=0."
        match self.mode {
            Mode::Machine => {
                // Check if the MIE bit is enabled.
                if (self.state.read(MSTATUS) >> 3) & 1 == 0 {
                    return Ok(None);
                }
            },
            Mode::Supervisor => {
                // Check if the SIE bit is enabled.
                if (self.state.read(SSTATUS) >> 1) & 1 == 0 {
                    return Ok(None);
                }
            },
            _ => {},
        }
        let irq = self.external_irq()?;
        if irq != 0 {
            // The hart is 0, and the interrupt is claimed for the supervisor.
            self.bus.write(PLIC_SCLAIM, irq, WORD)?;
            let mip = self.state.read(MIP) | SEIP_BIT;
            self.state.write(MIP, mip);
        }
        Ok(select_interrupt(&mut self.state))
    }

    /// The external interrupt request of the devices: the UART's, or the virtio disk's once
    /// the disk access it asks for is done, or 0.
    fn external_irq(&mut self) -> (r: Result<u64, Exception>)
        ensures
            (final(self)@, r) == external_irq_spec(old(self)@),
    {
        if self.bus.uart.is_interrupting() {
            Ok(UART_IRQ)
        } else if self.bus.virtio.is_interrupting() {
            // An interrupt is raised after a disk access is done.
            Virtio::disk_access(self)?;
            Ok(VIRTIO_IRQ)
        } else {
            Ok(0)
        }
    }

    /// Execute an instruction. Raises an exception if something is wrong, otherwise, returns
    /// the instruction executed in this cycle.
    pub fn execute(&mut self) -> (r: Result<Executed, Exception>)
        ensures
            (final(self)@, r) == execute_spec(old(self)@),
    {
        // WFI is called and pending interrupts don't exist.
        if self.idle {
            return Ok(Executed::Instruction(0));
        }
        // Fetch.
        let inst16 = self.fetch(HALFWORD)?;
        if inst16 & 0x3 != 3 {
            if inst16 == 0 {
                // Unimplemented instruction, since all bits are 0.
                return Err(Exception::IllegalInstruction(0));
            }
            self.execute_compressed()
        } else {
            self.execute_general()
        }
    }
}

/// The integer registers are 32 and x0 holds 0.
pub open spec fn x0_ok(v: CpuView) -> bool {
    v.xregs.len() == REGISTERS_COUNT && v.xregs[0] == 0
}

proof fn lemma_step_load_x0(v: CpuView, inst: u64)
    requires
        x0_ok(v),
    ensures
        x0_ok(step_load(v, inst).0),
{
    lemma_register_fields(inst);
}

proof fn lemma_step_load_fp_x0(v: CpuView, inst: u64)
    requires
        x0_ok(v),
    ensures
        x0_ok(step_load_fp(v, inst).0),
{
    lemma_register_fields(inst);
}

proof fn lemma_step_misc_mem_x0(v: CpuView, inst: u64)
    requires
        x0_ok(v),
    ensures
        x0_ok(step_misc_mem(v, inst).0),
{
    lemma_register_fields(inst);
}

proof fn lemma_step_op_imm_x0(v: CpuView, inst: u64)
    requires
        x0_ok(v),
    ensures
        x0_ok(step_op_imm(v, inst).0),
{
    lemma_register_fields(inst);
}

proof fn lemma_step_op_imm32_x0(v: CpuView, inst: u64)
    requires
        x0_ok(v),
    ensures
        x0_ok(step_op_imm32(v, inst).0),
{
    lemma_register_fields(inst);
}

proof fn lemma_step_store_x0(v: CpuView, inst: u64)
    requires
        x0_ok(v),
    ensures
        x0_ok(step_store(v, inst).0),
{
    lemma_register_fields(inst);
}

proof fn lemma_step_store_fp_x0(v: CpuView, inst: u64)
    requires
        x0_ok(v),
    ensures
        x0_ok(step_store_fp(v, inst).0),
{
    lemma_register_fields(inst);
}

proof fn lemma_step_amo_x0(v: CpuView, inst: u64)
    requires
        x0_ok(v),
    ensures
        x0_ok(step_amo(v, inst).0),
{
    lemma_register_fields(inst);
}

proof fn lemma_step_op_x0(v: CpuView, inst: u64)
    requires
        x0_ok(v),
    ensures
        x0_ok(step_op(v, inst).0),
{
    lemma_register_fields(inst);
}

proof fn lemma_step_op32_x0(v: CpuView, inst: u64)
    requires
        x0_ok(v),
    ensures
        x0_ok(step_op32(v, inst).0),
{
    lemma_register_fields(inst);
}

proof fn lemma_step_fused_x0(v: CpuView, inst: u64)
    requires
        x0_ok(v),
    ensures
        x0_ok(step_fused(v, inst).0),
{
    lemma_register_fields(inst);
}

proof fn lemma_step_op_fp_x0(v: CpuView, inst: u64)
    requires
        x0_ok(v),
    ensures
        x0_ok(step_op_fp(v, inst).0),
{
    lemma_register_fields(inst);
}

proof fn lemma_step_branch_x0(v: CpuView, inst: u64)
    requires
        x0_ok(v),
    ensures
        x0_ok(step_branch(v, inst).0),
{
    lemma_register_fields(inst);
}

proof fn lemma_step_system_x0(v: CpuView, inst: u64)
    requires
        x0_ok(v),
    ensures
        x0_ok(step_system(v, inst).0),
{
    lemma_register_fields(inst);
}

proof fn lemma_quadrant0_x0(v: CpuView, inst: u64)
    requires
        x0_ok(v),
    ensures
        x0_ok(quadrant0(v, inst).0),
{
    lemma_compressed_fields(inst);
}

proof fn lemma_quadrant1_x0(v: CpuView, inst: u64)
    requires
        x0_ok(v),
    ensures
        x0_ok(quadrant1(v, inst).0),
{
    lemma_compressed_fields(inst);
}

proof fn lemma_quadrant2_x0(v: CpuView, inst: u64)
    requires
        x0_ok(v),
    ensures
        x0_ok(quadrant2(v, inst).0),
{
    lemma_compressed_fields(inst);
}

proof fn lemma_dispatch_x0(v: CpuView, inst: u64)
    requires
        x0_ok(v),
    ensures
        x0_ok(dispatch_general(v, inst).0),
{
    lemma_register_fields(inst);
    let op = opcode(inst);
    if op == 0x03 {
        lemma_step_load_x0(v, inst);
    } else if op == 0x07 {
        lemma_step_load_fp_x0(v, inst);
    } else if op == 0x0f {
        lemma_step_misc_mem_x0(v, inst);
    } else if op == 0x13 {
        lemma_step_op_imm_x0(v, inst);
    } else if op == 0x1b {
        lemma_step_op_imm32_x0(v, inst);
    } else if op == 0x23 {
        lemma_step_store_x0(v, inst);
    } else if op == 0x27 {
        lemma_step_store_fp_x0(v, inst);
    } else if op == 0x2f {
        lemma_step_amo_x0(v, inst);
    } else if op == 0x33 {
        lemma_step_op_x0(v, inst);
    } else if op == 0x3b {
        lemma_step_op32_x0(v, inst);
    } else if op == 0x43 || op == 0x47 || op == 0x4b || op == 0x4f {
        lemma_step_fused_x0(v, inst);
    } else if op == 0x53 {
        lemma_step_op_fp_x0(v, inst);
    } else if op == 0x63 {
        lemma_step_branch_x0(v, inst);
    } else if op == 0x73 {
        lemma_step_system_x0(v, inst);
    }
}

/// Register x0 is hardwired with all bits equal to 0: no instruction changes it, and there stay
/// 32 integer registers.
pub proof fn law_x0_stays_zero(v: CpuView)
    requires
        x0_ok(v),
    ensures
        x0_ok(execute_spec(v).0),
{
    let v2 = CpuView { pc: v.pc.wrapping_add(2), ..v };
    let v4 = CpuView { pc: v.pc.wrapping_add(4), ..v };
    match fetch_spec(v, HALFWORD) {
        Ok(inst16) => {
            lemma_quadrant0_x0(v2, inst16);
            lemma_quadrant1_x0(v2, inst16);
            lemma_quadrant2_x0(v2, inst16);
        },
        Err(_) => {},
    }
    match fetch_spec(v, WORD) {
        Ok(inst) => lemma_dispatch_x0(v4, inst),
        Err(_) => {},
    }
}

/// Each tick of the devices counts TIME up by one and makes the machine timer interrupt pending
/// exactly when the timer has reached its compare value.
pub proof fn law_tick(v: CpuView)
    requires
        v.csrs.len() == crate::csr::CSR_SIZE,
    ensures
        tick_spec(v).csrs[TIME as int] == v.csrs[TIME as int].wrapping_add(1),
        tick_spec(v).bus.clint.mtime == v.bus.clint.mtime.wrapping_add(1),
        (tick_spec(v).csrs[MIP as int] & MTIP_BIT != 0) == (v.bus.clint.mtime_compare
            <= v.bus.clint.mtime.wrapping_add(1)),
{
    let a = if v.bus.clint.msip & 1 != 0 {
        v.csrs[MIP as int] | MSIP_BIT
    } else {
        v.csrs[MIP as int]
    };
    assert((a | MTIP_BIT) & MTIP_BIT != 0) by (bit_vector);
    assert((a & !MTIP_BIT) & MTIP_BIT == 0) by (bit_vector);
}

} // verus!
