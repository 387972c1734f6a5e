//! The execution of 32-bit (general-purpose) instructions: RV64I, RV64M, RV64A, the bit moves of
//! RV64F and RV64D, Zifencei, Zicsr and the privileged instructions.

use vstd::prelude::*;

use crate::cpu::access::{cpu_bus_after_read, cpu_read_spec, cpu_write_spec, fetch_spec, remove_all};
use crate::cpu::alu::{
    amo, amo_spec, branch, branch_spec, extend_load, load_extend, load_size, load_size_of, op,
    op32, op32_divides_by_zero, op32_spec, op_divides_by_zero, op_imm, op_imm32, op_imm32_spec,
    op_imm_spec, op_spec, sext32, store_size, store_size_of,
};
use crate::cpu::decode::{
    csr_field, decode_fused, decode_op_fp, fields, funct3, funct7, fused_op, imm_b, imm_b_of,
    imm_i, imm_i_of, imm_j, imm_j_of, imm_s, imm_s_of, imm_u, imm_u_of, op_fp_op, opcode, rd, rs1,
    rs2, rs3, Executed, FpInstruction, FpOp,
};
use crate::cpu::{xwrite, Cpu, CpuView, Mode, PAGE_SIZE};
use crate::csr::{
    bit_spec, bits_spec, csr_read_spec, csr_write_spec, write_bit_spec, write_bits_spec, BitBound,
    FCSR, MEPC, MSTATUS, SATP, SEPC, SSTATUS,
};
use crate::exception::Exception;
use crate::le::{DOUBLEWORD, WORD};

verus! {

/// The successful execution of `inst`.
pub open spec fn retired(inst: u64) -> Result<Executed, Exception> {
    Ok(Executed::Instruction(inst))
}

/// The illegal instruction exception for `inst`.
pub open spec fn illegal(inst: u64) -> Result<Executed, Exception> {
    Err(Exception::IllegalInstruction(inst))
}

/// The floating-point instruction `inst` with operation `op`, left to the host.
pub open spec fn fp_instruction(op: FpOp, inst: u64, data: u64) -> FpInstruction {
    FpInstruction { op, rd: rd(inst), rs1: rs1(inst), rs2: rs2(inst), rs3: rs3(inst), data }
}

/// The value of integer register `i`.
pub open spec fn x(v: CpuView, i: u64) -> u64 {
    v.xregs[i as int]
}

/// The value of floating-point register `i`.
pub open spec fn f(v: CpuView, i: u64) -> u64 {
    v.fregs[i as int]
}

/// `v` after writing `value` to integer register `i`.
pub open spec fn set_x(v: CpuView, i: u64, value: u64) -> CpuView {
    CpuView { xregs: xwrite(v.xregs, i, value), ..v }
}

/// `v` after a `size`-bit load from `addr` whose result goes to integer register rd, extended as
/// `extend` says.
pub open spec fn load_into_x(v: CpuView, inst: u64, addr: u64, size: u8) -> (
    CpuView,
    Result<u64, Exception>,
) {
    let v1 = CpuView { bus: cpu_bus_after_read(v, addr, size), ..v };
    (v1, cpu_read_spec(v, addr, size))
}

/// LOAD (opcode 0x03): lb, lh, lw, ld, lbu, lhu and lwu from x[rs1] plus the I-immediate.
pub open spec fn step_load(v: CpuView, inst: u64) -> (CpuView, Result<Executed, Exception>) {
    let addr = x(v, rs1(inst)).wrapping_add(imm_i(inst));
    match load_size(funct3(inst)) {
        None => (v, illegal(inst)),
        Some(size) => {
            let (v1, r) = load_into_x(v, inst, addr, size);
            match r {
                Err(e) => (v1, Err(e)),
                Ok(val) => (set_x(v1, rd(inst), load_extend(funct3(inst), val)), retired(inst)),
            }
        },
    }
}

/// LOAD-FP (opcode 0x07): flw hands the loaded word to the host; fld moves the loaded
/// doubleword to f[rd] bit for bit.
pub open spec fn step_load_fp(v: CpuView, inst: u64) -> (CpuView, Result<Executed, Exception>) {
    let addr = x(v, rs1(inst)).wrapping_add(imm_i(inst));
    if funct3(inst) == 2 {
        let (v1, r) = load_into_x(v, inst, addr, WORD);
        match r {
            Err(e) => (v1, Err(e)),
            Ok(val) => (v1, Ok(Executed::Float(fp_instruction(FpOp::Flw, inst, val)))),
        }
    } else if funct3(inst) == 3 {
        let (v1, r) = load_into_x(v, inst, addr, DOUBLEWORD);
        match r {
            Err(e) => (v1, Err(e)),
            Ok(val) => (
                CpuView { fregs: v1.fregs.update(rd(inst) as int, val), ..v1 },
                retired(inst),
            ),
        }
    } else {
        (v, illegal(inst))
    }
}

/// MISC-MEM (opcode 0x0f): fence and fence.i do nothing, as instructions execute one at a time.
pub open spec fn step_misc_mem(v: CpuView, inst: u64) -> (CpuView, Result<Executed, Exception>) {
    if funct3(inst) == 0 || funct3(inst) == 1 {
        (v, retired(inst))
    } else {
        (v, illegal(inst))
    }
}

/// OP-IMM (opcode 0x13).
pub open spec fn step_op_imm(v: CpuView, inst: u64) -> (CpuView, Result<Executed, Exception>) {
    let shamt = (inst >> 20u64) & 0x3f;
    match op_imm_spec(funct3(inst), funct7(inst) >> 1u64, imm_i(inst), shamt, x(v, rs1(inst))) {
        None => (v, illegal(inst)),
        Some(val) => (set_x(v, rd(inst), val), retired(inst)),
    }
}

/// OP-IMM-32 (opcode 0x1b).
pub open spec fn step_op_imm32(v: CpuView, inst: u64) -> (CpuView, Result<Executed, Exception>) {
    match op_imm32_spec(funct3(inst), funct7(inst), imm_i(inst), x(v, rs1(inst))) {
        None => (v, illegal(inst)),
        Some(val) => (set_x(v, rd(inst), val), retired(inst)),
    }
}

/// `v` after `val` went to bit 3 (DZ, divide by zero) of `fcsr`.
pub open spec fn set_dz(v: CpuView) -> CpuView {
    CpuView { csrs: write_bit_spec(v.csrs, FCSR, 3, 1), ..v }
}

/// OP (opcode 0x33). A division by zero sets the DZ flag of `fcsr`.
pub open spec fn step_op(v: CpuView, inst: u64) -> (CpuView, Result<Executed, Exception>) {
    let a = x(v, rs1(inst));
    let b = x(v, rs2(inst));
    match op_spec(funct3(inst), funct7(inst), a, b) {
        None => (v, illegal(inst)),
        Some(val) => {
            let v1 = if op_divides_by_zero(funct3(inst), funct7(inst), b) {
                set_dz(v)
            } else {
                v
            };
            (set_x(v1, rd(inst), val), retired(inst))
        },
    }
}

/// OP-32 (opcode 0x3b). A division by zero sets the DZ flag of `fcsr`.
pub open spec fn step_op32(v: CpuView, inst: u64) -> (CpuView, Result<Executed, Exception>) {
    let a = x(v, rs1(inst));
    let b = x(v, rs2(inst));
    match op32_spec(funct3(inst), funct7(inst), a, b) {
        None => (v, illegal(inst)),
        Some(val) => {
            let v1 = if op32_divides_by_zero(funct3(inst), funct7(inst), b) {
                set_dz(v)
            } else {
                v
            };
            (set_x(v1, rd(inst), val), retired(inst))
        },
    }
}

/// `v` with the result of a store.
pub open spec fn after_store(r: (CpuView, Result<(), Exception>), inst: u64) -> (
    CpuView,
    Result<Executed, Exception>,
) {
    match r.1 {
        Err(e) => (r.0, Err(e)),
        Ok(_) => (r.0, retired(inst)),
    }
}

/// STORE (opcode 0x23): sb, sh, sw and sd of x[rs2] to x[rs1] plus the S-immediate.
pub open spec fn step_store(v: CpuView, inst: u64) -> (CpuView, Result<Executed, Exception>) {
    let addr = x(v, rs1(inst)).wrapping_add(imm_s(inst));
    match store_size(funct3(inst)) {
        None => (v, illegal(inst)),
        Some(size) => after_store(cpu_write_spec(v, addr, x(v, rs2(inst)), size), inst),
    }
}

/// The offset of fsw and fsd: inst[31:25|11:7], not sign-extended.
pub open spec fn fp_store_offset(inst: u64) -> u64 {
    ((((inst as i32) as i64 >> 20u64) as u64) & 0xfe0) | ((inst >> 7u64) & 0x1f)
}

/// STORE-FP (opcode 0x27): fsw is left to the host with its address; fsd stores f[rs2] bit for
/// bit.
pub open spec fn step_store_fp(v: CpuView, inst: u64) -> (CpuView, Result<Executed, Exception>) {
    let addr = x(v, rs1(inst)).wrapping_add(fp_store_offset(inst));
    if funct3(inst) == 2 {
        (v, Ok(Executed::Float(fp_instruction(FpOp::Fsw, inst, addr))))
    } else if funct3(inst) == 3 {
        after_store(cpu_write_spec(v, addr, f(v, rs2(inst)), DOUBLEWORD), inst)
    } else {
        (v, illegal(inst))
    }
}

/// The funct5 field of an atomic instruction, inst[31:27].
pub open spec fn funct5(inst: u64) -> u64 {
    (funct7(inst) & 0x7c) >> 2u64
}

/// `addr` is naturally aligned for an access with the given funct3 (2 for words, 3 for
/// doublewords).
pub open spec fn amo_aligned(funct3: u64, addr: u64) -> bool {
    if funct3 == 2 {
        addr % 4 == 0
    } else {
        addr % 8 == 0
    }
}

/// The register value of a word (funct3 2) or a doubleword loaded by an atomic instruction.
pub open spec fn amo_extend(funct3: u64, t: u64) -> u64 {
    if funct3 == 2 {
        sext32(t)
    } else {
        t
    }
}

/// The access size of an atomic instruction with the given funct3.
pub open spec fn amo_size(funct3: u64) -> u8 {
    if funct3 == 2 {
        WORD
    } else {
        DOUBLEWORD
    }
}

/// AMO (opcode 0x2f), at the address in rs1, which must be naturally aligned: lr.w/lr.d load and
/// register a reservation; sc.w/sc.d store only if the address is reserved, drop the
/// reservation either way and write 0 (success) or 1 to rd; the other AMOs load the old value,
/// store the combination of it with rs2, and write the old value to rd.
pub open spec fn step_amo(v: CpuView, inst: u64) -> (CpuView, Result<Executed, Exception>) {
    let f3 = funct3(inst);
    let f5 = funct5(inst);
    let addr = x(v, rs1(inst));
    let b = x(v, rs2(inst));
    let size = amo_size(f3);
    if f3 != 2 && f3 != 3 {
        (v, illegal(inst))
    } else if f5 == 0x02 {
        // lr.w, lr.d
        if !amo_aligned(f3, addr) {
            (v, Err(Exception::LoadAddressMisaligned))
        } else {
            let (v1, r) = load_into_x(v, inst, addr, size);
            match r {
                Err(e) => (v1, Err(e)),
                Ok(val) => (
                    CpuView { reservations: v1.reservations.push(addr), ..set_x(v1, rd(inst), amo_extend(f3, val)) },
                    retired(inst),
                ),
            }
        }
    } else if f5 == 0x03 {
        // sc.w, sc.d
        if !amo_aligned(f3, addr) {
            (v, Err(Exception::StoreAMOAddressMisaligned))
        } else {
            let v1 = CpuView { reservations: remove_all(v.reservations, addr), ..v };
            if v.reservations.contains(addr) {
                let (v2, r) = cpu_write_spec(v1, addr, b, size);
                match r {
                    Err(e) => (v2, Err(e)),
                    Ok(_) => (set_x(v2, rd(inst), 0), retired(inst)),
                }
            } else {
                (set_x(v1, rd(inst), 1), retired(inst))
            }
        }
    } else if amo_spec(f3, f5, 0, 0) is None {
        (v, illegal(inst))
    } else if !amo_aligned(f3, addr) {
        (v, Err(Exception::LoadAddressMisaligned))
    } else {
        let (v1, r) = load_into_x(v, inst, addr, size);
        match r {
            Err(e) => (v1, Err(e)),
            Ok(t) => {
                let (v2, w) = cpu_write_spec(v1, addr, amo_spec(f3, f5, t, b).unwrap(), size);
                match w {
                    Err(e) => (v2, Err(e)),
                    Ok(_) => (set_x(v2, rd(inst), amo_extend(f3, t)), retired(inst)),
                }
            },
        }
    }
}

/// The rounding mode field of `fcsr` holds a valid mode (everything but 0b101 and 0b110).
pub open spec fn frm_valid(csrs: Seq<u64>) -> bool {
    let frm = bits_spec(csr_read_spec(csrs, FCSR), 5, 8);
    frm == 0 || frm == 1 || frm == 2 || frm == 3 || frm == 4 || frm == 7
}

/// fsgnjx.d on bit patterns: the magnitude of `a` with the sign of `a` xor the sign of `b`.
pub open spec fn fsgnjx_d(a: u64, b: u64) -> u64 {
    ((a & 0x80000000_00000000) ^ (b & 0x80000000_00000000)) | (a & 0x7fffffff_ffffffff)
}

/// OP-FP (opcode 0x53). An invalid rounding mode in `fcsr` makes every such instruction
/// illegal. fsgnjx.d, fmv.x.w, fmv.x.d and fmv.d.x move bits and are done here; the other
/// operations are left to the host.
pub open spec fn step_op_fp(v: CpuView, inst: u64) -> (CpuView, Result<Executed, Exception>) {
    let f7 = funct7(inst);
    let f3 = funct3(inst);
    if !frm_valid(v.csrs) {
        (v, illegal(inst))
    } else if f7 == 0x11 && f3 == 2 {
        (
            CpuView {
                fregs: v.fregs.update(rd(inst) as int, fsgnjx_d(f(v, rs1(inst)), f(v, rs2(inst)))),
                ..v
            },
            retired(inst),
        )
    } else if f7 == 0x70 && f3 == 0 {
        // fmv.x.w: "The bits are not modified in the transfer"
        (set_x(v, rd(inst), sext32(f(v, rs1(inst)))), retired(inst))
    } else if f7 == 0x71 && f3 == 0 {
        // fmv.x.d
        (set_x(v, rd(inst), f(v, rs1(inst))), retired(inst))
    } else if f7 == 0x79 {
        // fmv.d.x
        (CpuView { fregs: v.fregs.update(rd(inst) as int, x(v, rs1(inst))), ..v }, retired(inst))
    } else {
        match op_fp_op(f7, f3, rs2(inst)) {
            None => (v, illegal(inst)),
            Some(op) => (v, Ok(Executed::Float(fp_instruction(op, inst, 0)))),
        }
    }
}

/// The fused multiply-adds (opcodes 0x43, 0x47, 0x4b and 0x4f), left to the host.
pub open spec fn step_fused(v: CpuView, inst: u64) -> (CpuView, Result<Executed, Exception>) {
    match fused_op(opcode(inst), (inst & 0x03000000) >> 25u64) {
        None => (v, illegal(inst)),
        Some(op) => (v, Ok(Executed::Float(fp_instruction(op, inst, 0)))),
    }
}

/// BRANCH (opcode 0x63): a taken branch goes to the address of the branch plus the
/// B-immediate (the program counter already points past the branch).
pub open spec fn step_branch(v: CpuView, inst: u64) -> (CpuView, Result<Executed, Exception>) {
    match branch_spec(funct3(inst), x(v, rs1(inst)), x(v, rs2(inst))) {
        None => (v, illegal(inst)),
        Some(taken) => if taken {
            (CpuView { pc: v.pc.wrapping_add(imm_b(inst)).wrapping_sub(4), ..v }, retired(inst))
        } else {
            (v, retired(inst))
        },
    }
}

/// The target of jalr: x[rs1] plus the I-immediate, with the lowest bit cleared.
pub open spec fn jalr_target(base: u64, inst: u64) -> u64 {
    (((base as i64).wrapping_add(((inst as i32) as i64) >> 20u64)) & !1i64) as u64
}

/// `v` after the privileged return instruction sret: back to the address in `sepc` and to the
/// privilege mode in SPP; SIE takes the value of SPIE, SPIE becomes 1 and SPP 0.
pub open spec fn sret_spec(v: CpuView) -> CpuView {
    let c0 = v.csrs;
    let mode = if bit_spec(csr_read_spec(c0, SSTATUS), 8) == 0 {
        Mode::User
    } else {
        Mode::Supervisor
    };
    let c1 = write_bit_spec(c0, SSTATUS, 1, bit_spec(csr_read_spec(c0, SSTATUS), 5));
    let c2 = write_bit_spec(c1, SSTATUS, 5, 1);
    let c3 = write_bit_spec(c2, SSTATUS, 8, 0);
    CpuView { pc: csr_read_spec(c0, SEPC), mode, csrs: c3, ..v }
}

/// `v` after the privileged return instruction mret: back to the address in `mepc` and to the
/// privilege mode in MPP; MIE takes the value of MPIE, MPIE becomes 1 and MPP 0 (user).
pub open spec fn mret_spec(v: CpuView) -> CpuView {
    let c0 = v.csrs;
    let mode = Mode::from_mpp_spec(bits_spec(csr_read_spec(c0, MSTATUS), 11, 13));
    let c1 = write_bit_spec(c0, MSTATUS, 3, bit_spec(csr_read_spec(c0, MSTATUS), 7));
    let c2 = write_bit_spec(c1, MSTATUS, 7, 1);
    let c3 = write_bits_spec(c2, MSTATUS, 11, 13, 0);
    CpuView { pc: csr_read_spec(c0, MEPC), mode, csrs: c3, ..v }
}

/// `v` after the translation settings were read from `satp`: the root page table is its PPN
/// field times the page size, and Sv39 paging is on when its MODE field is 8.
pub open spec fn update_paging_spec(v: CpuView) -> CpuView {
    let satp = csr_read_spec(v.csrs, SATP);
    CpuView {
        page_table: (bits_spec(satp, 0, 44) * PAGE_SIZE) as u64,
        enable_paging: bits_spec(satp, 60, 64) == 8,
        ..v
    }
}

/// The new value of a CSR for the Zicsr instruction with funct3 `f3`, given its old value `t`
/// and the operand `s` (x[rs1] or the immediate in the rs1 field).
pub open spec fn csr_new_value(f3: u64, t: u64, s: u64) -> u64 {
    if f3 == 1 || f3 == 5 {
        s
    } else if f3 == 2 || f3 == 6 {
        t | s
    } else {
        t & !s
    }
}

/// SYSTEM (opcode 0x73): ecall, ebreak, sret, mret, wfi, the fences (which do nothing) and the
/// Zicsr instructions. A CSR instruction that writes `satp` updates the translation settings.
pub open spec fn step_system(v: CpuView, inst: u64) -> (CpuView, Result<Executed, Exception>) {
    let f3 = funct3(inst);
    let f7 = funct7(inst);
    let r2 = rs2(inst);
    if f3 == 0 {
        if r2 == 0 && f7 == 0 {
            // ecall
            match v.mode {
                Mode::User => (v, Err(Exception::EnvironmentCallFromUMode)),
                Mode::Supervisor => (v, Err(Exception::EnvironmentCallFromSMode)),
                Mode::Machine => (v, Err(Exception::EnvironmentCallFromMMode)),
                Mode::Debug => (v, illegal(inst)),
            }
        } else if r2 == 1 && f7 == 0 {
            // ebreak
            (v, Err(Exception::Breakpoint))
        } else if r2 == 2 && f7 == 0x8 {
            (sret_spec(v), retired(inst))
        } else if r2 == 2 && f7 == 0x18 {
            (mret_spec(v), retired(inst))
        } else if r2 == 5 && f7 == 0x8 {
            // wfi
            (CpuView { idle: true, ..v }, retired(inst))
        } else if f7 == 0x9 || f7 == 0x11 || f7 == 0x51 {
            // sfence.vma, hfence.bvma, hfence.gvma
            (v, retired(inst))
        } else {
            (v, illegal(inst))
        }
    } else if f3 == 4 {
        (v, illegal(inst))
    } else {
        let addr = csr_field(inst) as u16;
        let t = csr_read_spec(v.csrs, addr);
        let s = if f3 <= 3 {
            x(v, rs1(inst))
        } else {
            rs1(inst)
        };
        let v1 = CpuView { csrs: csr_write_spec(v.csrs, addr, csr_new_value(f3, t, s)), ..v };
        let v2 = set_x(v1, rd(inst), t);
        (if addr == SATP { update_paging_spec(v2) } else { v2 }, retired(inst))
    }
}

/// The execution of the 32-bit instruction `inst`, with the program counter already moved past
/// it.
pub open spec fn dispatch_general(v: CpuView, inst: u64) -> (CpuView, Result<Executed, Exception>) {
    let op = opcode(inst);
    if op == 0x03 {
        step_load(v, inst)
    } else if op == 0x07 {
        step_load_fp(v, inst)
    } else if op == 0x0f {
        step_misc_mem(v, inst)
    } else if op == 0x13 {
        step_op_imm(v, inst)
    } else if op == 0x17 {
        // auipc
        (set_x(v, rd(inst), v.pc.wrapping_add(imm_u(inst)).wrapping_sub(4)), retired(inst))
    } else if op == 0x1b {
        step_op_imm32(v, inst)
    } else if op == 0x23 {
        step_store(v, inst)
    } else if op == 0x27 {
        step_store_fp(v, inst)
    } else if op == 0x2f {
        step_amo(v, inst)
    } else if op == 0x33 {
        step_op(v, inst)
    } else if op == 0x37 {
        // lui
        (set_x(v, rd(inst), imm_u(inst)), retired(inst))
    } else if op == 0x3b {
        step_op32(v, inst)
    } else if op == 0x43 || op == 0x47 || op == 0x4b || op == 0x4f {
        step_fused(v, inst)
    } else if op == 0x53 {
        step_op_fp(v, inst)
    } else if op == 0x63 {
        step_branch(v, inst)
    } else if op == 0x67 {
        // jalr
        (
            CpuView { pc: jalr_target(x(v, rs1(inst)), inst), ..set_x(v, rd(inst), v.pc) },
            retired(inst),
        )
    } else if op == 0x6f {
        // jal
        (
            CpuView { pc: v.pc.wrapping_add(imm_j(inst)).wrapping_sub(4), ..set_x(v, rd(inst), v.pc) },
            retired(inst),
        )
    } else if op == 0x73 {
        step_system(v, inst)
    } else {
        (v, illegal(inst))
    }
}

/// The execution of a general-purpose instruction: the 32-bit instruction at the program counter
/// is fetched, the program counter moves past it by 4 bytes, and the instruction is executed.
pub open spec fn general_spec(v: CpuView) -> (CpuView, Result<Executed, Exception>) {
    match fetch_spec(v, WORD) {
        Err(e) => (v, Err(e)),
        Ok(inst) => dispatch_general(CpuView { pc: v.pc.wrapping_add(4), ..v }, inst),
    }
}

impl Cpu {
    /// Execute a general-purpose instruction. Raises an exception if something is wrong,
    /// otherwise, returns a fetched instruction. It also increments the program counter by 4
    /// bytes.
    pub fn execute_general(&mut self) -> (r: Result<Executed, Exception>)
        ensures
            (final(self)@, r) == general_spec(old(self)@),
    {
        // 1. Fetch.
        let inst = self.fetch(WORD)?;
        // Add 4 bytes to the program counter.
        self.pc = self.pc.wrapping_add(4);
        // 2. Decode and 3. Execute.
        let op = inst & 0x0000007f;
        if op == 0x03 {
            self.exec_load(inst)
        } else if op == 0x07 {
            self.exec_load_fp(inst)
        } else if op == 0x0f {
            // fence and fence.i: instructions execute one at a time, on a single thread.
            let f3 = (inst & 0x00007000) >> 12;
            if f3 == 0 || f3 == 1 {
                Ok(Executed::Instruction(inst))
            } else {
                Err(Exception::IllegalInstruction(inst))
            }
        } else if op == 0x13 {
            self.exec_op_imm(inst)
        } else if op == 0x17 {
            // auipc: AUIPC forms a 32-bit offset from the 20-bit U-immediate, filling in the
            // lowest 12 bits with zeros, and adds it to the address of the instruction.
            let fl = fields(inst);
            let imm = imm_u_of(inst);
            self.xregs.write(fl.rd, self.pc.wrapping_add(imm).wrapping_sub(4));
            Ok(Executed::Instruction(inst))
        } else if op == 0x1b {
            self.exec_op_imm32(inst)
        } else if op == 0x23 {
            self.exec_store(inst)
        } else if op == 0x27 {
            self.exec_store_fp(inst)
        } else if op == 0x2f {
            self.exec_amo(inst)
        } else if op == 0x33 {
            self.exec_op(inst)
        } else if op == 0x37 {
            // lui: "LUI places the U-immediate value in the top 20 bits of the destination
            // register rd, filling in the lowest 12 bits with zeros."
            let fl = fields(inst);
            self.xregs.write(fl.rd, imm_u_of(inst));
            Ok(Executed::Instruction(inst))
        } else if op == 0x3b {
            self.exec_op32(inst)
        } else if op == 0x43 || op == 0x47 || op == 0x4b || op == 0x4f {
            // The fused multiply-adds.
            let fl = fields(inst);
            match decode_fused(op, (inst & 0x03000000) >> 25) {
                None => Err(Exception::IllegalInstruction(inst)),
                Some(fp_op) => Ok(Executed::Float(Self::fp_instruction(fp_op, inst, 0))),
            }
        } else if op == 0x53 {
            self.exec_op_fp(inst)
        } else if op == 0x63 {
            self.exec_branch(inst)
        } else if op == 0x67 {
            // jalr. The program counter already moved past the instruction.
            let fl = fields(inst);
            let t = self.pc;
            let offset = (inst as i32 as i64) >> 20;
            let target = ((self.xregs.read(fl.rs1) as i64).wrapping_add(offset)) & !1i64;
            self.pc = target as u64;
            self.xregs.write(fl.rd, t);
            Ok(Executed::Instruction(inst))
        } else if op == 0x6f {
            // jal
            let fl = fields(inst);
            self.xregs.write(fl.rd, self.pc);
            let offset = imm_j_of(inst);
            self.pc = self.pc.wrapping_add(offset).wrapping_sub(4);
            Ok(Executed::Instruction(inst))
        } else if op == 0x73 {
            self.exec_system(inst)
        } else {
            Err(Exception::IllegalInstruction(inst))
        }
    }

    /// The floating-point instruction `inst` with operation `op`, left to the host.
    fn fp_instruction(op: FpOp, inst: u64, data: u64) -> (r: FpInstruction)
        ensures
            r == fp_instruction(op, inst, data),
    {
        let fl = fields(inst);
        FpInstruction {
            op,
            rd: fl.rd,
            rs1: fl.rs1,
            rs2: fl.rs2,
            rs3: (inst & 0xf8000000) >> 27,
            data,
        }
    }

    /// LOAD (opcode 0x03).
    fn exec_load(&mut self, inst: u64) -> (r: Result<Executed, Exception>)
        ensures
            (final(self)@, r) == step_load(old(self)@, inst),
    {
        let fl = fields(inst);
        let addr = self.xregs.read(fl.rs1).wrapping_add(imm_i_of(inst));
        match load_size_of(fl.funct3) {
            None => Err(Exception::IllegalInstruction(inst)),
            Some(size) => {
                let val = self.read(addr, size)?;
                self.xregs.write(fl.rd, extend_load(fl.funct3, val));
                Ok(Executed::Instruction(inst))
            },
        }
    }

    /// LOAD-FP (opcode 0x07).
    fn exec_load_fp(&mut self, inst: u64) -> (r: Result<Executed, Exception>)
        ensures
            (final(self)@, r) == step_load_fp(old(self)@, inst),
    {
        let fl = fields(inst);
        let addr = self.xregs.read(fl.rs1).wrapping_add(imm_i_of(inst));
        if fl.funct3 == 2 {
            // flw
            let val = self.read(addr, WORD)?;
            Ok(Executed::Float(Self::fp_instruction(FpOp::Flw, inst, val)))
        } else if fl.funct3 == 3 {
            // fld
            let val = self.read(addr, DOUBLEWORD)?;
            self.fregs.write(fl.rd, val);
            Ok(Executed::Instruction(inst))
        } else {
            Err(Exception::IllegalInstruction(inst))
        }
    }

    /// OP-IMM (opcode 0x13).
    fn exec_op_imm(&mut self, inst: u64) -> (r: Result<Executed, Exception>)
        ensures
            (final(self)@, r) == step_op_imm(old(self)@, inst),
    {
        let fl = fields(inst);
        // shamt size is 5 bits for RV32I and 6 bits for RV64I.
        let shamt = (inst >> 20) & 0x3f;
        assert((inst >> 20u64) & 0x3f < 64) by (bit_vector);
        match op_imm(fl.funct3, fl.funct7 >> 1, imm_i_of(inst), shamt, self.xregs.read(fl.rs1)) {
            None => Err(Exception::IllegalInstruction(inst)),
            Some(val) => {
                self.xregs.write(fl.rd, val);
                Ok(Executed::Instruction(inst))
            },
        }
    }

    /// OP-IMM-32 (opcode 0x1b).
    fn exec_op_imm32(&mut self, inst: u64) -> (r: Result<Executed, Exception>)
        ensures
            (final(self)@, r) == step_op_imm32(old(self)@, inst),
    {
        let fl = fields(inst);
        match op_imm32(fl.funct3, fl.funct7, imm_i_of(inst), self.xregs.read(fl.rs1)) {
            None => Err(Exception::IllegalInstruction(inst)),
            Some(val) => {
                self.xregs.write(fl.rd, val);
                Ok(Executed::Instruction(inst))
            },
        }
    }

    /// OP (opcode 0x33).
    fn exec_op(&mut self, inst: u64) -> (r: Result<Executed, Exception>)
        ensures
            (final(self)@, r) == step_op(old(self)@, inst),
    {
        let fl = fields(inst);
        let a = self.xregs.read(fl.rs1);
        let b = self.xregs.read(fl.rs2);
        match op(fl.funct3, fl.funct7, a, b) {
            None => Err(Exception::IllegalInstruction(inst)),
            Some(val) => {
                if fl.funct7 == 0x01 && (fl.funct3 == 4 || fl.funct3 == 5) && b == 0 {
                    // Division by zero: set the DZ (Divide by Zero) flag to 1.
                    self.state.write_bit(FCSR, 3, 1);
                }
                self.xregs.write(fl.rd, val);
                Ok(Executed::Instruction(inst))
            },
        }
    }

    /// OP-32 (opcode 0x3b).
    fn exec_op32(&mut self, inst: u64) -> (r: Result<Executed, Exception>)
        ensures
            (final(self)@, r) == step_op32(old(self)@, inst),
    {
        let fl = fields(inst);
        let a = self.xregs.read(fl.rs1);
        let b = self.xregs.read(fl.rs2);
        match op32(fl.funct3, fl.funct7, a, b) {
            None => Err(Exception::IllegalInstruction(inst)),
            Some(val) => {
                if fl.funct7 == 0x01 && ((fl.funct3 == 4 && (b as i32) == 0) || (fl.funct3 == 5
                    && (b as u32) == 0)) {
                    // Division by zero: set the DZ (Divide by Zero) flag to 1.
                    self.state.write_bit(FCSR, 3, 1);
                }
                self.xregs.write(fl.rd, val);
                Ok(Executed::Instruction(inst))
            },
        }
    }

    /// STORE (opcode 0x23).
    fn exec_store(&mut self, inst: u64) -> (r: Result<Executed, Exception>)
        ensures
            (final(self)@, r) == step_store(old(self)@, inst),
    {
        let fl = fields(inst);
        let addr = self.xregs.read(fl.rs1).wrapping_add(imm_s_of(inst));
        match store_size_of(fl.funct3) {
            None => Err(Exception::IllegalInstruction(inst)),
            Some(size) => {
                let value = self.xregs.read(fl.rs2);
                self.write(addr, value, size)?;
                Ok(Executed::Instruction(inst))
            },
        }
    }

    /// STORE-FP (opcode 0x27).
    fn exec_store_fp(&mut self, inst: u64) -> (r: Result<Executed, Exception>)
        ensures
            (final(self)@, r) == step_store_fp(old(self)@, inst),
    {
        let fl = fields(inst);
        // offset[11:5|4:0] = inst[31:25|11:7]
        let offset = ((((inst as i32 as i64) >> 20) as u64) & 0xfe0) | ((inst >> 7) & 0x1f);
        let addr = self.xregs.read(fl.rs1).wrapping_add(offset);
        if fl.funct3 == 2 {
            // fsw
            Ok(Executed::Float(Self::fp_instruction(FpOp::Fsw, inst, addr)))
        } else if fl.funct3 == 3 {
            // fsd
            let value = self.fregs.read(fl.rs2);
            self.write(addr, value, DOUBLEWORD)?;
            Ok(Executed::Instruction(inst))
        } else {
            Err(Exception::IllegalInstruction(inst))
        }
    }

    /// AMO (opcode 0x2f). "For AMOs, the A extension requires that the address held in rs1 be
    /// naturally aligned to the size of the operand. If the address is not naturally aligned,
    /// an address-misaligned exception or an access-fault exception will be generated."
    fn exec_amo(&mut self, inst: u64) -> (r: Result<Executed, Exception>)
        ensures
            (final(self)@, r) == step_amo(old(self)@, inst),
    {
        let fl = fields(inst);
        let f3 = fl.funct3;
        let f5 = (fl.funct7 & 0b1111100) >> 2;
        let addr = self.xregs.read(fl.rs1);
        let b = self.xregs.read(fl.rs2);
        if f3 != 2 && f3 != 3 {
            return Err(Exception::IllegalInstruction(inst));
        }
        let size = if f3 == 2 {
            WORD
        } else {
            DOUBLEWORD
        };
        let aligned = if f3 == 2 {
            addr % 4 == 0
        } else {
            addr % 8 == 0
        };
        if f5 == 0x02 {
            // lr.w, lr.d
            if !aligned {
                return Err(Exception::LoadAddressMisaligned);
            }
            let value = self.read(addr, size)?;
            let extended = if f3 == 2 {
                value as i32 as i64 as u64
            } else {
                value
            };
            self.xregs.write(fl.rd, extended);
            self.reservation_set.push(addr);
            Ok(Executed::Instruction(inst))
        } else if f5 == 0x03 {
            // sc.w, sc.d
            if !aligned {
                return Err(Exception::StoreAMOAddressMisaligned);
            }
            if self.is_reserved(addr) {
                // "Regardless of success or failure, executing an SC.W instruction invalidates
                // any reservation held by this hart."
                self.forget_reservation(addr);
                self.write(addr, b, size)?;
                self.xregs.write(fl.rd, 0);
            } else {
                self.forget_reservation(addr);
                self.xregs.write(fl.rd, 1);
            }
            Ok(Executed::Instruction(inst))
        } else {
            if amo(f3, f5, 0, 0).is_none() {
                return Err(Exception::IllegalInstruction(inst));
            }
            if !aligned {
                return Err(Exception::LoadAddressMisaligned);
            }
            let t = self.read(addr, size)?;
            let new_value = match amo(f3, f5, t, b) {
                Some(v) => v,
                None => {
                    return Err(Exception::IllegalInstruction(inst));
                },
            };
            self.write(addr, new_value, size)?;
            let extended = if f3 == 2 {
                t as i32 as i64 as u64
            } else {
                t
            };
            self.xregs.write(fl.rd, extended);
            Ok(Executed::Instruction(inst))
        }
    }

    /// OP-FP (opcode 0x53).
    fn exec_op_fp(&mut self, inst: u64) -> (r: Result<Executed, Exception>)
        ensures
            (final(self)@, r) == step_op_fp(old(self)@, inst),
    {
        let fl = fields(inst);
        proof {
            self.state.lemma_len();
        }
        // Check the frm field is valid.
        let frm = self.state.read_bits(FCSR, BitBound::Included(5), BitBound::Excluded(8));
        if !(frm == 0 || frm == 1 || frm == 2 || frm == 3 || frm == 4 || frm == 7) {
            return Err(Exception::IllegalInstruction(inst));
        }
        if fl.funct7 == 0x11 && fl.funct3 == 2 {
            // fsgnjx.d
            let sign1 = self.fregs.read(fl.rs1) & 0x80000000_00000000;
            let sign2 = self.fregs.read(fl.rs2) & 0x80000000_00000000;
            let other = self.fregs.read(fl.rs1) & 0x7fffffff_ffffffff;
            self.fregs.write(fl.rd, (sign1 ^ sign2) | other);
            Ok(Executed::Instruction(inst))
        } else if fl.funct7 == 0x70 && fl.funct3 == 0 {
            // fmv.x.w: "The bits are not modified in the transfer"
            let bits = self.fregs.read(fl.rs1);
            self.xregs.write(fl.rd, bits as i32 as i64 as u64);
            Ok(Executed::Instruction(inst))
        } else if fl.funct7 == 0x71 && fl.funct3 == 0 {
            // fmv.x.d: "FMV.X.D and FMV.D.X do not modify the bits being transferred"
            let bits = self.fregs.read(fl.rs1);
            self.xregs.write(fl.rd, bits);
            Ok(Executed::Instruction(inst))
        } else if fl.funct7 == 0x79 {
            // fmv.d.x
            let bits = self.xregs.read(fl.rs1);
            self.fregs.write(fl.rd, bits);
            Ok(Executed::Instruction(inst))
        } else {
            match decode_op_fp(fl.funct7, fl.funct3, fl.rs2) {
                None => Err(Exception::IllegalInstruction(inst)),
                Some(fp_op) => Ok(Executed::Float(Self::fp_instruction(fp_op, inst, 0))),
            }
        }
    }

    /// BRANCH (opcode 0x63).
    fn exec_branch(&mut self, inst: u64) -> (r: Result<Executed, Exception>)
        ensures
            (final(self)@, r) == step_branch(old(self)@, inst),
    {
        let fl = fields(inst);
        let imm = imm_b_of(inst);
        match branch(fl.funct3, self.xregs.read(fl.rs1), self.xregs.read(fl.rs2)) {
            None => Err(Exception::IllegalInstruction(inst)),
            Some(taken) => {
                if taken {
                    self.pc = self.pc.wrapping_add(imm).wrapping_sub(4);
                }
                Ok(Executed::Instruction(inst))
            },
        }
    }

    /// Update the physical page number (PPN) and the addressing mode.
    pub fn update_paging(&mut self)
        ensures
            final(self)@ == update_paging_spec(old(self)@),
    {
        proof {
            self.state.lemma_len();
        }
        // Read the physical page number (PPN) of the root page table, i.e., its supervisor
        // physical address divided by 4 KiB.
        let ppn = self.state.read_bits(SATP, BitBound::Unbounded, BitBound::Excluded(44));
        let ghost satp = csr_read_spec(self.state@, SATP);
        assert(bits_spec(satp, 0, 44) < 0x1000_0000_0000) by (bit_vector);
        self.page_table = ppn * PAGE_SIZE;
        // Read the MODE field, which selects the current address-translation scheme.
        let mode = self.state.read_bits(SATP, BitBound::Included(60), BitBound::Unbounded);
        // Enable the SV39 paging if the value of the mode field is 8.
        self.enable_paging = mode == 8;
    }

    /// SYSTEM (opcode 0x73).
    fn exec_system(&mut self, inst: u64) -> (r: Result<Executed, Exception>)
        ensures
            (final(self)@, r) == step_system(old(self)@, inst),
    {
        let fl = fields(inst);
        proof {
            self.state.lemma_len();
        }
        if fl.funct3 == 0 {
            if fl.rs2 == 0 && fl.funct7 == 0 {
                // ecall: makes a request of the execution environment by raising an
                // environment call exception.
                match self.mode {
                    Mode::User => Err(Exception::EnvironmentCallFromUMode),
                    Mode::Supervisor => Err(Exception::EnvironmentCallFromSMode),
                    Mode::Machine => Err(Exception::EnvironmentCallFromMMode),
                    Mode::Debug => Err(Exception::IllegalInstruction(inst)),
                }
            } else if fl.rs2 == 1 && fl.funct7 == 0 {
                // ebreak: makes a request of the debugger by raising a Breakpoint exception.
                Err(Exception::Breakpoint)
            } else if fl.rs2 == 2 && fl.funct7 == 0x8 {
                // sret: "Returns from a supervisor-mode exception handler. Sets the pc to
                // CSRs[sepc], the privilege mode to CSRs[sstatus].SPP, CSRs[sstatus].SIE to
                // CSRs[sstatus].SPIE, CSRs[sstatus].SPIE to 1, and CSRs[sstatus].SPP to 0."
                self.pc = self.state.read(SEPC);
                self.mode = match self.state.read_bit(SSTATUS, 8) {
                    0 => Mode::User,
                    1 => Mode::Supervisor,
                    _ => Mode::Debug,
                };
                let spie = self.state.read_bit(SSTATUS, 5);
                self.state.write_bit(SSTATUS, 1, spie);
                self.state.write_bit(SSTATUS, 5, 1);
                self.state.write_bit(SSTATUS, 8, 0);
                Ok(Executed::Instruction(inst))
            } else if fl.rs2 == 2 && fl.funct7 == 0x18 {
                // mret: "Returns from a machine-mode exception handler. Sets the pc to
                // CSRs[mepc], the privilege mode to CSRs[mstatus].MPP, CSRs[mstatus].MIE to
                // CSRs[mstatus].MPIE, and CSRs[mstatus].MPIE to 1; and, if user mode is
                // supported, sets CSRs[mstatus].MPP to 0".
                self.pc = self.state.read(MEPC);
                let mpp = self.state.read_bits(
                    MSTATUS,
                    BitBound::Included(11),
                    BitBound::Excluded(13),
                );
                self.mode = Mode::from_mpp(mpp);
                let mpie = self.state.read_bit(MSTATUS, 7);
                self.state.write_bit(MSTATUS, 3, mpie);
                self.state.write_bit(MSTATUS, 7, 1);
                self.state.write_bits(MSTATUS, BitBound::Included(11), BitBound::Excluded(13), 0);
                Ok(Executed::Instruction(inst))
            } else if fl.rs2 == 5 && fl.funct7 == 0x8 {
                // wfi: "provides a hint to the implementation that the current hart can be
                // stalled until an interrupt might need servicing."
                self.idle = true;
                Ok(Executed::Instruction(inst))
            } else if fl.funct7 == 0x9 || fl.funct7 == 0x11 || fl.funct7 == 0x51 {
                // sfence.vma, hfence.bvma, hfence.gvma
                Ok(Executed::Instruction(inst))
            } else {
                Err(Exception::IllegalInstruction(inst))
            }
        } else if fl.funct3 == 4 {
            Err(Exception::IllegalInstruction(inst))
        } else {
            // csrrw, csrrs, csrrc, csrrwi, csrrsi and csrrci.
            let csr_addr = ((inst >> 20) & 0xfff) as u16;
            assert((inst >> 20u64) & 0xfff < 4096) by (bit_vector);
            let t = self.state.read(csr_addr);
            let s = if fl.funct3 <= 3 {
                self.xregs.read(fl.rs1)
            } else {
                fl.rs1
            };
            let new_value = if fl.funct3 == 1 || fl.funct3 == 5 {
                s
            } else if fl.funct3 == 2 || fl.funct3 == 6 {
                t | s
            } else {
                t & (!s)
            };
            self.state.write(csr_addr, new_value);
            self.xregs.write(fl.rd, t);
            if csr_addr == SATP {
                self.update_paging();
            }
            Ok(Executed::Instruction(inst))
        }
    }
}

/// mulhu rd, rs1, rs2 (OP, funct3 3, funct7 1) writes to rd the high 64 bits of the unsigned
/// 128-bit product of x[rs1] and x[rs2], and changes nothing else.
pub proof fn law_mulhu_writes_high_product(v: CpuView, inst: u64)
    requires
        opcode(inst) == 0x33,
        funct3(inst) == 3,
        funct7(inst) == 1,
    ensures
        dispatch_general(v, inst) == (set_x(
            v,
            rd(inst),
            ((x(v, rs1(inst)) as nat * x(v, rs2(inst)) as nat) / 0x1_0000_0000_0000_0000nat) as u64,
        ), retired(inst)),
{
    crate::cpu::alu::law_mulhu_high_product(x(v, rs1(inst)), x(v, rs2(inst)));
}

} // verus!
