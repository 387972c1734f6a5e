//! The execution of 16-bit (compressed, RV64C) instructions. Each one is carried out as the
//! 32-bit instruction it expands to, named in the comments; compressed instructions have 3-bit
//! fields for popular registers, which correspond to registers x8 to x15.

use vstd::prelude::*;

use crate::cpu::access::{cpu_read_spec, cpu_write_spec, fetch_spec};
use crate::cpu::alu::sext32;
use crate::cpu::decode::{funct3, funct7, imm_i, opcode, rd, rs1, rs2, Executed};
use crate::cpu::general::{
    after_store, f, illegal, load_into_x, retired, set_x, step_op, step_op_imm, x,
};
use crate::cpu::{Cpu, CpuView};
use crate::exception::Exception;
use crate::le::{DOUBLEWORD, HALFWORD, WORD};

verus! {

/// The 3-bit register field inst[4:2], naming x8 to x15 (rd' or rs2').
pub open spec fn creg_low(inst: u64) -> u64 {
    (((inst >> 2u64) & 0x7) + 8) as u64
}

/// The 3-bit register field inst[9:7], naming x8 to x15 (rs1' or rd').
pub open spec fn creg_high(inst: u64) -> u64 {
    (((inst >> 7u64) & 0x7) + 8) as u64
}

/// The 5-bit register field inst[11:7] (rd or rs1).
pub open spec fn crd(inst: u64) -> u64 {
    (inst >> 7u64) & 0x1f
}

/// The 5-bit register field inst[6:2] (rs2).
pub open spec fn crs2(inst: u64) -> u64 {
    (inst >> 2u64) & 0x1f
}

/// The register fields of a compressed instruction name one of the 32 registers, and the
/// 3-bit ones one of x8 to x15.
pub proof fn lemma_compressed_fields(inst: u64)
    ensures
        8 <= creg_low(inst) < 16,
        8 <= creg_high(inst) < 16,
        crd(inst) < 32,
        crs2(inst) < 32,
{
    assert((inst >> 2u64) & 0x7 < 8 && (inst >> 7u64) & 0x7 < 8 && (inst >> 7u64) & 0x1f < 32 && (
    inst >> 2u64) & 0x1f < 32) by (bit_vector);
}

/// The 6-bit immediate imm[5|4:0] = inst[12|6:2], sign-extended.
pub open spec fn cimm6(inst: u64) -> u64 {
    let imm = ((inst >> 7u64) & 0x20) | ((inst >> 2u64) & 0x1f);
    if imm & 0x20 == 0 {
        imm
    } else {
        ((0xc0 | imm) as i8) as i64 as u64
    }
}

/// The 6-bit shift amount shamt[5|4:0] = inst[12|6:2].
pub open spec fn cshamt(inst: u64) -> u64 {
    ((inst >> 7u64) & 0x20) | ((inst >> 2u64) & 0x1f)
}

/// c.addi4spn: nzuimm[5:4|9:6|2|3] = inst[12:11|10:7|6|5].
pub open spec fn addi4spn_imm(inst: u64) -> u64 {
    ((inst >> 1u64) & 0x3c0) | ((inst >> 7u64) & 0x30) | ((inst >> 2u64) & 0x8) | ((inst >> 4u64)
        & 0x4)
}

/// c.fld, c.ld, c.fsd and c.sd: offset[5:3|7:6] = inst[12:10|6:5].
pub open spec fn cd_offset(inst: u64) -> u64 {
    ((inst << 1u64) & 0xc0) | ((inst >> 7u64) & 0x38)
}

/// c.lw and c.sw: offset[5:3|2|6] = inst[12:10|6|5].
pub open spec fn cw_offset(inst: u64) -> u64 {
    ((inst << 1u64) & 0x40) | ((inst >> 7u64) & 0x38) | ((inst >> 4u64) & 0x4)
}

/// c.addi16sp: nzimm[9|4|6|8:7|5] = inst[12|6|5|4:3|2], sign-extended.
pub open spec fn addi16sp_imm(inst: u64) -> u64 {
    let nzimm = ((inst >> 3u64) & 0x200) | ((inst >> 2u64) & 0x10) | ((inst << 1u64) & 0x40) | ((
    inst << 4u64) & 0x180) | ((inst << 3u64) & 0x20);
    if nzimm & 0x200 == 0 {
        nzimm
    } else {
        (((0xfc00 | nzimm) as i16) as i32) as i64 as u64
    }
}

/// c.lui: nzimm[17|16:12] = inst[12|6:2], sign-extended.
pub open spec fn lui_imm(inst: u64) -> u64 {
    let nzimm = ((inst << 5u64) & 0x20000) | ((inst << 10u64) & 0x1f000);
    if nzimm & 0x20000 == 0 {
        nzimm
    } else {
        ((0xfffc0000 | nzimm) as i32) as i64 as u64
    }
}

/// c.j: offset[11|4|9:8|10|6|7|3:1|5] = inst[12|11|10:9|8|7|6|5:3|2], sign-extended.
pub open spec fn cj_offset(inst: u64) -> u64 {
    let offset = ((inst >> 1u64) & 0x800) | ((inst << 2u64) & 0x400) | ((inst >> 1u64) & 0x300) | ((
    inst << 1u64) & 0x80) | ((inst >> 1u64) & 0x40) | ((inst << 3u64) & 0x20) | ((inst >> 7u64)
        & 0x10) | ((inst >> 2u64) & 0xe);
    if offset & 0x800 == 0 {
        offset
    } else {
        ((0xf000 | offset) as i16) as i64 as u64
    }
}

/// c.beqz and c.bnez: offset[8|4:3|7:6|2:1|5] = inst[12|11:10|6:5|4:3|2], sign-extended.
pub open spec fn cb_offset(inst: u64) -> u64 {
    let offset = ((inst >> 4u64) & 0x100) | ((inst << 1u64) & 0xc0) | ((inst << 3u64) & 0x20) | ((
    inst >> 7u64) & 0x18) | ((inst >> 2u64) & 0x6);
    if offset & 0x100 == 0 {
        offset
    } else {
        ((0xfe00 | offset) as i16) as i64 as u64
    }
}

/// c.fldsp and c.ldsp: offset[5|4:3|8:6] = inst[12|6:5|4:2].
pub open spec fn ldsp_offset(inst: u64) -> u64 {
    ((inst << 4u64) & 0x1c0) | ((inst >> 7u64) & 0x20) | ((inst >> 2u64) & 0x18)
}

/// c.lwsp: offset[5|4:2|7:6] = inst[12|6:4|3:2].
pub open spec fn lwsp_offset(inst: u64) -> u64 {
    ((inst << 4u64) & 0xc0) | ((inst >> 7u64) & 0x20) | ((inst >> 2u64) & 0x1c)
}

/// c.fsdsp and c.sdsp: offset[5:3|8:6] = inst[12:10|9:7].
pub open spec fn sdsp_offset(inst: u64) -> u64 {
    ((inst >> 1u64) & 0x1c0) | ((inst >> 7u64) & 0x38)
}

/// c.swsp: offset[5:2|7:6] = inst[12:9|8:7].
pub open spec fn swsp_offset(inst: u64) -> u64 {
    ((inst >> 1u64) & 0xc0) | ((inst >> 7u64) & 0x3c)
}

/// Quadrant 0: c.addi4spn, c.fld, c.lw, c.ld, c.fsd, c.sw and c.sd; a zero immediate of
/// c.addi4spn and the reserved encoding are illegal.
pub open spec fn quadrant0(v: CpuView, inst: u64) -> (CpuView, Result<Executed, Exception>) {
    let funct3 = (inst >> 13u64) & 0x7;
    let lo = creg_low(inst);
    let hi = creg_high(inst);
    if funct3 == 0 {
        let nzuimm = addi4spn_imm(inst);
        if nzuimm == 0 {
            (v, illegal(inst))
        } else {
            (set_x(v, lo, x(v, 2).wrapping_add(nzuimm)), retired(inst))
        }
    } else if funct3 == 1 {
        let (v1, r) = load_into_x(v, inst, x(v, hi).wrapping_add(cd_offset(inst)), DOUBLEWORD);
        match r {
            Err(e) => (v1, Err(e)),
            Ok(val) => (CpuView { fregs: v1.fregs.update(lo as int, val), ..v1 }, retired(inst)),
        }
    } else if funct3 == 2 {
        let (v1, r) = load_into_x(v, inst, x(v, hi).wrapping_add(cw_offset(inst)), WORD);
        match r {
            Err(e) => (v1, Err(e)),
            Ok(val) => (set_x(v1, lo, sext32(val)), retired(inst)),
        }
    } else if funct3 == 3 {
        let (v1, r) = load_into_x(v, inst, x(v, hi).wrapping_add(cd_offset(inst)), DOUBLEWORD);
        match r {
            Err(e) => (v1, Err(e)),
            Ok(val) => (set_x(v1, lo, val), retired(inst)),
        }
    } else if funct3 == 5 {
        after_store(
            cpu_write_spec(v, x(v, hi).wrapping_add(cd_offset(inst)), f(v, lo), DOUBLEWORD),
            inst,
        )
    } else if funct3 == 6 {
        after_store(cpu_write_spec(v, x(v, hi).wrapping_add(cw_offset(inst)), x(v, lo), WORD), inst)
    } else if funct3 == 7 {
        after_store(
            cpu_write_spec(v, x(v, hi).wrapping_add(cd_offset(inst)), x(v, lo), DOUBLEWORD),
            inst,
        )
    } else {
        (v, illegal(inst))
    }
}

/// The arithmetic of quadrant 1 with funct3 0x4 on x[rd'] (`a`) and x[rs2'] (`b`): c.srli,
/// c.srai, c.andi, c.sub, c.xor, c.or, c.and, c.subw and c.addw.
pub open spec fn quadrant1_arith(inst: u64, a: u64, b: u64) -> Option<u64> {
    let funct2 = (inst >> 10u64) & 0x3;
    if funct2 == 0 {
        Some(a >> cshamt(inst))
    } else if funct2 == 1 {
        Some(((a as i64) >> cshamt(inst)) as u64)
    } else if funct2 == 2 {
        Some(a & cimm6(inst))
    } else {
        let bit12 = (inst >> 12u64) & 0x1;
        let funct = (inst >> 5u64) & 0x3;
        if bit12 == 0 && funct == 0 {
            Some(a.wrapping_sub(b))
        } else if bit12 == 0 && funct == 1 {
            Some(a ^ b)
        } else if bit12 == 0 && funct == 2 {
            Some(a | b)
        } else if bit12 == 0 && funct == 3 {
            Some(a & b)
        } else if bit12 == 1 && funct == 0 {
            Some(sext32(a.wrapping_sub(b)))
        } else if bit12 == 1 && funct == 1 {
            Some(sext32(a.wrapping_add(b)))
        } else {
            None
        }
    }
}

/// Quadrant 1: c.addi, c.addiw, c.li, c.addi16sp, c.lui, the register arithmetic, c.j, c.beqz
/// and c.bnez. Jumps and taken branches go to the address of the instruction plus the offset.
pub open spec fn quadrant1(v: CpuView, inst: u64) -> (CpuView, Result<Executed, Exception>) {
    let funct3 = (inst >> 13u64) & 0x7;
    let rd = crd(inst);
    let hi = creg_high(inst);
    if funct3 == 0 {
        if rd != 0 {
            (set_x(v, rd, x(v, rd).wrapping_add(cimm6(inst))), retired(inst))
        } else {
            (v, retired(inst))
        }
    } else if funct3 == 1 {
        if rd != 0 {
            (set_x(v, rd, sext32(x(v, rd).wrapping_add(cimm6(inst)))), retired(inst))
        } else {
            (v, retired(inst))
        }
    } else if funct3 == 2 {
        if rd != 0 {
            (set_x(v, rd, cimm6(inst)), retired(inst))
        } else {
            (v, retired(inst))
        }
    } else if funct3 == 3 {
        if rd == 0 {
            (v, retired(inst))
        } else if rd == 2 {
            if addi16sp_imm(inst) != 0 {
                (set_x(v, 2, x(v, 2).wrapping_add(addi16sp_imm(inst))), retired(inst))
            } else {
                (v, retired(inst))
            }
        } else if lui_imm(inst) != 0 {
            (set_x(v, rd, lui_imm(inst)), retired(inst))
        } else {
            (v, retired(inst))
        }
    } else if funct3 == 4 {
        match quadrant1_arith(inst, x(v, hi), x(v, creg_low(inst))) {
            None => (v, illegal(inst)),
            Some(val) => (set_x(v, hi, val), retired(inst)),
        }
    } else if funct3 == 5 {
        (CpuView { pc: v.pc.wrapping_add(cj_offset(inst)).wrapping_sub(2), ..v }, retired(inst))
    } else if funct3 == 6 {
        if x(v, hi) == 0 {
            (CpuView { pc: v.pc.wrapping_add(cb_offset(inst)).wrapping_sub(2), ..v }, retired(inst))
        } else {
            (v, retired(inst))
        }
    } else {
        if x(v, hi) != 0 {
            (CpuView { pc: v.pc.wrapping_add(cb_offset(inst)).wrapping_sub(2), ..v }, retired(inst))
        } else {
            (v, retired(inst))
        }
    }
}

/// Quadrant 2: c.slli, c.fldsp, c.lwsp, c.ldsp, c.jr, c.mv, c.ebreak, c.jalr, c.add, c.fsdsp,
/// c.swsp and c.sdsp.
pub open spec fn quadrant2(v: CpuView, inst: u64) -> (CpuView, Result<Executed, Exception>) {
    let funct3 = (inst >> 13u64) & 0x7;
    let rd = crd(inst);
    let rs2 = crs2(inst);
    if funct3 == 0 {
        if rd != 0 {
            (set_x(v, rd, x(v, rd) << cshamt(inst)), retired(inst))
        } else {
            (v, retired(inst))
        }
    } else if funct3 == 1 {
        let (v1, r) = load_into_x(v, inst, x(v, 2).wrapping_add(ldsp_offset(inst)), DOUBLEWORD);
        match r {
            Err(e) => (v1, Err(e)),
            Ok(val) => (CpuView { fregs: v1.fregs.update(rd as int, val), ..v1 }, retired(inst)),
        }
    } else if funct3 == 2 {
        let (v1, r) = load_into_x(v, inst, x(v, 2).wrapping_add(lwsp_offset(inst)), WORD);
        match r {
            Err(e) => (v1, Err(e)),
            Ok(val) => (set_x(v1, rd, sext32(val)), retired(inst)),
        }
    } else if funct3 == 3 {
        let (v1, r) = load_into_x(v, inst, x(v, 2).wrapping_add(ldsp_offset(inst)), DOUBLEWORD);
        match r {
            Err(e) => (v1, Err(e)),
            Ok(val) => (set_x(v1, rd, val), retired(inst)),
        }
    } else if funct3 == 4 {
        let bit12 = (inst >> 12u64) & 0x1;
        if bit12 == 0 && rs2 == 0 {
            // c.jr
            if rd != 0 {
                (CpuView { pc: x(v, rd), ..v }, retired(inst))
            } else {
                (v, retired(inst))
            }
        } else if bit12 == 0 {
            // c.mv
            (set_x(v, rd, x(v, rs2)), retired(inst))
        } else if rs2 == 0 {
            if rd == 0 {
                // c.ebreak
                (v, Err(Exception::Breakpoint))
            } else {
                // c.jalr: the program counter already points past the instruction.
                (CpuView { pc: x(v, rd), ..set_x(v, 1, v.pc) }, retired(inst))
            }
        } else {
            // c.add
            (set_x(v, rd, x(v, rd).wrapping_add(x(v, rs2))), retired(inst))
        }
    } else if funct3 == 5 {
        after_store(
            cpu_write_spec(v, x(v, 2).wrapping_add(sdsp_offset(inst)), f(v, rs2), DOUBLEWORD),
            inst,
        )
    } else if funct3 == 6 {
        after_store(cpu_write_spec(v, x(v, 2).wrapping_add(swsp_offset(inst)), x(v, rs2), WORD), inst)
    } else {
        after_store(
            cpu_write_spec(v, x(v, 2).wrapping_add(sdsp_offset(inst)), x(v, rs2), DOUBLEWORD),
            inst,
        )
    }
}

/// The execution of a compressed instruction: the 16-bit instruction at the program counter is
/// fetched, the program counter moves past it by 2 bytes, and the instruction is executed.
pub open spec fn compressed_spec(v: CpuView) -> (CpuView, Result<Executed, Exception>) {
    match fetch_spec(v, HALFWORD) {
        Err(e) => (v, Err(e)),
        Ok(inst) => {
            let v1 = CpuView { pc: v.pc.wrapping_add(2), ..v };
            let quadrant = inst & 0x3;
            if quadrant == 0 {
                quadrant0(v1, inst)
            } else if quadrant == 1 {
                quadrant1(v1, inst)
            } else if quadrant == 2 {
                quadrant2(v1, inst)
            } else {
                (v1, illegal(inst))
            }
        },
    }
}

impl Cpu {
    /// Execute a compressed instruction. Raised an exception if something is wrong, otherwise,
    /// returns a fetched instruction. It also increments the program counter by 2 bytes.
    pub fn execute_compressed(&mut self) -> (r: Result<Executed, Exception>)
        ensures
            (final(self)@, r) == compressed_spec(old(self)@),
    {
        // 1. Fetch.
        let inst = self.fetch(HALFWORD)?;
        // Add 2 bytes to the program counter.
        self.pc = self.pc.wrapping_add(2);
        // 2. Decode and 3. Execute.
        let quadrant = inst & 0x3;
        if quadrant == 0 {
            self.exec_quadrant0(inst)
        } else if quadrant == 1 {
            self.exec_quadrant1(inst)
        } else if quadrant == 2 {
            self.exec_quadrant2(inst)
        } else {
            Err(Exception::IllegalInstruction(inst))
        }
    }

    /// Quadrant 0 of the compressed instructions.
    fn exec_quadrant0(&mut self, inst: u64) -> (r: Result<Executed, Exception>)
        ensures
            (final(self)@, r) == quadrant0(old(self)@, inst),
    {
        let funct3 = (inst >> 13) & 0x7;
        assert((inst >> 2u64) & 0x7 < 8 && (inst >> 7u64) & 0x7 < 8) by (bit_vector);
        let lo = ((inst >> 2) & 0x7) + 8;
        let hi = ((inst >> 7) & 0x7) + 8;
        if funct3 == 0x0 {
            // c.addi4spn: expands to addi rd, x2, nzuimm, where rd=rd'+8.
            // nzuimm[5:4|9:6|2|3] = inst[12:11|10:7|6|5]
            let nzuimm = ((inst >> 1) & 0x3c0) | ((inst >> 7) & 0x30) | ((inst >> 2) & 0x8) | ((
            inst >> 4) & 0x4);
            if nzuimm == 0 {
                return Err(Exception::IllegalInstruction(inst));
            }
            self.xregs.write(lo, self.xregs.read(2).wrapping_add(nzuimm));
        } else if funct3 == 0x1 {
            // c.fld: expands to fld rd, offset(rs1), where rd=rd'+8 and rs1=rs1'+8.
            // offset[5:3|7:6] = isnt[12:10|6:5]
            let offset = ((inst << 1) & 0xc0) | ((inst >> 7) & 0x38);
            let val = self.read(self.xregs.read(hi).wrapping_add(offset), DOUBLEWORD)?;
            self.fregs.write(lo, val);
        } else if funct3 == 0x2 {
            // c.lw: expands to lw rd, offset(rs1), where rd=rd'+8 and rs1=rs1'+8.
            // offset[5:3|2|6] = isnt[12:10|6|5]
            let offset = ((inst << 1) & 0x40) | ((inst >> 7) & 0x38) | ((inst >> 4) & 0x4);
            let addr = self.xregs.read(hi).wrapping_add(offset);
            let val = self.read(addr, WORD)?;
            self.xregs.write(lo, val as i32 as i64 as u64);
        } else if funct3 == 0x3 {
            // c.ld: expands to ld rd, offset(rs1), where rd=rd'+8 and rs1=rs1'+8.
            let offset = ((inst << 1) & 0xc0) | ((inst >> 7) & 0x38);
            let addr = self.xregs.read(hi).wrapping_add(offset);
            let val = self.read(addr, DOUBLEWORD)?;
            self.xregs.write(lo, val);
        } else if funct3 == 0x5 {
            // c.fsd: expands to fsd rs2, offset(rs1), where rs2=rs2'+8 and rs1=rs1'+8.
            let offset = ((inst << 1) & 0xc0) | ((inst >> 7) & 0x38);
            let addr = self.xregs.read(hi).wrapping_add(offset);
            let value = self.fregs.read(lo);
            self.write(addr, value, DOUBLEWORD)?;
        } else if funct3 == 0x6 {
            // c.sw: expands to sw rs2, offset(rs1), where rs2=rs2'+8 and rs1=rs1'+8.
            let offset = ((inst << 1) & 0x40) | ((inst >> 7) & 0x38) | ((inst >> 4) & 0x4);
            let addr = self.xregs.read(hi).wrapping_add(offset);
            let value = self.xregs.read(lo);
            self.write(addr, value, WORD)?;
        } else if funct3 == 0x7 {
            // c.sd: expands to sd rs2, offset(rs1), where rs2=rs2'+8 and rs1=rs1'+8.
            let offset = ((inst << 1) & 0xc0) | ((inst >> 7) & 0x38);
            let addr = self.xregs.read(hi).wrapping_add(offset);
            let value = self.xregs.read(lo);
            self.write(addr, value, DOUBLEWORD)?;
        } else {
            // Reserved.
            return Err(Exception::IllegalInstruction(inst));
        }
        Ok(Executed::Instruction(inst))
    }

    /// Quadrant 1 of the compressed instructions.
    fn exec_quadrant1(&mut self, inst: u64) -> (r: Result<Executed, Exception>)
        ensures
            (final(self)@, r) == quadrant1(old(self)@, inst),
    {
        let funct3 = (inst >> 13) & 0x7;
        let rd = (inst >> 7) & 0x1f;
        assert((inst >> 2u64) & 0x7 < 8 && (inst >> 7u64) & 0x7 < 8 && (inst >> 7u64) & 0x1f < 32
            && (inst >> 13u64) & 0x7 < 8) by (bit_vector);
        let hi = ((inst >> 7) & 0x7) + 8;
        let lo = ((inst >> 2) & 0x7) + 8;
        // imm[5|4:0] = inst[12|6:2], sign-extended.
        let mut imm = ((inst >> 7) & 0x20) | ((inst >> 2) & 0x1f);
        imm = if (imm & 0x20) == 0 {
            imm
        } else {
            (0xc0 | imm) as i8 as i64 as u64
        };
        if funct3 == 0x0 {
            // c.addi: expands to addi rd, rd, nzimm.
            if rd != 0 {
                self.xregs.write(rd, self.xregs.read(rd).wrapping_add(imm));
            }
        } else if funct3 == 0x1 {
            // c.addiw: expands to addiw rd, rd, imm. "The immediate can be zero for C.ADDIW,
            // where this corresponds to sext.w rd"
            if rd != 0 {
                self.xregs.write(rd, self.xregs.read(rd).wrapping_add(imm) as i32 as i64 as u64);
            }
        } else if funct3 == 0x2 {
            // c.li: expands to addi rd, x0, imm.
            if rd != 0 {
                self.xregs.write(rd, imm);
            }
        } else if funct3 == 0x3 {
            if rd == 0 {
            } else if rd == 2 {
                // c.addi16sp: expands to addi x2, x2, nzimm.
                // nzimm[9|4|6|8:7|5] = inst[12|6|5|4:3|2]
                let mut nzimm = ((inst >> 3) & 0x200) | ((inst >> 2) & 0x10) | ((inst << 1) & 0x40)
                    | ((inst << 4) & 0x180) | ((inst << 3) & 0x20);
                nzimm = if (nzimm & 0x200) == 0 {
                    nzimm
                } else {
                    (0xfc00 | nzimm) as i16 as i32 as i64 as u64
                };
                if nzimm != 0 {
                    self.xregs.write(2, self.xregs.read(2).wrapping_add(nzimm));
                }
            } else {
                // c.lui: expands to lui rd, nzimm.
                // nzimm[17|16:12] = inst[12|6:2]
                let mut nzimm = ((inst << 5) & 0x20000) | ((inst << 10) & 0x1f000);
                nzimm = if (nzimm & 0x20000) == 0 {
                    nzimm
                } else {
                    (0xfffc0000 | nzimm) as i32 as i64 as u64
                };
                if nzimm != 0 {
                    self.xregs.write(rd, nzimm);
                }
            }
        } else if funct3 == 0x4 {
            let funct2 = (inst >> 10) & 0x3;
            // shamt[5|4:0] = inst[12|6:2]
            let shamt = ((inst >> 7) & 0x20) | ((inst >> 2) & 0x1f);
            assert(((inst >> 7u64) & 0x20) | ((inst >> 2u64) & 0x1f) < 64) by (bit_vector);
            let a = self.xregs.read(hi);
            let b = self.xregs.read(lo);
            let val = if funct2 == 0x0 {
                // c.srli: expands to srli rd, rd, shamt, where rd=rd'+8.
                a >> shamt
            } else if funct2 == 0x1 {
                // c.srai: expands to srai rd, rd, shamt, where rd=rd'+8.
                ((a as i64) >> shamt) as u64
            } else if funct2 == 0x2 {
                // c.andi: expands to andi rd, rd, imm, where rd=rd'+8.
                a & imm
            } else {
                let bit12 = (inst >> 12) & 0b1;
                let funct = (inst >> 5) & 0b11;
                if bit12 == 0 && funct == 0 {
                    // c.sub: expands to sub rd, rd, rs2, rd=rd'+8 and rs2=rs2'+8.
                    a.wrapping_sub(b)
                } else if bit12 == 0 && funct == 1 {
                    // c.xor
                    a ^ b
                } else if bit12 == 0 && funct == 2 {
                    // c.or
                    a | b
                } else if bit12 == 0 && funct == 3 {
                    // c.and
                    a & b
                } else if bit12 == 1 && funct == 0 {
                    // c.subw
                    a.wrapping_sub(b) as i32 as i64 as u64
                } else if bit12 == 1 && funct == 1 {
                    // c.addw
                    a.wrapping_add(b) as i32 as i64 as u64
                } else {
                    return Err(Exception::IllegalInstruction(inst));
                }
            };
            self.xregs.write(hi, val);
        } else if funct3 == 0x5 {
            // c.j: expands to jal x0, offset.
            // offset[11|4|9:8|10|6|7|3:1|5] = inst[12|11|10:9|8|7|6|5:3|2]
            let mut offset = ((inst >> 1) & 0x800) | ((inst << 2) & 0x400) | ((inst >> 1) & 0x300)
                | ((inst << 1) & 0x80) | ((inst >> 1) & 0x40) | ((inst << 3) & 0x20) | ((inst >> 7)
                & 0x10) | ((inst >> 2) & 0xe);
            offset = if (offset & 0x800) == 0 {
                offset
            } else {
                (0xf000 | offset) as i16 as i64 as u64
            };
            self.pc = self.pc.wrapping_add(offset).wrapping_sub(2);
        } else {
            // c.beqz (expands to beq rs1, x0, offset) and c.bnez (bne rs1, x0, offset),
            // rs1=rs1'+8. offset[8|4:3|7:6|2:1|5] = inst[12|11:10|6:5|4:3|2]
            let mut offset = ((inst >> 4) & 0x100) | ((inst << 1) & 0xc0) | ((inst << 3) & 0x20)
                | ((inst >> 7) & 0x18) | ((inst >> 2) & 0x6);
            offset = if (offset & 0x100) == 0 {
                offset
            } else {
                (0xfe00 | offset) as i16 as i64 as u64
            };
            let zero = self.xregs.read(hi) == 0;
            if (funct3 == 0x6 && zero) || (funct3 == 0x7 && !zero) {
                self.pc = self.pc.wrapping_add(offset).wrapping_sub(2);
            }
        }
        Ok(Executed::Instruction(inst))
    }

    /// Quadrant 2 of the compressed instructions.
    fn exec_quadrant2(&mut self, inst: u64) -> (r: Result<Executed, Exception>)
        ensures
            (final(self)@, r) == quadrant2(old(self)@, inst),
    {
        let funct3 = (inst >> 13) & 0x7;
        let rd = (inst >> 7) & 0x1f;
        let rs2 = (inst >> 2) & 0x1f;
        assert((inst >> 7u64) & 0x1f < 32 && (inst >> 2u64) & 0x1f < 32) by (bit_vector);
        if funct3 == 0x0 {
            // c.slli: expands to slli rd, rd, shamt.
            let shamt = ((inst >> 7) & 0x20) | ((inst >> 2) & 0x1f);
            assert(((inst >> 7u64) & 0x20) | ((inst >> 2u64) & 0x1f) < 64) by (bit_vector);
            if rd != 0 {
                self.xregs.write(rd, self.xregs.read(rd) << shamt);
            }
        } else if funct3 == 0x1 {
            // c.fldsp: expands to fld rd, offset(x2).
            // offset[5|4:3|8:6] = inst[12|6:5|4:2]
            let offset = ((inst << 4) & 0x1c0) | ((inst >> 7) & 0x20) | ((inst >> 2) & 0x18);
            let val = self.read(self.xregs.read(2).wrapping_add(offset), DOUBLEWORD)?;
            self.fregs.write(rd, val);
        } else if funct3 == 0x2 {
            // c.lwsp: expands to lw rd, offset(x2).
            // offset[5|4:2|7:6] = inst[12|6:4|3:2]
            let offset = ((inst << 4) & 0xc0) | ((inst >> 7) & 0x20) | ((inst >> 2) & 0x1c);
            let val = self.read(self.xregs.read(2).wrapping_add(offset), WORD)?;
            self.xregs.write(rd, val as i32 as i64 as u64);
        } else if funct3 == 0x3 {
            // c.ldsp: expands to ld rd, offset(x2).
            let offset = ((inst << 4) & 0x1c0) | ((inst >> 7) & 0x20) | ((inst >> 2) & 0x18);
            let val = self.read(self.xregs.read(2).wrapping_add(offset), DOUBLEWORD)?;
            self.xregs.write(rd, val);
        } else if funct3 == 0x4 {
            let bit12 = (inst >> 12) & 0x1;
            if bit12 == 0 && rs2 == 0 {
                // c.jr: expands to jalr x0, 0(rs1).
                if rd != 0 {
                    self.pc = self.xregs.read(rd);
                }
            } else if bit12 == 0 {
                // c.mv: expands to add rd, x0, rs2.
                self.xregs.write(rd, self.xregs.read(rs2));
            } else if rs2 == 0 {
                if rd == 0 {
                    // c.ebreak: expands to ebreak.
                    return Err(Exception::Breakpoint);
                } else {
                    // c.jalr: expands to jalr x1, 0(rs1). Don't add 2 because the pc already
                    // moved on.
                    let t = self.pc;
                    self.pc = self.xregs.read(rd);
                    self.xregs.write(1, t);
                }
            } else {
                // c.add: expands to add rd, rd, rs2.
                self.xregs.write(rd, self.xregs.read(rd).wrapping_add(self.xregs.read(rs2)));
            }
        } else if funct3 == 0x5 {
            // c.fsdsp: expands to fsd rs2, offset(x2).
            // offset[5:3|8:6] = isnt[12:10|9:7]
            let offset = ((inst >> 1) & 0x1c0) | ((inst >> 7) & 0x38);
            let addr = self.xregs.read(2).wrapping_add(offset);
            let value = self.fregs.read(rs2);
            self.write(addr, value, DOUBLEWORD)?;
        } else if funct3 == 0x6 {
            // c.swsp: expands to sw rs2, offset(x2).
            // offset[5:2|7:6] = inst[12:9|8:7]
            let offset = ((inst >> 1) & 0xc0) | ((inst >> 7) & 0x3c);
            let addr = self.xregs.read(2).wrapping_add(offset);
            let value = self.xregs.read(rs2);
            self.write(addr, value, WORD)?;
        } else {
            // c.sdsp: expands to sd rs2, offset(x2).
            let offset = ((inst >> 1) & 0x1c0) | ((inst >> 7) & 0x38);
            let addr = self.xregs.read(2).wrapping_add(offset);
            let value = self.xregs.read(rs2);
            self.write(addr, value, DOUBLEWORD)?;
        }
        Ok(Executed::Instruction(inst))
    }
}

/// The R-type instruction with the given fields.
pub open spec fn r_type(f7: u64, r2: u64, r1: u64, f3: u64, d: u64, opc: u64) -> u64 {
    (f7 << 25u64) | (r2 << 20u64) | (r1 << 15u64) | (f3 << 12u64) | (d << 7u64) | opc
}

/// The fields of an R-type instruction are the ones it was built from.
proof fn lemma_r_type_fields(f7: u64, r2: u64, r1: u64, f3: u64, d: u64, opc: u64)
    requires
        f7 < 128,
        r2 < 32,
        r1 < 32,
        f3 < 8,
        d < 32,
        opc < 128,
    ensures
        funct7(r_type(f7, r2, r1, f3, d, opc)) == f7,
        rs2(r_type(f7, r2, r1, f3, d, opc)) == r2,
        rs1(r_type(f7, r2, r1, f3, d, opc)) == r1,
        funct3(r_type(f7, r2, r1, f3, d, opc)) == f3,
        rd(r_type(f7, r2, r1, f3, d, opc)) == d,
        opcode(r_type(f7, r2, r1, f3, d, opc)) == opc,
{
    assert({
        let i = r_type(f7, r2, r1, f3, d, opc);
        &&& funct7(i) == f7 && rs2(i) == r2 && rs1(i) == r1
        &&& funct3(i) == f3 && rd(i) == d && opcode(i) == opc
    }) by (bit_vector)
        requires
            f7 < 128,
            r2 < 32,
            r1 < 32,
            f3 < 8,
            d < 32,
            opc < 128,
    ;
}

/// The `add rd, rd, rs2` that c.add expands to.
pub open spec fn c_add_expansion(inst: u64) -> u64 {
    r_type(0, crs2(inst), crd(inst), 0, crd(inst), 0x33)
}

/// The `add rd, x0, rs2` that c.mv expands to.
pub open spec fn c_mv_expansion(inst: u64) -> u64 {
    r_type(0, crs2(inst), 0, 0, crd(inst), 0x33)
}

/// The `sub`, `xor`, `or` or `and rd', rd', rs2'` that c.sub, c.xor, c.or or c.and expands to,
/// as inst[6:5] selects.
pub open spec fn c_arith_expansion(inst: u64) -> u64 {
    let funct = (inst >> 5u64) & 0x3;
    let f3: u64 = if funct == 0 {
        0
    } else if funct == 1 {
        4
    } else if funct == 2 {
        6
    } else {
        7
    };
    let f7: u64 = if funct == 0 {
        0x20
    } else {
        0
    };
    r_type(f7, creg_low(inst), creg_high(inst), f3, creg_high(inst), 0x33)
}

/// The `addi rd, rd, imm` that c.addi expands to.
pub open spec fn c_addi_expansion(inst: u64) -> u64 {
    ((cimm6(inst) & 0xfff) << 20u64) | (crd(inst) << 15u64) | (crd(inst) << 7u64) | 0x13
}

/// The `addi rd, x0, imm` that c.li expands to.
pub open spec fn c_li_expansion(inst: u64) -> u64 {
    ((cimm6(inst) & 0xfff) << 20u64) | (crd(inst) << 7u64) | 0x13
}

/// The fields of the register-register expansions.
proof fn lemma_r_expansions(inst: u64)
    ensures
        rd(c_add_expansion(inst)) == crd(inst),
        rs1(c_add_expansion(inst)) == crd(inst),
        rs2(c_add_expansion(inst)) == crs2(inst),
        funct3(c_add_expansion(inst)) == 0,
        funct7(c_add_expansion(inst)) == 0,
        rd(c_mv_expansion(inst)) == crd(inst),
        rs1(c_mv_expansion(inst)) == 0,
        rs2(c_mv_expansion(inst)) == crs2(inst),
        funct3(c_mv_expansion(inst)) == 0,
        funct7(c_mv_expansion(inst)) == 0,
{
    lemma_compressed_fields(inst);
    lemma_r_type_fields(0, crs2(inst), crd(inst), 0, crd(inst), 0x33);
    lemma_r_type_fields(0, crs2(inst), 0, 0, crd(inst), 0x33);
}

/// The fields of the register-immediate expansions: the immediate is the sign-extended 6-bit
/// immediate of the compressed instruction.
proof fn lemma_i_expansions(inst: u64)
    ensures
        rd(c_addi_expansion(inst)) == crd(inst),
        rs1(c_addi_expansion(inst)) == crd(inst),
        funct3(c_addi_expansion(inst)) == 0,
        imm_i(c_addi_expansion(inst)) == cimm6(inst),
        rd(c_li_expansion(inst)) == crd(inst),
        rs1(c_li_expansion(inst)) == 0,
        funct3(c_li_expansion(inst)) == 0,
        imm_i(c_li_expansion(inst)) == cimm6(inst),
{
    assert({
        let a = c_addi_expansion(inst);
        let l = c_li_expansion(inst);
        &&& rd(a) == crd(inst) && rs1(a) == crd(inst) && funct3(a) == 0
        &&& imm_i(a) == cimm6(inst)
        &&& rd(l) == crd(inst) && rs1(l) == 0 && funct3(l) == 0
        &&& imm_i(l) == cimm6(inst)
    }) by (bit_vector);
}

/// c.add rd, rs2 does what the `add rd, rd, rs2` it expands to does.
pub proof fn law_c_add_expands(v: CpuView, inst: u64)
    requires
        (inst >> 13u64) & 0x7 == 4,
        (inst >> 12u64) & 1 == 1,
        crs2(inst) != 0,
        v.xregs.len() == 32,
    ensures
        quadrant2(v, inst).0 == step_op(v, c_add_expansion(inst)).0,
        quadrant2(v, inst).1 is Ok,
{
    lemma_r_expansions(inst);
    lemma_compressed_fields(inst);
}

/// c.mv rd, rs2 does what the `add rd, x0, rs2` it expands to does.
pub proof fn law_c_mv_expands(v: CpuView, inst: u64)
    requires
        (inst >> 13u64) & 0x7 == 4,
        (inst >> 12u64) & 1 == 0,
        crs2(inst) != 0,
        v.xregs.len() == 32,
        v.xregs[0] == 0,
    ensures
        quadrant2(v, inst).0 == step_op(v, c_mv_expansion(inst)).0,
        quadrant2(v, inst).1 is Ok,
{
    lemma_r_expansions(inst);
    lemma_compressed_fields(inst);
}

/// c.addi rd, imm (rd not x0) does what the `addi rd, rd, imm` it expands to does.
pub proof fn law_c_addi_expands(v: CpuView, inst: u64)
    requires
        (inst >> 13u64) & 0x7 == 0,
        crd(inst) != 0,
        v.xregs.len() == 32,
    ensures
        quadrant1(v, inst).0 == step_op_imm(v, c_addi_expansion(inst)).0,
        quadrant1(v, inst).1 is Ok,
{
    lemma_i_expansions(inst);
    lemma_compressed_fields(inst);
}

/// c.li rd, imm (rd not x0) does what the `addi rd, x0, imm` it expands to does.
pub proof fn law_c_li_expands(v: CpuView, inst: u64)
    requires
        (inst >> 13u64) & 0x7 == 2,
        crd(inst) != 0,
        v.xregs.len() == 32,
        v.xregs[0] == 0,
    ensures
        quadrant1(v, inst).0 == step_op_imm(v, c_li_expansion(inst)).0,
        quadrant1(v, inst).1 is Ok,
{
    lemma_i_expansions(inst);
    lemma_compressed_fields(inst);
}

/// c.sub, c.xor, c.or and c.and (rd', rs2') do what the `sub`, `xor`, `or` and `and rd', rd',
/// rs2'` they expand to do.
pub proof fn law_c_arith_expands(v: CpuView, inst: u64)
    requires
        (inst >> 13u64) & 0x7 == 4,
        (inst >> 10u64) & 0x3 == 3,
        (inst >> 12u64) & 0x1 == 0,
        v.xregs.len() == 32,
    ensures
        quadrant1(v, inst).0 == step_op(v, c_arith_expansion(inst)).0,
        quadrant1(v, inst).1 is Ok,
{
    lemma_compressed_fields(inst);
    let funct = (inst >> 5u64) & 0x3;
    assert(funct < 4) by {
        vstd::bits::lemma_u64_low_bits_mask_is_mod(inst >> 5u64, 2);
        vstd::bits::lemma_low_bits_mask_values();
        vstd::arithmetic::power2::lemma2_to64();
    }
    let f3: u64 = if funct == 0 {
        0
    } else if funct == 1 {
        4
    } else if funct == 2 {
        6
    } else {
        7
    };
    let f7: u64 = if funct == 0 {
        0x20
    } else {
        0
    };
    lemma_r_type_fields(f7, creg_low(inst), creg_high(inst), f3, creg_high(inst), 0x33);
}

/// c.sub rd', rs2' subtracts: x[rd'] becomes x[rd'] - x[rs2'] modulo 2^64, and nothing else
/// changes.
pub proof fn law_c_sub_subtracts(v: CpuView, inst: u64)
    requires
        (inst >> 13u64) & 0x7 == 4,
        (inst >> 10u64) & 0x3 == 3,
        (inst >> 12u64) & 0x1 == 0,
        (inst >> 5u64) & 0x3 == 0,
        v.xregs.len() == 32,
    ensures
        quadrant1(v, inst) == (set_x(
            v,
            creg_high(inst),
            ((x(v, creg_high(inst)) as int - x(v, creg_low(inst)) as int)
                % 0x1_0000_0000_0000_0000int) as u64,
        ), retired(inst)),
{
    lemma_compressed_fields(inst);
    let a = x(v, creg_high(inst));
    let b = x(v, creg_low(inst));
    if a >= b {
        vstd::arithmetic::div_mod::lemma_small_mod((a - b) as nat, 0x1_0000_0000_0000_0000nat);
    } else {
        vstd::arithmetic::div_mod::lemma_mod_add_multiples_vanish(
            a - b,
            0x1_0000_0000_0000_0000int,
        );
        vstd::arithmetic::div_mod::lemma_small_mod(
            (a - b + 0x1_0000_0000_0000_0000int) as nat,
            0x1_0000_0000_0000_0000nat,
        );
    }
}

} // verus!
