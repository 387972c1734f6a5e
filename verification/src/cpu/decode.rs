//! Decoding of 32-bit instructions: their fields and immediates, and the floating-point
//! operations that the host's floating-point unit carries out.

use vstd::prelude::*;

verus! {

/// The opcode of an instruction.
pub open spec fn opcode(inst: u64) -> u64 {
    inst & 0x7f
}

/// The destination register field, inst[11:7].
pub open spec fn rd(inst: u64) -> u64 {
    (inst & 0xf80) >> 7u64
}

/// The first source register field, inst[19:15].
pub open spec fn rs1(inst: u64) -> u64 {
    (inst & 0xf8000) >> 15u64
}

/// The second source register field, inst[24:20].
pub open spec fn rs2(inst: u64) -> u64 {
    (inst & 0x1f00000) >> 20u64
}

/// The third source register field of a fused multiply-add, inst[31:27].
pub open spec fn rs3(inst: u64) -> u64 {
    (inst & 0xf8000000) >> 27u64
}

/// The register fields name one of the 32 registers.
pub proof fn lemma_register_fields(inst: u64)
    ensures
        rd(inst) < 32,
        rs1(inst) < 32,
        rs2(inst) < 32,
        rs3(inst) < 32,
{
    assert((inst & 0xf80) >> 7u64 < 32 && (inst & 0xf8000) >> 15u64 < 32 && (inst & 0x1f00000)
        >> 20u64 < 32 && (inst & 0xf8000000) >> 27u64 < 32) by (bit_vector);
}

/// The funct3 field, inst[14:12].
pub open spec fn funct3(inst: u64) -> u64 {
    (inst & 0x7000) >> 12u64
}

/// The funct7 field, inst[31:25].
pub open spec fn funct7(inst: u64) -> u64 {
    (inst & 0xfe000000) >> 25u64
}

/// The I-type immediate: inst[31:20], sign-extended.
pub open spec fn imm_i(inst: u64) -> u64 {
    (((inst as i32) as i64) >> 20u64) as u64
}

/// The S-type immediate: inst[31:25|11:7], sign-extended.
pub open spec fn imm_s(inst: u64) -> u64 {
    ((((inst & 0xfe000000) as i32) as i64 >> 20u64) as u64) | ((inst >> 7u64) & 0x1f)
}

/// The B-type immediate: imm[12|10:5|4:1|11] = inst[31|30:25|11:8|7], sign-extended.
pub open spec fn imm_b(inst: u64) -> u64 {
    ((((inst & 0x80000000) as i32) as i64 >> 19u64) as u64) | ((inst & 0x80) << 4u64) | ((inst
        >> 20u64) & 0x7e0) | ((inst >> 7u64) & 0x1e)
}

/// The U-type immediate: inst[31:12] followed by 12 zero bits, sign-extended.
pub open spec fn imm_u(inst: u64) -> u64 {
    ((inst & 0xfffff000) as i32) as i64 as u64
}

/// The J-type immediate: imm[20|10:1|11|19:12] = inst[31|30:21|20|19:12], sign-extended.
pub open spec fn imm_j(inst: u64) -> u64 {
    ((((inst & 0x80000000) as i32) as i64 >> 11u64) as u64) | (inst & 0xff000) | ((inst >> 9u64)
        & 0x800) | ((inst >> 20u64) & 0x7fe)
}

/// The CSR address field, inst[31:20].
pub open spec fn csr_field(inst: u64) -> u64 {
    (inst >> 20u64) & 0xfff
}

/// The register fields of an instruction.
pub struct Fields {
    pub opcode: u64,
    pub rd: u64,
    pub rs1: u64,
    pub rs2: u64,
    pub funct3: u64,
    pub funct7: u64,
}

/// Decode the register fields of a 32-bit instruction.
pub fn fields(inst: u64) -> (f: Fields)
    ensures
        f.opcode == opcode(inst),
        f.rd == rd(inst),
        f.rs1 == rs1(inst),
        f.rs2 == rs2(inst),
        f.funct3 == funct3(inst),
        f.funct7 == funct7(inst),
        f.rd < 32,
        f.rs1 < 32,
        f.rs2 < 32,
        f.funct3 < 8,
        f.funct7 < 128,
{
    let f = Fields {
        opcode: inst & 0x0000007f,
        rd: (inst & 0x00000f80) >> 7,
        rs1: (inst & 0x000f8000) >> 15,
        rs2: (inst & 0x01f00000) >> 20,
        funct3: (inst & 0x00007000) >> 12,
        funct7: (inst & 0xfe000000) >> 25,
    };
    assert(rd(inst) < 32 && rs1(inst) < 32 && rs2(inst) < 32 && funct3(inst) < 8 && funct7(inst)
        < 128) by (bit_vector);
    f
}

/// The I-type immediate of an instruction.
pub fn imm_i_of(inst: u64) -> (r: u64)
    ensures
        r == imm_i(inst),
{
    ((inst as i32 as i64) >> 20) as u64
}

/// The S-type immediate of an instruction.
pub fn imm_s_of(inst: u64) -> (r: u64)
    ensures
        r == imm_s(inst),
{
    (((inst & 0xfe000000) as i32 as i64 >> 20) as u64) | ((inst >> 7) & 0x1f)
}

/// The B-type immediate of an instruction.
pub fn imm_b_of(inst: u64) -> (r: u64)
    ensures
        r == imm_b(inst),
{
    (((inst & 0x80000000) as i32 as i64 >> 19) as u64) | ((inst & 0x80) << 4) | ((inst >> 20)
        & 0x7e0) | ((inst >> 7) & 0x1e)
}

/// The U-type immediate of an instruction.
pub fn imm_u_of(inst: u64) -> (r: u64)
    ensures
        r == imm_u(inst),
{
    (inst & 0xfffff000) as i32 as i64 as u64
}

/// The J-type immediate of an instruction.
pub fn imm_j_of(inst: u64) -> (r: u64)
    ensures
        r == imm_j(inst),
{
    (((inst & 0x80000000) as i32 as i64 >> 11) as u64) | (inst & 0xff000) | ((inst >> 9) & 0x800)
        | ((inst >> 20) & 0x7fe)
}

/// A floating-point operation, carried out by the host's floating-point unit.
#[derive(Debug, Clone, Copy, PartialEq, Eq, Structural)]
pub enum FpOp {
    /// flw: the loaded word, in `data`, widened to double precision into f[rd].
    Flw,
    /// fsw: f[rs2] narrowed to single precision and stored at the address in `data`.
    Fsw,
    FmaddS,
    FmaddD,
    FmsubS,
    FmsubD,
    FnmaddS,
    FnmaddD,
    FnmsubS,
    FnmsubD,
    FaddS,
    FaddD,
    FsubS,
    FsubD,
    FmulS,
    FmulD,
    FdivS,
    FdivD,
    FsgnjS,
    FsgnjnS,
    FsgnjxS,
    FsgnjD,
    FsgnjnD,
    FminS,
    FmaxS,
    FminD,
    FmaxD,
    FcvtSD,
    FcvtDS,
    FsqrtS,
    FsqrtD,
    FleS,
    FltS,
    FeqS,
    FleD,
    FltD,
    FeqD,
    FcvtWS,
    FcvtWuS,
    FcvtLS,
    FcvtLuS,
    FcvtWD,
    FcvtWuD,
    FcvtLD,
    FcvtLuD,
    FcvtSW,
    FcvtSWu,
    FcvtSL,
    FcvtSLu,
    FcvtDW,
    FcvtDWu,
    FcvtDL,
    FcvtDLu,
    FclassS,
    FclassD,
    FmvWX,
}

/// A decoded floating-point instruction left to the host's floating-point unit.
#[derive(Debug, Clone, Copy, PartialEq, Eq, Structural)]
pub struct FpInstruction {
    pub op: FpOp,
    pub rd: u64,
    pub rs1: u64,
    pub rs2: u64,
    pub rs3: u64,
    /// The loaded word of `flw`, or the store address of `fsw`.
    pub data: u64,
}

/// What the execution of an instruction gives back.
#[derive(Debug, Clone, Copy, PartialEq, Eq, Structural)]
pub enum Executed {
    /// The instruction was executed; it is given back (0 when the hart is idle).
    Instruction(u64),
    /// The instruction was decoded, its integer side effects are done, and the host's
    /// floating-point unit has to carry out the operation.
    Float(FpInstruction),
}

/// The floating-point operation of a fused multiply-add (opcodes 0x43, 0x47, 0x4b and 0x4f) with
/// format field `funct2`; the other formats are not supported.
pub open spec fn fused_op(opcode: u64, funct2: u64) -> Option<FpOp> {
    if funct2 == 0 {
        if opcode == 0x43 {
            Some(FpOp::FmaddS)
        } else if opcode == 0x47 {
            Some(FpOp::FmsubS)
        } else if opcode == 0x4b {
            Some(FpOp::FnmaddS)
        } else {
            Some(FpOp::FnmsubS)
        }
    } else if funct2 == 1 {
        if opcode == 0x43 {
            Some(FpOp::FmaddD)
        } else if opcode == 0x47 {
            Some(FpOp::FmsubD)
        } else if opcode == 0x4b {
            Some(FpOp::FnmaddD)
        } else {
            Some(FpOp::FnmsubD)
        }
    } else {
        None
    }
}

/// The floating-point operation of an OP-FP instruction (opcode 0x53) that the host computes;
/// `None` for an encoding this emulator does not implement or computes itself (fsgnjx.d,
/// fmv.x.w, fmv.x.d and fmv.d.x only move bits).
pub open spec fn op_fp_op(funct7: u64, funct3: u64, rs2: u64) -> Option<FpOp> {
    if funct7 == 0x00 {
        Some(FpOp::FaddS)
    } else if funct7 == 0x01 {
        Some(FpOp::FaddD)
    } else if funct7 == 0x04 {
        Some(FpOp::FsubS)
    } else if funct7 == 0x05 {
        Some(FpOp::FsubD)
    } else if funct7 == 0x08 {
        Some(FpOp::FmulS)
    } else if funct7 == 0x09 {
        Some(FpOp::FmulD)
    } else if funct7 == 0x0c {
        Some(FpOp::FdivS)
    } else if funct7 == 0x0d {
        Some(FpOp::FdivD)
    } else if funct7 == 0x10 {
        if funct3 == 0 {
            Some(FpOp::FsgnjS)
        } else if funct3 == 1 {
            Some(FpOp::FsgnjnS)
        } else if funct3 == 2 {
            Some(FpOp::FsgnjxS)
        } else {
            None
        }
    } else if funct7 == 0x11 {
        if funct3 == 0 {
            Some(FpOp::FsgnjD)
        } else if funct3 == 1 {
            Some(FpOp::FsgnjnD)
        } else {
            None
        }
    } else if funct7 == 0x14 {
        if funct3 == 0 {
            Some(FpOp::FminS)
        } else if funct3 == 1 {
            Some(FpOp::FmaxS)
        } else {
            None
        }
    } else if funct7 == 0x15 {
        if funct3 == 0 {
            Some(FpOp::FminD)
        } else if funct3 == 1 {
            Some(FpOp::FmaxD)
        } else {
            None
        }
    } else if funct7 == 0x20 {
        Some(FpOp::FcvtSD)
    } else if funct7 == 0x21 {
        Some(FpOp::FcvtDS)
    } else if funct7 == 0x2c {
        Some(FpOp::FsqrtS)
    } else if funct7 == 0x2d {
        Some(FpOp::FsqrtD)
    } else if funct7 == 0x50 {
        if funct3 == 0 {
            Some(FpOp::FleS)
        } else if funct3 == 1 {
            Some(FpOp::FltS)
        } else if funct3 == 2 {
            Some(FpOp::FeqS)
        } else {
            None
        }
    } else if funct7 == 0x51 {
        if funct3 == 0 {
            Some(FpOp::FleD)
        } else if funct3 == 1 {
            Some(FpOp::FltD)
        } else if funct3 == 2 {
            Some(FpOp::FeqD)
        } else {
            None
        }
    } else if funct7 == 0x60 {
        if rs2 == 0 {
            Some(FpOp::FcvtWS)
        } else if rs2 == 1 {
            Some(FpOp::FcvtWuS)
        } else if rs2 == 2 {
            Some(FpOp::FcvtLS)
        } else if rs2 == 3 {
            Some(FpOp::FcvtLuS)
        } else {
            None
        }
    } else if funct7 == 0x61 {
        if rs2 == 0 {
            Some(FpOp::FcvtWD)
        } else if rs2 == 1 {
            Some(FpOp::FcvtWuD)
        } else if rs2 == 2 {
            Some(FpOp::FcvtLD)
        } else if rs2 == 3 {
            Some(FpOp::FcvtLuD)
        } else {
            None
        }
    } else if funct7 == 0x68 {
        if rs2 == 0 {
            Some(FpOp::FcvtSW)
        } else if rs2 == 1 {
            Some(FpOp::FcvtSWu)
        } else if rs2 == 2 {
            Some(FpOp::FcvtSL)
        } else if rs2 == 3 {
            Some(FpOp::FcvtSLu)
        } else {
            None
        }
    } else if funct7 == 0x69 {
        if rs2 == 0 {
            Some(FpOp::FcvtDW)
        } else if rs2 == 1 {
            Some(FpOp::FcvtDWu)
        } else if rs2 == 2 {
            Some(FpOp::FcvtDL)
        } else if rs2 == 3 {
            Some(FpOp::FcvtDLu)
        } else {
            None
        }
    } else if funct7 == 0x70 && funct3 == 1 {
        Some(FpOp::FclassS)
    } else if funct7 == 0x71 && funct3 == 1 {
        Some(FpOp::FclassD)
    } else if funct7 == 0x78 {
        Some(FpOp::FmvWX)
    } else {
        None
    }
}

/// Decode the operation of a fused multiply-add.
pub fn decode_fused(opcode: u64, funct2: u64) -> (r: Option<FpOp>)
    ensures
        r == fused_op(opcode, funct2),
{
    if funct2 == 0 {
        if opcode == 0x43 {
            Some(FpOp::FmaddS)
        } else if opcode == 0x47 {
            Some(FpOp::FmsubS)
        } else if opcode == 0x4b {
            Some(FpOp::FnmaddS)
        } else {
            Some(FpOp::FnmsubS)
        }
    } else if funct2 == 1 {
        if opcode == 0x43 {
            Some(FpOp::FmaddD)
        } else if opcode == 0x47 {
            Some(FpOp::FmsubD)
        } else if opcode == 0x4b {
            Some(FpOp::FnmaddD)
        } else {
            Some(FpOp::FnmsubD)
        }
    } else {
        None
    }
}

/// Decode the operation of an OP-FP instruction that the host computes.
pub fn decode_op_fp(funct7: u64, funct3: u64, rs2: u64) -> (r: Option<FpOp>)
    ensures
        r == op_fp_op(funct7, funct3, rs2),
{
    if funct7 == 0x00 {
        Some(FpOp::FaddS)
    } else if funct7 == 0x01 {
        Some(FpOp::FaddD)
    } else if funct7 == 0x04 {
        Some(FpOp::FsubS)
    } else if funct7 == 0x05 {
        Some(FpOp::FsubD)
    } else if funct7 == 0x08 {
        Some(FpOp::FmulS)
    } else if funct7 == 0x09 {
        Some(FpOp::FmulD)
    } else if funct7 == 0x0c {
        Some(FpOp::FdivS)
    } else if funct7 == 0x0d {
        Some(FpOp::FdivD)
    } else if funct7 == 0x10 {
        if funct3 == 0 {
            Some(FpOp::FsgnjS)
        } else if funct3 == 1 {
            Some(FpOp::FsgnjnS)
        } else if funct3 == 2 {
            Some(FpOp::FsgnjxS)
        } else {
            None
        }
    } else if funct7 == 0x11 {
        if funct3 == 0 {
            Some(FpOp::FsgnjD)
        } else if funct3 == 1 {
            Some(FpOp::FsgnjnD)
        } else {
            None
        }
    } else if funct7 == 0x14 {
        if funct3 == 0 {
            Some(FpOp::FminS)
        } else if funct3 == 1 {
            Some(FpOp::FmaxS)
        } else {
            None
        }
    } else if funct7 == 0x15 {
        if funct3 == 0 {
            Some(FpOp::FminD)
        } else if funct3 == 1 {
            Some(FpOp::FmaxD)
        } else {
            None
        }
    } else if funct7 == 0x20 {
        Some(FpOp::FcvtSD)
    } else if funct7 == 0x21 {
        Some(FpOp::FcvtDS)
    } else if funct7 == 0x2c {
        Some(FpOp::FsqrtS)
    } else if funct7 == 0x2d {
        Some(FpOp::FsqrtD)
    } else if funct7 == 0x50 {
        if funct3 == 0 {
            Some(FpOp::FleS)
        } else if funct3 == 1 {
            Some(FpOp::FltS)
        } else if funct3 == 2 {
            Some(FpOp::FeqS)
        } else {
            None
        }
    } else if funct7 == 0x51 {
        if funct3 == 0 {
            Some(FpOp::FleD)
        } else if funct3 == 1 {
            Some(FpOp::FltD)
        } else if funct3 == 2 {
            Some(FpOp::FeqD)
        } else {
            None
        }
    } else if funct7 == 0x60 {
        if rs2 == 0 {
            Some(FpOp::FcvtWS)
        } else if rs2 == 1 {
            Some(FpOp::FcvtWuS)
        } else if rs2 == 2 {
            Some(FpOp::FcvtLS)
        } else if rs2 == 3 {
            Some(FpOp::FcvtLuS)
        } else {
            None
        }
    } else if funct7 == 0x61 {
        if rs2 == 0 {
            Some(FpOp::FcvtWD)
        } else if rs2 == 1 {
            Some(FpOp::FcvtWuD)
        } else if rs2 == 2 {
            Some(FpOp::FcvtLD)
        } else if rs2 == 3 {
            Some(FpOp::FcvtLuD)
        } else {
            None
        }
    } else if funct7 == 0x68 {
        if rs2 == 0 {
            Some(FpOp::FcvtSW)
        } else if rs2 == 1 {
            Some(FpOp::FcvtSWu)
        } else if rs2 == 2 {
            Some(FpOp::FcvtSL)
        } else if rs2 == 3 {
            Some(FpOp::FcvtSLu)
        } else {
            None
        }
    } else if funct7 == 0x69 {
        if rs2 == 0 {
            Some(FpOp::FcvtDW)
        } else if rs2 == 1 {
            Some(FpOp::FcvtDWu)
        } else if rs2 == 2 {
            Some(FpOp::FcvtDL)
        } else if rs2 == 3 {
            Some(FpOp::FcvtDLu)
        } else {
            None
        }
    } else if funct7 == 0x70 && funct3 == 1 {
        Some(FpOp::FclassS)
    } else if funct7 == 0x71 && funct3 == 1 {
        Some(FpOp::FclassD)
    } else if funct7 == 0x78 {
        Some(FpOp::FmvWX)
    } else {
        None
    }
}

} // verus!
