//! The integer computations of the RV64I, RV64M and RV64A instructions, on register values.

use vstd::prelude::*;

use crate::le::{BYTE, DOUBLEWORD, HALFWORD, WORD};

verus! {

/// `v` with its low 32 bits sign-extended to 64 bits.
pub open spec fn sext32(v: u64) -> u64 {
    (v as i32) as i64 as u64
}

/// The result of an OP-IMM instruction (opcode 0x13) with the given funct3 and funct6 fields
/// on the value `a` of rs1; `imm` is the I-type immediate and `shamt` the 6-bit shift amount.
pub open spec fn op_imm_spec(funct3: u64, funct6: u64, imm: u64, shamt: u64, a: u64) -> Option<u64> {
    if funct3 == 0 {
        // addi
        Some(a.wrapping_add(imm))
    } else if funct3 == 1 {
        // slli
        Some(a << shamt)
    } else if funct3 == 2 {
        // slti
        Some(if (a as i64) < (imm as i64) { 1 } else { 0 })
    } else if funct3 == 3 {
        // sltiu
        Some(if a < imm { 1 } else { 0 })
    } else if funct3 == 4 {
        // xori
        Some(a ^ imm)
    } else if funct3 == 5 {
        if funct6 == 0x00 {
            // srli
            Some(a >> shamt)
        } else if funct6 == 0x10 {
            // srai
            Some(((a as i64) >> shamt) as u64)
        } else {
            None
        }
    } else if funct3 == 6 {
        // ori
        Some(a | imm)
    } else if funct3 == 7 {
        // andi
        Some(a & imm)
    } else {
        None
    }
}

/// Compute an OP-IMM instruction.
pub fn op_imm(funct3: u64, funct6: u64, imm: u64, shamt: u64, a: u64) -> (r: Option<u64>)
    requires
        shamt < 64,
    ensures
        r == op_imm_spec(funct3, funct6, imm, shamt, a),
{
    if funct3 == 0 {
        Some(a.wrapping_add(imm))
    } else if funct3 == 1 {
        Some(a << shamt)
    } else if funct3 == 2 {
        Some(
            if (a as i64) < (imm as i64) {
                1
            } else {
                0
            },
        )
    } else if funct3 == 3 {
        Some(
            if a < imm {
                1
            } else {
                0
            },
        )
    } else if funct3 == 4 {
        Some(a ^ imm)
    } else if funct3 == 5 {
        if funct6 == 0x00 {
            Some(a >> shamt)
        } else if funct6 == 0x10 {
            Some(((a as i64) >> shamt) as u64)
        } else {
            None
        }
    } else if funct3 == 6 {
        Some(a | imm)
    } else if funct3 == 7 {
        Some(a & imm)
    } else {
        None
    }
}

/// Signed division of 64-bit values: "The quotient of division by zero has all bits set" and
/// "the quotient of a signed division with overflow is equal to the dividend"; otherwise the
/// quotient is rounded towards zero.
pub open spec fn div_spec(a: u64, b: u64) -> u64 {
    let x = a as i64;
    let y = b as i64;
    if y == 0 {
        u64::MAX
    } else if x == i64::MIN && y == -1 {
        x as u64
    } else {
        match x.checked_div(y) {
            Some(q) => q as u64,
            None => 0,
        }
    }
}

/// Signed remainder of 64-bit values: "the remainder of division by zero equals the dividend"
/// and the remainder of a division with overflow is zero.
pub open spec fn rem_spec(a: u64, b: u64) -> u64 {
    let x = a as i64;
    let y = b as i64;
    if y == 0 {
        x as u64
    } else if x == i64::MIN && y == -1 {
        0
    } else {
        match x.checked_rem(y) {
            Some(q) => q as u64,
            None => 0,
        }
    }
}

/// The result of an OP instruction (opcode 0x33) with the given funct3 and funct7 fields on
/// the values `a` of rs1 and `b` of rs2 (RV64I and RV64M).
pub open spec fn op_spec(funct3: u64, funct7: u64, a: u64, b: u64) -> Option<u64> {
    if funct3 == 0 && funct7 == 0x00 {
        // add
        Some(a.wrapping_add(b))
    } else if funct3 == 0 && funct7 == 0x01 {
        // mul
        Some(((a as i64).wrapping_mul(b as i64)) as u64)
    } else if funct3 == 0 && funct7 == 0x20 {
        // sub
        Some(a.wrapping_sub(b))
    } else if funct3 == 1 && funct7 == 0x00 {
        // sll: only the low 6 bits of rs2 are the shift amount
        Some(a << (b & 0x3f))
    } else if funct3 == 1 && funct7 == 0x01 {
        // mulh: signed × signed, upper half
        Some((((a as i64) as i128).wrapping_mul((b as i64) as i128) >> 64u64) as u64)
    } else if funct3 == 2 && funct7 == 0x00 {
        // slt
        Some(if (a as i64) < (b as i64) { 1 } else { 0 })
    } else if funct3 == 2 && funct7 == 0x01 {
        // mulhsu: signed × unsigned, upper half
        Some(((((a as i64) as i128) as u128).wrapping_mul(b as u128) >> 64u64) as u64)
    } else if funct3 == 3 && funct7 == 0x00 {
        // sltu
        Some(if a < b { 1 } else { 0 })
    } else if funct3 == 3 && funct7 == 0x01 {
        // mulhu: unsigned × unsigned, upper half
        Some(((a as u128).wrapping_mul(b as u128) >> 64u64) as u64)
    } else if funct3 == 4 && funct7 == 0x00 {
        // xor
        Some(a ^ b)
    } else if funct3 == 4 && funct7 == 0x01 {
        // div
        Some(div_spec(a, b))
    } else if funct3 == 5 && funct7 == 0x00 {
        // srl
        Some(a >> (b & 0x3f))
    } else if funct3 == 5 && funct7 == 0x01 {
        // divu
        Some(
            if b == 0 {
                u64::MAX
            } else {
                a / b
            },
        )
    } else if funct3 == 5 && funct7 == 0x20 {
        // sra
        Some(((a as i64) >> (b & 0x3f)) as u64)
    } else if funct3 == 6 && funct7 == 0x00 {
        // or
        Some(a | b)
    } else if funct3 == 6 && funct7 == 0x01 {
        // rem
        Some(rem_spec(a, b))
    } else if funct3 == 7 && funct7 == 0x00 {
        // and
        Some(a & b)
    } else if funct3 == 7 && funct7 == 0x01 {
        // remu
        Some(
            if b == 0 {
                a
            } else {
                a % b
            },
        )
    } else {
        None
    }
}

/// An OP instruction that divides by zero: div or divu with rs2 holding zero. Such a division
/// sets the DZ (divide by zero) flag of `fcsr`.
pub open spec fn op_divides_by_zero(funct3: u64, funct7: u64, b: u64) -> bool {
    funct7 == 0x01 && (funct3 == 4 || funct3 == 5) && b == 0
}

/// Compute an OP instruction.
pub fn op(funct3: u64, funct7: u64, a: u64, b: u64) -> (r: Option<u64>)
    ensures
        r == op_spec(funct3, funct7, a, b),
{
    if funct3 == 0 && funct7 == 0x00 {
        Some(a.wrapping_add(b))
    } else if funct3 == 0 && funct7 == 0x01 {
        Some(((a as i64).wrapping_mul(b as i64)) as u64)
    } else if funct3 == 0 && funct7 == 0x20 {
        Some(a.wrapping_sub(b))
    } else if funct3 == 1 && funct7 == 0x00 {
        // "SLL, SRL, and SRA perform logical left, logical right, and arithmetic right shifts on
        // the value in register rs1 by the shift amount held in register rs2. In RV64I, only the
        // low 6 bits of rs2 are considered for the shift amount."
        let shamt = b & 0x3f;
        assert(b & 0x3f < 64) by (bit_vector);
        Some(a << shamt)
    } else if funct3 == 1 && funct7 == 0x01 {
        Some((((a as i64) as i128).wrapping_mul((b as i64) as i128) >> 64) as u64)
    } else if funct3 == 2 && funct7 == 0x00 {
        Some(
            if (a as i64) < (b as i64) {
                1
            } else {
                0
            },
        )
    } else if funct3 == 2 && funct7 == 0x01 {
        Some(((((a as i64) as i128) as u128).wrapping_mul(b as u128) >> 64) as u64)
    } else if funct3 == 3 && funct7 == 0x00 {
        Some(
            if a < b {
                1
            } else {
                0
            },
        )
    } else if funct3 == 3 && funct7 == 0x01 {
        Some(((a as u128).wrapping_mul(b as u128) >> 64) as u64)
    } else if funct3 == 4 && funct7 == 0x00 {
        Some(a ^ b)
    } else if funct3 == 4 && funct7 == 0x01 {
        Some(div(a, b))
    } else if funct3 == 5 && funct7 == 0x00 {
        let shamt = b & 0x3f;
        assert(b & 0x3f < 64) by (bit_vector);
        Some(a >> shamt)
    } else if funct3 == 5 && funct7 == 0x01 {
        Some(
            if b == 0 {
                u64::MAX
            } else {
                a / b
            },
        )
    } else if funct3 == 5 && funct7 == 0x20 {
        let shamt = b & 0x3f;
        assert(b & 0x3f < 64) by (bit_vector);
        Some(((a as i64) >> shamt) as u64)
    } else if funct3 == 6 && funct7 == 0x00 {
        Some(a | b)
    } else if funct3 == 6 && funct7 == 0x01 {
        Some(rem(a, b))
    } else if funct3 == 7 && funct7 == 0x00 {
        Some(a & b)
    } else if funct3 == 7 && funct7 == 0x01 {
        Some(
            if b == 0 {
                a
            } else {
                a % b
            },
        )
    } else {
        None
    }
}

/// Signed division of 64-bit values.
pub fn div(a: u64, b: u64) -> (r: u64)
    ensures
        r == div_spec(a, b),
{
    let x = a as i64;
    let y = b as i64;
    if y == 0 {
        u64::MAX
    } else if x == i64::MIN && y == -1 {
        x as u64
    } else {
        match x.checked_div(y) {
            Some(q) => q as u64,
            None => 0,
        }
    }
}

/// Signed remainder of 64-bit values.
pub fn rem(a: u64, b: u64) -> (r: u64)
    ensures
        r == rem_spec(a, b),
{
    let x = a as i64;
    let y = b as i64;
    if y == 0 {
        x as u64
    } else if x == i64::MIN && y == -1 {
        0
    } else {
        match x.checked_rem(y) {
            Some(q) => q as u64,
            None => 0,
        }
    }
}

/// The result of an OP-IMM-32 instruction (opcode 0x1b) with the given funct3 and funct7 fields
/// on the value `a` of rs1; `imm` is the I-type immediate. "SLLIW, SRLIW, and SRAIW encodings
/// with imm[5] != 0 are reserved": the shift amount is the low 5 bits of the immediate.
pub open spec fn op_imm32_spec(funct3: u64, funct7: u64, imm: u64, a: u64) -> Option<u64> {
    let shamt = (imm & 0x1f) as u32;
    if funct3 == 0 {
        // addiw
        Some(sext32(a.wrapping_add(imm)))
    } else if funct3 == 1 {
        // slliw
        Some(sext32(a << shamt))
    } else if funct3 == 5 && funct7 == 0x00 {
        // srliw
        Some((((a as u32) >> shamt) as i32) as i64 as u64)
    } else if funct3 == 5 && funct7 == 0x20 {
        // sraiw
        Some((((a as i32) >> shamt) as i64) as u64)
    } else {
        None
    }
}

/// Compute an OP-IMM-32 instruction.
pub fn op_imm32(funct3: u64, funct7: u64, imm: u64, a: u64) -> (r: Option<u64>)
    ensures
        r == op_imm32_spec(funct3, funct7, imm, a),
{
    let shamt = (imm & 0x1f) as u32;
    assert((imm & 0x1f) < 32) by (bit_vector);
    if funct3 == 0 {
        Some(a.wrapping_add(imm) as i32 as i64 as u64)
    } else if funct3 == 1 {
        Some((a << shamt) as i32 as i64 as u64)
    } else if funct3 == 5 && funct7 == 0x00 {
        Some(((a as u32) >> shamt) as i32 as i64 as u64)
    } else if funct3 == 5 && funct7 == 0x20 {
        Some(((a as i32) >> shamt) as i64 as u64)
    } else {
        None
    }
}

/// Signed division of 32-bit values, the quotient sign-extended.
pub open spec fn divw_spec(a: u64, b: u64) -> u64 {
    let x = a as i32;
    let y = b as i32;
    if y == 0 {
        u64::MAX
    } else if x == i32::MIN && y == -1 {
        x as i64 as u64
    } else {
        match x.checked_div(y) {
            Some(q) => q as i64 as u64,
            None => 0,
        }
    }
}

/// Signed remainder of 32-bit values, sign-extended.
pub open spec fn remw_spec(a: u64, b: u64) -> u64 {
    let x = a as i32;
    let y = b as i32;
    if y == 0 {
        x as i64 as u64
    } else if x == i32::MIN && y == -1 {
        0
    } else {
        match x.checked_rem(y) {
            Some(q) => q as i64 as u64,
            None => 0,
        }
    }
}

/// The result of an OP-32 instruction (opcode 0x3b) with the given funct3 and funct7 fields on
/// the values `a` of rs1 and `b` of rs2 (RV64I and RV64M). The shift amount is rs2[4:0].
pub open spec fn op32_spec(funct3: u64, funct7: u64, a: u64, b: u64) -> Option<u64> {
    if funct3 == 0 && funct7 == 0x00 {
        // addw
        Some(sext32(a.wrapping_add(b)))
    } else if funct3 == 0 && funct7 == 0x01 {
        // mulw
        Some(((a as i32).wrapping_mul(b as i32)) as i64 as u64)
    } else if funct3 == 0 && funct7 == 0x20 {
        // subw
        Some((a.wrapping_sub(b) as i32) as u64)
    } else if funct3 == 1 && funct7 == 0x00 {
        // sllw
        Some(sext32(a << (b & 0x1f)))
    } else if funct3 == 4 && funct7 == 0x01 {
        // divw
        Some(divw_spec(a, b))
    } else if funct3 == 5 && funct7 == 0x00 {
        // srlw
        Some((((a as u32) >> (b & 0x1f)) as i32) as i64 as u64)
    } else if funct3 == 5 && funct7 == 0x01 {
        // divuw
        Some(
            if (b as u32) == 0 {
                u64::MAX
            } else {
                (((a as u32) / (b as u32)) as i32) as i64 as u64
            },
        )
    } else if funct3 == 5 && funct7 == 0x20 {
        // sraw
        Some((((a as i32) >> (b & 0x1f)) as i64) as u64)
    } else if funct3 == 6 && funct7 == 0x01 {
        // remw
        Some(remw_spec(a, b))
    } else if funct3 == 7 && funct7 == 0x01 {
        // remuw
        Some(
            if (b as u32) == 0 {
                (a as u32) as u64
            } else {
                (((a as u32) % (b as u32)) as i32) as i64 as u64
            },
        )
    } else {
        None
    }
}

/// An OP-32 instruction that divides by zero: divw or divuw with the low word of rs2 zero.
pub open spec fn op32_divides_by_zero(funct3: u64, funct7: u64, b: u64) -> bool {
    funct7 == 0x01 && ((funct3 == 4 && (b as i32) == 0) || (funct3 == 5 && (b as u32) == 0))
}

/// Compute an OP-32 instruction.
pub fn op32(funct3: u64, funct7: u64, a: u64, b: u64) -> (r: Option<u64>)
    ensures
        r == op32_spec(funct3, funct7, a, b),
{
    let shamt = b & 0x1f;
    assert(b & 0x1f < 32) by (bit_vector);
    if funct3 == 0 && funct7 == 0x00 {
        Some(a.wrapping_add(b) as i32 as i64 as u64)
    } else if funct3 == 0 && funct7 == 0x01 {
        let n1 = a as i32;
        let n2 = b as i32;
        Some(n1.wrapping_mul(n2) as i64 as u64)
    } else if funct3 == 0 && funct7 == 0x20 {
        Some((a.wrapping_sub(b) as i32) as u64)
    } else if funct3 == 1 && funct7 == 0x00 {
        Some((a << shamt) as i32 as i64 as u64)
    } else if funct3 == 4 && funct7 == 0x01 {
        let x = a as i32;
        let y = b as i32;
        Some(
            if y == 0 {
                u64::MAX
            } else if x == i32::MIN && y == -1 {
                x as i64 as u64
            } else {
                match x.checked_div(y) {
                    Some(q) => q as i64 as u64,
                    None => 0,
                }
            },
        )
    } else if funct3 == 5 && funct7 == 0x00 {
        Some(((a as u32) >> shamt) as i32 as i64 as u64)
    } else if funct3 == 5 && funct7 == 0x01 {
        let x = a as u32;
        let y = b as u32;
        Some(
            if y == 0 {
                u64::MAX
            } else {
                (x / y) as i32 as i64 as u64
            },
        )
    } else if funct3 == 5 && funct7 == 0x20 {
        Some(((a as i32) >> shamt) as i64 as u64)
    } else if funct3 == 6 && funct7 == 0x01 {
        let x = a as i32;
        let y = b as i32;
        Some(
            if y == 0 {
                x as i64 as u64
            } else if x == i32::MIN && y == -1 {
                0
            } else {
                match x.checked_rem(y) {
                    Some(q) => q as i64 as u64,
                    None => 0,
                }
            },
        )
    } else if funct3 == 7 && funct7 == 0x01 {
        let x = a as u32;
        let y = b as u32;
        Some(
            if y == 0 {
                x as u64
            } else {
                (x % y) as i32 as i64 as u64
            },
        )
    } else {
        None
    }
}

/// Whether a branch (opcode 0x63) with the given funct3 field is taken on the values `a` of rs1
/// and `b` of rs2; `None` for an encoding that is not a branch.
pub open spec fn branch_spec(funct3: u64, a: u64, b: u64) -> Option<bool> {
    if funct3 == 0 {
        // beq
        Some(a == b)
    } else if funct3 == 1 {
        // bne
        Some(a != b)
    } else if funct3 == 4 {
        // blt
        Some((a as i64) < (b as i64))
    } else if funct3 == 5 {
        // bge
        Some((a as i64) >= (b as i64))
    } else if funct3 == 6 {
        // bltu
        Some(a < b)
    } else if funct3 == 7 {
        // bgeu
        Some(a >= b)
    } else {
        None
    }
}

/// Decide a branch.
pub fn branch(funct3: u64, a: u64, b: u64) -> (r: Option<bool>)
    ensures
        r == branch_spec(funct3, a, b),
{
    if funct3 == 0 {
        Some(a == b)
    } else if funct3 == 1 {
        Some(a != b)
    } else if funct3 == 4 {
        Some((a as i64) < (b as i64))
    } else if funct3 == 5 {
        Some((a as i64) >= (b as i64))
    } else if funct3 == 6 {
        Some(a < b)
    } else if funct3 == 7 {
        Some(a >= b)
    } else {
        None
    }
}

/// The access size of a load (opcode 0x03) with the given funct3 field: lb/lbu, lh/lhu,
/// lw/lwu and ld.
pub open spec fn load_size(funct3: u64) -> Option<u8> {
    if funct3 == 0 || funct3 == 4 {
        Some(BYTE)
    } else if funct3 == 1 || funct3 == 5 {
        Some(HALFWORD)
    } else if funct3 == 2 || funct3 == 6 {
        Some(WORD)
    } else if funct3 == 3 {
        Some(DOUBLEWORD)
    } else {
        None
    }
}

/// The register value a load with the given funct3 field gives for the loaded data: lb, lh and
/// lw sign-extend it, the others take it as it is.
pub open spec fn load_extend(funct3: u64, val: u64) -> u64 {
    if funct3 == 0 {
        (val as i8) as i64 as u64
    } else if funct3 == 1 {
        (val as i16) as i64 as u64
    } else if funct3 == 2 {
        (val as i32) as i64 as u64
    } else {
        val
    }
}

/// The access size of a load.
pub fn load_size_of(funct3: u64) -> (r: Option<u8>)
    ensures
        r == load_size(funct3),
{
    if funct3 == 0 || funct3 == 4 {
        Some(BYTE)
    } else if funct3 == 1 || funct3 == 5 {
        Some(HALFWORD)
    } else if funct3 == 2 || funct3 == 6 {
        Some(WORD)
    } else if funct3 == 3 {
        Some(DOUBLEWORD)
    } else {
        None
    }
}

/// Extend loaded data to a register value.
pub fn extend_load(funct3: u64, val: u64) -> (r: u64)
    ensures
        r == load_extend(funct3, val),
{
    if funct3 == 0 {
        val as i8 as i64 as u64
    } else if funct3 == 1 {
        val as i16 as i64 as u64
    } else if funct3 == 2 {
        val as i32 as i64 as u64
    } else {
        val
    }
}

/// The access size of a store (opcode 0x23) with the given funct3 field: sb, sh, sw and sd.
pub open spec fn store_size(funct3: u64) -> Option<u8> {
    if funct3 == 0 {
        Some(BYTE)
    } else if funct3 == 1 {
        Some(HALFWORD)
    } else if funct3 == 2 {
        Some(WORD)
    } else if funct3 == 3 {
        Some(DOUBLEWORD)
    } else {
        None
    }
}

/// The access size of a store.
pub fn store_size_of(funct3: u64) -> (r: Option<u8>)
    ensures
        r == store_size(funct3),
{
    if funct3 == 0 {
        Some(BYTE)
    } else if funct3 == 1 {
        Some(HALFWORD)
    } else if funct3 == 2 {
        Some(WORD)
    } else if funct3 == 3 {
        Some(DOUBLEWORD)
    } else {
        None
    }
}

/// The value an atomic memory operation (opcode 0x2f) with the given funct3 (2 for words, 3 for
/// doublewords) and funct5 fields stores, for the loaded value `t` and the value `b` of rs2;
/// `None` for an encoding that is not an AMO (load-reserved and store-conditional included).
pub open spec fn amo_spec(funct3: u64, funct5: u64, t: u64, b: u64) -> Option<u64> {
    if funct3 == 2 {
        if funct5 == 0x00 {
            // amoadd.w
            Some(t.wrapping_add(b))
        } else if funct5 == 0x01 {
            // amoswap.w
            Some(b)
        } else if funct5 == 0x04 {
            // amoxor.w
            Some(((t as i32) ^ (b as i32)) as i64 as u64)
        } else if funct5 == 0x08 {
            // amoor.w
            Some(((t as i32) | (b as i32)) as i64 as u64)
        } else if funct5 == 0x0c {
            // amoand.w
            Some(((t as i32) & (b as i32)) as u32 as u64)
        } else if funct5 == 0x10 {
            // amomin.w
            Some(if (t as i32) < (b as i32) { t as i32 } else { b as i32 } as i64 as u64)
        } else if funct5 == 0x14 {
            // amomax.w
            Some(if (t as i32) > (b as i32) { t as i32 } else { b as i32 } as i64 as u64)
        } else if funct5 == 0x18 {
            // amominu.w
            Some(if (t as u32) < (b as u32) { t as u32 } else { b as u32 } as u64)
        } else if funct5 == 0x1c {
            // amomaxu.w
            Some(if (t as u32) > (b as u32) { t as u32 } else { b as u32 } as u64)
        } else {
            None
        }
    } else if funct3 == 3 {
        if funct5 == 0x00 {
            // amoadd.d
            Some(t.wrapping_add(b))
        } else if funct5 == 0x01 {
            // amoswap.d
            Some(b)
        } else if funct5 == 0x04 {
            // amoxor.d
            Some(t ^ b)
        } else if funct5 == 0x08 {
            // amoor.d
            Some(t | b)
        } else if funct5 == 0x0c {
            // amoand.d
            Some(t & b)
        } else if funct5 == 0x10 {
            // amomin.d
            Some(if (t as i64) < (b as i64) { t } else { b })
        } else if funct5 == 0x14 {
            // amomax.d
            Some(if (t as i64) > (b as i64) { t } else { b })
        } else if funct5 == 0x18 {
            // amominu.d
            Some(if t < b { t } else { b })
        } else if funct5 == 0x1c {
            // amomaxu.d
            Some(if t > b { t } else { b })
        } else {
            None
        }
    } else {
        None
    }
}

/// Compute the value an atomic memory operation stores.
pub fn amo(funct3: u64, funct5: u64, t: u64, b: u64) -> (r: Option<u64>)
    ensures
        r == amo_spec(funct3, funct5, t, b),
{
    if funct3 == 2 {
        if funct5 == 0x00 {
            Some(t.wrapping_add(b))
        } else if funct5 == 0x01 {
            Some(b)
        } else if funct5 == 0x04 {
            Some(((t as i32) ^ (b as i32)) as i64 as u64)
        } else if funct5 == 0x08 {
            Some(((t as i32) | (b as i32)) as i64 as u64)
        } else if funct5 == 0x0c {
            Some(((t as i32) & (b as i32)) as u32 as u64)
        } else if funct5 == 0x10 {
            Some(
                if (t as i32) < (b as i32) {
                    t as i32
                } else {
                    b as i32
                } as i64 as u64,
            )
        } else if funct5 == 0x14 {
            Some(
                if (t as i32) > (b as i32) {
                    t as i32
                } else {
                    b as i32
                } as i64 as u64,
            )
        } else if funct5 == 0x18 {
            Some(
                if (t as u32) < (b as u32) {
                    t as u32
                } else {
                    b as u32
                } as u64,
            )
        } else if funct5 == 0x1c {
            Some(
                if (t as u32) > (b as u32) {
                    t as u32
                } else {
                    b as u32
                } as u64,
            )
        } else {
            None
        }
    } else if funct3 == 3 {
        if funct5 == 0x00 {
            Some(t.wrapping_add(b))
        } else if funct5 == 0x01 {
            Some(b)
        } else if funct5 == 0x04 {
            Some(t ^ b)
        } else if funct5 == 0x08 {
            Some(t | b)
        } else if funct5 == 0x0c {
            Some(t & b)
        } else if funct5 == 0x10 {
            Some(
                if (t as i64) < (b as i64) {
                    t
                } else {
                    b
                },
            )
        } else if funct5 == 0x14 {
            Some(
                if (t as i64) > (b as i64) {
                    t
                } else {
                    b
                },
            )
        } else if funct5 == 0x18 {
            Some(
                if t < b {
                    t
                } else {
                    b
                },
            )
        } else if funct5 == 0x1c {
            Some(
                if t > b {
                    t
                } else {
                    b
                },
            )
        } else {
            None
        }
    } else {
        None
    }
}

/// mulhu (funct3 3, funct7 1) gives the high 64 bits of the unsigned 128-bit product of its
/// operands.
pub proof fn law_mulhu_high_product(a: u64, b: u64)
    ensures
        op_spec(3, 1, a, b) == Some(((a as nat * b as nat) / 0x1_0000_0000_0000_0000nat) as u64),
        (a as nat * b as nat) / 0x1_0000_0000_0000_0000nat <= u64::MAX,
{
    let p: nat = a as nat * b as nat;
    assert(p <= 0xffff_ffff_ffff_ffffnat * 0xffff_ffff_ffff_ffffnat) by (nonlinear_arith)
        requires
            a <= 0xffff_ffff_ffff_ffffu64,
            b <= 0xffff_ffff_ffff_ffffu64,
            p == a as nat * b as nat,
    ;
    let w = (a as u128).wrapping_mul(b as u128);
    assert(p < 0x1_0000_0000_0000_0000_0000_0000_0000_0000nat);
    assert(w == p) by {
        vstd::arithmetic::div_mod::lemma_small_mod(p, 0x1_0000_0000_0000_0000_0000_0000_0000_0000nat);
    }
    vstd::bits::lemma_u128_shr_is_div(w, 64u128);
    vstd::arithmetic::power2::lemma2_to64();
    assert(w >> 64u64 == w >> 64u128);
    assert(p / 0x1_0000_0000_0000_0000nat <= u64::MAX) by (nonlinear_arith)
        requires
            p <= 0xffff_ffff_ffff_ffffnat * 0xffff_ffff_ffff_ffffnat,
    ;
}

/// divu and remu (funct3 5 and 7, funct7 1) divide with remainder: for a non-zero divisor the
/// quotient times the divisor plus the remainder is the dividend and the remainder is below the
/// divisor; dividing by zero gives the quotient with all bits set and the dividend as remainder.
pub proof fn law_divu_remu(a: u64, b: u64)
    ensures
        op_spec(5, 1, a, b) is Some && op_spec(7, 1, a, b) is Some,
        b != 0 ==> op_spec(5, 1, a, b).unwrap() as int * b as int + op_spec(7, 1, a, b).unwrap()
            == a as int && op_spec(7, 1, a, b).unwrap() < b,
        b == 0 ==> op_spec(5, 1, a, b).unwrap() == u64::MAX && op_spec(7, 1, a, b).unwrap() == a,
{
    if b != 0 {
        let q = a / b;
        let r = a % b;
        vstd::arithmetic::div_mod::lemma_fundamental_div_mod(a as int, b as int);
        vstd::arithmetic::mul::lemma_mul_is_commutative(q as int, b as int);
        vstd::arithmetic::div_mod::lemma_mod_bound(a as int, b as int);
        assert(q as int * b as int + r as int == a as int);
    }
}

proof fn lemma_truncated_div(x: int, y: int) -> (qr: (int, int))
    requires
        y != 0,
    ensures
        qr.0 * y + qr.1 == x,
        0 <= qr.1 * x,
        -y < qr.1 < y || y < qr.1 < -y,
        ({
            let xa = if x < 0 { -x } else { x };
            let ya = if y < 0 { -y } else { y };
            let q = if x == 0 {
                0
            } else if x > 0 && y > 0 {
                x / y
            } else if x < 0 && y < 0 {
                (x * -1) / (y * -1)
            } else if x < 0 {
                ((x * -1) / y) * -1
            } else {
                (x / (y * -1)) * -1
            };
            let r = if x == 0 {
                0
            } else if x > 0 && y > 0 {
                x % y
            } else if x < 0 && y < 0 {
                ((x * -1) % (y * -1)) * -1
            } else if x < 0 {
                ((x * -1) % y) * -1
            } else {
                x % (y * -1)
            };
            &&& qr.0 == q && qr.1 == r
            &&& -xa <= q <= xa
            &&& ya >= 2 ==> -(xa / 2) <= q <= xa / 2
            &&& ya == 1 ==> q == if y < 0 { -x } else { x }
        }),
{
    let xa = if x < 0 { -x } else { x };
    let ya = if y < 0 { -y } else { y };
    vstd::arithmetic::div_mod::lemma_fundamental_div_mod(xa, ya);
    vstd::arithmetic::div_mod::lemma_mod_bound(xa, ya);
    vstd::arithmetic::div_mod::lemma_div_pos_is_pos(xa, ya);
    vstd::arithmetic::div_mod::lemma_div_is_ordered_by_denominator(xa, 1, ya);
    vstd::arithmetic::div_mod::lemma_div_basics(xa);
    if ya >= 2 {
        vstd::arithmetic::div_mod::lemma_div_is_ordered_by_denominator(xa, 2, ya);
    }
    let qa = xa / ya;
    let ra = xa % ya;
    vstd::arithmetic::mul::lemma_mul_is_commutative(ya, qa);
    if x == 0 {
        (0, 0)
    } else if x > 0 && y > 0 {
        assert(ra * x >= 0) by (nonlinear_arith)
            requires
                ra >= 0,
                x > 0,
        ;
        (qa, ra)
    } else if x < 0 && y < 0 {
        assert(qa * y == -(qa * ya)) by (nonlinear_arith)
            requires
                y == -ya,
        ;
        assert((-ra) * x >= 0) by (nonlinear_arith)
            requires
                ra >= 0,
                x < 0,
        ;
        (qa, -ra)
    } else if x < 0 {
        assert((-qa) * y == -(qa * ya)) by (nonlinear_arith)
            requires
                y == ya,
        ;
        assert((-ra) * x >= 0) by (nonlinear_arith)
            requires
                ra >= 0,
                x < 0,
        ;
        (-qa, -ra)
    } else {
        assert((-qa) * y == qa * ya) by (nonlinear_arith)
            requires
                y == -ya,
        ;
        assert(ra * x >= 0) by (nonlinear_arith)
            requires
                ra >= 0,
                x > 0,
        ;
        (-qa, ra)
    }
}

/// A 64-bit signed value read as unsigned and back is unchanged.
proof fn lemma_i64_round_trip(i: i64)
    ensures
        ((i as u64) as i64) == i,
{
    assert(((i as u64) as i64) == i) by (bit_vector);
}

/// div and rem (funct3 4 and 6, funct7 1) divide signed values with remainder, rounding the
/// quotient towards zero: the quotient times the divisor plus the remainder is the dividend, the
/// remainder is smaller than the divisor in magnitude and has the sign of the dividend (or is
/// zero). Dividing by zero gives the quotient with all bits set and the dividend as remainder;
/// the overflowing division of the most negative value by -1 gives that value and remainder 0.
pub proof fn law_div_rem(a: u64, b: u64)
    ensures
        op_spec(4, 1, a, b) is Some && op_spec(6, 1, a, b) is Some,
        ({
            let x = a as i64;
            let y = b as i64;
            let q = op_spec(4, 1, a, b).unwrap() as i64;
            let r = op_spec(6, 1, a, b).unwrap() as i64;
            &&& y == 0 ==> op_spec(4, 1, a, b).unwrap() == u64::MAX && r == x
            &&& x == i64::MIN && y == -1 ==> q == x && r == 0
            &&& y != 0 && !(x == i64::MIN && y == -1) ==> {
                &&& q * y + r == x
                &&& 0 <= r * x
                &&& (-y < r < y || y < r < -y)
            }
        }),
{
    let x = a as i64;
    let y = b as i64;
    let q = op_spec(4, 1, a, b).unwrap();
    let r = op_spec(6, 1, a, b).unwrap();
    lemma_i64_round_trip(x);
    if y != 0 && !(x == i64::MIN && y == -1) {
        let (qi, ri) = lemma_truncated_div(x as int, y as int);
        assert(i64::MIN <= qi <= i64::MAX);
        assert(i64::MIN <= ri <= i64::MAX);
        assert(x.checked_div(y) == Some(qi as i64));
        assert(x.checked_rem(y) == Some(ri as i64));
        lemma_i64_round_trip(qi as i64);
        lemma_i64_round_trip(ri as i64);
    }
}

} // verus!
