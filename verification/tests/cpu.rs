use rvemu::cpu::decode::Executed;
use rvemu::cpu::{Cpu, Mode, DOUBLEWORD, HALFWORD, WORD};
use rvemu::csr::{MCAUSE, MEPC, MSTATUS, MTVEC};
use rvemu::dram::DRAM_BASE;
use rvemu::emulator::{Emulator, StepOutcome, TestEvent};
use rvemu::exception::{Exception, Trap};

fn r_type(funct7: u32, rs2: u32, rs1: u32, funct3: u32, rd: u32, opcode: u32) -> u32 {
    (funct7 << 25) | (rs2 << 20) | (rs1 << 15) | (funct3 << 12) | (rd << 7) | opcode
}

fn i_type(imm: i32, rs1: u32, funct3: u32, rd: u32, opcode: u32) -> u32 {
    (((imm as u32) & 0xfff) << 20) | (rs1 << 15) | (funct3 << 12) | (rd << 7) | opcode
}

fn s_type(imm: i32, rs2: u32, rs1: u32, funct3: u32, opcode: u32) -> u32 {
    let imm = imm as u32;
    (((imm >> 5) & 0x7f) << 25) | (rs2 << 20) | (rs1 << 15) | (funct3 << 12) | ((imm & 0x1f) << 7)
        | opcode
}

fn addi(rd: u32, rs1: u32, imm: i32) -> u32 {
    i_type(imm, rs1, 0, rd, 0x13)
}

fn auipc(rd: u32) -> u32 {
    (rd << 7) | 0x17
}

fn bytes(insts: &[u32]) -> Vec<u8> {
    let mut out = Vec::new();
    for inst in insts {
        out.extend_from_slice(&inst.to_le_bytes());
    }
    out
}

/// An emulator with `program` at the start of DRAM and the program counter there.
fn load(program: Vec<u8>) -> Emulator {
    let mut emu = Emulator::new();
    emu.initialize_dram(program);
    emu.initialize_pc(DRAM_BASE);
    emu
}

/// Run `program` from the start of DRAM until the program counter leaves it.
fn run(program: Vec<u8>) -> Emulator {
    let len = program.len() as u64;
    let mut emu = load(program);
    emu.test_start(DRAM_BASE, DRAM_BASE + len);
    emu
}

#[test]
fn mul_rd_rs1_rs2() {
    let emu = run(vec![
        0x93, 0x0f, 0x30, 0x00, // addi x31, x0, 3
        0x13, 0x0f, 0xb0, 0xff, // addi x30, x0, -5
        0xb3, 0x0e, 0xff, 0x03, // mul x29, x30, x31
    ]);
    assert_eq!(emu.cpu.xregs.read(31), 3);
    assert_eq!(emu.cpu.xregs.read(30), -5i64 as u64);
    assert_eq!(emu.cpu.xregs.read(29), -15i64 as u64);
    assert_eq!(emu.cpu.xregs.read(2), 0xc000_0000);
}

#[test]
fn mulh_rd_rs1_rs2() {
    let emu = run(vec![
        0x93, 0x0f, 0x10, 0x00, // addi x31, x0, 1
        0x93, 0x9f, 0xef, 0x03, // slli x31, x31, 62
        0x13, 0x0f, 0x10, 0x00, // addi x30, x0, 1
        0x13, 0x1f, 0xef, 0x03, // slli x30, x30, 62
        0xb3, 0x1e, 0xff, 0x03, // mulh x29, x30, x31
    ]);
    assert_eq!(emu.cpu.xregs.read(31), 1 << 62);
    assert_eq!(emu.cpu.xregs.read(30), 1 << 62);
    // 2^62 * 2^62 = 2^124, whose upper 64 bits are 2^60.
    assert_eq!(emu.cpu.xregs.read(29), 1 << 60);
}

#[test]
fn division_by_zero() {
    let emu = run(bytes(&[
        addi(1, 0, 7),
        r_type(1, 0, 1, 4, 3, 0x33), // div x3, x1, x0
        r_type(1, 0, 1, 5, 4, 0x33), // divu x4, x1, x0
        r_type(1, 0, 1, 6, 5, 0x33), // rem x5, x1, x0
        r_type(1, 0, 1, 7, 6, 0x33), // remu x6, x1, x0
    ]));
    assert_eq!(emu.cpu.xregs.read(3), u64::MAX);
    assert_eq!(emu.cpu.xregs.read(4), u64::MAX);
    assert_eq!(emu.cpu.xregs.read(5), 7);
    assert_eq!(emu.cpu.xregs.read(6), 7);
}

#[test]
fn signed_division_overflow() {
    let emu = run(bytes(&[
        addi(1, 0, 1),
        i_type(63, 1, 1, 1, 0x13), // slli x1, x1, 63: the most negative value
        addi(2, 0, -1),
        r_type(1, 2, 1, 4, 3, 0x33), // div x3, x1, x2
        r_type(1, 2, 1, 6, 4, 0x33), // rem x4, x1, x2
    ]));
    assert_eq!(emu.cpu.xregs.read(3), 1u64 << 63);
    assert_eq!(emu.cpu.xregs.read(4), 0);
}

#[test]
fn x0_is_hardwired_to_zero() {
    let emu = run(bytes(&[addi(0, 0, 5), addi(1, 0, 9), r_type(0, 1, 1, 0, 0, 0x33)]));
    assert_eq!(emu.cpu.xregs.read(0), 0);
    assert_eq!(emu.cpu.xregs.read(1), 9);
}

#[test]
fn store_then_load() {
    let emu = run(bytes(&[
        auipc(5),                     // x5 = DRAM_BASE
        addi(6, 0, -1),               // x6 = all ones
        s_type(0x100, 6, 5, 2, 0x23), // sw x6, 0x100(x5)
        i_type(0x100, 5, 2, 7, 0x03), // lw x7, 0x100(x5)
        i_type(0x100, 5, 6, 8, 0x03), // lwu x8, 0x100(x5)
        addi(9, 0, 0x5a),
        s_type(0x200, 9, 5, 3, 0x23), // sd x9, 0x200(x5)
        i_type(0x200, 5, 3, 10, 0x03), // ld x10, 0x200(x5)
    ]));
    assert_eq!(emu.cpu.xregs.read(5), DRAM_BASE);
    assert_eq!(emu.cpu.xregs.read(7), u64::MAX);
    assert_eq!(emu.cpu.xregs.read(8), 0xffff_ffff);
    assert_eq!(emu.cpu.xregs.read(10), 0x5a);
}

#[test]
fn compressed_li_and_addi() {
    let emu = run(vec![
        0x15, 0x45, // c.li x10, 5
        0x0d, 0x05, // c.addi x10, 3
    ]);
    assert_eq!(emu.cpu.xregs.read(10), 8);
    assert_eq!(emu.cpu.pc, DRAM_BASE + 4);
}

#[test]
fn all_zero_halfword_is_illegal() {
    let mut emu = load(vec![0, 0, 0, 0]);
    assert_eq!(emu.cpu.execute(), Err(Exception::IllegalInstruction(0)));
    assert_eq!(emu.cpu.pc, DRAM_BASE);
}

#[test]
fn reserved_compressed_encoding_is_illegal() {
    // Quadrant 0 with funct3 0x4 is reserved.
    let mut emu = load(vec![0x00, 0x80, 0, 0]);
    assert_eq!(emu.cpu.execute(), Err(Exception::IllegalInstruction(0x8000)));
}

#[test]
fn unknown_opcode_is_illegal() {
    let mut emu = load(bytes(&[0x0000_007f]));
    assert_eq!(emu.cpu.execute(), Err(Exception::IllegalInstruction(0x7f)));
}

#[test]
fn idle_hart_executes_nothing() {
    let mut emu = load(bytes(&[addi(1, 0, 1)]));
    emu.cpu.idle = true;
    assert_eq!(emu.cpu.execute(), Ok(Executed::Instruction(0)));
    assert_eq!(emu.cpu.pc, DRAM_BASE);
    assert_eq!(emu.cpu.xregs.read(1), 0);
}

#[test]
fn ecall_traps_to_mtvec_and_mret_returns() {
    let mut program = bytes(&[
        auipc(1),                     // x1 = DRAM_BASE
        addi(1, 1, 0x100),            // x1 = DRAM_BASE + 0x100
        i_type(0x305, 1, 1, 0, 0x73), // csrrw x0, mtvec, x1
        0x0000_0073,                  // ecall
    ]);
    // The trap handler at DRAM_BASE + 0x100: mret.
    program.resize(0x100, 0);
    program.extend_from_slice(&0x3020_0073u32.to_le_bytes());
    let mut emu = load(program);
    for _ in 0..3 {
        assert!(matches!(emu.step(), Ok(StepOutcome::Executed(_))));
    }
    assert_eq!(emu.cpu.state.read(MTVEC), DRAM_BASE + 0x100);
    assert_eq!(
        emu.step(),
        Ok(StepOutcome::Trapped(Exception::EnvironmentCallFromMMode, Trap::Requested))
    );
    assert_eq!(emu.cpu.pc, DRAM_BASE + 0x100);
    assert_eq!(emu.cpu.mode, Mode::Machine);
    assert_eq!(emu.cpu.state.read(MCAUSE), 11);
    // The program counter had moved past the ecall when the exception was raised.
    assert_eq!(emu.cpu.state.read(MEPC), DRAM_BASE + 16);
    // MPP records machine mode.
    assert_eq!((emu.cpu.state.read(MSTATUS) >> 11) & 0b11, 0b11);
    // mret goes back to the address in mepc.
    assert!(matches!(emu.step(), Ok(StepOutcome::Executed(_))));
    assert_eq!(emu.cpu.pc, DRAM_BASE + 16);
    assert_eq!(emu.cpu.mode, Mode::Machine);
}

#[test]
fn test_start_records_events() {
    let mut emu = load(bytes(&[addi(1, 0, 1), 0x0000_007f]));
    let run = emu.test_start(DRAM_BASE, DRAM_BASE + 4);
    assert!(!run.invalid_mode);
    assert_eq!(
        run.events,
        vec![TestEvent::Executed { pc: DRAM_BASE, inst: Executed::Instruction(addi(1, 0, 1) as u64) }]
    );
    assert_eq!(emu.cpu.pc, DRAM_BASE + 4);
}

#[test]
fn test_start_records_exceptions() {
    let mut emu = load(bytes(&[0x0000_007f]));
    let run = emu.test_start(DRAM_BASE, DRAM_BASE + 4);
    // The illegal instruction traps to mtvec (0), outside the range.
    assert_eq!(
        run.events,
        vec![TestEvent::Trapped { pc: DRAM_BASE + 4, exception: Exception::IllegalInstruction(0x7f) }]
    );
    assert_eq!(emu.cpu.pc, 0);
}

#[test]
fn fetch_outside_memory_is_an_access_fault() {
    let mut cpu = Cpu::new();
    cpu.pc = 0x10;
    assert_eq!(cpu.fetch(WORD), Err(Exception::InstructionAccessFault));
    assert_eq!(cpu.fetch(HALFWORD), Err(Exception::InstructionAccessFault));
}

#[test]
fn load_from_unmapped_address_faults() {
    let mut cpu = Cpu::new();
    assert_eq!(cpu.read(0x10, DOUBLEWORD), Err(Exception::LoadAccessFault));
    assert_eq!(cpu.write(0x10, 1, DOUBLEWORD), Err(Exception::StoreAMOAccessFault));
}

#[test]
fn reset_clears_registers() {
    let mut emu = run(bytes(&[addi(1, 0, 1)]));
    assert_eq!(emu.cpu.xregs.read(1), 1);
    emu.reset();
    assert_eq!(emu.cpu.xregs.read(1), 0);
    assert_eq!(emu.cpu.xregs.read(2), 0);
    assert_eq!(emu.cpu.pc, 0);
    assert_eq!(emu.cpu.mode, Mode::Machine);
}

#[test]
fn compressed_mv_and_add() {
    let emu = run(vec![
        0x15, 0x45, // c.li x10, 5
        0xaa, 0x85, // c.mv x11, x10
        0xaa, 0x95, // c.add x11, x10
    ]);
    assert_eq!(emu.cpu.xregs.read(10), 5);
    assert_eq!(emu.cpu.xregs.read(11), 10);
}

#[test]
fn compressed_and_expanded_forms_agree() {
    // c.addi x10, 3 and addi x10, x10, 3 after c.li x10, -2 and addi x12, x0, -2.
    let compressed = run(vec![0x79, 0x55, 0x0d, 0x05]);
    let expanded = run(bytes(&[addi(10, 0, -2), addi(10, 10, 3)]));
    assert_eq!(compressed.cpu.xregs.read(10), 1);
    assert_eq!(expanded.cpu.xregs.read(10), 1);
}
