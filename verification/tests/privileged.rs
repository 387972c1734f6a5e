use rvemu::cpu::decode::Executed;
use rvemu::cpu::Mode;
use rvemu::csr::{MCAUSE, MEPC, MTVAL};
use rvemu::dram::DRAM_BASE;
use rvemu::emulator::{Emulator, Halt, StepOutcome};
use rvemu::exception::{Exception, Trap};

fn r_type(funct7: u32, rs2: u32, rs1: u32, funct3: u32, rd: u32, opcode: u32) -> u32 {
    (funct7 << 25) | (rs2 << 20) | (rs1 << 15) | (funct3 << 12) | (rd << 7) | opcode
}

fn i_type(imm: i32, rs1: u32, funct3: u32, rd: u32, opcode: u32) -> u32 {
    (((imm as u32) & 0xfff) << 20) | (rs1 << 15) | (funct3 << 12) | (rd << 7) | opcode
}

fn addi(rd: u32, rs1: u32, imm: i32) -> u32 {
    i_type(imm, rs1, 0, rd, 0x13)
}

fn slli(rd: u32, rs1: u32, shamt: i32) -> u32 {
    i_type(shamt, rs1, 1, rd, 0x13)
}

fn csrrw(csr: i32, rs1: u32) -> u32 {
    i_type(csr, rs1, 1, 0, 0x73)
}

fn csrrs(csr: i32, rs1: u32) -> u32 {
    i_type(csr, rs1, 2, 0, 0x73)
}

/// An atomic instruction: funct5, aq/rl clear, rs2, rs1, funct3 (2 word, 3 doubleword), rd.
fn amo(funct5: u32, rs2: u32, rs1: u32, funct3: u32, rd: u32) -> u32 {
    r_type(funct5 << 2, rs2, rs1, funct3, rd, 0x2f)
}

const AUIPC_X1: u32 = (1 << 7) | 0x17;
const MRET: u32 = 0x3020_0073;
const EBREAK: u32 = 0x0010_0073;

fn load(insts: &[u32]) -> Emulator {
    let mut program = Vec::new();
    for inst in insts {
        program.extend_from_slice(&inst.to_le_bytes());
    }
    let mut emu = Emulator::new();
    emu.initialize_dram(program);
    emu.initialize_pc(DRAM_BASE);
    emu
}

fn run_steps(emu: &mut Emulator, n: usize) {
    for _ in 0..n {
        assert!(matches!(emu.step(), Ok(StepOutcome::Executed(Executed::Instruction(_)))));
    }
}

#[test]
fn ebreak_raises_a_breakpoint() {
    let mut emu = load(&[EBREAK]);
    assert_eq!(emu.step(), Ok(StepOutcome::Trapped(Exception::Breakpoint, Trap::Requested)));
    assert_eq!(emu.cpu.state.read(MCAUSE), 3);
}

#[test]
fn misaligned_reservations_raise_misaligned_exceptions() {
    // x1 = DRAM_BASE + 2, not word-aligned.
    let mut emu = load(&[AUIPC_X1, addi(1, 1, 2), amo(0x02, 0, 1, 2, 3)]);
    run_steps(&mut emu, 2);
    assert_eq!(emu.cpu.execute(), Err(Exception::LoadAddressMisaligned));
    let mut emu = load(&[AUIPC_X1, addi(1, 1, 2), amo(0x03, 0, 1, 2, 3)]);
    run_steps(&mut emu, 2);
    assert_eq!(emu.cpu.execute(), Err(Exception::StoreAMOAddressMisaligned));
}

#[test]
fn load_reserved_then_store_conditional() {
    let mut emu = load(&[
        AUIPC_X1,
        addi(1, 1, 0x400),       // x1 = DRAM_BASE + 0x400
        addi(2, 0, 42),
        amo(0x02, 0, 1, 3, 3),   // lr.d x3, (x1)
        amo(0x03, 2, 1, 3, 4),   // sc.d x4, x2, (x1): succeeds
        amo(0x03, 2, 1, 3, 5),   // sc.d x5, x2, (x1): no reservation left
        amo(0x00, 2, 1, 3, 6),   // amoadd.d x6, x2, (x1)
        i_type(0, 1, 3, 7, 0x03), // ld x7, 0(x1)
    ]);
    run_steps(&mut emu, 8);
    assert_eq!(emu.cpu.xregs.read(3), 0);
    assert_eq!(emu.cpu.xregs.read(4), 0);
    assert_eq!(emu.cpu.xregs.read(5), 1);
    assert_eq!(emu.cpu.xregs.read(6), 42);
    assert_eq!(emu.cpu.xregs.read(7), 84);
}

#[test]
fn instruction_page_fault_in_supervisor_mode() {
    let mut emu = load(&[
        AUIPC_X1,                    // x1 = DRAM_BASE
        addi(3, 0, 1),
        slli(3, 3, 63),              // x3 = Sv39 in the MODE field
        i_type(0, 0, 0, 4, 0x37) | (0x10 << 12), // lui x4, 0x10
        r_type(0, 4, 1, 0, 4, 0x33), // add x4, x1, x4: the root page table, all zero
        i_type(12, 4, 5, 4, 0x13),   // srli x4, x4, 12
        r_type(0, 4, 3, 6, 5, 0x33), // or x5, x3, x4
        csrrw(0x180, 5),             // csrrw x0, satp, x5
        addi(6, 0, 1),
        slli(6, 6, 11),              // MPP = supervisor
        csrrs(0x300, 6),             // csrrs x0, mstatus, x6
        addi(7, 0, 0x100),
        csrrw(0x341, 7),             // csrrw x0, mepc, x7
        MRET,
    ]);
    run_steps(&mut emu, 14);
    assert_eq!(emu.cpu.mode, Mode::Supervisor);
    assert!(emu.cpu.enable_paging);
    assert_eq!(emu.cpu.page_table, DRAM_BASE + 0x10000);
    assert_eq!(emu.cpu.pc, 0x100);
    assert_eq!(
        emu.step(),
        Ok(StepOutcome::Trapped(Exception::InstructionPageFault(0x100), Trap::Invisible))
    );
    assert_eq!(emu.cpu.mode, Mode::Machine);
    assert_eq!(emu.cpu.state.read(MCAUSE), 12);
    assert_eq!(emu.cpu.state.read(MTVAL), 0x100);
    assert_eq!(emu.cpu.state.read(MEPC), 0x100);
}

#[test]
fn a_trap_in_an_unrecordable_mode_halts() {
    let mut emu = load(&[
        addi(6, 0, 1),
        slli(6, 6, 12),  // MPP = 0b10, a reserved encoding
        csrrs(0x300, 6), // csrrs x0, mstatus, x6
        AUIPC_X1,        // x1 = DRAM_BASE + 12
        addi(1, 1, 16),  // x1 = DRAM_BASE + 28
        csrrw(0x341, 1), // csrrw x0, mepc, x1
        MRET,
        0x0000_007f,     // an illegal instruction
    ]);
    run_steps(&mut emu, 7);
    assert_eq!(emu.cpu.mode, Mode::Debug);
    assert_eq!(emu.step(), Err(Halt::InvalidMode));
}
