use rvemu::cpu::Mode;
use rvemu::csr::fcsr::{Fcsr, RoundingMode};
use rvemu::csr::misa::{Extensions, Misa, Mxl};
use rvemu::csr::mstatus::Mstatus;
use rvemu::csr::mtvec;
use rvemu::csr::satp::{self, Satp};
use rvemu::csr::scause::Scause;
use rvemu::csr::sstatus::Sstatus;
use rvemu::csr::{
    to_range, BitBound, CsrBase, Read, State, Write, MARCHID, MEPC, MIDELEG, MIE, MISA,
    MISA_RESET_VALUE, MSTATUS, MVENDORID, SIE, SSTATUS, SSTATUS_WRITE_MASK, TIME,
};

#[test]
fn new_state_has_only_misa_set() {
    let state = State::new();
    assert_eq!(state.read(MISA), MISA_RESET_VALUE);
    assert_eq!(state.read(MSTATUS), 0);
    assert_eq!(state.read(MEPC), 0);
}

#[test]
fn csr_read_after_write() {
    let mut state = State::new();
    state.write(MEPC, 0x8000_1234);
    assert_eq!(state.read(MEPC), 0x8000_1234);
}

#[test]
fn machine_information_registers_are_read_only() {
    let mut state = State::new();
    state.write(MVENDORID, 7);
    state.write(MARCHID, 7);
    assert_eq!(state.read(MVENDORID), 0);
    assert_eq!(state.read(MARCHID), 0);
}

#[test]
fn sstatus_is_a_view_of_mstatus() {
    let mut state = State::new();
    state.write(MSTATUS, u64::MAX);
    // MIE (bit 3) is not visible through sstatus, SIE (bit 1) is.
    assert_eq!(state.read(SSTATUS) & 0b1010, 0b0010);
    state.write(SSTATUS, 0);
    assert_eq!(state.read(MSTATUS), u64::MAX & !SSTATUS_WRITE_MASK);
}

#[test]
fn sie_shows_delegated_bits_only() {
    let mut state = State::new();
    state.write(MIE, 0b1010_1010);
    state.write(MIDELEG, 0b0010_0010);
    assert_eq!(state.read(SIE), 0b0010_0010);
    state.write(SIE, 0);
    assert_eq!(state.read(MIE), 0b1000_1000);
}

#[test]
fn bits_read_after_write() {
    let mut state = State::new();
    state.write_bits(MSTATUS, BitBound::Included(11), BitBound::Excluded(13), 0b11);
    assert_eq!(state.read(MSTATUS), 0b11 << 11);
    assert_eq!(state.read_bits(MSTATUS, BitBound::Included(11), BitBound::Excluded(13)), 0b11);
    state.write_bit(MSTATUS, 3, 1);
    assert_eq!(state.read_bit(MSTATUS, 3), 1);
    state.write_bit(MSTATUS, 3, 0);
    assert_eq!(state.read_bit(MSTATUS, 3), 0);
    // A value other than 0 or 1 changes nothing.
    state.write_bit(MSTATUS, 3, 2);
    assert_eq!(state.read(MSTATUS), 0b11 << 11);
    // A field reaching bit 63.
    state.write_bits(MEPC, BitBound::Included(60), BitBound::Unbounded, 0xf);
    assert_eq!(state.read(MEPC), 0xf << 60);
    assert_eq!(state.read_bits(MEPC, BitBound::Included(62), BitBound::Unbounded), 0b11);
}

#[test]
fn increment_time_counts_up() {
    let mut state = State::new();
    state.increment_time();
    state.increment_time();
    assert_eq!(state.read(TIME), 2);
}

#[test]
fn reset_restores_misa() {
    let mut state = State::new();
    state.write(MISA, 0);
    state.write(MEPC, 5);
    state.reset();
    assert_eq!(state.read(MISA), MISA_RESET_VALUE);
    assert_eq!(state.read(MEPC), 0);
}

#[test]
fn to_range_converts_bounds() {
    assert_eq!(to_range(BitBound::Included(11), BitBound::Excluded(13), 64), 11..13);
    assert_eq!(to_range(BitBound::Excluded(1), BitBound::Included(5), 64), 2..6);
    assert_eq!(to_range(BitBound::Unbounded, BitBound::Unbounded, 64), 0..64);
}

#[test]
fn mstatus_fields() {
    let mut m = Mstatus::new(0);
    m.write_mpp(Mode::Supervisor);
    assert_eq!(m.read_mpp(), Mode::Supervisor);
    assert_eq!(m.read_value(), 0b01 << 11);
    m.write_mpp(Mode::Machine);
    assert_eq!(m.read_mpp(), Mode::Machine);
    m.write_spp(Mode::Supervisor);
    assert_eq!(m.read_spp(), Mode::Supervisor);
    m.write_mie(true);
    assert!(m.read_mie());
    m.write_mpie(true);
    m.write_mie(false);
    assert!(m.read_mpie());
    assert!(!m.read_mie());
    m.write_value(0b10 << 11);
    assert_eq!(m.read_mpp(), Mode::Debug);
    m.reset();
    assert_eq!(m.read_value(), 0);
}

#[test]
fn sstatus_fields() {
    let mut s = Sstatus::new(0);
    s.write_spp(true);
    s.write_sie(true);
    assert!(s.read_spp());
    assert!(s.read_sie());
    assert!(!s.read_spie());
    assert_eq!(s.read_value(), (1 << 8) | (1 << 1));
}

#[test]
fn satp_fields() {
    let mut s = Satp::new(0);
    s.write_mode(satp::Mode::Sv39);
    s.write_asid(0x1234);
    s.write_ppn(0x8_0000);
    assert!(matches!(s.read_mode(), satp::Mode::Sv39));
    assert_eq!(s.read_asid(), 0x1234);
    assert_eq!(s.read_ppn(), 0x8_0000);
    assert_eq!(s.read_value(), (8 << 60) | (0x1234 << 44) | 0x8_0000);
    s.write_mode(satp::Mode::Reserved);
    assert!(matches!(s.read_mode(), satp::Mode::Sv39));
}

#[test]
fn scause_fields() {
    let mut s = Scause::new(0);
    s.write_interrupt(true);
    s.write_exception_code(9);
    assert!(s.read_interrupt());
    assert_eq!(s.read_exception_code(), 9);
    assert_eq!(s.read_value() as u64, (1u64 << 63) | 9);
}

#[test]
fn mtvec_fields() {
    let mut t = mtvec::Mtvec::new(0);
    t.write_base(0x2000_0000);
    t.write_mode(mtvec::Mode::Vectored);
    assert_eq!(t.read_base(), 0x2000_0000);
    assert!(matches!(t.read_mode(), mtvec::Mode::Vectored));
    assert_eq!(t.read_value(), (0x2000_0000 << 2) | 1);
}

#[test]
fn misa_fields() {
    let mut m = Misa::default();
    assert_eq!(m.read_extensions(), 0x14_1129);
    assert_eq!(Extensions::BitM.bit(), 12);
    m.write_mxl(1);
    assert_eq!(m.read_mxl(), Mxl::Xlen32);
    assert_eq!(m.read_extensions(), 0x14_1129);
}

#[test]
fn fcsr_fields() {
    let mut f = Fcsr::new(0b011 << 5);
    assert_eq!(f.read_frm(), RoundingMode::Rup);
    f.write_dz(true);
    f.write_nx(true);
    assert!(f.read_dz());
    assert!(f.read_nx());
    assert!(!f.read_nv());
    f.write_value(0b101 << 5);
    assert_eq!(f.read_frm(), RoundingMode::Invalid);
    f.clear();
    assert_eq!(f.read_value(), 0);
    assert_eq!(f.read_frm(), RoundingMode::Rne);
}

#[test]
fn register_bits_read_after_write() {
    let mut s = Sstatus::new(-1);
    s.write_bit(63, false);
    assert!(!s.read_bit(63));
    assert!(s.read_bit(62));
    assert_eq!(s.read_bits(BitBound::Included(60), BitBound::Unbounded), 0b0111);
}

#[test]
fn mpp_survives_writes_of_other_bits() {
    let mut m = Mstatus::new(0);
    m.write_mpp(Mode::Machine);
    m.write_mie(true);
    m.write_spp(Mode::Supervisor);
    m.write_mpie(true);
    assert_eq!(m.read_mpp(), Mode::Machine);
}

#[test]
fn flag_survives_writes_of_other_flags() {
    let mut f = Fcsr::new(0);
    f.write_dz(true);
    f.write_nv(true);
    f.write_of(false);
    f.write_nx(true);
    assert!(f.read_dz());
    f.write_dz(false);
    f.write_uf(true);
    assert!(!f.read_dz());
}
