use rvemu::csr::satp;
use rvemu::elf::{Elf64Ehdr, ELF64_EHDR_SIZE};
use rvemu::exception::Exception;
use rvemu::memory::{Memory, MEMORY_SIZE};
use rvemu::mmu::translate;

#[test]
fn memory_read_after_write() {
    let mut mem = Memory::new();
    mem.write64(0x100, 0x0102_0304_0506_0708);
    assert_eq!(mem.read64(0x100), 0x0102_0304_0506_0708);
    assert_eq!(mem.read32(0x100), 0x0506_0708);
    assert_eq!(mem.read16(0x104), 0x0304);
    assert_eq!(mem.read8(0x107), 0x01);
    mem.write16(0x200, 0xbeef);
    mem.write32(0x300, 0xdead_beef);
    mem.write8(0x400, 0x7f);
    assert_eq!(mem.read16(0x200), 0xbeef);
    assert_eq!(mem.read32(0x300), 0xdead_beef);
    assert_eq!(mem.read8(0x400), 0x7f);
    assert_eq!(mem.read8(0x401), 0);
}

#[test]
fn memory_set_dram_keeps_the_rest() {
    let mut mem = Memory::new();
    mem.write8(3, 9);
    mem.set_dram(vec![1, 2]);
    assert_eq!(mem.size(), 2);
    assert_eq!(mem.read8(0), 1);
    assert_eq!(mem.read8(1), 2);
    assert_eq!(mem.read8(3), 9);
    assert_eq!(mem.dram.len(), MEMORY_SIZE);
}

#[test]
fn mmu_translate() {
    assert_eq!(translate(0x1234, satp::Mode::Bare), Ok(0x1234));
    assert_eq!(translate(0x1234, satp::Mode::Sv39), Ok(0x1234));
    assert_eq!(translate(0x1234, satp::Mode::Sv48), Ok(0x1234));
    assert_eq!(translate(0x1234, satp::Mode::Reserved), Err(Exception::InstructionPageFault(0x1234)));
}

fn header() -> Vec<u8> {
    let mut h = vec![0x7f, b'E', b'L', b'F', 2, 1, 1, 0, 0, 0, 0, 0, 0, 0, 0, 0];
    h.extend_from_slice(&2u16.to_le_bytes()); // e_type: executable
    h.extend_from_slice(&0xf3u16.to_le_bytes()); // e_machine: RISC-V
    h.extend_from_slice(&1u32.to_le_bytes()); // e_version
    h.extend_from_slice(&0x8000_0000u64.to_le_bytes()); // e_entry
    h.extend_from_slice(&64u64.to_le_bytes()); // e_phoff
    h.extend_from_slice(&0x1234u64.to_le_bytes()); // e_shoff
    h.extend_from_slice(&5u32.to_le_bytes()); // e_flags
    h.extend_from_slice(&64u16.to_le_bytes()); // e_ehsize
    h.extend_from_slice(&56u16.to_le_bytes()); // e_phentsize
    h.extend_from_slice(&2u16.to_le_bytes()); // e_phnum
    h.extend_from_slice(&64u16.to_le_bytes()); // e_shentsize
    h.extend_from_slice(&9u16.to_le_bytes()); // e_shnum
    h.extend_from_slice(&8u16.to_le_bytes()); // e_shstrndx
    h
}

#[test]
fn elf_header_is_read_from_the_binary() {
    let bin = header();
    assert_eq!(bin.len(), ELF64_EHDR_SIZE);
    let h = Elf64Ehdr::new(&bin).unwrap();
    assert_eq!(&h.e_indent[..4], &[0x7f, b'E', b'L', b'F']);
    assert_eq!(h.e_type, 2);
    assert_eq!(h.e_machine, 0xf3);
    assert_eq!(h.e_version, 1);
    assert_eq!(h.e_entry, 0x8000_0000);
    assert_eq!(h.e_phoff, 64);
    assert_eq!(h.e_shoff, 0x1234);
    assert_eq!(h.e_flags, 5);
    assert_eq!(h.e_ehsize, 64);
    assert_eq!(h.e_phentsize, 56);
    assert_eq!(h.e_phnum, 2);
    assert_eq!(h.e_shentsize, 64);
    assert_eq!(h.e_shnum, 9);
    assert_eq!(h.e_shstrndx, 8);
    assert!(h.verify());
}

#[test]
fn elf_header_needs_64_bytes() {
    let bin = header();
    assert!(Elf64Ehdr::new(&bin[..63]).is_none());
    assert!(Elf64Ehdr::new(&[]).is_none());
}

#[test]
fn memory_load_survives_later_writes_elsewhere() {
    let mut mem = Memory::new();
    mem.write32(0x40, 0xcafe_f00d);
    mem.write8(0x44, 0xff);
    mem.write16(0x3e, 0xffff);
    mem.write64(0x48, u64::MAX);
    assert_eq!(mem.read32(0x40), 0xcafe_f00d);
}

#[test]
fn memory_set_dram_on_a_smaller_memory() {
    let mut mem = Memory::new();
    mem.dram = vec![7u8; 4];
    mem.set_dram(vec![1, 2, 3]);
    assert_eq!(mem.size(), 3);
    assert_eq!(mem.dram, vec![1, 2, 3, 7]);
}
