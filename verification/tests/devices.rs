use rvemu::bus::Bus;
use rvemu::cpu::{Cpu, BYTE, DOUBLEWORD, HALFWORD, WORD};
use rvemu::csr::{MIP, MSTATUS, MTIP_BIT, SEIP_BIT};
use rvemu::devices::clint::{Clint, MSIP, MTIME, MTIME_COMPARE};
use rvemu::devices::plic::{Plic, PLIC_BASE, PLIC_SCLAIM, PLIC_SOURCE_PRIORITY};
use rvemu::devices::uart::{Uart, UART_LSR, UART_RHR, UART_THR};
use rvemu::devices::virtio_blk::{
    Virtio, CONFIG, DEVICE_ID, GUEST_PAGE_SIZE, MAGIC, QUEUE_NOTIFY, QUEUE_NUM, QUEUE_PFN, STATUS,
    VENDOR_ID, VERSION, VIRTIO_IRQ,
};
use rvemu::devices::virtio as legacy;
use rvemu::devices::virtqueue::VirtqueueAddr;
use rvemu::dram::DRAM_BASE;
use rvemu::exception::Exception;
use rvemu::rom::{Rom, MROM_BASE};

#[test]
fn clint_timer_compare_read_after_write() {
    let mut clint = Clint::new();
    clint.write(MTIME_COMPARE, 0x1234_5678_9abc, DOUBLEWORD).unwrap();
    assert_eq!(clint.read(MTIME_COMPARE, DOUBLEWORD), Ok(0x1234_5678_9abc));
    assert_eq!(clint.read(MTIME_COMPARE, WORD), Ok(0x5678_9abc));
    assert_eq!(clint.read(MTIME, DOUBLEWORD), Ok(0));
    assert_eq!(clint.read(MTIME_COMPARE + 8, DOUBLEWORD), Err(Exception::LoadAccessFault));
    assert_eq!(clint.read(0x200_1000, DOUBLEWORD), Err(Exception::LoadAccessFault));
}

#[test]
fn timer_interrupt_becomes_pending() {
    let mut cpu = Cpu::new();
    cpu.bus.write(MTIME_COMPARE, 2, DOUBLEWORD).unwrap();
    cpu.devices_increment();
    assert_eq!(cpu.state.read(MIP) & MTIP_BIT, 0);
    cpu.devices_increment();
    assert_eq!(cpu.state.read(MIP) & MTIP_BIT, MTIP_BIT);
    assert_eq!(cpu.bus.read(MTIME, DOUBLEWORD), Ok(2));
}

#[test]
fn plic_priority_read_after_write() {
    let mut plic = Plic::new();
    plic.write(PLIC_SOURCE_PRIORITY + 4, 7, WORD).unwrap();
    assert_eq!(plic.read(PLIC_SOURCE_PRIORITY + 4, WORD), Ok(7));
    assert_eq!(plic.read(PLIC_SOURCE_PRIORITY + 4, BYTE), Err(Exception::LoadAccessFault));
    assert_eq!(plic.write(PLIC_SCLAIM, 1, HALFWORD), Err(Exception::StoreAMOAccessFault));
}

#[test]
fn uart_receive_then_read() {
    let mut uart = Uart::new();
    assert!(uart.receive(b'a'));
    // The previous byte was not read yet.
    assert!(!uart.receive(b'b'));
    assert!(uart.is_interrupting());
    assert!(!uart.is_interrupting());
    assert_eq!(uart.read(UART_LSR, BYTE), Ok(0x21));
    assert_eq!(uart.read(UART_RHR, BYTE), Ok(b'a' as u64));
    assert_eq!(uart.read(UART_LSR, BYTE), Ok(0x20));
    assert!(uart.receive(b'b'));
    assert_eq!(uart.read(UART_RHR, HALFWORD), Err(Exception::LoadAccessFault));
}

#[test]
fn uart_output_is_queued() {
    let mut bus = Bus::new();
    bus.write(UART_THR, b'h' as u64, BYTE).unwrap();
    bus.write(UART_THR, b'i' as u64, BYTE).unwrap();
    assert_eq!(bus.uart.take_output(), vec![b'h', b'i']);
    assert_eq!(bus.uart.take_output(), Vec::<u8>::new());
    assert_eq!(bus.uart.size(), 0x100);
}

#[test]
fn virtio_identification_registers() {
    let virtio = Virtio::new();
    assert_eq!(virtio.read(MAGIC, WORD), Ok(0x74726976));
    assert_eq!(virtio.read(VERSION, WORD), Ok(1));
    assert_eq!(virtio.read(DEVICE_ID, WORD), Ok(2));
    assert_eq!(virtio.read(VENDOR_ID, WORD), Ok(0x554d4551));
    assert_eq!(virtio.read(MAGIC, BYTE), Ok(0x76));
    assert_eq!(virtio.read(MAGIC + 1, BYTE), Ok(0x69));
}

#[test]
fn virtio_notification_interrupts_once() {
    let mut virtio = Virtio::new();
    assert!(!virtio.is_interrupting());
    virtio.write(QUEUE_NOTIFY, 0, WORD).unwrap();
    assert!(virtio.is_interrupting());
    assert!(!virtio.is_interrupting());
}

#[test]
fn virtio_queue_layout() {
    let mut virtio = Virtio::new();
    virtio.write(GUEST_PAGE_SIZE, 4096, WORD).unwrap();
    virtio.write(QUEUE_NUM, 8, WORD).unwrap();
    virtio.write(QUEUE_PFN, 0x80000, WORD).unwrap();
    let q = VirtqueueAddr::new(&virtio).unwrap();
    assert_eq!(q.desc_addr, DRAM_BASE);
    assert_eq!(q.avail_addr, DRAM_BASE + 128);
    assert_eq!(q.used_addr, DRAM_BASE + 4096);
}

/// Set up a request in guest memory: a header naming sector 1, a 512-byte data buffer with the
/// given descriptor flags, and a status byte.
fn set_up_request(cpu: &mut Cpu, data_flags: u64) {
    let base = DRAM_BASE;
    let bus = &mut cpu.bus;
    bus.write(rvemu::devices::virtio_blk::QUEUE_ALIGN, 4096, WORD).unwrap();
    bus.write(GUEST_PAGE_SIZE, 4096, WORD).unwrap();
    bus.write(QUEUE_NUM, 8, WORD).unwrap();
    bus.write(QUEUE_PFN, 0x80000, WORD).unwrap();
    // Descriptor 0: the request header.
    bus.write(base, base + 0x2000, DOUBLEWORD).unwrap();
    bus.write(base + 8, 16, WORD).unwrap();
    bus.write(base + 12, 1, HALFWORD).unwrap();
    bus.write(base + 14, 1, HALFWORD).unwrap();
    // Descriptor 1: the data.
    bus.write(base + 16, base + 0x3000, DOUBLEWORD).unwrap();
    bus.write(base + 24, 512, WORD).unwrap();
    bus.write(base + 28, data_flags, HALFWORD).unwrap();
    bus.write(base + 30, 2, HALFWORD).unwrap();
    // Descriptor 2: the status byte.
    bus.write(base + 32, base + 0x4000, DOUBLEWORD).unwrap();
    bus.write(base + 40, 1, WORD).unwrap();
    bus.write(base + 44, 2, HALFWORD).unwrap();
    bus.write(base + 46, 0, HALFWORD).unwrap();
    // The available ring offers descriptor 0.
    bus.write(base + 128, 0, HALFWORD).unwrap();
    bus.write(base + 130, 0, HALFWORD).unwrap();
    bus.write(base + 132, 0, HALFWORD).unwrap();
    // The header names sector 1; the status byte is not zero yet.
    bus.write(base + 0x2008, 1, DOUBLEWORD).unwrap();
    bus.write(base + 0x4000, 0xff, BYTE).unwrap();
    // Interrupts are globally enabled in M-mode.
    cpu.state.write(MSTATUS, 1 << 3);
}

#[test]
fn virtio_disk_write_through_dma() {
    let mut cpu = Cpu::new();
    cpu.bus.initialize_disk(vec![0u8; 1024]);
    set_up_request(&mut cpu, 1);
    for i in 0..512u64 {
        cpu.bus.write(DRAM_BASE + 0x3000 + i, i % 251, BYTE).unwrap();
    }
    cpu.bus.write(QUEUE_NOTIFY, 0, WORD).unwrap();
    assert_eq!(cpu.check_pending_interrupt(), Ok(None));
    for i in 0..512u64 {
        assert_eq!(cpu.bus.virtio.read_disk(512 + i), i % 251);
        assert_eq!(cpu.bus.virtio.read_disk(i), 0);
    }
    // Success is reported, the head goes to the used ring, the used index counts up.
    assert_eq!(cpu.bus.read(DRAM_BASE + 0x4000, BYTE), Ok(0));
    assert_eq!(cpu.bus.read(DRAM_BASE + 4096 + 4, WORD), Ok(0));
    assert_eq!(cpu.bus.read(DRAM_BASE + 4096 + 2, HALFWORD), Ok(1));
    // The device interrupt is claimed and SEIP raised.
    assert_eq!(cpu.bus.read(PLIC_SCLAIM, WORD), Ok(VIRTIO_IRQ));
    assert_eq!(cpu.state.read(MIP) & SEIP_BIT, SEIP_BIT);
}

#[test]
fn virtio_disk_read_through_dma() {
    let mut cpu = Cpu::new();
    let disk: Vec<u8> = (0..1024u32).map(|i| (i % 253) as u8).collect();
    cpu.bus.initialize_disk(disk);
    set_up_request(&mut cpu, 1 | 2);
    cpu.bus.write(QUEUE_NOTIFY, 0, WORD).unwrap();
    assert_eq!(cpu.check_pending_interrupt(), Ok(None));
    for i in 0..512u64 {
        assert_eq!(cpu.bus.read(DRAM_BASE + 0x3000 + i, BYTE), Ok((512 + i) % 253));
    }
}

#[test]
fn virtio_disk_access_past_the_disk_fails() {
    let mut cpu = Cpu::new();
    cpu.bus.initialize_disk(vec![0u8; 600]);
    set_up_request(&mut cpu, 1);
    cpu.bus.write(QUEUE_NOTIFY, 0, WORD).unwrap();
    assert_eq!(cpu.check_pending_interrupt(), Err(Exception::StoreAMOAccessFault));
    // The bytes that fit were written.
    assert_eq!(cpu.bus.virtio.read_disk(599), cpu.bus.read(DRAM_BASE + 0x3000 + 87, BYTE).unwrap());
}

#[test]
fn no_interrupt_while_globally_disabled() {
    let mut cpu = Cpu::new();
    cpu.bus.write(QUEUE_NOTIFY, 0, WORD).unwrap();
    assert_eq!(cpu.check_pending_interrupt(), Ok(None));
    // The notification is still pending.
    assert!(cpu.bus.virtio.is_interrupting());
}

#[test]
fn rom_holds_the_device_tree() {
    let rom = Rom::new(vec![0xd0, 0x0d, 0xfe, 0xed]);
    assert_eq!(rom.len(), 0x1000);
    assert_eq!(rom.read(MROM_BASE + 0x20, WORD), Ok(0xedfe0dd0));
    assert_eq!(rom.read(MROM_BASE, DOUBLEWORD), Ok(0));
}

#[test]
fn bus_rejects_unmapped_addresses() {
    let mut bus = Bus::new();
    assert_eq!(bus.read(0x0, WORD), Err(Exception::LoadAccessFault));
    assert_eq!(bus.write(0x0, 0, WORD), Err(Exception::StoreAMOAccessFault));
    assert_eq!(bus.read(DRAM_BASE, 7), Err(Exception::LoadAccessFault));
}

#[test]
fn legacy_virtio_registers() {
    let mut v = legacy::Virtio::new();
    assert_eq!(v.read(legacy::VIRTIO_MAGIC), 0x74726976);
    assert_eq!(v.read(legacy::VIRTIO_QUEUE_NUM_MAX), 8);
    assert_eq!(v.read(legacy::VIRTIO_MAGIC + 0x200), 0);
    v.write(legacy::VIRTIO_GUEST_PAGE_SIZE, 4096);
    v.write(legacy::VIRTIO_QUEUE_PFN, 3);
    assert_eq!(v.desc_addr(), 3 * 4096);
    assert_eq!(v.read(legacy::VIRTIO_QUEUE_PFN), 3);
    assert!(!v.is_interrupting());
    v.write(legacy::VIRTIO_QUEUE_NOTIFY, 0);
    assert!(v.is_interrupting());
    assert!(!v.is_interrupting());
    assert_eq!(v.get_new_id(), 1);
    assert_eq!(v.get_new_id(), 2);
    v.initialize(vec![1, 2, 3]);
    v.write_disk(1, 9);
    assert_eq!(v.read_disk(1), 9);
    assert_eq!(v.read_disk(2), 3);
}

#[test]
fn virtio_queue_pfn_read_after_write() {
    let mut virtio = Virtio::new();
    virtio.write(QUEUE_PFN, 0x1234, WORD).unwrap();
    assert_eq!(virtio.read(QUEUE_PFN, WORD), Ok(0x1234));
    assert_eq!(virtio.read(QUEUE_PFN + 1, BYTE), Ok(0x12));
    assert_eq!(virtio.read(QUEUE_PFN, DOUBLEWORD), Err(Exception::LoadAccessFault));
}

#[test]
fn virtio_rejects_a_second_queue_and_a_bad_acknowledgement() {
    let mut virtio = Virtio::new();
    assert_eq!(
        virtio.write(rvemu::devices::virtio_blk::QUEUE_SEL, 1, WORD),
        Err(Exception::StoreAMOAccessFault)
    );
    assert_eq!(virtio.write(rvemu::devices::virtio_blk::QUEUE_SEL, 0, WORD), Ok(()));
    assert_eq!(
        virtio.write(rvemu::devices::virtio_blk::INTERRUPT_ACK, 2, WORD),
        Err(Exception::StoreAMOAccessFault)
    );
}

#[test]
fn legacy_virtio_acknowledgement_clears_the_interrupt_status() {
    let mut v = legacy::Virtio::new();
    v.write(legacy::VIRTIO_MMIO_INTERRUPT_ACK, 1);
    assert_eq!(v.read(legacy::VIRTIO_MMIO_INTERRUPT_STATUS), 0);
    v.write(legacy::VIRTIO_STATUS, 7);
    assert_eq!(v.read(legacy::VIRTIO_STATUS), 7);
}

#[test]
fn failed_disk_access_halts_the_emulator() {
    let mut emu = rvemu::emulator::Emulator::new();
    emu.cpu.bus.initialize_disk(vec![0u8; 600]);
    set_up_request(&mut emu.cpu, 1);
    emu.cpu.bus.write(QUEUE_NOTIFY, 0, WORD).unwrap();
    assert_eq!(
        emu.step(),
        Err(rvemu::emulator::Halt::DiskAccess(Exception::StoreAMOAccessFault))
    );
}

#[test]
fn plic_claim_is_apart_from_the_threshold() {
    let mut plic = Plic::new();
    plic.write(PLIC_BASE + 0x201000, 3, WORD).unwrap();
    plic.write(PLIC_SCLAIM, 10, WORD).unwrap();
    assert_eq!(plic.read(PLIC_BASE + 0x201000, WORD), Ok(3));
    assert_eq!(plic.read(PLIC_SCLAIM, WORD), Ok(10));
    plic.write(PLIC_BASE + 0x200000, 5, WORD).unwrap();
    plic.write(PLIC_BASE + 0x200004, 7, WORD).unwrap();
    assert_eq!(plic.read(PLIC_BASE + 0x200000, WORD), Ok(5));
    assert_eq!(plic.read(PLIC_BASE + 0x200004, WORD), Ok(7));
    assert_eq!(plic.read(PLIC_BASE + 0x201000, WORD), Ok(3));
    assert_eq!(plic.read(PLIC_BASE + 0x200008, WORD), Err(Exception::LoadAccessFault));
    assert_eq!(plic.write(PLIC_BASE + 0x200008, 1, WORD), Err(Exception::StoreAMOAccessFault));
}

#[test]
fn virtio_config_byte_read_after_write() {
    let mut virtio = Virtio::new();
    virtio.write(CONFIG + 1, 0xab, BYTE).unwrap();
    assert_eq!(virtio.read(CONFIG + 1, BYTE), Ok(0xab));
    virtio.write(CONFIG + 7, 0x1cd, BYTE).unwrap();
    assert_eq!(virtio.read(CONFIG + 7, BYTE), Ok(0xcd));
    assert_eq!(virtio.read(CONFIG, BYTE), Ok(0));
    assert_eq!(virtio.write(CONFIG, 1, WORD), Err(Exception::StoreAMOAccessFault));
}

#[test]
fn virtio_notification_survives_other_writes() {
    let mut virtio = Virtio::new();
    virtio.write(QUEUE_NOTIFY, 0, WORD).unwrap();
    virtio.write(GUEST_PAGE_SIZE, 4096, WORD).unwrap();
    virtio.write(STATUS, 0, WORD).unwrap();
    assert!(virtio.is_interrupting());
    virtio.write(QUEUE_NUM, 8, WORD).unwrap();
    assert!(!virtio.is_interrupting());
}

#[test]
fn dram_load_survives_later_stores_elsewhere() {
    let mut bus = Bus::new();
    bus.write(DRAM_BASE + 0x10, 0x1122_3344, WORD).unwrap();
    bus.write(DRAM_BASE + 0x14, 0xffff_ffff_ffff_ffff, DOUBLEWORD).unwrap();
    bus.write(DRAM_BASE + 0xf, 0xee, BYTE).unwrap();
    bus.write(QUEUE_NOTIFY, 0, WORD).unwrap();
    assert_eq!(bus.read(DRAM_BASE + 0x10, WORD), Ok(0x1122_3344));
}

#[test]
fn clint_registers_end_where_they_end() {
    let mut clint = Clint::new();
    assert_eq!(clint.write(MSIP + 4, 1, BYTE), Err(Exception::StoreAMOAccessFault));
    assert_eq!(clint.write(MSIP, 1, DOUBLEWORD), Err(Exception::StoreAMOAccessFault));
    assert_eq!(clint.write(MSIP + 2, 1, WORD), Err(Exception::StoreAMOAccessFault));
    assert_eq!(clint.read(MSIP, DOUBLEWORD), Err(Exception::LoadAccessFault));
    clint.write(MSIP + 3, 0xab, BYTE).unwrap();
    assert_eq!(clint.read(MSIP, WORD), Ok(0xab00_0000));
    assert_eq!(clint.write(MTIME_COMPARE + 8, 5, DOUBLEWORD), Err(Exception::StoreAMOAccessFault));
    assert_eq!(clint.write(MTIME + 8, 5, DOUBLEWORD), Err(Exception::StoreAMOAccessFault));
    assert_eq!(clint.write(MTIME + 6, 5, WORD), Err(Exception::StoreAMOAccessFault));
    clint.write(MTIME + 4, 0x1122_3344, WORD).unwrap();
    assert_eq!(clint.read(MTIME, DOUBLEWORD), Ok(0x1122_3344_0000_0000));
    assert_eq!(clint.read(MTIME + 7, BYTE), Ok(0x11));
}

#[test]
fn plic_misaligned_context_word_reaches_the_claim() {
    let mut plic = Plic::new();
    plic.write(PLIC_BASE + 0x200000, 5, WORD).unwrap();
    plic.write(PLIC_BASE + 0x200001, 9, WORD).unwrap();
    assert_eq!(plic.read(PLIC_BASE + 0x200000, WORD), Ok(5));
    assert_eq!(plic.read(PLIC_BASE + 0x200004, WORD), Ok(9));
    assert_eq!(plic.read(PLIC_BASE + 0x200002, WORD), Ok(9));
}
