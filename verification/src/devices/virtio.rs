//! The virtio module contains a virtualization standard for a block device, through the
//! "legacy" virtio interface: a register file of 4-byte registers and a disk.
//!
//! The spec for Virtual I/O Device (VIRTIO) Version 1.1:
//!   https://docs.oasis-open.org/virtio/virtio/v1.1/virtio-v1.1.html
//! 5.2 Block Device:
//! https://docs.oasis-open.org/virtio/virtio/v1.1/cs01/virtio-v1.1-cs01.html#x1-2390002

use vstd::prelude::*;

use crate::devices::virtio_blk::VIRTIO_BASE;

verus! {

/// Magic value. Always return 0x74726976 (a Little Endian equivalent of the "virt" string).
pub const VIRTIO_MAGIC: u64 = VIRTIO_BASE + 0x000;
/// Device version number. 1 is legacy.
pub const VIRTIO_VERSION: u64 = VIRTIO_BASE + 0x004;
/// Virtio Subsystem Device ID. 1 is network, 2 is block device.
pub const VIRTIO_DEVICE_ID: u64 = VIRTIO_BASE + 0x008;
/// Virtio Subsystem Vendor ID. Always return 0x554d4551
pub const VIRTIO_VENDOR_ID: u64 = VIRTIO_BASE + 0x00c;
/// Flags representing features the device supports.
pub const VIRTIO_DEVICE_FEATURES: u64 = VIRTIO_BASE + 0x010;
/// Flags representing device features understood and activated by the driver.
pub const VIRTIO_DRIVER_FEATURES: u64 = VIRTIO_BASE + 0x020;
/// Guest page size (4.2.4 Legacy interface). Write-only.
pub const VIRTIO_GUEST_PAGE_SIZE: u64 = VIRTIO_BASE + 0x028;
/// Virtual queue index. Write-only.
pub const VIRTIO_QUEUE_SEL: u64 = VIRTIO_BASE + 0x030;
/// Maximum virtual queue size. Read-only. In QEMU, `VIRTIO_COUNT = 8`.
pub const VIRTIO_QUEUE_NUM_MAX: u64 = VIRTIO_BASE + 0x034;
/// Virtual queue size. Write-only.
pub const VIRTIO_QUEUE_NUM: u64 = VIRTIO_BASE + 0x038;
/// Guest physical page number of the virtual queue.
pub const VIRTIO_QUEUE_PFN: u64 = VIRTIO_BASE + 0x040;
/// Queue notifier. Write-only.
pub const VIRTIO_QUEUE_NOTIFY: u64 = VIRTIO_BASE + 0x050;
/// Interrupt status.
pub const VIRTIO_MMIO_INTERRUPT_STATUS: u64 = VIRTIO_BASE + 0x060;
/// Interrupt acknowledge.
pub const VIRTIO_MMIO_INTERRUPT_ACK: u64 = VIRTIO_BASE + 0x064;
/// Device status. Writing zero (0x0) to this register triggers a device reset.
pub const VIRTIO_STATUS: u64 = VIRTIO_BASE + 0x070;

/// The value of `queue_notify` while no queue was notified.
pub const NO_NOTIFICATION: u32 = 9999;

/// The state of a legacy virtio block device.
pub struct LegacyVirtioView {
    pub id: u64,
    pub driver_features: u32,
    pub page_size: u32,
    pub queue_sel: u32,
    pub queue_num: u32,
    pub queue_pfn: u32,
    pub queue_notify: u32,
    pub interrupt_status: u32,
    pub status: u32,
    pub disk: Seq<u8>,
}

/// The value a 4-byte read of the register at `addr` gives; 0 for an address that no readable
/// register starts at.
pub open spec fn legacy_read_spec(v: LegacyVirtioView, addr: u64) -> u32 {
    if addr == VIRTIO_MAGIC {
        0x74726976
    } else if addr == VIRTIO_VERSION {
        0x1
    } else if addr == VIRTIO_DEVICE_ID {
        0x2
    } else if addr == VIRTIO_VENDOR_ID {
        0x554d4551
    } else if addr == VIRTIO_DEVICE_FEATURES {
        0
    } else if addr == VIRTIO_DRIVER_FEATURES {
        v.driver_features
    } else if addr == VIRTIO_QUEUE_NUM_MAX {
        8
    } else if addr == VIRTIO_QUEUE_PFN {
        v.queue_pfn
    } else if addr == VIRTIO_MMIO_INTERRUPT_STATUS {
        v.interrupt_status
    } else if addr == VIRTIO_STATUS {
        v.status
    } else {
        0
    }
}

/// The device after a 4-byte write of `val` to the register at `addr`; a write to an address
/// that no writable register starts at changes nothing. Acknowledging bit 0 clears it in the
/// interrupt status.
pub open spec fn legacy_write_spec(v: LegacyVirtioView, addr: u64, val: u32) -> LegacyVirtioView {
    if addr == VIRTIO_DEVICE_FEATURES {
        LegacyVirtioView { driver_features: val, ..v }
    } else if addr == VIRTIO_GUEST_PAGE_SIZE {
        LegacyVirtioView { page_size: val, ..v }
    } else if addr == VIRTIO_QUEUE_SEL {
        LegacyVirtioView { queue_sel: val, ..v }
    } else if addr == VIRTIO_QUEUE_NUM {
        LegacyVirtioView { queue_num: val, ..v }
    } else if addr == VIRTIO_QUEUE_PFN {
        LegacyVirtioView { queue_pfn: val, ..v }
    } else if addr == VIRTIO_QUEUE_NOTIFY {
        LegacyVirtioView { queue_notify: val, ..v }
    } else if addr == VIRTIO_MMIO_INTERRUPT_ACK {
        LegacyVirtioView { interrupt_status: v.interrupt_status & !1u32, ..v }
    } else if addr == VIRTIO_STATUS {
        LegacyVirtioView { status: val, ..v }
    } else {
        v
    }
}

/// Paravirtualized drivers for IO virtualization.
pub struct Virtio {
    id: u64,
    /// 2.2 Feature Bits: each virtio device offers all the features it understands.
    driver_features: u32,
    page_size: u32,
    queue_sel: u32,
    queue_num: u32,
    queue_pfn: u32,
    queue_notify: u32,
    interrupt_status: u32,
    /// "The device status field provides a simple low-level indication of the completed steps
    /// of this sequence. The device MUST initialize device status to 0 upon reset."
    status: u32,
    disk: Vec<u8>,
}

impl View for Virtio {
    type V = LegacyVirtioView;

    closed spec fn view(&self) -> LegacyVirtioView {
        LegacyVirtioView {
            id: self.id,
            driver_features: self.driver_features,
            page_size: self.page_size,
            queue_sel: self.queue_sel,
            queue_num: self.queue_num,
            queue_pfn: self.queue_pfn,
            queue_notify: self.queue_notify,
            interrupt_status: self.interrupt_status,
            status: self.status,
            disk: self.disk@,
        }
    }
}

impl Virtio {
    /// Create a new virtio object: every register 0, no queue notified, an empty disk.
    pub fn new() -> (v: Self)
        ensures
            v@ == (LegacyVirtioView {
                id: 0,
                driver_features: 0,
                page_size: 0,
                queue_sel: 0,
                queue_num: 0,
                queue_pfn: 0,
                queue_notify: NO_NOTIFICATION,
                interrupt_status: 0,
                status: 0,
                disk: Seq::<u8>::empty(),
            }),
    {
        let v = Self {
            id: 0,
            driver_features: 0,
            page_size: 0,
            queue_sel: 0,
            queue_num: 0,
            queue_pfn: 0,
            queue_notify: NO_NOTIFICATION,
            interrupt_status: 0,
            // "The device MUST initialize device status to 0 upon reset."
            status: 0,
            disk: Vec::new(),
        };
        assert(v@.disk =~= Seq::<u8>::empty());
        v
    }

    /// Return true if an interrupt is pending: a queue was notified since the last call.
    pub fn is_interrupting(&mut self) -> (r: bool)
        ensures
            r == (old(self)@.queue_notify != NO_NOTIFICATION),
            final(self)@ == (LegacyVirtioView { queue_notify: NO_NOTIFICATION, ..old(self)@ }),
    {
        if self.queue_notify != NO_NOTIFICATION {
            self.queue_notify = NO_NOTIFICATION;
            return true;
        }
        false
    }

    /// Append the binary to the virtio disk.
    pub fn initialize(&mut self, binary: Vec<u8>)
        ensures
            final(self)@ == (LegacyVirtioView { disk: old(self)@.disk + binary@, ..old(self)@ }),
    {
        let mut i: usize = 0;
        while i < binary.len()
            invariant
                i <= binary.len(),
                self@ == (LegacyVirtioView {
                    disk: old(self)@.disk + binary@.subrange(0, i as int),
                    ..old(self)@
                }),
            decreases binary.len() - i,
        {
            self.disk.push(binary[i]);
            i = i + 1;
            assert(self@.disk =~= old(self)@.disk + binary@.subrange(0, i as int));
        }
        assert(binary@.subrange(0, binary.len() as int) =~= binary@);
    }

    /// Read 4 bytes from virtio only if the addr is valid. Otherwise, return 0.
    pub fn read(&self, addr: u64) -> (r: u32)
        ensures
            r == legacy_read_spec(self@, addr),
    {
        if addr == VIRTIO_MAGIC {
            0x74726976  // read-only
        } else if addr == VIRTIO_VERSION {
            0x1  // read-only
        } else if addr == VIRTIO_DEVICE_ID {
            0x2  // read-only
        } else if addr == VIRTIO_VENDOR_ID {
            0x554d4551  // read-only
        } else if addr == VIRTIO_DEVICE_FEATURES {
            0
        } else if addr == VIRTIO_DRIVER_FEATURES {
            self.driver_features
        } else if addr == VIRTIO_QUEUE_NUM_MAX {
            8
        } else if addr == VIRTIO_QUEUE_PFN {
            self.queue_pfn
        } else if addr == VIRTIO_MMIO_INTERRUPT_STATUS {
            self.interrupt_status
        } else if addr == VIRTIO_STATUS {
            self.status
        } else {
            0
        }
    }

    /// Write 4 bytes to virtio only if the addr is valid. Otherwise, does nothing. An
    /// acknowledgement must acknowledge the used-buffer interrupt (bit 0).
    pub fn write(&mut self, addr: u64, val: u32)
        requires
            addr == VIRTIO_MMIO_INTERRUPT_ACK ==> val & 1 == 1,
        ensures
            final(self)@ == legacy_write_spec(old(self)@, addr, val),
    {
        if addr == VIRTIO_DEVICE_FEATURES {
            self.driver_features = val;
        } else if addr == VIRTIO_GUEST_PAGE_SIZE {
            self.page_size = val;
        } else if addr == VIRTIO_QUEUE_SEL {
            self.queue_sel = val;
        } else if addr == VIRTIO_QUEUE_NUM {
            self.queue_num = val;
        } else if addr == VIRTIO_QUEUE_PFN {
            self.queue_pfn = val;
        } else if addr == VIRTIO_QUEUE_NOTIFY {
            self.queue_notify = val;
        } else if addr == VIRTIO_MMIO_INTERRUPT_ACK {
            self.interrupt_status = self.interrupt_status & !1;
        } else if addr == VIRTIO_STATUS {
            self.status = val;
        }
    }

    /// Count one more used element and give the new count.
    pub fn get_new_id(&mut self) -> (r: u64)
        ensures
            r == old(self)@.id.wrapping_add(1),
            final(self)@ == (LegacyVirtioView { id: r, ..old(self)@ }),
    {
        self.id = self.id.wrapping_add(1);
        self.id
    }

    /// The address of the descriptor table: the queue's page number times the page size.
    pub fn desc_addr(&self) -> (r: u64)
        ensures
            r == self@.queue_pfn * self@.page_size,
    {
        assert(self.queue_pfn as u64 * self.page_size as u64 <= 0xffff_ffffu64 * 0xffff_ffffu64)
            by (nonlinear_arith);
        self.queue_pfn as u64 * self.page_size as u64
    }

    /// Read a byte of the disk.
    pub fn read_disk(&self, addr: u64) -> (r: u64)
        requires
            addr < self@.disk.len(),
        ensures
            r == self@.disk[addr as int] as u64,
    {
        // The length is a usize: the index arithmetic below cannot overflow.
        let _len = self.disk.len();
        self.disk[addr as usize] as u64
    }

    /// Write a byte of the disk.
    pub fn write_disk(&mut self, addr: u64, value: u64)
        requires
            addr < old(self)@.disk.len(),
        ensures
            final(self)@ == (LegacyVirtioView {
                disk: old(self)@.disk.update(addr as int, value as u8),
                ..old(self)@
            }),
    {
        // The length is a usize: the index arithmetic below cannot overflow.
        let _len = self.disk.len();
        self.disk.set(addr as usize, value as u8);
        assert(self@.disk =~= old(self)@.disk.update(addr as int, value as u8));
    }
}

} // verus!
