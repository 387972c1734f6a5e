//! The virtio_blk module implements a virtio block device.
//!
//! The spec for Virtual I/O Device (VIRTIO) Version 1.1:
//! https://docs.oasis-open.org/virtio/virtio/v1.1/virtio-v1.1.html
//! 5.2 Block Device:
//! https://docs.oasis-open.org/virtio/virtio/v1.1/cs01/virtio-v1.1-cs01.html#x1-2390002

use vstd::prelude::*;

use crate::exception::Exception;
use crate::le::{BYTE, HALFWORD, WORD};

verus! {

/// The address which virtio starts.
pub const VIRTIO_BASE: u64 = 0x1000_1000;

/// The interrupt request of virtio.
pub const VIRTIO_IRQ: u64 = 1;

/// The size of `VRingDesc` struct.
pub const VRING_DESC_SIZE: u64 = 16;
/// The number of virtio descriptors. It must be a power of two.
pub const QUEUE_SIZE: u64 = 8;
/// The size of a sector.
pub const SECTOR_SIZE: u64 = 512;

/// This marks a buffer as continuing via the next field.
pub const VIRTQ_DESC_F_NEXT: u64 = 1;
/// This marks a buffer as device write-only (otherwise device read-only).
pub const VIRTQ_DESC_F_WRITE: u64 = 2;
/// This means the buffer contains a list of buffer descriptors.
pub const VIRTQ_DESC_F_INDIRECT: u64 = 4;

// 4.2.2 MMIO Device Register Layout. Each register is given by its first address; all of them
// are 4 bytes long but the configuration space, which is 8.
/// Magic value. Always return 0x74726976 (a Little Endian equivalent of the "virt" string).
pub const MAGIC: u64 = VIRTIO_BASE;
/// Device version number. 1 is legacy.
pub const VERSION: u64 = VIRTIO_BASE + 0x4;
/// Virtio Subsystem Device ID. 1 is network, 2 is block device.
pub const DEVICE_ID: u64 = VIRTIO_BASE + 0x8;
/// Virtio Subsystem Vendor ID. Always return 0x554d4551
pub const VENDOR_ID: u64 = VIRTIO_BASE + 0xc;
/// Flags representing features the device supports.
pub const DEVICE_FEATURES: u64 = VIRTIO_BASE + 0x10;
/// Device (host) features word selection.
pub const DEVICE_FEATURES_SEL: u64 = VIRTIO_BASE + 0x14;
/// Flags representing device features understood and activated by the driver.
pub const DRIVER_FEATURES: u64 = VIRTIO_BASE + 0x20;
/// Activated (guest) features word selection.
pub const DRIVER_FEATURES_SEL: u64 = VIRTIO_BASE + 0x24;
/// Guest page size (4.2.4 Legacy interface). Write-only.
pub const GUEST_PAGE_SIZE: u64 = VIRTIO_BASE + 0x28;
/// Virtual queue index. Write-only.
pub const QUEUE_SEL: u64 = VIRTIO_BASE + 0x30;
/// Maximum virtual queue size. Read-only.
pub const QUEUE_NUM_MAX: u64 = VIRTIO_BASE + 0x34;
/// Virtual queue size. Write-only.
pub const QUEUE_NUM: u64 = VIRTIO_BASE + 0x38;
/// Used Ring alignment in the virtual queue.
pub const QUEUE_ALIGN: u64 = VIRTIO_BASE + 0x3c;
/// Guest physical page number of the virtual queue.
pub const QUEUE_PFN: u64 = VIRTIO_BASE + 0x40;
/// Queue notifier. Write-only.
pub const QUEUE_NOTIFY: u64 = VIRTIO_BASE + 0x50;
/// Interrupt status.
pub const INTERRUPT_STATUS: u64 = VIRTIO_BASE + 0x60;
/// Interrupt acknowledge.
pub const INTERRUPT_ACK: u64 = VIRTIO_BASE + 0x64;
/// Device status. Writing zero (0x0) to this register triggers a device reset.
pub const STATUS: u64 = VIRTIO_BASE + 0x70;
/// Configuration space (8 bytes).
pub const CONFIG: u64 = VIRTIO_BASE + 0x100;

/// `addr` lies in the 4-byte register that starts at `reg`.
pub open spec fn in_reg(addr: u64, reg: u64) -> bool {
    reg <= addr <= reg + 3
}

/// The state of a virtio block device.
pub struct VirtioView {
    pub id: u64,
    pub device_features: Seq<u32>,
    pub device_features_sel: u32,
    pub driver_features: Seq<u32>,
    pub driver_features_sel: u32,
    pub guest_page_size: u32,
    pub queue_num: u32,
    pub queue_align: u32,
    pub queue_pfn: u32,
    pub queue_notify: u32,
    pub interrupt_status: u32,
    pub status: u32,
    pub config: Seq<u8>,
    pub disk: Seq<u8>,
}

/// The value of the readable register `addr` lies in, with the byte offset of `addr` in it;
/// `None` for an address that no readable register covers or a feature word selection that
/// names no word.
pub open spec fn readable_reg(v: VirtioView, addr: u64) -> Option<(u32, u64)> {
    if in_reg(addr, MAGIC) {
        Some((0x74726976u32, (addr - MAGIC) as u64))
    } else if in_reg(addr, VERSION) {
        Some((1u32, (addr - VERSION) as u64))
    } else if in_reg(addr, DEVICE_ID) {
        Some((2u32, (addr - DEVICE_ID) as u64))
    } else if in_reg(addr, VENDOR_ID) {
        Some((0x554d4551u32, (addr - VENDOR_ID) as u64))
    } else if in_reg(addr, DEVICE_FEATURES) {
        if v.device_features_sel < 2 {
            Some((v.device_features[v.device_features_sel as int], (addr - DEVICE_FEATURES) as u64))
        } else {
            None
        }
    } else if in_reg(addr, QUEUE_NUM_MAX) {
        Some((QUEUE_SIZE as u32, (addr - QUEUE_NUM_MAX) as u64))
    } else if in_reg(addr, QUEUE_PFN) {
        Some((v.queue_pfn, (addr - QUEUE_PFN) as u64))
    } else if in_reg(addr, INTERRUPT_STATUS) {
        Some((v.interrupt_status, (addr - INTERRUPT_STATUS) as u64))
    } else if in_reg(addr, STATUS) {
        Some((v.status, (addr - STATUS) as u64))
    } else {
        None
    }
}

/// The part of the 32-bit `reg` that a `size`-bit load at byte `offset` reads.
pub open spec fn extract32(reg: u32, offset: u64, size: u8) -> Option<u64> {
    if size == BYTE {
        Some(((reg >> (offset * 8) as u32) & 0xff) as u64)
    } else if size == HALFWORD {
        Some(((reg >> (offset * 8) as u32) & 0xffff) as u64)
    } else if size == WORD {
        Some(((reg >> (offset * 8) as u32) & 0xffffffff) as u64)
    } else {
        None
    }
}

/// The result of a `size`-bit load at `addr`. The configuration space serves byte loads only.
pub open spec fn virtio_read_spec(v: VirtioView, addr: u64, size: u8) -> Result<u64, Exception> {
    if CONFIG <= addr <= CONFIG + 7 {
        if size != BYTE {
            Err(Exception::StoreAMOAccessFault)
        } else {
            Ok(v.config[addr - CONFIG] as u64)
        }
    } else {
        match readable_reg(v, addr) {
            None => Err(Exception::LoadAccessFault),
            Some((reg, offset)) => match extract32(reg, offset, size) {
                Some(val) => Ok(val),
                None => Err(Exception::LoadAccessFault),
            },
        }
    }
}

/// `reg` with the part that a `size`-bit store at byte `offset` covers replaced by `value`.
pub open spec fn insert32(reg: u32, offset: u64, value: u32, size: u8) -> Option<u32> {
    if size == BYTE {
        Some((reg & !(0xffu32 << (offset * 8) as u32)) | ((value & 0xff) << (offset * 8) as u32))
    } else if size == HALFWORD {
        Some((reg & !(0xffffu32 << (offset * 8) as u32)) | ((value & 0xffff) << (offset
            * 8) as u32))
    } else if size == WORD {
        Some(value)
    } else {
        None
    }
}

/// The value and the byte offset of the writable register `addr` lies in.
pub open spec fn writable_reg(v: VirtioView, addr: u64) -> Option<(u32, u64)> {
    if in_reg(addr, DEVICE_FEATURES_SEL) {
        Some((v.device_features_sel, (addr - DEVICE_FEATURES_SEL) as u64))
    } else if in_reg(addr, DRIVER_FEATURES) {
        if v.driver_features_sel < 2 {
            Some((v.driver_features[v.driver_features_sel as int], (addr - DRIVER_FEATURES) as u64))
        } else {
            None
        }
    } else if in_reg(addr, DRIVER_FEATURES_SEL) {
        Some((v.driver_features_sel, (addr - DRIVER_FEATURES_SEL) as u64))
    } else if in_reg(addr, GUEST_PAGE_SIZE) {
        Some((v.guest_page_size, (addr - GUEST_PAGE_SIZE) as u64))
    } else if in_reg(addr, QUEUE_NUM) {
        Some((v.queue_num, (addr - QUEUE_NUM) as u64))
    } else if in_reg(addr, QUEUE_ALIGN) {
        Some((v.queue_align, (addr - QUEUE_ALIGN) as u64))
    } else if in_reg(addr, QUEUE_PFN) {
        Some((v.queue_pfn, (addr - QUEUE_PFN) as u64))
    } else if in_reg(addr, QUEUE_NOTIFY) {
        Some((v.queue_notify, (addr - QUEUE_NOTIFY) as u64))
    } else if in_reg(addr, STATUS) {
        Some((v.status, (addr - STATUS) as u64))
    } else {
        None
    }
}

/// The device after its writable register at `addr` took the value `reg`. Writing 0 to the
/// status register resets the device.
pub open spec fn store_reg(v: VirtioView, addr: u64, reg: u32) -> VirtioView {
    if in_reg(addr, DEVICE_FEATURES_SEL) {
        VirtioView { device_features_sel: reg, ..v }
    } else if in_reg(addr, DRIVER_FEATURES) {
        VirtioView {
            driver_features: v.driver_features.update(v.driver_features_sel as int, reg),
            ..v
        }
    } else if in_reg(addr, DRIVER_FEATURES_SEL) {
        VirtioView { driver_features_sel: reg, ..v }
    } else if in_reg(addr, GUEST_PAGE_SIZE) {
        VirtioView { guest_page_size: reg, ..v }
    } else if in_reg(addr, QUEUE_NUM) {
        VirtioView { queue_num: reg, ..v }
    } else if in_reg(addr, QUEUE_ALIGN) {
        VirtioView { queue_align: reg, ..v }
    } else if in_reg(addr, QUEUE_PFN) {
        VirtioView { queue_pfn: reg, ..v }
    } else if in_reg(addr, QUEUE_NOTIFY) {
        VirtioView { queue_notify: reg, ..v }
    } else if reg == 0 {
        VirtioView { status: reg, id: 0, interrupt_status: 0, ..v }
    } else {
        VirtioView { status: reg, ..v }
    }
}

/// The device after a `size`-bit store of `value` at `addr`, and the result of the store. Only
/// queue 0 exists, an acknowledgement must have bit 0 set, and the configuration space takes
/// byte stores only, each keeping the byte stored; other such stores raise a store access fault.
pub open spec fn virtio_write_spec(v: VirtioView, addr: u64, value: u32, size: u8) -> (
    VirtioView,
    Result<(), Exception>,
) {
    if in_reg(addr, QUEUE_SEL) {
        if value != 0 {
            (v, Err(Exception::StoreAMOAccessFault))
        } else {
            (v, Ok(()))
        }
    } else if in_reg(addr, INTERRUPT_ACK) {
        if value & 1 == 1 {
            (VirtioView { interrupt_status: v.interrupt_status & !1u32, ..v }, Ok(()))
        } else {
            (v, Err(Exception::StoreAMOAccessFault))
        }
    } else if CONFIG <= addr <= CONFIG + 7 {
        if size != BYTE {
            (v, Err(Exception::StoreAMOAccessFault))
        } else {
            (
                VirtioView {
                    config: v.config.update(
                        addr - CONFIG,
                        value as u8,
                    ),
                    ..v
                },
                Ok(()),
            )
        }
    } else {
        match writable_reg(v, addr) {
            None => (v, Err(Exception::StoreAMOAccessFault)),
            Some((reg, offset)) => match insert32(reg, offset, value, size) {
                None => (v, Err(Exception::StoreAMOAccessFault)),
                Some(new_reg) => (store_reg(v, addr, new_reg), Ok(())),
            },
        }
    }
}

/// The device after a check for a pending interrupt, and the answer: a notification is pending
/// when the queue notifier holds a queue number, and the check consumes it.
pub open spec fn interrupt_poll(v: VirtioView) -> (VirtioView, bool) {
    (VirtioView { queue_notify: u32::MAX, ..v }, v.queue_notify != u32::MAX)
}

/// A store to the device: its address, its value and its size in bits.
pub type VirtioStore = (u64, u32, u8);

/// The device after the stores `ws`, in order, whatever each of them returns.
pub open spec fn virtio_writes(v: VirtioView, ws: Seq<VirtioStore>) -> VirtioView
    decreases ws.len(),
{
    if ws.len() == 0 {
        v
    } else {
        virtio_writes(virtio_write_spec(v, ws[0].0, ws[0].1, ws[0].2).0, ws.drop_first())
    }
}

/// None of the stores `ws` is to the queue notifier.
pub open spec fn no_notify(ws: Seq<VirtioStore>) -> bool {
    forall|k: int| 0 <= k < ws.len() ==> !in_reg(#[trigger] ws[k].0, QUEUE_NOTIFY)
}

/// Every store in `ws` to the queue notifier is a 4-byte store of a queue number (any value but
/// `u32::MAX`, which stands for "no notification").
pub open spec fn notifies_only(ws: Seq<VirtioStore>) -> bool {
    forall|k: int|
        0 <= k < ws.len() && in_reg(#[trigger] ws[k].0, QUEUE_NOTIFY) ==> ws[k].2 == WORD
            && ws[k].1 != u32::MAX
}

/// The features a virtio block device offers: VIRTIO_F_IN_ORDER (bit 35), which indicates that
/// all buffers are used by the device in the same order in which they have been made available.
pub open spec fn offered_features() -> Seq<u32> {
    seq![0u32, 1u32 << 3]
}

/// Paravirtualized drivers for IO virtualization.
pub struct Virtio {
    id: u64,
    device_features: [u32; 2],
    device_features_sel: u32,
    driver_features: [u32; 2],
    driver_features_sel: u32,
    guest_page_size: u32,
    queue_num: u32,
    queue_align: u32,
    queue_pfn: u32,
    queue_notify: u32,
    interrupt_status: u32,
    status: u32,
    config: [u8; 8],
    disk: Vec<u8>,
}

impl View for Virtio {
    type V = VirtioView;

    closed spec fn view(&self) -> VirtioView {
        VirtioView {
            id: self.id,
            device_features: self.device_features@,
            device_features_sel: self.device_features_sel,
            driver_features: self.driver_features@,
            driver_features_sel: self.driver_features_sel,
            guest_page_size: self.guest_page_size,
            queue_num: self.queue_num,
            queue_align: self.queue_align,
            queue_pfn: self.queue_pfn,
            queue_notify: self.queue_notify,
            interrupt_status: self.interrupt_status,
            status: self.status,
            config: self.config@,
            disk: self.disk@,
        }
    }
}

impl Virtio {
    /// The register arrays keep their sizes.
    pub open spec fn wf_view(v: VirtioView) -> bool {
        &&& v.device_features.len() == 2
        &&& v.driver_features.len() == 2
        &&& v.config.len() == 8
    }

    /// The register arrays of a device have their fixed sizes.
    pub proof fn lemma_wf(&self)
        ensures
            Self::wf_view(self@),
    {
    }

    /// A new device: no feature selected or activated, no queue, no interrupt pending, an
    /// empty disk.
    pub open spec fn new_spec() -> VirtioView {
        VirtioView {
                id: 0,
                device_features: offered_features(),
                device_features_sel: 0,
                driver_features: seq![0u32, 0u32],
                driver_features_sel: 0,
                guest_page_size: 0,
                queue_num: 0,
                queue_align: 0x1000,
                queue_pfn: 0,
                queue_notify: u32::MAX,
                interrupt_status: 0,
                status: 0,
                config: Seq::new(8, |i: int| 0u8),
                disk: Seq::<u8>::empty(),
            }
    }

    /// Creates a new virtio object.
    pub fn new() -> (v: Self)
        ensures
            v@ == Self::new_spec(),
    {
        let v = Self {
            id: 0,
            device_features: Virtio::device_features(),
            device_features_sel: 0,
            driver_features: [0u32; 2],
            driver_features_sel: 0,
            guest_page_size: 0,
            queue_num: 0,
            // default value to avoid division by 0.
            queue_align: 0x1000,
            queue_pfn: 0,
            queue_notify: u32::MAX,
            interrupt_status: 0,
            status: 0,
            config: [0u8; 8],
            disk: Vec::new(),
        };
        assert(v@.driver_features =~= seq![0u32, 0u32]);
        assert(v@.config =~= Seq::new(8, |i: int| 0u8));
        assert(v@.disk =~= Seq::<u8>::empty());
        v
    }

    /// Returns device features.
    fn device_features() -> (f: [u32; 2])
        ensures
            f@ == offered_features(),
    {
        let mut features = [0u32; 2];
        // VIRTIO_F_IN_ORDER(Bit 35). This feature indicates that all buffers are used by the
        // device in the same order in which they have been made available.
        features[1] = features[1] | (1u32 << 3);
        assert(0u32 | (1u32 << 3) == 1u32 << 3) by (bit_vector);
        assert(features@ =~= offered_features());
        features
    }

    /// Resets the device when `status` is written to 0.
    fn reset(&mut self)
        ensures
            final(self)@ == (VirtioView { id: 0, interrupt_status: 0, ..old(self)@ }),
    {
        self.id = 0;
        // 4.2.2.1 "Upon reset, the device MUST clear all bits in InterruptStatus and ready bits
        // in the QueueReady register for all queues in the device."
        self.interrupt_status = 0;
    }

    /// Initializes a virtqueue once the device initialization is finished by setting the
    /// DRIVER_OK status bit (0x4). Nothing needs to be prepared for it.
    fn init_virtqueue() {
    }

    /// Returns true if an interrupt is pending: the guest notified a queue since the last call.
    pub fn is_interrupting(&mut self) -> (r: bool)
        ensures
            (final(self)@, r) == interrupt_poll(old(self)@),
    {
        if self.queue_notify != u32::MAX {
            self.queue_notify = u32::MAX;
            return true;
        }
        false
    }

    /// Appends the binary to the virtio disk.
    pub fn initialize(&mut self, binary: Vec<u8>)
        ensures
            final(self)@ == (VirtioView { disk: old(self)@.disk + binary@, ..old(self)@ }),
    {
        let mut i: usize = 0;
        while i < binary.len()
            invariant
                i <= binary.len(),
                self@ == (VirtioView {
                    disk: old(self)@.disk + binary@.subrange(0, i as int),
                    ..old(self)@
                }),
            decreases binary.len() - i,
        {
            self.disk.push(binary[i]);
            i = i + 1;
            assert(self@.disk =~= old(self)@.disk + binary@.subrange(0, i as int));
        }
        assert(binary@.subrange(0, binary.len() as int) =~= binary@);
    }

    /// Loads `size`-bit data from a register located at `addr` in the virtio block device.
    pub fn read(&self, addr: u64, size: u8) -> (r: Result<u64, Exception>)
        ensures
            r == virtio_read_spec(self@, addr, size),
    {
        if CONFIG <= addr && addr <= CONFIG + 7 {
            if size != BYTE {
                return Err(Exception::StoreAMOAccessFault);
            }
            let index = addr - CONFIG;
            return Ok(self.config[index as usize] as u64);
        }
        // `reg` is the value of a target register in the virtio block device and `offset` is
        // the byte of the start position in the register.
        let (reg, offset): (u32, u64) = if MAGIC <= addr && addr <= MAGIC + 3 {
            // A Little Endian equivalent of the "virt" string.
            (0x74726976, addr - MAGIC)
        } else if VERSION <= addr && addr <= VERSION + 3 {
            // Legacy devices (see 4.2.4 Legacy interface) used 0x1.
            (0x1, addr - VERSION)
        } else if DEVICE_ID <= addr && addr <= DEVICE_ID + 3 {
            // Block device.
            (0x2, addr - DEVICE_ID)
        } else if VENDOR_ID <= addr && addr <= VENDOR_ID + 3 {
            (0x554d4551, addr - VENDOR_ID)
        } else if DEVICE_FEATURES <= addr && addr <= DEVICE_FEATURES + 3 {
            if self.device_features_sel >= 2 {
                return Err(Exception::LoadAccessFault);
            }
            (self.device_features[self.device_features_sel as usize], addr - DEVICE_FEATURES)
        } else if QUEUE_NUM_MAX <= addr && addr <= QUEUE_NUM_MAX + 3 {
            (QUEUE_SIZE as u32, addr - QUEUE_NUM_MAX)
        } else if QUEUE_PFN <= addr && addr <= QUEUE_PFN + 3 {
            (self.queue_pfn, addr - QUEUE_PFN)
        } else if INTERRUPT_STATUS <= addr && addr <= INTERRUPT_STATUS + 3 {
            (self.interrupt_status, addr - INTERRUPT_STATUS)
        } else if STATUS <= addr && addr <= STATUS + 3 {
            (self.status, addr - STATUS)
        } else {
            return Err(Exception::LoadAccessFault);
        };
        let value: u32 = if size == BYTE {
            (reg >> (offset * 8) as u32) & 0xff
        } else if size == HALFWORD {
            (reg >> (offset * 8) as u32) & 0xffff
        } else if size == WORD {
            (reg >> (offset * 8) as u32) & 0xffffffff
        } else {
            return Err(Exception::LoadAccessFault);
        };
        Ok(value as u64)
    }

    /// Stores `size`-bit data to a register located at `addr` in the virtio block device.
    pub fn write(&mut self, addr: u64, value: u32, size: u8) -> (r: Result<(), Exception>)
        ensures
            (final(self)@, r) == virtio_write_spec(old(self)@, addr, value, size),
    {
        if QUEUE_SEL <= addr && addr <= QUEUE_SEL + 3 {
            // Multiple virtual queues are not supported.
            if value != 0 {
                return Err(Exception::StoreAMOAccessFault);
            }
            return Ok(());
        }
        if INTERRUPT_ACK <= addr && addr <= INTERRUPT_ACK + 3 {
            if (value & 0x1) == 1 {
                self.interrupt_status = self.interrupt_status & !1u32;
                return Ok(());
            }
            return Err(Exception::StoreAMOAccessFault);
        }
        if CONFIG <= addr && addr <= CONFIG + 7 {
            let index = addr - CONFIG;
            if size != BYTE {
                return Err(Exception::StoreAMOAccessFault);
            }
            // A byte store keeps the byte it stores.
            self.config[index as usize] = value as u8;
            assert(self@.config =~= old(self)@.config.update(addr - CONFIG, value as u8));
            return Ok(());
        }
        // `reg` is the value of a target register and `offset` is the byte of the start position
        // in the register.
        let (mut reg, offset): (u32, u64) = if DEVICE_FEATURES_SEL <= addr && addr
            <= DEVICE_FEATURES_SEL + 3 {
            (self.device_features_sel, addr - DEVICE_FEATURES_SEL)
        } else if DRIVER_FEATURES <= addr && addr <= DRIVER_FEATURES + 3 {
            if self.driver_features_sel >= 2 {
                return Err(Exception::StoreAMOAccessFault);
            }
            (self.driver_features[self.driver_features_sel as usize], addr - DRIVER_FEATURES)
        } else if DRIVER_FEATURES_SEL <= addr && addr <= DRIVER_FEATURES_SEL + 3 {
            (self.driver_features_sel, addr - DRIVER_FEATURES_SEL)
        } else if GUEST_PAGE_SIZE <= addr && addr <= GUEST_PAGE_SIZE + 3 {
            (self.guest_page_size, addr - GUEST_PAGE_SIZE)
        } else if QUEUE_NUM <= addr && addr <= QUEUE_NUM + 3 {
            (self.queue_num, addr - QUEUE_NUM)
        } else if QUEUE_ALIGN <= addr && addr <= QUEUE_ALIGN + 3 {
            (self.queue_align, addr - QUEUE_ALIGN)
        } else if QUEUE_PFN <= addr && addr <= QUEUE_PFN + 3 {
            (self.queue_pfn, addr - QUEUE_PFN)
        } else if QUEUE_NOTIFY <= addr && addr <= QUEUE_NOTIFY + 3 {
            (self.queue_notify, addr - QUEUE_NOTIFY)
        } else if STATUS <= addr && addr <= STATUS + 3 {
            (self.status, addr - STATUS)
        } else {
            return Err(Exception::StoreAMOAccessFault);
        };
        // Calculate the new value of the target register based on `size` and `offset`.
        if size == BYTE {
            // Clear the target byte, then set the new `value` to it.
            reg = reg & (!(0xffu32 << (offset * 8) as u32));
            reg = reg | ((value & 0xff) << (offset * 8) as u32);
        } else if size == HALFWORD {
            reg = reg & (!(0xffffu32 << (offset * 8) as u32));
            reg = reg | ((value & 0xffff) << (offset * 8) as u32);
        } else if size == WORD {
            reg = value;
        } else {
            return Err(Exception::StoreAMOAccessFault);
        }
        // Store the new register value to the target register.
        if DEVICE_FEATURES_SEL <= addr && addr <= DEVICE_FEATURES_SEL + 3 {
            self.device_features_sel = reg;
        } else if DRIVER_FEATURES <= addr && addr <= DRIVER_FEATURES + 3 {
            self.driver_features[self.driver_features_sel as usize] = reg;
            assert(self@.driver_features =~= old(self)@.driver_features.update(
                old(self)@.driver_features_sel as int,
                reg,
            ));
        } else if DRIVER_FEATURES_SEL <= addr && addr <= DRIVER_FEATURES_SEL + 3 {
            self.driver_features_sel = reg;
        } else if GUEST_PAGE_SIZE <= addr && addr <= GUEST_PAGE_SIZE + 3 {
            self.guest_page_size = reg;
        } else if QUEUE_NUM <= addr && addr <= QUEUE_NUM + 3 {
            self.queue_num = reg;
        } else if QUEUE_ALIGN <= addr && addr <= QUEUE_ALIGN + 3 {
            self.queue_align = reg;
        } else if QUEUE_PFN <= addr && addr <= QUEUE_PFN + 3 {
            self.queue_pfn = reg;
        } else if QUEUE_NOTIFY <= addr && addr <= QUEUE_NOTIFY + 3 {
            self.queue_notify = reg;
        } else {
            self.status = reg;
            // "Writing 0 into this field resets the device."
            if self.status == 0 {
                self.reset();
            }
        }
        Ok(())
    }

    /// Read a byte of the disk.
    pub fn read_disk(&self, addr: u64) -> (r: u64)
        requires
            addr < self@.disk.len(),
        ensures
            r == self@.disk[addr as int] as u64,
    {
        // The length is a usize: the index arithmetic below cannot overflow.
        let _len = self.disk.len();
        self.disk[addr as usize] as u64
    }

    /// Write a byte of the disk.
    pub fn write_disk(&mut self, addr: u64, value: u64)
        requires
            addr < old(self)@.disk.len(),
        ensures
            final(self)@ == (VirtioView {
                disk: old(self)@.disk.update(addr as int, value as u8),
                ..old(self)@
            }),
    {
        // The length is a usize: the index arithmetic below cannot overflow.
        let _len = self.disk.len();
        self.disk[addr as usize] = value as u8;
        assert(self@.disk =~= old(self)@.disk.update(addr as int, value as u8));
    }

    /// The number of bytes of the disk.
    pub fn disk_len(&self) -> (r: usize)
        ensures
            r == self@.disk.len(),
    {
        self.disk.len()
    }

    /// Records that the device has used a buffer: "Used Buffer Notification - bit 0 - the
    /// interrupt was asserted because the device has used a buffer in at least one of the active
    /// virtual queues."
    pub fn notify_used_buffer(&mut self)
        ensures
            final(self)@ == (VirtioView {
                interrupt_status: old(self)@.interrupt_status | 1,
                ..old(self)@
            }),
    {
        self.interrupt_status = self.interrupt_status | 0x1;
    }

    /// The number of used elements the device has returned since it was reset (modulo 2^64).
    pub fn id(&self) -> (r: u64)
        ensures
            r == self@.id,
    {
        self.id
    }

    /// Count one more used element.
    pub fn increment_id(&mut self)
        ensures
            final(self)@ == (VirtioView { id: old(self)@.id.wrapping_add(1), ..old(self)@ }),
    {
        self.id = self.id.wrapping_add(1);
    }

    /// The queue layout registers: the guest page size, the queue size, the used ring
    /// alignment and the page number of the queue.
    pub fn queue_layout(&self) -> (r: (u32, u32, u32, u32))
        ensures
            r == (self@.guest_page_size, self@.queue_num, self@.queue_align, self@.queue_pfn),
    {
        (self.guest_page_size, self.queue_num, self.queue_align, self.queue_pfn)
    }
}

/// The queue page number register holds what the driver writes to it: a 4-byte write followed
/// by a 4-byte read gives back the value written, and the write changes nothing else.
pub proof fn law_queue_pfn_read_after_write(v: VirtioView, value: u32)
    ensures
        virtio_write_spec(v, QUEUE_PFN, value, WORD) == (VirtioView { queue_pfn: value, ..v }, Ok::<
            (),
            Exception,
        >(())),
        virtio_read_spec(virtio_write_spec(v, QUEUE_PFN, value, WORD).0, QUEUE_PFN, WORD)
            == Ok::<u64, Exception>(value as u64),
{
    assert((value >> 0u32) & 0xffffffff == value) by (bit_vector);
}

proof fn lemma_writes_keep_notify(v: VirtioView, ws: Seq<VirtioStore>)
    requires
        no_notify(ws),
    ensures
        virtio_writes(v, ws).queue_notify == v.queue_notify,
    decreases ws.len(),
{
    if ws.len() > 0 {
        let w = ws[0];
        assert(!in_reg(w.0, QUEUE_NOTIFY));
        let rest = ws.drop_first();
        assert forall|k: int| 0 <= k < rest.len() implies !in_reg(
            #[trigger] rest[k].0,
            QUEUE_NOTIFY,
        ) by {
            assert(rest[k] == ws[k + 1]);
        }
        lemma_writes_keep_notify(virtio_write_spec(v, w.0, w.1, w.2).0, rest);
    }
}

proof fn lemma_writes_keep_pending(v: VirtioView, ws: Seq<VirtioStore>)
    requires
        v.queue_notify != u32::MAX,
        notifies_only(ws),
    ensures
        virtio_writes(v, ws).queue_notify != u32::MAX,
    decreases ws.len(),
{
    if ws.len() > 0 {
        let w = ws[0];
        assert(in_reg(w.0, QUEUE_NOTIFY) ==> w.2 == WORD && w.1 != u32::MAX);
        let rest = ws.drop_first();
        assert forall|k: int| 0 <= k < rest.len() && in_reg(#[trigger] rest[k].0, QUEUE_NOTIFY)
            implies rest[k].2 == WORD && rest[k].1 != u32::MAX by {
            assert(rest[k] == ws[k + 1]);
        }
        lemma_writes_keep_pending(virtio_write_spec(v, w.0, w.1, w.2).0, rest);
    }
}

/// Queue notifications raise one interrupt: after the driver writes a queue number to the queue
/// notifier, the next check for a pending interrupt answers yes, whatever stores to other
/// registers, or further 4-byte notifications of queue numbers, come between; and the check
/// consumes it, so that a check after that answers no until the notifier is written again.
pub proof fn law_notify_interrupts_once(
    v: VirtioView,
    queue: u32,
    before: Seq<VirtioStore>,
    after: Seq<VirtioStore>,
)
    requires
        queue != u32::MAX,
        notifies_only(before),
        no_notify(after),
    ensures
        virtio_write_spec(v, QUEUE_NOTIFY, queue, WORD).1 == Ok::<(), Exception>(()),
        interrupt_poll(virtio_writes(virtio_write_spec(v, QUEUE_NOTIFY, queue, WORD).0, before)).1,
        !interrupt_poll(
            virtio_writes(
                interrupt_poll(
                    virtio_writes(virtio_write_spec(v, QUEUE_NOTIFY, queue, WORD).0, before),
                ).0,
                after,
            ),
        ).1,
{
    let v1 = virtio_write_spec(v, QUEUE_NOTIFY, queue, WORD).0;
    assert(v1.queue_notify == queue);
    lemma_writes_keep_pending(v1, before);
    let v2 = interrupt_poll(virtio_writes(v1, before)).0;
    lemma_writes_keep_notify(v2, after);
}

/// The configuration space keeps what is stored in it: a byte stored at any of its eight bytes
/// reads back, and the store changes nothing else.
pub proof fn law_config_read_after_write(v: VirtioView, addr: u64, value: u32)
    requires
        Virtio::wf_view(v),
        CONFIG <= addr <= CONFIG + 7,
    ensures
        virtio_write_spec(v, addr, value, BYTE) == (VirtioView {
            config: v.config.update(addr - CONFIG, value as u8),
            ..v
        }, Ok::<(), Exception>(())),
        virtio_read_spec(virtio_write_spec(v, addr, value, BYTE).0, addr, BYTE)
            == Ok::<u64, Exception>((value as u8) as u64),
{
}

} // verus!
