//! The virtqueue of the virtio block device and the disk access it drives: the device reads a
//! request from the queue in guest memory, moves the data between memory and the disk, and
//! returns the buffer to the driver through the used ring (direct memory access).
//!
//! Addresses are computed with wrapping arithmetic. A disk access past the end of the disk and
//! a queue alignment of zero make the access fail.

use vstd::prelude::*;

use crate::bus::{bus_after_read, bus_read_spec, bus_write_spec, Bus, BusView};
use crate::cpu::{Cpu, CpuView};
use crate::devices::virtio_blk::{
    Virtio, VirtioView, QUEUE_SIZE, SECTOR_SIZE, VIRTQ_DESC_F_WRITE, VRING_DESC_SIZE,
};
use crate::exception::Exception;
use crate::le::{BYTE, DOUBLEWORD, HALFWORD, WORD};

verus! {

/// The addresses of the three parts of the virtqueue:
/// ```c
/// struct virtq {
///   struct virtq_desc desc[ Queue Size ];
///   struct virtq_avail avail;
///   u8 pad[ Padding ]; // Padding to the next Queue Align boundary.
///   struct virtq_used used;
/// };
/// ```
#[derive(Debug, Clone, Copy, PartialEq, Eq, Structural)]
pub struct VirtqueueAddr {
    /// The address that starts actual descriptors (16 bytes each).
    pub desc_addr: u64,
    /// The address that starts a ring of available descriptors.
    pub avail_addr: u64,
    /// The address that starts a ring of used descriptors.
    pub used_addr: u64,
}

/// A descriptor of a buffer:
/// ```c
/// struct virtq_desc {
///   le64 addr;
///   le32 len;
///   le16 flags;
///   le16 next;
/// };
/// ```
#[derive(Debug, Clone, Copy, PartialEq, Eq, Structural)]
pub struct VirtqDesc {
    /// Address (guest-physical).
    pub addr: u64,
    /// Length.
    pub len: u64,
    /// The flags as indicated VIRTQ_DESC_F_NEXT/VIRTQ_DESC_F_WRITE/VIRTQ_DESC_F_INDIRECT.
    pub flags: u64,
    /// Next field if flags & NEXT.
    pub next: u64,
}

/// The head of the available ring:
/// ```c
/// struct virtq_avail {
///   le16 flags;
///   le16 idx;
///   le16 ring[ /* Queue Size */ ];
///   le16 used_event; /* Only if VIRTIO_F_EVENT_IDX */
/// };
/// ```
#[derive(Debug, Clone, Copy, PartialEq, Eq, Structural)]
pub struct VirtqAvail {
    pub flags: u16,
    pub idx: u16,
    pub ring_start_addr: u64,
}

/// A read on the bus: the bus after it and what it gives.
pub open spec fn read_step(b: BusView, addr: u64, size: u8) -> (BusView, Result<u64, Exception>) {
    (bus_after_read(b, addr, size), bus_read_spec(b, addr, size))
}

/// The layout of the queue that the registers of `v` describe: the descriptor table starts at
/// page `queue_pfn`, the available ring follows it, and the used ring starts at the first
/// `queue_align` boundary after the end of the available ring. `None` when `queue_align` is 0.
pub open spec fn queue_addr_spec(v: VirtioView) -> Option<VirtqueueAddr> {
    let base = (v.queue_pfn as u64 * v.guest_page_size as u64) as u64;
    let align = v.queue_align as u64;
    let size = v.queue_num as u64;
    let avail_ring_end = base.wrapping_add((16 * size) as u64).wrapping_add((6 + 2 * size) as u64);
    if align == 0 {
        None
    } else {
        Some(
            VirtqueueAddr {
                desc_addr: base,
                avail_addr: base.wrapping_add((16 * size) as u64),
                used_addr: (avail_ring_end / align).wrapping_add(1).wrapping_mul(align),
            },
        )
    }
}

/// Reading the descriptor at `addr`: its four fields in order.
pub open spec fn desc_spec(b: BusView, addr: u64) -> (BusView, Result<VirtqDesc, Exception>) {
    let (b1, a) = read_step(b, addr, DOUBLEWORD);
    let (b2, l) = read_step(b1, addr.wrapping_add(8), WORD);
    let (b3, f) = read_step(b2, addr.wrapping_add(12), HALFWORD);
    let (b4, n) = read_step(b3, addr.wrapping_add(14), HALFWORD);
    if a is Err {
        (b1, Err(a->Err_0))
    } else if l is Err {
        (b2, Err(l->Err_0))
    } else if f is Err {
        (b3, Err(f->Err_0))
    } else if n is Err {
        (b4, Err(n->Err_0))
    } else {
        (b4, Ok(VirtqDesc { addr: a->Ok_0, len: l->Ok_0, flags: f->Ok_0, next: n->Ok_0 }))
    }
}

/// Reading the head of the available ring at `addr`.
pub open spec fn avail_spec(b: BusView, addr: u64) -> (BusView, Result<VirtqAvail, Exception>) {
    let (b1, f) = read_step(b, addr, HALFWORD);
    let (b2, i) = read_step(b1, addr.wrapping_add(2), HALFWORD);
    if f is Err {
        (b1, Err(f->Err_0))
    } else if i is Err {
        (b2, Err(i->Err_0))
    } else {
        (
            b2,
            Ok(
                VirtqAvail {
                    flags: f->Ok_0 as u16,
                    idx: i->Ok_0 as u16,
                    ring_start_addr: addr.wrapping_add(4),
                },
            ),
        )
    }
}

/// A request of the driver: the head of the descriptor chain the available ring offers, its
/// first descriptor (the request header), its second one (the data buffer) and the sector the
/// header names (`le64 sector` at offset 8 of `struct virtio_blk_req`).
pub open spec fn request_spec(b: BusView, q: VirtqueueAddr) -> (
    BusView,
    Result<(u64, VirtqDesc, VirtqDesc, u64), Exception>,
) {
    let (b1, ra) = avail_spec(b, q.avail_addr);
    if ra is Err {
        (b1, Err(ra->Err_0))
    } else {
        let avail = ra->Ok_0;
        let (b2, rh) = read_step(
            b1,
            avail.ring_start_addr.wrapping_add(avail.idx as u64 % QUEUE_SIZE),
            HALFWORD,
        );
        let (b3, ro) = read_step(b2, q.avail_addr.wrapping_add(1), HALFWORD);
        if rh is Err {
            (b2, Err(rh->Err_0))
        } else if ro is Err {
            (b3, Err(ro->Err_0))
        } else {
            let head = rh->Ok_0;
            let (b4, ri) = read_step(
                b3,
                q.avail_addr.wrapping_add(ro->Ok_0 % QUEUE_SIZE).wrapping_add(2),
                HALFWORD,
            );
            let (b5, r0) = desc_spec(b4, q.desc_addr.wrapping_add(VRING_DESC_SIZE.wrapping_mul(head)));
            if ri is Err {
                (b4, Err(ri->Err_0))
            } else if r0 is Err {
                (b5, Err(r0->Err_0))
            } else {
                let d0 = r0->Ok_0;
                let (b6, r1) = desc_spec(
                    b5,
                    q.desc_addr.wrapping_add(VRING_DESC_SIZE.wrapping_mul(d0.next)),
                );
                let (b7, rs) = read_step(b6, d0.addr.wrapping_add(8), DOUBLEWORD);
                if r1 is Err {
                    (b6, Err(r1->Err_0))
                } else if rs is Err {
                    (b7, Err(rs->Err_0))
                } else {
                    (b7, Ok((head, d0, r1->Ok_0, rs->Ok_0)))
                }
            }
        }
    }
}

/// `b` with byte `index` of the disk replaced by `data`.
pub open spec fn disk_update(b: BusView, index: u64, data: u8) -> BusView {
    BusView {
        virtio: VirtioView { disk: b.virtio.disk.update(index as int, data), ..b.virtio },
        ..b
    }
}

/// Copying bytes `i..len` of memory at `src` to the disk at byte `dst`, one byte at a time.
pub open spec fn to_disk_spec(b: BusView, src: u64, dst: u64, i: u64, len: u64) -> (
    BusView,
    Result<(), Exception>,
)
    decreases len - i,
{
    if i >= len {
        (b, Ok(()))
    } else {
        let (b1, r) = read_step(b, src.wrapping_add(i), BYTE);
        let index = dst.wrapping_add(i);
        if r is Err {
            (b1, Err(r->Err_0))
        } else if index >= b1.virtio.disk.len() {
            (b1, Err(Exception::StoreAMOAccessFault))
        } else {
            to_disk_spec(disk_update(b1, index, r->Ok_0 as u8), src, dst, (i + 1) as u64, len)
        }
    }
}

/// Copying bytes `i..len` of the disk at byte `src` to memory at `dst`, one byte at a time.
pub open spec fn from_disk_spec(b: BusView, src: u64, dst: u64, i: u64, len: u64) -> (
    BusView,
    Result<(), Exception>,
)
    decreases len - i,
{
    if i >= len {
        (b, Ok(()))
    } else {
        let index = src.wrapping_add(i);
        if index >= b.virtio.disk.len() {
            (b, Err(Exception::LoadAccessFault))
        } else {
            let (b1, r) = bus_write_spec(
                b,
                dst.wrapping_add(i),
                b.virtio.disk[index as int] as u64,
                BYTE,
            );
            if r is Err {
                (b1, Err(r->Err_0))
            } else {
                from_disk_spec(b1, src, dst, (i + 1) as u64, len)
            }
        }
    }
}

/// Moving the data of a request: to the disk when the buffer is device-readable (the WRITE
/// flag is clear), from the disk otherwise.
pub open spec fn transfer_spec(b: BusView, desc: VirtqDesc, sector: u64) -> (
    BusView,
    Result<(), Exception>,
) {
    let disk_addr = sector.wrapping_mul(SECTOR_SIZE);
    if desc.flags & VIRTQ_DESC_F_WRITE == 0 {
        to_disk_spec(b, desc.addr, disk_addr, 0, desc.len)
    } else {
        from_disk_spec(b, disk_addr, desc.addr, 0, desc.len)
    }
}

/// Completing a request: a zero status byte goes to the buffer of the third descriptor, the
/// head of the chain goes to the used ring at the current used index (modulo the queue size),
/// and the incremented used index goes to the used ring's `idx` field.
pub open spec fn complete_spec(b: BusView, q: VirtqueueAddr, head: u64, next: u64) -> (
    BusView,
    Result<(), Exception>,
) {
    let (b1, r2) = desc_spec(b, q.desc_addr.wrapping_add(VRING_DESC_SIZE.wrapping_mul(next)));
    if r2 is Err {
        (b1, Err(r2->Err_0))
    } else {
        let (b2, rw) = bus_write_spec(b1, r2->Ok_0.addr, 0, BYTE);
        if rw is Err {
            (b2, Err(rw->Err_0))
        } else {
            let (b3, ru) = bus_write_spec(
                b2,
                q.used_addr.wrapping_add(4).wrapping_add(((b2.virtio.id % QUEUE_SIZE) * 8) as u64),
                head,
                WORD,
            );
            if ru is Err {
                (b3, Err(ru->Err_0))
            } else {
                let b4 = BusView {
                    virtio: VirtioView { id: b3.virtio.id.wrapping_add(1), ..b3.virtio },
                    ..b3
                };
                bus_write_spec(b4, q.used_addr.wrapping_add(2), b4.virtio.id, HALFWORD)
            }
        }
    }
}

/// A disk access on the bus `b`: the used-buffer interrupt bit is set, then the request the
/// driver offers is read, its data moved, and the request completed. The first failing step
/// ends the access with its error.
pub open spec fn disk_access_spec(b: BusView) -> (BusView, Result<(), Exception>) {
    let b0 = BusView {
        virtio: VirtioView { interrupt_status: b.virtio.interrupt_status | 1, ..b.virtio },
        ..b
    };
    match queue_addr_spec(b0.virtio) {
        None => (b0, Err(Exception::LoadAccessFault)),
        Some(q) => {
            let (b1, rr) = request_spec(b0, q);
            match rr {
                Err(e) => (b1, Err(e)),
                Ok((head, _d0, d1, sector)) => {
                    let (b2, rt) = transfer_spec(b1, d1, sector);
                    match rt {
                        Err(e) => (b2, Err(e)),
                        Ok(_) => complete_spec(b2, q, head, d1.next),
                    }
                },
            }
        },
    }
}

impl VirtqueueAddr {
    /// Create the addresses of a virtqueue from the registers of the device. `None` when the
    /// used ring alignment is 0.
    pub fn new(virtio: &Virtio) -> (r: Option<Self>)
        ensures
            r == queue_addr_spec(virtio@),
    {
        // Virtqueue Part   | Alignment | Size
        // -------------------------------------------------
        // Descriptor Table | 16        | 16∗(Queue Size)
        // Available Ring   | 2         | 6 + 2∗(Queue Size)
        // Used Ring        | 4         | 6 + 8∗(Queue Size)
        let (guest_page_size, queue_num, queue_align, queue_pfn) = virtio.queue_layout();
        assert(queue_pfn as u64 * guest_page_size as u64 <= 0xffff_ffffu64 * 0xffff_ffffu64)
            by (nonlinear_arith);
        let base_addr = queue_pfn as u64 * guest_page_size as u64;
        let align = queue_align as u64;
        let size = queue_num as u64;
        let avail_ring_end = base_addr.wrapping_add(16 * size).wrapping_add(6 + 2 * size);
        if align == 0 {
            return None;
        }
        Some(
            Self {
                desc_addr: base_addr,
                avail_addr: base_addr.wrapping_add(16 * size),
                // Used ring starts with the `queue_align` boundary after the available ring
                // ends.
                used_addr: (avail_ring_end / align).wrapping_add(1).wrapping_mul(align),
            },
        )
    }
}

impl VirtqDesc {
    /// Read the descriptor stored at `addr`.
    pub fn new(bus: &mut Bus, addr: u64) -> (r: Result<Self, Exception>)
        ensures
            (final(bus)@, r) == desc_spec(old(bus)@, addr),
    {
        let a = bus.read(addr, DOUBLEWORD)?;
        let len = bus.read(addr.wrapping_add(8), WORD)?;
        let flags = bus.read(addr.wrapping_add(12), HALFWORD)?;
        let next = bus.read(addr.wrapping_add(14), HALFWORD)?;
        Ok(Self { addr: a, len, flags, next })
    }
}

impl VirtqAvail {
    /// Read the head of the available ring stored at `addr`.
    pub fn new(bus: &mut Bus, addr: u64) -> (r: Result<Self, Exception>)
        ensures
            (final(bus)@, r) == avail_spec(old(bus)@, addr),
    {
        let flags = bus.read(addr, HALFWORD)?;
        let idx = bus.read(addr.wrapping_add(2), HALFWORD)?;
        Ok(Self { flags: flags as u16, idx: idx as u16, ring_start_addr: addr.wrapping_add(4) })
    }
}

/// Read the request the available ring offers: the head of the chain, its first two
/// descriptors and the sector the request header names.
fn read_request(bus: &mut Bus, q: &VirtqueueAddr) -> (r: Result<
    (u64, VirtqDesc, VirtqDesc, u64),
    Exception,
>)
    ensures
        (final(bus)@, r) == request_spec(old(bus)@, *q),
{
    let avail = VirtqAvail::new(bus, q.avail_addr)?;
    let head_index = bus.read(
        avail.ring_start_addr.wrapping_add(avail.idx as u64 % QUEUE_SIZE),
        HALFWORD,
    )?;
    let offset = bus.read(q.avail_addr.wrapping_add(1), HALFWORD)?;
    let _index = bus.read(
        q.avail_addr.wrapping_add(offset % QUEUE_SIZE).wrapping_add(2),
        HALFWORD,
    )?;
    // First descriptor.
    let desc0 = VirtqDesc::new(bus, q.desc_addr.wrapping_add(VRING_DESC_SIZE.wrapping_mul(head_index)))?;
    // Second descriptor.
    let desc1 = VirtqDesc::new(bus, q.desc_addr.wrapping_add(VRING_DESC_SIZE.wrapping_mul(desc0.next)))?;
    // 5.2.6 Device Operation
    // struct virtio_blk_req {
    //   le32 type;
    //   le32 reserved;
    //   le64 sector;
    //   u8 data[][512];
    //   u8 status;
    // };
    let sector = bus.read(desc0.addr.wrapping_add(8), DOUBLEWORD)?;
    Ok((head_index, desc0, desc1, sector))
}

/// Copy `len` bytes of memory at `src` to the disk at byte `dst`.
fn copy_to_disk(bus: &mut Bus, src: u64, dst: u64, len: u64) -> (r: Result<(), Exception>)
    ensures
        (final(bus)@, r) == to_disk_spec(old(bus)@, src, dst, 0, len),
{
    let mut i: u64 = 0;
    while i < len
        invariant
            i <= len,
            to_disk_spec(old(bus)@, src, dst, 0, len) == to_disk_spec(bus@, src, dst, i, len),
        decreases len - i,
    {
        let data = bus.read(src.wrapping_add(i), BYTE)?;
        let index = dst.wrapping_add(i);
        if index >= bus.virtio.disk_len() as u64 {
            return Err(Exception::StoreAMOAccessFault);
        }
        bus.virtio.write_disk(index, data);
        i = i + 1;
    }
    Ok(())
}

/// Copy `len` bytes of the disk at byte `src` to memory at `dst`.
fn copy_from_disk(bus: &mut Bus, src: u64, dst: u64, len: u64) -> (r: Result<(), Exception>)
    ensures
        (final(bus)@, r) == from_disk_spec(old(bus)@, src, dst, 0, len),
{
    let mut i: u64 = 0;
    while i < len
        invariant
            i <= len,
            from_disk_spec(old(bus)@, src, dst, 0, len) == from_disk_spec(bus@, src, dst, i, len),
        decreases len - i,
    {
        let index = src.wrapping_add(i);
        if index >= bus.virtio.disk_len() as u64 {
            return Err(Exception::LoadAccessFault);
        }
        let data = bus.virtio.read_disk(index);
        bus.write(dst.wrapping_add(i), data, BYTE)?;
        i = i + 1;
    }
    Ok(())
}

/// Complete the request whose chain starts at `head` and whose data descriptor links to
/// descriptor `next`.
fn complete(bus: &mut Bus, q: &VirtqueueAddr, head: u64, next: u64) -> (r: Result<(), Exception>)
    ensures
        (final(bus)@, r) == complete_spec(old(bus)@, *q, head, next),
{
    // Third descriptor address.
    let desc2 = VirtqDesc::new(bus, q.desc_addr.wrapping_add(VRING_DESC_SIZE.wrapping_mul(next)))?;
    // Tell success.
    bus.write(desc2.addr, 0, BYTE)?;
    // 2.6.7.2 Device Requirements: Used Buffer Notification Suppression. The device writes
    // the descriptor index into the used ring.
    let id = bus.virtio.id();
    bus.write(q.used_addr.wrapping_add(4).wrapping_add((id % QUEUE_SIZE) * 8), head, WORD)?;
    bus.virtio.increment_id();
    let id = bus.virtio.id();
    bus.write(q.used_addr.wrapping_add(2), id, HALFWORD)
}

impl Virtio {
    /// Accesses the disk via virtio. This is an associated function which takes a `cpu` object
    /// to read and write with a memory directly (DMA).
    pub fn disk_access(cpu: &mut Cpu) -> (r: Result<(), Exception>)
        ensures
            (final(cpu)@.bus, r) == disk_access_spec(old(cpu)@.bus),
            final(cpu)@ == (CpuView { bus: final(cpu)@.bus, ..old(cpu)@ }),
    {
        // "Used Buffer Notification - bit 0 - the interrupt was asserted because the device has
        // used a buffer in at least one of the active virtual queues."
        cpu.bus.virtio.notify_used_buffer();
        let virtq = match VirtqueueAddr::new(&cpu.bus.virtio) {
            Some(q) => q,
            None => return Err(Exception::LoadAccessFault),
        };
        let (head_index, _desc0, desc1, sector) = read_request(&mut cpu.bus, &virtq)?;
        // Write to a device if the second bit of `flags` is set.
        let disk_addr = sector.wrapping_mul(SECTOR_SIZE);
        if (desc1.flags & VIRTQ_DESC_F_WRITE) == 0 {
            // Read memory data and write it to a disk.
            copy_to_disk(&mut cpu.bus, desc1.addr, disk_addr, desc1.len)?;
        } else {
            // Read disk data and write it to memory.
            copy_from_disk(&mut cpu.bus, disk_addr, desc1.addr, desc1.len)?;
        }
        complete(&mut cpu.bus, &virtq, head_index, desc1.next)
    }
}

} // verus!
