//! Memory accesses of a hart: the Sv39 virtual address translation and the loads, stores and
//! instruction fetches that go through it.

use vstd::prelude::*;

use crate::bus::{bus_after_read, bus_read_spec, bus_write_spec, law_dram_read_after_write, BusView};
use crate::dram::{DRAM_BASE, DRAM_SIZE};
use crate::cpu::{AccessType, Cpu, CpuView, Mode, PAGE_SIZE};
use crate::exception::Exception;
use crate::le::{is_access_size, size_bytes, truncate, DOUBLEWORD, HALFWORD, WORD};

verus! {

/// The page fault an access of type `access` to `addr` raises.
pub open spec fn page_fault(access: AccessType, addr: u64) -> Exception {
    match access {
        AccessType::Instruction => Exception::InstructionPageFault(addr),
        AccessType::Load => Exception::LoadPageFault(addr),
        AccessType::Store => Exception::StoreAMOPageFault(addr),
    }
}

/// The virtual page number of `addr` at level `i` of an Sv39 page table (9 bits each).
pub open spec fn vpn_of(addr: u64, i: int) -> u64 {
    if i == 0 {
        (addr >> 12u64) & 0x1ff
    } else if i == 1 {
        (addr >> 21u64) & 0x1ff
    } else {
        (addr >> 30u64) & 0x1ff
    }
}

/// The physical page number held in a page table entry, times the page size.
pub open spec fn pte_table_addr(pte: u64) -> u64 {
    (((pte >> 10u64) & 0x0fff_ffff_ffff) * PAGE_SIZE) as u64
}

/// Steps 2 to 4 of the virtual address translation process (4.3.2 of the privileged spec):
/// starting from the page table at `a` on level `i`, the leaf page table entry for `addr` and
/// its level. A PTE that is not valid, or is writable but not readable, or a pointer on the last
/// level stops the walk with a page fault; a PTE that cannot be read stops it with the error of
/// the read.
pub open spec fn walk_spec(bus: BusView, a: u64, i: int, addr: u64, access: AccessType) -> Result<
    (u64, int),
    Exception,
>
    decreases i,
{
    if i < 0 {
        Err(page_fault(access, addr))
    } else {
        match bus_read_spec(bus, a.wrapping_add((vpn_of(addr, i) * 8) as u64), DOUBLEWORD) {
            Err(e) => Err(e),
            Ok(pte) => {
                let v = pte & 1;
                let r = (pte >> 1u64) & 1;
                let w = (pte >> 2u64) & 1;
                let x = (pte >> 3u64) & 1;
                if v == 0 || (r == 0 && w == 1) {
                    Err(page_fault(access, addr))
                } else if r == 1 || x == 1 {
                    Ok((pte, i))
                } else if i == 0 {
                    Err(page_fault(access, addr))
                } else {
                    walk_spec(bus, pte_table_addr(pte), i - 1, addr, access)
                }
            },
        }
    }
}

/// The physical address an access of type `access` to the virtual address `addr` goes to.
/// Without paging, or in machine mode, addresses are physical. Otherwise the Sv39 page table is
/// walked; a misaligned superpage raises a page fault (step 6); the leaf gives the physical page
/// and, for a superpage, the low virtual page numbers are kept (step 8).
pub open spec fn translate_spec(v: CpuView, addr: u64, access: AccessType) -> Result<u64, Exception> {
    if !v.enable_paging || v.mode == Mode::Machine {
        Ok(addr)
    } else {
        match walk_spec(v.bus, v.page_table, 2, addr, access) {
            Err(e) => Err(e),
            Ok((pte, i)) => {
                let ppn0 = (pte >> 10u64) & 0x1ff;
                let ppn1 = (pte >> 19u64) & 0x1ff;
                let ppn2 = (pte >> 28u64) & 0x03ff_ffff;
                let offset = addr & 0xfff;
                if (i >= 1 && ppn0 != 0) || (i >= 2 && ppn1 != 0) {
                    Err(page_fault(access, addr))
                } else if i == 0 {
                    Ok((((pte >> 10u64) & 0x0fff_ffff_ffff) << 12u64) | offset)
                } else if i == 1 {
                    Ok((ppn2 << 30u64) | (ppn1 << 21u64) | (vpn_of(addr, 0) << 12u64) | offset)
                } else {
                    Ok((ppn2 << 30u64) | (vpn_of(addr, 1) << 21u64) | (vpn_of(addr, 0) << 12u64) | offset)
                }
            },
        }
    }
}

/// The result of a `size`-bit load from the virtual address `addr`.
pub open spec fn cpu_read_spec(v: CpuView, addr: u64, size: u8) -> Result<u64, Exception> {
    match translate_spec(v, addr, AccessType::Load) {
        Err(e) => Err(e),
        Ok(p) => if is_access_size(size) {
            bus_read_spec(v.bus, p, size)
        } else {
            Err(Exception::LoadAccessFault)
        },
    }
}

/// The devices after a `size`-bit load from the virtual address `addr`.
pub open spec fn cpu_bus_after_read(v: CpuView, addr: u64, size: u8) -> BusView {
    match translate_spec(v, addr, AccessType::Load) {
        Err(e) => v.bus,
        Ok(p) => if is_access_size(size) {
            bus_after_read(v.bus, p, size)
        } else {
            v.bus
        },
    }
}

/// `s` without any occurrence of `x`.
pub open spec fn remove_all(s: Seq<u64>, x: u64) -> Seq<u64> {
    s.filter(|y: u64| y != x)
}

/// The hart after a `size`-bit store of `value` to the virtual address `addr`, and the result
/// of the store. "The SC must fail if a write from some other device to the bytes accessed by
/// the LR can be observed to occur between the LR and SC": the address leaves the reservation
/// set whatever the store does.
pub open spec fn cpu_write_spec(v: CpuView, addr: u64, value: u64, size: u8) -> (
    CpuView,
    Result<(), Exception>,
) {
    let v1 = CpuView { reservations: remove_all(v.reservations, addr), ..v };
    match translate_spec(v, addr, AccessType::Store) {
        Err(e) => (v1, Err(e)),
        Ok(p) => if is_access_size(size) {
            let (b, r) = bus_write_spec(v.bus, p, value, size);
            (CpuView { bus: b, ..v1 }, r)
        } else {
            (v1, Err(Exception::StoreAMOAccessFault))
        },
    }
}

/// The result of fetching a `size`-bit instruction at the program counter. Any failure of the
/// read itself is an instruction access fault.
pub open spec fn fetch_spec(v: CpuView, size: u8) -> Result<u64, Exception> {
    match translate_spec(v, v.pc, AccessType::Instruction) {
        Err(e) => Err(e),
        Ok(p) => if size == HALFWORD || size == WORD {
            match bus_read_spec(v.bus, p, size) {
                Ok(x) => Ok(x),
                Err(_) => Err(Exception::InstructionAccessFault),
            }
        } else {
            Err(Exception::InstructionAccessFault)
        },
    }
}

impl Cpu {
    /// Translate a virtual address to a physical address for the paged virtual-memory system.
    pub fn translate(&mut self, addr: u64, access_type: AccessType) -> (r: Result<u64, Exception>)
        ensures
            r == translate_spec(old(self)@, addr, access_type),
            final(self)@ == old(self)@,
    {
        if !self.enable_paging || self.mode == Mode::Machine {
            return Ok(addr);
        }
        // 4.3.2 Virtual Address Translation Process
        // (The RISC-V Instruction Set Manual Volume II-Privileged Architecture_20190608)
        let vpn = [(addr >> 12) & 0x1ff, (addr >> 21) & 0x1ff, (addr >> 30) & 0x1ff];
        assert(vpn_of(addr, 0) <= 0x1ff && vpn_of(addr, 1) <= 0x1ff && vpn_of(addr, 2) <= 0x1ff)
            by (bit_vector);
        // 1. Let a be satp.ppn × PAGESIZE, and let i = LEVELS − 1.
        let mut a = self.page_table;
        let mut i: i64 = 2;
        let mut pte: u64;
        loop
            invariant
                0 <= i <= 2,
                self@ == old(self)@,
                vpn@ == seq![vpn_of(addr, 0), vpn_of(addr, 1), vpn_of(addr, 2)],
                vpn_of(addr, 0) <= 0x1ff && vpn_of(addr, 1) <= 0x1ff && vpn_of(addr, 2) <= 0x1ff,
                walk_spec(self.bus@, a, i as int, addr, access_type) == walk_spec(
                    self.bus@,
                    self.page_table,
                    2,
                    addr,
                    access_type,
                ),
                self.enable_paging && self.mode != Mode::Machine,
            ensures
                0 <= i <= 2,
                self@ == old(self)@,
                walk_spec(self.bus@, self.page_table, 2, addr, access_type) == Ok::<
                    (u64, int),
                    Exception,
                >((pte, i as int)),
            decreases i,
        {
            // 2. Let pte be the value of the PTE at address a+va.vpn[i]×PTESIZE.
            let entry = a.wrapping_add(vpn[i as usize] * 8);
            pte = self.bus.read(entry, DOUBLEWORD)?;
            // 3. If pte.v = 0, or if pte.r = 0 and pte.w = 1, stop and raise a page-fault
            //    exception corresponding to the original access type.
            let v = pte & 1;
            let r = (pte >> 1) & 1;
            let w = (pte >> 2) & 1;
            let x = (pte >> 3) & 1;
            if v == 0 || (r == 0 && w == 1) {
                return Err(Self::page_fault(access_type, addr));
            }
            // 4. Otherwise, the PTE is valid. If pte.r = 1 or pte.x = 1, go to step 5.
            //    Otherwise, this PTE is a pointer to the next level of the page table.
            //    Let i = i − 1. If i < 0, stop and raise a page-fault exception
            //    corresponding to the original access type. Otherwise,
            //    let a = pte.ppn × PAGESIZE and go to step 2.
            if r == 1 || x == 1 {
                break ;
            }
            if i == 0 {
                return Err(Self::page_fault(access_type, addr));
            }
            i = i - 1;
            let ppn = (pte >> 10) & 0x0fff_ffff_ffff;
            assert(((pte >> 10u64) & 0x0fff_ffff_ffff) <= 0x0fff_ffff_ffff) by (bit_vector);
            a = ppn * PAGE_SIZE;
        }
        // 5. A leaf PTE has been found. The permission checks are not implemented.
        // 6. If i > 0 and pte.ppn[i−1:0] != 0, this is a misaligned superpage; stop and
        //    raise a page-fault exception corresponding to the original access type.
        let ppn = [(pte >> 10) & 0x1ff, (pte >> 19) & 0x1ff, (pte >> 28) & 0x03ff_ffff];
        if (i >= 1 && ppn[0] != 0) || (i >= 2 && ppn[1] != 0) {
            return Err(Self::page_fault(access_type, addr));
        }
        // 7. Accessed and dirty bits are not written back.
        // 8. The translation is successful. The translated physical address is given as
        //    follows: pa.pgoff = va.pgoff; if i > 0, then this is a superpage translation and
        //    pa.ppn[i−1:0] = va.vpn[i−1:0]; pa.ppn[LEVELS−1:i] = pte.ppn[LEVELS−1:i].
        let offset = addr & 0xfff;
        if i == 0 {
            let ppn = (pte >> 10) & 0x0fff_ffff_ffff;
            Ok((ppn << 12) | offset)
        } else if i == 1 {
            Ok((ppn[2] << 30) | (ppn[1] << 21) | (vpn[0] << 12) | offset)
        } else {
            Ok((ppn[2] << 30) | (vpn[1] << 21) | (vpn[0] << 12) | offset)
        }
    }

    /// The page fault an access of type `access` to `addr` raises.
    fn page_fault(access: AccessType, addr: u64) -> (e: Exception)
        ensures
            e == page_fault(access, addr),
    {
        match access {
            AccessType::Instruction => Exception::InstructionPageFault(addr),
            AccessType::Load => Exception::LoadPageFault(addr),
            AccessType::Store => Exception::StoreAMOPageFault(addr),
        }
    }

    /// Read `size`-bit data from the system bus with the translation a virtual address to a
    /// physical address if it is enabled.
    pub fn read(&mut self, v_addr: u64, size: u8) -> (r: Result<u64, Exception>)
        ensures
            r == cpu_read_spec(old(self)@, v_addr, size),
            final(self)@ == (CpuView {
                bus: cpu_bus_after_read(old(self)@, v_addr, size),
                ..old(self)@
            }),
    {
        let p_addr = self.translate(v_addr, AccessType::Load)?;
        if size == 8 || size == 16 || size == 32 || size == 64 {
            self.bus.read(p_addr, size)
        } else {
            Err(Exception::LoadAccessFault)
        }
    }

    /// Write `size`-bit data to the system bus with the translation a virtual address to a
    /// physical address if it is enabled.
    pub fn write(&mut self, v_addr: u64, value: u64, size: u8) -> (r: Result<(), Exception>)
        ensures
            (final(self)@, r) == cpu_write_spec(old(self)@, v_addr, value, size),
    {
        // "The SC must fail if a write from some other device to the bytes accessed by the LR
        // can be observed to occur between the LR and SC."
        self.forget_reservation(v_addr);
        let p_addr = match self.translate(v_addr, AccessType::Store) {
            Ok(p) => p,
            Err(e) => {
                return Err(e);
            },
        };
        if size == 8 || size == 16 || size == 32 || size == 64 {
            self.bus.write(p_addr, value, size)
        } else {
            Err(Exception::StoreAMOAccessFault)
        }
    }

    /// Whether `addr` is in the reservation set.
    pub fn is_reserved(&self, addr: u64) -> (r: bool)
        ensures
            r == self@.reservations.contains(addr),
    {
        let mut i: usize = 0;
        while i < self.reservation_set.len()
            invariant
                i <= self.reservation_set@.len(),
                forall|j: int| 0 <= j < i ==> self.reservation_set@[j] != addr,
            decreases self.reservation_set@.len() - i,
        {
            if self.reservation_set[i] == addr {
                return true;
            }
            i = i + 1;
        }
        false
    }

    /// Remove `addr` from the reservation set.
    pub fn forget_reservation(&mut self, addr: u64)
        ensures
            final(self)@ == (CpuView {
                reservations: remove_all(old(self)@.reservations, addr),
                ..old(self)@
            }),
    {
        let mut kept: Vec<u64> = Vec::new();
        let mut i: usize = 0;
        while i < self.reservation_set.len()
            invariant
                i <= self.reservation_set@.len(),
                self@ == old(self)@,
                kept@ == remove_all(self.reservation_set@.subrange(0, i as int), addr),
            decreases self.reservation_set@.len() - i,
        {
            let x = self.reservation_set[i];
            proof {
                let s = self.reservation_set@.subrange(0, i as int + 1);
                assert(s.drop_last() =~= self.reservation_set@.subrange(0, i as int));
                reveal_with_fuel(Seq::filter, 1);
            }
            if x != addr {
                kept.push(x);
            }
            i = i + 1;
        }
        assert(self.reservation_set@.subrange(0, i as int) =~= self.reservation_set@);
        self.reservation_set = kept;
    }

    /// Fetch the `size`-bit next instruction from the memory at the current program counter.
    pub fn fetch(&mut self, size: u8) -> (r: Result<u64, Exception>)
        ensures
            r == fetch_spec(old(self)@, size),
            final(self)@ == old(self)@,
    {
        let p_pc = self.translate(self.pc, AccessType::Instruction)?;
        // The result of the read method can be `Exception::LoadAccessFault`. In fetch(), an
        // error should be `Exception::InstructionAccessFault`.
        let result = if size == HALFWORD || size == WORD {
            self.bus.read(p_pc, size)
        } else {
            Err(Exception::InstructionAccessFault)
        };
        match result {
            Ok(value) => Ok(value),
            Err(_) => Err(Exception::InstructionAccessFault),
        }
    }
}

/// A load right after a store of the same size to the same virtual address gives back the
/// stored value, cut to the size of the access, when both are translated to the same location
/// in DRAM; the store succeeds.
pub proof fn law_load_after_store(v: CpuView, addr: u64, value: u64, size: u8, p: u64)
    requires
        is_access_size(size),
        v.bus.dram.len() == DRAM_SIZE,
        translate_spec(v, addr, AccessType::Store) == Ok::<u64, Exception>(p),
        translate_spec(cpu_write_spec(v, addr, value, size).0, addr, AccessType::Load) == Ok::<
            u64,
            Exception,
        >(p),
        DRAM_BASE <= p,
        p - DRAM_BASE + size_bytes(size) <= DRAM_SIZE,
    ensures
        cpu_write_spec(v, addr, value, size).1 == Ok::<(), Exception>(()),
        cpu_read_spec(cpu_write_spec(v, addr, value, size).0, addr, size) == Ok::<u64, Exception>(
            truncate(value, size),
        ),
{
    law_dram_read_after_write(v.bus, p, value, size);
}

/// Without paging, or in machine mode, addresses are not translated: every access goes to the
/// physical address it names.
pub proof fn law_no_translation(v: CpuView, addr: u64, access: AccessType)
    requires
        !v.enable_paging || v.mode == Mode::Machine,
    ensures
        translate_spec(v, addr, access) == Ok::<u64, Exception>(addr),
{
}

/// Without paging, or in machine mode, a load right after a store of the same size to the same
/// DRAM address gives back the stored value, cut to the size of the access.
pub proof fn law_physical_load_after_store(v: CpuView, addr: u64, value: u64, size: u8)
    requires
        !v.enable_paging || v.mode == Mode::Machine,
        is_access_size(size),
        v.bus.dram.len() == DRAM_SIZE,
        DRAM_BASE <= addr,
        addr - DRAM_BASE + size_bytes(size) <= DRAM_SIZE,
    ensures
        cpu_write_spec(v, addr, value, size).1 == Ok::<(), Exception>(()),
        cpu_read_spec(cpu_write_spec(v, addr, value, size).0, addr, size) == Ok::<u64, Exception>(
            truncate(value, size),
        ),
{
    law_load_after_store(v, addr, value, size, addr);
}

/// Sv39 translation keeps the page offset: whenever an address translates, the physical address
/// has the same low 12 bits. When paging is on, the rest of the physical address comes from the
/// leaf page table entry that the walk ends at: for a 4 KiB page, bits 63:12 are the entry's
/// PPN; for a 2 MiB megapage, the low 21 bits are those of the virtual address and the bits above
/// are PPN[2:1]; for a 1 GiB gigapage, the low 30 bits are those of the virtual address and the
/// bits above are PPN[2].
pub proof fn law_translation_keeps_page_offset(v: CpuView, addr: u64, access: AccessType)
    ensures
        translate_spec(v, addr, access) matches Ok(p) ==> p & 0xfff == addr & 0xfff,
        v.enable_paging && v.mode != Mode::Machine ==> match (
            walk_spec(v.bus, v.page_table, 2, addr, access),
            translate_spec(v, addr, access),
        ) {
            (Ok((pte, i)), Ok(p)) => {
                &&& i == 0 ==> p >> 12u64 == (pte >> 10u64) & 0x0fff_ffff_ffff
                &&& i == 1 ==> p & 0x1f_ffff == addr & 0x1f_ffff && p >> 21u64 == (pte >> 19u64)
                    & 0x7_ffff_ffff
                &&& i == 2 ==> p & 0x3fff_ffff == addr & 0x3fff_ffff && p >> 30u64 == (pte
                    >> 28u64) & 0x03ff_ffff
            },
            _ => true,
        },
{
    if v.enable_paging && v.mode != Mode::Machine {
        if let Ok((pte, i)) = walk_spec(v.bus, v.page_table, 2, addr, access) {
            assert({
                let off = addr & 0xfff;
                let ppn1 = (pte >> 19u64) & 0x1ff;
                let ppn2 = (pte >> 28u64) & 0x03ff_ffff;
                let vpn0 = (addr >> 12u64) & 0x1ff;
                let vpn1 = (addr >> 21u64) & 0x1ff;
                let p0 = (((pte >> 10u64) & 0x0fff_ffff_ffff) << 12u64) | off;
                let p1 = (ppn2 << 30u64) | (ppn1 << 21u64) | (vpn0 << 12u64) | off;
                let p2 = (ppn2 << 30u64) | (vpn1 << 21u64) | (vpn0 << 12u64) | off;
                &&& p0 & 0xfff == off && p0 >> 12u64 == (pte >> 10u64) & 0x0fff_ffff_ffff
                &&& p1 & 0xfff == off && p1 & 0x1f_ffff == addr & 0x1f_ffff
                &&& p1 >> 21u64 == (pte >> 19u64) & 0x7_ffff_ffff
                &&& p2 & 0xfff == off && p2 & 0x3fff_ffff == addr & 0x3fff_ffff
                &&& p2 >> 30u64 == ppn2
            }) by (bit_vector);
        }
    }
}

} // verus!
