//! The bus module contains the system bus which can access the memroy or memory-mapped peripheral
//! devices.

use vstd::prelude::*;

use crate::devices::clint::{clint_read_spec, clint_write_spec, Clint, ClintView, CLINT_BASE};
use crate::devices::plic::{plic_read_spec, plic_write_spec, Plic, PlicView, PLIC_BASE};
use crate::devices::uart::{
    uart_after_read, uart_read_spec, uart_write_spec, Uart, UartView, UART_BASE,
};
use crate::devices::virtio_blk::{
    virtio_read_spec, virtio_write_spec, Virtio, VirtioView, VIRTIO_BASE,
};
use crate::dram::{in_region, Dram, DRAM_BASE, DRAM_SIZE};
use crate::exception::Exception;
use crate::le::{
    is_access_size, lemma_load_same_bytes, lemma_load_store, load_le, size_bytes, store_le,
    truncate,
};
use crate::rom::{Rom, MROM_BASE};

verus! {

// QEMU virt machine:
// https://github.com/qemu/qemu/blob/master/hw/riscv/virt.c#L46-L63
/// The address which the mask ROM ends.
pub const MROM_END: u64 = MROM_BASE + 0xf000;
/// The address which the core-local interruptor (CLINT) ends.
pub const CLINT_END: u64 = CLINT_BASE + 0x10000;
/// The address which the platform-level interrupt controller (PLIC) ends.
pub const PLIC_END: u64 = PLIC_BASE + 0x208000;
/// The address which UART ends.
pub const UART_END: u64 = UART_BASE + 0x100;
/// The address which virtio ends.
pub const VIRTIO_END: u64 = VIRTIO_BASE + 0x1000;
/// The address which DRAM ends.
pub const DRAM_END: u64 = DRAM_BASE + DRAM_SIZE;

/// The state of everything attached to the system bus.
pub struct BusView {
    pub clint: ClintView,
    pub plic: PlicView,
    pub uart: UartView,
    pub virtio: VirtioView,
    pub dram: Seq<u8>,
    pub rom: Seq<u8>,
}

/// The result of a `size`-bit load at `addr` from a byte memory `s` mapped at `base`; an access
/// of another size or that does not lie entirely within the memory is a load access fault.
pub open spec fn mem_read_spec(s: Seq<u8>, base: u64, addr: u64, size: u8) -> Result<
    u64,
    Exception,
> {
    if is_access_size(size) && in_region(base, s.len() as int, addr, size) {
        Ok(load_le(s, addr - base, size))
    } else {
        Err(Exception::LoadAccessFault)
    }
}

/// The result of a `size`-bit load at `addr`, given the state of the devices.
pub open spec fn bus_read_spec(v: BusView, addr: u64, size: u8) -> Result<u64, Exception> {
    if MROM_BASE <= addr <= MROM_END {
        mem_read_spec(v.rom, MROM_BASE, addr, size)
    } else if CLINT_BASE <= addr <= CLINT_END {
        clint_read_spec(v.clint, addr, size)
    } else if PLIC_BASE <= addr <= PLIC_END {
        plic_read_spec(v.plic, addr, size)
    } else if UART_BASE <= addr <= UART_END {
        uart_read_spec(v.uart, addr, size)
    } else if VIRTIO_BASE <= addr <= VIRTIO_END {
        virtio_read_spec(v.virtio, addr, size)
    } else if DRAM_BASE <= addr <= DRAM_END {
        mem_read_spec(v.dram, DRAM_BASE, addr, size)
    } else {
        Err(Exception::LoadAccessFault)
    }
}

/// The state of the devices after a `size`-bit load at `addr`: only a load from the UART can
/// change it.
pub open spec fn bus_after_read(v: BusView, addr: u64, size: u8) -> BusView {
    if MROM_BASE <= addr <= MROM_END || CLINT_BASE <= addr <= CLINT_END || PLIC_BASE <= addr
        <= PLIC_END {
        v
    } else if UART_BASE <= addr <= UART_END {
        BusView { uart: uart_after_read(v.uart, addr, size), ..v }
    } else {
        v
    }
}

/// The state of the devices after a `size`-bit store of `value` at `addr`, and the result of the
/// store. The UART takes the low 8 bits of the value, virtio the low 32.
pub open spec fn bus_write_spec(v: BusView, addr: u64, value: u64, size: u8) -> (
    BusView,
    Result<(), Exception>,
) {
    if CLINT_BASE <= addr <= CLINT_END {
        let (c, r) = clint_write_spec(v.clint, addr, value, size);
        (BusView { clint: c, ..v }, r)
    } else if PLIC_BASE <= addr <= PLIC_END {
        let (p, r) = plic_write_spec(v.plic, addr, value, size);
        (BusView { plic: p, ..v }, r)
    } else if UART_BASE <= addr <= UART_END {
        let (u, r) = uart_write_spec(v.uart, addr, value as u8, size);
        (BusView { uart: u, ..v }, r)
    } else if VIRTIO_BASE <= addr <= VIRTIO_END {
        let (d, r) = virtio_write_spec(v.virtio, addr, value as u32, size);
        (BusView { virtio: d, ..v }, r)
    } else if DRAM_BASE <= addr <= DRAM_END {
        if is_access_size(size) && in_region(DRAM_BASE, v.dram.len() as int, addr, size) {
            (BusView { dram: store_le(v.dram, addr - DRAM_BASE, value, size), ..v }, Ok(()))
        } else {
            (v, Err(Exception::StoreAMOAccessFault))
        }
    } else {
        (v, Err(Exception::StoreAMOAccessFault))
    }
}

/// The system bus.
pub struct Bus {
    pub clint: Clint,
    pub plic: Plic,
    pub uart: Uart,
    pub virtio: Virtio,
    pub dram: Dram,
    pub rom: Rom,
}

impl View for Bus {
    type V = BusView;

    open spec fn view(&self) -> BusView {
        BusView {
            clint: self.clint@,
            plic: self.plic@,
            uart: self.uart@,
            virtio: self.virtio@,
            dram: self.dram@,
            rom: self.rom@,
        }
    }
}

impl Bus {
    /// The devices of a new bus: all in their reset state, the memory zeroed and the ROM
    /// holding no device tree blob.
    pub open spec fn new_spec() -> BusView {
        BusView {
            clint: Clint::new_spec(),
            plic: Plic::initial(),
            uart: Uart::new_spec(),
            virtio: Virtio::new_spec(),
            dram: Seq::new(DRAM_SIZE as nat, |i: int| 0u8),
            rom: crate::rom::rom_image(Seq::<u8>::empty()),
        }
    }

    /// Create a new bus object. The ROM holds no device tree blob yet.
    pub fn new() -> (b: Bus)
        ensures
            b@ == Self::new_spec(),
    {
        Self {
            clint: Clint::new(),
            plic: Plic::new(),
            uart: Uart::new(),
            virtio: Virtio::new(),
            dram: Dram::new(),
            rom: Rom::new(Vec::new()),
        }
    }

    /// Set the binary data to the memory.
    pub fn initialize_dram(&mut self, data: Vec<u8>)
        requires
            data.len() <= DRAM_SIZE,
        ensures
            final(self)@ == (BusView {
                dram: data@ + old(self)@.dram.subrange(data.len() as int, DRAM_SIZE as int),
                ..old(self)@
            }),
    {
        self.dram.initialize(data);
    }

    /// Set the binary data to the virtIO disk.
    pub fn initialize_disk(&mut self, data: Vec<u8>)
        ensures
            final(self)@ == (BusView {
                virtio: VirtioView { disk: old(self)@.virtio.disk + data@, ..old(self)@.virtio },
                ..old(self)@
            }),
    {
        self.virtio.initialize(data);
    }

    /// Load a `size`-bit data from the device that connects to the system bus. An access that
    /// does not lie entirely within a memory raises a load access fault.
    pub fn read(&mut self, addr: u64, size: u8) -> (r: Result<u64, Exception>)
        ensures
            r == bus_read_spec(old(self)@, addr, size),
            final(self)@ == bus_after_read(old(self)@, addr, size),
    {
        // DRAM keeps its size: the offsets below are checked against it.
        let _dram_len = self.dram.len();
        if MROM_BASE <= addr && addr <= MROM_END {
            let len = self.rom.len();
            if is_size(size) && addr - MROM_BASE + (size / 8) as u64 <= len as u64 {
                self.rom.read(addr, size)
            } else {
                Err(Exception::LoadAccessFault)
            }
        } else if CLINT_BASE <= addr && addr <= CLINT_END {
            self.clint.read(addr, size)
        } else if PLIC_BASE <= addr && addr <= PLIC_END {
            self.plic.read(addr, size)
        } else if UART_BASE <= addr && addr <= UART_END {
            self.uart.read(addr, size)
        } else if VIRTIO_BASE <= addr && addr <= VIRTIO_END {
            self.virtio.read(addr, size)
        } else if DRAM_BASE <= addr && addr <= DRAM_END {
            if is_size(size) && addr - DRAM_BASE + (size / 8) as u64 <= DRAM_SIZE {
                self.dram.read(addr, size)
            } else {
                Err(Exception::LoadAccessFault)
            }
        } else {
            Err(Exception::LoadAccessFault)
        }
    }

    /// Store a `size`-bit data to the device that connects to the system bus. An access that
    /// does not lie entirely within the memory raises a store access fault.
    pub fn write(&mut self, addr: u64, value: u64, size: u8) -> (r: Result<(), Exception>)
        ensures
            (final(self)@, r) == bus_write_spec(old(self)@, addr, value, size),
    {
        // DRAM keeps its size: the offsets below are checked against it.
        let _dram_len = self.dram.len();
        if CLINT_BASE <= addr && addr <= CLINT_END {
            self.clint.write(addr, value, size)
        } else if PLIC_BASE <= addr && addr <= PLIC_END {
            self.plic.write(addr, value, size)
        } else if UART_BASE <= addr && addr <= UART_END {
            self.uart.write(addr, value as u8, size)
        } else if VIRTIO_BASE <= addr && addr <= VIRTIO_END {
            self.virtio.write(addr, value as u32, size)
        } else if DRAM_BASE <= addr && addr <= DRAM_END {
            if is_size(size) && addr - DRAM_BASE + (size / 8) as u64 <= DRAM_SIZE {
                self.dram.write(addr, value, size)
            } else {
                Err(Exception::StoreAMOAccessFault)
            }
        } else {
            Err(Exception::StoreAMOAccessFault)
        }
    }
}

/// Whether `size` is one of the access sizes a memory supports.
pub fn is_size(size: u8) -> (r: bool)
    ensures
        r == is_access_size(size),
{
    size == 8 || size == 16 || size == 32 || size == 64
}

/// Memory holds what was stored: a read of DRAM right after a write of the same size to the same
/// address gives back the value written, cut to the size of the access, and the write succeeds.
pub proof fn law_dram_read_after_write(b: BusView, addr: u64, value: u64, size: u8)
    requires
        is_access_size(size),
        b.dram.len() == DRAM_SIZE,
        DRAM_BASE <= addr,
        addr - DRAM_BASE + size_bytes(size) <= DRAM_SIZE,
    ensures
        bus_write_spec(b, addr, value, size).1 == Ok::<(), Exception>(()),
        bus_read_spec(bus_write_spec(b, addr, value, size).0, addr, size) == Ok::<
            u64,
            Exception,
        >(truncate(value, size)),
{
    lemma_load_store(b.dram, addr - DRAM_BASE, value, size);
}

/// A write of DRAM leaves the bytes of DRAM outside the ones it writes, and the other devices,
/// as they were.
pub proof fn law_dram_write_frame(b: BusView, addr: u64, value: u64, size: u8, other: int)
    requires
        is_access_size(size),
        b.dram.len() == DRAM_SIZE,
        DRAM_BASE <= addr,
        addr - DRAM_BASE + size_bytes(size) <= DRAM_SIZE,
        0 <= other < DRAM_SIZE,
        !(addr - DRAM_BASE <= other < addr - DRAM_BASE + size_bytes(size)),
    ensures
        bus_write_spec(b, addr, value, size).0.dram[other] == b.dram[other],
        bus_write_spec(b, addr, value, size).0.dram.len() == DRAM_SIZE,
        bus_write_spec(b, addr, value, size).0 == (BusView {
            dram: bus_write_spec(b, addr, value, size).0.dram,
            ..b
        }),
{
    lemma_load_store(b.dram, addr - DRAM_BASE, value, size);
}

/// A store on the bus: its address, its value and its size in bits.
pub type BusStore = (u64, u64, u8);

/// The state of the devices after the stores `ws`, in order, whatever each of them returns.
pub open spec fn bus_stores(v: BusView, ws: Seq<BusStore>) -> BusView
    decreases ws.len(),
{
    if ws.len() == 0 {
        v
    } else {
        bus_stores(bus_write_spec(v, ws[0].0, ws[0].1, ws[0].2).0, ws.drop_first())
    }
}

/// A store that writes none of the addresses `lo..hi`.
pub open spec fn bus_store_avoids(w: BusStore, lo: int, hi: int) -> bool {
    w.0 + size_bytes(w.2) <= lo || hi <= w.0
}

proof fn lemma_bus_stores_keep_dram(v: BusView, ws: Seq<BusStore>, lo: int, hi: int)
    requires
        v.dram.len() == DRAM_SIZE,
        forall|k: int| 0 <= k < ws.len() ==> bus_store_avoids(#[trigger] ws[k], lo, hi),
    ensures
        bus_stores(v, ws).dram.len() == DRAM_SIZE,
        forall|j: int|
            lo <= DRAM_BASE + j < hi && 0 <= j < DRAM_SIZE ==> bus_stores(v, ws).dram[j]
                == v.dram[j],
    decreases ws.len(),
{
    if ws.len() > 0 {
        let w = ws[0];
        assert(bus_store_avoids(w, lo, hi));
        let v1 = bus_write_spec(v, w.0, w.1, w.2).0;
        if is_access_size(w.2) && in_region(DRAM_BASE, v.dram.len() as int, w.0, w.2) {
            lemma_load_store(v.dram, w.0 - DRAM_BASE, w.1, w.2);
        }
        assert(v1.dram.len() == DRAM_SIZE);
        let rest = ws.drop_first();
        assert forall|k: int| 0 <= k < rest.len() implies bus_store_avoids(
            #[trigger] rest[k],
            lo,
            hi,
        ) by {
            assert(rest[k] == ws[k + 1]);
        }
        lemma_bus_stores_keep_dram(v1, rest, lo, hi);
        assert forall|j: int| lo <= DRAM_BASE + j < hi && 0 <= j < DRAM_SIZE implies bus_stores(
            v,
            ws,
        ).dram[j] == v.dram[j] by {
            assert(v1.dram[j] == v.dram[j]);
        }
    }
}

/// Memory keeps what was stored: a load of DRAM gives back the value that a store of the same
/// size at the same address wrote, cut to the size of the access, whatever stores to any device
/// come between, so long as none of them writes one of the bytes loaded.
pub proof fn law_dram_load_survives_stores(
    b: BusView,
    addr: u64,
    value: u64,
    size: u8,
    ws: Seq<BusStore>,
)
    requires
        is_access_size(size),
        b.dram.len() == DRAM_SIZE,
        DRAM_BASE <= addr,
        addr - DRAM_BASE + size_bytes(size) <= DRAM_SIZE,
        forall|k: int|
            0 <= k < ws.len() ==> bus_store_avoids(
                #[trigger] ws[k],
                addr as int,
                addr + size_bytes(size),
            ),
    ensures
        bus_read_spec(bus_stores(bus_write_spec(b, addr, value, size).0, ws), addr, size) == Ok::<
            u64,
            Exception,
        >(truncate(value, size)),
{
    law_dram_read_after_write(b, addr, value, size);
    let b1 = bus_write_spec(b, addr, value, size).0;
    lemma_load_store(b.dram, addr - DRAM_BASE, value, size);
    lemma_bus_stores_keep_dram(b1, ws, addr as int, addr + size_bytes(size));
    let b2 = bus_stores(b1, ws);
    lemma_load_same_bytes(b2.dram, b1.dram, addr - DRAM_BASE, size);
}

} // verus!
