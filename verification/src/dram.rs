//! The dram module contains the main memory of the emulator and the implementation to read and
//! write it.

use vstd::prelude::*;

use crate::exception::Exception;
use crate::le::{
    byte_of, is_access_size, lemma_load_same_bytes, lemma_load_store, load_le, size_bytes,
    store_le, truncate, BYTE, DOUBLEWORD, HALFWORD, WORD,
};

verus! {

/// The address which DRAM starts.
pub const DRAM_BASE: u64 = 0x8000_0000;

/// Default memory size (1GiB).
pub const DRAM_SIZE: u64 = 1024 * 1024 * 1024;

/// `size` bits at `addr` lie within a memory of `len` bytes mapped at `base`.
pub open spec fn in_region(base: u64, len: int, addr: u64, size: u8) -> bool {
    base <= addr && addr - base + size_bytes(size) <= len
}

/// The memory used by the emulator.
#[derive(Debug)]
pub struct Dram {
    dram: Vec<u8>,
    code_size: u64,
}

impl View for Dram {
    type V = Seq<u8>;

    closed spec fn view(&self) -> Seq<u8> {
        self.dram@
    }
}

impl Dram {
    #[verifier::type_invariant]
    spec fn inv(&self) -> bool {
        self.dram@.len() == DRAM_SIZE
    }

    /// The size of the binary most recently set in the memory.
    pub closed spec fn code_size_spec(&self) -> u64 {
        self.code_size
    }

    /// The number of bytes of the memory, which is always `DRAM_SIZE`.
    pub fn len(&self) -> (r: u64)
        ensures
            r == self@.len(),
            r == DRAM_SIZE,
    {
        proof {
            use_type_invariant(self);
        }
        self.dram.len() as u64
    }

    /// Create a new memory object with default memory size.
    pub fn new() -> (d: Self)
        ensures
            d@ == Seq::new(DRAM_SIZE as nat, |i: int| 0u8),
            d.code_size_spec() == 0,
    {
        let d = Self { dram: vec![0u8; DRAM_SIZE as usize], code_size: 0 };
        assert(d@ =~= Seq::new(DRAM_SIZE as nat, |i: int| 0u8));
        d
    }

    /// Set the binary in the memory, from its first byte on.
    pub fn initialize(&mut self, binary: Vec<u8>)
        requires
            binary.len() <= DRAM_SIZE,
        ensures
            final(self)@ == binary@ + old(self)@.subrange(binary.len() as int, DRAM_SIZE as int),
            final(self).code_size_spec() == binary.len(),
    {
        proof {
            use_type_invariant(&*self);
        }
        self.code_size = binary.len() as u64;
        let mut i: usize = 0;
        while i < binary.len()
            invariant
                i <= binary.len() <= DRAM_SIZE,
                self.dram@.len() == DRAM_SIZE,
                forall|j: int| 0 <= j < i ==> self.dram@[j] == binary@[j],
                forall|j: int| i <= j < DRAM_SIZE ==> self.dram@[j] == old(self).dram@[j],
                self.code_size == binary.len(),
            decreases binary.len() - i,
        {
            self.dram[i] = binary[i];
            i = i + 1;
        }
        assert(self@ =~= binary@ + old(self)@.subrange(binary.len() as int, DRAM_SIZE as int));
    }

    /// Load `size`-bit data from the memory.
    pub fn read(&self, addr: u64, size: u8) -> (r: Result<u64, Exception>)
        requires
            is_access_size(size) ==> in_region(DRAM_BASE, DRAM_SIZE as int, addr, size),
        ensures
            is_access_size(size) ==> r == Ok::<u64, Exception>(
                load_le(self@, addr - DRAM_BASE, size),
            ),
            !is_access_size(size) ==> r == Err::<u64, Exception>(Exception::LoadAccessFault),
    {
        if size == BYTE {
            Ok(self.read8(addr))
        } else if size == HALFWORD {
            Ok(self.read16(addr))
        } else if size == WORD {
            Ok(self.read32(addr))
        } else if size == DOUBLEWORD {
            Ok(self.read64(addr))
        } else {
            Err(Exception::LoadAccessFault)
        }
    }

    /// Store `size`-bit data to the memory.
    pub fn write(&mut self, addr: u64, value: u64, size: u8) -> (r: Result<(), Exception>)
        requires
            is_access_size(size) ==> in_region(DRAM_BASE, DRAM_SIZE as int, addr, size),
        ensures
            is_access_size(size) ==> r == Ok::<(), Exception>(()) && final(self)@ == store_le(
                old(self)@,
                addr - DRAM_BASE,
                value,
                size,
            ),
            !is_access_size(size) ==> r == Err::<(), Exception>(Exception::StoreAMOAccessFault)
                && final(self)@ == old(self)@,
            final(self).code_size_spec() == old(self).code_size_spec(),
    {
        if size == BYTE {
            self.write8(addr, value);
        } else if size == HALFWORD {
            self.write16(addr, value);
        } else if size == WORD {
            self.write32(addr, value);
        } else if size == DOUBLEWORD {
            self.write64(addr, value);
        } else {
            return Err(Exception::StoreAMOAccessFault);
        }
        Ok(())
    }

    /// Write a byte to the memory.
    fn write8(&mut self, addr: u64, val: u64)
        requires
            in_region(DRAM_BASE, DRAM_SIZE as int, addr, BYTE),
        ensures
            final(self)@ == store_le(old(self)@, addr - DRAM_BASE, val, BYTE),
            final(self).code_size == old(self).code_size,
    {
        proof {
            use_type_invariant(&*self);
        }
        let index = (addr - DRAM_BASE) as usize;
        self.dram[index] = val as u8;
    }

    /// Write 2 bytes to the memory with little endian.
    fn write16(&mut self, addr: u64, val: u64)
        requires
            in_region(DRAM_BASE, DRAM_SIZE as int, addr, HALFWORD),
        ensures
            final(self)@ == store_le(old(self)@, addr - DRAM_BASE, val, HALFWORD),
            final(self).code_size == old(self).code_size,
    {
        proof {
            use_type_invariant(&*self);
        }
        let index = (addr - DRAM_BASE) as usize;
        self.dram[index] = (val & 0xff) as u8;
        self.dram[index + 1] = ((val >> 8) & 0xff) as u8;
    }

    /// Write 4 bytes to the memory with little endian.
    fn write32(&mut self, addr: u64, val: u64)
        requires
            in_region(DRAM_BASE, DRAM_SIZE as int, addr, WORD),
        ensures
            final(self)@ == store_le(old(self)@, addr - DRAM_BASE, val, WORD),
            final(self).code_size == old(self).code_size,
    {
        proof {
            use_type_invariant(&*self);
        }
        let index = (addr - DRAM_BASE) as usize;
        self.dram[index] = (val & 0xff) as u8;
        self.dram[index + 1] = ((val >> 8) & 0xff) as u8;
        self.dram[index + 2] = ((val >> 16) & 0xff) as u8;
        self.dram[index + 3] = ((val >> 24) & 0xff) as u8;
    }

    /// Write 8 bytes to the memory with little endian.
    fn write64(&mut self, addr: u64, val: u64)
        requires
            in_region(DRAM_BASE, DRAM_SIZE as int, addr, DOUBLEWORD),
        ensures
            final(self)@ == store_le(old(self)@, addr - DRAM_BASE, val, DOUBLEWORD),
            final(self).code_size == old(self).code_size,
    {
        proof {
            use_type_invariant(&*self);
        }
        let index = (addr - DRAM_BASE) as usize;
        self.dram[index] = (val & 0xff) as u8;
        self.dram[index + 1] = ((val >> 8) & 0xff) as u8;
        self.dram[index + 2] = ((val >> 16) & 0xff) as u8;
        self.dram[index + 3] = ((val >> 24) & 0xff) as u8;
        self.dram[index + 4] = ((val >> 32) & 0xff) as u8;
        self.dram[index + 5] = ((val >> 40) & 0xff) as u8;
        self.dram[index + 6] = ((val >> 48) & 0xff) as u8;
        self.dram[index + 7] = ((val >> 56) & 0xff) as u8;
    }

    /// Read a byte from the memory.
    fn read8(&self, addr: u64) -> (r: u64)
        requires
            in_region(DRAM_BASE, DRAM_SIZE as int, addr, BYTE),
        ensures
            r == load_le(self@, addr - DRAM_BASE, BYTE),
    {
        proof {
            use_type_invariant(self);
        }
        let index = (addr - DRAM_BASE) as usize;
        self.dram[index] as u64
    }

    /// Read 2 bytes from the memory with little endian.
    fn read16(&self, addr: u64) -> (r: u64)
        requires
            in_region(DRAM_BASE, DRAM_SIZE as int, addr, HALFWORD),
        ensures
            r == load_le(self@, addr - DRAM_BASE, HALFWORD),
    {
        proof {
            use_type_invariant(self);
        }
        let index = (addr - DRAM_BASE) as usize;
        (self.dram[index] as u64) | ((self.dram[index + 1] as u64) << 8)
    }

    /// Read 4 bytes from the memory with little endian.
    fn read32(&self, addr: u64) -> (r: u64)
        requires
            in_region(DRAM_BASE, DRAM_SIZE as int, addr, WORD),
        ensures
            r == load_le(self@, addr - DRAM_BASE, WORD),
    {
        proof {
            use_type_invariant(self);
        }
        let index = (addr - DRAM_BASE) as usize;
        (self.dram[index] as u64) | ((self.dram[index + 1] as u64) << 8) | ((self.dram[index
            + 2] as u64) << 16) | ((self.dram[index + 3] as u64) << 24)
    }

    /// Read 8 bytes from the memory with little endian.
    fn read64(&self, addr: u64) -> (r: u64)
        requires
            in_region(DRAM_BASE, DRAM_SIZE as int, addr, DOUBLEWORD),
        ensures
            r == load_le(self@, addr - DRAM_BASE, DOUBLEWORD),
    {
        proof {
            use_type_invariant(self);
        }
        let index = (addr - DRAM_BASE) as usize;
        (self.dram[index] as u64) | ((self.dram[index + 1] as u64) << 8) | ((self.dram[index
            + 2] as u64) << 16) | ((self.dram[index + 3] as u64) << 24) | ((self.dram[index
            + 4] as u64) << 32) | ((self.dram[index + 5] as u64) << 40) | ((self.dram[index
            + 6] as u64) << 48) | ((self.dram[index + 7] as u64) << 56)
    }
}

/// A write to DRAM: its address, its value and its size in bits.
pub type DramWrite = (u64, u64, u8);

/// The bytes of DRAM after the writes `ws` (`Dram::write`), in order; a write of a size that
/// DRAM does not serve changes nothing.
pub open spec fn dram_writes(s: Seq<u8>, ws: Seq<DramWrite>) -> Seq<u8>
    decreases ws.len(),
{
    if ws.len() == 0 {
        s
    } else {
        let w = ws[0];
        dram_writes(
            if is_access_size(w.2) {
                store_le(s, w.0 - DRAM_BASE, w.1, w.2)
            } else {
                s
            },
            ws.drop_first(),
        )
    }
}

/// A write that DRAM accepts and that writes none of the addresses `lo..hi`.
pub open spec fn write_misses(w: DramWrite, lo: int, hi: int) -> bool {
    is_access_size(w.2) ==> in_region(DRAM_BASE, DRAM_SIZE as int, w.0, w.2) && (w.0 + size_bytes(
        w.2,
    ) <= lo || hi <= w.0)
}

proof fn lemma_dram_writes_keep(s: Seq<u8>, ws: Seq<DramWrite>, lo: int, hi: int)
    requires
        s.len() == DRAM_SIZE,
        forall|k: int| 0 <= k < ws.len() ==> write_misses(#[trigger] ws[k], lo, hi),
    ensures
        dram_writes(s, ws).len() == DRAM_SIZE,
        forall|j: int|
            lo <= DRAM_BASE + j < hi && 0 <= j < DRAM_SIZE ==> dram_writes(s, ws)[j] == s[j],
    decreases ws.len(),
{
    if ws.len() > 0 {
        let w = ws[0];
        assert(write_misses(w, lo, hi));
        let s1 = if is_access_size(w.2) {
            store_le(s, w.0 - DRAM_BASE, w.1, w.2)
        } else {
            s
        };
        if is_access_size(w.2) {
            lemma_load_store(s, w.0 - DRAM_BASE, w.1, w.2);
        }
        let rest = ws.drop_first();
        assert forall|k: int| 0 <= k < rest.len() implies write_misses(#[trigger] rest[k], lo, hi) by {
            assert(rest[k] == ws[k + 1]);
        }
        lemma_dram_writes_keep(s1, rest, lo, hi);
        assert forall|j: int| lo <= DRAM_BASE + j < hi && 0 <= j < DRAM_SIZE implies dram_writes(
            s,
            ws,
        )[j] == s[j] by {
            assert(s1[j] == s[j]);
        }
    }
}

/// DRAM keeps what was written: a read of the size and address of an earlier write gives back
/// the value written, cut to the size of the access, whatever later writes come between, so
/// long as none of them writes one of the bytes read.
pub proof fn law_dram_read_survives_writes(
    d: Seq<u8>,
    addr: u64,
    value: u64,
    size: u8,
    ws: Seq<DramWrite>,
)
    requires
        d.len() == DRAM_SIZE,
        is_access_size(size),
        in_region(DRAM_BASE, DRAM_SIZE as int, addr, size),
        forall|k: int|
            0 <= k < ws.len() ==> write_misses(#[trigger] ws[k], addr as int, addr + size_bytes(size)),
    ensures
        load_le(dram_writes(store_le(d, addr - DRAM_BASE, value, size), ws), addr - DRAM_BASE, size)
            == truncate(value, size),
{
    lemma_load_store(d, addr - DRAM_BASE, value, size);
    let d1 = store_le(d, addr - DRAM_BASE, value, size);
    lemma_dram_writes_keep(d1, ws, addr as int, addr + size_bytes(size));
    lemma_load_same_bytes(dram_writes(d1, ws), d1, addr - DRAM_BASE, size);
}

} // verus!
