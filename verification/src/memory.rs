//! The memory module contains the memory structure and implementation to read/write the memory.

use vstd::prelude::*;

use crate::le::{
    is_access_size, le16, le32, le64, lemma_load_same_bytes, lemma_load_store,
    lemma_store_all_keeps, load_le, size_bytes, store_all, store_avoids, store_le, truncate,
    Store, DOUBLEWORD, HALFWORD, WORD,
};

verus! {

/// The memory size: 128 MiB.
pub const MEMORY_SIZE: usize = 1024 * 1024 * 128;

/// The memory used by the emulator.
#[derive(Debug)]
pub struct Memory {
    pub dram: Vec<u8>,
    code_size: usize,
}

impl View for Memory {
    type V = Seq<u8>;

    closed spec fn view(&self) -> Seq<u8> {
        self.dram@
    }
}

impl Memory {
    /// The memory keeps its size.
    pub open spec fn wf(&self) -> bool {
        self@.len() == MEMORY_SIZE
    }

    /// The code size recorded by the last `set_dram`.
    pub closed spec fn code_size_spec(&self) -> usize {
        self.code_size
    }

    /// Create a new `memory` object with default memory size (128 MiB), all zero.
    pub fn new() -> (m: Memory)
        ensures
            m.wf(),
            m@ == Seq::new(MEMORY_SIZE as nat, |i: int| 0u8),
            m.code_size_spec() == 0,
    {
        let m = Self { dram: vec![0; MEMORY_SIZE], code_size: 0 };
        assert(m@ =~= Seq::new(MEMORY_SIZE as nat, |i: int| 0u8));
        m
    }

    /// Return the code size in the memory.
    pub fn size(&self) -> (r: usize)
        ensures
            r == self.code_size_spec(),
    {
        self.code_size
    }

    /// Set the binary at the beginning of the memory; the rest is kept.
    pub fn set_dram(&mut self, binary: Vec<u8>)
        requires
            binary.len() <= old(self)@.len(),
        ensures
            final(self)@ == binary@ + old(self)@.subrange(binary.len() as int, old(self)@.len() as int),
            final(self).code_size_spec() == binary.len(),
    {
        self.code_size = binary.len();
        let mut i: usize = 0;
        while i < binary.len()
            invariant
                i <= binary.len() <= old(self)@.len(),
                self.dram@.len() == old(self)@.len(),
                self.code_size == binary.len(),
                forall|j: int| 0 <= j < i ==> self.dram@[j] == binary@[j],
                forall|j: int| i <= j < old(self)@.len() ==> self.dram@[j] == old(self)@[j],
            decreases binary.len() - i,
        {
            self.dram.set(i, binary[i]);
            i = i + 1;
        }
        assert(self@ =~= binary@ + old(self)@.subrange(binary.len() as int, old(self)@.len() as int));
    }

    /// Write a byte to the memory.
    pub fn write8(&mut self, addr: usize, val: u8)
        requires
            addr < old(self)@.len(),
        ensures
            final(self)@ == old(self)@.update(addr as int, val),
            final(self).code_size_spec() == old(self).code_size_spec(),
    {
        // The length is a usize: the index arithmetic below cannot overflow.
        let _len = self.dram.len();
        self.dram.set(addr, val);
    }

    /// Write 2 bytes to the memory with little endian.
    pub fn write16(&mut self, addr: usize, val: u16)
        requires
            addr + 2 <= old(self)@.len(),
        ensures
            final(self)@ == store_le(old(self)@, addr as int, val as u64, HALFWORD),
            final(self).code_size_spec() == old(self).code_size_spec(),
    {
        // The length is a usize: the index arithmetic below cannot overflow.
        let _len = self.dram.len();
        let v = val as u64;
        self.dram.set(addr, (v & 0xff) as u8);
        self.dram.set(addr + 1, ((v >> 8) & 0xff) as u8);
        assert(self@ =~= store_le(old(self)@, addr as int, v, HALFWORD));
    }

    /// Write 4 bytes to the memory with little endian.
    pub fn write32(&mut self, addr: usize, val: u32)
        requires
            addr + 4 <= old(self)@.len(),
        ensures
            final(self)@ == store_le(old(self)@, addr as int, val as u64, WORD),
            final(self).code_size_spec() == old(self).code_size_spec(),
    {
        // The length is a usize: the index arithmetic below cannot overflow.
        let _len = self.dram.len();
        let v = val as u64;
        self.dram.set(addr, (v & 0xff) as u8);
        self.dram.set(addr + 1, ((v >> 8) & 0xff) as u8);
        self.dram.set(addr + 2, ((v >> 16) & 0xff) as u8);
        self.dram.set(addr + 3, ((v >> 24) & 0xff) as u8);
        assert(self@ =~= store_le(old(self)@, addr as int, v, WORD));
    }

    /// Write 8 bytes to the memory with little endian.
    pub fn write64(&mut self, addr: usize, val: u64)
        requires
            addr + 8 <= old(self)@.len(),
        ensures
            final(self)@ == store_le(old(self)@, addr as int, val, DOUBLEWORD),
            final(self).code_size_spec() == old(self).code_size_spec(),
    {
        // The length is a usize: the index arithmetic below cannot overflow.
        let _len = self.dram.len();
        self.dram.set(addr, (val & 0xff) as u8);
        self.dram.set(addr + 1, ((val >> 8) & 0xff) as u8);
        self.dram.set(addr + 2, ((val >> 16) & 0xff) as u8);
        self.dram.set(addr + 3, ((val >> 24) & 0xff) as u8);
        self.dram.set(addr + 4, ((val >> 32) & 0xff) as u8);
        self.dram.set(addr + 5, ((val >> 40) & 0xff) as u8);
        self.dram.set(addr + 6, ((val >> 48) & 0xff) as u8);
        self.dram.set(addr + 7, ((val >> 56) & 0xff) as u8);
        assert(self@ =~= store_le(old(self)@, addr as int, val, DOUBLEWORD));
    }

    /// Read a byte from the memory.
    pub fn read8(&self, addr: usize) -> (r: u8)
        requires
            addr < self@.len(),
        ensures
            r == self@[addr as int],
    {
        // The length is a usize: the index arithmetic below cannot overflow.
        let _len = self.dram.len();
        self.dram[addr]
    }

    /// Read 2 bytes from the memory with little endian.
    pub fn read16(&self, addr: usize) -> (r: u16)
        requires
            addr + 2 <= self@.len(),
        ensures
            r as u64 == le16(self@, addr as int),
    {
        // The length is a usize: the index arithmetic below cannot overflow.
        let _len = self.dram.len();
        let (b0, b1) = (self.dram[addr], self.dram[addr + 1]);
        let v = (b0 as u64) | ((b1 as u64) << 8);
        assert((b0 as u64) | ((b1 as u64) << 8) < 0x1_0000) by (bit_vector);
        v as u16
    }

    /// Read 4 bytes from the memory with little endian.
    pub fn read32(&self, addr: usize) -> (r: u32)
        requires
            addr + 4 <= self@.len(),
        ensures
            r as u64 == le32(self@, addr as int),
    {
        // The length is a usize: the index arithmetic below cannot overflow.
        let _len = self.dram.len();
        let (b0, b1, b2, b3) = (
            self.dram[addr],
            self.dram[addr + 1],
            self.dram[addr + 2],
            self.dram[addr + 3],
        );
        let v = (b0 as u64) | ((b1 as u64) << 8) | ((b2 as u64) << 16) | ((b3 as u64) << 24);
        assert((b0 as u64) | ((b1 as u64) << 8) | ((b2 as u64) << 16) | ((b3 as u64) << 24)
            < 0x1_0000_0000) by (bit_vector);
        v as u32
    }

    /// Read 8 bytes from the memory with little endian.
    pub fn read64(&self, addr: usize) -> (r: u64)
        requires
            addr + 8 <= self@.len(),
        ensures
            r == le64(self@, addr as int),
    {
        // The length is a usize: the index arithmetic below cannot overflow.
        let _len = self.dram.len();
        (self.dram[addr] as u64) | ((self.dram[addr + 1] as u64) << 8) | ((self.dram[addr
            + 2] as u64) << 16) | ((self.dram[addr + 3] as u64) << 24) | ((self.dram[addr
            + 4] as u64) << 32) | ((self.dram[addr + 5] as u64) << 40) | ((self.dram[addr
            + 6] as u64) << 48) | ((self.dram[addr + 7] as u64) << 56)
    }
}

/// Memory holds what was stored: reading 2, 4 or 8 bytes right after writing them at the same
/// address gives the value written, and the other bytes are kept.
pub proof fn law_memory_read_after_write(m: Seq<u8>, addr: int, val: u64, size: u8, other: int)
    requires
        size == HALFWORD || size == WORD || size == DOUBLEWORD,
        0 <= addr,
        addr + size_bytes(size) <= m.len(),
        0 <= other < m.len(),
        !(addr <= other < addr + size_bytes(size)),
    ensures
        load_le(store_le(m, addr, val, size), addr, size) == truncate(val, size),
        store_le(m, addr, val, size)[other] == m[other],
        store_le(m, addr, val, size).len() == m.len(),
{
    lemma_load_store(m, addr, val, size);
}

/// Memory holds what was stored across later writes elsewhere: a read of 1, 2, 4 or 8 bytes
/// gives the value the last write of those bytes wrote (cut to the size of the access), when
/// the later writes (`write16`, `write32`, `write64`, or `write8`, which is the 1-byte store)
/// do not touch them.
pub proof fn law_memory_load_survives_stores(
    m: Seq<u8>,
    addr: int,
    val: u64,
    size: u8,
    ws: Seq<Store>,
)
    requires
        is_access_size(size),
        0 <= addr,
        addr + size_bytes(size) <= m.len(),
        forall|k: int|
            0 <= k < ws.len() ==> store_avoids(
                #[trigger] ws[k],
                m.len() as int,
                addr,
                addr + size_bytes(size),
            ),
    ensures
        load_le(store_all(store_le(m, addr, val, size), ws), addr, size) == truncate(val, size),
{
    lemma_load_store(m, addr, val, size);
    let s1 = store_le(m, addr, val, size);
    lemma_store_all_keeps(s1, ws, addr, addr + size_bytes(size));
    lemma_load_same_bytes(store_all(s1, ws), s1, addr, size);
}

} // verus!
