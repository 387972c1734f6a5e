//! The rom module contains the read-only memory structure and implementation to read the memory.
//! The ROM holds a reset vector area followed by a device tree blob (DTB) compiled from a device
//! tree source (DTS).

use vstd::prelude::*;

use crate::dram::in_region;
use crate::exception::Exception;
use crate::le::{is_access_size, load_le, BYTE, DOUBLEWORD, HALFWORD, WORD};

verus! {

/// The address which the mask ROM starts.
pub const MROM_BASE: u64 = 0x1000;

/// The size of the reset vector area at the start of the ROM.
pub const RESET_VECTOR_SIZE: usize = 32;

/// The ROM is padded with zeros to a multiple of this size.
pub const ROM_ALIGN: usize = 0x1000;

/// The contents of a ROM built around the device tree blob `dtb`: a zeroed reset vector area,
/// the blob, then zeros up to the next multiple of `ROM_ALIGN` bytes.
pub open spec fn rom_image(dtb: Seq<u8>) -> Seq<u8> {
    let unpadded = RESET_VECTOR_SIZE + dtb.len();
    let len = (unpadded + ROM_ALIGN - 1) / (ROM_ALIGN as int) * (ROM_ALIGN as int);
    Seq::new(RESET_VECTOR_SIZE as nat, |i: int| 0u8) + dtb + Seq::new(
        (len - unpadded) as nat,
        |i: int| 0u8,
    )
}

/// The read-only memory (ROM).
pub struct Rom {
    data: Vec<u8>,
}

impl View for Rom {
    type V = Seq<u8>;

    closed spec fn view(&self) -> Seq<u8> {
        self.data@
    }
}

impl Rom {
    /// Create a new `rom` object that holds the device tree blob `dtb`.
    pub fn new(dtb: Vec<u8>) -> (r: Self)
        requires
            dtb.len() <= usize::MAX - RESET_VECTOR_SIZE - ROM_ALIGN,
        ensures
            r@ == rom_image(dtb@),
    {
        // 0x20 is the size of a reset vector.
        let mut rom: Vec<u8> = Vec::new();
        let mut i: usize = 0;
        while i < RESET_VECTOR_SIZE
            invariant
                i <= RESET_VECTOR_SIZE,
                rom@ == Seq::new(i as nat, |k: int| 0u8),
            decreases RESET_VECTOR_SIZE - i,
        {
            rom.push(0);
            i = i + 1;
            assert(rom@ =~= Seq::new(i as nat, |k: int| 0u8));
        }
        let mut j: usize = 0;
        while j < dtb.len()
            invariant
                j <= dtb.len() <= usize::MAX - RESET_VECTOR_SIZE - ROM_ALIGN,
                rom@ == Seq::new(RESET_VECTOR_SIZE as nat, |k: int| 0u8) + dtb@.subrange(0, j as int),
            decreases dtb.len() - j,
        {
            rom.push(dtb[j]);
            j = j + 1;
            assert(rom@ =~= Seq::new(RESET_VECTOR_SIZE as nat, |k: int| 0u8) + dtb@.subrange(
                0,
                j as int,
            ));
        }
        assert(dtb@.subrange(0, dtb.len() as int) =~= dtb@);
        let len = (rom.len() + ROM_ALIGN - 1) / ROM_ALIGN * ROM_ALIGN;
        assert(len >= rom.len()) by (nonlinear_arith)
            requires
                len == (rom.len() + ROM_ALIGN - 1) / (ROM_ALIGN as int) * (ROM_ALIGN as int),
                ROM_ALIGN == 0x1000,
        ;
        let unpadded = rom.len();
        while rom.len() < len
            invariant
                unpadded <= rom.len() <= len,
                rom@ == Seq::new(RESET_VECTOR_SIZE as nat, |k: int| 0u8) + dtb@ + Seq::new(
                    (rom.len() - unpadded) as nat,
                    |k: int| 0u8,
                ),
            decreases len - rom.len(),
        {
            rom.push(0);
            assert(rom@ =~= Seq::new(RESET_VECTOR_SIZE as nat, |k: int| 0u8) + dtb@ + Seq::new(
                (rom.len() - unpadded) as nat,
                |k: int| 0u8,
            ));
        }
        Self { data: rom }
    }

    /// Load `size`-bit data from the rom.
    pub fn read(&self, addr: u64, size: u8) -> (r: Result<u64, Exception>)
        requires
            is_access_size(size) ==> in_region(MROM_BASE, self@.len() as int, addr, size),
        ensures
            is_access_size(size) ==> r == Ok::<u64, Exception>(
                load_le(self@, addr - MROM_BASE, size),
            ),
            !is_access_size(size) ==> r == Err::<u64, Exception>(Exception::LoadAccessFault),
    {
        if size == BYTE {
            Ok(self.read8(addr))
        } else if size == HALFWORD {
            Ok(self.read16(addr))
        } else if size == WORD {
            Ok(self.read32(addr))
        } else if size == DOUBLEWORD {
            Ok(self.read64(addr))
        } else {
            Err(Exception::LoadAccessFault)
        }
    }

    /// The number of bytes the rom holds.
    pub fn len(&self) -> (r: usize)
        ensures
            r == self@.len(),
    {
        self.data.len()
    }

    /// Read a byte from the rom.
    pub fn read8(&self, addr: u64) -> (r: u64)
        requires
            in_region(MROM_BASE, self@.len() as int, addr, BYTE),
        ensures
            r == load_le(self@, addr - MROM_BASE, BYTE),
    {
        // The length is a usize: the index arithmetic below cannot overflow.
        let _len = self.data.len();
        let index = (addr - MROM_BASE) as usize;
        self.data[index] as u64
    }

    /// Read 2 bytes from the rom.
    pub fn read16(&self, addr: u64) -> (r: u64)
        requires
            in_region(MROM_BASE, self@.len() as int, addr, HALFWORD),
        ensures
            r == load_le(self@, addr - MROM_BASE, HALFWORD),
    {
        // The length is a usize: the index arithmetic below cannot overflow.
        let _len = self.data.len();
        let index = (addr - MROM_BASE) as usize;
        (self.data[index] as u64) | ((self.data[index + 1] as u64) << 8)
    }

    /// Read 4 bytes from the rom.
    pub fn read32(&self, addr: u64) -> (r: u64)
        requires
            in_region(MROM_BASE, self@.len() as int, addr, WORD),
        ensures
            r == load_le(self@, addr - MROM_BASE, WORD),
    {
        // The length is a usize: the index arithmetic below cannot overflow.
        let _len = self.data.len();
        let index = (addr - MROM_BASE) as usize;
        (self.data[index] as u64) | ((self.data[index + 1] as u64) << 8) | ((self.data[index
            + 2] as u64) << 16) | ((self.data[index + 3] as u64) << 24)
    }

    /// Read 8 bytes from the rom.
    pub fn read64(&self, addr: u64) -> (r: u64)
        requires
            in_region(MROM_BASE, self@.len() as int, addr, DOUBLEWORD),
        ensures
            r == load_le(self@, addr - MROM_BASE, DOUBLEWORD),
    {
        // The length is a usize: the index arithmetic below cannot overflow.
        let _len = self.data.len();
        let index = (addr - MROM_BASE) as usize;
        (self.data[index] as u64) | ((self.data[index + 1] as u64) << 8) | ((self.data[index
            + 2] as u64) << 16) | ((self.data[index + 3] as u64) << 24) | ((self.data[index
            + 4] as u64) << 32) | ((self.data[index + 5] as u64) << 40) | ((self.data[index
            + 6] as u64) << 48) | ((self.data[index + 7] as u64) << 56)
    }
}

} // verus!
