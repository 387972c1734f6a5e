//! The ELF (Executable and Linkable Format) structures: the file header, program headers,
//! section headers and symbols, in their 32-bit and 64-bit forms. The 64-bit file header can
//! be read from the first bytes of a binary.

use vstd::prelude::*;

use crate::le::{le16, le32, le64};

verus! {

/// The size of the identification bytes at the start of an ELF file.
pub const EI_NIDENT: usize = 16;

/// The size of a 64-bit ELF file header.
pub const ELF64_EHDR_SIZE: usize = 64;

// Elf32 types
pub type Elf32Byte = u8;
pub type Elf32Half = u16;
pub type Elf32Word = u32;
pub type Elf32Addr = u32;
pub type Elf32Off = u32;

// Elf64 types
pub type Elf64Byte = u8;
pub type Elf64Half = u16;
pub type Elf64Word = u32;
pub type Elf64XWord = u64;
pub type Elf64Addr = u64;
pub type Elf64Off = u64;

/// 32-bit ELF header (Ehdr).
pub struct Elf32Ehdr {
    /// Elf identification
    pub e_indent: [Elf32Byte; EI_NIDENT],
    /// Object file type
    pub e_type: Elf32Half,
    /// Machine type
    pub e_machine: Elf32Half,
    /// Object file version
    pub e_version: Elf32Word,
    /// Entry point address
    pub e_entry: Elf32Addr,
    /// Program header offset
    pub e_phoff: Elf32Off,
    /// Section header offset
    pub e_shoff: Elf32Off,
    /// Processor-specific flags
    pub e_flags: Elf32Word,
    /// ELF header size
    pub e_ehsize: Elf32Half,
    /// Size of program header entry
    pub e_phentsize: Elf32Half,
    /// Number of program header entries
    pub e_phnum: Elf32Half,
    /// Size of section header entry
    pub e_shentsize: Elf32Half,
    /// Number of section header entries
    pub e_shnum: Elf32Half,
    /// Section name string table index
    pub e_shstrndx: Elf32Half,
}

/// 64-bit ELF header (Ehdr), laid out as in the file (`#[repr(C)]` order, little endian).
pub struct Elf64Ehdr {
    /// Elf identification
    pub e_indent: [Elf64Byte; EI_NIDENT],
    /// Object file type
    pub e_type: Elf64Half,
    /// Machine type
    pub e_machine: Elf64Half,
    /// Object file version
    pub e_version: Elf64Word,
    /// Entry point address
    pub e_entry: Elf64Addr,
    /// Program header offset
    pub e_phoff: Elf64Off,
    /// Section header offset
    pub e_shoff: Elf64Off,
    /// Processor-specific flags
    pub e_flags: Elf64Word,
    /// ELF header size
    pub e_ehsize: Elf64Half,
    /// Size of program header entry
    pub e_phentsize: Elf64Half,
    /// Number of program header entries
    pub e_phnum: Elf64Half,
    /// Size of section header entry
    pub e_shentsize: Elf64Half,
    /// Number of section header entries
    pub e_shnum: Elf64Half,
    /// Section name string table index
    pub e_shstrndx: Elf64Half,
}

/// 32-bit program header (Phdr).
#[derive(Debug, Clone, Copy, PartialEq, Eq)]
pub struct Elf32Phdr {
    /// Type of segment
    pub p_type: Elf32Word,
    /// Offset in file
    pub p_offset: Elf32Off,
    /// Virtual address in memory
    pub p_vaddr: Elf32Addr,
    /// Physical address in memory (if applicable)
    pub p_paddr: Elf32Addr,
    /// Size of segment in file
    pub p_filesz: Elf32Word,
    /// Size of segment in memory
    pub p_memsz: Elf32Word,
    /// Segment attributes
    pub p_flags: Elf32Word,
    /// Alignment of segment
    pub p_align: Elf32Word,
}

/// 64-bit program header (Phdr).
#[derive(Debug, Clone, Copy, PartialEq, Eq)]
pub struct Elf64Phdr {
    /// Type of segment
    pub p_type: Elf64Word,
    /// Segment attributes
    pub p_flags: Elf64Word,
    /// Offset in file
    pub p_offset: Elf64Off,
    /// Virtual address in memory
    pub p_vaddr: Elf64Addr,
    /// Physical address in memory (if applicable)
    pub p_paddr: Elf64Addr,
    /// Size of segment in file
    pub p_filesz: Elf64XWord,
    /// Size of segment in memory
    pub p_memsz: Elf64XWord,
    /// Alignment of segment
    pub p_align: Elf64XWord,
}

/// 32-bit section header (Shdr).
#[derive(Debug, Clone, Copy, PartialEq, Eq)]
pub struct Elf32Shdr {
    /// Section name
    pub sh_name: Elf32Word,
    /// Section type
    pub sh_type: Elf32Word,
    /// Section attributes
    pub sh_flags: Elf32Word,
    /// Virtual memory address
    pub sh_addr: Elf32Addr,
    /// Offset in file
    pub sh_offset: Elf32Off,
    /// Size in section
    pub sh_size: Elf32Word,
    /// Link to other section
    pub sh_link: Elf32Word,
    /// Miscellaneous information
    pub sh_info: Elf32Word,
    /// Address alignment boundary
    pub sh_addralign: Elf32Word,
    /// Size of entries, if section has table
    pub sh_entsize: Elf32Word,
}

/// 64-bit section header (Shdr).
#[derive(Debug, Clone, Copy, PartialEq, Eq)]
pub struct Elf64Shdr {
    /// Section name
    pub sh_name: Elf64Word,
    /// Section type
    pub sh_type: Elf64Word,
    /// Section attributes
    pub sh_flags: Elf64XWord,
    /// Virtual memory address
    pub sh_addr: Elf64Addr,
    /// Offset in file
    pub sh_offset: Elf64Off,
    /// Size in section
    pub sh_size: Elf64XWord,
    /// Link to other section
    pub sh_link: Elf64Word,
    /// Miscellaneous information
    pub sh_info: Elf64Word,
    /// Address alignment boundary
    pub sh_addralign: Elf64XWord,
    /// Size of entries, if section has table
    pub sh_entsize: Elf64XWord,
}

/// 32-bit string and symbol tables.
#[derive(Debug, Clone, Copy, PartialEq, Eq)]
pub struct Elf32Sym {
    /// Symbol name
    pub st_name: Elf32Word,
    /// Symbol value
    pub st_value: Elf32Addr,
    /// Size of object
    pub st_size: Elf32Word,
    /// Type and binding attributes
    pub st_info: Elf32Byte,
    /// Visibility
    pub st_other: Elf32Byte,
    /// Section table index
    pub st_shndx: Elf32Half,
}

/// 64-bit string and symbol tables.
#[derive(Debug, Clone, Copy, PartialEq, Eq)]
pub struct Elf64Sym {
    /// Symbol name
    pub st_name: Elf64Word,
    /// Type and binding attributes
    pub st_info: Elf64Byte,
    /// Visibility
    pub st_other: Elf64Byte,
    /// Section table index
    pub st_shndx: Elf64Half,
    /// Symbol value
    pub st_value: Elf64Addr,
    /// Size of object
    pub st_size: Elf64XWord,
}

/// The header a binary starts with: each field read little-endian at its offset in the file
/// header.
pub open spec fn ehdr_fields(b: Seq<u8>, h: Elf64Ehdr) -> bool {
    &&& h.e_indent@ == b.subrange(0, 16)
    &&& h.e_type as u64 == le16(b, 16)
    &&& h.e_machine as u64 == le16(b, 18)
    &&& h.e_version as u64 == le32(b, 20)
    &&& h.e_entry == le64(b, 24)
    &&& h.e_phoff == le64(b, 32)
    &&& h.e_shoff == le64(b, 40)
    &&& h.e_flags as u64 == le32(b, 48)
    &&& h.e_ehsize as u64 == le16(b, 52)
    &&& h.e_phentsize as u64 == le16(b, 54)
    &&& h.e_phnum as u64 == le16(b, 56)
    &&& h.e_shentsize as u64 == le16(b, 58)
    &&& h.e_shnum as u64 == le16(b, 60)
    &&& h.e_shstrndx as u64 == le16(b, 62)
}

/// The 16-bit little-endian value at `i`.
fn read_half(b: &[u8], i: usize) -> (r: u16)
    requires
        i + 2 <= b@.len(),
    ensures
        r as u64 == le16(b@, i as int),
{
    let (b0, b1) = (b[i], b[i + 1]);
    assert((b0 as u64) | ((b1 as u64) << 8) < 0x1_0000) by (bit_vector);
    ((b0 as u64) | ((b1 as u64) << 8)) as u16
}

/// The 32-bit little-endian value at `i`.
fn read_word(b: &[u8], i: usize) -> (r: u32)
    requires
        i + 4 <= b@.len(),
    ensures
        r as u64 == le32(b@, i as int),
{
    let (b0, b1, b2, b3) = (b[i], b[i + 1], b[i + 2], b[i + 3]);
    assert((b0 as u64) | ((b1 as u64) << 8) | ((b2 as u64) << 16) | ((b3 as u64) << 24)
        < 0x1_0000_0000) by (bit_vector);
    ((b0 as u64) | ((b1 as u64) << 8) | ((b2 as u64) << 16) | ((b3 as u64) << 24)) as u32
}

/// The 64-bit little-endian value at `i`.
fn read_xword(b: &[u8], i: usize) -> (r: u64)
    requires
        i + 8 <= b@.len(),
    ensures
        r == le64(b@, i as int),
{
    (b[i] as u64) | ((b[i + 1] as u64) << 8) | ((b[i + 2] as u64) << 16) | ((b[i + 3] as u64)
        << 24) | ((b[i + 4] as u64) << 32) | ((b[i + 5] as u64) << 40) | ((b[i + 6] as u64)
        << 48) | ((b[i + 7] as u64) << 56)
}

impl Elf64Ehdr {
    /// Read the ELF header at the start of a binary. `None` when the binary is shorter than a
    /// header (64 bytes).
    pub fn new(binary: &[u8]) -> (r: Option<Self>)
        ensures
            r is Some <==> binary@.len() >= ELF64_EHDR_SIZE,
            r matches Some(h) ==> ehdr_fields(binary@, h),
    {
        if binary.len() < ELF64_EHDR_SIZE {
            return None;
        }
        let mut e_indent = [0u8; EI_NIDENT];
        let mut i: usize = 0;
        while i < EI_NIDENT
            invariant
                i <= EI_NIDENT,
                binary@.len() >= ELF64_EHDR_SIZE,
                forall|j: int| 0 <= j < i ==> e_indent@[j] == binary@[j],
            decreases EI_NIDENT - i,
        {
            e_indent[i] = binary[i];
            i = i + 1;
        }
        assert(e_indent@ =~= binary@.subrange(0, 16));
        Some(
            Self {
                e_indent,
                e_type: read_half(binary, 16),
                e_machine: read_half(binary, 18),
                e_version: read_word(binary, 20),
                e_entry: read_xword(binary, 24),
                e_phoff: read_xword(binary, 32),
                e_shoff: read_xword(binary, 40),
                e_flags: read_word(binary, 48),
                e_ehsize: read_half(binary, 52),
                e_phentsize: read_half(binary, 54),
                e_phnum: read_half(binary, 56),
                e_shentsize: read_half(binary, 58),
                e_shnum: read_half(binary, 60),
                e_shstrndx: read_half(binary, 62),
            },
        )
    }

    /// Verify the header. Every header is accepted.
    pub fn verify(&self) -> (r: bool)
        ensures
            r,
    {
        true
    }
}

} // verus!
