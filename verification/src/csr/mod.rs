//! The csr module contains all the control and status registers.

use vstd::prelude::*;

pub mod fcsr;
pub mod marchid;
pub mod mhartid;
pub mod mie;
pub mod misa;
pub mod mscratch;
pub mod mstatus;
pub mod mtvec;
pub mod mvendorid;
pub mod pmpaddr0;
pub mod satp;
pub mod scause;
pub mod sepc;
pub mod sstatus;
pub mod stvec;
pub mod uepc;

verus! {

pub type CsrAddress = u16;

/// The value of a single CSR object: a signed MXLEN-bit integer.
pub type Mxlen = i64;

pub const MXLEN: usize = 64;

/// The number of CSRs. The field is 12 bits so the maximum kind of CSRs is 4096 (2**12).
pub const CSR_SIZE: usize = 4096;

//////////////////////////////
// User-level CSR addresses //
//////////////////////////////
/// User status register.
pub const USTATUS: CsrAddress = 0x000;
/// User trap handler base address.
pub const UTVEC: CsrAddress = 0x005;
/// User exception program counter.
pub const UEPC: CsrAddress = 0x041;
/// User trap cause.
pub const UCAUSE: CsrAddress = 0x042;
/// User bad address or instruction.
pub const UTVAL: CsrAddress = 0x043;
/// Flating-point accrued exceptions.
pub const FFLAGS: CsrAddress = 0x001;
/// Floating-point dynamic rounding mode.
pub const FRB: CsrAddress = 0x002;
/// Floating-point control and status register (frm + fflags).
pub const FCSR: CsrAddress = 0x003;
/// Timer for RDTIME instruction.
pub const TIME: CsrAddress = 0xc01;

/////////////////////////////////////
// Supervisor-level CSR addresses //
////////////////////////////////////
/// Supervisor status register.
pub const SSTATUS: CsrAddress = 0x100;
/// Supervisor exception delegation register.
pub const SEDELEG: CsrAddress = 0x102;
/// Supervisor interrupt delegation register.
pub const SIDELEG: CsrAddress = 0x103;
/// Supervisor interrupt-enable register.
pub const SIE: CsrAddress = 0x104;
/// Supervisor trap handler base address.
pub const STVEC: CsrAddress = 0x105;
/// Scratch register for supervisor trap handlers.
pub const SSCRATCH: CsrAddress = 0x140;
/// Supervisor exception program counter.
pub const SEPC: CsrAddress = 0x141;
/// Supervisor trap cause.
pub const SCAUSE: CsrAddress = 0x142;
/// Supervisor bad address or instruction.
pub const STVAL: CsrAddress = 0x143;
/// Supervisor interrupt pending.
pub const SIP: CsrAddress = 0x144;
/// Supervisor address translation and protection.
pub const SATP: CsrAddress = 0x180;

// SSTATUS fields.
pub const SSTATUS_SIE: u64 = 0x00000002;
pub const SSTATUS_SPIE: u64 = 0x00000020;
pub const SSTATUS_SPP: u64 = 0x00000100;
pub const SSTATUS_VS: u64 = 0x00000600;
pub const SSTATUS_FS: u64 = 0x00006000;
pub const SSTATUS_XS: u64 = 0x00018000;
pub const SSTATUS_SUM: u64 = 0x00040000;
pub const SSTATUS_MXR: u64 = 0x00080000;
pub const SSTATUS_UXL: u64 = 0x0000000300000000;

/// The bits of `mstatus` that are visible through `sstatus`.
pub const SSTATUS_READ_MASK: u64 = SSTATUS_SIE | SSTATUS_SPIE | SSTATUS_SPP | SSTATUS_FS
    | SSTATUS_XS | SSTATUS_SUM | SSTATUS_MXR | SSTATUS_UXL;

/// The bits of `mstatus` that can be written through `sstatus`.
pub const SSTATUS_WRITE_MASK: u64 = SSTATUS_SIE | SSTATUS_SPIE | SSTATUS_SPP | SSTATUS_FS
    | SSTATUS_XS | SSTATUS_SUM | SSTATUS_MXR;

/////////////////////////////////
// Machine-level CSR addresses //
/////////////////////////////////
/// Vendor ID.
pub const MVENDORID: CsrAddress = 0xf11;
/// Architecture ID.
pub const MARCHID: CsrAddress = 0xf12;
/// Implementation ID.
pub const MIMPID: CsrAddress = 0xf13;
/// Hardware thread ID.
pub const MHARTID: CsrAddress = 0xf14;
/// Machine status register.
pub const MSTATUS: CsrAddress = 0x300;
/// ISA and extensions.
pub const MISA: CsrAddress = 0x301;
/// Machine exception delefation register.
pub const MEDELEG: CsrAddress = 0x302;
/// Machine interrupt delefation register.
pub const MIDELEG: CsrAddress = 0x303;
/// Machine interrupt-enable register.
pub const MIE: CsrAddress = 0x304;
/// Machine trap-handler base address.
pub const MTVEC: CsrAddress = 0x305;
/// Machine counter enable.
pub const MCOUNTEREN: CsrAddress = 0x306;
/// Scratch register for machine trap handlers.
pub const MSCRATCH: CsrAddress = 0x340;
/// Machine exception program counter.
pub const MEPC: CsrAddress = 0x341;
/// Machine trap cause.
pub const MCAUSE: CsrAddress = 0x342;
/// Machine bad address or instruction.
pub const MTVAL: CsrAddress = 0x343;
/// Machine interrupt pending.
pub const MIP: CsrAddress = 0x344;
/// Physical memory protection configuration.
pub const PMPCFG0: CsrAddress = 0x3a0;
/// Physical memory protection address register.
pub const PMPADDR0: CsrAddress = 0x3b0;

// MIP fields.
/// Supervisor software interrupt.
pub const SSIP_BIT: u64 = 1 << 1;
/// Machine software interrupt.
pub const MSIP_BIT: u64 = 1 << 3;
/// Supervisor timer interrupt.
pub const STIP_BIT: u64 = 1 << 5;
/// Machine timer interrupt.
pub const MTIP_BIT: u64 = 1 << 7;
/// Supervisor external interrupt.
pub const SEIP_BIT: u64 = 1 << 9;
/// Machine external interrupt.
pub const MEIP_BIT: u64 = 1 << 11;

/// The reset value of `misa`: MXL=2 (XLEN is 64) with the S, M, I, F, D, C and A extensions.
pub const MISA_RESET_VALUE: u64 = (2u64 << 62) | (1u64 << 18) | (1u64 << 12) | (1u64 << 8) | (1u64
    << 5) | (1u64 << 3) | (1u64 << 2) | 1u64;

/// The value a read of the CSR at `addr` gives, given the contents of all the CSRs.
/// `sstatus`, `sie` and `sip` are restricted views of `mstatus`, `mie` and `mip`.
pub open spec fn csr_read_spec(csrs: Seq<u64>, addr: CsrAddress) -> u64 {
    if addr == SSTATUS {
        csrs[MSTATUS as int] & SSTATUS_READ_MASK
    } else if addr == SIE {
        csrs[MIE as int] & csrs[MIDELEG as int]
    } else if addr == SIP {
        csrs[MIP as int] & csrs[MIDELEG as int]
    } else {
        csrs[addr as int]
    }
}

/// The contents of all the CSRs after writing `val` to the CSR at `addr`. The machine
/// information registers are read-only; `sstatus`, `sie` and `sip` write through to the
/// corresponding bits of `mstatus`, `mie` and `mip`.
pub open spec fn csr_write_spec(csrs: Seq<u64>, addr: CsrAddress, val: u64) -> Seq<u64> {
    if addr == MVENDORID || addr == MARCHID || addr == MIMPID || addr == MHARTID {
        csrs
    } else if addr == SSTATUS {
        csrs.update(
            MSTATUS as int,
            (csrs[MSTATUS as int] & !SSTATUS_WRITE_MASK) | (val & SSTATUS_WRITE_MASK),
        )
    } else if addr == SIE {
        csrs.update(
            MIE as int,
            (csrs[MIE as int] & !csrs[MIDELEG as int]) | (val & csrs[MIDELEG as int]),
        )
    } else if addr == SIP {
        let mask = SSIP_BIT & csrs[MIDELEG as int];
        csrs.update(MIP as int, (csrs[MIP as int] & !mask) | (val & mask))
    } else {
        csrs.update(addr as int, val)
    }
}

/// The contents of the CSRs after a reset: everything zero but `misa`.
pub open spec fn csr_reset_spec() -> Seq<u64> {
    Seq::new(CSR_SIZE as nat, |i: int| 0u64).update(MISA as int, MISA_RESET_VALUE)
}

/// The value of bit `bit` of `v`, as 0 or 1.
pub open spec fn bit_spec(v: u64, bit: usize) -> u64 {
    if v & (1u64 << bit) != 0 {
        1
    } else {
        0
    }
}

/// The mask with ones everywhere outside bits `start..end`.
pub open spec fn outside_mask(start: usize, end: usize) -> u64 {
    let high: u64 = if end == 64 {
        0
    } else {
        !0u64 << end
    };
    high | !(!0u64 << start)
}

/// Bits `start..end` of `v`, shifted down to bit 0.
pub open spec fn bits_spec(v: u64, start: usize, end: usize) -> u64 {
    let high: u64 = if end == 64 {
        0
    } else {
        !0u64 << end
    };
    (v & !high) >> start
}

/// `v` with bits `start..end` replaced: the bits outside the range are kept and `val` shifted
/// to `start` is or-ed in.
pub open spec fn set_bits_spec(v: u64, start: usize, end: usize, val: u64) -> u64 {
    (v & outside_mask(start, end)) | (val << start)
}

/// The CSRs after writing `val` (1 sets, 0 clears, anything else changes nothing) to bit `bit`
/// of the CSR at `addr`, through a read and a write of the whole CSR.
pub open spec fn write_bit_spec(csrs: Seq<u64>, addr: CsrAddress, bit: usize, val: u64) -> Seq<
    u64,
> {
    if val == 1 {
        csr_write_spec(csrs, addr, csr_read_spec(csrs, addr) | (1u64 << bit))
    } else if val == 0 {
        csr_write_spec(csrs, addr, csr_read_spec(csrs, addr) & !(1u64 << bit))
    } else {
        csrs
    }
}

/// The CSRs after writing `val` to bits `start..end` of the CSR at `addr`, through a read and a
/// write of the whole CSR.
pub open spec fn write_bits_spec(
    csrs: Seq<u64>,
    addr: CsrAddress,
    start: usize,
    end: usize,
    val: u64,
) -> Seq<u64> {
    csr_write_spec(csrs, addr, set_bits_spec(csr_read_spec(csrs, addr), start, end, val))
}

/// A bound of a range of bit positions.
#[derive(Clone, Copy, Debug, PartialEq, Eq)]
pub enum BitBound {
    Included(usize),
    Excluded(usize),
    Unbounded,
}

/// The first bit position of a range that starts at `b`.
pub open spec fn start_of(b: BitBound) -> int {
    match b {
        BitBound::Excluded(v) => v + 1,
        BitBound::Included(v) => v as int,
        BitBound::Unbounded => 0,
    }
}

/// The position after the last bit of a range that ends at `b`, in a value of `bit_length` bits.
pub open spec fn end_of(b: BitBound, bit_length: usize) -> int {
    match b {
        BitBound::Excluded(v) => v as int,
        BitBound::Included(v) => v + 1,
        BitBound::Unbounded => bit_length as int,
    }
}

/// The bit range of `start`..`end` fits a CSR: it starts below 64 and ends at most at 64.
pub open spec fn valid_bit_range(start: BitBound, end: BitBound) -> bool {
    start_of(start) < 64 && end_of(end, MXLEN) <= 64
}

/// Convert a pair of bounds to the `Range` of bit positions they enclose.
pub fn to_range(start: BitBound, end: BitBound, bit_length: usize) -> (r: core::ops::Range<usize>)
    requires
        start_of(start) <= usize::MAX,
        end_of(end, bit_length) <= usize::MAX,
    ensures
        r.start == start_of(start),
        r.end == end_of(end, bit_length),
{
    let s = match start {
        BitBound::Excluded(val) => val + 1,
        BitBound::Included(val) => val,
        BitBound::Unbounded => 0,
    };
    let e = match end {
        BitBound::Excluded(val) => val,
        BitBound::Included(val) => val + 1,
        BitBound::Unbounded => bit_length,
    };
    s..e
}

/// The state to contains all the CSRs.
pub struct State {
    csrs: [u64; CSR_SIZE],
}

impl View for State {
    type V = Seq<u64>;

    closed spec fn view(&self) -> Seq<u64> {
        self.csrs@
    }
}

impl State {
    /// The number of CSRs is fixed.
    pub proof fn lemma_len(&self)
        ensures
            self@.len() == CSR_SIZE,
    {
    }

    /// Create a new `state` object.
    pub fn new() -> (s: Self)
        ensures
            s@ == csr_reset_spec(),
    {
        let mut csrs = [0u64; CSR_SIZE];
        csrs[MISA as usize] = MISA_RESET_VALUE;
        let s = Self { csrs };
        assert(s@ =~= csr_reset_spec());
        s
    }

    /// Increment the value in the TIME register.
    pub fn increment_time(&mut self)
        ensures
            final(self)@ == old(self)@.update(
                TIME as int,
                old(self)@[TIME as int].wrapping_add(1),
            ),
    {
        self.csrs[TIME as usize] = self.csrs[TIME as usize].wrapping_add(1);
    }

    /// Read the val from the CSR.
    pub fn read(&self, addr: CsrAddress) -> (r: u64)
        requires
            addr < CSR_SIZE,
        ensures
            r == csr_read_spec(self@, addr),
    {
        // 4.1 Supervisor CSRs: "The supervisor should only view CSR state that should be
        // visible to a supervisor-level operating system."
        if addr == SSTATUS {
            self.csrs[MSTATUS as usize] & SSTATUS_READ_MASK
        } else if addr == SIE {
            self.csrs[MIE as usize] & self.csrs[MIDELEG as usize]
        } else if addr == SIP {
            self.csrs[MIP as usize] & self.csrs[MIDELEG as usize]
        } else {
            self.csrs[addr as usize]
        }
    }

    /// Write the val to the CSR.
    pub fn write(&mut self, addr: CsrAddress, val: u64)
        requires
            addr < CSR_SIZE,
        ensures
            final(self)@ == csr_write_spec(old(self)@, addr, val),
    {
        if addr == MVENDORID || addr == MARCHID || addr == MIMPID || addr == MHARTID {
        } else if addr == SSTATUS {
            self.csrs[MSTATUS as usize] = (self.csrs[MSTATUS as usize] & !SSTATUS_WRITE_MASK) | (
            val & SSTATUS_WRITE_MASK);
        } else if addr == SIE {
            self.csrs[MIE as usize] = (self.csrs[MIE as usize] & !self.csrs[MIDELEG as usize]) | (
            val & self.csrs[MIDELEG as usize]);
        } else if addr == SIP {
            let mask = SSIP_BIT & self.csrs[MIDELEG as usize];
            self.csrs[MIP as usize] = (self.csrs[MIP as usize] & !mask) | (val & mask);
        } else {
            self.csrs[addr as usize] = val;
        }
    }

    /// Read a bit from the CSR.
    pub fn read_bit(&self, addr: CsrAddress, bit: usize) -> (r: u64)
        requires
            addr < CSR_SIZE,
            bit < MXLEN,
        ensures
            r == bit_spec(csr_read_spec(self@, addr), bit),
    {
        if (self.read(addr) & (1u64 << bit)) != 0 {
            1
        } else {
            0
        }
    }

    /// Read a arbitrary length of bits from the CSR.
    pub fn read_bits(&self, addr: CsrAddress, start: BitBound, end: BitBound) -> (r: u64)
        requires
            addr < CSR_SIZE,
            valid_bit_range(start, end),
        ensures
            r == bits_spec(csr_read_spec(self@, addr), start_of(start) as usize, end_of(end, MXLEN) as usize),
    {
        let range = to_range(start, end, MXLEN);
        // Bitmask for high bits.
        let mut bitmask: u64 = 0;
        if range.end != 64 {
            bitmask = !0u64 << range.end;
        }
        // Shift away low bits.
        (self.read(addr) & !bitmask) >> range.start
    }

    /// Write a bit to the CSR.
    pub fn write_bit(&mut self, addr: CsrAddress, bit: usize, val: u64)
        requires
            addr < CSR_SIZE,
            bit < MXLEN,
        ensures
            final(self)@ == write_bit_spec(old(self)@, addr, bit, val),
    {
        if val == 1 {
            let v = self.read(addr) | (1u64 << bit);
            self.write(addr, v);
        } else if val == 0 {
            let v = self.read(addr) & !(1u64 << bit);
            self.write(addr, v);
        }
    }

    /// Write an arbitrary length of bits to the CSR.
    pub fn write_bits(&mut self, addr: CsrAddress, start: BitBound, end: BitBound, val: u64)
        requires
            addr < CSR_SIZE,
            valid_bit_range(start, end),
        ensures
            final(self)@ == write_bits_spec(
                old(self)@,
                addr,
                start_of(start) as usize,
                end_of(end, MXLEN) as usize,
                val,
            ),
    {
        let range = to_range(start, end, MXLEN);
        let high: u64 = if range.end == 64 {
            0
        } else {
            !0u64 << range.end
        };
        let bitmask = high | !(!0u64 << range.start);
        // Set bits.
        let v = (self.read(addr) & bitmask) | (val << range.start);
        self.write(addr, v)
    }

    /// Reset all the CSRs.
    pub fn reset(&mut self)
        ensures
            final(self)@ == csr_reset_spec(),
    {
        self.csrs = [0u64; CSR_SIZE];
        self.csrs[MISA as usize] = MISA_RESET_VALUE;
        assert(self@ =~= csr_reset_spec());
    }
}

/// The mask with ones above bit `end`, none when `end` is 64.
pub open spec fn high_mask(end: usize) -> i64 {
    if end == 64 {
        0
    } else {
        !0i64 << end
    }
}

/// Bits `start..end` of `v`, shifted down to bit 0.
pub open spec fn field_spec(v: i64, start: usize, end: usize) -> i64 {
    (((v as u64) & !(high_mask(end) as u64)) >> start) as i64
}

/// `v` with bits `start..end` cleared and `val` shifted to `start` or-ed in.
pub open spec fn set_field_spec(v: i64, start: usize, end: usize, val: i64) -> i64 {
    (v & (high_mask(end) | !(!0i64 << start))) | (val << start)
}

/// Whether bit `bit` of `v` is set.
pub open spec fn bit_set(v: i64, bit: usize) -> bool {
    v & (1i64 << bit) != 0
}

/// `v` with bit `bit` set (`value`) or cleared.
pub open spec fn with_bit(v: i64, bit: usize, value: bool) -> i64 {
    if value {
        v | (1i64 << bit)
    } else {
        v & !(1i64 << bit)
    }
}

/// A CSR held as an object of its own: its value can be created, reset, read and written.
pub trait CsrBase: Sized {
    /// The value the register holds.
    spec fn csr_value(&self) -> Mxlen;

    /// A register holding `value`.
    fn new(value: Mxlen) -> (s: Self)
        ensures
            s.csr_value() == value,
    ;

    /// Reset the register to 0.
    fn reset(&mut self)
        ensures
            final(self).csr_value() == 0,
    ;

    /// Replace the value of the register.
    fn write_value(&mut self, value: Mxlen)
        ensures
            final(self).csr_value() == value,
    ;

    /// The value of the register.
    fn read_value(&self) -> (r: Mxlen)
        ensures
            r == self.csr_value(),
    ;
}

/// The trait of writing the value which all CSRs should implement.
pub trait Write: CsrBase {
    /// Write a bit to the CSR.
    fn write_bit(&mut self, bit: usize, value: bool)
        requires
            bit < MXLEN,
        ensures
            final(self).csr_value() == with_bit(old(self).csr_value(), bit, value),
    {
        if value {
            let v = self.read_value() | 1i64 << bit;
            self.write_value(v);
        } else {
            let v = self.read_value() & !(1i64 << bit);
            self.write_value(v);
        }
    }

    /// Write a arbitrary length of bits to the CSR: the bits `start..end` are replaced by
    /// `value`.
    fn write_bits(&mut self, start: BitBound, end: BitBound, value: Mxlen)
        requires
            valid_bit_range(start, end),
        ensures
            final(self).csr_value() == set_field_spec(
                old(self).csr_value(),
                start_of(start) as usize,
                end_of(end, MXLEN) as usize,
                value,
            ),
    {
        let range = to_range(start, end, MXLEN);
        let high: i64 = if range.end == 64 {
            0
        } else {
            !0i64 << range.end
        };
        let bitmask = high | !(!0i64 << range.start);
        // Set bits.
        let v = (self.read_value() & bitmask) | (value << range.start);
        self.write_value(v)
    }
}

/// The trait of reading the value which all CSRs should implement.
pub trait Read: CsrBase {
    /// Read a bit from the CSR.
    fn read_bit(&self, bit: usize) -> (r: bool)
        requires
            bit < MXLEN,
        ensures
            r == bit_set(self.csr_value(), bit),
    {
        (self.read_value() & (1i64 << bit)) != 0
    }

    /// Read a arbitrary length of bits from the CSR.
    fn read_bits(&self, start: BitBound, end: BitBound) -> (r: i64)
        requires
            valid_bit_range(start, end),
        ensures
            r == field_spec(self.csr_value(), start_of(start) as usize, end_of(end, MXLEN) as usize),
    {
        let range = to_range(start, end, MXLEN);
        // Bitmask for high bits.
        let mut bitmask: i64 = 0;
        if range.end != 64 {
            bitmask = !0i64 << range.end;
        }
        // Shift away low bits.
        (((self.read_value() as u64) & !(bitmask as u64)) >> range.start) as i64
    }
}

/// An ordinary CSR holds what was written to it: reading it right after a write gives the
/// value written. The read-only machine information registers and the supervisor views
/// `sstatus`, `sie` and `sip` are not ordinary.
pub proof fn law_csr_read_after_write(csrs: Seq<u64>, addr: CsrAddress, val: u64)
    requires
        csrs.len() == CSR_SIZE,
        addr < CSR_SIZE,
        addr != MVENDORID && addr != MARCHID && addr != MIMPID && addr != MHARTID,
        addr != SSTATUS && addr != SIE && addr != SIP,
    ensures
        csr_read_spec(csr_write_spec(csrs, addr, val), addr) == val,
{
}

/// A write to a CSR changes no other CSR, but a write to a supervisor view, which changes the
/// machine register it shows (`mstatus`, `mie` or `mip`).
pub proof fn law_csr_write_frame(csrs: Seq<u64>, addr: CsrAddress, val: u64, other: int)
    requires
        csrs.len() == CSR_SIZE,
        addr < CSR_SIZE,
        0 <= other < CSR_SIZE,
        other != addr,
        !(addr == SSTATUS && other == MSTATUS),
        !(addr == SIE && other == MIE),
        !(addr == SIP && other == MIP),
    ensures
        csr_write_spec(csrs, addr, val)[other] == csrs[other],
        csr_write_spec(csrs, addr, val).len() == CSR_SIZE,
{
}

/// The machine information registers are read-only: a write to one of them changes nothing.
pub proof fn law_read_only_csrs(csrs: Seq<u64>, addr: CsrAddress, val: u64)
    requires
        addr == MVENDORID || addr == MARCHID || addr == MIMPID || addr == MHARTID,
    ensures
        csr_write_spec(csrs, addr, val) == csrs,
{
}

/// `sstatus` is a restricted view of `mstatus`: it shows the supervisor fields of `mstatus`,
/// and a write through it changes only the writable supervisor fields, which read back as
/// written.
pub proof fn law_sstatus_view(csrs: Seq<u64>, val: u64)
    requires
        csrs.len() == CSR_SIZE,
    ensures
        csr_read_spec(csrs, SSTATUS) == csr_read_spec(csrs, MSTATUS) & SSTATUS_READ_MASK,
        csr_read_spec(csr_write_spec(csrs, SSTATUS, val), SSTATUS) & SSTATUS_WRITE_MASK == val
            & SSTATUS_WRITE_MASK,
        csr_read_spec(csr_write_spec(csrs, SSTATUS, val), MSTATUS) & !SSTATUS_WRITE_MASK
            == csr_read_spec(csrs, MSTATUS) & !SSTATUS_WRITE_MASK,
{
    let m = csrs[MSTATUS as int];
    assert(((m & !SSTATUS_WRITE_MASK) | (val & SSTATUS_WRITE_MASK)) & SSTATUS_READ_MASK
        & SSTATUS_WRITE_MASK == val & SSTATUS_WRITE_MASK) by (bit_vector);
    assert(((m & !SSTATUS_WRITE_MASK) | (val & SSTATUS_WRITE_MASK)) & !SSTATUS_WRITE_MASK == m
        & !SSTATUS_WRITE_MASK) by (bit_vector);
}

/// A bit written with `write_bit` (1 sets, 0 clears) reads back with `read_bit` as written, for
/// an ordinary CSR.
pub proof fn law_bit_read_after_write(csrs: Seq<u64>, addr: CsrAddress, bit: usize, val: u64)
    requires
        csrs.len() == CSR_SIZE,
        addr < CSR_SIZE,
        addr != MVENDORID && addr != MARCHID && addr != MIMPID && addr != MHARTID,
        addr != SSTATUS && addr != SIE && addr != SIP,
        bit < MXLEN,
        val == 0 || val == 1,
    ensures
        bit_spec(csr_read_spec(write_bit_spec(csrs, addr, bit, val), addr), bit) == val,
{
    let v = csrs[addr as int];
    assert(((v | (1u64 << bit)) & (1u64 << bit)) != 0 && ((v & !(1u64 << bit)) & (1u64 << bit))
        == 0) by (bit_vector)
        requires
            bit < 64,
    ;
}

/// A field written with `write_bits` reads back with `read_bits` as written, when the value fits
/// in the field, for an ordinary CSR.
pub proof fn law_bits_read_after_write(
    csrs: Seq<u64>,
    addr: CsrAddress,
    start: usize,
    end: usize,
    val: u64,
)
    requires
        csrs.len() == CSR_SIZE,
        addr < CSR_SIZE,
        addr != MVENDORID && addr != MARCHID && addr != MIMPID && addr != MHARTID,
        addr != SSTATUS && addr != SIE && addr != SIP,
        start < end <= 64,
        val >> (end - start) as u64 == 0 || end - start == 64,
    ensures
        bits_spec(csr_read_spec(write_bits_spec(csrs, addr, start, end, val), addr), start, end)
            == val,
{
    let v = csrs[addr as int];
    lemma_set_bits_then_bits(v, start, end, val);
}

/// Bits `start..end` of `v` with those bits replaced by `val` are `val`, when `val` fits.
proof fn lemma_set_bits_then_bits(v: u64, start: usize, end: usize, val: u64)
    requires
        start < end <= 64,
        val >> (end - start) as u64 == 0 || end - start == 64,
    ensures
        bits_spec(set_bits_spec(v, start, end, val), start, end) == val,
{
    let s = start as u64;
    let e = end as u64;
    if end == 64 {
        assert((((v & (0u64 | !(!0u64 << s))) | (val << s)) & !0u64) >> s == val) by (bit_vector)
            requires
                s < 64,
                val >> ((64 - s) as u64) == 0 || s == 0,
        ;
    } else {
        assert(((((v & ((!0u64 << e) | !(!0u64 << s))) | (val << s)) & !(!0u64 << e)) >> s) == val)
            by (bit_vector)
            requires
                s < e < 64,
                val >> ((e - s) as u64) == 0,
        ;
    }
}

/// A bit of a register object written with `Write::write_bit` reads back with
/// `Read::read_bit` as written, and the other bits are kept.
pub proof fn law_register_bit_read_after_write(v: Mxlen, bit: usize, value: bool, other: usize)
    requires
        bit < MXLEN,
        other < MXLEN,
        other != bit,
    ensures
        bit_set(with_bit(v, bit, value), bit) == value,
        bit_set(with_bit(v, bit, value), other) == bit_set(v, other),
{
    let b = bit as u64;
    let o = other as u64;
    assert(((v | (1i64 << b)) & (1i64 << b)) != 0 && ((v & !(1i64 << b)) & (1i64 << b)) == 0
        && ((v | (1i64 << b)) & (1i64 << o)) == (v & (1i64 << o)) && ((v & !(1i64 << b)) & (1i64
        << o)) == (v & (1i64 << o))) by (bit_vector)
        requires
            b < 64,
            o < 64,
            b != o,
    ;
}

/// A field of a register object written with `Write::write_bits` reads back with
/// `Read::read_bits` as written, when the value fits in the field and the field ends below
/// the sign bit.
pub proof fn law_register_field_read_after_write(v: Mxlen, start: usize, end: usize, val: Mxlen)
    requires
        start < end < 64,
        0 <= val,
        val >> ((end - start) as u64) == 0,
    ensures
        field_spec(set_field_spec(v, start, end, val), start, end) == val,
{
    let s = start as u64;
    let e = end as u64;
    assert((((((v & ((!0i64 << e) | !(!0i64 << s))) | (val << s)) as u64) & !((!0i64 << e)
        as u64)) >> s) as i64 == val) by (bit_vector)
        requires
            s < e < 64,
            0 <= val,
            val >> ((e - s) as u64) == 0,
    ;
}

/// A write to a register object: of one bit (`Write::write_bit`), or of the field `start..end`
/// (`Write::write_bits`).
pub enum RegisterWrite {
    Bit(usize, bool),
    Field(usize, usize, Mxlen),
}

/// A write the law below speaks of: a bit below 64, or a field below the sign bit with a value
/// that fits in it.
pub open spec fn well_formed_write(w: RegisterWrite) -> bool {
    match w {
        RegisterWrite::Bit(bit, _) => bit < 64,
        RegisterWrite::Field(start, end, val) => start < end < 64 && 0 <= val && val >> ((end
            - start) as u64) == 0,
    }
}

/// The write changes none of the bits `lo..hi`.
pub open spec fn write_avoids(w: RegisterWrite, lo: usize, hi: usize) -> bool {
    match w {
        RegisterWrite::Bit(bit, _) => bit < lo || hi <= bit,
        RegisterWrite::Field(start, end, _) => end <= lo || hi <= start,
    }
}

/// The value of a register object after one write.
pub open spec fn apply_write(v: Mxlen, w: RegisterWrite) -> Mxlen {
    match w {
        RegisterWrite::Bit(bit, value) => with_bit(v, bit, value),
        RegisterWrite::Field(start, end, val) => set_field_spec(v, start, end, val),
    }
}

/// The value of a register object after the writes `ws`, in order.
pub open spec fn apply_writes(v: Mxlen, ws: Seq<RegisterWrite>) -> Mxlen
    decreases ws.len(),
{
    if ws.len() == 0 {
        v
    } else {
        apply_writes(apply_write(v, ws[0]), ws.drop_first())
    }
}

/// A write that avoids bits `lo..hi` keeps them: as a bit when the range is one bit, and as a
/// field otherwise.
proof fn lemma_write_keeps(v: Mxlen, w: RegisterWrite, lo: usize, hi: usize)
    requires
        well_formed_write(w),
        write_avoids(w, lo, hi),
        lo < hi <= 64,
    ensures
        hi == lo + 1 ==> bit_set(apply_write(v, w), lo) == bit_set(v, lo),
        hi < 64 ==> field_spec(apply_write(v, w), lo, hi) == field_spec(v, lo, hi),
{
    let l = lo as u64;
    let h = hi as u64;
    match w {
        RegisterWrite::Bit(bit, value) => {
            if hi == lo + 1 {
                law_register_bit_read_after_write(v, bit, value, lo);
            }
            let b = bit as u64;
            if hi < 64 {
            assert(((((if value { v | (1i64 << b) } else { v & !(1i64 << b) }) as u64) & !((!0i64
                << h) as u64)) >> l) as i64 == ((((v as u64) & !((!0i64 << h) as u64)) >> l)
                as i64)) by (bit_vector)
                requires
                    b < 64,
                    l < h < 64,
                    b < l || h <= b,
            ;
            }
        },
        RegisterWrite::Field(start, end, val) => {
            let s = start as u64;
            let e = end as u64;
            if hi < 64 {
            assert((((((v & ((!0i64 << e) | !(!0i64 << s))) | (val << s)) as u64) & !((!0i64
                << h) as u64)) >> l) as i64 == ((((v as u64) & !((!0i64 << h) as u64)) >> l)
                as i64)) by (bit_vector)
                requires
                    s < e < 64,
                    l < h < 64,
                    0 <= val,
                    val >> ((e - s) as u64) == 0,
                    e <= l || h <= s,
            ;
            }
            if hi == lo + 1 {
                assert((((v & ((!0i64 << e) | !(!0i64 << s))) | (val << s)) & (1i64 << l)) != 0
                    <==> (v & (1i64 << l)) != 0) by (bit_vector)
                    requires
                        s < e < 64,
                        l < 64,
                        0 <= val,
                        val >> ((e - s) as u64) == 0,
                        e <= l || l + 1 <= s,
                ;
            }
        },
    }
}

/// Writes that all avoid bits `lo..hi` keep them.
proof fn lemma_writes_keep(v: Mxlen, ws: Seq<RegisterWrite>, lo: usize, hi: usize)
    requires
        forall|i: int| 0 <= i < ws.len() ==> well_formed_write(#[trigger] ws[i]) && write_avoids(
            ws[i],
            lo,
            hi,
        ),
        lo < hi <= 64,
    ensures
        hi == lo + 1 ==> bit_set(apply_writes(v, ws), lo) == bit_set(v, lo),
        hi < 64 ==> field_spec(apply_writes(v, ws), lo, hi) == field_spec(v, lo, hi),
    decreases ws.len(),
{
    if ws.len() > 0 {
        lemma_write_keeps(v, ws[0], lo, hi);
        let rest = ws.drop_first();
        assert forall|i: int| 0 <= i < rest.len() implies well_formed_write(#[trigger] rest[i])
            && write_avoids(rest[i], lo, hi) by {
            assert(rest[i] == ws[i + 1]);
        }
        lemma_writes_keep(apply_write(v, ws[0]), rest, lo, hi);
    }
}

/// A bit of a register object written with `Write::write_bit` reads back with `Read::read_bit`
/// as written after any number of later writes of other bits and of fields that do not
/// contain it: so a floating-point exception flag of `fcsr` set with `write_dz` reads back with
/// `read_dz` after `write_nv`, `write_of`, `write_uf` and `write_nx`.
pub proof fn law_register_bit_survives_writes(
    v: Mxlen,
    bit: usize,
    value: bool,
    ws: Seq<RegisterWrite>,
)
    requires
        bit < 64,
        forall|i: int| 0 <= i < ws.len() ==> well_formed_write(#[trigger] ws[i]) && write_avoids(
            ws[i],
            bit,
            (bit + 1) as usize,
        ),
    ensures
        bit_set(apply_writes(with_bit(v, bit, value), ws), bit) == value,
{
    law_register_bit_read_after_write(v, bit, value, if bit == 0 { 1 } else { 0 });
    lemma_writes_keep(with_bit(v, bit, value), ws, bit, (bit + 1) as usize);
}

/// A field of a register object (such as MPP, bits 11 and 12 of `mstatus`) written with
/// `Write::write_bits` reads back with `Read::read_bits` as written after any number of later
/// writes of bits and fields outside it, when the value fits in the field and the field ends
/// below the sign bit.
pub proof fn law_register_field_survives_writes(
    v: Mxlen,
    start: usize,
    end: usize,
    val: Mxlen,
    ws: Seq<RegisterWrite>,
)
    requires
        start < end < 64,
        0 <= val,
        val >> ((end - start) as u64) == 0,
        forall|i: int| 0 <= i < ws.len() ==> well_formed_write(#[trigger] ws[i]) && write_avoids(
            ws[i],
            start,
            end,
        ),
    ensures
        field_spec(apply_writes(set_field_spec(v, start, end, val), ws), start, end) == val,
{
    law_register_field_read_after_write(v, start, end, val);
    lemma_writes_keep(set_field_spec(v, start, end, val), ws, start, end);
}

} // verus!
