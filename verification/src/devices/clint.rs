//! The clint module contains the core-local interruptor (CLINT). The CLINT block holds
//! memory-mapped control and status registers associated with software and timer interrupts. It
//! generates per-hart software interrupts and timer.

use vstd::prelude::*;

use crate::csr::{csr_read_spec, csr_write_spec, State, MIP, MSIP_BIT, MTIP_BIT};
use crate::exception::Exception;
use crate::le::{BYTE, DOUBLEWORD, HALFWORD, WORD};

verus! {

/// The address which the core-local interruptor (CLINT) starts. It contains the timer and
/// generates per-hart software interrupts and timer interrupts.
pub const CLINT_BASE: u64 = 0x200_0000;

/// The address that a msip register starts. A msip is a machine mode software interrupt pending
/// register, used to assert a software interrupt for a CPU.
pub const MSIP: u64 = CLINT_BASE;
/// The last address of the msip register. `msip` is a 4-byte register.
pub const MSIP_END: u64 = MSIP + 0x3;

/// The address that a mtime_compare register starts. A mtime_compare is a memory mapped machine mode timer
/// compare register, used to trigger an interrupt when mtime_compare is greater than or equal to mtime.
pub const MTIME_COMPARE: u64 = CLINT_BASE + 0x4000;
/// The last address of the mtime_compare register. `mtime_compare` is a 8-byte register.
pub const MTIME_COMPARE_END: u64 = MTIME_COMPARE + 0x7;

/// The address that a timer register starts. A mtime is a machine mode timer register which runs
/// at a constant frequency.
pub const MTIME: u64 = CLINT_BASE + 0xbff8;
/// The last address of the timer register. `mtime` is a 8-byte register.
pub const MTIME_END: u64 = MTIME + 0x7;

/// The registers of a CLINT.
pub struct ClintView {
    pub msip: u32,
    pub mtime_compare: u64,
    pub mtime: u64,
}

/// The register a CLINT address falls in: its value, the byte offset of the address in it, and
/// its width in bytes.
pub open spec fn clint_reg(v: ClintView, addr: u64) -> Option<(u64, u64, u64)> {
    if MSIP <= addr <= MSIP_END {
        Some((v.msip as u64, (addr - MSIP) as u64, 4u64))
    } else if MTIME_COMPARE <= addr <= MTIME_COMPARE_END {
        Some((v.mtime_compare, (addr - MTIME_COMPARE) as u64, 8u64))
    } else if MTIME <= addr <= MTIME_END {
        Some((v.mtime, (addr - MTIME) as u64, 8u64))
    } else {
        None
    }
}

/// A `size`-bit access at byte `offset` of a register `width` bytes wide is one a CLINT serves:
/// of 8, 16, 32 or 64 bits, and lying within the register.
pub open spec fn fits(offset: u64, size: u8, width: u64) -> bool {
    &&& (size == BYTE || size == HALFWORD || size == WORD || size == DOUBLEWORD)
    &&& offset + size / 8 <= width
}

/// The part of `reg` that a `size`-bit access at byte `offset` covers.
pub open spec fn extract(reg: u64, offset: u64, size: u8) -> u64 {
    if size == DOUBLEWORD {
        reg
    } else if size == BYTE {
        (reg >> (offset * 8)) & 0xff
    } else if size == HALFWORD {
        (reg >> (offset * 8)) & 0xffff
    } else {
        (reg >> (offset * 8)) & 0xffffffff
    }
}

/// `reg` with the part that a `size`-bit access at byte `offset` covers replaced by `value`.
pub open spec fn insert(reg: u64, offset: u64, value: u64, size: u8) -> u64 {
    if size == DOUBLEWORD {
        value
    } else if size == BYTE {
        (reg & !(0xffu64 << (offset * 8))) | ((value & 0xff) << (offset * 8))
    } else if size == HALFWORD {
        (reg & !(0xffffu64 << (offset * 8))) | ((value & 0xffff) << (offset * 8))
    } else {
        (reg & !(0xffffffffu64 << (offset * 8))) | ((value & 0xffffffff) << (offset * 8))
    }
}

/// The result of a `size`-bit load at `addr`: an access outside the registers, of another size,
/// or that reaches past the end of its register raises a load access fault.
pub open spec fn clint_read_spec(v: ClintView, addr: u64, size: u8) -> Result<u64, Exception> {
    match clint_reg(v, addr) {
        None => Err(Exception::LoadAccessFault),
        Some((reg, offset, width)) => if fits(offset, size, width) {
            Ok(extract(reg, offset, size))
        } else {
            Err(Exception::LoadAccessFault)
        },
    }
}

/// The registers after a `size`-bit store of `value` at `addr`, and the result of the store: an
/// access outside the registers, of another size, or that reaches past the end of its register
/// raises a store access fault and changes nothing.
pub open spec fn clint_write_spec(v: ClintView, addr: u64, value: u64, size: u8) -> (
    ClintView,
    Result<(), Exception>,
) {
    match clint_reg(v, addr) {
        None => (v, Err(Exception::StoreAMOAccessFault)),
        Some((reg, offset, width)) => if fits(offset, size, width) {
            let new_reg = insert(reg, offset, value, size);
            (
                if MSIP <= addr <= MSIP_END {
                    ClintView { msip: new_reg as u32, ..v }
                } else if MTIME_COMPARE <= addr <= MTIME_COMPARE_END {
                    ClintView { mtime_compare: new_reg, ..v }
                } else {
                    ClintView { mtime: new_reg, ..v }
                },
                Ok(()),
            )
        } else {
            (v, Err(Exception::StoreAMOAccessFault))
        },
    }
}

/// The value of `mip` after a timer tick that brought `mtime` to `mtime`: MSIP is raised when
/// bit 0 of `msip` is set; MTIP is cleared while `mtime_compare` is above `mtime` and raised when
/// `mtime` has reached `mtime_compare`.
pub open spec fn mip_after_tick(mip: u64, msip: u32, mtime_compare: u64, mtime: u64) -> u64 {
    let a = if msip & 1 != 0 {
        mip | MSIP_BIT
    } else {
        mip
    };
    if mtime_compare > mtime {
        a & !MTIP_BIT
    } else {
        a | MTIP_BIT
    }
}

/// The core-local interruptor (CLINT).
/// 0x0000 msip for hart 0 (4 bytes)
/// 0x4000 mtime_compare for hart 0 (8 bytes)
/// 0xbff8 mtime (8 bytes)
pub struct Clint {
    /// Machine mode software interrupt pending register, used to assert a software interrupt for
    /// a CPU.
    msip: u32,
    /// Memory mapped machine mode timer compare register, used to trigger an interrupt when
    /// mtime_compare is greater than or equal to mtime. There is an mtime_compare dedicated to each CPU.
    mtime_compare: u64,
    /// Machine mode timer register which runs at a constant frequency.
    mtime: u64,
}

impl View for Clint {
    type V = ClintView;

    closed spec fn view(&self) -> ClintView {
        ClintView { msip: self.msip, mtime_compare: self.mtime_compare, mtime: self.mtime }
    }
}

impl Clint {
    /// Every register of a new CLINT is zero.
    pub open spec fn new_spec() -> ClintView {
        ClintView { msip: 0, mtime_compare: 0, mtime: 0 }
    }

    /// Create a new CLINT object.
    pub fn new() -> (c: Self)
        ensures
            c@ == Self::new_spec(),
    {
        Self { msip: 0, mtime_compare: 0, mtime: 0 }
    }

    /// Increment the mtimer register. It's not a real-time value. The MTIP bit (MIP, 7) is enabled
    /// when `mtime` is greater than or equal to `mtime_compare`.
    pub fn increment(&mut self, state: &mut State)
        ensures
            final(self)@ == (ClintView { mtime: old(self)@.mtime.wrapping_add(1), ..old(self)@ }),
            final(state)@ == old(state)@.update(
                MIP as int,
                mip_after_tick(
                    old(state)@[MIP as int],
                    old(self)@.msip,
                    old(self)@.mtime_compare,
                    old(self)@.mtime.wrapping_add(1),
                ),
            ),
    {
        self.mtime = self.mtime.wrapping_add(1);
        proof {
            state.lemma_len();
        }
        if (self.msip & 1) != 0 {
            // Enable the MSIP bit (MIP, 3).
            let v = state.read(MIP) | MSIP_BIT;
            state.write(MIP, v);
        }
        // 3.1.10 "The interrupt remains posted until mtime_compare becomes greater than mtime."
        if self.mtime_compare > self.mtime {
            // Clear the MTIP bit (MIP, 7).
            let v = state.read(MIP) & !MTIP_BIT;
            state.write(MIP, v);
        }
        // 3.1.10 "A timer interrupt becomes pending whenever mtime contains a value greater than
        // or equal to mtime_compare, treating the values as unsigned integers."
        if self.mtime >= self.mtime_compare {
            // Enable the MTIP bit (MIP, 7).
            let v = state.read(MIP) | MTIP_BIT;
            state.write(MIP, v);
        }
        proof {
            assert(final(state)@ =~= old(state)@.update(
                MIP as int,
                mip_after_tick(
                    old(state)@[MIP as int],
                    old(self)@.msip,
                    old(self)@.mtime_compare,
                    old(self)@.mtime.wrapping_add(1),
                ),
            ));
        }
    }

    /// Load `size`-bit data from a register located at `addr` in CLINT. An access that would
    /// reach past the end of a register raises a load access fault.
    pub fn read(&self, addr: u64, size: u8) -> (r: Result<u64, Exception>)
        ensures
            r == clint_read_spec(self@, addr, size),
    {
        // `reg` is the value of a target register in CLINT, `offset` is the byte of the start
        // position in the register and `width` is the register's size in bytes.
        let (reg, offset, width) = if MSIP <= addr && addr <= MSIP_END {
            (self.msip as u64, addr - MSIP, 4u64)
        } else if MTIME_COMPARE <= addr && addr <= MTIME_COMPARE_END {
            (self.mtime_compare, addr - MTIME_COMPARE, 8u64)
        } else if MTIME <= addr && addr <= MTIME_END {
            (self.mtime, addr - MTIME, 8u64)
        } else {
            return Err(Exception::LoadAccessFault);
        };
        if !(size == BYTE || size == HALFWORD || size == WORD || size == DOUBLEWORD) {
            return Err(Exception::LoadAccessFault);
        }
        if offset + (size / 8) as u64 > width {
            return Err(Exception::LoadAccessFault);
        }
        if size == DOUBLEWORD {
            Ok(reg)
        } else if size == BYTE {
            Ok((reg >> (offset * 8)) & 0xff)
        } else if size == HALFWORD {
            Ok((reg >> (offset * 8)) & 0xffff)
        } else {
            Ok((reg >> (offset * 8)) & 0xffffffff)
        }
    }

    /// Store `size`-bit data to a register located at `addr` in CLINT. An access that would
    /// reach past the end of a register raises a store access fault.
    pub fn write(&mut self, addr: u64, value: u64, size: u8) -> (r: Result<(), Exception>)
        ensures
            (final(self)@, r) == clint_write_spec(old(self)@, addr, value, size),
    {
        let (mut reg, offset, width) = if MSIP <= addr && addr <= MSIP_END {
            (self.msip as u64, addr - MSIP, 4u64)
        } else if MTIME_COMPARE <= addr && addr <= MTIME_COMPARE_END {
            (self.mtime_compare, addr - MTIME_COMPARE, 8u64)
        } else if MTIME <= addr && addr <= MTIME_END {
            (self.mtime, addr - MTIME, 8u64)
        } else {
            return Err(Exception::StoreAMOAccessFault);
        };
        if !(size == BYTE || size == HALFWORD || size == WORD || size == DOUBLEWORD) {
            return Err(Exception::StoreAMOAccessFault);
        }
        if offset + (size / 8) as u64 > width {
            return Err(Exception::StoreAMOAccessFault);
        }
        // Calculate the new value of the target register based on `size` and `offset`.
        if size == DOUBLEWORD {
            reg = value;
        } else if size == BYTE {
            // Clear the target byte, then set the new `value` to it.
            reg = reg & (!(0xffu64 << (offset * 8)));
            reg = reg | ((value & 0xff) << (offset * 8));
        } else if size == HALFWORD {
            reg = reg & (!(0xffffu64 << (offset * 8)));
            reg = reg | ((value & 0xffff) << (offset * 8));
        } else {
            reg = reg & (!(0xffffffffu64 << (offset * 8)));
            reg = reg | ((value & 0xffffffff) << (offset * 8));
        }
        // Store the new value to the target register.
        if MSIP <= addr && addr <= MSIP_END {
            self.msip = reg as u32;
        } else if MTIME_COMPARE <= addr && addr <= MTIME_COMPARE_END {
            self.mtime_compare = reg;
        } else {
            self.mtime = reg;
        }
        Ok(())
    }
}

/// The timer compare register holds what was written to it: a doubleword read of it right after
/// a doubleword write gives the value written.
pub proof fn law_mtime_compare_read_after_write(v: ClintView, value: u64)
    ensures
        clint_write_spec(v, MTIME_COMPARE, value, DOUBLEWORD).1 == Ok::<(), Exception>(()),
        clint_read_spec(clint_write_spec(v, MTIME_COMPARE, value, DOUBLEWORD).0, MTIME_COMPARE, DOUBLEWORD)
            == Ok::<u64, Exception>(value),
{
}

} // verus!
