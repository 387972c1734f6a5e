//! The plic module contains the platform-level interrupt controller (PLIC). The plic connects all
//! external interrupts in the system to all hart contexts in the system, via the external interrupt
//! source in each hart. It's the global interrupt controller in a RISC-V system.

use vstd::prelude::*;

use crate::exception::Exception;
use crate::le::WORD;

verus! {

/// The address which the platform-level interrupt controller (PLIC) starts.
pub const PLIC_BASE: u64 = 0xc00_0000;

/// The address that interrupt source priority starts.
pub const PLIC_SOURCE_PRIORITY: u64 = PLIC_BASE;
/// The address that interrupt source priority ends. 1024 4-byte registers exist.
pub const PLIC_SOURCE_PRIORITY_END: u64 = PLIC_SOURCE_PRIORITY + 0xfff;

/// The address that interrupt pending bits start.
pub const PLIC_PENDING: u64 = PLIC_BASE + 0x1000;
/// The address that interrupt pending bits end. 32 4-byte (1024 bits) registers exist.
pub const PLIC_PENDING_END: u64 = PLIC_PENDING + 0x7f;

/// The address that the regsiters to enable interrupts start.
pub const PLIC_ENABLE: u64 = PLIC_BASE + 0x2000;
/// The address that the regsiters to enable interrupts end. This PLIC supports 2 contexts of
/// 1024 enable bits each.
pub const PLIC_ENABLE_END: u64 = PLIC_ENABLE + 0xff;

/// The address that priority thresholds and claim/complete registers start.
pub const PLIC_THRESHOLD_AND_CLAIM: u64 = PLIC_BASE + 0x200000;
/// The address that priority thresholds and claim/complete registers end, for 2 contexts.
pub const PLIC_THRESHOLD_AND_CLAIM_END: u64 = PLIC_THRESHOLD_AND_CLAIM + 0x1007;

/// The address of the claim/complete registers for S-mode (context 1).
pub const PLIC_SCLAIM: u64 = PLIC_BASE + 0x201004;

/// The registers of a PLIC.
pub struct PlicView {
    pub priority: Seq<u32>,
    pub pending: Seq<u32>,
    pub enable: Seq<u32>,
    pub threshold: Seq<u32>,
    pub claim: Seq<u32>,
}

/// The context a threshold/claim address belongs to.
pub open spec fn context_of(addr: u64) -> int {
    (addr - PLIC_THRESHOLD_AND_CLAIM) / 0x1000
}

/// The register a threshold/claim address selects within its context: 0 is the priority
/// threshold, 1 the claim/complete register, 2 a reserved word. An address that is not a multiple
/// of 4 past the start of its context selects the claim/complete register.
///
/// base + 0x200000: Priority threshold for context 0
/// base + 0x200004: Claim/complete for context 0
/// base + 0x200008: Reserved
/// ...
/// base + 0x201000: Priority threshold for context 1
/// base + 0x201004: Claim/complete for context 1
pub open spec fn context_reg(addr: u64) -> int {
    let offset = (addr - PLIC_THRESHOLD_AND_CLAIM) % 0x1000;
    if offset == 0 {
        0
    } else if offset == 4 || offset % 4 != 0 {
        1
    } else {
        2
    }
}

/// The result of a `size`-bit load at `addr`.
pub open spec fn plic_read_spec(v: PlicView, addr: u64, size: u8) -> Result<u64, Exception> {
    if size != WORD {
        Err(Exception::LoadAccessFault)
    } else if PLIC_SOURCE_PRIORITY <= addr <= PLIC_SOURCE_PRIORITY_END {
        Ok(v.priority[(addr - PLIC_SOURCE_PRIORITY) / 4] as u64)
    } else if PLIC_PENDING <= addr <= PLIC_PENDING_END {
        Ok(v.pending[(addr - PLIC_PENDING) / 4] as u64)
    } else if PLIC_ENABLE <= addr <= PLIC_ENABLE_END {
        Ok(v.enable[(addr - PLIC_ENABLE) / 4] as u64)
    } else if PLIC_THRESHOLD_AND_CLAIM <= addr <= PLIC_THRESHOLD_AND_CLAIM_END {
        if context_reg(addr) == 0 {
            Ok(v.threshold[context_of(addr)] as u64)
        } else if context_reg(addr) == 1 {
            Ok(v.claim[context_of(addr)] as u64)
        } else {
            Err(Exception::LoadAccessFault)
        }
    } else {
        Err(Exception::LoadAccessFault)
    }
}

/// The registers after a `size`-bit store of `value` at `addr`, and the result of the store.
pub open spec fn plic_write_spec(v: PlicView, addr: u64, value: u64, size: u8) -> (
    PlicView,
    Result<(), Exception>,
) {
    if size != WORD {
        (v, Err(Exception::StoreAMOAccessFault))
    } else if PLIC_SOURCE_PRIORITY <= addr <= PLIC_SOURCE_PRIORITY_END {
        (
            PlicView {
                priority: v.priority.update((addr - PLIC_SOURCE_PRIORITY) / 4, value as u32),
                ..v
            },
            Ok(()),
        )
    } else if PLIC_PENDING <= addr <= PLIC_PENDING_END {
        (PlicView { pending: v.pending.update((addr - PLIC_PENDING) / 4, value as u32), ..v }, Ok(()))
    } else if PLIC_ENABLE <= addr <= PLIC_ENABLE_END {
        (PlicView { enable: v.enable.update((addr - PLIC_ENABLE) / 4, value as u32), ..v }, Ok(()))
    } else if PLIC_THRESHOLD_AND_CLAIM <= addr <= PLIC_THRESHOLD_AND_CLAIM_END {
        if context_reg(addr) == 0 {
            (PlicView { threshold: v.threshold.update(context_of(addr), value as u32), ..v }, Ok(()))
        } else if context_reg(addr) == 1 {
            (PlicView { claim: v.claim.update(context_of(addr), value as u32), ..v }, Ok(()))
        } else {
            (v, Err(Exception::StoreAMOAccessFault))
        }
    } else {
        (v, Err(Exception::StoreAMOAccessFault))
    }
}

/// The platform-level-interrupt controller (PLIC).
pub struct Plic {
    /// The interrupt priority for each interrupt source. A priority value of 0 is reserved to mean
    /// "never interrupt" and effectively disables the interrupt. Priority 1 is the lowest active
    /// priority, and priority 7 is the highest.
    priority: [u32; 1024],
    /// Interrupt pending bits. If bit 1 is set, a global interrupt 1 is pending.
    pending: [u32; 32],
    /// Interrupt Enable Bit of Interrupt Source #0 to #1023 for 2 contexts.
    enable: [u32; 64],
    /// The settings of a interrupt priority threshold of each context. The PLIC will mask all PLIC
    /// interrupts of a priority less than or equal to `threshold`.
    threshold: [u32; 2],
    /// The ID of the highest priority pending interrupt or zero if there is no pending interrupt
    /// for each context.
    claim: [u32; 2],
}

impl View for Plic {
    type V = PlicView;

    closed spec fn view(&self) -> PlicView {
        PlicView {
            priority: self.priority@,
            pending: self.pending@,
            enable: self.enable@,
            threshold: self.threshold@,
            claim: self.claim@,
        }
    }
}

impl Plic {
    /// Every register of a new PLIC is zero.
    pub open spec fn initial() -> PlicView {
        PlicView {
            priority: Seq::new(1024, |i: int| 0u32),
            pending: Seq::new(32, |i: int| 0u32),
            enable: Seq::new(64, |i: int| 0u32),
            threshold: Seq::new(2, |i: int| 0u32),
            claim: Seq::new(2, |i: int| 0u32),
        }
    }

    /// The register arrays keep their sizes.
    pub open spec fn wf_view(v: PlicView) -> bool {
        &&& v.priority.len() == 1024
        &&& v.pending.len() == 32
        &&& v.enable.len() == 64
        &&& v.threshold.len() == 2
        &&& v.claim.len() == 2
    }

    /// The register arrays of a PLIC have their fixed sizes.
    pub proof fn lemma_wf(&self)
        ensures
            Self::wf_view(self@),
    {
    }

    /// Create a new PLIC object.
    pub fn new() -> (p: Self)
        ensures
            p@ == Self::initial(),
    {
        let p = Self {
            priority: [0u32; 1024],
            pending: [0u32; 32],
            enable: [0u32; 64],
            threshold: [0u32; 2],
            claim: [0u32; 2],
        };
        assert(p@.priority =~= Self::initial().priority);
        assert(p@.pending =~= Self::initial().pending);
        assert(p@.enable =~= Self::initial().enable);
        assert(p@.threshold =~= Self::initial().threshold);
        assert(p@.claim =~= Self::initial().claim);
        p
    }

    /// Load `size`-bit data from a register located at `addr` in PLIC. Only 32-bit accesses are
    /// served.
    pub fn read(&self, addr: u64, size: u8) -> (r: Result<u64, Exception>)
        ensures
            r == plic_read_spec(self@, addr, size),
    {
        if size != WORD {
            return Err(Exception::LoadAccessFault);
        }
        if PLIC_SOURCE_PRIORITY <= addr && addr <= PLIC_SOURCE_PRIORITY_END {
            let index = (addr - PLIC_SOURCE_PRIORITY) / 4;
            Ok(self.priority[index as usize] as u64)
        } else if PLIC_PENDING <= addr && addr <= PLIC_PENDING_END {
            let index = (addr - PLIC_PENDING) / 4;
            Ok(self.pending[index as usize] as u64)
        } else if PLIC_ENABLE <= addr && addr <= PLIC_ENABLE_END {
            let index = (addr - PLIC_ENABLE) / 4;
            Ok(self.enable[index as usize] as u64)
        } else if PLIC_THRESHOLD_AND_CLAIM <= addr && addr <= PLIC_THRESHOLD_AND_CLAIM_END {
            let context = (addr - PLIC_THRESHOLD_AND_CLAIM) / 0x1000;
            let offset = (addr - PLIC_THRESHOLD_AND_CLAIM) % 0x1000;
            if offset == 0 {
                Ok(self.threshold[context as usize] as u64)
            } else if offset == 4 || offset % 4 != 0 {
                Ok(self.claim[context as usize] as u64)
            } else {
                // Reserved.
                Err(Exception::LoadAccessFault)
            }
        } else {
            Err(Exception::LoadAccessFault)
        }
    }

    /// Store `size`-bit data to a register located at `addr` in PLIC. Only 32-bit accesses are
    /// served.
    pub fn write(&mut self, addr: u64, value: u64, size: u8) -> (r: Result<(), Exception>)
        ensures
            (final(self)@, r) == plic_write_spec(old(self)@, addr, value, size),
    {
        if size != WORD {
            return Err(Exception::StoreAMOAccessFault);
        }
        if PLIC_SOURCE_PRIORITY <= addr && addr <= PLIC_SOURCE_PRIORITY_END {
            let index = (addr - PLIC_SOURCE_PRIORITY) / 4;
            self.priority[index as usize] = value as u32;
        } else if PLIC_PENDING <= addr && addr <= PLIC_PENDING_END {
            let index = (addr - PLIC_PENDING) / 4;
            self.pending[index as usize] = value as u32;
        } else if PLIC_ENABLE <= addr && addr <= PLIC_ENABLE_END {
            let index = (addr - PLIC_ENABLE) / 4;
            self.enable[index as usize] = value as u32;
        } else if PLIC_THRESHOLD_AND_CLAIM <= addr && addr <= PLIC_THRESHOLD_AND_CLAIM_END {
            let context = (addr - PLIC_THRESHOLD_AND_CLAIM) / 0x1000;
            let offset = (addr - PLIC_THRESHOLD_AND_CLAIM) % 0x1000;
            if offset == 0 {
                self.threshold[context as usize] = value as u32;
            } else if offset == 4 || offset % 4 != 0 {
                self.claim[context as usize] = value as u32;
            } else {
                // Reserved.
                return Err(Exception::StoreAMOAccessFault);
            }
        } else {
            return Err(Exception::StoreAMOAccessFault);
        }
        proof {
            let (v, _) = plic_write_spec(old(self)@, addr, value, size);
            assert(self@.priority =~= v.priority);
            assert(self@.pending =~= v.pending);
            assert(self@.enable =~= v.enable);
            assert(self@.threshold =~= v.threshold);
            assert(self@.claim =~= v.claim);
        }
        Ok(())
    }
}

/// The threshold and the claim/complete register of a context are distinct registers: a word
/// written to either reads back as written, and leaves the other as it was.
pub proof fn law_threshold_and_claim(v: PlicView, context: u64, value: u64)
    requires
        Plic::wf_view(v),
        context < 2,
    ensures
        ({
            let t = PLIC_THRESHOLD_AND_CLAIM + 0x1000 * context;
            let c = t + 4;
            let (v1, r1) = plic_write_spec(v, t as u64, value, WORD);
            let (v2, r2) = plic_write_spec(v, c as u64, value, WORD);
            &&& r1 == Ok::<(), Exception>(()) && r2 == Ok::<(), Exception>(())
            &&& plic_read_spec(v1, t as u64, WORD) == Ok::<u64, Exception>(value as u32 as u64)
            &&& plic_read_spec(v1, c as u64, WORD) == plic_read_spec(v, c as u64, WORD)
            &&& plic_read_spec(v2, c as u64, WORD) == Ok::<u64, Exception>(value as u32 as u64)
            &&& plic_read_spec(v2, t as u64, WORD) == plic_read_spec(v, t as u64, WORD)
        }),
{
}

} // verus!
