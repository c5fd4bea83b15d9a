//! Per-variant address profiles: immutable bundles of the addresses and
//! offsets a ROM variant needs — where the ROM image loads, its cold-start
//! entry, the two monitor vector locations, and the page and offsets hosting
//! the injected handler code and handshake cells.

use vstd::prelude::*;
use crate::memory::MEMORY_SIZE;

verus! {

/// The supported ROM variants: a Microsoft BASIC build and an Ohio Scientific
/// build.
#[derive(Clone, Copy, PartialEq, Eq, Structural, Debug)]
pub enum Variant {
    /// The "KB9"-style Microsoft BASIC build.
    KB9,
    /// The "OSI"-style Ohio Scientific build.
    OSI,
}

/// An immutable, variant-specific bundle of addresses: ROM load base, reset
/// target, the two monitor vector addresses the ROM jumps through for
/// character output and input, and the page plus offsets hosting the injected
/// handlers and handshake cells.
#[derive(Clone, Copy, PartialEq, Eq, Structural, Debug)]
pub struct AddressProfile {
    /// Base address at which the ROM image is loaded.
    pub basic_rom_start: u16,
    /// Cold-start entry point written into the reset vector.
    pub cold_start: u16,
    /// Address of the monitor vector the ROM jumps through to print a character.
    pub moncout_vector: u16,
    /// Address of the monitor vector the ROM jumps through to read a character.
    pub monrdkey_vector: u16,
    /// High byte of the page hosting both handlers and both handshake cells.
    pub mon_handlers_hi: u8,
    /// Low byte of the character-output handler entry.
    pub moncout_handler_lo: u8,
    /// Low byte of the output handshake cell.
    pub moncout_store_lo: u8,
    /// Low byte of the character-input handler entry.
    pub monrdkey_handler_lo: u8,
    /// Low byte of the input handshake cell.
    pub monrdkey_store_lo: u8,
}

impl AddressProfile {
    /// Address of the character-output handler entry.
    pub open spec fn spec_moncout_handler_addr(&self) -> int {
        self.moncout_handler_lo + 0x100 * self.mon_handlers_hi
    }

    /// Address of the output handshake cell.
    pub open spec fn spec_moncout_store_addr(&self) -> int {
        self.moncout_store_lo + 0x100 * self.mon_handlers_hi
    }

    /// Address of the character-input handler entry.
    pub open spec fn spec_monrdkey_handler_addr(&self) -> int {
        self.monrdkey_handler_lo + 0x100 * self.mon_handlers_hi
    }

    /// Address of the input handshake cell.
    pub open spec fn spec_monrdkey_store_addr(&self) -> int {
        self.monrdkey_store_lo + 0x100 * self.mon_handlers_hi
    }

    /// The trap-installed regions fit inside the address space: each monitor
    /// vector receives a 3-byte jump, the output handler body is 4 bytes and
    /// the input handler body is 9 bytes.
    pub open spec fn ranges_fit(&self) -> bool {
        &&& self.moncout_vector + 3 <= MEMORY_SIZE
        &&& self.monrdkey_vector + 3 <= MEMORY_SIZE
        &&& self.spec_moncout_handler_addr() + 4 <= MEMORY_SIZE
        &&& self.spec_monrdkey_handler_addr() + 9 <= MEMORY_SIZE
    }

    /// The profile invariant: the installed regions fit, the two vector
    /// stubs, the two handler bodies and the two handshake cells are pairwise
    /// disjoint, and neither handshake cell lies inside injected code.
    pub open spec fn wf(&self) -> bool {
        &&& self.ranges_fit()
        &&& disjoint(self.moncout_vector as int, 3, self.monrdkey_vector as int, 3)
        &&& disjoint(self.moncout_vector as int, 3, self.spec_moncout_handler_addr(), 4)
        &&& disjoint(self.moncout_vector as int, 3, self.spec_monrdkey_handler_addr(), 9)
        &&& disjoint(self.monrdkey_vector as int, 3, self.spec_moncout_handler_addr(), 4)
        &&& disjoint(self.monrdkey_vector as int, 3, self.spec_monrdkey_handler_addr(), 9)
        &&& disjoint(self.spec_moncout_handler_addr(), 4, self.spec_monrdkey_handler_addr(), 9)
        &&& !in_range(self.spec_moncout_store_addr(), self.moncout_vector as int, 3)
        &&& !in_range(self.spec_moncout_store_addr(), self.monrdkey_vector as int, 3)
        &&& !in_range(self.spec_moncout_store_addr(), self.spec_moncout_handler_addr(), 4)
        &&& !in_range(self.spec_moncout_store_addr(), self.spec_monrdkey_handler_addr(), 9)
        &&& !in_range(self.spec_monrdkey_store_addr(), self.moncout_vector as int, 3)
        &&& !in_range(self.spec_monrdkey_store_addr(), self.monrdkey_vector as int, 3)
        &&& !in_range(self.spec_monrdkey_store_addr(), self.spec_moncout_handler_addr(), 4)
        &&& !in_range(self.spec_monrdkey_store_addr(), self.spec_monrdkey_handler_addr(), 9)
        &&& self.spec_moncout_store_addr() != self.spec_monrdkey_store_addr()
    }

    /// Address of the character-output handler entry.
    pub fn moncout_handler_addr(&self) -> (a: u16)
        ensures
            a as int == self.spec_moncout_handler_addr(),
    {
        self.moncout_handler_lo as u16 + 0x100 * (self.mon_handlers_hi as u16)
    }

    /// Address of the output handshake cell.
    pub fn moncout_store_addr(&self) -> (a: u16)
        ensures
            a as int == self.spec_moncout_store_addr(),
    {
        self.moncout_store_lo as u16 + 0x100 * (self.mon_handlers_hi as u16)
    }

    /// Address of the character-input handler entry.
    pub fn monrdkey_handler_addr(&self) -> (a: u16)
        ensures
            a as int == self.spec_monrdkey_handler_addr(),
    {
        self.monrdkey_handler_lo as u16 + 0x100 * (self.mon_handlers_hi as u16)
    }

    /// Address of the input handshake cell.
    pub fn monrdkey_store_addr(&self) -> (a: u16)
        ensures
            a as int == self.spec_monrdkey_store_addr(),
    {
        self.monrdkey_store_lo as u16 + 0x100 * (self.mon_handlers_hi as u16)
    }
}

/// `a` lies inside the `len`-byte region starting at `start`.
pub open spec fn in_range(a: int, start: int, len: int) -> bool {
    start <= a < start + len
}

/// The two regions share no address.
pub open spec fn disjoint(start_a: int, len_a: int, start_b: int, len_b: int) -> bool {
    start_a + len_a <= start_b || start_b + len_b <= start_a
}

/// The profile of the KB9-style Microsoft BASIC build.
pub open spec fn spec_kb9_addresses() -> AddressProfile {
    AddressProfile {
        basic_rom_start: 0x2000,
        cold_start: 0x4065,
        moncout_vector: 0x1EA0,
        monrdkey_vector: 0x1E5A,
        mon_handlers_hi: 0xFF,
        moncout_handler_lo: 0x02,
        moncout_store_lo: 0x00,
        monrdkey_handler_lo: 0x07,
        monrdkey_store_lo: 0x01,
    }
}

/// The profile of the OSI-style Ohio Scientific build.
pub open spec fn spec_osi_addresses() -> AddressProfile {
    AddressProfile {
        basic_rom_start: 0xA000,
        cold_start: 0xBD11,
        moncout_vector: 0xFFEE,
        monrdkey_vector: 0xFFEB,
        mon_handlers_hi: 0x02,
        moncout_handler_lo: 0x24,
        moncout_store_lo: 0x22,
        monrdkey_handler_lo: 0x29,
        monrdkey_store_lo: 0x23,
    }
}

/// Builds the KB9 profile; it satisfies the profile invariant.
pub fn kb9_addresses() -> (p: AddressProfile)
    ensures
        p == spec_kb9_addresses(),
        p.wf(),
{
    AddressProfile {
        basic_rom_start: 0x2000,
        cold_start: 0x4065,
        moncout_vector: 0x1EA0,
        monrdkey_vector: 0x1E5A,
        mon_handlers_hi: 0xFF,
        moncout_handler_lo: 0x02,
        moncout_store_lo: 0x00,
        monrdkey_handler_lo: 0x07,
        monrdkey_store_lo: 0x01,
    }
}

/// Builds the OSI profile; it satisfies the profile invariant.
pub fn osi_addresses() -> (p: AddressProfile)
    ensures
        p == spec_osi_addresses(),
        p.wf(),
{
    AddressProfile {
        basic_rom_start: 0xA000,
        cold_start: 0xBD11,
        moncout_vector: 0xFFEE,
        monrdkey_vector: 0xFFEB,
        mon_handlers_hi: 0x02,
        moncout_handler_lo: 0x24,
        moncout_store_lo: 0x22,
        monrdkey_handler_lo: 0x29,
        monrdkey_store_lo: 0x23,
    }
}

/// Selects the address profile for the requested ROM variant.
pub fn profile_for(variant: Variant) -> (p: AddressProfile)
    ensures
        variant == Variant::KB9 ==> p == spec_kb9_addresses(),
        variant == Variant::OSI ==> p == spec_osi_addresses(),
        p.wf(),
{
    match variant {
        Variant::KB9 => kb9_addresses(),
        Variant::OSI => osi_addresses(),
    }
}

} // verus!
