//! The flat 64KB byte-addressable address space shared by the execution
//! engine and the bridge, with the operations the loader, the trap installer
//! and the bridge need: single-byte and range reads, single-byte writes, bulk
//! installation of a byte sequence, and writing the reset vector.

use vstd::prelude::*;

verus! {

/// Number of cells in the address space: every 16-bit address is valid.
pub const MEMORY_SIZE: usize = 0x10000;

/// Address of the low byte of the 6502 reset vector: the execution engine
/// reads its initial program counter from this location and the next one.
pub const RESET_VECTOR_LO: u16 = 0xFFFC;

/// Address of the high byte of the 6502 reset vector.
pub const RESET_VECTOR_HI: u16 = 0xFFFD;

/// A fixed-size, byte-addressable linear memory of 65536 cells with uniform
/// read/write semantics at every address and no bank switching or protection.
pub struct Generic64kMem {
    /// The backing cells; always exactly `MEMORY_SIZE` of them.
    pub data: Vec<u8>,
}

impl View for Generic64kMem {
    type V = Seq<u8>;

    open spec fn view(&self) -> Seq<u8> {
        self.data@
    }
}

/// The contents of `m` after overwriting the range starting at `addr` with
/// `payload`, every other cell unchanged.
pub open spec fn spec_install(m: Seq<u8>, addr: int, payload: Seq<u8>) -> Seq<u8> {
    Seq::new(
        m.len(),
        |i: int|
            if addr <= i < addr + payload.len() {
                payload[i - addr]
            } else {
                m[i]
            },
    )
}

/// The low byte of a 16-bit value.
pub open spec fn spec_low_byte(addr: u16) -> u8 {
    (addr % 0x100) as u8
}

/// The high byte of a 16-bit value.
pub open spec fn spec_high_byte(addr: u16) -> u8 {
    (addr / 0x100) as u8
}

/// The contents of `m` after writing `addr`'s two bytes little-endian into the
/// reset vector cells.
pub open spec fn spec_set_reset_vector(m: Seq<u8>, addr: u16) -> Seq<u8> {
    m.update(RESET_VECTOR_LO as int, spec_low_byte(addr)).update(
        RESET_VECTOR_HI as int,
        spec_high_byte(addr),
    )
}

/// The 16-bit value stored little-endian as the byte pair `(lo, hi)`.
pub open spec fn spec_word_from_le(lo: u8, hi: u8) -> u16 {
    (lo + 0x100 * hi) as u16
}

/// Reassembles a 16-bit value from its little-endian byte pair.
pub fn word_from_le_bytes(lo: u8, hi: u8) -> (w: u16)
    ensures
        w == spec_word_from_le(lo, hi),
{
    lo as u16 + 0x100 * (hi as u16)
}

impl Generic64kMem {
    /// The structural invariant: the space always holds exactly one byte per
    /// 16-bit address.
    pub open spec fn wf(&self) -> bool {
        self@.len() == MEMORY_SIZE
    }

    /// Creates the address space with every cell zero-initialized.
    pub fn new() -> (m: Self)
        ensures
            m.wf(),
            forall|i: int| 0 <= i < m@.len() ==> m@[i] == 0u8,
    {
        let mut data: Vec<u8> = Vec::new();
        let mut i: usize = 0;
        while i < MEMORY_SIZE
            invariant
                i <= MEMORY_SIZE,
                data@.len() == i,
                forall|j: int| 0 <= j < i ==> data@[j] == 0u8,
            decreases MEMORY_SIZE - i,
        {
            data.push(0u8);
            i = i + 1;
        }
        Generic64kMem { data }
    }

    /// Reads the byte at a single address; total over the full space.
    pub fn read(&self, addr: u16) -> (b: u8)
        requires
            self.wf(),
        ensures
            b == self@[addr as int],
    {
        self.data[addr as usize]
    }

    /// Writes one byte at a single address; total over the full space.
    pub fn write(&mut self, addr: u16, value: u8)
        requires
            old(self).wf(),
        ensures
            final(self).wf(),
            final(self)@ == old(self)@.update(addr as int, value),
    {
        self.data[addr as usize] = value;
    }

    /// Reads the contiguous byte range `[start, end)`, as the execution
    /// engine does for instruction fetch and the loader for verification.
    pub fn read_range(&self, start: u16, end: u16) -> (r: Vec<u8>)
        requires
            self.wf(),
            start <= end,
        ensures
            r@ == self@.subrange(start as int, end as int),
    {
        let mut r: Vec<u8> = Vec::new();
        let mut i: usize = start as usize;
        while i < end as usize
            invariant
                self.wf(),
                start as usize <= i <= end as usize,
                end < MEMORY_SIZE,
                r@ =~= self@.subrange(start as int, i as int),
            decreases end as usize - i,
        {
            r.push(self.data[i]);
            i = i + 1;
        }
        proof {
            assert(r@ =~= self@.subrange(start as int, end as int));
        }
        r
    }

    /// Overwrites the range starting at `addr` with `payload`, unconditionally;
    /// used both for the ROM image and for trap stub installation.
    pub fn insert(&mut self, addr: u16, payload: &[u8])
        requires
            old(self).wf(),
            addr as int + payload@.len() <= MEMORY_SIZE,
        ensures
            final(self).wf(),
            final(self)@ == spec_install(old(self)@, addr as int, payload@),
    {
        let mut i: usize = 0;
        let n: usize = payload.len();
        while i < n
            invariant
                self.wf(),
                i <= n,
                n == payload@.len(),
                addr as int + n <= MEMORY_SIZE,
                forall|j: int|
                    0 <= j < self@.len() && !(addr as int <= j < addr as int + i) ==> self@[j]
                        == old(self)@[j],
                forall|j: int| 0 <= j < i ==> self@[addr as int + j] == payload@[j],
            decreases n - i,
        {
            self.data[addr as usize + i] = payload[i];
            i = i + 1;
        }
        proof {
            assert(self@ =~= spec_install(old(self)@, addr as int, payload@));
        }
    }

    /// Writes the given 16-bit target, little-endian, into the two fixed reset
    /// vector cells the execution engine reads at start-up to determine its
    /// initial program counter.
    pub fn set_reset_vector(&mut self, addr: u16)
        requires
            old(self).wf(),
        ensures
            final(self).wf(),
            final(self)@ == spec_set_reset_vector(old(self)@, addr),
    {
        let lo: u8 = (addr % 0x100) as u8;
        let hi: u8 = (addr / 0x100) as u8;
        self.data[RESET_VECTOR_LO as usize] = lo;
        self.data[RESET_VECTOR_HI as usize] = hi;
    }
}

/// Law: writing a target into the reset vector and reassembling the two
/// reset-vector bytes little-endian reproduces the target exactly, for every
/// 16-bit value.
pub proof fn lemma_reset_vector_round_trip(m: Seq<u8>, addr: u16)
    requires
        m.len() == MEMORY_SIZE,
    ensures
        spec_word_from_le(
            spec_set_reset_vector(m, addr)[RESET_VECTOR_LO as int],
            spec_set_reset_vector(m, addr)[RESET_VECTOR_HI as int],
        ) == addr,
{
    assert((addr % 0x100) + 0x100 * (addr / 0x100) == addr) by (nonlinear_arith);
}

/// Law: overwriting a range twice with identical bytes leaves the space
/// byte-for-byte identical to overwriting it once.
pub proof fn lemma_install_idempotent(m: Seq<u8>, addr: int, payload: Seq<u8>)
    requires
        0 <= addr,
        addr + payload.len() <= m.len(),
    ensures
        spec_install(spec_install(m, addr, payload), addr, payload) == spec_install(
            m,
            addr,
            payload,
        ),
{
    assert(spec_install(spec_install(m, addr, payload), addr, payload) =~= spec_install(
        m,
        addr,
        payload,
    ));
}

} // verus!
