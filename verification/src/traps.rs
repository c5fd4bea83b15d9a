//! Trap stub synthesis and installation: rewrites the two monitor vector
//! locations inside the loaded ROM so control transfers into two short,
//! host-authored handler routines, and installs those handler bodies. The
//! output handler stores the accumulator into the output handshake cell and
//! returns; the input handler marks the input handshake cell "waiting", loads
//! the accumulator back from that cell and returns.

use vstd::prelude::*;
use crate::memory::{Generic64kMem, MEMORY_SIZE, spec_install};
use crate::profile::AddressProfile;

verus! {

/// Opcode of the unconditional jump with an absolute 16-bit target.
pub const OP_JMP_ABSOLUTE: u8 = 0x4C;

/// Opcode storing the accumulator at an absolute 16-bit address.
pub const OP_STA_ABSOLUTE: u8 = 0x8D;

/// Opcode loading the accumulator with an immediate operand.
pub const OP_LDA_IMMEDIATE: u8 = 0xA9;

/// Opcode loading the accumulator from an absolute 16-bit address.
pub const OP_LDA_ABSOLUTE: u8 = 0xAD;

/// Opcode returning from a subroutine.
pub const OP_RTS: u8 = 0x60;

/// The handshake-cell value meaning "the guest is waiting for input".
pub const INPUT_WAITING: u8 = 1;

/// The redirect sequence installed at the output monitor vector: an
/// unconditional jump to the output handler entry.
pub open spec fn moncout_jump_bytes(p: AddressProfile) -> Seq<u8> {
    seq![OP_JMP_ABSOLUTE, p.moncout_handler_lo, p.mon_handlers_hi]
}

/// The output handler body: store the accumulator into the output handshake
/// cell, then return to the caller.
pub open spec fn moncout_handler_bytes(p: AddressProfile) -> Seq<u8> {
    seq![OP_STA_ABSOLUTE, p.moncout_store_lo, p.mon_handlers_hi, OP_RTS]
}

/// The redirect sequence installed at the input monitor vector: an
/// unconditional jump to the input handler entry.
pub open spec fn monrdkey_jump_bytes(p: AddressProfile) -> Seq<u8> {
    seq![OP_JMP_ABSOLUTE, p.monrdkey_handler_lo, p.mon_handlers_hi]
}

/// The input handler body: mark the input handshake cell "waiting", load the
/// accumulator from that cell, then return to the caller.
pub open spec fn monrdkey_handler_bytes(p: AddressProfile) -> Seq<u8> {
    seq![
        OP_LDA_IMMEDIATE,
        INPUT_WAITING,
        OP_STA_ABSOLUTE,
        p.monrdkey_store_lo,
        p.mon_handlers_hi,
        OP_LDA_ABSOLUTE,
        p.monrdkey_store_lo,
        p.mon_handlers_hi,
        OP_RTS,
    ]
}

/// The contents of `m` after installing both redirect sequences and both
/// handler bodies for profile `p`, in installation order.
pub open spec fn spec_install_traps(m: Seq<u8>, p: AddressProfile) -> Seq<u8> {
    spec_install(
        spec_install(
            spec_install(
                spec_install(m, p.moncout_vector as int, moncout_jump_bytes(p)),
                p.spec_moncout_handler_addr(),
                moncout_handler_bytes(p),
            ),
            p.monrdkey_vector as int,
            monrdkey_jump_bytes(p),
        ),
        p.spec_monrdkey_handler_addr(),
        monrdkey_handler_bytes(p),
    )
}

/// `i` is one of the addresses that installing profile `p`'s trap stubs
/// overwrites.
pub open spec fn trap_touched(p: AddressProfile, i: int) -> bool {
    ||| p.moncout_vector <= i < p.moncout_vector + 3
    ||| p.spec_moncout_handler_addr() <= i < p.spec_moncout_handler_addr() + 4
    ||| p.monrdkey_vector <= i < p.monrdkey_vector + 3
    ||| p.spec_monrdkey_handler_addr() <= i < p.spec_monrdkey_handler_addr() + 9
}

/// Builds the redirect sequence for the output monitor vector.
pub fn moncout_jump_stub(p: &AddressProfile) -> (r: Vec<u8>)
    ensures
        r@ == moncout_jump_bytes(*p),
{
    let mut r: Vec<u8> = Vec::new();
    r.push(OP_JMP_ABSOLUTE);
    r.push(p.moncout_handler_lo);
    r.push(p.mon_handlers_hi);
    proof {
        assert(r@ =~= moncout_jump_bytes(*p));
    }
    r
}

/// Builds the output handler body.
pub fn moncout_handler_stub(p: &AddressProfile) -> (r: Vec<u8>)
    ensures
        r@ == moncout_handler_bytes(*p),
{
    let mut r: Vec<u8> = Vec::new();
    r.push(OP_STA_ABSOLUTE);
    r.push(p.moncout_store_lo);
    r.push(p.mon_handlers_hi);
    r.push(OP_RTS);
    proof {
        assert(r@ =~= moncout_handler_bytes(*p));
    }
    r
}

/// Builds the redirect sequence for the input monitor vector.
pub fn monrdkey_jump_stub(p: &AddressProfile) -> (r: Vec<u8>)
    ensures
        r@ == monrdkey_jump_bytes(*p),
{
    let mut r: Vec<u8> = Vec::new();
    r.push(OP_JMP_ABSOLUTE);
    r.push(p.monrdkey_handler_lo);
    r.push(p.mon_handlers_hi);
    proof {
        assert(r@ =~= monrdkey_jump_bytes(*p));
    }
    r
}

/// Builds the input handler body.
pub fn monrdkey_handler_stub(p: &AddressProfile) -> (r: Vec<u8>)
    ensures
        r@ == monrdkey_handler_bytes(*p),
{
    let mut r: Vec<u8> = Vec::new();
    r.push(OP_LDA_IMMEDIATE);
    r.push(INPUT_WAITING);
    r.push(OP_STA_ABSOLUTE);
    r.push(p.monrdkey_store_lo);
    r.push(p.mon_handlers_hi);
    r.push(OP_LDA_ABSOLUTE);
    r.push(p.monrdkey_store_lo);
    r.push(p.mon_handlers_hi);
    r.push(OP_RTS);
    proof {
        assert(r@ =~= monrdkey_handler_bytes(*p));
    }
    r
}

/// Installs both redirect sequences and both handler bodies for profile `p`.
/// Installation is unconditional: no collision check is performed, and the
/// result is exactly the four overwrites applied in order.
pub fn install_traps(mem: &mut Generic64kMem, p: &AddressProfile)
    requires
        old(mem).wf(),
        p.ranges_fit(),
    ensures
        final(mem).wf(),
        final(mem)@ == spec_install_traps(old(mem)@, *p),
{
    let moncout_jump = moncout_jump_stub(p);
    mem.insert(p.moncout_vector, moncout_jump.as_slice());
    let moncout_handler = moncout_handler_stub(p);
    mem.insert(p.moncout_handler_addr(), moncout_handler.as_slice());
    let monrdkey_jump = monrdkey_jump_stub(p);
    mem.insert(p.monrdkey_vector, monrdkey_jump.as_slice());
    let monrdkey_handler = monrdkey_handler_stub(p);
    mem.insert(p.monrdkey_handler_addr(), monrdkey_handler.as_slice());
}

/// Law (framing): installing profile `p`'s trap stubs changes no byte outside
/// the four installed regions.
pub proof fn lemma_install_traps_frame(m: Seq<u8>, p: AddressProfile)
    requires
        m.len() == MEMORY_SIZE,
        p.ranges_fit(),
    ensures
        spec_install_traps(m, p).len() == m.len(),
        forall|i: int|
            0 <= i < m.len() && !trap_touched(p, i) ==> spec_install_traps(m, p)[i] == m[i],
{
}

/// `i` belongs to profile `p`: inside its ROM image of `rom_len` bytes, one of
/// its trap-installed regions, or one of its handshake cells.
pub open spec fn profile_region(p: AddressProfile, rom_len: nat, i: int) -> bool {
    ||| p.basic_rom_start <= i < p.basic_rom_start + rom_len
    ||| trap_touched(p, i)
    ||| i == p.spec_moncout_store_addr()
    ||| i == p.spec_monrdkey_store_addr()
}

/// Law (non-interference): installing the trap stubs for one profile alters no
/// byte belonging to a second profile whose ROM image, vectors, handlers and
/// handshake cells are disjoint from the first profile's installed regions.
pub proof fn lemma_install_non_interference(
    m: Seq<u8>,
    installed: AddressProfile,
    other: AddressProfile,
    other_rom_len: nat,
)
    requires
        m.len() == MEMORY_SIZE,
        installed.ranges_fit(),
        forall|i: int|
            0 <= i < m.len() && profile_region(other, other_rom_len, i) ==> !trap_touched(
                installed,
                i,
            ),
    ensures
        forall|i: int|
            0 <= i < m.len() && profile_region(other, other_rom_len, i) ==> spec_install_traps(
                m,
                installed,
            )[i] == m[i],
{
    lemma_install_traps_frame(m, installed);
}

/// Law (installed bytes): after installing a well-formed profile's trap
/// stubs, each of the four installed regions holds exactly its stub bytes.
pub proof fn lemma_install_traps_bytes(m: Seq<u8>, p: AddressProfile)
    requires
        m.len() == MEMORY_SIZE,
        p.wf(),
    ensures
        forall|i: int|
            0 <= i < 3 ==> spec_install_traps(m, p)[p.moncout_vector + i] == moncout_jump_bytes(
                p,
            )[i],
        forall|i: int|
            0 <= i < 4 ==> spec_install_traps(m, p)[p.spec_moncout_handler_addr() + i]
                == moncout_handler_bytes(p)[i],
        forall|i: int|
            0 <= i < 3 ==> spec_install_traps(m, p)[p.monrdkey_vector + i] == monrdkey_jump_bytes(
                p,
            )[i],
        forall|i: int|
            0 <= i < 9 ==> spec_install_traps(m, p)[p.spec_monrdkey_handler_addr() + i]
                == monrdkey_handler_bytes(p)[i],
{
}

} // verus!
