//! Handshake logic of the interactive bridge loop: at each instruction
//! boundary the host inspects the two handshake cells, consumes a pending
//! output character (clearing the cell), and answers a "waiting for input"
//! signal by storing a host byte — with line-feed translated to
//! carriage-return — into the input cell. The blocking console reads and
//! writes themselves happen outside this crate; this module decides and
//! performs every memory-side step.

use vstd::prelude::*;
use crate::memory::Generic64kMem;
use crate::profile::AddressProfile;
use crate::traps::INPUT_WAITING;

verus! {

/// The output handshake cell holds a nonzero byte: a character is pending.
pub open spec fn spec_ready_to_output(p: AddressProfile, m: Seq<u8>) -> bool {
    m[p.spec_moncout_store_addr()] != 0
}

/// The input handshake cell holds the "waiting" signal: the guest blocks
/// until a byte is stored.
pub open spec fn spec_ready_to_read_key(p: AddressProfile, m: Seq<u8>) -> bool {
    m[p.spec_monrdkey_store_addr()] == INPUT_WAITING
}

/// The byte stored for host input `b`: line-feed becomes carriage-return,
/// every other byte is kept as it is.
pub open spec fn spec_translated_input(b: u8) -> u8 {
    if b == 10 {
        13u8
    } else {
        b
    }
}

/// Reports whether the output handshake cell holds a pending character.
pub fn ready_to_output_character(addresses: &AddressProfile, memory: &Generic64kMem) -> (r: bool)
    requires
        memory.wf(),
    ensures
        r == spec_ready_to_output(*addresses, memory@),
{
    memory.read(addresses.moncout_store_addr()) != 0
}

/// Reports whether the guest is waiting for an input byte.
pub fn ready_to_read_key(addresses: &AddressProfile, memory: &Generic64kMem) -> (r: bool)
    requires
        memory.wf(),
    ensures
        r == spec_ready_to_read_key(*addresses, memory@),
{
    memory.read(addresses.monrdkey_store_addr()) == INPUT_WAITING
}

/// Takes the pending character out of the output handshake cell and clears
/// the cell to zero; the caller renders the returned byte on the console.
pub fn consume_character(addresses: &AddressProfile, memory: &mut Generic64kMem) -> (c: u8)
    requires
        old(memory).wf(),
    ensures
        final(memory).wf(),
        c == old(memory)@[addresses.spec_moncout_store_addr()],
        final(memory)@ == old(memory)@.update(addresses.spec_moncout_store_addr(), 0u8),
{
    let cell = addresses.moncout_store_addr();
    let c = memory.read(cell);
    memory.write(cell, 0);
    c
}

/// Translates one host input byte: line-feed (`10`) becomes carriage-return
/// (`13`), since the ROMs expect carriage-return-terminated input.
pub fn translate_input_byte(b: u8) -> (r: u8)
    ensures
        r == spec_translated_input(b),
{
    if b == 10 {
        13
    } else {
        b
    }
}

/// Stores a host input byte, translated, into the input handshake cell. The
/// bridge only writes the byte; the guest is the one that consumes the cell.
pub fn supply_input_byte(addresses: &AddressProfile, memory: &mut Generic64kMem, b: u8)
    requires
        old(memory).wf(),
    ensures
        final(memory).wf(),
        final(memory)@ == old(memory)@.update(
            addresses.spec_monrdkey_store_addr(),
            spec_translated_input(b),
        ),
        final(memory)@[addresses.spec_monrdkey_store_addr()] == if b == 10 {
            13u8
        } else {
            b
        },
{
    let translated = translate_input_byte(b);
    memory.write(addresses.monrdkey_store_addr(), translated);
}

/// Law (each output byte is emitted exactly once): a nonzero byte `v` in the
/// output handshake cell is observed as ready, is the exact byte consumption
/// returns, and consumption clears the cell so the same byte is not observed
/// as ready a second time.
pub proof fn lemma_output_byte_emitted_once(p: AddressProfile, m: Seq<u8>, v: u8)
    requires
        m.len() == crate::memory::MEMORY_SIZE,
        m[p.spec_moncout_store_addr()] == v,
        v != 0,
    ensures
        spec_ready_to_output(p, m),
        !spec_ready_to_output(p, m.update(p.spec_moncout_store_addr(), 0u8)),
{
}

} // verus!
