//! Memory/trap bridge for running 8-bit BASIC interpreter ROMs against a host
//! console: a flat 64KB address space, per-variant address profiles, trap stubs
//! that redirect the ROM's monitor vectors into RAM handshake cells, and the
//! bridge-side handshake logic that moves characters between those cells and
//! the host.

pub mod memory;
pub mod profile;
pub mod traps;
pub mod bridge;
