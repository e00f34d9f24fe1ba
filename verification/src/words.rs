//! Fixed-width integer fields of the mapped-file note.
//!
//! The note's numeric fields are 64-bit words in the byte order that the
//! containing ELF file declares. The reads are implemented and proved here
//! directly against their arithmetic meaning.

use vstd::prelude::*;

verus! {

/// The value of the eight bytes starting at `off`, read least-significant first.
pub open spec fn u64_le_at(b: Seq<u8>, off: int) -> nat
    recommends
        0 <= off,
        off + 8 <= b.len(),
{
    b[off] as nat + b[off + 1] as nat * 0x100 + b[off + 2] as nat * 0x1_0000 + b[off + 3] as nat
        * 0x100_0000 + b[off + 4] as nat * 0x1_0000_0000 + b[off + 5] as nat * 0x100_0000_0000 + b[
        off + 6] as nat * 0x1_0000_0000_0000 + b[off + 7] as nat * 0x100_0000_0000_0000
}

/// The value of the eight bytes starting at `off`, read most-significant first.
pub open spec fn u64_be_at(b: Seq<u8>, off: int) -> nat
    recommends
        0 <= off,
        off + 8 <= b.len(),
{
    b[off + 7] as nat + b[off + 6] as nat * 0x100 + b[off + 5] as nat * 0x1_0000 + b[off
        + 4] as nat * 0x100_0000 + b[off + 3] as nat * 0x1_0000_0000 + b[off + 2] as nat
        * 0x100_0000_0000 + b[off + 1] as nat * 0x1_0000_0000_0000 + b[off] as nat
        * 0x100_0000_0000_0000
}

/// The 64-bit word at `off` in the byte order selected by `big`.
pub open spec fn word_at(b: Seq<u8>, off: int, big: bool) -> nat
    recommends
        0 <= off,
        off + 8 <= b.len(),
{
    if big {
        u64_be_at(b, off)
    } else {
        u64_le_at(b, off)
    }
}

/// Read the 64-bit word at `off` in the byte order selected by `big`.
pub fn read_u64_at(b: &[u8], off: usize, big: bool) -> (r: u64)
    requires
        off + 8 <= b@.len(),
    ensures
        r as nat == word_at(b@, off as int, big),
{
    let b0 = b[off] as u64;
    let b1 = b[off + 1] as u64;
    let b2 = b[off + 2] as u64;
    let b3 = b[off + 3] as u64;
    let b4 = b[off + 4] as u64;
    let b5 = b[off + 5] as u64;
    let b6 = b[off + 6] as u64;
    let b7 = b[off + 7] as u64;
    if big {
        ((((((b0 * 256 + b1) * 256 + b2) * 256 + b3) * 256 + b4) * 256 + b5) * 256 + b6) * 256 + b7
    } else {
        ((((((b7 * 256 + b6) * 256 + b5) * 256 + b4) * 256 + b3) * 256 + b2) * 256 + b1) * 256 + b0
    }
}

} // verus!
