//! Little-endian integers and fixed-size fields read from a byte buffer at a
//! given position.

use vstd::prelude::*;

verus! {

/// The 16-bit value stored little-endian at `pos` in `s`.
pub open spec fn mot16(s: Seq<u8>, pos: int) -> int {
    s[pos] + 0x100 * s[pos + 1]
}

/// The 32-bit value stored little-endian at `pos` in `s`.
pub open spec fn mot32(s: Seq<u8>, pos: int) -> int {
    s[pos] + 0x100 * s[pos + 1] + 0x1_0000 * s[pos + 2] + 0x100_0000 * s[pos + 3]
}

/// Reads the little-endian `u16` at `pos`.
pub fn lire_u16(data: &[u8], pos: usize) -> (v: u16)
    requires
        pos + 2 <= data@.len(),
    ensures
        v == mot16(data@, pos as int),
{
    let bas: u16 = data[pos] as u16;
    let haut: u16 = data[pos + 1] as u16;
    bas + 0x100 * haut
}

/// Reads the little-endian `u32` at `pos`.
pub fn lire_u32(data: &[u8], pos: usize) -> (v: u32)
    requires
        pos + 4 <= data@.len(),
    ensures
        v == mot32(data@, pos as int),
{
    let b0: u32 = data[pos] as u32;
    let b1: u32 = data[pos + 1] as u32;
    let b2: u32 = data[pos + 2] as u32;
    let b3: u32 = data[pos + 3] as u32;
    b0 + 0x100 * b1 + 0x1_0000 * b2 + 0x100_0000 * b3
}

/// Copies the `N` bytes that start at `pos` into an array.
pub fn lire_champ<const N: usize>(data: &[u8], pos: usize) -> (champ: [u8; N])
    requires
        pos + N <= data@.len(),
    ensures
        champ@ == data@.subrange(pos as int, pos + N),
{
    let mut champ: [u8; N] = [0u8; N];
    let mut i: usize = 0;
    while i < N
        invariant
            i <= N,
            pos + N <= data.len(),
            forall|j: int| 0 <= j < i ==> champ@[j] == data@[pos + j],
        decreases N - i,
    {
        champ[i] = data[pos + i];
        i += 1;
    }
    assert(champ@ =~= data@.subrange(pos as int, pos + N));
    champ
}

} // verus!
