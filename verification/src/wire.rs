//! Big-endian (network byte order) access to 32-bit words in a byte buffer.

use vstd::prelude::*;

verus! {

/// The 32-bit word stored in network byte order at offset `off` of `s`.
pub open spec fn spec_word_at(s: Seq<u8>, off: int) -> u32
    recommends
        0 <= off,
        off + 4 <= s.len(),
{
    (s[off] * 0x1000000 + s[off + 1] * 0x10000 + s[off + 2] * 0x100 + s[off + 3]) as u32
}

/// The four bytes of `w` in network byte order, most significant first.
pub open spec fn spec_be_bytes(w: u32) -> Seq<u8> {
    seq![
        (w / 0x1000000) as u8,
        ((w / 0x10000) % 0x100) as u8,
        ((w / 0x100) % 0x100) as u8,
        (w % 0x100) as u8,
    ]
}

/// The big-endian byte decomposition of a 32-bit word recomposes to the word
/// itself, and its leading byte fits in eight bits.
pub proof fn lemma_be_decomposition(w: u32)
    ensures
        w / 0x1000000 < 0x100,
        (w / 0x1000000) * 0x1000000 + ((w / 0x10000) % 0x100) * 0x10000 + ((w / 0x100) % 0x100)
            * 0x100 + (w % 0x100) == w,
{
    assert(w / 0x1000000 < 0x100) by (bit_vector);
    assert((w / 0x1000000) * 0x1000000 + ((w / 0x10000) % 0x100) * 0x10000 + ((w / 0x100) % 0x100)
        * 0x100 + (w % 0x100) == w) by (bit_vector);
}

/// A buffer that holds the big-endian bytes of `w` at offset `off` yields
/// `w` when the word at `off` is read back.
pub proof fn lemma_word_at_be_bytes(s: Seq<u8>, off: int, w: u32)
    requires
        0 <= off,
        off + 4 <= s.len(),
        s[off] == spec_be_bytes(w)[0],
        s[off + 1] == spec_be_bytes(w)[1],
        s[off + 2] == spec_be_bytes(w)[2],
        s[off + 3] == spec_be_bytes(w)[3],
    ensures
        spec_word_at(s, off) == w,
{
    lemma_be_decomposition(w);
}

/// Reads the 32-bit word stored in network byte order at offset `off`.
pub fn read_u32_at(buffer: &[u8], off: usize) -> (r: u32)
    requires
        off + 4 <= buffer@.len(),
    ensures
        r == spec_word_at(buffer@, off as int),
{
    let b0 = buffer[off];
    let b1 = buffer[off + 1];
    let b2 = buffer[off + 2];
    let b3 = buffer[off + 3];
    (b0 as u32) * 0x1000000 + (b1 as u32) * 0x10000 + (b2 as u32) * 0x100 + (b3 as u32)
}

/// Writes `w` in network byte order at offset `off`, leaving every other
/// byte of the buffer unchanged.
pub fn write_u32_at(buffer: &mut Vec<u8>, off: usize, w: u32)
    requires
        off + 4 <= old(buffer)@.len(),
    ensures
        final(buffer)@.len() == old(buffer)@.len(),
        forall|i: int|
            0 <= i < old(buffer)@.len() && !(off <= i < off + 4) ==> final(buffer)@[i] == old(
                buffer,
            )@[i],
        final(buffer)@[off as int] == spec_be_bytes(w)[0],
        final(buffer)@[off + 1] == spec_be_bytes(w)[1],
        final(buffer)@[off + 2] == spec_be_bytes(w)[2],
        final(buffer)@[off + 3] == spec_be_bytes(w)[3],
        spec_word_at(final(buffer)@, off as int) == w,
{
    proof {
        lemma_be_decomposition(w);
    }
    // Calling `len` pins the buffer length into `usize` range, so the
    // indices below cannot overflow.
    let _len = buffer.len();
    buffer[off] = (w / 0x1000000) as u8;
    buffer[off + 1] = ((w / 0x10000) % 0x100) as u8;
    buffer[off + 2] = ((w / 0x100) % 0x100) as u8;
    buffer[off + 3] = (w % 0x100) as u8;
    proof {
        lemma_word_at_be_bytes(buffer@, off as int, w);
    }
}

} // verus!
