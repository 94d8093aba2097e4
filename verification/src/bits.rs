use vstd::prelude::*;

verus! {

/// Bounds of the bit fields of a byte that the registers decode.
pub proof fn lemma_u8_fields(v: u8)
    ensures
        v & 1 < 2,
        v & 3 < 4,
        v & 7 < 8,
        v & 0xf < 16,
        v & 0x1f < 32,
        (v >> 2u8) & 3 < 4,
        (v >> 4u8) & 7 < 8,
        (v >> 5u8) & 3 < 4,
        (v >> 6u8) & 1 < 2,
        (v >> 4u8) & 1 < 2,
        v >> 4u8 <= 15,
        v >> 5u8 <= 7,
        v >> 6u8 < 4,
        v >> 7u8 < 2,
{
    assert(v & 1 < 2 && v & 3 < 4 && v & 7 < 8 && v & 0xf < 16 && v & 0x1f < 32 && (v >> 2u8) & 3
        < 4 && (v >> 4u8) & 7 < 8 && (v >> 5u8) & 3 < 4 && (v >> 6u8) & 1 < 2 && (v >> 4u8) & 1 < 2 && v >> 4u8 <= 15
        && v >> 5u8 <= 7 && v >> 6u8 < 4 && v >> 7u8 < 2) by (bit_vector);
}

/// Shifting right never makes a half-word larger.
pub proof fn lemma_shr_le_u16(f: u16, s: u8)
    ensures
        f >> s <= f,
{
    assert(f >> s <= f) by (bit_vector);
}

/// Shifting right never makes a byte larger.
pub proof fn lemma_shr_le_u8(f: u8, s: u8)
    ensures
        f >> s <= f,
{
    assert(f >> s <= f) by (bit_vector);
}

/// Or on half-words is associative and has 0 as identity.
pub proof fn lemma_or_u16(a: u16, b: u16, c: u16)
    ensures
        (a | b) | c == a | (b | c),
        a | 0 == a,
{
    assert((a | b) | c == a | (b | c) && a | 0 == a) by (bit_vector);
}

/// Bounds of the register index and byte offset in an I/O address.
pub proof fn lemma_io_offsets(addr: u32)
    ensures
        (addr & 0xf) / 4 < 4,
        addr & 3 < 4,
        addr & 1 < 2,
{
    assert((addr & 0xf) / 4 < 4 && addr & 3 < 4 && addr & 1 < 2) by (bit_vector);
}

/// Bounds of the offsets that the cartridge's address decoding masks out.
pub proof fn lemma_cart_masks(addr: u32)
    ensures
        addr & 0x7fff < 0x8000,
        addr & 0xffff <= 0xffff,
        addr & 0x1ff_ffff < 0x200_0000,
{
    assert(addr & 0x7fff < 0x8000 && addr & 0xffff <= 0xffff && addr & 0x1ff_ffff < 0x200_0000)
        by (bit_vector);
}

} // verus!
