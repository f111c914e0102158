//! Facts that connect the bit operations used by the executable code with
//! the arithmetic used in the specifications.

use vstd::prelude::*;

verus! {

/// The low nibble of a byte, stated arithmetically.
pub proof fn lemma_low_nibble(v: u8)
    by (bit_vector)
    ensures
        v & 0x0F == v % 16,
{
}

/// The four condition bits of a byte whose low nibble is clear determine it.
pub proof fn lemma_flag_bits(f: u8)
    by (bit_vector)
    ensures
        (f & 0x80 != 0) == ((f / 128) % 2 == 1),
        (f & 0x40 != 0) == ((f / 64) % 2 == 1),
        (f & 0x20 != 0) == ((f / 32) % 2 == 1),
        (f & 0x10 != 0) == ((f / 16) % 2 == 1),
        ((f & 0xF0) & 0x80 != 0) == (f & 0x80 != 0),
        ((f & 0xF0) & 0x40 != 0) == (f & 0x40 != 0),
        ((f & 0xF0) & 0x20 != 0) == (f & 0x20 != 0),
        ((f & 0xF0) & 0x10 != 0) == (f & 0x10 != 0),
        (f & 0xF0) & 0x0F == 0,
        (f & 0x0F == 0) == (f % 16 == 0),
{
}

/// Writing one condition bit leaves the other three and the low nibble alone.
pub proof fn lemma_write_flag(f: u8, mask: u8, on: bool)
    by (bit_vector)
    requires
        mask == 0x80 || mask == 0x40 || mask == 0x20 || mask == 0x10,
        f & 0x0F == 0,
    ensures
        ({
            let g = (f & !mask) | (if on { mask } else { 0u8 });
            &&& g & 0x0F == 0
            &&& (g & mask != 0) == on
            &&& mask != 0x80 ==> (g & 0x80 != 0) == (f & 0x80 != 0)
            &&& mask != 0x40 ==> (g & 0x40 != 0) == (f & 0x40 != 0)
            &&& mask != 0x20 ==> (g & 0x20 != 0) == (f & 0x20 != 0)
            &&& mask != 0x10 ==> (g & 0x10 != 0) == (f & 0x10 != 0)
        }),
{
}

/// Composing and splitting a 16-bit word from two bytes.
pub proof fn lemma_word_fields(hi: u8, lo: u8, w: u16)
    by (bit_vector)
    ensures
        ((hi as u16) << 8) | (lo as u16) == hi as u16 * 256 + lo as u16,
        (w >> 8) as u8 == w / 256,
        (w & 0x00FF) as u8 == w % 256,
        w & 0x0FFF == w % 4096,
{
}

/// Moving a byte one place to the left, stated arithmetically.
pub proof fn lemma_shift_left(v: u8)
    by (bit_vector)
    ensures
        (v << 1) | (v >> 7) == (v * 2) % 256 + v / 128,
        v << 1 == (v * 2) % 256,
        (v << 1) | 1 == (v * 2) % 256 + 1,
        (v & 0x80 != 0) == (v >= 128),
{
}

/// Moving a byte one place to the right, or by a nibble, stated
/// arithmetically.
pub proof fn lemma_shift_right(v: u8)
    by (bit_vector)
    ensures
        (v >> 1) | (v << 7) == v / 2 + (v % 2) * 128,
        (v >> 4) | (v << 4) == (v % 16) * 16 + v / 16,
        v >> 1 == v / 2,
        (v >> 1) | 0x80 == v / 2 + 128,
        (v >> 1) | (v & 0x80) == v / 2 + (v / 128) * 128,
        (v & 0x01 != 0) == (v % 2 == 1),
{
}

/// The three fields of an opcode: bits 7-6, bits 5-3 and bits 2-0.
pub proof fn lemma_opcode_fields(op: u8)
    by (bit_vector)
    ensures
        (op >> 6) & 0b11 == op / 64,
        (op >> 3) & 0b111 == (op / 8) % 8,
        op & 0b111 == op % 8,
        (op >> 3) & 0b111 < 8,
{
}

/// Clearing bit 0 of an address gives the even address at or below it.
pub proof fn lemma_even_address(a: u16)
    by (bit_vector)
    ensures
        a & 0xFFFE == a - a % 2,
{
}

} // verus!
