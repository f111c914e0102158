//! Arithmetic, logic, rotates, shifts and decimal adjustment, with the flags
//! that each of them leaves.

use vstd::prelude::*;
use crate::bits::{lemma_low_nibble, lemma_shift_left, lemma_shift_right, lemma_word_fields};
use crate::registers::Flags;

verus! {

/// A result byte and the flags that come with it.
#[derive(Clone, Copy, Debug, PartialEq, Eq, Structural)]
pub struct AluOut {
    pub value: u8,
    pub flags: Flags,
}

/// A result word and the flags that come with it.
#[derive(Clone, Copy, Debug, PartialEq, Eq, Structural)]
pub struct WideOut {
    pub value: u16,
    pub flags: Flags,
}

/// The eight operations between the accumulator and an 8-bit operand.
#[derive(Clone, Copy, Debug, PartialEq, Eq, Structural)]
pub enum AluOp {
    Add,
    Adc,
    Sub,
    Sbc,
    And,
    Xor,
    Or,
    Cp,
}

/// The eight rotates and shifts of one byte.
#[derive(Clone, Copy, Debug, PartialEq, Eq, Structural)]
pub enum ShiftOp {
    /// Rotate left; bit 7 goes to bit 0 and to the carry.
    Rlc,
    /// Rotate right; bit 0 goes to bit 7 and to the carry.
    Rrc,
    /// Rotate left through the carry.
    Rl,
    /// Rotate right through the carry.
    Rr,
    /// Shift left; a zero comes in.
    Sla,
    /// Shift right; bit 7 stays.
    Sra,
    /// Exchange the two nibbles.
    Swap,
    /// Shift right; a zero comes in.
    Srl,
}

/// One or zero.
pub open spec fn bit_of(b: bool) -> int {
    if b {
        1
    } else {
        0
    }
}

/// `a + b + carry`. H is the carry out of bit 3, C the carry out of bit 7.
pub open spec fn spec_add8(a: u8, b: u8, carry: bool) -> AluOut {
    let sum = a + b + bit_of(carry);
    AluOut {
        value: (sum % 256) as u8,
        flags: Flags {
            z: sum % 256 == 0,
            n: false,
            h: a % 16 + b % 16 + bit_of(carry) > 0xF,
            c: sum > 0xFF,
        },
    }
}

/// `a - b - carry`. H is the borrow into bit 4, C the borrow into bit 8.
pub open spec fn spec_sub8(a: u8, b: u8, carry: bool) -> AluOut {
    let diff = a - b - bit_of(carry);
    AluOut {
        value: (diff % 256) as u8,
        flags: Flags {
            z: diff % 256 == 0,
            n: true,
            h: a % 16 < b % 16 + bit_of(carry),
            c: diff < 0,
        },
    }
}

pub open spec fn spec_and8(a: u8, b: u8) -> AluOut {
    AluOut { value: a & b, flags: Flags { z: a & b == 0, n: false, h: true, c: false } }
}

pub open spec fn spec_or8(a: u8, b: u8) -> AluOut {
    AluOut { value: a | b, flags: Flags { z: a | b == 0, n: false, h: false, c: false } }
}

pub open spec fn spec_xor8(a: u8, b: u8) -> AluOut {
    AluOut { value: a ^ b, flags: Flags { z: a ^ b == 0, n: false, h: false, c: false } }
}

/// What `op` makes of the accumulator `a` and the operand `b`. A compare
/// leaves the accumulator as it is and sets the flags of a subtraction.
pub open spec fn spec_alu8(op: AluOp, a: u8, b: u8, carry: bool) -> AluOut {
    match op {
        AluOp::Add => spec_add8(a, b, false),
        AluOp::Adc => spec_add8(a, b, carry),
        AluOp::Sub => spec_sub8(a, b, false),
        AluOp::Sbc => spec_sub8(a, b, carry),
        AluOp::And => spec_and8(a, b),
        AluOp::Xor => spec_xor8(a, b),
        AluOp::Or => spec_or8(a, b),
        AluOp::Cp => AluOut { value: a, flags: spec_sub8(a, b, false).flags },
    }
}

/// `v + 1`. The carry flag stays.
pub open spec fn spec_inc8(v: u8, flags: Flags) -> AluOut {
    let r = spec_add8(v, 1, false);
    AluOut { value: r.value, flags: Flags { c: flags.c, ..r.flags } }
}

/// `v - 1`. The carry flag stays.
pub open spec fn spec_dec8(v: u8, flags: Flags) -> AluOut {
    let r = spec_sub8(v, 1, false);
    AluOut { value: r.value, flags: Flags { c: flags.c, ..r.flags } }
}

/// `x + y` on 16 bits. H is the carry out of bit 11, C the carry out of bit
/// 15. The zero flag stays.
pub open spec fn spec_add16(x: u16, y: u16, flags: Flags) -> WideOut {
    WideOut {
        value: ((x + y) % 0x1_0000) as u16,
        flags: Flags { z: flags.z, n: false, h: x % 0x1000 + y % 0x1000 > 0xFFF, c: x + y > 0xFFFF },
    }
}

/// The byte `e` read as a signed offset and extended to 16 bits.
pub open spec fn sign_extend(e: u8) -> u16 {
    if e >= 0x80 {
        (0xFF00 + e) as u16
    } else {
        e as u16
    }
}

/// `x` moved by the signed offset `e`, modulo 65536.
pub open spec fn spec_offset(x: u16, e: u8) -> u16 {
    ((x + sign_extend(e)) % 0x1_0000) as u16
}

/// The stack pointer moved by the signed offset `e`. The flags are those of
/// the 16-bit addition of the extended offset, with the zero flag cleared.
pub open spec fn spec_add_sp(sp: u16, e: u8) -> WideOut {
    let r = spec_add16(sp, sign_extend(e), Flags { z: false, n: false, h: false, c: false });
    WideOut { value: r.value, flags: Flags { z: false, ..r.flags } }
}

/// Decimal adjustment of the accumulator after an addition (N clear) or a
/// subtraction (N set) of packed decimal numbers.
pub open spec fn spec_daa(a: u8, flags: Flags) -> AluOut {
    if !flags.n {
        let upper = flags.c || a > 0x99;
        let lower = flags.h || a % 16 > 9;
        let fix = (if upper { 0x60int } else { 0 }) + (if lower { 0x06int } else { 0 });
        let value = ((a + fix) % 256) as u8;
        AluOut { value, flags: Flags { z: value == 0, n: false, h: false, c: upper } }
    } else {
        let fix = (if flags.c { 0x60int } else { 0 }) + (if flags.h { 0x06int } else { 0 });
        let value = ((a - fix) % 256) as u8;
        AluOut { value, flags: Flags { z: value == 0, n: true, h: false, c: flags.c } }
    }
}

/// The byte that a rotate or shift makes of `v`.
pub open spec fn shifted(op: ShiftOp, v: u8, carry: bool) -> int {
    match op {
        ShiftOp::Rlc => (v * 2) % 256 + v / 128,
        ShiftOp::Rrc => v / 2 + (v % 2) * 128,
        ShiftOp::Rl => (v * 2) % 256 + bit_of(carry),
        ShiftOp::Rr => v / 2 + bit_of(carry) * 128,
        ShiftOp::Sla => (v * 2) % 256,
        ShiftOp::Sra => v / 2 + (v / 128) * 128,
        ShiftOp::Swap => (v % 16) * 16 + v / 16,
        ShiftOp::Srl => v as int / 2,
    }
}

/// The bit that a rotate or shift moves out of `v` into the carry.
pub open spec fn shifted_out(op: ShiftOp, v: u8) -> bool {
    match op {
        ShiftOp::Rlc | ShiftOp::Rl | ShiftOp::Sla => v >= 0x80,
        ShiftOp::Rrc | ShiftOp::Rr | ShiftOp::Sra | ShiftOp::Srl => v % 2 == 1,
        ShiftOp::Swap => false,
    }
}

/// A rotate or shift of `v`, with the zero flag set from the result.
pub open spec fn spec_shift(op: ShiftOp, v: u8, carry: bool) -> AluOut {
    AluOut {
        value: shifted(op, v, carry) as u8,
        flags: Flags { z: shifted(op, v, carry) == 0, n: false, h: false, c: shifted_out(op, v) },
    }
}

/// A rotate of the accumulator: as `spec_shift`, with the zero flag cleared.
pub open spec fn spec_rotate_a(op: ShiftOp, a: u8, carry: bool) -> AluOut {
    let r = spec_shift(op, a, carry);
    AluOut { value: r.value, flags: Flags { z: false, ..r.flags } }
}

/// The flags after testing bit `b` of `v`. The carry flag stays.
pub open spec fn spec_test_bit(b: u8, v: u8, flags: Flags) -> Flags {
    Flags { z: v & (1u8 << b) == 0, n: false, h: true, c: flags.c }
}

/// `v` with bit `b` cleared.
pub open spec fn spec_reset_bit(b: u8, v: u8) -> u8 {
    v & !(1u8 << b)
}

/// `v` with bit `b` set.
pub open spec fn spec_set_bit(b: u8, v: u8) -> u8 {
    v | (1u8 << b)
}

/// The complement of the accumulator. Z and C stay.
pub open spec fn spec_cpl(a: u8, flags: Flags) -> AluOut {
    AluOut { value: !a, flags: Flags { n: true, h: true, ..flags } }
}

/// The flags after setting the carry. Z stays.
pub open spec fn spec_scf(flags: Flags) -> Flags {
    Flags { z: flags.z, n: false, h: false, c: true }
}

/// The flags after inverting the carry. Z stays.
pub open spec fn spec_ccf(flags: Flags) -> Flags {
    Flags { z: flags.z, n: false, h: false, c: !flags.c }
}

/// Adjusting a byte that already holds two decimal digits, after an addition
/// that left neither half-carry nor carry, changes nothing.
pub proof fn lemma_daa_keeps_decimal(a: u8)
    requires
        a % 16 <= 9,
        a / 16 <= 9,
    ensures
        spec_daa(a, Flags { z: a == 0, n: false, h: false, c: false }).value == a,
        forall|z: bool| spec_daa(a, Flags { z, n: false, h: false, c: false }).value == a,
        forall|z: bool|
            spec_daa(
                spec_daa(a, Flags { z, n: false, h: false, c: false }).value,
                spec_daa(a, Flags { z, n: false, h: false, c: false }).flags,
            ) == spec_daa(a, Flags { z, n: false, h: false, c: false }),
{
}

/// Whether `v` holds two decimal digits, one in each nibble.
pub open spec fn is_decimal(v: u8) -> bool {
    v / 16 <= 9 && v % 16 <= 9
}

/// The number that the two decimal digits of `v` spell.
pub open spec fn decimal(v: u8) -> int {
    (v / 16) * 10 + v % 16
}

proof fn lemma_decimal_add(a: u8, b: u8, c: u8)
    by (bit_vector)
    requires
        a / 16 <= 9 && a % 16 <= 9,
        b / 16 <= 9 && b % 16 <= 9,
        c <= 1,
    ensures
        ({
            let v = ((a + b + c) % 256) as u8;
            let h = a % 16 + b % 16 + c > 0xF;
            let cy = a + b + c > 0xFF;
            let upper = cy || v > 0x99;
            let lower = h || v % 16 > 9;
            let fix = (if upper { 0x60u8 } else { 0u8 }) + (if lower { 0x06u8 } else { 0u8 });
            let r = ((v + fix) % 256) as u8;
            &&& r / 16 <= 9
            &&& r % 16 <= 9
            &&& (r / 16) * 10 + r % 16 + (if upper { 100u8 } else { 0u8 }) == (a / 16) * 10 + a % 16
                + (b / 16) * 10 + b % 16 + c
        }),
{
}

/// Decimal adjustment makes binary addition decimal: where both operands
/// hold two decimal digits, the adjusted sum holds the last two digits of
/// their decimal sum, and the carry flag tells whether the sum reached 100.
pub proof fn lemma_daa_after_add(a: u8, b: u8, carry: bool)
    requires
        is_decimal(a),
        is_decimal(b),
    ensures
        ({
            let sum = spec_add8(a, b, carry);
            let r = spec_daa(sum.value, sum.flags);
            &&& is_decimal(r.value)
            &&& decimal(r.value) + (if r.flags.c { 100int } else { 0 }) == decimal(a) + decimal(b)
                + bit_of(carry)
        }),
{
    lemma_decimal_add(a, b, if carry { 1 } else { 0 });
}

proof fn lemma_decimal_sub(a: u8, b: u8, c: u8)
    by (bit_vector)
    requires
        a / 16 <= 9 && a % 16 <= 9,
        b / 16 <= 9 && b % 16 <= 9,
        c <= 1,
    ensures
        ({
            let v = ((a - b - c) % 256) as u8;
            let h = a % 16 < b % 16 + c;
            let cy = a - b - c < 0;
            let fix = (if cy { 0x60u8 } else { 0u8 }) + (if h { 0x06u8 } else { 0u8 });
            let r = ((v - fix) % 256) as u8;
            &&& r / 16 <= 9
            &&& r % 16 <= 9
            &&& (r / 16) * 10 + r % 16 - (if cy { 100u8 } else { 0u8 }) == (a / 16) * 10 + a % 16
                - ((b / 16) * 10 + b % 16) - c
        }),
{
}

/// Decimal adjustment makes binary subtraction decimal: where both operands
/// hold two decimal digits, the adjusted difference holds the last two
/// digits of their decimal difference, and the carry flag tells whether the
/// subtraction borrowed 100.
pub proof fn lemma_daa_after_sub(a: u8, b: u8, carry: bool)
    requires
        is_decimal(a),
        is_decimal(b),
    ensures
        ({
            let diff = spec_sub8(a, b, carry);
            let r = spec_daa(diff.value, diff.flags);
            &&& is_decimal(r.value)
            &&& decimal(r.value) - (if r.flags.c { 100int } else { 0 }) == decimal(a) - decimal(b)
                - bit_of(carry)
        }),
{
    lemma_decimal_sub(a, b, if carry { 1 } else { 0 });
}

pub fn add8(a: u8, b: u8, carry: bool) -> (r: AluOut)
    ensures
        r == spec_add8(a, b, carry),
{
    let cin: u16 = if carry { 1 } else { 0 };
    let wide: u16 = a as u16 + b as u16 + cin;
    proof {
        lemma_low_nibble(a);
        lemma_low_nibble(b);
        lemma_word_fields(0, 0, wide);
    }
    let value: u8 = (wide & 0x00FF) as u8;
    let half: u16 = (a & 0x0F) as u16 + (b & 0x0F) as u16 + cin;
    AluOut { value, flags: Flags { z: value == 0, n: false, h: half > 0x0F, c: wide > 0x00FF } }
}

pub fn sub8(a: u8, b: u8, carry: bool) -> (r: AluOut)
    ensures
        r == spec_sub8(a, b, carry),
{
    let cin: u8 = if carry { 1 } else { 0 };
    let wide: i16 = a as i16 - b as i16 - cin as i16;
    proof {
        lemma_low_nibble(a);
        lemma_low_nibble(b);
    }
    let value: u8 = a.wrapping_sub(b).wrapping_sub(cin);
    let half: bool = (a & 0x0F) < (b & 0x0F) + cin;
    AluOut { value, flags: Flags { z: value == 0, n: true, h: half, c: wide < 0 } }
}

pub fn and8(a: u8, b: u8) -> (r: AluOut)
    ensures
        r == spec_and8(a, b),
{
    let value: u8 = a & b;
    AluOut { value, flags: Flags { z: value == 0, n: false, h: true, c: false } }
}

pub fn or8(a: u8, b: u8) -> (r: AluOut)
    ensures
        r == spec_or8(a, b),
{
    let value: u8 = a | b;
    AluOut { value, flags: Flags { z: value == 0, n: false, h: false, c: false } }
}

pub fn xor8(a: u8, b: u8) -> (r: AluOut)
    ensures
        r == spec_xor8(a, b),
{
    let value: u8 = a ^ b;
    AluOut { value, flags: Flags { z: value == 0, n: false, h: false, c: false } }
}

/// Applies `op` to the accumulator `a` and the operand `b`.
pub fn alu8(op: AluOp, a: u8, b: u8, carry: bool) -> (r: AluOut)
    ensures
        r == spec_alu8(op, a, b, carry),
{
    match op {
        AluOp::Add => add8(a, b, false),
        AluOp::Adc => add8(a, b, carry),
        AluOp::Sub => sub8(a, b, false),
        AluOp::Sbc => sub8(a, b, carry),
        AluOp::And => and8(a, b),
        AluOp::Xor => xor8(a, b),
        AluOp::Or => or8(a, b),
        AluOp::Cp => AluOut { value: a, flags: sub8(a, b, false).flags },
    }
}

pub fn inc8(v: u8, flags: Flags) -> (r: AluOut)
    ensures
        r == spec_inc8(v, flags),
{
    let r = add8(v, 1, false);
    AluOut { value: r.value, flags: Flags { z: r.flags.z, n: r.flags.n, h: r.flags.h, c: flags.c } }
}

pub fn dec8(v: u8, flags: Flags) -> (r: AluOut)
    ensures
        r == spec_dec8(v, flags),
{
    let r = sub8(v, 1, false);
    AluOut { value: r.value, flags: Flags { z: r.flags.z, n: r.flags.n, h: r.flags.h, c: flags.c } }
}

pub fn add16(x: u16, y: u16, flags: Flags) -> (r: WideOut)
    ensures
        r == spec_add16(x, y, flags),
{
    let wide: u32 = x as u32 + y as u32;
    proof {
        lemma_word_fields(0, 0, x);
        lemma_word_fields(0, 0, y);
    }
    let value: u16 = x.wrapping_add(y);
    let half: u32 = (x & 0x0FFF) as u32 + (y & 0x0FFF) as u32;
    WideOut { value, flags: Flags { z: flags.z, n: false, h: half > 0x0FFF, c: wide > 0xFFFF } }
}

/// The byte `e` read as a signed offset and extended to 16 bits.
pub fn extend(e: u8) -> (r: u16)
    ensures
        r == sign_extend(e),
{
    if e >= 0x80 {
        0xFF00 + e as u16
    } else {
        e as u16
    }
}

/// `x` moved by the signed offset `e`.
pub fn offset(x: u16, e: u8) -> (r: u16)
    ensures
        r == spec_offset(x, e),
{
    x.wrapping_add(extend(e))
}

pub fn add_sp(sp: u16, e: u8) -> (r: WideOut)
    ensures
        r == spec_add_sp(sp, e),
{
    let r = add16(sp, extend(e), Flags { z: false, n: false, h: false, c: false });
    WideOut { value: r.value, flags: Flags { z: false, n: r.flags.n, h: r.flags.h, c: r.flags.c } }
}

pub fn daa(a: u8, flags: Flags) -> (r: AluOut)
    ensures
        r == spec_daa(a, flags),
{
    proof {
        lemma_low_nibble(a);
    }
    let mut value: u8 = a;
    let mut carry: bool = flags.c;
    if !flags.n {
        if flags.c || a > 0x99 {
            value = value.wrapping_add(0x60);
            carry = true;
        }
        if flags.h || (a & 0x0F) > 0x09 {
            value = value.wrapping_add(0x06);
        }
    } else {
        if flags.c {
            value = value.wrapping_sub(0x60);
        }
        if flags.h {
            value = value.wrapping_sub(0x06);
        }
    }
    AluOut { value, flags: Flags { z: value == 0, n: flags.n, h: false, c: carry } }
}

pub fn shift(op: ShiftOp, v: u8, carry: bool) -> (r: AluOut)
    ensures
        r == spec_shift(op, v, carry),
{
    proof {
        lemma_shift_left(v);
        lemma_shift_right(v);
    }
    let cin: u8 = if carry { 1 } else { 0 };
    let value: u8 = match op {
        ShiftOp::Rlc => (v << 1) | (v >> 7),
        ShiftOp::Rrc => (v >> 1) | (v << 7),
        ShiftOp::Rl => if carry {
            (v << 1) | 1
        } else {
            v << 1
        },
        ShiftOp::Rr => if carry {
            (v >> 1) | 0x80
        } else {
            v >> 1
        },
        ShiftOp::Sla => v << 1,
        ShiftOp::Sra => (v >> 1) | (v & 0x80),
        ShiftOp::Swap => (v >> 4) | (v << 4),
        ShiftOp::Srl => v >> 1,
    };
    let out: bool = match op {
        ShiftOp::Rlc | ShiftOp::Rl | ShiftOp::Sla => v & 0x80 != 0,
        ShiftOp::Rrc | ShiftOp::Rr | ShiftOp::Sra | ShiftOp::Srl => v & 0x01 != 0,
        ShiftOp::Swap => false,
    };
    AluOut { value, flags: Flags { z: value == 0, n: false, h: false, c: out } }
}

pub fn rotate_a(op: ShiftOp, a: u8, carry: bool) -> (r: AluOut)
    ensures
        r == spec_rotate_a(op, a, carry),
{
    let r = shift(op, a, carry);
    AluOut { value: r.value, flags: Flags { z: false, n: r.flags.n, h: r.flags.h, c: r.flags.c } }
}

pub fn test_bit(b: u8, v: u8, flags: Flags) -> (r: Flags)
    requires
        b < 8,
    ensures
        r == spec_test_bit(b, v, flags),
{
    Flags { z: v & (1u8 << b) == 0, n: false, h: true, c: flags.c }
}

pub fn reset_bit(b: u8, v: u8) -> (r: u8)
    requires
        b < 8,
    ensures
        r == spec_reset_bit(b, v),
{
    v & !(1u8 << b)
}

pub fn set_bit(b: u8, v: u8) -> (r: u8)
    requires
        b < 8,
    ensures
        r == spec_set_bit(b, v),
{
    v | (1u8 << b)
}

pub fn cpl(a: u8, flags: Flags) -> (r: AluOut)
    ensures
        r == spec_cpl(a, flags),
{
    AluOut { value: !a, flags: Flags { z: flags.z, n: true, h: true, c: flags.c } }
}

pub fn scf(flags: Flags) -> (r: Flags)
    ensures
        r == spec_scf(flags),
{
    Flags { z: flags.z, n: false, h: false, c: true }
}

pub fn ccf(flags: Flags) -> (r: Flags)
    ensures
        r == spec_ccf(flags),
{
    Flags { z: flags.z, n: false, h: false, c: !flags.c }
}

} // verus!
