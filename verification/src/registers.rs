//! Register file and condition flags.
//!
//! Eight 8-bit cells and two 16-bit cells. The pairs AF, BC, DE and HL are
//! computed from the 8-bit cells on every access. The flags live in the upper
//! nibble of F; the lower nibble of F is zero in every register file.

use vstd::prelude::*;
use crate::bits::{lemma_flag_bits, lemma_word_fields, lemma_write_flag};

verus! {

/// Bit of F that holds the zero flag.
pub const FLAG_Z: u8 = 0x80;

/// Bit of F that holds the subtract flag.
pub const FLAG_N: u8 = 0x40;

/// Bit of F that holds the half-carry flag.
pub const FLAG_H: u8 = 0x20;

/// Bit of F that holds the carry flag.
pub const FLAG_C: u8 = 0x10;

/// Names of the 8-bit registers.
#[derive(Clone, Copy, Debug, PartialEq, Eq, Structural)]
pub enum Reg8 {
    A,
    B,
    C,
    D,
    E,
    F,
    H,
    L,
}

/// Names of the 16-bit registers and register pairs.
#[derive(Clone, Copy, Debug, PartialEq, Eq, Structural)]
pub enum Reg16 {
    AF,
    BC,
    DE,
    HL,
    SP,
    PC,
}

/// Condition codes of branches, calls and returns.
#[derive(Clone, Copy, Debug, PartialEq, Eq, Structural)]
pub enum Cond {
    NZ,
    NC,
    Z,
    C,
    NONE,
}

/// The four condition flags.
#[derive(Clone, Copy, Debug, PartialEq, Eq, Structural)]
pub struct Flags {
    pub z: bool,
    pub n: bool,
    pub h: bool,
    pub c: bool,
}

impl Flags {
    /// The flags as they are packed into the upper nibble of F.
    pub open spec fn pack(self) -> u8 {
        ((if self.z { 128int } else { 0 }) + (if self.n { 64int } else { 0 }) + (if self.h {
            32int
        } else {
            0
        }) + (if self.c { 16int } else { 0 })) as u8
    }

    /// The flags held by bits 7 to 4 of `byte`; bits 3 to 0 are ignored.
    pub open spec fn unpack(byte: u8) -> Flags {
        Flags {
            z: (byte / 128) % 2 == 1,
            n: (byte / 64) % 2 == 1,
            h: (byte / 32) % 2 == 1,
            c: (byte / 16) % 2 == 1,
        }
    }
}

/// What a register file holds.
pub struct RegState {
    pub a: u8,
    pub b: u8,
    pub c: u8,
    pub d: u8,
    pub e: u8,
    pub h: u8,
    pub l: u8,
    pub flags: Flags,
    pub sp: u16,
    pub pc: u16,
}

/// The 16-bit word with high byte `hi` and low byte `lo`.
pub open spec fn word(hi: u8, lo: u8) -> u16 {
    (hi as int * 256 + lo as int) as u16
}

/// The high byte of `w`.
pub open spec fn high(w: u16) -> u8 {
    (w / 256) as u8
}

/// The low byte of `w`.
pub open spec fn low(w: u16) -> u8 {
    (w % 256) as u8
}

impl RegState {
    /// The byte F.
    pub open spec fn f(self) -> u8 {
        self.flags.pack()
    }

    pub open spec fn get8(self, r: Reg8) -> u8 {
        match r {
            Reg8::A => self.a,
            Reg8::B => self.b,
            Reg8::C => self.c,
            Reg8::D => self.d,
            Reg8::E => self.e,
            Reg8::F => self.f(),
            Reg8::H => self.h,
            Reg8::L => self.l,
        }
    }

    /// Writing F keeps only the four flag bits of `v`.
    pub open spec fn set8(self, r: Reg8, v: u8) -> RegState {
        match r {
            Reg8::A => RegState { a: v, ..self },
            Reg8::B => RegState { b: v, ..self },
            Reg8::C => RegState { c: v, ..self },
            Reg8::D => RegState { d: v, ..self },
            Reg8::E => RegState { e: v, ..self },
            Reg8::F => RegState { flags: Flags::unpack(v), ..self },
            Reg8::H => RegState { h: v, ..self },
            Reg8::L => RegState { l: v, ..self },
        }
    }

    pub open spec fn get16(self, r: Reg16) -> u16 {
        match r {
            Reg16::AF => word(self.a, self.f()),
            Reg16::BC => word(self.b, self.c),
            Reg16::DE => word(self.d, self.e),
            Reg16::HL => word(self.h, self.l),
            Reg16::SP => self.sp,
            Reg16::PC => self.pc,
        }
    }

    /// Writing a pair writes its two cells; the low nibble of F is dropped.
    pub open spec fn set16(self, r: Reg16, v: u16) -> RegState {
        match r {
            Reg16::AF => RegState { a: high(v), flags: Flags::unpack(low(v)), ..self },
            Reg16::BC => RegState { b: high(v), c: low(v), ..self },
            Reg16::DE => RegState { d: high(v), e: low(v), ..self },
            Reg16::HL => RegState { h: high(v), l: low(v), ..self },
            Reg16::SP => RegState { sp: v, ..self },
            Reg16::PC => RegState { pc: v, ..self },
        }
    }

    pub open spec fn with_flags(self, flags: Flags) -> RegState {
        RegState { flags, ..self }
    }

    /// Whether a branch with condition `cond` is taken.
    pub open spec fn holds(self, cond: Cond) -> bool {
        match cond {
            Cond::NZ => !self.flags.z,
            Cond::Z => self.flags.z,
            Cond::NC => !self.flags.c,
            Cond::C => self.flags.c,
            Cond::NONE => true,
        }
    }

    /// The register values after power-on.
    pub open spec fn power_on() -> RegState {
        RegState {
            a: 0x01,
            b: 0x00,
            c: 0x13,
            d: 0x00,
            e: 0xD8,
            h: 0x01,
            l: 0x4D,
            flags: Flags { z: true, n: false, h: true, c: true },
            sp: 0xFFFE,
            pc: 0x0100,
        }
    }
}

/// The low nibble of F is zero in every register state.
pub proof fn lemma_low_nibble_of_f_is_zero(s: RegState)
    ensures
        s.f() & 0x0F == 0,
        s.f() % 16 == 0,
{
    let f = s.f();
    assert(f % 16 == 0);
    lemma_flag_bits(f);
}

/// A value written to a register pair is read back from it. For AF this holds
/// of the values whose low nibble is zero; the others lose that nibble.
pub proof fn lemma_pair_round_trip(s: RegState, r: Reg16, v: u16)
    requires
        r == Reg16::AF ==> v % 16 == 0,
    ensures
        s.set16(r, v).get16(r) == v,
{
    if r == Reg16::AF {
        let lo = low(v);
        assert(lo % 16 == 0);
        assert(Flags::unpack(lo).pack() == lo);
    }
}

/// Whatever is written to AF, the upper twelve bits are read back.
pub proof fn lemma_af_round_trip(s: RegState, v: u16)
    ensures
        s.set16(Reg16::AF, v).get16(Reg16::AF) == v - v % 16,
{
    let lo = low(v);
    assert(Flags::unpack(lo).pack() == lo - lo % 16);
}

/// The register file.
#[derive(Clone, Copy, Debug)]
pub struct Registers {
    a: u8,
    f: u8,
    b: u8,
    c: u8,
    d: u8,
    e: u8,
    h: u8,
    l: u8,
    sp: u16,
    pc: u16,
}

impl View for Registers {
    type V = RegState;

    closed spec fn view(&self) -> RegState {
        RegState {
            a: self.a,
            b: self.b,
            c: self.c,
            d: self.d,
            e: self.e,
            h: self.h,
            l: self.l,
            flags: Flags {
                z: self.f & FLAG_Z != 0,
                n: self.f & FLAG_N != 0,
                h: self.f & FLAG_H != 0,
                c: self.f & FLAG_C != 0,
            },
            sp: self.sp,
            pc: self.pc,
        }
    }
}

impl Registers {
    #[verifier::type_invariant]
    spec fn low_nibble_clear(&self) -> bool {
        self.f & 0x0F == 0
    }

    /// The register file after power-on.
    pub fn new() -> (r: Self)
        ensures
            r@ == RegState::power_on(),
    {
        proof {
            assert(0xB0u8 & 0x0F == 0 && 0xB0u8 & 0x80 != 0 && 0xB0u8 & 0x40 == 0 && 0xB0u8 & 0x20
                != 0 && 0xB0u8 & 0x10 != 0) by (bit_vector);
        }
        Self {
            a: 0x01,
            f: 0xB0,
            b: 0x00,
            c: 0x13,
            d: 0x00,
            e: 0xD8,
            h: 0x01,
            l: 0x4D,
            sp: 0xFFFE,
            pc: 0x0100,
        }
    }

    pub fn get_z(&self) -> (r: bool)
        ensures
            r == self@.flags.z,
    {
        self.f & FLAG_Z != 0
    }

    pub fn get_n(&self) -> (r: bool)
        ensures
            r == self@.flags.n,
    {
        self.f & FLAG_N != 0
    }

    pub fn get_h(&self) -> (r: bool)
        ensures
            r == self@.flags.h,
    {
        self.f & FLAG_H != 0
    }

    pub fn get_c(&self) -> (r: bool)
        ensures
            r == self@.flags.c,
    {
        self.f & FLAG_C != 0
    }

    pub fn get_bc(&self) -> (r: u16)
        ensures
            r == self@.get16(Reg16::BC),
    {
        proof {
            lemma_word_fields(self.b, self.c, 0);
        }
        (self.b as u16) << 8 | self.c as u16
    }

    pub fn get_de(&self) -> (r: u16)
        ensures
            r == self@.get16(Reg16::DE),
    {
        proof {
            lemma_word_fields(self.d, self.e, 0);
        }
        (self.d as u16) << 8 | self.e as u16
    }

    pub fn get_hl(&self) -> (r: u16)
        ensures
            r == self@.get16(Reg16::HL),
    {
        proof {
            lemma_word_fields(self.h, self.l, 0);
        }
        (self.h as u16) << 8 | self.l as u16
    }

    pub fn get_af(&self) -> (r: u16)
        ensures
            r == self@.get16(Reg16::AF),
    {
        proof {
            use_type_invariant(self);
            self.lemma_f();
            lemma_word_fields(self.a, self.f, 0);
        }
        (self.a as u16) << 8 | self.f as u16
    }

    /// The stored byte F is the packed form of the flags it shows.
    proof fn lemma_f(&self)
        requires
            self.low_nibble_clear(),
        ensures
            self.f == self@.f(),
    {
        lemma_flag_bits(self.f);
    }

    fn set_flag(&mut self, mask: u8, on: bool)
        requires
            mask == FLAG_Z || mask == FLAG_N || mask == FLAG_H || mask == FLAG_C,
        ensures
            final(self)@.flags == (Flags {
                z: if mask == FLAG_Z { on } else { old(self)@.flags.z },
                n: if mask == FLAG_N { on } else { old(self)@.flags.n },
                h: if mask == FLAG_H { on } else { old(self)@.flags.h },
                c: if mask == FLAG_C { on } else { old(self)@.flags.c },
            }),
            final(self)@ == old(self)@.with_flags(final(self)@.flags),
    {
        proof {
            use_type_invariant(&*self);
            lemma_write_flag(self.f, mask, on);
        }
        let bit: u8 = if on { mask } else { 0 };
        self.f = (self.f & !mask) | bit;
    }

    pub fn set_z(&mut self, val: bool)
        ensures
            final(self)@ == old(self)@.with_flags(Flags { z: val, ..old(self)@.flags }),
    {
        self.set_flag(FLAG_Z, val);
    }

    pub fn set_n(&mut self, val: bool)
        ensures
            final(self)@ == old(self)@.with_flags(Flags { n: val, ..old(self)@.flags }),
    {
        self.set_flag(FLAG_N, val);
    }

    pub fn set_h(&mut self, val: bool)
        ensures
            final(self)@ == old(self)@.with_flags(Flags { h: val, ..old(self)@.flags }),
    {
        self.set_flag(FLAG_H, val);
    }

    pub fn set_c(&mut self, val: bool)
        ensures
            final(self)@ == old(self)@.with_flags(Flags { c: val, ..old(self)@.flags }),
    {
        self.set_flag(FLAG_C, val);
    }

    /// The four flags.
    pub fn flags(&self) -> (r: Flags)
        ensures
            r == self@.flags,
    {
        Flags { z: self.get_z(), n: self.get_n(), h: self.get_h(), c: self.get_c() }
    }

    /// Writes all four flags at once.
    pub fn set_flags(&mut self, flags: Flags)
        ensures
            final(self)@ == old(self)@.with_flags(flags),
    {
        self.set_flag(FLAG_Z, flags.z);
        self.set_flag(FLAG_N, flags.n);
        self.set_flag(FLAG_H, flags.h);
        self.set_flag(FLAG_C, flags.c);
    }

    pub fn set_af(&mut self, val: u16)
        ensures
            final(self)@ == old(self)@.set16(Reg16::AF, val),
    {
        proof {
            use_type_invariant(&*self);
            lemma_word_fields(0, 0, val);
            lemma_flag_bits((val & 0x00FF) as u8);
        }
        self.a = (val >> 8) as u8;
        self.f = ((val & 0x00FF) as u8) & 0xF0;
    }

    pub fn set_bc(&mut self, val: u16)
        ensures
            final(self)@ == old(self)@.set16(Reg16::BC, val),
    {
        proof {
            use_type_invariant(&*self);
            lemma_word_fields(0, 0, val);
        }
        self.b = (val >> 8) as u8;
        self.c = (val & 0x00FF) as u8;
    }

    pub fn set_de(&mut self, val: u16)
        ensures
            final(self)@ == old(self)@.set16(Reg16::DE, val),
    {
        proof {
            use_type_invariant(&*self);
            lemma_word_fields(0, 0, val);
        }
        self.d = (val >> 8) as u8;
        self.e = (val & 0x00FF) as u8;
    }

    pub fn set_hl(&mut self, val: u16)
        ensures
            final(self)@ == old(self)@.set16(Reg16::HL, val),
    {
        proof {
            use_type_invariant(&*self);
            lemma_word_fields(0, 0, val);
        }
        self.h = (val >> 8) as u8;
        self.l = (val & 0x00FF) as u8;
    }

    pub fn set_reg8(&mut self, reg: Reg8, val: u8)
        ensures
            final(self)@ == old(self)@.set8(reg, val),
    {
        proof {
            use_type_invariant(&*self);
        }
        match reg {
            Reg8::A => self.a = val,
            Reg8::B => self.b = val,
            Reg8::C => self.c = val,
            Reg8::D => self.d = val,
            Reg8::E => self.e = val,
            Reg8::F => {
                proof {
                    lemma_flag_bits(val);
                }
                self.f = val & 0xF0;
            },
            Reg8::H => self.h = val,
            Reg8::L => self.l = val,
        }
    }

    pub fn set_reg16(&mut self, reg: Reg16, val: u16)
        ensures
            final(self)@ == old(self)@.set16(reg, val),
    {
        proof {
            use_type_invariant(&*self);
        }
        match reg {
            Reg16::BC => self.set_bc(val),
            Reg16::DE => self.set_de(val),
            Reg16::HL => self.set_hl(val),
            Reg16::AF => self.set_af(val),
            Reg16::SP => self.sp = val,
            Reg16::PC => self.pc = val,
        }
    }

    pub fn get_reg8(self, reg: Reg8) -> (r: u8)
        ensures
            r == self@.get8(reg),
    {
        proof {
            use_type_invariant(&self);
            self.lemma_f();
        }
        match reg {
            Reg8::A => self.a,
            Reg8::B => self.b,
            Reg8::C => self.c,
            Reg8::D => self.d,
            Reg8::E => self.e,
            Reg8::F => self.f,
            Reg8::H => self.h,
            Reg8::L => self.l,
        }
    }

    pub fn get_reg16(self, reg: Reg16) -> (r: u16)
        ensures
            r == self@.get16(reg),
    {
        match reg {
            Reg16::BC => self.get_bc(),
            Reg16::DE => self.get_de(),
            Reg16::HL => self.get_hl(),
            Reg16::SP => self.sp,
            Reg16::PC => self.pc,
            Reg16::AF => self.get_af(),
        }
    }

    /// Whether a branch with condition `cond` is taken.
    pub fn test(&self, cond: Cond) -> (r: bool)
        ensures
            r == self@.holds(cond),
    {
        match cond {
            Cond::NZ => !self.get_z(),
            Cond::Z => self.get_z(),
            Cond::NC => !self.get_c(),
            Cond::C => self.get_c(),
            Cond::NONE => true,
        }
    }
}

} // verus!
