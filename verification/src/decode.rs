//! The decoder: from an opcode byte to the instruction it selects.
//!
//! An opcode has three fields: `x` in bits 7-6, `y` in bits 5-3 and `z` in
//! bits 2-0. `spec_decode` reads an instruction off these fields; `decode` is
//! a table with one entry for each of the 256 bytes, and is proved to agree
//! with it.

use vstd::prelude::*;
use crate::alu::{AluOp, ShiftOp};
use crate::bits::lemma_opcode_fields;
use crate::registers::{Cond, Reg16, Reg8};

verus! {

/// Where an 8-bit operand comes from.
#[derive(Clone, Copy, Debug, PartialEq, Eq, Structural)]
pub enum Operand {
    /// A register.
    Reg(Reg8),
    /// The byte at the address in HL.
    AtHl,
    /// The byte that follows the opcode.
    Immediate,
}

/// An instruction of the primary opcode space, with its operands' shape.
#[derive(Clone, Copy, Debug, PartialEq, Eq, Structural)]
pub enum Instr {
    Nop,
    Stop,
    Halt,
    Di,
    Ei,
    /// `LD rr,n16`
    LdR16N16(Reg16),
    /// `LD (rr),r`
    LdMrR(Reg16, Reg8),
    /// `LD r,(rr)`
    LdRMr(Reg8, Reg16),
    /// `LD r,r'`
    LdRR(Reg8, Reg8),
    /// `LD r,n8`
    LdR8N8(Reg8),
    /// `LD (rr),n8`
    LdMrN8(Reg16),
    /// `LD (HL+),r`
    LdHliR(Reg8),
    /// `LD (HL-),r`
    LdHldR(Reg8),
    /// `LD r,(HL+)`
    LdRHli(Reg8),
    /// `LD r,(HL-)`
    LdRHld(Reg8),
    /// `LD (a16),SP`
    LdA16Sp,
    /// `LD (a16),A`
    LdA16A,
    /// `LD A,(a16)`
    LdAA16,
    /// `LDH (a8),A`
    LdhA8A,
    /// `LDH A,(a8)`
    LdhAA8,
    /// `LD (C),A`
    LdCA,
    /// `LD A,(C)`
    LdAC,
    /// `LD HL,SP+e8`
    LdHlSpE8,
    /// `LD SP,HL`
    LdSpHl,
    IncR8(Reg8),
    DecR8(Reg8),
    IncR16(Reg16),
    DecR16(Reg16),
    /// `INC (rr)`
    IncMr(Reg16),
    /// `DEC (rr)`
    DecMr(Reg16),
    /// An operation between the accumulator and an 8-bit operand.
    Alu(AluOp, Operand),
    /// `ADD rr,rr'`
    AddR16R16(Reg16, Reg16),
    /// `ADD SP,e8`
    AddSpE8,
    Rlca,
    Rrca,
    Rla,
    Rra,
    Daa,
    Cpl,
    Scf,
    Ccf,
    /// `JR cc,e8`
    Jr(Cond),
    /// `JP cc,a16`
    JpA16(Cond),
    /// `JP HL`
    JpHl,
    /// `CALL cc,a16`
    Call(Cond),
    /// `RET cc`
    Ret(Cond),
    Reti,
    /// `RST` to the given address in page zero.
    Rst(u8),
    Push(Reg16),
    Pop(Reg16),
    /// The prefix of the secondary opcode space.
    Cb,
}

/// The families of instructions.
#[derive(Clone, Copy, Debug, PartialEq, Eq, Structural)]
pub enum Group {
    /// The instructions that change how the core runs, and the prefix.
    Control,
    /// The loads between registers, immediates and the bytes that register
    /// pairs point at.
    Load,
    /// The loads that involve an absolute address, the upper page or SP.
    Transfer,
    /// Increments, decrements and the arithmetic with an operand.
    Arithmetic,
    /// The operations on the accumulator and the flags alone.
    Accumulator,
    /// Jumps, calls, returns and the stack.
    Flow,
}

impl Instr {
    /// The family that an instruction belongs to.
    pub open spec fn group(self) -> Group {
        match self {
            Instr::Nop
            | Instr::Stop
            | Instr::Halt
            | Instr::Di
            | Instr::Ei
            | Instr::Cb => Group::Control,
            Instr::LdR16N16(_)
            | Instr::LdMrR(_, _)
            | Instr::LdRMr(_, _)
            | Instr::LdRR(_, _)
            | Instr::LdR8N8(_)
            | Instr::LdMrN8(_)
            | Instr::LdHliR(_)
            | Instr::LdHldR(_)
            | Instr::LdRHli(_)
            | Instr::LdRHld(_) => Group::Load,
            Instr::LdA16Sp
            | Instr::LdA16A
            | Instr::LdAA16
            | Instr::LdhA8A
            | Instr::LdhAA8
            | Instr::LdCA
            | Instr::LdAC
            | Instr::LdHlSpE8
            | Instr::LdSpHl => Group::Transfer,
            Instr::IncR8(_)
            | Instr::DecR8(_)
            | Instr::IncR16(_)
            | Instr::DecR16(_)
            | Instr::IncMr(_)
            | Instr::DecMr(_)
            | Instr::Alu(_, _)
            | Instr::AddR16R16(_, _)
            | Instr::AddSpE8 => Group::Arithmetic,
            Instr::Rlca
            | Instr::Rrca
            | Instr::Rla
            | Instr::Rra
            | Instr::Daa
            | Instr::Cpl
            | Instr::Scf
            | Instr::Ccf => Group::Accumulator,
            Instr::Jr(_)
            | Instr::JpA16(_)
            | Instr::JpHl
            | Instr::Call(_)
            | Instr::Ret(_)
            | Instr::Reti
            | Instr::Rst(_)
            | Instr::Push(_)
            | Instr::Pop(_) => Group::Flow,
        }
    }
}

impl Instr {
    /// The condition under which a jump, call or return is taken. The other
    /// instructions are always carried out.
    pub open spec fn cond(self) -> Cond {
        match self {
            Instr::Jr(cond) | Instr::JpA16(cond) | Instr::Call(cond) | Instr::Ret(cond) => cond,
            _ => Cond::NONE,
        }
    }

    /// The number of machine cycles that the instruction takes, the fetch of
    /// its opcode included: one for each access to the bus and one for each
    /// internal step. A branch that is not taken takes its shorter time. The
    /// prefix stands for its own fetch only; see `CbInstr::cost`.
    pub open spec fn cost(self, taken: bool) -> nat {
        match self {
            Instr::Nop | Instr::Stop | Instr::Halt | Instr::Di | Instr::Ei | Instr::Cb => 1,
            Instr::LdRR(_, _) | Instr::IncR8(_) | Instr::DecR8(_) | Instr::JpHl => 1,
            Instr::Rlca | Instr::Rrca | Instr::Rla | Instr::Rra => 1,
            Instr::Daa | Instr::Cpl | Instr::Scf | Instr::Ccf => 1,
            Instr::Alu(_, from) => if from is Reg {
                1
            } else {
                2
            },
            Instr::LdMrR(_, _) | Instr::LdRMr(_, _) | Instr::LdR8N8(_) => 2,
            Instr::LdHliR(_) | Instr::LdHldR(_) | Instr::LdRHli(_) | Instr::LdRHld(_) => 2,
            Instr::LdCA | Instr::LdAC | Instr::LdSpHl => 2,
            Instr::IncR16(_) | Instr::DecR16(_) | Instr::AddR16R16(_, _) => 2,
            Instr::LdR16N16(_) | Instr::LdMrN8(_) | Instr::LdhA8A | Instr::LdhAA8 => 3,
            Instr::LdHlSpE8 | Instr::IncMr(_) | Instr::DecMr(_) | Instr::Pop(_) => 3,
            Instr::LdA16A | Instr::LdAA16 | Instr::AddSpE8 => 4,
            Instr::Reti | Instr::Rst(_) | Instr::Push(_) => 4,
            Instr::LdA16Sp => 5,
            Instr::Jr(_) => if taken {
                3
            } else {
                2
            },
            Instr::JpA16(_) => if taken {
                4
            } else {
                3
            },
            Instr::Call(_) => if taken {
                6
            } else {
                3
            },
            Instr::Ret(cond) => if cond == Cond::NONE {
                4
            } else if taken {
                5
            } else {
                2
            },
        }
    }
}

/// What an instruction of the secondary opcode space does to its operand.
#[derive(Clone, Copy, Debug, PartialEq, Eq, Structural)]
pub enum CbClass {
    /// Rotate or shift it.
    Shift(ShiftOp),
    /// Test one bit of it.
    TestBit,
    /// Clear one bit of it.
    ResetBit,
    /// Set one bit of it.
    SetBit,
}

/// What an instruction of the secondary opcode space works on.
#[derive(Clone, Copy, Debug, PartialEq, Eq, Structural)]
pub enum Target {
    /// A register.
    Reg(Reg8),
    /// The byte at the address in HL.
    AtHl,
}

/// An instruction of the secondary opcode space.
#[derive(Clone, Copy, Debug, PartialEq, Eq, Structural)]
pub struct CbInstr {
    pub class: CbClass,
    /// The field `y`: the bit that a test, reset or set is about.
    pub bit: u8,
    pub target: Target,
}

impl CbInstr {
    /// The number of machine cycles that the instruction takes, the fetch of
    /// the prefix and of its own opcode included.
    pub open spec fn cost(self) -> nat {
        if self.target is Reg {
            2
        } else if self.class is TestBit {
            3
        } else {
            4
        }
    }
}

/// The register that a register field other than 6 selects.
pub open spec fn reg_at(i: int) -> Reg8 {
    if i == 0 {
        Reg8::B
    } else if i == 1 {
        Reg8::C
    } else if i == 2 {
        Reg8::D
    } else if i == 3 {
        Reg8::E
    } else if i == 4 {
        Reg8::H
    } else if i == 5 {
        Reg8::L
    } else {
        Reg8::A
    }
}

/// The pair that a pair field selects in loads and arithmetic.
pub open spec fn pair_at(p: int) -> Reg16 {
    if p == 0 {
        Reg16::BC
    } else if p == 1 {
        Reg16::DE
    } else if p == 2 {
        Reg16::HL
    } else {
        Reg16::SP
    }
}

/// The pair that a pair field selects in pushes and pops.
pub open spec fn stack_pair_at(p: int) -> Reg16 {
    if p == 3 {
        Reg16::AF
    } else {
        pair_at(p)
    }
}

/// The condition that a condition field selects.
pub open spec fn cond_at(i: int) -> Cond {
    if i == 0 {
        Cond::NZ
    } else if i == 1 {
        Cond::Z
    } else if i == 2 {
        Cond::NC
    } else {
        Cond::C
    }
}

/// The operation that the field `y` selects among the eight on the
/// accumulator.
pub open spec fn alu_at(y: int) -> AluOp {
    if y == 0 {
        AluOp::Add
    } else if y == 1 {
        AluOp::Adc
    } else if y == 2 {
        AluOp::Sub
    } else if y == 3 {
        AluOp::Sbc
    } else if y == 4 {
        AluOp::And
    } else if y == 5 {
        AluOp::Xor
    } else if y == 6 {
        AluOp::Or
    } else {
        AluOp::Cp
    }
}

/// The rotate or shift that the field `y` selects.
pub open spec fn shift_at(y: int) -> ShiftOp {
    if y == 0 {
        ShiftOp::Rlc
    } else if y == 1 {
        ShiftOp::Rrc
    } else if y == 2 {
        ShiftOp::Rl
    } else if y == 3 {
        ShiftOp::Rr
    } else if y == 4 {
        ShiftOp::Sla
    } else if y == 5 {
        ShiftOp::Sra
    } else if y == 6 {
        ShiftOp::Swap
    } else {
        ShiftOp::Srl
    }
}

/// The operand that a register field selects: field 6 is the byte at HL.
pub open spec fn operand_at(z: int) -> Operand {
    if z == 6 {
        Operand::AtHl
    } else {
        Operand::Reg(reg_at(z))
    }
}

/// The target that a register field selects: field 6 is the byte at HL.
pub open spec fn target_at(z: int) -> Target {
    if z == 6 {
        Target::AtHl
    } else {
        Target::Reg(reg_at(z))
    }
}

/// The instructions with `x == 0`: loads of immediates, 16-bit arithmetic,
/// increments, relative jumps and the operations on the accumulator alone.
pub open spec fn block0(y: int, z: int) -> Instr {
    let p = y / 2;
    let q = y % 2;
    if z == 0 {
        if y == 0 {
            Instr::Nop
        } else if y == 1 {
            Instr::LdA16Sp
        } else if y == 2 {
            Instr::Stop
        } else if y == 3 {
            Instr::Jr(Cond::NONE)
        } else {
            Instr::Jr(cond_at(y - 4))
        }
    } else if z == 1 {
        if q == 0 {
            Instr::LdR16N16(pair_at(p))
        } else {
            Instr::AddR16R16(Reg16::HL, pair_at(p))
        }
    } else if z == 2 {
        if p == 2 {
            if q == 0 {
                Instr::LdHliR(Reg8::A)
            } else {
                Instr::LdRHli(Reg8::A)
            }
        } else if p == 3 {
            if q == 0 {
                Instr::LdHldR(Reg8::A)
            } else {
                Instr::LdRHld(Reg8::A)
            }
        } else if q == 0 {
            Instr::LdMrR(pair_at(p), Reg8::A)
        } else {
            Instr::LdRMr(Reg8::A, pair_at(p))
        }
    } else if z == 3 {
        if q == 0 {
            Instr::IncR16(pair_at(p))
        } else {
            Instr::DecR16(pair_at(p))
        }
    } else if z == 4 {
        if y == 6 {
            Instr::IncMr(Reg16::HL)
        } else {
            Instr::IncR8(reg_at(y))
        }
    } else if z == 5 {
        if y == 6 {
            Instr::DecMr(Reg16::HL)
        } else {
            Instr::DecR8(reg_at(y))
        }
    } else if z == 6 {
        if y == 6 {
            Instr::LdMrN8(Reg16::HL)
        } else {
            Instr::LdR8N8(reg_at(y))
        }
    } else if y == 0 {
        Instr::Rlca
    } else if y == 1 {
        Instr::Rrca
    } else if y == 2 {
        Instr::Rla
    } else if y == 3 {
        Instr::Rra
    } else if y == 4 {
        Instr::Daa
    } else if y == 5 {
        Instr::Cpl
    } else if y == 6 {
        Instr::Scf
    } else {
        Instr::Ccf
    }
}

/// The instructions with `x == 1`: loads between registers and the byte at
/// HL. Where both fields name the byte at HL the instruction is `HALT`.
pub open spec fn block1(y: int, z: int) -> Instr {
    if y == 6 && z == 6 {
        Instr::Halt
    } else if z == 6 {
        Instr::LdRMr(reg_at(y), Reg16::HL)
    } else if y == 6 {
        Instr::LdMrR(Reg16::HL, reg_at(z))
    } else {
        Instr::LdRR(reg_at(y), reg_at(z))
    }
}

/// The instructions with `x == 3`: returns, jumps, calls, the stack, the
/// loads of the upper page and the operations on an immediate byte. Eleven
/// opcodes of this block select nothing.
pub open spec fn block3(y: int, z: int) -> Option<Instr> {
    let p = y / 2;
    let q = y % 2;
    if z == 0 {
        if y < 4 {
            Some(Instr::Ret(cond_at(y)))
        } else if y == 4 {
            Some(Instr::LdhA8A)
        } else if y == 5 {
            Some(Instr::AddSpE8)
        } else if y == 6 {
            Some(Instr::LdhAA8)
        } else {
            Some(Instr::LdHlSpE8)
        }
    } else if z == 1 {
        if q == 0 {
            Some(Instr::Pop(stack_pair_at(p)))
        } else if p == 0 {
            Some(Instr::Ret(Cond::NONE))
        } else if p == 1 {
            Some(Instr::Reti)
        } else if p == 2 {
            Some(Instr::JpHl)
        } else {
            Some(Instr::LdSpHl)
        }
    } else if z == 2 {
        if y < 4 {
            Some(Instr::JpA16(cond_at(y)))
        } else if y == 4 {
            Some(Instr::LdCA)
        } else if y == 5 {
            Some(Instr::LdA16A)
        } else if y == 6 {
            Some(Instr::LdAC)
        } else {
            Some(Instr::LdAA16)
        }
    } else if z == 3 {
        if y == 0 {
            Some(Instr::JpA16(Cond::NONE))
        } else if y == 1 {
            Some(Instr::Cb)
        } else if y == 6 {
            Some(Instr::Di)
        } else if y == 7 {
            Some(Instr::Ei)
        } else {
            None
        }
    } else if z == 4 {
        if y < 4 {
            Some(Instr::Call(cond_at(y)))
        } else {
            None
        }
    } else if z == 5 {
        if q == 0 {
            Some(Instr::Push(stack_pair_at(p)))
        } else if p == 0 {
            Some(Instr::Call(Cond::NONE))
        } else {
            None
        }
    } else if z == 6 {
        Some(Instr::Alu(alu_at(y), Operand::Immediate))
    } else {
        Some(Instr::Rst((y * 8) as u8))
    }
}

/// The instruction that `op` selects, if it selects one.
pub open spec fn spec_decode(op: u8) -> Option<Instr> {
    let x = op as int / 64;
    let y = (op as int / 8) % 8;
    let z = op as int % 8;
    if x == 0 {
        Some(block0(y, z))
    } else if x == 1 {
        Some(block1(y, z))
    } else if x == 2 {
        Some(Instr::Alu(alu_at(y), operand_at(z)))
    } else {
        block3(y, z)
    }
}

/// Whether `op` is one of the eleven bytes that select no instruction.
pub open spec fn is_illegal(op: u8) -> bool {
    op == 0xD3 || op == 0xDB || op == 0xDD || op == 0xE3 || op == 0xE4 || op == 0xEB || op == 0xEC
        || op == 0xED || op == 0xF4 || op == 0xFC || op == 0xFD
}

/// The bytes that select no instruction are exactly the eleven named ones.
pub proof fn lemma_illegal_opcodes(op: u8)
    ensures
        spec_decode(op) is None <==> is_illegal(op),
{
}

/// The instruction of the secondary opcode space that `op` selects.
pub open spec fn spec_decode_cb(op: u8) -> CbInstr {
    let x = op as int / 64;
    let y = (op as int / 8) % 8;
    let z = op as int % 8;
    CbInstr {
        class: if x == 0 {
            CbClass::Shift(shift_at(y))
        } else if x == 1 {
            CbClass::TestBit
        } else if x == 2 {
            CbClass::ResetBit
        } else {
            CbClass::SetBit
        },
        bit: y as u8,
        target: target_at(z),
    }
}

/// The table of the primary opcode space.
pub fn decode(op: u8) -> (r: Option<Instr>)
    ensures
        r == spec_decode(op),
{
    match op {
        0x00 => Some(Instr::Nop),
        0x01 => Some(Instr::LdR16N16(Reg16::BC)),
        0x02 => Some(Instr::LdMrR(Reg16::BC, Reg8::A)),
        0x03 => Some(Instr::IncR16(Reg16::BC)),
        0x04 => Some(Instr::IncR8(Reg8::B)),
        0x05 => Some(Instr::DecR8(Reg8::B)),
        0x06 => Some(Instr::LdR8N8(Reg8::B)),
        0x07 => Some(Instr::Rlca),
        0x08 => Some(Instr::LdA16Sp),
        0x09 => Some(Instr::AddR16R16(Reg16::HL, Reg16::BC)),
        0x0A => Some(Instr::LdRMr(Reg8::A, Reg16::BC)),
        0x0B => Some(Instr::DecR16(Reg16::BC)),
        0x0C => Some(Instr::IncR8(Reg8::C)),
        0x0D => Some(Instr::DecR8(Reg8::C)),
        0x0E => Some(Instr::LdR8N8(Reg8::C)),
        0x0F => Some(Instr::Rrca),
        0x10 => Some(Instr::Stop),
        0x11 => Some(Instr::LdR16N16(Reg16::DE)),
        0x12 => Some(Instr::LdMrR(Reg16::DE, Reg8::A)),
        0x13 => Some(Instr::IncR16(Reg16::DE)),
        0x14 => Some(Instr::IncR8(Reg8::D)),
        0x15 => Some(Instr::DecR8(Reg8::D)),
        0x16 => Some(Instr::LdR8N8(Reg8::D)),
        0x17 => Some(Instr::Rla),
        0x18 => Some(Instr::Jr(Cond::NONE)),
        0x19 => Some(Instr::AddR16R16(Reg16::HL, Reg16::DE)),
        0x1A => Some(Instr::LdRMr(Reg8::A, Reg16::DE)),
        0x1B => Some(Instr::DecR16(Reg16::DE)),
        0x1C => Some(Instr::IncR8(Reg8::E)),
        0x1D => Some(Instr::DecR8(Reg8::E)),
        0x1E => Some(Instr::LdR8N8(Reg8::E)),
        0x1F => Some(Instr::Rra),
        0x20 => Some(Instr::Jr(Cond::NZ)),
        0x21 => Some(Instr::LdR16N16(Reg16::HL)),
        0x22 => Some(Instr::LdHliR(Reg8::A)),
        0x23 => Some(Instr::IncR16(Reg16::HL)),
        0x24 => Some(Instr::IncR8(Reg8::H)),
        0x25 => Some(Instr::DecR8(Reg8::H)),
        0x26 => Some(Instr::LdR8N8(Reg8::H)),
        0x27 => Some(Instr::Daa),
        0x28 => Some(Instr::Jr(Cond::Z)),
        0x29 => Some(Instr::AddR16R16(Reg16::HL, Reg16::HL)),
        0x2A => Some(Instr::LdRHli(Reg8::A)),
        0x2B => Some(Instr::DecR16(Reg16::HL)),
        0x2C => Some(Instr::IncR8(Reg8::L)),
        0x2D => Some(Instr::DecR8(Reg8::L)),
        0x2E => Some(Instr::LdR8N8(Reg8::L)),
        0x2F => Some(Instr::Cpl),
        0x30 => Some(Instr::Jr(Cond::NC)),
        0x31 => Some(Instr::LdR16N16(Reg16::SP)),
        0x32 => Some(Instr::LdHldR(Reg8::A)),
        0x33 => Some(Instr::IncR16(Reg16::SP)),
        0x34 => Some(Instr::IncMr(Reg16::HL)),
        0x35 => Some(Instr::DecMr(Reg16::HL)),
        0x36 => Some(Instr::LdMrN8(Reg16::HL)),
        0x37 => Some(Instr::Scf),
        0x38 => Some(Instr::Jr(Cond::C)),
        0x39 => Some(Instr::AddR16R16(Reg16::HL, Reg16::SP)),
        0x3A => Some(Instr::LdRHld(Reg8::A)),
        0x3B => Some(Instr::DecR16(Reg16::SP)),
        0x3C => Some(Instr::IncR8(Reg8::A)),
        0x3D => Some(Instr::DecR8(Reg8::A)),
        0x3E => Some(Instr::LdR8N8(Reg8::A)),
        0x3F => Some(Instr::Ccf),
        0x40 => Some(Instr::LdRR(Reg8::B, Reg8::B)),
        0x41 => Some(Instr::LdRR(Reg8::B, Reg8::C)),
        0x42 => Some(Instr::LdRR(Reg8::B, Reg8::D)),
        0x43 => Some(Instr::LdRR(Reg8::B, Reg8::E)),
        0x44 => Some(Instr::LdRR(Reg8::B, Reg8::H)),
        0x45 => Some(Instr::LdRR(Reg8::B, Reg8::L)),
        0x46 => Some(Instr::LdRMr(Reg8::B, Reg16::HL)),
        0x47 => Some(Instr::LdRR(Reg8::B, Reg8::A)),
        0x48 => Some(Instr::LdRR(Reg8::C, Reg8::B)),
        0x49 => Some(Instr::LdRR(Reg8::C, Reg8::C)),
        0x4A => Some(Instr::LdRR(Reg8::C, Reg8::D)),
        0x4B => Some(Instr::LdRR(Reg8::C, Reg8::E)),
        0x4C => Some(Instr::LdRR(Reg8::C, Reg8::H)),
        0x4D => Some(Instr::LdRR(Reg8::C, Reg8::L)),
        0x4E => Some(Instr::LdRMr(Reg8::C, Reg16::HL)),
        0x4F => Some(Instr::LdRR(Reg8::C, Reg8::A)),
        0x50 => Some(Instr::LdRR(Reg8::D, Reg8::B)),
        0x51 => Some(Instr::LdRR(Reg8::D, Reg8::C)),
        0x52 => Some(Instr::LdRR(Reg8::D, Reg8::D)),
        0x53 => Some(Instr::LdRR(Reg8::D, Reg8::E)),
        0x54 => Some(Instr::LdRR(Reg8::D, Reg8::H)),
        0x55 => Some(Instr::LdRR(Reg8::D, Reg8::L)),
        0x56 => Some(Instr::LdRMr(Reg8::D, Reg16::HL)),
        0x57 => Some(Instr::LdRR(Reg8::D, Reg8::A)),
        0x58 => Some(Instr::LdRR(Reg8::E, Reg8::B)),
        0x59 => Some(Instr::LdRR(Reg8::E, Reg8::C)),
        0x5A => Some(Instr::LdRR(Reg8::E, Reg8::D)),
        0x5B => Some(Instr::LdRR(Reg8::E, Reg8::E)),
        0x5C => Some(Instr::LdRR(Reg8::E, Reg8::H)),
        0x5D => Some(Instr::LdRR(Reg8::E, Reg8::L)),
        0x5E => Some(Instr::LdRMr(Reg8::E, Reg16::HL)),
        0x5F => Some(Instr::LdRR(Reg8::E, Reg8::A)),
        0x60 => Some(Instr::LdRR(Reg8::H, Reg8::B)),
        0x61 => Some(Instr::LdRR(Reg8::H, Reg8::C)),
        0x62 => Some(Instr::LdRR(Reg8::H, Reg8::D)),
        0x63 => Some(Instr::LdRR(Reg8::H, Reg8::E)),
        0x64 => Some(Instr::LdRR(Reg8::H, Reg8::H)),
        0x65 => Some(Instr::LdRR(Reg8::H, Reg8::L)),
        0x66 => Some(Instr::LdRMr(Reg8::H, Reg16::HL)),
        0x67 => Some(Instr::LdRR(Reg8::H, Reg8::A)),
        0x68 => Some(Instr::LdRR(Reg8::L, Reg8::B)),
        0x69 => Some(Instr::LdRR(Reg8::L, Reg8::C)),
        0x6A => Some(Instr::LdRR(Reg8::L, Reg8::D)),
        0x6B => Some(Instr::LdRR(Reg8::L, Reg8::E)),
        0x6C => Some(Instr::LdRR(Reg8::L, Reg8::H)),
        0x6D => Some(Instr::LdRR(Reg8::L, Reg8::L)),
        0x6E => Some(Instr::LdRMr(Reg8::L, Reg16::HL)),
        0x6F => Some(Instr::LdRR(Reg8::L, Reg8::A)),
        0x70 => Some(Instr::LdMrR(Reg16::HL, Reg8::B)),
        0x71 => Some(Instr::LdMrR(Reg16::HL, Reg8::C)),
        0x72 => Some(Instr::LdMrR(Reg16::HL, Reg8::D)),
        0x73 => Some(Instr::LdMrR(Reg16::HL, Reg8::E)),
        0x74 => Some(Instr::LdMrR(Reg16::HL, Reg8::H)),
        0x75 => Some(Instr::LdMrR(Reg16::HL, Reg8::L)),
        0x76 => Some(Instr::Halt),
        0x77 => Some(Instr::LdMrR(Reg16::HL, Reg8::A)),
        0x78 => Some(Instr::LdRR(Reg8::A, Reg8::B)),
        0x79 => Some(Instr::LdRR(Reg8::A, Reg8::C)),
        0x7A => Some(Instr::LdRR(Reg8::A, Reg8::D)),
        0x7B => Some(Instr::LdRR(Reg8::A, Reg8::E)),
        0x7C => Some(Instr::LdRR(Reg8::A, Reg8::H)),
        0x7D => Some(Instr::LdRR(Reg8::A, Reg8::L)),
        0x7E => Some(Instr::LdRMr(Reg8::A, Reg16::HL)),
        0x7F => Some(Instr::LdRR(Reg8::A, Reg8::A)),
        0x80 => Some(Instr::Alu(AluOp::Add, Operand::Reg(Reg8::B))),
        0x81 => Some(Instr::Alu(AluOp::Add, Operand::Reg(Reg8::C))),
        0x82 => Some(Instr::Alu(AluOp::Add, Operand::Reg(Reg8::D))),
        0x83 => Some(Instr::Alu(AluOp::Add, Operand::Reg(Reg8::E))),
        0x84 => Some(Instr::Alu(AluOp::Add, Operand::Reg(Reg8::H))),
        0x85 => Some(Instr::Alu(AluOp::Add, Operand::Reg(Reg8::L))),
        0x86 => Some(Instr::Alu(AluOp::Add, Operand::AtHl)),
        0x87 => Some(Instr::Alu(AluOp::Add, Operand::Reg(Reg8::A))),
        0x88 => Some(Instr::Alu(AluOp::Adc, Operand::Reg(Reg8::B))),
        0x89 => Some(Instr::Alu(AluOp::Adc, Operand::Reg(Reg8::C))),
        0x8A => Some(Instr::Alu(AluOp::Adc, Operand::Reg(Reg8::D))),
        0x8B => Some(Instr::Alu(AluOp::Adc, Operand::Reg(Reg8::E))),
        0x8C => Some(Instr::Alu(AluOp::Adc, Operand::Reg(Reg8::H))),
        0x8D => Some(Instr::Alu(AluOp::Adc, Operand::Reg(Reg8::L))),
        0x8E => Some(Instr::Alu(AluOp::Adc, Operand::AtHl)),
        0x8F => Some(Instr::Alu(AluOp::Adc, Operand::Reg(Reg8::A))),
        0x90 => Some(Instr::Alu(AluOp::Sub, Operand::Reg(Reg8::B))),
        0x91 => Some(Instr::Alu(AluOp::Sub, Operand::Reg(Reg8::C))),
        0x92 => Some(Instr::Alu(AluOp::Sub, Operand::Reg(Reg8::D))),
        0x93 => Some(Instr::Alu(AluOp::Sub, Operand::Reg(Reg8::E))),
        0x94 => Some(Instr::Alu(AluOp::Sub, Operand::Reg(Reg8::H))),
        0x95 => Some(Instr::Alu(AluOp::Sub, Operand::Reg(Reg8::L))),
        0x96 => Some(Instr::Alu(AluOp::Sub, Operand::AtHl)),
        0x97 => Some(Instr::Alu(AluOp::Sub, Operand::Reg(Reg8::A))),
        0x98 => Some(Instr::Alu(AluOp::Sbc, Operand::Reg(Reg8::B))),
        0x99 => Some(Instr::Alu(AluOp::Sbc, Operand::Reg(Reg8::C))),
        0x9A => Some(Instr::Alu(AluOp::Sbc, Operand::Reg(Reg8::D))),
        0x9B => Some(Instr::Alu(AluOp::Sbc, Operand::Reg(Reg8::E))),
        0x9C => Some(Instr::Alu(AluOp::Sbc, Operand::Reg(Reg8::H))),
        0x9D => Some(Instr::Alu(AluOp::Sbc, Operand::Reg(Reg8::L))),
        0x9E => Some(Instr::Alu(AluOp::Sbc, Operand::AtHl)),
        0x9F => Some(Instr::Alu(AluOp::Sbc, Operand::Reg(Reg8::A))),
        0xA0 => Some(Instr::Alu(AluOp::And, Operand::Reg(Reg8::B))),
        0xA1 => Some(Instr::Alu(AluOp::And, Operand::Reg(Reg8::C))),
        0xA2 => Some(Instr::Alu(AluOp::And, Operand::Reg(Reg8::D))),
        0xA3 => Some(Instr::Alu(AluOp::And, Operand::Reg(Reg8::E))),
        0xA4 => Some(Instr::Alu(AluOp::And, Operand::Reg(Reg8::H))),
        0xA5 => Some(Instr::Alu(AluOp::And, Operand::Reg(Reg8::L))),
        0xA6 => Some(Instr::Alu(AluOp::And, Operand::AtHl)),
        0xA7 => Some(Instr::Alu(AluOp::And, Operand::Reg(Reg8::A))),
        0xA8 => Some(Instr::Alu(AluOp::Xor, Operand::Reg(Reg8::B))),
        0xA9 => Some(Instr::Alu(AluOp::Xor, Operand::Reg(Reg8::C))),
        0xAA => Some(Instr::Alu(AluOp::Xor, Operand::Reg(Reg8::D))),
        0xAB => Some(Instr::Alu(AluOp::Xor, Operand::Reg(Reg8::E))),
        0xAC => Some(Instr::Alu(AluOp::Xor, Operand::Reg(Reg8::H))),
        0xAD => Some(Instr::Alu(AluOp::Xor, Operand::Reg(Reg8::L))),
        0xAE => Some(Instr::Alu(AluOp::Xor, Operand::AtHl)),
        0xAF => Some(Instr::Alu(AluOp::Xor, Operand::Reg(Reg8::A))),
        0xB0 => Some(Instr::Alu(AluOp::Or, Operand::Reg(Reg8::B))),
        0xB1 => Some(Instr::Alu(AluOp::Or, Operand::Reg(Reg8::C))),
        0xB2 => Some(Instr::Alu(AluOp::Or, Operand::Reg(Reg8::D))),
        0xB3 => Some(Instr::Alu(AluOp::Or, Operand::Reg(Reg8::E))),
        0xB4 => Some(Instr::Alu(AluOp::Or, Operand::Reg(Reg8::H))),
        0xB5 => Some(Instr::Alu(AluOp::Or, Operand::Reg(Reg8::L))),
        0xB6 => Some(Instr::Alu(AluOp::Or, Operand::AtHl)),
        0xB7 => Some(Instr::Alu(AluOp::Or, Operand::Reg(Reg8::A))),
        0xB8 => Some(Instr::Alu(AluOp::Cp, Operand::Reg(Reg8::B))),
        0xB9 => Some(Instr::Alu(AluOp::Cp, Operand::Reg(Reg8::C))),
        0xBA => Some(Instr::Alu(AluOp::Cp, Operand::Reg(Reg8::D))),
        0xBB => Some(Instr::Alu(AluOp::Cp, Operand::Reg(Reg8::E))),
        0xBC => Some(Instr::Alu(AluOp::Cp, Operand::Reg(Reg8::H))),
        0xBD => Some(Instr::Alu(AluOp::Cp, Operand::Reg(Reg8::L))),
        0xBE => Some(Instr::Alu(AluOp::Cp, Operand::AtHl)),
        0xBF => Some(Instr::Alu(AluOp::Cp, Operand::Reg(Reg8::A))),
        0xC0 => Some(Instr::Ret(Cond::NZ)),
        0xC1 => Some(Instr::Pop(Reg16::BC)),
        0xC2 => Some(Instr::JpA16(Cond::NZ)),
        0xC3 => Some(Instr::JpA16(Cond::NONE)),
        0xC4 => Some(Instr::Call(Cond::NZ)),
        0xC5 => Some(Instr::Push(Reg16::BC)),
        0xC6 => Some(Instr::Alu(AluOp::Add, Operand::Immediate)),
        0xC7 => Some(Instr::Rst(0x00)),
        0xC8 => Some(Instr::Ret(Cond::Z)),
        0xC9 => Some(Instr::Ret(Cond::NONE)),
        0xCA => Some(Instr::JpA16(Cond::Z)),
        0xCB => Some(Instr::Cb),
        0xCC => Some(Instr::Call(Cond::Z)),
        0xCD => Some(Instr::Call(Cond::NONE)),
        0xCE => Some(Instr::Alu(AluOp::Adc, Operand::Immediate)),
        0xCF => Some(Instr::Rst(0x08)),
        0xD0 => Some(Instr::Ret(Cond::NC)),
        0xD1 => Some(Instr::Pop(Reg16::DE)),
        0xD2 => Some(Instr::JpA16(Cond::NC)),
        0xD3 => None,
        0xD4 => Some(Instr::Call(Cond::NC)),
        0xD5 => Some(Instr::Push(Reg16::DE)),
        0xD6 => Some(Instr::Alu(AluOp::Sub, Operand::Immediate)),
        0xD7 => Some(Instr::Rst(0x10)),
        0xD8 => Some(Instr::Ret(Cond::C)),
        0xD9 => Some(Instr::Reti),
        0xDA => Some(Instr::JpA16(Cond::C)),
        0xDB => None,
        0xDC => Some(Instr::Call(Cond::C)),
        0xDD => None,
        0xDE => Some(Instr::Alu(AluOp::Sbc, Operand::Immediate)),
        0xDF => Some(Instr::Rst(0x18)),
        0xE0 => Some(Instr::LdhA8A),
        0xE1 => Some(Instr::Pop(Reg16::HL)),
        0xE2 => Some(Instr::LdCA),
        0xE3 => None,
        0xE4 => None,
        0xE5 => Some(Instr::Push(Reg16::HL)),
        0xE6 => Some(Instr::Alu(AluOp::And, Operand::Immediate)),
        0xE7 => Some(Instr::Rst(0x20)),
        0xE8 => Some(Instr::AddSpE8),
        0xE9 => Some(Instr::JpHl),
        0xEA => Some(Instr::LdA16A),
        0xEB => None,
        0xEC => None,
        0xED => None,
        0xEE => Some(Instr::Alu(AluOp::Xor, Operand::Immediate)),
        0xEF => Some(Instr::Rst(0x28)),
        0xF0 => Some(Instr::LdhAA8),
        0xF1 => Some(Instr::Pop(Reg16::AF)),
        0xF2 => Some(Instr::LdAC),
        0xF3 => Some(Instr::Di),
        0xF4 => None,
        0xF5 => Some(Instr::Push(Reg16::AF)),
        0xF6 => Some(Instr::Alu(AluOp::Or, Operand::Immediate)),
        0xF7 => Some(Instr::Rst(0x30)),
        0xF8 => Some(Instr::LdHlSpE8),
        0xF9 => Some(Instr::LdSpHl),
        0xFA => Some(Instr::LdAA16),
        0xFB => Some(Instr::Ei),
        0xFC => None,
        0xFD => None,
        0xFE => Some(Instr::Alu(AluOp::Cp, Operand::Immediate)),
        0xFF => Some(Instr::Rst(0x38)),
    }
}

fn register_of(field: u8) -> (r: Reg8)
    requires
        field < 8,
    ensures
        r == reg_at(field as int),
{
    match field {
        0 => Reg8::B,
        1 => Reg8::C,
        2 => Reg8::D,
        3 => Reg8::E,
        4 => Reg8::H,
        5 => Reg8::L,
        _ => Reg8::A,
    }
}

fn shift_of(field: u8) -> (r: ShiftOp)
    requires
        field < 8,
    ensures
        r == shift_at(field as int),
{
    match field {
        0 => ShiftOp::Rlc,
        1 => ShiftOp::Rrc,
        2 => ShiftOp::Rl,
        3 => ShiftOp::Rr,
        4 => ShiftOp::Sla,
        5 => ShiftOp::Sra,
        6 => ShiftOp::Swap,
        _ => ShiftOp::Srl,
    }
}

/// Decodes the byte that follows the prefix.
pub fn decode_cb(op: u8) -> (r: CbInstr)
    ensures
        r == spec_decode_cb(op),
        r.bit < 8,
{
    proof {
        lemma_opcode_fields(op);
    }
    let bit_val: u8 = (op >> 3) & 0b111;
    let bit_op: u8 = (op >> 6) & 0b11;
    let operand: u8 = op & 0b111;
    let class = match bit_op {
        0 => CbClass::Shift(shift_of(bit_val)),
        1 => CbClass::TestBit,
        2 => CbClass::ResetBit,
        _ => CbClass::SetBit,
    };
    let target = if operand == 6 {
        Target::AtHl
    } else {
        Target::Reg(register_of(operand))
    };
    CbInstr { class, bit: bit_val, target }
}

} // verus!
