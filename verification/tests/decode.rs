use dmg_core::alu::{AluOp, ShiftOp};
use dmg_core::decode::{decode, decode_cb, CbClass, CbInstr, Instr, Operand, Target};
use dmg_core::registers::{Cond, Reg16, Reg8};

#[test]
fn eleven_bytes_select_nothing() {
    let illegal: [u8; 11] = [0xD3, 0xDB, 0xDD, 0xE3, 0xE4, 0xEB, 0xEC, 0xED, 0xF4, 0xFC, 0xFD];
    let mut count = 0;
    for op in 0u16..256 {
        let op = op as u8;
        if decode(op).is_none() {
            count += 1;
            assert!(illegal.contains(&op));
        }
    }
    assert_eq!(count, 11);
}

#[test]
fn loads_between_registers() {
    assert_eq!(decode(0x40), Some(Instr::LdRR(Reg8::B, Reg8::B)));
    assert_eq!(decode(0x41), Some(Instr::LdRR(Reg8::B, Reg8::C)));
    assert_eq!(decode(0x4F), Some(Instr::LdRR(Reg8::C, Reg8::A)));
    assert_eq!(decode(0x7F), Some(Instr::LdRR(Reg8::A, Reg8::A)));
    assert_eq!(decode(0x46), Some(Instr::LdRMr(Reg8::B, Reg16::HL)));
    assert_eq!(decode(0x7E), Some(Instr::LdRMr(Reg8::A, Reg16::HL)));
    assert_eq!(decode(0x70), Some(Instr::LdMrR(Reg16::HL, Reg8::B)));
    assert_eq!(decode(0x77), Some(Instr::LdMrR(Reg16::HL, Reg8::A)));
    assert_eq!(decode(0x76), Some(Instr::Halt));
}

#[test]
fn first_quarter() {
    assert_eq!(decode(0x00), Some(Instr::Nop));
    assert_eq!(decode(0x01), Some(Instr::LdR16N16(Reg16::BC)));
    assert_eq!(decode(0x31), Some(Instr::LdR16N16(Reg16::SP)));
    assert_eq!(decode(0x02), Some(Instr::LdMrR(Reg16::BC, Reg8::A)));
    assert_eq!(decode(0x1A), Some(Instr::LdRMr(Reg8::A, Reg16::DE)));
    assert_eq!(decode(0x22), Some(Instr::LdHliR(Reg8::A)));
    assert_eq!(decode(0x2A), Some(Instr::LdRHli(Reg8::A)));
    assert_eq!(decode(0x32), Some(Instr::LdHldR(Reg8::A)));
    assert_eq!(decode(0x3A), Some(Instr::LdRHld(Reg8::A)));
    assert_eq!(decode(0x08), Some(Instr::LdA16Sp));
    assert_eq!(decode(0x09), Some(Instr::AddR16R16(Reg16::HL, Reg16::BC)));
    assert_eq!(decode(0x39), Some(Instr::AddR16R16(Reg16::HL, Reg16::SP)));
    assert_eq!(decode(0x03), Some(Instr::IncR16(Reg16::BC)));
    assert_eq!(decode(0x3B), Some(Instr::DecR16(Reg16::SP)));
    assert_eq!(decode(0x04), Some(Instr::IncR8(Reg8::B)));
    assert_eq!(decode(0x3D), Some(Instr::DecR8(Reg8::A)));
    assert_eq!(decode(0x34), Some(Instr::IncMr(Reg16::HL)));
    assert_eq!(decode(0x35), Some(Instr::DecMr(Reg16::HL)));
    assert_eq!(decode(0x06), Some(Instr::LdR8N8(Reg8::B)));
    assert_eq!(decode(0x36), Some(Instr::LdMrN8(Reg16::HL)));
    assert_eq!(decode(0x10), Some(Instr::Stop));
    assert_eq!(decode(0x18), Some(Instr::Jr(Cond::NONE)));
    assert_eq!(decode(0x20), Some(Instr::Jr(Cond::NZ)));
    assert_eq!(decode(0x28), Some(Instr::Jr(Cond::Z)));
    assert_eq!(decode(0x30), Some(Instr::Jr(Cond::NC)));
    assert_eq!(decode(0x38), Some(Instr::Jr(Cond::C)));
    assert_eq!(decode(0x07), Some(Instr::Rlca));
    assert_eq!(decode(0x0F), Some(Instr::Rrca));
    assert_eq!(decode(0x17), Some(Instr::Rla));
    assert_eq!(decode(0x1F), Some(Instr::Rra));
    assert_eq!(decode(0x27), Some(Instr::Daa));
    assert_eq!(decode(0x2F), Some(Instr::Cpl));
    assert_eq!(decode(0x37), Some(Instr::Scf));
    assert_eq!(decode(0x3F), Some(Instr::Ccf));
}

#[test]
fn arithmetic_with_an_operand() {
    assert_eq!(decode(0x80), Some(Instr::Alu(AluOp::Add, Operand::Reg(Reg8::B))));
    assert_eq!(decode(0x86), Some(Instr::Alu(AluOp::Add, Operand::AtHl)));
    assert_eq!(decode(0x8F), Some(Instr::Alu(AluOp::Adc, Operand::Reg(Reg8::A))));
    assert_eq!(decode(0x90), Some(Instr::Alu(AluOp::Sub, Operand::Reg(Reg8::B))));
    assert_eq!(decode(0x9E), Some(Instr::Alu(AluOp::Sbc, Operand::AtHl)));
    assert_eq!(decode(0xA1), Some(Instr::Alu(AluOp::And, Operand::Reg(Reg8::C))));
    assert_eq!(decode(0xAF), Some(Instr::Alu(AluOp::Xor, Operand::Reg(Reg8::A))));
    assert_eq!(decode(0xB2), Some(Instr::Alu(AluOp::Or, Operand::Reg(Reg8::D))));
    assert_eq!(decode(0xBD), Some(Instr::Alu(AluOp::Cp, Operand::Reg(Reg8::L))));
    assert_eq!(decode(0xC6), Some(Instr::Alu(AluOp::Add, Operand::Immediate)));
    assert_eq!(decode(0xCE), Some(Instr::Alu(AluOp::Adc, Operand::Immediate)));
    assert_eq!(decode(0xD6), Some(Instr::Alu(AluOp::Sub, Operand::Immediate)));
    assert_eq!(decode(0xDE), Some(Instr::Alu(AluOp::Sbc, Operand::Immediate)));
    assert_eq!(decode(0xE6), Some(Instr::Alu(AluOp::And, Operand::Immediate)));
    assert_eq!(decode(0xEE), Some(Instr::Alu(AluOp::Xor, Operand::Immediate)));
    assert_eq!(decode(0xF6), Some(Instr::Alu(AluOp::Or, Operand::Immediate)));
    assert_eq!(decode(0xFE), Some(Instr::Alu(AluOp::Cp, Operand::Immediate)));
}

#[test]
fn last_quarter() {
    assert_eq!(decode(0xC0), Some(Instr::Ret(Cond::NZ)));
    assert_eq!(decode(0xC8), Some(Instr::Ret(Cond::Z)));
    assert_eq!(decode(0xD0), Some(Instr::Ret(Cond::NC)));
    assert_eq!(decode(0xD8), Some(Instr::Ret(Cond::C)));
    assert_eq!(decode(0xC9), Some(Instr::Ret(Cond::NONE)));
    assert_eq!(decode(0xD9), Some(Instr::Reti));
    assert_eq!(decode(0xC1), Some(Instr::Pop(Reg16::BC)));
    assert_eq!(decode(0xF1), Some(Instr::Pop(Reg16::AF)));
    assert_eq!(decode(0xC5), Some(Instr::Push(Reg16::BC)));
    assert_eq!(decode(0xF5), Some(Instr::Push(Reg16::AF)));
    assert_eq!(decode(0xC2), Some(Instr::JpA16(Cond::NZ)));
    assert_eq!(decode(0xC3), Some(Instr::JpA16(Cond::NONE)));
    assert_eq!(decode(0xDA), Some(Instr::JpA16(Cond::C)));
    assert_eq!(decode(0xE9), Some(Instr::JpHl));
    assert_eq!(decode(0xC4), Some(Instr::Call(Cond::NZ)));
    assert_eq!(decode(0xCC), Some(Instr::Call(Cond::Z)));
    assert_eq!(decode(0xCD), Some(Instr::Call(Cond::NONE)));
    assert_eq!(decode(0xDC), Some(Instr::Call(Cond::C)));
    assert_eq!(decode(0xCB), Some(Instr::Cb));
    assert_eq!(decode(0xE0), Some(Instr::LdhA8A));
    assert_eq!(decode(0xF0), Some(Instr::LdhAA8));
    assert_eq!(decode(0xE2), Some(Instr::LdCA));
    assert_eq!(decode(0xF2), Some(Instr::LdAC));
    assert_eq!(decode(0xEA), Some(Instr::LdA16A));
    assert_eq!(decode(0xFA), Some(Instr::LdAA16));
    assert_eq!(decode(0xE8), Some(Instr::AddSpE8));
    assert_eq!(decode(0xF8), Some(Instr::LdHlSpE8));
    assert_eq!(decode(0xF9), Some(Instr::LdSpHl));
    assert_eq!(decode(0xF3), Some(Instr::Di));
    assert_eq!(decode(0xFB), Some(Instr::Ei));
}

#[test]
fn restarts() {
    let targets: [(u8, u8); 8] = [
        (0xC7, 0x00),
        (0xCF, 0x08),
        (0xD7, 0x10),
        (0xDF, 0x18),
        (0xE7, 0x20),
        (0xEF, 0x28),
        (0xF7, 0x30),
        (0xFF, 0x38),
    ];
    for (op, lo) in targets {
        assert_eq!(decode(op), Some(Instr::Rst(lo)));
    }
}

#[test]
fn secondary_space() {
    assert_eq!(decode_cb(0x00), CbInstr { class: CbClass::Shift(ShiftOp::Rlc), bit: 0, target: Target::Reg(Reg8::B) });
    assert_eq!(decode_cb(0x0E), CbInstr { class: CbClass::Shift(ShiftOp::Rrc), bit: 1, target: Target::AtHl });
    assert_eq!(decode_cb(0x11), CbInstr { class: CbClass::Shift(ShiftOp::Rl), bit: 2, target: Target::Reg(Reg8::C) });
    assert_eq!(decode_cb(0x1A), CbInstr { class: CbClass::Shift(ShiftOp::Rr), bit: 3, target: Target::Reg(Reg8::D) });
    assert_eq!(decode_cb(0x23), CbInstr { class: CbClass::Shift(ShiftOp::Sla), bit: 4, target: Target::Reg(Reg8::E) });
    assert_eq!(decode_cb(0x2C), CbInstr { class: CbClass::Shift(ShiftOp::Sra), bit: 5, target: Target::Reg(Reg8::H) });
    assert_eq!(decode_cb(0x35), CbInstr { class: CbClass::Shift(ShiftOp::Swap), bit: 6, target: Target::Reg(Reg8::L) });
    assert_eq!(decode_cb(0x3F), CbInstr { class: CbClass::Shift(ShiftOp::Srl), bit: 7, target: Target::Reg(Reg8::A) });
    assert_eq!(decode_cb(0x40), CbInstr { class: CbClass::TestBit, bit: 0, target: Target::Reg(Reg8::B) });
    assert_eq!(decode_cb(0x7E), CbInstr { class: CbClass::TestBit, bit: 7, target: Target::AtHl });
    assert_eq!(decode_cb(0x87), CbInstr { class: CbClass::ResetBit, bit: 0, target: Target::Reg(Reg8::A) });
    assert_eq!(decode_cb(0xBE), CbInstr { class: CbClass::ResetBit, bit: 7, target: Target::AtHl });
    assert_eq!(decode_cb(0xC0), CbInstr { class: CbClass::SetBit, bit: 0, target: Target::Reg(Reg8::B) });
    assert_eq!(decode_cb(0xFF), CbInstr { class: CbClass::SetBit, bit: 7, target: Target::Reg(Reg8::A) });
}
