use dmg_core::registers::{Cond, Flags, Reg16, Reg8, Registers};

#[test]
fn power_on_values() {
    let r = Registers::new();
    assert_eq!(r.get_reg8(Reg8::A), 0x01);
    assert_eq!(r.get_reg8(Reg8::F), 0xB0);
    assert_eq!(r.get_reg8(Reg8::B), 0x00);
    assert_eq!(r.get_reg8(Reg8::C), 0x13);
    assert_eq!(r.get_reg8(Reg8::D), 0x00);
    assert_eq!(r.get_reg8(Reg8::E), 0xD8);
    assert_eq!(r.get_reg8(Reg8::H), 0x01);
    assert_eq!(r.get_reg8(Reg8::L), 0x4D);
    assert_eq!(r.get_reg16(Reg16::AF), 0x01B0);
    assert_eq!(r.get_reg16(Reg16::BC), 0x0013);
    assert_eq!(r.get_reg16(Reg16::DE), 0x00D8);
    assert_eq!(r.get_reg16(Reg16::HL), 0x014D);
    assert_eq!(r.get_reg16(Reg16::SP), 0xFFFE);
    assert_eq!(r.get_reg16(Reg16::PC), 0x0100);
}

#[test]
fn power_on_flags() {
    let r = Registers::new();
    assert!(r.get_z());
    assert!(!r.get_n());
    assert!(r.get_h());
    assert!(r.get_c());
    assert_eq!(r.flags(), Flags { z: true, n: false, h: true, c: true });
}

#[test]
fn pair_round_trip_for_every_pair_and_value() {
    let pairs = [Reg16::AF, Reg16::BC, Reg16::DE, Reg16::HL, Reg16::SP, Reg16::PC];
    for pair in pairs {
        let mut r = Registers::new();
        for v in 0u32..0x1_0000 {
            let v = v as u16;
            r.set_reg16(pair, v);
            if pair == Reg16::AF {
                assert_eq!(r.get_reg16(pair), v & 0xFFF0);
            } else {
                assert_eq!(r.get_reg16(pair), v);
            }
        }
    }
}

#[test]
fn pair_round_trip_keeps_every_bit_outside_af() {
    let pairs = [Reg16::BC, Reg16::DE, Reg16::HL, Reg16::SP, Reg16::PC];
    for pair in pairs {
        let mut r = Registers::new();
        r.set_reg16(pair, 0xBEEF);
        assert_eq!(r.get_reg16(pair), 0xBEEF);
        r.set_reg16(pair, 0x1234);
        assert_eq!(r.get_reg16(pair), 0x1234);
    }
}

#[test]
fn af_drops_the_low_nibble() {
    let mut r = Registers::new();
    r.set_reg16(Reg16::AF, 0x12FF);
    assert_eq!(r.get_reg16(Reg16::AF), 0x12F0);
    assert_eq!(r.get_af(), 0x12F0);
    assert_eq!(r.get_reg8(Reg8::A), 0x12);
    assert_eq!(r.get_reg8(Reg8::F), 0xF0);
    r.set_af(0x340F);
    assert_eq!(r.get_af(), 0x3400);
}

#[test]
fn pairs_are_views_of_the_cells() {
    let mut r = Registers::new();
    r.set_bc(0xA1B2);
    r.set_de(0xC3D4);
    r.set_hl(0xE5F6);
    assert_eq!(r.get_reg8(Reg8::B), 0xA1);
    assert_eq!(r.get_reg8(Reg8::C), 0xB2);
    assert_eq!(r.get_reg8(Reg8::D), 0xC3);
    assert_eq!(r.get_reg8(Reg8::E), 0xD4);
    assert_eq!(r.get_reg8(Reg8::H), 0xE5);
    assert_eq!(r.get_reg8(Reg8::L), 0xF6);
    r.set_reg8(Reg8::B, 0x11);
    r.set_reg8(Reg8::E, 0x22);
    r.set_reg8(Reg8::L, 0x33);
    assert_eq!(r.get_bc(), 0x11B2);
    assert_eq!(r.get_de(), 0xC322);
    assert_eq!(r.get_hl(), 0xE533);
}

#[test]
fn writing_f_keeps_the_low_nibble_zero() {
    let mut r = Registers::new();
    r.set_reg8(Reg8::F, 0xFF);
    assert_eq!(r.get_reg8(Reg8::F), 0xF0);
    r.set_reg8(Reg8::F, 0x0F);
    assert_eq!(r.get_reg8(Reg8::F), 0x00);
    r.set_reg8(Reg8::F, 0x5A);
    assert_eq!(r.get_reg8(Reg8::F), 0x50);
    assert!(!r.get_z());
    assert!(r.get_n());
    assert!(!r.get_h());
    assert!(r.get_c());
}

#[test]
fn each_flag_is_set_alone() {
    let mut r = Registers::new();
    r.set_reg8(Reg8::F, 0x00);
    r.set_z(true);
    assert_eq!(r.get_reg8(Reg8::F), 0x80);
    r.set_n(true);
    assert_eq!(r.get_reg8(Reg8::F), 0xC0);
    r.set_h(true);
    assert_eq!(r.get_reg8(Reg8::F), 0xE0);
    r.set_c(true);
    assert_eq!(r.get_reg8(Reg8::F), 0xF0);
    r.set_z(false);
    assert_eq!(r.get_reg8(Reg8::F), 0x70);
    r.set_n(false);
    assert_eq!(r.get_reg8(Reg8::F), 0x30);
    r.set_h(false);
    assert_eq!(r.get_reg8(Reg8::F), 0x10);
    r.set_c(false);
    assert_eq!(r.get_reg8(Reg8::F), 0x00);
}

#[test]
fn flag_writes_leave_the_low_nibble_zero() {
    for bits in 0u8..16 {
        let mut r = Registers::new();
        r.set_flags(Flags { z: bits & 8 != 0, n: bits & 4 != 0, h: bits & 2 != 0, c: bits & 1 != 0 });
        assert_eq!(r.get_reg8(Reg8::F) & 0x0F, 0);
        assert_eq!(r.get_reg8(Reg8::F), bits << 4);
        assert_eq!(r.get_z(), bits & 8 != 0);
        assert_eq!(r.get_n(), bits & 4 != 0);
        assert_eq!(r.get_h(), bits & 2 != 0);
        assert_eq!(r.get_c(), bits & 1 != 0);
    }
}

#[test]
fn conditions_follow_the_flags() {
    let mut r = Registers::new();
    r.set_flags(Flags { z: true, n: false, h: false, c: false });
    assert!(r.test(Cond::Z));
    assert!(!r.test(Cond::NZ));
    assert!(r.test(Cond::NC));
    assert!(!r.test(Cond::C));
    assert!(r.test(Cond::NONE));
    r.set_flags(Flags { z: false, n: false, h: false, c: true });
    assert!(!r.test(Cond::Z));
    assert!(r.test(Cond::NZ));
    assert!(!r.test(Cond::NC));
    assert!(r.test(Cond::C));
    assert!(r.test(Cond::NONE));
}
