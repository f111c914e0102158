//! The machine as a mathematical object: its state, and what each
//! instruction and the interrupt controller make of it.
//!
//! Time is counted in machine cycles: one for each access to the bus and one
//! for each internal step of an instruction. A transition either ends in a
//! new state, or stops at the first access that the bus refuses, with
//! everything done before that access in place.

use vstd::prelude::*;
use crate::alu::{
    spec_add16, spec_add_sp, spec_alu8, spec_ccf, spec_cpl, spec_daa, spec_dec8, spec_inc8,
    spec_offset, spec_reset_bit, spec_rotate_a, spec_scf, spec_set_bit, spec_shift,
    spec_test_bit, AluOp, ShiftOp,
};
use crate::bus::BusState;
use crate::decode::{spec_decode, spec_decode_cb, CbClass, Instr, Operand, Target};
use crate::fault::Fault;
use crate::io::INTERRUPT_FLAG;
use crate::registers::{high, low, word, Cond, Reg16, Reg8, RegState};

verus! {

/// Whether the core runs.
#[derive(Clone, Copy, Debug, PartialEq, Eq, Structural)]
pub enum RunState {
    /// Instructions are fetched and executed.
    Running,
    /// Time passes and nothing is fetched, until an interrupt is pending.
    Halted,
    /// Nothing happens any more.
    Stopped,
}

/// What the core and the bus hold.
pub struct CpuState {
    pub reg: RegState,
    /// The interrupt master enable.
    pub ime: bool,
    /// An `EI` was executed and has not taken effect yet.
    pub ime_pending: bool,
    pub run: RunState,
    pub cycles: nat,
    pub bus: BusState,
}

/// A fault, and the state in which the machine stopped on it.
pub type Stop = (Fault, CpuState);

/// `w + 1` modulo 65536.
pub open spec fn inc16(w: u16) -> u16 {
    if w == 0xFFFF {
        0
    } else {
        (w + 1) as u16
    }
}

/// `w - 1` modulo 65536.
pub open spec fn dec16(w: u16) -> u16 {
    if w == 0 {
        0xFFFF
    } else {
        (w - 1) as u16
    }
}

/// The address `0xFF00 + offset` in the upper page.
pub open spec fn upper_page(offset: u8) -> u16 {
    (0xFF00 + offset) as u16
}

/// The interrupts that are both enabled and requested. There are five
/// sources; source `k` is bit `k` of the interrupt enable and interrupt flag
/// registers, and the three upper bits name no source.
pub open spec fn pending_interrupts(ie: u8, iflag: u8) -> u8 {
    ie & iflag & 0x1F
}

/// Whether a halted core wakes up: some bit is set in both registers.
pub open spec fn wakes(ie: u8, iflag: u8) -> bool {
    ie & iflag != 0
}

/// The pending source of the highest priority: the lowest bit that is set.
/// Meant for `pending != 0`.
pub open spec fn first_source(pending: u8) -> u8 {
    if pending & 0x01 != 0 {
        0
    } else if pending & 0x02 != 0 {
        1
    } else if pending & 0x04 != 0 {
        2
    } else if pending & 0x08 != 0 {
        3
    } else {
        4
    }
}

/// A lower bit has priority over a higher one: the source that is served is
/// pending, and no source below it is.
pub proof fn lemma_first_source(pending: u8)
    by (bit_vector)
    requires
        pending != 0,
        pending & 0xE0 == 0,
    ensures
        first_source(pending) < 5,
        pending & (1u8 << first_source(pending)) != 0,
        pending & (((1u8 << first_source(pending)) - 1) as u8) == 0,
{
}

/// The address at which the handler of source `k` starts.
pub open spec fn vector(k: u8) -> u16 {
    (0x40 + 8 * k) as u16
}

impl CpuState {
    /// The state after power-on, in front of the given bus.
    pub open spec fn power_on(bus: BusState) -> CpuState {
        CpuState {
            reg: RegState::power_on(),
            ime: false,
            ime_pending: false,
            run: RunState::Running,
            cycles: 0,
            bus,
        }
    }

    pub open spec fn tick(self, n: nat) -> CpuState {
        CpuState { cycles: self.cycles + n, ..self }
    }

    pub open spec fn with_reg(self, reg: RegState) -> CpuState {
        CpuState { reg, ..self }
    }

    pub open spec fn jump(self, pc: u16) -> CpuState {
        self.with_reg(RegState { pc, ..self.reg })
    }

    /// Reads one byte from the bus.
    pub open spec fn load(self, addr: u16) -> Result<(u8, CpuState), Stop> {
        match self.bus.read(addr) {
            Ok(v) => Ok((v, self.tick(1))),
            Err(e) => Err((e, self)),
        }
    }

    /// Writes one byte to the bus.
    pub open spec fn store(self, addr: u16, data: u8) -> Result<CpuState, Stop> {
        match self.bus.write(addr, data) {
            Ok(bus) => Ok(CpuState { bus, ..self }.tick(1)),
            Err(e) => Err((e, self)),
        }
    }

    /// Reads the byte at PC and moves PC past it.
    pub open spec fn fetch(self) -> Result<(u8, CpuState), Stop> {
        match self.load(self.reg.pc) {
            Ok((v, s)) => Ok((v, s.jump(inc16(self.reg.pc)))),
            Err(stop) => Err(stop),
        }
    }

    /// Reads the word at PC, low byte first, and moves PC past it.
    pub open spec fn fetch16(self) -> Result<(u16, CpuState), Stop> {
        match self.fetch() {
            Ok((lo, s)) => match s.fetch() {
                Ok((hi, t)) => Ok((word(hi, lo), t)),
                Err(stop) => Err(stop),
            },
            Err(stop) => Err(stop),
        }
    }

    /// Moves SP down by one and writes `data` there.
    pub open spec fn push(self, data: u8) -> Result<CpuState, Stop> {
        match self.store(dec16(self.reg.sp), data) {
            Ok(s) => Ok(s.with_reg(RegState { sp: dec16(self.reg.sp), ..s.reg })),
            Err(stop) => Err(stop),
        }
    }

    /// Reads the byte at SP and moves SP up by one.
    pub open spec fn pop(self) -> Result<(u8, CpuState), Stop> {
        match self.load(self.reg.sp) {
            Ok((v, s)) => Ok((v, s.with_reg(RegState { sp: inc16(self.reg.sp), ..s.reg }))),
            Err(stop) => Err(stop),
        }
    }

    /// Pushes the high byte of `w`, then the low byte.
    pub open spec fn push16(self, w: u16) -> Result<CpuState, Stop> {
        match self.push(high(w)) {
            Ok(s) => s.push(low(w)),
            Err(stop) => Err(stop),
        }
    }

    /// Pops a low byte, then a high byte.
    pub open spec fn pop16(self) -> Result<(u16, CpuState), Stop> {
        match self.pop() {
            Ok((lo, s)) => match s.pop() {
                Ok((hi, t)) => Ok((word(hi, lo), t)),
                Err(stop) => Err(stop),
            },
            Err(stop) => Err(stop),
        }
    }

    /// Reads an 8-bit operand.
    pub open spec fn operand(self, from: Operand) -> Result<(u8, CpuState), Stop> {
        match from {
            Operand::Reg(r) => Ok((self.reg.get8(r), self)),
            Operand::AtHl => self.load(self.reg.get16(Reg16::HL)),
            Operand::Immediate => self.fetch(),
        }
    }

    /// Reads the operand of an instruction of the secondary opcode space.
    pub open spec fn target(self, of: Target) -> Result<(u8, CpuState), Stop> {
        match of {
            Target::Reg(r) => Ok((self.reg.get8(r), self)),
            Target::AtHl => self.load(self.reg.get16(Reg16::HL)),
        }
    }

    /// Writes the operand of an instruction of the secondary opcode space.
    pub open spec fn set_target(self, of: Target, v: u8) -> Result<CpuState, Stop> {
        match of {
            Target::Reg(r) => Ok(self.with_reg(self.reg.set8(r, v))),
            Target::AtHl => self.store(self.reg.get16(Reg16::HL), v),
        }
    }

    #[verifier::opaque]
    pub open spec fn ld_r16_n16(self, r: Reg16) -> Result<CpuState, Stop> {
        match self.fetch16() {
            Ok((n16, s)) => Ok(s.with_reg(s.reg.set16(r, n16))),
            Err(stop) => Err(stop),
        }
    }

    #[verifier::opaque]
    pub open spec fn ld_r8_n8(self, r: Reg8) -> Result<CpuState, Stop> {
        match self.fetch() {
            Ok((n8, s)) => Ok(s.with_reg(s.reg.set8(r, n8))),
            Err(stop) => Err(stop),
        }
    }

    #[verifier::opaque]
    pub open spec fn ld_mr_r(self, mr: Reg16, r: Reg8) -> Result<CpuState, Stop> {
        self.store(self.reg.get16(mr), self.reg.get8(r))
    }

    #[verifier::opaque]
    pub open spec fn ld_r_mr(self, r: Reg8, mr: Reg16) -> Result<CpuState, Stop> {
        match self.load(self.reg.get16(mr)) {
            Ok((v, s)) => Ok(s.with_reg(s.reg.set8(r, v))),
            Err(stop) => Err(stop),
        }
    }

    #[verifier::opaque]
    pub open spec fn ld_r_r(self, r1: Reg8, r2: Reg8) -> Result<CpuState, Stop> {
        Ok(self.with_reg(self.reg.set8(r1, self.reg.get8(r2))))
    }

    #[verifier::opaque]
    pub open spec fn ld_sp_hl(self) -> Result<CpuState, Stop> {
        Ok(self.with_reg(RegState { sp: self.reg.get16(Reg16::HL), ..self.reg }).tick(1))
    }

    /// HL moves first, then the byte read goes to `r`.
    #[verifier::opaque]
    pub open spec fn ld_r_hli(self, r: Reg8) -> Result<CpuState, Stop> {
        let hl = self.reg.get16(Reg16::HL);
        match self.load(hl) {
            Ok((v, s)) => Ok(s.with_reg(s.reg.set16(Reg16::HL, inc16(hl)).set8(r, v))),
            Err(stop) => Err(stop),
        }
    }

    #[verifier::opaque]
    pub open spec fn ld_hli_r(self, r: Reg8) -> Result<CpuState, Stop> {
        let hl = self.reg.get16(Reg16::HL);
        match self.store(hl, self.reg.get8(r)) {
            Ok(s) => Ok(s.with_reg(s.reg.set16(Reg16::HL, inc16(hl)))),
            Err(stop) => Err(stop),
        }
    }

    #[verifier::opaque]
    pub open spec fn ld_hld_r(self, r: Reg8) -> Result<CpuState, Stop> {
        let hl = self.reg.get16(Reg16::HL);
        match self.store(hl, self.reg.get8(r)) {
            Ok(s) => Ok(s.with_reg(s.reg.set16(Reg16::HL, dec16(hl)))),
            Err(stop) => Err(stop),
        }
    }

    /// HL moves first, then the byte read goes to `r`.
    #[verifier::opaque]
    pub open spec fn ld_r_hld(self, r: Reg8) -> Result<CpuState, Stop> {
        let hl = self.reg.get16(Reg16::HL);
        match self.load(hl) {
            Ok((v, s)) => Ok(s.with_reg(s.reg.set16(Reg16::HL, dec16(hl)).set8(r, v))),
            Err(stop) => Err(stop),
        }
    }

    #[verifier::opaque]
    pub open spec fn ld_a16_a(self) -> Result<CpuState, Stop> {
        match self.fetch16() {
            Ok((a16, s)) => s.store(a16, s.reg.a),
            Err(stop) => Err(stop),
        }
    }

    #[verifier::opaque]
    pub open spec fn ld_a_a16(self) -> Result<CpuState, Stop> {
        match self.fetch16() {
            Ok((a16, s)) => match s.load(a16) {
                Ok((v, t)) => Ok(t.with_reg(RegState { a: v, ..t.reg })),
                Err(stop) => Err(stop),
            },
            Err(stop) => Err(stop),
        }
    }

    /// The low byte of SP goes to `a16`, the high byte to the address after.
    #[verifier::opaque]
    pub open spec fn ld_a16_sp(self) -> Result<CpuState, Stop> {
        match self.fetch16() {
            Ok((a16, s)) => match s.store(a16, low(s.reg.sp)) {
                Ok(t) => t.store(inc16(a16), high(t.reg.sp)),
                Err(stop) => Err(stop),
            },
            Err(stop) => Err(stop),
        }
    }

    #[verifier::opaque]
    pub open spec fn ld_mr_n8(self, mr: Reg16) -> Result<CpuState, Stop> {
        match self.fetch() {
            Ok((n8, s)) => s.store(s.reg.get16(mr), n8),
            Err(stop) => Err(stop),
        }
    }

    #[verifier::opaque]
    pub open spec fn ldh_a8_a(self) -> Result<CpuState, Stop> {
        match self.fetch() {
            Ok((a8, s)) => s.store(upper_page(a8), s.reg.a),
            Err(stop) => Err(stop),
        }
    }

    #[verifier::opaque]
    pub open spec fn ldh_a_a8(self) -> Result<CpuState, Stop> {
        match self.fetch() {
            Ok((a8, s)) => match s.load(upper_page(a8)) {
                Ok((v, t)) => Ok(t.with_reg(RegState { a: v, ..t.reg })),
                Err(stop) => Err(stop),
            },
            Err(stop) => Err(stop),
        }
    }

    #[verifier::opaque]
    pub open spec fn ld_a_c(self) -> Result<CpuState, Stop> {
        match self.load(upper_page(self.reg.c)) {
            Ok((v, s)) => Ok(s.with_reg(RegState { a: v, ..s.reg })),
            Err(stop) => Err(stop),
        }
    }

    #[verifier::opaque]
    pub open spec fn ld_c_a(self) -> Result<CpuState, Stop> {
        self.store(upper_page(self.reg.c), self.reg.a)
    }

    #[verifier::opaque]
    pub open spec fn ld_hl_sp_e8(self) -> Result<CpuState, Stop> {
        match self.fetch() {
            Ok((e8, s)) => {
                let out = spec_add_sp(s.reg.sp, e8);
                Ok(s.with_reg(s.reg.set16(Reg16::HL, out.value).with_flags(out.flags)).tick(1))
            },
            Err(stop) => Err(stop),
        }
    }

    #[verifier::opaque]
    pub open spec fn inc_r8(self, r: Reg8) -> Result<CpuState, Stop> {
        let out = spec_inc8(self.reg.get8(r), self.reg.flags);
        Ok(self.with_reg(self.reg.set8(r, out.value).with_flags(out.flags)))
    }

    #[verifier::opaque]
    pub open spec fn dec_r8(self, r: Reg8) -> Result<CpuState, Stop> {
        let out = spec_dec8(self.reg.get8(r), self.reg.flags);
        Ok(self.with_reg(self.reg.set8(r, out.value).with_flags(out.flags)))
    }

    #[verifier::opaque]
    pub open spec fn inc_r16(self, r: Reg16) -> Result<CpuState, Stop> {
        Ok(self.with_reg(self.reg.set16(r, inc16(self.reg.get16(r)))).tick(1))
    }

    #[verifier::opaque]
    pub open spec fn dec_r16(self, r: Reg16) -> Result<CpuState, Stop> {
        Ok(self.with_reg(self.reg.set16(r, dec16(self.reg.get16(r)))).tick(1))
    }

    #[verifier::opaque]
    pub open spec fn inc_mr(self, mr: Reg16) -> Result<CpuState, Stop> {
        let addr = self.reg.get16(mr);
        match self.load(addr) {
            Ok((v, s)) => {
                let out = spec_inc8(v, s.reg.flags);
                match s.store(addr, out.value) {
                    Ok(t) => Ok(t.with_reg(t.reg.with_flags(out.flags))),
                    Err(stop) => Err(stop),
                }
            },
            Err(stop) => Err(stop),
        }
    }

    #[verifier::opaque]
    pub open spec fn dec_mr(self, mr: Reg16) -> Result<CpuState, Stop> {
        let addr = self.reg.get16(mr);
        match self.load(addr) {
            Ok((v, s)) => {
                let out = spec_dec8(v, s.reg.flags);
                match s.store(addr, out.value) {
                    Ok(t) => Ok(t.with_reg(t.reg.with_flags(out.flags))),
                    Err(stop) => Err(stop),
                }
            },
            Err(stop) => Err(stop),
        }
    }

    /// An operation between the accumulator and an 8-bit operand.
    #[verifier::opaque]
    pub open spec fn alu(self, op: AluOp, from: Operand) -> Result<CpuState, Stop> {
        match self.operand(from) {
            Ok((v, s)) => {
                let out = spec_alu8(op, s.reg.a, v, s.reg.flags.c);
                Ok(s.with_reg(RegState { a: out.value, flags: out.flags, ..s.reg }))
            },
            Err(stop) => Err(stop),
        }
    }

    #[verifier::opaque]
    pub open spec fn add_r16_r16(self, r1: Reg16, r2: Reg16) -> Result<CpuState, Stop> {
        let out = spec_add16(self.reg.get16(r1), self.reg.get16(r2), self.reg.flags);
        Ok(self.with_reg(self.reg.set16(r1, out.value).with_flags(out.flags)).tick(1))
    }

    #[verifier::opaque]
    pub open spec fn add_sp_e8(self) -> Result<CpuState, Stop> {
        match self.fetch() {
            Ok((e8, s)) => {
                let out = spec_add_sp(s.reg.sp, e8);
                Ok(s.with_reg(RegState { sp: out.value, flags: out.flags, ..s.reg }).tick(2))
            },
            Err(stop) => Err(stop),
        }
    }

    /// `RLCA`, `RRCA`, `RLA` and `RRA`.
    #[verifier::opaque]
    pub open spec fn rotate_a(self, op: ShiftOp) -> Result<CpuState, Stop> {
        let out = spec_rotate_a(op, self.reg.a, self.reg.flags.c);
        Ok(self.with_reg(RegState { a: out.value, flags: out.flags, ..self.reg }))
    }

    #[verifier::opaque]
    pub open spec fn daa(self) -> Result<CpuState, Stop> {
        let out = spec_daa(self.reg.a, self.reg.flags);
        Ok(self.with_reg(RegState { a: out.value, flags: out.flags, ..self.reg }))
    }

    #[verifier::opaque]
    pub open spec fn cpl(self) -> Result<CpuState, Stop> {
        let out = spec_cpl(self.reg.a, self.reg.flags);
        Ok(self.with_reg(RegState { a: out.value, flags: out.flags, ..self.reg }))
    }

    #[verifier::opaque]
    pub open spec fn scf(self) -> Result<CpuState, Stop> {
        Ok(self.with_reg(self.reg.with_flags(spec_scf(self.reg.flags))))
    }

    #[verifier::opaque]
    pub open spec fn ccf(self) -> Result<CpuState, Stop> {
        Ok(self.with_reg(self.reg.with_flags(spec_ccf(self.reg.flags))))
    }

    /// The offset is read whether the jump is taken or not.
    #[verifier::opaque]
    pub open spec fn jr(self, cond: Cond) -> Result<CpuState, Stop> {
        match self.fetch() {
            Ok((e8, s)) => if s.reg.holds(cond) {
                Ok(s.jump(spec_offset(s.reg.pc, e8)).tick(1))
            } else {
                Ok(s)
            },
            Err(stop) => Err(stop),
        }
    }

    /// The target is read whether the jump is taken or not.
    #[verifier::opaque]
    pub open spec fn jp_a16(self, cond: Cond) -> Result<CpuState, Stop> {
        match self.fetch16() {
            Ok((a16, s)) => if s.reg.holds(cond) {
                Ok(s.jump(a16).tick(1))
            } else {
                Ok(s)
            },
            Err(stop) => Err(stop),
        }
    }

    #[verifier::opaque]
    pub open spec fn jp_hl(self) -> Result<CpuState, Stop> {
        Ok(self.jump(self.reg.get16(Reg16::HL)))
    }

    /// The target is read whether the call is taken or not. A call that is
    /// taken pushes the address of the instruction after it.
    #[verifier::opaque]
    pub open spec fn call(self, cond: Cond) -> Result<CpuState, Stop> {
        match self.fetch16() {
            Ok((a16, s)) => if s.reg.holds(cond) {
                match s.tick(1).push16(s.reg.pc) {
                    Ok(t) => Ok(t.jump(a16)),
                    Err(stop) => Err(stop),
                }
            } else {
                Ok(s)
            },
            Err(stop) => Err(stop),
        }
    }

    /// A conditional return takes one cycle to test its condition.
    #[verifier::opaque]
    pub open spec fn ret(self, cond: Cond) -> Result<CpuState, Stop> {
        let s = if cond == Cond::NONE {
            self
        } else {
            self.tick(1)
        };
        if s.reg.holds(cond) {
            match s.pop16() {
                Ok((pc, t)) => Ok(t.jump(pc).tick(1)),
                Err(stop) => Err(stop),
            }
        } else {
            Ok(s)
        }
    }

    /// A return that enables interrupts at once.
    #[verifier::opaque]
    pub open spec fn reti(self) -> Result<CpuState, Stop> {
        match self.ret(Cond::NONE) {
            Ok(s) => Ok(CpuState { ime: true, ..s }),
            Err(stop) => Err(stop),
        }
    }

    #[verifier::opaque]
    pub open spec fn rst(self, lo: u8) -> Result<CpuState, Stop> {
        match self.tick(1).push16(self.reg.pc) {
            Ok(s) => Ok(s.jump(lo as u16)),
            Err(stop) => Err(stop),
        }
    }

    #[verifier::opaque]
    pub open spec fn push_r16(self, r: Reg16) -> Result<CpuState, Stop> {
        self.tick(1).push16(self.reg.get16(r))
    }

    #[verifier::opaque]
    pub open spec fn pop_r16(self, r: Reg16) -> Result<CpuState, Stop> {
        match self.pop16() {
            Ok((w, s)) => Ok(s.with_reg(s.reg.set16(r, w))),
            Err(stop) => Err(stop),
        }
    }

    #[verifier::opaque]
    pub open spec fn halt(self) -> Result<CpuState, Stop> {
        Ok(CpuState { run: RunState::Halted, ..self })
    }

    /// The byte after the opcode is skipped, unread.
    #[verifier::opaque]
    pub open spec fn stop(self) -> Result<CpuState, Stop> {
        Ok(CpuState { run: RunState::Stopped, ..self.jump(inc16(self.reg.pc)) })
    }

    /// Interrupts are disabled at once, and an `EI` still pending is dropped.
    #[verifier::opaque]
    pub open spec fn di(self) -> Result<CpuState, Stop> {
        Ok(CpuState { ime: false, ime_pending: false, ..self })
    }

    /// Interrupts are enabled once the next instruction has completed.
    #[verifier::opaque]
    pub open spec fn ei(self) -> Result<CpuState, Stop> {
        Ok(CpuState { ime_pending: true, ..self })
    }

    /// An instruction of the secondary opcode space: its opcode is fetched,
    /// its operand read, and, unless it is a bit test, written back.
    #[verifier::opaque]
    pub open spec fn cb(self) -> Result<CpuState, Stop> {
        match self.fetch() {
            Ok((op, s)) => {
                let i = spec_decode_cb(op);
                match s.target(i.target) {
                    Ok((v, t)) => match i.class {
                        CbClass::Shift(sh) => {
                            let out = spec_shift(sh, v, t.reg.flags.c);
                            match t.set_target(i.target, out.value) {
                                Ok(u) => Ok(u.with_reg(u.reg.with_flags(out.flags))),
                                Err(stop) => Err(stop),
                            }
                        },
                        CbClass::TestBit => Ok(
                            t.with_reg(t.reg.with_flags(spec_test_bit(i.bit, v, t.reg.flags))),
                        ),
                        CbClass::ResetBit => t.set_target(i.target, spec_reset_bit(i.bit, v)),
                        CbClass::SetBit => t.set_target(i.target, spec_set_bit(i.bit, v)),
                    },
                    Err(stop) => Err(stop),
                }
            },
            Err(stop) => Err(stop),
        }
    }

    /// What the instruction `i` does, once its opcode has been fetched.
    #[verifier::opaque]
    pub open spec fn perform(self, i: Instr) -> Result<CpuState, Stop> {
        match i {
            Instr::Nop => Ok(self),
            Instr::Stop => self.stop(),
            Instr::Halt => self.halt(),
            Instr::Di => self.di(),
            Instr::Ei => self.ei(),
            Instr::LdR16N16(r) => self.ld_r16_n16(r),
            Instr::LdMrR(mr, r) => self.ld_mr_r(mr, r),
            Instr::LdRMr(r, mr) => self.ld_r_mr(r, mr),
            Instr::LdRR(r1, r2) => self.ld_r_r(r1, r2),
            Instr::LdR8N8(r) => self.ld_r8_n8(r),
            Instr::LdMrN8(mr) => self.ld_mr_n8(mr),
            Instr::LdHliR(r) => self.ld_hli_r(r),
            Instr::LdHldR(r) => self.ld_hld_r(r),
            Instr::LdRHli(r) => self.ld_r_hli(r),
            Instr::LdRHld(r) => self.ld_r_hld(r),
            Instr::LdA16Sp => self.ld_a16_sp(),
            Instr::LdA16A => self.ld_a16_a(),
            Instr::LdAA16 => self.ld_a_a16(),
            Instr::LdhA8A => self.ldh_a8_a(),
            Instr::LdhAA8 => self.ldh_a_a8(),
            Instr::LdCA => self.ld_c_a(),
            Instr::LdAC => self.ld_a_c(),
            Instr::LdHlSpE8 => self.ld_hl_sp_e8(),
            Instr::LdSpHl => self.ld_sp_hl(),
            Instr::IncR8(r) => self.inc_r8(r),
            Instr::DecR8(r) => self.dec_r8(r),
            Instr::IncR16(r) => self.inc_r16(r),
            Instr::DecR16(r) => self.dec_r16(r),
            Instr::IncMr(mr) => self.inc_mr(mr),
            Instr::DecMr(mr) => self.dec_mr(mr),
            Instr::Alu(op, from) => self.alu(op, from),
            Instr::AddR16R16(r1, r2) => self.add_r16_r16(r1, r2),
            Instr::AddSpE8 => self.add_sp_e8(),
            Instr::Rlca => self.rotate_a(ShiftOp::Rlc),
            Instr::Rrca => self.rotate_a(ShiftOp::Rrc),
            Instr::Rla => self.rotate_a(ShiftOp::Rl),
            Instr::Rra => self.rotate_a(ShiftOp::Rr),
            Instr::Daa => self.daa(),
            Instr::Cpl => self.cpl(),
            Instr::Scf => self.scf(),
            Instr::Ccf => self.ccf(),
            Instr::Jr(cond) => self.jr(cond),
            Instr::JpA16(cond) => self.jp_a16(cond),
            Instr::JpHl => self.jp_hl(),
            Instr::Call(cond) => self.call(cond),
            Instr::Ret(cond) => self.ret(cond),
            Instr::Reti => self.reti(),
            Instr::Rst(lo) => self.rst(lo),
            Instr::Push(r) => self.push_r16(r),
            Instr::Pop(r) => self.pop_r16(r),
            Instr::Cb => self.cb(),
        }
    }

    /// What the instruction that `opcode` selects does, once `opcode` has
    /// been fetched. A byte that selects nothing stops the machine; the
    /// fault names the address that the byte was fetched from.
    #[verifier::opaque]
    pub open spec fn execute(self, opcode: u8) -> Result<CpuState, Stop> {
        match spec_decode(opcode) {
            Some(i) => self.perform(i),
            None => Err((Fault::IllegalOpcode { opcode, pc: dec16(self.reg.pc) }, self)),
        }
    }

    /// An `EI` that was pending before an instruction takes effect when the
    /// instruction has completed, unless the instruction dropped it.
    pub open spec fn settle(self, was_pending: bool) -> CpuState {
        if was_pending && self.ime_pending {
            CpuState { ime: true, ime_pending: false, ..self }
        } else {
            self
        }
    }

    /// One instruction: fetch, decode, execute.
    #[verifier::opaque]
    pub open spec fn step(self) -> Result<CpuState, Stop> {
        match self.fetch() {
            Ok((opcode, s)) => match s.execute(opcode) {
                Ok(t) => Ok(t.settle(self.ime_pending)),
                Err(stop) => Err(stop),
            },
            Err(stop) => Err(stop),
        }
    }

    /// The interrupts that are both enabled and requested.
    pub open spec fn pending(self) -> u8 {
        pending_interrupts(self.bus.ie, self.bus.io.interrupt_flag)
    }

    /// A halted core wakes up when a bit is set in both the interrupt enable
    /// and the interrupt flag register, whether
    /// interrupts are enabled or not.
    pub open spec fn wake(self) -> CpuState {
        if self.run == RunState::Halted && wakes(self.bus.ie, self.bus.io.interrupt_flag) {
            CpuState { run: RunState::Running, ..self }
        } else {
            self
        }
    }

    /// Whether the controller dispatches an interrupt in this state.
    pub open spec fn dispatches(self) -> bool {
        self.run != RunState::Stopped && self.ime && self.pending() != 0
    }

    /// The dispatch of the pending interrupt of the highest priority: PC is
    /// pushed, the request and the master enable are cleared, and PC goes to
    /// the vector of the source. The two pushes are two of the five cycles.
    pub open spec fn dispatch(self) -> Result<CpuState, Stop> {
        let k = first_source(self.pending());
        match self.push16(self.reg.pc) {
            Ok(s) => Ok(
                CpuState {
                    ime: false,
                    bus: BusState {
                        io: s.bus.io.write(
                            INTERRUPT_FLAG,
                            s.bus.io.interrupt_flag & !(1u8 << k),
                        ),
                        ..s.bus
                    },
                    ..s.jump(vector(k)).tick(3)
                },
            ),
            Err(stop) => Err(stop),
        }
    }

    /// One invocation of the interrupt controller. It serves at most one
    /// interrupt. A stopped core is left alone.
    #[verifier::opaque]
    pub open spec fn service(self) -> Result<CpuState, Stop> {
        if self.run == RunState::Stopped {
            Ok(self)
        } else if self.wake().dispatches() {
            self.wake().dispatch()
        } else {
            Ok(self.wake())
        }
    }

    /// One turn of the run loop: an instruction, or a cycle of waiting where
    /// the core is halted, and then the interrupt controller. A stopped core
    /// does nothing.
    pub open spec fn run_once(self) -> Result<CpuState, Stop> {
        match self.run {
            RunState::Stopped => Ok(self),
            RunState::Halted => self.tick(1).service(),
            RunState::Running => match self.step() {
                Ok(s) => s.service(),
                Err(stop) => Err(stop),
            },
        }
    }
}

} // verus!
