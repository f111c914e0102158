//! The core: fetch, decode, execute, and the interrupt controller.
//!
//! Every function here is an implementation of the transition of the same
//! name in `machine`, and its contract says so. A function that returns an
//! error leaves the core in the state in which the transition stopped.
//!
//! One hardware quirk is left out: a `HALT` executed while interrupts are
//! disabled and one is already pending does not make the following opcode
//! byte execute twice.

use vstd::prelude::*;
use crate::alu::{
    add16, add_sp, alu8, ccf, cpl, daa, dec8, inc8, offset, reset_bit, rotate_a, scf, set_bit,
    shift, test_bit, AluOp, ShiftOp,
};
use crate::bus::Bus;
use crate::decode::{decode, decode_cb, CbClass, Group, Instr, Operand, Target};
use crate::fault::Fault;
use crate::io::INTERRUPT_FLAG;
use crate::machine::{CpuState, RunState, Stop};
use crate::registers::{Cond, Reg16, Reg8, Registers};

verus! {

/// The largest cycle count from which a turn of the run loop still fits in
/// the counter.
pub const CYCLE_LIMIT: u64 = 0xFFFF_FFFF_FFFF_FFF4;

/// What a trace of the run records of an instruction: the opcode, and the
/// registers as they were when it had been fetched.
#[derive(Clone, Copy, Debug)]
pub struct Trace {
    pub opcode: u8,
    pub regs: Registers,
}

/// What a step or a turn of the run loop hands back.
#[derive(Clone, Copy, Debug)]
pub struct Report {
    /// The instruction that was fetched, if one was. It is there whether the
    /// instruction completed or not.
    pub trace: Option<Trace>,
    /// Whether the step completed, or the fault on which it stopped.
    pub result: Result<(), Fault>,
}

/// The core, with the bus that it owns.
pub struct CPU {
    reg: Registers,
    ime: bool,
    ime_pending: bool,
    state: RunState,
    bus: Bus,
    cycles: u64,
}

impl View for CPU {
    type V = CpuState;

    closed spec fn view(&self) -> CpuState {
        CpuState {
            reg: self.reg@,
            ime: self.ime,
            ime_pending: self.ime_pending,
            run: self.state,
            cycles: self.cycles as nat,
            bus: self.bus@,
        }
    }
}

/// Whether a function that returned `r` and left the state `after` did what
/// the transition `expected` says.
pub open spec fn agrees(expected: Result<CpuState, Stop>, r: Result<(), Fault>, after: CpuState)
    -> bool {
    match expected {
        Ok(s) => r is Ok && after == s,
        Err((e, s)) => r == Err::<(), Fault>(e) && after == s,
    }
}

/// As `agrees`, for a transition that also reads a value.
pub open spec fn yields<T>(
    expected: Result<(T, CpuState), Stop>,
    r: Result<T, Fault>,
    after: CpuState,
) -> bool {
    match expected {
        Ok((v, s)) => r == Ok::<T, Fault>(v) && after == s,
        Err((e, s)) => r == Err::<T, Fault>(e) && after == s,
    }
}

/// Whether `trace` shows the instruction that is fetched in the state
/// `before`: its opcode, and the registers once the opcode has been fetched.
/// Where the fetch fails there is nothing to show.
pub open spec fn traced(before: CpuState, trace: Option<Trace>) -> bool {
    match before.fetch() {
        Ok((opcode, fetched)) => trace matches Some(t) && t.opcode == opcode && t.regs@
            == fetched.reg,
        Err(_) => trace is None,
    }
}

/// Whether the way from `before` to `after` took at most `n` cycles, and did
/// not turn the counter back.
pub open spec fn took(before: CpuState, after: CpuState, n: nat) -> bool {
    before.cycles <= after.cycles <= before.cycles + n
}

/// Whether `n` more cycles fit in the counter.
pub open spec fn room(s: CpuState, n: nat) -> bool {
    s.cycles + n <= u64::MAX
}

impl CPU {
    /// A core in its power-on state that owns `bus_in`.
    pub fn new(bus_in: Bus) -> (cpu: Self)
        ensures
            cpu@ == CpuState::power_on(bus_in@),
    {
        Self {
            reg: Registers::new(),
            ime: false,
            ime_pending: false,
            state: RunState::Running,
            bus: bus_in,
            cycles: 0,
        }
    }

    /// The sizes of the memories behind the bus are fixed.
    pub proof fn lemma_wf(&self)
        ensures
            self@.bus.wf(),
    {
        self.bus.lemma_wf();
    }

    /// The registers.
    pub fn registers(&self) -> (r: Registers)
        ensures
            r@ == self@.reg,
    {
        self.reg
    }

    /// Replaces the registers.
    pub fn set_registers(&mut self, regs: Registers)
        ensures
            final(self)@ == old(self)@.with_reg(regs@),
    {
        self.reg = regs;
    }

    /// The interrupt master enable.
    pub fn ime(&self) -> (r: bool)
        ensures
            r == self@.ime,
    {
        self.ime
    }

    /// Sets the interrupt master enable at once.
    pub fn set_ime(&mut self, on: bool)
        ensures
            final(self)@ == (CpuState { ime: on, ..old(self)@ }),
    {
        self.ime = on;
    }

    /// Whether the core is halted.
    pub fn halted(&self) -> (r: bool)
        ensures
            r == (self@.run == RunState::Halted),
    {
        self.state == RunState::Halted
    }

    /// Whether the core runs, is halted or has stopped.
    pub fn state(&self) -> (r: RunState)
        ensures
            r == self@.run,
    {
        self.state
    }

    /// The number of machine cycles counted so far.
    pub fn cycles(&self) -> (r: u64)
        ensures
            r == self@.cycles,
    {
        self.cycles
    }

    /// Reads from the bus without counting a cycle.
    pub fn peek(&mut self, addr: u16) -> (r: Result<u8, Fault>)
        ensures
            r == old(self)@.bus.read(addr),
            final(self)@ == old(self)@,
    {
        self.bus.read(addr)
    }

    /// Writes to the bus without counting a cycle.
    pub fn poke(&mut self, addr: u16, data: u8) -> (r: Result<(), Fault>)
        ensures
            match old(self)@.bus.write(addr, data) {
                Ok(bus) => r is Ok && final(self)@ == (CpuState { bus, ..old(self)@ }),
                Err(e) => r == Err::<(), Fault>(e) && final(self)@ == old(self)@,
            },
    {
        self.bus.write(addr, data)
    }

    fn clock_tick(&mut self)
        requires
            room(old(self)@, 1),
        ensures
            final(self)@ == old(self)@.tick(1),
    {
        self.cycles += 1;
    }

    fn load(&mut self, addr: u16) -> (r: Result<u8, Fault>)
        requires
            room(old(self)@, 1),
        ensures
            yields(old(self)@.load(addr), r, final(self)@),
            took(old(self)@, final(self)@, 1),
    {
        let v: u8 = self.bus.read(addr)?;
        self.clock_tick();
        Ok(v)
    }

    fn store(&mut self, addr: u16, data: u8) -> (r: Result<(), Fault>)
        requires
            room(old(self)@, 1),
        ensures
            agrees(old(self)@.store(addr, data), r, final(self)@),
            took(old(self)@, final(self)@, 1),
    {
        self.bus.write(addr, data)?;
        self.clock_tick();
        Ok(())
    }

    /// Reads the byte at PC and moves PC past it.
    fn fetch(&mut self) -> (r: Result<u8, Fault>)
        requires
            room(old(self)@, 1),
        ensures
            yields(old(self)@.fetch(), r, final(self)@),
            took(old(self)@, final(self)@, 1),
    {
        let pc: u16 = self.reg.get_reg16(Reg16::PC);
        let op: u8 = self.load(pc)?;
        self.reg.set_reg16(Reg16::PC, pc.wrapping_add(1));
        Ok(op)
    }

    fn fetch16(&mut self) -> (r: Result<u16, Fault>)
        requires
            room(old(self)@, 2),
        ensures
            yields(old(self)@.fetch16(), r, final(self)@),
            took(old(self)@, final(self)@, 2),
    {
        let lo: u8 = self.fetch()?;
        let hi: u8 = self.fetch()?;
        proof {
            crate::bits::lemma_word_fields(hi, lo, 0);
        }
        Ok((hi as u16) << 8 | lo as u16)
    }

    fn stkpush(&mut self, data: u8) -> (r: Result<(), Fault>)
        requires
            room(old(self)@, 1),
        ensures
            agrees(old(self)@.push(data), r, final(self)@),
            took(old(self)@, final(self)@, 1),
    {
        let sp: u16 = self.reg.get_reg16(Reg16::SP).wrapping_sub(1);
        self.store(sp, data)?;
        self.reg.set_reg16(Reg16::SP, sp);
        Ok(())
    }

    fn stkpop(&mut self) -> (r: Result<u8, Fault>)
        requires
            room(old(self)@, 1),
        ensures
            yields(old(self)@.pop(), r, final(self)@),
            took(old(self)@, final(self)@, 1),
    {
        let sp: u16 = self.reg.get_reg16(Reg16::SP);
        let val: u8 = self.load(sp)?;
        self.reg.set_reg16(Reg16::SP, sp.wrapping_add(1));
        Ok(val)
    }

    fn push16(&mut self, w: u16) -> (r: Result<(), Fault>)
        requires
            room(old(self)@, 2),
        ensures
            agrees(old(self)@.push16(w), r, final(self)@),
            took(old(self)@, final(self)@, 2),
    {
        proof {
            crate::bits::lemma_word_fields(0, 0, w);
        }
        let hi: u8 = (w >> 8) as u8;
        let lo: u8 = (w & 0x00FF) as u8;
        self.stkpush(hi)?;
        self.stkpush(lo)
    }

    fn pop16(&mut self) -> (r: Result<u16, Fault>)
        requires
            room(old(self)@, 2),
        ensures
            yields(old(self)@.pop16(), r, final(self)@),
            took(old(self)@, final(self)@, 2),
    {
        let lo: u8 = self.stkpop()?;
        let hi: u8 = self.stkpop()?;
        proof {
            crate::bits::lemma_word_fields(hi, lo, 0);
        }
        Ok((hi as u16) << 8 | lo as u16)
    }

    fn operand(&mut self, from: Operand) -> (r: Result<u8, Fault>)
        requires
            room(old(self)@, 1),
        ensures
            yields(old(self)@.operand(from), r, final(self)@),
            took(old(self)@, final(self)@, 1),
    {
        match from {
            Operand::Reg(reg) => Ok(self.reg.get_reg8(reg)),
            Operand::AtHl => {
                let hl: u16 = self.reg.get_hl();
                self.load(hl)
            },
            Operand::Immediate => self.fetch(),
        }
    }

    fn target(&mut self, of: Target) -> (r: Result<u8, Fault>)
        requires
            room(old(self)@, 1),
        ensures
            yields(old(self)@.target(of), r, final(self)@),
            took(old(self)@, final(self)@, 1),
    {
        match of {
            Target::Reg(reg) => Ok(self.reg.get_reg8(reg)),
            Target::AtHl => {
                let hl: u16 = self.reg.get_hl();
                self.load(hl)
            },
        }
    }

    fn set_reg_cb(&mut self, of: Target, val: u8) -> (r: Result<(), Fault>)
        requires
            room(old(self)@, 1),
        ensures
            agrees(old(self)@.set_target(of, val), r, final(self)@),
            took(old(self)@, final(self)@, 1),
    {
        match of {
            Target::Reg(reg) => {
                self.reg.set_reg8(reg, val);
                Ok(())
            },
            Target::AtHl => {
                let hl: u16 = self.reg.get_hl();
                self.store(hl, val)
            },
        }
    }

    /// The address `0xFF00 + offset`.
    fn upper_page(offset: u8) -> (r: u16)
        ensures
            r == crate::machine::upper_page(offset),
    {
        0xFF00 + offset as u16
    }

    fn ld_r16_n16(&mut self, r: Reg16) -> (res: Result<(), Fault>)
        requires
            room(old(self)@, 2),
        ensures
            agrees(old(self)@.ld_r16_n16(r), res, final(self)@),
            took(old(self)@, final(self)@, 2),
    {
        proof {
            reveal(CpuState::ld_r16_n16);
        }
        let n16: u16 = self.fetch16()?;
        self.reg.set_reg16(r, n16);
        Ok(())
    }

    fn ld_r8_n8(&mut self, r: Reg8) -> (res: Result<(), Fault>)
        requires
            room(old(self)@, 1),
        ensures
            agrees(old(self)@.ld_r8_n8(r), res, final(self)@),
            took(old(self)@, final(self)@, 1),
    {
        proof {
            reveal(CpuState::ld_r8_n8);
        }
        let data: u8 = self.fetch()?;
        self.reg.set_reg8(r, data);
        Ok(())
    }

    fn ld_mr_r(&mut self, mr: Reg16, r: Reg8) -> (res: Result<(), Fault>)
        requires
            room(old(self)@, 1),
        ensures
            agrees(old(self)@.ld_mr_r(mr, r), res, final(self)@),
            took(old(self)@, final(self)@, 1),
    {
        proof {
            reveal(CpuState::ld_mr_r);
        }
        let addr: u16 = self.reg.get_reg16(mr);
        let data: u8 = self.reg.get_reg8(r);
        self.store(addr, data)
    }

    fn ld_r_mr(&mut self, r: Reg8, mr: Reg16) -> (res: Result<(), Fault>)
        requires
            room(old(self)@, 1),
        ensures
            agrees(old(self)@.ld_r_mr(r, mr), res, final(self)@),
            took(old(self)@, final(self)@, 1),
    {
        proof {
            reveal(CpuState::ld_r_mr);
        }
        let addr: u16 = self.reg.get_reg16(mr);
        let val: u8 = self.load(addr)?;
        self.reg.set_reg8(r, val);
        Ok(())
    }

    fn ld_r_r(&mut self, r1: Reg8, r2: Reg8) -> (res: Result<(), Fault>)
        ensures
            agrees(old(self)@.ld_r_r(r1, r2), res, final(self)@),
            took(old(self)@, final(self)@, 0),
    {
        proof {
            reveal(CpuState::ld_r_r);
        }
        let val: u8 = self.reg.get_reg8(r2);
        self.reg.set_reg8(r1, val);
        Ok(())
    }

    fn ld_sp_hl(&mut self) -> (res: Result<(), Fault>)
        requires
            room(old(self)@, 1),
        ensures
            agrees(old(self)@.ld_sp_hl(), res, final(self)@),
            took(old(self)@, final(self)@, 1),
    {
        proof {
            reveal(CpuState::ld_sp_hl);
        }
        let hl: u16 = self.reg.get_hl();
        self.reg.set_reg16(Reg16::SP, hl);
        self.clock_tick();
        Ok(())
    }

    fn ld_r_hli(&mut self, r: Reg8) -> (res: Result<(), Fault>)
        requires
            room(old(self)@, 1),
        ensures
            agrees(old(self)@.ld_r_hli(r), res, final(self)@),
            took(old(self)@, final(self)@, 1),
    {
        proof {
            reveal(CpuState::ld_r_hli);
        }
        let hl: u16 = self.reg.get_hl();
        let val: u8 = self.load(hl)?;
        self.reg.set_hl(hl.wrapping_add(1));
        self.reg.set_reg8(r, val);
        Ok(())
    }

    fn ld_hli_r(&mut self, r: Reg8) -> (res: Result<(), Fault>)
        requires
            room(old(self)@, 1),
        ensures
            agrees(old(self)@.ld_hli_r(r), res, final(self)@),
            took(old(self)@, final(self)@, 1),
    {
        proof {
            reveal(CpuState::ld_hli_r);
        }
        let data: u8 = self.reg.get_reg8(r);
        let hl: u16 = self.reg.get_hl();
        self.store(hl, data)?;
        self.reg.set_hl(hl.wrapping_add(1));
        Ok(())
    }

    fn ld_hld_r(&mut self, r: Reg8) -> (res: Result<(), Fault>)
        requires
            room(old(self)@, 1),
        ensures
            agrees(old(self)@.ld_hld_r(r), res, final(self)@),
            took(old(self)@, final(self)@, 1),
    {
        proof {
            reveal(CpuState::ld_hld_r);
        }
        let data: u8 = self.reg.get_reg8(r);
        let hl: u16 = self.reg.get_hl();
        self.store(hl, data)?;
        self.reg.set_hl(hl.wrapping_sub(1));
        Ok(())
    }

    fn ld_r_hld(&mut self, r: Reg8) -> (res: Result<(), Fault>)
        requires
            room(old(self)@, 1),
        ensures
            agrees(old(self)@.ld_r_hld(r), res, final(self)@),
            took(old(self)@, final(self)@, 1),
    {
        proof {
            reveal(CpuState::ld_r_hld);
        }
        let hl: u16 = self.reg.get_hl();
        let val: u8 = self.load(hl)?;
        self.reg.set_hl(hl.wrapping_sub(1));
        self.reg.set_reg8(r, val);
        Ok(())
    }

    fn ld_a16_a(&mut self) -> (res: Result<(), Fault>)
        requires
            room(old(self)@, 3),
        ensures
            agrees(old(self)@.ld_a16_a(), res, final(self)@),
            took(old(self)@, final(self)@, 3),
    {
        proof {
            reveal(CpuState::ld_a16_a);
        }
        let addr: u16 = self.fetch16()?;
        let a: u8 = self.reg.get_reg8(Reg8::A);
        self.store(addr, a)
    }

    fn ld_a_a16(&mut self) -> (res: Result<(), Fault>)
        requires
            room(old(self)@, 3),
        ensures
            agrees(old(self)@.ld_a_a16(), res, final(self)@),
            took(old(self)@, final(self)@, 3),
    {
        proof {
            reveal(CpuState::ld_a_a16);
        }
        let addr: u16 = self.fetch16()?;
        let data: u8 = self.load(addr)?;
        self.reg.set_reg8(Reg8::A, data);
        Ok(())
    }

    fn ld_a16_sp(&mut self) -> (res: Result<(), Fault>)
        requires
            room(old(self)@, 4),
        ensures
            agrees(old(self)@.ld_a16_sp(), res, final(self)@),
            took(old(self)@, final(self)@, 4),
    {
        proof {
            reveal(CpuState::ld_a16_sp);
        }
        let a16: u16 = self.fetch16()?;
        let sp: u16 = self.reg.get_reg16(Reg16::SP);
        proof {
            crate::bits::lemma_word_fields(0, 0, sp);
        }
        let lsb_sp: u8 = (sp & 0x00FF) as u8;
        let msb_sp: u8 = (sp >> 8) as u8;
        self.store(a16, lsb_sp)?;
        self.store(a16.wrapping_add(1), msb_sp)
    }

    fn ld_mr_n8(&mut self, mr: Reg16) -> (res: Result<(), Fault>)
        requires
            room(old(self)@, 2),
        ensures
            agrees(old(self)@.ld_mr_n8(mr), res, final(self)@),
            took(old(self)@, final(self)@, 2),
    {
        proof {
            reveal(CpuState::ld_mr_n8);
        }
        let data: u8 = self.fetch()?;
        let addr: u16 = self.reg.get_reg16(mr);
        self.store(addr, data)
    }

    fn ldh_a8_a(&mut self) -> (res: Result<(), Fault>)
        requires
            room(old(self)@, 2),
        ensures
            agrees(old(self)@.ldh_a8_a(), res, final(self)@),
            took(old(self)@, final(self)@, 2),
    {
        proof {
            reveal(CpuState::ldh_a8_a);
        }
        let a8: u8 = self.fetch()?;
        let a: u8 = self.reg.get_reg8(Reg8::A);
        self.store(Self::upper_page(a8), a)
    }

    fn ldh_a_a8(&mut self) -> (res: Result<(), Fault>)
        requires
            room(old(self)@, 2),
        ensures
            agrees(old(self)@.ldh_a_a8(), res, final(self)@),
            took(old(self)@, final(self)@, 2),
    {
        proof {
            reveal(CpuState::ldh_a_a8);
        }
        let a8: u8 = self.fetch()?;
        let data: u8 = self.load(Self::upper_page(a8))?;
        self.reg.set_reg8(Reg8::A, data);
        Ok(())
    }

    fn ld_a_c(&mut self) -> (res: Result<(), Fault>)
        requires
            room(old(self)@, 1),
        ensures
            agrees(old(self)@.ld_a_c(), res, final(self)@),
            took(old(self)@, final(self)@, 1),
    {
        proof {
            reveal(CpuState::ld_a_c);
        }
        let addr: u16 = Self::upper_page(self.reg.get_reg8(Reg8::C));
        let data: u8 = self.load(addr)?;
        self.reg.set_reg8(Reg8::A, data);
        Ok(())
    }

    fn ld_c_a(&mut self) -> (res: Result<(), Fault>)
        requires
            room(old(self)@, 1),
        ensures
            agrees(old(self)@.ld_c_a(), res, final(self)@),
            took(old(self)@, final(self)@, 1),
    {
        proof {
            reveal(CpuState::ld_c_a);
        }
        let addr: u16 = Self::upper_page(self.reg.get_reg8(Reg8::C));
        let a: u8 = self.reg.get_reg8(Reg8::A);
        self.store(addr, a)
    }

    fn ld_hl_sp_e8(&mut self) -> (res: Result<(), Fault>)
        requires
            room(old(self)@, 2),
        ensures
            agrees(old(self)@.ld_hl_sp_e8(), res, final(self)@),
            took(old(self)@, final(self)@, 2),
    {
        proof {
            reveal(CpuState::ld_hl_sp_e8);
        }
        let e8: u8 = self.fetch()?;
        let out = add_sp(self.reg.get_reg16(Reg16::SP), e8);
        self.reg.set_hl(out.value);
        self.reg.set_flags(out.flags);
        self.clock_tick();
        Ok(())
    }

    fn inc_r8(&mut self, r: Reg8) -> (res: Result<(), Fault>)
        ensures
            agrees(old(self)@.inc_r8(r), res, final(self)@),
            took(old(self)@, final(self)@, 0),
    {
        proof {
            reveal(CpuState::inc_r8);
        }
        let out = inc8(self.reg.get_reg8(r), self.reg.flags());
        self.reg.set_reg8(r, out.value);
        self.reg.set_flags(out.flags);
        Ok(())
    }

    fn dec_r8(&mut self, r: Reg8) -> (res: Result<(), Fault>)
        ensures
            agrees(old(self)@.dec_r8(r), res, final(self)@),
            took(old(self)@, final(self)@, 0),
    {
        proof {
            reveal(CpuState::dec_r8);
        }
        let out = dec8(self.reg.get_reg8(r), self.reg.flags());
        self.reg.set_reg8(r, out.value);
        self.reg.set_flags(out.flags);
        Ok(())
    }

    fn inc_r16(&mut self, r: Reg16) -> (res: Result<(), Fault>)
        requires
            room(old(self)@, 1),
        ensures
            agrees(old(self)@.inc_r16(r), res, final(self)@),
            took(old(self)@, final(self)@, 1),
    {
        proof {
            reveal(CpuState::inc_r16);
        }
        let val: u16 = self.reg.get_reg16(r).wrapping_add(1);
        self.reg.set_reg16(r, val);
        self.clock_tick();
        Ok(())
    }

    fn dec_r16(&mut self, r: Reg16) -> (res: Result<(), Fault>)
        requires
            room(old(self)@, 1),
        ensures
            agrees(old(self)@.dec_r16(r), res, final(self)@),
            took(old(self)@, final(self)@, 1),
    {
        proof {
            reveal(CpuState::dec_r16);
        }
        let val: u16 = self.reg.get_reg16(r).wrapping_sub(1);
        self.reg.set_reg16(r, val);
        self.clock_tick();
        Ok(())
    }

    fn inc_mr(&mut self, mr: Reg16) -> (res: Result<(), Fault>)
        requires
            room(old(self)@, 2),
        ensures
            agrees(old(self)@.inc_mr(mr), res, final(self)@),
            took(old(self)@, final(self)@, 2),
    {
        proof {
            reveal(CpuState::inc_mr);
        }
        let addr: u16 = self.reg.get_reg16(mr);
        let data: u8 = self.load(addr)?;
        let out = inc8(data, self.reg.flags());
        self.store(addr, out.value)?;
        self.reg.set_flags(out.flags);
        Ok(())
    }

    fn dec_mr(&mut self, mr: Reg16) -> (res: Result<(), Fault>)
        requires
            room(old(self)@, 2),
        ensures
            agrees(old(self)@.dec_mr(mr), res, final(self)@),
            took(old(self)@, final(self)@, 2),
    {
        proof {
            reveal(CpuState::dec_mr);
        }
        let addr: u16 = self.reg.get_reg16(mr);
        let data: u8 = self.load(addr)?;
        let out = dec8(data, self.reg.flags());
        self.store(addr, out.value)?;
        self.reg.set_flags(out.flags);
        Ok(())
    }

    /// `ADD`, `ADC`, `SUB`, `SBC`, `AND`, `XOR`, `OR` and `CP` with a
    /// register, the byte at HL or an immediate byte.
    fn alu(&mut self, op: AluOp, from: Operand) -> (res: Result<(), Fault>)
        requires
            room(old(self)@, 1),
        ensures
            agrees(old(self)@.alu(op, from), res, final(self)@),
            took(old(self)@, final(self)@, 1),
    {
        proof {
            reveal(CpuState::alu);
        }
        let val: u8 = self.operand(from)?;
        let out = alu8(op, self.reg.get_reg8(Reg8::A), val, self.reg.get_c());
        self.reg.set_reg8(Reg8::A, out.value);
        self.reg.set_flags(out.flags);
        Ok(())
    }

    fn add_r16_r16(&mut self, r1: Reg16, r2: Reg16) -> (res: Result<(), Fault>)
        requires
            room(old(self)@, 1),
        ensures
            agrees(old(self)@.add_r16_r16(r1, r2), res, final(self)@),
            took(old(self)@, final(self)@, 1),
    {
        proof {
            reveal(CpuState::add_r16_r16);
        }
        let val1: u16 = self.reg.get_reg16(r1);
        let val2: u16 = self.reg.get_reg16(r2);
        let out = add16(val1, val2, self.reg.flags());
        self.reg.set_reg16(r1, out.value);
        self.reg.set_flags(out.flags);
        self.clock_tick();
        Ok(())
    }

    fn add_sp_e8(&mut self) -> (res: Result<(), Fault>)
        requires
            room(old(self)@, 3),
        ensures
            agrees(old(self)@.add_sp_e8(), res, final(self)@),
            took(old(self)@, final(self)@, 3),
    {
        proof {
            reveal(CpuState::add_sp_e8);
        }
        let e8: u8 = self.fetch()?;
        let out = add_sp(self.reg.get_reg16(Reg16::SP), e8);
        self.reg.set_reg16(Reg16::SP, out.value);
        self.reg.set_flags(out.flags);
        self.clock_tick();
        self.clock_tick();
        Ok(())
    }

    /// `RLCA`, `RRCA`, `RLA` and `RRA`.
    fn rotate_a(&mut self, op: ShiftOp) -> (res: Result<(), Fault>)
        ensures
            agrees(old(self)@.rotate_a(op), res, final(self)@),
            took(old(self)@, final(self)@, 0),
    {
        proof {
            reveal(CpuState::rotate_a);
        }
        let out = rotate_a(op, self.reg.get_reg8(Reg8::A), self.reg.get_c());
        self.reg.set_reg8(Reg8::A, out.value);
        self.reg.set_flags(out.flags);
        Ok(())
    }

    fn daa(&mut self) -> (res: Result<(), Fault>)
        ensures
            agrees(old(self)@.daa(), res, final(self)@),
            took(old(self)@, final(self)@, 0),
    {
        proof {
            reveal(CpuState::daa);
        }
        let out = daa(self.reg.get_reg8(Reg8::A), self.reg.flags());
        self.reg.set_reg8(Reg8::A, out.value);
        self.reg.set_flags(out.flags);
        Ok(())
    }

    fn cpl(&mut self) -> (res: Result<(), Fault>)
        ensures
            agrees(old(self)@.cpl(), res, final(self)@),
            took(old(self)@, final(self)@, 0),
    {
        proof {
            reveal(CpuState::cpl);
        }
        let out = cpl(self.reg.get_reg8(Reg8::A), self.reg.flags());
        self.reg.set_reg8(Reg8::A, out.value);
        self.reg.set_flags(out.flags);
        Ok(())
    }

    fn scf(&mut self) -> (res: Result<(), Fault>)
        ensures
            agrees(old(self)@.scf(), res, final(self)@),
            took(old(self)@, final(self)@, 0),
    {
        proof {
            reveal(CpuState::scf);
        }
        let flags = scf(self.reg.flags());
        self.reg.set_flags(flags);
        Ok(())
    }

    fn ccf(&mut self) -> (res: Result<(), Fault>)
        ensures
            agrees(old(self)@.ccf(), res, final(self)@),
            took(old(self)@, final(self)@, 0),
    {
        proof {
            reveal(CpuState::ccf);
        }
        let flags = ccf(self.reg.flags());
        self.reg.set_flags(flags);
        Ok(())
    }

    fn jr(&mut self, cond: Cond) -> (res: Result<(), Fault>)
        requires
            room(old(self)@, 2),
        ensures
            agrees(old(self)@.jr(cond), res, final(self)@),
            took(old(self)@, final(self)@, 2),
    {
        proof {
            reveal(CpuState::jr);
        }
        let taken: bool = self.reg.test(cond);
        let e8: u8 = self.fetch()?;
        if taken {
            let pc: u16 = self.reg.get_reg16(Reg16::PC);
            self.reg.set_reg16(Reg16::PC, offset(pc, e8));
            self.clock_tick();
        }
        Ok(())
    }

    fn jp_a16(&mut self, cond: Cond) -> (res: Result<(), Fault>)
        requires
            room(old(self)@, 3),
        ensures
            agrees(old(self)@.jp_a16(cond), res, final(self)@),
            took(old(self)@, final(self)@, 3),
    {
        proof {
            reveal(CpuState::jp_a16);
        }
        let taken: bool = self.reg.test(cond);
        let addr: u16 = self.fetch16()?;
        if taken {
            self.reg.set_reg16(Reg16::PC, addr);
            self.clock_tick();
        }
        Ok(())
    }

    fn jp_hl(&mut self) -> (res: Result<(), Fault>)
        ensures
            agrees(old(self)@.jp_hl(), res, final(self)@),
            took(old(self)@, final(self)@, 0),
    {
        proof {
            reveal(CpuState::jp_hl);
        }
        let hl: u16 = self.reg.get_hl();
        self.reg.set_reg16(Reg16::PC, hl);
        Ok(())
    }

    fn call(&mut self, cond: Cond) -> (res: Result<(), Fault>)
        requires
            room(old(self)@, 5),
        ensures
            agrees(old(self)@.call(cond), res, final(self)@),
            took(old(self)@, final(self)@, 5),
    {
        proof {
            reveal(CpuState::call);
        }
        let taken: bool = self.reg.test(cond);
        let addr: u16 = self.fetch16()?;
        if taken {
            self.clock_tick();
            let pc: u16 = self.reg.get_reg16(Reg16::PC);
            self.push16(pc)?;
            self.reg.set_reg16(Reg16::PC, addr);
        }
        Ok(())
    }

    fn ret(&mut self, cond: Cond) -> (res: Result<(), Fault>)
        requires
            room(old(self)@, 4),
        ensures
            agrees(old(self)@.ret(cond), res, final(self)@),
            took(old(self)@, final(self)@, 4),
    {
        proof {
            reveal(CpuState::ret);
        }
        if cond != Cond::NONE {
            self.clock_tick();
        }
        if self.reg.test(cond) {
            let pc: u16 = self.pop16()?;
            self.reg.set_reg16(Reg16::PC, pc);
            self.clock_tick();
        }
        Ok(())
    }

    fn reti(&mut self) -> (res: Result<(), Fault>)
        requires
            room(old(self)@, 4),
        ensures
            agrees(old(self)@.reti(), res, final(self)@),
            took(old(self)@, final(self)@, 4),
    {
        proof {
            reveal(CpuState::reti);
        }
        self.ret(Cond::NONE)?;
        self.ime = true;
        Ok(())
    }

    fn rst(&mut self, lo: u8) -> (res: Result<(), Fault>)
        requires
            room(old(self)@, 3),
        ensures
            agrees(old(self)@.rst(lo), res, final(self)@),
            took(old(self)@, final(self)@, 3),
    {
        proof {
            reveal(CpuState::rst);
        }
        self.clock_tick();
        let pc: u16 = self.reg.get_reg16(Reg16::PC);
        self.push16(pc)?;
        self.reg.set_reg16(Reg16::PC, lo as u16);
        Ok(())
    }

    fn push(&mut self, r: Reg16) -> (res: Result<(), Fault>)
        requires
            room(old(self)@, 3),
        ensures
            agrees(old(self)@.push_r16(r), res, final(self)@),
            took(old(self)@, final(self)@, 3),
    {
        proof {
            reveal(CpuState::push_r16);
        }
        let val: u16 = self.reg.get_reg16(r);
        self.clock_tick();
        self.push16(val)
    }

    fn pop(&mut self, r: Reg16) -> (res: Result<(), Fault>)
        requires
            room(old(self)@, 2),
        ensures
            agrees(old(self)@.pop_r16(r), res, final(self)@),
            took(old(self)@, final(self)@, 2),
    {
        proof {
            reveal(CpuState::pop_r16);
        }
        let data: u16 = self.pop16()?;
        self.reg.set_reg16(r, data);
        Ok(())
    }

    fn halt(&mut self) -> (res: Result<(), Fault>)
        ensures
            agrees(old(self)@.halt(), res, final(self)@),
            took(old(self)@, final(self)@, 0),
    {
        proof {
            reveal(CpuState::halt);
        }
        self.state = RunState::Halted;
        Ok(())
    }

    fn stop(&mut self) -> (res: Result<(), Fault>)
        ensures
            agrees(old(self)@.stop(), res, final(self)@),
            took(old(self)@, final(self)@, 0),
    {
        proof {
            reveal(CpuState::stop);
        }
        let pc: u16 = self.reg.get_reg16(Reg16::PC);
        self.reg.set_reg16(Reg16::PC, pc.wrapping_add(1));
        self.state = RunState::Stopped;
        Ok(())
    }

    fn di(&mut self) -> (res: Result<(), Fault>)
        ensures
            agrees(old(self)@.di(), res, final(self)@),
            took(old(self)@, final(self)@, 0),
    {
        proof {
            reveal(CpuState::di);
        }
        self.ime = false;
        self.ime_pending = false;
        Ok(())
    }

    fn ei(&mut self) -> (res: Result<(), Fault>)
        ensures
            agrees(old(self)@.ei(), res, final(self)@),
            took(old(self)@, final(self)@, 0),
    {
        proof {
            reveal(CpuState::ei);
        }
        self.ime_pending = true;
        Ok(())
    }

    /// The instructions of the secondary opcode space.
    fn cb(&mut self) -> (res: Result<(), Fault>)
        requires
            room(old(self)@, 3),
        ensures
            agrees(old(self)@.cb(), res, final(self)@),
            took(old(self)@, final(self)@, 3),
    {
        proof {
            reveal(CpuState::cb);
        }
        let cb_op: u8 = self.fetch()?;
        let i = decode_cb(cb_op);
        let val: u8 = self.target(i.target)?;
        match i.class {
            CbClass::Shift(sh) => {
                let out = shift(sh, val, self.reg.get_c());
                self.set_reg_cb(i.target, out.value)?;
                self.reg.set_flags(out.flags);
                Ok(())
            },
            CbClass::TestBit => {
                let flags = test_bit(i.bit, val, self.reg.flags());
                self.reg.set_flags(flags);
                Ok(())
            },
            CbClass::ResetBit => self.set_reg_cb(i.target, reset_bit(i.bit, val)),
            CbClass::SetBit => self.set_reg_cb(i.target, set_bit(i.bit, val)),
        }
    }

    /// The instructions that change how the core runs, and the prefix.
    fn perform_control(&mut self, i: Instr) -> (res: Result<(), Fault>)
        requires
            i.group() == Group::Control,
            room(old(self)@, 5),
        ensures
            agrees(old(self)@.perform(i), res, final(self)@),
            took(old(self)@, final(self)@, 5),
    {
        proof {
            reveal(CpuState::perform);
        }
        match i {
            Instr::Nop => Ok(()),
            Instr::Stop => self.stop(),
            Instr::Halt => self.halt(),
            Instr::Di => self.di(),
            Instr::Ei => self.ei(),
            Instr::Cb => self.cb(),
            _ => vstd::pervasive::unreached(),
        }
    }

    /// The loads between registers, immediates and the bytes that register
    /// pairs point at.
    fn perform_load(&mut self, i: Instr) -> (res: Result<(), Fault>)
        requires
            i.group() == Group::Load,
            room(old(self)@, 5),
        ensures
            agrees(old(self)@.perform(i), res, final(self)@),
            took(old(self)@, final(self)@, 5),
    {
        proof {
            reveal(CpuState::perform);
        }
        match i {
            Instr::LdR16N16(r) => self.ld_r16_n16(r),
            Instr::LdMrR(mr, r) => self.ld_mr_r(mr, r),
            Instr::LdRMr(r, mr) => self.ld_r_mr(r, mr),
            Instr::LdRR(r1, r2) => self.ld_r_r(r1, r2),
            Instr::LdR8N8(r) => self.ld_r8_n8(r),
            Instr::LdMrN8(mr) => self.ld_mr_n8(mr),
            Instr::LdHliR(r) => self.ld_hli_r(r),
            Instr::LdHldR(r) => self.ld_hld_r(r),
            Instr::LdRHli(r) => self.ld_r_hli(r),
            Instr::LdRHld(r) => self.ld_r_hld(r),
            _ => vstd::pervasive::unreached(),
        }
    }

    /// The loads that involve an absolute address, the upper page or SP.
    fn perform_transfer(&mut self, i: Instr) -> (res: Result<(), Fault>)
        requires
            i.group() == Group::Transfer,
            room(old(self)@, 5),
        ensures
            agrees(old(self)@.perform(i), res, final(self)@),
            took(old(self)@, final(self)@, 5),
    {
        proof {
            reveal(CpuState::perform);
        }
        match i {
            Instr::LdA16Sp => self.ld_a16_sp(),
            Instr::LdA16A => self.ld_a16_a(),
            Instr::LdAA16 => self.ld_a_a16(),
            Instr::LdhA8A => self.ldh_a8_a(),
            Instr::LdhAA8 => self.ldh_a_a8(),
            Instr::LdCA => self.ld_c_a(),
            Instr::LdAC => self.ld_a_c(),
            Instr::LdHlSpE8 => self.ld_hl_sp_e8(),
            Instr::LdSpHl => self.ld_sp_hl(),
            _ => vstd::pervasive::unreached(),
        }
    }

    /// Increments, decrements and the arithmetic with an operand.
    fn perform_arithmetic(&mut self, i: Instr) -> (res: Result<(), Fault>)
        requires
            i.group() == Group::Arithmetic,
            room(old(self)@, 5),
        ensures
            agrees(old(self)@.perform(i), res, final(self)@),
            took(old(self)@, final(self)@, 5),
    {
        proof {
            reveal(CpuState::perform);
        }
        match i {
            Instr::IncR8(r) => self.inc_r8(r),
            Instr::DecR8(r) => self.dec_r8(r),
            Instr::IncR16(r) => self.inc_r16(r),
            Instr::DecR16(r) => self.dec_r16(r),
            Instr::IncMr(mr) => self.inc_mr(mr),
            Instr::DecMr(mr) => self.dec_mr(mr),
            Instr::Alu(op, from) => self.alu(op, from),
            Instr::AddR16R16(r1, r2) => self.add_r16_r16(r1, r2),
            Instr::AddSpE8 => self.add_sp_e8(),
            _ => vstd::pervasive::unreached(),
        }
    }

    /// The operations on the accumulator and the flags alone.
    fn perform_accumulator(&mut self, i: Instr) -> (res: Result<(), Fault>)
        requires
            i.group() == Group::Accumulator,
            room(old(self)@, 5),
        ensures
            agrees(old(self)@.perform(i), res, final(self)@),
            took(old(self)@, final(self)@, 5),
    {
        proof {
            reveal(CpuState::perform);
        }
        match i {
            Instr::Rlca => self.rotate_a(ShiftOp::Rlc),
            Instr::Rrca => self.rotate_a(ShiftOp::Rrc),
            Instr::Rla => self.rotate_a(ShiftOp::Rl),
            Instr::Rra => self.rotate_a(ShiftOp::Rr),
            Instr::Daa => self.daa(),
            Instr::Cpl => self.cpl(),
            Instr::Scf => self.scf(),
            Instr::Ccf => self.ccf(),
            _ => vstd::pervasive::unreached(),
        }
    }

    /// Jumps, calls, returns and the stack.
    fn perform_flow(&mut self, i: Instr) -> (res: Result<(), Fault>)
        requires
            i.group() == Group::Flow,
            room(old(self)@, 5),
        ensures
            agrees(old(self)@.perform(i), res, final(self)@),
            took(old(self)@, final(self)@, 5),
    {
        proof {
            reveal(CpuState::perform);
        }
        match i {
            Instr::Jr(cond) => self.jr(cond),
            Instr::JpA16(cond) => self.jp_a16(cond),
            Instr::JpHl => self.jp_hl(),
            Instr::Call(cond) => self.call(cond),
            Instr::Ret(cond) => self.ret(cond),
            Instr::Reti => self.reti(),
            Instr::Rst(lo) => self.rst(lo),
            Instr::Push(r) => self.push(r),
            Instr::Pop(r) => self.pop(r),
            _ => vstd::pervasive::unreached(),
        }
    }

    /// Executes a decoded instruction whose opcode has been fetched: hands it
    /// to the dispatcher of its family.
    fn perform(&mut self, i: Instr) -> (res: Result<(), Fault>)
        requires
            room(old(self)@, 5),
        ensures
            agrees(old(self)@.perform(i), res, final(self)@),
            took(old(self)@, final(self)@, 5),
    {
        match i {
            Instr::Nop
            | Instr::Stop
            | Instr::Halt
            | Instr::Di
            | Instr::Ei
            | Instr::Cb => self.perform_control(i),
            Instr::LdR16N16(_)
            | Instr::LdMrR(_, _)
            | Instr::LdRMr(_, _)
            | Instr::LdRR(_, _)
            | Instr::LdR8N8(_)
            | Instr::LdMrN8(_)
            | Instr::LdHliR(_)
            | Instr::LdHldR(_)
            | Instr::LdRHli(_)
            | Instr::LdRHld(_) => self.perform_load(i),
            Instr::LdA16Sp
            | Instr::LdA16A
            | Instr::LdAA16
            | Instr::LdhA8A
            | Instr::LdhAA8
            | Instr::LdCA
            | Instr::LdAC
            | Instr::LdHlSpE8
            | Instr::LdSpHl => self.perform_transfer(i),
            Instr::IncR8(_)
            | Instr::DecR8(_)
            | Instr::IncR16(_)
            | Instr::DecR16(_)
            | Instr::IncMr(_)
            | Instr::DecMr(_)
            | Instr::Alu(_, _)
            | Instr::AddR16R16(_, _)
            | Instr::AddSpE8 => self.perform_arithmetic(i),
            Instr::Rlca
            | Instr::Rrca
            | Instr::Rla
            | Instr::Rra
            | Instr::Daa
            | Instr::Cpl
            | Instr::Scf
            | Instr::Ccf => self.perform_accumulator(i),
            Instr::Jr(_)
            | Instr::JpA16(_)
            | Instr::JpHl
            | Instr::Call(_)
            | Instr::Ret(_)
            | Instr::Reti
            | Instr::Rst(_)
            | Instr::Push(_)
            | Instr::Pop(_) => self.perform_flow(i),
        }
    }

    /// Executes the instruction that `opcode` selects. PC points behind the
    /// opcode, at the operands if there are any.
    pub fn execute(&mut self, opcode: u8) -> (res: Result<(), Fault>)
        requires
            room(old(self)@, 5),
        ensures
            agrees(old(self)@.execute(opcode), res, final(self)@),
            took(old(self)@, final(self)@, 5),
    {
        proof {
            reveal(CpuState::execute);
        }
        match decode(opcode) {
            Some(i) => self.perform(i),
            None => {
                let pc: u16 = self.reg.get_reg16(Reg16::PC).wrapping_sub(1);
                Err(Fault::IllegalOpcode { opcode, pc })
            },
        }
    }

    /// Fetches one instruction and executes it.
    pub fn step(&mut self) -> (report: Report)
        requires
            room(old(self)@, 6),
        ensures
            agrees(old(self)@.step(), report.result, final(self)@),
            took(old(self)@, final(self)@, 6),
            traced(old(self)@, report.trace),
    {
        proof {
            reveal(CpuState::step);
        }
        let was_pending: bool = self.ime_pending;
        let opcode: u8 = match self.fetch() {
            Ok(opcode) => opcode,
            Err(fault) => {
                return Report { trace: None, result: Err(fault) };
            },
        };
        let trace = Some(Trace { opcode, regs: self.reg });
        match self.execute(opcode) {
            Ok(()) => {},
            Err(fault) => {
                return Report { trace, result: Err(fault) };
            },
        }
        if was_pending && self.ime_pending {
            self.ime = true;
            self.ime_pending = false;
        }
        Report { trace, result: Ok(()) }
    }

    /// One turn of the run loop: an instruction, or a cycle of waiting where
    /// the core is halted, and then the interrupt controller. A core that has
    /// stopped does nothing.
    pub fn run(&mut self) -> (report: Report)
        requires
            room(old(self)@, 11),
        ensures
            agrees(old(self)@.run_once(), report.result, final(self)@),
            took(old(self)@, final(self)@, 11),
            if old(self)@.run == RunState::Running {
                traced(old(self)@, report.trace)
            } else {
                report.trace is None
            },
    {
        match self.state {
            RunState::Stopped => Report { trace: None, result: Ok(()) },
            RunState::Halted => {
                self.clock_tick();
                Report { trace: None, result: self.handle_interrupt() }
            },
            RunState::Running => {
                let stepped = self.step();
                match stepped.result {
                    Ok(()) => Report { trace: stepped.trace, result: self.handle_interrupt() },
                    Err(_) => stepped,
                }
            },
        }
    }

    /// One invocation of the interrupt controller: wakes a halted core if an
    /// interrupt is pending and, if interrupts are enabled, dispatches the
    /// pending interrupt of the highest priority.
    pub fn handle_interrupt(&mut self) -> (res: Result<(), Fault>)
        requires
            room(old(self)@, 5),
        ensures
            agrees(old(self)@.service(), res, final(self)@),
            took(old(self)@, final(self)@, 5),
    {
        proof {
            reveal(CpuState::service);
        }
        if self.state == RunState::Stopped {
            return Ok(());
        }
        let ie: u8 = self.bus.get_ie_set();
        let iflag: u8 = self.bus.io_read(INTERRUPT_FLAG);
        let pending: u8 = ie & iflag & 0x1F;
        if self.state == RunState::Halted && ie & iflag != 0 {
            self.state = RunState::Running;
        }
        if !self.ime || pending == 0 {
            return Ok(());
        }
        let k: u8 = if pending & 0x01 != 0 {
            0
        } else if pending & 0x02 != 0 {
            1
        } else if pending & 0x04 != 0 {
            2
        } else if pending & 0x08 != 0 {
            3
        } else {
            4
        };
        let pc: u16 = self.reg.get_reg16(Reg16::PC);
        self.push16(pc)?;
        let now: u8 = self.bus.io_read(INTERRUPT_FLAG);
        self.bus.io_write(INTERRUPT_FLAG, now & !(1u8 << k));
        self.ime = false;
        self.reg.set_reg16(Reg16::PC, 0x40 + 8 * (k as u16));
        self.clock_tick();
        self.clock_tick();
        self.clock_tick();
        Ok(())
    }
}

} // verus!
