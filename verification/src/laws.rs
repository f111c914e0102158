//! What holds of the machine as a whole: of its timing, of its stack and of
//! its interrupt controller.

use vstd::prelude::*;
use crate::bus::{lemma_kept_round_trip, lemma_write_elsewhere};
use crate::decode::{spec_decode, spec_decode_cb, Group, Instr};
use crate::fault::Fault;
use crate::machine::{dec16, inc16, CpuState, RunState, Stop};
use crate::registers::{high, low, Reg16};

verus! {

/// Opcode of the unconditional `CALL a16`.
pub const CALL_A16: u8 = 0xCD;

/// Opcode of the unconditional `RET`.
pub const RET: u8 = 0xC9;

/// `DAA` leaves an accumulator that holds two decimal digits as it is, when
/// the subtract, half-carry and carry flags are clear.
pub proof fn lemma_daa_instruction_keeps_decimal(s: CpuState)
    requires
        s.reg.a % 16 <= 9,
        s.reg.a / 16 <= 9,
        !s.reg.flags.n,
        !s.reg.flags.h,
        !s.reg.flags.c,
    ensures
        s.daa() matches Ok(t) && t.reg.a == s.reg.a,
        s.perform(Instr::Daa) matches Ok(t) && t.reg.a == s.reg.a,
{
    reveal(CpuState::daa);
    reveal(CpuState::perform);
}

/// A halted core in which an interrupt is enabled and requested while the
/// master enable is off wakes up at the next invocation of the controller,
/// and nothing else changes: no handler is entered, PC and the master enable
/// stay.
pub proof fn lemma_halt_wake(s: CpuState)
    requires
        s.run == RunState::Halted,
        s.bus.ie & s.bus.io.interrupt_flag != 0,
        !s.ime,
    ensures
        s.service() == Ok::<CpuState, Stop>(CpuState { run: RunState::Running, ..s }),
{
    reveal(CpuState::service);
}

/// While interrupts are disabled the controller enters no handler.
pub proof fn lemma_disabled_interrupts_wait(s: CpuState)
    requires
        !s.ime,
    ensures
        s.service() matches Ok(t) && t.reg == s.reg && t.bus == s.bus && t.cycles == s.cycles
            && !t.ime,
{
    reveal(CpuState::service);
}

/// What a call pushes, the return after it pops: a `CALL` at address `p`
/// with the stack pointer at `sp`, followed at once by a `RET`, ends with PC
/// at `p + 3` and the stack pointer at `sp` again, ten cycles later.
///
/// This is stated of the machines in which the two bytes below `sp` keep
/// what is written to them; a stack in the echo range, say, forgets the
/// return address.
pub proof fn lemma_call_ret(s: CpuState, target: u16)
    requires
        s.bus.wf(),
        s.bus.read(s.reg.pc) == Ok::<u8, Fault>(CALL_A16),
        s.bus.read(inc16(s.reg.pc)) == Ok::<u8, Fault>(low(target)),
        s.bus.read(inc16(inc16(s.reg.pc))) == Ok::<u8, Fault>(high(target)),
        s.bus.keeps(dec16(s.reg.sp)),
        s.bus.keeps(dec16(dec16(s.reg.sp))),
        s.step() matches Ok(called) ==> called.bus.read(target) == Ok::<u8, Fault>(RET),
    ensures
        ({
            &&& s.step() matches Ok(called)
            &&& called.reg.pc == target
            &&& called.step() matches Ok(back)
            &&& back.reg.pc == inc16(inc16(inc16(s.reg.pc)))
            &&& back.reg.sp == s.reg.sp
            &&& back.cycles == s.cycles + 10
        }),
{
    reveal(CpuState::step);
    reveal(CpuState::execute);
    reveal(CpuState::perform);
    reveal(CpuState::call);
    reveal(CpuState::ret);
    let ret_addr = inc16(inc16(inc16(s.reg.pc)));
    let sp1 = dec16(s.reg.sp);
    let sp2 = dec16(sp1);
    lemma_kept_round_trip(s.bus, sp1, high(ret_addr));
    let bus1 = s.bus.write(sp1, high(ret_addr)).unwrap();
    lemma_write_elsewhere(s.bus, sp1, high(ret_addr), sp2);
    lemma_kept_round_trip(bus1, sp2, low(ret_addr));
    lemma_write_elsewhere(bus1, sp2, low(ret_addr), sp1);
}

proof fn lemma_control_cost(s: CpuState, i: Instr)
    requires
        i.group() == Group::Control,
        i != Instr::Cb,
    ensures
        s.perform(i) matches Ok(t) ==> t.cycles + 1 == s.cycles + i.cost(s.reg.holds(i.cond())),
{
    reveal(CpuState::perform);
    reveal(CpuState::stop);
    reveal(CpuState::halt);
    reveal(CpuState::di);
    reveal(CpuState::ei);
}

proof fn lemma_load_cost(s: CpuState, i: Instr)
    requires
        i.group() == Group::Load,
        i != Instr::Cb,
    ensures
        s.perform(i) matches Ok(t) ==> t.cycles + 1 == s.cycles + i.cost(s.reg.holds(i.cond())),
{
    reveal(CpuState::perform);
    reveal(CpuState::ld_r16_n16);
    reveal(CpuState::ld_mr_r);
    reveal(CpuState::ld_r_mr);
    reveal(CpuState::ld_r_r);
    reveal(CpuState::ld_r8_n8);
    reveal(CpuState::ld_mr_n8);
    reveal(CpuState::ld_hli_r);
    reveal(CpuState::ld_hld_r);
    reveal(CpuState::ld_r_hli);
    reveal(CpuState::ld_r_hld);
}

proof fn lemma_transfer_cost(s: CpuState, i: Instr)
    requires
        i.group() == Group::Transfer,
        i != Instr::Cb,
    ensures
        s.perform(i) matches Ok(t) ==> t.cycles + 1 == s.cycles + i.cost(s.reg.holds(i.cond())),
{
    reveal(CpuState::perform);
    reveal(CpuState::ld_a16_sp);
    reveal(CpuState::ld_a16_a);
    reveal(CpuState::ld_a_a16);
    reveal(CpuState::ldh_a8_a);
    reveal(CpuState::ldh_a_a8);
    reveal(CpuState::ld_c_a);
    reveal(CpuState::ld_a_c);
    reveal(CpuState::ld_hl_sp_e8);
    reveal(CpuState::ld_sp_hl);
}

proof fn lemma_arithmetic_cost(s: CpuState, i: Instr)
    requires
        i.group() == Group::Arithmetic,
        i != Instr::Cb,
    ensures
        s.perform(i) matches Ok(t) ==> t.cycles + 1 == s.cycles + i.cost(s.reg.holds(i.cond())),
{
    reveal(CpuState::perform);
    reveal(CpuState::inc_r8);
    reveal(CpuState::dec_r8);
    reveal(CpuState::inc_r16);
    reveal(CpuState::dec_r16);
    reveal(CpuState::inc_mr);
    reveal(CpuState::dec_mr);
    reveal(CpuState::alu);
    reveal(CpuState::add_r16_r16);
    reveal(CpuState::add_sp_e8);
}

proof fn lemma_accumulator_cost(s: CpuState, i: Instr)
    requires
        i.group() == Group::Accumulator,
        i != Instr::Cb,
    ensures
        s.perform(i) matches Ok(t) ==> t.cycles + 1 == s.cycles + i.cost(s.reg.holds(i.cond())),
{
    reveal(CpuState::perform);
    reveal(CpuState::rotate_a);
    reveal(CpuState::daa);
    reveal(CpuState::cpl);
    reveal(CpuState::scf);
    reveal(CpuState::ccf);
}

proof fn lemma_flow_cost(s: CpuState, i: Instr)
    requires
        i.group() == Group::Flow,
        i != Instr::Cb,
    ensures
        s.perform(i) matches Ok(t) ==> t.cycles + 1 == s.cycles + i.cost(s.reg.holds(i.cond())),
{
    reveal(CpuState::perform);
    reveal(CpuState::jr);
    reveal(CpuState::jp_a16);
    reveal(CpuState::jp_hl);
    reveal(CpuState::call);
    reveal(CpuState::ret);
    reveal(CpuState::reti);
    reveal(CpuState::rst);
    reveal(CpuState::push_r16);
    reveal(CpuState::pop_r16);
}

/// An instruction other than the prefix that completes takes the number of
/// cycles that its cost names, less the cycle of its fetch.
pub proof fn lemma_perform_cost(s: CpuState, i: Instr)
    requires
        i != Instr::Cb,
    ensures
        s.perform(i) matches Ok(t) ==> t.cycles + 1 == s.cycles + i.cost(s.reg.holds(i.cond())),
{
    match i.group() {
        Group::Control => lemma_control_cost(s, i),
        Group::Load => lemma_load_cost(s, i),
        Group::Transfer => lemma_transfer_cost(s, i),
        Group::Arithmetic => lemma_arithmetic_cost(s, i),
        Group::Accumulator => lemma_accumulator_cost(s, i),
        Group::Flow => lemma_flow_cost(s, i),
    }
}

/// Time is deterministic: an instruction that completes takes the number of
/// cycles that its cost names. For a branch this is the longer time if it
/// is taken and the shorter time if it is not.
pub proof fn lemma_step_cost(s: CpuState)
    requires
        s.step() is Ok,
    ensures
        ({
            &&& s.fetch() matches Ok((opcode, fetched))
            &&& spec_decode(opcode) matches Some(i)
            &&& s.step() matches Ok(t)
            &&& i != Instr::Cb ==> t.cycles == s.cycles + i.cost(s.reg.holds(i.cond()))
            &&& i == Instr::Cb ==> ({
                &&& fetched.fetch() matches Ok((second, _))
                &&& t.cycles == s.cycles + spec_decode_cb(second).cost()
            })
        }),
{
    reveal(CpuState::step);
    reveal(CpuState::execute);
    match s.fetch() {
        Ok((opcode, fetched)) => match spec_decode(opcode) {
            Some(i) => {
                if i == Instr::Cb {
                    reveal(CpuState::perform);
                    reveal(CpuState::cb);
                } else {
                    lemma_perform_cost(fetched, i);
                }
            },
            None => {},
        },
        Err(_) => {},
    }
}

/// What is pushed is popped: a push of the pair `from` followed at once by a
/// pop into the pair `to` copies `from` to `to` and leaves SP where it was,
/// five cycles later. A pop into AF drops the low nibble, as every write to
/// AF does.
///
/// This is stated of the machines in which the two bytes below SP keep what
/// is written to them.
pub proof fn lemma_push_pop(s: CpuState, from: Reg16, to: Reg16)
    requires
        s.bus.wf(),
        s.bus.keeps(dec16(s.reg.sp)),
        s.bus.keeps(dec16(dec16(s.reg.sp))),
    ensures
        ({
            &&& s.push_r16(from) matches Ok(pushed)
            &&& pushed.reg.sp == dec16(dec16(s.reg.sp))
            &&& pushed.pop_r16(to) matches Ok(popped)
            &&& popped.reg == s.reg.set16(to, s.reg.get16(from))
            &&& popped.bus == pushed.bus
            &&& popped.cycles == s.cycles + 5
        }),
{
    reveal(CpuState::push_r16);
    reveal(CpuState::pop_r16);
    let w = s.reg.get16(from);
    let sp1 = dec16(s.reg.sp);
    let sp2 = dec16(sp1);
    lemma_kept_round_trip(s.bus, sp1, high(w));
    let bus1 = s.bus.write(sp1, high(w)).unwrap();
    lemma_write_elsewhere(s.bus, sp1, high(w), sp2);
    lemma_kept_round_trip(bus1, sp2, low(w));
    lemma_write_elsewhere(bus1, sp2, low(w), sp1);
}

/// A jump or call whose condition does not hold reads its operand and does
/// nothing else: PC ends behind the operand, and the time that passed is
/// that of reading it.
pub proof fn lemma_branch_not_taken(s: CpuState, i: Instr)
    requires
        i is Jr || i is JpA16 || i is Call,
        !s.reg.holds(i.cond()),
    ensures
        i is Jr ==> s.perform(i) == (match s.fetch() {
            Ok((_, t)) => Ok::<CpuState, Stop>(t),
            Err(stop) => Err(stop),
        }),
        !(i is Jr) ==> s.perform(i) == (match s.fetch16() {
            Ok((_, t)) => Ok::<CpuState, Stop>(t),
            Err(stop) => Err(stop),
        }),
        s.perform(i) matches Ok(t) ==> {
            &&& t.reg == (crate::registers::RegState {
                pc: if i is Jr {
                    inc16(s.reg.pc)
                } else {
                    inc16(inc16(s.reg.pc))
                },
                ..s.reg
            })
            &&& t.bus == s.bus
            &&& t.ime == s.ime
            &&& t.run == s.run
        },
{
    reveal(CpuState::perform);
    reveal(CpuState::jr);
    reveal(CpuState::jp_a16);
    reveal(CpuState::call);
}

} // verus!
