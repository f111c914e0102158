use dmg_core::bus::Bus;
use dmg_core::cart::Cart;
use dmg_core::cpu::CPU;
use dmg_core::fault::Fault;
use dmg_core::io::IO;
use dmg_core::machine::RunState;
use dmg_core::ppu::GPU;
use dmg_core::registers::{Flags, Reg16, Reg8, Registers};

const CODE: u16 = 0xC000;

/// A core whose work RAM holds `program` from `CODE` on, with PC there.
fn core_with(program: &[u8]) -> CPU {
    let mut bus = Bus::new(Cart::new(), IO::new(), GPU::new());
    for (i, b) in program.iter().enumerate() {
        bus.write(CODE + i as u16, *b).unwrap();
    }
    let mut cpu = CPU::new(bus);
    let mut regs = Registers::new();
    regs.set_reg16(Reg16::PC, CODE);
    regs.set_reg16(Reg16::SP, 0xDFF0);
    regs.set_reg8(Reg8::F, 0x00);
    cpu.set_registers(regs);
    cpu
}

fn set8(cpu: &mut CPU, r: Reg8, v: u8) {
    let mut regs = cpu.registers();
    regs.set_reg8(r, v);
    cpu.set_registers(regs);
}

fn set16(cpu: &mut CPU, r: Reg16, v: u16) {
    let mut regs = cpu.registers();
    regs.set_reg16(r, v);
    cpu.set_registers(regs);
}

fn set_flags(cpu: &mut CPU, z: bool, n: bool, h: bool, c: bool) {
    let mut regs = cpu.registers();
    regs.set_flags(Flags { z, n, h, c });
    cpu.set_registers(regs);
}

fn get8(cpu: &CPU, r: Reg8) -> u8 {
    cpu.registers().get_reg8(r)
}

fn get16(cpu: &CPU, r: Reg16) -> u16 {
    cpu.registers().get_reg16(r)
}

fn flags(cpu: &CPU) -> (bool, bool, bool, bool) {
    let f = cpu.registers().flags();
    (f.z, f.n, f.h, f.c)
}

/// Runs one turn of the run loop and tells whether it fetched nothing.
fn idle_turn(cpu: &mut CPU) -> bool {
    let report = cpu.run();
    report.result.unwrap();
    report.trace.is_none()
}

/// Runs `count` steps and returns the cycles they took.
fn steps(cpu: &mut CPU, count: usize) -> u64 {
    let before = cpu.cycles();
    for _ in 0..count {
        cpu.step().result.unwrap();
    }
    cpu.cycles() - before
}

#[test]
fn power_on_state() {
    let cpu = CPU::new(Bus::new(Cart::new(), IO::new(), GPU::new()));
    assert_eq!(get16(&cpu, Reg16::PC), 0x0100);
    assert_eq!(get16(&cpu, Reg16::SP), 0xFFFE);
    assert_eq!(get16(&cpu, Reg16::AF), 0x01B0);
    assert_eq!(get16(&cpu, Reg16::BC), 0x0013);
    assert_eq!(get16(&cpu, Reg16::DE), 0x00D8);
    assert_eq!(get16(&cpu, Reg16::HL), 0x014D);
    assert!(!cpu.ime());
    assert!(!cpu.halted());
    assert_eq!(cpu.state(), RunState::Running);
    assert_eq!(cpu.cycles(), 0);
}

#[test]
fn add_immediate_that_wraps_to_zero() {
    let mut cpu = core_with(&[0xC6, 0xC6]);
    set8(&mut cpu, Reg8::A, 0x3A);
    assert_eq!(steps(&mut cpu, 1), 2);
    assert_eq!(get8(&cpu, Reg8::A), 0x00);
    assert_eq!(flags(&cpu), (true, false, true, true));
    assert_eq!(get16(&cpu, Reg16::PC), CODE + 2);
}

#[test]
fn sub_immediate_that_borrows() {
    let mut cpu = core_with(&[0xD6, 0x01]);
    set8(&mut cpu, Reg8::A, 0x00);
    assert_eq!(steps(&mut cpu, 1), 2);
    assert_eq!(get8(&cpu, Reg8::A), 0xFF);
    assert_eq!(flags(&cpu), (false, true, true, true));
    assert_eq!(get16(&cpu, Reg16::PC), CODE + 2);
}

#[test]
fn flags_keep_the_low_nibble_of_f_zero() {
    let program = [0xC6, 0xFF, 0xD6, 0x01, 0x27, 0x37, 0x3F, 0x2F, 0x07, 0xCB, 0x47, 0xA7, 0xB7, 0x3C];
    let mut cpu = core_with(&program);
    for _ in 0..13 {
        cpu.step().result.unwrap();
        assert_eq!(get8(&cpu, Reg8::F) & 0x0F, 0);
    }
}

#[test]
fn daa_instruction_keeps_a_decimal_accumulator() {
    for a in [0x00u8, 0x09, 0x10, 0x45, 0x99] {
        let mut cpu = core_with(&[0x27]);
        set8(&mut cpu, Reg8::A, a);
        set_flags(&mut cpu, false, false, false, false);
        assert_eq!(steps(&mut cpu, 1), 1);
        assert_eq!(get8(&cpu, Reg8::A), a);
    }
}

#[test]
fn interrupt_dispatch() {
    let mut cpu = core_with(&[]);
    cpu.set_ime(true);
    cpu.poke(0xFFFF, 0x01).unwrap();
    cpu.poke(0xFF0F, 0x01).unwrap();
    set16(&mut cpu, Reg16::PC, 0x1000);
    set16(&mut cpu, Reg16::SP, 0xFFFE);
    let before = cpu.cycles();
    assert_eq!(cpu.handle_interrupt(), Ok(()));
    assert_eq!(cpu.peek(0xFFFD), Ok(0x10));
    assert_eq!(cpu.peek(0xFFFC), Ok(0x00));
    assert_eq!(cpu.peek(0xFF0F), Ok(0x00));
    assert_eq!(get16(&cpu, Reg16::PC), 0x0040);
    assert!(!cpu.ime());
    assert_eq!(get16(&cpu, Reg16::SP), 0xFFFC);
    assert_eq!(cpu.cycles() - before, 5);
}

#[test]
fn interrupts_are_served_by_priority_one_at_a_time() {
    let vectors: [u16; 5] = [0x0040, 0x0048, 0x0050, 0x0058, 0x0060];
    let mut cpu = core_with(&[]);
    cpu.poke(0xFFFF, 0x1F).unwrap();
    cpu.poke(0xFF0F, 0xFF).unwrap();
    let mut left: u8 = 0xFF;
    for k in 0..5 {
        cpu.set_ime(true);
        assert_eq!(cpu.handle_interrupt(), Ok(()));
        assert_eq!(get16(&cpu, Reg16::PC), vectors[k]);
        left &= !(1u8 << k);
        assert_eq!(cpu.peek(0xFF0F), Ok(left));
        assert!(!cpu.ime());
    }
    // the three upper bits name no source
    cpu.set_ime(true);
    set16(&mut cpu, Reg16::PC, 0x1234);
    assert_eq!(cpu.handle_interrupt(), Ok(()));
    assert_eq!(get16(&cpu, Reg16::PC), 0x1234);
    assert!(cpu.ime());
    assert_eq!(cpu.peek(0xFF0F), Ok(0xE0));
}

#[test]
fn interrupt_needs_enable_and_request() {
    let mut cpu = core_with(&[]);
    cpu.set_ime(true);
    cpu.poke(0xFFFF, 0x04).unwrap();
    cpu.poke(0xFF0F, 0x1B).unwrap();
    let before = cpu.cycles();
    assert_eq!(cpu.handle_interrupt(), Ok(()));
    assert_eq!(get16(&cpu, Reg16::PC), CODE);
    assert_eq!(get16(&cpu, Reg16::SP), 0xDFF0);
    assert!(cpu.ime());
    assert_eq!(cpu.cycles(), before);
    cpu.poke(0xFF0F, 0x1F).unwrap();
    assert_eq!(cpu.handle_interrupt(), Ok(()));
    assert_eq!(get16(&cpu, Reg16::PC), 0x0050);
    assert_eq!(cpu.peek(0xFF0F), Ok(0x1B));
}

#[test]
fn interrupt_with_master_enable_off_waits() {
    let mut cpu = core_with(&[]);
    cpu.poke(0xFFFF, 0x01).unwrap();
    cpu.poke(0xFF0F, 0x01).unwrap();
    assert_eq!(cpu.handle_interrupt(), Ok(()));
    assert_eq!(get16(&cpu, Reg16::PC), CODE);
    assert_eq!(cpu.peek(0xFF0F), Ok(0x01));
    assert_eq!(get16(&cpu, Reg16::SP), 0xDFF0);
}

#[test]
fn call_then_ret() {
    // CALL 0xC010 ... at 0xC010: RET
    let mut program = vec![0u8; 0x11];
    program[0] = 0xCD;
    program[1] = 0x10;
    program[2] = 0xC0;
    program[0x10] = 0xC9;
    let mut cpu = core_with(&program);
    assert_eq!(steps(&mut cpu, 1), 6);
    assert_eq!(get16(&cpu, Reg16::PC), 0xC010);
    assert_eq!(get16(&cpu, Reg16::SP), 0xDFEE);
    assert_eq!(cpu.peek(0xDFEF), Ok(0xC0));
    assert_eq!(cpu.peek(0xDFEE), Ok(0x03));
    assert_eq!(steps(&mut cpu, 1), 4);
    assert_eq!(get16(&cpu, Reg16::PC), CODE + 3);
    assert_eq!(get16(&cpu, Reg16::SP), 0xDFF0);
}

#[test]
fn call_then_ret_with_the_stack_in_the_echo_range_loses_the_address() {
    let mut program = vec![0u8; 0x11];
    program[0] = 0xCD;
    program[1] = 0x10;
    program[2] = 0xC0;
    program[0x10] = 0xC9;
    let mut cpu = core_with(&program);
    set16(&mut cpu, Reg16::SP, 0xF000);
    assert_eq!(steps(&mut cpu, 2), 10);
    assert_eq!(get16(&cpu, Reg16::PC), 0x0000);
    assert_eq!(get16(&cpu, Reg16::SP), 0xF000);
}

#[test]
fn halt_wakes_without_entering_the_handler() {
    let mut cpu = core_with(&[0x76]);
    cpu.step().result.unwrap();
    assert!(cpu.halted());
    cpu.poke(0xFFFF, 0x01).unwrap();
    cpu.poke(0xFF0F, 0x01).unwrap();
    let pc = get16(&cpu, Reg16::PC);
    assert_eq!(cpu.handle_interrupt(), Ok(()));
    assert_eq!(cpu.state(), RunState::Running);
    assert!(!cpu.halted());
    assert_eq!(get16(&cpu, Reg16::PC), pc);
    assert!(!cpu.ime());
    assert_eq!(cpu.peek(0xFF0F), Ok(0x01));
    assert_eq!(get16(&cpu, Reg16::SP), 0xDFF0);
}

#[test]
fn bits_that_name_no_source_wake_but_enter_no_handler() {
    let mut cpu = core_with(&[0x76]);
    cpu.set_ime(true);
    cpu.step().result.unwrap();
    assert!(cpu.halted());
    cpu.poke(0xFFFF, 0xFF).unwrap();
    cpu.poke(0xFF0F, 0xE0).unwrap();
    let cycles = cpu.cycles();
    assert_eq!(cpu.handle_interrupt(), Ok(()));
    assert!(!cpu.halted());
    assert!(cpu.ime());
    assert_eq!(get16(&cpu, Reg16::PC), CODE + 1);
    assert_eq!(get16(&cpu, Reg16::SP), 0xDFF0);
    assert_eq!(cpu.peek(0xFF0F), Ok(0xE0));
    assert_eq!(cpu.cycles(), cycles);
}

#[test]
fn halted_core_waits_one_cycle_a_turn() {
    let mut cpu = core_with(&[0x76, 0x3C]);
    let report = cpu.run();
    assert_eq!(report.result, Ok(()));
    assert_eq!(report.trace.map(|t| t.opcode), Some(0x76));
    assert!(cpu.halted());
    let before = cpu.cycles();
    for _ in 0..10 {
        assert!(idle_turn(&mut cpu));
    }
    assert!(cpu.halted());
    assert_eq!(cpu.cycles() - before, 10);
    assert_eq!(get16(&cpu, Reg16::PC), CODE + 1);
    cpu.poke(0xFFFF, 0x04).unwrap();
    cpu.poke(0xFF0F, 0x04).unwrap();
    assert!(idle_turn(&mut cpu));
    assert!(!cpu.halted());
    let a = get8(&cpu, Reg8::A);
    assert_eq!(cpu.run().trace.map(|t| t.opcode), Some(0x3C));
    assert_eq!(get8(&cpu, Reg8::A), a.wrapping_add(1));
}

#[test]
fn halted_core_with_interrupts_enabled_enters_the_handler() {
    let mut cpu = core_with(&[0x76]);
    cpu.set_ime(true);
    cpu.run().result.unwrap();
    assert!(cpu.halted());
    cpu.poke(0xFFFF, 0x02).unwrap();
    cpu.poke(0xFF0F, 0x02).unwrap();
    let before = cpu.cycles();
    assert!(idle_turn(&mut cpu));
    assert!(!cpu.halted());
    assert_eq!(get16(&cpu, Reg16::PC), 0x0048);
    assert_eq!(cpu.cycles() - before, 6);
    assert_eq!(cpu.peek(0xDFEF), Ok(0xC0));
    assert_eq!(cpu.peek(0xDFEE), Ok(0x01));
}

#[test]
fn stop_is_final() {
    let mut cpu = core_with(&[0x10, 0x00, 0x3C]);
    assert_eq!(steps(&mut cpu, 1), 1);
    assert_eq!(cpu.state(), RunState::Stopped);
    assert_eq!(get16(&cpu, Reg16::PC), CODE + 2);
    let cycles = cpu.cycles();
    let a = get8(&cpu, Reg8::A);
    cpu.set_ime(true);
    cpu.poke(0xFFFF, 0x01).unwrap();
    cpu.poke(0xFF0F, 0x01).unwrap();
    for _ in 0..3 {
        assert!(idle_turn(&mut cpu));
    }
    assert_eq!(cpu.handle_interrupt(), Ok(()));
    assert_eq!(cpu.state(), RunState::Stopped);
    assert_eq!(cpu.cycles(), cycles);
    assert_eq!(get8(&cpu, Reg8::A), a);
    assert_eq!(get16(&cpu, Reg16::PC), CODE + 2);
}

#[test]
fn ei_takes_effect_after_the_next_instruction() {
    let mut cpu = core_with(&[0xFB, 0x00, 0x00]);
    cpu.step().result.unwrap();
    assert!(!cpu.ime());
    cpu.step().result.unwrap();
    assert!(cpu.ime());
    cpu.step().result.unwrap();
    assert!(cpu.ime());
}

#[test]
fn ei_does_not_let_an_interrupt_in_before_the_next_instruction() {
    // EI; INC A; INC A with an interrupt pending all along
    let mut cpu = core_with(&[0xFB, 0x3C, 0x3C]);
    set8(&mut cpu, Reg8::A, 0);
    cpu.poke(0xFFFF, 0x01).unwrap();
    cpu.poke(0xFF0F, 0x01).unwrap();
    cpu.run().result.unwrap();
    assert_eq!(get16(&cpu, Reg16::PC), CODE + 1);
    cpu.run().result.unwrap();
    assert_eq!(get8(&cpu, Reg8::A), 1);
    assert_eq!(get16(&cpu, Reg16::PC), 0x0040);
    assert!(!cpu.ime());
    assert_eq!(cpu.peek(0xDFEF), Ok(0xC0));
    assert_eq!(cpu.peek(0xDFEE), Ok(0x02));
}

#[test]
fn di_is_immediate_and_cancels_a_pending_ei() {
    let mut cpu = core_with(&[0xF3, 0xFB, 0xF3, 0x00, 0x00]);
    cpu.set_ime(true);
    cpu.step().result.unwrap();
    assert!(!cpu.ime());
    cpu.step().result.unwrap();
    cpu.step().result.unwrap();
    assert!(!cpu.ime());
    cpu.step().result.unwrap();
    cpu.step().result.unwrap();
    assert!(!cpu.ime());
}

#[test]
fn reti_enables_interrupts_at_once() {
    let mut cpu = core_with(&[0xD9]);
    set16(&mut cpu, Reg16::SP, 0xD000);
    cpu.poke(0xD000, 0x34).unwrap();
    cpu.poke(0xD001, 0x12).unwrap();
    assert_eq!(steps(&mut cpu, 1), 4);
    assert!(cpu.ime());
    assert_eq!(get16(&cpu, Reg16::PC), 0x1234);
    assert_eq!(get16(&cpu, Reg16::SP), 0xD002);
}

#[test]
fn illegal_opcodes_stop_the_machine() {
    for op in [0xD3u8, 0xDB, 0xDD, 0xE3, 0xE4, 0xEB, 0xEC, 0xED, 0xF4, 0xFC, 0xFD] {
        let mut cpu = core_with(&[0x00, op]);
        cpu.step().result.unwrap();
        let regs = cpu.registers();
        let report = cpu.step();
        assert_eq!(report.result, Err(Fault::IllegalOpcode { opcode: op, pc: CODE + 1 }));
        assert_eq!(report.trace.map(|t| t.opcode), Some(op));
        assert_eq!(get16(&cpu, Reg16::PC), CODE + 2);
        assert_eq!(get16(&cpu, Reg16::AF), regs.get_reg16(Reg16::AF));
        assert_eq!(get16(&cpu, Reg16::SP), regs.get_reg16(Reg16::SP));
        assert_eq!(cpu.cycles(), 2);
    }
}

#[test]
fn execute_names_the_address_of_the_opcode() {
    let mut cpu = core_with(&[]);
    set16(&mut cpu, Reg16::PC, 0x0000);
    assert_eq!(cpu.execute(0xFD), Err(Fault::IllegalOpcode { opcode: 0xFD, pc: 0xFFFF }));
    assert_eq!(get16(&cpu, Reg16::PC), 0x0000);
    assert_eq!(cpu.cycles(), 0);
}

#[test]
fn fetch_from_a_missing_cartridge_is_a_fault() {
    let mut cpu = CPU::new(Bus::new(Cart::new(), IO::new(), GPU::new()));
    let report = cpu.step();
    assert_eq!(report.result, Err(Fault::UnloadedCartridgeAccess));
    assert!(report.trace.is_none());
    assert_eq!(get16(&cpu, Reg16::PC), 0x0100);
    assert_eq!(cpu.cycles(), 0);
    let report = cpu.run();
    assert_eq!(report.result, Err(Fault::UnloadedCartridgeAccess));
    assert!(report.trace.is_none());
}

#[test]
fn fault_in_the_middle_of_an_instruction_keeps_what_was_done() {
    // LD A,(0x0000) with no cartridge: the operand is fetched, the load fails
    let mut cpu = core_with(&[0xFA, 0x00, 0x00]);
    set8(&mut cpu, Reg8::A, 0x55);
    let report = cpu.step();
    assert_eq!(report.result, Err(Fault::UnloadedCartridgeAccess));
    let trace = report.trace.unwrap();
    assert_eq!(trace.opcode, 0xFA);
    assert_eq!(trace.regs.get_reg16(Reg16::PC), CODE + 1);
    assert_eq!(get16(&cpu, Reg16::PC), CODE + 3);
    assert_eq!(cpu.cycles(), 3);
    assert_eq!(get8(&cpu, Reg8::A), 0x55);
}

#[test]
fn fault_on_a_short_cartridge_names_the_address() {
    let mut cart = Cart::new();
    let mut rom = vec![0u8; 0x0150];
    rom[0x0100] = 0xC3;
    rom[0x0101] = 0x00;
    rom[0x0102] = 0x40;
    cart.load_rom(rom).unwrap();
    let mut cpu = CPU::new(Bus::new(cart, IO::new(), GPU::new()));
    let report = cpu.step();
    assert_eq!(report.result, Ok(()));
    assert_eq!(report.trace.map(|t| t.opcode), Some(0xC3));
    assert_eq!(get16(&cpu, Reg16::PC), 0x4000);
    let report = cpu.step();
    assert_eq!(report.result, Err(Fault::AddressRangeViolation { address: 0x4000 }));
    assert!(report.trace.is_none());
}

#[test]
fn trace_holds_the_opcode_and_the_registers_after_the_fetch() {
    let mut cpu = core_with(&[0x3E, 0x77]);
    set8(&mut cpu, Reg8::A, 0x11);
    let report = cpu.step();
    assert_eq!(report.result, Ok(()));
    let trace = report.trace.unwrap();
    assert_eq!(trace.opcode, 0x3E);
    assert_eq!(trace.regs.get_reg16(Reg16::PC), CODE + 1);
    assert_eq!(trace.regs.get_reg8(Reg8::A), 0x11);
    assert_eq!(get8(&cpu, Reg8::A), 0x77);
}

#[test]
fn relative_jumps() {
    // JR +2 ; (skipped) ; JR NZ,-4 with Z clear
    let mut cpu = core_with(&[0x18, 0x02, 0x00, 0x00, 0x20, 0xFC]);
    assert_eq!(steps(&mut cpu, 1), 3);
    assert_eq!(get16(&cpu, Reg16::PC), CODE + 4);
    assert_eq!(steps(&mut cpu, 1), 3);
    assert_eq!(get16(&cpu, Reg16::PC), CODE + 2);
}

#[test]
fn conditional_branches_not_taken_skip_their_operands() {
    // JR Z ; JP C ; CALL Z ; RET C with all flags clear
    let mut cpu = core_with(&[0x28, 0x10, 0xDA, 0x00, 0xD0, 0xCC, 0x00, 0xD0, 0xD8]);
    assert_eq!(steps(&mut cpu, 1), 2);
    assert_eq!(get16(&cpu, Reg16::PC), CODE + 2);
    assert_eq!(steps(&mut cpu, 1), 3);
    assert_eq!(get16(&cpu, Reg16::PC), CODE + 5);
    assert_eq!(steps(&mut cpu, 1), 3);
    assert_eq!(get16(&cpu, Reg16::PC), CODE + 8);
    assert_eq!(get16(&cpu, Reg16::SP), 0xDFF0);
    assert_eq!(steps(&mut cpu, 1), 2);
    assert_eq!(get16(&cpu, Reg16::PC), CODE + 9);
    assert_eq!(get16(&cpu, Reg16::SP), 0xDFF0);
}

#[test]
fn conditional_branches_taken() {
    // JP NC,0xC010
    let mut cpu = core_with(&[0xD2, 0x10, 0xC0]);
    assert_eq!(steps(&mut cpu, 1), 4);
    assert_eq!(get16(&cpu, Reg16::PC), 0xC010);
    // CALL C with C set
    let mut cpu = core_with(&[0xDC, 0x20, 0xC0]);
    set_flags(&mut cpu, false, false, false, true);
    assert_eq!(steps(&mut cpu, 1), 6);
    assert_eq!(get16(&cpu, Reg16::PC), 0xC020);
    assert_eq!(get16(&cpu, Reg16::SP), 0xDFEE);
    // RET Z with Z set
    let mut cpu = core_with(&[0xC8]);
    set_flags(&mut cpu, true, false, false, false);
    set16(&mut cpu, Reg16::SP, 0xD000);
    cpu.poke(0xD000, 0x78).unwrap();
    cpu.poke(0xD001, 0x56).unwrap();
    assert_eq!(steps(&mut cpu, 1), 5);
    assert_eq!(get16(&cpu, Reg16::PC), 0x5678);
    // JR C with C set, backwards
    let mut cpu = core_with(&[0x38, 0xFE]);
    set_flags(&mut cpu, false, false, false, true);
    assert_eq!(steps(&mut cpu, 1), 3);
    assert_eq!(get16(&cpu, Reg16::PC), CODE);
}

#[test]
fn jp_hl_and_rst() {
    let mut cpu = core_with(&[0xE9]);
    set16(&mut cpu, Reg16::HL, 0xC123);
    assert_eq!(steps(&mut cpu, 1), 1);
    assert_eq!(get16(&cpu, Reg16::PC), 0xC123);
    let mut cpu = core_with(&[0xDF]);
    assert_eq!(steps(&mut cpu, 1), 4);
    assert_eq!(get16(&cpu, Reg16::PC), 0x0018);
    assert_eq!(get16(&cpu, Reg16::SP), 0xDFEE);
    assert_eq!(cpu.peek(0xDFEF), Ok(0xC0));
    assert_eq!(cpu.peek(0xDFEE), Ok(0x01));
}

#[test]
fn push_and_pop() {
    // PUSH BC ; POP DE ; PUSH AF ; POP HL
    let mut cpu = core_with(&[0xC5, 0xD1, 0xF5, 0xE1]);
    set16(&mut cpu, Reg16::BC, 0x1234);
    set16(&mut cpu, Reg16::AF, 0xABF0);
    assert_eq!(steps(&mut cpu, 1), 4);
    assert_eq!(get16(&cpu, Reg16::SP), 0xDFEE);
    assert_eq!(cpu.peek(0xDFEF), Ok(0x12));
    assert_eq!(cpu.peek(0xDFEE), Ok(0x34));
    assert_eq!(steps(&mut cpu, 1), 3);
    assert_eq!(get16(&cpu, Reg16::DE), 0x1234);
    assert_eq!(get16(&cpu, Reg16::SP), 0xDFF0);
    cpu.step().result.unwrap();
    cpu.step().result.unwrap();
    assert_eq!(get16(&cpu, Reg16::HL), 0xABF0);
}

#[test]
fn pop_af_drops_the_low_nibble() {
    let mut cpu = core_with(&[0xF1]);
    set16(&mut cpu, Reg16::SP, 0xD000);
    cpu.poke(0xD000, 0xFF).unwrap();
    cpu.poke(0xD001, 0x12).unwrap();
    cpu.step().result.unwrap();
    assert_eq!(get16(&cpu, Reg16::AF), 0x12F0);
    assert_eq!(flags(&cpu), (true, true, true, true));
}

#[test]
fn loads_of_immediates_and_registers() {
    // LD BC,0x1234 ; LD D,0x56 ; LD E,D ; LD (HL),E ; LD A,(HL) ; LD (HL),0x9A
    let mut cpu = core_with(&[0x01, 0x34, 0x12, 0x16, 0x56, 0x5A, 0x73, 0x7E, 0x36, 0x9A]);
    set16(&mut cpu, Reg16::HL, 0xD100);
    assert_eq!(steps(&mut cpu, 1), 3);
    assert_eq!(get16(&cpu, Reg16::BC), 0x1234);
    assert_eq!(steps(&mut cpu, 1), 2);
    assert_eq!(get8(&cpu, Reg8::D), 0x56);
    assert_eq!(steps(&mut cpu, 1), 1);
    assert_eq!(get8(&cpu, Reg8::E), 0x56);
    assert_eq!(steps(&mut cpu, 1), 2);
    assert_eq!(cpu.peek(0xD100), Ok(0x56));
    assert_eq!(steps(&mut cpu, 1), 2);
    assert_eq!(get8(&cpu, Reg8::A), 0x56);
    assert_eq!(steps(&mut cpu, 1), 3);
    assert_eq!(cpu.peek(0xD100), Ok(0x9A));
    assert_eq!(flags(&cpu), (false, false, false, false));
}

#[test]
fn loads_through_hl_with_increment_and_decrement() {
    // LD (HL+),A ; LD (HL-),A ; LD A,(HL+) ; LD A,(HL-)
    let mut cpu = core_with(&[0x22, 0x32, 0x2A, 0x3A]);
    set16(&mut cpu, Reg16::HL, 0xD100);
    set8(&mut cpu, Reg8::A, 0x42);
    assert_eq!(steps(&mut cpu, 1), 2);
    assert_eq!(cpu.peek(0xD100), Ok(0x42));
    assert_eq!(get16(&cpu, Reg16::HL), 0xD101);
    set8(&mut cpu, Reg8::A, 0x43);
    assert_eq!(steps(&mut cpu, 1), 2);
    assert_eq!(cpu.peek(0xD101), Ok(0x43));
    assert_eq!(get16(&cpu, Reg16::HL), 0xD100);
    assert_eq!(steps(&mut cpu, 1), 2);
    assert_eq!(get8(&cpu, Reg8::A), 0x42);
    assert_eq!(get16(&cpu, Reg16::HL), 0xD101);
    assert_eq!(steps(&mut cpu, 1), 2);
    assert_eq!(get8(&cpu, Reg8::A), 0x43);
    assert_eq!(get16(&cpu, Reg16::HL), 0xD100);
}

#[test]
fn loads_through_absolute_addresses() {
    // LD (0xD200),A ; LD A,(0xD201) ; LD (0xD210),SP
    let mut cpu = core_with(&[0xEA, 0x00, 0xD2, 0xFA, 0x01, 0xD2, 0x08, 0x10, 0xD2]);
    cpu.poke(0xD201, 0x99).unwrap();
    set8(&mut cpu, Reg8::A, 0x11);
    assert_eq!(steps(&mut cpu, 1), 4);
    assert_eq!(cpu.peek(0xD200), Ok(0x11));
    assert_eq!(steps(&mut cpu, 1), 4);
    assert_eq!(get8(&cpu, Reg8::A), 0x99);
    assert_eq!(steps(&mut cpu, 1), 5);
    assert_eq!(cpu.peek(0xD210), Ok(0xF0));
    assert_eq!(cpu.peek(0xD211), Ok(0xDF));
}

#[test]
fn loads_through_the_upper_page() {
    // LDH (0x80),A ; LDH A,(0x81) ; LD (C),A ; LD A,(C)
    let mut cpu = core_with(&[0xE0, 0x80, 0xF0, 0x81, 0xE2, 0xF2]);
    cpu.poke(0xFF81, 0x5C).unwrap();
    set8(&mut cpu, Reg8::A, 0x3B);
    assert_eq!(steps(&mut cpu, 1), 3);
    assert_eq!(cpu.peek(0xFF80), Ok(0x3B));
    assert_eq!(steps(&mut cpu, 1), 3);
    assert_eq!(get8(&cpu, Reg8::A), 0x5C);
    set8(&mut cpu, Reg8::C, 0x90);
    assert_eq!(steps(&mut cpu, 1), 2);
    assert_eq!(cpu.peek(0xFF90), Ok(0x5C));
    cpu.poke(0xFF90, 0x6D).unwrap();
    assert_eq!(steps(&mut cpu, 1), 2);
    assert_eq!(get8(&cpu, Reg8::A), 0x6D);
}

#[test]
fn stack_pointer_loads() {
    // LD SP,HL ; LD HL,SP+2 ; ADD SP,-1 ; LD SP,0xFFFF ; ADD SP,1
    let mut cpu = core_with(&[0xF9, 0xF8, 0x02, 0xE8, 0xFF, 0x31, 0xFF, 0xFF, 0xE8, 0x01]);
    set16(&mut cpu, Reg16::HL, 0xFFF8);
    set_flags(&mut cpu, true, true, true, true);
    assert_eq!(steps(&mut cpu, 1), 2);
    assert_eq!(get16(&cpu, Reg16::SP), 0xFFF8);
    assert_eq!(flags(&cpu), (true, true, true, true));
    assert_eq!(steps(&mut cpu, 1), 3);
    assert_eq!(get16(&cpu, Reg16::HL), 0xFFFA);
    assert_eq!(get16(&cpu, Reg16::SP), 0xFFF8);
    assert_eq!(flags(&cpu), (false, false, false, false));
    assert_eq!(steps(&mut cpu, 1), 4);
    assert_eq!(get16(&cpu, Reg16::SP), 0xFFF7);
    assert_eq!(flags(&cpu), (false, false, true, true));
    cpu.step().result.unwrap();
    assert_eq!(steps(&mut cpu, 1), 4);
    assert_eq!(get16(&cpu, Reg16::SP), 0x0000);
    assert_eq!(flags(&cpu), (false, false, true, true));
}

#[test]
fn arithmetic_with_registers_and_memory() {
    // ADD A,B ; ADC A,(HL) ; SUB C ; SBC A,0x01 ; AND D ; XOR A ; OR E ; CP 0x40
    let program = [0x80, 0x8E, 0x91, 0xDE, 0x01, 0xA2, 0xAF, 0xB3, 0xFE, 0x40];
    let mut cpu = core_with(&program);
    set8(&mut cpu, Reg8::A, 0xF0);
    set8(&mut cpu, Reg8::B, 0x20);
    set8(&mut cpu, Reg8::C, 0x05);
    set8(&mut cpu, Reg8::D, 0x0F);
    set8(&mut cpu, Reg8::E, 0x3C);
    set16(&mut cpu, Reg16::HL, 0xD100);
    cpu.poke(0xD100, 0x0F).unwrap();
    assert_eq!(steps(&mut cpu, 1), 1);
    assert_eq!(get8(&cpu, Reg8::A), 0x10);
    assert_eq!(flags(&cpu), (false, false, false, true));
    assert_eq!(steps(&mut cpu, 1), 2);
    assert_eq!(get8(&cpu, Reg8::A), 0x20);
    assert_eq!(flags(&cpu), (false, false, true, false));
    assert_eq!(steps(&mut cpu, 1), 1);
    assert_eq!(get8(&cpu, Reg8::A), 0x1B);
    assert_eq!(flags(&cpu), (false, true, true, false));
    assert_eq!(steps(&mut cpu, 1), 2);
    assert_eq!(get8(&cpu, Reg8::A), 0x1A);
    assert_eq!(flags(&cpu), (false, true, false, false));
    assert_eq!(steps(&mut cpu, 1), 1);
    assert_eq!(get8(&cpu, Reg8::A), 0x0A);
    assert_eq!(flags(&cpu), (false, false, true, false));
    assert_eq!(steps(&mut cpu, 1), 1);
    assert_eq!(get8(&cpu, Reg8::A), 0x00);
    assert_eq!(flags(&cpu), (true, false, false, false));
    assert_eq!(steps(&mut cpu, 1), 1);
    assert_eq!(get8(&cpu, Reg8::A), 0x3C);
    assert_eq!(flags(&cpu), (false, false, false, false));
    assert_eq!(steps(&mut cpu, 1), 2);
    assert_eq!(get8(&cpu, Reg8::A), 0x3C);
    assert_eq!(flags(&cpu), (false, true, false, true));
}

#[test]
fn adc_a_a_doubles_with_carry() {
    let mut cpu = core_with(&[0x8F]);
    set8(&mut cpu, Reg8::A, 0x81);
    set_flags(&mut cpu, false, false, false, true);
    cpu.step().result.unwrap();
    assert_eq!(get8(&cpu, Reg8::A), 0x03);
    assert_eq!(flags(&cpu), (false, false, false, true));
}

#[test]
fn increments_and_decrements() {
    // INC B ; DEC C ; INC (HL) ; DEC (HL) ; INC DE ; DEC SP
    let mut cpu = core_with(&[0x04, 0x0D, 0x34, 0x35, 0x13, 0x3B]);
    set8(&mut cpu, Reg8::B, 0xFF);
    set8(&mut cpu, Reg8::C, 0x01);
    set16(&mut cpu, Reg16::HL, 0xD100);
    set16(&mut cpu, Reg16::DE, 0xFFFF);
    cpu.poke(0xD100, 0x0F).unwrap();
    set_flags(&mut cpu, false, false, false, true);
    assert_eq!(steps(&mut cpu, 1), 1);
    assert_eq!(get8(&cpu, Reg8::B), 0x00);
    assert_eq!(flags(&cpu), (true, false, true, true));
    assert_eq!(steps(&mut cpu, 1), 1);
    assert_eq!(get8(&cpu, Reg8::C), 0x00);
    assert_eq!(flags(&cpu), (true, true, false, true));
    assert_eq!(steps(&mut cpu, 1), 3);
    assert_eq!(cpu.peek(0xD100), Ok(0x10));
    assert_eq!(flags(&cpu), (false, false, true, true));
    assert_eq!(steps(&mut cpu, 1), 3);
    assert_eq!(cpu.peek(0xD100), Ok(0x0F));
    assert_eq!(flags(&cpu), (false, true, true, true));
    assert_eq!(steps(&mut cpu, 1), 2);
    assert_eq!(get16(&cpu, Reg16::DE), 0x0000);
    assert_eq!(flags(&cpu), (false, true, true, true));
    assert_eq!(steps(&mut cpu, 1), 2);
    assert_eq!(get16(&cpu, Reg16::SP), 0xDFEF);
}

#[test]
fn wide_addition() {
    // ADD HL,BC ; ADD HL,HL
    let mut cpu = core_with(&[0x09, 0x29]);
    set16(&mut cpu, Reg16::HL, 0x8A23);
    set16(&mut cpu, Reg16::BC, 0x0605);
    set_flags(&mut cpu, true, true, false, false);
    assert_eq!(steps(&mut cpu, 1), 2);
    assert_eq!(get16(&cpu, Reg16::HL), 0x9028);
    assert_eq!(flags(&cpu), (true, false, true, false));
    assert_eq!(steps(&mut cpu, 1), 2);
    assert_eq!(get16(&cpu, Reg16::HL), 0x2050);
    assert_eq!(flags(&cpu), (true, false, false, true));
}

#[test]
fn accumulator_rotates() {
    // RLCA ; RRCA ; RLA ; RRA
    let mut cpu = core_with(&[0x07, 0x0F, 0x17, 0x1F]);
    set8(&mut cpu, Reg8::A, 0x80);
    set_flags(&mut cpu, true, true, true, false);
    assert_eq!(steps(&mut cpu, 1), 1);
    assert_eq!(get8(&cpu, Reg8::A), 0x01);
    assert_eq!(flags(&cpu), (false, false, false, true));
    cpu.step().result.unwrap();
    assert_eq!(get8(&cpu, Reg8::A), 0x80);
    assert_eq!(flags(&cpu), (false, false, false, true));
    cpu.step().result.unwrap();
    assert_eq!(get8(&cpu, Reg8::A), 0x01);
    assert_eq!(flags(&cpu), (false, false, false, true));
    cpu.step().result.unwrap();
    assert_eq!(get8(&cpu, Reg8::A), 0x80);
    assert_eq!(flags(&cpu), (false, false, false, true));
}

#[test]
fn flag_instructions() {
    // SCF ; CCF ; CPL ; DAA
    let mut cpu = core_with(&[0x37, 0x3F, 0x2F, 0x27]);
    set8(&mut cpu, Reg8::A, 0x35);
    set_flags(&mut cpu, true, true, true, false);
    cpu.step().result.unwrap();
    assert_eq!(flags(&cpu), (true, false, false, true));
    cpu.step().result.unwrap();
    assert_eq!(flags(&cpu), (true, false, false, false));
    cpu.step().result.unwrap();
    assert_eq!(get8(&cpu, Reg8::A), 0xCA);
    assert_eq!(flags(&cpu), (true, true, true, false));
    cpu.step().result.unwrap();
    assert_eq!(get8(&cpu, Reg8::A), 0xC4);
    assert_eq!(flags(&cpu), (false, true, false, false));
}

#[test]
fn prefixed_instructions_on_registers() {
    // RLC B ; SWAP A ; BIT 7,H ; RES 0,L ; SET 3,E ; SRL C
    let program = [0xCB, 0x00, 0xCB, 0x37, 0xCB, 0x7C, 0xCB, 0x85, 0xCB, 0xDB, 0xCB, 0x39];
    let mut cpu = core_with(&program);
    set8(&mut cpu, Reg8::B, 0x85);
    set8(&mut cpu, Reg8::A, 0xF1);
    set8(&mut cpu, Reg8::H, 0x7F);
    set8(&mut cpu, Reg8::L, 0xFF);
    set8(&mut cpu, Reg8::E, 0x00);
    set8(&mut cpu, Reg8::C, 0x01);
    assert_eq!(steps(&mut cpu, 1), 2);
    assert_eq!(get8(&cpu, Reg8::B), 0x0B);
    assert_eq!(flags(&cpu), (false, false, false, true));
    assert_eq!(steps(&mut cpu, 1), 2);
    assert_eq!(get8(&cpu, Reg8::A), 0x1F);
    assert_eq!(flags(&cpu), (false, false, false, false));
    set_flags(&mut cpu, false, true, false, true);
    assert_eq!(steps(&mut cpu, 1), 2);
    assert_eq!(get8(&cpu, Reg8::H), 0x7F);
    assert_eq!(flags(&cpu), (true, false, true, true));
    assert_eq!(steps(&mut cpu, 1), 2);
    assert_eq!(get8(&cpu, Reg8::L), 0xFE);
    assert_eq!(flags(&cpu), (true, false, true, true));
    assert_eq!(steps(&mut cpu, 1), 2);
    assert_eq!(get8(&cpu, Reg8::E), 0x08);
    assert_eq!(flags(&cpu), (true, false, true, true));
    assert_eq!(steps(&mut cpu, 1), 2);
    assert_eq!(get8(&cpu, Reg8::C), 0x00);
    assert_eq!(flags(&cpu), (true, false, false, true));
    assert_eq!(get16(&cpu, Reg16::PC), CODE + 12);
}

#[test]
fn prefixed_instructions_on_memory() {
    // SLA (HL) ; BIT 0,(HL) ; SET 7,(HL) ; RES 1,(HL) ; SRA (HL) ; RR (HL)
    let program = [0xCB, 0x26, 0xCB, 0x46, 0xCB, 0xFE, 0xCB, 0x8E, 0xCB, 0x2E, 0xCB, 0x1E];
    let mut cpu = core_with(&program);
    set16(&mut cpu, Reg16::HL, 0xD100);
    cpu.poke(0xD100, 0x81).unwrap();
    assert_eq!(steps(&mut cpu, 1), 4);
    assert_eq!(cpu.peek(0xD100), Ok(0x02));
    assert_eq!(flags(&cpu), (false, false, false, true));
    assert_eq!(steps(&mut cpu, 1), 3);
    assert_eq!(cpu.peek(0xD100), Ok(0x02));
    assert_eq!(flags(&cpu), (true, false, true, true));
    assert_eq!(steps(&mut cpu, 1), 4);
    assert_eq!(cpu.peek(0xD100), Ok(0x82));
    assert_eq!(steps(&mut cpu, 1), 4);
    assert_eq!(cpu.peek(0xD100), Ok(0x80));
    assert_eq!(flags(&cpu), (true, false, true, true));
    assert_eq!(steps(&mut cpu, 1), 4);
    assert_eq!(cpu.peek(0xD100), Ok(0xC0));
    assert_eq!(flags(&cpu), (false, false, false, false));
    set_flags(&mut cpu, false, false, false, true);
    assert_eq!(steps(&mut cpu, 1), 4);
    assert_eq!(cpu.peek(0xD100), Ok(0xE0));
    assert_eq!(flags(&cpu), (false, false, false, false));
}

#[test]
fn nop_takes_one_cycle() {
    let mut cpu = core_with(&[0x00, 0x00, 0x00]);
    assert_eq!(steps(&mut cpu, 3), 3);
    assert_eq!(get16(&cpu, Reg16::PC), CODE + 3);
}

#[test]
fn program_counter_wraps() {
    let mut cpu = core_with(&[]);
    cpu.poke(0xFFFF, 0x00).unwrap();
    set16(&mut cpu, Reg16::PC, 0xFFFF);
    cpu.step().result.unwrap();
    assert_eq!(get16(&cpu, Reg16::PC), 0x0000);
}

#[test]
fn peek_and_poke_count_no_cycle() {
    let mut cpu = core_with(&[]);
    assert_eq!(cpu.poke(0xC100, 0x12), Ok(()));
    assert_eq!(cpu.peek(0xC100), Ok(0x12));
    assert_eq!(cpu.peek(0x0000), Err(Fault::UnloadedCartridgeAccess));
    assert_eq!(cpu.poke(0x0000, 1), Err(Fault::UnloadedCartridgeAccess));
    assert_eq!(cpu.cycles(), 0);
}

#[test]
fn program_that_sums_one_to_ten() {
    // LD B,10 ; XOR A ; loop: ADD A,B ; DEC B ; JR NZ,loop ; LD (0xD000),A ; HALT
    let program = [0x06, 0x0A, 0xAF, 0x80, 0x05, 0x20, 0xFC, 0xEA, 0x00, 0xD0, 0x76];
    let mut cpu = core_with(&program);
    let mut turns = 0;
    while !cpu.halted() {
        let report = cpu.run();
        assert_eq!(report.result, Ok(()));
        assert!(report.trace.is_some());
        turns += 1;
        assert!(turns < 100);
    }
    assert_eq!(turns, 2 + 3 * 10 + 2);
    assert_eq!(cpu.peek(0xD000), Ok(55));
    assert_eq!(get8(&cpu, Reg8::A), 55);
    assert_eq!(get8(&cpu, Reg8::B), 0);
    // 2 + 1, ten times 1 + 1 + 3 less the last jump that is not taken, 4 + 1
    assert_eq!(cpu.cycles(), 3 + 10 * 5 - 1 + 5);
}

#[test]
fn program_that_adds_decimal_numbers() {
    // LD A,0x38 ; ADD A,0x45 ; DAA ; LD B,A ; LD A,0x99 ; ADC A,0x01 ; DAA
    let program = [0x3E, 0x38, 0xC6, 0x45, 0x27, 0x47, 0x3E, 0x99, 0xCE, 0x01, 0x27];
    let mut cpu = core_with(&program);
    assert_eq!(steps(&mut cpu, 7), 2 + 2 + 1 + 1 + 2 + 2 + 1);
    assert_eq!(get8(&cpu, Reg8::B), 0x83);
    assert_eq!(get8(&cpu, Reg8::A), 0x00);
    assert_eq!(flags(&cpu), (true, false, false, true));
}
