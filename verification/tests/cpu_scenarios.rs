//! Instruction-level scenarios run through the full fetch-decode-execute
//! step, with the program placed in cartridge ROM.

use lr35902_core::cpu::CPU;
use lr35902_core::gpu::Gpu;
use lr35902_core::mmu::Memory;

/// A machine with the boot ROM overlay already unmapped and the given
/// program loaded at address zero.
fn machine(program: &[u8]) -> (CPU, Memory) {
    let mut mem = Memory::new(Gpu::new());
    mem.write_byte(0xFF50, 1);
    mem.load_rom(program.to_vec());
    (CPU::new(), mem)
}

fn run(cpu: &mut CPU, mem: &mut Memory, steps: usize) {
    for _ in 0..steps {
        cpu.step(mem);
    }
}

#[test]
fn add_without_carries() {
    // LD A,0x3A; LD B,0x05; ADD A,B
    let (mut cpu, mut mem) = machine(&[0x3E, 0x3A, 0x06, 0x05, 0x80]);
    run(&mut cpu, &mut mem, 3);
    assert_eq!(cpu.registers.a, 0x3F);
    assert!(!cpu.registers.zero);
    assert!(!cpu.registers.sub);
    assert!(!cpu.registers.half_carry);
    assert!(!cpu.registers.carry);
}

#[test]
fn inc_sets_half_carry_and_preserves_carry() {
    // LD A,0x0F; INC A, once with carry clear and once with it set.
    for carry in [false, true] {
        let (mut cpu, mut mem) = machine(&[0x3E, 0x0F, 0x3C]);
        cpu.registers.carry = carry;
        run(&mut cpu, &mut mem, 2);
        assert_eq!(cpu.registers.a, 0x10);
        assert!(!cpu.registers.zero);
        assert!(!cpu.registers.sub);
        assert!(cpu.registers.half_carry);
        assert_eq!(cpu.registers.carry, carry);
    }
}

#[test]
fn add_overflows_to_zero_with_carry() {
    // LD A,0x80; ADD A,0x80
    let (mut cpu, mut mem) = machine(&[0x3E, 0x80, 0xC6, 0x80]);
    run(&mut cpu, &mut mem, 2);
    assert_eq!(cpu.registers.a, 0x00);
    assert!(cpu.registers.zero);
    assert!(!cpu.registers.sub);
    assert!(!cpu.registers.half_carry);
    assert!(cpu.registers.carry);
}

#[test]
fn push_pop_through_stack() {
    // LD HL,0xFFFE; LD SP,HL; LD BC,0x1234; PUSH BC; POP DE
    let (mut cpu, mut mem) = machine(&[0x21, 0xFE, 0xFF, 0xF9, 0x01, 0x34, 0x12, 0xC5, 0xD1]);
    run(&mut cpu, &mut mem, 5);
    assert_eq!(cpu.registers.sp, 0xFFFE);
    assert_eq!(cpu.registers.d, 0x12);
    assert_eq!(cpu.registers.e, 0x34);
}

#[test]
fn swap_exchanges_nibbles() {
    // LD A,0x10; SWAP A
    let (mut cpu, mut mem) = machine(&[0x3E, 0x10, 0xCB, 0x37]);
    run(&mut cpu, &mut mem, 2);
    assert_eq!(cpu.registers.a, 0x01);
    assert!(!cpu.registers.zero);
    assert!(!cpu.registers.sub);
    assert!(!cpu.registers.half_carry);
    assert!(!cpu.registers.carry);
    assert_eq!(cpu.registers.read_flags_byte(), 0x00);
}

#[test]
fn daa_adjusts_bcd_sum() {
    // LD A,0x19; LD B,0x28; ADD A,B; DAA — 19 + 28 = 47 decimal.
    let (mut cpu, mut mem) = machine(&[0x3E, 0x19, 0x06, 0x28, 0x80, 0x27]);
    run(&mut cpu, &mut mem, 4);
    assert_eq!(cpu.registers.a, 0x47);
    assert!(!cpu.registers.carry);
    assert!(!cpu.registers.half_carry);
}

#[test]
fn daa_wraps_at_one_hundred() {
    // LD A,0x99; LD B,0x01; ADD A,B; DAA — 99 + 1 = 100, so A wraps to
    // zero with the carry set.
    let (mut cpu, mut mem) = machine(&[0x3E, 0x99, 0x06, 0x01, 0x80, 0x27]);
    run(&mut cpu, &mut mem, 4);
    assert_eq!(cpu.registers.a, 0x00);
    assert!(cpu.registers.carry);
    assert!(cpu.registers.zero);
}

#[test]
fn every_step_keeps_t_four_times_m() {
    // A mix of costs: loads, a push, a jump, an ALU op.
    let (mut cpu, mut mem) = machine(&[
        0x3E, 0x01, 0x21, 0xFE, 0xFF, 0xF9, 0xC5, 0x80, 0xC3, 0x00, 0x00,
    ]);
    for _ in 0..6 {
        cpu.step(&mut mem);
        assert_eq!(cpu.last_clock.t, 4 * cpu.last_clock.m);
        assert_eq!(cpu.clock.t, 4 * cpu.clock.m);
    }
}

#[test]
fn flags_byte_low_nibble_stays_zero() {
    // POP AF from a word with a dirty low nibble.
    // LD HL,0xFFFC; LD SP,HL; LD BC,0xABCF; PUSH BC; POP AF
    let (mut cpu, mut mem) = machine(&[0x21, 0xFC, 0xFF, 0xF9, 0x01, 0xCF, 0xAB, 0xC5, 0xF1]);
    run(&mut cpu, &mut mem, 5);
    assert_eq!(cpu.registers.a, 0xAB);
    assert_eq!(cpu.registers.read_flags_byte(), 0xC0);
    assert_eq!(cpu.registers.read_flags_byte() & 0x0F, 0x00);
}

#[test]
fn unknown_opcode_charges_one_cycle() {
    let (mut cpu, mut mem) = machine(&[0xD3]);
    cpu.step(&mut mem);
    assert_eq!(cpu.last_clock.m, 1);
    assert_eq!(cpu.last_clock.t, 4);
    assert_eq!(cpu.registers.pc, 1);
}

#[test]
fn conditional_jump_costs_differ() {
    // JR NZ,+2 with Z clear (taken: 3 M), then from scratch with Z set
    // (untaken: 2 M).
    let (mut cpu, mut mem) = machine(&[0x20, 0x02]);
    cpu.step(&mut mem);
    assert_eq!(cpu.last_clock.m, 3);
    assert_eq!(cpu.registers.pc, 0x04);

    let (mut cpu2, mut mem2) = machine(&[0x20, 0x02]);
    cpu2.registers.zero = true;
    cpu2.step(&mut mem2);
    assert_eq!(cpu2.last_clock.m, 2);
    assert_eq!(cpu2.registers.pc, 0x02);
}

#[test]
fn call_and_ret_round_trip() {
    // LD HL,0xFFFE; LD SP,HL; CALL 0x0008; <pad>; RET at 0x0008.
    let (mut cpu, mut mem) = machine(&[
        0x21, 0xFE, 0xFF, 0xF9, 0xCD, 0x08, 0x00, 0x00, 0xC9,
    ]);
    run(&mut cpu, &mut mem, 3);
    assert_eq!(cpu.registers.pc, 0x0008);
    assert_eq!(cpu.registers.sp, 0xFFFC);
    // Published costs: CALL is six M-cycles, RET four.
    assert_eq!(cpu.last_clock.m, 6);
    cpu.step(&mut mem);
    assert_eq!(cpu.registers.pc, 0x0007);
    assert_eq!(cpu.registers.sp, 0xFFFE);
    assert_eq!(cpu.last_clock.m, 4);
}

#[test]
fn unconditional_flow_costs_follow_the_published_table() {
    // JP 0x0000: 4 M-cycles.
    let (mut cpu, mut mem) = machine(&[0xC3, 0x00, 0x00]);
    cpu.step(&mut mem);
    assert_eq!(cpu.last_clock.m, 4);

    // JR +0: 3 M-cycles.
    let (mut cpu2, mut mem2) = machine(&[0x18, 0x00]);
    cpu2.step(&mut mem2);
    assert_eq!(cpu2.last_clock.m, 3);

    // RST 0x08: 4 M-cycles.
    let (mut cpu3, mut mem3) = machine(&[0x21, 0xFE, 0xFF, 0xF9, 0xCF]);
    run(&mut cpu3, &mut mem3, 3);
    assert_eq!(cpu3.registers.pc, 0x0008);
    assert_eq!(cpu3.last_clock.m, 4);
}

#[test]
fn add_hl_carries_from_bit_eleven() {
    // LD HL,0x0FFF; LD BC,0x0001; ADD HL,BC
    let (mut cpu, mut mem) = machine(&[0x21, 0xFF, 0x0F, 0x01, 0x01, 0x00, 0x09]);
    cpu.registers.zero = true;
    run(&mut cpu, &mut mem, 3);
    assert_eq!(cpu.registers.h, 0x10);
    assert_eq!(cpu.registers.l, 0x00);
    assert!(cpu.registers.half_carry);
    assert!(!cpu.registers.carry);
    assert!(!cpu.registers.sub);
    // Z is untouched by ADD HL,rr.
    assert!(cpu.registers.zero);
}

#[test]
fn add_sp_takes_negative_offsets() {
    // LD HL,0x0005; LD SP,HL; ADD SP,0xFE (minus two)
    let (mut cpu, mut mem) = machine(&[0x21, 0x05, 0x00, 0xF9, 0xE8, 0xFE]);
    run(&mut cpu, &mut mem, 3);
    assert_eq!(cpu.registers.sp, 0x0003);
    assert!(!cpu.registers.zero);
    assert!(!cpu.registers.sub);
    // Low-byte unsigned semantics: 0x05 + 0xFE carries out of both bits.
    assert!(cpu.registers.half_carry);
    assert!(cpu.registers.carry);
}

#[test]
fn ei_enables_after_following_instruction() {
    let (mut cpu, mut mem) = machine(&[0xFB, 0x00, 0x00]);
    cpu.interrupts_enabled = false;
    cpu.step(&mut mem);
    assert!(!cpu.interrupts_enabled);
    cpu.step(&mut mem);
    assert!(cpu.interrupts_enabled);
}

#[test]
fn ldi_and_ldd_move_hl() {
    // LD HL,0xC000; LD A,0x42; LDI (HL),A; LDD (HL),A
    let (mut cpu, mut mem) = machine(&[0x21, 0x00, 0xC0, 0x3E, 0x42, 0x22, 0x32]);
    run(&mut cpu, &mut mem, 3);
    assert_eq!(cpu.registers.h, 0xC0);
    assert_eq!(cpu.registers.l, 0x01);
    assert_eq!(mem.read_byte(0xC000), 0x42);
    cpu.step(&mut mem);
    assert_eq!(mem.read_byte(0xC001), 0x42);
    assert_eq!(cpu.registers.l, 0x00);
}

#[test]
fn bit_test_sets_zero_from_complement() {
    // LD A,0x04; BIT 2,A; BIT 3,A
    let (mut cpu, mut mem) = machine(&[0x3E, 0x04, 0xCB, 0x57, 0xCB, 0x5F]);
    run(&mut cpu, &mut mem, 2);
    assert!(!cpu.registers.zero);
    assert!(cpu.registers.half_carry);
    cpu.step(&mut mem);
    assert!(cpu.registers.zero);
}

#[test]
fn rotates_move_carry() {
    // LD A,0x85; RLCA — bit 7 out to carry and around to bit 0.
    let (mut cpu, mut mem) = machine(&[0x3E, 0x85, 0x07]);
    run(&mut cpu, &mut mem, 2);
    assert_eq!(cpu.registers.a, 0x0B);
    assert!(cpu.registers.carry);
    assert!(!cpu.registers.zero);

    // LD A,0x01; RRA with carry set: the carry enters bit 7.
    let (mut cpu2, mut mem2) = machine(&[0x3E, 0x01, 0x1F]);
    cpu2.registers.carry = true;
    run(&mut cpu2, &mut mem2, 2);
    assert_eq!(cpu2.registers.a, 0x80);
    assert!(cpu2.registers.carry);
}

#[test]
fn srl_and_sla_shift_into_carry() {
    // LD A,0x81; SRL A
    let (mut cpu, mut mem) = machine(&[0x3E, 0x81, 0xCB, 0x3F]);
    run(&mut cpu, &mut mem, 2);
    assert_eq!(cpu.registers.a, 0x40);
    assert!(cpu.registers.carry);

    // LD B,0x81; SLA B
    let (mut cpu2, mut mem2) = machine(&[0x06, 0x81, 0xCB, 0x20]);
    run(&mut cpu2, &mut mem2, 2);
    assert_eq!(cpu2.registers.b, 0x02);
    assert!(cpu2.registers.carry);
}

#[test]
fn sub_and_cp_set_borrow_flags() {
    // LD A,0x10; SUB 0x20
    let (mut cpu, mut mem) = machine(&[0x3E, 0x10, 0xD6, 0x20]);
    run(&mut cpu, &mut mem, 2);
    assert_eq!(cpu.registers.a, 0xF0);
    assert!(cpu.registers.sub);
    assert!(cpu.registers.carry);
    assert!(!cpu.registers.half_carry);

    // LD A,0x3C; CP 0x3C — equality leaves A and sets Z.
    let (mut cpu2, mut mem2) = machine(&[0x3E, 0x3C, 0xFE, 0x3C]);
    run(&mut cpu2, &mut mem2, 2);
    assert_eq!(cpu2.registers.a, 0x3C);
    assert!(cpu2.registers.zero);
}

#[test]
fn ld_hl_sp_offset_sets_low_byte_flags() {
    // LD HL,0x00FF; LD SP,HL; LD HL,SP+0x01
    let (mut cpu, mut mem) = machine(&[0x21, 0xFF, 0x00, 0xF9, 0xF8, 0x01]);
    run(&mut cpu, &mut mem, 3);
    assert_eq!(cpu.registers.h, 0x01);
    assert_eq!(cpu.registers.l, 0x00);
    assert_eq!(cpu.registers.sp, 0x00FF);
    assert!(!cpu.registers.zero);
    assert!(!cpu.registers.sub);
    assert!(cpu.registers.half_carry);
    assert!(cpu.registers.carry);
}

#[test]
fn jp_hl_jumps_to_the_pair() {
    // LD HL,0x0123; JP (HL)
    let (mut cpu, mut mem) = machine(&[0x21, 0x23, 0x01, 0xE9]);
    run(&mut cpu, &mut mem, 2);
    assert_eq!(cpu.registers.pc, 0x0123);
    assert_eq!(cpu.last_clock.m, 1);
}

#[test]
fn halt_and_stop_note_their_flags() {
    let (mut cpu, mut mem) = machine(&[0x76, 0x10, 0x00]);
    cpu.step(&mut mem);
    assert!(cpu.in_standby);
    assert_eq!(cpu.last_clock.m, 1);
    cpu.step(&mut mem);
    assert!(cpu.should_power_down);
    assert_eq!(cpu.registers.pc, 3);
}

#[test]
fn ldh_forms_reach_high_ram() {
    // LD A,0x5E; LDH (0x80),A; LD A,0x00; LDH A,(0x80)
    let (mut cpu, mut mem) = machine(&[0x3E, 0x5E, 0xE0, 0x80, 0x3E, 0x00, 0xF0, 0x80]);
    run(&mut cpu, &mut mem, 4);
    assert_eq!(mem.read_byte(0xFF80), 0x5E);
    assert_eq!(cpu.registers.a, 0x5E);
}

#[test]
fn clock_accumulates_instruction_costs() {
    // LD A,0x01 (2 M); NOP (1 M); PUSH AF needs a stack, so just ADD (1 M).
    let (mut cpu, mut mem) = machine(&[0x3E, 0x01, 0x00, 0x80]);
    run(&mut cpu, &mut mem, 3);
    assert_eq!(cpu.clock.m, 4);
    assert_eq!(cpu.clock.t, 16);
}

#[test]
fn sbc_borrows_the_carry() {
    // LD A,0x10; SBC A,0x05 with carry set: 0x10 - 0x05 - 1.
    let (mut cpu, mut mem) = machine(&[0x3E, 0x10, 0xDE, 0x05]);
    cpu.registers.carry = true;
    run(&mut cpu, &mut mem, 2);
    assert_eq!(cpu.registers.a, 0x0A);
    assert!(cpu.registers.sub);
    assert!(cpu.registers.half_carry);
    assert!(!cpu.registers.carry);
}

#[test]
fn stop_with_unknown_second_byte_is_a_nop() {
    let (mut cpu, mut mem) = machine(&[0x10, 0x77]);
    cpu.step(&mut mem);
    assert!(!cpu.should_power_down);
    assert_eq!(cpu.last_clock.m, 1);
    assert_eq!(cpu.registers.pc, 2);
}

#[test]
fn indirect_loads_through_bc() {
    // LD BC,0xC020; LD A,0x9C; LD (BC),A; LD A,0x00; LD A,(BC)
    let (mut cpu, mut mem) = machine(&[0x01, 0x20, 0xC0, 0x3E, 0x9C, 0x02, 0x3E, 0x00, 0x0A]);
    run(&mut cpu, &mut mem, 5);
    assert_eq!(mem.read_byte(0xC020), 0x9C);
    assert_eq!(cpu.registers.a, 0x9C);
}
