//! Interrupt service, the two-level instruction decode, and the machine
//! model (`spec_step`, `spec_exec_op`, `spec_exec_cb_op`) that pins each
//! decode row to the instruction it runs.
//!
//! A `step` first services one pending interrupt when IME is set, in which
//! case `last_clock` records the service prologue and no instruction runs;
//! otherwise it fetches one primary opcode, decodes it (0xCB switches to the
//! secondary table, 0x10 reads the second byte of STOP), executes it, and
//! finally adds `last_clock` into the running clock.  The contract of every
//! decode function states equality with the corresponding model function,
//! so the tables themselves are verified row by row.

use vstd::prelude::*;

use crate::alu::{
    add16_c, add16_h, add16_res, alu_add_regs, alu_and_regs, alu_cp_regs, alu_daa_regs,
    alu_or_regs, alu_sub_regs, alu_xor_regs, carry_in, dec8_flags, inc8_flags, rl_res, rlc_res,
    rot_a_flags, rot_flags, rr_res, rrc_res, signed_offset, sla_res, sp_offset_c, sp_offset_h,
    sra_res, srl_res, swap_res,
};
use crate::cpu::{Clock, CPU};
use crate::mmu::{Interrupt, MemView, Memory};
use crate::registers::{wrap16, wrap8, ByteRegister, Flag, Registers, WordRegister};

verus! {

/// The interrupt kinds both requested and enabled, as a five-bit mask.
pub open spec fn pending_mask(m: MemView) -> u8 {
    m.iflag & m.ienable & 0x1F
}

/// An interrupt is serviced at the start of a step iff IME is set and some
/// kind is both requested and enabled.
pub open spec fn serviceable(cpu: CPU, m: MemView) -> bool {
    cpu.interrupts_enabled && pending_mask(m) != 0
}

/// The highest-priority kind in a non-empty pending mask: the lowest set
/// bit, vertical blank first.
pub open spec fn highest_priority(mask: u8) -> Interrupt {
    if mask & 0x01 != 0 {
        Interrupt::VBlank
    } else if mask & 0x02 != 0 {
        Interrupt::LcdStat
    } else if mask & 0x04 != 0 {
        Interrupt::Timer
    } else if mask & 0x08 != 0 {
        Interrupt::Serial
    } else {
        Interrupt::Joypad
    }
}

/// The machine model of one primary opcode: the CPU and bus after
/// `instruction` executes, with PC already advanced past the opcode byte.
/// An opcode with no decode row behaves as a NOP with a one-M-cycle charge.
pub open spec fn spec_exec_op(cpu: CPU, m: MemView, instruction: u8) -> (CPU, MemView) {
    if instruction < 0x20 {
        spec_exec_op_00(cpu, m, instruction)
    } else if instruction < 0x40 {
        spec_exec_op_20(cpu, m, instruction)
    } else if instruction < 0x60 {
        spec_exec_op_40(cpu, m, instruction)
    } else if instruction < 0x80 {
        spec_exec_op_60(cpu, m, instruction)
    } else if instruction < 0xA0 {
        spec_exec_op_80(cpu, m, instruction)
    } else if instruction < 0xC0 {
        spec_exec_op_a0(cpu, m, instruction)
    } else if instruction < 0xE0 {
        spec_exec_op_c0(cpu, m, instruction)
    } else {
        spec_exec_op_e0(cpu, m, instruction)
    }
}

/// The machine model of one CB-prefixed opcode, with PC already advanced
/// past both bytes; the secondary table is total.
pub open spec fn spec_exec_cb_op(cpu: CPU, m: MemView, instruction: u8) -> (CPU, MemView) {
    if instruction < 0x20 {
        spec_exec_cb_op_00(cpu, m, instruction)
    } else if instruction < 0x40 {
        spec_exec_cb_op_20(cpu, m, instruction)
    } else if instruction < 0x60 {
        spec_exec_cb_op_40(cpu, m, instruction)
    } else if instruction < 0x80 {
        spec_exec_cb_op_60(cpu, m, instruction)
    } else if instruction < 0xA0 {
        spec_exec_cb_op_80(cpu, m, instruction)
    } else if instruction < 0xC0 {
        spec_exec_cb_op_a0(cpu, m, instruction)
    } else if instruction < 0xE0 {
        spec_exec_cb_op_c0(cpu, m, instruction)
    } else {
        spec_exec_cb_op_e0(cpu, m, instruction)
    }
}

/// The machine model of one whole step.  With an interrupt serviceable the
/// service prologue runs alone; otherwise the opcode at PC is fetched and
/// executed and a deferred EI lands.  Either way `last_clock` joins the
/// running clock.
pub open spec fn spec_step(cpu: CPU, m: MemView) -> (CPU, MemView) {
    let outcome = if serviceable(cpu, m) {
        (
            (CPU {
                interrupts_enabled: false,
                ..cpu.with_regs(
                    (Registers {
                        pc: highest_priority(pending_mask(m)).spec_vector(),
                        sp: wrap16(cpu.registers.sp - 2),
                        ..cpu.registers
                    }),
                    4,
                )
            }),
            (MemView {
                iflag: (m.iflag & !highest_priority(pending_mask(m)).spec_mask()),
                ..m.spec_write_word(wrap16(cpu.registers.sp - 2), cpu.registers.pc)
            }),
        )
    } else {
        let executed = spec_exec_op(
            (CPU {
                registers: (Registers { pc: wrap16(cpu.registers.pc + 1), ..cpu.registers }),
                ..cpu
            }),
            m,
            m.spec_read_byte(cpu.registers.pc),
        );
        if cpu.interrupts_enabled_after_next {
            (
                (CPU {
                    interrupts_enabled: true,
                    interrupts_enabled_after_next: false,
                    ..executed.0
                }),
                executed.1,
            )
        } else {
            executed
        }
    };
    (
        (CPU {
            clock: (Clock {
                m: (outcome.0.clock.m + outcome.0.last_clock.m) as u64,
                t: (outcome.0.clock.t + outcome.0.last_clock.t) as u64,
            }),
            ..outcome.0
        }),
        outcome.1,
    )
}

/// Model of primary opcodes 0x00..0x1F; PC already points past the opcode.
pub open spec fn spec_exec_op_00(cpu: CPU, m: MemView, instruction: u8) -> (CPU, MemView) {
    if instruction == 0x00 {
        (cpu.with_regs(cpu.registers, 1), m)
    } else
    if instruction == 0x01 {
        (cpu.with_regs((Registers { pc: wrap16(cpu.registers.pc + 2), ..cpu.registers }).spec_write_word(WordRegister::BC, m.spec_read_word(cpu.registers.pc)), 3), m)
    } else
    if instruction == 0x02 {
        (cpu.with_regs(cpu.registers, 2), m.spec_write_byte(cpu.registers.spec_read_word(WordRegister::BC), cpu.registers.a))
    } else
    if instruction == 0x03 {
        (cpu.with_regs(cpu.registers.spec_write_word(WordRegister::BC, wrap16(cpu.registers.spec_read_word(WordRegister::BC) + 1)), 2), m)
    } else
    if instruction == 0x04 {
        (cpu.with_regs(inc8_flags(cpu.registers, cpu.registers.spec_read8(ByteRegister::B)).spec_write8(ByteRegister::B, wrap8(cpu.registers.spec_read8(ByteRegister::B) + 1)), 1), m)
    } else
    if instruction == 0x05 {
        (cpu.with_regs(dec8_flags(cpu.registers, cpu.registers.spec_read8(ByteRegister::B)).spec_write8(ByteRegister::B, wrap8(cpu.registers.spec_read8(ByteRegister::B) - 1)), 1), m)
    } else
    if instruction == 0x06 {
        (cpu.with_regs((Registers { pc: wrap16(cpu.registers.pc + 1), ..cpu.registers }).spec_write8(ByteRegister::B, m.spec_read_byte(cpu.registers.pc)), 2), m)
    } else
    if instruction == 0x07 {
        (cpu.with_regs(rot_a_flags(cpu.registers, cpu.registers.a / 128 == 1).spec_write8(ByteRegister::A, rlc_res(cpu.registers.a)), 1), m)
    } else
    if instruction == 0x08 {
        (cpu.with_regs((Registers { pc: wrap16(cpu.registers.pc + 2), ..cpu.registers }), 5), m.spec_write_word(m.spec_read_word(cpu.registers.pc), cpu.registers.sp))
    } else
    if instruction == 0x09 {
        (cpu.with_regs((Registers { sub: false, half_carry: add16_h(cpu.registers.spec_read_word(WordRegister::HL), cpu.registers.spec_read_word(WordRegister::BC)), carry: add16_c(cpu.registers.spec_read_word(WordRegister::HL), cpu.registers.spec_read_word(WordRegister::BC)), ..cpu.registers }).spec_write_word(WordRegister::HL, add16_res(cpu.registers.spec_read_word(WordRegister::HL), cpu.registers.spec_read_word(WordRegister::BC))), 2), m)
    } else
    if instruction == 0x0A {
        (cpu.with_regs(cpu.registers.spec_write8(ByteRegister::A, m.spec_read_byte(cpu.registers.spec_read_word(WordRegister::BC))), 2), m)
    } else
    if instruction == 0x0B {
        (cpu.with_regs(cpu.registers.spec_write_word(WordRegister::BC, wrap16(cpu.registers.spec_read_word(WordRegister::BC) - 1)), 2), m)
    } else
    if instruction == 0x0C {
        (cpu.with_regs(inc8_flags(cpu.registers, cpu.registers.spec_read8(ByteRegister::C)).spec_write8(ByteRegister::C, wrap8(cpu.registers.spec_read8(ByteRegister::C) + 1)), 1), m)
    } else
    if instruction == 0x0D {
        (cpu.with_regs(dec8_flags(cpu.registers, cpu.registers.spec_read8(ByteRegister::C)).spec_write8(ByteRegister::C, wrap8(cpu.registers.spec_read8(ByteRegister::C) - 1)), 1), m)
    } else
    if instruction == 0x0E {
        (cpu.with_regs((Registers { pc: wrap16(cpu.registers.pc + 1), ..cpu.registers }).spec_write8(ByteRegister::C, m.spec_read_byte(cpu.registers.pc)), 2), m)
    } else
    if instruction == 0x0F {
        (cpu.with_regs(rot_a_flags(cpu.registers, cpu.registers.a % 2 == 1).spec_write8(ByteRegister::A, rrc_res(cpu.registers.a)), 1), m)
    } else
    if instruction == 0x10 {
        if m.spec_read_byte(cpu.registers.pc) == 0 {
            ((CPU {
                should_power_down: true,
                ..(CPU { registers: (Registers { pc: wrap16(cpu.registers.pc + 1), ..cpu.registers }), ..cpu }).with_regs((CPU { registers: (Registers { pc: wrap16(cpu.registers.pc + 1), ..cpu.registers }), ..cpu }).registers, 1)
            }), m)
        } else {
            ((CPU { registers: (Registers { pc: wrap16(cpu.registers.pc + 1), ..cpu.registers }), ..cpu }).with_regs((CPU { registers: (Registers { pc: wrap16(cpu.registers.pc + 1), ..cpu.registers }), ..cpu }).registers, 1), m)
        }
    } else
    if instruction == 0x11 {
        (cpu.with_regs((Registers { pc: wrap16(cpu.registers.pc + 2), ..cpu.registers }).spec_write_word(WordRegister::DE, m.spec_read_word(cpu.registers.pc)), 3), m)
    } else
    if instruction == 0x12 {
        (cpu.with_regs(cpu.registers, 2), m.spec_write_byte(cpu.registers.spec_read_word(WordRegister::DE), cpu.registers.a))
    } else
    if instruction == 0x13 {
        (cpu.with_regs(cpu.registers.spec_write_word(WordRegister::DE, wrap16(cpu.registers.spec_read_word(WordRegister::DE) + 1)), 2), m)
    } else
    if instruction == 0x14 {
        (cpu.with_regs(inc8_flags(cpu.registers, cpu.registers.spec_read8(ByteRegister::D)).spec_write8(ByteRegister::D, wrap8(cpu.registers.spec_read8(ByteRegister::D) + 1)), 1), m)
    } else
    if instruction == 0x15 {
        (cpu.with_regs(dec8_flags(cpu.registers, cpu.registers.spec_read8(ByteRegister::D)).spec_write8(ByteRegister::D, wrap8(cpu.registers.spec_read8(ByteRegister::D) - 1)), 1), m)
    } else
    if instruction == 0x16 {
        (cpu.with_regs((Registers { pc: wrap16(cpu.registers.pc + 1), ..cpu.registers }).spec_write8(ByteRegister::D, m.spec_read_byte(cpu.registers.pc)), 2), m)
    } else
    if instruction == 0x17 {
        (cpu.with_regs(rot_a_flags(cpu.registers, cpu.registers.a / 128 == 1).spec_write8(ByteRegister::A, rl_res(cpu.registers.a, cpu.registers.carry)), 1), m)
    } else
    if instruction == 0x18 {
        (cpu.with_regs((Registers { pc: signed_offset(wrap16(cpu.registers.pc + 1), m.spec_read_byte(cpu.registers.pc)), ..cpu.registers }), 3), m)
    } else
    if instruction == 0x19 {
        (cpu.with_regs((Registers { sub: false, half_carry: add16_h(cpu.registers.spec_read_word(WordRegister::HL), cpu.registers.spec_read_word(WordRegister::DE)), carry: add16_c(cpu.registers.spec_read_word(WordRegister::HL), cpu.registers.spec_read_word(WordRegister::DE)), ..cpu.registers }).spec_write_word(WordRegister::HL, add16_res(cpu.registers.spec_read_word(WordRegister::HL), cpu.registers.spec_read_word(WordRegister::DE))), 2), m)
    } else
    if instruction == 0x1A {
        (cpu.with_regs(cpu.registers.spec_write8(ByteRegister::A, m.spec_read_byte(cpu.registers.spec_read_word(WordRegister::DE))), 2), m)
    } else
    if instruction == 0x1B {
        (cpu.with_regs(cpu.registers.spec_write_word(WordRegister::DE, wrap16(cpu.registers.spec_read_word(WordRegister::DE) - 1)), 2), m)
    } else
    if instruction == 0x1C {
        (cpu.with_regs(inc8_flags(cpu.registers, cpu.registers.spec_read8(ByteRegister::E)).spec_write8(ByteRegister::E, wrap8(cpu.registers.spec_read8(ByteRegister::E) + 1)), 1), m)
    } else
    if instruction == 0x1D {
        (cpu.with_regs(dec8_flags(cpu.registers, cpu.registers.spec_read8(ByteRegister::E)).spec_write8(ByteRegister::E, wrap8(cpu.registers.spec_read8(ByteRegister::E) - 1)), 1), m)
    } else
    if instruction == 0x1E {
        (cpu.with_regs((Registers { pc: wrap16(cpu.registers.pc + 1), ..cpu.registers }).spec_write8(ByteRegister::E, m.spec_read_byte(cpu.registers.pc)), 2), m)
    } else
    if instruction == 0x1F {
        (cpu.with_regs(rot_a_flags(cpu.registers, cpu.registers.a % 2 == 1).spec_write8(ByteRegister::A, rr_res(cpu.registers.a, cpu.registers.carry)), 1), m)
    } else {
        (cpu.with_regs(cpu.registers, 1), m)
    }
}

/// Model of primary opcodes 0x20..0x3F.
pub open spec fn spec_exec_op_20(cpu: CPU, m: MemView, instruction: u8) -> (CPU, MemView) {
    if instruction == 0x20 {
        (if !cpu.registers.spec_get_flag(Flag::Zero) { cpu.with_regs((Registers { pc: signed_offset(wrap16(cpu.registers.pc + 1), m.spec_read_byte(cpu.registers.pc)), ..cpu.registers }), 3) } else { cpu.with_regs((Registers { pc: wrap16(cpu.registers.pc + 1), ..cpu.registers }), 2) }, m)
    } else
    if instruction == 0x21 {
        (cpu.with_regs((Registers { pc: wrap16(cpu.registers.pc + 2), ..cpu.registers }).spec_write_word(WordRegister::HL, m.spec_read_word(cpu.registers.pc)), 3), m)
    } else
    if instruction == 0x22 {
        (cpu.with_regs(cpu.registers.spec_write_word(WordRegister::HL, wrap16(cpu.registers.spec_read_word(WordRegister::HL) + 1)), 2), m.spec_write_byte(cpu.registers.spec_read_word(WordRegister::HL), cpu.registers.a))
    } else
    if instruction == 0x23 {
        (cpu.with_regs(cpu.registers.spec_write_word(WordRegister::HL, wrap16(cpu.registers.spec_read_word(WordRegister::HL) + 1)), 2), m)
    } else
    if instruction == 0x24 {
        (cpu.with_regs(inc8_flags(cpu.registers, cpu.registers.spec_read8(ByteRegister::H)).spec_write8(ByteRegister::H, wrap8(cpu.registers.spec_read8(ByteRegister::H) + 1)), 1), m)
    } else
    if instruction == 0x25 {
        (cpu.with_regs(dec8_flags(cpu.registers, cpu.registers.spec_read8(ByteRegister::H)).spec_write8(ByteRegister::H, wrap8(cpu.registers.spec_read8(ByteRegister::H) - 1)), 1), m)
    } else
    if instruction == 0x26 {
        (cpu.with_regs((Registers { pc: wrap16(cpu.registers.pc + 1), ..cpu.registers }).spec_write8(ByteRegister::H, m.spec_read_byte(cpu.registers.pc)), 2), m)
    } else
    if instruction == 0x27 {
        (cpu.with_regs(alu_daa_regs(cpu.registers), 1), m)
    } else
    if instruction == 0x28 {
        (if cpu.registers.spec_get_flag(Flag::Zero) { cpu.with_regs((Registers { pc: signed_offset(wrap16(cpu.registers.pc + 1), m.spec_read_byte(cpu.registers.pc)), ..cpu.registers }), 3) } else { cpu.with_regs((Registers { pc: wrap16(cpu.registers.pc + 1), ..cpu.registers }), 2) }, m)
    } else
    if instruction == 0x29 {
        (cpu.with_regs((Registers { sub: false, half_carry: add16_h(cpu.registers.spec_read_word(WordRegister::HL), cpu.registers.spec_read_word(WordRegister::HL)), carry: add16_c(cpu.registers.spec_read_word(WordRegister::HL), cpu.registers.spec_read_word(WordRegister::HL)), ..cpu.registers }).spec_write_word(WordRegister::HL, add16_res(cpu.registers.spec_read_word(WordRegister::HL), cpu.registers.spec_read_word(WordRegister::HL))), 2), m)
    } else
    if instruction == 0x2A {
        (cpu.with_regs(cpu.registers.spec_write_word(WordRegister::HL, wrap16(cpu.registers.spec_read_word(WordRegister::HL) + 1)).spec_write8(ByteRegister::A, m.spec_read_byte(cpu.registers.spec_read_word(WordRegister::HL))), 2), m)
    } else
    if instruction == 0x2B {
        (cpu.with_regs(cpu.registers.spec_write_word(WordRegister::HL, wrap16(cpu.registers.spec_read_word(WordRegister::HL) - 1)), 2), m)
    } else
    if instruction == 0x2C {
        (cpu.with_regs(inc8_flags(cpu.registers, cpu.registers.spec_read8(ByteRegister::L)).spec_write8(ByteRegister::L, wrap8(cpu.registers.spec_read8(ByteRegister::L) + 1)), 1), m)
    } else
    if instruction == 0x2D {
        (cpu.with_regs(dec8_flags(cpu.registers, cpu.registers.spec_read8(ByteRegister::L)).spec_write8(ByteRegister::L, wrap8(cpu.registers.spec_read8(ByteRegister::L) - 1)), 1), m)
    } else
    if instruction == 0x2E {
        (cpu.with_regs((Registers { pc: wrap16(cpu.registers.pc + 1), ..cpu.registers }).spec_write8(ByteRegister::L, m.spec_read_byte(cpu.registers.pc)), 2), m)
    } else
    if instruction == 0x2F {
        (cpu.with_regs((Registers { a: !cpu.registers.a, sub: true, half_carry: true, ..cpu.registers }), 1), m)
    } else
    if instruction == 0x30 {
        (if !cpu.registers.spec_get_flag(Flag::Carry) { cpu.with_regs((Registers { pc: signed_offset(wrap16(cpu.registers.pc + 1), m.spec_read_byte(cpu.registers.pc)), ..cpu.registers }), 3) } else { cpu.with_regs((Registers { pc: wrap16(cpu.registers.pc + 1), ..cpu.registers }), 2) }, m)
    } else
    if instruction == 0x31 {
        (cpu.with_regs((Registers { pc: wrap16(cpu.registers.pc + 2), ..cpu.registers }).spec_write_word(WordRegister::SP, m.spec_read_word(cpu.registers.pc)), 3), m)
    } else
    if instruction == 0x32 {
        (cpu.with_regs(cpu.registers.spec_write_word(WordRegister::HL, wrap16(cpu.registers.spec_read_word(WordRegister::HL) - 1)), 2), m.spec_write_byte(cpu.registers.spec_read_word(WordRegister::HL), cpu.registers.a))
    } else
    if instruction == 0x33 {
        (cpu.with_regs(cpu.registers.spec_write_word(WordRegister::SP, wrap16(cpu.registers.spec_read_word(WordRegister::SP) + 1)), 2), m)
    } else
    if instruction == 0x34 {
        (cpu.with_regs(inc8_flags(cpu.registers, m.spec_read_byte(cpu.registers.spec_read_word(WordRegister::HL))), 3), m.spec_write_byte(cpu.registers.spec_read_word(WordRegister::HL), wrap8(m.spec_read_byte(cpu.registers.spec_read_word(WordRegister::HL)) + 1)))
    } else
    if instruction == 0x35 {
        (cpu.with_regs(dec8_flags(cpu.registers, m.spec_read_byte(cpu.registers.spec_read_word(WordRegister::HL))), 3), m.spec_write_byte(cpu.registers.spec_read_word(WordRegister::HL), wrap8(m.spec_read_byte(cpu.registers.spec_read_word(WordRegister::HL)) - 1)))
    } else
    if instruction == 0x36 {
        (cpu.with_regs((Registers { pc: wrap16(cpu.registers.pc + 1), ..cpu.registers }), 3), m.spec_write_byte(cpu.registers.spec_read_word(WordRegister::HL), m.spec_read_byte(cpu.registers.pc)))
    } else
    if instruction == 0x37 {
        (cpu.with_regs((Registers { carry: true, sub: false, half_carry: false, ..cpu.registers }), 1), m)
    } else
    if instruction == 0x38 {
        (if cpu.registers.spec_get_flag(Flag::Carry) { cpu.with_regs((Registers { pc: signed_offset(wrap16(cpu.registers.pc + 1), m.spec_read_byte(cpu.registers.pc)), ..cpu.registers }), 3) } else { cpu.with_regs((Registers { pc: wrap16(cpu.registers.pc + 1), ..cpu.registers }), 2) }, m)
    } else
    if instruction == 0x39 {
        (cpu.with_regs((Registers { sub: false, half_carry: add16_h(cpu.registers.spec_read_word(WordRegister::HL), cpu.registers.spec_read_word(WordRegister::SP)), carry: add16_c(cpu.registers.spec_read_word(WordRegister::HL), cpu.registers.spec_read_word(WordRegister::SP)), ..cpu.registers }).spec_write_word(WordRegister::HL, add16_res(cpu.registers.spec_read_word(WordRegister::HL), cpu.registers.spec_read_word(WordRegister::SP))), 2), m)
    } else
    if instruction == 0x3A {
        (cpu.with_regs(cpu.registers.spec_write_word(WordRegister::HL, wrap16(cpu.registers.spec_read_word(WordRegister::HL) - 1)).spec_write8(ByteRegister::A, m.spec_read_byte(cpu.registers.spec_read_word(WordRegister::HL))), 2), m)
    } else
    if instruction == 0x3B {
        (cpu.with_regs(cpu.registers.spec_write_word(WordRegister::SP, wrap16(cpu.registers.spec_read_word(WordRegister::SP) - 1)), 2), m)
    } else
    if instruction == 0x3C {
        (cpu.with_regs(inc8_flags(cpu.registers, cpu.registers.spec_read8(ByteRegister::A)).spec_write8(ByteRegister::A, wrap8(cpu.registers.spec_read8(ByteRegister::A) + 1)), 1), m)
    } else
    if instruction == 0x3D {
        (cpu.with_regs(dec8_flags(cpu.registers, cpu.registers.spec_read8(ByteRegister::A)).spec_write8(ByteRegister::A, wrap8(cpu.registers.spec_read8(ByteRegister::A) - 1)), 1), m)
    } else
    if instruction == 0x3E {
        (cpu.with_regs((Registers { pc: wrap16(cpu.registers.pc + 1), ..cpu.registers }).spec_write8(ByteRegister::A, m.spec_read_byte(cpu.registers.pc)), 2), m)
    } else
    if instruction == 0x3F {
        (cpu.with_regs((Registers { carry: !cpu.registers.carry, sub: false, half_carry: false, ..cpu.registers }), 1), m)
    } else {
        (cpu.with_regs(cpu.registers, 1), m)
    }
}

/// Model of primary opcodes 0x40..0x5F.
pub open spec fn spec_exec_op_40(cpu: CPU, m: MemView, instruction: u8) -> (CPU, MemView) {
    if instruction == 0x40 {
        (cpu.with_regs(cpu.registers.spec_write8(ByteRegister::B, cpu.registers.spec_read8(ByteRegister::B)), 1), m)
    } else
    if instruction == 0x41 {
        (cpu.with_regs(cpu.registers.spec_write8(ByteRegister::B, cpu.registers.spec_read8(ByteRegister::C)), 1), m)
    } else
    if instruction == 0x42 {
        (cpu.with_regs(cpu.registers.spec_write8(ByteRegister::B, cpu.registers.spec_read8(ByteRegister::D)), 1), m)
    } else
    if instruction == 0x43 {
        (cpu.with_regs(cpu.registers.spec_write8(ByteRegister::B, cpu.registers.spec_read8(ByteRegister::E)), 1), m)
    } else
    if instruction == 0x44 {
        (cpu.with_regs(cpu.registers.spec_write8(ByteRegister::B, cpu.registers.spec_read8(ByteRegister::H)), 1), m)
    } else
    if instruction == 0x45 {
        (cpu.with_regs(cpu.registers.spec_write8(ByteRegister::B, cpu.registers.spec_read8(ByteRegister::L)), 1), m)
    } else
    if instruction == 0x46 {
        (cpu.with_regs(cpu.registers.spec_write8(ByteRegister::B, m.spec_read_byte(cpu.registers.spec_read_word(WordRegister::HL))), 2), m)
    } else
    if instruction == 0x47 {
        (cpu.with_regs(cpu.registers.spec_write8(ByteRegister::B, cpu.registers.spec_read8(ByteRegister::A)), 1), m)
    } else
    if instruction == 0x48 {
        (cpu.with_regs(cpu.registers.spec_write8(ByteRegister::C, cpu.registers.spec_read8(ByteRegister::B)), 1), m)
    } else
    if instruction == 0x49 {
        (cpu.with_regs(cpu.registers.spec_write8(ByteRegister::C, cpu.registers.spec_read8(ByteRegister::C)), 1), m)
    } else
    if instruction == 0x4A {
        (cpu.with_regs(cpu.registers.spec_write8(ByteRegister::C, cpu.registers.spec_read8(ByteRegister::D)), 1), m)
    } else
    if instruction == 0x4B {
        (cpu.with_regs(cpu.registers.spec_write8(ByteRegister::C, cpu.registers.spec_read8(ByteRegister::E)), 1), m)
    } else
    if instruction == 0x4C {
        (cpu.with_regs(cpu.registers.spec_write8(ByteRegister::C, cpu.registers.spec_read8(ByteRegister::H)), 1), m)
    } else
    if instruction == 0x4D {
        (cpu.with_regs(cpu.registers.spec_write8(ByteRegister::C, cpu.registers.spec_read8(ByteRegister::L)), 1), m)
    } else
    if instruction == 0x4E {
        (cpu.with_regs(cpu.registers.spec_write8(ByteRegister::C, m.spec_read_byte(cpu.registers.spec_read_word(WordRegister::HL))), 2), m)
    } else
    if instruction == 0x4F {
        (cpu.with_regs(cpu.registers.spec_write8(ByteRegister::C, cpu.registers.spec_read8(ByteRegister::A)), 1), m)
    } else
    if instruction == 0x50 {
        (cpu.with_regs(cpu.registers.spec_write8(ByteRegister::D, cpu.registers.spec_read8(ByteRegister::B)), 1), m)
    } else
    if instruction == 0x51 {
        (cpu.with_regs(cpu.registers.spec_write8(ByteRegister::D, cpu.registers.spec_read8(ByteRegister::C)), 1), m)
    } else
    if instruction == 0x52 {
        (cpu.with_regs(cpu.registers.spec_write8(ByteRegister::D, cpu.registers.spec_read8(ByteRegister::D)), 1), m)
    } else
    if instruction == 0x53 {
        (cpu.with_regs(cpu.registers.spec_write8(ByteRegister::D, cpu.registers.spec_read8(ByteRegister::E)), 1), m)
    } else
    if instruction == 0x54 {
        (cpu.with_regs(cpu.registers.spec_write8(ByteRegister::D, cpu.registers.spec_read8(ByteRegister::H)), 1), m)
    } else
    if instruction == 0x55 {
        (cpu.with_regs(cpu.registers.spec_write8(ByteRegister::D, cpu.registers.spec_read8(ByteRegister::L)), 1), m)
    } else
    if instruction == 0x56 {
        (cpu.with_regs(cpu.registers.spec_write8(ByteRegister::D, m.spec_read_byte(cpu.registers.spec_read_word(WordRegister::HL))), 2), m)
    } else
    if instruction == 0x57 {
        (cpu.with_regs(cpu.registers.spec_write8(ByteRegister::D, cpu.registers.spec_read8(ByteRegister::A)), 1), m)
    } else
    if instruction == 0x58 {
        (cpu.with_regs(cpu.registers.spec_write8(ByteRegister::E, cpu.registers.spec_read8(ByteRegister::B)), 1), m)
    } else
    if instruction == 0x59 {
        (cpu.with_regs(cpu.registers.spec_write8(ByteRegister::E, cpu.registers.spec_read8(ByteRegister::C)), 1), m)
    } else
    if instruction == 0x5A {
        (cpu.with_regs(cpu.registers.spec_write8(ByteRegister::E, cpu.registers.spec_read8(ByteRegister::D)), 1), m)
    } else
    if instruction == 0x5B {
        (cpu.with_regs(cpu.registers.spec_write8(ByteRegister::E, cpu.registers.spec_read8(ByteRegister::E)), 1), m)
    } else
    if instruction == 0x5C {
        (cpu.with_regs(cpu.registers.spec_write8(ByteRegister::E, cpu.registers.spec_read8(ByteRegister::H)), 1), m)
    } else
    if instruction == 0x5D {
        (cpu.with_regs(cpu.registers.spec_write8(ByteRegister::E, cpu.registers.spec_read8(ByteRegister::L)), 1), m)
    } else
    if instruction == 0x5E {
        (cpu.with_regs(cpu.registers.spec_write8(ByteRegister::E, m.spec_read_byte(cpu.registers.spec_read_word(WordRegister::HL))), 2), m)
    } else
    if instruction == 0x5F {
        (cpu.with_regs(cpu.registers.spec_write8(ByteRegister::E, cpu.registers.spec_read8(ByteRegister::A)), 1), m)
    } else {
        (cpu.with_regs(cpu.registers, 1), m)
    }
}

/// Model of primary opcodes 0x60..0x7F.
pub open spec fn spec_exec_op_60(cpu: CPU, m: MemView, instruction: u8) -> (CPU, MemView) {
    if instruction == 0x60 {
        (cpu.with_regs(cpu.registers.spec_write8(ByteRegister::H, cpu.registers.spec_read8(ByteRegister::B)), 1), m)
    } else
    if instruction == 0x61 {
        (cpu.with_regs(cpu.registers.spec_write8(ByteRegister::H, cpu.registers.spec_read8(ByteRegister::C)), 1), m)
    } else
    if instruction == 0x62 {
        (cpu.with_regs(cpu.registers.spec_write8(ByteRegister::H, cpu.registers.spec_read8(ByteRegister::D)), 1), m)
    } else
    if instruction == 0x63 {
        (cpu.with_regs(cpu.registers.spec_write8(ByteRegister::H, cpu.registers.spec_read8(ByteRegister::E)), 1), m)
    } else
    if instruction == 0x64 {
        (cpu.with_regs(cpu.registers.spec_write8(ByteRegister::H, cpu.registers.spec_read8(ByteRegister::H)), 1), m)
    } else
    if instruction == 0x65 {
        (cpu.with_regs(cpu.registers.spec_write8(ByteRegister::H, cpu.registers.spec_read8(ByteRegister::L)), 1), m)
    } else
    if instruction == 0x66 {
        (cpu.with_regs(cpu.registers.spec_write8(ByteRegister::H, m.spec_read_byte(cpu.registers.spec_read_word(WordRegister::HL))), 2), m)
    } else
    if instruction == 0x67 {
        (cpu.with_regs(cpu.registers.spec_write8(ByteRegister::H, cpu.registers.spec_read8(ByteRegister::A)), 1), m)
    } else
    if instruction == 0x68 {
        (cpu.with_regs(cpu.registers.spec_write8(ByteRegister::L, cpu.registers.spec_read8(ByteRegister::B)), 1), m)
    } else
    if instruction == 0x69 {
        (cpu.with_regs(cpu.registers.spec_write8(ByteRegister::L, cpu.registers.spec_read8(ByteRegister::C)), 1), m)
    } else
    if instruction == 0x6A {
        (cpu.with_regs(cpu.registers.spec_write8(ByteRegister::L, cpu.registers.spec_read8(ByteRegister::D)), 1), m)
    } else
    if instruction == 0x6B {
        (cpu.with_regs(cpu.registers.spec_write8(ByteRegister::L, cpu.registers.spec_read8(ByteRegister::E)), 1), m)
    } else
    if instruction == 0x6C {
        (cpu.with_regs(cpu.registers.spec_write8(ByteRegister::L, cpu.registers.spec_read8(ByteRegister::H)), 1), m)
    } else
    if instruction == 0x6D {
        (cpu.with_regs(cpu.registers.spec_write8(ByteRegister::L, cpu.registers.spec_read8(ByteRegister::L)), 1), m)
    } else
    if instruction == 0x6E {
        (cpu.with_regs(cpu.registers.spec_write8(ByteRegister::L, m.spec_read_byte(cpu.registers.spec_read_word(WordRegister::HL))), 2), m)
    } else
    if instruction == 0x6F {
        (cpu.with_regs(cpu.registers.spec_write8(ByteRegister::L, cpu.registers.spec_read8(ByteRegister::A)), 1), m)
    } else
    if instruction == 0x70 {
        (cpu.with_regs(cpu.registers, 2), m.spec_write_byte(cpu.registers.spec_read_word(WordRegister::HL), cpu.registers.spec_read8(ByteRegister::B)))
    } else
    if instruction == 0x71 {
        (cpu.with_regs(cpu.registers, 2), m.spec_write_byte(cpu.registers.spec_read_word(WordRegister::HL), cpu.registers.spec_read8(ByteRegister::C)))
    } else
    if instruction == 0x72 {
        (cpu.with_regs(cpu.registers, 2), m.spec_write_byte(cpu.registers.spec_read_word(WordRegister::HL), cpu.registers.spec_read8(ByteRegister::D)))
    } else
    if instruction == 0x73 {
        (cpu.with_regs(cpu.registers, 2), m.spec_write_byte(cpu.registers.spec_read_word(WordRegister::HL), cpu.registers.spec_read8(ByteRegister::E)))
    } else
    if instruction == 0x74 {
        (cpu.with_regs(cpu.registers, 2), m.spec_write_byte(cpu.registers.spec_read_word(WordRegister::HL), cpu.registers.spec_read8(ByteRegister::H)))
    } else
    if instruction == 0x75 {
        (cpu.with_regs(cpu.registers, 2), m.spec_write_byte(cpu.registers.spec_read_word(WordRegister::HL), cpu.registers.spec_read8(ByteRegister::L)))
    } else
    if instruction == 0x76 {
        ((CPU { in_standby: true, ..cpu.with_regs(cpu.registers, 1) }), m)
    } else
    if instruction == 0x77 {
        (cpu.with_regs(cpu.registers, 2), m.spec_write_byte(cpu.registers.spec_read_word(WordRegister::HL), cpu.registers.spec_read8(ByteRegister::A)))
    } else
    if instruction == 0x78 {
        (cpu.with_regs(cpu.registers.spec_write8(ByteRegister::A, cpu.registers.spec_read8(ByteRegister::B)), 1), m)
    } else
    if instruction == 0x79 {
        (cpu.with_regs(cpu.registers.spec_write8(ByteRegister::A, cpu.registers.spec_read8(ByteRegister::C)), 1), m)
    } else
    if instruction == 0x7A {
        (cpu.with_regs(cpu.registers.spec_write8(ByteRegister::A, cpu.registers.spec_read8(ByteRegister::D)), 1), m)
    } else
    if instruction == 0x7B {
        (cpu.with_regs(cpu.registers.spec_write8(ByteRegister::A, cpu.registers.spec_read8(ByteRegister::E)), 1), m)
    } else
    if instruction == 0x7C {
        (cpu.with_regs(cpu.registers.spec_write8(ByteRegister::A, cpu.registers.spec_read8(ByteRegister::H)), 1), m)
    } else
    if instruction == 0x7D {
        (cpu.with_regs(cpu.registers.spec_write8(ByteRegister::A, cpu.registers.spec_read8(ByteRegister::L)), 1), m)
    } else
    if instruction == 0x7E {
        (cpu.with_regs(cpu.registers.spec_write8(ByteRegister::A, m.spec_read_byte(cpu.registers.spec_read_word(WordRegister::HL))), 2), m)
    } else
    if instruction == 0x7F {
        (cpu.with_regs(cpu.registers.spec_write8(ByteRegister::A, cpu.registers.spec_read8(ByteRegister::A)), 1), m)
    } else {
        (cpu.with_regs(cpu.registers, 1), m)
    }
}

/// Model of primary opcodes 0x80..0x9F.
pub open spec fn spec_exec_op_80(cpu: CPU, m: MemView, instruction: u8) -> (CPU, MemView) {
    if instruction == 0x80 {
        (cpu.with_regs(alu_add_regs(cpu.registers, cpu.registers.spec_read8(ByteRegister::B), 0), 1), m)
    } else
    if instruction == 0x81 {
        (cpu.with_regs(alu_add_regs(cpu.registers, cpu.registers.spec_read8(ByteRegister::C), 0), 1), m)
    } else
    if instruction == 0x82 {
        (cpu.with_regs(alu_add_regs(cpu.registers, cpu.registers.spec_read8(ByteRegister::D), 0), 1), m)
    } else
    if instruction == 0x83 {
        (cpu.with_regs(alu_add_regs(cpu.registers, cpu.registers.spec_read8(ByteRegister::E), 0), 1), m)
    } else
    if instruction == 0x84 {
        (cpu.with_regs(alu_add_regs(cpu.registers, cpu.registers.spec_read8(ByteRegister::H), 0), 1), m)
    } else
    if instruction == 0x85 {
        (cpu.with_regs(alu_add_regs(cpu.registers, cpu.registers.spec_read8(ByteRegister::L), 0), 1), m)
    } else
    if instruction == 0x86 {
        (cpu.with_regs(alu_add_regs(cpu.registers, m.spec_read_byte(cpu.registers.spec_read_word(WordRegister::HL)), 0), 2), m)
    } else
    if instruction == 0x87 {
        (cpu.with_regs(alu_add_regs(cpu.registers, cpu.registers.spec_read8(ByteRegister::A), 0), 1), m)
    } else
    if instruction == 0x88 {
        (cpu.with_regs(alu_add_regs(cpu.registers, cpu.registers.spec_read8(ByteRegister::B), carry_in(cpu.registers.carry)), 1), m)
    } else
    if instruction == 0x89 {
        (cpu.with_regs(alu_add_regs(cpu.registers, cpu.registers.spec_read8(ByteRegister::C), carry_in(cpu.registers.carry)), 1), m)
    } else
    if instruction == 0x8A {
        (cpu.with_regs(alu_add_regs(cpu.registers, cpu.registers.spec_read8(ByteRegister::D), carry_in(cpu.registers.carry)), 1), m)
    } else
    if instruction == 0x8B {
        (cpu.with_regs(alu_add_regs(cpu.registers, cpu.registers.spec_read8(ByteRegister::E), carry_in(cpu.registers.carry)), 1), m)
    } else
    if instruction == 0x8C {
        (cpu.with_regs(alu_add_regs(cpu.registers, cpu.registers.spec_read8(ByteRegister::H), carry_in(cpu.registers.carry)), 1), m)
    } else
    if instruction == 0x8D {
        (cpu.with_regs(alu_add_regs(cpu.registers, cpu.registers.spec_read8(ByteRegister::L), carry_in(cpu.registers.carry)), 1), m)
    } else
    if instruction == 0x8E {
        (cpu.with_regs(alu_add_regs(cpu.registers, m.spec_read_byte(cpu.registers.spec_read_word(WordRegister::HL)), carry_in(cpu.registers.carry)), 2), m)
    } else
    if instruction == 0x8F {
        (cpu.with_regs(alu_add_regs(cpu.registers, cpu.registers.spec_read8(ByteRegister::A), carry_in(cpu.registers.carry)), 1), m)
    } else
    if instruction == 0x90 {
        (cpu.with_regs(alu_sub_regs(cpu.registers, cpu.registers.spec_read8(ByteRegister::B), 0), 1), m)
    } else
    if instruction == 0x91 {
        (cpu.with_regs(alu_sub_regs(cpu.registers, cpu.registers.spec_read8(ByteRegister::C), 0), 1), m)
    } else
    if instruction == 0x92 {
        (cpu.with_regs(alu_sub_regs(cpu.registers, cpu.registers.spec_read8(ByteRegister::D), 0), 1), m)
    } else
    if instruction == 0x93 {
        (cpu.with_regs(alu_sub_regs(cpu.registers, cpu.registers.spec_read8(ByteRegister::E), 0), 1), m)
    } else
    if instruction == 0x94 {
        (cpu.with_regs(alu_sub_regs(cpu.registers, cpu.registers.spec_read8(ByteRegister::H), 0), 1), m)
    } else
    if instruction == 0x95 {
        (cpu.with_regs(alu_sub_regs(cpu.registers, cpu.registers.spec_read8(ByteRegister::L), 0), 1), m)
    } else
    if instruction == 0x96 {
        (cpu.with_regs(alu_sub_regs(cpu.registers, m.spec_read_byte(cpu.registers.spec_read_word(WordRegister::HL)), 0), 2), m)
    } else
    if instruction == 0x97 {
        (cpu.with_regs(alu_sub_regs(cpu.registers, cpu.registers.spec_read8(ByteRegister::A), 0), 1), m)
    } else
    if instruction == 0x98 {
        (cpu.with_regs(alu_sub_regs(cpu.registers, cpu.registers.spec_read8(ByteRegister::B), carry_in(cpu.registers.carry)), 1), m)
    } else
    if instruction == 0x99 {
        (cpu.with_regs(alu_sub_regs(cpu.registers, cpu.registers.spec_read8(ByteRegister::C), carry_in(cpu.registers.carry)), 1), m)
    } else
    if instruction == 0x9A {
        (cpu.with_regs(alu_sub_regs(cpu.registers, cpu.registers.spec_read8(ByteRegister::D), carry_in(cpu.registers.carry)), 1), m)
    } else
    if instruction == 0x9B {
        (cpu.with_regs(alu_sub_regs(cpu.registers, cpu.registers.spec_read8(ByteRegister::E), carry_in(cpu.registers.carry)), 1), m)
    } else
    if instruction == 0x9C {
        (cpu.with_regs(alu_sub_regs(cpu.registers, cpu.registers.spec_read8(ByteRegister::H), carry_in(cpu.registers.carry)), 1), m)
    } else
    if instruction == 0x9D {
        (cpu.with_regs(alu_sub_regs(cpu.registers, cpu.registers.spec_read8(ByteRegister::L), carry_in(cpu.registers.carry)), 1), m)
    } else
    if instruction == 0x9E {
        (cpu.with_regs(alu_sub_regs(cpu.registers, m.spec_read_byte(cpu.registers.spec_read_word(WordRegister::HL)), carry_in(cpu.registers.carry)), 2), m)
    } else
    if instruction == 0x9F {
        (cpu.with_regs(alu_sub_regs(cpu.registers, cpu.registers.spec_read8(ByteRegister::A), carry_in(cpu.registers.carry)), 1), m)
    } else {
        (cpu.with_regs(cpu.registers, 1), m)
    }
}

/// Model of primary opcodes 0xA0..0xBF.
pub open spec fn spec_exec_op_a0(cpu: CPU, m: MemView, instruction: u8) -> (CPU, MemView) {
    if instruction == 0xA0 {
        (cpu.with_regs(alu_and_regs(cpu.registers, cpu.registers.spec_read8(ByteRegister::B)), 1), m)
    } else
    if instruction == 0xA1 {
        (cpu.with_regs(alu_and_regs(cpu.registers, cpu.registers.spec_read8(ByteRegister::C)), 1), m)
    } else
    if instruction == 0xA2 {
        (cpu.with_regs(alu_and_regs(cpu.registers, cpu.registers.spec_read8(ByteRegister::D)), 1), m)
    } else
    if instruction == 0xA3 {
        (cpu.with_regs(alu_and_regs(cpu.registers, cpu.registers.spec_read8(ByteRegister::E)), 1), m)
    } else
    if instruction == 0xA4 {
        (cpu.with_regs(alu_and_regs(cpu.registers, cpu.registers.spec_read8(ByteRegister::H)), 1), m)
    } else
    if instruction == 0xA5 {
        (cpu.with_regs(alu_and_regs(cpu.registers, cpu.registers.spec_read8(ByteRegister::L)), 1), m)
    } else
    if instruction == 0xA6 {
        (cpu.with_regs(alu_and_regs(cpu.registers, m.spec_read_byte(cpu.registers.spec_read_word(WordRegister::HL))), 2), m)
    } else
    if instruction == 0xA7 {
        (cpu.with_regs(alu_and_regs(cpu.registers, cpu.registers.spec_read8(ByteRegister::A)), 1), m)
    } else
    if instruction == 0xA8 {
        (cpu.with_regs(alu_xor_regs(cpu.registers, cpu.registers.spec_read8(ByteRegister::B)), 1), m)
    } else
    if instruction == 0xA9 {
        (cpu.with_regs(alu_xor_regs(cpu.registers, cpu.registers.spec_read8(ByteRegister::C)), 1), m)
    } else
    if instruction == 0xAA {
        (cpu.with_regs(alu_xor_regs(cpu.registers, cpu.registers.spec_read8(ByteRegister::D)), 1), m)
    } else
    if instruction == 0xAB {
        (cpu.with_regs(alu_xor_regs(cpu.registers, cpu.registers.spec_read8(ByteRegister::E)), 1), m)
    } else
    if instruction == 0xAC {
        (cpu.with_regs(alu_xor_regs(cpu.registers, cpu.registers.spec_read8(ByteRegister::H)), 1), m)
    } else
    if instruction == 0xAD {
        (cpu.with_regs(alu_xor_regs(cpu.registers, cpu.registers.spec_read8(ByteRegister::L)), 1), m)
    } else
    if instruction == 0xAE {
        (cpu.with_regs(alu_xor_regs(cpu.registers, m.spec_read_byte(cpu.registers.spec_read_word(WordRegister::HL))), 2), m)
    } else
    if instruction == 0xAF {
        (cpu.with_regs(alu_xor_regs(cpu.registers, cpu.registers.spec_read8(ByteRegister::A)), 1), m)
    } else
    if instruction == 0xB0 {
        (cpu.with_regs(alu_or_regs(cpu.registers, cpu.registers.spec_read8(ByteRegister::B)), 1), m)
    } else
    if instruction == 0xB1 {
        (cpu.with_regs(alu_or_regs(cpu.registers, cpu.registers.spec_read8(ByteRegister::C)), 1), m)
    } else
    if instruction == 0xB2 {
        (cpu.with_regs(alu_or_regs(cpu.registers, cpu.registers.spec_read8(ByteRegister::D)), 1), m)
    } else
    if instruction == 0xB3 {
        (cpu.with_regs(alu_or_regs(cpu.registers, cpu.registers.spec_read8(ByteRegister::E)), 1), m)
    } else
    if instruction == 0xB4 {
        (cpu.with_regs(alu_or_regs(cpu.registers, cpu.registers.spec_read8(ByteRegister::H)), 1), m)
    } else
    if instruction == 0xB5 {
        (cpu.with_regs(alu_or_regs(cpu.registers, cpu.registers.spec_read8(ByteRegister::L)), 1), m)
    } else
    if instruction == 0xB6 {
        (cpu.with_regs(alu_or_regs(cpu.registers, m.spec_read_byte(cpu.registers.spec_read_word(WordRegister::HL))), 2), m)
    } else
    if instruction == 0xB7 {
        (cpu.with_regs(alu_or_regs(cpu.registers, cpu.registers.spec_read8(ByteRegister::A)), 1), m)
    } else
    if instruction == 0xB8 {
        (cpu.with_regs(alu_cp_regs(cpu.registers, cpu.registers.spec_read8(ByteRegister::B)), 1), m)
    } else
    if instruction == 0xB9 {
        (cpu.with_regs(alu_cp_regs(cpu.registers, cpu.registers.spec_read8(ByteRegister::C)), 1), m)
    } else
    if instruction == 0xBA {
        (cpu.with_regs(alu_cp_regs(cpu.registers, cpu.registers.spec_read8(ByteRegister::D)), 1), m)
    } else
    if instruction == 0xBB {
        (cpu.with_regs(alu_cp_regs(cpu.registers, cpu.registers.spec_read8(ByteRegister::E)), 1), m)
    } else
    if instruction == 0xBC {
        (cpu.with_regs(alu_cp_regs(cpu.registers, cpu.registers.spec_read8(ByteRegister::H)), 1), m)
    } else
    if instruction == 0xBD {
        (cpu.with_regs(alu_cp_regs(cpu.registers, cpu.registers.spec_read8(ByteRegister::L)), 1), m)
    } else
    if instruction == 0xBE {
        (cpu.with_regs(alu_cp_regs(cpu.registers, m.spec_read_byte(cpu.registers.spec_read_word(WordRegister::HL))), 2), m)
    } else
    if instruction == 0xBF {
        (cpu.with_regs(alu_cp_regs(cpu.registers, cpu.registers.spec_read8(ByteRegister::A)), 1), m)
    } else {
        (cpu.with_regs(cpu.registers, 1), m)
    }
}

/// Model of primary opcodes 0xC0..0xDF.
pub open spec fn spec_exec_op_c0(cpu: CPU, m: MemView, instruction: u8) -> (CPU, MemView) {
    if instruction == 0xC0 {
        (if !cpu.registers.spec_get_flag(Flag::Zero) { cpu.with_regs((Registers { pc: m.spec_read_word(cpu.registers.sp), sp: wrap16(cpu.registers.sp + 2), ..cpu.registers }), 5) } else { cpu.with_regs(cpu.registers, 2) }, m)
    } else
    if instruction == 0xC1 {
        (cpu.with_regs((Registers { sp: wrap16(cpu.registers.sp + 2), ..cpu.registers }).spec_write_word(WordRegister::BC, m.spec_read_word(cpu.registers.sp)), 3), m)
    } else
    if instruction == 0xC2 {
        (if !cpu.registers.spec_get_flag(Flag::Zero) { cpu.with_regs((Registers { pc: m.spec_read_word(cpu.registers.pc), ..cpu.registers }), 4) } else { cpu.with_regs((Registers { pc: wrap16(cpu.registers.pc + 2), ..cpu.registers }), 3) }, m)
    } else
    if instruction == 0xC3 {
        (cpu.with_regs((Registers { pc: m.spec_read_word(cpu.registers.pc), ..cpu.registers }), 4), m)
    } else
    if instruction == 0xC4 {
        (if !cpu.registers.spec_get_flag(Flag::Zero) { cpu.with_regs((Registers { pc: m.spec_read_word(cpu.registers.pc), sp: wrap16(cpu.registers.sp - 2), ..cpu.registers }), 6) } else { cpu.with_regs((Registers { pc: wrap16(cpu.registers.pc + 2), ..cpu.registers }), 3) }, if !cpu.registers.spec_get_flag(Flag::Zero) { m.spec_write_word(wrap16(cpu.registers.sp - 2), wrap16(cpu.registers.pc + 2)) } else { m })
    } else
    if instruction == 0xC5 {
        (cpu.with_regs((Registers { sp: wrap16(cpu.registers.sp - 2), ..cpu.registers }), 4), m.spec_write_word(wrap16(cpu.registers.sp - 2), cpu.registers.spec_read_word(WordRegister::BC)))
    } else
    if instruction == 0xC6 {
        (cpu.with_regs((Registers { pc: wrap16(cpu.registers.pc + 1), ..alu_add_regs(cpu.registers, m.spec_read_byte(cpu.registers.pc), 0) }), 2), m)
    } else
    if instruction == 0xC7 {
        (cpu.with_regs((Registers { pc: 0x00u16, sp: wrap16(cpu.registers.sp - 2), ..cpu.registers }), 4), m.spec_write_word(wrap16(cpu.registers.sp - 2), cpu.registers.pc))
    } else
    if instruction == 0xC8 {
        (if cpu.registers.spec_get_flag(Flag::Zero) { cpu.with_regs((Registers { pc: m.spec_read_word(cpu.registers.sp), sp: wrap16(cpu.registers.sp + 2), ..cpu.registers }), 5) } else { cpu.with_regs(cpu.registers, 2) }, m)
    } else
    if instruction == 0xC9 {
        (cpu.with_regs((Registers { pc: m.spec_read_word(cpu.registers.sp), sp: wrap16(cpu.registers.sp + 2), ..cpu.registers }), 4), m)
    } else
    if instruction == 0xCA {
        (if cpu.registers.spec_get_flag(Flag::Zero) { cpu.with_regs((Registers { pc: m.spec_read_word(cpu.registers.pc), ..cpu.registers }), 4) } else { cpu.with_regs((Registers { pc: wrap16(cpu.registers.pc + 2), ..cpu.registers }), 3) }, m)
    } else
    if instruction == 0xCB {
        spec_exec_cb_op((CPU { registers: (Registers { pc: wrap16(cpu.registers.pc + 1), ..cpu.registers }), ..cpu }), m, m.spec_read_byte(cpu.registers.pc))
    } else
    if instruction == 0xCC {
        (if cpu.registers.spec_get_flag(Flag::Zero) { cpu.with_regs((Registers { pc: m.spec_read_word(cpu.registers.pc), sp: wrap16(cpu.registers.sp - 2), ..cpu.registers }), 6) } else { cpu.with_regs((Registers { pc: wrap16(cpu.registers.pc + 2), ..cpu.registers }), 3) }, if cpu.registers.spec_get_flag(Flag::Zero) { m.spec_write_word(wrap16(cpu.registers.sp - 2), wrap16(cpu.registers.pc + 2)) } else { m })
    } else
    if instruction == 0xCD {
        (cpu.with_regs((Registers { pc: m.spec_read_word(cpu.registers.pc), sp: wrap16(cpu.registers.sp - 2), ..cpu.registers }), 6), m.spec_write_word(wrap16(cpu.registers.sp - 2), wrap16(cpu.registers.pc + 2)))
    } else
    if instruction == 0xCE {
        (cpu.with_regs((Registers { pc: wrap16(cpu.registers.pc + 1), ..alu_add_regs(cpu.registers, m.spec_read_byte(cpu.registers.pc), carry_in(cpu.registers.carry)) }), 2), m)
    } else
    if instruction == 0xCF {
        (cpu.with_regs((Registers { pc: 0x08u16, sp: wrap16(cpu.registers.sp - 2), ..cpu.registers }), 4), m.spec_write_word(wrap16(cpu.registers.sp - 2), cpu.registers.pc))
    } else
    if instruction == 0xD0 {
        (if !cpu.registers.spec_get_flag(Flag::Carry) { cpu.with_regs((Registers { pc: m.spec_read_word(cpu.registers.sp), sp: wrap16(cpu.registers.sp + 2), ..cpu.registers }), 5) } else { cpu.with_regs(cpu.registers, 2) }, m)
    } else
    if instruction == 0xD1 {
        (cpu.with_regs((Registers { sp: wrap16(cpu.registers.sp + 2), ..cpu.registers }).spec_write_word(WordRegister::DE, m.spec_read_word(cpu.registers.sp)), 3), m)
    } else
    if instruction == 0xD2 {
        (if !cpu.registers.spec_get_flag(Flag::Carry) { cpu.with_regs((Registers { pc: m.spec_read_word(cpu.registers.pc), ..cpu.registers }), 4) } else { cpu.with_regs((Registers { pc: wrap16(cpu.registers.pc + 2), ..cpu.registers }), 3) }, m)
    } else
    if instruction == 0xD3 {
        (cpu.with_regs(cpu.registers, 1), m)
    } else
    if instruction == 0xD4 {
        (if !cpu.registers.spec_get_flag(Flag::Carry) { cpu.with_regs((Registers { pc: m.spec_read_word(cpu.registers.pc), sp: wrap16(cpu.registers.sp - 2), ..cpu.registers }), 6) } else { cpu.with_regs((Registers { pc: wrap16(cpu.registers.pc + 2), ..cpu.registers }), 3) }, if !cpu.registers.spec_get_flag(Flag::Carry) { m.spec_write_word(wrap16(cpu.registers.sp - 2), wrap16(cpu.registers.pc + 2)) } else { m })
    } else
    if instruction == 0xD5 {
        (cpu.with_regs((Registers { sp: wrap16(cpu.registers.sp - 2), ..cpu.registers }), 4), m.spec_write_word(wrap16(cpu.registers.sp - 2), cpu.registers.spec_read_word(WordRegister::DE)))
    } else
    if instruction == 0xD6 {
        (cpu.with_regs((Registers { pc: wrap16(cpu.registers.pc + 1), ..alu_sub_regs(cpu.registers, m.spec_read_byte(cpu.registers.pc), 0) }), 2), m)
    } else
    if instruction == 0xD7 {
        (cpu.with_regs((Registers { pc: 0x10u16, sp: wrap16(cpu.registers.sp - 2), ..cpu.registers }), 4), m.spec_write_word(wrap16(cpu.registers.sp - 2), cpu.registers.pc))
    } else
    if instruction == 0xD8 {
        (if cpu.registers.spec_get_flag(Flag::Carry) { cpu.with_regs((Registers { pc: m.spec_read_word(cpu.registers.sp), sp: wrap16(cpu.registers.sp + 2), ..cpu.registers }), 5) } else { cpu.with_regs(cpu.registers, 2) }, m)
    } else
    if instruction == 0xD9 {
        ((CPU { interrupts_enabled: true, ..cpu.with_regs((Registers { pc: m.spec_read_word(cpu.registers.sp), sp: wrap16(cpu.registers.sp + 2), ..cpu.registers }), 4) }), m)
    } else
    if instruction == 0xDA {
        (if cpu.registers.spec_get_flag(Flag::Carry) { cpu.with_regs((Registers { pc: m.spec_read_word(cpu.registers.pc), ..cpu.registers }), 4) } else { cpu.with_regs((Registers { pc: wrap16(cpu.registers.pc + 2), ..cpu.registers }), 3) }, m)
    } else
    if instruction == 0xDB {
        (cpu.with_regs(cpu.registers, 1), m)
    } else
    if instruction == 0xDC {
        (if cpu.registers.spec_get_flag(Flag::Carry) { cpu.with_regs((Registers { pc: m.spec_read_word(cpu.registers.pc), sp: wrap16(cpu.registers.sp - 2), ..cpu.registers }), 6) } else { cpu.with_regs((Registers { pc: wrap16(cpu.registers.pc + 2), ..cpu.registers }), 3) }, if cpu.registers.spec_get_flag(Flag::Carry) { m.spec_write_word(wrap16(cpu.registers.sp - 2), wrap16(cpu.registers.pc + 2)) } else { m })
    } else
    if instruction == 0xDD {
        (cpu.with_regs(cpu.registers, 1), m)
    } else
    if instruction == 0xDE {
        (cpu.with_regs((Registers { pc: wrap16(cpu.registers.pc + 1), ..alu_sub_regs(cpu.registers, m.spec_read_byte(cpu.registers.pc), carry_in(cpu.registers.carry)) }), 2), m)
    } else
    if instruction == 0xDF {
        (cpu.with_regs((Registers { pc: 0x18u16, sp: wrap16(cpu.registers.sp - 2), ..cpu.registers }), 4), m.spec_write_word(wrap16(cpu.registers.sp - 2), cpu.registers.pc))
    } else {
        (cpu.with_regs(cpu.registers, 1), m)
    }
}

/// Model of primary opcodes 0xE0..0xFF.
pub open spec fn spec_exec_op_e0(cpu: CPU, m: MemView, instruction: u8) -> (CPU, MemView) {
    if instruction == 0xE0 {
        (cpu.with_regs((Registers { pc: wrap16(cpu.registers.pc + 1), ..cpu.registers }), 3), m.spec_write_byte((0xFF00 + m.spec_read_byte(cpu.registers.pc)) as u16, cpu.registers.a))
    } else
    if instruction == 0xE1 {
        (cpu.with_regs((Registers { sp: wrap16(cpu.registers.sp + 2), ..cpu.registers }).spec_write_word(WordRegister::HL, m.spec_read_word(cpu.registers.sp)), 3), m)
    } else
    if instruction == 0xE2 {
        (cpu.with_regs(cpu.registers, 2), m.spec_write_byte((0xFF00 + cpu.registers.c) as u16, cpu.registers.a))
    } else
    if instruction == 0xE3 {
        (cpu.with_regs(cpu.registers, 1), m)
    } else
    if instruction == 0xE4 {
        (cpu.with_regs(cpu.registers, 1), m)
    } else
    if instruction == 0xE5 {
        (cpu.with_regs((Registers { sp: wrap16(cpu.registers.sp - 2), ..cpu.registers }), 4), m.spec_write_word(wrap16(cpu.registers.sp - 2), cpu.registers.spec_read_word(WordRegister::HL)))
    } else
    if instruction == 0xE6 {
        (cpu.with_regs((Registers { pc: wrap16(cpu.registers.pc + 1), ..alu_and_regs(cpu.registers, m.spec_read_byte(cpu.registers.pc)) }), 2), m)
    } else
    if instruction == 0xE7 {
        (cpu.with_regs((Registers { pc: 0x20u16, sp: wrap16(cpu.registers.sp - 2), ..cpu.registers }), 4), m.spec_write_word(wrap16(cpu.registers.sp - 2), cpu.registers.pc))
    } else
    if instruction == 0xE8 {
        (cpu.with_regs((Registers { pc: wrap16(cpu.registers.pc + 1), sp: signed_offset(cpu.registers.sp, m.spec_read_byte(cpu.registers.pc)), zero: false, sub: false, half_carry: sp_offset_h(cpu.registers.sp, m.spec_read_byte(cpu.registers.pc)), carry: sp_offset_c(cpu.registers.sp, m.spec_read_byte(cpu.registers.pc)), ..cpu.registers }), 4), m)
    } else
    if instruction == 0xE9 {
        (cpu.with_regs((Registers { pc: cpu.registers.spec_read_word(WordRegister::HL), ..cpu.registers }), 1), m)
    } else
    if instruction == 0xEA {
        (cpu.with_regs((Registers { pc: wrap16(cpu.registers.pc + 2), ..cpu.registers }), 4), m.spec_write_byte(m.spec_read_word(cpu.registers.pc), cpu.registers.a))
    } else
    if instruction == 0xEB {
        (cpu.with_regs(cpu.registers, 1), m)
    } else
    if instruction == 0xEC {
        (cpu.with_regs(cpu.registers, 1), m)
    } else
    if instruction == 0xED {
        (cpu.with_regs(cpu.registers, 1), m)
    } else
    if instruction == 0xEE {
        (cpu.with_regs((Registers { pc: wrap16(cpu.registers.pc + 1), ..alu_xor_regs(cpu.registers, m.spec_read_byte(cpu.registers.pc)) }), 2), m)
    } else
    if instruction == 0xEF {
        (cpu.with_regs((Registers { pc: 0x28u16, sp: wrap16(cpu.registers.sp - 2), ..cpu.registers }), 4), m.spec_write_word(wrap16(cpu.registers.sp - 2), cpu.registers.pc))
    } else
    if instruction == 0xF0 {
        (cpu.with_regs((Registers { pc: wrap16(cpu.registers.pc + 1), ..cpu.registers }).spec_write8(ByteRegister::A, m.spec_read_byte((0xFF00 + m.spec_read_byte(cpu.registers.pc)) as u16)), 3), m)
    } else
    if instruction == 0xF1 {
        (cpu.with_regs((Registers { sp: wrap16(cpu.registers.sp + 2), ..cpu.registers }).spec_write_word(WordRegister::AF, m.spec_read_word(cpu.registers.sp)), 3), m)
    } else
    if instruction == 0xF2 {
        (cpu.with_regs(cpu.registers.spec_write8(ByteRegister::A, m.spec_read_byte((0xFF00 + cpu.registers.c) as u16)), 2), m)
    } else
    if instruction == 0xF3 {
        ((CPU { interrupts_enabled: false, ..cpu.with_regs(cpu.registers, 1) }), m)
    } else
    if instruction == 0xF4 {
        (cpu.with_regs(cpu.registers, 1), m)
    } else
    if instruction == 0xF5 {
        (cpu.with_regs((Registers { sp: wrap16(cpu.registers.sp - 2), ..cpu.registers }), 4), m.spec_write_word(wrap16(cpu.registers.sp - 2), cpu.registers.spec_read_word(WordRegister::AF)))
    } else
    if instruction == 0xF6 {
        (cpu.with_regs((Registers { pc: wrap16(cpu.registers.pc + 1), ..alu_or_regs(cpu.registers, m.spec_read_byte(cpu.registers.pc)) }), 2), m)
    } else
    if instruction == 0xF7 {
        (cpu.with_regs((Registers { pc: 0x30u16, sp: wrap16(cpu.registers.sp - 2), ..cpu.registers }), 4), m.spec_write_word(wrap16(cpu.registers.sp - 2), cpu.registers.pc))
    } else
    if instruction == 0xF8 {
        (cpu.with_regs((Registers { pc: wrap16(cpu.registers.pc + 1), zero: false, sub: false, half_carry: sp_offset_h(cpu.registers.sp, m.spec_read_byte(cpu.registers.pc)), carry: sp_offset_c(cpu.registers.sp, m.spec_read_byte(cpu.registers.pc)), ..cpu.registers }).spec_write_word(WordRegister::HL, signed_offset(cpu.registers.sp, m.spec_read_byte(cpu.registers.pc))), 3), m)
    } else
    if instruction == 0xF9 {
        (cpu.with_regs((Registers { sp: cpu.registers.spec_read_word(WordRegister::HL), ..cpu.registers }), 2), m)
    } else
    if instruction == 0xFA {
        (cpu.with_regs((Registers { pc: wrap16(cpu.registers.pc + 2), ..cpu.registers }).spec_write8(ByteRegister::A, m.spec_read_byte(m.spec_read_word(cpu.registers.pc))), 4), m)
    } else
    if instruction == 0xFB {
        ((CPU { interrupts_enabled_after_next: true, ..cpu.with_regs(cpu.registers, 1) }), m)
    } else
    if instruction == 0xFC {
        (cpu.with_regs(cpu.registers, 1), m)
    } else
    if instruction == 0xFD {
        (cpu.with_regs(cpu.registers, 1), m)
    } else
    if instruction == 0xFE {
        (cpu.with_regs((Registers { pc: wrap16(cpu.registers.pc + 1), ..alu_cp_regs(cpu.registers, m.spec_read_byte(cpu.registers.pc)) }), 2), m)
    } else
    if instruction == 0xFF {
        (cpu.with_regs((Registers { pc: 0x38u16, sp: wrap16(cpu.registers.sp - 2), ..cpu.registers }), 4), m.spec_write_word(wrap16(cpu.registers.sp - 2), cpu.registers.pc))
    } else {
        (cpu.with_regs(cpu.registers, 1), m)
    }
}

/// Model of CB-prefixed opcodes 0x00..0x1F.
pub open spec fn spec_exec_cb_op_00(cpu: CPU, m: MemView, instruction: u8) -> (CPU, MemView) {
    if instruction == 0x00 {
        (cpu.with_regs(rot_flags(cpu.registers, rlc_res(cpu.registers.spec_read8(ByteRegister::B)), cpu.registers.spec_read8(ByteRegister::B) / 128 == 1).spec_write8(ByteRegister::B, rlc_res(cpu.registers.spec_read8(ByteRegister::B))), 2), m)
    } else
    if instruction == 0x01 {
        (cpu.with_regs(rot_flags(cpu.registers, rlc_res(cpu.registers.spec_read8(ByteRegister::C)), cpu.registers.spec_read8(ByteRegister::C) / 128 == 1).spec_write8(ByteRegister::C, rlc_res(cpu.registers.spec_read8(ByteRegister::C))), 2), m)
    } else
    if instruction == 0x02 {
        (cpu.with_regs(rot_flags(cpu.registers, rlc_res(cpu.registers.spec_read8(ByteRegister::D)), cpu.registers.spec_read8(ByteRegister::D) / 128 == 1).spec_write8(ByteRegister::D, rlc_res(cpu.registers.spec_read8(ByteRegister::D))), 2), m)
    } else
    if instruction == 0x03 {
        (cpu.with_regs(rot_flags(cpu.registers, rlc_res(cpu.registers.spec_read8(ByteRegister::E)), cpu.registers.spec_read8(ByteRegister::E) / 128 == 1).spec_write8(ByteRegister::E, rlc_res(cpu.registers.spec_read8(ByteRegister::E))), 2), m)
    } else
    if instruction == 0x04 {
        (cpu.with_regs(rot_flags(cpu.registers, rlc_res(cpu.registers.spec_read8(ByteRegister::H)), cpu.registers.spec_read8(ByteRegister::H) / 128 == 1).spec_write8(ByteRegister::H, rlc_res(cpu.registers.spec_read8(ByteRegister::H))), 2), m)
    } else
    if instruction == 0x05 {
        (cpu.with_regs(rot_flags(cpu.registers, rlc_res(cpu.registers.spec_read8(ByteRegister::L)), cpu.registers.spec_read8(ByteRegister::L) / 128 == 1).spec_write8(ByteRegister::L, rlc_res(cpu.registers.spec_read8(ByteRegister::L))), 2), m)
    } else
    if instruction == 0x06 {
        (cpu.with_regs(rot_flags(cpu.registers, rlc_res(m.spec_read_byte(cpu.registers.spec_read_word(WordRegister::HL))), m.spec_read_byte(cpu.registers.spec_read_word(WordRegister::HL)) / 128 == 1), 4), m.spec_write_byte(cpu.registers.spec_read_word(WordRegister::HL), rlc_res(m.spec_read_byte(cpu.registers.spec_read_word(WordRegister::HL)))))
    } else
    if instruction == 0x07 {
        (cpu.with_regs(rot_flags(cpu.registers, rlc_res(cpu.registers.spec_read8(ByteRegister::A)), cpu.registers.spec_read8(ByteRegister::A) / 128 == 1).spec_write8(ByteRegister::A, rlc_res(cpu.registers.spec_read8(ByteRegister::A))), 2), m)
    } else
    if instruction == 0x08 {
        (cpu.with_regs(rot_flags(cpu.registers, rrc_res(cpu.registers.spec_read8(ByteRegister::B)), cpu.registers.spec_read8(ByteRegister::B) % 2 == 1).spec_write8(ByteRegister::B, rrc_res(cpu.registers.spec_read8(ByteRegister::B))), 2), m)
    } else
    if instruction == 0x09 {
        (cpu.with_regs(rot_flags(cpu.registers, rrc_res(cpu.registers.spec_read8(ByteRegister::C)), cpu.registers.spec_read8(ByteRegister::C) % 2 == 1).spec_write8(ByteRegister::C, rrc_res(cpu.registers.spec_read8(ByteRegister::C))), 2), m)
    } else
    if instruction == 0x0A {
        (cpu.with_regs(rot_flags(cpu.registers, rrc_res(cpu.registers.spec_read8(ByteRegister::D)), cpu.registers.spec_read8(ByteRegister::D) % 2 == 1).spec_write8(ByteRegister::D, rrc_res(cpu.registers.spec_read8(ByteRegister::D))), 2), m)
    } else
    if instruction == 0x0B {
        (cpu.with_regs(rot_flags(cpu.registers, rrc_res(cpu.registers.spec_read8(ByteRegister::E)), cpu.registers.spec_read8(ByteRegister::E) % 2 == 1).spec_write8(ByteRegister::E, rrc_res(cpu.registers.spec_read8(ByteRegister::E))), 2), m)
    } else
    if instruction == 0x0C {
        (cpu.with_regs(rot_flags(cpu.registers, rrc_res(cpu.registers.spec_read8(ByteRegister::H)), cpu.registers.spec_read8(ByteRegister::H) % 2 == 1).spec_write8(ByteRegister::H, rrc_res(cpu.registers.spec_read8(ByteRegister::H))), 2), m)
    } else
    if instruction == 0x0D {
        (cpu.with_regs(rot_flags(cpu.registers, rrc_res(cpu.registers.spec_read8(ByteRegister::L)), cpu.registers.spec_read8(ByteRegister::L) % 2 == 1).spec_write8(ByteRegister::L, rrc_res(cpu.registers.spec_read8(ByteRegister::L))), 2), m)
    } else
    if instruction == 0x0E {
        (cpu.with_regs(rot_flags(cpu.registers, rrc_res(m.spec_read_byte(cpu.registers.spec_read_word(WordRegister::HL))), m.spec_read_byte(cpu.registers.spec_read_word(WordRegister::HL)) % 2 == 1), 4), m.spec_write_byte(cpu.registers.spec_read_word(WordRegister::HL), rrc_res(m.spec_read_byte(cpu.registers.spec_read_word(WordRegister::HL)))))
    } else
    if instruction == 0x0F {
        (cpu.with_regs(rot_flags(cpu.registers, rrc_res(cpu.registers.spec_read8(ByteRegister::A)), cpu.registers.spec_read8(ByteRegister::A) % 2 == 1).spec_write8(ByteRegister::A, rrc_res(cpu.registers.spec_read8(ByteRegister::A))), 2), m)
    } else
    if instruction == 0x10 {
        (cpu.with_regs(rot_flags(cpu.registers, rl_res(cpu.registers.spec_read8(ByteRegister::B), cpu.registers.carry), cpu.registers.spec_read8(ByteRegister::B) / 128 == 1).spec_write8(ByteRegister::B, rl_res(cpu.registers.spec_read8(ByteRegister::B), cpu.registers.carry)), 2), m)
    } else
    if instruction == 0x11 {
        (cpu.with_regs(rot_flags(cpu.registers, rl_res(cpu.registers.spec_read8(ByteRegister::C), cpu.registers.carry), cpu.registers.spec_read8(ByteRegister::C) / 128 == 1).spec_write8(ByteRegister::C, rl_res(cpu.registers.spec_read8(ByteRegister::C), cpu.registers.carry)), 2), m)
    } else
    if instruction == 0x12 {
        (cpu.with_regs(rot_flags(cpu.registers, rl_res(cpu.registers.spec_read8(ByteRegister::D), cpu.registers.carry), cpu.registers.spec_read8(ByteRegister::D) / 128 == 1).spec_write8(ByteRegister::D, rl_res(cpu.registers.spec_read8(ByteRegister::D), cpu.registers.carry)), 2), m)
    } else
    if instruction == 0x13 {
        (cpu.with_regs(rot_flags(cpu.registers, rl_res(cpu.registers.spec_read8(ByteRegister::E), cpu.registers.carry), cpu.registers.spec_read8(ByteRegister::E) / 128 == 1).spec_write8(ByteRegister::E, rl_res(cpu.registers.spec_read8(ByteRegister::E), cpu.registers.carry)), 2), m)
    } else
    if instruction == 0x14 {
        (cpu.with_regs(rot_flags(cpu.registers, rl_res(cpu.registers.spec_read8(ByteRegister::H), cpu.registers.carry), cpu.registers.spec_read8(ByteRegister::H) / 128 == 1).spec_write8(ByteRegister::H, rl_res(cpu.registers.spec_read8(ByteRegister::H), cpu.registers.carry)), 2), m)
    } else
    if instruction == 0x15 {
        (cpu.with_regs(rot_flags(cpu.registers, rl_res(cpu.registers.spec_read8(ByteRegister::L), cpu.registers.carry), cpu.registers.spec_read8(ByteRegister::L) / 128 == 1).spec_write8(ByteRegister::L, rl_res(cpu.registers.spec_read8(ByteRegister::L), cpu.registers.carry)), 2), m)
    } else
    if instruction == 0x16 {
        (cpu.with_regs(rot_flags(cpu.registers, rl_res(m.spec_read_byte(cpu.registers.spec_read_word(WordRegister::HL)), cpu.registers.carry), m.spec_read_byte(cpu.registers.spec_read_word(WordRegister::HL)) / 128 == 1), 4), m.spec_write_byte(cpu.registers.spec_read_word(WordRegister::HL), rl_res(m.spec_read_byte(cpu.registers.spec_read_word(WordRegister::HL)), cpu.registers.carry)))
    } else
    if instruction == 0x17 {
        (cpu.with_regs(rot_flags(cpu.registers, rl_res(cpu.registers.spec_read8(ByteRegister::A), cpu.registers.carry), cpu.registers.spec_read8(ByteRegister::A) / 128 == 1).spec_write8(ByteRegister::A, rl_res(cpu.registers.spec_read8(ByteRegister::A), cpu.registers.carry)), 2), m)
    } else
    if instruction == 0x18 {
        (cpu.with_regs(rot_flags(cpu.registers, rr_res(cpu.registers.spec_read8(ByteRegister::B), cpu.registers.carry), cpu.registers.spec_read8(ByteRegister::B) % 2 == 1).spec_write8(ByteRegister::B, rr_res(cpu.registers.spec_read8(ByteRegister::B), cpu.registers.carry)), 2), m)
    } else
    if instruction == 0x19 {
        (cpu.with_regs(rot_flags(cpu.registers, rr_res(cpu.registers.spec_read8(ByteRegister::C), cpu.registers.carry), cpu.registers.spec_read8(ByteRegister::C) % 2 == 1).spec_write8(ByteRegister::C, rr_res(cpu.registers.spec_read8(ByteRegister::C), cpu.registers.carry)), 2), m)
    } else
    if instruction == 0x1A {
        (cpu.with_regs(rot_flags(cpu.registers, rr_res(cpu.registers.spec_read8(ByteRegister::D), cpu.registers.carry), cpu.registers.spec_read8(ByteRegister::D) % 2 == 1).spec_write8(ByteRegister::D, rr_res(cpu.registers.spec_read8(ByteRegister::D), cpu.registers.carry)), 2), m)
    } else
    if instruction == 0x1B {
        (cpu.with_regs(rot_flags(cpu.registers, rr_res(cpu.registers.spec_read8(ByteRegister::E), cpu.registers.carry), cpu.registers.spec_read8(ByteRegister::E) % 2 == 1).spec_write8(ByteRegister::E, rr_res(cpu.registers.spec_read8(ByteRegister::E), cpu.registers.carry)), 2), m)
    } else
    if instruction == 0x1C {
        (cpu.with_regs(rot_flags(cpu.registers, rr_res(cpu.registers.spec_read8(ByteRegister::H), cpu.registers.carry), cpu.registers.spec_read8(ByteRegister::H) % 2 == 1).spec_write8(ByteRegister::H, rr_res(cpu.registers.spec_read8(ByteRegister::H), cpu.registers.carry)), 2), m)
    } else
    if instruction == 0x1D {
        (cpu.with_regs(rot_flags(cpu.registers, rr_res(cpu.registers.spec_read8(ByteRegister::L), cpu.registers.carry), cpu.registers.spec_read8(ByteRegister::L) % 2 == 1).spec_write8(ByteRegister::L, rr_res(cpu.registers.spec_read8(ByteRegister::L), cpu.registers.carry)), 2), m)
    } else
    if instruction == 0x1E {
        (cpu.with_regs(rot_flags(cpu.registers, rr_res(m.spec_read_byte(cpu.registers.spec_read_word(WordRegister::HL)), cpu.registers.carry), m.spec_read_byte(cpu.registers.spec_read_word(WordRegister::HL)) % 2 == 1), 4), m.spec_write_byte(cpu.registers.spec_read_word(WordRegister::HL), rr_res(m.spec_read_byte(cpu.registers.spec_read_word(WordRegister::HL)), cpu.registers.carry)))
    } else
    if instruction == 0x1F {
        (cpu.with_regs(rot_flags(cpu.registers, rr_res(cpu.registers.spec_read8(ByteRegister::A), cpu.registers.carry), cpu.registers.spec_read8(ByteRegister::A) % 2 == 1).spec_write8(ByteRegister::A, rr_res(cpu.registers.spec_read8(ByteRegister::A), cpu.registers.carry)), 2), m)
    } else {
        (cpu.with_regs(cpu.registers, 1), m)
    }
}

/// Model of CB-prefixed opcodes 0x20..0x3F.
pub open spec fn spec_exec_cb_op_20(cpu: CPU, m: MemView, instruction: u8) -> (CPU, MemView) {
    if instruction == 0x20 {
        (cpu.with_regs(rot_flags(cpu.registers, sla_res(cpu.registers.spec_read8(ByteRegister::B)), cpu.registers.spec_read8(ByteRegister::B) / 128 == 1).spec_write8(ByteRegister::B, sla_res(cpu.registers.spec_read8(ByteRegister::B))), 2), m)
    } else
    if instruction == 0x21 {
        (cpu.with_regs(rot_flags(cpu.registers, sla_res(cpu.registers.spec_read8(ByteRegister::C)), cpu.registers.spec_read8(ByteRegister::C) / 128 == 1).spec_write8(ByteRegister::C, sla_res(cpu.registers.spec_read8(ByteRegister::C))), 2), m)
    } else
    if instruction == 0x22 {
        (cpu.with_regs(rot_flags(cpu.registers, sla_res(cpu.registers.spec_read8(ByteRegister::D)), cpu.registers.spec_read8(ByteRegister::D) / 128 == 1).spec_write8(ByteRegister::D, sla_res(cpu.registers.spec_read8(ByteRegister::D))), 2), m)
    } else
    if instruction == 0x23 {
        (cpu.with_regs(rot_flags(cpu.registers, sla_res(cpu.registers.spec_read8(ByteRegister::E)), cpu.registers.spec_read8(ByteRegister::E) / 128 == 1).spec_write8(ByteRegister::E, sla_res(cpu.registers.spec_read8(ByteRegister::E))), 2), m)
    } else
    if instruction == 0x24 {
        (cpu.with_regs(rot_flags(cpu.registers, sla_res(cpu.registers.spec_read8(ByteRegister::H)), cpu.registers.spec_read8(ByteRegister::H) / 128 == 1).spec_write8(ByteRegister::H, sla_res(cpu.registers.spec_read8(ByteRegister::H))), 2), m)
    } else
    if instruction == 0x25 {
        (cpu.with_regs(rot_flags(cpu.registers, sla_res(cpu.registers.spec_read8(ByteRegister::L)), cpu.registers.spec_read8(ByteRegister::L) / 128 == 1).spec_write8(ByteRegister::L, sla_res(cpu.registers.spec_read8(ByteRegister::L))), 2), m)
    } else
    if instruction == 0x26 {
        (cpu.with_regs(rot_flags(cpu.registers, sla_res(m.spec_read_byte(cpu.registers.spec_read_word(WordRegister::HL))), m.spec_read_byte(cpu.registers.spec_read_word(WordRegister::HL)) / 128 == 1), 4), m.spec_write_byte(cpu.registers.spec_read_word(WordRegister::HL), sla_res(m.spec_read_byte(cpu.registers.spec_read_word(WordRegister::HL)))))
    } else
    if instruction == 0x27 {
        (cpu.with_regs(rot_flags(cpu.registers, sla_res(cpu.registers.spec_read8(ByteRegister::A)), cpu.registers.spec_read8(ByteRegister::A) / 128 == 1).spec_write8(ByteRegister::A, sla_res(cpu.registers.spec_read8(ByteRegister::A))), 2), m)
    } else
    if instruction == 0x28 {
        (cpu.with_regs(rot_flags(cpu.registers, sra_res(cpu.registers.spec_read8(ByteRegister::B)), cpu.registers.spec_read8(ByteRegister::B) % 2 == 1).spec_write8(ByteRegister::B, sra_res(cpu.registers.spec_read8(ByteRegister::B))), 2), m)
    } else
    if instruction == 0x29 {
        (cpu.with_regs(rot_flags(cpu.registers, sra_res(cpu.registers.spec_read8(ByteRegister::C)), cpu.registers.spec_read8(ByteRegister::C) % 2 == 1).spec_write8(ByteRegister::C, sra_res(cpu.registers.spec_read8(ByteRegister::C))), 2), m)
    } else
    if instruction == 0x2A {
        (cpu.with_regs(rot_flags(cpu.registers, sra_res(cpu.registers.spec_read8(ByteRegister::D)), cpu.registers.spec_read8(ByteRegister::D) % 2 == 1).spec_write8(ByteRegister::D, sra_res(cpu.registers.spec_read8(ByteRegister::D))), 2), m)
    } else
    if instruction == 0x2B {
        (cpu.with_regs(rot_flags(cpu.registers, sra_res(cpu.registers.spec_read8(ByteRegister::E)), cpu.registers.spec_read8(ByteRegister::E) % 2 == 1).spec_write8(ByteRegister::E, sra_res(cpu.registers.spec_read8(ByteRegister::E))), 2), m)
    } else
    if instruction == 0x2C {
        (cpu.with_regs(rot_flags(cpu.registers, sra_res(cpu.registers.spec_read8(ByteRegister::H)), cpu.registers.spec_read8(ByteRegister::H) % 2 == 1).spec_write8(ByteRegister::H, sra_res(cpu.registers.spec_read8(ByteRegister::H))), 2), m)
    } else
    if instruction == 0x2D {
        (cpu.with_regs(rot_flags(cpu.registers, sra_res(cpu.registers.spec_read8(ByteRegister::L)), cpu.registers.spec_read8(ByteRegister::L) % 2 == 1).spec_write8(ByteRegister::L, sra_res(cpu.registers.spec_read8(ByteRegister::L))), 2), m)
    } else
    if instruction == 0x2E {
        (cpu.with_regs(rot_flags(cpu.registers, sra_res(m.spec_read_byte(cpu.registers.spec_read_word(WordRegister::HL))), m.spec_read_byte(cpu.registers.spec_read_word(WordRegister::HL)) % 2 == 1), 4), m.spec_write_byte(cpu.registers.spec_read_word(WordRegister::HL), sra_res(m.spec_read_byte(cpu.registers.spec_read_word(WordRegister::HL)))))
    } else
    if instruction == 0x2F {
        (cpu.with_regs(rot_flags(cpu.registers, sra_res(cpu.registers.spec_read8(ByteRegister::A)), cpu.registers.spec_read8(ByteRegister::A) % 2 == 1).spec_write8(ByteRegister::A, sra_res(cpu.registers.spec_read8(ByteRegister::A))), 2), m)
    } else
    if instruction == 0x30 {
        (cpu.with_regs(rot_flags(cpu.registers, swap_res(cpu.registers.spec_read8(ByteRegister::B)), false).spec_write8(ByteRegister::B, swap_res(cpu.registers.spec_read8(ByteRegister::B))), 2), m)
    } else
    if instruction == 0x31 {
        (cpu.with_regs(rot_flags(cpu.registers, swap_res(cpu.registers.spec_read8(ByteRegister::C)), false).spec_write8(ByteRegister::C, swap_res(cpu.registers.spec_read8(ByteRegister::C))), 2), m)
    } else
    if instruction == 0x32 {
        (cpu.with_regs(rot_flags(cpu.registers, swap_res(cpu.registers.spec_read8(ByteRegister::D)), false).spec_write8(ByteRegister::D, swap_res(cpu.registers.spec_read8(ByteRegister::D))), 2), m)
    } else
    if instruction == 0x33 {
        (cpu.with_regs(rot_flags(cpu.registers, swap_res(cpu.registers.spec_read8(ByteRegister::E)), false).spec_write8(ByteRegister::E, swap_res(cpu.registers.spec_read8(ByteRegister::E))), 2), m)
    } else
    if instruction == 0x34 {
        (cpu.with_regs(rot_flags(cpu.registers, swap_res(cpu.registers.spec_read8(ByteRegister::H)), false).spec_write8(ByteRegister::H, swap_res(cpu.registers.spec_read8(ByteRegister::H))), 2), m)
    } else
    if instruction == 0x35 {
        (cpu.with_regs(rot_flags(cpu.registers, swap_res(cpu.registers.spec_read8(ByteRegister::L)), false).spec_write8(ByteRegister::L, swap_res(cpu.registers.spec_read8(ByteRegister::L))), 2), m)
    } else
    if instruction == 0x36 {
        (cpu.with_regs(rot_flags(cpu.registers, swap_res(m.spec_read_byte(cpu.registers.spec_read_word(WordRegister::HL))), false), 4), m.spec_write_byte(cpu.registers.spec_read_word(WordRegister::HL), swap_res(m.spec_read_byte(cpu.registers.spec_read_word(WordRegister::HL)))))
    } else
    if instruction == 0x37 {
        (cpu.with_regs(rot_flags(cpu.registers, swap_res(cpu.registers.spec_read8(ByteRegister::A)), false).spec_write8(ByteRegister::A, swap_res(cpu.registers.spec_read8(ByteRegister::A))), 2), m)
    } else
    if instruction == 0x38 {
        (cpu.with_regs(rot_flags(cpu.registers, srl_res(cpu.registers.spec_read8(ByteRegister::B)), cpu.registers.spec_read8(ByteRegister::B) % 2 == 1).spec_write8(ByteRegister::B, srl_res(cpu.registers.spec_read8(ByteRegister::B))), 2), m)
    } else
    if instruction == 0x39 {
        (cpu.with_regs(rot_flags(cpu.registers, srl_res(cpu.registers.spec_read8(ByteRegister::C)), cpu.registers.spec_read8(ByteRegister::C) % 2 == 1).spec_write8(ByteRegister::C, srl_res(cpu.registers.spec_read8(ByteRegister::C))), 2), m)
    } else
    if instruction == 0x3A {
        (cpu.with_regs(rot_flags(cpu.registers, srl_res(cpu.registers.spec_read8(ByteRegister::D)), cpu.registers.spec_read8(ByteRegister::D) % 2 == 1).spec_write8(ByteRegister::D, srl_res(cpu.registers.spec_read8(ByteRegister::D))), 2), m)
    } else
    if instruction == 0x3B {
        (cpu.with_regs(rot_flags(cpu.registers, srl_res(cpu.registers.spec_read8(ByteRegister::E)), cpu.registers.spec_read8(ByteRegister::E) % 2 == 1).spec_write8(ByteRegister::E, srl_res(cpu.registers.spec_read8(ByteRegister::E))), 2), m)
    } else
    if instruction == 0x3C {
        (cpu.with_regs(rot_flags(cpu.registers, srl_res(cpu.registers.spec_read8(ByteRegister::H)), cpu.registers.spec_read8(ByteRegister::H) % 2 == 1).spec_write8(ByteRegister::H, srl_res(cpu.registers.spec_read8(ByteRegister::H))), 2), m)
    } else
    if instruction == 0x3D {
        (cpu.with_regs(rot_flags(cpu.registers, srl_res(cpu.registers.spec_read8(ByteRegister::L)), cpu.registers.spec_read8(ByteRegister::L) % 2 == 1).spec_write8(ByteRegister::L, srl_res(cpu.registers.spec_read8(ByteRegister::L))), 2), m)
    } else
    if instruction == 0x3E {
        (cpu.with_regs(rot_flags(cpu.registers, srl_res(m.spec_read_byte(cpu.registers.spec_read_word(WordRegister::HL))), m.spec_read_byte(cpu.registers.spec_read_word(WordRegister::HL)) % 2 == 1), 4), m.spec_write_byte(cpu.registers.spec_read_word(WordRegister::HL), srl_res(m.spec_read_byte(cpu.registers.spec_read_word(WordRegister::HL)))))
    } else
    if instruction == 0x3F {
        (cpu.with_regs(rot_flags(cpu.registers, srl_res(cpu.registers.spec_read8(ByteRegister::A)), cpu.registers.spec_read8(ByteRegister::A) % 2 == 1).spec_write8(ByteRegister::A, srl_res(cpu.registers.spec_read8(ByteRegister::A))), 2), m)
    } else {
        (cpu.with_regs(cpu.registers, 1), m)
    }
}

/// Model of CB-prefixed opcodes 0x40..0x5F.
pub open spec fn spec_exec_cb_op_40(cpu: CPU, m: MemView, instruction: u8) -> (CPU, MemView) {
    if instruction == 0x40 {
        (cpu.with_regs((Registers { zero: (cpu.registers.spec_read8(ByteRegister::B) >> 0u8) & 1 == 0, sub: false, half_carry: true, ..cpu.registers }), 2), m)
    } else
    if instruction == 0x41 {
        (cpu.with_regs((Registers { zero: (cpu.registers.spec_read8(ByteRegister::C) >> 0u8) & 1 == 0, sub: false, half_carry: true, ..cpu.registers }), 2), m)
    } else
    if instruction == 0x42 {
        (cpu.with_regs((Registers { zero: (cpu.registers.spec_read8(ByteRegister::D) >> 0u8) & 1 == 0, sub: false, half_carry: true, ..cpu.registers }), 2), m)
    } else
    if instruction == 0x43 {
        (cpu.with_regs((Registers { zero: (cpu.registers.spec_read8(ByteRegister::E) >> 0u8) & 1 == 0, sub: false, half_carry: true, ..cpu.registers }), 2), m)
    } else
    if instruction == 0x44 {
        (cpu.with_regs((Registers { zero: (cpu.registers.spec_read8(ByteRegister::H) >> 0u8) & 1 == 0, sub: false, half_carry: true, ..cpu.registers }), 2), m)
    } else
    if instruction == 0x45 {
        (cpu.with_regs((Registers { zero: (cpu.registers.spec_read8(ByteRegister::L) >> 0u8) & 1 == 0, sub: false, half_carry: true, ..cpu.registers }), 2), m)
    } else
    if instruction == 0x46 {
        (cpu.with_regs((Registers { zero: (m.spec_read_byte(cpu.registers.spec_read_word(WordRegister::HL)) >> 0u8) & 1 == 0, sub: false, half_carry: true, ..cpu.registers }), 4), m)
    } else
    if instruction == 0x47 {
        (cpu.with_regs((Registers { zero: (cpu.registers.spec_read8(ByteRegister::A) >> 0u8) & 1 == 0, sub: false, half_carry: true, ..cpu.registers }), 2), m)
    } else
    if instruction == 0x48 {
        (cpu.with_regs((Registers { zero: (cpu.registers.spec_read8(ByteRegister::B) >> 1u8) & 1 == 0, sub: false, half_carry: true, ..cpu.registers }), 2), m)
    } else
    if instruction == 0x49 {
        (cpu.with_regs((Registers { zero: (cpu.registers.spec_read8(ByteRegister::C) >> 1u8) & 1 == 0, sub: false, half_carry: true, ..cpu.registers }), 2), m)
    } else
    if instruction == 0x4A {
        (cpu.with_regs((Registers { zero: (cpu.registers.spec_read8(ByteRegister::D) >> 1u8) & 1 == 0, sub: false, half_carry: true, ..cpu.registers }), 2), m)
    } else
    if instruction == 0x4B {
        (cpu.with_regs((Registers { zero: (cpu.registers.spec_read8(ByteRegister::E) >> 1u8) & 1 == 0, sub: false, half_carry: true, ..cpu.registers }), 2), m)
    } else
    if instruction == 0x4C {
        (cpu.with_regs((Registers { zero: (cpu.registers.spec_read8(ByteRegister::H) >> 1u8) & 1 == 0, sub: false, half_carry: true, ..cpu.registers }), 2), m)
    } else
    if instruction == 0x4D {
        (cpu.with_regs((Registers { zero: (cpu.registers.spec_read8(ByteRegister::L) >> 1u8) & 1 == 0, sub: false, half_carry: true, ..cpu.registers }), 2), m)
    } else
    if instruction == 0x4E {
        (cpu.with_regs((Registers { zero: (m.spec_read_byte(cpu.registers.spec_read_word(WordRegister::HL)) >> 1u8) & 1 == 0, sub: false, half_carry: true, ..cpu.registers }), 4), m)
    } else
    if instruction == 0x4F {
        (cpu.with_regs((Registers { zero: (cpu.registers.spec_read8(ByteRegister::A) >> 1u8) & 1 == 0, sub: false, half_carry: true, ..cpu.registers }), 2), m)
    } else
    if instruction == 0x50 {
        (cpu.with_regs((Registers { zero: (cpu.registers.spec_read8(ByteRegister::B) >> 2u8) & 1 == 0, sub: false, half_carry: true, ..cpu.registers }), 2), m)
    } else
    if instruction == 0x51 {
        (cpu.with_regs((Registers { zero: (cpu.registers.spec_read8(ByteRegister::C) >> 2u8) & 1 == 0, sub: false, half_carry: true, ..cpu.registers }), 2), m)
    } else
    if instruction == 0x52 {
        (cpu.with_regs((Registers { zero: (cpu.registers.spec_read8(ByteRegister::D) >> 2u8) & 1 == 0, sub: false, half_carry: true, ..cpu.registers }), 2), m)
    } else
    if instruction == 0x53 {
        (cpu.with_regs((Registers { zero: (cpu.registers.spec_read8(ByteRegister::E) >> 2u8) & 1 == 0, sub: false, half_carry: true, ..cpu.registers }), 2), m)
    } else
    if instruction == 0x54 {
        (cpu.with_regs((Registers { zero: (cpu.registers.spec_read8(ByteRegister::H) >> 2u8) & 1 == 0, sub: false, half_carry: true, ..cpu.registers }), 2), m)
    } else
    if instruction == 0x55 {
        (cpu.with_regs((Registers { zero: (cpu.registers.spec_read8(ByteRegister::L) >> 2u8) & 1 == 0, sub: false, half_carry: true, ..cpu.registers }), 2), m)
    } else
    if instruction == 0x56 {
        (cpu.with_regs((Registers { zero: (m.spec_read_byte(cpu.registers.spec_read_word(WordRegister::HL)) >> 2u8) & 1 == 0, sub: false, half_carry: true, ..cpu.registers }), 4), m)
    } else
    if instruction == 0x57 {
        (cpu.with_regs((Registers { zero: (cpu.registers.spec_read8(ByteRegister::A) >> 2u8) & 1 == 0, sub: false, half_carry: true, ..cpu.registers }), 2), m)
    } else
    if instruction == 0x58 {
        (cpu.with_regs((Registers { zero: (cpu.registers.spec_read8(ByteRegister::B) >> 3u8) & 1 == 0, sub: false, half_carry: true, ..cpu.registers }), 2), m)
    } else
    if instruction == 0x59 {
        (cpu.with_regs((Registers { zero: (cpu.registers.spec_read8(ByteRegister::C) >> 3u8) & 1 == 0, sub: false, half_carry: true, ..cpu.registers }), 2), m)
    } else
    if instruction == 0x5A {
        (cpu.with_regs((Registers { zero: (cpu.registers.spec_read8(ByteRegister::D) >> 3u8) & 1 == 0, sub: false, half_carry: true, ..cpu.registers }), 2), m)
    } else
    if instruction == 0x5B {
        (cpu.with_regs((Registers { zero: (cpu.registers.spec_read8(ByteRegister::E) >> 3u8) & 1 == 0, sub: false, half_carry: true, ..cpu.registers }), 2), m)
    } else
    if instruction == 0x5C {
        (cpu.with_regs((Registers { zero: (cpu.registers.spec_read8(ByteRegister::H) >> 3u8) & 1 == 0, sub: false, half_carry: true, ..cpu.registers }), 2), m)
    } else
    if instruction == 0x5D {
        (cpu.with_regs((Registers { zero: (cpu.registers.spec_read8(ByteRegister::L) >> 3u8) & 1 == 0, sub: false, half_carry: true, ..cpu.registers }), 2), m)
    } else
    if instruction == 0x5E {
        (cpu.with_regs((Registers { zero: (m.spec_read_byte(cpu.registers.spec_read_word(WordRegister::HL)) >> 3u8) & 1 == 0, sub: false, half_carry: true, ..cpu.registers }), 4), m)
    } else
    if instruction == 0x5F {
        (cpu.with_regs((Registers { zero: (cpu.registers.spec_read8(ByteRegister::A) >> 3u8) & 1 == 0, sub: false, half_carry: true, ..cpu.registers }), 2), m)
    } else {
        (cpu.with_regs(cpu.registers, 1), m)
    }
}

/// Model of CB-prefixed opcodes 0x60..0x7F.
pub open spec fn spec_exec_cb_op_60(cpu: CPU, m: MemView, instruction: u8) -> (CPU, MemView) {
    if instruction == 0x60 {
        (cpu.with_regs((Registers { zero: (cpu.registers.spec_read8(ByteRegister::B) >> 4u8) & 1 == 0, sub: false, half_carry: true, ..cpu.registers }), 2), m)
    } else
    if instruction == 0x61 {
        (cpu.with_regs((Registers { zero: (cpu.registers.spec_read8(ByteRegister::C) >> 4u8) & 1 == 0, sub: false, half_carry: true, ..cpu.registers }), 2), m)
    } else
    if instruction == 0x62 {
        (cpu.with_regs((Registers { zero: (cpu.registers.spec_read8(ByteRegister::D) >> 4u8) & 1 == 0, sub: false, half_carry: true, ..cpu.registers }), 2), m)
    } else
    if instruction == 0x63 {
        (cpu.with_regs((Registers { zero: (cpu.registers.spec_read8(ByteRegister::E) >> 4u8) & 1 == 0, sub: false, half_carry: true, ..cpu.registers }), 2), m)
    } else
    if instruction == 0x64 {
        (cpu.with_regs((Registers { zero: (cpu.registers.spec_read8(ByteRegister::H) >> 4u8) & 1 == 0, sub: false, half_carry: true, ..cpu.registers }), 2), m)
    } else
    if instruction == 0x65 {
        (cpu.with_regs((Registers { zero: (cpu.registers.spec_read8(ByteRegister::L) >> 4u8) & 1 == 0, sub: false, half_carry: true, ..cpu.registers }), 2), m)
    } else
    if instruction == 0x66 {
        (cpu.with_regs((Registers { zero: (m.spec_read_byte(cpu.registers.spec_read_word(WordRegister::HL)) >> 4u8) & 1 == 0, sub: false, half_carry: true, ..cpu.registers }), 4), m)
    } else
    if instruction == 0x67 {
        (cpu.with_regs((Registers { zero: (cpu.registers.spec_read8(ByteRegister::A) >> 4u8) & 1 == 0, sub: false, half_carry: true, ..cpu.registers }), 2), m)
    } else
    if instruction == 0x68 {
        (cpu.with_regs((Registers { zero: (cpu.registers.spec_read8(ByteRegister::B) >> 5u8) & 1 == 0, sub: false, half_carry: true, ..cpu.registers }), 2), m)
    } else
    if instruction == 0x69 {
        (cpu.with_regs((Registers { zero: (cpu.registers.spec_read8(ByteRegister::C) >> 5u8) & 1 == 0, sub: false, half_carry: true, ..cpu.registers }), 2), m)
    } else
    if instruction == 0x6A {
        (cpu.with_regs((Registers { zero: (cpu.registers.spec_read8(ByteRegister::D) >> 5u8) & 1 == 0, sub: false, half_carry: true, ..cpu.registers }), 2), m)
    } else
    if instruction == 0x6B {
        (cpu.with_regs((Registers { zero: (cpu.registers.spec_read8(ByteRegister::E) >> 5u8) & 1 == 0, sub: false, half_carry: true, ..cpu.registers }), 2), m)
    } else
    if instruction == 0x6C {
        (cpu.with_regs((Registers { zero: (cpu.registers.spec_read8(ByteRegister::H) >> 5u8) & 1 == 0, sub: false, half_carry: true, ..cpu.registers }), 2), m)
    } else
    if instruction == 0x6D {
        (cpu.with_regs((Registers { zero: (cpu.registers.spec_read8(ByteRegister::L) >> 5u8) & 1 == 0, sub: false, half_carry: true, ..cpu.registers }), 2), m)
    } else
    if instruction == 0x6E {
        (cpu.with_regs((Registers { zero: (m.spec_read_byte(cpu.registers.spec_read_word(WordRegister::HL)) >> 5u8) & 1 == 0, sub: false, half_carry: true, ..cpu.registers }), 4), m)
    } else
    if instruction == 0x6F {
        (cpu.with_regs((Registers { zero: (cpu.registers.spec_read8(ByteRegister::A) >> 5u8) & 1 == 0, sub: false, half_carry: true, ..cpu.registers }), 2), m)
    } else
    if instruction == 0x70 {
        (cpu.with_regs((Registers { zero: (cpu.registers.spec_read8(ByteRegister::B) >> 6u8) & 1 == 0, sub: false, half_carry: true, ..cpu.registers }), 2), m)
    } else
    if instruction == 0x71 {
        (cpu.with_regs((Registers { zero: (cpu.registers.spec_read8(ByteRegister::C) >> 6u8) & 1 == 0, sub: false, half_carry: true, ..cpu.registers }), 2), m)
    } else
    if instruction == 0x72 {
        (cpu.with_regs((Registers { zero: (cpu.registers.spec_read8(ByteRegister::D) >> 6u8) & 1 == 0, sub: false, half_carry: true, ..cpu.registers }), 2), m)
    } else
    if instruction == 0x73 {
        (cpu.with_regs((Registers { zero: (cpu.registers.spec_read8(ByteRegister::E) >> 6u8) & 1 == 0, sub: false, half_carry: true, ..cpu.registers }), 2), m)
    } else
    if instruction == 0x74 {
        (cpu.with_regs((Registers { zero: (cpu.registers.spec_read8(ByteRegister::H) >> 6u8) & 1 == 0, sub: false, half_carry: true, ..cpu.registers }), 2), m)
    } else
    if instruction == 0x75 {
        (cpu.with_regs((Registers { zero: (cpu.registers.spec_read8(ByteRegister::L) >> 6u8) & 1 == 0, sub: false, half_carry: true, ..cpu.registers }), 2), m)
    } else
    if instruction == 0x76 {
        (cpu.with_regs((Registers { zero: (m.spec_read_byte(cpu.registers.spec_read_word(WordRegister::HL)) >> 6u8) & 1 == 0, sub: false, half_carry: true, ..cpu.registers }), 4), m)
    } else
    if instruction == 0x77 {
        (cpu.with_regs((Registers { zero: (cpu.registers.spec_read8(ByteRegister::A) >> 6u8) & 1 == 0, sub: false, half_carry: true, ..cpu.registers }), 2), m)
    } else
    if instruction == 0x78 {
        (cpu.with_regs((Registers { zero: (cpu.registers.spec_read8(ByteRegister::B) >> 7u8) & 1 == 0, sub: false, half_carry: true, ..cpu.registers }), 2), m)
    } else
    if instruction == 0x79 {
        (cpu.with_regs((Registers { zero: (cpu.registers.spec_read8(ByteRegister::C) >> 7u8) & 1 == 0, sub: false, half_carry: true, ..cpu.registers }), 2), m)
    } else
    if instruction == 0x7A {
        (cpu.with_regs((Registers { zero: (cpu.registers.spec_read8(ByteRegister::D) >> 7u8) & 1 == 0, sub: false, half_carry: true, ..cpu.registers }), 2), m)
    } else
    if instruction == 0x7B {
        (cpu.with_regs((Registers { zero: (cpu.registers.spec_read8(ByteRegister::E) >> 7u8) & 1 == 0, sub: false, half_carry: true, ..cpu.registers }), 2), m)
    } else
    if instruction == 0x7C {
        (cpu.with_regs((Registers { zero: (cpu.registers.spec_read8(ByteRegister::H) >> 7u8) & 1 == 0, sub: false, half_carry: true, ..cpu.registers }), 2), m)
    } else
    if instruction == 0x7D {
        (cpu.with_regs((Registers { zero: (cpu.registers.spec_read8(ByteRegister::L) >> 7u8) & 1 == 0, sub: false, half_carry: true, ..cpu.registers }), 2), m)
    } else
    if instruction == 0x7E {
        (cpu.with_regs((Registers { zero: (m.spec_read_byte(cpu.registers.spec_read_word(WordRegister::HL)) >> 7u8) & 1 == 0, sub: false, half_carry: true, ..cpu.registers }), 4), m)
    } else
    if instruction == 0x7F {
        (cpu.with_regs((Registers { zero: (cpu.registers.spec_read8(ByteRegister::A) >> 7u8) & 1 == 0, sub: false, half_carry: true, ..cpu.registers }), 2), m)
    } else {
        (cpu.with_regs(cpu.registers, 1), m)
    }
}

/// Model of CB-prefixed opcodes 0x80..0x9F.
pub open spec fn spec_exec_cb_op_80(cpu: CPU, m: MemView, instruction: u8) -> (CPU, MemView) {
    if instruction == 0x80 {
        (cpu.with_regs(cpu.registers.spec_write8(ByteRegister::B, cpu.registers.spec_read8(ByteRegister::B) & !(1u8 << 0u8)), 2), m)
    } else
    if instruction == 0x81 {
        (cpu.with_regs(cpu.registers.spec_write8(ByteRegister::C, cpu.registers.spec_read8(ByteRegister::C) & !(1u8 << 0u8)), 2), m)
    } else
    if instruction == 0x82 {
        (cpu.with_regs(cpu.registers.spec_write8(ByteRegister::D, cpu.registers.spec_read8(ByteRegister::D) & !(1u8 << 0u8)), 2), m)
    } else
    if instruction == 0x83 {
        (cpu.with_regs(cpu.registers.spec_write8(ByteRegister::E, cpu.registers.spec_read8(ByteRegister::E) & !(1u8 << 0u8)), 2), m)
    } else
    if instruction == 0x84 {
        (cpu.with_regs(cpu.registers.spec_write8(ByteRegister::H, cpu.registers.spec_read8(ByteRegister::H) & !(1u8 << 0u8)), 2), m)
    } else
    if instruction == 0x85 {
        (cpu.with_regs(cpu.registers.spec_write8(ByteRegister::L, cpu.registers.spec_read8(ByteRegister::L) & !(1u8 << 0u8)), 2), m)
    } else
    if instruction == 0x86 {
        (cpu.with_regs(cpu.registers, 4), m.spec_write_byte(cpu.registers.spec_read_word(WordRegister::HL), m.spec_read_byte(cpu.registers.spec_read_word(WordRegister::HL)) & !(1u8 << 0u8)))
    } else
    if instruction == 0x87 {
        (cpu.with_regs(cpu.registers.spec_write8(ByteRegister::A, cpu.registers.spec_read8(ByteRegister::A) & !(1u8 << 0u8)), 2), m)
    } else
    if instruction == 0x88 {
        (cpu.with_regs(cpu.registers.spec_write8(ByteRegister::B, cpu.registers.spec_read8(ByteRegister::B) & !(1u8 << 1u8)), 2), m)
    } else
    if instruction == 0x89 {
        (cpu.with_regs(cpu.registers.spec_write8(ByteRegister::C, cpu.registers.spec_read8(ByteRegister::C) & !(1u8 << 1u8)), 2), m)
    } else
    if instruction == 0x8A {
        (cpu.with_regs(cpu.registers.spec_write8(ByteRegister::D, cpu.registers.spec_read8(ByteRegister::D) & !(1u8 << 1u8)), 2), m)
    } else
    if instruction == 0x8B {
        (cpu.with_regs(cpu.registers.spec_write8(ByteRegister::E, cpu.registers.spec_read8(ByteRegister::E) & !(1u8 << 1u8)), 2), m)
    } else
    if instruction == 0x8C {
        (cpu.with_regs(cpu.registers.spec_write8(ByteRegister::H, cpu.registers.spec_read8(ByteRegister::H) & !(1u8 << 1u8)), 2), m)
    } else
    if instruction == 0x8D {
        (cpu.with_regs(cpu.registers.spec_write8(ByteRegister::L, cpu.registers.spec_read8(ByteRegister::L) & !(1u8 << 1u8)), 2), m)
    } else
    if instruction == 0x8E {
        (cpu.with_regs(cpu.registers, 4), m.spec_write_byte(cpu.registers.spec_read_word(WordRegister::HL), m.spec_read_byte(cpu.registers.spec_read_word(WordRegister::HL)) & !(1u8 << 1u8)))
    } else
    if instruction == 0x8F {
        (cpu.with_regs(cpu.registers.spec_write8(ByteRegister::A, cpu.registers.spec_read8(ByteRegister::A) & !(1u8 << 1u8)), 2), m)
    } else
    if instruction == 0x90 {
        (cpu.with_regs(cpu.registers.spec_write8(ByteRegister::B, cpu.registers.spec_read8(ByteRegister::B) & !(1u8 << 2u8)), 2), m)
    } else
    if instruction == 0x91 {
        (cpu.with_regs(cpu.registers.spec_write8(ByteRegister::C, cpu.registers.spec_read8(ByteRegister::C) & !(1u8 << 2u8)), 2), m)
    } else
    if instruction == 0x92 {
        (cpu.with_regs(cpu.registers.spec_write8(ByteRegister::D, cpu.registers.spec_read8(ByteRegister::D) & !(1u8 << 2u8)), 2), m)
    } else
    if instruction == 0x93 {
        (cpu.with_regs(cpu.registers.spec_write8(ByteRegister::E, cpu.registers.spec_read8(ByteRegister::E) & !(1u8 << 2u8)), 2), m)
    } else
    if instruction == 0x94 {
        (cpu.with_regs(cpu.registers.spec_write8(ByteRegister::H, cpu.registers.spec_read8(ByteRegister::H) & !(1u8 << 2u8)), 2), m)
    } else
    if instruction == 0x95 {
        (cpu.with_regs(cpu.registers.spec_write8(ByteRegister::L, cpu.registers.spec_read8(ByteRegister::L) & !(1u8 << 2u8)), 2), m)
    } else
    if instruction == 0x96 {
        (cpu.with_regs(cpu.registers, 4), m.spec_write_byte(cpu.registers.spec_read_word(WordRegister::HL), m.spec_read_byte(cpu.registers.spec_read_word(WordRegister::HL)) & !(1u8 << 2u8)))
    } else
    if instruction == 0x97 {
        (cpu.with_regs(cpu.registers.spec_write8(ByteRegister::A, cpu.registers.spec_read8(ByteRegister::A) & !(1u8 << 2u8)), 2), m)
    } else
    if instruction == 0x98 {
        (cpu.with_regs(cpu.registers.spec_write8(ByteRegister::B, cpu.registers.spec_read8(ByteRegister::B) & !(1u8 << 3u8)), 2), m)
    } else
    if instruction == 0x99 {
        (cpu.with_regs(cpu.registers.spec_write8(ByteRegister::C, cpu.registers.spec_read8(ByteRegister::C) & !(1u8 << 3u8)), 2), m)
    } else
    if instruction == 0x9A {
        (cpu.with_regs(cpu.registers.spec_write8(ByteRegister::D, cpu.registers.spec_read8(ByteRegister::D) & !(1u8 << 3u8)), 2), m)
    } else
    if instruction == 0x9B {
        (cpu.with_regs(cpu.registers.spec_write8(ByteRegister::E, cpu.registers.spec_read8(ByteRegister::E) & !(1u8 << 3u8)), 2), m)
    } else
    if instruction == 0x9C {
        (cpu.with_regs(cpu.registers.spec_write8(ByteRegister::H, cpu.registers.spec_read8(ByteRegister::H) & !(1u8 << 3u8)), 2), m)
    } else
    if instruction == 0x9D {
        (cpu.with_regs(cpu.registers.spec_write8(ByteRegister::L, cpu.registers.spec_read8(ByteRegister::L) & !(1u8 << 3u8)), 2), m)
    } else
    if instruction == 0x9E {
        (cpu.with_regs(cpu.registers, 4), m.spec_write_byte(cpu.registers.spec_read_word(WordRegister::HL), m.spec_read_byte(cpu.registers.spec_read_word(WordRegister::HL)) & !(1u8 << 3u8)))
    } else
    if instruction == 0x9F {
        (cpu.with_regs(cpu.registers.spec_write8(ByteRegister::A, cpu.registers.spec_read8(ByteRegister::A) & !(1u8 << 3u8)), 2), m)
    } else {
        (cpu.with_regs(cpu.registers, 1), m)
    }
}

/// Model of CB-prefixed opcodes 0xA0..0xBF.
pub open spec fn spec_exec_cb_op_a0(cpu: CPU, m: MemView, instruction: u8) -> (CPU, MemView) {
    if instruction == 0xA0 {
        (cpu.with_regs(cpu.registers.spec_write8(ByteRegister::B, cpu.registers.spec_read8(ByteRegister::B) & !(1u8 << 4u8)), 2), m)
    } else
    if instruction == 0xA1 {
        (cpu.with_regs(cpu.registers.spec_write8(ByteRegister::C, cpu.registers.spec_read8(ByteRegister::C) & !(1u8 << 4u8)), 2), m)
    } else
    if instruction == 0xA2 {
        (cpu.with_regs(cpu.registers.spec_write8(ByteRegister::D, cpu.registers.spec_read8(ByteRegister::D) & !(1u8 << 4u8)), 2), m)
    } else
    if instruction == 0xA3 {
        (cpu.with_regs(cpu.registers.spec_write8(ByteRegister::E, cpu.registers.spec_read8(ByteRegister::E) & !(1u8 << 4u8)), 2), m)
    } else
    if instruction == 0xA4 {
        (cpu.with_regs(cpu.registers.spec_write8(ByteRegister::H, cpu.registers.spec_read8(ByteRegister::H) & !(1u8 << 4u8)), 2), m)
    } else
    if instruction == 0xA5 {
        (cpu.with_regs(cpu.registers.spec_write8(ByteRegister::L, cpu.registers.spec_read8(ByteRegister::L) & !(1u8 << 4u8)), 2), m)
    } else
    if instruction == 0xA6 {
        (cpu.with_regs(cpu.registers, 4), m.spec_write_byte(cpu.registers.spec_read_word(WordRegister::HL), m.spec_read_byte(cpu.registers.spec_read_word(WordRegister::HL)) & !(1u8 << 4u8)))
    } else
    if instruction == 0xA7 {
        (cpu.with_regs(cpu.registers.spec_write8(ByteRegister::A, cpu.registers.spec_read8(ByteRegister::A) & !(1u8 << 4u8)), 2), m)
    } else
    if instruction == 0xA8 {
        (cpu.with_regs(cpu.registers.spec_write8(ByteRegister::B, cpu.registers.spec_read8(ByteRegister::B) & !(1u8 << 5u8)), 2), m)
    } else
    if instruction == 0xA9 {
        (cpu.with_regs(cpu.registers.spec_write8(ByteRegister::C, cpu.registers.spec_read8(ByteRegister::C) & !(1u8 << 5u8)), 2), m)
    } else
    if instruction == 0xAA {
        (cpu.with_regs(cpu.registers.spec_write8(ByteRegister::D, cpu.registers.spec_read8(ByteRegister::D) & !(1u8 << 5u8)), 2), m)
    } else
    if instruction == 0xAB {
        (cpu.with_regs(cpu.registers.spec_write8(ByteRegister::E, cpu.registers.spec_read8(ByteRegister::E) & !(1u8 << 5u8)), 2), m)
    } else
    if instruction == 0xAC {
        (cpu.with_regs(cpu.registers.spec_write8(ByteRegister::H, cpu.registers.spec_read8(ByteRegister::H) & !(1u8 << 5u8)), 2), m)
    } else
    if instruction == 0xAD {
        (cpu.with_regs(cpu.registers.spec_write8(ByteRegister::L, cpu.registers.spec_read8(ByteRegister::L) & !(1u8 << 5u8)), 2), m)
    } else
    if instruction == 0xAE {
        (cpu.with_regs(cpu.registers, 4), m.spec_write_byte(cpu.registers.spec_read_word(WordRegister::HL), m.spec_read_byte(cpu.registers.spec_read_word(WordRegister::HL)) & !(1u8 << 5u8)))
    } else
    if instruction == 0xAF {
        (cpu.with_regs(cpu.registers.spec_write8(ByteRegister::A, cpu.registers.spec_read8(ByteRegister::A) & !(1u8 << 5u8)), 2), m)
    } else
    if instruction == 0xB0 {
        (cpu.with_regs(cpu.registers.spec_write8(ByteRegister::B, cpu.registers.spec_read8(ByteRegister::B) & !(1u8 << 6u8)), 2), m)
    } else
    if instruction == 0xB1 {
        (cpu.with_regs(cpu.registers.spec_write8(ByteRegister::C, cpu.registers.spec_read8(ByteRegister::C) & !(1u8 << 6u8)), 2), m)
    } else
    if instruction == 0xB2 {
        (cpu.with_regs(cpu.registers.spec_write8(ByteRegister::D, cpu.registers.spec_read8(ByteRegister::D) & !(1u8 << 6u8)), 2), m)
    } else
    if instruction == 0xB3 {
        (cpu.with_regs(cpu.registers.spec_write8(ByteRegister::E, cpu.registers.spec_read8(ByteRegister::E) & !(1u8 << 6u8)), 2), m)
    } else
    if instruction == 0xB4 {
        (cpu.with_regs(cpu.registers.spec_write8(ByteRegister::H, cpu.registers.spec_read8(ByteRegister::H) & !(1u8 << 6u8)), 2), m)
    } else
    if instruction == 0xB5 {
        (cpu.with_regs(cpu.registers.spec_write8(ByteRegister::L, cpu.registers.spec_read8(ByteRegister::L) & !(1u8 << 6u8)), 2), m)
    } else
    if instruction == 0xB6 {
        (cpu.with_regs(cpu.registers, 4), m.spec_write_byte(cpu.registers.spec_read_word(WordRegister::HL), m.spec_read_byte(cpu.registers.spec_read_word(WordRegister::HL)) & !(1u8 << 6u8)))
    } else
    if instruction == 0xB7 {
        (cpu.with_regs(cpu.registers.spec_write8(ByteRegister::A, cpu.registers.spec_read8(ByteRegister::A) & !(1u8 << 6u8)), 2), m)
    } else
    if instruction == 0xB8 {
        (cpu.with_regs(cpu.registers.spec_write8(ByteRegister::B, cpu.registers.spec_read8(ByteRegister::B) & !(1u8 << 7u8)), 2), m)
    } else
    if instruction == 0xB9 {
        (cpu.with_regs(cpu.registers.spec_write8(ByteRegister::C, cpu.registers.spec_read8(ByteRegister::C) & !(1u8 << 7u8)), 2), m)
    } else
    if instruction == 0xBA {
        (cpu.with_regs(cpu.registers.spec_write8(ByteRegister::D, cpu.registers.spec_read8(ByteRegister::D) & !(1u8 << 7u8)), 2), m)
    } else
    if instruction == 0xBB {
        (cpu.with_regs(cpu.registers.spec_write8(ByteRegister::E, cpu.registers.spec_read8(ByteRegister::E) & !(1u8 << 7u8)), 2), m)
    } else
    if instruction == 0xBC {
        (cpu.with_regs(cpu.registers.spec_write8(ByteRegister::H, cpu.registers.spec_read8(ByteRegister::H) & !(1u8 << 7u8)), 2), m)
    } else
    if instruction == 0xBD {
        (cpu.with_regs(cpu.registers.spec_write8(ByteRegister::L, cpu.registers.spec_read8(ByteRegister::L) & !(1u8 << 7u8)), 2), m)
    } else
    if instruction == 0xBE {
        (cpu.with_regs(cpu.registers, 4), m.spec_write_byte(cpu.registers.spec_read_word(WordRegister::HL), m.spec_read_byte(cpu.registers.spec_read_word(WordRegister::HL)) & !(1u8 << 7u8)))
    } else
    if instruction == 0xBF {
        (cpu.with_regs(cpu.registers.spec_write8(ByteRegister::A, cpu.registers.spec_read8(ByteRegister::A) & !(1u8 << 7u8)), 2), m)
    } else {
        (cpu.with_regs(cpu.registers, 1), m)
    }
}

/// Model of CB-prefixed opcodes 0xC0..0xDF.
pub open spec fn spec_exec_cb_op_c0(cpu: CPU, m: MemView, instruction: u8) -> (CPU, MemView) {
    if instruction == 0xC0 {
        (cpu.with_regs(cpu.registers.spec_write8(ByteRegister::B, cpu.registers.spec_read8(ByteRegister::B) | (1u8 << 0u8)), 2), m)
    } else
    if instruction == 0xC1 {
        (cpu.with_regs(cpu.registers.spec_write8(ByteRegister::C, cpu.registers.spec_read8(ByteRegister::C) | (1u8 << 0u8)), 2), m)
    } else
    if instruction == 0xC2 {
        (cpu.with_regs(cpu.registers.spec_write8(ByteRegister::D, cpu.registers.spec_read8(ByteRegister::D) | (1u8 << 0u8)), 2), m)
    } else
    if instruction == 0xC3 {
        (cpu.with_regs(cpu.registers.spec_write8(ByteRegister::E, cpu.registers.spec_read8(ByteRegister::E) | (1u8 << 0u8)), 2), m)
    } else
    if instruction == 0xC4 {
        (cpu.with_regs(cpu.registers.spec_write8(ByteRegister::H, cpu.registers.spec_read8(ByteRegister::H) | (1u8 << 0u8)), 2), m)
    } else
    if instruction == 0xC5 {
        (cpu.with_regs(cpu.registers.spec_write8(ByteRegister::L, cpu.registers.spec_read8(ByteRegister::L) | (1u8 << 0u8)), 2), m)
    } else
    if instruction == 0xC6 {
        (cpu.with_regs(cpu.registers, 4), m.spec_write_byte(cpu.registers.spec_read_word(WordRegister::HL), m.spec_read_byte(cpu.registers.spec_read_word(WordRegister::HL)) | (1u8 << 0u8)))
    } else
    if instruction == 0xC7 {
        (cpu.with_regs(cpu.registers.spec_write8(ByteRegister::A, cpu.registers.spec_read8(ByteRegister::A) | (1u8 << 0u8)), 2), m)
    } else
    if instruction == 0xC8 {
        (cpu.with_regs(cpu.registers.spec_write8(ByteRegister::B, cpu.registers.spec_read8(ByteRegister::B) | (1u8 << 1u8)), 2), m)
    } else
    if instruction == 0xC9 {
        (cpu.with_regs(cpu.registers.spec_write8(ByteRegister::C, cpu.registers.spec_read8(ByteRegister::C) | (1u8 << 1u8)), 2), m)
    } else
    if instruction == 0xCA {
        (cpu.with_regs(cpu.registers.spec_write8(ByteRegister::D, cpu.registers.spec_read8(ByteRegister::D) | (1u8 << 1u8)), 2), m)
    } else
    if instruction == 0xCB {
        (cpu.with_regs(cpu.registers.spec_write8(ByteRegister::E, cpu.registers.spec_read8(ByteRegister::E) | (1u8 << 1u8)), 2), m)
    } else
    if instruction == 0xCC {
        (cpu.with_regs(cpu.registers.spec_write8(ByteRegister::H, cpu.registers.spec_read8(ByteRegister::H) | (1u8 << 1u8)), 2), m)
    } else
    if instruction == 0xCD {
        (cpu.with_regs(cpu.registers.spec_write8(ByteRegister::L, cpu.registers.spec_read8(ByteRegister::L) | (1u8 << 1u8)), 2), m)
    } else
    if instruction == 0xCE {
        (cpu.with_regs(cpu.registers, 4), m.spec_write_byte(cpu.registers.spec_read_word(WordRegister::HL), m.spec_read_byte(cpu.registers.spec_read_word(WordRegister::HL)) | (1u8 << 1u8)))
    } else
    if instruction == 0xCF {
        (cpu.with_regs(cpu.registers.spec_write8(ByteRegister::A, cpu.registers.spec_read8(ByteRegister::A) | (1u8 << 1u8)), 2), m)
    } else
    if instruction == 0xD0 {
        (cpu.with_regs(cpu.registers.spec_write8(ByteRegister::B, cpu.registers.spec_read8(ByteRegister::B) | (1u8 << 2u8)), 2), m)
    } else
    if instruction == 0xD1 {
        (cpu.with_regs(cpu.registers.spec_write8(ByteRegister::C, cpu.registers.spec_read8(ByteRegister::C) | (1u8 << 2u8)), 2), m)
    } else
    if instruction == 0xD2 {
        (cpu.with_regs(cpu.registers.spec_write8(ByteRegister::D, cpu.registers.spec_read8(ByteRegister::D) | (1u8 << 2u8)), 2), m)
    } else
    if instruction == 0xD3 {
        (cpu.with_regs(cpu.registers.spec_write8(ByteRegister::E, cpu.registers.spec_read8(ByteRegister::E) | (1u8 << 2u8)), 2), m)
    } else
    if instruction == 0xD4 {
        (cpu.with_regs(cpu.registers.spec_write8(ByteRegister::H, cpu.registers.spec_read8(ByteRegister::H) | (1u8 << 2u8)), 2), m)
    } else
    if instruction == 0xD5 {
        (cpu.with_regs(cpu.registers.spec_write8(ByteRegister::L, cpu.registers.spec_read8(ByteRegister::L) | (1u8 << 2u8)), 2), m)
    } else
    if instruction == 0xD6 {
        (cpu.with_regs(cpu.registers, 4), m.spec_write_byte(cpu.registers.spec_read_word(WordRegister::HL), m.spec_read_byte(cpu.registers.spec_read_word(WordRegister::HL)) | (1u8 << 2u8)))
    } else
    if instruction == 0xD7 {
        (cpu.with_regs(cpu.registers.spec_write8(ByteRegister::A, cpu.registers.spec_read8(ByteRegister::A) | (1u8 << 2u8)), 2), m)
    } else
    if instruction == 0xD8 {
        (cpu.with_regs(cpu.registers.spec_write8(ByteRegister::B, cpu.registers.spec_read8(ByteRegister::B) | (1u8 << 3u8)), 2), m)
    } else
    if instruction == 0xD9 {
        (cpu.with_regs(cpu.registers.spec_write8(ByteRegister::C, cpu.registers.spec_read8(ByteRegister::C) | (1u8 << 3u8)), 2), m)
    } else
    if instruction == 0xDA {
        (cpu.with_regs(cpu.registers.spec_write8(ByteRegister::D, cpu.registers.spec_read8(ByteRegister::D) | (1u8 << 3u8)), 2), m)
    } else
    if instruction == 0xDB {
        (cpu.with_regs(cpu.registers.spec_write8(ByteRegister::E, cpu.registers.spec_read8(ByteRegister::E) | (1u8 << 3u8)), 2), m)
    } else
    if instruction == 0xDC {
        (cpu.with_regs(cpu.registers.spec_write8(ByteRegister::H, cpu.registers.spec_read8(ByteRegister::H) | (1u8 << 3u8)), 2), m)
    } else
    if instruction == 0xDD {
        (cpu.with_regs(cpu.registers.spec_write8(ByteRegister::L, cpu.registers.spec_read8(ByteRegister::L) | (1u8 << 3u8)), 2), m)
    } else
    if instruction == 0xDE {
        (cpu.with_regs(cpu.registers, 4), m.spec_write_byte(cpu.registers.spec_read_word(WordRegister::HL), m.spec_read_byte(cpu.registers.spec_read_word(WordRegister::HL)) | (1u8 << 3u8)))
    } else
    if instruction == 0xDF {
        (cpu.with_regs(cpu.registers.spec_write8(ByteRegister::A, cpu.registers.spec_read8(ByteRegister::A) | (1u8 << 3u8)), 2), m)
    } else {
        (cpu.with_regs(cpu.registers, 1), m)
    }
}

/// Model of CB-prefixed opcodes 0xE0..0xFF.
pub open spec fn spec_exec_cb_op_e0(cpu: CPU, m: MemView, instruction: u8) -> (CPU, MemView) {
    if instruction == 0xE0 {
        (cpu.with_regs(cpu.registers.spec_write8(ByteRegister::B, cpu.registers.spec_read8(ByteRegister::B) | (1u8 << 4u8)), 2), m)
    } else
    if instruction == 0xE1 {
        (cpu.with_regs(cpu.registers.spec_write8(ByteRegister::C, cpu.registers.spec_read8(ByteRegister::C) | (1u8 << 4u8)), 2), m)
    } else
    if instruction == 0xE2 {
        (cpu.with_regs(cpu.registers.spec_write8(ByteRegister::D, cpu.registers.spec_read8(ByteRegister::D) | (1u8 << 4u8)), 2), m)
    } else
    if instruction == 0xE3 {
        (cpu.with_regs(cpu.registers.spec_write8(ByteRegister::E, cpu.registers.spec_read8(ByteRegister::E) | (1u8 << 4u8)), 2), m)
    } else
    if instruction == 0xE4 {
        (cpu.with_regs(cpu.registers.spec_write8(ByteRegister::H, cpu.registers.spec_read8(ByteRegister::H) | (1u8 << 4u8)), 2), m)
    } else
    if instruction == 0xE5 {
        (cpu.with_regs(cpu.registers.spec_write8(ByteRegister::L, cpu.registers.spec_read8(ByteRegister::L) | (1u8 << 4u8)), 2), m)
    } else
    if instruction == 0xE6 {
        (cpu.with_regs(cpu.registers, 4), m.spec_write_byte(cpu.registers.spec_read_word(WordRegister::HL), m.spec_read_byte(cpu.registers.spec_read_word(WordRegister::HL)) | (1u8 << 4u8)))
    } else
    if instruction == 0xE7 {
        (cpu.with_regs(cpu.registers.spec_write8(ByteRegister::A, cpu.registers.spec_read8(ByteRegister::A) | (1u8 << 4u8)), 2), m)
    } else
    if instruction == 0xE8 {
        (cpu.with_regs(cpu.registers.spec_write8(ByteRegister::B, cpu.registers.spec_read8(ByteRegister::B) | (1u8 << 5u8)), 2), m)
    } else
    if instruction == 0xE9 {
        (cpu.with_regs(cpu.registers.spec_write8(ByteRegister::C, cpu.registers.spec_read8(ByteRegister::C) | (1u8 << 5u8)), 2), m)
    } else
    if instruction == 0xEA {
        (cpu.with_regs(cpu.registers.spec_write8(ByteRegister::D, cpu.registers.spec_read8(ByteRegister::D) | (1u8 << 5u8)), 2), m)
    } else
    if instruction == 0xEB {
        (cpu.with_regs(cpu.registers.spec_write8(ByteRegister::E, cpu.registers.spec_read8(ByteRegister::E) | (1u8 << 5u8)), 2), m)
    } else
    if instruction == 0xEC {
        (cpu.with_regs(cpu.registers.spec_write8(ByteRegister::H, cpu.registers.spec_read8(ByteRegister::H) | (1u8 << 5u8)), 2), m)
    } else
    if instruction == 0xED {
        (cpu.with_regs(cpu.registers.spec_write8(ByteRegister::L, cpu.registers.spec_read8(ByteRegister::L) | (1u8 << 5u8)), 2), m)
    } else
    if instruction == 0xEE {
        (cpu.with_regs(cpu.registers, 4), m.spec_write_byte(cpu.registers.spec_read_word(WordRegister::HL), m.spec_read_byte(cpu.registers.spec_read_word(WordRegister::HL)) | (1u8 << 5u8)))
    } else
    if instruction == 0xEF {
        (cpu.with_regs(cpu.registers.spec_write8(ByteRegister::A, cpu.registers.spec_read8(ByteRegister::A) | (1u8 << 5u8)), 2), m)
    } else
    if instruction == 0xF0 {
        (cpu.with_regs(cpu.registers.spec_write8(ByteRegister::B, cpu.registers.spec_read8(ByteRegister::B) | (1u8 << 6u8)), 2), m)
    } else
    if instruction == 0xF1 {
        (cpu.with_regs(cpu.registers.spec_write8(ByteRegister::C, cpu.registers.spec_read8(ByteRegister::C) | (1u8 << 6u8)), 2), m)
    } else
    if instruction == 0xF2 {
        (cpu.with_regs(cpu.registers.spec_write8(ByteRegister::D, cpu.registers.spec_read8(ByteRegister::D) | (1u8 << 6u8)), 2), m)
    } else
    if instruction == 0xF3 {
        (cpu.with_regs(cpu.registers.spec_write8(ByteRegister::E, cpu.registers.spec_read8(ByteRegister::E) | (1u8 << 6u8)), 2), m)
    } else
    if instruction == 0xF4 {
        (cpu.with_regs(cpu.registers.spec_write8(ByteRegister::H, cpu.registers.spec_read8(ByteRegister::H) | (1u8 << 6u8)), 2), m)
    } else
    if instruction == 0xF5 {
        (cpu.with_regs(cpu.registers.spec_write8(ByteRegister::L, cpu.registers.spec_read8(ByteRegister::L) | (1u8 << 6u8)), 2), m)
    } else
    if instruction == 0xF6 {
        (cpu.with_regs(cpu.registers, 4), m.spec_write_byte(cpu.registers.spec_read_word(WordRegister::HL), m.spec_read_byte(cpu.registers.spec_read_word(WordRegister::HL)) | (1u8 << 6u8)))
    } else
    if instruction == 0xF7 {
        (cpu.with_regs(cpu.registers.spec_write8(ByteRegister::A, cpu.registers.spec_read8(ByteRegister::A) | (1u8 << 6u8)), 2), m)
    } else
    if instruction == 0xF8 {
        (cpu.with_regs(cpu.registers.spec_write8(ByteRegister::B, cpu.registers.spec_read8(ByteRegister::B) | (1u8 << 7u8)), 2), m)
    } else
    if instruction == 0xF9 {
        (cpu.with_regs(cpu.registers.spec_write8(ByteRegister::C, cpu.registers.spec_read8(ByteRegister::C) | (1u8 << 7u8)), 2), m)
    } else
    if instruction == 0xFA {
        (cpu.with_regs(cpu.registers.spec_write8(ByteRegister::D, cpu.registers.spec_read8(ByteRegister::D) | (1u8 << 7u8)), 2), m)
    } else
    if instruction == 0xFB {
        (cpu.with_regs(cpu.registers.spec_write8(ByteRegister::E, cpu.registers.spec_read8(ByteRegister::E) | (1u8 << 7u8)), 2), m)
    } else
    if instruction == 0xFC {
        (cpu.with_regs(cpu.registers.spec_write8(ByteRegister::H, cpu.registers.spec_read8(ByteRegister::H) | (1u8 << 7u8)), 2), m)
    } else
    if instruction == 0xFD {
        (cpu.with_regs(cpu.registers.spec_write8(ByteRegister::L, cpu.registers.spec_read8(ByteRegister::L) | (1u8 << 7u8)), 2), m)
    } else
    if instruction == 0xFE {
        (cpu.with_regs(cpu.registers, 4), m.spec_write_byte(cpu.registers.spec_read_word(WordRegister::HL), m.spec_read_byte(cpu.registers.spec_read_word(WordRegister::HL)) | (1u8 << 7u8)))
    } else
    if instruction == 0xFF {
        (cpu.with_regs(cpu.registers.spec_write8(ByteRegister::A, cpu.registers.spec_read8(ByteRegister::A) | (1u8 << 7u8)), 2), m)
    } else {
        (cpu.with_regs(cpu.registers, 1), m)
    }
}

impl CPU {
    /// Services the highest-priority pending interrupt: pushes PC, jumps to
    /// the kind's vector, clears its request bit and IME, and charges the
    /// restart-style prologue cost.
    pub fn service_interrupt(&mut self, mem: &mut Memory)
        requires
            old(mem)@.wf(),
            serviceable(*old(self), old(mem)@),
        ensures
            final(mem)@.wf(),
            *final(self) == (CPU {
                interrupts_enabled: false,
                ..old(self).with_regs(
                    (Registers {
                        pc: highest_priority(pending_mask(old(mem)@)).spec_vector(),
                        sp: wrap16(old(self).registers.sp - 2),
                        ..old(self).registers
                    }),
                    4,
                )
            }),
            final(mem)@ == (MemView {
                iflag: (old(mem)@.iflag & !highest_priority(pending_mask(old(mem)@)).spec_mask()),
                ..old(mem)@.spec_write_word(
                    wrap16(old(self).registers.sp - 2),
                    old(self).registers.pc,
                )
            }),
    {
        let mask = mem.interrupts & mem.interrupt_enable & 0x1F;
        let kind = if mask & 0x01 != 0 {
            Interrupt::VBlank
        } else if mask & 0x02 != 0 {
            Interrupt::LcdStat
        } else if mask & 0x04 != 0 {
            Interrupt::Timer
        } else if mask & 0x08 != 0 {
            Interrupt::Serial
        } else {
            Interrupt::Joypad
        };
        let current = self.registers.pc;
        self.push_word(mem, current);
        let vector = kind.vector();
        self.registers.write_word(WordRegister::PC, vector as u16);
        mem.set_interrupt(kind, false);
        self.interrupts_enabled = false;
        self.set_last_clock(4);
    }

    /// One step, exactly per `spec_step`: service one pending interrupt if
    /// IME is set, else fetch, decode and execute the instruction at PC;
    /// then add its cost to the clock.
    pub fn step(&mut self, mem: &mut Memory)
        requires
            old(self).wf(),
            old(mem)@.wf(),
            old(self).clock.m + 8 <= u64::MAX / 4,
        ensures
            final(self).wf(),
            final(mem)@.wf(),
            *final(self) == spec_step(*old(self), old(mem)@).0,
            final(mem)@ == spec_step(*old(self), old(mem)@).1,
            final(self).last_clock.t == 4 * final(self).last_clock.m,
            final(self).clock.m == old(self).clock.m + final(self).last_clock.m,
            final(self).clock.t == old(self).clock.t + final(self).last_clock.t,
            serviceable(*old(self), old(mem)@) ==> {
                &&& final(self).registers == (Registers {
                    pc: highest_priority(pending_mask(old(mem)@)).spec_vector(),
                    sp: wrap16(old(self).registers.sp - 2),
                    ..old(self).registers
                })
                &&& !final(self).interrupts_enabled
                &&& final(self).last_clock.m == 4
                &&& final(mem)@ == (MemView {
                    iflag: (old(mem)@.iflag & !highest_priority(
                        pending_mask(old(mem)@),
                    ).spec_mask()),
                    ..old(mem)@.spec_write_word(
                        wrap16(old(self).registers.sp - 2),
                        old(self).registers.pc,
                    )
                })
            },
            !serviceable(*old(self), old(mem)@) && old(self).interrupts_enabled_after_next
                ==> final(self).interrupts_enabled,
    {
        if self.interrupts_enabled && (mem.interrupts & mem.interrupt_enable & 0x1F) != 0 {
            self.service_interrupt(mem);
        } else {
            let ei_pending = self.interrupts_enabled_after_next;
            let instruction = self.next_byte(mem);
            self.exec_op(mem, instruction);
            if ei_pending {
                self.interrupts_enabled = true;
                self.interrupts_enabled_after_next = false;
            }
        }

        self.clock = Clock {
            m: self.clock.m + self.last_clock.m,
            t: self.clock.t + self.last_clock.t,
        };
    }

    /// Executes one primary opcode, exactly per `spec_exec_op`; an opcode
    /// with no decode row is treated as a NOP with a one-M-cycle charge.
    pub(crate) fn exec_op(&mut self, mem: &mut Memory, instruction: u8)
        requires
            old(mem)@.wf(),
        ensures
            final(mem)@.wf(),
            final(self).last_clock.t == 4 * final(self).last_clock.m,
            1 <= final(self).last_clock.m <= 8,
            final(self).clock == old(self).clock,
            *final(self) == spec_exec_op(*old(self), old(mem)@, instruction).0,
            final(mem)@ == spec_exec_op(*old(self), old(mem)@, instruction).1,
    {
        if instruction < 0x20 {
            self.exec_op_00(mem, instruction);
        } else if instruction < 0x40 {
            self.exec_op_20(mem, instruction);
        } else if instruction < 0x60 {
            self.exec_op_40(mem, instruction);
        } else if instruction < 0x80 {
            self.exec_op_60(mem, instruction);
        } else if instruction < 0xA0 {
            self.exec_op_80(mem, instruction);
        } else if instruction < 0xC0 {
            self.exec_op_a0(mem, instruction);
        } else if instruction < 0xE0 {
            self.exec_op_c0(mem, instruction);
        } else {
            self.exec_op_e0(mem, instruction);
        }
    }

    /// Executes one CB-prefixed opcode, exactly per `spec_exec_cb_op`.
    pub(crate) fn exec_cb_op(&mut self, mem: &mut Memory, instruction: u8)
        requires
            old(mem)@.wf(),
        ensures
            final(mem)@.wf(),
            final(self).last_clock.t == 4 * final(self).last_clock.m,
            1 <= final(self).last_clock.m <= 8,
            final(self).clock == old(self).clock,
            *final(self) == spec_exec_cb_op(*old(self), old(mem)@, instruction).0,
            final(mem)@ == spec_exec_cb_op(*old(self), old(mem)@, instruction).1,
    {
        if instruction < 0x20 {
            self.exec_cb_op_00(mem, instruction);
        } else if instruction < 0x40 {
            self.exec_cb_op_20(mem, instruction);
        } else if instruction < 0x60 {
            self.exec_cb_op_40(mem, instruction);
        } else if instruction < 0x80 {
            self.exec_cb_op_60(mem, instruction);
        } else if instruction < 0xA0 {
            self.exec_cb_op_80(mem, instruction);
        } else if instruction < 0xC0 {
            self.exec_cb_op_a0(mem, instruction);
        } else if instruction < 0xE0 {
            self.exec_cb_op_c0(mem, instruction);
        } else {
            self.exec_cb_op_e0(mem, instruction);
        }
    }

    /// Decode of primary opcodes 0x00..0x1F.
    #[verifier::spinoff_prover]
    #[verifier::rlimit(100)]
    fn exec_op_00(&mut self, mem: &mut Memory, instruction: u8)
        requires
            0x00 <= instruction < 0x20,
            old(mem)@.wf(),
        ensures
            final(mem)@.wf(),
            final(self).last_clock.t == 4 * final(self).last_clock.m,
            1 <= final(self).last_clock.m <= 8,
            final(self).clock == old(self).clock,
            *final(self) == spec_exec_op_00(*old(self), old(mem)@, instruction).0,
            final(mem)@ == spec_exec_op_00(*old(self), old(mem)@, instruction).1,
    {
        match instruction {
            0x00 => self.nop(),
            0x01 => self.ld_n_nn(mem, WordRegister::BC),
            0x02 => self.ld_m_a(mem, WordRegister::BC),
            0x03 => self.inc_nn(WordRegister::BC),
            0x04 => self.inc_n(ByteRegister::B),
            0x05 => self.dec_n(ByteRegister::B),
            0x06 => self.ld_nn_n(mem, ByteRegister::B),
            0x07 => self.rlca(),
            0x08 => self.ld_nnm_sp(mem),
            0x09 => self.add_hl_n(WordRegister::BC),
            0x0A => self.ld_a_m(mem, WordRegister::BC),
            0x0B => self.dec_nn(WordRegister::BC),
            0x0C => self.inc_n(ByteRegister::C),
            0x0D => self.dec_n(ByteRegister::C),
            0x0E => self.ld_nn_n(mem, ByteRegister::C),
            0x0F => self.rrca(),
            0x10 => {
                let next_byte = self.next_byte(mem);
                if next_byte == 0x00 {
                    self.stop();
                } else {
                    self.set_last_clock(1);
                }
            },
            0x11 => self.ld_n_nn(mem, WordRegister::DE),
            0x12 => self.ld_m_a(mem, WordRegister::DE),
            0x13 => self.inc_nn(WordRegister::DE),
            0x14 => self.inc_n(ByteRegister::D),
            0x15 => self.dec_n(ByteRegister::D),
            0x16 => self.ld_nn_n(mem, ByteRegister::D),
            0x17 => self.rla(),
            0x18 => self.jr_n(mem),
            0x19 => self.add_hl_n(WordRegister::DE),
            0x1A => self.ld_a_m(mem, WordRegister::DE),
            0x1B => self.dec_nn(WordRegister::DE),
            0x1C => self.inc_n(ByteRegister::E),
            0x1D => self.dec_n(ByteRegister::E),
            0x1E => self.ld_nn_n(mem, ByteRegister::E),
            0x1F => self.rra(),
            _ => self.set_last_clock(1),
        }
    }

    /// Decode of primary opcodes 0x20..0x3F.
    #[verifier::spinoff_prover]
    #[verifier::rlimit(100)]
    fn exec_op_20(&mut self, mem: &mut Memory, instruction: u8)
        requires
            0x20 <= instruction < 0x40,
            old(mem)@.wf(),
        ensures
            final(mem)@.wf(),
            final(self).last_clock.t == 4 * final(self).last_clock.m,
            1 <= final(self).last_clock.m <= 8,
            final(self).clock == old(self).clock,
            *final(self) == spec_exec_op_20(*old(self), old(mem)@, instruction).0,
            final(mem)@ == spec_exec_op_20(*old(self), old(mem)@, instruction).1,
    {
        match instruction {
            0x20 => self.jr_ncc_n(mem, Flag::Zero),
            0x21 => self.ld_n_nn(mem, WordRegister::HL),
            0x22 => self.ldi_hlm_a(mem),
            0x23 => self.inc_nn(WordRegister::HL),
            0x24 => self.inc_n(ByteRegister::H),
            0x25 => self.dec_n(ByteRegister::H),
            0x26 => self.ld_nn_n(mem, ByteRegister::H),
            0x27 => self.daa(),
            0x28 => self.jr_cc_n(mem, Flag::Zero),
            0x29 => self.add_hl_n(WordRegister::HL),
            0x2A => self.ldi_a_hlm(mem),
            0x2B => self.dec_nn(WordRegister::HL),
            0x2C => self.inc_n(ByteRegister::L),
            0x2D => self.dec_n(ByteRegister::L),
            0x2E => self.ld_nn_n(mem, ByteRegister::L),
            0x2F => self.cpl(),
            0x30 => self.jr_ncc_n(mem, Flag::Carry),
            0x31 => self.ld_n_nn(mem, WordRegister::SP),
            0x32 => self.ldd_hlm_a(mem),
            0x33 => self.inc_nn(WordRegister::SP),
            0x34 => self.inc_hlm(mem),
            0x35 => self.dec_hlm(mem),
            0x36 => self.ld_hlm_n(mem),
            0x37 => self.scf(),
            0x38 => self.jr_cc_n(mem, Flag::Carry),
            0x39 => self.add_hl_n(WordRegister::SP),
            0x3A => self.ldd_a_hlm(mem),
            0x3B => self.dec_nn(WordRegister::SP),
            0x3C => self.inc_n(ByteRegister::A),
            0x3D => self.dec_n(ByteRegister::A),
            0x3E => self.ld_a_nb(mem),
            0x3F => self.ccf(),
            _ => self.set_last_clock(1),
        }
    }

    /// Decode of primary opcodes 0x40..0x5F.
    #[verifier::spinoff_prover]
    #[verifier::rlimit(100)]
    fn exec_op_40(&mut self, mem: &mut Memory, instruction: u8)
        requires
            0x40 <= instruction < 0x60,
            old(mem)@.wf(),
        ensures
            final(mem)@.wf(),
            final(self).last_clock.t == 4 * final(self).last_clock.m,
            1 <= final(self).last_clock.m <= 8,
            final(self).clock == old(self).clock,
            *final(self) == spec_exec_op_40(*old(self), old(mem)@, instruction).0,
            final(mem)@ == spec_exec_op_40(*old(self), old(mem)@, instruction).1,
    {
        match instruction {
            0x40 => self.ld_r1_r2(ByteRegister::B, ByteRegister::B),
            0x41 => self.ld_r1_r2(ByteRegister::B, ByteRegister::C),
            0x42 => self.ld_r1_r2(ByteRegister::B, ByteRegister::D),
            0x43 => self.ld_r1_r2(ByteRegister::B, ByteRegister::E),
            0x44 => self.ld_r1_r2(ByteRegister::B, ByteRegister::H),
            0x45 => self.ld_r1_r2(ByteRegister::B, ByteRegister::L),
            0x46 => self.ld_r1_hlm(mem, ByteRegister::B),
            0x47 => self.ld_r1_r2(ByteRegister::B, ByteRegister::A),
            0x48 => self.ld_r1_r2(ByteRegister::C, ByteRegister::B),
            0x49 => self.ld_r1_r2(ByteRegister::C, ByteRegister::C),
            0x4A => self.ld_r1_r2(ByteRegister::C, ByteRegister::D),
            0x4B => self.ld_r1_r2(ByteRegister::C, ByteRegister::E),
            0x4C => self.ld_r1_r2(ByteRegister::C, ByteRegister::H),
            0x4D => self.ld_r1_r2(ByteRegister::C, ByteRegister::L),
            0x4E => self.ld_r1_hlm(mem, ByteRegister::C),
            0x4F => self.ld_r1_r2(ByteRegister::C, ByteRegister::A),
            0x50 => self.ld_r1_r2(ByteRegister::D, ByteRegister::B),
            0x51 => self.ld_r1_r2(ByteRegister::D, ByteRegister::C),
            0x52 => self.ld_r1_r2(ByteRegister::D, ByteRegister::D),
            0x53 => self.ld_r1_r2(ByteRegister::D, ByteRegister::E),
            0x54 => self.ld_r1_r2(ByteRegister::D, ByteRegister::H),
            0x55 => self.ld_r1_r2(ByteRegister::D, ByteRegister::L),
            0x56 => self.ld_r1_hlm(mem, ByteRegister::D),
            0x57 => self.ld_r1_r2(ByteRegister::D, ByteRegister::A),
            0x58 => self.ld_r1_r2(ByteRegister::E, ByteRegister::B),
            0x59 => self.ld_r1_r2(ByteRegister::E, ByteRegister::C),
            0x5A => self.ld_r1_r2(ByteRegister::E, ByteRegister::D),
            0x5B => self.ld_r1_r2(ByteRegister::E, ByteRegister::E),
            0x5C => self.ld_r1_r2(ByteRegister::E, ByteRegister::H),
            0x5D => self.ld_r1_r2(ByteRegister::E, ByteRegister::L),
            0x5E => self.ld_r1_hlm(mem, ByteRegister::E),
            0x5F => self.ld_r1_r2(ByteRegister::E, ByteRegister::A),
            _ => self.set_last_clock(1),
        }
    }

    /// Decode of primary opcodes 0x60..0x7F.
    #[verifier::spinoff_prover]
    #[verifier::rlimit(100)]
    fn exec_op_60(&mut self, mem: &mut Memory, instruction: u8)
        requires
            0x60 <= instruction < 0x80,
            old(mem)@.wf(),
        ensures
            final(mem)@.wf(),
            final(self).last_clock.t == 4 * final(self).last_clock.m,
            1 <= final(self).last_clock.m <= 8,
            final(self).clock == old(self).clock,
            *final(self) == spec_exec_op_60(*old(self), old(mem)@, instruction).0,
            final(mem)@ == spec_exec_op_60(*old(self), old(mem)@, instruction).1,
    {
        match instruction {
            0x60 => self.ld_r1_r2(ByteRegister::H, ByteRegister::B),
            0x61 => self.ld_r1_r2(ByteRegister::H, ByteRegister::C),
            0x62 => self.ld_r1_r2(ByteRegister::H, ByteRegister::D),
            0x63 => self.ld_r1_r2(ByteRegister::H, ByteRegister::E),
            0x64 => self.ld_r1_r2(ByteRegister::H, ByteRegister::H),
            0x65 => self.ld_r1_r2(ByteRegister::H, ByteRegister::L),
            0x66 => self.ld_r1_hlm(mem, ByteRegister::H),
            0x67 => self.ld_r1_r2(ByteRegister::H, ByteRegister::A),
            0x68 => self.ld_r1_r2(ByteRegister::L, ByteRegister::B),
            0x69 => self.ld_r1_r2(ByteRegister::L, ByteRegister::C),
            0x6A => self.ld_r1_r2(ByteRegister::L, ByteRegister::D),
            0x6B => self.ld_r1_r2(ByteRegister::L, ByteRegister::E),
            0x6C => self.ld_r1_r2(ByteRegister::L, ByteRegister::H),
            0x6D => self.ld_r1_r2(ByteRegister::L, ByteRegister::L),
            0x6E => self.ld_r1_hlm(mem, ByteRegister::L),
            0x6F => self.ld_r1_r2(ByteRegister::L, ByteRegister::A),
            0x70 => self.ld_hlm_r1(mem, ByteRegister::B),
            0x71 => self.ld_hlm_r1(mem, ByteRegister::C),
            0x72 => self.ld_hlm_r1(mem, ByteRegister::D),
            0x73 => self.ld_hlm_r1(mem, ByteRegister::E),
            0x74 => self.ld_hlm_r1(mem, ByteRegister::H),
            0x75 => self.ld_hlm_r1(mem, ByteRegister::L),
            0x76 => self.halt(),
            0x77 => self.ld_hlm_r1(mem, ByteRegister::A),
            0x78 => self.ld_r1_r2(ByteRegister::A, ByteRegister::B),
            0x79 => self.ld_r1_r2(ByteRegister::A, ByteRegister::C),
            0x7A => self.ld_r1_r2(ByteRegister::A, ByteRegister::D),
            0x7B => self.ld_r1_r2(ByteRegister::A, ByteRegister::E),
            0x7C => self.ld_r1_r2(ByteRegister::A, ByteRegister::H),
            0x7D => self.ld_r1_r2(ByteRegister::A, ByteRegister::L),
            0x7E => self.ld_r1_hlm(mem, ByteRegister::A),
            0x7F => self.ld_r1_r2(ByteRegister::A, ByteRegister::A),
            _ => self.set_last_clock(1),
        }
    }

    /// Decode of primary opcodes 0x80..0x9F.
    #[verifier::spinoff_prover]
    #[verifier::rlimit(100)]
    fn exec_op_80(&mut self, mem: &mut Memory, instruction: u8)
        requires
            0x80 <= instruction < 0xA0,
            old(mem)@.wf(),
        ensures
            final(mem)@.wf(),
            final(self).last_clock.t == 4 * final(self).last_clock.m,
            1 <= final(self).last_clock.m <= 8,
            final(self).clock == old(self).clock,
            *final(self) == spec_exec_op_80(*old(self), old(mem)@, instruction).0,
            final(mem)@ == spec_exec_op_80(*old(self), old(mem)@, instruction).1,
    {
        match instruction {
            0x80 => self.add_n(ByteRegister::B),
            0x81 => self.add_n(ByteRegister::C),
            0x82 => self.add_n(ByteRegister::D),
            0x83 => self.add_n(ByteRegister::E),
            0x84 => self.add_n(ByteRegister::H),
            0x85 => self.add_n(ByteRegister::L),
            0x86 => self.add_hlm(mem),
            0x87 => self.add_n(ByteRegister::A),
            0x88 => self.adc_n(ByteRegister::B),
            0x89 => self.adc_n(ByteRegister::C),
            0x8A => self.adc_n(ByteRegister::D),
            0x8B => self.adc_n(ByteRegister::E),
            0x8C => self.adc_n(ByteRegister::H),
            0x8D => self.adc_n(ByteRegister::L),
            0x8E => self.adc_hlm(mem),
            0x8F => self.adc_n(ByteRegister::A),
            0x90 => self.sub_n(ByteRegister::B),
            0x91 => self.sub_n(ByteRegister::C),
            0x92 => self.sub_n(ByteRegister::D),
            0x93 => self.sub_n(ByteRegister::E),
            0x94 => self.sub_n(ByteRegister::H),
            0x95 => self.sub_n(ByteRegister::L),
            0x96 => self.sub_hlm(mem),
            0x97 => self.sub_n(ByteRegister::A),
            0x98 => self.sbc_a_n(ByteRegister::B),
            0x99 => self.sbc_a_n(ByteRegister::C),
            0x9A => self.sbc_a_n(ByteRegister::D),
            0x9B => self.sbc_a_n(ByteRegister::E),
            0x9C => self.sbc_a_n(ByteRegister::H),
            0x9D => self.sbc_a_n(ByteRegister::L),
            0x9E => self.sbc_a_hlm(mem),
            0x9F => self.sbc_a_n(ByteRegister::A),
            _ => self.set_last_clock(1),
        }
    }

    /// Decode of primary opcodes 0xA0..0xBF.
    #[verifier::spinoff_prover]
    #[verifier::rlimit(100)]
    fn exec_op_a0(&mut self, mem: &mut Memory, instruction: u8)
        requires
            0xA0 <= instruction < 0xC0,
            old(mem)@.wf(),
        ensures
            final(mem)@.wf(),
            final(self).last_clock.t == 4 * final(self).last_clock.m,
            1 <= final(self).last_clock.m <= 8,
            final(self).clock == old(self).clock,
            *final(self) == spec_exec_op_a0(*old(self), old(mem)@, instruction).0,
            final(mem)@ == spec_exec_op_a0(*old(self), old(mem)@, instruction).1,
    {
        match instruction {
            0xA0 => self.and_n(ByteRegister::B),
            0xA1 => self.and_n(ByteRegister::C),
            0xA2 => self.and_n(ByteRegister::D),
            0xA3 => self.and_n(ByteRegister::E),
            0xA4 => self.and_n(ByteRegister::H),
            0xA5 => self.and_n(ByteRegister::L),
            0xA6 => self.and_hlm(mem),
            0xA7 => self.and_n(ByteRegister::A),
            0xA8 => self.xor_n(ByteRegister::B),
            0xA9 => self.xor_n(ByteRegister::C),
            0xAA => self.xor_n(ByteRegister::D),
            0xAB => self.xor_n(ByteRegister::E),
            0xAC => self.xor_n(ByteRegister::H),
            0xAD => self.xor_n(ByteRegister::L),
            0xAE => self.xor_hlm(mem),
            0xAF => self.xor_n(ByteRegister::A),
            0xB0 => self.or_n(ByteRegister::B),
            0xB1 => self.or_n(ByteRegister::C),
            0xB2 => self.or_n(ByteRegister::D),
            0xB3 => self.or_n(ByteRegister::E),
            0xB4 => self.or_n(ByteRegister::H),
            0xB5 => self.or_n(ByteRegister::L),
            0xB6 => self.or_hlm(mem),
            0xB7 => self.or_n(ByteRegister::A),
            0xB8 => self.cp_r1(ByteRegister::B),
            0xB9 => self.cp_r1(ByteRegister::C),
            0xBA => self.cp_r1(ByteRegister::D),
            0xBB => self.cp_r1(ByteRegister::E),
            0xBC => self.cp_r1(ByteRegister::H),
            0xBD => self.cp_r1(ByteRegister::L),
            0xBE => self.cp_hlm(mem),
            0xBF => self.cp_r1(ByteRegister::A),
            _ => self.set_last_clock(1),
        }
    }

    /// Decode of primary opcodes 0xC0..0xDF.
    #[verifier::spinoff_prover]
    #[verifier::rlimit(100)]
    fn exec_op_c0(&mut self, mem: &mut Memory, instruction: u8)
        requires
            0xC0 <= instruction < 0xE0,
            old(mem)@.wf(),
        ensures
            final(mem)@.wf(),
            final(self).last_clock.t == 4 * final(self).last_clock.m,
            1 <= final(self).last_clock.m <= 8,
            final(self).clock == old(self).clock,
            *final(self) == spec_exec_op_c0(*old(self), old(mem)@, instruction).0,
            final(mem)@ == spec_exec_op_c0(*old(self), old(mem)@, instruction).1,
    {
        match instruction {
            0xC0 => self.ret_ncc(mem, Flag::Zero),
            0xC1 => self.pop_nn(mem, WordRegister::BC),
            0xC2 => self.jp_nn_ncc(mem, Flag::Zero),
            0xC3 => self.jp_nn(mem),
            0xC4 => self.call_ncc_nn(mem, Flag::Zero),
            0xC5 => self.push_nn(mem, WordRegister::BC),
            0xC6 => self.add_nb(mem),
            0xC7 => self.rst_n(mem, 0x00),
            0xC8 => self.ret_cc(mem, Flag::Zero),
            0xC9 => self.ret(mem),
            0xCA => self.jp_nn_cc(mem, Flag::Zero),
            0xCB => {
                let next_byte = self.next_byte(mem);
                self.exec_cb_op(mem, next_byte);
            },
            0xCC => self.call_cc_nn(mem, Flag::Zero),
            0xCD => self.call_nn(mem),
            0xCE => self.adc_nb(mem),
            0xCF => self.rst_n(mem, 0x08),
            0xD0 => self.ret_ncc(mem, Flag::Carry),
            0xD1 => self.pop_nn(mem, WordRegister::DE),
            0xD2 => self.jp_nn_ncc(mem, Flag::Carry),
            0xD3 => self.set_last_clock(1),
            0xD4 => self.call_ncc_nn(mem, Flag::Carry),
            0xD5 => self.push_nn(mem, WordRegister::DE),
            0xD6 => self.sub_nb(mem),
            0xD7 => self.rst_n(mem, 0x10),
            0xD8 => self.ret_cc(mem, Flag::Carry),
            0xD9 => self.reti(mem),
            0xDA => self.jp_nn_cc(mem, Flag::Carry),
            0xDB => self.set_last_clock(1),
            0xDC => self.call_cc_nn(mem, Flag::Carry),
            0xDD => self.set_last_clock(1),
            0xDE => self.sbc_a_nb(mem),
            0xDF => self.rst_n(mem, 0x18),
            _ => self.set_last_clock(1),
        }
    }

    /// Decode of primary opcodes 0xE0..0xFF.
    #[verifier::spinoff_prover]
    #[verifier::rlimit(100)]
    fn exec_op_e0(&mut self, mem: &mut Memory, instruction: u8)
        requires
            0xE0 <= instruction < 0x100,
            old(mem)@.wf(),
        ensures
            final(mem)@.wf(),
            final(self).last_clock.t == 4 * final(self).last_clock.m,
            1 <= final(self).last_clock.m <= 8,
            final(self).clock == old(self).clock,
            *final(self) == spec_exec_op_e0(*old(self), old(mem)@, instruction).0,
            final(mem)@ == spec_exec_op_e0(*old(self), old(mem)@, instruction).1,
    {
        match instruction {
            0xE0 => self.ldh_nm_a(mem),
            0xE1 => self.pop_nn(mem, WordRegister::HL),
            0xE2 => self.ld_cm_a(mem),
            0xE3 => self.set_last_clock(1),
            0xE4 => self.set_last_clock(1),
            0xE5 => self.push_nn(mem, WordRegister::HL),
            0xE6 => self.and_nb(mem),
            0xE7 => self.rst_n(mem, 0x20),
            0xE8 => self.add_sp_n(mem),
            0xE9 => self.jp_hl(),
            0xEA => self.ld_nnm_a(mem),
            0xEB => self.set_last_clock(1),
            0xEC => self.set_last_clock(1),
            0xED => self.set_last_clock(1),
            0xEE => self.xor_nb(mem),
            0xEF => self.rst_n(mem, 0x28),
            0xF0 => self.ldh_a_nm(mem),
            0xF1 => self.pop_nn(mem, WordRegister::AF),
            0xF2 => self.ld_a_cm(mem),
            0xF3 => self.di(),
            0xF4 => self.set_last_clock(1),
            0xF5 => self.push_nn(mem, WordRegister::AF),
            0xF6 => self.or_nb(mem),
            0xF7 => self.rst_n(mem, 0x30),
            0xF8 => self.ld_hl_sp_n(mem),
            0xF9 => self.ld_sp_hl(),
            0xFA => self.ld_a_nn(mem),
            0xFB => self.ei(),
            0xFC => self.set_last_clock(1),
            0xFD => self.set_last_clock(1),
            0xFE => self.cp_nb(mem),
            0xFF => self.rst_n(mem, 0x38),
            _ => self.set_last_clock(1),
        }
    }

    /// Decode of CB-prefixed opcodes 0x00..0x1F.
    #[verifier::spinoff_prover]
    #[verifier::rlimit(100)]
    fn exec_cb_op_00(&mut self, mem: &mut Memory, instruction: u8)
        requires
            0x00 <= instruction < 0x20,
            old(mem)@.wf(),
        ensures
            final(mem)@.wf(),
            final(self).last_clock.t == 4 * final(self).last_clock.m,
            1 <= final(self).last_clock.m <= 8,
            final(self).clock == old(self).clock,
            *final(self) == spec_exec_cb_op_00(*old(self), old(mem)@, instruction).0,
            final(mem)@ == spec_exec_cb_op_00(*old(self), old(mem)@, instruction).1,
    {
        match instruction {
            0x00 => self.rlc_n(ByteRegister::B),
            0x01 => self.rlc_n(ByteRegister::C),
            0x02 => self.rlc_n(ByteRegister::D),
            0x03 => self.rlc_n(ByteRegister::E),
            0x04 => self.rlc_n(ByteRegister::H),
            0x05 => self.rlc_n(ByteRegister::L),
            0x06 => self.rlc_hlm(mem),
            0x07 => self.rlc_n(ByteRegister::A),
            0x08 => self.rrc_n(ByteRegister::B),
            0x09 => self.rrc_n(ByteRegister::C),
            0x0A => self.rrc_n(ByteRegister::D),
            0x0B => self.rrc_n(ByteRegister::E),
            0x0C => self.rrc_n(ByteRegister::H),
            0x0D => self.rrc_n(ByteRegister::L),
            0x0E => self.rrc_hlm(mem),
            0x0F => self.rrc_n(ByteRegister::A),
            0x10 => self.rl_n(ByteRegister::B),
            0x11 => self.rl_n(ByteRegister::C),
            0x12 => self.rl_n(ByteRegister::D),
            0x13 => self.rl_n(ByteRegister::E),
            0x14 => self.rl_n(ByteRegister::H),
            0x15 => self.rl_n(ByteRegister::L),
            0x16 => self.rl_hlm(mem),
            0x17 => self.rl_n(ByteRegister::A),
            0x18 => self.rr_n(ByteRegister::B),
            0x19 => self.rr_n(ByteRegister::C),
            0x1A => self.rr_n(ByteRegister::D),
            0x1B => self.rr_n(ByteRegister::E),
            0x1C => self.rr_n(ByteRegister::H),
            0x1D => self.rr_n(ByteRegister::L),
            0x1E => self.rr_hlm(mem),
            0x1F => self.rr_n(ByteRegister::A),
            _ => self.set_last_clock(1),
        }
    }

    /// Decode of CB-prefixed opcodes 0x20..0x3F.
    #[verifier::spinoff_prover]
    #[verifier::rlimit(100)]
    fn exec_cb_op_20(&mut self, mem: &mut Memory, instruction: u8)
        requires
            0x20 <= instruction < 0x40,
            old(mem)@.wf(),
        ensures
            final(mem)@.wf(),
            final(self).last_clock.t == 4 * final(self).last_clock.m,
            1 <= final(self).last_clock.m <= 8,
            final(self).clock == old(self).clock,
            *final(self) == spec_exec_cb_op_20(*old(self), old(mem)@, instruction).0,
            final(mem)@ == spec_exec_cb_op_20(*old(self), old(mem)@, instruction).1,
    {
        match instruction {
            0x20 => self.sla_n(ByteRegister::B),
            0x21 => self.sla_n(ByteRegister::C),
            0x22 => self.sla_n(ByteRegister::D),
            0x23 => self.sla_n(ByteRegister::E),
            0x24 => self.sla_n(ByteRegister::H),
            0x25 => self.sla_n(ByteRegister::L),
            0x26 => self.sla_hlm(mem),
            0x27 => self.sla_n(ByteRegister::A),
            0x28 => self.sra_n(ByteRegister::B),
            0x29 => self.sra_n(ByteRegister::C),
            0x2A => self.sra_n(ByteRegister::D),
            0x2B => self.sra_n(ByteRegister::E),
            0x2C => self.sra_n(ByteRegister::H),
            0x2D => self.sra_n(ByteRegister::L),
            0x2E => self.sra_hlm(mem),
            0x2F => self.sra_n(ByteRegister::A),
            0x30 => self.swap_n(ByteRegister::B),
            0x31 => self.swap_n(ByteRegister::C),
            0x32 => self.swap_n(ByteRegister::D),
            0x33 => self.swap_n(ByteRegister::E),
            0x34 => self.swap_n(ByteRegister::H),
            0x35 => self.swap_n(ByteRegister::L),
            0x36 => self.swap_hlm(mem),
            0x37 => self.swap_n(ByteRegister::A),
            0x38 => self.srl_n(ByteRegister::B),
            0x39 => self.srl_n(ByteRegister::C),
            0x3A => self.srl_n(ByteRegister::D),
            0x3B => self.srl_n(ByteRegister::E),
            0x3C => self.srl_n(ByteRegister::H),
            0x3D => self.srl_n(ByteRegister::L),
            0x3E => self.srl_hlm(mem),
            0x3F => self.srl_n(ByteRegister::A),
            _ => self.set_last_clock(1),
        }
    }

    /// Decode of CB-prefixed opcodes 0x40..0x5F.
    #[verifier::spinoff_prover]
    #[verifier::rlimit(100)]
    fn exec_cb_op_40(&mut self, mem: &mut Memory, instruction: u8)
        requires
            0x40 <= instruction < 0x60,
            old(mem)@.wf(),
        ensures
            final(mem)@.wf(),
            final(self).last_clock.t == 4 * final(self).last_clock.m,
            1 <= final(self).last_clock.m <= 8,
            final(self).clock == old(self).clock,
            *final(self) == spec_exec_cb_op_40(*old(self), old(mem)@, instruction).0,
            final(mem)@ == spec_exec_cb_op_40(*old(self), old(mem)@, instruction).1,
    {
        match instruction {
            0x40 => self.bit_b_n(ByteRegister::B, 0),
            0x41 => self.bit_b_n(ByteRegister::C, 0),
            0x42 => self.bit_b_n(ByteRegister::D, 0),
            0x43 => self.bit_b_n(ByteRegister::E, 0),
            0x44 => self.bit_b_n(ByteRegister::H, 0),
            0x45 => self.bit_b_n(ByteRegister::L, 0),
            0x46 => self.bit_b_hlm(mem, 0),
            0x47 => self.bit_b_n(ByteRegister::A, 0),
            0x48 => self.bit_b_n(ByteRegister::B, 1),
            0x49 => self.bit_b_n(ByteRegister::C, 1),
            0x4A => self.bit_b_n(ByteRegister::D, 1),
            0x4B => self.bit_b_n(ByteRegister::E, 1),
            0x4C => self.bit_b_n(ByteRegister::H, 1),
            0x4D => self.bit_b_n(ByteRegister::L, 1),
            0x4E => self.bit_b_hlm(mem, 1),
            0x4F => self.bit_b_n(ByteRegister::A, 1),
            0x50 => self.bit_b_n(ByteRegister::B, 2),
            0x51 => self.bit_b_n(ByteRegister::C, 2),
            0x52 => self.bit_b_n(ByteRegister::D, 2),
            0x53 => self.bit_b_n(ByteRegister::E, 2),
            0x54 => self.bit_b_n(ByteRegister::H, 2),
            0x55 => self.bit_b_n(ByteRegister::L, 2),
            0x56 => self.bit_b_hlm(mem, 2),
            0x57 => self.bit_b_n(ByteRegister::A, 2),
            0x58 => self.bit_b_n(ByteRegister::B, 3),
            0x59 => self.bit_b_n(ByteRegister::C, 3),
            0x5A => self.bit_b_n(ByteRegister::D, 3),
            0x5B => self.bit_b_n(ByteRegister::E, 3),
            0x5C => self.bit_b_n(ByteRegister::H, 3),
            0x5D => self.bit_b_n(ByteRegister::L, 3),
            0x5E => self.bit_b_hlm(mem, 3),
            0x5F => self.bit_b_n(ByteRegister::A, 3),
            _ => self.set_last_clock(1),
        }
    }

    /// Decode of CB-prefixed opcodes 0x60..0x7F.
    #[verifier::spinoff_prover]
    #[verifier::rlimit(100)]
    fn exec_cb_op_60(&mut self, mem: &mut Memory, instruction: u8)
        requires
            0x60 <= instruction < 0x80,
            old(mem)@.wf(),
        ensures
            final(mem)@.wf(),
            final(self).last_clock.t == 4 * final(self).last_clock.m,
            1 <= final(self).last_clock.m <= 8,
            final(self).clock == old(self).clock,
            *final(self) == spec_exec_cb_op_60(*old(self), old(mem)@, instruction).0,
            final(mem)@ == spec_exec_cb_op_60(*old(self), old(mem)@, instruction).1,
    {
        match instruction {
            0x60 => self.bit_b_n(ByteRegister::B, 4),
            0x61 => self.bit_b_n(ByteRegister::C, 4),
            0x62 => self.bit_b_n(ByteRegister::D, 4),
            0x63 => self.bit_b_n(ByteRegister::E, 4),
            0x64 => self.bit_b_n(ByteRegister::H, 4),
            0x65 => self.bit_b_n(ByteRegister::L, 4),
            0x66 => self.bit_b_hlm(mem, 4),
            0x67 => self.bit_b_n(ByteRegister::A, 4),
            0x68 => self.bit_b_n(ByteRegister::B, 5),
            0x69 => self.bit_b_n(ByteRegister::C, 5),
            0x6A => self.bit_b_n(ByteRegister::D, 5),
            0x6B => self.bit_b_n(ByteRegister::E, 5),
            0x6C => self.bit_b_n(ByteRegister::H, 5),
            0x6D => self.bit_b_n(ByteRegister::L, 5),
            0x6E => self.bit_b_hlm(mem, 5),
            0x6F => self.bit_b_n(ByteRegister::A, 5),
            0x70 => self.bit_b_n(ByteRegister::B, 6),
            0x71 => self.bit_b_n(ByteRegister::C, 6),
            0x72 => self.bit_b_n(ByteRegister::D, 6),
            0x73 => self.bit_b_n(ByteRegister::E, 6),
            0x74 => self.bit_b_n(ByteRegister::H, 6),
            0x75 => self.bit_b_n(ByteRegister::L, 6),
            0x76 => self.bit_b_hlm(mem, 6),
            0x77 => self.bit_b_n(ByteRegister::A, 6),
            0x78 => self.bit_b_n(ByteRegister::B, 7),
            0x79 => self.bit_b_n(ByteRegister::C, 7),
            0x7A => self.bit_b_n(ByteRegister::D, 7),
            0x7B => self.bit_b_n(ByteRegister::E, 7),
            0x7C => self.bit_b_n(ByteRegister::H, 7),
            0x7D => self.bit_b_n(ByteRegister::L, 7),
            0x7E => self.bit_b_hlm(mem, 7),
            0x7F => self.bit_b_n(ByteRegister::A, 7),
            _ => self.set_last_clock(1),
        }
    }

    /// Decode of CB-prefixed opcodes 0x80..0x9F.
    #[verifier::spinoff_prover]
    #[verifier::rlimit(100)]
    fn exec_cb_op_80(&mut self, mem: &mut Memory, instruction: u8)
        requires
            0x80 <= instruction < 0xA0,
            old(mem)@.wf(),
        ensures
            final(mem)@.wf(),
            final(self).last_clock.t == 4 * final(self).last_clock.m,
            1 <= final(self).last_clock.m <= 8,
            final(self).clock == old(self).clock,
            *final(self) == spec_exec_cb_op_80(*old(self), old(mem)@, instruction).0,
            final(mem)@ == spec_exec_cb_op_80(*old(self), old(mem)@, instruction).1,
    {
        match instruction {
            0x80 => self.res_b_n(ByteRegister::B, 0),
            0x81 => self.res_b_n(ByteRegister::C, 0),
            0x82 => self.res_b_n(ByteRegister::D, 0),
            0x83 => self.res_b_n(ByteRegister::E, 0),
            0x84 => self.res_b_n(ByteRegister::H, 0),
            0x85 => self.res_b_n(ByteRegister::L, 0),
            0x86 => self.res_b_hlm(mem, 0),
            0x87 => self.res_b_n(ByteRegister::A, 0),
            0x88 => self.res_b_n(ByteRegister::B, 1),
            0x89 => self.res_b_n(ByteRegister::C, 1),
            0x8A => self.res_b_n(ByteRegister::D, 1),
            0x8B => self.res_b_n(ByteRegister::E, 1),
            0x8C => self.res_b_n(ByteRegister::H, 1),
            0x8D => self.res_b_n(ByteRegister::L, 1),
            0x8E => self.res_b_hlm(mem, 1),
            0x8F => self.res_b_n(ByteRegister::A, 1),
            0x90 => self.res_b_n(ByteRegister::B, 2),
            0x91 => self.res_b_n(ByteRegister::C, 2),
            0x92 => self.res_b_n(ByteRegister::D, 2),
            0x93 => self.res_b_n(ByteRegister::E, 2),
            0x94 => self.res_b_n(ByteRegister::H, 2),
            0x95 => self.res_b_n(ByteRegister::L, 2),
            0x96 => self.res_b_hlm(mem, 2),
            0x97 => self.res_b_n(ByteRegister::A, 2),
            0x98 => self.res_b_n(ByteRegister::B, 3),
            0x99 => self.res_b_n(ByteRegister::C, 3),
            0x9A => self.res_b_n(ByteRegister::D, 3),
            0x9B => self.res_b_n(ByteRegister::E, 3),
            0x9C => self.res_b_n(ByteRegister::H, 3),
            0x9D => self.res_b_n(ByteRegister::L, 3),
            0x9E => self.res_b_hlm(mem, 3),
            0x9F => self.res_b_n(ByteRegister::A, 3),
            _ => self.set_last_clock(1),
        }
    }

    /// Decode of CB-prefixed opcodes 0xA0..0xBF.
    #[verifier::spinoff_prover]
    #[verifier::rlimit(100)]
    fn exec_cb_op_a0(&mut self, mem: &mut Memory, instruction: u8)
        requires
            0xA0 <= instruction < 0xC0,
            old(mem)@.wf(),
        ensures
            final(mem)@.wf(),
            final(self).last_clock.t == 4 * final(self).last_clock.m,
            1 <= final(self).last_clock.m <= 8,
            final(self).clock == old(self).clock,
            *final(self) == spec_exec_cb_op_a0(*old(self), old(mem)@, instruction).0,
            final(mem)@ == spec_exec_cb_op_a0(*old(self), old(mem)@, instruction).1,
    {
        match instruction {
            0xA0 => self.res_b_n(ByteRegister::B, 4),
            0xA1 => self.res_b_n(ByteRegister::C, 4),
            0xA2 => self.res_b_n(ByteRegister::D, 4),
            0xA3 => self.res_b_n(ByteRegister::E, 4),
            0xA4 => self.res_b_n(ByteRegister::H, 4),
            0xA5 => self.res_b_n(ByteRegister::L, 4),
            0xA6 => self.res_b_hlm(mem, 4),
            0xA7 => self.res_b_n(ByteRegister::A, 4),
            0xA8 => self.res_b_n(ByteRegister::B, 5),
            0xA9 => self.res_b_n(ByteRegister::C, 5),
            0xAA => self.res_b_n(ByteRegister::D, 5),
            0xAB => self.res_b_n(ByteRegister::E, 5),
            0xAC => self.res_b_n(ByteRegister::H, 5),
            0xAD => self.res_b_n(ByteRegister::L, 5),
            0xAE => self.res_b_hlm(mem, 5),
            0xAF => self.res_b_n(ByteRegister::A, 5),
            0xB0 => self.res_b_n(ByteRegister::B, 6),
            0xB1 => self.res_b_n(ByteRegister::C, 6),
            0xB2 => self.res_b_n(ByteRegister::D, 6),
            0xB3 => self.res_b_n(ByteRegister::E, 6),
            0xB4 => self.res_b_n(ByteRegister::H, 6),
            0xB5 => self.res_b_n(ByteRegister::L, 6),
            0xB6 => self.res_b_hlm(mem, 6),
            0xB7 => self.res_b_n(ByteRegister::A, 6),
            0xB8 => self.res_b_n(ByteRegister::B, 7),
            0xB9 => self.res_b_n(ByteRegister::C, 7),
            0xBA => self.res_b_n(ByteRegister::D, 7),
            0xBB => self.res_b_n(ByteRegister::E, 7),
            0xBC => self.res_b_n(ByteRegister::H, 7),
            0xBD => self.res_b_n(ByteRegister::L, 7),
            0xBE => self.res_b_hlm(mem, 7),
            0xBF => self.res_b_n(ByteRegister::A, 7),
            _ => self.set_last_clock(1),
        }
    }

    /// Decode of CB-prefixed opcodes 0xC0..0xDF.
    #[verifier::spinoff_prover]
    #[verifier::rlimit(100)]
    fn exec_cb_op_c0(&mut self, mem: &mut Memory, instruction: u8)
        requires
            0xC0 <= instruction < 0xE0,
            old(mem)@.wf(),
        ensures
            final(mem)@.wf(),
            final(self).last_clock.t == 4 * final(self).last_clock.m,
            1 <= final(self).last_clock.m <= 8,
            final(self).clock == old(self).clock,
            *final(self) == spec_exec_cb_op_c0(*old(self), old(mem)@, instruction).0,
            final(mem)@ == spec_exec_cb_op_c0(*old(self), old(mem)@, instruction).1,
    {
        match instruction {
            0xC0 => self.set_b_n(ByteRegister::B, 0),
            0xC1 => self.set_b_n(ByteRegister::C, 0),
            0xC2 => self.set_b_n(ByteRegister::D, 0),
            0xC3 => self.set_b_n(ByteRegister::E, 0),
            0xC4 => self.set_b_n(ByteRegister::H, 0),
            0xC5 => self.set_b_n(ByteRegister::L, 0),
            0xC6 => self.set_b_hlm(mem, 0),
            0xC7 => self.set_b_n(ByteRegister::A, 0),
            0xC8 => self.set_b_n(ByteRegister::B, 1),
            0xC9 => self.set_b_n(ByteRegister::C, 1),
            0xCA => self.set_b_n(ByteRegister::D, 1),
            0xCB => self.set_b_n(ByteRegister::E, 1),
            0xCC => self.set_b_n(ByteRegister::H, 1),
            0xCD => self.set_b_n(ByteRegister::L, 1),
            0xCE => self.set_b_hlm(mem, 1),
            0xCF => self.set_b_n(ByteRegister::A, 1),
            0xD0 => self.set_b_n(ByteRegister::B, 2),
            0xD1 => self.set_b_n(ByteRegister::C, 2),
            0xD2 => self.set_b_n(ByteRegister::D, 2),
            0xD3 => self.set_b_n(ByteRegister::E, 2),
            0xD4 => self.set_b_n(ByteRegister::H, 2),
            0xD5 => self.set_b_n(ByteRegister::L, 2),
            0xD6 => self.set_b_hlm(mem, 2),
            0xD7 => self.set_b_n(ByteRegister::A, 2),
            0xD8 => self.set_b_n(ByteRegister::B, 3),
            0xD9 => self.set_b_n(ByteRegister::C, 3),
            0xDA => self.set_b_n(ByteRegister::D, 3),
            0xDB => self.set_b_n(ByteRegister::E, 3),
            0xDC => self.set_b_n(ByteRegister::H, 3),
            0xDD => self.set_b_n(ByteRegister::L, 3),
            0xDE => self.set_b_hlm(mem, 3),
            0xDF => self.set_b_n(ByteRegister::A, 3),
            _ => self.set_last_clock(1),
        }
    }

    /// Decode of CB-prefixed opcodes 0xE0..0xFF.
    #[verifier::spinoff_prover]
    #[verifier::rlimit(100)]
    fn exec_cb_op_e0(&mut self, mem: &mut Memory, instruction: u8)
        requires
            0xE0 <= instruction < 0x100,
            old(mem)@.wf(),
        ensures
            final(mem)@.wf(),
            final(self).last_clock.t == 4 * final(self).last_clock.m,
            1 <= final(self).last_clock.m <= 8,
            final(self).clock == old(self).clock,
            *final(self) == spec_exec_cb_op_e0(*old(self), old(mem)@, instruction).0,
            final(mem)@ == spec_exec_cb_op_e0(*old(self), old(mem)@, instruction).1,
    {
        match instruction {
            0xE0 => self.set_b_n(ByteRegister::B, 4),
            0xE1 => self.set_b_n(ByteRegister::C, 4),
            0xE2 => self.set_b_n(ByteRegister::D, 4),
            0xE3 => self.set_b_n(ByteRegister::E, 4),
            0xE4 => self.set_b_n(ByteRegister::H, 4),
            0xE5 => self.set_b_n(ByteRegister::L, 4),
            0xE6 => self.set_b_hlm(mem, 4),
            0xE7 => self.set_b_n(ByteRegister::A, 4),
            0xE8 => self.set_b_n(ByteRegister::B, 5),
            0xE9 => self.set_b_n(ByteRegister::C, 5),
            0xEA => self.set_b_n(ByteRegister::D, 5),
            0xEB => self.set_b_n(ByteRegister::E, 5),
            0xEC => self.set_b_n(ByteRegister::H, 5),
            0xED => self.set_b_n(ByteRegister::L, 5),
            0xEE => self.set_b_hlm(mem, 5),
            0xEF => self.set_b_n(ByteRegister::A, 5),
            0xF0 => self.set_b_n(ByteRegister::B, 6),
            0xF1 => self.set_b_n(ByteRegister::C, 6),
            0xF2 => self.set_b_n(ByteRegister::D, 6),
            0xF3 => self.set_b_n(ByteRegister::E, 6),
            0xF4 => self.set_b_n(ByteRegister::H, 6),
            0xF5 => self.set_b_n(ByteRegister::L, 6),
            0xF6 => self.set_b_hlm(mem, 6),
            0xF7 => self.set_b_n(ByteRegister::A, 6),
            0xF8 => self.set_b_n(ByteRegister::B, 7),
            0xF9 => self.set_b_n(ByteRegister::C, 7),
            0xFA => self.set_b_n(ByteRegister::D, 7),
            0xFB => self.set_b_n(ByteRegister::E, 7),
            0xFC => self.set_b_n(ByteRegister::H, 7),
            0xFD => self.set_b_n(ByteRegister::L, 7),
            0xFE => self.set_b_hlm(mem, 7),
            0xFF => self.set_b_n(ByteRegister::A, 7),
            _ => self.set_last_clock(1),
        }
    }
}

} // verus!
