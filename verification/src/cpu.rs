//! The CPU: register file, clocks, interrupt master state, and the helpers
//! that the instruction implementations share.
//!
//! The instruction set itself is spread over the neighbouring modules:
//! loads in `cpu_load`, arithmetic in `cpu_alu`, rotates and bit operations
//! in `cpu_bits`, control flow in `cpu_flow`, and the two-level decode in
//! `cpu_step`.  Every instruction records its cost in `last_clock`, measured
//! in M-cycles with T = 4M, and `step` adds that cost into the running
//! clock.

use vstd::prelude::*;

use crate::alu::alu_daa_regs;
use crate::mmu::Memory;
use crate::registers::{wrap16, ByteRegister, Registers, WordRegister};

verus! {

/// A cycle count in the two granularities: T-cycles are the base clock and
/// one M-cycle is four T-cycles.
pub struct Clock {
    pub m: u64,
    pub t: u64,
}

/// The interrupt service routines the core dispatches to, by their fixed
/// vector address (`spec_vector` / `vector`).
#[derive(PartialEq, Eq, Copy, Clone, Debug, Structural)]
pub enum InterruptHandler {
    VBlank,
    LcdStat,
    Timer,
    Serial,
    Joypad,
}

impl InterruptHandler {
    pub open spec fn spec_vector(self) -> u8 {
        match self {
            InterruptHandler::VBlank => 0x40,
            InterruptHandler::LcdStat => 0x48,
            InterruptHandler::Timer => 0x50,
            InterruptHandler::Serial => 0x58,
            InterruptHandler::Joypad => 0x60,
        }
    }

    pub fn vector(self) -> (r: u8)
        ensures
            r == self.spec_vector(),
    {
        match self {
            InterruptHandler::VBlank => 0x40,
            InterruptHandler::LcdStat => 0x48,
            InterruptHandler::Timer => 0x50,
            InterruptHandler::Serial => 0x58,
            InterruptHandler::Joypad => 0x60,
        }
    }
}

/// The instruction interpreter's state.
pub struct CPU {
    /// The running cycle accumulator.
    pub clock: Clock,
    pub registers: Registers,
    /// IME: the interrupt master enable.
    pub interrupts_enabled: bool,
    /// Set by EI; IME turns on after the following instruction.
    pub interrupts_enabled_after_next: bool,
    /// Set by HALT; in this core the instruction otherwise acts as a NOP.
    pub in_standby: bool,
    /// Set by STOP; in this core the instruction otherwise acts as a NOP.
    pub should_power_down: bool,
    /// The cost of the most recently executed instruction or
    /// interrupt-service prologue.
    pub last_clock: Clock,
}

impl CPU {
    /// Well-formedness: both clocks keep T = 4M, and the last recorded cost
    /// is small (no instruction costs more than eight M-cycles).
    pub open spec fn wf(self) -> bool {
        &&& self.last_clock.t == 4 * self.last_clock.m
        &&& self.last_clock.m <= 8
        &&& self.clock.t == 4 * self.clock.m
    }

    /// This state with new registers and an instruction cost of `m`
    /// M-cycles recorded.
    pub open spec fn with_regs(self, r: Registers, m: int) -> CPU {
        CPU { registers: r, last_clock: Clock { m: m as u64, t: (4 * m) as u64 }, ..self }
    }

    /// A fresh interpreter: zeroed registers and clocks, interrupts
    /// enabled.
    pub fn new() -> (r: CPU)
        ensures
            r.wf(),
            r.registers == Registers::spec_zeroed(),
            r.clock.m == 0 && r.clock.t == 0,
            r.last_clock.m == 0 && r.last_clock.t == 0,
            r.interrupts_enabled,
            !r.interrupts_enabled_after_next,
            !r.in_standby,
            !r.should_power_down,
    {
        CPU {
            clock: Clock { m: 0, t: 0 },
            registers: Registers::new(),
            interrupts_enabled: true,
            interrupts_enabled_after_next: false,
            in_standby: false,
            should_power_down: false,
            last_clock: Clock { m: 0, t: 0 },
        }
    }

    /// Records the cost of the instruction just executed, in M-cycles.
    pub(crate) fn set_last_clock(&mut self, m_time: u64)
        requires
            m_time <= 8,
        ensures
            *final(self) == (CPU {
                last_clock: Clock { m: m_time, t: (4 * m_time) as u64 },
                ..*old(self)
            }),
    {
        self.last_clock = Clock { m: m_time, t: 4 * m_time };
    }

    /// The byte at (HL).
    pub(crate) fn read_hl(&self, mem: &Memory) -> (r: u8)
        requires
            mem@.wf(),
        ensures
            r == mem@.spec_read_byte(self.registers.spec_read_word(WordRegister::HL)),
    {
        let pointer = self.registers.read_word(WordRegister::HL);
        mem.read_byte(pointer)
    }

    /// Stores a byte at (HL).
    pub(crate) fn write_hl(&self, mem: &mut Memory, byte: u8)
        requires
            old(mem)@.wf(),
        ensures
            final(mem)@.wf(),
            final(mem)@ == old(mem)@.spec_write_byte(
                self.registers.spec_read_word(WordRegister::HL),
                byte,
            ),
    {
        let pointer = self.registers.read_word(WordRegister::HL);
        mem.write_byte(pointer, byte);
    }

    /// The byte at PC.
    pub(crate) fn read_pc(&self, mem: &Memory) -> (r: u8)
        requires
            mem@.wf(),
        ensures
            r == mem@.spec_read_byte(self.registers.pc),
    {
        mem.read_byte(self.registers.pc)
    }

    /// Fetches the byte at PC and advances PC.
    pub(crate) fn next_byte(&mut self, mem: &Memory) -> (r: u8)
        requires
            mem@.wf(),
        ensures
            r == mem@.spec_read_byte(old(self).registers.pc),
            *final(self) == (CPU {
                registers: (Registers {
                    pc: wrap16(old(self).registers.pc + 1),
                    ..old(self).registers
                }),
                ..*old(self)
            }),
    {
        let b = mem.read_byte(self.registers.pc);
        self.registers.advance_pc(1);
        b
    }

    /// Fetches the little-endian word at PC and advances PC twice.
    pub(crate) fn next_word(&mut self, mem: &Memory) -> (r: u16)
        requires
            mem@.wf(),
        ensures
            r == mem@.spec_read_word(old(self).registers.pc),
            *final(self) == (CPU {
                registers: (Registers {
                    pc: wrap16(old(self).registers.pc + 2),
                    ..old(self).registers
                }),
                ..*old(self)
            }),
    {
        let lo = self.next_byte(mem);
        let hi = self.next_byte(mem);
        (lo as u16) + (hi as u16) * 256
    }

    /// Pushes a word: SP drops by two, then the word is stored little-endian
    /// at the new SP.
    pub(crate) fn push_word(&mut self, mem: &mut Memory, word: u16)
        requires
            old(mem)@.wf(),
        ensures
            final(mem)@.wf(),
            *final(self) == (CPU {
                registers: (Registers {
                    sp: wrap16(old(self).registers.sp - 2),
                    ..old(self).registers
                }),
                ..*old(self)
            }),
            final(mem)@ == old(mem)@.spec_write_word(wrap16(old(self).registers.sp - 2), word),
    {
        let next = self.registers.sp.wrapping_sub(2);
        self.registers.write_word(WordRegister::SP, next);
        mem.write_word(next, word);
    }

    /// Pops a word: the word is read little-endian at SP, then SP rises by
    /// two.
    pub(crate) fn pop_word(&mut self, mem: &Memory) -> (r: u16)
        requires
            mem@.wf(),
        ensures
            r == mem@.spec_read_word(old(self).registers.sp),
            *final(self) == (CPU {
                registers: (Registers {
                    sp: wrap16(old(self).registers.sp + 2),
                    ..old(self).registers
                }),
                ..*old(self)
            }),
    {
        let current = self.registers.sp;
        let next = current.wrapping_add(2);
        self.registers.write_word(WordRegister::SP, next);
        mem.read_word(current)
    }

    /// NOP.
    pub fn nop(&mut self)
        ensures
            *final(self) == old(self).with_regs(old(self).registers, 1),
    {
        self.set_last_clock(1);
    }

    /// HALT: notes the standby request; otherwise a NOP in this core.
    pub fn halt(&mut self)
        ensures
            *final(self) == (CPU {
                in_standby: true,
                ..old(self).with_regs(old(self).registers, 1)
            }),
    {
        self.in_standby = true;
        self.set_last_clock(1);
    }

    /// STOP: notes the power-down request; otherwise a NOP in this core.
    pub fn stop(&mut self)
        ensures
            *final(self) == (CPU {
                should_power_down: true,
                ..old(self).with_regs(old(self).registers, 1)
            }),
    {
        self.should_power_down = true;
        self.set_last_clock(1);
    }

    /// DI: clears IME at once.
    pub fn di(&mut self)
        ensures
            *final(self) == (CPU {
                interrupts_enabled: false,
                ..old(self).with_regs(old(self).registers, 1)
            }),
    {
        self.interrupts_enabled = false;
        self.set_last_clock(1);
    }

    /// EI: IME turns on after the following instruction executes.
    pub fn ei(&mut self)
        ensures
            *final(self) == (CPU {
                interrupts_enabled_after_next: true,
                ..old(self).with_regs(old(self).registers, 1)
            }),
    {
        self.interrupts_enabled_after_next = true;
        self.set_last_clock(1);
    }

    /// CPL: complements A, setting N and H.
    pub fn cpl(&mut self)
        ensures
            *final(self) == old(self).with_regs(
                Registers {
                    a: !old(self).registers.a,
                    sub: true,
                    half_carry: true,
                    ..old(self).registers
                },
                1,
            ),
    {
        self.registers.a = !self.registers.a;
        self.registers.set_sub_flag();
        self.registers.set_half_carry_flag();
        self.set_last_clock(1);
    }

    /// CCF: toggles C, clearing N and H.
    pub fn ccf(&mut self)
        ensures
            *final(self) == old(self).with_regs(
                Registers {
                    carry: !old(self).registers.carry,
                    sub: false,
                    half_carry: false,
                    ..old(self).registers
                },
                1,
            ),
    {
        self.registers.complement_carry_flag();
        self.registers.unset_sub_flag();
        self.registers.unset_half_carry_flag();
        self.set_last_clock(1);
    }

    /// SCF: sets C, clearing N and H.
    pub fn scf(&mut self)
        ensures
            *final(self) == old(self).with_regs(
                Registers {
                    carry: true,
                    sub: false,
                    half_carry: false,
                    ..old(self).registers
                },
                1,
            ),
    {
        self.registers.set_carry_flag();
        self.registers.unset_sub_flag();
        self.registers.unset_half_carry_flag();
        self.set_last_clock(1);
    }

    /// DAA: adjusts A to the binary-coded-decimal result of the preceding
    /// addition or subtraction, driven by the N, H and C flags.
    pub fn daa(&mut self)
        ensures
            *final(self) == old(self).with_regs(alu_daa_regs(old(self).registers), 1),
    {
        let a = self.registers.a;
        if self.registers.sub {
            let adjust: u8 = (if self.registers.carry {
                0x60u8
            } else {
                0u8
            }) + (if self.registers.half_carry {
                6u8
            } else {
                0u8
            });
            let result = a.wrapping_sub(adjust);
            self.registers.a = result;
            self.registers.zero = result == 0;
            self.registers.half_carry = false;
        } else {
            let adjust: u8 = (if self.registers.half_carry || a % 16 > 9 {
                6u8
            } else {
                0u8
            }) + (if self.registers.carry || a > 0x99 {
                0x60u8
            } else {
                0u8
            });
            let result = a.wrapping_add(adjust);
            self.registers.a = result;
            self.registers.zero = result == 0;
            self.registers.half_carry = false;
            self.registers.carry = self.registers.carry || a > 0x99;
        }
        self.set_last_clock(1);
    }
}

} // verus!
