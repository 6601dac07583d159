//! Rotates, shifts, SWAP, and the single-bit test/set/reset instructions.
//!
//! The CB-space operations set Z from their result and C from the bit
//! rotated or shifted out; the four accumulator rotates clear Z by this
//! core's convention.

use vstd::prelude::*;

use crate::alu::{
    rl_res, rlc_res, rot_a_flags, rot_flags, rr_res, rrc_res, sla_res, sra_res, srl_res, swap_res,
};
use crate::cpu::CPU;
use crate::mmu::Memory;
use crate::registers::{ByteRegister, Registers, WordRegister};

verus! {

impl CPU {
    /// SWAP r: exchanges the high and low nibbles; N, H and C clear.
    pub fn swap_n(&mut self, dst: ByteRegister)
        ensures
            *final(self) == old(self).with_regs(
                rot_flags(
                    old(self).registers,
                    swap_res(old(self).registers.spec_read8(dst)),
                    false,
                ).spec_write8(dst, swap_res(old(self).registers.spec_read8(dst))),
                2,
            ),
    {
        let v = self.registers.read_byte(dst);
        let result: u8 = (v % 16) * 16 + v / 16;
        self.registers.zero = result == 0;
        self.registers.sub = false;
        self.registers.half_carry = false;
        self.registers.carry = false;
        self.registers.write_byte(dst, result);
        self.set_last_clock(2);
    }

    /// SWAP (HL).
    pub fn swap_hlm(&mut self, mem: &mut Memory)
        requires
            old(mem)@.wf(),
        ensures
            final(mem)@.wf(),
            *final(self) == old(self).with_regs(
                rot_flags(
                    old(self).registers,
                    swap_res(
                        old(mem)@.spec_read_byte(
                            old(self).registers.spec_read_word(WordRegister::HL),
                        ),
                    ),
                    false,
                ),
                4,
            ),
            final(mem)@ == old(mem)@.spec_write_byte(
                old(self).registers.spec_read_word(WordRegister::HL),
                swap_res(
                    old(mem)@.spec_read_byte(old(self).registers.spec_read_word(WordRegister::HL)),
                ),
            ),
    {
        let v = self.read_hl(mem);
        let result: u8 = (v % 16) * 16 + v / 16;
        self.registers.zero = result == 0;
        self.registers.sub = false;
        self.registers.half_carry = false;
        self.registers.carry = false;
        self.write_hl(mem, result);
        self.set_last_clock(4);
    }

    /// RLCA: rotates A left; Z cleared by this core's convention.
    pub fn rlca(&mut self)
        ensures
            *final(self) == old(self).with_regs(
                rot_a_flags(old(self).registers, old(self).registers.a / 128 == 1).spec_write8(
                    ByteRegister::A,
                    rlc_res(old(self).registers.a),
                ),
                1,
            ),
    {
        let a = self.registers.a;
        self.registers.a = (a % 128) * 2 + a / 128;
        self.set_rotate_a_flags(a / 128 == 1);
        self.set_last_clock(1);
    }

    /// RLA: rotates A left through carry.
    pub fn rla(&mut self)
        ensures
            *final(self) == old(self).with_regs(
                rot_a_flags(old(self).registers, old(self).registers.a / 128 == 1).spec_write8(
                    ByteRegister::A,
                    rl_res(old(self).registers.a, old(self).registers.carry),
                ),
                1,
            ),
    {
        let a = self.registers.a;
        let cin: u8 = if self.registers.carry {
            1
        } else {
            0
        };
        self.registers.a = (a % 128) * 2 + cin;
        self.set_rotate_a_flags(a / 128 == 1);
        self.set_last_clock(1);
    }

    /// RRCA: rotates A right; Z cleared by this core's convention.
    pub fn rrca(&mut self)
        ensures
            *final(self) == old(self).with_regs(
                rot_a_flags(old(self).registers, old(self).registers.a % 2 == 1).spec_write8(
                    ByteRegister::A,
                    rrc_res(old(self).registers.a),
                ),
                1,
            ),
    {
        let a = self.registers.a;
        self.registers.a = a / 2 + (a % 2) * 128;
        self.set_rotate_a_flags(a % 2 == 1);
        self.set_last_clock(1);
    }

    /// RRA: rotates A right through carry.
    pub fn rra(&mut self)
        ensures
            *final(self) == old(self).with_regs(
                rot_a_flags(old(self).registers, old(self).registers.a % 2 == 1).spec_write8(
                    ByteRegister::A,
                    rr_res(old(self).registers.a, old(self).registers.carry),
                ),
                1,
            ),
    {
        let a = self.registers.a;
        let cin: u8 = if self.registers.carry {
            1
        } else {
            0
        };
        self.registers.a = a / 2 + cin * 128;
        self.set_rotate_a_flags(a % 2 == 1);
        self.set_last_clock(1);
    }

    /// RLC r: rotates left, bit 7 into C and bit 0.
    pub fn rlc_n(&mut self, n: ByteRegister)
        ensures
            *final(self) == old(self).with_regs(
                rot_flags(
                    old(self).registers,
                    rlc_res(old(self).registers.spec_read8(n)),
                    old(self).registers.spec_read8(n) / 128 == 1,
                ).spec_write8(n, rlc_res(old(self).registers.spec_read8(n))),
                2,
            ),
    {
        let v = self.registers.read_byte(n);
        let result: u8 = (v % 128) * 2 + v / 128;
        self.set_rotate_flags(result, v / 128 == 1);
        self.registers.write_byte(n, result);
        self.set_last_clock(2);
    }

    /// RLC (HL).
    pub fn rlc_hlm(&mut self, mem: &mut Memory)
        requires
            old(mem)@.wf(),
        ensures
            final(mem)@.wf(),
            *final(self) == old(self).with_regs(
                rot_flags(
                    old(self).registers,
                    rlc_res(
                        old(mem)@.spec_read_byte(
                            old(self).registers.spec_read_word(WordRegister::HL),
                        ),
                    ),
                    old(mem)@.spec_read_byte(old(self).registers.spec_read_word(WordRegister::HL))
                        / 128 == 1,
                ),
                4,
            ),
            final(mem)@ == old(mem)@.spec_write_byte(
                old(self).registers.spec_read_word(WordRegister::HL),
                rlc_res(
                    old(mem)@.spec_read_byte(old(self).registers.spec_read_word(WordRegister::HL)),
                ),
            ),
    {
        let v = self.read_hl(mem);
        let result: u8 = (v % 128) * 2 + v / 128;
        self.set_rotate_flags(result, v / 128 == 1);
        self.write_hl(mem, result);
        self.set_last_clock(4);
    }

    /// RL r: rotates left through carry.
    pub fn rl_n(&mut self, n: ByteRegister)
        ensures
            *final(self) == old(self).with_regs(
                rot_flags(
                    old(self).registers,
                    rl_res(old(self).registers.spec_read8(n), old(self).registers.carry),
                    old(self).registers.spec_read8(n) / 128 == 1,
                ).spec_write8(
                    n,
                    rl_res(old(self).registers.spec_read8(n), old(self).registers.carry),
                ),
                2,
            ),
    {
        let v = self.registers.read_byte(n);
        let cin: u8 = if self.registers.carry {
            1
        } else {
            0
        };
        let result: u8 = (v % 128) * 2 + cin;
        self.set_rotate_flags(result, v / 128 == 1);
        self.registers.write_byte(n, result);
        self.set_last_clock(2);
    }

    /// RL (HL).
    pub fn rl_hlm(&mut self, mem: &mut Memory)
        requires
            old(mem)@.wf(),
        ensures
            final(mem)@.wf(),
            *final(self) == old(self).with_regs(
                rot_flags(
                    old(self).registers,
                    rl_res(
                        old(mem)@.spec_read_byte(
                            old(self).registers.spec_read_word(WordRegister::HL),
                        ),
                        old(self).registers.carry,
                    ),
                    old(mem)@.spec_read_byte(old(self).registers.spec_read_word(WordRegister::HL))
                        / 128 == 1,
                ),
                4,
            ),
            final(mem)@ == old(mem)@.spec_write_byte(
                old(self).registers.spec_read_word(WordRegister::HL),
                rl_res(
                    old(mem)@.spec_read_byte(old(self).registers.spec_read_word(WordRegister::HL)),
                    old(self).registers.carry,
                ),
            ),
    {
        let v = self.read_hl(mem);
        let cin: u8 = if self.registers.carry {
            1
        } else {
            0
        };
        let result: u8 = (v % 128) * 2 + cin;
        self.set_rotate_flags(result, v / 128 == 1);
        self.write_hl(mem, result);
        self.set_last_clock(4);
    }

    /// RRC r: rotates right, bit 0 into C and bit 7.
    pub fn rrc_n(&mut self, n: ByteRegister)
        ensures
            *final(self) == old(self).with_regs(
                rot_flags(
                    old(self).registers,
                    rrc_res(old(self).registers.spec_read8(n)),
                    old(self).registers.spec_read8(n) % 2 == 1,
                ).spec_write8(n, rrc_res(old(self).registers.spec_read8(n))),
                2,
            ),
    {
        let v = self.registers.read_byte(n);
        let result: u8 = v / 2 + (v % 2) * 128;
        self.set_rotate_flags(result, v % 2 == 1);
        self.registers.write_byte(n, result);
        self.set_last_clock(2);
    }

    /// RRC (HL).
    pub fn rrc_hlm(&mut self, mem: &mut Memory)
        requires
            old(mem)@.wf(),
        ensures
            final(mem)@.wf(),
            *final(self) == old(self).with_regs(
                rot_flags(
                    old(self).registers,
                    rrc_res(
                        old(mem)@.spec_read_byte(
                            old(self).registers.spec_read_word(WordRegister::HL),
                        ),
                    ),
                    old(mem)@.spec_read_byte(old(self).registers.spec_read_word(WordRegister::HL))
                        % 2 == 1,
                ),
                4,
            ),
            final(mem)@ == old(mem)@.spec_write_byte(
                old(self).registers.spec_read_word(WordRegister::HL),
                rrc_res(
                    old(mem)@.spec_read_byte(old(self).registers.spec_read_word(WordRegister::HL)),
                ),
            ),
    {
        let v = self.read_hl(mem);
        let result: u8 = v / 2 + (v % 2) * 128;
        self.set_rotate_flags(result, v % 2 == 1);
        self.write_hl(mem, result);
        self.set_last_clock(4);
    }

    /// RR r: rotates right through carry.
    pub fn rr_n(&mut self, n: ByteRegister)
        ensures
            *final(self) == old(self).with_regs(
                rot_flags(
                    old(self).registers,
                    rr_res(old(self).registers.spec_read8(n), old(self).registers.carry),
                    old(self).registers.spec_read8(n) % 2 == 1,
                ).spec_write8(
                    n,
                    rr_res(old(self).registers.spec_read8(n), old(self).registers.carry),
                ),
                2,
            ),
    {
        let v = self.registers.read_byte(n);
        let cin: u8 = if self.registers.carry {
            1
        } else {
            0
        };
        let result: u8 = v / 2 + cin * 128;
        self.set_rotate_flags(result, v % 2 == 1);
        self.registers.write_byte(n, result);
        self.set_last_clock(2);
    }

    /// RR (HL).
    pub fn rr_hlm(&mut self, mem: &mut Memory)
        requires
            old(mem)@.wf(),
        ensures
            final(mem)@.wf(),
            *final(self) == old(self).with_regs(
                rot_flags(
                    old(self).registers,
                    rr_res(
                        old(mem)@.spec_read_byte(
                            old(self).registers.spec_read_word(WordRegister::HL),
                        ),
                        old(self).registers.carry,
                    ),
                    old(mem)@.spec_read_byte(old(self).registers.spec_read_word(WordRegister::HL))
                        % 2 == 1,
                ),
                4,
            ),
            final(mem)@ == old(mem)@.spec_write_byte(
                old(self).registers.spec_read_word(WordRegister::HL),
                rr_res(
                    old(mem)@.spec_read_byte(old(self).registers.spec_read_word(WordRegister::HL)),
                    old(self).registers.carry,
                ),
            ),
    {
        let v = self.read_hl(mem);
        let cin: u8 = if self.registers.carry {
            1
        } else {
            0
        };
        let result: u8 = v / 2 + cin * 128;
        self.set_rotate_flags(result, v % 2 == 1);
        self.write_hl(mem, result);
        self.set_last_clock(4);
    }

    /// SLA r: shifts left into C, bit 0 cleared.
    pub fn sla_n(&mut self, n: ByteRegister)
        ensures
            *final(self) == old(self).with_regs(
                rot_flags(
                    old(self).registers,
                    sla_res(old(self).registers.spec_read8(n)),
                    old(self).registers.spec_read8(n) / 128 == 1,
                ).spec_write8(n, sla_res(old(self).registers.spec_read8(n))),
                2,
            ),
    {
        let v = self.registers.read_byte(n);
        let result: u8 = (v % 128) * 2;
        self.set_rotate_flags(result, v / 128 == 1);
        self.registers.write_byte(n, result);
        self.set_last_clock(2);
    }

    /// SLA (HL).
    pub fn sla_hlm(&mut self, mem: &mut Memory)
        requires
            old(mem)@.wf(),
        ensures
            final(mem)@.wf(),
            *final(self) == old(self).with_regs(
                rot_flags(
                    old(self).registers,
                    sla_res(
                        old(mem)@.spec_read_byte(
                            old(self).registers.spec_read_word(WordRegister::HL),
                        ),
                    ),
                    old(mem)@.spec_read_byte(old(self).registers.spec_read_word(WordRegister::HL))
                        / 128 == 1,
                ),
                4,
            ),
            final(mem)@ == old(mem)@.spec_write_byte(
                old(self).registers.spec_read_word(WordRegister::HL),
                sla_res(
                    old(mem)@.spec_read_byte(old(self).registers.spec_read_word(WordRegister::HL)),
                ),
            ),
    {
        let v = self.read_hl(mem);
        let result: u8 = (v % 128) * 2;
        self.set_rotate_flags(result, v / 128 == 1);
        self.write_hl(mem, result);
        self.set_last_clock(4);
    }

    /// SRA r: shifts right into C, bit 7 kept.
    pub fn sra_n(&mut self, n: ByteRegister)
        ensures
            *final(self) == old(self).with_regs(
                rot_flags(
                    old(self).registers,
                    sra_res(old(self).registers.spec_read8(n)),
                    old(self).registers.spec_read8(n) % 2 == 1,
                ).spec_write8(n, sra_res(old(self).registers.spec_read8(n))),
                2,
            ),
    {
        let v = self.registers.read_byte(n);
        let result: u8 = v / 2 + (v / 128) * 128;
        self.set_rotate_flags(result, v % 2 == 1);
        self.registers.write_byte(n, result);
        self.set_last_clock(2);
    }

    /// SRA (HL).
    pub fn sra_hlm(&mut self, mem: &mut Memory)
        requires
            old(mem)@.wf(),
        ensures
            final(mem)@.wf(),
            *final(self) == old(self).with_regs(
                rot_flags(
                    old(self).registers,
                    sra_res(
                        old(mem)@.spec_read_byte(
                            old(self).registers.spec_read_word(WordRegister::HL),
                        ),
                    ),
                    old(mem)@.spec_read_byte(old(self).registers.spec_read_word(WordRegister::HL))
                        % 2 == 1,
                ),
                4,
            ),
            final(mem)@ == old(mem)@.spec_write_byte(
                old(self).registers.spec_read_word(WordRegister::HL),
                sra_res(
                    old(mem)@.spec_read_byte(old(self).registers.spec_read_word(WordRegister::HL)),
                ),
            ),
    {
        let v = self.read_hl(mem);
        let result: u8 = v / 2 + (v / 128) * 128;
        self.set_rotate_flags(result, v % 2 == 1);
        self.write_hl(mem, result);
        self.set_last_clock(4);
    }

    /// SRL r: shifts right into C, bit 7 cleared.
    pub fn srl_n(&mut self, n: ByteRegister)
        ensures
            *final(self) == old(self).with_regs(
                rot_flags(
                    old(self).registers,
                    srl_res(old(self).registers.spec_read8(n)),
                    old(self).registers.spec_read8(n) % 2 == 1,
                ).spec_write8(n, srl_res(old(self).registers.spec_read8(n))),
                2,
            ),
    {
        let v = self.registers.read_byte(n);
        let result: u8 = v / 2;
        self.set_rotate_flags(result, v % 2 == 1);
        self.registers.write_byte(n, result);
        self.set_last_clock(2);
    }

    /// SRL (HL).
    pub fn srl_hlm(&mut self, mem: &mut Memory)
        requires
            old(mem)@.wf(),
        ensures
            final(mem)@.wf(),
            *final(self) == old(self).with_regs(
                rot_flags(
                    old(self).registers,
                    srl_res(
                        old(mem)@.spec_read_byte(
                            old(self).registers.spec_read_word(WordRegister::HL),
                        ),
                    ),
                    old(mem)@.spec_read_byte(old(self).registers.spec_read_word(WordRegister::HL))
                        % 2 == 1,
                ),
                4,
            ),
            final(mem)@ == old(mem)@.spec_write_byte(
                old(self).registers.spec_read_word(WordRegister::HL),
                srl_res(
                    old(mem)@.spec_read_byte(old(self).registers.spec_read_word(WordRegister::HL)),
                ),
            ),
    {
        let v = self.read_hl(mem);
        let result: u8 = v / 2;
        self.set_rotate_flags(result, v % 2 == 1);
        self.write_hl(mem, result);
        self.set_last_clock(4);
    }

    /// BIT b,r: Z from the complement of the tested bit, N clear, H set, C
    /// untouched.
    pub fn bit_b_n(&mut self, n: ByteRegister, b: u8)
        requires
            b < 8,
        ensures
            *final(self) == old(self).with_regs(
                (Registers {
                    zero: (old(self).registers.spec_read8(n) >> b) & 1 == 0,
                    sub: false,
                    half_carry: true,
                    ..old(self).registers
                }),
                2,
            ),
    {
        let result = (self.registers.read_byte(n) >> b) & 1u8;
        self.registers.zero = result == 0;
        self.registers.sub = false;
        self.registers.half_carry = true;
        self.set_last_clock(2);
    }

    /// BIT b,(HL).
    pub fn bit_b_hlm(&mut self, mem: &Memory, b: u8)
        requires
            mem@.wf(),
            b < 8,
        ensures
            *final(self) == old(self).with_regs(
                (Registers {
                    zero: (mem@.spec_read_byte(old(self).registers.spec_read_word(WordRegister::HL))
                        >> b) & 1 == 0,
                    sub: false,
                    half_carry: true,
                    ..old(self).registers
                }),
                4,
            ),
    {
        let result = (self.read_hl(mem) >> b) & 1u8;
        self.registers.zero = result == 0;
        self.registers.sub = false;
        self.registers.half_carry = true;
        self.set_last_clock(4);
    }

    /// SET b,r: no flags.
    pub fn set_b_n(&mut self, n: ByteRegister, b: u8)
        requires
            b < 8,
        ensures
            *final(self) == old(self).with_regs(
                old(self).registers.spec_write8(
                    n,
                    old(self).registers.spec_read8(n) | (1u8 << b),
                ),
                2,
            ),
    {
        let result = self.registers.read_byte(n) | (1u8 << b);
        self.registers.write_byte(n, result);
        self.set_last_clock(2);
    }

    /// SET b,(HL).
    pub fn set_b_hlm(&mut self, mem: &mut Memory, b: u8)
        requires
            old(mem)@.wf(),
            b < 8,
        ensures
            final(mem)@.wf(),
            *final(self) == old(self).with_regs(old(self).registers, 4),
            final(mem)@ == old(mem)@.spec_write_byte(
                old(self).registers.spec_read_word(WordRegister::HL),
                old(mem)@.spec_read_byte(old(self).registers.spec_read_word(WordRegister::HL)) | (
                1u8 << b),
            ),
    {
        let result = self.read_hl(mem) | (1u8 << b);
        self.write_hl(mem, result);
        self.set_last_clock(4);
    }

    /// RES b,r: no flags.
    pub fn res_b_n(&mut self, n: ByteRegister, b: u8)
        requires
            b < 8,
        ensures
            *final(self) == old(self).with_regs(
                old(self).registers.spec_write8(
                    n,
                    old(self).registers.spec_read8(n) & !(1u8 << b),
                ),
                2,
            ),
    {
        let result = self.registers.read_byte(n) & !(1u8 << b);
        self.registers.write_byte(n, result);
        self.set_last_clock(2);
    }

    /// RES b,(HL).
    pub fn res_b_hlm(&mut self, mem: &mut Memory, b: u8)
        requires
            old(mem)@.wf(),
            b < 8,
        ensures
            final(mem)@.wf(),
            *final(self) == old(self).with_regs(old(self).registers, 4),
            final(mem)@ == old(mem)@.spec_write_byte(
                old(self).registers.spec_read_word(WordRegister::HL),
                old(mem)@.spec_read_byte(old(self).registers.spec_read_word(WordRegister::HL))
                    & !(1u8 << b),
            ),
    {
        let result = self.read_hl(mem) & !(1u8 << b);
        self.write_hl(mem, result);
        self.set_last_clock(4);
    }

    /// Sets the flags shared by the CB-space rotates and shifts.
    fn set_rotate_flags(&mut self, result: u8, carry_out: bool)
        ensures
            *final(self) == (CPU {
                registers: rot_flags(old(self).registers, result, carry_out),
                ..*old(self)
            }),
    {
        self.registers.zero = result == 0;
        self.registers.sub = false;
        self.registers.half_carry = false;
        self.registers.carry = carry_out;
    }

    /// Sets the flags shared by the accumulator rotates: Z cleared.
    fn set_rotate_a_flags(&mut self, carry_out: bool)
        ensures
            *final(self) == (CPU {
                registers: rot_a_flags(old(self).registers, carry_out),
                ..*old(self)
            }),
    {
        self.registers.zero = false;
        self.registers.sub = false;
        self.registers.half_carry = false;
        self.registers.carry = carry_out;
    }
}

} // verus!
