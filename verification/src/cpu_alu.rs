//! The 8-bit and 16-bit arithmetic instructions.
//!
//! The flag rules live in `alu`: additions carry out of bits 3 and 7,
//! subtractions borrow into them, AND sets H, and the 16-bit add into HL
//! carries out of bits 11 and 15 leaving Z untouched.

use vstd::prelude::*;

use crate::alu::{
    add16_c, add16_h, add16_res, alu_add_regs, alu_and_regs, alu_cp_regs, alu_or_regs,
    alu_sub_regs, alu_xor_regs, carry_in, dec8_flags, inc8_flags, signed_offset, sp_offset_c,
    sp_offset_h,
};
use crate::cpu::CPU;
use crate::mmu::Memory;
use crate::registers::{wrap16, wrap8, ByteRegister, Registers, WordRegister};

verus! {

impl CPU {
    /// ADD A,r.
    pub fn add_n(&mut self, src: ByteRegister)
        ensures
            *final(self) == old(self).with_regs(
                alu_add_regs(old(self).registers, old(self).registers.spec_read8(src), 0),
                1,
            ),
    {
        let v = self.registers.read_byte(src);
        self.add_to_a(v, 0);
        self.set_last_clock(1);
    }

    /// ADD A,(HL).
    pub fn add_hlm(&mut self, mem: &Memory)
        requires
            mem@.wf(),
        ensures
            *final(self) == old(self).with_regs(
                alu_add_regs(
                    old(self).registers,
                    mem@.spec_read_byte(old(self).registers.spec_read_word(WordRegister::HL)),
                    0,
                ),
                2,
            ),
    {
        let v = self.read_hl(mem);
        self.add_to_a(v, 0);
        self.set_last_clock(2);
    }

    /// ADD A,n.
    pub fn add_nb(&mut self, mem: &Memory)
        requires
            mem@.wf(),
        ensures
            *final(self) == old(self).with_regs(
                Registers {
                    pc: wrap16(old(self).registers.pc + 1),
                    ..alu_add_regs(
                        old(self).registers,
                        mem@.spec_read_byte(old(self).registers.pc),
                        0,
                    )
                },
                2,
            ),
    {
        let v = self.next_byte(mem);
        self.add_to_a(v, 0);
        self.set_last_clock(2);
    }

    /// ADC A,r: as ADD with the carry flag added in; H and C include the
    /// carry.
    pub fn adc_n(&mut self, src: ByteRegister)
        ensures
            *final(self) == old(self).with_regs(
                alu_add_regs(
                    old(self).registers,
                    old(self).registers.spec_read8(src),
                    carry_in(old(self).registers.carry),
                ),
                1,
            ),
    {
        let v = self.registers.read_byte(src);
        let cin: u8 = if self.registers.carry {
            1
        } else {
            0
        };
        self.add_to_a(v, cin);
        self.set_last_clock(1);
    }

    /// ADC A,(HL).
    pub fn adc_hlm(&mut self, mem: &Memory)
        requires
            mem@.wf(),
        ensures
            *final(self) == old(self).with_regs(
                alu_add_regs(
                    old(self).registers,
                    mem@.spec_read_byte(old(self).registers.spec_read_word(WordRegister::HL)),
                    carry_in(old(self).registers.carry),
                ),
                2,
            ),
    {
        let v = self.read_hl(mem);
        let cin: u8 = if self.registers.carry {
            1
        } else {
            0
        };
        self.add_to_a(v, cin);
        self.set_last_clock(2);
    }

    /// ADC A,n.
    pub fn adc_nb(&mut self, mem: &Memory)
        requires
            mem@.wf(),
        ensures
            *final(self) == old(self).with_regs(
                Registers {
                    pc: wrap16(old(self).registers.pc + 1),
                    ..alu_add_regs(
                        old(self).registers,
                        mem@.spec_read_byte(old(self).registers.pc),
                        carry_in(old(self).registers.carry),
                    )
                },
                2,
            ),
    {
        let v = self.next_byte(mem);
        let cin: u8 = if self.registers.carry {
            1
        } else {
            0
        };
        self.add_to_a(v, cin);
        self.set_last_clock(2);
    }

    /// SUB A,r.
    pub fn sub_n(&mut self, src: ByteRegister)
        ensures
            *final(self) == old(self).with_regs(
                alu_sub_regs(old(self).registers, old(self).registers.spec_read8(src), 0),
                1,
            ),
    {
        let v = self.registers.read_byte(src);
        self.sub_from_a(v, 0);
        self.set_last_clock(1);
    }

    /// SUB A,(HL).
    pub fn sub_hlm(&mut self, mem: &Memory)
        requires
            mem@.wf(),
        ensures
            *final(self) == old(self).with_regs(
                alu_sub_regs(
                    old(self).registers,
                    mem@.spec_read_byte(old(self).registers.spec_read_word(WordRegister::HL)),
                    0,
                ),
                2,
            ),
    {
        let v = self.read_hl(mem);
        self.sub_from_a(v, 0);
        self.set_last_clock(2);
    }

    /// SUB A,n.
    pub fn sub_nb(&mut self, mem: &Memory)
        requires
            mem@.wf(),
        ensures
            *final(self) == old(self).with_regs(
                Registers {
                    pc: wrap16(old(self).registers.pc + 1),
                    ..alu_sub_regs(
                        old(self).registers,
                        mem@.spec_read_byte(old(self).registers.pc),
                        0,
                    )
                },
                2,
            ),
    {
        let v = self.next_byte(mem);
        self.sub_from_a(v, 0);
        self.set_last_clock(2);
    }

    /// SBC A,r: as SUB with the carry flag borrowed in.
    pub fn sbc_a_n(&mut self, src: ByteRegister)
        ensures
            *final(self) == old(self).with_regs(
                alu_sub_regs(
                    old(self).registers,
                    old(self).registers.spec_read8(src),
                    carry_in(old(self).registers.carry),
                ),
                1,
            ),
    {
        let v = self.registers.read_byte(src);
        let cin: u8 = if self.registers.carry {
            1
        } else {
            0
        };
        self.sub_from_a(v, cin);
        self.set_last_clock(1);
    }

    /// SBC A,(HL).
    pub fn sbc_a_hlm(&mut self, mem: &Memory)
        requires
            mem@.wf(),
        ensures
            *final(self) == old(self).with_regs(
                alu_sub_regs(
                    old(self).registers,
                    mem@.spec_read_byte(old(self).registers.spec_read_word(WordRegister::HL)),
                    carry_in(old(self).registers.carry),
                ),
                2,
            ),
    {
        let v = self.read_hl(mem);
        let cin: u8 = if self.registers.carry {
            1
        } else {
            0
        };
        self.sub_from_a(v, cin);
        self.set_last_clock(2);
    }

    /// SBC A,n.
    pub fn sbc_a_nb(&mut self, mem: &Memory)
        requires
            mem@.wf(),
        ensures
            *final(self) == old(self).with_regs(
                Registers {
                    pc: wrap16(old(self).registers.pc + 1),
                    ..alu_sub_regs(
                        old(self).registers,
                        mem@.spec_read_byte(old(self).registers.pc),
                        carry_in(old(self).registers.carry),
                    )
                },
                2,
            ),
    {
        let v = self.next_byte(mem);
        let cin: u8 = if self.registers.carry {
            1
        } else {
            0
        };
        self.sub_from_a(v, cin);
        self.set_last_clock(2);
    }

    /// AND A,r.
    pub fn and_n(&mut self, src: ByteRegister)
        ensures
            *final(self) == old(self).with_regs(
                alu_and_regs(old(self).registers, old(self).registers.spec_read8(src)),
                1,
            ),
    {
        let v = self.registers.read_byte(src);
        self.and_into_a(v);
        self.set_last_clock(1);
    }

    /// AND A,(HL).
    pub fn and_hlm(&mut self, mem: &Memory)
        requires
            mem@.wf(),
        ensures
            *final(self) == old(self).with_regs(
                alu_and_regs(
                    old(self).registers,
                    mem@.spec_read_byte(old(self).registers.spec_read_word(WordRegister::HL)),
                ),
                2,
            ),
    {
        let v = self.read_hl(mem);
        self.and_into_a(v);
        self.set_last_clock(2);
    }

    /// AND A,n.
    pub fn and_nb(&mut self, mem: &Memory)
        requires
            mem@.wf(),
        ensures
            *final(self) == old(self).with_regs(
                Registers {
                    pc: wrap16(old(self).registers.pc + 1),
                    ..alu_and_regs(old(self).registers, mem@.spec_read_byte(old(self).registers.pc))
                },
                2,
            ),
    {
        let v = self.next_byte(mem);
        self.and_into_a(v);
        self.set_last_clock(2);
    }

    /// OR A,r.
    pub fn or_n(&mut self, src: ByteRegister)
        ensures
            *final(self) == old(self).with_regs(
                alu_or_regs(old(self).registers, old(self).registers.spec_read8(src)),
                1,
            ),
    {
        let v = self.registers.read_byte(src);
        self.or_into_a(v);
        self.set_last_clock(1);
    }

    /// OR A,(HL).
    pub fn or_hlm(&mut self, mem: &Memory)
        requires
            mem@.wf(),
        ensures
            *final(self) == old(self).with_regs(
                alu_or_regs(
                    old(self).registers,
                    mem@.spec_read_byte(old(self).registers.spec_read_word(WordRegister::HL)),
                ),
                2,
            ),
    {
        let v = self.read_hl(mem);
        self.or_into_a(v);
        self.set_last_clock(2);
    }

    /// OR A,n.
    pub fn or_nb(&mut self, mem: &Memory)
        requires
            mem@.wf(),
        ensures
            *final(self) == old(self).with_regs(
                Registers {
                    pc: wrap16(old(self).registers.pc + 1),
                    ..alu_or_regs(old(self).registers, mem@.spec_read_byte(old(self).registers.pc))
                },
                2,
            ),
    {
        let v = self.next_byte(mem);
        self.or_into_a(v);
        self.set_last_clock(2);
    }

    /// XOR A,r.
    pub fn xor_n(&mut self, src: ByteRegister)
        ensures
            *final(self) == old(self).with_regs(
                alu_xor_regs(old(self).registers, old(self).registers.spec_read8(src)),
                1,
            ),
    {
        let v = self.registers.read_byte(src);
        self.xor_into_a(v);
        self.set_last_clock(1);
    }

    /// XOR A,(HL).
    pub fn xor_hlm(&mut self, mem: &Memory)
        requires
            mem@.wf(),
        ensures
            *final(self) == old(self).with_regs(
                alu_xor_regs(
                    old(self).registers,
                    mem@.spec_read_byte(old(self).registers.spec_read_word(WordRegister::HL)),
                ),
                2,
            ),
    {
        let v = self.read_hl(mem);
        self.xor_into_a(v);
        self.set_last_clock(2);
    }

    /// XOR A,n.
    pub fn xor_nb(&mut self, mem: &Memory)
        requires
            mem@.wf(),
        ensures
            *final(self) == old(self).with_regs(
                Registers {
                    pc: wrap16(old(self).registers.pc + 1),
                    ..alu_xor_regs(old(self).registers, mem@.spec_read_byte(old(self).registers.pc))
                },
                2,
            ),
    {
        let v = self.next_byte(mem);
        self.xor_into_a(v);
        self.set_last_clock(2);
    }

    /// CP A,r: the flags of the subtraction, A kept.
    pub fn cp_r1(&mut self, src: ByteRegister)
        ensures
            *final(self) == old(self).with_regs(
                alu_cp_regs(old(self).registers, old(self).registers.spec_read8(src)),
                1,
            ),
    {
        let v = self.registers.read_byte(src);
        self.compare_a(v);
        self.set_last_clock(1);
    }

    /// CP A,(HL).
    pub fn cp_hlm(&mut self, mem: &Memory)
        requires
            mem@.wf(),
        ensures
            *final(self) == old(self).with_regs(
                alu_cp_regs(
                    old(self).registers,
                    mem@.spec_read_byte(old(self).registers.spec_read_word(WordRegister::HL)),
                ),
                2,
            ),
    {
        let v = self.read_hl(mem);
        self.compare_a(v);
        self.set_last_clock(2);
    }

    /// CP A,n.
    pub fn cp_nb(&mut self, mem: &Memory)
        requires
            mem@.wf(),
        ensures
            *final(self) == old(self).with_regs(
                Registers {
                    pc: wrap16(old(self).registers.pc + 1),
                    ..alu_cp_regs(old(self).registers, mem@.spec_read_byte(old(self).registers.pc))
                },
                2,
            ),
    {
        let v = self.next_byte(mem);
        self.compare_a(v);
        self.set_last_clock(2);
    }

    /// INC r: adds one to a register; C is untouched.
    pub fn inc_n(&mut self, dst: ByteRegister)
        ensures
            *final(self) == old(self).with_regs(
                inc8_flags(old(self).registers, old(self).registers.spec_read8(dst)).spec_write8(
                    dst,
                    wrap8(old(self).registers.spec_read8(dst) + 1),
                ),
                1,
            ),
    {
        let v = self.registers.read_byte(dst);
        let result = v.wrapping_add(1);
        self.registers.zero = result == 0;
        self.registers.sub = false;
        self.registers.half_carry = v % 16 == 15;
        self.registers.write_byte(dst, result);
        self.set_last_clock(1);
    }

    /// INC (HL).
    pub fn inc_hlm(&mut self, mem: &mut Memory)
        requires
            old(mem)@.wf(),
        ensures
            final(mem)@.wf(),
            *final(self) == old(self).with_regs(
                inc8_flags(
                    old(self).registers,
                    old(mem)@.spec_read_byte(old(self).registers.spec_read_word(WordRegister::HL)),
                ),
                3,
            ),
            final(mem)@ == old(mem)@.spec_write_byte(
                old(self).registers.spec_read_word(WordRegister::HL),
                wrap8(
                    old(mem)@.spec_read_byte(old(self).registers.spec_read_word(WordRegister::HL))
                        + 1,
                ),
            ),
    {
        let v = self.read_hl(mem);
        let result = v.wrapping_add(1);
        self.registers.zero = result == 0;
        self.registers.sub = false;
        self.registers.half_carry = v % 16 == 15;
        self.write_hl(mem, result);
        self.set_last_clock(3);
    }

    /// DEC r: subtracts one from a register; C is untouched.
    pub fn dec_n(&mut self, dst: ByteRegister)
        ensures
            *final(self) == old(self).with_regs(
                dec8_flags(old(self).registers, old(self).registers.spec_read8(dst)).spec_write8(
                    dst,
                    wrap8(old(self).registers.spec_read8(dst) - 1),
                ),
                1,
            ),
    {
        let v = self.registers.read_byte(dst);
        let result = v.wrapping_sub(1);
        self.registers.zero = result == 0;
        self.registers.sub = true;
        self.registers.half_carry = v % 16 == 0;
        self.registers.write_byte(dst, result);
        self.set_last_clock(1);
    }

    /// DEC (HL).
    pub fn dec_hlm(&mut self, mem: &mut Memory)
        requires
            old(mem)@.wf(),
        ensures
            final(mem)@.wf(),
            *final(self) == old(self).with_regs(
                dec8_flags(
                    old(self).registers,
                    old(mem)@.spec_read_byte(old(self).registers.spec_read_word(WordRegister::HL)),
                ),
                3,
            ),
            final(mem)@ == old(mem)@.spec_write_byte(
                old(self).registers.spec_read_word(WordRegister::HL),
                wrap8(
                    old(mem)@.spec_read_byte(old(self).registers.spec_read_word(WordRegister::HL))
                        - 1,
                ),
            ),
    {
        let v = self.read_hl(mem);
        let result = v.wrapping_sub(1);
        self.registers.zero = result == 0;
        self.registers.sub = true;
        self.registers.half_carry = v % 16 == 0;
        self.write_hl(mem, result);
        self.set_last_clock(3);
    }

    /// ADD HL,rr: carries out of bits 11 and 15; Z is untouched.
    #[verifier::rlimit(100)]
    pub fn add_hl_n(&mut self, src: WordRegister)
        ensures
            *final(self) == old(self).with_regs(
                (Registers {
                    sub: false,
                    half_carry: add16_h(
                        old(self).registers.spec_read_word(WordRegister::HL),
                        old(self).registers.spec_read_word(src),
                    ),
                    carry: add16_c(
                        old(self).registers.spec_read_word(WordRegister::HL),
                        old(self).registers.spec_read_word(src),
                    ),
                    ..old(self).registers
                }).spec_write_word(
                    WordRegister::HL,
                    add16_res(
                        old(self).registers.spec_read_word(WordRegister::HL),
                        old(self).registers.spec_read_word(src),
                    ),
                ),
                2,
            ),
    {
        let hl = self.registers.read_word(WordRegister::HL);
        let v = self.registers.read_word(src);
        let result = hl.wrapping_add(v);
        proof {
            crate::registers::lemma_wrap16_range(hl + v);
            assert(result == add16_res(hl, v));
        }

        self.registers.sub = false;
        self.registers.half_carry = hl % 0x1000 + v % 0x1000 > 0xFFF;
        self.registers.carry = (hl as u32) + (v as u32) > 0xFFFF;
        self.registers.write_word(WordRegister::HL, result);
        self.set_last_clock(2);
    }

    /// ADD SP,n: the sign-extended immediate added to SP; H and C follow
    /// 8-bit unsigned addition on the low byte, Z and N clear.
    #[verifier::rlimit(60)]
    pub fn add_sp_n(&mut self, mem: &Memory)
        requires
            mem@.wf(),
        ensures
            *final(self) == old(self).with_regs(
                (Registers {
                    pc: wrap16(old(self).registers.pc + 1),
                    sp: signed_offset(
                        old(self).registers.sp,
                        mem@.spec_read_byte(old(self).registers.pc),
                    ),
                    zero: false,
                    sub: false,
                    half_carry: sp_offset_h(
                        old(self).registers.sp,
                        mem@.spec_read_byte(old(self).registers.pc),
                    ),
                    carry: sp_offset_c(
                        old(self).registers.sp,
                        mem@.spec_read_byte(old(self).registers.pc),
                    ),
                    ..old(self).registers
                }),
                4,
            ),
    {
        let sp = self.registers.sp;
        let next_byte = self.next_byte(mem);

        let result = if next_byte < 128 {
            sp.wrapping_add(next_byte as u16)
        } else {
            sp.wrapping_sub(256 - (next_byte as u16))
        };
        proof {
            crate::registers::lemma_wrap16_range(sp + next_byte);
            crate::registers::lemma_wrap16_range(sp + next_byte - 256);
            assert(result == signed_offset(sp, next_byte));
        }

        self.registers.zero = false;
        self.registers.sub = false;
        self.registers.half_carry = sp % 16 + (next_byte as u16) % 16 > 15;
        self.registers.carry = sp % 256 + (next_byte as u16) > 255;
        self.registers.write_word(WordRegister::SP, result);
        self.set_last_clock(4);
    }

    /// INC rr: no flags.
    pub fn inc_nn(&mut self, dst: WordRegister)
        ensures
            *final(self) == old(self).with_regs(
                old(self).registers.spec_write_word(
                    dst,
                    wrap16(old(self).registers.spec_read_word(dst) + 1),
                ),
                2,
            ),
    {
        let result = self.registers.read_word(dst).wrapping_add(1);
        self.registers.write_word(dst, result);
        self.set_last_clock(2);
    }

    /// DEC rr: no flags.
    pub fn dec_nn(&mut self, dst: WordRegister)
        ensures
            *final(self) == old(self).with_regs(
                old(self).registers.spec_write_word(
                    dst,
                    wrap16(old(self).registers.spec_read_word(dst) - 1),
                ),
                2,
            ),
    {
        let result = self.registers.read_word(dst).wrapping_sub(1);
        self.registers.write_word(dst, result);
        self.set_last_clock(2);
    }

    /// Adds `v` plus a carry into A and sets the addition flags.
    fn add_to_a(&mut self, v: u8, cin: u8)
        requires
            cin <= 1,
        ensures
            *final(self) == (CPU {
                registers: alu_add_regs(old(self).registers, v, cin),
                ..*old(self)
            }),
    {
        let a = self.registers.a;
        let sum: u16 = a as u16 + v as u16 + cin as u16;
        let result: u8 = (sum % 256) as u8;
        self.registers.a = result;
        self.registers.zero = result == 0;
        self.registers.sub = false;
        self.registers.half_carry = a % 16 + v % 16 + cin > 15;
        self.registers.carry = sum > 255;
    }

    /// Subtracts `v` plus a borrow from A and sets the subtraction flags.
    fn sub_from_a(&mut self, v: u8, cin: u8)
        requires
            cin <= 1,
        ensures
            *final(self) == (CPU {
                registers: alu_sub_regs(old(self).registers, v, cin),
                ..*old(self)
            }),
    {
        let a = self.registers.a;
        let result: u8 = a.wrapping_sub(v).wrapping_sub(cin);
        self.registers.a = result;
        self.registers.zero = result == 0;
        self.registers.sub = true;
        self.registers.half_carry = a % 16 < v % 16 + cin;
        self.registers.carry = (a as u16) < (v as u16) + (cin as u16);
    }

    /// ANDs `v` into A: Z from the result, H set, N and C clear.
    fn and_into_a(&mut self, v: u8)
        ensures
            *final(self) == (CPU {
                registers: alu_and_regs(old(self).registers, v),
                ..*old(self)
            }),
    {
        let result = self.registers.a & v;
        self.registers.a = result;
        self.registers.zero = result == 0;
        self.registers.sub = false;
        self.registers.half_carry = true;
        self.registers.carry = false;
    }

    /// ORs `v` into A: Z from the result, N, H and C clear.
    fn or_into_a(&mut self, v: u8)
        ensures
            *final(self) == (CPU {
                registers: alu_or_regs(old(self).registers, v),
                ..*old(self)
            }),
    {
        let result = self.registers.a | v;
        self.registers.a = result;
        self.registers.zero = result == 0;
        self.registers.sub = false;
        self.registers.half_carry = false;
        self.registers.carry = false;
    }

    /// XORs `v` into A: Z from the result, N, H and C clear.
    fn xor_into_a(&mut self, v: u8)
        ensures
            *final(self) == (CPU {
                registers: alu_xor_regs(old(self).registers, v),
                ..*old(self)
            }),
    {
        let result = self.registers.a ^ v;
        self.registers.a = result;
        self.registers.zero = result == 0;
        self.registers.sub = false;
        self.registers.half_carry = false;
        self.registers.carry = false;
    }

    /// Sets the flags of comparing A with `v`, keeping A.
    fn compare_a(&mut self, v: u8)
        ensures
            *final(self) == (CPU {
                registers: alu_cp_regs(old(self).registers, v),
                ..*old(self)
            }),
    {
        let a = self.registers.a;
        let result: u8 = a.wrapping_sub(v);
        self.registers.zero = result == 0;
        self.registers.sub = true;
        self.registers.half_carry = a % 16 < v % 16;
        self.registers.carry = a < v;
    }
}

} // verus!
