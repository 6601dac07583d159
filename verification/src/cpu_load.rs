//! The 8-bit and 16-bit load instructions, and the stack PUSH/POP pair.

use vstd::prelude::*;

use crate::alu::{signed_offset, sp_offset_c, sp_offset_h};
use crate::cpu::CPU;
use crate::mmu::Memory;
use crate::registers::{wrap16, ByteRegister, Registers, WordRegister};

verus! {

impl CPU {
    /// LD r,n: loads the immediate byte into a register.
    pub fn ld_nn_n(&mut self, mem: &Memory, dst: ByteRegister)
        requires
            mem@.wf(),
        ensures
            *final(self) == old(self).with_regs(
                (Registers {
                    pc: wrap16(old(self).registers.pc + 1),
                    ..old(self).registers
                }).spec_write8(dst, mem@.spec_read_byte(old(self).registers.pc)),
                2,
            ),
    {
        let next_byte = self.next_byte(mem);
        self.registers.write_byte(dst, next_byte);
        self.set_last_clock(2);
    }

    /// LD r,r': copies one register into another.
    pub fn ld_r1_r2(&mut self, dst: ByteRegister, src: ByteRegister)
        ensures
            *final(self) == old(self).with_regs(
                old(self).registers.spec_write8(dst, old(self).registers.spec_read8(src)),
                1,
            ),
    {
        let v = self.registers.read_byte(src);
        self.registers.write_byte(dst, v);
        self.set_last_clock(1);
    }

    /// LD r,(HL): loads the byte at (HL) into a register.
    pub fn ld_r1_hlm(&mut self, mem: &Memory, dst: ByteRegister)
        requires
            mem@.wf(),
        ensures
            *final(self) == old(self).with_regs(
                old(self).registers.spec_write8(
                    dst,
                    mem@.spec_read_byte(old(self).registers.spec_read_word(WordRegister::HL)),
                ),
                2,
            ),
    {
        let v = self.read_hl(mem);
        self.registers.write_byte(dst, v);
        self.set_last_clock(2);
    }

    /// LD (HL),r: stores a register at (HL).
    pub fn ld_hlm_r1(&mut self, mem: &mut Memory, src: ByteRegister)
        requires
            old(mem)@.wf(),
        ensures
            final(mem)@.wf(),
            *final(self) == old(self).with_regs(old(self).registers, 2),
            final(mem)@ == old(mem)@.spec_write_byte(
                old(self).registers.spec_read_word(WordRegister::HL),
                old(self).registers.spec_read8(src),
            ),
    {
        let byte = self.registers.read_byte(src);
        self.write_hl(mem, byte);
        self.set_last_clock(2);
    }

    /// LD (HL),n: stores the immediate byte at (HL).
    pub fn ld_hlm_n(&mut self, mem: &mut Memory)
        requires
            old(mem)@.wf(),
        ensures
            final(mem)@.wf(),
            *final(self) == old(self).with_regs(
                (Registers { pc: wrap16(old(self).registers.pc + 1), ..old(self).registers }),
                3,
            ),
            final(mem)@ == old(mem)@.spec_write_byte(
                old(self).registers.spec_read_word(WordRegister::HL),
                old(mem)@.spec_read_byte(old(self).registers.pc),
            ),
    {
        let next_byte = self.next_byte(mem);
        self.write_hl(mem, next_byte);
        self.set_last_clock(3);
    }

    /// LD A,r: copies a register into A.
    pub fn ld_a_r1(&mut self, src: ByteRegister)
        ensures
            *final(self) == old(self).with_regs(
                old(self).registers.spec_write8(
                    ByteRegister::A,
                    old(self).registers.spec_read8(src),
                ),
                1,
            ),
    {
        let v = self.registers.read_byte(src);
        self.registers.write_byte(ByteRegister::A, v);
        self.set_last_clock(1);
    }

    /// LD A,(rr): loads the byte a register pair points at into A.
    pub fn ld_a_m(&mut self, mem: &Memory, src: WordRegister)
        requires
            mem@.wf(),
        ensures
            *final(self) == old(self).with_regs(
                old(self).registers.spec_write8(
                    ByteRegister::A,
                    mem@.spec_read_byte(old(self).registers.spec_read_word(src)),
                ),
                2,
            ),
    {
        let pointer = self.registers.read_word(src);
        let byte = mem.read_byte(pointer);
        self.registers.write_byte(ByteRegister::A, byte);
        self.set_last_clock(2);
    }

    /// LD A,(nn): loads the byte at the immediate address into A.
    pub fn ld_a_nn(&mut self, mem: &Memory)
        requires
            mem@.wf(),
        ensures
            *final(self) == old(self).with_regs(
                (Registers {
                    pc: wrap16(old(self).registers.pc + 2),
                    ..old(self).registers
                }).spec_write8(
                    ByteRegister::A,
                    mem@.spec_read_byte(mem@.spec_read_word(old(self).registers.pc)),
                ),
                4,
            ),
    {
        let address = self.next_word(mem);
        let byte = mem.read_byte(address);
        self.registers.write_byte(ByteRegister::A, byte);
        self.set_last_clock(4);
    }

    /// LD A,n: loads the immediate byte into A.
    pub fn ld_a_nb(&mut self, mem: &Memory)
        requires
            mem@.wf(),
        ensures
            *final(self) == old(self).with_regs(
                (Registers {
                    pc: wrap16(old(self).registers.pc + 1),
                    ..old(self).registers
                }).spec_write8(ByteRegister::A, mem@.spec_read_byte(old(self).registers.pc)),
                2,
            ),
    {
        let next_byte = self.next_byte(mem);
        self.registers.write_byte(ByteRegister::A, next_byte);
        self.set_last_clock(2);
    }

    /// LD r,A: copies A into a register.
    pub fn ld_r1_a(&mut self, dst: ByteRegister)
        ensures
            *final(self) == old(self).with_regs(
                old(self).registers.spec_write8(dst, old(self).registers.a),
                1,
            ),
    {
        let v = self.registers.a;
        self.registers.write_byte(dst, v);
        self.set_last_clock(1);
    }

    /// LD (rr),A: stores A at the address a register pair points at.
    pub fn ld_m_a(&mut self, mem: &mut Memory, dst: WordRegister)
        requires
            old(mem)@.wf(),
        ensures
            final(mem)@.wf(),
            *final(self) == old(self).with_regs(old(self).registers, 2),
            final(mem)@ == old(mem)@.spec_write_byte(
                old(self).registers.spec_read_word(dst),
                old(self).registers.a,
            ),
    {
        let pointer = self.registers.read_word(dst);
        let byte = self.registers.a;
        mem.write_byte(pointer, byte);
        self.set_last_clock(2);
    }

    /// Stores A at the given address.
    pub fn ld_nn_a(&mut self, mem: &mut Memory, dst: u16)
        requires
            old(mem)@.wf(),
        ensures
            final(mem)@.wf(),
            *final(self) == old(self).with_regs(old(self).registers, 4),
            final(mem)@ == old(mem)@.spec_write_byte(dst, old(self).registers.a),
    {
        let byte = self.registers.a;
        mem.write_byte(dst, byte);
        self.set_last_clock(4);
    }

    /// LD (nn),A: stores A at the immediate address.
    pub fn ld_nnm_a(&mut self, mem: &mut Memory)
        requires
            old(mem)@.wf(),
        ensures
            final(mem)@.wf(),
            *final(self) == old(self).with_regs(
                (Registers { pc: wrap16(old(self).registers.pc + 2), ..old(self).registers }),
                4,
            ),
            final(mem)@ == old(mem)@.spec_write_byte(
                old(mem)@.spec_read_word(old(self).registers.pc),
                old(self).registers.a,
            ),
    {
        let byte = self.registers.a;
        let address = self.next_word(mem);
        mem.write_byte(address, byte);
        self.set_last_clock(4);
    }

    /// LD A,(C): loads the byte at 0xFF00 + C into A.
    pub fn ld_a_cm(&mut self, mem: &Memory)
        requires
            mem@.wf(),
        ensures
            *final(self) == old(self).with_regs(
                old(self).registers.spec_write8(
                    ByteRegister::A,
                    mem@.spec_read_byte((0xFF00 + old(self).registers.c) as u16),
                ),
                2,
            ),
    {
        let pointer = 0xFF00 + (self.registers.c as u16);
        let byte = mem.read_byte(pointer);
        self.registers.write_byte(ByteRegister::A, byte);
        self.set_last_clock(2);
    }

    /// LD (C),A: stores A at 0xFF00 + C.
    pub fn ld_cm_a(&mut self, mem: &mut Memory)
        requires
            old(mem)@.wf(),
        ensures
            final(mem)@.wf(),
            *final(self) == old(self).with_regs(old(self).registers, 2),
            final(mem)@ == old(mem)@.spec_write_byte(
                (0xFF00 + old(self).registers.c) as u16,
                old(self).registers.a,
            ),
    {
        let byte = self.registers.a;
        let pointer = 0xFF00 + (self.registers.c as u16);
        mem.write_byte(pointer, byte);
        self.set_last_clock(2);
    }

    /// LDD A,(HL): loads the byte at (HL) into A, then decrements HL.
    #[verifier::rlimit(60)]
    pub fn ldd_a_hlm(&mut self, mem: &Memory)
        requires
            mem@.wf(),
        ensures
            *final(self) == old(self).with_regs(
                old(self).registers.spec_write_word(
                    WordRegister::HL,
                    wrap16(old(self).registers.spec_read_word(WordRegister::HL) - 1),
                ).spec_write8(
                    ByteRegister::A,
                    mem@.spec_read_byte(old(self).registers.spec_read_word(WordRegister::HL)),
                ),
                2,
            ),
    {
        let pointer = self.registers.read_word(WordRegister::HL);
        self.registers.write_word(WordRegister::HL, pointer.wrapping_sub(1));
        let byte = mem.read_byte(pointer);
        self.registers.write_byte(ByteRegister::A, byte);
        self.set_last_clock(2);
    }

    /// LDD (HL),A: stores A at (HL), then decrements HL.
    #[verifier::rlimit(60)]
    pub fn ldd_hlm_a(&mut self, mem: &mut Memory)
        requires
            old(mem)@.wf(),
        ensures
            final(mem)@.wf(),
            *final(self) == old(self).with_regs(
                old(self).registers.spec_write_word(
                    WordRegister::HL,
                    wrap16(old(self).registers.spec_read_word(WordRegister::HL) - 1),
                ),
                2,
            ),
            final(mem)@ == old(mem)@.spec_write_byte(
                old(self).registers.spec_read_word(WordRegister::HL),
                old(self).registers.a,
            ),
    {
        let pointer = self.registers.read_word(WordRegister::HL);
        let byte = self.registers.a;
        self.write_hl(mem, byte);
        self.registers.write_word(WordRegister::HL, pointer.wrapping_sub(1));
        self.set_last_clock(2);
    }

    /// LDI A,(HL): loads the byte at (HL) into A, then increments HL.
    #[verifier::rlimit(60)]
    pub fn ldi_a_hlm(&mut self, mem: &Memory)
        requires
            mem@.wf(),
        ensures
            *final(self) == old(self).with_regs(
                old(self).registers.spec_write_word(
                    WordRegister::HL,
                    wrap16(old(self).registers.spec_read_word(WordRegister::HL) + 1),
                ).spec_write8(
                    ByteRegister::A,
                    mem@.spec_read_byte(old(self).registers.spec_read_word(WordRegister::HL)),
                ),
                2,
            ),
    {
        let pointer = self.registers.read_word(WordRegister::HL);
        self.registers.write_word(WordRegister::HL, pointer.wrapping_add(1));
        let byte = mem.read_byte(pointer);
        self.registers.write_byte(ByteRegister::A, byte);
        self.set_last_clock(2);
    }

    /// LDI (HL),A: stores A at (HL), then increments HL.
    #[verifier::rlimit(60)]
    pub fn ldi_hlm_a(&mut self, mem: &mut Memory)
        requires
            old(mem)@.wf(),
        ensures
            final(mem)@.wf(),
            *final(self) == old(self).with_regs(
                old(self).registers.spec_write_word(
                    WordRegister::HL,
                    wrap16(old(self).registers.spec_read_word(WordRegister::HL) + 1),
                ),
                2,
            ),
            final(mem)@ == old(mem)@.spec_write_byte(
                old(self).registers.spec_read_word(WordRegister::HL),
                old(self).registers.a,
            ),
    {
        let pointer = self.registers.read_word(WordRegister::HL);
        let byte = self.registers.a;
        self.write_hl(mem, byte);
        self.registers.write_word(WordRegister::HL, pointer.wrapping_add(1));
        self.set_last_clock(2);
    }

    /// LDH A,(n): loads the byte at 0xFF00 + n into A.
    pub fn ldh_a_nm(&mut self, mem: &Memory)
        requires
            mem@.wf(),
        ensures
            *final(self) == old(self).with_regs(
                (Registers {
                    pc: wrap16(old(self).registers.pc + 1),
                    ..old(self).registers
                }).spec_write8(
                    ByteRegister::A,
                    mem@.spec_read_byte(
                        (0xFF00 + mem@.spec_read_byte(old(self).registers.pc)) as u16,
                    ),
                ),
                3,
            ),
    {
        let offset = self.next_byte(mem);
        let pointer = 0xFF00 + (offset as u16);
        let byte = mem.read_byte(pointer);
        self.registers.write_byte(ByteRegister::A, byte);
        self.set_last_clock(3);
    }

    /// LDH (n),A: stores A at 0xFF00 + n.
    pub fn ldh_nm_a(&mut self, mem: &mut Memory)
        requires
            old(mem)@.wf(),
        ensures
            final(mem)@.wf(),
            *final(self) == old(self).with_regs(
                (Registers { pc: wrap16(old(self).registers.pc + 1), ..old(self).registers }),
                3,
            ),
            final(mem)@ == old(mem)@.spec_write_byte(
                (0xFF00 + old(mem)@.spec_read_byte(old(self).registers.pc)) as u16,
                old(self).registers.a,
            ),
    {
        let byte = self.registers.a;
        let offset = self.next_byte(mem);
        let pointer = 0xFF00 + (offset as u16);
        mem.write_byte(pointer, byte);
        self.set_last_clock(3);
    }

    /// LD rr,nn: loads the immediate word into a register pair or pointer.
    pub fn ld_n_nn(&mut self, mem: &Memory, dst: WordRegister)
        requires
            mem@.wf(),
        ensures
            *final(self) == old(self).with_regs(
                (Registers {
                    pc: wrap16(old(self).registers.pc + 2),
                    ..old(self).registers
                }).spec_write_word(dst, mem@.spec_read_word(old(self).registers.pc)),
                3,
            ),
    {
        let next_word = self.next_word(mem);
        self.registers.write_word(dst, next_word);
        self.set_last_clock(3);
    }

    /// LD SP,HL.
    pub fn ld_sp_hl(&mut self)
        ensures
            *final(self) == old(self).with_regs(
                (Registers {
                    sp: old(self).registers.spec_read_word(WordRegister::HL),
                    ..old(self).registers
                }),
                2,
            ),
    {
        let word = self.registers.read_word(WordRegister::HL);
        self.registers.write_word(WordRegister::SP, word);
        self.set_last_clock(2);
    }

    /// LD HL,SP+n: the sign-extended immediate added to SP lands in HL; H
    /// and C follow 8-bit unsigned addition on the low byte, Z and N clear.
    #[verifier::rlimit(60)]
    pub fn ld_hl_sp_n(&mut self, mem: &Memory)
        requires
            mem@.wf(),
        ensures
            *final(self) == old(self).with_regs(
                (Registers {
                    pc: wrap16(old(self).registers.pc + 1),
                    zero: false,
                    sub: false,
                    half_carry: sp_offset_h(
                        old(self).registers.sp,
                        mem@.spec_read_byte(old(self).registers.pc),
                    ),
                    carry: sp_offset_c(
                        old(self).registers.sp,
                        mem@.spec_read_byte(old(self).registers.pc),
                    ),
                    ..old(self).registers
                }).spec_write_word(
                    WordRegister::HL,
                    signed_offset(
                        old(self).registers.sp,
                        mem@.spec_read_byte(old(self).registers.pc),
                    ),
                ),
                3,
            ),
    {
        let sp = self.registers.sp;
        let next_byte = self.next_byte(mem);

        let result = if next_byte < 128 {
            sp.wrapping_add(next_byte as u16)
        } else {
            sp.wrapping_sub(256 - (next_byte as u16))
        };
        proof {
            crate::registers::lemma_wrap16_range(sp + next_byte);
            crate::registers::lemma_wrap16_range(sp + next_byte - 256);
            assert(result == signed_offset(sp, next_byte));
        }

        self.registers.zero = false;
        self.registers.sub = false;
        self.registers.half_carry = sp % 16 + (next_byte as u16) % 16 > 15;
        self.registers.carry = sp % 256 + (next_byte as u16) > 255;
        self.registers.write_word(WordRegister::HL, result);
        self.set_last_clock(3);
    }

    /// LD (nn),SP: stores SP little-endian at the immediate address.
    pub fn ld_nnm_sp(&mut self, mem: &mut Memory)
        requires
            old(mem)@.wf(),
        ensures
            final(mem)@.wf(),
            *final(self) == old(self).with_regs(
                (Registers { pc: wrap16(old(self).registers.pc + 2), ..old(self).registers }),
                5,
            ),
            final(mem)@ == old(mem)@.spec_write_word(
                old(mem)@.spec_read_word(old(self).registers.pc),
                old(self).registers.sp,
            ),
    {
        let dst = self.next_word(mem);
        let word = self.registers.sp;
        mem.write_word(dst, word);
        self.set_last_clock(5);
    }

    /// PUSH rr: SP drops by two, then the pair is stored little-endian at
    /// the new SP.
    pub fn push_nn(&mut self, mem: &mut Memory, src: WordRegister)
        requires
            old(mem)@.wf(),
        ensures
            final(mem)@.wf(),
            *final(self) == old(self).with_regs(
                (Registers { sp: wrap16(old(self).registers.sp - 2), ..old(self).registers }),
                4,
            ),
            final(mem)@ == old(mem)@.spec_write_word(
                wrap16(old(self).registers.sp - 2),
                old(self).registers.spec_read_word(src),
            ),
    {
        let word = self.registers.read_word(src);
        self.push_word(mem, word);
        self.set_last_clock(4);
    }

    /// POP rr: the word at SP lands in the pair, then SP rises by two; a
    /// pop into AF masks the lower nibble of F to zero.
    pub fn pop_nn(&mut self, mem: &Memory, dst: WordRegister)
        requires
            mem@.wf(),
        ensures
            *final(self) == old(self).with_regs(
                (Registers {
                    sp: wrap16(old(self).registers.sp + 2),
                    ..old(self).registers
                }).spec_write_word(dst, mem@.spec_read_word(old(self).registers.sp)),
                3,
            ),
    {
        let word = self.pop_word(mem);
        self.registers.write_word(dst, word);
        self.set_last_clock(3);
    }
}

} // verus!
