//! Jumps, relative jumps, calls, restarts and returns.
//!
//! A conditional always fetches its operand, so PC skips it when the branch
//! is not taken; the taken path costs more M-cycles than the untaken one.

use vstd::prelude::*;

use crate::alu::signed_offset;
use crate::cpu::CPU;
use crate::mmu::Memory;
use crate::registers::{wrap16, Flag, Registers, WordRegister};

verus! {

impl CPU {
    /// JP nn: jumps to the immediate address.
    pub fn jp_nn(&mut self, mem: &Memory)
        requires
            mem@.wf(),
        ensures
            *final(self) == old(self).with_regs(
                (Registers {
                    pc: mem@.spec_read_word(old(self).registers.pc),
                    ..old(self).registers
                }),
                4,
            ),
    {
        let address = self.next_word(mem);
        self.registers.write_word(WordRegister::PC, address);
        self.set_last_clock(4);
    }

    /// JP cc,nn: jumps when the flag is set; the operand is consumed either
    /// way.
    pub fn jp_nn_cc(&mut self, mem: &Memory, flag: Flag)
        requires
            mem@.wf(),
        ensures
            *final(self) == if old(self).registers.spec_get_flag(flag) {
                old(self).with_regs(
                    (Registers {
                        pc: mem@.spec_read_word(old(self).registers.pc),
                        ..old(self).registers
                    }),
                    4,
                )
            } else {
                old(self).with_regs(
                    (Registers { pc: wrap16(old(self).registers.pc + 2), ..old(self).registers }),
                    3,
                )
            },
    {
        let address = self.next_word(mem);
        if self.registers.get_flag(flag) {
            self.registers.write_word(WordRegister::PC, address);
            self.set_last_clock(4);
        } else {
            self.set_last_clock(3);
        }
    }

    /// JP ncc,nn: jumps when the flag is clear.
    pub fn jp_nn_ncc(&mut self, mem: &Memory, flag: Flag)
        requires
            mem@.wf(),
        ensures
            *final(self) == if !old(self).registers.spec_get_flag(flag) {
                old(self).with_regs(
                    (Registers {
                        pc: mem@.spec_read_word(old(self).registers.pc),
                        ..old(self).registers
                    }),
                    4,
                )
            } else {
                old(self).with_regs(
                    (Registers { pc: wrap16(old(self).registers.pc + 2), ..old(self).registers }),
                    3,
                )
            },
    {
        let address = self.next_word(mem);
        if !self.registers.get_flag(flag) {
            self.registers.write_word(WordRegister::PC, address);
            self.set_last_clock(4);
        } else {
            self.set_last_clock(3);
        }
    }

    /// JP (HL): jumps to the address in HL.
    pub fn jp_hl(&mut self)
        ensures
            *final(self) == old(self).with_regs(
                (Registers {
                    pc: old(self).registers.spec_read_word(WordRegister::HL),
                    ..old(self).registers
                }),
                1,
            ),
    {
        let address = self.registers.read_word(WordRegister::HL);
        self.registers.write_word(WordRegister::PC, address);
        self.set_last_clock(1);
    }

    /// JR n: jumps by the sign-extended offset, relative to the address
    /// after the operand.
    pub fn jr_n(&mut self, mem: &Memory)
        requires
            mem@.wf(),
        ensures
            *final(self) == old(self).with_regs(
                (Registers {
                    pc: signed_offset(
                        wrap16(old(self).registers.pc + 1),
                        mem@.spec_read_byte(old(self).registers.pc),
                    ),
                    ..old(self).registers
                }),
                3,
            ),
    {
        let offset = self.next_byte(mem);
        self.relative_jump(offset);
        self.set_last_clock(3);
    }

    /// JR cc,n: relative jump when the flag is set; the operand is consumed
    /// either way.
    pub fn jr_cc_n(&mut self, mem: &Memory, flag: Flag)
        requires
            mem@.wf(),
        ensures
            *final(self) == if old(self).registers.spec_get_flag(flag) {
                old(self).with_regs(
                    (Registers {
                        pc: signed_offset(
                            wrap16(old(self).registers.pc + 1),
                            mem@.spec_read_byte(old(self).registers.pc),
                        ),
                        ..old(self).registers
                    }),
                    3,
                )
            } else {
                old(self).with_regs(
                    (Registers { pc: wrap16(old(self).registers.pc + 1), ..old(self).registers }),
                    2,
                )
            },
    {
        let offset = self.next_byte(mem);
        if self.registers.get_flag(flag) {
            self.relative_jump(offset);
            self.set_last_clock(3);
        } else {
            self.set_last_clock(2);
        }
    }

    /// JR ncc,n: relative jump when the flag is clear.
    pub fn jr_ncc_n(&mut self, mem: &Memory, flag: Flag)
        requires
            mem@.wf(),
        ensures
            *final(self) == if !old(self).registers.spec_get_flag(flag) {
                old(self).with_regs(
                    (Registers {
                        pc: signed_offset(
                            wrap16(old(self).registers.pc + 1),
                            mem@.spec_read_byte(old(self).registers.pc),
                        ),
                        ..old(self).registers
                    }),
                    3,
                )
            } else {
                old(self).with_regs(
                    (Registers { pc: wrap16(old(self).registers.pc + 1), ..old(self).registers }),
                    2,
                )
            },
    {
        let offset = self.next_byte(mem);
        if !self.registers.get_flag(flag) {
            self.relative_jump(offset);
            self.set_last_clock(3);
        } else {
            self.set_last_clock(2);
        }
    }

    /// CALL nn: pushes the address of the next instruction, then jumps to
    /// the immediate address.
    pub fn call_nn(&mut self, mem: &mut Memory)
        requires
            old(mem)@.wf(),
        ensures
            final(mem)@.wf(),
            *final(self) == old(self).with_regs(
                (Registers {
                    pc: old(mem)@.spec_read_word(old(self).registers.pc),
                    sp: wrap16(old(self).registers.sp - 2),
                    ..old(self).registers
                }),
                6,
            ),
            final(mem)@ == old(mem)@.spec_write_word(
                wrap16(old(self).registers.sp - 2),
                wrap16(old(self).registers.pc + 2),
            ),
    {
        let address = self.next_word(mem);
        let return_address = self.registers.pc;
        self.push_word(mem, return_address);
        self.registers.write_word(WordRegister::PC, address);
        self.set_last_clock(6);
    }

    /// CALL cc,nn: calls when the flag is set; the operand is consumed
    /// either way.
    pub fn call_cc_nn(&mut self, mem: &mut Memory, flag: Flag)
        requires
            old(mem)@.wf(),
        ensures
            final(mem)@.wf(),
            *final(self) == if old(self).registers.spec_get_flag(flag) {
                old(self).with_regs(
                    (Registers {
                        pc: old(mem)@.spec_read_word(old(self).registers.pc),
                        sp: wrap16(old(self).registers.sp - 2),
                        ..old(self).registers
                    }),
                    6,
                )
            } else {
                old(self).with_regs(
                    (Registers { pc: wrap16(old(self).registers.pc + 2), ..old(self).registers }),
                    3,
                )
            },
            final(mem)@ == if old(self).registers.spec_get_flag(flag) {
                old(mem)@.spec_write_word(
                    wrap16(old(self).registers.sp - 2),
                    wrap16(old(self).registers.pc + 2),
                )
            } else {
                old(mem)@
            },
    {
        let address = self.next_word(mem);
        if self.registers.get_flag(flag) {
            let return_address = self.registers.pc;
            self.push_word(mem, return_address);
            self.registers.write_word(WordRegister::PC, address);
            self.set_last_clock(6);
        } else {
            self.set_last_clock(3);
        }
    }

    /// CALL ncc,nn: calls when the flag is clear.
    pub fn call_ncc_nn(&mut self, mem: &mut Memory, flag: Flag)
        requires
            old(mem)@.wf(),
        ensures
            final(mem)@.wf(),
            *final(self) == if !old(self).registers.spec_get_flag(flag) {
                old(self).with_regs(
                    (Registers {
                        pc: old(mem)@.spec_read_word(old(self).registers.pc),
                        sp: wrap16(old(self).registers.sp - 2),
                        ..old(self).registers
                    }),
                    6,
                )
            } else {
                old(self).with_regs(
                    (Registers { pc: wrap16(old(self).registers.pc + 2), ..old(self).registers }),
                    3,
                )
            },
            final(mem)@ == if !old(self).registers.spec_get_flag(flag) {
                old(mem)@.spec_write_word(
                    wrap16(old(self).registers.sp - 2),
                    wrap16(old(self).registers.pc + 2),
                )
            } else {
                old(mem)@
            },
    {
        let address = self.next_word(mem);
        if !self.registers.get_flag(flag) {
            let return_address = self.registers.pc;
            self.push_word(mem, return_address);
            self.registers.write_word(WordRegister::PC, address);
            self.set_last_clock(6);
        } else {
            self.set_last_clock(3);
        }
    }

    /// RST n: pushes the current address and jumps to 0x0000 + n.
    pub fn rst_n(&mut self, mem: &mut Memory, n: u8)
        requires
            old(mem)@.wf(),
        ensures
            final(mem)@.wf(),
            *final(self) == old(self).with_regs(
                (Registers {
                    pc: n as u16,
                    sp: wrap16(old(self).registers.sp - 2),
                    ..old(self).registers
                }),
                4,
            ),
            final(mem)@ == old(mem)@.spec_write_word(
                wrap16(old(self).registers.sp - 2),
                old(self).registers.pc,
            ),
    {
        let current = self.registers.pc;
        self.push_word(mem, current);
        self.registers.write_word(WordRegister::PC, n as u16);
        self.set_last_clock(4);
    }

    /// RET: pops the return address into PC.
    pub fn ret(&mut self, mem: &Memory)
        requires
            mem@.wf(),
        ensures
            *final(self) == old(self).with_regs(
                (Registers {
                    pc: mem@.spec_read_word(old(self).registers.sp),
                    sp: wrap16(old(self).registers.sp + 2),
                    ..old(self).registers
                }),
                4,
            ),
    {
        let return_address = self.pop_word(mem);
        self.registers.write_word(WordRegister::PC, return_address);
        self.set_last_clock(4);
    }

    /// RET cc: returns when the flag is set.
    pub fn ret_cc(&mut self, mem: &Memory, flag: Flag)
        requires
            mem@.wf(),
        ensures
            *final(self) == if old(self).registers.spec_get_flag(flag) {
                old(self).with_regs(
                    (Registers {
                        pc: mem@.spec_read_word(old(self).registers.sp),
                        sp: wrap16(old(self).registers.sp + 2),
                        ..old(self).registers
                    }),
                    5,
                )
            } else {
                old(self).with_regs(old(self).registers, 2)
            },
    {
        if self.registers.get_flag(flag) {
            let return_address = self.pop_word(mem);
            self.registers.write_word(WordRegister::PC, return_address);
            self.set_last_clock(5);
        } else {
            self.set_last_clock(2);
        }
    }

    /// RET ncc: returns when the flag is clear.
    pub fn ret_ncc(&mut self, mem: &Memory, flag: Flag)
        requires
            mem@.wf(),
        ensures
            *final(self) == if !old(self).registers.spec_get_flag(flag) {
                old(self).with_regs(
                    (Registers {
                        pc: mem@.spec_read_word(old(self).registers.sp),
                        sp: wrap16(old(self).registers.sp + 2),
                        ..old(self).registers
                    }),
                    5,
                )
            } else {
                old(self).with_regs(old(self).registers, 2)
            },
    {
        if !self.registers.get_flag(flag) {
            let return_address = self.pop_word(mem);
            self.registers.write_word(WordRegister::PC, return_address);
            self.set_last_clock(5);
        } else {
            self.set_last_clock(2);
        }
    }

    /// RETI: returns and sets IME.
    pub fn reti(&mut self, mem: &Memory)
        requires
            mem@.wf(),
        ensures
            *final(self) == (CPU {
                interrupts_enabled: true,
                ..old(self).with_regs(
                    (Registers {
                        pc: mem@.spec_read_word(old(self).registers.sp),
                        sp: wrap16(old(self).registers.sp + 2),
                        ..old(self).registers
                    }),
                    4,
                )
            }),
    {
        let return_address = self.pop_word(mem);
        self.registers.write_word(WordRegister::PC, return_address);
        self.interrupts_enabled = true;
        self.set_last_clock(4);
    }

    /// Moves PC by the sign-extended offset.
    fn relative_jump(&mut self, offset: u8)
        ensures
            *final(self) == (CPU {
                registers: (Registers {
                    pc: signed_offset(old(self).registers.pc, offset),
                    ..old(self).registers
                }),
                ..*old(self)
            }),
    {
        let pc = self.registers.pc;
        let target = if offset < 128 {
            pc.wrapping_add(offset as u16)
        } else {
            pc.wrapping_sub(256 - (offset as u16))
        };
        proof {
            crate::registers::lemma_wrap16_range(pc + offset);
            crate::registers::lemma_wrap16_range(pc + offset - 256);
        }
        self.registers.write_word(WordRegister::PC, target);
    }
}

} // verus!
