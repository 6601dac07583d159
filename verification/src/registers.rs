//! The CPU register file: seven 8-bit general registers, the four flags of
//! the F register, and the two 16-bit pointers PC and SP.
//!
//! The flag byte F exposes Z (bit 7), N (bit 6), H (bit 5) and C (bit 4) in
//! its upper nibble; its lower nibble always reads as zero.  The flags are
//! stored as four booleans and the byte is assembled on demand, so the
//! low-nibble invariant holds by construction.

use vstd::prelude::*;

verus! {

/// One of the seven 8-bit general registers.
#[derive(PartialEq, Eq, Copy, Clone, Debug, Structural)]
pub enum ByteRegister {
    A,
    B,
    C,
    D,
    E,
    H,
    L,
}

/// A 16-bit register: a register pair, or one of the two pointers.
#[derive(PartialEq, Eq, Copy, Clone, Debug, Structural)]
pub enum WordRegister {
    AF,
    BC,
    DE,
    HL,
    PC,
    SP,
}

/// One of the four condition flags in the upper nibble of F.
#[derive(PartialEq, Eq, Copy, Clone, Debug, Structural)]
pub enum Flag {
    Carry,
    HalfCarry,
    Zero,
    Sub,
}

/// Truncation to 16 bits, for PC/SP arithmetic that wraps modulo 2^16.
pub open spec fn wrap16(x: int) -> u16 {
    (x % 0x10000) as u16
}

/// Truncation to 8 bits.
pub open spec fn wrap8(x: int) -> u8 {
    (x % 0x100) as u8
}

/// The register file.  Constructed zeroed; mutated only by CPU instructions
/// and interrupt dispatch.
pub struct Registers {
    pub a: u8,
    pub b: u8,
    pub c: u8,
    pub d: u8,
    pub e: u8,
    pub h: u8,
    pub l: u8,

    /// Z flag: bit 7 of F.
    pub zero: bool,
    /// N flag: bit 6 of F.
    pub sub: bool,
    /// H flag: bit 5 of F.
    pub half_carry: bool,
    /// C flag: bit 4 of F.
    pub carry: bool,

    pub pc: u16,
    pub sp: u16,
}

impl Registers {
    /// The flag byte F: Z, N, H, C in the upper nibble, lower nibble zero.
    pub open spec fn flags_byte(self) -> u8 {
        ((if self.zero {
            0x80int
        } else {
            0int
        }) + (if self.sub {
            0x40int
        } else {
            0int
        }) + (if self.half_carry {
            0x20int
        } else {
            0int
        }) + (if self.carry {
            0x10int
        } else {
            0int
        })) as u8
    }

    pub open spec fn spec_read8(self, reg: ByteRegister) -> u8 {
        match reg {
            ByteRegister::A => self.a,
            ByteRegister::B => self.b,
            ByteRegister::C => self.c,
            ByteRegister::D => self.d,
            ByteRegister::E => self.e,
            ByteRegister::H => self.h,
            ByteRegister::L => self.l,
        }
    }

    pub open spec fn spec_write8(self, reg: ByteRegister, v: u8) -> Registers {
        match reg {
            ByteRegister::A => Registers { a: v, ..self },
            ByteRegister::B => Registers { b: v, ..self },
            ByteRegister::C => Registers { c: v, ..self },
            ByteRegister::D => Registers { d: v, ..self },
            ByteRegister::E => Registers { e: v, ..self },
            ByteRegister::H => Registers { h: v, ..self },
            ByteRegister::L => Registers { l: v, ..self },
        }
    }

    /// Paired word views are big-endian over the byte pair: the first
    /// register of the pair is the high byte.
    pub open spec fn spec_read_word(self, reg: WordRegister) -> u16 {
        match reg {
            WordRegister::AF => (self.a * 256 + self.flags_byte()) as u16,
            WordRegister::BC => (self.b * 256 + self.c) as u16,
            WordRegister::DE => (self.d * 256 + self.e) as u16,
            WordRegister::HL => (self.h * 256 + self.l) as u16,
            WordRegister::PC => self.pc,
            WordRegister::SP => self.sp,
        }
    }

    /// Writing a pair sets the high byte into the first register and the low
    /// byte into the second; a write through AF decodes the flag bits and
    /// forces the lower nibble of F to zero.
    pub open spec fn spec_write_word(self, reg: WordRegister, w: u16) -> Registers {
        match reg {
            WordRegister::AF => Registers {
                a: (w / 256) as u8,
                zero: (w / 0x80) % 2 == 1,
                sub: (w / 0x40) % 2 == 1,
                half_carry: (w / 0x20) % 2 == 1,
                carry: (w / 0x10) % 2 == 1,
                ..self
            },
            WordRegister::BC => Registers { b: (w / 256) as u8, c: (w % 256) as u8, ..self },
            WordRegister::DE => Registers { d: (w / 256) as u8, e: (w % 256) as u8, ..self },
            WordRegister::HL => Registers { h: (w / 256) as u8, l: (w % 256) as u8, ..self },
            WordRegister::PC => Registers { pc: w, ..self },
            WordRegister::SP => Registers { sp: w, ..self },
        }
    }

    pub open spec fn spec_get_flag(self, flag: Flag) -> bool {
        match flag {
            Flag::Zero => self.zero,
            Flag::Sub => self.sub,
            Flag::HalfCarry => self.half_carry,
            Flag::Carry => self.carry,
        }
    }

    /// The zeroed register file.
    pub open spec fn spec_zeroed() -> Registers {
        Registers {
            a: 0u8,
            b: 0u8,
            c: 0u8,
            d: 0u8,
            e: 0u8,
            h: 0u8,
            l: 0u8,
            zero: false,
            sub: false,
            half_carry: false,
            carry: false,
            pc: 0u16,
            sp: 0u16,
        }
    }

    /// A fresh register file, all fields zero.
    pub fn new() -> (r: Registers)
        ensures
            r == Registers::spec_zeroed(),
    {
        Registers {
            a: 0,
            b: 0,
            c: 0,
            d: 0,
            e: 0,
            h: 0,
            l: 0,
            zero: false,
            sub: false,
            half_carry: false,
            carry: false,
            pc: 0,
            sp: 0,
        }
    }

    /// Reads one 8-bit register.
    pub fn read_byte(&self, reg: ByteRegister) -> (r: u8)
        ensures
            r == self.spec_read8(reg),
    {
        match reg {
            ByteRegister::A => self.a,
            ByteRegister::B => self.b,
            ByteRegister::C => self.c,
            ByteRegister::D => self.d,
            ByteRegister::E => self.e,
            ByteRegister::H => self.h,
            ByteRegister::L => self.l,
        }
    }

    /// Writes one 8-bit register.
    pub fn write_byte(&mut self, reg: ByteRegister, v: u8)
        ensures
            *final(self) == old(self).spec_write8(reg, v),
    {
        match reg {
            ByteRegister::A => self.a = v,
            ByteRegister::B => self.b = v,
            ByteRegister::C => self.c = v,
            ByteRegister::D => self.d = v,
            ByteRegister::E => self.e = v,
            ByteRegister::H => self.h = v,
            ByteRegister::L => self.l = v,
        }
    }

    /// The flag byte F as exposed to the program.
    pub fn read_flags_byte(&self) -> (r: u8)
        ensures
            r == self.flags_byte(),
    {
        (if self.zero {
            0x80u8
        } else {
            0u8
        }) + (if self.sub {
            0x40u8
        } else {
            0u8
        }) + (if self.half_carry {
            0x20u8
        } else {
            0u8
        }) + (if self.carry {
            0x10u8
        } else {
            0u8
        })
    }

    /// Reads a 16-bit register or register pair.
    pub fn read_word(&self, reg: WordRegister) -> (r: u16)
        ensures
            r == self.spec_read_word(reg),
    {
        match reg {
            WordRegister::AF => (self.a as u16) * 256 + (self.read_flags_byte() as u16),
            WordRegister::BC => (self.b as u16) * 256 + (self.c as u16),
            WordRegister::DE => (self.d as u16) * 256 + (self.e as u16),
            WordRegister::HL => (self.h as u16) * 256 + (self.l as u16),
            WordRegister::SP => self.sp,
            WordRegister::PC => self.pc,
        }
    }

    /// Writes a 16-bit register or register pair.  A write through AF masks
    /// the lower nibble of F to zero.
    pub fn write_word(&mut self, reg: WordRegister, w: u16)
        ensures
            *final(self) == old(self).spec_write_word(reg, w),
    {
        match reg {
            WordRegister::AF => {
                self.a = (w / 256) as u8;
                self.zero = (w / 0x80) % 2 == 1;
                self.sub = (w / 0x40) % 2 == 1;
                self.half_carry = (w / 0x20) % 2 == 1;
                self.carry = (w / 0x10) % 2 == 1;
            },
            WordRegister::BC => {
                self.b = (w / 256) as u8;
                self.c = (w % 256) as u8;
            },
            WordRegister::DE => {
                self.d = (w / 256) as u8;
                self.e = (w % 256) as u8;
            },
            WordRegister::HL => {
                self.h = (w / 256) as u8;
                self.l = (w % 256) as u8;
            },
            WordRegister::SP => self.sp = w,
            WordRegister::PC => self.pc = w,
        }
    }

    /// Advances PC by `amount`, wrapping modulo 2^16.
    pub fn advance_pc(&mut self, amount: u16)
        ensures
            *final(self) == (Registers { pc: wrap16(old(self).pc + amount), ..*old(self) }),
    {
        self.pc = self.pc.wrapping_add(amount);
    }

    /// Clears all four flags.
    pub fn clear_flags(&mut self)
        ensures
            *final(self) == (Registers {
                zero: false,
                sub: false,
                half_carry: false,
                carry: false,
                ..*old(self)
            }),
    {
        self.zero = false;
        self.sub = false;
        self.half_carry = false;
        self.carry = false;
    }

    pub fn set_zero_flag(&mut self)
        ensures
            *final(self) == (Registers { zero: true, ..*old(self) }),
    {
        self.zero = true;
    }

    pub fn unset_zero_flag(&mut self)
        ensures
            *final(self) == (Registers { zero: false, ..*old(self) }),
    {
        self.zero = false;
    }

    pub fn set_carry_flag(&mut self)
        ensures
            *final(self) == (Registers { carry: true, ..*old(self) }),
    {
        self.carry = true;
    }

    pub fn unset_carry_flag(&mut self)
        ensures
            *final(self) == (Registers { carry: false, ..*old(self) }),
    {
        self.carry = false;
    }

    pub fn set_half_carry_flag(&mut self)
        ensures
            *final(self) == (Registers { half_carry: true, ..*old(self) }),
    {
        self.half_carry = true;
    }

    pub fn unset_half_carry_flag(&mut self)
        ensures
            *final(self) == (Registers { half_carry: false, ..*old(self) }),
    {
        self.half_carry = false;
    }

    pub fn set_sub_flag(&mut self)
        ensures
            *final(self) == (Registers { sub: true, ..*old(self) }),
    {
        self.sub = true;
    }

    pub fn unset_sub_flag(&mut self)
        ensures
            *final(self) == (Registers { sub: false, ..*old(self) }),
    {
        self.sub = false;
    }

    pub fn complement_carry_flag(&mut self)
        ensures
            *final(self) == (Registers { carry: !old(self).carry, ..*old(self) }),
    {
        self.carry = !self.carry;
    }

    /// Tests one flag.
    pub fn get_flag(&self, flag: Flag) -> (r: bool)
        ensures
            r == self.spec_get_flag(flag),
    {
        match flag {
            Flag::Zero => self.zero,
            Flag::Sub => self.sub,
            Flag::HalfCarry => self.half_carry,
            Flag::Carry => self.carry,
        }
    }
}

/// Truncation to 16 bits written without `%`, for values one wrap away from
/// range.
pub proof fn lemma_wrap16_range(x: int)
    requires
        -0x10000 <= x < 0x20000,
    ensures
        x < 0 ==> wrap16(x) == x + 0x10000,
        0 <= x < 0x10000 ==> wrap16(x) == x,
        0x10000 <= x ==> wrap16(x) == x - 0x10000,
{
}

/// The flag byte's lower nibble is zero in every register state, hence after
/// any instruction.
pub proof fn lemma_flags_low_nibble(regs: Registers)
    ensures
        regs.flags_byte() & 0x0F == 0,
{
    let f = regs.flags_byte();
    assert(f % 16 == 0);
    assert(f & 0x0F == 0) by (bit_vector)
        requires
            f % 16 == 0,
    ;
}

/// Round trip through the AF pair: writing a word and reading it back yields
/// the word with the lower nibble of F masked to zero.
pub proof fn lemma_af_round_trip(regs: Registers, v: u16)
    ensures
        regs.spec_write_word(WordRegister::AF, v).spec_read_word(WordRegister::AF) == v & 0xFFF0,
{
    let w = regs.spec_write_word(WordRegister::AF, v);
    let r = w.spec_read_word(WordRegister::AF);
    assert((v / 256) % 256 == v / 256);
    assert(r == (v / 256) * 256 + ((if (v / 0x80) % 2 == 1 {
        0x80int
    } else {
        0int
    }) + (if (v / 0x40) % 2 == 1 {
        0x40int
    } else {
        0int
    }) + (if (v / 0x20) % 2 == 1 {
        0x20int
    } else {
        0int
    }) + (if (v / 0x10) % 2 == 1 {
        0x10int
    } else {
        0int
    })));
    assert((v / 256) * 256 + ((if (v / 0x80) % 2 == 1 {
        0x80int
    } else {
        0int
    }) + (if (v / 0x40) % 2 == 1 {
        0x40int
    } else {
        0int
    }) + (if (v / 0x20) % 2 == 1 {
        0x20int
    } else {
        0int
    }) + (if (v / 0x10) % 2 == 1 {
        0x10int
    } else {
        0int
    })) == v & 0xFFF0) by (bit_vector);
}

/// Round trip through BC, DE or HL: writing a word and reading it back
/// yields the word unchanged.
pub proof fn lemma_pair_round_trip(regs: Registers, reg: WordRegister, v: u16)
    requires
        reg != WordRegister::AF,
    ensures
        regs.spec_write_word(reg, v).spec_read_word(reg) == v,
{
}

} // verus!
