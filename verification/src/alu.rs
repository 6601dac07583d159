//! Arithmetic and flag semantics of the 8-bit and 16-bit ALU operations, as
//! mathematical functions.  The instruction contracts in the `cpu_*` modules
//! are stated over these.
//!
//! Half-carry and carry conditions are written with `%` and `/`: the low
//! nibble of a byte is `x % 16`, its high bit `x / 128`, so for example the
//! half-carry of an addition, a carry out of bit 3, is
//! `a % 16 + b % 16 + carry > 15`.

use vstd::prelude::*;

use crate::registers::{wrap16, wrap8, Registers};

verus! {

/// A carry flag as the 0-or-1 summand of ADC and SBC.
pub open spec fn carry_in(carry: bool) -> u8 {
    if carry {
        1
    } else {
        0
    }
}

/// ADD/ADC result: A + operand + carry-in, truncated to 8 bits.
pub open spec fn add8_res(a: u8, b: u8, cin: u8) -> u8 {
    wrap8(a + b + cin)
}

/// ADD/ADC half-carry: carry out of bit 3.
pub open spec fn add8_h(a: u8, b: u8, cin: u8) -> bool {
    a % 16 + b % 16 + cin > 15
}

/// ADD/ADC carry: carry out of bit 7.
pub open spec fn add8_c(a: u8, b: u8, cin: u8) -> bool {
    a + b + cin > 255
}

/// SUB/SBC/CP result: A - operand - carry-in, truncated to 8 bits.
pub open spec fn sub8_res(a: u8, b: u8, cin: u8) -> u8 {
    wrap8(a - b - cin)
}

/// SUB/SBC/CP half-carry: borrow into bit 3.
pub open spec fn sub8_h(a: u8, b: u8, cin: u8) -> bool {
    a % 16 < b % 16 + cin
}

/// SUB/SBC/CP carry: borrow into bit 7.
pub open spec fn sub8_c(a: u8, b: u8, cin: u8) -> bool {
    a < b + cin
}

/// ADD HL,rr result.
pub open spec fn add16_res(a: u16, b: u16) -> u16 {
    wrap16(a + b)
}

/// ADD HL,rr half-carry: carry out of bit 11.
pub open spec fn add16_h(a: u16, b: u16) -> bool {
    a % 0x1000 + b % 0x1000 > 0xFFF
}

/// ADD HL,rr carry: carry out of bit 15.
pub open spec fn add16_c(a: u16, b: u16) -> bool {
    a + b > 0xFFFF
}

/// A 16-bit base plus a sign-extended 8-bit offset, modulo 2^16; the
/// addressing of JR, ADD SP and LD HL,SP+n.
pub open spec fn signed_offset(base: u16, e: u8) -> u16 {
    if e < 128 {
        wrap16(base + e)
    } else {
        wrap16(base + e - 256)
    }
}

/// Half-carry of ADD SP,n and LD HL,SP+n: 8-bit unsigned addition semantics
/// on the low byte.
pub open spec fn sp_offset_h(sp: u16, e: u8) -> bool {
    sp % 16 + e % 16 > 15
}

/// Carry of ADD SP,n and LD HL,SP+n: 8-bit unsigned addition semantics on
/// the low byte.
pub open spec fn sp_offset_c(sp: u16, e: u8) -> bool {
    sp % 256 + e > 255
}

/// SWAP: the high and low nibbles exchanged.
pub open spec fn swap_res(v: u8) -> u8 {
    ((v % 16) * 16 + v / 16) as u8
}

/// RLC: rotate left, bit 7 into bit 0.
pub open spec fn rlc_res(v: u8) -> u8 {
    ((v % 128) * 2 + v / 128) as u8
}

/// RL: rotate left through carry.
pub open spec fn rl_res(v: u8, carry: bool) -> u8 {
    ((v % 128) * 2 + carry_in(carry)) as u8
}

/// RRC: rotate right, bit 0 into bit 7.
pub open spec fn rrc_res(v: u8) -> u8 {
    (v / 2 + (v % 2) * 128) as u8
}

/// RR: rotate right through carry.
pub open spec fn rr_res(v: u8, carry: bool) -> u8 {
    (v / 2 + carry_in(carry) * 128) as u8
}

/// SLA: shift left, bit 0 cleared.
pub open spec fn sla_res(v: u8) -> u8 {
    ((v % 128) * 2) as u8
}

/// SRA: shift right, bit 7 kept.
pub open spec fn sra_res(v: u8) -> u8 {
    (v / 2 + (v / 128) * 128) as u8
}

/// SRL: shift right, bit 7 cleared.
pub open spec fn srl_res(v: u8) -> u8 {
    v / 2
}

/// The DAA adjustment after an addition (N clear): 0x06 when the low nibble
/// overflowed decimal range, 0x60 when the byte did.
pub open spec fn daa_add_adjust(a: u8, h: bool, c: bool) -> u8 {
    ((if h || a % 16 > 9 {
        6int
    } else {
        0int
    }) + (if c || a > 0x99 {
        0x60int
    } else {
        0int
    })) as u8
}

/// DAA result: after an addition the adjustment is added, after a
/// subtraction (N set) it is subtracted, driven by the H and C flags alone.
pub open spec fn daa_res(a: u8, n: bool, h: bool, c: bool) -> u8 {
    if n {
        wrap8(a - (if c {
            0x60int
        } else {
            0int
        }) - (if h {
            6int
        } else {
            0int
        }))
    } else {
        wrap8(a + daa_add_adjust(a, h, c))
    }
}

/// DAA carry: set when a 0x60 adjustment is or was due.
pub open spec fn daa_c(a: u8, n: bool, h: bool, c: bool) -> bool {
    if n {
        c
    } else {
        c || a > 0x99
    }
}

/// The registers after an ADD/ADC into A.
pub open spec fn alu_add_regs(r: Registers, v: u8, cin: u8) -> Registers {
    Registers {
        a: add8_res(r.a, v, cin),
        zero: add8_res(r.a, v, cin) == 0,
        sub: false,
        half_carry: add8_h(r.a, v, cin),
        carry: add8_c(r.a, v, cin),
        ..r
    }
}

/// The registers after a SUB/SBC from A.
pub open spec fn alu_sub_regs(r: Registers, v: u8, cin: u8) -> Registers {
    Registers {
        a: sub8_res(r.a, v, cin),
        zero: sub8_res(r.a, v, cin) == 0,
        sub: true,
        half_carry: sub8_h(r.a, v, cin),
        carry: sub8_c(r.a, v, cin),
        ..r
    }
}

/// The registers after a CP: the flags of the subtraction, A kept.
pub open spec fn alu_cp_regs(r: Registers, v: u8) -> Registers {
    Registers {
        zero: sub8_res(r.a, v, 0) == 0,
        sub: true,
        half_carry: sub8_h(r.a, v, 0),
        carry: sub8_c(r.a, v, 0),
        ..r
    }
}

/// The registers after an AND into A: H set, C cleared.
pub open spec fn alu_and_regs(r: Registers, v: u8) -> Registers {
    Registers {
        a: (r.a & v),
        zero: (r.a & v) == 0,
        sub: false,
        half_carry: true,
        carry: false,
        ..r
    }
}

/// The registers after an OR into A.
pub open spec fn alu_or_regs(r: Registers, v: u8) -> Registers {
    Registers {
        a: (r.a | v),
        zero: (r.a | v) == 0,
        sub: false,
        half_carry: false,
        carry: false,
        ..r
    }
}

/// The registers after a XOR into A.
pub open spec fn alu_xor_regs(r: Registers, v: u8) -> Registers {
    Registers {
        a: (r.a ^ v),
        zero: (r.a ^ v) == 0,
        sub: false,
        half_carry: false,
        carry: false,
        ..r
    }
}

/// The flags of an 8-bit increment: C untouched.
pub open spec fn inc8_flags(r: Registers, v: u8) -> Registers {
    Registers {
        zero: wrap8(v + 1) == 0,
        sub: false,
        half_carry: v % 16 == 15,
        ..r
    }
}

/// The flags of an 8-bit decrement: C untouched.
pub open spec fn dec8_flags(r: Registers, v: u8) -> Registers {
    Registers {
        zero: wrap8(v - 1) == 0,
        sub: true,
        half_carry: v % 16 == 0,
        ..r
    }
}

/// The registers after a DAA.
pub open spec fn alu_daa_regs(r: Registers) -> Registers {
    Registers {
        a: daa_res(r.a, r.sub, r.half_carry, r.carry),
        zero: daa_res(r.a, r.sub, r.half_carry, r.carry) == 0,
        half_carry: false,
        carry: daa_c(r.a, r.sub, r.half_carry, r.carry),
        ..r
    }
}

/// The flags of a CB-space rotate or shift: Z from the result, N and H
/// cleared, C the bit rotated or shifted out.
pub open spec fn rot_flags(r: Registers, res: u8, carry_out: bool) -> Registers {
    Registers { zero: res == 0, sub: false, half_carry: false, carry: carry_out, ..r }
}

/// The flags of the accumulator rotates RLCA/RLA/RRCA/RRA: in this core Z is
/// cleared by convention.
pub open spec fn rot_a_flags(r: Registers, carry_out: bool) -> Registers {
    Registers { zero: false, sub: false, half_carry: false, carry: carry_out, ..r }
}

} // verus!
