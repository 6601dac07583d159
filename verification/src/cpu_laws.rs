//! Laws that relate several CPU operations: the PUSH/POP duality and the
//! decimal-adjust law for BCD addition.

use vstd::prelude::*;

use crate::alu::{add8_c, add8_h, add8_res, daa_c, daa_res};
use crate::mmu::{lemma_word_round_trip, MemView};
use crate::registers::{wrap16, Registers, WordRegister};

verus! {

/// The decimal value of a two-digit BCD byte.
pub open spec fn bcd_value(a: u8) -> int {
    10 * (a / 16) + a % 16
}

/// A byte is valid BCD when both nibbles are decimal digits.
pub open spec fn is_bcd(a: u8) -> bool {
    a / 16 <= 9 && a % 16 <= 9
}

/// The BCD encoding of a value below one hundred.
pub open spec fn bcd_of(v: int) -> u8 {
    ((v / 10) * 16 + v % 10) as u8
}

/// PUSH/POP duality, on the models that `push_nn` and `pop_nn` ensure: for
/// a register pair other than AF whose stack slot lies in writable RAM,
/// pushing and then popping leaves SP unchanged and restores the pair's
/// value.
pub proof fn lemma_push_pop_duality(regs: Registers, m: MemView, pair: WordRegister)
    requires
        m.wf(),
        pair == WordRegister::BC || pair == WordRegister::DE || pair == WordRegister::HL,
        MemView::spec_writable_ram(wrap16(regs.sp - 2)),
        MemView::spec_writable_ram(wrap16(wrap16(regs.sp - 2) + 1)),
    ensures
        ({
            // PUSH: SP drops by two and the pair's word is stored there.
            let pushed_regs = (Registers { sp: wrap16(regs.sp - 2), ..regs });
            let pushed_mem = m.spec_write_word(wrap16(regs.sp - 2), regs.spec_read_word(pair));
            // POP: the stored word is read back into the pair and SP rises.
            let popped_regs = (Registers {
                sp: wrap16(pushed_regs.sp + 2),
                ..pushed_regs
            }).spec_write_word(pair, pushed_mem.spec_read_word(pushed_regs.sp));
            &&& popped_regs.sp == regs.sp
            &&& popped_regs.spec_read_word(pair) == regs.spec_read_word(pair)
            &&& popped_regs == regs
        }),
{
    let slot = wrap16(regs.sp - 2);
    let w = regs.spec_read_word(pair);
    lemma_word_round_trip(m, slot, w);
    crate::registers::lemma_wrap16_range(regs.sp - 2);
    crate::registers::lemma_wrap16_range(slot + 2);
    crate::registers::lemma_pair_round_trip(
        (Registers { sp: regs.sp, ..regs }),
        pair,
        w,
    );
}

/// DAA after ADD A,B, on the models that `add_n` and `daa` ensure: when A
/// and B hold valid BCD, the adjusted A is the BCD encoding of the decimal
/// sum modulo one hundred, and C is set exactly when the true sum reached
/// one hundred.
pub proof fn lemma_daa_bcd_add(a: u8, b: u8)
    requires
        is_bcd(a),
        is_bcd(b),
    ensures
        ({
            // The state ADD A,B leaves: the binary sum with its flags.
            let sum = add8_res(a, b, 0);
            let h = add8_h(a, b, 0);
            let c = add8_c(a, b, 0);
            // DAA reads that state with N clear.
            &&& daa_res(sum, false, h, c) == bcd_of((bcd_value(a) + bcd_value(b)) % 100)
            &&& daa_c(sum, false, h, c) == (bcd_value(a) + bcd_value(b) >= 100)
        }),
{
    let ah = a / 16;
    let al = a % 16;
    let bh = b / 16;
    let bl = b % 16;
    let dec = bcd_value(a) + bcd_value(b);
    let sum = add8_res(a, b, 0);
    let h = add8_h(a, b, 0);
    let c = add8_c(a, b, 0);

    assert(a == ah * 16 + al && b == bh * 16 + bl) by (nonlinear_arith)
        requires
            ah == a / 16 && al == a % 16 && bh == b / 16 && bl == b % 16,
    ;

    // The binary sum splits into nibble sums; the low nibble carry is the
    // half-carry flag or a decimal overflow of the low digits.
    let low = al + bl;
    let high = ah + bh;
    assert(a + b == high * 16 + low);
    assert(dec == high * 10 + low);

    // Low digit: one 0x06 adjustment realigns it to base ten.
    let low_carry: int = if low > 9 {
        1int
    } else {
        0int
    };
    let low_digit = low - 10 * low_carry;
    assert(0 <= low_digit <= 9);

    // High digit: the 0x60 adjustment realigns it, and fires exactly when
    // the decimal sum reached one hundred.
    let high2 = high + low_carry;
    assert(dec == (high2 * 10 + low_digit));
    let high_carry: int = if high2 > 9 {
        1int
    } else {
        0int
    };
    let high_digit = high2 - 10 * high_carry;
    assert(0 <= high_digit <= 9);
    assert(dec / 10 == high2 && dec % 10 == low_digit) by (nonlinear_arith)
        requires
            dec == high2 * 10 + low_digit,
            0 <= low_digit <= 9,
            0 <= high2,
    ;
    assert((dec % 100) == (high_digit * 10 + low_digit)) by (nonlinear_arith)
        requires
            dec == (high2 * 10 + low_digit),
            high2 == high_digit + 10 * high_carry,
            0 <= low_digit <= 9,
            0 <= high_digit <= 9,
            high_carry == 0 || high_carry == 1,
            high_carry == 1 ==> high2 > 9,
            high_carry == 0 ==> high2 <= 9,
    ;
    assert((dec >= 100) == (high_carry == 1)) by (nonlinear_arith)
        requires
            dec == high2 * 10 + low_digit,
            0 <= low_digit <= 9,
            high_carry == 1 <==> high2 > 9,
            0 <= high2,
    ;

    // Connect the flag conditions to the digit carries.
    assert(h == (low > 15));
    if c {
        assert(a + b > 255);
    }

    // The 0x06 condition fires exactly when the low digits overflowed ten.
    let adj_low: int = if h || sum % 16 > 9 {
        6int
    } else {
        0int
    };
    let adj_high: int = if c || sum > 0x99 {
        0x60int
    } else {
        0int
    };
    assert(sum == if a + b > 255 {
        (a + b - 256) as u8
    } else {
        (a + b) as u8
    });
    assert(sum % 16 == if low > 15 {
        low - 16
    } else {
        low
    }) by (nonlinear_arith)
        requires
            sum == (if a + b > 255 {
                (a + b - 256) as int
            } else {
                (a + b) as int
            }),
            a + b == high * 16 + low,
            0 <= low <= 18,
            0 <= high <= 18,
            0 <= sum < 256,
    ;
    assert((adj_low == 6) == (low > 9));

    // The 0x60 condition fires exactly when the decimal sum reached one
    // hundred.
    assert((adj_high == 0x60) == (high_carry == 1)) by (nonlinear_arith)
        requires
            adj_high == (if c || sum > 0x99 {
                0x60int
            } else {
                0int
            }),
            c == (a + b > 255),
            sum == (if a + b > 255 {
                (a + b - 256) as int
            } else {
                (a + b) as int
            }),
            a + b == high * 16 + low,
            high2 == high + low_carry,
            low_carry == (if low > 9 {
                1int
            } else {
                0int
            }),
            0 <= low <= 18,
            0 <= high <= 18,
            high_carry == (if high2 > 9 {
                1int
            } else {
                0int
            }),
    ;

    // Finally the adjusted byte is the BCD encoding of the decimal sum.
    assert(daa_res(sum, false, h, c) == bcd_of(dec % 100)) by (nonlinear_arith)
        requires
            daa_res(sum, false, h, c) == ((sum + adj_low + adj_high) % 256) as u8,
            sum == (if a + b > 255 {
                (a + b - 256) as int
            } else {
                (a + b) as int
            }),
            a + b == high * 16 + low,
            adj_low == 6 * low_carry,
            adj_high == 96 * high_carry,
            low_carry == (if low > 9 {
                1int
            } else {
                0int
            }),
            high2 == high + low_carry,
            high_carry == (if high2 > 9 {
                1int
            } else {
                0int
            }),
            low_digit == low - 10 * low_carry,
            high_digit == high2 - 10 * high_carry,
            dec % 100 == high_digit * 10 + low_digit,
            bcd_of(dec % 100) == ((dec % 100) / 10) * 16 + (dec % 100) % 10,
            0 <= low <= 18,
            0 <= high <= 18,
            0 <= low_digit <= 9,
            0 <= high_digit <= 9,
    ;
    assert(daa_c(sum, false, h, c) == (dec >= 100));
}

} // verus!
