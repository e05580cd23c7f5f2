//! Pure arithmetic and shift/rotate primitives with their exact flag
//! semantics: zero from the result, negative when the operation subtracts,
//! half-carry out of bit 3 (bit 11 for the 16-bit add), carry out of bit 7
//! (bit 15 for the 16-bit add).

use vstd::prelude::*;

use crate::util::spec_swap_nibbles;
use crate::util::Twiddling;

verus! {

/// The arithmetic/logical operations that work into the accumulator.
#[derive(Clone, Copy, Debug, PartialEq, Eq, Structural)]
pub enum AluOp {
    Add,
    Adc,
    Sub,
    Sbc,
    And,
    Xor,
    Or,
    Cp,
}

/// The eight one-bit shift and rotate families of the prefix-escape
/// space.
#[derive(Clone, Copy, Debug, PartialEq, Eq, Structural)]
pub enum ShiftKind {
    Rlc,
    Rrc,
    Rl,
    Rr,
    Sla,
    Sra,
    Swap,
    Srl,
}

/// 8-bit addition with optional carry-in: the wrapped sum, then the
/// zero, negative, half-carry and carry flags.
pub open spec fn spec_add8(a: u8, d: u8, carry_in: bool) -> (u8, bool, bool, bool, bool) {
    let c: u8 = if carry_in {
        1
    } else {
        0
    };
    let r = a.wrapping_add(d).wrapping_add(c);
    (r, r == 0, false, a % 16 + d % 16 + c > 15, a + d + c > 255)
}

/// 8-bit subtraction with optional borrow-in: the wrapped difference,
/// then the zero, negative, half-carry (borrow from bit 4) and carry
/// (full borrow) flags.
pub open spec fn spec_sub8(a: u8, d: u8, borrow_in: bool) -> (u8, bool, bool, bool, bool) {
    let b: u8 = if borrow_in {
        1
    } else {
        0
    };
    let r = a.wrapping_sub(d).wrapping_sub(b);
    (r, r == 0, true, (a % 16) < d % 16 + b, (a as int) < d + b)
}

/// One accumulator operation: the new accumulator value (unchanged for a
/// compare), then the zero, negative, half-carry and carry flags.
pub open spec fn spec_alu8(op: AluOp, a: u8, d: u8, carry_in: bool) -> (
    u8,
    bool,
    bool,
    bool,
    bool,
) {
    match op {
        AluOp::Add => spec_add8(a, d, false),
        AluOp::Adc => spec_add8(a, d, carry_in),
        AluOp::Sub => spec_sub8(a, d, false),
        AluOp::Sbc => spec_sub8(a, d, carry_in),
        AluOp::And => ((a & d), (a & d) == 0, false, false, false),
        AluOp::Xor => ((a ^ d), (a ^ d) == 0, false, false, false),
        AluOp::Or => ((a | d), (a | d) == 0, false, false, false),
        AluOp::Cp => {
            let t = spec_sub8(a, d, false);
            (a, t.1, t.2, t.3, t.4)
        },
    }
}

/// Run one accumulator operation. A compare leaves the accumulator value
/// in the result slot untouched and only computes flags.
pub fn alu8(op: AluOp, a: u8, d: u8, carry_in: bool) -> (r: (u8, bool, bool, bool, bool))
    ensures
        r == spec_alu8(op, a, d, carry_in),
{
    match op {
        AluOp::Add | AluOp::Adc => {
            let c: u8 = if matches!(op, AluOp::Adc) && carry_in {
                1
            } else {
                0
            };
            let r = a.wrapping_add(d).wrapping_add(c);
            let h = a % 16 + d % 16 + c > 15;
            let cy = (a as u16) + (d as u16) + (c as u16) > 255;
            (r, r == 0, false, h, cy)
        },
        AluOp::Sub | AluOp::Sbc | AluOp::Cp => {
            let b: u8 = if matches!(op, AluOp::Sbc) && carry_in {
                1
            } else {
                0
            };
            let r = a.wrapping_sub(d).wrapping_sub(b);
            let h = (a % 16) < d % 16 + b;
            let cy = (a as u16) < (d as u16) + (b as u16);
            let out = if matches!(op, AluOp::Cp) {
                a
            } else {
                r
            };
            (out, r == 0, true, h, cy)
        },
        AluOp::And => {
            let r = a & d;
            (r, r == 0, false, false, false)
        },
        AluOp::Xor => {
            let r = a ^ d;
            (r, r == 0, false, false, false)
        },
        AluOp::Or => {
            let r = a | d;
            (r, r == 0, false, false, false)
        },
    }
}

/// 16-bit addition: the wrapped sum, half-carry out of bit 11, and carry
/// out of bit 15.
pub open spec fn spec_add16(x: u16, y: u16) -> (u16, bool, bool) {
    (x.wrapping_add(y), x % 4096 + y % 4096 > 4095, x + y > 65535)
}

/// Add two 16-bit values, wrapping, with the 16-bit flag rules.
pub fn add16(x: u16, y: u16) -> (r: (u16, bool, bool))
    ensures
        r == spec_add16(x, y),
{
    let s = x.wrapping_add(y);
    let h = x % 4096 + y % 4096 > 4095;
    let c = (x as u32) + (y as u32) > 65535;
    (s, h, c)
}

/// A signed 8-bit displacement widened to the 16-bit value that, added
/// with wraparound, moves by that displacement.
pub open spec fn spec_sign_ext(d: u8) -> u16 {
    if d < 128 {
        d as u16
    } else {
        (d + 0xFF00) as u16
    }
}

/// Widen a signed 8-bit displacement for wrapping 16-bit addition.
pub fn sign_ext(d: u8) -> (r: u16)
    ensures
        r == spec_sign_ext(d),
{
    if d < 128 {
        d as u16
    } else {
        (d as u16) + 0xFF00
    }
}

/// One shift or rotate step: the shifted byte and the bit that fell out,
/// which becomes the new carry. A nibble swap drops no bit and always
/// clears carry.
pub open spec fn spec_shift(kind: ShiftKind, v: u8, carry_in: bool) -> (u8, bool) {
    let cin: u8 = if carry_in {
        1
    } else {
        0
    };
    match kind {
        ShiftKind::Rlc => (((v % 128) * 2 + v / 128) as u8, v / 128 == 1),
        ShiftKind::Rrc => ((v / 2 + (v % 2) * 128) as u8, v % 2 == 1),
        ShiftKind::Rl => (((v % 128) * 2 + cin) as u8, v / 128 == 1),
        ShiftKind::Rr => ((v / 2 + cin * 128) as u8, v % 2 == 1),
        ShiftKind::Sla => (((v % 128) * 2) as u8, v / 128 == 1),
        ShiftKind::Sra => ((v / 2 + (v / 128) * 128) as u8, v % 2 == 1),
        ShiftKind::Swap => (spec_swap_nibbles(v), false),
        ShiftKind::Srl => (v / 2, v % 2 == 1),
    }
}

/// Run one shift or rotate step. The through-carry rotates take the old
/// carry as the bit shifted in.
pub fn shift(kind: ShiftKind, v: u8, carry_in: bool) -> (r: (u8, bool))
    ensures
        r == spec_shift(kind, v, carry_in),
{
    let cin: u8 = if carry_in {
        1
    } else {
        0
    };
    match kind {
        ShiftKind::Rlc => ((v % 128) * 2 + v / 128, v / 128 == 1),
        ShiftKind::Rrc => (v / 2 + (v % 2) * 128, v % 2 == 1),
        ShiftKind::Rl => ((v % 128) * 2 + cin, v / 128 == 1),
        ShiftKind::Rr => (v / 2 + cin * 128, v % 2 == 1),
        ShiftKind::Sla => ((v % 128) * 2, v / 128 == 1),
        ShiftKind::Sra => (v / 2 + (v / 128) * 128, v % 2 == 1),
        ShiftKind::Swap => {
            let mut x = v;
            x.swap_nibbles();
            (x, false)
        },
        ShiftKind::Srl => (v / 2, v % 2 == 1),
    }
}

/// The binary-coded-decimal correction: the corrected accumulator and
/// the new carry flag. The correction adds 0x06 when half-carry is set
/// or, outside subtraction, the low nibble exceeds 9; it adds 0x60 when
/// carry is set or, outside subtraction, the accumulator exceeds 0x99.
/// The correction is added after an addition and subtracted after a
/// subtraction, and carry is set when the correction reached 0x60.
pub open spec fn spec_daa(a: u8, neg: bool, half: bool, carry: bool) -> (u8, bool) {
    let low: u8 = if half || (!neg && a % 16 > 9) {
        0x06
    } else {
        0
    };
    let high: u8 = if carry || (!neg && a > 0x99) {
        0x60
    } else {
        0
    };
    let adjust = (low + high) as u8;
    let a2 = if !neg {
        a.wrapping_add(adjust)
    } else {
        a.wrapping_sub(adjust)
    };
    (a2, carry || adjust >= 0x60)
}

/// Run the binary-coded-decimal correction on an accumulator value.
pub fn daa(a: u8, neg: bool, half: bool, carry: bool) -> (r: (u8, bool))
    ensures
        r == spec_daa(a, neg, half, carry),
{
    let low: u8 = if half || (!neg && a % 16 > 9) {
        0x06
    } else {
        0
    };
    let high: u8 = if carry || (!neg && a > 0x99) {
        0x60
    } else {
        0
    };
    let adjust = low + high;
    let a2 = if !neg {
        a.wrapping_add(adjust)
    } else {
        a.wrapping_sub(adjust)
    };
    (a2, carry || adjust >= 0x60)
}

} // verus!
