//! Integer operations on 64-bit stack words.
//!
//! A word is an opaque 64-bit pattern. Unsigned instructions read it as a
//! plain binary number and signed instructions as a two's-complement number.
//! Sums, differences, products and negations wrap around; shifts use the
//! shift count modulo 64; division and remainder fault where the divisor is
//! zero or the signed quotient does not fit in a word.
//!
//! Of the two operands of an instruction, `a` is the word on top of the
//! stack and `b` the word beneath it.

use crate::instruction::Instructions;
use crate::machine::Fault;
use vstd::prelude::*;

verus! {

/// The two's-complement reading of a word.
pub open spec fn as_signed(word: u64) -> i64 {
    if word < 0x8000_0000_0000_0000 {
        word as i64
    } else {
        (word - 0x1_0000_0000_0000_0000) as i64
    }
}

/// The word that stands for `value` modulo 2^64.
pub open spec fn as_word(value: int) -> u64 {
    (value % 0x1_0000_0000_0000_0000) as u64
}

/// The word that stands for a truth value: 1 for true, 0 for false.
pub open spec fn truth(holds: bool) -> u64 {
    if holds {
        1
    } else {
        0
    }
}

/// The quotient of `x` by `d`, rounded toward zero. (In specifications `/`
/// is Euclidean, so the remainder it leaves is never negative.)
pub open spec fn truncated_quotient(x: int, d: int) -> int
    recommends
        d != 0,
{
    if x >= 0 {
        x / d
    } else {
        -((-x) / d)
    }
}

/// The remainder that goes with `truncated_quotient`; it has the sign of `x`.
pub open spec fn truncated_remainder(x: int, d: int) -> int
    recommends
        d != 0,
{
    if x >= 0 {
        x % d
    } else {
        -((-x) % d)
    }
}

/// The number of ones in the binary representation of `x`.
pub open spec fn popcount(x: nat) -> nat
    decreases x,
{
    if x == 0 {
        0
    } else {
        (x % 2) + popcount(x / 2)
    }
}

/// Whether a signed division of `x` by `d` has no result: the divisor is
/// zero, or the quotient is the one that does not fit, `-2^63 / -1`.
pub open spec fn division_faults(x: i64, d: i64) -> bool {
    d == 0 || (x == i64::MIN && d == -1)
}

/// The word that an integer instruction pushes in place of its operands,
/// or the fault that it raises. An instruction with one operand ignores `b`.
/// For an instruction of another kind the result is 0.
pub open spec fn integer_result(ins: Instructions, a: u64, b: u64) -> Result<u64, Fault>
    recommends
        ins.spec_is_integer(),
{
    let sa = as_signed(a);
    let sb = as_signed(b);
    match ins {
        Instructions::Add => Ok(as_word(sa + sb)),
        Instructions::Addu => Ok(as_word(a + b)),
        Instructions::Sub => Ok(as_word(sb - sa)),
        Instructions::Subu => Ok(as_word(b - a)),
        Instructions::Mul => Ok(as_word(sa * sb)),
        Instructions::Mulu => Ok(as_word(a * b)),
        Instructions::Div => if division_faults(sa, sb) {
            Err(Fault::Arithmetic)
        } else {
            Ok(as_word(truncated_quotient(sa as int, sb as int)))
        },
        Instructions::Divu => if b == 0 {
            Err(Fault::Arithmetic)
        } else {
            Ok(a / b)
        },
        Instructions::Mod => if division_faults(sa, sb) {
            Err(Fault::Arithmetic)
        } else {
            Ok(as_word(truncated_remainder(sa as int, sb as int)))
        },
        Instructions::Modu => if b == 0 {
            Err(Fault::Arithmetic)
        } else {
            Ok(a % b)
        },
        Instructions::Neg => Ok(as_word(-sa)),
        Instructions::Shl => Ok(a << (b % 64)),
        Instructions::Shlr => Ok(a >> (b % 64)),
        Instructions::Shar => Ok(as_word((sa >> (b % 64)) as int)),
        Instructions::PopCnt => Ok(popcount(a as nat) as u64),
        Instructions::Eq => Ok(truth(a == b)),
        Instructions::Neq => Ok(truth(a != b)),
        Instructions::Lt => Ok(truth(sa < sb)),
        Instructions::Ltu => Ok(truth(a < b)),
        Instructions::Leq => Ok(truth(sa <= sb)),
        Instructions::Lequ => Ok(truth(a <= b)),
        Instructions::Gt => Ok(truth(sa > sb)),
        Instructions::Gtu => Ok(truth(a > b)),
        Instructions::Geq => Ok(truth(sa >= sb)),
        Instructions::Gequ => Ok(truth(a >= b)),
        _ => Ok(0),
    }
}

/// A quotient is no larger in magnitude than its dividend, and smaller
/// unless the divisor is 1 or -1.
proof fn lemma_quotient_bounds(x: int, d: int)
    by (nonlinear_arith)
    requires
        x >= 0,
        d != 0,
    ensures
        -x <= x / d <= x,
        x > 0 && d != -1 ==> -x < x / d,
{
}

/// The two's-complement reading of a word.
pub fn signed_of(word: u64) -> (value: i64)
    ensures
        value == as_signed(word),
{
    let value = #[verifier::truncate] (word as i64);
    assert(word as i64 == (if word < 0x8000_0000_0000_0000u64 {
        word as int
    } else {
        word - 0x1_0000_0000_0000_0000
    })) by (bit_vector);
    value
}

/// The word whose two's-complement reading is `value`.
pub fn word_of(value: i64) -> (word: u64)
    ensures
        word == as_word(value as int),
        as_signed(word) == value,
{
    let word = #[verifier::truncate] (value as u64);
    assert(value as u64 == (if value >= 0 {
        value as int
    } else {
        value + 0x1_0000_0000_0000_0000
    })) by (bit_vector);
    word
}

/// The word that stands for a truth value.
pub fn word_of_bool(holds: bool) -> (word: u64)
    ensures
        word == truth(holds),
{
    if holds {
        1
    } else {
        0
    }
}

/// The number of ones in the binary representation of `word`.
pub fn count_ones(word: u64) -> (count: u64)
    ensures
        count == popcount(word as nat),
{
    let mut rest: u64 = word;
    let mut count: u64 = 0;
    while rest != 0
        invariant
            count + popcount(rest as nat) == popcount(word as nat),
            count + rest <= u64::MAX,
        decreases rest,
    {
        count = count + rest % 2;
        rest = rest / 2;
    }
    count
}

/// Computes the word that an integer instruction pushes in place of its
/// operands `a`, the top of the stack, and `b`, the word beneath it.
pub fn integer(ins: Instructions, a: u64, b: u64) -> (r: Result<u64, Fault>)
    ensures
        r == integer_result(ins, a, b),
{
    let sa = signed_of(a);
    let sb = signed_of(b);
    match ins {
        Instructions::Add => Ok(word_of(sa.wrapping_add(sb))),
        Instructions::Addu => Ok(a.wrapping_add(b)),
        Instructions::Sub => Ok(word_of(sb.wrapping_sub(sa))),
        Instructions::Subu => Ok(b.wrapping_sub(a)),
        Instructions::Mul => Ok(word_of(sa.wrapping_mul(sb))),
        Instructions::Mulu => Ok(a.wrapping_mul(b)),
        Instructions::Div => {
            if sb == 0 || (sa == i64::MIN && sb == -1) {
                Err(Fault::Arithmetic)
            } else {
                proof {
                    if sa >= 0 {
                        lemma_quotient_bounds(sa as int, sb as int);
                    } else {
                        lemma_quotient_bounds(-sa, sb as int);
                    }
                }
                Ok(word_of(sa / sb))
            }
        },
        Instructions::Divu => {
            if b == 0 {
                Err(Fault::Arithmetic)
            } else {
                Ok(a / b)
            }
        },
        Instructions::Mod => {
            if sb == 0 || (sa == i64::MIN && sb == -1) {
                Err(Fault::Arithmetic)
            } else {
                Ok(word_of(sa % sb))
            }
        },
        Instructions::Modu => {
            if b == 0 {
                Err(Fault::Arithmetic)
            } else {
                Ok(a % b)
            }
        },
        Instructions::Neg => Ok(word_of(0i64.wrapping_sub(sa))),
        Instructions::Shl => Ok(a << (b % 64)),
        Instructions::Shlr => Ok(a >> (b % 64)),
        Instructions::Shar => Ok(word_of(sa >> (b % 64))),
        Instructions::PopCnt => Ok(count_ones(a)),
        Instructions::Eq => Ok(word_of_bool(a == b)),
        Instructions::Neq => Ok(word_of_bool(a != b)),
        Instructions::Lt => Ok(word_of_bool(sa < sb)),
        Instructions::Ltu => Ok(word_of_bool(a < b)),
        Instructions::Leq => Ok(word_of_bool(sa <= sb)),
        Instructions::Lequ => Ok(word_of_bool(a <= b)),
        Instructions::Gt => Ok(word_of_bool(sa > sb)),
        Instructions::Gtu => Ok(word_of_bool(a > b)),
        Instructions::Geq => Ok(word_of_bool(sa >= sb)),
        Instructions::Gequ => Ok(word_of_bool(a >= b)),
        _ => Ok(0),
    }
}

} // verus!
