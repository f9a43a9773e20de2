use vstd::arithmetic::power2::{lemma2_to64, pow2};
use vstd::bits::lemma_u8_shr_is_div;
use vstd::prelude::*;

verus! {

/// Width of a register in bits.
pub const WORD_BITS: u8 = 8;

/// An operation of the arithmetic/logic unit.
///
/// The unit is stateless: each operation maps the byte held by the left
/// operand and the resolved right operand to the byte that replaces the left
/// operand. Nothing overflows; sums and differences wrap modulo 256.
#[derive(Clone, Copy, Debug, PartialEq, Eq, Structural)]
pub enum AluOp {
    /// Sum modulo 256.
    Add,
    /// Difference modulo 256.
    Subtract,
    /// Left shift by the right operand; bits shifted out are lost.
    ShiftLeft,
    /// Logical right shift by the right operand.
    ShiftRight,
    /// Bitwise and.
    And,
    /// Bitwise or.
    Or,
    /// Bitwise exclusive or.
    Xor,
}

/// `left + right` modulo 256.
pub open spec fn wrapping_sum(left: u8, right: u8) -> u8 {
    ((left + right) % 256) as u8
}

/// `left - right` modulo 256.
pub open spec fn wrapping_difference(left: u8, right: u8) -> u8 {
    ((left - right) % 256) as u8
}

impl AluOp {
    /// The result of the operation.
    ///
    /// A shift by the register width or more moves every bit out of the
    /// byte and yields zero; the shift amount is never reduced modulo the
    /// width.
    pub open spec fn spec_apply(self, left: u8, right: u8) -> u8 {
        match self {
            AluOp::Add => wrapping_sum(left, right),
            AluOp::Subtract => wrapping_difference(left, right),
            AluOp::ShiftLeft => if right >= WORD_BITS {
                0
            } else {
                left << right
            },
            AluOp::ShiftRight => if right >= WORD_BITS {
                0
            } else {
                left >> right
            },
            AluOp::And => left & right,
            AluOp::Or => left | right,
            AluOp::Xor => left ^ right,
        }
    }

    /// Computes the operation on two bytes.
    pub fn apply(self, left: u8, right: u8) -> (result: u8)
        ensures
            result == self.spec_apply(left, right),
    {
        match self {
            AluOp::Add => left.wrapping_add(right),
            AluOp::Subtract => left.wrapping_sub(right),
            AluOp::ShiftLeft => if right >= WORD_BITS {
                0
            } else {
                left << right
            },
            AluOp::ShiftRight => if right >= WORD_BITS {
                0
            } else {
                left >> right
            },
            AluOp::And => left & right,
            AluOp::Or => left | right,
            AluOp::Xor => left ^ right,
        }
    }
}

/// Whether bit `index` of `value` is set; bit 0 is the least significant.
pub open spec fn spec_bit(value: u8, index: u8) -> bool {
    index < WORD_BITS && (value >> index) & 1 == 1
}

/// Tests one bit of a byte.
pub fn bit(value: u8, index: u8) -> (set: bool)
    ensures
        set == spec_bit(value, index),
{
    index < WORD_BITS && (value >> index) & 1 == 1
}

/// Sums and differences wrap modulo 256, and a shift by eight or more
/// positions leaves nothing of the left operand.
pub proof fn lemma_arithmetic_wraps(left: u8, right: u8)
    ensures
        AluOp::Add.spec_apply(left, right) == (left + right) % 256,
        AluOp::Subtract.spec_apply(left, right) == (left - right) % 256,
        right >= 8 ==> AluOp::ShiftLeft.spec_apply(left, right) == 0,
        right >= 8 ==> AluOp::ShiftRight.spec_apply(left, right) == 0,
{
}

/// Subtraction undoes addition: `(left + right) - right` is `left` again.
pub proof fn lemma_subtract_inverts_add(left: u8, right: u8)
    ensures
        AluOp::Subtract.spec_apply(AluOp::Add.spec_apply(left, right), right) == left,
        AluOp::Add.spec_apply(AluOp::Subtract.spec_apply(left, right), right) == left,
{
}

/// A shift by fewer than eight positions multiplies or divides by a power of
/// two: to the left modulo 256, to the right rounding down.
pub proof fn lemma_shift_is_scaling(left: u8, amount: u8)
    requires
        amount < 8,
    ensures
        AluOp::ShiftLeft.spec_apply(left, amount) == (left * pow2(amount as nat)) % 256,
        AluOp::ShiftRight.spec_apply(left, amount) == (left as nat) / pow2(amount as nat),
{
    lemma2_to64();
    lemma_shift_left_by_constant(left);
    lemma_u8_shr_is_div(left, amount);
}

proof fn lemma_shift_left_by_constant(v: u8)
    by (bit_vector)
    ensures
        ({
        &&& (v << 0u8) as int == ((v as int) * 1) % 256
        &&& (v << 1u8) as int == ((v as int) * 2) % 256
        &&& (v << 2u8) as int == ((v as int) * 4) % 256
        &&& (v << 3u8) as int == ((v as int) * 8) % 256
        &&& (v << 4u8) as int == ((v as int) * 16) % 256
        &&& (v << 5u8) as int == ((v as int) * 32) % 256
        &&& (v << 6u8) as int == ((v as int) * 64) % 256
        &&& (v << 7u8) as int == ((v as int) * 128) % 256
        }),
{
}

/// The bitwise operations act on each bit position independently: bit
/// `index` of the result is the conjunction, disjunction or exclusive
/// disjunction of bit `index` of the operands.
pub proof fn lemma_bitwise_is_per_bit(left: u8, right: u8, index: u8)
    ensures
        spec_bit(AluOp::And.spec_apply(left, right), index) == (spec_bit(left, index) && spec_bit(
            right,
            index,
        )),
        spec_bit(AluOp::Or.spec_apply(left, right), index) == (spec_bit(left, index) || spec_bit(
            right,
            index,
        )),
        spec_bit(AluOp::Xor.spec_apply(left, right), index) == (spec_bit(left, index) != spec_bit(
            right,
            index,
        )),
{
    if index < 8 {
        assert(((left & right) >> index) & 1 == 1 <==> ((left >> index) & 1 == 1 && (right >> index)
            & 1 == 1)) by (bit_vector)
            requires
                index < 8,
        ;
        assert(((left | right) >> index) & 1 == 1 <==> ((left >> index) & 1 == 1 || (right >> index)
            & 1 == 1)) by (bit_vector)
            requires
                index < 8,
        ;
        assert(((left ^ right) >> index) & 1 == 1 <==> !((left >> index) & 1 == 1 <==> (right
            >> index) & 1 == 1)) by (bit_vector)
            requires
                index < 8,
        ;
    }
}

} // verus!
