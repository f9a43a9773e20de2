use crate::alu::wrapping_difference;
use vstd::prelude::*;

verus! {

/// Smallest condition-register value that stands for a negative difference:
/// the values from here up have their sign bit set.
pub const SIGN_THRESHOLD: u8 = 128;

/// The predicate of a branch instruction.
///
/// A predicate looks at the condition register alone. The register holds a
/// difference modulo 256, read as a two's-complement number: values below 128
/// are non-negative, values from 128 up are negative.
#[derive(Clone, Copy, Debug, PartialEq, Eq, Structural)]
pub enum Condition {
    /// Holds whatever the condition register holds.
    Always,
    /// Holds when the condition register is zero.
    Equal,
    /// Holds when the condition register is not zero.
    NotEqual,
    /// Holds when the sign bit of the condition register is clear. This
    /// includes zero: after a comparison of equal operands both `Equal` and
    /// `Greater` hold.
    Greater,
    /// Holds when the sign bit of the condition register is set.
    Less,
}

impl Condition {
    /// Whether the predicate holds of the condition register value `cr`.
    pub open spec fn spec_holds(self, cr: u8) -> bool {
        match self {
            Condition::Always => true,
            Condition::Equal => cr == 0,
            Condition::NotEqual => cr != 0,
            Condition::Greater => cr < SIGN_THRESHOLD,
            Condition::Less => cr >= SIGN_THRESHOLD,
        }
    }

    /// Evaluates the predicate.
    pub fn holds(self, cr: u8) -> (taken: bool)
        ensures
            taken == self.spec_holds(cr),
    {
        match self {
            Condition::Always => true,
            Condition::Equal => cr == 0,
            Condition::NotEqual => cr != 0,
            Condition::Greater => cr < SIGN_THRESHOLD,
            Condition::Less => cr >= SIGN_THRESHOLD,
        }
    }
}

/// The value a comparison leaves in the condition register: `left - right`
/// modulo 256.
pub open spec fn spec_compare(left: u8, right: u8) -> u8 {
    wrapping_difference(left, right)
}

/// Compares two bytes.
pub fn compare(left: u8, right: u8) -> (cr: u8)
    ensures
        cr == spec_compare(left, right),
{
    left.wrapping_sub(right)
}

/// The target of a branch: `target` where the predicate holds of `cr`, and
/// the address of the following instruction, `fallthrough`, where it does
/// not.
pub open spec fn spec_branch_target(condition: Condition, cr: u8, target: u8, fallthrough: u8) -> u8 {
    if condition.spec_holds(cr) {
        target
    } else {
        fallthrough
    }
}

/// Picks the program counter that a branch instruction leaves behind.
pub fn branch_target(condition: Condition, cr: u8, target: u8, fallthrough: u8) -> (pc: u8)
    ensures
        pc == spec_branch_target(condition, cr, target, fallthrough),
{
    if condition.holds(cr) {
        target
    } else {
        fallthrough
    }
}

/// After a comparison, `Equal` holds exactly when the operands were equal,
/// `NotEqual` exactly when they differed, and exactly one of `Greater` and
/// `Less` holds.
pub proof fn lemma_compare_then_branch(left: u8, right: u8)
    ensures
        Condition::Equal.spec_holds(spec_compare(left, right)) <==> left == right,
        Condition::NotEqual.spec_holds(spec_compare(left, right)) <==> left != right,
        Condition::Greater.spec_holds(spec_compare(left, right)) != Condition::Less.spec_holds(
            spec_compare(left, right),
        ),
        left == right ==> Condition::Greater.spec_holds(spec_compare(left, right)),
{
}

/// `Greater` and `Less` read the sign of the difference, not the order of
/// the operands: `Greater` holds after a comparison exactly when
/// `left - right` lies in `0..128` or in `-256..-128`.
pub proof fn lemma_greater_reads_the_sign(left: u8, right: u8)
    ensures
        Condition::Greater.spec_holds(spec_compare(left, right)) <==> (0 <= left - right < 128
            || left - right < -128),
        Condition::Less.spec_holds(spec_compare(left, right)) <==> (128 <= left - right || -128
            <= left - right < 0),
{
}

} // verus!
