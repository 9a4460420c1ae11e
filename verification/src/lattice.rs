//! The seven-valued sign lattice.
//!
//! An abstract value summarizes the possible signs an integer variable may
//! hold: `Bottom` (no value seen yet), the strict signs `Lower` (negative),
//! `Zero`, and `Greater` (positive), the widened signs `LowerEqual`
//! (non-positive) and `GreaterEqual` (non-negative), and `Top` (unknown).
//! Besides the lattice operations, this module defines the transfer functions
//! for arithmetic, negation, and conditional refinement, and proves the join
//! laws every sign lattice must satisfy.

use crate::cfg::{BinOp, Const, UnOp, VarType};
use vstd::prelude::*;

verus! {

/// One element of the seven-valued sign lattice.
#[derive(Clone, Copy, Debug, PartialEq, Eq, Structural)]
pub enum SignAnalysis {
    Top,
    Bottom,
    Lower,
    LowerEqual,
    Zero,
    Greater,
    GreaterEqual,
}

/// Whether a value is one of the three non-`Bottom` values at or below
/// `GreaterEqual`: the family the join and addition tables treat as
/// non-negative.
pub open spec fn below_ge(a: SignAnalysis) -> bool {
    a == SignAnalysis::Zero || a == SignAnalysis::Greater || a == SignAnalysis::GreaterEqual
}

/// Whether a value is one of the three non-`Bottom` values at or below
/// `LowerEqual`: the family the join and addition tables treat as
/// non-positive.
pub open spec fn below_le(a: SignAnalysis) -> bool {
    a == SignAnalysis::Zero || a == SignAnalysis::Lower || a == SignAnalysis::LowerEqual
}

/// The least upper bound of two abstract values: equal operands return that
/// operand, `Top` absorbs, `Bottom` is the identity, distinct values of the
/// non-negative family meet in `GreaterEqual` (mirrored for the non-positive
/// family), and all other distinct pairs go to `Top`.
pub open spec fn spec_join(a: SignAnalysis, b: SignAnalysis) -> SignAnalysis {
    if a == b {
        a
    } else if a == SignAnalysis::Top || b == SignAnalysis::Top {
        SignAnalysis::Top
    } else if a == SignAnalysis::Bottom {
        b
    } else if b == SignAnalysis::Bottom {
        a
    } else if below_ge(a) && below_ge(b) {
        SignAnalysis::GreaterEqual
    } else if below_le(a) && below_le(b) {
        SignAnalysis::LowerEqual
    } else {
        SignAnalysis::Top
    }
}

/// The lattice order: `a` is at or below `b` when joining adds nothing.
pub open spec fn le(a: SignAnalysis, b: SignAnalysis) -> bool {
    spec_join(a, b) == b
}

/// The height of a value inside the lattice: `Bottom` sits at 0, the strict
/// signs at 1, the widened signs at 2, `Top` at 3. Strictly increasing along
/// the lattice order; it bounds how often a stored value can still grow.
pub open spec fn rank(a: SignAnalysis) -> nat {
    match a {
        SignAnalysis::Bottom => 0,
        SignAnalysis::Lower => 1,
        SignAnalysis::Zero => 1,
        SignAnalysis::Greater => 1,
        SignAnalysis::LowerEqual => 2,
        SignAnalysis::GreaterEqual => 2,
        SignAnalysis::Top => 3,
    }
}

/// The abstraction of a constant: negative integers go to `Lower`, zero to
/// `Zero`, positive integers to `Greater`, and unrecognized constants to `Top`.
pub open spec fn spec_alpha(c: Const) -> SignAnalysis {
    match c {
        Const::Int(x) => if x < 0 {
            SignAnalysis::Lower
        } else if x > 0 {
            SignAnalysis::Greater
        } else {
            SignAnalysis::Zero
        },
        Const::Other => SignAnalysis::Top,
    }
}

/// The sign of a sum. Two values of the non-negative family add to the least
/// family member covering both (strict wins over widened over zero); mirrored
/// for the non-positive family; every other combination is unknown.
pub open spec fn spec_flow_add(a: SignAnalysis, b: SignAnalysis) -> SignAnalysis {
    if below_ge(a) && below_ge(b) {
        if a == SignAnalysis::Greater || b == SignAnalysis::Greater {
            SignAnalysis::Greater
        } else if a == SignAnalysis::GreaterEqual || b == SignAnalysis::GreaterEqual {
            SignAnalysis::GreaterEqual
        } else {
            SignAnalysis::Zero
        }
    } else if below_le(a) && below_le(b) {
        if a == SignAnalysis::Lower || b == SignAnalysis::Lower {
            SignAnalysis::Lower
        } else if a == SignAnalysis::LowerEqual || b == SignAnalysis::LowerEqual {
            SignAnalysis::LowerEqual
        } else {
            SignAnalysis::Zero
        }
    } else {
        SignAnalysis::Top
    }
}

/// The sign a value flows to under negation: zero stays, the strict and
/// widened signs flip, anything else is unknown.
pub open spec fn spec_neg(a: SignAnalysis) -> SignAnalysis {
    if a == SignAnalysis::Zero {
        SignAnalysis::Zero
    } else if a == SignAnalysis::Greater {
        SignAnalysis::Lower
    } else if a == SignAnalysis::Lower {
        SignAnalysis::Greater
    } else if a == SignAnalysis::GreaterEqual {
        SignAnalysis::LowerEqual
    } else if a == SignAnalysis::LowerEqual {
        SignAnalysis::GreaterEqual
    } else {
        SignAnalysis::Top
    }
}

/// The sign of a difference: addition with the second operand's sign negated.
pub open spec fn spec_flow_sub(a: SignAnalysis, b: SignAnalysis) -> SignAnalysis {
    spec_flow_add(a, spec_neg(b))
}

/// The sign of a product: zero absorbs, equal strict signs give `Greater`,
/// opposite strict signs give `Lower`, and two operands of the same widened
/// family (at least one of them widened) give `GreaterEqual` — the product of
/// two non-negative, or of two non-positive, operands is non-negative.
pub open spec fn spec_flow_mul(a: SignAnalysis, b: SignAnalysis) -> SignAnalysis {
    if a == SignAnalysis::Zero || b == SignAnalysis::Zero {
        SignAnalysis::Zero
    } else if (a == SignAnalysis::Greater && b == SignAnalysis::Greater) || (a
        == SignAnalysis::Lower && b == SignAnalysis::Lower) {
        SignAnalysis::Greater
    } else if (a == SignAnalysis::Greater && b == SignAnalysis::Lower) || (a == SignAnalysis::Lower
        && b == SignAnalysis::Greater) {
        SignAnalysis::Lower
    } else if ((a == SignAnalysis::GreaterEqual || a == SignAnalysis::Greater) && (b
        == SignAnalysis::GreaterEqual || b == SignAnalysis::Greater)) || ((a
        == SignAnalysis::LowerEqual || a == SignAnalysis::Lower) && (b == SignAnalysis::LowerEqual
        || b == SignAnalysis::Lower)) {
        SignAnalysis::GreaterEqual
    } else {
        SignAnalysis::Top
    }
}

/// The sign of a quotient: a zero numerator stays zero, anything else is not
/// tracked further.
pub open spec fn spec_flow_div(a: SignAnalysis, b: SignAnalysis) -> SignAnalysis {
    if a == SignAnalysis::Zero {
        SignAnalysis::Zero
    } else {
        SignAnalysis::Top
    }
}

/// The sign a binary operation flows to. Remainder keeps the first operand's
/// sign exactly, matching truncating-toward-zero remainder semantics;
/// operators without a rule flow to `Top`.
pub open spec fn spec_flow_binop(op: BinOp, a: SignAnalysis, b: SignAnalysis) -> SignAnalysis {
    match op {
        BinOp::Add => spec_flow_add(a, b),
        BinOp::Sub => spec_flow_sub(a, b),
        BinOp::Mul => spec_flow_mul(a, b),
        BinOp::Div => spec_flow_div(a, b),
        BinOp::Rem => a,
        _ => SignAnalysis::Top,
    }
}

/// The sign a unary operation flows to: negation flips signs, everything else
/// is unknown.
pub open spec fn spec_flow_unop(op: UnOp, a: SignAnalysis) -> SignAnalysis {
    match op {
        UnOp::Neg => spec_neg(a),
        _ => SignAnalysis::Top,
    }
}

/// Refinement of the two operands of `a == b`, assuming it was true: an
/// unconstrained operand takes the other's value, and a widened operand
/// equal to a strict or zero one sharpens to it.
pub open spec fn spec_refine_eq_true(a: SignAnalysis, b: SignAnalysis) -> (
    SignAnalysis,
    SignAnalysis,
) {
    if a == SignAnalysis::Top {
        (b, b)
    } else if b == SignAnalysis::Top {
        (a, a)
    } else if (a == SignAnalysis::GreaterEqual && b == SignAnalysis::Greater) || (a
        == SignAnalysis::Greater && b == SignAnalysis::GreaterEqual) {
        (SignAnalysis::Greater, SignAnalysis::Greater)
    } else if (a == SignAnalysis::LowerEqual && b == SignAnalysis::Lower) || (a
        == SignAnalysis::Lower && b == SignAnalysis::LowerEqual) {
        (SignAnalysis::Lower, SignAnalysis::Lower)
    } else if (a == SignAnalysis::GreaterEqual && b == SignAnalysis::Zero) || (a
        == SignAnalysis::Zero && b == SignAnalysis::GreaterEqual) {
        (SignAnalysis::Zero, SignAnalysis::Zero)
    } else if (a == SignAnalysis::LowerEqual && b == SignAnalysis::Zero) || (a == SignAnalysis::Zero
        && b == SignAnalysis::LowerEqual) {
        (SignAnalysis::Zero, SignAnalysis::Zero)
    } else {
        (a, b)
    }
}

/// Refinement of the two operands of `a < b`, assuming it was true.
pub open spec fn spec_refine_lt_true(a: SignAnalysis, b: SignAnalysis) -> (
    SignAnalysis,
    SignAnalysis,
) {
    if (a == SignAnalysis::Top || a == SignAnalysis::LowerEqual) && b == SignAnalysis::Zero {
        (SignAnalysis::Lower, SignAnalysis::Zero)
    } else if (a == SignAnalysis::Top || a == SignAnalysis::LowerEqual) && b == SignAnalysis::Lower {
        (SignAnalysis::Lower, SignAnalysis::Lower)
    } else if a == SignAnalysis::Zero && (b == SignAnalysis::Top || b
        == SignAnalysis::GreaterEqual) {
        (SignAnalysis::Zero, SignAnalysis::Greater)
    } else if a == SignAnalysis::Greater && (b == SignAnalysis::Top || b
        == SignAnalysis::GreaterEqual) {
        (SignAnalysis::Greater, SignAnalysis::Greater)
    } else if a == SignAnalysis::Top && b == SignAnalysis::LowerEqual {
        (SignAnalysis::LowerEqual, SignAnalysis::LowerEqual)
    } else {
        (a, b)
    }
}

/// Refinement of the two operands of `a <= b`, assuming it was true.
pub open spec fn spec_refine_le_true(a: SignAnalysis, b: SignAnalysis) -> (
    SignAnalysis,
    SignAnalysis,
) {
    if (a == SignAnalysis::Top || a == SignAnalysis::LowerEqual) && b == SignAnalysis::Lower {
        (SignAnalysis::Lower, SignAnalysis::Lower)
    } else if a == SignAnalysis::Top && b == SignAnalysis::LowerEqual {
        (SignAnalysis::LowerEqual, SignAnalysis::LowerEqual)
    } else if a == SignAnalysis::Greater && (b == SignAnalysis::Top || b
        == SignAnalysis::GreaterEqual) {
        (SignAnalysis::Greater, SignAnalysis::Greater)
    } else if a == SignAnalysis::Top && b == SignAnalysis::Zero {
        (SignAnalysis::LowerEqual, SignAnalysis::Zero)
    } else if a == SignAnalysis::Zero && b == SignAnalysis::Top {
        (SignAnalysis::Zero, SignAnalysis::GreaterEqual)
    } else if a == SignAnalysis::GreaterEqual && b == SignAnalysis::Top {
        (SignAnalysis::GreaterEqual, SignAnalysis::GreaterEqual)
    } else {
        (a, b)
    }
}

/// Refinement of the two operands of `a >= b`, assuming it was true.
pub open spec fn spec_refine_ge_true(a: SignAnalysis, b: SignAnalysis) -> (
    SignAnalysis,
    SignAnalysis,
) {
    if (a == SignAnalysis::Top || a == SignAnalysis::GreaterEqual) && b == SignAnalysis::Greater {
        (SignAnalysis::Greater, SignAnalysis::Greater)
    } else if a == SignAnalysis::Top && b == SignAnalysis::GreaterEqual {
        (SignAnalysis::GreaterEqual, SignAnalysis::GreaterEqual)
    } else if a == SignAnalysis::Lower && (b == SignAnalysis::Top || b == SignAnalysis::LowerEqual) {
        (SignAnalysis::Lower, SignAnalysis::Lower)
    } else if a == SignAnalysis::Top && b == SignAnalysis::Zero {
        (SignAnalysis::GreaterEqual, SignAnalysis::Zero)
    } else if a == SignAnalysis::Zero && b == SignAnalysis::Top {
        (SignAnalysis::Zero, SignAnalysis::LowerEqual)
    } else if a == SignAnalysis::LowerEqual && b == SignAnalysis::Top {
        (SignAnalysis::LowerEqual, SignAnalysis::LowerEqual)
    } else {
        (a, b)
    }
}

/// Refinement of the two operands of `a > b`, assuming it was true.
pub open spec fn spec_refine_gt_true(a: SignAnalysis, b: SignAnalysis) -> (
    SignAnalysis,
    SignAnalysis,
) {
    if (a == SignAnalysis::Top || a == SignAnalysis::GreaterEqual) && b == SignAnalysis::Zero {
        (SignAnalysis::Greater, SignAnalysis::Zero)
    } else if (a == SignAnalysis::Top || a == SignAnalysis::GreaterEqual) && b
        == SignAnalysis::Greater {
        (SignAnalysis::Greater, SignAnalysis::Greater)
    } else if a == SignAnalysis::Zero && (b == SignAnalysis::Top || b == SignAnalysis::LowerEqual) {
        (SignAnalysis::Zero, SignAnalysis::Lower)
    } else if a == SignAnalysis::Lower && (b == SignAnalysis::Top || b == SignAnalysis::LowerEqual) {
        (SignAnalysis::Lower, SignAnalysis::Lower)
    } else if a == SignAnalysis::Top && b == SignAnalysis::GreaterEqual {
        (SignAnalysis::GreaterEqual, SignAnalysis::GreaterEqual)
    } else {
        (a, b)
    }
}

/// Refinement of the comparison operands under the assumption the comparison
/// was true. Operands not matching a known pattern pass through unchanged, as
/// does every non-comparison operator.
pub open spec fn spec_flow_cond_true(op: BinOp, a: SignAnalysis, b: SignAnalysis) -> (
    SignAnalysis,
    SignAnalysis,
) {
    match op {
        BinOp::Eq => spec_refine_eq_true(a, b),
        BinOp::Lt => spec_refine_lt_true(a, b),
        BinOp::Le => spec_refine_le_true(a, b),
        BinOp::Ge => spec_refine_ge_true(a, b),
        BinOp::Gt => spec_refine_gt_true(a, b),
        _ => (a, b),
    }
}

/// Refinement of the comparison operands under the assumption the comparison
/// was false: each comparison refines as its logical negation refines when
/// true. A false equality gives no information, so its operands pass through.
pub open spec fn spec_flow_cond_false(op: BinOp, a: SignAnalysis, b: SignAnalysis) -> (
    SignAnalysis,
    SignAnalysis,
) {
    match op {
        BinOp::Lt => spec_refine_ge_true(a, b),
        BinOp::Le => spec_refine_gt_true(a, b),
        BinOp::Ge => spec_refine_lt_true(a, b),
        BinOp::Gt => spec_refine_le_true(a, b),
        _ => (a, b),
    }
}

impl SignAnalysis {
    /// Selects the variables this domain tracks: exactly the integer-typed
    /// ones.
    pub fn applies(ty: &VarType) -> (r: bool)
        ensures
            r == (*ty == VarType::Int),
    {
        match ty {
            VarType::Int => true,
            _ => false,
        }
    }

    /// The bottom element: no value has been seen.
    pub fn bot() -> (r: Self)
        ensures
            r == SignAnalysis::Bottom,
    {
        SignAnalysis::Bottom
    }

    /// The top element: the value is unknown.
    pub fn top() -> (r: Self)
        ensures
            r == SignAnalysis::Top,
    {
        SignAnalysis::Top
    }

    /// The least upper bound of two abstract values.
    pub fn join(op1: &Self, op2: &Self) -> (r: Self)
        ensures
            r == spec_join(*op1, *op2),
    {
        let a = *op1;
        let b = *op2;
        if a == b {
            a
        } else if a == SignAnalysis::Top || b == SignAnalysis::Top {
            SignAnalysis::Top
        } else if a == SignAnalysis::Bottom {
            b
        } else if b == SignAnalysis::Bottom {
            a
        } else if (a == SignAnalysis::Zero || a == SignAnalysis::Greater || a
            == SignAnalysis::GreaterEqual) && (b == SignAnalysis::Zero || b == SignAnalysis::Greater
            || b == SignAnalysis::GreaterEqual) {
            SignAnalysis::GreaterEqual
        } else if (a == SignAnalysis::Zero || a == SignAnalysis::Lower || a
            == SignAnalysis::LowerEqual) && (b == SignAnalysis::Zero || b == SignAnalysis::Lower
            || b == SignAnalysis::LowerEqual) {
            SignAnalysis::LowerEqual
        } else {
            SignAnalysis::Top
        }
    }

    /// The abstraction of a constant.
    pub fn alpha(a: Const) -> (r: Self)
        ensures
            r == spec_alpha(a),
    {
        match a {
            Const::Int(x) => if x < 0 {
                SignAnalysis::Lower
            } else if x > 0 {
                SignAnalysis::Greater
            } else {
                SignAnalysis::Zero
            },
            Const::Other => SignAnalysis::Top,
        }
    }

    /// The sign a binary operation flows to.
    pub fn flow_binop(op: &BinOp, arg1: &Self, arg2: &Self) -> (r: Self)
        ensures
            r == spec_flow_binop(*op, *arg1, *arg2),
    {
        match op {
            BinOp::Add => Self::flow_add(arg1, arg2),
            BinOp::Sub => {
                let n = Self::neg_value(arg2);
                Self::flow_add(arg1, &n)
            },
            BinOp::Mul => Self::flow_mul(arg1, arg2),
            BinOp::Div => if *arg1 == SignAnalysis::Zero {
                SignAnalysis::Zero
            } else {
                SignAnalysis::Top
            },
            BinOp::Rem => *arg1,
            _ => SignAnalysis::Top,
        }
    }

    /// The sign of a sum.
    fn flow_add(arg1: &Self, arg2: &Self) -> (r: Self)
        ensures
            r == spec_flow_add(*arg1, *arg2),
    {
        let a = *arg1;
        let b = *arg2;
        if (a == SignAnalysis::Zero || a == SignAnalysis::Greater || a
            == SignAnalysis::GreaterEqual) && (b == SignAnalysis::Zero || b == SignAnalysis::Greater
            || b == SignAnalysis::GreaterEqual) {
            if a == SignAnalysis::Greater || b == SignAnalysis::Greater {
                SignAnalysis::Greater
            } else if a == SignAnalysis::GreaterEqual || b == SignAnalysis::GreaterEqual {
                SignAnalysis::GreaterEqual
            } else {
                SignAnalysis::Zero
            }
        } else if (a == SignAnalysis::Zero || a == SignAnalysis::Lower || a
            == SignAnalysis::LowerEqual) && (b == SignAnalysis::Zero || b == SignAnalysis::Lower
            || b == SignAnalysis::LowerEqual) {
            if a == SignAnalysis::Lower || b == SignAnalysis::Lower {
                SignAnalysis::Lower
            } else if a == SignAnalysis::LowerEqual || b == SignAnalysis::LowerEqual {
                SignAnalysis::LowerEqual
            } else {
                SignAnalysis::Zero
            }
        } else {
            SignAnalysis::Top
        }
    }

    /// The sign of a product.
    fn flow_mul(arg1: &Self, arg2: &Self) -> (r: Self)
        ensures
            r == spec_flow_mul(*arg1, *arg2),
    {
        let a = *arg1;
        let b = *arg2;
        if a == SignAnalysis::Zero || b == SignAnalysis::Zero {
            SignAnalysis::Zero
        } else if (a == SignAnalysis::Greater && b == SignAnalysis::Greater) || (a
            == SignAnalysis::Lower && b == SignAnalysis::Lower) {
            SignAnalysis::Greater
        } else if (a == SignAnalysis::Greater && b == SignAnalysis::Lower) || (a
            == SignAnalysis::Lower && b == SignAnalysis::Greater) {
            SignAnalysis::Lower
        } else if ((a == SignAnalysis::GreaterEqual || a == SignAnalysis::Greater) && (b
            == SignAnalysis::GreaterEqual || b == SignAnalysis::Greater)) || ((a
            == SignAnalysis::LowerEqual || a == SignAnalysis::Lower) && (b
            == SignAnalysis::LowerEqual || b == SignAnalysis::Lower)) {
            SignAnalysis::GreaterEqual
        } else {
            SignAnalysis::Top
        }
    }

    /// The sign a value flows to under negation.
    fn neg_value(arg: &Self) -> (r: Self)
        ensures
            r == spec_neg(*arg),
    {
        let a = *arg;
        if a == SignAnalysis::Zero {
            SignAnalysis::Zero
        } else if a == SignAnalysis::Greater {
            SignAnalysis::Lower
        } else if a == SignAnalysis::Lower {
            SignAnalysis::Greater
        } else if a == SignAnalysis::GreaterEqual {
            SignAnalysis::LowerEqual
        } else if a == SignAnalysis::LowerEqual {
            SignAnalysis::GreaterEqual
        } else {
            SignAnalysis::Top
        }
    }

    /// The sign a unary operation flows to.
    pub fn flow_unop(op: &UnOp, arg: &Self) -> (r: Self)
        ensures
            r == spec_flow_unop(*op, *arg),
    {
        match op {
            UnOp::Neg => Self::neg_value(arg),
            _ => SignAnalysis::Top,
        }
    }

    /// Refinement of the comparison operands, assuming the comparison was
    /// true.
    pub fn flow_cond_true(op: &BinOp, arg1: &Self, arg2: &Self) -> (r: (Self, Self))
        ensures
            r == spec_flow_cond_true(*op, *arg1, *arg2),
    {
        match op {
            BinOp::Eq => Self::refine_eq_true(arg1, arg2),
            BinOp::Lt => Self::refine_lt_true(arg1, arg2),
            BinOp::Le => Self::refine_le_true(arg1, arg2),
            BinOp::Ge => Self::refine_ge_true(arg1, arg2),
            BinOp::Gt => Self::refine_gt_true(arg1, arg2),
            _ => (*arg1, *arg2),
        }
    }

    /// Refinement of the comparison operands, assuming the comparison was
    /// false.
    pub fn flow_cond_false(op: &BinOp, arg1: &Self, arg2: &Self) -> (r: (Self, Self))
        ensures
            r == spec_flow_cond_false(*op, *arg1, *arg2),
    {
        match op {
            BinOp::Lt => Self::refine_ge_true(arg1, arg2),
            BinOp::Le => Self::refine_gt_true(arg1, arg2),
            BinOp::Ge => Self::refine_lt_true(arg1, arg2),
            BinOp::Gt => Self::refine_le_true(arg1, arg2),
            _ => (*arg1, *arg2),
        }
    }

    fn refine_eq_true(arg1: &Self, arg2: &Self) -> (r: (Self, Self))
        ensures
            r == spec_refine_eq_true(*arg1, *arg2),
    {
        let a = *arg1;
        let b = *arg2;
        if a == SignAnalysis::Top {
            (b, b)
        } else if b == SignAnalysis::Top {
            (a, a)
        } else if (a == SignAnalysis::GreaterEqual && b == SignAnalysis::Greater) || (a
            == SignAnalysis::Greater && b == SignAnalysis::GreaterEqual) {
            (SignAnalysis::Greater, SignAnalysis::Greater)
        } else if (a == SignAnalysis::LowerEqual && b == SignAnalysis::Lower) || (a
            == SignAnalysis::Lower && b == SignAnalysis::LowerEqual) {
            (SignAnalysis::Lower, SignAnalysis::Lower)
        } else if (a == SignAnalysis::GreaterEqual && b == SignAnalysis::Zero) || (a
            == SignAnalysis::Zero && b == SignAnalysis::GreaterEqual) {
            (SignAnalysis::Zero, SignAnalysis::Zero)
        } else if (a == SignAnalysis::LowerEqual && b == SignAnalysis::Zero) || (a
            == SignAnalysis::Zero && b == SignAnalysis::LowerEqual) {
            (SignAnalysis::Zero, SignAnalysis::Zero)
        } else {
            (a, b)
        }
    }

    fn refine_lt_true(arg1: &Self, arg2: &Self) -> (r: (Self, Self))
        ensures
            r == spec_refine_lt_true(*arg1, *arg2),
    {
        let a = *arg1;
        let b = *arg2;
        if (a == SignAnalysis::Top || a == SignAnalysis::LowerEqual) && b == SignAnalysis::Zero {
            (SignAnalysis::Lower, SignAnalysis::Zero)
        } else if (a == SignAnalysis::Top || a == SignAnalysis::LowerEqual) && b
            == SignAnalysis::Lower {
            (SignAnalysis::Lower, SignAnalysis::Lower)
        } else if a == SignAnalysis::Zero && (b == SignAnalysis::Top || b
            == SignAnalysis::GreaterEqual) {
            (SignAnalysis::Zero, SignAnalysis::Greater)
        } else if a == SignAnalysis::Greater && (b == SignAnalysis::Top || b
            == SignAnalysis::GreaterEqual) {
            (SignAnalysis::Greater, SignAnalysis::Greater)
        } else if a == SignAnalysis::Top && b == SignAnalysis::LowerEqual {
            (SignAnalysis::LowerEqual, SignAnalysis::LowerEqual)
        } else {
            (a, b)
        }
    }

    fn refine_le_true(arg1: &Self, arg2: &Self) -> (r: (Self, Self))
        ensures
            r == spec_refine_le_true(*arg1, *arg2),
    {
        let a = *arg1;
        let b = *arg2;
        if (a == SignAnalysis::Top || a == SignAnalysis::LowerEqual) && b == SignAnalysis::Lower {
            (SignAnalysis::Lower, SignAnalysis::Lower)
        } else if a == SignAnalysis::Top && b == SignAnalysis::LowerEqual {
            (SignAnalysis::LowerEqual, SignAnalysis::LowerEqual)
        } else if a == SignAnalysis::Greater && (b == SignAnalysis::Top || b
            == SignAnalysis::GreaterEqual) {
            (SignAnalysis::Greater, SignAnalysis::Greater)
        } else if a == SignAnalysis::Top && b == SignAnalysis::Zero {
            (SignAnalysis::LowerEqual, SignAnalysis::Zero)
        } else if a == SignAnalysis::Zero && b == SignAnalysis::Top {
            (SignAnalysis::Zero, SignAnalysis::GreaterEqual)
        } else if a == SignAnalysis::GreaterEqual && b == SignAnalysis::Top {
            (SignAnalysis::GreaterEqual, SignAnalysis::GreaterEqual)
        } else {
            (a, b)
        }
    }

    fn refine_ge_true(arg1: &Self, arg2: &Self) -> (r: (Self, Self))
        ensures
            r == spec_refine_ge_true(*arg1, *arg2),
    {
        let a = *arg1;
        let b = *arg2;
        if (a == SignAnalysis::Top || a == SignAnalysis::GreaterEqual) && b == SignAnalysis::Greater {
            (SignAnalysis::Greater, SignAnalysis::Greater)
        } else if a == SignAnalysis::Top && b == SignAnalysis::GreaterEqual {
            (SignAnalysis::GreaterEqual, SignAnalysis::GreaterEqual)
        } else if a == SignAnalysis::Lower && (b == SignAnalysis::Top || b
            == SignAnalysis::LowerEqual) {
            (SignAnalysis::Lower, SignAnalysis::Lower)
        } else if a == SignAnalysis::Top && b == SignAnalysis::Zero {
            (SignAnalysis::GreaterEqual, SignAnalysis::Zero)
        } else if a == SignAnalysis::Zero && b == SignAnalysis::Top {
            (SignAnalysis::Zero, SignAnalysis::LowerEqual)
        } else if a == SignAnalysis::LowerEqual && b == SignAnalysis::Top {
            (SignAnalysis::LowerEqual, SignAnalysis::LowerEqual)
        } else {
            (a, b)
        }
    }

    fn refine_gt_true(arg1: &Self, arg2: &Self) -> (r: (Self, Self))
        ensures
            r == spec_refine_gt_true(*arg1, *arg2),
    {
        let a = *arg1;
        let b = *arg2;
        if (a == SignAnalysis::Top || a == SignAnalysis::GreaterEqual) && b == SignAnalysis::Zero {
            (SignAnalysis::Greater, SignAnalysis::Zero)
        } else if (a == SignAnalysis::Top || a == SignAnalysis::GreaterEqual) && b
            == SignAnalysis::Greater {
            (SignAnalysis::Greater, SignAnalysis::Greater)
        } else if a == SignAnalysis::Zero && (b == SignAnalysis::Top || b
            == SignAnalysis::LowerEqual) {
            (SignAnalysis::Zero, SignAnalysis::Lower)
        } else if a == SignAnalysis::Lower && (b == SignAnalysis::Top || b
            == SignAnalysis::LowerEqual) {
            (SignAnalysis::Lower, SignAnalysis::Lower)
        } else if a == SignAnalysis::Top && b == SignAnalysis::GreaterEqual {
            (SignAnalysis::GreaterEqual, SignAnalysis::GreaterEqual)
        } else {
            (a, b)
        }
    }
}

/// Join is commutative.
pub proof fn lemma_join_commutative(a: SignAnalysis, b: SignAnalysis)
    ensures
        spec_join(a, b) == spec_join(b, a),
{
}

/// Join is idempotent.
pub proof fn lemma_join_idempotent(a: SignAnalysis)
    ensures
        spec_join(a, a) == a,
{
}

/// Join is associative.
pub proof fn lemma_join_associative(a: SignAnalysis, b: SignAnalysis, c: SignAnalysis)
    ensures
        spec_join(spec_join(a, b), c) == spec_join(a, spec_join(b, c)),
{
}

/// Join is monotone: each operand lies at or below the join.
pub proof fn lemma_join_monotone(a: SignAnalysis, b: SignAnalysis)
    ensures
        le(a, spec_join(a, b)),
        le(b, spec_join(a, b)),
{
}

/// The lattice order is transitive.
pub proof fn lemma_le_transitive(a: SignAnalysis, b: SignAnalysis, c: SignAnalysis)
    ensures
        le(a, b) && le(b, c) ==> le(a, c),
{
}

/// The rank is bounded by the lattice height, never drops under join, and
/// strictly climbs whenever a join actually changes its second operand.
pub proof fn lemma_rank_join(a: SignAnalysis, b: SignAnalysis)
    ensures
        rank(spec_join(a, b)) <= 3,
        rank(spec_join(a, b)) >= rank(b),
        spec_join(a, b) != b ==> rank(spec_join(a, b)) > rank(b),
{
}

/// Refining on a false comparison equals refining on the logically negated
/// comparison assumed true: `a < b` being false refines as `a >= b` being
/// true does, and likewise for the other strict and non-strict orders; a
/// false equality, like a true disequality, refines nothing.
pub proof fn lemma_cond_false_is_negated_cond_true(a: SignAnalysis, b: SignAnalysis)
    ensures
        spec_flow_cond_false(BinOp::Lt, a, b) == spec_flow_cond_true(BinOp::Ge, a, b),
        spec_flow_cond_false(BinOp::Le, a, b) == spec_flow_cond_true(BinOp::Gt, a, b),
        spec_flow_cond_false(BinOp::Ge, a, b) == spec_flow_cond_true(BinOp::Lt, a, b),
        spec_flow_cond_false(BinOp::Gt, a, b) == spec_flow_cond_true(BinOp::Le, a, b),
        spec_flow_cond_false(BinOp::Eq, a, b) == spec_flow_cond_true(BinOp::Ne, a, b),
{
}

/// The concretization of an abstract value: whether the integer `x` is among
/// the values it stands for.
pub open spec fn in_gamma(a: SignAnalysis, x: int) -> bool {
    match a {
        SignAnalysis::Top => true,
        SignAnalysis::Bottom => false,
        SignAnalysis::Lower => x < 0,
        SignAnalysis::LowerEqual => x <= 0,
        SignAnalysis::Zero => x == 0,
        SignAnalysis::Greater => x > 0,
        SignAnalysis::GreaterEqual => x >= 0,
    }
}

/// The truth value of a comparison on concrete integers; operators that are
/// no comparison carry no branch information and count as true.
pub open spec fn cmp_holds(op: BinOp, x: int, y: int) -> bool {
    match op {
        BinOp::Eq => x == y,
        BinOp::Ne => x != y,
        BinOp::Lt => x < y,
        BinOp::Le => x <= y,
        BinOp::Ge => x >= y,
        BinOp::Gt => x > y,
        _ => true,
    }
}

/// The abstraction of an integer constant covers that constant.
pub proof fn lemma_alpha_sound(x: i64)
    ensures
        in_gamma(spec_alpha(Const::Int(x)), x as int),
{
}

/// Join is a sound over-approximation: it covers every value either operand
/// covers.
pub proof fn lemma_join_sound(a: SignAnalysis, b: SignAnalysis, x: int)
    ensures
        in_gamma(a, x) || in_gamma(b, x) ==> in_gamma(spec_join(a, b), x),
{
}

/// The lattice order is inclusion of covered values: climbing never loses a
/// value.
pub proof fn lemma_le_sound(a: SignAnalysis, b: SignAnalysis, x: int)
    ensures
        le(a, b) && in_gamma(a, x) ==> in_gamma(b, x),
{
    lemma_join_sound(a, b, x);
}

/// The addition transfer covers the concrete sum.
pub proof fn lemma_flow_add_sound(a: SignAnalysis, b: SignAnalysis, x: int, y: int)
    requires
        in_gamma(a, x),
        in_gamma(b, y),
    ensures
        in_gamma(spec_flow_add(a, b), x + y),
{
}

/// The negation transfer covers the concrete negation.
pub proof fn lemma_neg_sound(a: SignAnalysis, x: int)
    requires
        in_gamma(a, x),
    ensures
        in_gamma(spec_neg(a), -x),
{
}

/// The subtraction transfer covers the concrete difference.
pub proof fn lemma_flow_sub_sound(a: SignAnalysis, b: SignAnalysis, x: int, y: int)
    requires
        in_gamma(a, x),
        in_gamma(b, y),
    ensures
        in_gamma(spec_flow_sub(a, b), x - y),
{
    lemma_neg_sound(b, y);
    lemma_flow_add_sound(a, spec_neg(b), x, -y);
}

/// The multiplication transfer covers the concrete product.
pub proof fn lemma_flow_mul_sound(a: SignAnalysis, b: SignAnalysis, x: int, y: int)
    requires
        in_gamma(a, x),
        in_gamma(b, y),
    ensures
        in_gamma(spec_flow_mul(a, b), x * y),
{
    assert(x == 0 || y == 0 ==> x * y == 0) by (nonlinear_arith);
    assert(x > 0 && y > 0 ==> x * y > 0) by (nonlinear_arith);
    assert(x < 0 && y < 0 ==> x * y > 0) by (nonlinear_arith);
    assert(x > 0 && y < 0 ==> x * y < 0) by (nonlinear_arith);
    assert(x < 0 && y > 0 ==> x * y < 0) by (nonlinear_arith);
    assert(x >= 0 && y >= 0 ==> x * y >= 0) by (nonlinear_arith);
    assert(x <= 0 && y <= 0 ==> x * y >= 0) by (nonlinear_arith);
}

/// The division transfer covers the concrete quotient: a zero numerator
/// divides to zero, and anything else is not claimed.
pub proof fn lemma_flow_div_sound(a: SignAnalysis, b: SignAnalysis, x: int, y: int)
    requires
        in_gamma(a, x),
        y != 0,
    ensures
        in_gamma(spec_flow_div(a, b), x / y),
{
    assert(y != 0 ==> 0int / y == 0) by (nonlinear_arith);
}

/// Refining on a true comparison is sound: every operand pair that makes the
/// comparison true is still covered by the refined values.
pub proof fn lemma_cond_true_sound(op: BinOp, a: SignAnalysis, b: SignAnalysis, x: int, y: int)
    requires
        in_gamma(a, x),
        in_gamma(b, y),
        cmp_holds(op, x, y),
    ensures
        in_gamma(spec_flow_cond_true(op, a, b).0, x),
        in_gamma(spec_flow_cond_true(op, a, b).1, y),
{
}

/// Refining on a false comparison is sound: every operand pair that makes the
/// comparison false is still covered by the refined values.
pub proof fn lemma_cond_false_sound(op: BinOp, a: SignAnalysis, b: SignAnalysis, x: int, y: int)
    requires
        in_gamma(a, x),
        in_gamma(b, y),
        !cmp_holds(op, x, y),
    ensures
        in_gamma(spec_flow_cond_false(op, a, b).0, x),
        in_gamma(spec_flow_cond_false(op, a, b).1, y),
{
}

} // verus!
