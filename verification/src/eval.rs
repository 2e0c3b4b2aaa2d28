use vstd::prelude::*;
use vstd::string::*;

use crate::op::Op;
use crate::op::op_of_token;

verus! {

/// A 64-bit IEEE 754 number, carried by its bit pattern.  The evaluator's
/// decisions read nothing of a number but whether it is zero, and that is
/// exactly a property of the bits: a double compares equal to zero precisely
/// when every bit except the sign bit is clear (positive or negative zero).
/// The driver converts between this representation and its own doubles.
#[derive(Clone, Copy, Debug, PartialEq, Eq, Structural)]
pub struct Num {
    pub bits: u64,
}

impl Num {
    /// Whether the carried number compares equal to zero.
    pub open spec fn spec_is_zero(self) -> bool {
        self.bits & 0x7fff_ffff_ffff_ffff == 0
    }

    /// Tests the carried number for equality with zero.
    pub fn is_zero(&self) -> (r: bool)
        ensures
            r == self.spec_is_zero(),
    {
        self.bits & 0x7fff_ffff_ffff_ffff == 0
    }
}

/// Why an evaluation was refused.
#[derive(Clone, Copy, Debug, PartialEq, Eq, Structural)]
pub enum EvalError {
    /// The divisor compared equal to zero.
    DivisionByZero,
    /// The operator token named none of the four operations.
    UnsupportedOperator,
}

impl EvalError {
    /// The description of this failure.
    pub open spec fn message_seq(self) -> Seq<char> {
        match self {
            EvalError::DivisionByZero => "Cannot divide by zero"@,
            EvalError::UnsupportedOperator => "Invalid operator"@,
        }
    }

    /// Describes this failure for display.
    pub fn message(&self) -> (s: String)
        ensures
            s@ == self.message_seq(),
    {
        match self {
            EvalError::DivisionByZero => String::from_str("Cannot divide by zero"),
            EvalError::UnsupportedOperator => String::from_str("Invalid operator"),
        }
    }
}

/// A validated calculation: the selected operation together with the operands
/// it is to be applied to, in input order.
#[derive(Clone, Copy, Debug, PartialEq, Eq, Structural)]
pub struct Calculation {
    pub op: Op,
    pub lhs: Num,
    pub rhs: Num,
}

/// What the evaluator decides for an operator token and a divisor: the
/// operation to apply, or the reason the calculation is refused.  Division is
/// refused exactly when the divisor compares equal to zero; an unknown
/// operator token is refused whatever the operands are.
pub open spec fn spec_calculate(op_tok: Seq<char>, divisor: Num) -> Result<Op, EvalError> {
    match op_of_token(op_tok) {
        Option::None => Err(EvalError::UnsupportedOperator),
        Option::Some(op) => {
            if op == Op::Div && divisor.spec_is_zero() {
                Err(EvalError::DivisionByZero)
            } else {
                Ok(op)
            }
        },
    }
}

/// Decides a calculation from two operands and an operator token.
///
/// On success the result carries the operands unchanged and the operation the
/// token selects; the driver applies the operation.  The operator is checked
/// here as well as at parse time, so a caller that skipped parsing is still
/// answered with `UnsupportedOperator` rather than trusted.
pub fn calculate(num1: Num, num2: Num, operator: &str) -> (r: Result<Calculation, EvalError>)
    ensures
        match r {
            Ok(c) => spec_calculate(operator@, num2) == Ok::<Op, EvalError>(c.op) && c.lhs == num1
                && c.rhs == num2,
            Err(e) => spec_calculate(operator@, num2) == Err::<Op, EvalError>(e),
        },
{
    match crate::op::op_from_token(operator) {
        Option::None => Err(EvalError::UnsupportedOperator),
        Option::Some(op) => {
            if matches!(op, Op::Div) && num2.is_zero() {
                Err(EvalError::DivisionByZero)
            } else {
                Ok(Calculation { op, lhs: num1, rhs: num2 })
            }
        },
    }
}

} // verus!
