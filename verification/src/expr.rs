use vstd::prelude::*;
use vstd::string::*;

use crate::number::is_float_literal;
use crate::op::Op;

verus! {

/// The mathematical content of a parsed expression: the two operand tokens
/// and the operation between them.
#[verifier::ext_equal]
pub struct ExprModel {
    pub operand1: Seq<char>,
    pub operator: Op,
    pub operand2: Seq<char>,
}

impl ExprModel {
    /// Both operand tokens denote 64-bit floating-point values.
    pub open spec fn wf(self) -> bool {
        is_float_literal(self.operand1) && is_float_literal(self.operand2)
    }

    /// The string form of the expression: the operands around the operator
    /// symbol, separated by single spaces.
    pub open spec fn render(self) -> Seq<char> {
        self.operand1 + seq![' '] + self.operator.symbol_seq() + seq![' '] + self.operand2
    }
}

/// A validated calculation request: two numeric operand tokens, kept exactly
/// as they stood in the input line, and the operation between them.  The
/// operator is validated when the expression is built, never afterwards.
#[derive(Debug, Clone, PartialEq)]
pub struct ParsedExpression {
    pub operand1: String,
    pub operator: Op,
    pub operand2: String,
}

impl View for ParsedExpression {
    type V = ExprModel;

    open spec fn view(&self) -> ExprModel {
        ExprModel {
            operand1: self.operand1@,
            operator: self.operator,
            operand2: self.operand2@,
        }
    }
}

impl ParsedExpression {
    /// Both operand fields hold numeric tokens.
    pub open spec fn wf(self) -> bool {
        self@.wf()
    }

    /// Renders the expression back to a line of input.
    pub fn render(&self) -> (r: String)
        ensures
            r@ == self@.render(),
    {
        let mut out = self.operand1.clone();
        out.append(" ");
        let sym = self.operator.symbol();
        out.append(sym.as_str());
        out.append(" ");
        out.append(self.operand2.as_str());
        proof {
            reveal_strlit(" ");
            assert(" "@ =~= seq![' ']);
            assert(out@ =~= self@.render());
        }
        out
    }
}

} // verus!
