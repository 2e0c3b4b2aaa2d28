use vstd::prelude::*;
use vstd::string::*;

use crate::expr::ExprModel;
use crate::expr::ParsedExpression;
use crate::number::is_float_literal;
use crate::number::is_numeric_token;
use crate::op::op_from_token;
use crate::op::op_of_token;
use crate::token::tokenize;
use crate::token::tokens_of;

verus! {

/// Why a line of input was refused.
#[verifier::ext_equal]
pub enum ParseErrorModel {
    /// The line did not split into exactly three tokens.
    WrongArity,
    /// The named operand token denotes no 64-bit floating-point value.
    NotANumber(Seq<char>),
    /// The middle token names none of the four operations.
    UnknownOperator,
}

/// Why a line of input was refused.
#[derive(Debug, Clone, PartialEq)]
pub enum ParseError {
    /// The line did not split into exactly three tokens.
    WrongArity,
    /// The carried operand token denotes no 64-bit floating-point value.
    NotANumber(String),
    /// The middle token names none of the four operations.
    UnknownOperator,
}

impl View for ParseError {
    type V = ParseErrorModel;

    open spec fn view(&self) -> ParseErrorModel {
        match self {
            ParseError::WrongArity => ParseErrorModel::WrongArity,
            ParseError::NotANumber(t) => ParseErrorModel::NotANumber(t@),
            ParseError::UnknownOperator => ParseErrorModel::UnknownOperator,
        }
    }
}

impl ParseError {
    /// The description of this failure.
    pub open spec fn message_seq(self) -> Seq<char> {
        match self {
            ParseError::WrongArity => "Invalid input"@,
            ParseError::NotANumber(t) => "Invalid number: "@ + t@,
            ParseError::UnknownOperator => "Invalid operator. Use +, -, *, /"@,
        }
    }

    /// Describes this failure for display.
    pub fn message(&self) -> (s: String)
        ensures
            s@ == self.message_seq(),
    {
        match self {
            ParseError::WrongArity => String::from_str("Invalid input"),
            ParseError::NotANumber(t) => {
                let mut s = String::from_str("Invalid number: ");
                s.append(t.as_str());
                s
            },
            ParseError::UnknownOperator => String::from_str("Invalid operator. Use +, -, *, /"),
        }
    }
}

/// The outcome the parser owes for a line.  The line is split into its
/// white-space-separated tokens; a line without exactly three is refused as
/// `WrongArity`; then the first and third token must each be numeric, checked
/// in that order, the first offender refused as `NotANumber`; last, the middle
/// token must name an operation, else it is refused as `UnknownOperator`.
pub open spec fn spec_parse(s: Seq<char>) -> Result<ExprModel, ParseErrorModel> {
    let toks = tokens_of(s);
    if toks.len() != 3 {
        Err(ParseErrorModel::WrongArity)
    } else if !is_float_literal(toks[0]) {
        Err(ParseErrorModel::NotANumber(toks[0]))
    } else if !is_float_literal(toks[2]) {
        Err(ParseErrorModel::NotANumber(toks[2]))
    } else {
        match op_of_token(toks[1]) {
            Option::Some(op) => Ok(
                ExprModel { operand1: toks[0], operator: op, operand2: toks[2] },
            ),
            Option::None => Err(ParseErrorModel::UnknownOperator),
        }
    }
}

/// Parses a line of input into two numeric operands and an operator.
pub fn parse_input(input: &str) -> (r: Result<ParsedExpression, ParseError>)
    ensures
        match r {
            Ok(pe) => spec_parse(input@) == Ok::<ExprModel, ParseErrorModel>(pe@) && pe.wf(),
            Err(e) => spec_parse(input@) == Err::<ExprModel, ParseErrorModel>(e@),
        },
{
    let values = tokenize(input);
    let ghost toks = tokens_of(input@);
    if values.len() != 3 {
        proof {
            assert(toks.len() != 3);
        }
        return Err(ParseError::WrongArity);
    }
    proof {
        assert(values.deep_view()[0] == values@[0]@);
        assert(values.deep_view()[1] == values@[1]@);
        assert(values.deep_view()[2] == values@[2]@);
    }
    if !is_numeric_token(values[0].as_str()) {
        return Err(ParseError::NotANumber(values[0].clone()));
    }
    if !is_numeric_token(values[2].as_str()) {
        return Err(ParseError::NotANumber(values[2].clone()));
    }
    match op_from_token(values[1].as_str()) {
        Option::Some(op) => Ok(
            ParsedExpression {
                operand1: values[0].clone(),
                operator: op,
                operand2: values[2].clone(),
            },
        ),
        Option::None => Err(ParseError::UnknownOperator),
    }
}

} // verus!
