//! A verified command-line calculator core.
//!
//! A line of input such as `"5 + 5"` is parsed into two numeric operands and
//! an arithmetic operator, and the evaluator decides which operation to apply
//! to the operands, rejecting division by zero.  Parsing and the evaluator's
//! decisions are verified; the floating-point arithmetic itself is applied by
//! the surrounding driver, which hands operands back and forth as plain
//! values.

mod command;
mod eval;
mod expr;
mod laws;
mod number;
mod op;
mod parse;
mod token;

pub use command::is_quit_command;
pub use command::is_quit_line;
pub use eval::Calculation;
pub use eval::EvalError;
pub use eval::Num;
pub use eval::calculate;
pub use eval::spec_calculate;
pub use expr::ExprModel;
pub use expr::ParsedExpression;
pub use laws::lemma_render_parse_round_trip;
pub use laws::lemma_well_formed_line_evaluates;
pub use number::is_float_literal;
pub use number::is_numeric_token;
pub use op::Op;
pub use op::op_of_token;
pub use op::op_from_token;
pub use parse::ParseError;
pub use parse::ParseErrorModel;
pub use parse::parse_input;
pub use parse::spec_parse;
pub use token::is_space;
pub use token::tokenize;
pub use token::tokens_of;
