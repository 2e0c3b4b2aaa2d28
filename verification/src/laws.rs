use vstd::prelude::*;

use crate::eval::EvalError;
use crate::eval::Num;
use crate::eval::spec_calculate;
use crate::expr::ExprModel;
use crate::number::is_float_literal;
use crate::number::lemma_float_literal_wf;
use crate::op::Op;
use crate::op::op_of_token;
use crate::parse::ParseErrorModel;
use crate::parse::spec_parse;
use crate::token::is_space;
use crate::token::lemma_tokens_of_leading_space;
use crate::token::lemma_tokens_of_token_prefix;
use crate::token::tokens_of;

verus! {

/// Law: rendering a well-formed expression and parsing the rendered line
/// yields the expression back unchanged.  Parsing depends on nothing but the
/// line itself.
pub proof fn lemma_render_parse_round_trip(m: ExprModel)
    requires
        m.wf(),
    ensures
        spec_parse(m.render()) == Ok::<ExprModel, ParseErrorModel>(m),
{
    let sym = m.operator.symbol_seq();
    let sp = seq![' '];
    lemma_float_literal_wf(m.operand1);
    lemma_float_literal_wf(m.operand2);
    assert(sym.len() == 1 && !is_space(sym[0]));
    let r1 = sp + sym + sp + m.operand2;
    assert(m.render() =~= m.operand1 + r1);
    assert(r1[0] == ' ');
    lemma_tokens_of_token_prefix(m.operand1, r1);
    lemma_tokens_of_leading_space(r1);
    let r2 = sym + (sp + m.operand2);
    assert(r1.drop_first() =~= r2);
    lemma_tokens_of_token_prefix(sym, sp + m.operand2);
    assert((sp + m.operand2)[0] == ' ');
    lemma_tokens_of_leading_space(sp + m.operand2);
    assert((sp + m.operand2).drop_first() =~= m.operand2);
    lemma_tokens_of_token_prefix(m.operand2, Seq::<char>::empty());
    assert(m.operand2 + Seq::<char>::empty() =~= m.operand2);
    assert(tokens_of(Seq::<char>::empty()) =~= Seq::<Seq<char>>::empty());
    let toks = tokens_of(m.render());
    assert(toks =~= seq![m.operand1, sym, m.operand2]);
    m.operator.lemma_symbol_is_op_token();
}

/// Law: a well-formed line `"<n1> <op> <n2>"` — numeric tokens around an
/// operator symbol — parses to exactly that triple, and evaluation then
/// selects exactly the named operation whenever it is defined: always for
/// addition, subtraction and multiplication, and for division whenever the
/// divisor's value is not zero.  The divisor's value is whatever number the
/// driver read out of the second token.
pub proof fn lemma_well_formed_line_evaluates(
    n1: Seq<char>,
    sym: Seq<char>,
    n2: Seq<char>,
    op: Op,
    divisor: Num,
)
    requires
        is_float_literal(n1),
        is_float_literal(n2),
        op_of_token(sym) == Some(op),
        !(op == Op::Div && divisor.spec_is_zero()),
    ensures
        spec_parse(n1 + seq![' '] + sym + seq![' '] + n2) == Ok::<ExprModel, ParseErrorModel>(
            ExprModel { operand1: n1, operator: op, operand2: n2 },
        ),
        spec_calculate(sym, divisor) == Ok::<Op, EvalError>(op),
{
    let m = ExprModel { operand1: n1, operator: op, operand2: n2 };
    assert(sym =~= op.symbol_seq());
    lemma_render_parse_round_trip(m);
    assert(m.render() == n1 + seq![' '] + sym + seq![' '] + n2);
}

} // verus!
