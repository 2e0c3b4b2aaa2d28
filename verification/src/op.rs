use vstd::prelude::*;
use vstd::string::*;

verus! {

/// The four arithmetic operations the calculator supports.
#[derive(Clone, Copy, Debug, PartialEq, Eq, Structural)]
pub enum Op {
    Add,
    Sub,
    Mul,
    Div,
}

/// The operator named by an input token: exactly one of the four single-symbol
/// tokens `+`, `-`, `*`, `/` selects an operation; every other token is
/// rejected.
pub open spec fn op_of_token(tok: Seq<char>) -> Option<Op> {
    if tok.len() == 1 {
        if tok[0] == '+' {
            Some(Op::Add)
        } else if tok[0] == '-' {
            Some(Op::Sub)
        } else if tok[0] == '*' {
            Some(Op::Mul)
        } else if tok[0] == '/' {
            Some(Op::Div)
        } else {
            None
        }
    } else {
        None
    }
}

/// Recognizes an operator token.
pub fn op_from_token(tok: &str) -> (r: Option<Op>)
    ensures
        r == op_of_token(tok@),
{
    if tok.unicode_len() == 1 {
        let c = tok.get_char(0);
        if c == '+' {
            Some(Op::Add)
        } else if c == '-' {
            Some(Op::Sub)
        } else if c == '*' {
            Some(Op::Mul)
        } else if c == '/' {
            Some(Op::Div)
        } else {
            None
        }
    } else {
        None
    }
}

impl Op {
    /// The symbol that selects this operation.
    pub open spec fn symbol_seq(self) -> Seq<char> {
        match self {
            Op::Add => seq!['+'],
            Op::Sub => seq!['-'],
            Op::Mul => seq!['*'],
            Op::Div => seq!['/'],
        }
    }

    /// Renders the operation back to its symbol.
    pub fn symbol(&self) -> (s: String)
        ensures
            s@ == self.symbol_seq(),
    {
        match self {
            Op::Add => {
                let s = String::from_str("+");
                proof {
                    reveal_strlit("+");
                    assert(s@ =~= seq!['+']);
                }
                s
            },
            Op::Sub => {
                let s = String::from_str("-");
                proof {
                    reveal_strlit("-");
                    assert(s@ =~= seq!['-']);
                }
                s
            },
            Op::Mul => {
                let s = String::from_str("*");
                proof {
                    reveal_strlit("*");
                    assert(s@ =~= seq!['*']);
                }
                s
            },
            Op::Div => {
                let s = String::from_str("/");
                proof {
                    reveal_strlit("/");
                    assert(s@ =~= seq!['/']);
                }
                s
            },
        }
    }

    /// The symbol round-trips through token recognition.
    pub proof fn lemma_symbol_is_op_token(self)
        ensures
            op_of_token(self.symbol_seq()) == Some(self),
    {
    }
}

} // verus!
