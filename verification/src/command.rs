use vstd::prelude::*;
use vstd::string::*;

use crate::token::tokenize;
use crate::token::tokens_of;

verus! {

/// A quit request: the line holds exactly one non-white-space character, the
/// letter `q` in either casing.  This is the same as the line, trimmed of
/// surrounding white space, reading `q` case-insensitively.
pub open spec fn is_quit_line(s: Seq<char>) -> bool {
    tokens_of(s) == seq![seq!['q']] || tokens_of(s) == seq![seq!['Q']]
}

/// Decides whether a line of input asks the driver loop to stop.
pub fn is_quit_command(line: &str) -> (r: bool)
    ensures
        r == is_quit_line(line@),
{
    let toks = tokenize(line);
    let ghost spec_toks = tokens_of(line@);
    if toks.len() != 1 {
        proof {
            assert(spec_toks.len() != 1);
        }
        return false;
    }
    let t = toks[0].as_str();
    proof {
        assert(spec_toks[0] == toks@[0]@);
        assert(t@ == spec_toks[0]);
    }
    if t.unicode_len() != 1 {
        proof {
            assert(spec_toks[0].len() != 1);
            assert(seq![seq!['q']][0] =~= seq!['q']);
            assert(seq![seq!['Q']][0] =~= seq!['Q']);
        }
        false
    } else {
        let c = t.get_char(0);
        proof {
            if c == 'q' {
                assert(t@ =~= seq!['q']);
                assert(spec_toks =~= seq![seq!['q']]);
            } else if c == 'Q' {
                assert(t@ =~= seq!['Q']);
                assert(spec_toks =~= seq![seq!['Q']]);
            } else {
                assert(spec_toks != seq![seq!['q']] && spec_toks != seq![seq!['Q']]) by {
                    assert(seq![seq!['q']][0][0] == 'q');
                    assert(seq![seq!['Q']][0][0] == 'Q');
                    assert(spec_toks[0][0] == c);
                }
            }
        }
        c == 'q' || c == 'Q'
    }
}

} // verus!
