use vstd::prelude::*;
use vstd::string::*;

verus! {

/// The characters that separate tokens: the Unicode white-space characters.
pub open spec fn is_space(c: char) -> bool {
    c == ' ' || c == '\t' || c == '\n' || c == '\u{0b}' || c == '\u{0c}' || c == '\r'
        || c == '\u{85}' || c == '\u{a0}' || c == '\u{1680}' || c == '\u{2000}' || c == '\u{2001}'
        || c == '\u{2002}' || c == '\u{2003}' || c == '\u{2004}' || c == '\u{2005}'
        || c == '\u{2006}' || c == '\u{2007}' || c == '\u{2008}' || c == '\u{2009}'
        || c == '\u{200a}' || c == '\u{2028}' || c == '\u{2029}' || c == '\u{202f}'
        || c == '\u{205f}' || c == '\u{3000}'
}

/// Tests a character for being a token separator.
pub fn space_char(c: char) -> (r: bool)
    ensures
        r == is_space(c),
{
    c == ' ' || c == '\t' || c == '\n' || c == '\u{0b}' || c == '\u{0c}' || c == '\r'
        || c == '\u{85}' || c == '\u{a0}' || c == '\u{1680}' || c == '\u{2000}' || c == '\u{2001}'
        || c == '\u{2002}' || c == '\u{2003}' || c == '\u{2004}' || c == '\u{2005}'
        || c == '\u{2006}' || c == '\u{2007}' || c == '\u{2008}' || c == '\u{2009}'
        || c == '\u{200a}' || c == '\u{2028}' || c == '\u{2029}' || c == '\u{202f}'
        || c == '\u{205f}' || c == '\u{3000}'
}

/// The tokens of a line: the maximal runs of non-white-space characters, in
/// order, with every run of white space discarded.
pub open spec fn tokens_of(s: Seq<char>) -> Seq<Seq<char>>
    decreases s.len(),
{
    if s.len() == 0 {
        Seq::empty()
    } else if is_space(s[0]) {
        tokens_of(s.drop_first())
    } else {
        let rest = tokens_of(s.drop_first());
        if s.len() > 1 && !is_space(s[1]) {
            seq![seq![s[0]] + rest[0]] + rest.drop_first()
        } else {
            seq![seq![s[0]]] + rest
        }
    }
}

/// Dropping a leading separator leaves the tokens unchanged.
pub proof fn lemma_tokens_of_leading_space(s: Seq<char>)
    requires
        s.len() > 0,
        is_space(s[0]),
    ensures
        tokens_of(s) == tokens_of(s.drop_first()),
{
}

/// A line that starts with a whole token, followed by nothing or by a
/// separator, tokenizes to that token followed by the tokens of the rest.
pub proof fn lemma_tokens_of_token_prefix(t: Seq<char>, r: Seq<char>)
    requires
        t.len() > 0,
        forall|k: int| 0 <= k < t.len() ==> !is_space(t[k]),
        r.len() == 0 || is_space(r[0]),
    ensures
        tokens_of(t + r) == seq![t] + tokens_of(r),
    decreases t.len(),
{
    let s = t + r;
    assert(s[0] == t[0]);
    assert(!is_space(s[0]));
    if t.len() == 1 {
        assert(s.drop_first() =~= r);
        if r.len() == 0 {
            assert(s.len() == 1);
            assert(seq![s[0]] =~= t);
            assert(tokens_of(s) == seq![seq![s[0]]] + tokens_of(r));
            assert(seq![seq![s[0]]] + tokens_of(r) =~= seq![t] + tokens_of(r));
        } else {
            assert(s[1] == r[0]);
            assert(is_space(s[1]));
            assert(tokens_of(s) == seq![seq![s[0]]] + tokens_of(r));
            assert(seq![s[0]] =~= t);
            assert(seq![seq![s[0]]] + tokens_of(r) =~= seq![t] + tokens_of(r));
        }
    } else {
        assert(s[1] == t[1]);
        assert(!is_space(s[1]));
        let t1 = t.drop_first();
        assert(forall|k: int| 0 <= k < t1.len() ==> t1[k] == t[k + 1] && !is_space(t1[k]));
        lemma_tokens_of_token_prefix(t1, r);
        assert(s.drop_first() =~= t1 + r);
        let rest = tokens_of(s.drop_first());
        assert(rest == seq![t1] + tokens_of(r));
        assert(rest[0] == t1);
        assert(tokens_of(s) == seq![seq![s[0]] + rest[0]] + rest.drop_first());
        assert(seq![s[0]] + t1 =~= t);
        assert(rest.drop_first() =~= tokens_of(r));
        assert(seq![seq![s[0]] + rest[0]] + rest.drop_first() =~= seq![t] + tokens_of(r));
    }
}

/// Splits a line into its white-space-separated tokens.
pub fn tokenize(input: &str) -> (r: Vec<String>)
    ensures
        r.deep_view() == tokens_of(input@),
{
    let len = input.unicode_len();
    let mut toks: Vec<String> = Vec::new();
    let mut i: usize = 0;
    proof {
        assert(toks.deep_view() =~= Seq::<Seq<char>>::empty());
        assert(input@.skip(0) =~= input@);
        assert(Seq::<Seq<char>>::empty() + tokens_of(input@) =~= tokens_of(input@));
    }
    while i < len
        invariant
            i <= len,
            len == input@.len(),
            toks.deep_view() + tokens_of(input@.skip(i as int)) == tokens_of(input@),
        decreases len - i,
    {
        let c = input.get_char(i);
        if space_char(c) {
            proof {
                let s_i = input@.skip(i as int);
                lemma_tokens_of_leading_space(s_i);
                assert(s_i.drop_first() =~= input@.skip(i as int + 1));
            }
            i += 1;
        } else {
            let mut j = i + 1;
            while j < len && !space_char(input.get_char(j))
                invariant
                    i < j <= len,
                    len == input@.len(),
                    forall|k: int| i <= k < j ==> !is_space(input@[k]),
                    !is_space(input@[i as int]),
                decreases len - j,
            {
                j += 1;
            }
            let tok = input.substring_char(i, j);
            let ghost prev = toks.deep_view();
            toks.push(String::from_str(tok));
            proof {
                let t = input@.subrange(i as int, j as int);
                let after = input@.skip(j as int);
                assert(forall|k: int| 0 <= k < t.len() ==> t[k] == input@[i + k] && !is_space(t[k]));
                assert(after.len() == 0 || is_space(after[0]));
                lemma_tokens_of_token_prefix(t, after);
                assert(input@.skip(i as int) =~= t + after);
                assert(toks.deep_view() =~= prev.push(t));
                assert(prev.push(t) + tokens_of(after) =~= prev + (seq![t] + tokens_of(after)));
            }
            i = j;
        }
    }
    proof {
        assert(input@.skip(len as int) =~= Seq::<char>::empty());
        assert(toks.deep_view() + tokens_of(Seq::<char>::empty()) =~= toks.deep_view());
    }
    toks
}

} // verus!
