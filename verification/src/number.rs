use vstd::prelude::*;
use vstd::string::*;

use crate::token::is_space;

verus! {

/// A decimal digit.
pub open spec fn is_digit(c: char) -> bool {
    c == '0' || c == '1' || c == '2' || c == '3' || c == '4' || c == '5' || c == '6' || c == '7'
        || c == '8' || c == '9'
}

/// Tests a character for being a decimal digit.
fn digit_char(c: char) -> (r: bool)
    ensures
        r == is_digit(c),
{
    c == '0' || c == '1' || c == '2' || c == '3' || c == '4' || c == '5' || c == '6' || c == '7'
        || c == '8' || c == '9'
}

/// A sign character.
pub open spec fn is_sign(c: char) -> bool {
    c == '+' || c == '-'
}

/// The length of the run of digits that opens `s`.
pub open spec fn digit_run_len(s: Seq<char>) -> int
    decreases s.len(),
{
    if s.len() == 0 || !is_digit(s[0]) {
        0
    } else {
        1 + digit_run_len(s.drop_first())
    }
}

/// The opening digit run is a well-formed maximal run.
pub(crate) proof fn lemma_digit_run(s: Seq<char>)
    ensures
        0 <= digit_run_len(s) <= s.len(),
        forall|k: int| 0 <= k < digit_run_len(s) ==> is_digit(s[k]),
        digit_run_len(s) < s.len() ==> !is_digit(s[digit_run_len(s)]),
    decreases s.len(),
{
    if s.len() == 0 || !is_digit(s[0]) {
    } else {
        let s1 = s.drop_first();
        lemma_digit_run(s1);
        assert forall|k: int| 0 <= k < digit_run_len(s) implies is_digit(s[k]) by {
            if k >= 1 {
                assert(s[k] == s1[k - 1]);
            }
        }
        if digit_run_len(s) < s.len() {
            assert(s[digit_run_len(s)] == s1[digit_run_len(s1)]);
        }
    }
}

/// `s` without its optional leading sign.
pub open spec fn strip_sign(s: Seq<char>) -> Seq<char> {
    if s.len() > 0 && is_sign(s[0]) {
        s.drop_first()
    } else {
        s
    }
}

/// `c` is `lo` or its upper-case form `up`.
pub open spec fn eq_ci(c: char, lo: char, up: char) -> bool {
    c == lo || c == up
}

/// The word `inf`, in any casing.
pub open spec fn is_inf_body(s: Seq<char>) -> bool {
    s.len() == 3 && eq_ci(s[0], 'i', 'I') && eq_ci(s[1], 'n', 'N') && eq_ci(s[2], 'f', 'F')
}

/// The word `infinity`, in any casing.
pub open spec fn is_infinity_body(s: Seq<char>) -> bool {
    s.len() == 8 && eq_ci(s[0], 'i', 'I') && eq_ci(s[1], 'n', 'N') && eq_ci(s[2], 'f', 'F')
        && eq_ci(s[3], 'i', 'I') && eq_ci(s[4], 'n', 'N') && eq_ci(s[5], 'i', 'I')
        && eq_ci(s[6], 't', 'T') && eq_ci(s[7], 'y', 'Y')
}

/// The word `nan`, in any casing.
pub open spec fn is_nan_body(s: Seq<char>) -> bool {
    s.len() == 3 && eq_ci(s[0], 'n', 'N') && eq_ci(s[1], 'a', 'A') && eq_ci(s[2], 'n', 'N')
}

/// An exponent marker.
pub open spec fn is_exp_marker(c: char) -> bool {
    c == 'e' || c == 'E'
}

/// The part of an exponent after its marker: an optional sign followed by at
/// least one digit and nothing else.
pub open spec fn is_exp_tail(s: Seq<char>) -> bool {
    let b = strip_sign(s);
    b.len() > 0 && digit_run_len(b) == b.len()
}

/// Nothing at all, or a whole exponent.
pub open spec fn is_suffix_exp_or_empty(s: Seq<char>) -> bool {
    s.len() == 0 || (is_exp_marker(s[0]) && is_exp_tail(s.drop_first()))
}

/// An unsigned decimal or scientific numeral: digits with an optional
/// fractional part, or a fractional part alone with at least one digit, each
/// followed by an optional exponent.
pub open spec fn is_number_body(s: Seq<char>) -> bool {
    let d1 = digit_run_len(s);
    if d1 > 0 {
        let rest = s.skip(d1);
        if rest.len() > 0 && rest[0] == '.' {
            let frac = rest.drop_first();
            is_suffix_exp_or_empty(frac.skip(digit_run_len(frac)))
        } else {
            is_suffix_exp_or_empty(rest)
        }
    } else {
        s.len() > 0 && s[0] == '.' && {
            let frac = s.drop_first();
            digit_run_len(frac) > 0 && is_suffix_exp_or_empty(frac.skip(digit_run_len(frac)))
        }
    }
}

/// A token that denotes a 64-bit floating-point value: an optional sign
/// followed by a decimal or scientific numeral, or by one of the words `inf`,
/// `infinity` and `nan` in any casing.
pub open spec fn is_float_literal(s: Seq<char>) -> bool {
    let b = strip_sign(s);
    is_inf_body(b) || is_infinity_body(b) || is_nan_body(b) || is_number_body(b)
}

/// An exponent suffix contains no white space.
pub(crate) proof fn lemma_suffix_no_space(u: Seq<char>)
    requires
        is_suffix_exp_or_empty(u),
    ensures
        forall|j: int| 0 <= j < u.len() ==> !is_space(u[j]),
{
    if u.len() > 0 {
        let tail = u.drop_first();
        let sb = strip_sign(tail);
        lemma_digit_run(sb);
        assert forall|j: int| 0 <= j < u.len() implies !is_space(u[j]) by {
            if j > 0 {
                let m = j - 1;
                assert(tail[m] == u[j]);
                if tail.len() > 0 && is_sign(tail[0]) {
                    if m > 0 {
                        assert(sb[m - 1] == tail[m]);
                        assert(is_digit(sb[m - 1]));
                    }
                } else {
                    assert(sb == tail);
                    assert(is_digit(sb[m]));
                }
            }
        }
    }
}

/// A decimal or scientific numeral contains no white space.
pub(crate) proof fn lemma_number_body_no_space(s: Seq<char>)
    requires
        is_number_body(s),
    ensures
        forall|j: int| 0 <= j < s.len() ==> !is_space(s[j]),
{
    let d1 = digit_run_len(s);
    lemma_digit_run(s);
    if d1 > 0 {
        let rest = s.skip(d1);
        if rest.len() > 0 && rest[0] == '.' {
            let frac = rest.drop_first();
            let d2 = digit_run_len(frac);
            lemma_digit_run(frac);
            let suf = frac.skip(d2);
            lemma_suffix_no_space(suf);
            assert forall|j: int| 0 <= j < s.len() implies !is_space(s[j]) by {
                if j < d1 {
                    assert(is_digit(s[j]));
                } else if j == d1 {
                    assert(s[j] == rest[0]);
                } else if j < d1 + 1 + d2 {
                    assert(frac[j - d1 - 1] == rest[j - d1]);
                    assert(rest[j - d1] == s[j]);
                    assert(is_digit(frac[j - d1 - 1]));
                } else {
                    assert(suf[j - (d1 + 1 + d2)] == frac[j - d1 - 1]);
                    assert(frac[j - d1 - 1] == rest[j - d1]);
                    assert(rest[j - d1] == s[j]);
                }
            }
        } else {
            lemma_suffix_no_space(rest);
            assert forall|j: int| 0 <= j < s.len() implies !is_space(s[j]) by {
                if j < d1 {
                    assert(is_digit(s[j]));
                } else {
                    assert(rest[j - d1] == s[j]);
                }
            }
        }
    } else {
        let frac = s.drop_first();
        let d2 = digit_run_len(frac);
        lemma_digit_run(frac);
        let suf = frac.skip(d2);
        lemma_suffix_no_space(suf);
        assert forall|j: int| 0 <= j < s.len() implies !is_space(s[j]) by {
            if j > 0 {
                if j < 1 + d2 {
                    assert(frac[j - 1] == s[j]);
                    assert(is_digit(frac[j - 1]));
                } else {
                    assert(suf[j - 1 - d2] == frac[j - 1]);
                    assert(frac[j - 1] == s[j]);
                }
            }
        }
    }
}

/// A numeric token is never empty and contains no white space, so it survives
/// tokenization whole.
pub proof fn lemma_float_literal_wf(s: Seq<char>)
    requires
        is_float_literal(s),
    ensures
        s.len() > 0,
        forall|k: int| 0 <= k < s.len() ==> !is_space(s[k]),
{
    let b = strip_sign(s);
    if is_number_body(b) {
        lemma_number_body_no_space(b);
        lemma_digit_run(b);
    }
    assert(b.len() > 0);
    assert(s.len() > 0);
    assert forall|k: int| 0 <= k < s.len() implies !is_space(s[k]) by {
        if s.len() > 0 && is_sign(s[0]) {
            if k > 0 {
                assert(b[k - 1] == s[k]);
            }
        } else {
            assert(b == s);
        }
    }
}

/// Scans past the run of digits that starts at `from`.
fn scan_digits(t: &str, from: usize) -> (j: usize)
    requires
        from <= t@.len(),
    ensures
        from <= j <= t@.len(),
        j - from == digit_run_len(t@.skip(from as int)),
{
    let len = t.unicode_len();
    let mut j: usize = from;
    proof {
        assert(digit_run_len(t@.skip(from as int)) == (j - from) + digit_run_len(
            t@.skip(j as int),
        ));
    }
    while j < len && digit_char(t.get_char(j))
        invariant
            from <= j <= len,
            len == t@.len(),
            digit_run_len(t@.skip(from as int)) == (j - from) + digit_run_len(t@.skip(j as int)),
        decreases len - j,
    {
        proof {
            let s_j = t@.skip(j as int);
            assert(s_j[0] == t@[j as int]);
            assert(digit_run_len(s_j) == 1 + digit_run_len(s_j.drop_first()));
            assert(s_j.drop_first() =~= t@.skip(j as int + 1));
        }
        j += 1;
    }
    proof {
        let s_j = t@.skip(j as int);
        if j < len {
            assert(s_j[0] == t@[j as int]);
            assert(!is_digit(s_j[0]));
        }
        assert(digit_run_len(s_j) == 0);
        lemma_digit_run(t@.skip(from as int));
    }
    j
}

/// Checks for an exponent (or nothing) from position `k` to the end.
fn exp_or_end(t: &str, k: usize) -> (r: bool)
    requires
        k <= t@.len(),
    ensures
        r == is_suffix_exp_or_empty(t@.skip(k as int)),
{
    let len = t.unicode_len();
    let ghost suffix = t@.skip(k as int);
    if k == len {
        true
    } else {
        let c = t.get_char(k);
        proof {
            assert(suffix[0] == t@[k as int]);
        }
        if c == 'e' || c == 'E' {
            let ghost tail = t@.skip(k as int + 1);
            proof {
                assert(suffix.drop_first() =~= tail);
            }
            let mut m: usize = k + 1;
            if m < len && (t.get_char(m) == '+' || t.get_char(m) == '-') {
                proof {
                    assert(tail[0] == t@[m as int]);
                    assert(tail.drop_first() =~= t@.skip(m as int + 1));
                }
                m += 1;
            }
            let ghost body = t@.skip(m as int);
            proof {
                assert(strip_sign(tail) =~= body);
            }
            if m == len {
                proof {
                    assert(body.len() == 0);
                }
                false
            } else {
                let dend = scan_digits(t, m);
                proof {
                    assert(body.len() == len - m);
                }
                dend == len
            }
        } else {
            false
        }
    }
}

/// Recognizes a token that denotes a 64-bit floating-point value.
#[verifier::rlimit(60)]
pub fn is_numeric_token(t: &str) -> (r: bool)
    ensures
        r == is_float_literal(t@),
{
    let len = t.unicode_len();
    let mut i: usize = 0;
    if len > 0 && (t.get_char(0) == '+' || t.get_char(0) == '-') {
        i = 1;
    }
    let ghost b = strip_sign(t@);
    proof {
        assert(t@.skip(i as int) =~= b);
        assert(b.len() == len - i);
    }
    if len - i == 3 {
        let c0 = t.get_char(i);
        let c1 = t.get_char(i + 1);
        let c2 = t.get_char(i + 2);
        proof {
            assert(b[0] == t@[i as int]);
            assert(b[1] == t@[i as int + 1]);
            assert(b[2] == t@[i as int + 2]);
        }
        if (c0 == 'i' || c0 == 'I') && (c1 == 'n' || c1 == 'N') && (c2 == 'f' || c2 == 'F') {
            return true;
        }
        if (c0 == 'n' || c0 == 'N') && (c1 == 'a' || c1 == 'A') && (c2 == 'n' || c2 == 'N') {
            return true;
        }
    }
    if len - i == 8 {
        let c0 = t.get_char(i);
        let c1 = t.get_char(i + 1);
        let c2 = t.get_char(i + 2);
        let c3 = t.get_char(i + 3);
        let c4 = t.get_char(i + 4);
        let c5 = t.get_char(i + 5);
        let c6 = t.get_char(i + 6);
        let c7 = t.get_char(i + 7);
        proof {
            assert(b[0] == t@[i as int]);
            assert(b[1] == t@[i as int + 1]);
            assert(b[2] == t@[i as int + 2]);
            assert(b[3] == t@[i as int + 3]);
            assert(b[4] == t@[i as int + 4]);
            assert(b[5] == t@[i as int + 5]);
            assert(b[6] == t@[i as int + 6]);
            assert(b[7] == t@[i as int + 7]);
        }
        if (c0 == 'i' || c0 == 'I') && (c1 == 'n' || c1 == 'N') && (c2 == 'f' || c2 == 'F') && (c3
            == 'i' || c3 == 'I') && (c4 == 'n' || c4 == 'N') && (c5 == 'i' || c5 == 'I') && (c6
            == 't' || c6 == 'T') && (c7 == 'y' || c7 == 'Y') {
            return true;
        }
    }
    let d1_end = scan_digits(t, i);
    proof {
        assert(digit_run_len(b) == d1_end - i);
    }
    if d1_end > i {
        let mut k = d1_end;
        let ghost rest = b.skip(d1_end - i);
        proof {
            assert(rest =~= t@.skip(d1_end as int));
            if d1_end < len {
                assert(rest[0] == t@[d1_end as int]);
            }
        }
        if k < len && t.get_char(k) == '.' {
            let ghost frac = rest.drop_first();
            proof {
                assert(frac =~= t@.skip(d1_end as int + 1));
            }
            let d2_end = scan_digits(t, k + 1);
            proof {
                assert(digit_run_len(frac) == d2_end - (d1_end + 1));
                assert(frac.skip(digit_run_len(frac)) =~= t@.skip(d2_end as int));
            }
            k = d2_end;
            exp_or_end(t, k)
        } else {
            proof {
                assert(rest =~= t@.skip(k as int));
            }
            exp_or_end(t, k)
        }
    } else if i < len && t.get_char(i) == '.' {
        proof {
            assert(b[0] == t@[i as int]);
        }
        let ghost frac = b.drop_first();
        proof {
            assert(frac =~= t@.skip(i as int + 1));
        }
        let d2_end = scan_digits(t, i + 1);
        proof {
            assert(digit_run_len(frac) == d2_end - (i + 1));
            assert(frac.skip(digit_run_len(frac)) =~= t@.skip(d2_end as int));
        }
        if d2_end > i + 1 {
            exp_or_end(t, d2_end)
        } else {
            false
        }
    } else {
        proof {
            if i < len {
                assert(b[0] == t@[i as int]);
            }
        }
        false
    }
}

} // verus!
