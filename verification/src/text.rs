//! Verified text helpers: character-sequence matching, substring
//! replacement and string equality.
//!
//! Paths and command lines are the agent's working material, so the library
//! carries its own replacement routine with an exact specification:
//! [`spec_replace`] is the left-to-right, non-overlapping replacement of a
//! pattern, and [`replace_all`] implements it.

use vstd::prelude::*;

verus! {

/// The pattern occurs in `s` starting at index `i`.
pub open spec fn match_at(s: Seq<char>, pat: Seq<char>, i: int) -> bool {
    &&& 0 <= i
    &&& i + pat.len() <= s.len()
    &&& s.subrange(i, i + pat.len() as int) == pat
}

/// The pattern occurs somewhere in `s`.
pub open spec fn occurs(s: Seq<char>, pat: Seq<char>) -> bool {
    exists|i: int| match_at(s, pat, i)
}

/// Left-to-right, non-overlapping replacement of `pat` by `val` in `s`.
/// An empty pattern is never searched for, so the sequence is unchanged.
pub open spec fn spec_replace(s: Seq<char>, pat: Seq<char>, val: Seq<char>) -> Seq<char>
    decreases s.len(),
{
    if pat.len() == 0 || s.len() < pat.len() {
        s
    } else if s.subrange(0, pat.len() as int) == pat {
        val + spec_replace(s.skip(pat.len() as int), pat, val)
    } else {
        seq![s[0]] + spec_replace(s.skip(1), pat, val)
    }
}

/// Replacement leaves a sequence without any occurrence of the pattern
/// untouched.
pub proof fn lemma_replace_no_occurrence(s: Seq<char>, pat: Seq<char>, val: Seq<char>)
    requires
        pat.len() >= 1,
        !occurs(s, pat),
    ensures
        spec_replace(s, pat, val) == s,
    decreases s.len(),
{
    if s.len() >= pat.len() {
        assert(!match_at(s, pat, 0));
        assert(s.subrange(0, pat.len() as int) != pat);
        assert(!occurs(s.skip(1), pat)) by {
            if occurs(s.skip(1), pat) {
                let i = choose|i: int| match_at(s.skip(1), pat, i);
                assert(s.subrange(i + 1, i + 1 + pat.len() as int) =~= s.skip(1).subrange(
                    i,
                    i + pat.len() as int,
                ));
                assert(match_at(s, pat, i + 1));
            }
        }
        lemma_replace_no_occurrence(s.skip(1), pat, val);
        assert(seq![s[0]] + s.skip(1) =~= s);
    }
}

/// Unfolding step of [`spec_replace`] at a position where the pattern
/// matches.
proof fn lemma_replace_step_match(s: Seq<char>, pat: Seq<char>, val: Seq<char>, i: int)
    requires
        pat.len() >= 1,
        match_at(s, pat, i),
    ensures
        spec_replace(s.skip(i), pat, val) == val + spec_replace(
            s.skip(i + pat.len() as int),
            pat,
            val,
        ),
{
    let t = s.skip(i);
    assert(t.subrange(0, pat.len() as int) =~= s.subrange(i, i + pat.len() as int));
    assert(t.skip(pat.len() as int) =~= s.skip(i + pat.len() as int));
}

/// Unfolding step of [`spec_replace`] at a position where the pattern does
/// not match: the single character is kept.
proof fn lemma_replace_step_char(s: Seq<char>, pat: Seq<char>, val: Seq<char>, i: int)
    requires
        pat.len() >= 1,
        0 <= i < s.len(),
        !match_at(s, pat, i),
    ensures
        spec_replace(s.skip(i), pat, val) == seq![s[i]] + spec_replace(s.skip(i + 1), pat, val),
{
    let t = s.skip(i);
    assert(t.skip(1) =~= s.skip(i + 1));
    if i + pat.len() <= s.len() {
        assert(t.subrange(0, pat.len() as int) =~= s.subrange(i, i + pat.len() as int));
        assert(t.subrange(0, pat.len() as int) != pat);
        assert(t[0] == s[i]);
    } else {
        assert(t.len() < pat.len());
        assert(spec_replace(t, pat, val) == t);
        assert(spec_replace(t.skip(1), pat, val) == t.skip(1));
        assert(seq![s[i]] + t.skip(1) =~= t);
    }
}

/// Does `pat` start at character index `i` of `s`? `n` and `m` are the
/// already-computed character lengths.
fn matches_at(s: &str, pat: &str, i: usize, n: usize, m: usize) -> (r: bool)
    requires
        n == s@.len(),
        m == pat@.len(),
        i <= n,
        m <= n - i,
    ensures
        r == match_at(s@, pat@, i as int),
{
    let mut j: usize = 0;
    while j < m
        invariant
            n == s@.len(),
            m == pat@.len(),
            i + m <= n,
            j <= m,
            forall|k: int| 0 <= k < j ==> s@[i + k] == pat@[k],
        decreases m - j,
    {
        if s.get_char(i + j) != pat.get_char(j) {
            proof {
                let sub = s@.subrange(i as int, i as int + m as int);
                assert(sub[j as int] == s@[i + j]);
                assert(sub != pat@);
            }
            return false;
        }
        j = j + 1;
    }
    proof {
        assert(s@.subrange(i as int, i as int + m as int) =~= pat@);
    }
    true
}

/// Character-wise string equality with an exact contract.
pub fn str_eq(a: &str, b: &str) -> (r: bool)
    ensures
        r == (a@ == b@),
{
    let na = a.unicode_len();
    let nb = b.unicode_len();
    if na != nb {
        return false;
    }
    if na == 0 {
        proof {
            assert(a@ =~= b@);
        }
        return true;
    }
    let r = matches_at(a, b, 0, na, nb);
    proof {
        assert(a@.subrange(0, nb as int) =~= a@);
    }
    r
}

/// Replaces every (left-to-right, non-overlapping) occurrence of `pat` in
/// `s` by `val`; with an empty pattern the input comes back unchanged.
pub fn replace_all(s: &str, pat: &str, val: &str) -> (r: String)
    ensures
        r@ == spec_replace(s@, pat@, val@),
{
    let n = s.unicode_len();
    let m = pat.unicode_len();
    if m == 0 || n < m {
        return s.to_owned();
    }
    let mut out = String::new();
    let mut i: usize = 0;
    proof {
        assert(s@.skip(0) =~= s@);
        assert(out@ + spec_replace(s@, pat@, val@) =~= spec_replace(s@, pat@, val@));
    }
    while i < n
        invariant
            1 <= m <= n,
            n == s@.len(),
            m == pat@.len(),
            i <= n,
            spec_replace(s@, pat@, val@) == out@ + spec_replace(s@.skip(i as int), pat@, val@),
        decreases n - i,
    {
        if m <= n - i && matches_at(s, pat, i, n, m) {
            proof {
                lemma_replace_step_match(s@, pat@, val@, i as int);
            }
            out.append(val);
            i = i + m;
        } else {
            let piece = s.substring_char(i, i + 1);
            proof {
                lemma_replace_step_char(s@, pat@, val@, i as int);
                assert(piece@ =~= seq![s@[i as int]]);
            }
            out.append(piece);
            i = i + 1;
        }
    }
    proof {
        assert(s@.skip(n as int) =~= Seq::<char>::empty());
        assert(out@ + Seq::<char>::empty() =~= out@);
    }
    out
}

} // verus!
