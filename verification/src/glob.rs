//! Anchored shell-style glob matching: `*` matches zero or more characters,
//! `?` exactly one, every other character only itself.

use vstd::prelude::*;
use crate::strutil::chars_of;

verus! {

/// Whether `t[ti..]` matches `p[pi..]`.
pub open spec fn glob_from(p: Seq<char>, t: Seq<char>, pi: int, ti: int) -> bool
    decreases p.len() - pi + t.len() - ti
    when 0 <= pi <= p.len() && 0 <= ti <= t.len()
{
    if pi == p.len() {
        ti == t.len()
    } else if p[pi] == '*' {
        glob_from(p, t, pi + 1, ti) || (ti < t.len() && glob_from(p, t, pi, ti + 1))
    } else {
        ti < t.len() && (p[pi] == '?' || p[pi] == t[ti]) && glob_from(p, t, pi + 1, ti + 1)
    }
}

/// Whether the whole of `t` matches the whole of `p`.
pub open spec fn glob_matches(p: Seq<char>, t: Seq<char>) -> bool {
    glob_from(p, t, 0, 0)
}

/// Glob matching over whole strings.
pub fn glob_match(pattern: &str, text: &str) -> (r: bool)
    ensures
        r == glob_matches(pattern@, text@),
{
    let p = chars_of(pattern);
    let t = chars_of(text);
    glob_match_impl(&p, &t)
}

/// Table-filling matcher: one row of match results per pattern position,
/// walked from the ends of both inputs towards their starts, so that the
/// running time stays quadratic on every input.
pub fn glob_match_impl(p: &Vec<char>, t: &Vec<char>) -> (r: bool)
    ensures
        r == glob_matches(p@, t@),
{
    let np: usize = p.len();
    let nt: usize = t.len();

    // Row for the empty pattern suffix: only the empty text suffix matches.
    let mut row: Vec<bool> = Vec::new();
    let mut k: usize = 0;
    while k < nt
        invariant
            k <= nt,
            row@.len() == k,
            forall|j: int| 0 <= j < k ==> row@[j] == false,
        decreases nt - k,
    {
        row.push(false);
        k += 1;
    }
    row.push(true);
    proof {
        assert(forall|j: int|
            0 <= j <= nt ==> row@[j] == glob_from(p@, t@, np as int, j));
    }

    // Walk pattern positions from right to left.
    let mut pi: usize = np;
    while pi > 0
        invariant
            pi <= np,
            np == p@.len(),
            nt == t@.len(),
            row@.len() == nt + 1,
            forall|j: int| 0 <= j <= nt ==> row@[j] == glob_from(p@, t@, pi as int, j),
        decreases pi,
    {
        let pii = pi - 1;
        let c = p[pii];

        let mut cur: Vec<bool> = Vec::new();
        let mut k: usize = 0;
        while k < nt
            invariant
                k <= nt,
                cur@.len() == k,
            decreases nt - k,
        {
            cur.push(false);
            k += 1;
        }
        // The cell for the empty text suffix.
        let last: bool = if c == '*' {
            row[nt]
        } else {
            false
        };
        cur.push(last);
        proof {
            assert(last == glob_from(p@, t@, pii as int, nt as int));
        }

        let mut tj: usize = nt;
        while tj > 0
            invariant
                tj <= nt,
                np == p@.len(),
                nt == t@.len(),
                pii < np,
                c == p@[pii as int],
                row@.len() == nt + 1,
                cur@.len() == nt + 1,
                forall|j: int| 0 <= j <= nt ==> row@[j] == glob_from(p@, t@, pii + 1, j),
                forall|j: int| tj <= j <= nt ==> cur@[j] == glob_from(p@, t@, pii as int, j),
            decreases tj,
        {
            let ti = tj - 1;
            let val: bool = if c == '*' {
                row[ti] || cur[ti + 1]
            } else {
                (c == '?' || c == t[ti]) && row[ti + 1]
            };
            cur[ti] = val;
            proof {
                assert(val == glob_from(p@, t@, pii as int, ti as int));
            }
            tj = ti;
        }
        row = cur;
        pi = pii;
    }
    row[0]
}

} // verus!
