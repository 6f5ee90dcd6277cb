//! Character-level string helpers shared by the parsing modules.

use vstd::prelude::*;
use vstd::string::*;

verus! {

/// Relies on `String::push`: appends exactly the given character.
pub assume_specification[ String::push ](s: &mut String, c: char)
    ensures
        final(s)@ == old(s)@.push(c),
;

/// The characters of `s`, as a vector.
pub fn chars_of(s: &str) -> (v: Vec<char>)
    ensures
        v@ == s@,
{
    let n: usize = s.unicode_len();
    let mut v: Vec<char> = Vec::new();
    let mut i: usize = 0;
    while i < n
        invariant
            i <= n,
            n == s@.len(),
            v@ == s@.subrange(0, i as int),
        decreases n - i,
    {
        v.push(s.get_char(i));
        proof {
            assert(s@.subrange(0, i as int).push(s@[i as int]) =~= s@.subrange(0, i + 1));
        }
        i += 1;
    }
    proof {
        assert(v@ =~= s@);
    }
    v
}

/// A string holding exactly the characters of `v`.
pub fn string_of(v: &Vec<char>) -> (s: String)
    ensures
        s@ == v@,
{
    let mut s = String::new();
    let mut i: usize = 0;
    while i < v.len()
        invariant
            i <= v@.len(),
            s@ == v@.subrange(0, i as int),
        decreases v@.len() - i,
    {
        s.push(v[i]);
        proof {
            assert(v@.subrange(0, i as int).push(v@[i as int]) =~= v@.subrange(0, i + 1));
        }
        i += 1;
    }
    proof {
        assert(s@ =~= v@);
    }
    s
}

/// Character-wise string equality.
pub fn str_eq(a: &str, b: &str) -> (r: bool)
    ensures
        r == (a@ == b@),
{
    let na: usize = a.unicode_len();
    let nb: usize = b.unicode_len();
    if na != nb {
        return false;
    }
    let mut i: usize = 0;
    while i < na
        invariant
            i <= na,
            na == a@.len(),
            na == b@.len(),
            forall|j: int| 0 <= j < i ==> a@[j] == b@[j],
        decreases na - i,
    {
        if a.get_char(i) != b.get_char(i) {
            return false;
        }
        i += 1;
    }
    proof {
        assert(a@ =~= b@);
    }
    true
}

/// Whether `p` is a prefix of `s`.
pub open spec fn is_prefix_of(p: Seq<char>, s: Seq<char>) -> bool {
    p.len() <= s.len() && s.subrange(0, p.len() as int) == p
}

/// Character-wise prefix test.
pub fn starts_with_str(s: &str, p: &str) -> (r: bool)
    ensures
        r == is_prefix_of(p@, s@),
{
    let ns: usize = s.unicode_len();
    let np: usize = p.unicode_len();
    if np > ns {
        return false;
    }
    let mut i: usize = 0;
    while i < np
        invariant
            i <= np,
            np <= ns,
            ns == s@.len(),
            np == p@.len(),
            forall|j: int| 0 <= j < i ==> s@[j] == p@[j],
        decreases np - i,
    {
        if s.get_char(i) != p.get_char(i) {
            proof {
                assert(s@.subrange(0, p@.len() as int)[i as int] == s@[i as int]);
            }
            return false;
        }
        i += 1;
    }
    proof {
        assert(s@.subrange(0, p@.len() as int) =~= p@);
    }
    true
}

/// Index of the first `sep` at or after `i`, or the length if there is none.
pub open spec fn sep_end(s: Seq<char>, i: int, sep: char) -> int
    decreases s.len() - i
    when 0 <= i <= s.len()
{
    if i == s.len() || s[i] == sep {
        i
    } else {
        sep_end(s, i + 1, sep)
    }
}

pub proof fn lemma_sep_end_bounds(s: Seq<char>, i: int, sep: char)
    requires
        0 <= i <= s.len(),
    ensures
        i <= sep_end(s, i, sep) <= s.len(),
        forall|j: int| i <= j < sep_end(s, i, sep) ==> s[j] != sep,
        sep_end(s, i, sep) < s.len() ==> s[sep_end(s, i, sep)] == sep,
    decreases s.len() - i,
{
    if i < s.len() && s[i] != sep {
        lemma_sep_end_bounds(s, i + 1, sep);
    }
}

/// A scan that stopped at `e` on the separator pins down `sep_end`.
pub proof fn lemma_sep_end_at(s: Seq<char>, i: int, e: int, sep: char)
    requires
        0 <= i <= e <= s.len(),
        forall|j: int| i <= j < e ==> s[j] != sep,
        e == s.len() || s[e] == sep,
    ensures
        sep_end(s, i, sep) == e,
    decreases e - i,
{
    if i < e {
        lemma_sep_end_at(s, i + 1, e, sep);
    }
}

/// ASCII whitespace, as far as trimming is concerned.
pub open spec fn is_space(c: char) -> bool {
    c == ' ' || c == '\t' || c == '\n' || c == '\r'
}

/// First non-space index at or after `i`.
pub open spec fn space_end(s: Seq<char>, i: int) -> int
    decreases s.len() - i
    when 0 <= i <= s.len()
{
    if i == s.len() || !is_space(s[i]) {
        i
    } else {
        space_end(s, i + 1)
    }
}

/// One past the last non-space index before `j`, scanning leftwards.
pub open spec fn space_start(s: Seq<char>, j: int) -> int
    decreases j
    when 0 <= j <= s.len()
{
    if j == 0 || !is_space(s[j - 1]) {
        j
    } else {
        space_start(s, j - 1)
    }
}

/// `s` with leading and trailing whitespace removed.
pub open spec fn trim_seq(s: Seq<char>) -> Seq<char> {
    if space_end(s, 0) == s.len() {
        Seq::<char>::empty()
    } else {
        s.subrange(space_end(s, 0), space_start(s, s.len() as int))
    }
}

/// The comma-separated segments of `s` from `i` on.
pub open spec fn split_from(s: Seq<char>, i: int) -> Seq<Seq<char>>
    decreases s.len() - i
    when 0 <= i <= s.len()
    via split_from_decreases
{
    let e = sep_end(s, i, ',');
    if e == s.len() {
        seq![s.subrange(i, e)]
    } else {
        seq![s.subrange(i, e)] + split_from(s, e + 1)
    }
}

#[via_fn]
proof fn split_from_decreases(s: Seq<char>, i: int) {
    lemma_sep_end_bounds(s, i, ',');
}

/// The comma-separated segments of the whole of `s`.
pub open spec fn split_commas(s: Seq<char>) -> Seq<Seq<char>> {
    split_from(s, 0)
}

/// The views of a sequence of strings.
pub open spec fn views_of(v: Seq<String>) -> Seq<Seq<char>> {
    v.map_values(|x: String| x@)
}

/// The characters `v[lo..hi]`, as a fresh vector.
pub fn subvec(v: &Vec<char>, lo: usize, hi: usize) -> (r: Vec<char>)
    requires
        lo <= hi <= v@.len(),
    ensures
        r@ == v@.subrange(lo as int, hi as int),
{
    let mut r: Vec<char> = Vec::new();
    let mut i: usize = lo;
    while i < hi
        invariant
            lo <= i <= hi <= v@.len(),
            r@ == v@.subrange(lo as int, i as int),
        decreases hi - i,
    {
        r.push(v[i]);
        proof {
            assert(v@.subrange(lo as int, i as int).push(v@[i as int]) =~= v@.subrange(
                lo as int,
                i + 1,
            ));
        }
        i += 1;
    }
    r
}

fn is_space_char(c: char) -> (r: bool)
    ensures
        r == is_space(c),
{
    c == ' ' || c == '\t' || c == '\n' || c == '\r'
}

/// The trimmed segment `v[lo..hi]`, as a string.
fn trimmed_segment(v: &Vec<char>, lo: usize, hi: usize) -> (r: String)
    requires
        lo <= hi <= v@.len(),
    ensures
        r@ == trim_seq(v@.subrange(lo as int, hi as int)),
{
    let ghost seg = v@.subrange(lo as int, hi as int);
    let mut a: usize = lo;
    while a < hi && is_space_char(v[a])
        invariant
            lo <= a <= hi <= v@.len(),
            forall|j: int| lo <= j < a ==> is_space(v@[j]),
        decreases hi - a,
    {
        a += 1;
    }
    proof {
        assert(forall|j: int| 0 <= j < a - lo ==> seg[j] == v@[lo + j] && is_space(seg[j]));
        assert(a - lo == seg.len() || !is_space(seg[a - lo]));
        lemma_space_end_at(seg, 0, a - lo);
    }
    if a == hi {
        proof {
            assert(trim_seq(seg) =~= Seq::<char>::empty());
        }
        return String::new();
    }
    let mut b: usize = hi;
    while b > a && is_space_char(v[b - 1])
        invariant
            a <= b <= hi,
            hi <= v@.len(),
            forall|j: int| b <= j < hi ==> is_space(v@[j]),
        decreases b,
    {
        b -= 1;
    }
    proof {
        assert(forall|j: int| b - lo <= j < seg.len() ==> seg[j] == v@[lo + j] && is_space(seg[j]));
        assert(b - lo == 0 || !is_space(seg[b - lo - 1]));
        lemma_space_start_at(seg, seg.len() as int, b - lo);
        assert(trim_seq(seg) == seg.subrange(a - lo, b - lo));
    }
    let piece = subvec(v, a, b);
    proof {
        assert(piece@ =~= seg.subrange(a - lo, b - lo));
    }
    string_of(&piece)
}

/// A scan that stopped at `e` on a non-space pins down `space_end`.
pub proof fn lemma_space_end_at(s: Seq<char>, i: int, e: int)
    requires
        0 <= i <= e <= s.len(),
        forall|j: int| i <= j < e ==> is_space(s[j]),
        e == s.len() || !is_space(s[e]),
    ensures
        space_end(s, i) == e,
    decreases e - i,
{
    if i < e {
        lemma_space_end_at(s, i + 1, e);
    }
}

/// A scan that stopped at `b` on a non-space pins down `space_start`.
pub proof fn lemma_space_start_at(s: Seq<char>, j: int, b: int)
    requires
        0 <= b <= j <= s.len(),
        forall|k: int| b <= k < j ==> is_space(s[k]),
        b == 0 || !is_space(s[b - 1]),
    ensures
        space_start(s, j) == b,
    decreases j - b,
{
    if b < j {
        lemma_space_start_at(s, j - 1, b);
    }
}

/// Split `s` on commas and trim each segment.
pub fn split_csv_trim(s: &str) -> (r: Vec<String>)
    ensures
        views_of(r@) == split_commas(s@).map_values(|p: Seq<char>| trim_seq(p)),
{
    let v = chars_of(s);
    let n: usize = v.len();
    let mut out: Vec<String> = Vec::new();
    let mut i: usize = 0;
    let mut done = false;
    while !done
        invariant
            n == s@.len(),
            v@ == s@,
            !done ==> i <= n,
            !done ==> split_commas(s@).map_values(|p: Seq<char>| trim_seq(p)) =~= views_of(out@)
                + split_from(s@, i as int).map_values(|p: Seq<char>| trim_seq(p)),
            done ==> views_of(out@) =~= split_commas(s@).map_values(|p: Seq<char>| trim_seq(p)),
        decreases n - i + (if done { 0int } else { 1int }),
    {
        // Find the end of the current segment.
        let mut e: usize = i;
        while e < n && v[e] != ','
            invariant
                i <= e <= n,
                n == v@.len(),
                forall|j: int| i <= j < e ==> v@[j] != ',',
            decreases n - e,
        {
            e += 1;
        }
        proof {
            lemma_sep_end_at(v@, i as int, e as int, ',');
        }
        let piece = trimmed_segment(&v, i, e);
        out.push(piece);
        proof {
            assert(views_of(out@) =~= views_of(out@.drop_last()).push(piece@));
        }
        if e == n {
            done = true;
        } else {
            i = e + 1;
        }
    }
    out
}

/// ASCII-lowercase of one character; all others are unchanged.
pub open spec fn lower_char(c: char) -> char {
    if 'A' <= c && c <= 'Z' {
        (((c as u8) - 65) + 97) as char
    } else {
        c
    }
}

/// ASCII-lowercase of a character sequence.
pub open spec fn lower_seq(s: Seq<char>) -> Seq<char> {
    s.map_values(|c: char| lower_char(c))
}

/// ASCII-lowercase of one character.
pub fn to_ascii_lower(c: char) -> (r: char)
    ensures
        r == lower_char(c),
{
    if c >= 'A' && c <= 'Z' {
        (((c as u8) - 65u8) + 97u8) as char
    } else {
        c
    }
}

/// ASCII-lowercase of a whole string.
pub fn lower_str(s: &str) -> (r: String)
    ensures
        r@ == lower_seq(s@),
{
    let cs = chars_of(s);
    let mut out: Vec<char> = Vec::new();
    let mut i: usize = 0;
    while i < cs.len()
        invariant
            i <= cs@.len(),
            cs@ == s@,
            out@ == lower_seq(s@).subrange(0, i as int),
        decreases cs@.len() - i,
    {
        out.push(to_ascii_lower(cs[i]));
        proof {
            assert(lower_seq(s@).subrange(0, i as int).push(lower_char(s@[i as int])) =~= lower_seq(
                s@,
            ).subrange(0, i + 1));
        }
        i += 1;
    }
    proof {
        assert(out@ =~= lower_seq(s@));
    }
    string_of(&out)
}

} // verus!
