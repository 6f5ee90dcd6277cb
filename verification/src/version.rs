//! Parsing version strings into numeric `(major, minor, patch)` triples.
//!
//! A version splits on `.`; each of the first three segments contributes the
//! value of its leading run of decimal digits, a missing segment counts as
//! zero. A version whose leading segment does not begin with a digit is
//! unparseable, as is one with a digit run too long for a machine word.

use vstd::prelude::*;

verus! {

/// Longest digit run accepted in one segment; any 19-digit value fits in u64.
pub const MAX_COMPONENT_DIGITS: usize = 19;

pub open spec fn is_digit(c: char) -> bool {
    '0' <= c && c <= '9'
}

pub open spec fn digit_val(c: char) -> int {
    c as int - '0' as int
}

/// Index just past the run of digits that starts at `i`.
pub open spec fn run_end(s: Seq<char>, i: int) -> int
    decreases s.len() - i
    when 0 <= i <= s.len()
{
    if i == s.len() || !is_digit(s[i]) {
        i
    } else {
        run_end(s, i + 1)
    }
}

/// Index of the first `.` at or after `i`, or the length if there is none.
pub open spec fn seg_end(s: Seq<char>, i: int) -> int
    decreases s.len() - i
    when 0 <= i <= s.len()
{
    if i == s.len() || s[i] == '.' {
        i
    } else {
        seg_end(s, i + 1)
    }
}

/// Decimal value of the digits `s[i..j]`, accumulated onto `acc`.
pub open spec fn num_val_from(s: Seq<char>, i: int, j: int, acc: int) -> int
    decreases j - i
    when 0 <= i <= j <= s.len()
{
    if i >= j {
        acc
    } else {
        num_val_from(s, i + 1, j, acc * 10 + digit_val(s[i]))
    }
}

/// Decimal value of the digits `s[i..j]`.
pub open spec fn num_val(s: Seq<char>, i: int, j: int) -> int {
    num_val_from(s, i, j, 0)
}

pub proof fn lemma_run_end_bounds(s: Seq<char>, i: int)
    requires
        0 <= i <= s.len(),
    ensures
        i <= run_end(s, i) <= s.len(),
        forall|j: int| i <= j < run_end(s, i) ==> is_digit(s[j]),
        run_end(s, i) < s.len() ==> !is_digit(s[run_end(s, i)]),
    decreases s.len() - i,
{
    if i < s.len() && is_digit(s[i]) {
        lemma_run_end_bounds(s, i + 1);
    }
}

pub proof fn lemma_seg_end_bounds(s: Seq<char>, i: int)
    requires
        0 <= i <= s.len(),
    ensures
        i <= seg_end(s, i) <= s.len(),
        forall|j: int| i <= j < seg_end(s, i) ==> s[j] != '.',
        seg_end(s, i) < s.len() ==> s[seg_end(s, i)] == '.',
    decreases s.len() - i,
{
    if i < s.len() && s[i] != '.' {
        lemma_seg_end_bounds(s, i + 1);
    }
}

/// A scan that stopped at `e` on a non-digit pins down `run_end`.
pub proof fn lemma_run_end_at(s: Seq<char>, i: int, e: int)
    requires
        0 <= i <= e <= s.len(),
        forall|j: int| i <= j < e ==> is_digit(s[j]),
        e == s.len() || !is_digit(s[e]),
    ensures
        run_end(s, i) == e,
    decreases e - i,
{
    if i < e {
        lemma_run_end_at(s, i + 1, e);
    }
}

/// A scan that stopped at `e` on a dot pins down `seg_end`.
pub proof fn lemma_seg_end_at(s: Seq<char>, i: int, e: int)
    requires
        0 <= i <= e <= s.len(),
        forall|j: int| i <= j < e ==> s[j] != '.',
        e == s.len() || s[e] == '.',
    ensures
        seg_end(s, i) == e,
    decreases e - i,
{
    if i < e {
        lemma_seg_end_at(s, i + 1, e);
    }
}

/// Start of the segment after the one ending at `e` (the length if none).
pub open spec fn next_seg_start(s: Seq<char>, e: int) -> int {
    if e == s.len() {
        e
    } else {
        e + 1
    }
}

/// Start index of the minor segment.
pub open spec fn minor_start(s: Seq<char>) -> int {
    next_seg_start(s, seg_end(s, 0))
}

/// Start index of the patch segment.
pub open spec fn patch_start(s: Seq<char>) -> int {
    next_seg_start(s, seg_end(s, minor_start(s)))
}

/// Whether `s` parses as a version triple: the leading segment starts with a
/// digit and no component's digit run overflows a machine word.
pub open spec fn version_ok(s: Seq<char>) -> bool {
    run_end(s, 0) > 0 && run_end(s, 0) <= MAX_COMPONENT_DIGITS && run_end(s, minor_start(s))
        - minor_start(s) <= MAX_COMPONENT_DIGITS && run_end(s, patch_start(s)) - patch_start(s)
        <= MAX_COMPONENT_DIGITS
}

/// Value of the component whose segment starts at `i`.
pub open spec fn component_val(s: Seq<char>, i: int) -> int {
    num_val(s, i, run_end(s, i))
}

pub open spec fn spec_major(s: Seq<char>) -> int {
    component_val(s, 0)
}

pub open spec fn spec_minor(s: Seq<char>) -> int {
    component_val(s, minor_start(s))
}

pub open spec fn spec_patch(s: Seq<char>) -> int {
    component_val(s, patch_start(s))
}

/// An ordered numeric version triple.
#[derive(Clone, Copy, Debug, PartialEq, Eq, Structural)]
pub struct Version {
    pub major: u64,
    pub minor: u64,
    pub patch: u64,
}

impl Version {
    /// The triple holds exactly the components that the parse of `s` gives.
    pub open spec fn is_parse_of(self, s: Seq<char>) -> bool {
        self.major == spec_major(s) && self.minor == spec_minor(s) && self.patch == spec_patch(s)
    }
}

pub open spec fn pow10(n: nat) -> int
    decreases n,
{
    if n == 0 {
        1
    } else {
        10 * pow10((n - 1) as nat)
    }
}

proof fn lemma_pow10_19_fits()
    ensures
        pow10(19) == 10_000_000_000_000_000_000,
{
    reveal_with_fuel(pow10, 21);
}

/// Value and extent of the digit run starting at `start`; `None` when the run
/// is too long for a `u64` component.
fn parse_component(v: &Vec<char>, start: usize) -> (r: Option<(u64, usize)>)
    requires
        start <= v@.len(),
    ensures
        match r {
            Some((val, re)) => {
                &&& re == run_end(v@, start as int)
                &&& re - start <= MAX_COMPONENT_DIGITS
                &&& val == component_val(v@, start as int)
            },
            None => run_end(v@, start as int) - start > MAX_COMPONENT_DIGITS,
        },
{
    let n: usize = v.len();
    // Find the end of the digit run.
    let mut e: usize = start;
    while e < n && v[e] >= '0' && v[e] <= '9'
        invariant
            start <= e <= n,
            n == v@.len(),
            forall|j: int| start <= j < e ==> is_digit(v@[j]),
        decreases n - e,
    {
        e += 1;
    }
    proof {
        lemma_run_end_at(v@, start as int, e as int);
    }
    if e - start > MAX_COMPONENT_DIGITS {
        return None;
    }
    // Accumulate the run's decimal value.
    let mut acc: u64 = 0;
    let mut i: usize = start;
    while i < e
        invariant
            start <= i <= e <= v@.len(),
            e - start <= MAX_COMPONENT_DIGITS,
            forall|j: int| start <= j < e ==> is_digit(v@[j]),
            acc < pow10((i - start) as nat),
            num_val_from(v@, i as int, e as int, acc as int) == num_val(
                v@,
                start as int,
                e as int,
            ),
        decreases e - i,
    {
        let d: u64 = (v[i] as u8 - 48u8) as u64;
        proof {
            let k = (i - start) as nat;
            assert(pow10(k + 1) == 10 * pow10(k));
            lemma_pow10_monotone(k + 1, 19);
            lemma_pow10_19_fits();
            assert(is_digit(v@[i as int]));
            assert(d == digit_val(v@[i as int]));
            assert(acc * 10 + d < pow10(k + 1));
        }
        acc = acc * 10 + d;
        i += 1;
    }
    Some((acc, e))
}

proof fn lemma_pow10_monotone(a: nat, b: nat)
    requires
        a <= b,
    ensures
        pow10(a) <= pow10(b),
        pow10(a) >= 1,
    decreases b,
{
    if a == b {
        lemma_pow10_positive(a);
    } else {
        lemma_pow10_monotone(a, (b - 1) as nat);
    }
}

proof fn lemma_pow10_positive(a: nat)
    ensures
        pow10(a) >= 1,
    decreases a,
{
    if a > 0 {
        lemma_pow10_positive((a - 1) as nat);
    }
}

/// Index of the first `.` at or after `start`, or the length if none.
fn find_dot(v: &Vec<char>, start: usize) -> (e: usize)
    requires
        start <= v@.len(),
    ensures
        e == seg_end(v@, start as int),
        start <= e <= v@.len(),
{
    let n: usize = v.len();
    let mut e: usize = start;
    while e < n && v[e] != '.'
        invariant
            start <= e <= n,
            n == v@.len(),
            forall|j: int| start <= j < e ==> v@[j] != '.',
        decreases n - e,
    {
        e += 1;
    }
    proof {
        lemma_seg_end_at(v@, start as int, e as int);
    }
    e
}

/// Whether `s` is a plain decimal numeral that fits a `u64` component.
pub open spec fn u64_string_ok(s: Seq<char>) -> bool {
    s.len() >= 1 && run_end(s, 0) == s.len() && s.len() <= MAX_COMPONENT_DIGITS
}

/// The numeric value of the numeral `s`.
pub open spec fn u64_string_val(s: Seq<char>) -> int {
    num_val(s, 0, s.len() as int)
}

/// Parse an unsigned decimal numeral made of digits alone.
pub fn parse_u64_digits(s: &str) -> (r: Option<u64>)
    ensures
        match r {
            Some(n) => u64_string_ok(s@) && n == u64_string_val(s@),
            None => !u64_string_ok(s@),
        },
{
    let v = crate::strutil::chars_of(s);
    let n: usize = v.len();
    if n == 0 {
        return None;
    }
    match parse_component(&v, 0) {
        None => {
            proof {
                lemma_run_end_bounds(v@, 0);
            }
            None
        },
        Some((val, re)) => {
            if re == n {
                Some(val)
            } else {
                proof {
                    lemma_run_end_bounds(v@, 0);
                }
                None
            }
        },
    }
}

/// Parse `s` into a numeric triple; `None` exactly when `s` has no
/// leading digit or a component overflows.
pub fn parse_version(s: &str) -> (r: Option<Version>)
    ensures
        r is Some <==> version_ok(s@),
        r matches Some(ver) ==> ver.is_parse_of(s@),
{
    let v = crate::strutil::chars_of(s);
    let n: usize = v.len();
    let major = match parse_component(&v, 0) {
        None => {
            return None;
        },
        Some((val, re)) => {
            if re == 0 {
                return None;
            }
            val
        },
    };
    let e1 = find_dot(&v, 0);
    let st2: usize = if e1 == n {
        n
    } else {
        e1 + 1
    };
    proof {
        lemma_seg_end_bounds(v@, 0);
        assert(st2 == minor_start(v@));
    }
    let minor = match parse_component(&v, st2) {
        None => {
            return None;
        },
        Some((val, _)) => val,
    };
    let e2 = find_dot(&v, st2);
    let st3: usize = if e2 == n {
        n
    } else {
        e2 + 1
    };
    proof {
        lemma_seg_end_bounds(v@, st2 as int);
        assert(st3 == patch_start(v@));
    }
    let patch = match parse_component(&v, st3) {
        None => {
            return None;
        },
        Some((val, _)) => val,
    };
    Some(Version { major, minor, patch })
}

} // verus!
