//! The version-policy engine: given a policy and two version strings, may
//! this upgrade proceed?

use vstd::prelude::*;
use crate::glob::{glob_match, glob_matches};
use crate::policy::{PolicyError, ResourcePolicy, UpdatePolicy};
use crate::strutil::str_eq;
use crate::version::{parse_version, spec_major, spec_minor, spec_patch, version_ok, Version};

verus! {

/// The numeric triple that the parse of `s` gives.
pub open spec fn spec_triple(s: Seq<char>) -> (int, int, int) {
    (spec_major(s), spec_minor(s), spec_patch(s))
}

/// Strict lexicographic order on version triples.
pub open spec fn lex_gt(a: (int, int, int), b: (int, int, int)) -> bool {
    a.0 > b.0 || (a.0 == b.0 && (a.1 > b.1 || (a.1 == b.1 && a.2 > b.2)))
}

/// Whether the tiered policy `p` lets the running triple `cur` move to the
/// candidate triple `cand`. Equal versions and downgrades never qualify.
pub open spec fn tier_allows(p: UpdatePolicy, cur: (int, int, int), cand: (int, int, int)) -> bool {
    match p {
        UpdatePolicy::Patch => cand.0 == cur.0 && cand.1 == cur.1 && cand.2 > cur.2,
        UpdatePolicy::Minor => cand.0 == cur.0 && (cand.1 > cur.1 || (cand.1 == cur.1 && cand.2
            > cur.2)),
        UpdatePolicy::Major => lex_gt(cand, cur),
        _ => false,
    }
}

/// The triple held by a parsed `Version` value.
pub open spec fn triple_of(v: Version) -> (int, int, int) {
    (v.major as int, v.minor as int, v.patch as int)
}

/// Tiered comparison on parsed versions.
pub fn tier_allows_versions(p: UpdatePolicy, cur: Version, cand: Version) -> (r: bool)
    ensures
        r == tier_allows(p, triple_of(cur), triple_of(cand)),
{
    match p {
        UpdatePolicy::Patch => cand.major == cur.major && cand.minor == cur.minor && cand.patch
            > cur.patch,
        UpdatePolicy::Minor => cand.major == cur.major && (cand.minor > cur.minor || (cand.minor
            == cur.minor && cand.patch > cur.patch)),
        UpdatePolicy::Major => cand.major > cur.major || (cand.major == cur.major && (cand.minor
            > cur.minor || (cand.minor == cur.minor && cand.patch > cur.patch))),
        _ => false,
    }
}

/// What `should_update` answers for a given policy and pair of versions:
/// `Force` always allows, `Never` never does, `All` asks only that the
/// candidate differ, `Glob` matches the candidate against the pattern, and
/// the tiered policies compare parsed triples, refusing conservatively when
/// either version does not parse.
pub open spec fn spec_should_update(policy: ResourcePolicy, cur: Seq<char>, cand: Seq<char>) -> Result<bool, PolicyError> {
    match policy.policy {
        UpdatePolicy::Force => Ok(true),
        UpdatePolicy::Never => Ok(false),
        UpdatePolicy::All => Ok(cur != cand),
        UpdatePolicy::Glob => match policy.pattern {
            Some(pat) => Ok(glob_matches(pat@, cand)),
            None => Err(PolicyError::InvalidPattern),
        },
        _ => Ok(version_ok(cur) && version_ok(cand) && tier_allows(
            policy.policy,
            spec_triple(cur),
            spec_triple(cand),
        )),
    }
}

/// Decide whether the upgrade from `current` to `candidate` may proceed.
///
/// Pure: no side effects, and the verdict depends only on the arguments. A
/// version that does not parse under a tiered policy yields `Ok(false)`;
/// `should_update_strict` reports it as an error instead.
pub fn should_update(policy: &ResourcePolicy, current: &str, candidate: &str) -> (r: Result<
    bool,
    PolicyError,
>)
    ensures
        r == spec_should_update(*policy, current@, candidate@),
{
    match policy.policy {
        UpdatePolicy::Force => Ok(true),
        UpdatePolicy::Never => Ok(false),
        UpdatePolicy::All => Ok(!str_eq(current, candidate)),
        UpdatePolicy::Glob => match &policy.pattern {
            Some(pat) => Ok(glob_match(pat.as_str(), candidate)),
            None => Err(PolicyError::InvalidPattern),
        },
        _ => {
            let cur = parse_version(current);
            let cand = parse_version(candidate);
            match (cur, cand) {
                (Some(a), Some(b)) => Ok(tier_allows_versions(policy.policy, a, b)),
                _ => Ok(false),
            }
        },
    }
}

/// A candidate equal to the running version never qualifies: under every
/// policy but `Force` (which ignores equality) and `Glob` (which looks only
/// at the candidate), the engine answers no.
pub proof fn lemma_equal_versions_refused(policy: ResourcePolicy, s: Seq<char>)
    requires
        policy.policy != UpdatePolicy::Force,
        policy.policy != UpdatePolicy::Glob,
    ensures
        spec_should_update(policy, s, s) == Ok::<bool, PolicyError>(false),
{
}

/// A downgrade never qualifies under the tiered policies: a candidate
/// triple lexicographically below the running one is refused.
pub proof fn lemma_downgrades_refused(policy: ResourcePolicy, cur: Seq<char>, cand: Seq<char>)
    requires
        policy.policy == UpdatePolicy::Patch || policy.policy == UpdatePolicy::Minor
            || policy.policy == UpdatePolicy::Major,
        lex_gt(spec_triple(cur), spec_triple(cand)),
    ensures
        spec_should_update(policy, cur, cand) == Ok::<bool, PolicyError>(false),
{
}

/// What `should_update_strict` answers: as `spec_should_update`, except that
/// an unparseable version under a tiered policy is an error.
pub open spec fn spec_should_update_strict(policy: ResourcePolicy, cur: Seq<char>, cand: Seq<char>) -> Result<bool, PolicyError> {
    match policy.policy {
        UpdatePolicy::Patch | UpdatePolicy::Minor | UpdatePolicy::Major => if version_ok(cur)
            && version_ok(cand) {
            Ok(tier_allows(policy.policy, spec_triple(cur), spec_triple(cand)))
        } else {
            Err(PolicyError::UnparseableVersion)
        },
        _ => spec_should_update(policy, cur, cand),
    }
}

/// As `should_update`, but in strict mode: a version that does not parse
/// under a tiered policy is reported as an error rather than refused
/// silently.
pub fn should_update_strict(policy: &ResourcePolicy, current: &str, candidate: &str) -> (r: Result<
    bool,
    PolicyError,
>)
    ensures
        r == spec_should_update_strict(*policy, current@, candidate@),
{
    match policy.policy {
        UpdatePolicy::Patch | UpdatePolicy::Minor | UpdatePolicy::Major => {
            let cur = parse_version(current);
            let cand = parse_version(candidate);
            match (cur, cand) {
                (Some(a), Some(b)) => Ok(tier_allows_versions(policy.policy, a, b)),
                _ => Err(PolicyError::UnparseableVersion),
            }
        },
        _ => should_update(policy, current, candidate),
    }
}

} // verus!
