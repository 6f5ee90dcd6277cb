//! The polling-side event-dedup cache: at most one normalized event per
//! newly observed tag, however many poll cycles observe it.

use vstd::prelude::*;
use vstd::string::*;
use crate::engine::{lex_gt, spec_triple, tier_allows_versions};
use crate::image::{extract_registry, spec_extract_registry};
use crate::oci::{oci_parse_ok, oci_registry_of, oci_repository_of, split_reference};
use crate::policy::UpdatePolicy;
use crate::strutil::str_eq;
use crate::version::{parse_version, version_ok};
use crate::webhook::ImagePushEvent;

verus! {

/// Registry polling configuration.
#[derive(Clone, Debug)]
pub struct PollingConfig {
    /// Seconds between poll cycles.
    pub interval: u64,
    /// Whether polling runs at all.
    pub enabled: bool,
}

impl Default for PollingConfig {
    /// Polling is off by default (push notifications preferred), and would
    /// run every five minutes.
    fn default() -> (r: Self)
        ensures
            r.interval == 300,
            r.enabled == false,
    {
        PollingConfig { interval: 300, enabled: false }
    }
}

/// One remembered image-to-tag association.
#[derive(Debug)]
pub struct TagEntry {
    pub image: String,
    pub tag: String,
}

/// Position of the first entry for `img`, from `i` on; `-1` if none.
pub open spec fn entry_from(s: Seq<TagEntry>, i: int, img: Seq<char>) -> int
    decreases s.len() - i
    when 0 <= i <= s.len()
{
    if i == s.len() {
        -1
    } else if s[i].image@ == img {
        i
    } else {
        entry_from(s, i + 1, img)
    }
}

/// The tag last observed for `img`, if any.
pub open spec fn cache_lookup(s: Seq<TagEntry>, img: Seq<char>) -> Option<Seq<char>> {
    let i = entry_from(s, 0, img);
    if i >= 0 {
        Some(s[i].tag@)
    } else {
        None
    }
}

pub proof fn lemma_entry_from_props(s: Seq<TagEntry>, i: int, img: Seq<char>)
    requires
        0 <= i <= s.len(),
    ensures
        entry_from(s, i, img) == -1 || i <= entry_from(s, i, img) < s.len(),
        entry_from(s, i, img) == -1 ==> forall|k: int| i <= k < s.len() ==> s[k].image@ != img,
        entry_from(s, i, img) >= 0 ==> s[entry_from(s, i, img)].image@ == img && forall|k: int|
            i <= k < entry_from(s, i, img) ==> s[k].image@ != img,
    decreases s.len() - i,
{
    if i < s.len() && s[i].image@ != img {
        lemma_entry_from_props(s, i + 1, img);
    }
}

/// A scan whose first entry for `img` sits at `f` pins down `entry_from`.
pub proof fn lemma_entry_from_at(s: Seq<TagEntry>, i: int, f: int, img: Seq<char>)
    requires
        0 <= i <= f <= s.len(),
        forall|k: int| i <= k < f ==> s[k].image@ != img,
        f == s.len() || s[f].image@ == img,
    ensures
        entry_from(s, i, img) == if f == s.len() {
            -1int
        } else {
            f
        },
    decreases f - i,
{
    if i < f {
        lemma_entry_from_at(s, i + 1, f, img);
    }
}

/// Replacing an entry's tag changes no other image's lookup.
proof fn lemma_entry_update_other(s: Seq<TagEntry>, k: int, i: int, e: TagEntry, img: Seq<char>)
    requires
        0 <= k <= s.len(),
        0 <= i < s.len(),
        e.image@ == s[i].image@,
        img != s[i].image@,
    ensures
        entry_from(s.update(i, e), k, img) == entry_from(s, k, img),
    decreases s.len() - k,
{
    if k < s.len() {
        lemma_entry_update_other(s, k + 1, i, e, img);
    }
}

/// Appending an entry changes no other image's lookup.
proof fn lemma_entry_push_other(s: Seq<TagEntry>, k: int, e: TagEntry, img: Seq<char>)
    requires
        0 <= k <= s.len(),
        img != e.image@,
    ensures
        entry_from(s.push(e), k, img) == entry_from(s, k, img),
    decreases s.len() - k,
{
    if k < s.len() {
        lemma_entry_push_other(s, k + 1, e, img);
    } else {
        assert(entry_from(s.push(e), k, img) == entry_from(s.push(e), k + 1, img));
    }
}

/// Whether observing `tag` for `img` against cache `c` signals a new tag.
pub open spec fn spec_emit(c: Seq<TagEntry>, img: Seq<char>, tag: Seq<char>) -> bool {
    cache_lookup(c, img) != Some(tag)
}

/// What one observation leaves behind: the cache now maps `img` to `tag`,
/// and every other image's entry is untouched.
pub open spec fn observation_recorded(
    old_c: Seq<TagEntry>,
    new_c: Seq<TagEntry>,
    img: Seq<char>,
    tag: Seq<char>,
) -> bool {
    &&& cache_lookup(new_c, img) == Some(tag)
    &&& forall|other: Seq<char>|
        other != img ==> #[trigger] cache_lookup(new_c, other) == cache_lookup(old_c, other)
}

/// One signal per new tag: once a poll cycle has recorded an observation,
/// a later cycle seeing the same tag for the same image emits nothing.
pub proof fn lemma_second_observation_silent(
    c0: Seq<TagEntry>,
    c1: Seq<TagEntry>,
    img: Seq<char>,
    tag: Seq<char>,
)
    requires
        observation_recorded(c0, c1, img, tag),
    ensures
        !spec_emit(c1, img, tag),
{
}

/// The last-observed tag per tracked image, for one process's lifetime.
#[derive(Debug)]
pub struct TagCache {
    entries: Vec<TagEntry>,
}

impl TagCache {
    /// The remembered associations, in insertion order.
    pub closed spec fn entries(self) -> Seq<TagEntry> {
        self.entries@
    }

    /// At most one entry per image, which every method preserves.
    pub open spec fn wf(self) -> bool {
        forall|a: int, b: int|
            0 <= a < b < self.entries().len() ==> #[trigger] self.entries()[a].image@
                != #[trigger] self.entries()[b].image@
    }

    /// An empty cache.
    pub fn new() -> (r: Self)
        ensures
            r.entries() == Seq::<TagEntry>::empty(),
            r.wf(),
    {
        TagCache { entries: Vec::new() }
    }

    /// How many images have been observed.
    pub fn len(&self) -> (n: usize)
        ensures
            n == self.entries().len(),
    {
        self.entries.len()
    }

    /// The tag last observed for `image`, if any.
    pub fn lookup(&self, image: &str) -> (r: Option<&String>)
        ensures
            match r {
                Some(t) => cache_lookup(self.entries(), image@) == Some(t@),
                None => cache_lookup(self.entries(), image@) is None,
            },
    {
        let mut i: usize = 0;
        while i < self.entries.len()
            invariant
                i <= self.entries@.len(),
                entry_from(self.entries@, i as int, image@) == entry_from(
                    self.entries@,
                    0,
                    image@,
                ),
            decreases self.entries@.len() - i,
        {
            if str_eq(self.entries[i].image.as_str(), image) {
                return Some(&self.entries[i].tag);
            }
            i += 1;
        }
        None
    }

    /// Record that `tag` was just observed for `image`; true exactly when
    /// this differs from what the cache held, i.e. when a normalized event
    /// is owed.
    pub fn observe(&mut self, image: &str, tag: &str) -> (emit: bool)
        requires
            old(self).wf(),
        ensures
            emit == spec_emit(old(self).entries(), image@, tag@),
            observation_recorded(old(self).entries(), final(self).entries(), image@, tag@),
            final(self).wf(),
    {
        let ghost s0 = self.entries@;
        let n = self.entries.len();
        let mut i: usize = 0;
        while i < n
            invariant
                i <= n,
                self.entries@ == s0,
                n == s0.len(),
                old(self).entries() == s0,
                old(self).wf(),
                forall|k: int| 0 <= k < i ==> s0[k].image@ != image@,
            decreases n - i,
        {
            if str_eq(self.entries[i].image.as_str(), image) {
                proof {
                    lemma_entry_from_at(s0, 0, i as int, image@);
                }
                if str_eq(self.entries[i].tag.as_str(), tag) {
                    proof {
                        assert(cache_lookup(s0, image@) == Some(tag@));
                        assert(forall|other: Seq<char>|
                            other != image@ ==> #[trigger] cache_lookup(s0, other) == cache_lookup(
                                s0,
                                other,
                            ));
                    }
                    return false;
                }
                let replaced = TagEntry {
                    image: self.entries[i].image.clone(),
                    tag: String::from_str(tag),
                };
                self.entries[i] = replaced;
                proof {
                    let s1 = self.entries@;
                    lemma_entry_from_at(s1, 0, i as int, image@);
                    assert(cache_lookup(s1, image@) == Some(tag@));
                    assert forall|other: Seq<char>| other != image@ implies #[trigger] cache_lookup(
                        s1,
                        other,
                    ) == cache_lookup(s0, other) by {
                        lemma_entry_from_props(s0, 0, other);
                        lemma_entry_update_other(s0, 0, i as int, s1[i as int], other);
                    }
                    assert forall|a: int, b: int|
                        0 <= a < b < s1.len() implies #[trigger] s1[a].image@
                        != #[trigger] s1[b].image@ by {
                        assert(s1[a].image@ == s0[a].image@ && s1[b].image@ == s0[b].image@);
                    }
                }
                return true;
            }
            i += 1;
        }
        proof {
            lemma_entry_from_at(s0, 0, n as int, image@);
            assert(cache_lookup(s0, image@) is None);
        }
        let fresh = TagEntry { image: String::from_str(image), tag: String::from_str(tag) };
        self.entries.push(fresh);
        proof {
            let s1 = self.entries@;
            lemma_entry_from_at(s1, 0, n as int, image@);
            assert(cache_lookup(s1, image@) == Some(tag@));
            assert forall|other: Seq<char>| other != image@ implies #[trigger] cache_lookup(
                s1,
                other,
            ) == cache_lookup(s0, other) by {
                lemma_entry_from_props(s0, 0, other);
                lemma_entry_push_other(s0, 0, s1[n as int], other);
            }
            assert forall|a: int, b: int| 0 <= a < b < s1.len() implies #[trigger] s1[a].image@
                != #[trigger] s1[b].image@ by {
                if b < n {
                    assert(s1[a].image@ == s0[a].image@ && s1[b].image@ == s0[b].image@);
                } else {
                    assert(s1[b].image@ == image@);
                    assert(s1[a].image@ == s0[a].image@);
                }
            }
        }
        true
    }
}

/// Whether tag `a` ranks above tag `b` as a version: a parseable version
/// outranks an unparseable one, and parseable versions compare as triples.
pub open spec fn rank_gt(a: Seq<char>, b: Seq<char>) -> bool {
    (version_ok(a) && !version_ok(b)) || (version_ok(a) && version_ok(b) && lex_gt(
        spec_triple(a),
        spec_triple(b),
    ))
}

/// The best tag among `ts[i..]`, with `cur` the best seen so far; earlier
/// entries win ties.
pub open spec fn best_from(ts: Seq<Seq<char>>, i: int, cur: Seq<char>) -> Seq<char>
    decreases ts.len() - i
    when 0 <= i <= ts.len()
{
    if i == ts.len() {
        cur
    } else if rank_gt(ts[i], cur) {
        best_from(ts, i + 1, ts[i])
    } else {
        best_from(ts, i + 1, cur)
    }
}

/// The tag selected as "latest" from a non-empty list: the highest-ranked
/// under the same version comparison the policy engine uses.
pub open spec fn spec_latest_tag(ts: Seq<Seq<char>>) -> Seq<char>
    recommends
        ts.len() > 0,
{
    best_from(ts, 1, ts[0])
}

fn rank_gt_exec(a: &str, b: &str) -> (r: bool)
    ensures
        r == rank_gt(a@, b@),
{
    let pa = parse_version(a);
    let pb = parse_version(b);
    match (pa, pb) {
        (Some(va), Some(vb)) => tier_allows_versions(UpdatePolicy::Major, vb, va),
        (Some(_), None) => true,
        (None, _) => false,
    }
}

/// The views of a list of tags.
pub open spec fn tag_views(v: Seq<String>) -> Seq<Seq<char>> {
    v.map_values(|x: String| x@)
}

/// Select the "latest" tag from a non-empty list by version ranking, never
/// by list position alone.
pub fn select_latest_tag(tags: &Vec<String>) -> (r: String)
    requires
        tags@.len() > 0,
    ensures
        r@ == spec_latest_tag(tag_views(tags@)),
{
    let ghost ts = tag_views(tags@);
    let mut best: usize = 0;
    let mut i: usize = 1;
    while i < tags.len()
        invariant
            1 <= i <= tags@.len(),
            best < i,
            ts == tag_views(tags@),
            ts.len() == tags@.len(),
            best_from(ts, i as int, ts[best as int]) == spec_latest_tag(ts),
        decreases tags@.len() - i,
    {
        if rank_gt_exec(tags[i].as_str(), tags[best].as_str()) {
            best = i;
        }
        i += 1;
    }
    tags[best].clone()
}

/// What tracked-image discovery reads off one workload: its policy
/// annotation, raw, and the image of every container in its pod template.
#[derive(Debug)]
pub struct WorkloadImages {
    /// The raw policy annotation value, if the workload has one.
    pub policy: Option<String>,
    /// The image reference of each container.
    pub images: Vec<String>,
}

/// A workload takes part in polling when it carries a policy annotation
/// other than the literal `none`.
pub open spec fn workload_eligible(w: WorkloadImages) -> bool {
    w.policy matches Some(p) && p@ != "none"@
}

/// Whether some string in `v` has view `s`.
pub open spec fn has_view(v: Seq<String>, s: Seq<char>) -> bool {
    exists|k: int| 0 <= k < v.len() && v[k]@ == s
}

/// Whether image `s` appears in a container of an eligible workload among
/// the first `n` workloads.
pub open spec fn tracked_upto(ws: Seq<WorkloadImages>, n: int, s: Seq<char>) -> bool {
    exists|i: int, j: int|
        #![trigger ws[i].images@[j]]
        0 <= i < n && workload_eligible(ws[i]) && 0 <= j < ws[i].images@.len()
            && ws[i].images@[j]@ == s
}

/// Whether image `s` appears in a container of an eligible workload.
pub open spec fn spec_tracked(ws: Seq<WorkloadImages>, s: Seq<char>) -> bool {
    tracked_upto(ws, ws.len() as int, s)
}

fn contains_str(v: &Vec<String>, s: &str) -> (r: bool)
    ensures
        r == has_view(v@, s@),
{
    let mut i: usize = 0;
    while i < v.len()
        invariant
            i <= v@.len(),
            forall|k: int| 0 <= k < i ==> v@[k]@ != s@,
        decreases v@.len() - i,
    {
        if str_eq(v[i].as_str(), s) {
            return true;
        }
        i += 1;
    }
    false
}

/// The distinct images to poll: every container image of every workload
/// whose policy annotation is present and not `none`, recomputed from the
/// given scan so newly annotated workloads are picked up without a restart.
pub fn tracked_images(workloads: &Vec<WorkloadImages>) -> (r: Vec<String>)
    ensures
        forall|s: Seq<char>| #[trigger] has_view(r@, s) <==> spec_tracked(workloads@, s),
        forall|a: int, b: int| 0 <= a < b < r@.len() ==> r@[a]@ != r@[b]@,
{
    let ghost ws = workloads@;
    let mut out: Vec<String> = Vec::new();
    let mut wi: usize = 0;
    while wi < workloads.len()
        invariant
            wi <= ws.len(),
            ws == workloads@,
            forall|s: Seq<char>| #[trigger] has_view(out@, s) <==> tracked_upto(ws, wi as int, s),
            forall|a: int, b: int| 0 <= a < b < out@.len() ==> out@[a]@ != out@[b]@,
        decreases ws.len() - wi,
    {
        let eligible = match &workloads[wi].policy {
            Some(p) => !str_eq(p.as_str(), "none"),
            None => false,
        };
        if eligible {
            let imgs = &workloads[wi].images;
            let mut ci: usize = 0;
            while ci < imgs.len()
                invariant
                    wi < ws.len(),
                    ws == workloads@,
                    ci <= imgs@.len(),
                    imgs@ == ws[wi as int].images@,
                    workload_eligible(ws[wi as int]),
                    forall|s: Seq<char>| #[trigger] has_view(out@, s) <==> (tracked_upto(
                        ws,
                        wi as int,
                        s,
                    ) || exists|j: int| 0 <= j < ci && ws[wi as int].images@[j]@ == s),
                    forall|a: int, b: int| 0 <= a < b < out@.len() ==> out@[a]@ != out@[b]@,
                decreases imgs@.len() - ci,
            {
                let ghost out0 = out@;
                if !contains_str(&out, imgs[ci].as_str()) {
                    out.push(imgs[ci].clone());
                    proof {
                        assert forall|s: Seq<char>| #[trigger] has_view(out@, s) implies (
                        tracked_upto(ws, wi as int, s) || exists|j: int|
                            0 <= j < ci + 1 && ws[wi as int].images@[j]@ == s) by {
                            let k = choose|k: int| 0 <= k < out@.len() && out@[k]@ == s;
                            if k < out0.len() {
                                assert(has_view(out0, s));
                            } else {
                                assert(out@[k]@ == ws[wi as int].images@[ci as int]@);
                                assert(0 <= ci < ci + 1 && ws[wi as int].images@[ci as int]@ == s);
                            }
                        }
                        assert forall|s: Seq<char>|
                            (tracked_upto(ws, wi as int, s) || exists|j: int|
                                0 <= j < ci + 1 && ws[wi as int].images@[j]@ == s) implies
                        #[trigger] has_view(out@, s) by {
                            if tracked_upto(ws, wi as int, s) || (exists|j: int|
                                0 <= j < ci && ws[wi as int].images@[j]@ == s)
                            {
                                assert(has_view(out0, s));
                                let k = choose|k: int| 0 <= k < out0.len() && out0[k]@ == s;
                                assert(out@[k]@ == s);
                            } else {
                                assert(ws[wi as int].images@[ci as int]@ == s);
                                assert(out@[out0.len() as int]@ == s);
                            }
                        }
                    }
                } else {
                    proof {
                        assert(has_view(out@, ws[wi as int].images@[ci as int]@));
                    }
                }
                ci += 1;
            }
            proof {
                assert forall|s: Seq<char>| #[trigger] has_view(out@, s) <==> tracked_upto(
                    ws,
                    wi + 1,
                    s,
                ) by {
                    if has_view(out@, s) {
                        if !tracked_upto(ws, wi as int, s) {
                            let j = choose|j: int|
                                0 <= j < imgs@.len() && ws[wi as int].images@[j]@ == s;
                            assert(workload_eligible(ws[wi as int]));
                            assert(tracked_upto(ws, wi + 1, s));
                        } else {
                            let (i0, j0) = choose|i0: int, j0: int|
                                #![trigger ws[i0].images@[j0]]
                                0 <= i0 < wi && workload_eligible(ws[i0]) && 0 <= j0
                                    < ws[i0].images@.len() && ws[i0].images@[j0]@ == s;
                            assert(tracked_upto(ws, wi + 1, s));
                        }
                    }
                    if tracked_upto(ws, wi + 1, s) {
                        let (i0, j0) = choose|i0: int, j0: int|
                            #![trigger ws[i0].images@[j0]]
                            0 <= i0 < wi + 1 && workload_eligible(ws[i0]) && 0 <= j0
                                < ws[i0].images@.len() && ws[i0].images@[j0]@ == s;
                        if i0 < wi {
                            assert(tracked_upto(ws, wi as int, s));
                        }
                    }
                }
            }
        } else {
            proof {
                assert forall|s: Seq<char>| #[trigger] has_view(out@, s) <==> tracked_upto(
                    ws,
                    wi + 1,
                    s,
                ) by {
                    if tracked_upto(ws, wi + 1, s) {
                        let (i0, j0) = choose|i0: int, j0: int|
                            #![trigger ws[i0].images@[j0]]
                            0 <= i0 < wi + 1 && workload_eligible(ws[i0]) && 0 <= j0
                                < ws[i0].images@.len() && ws[i0].images@[j0]@ == s;
                        assert(i0 != wi);
                        assert(tracked_upto(ws, wi as int, s));
                    }
                    if tracked_upto(ws, wi as int, s) {
                        assert(tracked_upto(ws, wi + 1, s));
                    }
                }
            }
        }
        wi += 1;
    }
    out
}

/// A string that the OCI reference parser refuses.
#[derive(Clone, Copy, Debug, PartialEq, Eq, Structural)]
pub enum PollError {
    InvalidReference,
}

impl TagCache {
    /// One poll observation for `image`, given the tag list its registry
    /// returned: pick the latest tag by version ranking, and emit exactly
    /// one normalized event when it differs from the cached one. An empty
    /// tag list is no signal, and an unparseable reference is an error;
    /// neither touches the cache.
    pub fn poll_image(&mut self, image: &str, tags: &Vec<String>) -> (r: Result<
        Option<ImagePushEvent>,
        PollError,
    >)
        requires
            old(self).wf(),
        ensures
            final(self).wf(),
            !oci_parse_ok(image@) ==> r == Err::<Option<ImagePushEvent>, PollError>(
                PollError::InvalidReference,
            ) && final(self).entries() == old(self).entries(),
            oci_parse_ok(image@) && tags@.len() == 0 ==> r == Ok::<
                Option<ImagePushEvent>,
                PollError,
            >(None) && final(self).entries() == old(self).entries(),
            oci_parse_ok(image@) && tags@.len() > 0 ==> ({
                let best = spec_latest_tag(tag_views(tags@));
                &&& observation_recorded(
                    old(self).entries(),
                    final(self).entries(),
                    image@,
                    best,
                )
                &&& !spec_emit(old(self).entries(), image@, best) ==> r == Ok::<
                    Option<ImagePushEvent>,
                    PollError,
                >(None)
                &&& spec_emit(old(self).entries(), image@, best) ==> (r matches Ok(Some(ev))
                    && ev.registry@ == spec_extract_registry(oci_registry_of(image@))
                    && ev.repository@ == oci_repository_of(image@) && ev.tag@ == best
                    && ev.digest is None)
            }),
    {
        let parsed = split_reference(image);
        let (registry, repository) = match parsed {
            Some(p) => p,
            None => {
                return Err(PollError::InvalidReference);
            },
        };
        if tags.len() == 0 {
            return Ok(None);
        }
        let best = select_latest_tag(tags);
        let emit = self.observe(image, best.as_str());
        if !emit {
            return Ok(None);
        }
        Ok(
            Some(
                ImagePushEvent {
                    registry: extract_registry(registry.as_str()),
                    repository,
                    tag: best,
                    digest: None,
                },
            ),
        )
    }
}

} // verus!
