//! The planning core of the reconciliation loop, shared by every watched
//! resource kind: resolve the running and candidate versions, consult the
//! policy engine, gate direct applies on the minimum update interval, and
//! decide between raising an approval request and applying directly. The
//! driver that watches the resource store performs what a plan says and
//! requeues; it never decides.

use vstd::prelude::*;
use vstd::string::*;
use crate::engine::{should_update, spec_should_update, spec_triple, tier_allows};
use crate::glob::glob_matches;
use crate::image::{image_with_tag, last_colon, parse_image};
use crate::policy::{
    build_resource_policy, parse_policy_from_annotations, parsed_policy_spec, policy_keyword,
    spec_require_approval, Annotations, ConfigError, PolicyError, ResourcePolicy, UpdatePolicy,
};
use crate::strutil::{chars_of, lemma_sep_end_at, lower_seq, sep_end, string_of, subvec};
use crate::requests::{
    spec_policy_to_crd, spec_request_name, request_name, map_policy_to_crd, TargetRef,
    UpdatePhase, UpdateRequest, UpdateRequestSpec, UpdateRequestStatus, UpdateType,
};
use crate::strutil::{is_prefix_of, starts_with_str, str_eq};
use crate::timefmt::{
    last_update_value, parse_rfc3339, rfc3339_epoch_of, rfc3339_parses, rfc3339_representable,
    spec_last_update_value,
};
use crate::version::version_ok;

verus! {

/// Requeue delay after an uneventful or successful pass.
pub const DEFAULT_REQUEUE_SECS: u64 = 300;

/// Requeue delay for resources without a usable policy.
pub const UNMANAGED_REQUEUE_SECS: u64 = 3600;

/// Requeue delay after a recoverable per-object error.
pub const ERROR_REQUEUE_SECS: u64 = 60;

/// First delay when a watch stream dies.
pub const INITIAL_STREAM_BACKOFF_SECS: u64 = 1;

/// Ceiling of the stream restart schedule.
pub const MAX_STREAM_BACKOFF_SECS: u64 = 60;

/// The next delay in the watch-stream restart schedule: doubled, capped.
pub open spec fn spec_next_backoff(b: u64) -> int {
    if 2 * (b as int) <= MAX_STREAM_BACKOFF_SECS {
        2 * (b as int)
    } else {
        MAX_STREAM_BACKOFF_SECS as int
    }
}

/// The next delay when a dropped watch stream is restarted: doubled, up to
/// the ceiling, so a dying stream never spins and never goes silent.
pub fn next_backoff(current: u64) -> (r: u64)
    ensures
        r == spec_next_backoff(current),
{
    if current > MAX_STREAM_BACKOFF_SECS / 2 {
        MAX_STREAM_BACKOFF_SECS
    } else {
        current * 2
    }
}

/// One container in a workload's pod template.
#[derive(Debug)]
pub struct ContainerSpec {
    pub name: String,
    pub image: String,
}

/// What the planner reads off a watched workload.
#[derive(Debug)]
pub struct WorkloadState {
    pub name: String,
    pub namespace: String,
    /// Resource kind, e.g. a daemon set or a deployment.
    pub kind: String,
    pub api_version: String,
    /// The containers of the pod template.
    pub containers: Vec<ContainerSpec>,
    /// Raw value of the last-update annotation, if present.
    pub last_update: Option<String>,
}

/// Immutable notification payload handed across the boundary; produced by
/// the planner, never retained.
#[derive(Debug)]
pub struct DeploymentInfo {
    pub name: String,
    pub namespace: String,
    pub current_image: String,
    pub new_image: String,
    pub container: Option<String>,
    pub resource_kind: Option<String>,
}

/// The notifications crossing to the notification collaborator.
#[derive(Clone, Copy, Debug, PartialEq, Eq, Structural)]
pub enum NotificationEvent {
    UpdateRequestCreated,
    UpdateCompleted,
}

/// Why one reconcile pass failed; the driver requeues with backoff, never
/// stops the loop.
#[derive(Debug)]
pub enum ReconcileError {
    /// The annotations do not describe a usable policy.
    Config(ConfigError),
    /// The policy engine could not evaluate the pair of versions.
    Policy(PolicyError),
    /// A container image without a tag separator.
    InvalidImage,
    /// No container runs the image the event is about.
    ContainerNotFound,
}

/// What one watch tick decides for an image-bearing workload, before any
/// event is in hand.
#[derive(Debug)]
pub enum TickDecision {
    /// No policy annotation, or an explicit `none`: not managed here; a
    /// fast no-op until the kind's default requeue.
    Unmanaged,
    /// Managed: the policy that events for this workload are judged by.
    Managed(ResourcePolicy),
}

/// Classify one watch tick for an image-bearing workload: a missing policy
/// annotation or an explicit `none` is a fast no-op, an unknown keyword is
/// a configuration error surfaced through the failure path, and anything
/// else leaves the workload managed under the parsed policy. The driver
/// requeues at the kind's default delay on a decision and at the error
/// delay on an error.
pub fn plan_tick(annotations: &Annotations) -> (r: Result<TickDecision, ConfigError>)
    ensures
        match annotations.policy {
            None => r matches Ok(TickDecision::Unmanaged),
            Some(ps) => match policy_keyword(lower_seq(ps@)) {
                None => r matches Err(ConfigError::UnknownPolicy(s)) && s@ == ps@,
                Some(UpdatePolicy::Never) => r matches Ok(TickDecision::Unmanaged),
                Some(pol) => r matches Ok(TickDecision::Managed(p)) && parsed_policy_spec(
                    *annotations,
                    p,
                ) && p.policy == pol,
            },
        },
{
    if matches!(&annotations.policy, None) {
        return Ok(TickDecision::Unmanaged);
    }
    let policy = match parse_policy_from_annotations(annotations) {
        Ok(p) => p,
        Err(e) => {
            return Err(e);
        },
    };
    if matches!(policy.policy, UpdatePolicy::Never) {
        Ok(TickDecision::Unmanaged)
    } else {
        Ok(TickDecision::Managed(policy))
    }
}

/// The timestamp part of a last-update annotation value: everything before
/// the first space, which cuts off the optional approver note.
pub open spec fn stamp_prefix(s: Seq<char>) -> Seq<char> {
    s.subrange(0, sep_end(s, 0, ' '))
}

/// The leading timestamp of a last-update annotation value.
fn stamp_prefix_exec(s: &str) -> (r: String)
    ensures
        r@ == stamp_prefix(s@),
{
    let v = chars_of(s);
    let n: usize = v.len();
    let mut e: usize = 0;
    while e < n && v[e] != ' '
        invariant
            e <= n,
            n == v@.len(),
            v@ == s@,
            forall|j: int| 0 <= j < e ==> v@[j] != ' ',
        decreases n - e,
    {
        e += 1;
    }
    proof {
        lemma_sep_end_at(v@, 0, e as int, ' ');
    }
    string_of(&subvec(&v, 0, e))
}

/// Whether the minimum-interval gate blocks a direct apply at `now`: an
/// interval is configured, the last-update stamp's leading timestamp
/// parses, and fewer seconds than the interval have passed since it. The
/// stamp may carry an approver note after the timestamp; only the leading
/// timestamp is compared.
pub open spec fn spec_throttled(min: Option<u64>, last: Option<String>, now: int) -> bool {
    match min {
        Some(m) => match last {
            Some(s) => rfc3339_parses(stamp_prefix(s@)) && now - rfc3339_epoch_of(
                stamp_prefix(s@),
            ) < m,
            None => false,
        },
        None => false,
    }
}

/// The minimum-interval gate, layered on top of the policy verdict and
/// applied before any direct apply, uniformly across resource kinds.
pub fn throttled(min: &Option<u64>, last: &Option<String>, now: i64) -> (r: bool)
    ensures
        r == spec_throttled(*min, *last, now as int),
{
    match min {
        Some(m) => match last {
            Some(s) => {
                let ts = stamp_prefix_exec(s.as_str());
                match parse_rfc3339(ts.as_str()) {
                    Some(t) => ((now as i128) - (t as i128)) < (*m as i128),
                    None => false,
                }
            },
            None => false,
        },
        None => false,
    }
}

/// Whether container `c` runs image `img`: its reference has a tag
/// separator, and either its name part equals `img` or its whole reference
/// starts with `img`.
pub open spec fn container_matches(c: ContainerSpec, img: Seq<char>) -> bool {
    last_colon(c.image@) >= 0 && (c.image@.subrange(0, last_colon(c.image@)) == img
        || is_prefix_of(img, c.image@))
}

/// The tag of a container's image reference.
pub open spec fn container_tag(c: ContainerSpec) -> Seq<char> {
    c.image@.subrange(last_colon(c.image@) + 1, c.image@.len() as int)
}

/// Scan for the container running `img`, from `i` on: the index of the
/// first match, `-1` when none matches, `-2` when a container image without
/// a tag separator is hit first.
pub open spec fn locate_from(cs: Seq<ContainerSpec>, img: Seq<char>, i: int) -> int
    decreases cs.len() - i
    when 0 <= i <= cs.len()
{
    if i == cs.len() {
        -1
    } else if last_colon(cs[i].image@) == -1 {
        -2
    } else if container_matches(cs[i], img) {
        i
    } else {
        locate_from(cs, img, i + 1)
    }
}

/// Scan for the container running `img`.
pub open spec fn locate_container(cs: Seq<ContainerSpec>, img: Seq<char>) -> int {
    locate_from(cs, img, 0)
}

/// A scan that passed `e` well-formed, non-matching containers may start
/// at `e`.
proof fn lemma_locate_skip(cs: Seq<ContainerSpec>, img: Seq<char>, e: int)
    requires
        0 <= e <= cs.len(),
        forall|k: int|
            0 <= k < e ==> last_colon(#[trigger] cs[k].image@) >= 0 && !container_matches(
                cs[k],
                img,
            ),
    ensures
        locate_container(cs, img) == locate_from(cs, img, e),
    decreases e,
{
    if e > 0 {
        lemma_locate_skip(cs, img, e - 1);
        assert(locate_from(cs, img, e - 1) == locate_from(cs, img, e));
    }
}

/// Find the container running `image` and the tag it currently runs.
fn locate_exec(containers: &Vec<ContainerSpec>, image: &str) -> (r: Result<
    (usize, String),
    ReconcileError,
>)
    ensures
        match r {
            Ok(p) => locate_container(containers@, image@) == p.0
                && p.0 < containers@.len() && p.1@ == container_tag(containers@[p.0 as int]),
            Err(ReconcileError::InvalidImage) => locate_container(containers@, image@) == -2,
            Err(ReconcileError::ContainerNotFound) => locate_container(containers@, image@) == -1,
            Err(_) => false,
        },
{
    let n = containers.len();
    let mut i: usize = 0;
    while i < n
        invariant
            i <= n,
            n == containers@.len(),
            forall|k: int|
                0 <= k < i ==> last_colon(#[trigger] containers@[k].image@) >= 0
                    && !container_matches(containers@[k], image@),
        decreases n - i,
    {
        let c = &containers[i];
        match parse_image(c.image.as_str()) {
            Err(_) => {
                proof {
                    lemma_locate_skip(containers@, image@, i as int);
                }
                return Err(ReconcileError::InvalidImage);
            },
            Ok((name, tag)) => {
                if str_eq(name.as_str(), image) || starts_with_str(c.image.as_str(), image) {
                    proof {
                        lemma_locate_skip(containers@, image@, i as int);
                    }
                    return Ok((i, tag));
                }
            },
        }
        i += 1;
    }
    proof {
        lemma_locate_skip(containers@, image@, n as int);
    }
    Err(ReconcileError::ContainerNotFound)
}

/// A day after `now`, clamped to the representable range.
pub open spec fn spec_expiry(now: i64) -> int {
    if now + 86400 <= i64::MAX {
        now + 86400
    } else {
        i64::MAX as int
    }
}

fn expiry_after(now: i64) -> (r: i64)
    ensures
        r == spec_expiry(now),
{
    if now <= i64::MAX - 86400 {
        now + 86400
    } else {
        i64::MAX
    }
}

fn image_reason(cur: &str, newv: &str) -> (r: String)
    ensures
        r@ == "Update from "@ + cur@ + " to "@ + newv@,
{
    let mut s = String::from_str("Update from ");
    s.append(cur);
    s.append(" to ");
    s.append(newv);
    proof {
        assert(s@ =~= "Update from "@ + cur@ + " to "@ + newv@);
    }
    s
}

fn chart_reason(newv: &str) -> (r: String)
    ensures
        r@ == "New chart version "@ + newv@ + " available"@,
{
    let mut s = String::from_str("New chart version ");
    s.append(newv);
    s.append(" available");
    proof {
        assert(s@ =~= "New chart version "@ + newv@ + " available"@);
    }
    s
}

/// One direct-apply step: patch exactly the matched container's image and
/// stamp the last-update annotation.
#[derive(Debug)]
pub struct ApplyStep {
    /// Name of the container whose image changes; the merge patch names
    /// this entry and touches no other.
    pub container_name: String,
    /// The full image reference to patch in.
    pub new_image: String,
    /// Value for the last-update annotation; absent only when the calendar
    /// crate cannot represent `now`.
    pub last_update: Option<String>,
}

/// What one image-update evaluation decided.
#[derive(Debug)]
pub enum UpdatePlan {
    /// The policy refused the candidate: record the verdict, mutate nothing.
    Rejected,
    /// The policy approved, but the minimum update interval has not passed:
    /// skip and requeue.
    Throttled,
    /// The policy approved and approval is required: store this request and
    /// announce `UpdateRequestCreated`.
    RequestApproval { request: UpdateRequest, info: DeploymentInfo },
    /// The policy approved and no approval is required: apply directly and
    /// announce `UpdateCompleted`.
    Apply { step: ApplyStep, info: DeploymentInfo },
}

/// The notification payload all plans about one upgrade share.
pub open spec fn info_spec(
    info: DeploymentInfo,
    name: Seq<char>,
    namespace: Seq<char>,
    kind: Seq<char>,
    img: Seq<char>,
    curv: Seq<char>,
    newv: Seq<char>,
) -> bool {
    &&& info.name@ == name
    &&& info.namespace@ == namespace
    &&& info.current_image@ == img + seq![':'] + curv
    &&& info.new_image@ == img + seq![':'] + newv
    &&& info.container is None
    &&& (info.resource_kind matches Some(k) && k@ == kind)
}

/// The request that an image-update pass raises when approval is required.
pub open spec fn image_request_spec(
    req: UpdateRequest,
    w: WorkloadState,
    pol: ResourcePolicy,
    img: Seq<char>,
    curv: Seq<char>,
    newv: Seq<char>,
    now: i64,
) -> bool {
    &&& req.name@ == spec_request_name(w.name@, newv)
    &&& req.namespace@ == w.namespace@
    &&& req.creation_timestamp == Some(now)
    &&& req.spec.target_ref.api_version@ == w.api_version@
    &&& req.spec.target_ref.kind@ == w.kind@
    &&& req.spec.target_ref.name@ == w.name@
    &&& req.spec.target_ref.namespace@ == w.namespace@
    &&& req.spec.update_type == UpdateType::Image
    &&& req.spec.container_name is None
    &&& req.spec.current_image@ == img + seq![':'] + curv
    &&& req.spec.new_image@ == img + seq![':'] + newv
    &&& req.spec.policy == spec_policy_to_crd(pol.policy)
    &&& (req.spec.reason matches Some(t) && t@ == "Update from "@ + curv + " to "@ + newv)
    &&& req.spec.require_approval == true
    &&& (req.spec.expires_at matches Some(e) && e == spec_expiry(now))
    &&& (req.status matches Some(st) && st.phase == UpdatePhase::Pending && st.approved_by is None
        && st.rejected_by is None && st.message is None)
}

/// The apply step of a direct update.
pub open spec fn apply_step_spec(
    step: ApplyStep,
    container_name: Seq<char>,
    img: Seq<char>,
    newv: Seq<char>,
    now: i64,
) -> bool {
    &&& step.container_name@ == container_name
    &&& step.new_image@ == img + seq![':'] + newv
    &&& (step.last_update is Some <==> rfc3339_representable(now as int))
    &&& (step.last_update matches Some(s) ==> s@ == spec_last_update_value(now as int, None))
}

/// A correctly stamped last-update value: present exactly when `now` is
/// representable, and then the RFC 3339 stamp with the approver recorded.
pub open spec fn stamp_spec(lu: Option<String>, approver: Option<Seq<char>>, now: i64) -> bool {
    &&& (lu is Some <==> rfc3339_representable(now as int))
    &&& (lu matches Some(s) ==> s@ == spec_last_update_value(now as int, approver))
}

/// A successful apply plan: the step names the located container, carries
/// the full new image reference, and is correctly stamped.
pub open spec fn planned_apply(
    r: Result<ApplyStep, ReconcileError>,
    container_name: Seq<char>,
    new_image: Seq<char>,
    approver: Option<Seq<char>>,
    now: i64,
) -> bool {
    &&& r matches Ok(step)
    &&& step.container_name@ == container_name
    &&& step.new_image@ == new_image
    &&& stamp_spec(step.last_update, approver, now)
}

/// Position of the first container whose image reference starts with
/// `img`, from `i` on; `-1` if none does.
pub open spec fn prefix_locate_from(cs: Seq<ContainerSpec>, img: Seq<char>, i: int) -> int
    decreases cs.len() - i
    when 0 <= i <= cs.len()
{
    if i == cs.len() {
        -1
    } else if is_prefix_of(img, cs[i].image@) {
        i
    } else {
        prefix_locate_from(cs, img, i + 1)
    }
}

/// Position of the first container whose image reference starts with `img`.
pub open spec fn prefix_locate(cs: Seq<ContainerSpec>, img: Seq<char>) -> int {
    prefix_locate_from(cs, img, 0)
}

proof fn lemma_prefix_locate_skip(cs: Seq<ContainerSpec>, img: Seq<char>, e: int)
    requires
        0 <= e <= cs.len(),
        forall|k: int| 0 <= k < e ==> !is_prefix_of(img, #[trigger] cs[k].image@),
    ensures
        prefix_locate(cs, img) == prefix_locate_from(cs, img, e),
    decreases e,
{
    if e > 0 {
        lemma_prefix_locate_skip(cs, img, e - 1);
    }
}

/// The apply step for an already-approved update: split `new_image` on its
/// last `:`, locate the target container by image-name prefix — the merge
/// patch will touch only that entry — and stamp the last-update annotation,
/// recording the approver when one is known.
pub fn plan_apply(
    containers: &Vec<ContainerSpec>,
    new_image: &str,
    approver: Option<&str>,
    now: i64,
) -> (r: Result<ApplyStep, ReconcileError>)
    ensures
        last_colon(new_image@) == -1 ==> r matches Err(ReconcileError::InvalidImage),
        last_colon(new_image@) >= 0 ==> ({
            let img = new_image@.subrange(0, last_colon(new_image@));
            let loc = prefix_locate(containers@, img);
            &&& loc == -1 ==> (r matches Err(ReconcileError::ContainerNotFound))
            &&& loc >= 0 ==> planned_apply(
                r,
                containers@[loc].name@,
                new_image@,
                match approver {
                    Some(a) => Some(a@),
                    None => None,
                },
                now,
            )
        }),
{
    let (image, _tag) = match parse_image(new_image) {
        Ok(p) => p,
        Err(_) => {
            return Err(ReconcileError::InvalidImage);
        },
    };
    let n = containers.len();
    let mut i: usize = 0;
    while i < n
        invariant
            i <= n,
            n == containers@.len(),
            last_colon(new_image@) >= 0,
            image@ == new_image@.subrange(0, last_colon(new_image@)),
            forall|k: int| 0 <= k < i ==> !is_prefix_of(image@, #[trigger] containers@[k].image@),
        decreases n - i,
    {
        if starts_with_str(containers[i].image.as_str(), image.as_str()) {
            proof {
                lemma_prefix_locate_skip(containers@, image@, i as int);
            }
            let mut full = String::new();
            full.append(new_image);
            proof {
                assert(full@ =~= new_image@);
            }
            return Ok(
                ApplyStep {
                    container_name: containers[i].name.clone(),
                    new_image: full,
                    last_update: last_update_value(now, approver),
                },
            );
        }
        i += 1;
    }
    proof {
        lemma_prefix_locate_skip(containers@, image@, n as int);
    }
    Err(ReconcileError::ContainerNotFound)
}

/// What one chart-release evaluation decided.
#[derive(Debug)]
pub enum HelmPlan {
    /// No policy annotation, or an explicit `none`: not managed here; look
    /// again after the long requeue.
    NotManaged,
    /// Nothing to do: no deployed revision recorded yet, no pinned version
    /// requested, or no drift between the two.
    InSync,
    /// The policy refused the candidate: record the verdict, mutate nothing.
    Rejected,
    /// The requested version drifts from the deployed one and the policy
    /// approves: store this request and announce `UpdateRequestCreated`.
    Propose { request: UpdateRequest, info: DeploymentInfo },
}

/// The engine's verdict for a chart release, phrased over the annotation
/// values a release carries: the same decision `should_update` makes for
/// the policy those annotations build.
pub open spec fn helm_verdict(
    pol: UpdatePolicy,
    pattern: Option<String>,
    dep: Seq<char>,
    cur: Seq<char>,
) -> Result<bool, PolicyError> {
    match pol {
        UpdatePolicy::Force => Ok(true),
        UpdatePolicy::Never => Ok(false),
        UpdatePolicy::All => Ok(dep != cur),
        UpdatePolicy::Glob => match pattern {
            Some(p) => Ok(glob_matches(p@, cur)),
            None => Err(PolicyError::InvalidPattern),
        },
        _ => Ok(version_ok(dep) && version_ok(cur) && tier_allows(
            pol,
            spec_triple(dep),
            spec_triple(cur),
        )),
    }
}

/// The request that a chart-release pass raises for an approved update.
pub open spec fn helm_request_spec(
    req: UpdateRequest,
    name: Seq<char>,
    namespace: Seq<char>,
    chart: Seq<char>,
    dep: Seq<char>,
    cur: Seq<char>,
    require_approval: bool,
    pol: UpdatePolicy,
    now: i64,
) -> bool {
    &&& req.name@ == spec_request_name(name, cur)
    &&& req.namespace@ == namespace
    &&& req.creation_timestamp == Some(now)
    &&& req.spec.target_ref.api_version@ == "helm.toolkit.fluxcd.io/v2"@
    &&& req.spec.target_ref.kind@ == "HelmRelease"@
    &&& req.spec.target_ref.name@ == name
    &&& req.spec.target_ref.namespace@ == namespace
    &&& req.spec.update_type == UpdateType::HelmChart
    &&& req.spec.container_name is None
    &&& req.spec.current_image@ == chart + seq![':'] + dep
    &&& req.spec.new_image@ == chart + seq![':'] + cur
    &&& req.spec.policy == spec_policy_to_crd(pol)
    &&& (req.spec.reason matches Some(t) && t@ == "New chart version "@ + cur + " available"@)
    &&& req.spec.require_approval == require_approval
    &&& req.spec.expires_at is None
    &&& (req.status matches Some(st) && st.phase == (if require_approval {
        UpdatePhase::Pending
    } else {
        UpdatePhase::Approved
    }) && st.approved_by is None && st.rejected_by is None && st.message is None)
}

/// The notification payload a chart proposal carries.
pub open spec fn helm_info_spec(
    info: DeploymentInfo,
    name: Seq<char>,
    namespace: Seq<char>,
    chart: Seq<char>,
    dep: Seq<char>,
    cur: Seq<char>,
) -> bool {
    &&& info.name@ == name
    &&& info.namespace@ == namespace
    &&& info.current_image@ == chart + seq![':'] + dep
    &&& info.new_image@ == chart + seq![':'] + cur
    &&& info.container is None
    &&& (info.resource_kind matches Some(k) && k@ == "HelmRelease"@)
}

/// Evaluate one chart release, mirroring the shared control-loop contract.
/// For charts the drift signal needs no external event: the requested chart
/// version (`spec_version`) against the last deployed revision
/// (`deployed_version`). A missing or `none` policy is a fast no-op; an
/// unknown keyword is a configuration error; an approved drift becomes a
/// stored request, pending when approval is required and approved outright
/// otherwise.
pub fn plan_helm_update(
    name: &str,
    namespace: &str,
    chart_name: &str,
    spec_version: &Option<String>,
    deployed_version: &Option<String>,
    annotations: &Annotations,
    now: i64,
) -> (r: Result<HelmPlan, ReconcileError>)
    ensures
        match annotations.policy {
            None => r matches Ok(HelmPlan::NotManaged),
            Some(ps) => match policy_keyword(lower_seq(ps@)) {
                None => r matches Err(ReconcileError::Config(ConfigError::UnknownPolicy(s)))
                    && s@ == ps@,
                Some(UpdatePolicy::Never) => r matches Ok(HelmPlan::NotManaged),
                Some(pol) => match *deployed_version {
                    None => r matches Ok(HelmPlan::InSync),
                    Some(dep) => match *spec_version {
                        None => r matches Ok(HelmPlan::InSync),
                        Some(cur) => if cur@ == "*"@ || cur@ == dep@ {
                            r matches Ok(HelmPlan::InSync)
                        } else {
                            match helm_verdict(pol, annotations.pattern, dep@, cur@) {
                                Err(e) => r == Err::<HelmPlan, ReconcileError>(
                                    ReconcileError::Policy(e),
                                ),
                                Ok(verdict) => if !verdict {
                                    r matches Ok(HelmPlan::Rejected)
                                } else {
                                    r matches Ok(HelmPlan::Propose { request, info })
                                        && helm_request_spec(
                                        request,
                                        name@,
                                        namespace@,
                                        chart_name@,
                                        dep@,
                                        cur@,
                                        spec_require_approval(annotations.require_approval),
                                        pol,
                                        now,
                                    ) && helm_info_spec(
                                        info,
                                        name@,
                                        namespace@,
                                        chart_name@,
                                        dep@,
                                        cur@,
                                    )
                                },
                            }
                        },
                    },
                },
            },
        },
{
    let policy = match &annotations.policy {
        None => {
            return Ok(HelmPlan::NotManaged);
        },
        Some(ps) => match UpdatePolicy::parse(ps.as_str()) {
            Ok(p) => p,
            Err(_) => {
                return Err(ReconcileError::Config(ConfigError::UnknownPolicy(ps.clone())));
            },
        },
    };
    if matches!(policy, UpdatePolicy::Never) {
        return Ok(HelmPlan::NotManaged);
    }
    let deployed = match deployed_version {
        None => {
            return Ok(HelmPlan::InSync);
        },
        Some(d) => d,
    };
    let current = match spec_version {
        None => {
            return Ok(HelmPlan::InSync);
        },
        Some(c) => c,
    };
    if str_eq(current.as_str(), "*") || str_eq(current.as_str(), deployed.as_str()) {
        return Ok(HelmPlan::InSync);
    }
    let rp = build_resource_policy(annotations, policy);
    let verdict = match should_update(&rp, deployed.as_str(), current.as_str()) {
        Ok(v) => {
            proof {
                assert(spec_should_update(rp, deployed@, current@) == helm_verdict(
                    policy,
                    annotations.pattern,
                    deployed@,
                    current@,
                ));
            }
            v
        },
        Err(e) => {
            proof {
                assert(spec_should_update(rp, deployed@, current@) == helm_verdict(
                    policy,
                    annotations.pattern,
                    deployed@,
                    current@,
                ));
            }
            return Err(ReconcileError::Policy(e));
        },
    };
    if !verdict {
        return Ok(HelmPlan::Rejected);
    }
    let info = DeploymentInfo {
        name: String::from_str(name),
        namespace: String::from_str(namespace),
        current_image: image_with_tag(chart_name, deployed.as_str()),
        new_image: image_with_tag(chart_name, current.as_str()),
        container: None,
        resource_kind: Some(String::from_str("HelmRelease")),
    };
    let request = UpdateRequest {
        name: request_name(name, current.as_str()),
        namespace: String::from_str(namespace),
        creation_timestamp: Some(now),
        spec: UpdateRequestSpec {
            target_ref: TargetRef {
                api_version: String::from_str("helm.toolkit.fluxcd.io/v2"),
                kind: String::from_str("HelmRelease"),
                name: String::from_str(name),
                namespace: String::from_str(namespace),
            },
            update_type: UpdateType::HelmChart,
            container_name: None,
            current_image: image_with_tag(chart_name, deployed.as_str()),
            new_image: image_with_tag(chart_name, current.as_str()),
            policy: map_policy_to_crd(&rp.policy),
            reason: Some(chart_reason(current.as_str())),
            require_approval: rp.require_approval,
            expires_at: None,
        },
        status: Some(
            UpdateRequestStatus {
                phase: if rp.require_approval {
                    UpdatePhase::Pending
                } else {
                    UpdatePhase::Approved
                },
                approved_by: None,
                rejected_by: None,
                message: None,
            },
        ),
    };
    Ok(HelmPlan::Propose { request, info })
}

/// Evaluate one available image update for a workload, mirroring the shared
/// control-loop contract: find the container running `image` and its
/// current tag, ask the policy engine about `new_version`, and decide. The
/// verdict refused is a recorded no-op; an approved update either becomes a
/// pending approval request or, with approval not required, a direct apply,
/// gated by the minimum update interval.
pub fn plan_image_update(
    w: &WorkloadState,
    policy: &ResourcePolicy,
    image: &str,
    new_version: &str,
    now: i64,
) -> (r: Result<UpdatePlan, ReconcileError>)
    ensures
        locate_container(w.containers@, image@) == -2 ==> r matches Err(
            ReconcileError::InvalidImage,
        ),
        locate_container(w.containers@, image@) == -1 ==> r matches Err(
            ReconcileError::ContainerNotFound,
        ),
        locate_container(w.containers@, image@) >= 0 ==> ({
            let loc = locate_container(w.containers@, image@);
            let curv = container_tag(w.containers@[loc]);
            match spec_should_update(*policy, curv, new_version@) {
                Err(e) => r == Err::<UpdatePlan, ReconcileError>(ReconcileError::Policy(e)),
                Ok(verdict) => if !verdict {
                    r matches Ok(UpdatePlan::Rejected)
                } else if policy.require_approval {
                    r matches Ok(UpdatePlan::RequestApproval { request, info })
                        && image_request_spec(
                        request,
                        *w,
                        *policy,
                        image@,
                        curv,
                        new_version@,
                        now,
                    ) && info_spec(
                        info,
                        w.name@,
                        w.namespace@,
                        w.kind@,
                        image@,
                        curv,
                        new_version@,
                    )
                } else if spec_throttled(
                    policy.min_update_interval,
                    w.last_update,
                    now as int,
                ) {
                    r matches Ok(UpdatePlan::Throttled)
                } else {
                    r matches Ok(UpdatePlan::Apply { step, info }) && apply_step_spec(
                        step,
                        w.containers@[loc].name@,
                        image@,
                        new_version@,
                        now,
                    ) && info_spec(
                        info,
                        w.name@,
                        w.namespace@,
                        w.kind@,
                        image@,
                        curv,
                        new_version@,
                    )
                },
            }
        }),
{
    let (idx, current_version) = match locate_exec(&w.containers, image) {
        Ok(p) => p,
        Err(e) => {
            return Err(e);
        },
    };
    let verdict = match should_update(policy, current_version.as_str(), new_version) {
        Ok(v) => v,
        Err(e) => {
            return Err(ReconcileError::Policy(e));
        },
    };
    if !verdict {
        return Ok(UpdatePlan::Rejected);
    }
    let current_image = image_with_tag(image, current_version.as_str());
    let new_image = image_with_tag(image, new_version);
    let info = DeploymentInfo {
        name: w.name.clone(),
        namespace: w.namespace.clone(),
        current_image,
        new_image,
        container: None,
        resource_kind: Some(w.kind.clone()),
    };
    if policy.require_approval {
        let request = UpdateRequest {
            name: request_name(w.name.as_str(), new_version),
            namespace: w.namespace.clone(),
            creation_timestamp: Some(now),
            spec: UpdateRequestSpec {
                target_ref: TargetRef {
                    api_version: w.api_version.clone(),
                    kind: w.kind.clone(),
                    name: w.name.clone(),
                    namespace: w.namespace.clone(),
                },
                update_type: UpdateType::Image,
                container_name: None,
                current_image: image_with_tag(image, current_version.as_str()),
                new_image: image_with_tag(image, new_version),
                policy: map_policy_to_crd(&policy.policy),
                reason: Some(image_reason(current_version.as_str(), new_version)),
                require_approval: true,
                expires_at: Some(expiry_after(now)),
            },
            status: Some(
                UpdateRequestStatus {
                    phase: UpdatePhase::Pending,
                    approved_by: None,
                    rejected_by: None,
                    message: None,
                },
            ),
        };
        Ok(UpdatePlan::RequestApproval { request, info })
    } else if throttled(&policy.min_update_interval, &w.last_update, now) {
        Ok(UpdatePlan::Throttled)
    } else {
        let step = ApplyStep {
            container_name: w.containers[idx].name.clone(),
            new_image: image_with_tag(image, new_version),
            last_update: last_update_value(now, None),
        };
        Ok(UpdatePlan::Apply { step, info })
    }
}

} // verus!
