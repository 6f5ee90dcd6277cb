//! Update policies, event sources, and their parsing from the annotations of
//! a watched resource.

use vstd::prelude::*;
use vstd::string::*;
use crate::strutil::{lower_seq, lower_str, str_eq, split_csv_trim, split_commas, trim_seq, views_of};
use crate::version::{u64_string_ok, u64_string_val, parse_u64_digits};

verus! {

// Annotation keys read from a watched resource's metadata.
pub const POLICY_KEY: &'static str = "headwind.sh/policy";

pub const PATTERN_KEY: &'static str = "headwind.sh/pattern";

pub const REQUIRE_APPROVAL_KEY: &'static str = "headwind.sh/require-approval";

pub const MIN_UPDATE_INTERVAL_KEY: &'static str = "headwind.sh/min-update-interval";

pub const IMAGES_KEY: &'static str = "headwind.sh/images";

pub const LAST_UPDATE_KEY: &'static str = "headwind.sh/last-update";

pub const EVENT_SOURCE_KEY: &'static str = "headwind.sh/event-source";

pub const POLLING_INTERVAL_KEY: &'static str = "headwind.sh/polling-interval";

/// How far an observed new version may depart from the running one.
#[derive(Clone, Copy, Debug, PartialEq, Eq, Structural)]
pub enum UpdatePolicy {
    /// Only a patch-level increase.
    Patch,
    /// A minor- or patch-level increase.
    Minor,
    /// Any strict increase at any tier.
    Major,
    /// Any version different from the current one.
    All,
    /// Versions matching a glob pattern.
    Glob,
    /// Always, even onto the same version.
    Force,
    /// Never update automatically.
    Never,
}

/// Which signal paths may propose updates for a resource.
#[derive(Clone, Copy, Debug, PartialEq, Eq, Structural)]
pub enum EventSource {
    /// Push notifications only.
    Webhook,
    /// Registry polling only.
    Polling,
    /// Both push and polling.
    Both,
    /// Neither: only manually created requests.
    Manual,
}

/// Where an update proposal arrived from.
#[derive(Clone, Copy, Debug, PartialEq, Eq, Structural)]
pub enum SignalSource {
    /// A push notification from a registry.
    Webhook,
    /// A poll cycle's observation.
    Polling,
}

/// Event-source gating: whether a resource configured with `es` accepts
/// proposals arriving from `source`. `Manual` accepts neither path.
pub open spec fn spec_event_allowed(es: EventSource, source: SignalSource) -> bool {
    match es {
        EventSource::Webhook => source == SignalSource::Webhook,
        EventSource::Polling => source == SignalSource::Polling,
        EventSource::Both => true,
        EventSource::Manual => false,
    }
}

impl EventSource {
    /// Whether this resource accepts proposals arriving from `source`.
    pub fn allows(&self, source: SignalSource) -> (r: bool)
        ensures
            r == spec_event_allowed(*self, source),
    {
        match self {
            EventSource::Webhook => matches!(source, SignalSource::Webhook),
            EventSource::Polling => matches!(source, SignalSource::Polling),
            EventSource::Both => true,
            EventSource::Manual => false,
        }
    }
}

impl Default for EventSource {
    /// Push notifications are the default signal path.
    fn default() -> (r: Self)
        ensures
            r == EventSource::Webhook,
    {
        EventSource::Webhook
    }
}

/// A policy or event-source keyword that could not be understood.
#[derive(Clone, Debug)]
pub enum PolicyError {
    /// The update-policy keyword is not one of the known ones.
    InvalidPolicy(String),
    /// The event-source keyword is not one of the known ones.
    InvalidEventSource(String),
    /// A glob policy without a pattern to match against.
    InvalidPattern,
    /// A version string that does not parse as a numeric triple.
    UnparseableVersion,
}

/// A resource whose annotations do not describe a usable policy.
#[derive(Clone, Debug)]
pub enum ConfigError {
    /// The policy annotation is absent.
    MissingPolicy,
    /// The policy annotation holds an unknown keyword.
    UnknownPolicy(String),
}

/// The update policy named by an already-lowercased keyword.
pub open spec fn policy_keyword(s: Seq<char>) -> Option<UpdatePolicy> {
    if s == "patch"@ {
        Some(UpdatePolicy::Patch)
    } else if s == "minor"@ {
        Some(UpdatePolicy::Minor)
    } else if s == "major"@ {
        Some(UpdatePolicy::Major)
    } else if s == "all"@ {
        Some(UpdatePolicy::All)
    } else if s == "glob"@ {
        Some(UpdatePolicy::Glob)
    } else if s == "force"@ {
        Some(UpdatePolicy::Force)
    } else if s == "none"@ {
        Some(UpdatePolicy::Never)
    } else {
        None
    }
}

/// The event source named by an already-lowercased keyword.
pub open spec fn event_source_keyword(s: Seq<char>) -> Option<EventSource> {
    if s == "webhook"@ {
        Some(EventSource::Webhook)
    } else if s == "polling"@ {
        Some(EventSource::Polling)
    } else if s == "both"@ {
        Some(EventSource::Both)
    } else if s == "none"@ {
        Some(EventSource::Manual)
    } else {
        None
    }
}

impl UpdatePolicy {
    /// Parse a policy keyword, case-insensitively.
    pub fn parse(s: &str) -> (r: Result<UpdatePolicy, PolicyError>)
        ensures
            match r {
                Ok(p) => policy_keyword(lower_seq(s@)) == Some(p),
                Err(e) => policy_keyword(lower_seq(s@)) is None && (e matches
                PolicyError::InvalidPolicy(orig) && orig@ == s@),
            },
    {
        let low = lower_str(s);
        let l = low.as_str();
        if str_eq(l, "patch") {
            Ok(UpdatePolicy::Patch)
        } else if str_eq(l, "minor") {
            Ok(UpdatePolicy::Minor)
        } else if str_eq(l, "major") {
            Ok(UpdatePolicy::Major)
        } else if str_eq(l, "all") {
            Ok(UpdatePolicy::All)
        } else if str_eq(l, "glob") {
            Ok(UpdatePolicy::Glob)
        } else if str_eq(l, "force") {
            Ok(UpdatePolicy::Force)
        } else if str_eq(l, "none") {
            Ok(UpdatePolicy::Never)
        } else {
            Err(PolicyError::InvalidPolicy(String::from_str(s)))
        }
    }
}

impl EventSource {
    /// Parse an event-source keyword, case-insensitively.
    pub fn parse(s: &str) -> (r: Result<EventSource, PolicyError>)
        ensures
            match r {
                Ok(p) => event_source_keyword(lower_seq(s@)) == Some(p),
                Err(e) => event_source_keyword(lower_seq(s@)) is None && (e matches
                PolicyError::InvalidEventSource(orig) && orig@ == s@),
            },
    {
        let low = lower_str(s);
        let l = low.as_str();
        if str_eq(l, "webhook") {
            Ok(EventSource::Webhook)
        } else if str_eq(l, "polling") {
            Ok(EventSource::Polling)
        } else if str_eq(l, "both") {
            Ok(EventSource::Both)
        } else if str_eq(l, "none") {
            Ok(EventSource::Manual)
        } else {
            Err(PolicyError::InvalidEventSource(String::from_str(s)))
        }
    }
}

/// The per-resource update policy read from annotations.
#[derive(Clone, Debug)]
pub struct ResourcePolicy {
    /// How far a new version may depart from the running one.
    pub policy: UpdatePolicy,
    /// Pattern for the glob policy.
    pub pattern: Option<String>,
    /// Whether a human must approve before the update is applied.
    pub require_approval: bool,
    /// Minimum number of seconds between applied updates.
    pub min_update_interval: Option<u64>,
    /// Image references to track; empty means all.
    pub images: Vec<String>,
    /// Which signal paths may propose updates.
    pub event_source: EventSource,
    /// Per-resource polling interval in seconds.
    pub polling_interval: Option<u64>,
}

impl Default for ResourcePolicy {
    /// The conservative policy used when nothing is configured: never update,
    /// require approval, and wait five minutes between applied updates.
    fn default() -> (r: Self)
        ensures
            r.policy == UpdatePolicy::Never,
            r.pattern is None,
            r.require_approval == true,
            r.min_update_interval == Some(300u64),
            r.images@.len() == 0,
            r.event_source == EventSource::Webhook,
            r.polling_interval is None,
    {
        ResourcePolicy {
            policy: UpdatePolicy::Never,
            pattern: None,
            require_approval: true,
            min_update_interval: Some(300),
            images: Vec::new(),
            event_source: EventSource::Webhook,
            polling_interval: None,
        }
    }
}

/// One annotation, as a key/value pair.
#[derive(Clone, Debug)]
pub struct AnnotationPair {
    pub key: String,
    pub value: String,
}

/// The annotation values this crate reads, already picked out by key.
#[derive(Clone, Debug)]
pub struct Annotations {
    pub policy: Option<String>,
    pub pattern: Option<String>,
    pub require_approval: Option<String>,
    pub min_update_interval: Option<String>,
    pub images: Option<String>,
    pub event_source: Option<String>,
    pub polling_interval: Option<String>,
    pub last_update: Option<String>,
}

/// First value stored under `key` from index `i` on.
pub open spec fn lookup_from(pairs: Seq<AnnotationPair>, i: int, key: Seq<char>) -> Option<
    Seq<char>,
>
    decreases pairs.len() - i
    when 0 <= i <= pairs.len()
{
    if i == pairs.len() {
        None
    } else if pairs[i].key@ == key {
        Some(pairs[i].value@)
    } else {
        lookup_from(pairs, i + 1, key)
    }
}

/// First value stored under `key`.
pub open spec fn pairs_lookup(pairs: Seq<AnnotationPair>, key: Seq<char>) -> Option<Seq<char>> {
    lookup_from(pairs, 0, key)
}

/// Whether the optional string `o` holds exactly the looked-up value `l`.
pub open spec fn opt_matches(o: Option<String>, l: Option<Seq<char>>) -> bool {
    match o {
        Some(v) => l == Some(v@),
        None => l is None,
    }
}

/// First value stored under `key` in `pairs`.
pub fn find_value(pairs: &Vec<AnnotationPair>, key: &str) -> (r: Option<String>)
    ensures
        opt_matches(r, pairs_lookup(pairs@, key@)),
{
    let mut i: usize = 0;
    while i < pairs.len()
        invariant
            i <= pairs@.len(),
            lookup_from(pairs@, i as int, key@) == pairs_lookup(pairs@, key@),
        decreases pairs@.len() - i,
    {
        if str_eq(pairs[i].key.as_str(), key) {
            return Some(pairs[i].value.clone());
        }
        i += 1;
    }
    None
}

impl Annotations {
    /// Pick out the annotation values this crate reads from a resource's
    /// key/value metadata.
    pub fn from_pairs(pairs: &Vec<AnnotationPair>) -> (r: Annotations)
        ensures
            opt_matches(r.policy, pairs_lookup(pairs@, POLICY_KEY@)),
            opt_matches(r.pattern, pairs_lookup(pairs@, PATTERN_KEY@)),
            opt_matches(r.require_approval, pairs_lookup(pairs@, REQUIRE_APPROVAL_KEY@)),
            opt_matches(r.min_update_interval, pairs_lookup(pairs@, MIN_UPDATE_INTERVAL_KEY@)),
            opt_matches(r.images, pairs_lookup(pairs@, IMAGES_KEY@)),
            opt_matches(r.event_source, pairs_lookup(pairs@, EVENT_SOURCE_KEY@)),
            opt_matches(r.polling_interval, pairs_lookup(pairs@, POLLING_INTERVAL_KEY@)),
            opt_matches(r.last_update, pairs_lookup(pairs@, LAST_UPDATE_KEY@)),
    {
        Annotations {
            policy: find_value(pairs, POLICY_KEY),
            pattern: find_value(pairs, PATTERN_KEY),
            require_approval: find_value(pairs, REQUIRE_APPROVAL_KEY),
            min_update_interval: find_value(pairs, MIN_UPDATE_INTERVAL_KEY),
            images: find_value(pairs, IMAGES_KEY),
            event_source: find_value(pairs, EVENT_SOURCE_KEY),
            polling_interval: find_value(pairs, POLLING_INTERVAL_KEY),
            last_update: find_value(pairs, LAST_UPDATE_KEY),
        }
    }
}

/// `"true"` or `"false"`, exactly.
pub open spec fn bool_keyword(s: Seq<char>) -> Option<bool> {
    if s == "true"@ {
        Some(true)
    } else if s == "false"@ {
        Some(false)
    } else {
        None
    }
}

/// Parse `"true"` or `"false"`, exactly.
pub fn parse_bool(s: &str) -> (r: Option<bool>)
    ensures
        r == bool_keyword(s@),
{
    if str_eq(s, "true") {
        Some(true)
    } else if str_eq(s, "false") {
        Some(false)
    } else {
        None
    }
}

/// Whether approval is required, given the annotation value: absent or
/// malformed means yes.
pub open spec fn spec_require_approval(v: Option<String>) -> bool {
    match v {
        Some(s) => match bool_keyword(s@) {
            Some(b) => b,
            None => true,
        },
        None => true,
    }
}

/// The parsed seconds value of an optional numeric annotation; absent or
/// malformed means none.
pub open spec fn spec_opt_seconds(v: Option<String>, r: Option<u64>) -> bool {
    match v {
        Some(s) => match r {
            Some(n) => u64_string_ok(s@) && n == u64_string_val(s@),
            None => !u64_string_ok(s@),
        },
        None => r is None,
    }
}

/// The image filter described by an optional comma-separated annotation.
pub open spec fn spec_images(v: Option<String>, r: Seq<String>) -> bool {
    match v {
        Some(s) => views_of(r) == split_commas(s@).map_values(|p: Seq<char>| trim_seq(p)),
        None => r.len() == 0,
    }
}

/// The signal paths selected by the event-source annotation: absent or
/// malformed means the default, push notifications.
pub open spec fn spec_event_source(v: Option<String>) -> EventSource {
    match v {
        Some(s) => match event_source_keyword(lower_seq(s@)) {
            Some(e) => e,
            None => EventSource::Webhook,
        },
        None => EventSource::Webhook,
    }
}

/// What a successfully parsed resource policy holds, field by field, given
/// the annotations it was read from.
pub open spec fn parsed_policy_spec(a: Annotations, p: ResourcePolicy) -> bool {
    &&& a.policy matches Some(ps) && policy_keyword(lower_seq(ps@)) == Some(p.policy)
    &&& match a.pattern {
        Some(t) => p.pattern matches Some(u) && u@ == t@,
        None => p.pattern is None,
    }
    &&& p.require_approval == spec_require_approval(a.require_approval)
    &&& spec_opt_seconds(a.min_update_interval, p.min_update_interval)
    &&& spec_images(a.images, p.images@)
    &&& p.event_source == spec_event_source(a.event_source)
    &&& spec_opt_seconds(a.polling_interval, p.polling_interval)
}

/// Parse an optional numeric annotation; absent or malformed means none.
fn parse_opt_seconds(v: &Option<String>) -> (r: Option<u64>)
    ensures
        spec_opt_seconds(*v, r),
{
    match v {
        Some(s) => parse_u64_digits(s.as_str()),
        None => None,
    }
}

/// Build the resource policy that a resource's annotations describe.
///
/// Parsing succeeds exactly when the policy annotation is present and its
/// keyword is known: a missing one or an unknown keyword is a configuration
/// error. Every secondary annotation — pattern aside, which is kept as
/// written — falls back to its default when absent or malformed, the
/// event-source keyword included.
pub fn parse_policy_from_annotations(a: &Annotations) -> (r: Result<ResourcePolicy, ConfigError>)
    ensures
        match r {
            Ok(p) => parsed_policy_spec(*a, p),
            Err(e) => match e {
                ConfigError::MissingPolicy => a.policy is None,
                ConfigError::UnknownPolicy(s) => a.policy matches Some(ps) && s@ == ps@
                    && policy_keyword(lower_seq(ps@)) is None,
            },
        },
{
    let policy_str = match &a.policy {
        Some(s) => s,
        None => {
            return Err(ConfigError::MissingPolicy);
        },
    };
    let policy = match UpdatePolicy::parse(policy_str.as_str()) {
        Ok(p) => p,
        Err(_) => {
            return Err(ConfigError::UnknownPolicy(policy_str.clone()));
        },
    };
    let event_source = match &a.event_source {
        Some(es) => match EventSource::parse(es.as_str()) {
            Ok(e) => e,
            Err(_) => EventSource::Webhook,
        },
        None => EventSource::Webhook,
    };
    let pattern = match &a.pattern {
        Some(t) => Some(t.clone()),
        None => None,
    };
    let require_approval = match &a.require_approval {
        Some(v) => match parse_bool(v.as_str()) {
            Some(b) => b,
            None => true,
        },
        None => true,
    };
    let min_update_interval = parse_opt_seconds(&a.min_update_interval);
    let images = match &a.images {
        Some(s) => split_csv_trim(s.as_str()),
        None => Vec::new(),
    };
    let polling_interval = parse_opt_seconds(&a.polling_interval);
    Ok(
        ResourcePolicy {
            policy,
            pattern,
            require_approval,
            min_update_interval,
            images,
            event_source,
            polling_interval,
        },
    )
}

/// Build a resource policy around an already-parsed policy keyword, reading
/// the remaining knobs from the annotations.
pub fn build_resource_policy(a: &Annotations, policy: UpdatePolicy) -> (r: ResourcePolicy)
    ensures
        r.policy == policy,
        match a.pattern {
            Some(t) => r.pattern matches Some(u) && u@ == t@,
            None => r.pattern is None,
        },
        r.require_approval == spec_require_approval(a.require_approval),
        spec_opt_seconds(a.min_update_interval, r.min_update_interval),
        r.images@.len() == 0,
        r.event_source == EventSource::Webhook,
        r.polling_interval is None,
{
    let pattern = match &a.pattern {
        Some(t) => Some(t.clone()),
        None => None,
    };
    let require_approval = match &a.require_approval {
        Some(v) => match parse_bool(v.as_str()) {
            Some(b) => b,
            None => true,
        },
        None => true,
    };
    let min_update_interval = parse_opt_seconds(&a.min_update_interval);
    ResourcePolicy {
        policy,
        pattern,
        require_approval,
        min_update_interval,
        images: Vec::new(),
        event_source: EventSource::Webhook,
        polling_interval: None,
    }
}

} // verus!
