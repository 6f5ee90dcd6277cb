use headwind::engine::{should_update, should_update_strict};
use headwind::glob::glob_match;
use headwind::image::{extract_registry, extract_versions, parse_image};
use headwind::policy::{
    parse_policy_from_annotations, AnnotationPair, Annotations, ConfigError, EventSource,
    PolicyError, ResourcePolicy, SignalSource, UpdatePolicy, MIN_UPDATE_INTERVAL_KEY,
    POLICY_KEY, REQUIRE_APPROVAL_KEY,
};
use headwind::dedup::PollingConfig;
use headwind::version::parse_version;

fn policy_with(policy: UpdatePolicy) -> ResourcePolicy {
    ResourcePolicy {
        policy,
        pattern: None,
        require_approval: true,
        min_update_interval: None,
        images: Vec::new(),
        event_source: EventSource::Webhook,
        polling_interval: None,
    }
}

fn allowed(policy: UpdatePolicy, current: &str, candidate: &str) -> bool {
    should_update(&policy_with(policy), current, candidate).unwrap()
}

#[test]
fn test_parse_image() {
    let (name, tag) = parse_image("myregistry.com/myimage:v1.2.3").unwrap();
    assert_eq!(name, "myregistry.com/myimage");
    assert_eq!(tag, "v1.2.3");

    let (name, tag) = parse_image("nginx:latest").unwrap();
    assert_eq!(name, "nginx");
    assert_eq!(tag, "latest");
}

#[test]
fn test_parse_image_invalid() {
    assert!(parse_image("invalid-no-tag").is_err());
}

#[test]
fn test_glob_match() {
    assert!(glob_match("v1.*.0", "v1.2.0"));
    assert!(glob_match("v1.*.0", "v1.99.0"));
    assert!(!glob_match("v1.*.0", "v1.2.1"));
    assert!(!glob_match("v1.*.0", "v2.0.0"));

    assert!(glob_match("v*-stable", "v1.2.3-stable"));
    assert!(glob_match("v*-stable", "v999-stable"));
    assert!(!glob_match("v*-stable", "v1.2.3-beta"));
}

#[test]
fn test_parse_policy_from_annotations() {
    let pairs = vec![
        AnnotationPair {
            key: POLICY_KEY.to_string(),
            value: "minor".to_string(),
        },
        AnnotationPair {
            key: REQUIRE_APPROVAL_KEY.to_string(),
            value: "false".to_string(),
        },
        AnnotationPair {
            key: MIN_UPDATE_INTERVAL_KEY.to_string(),
            value: "600".to_string(),
        },
    ];
    let annotations = Annotations::from_pairs(&pairs);

    let policy = parse_policy_from_annotations(&annotations).unwrap();
    assert_eq!(policy.policy, UpdatePolicy::Minor);
    assert!(!policy.require_approval);
    assert_eq!(policy.min_update_interval, Some(600));
}

#[test]
fn test_polling_config_default() {
    let config = PollingConfig::default();
    assert_eq!(config.interval, 300);
    assert!(!config.enabled);
}

#[test]
fn test_extract_registry() {
    assert_eq!(extract_registry(""), "docker.io");
    assert_eq!(extract_registry("gcr.io"), "gcr.io");
    assert_eq!(
        extract_registry("registry.example.com"),
        "registry.example.com"
    );
}

#[test]
fn patch_policy_verdicts() {
    assert!(allowed(UpdatePolicy::Patch, "1.2.3", "1.2.4"));
    assert!(allowed(UpdatePolicy::Patch, "1.2.3", "1.2.99"));
    assert!(!allowed(UpdatePolicy::Patch, "1.2.3", "1.3.0"));
    assert!(!allowed(UpdatePolicy::Patch, "1.2.3", "2.0.0"));
    assert!(!allowed(UpdatePolicy::Patch, "1.2.3", "1.2.3"));
    assert!(!allowed(UpdatePolicy::Patch, "1.2.3", "1.2.2"));
}

#[test]
fn minor_policy_verdicts() {
    assert!(allowed(UpdatePolicy::Minor, "1.2.3", "1.3.0"));
    assert!(allowed(UpdatePolicy::Minor, "1.2.3", "1.2.9"));
    assert!(!allowed(UpdatePolicy::Minor, "1.2.3", "2.0.0"));
    assert!(!allowed(UpdatePolicy::Minor, "1.2.3", "1.2.3"));
    assert!(!allowed(UpdatePolicy::Minor, "1.2.3", "1.1.9"));
}

#[test]
fn major_policy_verdicts() {
    assert!(allowed(UpdatePolicy::Major, "1.2.3", "2.0.0"));
    assert!(allowed(UpdatePolicy::Major, "1.2.3", "1.3.0"));
    assert!(allowed(UpdatePolicy::Major, "1.2.3", "1.2.4"));
    assert!(!allowed(UpdatePolicy::Major, "1.2.3", "1.2.3"));
    assert!(!allowed(UpdatePolicy::Major, "1.2.3", "1.2.2"));
}

#[test]
fn force_all_never_verdicts() {
    assert!(allowed(UpdatePolicy::Force, "1.2.3", "1.2.3"));
    assert!(allowed(UpdatePolicy::Force, "garbage", "also-garbage"));
    assert!(!allowed(UpdatePolicy::All, "1.2.3", "1.2.3"));
    assert!(allowed(UpdatePolicy::All, "1.2.3", "1.2.2"));
    assert!(!allowed(UpdatePolicy::Never, "1.2.3", "9.9.9"));
}

#[test]
fn glob_policy_through_engine() {
    let mut policy = policy_with(UpdatePolicy::Glob);
    policy.pattern = Some("v1.*.0".to_string());
    assert!(should_update(&policy, "v1.1.0", "v1.2.0").unwrap());
    assert!(!should_update(&policy, "v1.1.0", "v1.2.1").unwrap());
}

#[test]
fn glob_policy_without_pattern_is_an_error() {
    let policy = policy_with(UpdatePolicy::Glob);
    let err = should_update(&policy, "1.0.0", "1.0.1").unwrap_err();
    assert!(matches!(err, PolicyError::InvalidPattern));
}

#[test]
fn unparseable_versions_refuse_conservatively() {
    assert!(!allowed(UpdatePolicy::Major, "not-a-version", "2.0.0"));
    assert!(!allowed(UpdatePolicy::Major, "1.0.0", "v2.0.0"));
}

#[test]
fn strict_mode_reports_unparseable_versions() {
    let policy = policy_with(UpdatePolicy::Minor);
    let err = should_update_strict(&policy, "abc", "1.0.1").unwrap_err();
    assert!(matches!(err, PolicyError::UnparseableVersion));
    assert!(should_update_strict(&policy, "1.0.0", "1.0.1").unwrap());
}

#[test]
fn version_parsing_reads_numeric_triples() {
    let v = parse_version("1.2.3").unwrap();
    assert_eq!((v.major, v.minor, v.patch), (1, 2, 3));

    let v = parse_version("10.20").unwrap();
    assert_eq!((v.major, v.minor, v.patch), (10, 20, 0));

    let v = parse_version("7").unwrap();
    assert_eq!((v.major, v.minor, v.patch), (7, 0, 0));

    let v = parse_version("1.2.3-alpha.1").unwrap();
    assert_eq!((v.major, v.minor, v.patch), (1, 2, 3));

    assert!(parse_version("v1.2.3").is_none());
    assert!(parse_version("").is_none());
    assert!(parse_version("latest").is_none());
    assert!(parse_version("99999999999999999999.0.0").is_none());
}

#[test]
fn policy_keywords_parse_case_insensitively() {
    assert_eq!(UpdatePolicy::parse("PATCH").unwrap(), UpdatePolicy::Patch);
    assert_eq!(UpdatePolicy::parse("Minor").unwrap(), UpdatePolicy::Minor);
    assert_eq!(UpdatePolicy::parse("force").unwrap(), UpdatePolicy::Force);
    assert_eq!(UpdatePolicy::parse("none").unwrap(), UpdatePolicy::Never);
    let err = UpdatePolicy::parse("bogus").unwrap_err();
    assert!(matches!(err, PolicyError::InvalidPolicy(s) if s == "bogus"));

    assert_eq!(EventSource::parse("Polling").unwrap(), EventSource::Polling);
    assert_eq!(EventSource::parse("none").unwrap(), EventSource::Manual);
    let err = EventSource::parse("smoke-signals").unwrap_err();
    assert!(matches!(err, PolicyError::InvalidEventSource(s) if s == "smoke-signals"));
}

#[test]
fn annotations_without_policy_are_rejected() {
    let annotations = Annotations::from_pairs(&Vec::new());
    let err = parse_policy_from_annotations(&annotations).unwrap_err();
    assert!(matches!(err, ConfigError::MissingPolicy));
}

#[test]
fn unknown_policy_keyword_is_a_config_error() {
    let pairs = vec![AnnotationPair {
        key: POLICY_KEY.to_string(),
        value: "yolo".to_string(),
    }];
    let annotations = Annotations::from_pairs(&pairs);
    let err = parse_policy_from_annotations(&annotations).unwrap_err();
    assert!(matches!(err, ConfigError::UnknownPolicy(s) if s == "yolo"));
}

#[test]
fn unknown_event_source_falls_back_to_the_default() {
    let pairs = vec![
        AnnotationPair {
            key: POLICY_KEY.to_string(),
            value: "patch".to_string(),
        },
        AnnotationPair {
            key: headwind::policy::EVENT_SOURCE_KEY.to_string(),
            value: "telegraph".to_string(),
        },
    ];
    let annotations = Annotations::from_pairs(&pairs);
    // A typo in the optional event-source annotation must not unmanage the
    // workload: the policy still parses, with the default signal path.
    let policy = parse_policy_from_annotations(&annotations).unwrap();
    assert_eq!(policy.policy, UpdatePolicy::Patch);
    assert_eq!(policy.event_source, EventSource::Webhook);

    let pairs = vec![
        AnnotationPair {
            key: POLICY_KEY.to_string(),
            value: "patch".to_string(),
        },
        AnnotationPair {
            key: headwind::policy::EVENT_SOURCE_KEY.to_string(),
            value: "Both".to_string(),
        },
    ];
    let annotations = Annotations::from_pairs(&pairs);
    let policy = parse_policy_from_annotations(&annotations).unwrap();
    assert_eq!(policy.event_source, EventSource::Both);
}

#[test]
fn image_filter_annotation_splits_and_trims() {
    let pairs = vec![
        AnnotationPair {
            key: POLICY_KEY.to_string(),
            value: "patch".to_string(),
        },
        AnnotationPair {
            key: headwind::policy::IMAGES_KEY.to_string(),
            value: "nginx, redis ,postgres".to_string(),
        },
    ];
    let annotations = Annotations::from_pairs(&pairs);
    let policy = parse_policy_from_annotations(&annotations).unwrap();
    assert_eq!(policy.images, vec!["nginx", "redis", "postgres"]);
}

#[test]
fn extract_versions_takes_the_last_colon_suffix() {
    let (cur, new) = extract_versions("myregistry.com/myimage:v1.2.3", "myimage:v1.3.0");
    assert_eq!(cur, "v1.2.3");
    assert_eq!(new, "v1.3.0");

    let (cur, new) = extract_versions("plain-image", "other:1.0:2.0");
    assert_eq!(cur, "plain-image");
    assert_eq!(new, "2.0");
}

#[test]
fn event_source_gating_routes_signal_paths() {
    assert!(EventSource::Webhook.allows(SignalSource::Webhook));
    assert!(!EventSource::Webhook.allows(SignalSource::Polling));
    assert!(!EventSource::Polling.allows(SignalSource::Webhook));
    assert!(EventSource::Polling.allows(SignalSource::Polling));
    assert!(EventSource::Both.allows(SignalSource::Webhook));
    assert!(EventSource::Both.allows(SignalSource::Polling));
    assert!(!EventSource::Manual.allows(SignalSource::Webhook));
    assert!(!EventSource::Manual.allows(SignalSource::Polling));
}
