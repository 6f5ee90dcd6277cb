use headwind::dedup::{tracked_images, PollError, TagCache, WorkloadImages};
use headwind::lifecycle::{RequestStore, StoreError, UpsertOutcome};
use headwind::policy::{Annotations, EventSource, ResourcePolicy, UpdatePolicy};
use headwind::reconcile::{
    next_backoff, plan_helm_update, plan_image_update, ContainerSpec, HelmPlan, ReconcileError,
    UpdatePlan, WorkloadState,
};
use headwind::requests::{
    map_policy_to_crd, request_name, StateConflictError, UpdatePhase, UpdatePolicyType,
    UpdateRequest, UpdateRequestSpec, UpdateRequestStatus, UpdateType, TargetRef,
};
use headwind::timefmt::last_update_value;
use headwind::view::convert_to_view;
use headwind::webhook::{ChartPushEvent, ImagePushEvent};

fn sample_request(namespace: &str, target: &str, version: &str, phase: UpdatePhase) -> UpdateRequest {
    UpdateRequest {
        name: request_name(target, version),
        namespace: namespace.to_string(),
        creation_timestamp: Some(1_700_000_000),
        spec: UpdateRequestSpec {
            target_ref: TargetRef {
                api_version: "apps/v1".to_string(),
                kind: "Deployment".to_string(),
                name: target.to_string(),
                namespace: namespace.to_string(),
            },
            update_type: UpdateType::Image,
            container_name: None,
            current_image: format!("{}:1.0.0", target),
            new_image: format!("{}:{}", target, version),
            policy: UpdatePolicyType::Minor,
            reason: None,
            require_approval: true,
            expires_at: None,
        },
        status: Some(UpdateRequestStatus {
            phase,
            approved_by: None,
            rejected_by: None,
            message: None,
        }),
    }
}

fn open_policy(policy: UpdatePolicy, require_approval: bool) -> ResourcePolicy {
    ResourcePolicy {
        policy,
        pattern: None,
        require_approval,
        min_update_interval: None,
        images: Vec::new(),
        event_source: EventSource::Webhook,
        polling_interval: None,
    }
}

fn app_workload(last_update: Option<String>) -> WorkloadState {
    WorkloadState {
        name: "app".to_string(),
        namespace: "default".to_string(),
        kind: "Deployment".to_string(),
        api_version: "apps/v1".to_string(),
        containers: vec![ContainerSpec {
            name: "app".to_string(),
            image: "app:1.4.0".to_string(),
        }],
        last_update,
    }
}

#[test]
fn upsert_is_idempotent_while_active() {
    let mut store = RequestStore::new();
    let first = store.upsert_pending(sample_request("default", "app", "1.5.2", UpdatePhase::Pending));
    assert!(matches!(first, UpsertOutcome::Created));
    let second = store.upsert_pending(sample_request("default", "app", "1.5.2", UpdatePhase::Pending));
    assert!(matches!(second, UpsertOutcome::Existing));
    assert_eq!(store.len(), 1);
    assert_eq!(store.get(0).phase(), UpdatePhase::Pending);
}

#[test]
fn terminal_request_is_superseded_by_a_fresh_one() {
    let mut store = RequestStore::new();
    store.upsert_pending(sample_request("default", "app", "1.5.2", UpdatePhase::Completed));
    let outcome = store.upsert_pending(sample_request("default", "app", "1.5.2", UpdatePhase::Pending));
    assert!(matches!(outcome, UpsertOutcome::Replaced));
    assert_eq!(store.len(), 1);
    assert_eq!(store.get(0).phase(), UpdatePhase::Pending);

    let mut store = RequestStore::new();
    store.upsert_pending(sample_request("default", "app", "1.5.2", UpdatePhase::Failed));
    let outcome = store.upsert_pending(sample_request("default", "app", "1.5.2", UpdatePhase::Pending));
    assert!(matches!(outcome, UpsertOutcome::Replaced));
    assert_eq!(store.len(), 1);
    assert_eq!(store.get(0).phase(), UpdatePhase::Pending);
}

#[test]
fn rejection_is_not_resurrected_for_the_same_candidate() {
    let mut store = RequestStore::new();
    store.upsert_pending(sample_request("default", "app", "1.5.2", UpdatePhase::Rejected));

    // Drift persists, so every later tick re-proposes the same candidate;
    // the operator's rejection must stand each time.
    let outcome = store.upsert_pending(sample_request("default", "app", "1.5.2", UpdatePhase::Pending));
    assert!(matches!(outcome, UpsertOutcome::Blocked));
    let outcome = store.upsert_pending(sample_request("default", "app", "1.5.2", UpdatePhase::Pending));
    assert!(matches!(outcome, UpsertOutcome::Blocked));
    assert_eq!(store.len(), 1);
    assert_eq!(store.get(0).phase(), UpdatePhase::Rejected);
}

#[test]
fn rejected_version_does_not_block_another_candidate() {
    let mut store = RequestStore::new();
    store.upsert_pending(sample_request("default", "app", "1.5.2", UpdatePhase::Rejected));
    let outcome = store.upsert_pending(sample_request("default", "app", "1.6.0", UpdatePhase::Pending));
    assert!(matches!(outcome, UpsertOutcome::Created));
    assert_eq!(store.len(), 2);
}

#[test]
fn find_active_sees_only_in_flight_requests() {
    let mut store = RequestStore::new();
    store.upsert_pending(sample_request("default", "app", "1.5.2", UpdatePhase::Pending));
    store.upsert_pending(sample_request("default", "other", "2.0.0", UpdatePhase::Completed));
    assert!(store.find_active("default", "app", "1.5.2").is_some());
    assert!(store.find_active("default", "other", "2.0.0").is_none());
    assert!(store.find_active("elsewhere", "app", "1.5.2").is_none());
}

#[test]
fn terminal_phases_are_immutable() {
    let mut store = RequestStore::new();
    store.upsert_pending(sample_request("default", "app", "1.5.2", UpdatePhase::Completed));
    let name = request_name("app", "1.5.2");

    let err = store.transition("default", &name, UpdatePhase::Approved).unwrap_err();
    assert!(matches!(
        err,
        StoreError::Conflict(StateConflictError { from: UpdatePhase::Completed, to: UpdatePhase::Approved })
    ));
    assert_eq!(store.get(0).phase(), UpdatePhase::Completed);

    let mut store = RequestStore::new();
    store.upsert_pending(sample_request("default", "app", "1.5.2", UpdatePhase::Rejected));
    let err = store.transition("default", &name, UpdatePhase::Pending).unwrap_err();
    assert!(matches!(
        err,
        StoreError::Conflict(StateConflictError { from: UpdatePhase::Rejected, to: UpdatePhase::Pending })
    ));
    assert_eq!(store.get(0).phase(), UpdatePhase::Rejected);
}

#[test]
fn allowed_transitions_move_the_phase() {
    let mut store = RequestStore::new();
    store.upsert_pending(sample_request("default", "app", "1.5.2", UpdatePhase::Pending));
    let name = request_name("app", "1.5.2");

    store.transition("default", &name, UpdatePhase::Approved).unwrap();
    assert_eq!(store.get(0).phase(), UpdatePhase::Approved);
    store.transition("default", &name, UpdatePhase::Completed).unwrap();
    assert_eq!(store.get(0).phase(), UpdatePhase::Completed);

    let err = store.transition("default", "no-such-request", UpdatePhase::Failed).unwrap_err();
    assert!(matches!(err, StoreError::NotFound));
}

#[test]
fn scenario_minor_update_requires_one_approval() {
    let workload = app_workload(None);
    let policy = open_policy(UpdatePolicy::Minor, true);

    let plan = plan_image_update(&workload, &policy, "app", "1.5.2", 1_700_000_000).unwrap();
    let (request, info) = match plan {
        UpdatePlan::RequestApproval { request, info } => (request, info),
        other => panic!("expected an approval request, got {:?}", other),
    };
    assert_eq!(request.spec.current_image, "app:1.4.0");
    assert_eq!(request.spec.new_image, "app:1.5.2");
    assert_eq!(request.phase(), UpdatePhase::Pending);
    assert_eq!(info.current_image, "app:1.4.0");
    assert_eq!(info.new_image, "app:1.5.2");

    let mut store = RequestStore::new();
    assert!(matches!(store.upsert_pending(request), UpsertOutcome::Created));

    // A duplicate event before approval creates no second object.
    let plan = plan_image_update(&workload, &policy, "app", "1.5.2", 1_700_000_060).unwrap();
    let request = match plan {
        UpdatePlan::RequestApproval { request, .. } => request,
        other => panic!("expected an approval request, got {:?}", other),
    };
    assert!(matches!(store.upsert_pending(request), UpsertOutcome::Existing));
    assert_eq!(store.len(), 1);
    assert_eq!(store.get(0).phase(), UpdatePhase::Pending);
}

#[test]
fn scenario_force_applies_same_tag_with_fresh_stamp() {
    let workload = app_workload(None);
    let policy = open_policy(UpdatePolicy::Force, false);

    let plan = plan_image_update(&workload, &policy, "app", "1.4.0", 1_000).unwrap();
    let step = match plan {
        UpdatePlan::Apply { step, .. } => step,
        other => panic!("expected a direct apply, got {:?}", other),
    };
    assert_eq!(step.new_image, "app:1.4.0");
    let stamp = step.last_update.expect("a fresh last-update stamp");
    let expected = chrono::DateTime::<chrono::Utc>::from_timestamp(1_000, 0)
        .unwrap()
        .to_rfc3339();
    assert_eq!(stamp, expected);

    // A later pass stamps a fresh, different timestamp.
    let plan = plan_image_update(&workload, &policy, "app", "1.4.0", 2_000).unwrap();
    let step = match plan {
        UpdatePlan::Apply { step, .. } => step,
        other => panic!("expected a direct apply, got {:?}", other),
    };
    assert_ne!(step.last_update.unwrap(), stamp);
}

#[test]
fn approved_stamp_names_the_approver() {
    let value = last_update_value(1_000, Some("jo")).unwrap();
    let expected = chrono::DateTime::<chrono::Utc>::from_timestamp(1_000, 0)
        .unwrap()
        .to_rfc3339();
    assert_eq!(value, format!("{} (approved by jo)", expected));
}

#[test]
fn minimum_interval_throttles_direct_applies() {
    let last = chrono::DateTime::<chrono::Utc>::from_timestamp(1_990, 0)
        .unwrap()
        .to_rfc3339();
    let workload = app_workload(Some(last));
    let mut policy = open_policy(UpdatePolicy::Force, false);
    policy.min_update_interval = Some(60);

    let plan = plan_image_update(&workload, &policy, "app", "1.4.1", 2_000).unwrap();
    assert!(matches!(plan, UpdatePlan::Throttled));

    policy.min_update_interval = Some(5);
    let plan = plan_image_update(&workload, &policy, "app", "1.4.1", 2_000).unwrap();
    assert!(matches!(plan, UpdatePlan::Apply { .. }));
}

#[test]
fn throttle_counts_from_approved_stamps_too() {
    // A stamp that records an approver still starts the interval.
    let last = last_update_value(1_990, Some("jo")).unwrap();
    let workload = app_workload(Some(last));
    let mut policy = open_policy(UpdatePolicy::Force, false);
    policy.min_update_interval = Some(60);

    let plan = plan_image_update(&workload, &policy, "app", "1.4.1", 2_000).unwrap();
    assert!(matches!(plan, UpdatePlan::Throttled));

    let plan = plan_image_update(&workload, &policy, "app", "1.4.1", 2_060).unwrap();
    assert!(matches!(plan, UpdatePlan::Apply { .. }));
}

#[test]
fn tick_classification_mirrors_the_watch_pass() {
    let annotations = Annotations::from_pairs(&Vec::new());
    assert!(matches!(
        headwind::reconcile::plan_tick(&annotations).unwrap(),
        headwind::reconcile::TickDecision::Unmanaged
    ));

    let pairs = vec![headwind::policy::AnnotationPair {
        key: headwind::policy::POLICY_KEY.to_string(),
        value: "none".to_string(),
    }];
    let annotations = Annotations::from_pairs(&pairs);
    assert!(matches!(
        headwind::reconcile::plan_tick(&annotations).unwrap(),
        headwind::reconcile::TickDecision::Unmanaged
    ));

    let pairs = vec![headwind::policy::AnnotationPair {
        key: headwind::policy::POLICY_KEY.to_string(),
        value: "minor".to_string(),
    }];
    let annotations = Annotations::from_pairs(&pairs);
    match headwind::reconcile::plan_tick(&annotations).unwrap() {
        headwind::reconcile::TickDecision::Managed(p) => {
            assert_eq!(p.policy, UpdatePolicy::Minor);
        }
        other => panic!("expected a managed workload, got {:?}", other),
    }

    let pairs = vec![headwind::policy::AnnotationPair {
        key: headwind::policy::POLICY_KEY.to_string(),
        value: "yolo".to_string(),
    }];
    let annotations = Annotations::from_pairs(&pairs);
    let err = headwind::reconcile::plan_tick(&annotations).unwrap_err();
    assert!(matches!(err, headwind::policy::ConfigError::UnknownPolicy(s) if s == "yolo"));
}

#[test]
fn rejected_candidate_changes_nothing() {
    let workload = app_workload(None);
    let policy = open_policy(UpdatePolicy::Patch, true);
    let plan = plan_image_update(&workload, &policy, "app", "1.5.2", 0).unwrap();
    assert!(matches!(plan, UpdatePlan::Rejected));
}

#[test]
fn planner_reports_bad_and_missing_containers() {
    let mut workload = app_workload(None);
    workload.containers = vec![ContainerSpec {
        name: "app".to_string(),
        image: "no-tag-here".to_string(),
    }];
    let policy = open_policy(UpdatePolicy::Minor, true);
    let err = plan_image_update(&workload, &policy, "app", "1.5.2", 0).unwrap_err();
    assert!(matches!(err, ReconcileError::InvalidImage));

    let workload = app_workload(None);
    let err = plan_image_update(&workload, &policy, "db", "1.5.2", 0).unwrap_err();
    assert!(matches!(err, ReconcileError::ContainerNotFound));
}

#[test]
fn planner_surfaces_engine_and_config_errors() {
    let workload = app_workload(None);
    let policy = open_policy(UpdatePolicy::Glob, true);
    let err = plan_image_update(&workload, &policy, "app", "1.5.2", 0).unwrap_err();
    assert!(matches!(
        err,
        ReconcileError::Policy(headwind::policy::PolicyError::InvalidPattern)
    ));

    let pairs = vec![headwind::policy::AnnotationPair {
        key: headwind::policy::POLICY_KEY.to_string(),
        value: "yolo".to_string(),
    }];
    let annotations = Annotations::from_pairs(&pairs);
    let err = plan_helm_update(
        "r",
        "default",
        "c",
        &Some("1.3.0".to_string()),
        &Some("1.2.0".to_string()),
        &annotations,
        0,
    )
    .unwrap_err();
    assert!(matches!(
        err,
        ReconcileError::Config(headwind::policy::ConfigError::UnknownPolicy(s)) if s == "yolo"
    ));
}

#[test]
fn helm_drift_becomes_a_pending_request() {
    let pairs = vec![
        headwind::policy::AnnotationPair {
            key: headwind::policy::POLICY_KEY.to_string(),
            value: "minor".to_string(),
        },
    ];
    let annotations = Annotations::from_pairs(&pairs);
    let plan = plan_helm_update(
        "my-release",
        "default",
        "mychart",
        &Some("1.3.0".to_string()),
        &Some("1.2.0".to_string()),
        &annotations,
        42,
    )
    .unwrap();
    let (request, info) = match plan {
        HelmPlan::Propose { request, info } => (request, info),
        other => panic!("expected a proposal, got {:?}", other),
    };
    assert_eq!(request.spec.current_image, "mychart:1.2.0");
    assert_eq!(request.spec.new_image, "mychart:1.3.0");
    assert_eq!(request.spec.update_type, UpdateType::HelmChart);
    assert_eq!(request.phase(), UpdatePhase::Pending);
    assert_eq!(info.resource_kind.as_deref(), Some("HelmRelease"));
}

#[test]
fn helm_without_drift_or_policy_is_quiet() {
    let annotations = Annotations::from_pairs(&Vec::new());
    let plan = plan_helm_update(
        "r",
        "default",
        "c",
        &Some("1.3.0".to_string()),
        &Some("1.2.0".to_string()),
        &annotations,
        0,
    )
    .unwrap();
    assert!(matches!(plan, HelmPlan::NotManaged));

    let pairs = vec![headwind::policy::AnnotationPair {
        key: headwind::policy::POLICY_KEY.to_string(),
        value: "minor".to_string(),
    }];
    let annotations = Annotations::from_pairs(&pairs);
    let plan = plan_helm_update("r", "default", "c", &Some("1.2.0".to_string()), &Some("1.2.0".to_string()), &annotations, 0).unwrap();
    assert!(matches!(plan, HelmPlan::InSync));
    let plan = plan_helm_update("r", "default", "c", &Some("*".to_string()), &Some("1.2.0".to_string()), &annotations, 0).unwrap();
    assert!(matches!(plan, HelmPlan::InSync));
    let plan = plan_helm_update("r", "default", "c", &Some("1.1.0".to_string()), &Some("1.2.0".to_string()), &annotations, 0).unwrap();
    assert!(matches!(plan, HelmPlan::Rejected));
}

#[test]
fn scenario_polling_emits_once_per_new_tag() {
    let mut cache = TagCache::new();
    let tags = vec!["1.2.3".to_string(), "1.10.0".to_string(), "0.9.9".to_string()];

    let first = cache.poll_image("registry.example.com/app", &tags).unwrap();
    let event = first.expect("the first cycle emits one event");
    assert_eq!(event.registry, "registry.example.com");
    assert_eq!(event.repository, "app");
    // Ranked by version comparison, not by list position.
    assert_eq!(event.tag, "1.10.0");
    assert!(event.digest.is_none());

    let second = cache.poll_image("registry.example.com/app", &tags).unwrap();
    assert!(second.is_none());
}

#[test]
fn polling_handles_empty_lists_and_bad_references() {
    let mut cache = TagCache::new();
    let none = cache.poll_image("registry.example.com/app", &Vec::new()).unwrap();
    assert!(none.is_none());
    assert_eq!(cache.len(), 0);

    let err = cache.poll_image("not a valid reference", &vec!["1.0".to_string()]).unwrap_err();
    assert!(matches!(err, PollError::InvalidReference));
}

#[test]
fn cache_tracks_images_independently() {
    let mut cache = TagCache::new();
    assert!(cache.observe("a", "1"));
    assert!(cache.observe("b", "1"));
    assert!(!cache.observe("a", "1"));
    assert!(cache.observe("a", "2"));
    assert!(!cache.observe("b", "1"));
    assert_eq!(cache.lookup("a").unwrap().as_str(), "2");
    assert_eq!(cache.lookup("b").unwrap().as_str(), "1");
    assert!(cache.lookup("c").is_none());
}

#[test]
fn tracked_images_come_from_eligible_workloads_once() {
    let workloads = vec![
        WorkloadImages {
            policy: Some("minor".to_string()),
            images: vec!["nginx:1.0".to_string(), "redis:2.0".to_string()],
        },
        WorkloadImages {
            policy: Some("none".to_string()),
            images: vec!["ignored:1.0".to_string()],
        },
        WorkloadImages {
            policy: None,
            images: vec!["also-ignored:1.0".to_string()],
        },
        WorkloadImages {
            policy: Some("patch".to_string()),
            images: vec!["nginx:1.0".to_string(), "postgres:3.0".to_string()],
        },
    ];
    let images = tracked_images(&workloads);
    assert_eq!(images, vec!["nginx:1.0", "redis:2.0", "postgres:3.0"]);
}

#[test]
fn full_image_hides_the_default_registry() {
    let event = ImagePushEvent {
        registry: "docker.io".to_string(),
        repository: "library/nginx".to_string(),
        tag: "1.25".to_string(),
        digest: None,
    };
    assert_eq!(event.full_image(), "library/nginx:1.25");

    let event = ImagePushEvent {
        registry: "gcr.io".to_string(),
        repository: "proj/app".to_string(),
        tag: "2.0".to_string(),
        digest: None,
    };
    assert_eq!(event.full_image(), "gcr.io/proj/app:2.0");

    let event = ImagePushEvent {
        registry: String::new(),
        repository: "nginx".to_string(),
        tag: "latest".to_string(),
        digest: None,
    };
    assert_eq!(event.full_image(), "nginx:latest");
}

#[test]
fn chart_events_build_oci_urls() {
    let event = ChartPushEvent {
        registry: "ghcr.io".to_string(),
        repository: "myorg/charts/mychart".to_string(),
        version: "1.2.3".to_string(),
        digest: None,
    };
    assert_eq!(event.full_oci_url(), "oci://ghcr.io/myorg/charts/mychart:1.2.3");
    assert_eq!(event.base_oci_url(), "oci://ghcr.io/myorg/charts/mychart");
}

#[test]
fn views_flatten_requests_for_display() {
    let request = sample_request("default", "app", "1.5.2", UpdatePhase::Pending);
    let view = convert_to_view(&request);
    assert_eq!(view.name, request_name("app", "1.5.2"));
    assert_eq!(view.resource_kind, "Deployment");
    assert_eq!(view.current_version, "1.0.0");
    assert_eq!(view.new_version, "1.5.2");
    assert_eq!(view.policy, "Minor");
    assert_eq!(view.status, "Pending");
    let expected = chrono::DateTime::<chrono::Utc>::from_timestamp(1_700_000_000, 0)
        .unwrap()
        .format("%Y-%m-%d %H:%M:%S UTC")
        .to_string();
    assert_eq!(view.created_at, expected);
}

#[test]
fn request_names_are_deterministic_and_sanitized() {
    assert_eq!(request_name("app", "V1.5.2"), "app-v1-5-2");
    assert_eq!(request_name("app", "V1.5.2"), request_name("app", "V1.5.2"));
    assert_eq!(request_name("db", "oci://x/y:2"), "db-oci---x-y-2");
}

#[test]
fn policies_map_onto_stored_snapshots() {
    assert_eq!(map_policy_to_crd(&UpdatePolicy::Patch), UpdatePolicyType::Patch);
    assert_eq!(map_policy_to_crd(&UpdatePolicy::Glob), UpdatePolicyType::Glob);
    assert_eq!(map_policy_to_crd(&UpdatePolicy::All), UpdatePolicyType::Major);
    assert_eq!(map_policy_to_crd(&UpdatePolicy::Force), UpdatePolicyType::Major);
    assert_eq!(map_policy_to_crd(&UpdatePolicy::Never), UpdatePolicyType::Never);
}

#[test]
fn stream_backoff_doubles_to_a_ceiling() {
    assert_eq!(next_backoff(1), 2);
    assert_eq!(next_backoff(2), 4);
    assert_eq!(next_backoff(16), 32);
    assert_eq!(next_backoff(32), 60);
    assert_eq!(next_backoff(60), 60);
}

#[test]
fn approved_apply_patches_only_the_matched_container() {
    let containers = vec![
        ContainerSpec {
            name: "sidecar".to_string(),
            image: "proxy:0.9".to_string(),
        },
        ContainerSpec {
            name: "app".to_string(),
            image: "app:1.4.0".to_string(),
        },
    ];
    let step = headwind::reconcile::plan_apply(&containers, "app:1.5.2", Some("jo"), 1_000).unwrap();
    assert_eq!(step.container_name, "app");
    assert_eq!(step.new_image, "app:1.5.2");
    let expected = chrono::DateTime::<chrono::Utc>::from_timestamp(1_000, 0)
        .unwrap()
        .to_rfc3339();
    assert_eq!(step.last_update.unwrap(), format!("{} (approved by jo)", expected));

    let err = headwind::reconcile::plan_apply(&containers, "db:2.0", None, 0).unwrap_err();
    assert!(matches!(err, ReconcileError::ContainerNotFound));
    let err = headwind::reconcile::plan_apply(&containers, "no-tag", None, 0).unwrap_err();
    assert!(matches!(err, ReconcileError::InvalidImage));
}
