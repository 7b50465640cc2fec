use linkerd_sweep::admission::{
    extract_annotation, resolve_kind, Admission, AdmissionDecision, AdmissionRequest,
    AnnotationError, DenyReason, Eligibility, PodTemplate, SkipReason, SpecPayload, WorkloadKind,
    WorkloadObject, evaluate_eligibility,
};
use linkerd_sweep::meta::Metadata;
use linkerd_sweep::patch::{Container, PodSpec, SpecRoot};

fn pairs(v: &[(&str, &str)]) -> Option<Vec<(String, String)>> {
    Some(v.iter().map(|(k, v)| (k.to_string(), v.to_string())).collect())
}

fn eligible_meta() -> Metadata {
    Metadata {
        labels: pairs(&[("extensions.linkerd.io/sweep-sidecar", "enabled")]),
        annotations: pairs(&[
            ("linkerd.io/inject", "enabled"),
            ("extensions.linkerd.io/sweep-containers", "web"),
        ]),
    }
}

fn web_spec() -> PodSpec {
    PodSpec {
        containers: vec![Container {
            name: "web".to_string(),
            command: Some(vec!["/bin/app".to_string()]),
            args: None,
            has_volume_mounts: false,
        }],
        has_init_containers: false,
        has_volumes: false,
    }
}

fn request(group: &str, kind: &str, object: Option<WorkloadObject>) -> AdmissionRequest {
    AdmissionRequest { group: group.to_string(), kind: kind.to_string(), object }
}

#[test]
fn kind_resolution() {
    assert_eq!(resolve_kind("", "Pod"), WorkloadKind::Pod);
    assert_eq!(resolve_kind("batch", "Job"), WorkloadKind::Job);
    assert_eq!(resolve_kind("", "ConfigMap"), WorkloadKind::Unsupported);
    assert_eq!(resolve_kind("apps", "Pod"), WorkloadKind::Unsupported);
    assert_eq!(resolve_kind("", "Job"), WorkloadKind::Unsupported);
}

#[test]
fn unsupported_kind_is_allowed() {
    // A ConfigMap with no object at all: only the kind is looked at.
    let req = request("", "ConfigMap", None);
    assert!(matches!(Admission::new().decide(&req), AdmissionDecision::Allow));
    let req = request(
        "",
        "ConfigMap",
        Some(WorkloadObject { metadata: eligible_meta(), spec: SpecPayload::Pod(web_spec()) }),
    );
    assert!(matches!(Admission::new().decide(&req), AdmissionDecision::Allow));
}

#[test]
fn missing_enable_label_fails_open() {
    let meta = Metadata {
        labels: pairs(&[("app", "web")]),
        annotations: pairs(&[
            ("linkerd.io/inject", "enabled"),
            ("extensions.linkerd.io/sweep-containers", "web"),
        ]),
    };
    for spec in [SpecPayload::Pod(web_spec()), SpecPayload::Missing, SpecPayload::Malformed("bad".to_string())] {
        let req = request("", "Pod", Some(WorkloadObject { metadata: meta.clone(), spec }));
        assert!(matches!(Admission::new().decide(&req), AdmissionDecision::Allow));
    }
    let no_labels = Metadata { labels: None, annotations: None };
    let req = request("", "Pod", Some(WorkloadObject { metadata: no_labels, spec: SpecPayload::Missing }));
    assert!(matches!(Admission::new().decide(&req), AdmissionDecision::Allow));
}

#[test]
fn eligible_pod_is_patched() {
    let req = request(
        "",
        "Pod",
        Some(WorkloadObject { metadata: eligible_meta(), spec: SpecPayload::Pod(web_spec()) }),
    );
    match Admission::new().decide(&req) {
        AdmissionDecision::Patch(root, ops) => {
            assert_eq!(root, SpecRoot::Pod);
            assert_eq!(ops.len(), 8);
            assert_eq!(ops[4].path.pointer(root), "/spec/containers/0/command");
        }
        other => panic!("unexpected decision {:?}", other),
    }
}

#[test]
fn structural_errors_are_denied() {
    let req = request("", "Pod", None);
    match Admission::new().decide(&req) {
        AdmissionDecision::Deny(r) => {
            assert!(matches!(r, DenyReason::MissingObject));
            assert_eq!(r.message(), "AdmissionRequest missing 'object' field");
        }
        other => panic!("unexpected decision {:?}", other),
    }
    let req = request("", "Pod", Some(WorkloadObject { metadata: eligible_meta(), spec: SpecPayload::Missing }));
    match Admission::new().decide(&req) {
        AdmissionDecision::Deny(r) => {
            assert!(matches!(r, DenyReason::MissingSpec));
            assert_eq!(r.message(), "AdmissionRequest object missing 'spec' field");
        }
        other => panic!("unexpected decision {:?}", other),
    }
    let req = request(
        "",
        "Pod",
        Some(WorkloadObject { metadata: eligible_meta(), spec: SpecPayload::Malformed("invalid type".to_string()) }),
    );
    match Admission::new().decide(&req) {
        AdmissionDecision::Deny(r) => assert_eq!(r.message(), "invalid type"),
        other => panic!("unexpected decision {:?}", other),
    }
    let template = PodTemplate { metadata: Some(eligible_meta()), spec: Some(web_spec()) };
    let req = request("", "Pod", Some(WorkloadObject { metadata: eligible_meta(), spec: SpecPayload::Job(template) }));
    assert!(matches!(Admission::new().decide(&req), AdmissionDecision::Deny(DenyReason::MismatchedSpec)));
}

#[test]
fn job_template_is_patched() {
    let plain = Metadata { labels: None, annotations: None };
    let template = PodTemplate { metadata: Some(eligible_meta()), spec: Some(web_spec()) };
    let req = request("batch", "Job", Some(WorkloadObject { metadata: plain.clone(), spec: SpecPayload::Job(template) }));
    match Admission::new().decide(&req) {
        AdmissionDecision::Patch(root, ops) => {
            assert_eq!(root, SpecRoot::JobTemplate);
            assert_eq!(ops[0].path.pointer(root), "/spec/template/spec/initContainers");
        }
        other => panic!("unexpected decision {:?}", other),
    }
    let template = PodTemplate { metadata: Some(eligible_meta()), spec: None };
    let req = request("batch", "Job", Some(WorkloadObject { metadata: plain.clone(), spec: SpecPayload::Job(template) }));
    match Admission::new().decide(&req) {
        AdmissionDecision::Deny(r) => assert_eq!(r.message(), "JobSpec missing 'spec' in PodTemplateSpec"),
        other => panic!("unexpected decision {:?}", other),
    }
    let template = PodTemplate { metadata: None, spec: Some(web_spec()) };
    let req = request("batch", "Job", Some(WorkloadObject { metadata: eligible_meta(), spec: SpecPayload::Job(template) }));
    assert!(matches!(Admission::new().decide(&req), AdmissionDecision::Allow));
}

#[test]
fn eligibility_rules_in_order() {
    let skip = |m: Metadata| match evaluate_eligibility(&m) {
        Eligibility::Skip(r) => r,
        Eligibility::Mutate(c) => panic!("unexpected mutation {:?}", c),
    };
    assert_eq!(skip(Metadata { labels: None, annotations: None }), SkipReason::EnableLabelMissing);
    assert_eq!(
        skip(Metadata { labels: pairs(&[("extensions.linkerd.io/sweep-sidecar", "disabled")]), annotations: None }),
        SkipReason::NotEnabled
    );
    assert_eq!(
        skip(Metadata {
            labels: pairs(&[("extensions.linkerd.io/sweep-sidecar", "enabled")]),
            annotations: pairs(&[("linkerd.io/inject", "disabled")]),
        }),
        SkipReason::NotInjected
    );
    assert_eq!(
        skip(Metadata {
            labels: pairs(&[("extensions.linkerd.io/sweep-sidecar", "enabled")]),
            annotations: pairs(&[("linkerd.io/inject", "enabled"), ("extensions.linkerd.io/sweep-containers", "")]),
        }),
        SkipReason::NoTargetContainers
    );
    match evaluate_eligibility(&eligible_meta()) {
        Eligibility::Mutate(c) => {
            assert_eq!(c.sidecar, "linkerd-proxy");
            assert_eq!(c.targets, "web");
        }
        Eligibility::Skip(r) => panic!("unexpected skip {:?}", r),
    }
}

#[test]
fn annotation_extraction() {
    let none = Metadata { labels: None, annotations: None };
    assert_eq!(extract_annotation(&none, "k"), Err(AnnotationError::NoAnnotations));
    let m = Metadata { labels: None, annotations: pairs(&[("a", "1"), ("k", ""), ("b", "2")]) };
    assert_eq!(extract_annotation(&m, "k"), Err(AnnotationError::Empty));
    assert_eq!(extract_annotation(&m, "z"), Err(AnnotationError::Missing));
    assert_eq!(extract_annotation(&m, "b"), Ok("2".to_string()));
}
