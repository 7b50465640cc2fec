//! The admission engine: resolves the kind of an admitted object, decides
//! whether it is eligible for mutation, and answers with a patch, a plain
//! allow, or a denial.

use vstd::prelude::*;
use crate::meta::{Metadata, MetadataView};
use crate::patch::{
    JsonPatch, PatchOperation, PatchOpView, PodSpec, SpecRoot, ops_view, pod_patch,
    sidecar_container_name, sidecar_name,
};
use crate::text::text_eq;

verus! {

/// The label that opts a workload in.
pub open spec fn enable_label_key() -> Seq<char> {
    "extensions.linkerd.io/sweep-sidecar"@
}

/// The annotation that shows that the proxy will be injected.
pub open spec fn inject_annotation_key() -> Seq<char> {
    "linkerd.io/inject"@
}

/// The annotation that names the application containers.
pub open spec fn targets_annotation_key() -> Seq<char> {
    "extensions.linkerd.io/sweep-containers"@
}

/// The affirmative value of the label and of the injection annotation.
pub open spec fn enabled_value() -> Seq<char> {
    "enabled"@
}

fn enable_label() -> (r: &'static str)
    ensures
        r@ == enable_label_key(),
{
    "extensions.linkerd.io/sweep-sidecar"
}

fn inject_annotation() -> (r: &'static str)
    ensures
        r@ == inject_annotation_key(),
{
    "linkerd.io/inject"
}

fn targets_annotation() -> (r: &'static str)
    ensures
        r@ == targets_annotation_key(),
{
    "extensions.linkerd.io/sweep-containers"
}

fn enabled() -> (r: &'static str)
    ensures
        r@ == enabled_value(),
{
    "enabled"
}

/// The resource kinds that the engine mutates.
#[derive(Debug, Clone, Copy, PartialEq, Eq, Structural)]
pub enum WorkloadKind {
    Pod,
    Job,
    Unsupported,
}

pub open spec fn kind_of(group: Seq<char>, kind: Seq<char>) -> WorkloadKind {
    if group.len() == 0 && kind == "Pod"@ {
        WorkloadKind::Pod
    } else if group == "batch"@ && kind == "Job"@ {
        WorkloadKind::Job
    } else {
        WorkloadKind::Unsupported
    }
}

/// Resolves an object's API group and kind against the supported kinds:
/// core `Pod` and `batch` `Job`.
pub fn resolve_kind(group: &str, kind: &str) -> (r: WorkloadKind)
    ensures
        r == kind_of(group@, kind@),
{
    if group.unicode_len() == 0 && text_eq(kind, "Pod") {
        WorkloadKind::Pod
    } else if text_eq(group, "batch") && text_eq(kind, "Job") {
        WorkloadKind::Job
    } else {
        WorkloadKind::Unsupported
    }
}

/// Why an annotation could not be read.
#[derive(Debug, Clone, Copy, PartialEq, Eq, Structural)]
pub enum AnnotationError {
    /// The object has no annotations at all.
    NoAnnotations,
    /// The object does not carry the annotation.
    Missing,
    /// The annotation is there with an empty value.
    Empty,
}

pub open spec fn annotation_result(meta: MetadataView, key: Seq<char>) -> Result<Seq<char>, AnnotationError> {
    match meta.annotations {
        None => Err(AnnotationError::NoAnnotations),
        Some(_) => match meta.annotation(key) {
            None => Err(AnnotationError::Missing),
            Some(v) => if v.len() == 0 {
                Err(AnnotationError::Empty)
            } else {
                Ok(v)
            },
        },
    }
}

/// Reads the annotation `key`, which must be present and non-empty.
pub fn extract_annotation(meta: &Metadata, key: &str) -> (r: Result<String, AnnotationError>)
    ensures
        match r {
            Ok(v) => annotation_result(meta@, key@) == Ok::<Seq<char>, AnnotationError>(v@),
            Err(e) => annotation_result(meta@, key@) == Err::<Seq<char>, AnnotationError>(e),
        },
{
    if meta.annotations.is_none() {
        return Err(AnnotationError::NoAnnotations);
    }
    match meta.annotation(key) {
        None => Err(AnnotationError::Missing),
        Some(v) => {
            if v.unicode_len() == 0 {
                Err(AnnotationError::Empty)
            } else {
                Ok(v.clone())
            }
        },
    }
}

/// Why an object is admitted without mutation.
#[derive(Debug, Clone, Copy, PartialEq, Eq, Structural)]
pub enum SkipReason {
    /// The enable label is absent.
    EnableLabelMissing,
    /// The enable label has a value other than `enabled`.
    NotEnabled,
    /// The proxy-injection annotation is absent or not `enabled`.
    NotInjected,
    /// No application container is named.
    NoTargetContainers,
}

/// What mutation needs to know of an eligible object.
#[derive(Debug, Clone)]
pub struct MutationConfig {
    /// The container that is never rewritten.
    pub sidecar: String,
    /// The application containers, as the object names them.
    pub targets: String,
}

/// The outcome of the eligibility rules.
#[derive(Debug, Clone)]
pub enum Eligibility {
    Mutate(MutationConfig),
    Skip(SkipReason),
}

/// The eligibility rules, in order: the enable label, then the injection
/// annotation, then the annotation that names the application containers.
/// `Ok` holds the named containers.
pub open spec fn eligibility(meta: MetadataView) -> Result<Seq<char>, SkipReason> {
    if meta.label(enable_label_key()) is None {
        Err(SkipReason::EnableLabelMissing)
    } else if meta.label(enable_label_key()) != Some(enabled_value()) {
        Err(SkipReason::NotEnabled)
    } else if meta.annotation(inject_annotation_key()) != Some(enabled_value()) {
        Err(SkipReason::NotInjected)
    } else {
        match annotation_result(meta, targets_annotation_key()) {
            Ok(t) => Ok(t),
            Err(_) => Err(SkipReason::NoTargetContainers),
        }
    }
}

/// Decides whether an object with metadata `meta` is to be mutated.
pub fn evaluate_eligibility(meta: &Metadata) -> (r: Eligibility)
    ensures
        match r {
            Eligibility::Mutate(c) => eligibility(meta@) == Ok::<Seq<char>, SkipReason>(c.targets@)
                && c.sidecar@ == sidecar_name(),
            Eligibility::Skip(s) => eligibility(meta@) == Err::<Seq<char>, SkipReason>(s),
        },
{
    match meta.label(enable_label()) {
        None => return Eligibility::Skip(SkipReason::EnableLabelMissing),
        Some(v) => {
            if !text_eq(v.as_str(), enabled()) {
                return Eligibility::Skip(SkipReason::NotEnabled);
            }
        },
    }
    match meta.annotation(inject_annotation()) {
        None => return Eligibility::Skip(SkipReason::NotInjected),
        Some(v) => {
            if !text_eq(v.as_str(), enabled()) {
                return Eligibility::Skip(SkipReason::NotInjected);
            }
        },
    }
    match extract_annotation(meta, targets_annotation()) {
        Ok(targets) => Eligibility::Mutate(MutationConfig {
            sidecar: String::from_str(sidecar_container_name()),
            targets,
        }),
        Err(_) => Eligibility::Skip(SkipReason::NoTargetContainers),
    }
}

/// A Job's Pod template, as decoded from its spec.
#[derive(Debug, Clone)]
pub struct PodTemplate {
    pub metadata: Option<Metadata>,
    pub spec: Option<PodSpec>,
}

/// The `spec` of an admitted object, decoded as its kind asks.
#[derive(Debug, Clone)]
pub enum SpecPayload {
    /// The object has no `spec`.
    Missing,
    /// The `spec` could not be decoded; the text says why.
    Malformed(String),
    Pod(PodSpec),
    Job(PodTemplate),
}

/// An admitted object: its own metadata and its spec.
#[derive(Debug, Clone)]
pub struct WorkloadObject {
    pub metadata: Metadata,
    pub spec: SpecPayload,
}

/// An admission request: the declared group and kind, and the object.
#[derive(Debug, Clone)]
pub struct AdmissionRequest {
    pub group: String,
    pub kind: String,
    pub object: Option<WorkloadObject>,
}

/// Why an admission request is denied.
#[derive(Debug, Clone)]
pub enum DenyReason {
    MissingObject,
    MissingSpec,
    MalformedSpec(String),
    /// The spec was decoded as another kind than the request declares.
    MismatchedSpec,
    /// A Job's Pod template has no spec.
    MissingTemplateSpec,
}

pub enum DenyReasonView {
    MissingObject,
    MissingSpec,
    MalformedSpec(Seq<char>),
    MismatchedSpec,
    MissingTemplateSpec,
}

impl View for DenyReason {
    type V = DenyReasonView;

    open spec fn view(&self) -> DenyReasonView {
        match self {
            DenyReason::MissingObject => DenyReasonView::MissingObject,
            DenyReason::MissingSpec => DenyReasonView::MissingSpec,
            DenyReason::MalformedSpec(m) => DenyReasonView::MalformedSpec(m@),
            DenyReason::MismatchedSpec => DenyReasonView::MismatchedSpec,
            DenyReason::MissingTemplateSpec => DenyReasonView::MissingTemplateSpec,
        }
    }
}

pub open spec fn deny_message(r: DenyReasonView) -> Seq<char> {
    match r {
        DenyReasonView::MissingObject => "AdmissionRequest missing 'object' field"@,
        DenyReasonView::MissingSpec => "AdmissionRequest object missing 'spec' field"@,
        DenyReasonView::MalformedSpec(m) => m,
        DenyReasonView::MismatchedSpec => "AdmissionRequest object 'spec' does not match its kind"@,
        DenyReasonView::MissingTemplateSpec => "JobSpec missing 'spec' in PodTemplateSpec"@,
    }
}

impl DenyReason {
    /// The message that a denial carries back to the caller.
    pub fn message(&self) -> (r: String)
        ensures
            r@ == deny_message(self@),
    {
        match self {
            DenyReason::MissingObject => String::from_str("AdmissionRequest missing 'object' field"),
            DenyReason::MissingSpec => String::from_str("AdmissionRequest object missing 'spec' field"),
            DenyReason::MalformedSpec(m) => m.clone(),
            DenyReason::MismatchedSpec => String::from_str(
                "AdmissionRequest object 'spec' does not match its kind",
            ),
            DenyReason::MissingTemplateSpec => String::from_str("JobSpec missing 'spec' in PodTemplateSpec"),
        }
    }
}

/// The answer to an admission request.
#[derive(Debug, Clone)]
pub enum AdmissionDecision {
    /// Admit the object unmodified.
    Allow,
    /// Admit the object with a patch, whose paths are relative to the root.
    Patch(SpecRoot, Vec<PatchOperation>),
    Deny(DenyReason),
}

pub enum DecisionView {
    Allow,
    Patch(SpecRoot, Seq<PatchOpView>),
    Deny(DenyReasonView),
}

impl View for AdmissionDecision {
    type V = DecisionView;

    open spec fn view(&self) -> DecisionView {
        match self {
            AdmissionDecision::Allow => DecisionView::Allow,
            AdmissionDecision::Patch(root, ops) => DecisionView::Patch(*root, ops_view(ops@)),
            AdmissionDecision::Deny(r) => DecisionView::Deny(r@),
        }
    }
}

/// The metadata that eligibility reads: a Pod's own, or the Pod template's
/// for a Job.
pub open spec fn subject_metadata(req: AdmissionRequest) -> Option<MetadataView> {
    match req.object {
        None => None,
        Some(obj) => match kind_of(req.group@, req.kind@) {
            WorkloadKind::Pod => Some(obj.metadata@),
            WorkloadKind::Job => match obj.spec {
                SpecPayload::Job(t) => match t.metadata {
                    Some(m) => Some(m@),
                    None => None,
                },
                _ => None,
            },
            WorkloadKind::Unsupported => None,
        },
    }
}

/// Whether the object passes the eligibility rules.
pub open spec fn eligible(req: AdmissionRequest) -> bool {
    match subject_metadata(req) {
        Some(m) => eligibility(m) is Ok,
        None => false,
    }
}

/// The answer to `req`: unsupported kinds and ineligible objects are
/// admitted unmodified; a missing object, or a missing or undecodable spec
/// of an eligible object, is denied; an eligible Pod spec is patched.
pub open spec fn decision(req: AdmissionRequest) -> DecisionView {
    match kind_of(req.group@, req.kind@) {
        WorkloadKind::Unsupported => DecisionView::Allow,
        _ => match req.object {
            None => DecisionView::Deny(DenyReasonView::MissingObject),
            Some(obj) => if !eligible(req) {
                DecisionView::Allow
            } else {
                match obj.spec {
                    SpecPayload::Missing => DecisionView::Deny(DenyReasonView::MissingSpec),
                    SpecPayload::Malformed(m) => DecisionView::Deny(DenyReasonView::MalformedSpec(m@)),
                    SpecPayload::Pod(ps) => if kind_of(req.group@, req.kind@) == WorkloadKind::Pod {
                        DecisionView::Patch(SpecRoot::Pod, pod_patch(ps@))
                    } else {
                        DecisionView::Deny(DenyReasonView::MismatchedSpec)
                    },
                    SpecPayload::Job(t) => if kind_of(req.group@, req.kind@) == WorkloadKind::Job {
                        match t.spec {
                            Some(ps) => DecisionView::Patch(SpecRoot::JobTemplate, pod_patch(ps@)),
                            None => DecisionView::Deny(DenyReasonView::MissingTemplateSpec),
                        }
                    } else {
                        DecisionView::Deny(DenyReasonView::MismatchedSpec)
                    },
                }
            },
        },
    }
}

/// The admission service.
#[derive(Debug, Clone, Copy)]
pub struct Admission;

impl Admission {
    pub fn new() -> (r: Admission)
        ensures
            r == Admission,
    {
        Admission
    }

    /// Answers an admission request.
    pub fn decide(&self, req: &AdmissionRequest) -> (r: AdmissionDecision)
        ensures
            r@ == decision(*req),
    {
        let kind = resolve_kind(req.group.as_str(), req.kind.as_str());
        if kind == WorkloadKind::Unsupported {
            return AdmissionDecision::Allow;
        }
        let obj = match &req.object {
            None => return AdmissionDecision::Deny(DenyReason::MissingObject),
            Some(obj) => obj,
        };
        let subject: Option<&Metadata> = if kind == WorkloadKind::Pod {
            Some(&obj.metadata)
        } else {
            match &obj.spec {
                SpecPayload::Job(t) => match &t.metadata {
                    Some(m) => Some(m),
                    None => None,
                },
                _ => None,
            }
        };
        let meta = match subject {
            None => return AdmissionDecision::Allow,
            Some(m) => m,
        };
        match evaluate_eligibility(meta) {
            Eligibility::Skip(_) => return AdmissionDecision::Allow,
            Eligibility::Mutate(_) => {},
        }
        match &obj.spec {
            SpecPayload::Missing => AdmissionDecision::Deny(DenyReason::MissingSpec),
            SpecPayload::Malformed(m) => AdmissionDecision::Deny(DenyReason::MalformedSpec(m.clone())),
            SpecPayload::Pod(ps) => {
                if kind == WorkloadKind::Pod {
                    AdmissionDecision::Patch(SpecRoot::Pod, ps.generate_patch())
                } else {
                    AdmissionDecision::Deny(DenyReason::MismatchedSpec)
                }
            },
            SpecPayload::Job(t) => {
                if kind == WorkloadKind::Job {
                    match &t.spec {
                        Some(ps) => AdmissionDecision::Patch(SpecRoot::JobTemplate, ps.generate_patch()),
                        None => AdmissionDecision::Deny(DenyReason::MissingTemplateSpec),
                    }
                } else {
                    AdmissionDecision::Deny(DenyReason::MismatchedSpec)
                }
            },
        }
    }
}

/// An object that lacks the enable label, or carries it with any value but
/// `enabled`, is admitted unmodified, whatever else it holds.
pub proof fn lemma_fail_open(req: AdmissionRequest)
    requires
        req.object is Some,
        match subject_metadata(req) {
            Some(m) => m.label(enable_label_key()) != Some(enabled_value()),
            None => true,
        },
    ensures
        decision(req) == DecisionView::Allow,
{
}

} // verus!
