//! Construction of the two workload resource documents.
//!
//! Both documents share one fixed container template; nothing but the
//! caller-supplied name (and, for the scheduled variant, the schedule
//! expression) varies. Every other field comes from compile-time policy.

use vstd::prelude::*;
use vstd::string::StringExecFns;
use crate::names::{is_valid_name, valid_name};
use crate::{CreateCronJob, CreateJob};

verus! {

/// How many times the cluster may retry a failed run.
pub const RETRY_BUDGET: u32 = 1;

/// Longest run the cluster lets a workload take, in seconds.
pub const MAX_RUN_SECONDS: u32 = 100;

/// Whether the cluster restarts a finished or failed container.
#[derive(Clone, Copy, Debug, PartialEq, Eq, Structural)]
pub enum RestartPolicy {
    Never,
    OnFailure,
    Always,
}

/// When the cluster pulls the container image from a registry.
#[derive(Clone, Copy, Debug, PartialEq, Eq, Structural)]
pub enum ImagePullPolicy {
    IfNotPresent,
    Always,
    Never,
}

/// The container part of a pod template.
#[derive(Clone, Debug, PartialEq, Eq)]
pub struct ContainerTemplate {
    pub container_name: String,
    pub image: String,
    pub image_pull_policy: ImagePullPolicy,
    pub restart_policy: RestartPolicy,
}

/// A one-run workload resource document, ready for submission.
#[derive(Clone, Debug, PartialEq, Eq)]
pub struct WorkloadResource {
    pub name: String,
    pub backoff_limit: u32,
    pub active_deadline_seconds: u32,
    pub pod_name: String,
    pub template: ContainerTemplate,
}

/// A scheduled workload resource document, ready for submission.
#[derive(Clone, Debug, PartialEq, Eq)]
pub struct ScheduledWorkloadResource {
    pub name: String,
    pub schedule: String,
    pub template: ContainerTemplate,
}

/// A rejected request field, with a human-readable explanation.
#[derive(Clone, Debug, PartialEq, Eq)]
pub struct ValidationError {
    pub message: String,
}

/// The fixed container name.
pub open spec fn spec_container_name() -> Seq<char> {
    "data-processor-container"@
}

/// The fixed container image reference.
pub open spec fn spec_image_reference() -> Seq<char> {
    "data-processor:latest"@
}

/// The fixed name of the pod spawned for a one-run workload.
pub open spec fn spec_pod_name() -> Seq<char> {
    "data-processing-job-pod"@
}

/// The one container template that every built document embeds: fixed
/// name, image, pull policy and restart policy.
pub open spec fn is_fixed_template(t: ContainerTemplate) -> bool {
    &&& t.container_name@ == spec_container_name()
    &&& t.image@ == spec_image_reference()
    &&& t.image_pull_policy == ImagePullPolicy::IfNotPresent
    &&& t.restart_policy == RestartPolicy::Never
}

/// A one-run document is well-formed when its name is valid and every
/// policy field holds the fixed policy value.
pub open spec fn wf_workload(w: WorkloadResource) -> bool {
    &&& valid_name(w.name@)
    &&& w.backoff_limit == RETRY_BUDGET
    &&& w.active_deadline_seconds == MAX_RUN_SECONDS
    &&& w.pod_name@ == spec_pod_name()
    &&& is_fixed_template(w.template)
}

/// A scheduled document is well-formed when its name is valid, its
/// schedule expression is non-empty and the template is the fixed one.
pub open spec fn wf_scheduled(w: ScheduledWorkloadResource) -> bool {
    &&& valid_name(w.name@)
    &&& w.schedule@.len() > 0
    &&& is_fixed_template(w.template)
}

fn fixed_template() -> (t: ContainerTemplate)
    ensures
        is_fixed_template(t),
{
    ContainerTemplate {
        container_name: String::from_str("data-processor-container"),
        image: String::from_str("data-processor:latest"),
        image_pull_policy: ImagePullPolicy::IfNotPresent,
        restart_policy: RestartPolicy::Never,
    }
}

fn bad_name_error() -> (e: ValidationError)
    ensures
        e.message@.len() > 0,
{
    proof {
        reveal_strlit("name must be 1 to 253 lowercase alphanumeric or '-' characters");
    }
    ValidationError {
        message: String::from_str("name must be 1 to 253 lowercase alphanumeric or '-' characters"),
    }
}

fn bad_schedule_error() -> (e: ValidationError)
    ensures
        e.message@.len() > 0,
{
    proof {
        reveal_strlit("schedule expression must not be empty");
    }
    ValidationError { message: String::from_str("schedule expression must not be empty") }
}

/// Builds the one-run workload document for a request: the caller's name
/// plus the fixed policy, or a validation error exactly when the name is
/// not a valid resource name.
pub fn build_job_resource(req: CreateJob) -> (r: Result<WorkloadResource, ValidationError>)
    ensures
        r is Ok <==> valid_name(req.name@),
        r matches Ok(w) ==> w.name@ == req.name@ && wf_workload(w),
        r matches Err(e) ==> e.message@.len() > 0,
{
    if !is_valid_name(req.name.as_str()) {
        return Err(bad_name_error());
    }
    Ok(
        WorkloadResource {
            name: req.name,
            backoff_limit: RETRY_BUDGET,
            active_deadline_seconds: MAX_RUN_SECONDS,
            pod_name: String::from_str("data-processing-job-pod"),
            template: fixed_template(),
        },
    )
}

/// Builds the scheduled workload document for a request: the caller's
/// name and schedule expression plus the fixed policy, or a validation
/// error exactly when the name is invalid or the expression is empty.
pub fn build_scheduled_job_resource(req: CreateCronJob) -> (r: Result<
    ScheduledWorkloadResource,
    ValidationError,
>)
    ensures
        r is Ok <==> valid_name(req.name@) && req.syntax@.len() > 0,
        r matches Ok(w) ==> w.name@ == req.name@ && w.schedule@ == req.syntax@ && wf_scheduled(w),
        r matches Err(e) ==> e.message@.len() > 0,
{
    if !is_valid_name(req.name.as_str()) {
        return Err(bad_name_error());
    }
    if req.syntax.as_str().unicode_len() == 0 {
        return Err(bad_schedule_error());
    }
    Ok(ScheduledWorkloadResource { name: req.name, schedule: req.syntax, template: fixed_template() })
}

/// Both builders embed the same fixed container template: any two
/// templates that satisfy [`is_fixed_template`] agree on every field.
pub proof fn lemma_fixed_template_unique(a: ContainerTemplate, b: ContainerTemplate)
    requires
        is_fixed_template(a),
        is_fixed_template(b),
    ensures
        a.container_name@ == b.container_name@,
        a.image@ == b.image@,
        a.image_pull_policy == b.image_pull_policy,
        a.restart_policy == b.restart_policy,
{
}

} // verus!
