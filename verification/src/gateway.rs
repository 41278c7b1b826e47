//! The gateway's decision logic: request validation, error taxonomy,
//! and the mapping from outcomes to HTTP replies.
//!
//! The cluster calls themselves (submit a document, list the job
//! records) are I/O and happen outside this crate; each handler is
//! split around them. The create paths first validate and build a
//! document (or reject with a client-error reply, in which case no
//! cluster call is ever made), then map the submission outcome to a
//! reply. The status path maps the list outcome to a reply directly.

use vstd::prelude::*;
use crate::names::valid_name;
use crate::resources::{
    build_job_resource, build_scheduled_job_resource, wf_scheduled, wf_workload,
    ScheduledWorkloadResource, WorkloadResource,
};
use crate::status::{spec_project, project_status, ClusterJobRecord, JobStatusSummary};
use crate::{CreateCronJob, CreateJob};

verus! {

pub const HTTP_OK: u16 = 200;

pub const HTTP_BAD_REQUEST: u16 = 400;

pub const HTTP_INTERNAL_SERVER_ERROR: u16 = 500;

/// Why a request failed: the client sent bad fields, the cluster
/// rejected a submission, or the cluster could not be read. The message
/// is carried through to the client verbatim.
#[derive(Clone, Debug, PartialEq, Eq)]
pub enum GatewayError {
    Validation { message: String },
    ClusterSubmission { message: String },
    ClusterRead { message: String },
}

/// The body of a reply: an empty success object, the projected
/// summaries, or a single error message.
#[derive(Clone, Debug, PartialEq, Eq)]
pub enum ReplyBody {
    EmptyObject,
    Summaries(Vec<JobStatusSummary>),
    ErrorMessage(String),
}

/// A reply ready for serialization: a status code and a body.
#[derive(Clone, Debug, PartialEq, Eq)]
pub struct HttpReply {
    pub status: u16,
    pub body: ReplyBody,
}

/// The status code owed to each error: client faults and cluster
/// rejections of a submission are client errors; a failed read of the
/// cluster is a server error.
pub open spec fn spec_error_status(e: GatewayError) -> u16 {
    match e {
        GatewayError::Validation { .. } => HTTP_BAD_REQUEST,
        GatewayError::ClusterSubmission { .. } => HTTP_BAD_REQUEST,
        GatewayError::ClusterRead { .. } => HTTP_INTERNAL_SERVER_ERROR,
    }
}

/// The message an error carries, unchanged.
pub open spec fn spec_error_message(e: GatewayError) -> String {
    match e {
        GatewayError::Validation { message } => message,
        GatewayError::ClusterSubmission { message } => message,
        GatewayError::ClusterRead { message } => message,
    }
}

/// Maps an error to its reply: the owed status code, and the error's
/// own message as the body. No error is swallowed or rewritten.
pub fn error_reply(e: GatewayError) -> (r: HttpReply)
    ensures
        r.status == spec_error_status(e),
        r.body == ReplyBody::ErrorMessage(spec_error_message(e)),
{
    match e {
        GatewayError::Validation { message } => HttpReply {
            status: HTTP_BAD_REQUEST,
            body: ReplyBody::ErrorMessage(message),
        },
        GatewayError::ClusterSubmission { message } => HttpReply {
            status: HTTP_BAD_REQUEST,
            body: ReplyBody::ErrorMessage(message),
        },
        GatewayError::ClusterRead { message } => HttpReply {
            status: HTTP_INTERNAL_SERVER_ERROR,
            body: ReplyBody::ErrorMessage(message),
        },
    }
}

/// The validation half of the create-job handler: a well-formed
/// document carrying the request's name exactly when the name is valid,
/// else the client-error reply to send without calling the cluster.
pub fn create_job(req: CreateJob) -> (r: Result<WorkloadResource, HttpReply>)
    ensures
        r is Ok <==> valid_name(req.name@),
        r matches Ok(w) ==> w.name@ == req.name@ && wf_workload(w),
        r matches Err(rep) ==> rep.status == HTTP_BAD_REQUEST && (rep.body matches
            ReplyBody::ErrorMessage(m) && m@.len() > 0),
{
    match build_job_resource(req) {
        Ok(w) => Ok(w),
        Err(e) => Err(error_reply(GatewayError::Validation { message: e.message })),
    }
}

/// The validation half of the schedule-job handler: a well-formed
/// scheduled document exactly when the name is valid and the schedule
/// expression non-empty, else the client-error reply to send without
/// calling the cluster.
pub fn schedule_job(req: CreateCronJob) -> (r: Result<ScheduledWorkloadResource, HttpReply>)
    ensures
        r is Ok <==> valid_name(req.name@) && req.syntax@.len() > 0,
        r matches Ok(w) ==> w.name@ == req.name@ && w.schedule@ == req.syntax@ && wf_scheduled(w),
        r matches Err(rep) ==> rep.status == HTTP_BAD_REQUEST && (rep.body matches
            ReplyBody::ErrorMessage(m) && m@.len() > 0),
{
    match build_scheduled_job_resource(req) {
        Ok(w) => Ok(w),
        Err(e) => Err(error_reply(GatewayError::Validation { message: e.message })),
    }
}

/// The reply half of both create handlers, given the cluster's answer
/// to the submission: an empty success object, or the cluster's error
/// message verbatim as a client error.
pub fn creation_reply(outcome: Result<(), String>) -> (r: HttpReply)
    ensures
        outcome is Ok ==> r.status == HTTP_OK && r.body == ReplyBody::EmptyObject,
        outcome matches Err(m) ==> r.status == HTTP_BAD_REQUEST && r.body
            == ReplyBody::ErrorMessage(m),
{
    match outcome {
        Ok(()) => HttpReply { status: HTTP_OK, body: ReplyBody::EmptyObject },
        Err(message) => error_reply(GatewayError::ClusterSubmission { message }),
    }
}

/// The status handler, given the cluster's answer to the list call: on
/// success, every returned record projected in the cluster's order; on
/// failure, the cluster's error message verbatim as a server error.
pub fn get_jobs(outcome: Result<Vec<ClusterJobRecord>, String>) -> (r: HttpReply)
    ensures
        outcome matches Ok(records) ==> r.status == HTTP_OK && (r.body matches
            ReplyBody::Summaries(s) && s@.len() == records@.len() && (forall|i: int|
            0 <= i < records@.len() ==> s@[i] == spec_project(records@[i]))),
        outcome matches Err(m) ==> r.status == HTTP_INTERNAL_SERVER_ERROR && r.body
            == ReplyBody::ErrorMessage(m),
{
    match outcome {
        Err(message) => error_reply(GatewayError::ClusterRead { message }),
        Ok(records) => {
            let ghost orig = records@;
            let mut remaining = records;
            let mut summaries: Vec<JobStatusSummary> = Vec::new();
            while remaining.len() > 0
                invariant
                    summaries@.len() + remaining@.len() == orig.len(),
                    remaining@ =~= orig.subrange(summaries@.len() as int, orig.len() as int),
                    forall|i: int|
                        0 <= i < summaries@.len() ==> summaries@[i] == spec_project(orig[i]),
                decreases remaining@.len(),
            {
                let ghost k = summaries@.len() as int;
                let rec = remaining.remove(0);
                proof {
                    assert(rec == orig[k]);
                    assert(remaining@ =~= orig.subrange(k + 1, orig.len() as int));
                }
                let s = project_status(rec);
                summaries.push(s);
            }
            HttpReply { status: HTTP_OK, body: ReplyBody::Summaries(summaries) }
        },
    }
}

} // verus!
