//! Flattening of cluster job records into status summaries.
//!
//! A record returned by the cluster may be arbitrarily incomplete: no
//! status section, no conditions, no labels. Projection is total: every
//! missing branch degrades to an absent field, never to an error.

use vstd::prelude::*;

verus! {

/// One observed state transition reported by the cluster for a job.
/// The cluster may omit any of the three texts.
#[derive(Clone, Debug, PartialEq, Eq)]
pub struct JobCondition {
    pub condition_type: Option<String>,
    pub message: Option<String>,
    pub reason: Option<String>,
}

/// The status section of a cluster job record; every field may be
/// missing on a record the cluster has not acted on yet.
#[derive(Clone, Debug, PartialEq, Eq)]
pub struct JobRecordStatus {
    pub conditions: Option<Vec<JobCondition>>,
    pub failed: Option<u32>,
    pub start_time: Option<String>,
    pub completion_time: Option<String>,
}

/// What this gateway reads from a job record the cluster returns.
///
/// `metadata_name` is the resource's own name; `pod_template_job_name`
/// is the label the cluster stamps on the pod template to tag generated
/// pods with the originating job's name. The two may differ after
/// server-side name generation, and the summary reports the label.
#[derive(Clone, Debug, PartialEq, Eq)]
pub struct ClusterJobRecord {
    pub metadata_name: Option<String>,
    pub pod_template_job_name: Option<String>,
    pub status: Option<JobRecordStatus>,
}

/// The flat summary served to clients. Every field is optional because
/// the source record may be incomplete.
#[derive(Clone, Debug, PartialEq, Eq)]
pub struct JobStatusSummary {
    pub job_name: Option<String>,
    pub condition_type: Option<String>,
    pub condition_message: Option<String>,
    pub condition_reason: Option<String>,
    pub retry_count: Option<u32>,
    pub start_time: Option<String>,
    pub completion_time: Option<String>,
}

/// The first entry of the record's conditions list, if the record has a
/// status section, a conditions list, and that list is non-empty. The
/// cluster's ordering is taken as it comes; no entry is preferred.
pub open spec fn spec_first_condition(r: ClusterJobRecord) -> Option<JobCondition> {
    match r.status {
        Some(st) => match st.conditions {
            Some(cs) => if cs@.len() > 0 {
                Some(cs@[0])
            } else {
                None
            },
            None => None,
        },
        None => None,
    }
}

/// The summary a record flattens to: the pod-template label as the job
/// name, the three texts of the first condition, and the failure count
/// and the two timestamps read directly from the status section. Every
/// missing branch yields `None`.
pub open spec fn spec_project(r: ClusterJobRecord) -> JobStatusSummary {
    JobStatusSummary {
        job_name: r.pod_template_job_name,
        condition_type: match spec_first_condition(r) {
            Some(c) => c.condition_type,
            None => None,
        },
        condition_message: match spec_first_condition(r) {
            Some(c) => c.message,
            None => None,
        },
        condition_reason: match spec_first_condition(r) {
            Some(c) => c.reason,
            None => None,
        },
        retry_count: match r.status {
            Some(st) => st.failed,
            None => None,
        },
        start_time: match r.status {
            Some(st) => st.start_time,
            None => None,
        },
        completion_time: match r.status {
            Some(st) => st.completion_time,
            None => None,
        },
    }
}

/// Flattens one cluster job record. Total: no input is rejected and no
/// error can arise; the result is exactly [`spec_project`] of the input.
pub fn project_status(record: ClusterJobRecord) -> (r: JobStatusSummary)
    ensures
        r == spec_project(record),
{
    let ClusterJobRecord { metadata_name: _, pod_template_job_name, status } = record;
    match status {
        None => JobStatusSummary {
            job_name: pod_template_job_name,
            condition_type: None,
            condition_message: None,
            condition_reason: None,
            retry_count: None,
            start_time: None,
            completion_time: None,
        },
        Some(st) => {
            let JobRecordStatus { conditions, failed, start_time, completion_time } = st;
            let (condition_type, condition_message, condition_reason) = match conditions {
                Some(mut cs) => if cs.len() > 0 {
                    let c = cs.remove(0);
                    (c.condition_type, c.message, c.reason)
                } else {
                    (None, None, None)
                },
                None => (None, None, None),
            };
            JobStatusSummary {
                job_name: pod_template_job_name,
                condition_type,
                condition_message,
                condition_reason,
                retry_count: failed,
                start_time,
                completion_time,
            }
        },
    }
}

/// Projection is a pure function of the record: two summaries of the
/// same record are identical, so projecting twice changes nothing.
pub proof fn lemma_project_status_idempotent(
    record: ClusterJobRecord,
    first: JobStatusSummary,
    second: JobStatusSummary,
)
    requires
        first == spec_project(record),
        second == spec_project(record),
    ensures
        first == second,
{
}

/// Projection is total and degrades to absence: a record with no status
/// section yields a summary whose every status-derived field is absent,
/// and whose job name is just the pod-template label.
pub proof fn lemma_project_status_absent(record: ClusterJobRecord)
    requires
        record.status is None,
    ensures
        spec_project(record).job_name == record.pod_template_job_name,
        spec_project(record).condition_type is None,
        spec_project(record).condition_message is None,
        spec_project(record).condition_reason is None,
        spec_project(record).retry_count is None,
        spec_project(record).start_time is None,
        spec_project(record).completion_time is None,
{
}

/// A record with at least one condition is summarised from that first
/// condition, and the job name comes from the pod-template label, not
/// from the resource's own metadata name.
pub proof fn lemma_project_status_first_condition(record: ClusterJobRecord, c: JobCondition)
    requires
        record.status matches Some(st) && st.conditions matches Some(cs) && cs@.len() > 0 && cs@[0]
            == c,
    ensures
        spec_project(record).condition_type == c.condition_type,
        spec_project(record).condition_message == c.message,
        spec_project(record).condition_reason == c.reason,
        spec_project(record).job_name == record.pod_template_job_name,
{
}

} // verus!
