use job_gateway::gateway::{
    create_job, creation_reply, error_reply, get_jobs, schedule_job, GatewayError, HttpReply,
    ReplyBody,
};
use job_gateway::status::{ClusterJobRecord, JobCondition, JobRecordStatus};
use job_gateway::{CreateCronJob, CreateJob};

#[test]
fn post_job_accepted_by_cluster_replies_200_empty() {
    let doc = create_job(CreateJob { name: "batch-1".to_string() }).unwrap();
    assert_eq!(doc.name, "batch-1");
    // The cluster accepts the submission.
    let reply = creation_reply(Ok(()));
    assert_eq!(reply, HttpReply { status: 200, body: ReplyBody::EmptyObject });
}

#[test]
fn post_job_with_empty_name_replies_400_before_any_cluster_call() {
    let r = create_job(CreateJob { name: String::new() });
    // The handler never reaches the submission phase: it already holds a reply.
    let reply = r.unwrap_err();
    assert_eq!(reply.status, 400);
    match reply.body {
        ReplyBody::ErrorMessage(m) => assert!(!m.is_empty()),
        other => panic!("expected an error message body, got {other:?}"),
    }
}

#[test]
fn post_schedule_accepted_by_cluster_replies_200_empty() {
    let doc = schedule_job(CreateCronJob {
        name: "nightly".to_string(),
        syntax: "0 2 * * *".to_string(),
    })
    .unwrap();
    assert_eq!(doc.name, "nightly");
    assert_eq!(doc.schedule, "0 2 * * *");
    let reply = creation_reply(Ok(()));
    assert_eq!(reply, HttpReply { status: 200, body: ReplyBody::EmptyObject });
}

#[test]
fn post_schedule_with_empty_syntax_replies_400() {
    let r = schedule_job(CreateCronJob { name: "nightly".to_string(), syntax: String::new() });
    let reply = r.unwrap_err();
    assert_eq!(reply.status, 400);
    match reply.body {
        ReplyBody::ErrorMessage(m) => assert!(!m.is_empty()),
        other => panic!("expected an error message body, got {other:?}"),
    }
}

#[test]
fn cluster_rejection_message_passed_through_as_400() {
    let reply = creation_reply(Err("jobs.batch \"batch-1\" already exists".to_string()));
    assert_eq!(reply.status, 400);
    assert_eq!(
        reply.body,
        ReplyBody::ErrorMessage("jobs.batch \"batch-1\" already exists".to_string())
    );
}

#[test]
fn stats_with_two_records_replies_200_with_two_summaries() {
    let full = ClusterJobRecord {
        metadata_name: Some("batch-1".to_string()),
        pod_template_job_name: Some("batch-1".to_string()),
        status: Some(JobRecordStatus {
            conditions: Some(vec![JobCondition {
                condition_type: Some("Complete".to_string()),
                message: Some("done".to_string()),
                reason: Some("AllPodsSucceeded".to_string()),
            }]),
            failed: Some(0),
            start_time: Some("2024-01-01T00:00:00Z".to_string()),
            completion_time: Some("2024-01-01T00:01:00Z".to_string()),
        }),
    };
    let bare = ClusterJobRecord { metadata_name: None, pod_template_job_name: None, status: None };
    let reply = get_jobs(Ok(vec![full, bare]));
    assert_eq!(reply.status, 200);
    match reply.body {
        ReplyBody::Summaries(s) => {
            assert_eq!(s.len(), 2);
            assert_eq!(s[0].job_name.as_deref(), Some("batch-1"));
            assert_eq!(s[0].condition_type.as_deref(), Some("Complete"));
            assert_eq!(s[1].job_name, None);
            assert_eq!(s[1].condition_type, None);
            assert_eq!(s[1].condition_message, None);
            assert_eq!(s[1].condition_reason, None);
            assert_eq!(s[1].retry_count, None);
            assert_eq!(s[1].start_time, None);
            assert_eq!(s[1].completion_time, None);
        }
        other => panic!("expected summaries, got {other:?}"),
    }
}

#[test]
fn stats_on_cluster_read_error_replies_500_with_message() {
    let reply = get_jobs(Err("error trying to connect: tcp connect error".to_string()));
    assert_eq!(reply.status, 500);
    assert_eq!(
        reply.body,
        ReplyBody::ErrorMessage("error trying to connect: tcp connect error".to_string())
    );
}

#[test]
fn error_reply_maps_each_variant_to_its_status() {
    let r = error_reply(GatewayError::Validation { message: "bad name".to_string() });
    assert_eq!(r.status, 400);
    assert_eq!(r.body, ReplyBody::ErrorMessage("bad name".to_string()));
    let r = error_reply(GatewayError::ClusterSubmission { message: "rejected".to_string() });
    assert_eq!(r.status, 400);
    assert_eq!(r.body, ReplyBody::ErrorMessage("rejected".to_string()));
    let r = error_reply(GatewayError::ClusterRead { message: "unreachable".to_string() });
    assert_eq!(r.status, 500);
    assert_eq!(r.body, ReplyBody::ErrorMessage("unreachable".to_string()));
}
