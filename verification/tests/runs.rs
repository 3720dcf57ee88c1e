use renovate_k8s_trigger::job::{CRONJOB_LABEL, BuildError};
use renovate_k8s_trigger::objects::{
    CronJob, CronJobSpec, Job, JobPlan, JobStatus, JobTemplateSpec, ObjectMeta,
};
use renovate_k8s_trigger::run::{
    create_job_from_cronjob, label_selector, needs_job_name, next_action_with_name, TriggerAction,
    TriggerError, TriggerEvent, TriggerOutcome, TriggerTarget,
};

fn target() -> TriggerTarget {
    TriggerTarget {
        namespace: "ns".to_string(),
        cronjob_name: "renovate".to_string(),
        job_ttl_seconds: Some(60),
    }
}

fn cronjob() -> CronJob {
    CronJob {
        metadata: ObjectMeta {
            name: Some("renovate".to_string()),
            uid: Some("uid-1".to_string()),
            ..ObjectMeta::blank()
        },
        spec: Some(CronJobSpec {
            job_template: JobTemplateSpec {
                metadata: None,
                spec: Some(JobPlan {
                    ttl_seconds_after_finished: None,
                    rest: k8s_openapi::api::batch::v1::JobSpec::default(),
                }),
            },
        }),
    }
}

fn job(name: Option<&str>, finished: bool) -> Job {
    Job {
        metadata: ObjectMeta { name: name.map(|n| n.to_string()), ..ObjectMeta::blank() },
        spec: None,
        status: Some(JobStatus {
            completion_time: if finished { Some(1) } else { None },
            conditions: None,
        }),
    }
}

fn result_of(event: TriggerEvent) -> Result<TriggerOutcome, TriggerError> {
    match create_job_from_cronjob(&target(), event) {
        TriggerAction::Finish { result } => result,
        _ => panic!("the run goes on"),
    }
}

#[test]
fn a_run_first_fetches_the_cronjob() {
    match create_job_from_cronjob(&target(), TriggerEvent::Started) {
        TriggerAction::FetchCronJob { namespace, cronjob_name } => {
            assert_eq!(namespace, "ns");
            assert_eq!(cronjob_name, "renovate");
        }
        _ => panic!("another action"),
    }
}

#[test]
fn a_run_then_lists_its_jobs() {
    match create_job_from_cronjob(&target(), TriggerEvent::Fetched { fetched: Ok(cronjob()) }) {
        TriggerAction::ListJobs { namespace, label_selector, cronjob } => {
            assert_eq!(namespace, "ns");
            assert_eq!(label_selector, "renovate-k8s-trigger/cronjob=renovate");
            assert_eq!(cronjob.metadata.uid.as_deref(), Some("uid-1"));
        }
        _ => panic!("another action"),
    }
    assert_eq!(label_selector("x"), "renovate-k8s-trigger/cronjob=x");
}

#[test]
fn a_run_creates_a_job_when_all_have_finished() {
    let event = TriggerEvent::Listed {
        cronjob: cronjob(),
        listed: Ok(vec![job(Some("a"), true), job(Some("b"), true)]),
    };
    assert!(needs_job_name(&event));
    match create_job_from_cronjob(&target(), event) {
        TriggerAction::CreateJob { namespace, job_name, job } => {
            assert_eq!(namespace, "ns");
            assert_eq!(&job_name[..16], "renovate-manual-");
            assert_eq!(job_name.len(), 24);
            assert_eq!(job.metadata.name, Some(job_name));
            assert_eq!(job.metadata.namespace.as_deref(), Some("ns"));
            assert_eq!(job.metadata.labels.unwrap().get(CRONJOB_LABEL), Some("renovate"));
            assert_eq!(job.spec.unwrap().ttl_seconds_after_finished, Some(60));
        }
        _ => panic!("another action"),
    }
}

#[test]
fn an_active_job_throttles() {
    let event = TriggerEvent::Listed {
        cronjob: cronjob(),
        listed: Ok(vec![job(Some("a"), true), job(Some("b"), false), job(Some("c"), false)]),
    };
    assert!(!needs_job_name(&event));
    assert_eq!(
        result_of(event).ok(),
        Some(TriggerOutcome::Throttled { job: "b".to_string() })
    );
}

#[test]
fn an_active_job_without_a_name_is_unknown() {
    let event =
        TriggerEvent::Listed { cronjob: cronjob(), listed: Ok(vec![job(None, false)]) };
    assert_eq!(
        result_of(event).ok(),
        Some(TriggerOutcome::Throttled { job: "unknown".to_string() })
    );
}

#[test]
fn an_active_job_throttles_even_where_no_name_could_be_made() {
    let target = TriggerTarget {
        namespace: "ns".to_string(),
        cronjob_name: format!("x{}", "\u{e9}".repeat(100)),
        job_ttl_seconds: None,
    };
    let event =
        TriggerEvent::Listed { cronjob: cronjob(), listed: Ok(vec![job(Some("a"), false)]) };
    match create_job_from_cronjob(&target, event) {
        TriggerAction::Finish { result: Ok(TriggerOutcome::Throttled { job }) } => {
            assert_eq!(job, "a")
        }
        _ => panic!("another action"),
    }
}

#[test]
fn the_run_ends_with_the_name_that_the_cluster_gives() {
    let created = |name| TriggerEvent::Created {
        job_name: "asked".to_string(),
        created: Ok(job(name, false)),
    };
    assert_eq!(
        result_of(created(Some("given"))).ok(),
        Some(TriggerOutcome::Created { job: "given".to_string() })
    );
    assert_eq!(
        result_of(created(None)).ok(),
        Some(TriggerOutcome::Created { job: "asked".to_string() })
    );
}

#[test]
fn failures_say_what_failed() {
    let cause = || "boom".to_string();
    let error = result_of(TriggerEvent::Fetched { fetched: Err(cause()) }).err().unwrap();
    assert_eq!(error.message(), "Failed to fetch CronJob 'renovate'");
    match error {
        TriggerError::FetchFailed { cause, .. } => assert_eq!(cause, "boom"),
        _ => panic!("another error"),
    }

    let error = result_of(TriggerEvent::Listed { cronjob: cronjob(), listed: Err(cause()) })
        .err()
        .unwrap();
    assert_eq!(error.message(), "Failed to list Jobs for CronJob 'renovate'");
    match error {
        TriggerError::ListFailed { cause, .. } => assert_eq!(cause, "boom"),
        _ => panic!("another error"),
    }

    let error = result_of(TriggerEvent::Created {
        job_name: "renovate-manual-a3f9c12b".to_string(),
        created: Err(cause()),
    })
    .err()
    .unwrap();
    assert_eq!(error.message(), "Failed to create Job 'renovate-manual-a3f9c12b'");
    match error {
        TriggerError::CreateFailed { cause, .. } => assert_eq!(cause, "boom"),
        _ => panic!("another error"),
    }
}

#[test]
fn a_cronjob_without_a_uid_ends_the_run() {
    let mut cronjob = cronjob();
    cronjob.metadata.uid = None;
    let error =
        result_of(TriggerEvent::Listed { cronjob, listed: Ok(vec![]) }).err().unwrap();
    assert_eq!(error.message(), "CronJob 'renovate' has no uid");
    assert!(matches!(error, TriggerError::NotBuilt { error: BuildError::NoUid { .. } }));
}

#[test]
fn a_second_run_is_throttled_by_the_job_of_the_first() {
    let first = match next_action_with_name(
        &target(),
        TriggerEvent::Listed { cronjob: cronjob(), listed: Ok(vec![]) },
        "renovate-manual-a3f9c12b".to_string(),
    ) {
        TriggerAction::CreateJob { job_name, job, .. } => {
            assert_eq!(job_name, "renovate-manual-a3f9c12b");
            job
        }
        _ => panic!("another action"),
    };
    let second = result_of(TriggerEvent::Listed { cronjob: cronjob(), listed: Ok(vec![first]) });
    assert_eq!(
        second.ok(),
        Some(TriggerOutcome::Throttled { job: "renovate-manual-a3f9c12b".to_string() })
    );
}

#[test]
fn a_stored_job_throttles_later_runs() {
    let mut stored = match create_job_from_cronjob(
        &target(),
        TriggerEvent::Listed { cronjob: cronjob(), listed: Ok(vec![]) },
    ) {
        TriggerAction::CreateJob { job, .. } => job,
        _ => panic!("another action"),
    };
    let selector = label_selector("renovate");
    let (key, value) = selector.split_once('=').unwrap();
    assert_eq!(stored.metadata.labels.as_ref().unwrap().get(key), Some(value));

    stored.metadata.uid = Some("given-by-the-cluster".to_string());
    stored.status = Some(JobStatus { completion_time: None, conditions: Some(vec![]) });
    let name = stored.metadata.name.clone().unwrap();
    let listed = vec![job(Some("a"), true), stored, job(Some("b"), true)];
    let later = TriggerEvent::Listed { cronjob: cronjob(), listed: Ok(listed) };
    assert_eq!(result_of(later).ok(), Some(TriggerOutcome::Throttled { job: name }));
}
