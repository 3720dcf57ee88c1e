use renovate_k8s_trigger::job::{
    build_job_from_cronjob, find_active, job_is_active, BuildError, CRONJOB_LABEL,
};
use renovate_k8s_trigger::objects::{
    CronJob, CronJobSpec, Job, JobCondition, JobPlan, JobStatus, JobTemplateSpec, ObjectMeta,
};
use renovate_k8s_trigger::text_map::TextMap;

fn text_map(entries: &[(&str, &str)]) -> TextMap {
    let mut map = TextMap::new();
    for (key, value) in entries {
        map = map.insert(key.to_string(), value.to_string());
    }
    map
}

fn sample_cronjob(name: &str, uid: &str) -> CronJob {
    CronJob {
        metadata: ObjectMeta {
            name: Some(name.to_string()),
            uid: Some(uid.to_string()),
            namespace: Some("renovate-trigger".to_string()),
            ..ObjectMeta::blank()
        },
        spec: Some(CronJobSpec {
            job_template: JobTemplateSpec {
                metadata: Some(ObjectMeta {
                    labels: Some(text_map(&[("app", "renovate")])),
                    annotations: Some(text_map(&[("keep", "me")])),
                    // Stale server fields that must NOT be copied onto the Job.
                    uid: Some("template-uid".to_string()),
                    resource_version: Some("12345".to_string()),
                    ..ObjectMeta::blank()
                }),
                spec: Some(JobPlan {
                    ttl_seconds_after_finished: None,
                    rest: k8s_openapi::api::batch::v1::JobSpec::default(),
                }),
            },
        }),
    }
}

fn job_with_status(name: &str, status: Option<JobStatus>) -> Job {
    Job {
        metadata: ObjectMeta { name: Some(name.to_string()), ..ObjectMeta::blank() },
        spec: None,
        status,
    }
}

fn condition(type_: &str, status: &str) -> JobCondition {
    JobCondition { type_: type_.to_string(), status: status.to_string() }
}

fn with_conditions(conditions: Vec<JobCondition>) -> Job {
    job_with_status(
        "job",
        Some(JobStatus { completion_time: None, conditions: Some(conditions) }),
    )
}

#[test]
fn test_build_job_sanitizes_template_metadata_and_sets_owner() {
    let cronjob = sample_cronjob("renovate", "cron-uid-1");
    let job = build_job_from_cronjob(
        &cronjob,
        "renovate-trigger",
        "renovate-manual-deadbeef",
        Some(3600),
    )
    .ok()
    .unwrap();

    assert_eq!(job.metadata.name.as_deref(), Some("renovate-manual-deadbeef"));
    assert_eq!(job.metadata.namespace.as_deref(), Some("renovate-trigger"));
    assert!(job.metadata.uid.is_none());
    assert!(job.metadata.resource_version.is_none());

    let labels = job.metadata.labels.unwrap();
    assert_eq!(labels.get("app"), Some("renovate"));
    assert_eq!(labels.get(CRONJOB_LABEL), Some("renovate"));

    let annotations = job.metadata.annotations.unwrap();
    assert_eq!(annotations.get("cronjob.kubernetes.io/instantiate"), Some("manual"));
    assert_eq!(annotations.get("keep"), Some("me"));

    let owner = &job.metadata.owner_references.unwrap()[0];
    assert_eq!(owner.api_version, "batch/v1");
    assert_eq!(owner.kind, "CronJob");
    assert_eq!(owner.name, "renovate");
    assert_eq!(owner.uid, "cron-uid-1");
    assert_eq!(owner.controller, Some(true));
    assert_eq!(owner.block_owner_deletion, None);

    assert_eq!(
        job.spec.as_ref().and_then(|s| s.ttl_seconds_after_finished),
        Some(3600)
    );
    assert!(job.status.is_none());
}

#[test]
fn test_build_job_preserves_template_ttl() {
    let mut cronjob = sample_cronjob("renovate", "cron-uid-1");
    cronjob
        .spec
        .as_mut()
        .unwrap()
        .job_template
        .spec
        .as_mut()
        .unwrap()
        .ttl_seconds_after_finished = Some(60);

    let job = build_job_from_cronjob(&cronjob, "ns", "job-1", Some(86400)).ok().unwrap();
    assert_eq!(
        job.spec.as_ref().and_then(|s| s.ttl_seconds_after_finished),
        Some(60)
    );
}

#[test]
fn test_job_is_active_heuristics() {
    let mut active = job_with_status("job", None);
    assert!(job_is_active(&active));

    active.status = Some(JobStatus {
        completion_time: Some(chrono::Utc::now().timestamp()),
        conditions: None,
    });
    assert!(!job_is_active(&active));

    let finished = with_conditions(vec![condition("Complete", "True")]);
    assert!(!job_is_active(&finished));
}

#[test]
fn conditions_that_end_a_job() {
    assert!(!job_is_active(&with_conditions(vec![condition("Failed", "True")])));
    assert!(!job_is_active(&with_conditions(vec![
        condition("Suspended", "True"),
        condition("Complete", "False"),
        condition("Failed", "True"),
    ])));
    assert!(job_is_active(&with_conditions(vec![])));
    assert!(job_is_active(&with_conditions(vec![condition("Complete", "False")])));
    assert!(job_is_active(&with_conditions(vec![condition("Failed", "Unknown")])));
    assert!(job_is_active(&with_conditions(vec![condition("Suspended", "True")])));
    assert!(job_is_active(&with_conditions(vec![condition("complete", "True")])));
    assert!(job_is_active(&job_with_status(
        "job",
        Some(JobStatus { completion_time: None, conditions: None }),
    )));
}

#[test]
fn the_first_active_job_is_found() {
    let done = Some(JobStatus { completion_time: Some(0), conditions: None });
    let jobs = vec![
        job_with_status("done", done),
        job_with_status("one", None),
        job_with_status("two", None),
    ];
    assert_eq!(find_active(&jobs).unwrap().metadata.name.as_deref(), Some("one"));
    assert!(find_active(&vec![]).is_none());
}

#[test]
fn the_rest_of_the_template_is_carried_over() {
    let mut cronjob = sample_cronjob("renovate", "cron-uid-1");
    let template = cronjob.spec.as_mut().unwrap().job_template.spec.as_mut().unwrap();
    template.rest.backoff_limit = Some(3);
    template.rest.completion_mode = Some("Indexed".to_string());
    let expected = template.rest.clone();
    let job = build_job_from_cronjob(&cronjob, "ns", "job-1", None).ok().unwrap();
    let spec = job.spec.unwrap();
    assert_eq!(spec.rest, expected);
    assert_eq!(spec.rest.backoff_limit, Some(3));
    assert_eq!(spec.ttl_seconds_after_finished, None);
}

#[test]
fn the_template_keeps_its_own_maps() {
    let cronjob = sample_cronjob("renovate", "cron-uid-1");
    build_job_from_cronjob(&cronjob, "ns", "job-1", None).ok().unwrap();
    let metadata = cronjob.spec.unwrap().job_template.metadata.unwrap();
    assert_eq!(metadata.labels.unwrap().get(CRONJOB_LABEL), None);
}

#[test]
fn the_service_label_replaces_one_of_the_template() {
    let mut cronjob = sample_cronjob("renovate", "cron-uid-1");
    cronjob.spec.as_mut().unwrap().job_template.metadata.as_mut().unwrap().labels =
        Some(text_map(&[(CRONJOB_LABEL, "other"), ("app", "renovate")]));
    let job = build_job_from_cronjob(&cronjob, "ns", "job-1", None).ok().unwrap();
    let mut labels = job.metadata.labels.unwrap().into_entries();
    labels.sort();
    assert_eq!(
        labels,
        vec![
            ("app".to_string(), "renovate".to_string()),
            (CRONJOB_LABEL.to_string(), "renovate".to_string()),
        ]
    );
}

#[test]
fn a_template_without_metadata_will_do() {
    let mut cronjob = sample_cronjob("renovate", "cron-uid-1");
    cronjob.spec.as_mut().unwrap().job_template.metadata = None;
    let job = build_job_from_cronjob(&cronjob, "ns", "job-1", None).ok().unwrap();
    assert_eq!(job.metadata.labels.unwrap().into_entries().len(), 1);
    assert_eq!(job.metadata.annotations.unwrap().into_entries().len(), 1);
}

#[test]
fn what_a_cronjob_must_have() {
    let mut cronjob = sample_cronjob("renovate", "cron-uid-1");
    cronjob.spec.as_mut().unwrap().job_template.spec = None;
    let error = build_job_from_cronjob(&cronjob, "ns", "job-1", None).err().unwrap();
    assert!(matches!(&error, BuildError::NoTemplateSpec { .. }));
    assert_eq!(error.message(), "CronJob 'renovate' has no job template spec");

    cronjob.spec = None;
    let error = build_job_from_cronjob(&cronjob, "ns", "job-1", None).err().unwrap();
    assert_eq!(error.message(), "CronJob 'renovate' has no job template spec");

    cronjob.metadata.uid = None;
    let error = build_job_from_cronjob(&cronjob, "ns", "job-1", None).err().unwrap();
    assert!(matches!(&error, BuildError::NoUid { .. }));
    assert_eq!(error.message(), "CronJob 'renovate' has no uid");

    cronjob.metadata.name = None;
    let error = build_job_from_cronjob(&cronjob, "ns", "job-1", None).err().unwrap();
    assert!(matches!(&error, BuildError::NoName));
    assert_eq!(error.message(), "CronJob has no name");
}

#[test]
fn text_maps_keep_one_value_for_each_key() {
    let map = text_map(&[("a", "1"), ("b", "2"), ("a", "3")]);
    assert_eq!(map.get("a"), Some("3"));
    assert_eq!(map.get("b"), Some("2"));
    assert_eq!(map.get("c"), None);
    assert_eq!(map.copy().get("a"), Some("3"));
    assert_eq!(map.into_entries().len(), 2);
}

#[test]
fn building_again_changes_nothing() {
    let mut cronjob = sample_cronjob("renovate", "cron-uid-1");
    let build = |cronjob: &CronJob| {
        build_job_from_cronjob(cronjob, "ns", "job-1", Some(60)).ok().unwrap()
    };
    let first = build(&cronjob);
    let again = build(&cronjob);
    cronjob.spec = Some(CronJobSpec {
        job_template: JobTemplateSpec { metadata: Some(again.metadata), spec: again.spec },
    });
    let second = build(&cronjob);
    let sorted = |map: Option<TextMap>| {
        let mut entries = map.unwrap().into_entries();
        entries.sort();
        entries
    };
    assert_eq!(second.metadata.name, first.metadata.name);
    assert_eq!(second.metadata.namespace, first.metadata.namespace);
    assert_eq!(sorted(second.metadata.labels), sorted(first.metadata.labels));
    assert_eq!(sorted(second.metadata.annotations), sorted(first.metadata.annotations));
    assert_eq!(second.metadata.owner_references.unwrap().len(), 1);
    let (first, second) = (first.spec.unwrap(), second.spec.unwrap());
    assert_eq!(second.ttl_seconds_after_finished, Some(60));
    assert_eq!(second.ttl_seconds_after_finished, first.ttl_seconds_after_finished);
    assert_eq!(second.rest, first.rest);
}

#[test]
fn a_finished_job_stays_finished() {
    assert!(!job_is_active(&with_conditions(vec![
        condition("Suspended", "False"),
        condition("Complete", "True"),
        condition("Failed", "False"),
    ])));
    assert!(!job_is_active(&with_conditions(vec![
        condition("Complete", "True"),
        condition("Failed", "False"),
        condition("Suspended", "False"),
    ])));
}
