//! Jobs: how one is made from a CronJob, and whether one is still running.

use vstd::prelude::*;

use crate::objects::{
    CronJob, CronJobView, Job, JobCondition, JobConditionView, JobPlan, JobTemplateSpecView, JobView,
    ObjectMeta, ObjectMetaView, OwnerReference, OwnerReferenceView,
};
use crate::text_map::TextMap;

verus! {

/// The label under which a Job names the CronJob it was made from.
pub const CRONJOB_LABEL: &'static str = "renovate-k8s-trigger/cronjob";

/// The annotation that says how a Job came to be.
pub const INSTANTIATE_ANNOTATION: &'static str = "cronjob.kubernetes.io/instantiate";

/// Why no Job can be made from a CronJob.
pub enum BuildError {
    /// The CronJob has no name.
    NoName,
    /// The CronJob has no uid.
    NoUid { cronjob_name: String },
    /// The CronJob's template has no specification.
    NoTemplateSpec { cronjob_name: String },
}

/// [`BuildError`] by its contents.
pub enum BuildErrorView {
    NoName,
    NoUid { cronjob_name: Seq<char> },
    NoTemplateSpec { cronjob_name: Seq<char> },
}

impl View for BuildError {
    type V = BuildErrorView;

    open spec fn view(&self) -> BuildErrorView {
        match self {
            BuildError::NoName => BuildErrorView::NoName,
            BuildError::NoUid { cronjob_name } => BuildErrorView::NoUid {
                cronjob_name: cronjob_name@,
            },
            BuildError::NoTemplateSpec { cronjob_name } => BuildErrorView::NoTemplateSpec {
                cronjob_name: cronjob_name@,
            },
        }
    }
}

impl BuildErrorView {
    /// The error in words.
    pub open spec fn message(self) -> Seq<char> {
        match self {
            BuildErrorView::NoName => "CronJob has no name"@,
            BuildErrorView::NoUid { cronjob_name } => "CronJob '"@ + cronjob_name + "' has no uid"@,
            BuildErrorView::NoTemplateSpec { cronjob_name } => "CronJob '"@ + cronjob_name
                + "' has no job template spec"@,
        }
    }
}

impl BuildError {
    /// The error in words.
    pub fn message(&self) -> (message: String)
        ensures
            message@ == self@.message(),
    {
        match self {
            BuildError::NoName => "CronJob has no name".to_owned(),
            BuildError::NoUid { cronjob_name } => "CronJob '".to_owned().concat(
                cronjob_name.as_str(),
            ).concat("' has no uid"),
            BuildError::NoTemplateSpec { cronjob_name } => "CronJob '".to_owned().concat(
                cronjob_name.as_str(),
            ).concat("' has no job template spec"),
        }
    }
}

/// The entries of a map, none where there is no map.
pub open spec fn map_or_empty(map: Option<Map<Seq<char>, Seq<char>>>) -> Map<
    Seq<char>,
    Seq<char>,
> {
    match map {
        Some(map) => map,
        None => Map::empty(),
    }
}

/// The metadata of a CronJob's template, blank where it has none.
pub open spec fn template_metadata(cronjob: CronJobView) -> ObjectMetaView {
    match cronjob.job_template {
        Some(template) => match template.metadata {
            Some(metadata) => metadata,
            None => ObjectMetaView::blank(),
        },
        None => ObjectMetaView::blank(),
    }
}

/// The reference by which a CronJob owns its Jobs. That deletion of the owner
/// waits for the Job is left unset: to set it takes the permission to set
/// finalizers on CronJobs.
pub open spec fn owner_reference_to(cronjob_name: Seq<char>, uid: Seq<char>) -> OwnerReferenceView {
    OwnerReferenceView {
        api_version: "batch/v1"@,
        kind: "CronJob"@,
        name: cronjob_name,
        uid,
        controller: Some(true),
        block_owner_deletion: None,
    }
}

/// The template's specification, kept as long as the service is told where the
/// template does not say.
pub open spec fn spec_with_ttl(spec: JobPlan, job_ttl_seconds: Option<i32>) -> JobPlan {
    JobPlan {
        ttl_seconds_after_finished: match spec.ttl_seconds_after_finished {
            Some(ttl) => Some(ttl),
            None => job_ttl_seconds,
        },
        rest: spec.rest,
    }
}

/// The Job made from a CronJob, or why there is none: fresh metadata with the
/// template's labels and annotations, those of the service set, and the CronJob
/// as owner; the template's specification; no status.
pub open spec fn job_from(
    cronjob: CronJobView,
    namespace: Seq<char>,
    job_name: Seq<char>,
    job_ttl_seconds: Option<i32>,
) -> Result<JobView, BuildErrorView> {
    match cronjob.metadata.name {
        None => Err(BuildErrorView::NoName),
        Some(cronjob_name) => match cronjob.metadata.uid {
            None => Err(BuildErrorView::NoUid { cronjob_name }),
            Some(uid) => {
                if cronjob.job_template is None || cronjob.job_template->0.spec is None {
                    Err(BuildErrorView::NoTemplateSpec { cronjob_name })
                } else {
                    let template = template_metadata(cronjob);
                    Ok(
                        JobView {
                            metadata: ObjectMetaView {
                                name: Some(job_name),
                                namespace: Some(namespace),
                                labels: Some(
                                    map_or_empty(template.labels).insert(
                                        CRONJOB_LABEL@,
                                        cronjob_name,
                                    ),
                                ),
                                annotations: Some(
                                    map_or_empty(template.annotations).insert(
                                        INSTANTIATE_ANNOTATION@,
                                        "manual"@,
                                    ),
                                ),
                                owner_references: Some(
                                    seq![owner_reference_to(cronjob_name, uid)],
                                ),
                                ..ObjectMetaView::blank()
                            },
                            spec: Some(
                                spec_with_ttl(cronjob.job_template->0.spec->0, job_ttl_seconds),
                            ),
                            status: None,
                        },
                    )
                }
            },
        },
    }
}

/// A Job, or why there is none, by its contents.
pub open spec fn built_view(res: Result<Job, BuildError>) -> Result<JobView, BuildErrorView> {
    match res {
        Ok(job) => Ok(job@),
        Err(error) => Err(error@),
    }
}

/// The map that `map` holds, an empty one where there is none.
fn copy_or_empty(map: &Option<TextMap>) -> (res: TextMap)
    ensures
        res@ == map_or_empty(crate::objects::opt_map(*map)),
{
    match map {
        Some(map) => map.copy(),
        None => TextMap::new(),
    }
}

/// Makes a Job from a CronJob's template, the way that
/// `kubectl create job --from=cronjob/..` does.
pub fn build_job_from_cronjob(
    cronjob: &CronJob,
    namespace: &str,
    job_name: &str,
    job_ttl_seconds: Option<i32>,
) -> (res: Result<Job, BuildError>)
    ensures
        built_view(res) == job_from(cronjob@, namespace@, job_name@, job_ttl_seconds),
{
    let cronjob_name = match &cronjob.metadata.name {
        Some(name) => name,
        None => return Err(BuildError::NoName),
    };
    let cronjob_uid = match &cronjob.metadata.uid {
        Some(uid) => uid,
        None => return Err(BuildError::NoUid { cronjob_name: cronjob_name.clone() }),
    };
    let job_template = match &cronjob.spec {
        Some(spec) => &spec.job_template,
        None => return Err(BuildError::NoTemplateSpec { cronjob_name: cronjob_name.clone() }),
    };
    let template = match &job_template.spec {
        Some(template) => template,
        None => return Err(BuildError::NoTemplateSpec { cronjob_name: cronjob_name.clone() }),
    };

    let (template_labels, template_annotations) = match &job_template.metadata {
        Some(metadata) => (copy_or_empty(&metadata.labels), copy_or_empty(&metadata.annotations)),
        None => (TextMap::new(), TextMap::new()),
    };
    let annotations = template_annotations.insert(
        INSTANTIATE_ANNOTATION.to_owned(),
        "manual".to_owned(),
    );
    let labels = template_labels.insert(CRONJOB_LABEL.to_owned(), cronjob_name.clone());

    let ttl_seconds_after_finished = match template.ttl_seconds_after_finished {
        Some(ttl) => Some(ttl),
        None => job_ttl_seconds,
    };
    let spec = JobPlan { ttl_seconds_after_finished, rest: template.rest.clone() };

    let mut owner_references: Vec<OwnerReference> = Vec::new();
    owner_references.push(
        OwnerReference {
            api_version: "batch/v1".to_owned(),
            kind: "CronJob".to_owned(),
            name: cronjob_name.clone(),
            uid: cronjob_uid.clone(),
            controller: Some(true),
            block_owner_deletion: None,
        },
    );
    proof {
        assert(owner_references@.map_values(|owner: OwnerReference| owner@) =~= seq![
            owner_reference_to(cronjob_name@, cronjob_uid@),
        ]);
    }

    Ok(
        Job {
            metadata: ObjectMeta {
                name: Some(job_name.to_owned()),
                namespace: Some(namespace.to_owned()),
                labels: Some(labels),
                annotations: Some(annotations),
                owner_references: Some(owner_references),
                ..ObjectMeta::blank()
            },
            spec: Some(spec),
            status: None,
        },
    )
}

/// Whether a condition says that the Job has finished, well or not.
pub open spec fn says_finished(condition: JobConditionView) -> bool {
    (condition.type_ == "Complete"@ || condition.type_ == "Failed"@) && condition.status == "True"@
}

/// Whether some condition says that the Job has finished.
pub open spec fn any_says_finished(conditions: Seq<JobConditionView>) -> bool {
    exists|i: int| 0 <= i < conditions.len() && says_finished(#[trigger] conditions[i])
}

/// Whether a Job has not finished: it has neither a time of completion nor a
/// condition that says so.
pub open spec fn is_active(job: JobView) -> bool {
    match job.status {
        None => true,
        Some(status) => {
            &&& status.completion_time is None
            &&& status.conditions matches Some(conditions) ==> !any_says_finished(conditions)
        },
    }
}

fn condition_says_finished(condition: &JobCondition) -> (res: bool)
    ensures
        res == says_finished(condition@),
{
    (condition.type_.as_str().eq("Complete") || condition.type_.as_str().eq("Failed"))
        && condition.status.as_str().eq("True")
}

/// True when the Job has not finished (Complete/Failed).
pub fn job_is_active(job: &Job) -> (res: bool)
    ensures
        res == is_active(job@),
{
    let status = match &job.status {
        Some(status) => status,
        None => return true,
    };
    if status.completion_time.is_some() {
        return false;
    }
    if let Some(conditions) = &status.conditions {
        let ghost views = conditions@.map_values(|c: JobCondition| c@);
        let mut i: usize = 0;
        while i < conditions.len()
            invariant
                i <= conditions@.len(),
                views == conditions@.map_values(|c: JobCondition| c@),
                job@.status is Some,
                job@.status->0.conditions == Some(views),
                forall|j: int| 0 <= j < i ==> !says_finished(#[trigger] views[j]),
            decreases conditions@.len() - i,
        {
            if condition_says_finished(&conditions[i]) {
                proof {
                    assert(says_finished(views[i as int]));
                }
                return false;
            }
            i = i + 1;
        }
    }
    true
}

/// The first Job of a list that has not finished.
pub open spec fn first_active(jobs: Seq<JobView>) -> Option<JobView>
    decreases jobs.len(),
{
    if jobs.len() == 0 {
        None
    } else if is_active(jobs[0]) {
        Some(jobs[0])
    } else {
        first_active(jobs.drop_first())
    }
}

/// The Jobs of a list by their contents.
pub open spec fn job_views(jobs: Seq<Job>) -> Seq<JobView> {
    jobs.map_values(|job: Job| job@)
}

/// Finds the first Job that has not finished.
pub fn find_active(jobs: &Vec<Job>) -> (res: Option<&Job>)
    ensures
        res is Some <==> first_active(job_views(jobs@)) is Some,
        res matches Some(job) ==> job@ == first_active(job_views(jobs@))->0,
        res is None ==> forall|i: int| 0 <= i < jobs@.len() ==> !is_active(#[trigger] jobs@[i]@),
        res matches Some(job) ==> exists|k: int|
            0 <= k < jobs@.len() && job == #[trigger] jobs@[k] && is_active(job@) && forall|i: int|
                0 <= i < k ==> !is_active(#[trigger] jobs@[i]@),
{
    let ghost views = job_views(jobs@);
    let mut i: usize = 0;
    proof {
        assert(views.skip(0) =~= views);
    }
    while i < jobs.len()
        invariant
            i <= jobs@.len(),
            views == job_views(jobs@),
            first_active(views) == first_active(views.skip(i as int)),
            forall|j: int| 0 <= j < i ==> !is_active(#[trigger] jobs@[j]@),
        decreases jobs@.len() - i,
    {
        proof {
            assert(views.skip(i as int)[0] == jobs@[i as int]@);
            assert(views.skip(i as int).drop_first() =~= views.skip(i + 1));
        }
        if job_is_active(&jobs[i]) {
            return Some(&jobs[i]);
        }
        i = i + 1;
    }
    None
}

/// There is a first active Job iff there is any.
pub proof fn law_first_active_is_found(jobs: Seq<JobView>)
    ensures
        first_active(jobs) is Some <==> exists|i: int|
            0 <= i < jobs.len() && is_active(#[trigger] jobs[i]),
        first_active(jobs) matches Some(job) ==> is_active(job) && jobs.contains(job),
    decreases jobs.len(),
{
    if jobs.len() > 0 {
        let rest = jobs.drop_first();
        law_first_active_is_found(rest);
        if is_active(jobs[0]) {
            assert(jobs.contains(jobs[0]));
        } else {
            assert forall|i: int| 0 <= i < rest.len() implies #[trigger] rest[i] == jobs[i + 1] by {
            }
            if exists|i: int| 0 <= i < jobs.len() && is_active(#[trigger] jobs[i]) {
                let i = choose|i: int| 0 <= i < jobs.len() && is_active(#[trigger] jobs[i]);
                assert(is_active(rest[i - 1]));
            }
            if first_active(rest) is Some {
                let i = choose|i: int| 0 <= i < rest.len() && is_active(#[trigger] rest[i]);
                assert(is_active(jobs[i + 1]));
                let k = rest.index_of(first_active(rest)->0);
                assert(jobs[k + 1] == first_active(rest)->0);
            }
        }
    }
}

/// A Job is made from every CronJob with a name, a uid and a template with a
/// specification, and from no other.
pub proof fn law_complete_cronjobs_are_built(
    cronjob: CronJobView,
    namespace: Seq<char>,
    job_name: Seq<char>,
    job_ttl_seconds: Option<i32>,
)
    ensures
        job_from(cronjob, namespace, job_name, job_ttl_seconds) is Ok <==> {
            &&& cronjob.metadata.name is Some
            &&& cronjob.metadata.uid is Some
            &&& cronjob.job_template is Some
            &&& cronjob.job_template->0.spec is Some
        },
{
}

/// A Job's metadata is fresh: of what the template's metadata says, labels and
/// annotations alone have any effect.
pub proof fn law_template_metadata_is_sanitized(
    cronjob: CronJobView,
    other: CronJobView,
    namespace: Seq<char>,
    job_name: Seq<char>,
    job_ttl_seconds: Option<i32>,
)
    requires
        cronjob.metadata.name == other.metadata.name,
        cronjob.metadata.uid == other.metadata.uid,
        cronjob.job_template is Some,
        other.job_template is Some,
        cronjob.job_template->0.spec == other.job_template->0.spec,
        template_metadata(cronjob).labels == template_metadata(other).labels,
        template_metadata(cronjob).annotations == template_metadata(other).annotations,
    ensures
        job_from(cronjob, namespace, job_name, job_ttl_seconds) == job_from(
            other,
            namespace,
            job_name,
            job_ttl_seconds,
        ),
        job_from(cronjob, namespace, job_name, job_ttl_seconds) matches Ok(job) ==> {
            &&& job.metadata.uid is None
            &&& job.metadata.resource_version is None
            &&& job.metadata.generate_name is None
            &&& job.metadata.finalizers is None
            &&& job.status is None
        },
{
}

/// A Job keeps every label and annotation of its template, but for the two
/// keys that the service sets itself.
pub proof fn law_template_labels_are_kept(
    cronjob: CronJobView,
    namespace: Seq<char>,
    job_name: Seq<char>,
    job_ttl_seconds: Option<i32>,
    key: Seq<char>,
)
    requires
        job_from(cronjob, namespace, job_name, job_ttl_seconds) is Ok,
    ensures
        ({
            let job = job_from(cronjob, namespace, job_name, job_ttl_seconds)->Ok_0;
            let template = template_metadata(cronjob);
            let labels = job.metadata.labels->0;
            let annotations = job.metadata.annotations->0;
            &&& job.metadata.labels is Some
            &&& job.metadata.annotations is Some
            &&& labels.contains_key(CRONJOB_LABEL@)
            &&& labels[CRONJOB_LABEL@] == cronjob.metadata.name->0
            &&& annotations.contains_key(INSTANTIATE_ANNOTATION@)
            &&& annotations[INSTANTIATE_ANNOTATION@] == "manual"@
            &&& key != CRONJOB_LABEL@ ==> {
                &&& labels.contains_key(key) == map_or_empty(template.labels).contains_key(key)
                &&& labels.contains_key(key) ==> labels[key] == map_or_empty(template.labels)[key]
            }
            &&& key != INSTANTIATE_ANNOTATION@ ==> {
                &&& annotations.contains_key(key) == map_or_empty(
                    template.annotations,
                ).contains_key(key)
                &&& annotations.contains_key(key) ==> annotations[key] == map_or_empty(
                    template.annotations,
                )[key]
            }
        }),
{
}

/// The time for which a finished Job is kept is the template's own where it
/// gives one, and the service's where it does not; of the rest of the
/// specification nothing changes.
pub proof fn law_template_ttl_wins(
    cronjob: CronJobView,
    namespace: Seq<char>,
    job_name: Seq<char>,
    job_ttl_seconds: Option<i32>,
)
    requires
        job_from(cronjob, namespace, job_name, job_ttl_seconds) is Ok,
    ensures
        ({
            let template = cronjob.job_template->0.spec->0;
            let job = job_from(cronjob, namespace, job_name, job_ttl_seconds)->Ok_0;
            &&& job.spec is Some
            &&& job.spec->0.rest == template.rest
            &&& template.ttl_seconds_after_finished is Some
                ==> job.spec->0.ttl_seconds_after_finished == template.ttl_seconds_after_finished
            &&& template.ttl_seconds_after_finished is None
                ==> job.spec->0.ttl_seconds_after_finished == job_ttl_seconds
        }),
{
}

/// The CronJob is the one owner of the Jobs made from it, and their controller.
pub proof fn law_cronjob_owns_its_jobs(
    cronjob: CronJobView,
    namespace: Seq<char>,
    job_name: Seq<char>,
    job_ttl_seconds: Option<i32>,
)
    requires
        job_from(cronjob, namespace, job_name, job_ttl_seconds) is Ok,
    ensures
        ({
            let job = job_from(cronjob, namespace, job_name, job_ttl_seconds)->Ok_0;
            let owners = job.metadata.owner_references->0;
            &&& job.metadata.owner_references is Some
            &&& owners.len() == 1
            &&& owners[0].api_version == "batch/v1"@
            &&& owners[0].kind == "CronJob"@
            &&& owners[0].name == cronjob.metadata.name->0
            &&& owners[0].uid == cronjob.metadata.uid->0
            &&& owners[0].controller == Some(true)
            &&& owners[0].block_owner_deletion is None
        }),
{
}

/// A Job that was just made is active.
pub proof fn law_new_job_is_active(
    cronjob: CronJobView,
    namespace: Seq<char>,
    job_name: Seq<char>,
    job_ttl_seconds: Option<i32>,
)
    ensures
        job_from(cronjob, namespace, job_name, job_ttl_seconds) matches Ok(job) ==> is_active(job),
{
}

/// A CronJob with a Job as its template.
pub open spec fn with_template(cronjob: CronJobView, job: JobView) -> CronJobView {
    CronJobView {
        job_template: Some(JobTemplateSpecView { metadata: Some(job.metadata), spec: job.spec }),
        ..cronjob
    }
}

/// A Job that serves as the template in turn gives the same Job again: labels,
/// annotations and owners do not pile up.
pub proof fn law_building_again_changes_nothing(
    cronjob: CronJobView,
    namespace: Seq<char>,
    job_name: Seq<char>,
    job_ttl_seconds: Option<i32>,
)
    ensures
        job_from(cronjob, namespace, job_name, job_ttl_seconds) matches Ok(job) ==> job_from(
            with_template(cronjob, job),
            namespace,
            job_name,
            job_ttl_seconds,
        ) == Ok::<JobView, BuildErrorView>(job),
{
    if let Ok(job) = job_from(cronjob, namespace, job_name, job_ttl_seconds) {
        let labels = job.metadata.labels->0;
        let annotations = job.metadata.annotations->0;
        assert(labels.insert(CRONJOB_LABEL@, cronjob.metadata.name->0) =~= labels);
        assert(annotations.insert(INSTANTIATE_ANNOTATION@, "manual"@) =~= annotations);
    }
}

/// The conditions of a Job, none where it has no status or its status has none.
pub open spec fn conditions_of(job: JobView) -> Seq<JobConditionView> {
    match job.status {
        Some(status) => match status.conditions {
            Some(conditions) => conditions,
            None => Seq::empty(),
        },
        None => Seq::empty(),
    }
}

/// Whether a Job has a time of completion.
pub open spec fn has_completion_time(job: JobView) -> bool {
    job.status is Some && job.status->0.completion_time is Some
}

/// A Job that has finished stays finished: whatever conditions are added to
/// those it has, wherever among them and in whatever order, and whether or not
/// a time of completion is added.
pub proof fn law_finished_stays_finished(job: JobView, later: JobView)
    requires
        conditions_of(job).to_multiset().subset_of(conditions_of(later).to_multiset()),
        has_completion_time(job) ==> has_completion_time(later),
    ensures
        is_active(later) ==> is_active(job),
{
    conditions_of(job).to_multiset_ensures();
    conditions_of(later).to_multiset_ensures();
    if any_says_finished(conditions_of(job)) {
        let i = choose|i: int|
            0 <= i < conditions_of(job).len() && says_finished(#[trigger] conditions_of(job)[i]);
        let condition = conditions_of(job)[i];
        assert(conditions_of(job).contains(condition));
        assert(conditions_of(job).to_multiset().count(condition) > 0);
        assert(conditions_of(later).contains(condition));
        let k = conditions_of(later).index_of(condition);
        assert(says_finished(conditions_of(later)[k]));
    }
}

/// The order of a Job's conditions does not matter.
pub proof fn law_order_of_conditions_is_irrelevant(job: JobView, other: JobView)
    requires
        conditions_of(job).to_multiset() == conditions_of(other).to_multiset(),
        has_completion_time(job) == has_completion_time(other),
    ensures
        is_active(job) == is_active(other),
{
    law_finished_stays_finished(job, other);
    law_finished_stays_finished(other, job);
}

/// All that a Job says when it is made, in terms of the CronJob: its name and
/// namespace are those asked for; its labels and annotations are the template's,
/// with the two of the service set; its one owner is the CronJob; its
/// specification is the template's, with the time for which it is kept filled in
/// where the template leaves it open; and it says nothing else.
pub proof fn law_built_job_in_full(
    cronjob: CronJobView,
    namespace: Seq<char>,
    job_name: Seq<char>,
    job_ttl_seconds: Option<i32>,
)
    ensures
        job_from(cronjob, namespace, job_name, job_ttl_seconds) matches Ok(job) ==> {
            let template = cronjob.job_template->0;
            let labels = match template.metadata {
                Some(metadata) => match metadata.labels {
                    Some(labels) => labels,
                    None => Map::empty(),
                },
                None => Map::empty(),
            };
            let annotations = match template.metadata {
                Some(metadata) => match metadata.annotations {
                    Some(annotations) => annotations,
                    None => Map::empty(),
                },
                None => Map::empty(),
            };
            &&& job.metadata.name == Some(job_name)
            &&& job.metadata.namespace == Some(namespace)
            &&& job.metadata.labels == Some(
                labels.insert("renovate-k8s-trigger/cronjob"@, cronjob.metadata.name->0),
            )
            &&& job.metadata.annotations == Some(
                annotations.insert("cronjob.kubernetes.io/instantiate"@, "manual"@),
            )
            &&& job.metadata.owner_references == Some(
                seq![
                    OwnerReferenceView {
                        api_version: "batch/v1"@,
                        kind: "CronJob"@,
                        name: cronjob.metadata.name->0,
                        uid: cronjob.metadata.uid->0,
                        controller: Some(true),
                        block_owner_deletion: None,
                    },
                ],
            )
            &&& job.metadata.generate_name is None
            &&& job.metadata.uid is None
            &&& job.metadata.resource_version is None
            &&& job.metadata.finalizers is None
            &&& job.spec is Some
            &&& job.spec->0.rest == template.spec->0.rest
            &&& match template.spec->0.ttl_seconds_after_finished {
                Some(ttl) => job.spec->0.ttl_seconds_after_finished == Some(ttl),
                None => job.spec->0.ttl_seconds_after_finished == job_ttl_seconds,
            }
            &&& job.status is None
        },
{
}

/// Why no Job is made, and what the error says: the first that is missing of
/// name, uid and a template with a specification.
pub proof fn law_incomplete_cronjobs_are_refused(
    cronjob: CronJobView,
    namespace: Seq<char>,
    job_name: Seq<char>,
    job_ttl_seconds: Option<i32>,
)
    ensures
        ({
            let built = job_from(cronjob, namespace, job_name, job_ttl_seconds);
            match cronjob.metadata.name {
                None => built == Err::<JobView, BuildErrorView>(BuildErrorView::NoName),
                Some(cronjob_name) => if cronjob.metadata.uid is None {
                    built == Err::<JobView, BuildErrorView>(BuildErrorView::NoUid { cronjob_name })
                } else if cronjob.job_template is None || cronjob.job_template->0.spec is None {
                    built == Err::<JobView, BuildErrorView>(
                        BuildErrorView::NoTemplateSpec { cronjob_name },
                    )
                } else {
                    built is Ok
                },
            }
        }),
{
}

/// An error is shown as it is, and its words name the CronJob.
pub proof fn law_build_errors_in_words(error: BuildError)
    ensures
        match error {
            BuildError::NoName => error@ is NoName && error@.message() == "CronJob has no name"@,
            BuildError::NoUid { cronjob_name } => {
                &&& error@ == (BuildErrorView::NoUid { cronjob_name: cronjob_name@ })
                &&& error@.message() == "CronJob '"@ + cronjob_name@ + "' has no uid"@
            },
            BuildError::NoTemplateSpec { cronjob_name } => {
                &&& error@ == (BuildErrorView::NoTemplateSpec { cronjob_name: cronjob_name@ })
                &&& error@.message() == "CronJob '"@ + cronjob_name@
                    + "' has no job template spec"@
            },
        },
{
}

/// What was built is shown as it is.
pub proof fn law_built_is_shown(job: Job, error: BuildError)
    ensures
        built_view(Ok(job)) == Ok::<JobView, BuildErrorView>(job@),
        built_view(Err(error)) == Err::<JobView, BuildErrorView>(error@),
{
}

/// When a Job has finished: it has a time of completion, whatever that is, or
/// among its conditions, wherever it stands, `Complete` or `Failed` with the
/// status `True`.
pub proof fn law_when_a_job_has_finished(job: JobView)
    ensures
        is_active(job) <==> match job.status {
            None => true,
            Some(status) => status.completion_time is None && match status.conditions {
                None => true,
                Some(conditions) => forall|i: int|
                    0 <= i < conditions.len() ==> !((#[trigger] conditions[i]).status == "True"@ && (
                    conditions[i].type_ == "Complete"@ || conditions[i].type_ == "Failed"@)),
            },
        },
{
}

/// Of several Jobs that are active the first in the list is found, wherever it
/// stands.
pub proof fn law_first_active_comes_first(jobs: Seq<JobView>, k: int)
    requires
        0 <= k < jobs.len(),
        is_active(jobs[k]),
        forall|i: int| 0 <= i < k ==> !is_active(#[trigger] jobs[i]),
    ensures
        first_active(jobs) == Some(jobs[k]),
    decreases k,
{
    if k > 0 {
        let rest = jobs.drop_first();
        assert forall|i: int| 0 <= i < k - 1 implies !is_active(#[trigger] rest[i]) by {
            assert(rest[i] == jobs[i + 1]);
        }
        assert(!is_active(jobs[0]));
        law_first_active_comes_first(rest, k - 1);
    }
}

/// A list of Jobs is shown Job by Job, in its order.
pub proof fn law_jobs_are_shown(jobs: Seq<Job>)
    ensures
        job_views(jobs).len() == jobs.len(),
        forall|i: int| 0 <= i < jobs.len() ==> #[trigger] job_views(jobs)[i] == jobs[i]@,
{
}

} // verus!
