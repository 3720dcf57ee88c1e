//! The Kubernetes objects that the service reads and writes, as far as it
//! looks into them.

use vstd::prelude::*;

use crate::text;
use crate::text_map::TextMap;

verus! {

/// A Job's specification as `k8s_openapi` has it. It is carried along
/// unopened.
#[verifier::external_type_specification]
#[verifier::external_body]
pub struct ExJobSpec(k8s_openapi::api::batch::v1::JobSpec);

/// `Clone` of the specification: a derived clone, which copies every field.
pub assume_specification[ <k8s_openapi::api::batch::v1::JobSpec as Clone>::clone ](
    spec: &k8s_openapi::api::batch::v1::JobSpec,
) -> (res: k8s_openapi::api::batch::v1::JobSpec)
    ensures
        res == *spec,
;

/// A reference from an object to the one that owns it.
pub struct OwnerReference {
    pub api_version: String,
    pub kind: String,
    pub name: String,
    pub uid: String,
    pub controller: Option<bool>,
    pub block_owner_deletion: Option<bool>,
}

/// [`OwnerReference`] by its contents.
#[verifier::ext_equal]
pub struct OwnerReferenceView {
    pub api_version: Seq<char>,
    pub kind: Seq<char>,
    pub name: Seq<char>,
    pub uid: Seq<char>,
    pub controller: Option<bool>,
    pub block_owner_deletion: Option<bool>,
}

impl View for OwnerReference {
    type V = OwnerReferenceView;

    open spec fn view(&self) -> OwnerReferenceView {
        OwnerReferenceView {
            api_version: self.api_version@,
            kind: self.kind@,
            name: self.name@,
            uid: self.uid@,
            controller: self.controller,
            block_owner_deletion: self.block_owner_deletion,
        }
    }
}

/// What an object says of itself.
pub struct ObjectMeta {
    pub name: Option<String>,
    pub generate_name: Option<String>,
    pub namespace: Option<String>,
    pub uid: Option<String>,
    pub resource_version: Option<String>,
    pub labels: Option<TextMap>,
    pub annotations: Option<TextMap>,
    pub owner_references: Option<Vec<OwnerReference>>,
    pub finalizers: Option<Vec<String>>,
}

/// [`ObjectMeta`] by its contents.
#[verifier::ext_equal]
pub struct ObjectMetaView {
    pub name: Option<Seq<char>>,
    pub generate_name: Option<Seq<char>>,
    pub namespace: Option<Seq<char>>,
    pub uid: Option<Seq<char>>,
    pub resource_version: Option<Seq<char>>,
    pub labels: Option<Map<Seq<char>, Seq<char>>>,
    pub annotations: Option<Map<Seq<char>, Seq<char>>>,
    pub owner_references: Option<Seq<OwnerReferenceView>>,
    pub finalizers: Option<Seq<Seq<char>>>,
}

/// The contents of a map that may be missing.
pub open spec fn opt_map(map: Option<TextMap>) -> Option<Map<Seq<char>, Seq<char>>> {
    match map {
        Some(map) => Some(map@),
        None => None,
    }
}

impl View for ObjectMeta {
    type V = ObjectMetaView;

    open spec fn view(&self) -> ObjectMetaView {
        ObjectMetaView {
            name: text::opt_string(self.name),
            generate_name: text::opt_string(self.generate_name),
            namespace: text::opt_string(self.namespace),
            uid: text::opt_string(self.uid),
            resource_version: text::opt_string(self.resource_version),
            labels: opt_map(self.labels),
            annotations: opt_map(self.annotations),
            owner_references: match self.owner_references {
                Some(owners) => Some(owners@.map_values(|owner: OwnerReference| owner@)),
                None => None,
            },
            finalizers: match self.finalizers {
                Some(finalizers) => Some(finalizers@.map_values(|f: String| f@)),
                None => None,
            },
        }
    }
}

impl ObjectMetaView {
    /// Metadata in which nothing is set.
    pub open spec fn blank() -> ObjectMetaView {
        ObjectMetaView {
            name: None,
            generate_name: None,
            namespace: None,
            uid: None,
            resource_version: None,
            labels: None,
            annotations: None,
            owner_references: None,
            finalizers: None,
        }
    }
}

impl ObjectMeta {
    /// Metadata in which nothing is set.
    pub fn blank() -> (meta: ObjectMeta)
        ensures
            meta@ == ObjectMetaView::blank(),
    {
        ObjectMeta {
            name: None,
            generate_name: None,
            namespace: None,
            uid: None,
            resource_version: None,
            labels: None,
            annotations: None,
            owner_references: None,
            finalizers: None,
        }
    }
}

/// A Job's specification: how long it is kept once it has finished, and all
/// the rest.
///
/// What `rest` itself says of that time does not count.
pub struct JobPlan {
    pub ttl_seconds_after_finished: Option<i32>,
    pub rest: k8s_openapi::api::batch::v1::JobSpec,
}

/// What a CronJob makes its Jobs from.
pub struct JobTemplateSpec {
    pub metadata: Option<ObjectMeta>,
    pub spec: Option<JobPlan>,
}

/// [`JobTemplateSpec`] by its contents.
pub struct JobTemplateSpecView {
    pub metadata: Option<ObjectMetaView>,
    pub spec: Option<JobPlan>,
}

impl View for JobTemplateSpec {
    type V = JobTemplateSpecView;

    open spec fn view(&self) -> JobTemplateSpecView {
        JobTemplateSpecView {
            metadata: match self.metadata {
                Some(metadata) => Some(metadata@),
                None => None,
            },
            spec: self.spec,
        }
    }
}

/// A CronJob's specification, as far as a Job made from it needs it.
pub struct CronJobSpec {
    pub job_template: JobTemplateSpec,
}

/// A CronJob.
pub struct CronJob {
    pub metadata: ObjectMeta,
    pub spec: Option<CronJobSpec>,
}

/// [`CronJob`] by its contents.
pub struct CronJobView {
    pub metadata: ObjectMetaView,
    pub job_template: Option<JobTemplateSpecView>,
}

impl View for CronJob {
    type V = CronJobView;

    open spec fn view(&self) -> CronJobView {
        CronJobView {
            metadata: self.metadata@,
            job_template: match self.spec {
                Some(spec) => Some(spec.job_template@),
                None => None,
            },
        }
    }
}

/// One thing that is, or is not, the case with a Job.
pub struct JobCondition {
    pub type_: String,
    pub status: String,
}

/// [`JobCondition`] by its contents.
pub struct JobConditionView {
    pub type_: Seq<char>,
    pub status: Seq<char>,
}

impl View for JobCondition {
    type V = JobConditionView;

    open spec fn view(&self) -> JobConditionView {
        JobConditionView { type_: self.type_@, status: self.status@ }
    }
}

/// How a Job fares. The time of its completion is in seconds since the Unix
/// epoch.
pub struct JobStatus {
    pub completion_time: Option<i64>,
    pub conditions: Option<Vec<JobCondition>>,
}

/// [`JobStatus`] by its contents.
pub struct JobStatusView {
    pub completion_time: Option<i64>,
    pub conditions: Option<Seq<JobConditionView>>,
}

impl View for JobStatus {
    type V = JobStatusView;

    open spec fn view(&self) -> JobStatusView {
        JobStatusView {
            completion_time: self.completion_time,
            conditions: match self.conditions {
                Some(conditions) => Some(conditions@.map_values(|c: JobCondition| c@)),
                None => None,
            },
        }
    }
}

/// A Job.
pub struct Job {
    pub metadata: ObjectMeta,
    pub spec: Option<JobPlan>,
    pub status: Option<JobStatus>,
}

/// [`Job`] by its contents.
pub struct JobView {
    pub metadata: ObjectMetaView,
    pub spec: Option<JobPlan>,
    pub status: Option<JobStatusView>,
}

impl View for Job {
    type V = JobView;

    open spec fn view(&self) -> JobView {
        JobView {
            metadata: self.metadata@,
            spec: self.spec,
            status: match self.status {
                Some(status) => Some(status@),
                None => None,
            },
        }
    }
}

/// An owner reference is shown field by field.
pub proof fn law_owner_reference_is_shown(owner: OwnerReference)
    ensures
        owner@.api_version == owner.api_version@,
        owner@.kind == owner.kind@,
        owner@.name == owner.name@,
        owner@.uid == owner.uid@,
        owner@.controller == owner.controller,
        owner@.block_owner_deletion == owner.block_owner_deletion,
{
}

/// Metadata is shown field by field: each text by its characters, each map by
/// its entries, each list item by item.
pub proof fn law_metadata_is_shown(meta: ObjectMeta)
    ensures
        meta.name is None <==> meta@.name is None,
        meta.name matches Some(s) ==> meta@.name == Some(s@),
        meta.generate_name is None <==> meta@.generate_name is None,
        meta.generate_name matches Some(s) ==> meta@.generate_name == Some(s@),
        meta.namespace is None <==> meta@.namespace is None,
        meta.namespace matches Some(s) ==> meta@.namespace == Some(s@),
        meta.uid is None <==> meta@.uid is None,
        meta.uid matches Some(s) ==> meta@.uid == Some(s@),
        meta.resource_version is None <==> meta@.resource_version is None,
        meta.resource_version matches Some(s) ==> meta@.resource_version == Some(s@),
        meta.labels is None <==> meta@.labels is None,
        meta.labels matches Some(map) ==> meta@.labels == Some(map@),
        meta.annotations is None <==> meta@.annotations is None,
        meta.annotations matches Some(map) ==> meta@.annotations == Some(map@),
        meta.owner_references is None <==> meta@.owner_references is None,
        meta.owner_references matches Some(owners) ==> {
            &&& meta@.owner_references->0.len() == owners@.len()
            &&& forall|i: int|
                0 <= i < owners@.len() ==> #[trigger] meta@.owner_references->0[i] == owners@[i]@
        },
        meta.finalizers is None <==> meta@.finalizers is None,
        meta.finalizers matches Some(finalizers) ==> {
            &&& meta@.finalizers->0.len() == finalizers@.len()
            &&& forall|i: int|
                0 <= i < finalizers@.len() ==> #[trigger] meta@.finalizers->0[i] == finalizers@[i]@
        },
{
}

/// A CronJob is shown by its metadata and its template, and the template by
/// its own metadata and its specification.
pub proof fn law_cronjob_is_shown(cronjob: CronJob)
    ensures
        cronjob@.metadata == cronjob.metadata@,
        cronjob.spec is None <==> cronjob@.job_template is None,
        cronjob.spec matches Some(spec) ==> {
            let shown = cronjob@.job_template->0;
            &&& shown.spec == spec.job_template.spec
            &&& spec.job_template.metadata is None <==> shown.metadata is None
            &&& spec.job_template.metadata matches Some(metadata) ==> shown.metadata == Some(
                metadata@,
            )
        },
{
}

/// A Job is shown by its metadata, its specification and its status, and the
/// status by the time of completion and each of the conditions in its place.
pub proof fn law_job_is_shown(job: Job)
    ensures
        job@.metadata == job.metadata@,
        job@.spec == job.spec,
        job.status is None <==> job@.status is None,
        job.status matches Some(status) ==> {
            let shown = job@.status->0;
            &&& shown.completion_time == status.completion_time
            &&& status.conditions is None <==> shown.conditions is None
            &&& status.conditions matches Some(conditions) ==> {
                &&& shown.conditions->0.len() == conditions@.len()
                &&& forall|i: int|
                    #![trigger shown.conditions->0[i]]
                    0 <= i < conditions@.len() ==> shown.conditions->0[i].type_
                        == conditions@[i].type_@ && shown.conditions->0[i].status
                        == conditions@[i].status@
            }
        },
{
}

/// Metadata is blank iff every field of it is missing.
pub proof fn law_blank_metadata_says_nothing(meta: ObjectMeta)
    ensures
        meta@ == ObjectMetaView::blank() <==> {
            &&& meta.name is None
            &&& meta.generate_name is None
            &&& meta.namespace is None
            &&& meta.uid is None
            &&& meta.resource_version is None
            &&& meta.labels is None
            &&& meta.annotations is None
            &&& meta.owner_references is None
            &&& meta.finalizers is None
        },
{
    law_metadata_is_shown(meta);
}

} // verus!
