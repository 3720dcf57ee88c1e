//! One run of the trigger: fetch the CronJob, list the Jobs made from it
//! before, and create another unless one of those is still active.
//!
//! The calls to the cluster are made outside. [`create_job_from_cronjob`] says
//! which one comes next, given what the last one brought.

use vstd::prelude::*;

use crate::job::{self, BuildError, BuildErrorView};
use crate::naming;
use crate::objects::{CronJob, CronJobView, Job, JobView};

verus! {

/// What a run is to make a Job from, where, and how long the Job is kept once
/// it has finished, where the CronJob does not say.
pub struct TriggerTarget {
    pub namespace: String,
    pub cronjob_name: String,
    pub job_ttl_seconds: Option<i32>,
}

/// [`TriggerTarget`] by its contents.
pub struct TriggerTargetView {
    pub namespace: Seq<char>,
    pub cronjob_name: Seq<char>,
    pub job_ttl_seconds: Option<i32>,
}

impl View for TriggerTarget {
    type V = TriggerTargetView;

    open spec fn view(&self) -> TriggerTargetView {
        TriggerTargetView {
            namespace: self.namespace@,
            cronjob_name: self.cronjob_name@,
            job_ttl_seconds: self.job_ttl_seconds,
        }
    }
}

/// How a run ends when all goes well.
#[derive(Debug, Clone, PartialEq, Eq)]
pub enum TriggerOutcome {
    Created { job: String },
    /// An unfinished Job for this CronJob already exists: no other is created.
    Throttled { job: String },
}

/// [`TriggerOutcome`] by its contents.
pub enum TriggerOutcomeView {
    Created { job: Seq<char> },
    Throttled { job: Seq<char> },
}

impl View for TriggerOutcome {
    type V = TriggerOutcomeView;

    open spec fn view(&self) -> TriggerOutcomeView {
        match self {
            TriggerOutcome::Created { job } => TriggerOutcomeView::Created { job: job@ },
            TriggerOutcome::Throttled { job } => TriggerOutcomeView::Throttled { job: job@ },
        }
    }
}

/// Why a run failed. `cause` is what the cluster said.
pub enum TriggerError {
    FetchFailed { cronjob_name: String, cause: String },
    ListFailed { cronjob_name: String, cause: String },
    NotBuilt { error: BuildError },
    CreateFailed { job_name: String, cause: String },
}

/// [`TriggerError`] by its contents.
pub enum TriggerErrorView {
    FetchFailed { cronjob_name: Seq<char>, cause: Seq<char> },
    ListFailed { cronjob_name: Seq<char>, cause: Seq<char> },
    NotBuilt { error: BuildErrorView },
    CreateFailed { job_name: Seq<char>, cause: Seq<char> },
}

impl View for TriggerError {
    type V = TriggerErrorView;

    open spec fn view(&self) -> TriggerErrorView {
        match self {
            TriggerError::FetchFailed { cronjob_name, cause } => TriggerErrorView::FetchFailed {
                cronjob_name: cronjob_name@,
                cause: cause@,
            },
            TriggerError::ListFailed { cronjob_name, cause } => TriggerErrorView::ListFailed {
                cronjob_name: cronjob_name@,
                cause: cause@,
            },
            TriggerError::NotBuilt { error } => TriggerErrorView::NotBuilt { error: error@ },
            TriggerError::CreateFailed { job_name, cause } => TriggerErrorView::CreateFailed {
                job_name: job_name@,
                cause: cause@,
            },
        }
    }
}

impl TriggerErrorView {
    /// What failed, in words.
    pub open spec fn message(self) -> Seq<char> {
        match self {
            TriggerErrorView::FetchFailed { cronjob_name, .. } => "Failed to fetch CronJob '"@
                + cronjob_name + "'"@,
            TriggerErrorView::ListFailed { cronjob_name, .. } =>
            "Failed to list Jobs for CronJob '"@ + cronjob_name + "'"@,
            TriggerErrorView::NotBuilt { error } => error.message(),
            TriggerErrorView::CreateFailed { job_name, .. } => "Failed to create Job '"@ + job_name
                + "'"@,
        }
    }
}

impl TriggerError {
    /// What failed, in words.
    pub fn message(&self) -> (message: String)
        ensures
            message@ == self@.message(),
    {
        match self {
            TriggerError::FetchFailed { cronjob_name, .. } => "Failed to fetch CronJob '".to_owned()
                .concat(cronjob_name.as_str()).concat("'"),
            TriggerError::ListFailed { cronjob_name, .. } =>
            "Failed to list Jobs for CronJob '".to_owned().concat(cronjob_name.as_str()).concat("'"),
            TriggerError::NotBuilt { error } => error.message(),
            TriggerError::CreateFailed { job_name, .. } => "Failed to create Job '".to_owned().concat(
                job_name.as_str(),
            ).concat("'"),
        }
    }
}

/// What has happened: the run has begun, or a call to the cluster came back.
/// Beside the reply stands what the run has to know of the calls before.
pub enum TriggerEvent {
    Started,
    Fetched { fetched: Result<CronJob, String> },
    Listed { cronjob: CronJob, listed: Result<Vec<Job>, String> },
    Created { job_name: String, created: Result<Job, String> },
}

/// [`TriggerEvent`] by its contents.
pub enum TriggerEventView {
    Started,
    Fetched { fetched: Result<CronJobView, Seq<char>> },
    Listed { cronjob: CronJobView, listed: Result<Seq<JobView>, Seq<char>> },
    Created { job_name: Seq<char>, created: Result<JobView, Seq<char>> },
}

impl View for TriggerEvent {
    type V = TriggerEventView;

    open spec fn view(&self) -> TriggerEventView {
        match self {
            TriggerEvent::Started => TriggerEventView::Started,
            TriggerEvent::Fetched { fetched } => TriggerEventView::Fetched {
                fetched: match fetched {
                    Ok(cronjob) => Ok(cronjob@),
                    Err(cause) => Err(cause@),
                },
            },
            TriggerEvent::Listed { cronjob, listed } => TriggerEventView::Listed {
                cronjob: cronjob@,
                listed: match listed {
                    Ok(jobs) => Ok(job::job_views(jobs@)),
                    Err(cause) => Err(cause@),
                },
            },
            TriggerEvent::Created { job_name, created } => TriggerEventView::Created {
                job_name: job_name@,
                created: match created {
                    Ok(job) => Ok(job@),
                    Err(cause) => Err(cause@),
                },
            },
        }
    }
}

/// What to do next: make a call to the cluster, and come back with the reply
/// and what is handed out beside the call, or end the run.
pub enum TriggerAction {
    FetchCronJob { namespace: String, cronjob_name: String },
    ListJobs { namespace: String, label_selector: String, cronjob: CronJob },
    CreateJob { namespace: String, job_name: String, job: Job },
    Finish { result: Result<TriggerOutcome, TriggerError> },
}

/// [`TriggerAction`] by its contents.
pub enum TriggerActionView {
    FetchCronJob { namespace: Seq<char>, cronjob_name: Seq<char> },
    ListJobs { namespace: Seq<char>, label_selector: Seq<char>, cronjob: CronJobView },
    CreateJob { namespace: Seq<char>, job_name: Seq<char>, job: JobView },
    Finish { result: Result<TriggerOutcomeView, TriggerErrorView> },
}

/// The result of a run by its contents.
pub open spec fn result_view(result: Result<TriggerOutcome, TriggerError>) -> Result<
    TriggerOutcomeView,
    TriggerErrorView,
> {
    match result {
        Ok(outcome) => Ok(outcome@),
        Err(error) => Err(error@),
    }
}

impl View for TriggerAction {
    type V = TriggerActionView;

    open spec fn view(&self) -> TriggerActionView {
        match self {
            TriggerAction::FetchCronJob {
                namespace,
                cronjob_name,
            } => TriggerActionView::FetchCronJob {
                namespace: namespace@,
                cronjob_name: cronjob_name@,
            },
            TriggerAction::ListJobs {
                namespace,
                label_selector,
                cronjob,
            } => TriggerActionView::ListJobs {
                namespace: namespace@,
                label_selector: label_selector@,
                cronjob: cronjob@,
            },
            TriggerAction::CreateJob { namespace, job_name, job } => TriggerActionView::CreateJob {
                namespace: namespace@,
                job_name: job_name@,
                job: job@,
            },
            TriggerAction::Finish { result } => TriggerActionView::Finish {
                result: result_view(*result),
            },
        }
    }
}

/// The selector for the Jobs that the service made from a CronJob.
pub open spec fn selector_for(cronjob_name: Seq<char>) -> Seq<char> {
    job::CRONJOB_LABEL@ + "="@ + cronjob_name
}

/// The selector for the Jobs that the service made from a CronJob.
pub fn label_selector(cronjob_name: &str) -> (selector: String)
    ensures
        selector@ == selector_for(cronjob_name@),
{
    job::CRONJOB_LABEL.to_owned().concat("=").concat(cronjob_name)
}

/// A name, or the given one where it is missing.
pub open spec fn name_or(name: Option<Seq<char>>, other: Seq<char>) -> Seq<char> {
    match name {
        Some(name) => name,
        None => other,
    }
}

/// What is done with a CronJob none of whose Jobs is active: a Job of this name
/// is created from it, if it can be made.
pub open spec fn creation(
    target: TriggerTargetView,
    cronjob: CronJobView,
    job_name: Seq<char>,
) -> TriggerActionView {
    match job::job_from(cronjob, target.namespace, job_name, target.job_ttl_seconds) {
        Ok(job) => TriggerActionView::CreateJob { namespace: target.namespace, job_name, job },
        Err(error) => TriggerActionView::Finish {
            result: Err(TriggerErrorView::NotBuilt { error }),
        },
    }
}

/// What is done next in a run, where `fresh_name` is the name for a Job that is
/// to be created.
pub open spec fn next_action(
    target: TriggerTargetView,
    event: TriggerEventView,
    fresh_name: Seq<char>,
) -> TriggerActionView {
    match event {
        TriggerEventView::Started => TriggerActionView::FetchCronJob {
            namespace: target.namespace,
            cronjob_name: target.cronjob_name,
        },
        TriggerEventView::Fetched { fetched } => match fetched {
            Ok(cronjob) => TriggerActionView::ListJobs {
                namespace: target.namespace,
                label_selector: selector_for(target.cronjob_name),
                cronjob,
            },
            Err(cause) => TriggerActionView::Finish {
                result: Err(
                    TriggerErrorView::FetchFailed { cronjob_name: target.cronjob_name, cause },
                ),
            },
        },
        TriggerEventView::Listed { cronjob, listed } => match listed {
            Ok(jobs) => match job::first_active(jobs) {
                Some(active) => TriggerActionView::Finish {
                    result: Ok(
                        TriggerOutcomeView::Throttled {
                            job: name_or(active.metadata.name, "unknown"@),
                        },
                    ),
                },
                None => creation(target, cronjob, fresh_name),
            },
            Err(cause) => TriggerActionView::Finish {
                result: Err(
                    TriggerErrorView::ListFailed { cronjob_name: target.cronjob_name, cause },
                ),
            },
        },
        TriggerEventView::Created { job_name, created } => TriggerActionView::Finish {
            result: match created {
                Ok(job) => Ok(
                    TriggerOutcomeView::Created { job: name_or(job.metadata.name, job_name) },
                ),
                Err(cause) => Err(TriggerErrorView::CreateFailed { job_name, cause }),
            },
        },
    }
}

/// Whether the next action takes a name for a new Job: the Jobs were listed,
/// and none of them is active.
pub open spec fn wants_name(event: TriggerEventView) -> bool {
    event matches TriggerEventView::Listed { listed: Ok(jobs), .. } && job::first_active(
        jobs,
    ) is None
}

/// Whether the next action takes a name for a new Job.
pub fn needs_job_name(event: &TriggerEvent) -> (res: bool)
    ensures
        res == wants_name(event@),
{
    match event {
        TriggerEvent::Listed { listed: Ok(jobs), .. } => job::find_active(jobs).is_none(),
        _ => false,
    }
}

/// What is done next in a run, where `fresh_name` is the name for a Job that is
/// to be created.
pub fn next_action_with_name(
    target: &TriggerTarget,
    event: TriggerEvent,
    fresh_name: String,
) -> (action: TriggerAction)
    ensures
        action@ == next_action(target@, event@, fresh_name@),
{
    match event {
        TriggerEvent::Started => TriggerAction::FetchCronJob {
            namespace: target.namespace.clone(),
            cronjob_name: target.cronjob_name.clone(),
        },
        TriggerEvent::Fetched { fetched } => match fetched {
            Ok(cronjob) => TriggerAction::ListJobs {
                namespace: target.namespace.clone(),
                label_selector: label_selector(target.cronjob_name.as_str()),
                cronjob,
            },
            Err(cause) => TriggerAction::Finish {
                result: Err(
                    TriggerError::FetchFailed { cronjob_name: target.cronjob_name.clone(), cause },
                ),
            },
        },
        TriggerEvent::Listed { cronjob, listed } => match listed {
            Ok(jobs) => match job::find_active(&jobs) {
                Some(active) => {
                    let job = match &active.metadata.name {
                        Some(name) => name.clone(),
                        None => "unknown".to_owned(),
                    };
                    TriggerAction::Finish { result: Ok(TriggerOutcome::Throttled { job }) }
                },
                None => match job::build_job_from_cronjob(
                    &cronjob,
                    target.namespace.as_str(),
                    fresh_name.as_str(),
                    target.job_ttl_seconds,
                ) {
                    Ok(job) => TriggerAction::CreateJob {
                        namespace: target.namespace.clone(),
                        job_name: fresh_name,
                        job,
                    },
                    Err(error) => TriggerAction::Finish {
                        result: Err(TriggerError::NotBuilt { error }),
                    },
                },
            },
            Err(cause) => TriggerAction::Finish {
                result: Err(
                    TriggerError::ListFailed { cronjob_name: target.cronjob_name.clone(), cause },
                ),
            },
        },
        TriggerEvent::Created { job_name, created } => TriggerAction::Finish {
            result: match created {
                Ok(job) => Ok(
                    TriggerOutcome::Created {
                        job: match job.metadata.name {
                            Some(name) => name,
                            None => job_name,
                        },
                    },
                ),
                Err(cause) => Err(TriggerError::CreateFailed { job_name, cause }),
            },
        },
    }
}

/// What is done next in a run. A Job that is to be created gets a fresh name,
/// of which chance decides the last eight digits.
pub fn create_job_from_cronjob(target: &TriggerTarget, event: TriggerEvent) -> (action:
    TriggerAction)
    requires
        wants_name(event@) ==> naming::can_be_named(
            target.cronjob_name@,
            naming::SUFFIX_LEN as int,
        ),
    ensures
        wants_name(event@) ==> exists|name: Seq<char>| #[trigger]
            naming::is_unique_name_for(target.cronjob_name@, name) && action@ == next_action(
                target@,
                event@,
                name,
            ),
        !wants_name(event@) ==> forall|name: Seq<char>|
            action@ == #[trigger] next_action(target@, event@, name),
{
    let fresh_name = if needs_job_name(&event) {
        naming::unique_job_name(target.cronjob_name.as_str())
    } else {
        String::new()
    };
    next_action_with_name(target, event, fresh_name)
}

/// How a run ends, given what each call to the cluster would bring and the
/// name for a new Job.
pub open spec fn run_result(
    target: TriggerTargetView,
    fetched: Result<CronJobView, Seq<char>>,
    listed: Result<Seq<JobView>, Seq<char>>,
    created: Result<JobView, Seq<char>>,
    fresh_name: Seq<char>,
) -> Result<TriggerOutcomeView, TriggerErrorView> {
    after_fetch(
        target,
        next_action(target, TriggerEventView::Fetched { fetched }, fresh_name),
        listed,
        created,
        fresh_name,
    )
}

/// How a run ends from the action on that follows the fetching.
pub open spec fn after_fetch(
    target: TriggerTargetView,
    action: TriggerActionView,
    listed: Result<Seq<JobView>, Seq<char>>,
    created: Result<JobView, Seq<char>>,
    fresh_name: Seq<char>,
) -> Result<TriggerOutcomeView, TriggerErrorView> {
    match action {
        TriggerActionView::ListJobs { cronjob, .. } => after_list(
            target,
            next_action(target, TriggerEventView::Listed { cronjob, listed }, fresh_name),
            created,
            fresh_name,
        ),
        _ => action->result,
    }
}

/// How a run ends from the action on that follows the listing.
pub open spec fn after_list(
    target: TriggerTargetView,
    action: TriggerActionView,
    created: Result<JobView, Seq<char>>,
    fresh_name: Seq<char>,
) -> Result<TriggerOutcomeView, TriggerErrorView> {
    match action {
        TriggerActionView::CreateJob { job_name, .. } => next_action(
            target,
            TriggerEventView::Created { job_name, created },
            fresh_name,
        )->result,
        _ => action->result,
    }
}

/// A run makes at most three calls, in one order: it fetches, then lists, then
/// creates, and it may end after each of them.
pub proof fn law_run_ends_after_three_calls(
    target: TriggerTargetView,
    event: TriggerEventView,
    fresh_name: Seq<char>,
)
    ensures
        ({
            let action = next_action(target, event, fresh_name);
            match event {
                TriggerEventView::Started => action is FetchCronJob,
                TriggerEventView::Fetched { .. } => action is ListJobs || action is Finish,
                TriggerEventView::Listed { .. } => action is CreateJob || action is Finish,
                TriggerEventView::Created { .. } => action is Finish,
            }
        }),
{
}

/// A Job is created only after the listed Jobs were found to have finished,
/// every one of them.
pub proof fn law_no_creation_beside_an_active_job(
    target: TriggerTargetView,
    event: TriggerEventView,
    fresh_name: Seq<char>,
)
    requires
        next_action(target, event, fresh_name) is CreateJob,
    ensures
        event matches TriggerEventView::Listed { listed: Ok(jobs), .. } && forall|i: int|
            0 <= i < jobs.len() ==> !job::is_active(#[trigger] jobs[i]),
{
    if let TriggerEventView::Listed { listed: Ok(jobs), .. } = event {
        job::law_first_active_is_found(jobs);
    }
}

/// While a listed Job is active the run is throttled: it creates nothing, and
/// names a Job of the list that is active.
pub proof fn law_active_job_throttles(
    target: TriggerTargetView,
    cronjob: CronJobView,
    jobs: Seq<JobView>,
    created: Result<JobView, Seq<char>>,
    fresh_name: Seq<char>,
    i: int,
)
    requires
        0 <= i < jobs.len(),
        job::is_active(jobs[i]),
    ensures
        next_action(
            target,
            TriggerEventView::Listed { cronjob, listed: Ok(jobs) },
            fresh_name,
        ) is Finish,
        exists|k: int|
            0 <= k < jobs.len() && job::is_active(#[trigger] jobs[k]) && run_result(
                target,
                Ok(cronjob),
                Ok(jobs),
                created,
                fresh_name,
            ) == Ok::<TriggerOutcomeView, TriggerErrorView>(
                TriggerOutcomeView::Throttled { job: name_or(jobs[k].metadata.name, "unknown"@) },
            ),
{
    job::law_first_active_is_found(jobs);
    let active = job::first_active(jobs)->0;
    let k = jobs.index_of(active);
    assert(jobs[k] == active);
}

/// Where no listed Job is active and a Job can be made from the CronJob, that
/// Job is created under the fresh name, and the run ends with the name that the
/// cluster gives the Job, or with the fresh one where it gives none.
pub proof fn law_idle_cronjob_gets_a_job(
    target: TriggerTargetView,
    cronjob: CronJobView,
    jobs: Seq<JobView>,
    created: JobView,
    fresh_name: Seq<char>,
)
    requires
        forall|i: int| 0 <= i < jobs.len() ==> !job::is_active(#[trigger] jobs[i]),
        job::job_from(cronjob, target.namespace, fresh_name, target.job_ttl_seconds) is Ok,
    ensures
        next_action(
            target,
            TriggerEventView::Listed { cronjob, listed: Ok(jobs) },
            fresh_name,
        ) == (TriggerActionView::CreateJob {
            namespace: target.namespace,
            job_name: fresh_name,
            job: job::job_from(
                cronjob,
                target.namespace,
                fresh_name,
                target.job_ttl_seconds,
            )->Ok_0,
        }),
        run_result(target, Ok(cronjob), Ok(jobs), Ok(created), fresh_name) == Ok::<
            TriggerOutcomeView,
            TriggerErrorView,
        >(TriggerOutcomeView::Created { job: name_or(created.metadata.name, fresh_name) }),
{
    job::law_first_active_is_found(jobs);
}

/// The first call that fails ends the run, and the error says which one it was
/// and what the cluster said; so does a CronJob that no Job can be made from.
/// In all other cases the run ends well.
pub proof fn law_failures_are_reported(
    target: TriggerTargetView,
    fetched: Result<CronJobView, Seq<char>>,
    listed: Result<Seq<JobView>, Seq<char>>,
    created: Result<JobView, Seq<char>>,
    fresh_name: Seq<char>,
)
    ensures
        ({
            let result = run_result(target, fetched, listed, created, fresh_name);
            let cronjob_name = target.cronjob_name;
            if let Err(cause) = fetched {
                result == Err::<TriggerOutcomeView, TriggerErrorView>(
                    TriggerErrorView::FetchFailed { cronjob_name, cause },
                )
            } else if let Err(cause) = listed {
                result == Err::<TriggerOutcomeView, TriggerErrorView>(
                    TriggerErrorView::ListFailed { cronjob_name, cause },
                )
            } else if job::first_active(listed->Ok_0) is Some {
                result is Ok
            } else if let Err(error) = job::job_from(
                fetched->Ok_0,
                target.namespace,
                fresh_name,
                target.job_ttl_seconds,
            ) {
                result == Err::<TriggerOutcomeView, TriggerErrorView>(
                    TriggerErrorView::NotBuilt { error },
                )
            } else if let Err(cause) = created {
                result == Err::<TriggerOutcomeView, TriggerErrorView>(
                    TriggerErrorView::CreateFailed { job_name: fresh_name, cause },
                )
            } else {
                result is Ok
            }
        }),
{
}

/// Whether a Job meets a selector of the form `key=value`: it has a label of
/// that key with that value.
pub open spec fn selects(selector: Seq<char>, job: JobView) -> bool {
    exists|key: Seq<char>, value: Seq<char>| #[trigger]
        is_selector_for(selector, key, value) && has_label(job, key, value)
}

/// Whether a selector asks for this value under this key. A key holds no `=`.
pub open spec fn is_selector_for(selector: Seq<char>, key: Seq<char>, value: Seq<char>) -> bool {
    selector == key + "="@ + value && !key.contains('=')
}

/// Whether a Job has this value under this key among its labels.
pub open spec fn has_label(job: JobView, key: Seq<char>, value: Seq<char>) -> bool {
    job.metadata.labels matches Some(labels) && labels.contains_key(key) && labels[key] == value
}

/// What a listing gives of the Jobs that the cluster holds: those of the
/// namespace that meet the selector.
pub open spec fn listing(
    cluster: Seq<JobView>,
    namespace: Seq<char>,
    selector: Seq<char>,
) -> Seq<JobView> {
    cluster.filter(|job: JobView| job.metadata.namespace == Some(namespace) && selects(selector, job))
}

/// A text divides at its first `=` in one way only.
proof fn lemma_selector_divides_once(
    selector: Seq<char>,
    key: Seq<char>,
    value: Seq<char>,
    other_key: Seq<char>,
    other_value: Seq<char>,
)
    requires
        is_selector_for(selector, key, value),
        is_selector_for(selector, other_key, other_value),
    ensures
        key == other_key,
        value == other_value,
{
    reveal_strlit("=");
    if key.len() < other_key.len() {
        assert(selector[key.len() as int] == '=');
        assert(other_key[key.len() as int] == '=');
    } else if other_key.len() < key.len() {
        assert(selector[other_key.len() as int] == '=');
        assert(key[other_key.len() as int] == '=');
    }
    assert(key =~= selector.take(key.len() as int));
    assert(other_key =~= selector.take(key.len() as int));
    assert(value =~= selector.skip(key.len() as int + 1));
    assert(other_value =~= selector.skip(key.len() as int + 1));
}

/// The service's selector picks the Jobs that bear its label with the CronJob's
/// name, and no others.
pub proof fn law_selector_picks_by_label(cronjob_name: Seq<char>, job: JobView)
    ensures
        selects(selector_for(cronjob_name), job) <==> has_label(
            job,
            job::CRONJOB_LABEL@,
            cronjob_name,
        ),
{
    let selector = selector_for(cronjob_name);
    reveal_strlit("renovate-k8s-trigger/cronjob");
    assert(is_selector_for(selector, job::CRONJOB_LABEL@, cronjob_name));
    if selects(selector, job) {
        let (key, value) = choose|key: Seq<char>, value: Seq<char>| #[trigger]
            is_selector_for(selector, key, value) && has_label(job, key, value);
        lemma_selector_divides_once(selector, key, value, job::CRONJOB_LABEL@, cronjob_name);
    }
}

/// The Job that a run creates is one of those that the next run looks for, where
/// the CronJob that was fetched is the one that was asked for.
pub proof fn law_created_job_is_selected(
    target: TriggerTargetView,
    cronjob: CronJobView,
    fresh_name: Seq<char>,
)
    requires
        cronjob.metadata.name == Some(target.cronjob_name),
    ensures
        job::job_from(
            cronjob,
            target.namespace,
            fresh_name,
            target.job_ttl_seconds,
        ) matches Ok(job) ==> {
            &&& job.metadata.namespace == Some(target.namespace)
            &&& selects(selector_for(target.cronjob_name), job)
        },
{
    if let Ok(job) = job::job_from(
        cronjob,
        target.namespace,
        fresh_name,
        target.job_ttl_seconds,
    ) {
        law_selector_picks_by_label(target.cronjob_name, job);
    }
}

/// What a run submits to the cluster, and in which namespace, when it goes
/// through: the CronJob is fetched, and what is handed out with the listing
/// comes back with the Jobs that were listed.
pub open spec fn submission(
    target: TriggerTargetView,
    fetched: CronJobView,
    listed: Seq<JobView>,
    fresh_name: Seq<char>,
) -> Option<(Seq<char>, JobView)> {
    match next_action(target, TriggerEventView::Fetched { fetched: Ok(fetched) }, fresh_name) {
        TriggerActionView::ListJobs { cronjob, .. } => match next_action(
            target,
            TriggerEventView::Listed { cronjob, listed: Ok(listed) },
            fresh_name,
        ) {
            TriggerActionView::CreateJob { namespace, job, .. } => Some((namespace, job)),
            _ => None,
        },
        _ => None,
    }
}

/// What a run finds in the cluster: the Jobs that its own listing asks for, by
/// the namespace and the selector of that action.
pub open spec fn found_in(
    cluster: Seq<JobView>,
    target: TriggerTargetView,
    fetched: CronJobView,
    fresh_name: Seq<char>,
) -> Seq<JobView> {
    match next_action(target, TriggerEventView::Fetched { fetched: Ok(fetched) }, fresh_name) {
        TriggerActionView::ListJobs { namespace, label_selector, .. } => listing(
            cluster,
            namespace,
            label_selector,
        ),
        _ => Seq::empty(),
    }
}

/// A run begins by fetching the CronJob it is for, where that lives.
pub proof fn law_run_fetches_its_cronjob(target: TriggerTargetView, fresh_name: Seq<char>)
    ensures
        match next_action(target, TriggerEventView::Started, fresh_name) {
            TriggerActionView::FetchCronJob { namespace, cronjob_name } => namespace
                == target.namespace && cronjob_name == target.cronjob_name,
            _ => false,
        },
{
}

/// Once the CronJob is there, whatever it says, the run lists the Jobs of its
/// own namespace by a selector that picks a Job iff the Job bears the service's
/// label with the name of the CronJob that the run is for; and it hands the
/// fetched CronJob on as it is.
pub proof fn law_run_lists_the_jobs_of_its_cronjob(
    target: TriggerTargetView,
    fetched: CronJobView,
    fresh_name: Seq<char>,
    job: JobView,
)
    ensures
        match next_action(target, TriggerEventView::Fetched { fetched: Ok(fetched) }, fresh_name) {
            TriggerActionView::ListJobs { namespace, label_selector, cronjob } => {
                &&& namespace == target.namespace
                &&& label_selector == "renovate-k8s-trigger/cronjob"@ + "="@ + target.cronjob_name
                &&& selects(label_selector, job) <==> {
                    &&& job.metadata.labels matches Some(labels)
                    &&& labels.contains_key("renovate-k8s-trigger/cronjob"@)
                    &&& labels["renovate-k8s-trigger/cronjob"@] == target.cronjob_name
                }
                &&& cronjob == fetched
            },
            _ => false,
        },
{
    law_selector_picks_by_label(target.cronjob_name, job);
}

/// A run that finds no active Job submits the Job that is made from the very
/// CronJob it fetched, under the fresh name and in its namespace, with all the
/// labels and annotations of that CronJob's template; where no Job can be made
/// it says why.
pub proof fn law_run_submits_the_job_of_its_cronjob(
    target: TriggerTargetView,
    fetched: CronJobView,
    listed: Seq<JobView>,
    fresh_name: Seq<char>,
)
    requires
        forall|i: int| 0 <= i < listed.len() ==> !job::is_active(#[trigger] listed[i]),
    ensures
        match next_action(target, TriggerEventView::Fetched { fetched: Ok(fetched) }, fresh_name) {
            TriggerActionView::ListJobs { cronjob, .. } => {
                let next = next_action(
                    target,
                    TriggerEventView::Listed { cronjob, listed: Ok(listed) },
                    fresh_name,
                );
                match job::job_from(
                    fetched,
                    target.namespace,
                    fresh_name,
                    target.job_ttl_seconds,
                ) {
                    Ok(job) => next == (TriggerActionView::CreateJob {
                        namespace: target.namespace,
                        job_name: fresh_name,
                        job,
                    }),
                    Err(error) => next == (TriggerActionView::Finish {
                        result: Err(TriggerErrorView::NotBuilt { error }),
                    }),
                }
            },
            _ => false,
        },
        submission(target, fetched, listed, fresh_name) matches Some((namespace, job)) ==> {
            &&& namespace == target.namespace
            &&& job.metadata.name == Some(fresh_name)
            &&& job.metadata.namespace == Some(target.namespace)
            &&& fetched.job_template->0.metadata matches Some(metadata) ==> {
                &&& metadata.labels matches Some(labels) ==> forall|key: Seq<char>|
                    labels.contains_key(key) && key != "renovate-k8s-trigger/cronjob"@
                        ==> #[trigger] job.metadata.labels->0.contains_key(key)
                        && job.metadata.labels->0[key] == labels[key]
                &&& metadata.annotations matches Some(annotations) ==> forall|key: Seq<char>|
                    annotations.contains_key(key) && key != "cronjob.kubernetes.io/instantiate"@
                        ==> #[trigger] job.metadata.annotations->0.contains_key(key)
                        && job.metadata.annotations->0[key] == annotations[key]
            }
        },
{
    job::law_first_active_is_found(listed);
    job::law_built_job_in_full(fetched, target.namespace, fresh_name, target.job_ttl_seconds);
}

/// Where a listed Job is active, the run ends throttled by the first such Job,
/// under the name that the cluster lists it by, or `unknown` where it has none.
pub proof fn law_first_active_job_is_named(
    target: TriggerTargetView,
    cronjob: CronJobView,
    listed: Seq<JobView>,
    fresh_name: Seq<char>,
    k: int,
)
    requires
        0 <= k < listed.len(),
        job::is_active(listed[k]),
        forall|i: int| 0 <= i < k ==> !job::is_active(#[trigger] listed[i]),
    ensures
        next_action(
            target,
            TriggerEventView::Listed { cronjob, listed: Ok(listed) },
            fresh_name,
        ) == (TriggerActionView::Finish {
            result: Ok(
                TriggerOutcomeView::Throttled {
                    job: match listed[k].metadata.name {
                        Some(name) => name,
                        None => "unknown"@,
                    },
                },
            ),
        }),
{
    job::law_first_active_comes_first(listed, k);
}

/// Once the cluster has answered the creation the run ends: with the name that
/// the cluster gives the Job, with the name asked for where it gives none, and
/// with what the cluster said where it refused.
pub proof fn law_run_ends_with_the_created_job(
    target: TriggerTargetView,
    job_name: Seq<char>,
    created: Result<JobView, Seq<char>>,
    fresh_name: Seq<char>,
)
    ensures
        next_action(target, TriggerEventView::Created { job_name, created }, fresh_name) == (
        TriggerActionView::Finish {
            result: match created {
                Ok(job) => Ok(
                    TriggerOutcomeView::Created {
                        job: match job.metadata.name {
                            Some(name) => name,
                            None => job_name,
                        },
                    },
                ),
                Err(cause) => Err(TriggerErrorView::CreateFailed { job_name, cause }),
            },
        }),
{
}

/// A fetching or a listing that fails ends the run, with the CronJob's name and
/// what the cluster said.
pub proof fn law_failed_reads_end_the_run(
    target: TriggerTargetView,
    cronjob: CronJobView,
    cause: Seq<char>,
    fresh_name: Seq<char>,
)
    ensures
        next_action(target, TriggerEventView::Fetched { fetched: Err(cause) }, fresh_name) == (
        TriggerActionView::Finish {
            result: Err(
                TriggerErrorView::FetchFailed { cronjob_name: target.cronjob_name, cause },
            ),
        }),
        next_action(
            target,
            TriggerEventView::Listed { cronjob, listed: Err(cause) },
            fresh_name,
        ) == (TriggerActionView::Finish {
            result: Err(TriggerErrorView::ListFailed { cronjob_name: target.cronjob_name, cause }),
        }),
{
}

/// A name for a new Job is asked for iff the Jobs were listed and none of them
/// is active.
pub proof fn law_when_a_name_is_wanted(event: TriggerEventView)
    ensures
        wants_name(event) <==> match event {
            TriggerEventView::Listed { listed: Ok(jobs), .. } => forall|i: int|
                0 <= i < jobs.len() ==> !job::is_active(#[trigger] jobs[i]),
            _ => false,
        },
{
    if let TriggerEventView::Listed { listed: Ok(jobs), .. } = event {
        job::law_first_active_is_found(jobs);
    }
}

/// While the Job of an earlier run is stored and unfinished, a later run is
/// throttled and creates nothing. The Job is stored under the name that the
/// earlier run ended with, in the namespace that it was submitted to and with
/// the labels that it was submitted with; all else of it may have changed. The
/// cluster may hold any other Jobs, and the later run finds among them those
/// that its own listing asks for. Where no other of these is unfinished, the
/// later run names this one.
pub proof fn law_stored_job_throttles_later_runs(
    target: TriggerTargetView,
    fetched: CronJobView,
    listed: Seq<JobView>,
    created: Result<JobView, Seq<char>>,
    first_name: Seq<char>,
    job_name: Seq<char>,
    stored: JobView,
    cluster: Seq<JobView>,
    later_fetched: CronJobView,
    later_created: Result<JobView, Seq<char>>,
    fresh_name: Seq<char>,
)
    requires
        fetched.metadata.name == Some(target.cronjob_name),
        run_result(target, Ok(fetched), Ok(listed), created, first_name) == Ok::<
            TriggerOutcomeView,
            TriggerErrorView,
        >(TriggerOutcomeView::Created { job: job_name }),
        submission(target, fetched, listed, first_name) matches Some((namespace, submitted)) ==> {
            &&& stored.metadata.namespace == Some(namespace)
            &&& stored.metadata.labels == submitted.metadata.labels
        },
        stored.metadata.name == Some(job_name),
        job::is_active(stored),
        cluster.contains(stored),
    ensures
        submission(target, fetched, listed, first_name) is Some,
        ({
            let jobs = found_in(cluster, target, later_fetched, fresh_name);
            let result = run_result(
                target,
                Ok(later_fetched),
                Ok(jobs),
                later_created,
                fresh_name,
            );
            &&& jobs.contains(stored)
            &&& next_action(
                target,
                TriggerEventView::Listed { cronjob: later_fetched, listed: Ok(jobs) },
                fresh_name,
            ) is Finish
            &&& submission(target, later_fetched, jobs, fresh_name) is None
            &&& result matches Ok(TriggerOutcomeView::Throttled { .. })
            &&& (forall|i: int|
                0 <= i < jobs.len() && job::is_active(#[trigger] jobs[i]) ==> jobs[i] == stored)
                ==> result == Ok::<TriggerOutcomeView, TriggerErrorView>(
                TriggerOutcomeView::Throttled { job: job_name },
            )
        }),
{
    broadcast use vstd::seq_lib::group_filter_ensures;

    let selector = selector_for(target.cronjob_name);
    let jobs = found_in(cluster, target, later_fetched, fresh_name);
    let pick = |job: JobView|
        job.metadata.namespace == Some(target.namespace) && selects(selector, job);
    law_selector_picks_by_label(target.cronjob_name, stored);
    assert(pick(stored));
    let at = cluster.index_of(stored);
    assert(pick(cluster[at]));
    assert(jobs == cluster.filter(pick));
    assert(jobs.contains(stored));
    let k = jobs.index_of(stored);
    assert(job::is_active(jobs[k]));
    job::law_first_active_is_found(jobs);
    let active = job::first_active(jobs)->0;
    let m = jobs.index_of(active);
    assert(jobs[m] == active);
}

/// A second run that finds the Job of the first one, just as it was created, is
/// throttled by it.
pub proof fn law_second_run_is_throttled(
    target: TriggerTargetView,
    cronjob: CronJobView,
    first_name: Seq<char>,
    created: Result<JobView, Seq<char>>,
    fresh_name: Seq<char>,
)
    requires
        job::job_from(cronjob, target.namespace, first_name, target.job_ttl_seconds) is Ok,
    ensures
        ({
            let first = job::job_from(
                cronjob,
                target.namespace,
                first_name,
                target.job_ttl_seconds,
            )->Ok_0;
            run_result(target, Ok(cronjob), Ok(seq![first]), created, fresh_name) == Ok::<
                TriggerOutcomeView,
                TriggerErrorView,
            >(TriggerOutcomeView::Throttled { job: first_name })
        }),
{
    job::law_new_job_is_active(cronjob, target.namespace, first_name, target.job_ttl_seconds);
}

/// What a run is for, and how it ends, is shown as it is.
pub proof fn law_target_and_outcome_are_shown(target: TriggerTarget, outcome: TriggerOutcome)
    ensures
        target@.namespace == target.namespace@,
        target@.cronjob_name == target.cronjob_name@,
        target@.job_ttl_seconds == target.job_ttl_seconds,
        match outcome {
            TriggerOutcome::Created { job } => outcome@ == (TriggerOutcomeView::Created {
                job: job@,
            }),
            TriggerOutcome::Throttled { job } => outcome@ == (TriggerOutcomeView::Throttled {
                job: job@,
            }),
        },
{
}

/// An error is shown as it is, with the cause, and its words say what failed
/// and for which object.
pub proof fn law_run_errors_in_words(error: TriggerError)
    ensures
        match error {
            TriggerError::FetchFailed { cronjob_name, cause } => {
                &&& error@ == (TriggerErrorView::FetchFailed {
                    cronjob_name: cronjob_name@,
                    cause: cause@,
                })
                &&& error@.message() == "Failed to fetch CronJob '"@ + cronjob_name@ + "'"@
            },
            TriggerError::ListFailed { cronjob_name, cause } => {
                &&& error@ == (TriggerErrorView::ListFailed {
                    cronjob_name: cronjob_name@,
                    cause: cause@,
                })
                &&& error@.message() == "Failed to list Jobs for CronJob '"@ + cronjob_name@ + "'"@
            },
            TriggerError::NotBuilt { error: inner } => {
                &&& error@ == (TriggerErrorView::NotBuilt { error: inner@ })
                &&& error@.message() == inner@.message()
            },
            TriggerError::CreateFailed { job_name, cause } => {
                &&& error@ == (TriggerErrorView::CreateFailed {
                    job_name: job_name@,
                    cause: cause@,
                })
                &&& error@.message() == "Failed to create Job '"@ + job_name@ + "'"@
            },
        },
{
}

/// What has happened is shown as it is: each reply by its object, or by what
/// the cluster said.
pub proof fn law_event_is_shown(event: TriggerEvent)
    ensures
        match event {
            TriggerEvent::Started => event@ is Started,
            TriggerEvent::Fetched { fetched } => match fetched {
                Ok(cronjob) => event@ == (TriggerEventView::Fetched { fetched: Ok(cronjob@) }),
                Err(cause) => event@ == (TriggerEventView::Fetched { fetched: Err(cause@) }),
            },
            TriggerEvent::Listed { cronjob, listed } => match listed {
                Ok(jobs) => {
                    &&& event@ == (TriggerEventView::Listed {
                        cronjob: cronjob@,
                        listed: Ok(job::job_views(jobs@)),
                    })
                    &&& job::job_views(jobs@).len() == jobs@.len()
                    &&& forall|i: int|
                        0 <= i < jobs@.len() ==> #[trigger] job::job_views(jobs@)[i] == jobs@[i]@
                },
                Err(cause) => event@ == (TriggerEventView::Listed {
                    cronjob: cronjob@,
                    listed: Err(cause@),
                }),
            },
            TriggerEvent::Created { job_name, created } => match created {
                Ok(job) => event@ == (TriggerEventView::Created {
                    job_name: job_name@,
                    created: Ok(job@),
                }),
                Err(cause) => event@ == (TriggerEventView::Created {
                    job_name: job_name@,
                    created: Err(cause@),
                }),
            },
        },
{
}

/// What is to be done is shown as it is.
pub proof fn law_action_is_shown(action: TriggerAction)
    ensures
        match action {
            TriggerAction::FetchCronJob { namespace, cronjob_name } => action@ == (
            TriggerActionView::FetchCronJob {
                namespace: namespace@,
                cronjob_name: cronjob_name@,
            }),
            TriggerAction::ListJobs { namespace, label_selector, cronjob } => action@ == (
            TriggerActionView::ListJobs {
                namespace: namespace@,
                label_selector: label_selector@,
                cronjob: cronjob@,
            }),
            TriggerAction::CreateJob { namespace, job_name, job } => action@ == (
            TriggerActionView::CreateJob {
                namespace: namespace@,
                job_name: job_name@,
                job: job@,
            }),
            TriggerAction::Finish { result } => match result {
                Ok(outcome) => action@ == (TriggerActionView::Finish { result: Ok(outcome@) }),
                Err(error) => action@ == (TriggerActionView::Finish { result: Err(error@) }),
            },
        },
{
}

} // verus!
