//! How each request is answered.

use actix_web::http::header::HeaderMap;
use vstd::prelude::*;

use crate::auth;
use crate::objects::{CronJobView, JobView};
use crate::reply::{Reply, ReplyView, Status};
use crate::text_map::TextMap;
use crate::run::{self, TriggerErrorView, TriggerOutcome, TriggerOutcomeView, TriggerTargetView};

verus! {

/// What the service knows while it runs: the secret, and which CronJob to
/// trigger where.
pub struct AppState {
    pub api_secret: String,
    pub cronjob_name: String,
    pub namespace: String,
}

/// [`AppState`] by its contents.
pub struct AppStateView {
    pub api_secret: Seq<char>,
    pub cronjob_name: Seq<char>,
    pub namespace: Seq<char>,
}

impl View for AppState {
    type V = AppStateView;

    open spec fn view(&self) -> AppStateView {
        AppStateView {
            api_secret: self.api_secret@,
            cronjob_name: self.cronjob_name@,
            namespace: self.namespace@,
        }
    }
}

/// What is done with a request to trigger: it is answered at once, or the
/// CronJob is triggered and the answer waits for what comes of that.
pub enum TriggerStep {
    Answer { reply: Reply },
    Trigger { namespace: String, cronjob_name: String },
}

/// [`TriggerStep`] by its contents.
pub enum TriggerStepView {
    Answer { reply: ReplyView },
    Trigger { namespace: Seq<char>, cronjob_name: Seq<char> },
}

impl View for TriggerStep {
    type V = TriggerStepView;

    open spec fn view(&self) -> TriggerStepView {
        match self {
            TriggerStep::Answer { reply } => TriggerStepView::Answer { reply: reply@ },
            TriggerStep::Trigger { namespace, cronjob_name } => TriggerStepView::Trigger {
                namespace: namespace@,
                cronjob_name: cronjob_name@,
            },
        }
    }
}

/// The answer to a request without the secret.
pub open spec fn unauthorized() -> ReplyView {
    ReplyView {
        status: Status::Unauthorized,
        body: map!["error"@ => "Unauthorized"@, "message"@ => "Invalid or missing API token"@],
    }
}

/// What is done with a request to trigger.
pub open spec fn first_step(admitted: bool, state: AppStateView) -> TriggerStepView {
    if admitted {
        TriggerStepView::Trigger { namespace: state.namespace, cronjob_name: state.cronjob_name }
    } else {
        TriggerStepView::Answer { reply: unauthorized() }
    }
}

/// What is done with a request to trigger, once it is known whether it carries
/// the secret.
pub fn step_for(admitted: bool, state: &AppState) -> (step: TriggerStep)
    ensures
        step@ == first_step(admitted, state@),
{
    if !admitted {
        let body = TextMap::new().insert("error".to_owned(), "Unauthorized".to_owned()).insert(
            "message".to_owned(),
            "Invalid or missing API token".to_owned(),
        );
        return TriggerStep::Answer { reply: Reply { status: Status::Unauthorized, body } };
    }
    TriggerStep::Trigger {
        namespace: state.namespace.clone(),
        cronjob_name: state.cronjob_name.clone(),
    }
}

/// What is done with a request to trigger.
pub fn trigger_handler(headers: &HeaderMap, state: &AppState) -> (step: TriggerStep)
    ensures
        step@ == first_step(auth::admits(*headers, state.api_secret@), state@),
{
    step_for(auth::authenticate(headers, state.api_secret.as_str()), state)
}

/// The answer to an admitted request, by what came of the trigger. Of an error
/// it says only that there was one.
pub open spec fn answer_to<E>(result: Result<TriggerOutcomeView, E>) -> ReplyView {
    match result {
        Ok(TriggerOutcomeView::Created { job }) => ReplyView {
            status: Status::Success,
            body: map!["status"@ => "ok"@, "job"@ => job],
        },
        Ok(TriggerOutcomeView::Throttled { job }) => ReplyView {
            status: Status::Conflict,
            body: map![
                "status"@ => "throttled"@,
                "job"@ => job,
                "message"@ => "An active job for this CronJob already exists"@,
            ],
        },
        Err(_) => ReplyView {
            status: Status::InternalServerError,
            body: map![
                "error"@ => "Internal Server Error"@,
                "message"@ => "Failed to create job"@,
            ],
        },
    }
}

/// An outcome, or an error, with the outcome by its contents.
pub open spec fn outcome_view<E>(result: Result<TriggerOutcome, E>) -> Result<
    TriggerOutcomeView,
    E,
> {
    match result {
        Ok(outcome) => Ok(outcome@),
        Err(error) => Err(error),
    }
}

/// Answers an admitted request, once the trigger has ended.
///
/// The error is for the log alone.
pub fn trigger_reply<E>(result: Result<TriggerOutcome, E>) -> (reply: Reply)
    ensures
        reply@ == answer_to(outcome_view(result)),
{
    match result {
        Ok(TriggerOutcome::Created { job }) => Reply {
            status: Status::Success,
            body: TextMap::new().insert("status".to_owned(), "ok".to_owned()).insert(
                "job".to_owned(),
                job,
            ),
        },
        Ok(TriggerOutcome::Throttled { job }) => Reply {
            status: Status::Conflict,
            body: TextMap::new().insert("status".to_owned(), "throttled".to_owned()).insert(
                "job".to_owned(),
                job,
            ).insert(
                "message".to_owned(),
                "An active job for this CronJob already exists".to_owned(),
            ),
        },
        Err(_) => Reply {
            status: Status::InternalServerError,
            body: TextMap::new().insert(
                "error".to_owned(),
                "Internal Server Error".to_owned(),
            ).insert("message".to_owned(), "Failed to create job".to_owned()),
        },
    }
}

/// Answers whether the service is up.
pub fn health_handler() -> (reply: Reply)
    ensures
        reply@ == (ReplyView { status: Status::Success, body: map!["status"@ => "ok"@] }),
        reply.status == Status::Success,
        reply.body@ == map!["status"@ => "ok"@],
{
    Reply {
        status: Status::Success,
        body: TextMap::new().insert("status".to_owned(), "ok".to_owned()),
    }
}

/// Answers a request for a path that the service does not serve.
pub fn not_found_handler(path: &str) -> (reply: Reply)
    ensures
        reply@ == (ReplyView {
            status: Status::NotFound,
            body: map![
                "error"@ => "Not Found"@,
                "message"@ => "Path '"@ + path@ + "' not found"@,
            ],
        }),
        reply.status == Status::NotFound,
        reply.body@ == map![
            "error"@ => "Not Found"@,
            "message"@ => "Path '"@ + path@ + "' not found"@,
        ],
{
    Reply {
        status: Status::NotFound,
        body: TextMap::new().insert("error".to_owned(), "Not Found".to_owned()).insert(
            "message".to_owned(),
            "Path '".to_owned().concat(path).concat("' not found"),
        ),
    }
}

/// The method of a request.
#[derive(Clone, Copy, Debug, PartialEq, Eq, Structural)]
pub enum Method {
    Get,
    Post,
    Put,
}

/// What answers a request.
#[derive(Clone, Copy, Debug, PartialEq, Eq, Structural)]
pub enum Endpoint {
    Health,
    Trigger,
}

/// Which requests an endpoint answers.
pub struct Route {
    pub method: Method,
    pub path: &'static str,
    pub endpoint: Endpoint,
}

/// [`Route`] by its contents.
pub struct RouteView {
    pub method: Method,
    pub path: Seq<char>,
    pub endpoint: Endpoint,
}

impl View for Route {
    type V = RouteView;

    open spec fn view(&self) -> RouteView {
        RouteView { method: self.method, path: self.path@, endpoint: self.endpoint }
    }
}

/// The requests that the service serves: `/trigger` by three methods, `/health`
/// by one. Every other request is for [`not_found_handler`].
pub open spec fn served() -> Seq<RouteView> {
    seq![
        RouteView { method: Method::Get, path: "/health"@, endpoint: Endpoint::Health },
        RouteView { method: Method::Get, path: "/trigger"@, endpoint: Endpoint::Trigger },
        RouteView { method: Method::Post, path: "/trigger"@, endpoint: Endpoint::Trigger },
        RouteView { method: Method::Put, path: "/trigger"@, endpoint: Endpoint::Trigger },
    ]
}

/// The requests that the service serves.
pub fn routes() -> (routes: Vec<Route>)
    ensures
        routes@.map_values(|route: Route| route@) == served(),
{
    let mut routes: Vec<Route> = Vec::new();
    routes.push(Route { method: Method::Get, path: "/health", endpoint: Endpoint::Health });
    routes.push(Route { method: Method::Get, path: "/trigger", endpoint: Endpoint::Trigger });
    routes.push(Route { method: Method::Post, path: "/trigger", endpoint: Endpoint::Trigger });
    routes.push(Route { method: Method::Put, path: "/trigger", endpoint: Endpoint::Trigger });
    proof {
        assert(routes@.map_values(|route: Route| route@) =~= served());
    }
    routes
}

/// The answer to a request to trigger, given whether it carries the secret,
/// what each call to the cluster would bring and the name for a new Job.
pub open spec fn answer_to_trigger(
    admitted: bool,
    state: AppStateView,
    job_ttl_seconds: Option<i32>,
    fetched: Result<CronJobView, Seq<char>>,
    listed: Result<Seq<JobView>, Seq<char>>,
    created: Result<JobView, Seq<char>>,
    fresh_name: Seq<char>,
) -> ReplyView {
    match first_step(admitted, state) {
        TriggerStepView::Answer { reply } => reply,
        TriggerStepView::Trigger { namespace, cronjob_name } => answer_to(
            run::run_result(
                TriggerTargetView { namespace, cronjob_name, job_ttl_seconds },
                fetched,
                listed,
                created,
                fresh_name,
            ),
        ),
    }
}

/// A request without the secret is answered 401 and has no other effect: it is
/// answered at once, and whatever it carries, and whatever the cluster holds,
/// the answer is the same.
pub proof fn law_refused_request_is_answered_unauthorized(
    headers: HeaderMap,
    state: AppStateView,
    job_ttl_seconds: Option<i32>,
    fetched: Result<CronJobView, Seq<char>>,
    listed: Result<Seq<JobView>, Seq<char>>,
    created: Result<JobView, Seq<char>>,
    fresh_name: Seq<char>,
)
    requires
        !auth::admits(headers, state.api_secret),
    ensures
        first_step(auth::admits(headers, state.api_secret), state) is Answer,
        answer_to_trigger(
            auth::admits(headers, state.api_secret),
            state,
            job_ttl_seconds,
            fetched,
            listed,
            created,
            fresh_name,
        ) == unauthorized(),
        unauthorized().status.number() == 401,
{
}

/// An admitted request triggers the CronJob of the service, in the namespace of
/// the service, and no other.
pub proof fn law_admitted_request_triggers(headers: HeaderMap, state: AppStateView)
    requires
        auth::admits(headers, state.api_secret),
    ensures
        first_step(auth::admits(headers, state.api_secret), state) == (TriggerStepView::Trigger {
            namespace: state.namespace,
            cronjob_name: state.cronjob_name,
        }),
{
}

/// No two errors are told apart by their answers: what went wrong inside stays
/// inside.
pub proof fn law_errors_look_alike<E, F>(error: E, other: F)
    ensures
        answer_to(Err::<TriggerOutcomeView, E>(error)) == answer_to(
            Err::<TriggerOutcomeView, F>(other),
        ),
        answer_to(Err::<TriggerOutcomeView, E>(error)).status.number() == 500,
{
}

/// The status tells what came of the trigger: 200 that a Job was created, 409
/// that one is active, 500 that something failed; and the first two name the
/// Job.
pub proof fn law_status_tells_the_outcome<E>(result: Result<TriggerOutcomeView, E>)
    ensures
        ({
            let answer = answer_to(result);
            let code = answer.status.number();
            &&& code == 200 || code == 409 || code == 500
            &&& code == 200 <==> (result is Ok && result->Ok_0 is Created)
            &&& code == 409 <==> (result is Ok && result->Ok_0 is Throttled)
            &&& code == 500 <==> result is Err
            &&& result matches Ok(TriggerOutcomeView::Created { job }) ==> {
                &&& answer.body.contains_key("job"@)
                &&& answer.body["job"@] == job
            }
            &&& result matches Ok(TriggerOutcomeView::Throttled { job }) ==> {
                &&& answer.body.contains_key("job"@)
                &&& answer.body["job"@] == job
            }
        }),
{
    reveal_strlit("job");
    reveal_strlit("message");
    assert("job"@.len() != "message"@.len());
}

/// While a Job made from the CronJob is active, an admitted request is answered
/// 409 and the name of an active Job, whatever a creation would have brought.
pub proof fn law_active_job_is_answered_conflict(
    state: AppStateView,
    job_ttl_seconds: Option<i32>,
    cronjob: CronJobView,
    jobs: Seq<JobView>,
    created: Result<JobView, Seq<char>>,
    fresh_name: Seq<char>,
    i: int,
)
    requires
        0 <= i < jobs.len(),
        crate::job::is_active(jobs[i]),
    ensures
        exists|k: int|
            0 <= k < jobs.len() && crate::job::is_active(#[trigger] jobs[k]) && answer_to_trigger(
                true,
                state,
                job_ttl_seconds,
                Ok(cronjob),
                Ok(jobs),
                created,
                fresh_name,
            ) == answer_to(
                Ok::<TriggerOutcomeView, TriggerErrorView>(
                    TriggerOutcomeView::Throttled {
                        job: run::name_or(jobs[k].metadata.name, "unknown"@),
                    },
                ),
            ),
{
    run::law_active_job_throttles(
        TriggerTargetView {
            namespace: state.namespace,
            cronjob_name: state.cronjob_name,
            job_ttl_seconds,
        },
        cronjob,
        jobs,
        created,
        fresh_name,
        i,
    );
}

/// Where no Job made from the CronJob is active, a Job can be made and the
/// cluster takes it, an admitted request is answered 200 and the Job's name.
pub proof fn law_idle_cronjob_is_answered_ok(
    state: AppStateView,
    job_ttl_seconds: Option<i32>,
    cronjob: CronJobView,
    jobs: Seq<JobView>,
    created: JobView,
    fresh_name: Seq<char>,
)
    requires
        forall|i: int| 0 <= i < jobs.len() ==> !crate::job::is_active(#[trigger] jobs[i]),
        crate::job::job_from(cronjob, state.namespace, fresh_name, job_ttl_seconds) is Ok,
    ensures
        answer_to_trigger(
            true,
            state,
            job_ttl_seconds,
            Ok(cronjob),
            Ok(jobs),
            Ok(created),
            fresh_name,
        ) == answer_to(
            Ok::<TriggerOutcomeView, TriggerErrorView>(
                TriggerOutcomeView::Created {
                    job: run::name_or(created.metadata.name, fresh_name),
                },
            ),
        ),
{
    run::law_idle_cronjob_gets_a_job(
        TriggerTargetView {
            namespace: state.namespace,
            cronjob_name: state.cronjob_name,
            job_ttl_seconds,
        },
        cronjob,
        jobs,
        created,
        fresh_name,
    );
}

/// The answers to an admitted request, in full and for a Job of any name: 200,
/// `ok` and the Job that was created; 409, `throttled`, the Job that is active
/// and why; and 500 with a fixed text, whatever failed.
pub proof fn law_answers_in_full<E>(job: Seq<char>, error: E)
    ensures
        answer_to(Ok::<TriggerOutcomeView, E>(TriggerOutcomeView::Created { job })) == (ReplyView {
            status: Status::Success,
            body: map!["status"@ => "ok"@, "job"@ => job],
        }),
        answer_to(Ok::<TriggerOutcomeView, E>(TriggerOutcomeView::Throttled { job })) == (
        ReplyView {
            status: Status::Conflict,
            body: map![
                "status"@ => "throttled"@,
                "job"@ => job,
                "message"@ => "An active job for this CronJob already exists"@,
            ],
        }),
        answer_to(Err::<TriggerOutcomeView, E>(error)) == (ReplyView {
            status: Status::InternalServerError,
            body: map![
                "error"@ => "Internal Server Error"@,
                "message"@ => "Failed to create job"@,
            ],
        }),
{
}

/// What the answer tells a client of the Job: under `job` its name, letter for
/// letter, and under `status` whether it was created or is the active one. Two
/// Jobs are told apart by their answers.
pub proof fn law_answers_name_the_job<E>(job: Seq<char>, other: Seq<char>)
    ensures
        ({
            let created = answer_to(
                Ok::<TriggerOutcomeView, E>(TriggerOutcomeView::Created { job }),
            );
            let throttled = answer_to(
                Ok::<TriggerOutcomeView, E>(TriggerOutcomeView::Throttled { job }),
            );
            &&& created.body.dom() =~= set!["status"@, "job"@]
            &&& created.body["job"@] == job
            &&& created.body["status"@] == "ok"@
            &&& throttled.body.dom() =~= set!["status"@, "job"@, "message"@]
            &&& throttled.body["job"@] == job
            &&& throttled.body["status"@] == "throttled"@
            &&& job != other ==> created != answer_to(
                Ok::<TriggerOutcomeView, E>(TriggerOutcomeView::Created { job: other }),
            ) && throttled != answer_to(
                Ok::<TriggerOutcomeView, E>(TriggerOutcomeView::Throttled { job: other }),
            )
        }),
{
    reveal_strlit("job");
    reveal_strlit("status");
    reveal_strlit("message");
    assert("job"@.len() == 3 && "status"@.len() == 6 && "message"@.len() == 7);
    let other_created = answer_to(
        Ok::<TriggerOutcomeView, E>(TriggerOutcomeView::Created { job: other }),
    );
    let other_throttled = answer_to(
        Ok::<TriggerOutcomeView, E>(TriggerOutcomeView::Throttled { job: other }),
    );
    assert(other_created.body["job"@] == other);
    assert(other_throttled.body["job"@] == other);
}

/// What is done with a request, from the bytes of its headers: the CronJob of
/// the service is triggered, where the service runs, iff they hold the secret;
/// otherwise the request is answered 401 and a fixed text, at once.
pub proof fn law_requests_by_their_bytes(headers: HeaderMap, state: AppStateView)
    ensures
        ({
            let step = first_step(auth::admits(headers, state.api_secret), state);
            let holds_secret = {
                ||| auth::first_value_spells(
                    headers,
                    "authorization"@,
                    "Bearer "@ + state.api_secret,
                )
                ||| !auth::has_bearer_token(headers) && auth::first_value_spells(
                    headers,
                    "x-api-key"@,
                    state.api_secret,
                )
            };
            &&& holds_secret ==> step == (TriggerStepView::Trigger {
                namespace: state.namespace,
                cronjob_name: state.cronjob_name,
            })
            &&& !holds_secret ==> step == (TriggerStepView::Answer {
                reply: ReplyView {
                    status: Status::Unauthorized,
                    body: map![
                        "error"@ => "Unauthorized"@,
                        "message"@ => "Invalid or missing API token"@,
                    ],
                },
            })
        }),
{
    auth::law_admission_rests_on_the_bytes(headers, state.api_secret);
}

/// What the service knows, what it is to do and how a trigger ended are shown
/// as they are.
pub proof fn law_state_and_steps_are_shown<E>(
    state: AppState,
    step: TriggerStep,
    outcome: TriggerOutcome,
    error: E,
)
    ensures
        state@.api_secret == state.api_secret@,
        state@.cronjob_name == state.cronjob_name@,
        state@.namespace == state.namespace@,
        match step {
            TriggerStep::Answer { reply } => step@ == (TriggerStepView::Answer { reply: reply@ }),
            TriggerStep::Trigger { namespace, cronjob_name } => step@ == (
            TriggerStepView::Trigger { namespace: namespace@, cronjob_name: cronjob_name@ }),
        },
        outcome_view(Ok::<TriggerOutcome, E>(outcome)) == Ok::<TriggerOutcomeView, E>(outcome@),
        outcome_view(Err::<TriggerOutcome, E>(error)) == Err::<TriggerOutcomeView, E>(error),
{
}

/// Which requests are served: by `GET`, `POST` and `PUT` those for `/trigger`,
/// by `GET` those for `/health`, and no others.
pub proof fn law_which_requests_are_served(method: Method, path: Seq<char>, endpoint: Endpoint)
    ensures
        served().contains(RouteView { method, path, endpoint }) <==> {
            ||| endpoint == Endpoint::Trigger && path == "/trigger"@
            ||| endpoint == Endpoint::Health && path == "/health"@ && method == Method::Get
        },
{
    let route = RouteView { method, path, endpoint };
    assert(served()[0] == RouteView {
        method: Method::Get,
        path: "/health"@,
        endpoint: Endpoint::Health,
    });
    assert(served()[1] == RouteView {
        method: Method::Get,
        path: "/trigger"@,
        endpoint: Endpoint::Trigger,
    });
    assert(served()[2] == RouteView {
        method: Method::Post,
        path: "/trigger"@,
        endpoint: Endpoint::Trigger,
    });
    assert(served()[3] == RouteView {
        method: Method::Put,
        path: "/trigger"@,
        endpoint: Endpoint::Trigger,
    });
}

/// A route is shown as it is.
pub proof fn law_route_is_shown(route: Route)
    ensures
        route@.method == route.method,
        route@.path == route.path@,
        route@.endpoint == route.endpoint,
{
}

} // verus!
