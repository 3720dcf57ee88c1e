use actix_web::http::StatusCode;
use actix_web::test::TestRequest;
use renovate_k8s_trigger::handlers::{
    health_handler, not_found_handler, routes, step_for, trigger_handler, trigger_reply, AppState,
    Endpoint, Method, TriggerStep,
};
use renovate_k8s_trigger::reply::{Reply, Status};
use renovate_k8s_trigger::run::TriggerOutcome;

fn state() -> AppState {
    AppState {
        api_secret: "secret".to_string(),
        cronjob_name: "renovate".to_string(),
        namespace: "renovate-trigger".to_string(),
    }
}

/// Answers a request with these headers, where the trigger ends as given.
fn call(header: Option<(&str, &str)>, outcome: Result<TriggerOutcome, String>) -> Reply {
    let mut req = TestRequest::post().uri("/trigger");
    if let Some(header) = header {
        req = req.insert_header(header);
    }
    match trigger_handler(req.to_http_request().headers(), &state()) {
        TriggerStep::Answer { reply } => reply,
        TriggerStep::Trigger { namespace, cronjob_name } => {
            assert_eq!(namespace, "renovate-trigger");
            assert_eq!(cronjob_name, "renovate");
            trigger_reply(outcome)
        }
    }
}

fn status(reply: &Reply) -> StatusCode {
    StatusCode::from_u16(reply.status.code()).unwrap()
}

fn body(reply: Reply) -> serde_json::Value {
    serde_json::Value::Object(reply.into_json())
}

#[test]
fn test_health_endpoint() {
    let reply = health_handler();
    assert_eq!(status(&reply), StatusCode::OK);
    assert_eq!(body(reply).to_string(), "{\"status\":\"ok\"}");
}

#[test]
fn test_not_found_endpoint() {
    let reply = not_found_handler("/unknown-path");
    assert_eq!(status(&reply), StatusCode::NOT_FOUND);
    let body = body(reply);
    assert_eq!(body["error"], "Not Found");
    assert_eq!(body["message"], "Path '/unknown-path' not found");
    assert_eq!(body.as_object().unwrap().len(), 2);
}

#[test]
fn test_trigger_unauthorized_without_token() {
    let reply = call(None, Ok(TriggerOutcome::Created { job: "should-not-run".into() }));
    assert_eq!(status(&reply), StatusCode::UNAUTHORIZED);
    let body = body(reply);
    assert_eq!(body["error"], "Unauthorized");
    assert_eq!(body["message"], "Invalid or missing API token");
    assert_eq!(body.as_object().unwrap().len(), 2);
}

#[test]
fn test_trigger_unauthorized_wrong_token() {
    let reply = call(
        Some(("X-Api-Key", "nope")),
        Ok(TriggerOutcome::Created { job: "should-not-run".into() }),
    );
    assert_eq!(status(&reply), StatusCode::UNAUTHORIZED);
}

#[test]
fn test_trigger_created() {
    let reply = call(
        Some(("X-Api-Key", "secret")),
        Ok(TriggerOutcome::Created { job: "renovate-manual-abcd1234".into() }),
    );
    assert_eq!(status(&reply), StatusCode::OK);
    let body = body(reply);
    assert_eq!(body["status"], "ok");
    assert_eq!(body["job"], "renovate-manual-abcd1234");
    assert_eq!(body.as_object().unwrap().len(), 2);
}

#[test]
fn test_trigger_throttled() {
    let auth = ["Bearer", " ", "secret"].concat();
    let reply = call(
        Some(("Authorization", auth.as_str())),
        Ok(TriggerOutcome::Throttled { job: "renovate-manual-busy".into() }),
    );
    assert_eq!(status(&reply), StatusCode::CONFLICT);
    let body = body(reply);
    assert_eq!(body["status"], "throttled");
    assert_eq!(body["job"], "renovate-manual-busy");
    assert_eq!(body["message"], "An active job for this CronJob already exists");
    assert_eq!(body.as_object().unwrap().len(), 3);
}

#[test]
fn test_trigger_internal_error_hides_details() {
    let reply = call(
        Some(("X-Api-Key", "secret")),
        Err("Failed to fetch CronJob 'renovate': secrets leaked".into()),
    );
    assert_eq!(status(&reply), StatusCode::INTERNAL_SERVER_ERROR);
    let body = body(reply);
    assert_eq!(body["error"], "Internal Server Error");
    assert_eq!(body["message"], "Failed to create job");
    let body_str = body.to_string();
    assert!(!body_str.contains("secrets leaked"));
    assert!(!body_str.contains("Failed to fetch CronJob"));
    assert_eq!(body.as_object().unwrap().len(), 2);
}

#[test]
fn steps_on_plain_values() {
    match step_for(false, &state()) {
        TriggerStep::Answer { reply } => assert_eq!(reply.status, Status::Unauthorized),
        TriggerStep::Trigger { .. } => panic!("a refused request triggers nothing"),
    }
    match step_for(true, &state()) {
        TriggerStep::Answer { .. } => panic!("an admitted request is not answered at once"),
        TriggerStep::Trigger { namespace, cronjob_name } => {
            assert_eq!(namespace, "renovate-trigger");
            assert_eq!(cronjob_name, "renovate");
        }
    }
}

#[test]
fn errors_look_alike() {
    let one = body(trigger_reply(Err("one")));
    let two = body(trigger_reply(Err(2u8)));
    assert_eq!(one, two);
}

#[test]
fn status_codes() {
    assert_eq!(Status::Success.code(), 200);
    assert_eq!(Status::Unauthorized.code(), 401);
    assert_eq!(Status::NotFound.code(), 404);
    assert_eq!(Status::Conflict.code(), 409);
    assert_eq!(Status::InternalServerError.code(), 500);
}

#[test]
fn served_routes() {
    let table: Vec<(Method, &str, Endpoint)> =
        routes().into_iter().map(|r| (r.method, r.path, r.endpoint)).collect();
    assert_eq!(
        table,
        vec![
            (Method::Get, "/health", Endpoint::Health),
            (Method::Get, "/trigger", Endpoint::Trigger),
            (Method::Post, "/trigger", Endpoint::Trigger),
            (Method::Put, "/trigger", Endpoint::Trigger),
        ]
    );
}
