use newspoll::dispatch::{
    dispatch, return_error, return_success, CallRequest, Dispatch, FunctionRegistry, LookFor,
    Outcome, ServerResponse, TaskCall, TaskFunction, NOT_ALLOWED, NOT_FOUND, REQUEST_CANCELED,
    REQUEST_FAILED, REQUEST_INTERNAL_ERROR, REQUEST_RATE_LIMITED, REQUEST_SUCCESS, REQUEST_TIMEOUT,
};

fn registry() -> FunctionRegistry<u32> {
    let mut reg = FunctionRegistry::new();
    reg.register_function("alphavantage_news_polling".to_string(), 0);
    reg.register_function("marketaux_news_polling".to_string(), 1);
    reg.register_function("fmp_news_polling".to_string(), 2);
    reg
}

fn task_request(target: &str, function: TaskFunction, where_: &str, params: Option<&str>) -> CallRequest {
    CallRequest {
        target: target.to_string(),
        for_task: Some(TaskCall {
            function,
            look_for: LookFor { where_: where_.to_string() },
            params: params.map(|p| p.to_string()),
        }),
    }
}

fn expect_respond(d: Dispatch) -> ServerResponse {
    match d {
        Dispatch::Respond(resp) => resp,
        Dispatch::Invoke { .. } => panic!("expected a response, got a handler invocation"),
    }
}

fn assert_envelope_shape(resp: &ServerResponse) {
    // Exactly one of payload and reason, matching the status code.
    assert_eq!(resp.message.is_some(), resp.status == REQUEST_SUCCESS);
    assert_eq!(resp.reason.is_some(), resp.status != REQUEST_SUCCESS);
    assert!(resp.message.is_some() != resp.reason.is_some());
}

#[test]
fn malformed_message_fails_with_400() {
    let reg = registry();
    let resp = expect_respond(dispatch(&reg, Err("expected value at line 1".to_string())));
    assert_eq!(resp.status, REQUEST_FAILED);
    assert_eq!(resp.reason.as_deref(), Some("expected value at line 1"));
    assert_envelope_shape(&resp);
}

#[test]
fn wrong_target_is_not_allowed_with_500() {
    let reg = registry();
    let req = task_request("admin", TaskFunction::AggregatedPolling, "marketaux_news_polling", Some("{}"));
    let resp = expect_respond(dispatch(&reg, Ok(req)));
    assert_eq!(resp.status, NOT_ALLOWED);
    assert_eq!(resp.reason.as_deref(), Some("Invalid request"));
    assert_envelope_shape(&resp);
}

#[test]
fn missing_task_is_not_allowed() {
    let reg = registry();
    let req = CallRequest { target: "task".to_string(), for_task: None };
    let resp = expect_respond(dispatch(&reg, Ok(req)));
    assert_eq!(resp.status, NOT_ALLOWED);
    assert_envelope_shape(&resp);
}

#[test]
fn unsupported_function_is_not_allowed() {
    let reg = registry();
    let req = task_request("task", TaskFunction::Unsupported, "marketaux_news_polling", Some("{}"));
    let resp = expect_respond(dispatch(&reg, Ok(req)));
    assert_eq!(resp.status, NOT_ALLOWED);
    assert_envelope_shape(&resp);
}

#[test]
fn unregistered_handler_fails_naming_the_key() {
    let reg = registry();
    let req = task_request("task", TaskFunction::AggregatedPolling, "nope_polling", Some("{}"));
    let resp = expect_respond(dispatch(&reg, Ok(req)));
    assert_eq!(resp.status, REQUEST_FAILED);
    assert_eq!(resp.reason.as_deref(), Some("Invalid task function: nope_polling"));
    assert_envelope_shape(&resp);
}

#[test]
fn missing_params_fail_the_request() {
    let reg = registry();
    let req = task_request("task", TaskFunction::AggregatedPolling, "marketaux_news_polling", None);
    let resp = expect_respond(dispatch(&reg, Ok(req)));
    assert_eq!(resp.status, REQUEST_FAILED);
    assert_eq!(resp.reason.as_deref(), Some("Invalid task arguments"));
    assert_envelope_shape(&resp);
}

#[test]
fn registered_handler_is_invoked_with_its_params() {
    let reg = registry();
    let req = task_request(
        "task",
        TaskFunction::AggregatedPolling,
        "fmp_news_polling",
        Some("{\"function\":\"stock news\"}"),
    );
    match dispatch(&reg, Ok(req)) {
        Dispatch::Invoke { handler, params } => {
            assert_eq!(*reg.handler_at(handler), 2);
            assert_eq!(params, "{\"function\":\"stock news\"}");
        }
        Dispatch::Respond(resp) => panic!("expected an invocation, got status {}", resp.status),
    }
}

#[test]
fn register_function_replaces_handler_under_same_name() {
    let mut reg = FunctionRegistry::new();
    reg.register_function("poller".to_string(), 1u32);
    reg.register_function("poller".to_string(), 9u32);
    assert_eq!(reg.len(), 1);
    let i = reg.resolve("poller").expect("name must resolve");
    assert_eq!(*reg.handler_at(i), 9);
}

#[test]
fn resolve_misses_unknown_names() {
    let reg = registry();
    assert!(reg.resolve("unknown").is_none());
    assert!(reg.resolve("marketaux_news_polling").is_some());
}

#[test]
fn success_envelope_carries_payload_only() {
    let resp = return_success("{\"feed\":[]}".to_string());
    assert_eq!(resp.status, REQUEST_SUCCESS);
    assert_eq!(resp.message.as_deref(), Some("{\"feed\":[]}"));
    assert!(resp.reason.is_none());
    assert_envelope_shape(&resp);
}

#[test]
fn error_envelopes_map_outcomes_to_status_codes() {
    let cases = [
        (Outcome::Failure, REQUEST_FAILED),
        (Outcome::NotAllowed, NOT_ALLOWED),
        (Outcome::Timeout, REQUEST_TIMEOUT),
        (Outcome::Canceled, REQUEST_CANCELED),
        (Outcome::InternalError, REQUEST_INTERNAL_ERROR),
        (Outcome::NotFound, NOT_FOUND),
        (Outcome::RateLimited, REQUEST_RATE_LIMITED),
    ];
    for (outcome, status) in cases {
        let resp = return_error(outcome, "why".to_string());
        assert_eq!(resp.status, status);
        assert_eq!(resp.reason.as_deref(), Some("why"));
        assert!(resp.message.is_none());
        assert_envelope_shape(&resp);
    }
}
