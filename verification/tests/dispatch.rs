use aegis_daemon::handlers::dispatch::{
    dispatch_gateway, dispatch_identity, dispatch_request, dispatch_request_of,
    llm_error_to_status, temporal_step, AgentMessage, DispatchAction, DispatchEvent, DispatchFlow,
    DispatchRequest, ExecutionRecord, InnerLoopOutcome, LlmError, TemporalAction, TemporalEvent,
};
use aegis_daemon::http::Reply;
use aegis_daemon::identity::{IdentityKind, TenantId, UserIdentity};
use aegis_daemon::json::Json;

fn value_of(json: &Json) -> serde_json::Value {
    match json {
        Json::Null => serde_json::Value::Null,
        Json::Bool(b) => serde_json::Value::from(*b),
        Json::Int(n) => match (i64::try_from(*n), u64::try_from(*n)) {
            (Ok(i), _) => serde_json::Value::from(i),
            (_, Ok(u)) => serde_json::Value::from(u),
            _ => panic!("the number does not fit"),
        },
        Json::Real(text) => serde_json::from_str(text).expect("a number"),
        Json::Str(s) => serde_json::Value::from(s.as_str()),
        Json::Arr(items) => serde_json::Value::from(items.iter().map(value_of).collect::<Vec<_>>()),
        Json::Obj(members) => {
            let mut out = serde_json::Map::new();
            for (key, value) in members {
                out.insert(key.clone(), value_of(value));
            }
            serde_json::Value::from(out)
        }
    }
}

/// Checks a reply's status and its body, whatever the order of the members.
fn check(reply: &Reply, status: u16, body: &str) {
    assert_eq!(reply.status, status);
    let expected: serde_json::Value = serde_json::from_str(body).expect("valid JSON");
    assert_eq!(value_of(reply.body.as_ref().expect("a body")), expected);
}

#[test]
fn llm_error_to_status_authentication() {
    let (status, tag) = llm_error_to_status(&LlmError::Authentication);
    assert_eq!(status, 502);
    assert_eq!(tag, "upstream_authentication");
}

#[test]
fn llm_error_to_status_rate_limit() {
    let (status, tag) = llm_error_to_status(&LlmError::RateLimit);
    assert_eq!(status, 429);
    assert_eq!(tag, "upstream_rate_limit");
}

#[test]
fn llm_error_to_status_model_not_found() {
    let (status, tag) = llm_error_to_status(&LlmError::ModelNotFound);
    assert_eq!(status, 502);
    assert_eq!(tag, "upstream_model_not_found");
}

#[test]
fn llm_error_to_status_invalid_input() {
    let (status, tag) = llm_error_to_status(&LlmError::InvalidInput);
    assert_eq!(status, 502);
    assert_eq!(tag, "upstream_invalid_input");
}

#[test]
fn llm_error_to_status_service_unavailable() {
    let (status, tag) = llm_error_to_status(&LlmError::ServiceUnavailable);
    assert_eq!(status, 503);
    assert_eq!(tag, "upstream_unavailable");
}

#[test]
fn llm_error_to_status_network() {
    let (status, tag) = llm_error_to_status(&LlmError::Network);
    assert_eq!(status, 502);
    assert_eq!(tag, "upstream_network");
}

#[test]
fn llm_error_to_status_provider() {
    let (status, tag) = llm_error_to_status(&LlmError::Provider);
    assert_eq!(status, 502);
    assert_eq!(tag, "upstream_provider");
}

fn request() -> DispatchRequest {
    DispatchRequest {
        execution_id: Some(7),
        iteration_number: 2,
        prompt: Some("p".to_string()),
        model_alias: Some("m".to_string()),
    }
}

#[test]
fn messages_name_their_execution() {
    let id = uuid::Uuid::new_v4();
    let generate = AgentMessage::Generate {
        execution_id: id.to_string(),
        iteration_number: 2,
        prompt: "p".to_string(),
        model_alias: "m".to_string(),
    };
    let out = dispatch_request(&generate);
    assert_eq!(out.execution_id, Some(id.as_u128()));
    assert_eq!(out.iteration_number, 2);
    assert_eq!(out.prompt, Some("p".to_string()));
    let result = AgentMessage::DispatchResult { execution_id: "nonsense".to_string() };
    assert_eq!(dispatch_request(&result).execution_id, None);
    let out = dispatch_request_of(&result, Some(3));
    assert_eq!((out.execution_id, out.iteration_number), (Some(3), 0));
    assert_eq!(out.model_alias, None);
}

#[test]
fn a_dispatch_runs_for_the_user_who_started_it() {
    let record = ExecutionRecord {
        agent_id: 5,
        initiating_user_sub: Some("user-1".to_string()),
        tenant_id: TenantId::new("u-user1"),
    };
    let (agent, caller) = dispatch_identity(Some(&record));
    assert_eq!(agent, 5);
    let caller = caller.unwrap();
    assert_eq!(caller.sub, "user-1");
    assert!(matches!(
        caller.identity_kind,
        IdentityKind::ConsumerUser { tenant_id, .. } if tenant_id.as_str() == "u-user1"
    ));
    let (agent, caller) = dispatch_identity(None);
    assert_eq!(agent, 0);
    assert!(caller.is_none());
}

#[test]
fn finished_interactions_are_published_and_answered() {
    let done = InnerLoopOutcome::Done {
        content: "c".to_string(),
        tool_calls_executed: 3,
        trajectory_len: 1,
    };
    let plan = dispatch_gateway(request(), 5, done);
    check(&plan.reply, 200, r#"{"content": "c", "tool_calls_executed": 3}"#);
    let published = plan.interaction.unwrap();
    assert_eq!(published.provider, "orchestrator");
    assert_eq!((published.input_tokens, published.output_tokens), (None, None));
    assert_eq!((published.execution_id, published.agent_id), (7, 5));
    assert_eq!(published.response, "c");
    assert!(published.store_trajectory);

    let done = InnerLoopOutcome::Done {
        content: "c".to_string(),
        tool_calls_executed: 0,
        trajectory_len: 0,
    };
    assert!(dispatch_gateway(request(), 0, done).interaction.is_none());
}

#[test]
fn failed_calls_are_published_and_answered_with_their_tag() {
    let failed = InnerLoopOutcome::LlmFailed {
        error: LlmError::RateLimit,
        message: "slow down".to_string(),
    };
    let plan = dispatch_gateway(request(), 5, failed);
    check(&plan.reply, 429, r#"{"error": "upstream_rate_limit: slow down"}"#);
    let failure = plan.failure.unwrap();
    assert_eq!(failure.error, LlmError::RateLimit);
    assert_eq!(failure.provider, "orchestrator");
    assert_eq!((failure.attempts, failure.elapsed_ms, failure.fallback_attempted), (0, 0, false));
    let failed = InnerLoopOutcome::Failed { message: "x".to_string() };
    let plan = dispatch_gateway(request(), 5, failed);
    check(&plan.reply, 500, r#"{"error": "x"}"#);
    assert!(plan.failure.is_none() && plan.interaction.is_none());
    let action = InnerLoopOutcome::Dispatch { action: Some(Json::Bool(true)) };
    check(&dispatch_gateway(request(), 5, action).reply, 200, "true");
}

#[test]
fn only_the_worker_s_account_reports_events() {
    let account = |client_id: &str| UserIdentity {
        sub: "svc".to_string(),
        realm_slug: "aegis-system".to_string(),
        email: None,
        name: None,
        identity_kind: IdentityKind::ServiceAccount { client_id: client_id.to_string() },
    };
    let answer = |action| match action {
        TemporalAction::Answer(reply) => reply,
        _ => panic!("an answer"),
    };
    let validated = |caller| temporal_step(TemporalEvent::Validated(caller));
    assert!(matches!(
        validated(Some(account("aegis-temporal-worker"))),
        TemporalAction::Handle
    ));
    assert_eq!(answer(validated(Some(account("other")))), Reply::error(401, "Unauthorized"));
    assert_eq!(answer(validated(None)).status, 401);
    let begun = |header: Option<&str>, has_iam| {
        let authorization = header.map(|h| h.to_string());
        temporal_step(TemporalEvent::Begun { authorization, has_iam })
    };
    assert!(matches!(
        begun(Some("Bearer t"), true),
        TemporalAction::Validate { token } if token == "t"
    ));
    assert_eq!(answer(begun(Some("Bearer t"), false)).status, 401);
    assert_eq!(answer(begun(Some("Basic t"), true)).status, 401);
    assert_eq!(answer(begun(None, true)).status, 401);
    check(
        &answer(temporal_step(TemporalEvent::Handled(Ok("e".to_string())))),
        200,
        r#"{"execution_id": "e", "status": "received"}"#,
    );
    check(
        &answer(temporal_step(TemporalEvent::Handled(Err("x".to_string())))),
        400,
        r#"{"error": "Failed to process event: x"}"#,
    );
}

#[test]
fn a_message_is_handled_for_the_user_of_its_execution() {
    let id = uuid::Uuid::from_u128(7);
    let message = AgentMessage::Generate {
        execution_id: id.to_string(),
        iteration_number: 1,
        prompt: "p".to_string(),
        model_alias: "m".to_string(),
    };
    let mut flow = DispatchFlow::start(&message);
    assert!(matches!(
        flow.step(DispatchEvent::Begun),
        DispatchAction::FindExecution { id: 7 }
    ));
    let record = ExecutionRecord {
        agent_id: 5,
        initiating_user_sub: Some("user-1".to_string()),
        tenant_id: TenantId::new("u-user1"),
    };
    assert!(matches!(
        flow.step(DispatchEvent::ExecutionFound(Some(record))),
        DispatchAction::Handle { caller: Some(user) } if user.sub == "user-1"
    ));
    let done = InnerLoopOutcome::Done {
        content: "c".to_string(),
        tool_calls_executed: 0,
        trajectory_len: 0,
    };
    match flow.step(DispatchEvent::Handled(done)) {
        DispatchAction::Finish(plan) => assert_eq!(plan.interaction.unwrap().agent_id, 5),
        _ => panic!("the end"),
    }
    let unknown = AgentMessage::DispatchResult { execution_id: "nonsense".to_string() };
    let mut flow = DispatchFlow::start(&unknown);
    assert!(matches!(flow.step(DispatchEvent::Begun), DispatchAction::Handle { caller: None }));
    let failed = InnerLoopOutcome::LlmFailed { error: LlmError::Network, message: "m".to_string() };
    match flow.step(DispatchEvent::Handled(failed)) {
        DispatchAction::Finish(plan) => {
            assert!(plan.failure.is_none());
            assert_eq!(plan.reply.status, 502);
        }
        _ => panic!("the end"),
    }
}
