use aegis_daemon::client::{
    canonical_event_type, check_lookup, check_status, data_payloads, event_spans,
    extract_iteration_error_message, format_details, format_entry, format_event,
    format_workflow_log_event, get_workflow_logs, is_error_event, is_error_workflow_event,
    is_transition_workflow_event, lookup_workflow, plain_text, read_manifest, read_told_id,
    should_skip_workflow_event, shown_details, shows_event, streamed_entry, text_payloads,
    told_id, CorrelatedActivityEvent, DaemonClient, Style,
    WorkflowListResponse, WorkflowLogEvent, WorkflowLogOptions,
};
use aegis_daemon::client_requests::{ClientRequest, Method, RequestBody};
use aegis_daemon::json::Json;
use aegis_daemon::json_value::{read_bytes, Details};

fn lib_json(value: &serde_json::Value) -> Json {
    aegis_daemon::json_value::read_value(value)
}

fn json(text: &str) -> Json {
    lib_json(&serde_json::from_str(text).expect("valid JSON"))
}

fn details_of(text: &str) -> Details {
    Details::of(&serde_json::from_str(text).expect("valid JSON"))
}

fn event(kind: &str, category: &str, message: &str, details: &str) -> CorrelatedActivityEvent {
    CorrelatedActivityEvent {
        event_type: kind.to_string(),
        category: category.to_string(),
        timestamp: 1_767_225_600_000_000_000,
        message: message.to_string(),
        details: details_of(details),
    }
}

#[test]
fn test_error_object_with_message_precedence() {
    let event = event(
        "IterationFailed",
        "execution",
        "top-level error",
        r#"{"error": {"message": "object message", "code": "SOME_CODE"}}"#,
    );
    let msg = extract_iteration_error_message(&event);
    assert_eq!(msg, "object message");
}

#[test]
fn test_error_string_in_data_precedence() {
    let event = event(
        "IterationFailed",
        "execution",
        "top-level error",
        r#"{"error": "data error string"}"#,
    );
    let msg = extract_iteration_error_message(&event);
    assert_eq!(msg, "data error string");
}

#[test]
fn test_error_string_top_level_precedence() {
    let event = event("IterationFailed", "execution", "top-level error", "{}");
    let msg = extract_iteration_error_message(&event);
    assert_eq!(msg, "top-level error");
}

#[test]
fn test_error_fallback_unknown() {
    let event = event(
        "IterationFailed",
        "execution",
        "",
        r#"{"error": {"not_message": "no message field here"}}"#,
    );
    let msg = extract_iteration_error_message(&event);
    assert_eq!(msg, "Unknown error");
}

#[test]
fn detects_backend_failures_as_errors() {
    let event = event(
        "FilesystemPolicyViolation",
        "storage",
        "Filesystem policy violation",
        "{}",
    );
    assert!(is_error_event(&event));
}

#[test]
fn verbose_output_includes_structured_details() {
    let event = event(
        "PolicyViolation",
        "mcp",
        "Tool policy violation blocked: fs.write",
        r#"{"tool_name": "fs.write", "details": "attempted to write outside workspace"}"#,
    );
    let rendered = plain_text(&format_event(&event, true));
    assert!(rendered.contains("Tool policy violation blocked: fs.write"));
    assert!(rendered.contains("\"tool_name\": \"fs.write\""));
}

#[test]
fn parses_wrapped_workflow_list_response() {
    let payload = r#"{"workflows":[{"name":"alpha"}]}"#;
    let parsed = WorkflowListResponse::from_json(&json(payload)).expect("must parse");

    match parsed {
        WorkflowListResponse::Wrapped { workflows } => assert_eq!(workflows.len(), 1),
        WorkflowListResponse::Bare(_) => panic!("expected wrapped workflow list"),
    }
}

#[test]
fn parses_bare_workflow_list_response() {
    let payload = r#"[{"name":"alpha"}]"#;
    let parsed = WorkflowListResponse::from_json(&json(payload)).expect("must parse");

    match parsed {
        WorkflowListResponse::Bare(workflows) => assert_eq!(workflows.len(), 1),
        WorkflowListResponse::Wrapped { .. } => panic!("expected bare workflow list"),
    }
}

#[test]
fn parses_empty_bare_workflow_list_response() {
    let payload = "[]";
    let parsed = WorkflowListResponse::from_json(&json(payload)).expect("must parse");

    match parsed {
        WorkflowListResponse::Bare(workflows) => assert_eq!(workflows.len(), 0),
        WorkflowListResponse::Wrapped { .. } => panic!("expected bare workflow list"),
    }
}

#[test]
fn other_values_are_no_workflow_list() {
    assert!(WorkflowListResponse::from_json(&json(r#"{"items": []}"#)).is_none());
    let list = WorkflowListResponse::from_json(&json(r#"{"workflows":[1, 2]}"#)).unwrap();
    assert_eq!(list.into_workflows().len(), 2);
}

#[test]
fn workflows_are_looked_up_by_name() {
    let id = uuid::Uuid::new_v4();
    let list = vec![
        json(r#"{"name": "alpha", "id": "broken"}"#),
        json(&format!(r#"{{"name": "beta", "id": "{id}"}}"#)),
    ];
    assert_eq!(lookup_workflow(&list, "beta"), Some(id.as_u128()));
    assert_eq!(lookup_workflow(&list, "alpha"), None);
    let answer = Json::object().with("agent_id", Json::Str(id.to_string()));
    assert_eq!(told_id(&answer, "agent_id"), Some(id.as_u128()));
    assert_eq!(told_id(&answer, "id"), None);
    assert_eq!(told_id(&answer.with("id", Json::text("x")), "id"), None);
    assert_eq!(lookup_workflow(&list, "gamma"), None);
}

#[test]
fn addresses_are_built_from_host_and_port() {
    let client = DaemonClient::new("localhost", 8088);
    assert_eq!(client.base_url, "http://localhost:8088");
    assert_eq!(DaemonClient::new("https://h", 1).base_url, "https://h:1");
    assert_eq!(client.deploy_agent_url(true), "http://localhost:8088/v1/agents?force=true");
    assert_eq!(client.deploy_agent_url(false), "http://localhost:8088/v1/agents");
    assert_eq!(
        client.execute_agent_url("a", Some("1.0")),
        "http://localhost:8088/v1/agents/a/execute?version=1.0"
    );
    assert_eq!(
        client.list_executions_url(20, Some("a")),
        "http://localhost:8088/v1/executions?limit=20&agent_id=a"
    );
    assert_eq!(
        client.list_workflow_executions_url(5, None),
        "http://localhost:8088/v1/workflows/executions?limit=5"
    );
    assert_eq!(
        client.events_url("/v1/executions/", "e", true, true),
        "http://localhost:8088/v1/executions/e/events?follow=true&verbose=true"
    );
    assert_eq!(
        client.deploy_workflow_url(true, Some("global")),
        "http://localhost:8088/v1/workflows?force=true&scope=global"
    );
    assert_eq!(client.list_workflows_url(None, false), "http://localhost:8088/v1/workflows");
    assert_eq!(
        client.run_workflow_url("w", None),
        "http://localhost:8088/v1/workflows/w/run"
    );
    assert_eq!(client.item_url("/v1/agents/", "a", ""), "http://localhost:8088/v1/agents/a");
}

#[test]
fn answers_outside_the_two_hundreds_are_errors() {
    assert_eq!(check_status(204, "Failed", "x"), Ok(()));
    assert_eq!(check_status(404, "Failed", "x"), Err("Failed: x".to_string()));
    assert_eq!(check_lookup(404, "Failed", "x"), Ok(false));
    assert_eq!(check_lookup(200, "Failed", "x"), Ok(true));
    assert_eq!(check_lookup(500, "Failed", "x"), Err("Failed: x".to_string()));
}

#[test]
fn payloads_stand_behind_data() {
    assert_eq!(
        text_payloads("data: one\n: ping\r\ndata: two\r\nid: 3\ndata:x"),
        vec!["one".to_string(), "two".to_string()]
    );
    assert_eq!(data_payloads(b"data: \xffx\ndata:"), vec!["\u{fffd}x".to_string()]);
}

#[test]
fn answers_are_read_as_they_come() {
    let id = 0x67e5504410b1426f9247bb680e5fe0c8;
    let told = br#"{"agent_id": "67e55044-10b1-426f-9247-bb680e5fe0c8", "manifest": [1]}"#;
    assert_eq!(read_told_id(told, "agent_id"), Some(id));
    assert_eq!(read_told_id(told, "id"), None);
    assert_eq!(read_told_id(b"{", "agent_id"), None);
    assert_eq!(read_told_id(b"{\"agent_id\": \"\xff\"}", "agent_id"), None);
    assert_eq!(read_manifest(told), Some(json("[1]")));
    assert_eq!(read_manifest(b"{}"), None);
    assert_eq!(read_manifest(b"\xff"), None);
    let listed = |body: &[u8]| WorkflowListResponse::read(body).map(|w| w.into_workflows());
    assert_eq!(listed(br#"{"workflows": [1]}"#), Some(vec![Json::Int(1)]));
    assert_eq!(listed(b"[2]"), Some(vec![Json::Int(2)]));
    assert_eq!(listed(b"{}"), None);
    assert_eq!(listed(b"[2"), None);
    assert_eq!(read_bytes(b"[\"\xc3\xa9\"]"), Some(json("[\"\u{e9}\"]")));
    assert_eq!(read_bytes(b"[\"\xc3\"]"), None);
}

#[test]
fn event_types_are_written_one_way() {
    assert_eq!(canonical_event_type("IterationFailed"), "iteration_failed");
    assert_eq!(canonical_event_type("iteration_failed"), "iteration_failed");
    assert_eq!(canonical_event_type("JWKSRefresh"), "j_w_k_s_refresh");
}

#[test]
fn only_errors_are_shown_where_only_errors_are_asked_for() {
    let failed = event("ExecutionFailed", "execution", "m", "{}");
    let started = event("ExecutionStarted", "execution", "m", "{}");
    assert!(shows_event(&failed, true));
    assert!(!shows_event(&started, true));
    assert!(shows_event(&started, false));
}

#[test]
fn console_output_is_marked_with_its_stream() {
    let out = event(
        "ConsoleOutput",
        "execution",
        "fallback",
        r#"{"stream": "stderr", "output": "boom  \n"}"#,
    );
    let spans = format_event(&out, false);
    assert_eq!(spans[0].style, Style::Red);
    assert_eq!(plain_text(&spans), "[STDERR] boom");
    let out = event("ConsoleOutput", "execution", "fallback", "{}");
    assert_eq!(plain_text(&format_event(&out, false)), "[STDOUT] fallback");
}

#[test]
fn events_are_rendered_by_kind() {
    let head = "[2026-01-01T00:00:00+00:00] [execution] ";
    let text = |kind: &str, details: &str, verbose: bool| {
        plain_text(&format_event(&event(kind, "execution", "msg", details), verbose))
    };
    assert_eq!(
        text("IterationFailed", r#"{"reason": "late"}"#, false),
        format!("{head}Iteration failed: late")
    );
    assert_eq!(text("ExecutionFailed", "{}", false), format!("{head}msg"));
    assert_eq!(text("ExecutionCompleted", "{}", false), format!("{head}Execution completed"));
    assert_eq!(text("ExecutionCompleted", "{}", true), format!("{head}msg"));
    assert_eq!(
        text("LlmInteraction", r#"{"model": "m1"}"#, false),
        format!("{head}LLM [m1]")
    );
    assert_eq!(
        text("Something", r#"{"a": 1}"#, true),
        format!("{head}msg\n{{\n  \"a\": 1\n}}")
    );
    assert_eq!(text("Something", r#"{"a": 1}"#, false), format!("{head}msg"));
    let verbose = text("LlmInteraction", r#"{"prompt": "p", "response": "r"}"#, true);
    assert_eq!(
        verbose,
        format!(
            "{head}LLM Interaction [unknown]\nPROMPT:\np\nRESPONSE:\nr\n{}",
            "-".repeat(40)
        )
    );
}

#[test]
fn absent_details_are_not_shown() {
    assert_eq!(format_details(&details_of("null")), "");
    assert_eq!(format_details(&details_of("{}")), "");
    assert_eq!(format_details(&details_of("[1]")), "[\n  1\n]");
    assert_eq!(shown_details(&json("{}"), "laid out"), "");
    assert_eq!(shown_details(&json("[1]"), "laid out"), "laid out");
    let spans = event_spans(&event("Something", "c", "m", "{}"), true, "noon", "");
    assert_eq!(plain_text(&spans), "[noon] [c] m");
}

#[test]
fn the_shown_details_are_those_of_the_event() {
    let text = r#"{"b": [1, -2, 18446744073709551615], "a": {"x": null, "y": true}, "r": 2.5}"#;
    let details = details_of(text);
    assert_eq!(details.held(), &json(text));
    let value: serde_json::Value = serde_json::from_str(text).expect("valid JSON");
    assert_eq!(details.layout(), serde_json::to_string_pretty(&value).expect("a layout"));
    let held = details.held();
    assert_eq!(held.get("r"), Some(&Json::Real("2.5".to_string())));
    assert_eq!(
        held.get("b"),
        Some(&Json::Arr(vec![Json::Int(1), Json::Int(-2), Json::Int(u64::MAX as i128)]))
    );
    assert_eq!(held.get("a").and_then(|a| a.get("y")), Some(&Json::Bool(true)));
    let shown = plain_text(&format_event(&event("Something", "c", "m", r#"{"k": "v"}"#), true));
    assert_eq!(shown, "[2026-01-01T00:00:00+00:00] [c] m\n{\n  \"k\": \"v\"\n}");
}

#[test]
fn the_canonical_form_has_small_letters_only() {
    assert_eq!(canonical_event_type("LLMCall"), "l_l_m_call");
    assert_eq!(canonical_event_type("l_l_m_call"), "l_l_m_call");
    assert_eq!(canonical_event_type("\u{c4}B"), "\u{c4}_b");
}

fn log_event(kind: &str) -> WorkflowLogEvent {
    WorkflowLogEvent {
        execution_id: "e".to_string(),
        workflow_id: None,
        workflow_name: Some("wf".to_string()),
        event_type: kind.to_string(),
        message: "msg".to_string(),
        state_name: None,
        iteration_number: Some(2),
        timestamp: "now".to_string(),
        details: details_of(r#"{"a": 1}"#),
        temporal_workflow_id: None,
        temporal_run_id: None,
    }
}

#[test]
fn workflow_events_are_filtered_by_the_options() {
    let entered = log_event("WorkflowStateEntered");
    let iteration = log_event("WorkflowIterationFailed");
    assert!(is_transition_workflow_event(&entered));
    assert!(!is_error_workflow_event(&entered));
    assert!(is_error_workflow_event(&iteration));
    let all = WorkflowLogOptions { transitions_only: false, errors_only: false, verbose: false };
    let errors = WorkflowLogOptions { transitions_only: false, errors_only: true, verbose: false };
    assert!(!should_skip_workflow_event(&entered, all));
    assert!(should_skip_workflow_event(&entered, errors));
    let kept = get_workflow_logs(
        vec![log_event("WorkflowStateEntered"), log_event("WorkflowExecutionFailed")],
        errors,
    );
    assert_eq!(kept.len(), 1);
    assert_eq!(kept[0].event_type, "WorkflowExecutionFailed");
}

#[test]
fn workflow_events_are_written_out() {
    let entered = log_event("WorkflowStateEntered");
    assert_eq!(
        format_workflow_log_event(&entered, false),
        "[now] msg (iteration 2)\n"
    );
    assert_eq!(streamed_entry(&entered, false), "[now] msg (iteration 2)");
    let verbose = format_workflow_log_event(&entered, true);
    assert_eq!(verbose, format_entry(&entered, true, "{\n  \"a\": 1\n}"));
    assert!(verbose.contains("  Workflow:   wf\n"));
    assert!(verbose.contains("  Event:      workflow_state_entered\n"));
    assert!(verbose.contains("\"a\": 1"));
}

#[test]
fn each_request_has_its_method_its_address_and_its_body() {
    let client = DaemonClient::new("localhost", 8088);
    let id = uuid::Uuid::from_u128(7).as_u128();
    let text = "00000000-0000-0000-0000-000000000007";
    let check = |request: ClientRequest, method, path: &str, failed: &str| {
        assert_eq!(request.method, method);
        assert_eq!(request.url, format!("http://localhost:8088{path}"));
        assert_eq!((request.not_sent, request.failed), (failed, failed));
        request.body
    };
    let body = check(
        client.deploy_agent(json("{}"), true),
        Method::Post,
        "/v1/agents?force=true",
        "Failed to deploy agent",
    );
    assert_eq!(body, RequestBody::Json(json("{}")));
    let body = check(
        client.execute_agent(id, json("1"), Some(json("{}")), Some("2.0")),
        Method::Post,
        &format!("/v1/agents/{text}/execute?version=2.0"),
        "Failed to execute agent",
    );
    assert_eq!(
        body,
        RequestBody::Json(
            Json::object().with("input", Json::Int(1)).with("context_overrides", json("{}"))
        )
    );
    let body = check(
        client.run_workflow("w", json("1"), None, None),
        Method::Post,
        "/v1/workflows/w/run",
        "Failed to run workflow",
    );
    assert_eq!(body, RequestBody::Json(Json::object().with("input", Json::Int(1))));
    let executions = format!("/v1/executions/{text}");
    check(client.get_execution(id), Method::Get, &executions, "Failed to get execution");
    check(client.delete_execution(id), Method::Delete, &executions, "Failed to delete execution");
    check(
        client.cancel_execution(id),
        Method::Post,
        &format!("{executions}/cancel"),
        "Failed to cancel execution",
    );
    check(
        client.list_executions(Some(id), 3),
        Method::Get,
        &format!("/v1/executions?limit=3&agent_id={text}"),
        "Failed to list executions",
    );
    check(
        client.list_workflow_executions(3, None),
        Method::Get,
        "/v1/workflows/executions?limit=3",
        "Failed to list workflow executions",
    );
    check(client.list_agents(), Method::Get, "/v1/agents", "Failed to list agents");
    let agent = format!("/v1/agents/{text}");
    check(client.get_agent(id), Method::Get, &agent, "Failed to get agent");
    check(client.delete_agent(id), Method::Delete, &agent, "Failed to delete agent");
    check(client.lookup_agent("n"), Method::Get, "/v1/agents/lookup/n", "Failed to lookup agent");
    let body = check(
        client.deploy_workflow_manifest_with_force_and_scope("y: 1", true, Some("global")),
        Method::Post,
        "/v1/workflows?force=true&scope=global",
        "Failed to deploy workflow",
    );
    assert_eq!(body, RequestBody::Yaml("y: 1".to_string()));
    check(
        client.deploy_workflow_manifest_with_force("y: 1", false),
        Method::Post,
        "/v1/workflows",
        "Failed to deploy workflow",
    );
    check(client.list_workflows(), Method::Get, "/v1/workflows", "Failed to list workflows");
    check(
        client.list_workflows_with_scope(Some("global"), true),
        Method::Get,
        "/v1/workflows?scope=global&visible=true",
        "Failed to list workflows",
    );
    let body = check(
        client.change_workflow_scope("w", "global"),
        Method::Post,
        "/v1/workflows/w/scope",
        "Failed to change workflow scope",
    );
    assert_eq!(body, RequestBody::Json(json(r#"{"target_scope": "global"}"#)));
    check(
        client.describe_workflow("w"),
        Method::Get,
        "/v1/workflows/w",
        "Failed to describe workflow",
    );
    check(
        client.delete_workflow("w"),
        Method::Delete,
        "/v1/workflows/w",
        "Failed to delete workflow",
    );
    let run = format!("/v1/workflows/executions/{text}");
    check(
        client.get_workflow_execution(id),
        Method::Get,
        &run,
        "Failed to get workflow execution",
    );
    let body = check(
        client.signal_workflow_execution(id, "yes"),
        Method::Post,
        &format!("{run}/signal"),
        "Failed to signal workflow execution",
    );
    assert_eq!(body, RequestBody::Json(json(r#"{"response": "yes"}"#)));
    check(
        client.cancel_workflow_execution(id),
        Method::Post,
        &format!("{run}/cancel"),
        "Failed to cancel workflow execution",
    );
    check(
        client.remove_workflow_execution(id),
        Method::Delete,
        &run,
        "Failed to remove workflow execution",
    );
    check(
        client.get_workflow_logs(id),
        Method::Get,
        &format!("{run}/logs"),
        "Failed to get workflow logs",
    );
    let stream = client.stream_workflow_logs(id);
    assert_eq!(stream.url, format!("http://localhost:8088{run}/logs/stream"));
    assert_eq!(stream.not_sent, "Failed to connect to workflow log stream");
    assert_eq!(stream.failed, "Failed to stream workflow logs");
    let stream = client.stream_logs(id, true, true);
    assert_eq!(
        stream.url,
        format!("http://localhost:8088{executions}/events?follow=true&verbose=true")
    );
    let stream = client.stream_agent_logs(id, false, false);
    assert_eq!(stream.url, format!("http://localhost:8088{agent}/events?follow=false"));
    assert_eq!(stream.not_sent, "Failed to connect to agent event stream");
}
