use aegis_daemon::handlers::agents::{
    agent_stream_options, authorize_change, change_reply, check_version, deploy_agent_reply,
    change_agent_step, deploy_target, execute_agent, execute_agent_reply, get_agent_reply,
    list_agents, list_agents_reply, lookup_agent_reply, update_agent_scope,
    update_agent_scope_reply, AgentChange, AgentRow, AgentScopeOutcome, ChangeAction, ChangeEvent,
    ExecuteAction, ExecuteAgentRequest, ExecuteEvent,
};
use aegis_daemon::handlers::executions::{
    end_execution_reply, execution_stream_options, get_execution_reply, list_executions_limit,
    ExecutionRow, ListExecutionsAction, ListExecutionsEvent, ListExecutionsRequest,
};
use aegis_daemon::handlers::scope::{
    authorized, build_roles, effective_tenant, listing, requested_scope, scope_requester,
    start_error_status, stream_options, target_scope, Listing, Scope,
};
use aegis_daemon::handlers::workflows::{
    delete_workflow_step, execution_tenant, get_workflow_reply, list_workflow_versions_reply,
    list_workflows, list_workflows_reply, register_reply, register_target, run_workflow_legacy,
    scope_lookup_reply, start_reply, update_workflow_scope, update_workflow_scope_reply,
    workflow_ref, workflow_ref_of, DeleteAction, DeleteEvent, ScopeChangeOutcome, WorkflowRef,
    WorkflowRow, WorkflowScopeAction, WorkflowScopeEvent, WorkflowScopeRequest,
};
use aegis_daemon::http::Reply;
use aegis_daemon::identity::{AegisRole, IdentityKind, TenantId, UserIdentity, ZaruTier};
use aegis_daemon::json::Json;

fn lib_json(value: &serde_json::Value) -> Json {
    aegis_daemon::json_value::read_value(value)
}

fn json(text: &str) -> Json {
    lib_json(&serde_json::from_str(text).expect("valid JSON"))
}

fn value_of(json: &Json) -> serde_json::Value {
    match json {
        Json::Null => serde_json::Value::Null,
        Json::Bool(b) => serde_json::Value::from(*b),
        Json::Int(n) => match (i64::try_from(*n), u64::try_from(*n)) {
            (Ok(i), _) => serde_json::Value::from(i),
            (_, Ok(u)) => serde_json::Value::from(u),
            _ => panic!("the number does not fit"),
        },
        Json::Real(text) => serde_json::from_str(text).expect("a number"),
        Json::Str(s) => serde_json::Value::from(s.as_str()),
        Json::Arr(items) => serde_json::Value::from(items.iter().map(value_of).collect::<Vec<_>>()),
        Json::Obj(members) => {
            let mut out = serde_json::Map::new();
            for (key, value) in members {
                out.insert(key.clone(), value_of(value));
            }
            serde_json::Value::from(out)
        }
    }
}

/// Checks a reply's status and its body, whatever the order of the members.
fn check(reply: &Reply, status: u16, body: &str) {
    assert_eq!(reply.status, status);
    let expected: serde_json::Value = serde_json::from_str(body).expect("valid JSON");
    assert_eq!(value_of(reply.body.as_ref().expect("a body")), expected);
}

fn caller(identity_kind: IdentityKind) -> UserIdentity {
    UserIdentity {
        sub: "user-1".to_string(),
        realm_slug: "r".to_string(),
        email: None,
        name: None,
        identity_kind,
    }
}

fn consumer() -> UserIdentity {
    caller(IdentityKind::ConsumerUser {
        zaru_tier: ZaruTier::Free,
        tenant_id: TenantId::new("u-1"),
    })
}

fn operator(aegis_role: AegisRole) -> UserIdentity {
    caller(IdentityKind::Operator { aegis_role })
}

fn service_account() -> UserIdentity {
    caller(IdentityKind::ServiceAccount { client_id: "aegis-sdk".to_string() })
}

fn default_tenant() -> TenantId {
    TenantId::new("d")
}

#[test]
fn scopes_are_read_back_by_name() {
    for scope in [Scope::Global, Scope::Tenant] {
        let body = Json::object().with("target_scope", Json::text(scope.as_str()));
        assert_eq!(target_scope(&body), Ok(scope));
    }
    check(
        &target_scope(&json("{}")).unwrap_err(),
        400,
        r#"{"error": "missing 'target_scope' field"}"#,
    );
    check(
        &target_scope(&json(r#"{"target_scope": "user"}"#)).unwrap_err(),
        400,
        r#"{"error": "invalid scope: 'user'. Valid values: global, tenant"}"#,
    );
    assert_eq!(requested_scope(Some("global")), Scope::Global);
    assert_eq!(requested_scope(Some("x")), Scope::Tenant);
    assert_eq!(effective_tenant(Scope::Global, default_tenant()), TenantId::system());
    assert_eq!(effective_tenant(Scope::Tenant, default_tenant()), default_tenant());
}

#[test]
fn only_operators_change_what_is_global() {
    assert_eq!(build_roles(Some(&consumer())), vec!["user".to_string()]);
    assert_eq!(build_roles(Some(&service_account())), vec!["aegis:operator".to_string()]);
    assert_eq!(build_roles(None), vec!["aegis:operator".to_string()]);
    assert!(!authorized(Scope::Global, &build_roles(Some(&consumer()))));
    assert!(authorized(Scope::Tenant, &build_roles(Some(&consumer()))));
    assert!(authorized(Scope::Global, &build_roles(Some(&operator(AegisRole::Admin)))));
    assert!(authorized(Scope::Global, &build_roles(Some(&operator(AegisRole::Operator)))));
    assert!(!authorized(Scope::Global, &build_roles(Some(&operator(AegisRole::Readonly)))));
    let requester = scope_requester(Some(&consumer()), default_tenant());
    assert_eq!(requester.user_id, "user-1");
    assert_eq!(requester.roles, vec!["user".to_string()]);
    assert_eq!(requester.tenant_id, default_tenant());
    assert_eq!(scope_requester(None, default_tenant()).user_id, "");
}

#[test]
fn listings_and_streams_have_their_defaults() {
    assert_eq!(listing(Some("global"), Some(false), false), Listing::Global);
    assert_eq!(listing(None, Some(true), false), Listing::Visible);
    assert_eq!(list_workflows(None, None), Listing::Owned);
    let agents = |scope: Option<&str>, visible| {
        let (listing, tenant) = list_agents(scope, visible, Some(&consumer()), None, &default_tenant());
        (listing, tenant.as_str().to_string())
    };
    assert_eq!(agents(None, None).0, Listing::Visible);
    assert_eq!(agents(None, Some(false)).0, Listing::Owned);
    assert_eq!(agents(Some("global"), None), (Listing::Global, "aegis-system".to_string()));
    assert_ne!(agents(None, None).1, "aegis-system");
    assert_eq!(stream_options(Some("false"), Some("true"), true), (false, true));
    assert_eq!(execution_stream_options(None, None), (true, false));
    assert_eq!(agent_stream_options(None, None), (false, false));
    assert_eq!(agent_stream_options(Some("yes"), Some("1")), (true, false));
    assert_eq!(start_error_status("InvalidExecutionInput: x", 400), 422);
    assert_eq!(start_error_status("x", 400), 400);
}

fn workflow() -> WorkflowRow {
    WorkflowRow {
        id: "w-1".to_string(),
        name: "wf".to_string(),
        version: Json::text("1.0"),
        description: Json::Null,
        scope: Scope::Tenant,
        labels: Json::object(),
        created_at: 0,
        updated_at: Some(1_000_001_000),
        tenant_id: TenantId::new("u-1"),
        input_schema: Json::Null,
    }
}

#[test]
fn workflows_are_registered_where_they_are_asked_for() {
    let (tenant, scope) = register_target(Some("global"), Some(&consumer()), &default_tenant());
    assert_eq!((tenant, scope), (TenantId::system(), Scope::Global));
    let (tenant, scope) = register_target(None, Some(&consumer()), &default_tenant());
    assert_eq!((tenant, scope), (TenantId::new("u-1"), Scope::Tenant));
    check(&register_reply(Ok(json("{}"))), 200, "{}");
    check(
        &register_reply(Err("x".to_string())),
        400,
        r#"{"error": "Failed to register workflow: x"}"#,
    );
}

#[test]
fn a_run_starts_for_the_caller_s_tenant() {
    let request = run_workflow_legacy(
        "wf".to_string(),
        Some("1".to_string()),
        Json::Null,
        None,
        None,
        Some(&consumer()),
        Some("ctx".to_string()),
        &default_tenant(),
    );
    assert_eq!(request.workflow_id, "wf");
    assert_eq!(request.version, Some("1".to_string()));
    assert_eq!(request.security_context_name, Some("ctx".to_string()));
    assert_eq!(
        execution_tenant(&request, None, &default_tenant()),
        TenantId::new("u-1")
    );
    let mut request = request;
    request.tenant_id = None;
    assert_eq!(execution_tenant(&request, None, &default_tenant()), default_tenant());
    check(
        &start_reply(Err("InvalidExecutionInput".to_string())),
        422,
        r#"{"error": "Failed to start workflow execution: InvalidExecutionInput"}"#,
    );
    assert_eq!(start_reply(Err("x".to_string())).status, 400);
}

#[test]
fn workflows_are_shown() {
    check(
        &list_workflows_reply(&vec![(workflow(), Some(3))]),
        200,
        r#"[{"id": "w-1", "name": "wf", "version": "1.0", "description": null,
            "scope": "tenant", "status": "active", "labels": {}, "created_at": "1970-01-01T00:00:00+00:00",
            "updated_at": "1970-01-01T00:00:01.000001+00:00", "tenant_id": "u-1", "input_schema": null,
            "execution_count": 3}]"#,
    );
    check(
        &get_workflow_reply("wf", Some((&workflow(), None))),
        200,
        r#"{"id": "w-1", "name": "wf", "version": "1.0", "description": null,
            "scope": "tenant", "labels": {}, "created_at": "1970-01-01T00:00:00+00:00",
            "updated_at": "1970-01-01T00:00:01.000001+00:00", "tenant_id": "u-1", "input_schema": null,
            "manifest_yaml": ""}"#,
    );
    check(
        &get_workflow_reply("wf", None),
        404,
        r#"{"error": "Workflow 'wf' not found"}"#,
    );
    check(
        &list_workflow_versions_reply(Ok(vec![workflow()])),
        200,
        r#"[{"id": "w-1", "name": "wf", "version": "1.0", "description": null,
            "scope": "tenant", "created_at": "1970-01-01T00:00:00+00:00", "tenant_id": "u-1"}]"#,
    );
    assert_eq!(list_workflow_versions_reply(Err("x".to_string())).status, 500);
}

#[test]
fn a_removal_is_published_once_it_was_done() {
    assert!(matches!(delete_workflow_step(DeleteEvent::Begun), DeleteAction::FindWorkflow));
    assert!(matches!(
        delete_workflow_step(DeleteEvent::Found(None)),
        DeleteAction::Answer(reply) if reply.status == 404
    ));
    assert!(matches!(
        delete_workflow_step(DeleteEvent::Found(Some((3, "wf".to_string())))),
        DeleteAction::Delete { workflow_id: 3, workflow_name } if workflow_name == "wf"
    ));
    let deleted = |failure: Option<&str>| DeleteEvent::Deleted {
        workflow_id: 3,
        workflow_name: "wf".to_string(),
        failure: failure.map(|f| f.to_string()),
    };
    assert!(matches!(
        delete_workflow_step(deleted(None)),
        DeleteAction::Publish { workflow_id: 3, reply, .. } if reply.status == 200
    ));
    assert!(matches!(
        delete_workflow_step(deleted(Some("x"))),
        DeleteAction::Answer(reply) if reply == Reply::error(500, "x")
    ));
}

#[test]
fn a_workflow_is_named_by_id_or_name() {
    let id = uuid::Uuid::new_v4();
    assert!(matches!(workflow_ref(&id.to_string()), WorkflowRef::Id(n) if n == id.as_u128()));
    assert!(matches!(workflow_ref("wf"), WorkflowRef::Name(n) if n == "wf"));
    assert!(matches!(workflow_ref_of("wf", Some(3)), WorkflowRef::Id(3)));
    let body = json(r#"{"target_scope": "global"}"#);
    let (scope, name) = update_workflow_scope(&body, "wf").ok().unwrap();
    assert_eq!(scope, Scope::Global);
    assert!(matches!(name, WorkflowRef::Name(_)));
    assert!(update_workflow_scope(&json("{}"), "wf").is_err());
    check(&scope_lookup_reply("wf", None), 404, r#"{"error": "workflow 'wf' not found"}"#);
    assert_eq!(scope_lookup_reply("wf", Some("x")).status, 500);
}

#[test]
fn scope_changes_are_answered() {
    let answer =
        |outcome| update_workflow_scope_reply("w-1", Scope::Tenant, Scope::Global, outcome);
    check(
        &answer(ScopeChangeOutcome::Changed),
        200,
        r#"{"workflow_id": "w-1", "previous_scope": "tenant", "new_scope": "global"}"#,
    );
    check(
        &answer(ScopeChangeOutcome::NameCollision {
            existing_id: "w-2".to_string(),
            name: "wf".to_string(),
            version: "1.0".to_string(),
        }),
        409,
        r#"{"error": "Name collision: workflow 'wf' v1.0 already exists at target scope",
            "existing_id": "w-2"}"#,
    );
    check(
        &answer(ScopeChangeOutcome::Unauthorized { reason: "no".to_string() }),
        403,
        r#"{"error": "no"}"#,
    );
    check(
        &answer(ScopeChangeOutcome::Failed { message: "x".to_string() }),
        400,
        r#"{"error": "x"}"#,
    );
}

fn agent() -> AgentRow {
    AgentRow {
        id: "a-1".to_string(),
        name: "ag".to_string(),
        version: "1.0".to_string(),
        description: None,
        status: "Active".to_string(),
        labels: Json::object(),
        scope: Scope::Global,
        created_at: 0,
        updated_at: 2_000_000_000,
        tenant_id: TenantId::system(),
        input_schema: None,
    }
}

#[test]
fn agents_are_deployed_where_they_are_asked_for() {
    let (tenant, scope) =
        deploy_target(None, Some(&service_account()), Some("u-9"), &default_tenant());
    assert_eq!((tenant, scope), (TenantId::new("u-9"), Scope::Tenant));
    let (tenant, _) =
        deploy_target(Some("global"), Some(&service_account()), Some("u-9"), &default_tenant());
    assert_eq!(tenant, TenantId::system());
    check(&deploy_agent_reply(Ok("a-1".to_string())), 200, r#"{"agent_id": "a-1"}"#);
    assert_eq!(deploy_agent_reply(Err("x".to_string())).status, 500);
}

#[test]
fn a_pinned_version_has_to_match() {
    assert!(check_version(None, Err("x")).is_none());
    assert!(check_version(Some("1.0"), Ok("1.0")).is_none());
    check(
        &check_version(Some("2.0"), Ok("1.0")).unwrap(),
        409,
        r#"{"error": "Version mismatch: requested '2.0' but agent has '1.0'"}"#,
    );
    assert_eq!(check_version(Some("2.0"), Err("gone")).unwrap().status, 404);
}

#[test]
fn an_execution_carries_its_tenant() {
    let start = execute_agent(json("1"), None, None, &TenantId::new("u-1"), None);
    assert_eq!(start.security_context_name, "aegis-system-operator");
    assert_eq!(
        value_of(&start.input),
        value_of(&json(r#"{"input": 1, "context_overrides": null, "tenant_id": "u-1"}"#))
    );
    let start =
        execute_agent(json("1"), None, None, &TenantId::new("u-1"), Some("ctx".to_string()));
    assert_eq!(start.security_context_name, "ctx");
    assert_eq!(execute_agent_reply(Err("InvalidExecutionInput".to_string())).status, 422);
    assert_eq!(execute_agent_reply(Err("x".to_string())).status, 500);
    check(&execute_agent_reply(Ok("e".to_string())), 200, r#"{"execution_id": "e"}"#);
}

#[test]
fn agents_are_shown() {
    let base = r#""id": "a-1", "name": "ag", "version": "1.0", "description": "",
        "status": "active", "labels": {}, "scope": "global", "created_at": "1970-01-01T00:00:00+00:00",
        "updated_at": "1970-01-01T00:00:02+00:00", "tenant_id": "aegis-system""#;
    check(
        &list_agents_reply(Ok(vec![(agent(), None)])),
        200,
        &format!(r#"[{{{base}, "execution_count": 0}}]"#),
    );
    let mut with_schema = agent();
    with_schema.input_schema = Some(json("{}"));
    check(
        &get_agent_reply(Ok((with_schema, Json::Null, "y".to_string()))),
        200,
        &format!(r#"{{{base}, "manifest": null, "manifest_yaml": "y", "input_schema": {{}}}}"#),
    );
    check(&list_agents_reply(Err("x".to_string())), 200, r#"{"error": "x"}"#);
    check(&lookup_agent_reply(Ok(Some("a-1".to_string()))), 200, r#"{"id": "a-1"}"#);
    assert_eq!(lookup_agent_reply(Ok(None)).status, 404);
    assert_eq!(lookup_agent_reply(Err("x".to_string())).status, 500);
}

#[test]
fn users_do_not_change_global_agents() {
    let user = consumer();
    assert!(authorize_change(AgentChange::Update, Some(Scope::Tenant), Some(&user)).is_ok());
    check(
        &authorize_change(AgentChange::Delete, Some(Scope::Global), Some(&user)).unwrap_err(),
        403,
        r#"{"error": "Unauthorized: insufficient permissions to delete this agent"}"#,
    );
    assert_eq!(authorize_change(AgentChange::Update, None, None).unwrap_err().status, 404);
    assert_eq!(change_reply(None).status, 200);
    assert_eq!(change_reply(Some("x")).status, 500);
    let answer = |outcome| update_agent_scope_reply(Scope::Global, outcome);
    check(
        &answer(AgentScopeOutcome::Changed),
        200,
        r#"{"success": true, "new_scope": "global"}"#,
    );
    check(
        &answer(AgentScopeOutcome::InvalidTransition {
            from: "a".to_string(),
            to: "b".to_string(),
        }),
        400,
        r#"{"error": "invalid transition from 'a' to 'b': must traverse through Tenant"}"#,
    );
    check(
        &answer(AgentScopeOutcome::NameCollision { name: "n".to_string() }),
        409,
        r#"{"error": "name collision: agent 'n' already exists at target scope"}"#,
    );
    assert_eq!(answer(AgentScopeOutcome::NotFound).status, 404);
    assert_eq!(
        answer(AgentScopeOutcome::Unauthorized { reason: "r".to_string() }).status,
        403
    );
    assert_eq!(answer(AgentScopeOutcome::Failed { message: "m".to_string() }).status, 500);
}

fn execution() -> ExecutionRow {
    ExecutionRow {
        id: "e-1".to_string(),
        agent_id: "a-1".to_string(),
        status: "Running".to_string(),
        started_at: Json::text("s"),
        ended_at: Json::Null,
    }
}

#[test]
fn executions_are_shown_and_limited() {
    check(
        &get_execution_reply(Ok(execution())),
        200,
        r#"{"id": "e-1", "agent_id": "a-1", "status": "Running"}"#,
    );
    let request = |name: Option<&str>| {
        ListExecutionsRequest::start(name.map(|n| n.to_string()), Some(50), Some(30))
    };
    let answer = |action| match action {
        ListExecutionsAction::Answer(reply) => reply,
        _ => panic!("an answer"),
    };
    check(
        &answer(request(None).step(ListExecutionsEvent::Listed(Ok(vec![execution()])))),
        200,
        r#"[{"id": "e-1", "agent_id": "a-1", "status": "Running", "started_at": "s",
            "ended_at": null}]"#,
    );
    check(&get_execution_reply(Err("x".to_string())), 200, r#"{"error": "x"}"#);
    assert_eq!(end_execution_reply(None).status, 200);
    assert_eq!(list_executions_limit(None, None), 20);
    assert_eq!(list_executions_limit(Some(5000), None), 1000);
    assert_eq!(list_executions_limit(Some(50), Some(30)), 30);
    assert!(matches!(
        request(None).step(ListExecutionsEvent::Begun),
        ListExecutionsAction::List { workflow: None, limit: 30 }
    ));
    assert!(matches!(
        request(Some("wf")).step(ListExecutionsEvent::Begun),
        ListExecutionsAction::FindWorkflow { name } if name == "wf"
    ));
    let found = |found| request(Some("wf")).step(ListExecutionsEvent::WorkflowFound(found));
    assert!(matches!(
        found(Ok(Some(3))),
        ListExecutionsAction::List { workflow: Some(3), limit: 30 }
    ));
    check(&answer(found(Err("x".to_string()))), 200, r#"{"error": "x"}"#);
    check(
        &answer(found(Ok(None))),
        200,
        r#"{"error": "Workflow 'wf' not found"}"#,
    );
}

#[test]
fn an_agent_runs_in_the_version_that_is_asked_for() {
    let request = |version: Option<&str>| ExecuteAgentRequest {
        version: version.map(|v| v.to_string()),
        input: Json::text("go"),
        intent: Some("why".to_string()),
        context_overrides: None,
        tenant_id: TenantId::new("u-1"),
        security_context_name: None,
    };
    let start = |action| match action {
        ExecuteAction::Start(start) => start,
        _ => panic!("a start"),
    };
    let order = start(request(None).step(ExecuteEvent::Begun));
    assert_eq!(order.security_context_name, "aegis-system-operator");
    assert_eq!(order.input.get_str("tenant_id"), Some("u-1"));
    assert_eq!(order.input.get("context_overrides"), Some(&Json::Null));
    let held = request(Some("2.0"));
    assert!(matches!(held.step(ExecuteEvent::Begun), ExecuteAction::FindVersion));
    let found = |v: Result<&str, &str>| {
        held.step(ExecuteEvent::VersionFound(match v {
            Ok(v) => Ok(v.to_string()),
            Err(e) => Err(e.to_string()),
        }))
    };
    assert_eq!(start(found(Ok("2.0"))).intent, Some("why".to_string()));
    match found(Ok("1.0")) {
        ExecuteAction::Answer(reply) => check(
            &reply,
            409,
            r#"{"error": "Version mismatch: requested '2.0' but agent has '1.0'"}"#,
        ),
        _ => panic!("an answer"),
    }
    assert!(matches!(found(Err("gone")), ExecuteAction::Answer(reply) if reply.status == 404));
    let started = held.step(ExecuteEvent::Started(Ok("e-1".to_string())));
    assert!(matches!(started, ExecuteAction::Answer(reply) if reply.status == 200));
}

#[test]
fn agents_are_found_before_they_are_changed() {
    let step = |caller: Option<&UserIdentity>, event| {
        change_agent_step(AgentChange::Delete, caller, event)
    };
    assert!(matches!(step(None, ChangeEvent::Begun), ChangeAction::FindAgent));
    assert!(matches!(
        step(None, ChangeEvent::AgentFound(None)),
        ChangeAction::Answer(reply) if reply.status == 404
    ));
    assert!(matches!(
        step(Some(&consumer()), ChangeEvent::AgentFound(Some(Scope::Global))),
        ChangeAction::Answer(reply) if reply.status == 403
    ));
    assert!(matches!(
        step(Some(&consumer()), ChangeEvent::AgentFound(Some(Scope::Tenant))),
        ChangeAction::Make
    ));
    assert!(matches!(
        step(None, ChangeEvent::Made(Err("x".to_string()))),
        ChangeAction::Answer(reply) if reply.status == 500
    ));
    let body = json(r#"{"target_scope": "global"}"#);
    let (wanted, requester) =
        update_agent_scope(&body, Some(&consumer()), None, &default_tenant()).ok().unwrap();
    assert_eq!(wanted, Scope::Global);
    assert_eq!(requester.roles, vec!["user".to_string()]);
    assert!(update_agent_scope(&Json::Null, None, None, &default_tenant()).is_err());
}

#[test]
fn the_scope_of_a_workflow_is_changed_once_it_is_found() {
    let body = json(r#"{"target_scope": "global"}"#);
    let mut request =
        WorkflowScopeRequest::start(&body, "wf".to_string()).ok().expect("a request");
    assert!(matches!(&request.which, WorkflowRef::Name(name) if name == "wf"));
    assert!(matches!(request.step(WorkflowScopeEvent::Begun), WorkflowScopeAction::FindWorkflow));
    let found = Ok(Some(("w-1".to_string(), Scope::Tenant)));
    assert!(matches!(
        request.step(WorkflowScopeEvent::WorkflowFound(found)),
        WorkflowScopeAction::ChangeScope { workflow_id, wanted: Scope::Global }
            if workflow_id == "w-1"
    ));
    match request.step(WorkflowScopeEvent::Changed(ScopeChangeOutcome::Changed)) {
        WorkflowScopeAction::Answer(reply) => check(
            &reply,
            200,
            r#"{"workflow_id": "w-1", "previous_scope": "tenant", "new_scope": "global"}"#,
        ),
        _ => panic!("an answer"),
    }
    match request.step(WorkflowScopeEvent::WorkflowFound(Ok(None))) {
        WorkflowScopeAction::Answer(reply) => {
            check(&reply, 404, r#"{"error": "workflow 'wf' not found"}"#)
        }
        _ => panic!("an answer"),
    }
    assert!(matches!(
        request.step(WorkflowScopeEvent::WorkflowFound(Err("x".to_string()))),
        WorkflowScopeAction::Answer(reply) if reply.status == 500
    ));
    assert!(WorkflowScopeRequest::start(&json("{}"), "wf".to_string()).is_err());
}
