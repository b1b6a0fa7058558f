use aegis_daemon::handlers::canvas::{
    begin_canvas, begin_canvas_with, canvas_error_response, canvas_event_stream, canvas_reply,
    CanvasAsk, CanvasCall, CanvasDone, CanvasError, CanvasEventKind, CanvasRefusal, CanvasSession,
    CreateCanvasSessionRequest, StreamAction, StreamInput, WorkspaceMode,
};
use aegis_daemon::handlers::credential_requests::{
    begin, begin_secret_write, begin_with, BodyFlaw, CredentialAsk, CredentialCall, CredentialIds,
};
use aegis_daemon::handlers::credentials::{
    bad_body_reply, credential_scope_of, device_poll_reply, done_reply, get_credential_reply,
    get_secret_reply, grant_target_of, list_credentials_reply, list_grants_reply, list_secrets,
    oauth_callback_reply, oauth_initiate_reply, parse_binding_id, parse_credential_scope,
    parse_grant_id, parse_grant_target, parse_provider, require_credential_scope,
    require_operator_or_admin, secret_fields, stored_reply, CredentialProvider,
    CredentialScope, GrantTarget, SecretRead, field_of,
};
use aegis_daemon::handlers::git_repo::{
    begin_git, commit_author, create_git_repo, default_shallow, detect_webhook_auth,
    git_repo_error_response, git_repo_reply, redacted_binding, webhook_git_repo,
    CreateGitRepoRequest, GitAsk, GitCall, GitDone, GitRef, GitRefDto, GitRepoBinding,
    GitRepoError, WebhookProvider,
};
use aegis_daemon::handlers::permissions::{required_permission, Operation};
use aegis_daemon::handlers::request_owner;
use aegis_daemon::handlers::script::{
    begin_script, create_script, list_scripts_reply, require_private_visibility, script_dto,
    script_error_response, script_reply, update_script, Script, ScriptAsk, ScriptCall, ScriptDone,
    ScriptNext, ScriptRequestBody, ScriptServiceError, ScriptVersion,
};
use aegis_daemon::http::Reply;
use aegis_daemon::identity::{AegisRole, IdentityKind, TenantId, UserIdentity, ZaruTier};
use aegis_daemon::json::Json;

fn lib_json(value: &serde_json::Value) -> Json {
    aegis_daemon::json_value::read_value(value)
}

fn json(text: &str) -> Json {
    lib_json(&serde_json::from_str(text).expect("valid JSON"))
}

fn value_of(json: &Json) -> serde_json::Value {
    match json {
        Json::Null => serde_json::Value::Null,
        Json::Bool(b) => serde_json::Value::from(*b),
        Json::Int(n) => match (i64::try_from(*n), u64::try_from(*n)) {
            (Ok(i), _) => serde_json::Value::from(i),
            (_, Ok(u)) => serde_json::Value::from(u),
            _ => panic!("the number does not fit"),
        },
        Json::Real(text) => serde_json::from_str(text).expect("a number"),
        Json::Str(s) => serde_json::Value::from(s.as_str()),
        Json::Arr(items) => serde_json::Value::from(items.iter().map(value_of).collect::<Vec<_>>()),
        Json::Obj(members) => {
            let mut out = serde_json::Map::new();
            for (key, value) in members {
                out.insert(key.clone(), value_of(value));
            }
            serde_json::Value::from(out)
        }
    }
}

/// Checks a reply's status and its body, whatever the order of the members.
fn check(reply: &Reply, status: u16, body: &str) {
    assert_eq!(reply.status, status);
    let expected: serde_json::Value = serde_json::from_str(body).expect("valid JSON");
    assert_eq!(value_of(reply.body.as_ref().expect("a body")), expected);
}

fn caller(email: Option<&str>, identity_kind: IdentityKind) -> UserIdentity {
    UserIdentity {
        sub: "user-1".to_string(),
        realm_slug: "r".to_string(),
        email: email.map(|e| e.to_string()),
        name: None,
        identity_kind,
    }
}

fn consumer() -> UserIdentity {
    caller(
        Some("ada@example.com"),
        IdentityKind::ConsumerUser {
            zaru_tier: ZaruTier::Pro,
            tenant_id: TenantId::new("u-1"),
        },
    )
}

fn operator(aegis_role: AegisRole) -> UserIdentity {
    caller(None, IdentityKind::Operator { aegis_role })
}

fn default_tenant() -> TenantId {
    TenantId::new("d")
}

#[test]
fn credentials_are_for_users_and_secrets_for_operators() {
    let user = consumer();
    let admin = operator(AegisRole::Admin);
    let (sub, tenant) = require_credential_scope(Some(&user)).unwrap();
    assert_eq!((sub.as_str(), tenant.as_str()), ("user-1", "u-1"));
    assert_eq!(require_credential_scope(Some(&admin)).unwrap_err().status, 403);
    assert_eq!(require_credential_scope(None).unwrap_err().status, 401);
    assert_eq!(require_operator_or_admin(Some(&admin)).unwrap(), "user-1");
    assert_eq!(require_operator_or_admin(Some(&user)).unwrap_err().status, 403);
    assert!(require_operator_or_admin(Some(&operator(AegisRole::Readonly))).is_err());
    assert_eq!(list_secrets(Some(&admin)).status, 501);
    assert_eq!(list_secrets(Some(&user)).status, 403);
    let stray = caller(
        None,
        IdentityKind::TenantUser { tenant_slug: "bad slug".to_string(), tenant: None },
    );
    assert_eq!(require_credential_scope(Some(&stray)).unwrap_err().status, 500);
}

#[test]
fn providers_scopes_and_targets_are_read() {
    let id = uuid::Uuid::new_v4();
    assert!(matches!(parse_provider("openai"), Ok(CredentialProvider::OpenAI)));
    assert!(matches!(parse_provider("anthropic"), Ok(CredentialProvider::Anthropic)));
    assert!(matches!(parse_provider("github"), Ok(CredentialProvider::GitHub)));
    assert!(matches!(
        parse_provider("google_workspace"),
        Ok(CredentialProvider::GoogleWorkspace)
    ));
    assert!(matches!(parse_provider("x"), Ok(CredentialProvider::Custom(name)) if name == "x"));
    assert!(parse_provider("").is_err());
    assert_eq!(parse_credential_scope(None), Ok(CredentialScope::Personal));
    assert_eq!(parse_credential_scope(Some("personal")), Ok(CredentialScope::Personal));
    assert_eq!(
        parse_credential_scope(Some(&format!("team:{id}"))),
        Ok(CredentialScope::Team { team_id: id.as_u128() })
    );
    assert_eq!(
        credential_scope_of(Some("team:x"), Some(4)),
        Ok(CredentialScope::Team { team_id: 4 })
    );
    check(
        &parse_credential_scope(Some("team:x")).unwrap_err(),
        400,
        r#"{"error": "Invalid team UUID in scope: x"}"#,
    );
    check(
        &parse_credential_scope(Some("org")).unwrap_err(),
        400,
        r#"{"error": "Invalid scope: org. Expected 'personal' or 'team:<uuid>'"}"#,
    );
    assert_eq!(parse_grant_target("all_agents", None), Ok(GrantTarget::AllAgents));
    assert_eq!(
        parse_grant_target("agent", Some(&id.to_string())),
        Ok(GrantTarget::Agent { agent_id: id.as_u128() })
    );
    assert_eq!(
        grant_target_of("workflow", Some("x"), Some(9)),
        Ok(GrantTarget::Workflow { workflow_id: 9 })
    );
    check(
        &parse_grant_target("agent", None).unwrap_err(),
        400,
        r#"{"error": "target_value is required for agent grants"}"#,
    );
    check(
        &parse_grant_target("workflow", Some("x")).unwrap_err(),
        400,
        r#"{"error": "Invalid workflow UUID: x"}"#,
    );
    assert!(parse_grant_target("team", None).is_err());
    assert_eq!(parse_binding_id(&id.to_string()), Ok(id.as_u128()));
    check(
        &parse_binding_id("x").unwrap_err(),
        400,
        r#"{"error": "Invalid credential binding ID: x"}"#,
    );
    check(&parse_grant_id("x").unwrap_err(), 400, r#"{"error": "Invalid grant ID: x"}"#);
}

fn owner() -> UserIdentity {
    UserIdentity {
        sub: "owner-1".to_string(),
        realm_slug: "zaru-consumer".to_string(),
        email: None,
        name: None,
        identity_kind: IdentityKind::ConsumerUser {
            zaru_tier: ZaruTier::Pro,
            tenant_id: TenantId::new("u-owner1"),
        },
    }
}

fn root() -> UserIdentity {
    UserIdentity {
        sub: "op-1".to_string(),
        realm_slug: "aegis-system".to_string(),
        email: None,
        name: None,
        identity_kind: IdentityKind::Operator { aegis_role: AegisRole::Admin },
    }
}

#[test]
fn credential_requests_are_refused_in_order() {
    let rotate =
        |id: &str| CredentialAsk::Rotate { id: id.to_string(), value: "new".to_string() };
    let flaw = || Some(BodyFlaw::Malformed("eof".to_string()));
    let id = uuid::Uuid::from_u128(5).to_string();
    let refused = |caller: Option<&UserIdentity>, ask, flaw, configured| {
        begin(caller, ask, flaw, configured).err().unwrap()
    };
    assert_eq!(refused(None, rotate("x"), flaw(), false).status, 401);
    assert_eq!(refused(Some(&root()), rotate("x"), flaw(), false).status, 403);
    check(
        &refused(Some(&owner()), rotate("x"), flaw(), false),
        400,
        r#"{"error": "Invalid credential binding ID: x"}"#,
    );
    check(
        &refused(Some(&owner()), rotate(&id), flaw(), false),
        400,
        r#"{"error": "Invalid JSON: eof"}"#,
    );
    check(
        &refused(Some(&owner()), rotate(&id), Some(BodyFlaw::Unreadable), false),
        400,
        r#"{"error": "Invalid request body"}"#,
    );
    assert_eq!(refused(Some(&owner()), rotate(&id), None, false).status, 503);
    assert!(matches!(
        begin(Some(&owner()), rotate(&id), None, true),
        Ok(CredentialCall::Rotate { id: 5, value }) if value == "new"
    ));
    // A request without a body has no flawed one.
    assert!(begin(Some(&owner()), CredentialAsk::List, flaw(), true).is_ok());
    // Whoever a provider sends back need not be known.
    let callback =
        || CredentialAsk::OauthCallback { state: "st".to_string(), code: "co".to_string() };
    assert!(matches!(
        begin(None, callback(), None, true),
        Ok(CredentialCall::OauthComplete { state, code }) if state == "st" && code == "co"
    ));
    assert_eq!(refused(None, callback(), None, false).status, 503);
    let poll = || CredentialAsk::DevicePoll { device_code: "dev".to_string() };
    assert_eq!(refused(None, poll(), None, true).status, 401);
    assert!(matches!(
        begin(Some(&owner()), poll(), None, true),
        Ok(CredentialCall::OauthComplete { state, code })
            if state == "dev" && code == "device_flow"
    ));
    let initiate = CredentialAsk::OauthInitiate {
        provider: "openai".to_string(),
        redirect_uri: "https://back".to_string(),
    };
    assert!(matches!(
        begin(Some(&owner()), initiate, None, true),
        Ok(CredentialCall::OauthInitiate { redirect_uri, .. }) if redirect_uri == "https://back"
    ));
    let grant = CredentialAsk::RevokeGrant { id, grant_id: "g".to_string() };
    check(
        &refused(Some(&owner()), grant, None, true),
        400,
        r#"{"error": "Invalid grant ID: g"}"#,
    );
}

#[test]
fn grants_are_made_in_the_name_of_their_giver() {
    let ask = |value: Option<&str>| CredentialAsk::AddGrant {
        id: "b".to_string(),
        target_type: "agent".to_string(),
        target_value: value.map(|v| v.to_string()),
    };
    let ids = CredentialIds { binding: Some(1), grant: None, team: None, target: Some(2) };
    assert!(matches!(
        begin_with(Some(&owner()), ask(Some("a")), None, ids, true),
        Ok(CredentialCall::AddGrant { id: 1, target: GrantTarget::Agent { agent_id: 2 }, granted_by })
            if granted_by == "owner-1"
    ));
    assert_eq!(begin_with(Some(&owner()), ask(None), None, ids, true).err().unwrap().status, 400);
}

#[test]
fn secrets_are_written_by_operators() {
    let value = |text: &str| -> serde_json::Value { serde_json::from_str(text).unwrap() };
    let data = value(r#"{"a": "x", "n": 3, "o": {"k": [1, null]}}"#);
    let (sub, fields) = begin_secret_write(Some(&root()), None, &data).ok().unwrap();
    assert_eq!(sub, "op-1");
    let field = |k: &str, v: &str| (k.to_string(), v.to_string());
    assert_eq!(
        fields,
        vec![field("a", "x"), field("n", "3"), field("o", r#"{"k":[1,null]}"#)]
    );
    let status = |caller: Option<&UserIdentity>, flaw, data: &serde_json::Value| {
        begin_secret_write(caller, flaw, data).err().unwrap().status
    };
    assert_eq!(status(None, None, &data), 401);
    assert_eq!(status(Some(&owner()), None, &data), 403);
    assert_eq!(status(Some(&root()), Some(BodyFlaw::Unreadable), &data), 400);
    assert_eq!(status(Some(&root()), None, &serde_json::Value::Null), 400);
}

#[test]
fn keys_are_stored_for_a_provider_and_a_scope() {
    let owner = owner();
    let key = |provider: &str, scope: Option<&str>| CredentialAsk::StoreApiKey {
        provider: provider.to_string(),
        label: "mine".to_string(),
        scope: scope.map(|s| s.to_string()),
        value: "sk".to_string(),
        tags: Some(Json::Null),
    };
    let stored = begin(Some(&owner), key("openai", None), None, true).ok().unwrap();
    assert!(matches!(
        stored,
        CredentialCall::StoreApiKey {
            user_id,
            tenant_id,
            provider: CredentialProvider::OpenAI,
            label,
            scope: CredentialScope::Personal,
            value,
            tags: Some(Json::Null),
        } if user_id == "owner-1" && tenant_id.as_str() == "u-owner1" && label == "mine"
            && value == "sk"
    ));
    let status = |ask, flaw, configured| {
        begin(Some(&owner), ask, flaw, configured).err().unwrap().status
    };
    assert_eq!(status(key("", None), None, false), 400);
    assert_eq!(status(key("openai", Some("org")), None, false), 400);
    assert_eq!(status(key("openai", None), None, false), 503);
    let team = format!("team:{}", uuid::Uuid::from_u128(9));
    assert!(matches!(
        begin(Some(&owner), key("x", Some(&team)), None, true),
        Ok(CredentialCall::StoreApiKey { scope: CredentialScope::Team { team_id: 9 }, .. })
    ));
    check(
        &bad_body_reply(Some("eof")),
        400,
        r#"{"error": "Invalid JSON: eof"}"#,
    );
    check(&bad_body_reply(None), 400, r#"{"error": "Invalid request body"}"#);
    check(&stored_reply("id", Ok("b".to_string())), 201, r#"{"id": "b"}"#);
    check(
        &done_reply("revoked", "id", "b", None),
        200,
        r#"{"status": "revoked", "id": "b"}"#,
    );
    check(
        &list_credentials_reply(Ok(vec![Json::Null])),
        200,
        r#"{"credentials": [null], "count": 1}"#,
    );
    assert_eq!(get_credential_reply(Ok(None)).status, 404);
    assert_eq!(list_grants_reply(Ok(None)).status, 404);
    assert_eq!(list_grants_reply(Ok(Some(vec![]))).status, 200);
}

#[test]
fn connections_that_are_not_complete_are_pending() {
    check(
        &oauth_initiate_reply(Ok(("u".to_string(), "s".to_string()))),
        200,
        r#"{"authorization_url": "u", "state": "s"}"#,
    );
    check(
        &oauth_callback_reply(Ok("b".to_string())),
        200,
        r#"{"id": "b", "status": "active"}"#,
    );
    assert_eq!(oauth_callback_reply(Err("state invalid or expired".to_string())).status, 400);
    assert_eq!(oauth_callback_reply(Err("x".to_string())).status, 500);
    check(
        &device_poll_reply("github", Ok("b".to_string())),
        200,
        r#"{"status": "complete", "binding_id": "b"}"#,
    );
    check(
        &device_poll_reply("github", Err("code not found".to_string())),
        202,
        r#"{"status": "pending", "provider": "github"}"#,
    );
    assert_eq!(device_poll_reply("github", Err("x".to_string())).status, 500);
}

#[test]
fn secrets_are_shown_by_their_fields_only() {
    check(
        &get_secret_reply("a/b", SecretRead::Fields(vec![("k".to_string(), "v".to_string())])),
        200,
        r#"{"path": "a/b", "fields": ["k"]}"#,
    );
    check(
        &get_secret_reply("a/b", SecretRead::NotFound),
        404,
        r#"{"error": "Secret not found", "path": "a/b"}"#,
    );
    let value = |text: &str| -> serde_json::Value { serde_json::from_str(text).unwrap() };
    let fields = secret_fields(&value(r#"{"k": "v", "n": 1.5}"#)).ok().unwrap();
    assert_eq!(fields.len(), 2);
    assert_eq!(fields[0].1, "v");
    assert_eq!(fields[1].1, "1.5");
    assert!(secret_fields(&value("[]")).is_err());
    assert_eq!(field_of(&Json::text("as it is"), "\"written\""), "as it is");
    assert_eq!(field_of(&Json::Null, "written"), "written");
}

fn binding() -> GitRepoBinding {
    GitRepoBinding {
        id: "b".to_string(),
        tenant_id: Json::text("u-1"),
        credential_binding_id: None,
        repo_url: "https://r".to_string(),
        git_ref: Json::Null,
        sparse_paths: Json::Null,
        volume_id: "v".to_string(),
        label: "l".to_string(),
        status: Json::Null,
        clone_strategy: Json::Null,
        last_cloned_at: Json::Null,
        last_commit_sha: None,
        auto_refresh: true,
        webhook_secret_ciphertext: Some(vec![1, 2, 3]),
        created_at: Json::Null,
        updated_at: Json::Null,
    }
}

#[test]
fn a_binding_hides_its_webhook_secret() {
    let shown = redacted_binding(&binding());
    assert_eq!(shown.get("webhook_secret_set"), Some(&Json::Bool(true)));
    assert!(shown.get("webhook_secret_ciphertext").is_none());
    let (reply, cloned) = git_repo_reply(Ok(GitDone::Created(binding())));
    assert_eq!((reply.status, cloned), (201, Some("b".to_string())));
    let (reply, cloned) = git_repo_reply(Ok(GitDone::Found(binding())));
    assert_eq!((reply.status, reply.body, cloned), (200, Some(shown), None));
    let (reply, _) = git_repo_reply(Ok(GitDone::Listed(vec![binding()])));
    assert_eq!(reply.body, Some(Json::Arr(vec![redacted_binding(&binding())])));
}

#[test]
fn repositories_are_reached_by_their_owner_alone() {
    let user = consumer();
    let begin = |ask| begin_git(ask, Some(&user), &default_tenant(), true).ok().unwrap();
    assert!(matches!(
        begin(GitAsk::List),
        GitCall::List { owner } if owner.sub == "user-1" && owner.tenant_id.as_str() == "u-1"
    ));
    assert!(matches!(begin(GitAsk::Get { id: 3 }), GitCall::Get { id: 3, owner } if owner.sub == "user-1"));
    assert!(matches!(begin(GitAsk::Delete { id: 3 }), GitCall::Delete { id: 3, .. }));
    assert!(matches!(begin(GitAsk::Refresh { id: 3 }), GitCall::Refresh { id: 3, .. }));
    assert!(matches!(
        begin(GitAsk::Commit { id: 3, message: "m".to_string() }),
        GitCall::Commit { id: 3, message, author_name, author_email, .. }
            if message == "m" && author_name == "ada" && author_email == "ada@example.com"
    ));
    assert!(matches!(
        begin(GitAsk::Push { id: 3, target: None }),
        GitCall::Push { id: 3, remote: None, ref_name: None, .. }
    ));
    let target = Some((Some("origin".to_string()), None));
    assert!(matches!(
        begin(GitAsk::Push { id: 3, target }),
        GitCall::Push { remote: Some(r), ref_name: None, .. } if r == "origin"
    ));
    assert!(matches!(
        begin(GitAsk::Diff { id: 3, staged: true }),
        GitCall::Diff { id: 3, staged: true, .. }
    ));
    let off = begin_git(GitAsk::List, None, &default_tenant(), false);
    assert_eq!(off.err().unwrap().status, 503);
    let nobody = request_owner(None, &default_tenant());
    assert_eq!((nobody.sub.as_str(), nobody.tenant_id), ("anonymous", default_tenant()));
}

#[test]
fn operations_ask_for_their_permission() {
    assert_eq!(required_permission(Operation::DeployAgent), "agent:deploy");
    assert_eq!(required_permission(Operation::UpdateAgentScope), "agent:deploy");
    assert_eq!(required_permission(Operation::StreamAgentEvents), "agent:logs");
    assert_eq!(required_permission(Operation::RunWorkflow), "workflow:run");
    assert_eq!(required_permission(Operation::UploadFile), "volume:write");
    assert_eq!(required_permission(Operation::DiffGitRepo), "volume:read");
    assert_eq!(required_permission(Operation::GetScript), "script:read");
    assert_eq!(required_permission(Operation::TerminateSession), "canvas:write");
    assert_eq!(required_permission(Operation::RevokeApiKey), "key:revoke");
}

#[test]
fn commits_have_an_author() {
    let (name, email) = commit_author(Some(&consumer()));
    assert_eq!((name.as_str(), email.as_str()), ("ada", "ada@example.com"));
    let (name, email) = commit_author(None);
    assert_eq!((name.as_str(), email.as_str()), ("User", "user@aegis.local"));
    let silent = caller(None, IdentityKind::Operator { aegis_role: AegisRole::Admin });
    let (name, email) = commit_author(Some(&silent));
    assert_eq!((name.as_str(), email.as_str()), ("User", "user@aegis.local"));
    let odd = caller(Some("@x"), IdentityKind::Operator { aegis_role: AegisRole::Admin });
    assert_eq!(commit_author(Some(&odd)).0, "User");
}

#[test]
fn webhooks_are_told_apart_by_their_header() {
    let auth = detect_webhook_auth(Some("a"), Some("b"), Some("c")).unwrap();
    assert_eq!((auth.provider, auth.signature.as_str()), (WebhookProvider::GitHub, "a"));
    let auth = detect_webhook_auth(None, Some("b"), Some("c")).unwrap();
    assert_eq!((auth.provider, auth.signature.as_str()), (WebhookProvider::GitLab, "b"));
    let auth = detect_webhook_auth(None, None, Some("c")).unwrap();
    assert_eq!(auth.provider, WebhookProvider::Bitbucket);
    assert!(detect_webhook_auth(None, None, None).is_none());
    assert!(webhook_git_repo(true, Some("s"), Some("a"), None, None).is_ok());
    let status = |r: Result<(String, _), Reply>| r.err().unwrap().status;
    assert_eq!(status(webhook_git_repo(false, Some("s"), Some("a"), None, None)), 503);
    assert_eq!(status(webhook_git_repo(true, None, Some("a"), None, None)), 401);
    assert_eq!(status(webhook_git_repo(true, Some("s"), None, None, None)), 401);
    check(&git_repo_reply(Ok(GitDone::WebhookTaken)).0, 202, r#"{"received": true}"#);
}

#[test]
fn repositories_are_bound_for_their_caller() {
    let body = CreateGitRepoRequest {
        repo_url: "https://r".to_string(),
        credential_binding_id: Some(4),
        git_ref: Some(GitRefDto::Tag { value: "v1".to_string() }),
        sparse_paths: None,
        label: "l".to_string(),
        auto_refresh: false,
        shallow: default_shallow(),
    };
    let command = create_git_repo(body, Some(&consumer()), &default_tenant());
    assert_eq!(command.owner, "user-1");
    assert_eq!(command.tenant_id.as_str(), "u-1");
    assert_eq!(command.zaru_tier, ZaruTier::Pro);
    assert!(matches!(command.git_ref, Some(GitRef::Tag(v)) if v == "v1"));
    assert!(command.shallow);
    let status = |e| git_repo_error_response(e, "m").status;
    assert_eq!(status(GitRepoError::BindingNotFound), 404);
    assert_eq!(status(GitRepoError::NotOwned), 404);
    assert_eq!(status(GitRepoError::TierLimitExceeded), 422);
    assert_eq!(status(GitRepoError::UrlValidationFailed), 400);
    assert_eq!(status(GitRepoError::NotYetImplemented), 501);
    assert_eq!(status(GitRepoError::CloneFailed), 502);
    assert_eq!(status(GitRepoError::GitFailed), 502);
    assert_eq!(status(GitRepoError::VolumeProvisioningFailed), 422);
    assert_eq!(status(GitRepoError::SecretResolutionFailed), 500);
    assert_eq!(status(GitRepoError::WebhookRejected), 401);
    assert_eq!(status(GitRepoError::Repository), 500);
    assert_eq!(status(GitRepoError::NothingToCommit), 409);
    assert_eq!(status(GitRepoError::BindingBusy), 409);
    assert_eq!(status(GitRepoError::NoHeadBranch), 400);
    let committed = GitDone::Committed { commit_sha: "abc".to_string() };
    check(&git_repo_reply(Ok(committed)).0, 200, r#"{"commit_sha": "abc"}"#);
    let compared = GitDone::Compared { diff: "d".to_string() };
    check(&git_repo_reply(Ok(compared)).0, 200, r#"{"diff": "d"}"#);
    assert_eq!(git_repo_reply(Ok(GitDone::Pushed)).0, Reply::empty(204));
    check(&git_repo_reply(Ok(GitDone::Deleted)).0, 200, r#"{"success": true}"#);
    let busy = Err((GitRepoError::BindingBusy, "busy".to_string()));
    check(&git_repo_reply(busy).0, 409, r#"{"error": "busy"}"#);
}

fn canvas_request(binding: Option<u128>) -> CreateCanvasSessionRequest {
    CreateCanvasSessionRequest {
        conversation_id: None,
        workspace_mode: WorkspaceMode::GitLinked { binding_id: 5 },
        git_binding_id: binding,
    }
}

#[test]
fn canvas_sessions_agree_with_their_binding() {
    let user = consumer();
    let begin = |ask| begin_canvas_with(ask, Some(&user), &default_tenant(), true, 77);
    assert!(matches!(
        begin(CanvasAsk::Create(canvas_request(Some(5)))),
        Ok(CanvasCall::Create(made))
            if made.conversation_id == 77 && made.owner == "user-1" && made.tier == ZaruTier::Pro
    ));
    assert!(matches!(
        begin(CanvasAsk::Create(canvas_request(Some(6)))),
        Err(CanvasRefusal::InvalidCommand(m))
            if m == "git_binding_id does not match WorkspaceMode::GitLinked payload"
    ));
    assert!(matches!(
        begin(CanvasAsk::Stream { id: 4 }),
        Ok(CanvasCall::Admit { id: 4, owner }) if owner.sub == "user-1"
    ));
    assert!(matches!(begin(CanvasAsk::List), Ok(CanvasCall::List { .. })));
    assert!(matches!(begin(CanvasAsk::Get { id: 4 }), Ok(CanvasCall::Get { id: 4, .. })));
    assert!(matches!(
        begin(CanvasAsk::Terminate { id: 4 }),
        Ok(CanvasCall::Terminate { id: 4, .. })
    ));
    let off = begin_canvas(CanvasAsk::List, None, &default_tenant(), false);
    assert!(matches!(off, Err(CanvasRefusal::NotConfigured(reply)) if reply.status == 503));
    let conversation = || {
        let ask = CanvasAsk::Create(canvas_request(None));
        match begin_canvas(ask, None, &default_tenant(), true) {
            Ok(CanvasCall::Create(order)) => order.conversation_id,
            _ => panic!("a session"),
        }
    };
    assert_ne!(conversation(), conversation());
}

#[test]
fn a_stream_is_of_one_session_and_ends_with_it() {
    let event = |kind, session_id| StreamInput::Canvas {
        kind,
        session_id,
        payload: Some("{}".to_string()),
    };
    assert!(matches!(
        canvas_event_stream(1, event(CanvasEventKind::GitPushed, 2)),
        StreamAction::Skip
    ));
    assert!(matches!(
        canvas_event_stream(1, event(CanvasEventKind::GitPushed, 1)),
        StreamAction::Emit { close: false, .. }
    ));
    assert!(matches!(
        canvas_event_stream(1, event(CanvasEventKind::SessionTerminated, 1)),
        StreamAction::Emit { close: true, .. }
    ));
    assert!(matches!(canvas_event_stream(1, StreamInput::TimedOut), StreamAction::Close));
    assert!(matches!(canvas_event_stream(1, StreamInput::Closed), StreamAction::Close));
    assert!(matches!(canvas_event_stream(1, StreamInput::Unrelated), StreamAction::Skip));
}

#[test]
fn canvas_answers() {
    let status = |e| canvas_error_response(e, "m").status;
    assert_eq!(status(CanvasError::NotFound), 404);
    assert_eq!(status(CanvasError::NotOwned), 404);
    assert_eq!(status(CanvasError::NotAllowedByTier), 403);
    assert_eq!(status(CanvasError::GitBindingNotFound), 404);
    assert_eq!(status(CanvasError::GitBindingNotReady), 409);
    assert_eq!(status(CanvasError::InvalidCommand), 400);
    assert_eq!(status(CanvasError::VolumeProvisioningFailed), 500);
    assert_eq!(status(CanvasError::RepositoryError), 500);
    let session = || CanvasSession {
        id: "s".to_string(),
        tenant_id: TenantId::new("u-1"),
        conversation_id: "c".to_string(),
        workspace_volume_id: "v".to_string(),
        git_binding_id: None,
        workspace_mode: Json::Null,
        status: "ready".to_string(),
        created_at: 0,
        last_active_at: 1_500_000_000,
    };
    let reply = canvas_reply(Ok(CanvasDone::Created(session()))).unwrap();
    assert_eq!(reply.status, 201);
    let shown = |name: &str| reply.body.as_ref().and_then(|b| b.get_str(name));
    assert_eq!(shown("id"), Some("s"));
    assert_eq!(shown("created_at"), Some("1970-01-01T00:00:00Z"));
    assert_eq!(shown("last_active_at"), Some("1970-01-01T00:00:01.500Z"));
    let found = canvas_reply(Ok(CanvasDone::Found(session()))).unwrap();
    assert_eq!((found.status, found.body), (200, reply.body));
    assert_eq!(canvas_reply(Ok(CanvasDone::Listed(vec![session()]))).unwrap().status, 200);
    check(&canvas_reply(Ok(CanvasDone::Terminated)).unwrap(), 200, r#"{"success": true}"#);
    assert!(canvas_reply(Ok(CanvasDone::Admitted)).is_none());
    let foreign = Err((CanvasError::NotOwned, "m".to_string()));
    assert_eq!(canvas_reply(foreign).unwrap().status, 404);
}

fn script_body(visibility: Option<&str>) -> ScriptRequestBody {
    ScriptRequestBody {
        name: "n".to_string(),
        description: "d".to_string(),
        code: "c".to_string(),
        tags: vec!["t".to_string()],
        visibility: visibility.map(|v| v.to_string()),
    }
}

fn script(name: &str, tag: &str) -> Script {
    Script {
        id: "s".to_string(),
        tenant_id: Json::text("u-1"),
        created_by: "user-1".to_string(),
        name: name.to_string(),
        description: "Cleans UP".to_string(),
        code: "c".to_string(),
        tags: vec![tag.to_string()],
        visibility: "private".to_string(),
        version: 2,
        created_at: Json::Null,
        updated_at: Json::Null,
    }
}

#[test]
fn scripts_are_private() {
    assert!(require_private_visibility(None).is_ok());
    assert!(require_private_visibility(Some("private")).is_ok());
    assert_eq!(require_private_visibility(Some("PRIVATE")).unwrap_err().status, 400);
    assert_eq!(require_private_visibility(Some("")).unwrap_err().status, 400);
    check(
        &require_private_visibility(Some("public")).unwrap_err(),
        400,
        r#"{"error": "script visibility 'public' is not supported yet; only 'private' is accepted"}"#,
    );
    let command =
        create_script(script_body(None), Some(&consumer()), &default_tenant(), true).ok().unwrap();
    assert_eq!(command.created_by, "user-1");
    assert_eq!(command.zaru_tier, ZaruTier::Pro);
    assert_eq!(command.tags, vec!["t".to_string()]);
    assert!(create_script(script_body(Some("public")), None, &default_tenant(), true).is_err());
    assert_eq!(update_script(script_body(None), false).err().unwrap().status, 503);
    assert!(update_script(script_body(None), true).is_ok());
    let status = |e| script_error_response(e, "m").status;
    assert_eq!(status(ScriptServiceError::NotFound), 404);
    assert_eq!(status(ScriptServiceError::DuplicateName), 409);
    assert_eq!(status(ScriptServiceError::TierLimitExceeded), 422);
    assert_eq!(status(ScriptServiceError::Domain), 400);
    assert_eq!(status(ScriptServiceError::Repository), 500);
}

#[test]
fn scripts_are_found_by_tag_and_text() {
    let scripts = vec![script("Alpha", "x"), script("beta", "y")];
    let names = |tag: Option<&str>, q: Option<&str>| {
        let body = list_scripts_reply(&scripts, tag, q).body.unwrap();
        body.as_array()
            .unwrap()
            .iter()
            .map(|s| s.get_str("name").unwrap().to_string())
            .collect::<Vec<_>>()
    };
    assert_eq!(names(None, None), vec!["Alpha".to_string(), "beta".to_string()]);
    assert_eq!(names(Some("y"), None), vec!["beta".to_string()]);
    assert_eq!(names(None, Some("ALPH")), vec!["Alpha".to_string()]);
    assert_eq!(names(None, Some("up")), vec!["Alpha".to_string(), "beta".to_string()]);
    assert_eq!(names(Some("x"), Some("beta")), Vec::<String>::new());
    let version =
        ScriptVersion { version: 1, updated_at: Json::Null, updated_by: "user-1".to_string() };
    let answer = |outcome| match script_reply(outcome) {
        ScriptNext::Answer(reply) => reply,
        ScriptNext::FindVersions(_) => panic!("an answer"),
    };
    let found = ScriptDone::VersionsFound { script: script("Alpha", "x"), versions: vec![version] };
    let body = answer(Ok(found)).body.unwrap();
    assert_eq!(body.get("version"), Some(&Json::Int(2)));
    assert_eq!(body.get("versions").and_then(|v| v.as_array()).unwrap().len(), 1);
    assert!(matches!(
        script_reply(Ok(ScriptDone::Found(script("Alpha", "x")))),
        ScriptNext::FindVersions(s) if s.name == "Alpha"
    ));
    assert_eq!(answer(Ok(ScriptDone::Created(script("Alpha", "x")))).status, 201);
    let updated = answer(Ok(ScriptDone::Updated(script("Alpha", "x"))));
    assert_eq!((updated.status, updated.body), (200, Some(script_dto(&scripts[0]))));
    assert_eq!(answer(Ok(ScriptDone::Deleted)), Reply::empty(204));
    let listed = ScriptDone::Listed { scripts, tag: Some("y".to_string()), q: None };
    assert_eq!(answer(Ok(listed)).body.unwrap().as_array().unwrap().len(), 1);
    let failed = Err((ScriptServiceError::DuplicateName, "twice".to_string()));
    check(&answer(failed), 409, r#"{"error": "twice"}"#);
}

#[test]
fn scripts_are_reached_by_their_owner_alone() {
    let user = consumer();
    let begin =
        |ask, configured| begin_script(ask, Some(&user), &default_tenant(), configured);
    assert!(matches!(
        begin(ScriptAsk::List, true),
        Ok(ScriptCall::List { owner }) if owner.sub == "user-1"
    ));
    assert!(matches!(begin(ScriptAsk::Get { id: 2 }, true), Ok(ScriptCall::Get { id: 2, .. })));
    assert!(matches!(
        begin(ScriptAsk::Delete { id: 2 }, true),
        Ok(ScriptCall::Delete { id: 2, .. })
    ));
    assert!(matches!(
        begin(ScriptAsk::Update { id: 2, body: script_body(None) }, true),
        Ok(ScriptCall::Update { id: 2, order, owner })
            if order.code == "c" && owner.tenant_id.as_str() == "u-1"
    ));
    assert!(matches!(
        begin(ScriptAsk::Create(script_body(None)), true),
        Ok(ScriptCall::Create(order)) if order.created_by == "user-1"
    ));
    let status = |ask, configured| begin(ask, configured).err().unwrap().status;
    assert_eq!(status(ScriptAsk::List, false), 503);
    assert_eq!(status(ScriptAsk::Create(script_body(Some("public"))), false), 400);
}
