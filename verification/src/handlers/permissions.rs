//! What a caller must be permitted for each operation.

use crate::identity::{TenantId, UserIdentity, UserIdentityView};
use crate::{handlers, identity, text};
use vstd::prelude::*;

verus! {

/// The operations that ask for a permission.
#[derive(Clone, Copy, PartialEq, Eq, Structural, Debug)]
pub enum Operation {
    // Agents.
    DeployAgent,
    ExecuteAgent,
    StreamAgentEvents,
    ListAgents,
    DeleteAgent,
    GetAgent,
    ListAgentVersions,
    LookupAgent,
    UpdateAgent,
    UpdateAgentScope,
    // Workflows.
    RegisterWorkflow,
    ExecuteWorkflow,
    RunWorkflow,
    ListWorkflows,
    GetWorkflow,
    DeleteWorkflow,
    ListWorkflowVersions,
    UpdateWorkflowScope,
    // Volumes and the files in them.
    CreateVolume,
    ListVolumes,
    GetQuota,
    GetVolume,
    RenameVolume,
    DeleteVolume,
    ListFiles,
    DownloadFile,
    UploadFile,
    DeletePath,
    MakeDirectory,
    MovePath,
    // Repositories, which are bound to volumes.
    CreateGitRepo,
    ListGitRepos,
    GetGitRepo,
    DeleteGitRepo,
    RefreshGitRepo,
    CommitGitRepo,
    PushGitRepo,
    DiffGitRepo,
    // Scripts.
    CreateScript,
    ListScripts,
    GetScript,
    UpdateScript,
    DeleteScript,
    // Sessions on the canvas.
    CreateSession,
    ListSessions,
    GetSession,
    TerminateSession,
    StreamSessionEvents,
    // API keys.
    ListApiKeys,
    CreateApiKey,
    RevokeApiKey,
}

/// The permission that an operation asks for.
pub open spec fn permission_of(operation: Operation) -> Seq<char> {
    match operation {
        Operation::DeployAgent
        | Operation::UpdateAgent
        | Operation::UpdateAgentScope => "agent:deploy"@,
        Operation::ExecuteAgent => "agent:execute"@,
        Operation::StreamAgentEvents => "agent:logs"@,
        Operation::ListAgents => "agent:list"@,
        Operation::DeleteAgent => "agent:delete"@,
        Operation::GetAgent
        | Operation::ListAgentVersions
        | Operation::LookupAgent => "agent:read"@,
        Operation::RegisterWorkflow | Operation::UpdateWorkflowScope => "workflow:deploy"@,
        Operation::ExecuteWorkflow | Operation::RunWorkflow => "workflow:run"@,
        Operation::ListWorkflows | Operation::ListWorkflowVersions => "workflow:list"@,
        Operation::GetWorkflow => "workflow:read"@,
        Operation::DeleteWorkflow => "workflow:delete"@,
        Operation::CreateVolume
        | Operation::RenameVolume
        | Operation::DeleteVolume
        | Operation::UploadFile
        | Operation::DeletePath
        | Operation::MakeDirectory
        | Operation::MovePath
        | Operation::CreateGitRepo
        | Operation::DeleteGitRepo
        | Operation::RefreshGitRepo
        | Operation::CommitGitRepo
        | Operation::PushGitRepo => "volume:write"@,
        Operation::ListVolumes
        | Operation::GetQuota
        | Operation::GetVolume
        | Operation::ListFiles
        | Operation::DownloadFile
        | Operation::ListGitRepos
        | Operation::GetGitRepo
        | Operation::DiffGitRepo => "volume:read"@,
        Operation::CreateScript
        | Operation::UpdateScript
        | Operation::DeleteScript => "script:write"@,
        Operation::ListScripts | Operation::GetScript => "script:read"@,
        Operation::CreateSession | Operation::TerminateSession => "canvas:write"@,
        Operation::ListSessions
        | Operation::GetSession
        | Operation::StreamSessionEvents => "canvas:read"@,
        Operation::ListApiKeys => "key:list"@,
        Operation::CreateApiKey => "key:create"@,
        Operation::RevokeApiKey => "key:revoke"@,
    }
}

/// The permission that an operation asks for.
pub fn required_permission(operation: Operation) -> (r: &'static str)
    ensures
        r@ == permission_of(operation),
{
    match operation {
        Operation::DeployAgent
        | Operation::UpdateAgent
        | Operation::UpdateAgentScope => "agent:deploy",
        Operation::ExecuteAgent => "agent:execute",
        Operation::StreamAgentEvents => "agent:logs",
        Operation::ListAgents => "agent:list",
        Operation::DeleteAgent => "agent:delete",
        Operation::GetAgent | Operation::ListAgentVersions | Operation::LookupAgent => "agent:read",
        Operation::RegisterWorkflow | Operation::UpdateWorkflowScope => "workflow:deploy",
        Operation::ExecuteWorkflow | Operation::RunWorkflow => "workflow:run",
        Operation::ListWorkflows | Operation::ListWorkflowVersions => "workflow:list",
        Operation::GetWorkflow => "workflow:read",
        Operation::DeleteWorkflow => "workflow:delete",
        Operation::CreateVolume
        | Operation::RenameVolume
        | Operation::DeleteVolume
        | Operation::UploadFile
        | Operation::DeletePath
        | Operation::MakeDirectory
        | Operation::MovePath
        | Operation::CreateGitRepo
        | Operation::DeleteGitRepo
        | Operation::RefreshGitRepo
        | Operation::CommitGitRepo
        | Operation::PushGitRepo => "volume:write",
        Operation::ListVolumes
        | Operation::GetQuota
        | Operation::GetVolume
        | Operation::ListFiles
        | Operation::DownloadFile
        | Operation::ListGitRepos
        | Operation::GetGitRepo
        | Operation::DiffGitRepo => "volume:read",
        Operation::CreateScript
        | Operation::UpdateScript
        | Operation::DeleteScript => "script:write",
        Operation::ListScripts | Operation::GetScript => "script:read",
        Operation::CreateSession | Operation::TerminateSession => "canvas:write",
        Operation::ListSessions
        | Operation::GetSession
        | Operation::StreamSessionEvents => "canvas:read",
        Operation::ListApiKeys => "key:list",
        Operation::CreateApiKey => "key:create",
        Operation::RevokeApiKey => "key:revoke",
    }
}

/// Whether an operation only shows what there is.
pub open spec fn only_shows(operation: Operation) -> bool {
    match operation {
        Operation::StreamAgentEvents
        | Operation::ListAgents
        | Operation::GetAgent
        | Operation::ListAgentVersions
        | Operation::LookupAgent
        | Operation::ListWorkflows
        | Operation::GetWorkflow
        | Operation::ListWorkflowVersions
        | Operation::ListVolumes
        | Operation::GetQuota
        | Operation::GetVolume
        | Operation::ListFiles
        | Operation::DownloadFile
        | Operation::ListGitRepos
        | Operation::GetGitRepo
        | Operation::DiffGitRepo
        | Operation::ListScripts
        | Operation::GetScript
        | Operation::ListSessions
        | Operation::GetSession
        | Operation::StreamSessionEvents
        | Operation::ListApiKeys => true,
        _ => false,
    }
}

/// Whether a permission is one to look at things: to read, to list or to follow them.
pub open spec fn is_to_look(permission: Seq<char>) -> bool {
    ||| permission == "agent:logs"@
    ||| permission == "agent:list"@
    ||| permission == "agent:read"@
    ||| permission == "workflow:list"@
    ||| permission == "workflow:read"@
    ||| permission == "volume:read"@
    ||| permission == "script:read"@
    ||| permission == "canvas:read"@
    ||| permission == "key:list"@
}

/// A permission to look at things permits exactly what only shows them: who may only
/// look cannot change, run or remove anything.
pub proof fn law_looking_changes_nothing(operation: Operation)
    ensures
        is_to_look(permission_of(operation)) <==> only_shows(operation),
{
    reveal_strlit("agent:deploy");
    reveal_strlit("agent:execute");
    reveal_strlit("agent:logs");
    reveal_strlit("agent:list");
    reveal_strlit("agent:delete");
    reveal_strlit("agent:read");
    reveal_strlit("workflow:deploy");
    reveal_strlit("workflow:run");
    reveal_strlit("workflow:list");
    reveal_strlit("workflow:read");
    reveal_strlit("workflow:delete");
    reveal_strlit("volume:write");
    reveal_strlit("volume:read");
    reveal_strlit("script:write");
    reveal_strlit("script:read");
    reveal_strlit("canvas:write");
    reveal_strlit("canvas:read");
    reveal_strlit("key:list");
    reveal_strlit("key:create");
    reveal_strlit("key:revoke");
    let p = permission_of(operation);
    if !only_shows(operation) {
        assert(p.len() == "agent:logs"@.len() ==> p[0] != "agent:logs"@[0]);
        assert(p.len() == "agent:list"@.len() ==> p[0] != "agent:list"@[0]);
        assert(p.len() == "agent:read"@.len() ==> p[0] != "agent:read"@[0]);
        assert(p.len() == "workflow:list"@.len() ==> p[0] != "workflow:list"@[0]);
        assert(p.len() == "workflow:read"@.len() ==> p[0] != "workflow:read"@[0]);
        assert(p.len() == "volume:read"@.len() ==> p[0] != "volume:read"@[0]);
        assert(p.len() == "script:read"@.len() ==> p[0] != "script:read"@[0]);
        assert(p.len() == "canvas:read"@.len() ==> p[0] != "canvas:read"@[0]);
        assert(p.len() == "key:list"@.len() ==> p[0] != "key:list"@[0]);
    }
}

/// Whether a service may perform an operation for the tenant that it names: any
/// operation on agents but following their events.
pub open spec fn takes_delegation(operation: Operation) -> bool {
    match operation {
        Operation::DeployAgent
        | Operation::ExecuteAgent
        | Operation::ListAgents
        | Operation::DeleteAgent
        | Operation::GetAgent
        | Operation::ListAgentVersions
        | Operation::LookupAgent
        | Operation::UpdateAgent
        | Operation::UpdateAgentScope => true,
        _ => false,
    }
}

/// The tenant that an operation is performed for. `named` is the tenant that the
/// request names, where it names one.
pub open spec fn operation_tenant_of(
    operation: Operation,
    caller: Option<UserIdentityView>,
    named: Option<Seq<char>>,
    default_tenant: Seq<char>,
) -> Seq<char> {
    handlers::tenant_of_request(
        caller,
        if takes_delegation(operation) {
            named
        } else {
            None
        },
        default_tenant,
    )
}

/// The tenant that an operation is performed for.
pub fn operation_tenant(
    operation: Operation,
    caller: Option<&UserIdentity>,
    named: Option<&str>,
    default_tenant: &TenantId,
) -> (r: TenantId)
    ensures
        r@ == operation_tenant_of(
            operation,
            identity::opt_identity(caller),
            text::opt_str_view(named),
            default_tenant@,
        ),
{
    let delegated = match operation {
        Operation::DeployAgent
        | Operation::ExecuteAgent
        | Operation::ListAgents
        | Operation::DeleteAgent
        | Operation::GetAgent
        | Operation::ListAgentVersions
        | Operation::LookupAgent
        | Operation::UpdateAgent
        | Operation::UpdateAgentScope => named,
        _ => None,
    };
    handlers::tenant_id_from_request(caller, delegated, default_tenant)
}

/// A tenant that a request names counts only for a service, and only in an operation
/// that takes it; for everybody else, and in every other operation, the tenant is that
/// of the caller.
pub proof fn law_only_services_act_for_others(
    operation: Operation,
    caller: Option<UserIdentityView>,
    named: Option<Seq<char>>,
    default_tenant: Seq<char>,
)
    requires
        !takes_delegation(operation) || caller is None || !(
        caller->Some_0.identity_kind is ServiceAccount),
    ensures
        operation_tenant_of(operation, caller, named, default_tenant)
            == handlers::tenant_of_identity(caller, default_tenant),
{
}

/// What deploys, changes or moves needs the permission to do so, and each other operation
/// its own.
pub proof fn law_each_operation_needs_its_permission(operation: Operation)
    ensures
        operation == Operation::DeployAgent || operation == Operation::UpdateAgent || operation
            == Operation::UpdateAgentScope ==> permission_of(operation) == "agent:deploy"@,
        operation == Operation::ExecuteAgent ==> permission_of(operation) == "agent:execute"@,
        operation == Operation::StreamAgentEvents ==> permission_of(operation) == "agent:logs"@,
        operation == Operation::ListAgents ==> permission_of(operation) == "agent:list"@,
        operation == Operation::DeleteAgent ==> permission_of(operation) == "agent:delete"@,
        operation == Operation::GetAgent || operation == Operation::ListAgentVersions || operation
            == Operation::LookupAgent ==> permission_of(operation) == "agent:read"@,
        operation == Operation::RegisterWorkflow || operation == Operation::UpdateWorkflowScope
            ==> permission_of(operation) == "workflow:deploy"@,
        operation == Operation::ExecuteWorkflow || operation == Operation::RunWorkflow
            ==> permission_of(operation) == "workflow:run"@,
        operation == Operation::ListWorkflows || operation == Operation::ListWorkflowVersions
            ==> permission_of(operation) == "workflow:list"@,
        operation == Operation::GetWorkflow ==> permission_of(operation) == "workflow:read"@,
        operation == Operation::DeleteWorkflow ==> permission_of(operation) == "workflow:delete"@,
        operation == Operation::CreateVolume || operation == Operation::RenameVolume || operation
            == Operation::DeleteVolume || operation == Operation::UploadFile || operation
            == Operation::DeletePath || operation == Operation::MakeDirectory || operation
            == Operation::MovePath || operation == Operation::CreateGitRepo || operation
            == Operation::DeleteGitRepo || operation == Operation::RefreshGitRepo || operation
            == Operation::CommitGitRepo || operation == Operation::PushGitRepo ==> permission_of(
            operation,
        ) == "volume:write"@,
        operation == Operation::ListVolumes || operation == Operation::GetQuota || operation
            == Operation::GetVolume || operation == Operation::ListFiles || operation
            == Operation::DownloadFile || operation == Operation::ListGitRepos || operation
            == Operation::GetGitRepo || operation == Operation::DiffGitRepo ==> permission_of(
            operation,
        ) == "volume:read"@,
        operation == Operation::CreateScript || operation == Operation::UpdateScript || operation
            == Operation::DeleteScript ==> permission_of(operation) == "script:write"@,
        operation == Operation::ListScripts || operation == Operation::GetScript ==> permission_of(
            operation,
        ) == "script:read"@,
        operation == Operation::CreateSession || operation == Operation::TerminateSession
            ==> permission_of(operation) == "canvas:write"@,
        operation == Operation::ListSessions || operation == Operation::GetSession || operation
            == Operation::StreamSessionEvents ==> permission_of(operation) == "canvas:read"@,
        operation == Operation::ListApiKeys ==> permission_of(operation) == "key:list"@,
        operation == Operation::CreateApiKey ==> permission_of(operation) == "key:create"@,
        operation == Operation::RevokeApiKey ==> permission_of(operation) == "key:revoke"@,
{
}

/// Only what is done with agents is done for the tenant that the request names.
pub proof fn law_agents_are_handled_for_the_named_tenant(
    operation: Operation,
    caller: Option<UserIdentityView>,
    named: Option<Seq<char>>,
    default: Seq<char>,
)
    ensures
        operation == Operation::DeployAgent || operation == Operation::ExecuteAgent || operation
            == Operation::ListAgents || operation == Operation::DeleteAgent || operation
            == Operation::GetAgent || operation == Operation::ListAgentVersions || operation
            == Operation::LookupAgent || operation == Operation::UpdateAgent || operation
            == Operation::UpdateAgentScope ==> operation_tenant_of(
            operation,
            caller,
            named,
            default,
        ) == handlers::tenant_of_request(caller, named, default),
        !takes_delegation(operation) ==> operation_tenant_of(operation, caller, named, default)
            == handlers::tenant_of_request(caller, None, default),
        operation == Operation::StreamAgentEvents || operation == Operation::ListWorkflows
            || operation == Operation::CreateVolume || operation == Operation::CreateScript
            || operation == Operation::CreateApiKey ==> !takes_delegation(operation),
{
}

} // verus!
