//! Repositories that are bound to a user's volumes.

use crate::handlers;
use crate::handlers::Owner;
use crate::http;
use crate::http::Reply;
use crate::identity;
use crate::identity::{TenantId, UserIdentity, UserIdentityView, ZaruTier};
use crate::json::{Json, JsonView};
use crate::text;
use vstd::prelude::*;

verus! {

/// Whether a repository is cloned without its history where a request does not say.
pub fn default_shallow() -> (r: bool)
    ensures
        r,
{
    true
}

/// What of a repository is checked out.
pub enum GitRef {
    Branch(String),
    Tag(String),
    Commit(String),
}

/// What a request says about what is checked out.
pub enum GitRefDto {
    Branch { value: String },
    Tag { value: String },
    Commit { value: String },
}

impl GitRefDto {
    /// What is checked out.
    pub fn into_ref(self) -> (r: GitRef)
        ensures
            match self {
                GitRefDto::Branch { value } => r == GitRef::Branch(value),
                GitRefDto::Tag { value } => r == GitRef::Tag(value),
                GitRefDto::Commit { value } => r == GitRef::Commit(value),
            },
    {
        match self {
            GitRefDto::Branch { value } => GitRef::Branch(value),
            GitRefDto::Tag { value } => GitRef::Tag(value),
            GitRefDto::Commit { value } => GitRef::Commit(value),
        }
    }
}

/// Why an operation on a repository failed.
#[derive(Clone, Copy, PartialEq, Eq, Structural, Debug)]
pub enum GitRepoError {
    BindingNotFound,
    NotOwned,
    TierLimitExceeded,
    UrlValidationFailed,
    NotYetImplemented,
    CloneFailed,
    GitFailed,
    VolumeProvisioningFailed,
    SecretResolutionFailed,
    WebhookRejected,
    Repository,
    NothingToCommit,
    BindingBusy,
    NoHeadBranch,
}

/// The status that a failed operation on a repository is answered with. A repository
/// of someone else is answered like one that is not there.
pub open spec fn git_error_status(e: GitRepoError) -> u16 {
    match e {
        GitRepoError::BindingNotFound => 404,
        GitRepoError::NotOwned => 404,
        GitRepoError::TierLimitExceeded => 422,
        GitRepoError::UrlValidationFailed => 400,
        GitRepoError::NotYetImplemented => 501,
        GitRepoError::CloneFailed => 502,
        GitRepoError::GitFailed => 502,
        GitRepoError::VolumeProvisioningFailed => 422,
        GitRepoError::SecretResolutionFailed => 500,
        GitRepoError::WebhookRejected => 401,
        GitRepoError::Repository => 500,
        GitRepoError::NothingToCommit => 409,
        GitRepoError::BindingBusy => 409,
        GitRepoError::NoHeadBranch => 400,
    }
}

/// The answer to a failed operation on a repository.
pub fn git_repo_error_response(e: GitRepoError, message: &str) -> (r: Reply)
    ensures
        r@ == http::error_reply(git_error_status(e), message@),
{
    let status: u16 = match e {
        GitRepoError::BindingNotFound | GitRepoError::NotOwned => 404,
        GitRepoError::TierLimitExceeded => 422,
        GitRepoError::UrlValidationFailed => 400,
        GitRepoError::NotYetImplemented => 501,
        GitRepoError::CloneFailed | GitRepoError::GitFailed => 502,
        GitRepoError::VolumeProvisioningFailed => 422,
        GitRepoError::SecretResolutionFailed => 500,
        GitRepoError::WebhookRejected => 401,
        GitRepoError::Repository => 500,
        GitRepoError::NothingToCommit | GitRepoError::BindingBusy => 409,
        GitRepoError::NoHeadBranch => 400,
    };
    Reply::error(status, message)
}

/// The name that signs commits under an address: what stands before its first `@`.
pub open spec fn author_name(email: Seq<char>) -> Seq<char> {
    let local = text::pieces(email, '@')[0];
    if local.len() > 0 {
        local
    } else {
        "User"@
    }
}

/// The name and the address that sign a caller's commits. A caller without an address
/// signs as `User`, under an address that stands for all of them.
pub open spec fn author(caller: Option<UserIdentityView>) -> (Seq<char>, Seq<char>) {
    match caller {
        Some(i) => match i.email {
            Some(email) => (author_name(email), email),
            None => ("User"@, "user@aegis.local"@),
        },
        None => ("User"@, "user@aegis.local"@),
    }
}

/// The name and the address that sign a caller's commits. Neither is ever empty,
/// unless the caller's own address is.
pub fn commit_author(caller: Option<&UserIdentity>) -> (r: (String, String))
    ensures
        (r.0@, r.1@) == author(identity::opt_identity(caller)),
{
    let email = match caller {
        Some(i) => match &i.email {
            Some(e) => e.clone(),
            None => {
                return ("User".to_owned(), "user@aegis.local".to_owned());
            },
        },
        None => {
            return ("User".to_owned(), "user@aegis.local".to_owned());
        },
    };
    let parts = text::split(email.as_str(), '@');
    let local = &parts[0];
    assert(text::views(parts@)[0] == local@);
    let name = if local.as_str().is_empty() { "User".to_owned() } else { local.clone() };
    (name, email)
}

/// A repository that is bound to a volume. The secret of its webhook is known only
/// by whether there is one.
pub struct GitRepoBinding {
    pub id: String,
    pub tenant_id: Json,
    pub credential_binding_id: Option<String>,
    pub repo_url: String,
    pub git_ref: Json,
    pub sparse_paths: Json,
    pub volume_id: String,
    pub label: String,
    pub status: Json,
    pub clone_strategy: Json,
    pub last_cloned_at: Json,
    pub last_commit_sha: Option<String>,
    pub auto_refresh: bool,
    pub webhook_secret_ciphertext: Option<Vec<u8>>,
    pub created_at: Json,
    pub updated_at: Json,
}

impl GitRepoBinding {
    /// The repository as it is shown.
    pub open spec fn shown(&self) -> JsonView {
        JsonView::object().with("id"@, JsonView::Str(self.id@)).with(
            "tenant_id"@,
            self.tenant_id@,
        ).with(
            "credential_binding_id"@,
            JsonView::opt_text(text::opt_view(self.credential_binding_id)),
        ).with("repo_url"@, JsonView::Str(self.repo_url@)).with("git_ref"@, self.git_ref@).with(
            "sparse_paths"@,
            self.sparse_paths@,
        ).with("volume_id"@, JsonView::Str(self.volume_id@)).with(
            "label"@,
            JsonView::Str(self.label@),
        ).with("status"@, self.status@).with("clone_strategy"@, self.clone_strategy@).with(
            "last_cloned_at"@,
            self.last_cloned_at@,
        ).with("last_commit_sha"@, JsonView::opt_text(text::opt_view(self.last_commit_sha))).with(
            "auto_refresh"@,
            JsonView::Bool(self.auto_refresh),
        ).with(
            "webhook_secret_set"@,
            JsonView::Bool(self.webhook_secret_ciphertext is Some),
        ).with("created_at"@, self.created_at@).with("updated_at"@, self.updated_at@)
    }
}

/// The repository as it is shown.
pub fn redacted_binding(b: &GitRepoBinding) -> (r: Json)
    ensures
        r@ == b.shown(),
{
    Json::object().with("id", Json::text(b.id.as_str())).with("tenant_id", b.tenant_id.copy()).with(
        "credential_binding_id",
        Json::opt_text(&b.credential_binding_id),
    ).with("repo_url", Json::text(b.repo_url.as_str())).with("git_ref", b.git_ref.copy()).with(
        "sparse_paths",
        b.sparse_paths.copy(),
    ).with("volume_id", Json::text(b.volume_id.as_str())).with(
        "label",
        Json::text(b.label.as_str()),
    ).with("status", b.status.copy()).with("clone_strategy", b.clone_strategy.copy()).with(
        "last_cloned_at",
        b.last_cloned_at.copy(),
    ).with("last_commit_sha", Json::opt_text(&b.last_commit_sha)).with(
        "auto_refresh",
        Json::Bool(b.auto_refresh),
    ).with("webhook_secret_set", Json::Bool(b.webhook_secret_ciphertext.is_some())).with(
        "created_at",
        b.created_at.copy(),
    ).with("updated_at", b.updated_at.copy())
}

/// The answer where there is no service for repositories.
pub open spec fn no_git_repos() -> http::ReplyView {
    http::error_reply(503, "git repo service not configured"@)
}

/// The answer where there is no service for repositories, if there is none.
pub fn git_repo_service(configured: bool) -> (r: Result<(), Reply>)
    ensures
        if configured {
            r is Ok
        } else {
            r matches Err(reply) && reply@ == no_git_repos()
        },
{
    if configured {
        Ok(())
    } else {
        Err(Reply::error(503, "git repo service not configured"))
    }
}

/// A request to bind a repository.
pub struct CreateGitRepoRequest {
    pub repo_url: String,
    pub credential_binding_id: Option<u128>,
    pub git_ref: Option<GitRefDto>,
    pub sparse_paths: Option<Vec<String>>,
    pub label: String,
    pub auto_refresh: bool,
    pub shallow: bool,
}

/// The order to bind a repository. What is checked out is missing where the request
/// does not say.
pub struct CreateGitRepoCommand {
    pub tenant_id: TenantId,
    pub owner: String,
    pub zaru_tier: ZaruTier,
    pub credential_binding_id: Option<u128>,
    pub repo_url: String,
    pub git_ref: Option<GitRef>,
    pub sparse_paths: Option<Vec<String>>,
    pub label: String,
    pub auto_refresh: bool,
    pub shallow: bool,
}

/// Whether an order binds a repository as a request asks, for the caller.
pub open spec fn binds(
    order: CreateGitRepoCommand,
    body: CreateGitRepoRequest,
    caller: Option<UserIdentityView>,
    default_tenant: Seq<char>,
) -> bool {
    &&& order.tenant_id@ == handlers::tenant_of_identity(caller, default_tenant)
    &&& order.owner@ == identity::sub_of(caller)
    &&& order.zaru_tier == identity::tier_of(caller)
    &&& order.credential_binding_id == body.credential_binding_id
    &&& order.repo_url == body.repo_url
    &&& order.git_ref == (match body.git_ref {
        Some(GitRefDto::Branch { value }) => Some(GitRef::Branch(value)),
        Some(GitRefDto::Tag { value }) => Some(GitRef::Tag(value)),
        Some(GitRefDto::Commit { value }) => Some(GitRef::Commit(value)),
        None => None,
    })
    &&& order.sparse_paths == body.sparse_paths
    &&& order.label == body.label
    &&& order.auto_refresh == body.auto_refresh
    &&& order.shallow == body.shallow
}

/// The order that a request to bind a repository leads to: it belongs to the caller.
pub fn create_git_repo(
    body: CreateGitRepoRequest,
    caller: Option<&UserIdentity>,
    default_tenant: &TenantId,
) -> (r: CreateGitRepoCommand)
    ensures
        binds(r, body, identity::opt_identity(caller), default_tenant@),
{
    let git_ref = match body.git_ref {
        Some(dto) => Some(dto.into_ref()),
        None => None,
    };
    CreateGitRepoCommand {
        tenant_id: handlers::tenant_id_from_identity(caller, default_tenant),
        owner: identity::user_sub(caller),
        zaru_tier: identity::user_tier(caller),
        credential_binding_id: body.credential_binding_id,
        repo_url: body.repo_url,
        git_ref,
        sparse_paths: body.sparse_paths,
        label: body.label,
        auto_refresh: body.auto_refresh,
        shallow: body.shallow,
    }
}

/// What a request about repositories asks for.
pub enum GitAsk {
    Create(CreateGitRepoRequest),
    List,
    Get { id: u128 },
    Delete { id: u128 },
    Refresh { id: u128 },
    Commit { id: u128, message: String },
    /// A push to the given remote and branch, each of which may be left to the
    /// service; where the request has no body, both are.
    Push { id: u128, target: Option<(Option<String>, Option<String>)> },
    Diff { id: u128, staged: bool },
}

/// What the service of repositories is called for.
pub enum GitCall {
    Create(CreateGitRepoCommand),
    List { owner: Owner },
    Get { id: u128, owner: Owner },
    Delete { id: u128, owner: Owner },
    Refresh { id: u128, owner: Owner },
    Commit { id: u128, owner: Owner, message: String, author_name: String, author_email: String },
    Push { id: u128, owner: Owner, remote: Option<String>, ref_name: Option<String> },
    Diff { id: u128, owner: Owner, staged: bool },
}

/// Whether a call is the one that a caller asks for: it is about the caller's own
/// repositories, and a commit is signed by the caller.
pub open spec fn is_call(
    call: GitCall,
    ask: GitAsk,
    caller: Option<UserIdentityView>,
    default_tenant: Seq<char>,
) -> bool {
    let whose = handlers::owner_of(caller, default_tenant);
    match (ask, call) {
        (GitAsk::Create(body), GitCall::Create(order)) => binds(
            order,
            body,
            caller,
            default_tenant,
        ),
        (GitAsk::List, GitCall::List { owner }) => owner@ == whose,
        (GitAsk::Get { id: asked }, GitCall::Get { id, owner }) => id == asked && owner@ == whose,
        (GitAsk::Delete { id: asked }, GitCall::Delete { id, owner }) => id == asked && owner@
            == whose,
        (GitAsk::Refresh { id: asked }, GitCall::Refresh { id, owner }) => id == asked && owner@
            == whose,
        (
            GitAsk::Commit { id: asked, message: said },
            GitCall::Commit { id, owner, message, author_name: name, author_email: email },
        ) => {
            &&& id == asked
            &&& owner@ == whose
            &&& message == said
            &&& (name@, email@) == author(caller)
        },
        (
            GitAsk::Push { id: asked, target },
            GitCall::Push { id, owner, remote, ref_name },
        ) => {
            &&& id == asked
            &&& owner@ == whose
            &&& (remote, ref_name) == (match target {
                Some(t) => t,
                None => (None, None),
            })
        },
        (
            GitAsk::Diff { id: asked, staged: of },
            GitCall::Diff { id, owner, staged },
        ) => id == asked && owner@ == whose && staged == of,
        _ => false,
    }
}

/// What a request about repositories leads to: a call of their service, or the answer
/// where there is none.
pub fn begin_git(
    ask: GitAsk,
    caller: Option<&UserIdentity>,
    default_tenant: &TenantId,
    configured: bool,
) -> (r: Result<GitCall, Reply>)
    ensures
        if configured {
            r matches Ok(call) && is_call(
                call,
                ask,
                identity::opt_identity(caller),
                default_tenant@,
            )
        } else {
            r matches Err(reply) && reply@ == no_git_repos()
        },
{
    if let Err(reply) = git_repo_service(configured) {
        return Err(reply);
    }
    let owner = handlers::request_owner(caller, default_tenant);
    Ok(
        match ask {
            GitAsk::Create(body) => GitCall::Create(create_git_repo(body, caller, default_tenant)),
            GitAsk::List => GitCall::List { owner },
            GitAsk::Get { id } => GitCall::Get { id, owner },
            GitAsk::Delete { id } => GitCall::Delete { id, owner },
            GitAsk::Refresh { id } => GitCall::Refresh { id, owner },
            GitAsk::Commit { id, message } => {
                let (author_name, author_email) = commit_author(caller);
                GitCall::Commit { id, owner, message, author_name, author_email }
            },
            GitAsk::Push { id, target } => {
                let (remote, ref_name) = match target {
                    Some(t) => t,
                    None => (None, None),
                };
                GitCall::Push { id, owner, remote, ref_name }
            },
            GitAsk::Diff { id, staged } => GitCall::Diff { id, owner, staged },
        },
    )
}

fn list_git_repos_reply(bindings: &Vec<GitRepoBinding>) -> (r: Reply)
    ensures
        r@ == http::json_reply(
            200,
            JsonView::Arr(bindings@.map_values(|b: GitRepoBinding| b.shown())),
        ),
{
    let mut items: Vec<Json> = Vec::new();
    let mut i: usize = 0;
    while i < bindings.len()
        invariant
            i <= bindings@.len(),
            items@.len() == i,
            forall|k: int| 0 <= k < i ==> #[trigger] items@[k]@ == bindings@[k].shown(),
        decreases bindings@.len() - i,
    {
        items.push(redacted_binding(&bindings[i]));
        i += 1;
    }
    assert(crate::json::json_views(items@) =~= bindings@.map_values(
        |b: GitRepoBinding| b.shown(),
    ));
    Reply::json(200, Json::array(items))
}

/// What came of a call of the service of repositories.
pub enum GitDone {
    Created(GitRepoBinding),
    Listed(Vec<GitRepoBinding>),
    Found(GitRepoBinding),
    Deleted,
    Refreshed,
    Committed { commit_sha: String },
    Pushed,
    Compared { diff: String },
    WebhookTaken,
}

/// What a request about repositories is answered, once the service was called.
pub open spec fn git_answer(outcome: Result<GitDone, (GitRepoError, String)>) -> http::ReplyView {
    match outcome {
        Ok(GitDone::Created(b)) => http::json_reply(201, b.shown()),
        Ok(GitDone::Listed(bs)) => http::json_reply(
            200,
            JsonView::Arr(bs@.map_values(|b: GitRepoBinding| b.shown())),
        ),
        Ok(GitDone::Found(b)) => http::json_reply(200, b.shown()),
        Ok(GitDone::Deleted) => handlers::volumes::success(),
        Ok(GitDone::Refreshed) => handlers::volumes::success(),
        Ok(GitDone::Committed { commit_sha }) => http::json_reply(
            200,
            JsonView::object().with("commit_sha"@, JsonView::Str(commit_sha@)),
        ),
        Ok(GitDone::Pushed) => http::empty_reply(204),
        Ok(GitDone::Compared { diff }) => http::json_reply(
            200,
            JsonView::object().with("diff"@, JsonView::Str(diff@)),
        ),
        Ok(GitDone::WebhookTaken) => http::json_reply(
            202,
            JsonView::object().with("received"@, JsonView::Bool(true)),
        ),
        Err((e, message)) => http::error_reply(git_error_status(e), message@),
    }
}

/// What a request about repositories is answered, once the service was called, and
/// the repository that is cloned afterwards: one that was just bound.
pub fn git_repo_reply(outcome: Result<GitDone, (GitRepoError, String)>) -> (r: (
    Reply,
    Option<String>,
))
    ensures
        r.0@ == git_answer(outcome),
        text::opt_view(r.1) == (match outcome {
            Ok(GitDone::Created(b)) => Some(b.id@),
            _ => None,
        }),
{
    match outcome {
        Ok(GitDone::Created(b)) => (Reply::json(201, redacted_binding(&b)), Some(b.id)),
        Ok(GitDone::Listed(bs)) => (list_git_repos_reply(&bs), None),
        Ok(GitDone::Found(b)) => (Reply::json(200, redacted_binding(&b)), None),
        Ok(GitDone::Deleted) | Ok(GitDone::Refreshed) => (handlers::volumes::success_reply(), None),
        Ok(GitDone::Committed { commit_sha }) => (
            Reply::json(200, Json::object().with("commit_sha", Json::text(commit_sha.as_str()))),
            None,
        ),
        Ok(GitDone::Pushed) => (Reply::empty(204), None),
        Ok(GitDone::Compared { diff }) => (
            Reply::json(200, Json::object().with("diff", Json::text(diff.as_str()))),
            None,
        ),
        Ok(GitDone::WebhookTaken) => (
            Reply::json(202, Json::object().with("received", Json::Bool(true))),
            None,
        ),
        Err((e, message)) => (git_repo_error_response(e, message.as_str()), None),
    }
}

/// Who sends a webhook.
#[derive(Clone, Copy, PartialEq, Eq, Structural, Debug)]
pub enum WebhookProvider {
    GitHub,
    GitLab,
    Bitbucket,
}

/// How a webhook is signed.
pub struct WebhookAuth {
    pub provider: WebhookProvider,
    pub signature: String,
}

/// How a webhook is signed, by the headers that hosts of repositories use; the first
/// of them decides.
pub open spec fn webhook_auth(
    hub_signature_256: Option<Seq<char>>,
    gitlab_token: Option<Seq<char>>,
    hub_signature: Option<Seq<char>>,
) -> Option<(WebhookProvider, Seq<char>)> {
    if hub_signature_256 is Some {
        Some((WebhookProvider::GitHub, hub_signature_256->Some_0))
    } else if gitlab_token is Some {
        Some((WebhookProvider::GitLab, gitlab_token->Some_0))
    } else if hub_signature is Some {
        Some((WebhookProvider::Bitbucket, hub_signature->Some_0))
    } else {
        None
    }
}

/// How a webhook is signed, by its headers `x-hub-signature-256`, `x-gitlab-token`
/// and `x-hub-signature`.
pub fn detect_webhook_auth(
    hub_signature_256: Option<&str>,
    gitlab_token: Option<&str>,
    hub_signature: Option<&str>,
) -> (r: Option<WebhookAuth>)
    ensures
        (match r {
            Some(a) => Some((a.provider, a.signature@)),
            None => None,
        }) == webhook_auth(
            text::opt_str_view(hub_signature_256),
            text::opt_str_view(gitlab_token),
            text::opt_str_view(hub_signature),
        ),
{
    if let Some(v) = hub_signature_256 {
        return Some(WebhookAuth { provider: WebhookProvider::GitHub, signature: v.to_owned() });
    }
    if let Some(v) = gitlab_token {
        return Some(WebhookAuth { provider: WebhookProvider::GitLab, signature: v.to_owned() });
    }
    if let Some(v) = hub_signature {
        return Some(WebhookAuth { provider: WebhookProvider::Bitbucket, signature: v.to_owned() });
    }
    None
}

/// Decides on a webhook before it is verified: the secret that it names and how it is
/// signed, or the answer that refuses it.
pub fn webhook_git_repo(
    configured: bool,
    secret: Option<&str>,
    hub_signature_256: Option<&str>,
    gitlab_token: Option<&str>,
    hub_signature: Option<&str>,
) -> (r: Result<(String, WebhookAuth), Reply>)
    ensures
        if !configured {
            r matches Err(reply) && reply@ == no_git_repos()
        } else if secret is None {
            r matches Err(reply) && reply@ == http::error_reply(
                401,
                "missing X-Aegis-Webhook-Secret header"@,
            )
        } else {
            match webhook_auth(
                text::opt_str_view(hub_signature_256),
                text::opt_str_view(gitlab_token),
                text::opt_str_view(hub_signature),
            ) {
                Some((provider, signature)) => r matches Ok((s, auth)) && s@ == secret->Some_0@
                    && auth.provider == provider && auth.signature@ == signature,
                None => r matches Err(reply) && reply@ == http::error_reply(
                    401,
                    "missing or unrecognized webhook signature header"@,
                ),
            }
        },
{
    if let Err(reply) = git_repo_service(configured) {
        return Err(reply);
    }
    let named = match secret {
        Some(s) => s,
        None => {
            return Err(Reply::error(401, "missing X-Aegis-Webhook-Secret header"));
        },
    };
    match detect_webhook_auth(hub_signature_256, gitlab_token, hub_signature) {
        Some(auth) => Ok((named.to_owned(), auth)),
        None => Err(Reply::error(401, "missing or unrecognized webhook signature header")),
    }
}

/// A secret is never shown: two repositories that differ only in it are shown alike.
pub proof fn law_webhook_secret_is_not_shown(
    binding: GitRepoBinding,
    a: Vec<u8>,
    b: Vec<u8>,
)
    ensures
        (GitRepoBinding { webhook_secret_ciphertext: Some(a), ..binding }).shown() == (
        GitRepoBinding { webhook_secret_ciphertext: Some(b), ..binding }).shown(),
{
}

/// A commit is signed with a name, whatever the address, and with an address, unless the
/// caller's own is empty.
pub proof fn law_commits_have_an_author(caller: Option<UserIdentityView>)
    ensures
        author(caller).0.len() > 0,
        author(caller).1.len() == 0 ==> caller is Some && caller->Some_0.email == Some(
            Seq::<char>::empty(),
        ),
{
    reveal_strlit("User");
    reveal_strlit("user@aegis.local");
    if author(caller).1.len() == 0 {
        assert(author(caller).1 =~= Seq::<char>::empty());
    }
}

/// Whatever is asked, only the caller's own repositories are touched.
pub proof fn law_repositories_are_the_callers(
    call: GitCall,
    ask: GitAsk,
    caller: Option<UserIdentityView>,
    default_tenant: Seq<char>,
)
    requires
        is_call(call, ask, caller, default_tenant),
    ensures
        match call {
            GitCall::Create(order) => order.tenant_id@ == handlers::tenant_of_identity(
                caller,
                default_tenant,
            ) && order.owner@ == identity::sub_of(caller),
            GitCall::List { owner } => owner@ == handlers::owner_of(caller, default_tenant),
            GitCall::Get { owner, .. } => owner@ == handlers::owner_of(caller, default_tenant),
            GitCall::Delete { owner, .. } => owner@ == handlers::owner_of(caller, default_tenant),
            GitCall::Refresh { owner, .. } => owner@ == handlers::owner_of(caller, default_tenant),
            GitCall::Commit { owner, .. } => owner@ == handlers::owner_of(caller, default_tenant),
            GitCall::Push { owner, .. } => owner@ == handlers::owner_of(caller, default_tenant),
            GitCall::Diff { owner, .. } => owner@ == handlers::owner_of(caller, default_tenant),
        },
{
}

/// A repository of someone else is answered like one that is not there.
pub proof fn law_foreign_repositories_are_not_there(message: String)
    ensures
        git_answer(Err((GitRepoError::NotOwned, message))) == git_answer(
            Err((GitRepoError::BindingNotFound, message)),
        ),
{
}

/// The repository as it is shown: each part is found under its own name, as it is.
pub proof fn law_git_repo_binding_shown_holds_its_parts(
    row: GitRepoBinding,
)
    ensures
        row.shown().get("id"@) == Some(JsonView::Str(row.id@)),
        row.shown().get("tenant_id"@) == Some(row.tenant_id@),
        row.shown().get("credential_binding_id"@) == Some(JsonView::opt_text(text::opt_view(row.credential_binding_id))),
        row.shown().get("repo_url"@) == Some(JsonView::Str(row.repo_url@)),
        row.shown().get("git_ref"@) == Some(row.git_ref@),
        row.shown().get("sparse_paths"@) == Some(row.sparse_paths@),
        row.shown().get("volume_id"@) == Some(JsonView::Str(row.volume_id@)),
        row.shown().get("label"@) == Some(JsonView::Str(row.label@)),
        row.shown().get("status"@) == Some(row.status@),
        row.shown().get("clone_strategy"@) == Some(row.clone_strategy@),
        row.shown().get("last_cloned_at"@) == Some(row.last_cloned_at@),
        row.shown().get("last_commit_sha"@) == Some(JsonView::opt_text(text::opt_view(row.last_commit_sha))),
        row.shown().get("auto_refresh"@) == Some(JsonView::Bool(row.auto_refresh)),
        row.shown().get("webhook_secret_set"@) == Some(JsonView::Bool(row.webhook_secret_ciphertext is Some)),
        row.shown().get("created_at"@) == Some(row.created_at@),
        row.shown().get("updated_at"@) == Some(row.updated_at@),
{
    broadcast use crate::json::lemma_get_with;

    reveal_strlit("id");
    reveal_strlit("tenant_id");
    reveal_strlit("credential_binding_id");
    reveal_strlit("repo_url");
    reveal_strlit("git_ref");
    reveal_strlit("sparse_paths");
    reveal_strlit("volume_id");
    reveal_strlit("label");
    reveal_strlit("status");
    reveal_strlit("clone_strategy");
    reveal_strlit("last_cloned_at");
    reveal_strlit("last_commit_sha");
    reveal_strlit("auto_refresh");
    reveal_strlit("webhook_secret_set");
    reveal_strlit("created_at");
    reveal_strlit("updated_at");
    assert("id"@.len() == 2 && "tenant_id"@.len() == 9 && "credential_binding_id"@.len() == 21 && "repo_url"@.len() == 8 && "git_ref"@.len() == 7 && "sparse_paths"@.len() == 12 && "volume_id"@.len() == 9 && "label"@.len() == 5 && "status"@.len() == 6 && "clone_strategy"@.len() == 14 && "last_cloned_at"@.len() == 14 && "last_commit_sha"@.len() == 15 && "auto_refresh"@.len() == 12 && "webhook_secret_set"@.len() == 18 && "created_at"@.len() == 10 && "updated_at"@.len() == 10 && "volume_id"@[0] == 'v' && "tenant_id"@[0] == 't' && "last_cloned_at"@[0] == 'l' && "clone_strategy"@[0] == 'c' && "auto_refresh"@[0] == 'a' && "sparse_paths"@[0] == 's' && "updated_at"@[0] == 'u' && "created_at"@[0] == 'c');
}

/// What goes wrong with a repository is answered by its kind.
pub proof fn law_repository_failures_by_status(e: GitRepoError)
    ensures
        git_error_status(e) == 404 <==> e == GitRepoError::BindingNotFound || e
            == GitRepoError::NotOwned,
        git_error_status(e) == 422 <==> e == GitRepoError::TierLimitExceeded || e
            == GitRepoError::VolumeProvisioningFailed,
        git_error_status(e) == 400 <==> e == GitRepoError::UrlValidationFailed || e
            == GitRepoError::NoHeadBranch,
        git_error_status(e) == 501 <==> e == GitRepoError::NotYetImplemented,
        git_error_status(e) == 502 <==> e == GitRepoError::CloneFailed || e
            == GitRepoError::GitFailed,
        git_error_status(e) == 500 <==> e == GitRepoError::SecretResolutionFailed || e
            == GitRepoError::Repository,
        git_error_status(e) == 401 <==> e == GitRepoError::WebhookRejected,
        git_error_status(e) == 409 <==> e == GitRepoError::NothingToCommit || e
            == GitRepoError::BindingBusy,
{
}

/// A commit is by its caller: under their address, and the name before the at sign.
pub proof fn law_commits_are_by_the_caller(i: UserIdentityView, email: Seq<char>)
    ensures
        i.email == Some(email) ==> author(Some(i)).1 == email,
        i.email == Some(email) && text::pieces(email, '@')[0].len() > 0 ==> author(Some(i)).0
            == text::pieces(email, '@')[0],
        i.email == Some(email) && text::pieces(email, '@')[0].len() == 0 ==> author(Some(i)).0
            == "User"@,
        i.email is None ==> author(Some(i)) == ("User"@, "user@aegis.local"@),
        author(None) == ("User"@, "user@aegis.local"@),
{
}

/// A repository is bound in the tenant and the name of the caller, at their tier, as the
/// request says.
pub proof fn law_a_repository_is_bound_as_asked(
    order: CreateGitRepoCommand,
    body: CreateGitRepoRequest,
    caller: Option<UserIdentityView>,
    default: Seq<char>,
    value: String,
)
    requires
        is_call(GitCall::Create(order), GitAsk::Create(body), caller, default),
    ensures
        order.tenant_id@ == handlers::tenant_of_identity(caller, default),
        caller matches Some(i) ==> order.owner@ == i.sub,
        order.zaru_tier == identity::tier_of(caller),
        order.credential_binding_id == body.credential_binding_id,
        order.repo_url == body.repo_url,
        order.sparse_paths == body.sparse_paths,
        order.label == body.label,
        order.auto_refresh == body.auto_refresh,
        order.shallow == body.shallow,
        body.git_ref == Some(GitRefDto::Branch { value }) ==> order.git_ref == Some(
            GitRef::Branch(value),
        ),
        body.git_ref == Some(GitRefDto::Tag { value }) ==> order.git_ref == Some(
            GitRef::Tag(value),
        ),
        body.git_ref == Some(GitRefDto::Commit { value }) ==> order.git_ref == Some(
            GitRef::Commit(value),
        ),
        body.git_ref is None ==> order.git_ref is None,
{
}

/// A call on a repository is of the caller, for the one that is asked for, and with what is
/// asked.
pub proof fn law_repository_calls_are_the_callers(
    call: GitCall,
    asked: u128,
    said: String,
    remote: Option<String>,
    name: Option<String>,
    of: bool,
    caller: Option<UserIdentityView>,
    default: Seq<char>,
)
    ensures
        is_call(call, GitAsk::List, caller, default) ==> (call matches GitCall::List { owner }
            && owner@ == handlers::owner_of(caller, default)),
        is_call(call, GitAsk::Get { id: asked }, caller, default) ==> (call matches GitCall::Get {
            id,
            owner,
        } && id == asked && owner@ == handlers::owner_of(caller, default)),
        is_call(call, GitAsk::Delete { id: asked }, caller, default) ==> (
        call matches GitCall::Delete { id, owner } && id == asked && owner@ == handlers::owner_of(
            caller,
            default,
        )),
        is_call(call, GitAsk::Refresh { id: asked }, caller, default) ==> (
        call matches GitCall::Refresh { id, owner } && id == asked && owner@ == handlers::owner_of(
            caller,
            default,
        )),
        is_call(call, GitAsk::Commit { id: asked, message: said }, caller, default) ==> (
        call matches GitCall::Commit { id, owner, message, author_name: n, author_email: e } && id
            == asked && owner@ == handlers::owner_of(caller, default) && message == said && n@
            == author(caller).0 && e@ == author(caller).1),
        is_call(call, GitAsk::Push { id: asked, target: Some((remote, name)) }, caller, default)
            ==> (call matches GitCall::Push { id, owner, remote: r, ref_name } && id == asked
            && owner@ == handlers::owner_of(caller, default) && r == remote && ref_name == name),
        is_call(call, GitAsk::Push { id: asked, target: None }, caller, default) ==> (
        call matches GitCall::Push { id, owner, remote: r, ref_name } && id == asked && r is None
            && ref_name is None),
        is_call(call, GitAsk::Diff { id: asked, staged: of }, caller, default) ==> (
        call matches GitCall::Diff { id, owner, staged } && id == asked && owner@
            == handlers::owner_of(caller, default) && staged == of),
{
}

/// What was done to a repository is answered: every binding in a list, the commit, the
/// difference, and a failure by its kind.
pub proof fn law_repository_answers(
    b: GitRepoBinding,
    bs: Vec<GitRepoBinding>,
    commit_sha: String,
    diff: String,
    e: GitRepoError,
    message: String,
    i: int,
)
    requires
        0 <= i < bs@.len(),
    ensures
        git_answer(Ok(GitDone::Created(b))) == http::json_reply(201, b.shown()),
        git_answer(Ok(GitDone::Found(b))) == http::json_reply(200, b.shown()),
        ({
            &&& git_answer(Ok(GitDone::Listed(bs))).status == 200
            &&& git_answer(Ok(GitDone::Listed(bs))).body matches Some(JsonView::Arr(shown))
            &&& shown.len() == bs@.len()
            &&& shown[i] == bs@[i].shown()
        }),
        git_answer(Ok(GitDone::Committed { commit_sha })).body matches Some(body) && body.get(
            "commit_sha"@,
        ) == Some(JsonView::Str(commit_sha@)),
        git_answer(Ok(GitDone::Compared { diff })).body matches Some(body) && body.get("diff"@)
            == Some(JsonView::Str(diff@)),
        git_answer(Ok(GitDone::Pushed)).status == 204,
        git_answer(Ok(GitDone::Deleted)).status == 200,
        git_answer(Ok(GitDone::Refreshed)).status == 200,
        git_answer(Ok(GitDone::WebhookTaken)).status == 202,
        git_answer(Err((e, message))).status == git_error_status(e),
        git_answer(Err((e, message))).body matches Some(body) && body.get("error"@) == Some(
            JsonView::Str(message@),
        ),
{
    broadcast use crate::json::lemma_get_with;

}

/// A webhook is by the host whose header it has, in this order.
pub proof fn law_webhooks_are_by_their_host(
    a: Seq<char>,
    b: Option<Seq<char>>,
    c: Option<Seq<char>>,
)
    ensures
        webhook_auth(Some(a), b, c) == Some((WebhookProvider::GitHub, a)),
        webhook_auth(None, Some(a), c) == Some((WebhookProvider::GitLab, a)),
        webhook_auth(None, None, Some(a)) == Some((WebhookProvider::Bitbucket, a)),
        webhook_auth(None, None, None) is None,
{
}

} // verus!
