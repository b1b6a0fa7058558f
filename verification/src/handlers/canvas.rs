//! Canvas sessions, and the stream of what happens in one.

use crate::handlers;
use crate::handlers::Owner;
use crate::http;
use crate::http::Reply;
use crate::identity;
use crate::identity::{TenantId, UserIdentity, UserIdentityView, ZaruTier};
use crate::json::{Json, JsonView};
use crate::operator_read_models::Moment;
use crate::{operator_read_models, primitives, text};
use vstd::prelude::*;

verus! {

/// Why an operation on a session failed.
#[derive(Clone, Copy, PartialEq, Eq, Structural, Debug)]
pub enum CanvasError {
    NotFound,
    NotOwned,
    NotAllowedByTier,
    GitBindingNotFound,
    GitBindingNotReady,
    InvalidCommand,
    VolumeProvisioningFailed,
    RepositoryError,
}

/// The status that a failed operation on a session is answered with. A session of
/// someone else is answered like one that is not there.
pub open spec fn canvas_error_status(e: CanvasError) -> u16 {
    match e {
        CanvasError::NotFound => 404,
        CanvasError::NotOwned => 404,
        CanvasError::NotAllowedByTier => 403,
        CanvasError::GitBindingNotFound => 404,
        CanvasError::GitBindingNotReady => 409,
        CanvasError::InvalidCommand => 400,
        CanvasError::VolumeProvisioningFailed => 500,
        CanvasError::RepositoryError => 500,
    }
}

/// The answer to a failed operation on a session.
pub fn canvas_error_response(e: CanvasError, message: &str) -> (r: Reply)
    ensures
        r@ == http::error_reply(canvas_error_status(e), message@),
{
    let status: u16 = match e {
        CanvasError::NotFound | CanvasError::NotOwned => 404,
        CanvasError::NotAllowedByTier => 403,
        CanvasError::GitBindingNotFound => 404,
        CanvasError::GitBindingNotReady => 409,
        CanvasError::InvalidCommand => 400,
        CanvasError::VolumeProvisioningFailed | CanvasError::RepositoryError => 500,
    };
    Reply::error(status, message)
}

/// What a session works on.
pub enum WorkspaceMode {
    /// A repository.
    GitLinked { binding_id: u128 },
    /// Something else, as it was given.
    Other(Json),
}

/// A request to create a session.
pub struct CreateCanvasSessionRequest {
    pub conversation_id: Option<u128>,
    pub workspace_mode: WorkspaceMode,
    pub git_binding_id: Option<u128>,
}

/// The order to create a session.
pub struct CreateCanvasSessionCommand {
    pub tenant_id: TenantId,
    pub owner: String,
    pub tier: ZaruTier,
    pub conversation_id: u128,
    pub workspace_mode: WorkspaceMode,
}

/// Whether a request names two repositories that differ.
pub open spec fn contradicts(request: CreateCanvasSessionRequest) -> bool {
    request.workspace_mode matches WorkspaceMode::GitLinked { binding_id }
        && request.git_binding_id is Some && request.git_binding_id->Some_0 != binding_id
}

/// The answer where there is no service for sessions.
pub open spec fn no_canvas() -> http::ReplyView {
    http::error_reply(503, "canvas service not configured"@)
}

/// What is wrong with a request that names two repositories that differ.
pub open spec fn contradiction() -> Seq<char> {
    "git_binding_id does not match WorkspaceMode::GitLinked payload"@
}

/// Whether an order creates a session as a request asks, for the caller.
pub open spec fn creates(
    order: CreateCanvasSessionCommand,
    request: CreateCanvasSessionRequest,
    caller: Option<UserIdentityView>,
    default_tenant: Seq<char>,
) -> bool {
    &&& order.tenant_id@ == handlers::tenant_of_identity(caller, default_tenant)
    &&& order.owner@ == identity::sub_of(caller)
    &&& order.tier == identity::tier_of(caller)
    &&& request.conversation_id matches Some(id) ==> order.conversation_id == id
    &&& order.workspace_mode == request.workspace_mode
}

/// The order that a request to create a session leads to, given a fresh identifier
/// for a new conversation.
pub fn create_session(
    request: CreateCanvasSessionRequest,
    caller: Option<&UserIdentity>,
    default_tenant: &TenantId,
    fresh: u128,
) -> (r: Result<CreateCanvasSessionCommand, String>)
    ensures
        if contradicts(request) {
            r matches Err(message) && message@ == contradiction()
        } else {
            r matches Ok(order) && creates(
                order,
                request,
                identity::opt_identity(caller),
                default_tenant@,
            ) && (request.conversation_id is None ==> order.conversation_id == fresh)
        },
{
    let contradicted = match (&request.workspace_mode, request.git_binding_id) {
        (WorkspaceMode::GitLinked { binding_id }, Some(named)) => *binding_id != named,
        _ => false,
    };
    if contradicted {
        return Err("git_binding_id does not match WorkspaceMode::GitLinked payload".to_owned());
    }
    let conversation_id: u128 = match request.conversation_id {
        Some(id) => id,
        None => fresh,
    };
    Ok(
        CreateCanvasSessionCommand {
            tenant_id: handlers::tenant_id_from_identity(caller, default_tenant),
            owner: identity::user_sub(caller),
            tier: identity::user_tier(caller),
            conversation_id,
            workspace_mode: request.workspace_mode,
        },
    )
}

/// A session that is created has one repository at most: the one that the request
/// names, however it names it.
pub proof fn law_sessions_have_one_repository(
    order: CreateCanvasSessionCommand,
    request: CreateCanvasSessionRequest,
    caller: Option<UserIdentityView>,
    default_tenant: Seq<char>,
)
    requires
        !contradicts(request),
        creates(order, request, caller, default_tenant),
    ensures
        order.workspace_mode matches WorkspaceMode::GitLinked { binding_id }
            ==> request.git_binding_id is None || request.git_binding_id == Some(binding_id),
{
}

/// What a request about sessions asks for.
pub enum CanvasAsk {
    Create(CreateCanvasSessionRequest),
    List,
    Get { id: u128 },
    Terminate { id: u128 },
    /// The stream of a session's events.
    Stream { id: u128 },
}

/// What the service of sessions is called for.
pub enum CanvasCall {
    Create(CreateCanvasSessionCommand),
    List { owner: Owner },
    Get { id: u128, owner: Owner },
    Terminate { id: u128, owner: Owner },
    /// The session is looked up before its events are streamed.
    Admit { id: u128, owner: Owner },
}

/// Why a request about sessions is refused.
pub enum CanvasRefusal {
    /// There is no service for sessions; this is the answer.
    NotConfigured(Reply),
    /// The request contradicts itself, in the given way; it is answered like an
    /// invalid command.
    InvalidCommand(String),
}

/// Whether a call is the one that a caller asks for: it is about the caller's own
/// sessions.
pub open spec fn is_call(
    call: CanvasCall,
    ask: CanvasAsk,
    caller: Option<UserIdentityView>,
    default_tenant: Seq<char>,
) -> bool {
    let whose = handlers::owner_of(caller, default_tenant);
    match (ask, call) {
        (CanvasAsk::Create(request), CanvasCall::Create(order)) => creates(
            order,
            request,
            caller,
            default_tenant,
        ),
        (CanvasAsk::List, CanvasCall::List { owner }) => owner@ == whose,
        (CanvasAsk::Get { id: asked }, CanvasCall::Get { id, owner }) => id == asked && owner@
            == whose,
        (CanvasAsk::Terminate { id: asked }, CanvasCall::Terminate { id, owner }) => id == asked
            && owner@ == whose,
        (CanvasAsk::Stream { id: asked }, CanvasCall::Admit { id, owner }) => id == asked
            && owner@ == whose,
        _ => false,
    }
}

/// What a request about sessions leads to, given a fresh identifier for a new
/// conversation: a call of their service, or a refusal.
pub fn begin_canvas_with(
    ask: CanvasAsk,
    caller: Option<&UserIdentity>,
    default_tenant: &TenantId,
    configured: bool,
    fresh: u128,
) -> (r: Result<CanvasCall, CanvasRefusal>)
    ensures
        if !configured {
            r matches Err(CanvasRefusal::NotConfigured(reply)) && reply@ == no_canvas()
        } else if ask matches CanvasAsk::Create(request) && contradicts(request) {
            r matches Err(CanvasRefusal::InvalidCommand(message)) && message@ == contradiction()
        } else {
            r matches Ok(call) && is_call(
                call,
                ask,
                identity::opt_identity(caller),
                default_tenant@,
            ) && (ask matches CanvasAsk::Create(request) ==> request.conversation_id is None ==> (
            call matches CanvasCall::Create(order) && order.conversation_id == fresh))
        },
{
    if !configured {
        return Err(
            CanvasRefusal::NotConfigured(Reply::error(503, "canvas service not configured")),
        );
    }
    let owner = handlers::request_owner(caller, default_tenant);
    match ask {
        CanvasAsk::Create(request) => match create_session(
            request,
            caller,
            default_tenant,
            fresh,
        ) {
            Ok(order) => Ok(CanvasCall::Create(order)),
            Err(message) => Err(CanvasRefusal::InvalidCommand(message)),
        },
        CanvasAsk::List => Ok(CanvasCall::List { owner }),
        CanvasAsk::Get { id } => Ok(CanvasCall::Get { id, owner }),
        CanvasAsk::Terminate { id } => Ok(CanvasCall::Terminate { id, owner }),
        CanvasAsk::Stream { id } => Ok(CanvasCall::Admit { id, owner }),
    }
}

/// What a request about sessions leads to: a call of their service, or a refusal. A
/// new conversation gets a random identifier.
pub fn begin_canvas(
    ask: CanvasAsk,
    caller: Option<&UserIdentity>,
    default_tenant: &TenantId,
    configured: bool,
) -> (r: Result<CanvasCall, CanvasRefusal>)
    ensures
        if !configured {
            r matches Err(CanvasRefusal::NotConfigured(reply)) && reply@ == no_canvas()
        } else if ask matches CanvasAsk::Create(request) && contradicts(request) {
            r matches Err(CanvasRefusal::InvalidCommand(message)) && message@ == contradiction()
        } else {
            r matches Ok(call) && is_call(
                call,
                ask,
                identity::opt_identity(caller),
                default_tenant@,
            ) && (ask matches CanvasAsk::Create(request) ==> request.conversation_id is None ==> (
            call matches CanvasCall::Create(order) && primitives::is_random_uuid(
                order.conversation_id,
            )))
        },
{
    begin_canvas_with(ask, caller, default_tenant, configured, primitives::random_uuid())
}

/// A session, as it is shown.
pub struct CanvasSession {
    pub id: String,
    pub tenant_id: TenantId,
    pub conversation_id: String,
    pub workspace_volume_id: String,
    pub git_binding_id: Option<String>,
    pub workspace_mode: Json,
    pub status: String,
    pub created_at: Moment,
    pub last_active_at: Moment,
}

impl CanvasSession {
    /// The session as it is shown.
    pub open spec fn shown(&self) -> JsonView {
        JsonView::object().with("id"@, JsonView::Str(self.id@)).with(
            "tenant_id"@,
            JsonView::Str(self.tenant_id@),
        ).with("conversation_id"@, JsonView::Str(self.conversation_id@)).with(
            "workspace_volume_id"@,
            JsonView::Str(self.workspace_volume_id@),
        ).with("git_binding_id"@, JsonView::opt_text(text::opt_view(self.git_binding_id))).with(
            "workspace_mode"@,
            self.workspace_mode@,
        ).with("status"@, JsonView::Str(self.status@)).with(
            "created_at"@,
            operator_read_models::moment_shown(self.created_at),
        ).with(
            "last_active_at"@,
            operator_read_models::moment_shown(self.last_active_at),
        )
    }

    /// The session as it is shown.
    pub fn show(&self) -> (r: Json)
        ensures
            r@ == self.shown(),
    {
        Json::object().with("id", Json::text(self.id.as_str())).with(
            "tenant_id",
            Json::text(self.tenant_id.as_str()),
        ).with("conversation_id", Json::text(self.conversation_id.as_str())).with(
            "workspace_volume_id",
            Json::text(self.workspace_volume_id.as_str()),
        ).with("git_binding_id", Json::opt_text(&self.git_binding_id)).with(
            "workspace_mode",
            self.workspace_mode.copy(),
        ).with("status", Json::text(self.status.as_str())).with(
            "created_at",
            operator_read_models::show_moment(self.created_at),
        ).with("last_active_at", operator_read_models::show_moment(self.last_active_at))
    }
}

fn list_sessions_reply(sessions: &Vec<CanvasSession>) -> (r: Reply)
    ensures
        r@ == http::json_reply(
            200,
            JsonView::Arr(sessions@.map_values(|s: CanvasSession| s.shown())),
        ),
{
    let mut items: Vec<Json> = Vec::new();
    let mut i: usize = 0;
    while i < sessions.len()
        invariant
            i <= sessions@.len(),
            items@.len() == i,
            forall|k: int| 0 <= k < i ==> #[trigger] items@[k]@ == sessions@[k].shown(),
        decreases sessions@.len() - i,
    {
        items.push(sessions[i].show());
        i += 1;
    }
    assert(crate::json::json_views(items@) =~= sessions@.map_values(|s: CanvasSession| s.shown()));
    Reply::json(200, Json::array(items))
}

/// What came of a call of the service of sessions.
pub enum CanvasDone {
    Created(CanvasSession),
    Listed(Vec<CanvasSession>),
    Found(CanvasSession),
    Terminated,
    /// The session whose events are to be streamed is the caller's.
    Admitted,
}

/// What a request about sessions is answered, once the service was called. Where it
/// is admitted to a stream, nothing: the stream is opened.
pub open spec fn canvas_answer(outcome: Result<CanvasDone, (CanvasError, String)>) -> Option<
    http::ReplyView,
> {
    match outcome {
        Ok(CanvasDone::Created(session)) => Some(http::json_reply(201, session.shown())),
        Ok(CanvasDone::Listed(sessions)) => Some(
            http::json_reply(
                200,
                JsonView::Arr(sessions@.map_values(|s: CanvasSession| s.shown())),
            ),
        ),
        Ok(CanvasDone::Found(session)) => Some(http::json_reply(200, session.shown())),
        Ok(CanvasDone::Terminated) => Some(handlers::volumes::success()),
        Ok(CanvasDone::Admitted) => None,
        Err((e, message)) => Some(http::error_reply(canvas_error_status(e), message@)),
    }
}

/// What a request about sessions is answered, once the service was called; nothing
/// where its stream is opened.
pub fn canvas_reply(outcome: Result<CanvasDone, (CanvasError, String)>) -> (r: Option<Reply>)
    ensures
        (match r {
            Some(reply) => Some(reply@),
            None => None,
        }) == canvas_answer(outcome),
{
    match outcome {
        Ok(CanvasDone::Created(session)) => Some(Reply::json(201, session.show())),
        Ok(CanvasDone::Listed(sessions)) => Some(list_sessions_reply(&sessions)),
        Ok(CanvasDone::Found(session)) => Some(Reply::json(200, session.show())),
        Ok(CanvasDone::Terminated) => Some(handlers::volumes::success_reply()),
        Ok(CanvasDone::Admitted) => None,
        Err((e, message)) => Some(canvas_error_response(e, message.as_str())),
    }
}

/// What happens in a session.
#[derive(Clone, Copy, PartialEq, Eq, Structural, Debug)]
pub enum CanvasEventKind {
    SessionCreated,
    FilesWrittenByAgent,
    GitCommitMade,
    GitPushed,
    SessionTerminated,
}

/// The name of an event on the stream.
pub open spec fn event_name(kind: CanvasEventKind) -> Seq<char> {
    match kind {
        CanvasEventKind::SessionCreated => "canvas_session_created"@,
        CanvasEventKind::FilesWrittenByAgent => "canvas_files_written_by_agent"@,
        CanvasEventKind::GitCommitMade => "canvas_git_commit_made"@,
        CanvasEventKind::GitPushed => "canvas_git_pushed"@,
        CanvasEventKind::SessionTerminated => "canvas_session_terminated"@,
    }
}

/// The name of an event on the stream.
pub fn canvas_event_name(kind: CanvasEventKind) -> (r: &'static str)
    ensures
        r@ == event_name(kind),
{
    match kind {
        CanvasEventKind::SessionCreated => "canvas_session_created",
        CanvasEventKind::FilesWrittenByAgent => "canvas_files_written_by_agent",
        CanvasEventKind::GitCommitMade => "canvas_git_commit_made",
        CanvasEventKind::GitPushed => "canvas_git_pushed",
        CanvasEventKind::SessionTerminated => "canvas_session_terminated",
    }
}

/// The longest time, in seconds, that a stream waits for an event.
pub const IDLE_TIMEOUT_SECS: u64 = 120;

/// How often, in seconds, a stream shows that it is alive.
pub const KEEP_ALIVE_SECS: u64 = 20;

/// What a stream meets next.
pub enum StreamInput {
    /// Nothing, for as long as the stream waits.
    TimedOut,
    /// The end of the source of events.
    Closed,
    /// An event about something else.
    Unrelated,
    /// An event of some session. The payload is missing where it cannot be written
    /// down.
    Canvas { kind: CanvasEventKind, session_id: u128, payload: Option<String> },
}

/// What a stream does next.
pub enum StreamAction {
    /// It ends.
    Close,
    /// It waits for the next event.
    Skip,
    /// It sends an event, and perhaps ends.
    Emit { name: &'static str, payload: String, close: bool },
}

/// The mathematical content of what a stream does next.
pub enum StreamActionView {
    Close,
    Skip,
    Emit { name: Seq<char>, payload: Seq<char>, close: bool },
}

impl View for StreamAction {
    type V = StreamActionView;

    open spec fn view(&self) -> StreamActionView {
        match self {
            StreamAction::Close => StreamActionView::Close,
            StreamAction::Skip => StreamActionView::Skip,
            StreamAction::Emit { name, payload, close } => StreamActionView::Emit {
                name: name@,
                payload: payload@,
                close: *close,
            },
        }
    }
}

/// What the stream of a session does next: it sends the events of its own session,
/// and ends after the one that ends the session.
pub open spec fn stream_next(session_id: u128, input: StreamInput) -> StreamActionView {
    match input {
        StreamInput::TimedOut => StreamActionView::Close,
        StreamInput::Closed => StreamActionView::Close,
        StreamInput::Unrelated => StreamActionView::Skip,
        StreamInput::Canvas { kind, session_id: of, payload } => if of == session_id
            && payload is Some {
            StreamActionView::Emit {
                name: event_name(kind),
                payload: payload->Some_0@,
                close: kind == CanvasEventKind::SessionTerminated,
            }
        } else {
            StreamActionView::Skip
        },
    }
}

/// Decides what the stream of a session does next.
pub fn canvas_event_stream(session_id: u128, input: StreamInput) -> (r: StreamAction)
    ensures
        r@ == stream_next(session_id, input),
{
    match input {
        StreamInput::TimedOut | StreamInput::Closed => StreamAction::Close,
        StreamInput::Unrelated => StreamAction::Skip,
        StreamInput::Canvas { kind, session_id: of, payload } => {
            if of != session_id {
                return StreamAction::Skip;
            }
            match payload {
                Some(p) => StreamAction::Emit {
                    name: canvas_event_name(kind),
                    payload: p,
                    close: kind == CanvasEventKind::SessionTerminated,
                },
                None => StreamAction::Skip,
            }
        },
    }
}

/// A session of someone else is answered like one that is not there, and its events
/// are not streamed.
pub proof fn law_foreign_sessions_are_not_there(message: String)
    ensures
        canvas_answer(Err((CanvasError::NotOwned, message))) == canvas_answer(
            Err((CanvasError::NotFound, message)),
        ),
        canvas_answer(Err((CanvasError::NotOwned, message))) is Some,
{
}

/// A stream never sends an event of another session.
pub proof fn law_streams_are_of_one_session(session_id: u128, input: StreamInput)
    ensures
        stream_next(session_id, input) is Emit ==> (input matches StreamInput::Canvas {
            session_id: of,
            ..
        } && of == session_id),
{
}

/// A stream that sends the end of its session ends with it.
pub proof fn law_streams_end_with_their_session(session_id: u128, payload: String)
    ensures
        stream_next(
            session_id,
            StreamInput::Canvas {
                kind: CanvasEventKind::SessionTerminated,
                session_id,
                payload: Some(payload),
            },
        ) matches StreamActionView::Emit { close, .. } && close,
{
}

/// The session as it is shown: each part is found under its own name, as it is.
pub proof fn law_canvas_session_shown_holds_its_parts(
    row: CanvasSession,
)
    ensures
        row.shown().get("id"@) == Some(JsonView::Str(row.id@)),
        row.shown().get("tenant_id"@) == Some(JsonView::Str(row.tenant_id@)),
        row.shown().get("conversation_id"@) == Some(JsonView::Str(row.conversation_id@)),
        row.shown().get("workspace_volume_id"@) == Some(JsonView::Str(row.workspace_volume_id@)),
        row.shown().get("git_binding_id"@) == Some(JsonView::opt_text(text::opt_view(row.git_binding_id))),
        row.shown().get("workspace_mode"@) == Some(row.workspace_mode@),
        row.shown().get("status"@) == Some(JsonView::Str(row.status@)),
        row.shown().get("created_at"@) == Some(operator_read_models::moment_shown(row.created_at)),
        row.shown().get("last_active_at"@) == Some(operator_read_models::moment_shown(row.last_active_at)),
{
    broadcast use crate::json::lemma_get_with;

    reveal_strlit("id");
    reveal_strlit("tenant_id");
    reveal_strlit("conversation_id");
    reveal_strlit("workspace_volume_id");
    reveal_strlit("git_binding_id");
    reveal_strlit("workspace_mode");
    reveal_strlit("status");
    reveal_strlit("created_at");
    reveal_strlit("last_active_at");
    assert("id"@.len() == 2 && "tenant_id"@.len() == 9 && "conversation_id"@.len() == 15 && "workspace_volume_id"@.len() == 19 && "git_binding_id"@.len() == 14 && "workspace_mode"@.len() == 14 && "status"@.len() == 6 && "created_at"@.len() == 10 && "last_active_at"@.len() == 14 && "workspace_mode"@[0] == 'w' && "git_binding_id"@[0] == 'g' && "last_active_at"@[0] == 'l');
}

/// What goes wrong with a canvas is answered by its kind.
pub proof fn law_canvas_failures_by_status(e: CanvasError)
    ensures
        canvas_error_status(e) == 404 <==> e == CanvasError::NotFound || e == CanvasError::NotOwned
            || e == CanvasError::GitBindingNotFound,
        canvas_error_status(e) == 403 <==> e == CanvasError::NotAllowedByTier,
        canvas_error_status(e) == 409 <==> e == CanvasError::GitBindingNotReady,
        canvas_error_status(e) == 400 <==> e == CanvasError::InvalidCommand,
        canvas_error_status(e) == 500 <==> e == CanvasError::VolumeProvisioningFailed || e
            == CanvasError::RepositoryError,
{
}

/// A request contradicts itself only where it is linked to one binding and names another.
pub proof fn law_contradictions(request: CreateCanvasSessionRequest)
    ensures
        request.git_binding_id is None ==> !contradicts(request),
        !(request.workspace_mode is GitLinked) ==> !contradicts(request),
        request.git_binding_id matches Some(a) ==> (
        request.workspace_mode matches WorkspaceMode::GitLinked { binding_id } ==> (contradicts(
            request,
        ) <==> a != binding_id)),
{
}

/// A call on a canvas is of the caller: for the session that is asked for, or in their
/// tenant and their name.
pub proof fn law_canvas_calls_are_the_callers(
    call: CanvasCall,
    id: u128,
    caller: Option<UserIdentityView>,
    default: Seq<char>,
)
    ensures
        is_call(call, CanvasAsk::Get { id }, caller, default) ==> (call matches CanvasCall::Get {
            id: of,
            owner,
        } && of == id && owner@ == handlers::owner_of(caller, default)),
        is_call(call, CanvasAsk::Terminate { id }, caller, default) ==> (
        call matches CanvasCall::Terminate { id: of, owner } && of == id && owner@
            == handlers::owner_of(caller, default)),
        is_call(call, CanvasAsk::Stream { id }, caller, default) ==> (
        call matches CanvasCall::Admit { id: of, owner } && of == id && owner@
            == handlers::owner_of(caller, default)),
        is_call(call, CanvasAsk::List, caller, default) ==> (call matches CanvasCall::List {
            owner,
        } && owner@ == handlers::owner_of(caller, default)),
{
}

/// A session is created in the tenant and the name of the caller, at their tier, in the
/// mode that is asked for and in the conversation that is named.
pub proof fn law_a_canvas_is_created_as_asked(
    order: CreateCanvasSessionCommand,
    request: CreateCanvasSessionRequest,
    caller: Option<UserIdentityView>,
    default: Seq<char>,
)
    requires
        is_call(CanvasCall::Create(order), CanvasAsk::Create(request), caller, default),
    ensures
        order.tenant_id@ == handlers::tenant_of_identity(caller, default),
        caller matches Some(i) ==> order.owner@ == i.sub,
        caller is None ==> order.owner@ == "anonymous"@,
        order.tier == identity::tier_of(caller),
        order.workspace_mode == request.workspace_mode,
        request.conversation_id matches Some(id) ==> order.conversation_id == id,
{
}

/// What was done to a canvas is answered: a new session 201, a list with every session, a
/// session as it is, and a failure by its kind with its message.
pub proof fn law_canvas_answers(
    session: CanvasSession,
    sessions: Vec<CanvasSession>,
    e: CanvasError,
    message: String,
    i: int,
)
    requires
        0 <= i < sessions@.len(),
    ensures
        canvas_answer(Ok(CanvasDone::Created(session))) == Some(
            http::json_reply(201, session.shown()),
        ),
        canvas_answer(Ok(CanvasDone::Found(session))) == Some(
            http::json_reply(200, session.shown()),
        ),
        ({
            &&& canvas_answer(Ok(CanvasDone::Listed(sessions))) matches Some(reply)
            &&& reply.status == 200
            &&& reply.body matches Some(JsonView::Arr(shown))
            &&& shown.len() == sessions@.len()
            &&& shown[i] == sessions@[i].shown()
        }),
        canvas_answer(Ok(CanvasDone::Terminated)) matches Some(reply) && reply.status == 200,
        canvas_answer(Ok(CanvasDone::Admitted)) is None,
        canvas_answer(Err((e, message))) matches Some(reply) && reply.status
            == canvas_error_status(e) && (reply.body matches Some(body) && body.get("error"@)
            == Some(JsonView::Str(message@))),
{
    broadcast use crate::json::lemma_get_with;

}

/// A stream tells the events of its own session, under their names, and closes after the
/// end of the session; other events pass.
pub proof fn law_a_stream_tells_its_own_session(
    session_id: u128,
    of: u128,
    kind: CanvasEventKind,
    payload: String,
)
    ensures
        of == session_id ==> (stream_next(
            session_id,
            StreamInput::Canvas { kind, session_id: of, payload: Some(payload) },
        ) matches StreamActionView::Emit { name, payload: told, close } && name == event_name(kind)
            && told == payload@ && (close <==> kind == CanvasEventKind::SessionTerminated)),
        of != session_id ==> stream_next(
            session_id,
            StreamInput::Canvas { kind, session_id: of, payload: Some(payload) },
        ) == StreamActionView::Skip,
        stream_next(session_id, StreamInput::Canvas { kind, session_id: of, payload: None })
            == StreamActionView::Skip,
        stream_next(session_id, StreamInput::Unrelated) == StreamActionView::Skip,
        stream_next(session_id, StreamInput::TimedOut) == StreamActionView::Close,
        stream_next(session_id, StreamInput::Closed) == StreamActionView::Close,
        event_name(CanvasEventKind::SessionCreated) == "canvas_session_created"@,
        event_name(CanvasEventKind::FilesWrittenByAgent) == "canvas_files_written_by_agent"@,
        event_name(CanvasEventKind::GitCommitMade) == "canvas_git_commit_made"@,
        event_name(CanvasEventKind::GitPushed) == "canvas_git_pushed"@,
        event_name(CanvasEventKind::SessionTerminated) == "canvas_session_terminated"@,
{
}

} // verus!
