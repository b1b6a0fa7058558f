//! The gateway that agents send their messages to, and the events of the workflow
//! worker.

use crate::http::Reply;
use crate::identity::{IdentityKind, IdentityKindView, TenantId, UserIdentity, UserIdentityView, ZaruTier};
use crate::json::{Json, JsonView};
use crate::{http, identity, primitives, text};
use vstd::prelude::*;

verus! {

/// A message of an agent.
pub enum AgentMessage {
    Generate {
        execution_id: String,
        iteration_number: u64,
        prompt: String,
        model_alias: String,
    },
    DispatchResult { execution_id: String },
}

/// What the gateway reads of a message.
pub struct DispatchRequest {
    pub execution_id: Option<u128>,
    pub iteration_number: u64,
    pub prompt: Option<String>,
    pub model_alias: Option<String>,
}

/// The mathematical content of what the gateway reads of a message.
pub struct DispatchRequestView {
    pub execution_id: Option<u128>,
    pub iteration_number: u64,
    pub prompt: Option<Seq<char>>,
    pub model_alias: Option<Seq<char>>,
}

impl View for DispatchRequest {
    type V = DispatchRequestView;

    open spec fn view(&self) -> DispatchRequestView {
        DispatchRequestView {
            execution_id: self.execution_id,
            iteration_number: self.iteration_number,
            prompt: text::opt_view(self.prompt),
            model_alias: text::opt_view(self.model_alias),
        }
    }
}

impl DispatchRequest {
    /// The same once more.
    pub fn copy(&self) -> (r: Self)
        ensures
            r@ == self@,
    {
        DispatchRequest {
            execution_id: self.execution_id,
            iteration_number: self.iteration_number,
            prompt: self.prompt.clone(),
            model_alias: self.model_alias.clone(),
        }
    }
}

/// The text that names the execution of a message.
pub open spec fn execution_text(message: AgentMessage) -> Seq<char> {
    match message {
        AgentMessage::Generate { execution_id, .. } => execution_id@,
        AgentMessage::DispatchResult { execution_id } => execution_id@,
    }
}

/// What the gateway reads of a message, given the execution that its text denotes.
pub open spec fn request_of(message: AgentMessage, execution_id: Option<u128>) -> DispatchRequestView {
    match message {
        AgentMessage::Generate { iteration_number, prompt, model_alias, .. } => {
            DispatchRequestView {
                execution_id,
                iteration_number,
                prompt: Some(prompt@),
                model_alias: Some(model_alias@),
            }
        },
        AgentMessage::DispatchResult { .. } => DispatchRequestView {
            execution_id,
            iteration_number: 0,
            prompt: None,
            model_alias: None,
        },
    }
}

/// What the gateway reads of a message, given the execution that its text denotes.
pub fn dispatch_request_of(message: &AgentMessage, execution_id: Option<u128>) -> (r:
    DispatchRequest)
    ensures
        r@ == request_of(*message, execution_id),
{
    match message {
        AgentMessage::Generate { iteration_number, prompt, model_alias, .. } => DispatchRequest {
            execution_id,
            iteration_number: *iteration_number,
            prompt: Some(prompt.clone()),
            model_alias: Some(model_alias.clone()),
        },
        AgentMessage::DispatchResult { .. } => DispatchRequest {
            execution_id,
            iteration_number: 0,
            prompt: None,
            model_alias: None,
        },
    }
}

/// What the gateway reads of a message.
pub fn dispatch_request(message: &AgentMessage) -> (r: DispatchRequest)
    ensures
        r@ == request_of(*message, primitives::parsed_uuid(execution_text(*message))),
{
    let id: Option<u128> = match message {
        AgentMessage::Generate { execution_id, .. } => primitives::parse_uuid(
            execution_id.as_str(),
        ),
        AgentMessage::DispatchResult { execution_id } => primitives::parse_uuid(
            execution_id.as_str(),
        ),
    };
    dispatch_request_of(message, id)
}

/// What is read of an execution.
pub struct ExecutionRecord {
    pub agent_id: u128,
    pub initiating_user_sub: Option<String>,
    pub tenant_id: TenantId,
}

/// The execution that a reference points to, where there is one.
pub open spec fn opt_record(record: Option<&ExecutionRecord>) -> Option<ExecutionRecord> {
    match record {
        Some(r) => Some(*r),
        None => None,
    }
}

/// The caller on whose behalf an execution runs: the user who started it, as a
/// consumer in the execution's tenant.
pub open spec fn initiator(record: Option<ExecutionRecord>) -> Option<UserIdentityView> {
    match record {
        Some(exec) => match exec.initiating_user_sub {
            Some(sub) => Some(
                UserIdentityView {
                    sub: sub@,
                    realm_slug: "zaru-consumer"@,
                    email: None,
                    name: None,
                    identity_kind: IdentityKindView::ConsumerUser {
                        zaru_tier: ZaruTier::Free,
                        tenant_id: exec.tenant_id@,
                    },
                },
            ),
            None => None,
        },
        None => None,
    }
}

/// The agent of an execution; 0 where the execution is unknown.
pub open spec fn agent_of(record: Option<ExecutionRecord>) -> u128 {
    match record {
        Some(exec) => exec.agent_id,
        None => 0,
    }
}

/// The agent of an execution, and the caller on whose behalf it runs.
pub fn dispatch_identity(record: Option<&ExecutionRecord>) -> (r: (u128, Option<UserIdentity>))
    ensures
        r.0 == agent_of(opt_record(record)),
        (match r.1 {
            Some(i) => Some(i@),
            None => None,
        }) == initiator(opt_record(record)),
{
    match record {
        Some(exec) => {
            let caller = match &exec.initiating_user_sub {
                Some(sub) => Some(
                    UserIdentity {
                        sub: sub.clone(),
                        realm_slug: "zaru-consumer".to_owned(),
                        email: None,
                        name: None,
                        identity_kind: IdentityKind::ConsumerUser {
                            zaru_tier: ZaruTier::Free,
                            tenant_id: exec.tenant_id.clone(),
                        },
                    },
                ),
                None => None,
            };
            (exec.agent_id, caller)
        },
        None => (0, None),
    }
}

/// Why a language model did not answer.
#[derive(Clone, Copy, PartialEq, Eq, Structural, Debug)]
pub enum LlmError {
    Authentication,
    RateLimit,
    ModelNotFound,
    InvalidInput,
    ServiceUnavailable,
    Network,
    Provider,
}

/// The status and the tag that a failure of a language model is answered with.
pub open spec fn llm_status(e: LlmError) -> (u16, Seq<char>) {
    match e {
        LlmError::Authentication => (502, "upstream_authentication"@),
        LlmError::RateLimit => (429, "upstream_rate_limit"@),
        LlmError::ModelNotFound => (502, "upstream_model_not_found"@),
        LlmError::InvalidInput => (502, "upstream_invalid_input"@),
        LlmError::ServiceUnavailable => (503, "upstream_unavailable"@),
        LlmError::Network => (502, "upstream_network"@),
        LlmError::Provider => (502, "upstream_provider"@),
    }
}

/// The status and the tag that a failure of a language model is answered with.
pub fn llm_error_to_status(e: &LlmError) -> (r: (u16, &'static str))
    ensures
        (r.0, r.1@) == llm_status(*e),
{
    match e {
        LlmError::Authentication => (502, "upstream_authentication"),
        LlmError::RateLimit => (429, "upstream_rate_limit"),
        LlmError::ModelNotFound => (502, "upstream_model_not_found"),
        LlmError::InvalidInput => (502, "upstream_invalid_input"),
        LlmError::ServiceUnavailable => (503, "upstream_unavailable"),
        LlmError::Network => (502, "upstream_network"),
        LlmError::Provider => (502, "upstream_provider"),
    }
}

/// What came of a message.
pub enum InnerLoopOutcome {
    /// The agent is answered, after a number of tool calls.
    Done { content: String, tool_calls_executed: u64, trajectory_len: usize },
    /// The agent is to act. The action is missing where it cannot be written down.
    Dispatch { action: Option<Json> },
    /// The language model failed.
    LlmFailed { error: LlmError, message: String },
    /// Something else failed.
    Failed { message: String },
}

/// The provider that exchanges and failures are published under.
pub const PROVIDER: &'static str = "orchestrator";

/// An exchange with a language model, as it is published and recorded.
pub struct Interaction {
    pub execution_id: u128,
    pub agent_id: u128,
    pub iteration_number: u64,
    pub provider: &'static str,
    pub model: String,
    pub input_tokens: Option<u64>,
    pub output_tokens: Option<u64>,
    pub prompt: String,
    pub response: String,
    /// Whether the steps that led to the answer are stored with it.
    pub store_trajectory: bool,
}

/// A failure of a language model, as it is published. How often and for how long
/// the call was tried is not known here: the counts are 0.
pub struct CallFailure {
    pub execution_id: u128,
    pub agent_id: u128,
    pub iteration_number: u64,
    pub provider: &'static str,
    pub model: String,
    pub error: LlmError,
    pub message: String,
    pub attempts: u32,
    pub elapsed_ms: u64,
    pub fallback_attempted: bool,
}

/// What the gateway does after a message was handled.
pub struct DispatchPlan {
    pub reply: Reply,
    pub interaction: Option<Interaction>,
    pub failure: Option<CallFailure>,
}

/// How the outcome of a message is answered.
pub open spec fn dispatch_answer(outcome: InnerLoopOutcome) -> http::ReplyView {
    match outcome {
        InnerLoopOutcome::Done { content, tool_calls_executed, .. } => http::json_reply(
            200,
            JsonView::object().with("content"@, JsonView::Str(content@)).with(
                "tool_calls_executed"@,
                JsonView::Int(tool_calls_executed as int),
            ),
        ),
        InnerLoopOutcome::Dispatch { action } => match action {
            Some(m) => http::json_reply(200, m@),
            None => http::error_reply(200, "dispatch serialization failed"@),
        },
        InnerLoopOutcome::LlmFailed { error, message } => http::error_reply(
            llm_status(error).0,
            llm_status(error).1 + ": "@ + message@,
        ),
        InnerLoopOutcome::Failed { message } => http::error_reply(500, message@),
    }
}

/// Whether an exchange is recorded: the agent and the execution are known, and the
/// message was a request to generate.
pub open spec fn recorded(request: DispatchRequestView, agent_id: u128, outcome: InnerLoopOutcome) -> bool {
    &&& outcome is Done
    &&& agent_id != 0
    &&& request.execution_id is Some
    &&& request.prompt is Some
    &&& request.model_alias is Some
}

/// Whether a failure is published: the agent, the execution and the model are known.
pub open spec fn failure_published(
    request: DispatchRequestView,
    agent_id: u128,
    outcome: InnerLoopOutcome,
) -> bool {
    &&& outcome is LlmFailed
    &&& agent_id != 0
    &&& request.execution_id is Some
    &&& request.model_alias is Some
}

/// Decides what the gateway does after a message was handled.
pub fn dispatch_gateway(request: DispatchRequest, agent_id: u128, outcome: InnerLoopOutcome) -> (r:
    DispatchPlan)
    ensures
        is_plan(r, request@, agent_id, outcome),
{
    match outcome {
        InnerLoopOutcome::Done { content, tool_calls_executed, trajectory_len } => {
            let interaction = match (request.execution_id, request.prompt, request.model_alias) {
                (Some(execution_id), Some(prompt), Some(model)) => if agent_id != 0 {
                    Some(
                        Interaction {
                            execution_id,
                            agent_id,
                            iteration_number: request.iteration_number,
                            provider: PROVIDER,
                            model,
                            input_tokens: None,
                            output_tokens: None,
                            prompt,
                            response: content.clone(),
                            store_trajectory: trajectory_len > 0,
                        },
                    )
                } else {
                    None
                },
                _ => None,
            };
            DispatchPlan {
                reply: Reply::json(
                    200,
                    Json::object().with("content", Json::Str(content)).with(
                        "tool_calls_executed",
                        Json::Int(tool_calls_executed as i128),
                    ),
                ),
                interaction,
                failure: None,
            }
        },
        InnerLoopOutcome::Dispatch { action } => DispatchPlan {
            reply: match action {
                Some(m) => Reply::json(200, m),
                None => Reply::error(200, "dispatch serialization failed"),
            },
            interaction: None,
            failure: None,
        },
        InnerLoopOutcome::LlmFailed { error, message } => {
            let (status, tag) = llm_error_to_status(&error);
            let body = tag.to_owned().concat(": ").concat(message.as_str());
            let failure = match (request.execution_id, request.model_alias) {
                (Some(execution_id), Some(model)) => if agent_id != 0 {
                    Some(
                        CallFailure {
                            execution_id,
                            agent_id,
                            iteration_number: request.iteration_number,
                            provider: PROVIDER,
                            model,
                            error,
                            message,
                            attempts: 0,
                            elapsed_ms: 0,
                            fallback_attempted: false,
                        },
                    )
                } else {
                    None
                },
                _ => None,
            };
            DispatchPlan {
                reply: Reply::error(status, body.as_str()),
                interaction: None,
                failure,
            }
        },
        InnerLoopOutcome::Failed { message } => DispatchPlan {
            reply: Reply::error(500, message.as_str()),
            interaction: None,
            failure: None,
        },
    }
}

/// What was learnt of a message.
pub enum DispatchEvent {
    Begun,
    /// The execution of the message; missing where it could not be found.
    ExecutionFound(Option<ExecutionRecord>),
    /// The message was handled.
    Handled(InnerLoopOutcome),
}

/// What is done next with a message.
pub enum DispatchAction {
    FindExecution { id: u128 },
    /// Have the message handled, on behalf of the caller given.
    Handle { caller: Option<UserIdentity> },
    /// Publish and record what the plan says. Whatever comes of it, answer.
    Finish(DispatchPlan),
}

/// A message that came in, and the agent that it is about: 0 while that is unknown.
pub struct DispatchFlow {
    pub request: DispatchRequest,
    pub agent_id: u128,
}

/// Whether a plan is the one that the outcome of a message calls for.
pub open spec fn is_plan(
    plan: DispatchPlan,
    request: DispatchRequestView,
    agent_id: u128,
    outcome: InnerLoopOutcome,
) -> bool {
    &&& plan.reply@ == dispatch_answer(outcome)
    &&& plan.interaction is Some == recorded(request, agent_id, outcome)
    &&& plan.interaction matches Some(i) ==> {
        &&& Some(i.execution_id) == request.execution_id
        &&& i.agent_id == agent_id
        &&& i.iteration_number == request.iteration_number
        &&& i.provider@ == PROVIDER@
        &&& i.input_tokens is None
        &&& i.output_tokens is None
        &&& Some(i.model@) == request.model_alias
        &&& Some(i.prompt@) == request.prompt
        &&& i.response@ == outcome->content@
        &&& i.store_trajectory == (outcome->trajectory_len > 0)
    }
    &&& plan.failure is Some == failure_published(request, agent_id, outcome)
    &&& plan.failure matches Some(f) ==> {
        &&& Some(f.execution_id) == request.execution_id
        &&& f.agent_id == agent_id
        &&& f.iteration_number == request.iteration_number
        &&& f.provider@ == PROVIDER@
        &&& f.attempts == 0
        &&& f.elapsed_ms == 0
        &&& !f.fallback_attempted
        &&& Some(f.model@) == request.model_alias
        &&& f.error == outcome->error
        &&& f.message@ == outcome->LlmFailed_message@
    }
}

impl DispatchFlow {
    /// What is known of a message as it comes in.
    pub fn start(message: &AgentMessage) -> (r: Self)
        ensures
            r.request@ == request_of(
                *message,
                primitives::parsed_uuid(execution_text(*message)),
            ),
            r.agent_id == 0,
    {
        DispatchFlow { request: dispatch_request(message), agent_id: 0 }
    }

    /// One step of a message: its execution is found, where the message names one; then
    /// it is handled on behalf of the user who started the execution; then what came of
    /// it is published, recorded and answered.
    pub fn step(&mut self, event: DispatchEvent) -> (action: DispatchAction)
        ensures
            final(self).request@ == old(self).request@,
            final(self).agent_id == (match event {
                DispatchEvent::ExecutionFound(record) => agent_of(record),
                _ => old(self).agent_id,
            }),
            match event {
                DispatchEvent::Begun => match old(self).request@.execution_id {
                    Some(execution) => action matches DispatchAction::FindExecution { id } && id
                        == execution,
                    None => action matches DispatchAction::Handle { caller } && caller is None,
                },
                DispatchEvent::ExecutionFound(record) => action matches DispatchAction::Handle {
                    caller,
                } && identity::held_identity(caller) == initiator(record),
                DispatchEvent::Handled(outcome) => action matches DispatchAction::Finish(plan)
                    && is_plan(plan, old(self).request@, old(self).agent_id, outcome),
            },
    {
        match event {
            DispatchEvent::Begun => match self.request.execution_id {
                Some(id) => DispatchAction::FindExecution { id },
                None => DispatchAction::Handle { caller: None },
            },
            DispatchEvent::ExecutionFound(record) => {
                let (agent_id, caller) = dispatch_identity(record.as_ref());
                self.agent_id = agent_id;
                DispatchAction::Handle { caller }
            },
            DispatchEvent::Handled(outcome) => DispatchAction::Finish(
                dispatch_gateway(self.request.copy(), self.agent_id, outcome),
            ),
        }
    }
}

/// The token in an `Authorization` header.
pub open spec fn bearer_token(header: Option<Seq<char>>) -> Option<Seq<char>> {
    match header {
        Some(h) => if "Bearer "@.is_prefix_of(h) {
            Some(h.skip("Bearer "@.len() as int))
        } else {
            None
        },
        None => None,
    }
}

/// Whether a caller is the workflow worker.
pub open spec fn is_temporal_worker(caller: Option<UserIdentityView>) -> bool {
    match caller {
        Some(i) => i.identity_kind == IdentityKindView::ServiceAccount {
            client_id: "aegis-temporal-worker"@,
        },
        None => false,
    }
}

/// What was learnt of an event that claims to come from the workflow worker.
pub enum TemporalEvent {
    /// The event came in, with the given header; and whether there is a service that
    /// knows callers.
    Begun { authorization: Option<String>, has_iam: bool },
    /// The token was looked at: whose it is, where it is valid.
    Validated(Option<UserIdentity>),
    /// The event was processed: the execution that it was about, or why it could not
    /// be.
    Handled(Result<String, String>),
}

/// What is done next with such an event.
pub enum TemporalAction {
    Validate { token: String },
    Handle,
    Answer(Reply),
}

/// The mathematical content of what is done next with such an event.
pub enum TemporalActionView {
    Validate { token: Seq<char> },
    Handle,
    Answer(http::ReplyView),
}

impl View for TemporalAction {
    type V = TemporalActionView;

    open spec fn view(&self) -> TemporalActionView {
        match self {
            TemporalAction::Validate { token } => TemporalActionView::Validate { token: token@ },
            TemporalAction::Handle => TemporalActionView::Handle,
            TemporalAction::Answer(reply) => TemporalActionView::Answer(reply@),
        }
    }
}

/// What is done next with an event that claims to come from the workflow worker: it is
/// processed only once its token turned out to be the worker's.
pub open spec fn temporal_next(event: TemporalEvent) -> TemporalActionView {
    let refused = TemporalActionView::Answer(http::error_reply(401, "Unauthorized"@));
    match event {
        TemporalEvent::Begun { authorization, has_iam } => match bearer_token(
            text::opt_view(authorization),
        ) {
            Some(token) => if has_iam {
                TemporalActionView::Validate { token }
            } else {
                refused
            },
            None => refused,
        },
        TemporalEvent::Validated(caller) => if is_temporal_worker(
            identity::held_identity(caller),
        ) {
            TemporalActionView::Handle
        } else {
            refused
        },
        TemporalEvent::Handled(Ok(execution_id)) => TemporalActionView::Answer(
            http::json_reply(
                200,
                JsonView::object().with("execution_id"@, JsonView::Str(execution_id@)).with(
                    "status"@,
                    JsonView::Str("received"@),
                ),
            ),
        ),
        TemporalEvent::Handled(Err(e)) => TemporalActionView::Answer(
            http::error_reply(400, "Failed to process event: "@ + e@),
        ),
    }
}

fn is_worker(caller: &Option<UserIdentity>) -> (r: bool)
    ensures
        r == is_temporal_worker(identity::held_identity(*caller)),
{
    match caller {
        Some(i) => match &i.identity_kind {
            IdentityKind::ServiceAccount { client_id } => text::str_eq(
                client_id.as_str(),
                "aegis-temporal-worker",
            ),
            _ => false,
        },
        None => false,
    }
}

/// What is done next with an event that claims to come from the workflow worker.
pub fn temporal_step(event: TemporalEvent) -> (action: TemporalAction)
    ensures
        action@ == temporal_next(event),
{
    match event {
        TemporalEvent::Begun { authorization, has_iam } => {
            let token = match authorization {
                Some(h) => text::strip_prefix(h.as_str(), "Bearer "),
                None => None,
            };
            match token {
                Some(token) => if has_iam {
                    TemporalAction::Validate { token }
                } else {
                    TemporalAction::Answer(Reply::error(401, "Unauthorized"))
                },
                None => TemporalAction::Answer(Reply::error(401, "Unauthorized")),
            }
        },
        TemporalEvent::Validated(caller) => if is_worker(&caller) {
            TemporalAction::Handle
        } else {
            TemporalAction::Answer(Reply::error(401, "Unauthorized"))
        },
        TemporalEvent::Handled(Ok(execution_id)) => TemporalAction::Answer(
            Reply::json(
                200,
                Json::object().with("execution_id", Json::Str(execution_id)).with(
                    "status",
                    Json::text("received"),
                ),
            ),
        ),
        TemporalEvent::Handled(Err(e)) => {
            let message = "Failed to process event: ".to_owned().concat(e.as_str());
            TemporalAction::Answer(Reply::error(400, message.as_str()))
        },
    }
}

/// Nothing but the worker's own token lets an event be processed.
pub proof fn law_only_the_workers_events_are_handled(event: TemporalEvent)
    ensures
        temporal_next(event) is Handle ==> (event matches TemporalEvent::Validated(caller)
            && is_temporal_worker(identity::held_identity(caller))),
{
}

/// Whatever comes of a message, at most one of an exchange and a failure is
/// published, and neither of an execution that is unknown.
pub proof fn law_unknown_executions_are_not_published(
    request: DispatchRequestView,
    record: Option<ExecutionRecord>,
    outcome: InnerLoopOutcome,
)
    ensures
        !(recorded(request, agent_of(record), outcome) && failure_published(
            request,
            agent_of(record),
            outcome,
        )),
        record is None ==> !recorded(request, agent_of(record), outcome) && !failure_published(
            request,
            agent_of(record),
            outcome,
        ),
{
}

/// A message asks for what it says: its iteration, its prompt and its model, or nothing of
/// the kind where it only brings a result.
pub proof fn law_a_message_asks_for_what_it_says(message: AgentMessage, id: Option<u128>)
    ensures
        request_of(message, id).execution_id == id,
        message matches AgentMessage::Generate { iteration_number, prompt, model_alias, .. } ==> {
            &&& request_of(message, id).iteration_number == iteration_number
            &&& request_of(message, id).prompt == Some(prompt@)
            &&& request_of(message, id).model_alias == Some(model_alias@)
        },
        message is DispatchResult ==> request_of(message, id).prompt is None && request_of(
            message,
            id,
        ).model_alias is None && request_of(message, id).iteration_number == 0,
        message matches AgentMessage::Generate { execution_id, .. } ==> execution_text(message)
            == execution_id@,
        message matches AgentMessage::DispatchResult { execution_id } ==> execution_text(message)
            == execution_id@,
{
}

/// The loop runs in the name of the user who began the execution, as a consumer of its
/// tenant, and for its agent.
pub proof fn law_the_loop_runs_for_who_began_it(exec: ExecutionRecord, sub: String)
    ensures
        exec.initiating_user_sub == Some(sub) ==> (initiator(Some(exec)) matches Some(i) && i.sub
            == sub@ && i.realm_slug == "zaru-consumer"@ && i.email is None && i.name is None
            && i.identity_kind == (IdentityKindView::ConsumerUser {
            zaru_tier: ZaruTier::Free,
            tenant_id: exec.tenant_id@,
        })),
        exec.initiating_user_sub is None ==> initiator(Some(exec)) is None,
        initiator(None) is None,
        agent_of(Some(exec)) == exec.agent_id,
        agent_of(None) == 0,
{
}

/// What goes wrong with a model is answered by its kind.
pub proof fn law_model_failures_by_status(e: LlmError)
    ensures
        llm_status(e).0 == 429 <==> e == LlmError::RateLimit,
        llm_status(e).0 == 503 <==> e == LlmError::ServiceUnavailable,
        llm_status(e).0 == 502 <==> e != LlmError::RateLimit && e != LlmError::ServiceUnavailable,
        llm_status(LlmError::Authentication).1 == "upstream_authentication"@,
        llm_status(LlmError::RateLimit).1 == "upstream_rate_limit"@,
        llm_status(LlmError::ModelNotFound).1 == "upstream_model_not_found"@,
        llm_status(LlmError::InvalidInput).1 == "upstream_invalid_input"@,
        llm_status(LlmError::ServiceUnavailable).1 == "upstream_unavailable"@,
        llm_status(LlmError::Network).1 == "upstream_network"@,
        llm_status(LlmError::Provider).1 == "upstream_provider"@,
{
}

/// The end of the loop is answered with its content and its number of tool calls, an action
/// as it is, and a failure with its status and message.
pub proof fn law_the_loop_is_answered(
    outcome: InnerLoopOutcome,
    action: Json,
    error: LlmError,
    message: String,
)
    ensures
        outcome matches InnerLoopOutcome::Done { content, tool_calls_executed, .. } ==> (
        dispatch_answer(outcome).status == 200 && (dispatch_answer(outcome).body matches Some(body)
            && body.get("content"@) == Some(JsonView::Str(content@)) && body.get(
            "tool_calls_executed"@,
        ) == Some(JsonView::Int(tool_calls_executed as int)))),
        dispatch_answer(InnerLoopOutcome::Dispatch { action: Some(action) }) == http::json_reply(
            200,
            action@,
        ),
        dispatch_answer(InnerLoopOutcome::LlmFailed { error, message }).status == llm_status(
            error,
        ).0,
        dispatch_answer(InnerLoopOutcome::LlmFailed { error, message }).body matches Some(body)
            && body.get("error"@) == Some(
            JsonView::Str(llm_status(error).1 + ": "@ + message@),
        ),
        dispatch_answer(InnerLoopOutcome::Failed { message }).status == 500,
{
    broadcast use crate::json::lemma_get_with;

    reveal_strlit("content");
    reveal_strlit("tool_calls_executed");
    assert("content"@.len() == 7 && "tool_calls_executed"@.len() == 19);
}

/// A finished turn of a known agent's execution is recorded whole, and a failure of its
/// model is published, as they were asked for.
pub proof fn law_turns_are_recorded(
    plan: DispatchPlan,
    request: DispatchRequestView,
    agent_id: u128,
    outcome: InnerLoopOutcome,
    execution_id: u128,
    prompt: Seq<char>,
    model: Seq<char>,
)
    requires
        is_plan(plan, request, agent_id, outcome),
        request.execution_id == Some(execution_id),
        request.prompt == Some(prompt),
        request.model_alias == Some(model),
        agent_id != 0,
    ensures
        plan.reply@ == dispatch_answer(outcome),
        plan.interaction is Some <==> outcome is Done,
        plan.failure is Some <==> outcome is LlmFailed,
        plan.interaction matches Some(i) ==> i.execution_id == execution_id && i.agent_id
            == agent_id && i.prompt@ == prompt && i.model@ == model && i.iteration_number
            == request.iteration_number && (outcome matches InnerLoopOutcome::Done {
            content,
            trajectory_len,
            ..
        } && i.response@ == content@ && (i.store_trajectory <==> trajectory_len > 0)),
        plan.failure matches Some(f) ==> f.execution_id == execution_id && f.agent_id == agent_id
            && f.model@ == model && f.iteration_number == request.iteration_number && (
        outcome matches InnerLoopOutcome::LlmFailed { error, message } && f.error == error
            && f.message@ == message@),
{
}

/// Nothing is recorded of an execution that is not known or has no agent.
pub proof fn law_unknown_turns_leave_no_record(
    plan: DispatchPlan,
    request: DispatchRequestView,
    agent_id: u128,
    outcome: InnerLoopOutcome,
)
    requires
        is_plan(plan, request, agent_id, outcome),
        agent_id == 0 || request.execution_id is None,
    ensures
        plan.interaction is None,
        plan.failure is None,
{
}

/// Events of the workflow engine are taken from its own worker only, by a token that was
/// validated.
pub proof fn law_only_the_worker_reports(
    header: String,
    token: Seq<char>,
    caller: UserIdentity,
    id: String,
    e: String,
)
    ensures
        header@ == "Bearer "@ + token ==> temporal_next(
            TemporalEvent::Begun { authorization: Some(header), has_iam: true },
        ) == (TemporalActionView::Validate { token }),
        temporal_next(
            TemporalEvent::Begun { authorization: Some(header), has_iam: false },
        ) matches TemporalActionView::Answer(reply) && reply.status == 401,
        temporal_next(
            TemporalEvent::Begun { authorization: None, has_iam: true },
        ) matches TemporalActionView::Answer(reply) && reply.status == 401,
        !"Bearer "@.is_prefix_of(header@) ==> (temporal_next(
            TemporalEvent::Begun { authorization: Some(header), has_iam: true },
        ) matches TemporalActionView::Answer(reply) && reply.status == 401),
        temporal_next(TemporalEvent::Validated(Some(caller))) == TemporalActionView::Handle <==>
            caller@.identity_kind == (IdentityKindView::ServiceAccount {
            client_id: "aegis-temporal-worker"@,
        }),
        temporal_next(TemporalEvent::Validated(None)) matches TemporalActionView::Answer(reply)
            && reply.status == 401,
        ({
            &&& temporal_next(TemporalEvent::Handled(Ok(id))) matches TemporalActionView::Answer(
                reply,
            )
            &&& reply.status == 200
            &&& reply.body matches Some(body)
            &&& body.get("execution_id"@) == Some(JsonView::Str(id@))
        }),
        temporal_next(TemporalEvent::Handled(Err(e))) matches TemporalActionView::Answer(reply)
            && reply.status == 400,
{
    broadcast use crate::json::lemma_get_with;

    reveal_strlit("execution_id");
    reveal_strlit("status");
    assert("execution_id"@.len() == 12 && "status"@.len() == 6);
    let whole = "Bearer "@ + token;
    assert("Bearer "@.is_prefix_of(whole));
    assert(whole.skip("Bearer "@.len() as int) =~= token);
}

} // verus!
