//! Stimuli and webhooks: what comes in from outside, and how it is authenticated.

use crate::http::Reply;
use crate::json::{Json, JsonView};
use crate::string_map::StringMap;
use crate::{http, json_value, primitives, text};
use vstd::prelude::*;

verus! {

/// How far, in seconds, the time of a signature may lie from the daemon's clock.
pub const STRIPE_SIGNATURE_TOLERANCE_SECS: i64 = 300;

/// Why a signature is refused.
#[derive(Clone, Copy, PartialEq, Eq, Structural, Debug)]
pub enum StripeSigError {
    /// The header lacks a time or a signature, or its time is no number.
    Malformed,
    /// No code can be computed under the secret.
    InvalidSecret,
    /// The signature is too old, or too far in the future.
    OutsideTolerance,
    /// The signature is not the one that the secret gives.
    Mismatch,
}

/// What follows the prefix in the last part that begins with it; nothing where none
/// does.
pub open spec fn last_value(parts: Seq<Seq<char>>, prefix: Seq<char>) -> Seq<char>
    decreases parts.len(),
{
    if parts.len() == 0 {
        Seq::empty()
    } else if prefix.is_prefix_of(parts.last()) {
        parts.last().skip(prefix.len() as int)
    } else {
        last_value(parts.drop_last(), prefix)
    }
}

/// The time in a signature header.
pub open spec fn header_time(header: Seq<char>) -> Seq<char> {
    last_value(text::pieces(header, ','), "t="@)
}

/// The signature in a signature header.
pub open spec fn header_signature(header: Seq<char>) -> Seq<char> {
    last_value(text::pieces(header, ','), "v1="@)
}

fn find_last_value(parts: &Vec<String>, prefix: &str) -> (r: String)
    ensures
        r@ == last_value(text::views(parts@), prefix@),
{
    let ghost all = text::views(parts@);
    let mut i: usize = parts.len();
    assert(all.take(i as int) =~= all);
    while i > 0
        invariant
            i <= parts@.len(),
            all == text::views(parts@),
            last_value(all, prefix@) == last_value(all.take(i as int), prefix@),
        decreases i,
    {
        assert(all.take(i as int).last() == parts@[i - 1]@);
        assert(all.take(i as int).drop_last() =~= all.take(i - 1));
        if let Some(value) = text::strip_prefix(parts[i - 1].as_str(), prefix) {
            return value;
        }
        i -= 1;
    }
    String::new()
}

/// The bytes that a signature covers: the time, a point, and the body.
pub open spec fn signed_bytes(time: Seq<char>, body: Seq<u8>) -> Seq<u8> {
    vstd::utf8::encode_utf8(time) + seq![46u8] + body
}

/// What is to be said of a signature, given the code that the secret gives over the
/// bytes that it covers. The distance in time is taken over the integers.
pub open spec fn verdict(
    time: Seq<char>,
    signature: Seq<char>,
    now: i64,
    code: Seq<u8>,
) -> Result<(), StripeSigError> {
    if time.len() == 0 || signature.len() == 0 {
        Err(StripeSigError::Malformed)
    } else {
        match text::parsed_int(time) {
            None => Err(StripeSigError::Malformed),
            Some(at) => if !(i64::MIN <= at <= i64::MAX) {
                Err(StripeSigError::Malformed)
            } else if now - at > STRIPE_SIGNATURE_TOLERANCE_SECS || at - now
                > STRIPE_SIGNATURE_TOLERANCE_SECS {
                Err(StripeSigError::OutsideTolerance)
            } else if signature == primitives::hex_text(code) {
                Ok(())
            } else {
                Err(StripeSigError::Mismatch)
            },
        }
    }
}

/// What is to be said of a signature, given the code that the secret gives. The codes
/// are compared in constant time.
pub fn stripe_verdict(timestamp: &str, sig_v1: &str, now_unix: i64, code: &Vec<u8>) -> (r: Result<
    (),
    StripeSigError,
>)
    requires
        2 * code@.len() <= isize::MAX,
    ensures
        r == verdict(timestamp@, sig_v1@, now_unix, code@),
{
    if timestamp.is_empty() || sig_v1.is_empty() {
        return Err(StripeSigError::Malformed);
    }
    let ts: i64 = match text::parse_i64(timestamp) {
        Some(t) => t,
        None => {
            return Err(StripeSigError::Malformed);
        },
    };
    let distance: i128 = now_unix as i128 - ts as i128;
    if distance > STRIPE_SIGNATURE_TOLERANCE_SECS as i128 || -distance
        > STRIPE_SIGNATURE_TOLERANCE_SECS as i128 {
        return Err(StripeSigError::OutsideTolerance);
    }
    let expected = primitives::hex_encode(code.as_slice());
    proof {
        vstd::utf8::encode_utf8_decode_utf8(expected@);
        vstd::utf8::encode_utf8_decode_utf8(sig_v1@);
    }
    if primitives::constant_time_eq(expected.as_str().as_bytes(), sig_v1.as_bytes()) {
        Ok(())
    } else {
        Err(StripeSigError::Mismatch)
    }
}

/// What is to be said of a signature header over a body.
pub open spec fn signature_verdict(
    header: Seq<char>,
    body: Seq<u8>,
    secret: Seq<char>,
    now: i64,
) -> Result<(), StripeSigError> {
    let time = header_time(header);
    verdict(
        time,
        header_signature(header),
        now,
        primitives::hmac_sha256_code(vstd::utf8::encode_utf8(secret), signed_bytes(time, body)),
    )
}

/// Verifies a signature header over a body: `t=<time>,v1=<code>`, the code being the
/// HMAC-SHA256 over the time, a point and the body, in hexadecimal notation, and the
/// time within the tolerance of the clock.
pub fn verify_stripe_signature(header: &str, body: &[u8], secret: &str, now_unix: i64) -> (r:
    Result<(), StripeSigError>)
    ensures
        r == signature_verdict(header@, body@, secret@, now_unix),
{
    let parts = text::split(header, ',');
    let timestamp = find_last_value(&parts, "t=");
    let sig_v1 = find_last_value(&parts, "v1=");
    let mut message: Vec<u8> = Vec::new();
    message.extend_from_slice(timestamp.as_str().as_bytes());
    message.push(46);
    message.extend_from_slice(body);
    assert(message@ =~= signed_bytes(timestamp@, body@));
    match primitives::hmac_sha256(secret.as_bytes(), message.as_slice()) {
        Ok(code) => stripe_verdict(timestamp.as_str(), sig_v1.as_str(), now_unix, &code),
        Err(_) => Err(StripeSigError::InvalidSecret),
    }
}

/// How a refused signature is answered.
pub open spec fn signature_refusal(error: StripeSigError) -> http::ReplyView {
    match error {
        StripeSigError::Malformed => http::error_reply(401, "Malformed Stripe-Signature header"@),
        StripeSigError::InvalidSecret => http::error_reply(500, "Invalid webhook secret"@),
        StripeSigError::OutsideTolerance => http::error_reply(
            401,
            "Stripe signature timestamp outside tolerance"@,
        ),
        StripeSigError::Mismatch => http::error_reply(401, "Invalid Stripe signature"@),
    }
}

/// Why a webhook of the payment provider is refused, if it is. The body is missing
/// where it could not be read; the secret where none is configured.
pub open spec fn stripe_refusal(
    signature: Option<Seq<char>>,
    body: Option<Seq<u8>>,
    secret: Option<Seq<char>>,
    now: i64,
) -> Option<http::ReplyView> {
    if signature is None {
        Some(http::error_reply(401, "Missing Stripe-Signature header"@))
    } else if body is None {
        Some(http::error_reply(400, "Failed to read request body"@))
    } else if secret is None || secret->Some_0.len() == 0 {
        Some(http::error_reply(503, "Stripe webhook secret not configured"@))
    } else {
        match signature_verdict(
            signature->Some_0,
            body->Some_0,
            secret->Some_0,
            now,
        ) {
            Ok(_) => None,
            Err(e) => Some(signature_refusal(e)),
        }
    }
}

/// Decides on a webhook of the payment provider: whether its report is to be acted
/// upon, and if not, how it is answered.
pub fn admit_stripe_webhook(
    signature: Option<&str>,
    body: Option<&Vec<u8>>,
    secret: Option<&str>,
    now_unix: i64,
) -> (r: Result<(), Reply>)
    ensures
        match stripe_refusal(
            text::opt_str_view(signature),
            match body {
                Some(b) => Some(b@),
                None => None,
            },
            text::opt_str_view(secret),
            now_unix,
        ) {
            Some(refusal) => r matches Err(reply) && reply@ == refusal,
            None => r is Ok,
        },
{
    let header = match signature {
        Some(h) => h,
        None => {
            return Err(Reply::error(401, "Missing Stripe-Signature header"));
        },
    };
    let bytes = match body {
        Some(b) => b,
        None => {
            return Err(Reply::error(400, "Failed to read request body"));
        },
    };
    let key = match secret {
        Some(s) => s,
        None => {
            return Err(Reply::error(503, "Stripe webhook secret not configured"));
        },
    };
    if key.is_empty() {
        return Err(Reply::error(503, "Stripe webhook secret not configured"));
    }
    match verify_stripe_signature(header, bytes.as_slice(), key, now_unix) {
        Ok(_) => Ok(()),
        Err(e) => Err(
            match e {
                StripeSigError::Malformed => Reply::error(401, "Malformed Stripe-Signature header"),
                StripeSigError::InvalidSecret => Reply::error(500, "Invalid webhook secret"),
                StripeSigError::OutsideTolerance => Reply::error(
                    401,
                    "Stripe signature timestamp outside tolerance",
                ),
                StripeSigError::Mismatch => Reply::error(401, "Invalid Stripe signature"),
            },
        ),
    }
}

/// The type of a report.
pub open spec fn report_type(event: JsonView) -> Seq<char> {
    match event.get_str("type"@) {
        Some(t) => t,
        None => "unknown"@,
    }
}

/// The object that a report is about.
pub open spec fn report_object(event: JsonView) -> JsonView {
    match event.get("data"@) {
        Some(data) => match data.get("object"@) {
            Some(object) => object,
            None => JsonView::Null,
        },
        None => JsonView::Null,
    }
}

/// The type of a report and the object that it is about.
pub fn stripe_event(event: &Json) -> (r: (String, Json))
    ensures
        r.0@ == report_type(event@),
        r.1@ == report_object(event@),
{
    let kind = match event.get_str("type") {
        Some(t) => t.to_owned(),
        None => "unknown".to_owned(),
    };
    let object = match event.get("data") {
        Some(data) => match data.get("object") {
            Some(object) => object.copy(),
            None => Json::Null,
        },
        None => Json::Null,
    };
    (kind, object)
}

/// The answer to a webhook of the payment provider that was let in.
pub open spec fn stripe_received() -> http::ReplyView {
    http::json_reply(200, JsonView::object().with("received"@, JsonView::Bool(true)))
}

/// The answer to a webhook of the payment provider that was let in.
pub fn stripe_received_reply() -> (r: Reply)
    ensures
        r@ == stripe_received(),
{
    Reply::json(200, Json::object().with("received", Json::Bool(true)))
}

/// The source that a webhook's path names; nothing where the path is another.
pub open spec fn source_of_path(path: Seq<char>) -> Seq<char> {
    if "/v1/webhooks/"@.is_prefix_of(path) {
        path.skip("/v1/webhooks/"@.len() as int)
    } else {
        Seq::empty()
    }
}

/// The source that a webhook's path names.
pub fn webhook_source(path: &str) -> (r: String)
    ensures
        r@ == source_of_path(path@),
{
    match text::strip_prefix(path, "/v1/webhooks/") {
        Some(source) => source,
        None => String::new(),
    }
}

/// Whether a webhook is authenticated by the payment provider's own scheme.
pub fn is_stripe_source(source: &str) -> (r: bool)
    ensures
        r == (source@ == "stripe"@),
{
    text::str_eq(source, "stripe")
}

/// The content of a stimulus: the body as text where it is UTF-8, else in base64.
pub open spec fn content_of(body: Seq<u8>) -> Seq<char> {
    if vstd::utf8::valid_utf8(body) {
        vstd::utf8::decode_utf8(body)
    } else {
        primitives::base64_text(body)
    }
}

/// The content of a stimulus.
pub fn webhook_content(body: &Vec<u8>) -> (r: String)
    requires
        4 * ((body@.len() + 2) / 3) <= isize::MAX,
    ensures
        r@ == content_of(body@),
{
    let decoded = primitives::utf8_text(body.as_slice());
    if let Some(text) = decoded {
        proof {
            vstd::utf8::encode_utf8_valid_utf8(text@);
            vstd::utf8::encode_utf8_decode_utf8(text@);
        }
        return text;
    }
    primitives::base64_encode(body.as_slice())
}

/// The headers that are kept of some headers: those that are text, the last one of
/// each name. A value that is no text is missing.
pub open spec fn kept_headers(headers: Seq<(String, Option<String>)>) -> Map<Seq<char>, String>
    decreases headers.len(),
{
    if headers.len() == 0 {
        Map::empty()
    } else {
        let before = kept_headers(headers.drop_last());
        match headers.last().1 {
            Some(value) => before.insert(headers.last().0@, value),
            None => before,
        }
    }
}

/// The headers that go with a stimulus.
pub fn headers_to_map(headers: &Vec<(String, Option<String>)>) -> (r: StringMap<String>)
    ensures
        r.wf(),
        r@ == kept_headers(headers@),
{
    let mut map: StringMap<String> = StringMap::new();
    let mut i: usize = 0;
    while i < headers.len()
        invariant
            i <= headers@.len(),
            map.wf(),
            map@ == kept_headers(headers@.take(i as int)),
        decreases headers@.len() - i,
    {
        assert(headers@.take(i + 1).drop_last() =~= headers@.take(i as int));
        assert(headers@.take(i + 1).last() == headers@[i as int]);
        if let Some(value) = &headers[i].1 {
            map.insert(headers[i].0.as_str(), value.clone());
        }
        i += 1;
    }
    assert(headers@.take(headers@.len() as int) =~= headers@);
    map
}

/// The answer where no stimulus service is there.
pub open spec fn no_stimulus_service() -> http::ReplyView {
    http::json_reply(
        503,
        JsonView::object().with("error"@, JsonView::Str("stimulus_service_unavailable"@)).with(
            "message"@,
            JsonView::Str("Stimulus service is not configured"@),
        ),
    )
}

/// What came of handing a stimulus on.
pub enum IngestOutcome {
    Accepted { stimulus_id: String, workflow_execution_id: String },
    Refused { http_status: u16, code: String, message: String },
}

/// The status that a refused stimulus is answered with.
pub open spec fn refusal_status(http_status: u16) -> u16 {
    if http_status == 409 || http_status == 422 {
        http_status
    } else {
        500
    }
}

/// The answer to a refused stimulus.
pub fn stimulus_error_response(http_status: u16, code: &str, message: &str) -> (r: Reply)
    ensures
        r@ == http::json_reply(
            refusal_status(http_status),
            JsonView::object().with("error"@, JsonView::Str(code@)).with(
                "message"@,
                JsonView::Str(message@),
            ),
        ),
{
    let status: u16 = if http_status == 409 || http_status == 422 { http_status } else { 500 };
    Reply::json(
        status,
        Json::object().with("error", Json::text(code)).with("message", Json::text(message)),
    )
}

/// Where the logs of a workflow execution are found.
pub open spec fn logs_location(workflow_execution_id: Seq<char>) -> Seq<char> {
    "/v1/workflows/executions/"@ + workflow_execution_id + "/logs"@
}

/// Where the logs of a workflow execution are found.
pub fn workflow_execution_logs_location(workflow_execution_id: &str) -> (r: String)
    ensures
        r@ == logs_location(workflow_execution_id@),
{
    "/v1/workflows/executions/".to_owned().concat(workflow_execution_id).concat("/logs")
}

/// The location that is told, where a header can hold it.
pub open spec fn told_location(location: Seq<char>) -> Option<Seq<char>> {
    if primitives::header_takes(location) {
        Some(location)
    } else {
        None
    }
}

/// The answer to a stimulus, and the location that goes with it; `None` where no
/// stimulus service is there.
pub open spec fn ingest_answer(outcome: Option<IngestOutcome>) -> (
    http::ReplyView,
    Option<Seq<char>>,
) {
    match outcome {
        None => (no_stimulus_service(), None),
        Some(IngestOutcome::Accepted { stimulus_id, workflow_execution_id }) => (
            http::json_reply(
                202,
                JsonView::object().with("stimulus_id"@, JsonView::Str(stimulus_id@)).with(
                    "workflow_execution_id"@,
                    JsonView::Str(workflow_execution_id@),
                ),
            ),
            told_location(logs_location(workflow_execution_id@)),
        ),
        Some(IngestOutcome::Refused { http_status, code, message }) => (
            http::json_reply(
                refusal_status(http_status),
                JsonView::object().with("error"@, JsonView::Str(code@)).with(
                    "message"@,
                    JsonView::Str(message@),
                ),
            ),
            None,
        ),
    }
}

/// The answer to a stimulus, and the location that goes with it.
pub fn ingest_reply(outcome: Option<IngestOutcome>) -> (r: (Reply, Option<String>))
    ensures
        (r.0@, text::opt_view(r.1)) == ingest_answer(outcome),
{
    match outcome {
        None => (
            Reply::json(
                503,
                Json::object().with("error", Json::text("stimulus_service_unavailable")).with(
                    "message",
                    Json::text("Stimulus service is not configured"),
                ),
            ),
            None,
        ),
        Some(IngestOutcome::Accepted { stimulus_id, workflow_execution_id }) => {
            let location = workflow_execution_logs_location(workflow_execution_id.as_str());
            let told = primitives::makes_header(location.as_str());
            (
                Reply::json(
                    202,
                    Json::object().with("stimulus_id", Json::Str(stimulus_id)).with(
                        "workflow_execution_id",
                        Json::Str(workflow_execution_id),
                    ),
                ),
                if told {
                    Some(location)
                } else {
                    None
                },
            )
        },
        Some(IngestOutcome::Refused { http_status, code, message }) => (
            stimulus_error_response(http_status, code.as_str(), message.as_str()),
            None,
        ),
    }
}

/// A stimulus that is handed on.
pub struct Stimulus {
    /// The source of the webhook by which it came, where it came by one.
    pub webhook: Option<String>,
    pub content: String,
    pub headers: StringMap<String>,
    pub idempotency_key: Option<String>,
}

/// The mathematical content of a stimulus.
pub struct StimulusContent {
    pub webhook: Option<Seq<char>>,
    pub content: Seq<char>,
    pub headers: Map<Seq<char>, String>,
    pub idempotency_key: Option<Seq<char>>,
}

impl View for Stimulus {
    type V = StimulusContent;

    open spec fn view(&self) -> StimulusContent {
        StimulusContent {
            webhook: text::opt_view(self.webhook),
            content: self.content@,
            headers: self.headers@,
            idempotency_key: text::opt_view(self.idempotency_key),
        }
    }
}

/// Decides on a stimulus that a caller sends: what is handed on, or the answer where
/// there is no stimulus service.
pub fn ingest_stimulus(
    content: String,
    idempotency_key: Option<String>,
    headers: &Vec<(String, Option<String>)>,
    has_service: bool,
) -> (r: Result<Stimulus, Reply>)
    ensures
        if has_service {
            r matches Ok(stimulus) && stimulus.headers.wf() && stimulus@ == (StimulusContent {
                webhook: None,
                content: content@,
                headers: kept_headers(headers@),
                idempotency_key: text::opt_view(idempotency_key),
            })
        } else {
            r matches Err(reply) && reply@ == no_stimulus_service()
        },
{
    if !has_service {
        let (reply, _) = ingest_reply(None);
        return Err(reply);
    }
    Ok(Stimulus { webhook: None, content, headers: headers_to_map(headers), idempotency_key })
}

/// The longest body of a report of the payment provider, in bytes.
pub const STRIPE_BODY_LIMIT: usize = 1_048_576;

/// A webhook that came in.
pub struct WebhookRequest {
    pub source: String,
    /// The headers; the value is missing where it is not a text.
    pub headers: Vec<(String, Option<String>)>,
    /// The signature by the payment provider's scheme, where there is one.
    pub stripe_signature: Option<String>,
    pub stripe_secret: Option<String>,
    /// Whether there is a service that takes stimuli.
    pub has_service: bool,
}

/// What was learnt of a webhook.
pub enum WebhookEvent {
    Begun,
    /// The body was read, where it could be, at the given time.
    BodyRead { body: Option<Vec<u8>>, now_unix: i64 },
    /// The signature was checked: the body, or the answer that refuses it.
    Checked(Result<Vec<u8>, Reply>),
    Ingested(IngestOutcome),
}

/// What is done next with a webhook.
pub enum WebhookAction {
    /// Read the body, which may not be longer than the given number of bytes.
    ReadBody { at_most: usize },
    /// Act on a report of the payment provider. Whatever comes of it, answer.
    Report { event_type: String, object: Json, reply: Reply },
    /// Read the body and check its signature.
    CheckSignature,
    /// Hand a stimulus on.
    Ingest(Stimulus),
    Answer { reply: Reply, location: Option<String> },
}

/// The mathematical content of what is done next with a webhook.
pub enum WebhookActionView {
    ReadBody { at_most: usize },
    Report { event_type: Seq<char>, object: JsonView, reply: http::ReplyView },
    CheckSignature,
    Ingest(StimulusContent),
    Answer { reply: http::ReplyView, location: Option<Seq<char>> },
}

impl View for WebhookAction {
    type V = WebhookActionView;

    open spec fn view(&self) -> WebhookActionView {
        match *self {
            WebhookAction::ReadBody { at_most } => WebhookActionView::ReadBody { at_most },
            WebhookAction::Report { event_type, object, reply } => WebhookActionView::Report {
                event_type: event_type@,
                object: object@,
                reply: reply@,
            },
            WebhookAction::CheckSignature => WebhookActionView::CheckSignature,
            WebhookAction::Ingest(stimulus) => WebhookActionView::Ingest(stimulus@),
            WebhookAction::Answer { reply, location } => WebhookActionView::Answer {
                reply: reply@,
                location: text::opt_view(location),
            },
        }
    }
}

/// The answer that ends a webhook, without a location.
pub open spec fn webhook_ends(reply: http::ReplyView) -> WebhookActionView {
    WebhookActionView::Answer { reply, location: None }
}

/// The bytes that were read, where they could be.
pub open spec fn opt_bytes(body: Option<Vec<u8>>) -> Option<Seq<u8>> {
    match body {
        Some(b) => Some(b@),
        None => None,
    }
}

/// What follows from a body whose signature holds, once it was read as JSON: the report
/// that it is, or the answer alone where it is no JSON.
pub open spec fn report_of(body: Option<JsonView>) -> WebhookActionView {
    match body {
        Some(event) => WebhookActionView::Report {
            event_type: report_type(event),
            object: report_object(event),
            reply: stripe_received(),
        },
        None => webhook_ends(stripe_received()),
    }
}

/// What follows from a body whose signature holds, once it was read as JSON.
pub fn take_report(body: Option<Json>) -> (r: WebhookAction)
    ensures
        r@ == report_of(json_value::opt_content(body)),
{
    match body {
        Some(event) => {
            let (event_type, object) = stripe_event(&event);
            WebhookAction::Report { event_type, object, reply: stripe_received_reply() }
        },
        None => WebhookAction::Answer { reply: stripe_received_reply(), location: None },
    }
}

impl WebhookRequest {
    /// What is known of a webhook from its request.
    pub fn start(
        path: &str,
        headers: Vec<(String, Option<String>)>,
        stripe_signature: Option<String>,
        stripe_secret: Option<String>,
        has_service: bool,
    ) -> (r: Self)
        ensures
            r.source@ == source_of_path(path@),
            r.headers == headers,
            r.stripe_signature == stripe_signature,
            r.stripe_secret == stripe_secret,
            r.has_service == has_service,
    {
        WebhookRequest {
            source: webhook_source(path),
            headers,
            stripe_signature,
            stripe_secret,
            has_service,
        }
    }

    /// What is done first with a webhook.
    pub open spec fn first(self) -> WebhookActionView {
        if self.source@ != "stripe"@ {
            WebhookActionView::CheckSignature
        } else if self.stripe_signature is None {
            webhook_ends(http::error_reply(401, "Missing Stripe-Signature header"@))
        } else {
            WebhookActionView::ReadBody { at_most: STRIPE_BODY_LIMIT }
        }
    }

    /// What is done first with a webhook.
    pub fn begin(&self) -> (action: WebhookAction)
        ensures
            action@ == self.first(),
    {
        if !is_stripe_source(self.source.as_str()) {
            WebhookAction::CheckSignature
        } else if self.stripe_signature.is_none() {
            WebhookAction::Answer {
                reply: Reply::error(401, "Missing Stripe-Signature header"),
                location: None,
            }
        } else {
            WebhookAction::ReadBody { at_most: STRIPE_BODY_LIMIT }
        }
    }

    /// What follows from what was learnt. The payment provider's webhooks are checked
    /// here, before anything is done with them; all others by a guard, and they become
    /// stimuli.
    pub open spec fn next(self, event: WebhookEvent) -> WebhookActionView {
        match event {
            WebhookEvent::Begun => self.first(),
            WebhookEvent::BodyRead { body, now_unix } => if self.source@ != "stripe"@ {
                WebhookActionView::CheckSignature
            } else {
                match stripe_refusal(
                    text::opt_view(self.stripe_signature),
                    opt_bytes(body),
                    text::opt_view(self.stripe_secret),
                    now_unix,
                ) {
                    Some(refusal) => webhook_ends(refusal),
                    None => report_of(
                        json_value::parsed_json(
                            json_value::lossy_chars(opt_bytes(body)->Some_0),
                        ),
                    ),
                }
            },
            WebhookEvent::Checked(outcome) => match outcome {
                Err(refusal) => webhook_ends(refusal@),
                Ok(body) => if self.source@ == "stripe"@ {
                    self.first()
                } else if self.has_service {
                    WebhookActionView::Ingest(
                        StimulusContent {
                            webhook: Some(self.source@),
                            content: content_of(body@),
                            headers: kept_headers(self.headers@),
                            idempotency_key: None,
                        },
                    )
                } else {
                    webhook_ends(no_stimulus_service())
                },
            },
            WebhookEvent::Ingested(outcome) => WebhookActionView::Answer {
                reply: ingest_answer(Some(outcome)).0,
                location: ingest_answer(Some(outcome)).1,
            },
        }
    }

    /// One step of a webhook: takes what was learnt and says what to do next.
    pub fn step(&self, event: WebhookEvent) -> (action: WebhookAction)
        requires
            event matches WebhookEvent::Checked(Ok(body)) ==> 4 * ((body@.len() + 2) / 3)
                <= isize::MAX,
        ensures
            action@ == self.next(event),
    {
        match event {
            WebhookEvent::Begun => self.begin(),
            WebhookEvent::BodyRead { body, now_unix } => if !is_stripe_source(
                self.source.as_str(),
            ) {
                WebhookAction::CheckSignature
            } else {
                match admit_stripe_webhook(
                    text::opt_str(&self.stripe_signature),
                    body.as_ref(),
                    text::opt_str(&self.stripe_secret),
                    now_unix,
                ) {
                    Err(reply) => WebhookAction::Answer { reply, location: None },
                    Ok(_) => match body {
                        Some(bytes) => take_report(json_value::read_body(&bytes)),
                        None => WebhookAction::ReadBody { at_most: STRIPE_BODY_LIMIT },
                    },
                }
            },
            WebhookEvent::Checked(outcome) => match outcome {
                Err(reply) => WebhookAction::Answer { reply, location: None },
                Ok(body) => if is_stripe_source(self.source.as_str()) {
                    self.begin()
                } else if self.has_service {
                    WebhookAction::Ingest(
                        Stimulus {
                            webhook: Some(self.source.clone()),
                            content: webhook_content(&body),
                            headers: headers_to_map(&self.headers),
                            idempotency_key: None,
                        },
                    )
                } else {
                    let (reply, location) = ingest_reply(None);
                    WebhookAction::Answer { reply, location }
                },
            },
            WebhookEvent::Ingested(outcome) => {
                let (reply, location) = ingest_reply(Some(outcome));
                WebhookAction::Answer { reply, location }
            },
        }
    }
}

/// A report is taken only from a webhook of the payment provider, only on a body that
/// was just read and whose signature holds at that time; and it is the report that this
/// very body says.
pub proof fn law_only_signed_reports_are_taken(request: WebhookRequest, event: WebhookEvent)
    requires
        request.next(event) is Report,
    ensures
        request.source@ == "stripe"@,
        request.stripe_signature is Some,
        request.stripe_secret is Some,
        ({
            &&& event matches WebhookEvent::BodyRead { body: Some(body), now_unix }
            &&& signature_verdict(
                request.stripe_signature->Some_0@,
                body@,
                request.stripe_secret->Some_0@,
                now_unix,
            ) is Ok
            &&& json_value::parsed_json(json_value::lossy_chars(body@)) matches Some(report)
            &&& request.next(event) == (WebhookActionView::Report {
                event_type: report_type(report),
                object: report_object(report),
                reply: stripe_received(),
            })
        }),
{
}

/// A webhook of the payment provider whose signature does not hold is answered, and
/// nothing else is done with it.
pub proof fn law_unsigned_reports_are_not_taken(request: WebhookRequest, body: Vec<u8>, now: i64)
    requires
        request.source@ == "stripe"@,
        request.stripe_signature is None || request.stripe_secret is None || signature_verdict(
            request.stripe_signature->Some_0@,
            body@,
            request.stripe_secret->Some_0@,
            now,
        ) is Err,
    ensures
        request.next(WebhookEvent::BodyRead { body: Some(body), now_unix: now }) is Answer,
{
}

/// A webhook becomes a stimulus only where the guard let its body through, never where
/// it comes from the payment provider; and the stimulus says what that body says.
pub proof fn law_only_checked_webhooks_become_stimuli(
    request: WebhookRequest,
    event: WebhookEvent,
)
    requires
        request.next(event) is Ingest,
    ensures
        request.source@ != "stripe"@,
        request.has_service,
        ({
            &&& event matches WebhookEvent::Checked(Ok(body))
            &&& request.next(event) == WebhookActionView::Ingest(
                StimulusContent {
                    webhook: Some(request.source@),
                    content: content_of(body@),
                    headers: kept_headers(request.headers@),
                    idempotency_key: None,
                },
            )
        }),
{
}

/// A signature is accepted only within the tolerance of its time: whatever the secret
/// and the body, the same header is refused once the clock has moved on.
pub proof fn law_replay_outside_window_refused(
    header: Seq<char>,
    body: Seq<u8>,
    secret: Seq<char>,
    now: i64,
    at: int,
)
    requires
        text::parsed_int(header_time(header)) == Some(at),
        now - at > STRIPE_SIGNATURE_TOLERANCE_SECS || at - now > STRIPE_SIGNATURE_TOLERANCE_SECS,
    ensures
        signature_verdict(header, body, secret, now) is Err,
{
}

/// A header is accepted exactly where its time lies within the tolerance and its
/// signature is the one that the secret gives over the time and the body.
pub proof fn law_accepted_iff_signed_and_recent(
    header: Seq<char>,
    body: Seq<u8>,
    secret: Seq<char>,
    now: i64,
)
    ensures
        signature_verdict(header, body, secret, now) is Ok <==> {
            let time = header_time(header);
            let at = text::parsed_int(time);
            &&& at is Some
            &&& i64::MIN <= at->Some_0 <= i64::MAX
            &&& -STRIPE_SIGNATURE_TOLERANCE_SECS <= now - at->Some_0
                <= STRIPE_SIGNATURE_TOLERANCE_SECS
            &&& header_signature(header).len() > 0
            &&& header_signature(header) == primitives::hex_text(
                primitives::hmac_sha256_code(
                    vstd::utf8::encode_utf8(secret),
                    signed_bytes(time, body),
                ),
            )
        },
{
}

/// Every header whose value is a text goes with the stimulus, unless a later one of its
/// name takes its place; and no other name does.
pub proof fn law_text_headers_are_kept(headers: Seq<(String, Option<String>)>)
    ensures
        forall|i: int|
            #![trigger headers[i]]
            0 <= i < headers.len() && headers[i].1 is Some && (forall|j: int|
                i < j < headers.len() && headers[j].1 is Some ==> (#[trigger] headers[j]).0@
                    != headers[i].0@) ==> kept_headers(headers).dom().contains(headers[i].0@)
                && kept_headers(headers)[headers[i].0@] == headers[i].1->Some_0,
        forall|name: Seq<char>| #[trigger]
            kept_headers(headers).dom().contains(name) <==> (exists|i: int|
                0 <= i < headers.len() && (#[trigger] headers[i]).1 is Some && headers[i].0@
                    == name),
{
    assert forall|i: int|
        #![trigger headers[i]]
        0 <= i < headers.len() && headers[i].1 is Some && (forall|j: int|
            i < j < headers.len() && headers[j].1 is Some ==> (#[trigger] headers[j]).0@
                != headers[i].0@) implies kept_headers(headers).dom().contains(headers[i].0@)
        && kept_headers(headers)[headers[i].0@] == headers[i].1->Some_0 by {
        law_a_header_is_kept(headers, i);
    }
    assert forall|name: Seq<char>| #[trigger]
        kept_headers(headers).dom().contains(name) <==> (exists|i: int|
            0 <= i < headers.len() && (#[trigger] headers[i]).1 is Some && headers[i].0@
                == name) by {
        if kept_headers(headers).dom().contains(name) {
            let i = lemma_kept_from(headers, name);
            assert(headers[i].1 is Some);
        }
        if exists|i: int|
            0 <= i < headers.len() && (#[trigger] headers[i]).1 is Some && headers[i].0@ == name {
            let i = choose|i: int|
                0 <= i < headers.len() && (#[trigger] headers[i]).1 is Some && headers[i].0@
                    == name;
            lemma_name_is_kept(headers, i);
        }
    }
}

/// A header whose value is a text is kept with it, where no later text has its name.
pub proof fn law_a_header_is_kept(headers: Seq<(String, Option<String>)>, at: int)
    requires
        0 <= at < headers.len(),
        headers[at].1 is Some,
        forall|j: int|
            at < j < headers.len() && headers[j].1 is Some ==> (#[trigger] headers[j]).0@
                != headers[at].0@,
    ensures
        kept_headers(headers).dom().contains(headers[at].0@),
        kept_headers(headers)[headers[at].0@] == headers[at].1->Some_0,
    decreases headers.len(),
{
    let n = headers.len() - 1;
    if at < n {
        let before = headers.drop_last();
        assert forall|j: int| at < j < before.len() && before[j].1 is Some implies (
        #[trigger] before[j]).0@ != before[at].0@ by {
            assert(before[j] == headers[j]);
        }
        law_a_header_is_kept(before, at);
        assert(headers[n].1 is Some ==> headers[n].0@ != headers[at].0@);
    }
}

/// The name of a header whose value is a text is kept.
proof fn lemma_name_is_kept(headers: Seq<(String, Option<String>)>, at: int)
    requires
        0 <= at < headers.len(),
        headers[at].1 is Some,
    ensures
        kept_headers(headers).dom().contains(headers[at].0@),
    decreases headers.len(),
{
    if at < headers.len() - 1 {
        assert(headers.drop_last()[at] == headers[at]);
        lemma_name_is_kept(headers.drop_last(), at);
    }
}

/// A name that is kept is that of a header whose value is a text.
proof fn lemma_kept_from(headers: Seq<(String, Option<String>)>, name: Seq<char>) -> (at: int)
    requires
        kept_headers(headers).dom().contains(name),
    ensures
        0 <= at < headers.len(),
        headers[at].1 is Some,
        headers[at].0@ == name,
    decreases headers.len(),
{
    let n = headers.len() - 1;
    if n >= 0 && headers[n].1 is Some && headers[n].0@ == name {
        n
    } else {
        let at = lemma_kept_from(headers.drop_last(), name);
        assert(headers.drop_last()[at] == headers[at]);
        at
    }
}

/// The answer to a webhook of the payment provider that was let in: each part is found
/// under its own name, as it is.
pub proof fn law_stripe_received_holds_its_parts()
    ensures
        stripe_received().status == 200,
        stripe_received().body is Some,
        stripe_received().body->Some_0.get("received"@) == Some(JsonView::Bool(true)),
{
    broadcast use crate::json::lemma_get_with;

    reveal_strlit("received");
    assert("received"@.len() == 8);
}

/// The answer where no stimulus service is there: each part is found under its own
/// name, as it is.
pub proof fn law_no_stimulus_service_holds_its_parts()
    ensures
        no_stimulus_service().status == 503,
        no_stimulus_service().body is Some,
        no_stimulus_service().body->Some_0.get("error"@) == Some(JsonView::Str("stimulus_service_unavailable"@)),
        no_stimulus_service().body->Some_0.get("message"@) == Some(JsonView::Str("Stimulus service is not configured"@)),
{
    broadcast use crate::json::lemma_get_with;

    reveal_strlit("error");
    reveal_strlit("message");
    assert("error"@.len() == 5 && "message"@.len() == 7);
}

/// A webhook that the guard let through becomes a stimulus with the source, the content and
/// the headers that it came with; one that the guard refuses is answered with the refusal.
pub proof fn law_checked_webhooks_are_handed_on(
    request: WebhookRequest,
    body: Vec<u8>,
    refusal: Reply,
)
    requires
        request.source@ != "stripe"@,
    ensures
        request.next(WebhookEvent::Begun) is CheckSignature,
        request.has_service ==> request.next(WebhookEvent::Checked(Ok(body)))
            == WebhookActionView::Ingest(
            StimulusContent {
                webhook: Some(request.source@),
                content: content_of(body@),
                headers: kept_headers(request.headers@),
                idempotency_key: None,
            },
        ),
        !request.has_service ==> (request.next(
            WebhookEvent::Checked(Ok(body)),
        ) matches WebhookActionView::Answer { reply, .. } && reply.status == 503),
        request.next(WebhookEvent::Checked(Err(refusal))) == (WebhookActionView::Answer {
            reply: refusal@,
            location: None,
        }),
{
}

/// A signed report is taken with the type and the object that its body says, and answered
/// that it was received; a body that is no JSON is answered all the same.
pub proof fn law_signed_reports_are_taken(
    request: WebhookRequest,
    header: String,
    secret: String,
    body: Vec<u8>,
    now: i64,
    report: JsonView,
    event_type: Seq<char>,
    data: JsonView,
    object: JsonView,
)
    requires
        request.source@ == "stripe"@,
        request.stripe_signature == Some(header),
        request.stripe_secret == Some(secret),
        secret@.len() > 0,
        signature_verdict(header@, body@, secret@, now) is Ok,
    ensures
        request.next(WebhookEvent::Begun) == (WebhookActionView::ReadBody {
            at_most: 1_048_576,
        }),
        json_value::parsed_json(json_value::lossy_chars(body@)) == Some(report) && report.get(
            "type"@,
        ) == Some(JsonView::Str(event_type)) && report.get("data"@) == Some(data) && data.get(
            "object"@,
        ) == Some(object) ==> (request.next(
            WebhookEvent::BodyRead { body: Some(body), now_unix: now },
        ) matches WebhookActionView::Report { event_type: t, object: o, reply } && t == event_type
            && o == object && reply.status == 200),
        json_value::parsed_json(json_value::lossy_chars(body@)) is None ==> (request.next(
            WebhookEvent::BodyRead { body: Some(body), now_unix: now },
        ) matches WebhookActionView::Answer { reply, .. } && reply.status == 200),
{
}

/// What is missing for a report is told: 401 without a signature, 400 without a body, 503
/// without a secret, and for a signature that does not hold 401.
pub proof fn law_refused_reports_are_told_why(
    header: Seq<char>,
    body: Seq<u8>,
    secret: Seq<char>,
    now: i64,
)
    ensures
        stripe_refusal(None, Some(body), Some(secret), now) matches Some(r) && r.status == 401,
        stripe_refusal(Some(header), None, Some(secret), now) matches Some(r) && r.status == 400,
        stripe_refusal(Some(header), Some(body), None, now) matches Some(r) && r.status == 503,
        secret.len() == 0 ==> (stripe_refusal(Some(header), Some(body), Some(secret), now) matches Some(
            r,
        ) && r.status == 503),
        secret.len() > 0 ==> (stripe_refusal(Some(header), Some(body), Some(secret), now) is None
            <==> signature_verdict(header, body, secret, now) is Ok),
        signature_refusal(StripeSigError::Malformed).status == 401,
        signature_refusal(StripeSigError::OutsideTolerance).status == 401,
        signature_refusal(StripeSigError::Mismatch).status == 401,
        signature_refusal(StripeSigError::InvalidSecret).status == 500,
{
}

/// The value that a header gives to a name is that of the last part that begins with it.
pub proof fn law_the_last_part_counts(
    parts: Seq<Seq<char>>,
    prefix: Seq<char>,
    value: Seq<char>,
    at: int,
)
    requires
        0 <= at < parts.len(),
        parts[at] == prefix + value,
        forall|j: int| at < j < parts.len() ==> !prefix.is_prefix_of(#[trigger] parts[j]),
    ensures
        last_value(parts, prefix) == value,
    decreases parts.len(),
{
    if at == parts.len() - 1 {
        assert((prefix + value).take(prefix.len() as int) =~= prefix);
        assert((prefix + value).skip(prefix.len() as int) =~= value);
    } else {
        assert(!prefix.is_prefix_of(parts[parts.len() - 1]));
        assert forall|j: int| at < j < parts.drop_last().len() implies !prefix.is_prefix_of(
            #[trigger] parts.drop_last()[j],
        ) by {
            assert(parts.drop_last()[j] == parts[j]);
        }
        law_the_last_part_counts(parts.drop_last(), prefix, value, at);
    }
}

/// The signature is over the time, a full stop and the body.
pub proof fn law_time_and_body_are_signed(time: Seq<char>, body: Seq<u8>)
    ensures
        ({
            let n = vstd::utf8::encode_utf8(time).len() as int;
            &&& signed_bytes(time, body).len() == n + 1 + body.len()
            &&& signed_bytes(time, body).take(n) == vstd::utf8::encode_utf8(time)
            &&& signed_bytes(time, body)[n] == 46u8
            &&& signed_bytes(time, body).skip(n + 1) == body
        }),
{
    let n = vstd::utf8::encode_utf8(time).len() as int;
    assert(signed_bytes(time, body).take(n) =~= vstd::utf8::encode_utf8(time));
    assert(signed_bytes(time, body).skip(n + 1) =~= body);
}

/// The source of a webhook is what its path says behind `/v1/webhooks/`.
pub proof fn law_webhooks_are_named_by_their_path(source: Seq<char>)
    ensures
        source_of_path("/v1/webhooks/"@ + source) == source,
{
    let whole = "/v1/webhooks/"@ + source;
    assert(whole.take("/v1/webhooks/"@.len() as int) =~= "/v1/webhooks/"@);
    assert(whole.skip("/v1/webhooks/"@.len() as int) =~= source);
}

/// The content of a stimulus is the text that its body encodes, or the body in base64 where
/// it encodes none.
pub proof fn law_the_content_is_the_body(text: Seq<char>, body: Seq<u8>)
    ensures
        content_of(vstd::utf8::encode_utf8(text)) == text,
        !vstd::utf8::valid_utf8(body) ==> content_of(body) == primitives::base64_text(body),
{
    vstd::utf8::encode_utf8_valid_utf8(text);
    vstd::utf8::encode_utf8_decode_utf8(text);
}

/// A stimulus that was accepted is answered 202 with both identifiers and where its logs
/// are; one that was refused with the code and the message of the refusal, under a status
/// that is kept only where it is 409 or 422.
pub proof fn law_stimuli_are_answered_as_they_were_taken(
    stimulus_id: String,
    workflow_execution_id: String,
    http_status: u16,
    code: String,
    message: String,
)
    ensures
        ({
            let (reply, location) = ingest_answer(
                Some(IngestOutcome::Accepted { stimulus_id, workflow_execution_id }),
            );
            &&& reply.status == 202
            &&& reply.body matches Some(body)
            &&& body.get("stimulus_id"@) == Some(JsonView::Str(stimulus_id@))
            &&& body.get("workflow_execution_id"@) == Some(JsonView::Str(workflow_execution_id@))
            &&& location matches Some(at) ==> at == "/v1/workflows/executions/"@
                + workflow_execution_id@ + "/logs"@
            &&& primitives::header_takes(logs_location(workflow_execution_id@))
                ==> location is Some
        }),
        ({
            let (reply, location) = ingest_answer(
                Some(IngestOutcome::Refused { http_status, code, message }),
            );
            &&& location is None
            &&& http_status == 409 || http_status == 422 ==> reply.status == http_status
            &&& http_status != 409 && http_status != 422 ==> reply.status == 500
            &&& reply.body matches Some(body)
            &&& body.get("error"@) == Some(JsonView::Str(code@))
            &&& body.get("message"@) == Some(JsonView::Str(message@))
        }),
        ingest_answer(None).0.status == 503,
{
    broadcast use crate::json::lemma_get_with;

    reveal_strlit("stimulus_id");
    reveal_strlit("workflow_execution_id");
    reveal_strlit("error");
    reveal_strlit("message");
    assert("stimulus_id"@.len() == 11 && "workflow_execution_id"@.len() == 21 && "error"@.len() == 5 && "message"@.len() == 7);
}

/// A signature holds where it is the code of the time and the body under the secret and the
/// time is within five minutes of now, and nowhere else.
pub proof fn law_signatures_that_hold(
    header: Seq<char>,
    body: Seq<u8>,
    secret: Seq<char>,
    now: i64,
    at: int,
)
    requires
        header_time(header).len() > 0,
        header_signature(header).len() > 0,
        text::parsed_int(header_time(header)) == Some(at),
        i64::MIN <= at <= i64::MAX,
    ensures
        signature_verdict(header, body, secret, now) is Ok <==> -300 <= now - at <= 300
            && header_signature(header) == primitives::hex_text(
            primitives::hmac_sha256_code(
                vstd::utf8::encode_utf8(secret),
                signed_bytes(header_time(header), body),
            ),
        ),
        now - at > 300 || at - now > 300 ==> signature_verdict(header, body, secret, now) == Err::<
            (),
            StripeSigError,
        >(StripeSigError::OutsideTolerance),
{
}

/// A header without a time, without a signature, or with a time that is no number is
/// malformed.
pub proof fn law_headers_that_are_malformed(
    header: Seq<char>,
    body: Seq<u8>,
    secret: Seq<char>,
    now: i64,
)
    requires
        header_time(header).len() == 0 || header_signature(header).len() == 0
            || text::parsed_int(header_time(header)) is None,
    ensures
        signature_verdict(header, body, secret, now) == Err::<(), StripeSigError>(
            StripeSigError::Malformed,
        ),
{
}

/// A report without a type is of an unknown one, and one without an object is about
/// nothing; a path outside the webhooks names no source.
pub proof fn law_reports_that_leave_out(event: JsonView, data: JsonView, path: Seq<char>)
    ensures
        event.get("type"@) is None ==> report_type(event) == "unknown"@,
        event.get("data"@) is None ==> report_object(event) == JsonView::Null,
        event.get("data"@) == Some(data) && data.get("object"@) is None ==> report_object(event)
            == JsonView::Null,
        !"/v1/webhooks/"@.is_prefix_of(path) ==> source_of_path(path).len() == 0,
{
}

} // verus!
