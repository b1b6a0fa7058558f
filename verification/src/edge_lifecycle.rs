//! The edge daemon's stream to its controller: signed envelopes, the reaction to
//! commands, and the pauses between reconnects.

use crate::primitives;
use crate::text;
use vstd::prelude::*;

verus! {

/// What a signed envelope is about. Its tag stands first in the signed bytes, so
/// that a signature made for one kind of message is none for another.
#[derive(Clone, Copy, PartialEq, Eq, Structural, Debug)]
pub enum CanonicalKind {
    Hello,
    Heartbeat,
    CommandResult,
    CommandProgress,
}

impl CanonicalKind {
    /// The byte that stands for the kind.
    pub open spec fn tag_spec(self) -> u8 {
        match self {
            CanonicalKind::Hello => 1,
            CanonicalKind::Heartbeat => 2,
            CanonicalKind::CommandResult => 3,
            CanonicalKind::CommandProgress => 4,
        }
    }

    /// The byte that stands for the kind.
    pub fn tag(self) -> (r: u8)
        ensures
            r == self.tag_spec(),
    {
        match self {
            CanonicalKind::Hello => 1,
            CanonicalKind::Heartbeat => 2,
            CanonicalKind::CommandResult => 3,
            CanonicalKind::CommandProgress => 4,
        }
    }
}

/// The lowest `width` bytes of a number, the lowest first.
pub open spec fn le_bytes(n: nat, width: nat) -> Seq<u8>
    decreases width,
{
    if width == 0 {
        Seq::empty()
    } else {
        seq![(n % 256) as u8] + le_bytes(n / 256, (width - 1) as nat)
    }
}

/// The number whose bytes these are, the lowest first.
pub open spec fn le_value(bytes: Seq<u8>) -> nat
    decreases bytes.len(),
{
    if bytes.len() == 0 {
        0
    } else {
        bytes[0] as nat + 256 * le_value(bytes.skip(1))
    }
}

/// A length of four bytes, the lowest first, and the bytes themselves.
pub open spec fn framed(bytes: Seq<u8>) -> Seq<u8> {
    le_bytes(bytes.len(), 4) + bytes
}

/// A signed 64-bit number as the unsigned number with the same bits.
pub open spec fn unsigned_bits(n: i64) -> nat {
    if n >= 0 { n as nat } else { (n + 0x1_0000_0000_0000_0000) as nat }
}

/// The bytes that an envelope signs: the kind's tag, the time in milliseconds in
/// eight bytes, and the node, the stream and the inner payload, each framed by
/// its length.
pub open spec fn canonical_bytes(
    kind: CanonicalKind,
    node_id: Seq<char>,
    stream_id: Seq<char>,
    timestamp_ms: i64,
    inner: Seq<u8>,
) -> Seq<u8> {
    seq![kind.tag_spec()] + le_bytes(unsigned_bits(timestamp_ms), 8) + framed(
        vstd::utf8::encode_utf8(node_id),
    ) + framed(vstd::utf8::encode_utf8(stream_id)) + framed(inner)
}

/// Appends the lowest `width` bytes of `n`, the lowest first.
fn push_le(out: &mut Vec<u8>, n: u64, width: usize)
    ensures
        final(out)@ == old(out)@ + le_bytes(n as nat, width as nat),
{
    let mut rest: u64 = n;
    let mut left: usize = width;
    let ghost start = out@;
    assert(start =~= out@ + Seq::<u8>::empty());
    while left > 0
        invariant
            left <= width,
            start + le_bytes(n as nat, width as nat) == out@ + le_bytes(rest as nat, left as nat),
        decreases left,
    {
        let ghost before = out@;
        let ghost tail = le_bytes(rest as nat / 256, (left - 1) as nat);
        out.push((rest % 256) as u8);
        assert(before + (seq![(rest as nat % 256) as u8] + tail) =~= out@ + tail);
        rest = rest / 256;
        left -= 1;
    }
    assert(out@ + Seq::<u8>::empty() =~= out@);
}

/// Appends bytes behind their length.
fn push_framed(out: &mut Vec<u8>, bytes: &[u8])
    ensures
        final(out)@ == old(out)@ + framed(bytes@),
{
    let ghost start = out@;
    push_le(out, bytes.len() as u64, 4);
    out.extend_from_slice(bytes);
    assert(out@ =~= start + framed(bytes@));
}

/// The bytes that an envelope signs. A length beyond four bytes keeps its lowest
/// four.
pub fn canonical_envelope_payload(
    kind: CanonicalKind,
    node_id: &str,
    stream_id: &str,
    timestamp_ms: i64,
    inner: &[u8],
) -> (out: Vec<u8>)
    ensures
        out@ == canonical_bytes(kind, node_id@, stream_id@, timestamp_ms, inner@),
{
    let mut out: Vec<u8> = Vec::new();
    out.push(kind.tag());
    let bits: u64 = if timestamp_ms >= 0 {
        timestamp_ms as u64
    } else {
        (timestamp_ms as i128 + 0x1_0000_0000_0000_0000) as u64
    };
    push_le(&mut out, bits, 8);
    push_framed(&mut out, node_id.as_bytes());
    push_framed(&mut out, stream_id.as_bytes());
    push_framed(&mut out, inner);
    out
}

/// A node's signed envelope.
pub struct SealNodeEnvelope {
    pub node_security_token: String,
    pub signature: Vec<u8>,
    pub payload: Vec<u8>,
}

/// The mathematical content of an envelope.
pub struct SealNodeEnvelopeView {
    pub node_security_token: Seq<char>,
    pub signature: Seq<u8>,
    pub payload: Seq<u8>,
}

impl View for SealNodeEnvelope {
    type V = SealNodeEnvelopeView;

    open spec fn view(&self) -> SealNodeEnvelopeView {
        SealNodeEnvelopeView {
            node_security_token: self.node_security_token@,
            signature: self.signature@,
            payload: self.payload@,
        }
    }
}

/// The envelope around a payload, with the signature that was made over it.
pub open spec fn sealed(
    token: Seq<char>,
    payload: Seq<u8>,
    signature: Seq<u8>,
) -> SealNodeEnvelopeView {
    SealNodeEnvelopeView { node_security_token: token, signature, payload }
}

/// Puts a payload and the signature over it in an envelope.
pub fn seal_envelope(node_security_token: &str, payload: Vec<u8>, signature: Vec<u8>) -> (r:
    SealNodeEnvelope)
    ensures
        r@ == sealed(node_security_token@, payload@, signature@),
{
    SealNodeEnvelope { node_security_token: node_security_token.to_owned(), signature, payload }
}

/// A signed envelope whose payload is the canonical bytes of the message.
pub open spec fn signed(
    secret: Seq<u8>,
    token: Seq<char>,
    node_id: Seq<char>,
    stream_id: Seq<char>,
    kind: CanonicalKind,
    inner: Seq<u8>,
    timestamp_ms: i64,
) -> SealNodeEnvelopeView {
    let payload = canonical_bytes(kind, node_id, stream_id, timestamp_ms, inner);
    sealed(token, payload, primitives::ed25519_signature(secret, payload))
}

/// The public key that an envelope signed with the given key is checked with.
pub fn verifying_key(signing_key: &[u8; 32]) -> (r: [u8; 32])
    ensures
        r@ == primitives::ed25519_public_key(signing_key@),
{
    primitives::ed25519_public(signing_key)
}

impl SealNodeEnvelopeView {
    /// Whether a public key accepts the envelope's signature for its payload.
    pub open spec fn accepted_by(self, public_key: Seq<u8>) -> bool {
        primitives::ed25519_accepts(public_key, self.payload, self.signature)
    }
}

/// Whether a public key accepts the envelope's signature for its payload.
pub fn verify_envelope(envelope: &SealNodeEnvelope, public_key: &[u8; 32]) -> (r: bool)
    ensures
        r == envelope@.accepted_by(public_key@),
{
    primitives::ed25519_verify(
        public_key,
        envelope.payload.as_slice(),
        envelope.signature.as_slice(),
    )
}

/// A signed envelope whose payload is the canonical bytes of the message, made at
/// the given time. The key that belongs to the signing key accepts it. That the key
/// accepts the signature for no other payload is not stated: it rests on how hard
/// collisions are to find.
pub fn signed_envelope(
    signing_key: &[u8; 32],
    node_security_token: &str,
    node_id: &str,
    stream_id: &str,
    kind: CanonicalKind,
    inner: &[u8],
    timestamp_ms: i64,
) -> (r: SealNodeEnvelope)
    ensures
        r@ == signed(
            signing_key@,
            node_security_token@,
            node_id@,
            stream_id@,
            kind,
            inner@,
            timestamp_ms,
        ),
        r.signature@.len() == 64,
        r@.accepted_by(primitives::ed25519_public_key(signing_key@)),
{
    let payload = canonical_envelope_payload(kind, node_id, stream_id, timestamp_ms, inner);
    let signature = primitives::ed25519_sign(signing_key, payload.as_slice());
    seal_envelope(node_security_token, payload, signature)
}

/// The address of the controller with a scheme: `http://` where none is given.
pub open spec fn endpoint_uri_spec(endpoint: Seq<char>) -> Seq<char> {
    if "http://"@.is_prefix_of(endpoint) || "https://"@.is_prefix_of(endpoint) {
        endpoint
    } else {
        "http://"@ + endpoint
    }
}

/// The address of the controller with a scheme.
pub fn endpoint_uri(controller_endpoint: &str) -> (r: String)
    ensures
        r@ == endpoint_uri_spec(controller_endpoint@),
{
    if text::starts_with(controller_endpoint, "http://") || text::starts_with(
        controller_endpoint,
        "https://",
    ) {
        controller_endpoint.to_owned()
    } else {
        "http://".to_owned().concat(controller_endpoint)
    }
}

/// How long the daemon waits.
#[derive(Clone, Copy, PartialEq, Eq, Structural, Debug)]
pub struct Pause {
    pub seconds: u64,
    pub nanos: u32,
}

/// The pause before a reconnect: the schedule's entry for the attempt, its last
/// entry from there on, a minute where the schedule is empty.
pub open spec fn reconnect_pause(schedule: Seq<Pause>, attempt: usize) -> Pause {
    if schedule.len() == 0 {
        Pause { seconds: 60, nanos: 0 }
    } else if attempt < schedule.len() {
        schedule[attempt as int]
    } else {
        schedule.last()
    }
}

/// How a connection ended.
#[derive(Clone, Copy, PartialEq, Eq, Structural, Debug)]
pub enum ConnectionEnd {
    /// It could not be opened.
    Failed,
    /// It was open, and the stream ended.
    Left,
    /// The controller shut the daemon down.
    ShutDown,
}

/// What follows the end of a connection.
#[derive(Clone, Copy, PartialEq, Eq, Structural, Debug)]
pub enum EdgeNext {
    /// The daemon exits.
    Exit,
    /// The daemon waits and connects again, with the attempt that comes next.
    Reconnect { pause: Pause, attempt: usize },
}

/// The attempt that the pause after a connection is taken from: the first after a
/// connection that was open.
pub open spec fn counted_attempt(attempt: usize, end: ConnectionEnd) -> usize {
    if end == ConnectionEnd::Failed { attempt } else { 0 }
}

/// What follows the end of a connection.
pub open spec fn connection_next(
    schedule: Seq<Pause>,
    attempt: usize,
    end: ConnectionEnd,
) -> EdgeNext {
    let current = counted_attempt(attempt, end);
    if end == ConnectionEnd::ShutDown {
        EdgeNext::Exit
    } else {
        EdgeNext::Reconnect {
            pause: reconnect_pause(schedule, current),
            attempt: if current == usize::MAX {
                usize::MAX
            } else {
                (current + 1) as usize
            },
        }
    }
}

/// What follows the end of a connection.
pub fn after_connection(schedule: &Vec<Pause>, attempt: usize, end: ConnectionEnd) -> (r: EdgeNext)
    ensures
        r == connection_next(schedule@, attempt, end),
{
    let current: usize = match end {
        ConnectionEnd::ShutDown => {
            return EdgeNext::Exit;
        },
        ConnectionEnd::Failed => attempt,
        ConnectionEnd::Left => 0,
    };
    let n: usize = schedule.len();
    let pause = if n == 0 {
        Pause { seconds: 60, nanos: 0 }
    } else if current < n {
        schedule[current]
    } else {
        schedule[n - 1]
    };
    let next: usize = if current == usize::MAX { usize::MAX } else { current + 1 };
    EdgeNext::Reconnect { pause, attempt: next }
}

/// The outcome of a command, as it goes back to the controller.
pub struct EdgeResult {
    pub ok: bool,
    pub exit_code: i32,
    pub stdout: Vec<u8>,
    pub stderr: Vec<u8>,
    pub error_kind: String,
    pub error_message: String,
}

/// The mathematical content of an outcome.
pub struct EdgeResultView {
    pub ok: bool,
    pub exit_code: i32,
    pub stdout: Seq<u8>,
    pub stderr: Seq<u8>,
    pub error_kind: Seq<char>,
    pub error_message: Seq<char>,
}

impl View for EdgeResult {
    type V = EdgeResultView;

    open spec fn view(&self) -> EdgeResultView {
        EdgeResultView {
            ok: self.ok,
            exit_code: self.exit_code,
            stdout: self.stdout@,
            stderr: self.stderr@,
            error_kind: self.error_kind@,
            error_message: self.error_message@,
        }
    }
}

/// The outcome of a command that was not carried out.
pub open spec fn refused(kind: Seq<char>, message: Seq<char>) -> EdgeResultView {
    EdgeResultView {
        ok: false,
        exit_code: 0,
        stdout: Seq::empty(),
        stderr: Seq::empty(),
        error_kind: kind,
        error_message: message,
    }
}

fn refuse(kind: &str, message: String) -> (r: EdgeResult)
    ensures
        r@ == refused(kind@, message@),
{
    EdgeResult {
        ok: false,
        exit_code: 0,
        stdout: Vec::new(),
        stderr: Vec::new(),
        error_kind: kind.to_owned(),
        error_message: message,
    }
}

/// What the stream from the controller brings.
pub enum EdgeInbound {
    InvokeTool { command_id: String, tool_name: String },
    Cancel { command_id: String },
    PushConfig,
    Drain,
    Shutdown,
    /// A frame without a command.
    Empty,
    /// The stream reported an error.
    StreamError,
    /// The stream ended.
    Closed,
}

/// A command's result in its signed envelope.
pub struct CommandResultEvent {
    pub envelope: SealNodeEnvelope,
    pub command_id: String,
    pub result: EdgeResult,
}

/// What the daemon does about it.
pub enum EdgeAction {
    Send(CommandResultEvent),
    Continue,
    /// The stream is over; the daemon connects again.
    Leave,
    /// The daemon is shut down; it drains and exits.
    Exit,
}

/// What a stream keeps: who the node is, which stream it is, and whether the node
/// is draining.
pub struct EdgeStream {
    pub signing_key: [u8; 32],
    pub node_security_token: String,
    pub node_id: String,
    pub stream_id: String,
    pub draining: bool,
}

/// The answer to a command, where it is answered: the command and its result.
pub open spec fn edge_answer(inbound: EdgeInbound) -> Option<(Seq<char>, EdgeResultView)> {
    match inbound {
        EdgeInbound::InvokeTool { command_id, tool_name } => Some(
            (
                command_id@,
                refused(
                    "tool_not_found"@,
                    "tool '"@ + tool_name@ + "' not yet locally dispatched on edge daemon"@,
                ),
            ),
        ),
        EdgeInbound::Cancel { command_id } => Some(
            (command_id@, refused("cancelled"@, "cancelled by operator"@)),
        ),
        _ => None,
    }
}

/// Whether the daemon leaves the stream, to connect again.
pub open spec fn edge_leaves(inbound: EdgeInbound) -> bool {
    inbound is StreamError || inbound is Closed
}

/// Whether the node is draining from here on.
pub open spec fn edge_drains(inbound: EdgeInbound) -> bool {
    inbound is Drain || inbound is Shutdown
}

impl EdgeStream {
    /// Whether a stream is a new one of the given node.
    pub open spec fn opened(
        self,
        signing_key: [u8; 32],
        node_security_token: Seq<char>,
        node_id: u128,
    ) -> bool {
        &&& self.signing_key == signing_key
        &&& self.node_security_token@ == node_security_token
        &&& self.node_id@ == primitives::uuid_chars(node_id)
        &&& !self.draining
    }

    /// A new stream of a node, under the given identifier.
    pub fn open_with(
        signing_key: [u8; 32],
        node_security_token: &str,
        node_id: u128,
        stream_id: u128,
    ) -> (r: Self)
        ensures
            r.opened(signing_key, node_security_token@, node_id),
            r.stream_id@ == primitives::uuid_chars(stream_id),
    {
        EdgeStream {
            signing_key,
            node_security_token: node_security_token.to_owned(),
            node_id: primitives::uuid_text(node_id),
            stream_id: primitives::uuid_text(stream_id),
            draining: false,
        }
    }

    /// A new stream of a node, under a random identifier.
    pub fn open(signing_key: [u8; 32], node_security_token: &str, node_id: u128) -> (r: Self)
        ensures
            r.opened(signing_key, node_security_token@, node_id),
            exists|id: u128|
                primitives::is_random_uuid(id) && r.stream_id@ == #[trigger]
                primitives::uuid_chars(id),
    {
        let id: u128 = primitives::random_uuid();
        Self::open_with(signing_key, node_security_token, node_id, id)
    }

    /// The key that the envelopes of this stream are checked with.
    pub open spec fn public_key(self) -> Seq<u8> {
        primitives::ed25519_public_key(self.signing_key@)
    }

    /// The signed envelope of a message on this stream.
    pub open spec fn envelope_spec(
        self,
        kind: CanonicalKind,
        inner: Seq<u8>,
        timestamp_ms: i64,
    ) -> SealNodeEnvelopeView {
        signed(
            self.signing_key@,
            self.node_security_token@,
            self.node_id@,
            self.stream_id@,
            kind,
            inner,
            timestamp_ms,
        )
    }

    /// The signed envelope of a message on this stream.
    pub fn envelope(&self, kind: CanonicalKind, inner: &[u8], timestamp_ms: i64) -> (r:
        SealNodeEnvelope)
        ensures
            r@ == self.envelope_spec(kind, inner@, timestamp_ms),
            r@.accepted_by(self.public_key()),
    {
        signed_envelope(
            &self.signing_key,
            self.node_security_token.as_str(),
            self.node_id.as_str(),
            self.stream_id.as_str(),
            kind,
            inner,
            timestamp_ms,
        )
    }

    /// The envelope of the message that opens the stream.
    pub fn hello(&self, timestamp_ms: i64) -> (r: SealNodeEnvelope)
        ensures
            r@ == self.envelope_spec(CanonicalKind::Hello, Seq::empty(), timestamp_ms),
            r@.accepted_by(self.public_key()),
    {
        let nothing: Vec<u8> = Vec::new();
        self.envelope(CanonicalKind::Hello, nothing.as_slice(), timestamp_ms)
    }

    /// The envelope of the heartbeat that is due, unless the node is draining.
    pub fn heartbeat(&self, timestamp_ms: i64) -> (r: Option<SealNodeEnvelope>)
        ensures
            self.draining ==> r is None,
            !self.draining ==> r is Some && r->Some_0@ == self.envelope_spec(
                CanonicalKind::Heartbeat,
                Seq::empty(),
                timestamp_ms,
            ) && r->Some_0@.accepted_by(self.public_key()),
    {
        if self.draining {
            None
        } else {
            let nothing: Vec<u8> = Vec::new();
            Some(self.envelope(CanonicalKind::Heartbeat, nothing.as_slice(), timestamp_ms))
        }
    }

    fn answer(&self, command_id: String, result: EdgeResult, timestamp_ms: i64) -> (r: EdgeAction)
        ensures
            r matches EdgeAction::Send(event) && event.command_id@ == command_id@ && event.result@
                == result@ && event.envelope@ == self.envelope_spec(
                CanonicalKind::CommandResult,
                vstd::utf8::encode_utf8(command_id@),
                timestamp_ms,
            ) && event.envelope@.accepted_by(self.public_key()),
    {
        let envelope = self.envelope(
            CanonicalKind::CommandResult,
            command_id.as_str().as_bytes(),
            timestamp_ms,
        );
        EdgeAction::Send(CommandResultEvent { envelope, command_id, result })
    }

    /// One step of the stream: takes what came in and says what to do about it. A
    /// command that is answered is answered under a signature that binds its id.
    pub fn step(&mut self, inbound: EdgeInbound, timestamp_ms: i64) -> (action: EdgeAction)
        ensures
            final(self).draining == (old(self).draining || edge_drains(inbound)),
            final(self).signing_key == old(self).signing_key,
            final(self).node_security_token == old(self).node_security_token,
            final(self).node_id == old(self).node_id,
            final(self).stream_id == old(self).stream_id,
            match edge_answer(inbound) {
                Some((command_id, result)) => action matches EdgeAction::Send(event)
                    && event.command_id@ == command_id && event.result@ == result
                    && event.envelope@ == old(self).envelope_spec(
                    CanonicalKind::CommandResult,
                    vstd::utf8::encode_utf8(command_id),
                    timestamp_ms,
                ) && event.envelope@.accepted_by(old(self).public_key()),
                None => !(action is Send),
            },
            action is Leave <==> edge_leaves(inbound),
            action is Exit <==> inbound is Shutdown,
    {
        match inbound {
            EdgeInbound::InvokeTool { command_id, tool_name } => {
                let message = "tool '".to_owned().concat(tool_name.as_str()).concat(
                    "' not yet locally dispatched on edge daemon",
                );
                let result = refuse("tool_not_found", message);
                self.answer(command_id, result, timestamp_ms)
            },
            EdgeInbound::Cancel { command_id } => {
                let result = refuse("cancelled", "cancelled by operator".to_owned());
                self.answer(command_id, result, timestamp_ms)
            },
            EdgeInbound::PushConfig => EdgeAction::Continue,
            EdgeInbound::Drain => {
                self.draining = true;
                EdgeAction::Continue
            },
            EdgeInbound::Shutdown => {
                self.draining = true;
                EdgeAction::Exit
            },
            EdgeInbound::Empty => EdgeAction::Continue,
            EdgeInbound::StreamError => EdgeAction::Leave,
            EdgeInbound::Closed => EdgeAction::Leave,
        }
    }
}

/// The daemon ends exactly when its controller shuts it down: after every other end of a
/// connection it connects again.
pub proof fn law_only_a_shutdown_ends_the_daemon(
    schedule: Seq<Pause>,
    attempt: usize,
    end: ConnectionEnd,
)
    ensures
        connection_next(schedule, attempt, end) is Exit <==> end is ShutDown,
        connection_next(schedule, attempt, end) is Reconnect <==> end is Failed || end is Left,
{
}

/// A tool is never run for the controller, whether the node is draining or not: every
/// invocation is answered, and refused.
pub proof fn law_invocations_are_refused(command_id: String, tool_name: String)
    ensures
        edge_answer(EdgeInbound::InvokeTool { command_id, tool_name }) matches Some(
            (answered, result),
        ) && answered == command_id@ && !result.ok,
{
}

proof fn lemma_le_bytes(n: nat, width: nat)
    ensures
        le_bytes(n, width).len() == width,
    decreases width,
{
    if width > 0 {
        lemma_le_bytes(n / 256, (width - 1) as nat);
    }
}

/// How many numbers `width` bytes tell apart.
pub open spec fn byte_range(width: nat) -> nat
    decreases width,
{
    if width == 0 {
        1
    } else {
        256 * byte_range((width - 1) as nat)
    }
}

proof fn lemma_le_round_trip(n: nat, width: nat)
    requires
        n < byte_range(width),
    ensures
        le_value(le_bytes(n, width)) == n,
    decreases width,
{
    if width > 0 {
        lemma_le_round_trip(n / 256, (width - 1) as nat);
        let b = le_bytes(n, width);
        assert(b.skip(1) =~= le_bytes(n / 256, (width - 1) as nat));
        assert(b[0] as nat == n % 256);
    }
}

proof fn lemma_frame(bytes: Seq<u8>)
    requires
        bytes.len() <= u32::MAX,
    ensures
        framed(bytes).len() == 4 + bytes.len(),
        framed(bytes).take(4) == le_bytes(bytes.len(), 4),
        le_value(framed(bytes).take(4)) == bytes.len(),
        framed(bytes).skip(4) == bytes,
{
    lemma_le_bytes(bytes.len(), 4);
    reveal_with_fuel(byte_range, 5);
    lemma_le_round_trip(bytes.len(), 4);
    assert(framed(bytes).take(4) =~= le_bytes(bytes.len(), 4));
    assert(framed(bytes).skip(4) =~= bytes);
}

/// Two framed fields at the start of equal bytes are equal, and so is what
/// follows them.
proof fn lemma_split_frame(a: Seq<u8>, rest_a: Seq<u8>, b: Seq<u8>, rest_b: Seq<u8>)
    requires
        a.len() <= u32::MAX,
        b.len() <= u32::MAX,
        framed(a) + rest_a == framed(b) + rest_b,
    ensures
        a == b,
        rest_a == rest_b,
{
    lemma_frame(a);
    lemma_frame(b);
    let whole = framed(a) + rest_a;
    assert(whole.take(4) =~= framed(a).take(4));
    assert((framed(b) + rest_b).take(4) =~= framed(b).take(4));
    assert(a.len() == b.len());
    assert(whole.subrange(4, 4 + a.len() as int) =~= a);
    assert((framed(b) + rest_b).subrange(4, 4 + b.len() as int) =~= b);
    assert(whole.skip(4 + a.len() as int) =~= rest_a);
    assert((framed(b) + rest_b).skip(4 + b.len() as int) =~= rest_b);
}

/// The canonical bytes determine the message: kind, node, stream, time and inner
/// payload. Lengths are framed in four bytes, so each field is at most that long.
pub proof fn law_canonical_bytes_injective(
    kind_a: CanonicalKind,
    node_a: Seq<char>,
    stream_a: Seq<char>,
    time_a: i64,
    inner_a: Seq<u8>,
    kind_b: CanonicalKind,
    node_b: Seq<char>,
    stream_b: Seq<char>,
    time_b: i64,
    inner_b: Seq<u8>,
)
    requires
        vstd::utf8::encode_utf8(node_a).len() <= u32::MAX,
        vstd::utf8::encode_utf8(node_b).len() <= u32::MAX,
        vstd::utf8::encode_utf8(stream_a).len() <= u32::MAX,
        vstd::utf8::encode_utf8(stream_b).len() <= u32::MAX,
        inner_a.len() <= u32::MAX,
        inner_b.len() <= u32::MAX,
        canonical_bytes(kind_a, node_a, stream_a, time_a, inner_a) == canonical_bytes(
            kind_b,
            node_b,
            stream_b,
            time_b,
            inner_b,
        ),
    ensures
        kind_a == kind_b,
        node_a == node_b,
        stream_a == stream_b,
        time_a == time_b,
        inner_a == inner_b,
{
    let na = vstd::utf8::encode_utf8(node_a);
    let nb = vstd::utf8::encode_utf8(node_b);
    let sa = vstd::utf8::encode_utf8(stream_a);
    let sb = vstd::utf8::encode_utf8(stream_b);
    let ta = le_bytes(unsigned_bits(time_a), 8);
    let tb = le_bytes(unsigned_bits(time_b), 8);
    let a = canonical_bytes(kind_a, node_a, stream_a, time_a, inner_a);
    let b = canonical_bytes(kind_b, node_b, stream_b, time_b, inner_b);
    lemma_le_bytes(unsigned_bits(time_a), 8);
    lemma_le_bytes(unsigned_bits(time_b), 8);
    assert(a[0] == kind_a.tag_spec());
    assert(b[0] == kind_b.tag_spec());
    assert(a.subrange(1, 9) =~= ta);
    assert(b.subrange(1, 9) =~= tb);
    reveal_with_fuel(byte_range, 9);
    lemma_le_round_trip(unsigned_bits(time_a), 8);
    lemma_le_round_trip(unsigned_bits(time_b), 8);
    assert(a.skip(9) =~= framed(na) + (framed(sa) + framed(inner_a)));
    assert(b.skip(9) =~= framed(nb) + (framed(sb) + framed(inner_b)));
    lemma_split_frame(na, framed(sa) + framed(inner_a), nb, framed(sb) + framed(inner_b));
    lemma_split_frame(sa, framed(inner_a), sb, framed(inner_b));
    lemma_frame(inner_a);
    lemma_frame(inner_b);
    vstd::utf8::encode_utf8_decode_utf8(node_a);
    vstd::utf8::encode_utf8_decode_utf8(node_b);
    vstd::utf8::encode_utf8_decode_utf8(stream_a);
    vstd::utf8::encode_utf8_decode_utf8(stream_b);
}

/// The canonical bytes of messages of different kinds differ, so that a signature
/// over one kind of message is none over another.
pub proof fn law_canonical_bytes_kind_tagged(
    kind_a: CanonicalKind,
    node_a: Seq<char>,
    stream_a: Seq<char>,
    time_a: i64,
    inner_a: Seq<u8>,
    kind_b: CanonicalKind,
    node_b: Seq<char>,
    stream_b: Seq<char>,
    time_b: i64,
    inner_b: Seq<u8>,
)
    requires
        kind_a != kind_b,
    ensures
        canonical_bytes(kind_a, node_a, stream_a, time_a, inner_a)[0] == kind_a.tag_spec(),
        canonical_bytes(kind_a, node_a, stream_a, time_a, inner_a) != canonical_bytes(
            kind_b,
            node_b,
            stream_b,
            time_b,
            inner_b,
        ),
{
    let b = canonical_bytes(kind_b, node_b, stream_b, time_b, inner_b);
    assert(b[0] == kind_b.tag_spec());
}

/// Numbers are written lowest byte first, and read back as they were.
pub proof fn law_numbers_are_read_back(n: nat, width: nat)
    requires
        n < byte_range(width),
    ensures
        le_bytes(n, width).len() == width,
        le_value(le_bytes(n, width)) == n,
        width > 0 ==> le_bytes(n, width)[0] == n % 256,
    decreases width,
{
    if width > 0 {
        law_numbers_are_read_back(n / 256, (width - 1) as nat);
        assert(le_bytes(n, width).skip(1) =~= le_bytes(n / 256, (width - 1) as nat));
    }
}

/// What is signed begins with the kind of the message and its time, and holds the node, the
/// stream and the content, each after its length.
pub proof fn law_what_is_signed(
    kind: CanonicalKind,
    node: Seq<char>,
    stream: Seq<char>,
    at: i64,
    inner: Seq<u8>,
)
    ensures
        ({
            let n = vstd::utf8::encode_utf8(node);
            let s = vstd::utf8::encode_utf8(stream);
            let all = canonical_bytes(kind, node, stream, at, inner);
            &&& all.len() == 1 + 8 + 4 + n.len() + 4 + s.len() + 4 + inner.len()
            &&& all[0] == kind.tag_spec()
            &&& all.subrange(1, 9) == le_bytes(unsigned_bits(at), 8)
            &&& all.subrange(9, 13) == le_bytes(n.len(), 4)
            &&& all.subrange(13, 13int + n.len()) == n
            &&& all.subrange(17int + n.len(), 17int + n.len() + s.len()) == s
            &&& all.skip(21int + n.len() + s.len()) == inner
        }),
        CanonicalKind::Hello.tag_spec() == 1,
        CanonicalKind::Heartbeat.tag_spec() == 2,
        CanonicalKind::CommandResult.tag_spec() == 3,
        CanonicalKind::CommandProgress.tag_spec() == 4,
        at >= 0 ==> unsigned_bits(at) == at,
{
    let n = vstd::utf8::encode_utf8(node);
    let s = vstd::utf8::encode_utf8(stream);
    let all = canonical_bytes(kind, node, stream, at, inner);
    lemma_width(unsigned_bits(at), 8);
    lemma_width(n.len(), 4);
    lemma_width(s.len(), 4);
    lemma_width(inner.len(), 4);
    assert(all.subrange(1, 9) =~= le_bytes(unsigned_bits(at), 8));
    assert(all.subrange(9, 13) =~= le_bytes(n.len(), 4));
    assert(all.subrange(13, 13int + n.len()) =~= n);
    assert(all.subrange(17int + n.len(), 17int + n.len() + s.len()) =~= s);
    assert(all.skip(21int + n.len() + s.len()) =~= inner);
}

/// A number takes as many bytes as it is written in.
proof fn lemma_width(n: nat, width: nat)
    ensures
        le_bytes(n, width).len() == width,
    decreases width,
{
    if width > 0 {
        lemma_width(n / 256, (width - 1) as nat);
    }
}

/// An envelope carries the token of the node, what is signed, and the signature over just
/// that.
pub proof fn law_envelopes_are_signed(
    stream: EdgeStream,
    kind: CanonicalKind,
    inner: Seq<u8>,
    at: i64,
)
    ensures
        ({
            let envelope = stream.envelope_spec(kind, inner, at);
            &&& envelope.node_security_token == stream.node_security_token@
            &&& envelope.payload == canonical_bytes(
                kind,
                stream.node_id@,
                stream.stream_id@,
                at,
                inner,
            )
            &&& envelope.signature == primitives::ed25519_signature(
                stream.signing_key@,
                envelope.payload,
            )
        }),
{
}

/// Connections that fail are tried again after longer and longer pauses, as planned, and
/// after the last of them again and again; one that held begins anew.
pub proof fn law_pauses_follow_the_plan(
    schedule: Seq<Pause>,
    attempt: usize,
)
    ensures
        attempt < schedule.len() ==> (connection_next(
            schedule,
            attempt,
            ConnectionEnd::Failed,
        ) matches EdgeNext::Reconnect { pause, .. } && pause == schedule[attempt as int]),
        schedule.len() > 0 && attempt >= schedule.len() ==> (connection_next(
            schedule,
            attempt,
            ConnectionEnd::Failed,
        ) matches EdgeNext::Reconnect { pause, .. } && pause == schedule[schedule.len() - 1]),
        schedule.len() == 0 ==> (connection_next(
            schedule,
            attempt,
            ConnectionEnd::Failed,
        ) matches EdgeNext::Reconnect { pause, .. } && pause.seconds == 60 && pause.nanos == 0),
        attempt < usize::MAX ==> (connection_next(
            schedule,
            attempt,
            ConnectionEnd::Failed,
        ) matches EdgeNext::Reconnect { attempt: next, .. } && next == attempt + 1),
        connection_next(schedule, attempt, ConnectionEnd::Left) matches EdgeNext::Reconnect {
            pause,
            attempt: next,
        } && next == 1 && (schedule.len() > 0 ==> pause == schedule[0]),
        connection_next(schedule, attempt, ConnectionEnd::ShutDown) == EdgeNext::Exit,
{
}

/// A command that is called off is answered so; what is no command has no answer.
pub proof fn law_commands_are_answered(command_id: String, inbound: EdgeInbound)
    ensures
        edge_answer(EdgeInbound::Cancel { command_id }) matches Some((id, result)) && id
            == command_id@ && !result.ok && result.error_kind == "cancelled"@,
        !(inbound is InvokeTool) && !(inbound is Cancel) ==> edge_answer(inbound) is None,
        edge_leaves(inbound) <==> inbound is StreamError || inbound is Closed,
        edge_drains(inbound) <==> inbound is Drain || inbound is Shutdown,
{
}

/// An endpoint without a scheme is reached over plain HTTP; one with a scheme as it says.
pub proof fn law_endpoints_have_a_scheme(rest: Seq<char>)
    ensures
        endpoint_uri_spec("http://"@ + rest) == "http://"@ + rest,
        endpoint_uri_spec("https://"@ + rest) == "https://"@ + rest,
        !"http://"@.is_prefix_of(rest) && !"https://"@.is_prefix_of(rest) ==> endpoint_uri_spec(
            rest,
        ) == "http://"@ + rest,
{
    assert("http://"@.is_prefix_of("http://"@ + rest));
    assert("https://"@.is_prefix_of("https://"@ + rest));
}

} // verus!
