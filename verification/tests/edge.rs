use aegis_daemon::edge_lifecycle::{
    after_connection, canonical_envelope_payload, endpoint_uri, signed_envelope, verify_envelope,
    verifying_key, CanonicalKind, ConnectionEnd, EdgeAction, EdgeInbound, EdgeNext, EdgeStream,
    Pause,
};
use ed25519_dalek::{Signature, SigningKey, Verifier, VerifyingKey};

const NOW_MS: i64 = 1_700_000_000_000;

#[test]
fn canonical_payload_layout_is_deterministic_and_kind_tagged() {
    let a = canonical_envelope_payload(CanonicalKind::Hello, "node-a", "stream-1", 42, b"x");
    let b = canonical_envelope_payload(CanonicalKind::Hello, "node-a", "stream-1", 42, b"x");
    assert_eq!(a, b, "canonical payload must be deterministic");
    assert_ne!(
        a,
        canonical_envelope_payload(CanonicalKind::Heartbeat, "node-a", "stream-1", 42, b"x"),
        "different kinds must produce different canonical bytes"
    );
    assert_eq!(a[0], CanonicalKind::Hello.tag());
}

#[test]
fn canonical_payload_bytes_are_exact() {
    let bytes = canonical_envelope_payload(CanonicalKind::Hello, "n", "s", 1, b"xy");
    let mut expected: Vec<u8> = vec![1];
    expected.extend_from_slice(&1i64.to_le_bytes());
    expected.extend_from_slice(&[1, 0, 0, 0, b'n']);
    expected.extend_from_slice(&[1, 0, 0, 0, b's']);
    expected.extend_from_slice(&[2, 0, 0, 0, b'x', b'y']);
    assert_eq!(bytes, expected);
}

#[test]
fn negative_timestamps_are_framed_as_two_s_complement() {
    let bytes = canonical_envelope_payload(CanonicalKind::Heartbeat, "", "", -2, b"");
    assert_eq!(bytes[1..9], (-2i64).to_le_bytes());
}

#[test]
fn hello_envelope_signature_round_trips_through_verify() {
    let signing_key = SigningKey::from_bytes(&[7u8; 32]);
    let verifying_key: VerifyingKey = signing_key.verifying_key();

    let envelope = signed_envelope(
        &[7u8; 32],
        "tok.tok.tok",
        "node-uuid",
        "stream-uuid",
        CanonicalKind::Hello,
        &[],
        NOW_MS,
    );

    assert!(
        !envelope.signature.is_empty(),
        "Hello envelope must carry a non-empty signature"
    );
    assert_eq!(
        envelope.signature.len(),
        64,
        "Ed25519 signatures are 64 bytes"
    );

    let sig = Signature::from_slice(&envelope.signature).expect("signature parses");
    verifying_key
        .verify(&envelope.payload, &sig)
        .expect("daemon signature must verify against its own VerifyingKey");
    assert_eq!(envelope.node_security_token, "tok.tok.tok");
}

#[test]
fn heartbeat_envelope_signature_round_trips_through_verify() {
    let signing_key = SigningKey::from_bytes(&[3u8; 32]);
    let verifying_key: VerifyingKey = signing_key.verifying_key();
    let envelope = signed_envelope(
        &[3u8; 32],
        "tok.tok.tok",
        "node-uuid",
        "stream-uuid",
        CanonicalKind::Heartbeat,
        &[],
        NOW_MS,
    );
    let sig = Signature::from_slice(&envelope.signature).unwrap();
    verifying_key.verify(&envelope.payload, &sig).unwrap();
}

#[test]
fn command_result_envelope_binds_command_id_into_signed_payload() {
    let signing_key = SigningKey::from_bytes(&[5u8; 32]);
    let verifying_key: VerifyingKey = signing_key.verifying_key();
    let env_a = signed_envelope(
        &[5u8; 32],
        "tok.tok.tok",
        "node",
        "stream",
        CanonicalKind::CommandResult,
        b"cmd-1",
        NOW_MS,
    );
    let env_b = signed_envelope(
        &[5u8; 32],
        "tok.tok.tok",
        "node",
        "stream",
        CanonicalKind::CommandResult,
        b"cmd-2",
        NOW_MS,
    );
    assert_ne!(
        env_a.payload, env_b.payload,
        "different command_ids must produce different canonical payloads"
    );
    let sig_a = Signature::from_slice(&env_a.signature).unwrap();
    verifying_key
        .verify(&env_a.payload, &sig_a)
        .expect("env_a verifies");
    // Cross-binding must fail.
    let cross = verifying_key.verify(&env_b.payload, &sig_a);
    assert!(
        cross.is_err(),
        "command_id is bound into the canonical payload — cross-verify must fail"
    );
}

fn stream() -> EdgeStream {
    EdgeStream {
        signing_key: [1u8; 32],
        node_security_token: "tok".to_string(),
        node_id: "node".to_string(),
        stream_id: "stream".to_string(),
        draining: false,
    }
}

#[test]
fn a_draining_stream_sends_no_heartbeat() {
    let mut s = stream();
    assert!(s.heartbeat(NOW_MS).is_some());
    let action = s.step(EdgeInbound::Drain, NOW_MS);
    assert!(matches!(action, EdgeAction::Continue));
    assert!(s.draining);
    assert!(s.heartbeat(NOW_MS).is_none());
}

#[test]
fn a_shutdown_drains_and_ends_the_daemon() {
    let mut s = stream();
    assert!(matches!(s.step(EdgeInbound::Shutdown, NOW_MS), EdgeAction::Exit));
    assert!(s.draining);
    assert!(s.heartbeat(NOW_MS).is_none());
    let schedule = vec![Pause { seconds: 1, nanos: 0 }];
    for attempt in [0, 3] {
        assert_eq!(
            after_connection(&schedule, attempt, ConnectionEnd::ShutDown),
            EdgeNext::Exit
        );
    }
}

#[test]
fn errors_and_closing_leave_the_stream() {
    let mut s = stream();
    assert!(matches!(s.step(EdgeInbound::StreamError, NOW_MS), EdgeAction::Leave));
    let mut s = stream();
    assert!(matches!(s.step(EdgeInbound::Closed, NOW_MS), EdgeAction::Leave));
    assert!(!s.draining);
    let mut s = stream();
    assert!(matches!(s.step(EdgeInbound::Empty, NOW_MS), EdgeAction::Continue));
    assert!(matches!(s.step(EdgeInbound::PushConfig, NOW_MS), EdgeAction::Continue));
}

#[test]
fn a_tool_invocation_is_answered_under_its_command_id() {
    let mut s = stream();
    let action = s.step(
        EdgeInbound::InvokeTool {
            command_id: "cmd-9".to_string(),
            tool_name: "fs.read".to_string(),
        },
        NOW_MS,
    );
    match action {
        EdgeAction::Send(event) => {
            assert_eq!(event.command_id, "cmd-9");
            let expected = canonical_envelope_payload(
                CanonicalKind::CommandResult,
                "node",
                "stream",
                NOW_MS,
                b"cmd-9",
            );
            assert_eq!(event.envelope.payload, expected);
            assert!(!event.result.ok);
        }
        _ => panic!("an invocation is answered"),
    }
}

#[test]
fn the_endpoint_gets_a_scheme_where_it_has_none() {
    assert_eq!(endpoint_uri("http://c:50056"), "http://c:50056");
    assert_eq!(endpoint_uri("https://c:50056"), "https://c:50056");
    assert_eq!(endpoint_uri("c:50056"), "http://c:50056");
}

#[test]
fn reconnects_wait_longer_until_a_connection_was_open() {
    let half = Pause { seconds: 0, nanos: 500_000_000 };
    let two = Pause { seconds: 2, nanos: 0 };
    let five = Pause { seconds: 5, nanos: 0 };
    let schedule = vec![half, two, five];
    let next = |attempt, end| match after_connection(&schedule, attempt, end) {
        EdgeNext::Reconnect { pause, attempt } => (pause, attempt),
        EdgeNext::Exit => panic!("a reconnect"),
    };
    assert_eq!(next(0, ConnectionEnd::Failed), (half, 1));
    assert_eq!(next(1, ConnectionEnd::Failed), (two, 2));
    assert_eq!(next(2, ConnectionEnd::Failed), (five, 3));
    assert_eq!(next(9, ConnectionEnd::Failed), (five, 10));
    assert_eq!(next(usize::MAX, ConnectionEnd::Failed), (five, usize::MAX));
    assert_eq!(next(9, ConnectionEnd::Left), (half, 1));
    assert_eq!(
        after_connection(&vec![], 0, ConnectionEnd::Failed),
        EdgeNext::Reconnect { pause: Pause { seconds: 60, nanos: 0 }, attempt: 1 }
    );
}

#[test]
fn a_stream_is_opened_under_an_identifier() {
    let s = EdgeStream::open_with([1u8; 32], "tok", 1, 0xabc << 100);
    assert_eq!(s.node_id, "00000000-0000-0000-0000-000000000001");
    assert_eq!(s.stream_id, uuid::Uuid::from_u128(0xabc << 100).to_string());
    assert_eq!(s.stream_id, "0000abc0-0000-0000-0000-000000000000");
    assert!(!s.draining);
    let a = EdgeStream::open([1u8; 32], "tok", 1);
    let id = uuid::Uuid::parse_str(&a.stream_id).unwrap();
    assert_eq!(id.get_version_num(), 4);
    assert_eq!(a.stream_id, id.to_string());
    assert_eq!(a.node_id, s.node_id);
}

#[test]
fn envelopes_are_accepted_by_their_own_key_alone() {
    let public = verifying_key(&[1u8; 32]);
    assert_eq!(public, SigningKey::from_bytes(&[1u8; 32]).verifying_key().to_bytes());
    let mut s = stream();
    let hello = s.hello(NOW_MS);
    let beat = s.heartbeat(NOW_MS).unwrap();
    assert!(verify_envelope(&hello, &public));
    assert!(verify_envelope(&beat, &public));
    assert!(!verify_envelope(&hello, &verifying_key(&[2u8; 32])));
    match s.step(EdgeInbound::Cancel { command_id: "c".to_string() }, NOW_MS) {
        EdgeAction::Send(mut event) => {
            assert!(verify_envelope(&event.envelope, &public));
            event.envelope.payload = beat.payload;
            assert!(!verify_envelope(&event.envelope, &public));
            event.envelope.signature.pop();
            assert!(!verify_envelope(&event.envelope, &public));
        }
        _ => panic!("a result"),
    }
}
