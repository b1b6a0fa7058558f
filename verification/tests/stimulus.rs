use aegis_daemon::handlers::stimulus::{
    admit_stripe_webhook, headers_to_map, ingest_reply, ingest_stimulus, is_stripe_source,
    stimulus_error_response,
    stripe_event, stripe_received_reply, stripe_verdict, take_report, verify_stripe_signature,
    webhook_content,
    webhook_source, workflow_execution_logs_location, IngestOutcome, StripeSigError,
    WebhookAction, WebhookEvent, WebhookRequest, STRIPE_SIGNATURE_TOLERANCE_SECS,
};
use aegis_daemon::http::Reply;
use aegis_daemon::json::Json;
use aegis_daemon::json_value::{read_body, read_text};
use hmac::{Hmac, Mac};
use sha2::Sha256;

fn lib_json(value: &serde_json::Value) -> Json {
    aegis_daemon::json_value::read_value(value)
}

fn json(text: &str) -> Json {
    lib_json(&serde_json::from_str(text).expect("valid JSON"))
}

fn value_of(json: &Json) -> serde_json::Value {
    match json {
        Json::Null => serde_json::Value::Null,
        Json::Bool(b) => serde_json::Value::from(*b),
        Json::Int(n) => match (i64::try_from(*n), u64::try_from(*n)) {
            (Ok(i), _) => serde_json::Value::from(i),
            (_, Ok(u)) => serde_json::Value::from(u),
            _ => panic!("the number does not fit"),
        },
        Json::Real(text) => serde_json::from_str(text).expect("a number"),
        Json::Str(s) => serde_json::Value::from(s.as_str()),
        Json::Arr(items) => serde_json::Value::from(items.iter().map(value_of).collect::<Vec<_>>()),
        Json::Obj(members) => {
            let mut out = serde_json::Map::new();
            for (key, value) in members {
                out.insert(key.clone(), value_of(value));
            }
            serde_json::Value::from(out)
        }
    }
}

/// Checks a reply's status and its body, whatever the order of the members.
fn check(reply: &Reply, status: u16, body: &str) {
    assert_eq!(reply.status, status);
    let expected: serde_json::Value = serde_json::from_str(body).expect("valid JSON");
    assert_eq!(value_of(reply.body.as_ref().expect("a body")), expected);
}

const SECRET: &str = "whsec_test_signing_key";

fn sign(ts: i64, body: &[u8], secret: &str) -> String {
    let mut mac = Hmac::<Sha256>::new_from_slice(secret.as_bytes()).unwrap();
    mac.update(ts.to_string().as_bytes());
    mac.update(b".");
    mac.update(body);
    let v1 = hex::encode(mac.finalize().into_bytes());
    format!("t={ts},v1={v1}")
}

#[test]
fn valid_signature_inside_window_is_accepted() {
    let now = 1_700_000_000;
    let body = br#"{"type":"checkout.session.completed"}"#;
    let header = sign(now, body, SECRET);
    assert_eq!(verify_stripe_signature(&header, body, SECRET, now), Ok(()));
}

#[test]
fn replay_outside_tolerance_window_is_rejected() {
    let signed_at = 1_700_000_000;
    let body = br#"{"type":"customer.subscription.updated"}"#;
    let header = sign(signed_at, body, SECRET);
    let now = signed_at + STRIPE_SIGNATURE_TOLERANCE_SECS + 1;
    assert_eq!(
        verify_stripe_signature(&header, body, SECRET, now),
        Err(StripeSigError::OutsideTolerance)
    );
    let now_future = signed_at - STRIPE_SIGNATURE_TOLERANCE_SECS - 1;
    assert_eq!(
        verify_stripe_signature(&header, body, SECRET, now_future),
        Err(StripeSigError::OutsideTolerance)
    );
}

#[test]
fn replay_inside_window_verifies_outside_window_does_not() {
    let signed_at = 1_700_000_000;
    let body = br#"{"type":"checkout.session.completed","id":"evt_1"}"#;
    let header = sign(signed_at, body, SECRET);

    assert_eq!(
        verify_stripe_signature(&header, body, SECRET, signed_at + 30),
        Ok(())
    );

    assert_eq!(
        verify_stripe_signature(&header, body, SECRET, signed_at + 600),
        Err(StripeSigError::OutsideTolerance)
    );
}

#[test]
fn tampered_body_with_valid_old_signature_is_rejected() {
    let signed_at = 1_700_000_000;
    let original = br#"{"amount":1000}"#;
    let header = sign(signed_at, original, SECRET);
    let tampered = br#"{"amount":9999}"#;
    assert_eq!(
        verify_stripe_signature(&header, tampered, SECRET, signed_at),
        Err(StripeSigError::Mismatch)
    );
}

#[test]
fn tampered_signature_is_rejected_constant_time() {
    let signed_at = 1_700_000_000;
    let body = b"payload";
    let valid = sign(signed_at, body, SECRET);
    let mut bytes: Vec<u8> = valid.into_bytes();
    let last = bytes.last_mut().unwrap();
    *last = if *last == b'0' { b'1' } else { b'0' };
    let tampered = String::from_utf8(bytes).unwrap();
    assert_eq!(
        verify_stripe_signature(&tampered, body, SECRET, signed_at),
        Err(StripeSigError::Mismatch)
    );
}

#[test]
fn wrong_length_signature_is_rejected() {
    let signed_at = 1_700_000_000;
    let body = b"payload";
    let header_short = format!("t={signed_at},v1=deadbeef");
    let header_long = format!("t={signed_at},v1={}", "a".repeat(128));
    assert_eq!(
        verify_stripe_signature(&header_short, body, SECRET, signed_at),
        Err(StripeSigError::Mismatch)
    );
    assert_eq!(
        verify_stripe_signature(&header_long, body, SECRET, signed_at),
        Err(StripeSigError::Mismatch)
    );
}

#[test]
fn malformed_header_is_rejected() {
    let body = b"payload";
    assert_eq!(
        verify_stripe_signature("v1=deadbeef", body, SECRET, 0),
        Err(StripeSigError::Malformed)
    );
    assert_eq!(
        verify_stripe_signature("t=1700000000", body, SECRET, 1_700_000_000),
        Err(StripeSigError::Malformed)
    );
    assert_eq!(
        verify_stripe_signature("t=not-a-number,v1=deadbeef", body, SECRET, 0),
        Err(StripeSigError::Malformed)
    );
}

/// Every single changed digit of a signature is noticed, wherever it stands, and so
/// is every signature that is a prefix of the right one.
#[test]
fn no_raw_eq_compare_in_stripe_verify_path() {
    let signed_at = 1_700_000_000;
    let body = b"payload";
    let valid = sign(signed_at, body, SECRET);
    assert_eq!(verify_stripe_signature(&valid, body, SECRET, signed_at), Ok(()));
    let start = valid.find("v1=").unwrap() + 3;
    for i in start..valid.len() {
        let mut bytes: Vec<u8> = valid.clone().into_bytes();
        bytes[i] = if bytes[i] == b'0' { b'1' } else { b'0' };
        let changed = String::from_utf8(bytes).unwrap();
        assert_eq!(
            verify_stripe_signature(&changed, body, SECRET, signed_at),
            Err(StripeSigError::Mismatch)
        );
        if i > start {
            assert_eq!(
                verify_stripe_signature(&valid[..i], body, SECRET, signed_at),
                Err(StripeSigError::Mismatch)
            );
        }
    }
    let upper = format!("{}{}", &valid[..start], valid[start..].to_uppercase());
    assert_eq!(
        verify_stripe_signature(&upper, body, SECRET, signed_at),
        Err(StripeSigError::Mismatch)
    );
}

#[test]
fn the_window_is_closed_at_both_ends() {
    let code: Vec<u8> = vec![0xab, 0x01];
    assert_eq!(stripe_verdict("1000", "ab01", 1300, &code), Ok(()));
    assert_eq!(stripe_verdict("1000", "ab01", 700, &code), Ok(()));
    assert_eq!(
        stripe_verdict("1000", "ab01", 1301, &code),
        Err(StripeSigError::OutsideTolerance)
    );
    assert_eq!(stripe_verdict("1000", "AB01", 1000, &code), Err(StripeSigError::Mismatch));
    assert_eq!(
        stripe_verdict("-9223372036854775808", "ab01", i64::MAX, &code),
        Err(StripeSigError::OutsideTolerance)
    );
}

#[test]
fn webhooks_without_signature_or_secret_are_refused() {
    let body = b"payload".to_vec();
    let now = 1_700_000_000;
    let header = sign(now, &body, SECRET);
    assert!(admit_stripe_webhook(Some(&header), Some(&body), Some(SECRET), now).is_ok());
    assert!(admit_stripe_webhook(None, Some(&body), Some(SECRET), now).is_err());
    assert!(admit_stripe_webhook(Some(&header), None, Some(SECRET), now).is_err());
    assert!(admit_stripe_webhook(Some(&header), Some(&body), None, now).is_err());
    assert!(admit_stripe_webhook(Some(&header), Some(&body), Some(SECRET), now + 301).is_err());
}

#[test]
fn an_event_has_its_type_and_its_object() {
    let (kind, object) = stripe_event(&json(
        r#"{"type": "invoice.payment_failed", "data": {"object": {"customer": "cus_1"}}}"#,
    ));
    assert_eq!(kind, "invoice.payment_failed");
    assert_eq!(object.get_str("customer"), Some("cus_1"));
    check(&stripe_received_reply(), 200, r#"{"received": true}"#);
}

#[test]
fn the_source_of_a_webhook_is_in_its_path() {
    assert_eq!(webhook_source("/v1/webhooks/github"), "github");
    assert!(is_stripe_source("stripe"));
    assert!(!is_stripe_source("github"));
}

#[test]
fn text_is_kept_and_bytes_are_encoded() {
    assert_eq!(webhook_content(&b"hello".to_vec()), "hello");
    assert_eq!(webhook_content(&vec![0xff, 0xfe]), "//4=");
}

#[test]
fn the_last_of_two_headers_counts() {
    let headers = vec![
        ("a".to_string(), Some("1".to_string())),
        ("b".to_string(), None),
        ("a".to_string(), Some("2".to_string())),
    ];
    let map = headers_to_map(&headers);
    assert_eq!(map.get("a"), Some(&"2".to_string()));
    assert_eq!(map.get("b"), None);
}

#[test]
fn an_accepted_stimulus_says_where_to_look() {
    assert_eq!(
        workflow_execution_logs_location("w-1"),
        "/v1/workflows/executions/w-1/logs"
    );
    let (reply, location) = ingest_reply(Some(IngestOutcome::Accepted {
        stimulus_id: "s-1".to_string(),
        workflow_execution_id: "w-1".to_string(),
    }));
    assert_eq!(reply.status, 202);
    assert_eq!(location, Some(workflow_execution_logs_location("w-1")));
    let at = |id: &str| {
        ingest_reply(Some(IngestOutcome::Accepted {
            stimulus_id: "s-1".to_string(),
            workflow_execution_id: id.to_string(),
        }))
        .1
    };
    assert_eq!(at("a\tb"), Some(workflow_execution_logs_location("a\tb")));
    assert_eq!(at("\u{e9}"), Some(workflow_execution_logs_location("\u{e9}")));
    assert_eq!(at("a\nb"), None);
    assert_eq!(at("a\u{7f}b"), None);
    let (reply, location) = ingest_reply(Some(IngestOutcome::Refused {
        http_status: 409,
        code: "duplicate".to_string(),
        message: "seen".to_string(),
    }));
    assert_eq!(reply, stimulus_error_response(409, "duplicate", "seen"));
    assert_eq!(location, None);
    let (reply, _) = ingest_reply(None);
    assert_eq!(reply.status, 503);
}

fn answered(action: WebhookAction) -> (u16, Option<String>) {
    match action {
        WebhookAction::Answer { reply, location } => (reply.status, location),
        _ => panic!("an answer"),
    }
}

#[test]
fn a_report_is_taken_once_its_signature_holds() {
    let body = br#"{"type": "invoice.paid", "data": {"object": {"id": "in_1"}}}"#.to_vec();
    let mut mac = Hmac::<Sha256>::new_from_slice(b"secret").unwrap();
    mac.update(b"1000.");
    mac.update(&body);
    let header = format!("t=1000,v1={}", hex::encode(mac.finalize().into_bytes()));
    let request = |signature: Option<String>| {
        WebhookRequest::start(
            "/v1/webhooks/stripe",
            vec![],
            signature,
            Some("secret".to_string()),
            false,
        )
    };
    let signed = request(Some(header));
    assert!(matches!(
        signed.step(WebhookEvent::Begun),
        WebhookAction::ReadBody { at_most: 1_048_576 }
    ));
    let read = |now_unix| signed.step(WebhookEvent::BodyRead { body: Some(body.clone()), now_unix });
    assert!(matches!(
        read(1300),
        WebhookAction::Report { event_type, object, reply }
            if event_type == "invoice.paid" && object.get_str("id") == Some("in_1")
                && reply == stripe_received_reply()
    ));
    assert_eq!(answered(read(1301)), (401, None));
    assert_eq!(
        answered(signed.step(WebhookEvent::BodyRead { body: None, now_unix: 1000 })).0,
        400
    );
    assert_eq!(answered(request(None).step(WebhookEvent::Begun)).0, 401);
    assert!(matches!(
        signed.step(WebhookEvent::Checked(Ok(body.clone()))),
        WebhookAction::ReadBody { at_most: 1_048_576 }
    ));
}

#[test]
fn a_signed_body_that_is_no_json_is_only_answered() {
    let body = b"{\"type\": \xff".to_vec();
    let mut mac = Hmac::<Sha256>::new_from_slice(b"secret").unwrap();
    mac.update(b"1000.");
    mac.update(&body);
    let header = format!("t=1000,v1={}", hex::encode(mac.finalize().into_bytes()));
    let signed = WebhookRequest::start(
        "/v1/webhooks/stripe",
        vec![],
        Some(header),
        Some("secret".to_string()),
        false,
    );
    let read = signed.step(WebhookEvent::BodyRead { body: Some(body), now_unix: 1000 });
    assert_eq!(answered(read), (200, None));
    assert_eq!(answered(take_report(None)), (200, None));
    assert!(matches!(
        take_report(Some(json(r#"{"type": "t", "data": {"object": 7}}"#))),
        WebhookAction::Report { event_type, .. } if event_type == "t"
    ));
}

#[test]
fn bodies_are_read_as_json() {
    assert!(read_body(&b"{".to_vec()).is_none());
    let read = read_body(&b"{\"a\": \"x\xffy\"}".to_vec()).unwrap();
    assert_eq!(read.get_str("a"), Some("x\u{fffd}y"));
    assert!(read_text("nothing").is_none());
    assert_eq!(read_text(r#"{"a": "b"}"#).unwrap().get_str("a"), Some("b"));
}

#[test]
fn other_webhooks_become_stimuli() {
    let headers = || {
        vec![
            ("x-id".to_string(), Some("1".to_string())),
            ("x-raw".to_string(), None),
            ("x-id".to_string(), Some("2".to_string())),
        ]
    };
    let request =
        |service| WebhookRequest::start("/v1/webhooks/github", headers(), None, None, service);
    assert_eq!(request(true).source, "github");
    assert!(matches!(request(true).step(WebhookEvent::Begun), WebhookAction::CheckSignature));
    assert!(matches!(
        request(true).step(WebhookEvent::Checked(Ok(b"hi".to_vec()))),
        WebhookAction::Ingest(stimulus)
            if stimulus.webhook.as_deref() == Some("github") && stimulus.content == "hi"
                && stimulus.headers.len() == 1
                && stimulus.headers.get("x-id") == Some(&"2".to_string())
    ));
    let sent = ingest_stimulus("c".to_string(), Some("k".to_string()), &headers(), true);
    let stimulus = sent.ok().unwrap();
    assert_eq!(stimulus.webhook, None);
    assert_eq!((stimulus.content.as_str(), stimulus.idempotency_key.as_deref()), ("c", Some("k")));
    assert_eq!(stimulus.headers.len(), 1);
    let refused = ingest_stimulus("c".to_string(), None, &headers(), false);
    assert_eq!(refused.err().unwrap().status, 503);
    assert_eq!(answered(request(false).step(WebhookEvent::Checked(Ok(vec![])))).0, 503);
    let refused = WebhookEvent::Checked(Err(Reply::error(403, "no")));
    assert_eq!(answered(request(true).step(refused)).0, 403);
    let accepted = WebhookEvent::Ingested(IngestOutcome::Accepted {
        stimulus_id: "s".to_string(),
        workflow_execution_id: "w".to_string(),
    });
    assert_eq!(
        answered(request(true).step(accepted)),
        (202, Some("/v1/workflows/executions/w/logs".to_string()))
    );
}
