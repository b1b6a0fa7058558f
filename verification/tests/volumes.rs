use aegis_daemon::handlers::uploads::{PartsStage, UploadAction, UploadEvent, UploadRequest};
use aegis_daemon::handlers::volume_requests::{
    begin_volume, volume_reply, VolumeAnswer, VolumeAsk, VolumeCall, VolumeDone,
};
use aegis_daemon::handlers::volumes::{
    cap_as_usize, create_volume, create_volume_reply, decode_x_filename, decoded_or_raw,
    display_name, file_name, file_ops_error_response, get_quota_reply, get_volume_reply,
    is_multipart, list_volumes_reply, raw_body_name, resolve_max_file_size_bytes,
    resolve_or_provision_upload_volume, sniff_upload_mime, stored_file_reply, success_reply,
    take_part, upload_cap, upload_file_reply, upload_mime, upload_target_of,
    user_volume_error_response, validate_dest_path, validate_supplied_filename,
    FileOperationsError, QuotaUsage, Upload, UploadTarget, UserVolumeError, VolumeRow,
    CHAT_ATTACHMENTS_DEFAULT_SIZE_BYTES,
};
use aegis_daemon::http::Reply;
use aegis_daemon::identity::{IdentityKind, TenantId, UserIdentity, ZaruTier};
use aegis_daemon::json::Json;

fn value_of(json: &Json) -> serde_json::Value {
    match json {
        Json::Null => serde_json::Value::Null,
        Json::Bool(b) => serde_json::Value::from(*b),
        Json::Int(n) => match (i64::try_from(*n), u64::try_from(*n)) {
            (Ok(i), _) => serde_json::Value::from(i),
            (_, Ok(u)) => serde_json::Value::from(u),
            _ => panic!("the number does not fit"),
        },
        Json::Real(text) => serde_json::from_str(text).expect("a number"),
        Json::Str(s) => serde_json::Value::from(s.as_str()),
        Json::Arr(items) => serde_json::Value::from(items.iter().map(value_of).collect::<Vec<_>>()),
        Json::Obj(members) => {
            let mut out = serde_json::Map::new();
            for (key, value) in members {
                out.insert(key.clone(), value_of(value));
            }
            serde_json::Value::from(out)
        }
    }
}

/// Checks a reply's status and its body, whatever the order of the members.
fn check(reply: &Reply, status: u16, body: &str) {
    assert_eq!(reply.status, status);
    let expected: serde_json::Value = serde_json::from_str(body).expect("valid JSON");
    assert_eq!(value_of(reply.body.as_ref().expect("a body")), expected);
}
#[test]
fn validate_dest_path_rejects_traversal() {
    assert!(validate_dest_path("../etc/passwd").is_err());
    assert!(validate_dest_path("foo/../../bar").is_err());
    assert!(validate_dest_path("a/b/../c").is_err());
}

#[test]
fn validate_dest_path_rejects_absolute_paths() {
    assert!(validate_dest_path("/etc/passwd").is_err());
    assert!(validate_dest_path("/foo").is_err());
}

#[test]
fn validate_dest_path_rejects_control_characters() {
    assert!(validate_dest_path("foo\nbar").is_err());
    assert!(validate_dest_path("foo\0bar").is_err());
    assert!(validate_dest_path("foo\tbar").is_err());
}

#[test]
fn validate_dest_path_rejects_empty() {
    assert!(validate_dest_path("").is_err());
}

#[test]
fn validate_dest_path_accepts_safe_relative_paths() {
    assert!(validate_dest_path("foo.txt").is_ok());
    assert!(validate_dest_path("subdir/foo.txt").is_ok());
    assert!(validate_dest_path("a/b/c/d.png").is_ok());
    assert!(validate_dest_path("file.tar.gz").is_ok());
}
#[test]
fn sniff_upload_mime_uses_content_not_extension() {
    let png_magic = b"\x89PNG\r\n\x1a\n\x00\x00\x00\rIHDR";
    assert_eq!(sniff_upload_mime(png_magic), "image/png");
}

#[test]
fn sniff_upload_mime_falls_back_to_octet_stream_for_unknown_bytes() {
    let ascii = b"hello world";
    assert_eq!(sniff_upload_mime(ascii), "application/octet-stream");
}
#[test]
fn validate_supplied_filename_accepts_well_formed_names() {
    assert!(validate_supplied_filename("report.pdf"));
    assert!(validate_supplied_filename("Photo 2026-04-26.png"));
    assert!(validate_supplied_filename("résumé.docx"));
    assert!(validate_supplied_filename("file.tar.gz"));
}

#[test]
fn validate_supplied_filename_rejects_path_separators() {
    assert!(!validate_supplied_filename("foo/bar.txt"));
    assert!(!validate_supplied_filename("foo\\bar.txt"));
    assert!(!validate_supplied_filename("/etc/passwd"));
}

#[test]
fn validate_supplied_filename_rejects_traversal_and_dots() {
    assert!(!validate_supplied_filename(".."));
    assert!(!validate_supplied_filename("."));
}

#[test]
fn a_supplied_file_name_holds_no_two_dots_in_a_row() {
    assert!(!validate_supplied_filename("a..b.txt"));
    assert!(!validate_supplied_filename("..hidden"));
    assert!(!validate_supplied_filename("a..."));
    assert!(validate_supplied_filename("a.b.c"));
    assert!(validate_supplied_filename(".hidden"));
}

#[test]
fn validate_supplied_filename_rejects_control_chars_and_nul() {
    assert!(!validate_supplied_filename("foo\nbar"));
    assert!(!validate_supplied_filename("foo\tbar"));
    assert!(!validate_supplied_filename("foo\0bar"));
    assert!(!validate_supplied_filename("foo\x07bar"));
}

#[test]
fn validate_supplied_filename_rejects_empty_and_overlong() {
    assert!(!validate_supplied_filename(""));
    assert!(!validate_supplied_filename(&"a".repeat(256)));
    assert!(validate_supplied_filename(&"a".repeat(255)));
}
#[test]
fn decode_x_filename_percent_decodes_utf8() {
    assert_eq!(decode_x_filename("r%C3%A9sum%C3%A9.pdf"), "résumé.pdf");
    assert_eq!(decode_x_filename("hello%20world.txt"), "hello world.txt");
}

#[test]
fn decode_x_filename_passes_through_plain_ascii() {
    assert_eq!(decode_x_filename("report.pdf"), "report.pdf");
}

#[test]
fn decode_x_filename_falls_back_on_invalid_encoding() {
    let out = decode_x_filename("bogus%ZZ.txt");
    assert!(!out.is_empty());
}
#[test]
fn resolve_max_file_size_bytes_free_tier_is_50_mib() {
    let cap = resolve_max_file_size_bytes(&ZaruTier::Free).expect("free tier configured");
    assert_eq!(cap, 50 * 1024 * 1024);
}

#[test]
fn resolve_max_file_size_bytes_pro_tier_is_500_mib() {
    let cap = resolve_max_file_size_bytes(&ZaruTier::Pro).expect("pro tier configured");
    assert_eq!(cap, 500 * 1024 * 1024);
}

#[test]
fn resolve_max_file_size_bytes_business_tier_is_2_gib() {
    let cap =
        resolve_max_file_size_bytes(&ZaruTier::Business).expect("business tier configured");
    assert_eq!(cap, 2 * 1024 * 1024 * 1024);
}

#[test]
fn resolve_max_file_size_bytes_enterprise_tier_is_unbounded() {
    let cap =
        resolve_max_file_size_bytes(&ZaruTier::Enterprise).expect("enterprise configured");
    assert_eq!(cap, u64::MAX);
}
#[test]
fn cap_as_usize_saturates_on_overflow() {
    assert_eq!(cap_as_usize(u64::MAX), usize::MAX);
    assert_eq!(cap_as_usize(0), 0);
    assert_eq!(cap_as_usize(50 * 1024 * 1024), 50 * 1024 * 1024);
}
#[test]
fn tier_cap_rejects_oversize_for_free_accepts_for_pro() {
    let payload_size: u64 = 11 * 1024 * 1024;
    let free_cap = resolve_max_file_size_bytes(&ZaruTier::Free).unwrap();
    let pro_cap = resolve_max_file_size_bytes(&ZaruTier::Pro).unwrap();
    assert!(payload_size <= free_cap, "11 MiB <= 50 MiB Free cap");
    assert!(payload_size <= pro_cap, "11 MiB <= 500 MiB Pro cap");
    let oversize: u64 = 60 * 1024 * 1024;
    assert!(oversize > free_cap, "60 MiB > 50 MiB Free cap (rejected)");
    assert!(oversize <= pro_cap, "60 MiB <= 500 MiB Pro cap (accepted)");
}

fn row(id: u128, name: &str) -> VolumeRow {
    VolumeRow {
        id,
        name: name.to_string(),
        status: "available".to_string(),
        size_limit_bytes: 10,
        created_at: Json::Null,
    }
}

#[test]
fn errors_have_their_status() {
    let status = |e| user_volume_error_response(e, "m").status;
    assert_eq!(status(UserVolumeError::NotFound), 404);
    assert_eq!(status(UserVolumeError::Unauthorized), 403);
    assert_eq!(status(UserVolumeError::VolumeCountQuotaExceeded), 422);
    assert_eq!(status(UserVolumeError::StorageQuotaExceeded), 422);
    assert_eq!(status(UserVolumeError::DuplicateName), 409);
    assert_eq!(status(UserVolumeError::VolumeAttached), 409);
    assert_eq!(status(UserVolumeError::Other), 500);
    let status = |e| file_ops_error_response(e, "m").status;
    assert_eq!(status(FileOperationsError::NotFound), 404);
    assert_eq!(status(FileOperationsError::Unauthorized), 403);
    assert_eq!(status(FileOperationsError::FileTooLarge), 422);
    assert_eq!(status(FileOperationsError::InvalidPath), 422);
    assert_eq!(status(FileOperationsError::Other), 500);
    check(
        &user_volume_error_response(UserVolumeError::NotFound, "gone"),
        404,
        r#"{"error": "gone"}"#,
    );
}

#[test]
fn a_volume_belongs_to_its_caller() {
    let caller = UserIdentity {
        sub: "user-1".to_string(),
        realm_slug: "zaru-consumer".to_string(),
        email: None,
        name: None,
        identity_kind: IdentityKind::ConsumerUser {
            zaru_tier: ZaruTier::Pro,
            tenant_id: TenantId::new("u-user1"),
        },
    };
    let command = create_volume(Some(&caller), &TenantId::new("d"), "data".to_string(), 5);
    assert_eq!(command.tenant_id.as_str(), "u-user1");
    assert_eq!(command.owner_user_id, "user-1");
    assert_eq!(command.label, "data");
    assert_eq!(command.size_limit_bytes, 5);
    assert_eq!(command.zaru_tier, ZaruTier::Pro);
    let anonymous = create_volume(None, &TenantId::new("d"), "data".to_string(), 5);
    assert_eq!(anonymous.owner_user_id, "anonymous");
    assert_eq!(anonymous.tenant_id.as_str(), "d");
}

#[test]
fn volumes_are_shown() {
    let shown = r#"{"id": "00000000-0000-0000-0000-000000000001", "name": "data", "status": "available",
        "size_limit_bytes": 10, "created_at": null}"#;
    check(&create_volume_reply(&row(1, "data")), 201, shown);
    check(&get_volume_reply(&vec![row(2, "x"), row(1, "data")], 1), 200, shown);
    assert_eq!(get_volume_reply(&vec![row(2, "x")], 1).status, 404);
    assert_eq!(list_volumes_reply(&vec![(row(1, "data"), 3)]).status, 200);
    assert_eq!(success_reply().status, 200);
    let quota = QuotaUsage {
        volume_count: 1,
        total_bytes_used: 2,
        max_volumes: 3,
        total_storage_bytes: 4,
        max_file_size_bytes: 5,
    };
    assert_eq!(get_quota_reply(&quota).status, 200);
}

#[test]
fn an_unknown_type_is_a_stream_of_bytes() {
    assert_eq!(upload_mime(None), "application/octet-stream");
    assert_eq!(upload_mime(Some("image/png".to_string())), "image/png");
}

#[test]
fn uploads_go_to_a_volume_or_to_the_chat() {
    assert_eq!(
        upload_target_of("chat-attachments", None).unwrap(),
        UploadTarget::ChatAttachments
    );
    assert_eq!(upload_target_of("x", Some(7)).unwrap(), UploadTarget::Volume(7));
    assert_eq!(upload_target_of("nonsense", None).unwrap_err().status, 400);
}

#[test]
fn the_chat_volume_is_made_once() {
    let have = resolve_or_provision_upload_volume(
        &vec![row(1, "x"), row(9, "chat-attachments")],
        TenantId::new("t"),
        "o",
        ZaruTier::Free,
    );
    assert!(matches!(have, Ok(9)));
    match resolve_or_provision_upload_volume(&vec![row(1, "x")], TenantId::new("t"), "o", ZaruTier::Pro)
    {
        Err(command) => {
            assert_eq!(command.label, "chat-attachments");
            assert_eq!(command.owner_user_id, "o");
            assert_eq!(command.tenant_id.as_str(), "t");
            assert_eq!(command.size_limit_bytes, CHAT_ATTACHMENTS_DEFAULT_SIZE_BYTES);
            assert_eq!(command.zaru_tier, ZaruTier::Pro);
        }
        Ok(_) => panic!("there is no such volume yet"),
    }
}

#[test]
fn names_that_do_not_decode_are_taken_as_they_are() {
    assert_eq!(decoded_or_raw(None, "a%FF"), "a%FF");
    assert_eq!(decode_x_filename("a%FF"), "a%FF");
    assert_eq!(raw_body_name(Some("a%20b.txt")), Some("a b.txt".to_string()));
    assert_eq!(raw_body_name(Some("..%2Fb.txt")), None);
    assert_eq!(raw_body_name(None), None);
}

#[test]
fn names_without_escapes_pass_through() {
    assert_eq!(decode_x_filename("100%"), "100%");
    assert_eq!(decode_x_filename("50% off.txt"), "50% off.txt");
    assert_eq!(decode_x_filename("%4"), "%4");
    assert_eq!(decode_x_filename("bogus%ZZ.txt"), "bogus%ZZ.txt");
    assert_eq!(decode_x_filename("%41%zz%42"), "A%zzB");
}

#[test]
fn only_multipart_forms_are_taken_apart() {
    assert!(is_multipart(Some("multipart/form-data; boundary=x")));
    assert!(!is_multipart(Some("application/pdf")));
    assert!(!is_multipart(None));
}

fn part(data: &[u8], name: &str) -> Upload {
    Upload { data: data.to_vec(), name: Some(name.to_string()) }
}

#[test]
fn the_first_nonempty_part_is_the_file() {
    let found = take_part(None, part(b"", "empty"), 10).unwrap();
    assert!(found.is_none());
    let found = take_part(found, part(b"abc", "first"), 10).unwrap();
    let found = take_part(found, part(b"xyz", "second"), 10).unwrap();
    let file = found.unwrap();
    assert_eq!(file.data, b"abc".to_vec());
    assert_eq!(file.name, Some("first".to_string()));
    assert_eq!(take_part(None, part(b"abc", "big"), 2).err().unwrap().status, 413);
    assert_eq!(upload_cap(Some(5)).unwrap(), 5);
    assert!(upload_cap(None).is_err());
}

#[test]
fn the_shown_name_is_supplied_or_the_last_of_the_path() {
    assert_eq!(file_name("a/b/c.txt"), Some("c.txt".to_string()));
    assert_eq!(display_name(Some("n.txt".to_string()), "a/c.txt"), "n.txt");
    assert_eq!(display_name(None, "a/c.txt"), "c.txt");
}

#[test]
fn a_stored_file_is_shown_with_its_digest() {
    let reply = upload_file_reply(
        "vol-1",
        "docs/a.txt",
        Upload { data: b"abc".to_vec(), name: None },
    );
    let same = stored_file_reply(
        "vol-1",
        "docs/a.txt",
        None,
        "application/octet-stream",
        3,
        &hex::decode("ba7816bf8f01cfea414140de5dae2223b00361a396177a9cb410ff61f20015ad").unwrap(),
    );
    assert_eq!(reply, same);
    check(
        &reply,
        200,
        r#"{"volume_id": "vol-1", "path": "docs/a.txt", "name": "a.txt",
            "mime_type": "application/octet-stream", "size": 3,
            "sha256": "ba7816bf8f01cfea414140de5dae2223b00361a396177a9cb410ff61f20015ad"}"#,
    );
}

fn upload(target: &str, path: &str, content_type: &str) -> UploadRequest {
    UploadRequest::start(
        target.to_string(),
        path.to_string(),
        None,
        &TenantId::new("local"),
        Some(content_type.to_string()),
        Some("re%20port.txt".to_string()),
    )
}

#[test]
fn a_raw_upload_is_stored_under_the_name_in_its_header() {
    let id = uuid::Uuid::from_u128(8);
    let mut request = upload(&id.to_string(), "docs/a.txt", "text/plain");
    assert_eq!(request.owner, "anonymous");
    assert!(matches!(
        request.step(UploadEvent::Begun),
        UploadAction::ReadRaw { .. }
    ));
    match request.step(UploadEvent::RawRead(Ok(b"abc".to_vec()))) {
        UploadAction::Store { volume: 8, owner, path, .. } => {
            assert_eq!((owner, path), (request.owner.clone(), request.path.clone()));
        }
        _ => panic!("the file is stored"),
    }
    let stored = UploadEvent::Stored(Ok(()));
    match request.step(stored) {
        UploadAction::Answer(reply) => {
            let body = reply.body.unwrap();
            assert_eq!(body.get_str("name"), Some("re port.txt"));
            assert_eq!(body.get_str("volume_id"), Some(id.to_string().as_str()));
            assert_eq!(
                body.get_str("sha256"),
                Some("ba7816bf8f01cfea414140de5dae2223b00361a396177a9cb410ff61f20015ad")
            );
        }
        _ => panic!("an answer"),
    }
    assert!(request.upload.is_none());
}

#[test]
fn the_type_that_a_request_announces_is_not_trusted() {
    let png = b"\x89PNG\r\n\x1a\n\0\0\0\rIHDR".to_vec();
    for announced in ["text/html", "image/png", "application/json"] {
        let mut request = upload(&uuid::Uuid::from_u128(8).to_string(), "a", announced);
        request.step(UploadEvent::Begun);
        request.step(UploadEvent::RawRead(Ok(png.clone())));
        let stored = UploadEvent::Stored(Ok(()));
        match request.step(stored) {
            UploadAction::Answer(reply) => {
                assert_eq!(reply.body.unwrap().get_str("mime_type"), Some("image/png"));
            }
            _ => panic!("an answer"),
        }
    }
}

#[test]
fn a_multipart_upload_goes_to_the_chat_volume() {
    let mut request = upload("chat-attachments", "a.txt", "Multipart/form-data; boundary=x");
    let (tenant, user) = (request.tenant_id.clone(), request.owner.clone());
    assert!(matches!(
        request.step(UploadEvent::Begun),
        UploadAction::ListVolumes { tenant_id, owner } if tenant_id == tenant && owner == user
    ));
    assert!(matches!(
        request.step(UploadEvent::Listed(Ok(vec![]))),
        UploadAction::CreateVolume(order) if order.label == "chat-attachments"
    ));
    assert!(matches!(request.step(UploadEvent::Created(Ok(3))), UploadAction::ReadParts));
    assert!(matches!(
        request.step(UploadEvent::Part(part(b"", "empty"))),
        UploadAction::NextPart
    ));
    let status = |action| match action {
        UploadAction::Answer(reply) => reply.status,
        _ => panic!("an answer"),
    };
    assert_eq!(status(request.step(UploadEvent::PartsEnded)), 422);
    request.step(UploadEvent::Part(part(b"abc", "first")));
    request.step(UploadEvent::Part(part(b"xyz", "second")));
    assert!(matches!(
        request.step(UploadEvent::PartsEnded),
        UploadAction::Store { volume: 3, .. }
    ));
    assert_eq!(request.upload.as_ref().unwrap().data, b"abc".to_vec());
    let flaw =
        UploadEvent::PartsFailed { stage: PartsStage::Parse, message: "eof".to_string() };
    match request.step(flaw) {
        UploadAction::Answer(reply) => {
            check(&reply, 400, r#"{"error": "multipart parse error: eof"}"#)
        }
        _ => panic!("an answer"),
    }
    let failed = UploadEvent::Stored(Err((FileOperationsError::NotFound, "gone".to_string())));
    assert_eq!(status(request.step(failed)), 404);
    let mut known = upload("chat-attachments", "a.txt", "text/plain");
    known.step(UploadEvent::Begun);
    assert!(matches!(
        known.step(UploadEvent::Listed(Ok(vec![row(5, "other"), row(6, "chat-attachments")]))),
        UploadAction::ReadRaw { .. }
    ));
    assert_eq!(known.volume, Some(6));
}

#[test]
fn uploads_are_refused_for_their_path_before_their_volume() {
    let status = |action| match action {
        UploadAction::Answer(reply) => reply.status,
        _ => panic!("an answer"),
    };
    assert_eq!(status(upload("nowhere", "../a", "text/plain").step(UploadEvent::Begun)), 422);
    assert_eq!(status(upload("nowhere", "a", "text/plain").step(UploadEvent::Begun)), 400);
    let mut request = upload("chat-attachments", "a", "text/plain");
    assert_eq!(status(request.step(UploadEvent::RawRead(Err("big".to_string())))), 413);
    request.tier = ZaruTier::Free;
    let big = Upload { data: vec![0; 52_428_801], name: None };
    assert_eq!(status(request.step(UploadEvent::Part(big))), 413);
}

#[test]
fn volume_requests_are_made_in_the_callers_name() {
    let caller = UserIdentity {
        sub: "user-1".to_string(),
        realm_slug: "zaru-consumer".to_string(),
        email: None,
        name: None,
        identity_kind: IdentityKind::ConsumerUser {
            zaru_tier: ZaruTier::Pro,
            tenant_id: TenantId::new("u-1"),
        },
    };
    let begin = |ask| begin_volume(ask, Some(&caller), &TenantId::new("d"));
    let path = || "p".to_string();
    assert!(matches!(
        begin(VolumeAsk::Create { label: "l".to_string(), size_limit_bytes: 5 }),
        VolumeCall::Create(order) if order.owner_user_id == "user-1" && order.size_limit_bytes == 5
    ));
    assert!(matches!(
        begin(VolumeAsk::List),
        VolumeCall::ListWithUsage { owner }
            if owner.sub == "user-1" && owner.tenant_id.as_str() == "u-1"
    ));
    assert!(matches!(begin(VolumeAsk::Quota), VolumeCall::Quota { tier: ZaruTier::Pro, .. }));
    assert!(matches!(begin(VolumeAsk::Get { id: 3 }), VolumeCall::Find { id: 3, .. }));
    assert!(matches!(
        begin(VolumeAsk::Rename { id: 3, label: "n".to_string() }),
        VolumeCall::Rename { id: 3, user, label } if user == "user-1" && label == "n"
    ));
    assert!(matches!(
        begin(VolumeAsk::Delete { id: 3 }),
        VolumeCall::Delete { id: 3, user } if user == "user-1"
    ));
    assert!(matches!(
        begin(VolumeAsk::ListFiles { id: 3, path: path() }),
        VolumeCall::ListFiles { path, .. } if path == "p"
    ));
    assert!(matches!(
        begin(VolumeAsk::Download { id: 3, path: path() }),
        VolumeCall::Download { path, .. } if path == "p"
    ));
    assert!(matches!(
        begin(VolumeAsk::DeletePath { id: 3, path: path() }),
        VolumeCall::DeletePath { path, .. } if path == "p"
    ));
    assert!(matches!(
        begin(VolumeAsk::MakeDirectory { id: 3, path: path() }),
        VolumeCall::MakeDirectory { path, .. } if path == "p"
    ));
    assert!(matches!(
        begin(VolumeAsk::MovePath { id: 3, from: path(), to: "q".to_string() }),
        VolumeCall::MovePath { from, to, .. } if from == "p" && to == "q"
    ));
}

#[test]
fn volume_requests_are_answered() {
    let reply = |done| match volume_reply(done) {
        VolumeAnswer::Json(reply) => reply,
        VolumeAnswer::File { .. } => panic!("an answer in JSON"),
    };
    assert_eq!(reply(VolumeDone::Created(row(1, "data"))).status, 201);
    let listed = VolumeDone::Listed(vec![(row(1, "data"), 3)]);
    assert_eq!(reply(listed).body.unwrap().as_array().unwrap().len(), 1);
    let sought = |id| VolumeDone::Volumes { volumes: vec![row(2, "x"), row(1, "data")], id };
    assert_eq!(reply(sought(1)).status, 200);
    check(&reply(sought(9)), 404, r#"{"error": "volume not found"}"#);
    check(&reply(VolumeDone::Files(None)), 200, "[]");
    check(&reply(VolumeDone::Files(Some(Json::text("f")))), 200, r#""f""#);
    check(&reply(VolumeDone::Done), 200, r#"{"success": true}"#);
    let attached = VolumeDone::VolumeFailed {
        error: UserVolumeError::VolumeAttached,
        message: "m".to_string(),
    };
    check(&reply(attached), 409, r#"{"error": "m"}"#);
    let invalid = VolumeDone::FileFailed {
        file_error: FileOperationsError::InvalidPath,
        message: "m".to_string(),
    };
    assert_eq!(reply(invalid).status, 422);
    let file = VolumeDone::File { content_type: "text/plain".to_string(), data: vec![1] };
    assert!(matches!(
        volume_reply(file),
        VolumeAnswer::File { content_type, data } if content_type == "text/plain" && data == [1]
    ));
}
