//! Volumes of a user, and the files in them.

use crate::http::Reply;
use crate::identity::{TenantId, UserIdentity, ZaruTier};
use crate::json::{Json, JsonView};
use crate::{http, identity, primitives, text};
use vstd::prelude::*;

verus! {

/// The size of the volume that is created for what is attached to chats.
pub const CHAT_ATTACHMENTS_DEFAULT_SIZE_BYTES: u64 = 1_073_741_824;

/// Why an operation on a volume failed.
#[derive(Clone, Copy, PartialEq, Eq, Structural, Debug)]
pub enum UserVolumeError {
    NotFound,
    Unauthorized,
    VolumeCountQuotaExceeded,
    StorageQuotaExceeded,
    DuplicateName,
    VolumeAttached,
    Other,
}

/// The status that a failed operation on a volume is answered with.
pub open spec fn volume_error_status(e: UserVolumeError) -> u16 {
    match e {
        UserVolumeError::NotFound => 404,
        UserVolumeError::Unauthorized => 403,
        UserVolumeError::VolumeCountQuotaExceeded => 422,
        UserVolumeError::StorageQuotaExceeded => 422,
        UserVolumeError::DuplicateName => 409,
        UserVolumeError::VolumeAttached => 409,
        UserVolumeError::Other => 500,
    }
}

/// The answer to a failed operation on a volume.
pub fn user_volume_error_response(e: UserVolumeError, message: &str) -> (r: Reply)
    ensures
        r@ == http::error_reply(volume_error_status(e), message@),
{
    let status: u16 = match e {
        UserVolumeError::NotFound => 404,
        UserVolumeError::Unauthorized => 403,
        UserVolumeError::VolumeCountQuotaExceeded | UserVolumeError::StorageQuotaExceeded => 422,
        UserVolumeError::DuplicateName => 409,
        UserVolumeError::VolumeAttached => 409,
        UserVolumeError::Other => 500,
    };
    Reply::error(status, message)
}

/// Why an operation on a file failed.
#[derive(Clone, Copy, PartialEq, Eq, Structural, Debug)]
pub enum FileOperationsError {
    NotFound,
    Unauthorized,
    FileTooLarge,
    InvalidPath,
    Other,
}

/// The status that a failed operation on a file is answered with.
pub open spec fn file_error_status(e: FileOperationsError) -> u16 {
    match e {
        FileOperationsError::NotFound => 404,
        FileOperationsError::Unauthorized => 403,
        FileOperationsError::FileTooLarge => 422,
        FileOperationsError::InvalidPath => 422,
        FileOperationsError::Other => 500,
    }
}

/// The answer to a failed operation on a file.
pub fn file_ops_error_response(e: FileOperationsError, message: &str) -> (r: Reply)
    ensures
        r@ == http::error_reply(file_error_status(e), message@),
{
    let status: u16 = match e {
        FileOperationsError::NotFound => 404,
        FileOperationsError::Unauthorized => 403,
        FileOperationsError::FileTooLarge => 422,
        FileOperationsError::InvalidPath => 422,
        FileOperationsError::Other => 500,
    };
    Reply::error(status, message)
}

/// The order to create a volume.
pub struct CreateUserVolumeCommand {
    pub tenant_id: TenantId,
    pub owner_user_id: String,
    pub label: String,
    pub size_limit_bytes: u64,
    pub zaru_tier: ZaruTier,
}

/// The order that a request to create a volume leads to: the volume belongs to the
/// caller, in the caller's tenant and under the caller's tier.
pub fn create_volume(
    caller: Option<&UserIdentity>,
    default_tenant: &TenantId,
    label: String,
    size_limit_bytes: u64,
) -> (r: CreateUserVolumeCommand)
    ensures
        r.tenant_id@ == crate::handlers::tenant_of_identity(
            identity::opt_identity(caller),
            default_tenant@,
        ),
        r.owner_user_id@ == identity::sub_of(identity::opt_identity(caller)),
        r.label == label,
        r.size_limit_bytes == size_limit_bytes,
        r.zaru_tier == identity::tier_of(identity::opt_identity(caller)),
{
    CreateUserVolumeCommand {
        tenant_id: crate::handlers::tenant_id_from_identity(caller, default_tenant),
        owner_user_id: identity::user_sub(caller),
        label,
        size_limit_bytes,
        zaru_tier: identity::user_tier(caller),
    }
}

/// What is shown of a volume.
pub struct VolumeRow {
    pub id: u128,
    pub name: String,
    pub status: String,
    pub size_limit_bytes: u64,
    pub created_at: Json,
}

impl VolumeRow {
    /// The volume as it is shown.
    pub open spec fn shown(&self) -> JsonView {
        JsonView::object().with("id"@, JsonView::Str(primitives::uuid_chars(self.id))).with(
            "name"@,
            JsonView::Str(self.name@),
        ).with("status"@, JsonView::Str(self.status@)).with(
            "size_limit_bytes"@,
            JsonView::Int(self.size_limit_bytes as int),
        ).with("created_at"@, self.created_at@)
    }

    /// The volume as it is shown in a list, with the space that it takes.
    pub open spec fn shown_with_usage(&self, used_bytes: u64) -> JsonView {
        JsonView::object().with("id"@, JsonView::Str(primitives::uuid_chars(self.id))).with(
            "name"@,
            JsonView::Str(self.name@),
        ).with("status"@, JsonView::Str(self.status@)).with(
            "size_limit_bytes"@,
            JsonView::Int(self.size_limit_bytes as int),
        ).with("used_bytes"@, JsonView::Int(used_bytes as int)).with(
            "created_at"@,
            self.created_at@,
        )
    }

    /// The volume as it is shown.
    pub fn show(&self) -> (r: Json)
        ensures
            r@ == self.shown(),
    {
        Json::object().with("id", Json::Str(primitives::uuid_text(self.id))).with(
            "name",
            Json::text(self.name.as_str()),
        ).with("status", Json::text(self.status.as_str())).with(
            "size_limit_bytes",
            Json::Int(self.size_limit_bytes as i128),
        ).with("created_at", self.created_at.copy())
    }

    /// The volume as it is shown in a list.
    pub fn show_with_usage(&self, used_bytes: u64) -> (r: Json)
        ensures
            r@ == self.shown_with_usage(used_bytes),
    {
        Json::object().with("id", Json::Str(primitives::uuid_text(self.id))).with(
            "name",
            Json::text(self.name.as_str()),
        ).with("status", Json::text(self.status.as_str())).with(
            "size_limit_bytes",
            Json::Int(self.size_limit_bytes as i128),
        ).with("used_bytes", Json::Int(used_bytes as i128)).with(
            "created_at",
            self.created_at.copy(),
        )
    }
}

/// The answer to the creation of a volume.
pub fn create_volume_reply(volume: &VolumeRow) -> (r: Reply)
    ensures
        r@ == http::json_reply(201, volume.shown()),
{
    Reply::json(201, volume.show())
}

/// The answer that lists volumes with the space that each takes.
pub fn list_volumes_reply(volumes: &Vec<(VolumeRow, u64)>) -> (r: Reply)
    ensures
        r@ == http::json_reply(
            200,
            JsonView::Arr(volumes@.map_values(|v: (VolumeRow, u64)| v.0.shown_with_usage(v.1))),
        ),
{
    let mut items: Vec<Json> = Vec::new();
    let mut i: usize = 0;
    while i < volumes.len()
        invariant
            i <= volumes@.len(),
            items@.len() == i,
            forall|k: int|
                0 <= k < i ==> #[trigger] items@[k]@ == volumes@[k].0.shown_with_usage(
                    volumes@[k].1,
                ),
        decreases volumes@.len() - i,
    {
        items.push(volumes[i].0.show_with_usage(volumes[i].1));
        i += 1;
    }
    assert(crate::json::json_views(items@) =~= volumes@.map_values(
        |v: (VolumeRow, u64)| v.0.shown_with_usage(v.1),
    ));
    Reply::json(200, Json::array(items))
}

/// How much of what is allowed a user has taken.
pub struct QuotaUsage {
    pub volume_count: u64,
    pub total_bytes_used: u64,
    pub max_volumes: u64,
    pub total_storage_bytes: u64,
    pub max_file_size_bytes: u64,
}

impl QuotaUsage {
    /// The usage as it is shown.
    pub open spec fn shown(&self) -> JsonView {
        JsonView::object().with("volume_count"@, JsonView::Int(self.volume_count as int)).with(
            "total_bytes_used"@,
            JsonView::Int(self.total_bytes_used as int),
        ).with("max_volumes"@, JsonView::Int(self.max_volumes as int)).with(
            "total_storage_bytes"@,
            JsonView::Int(self.total_storage_bytes as int),
        ).with("max_file_size_bytes"@, JsonView::Int(self.max_file_size_bytes as int))
    }
}

/// The answer that shows how much of what is allowed a user has taken.
pub fn get_quota_reply(usage: &QuotaUsage) -> (r: Reply)
    ensures
        r@ == http::json_reply(200, usage.shown()),
{
    Reply::json(
        200,
        Json::object().with("volume_count", Json::Int(usage.volume_count as i128)).with(
            "total_bytes_used",
            Json::Int(usage.total_bytes_used as i128),
        ).with("max_volumes", Json::Int(usage.max_volumes as i128)).with(
            "total_storage_bytes",
            Json::Int(usage.total_storage_bytes as i128),
        ).with("max_file_size_bytes", Json::Int(usage.max_file_size_bytes as i128)),
    )
}

/// The first volume with the given identifier.
pub open spec fn first_with_id(volumes: Seq<VolumeRow>, id: u128) -> Option<VolumeRow>
    decreases volumes.len(),
{
    if volumes.len() == 0 {
        None
    } else if volumes[0].id == id {
        Some(volumes[0])
    } else {
        first_with_id(volumes.skip(1), id)
    }
}

/// The answer to a request for one volume, given all volumes of the caller.
pub fn get_volume_reply(volumes: &Vec<VolumeRow>, id: u128) -> (r: Reply)
    ensures
        r@ == (match first_with_id(volumes@, id) {
            Some(v) => http::json_reply(200, v.shown()),
            None => http::error_reply(404, "volume not found"@),
        }),
{
    let mut i: usize = 0;
    assert(volumes@.skip(0) =~= volumes@);
    while i < volumes.len()
        invariant
            i <= volumes@.len(),
            first_with_id(volumes@, id) == first_with_id(volumes@.skip(i as int), id),
        decreases volumes@.len() - i,
    {
        assert(volumes@.skip(i as int)[0] == volumes@[i as int]);
        assert(volumes@.skip(i as int).skip(1) =~= volumes@.skip(i + 1));
        if volumes[i].id == id {
            return Reply::json(200, volumes[i].show());
        }
        i += 1;
    }
    Reply::error(404, "volume not found")
}

/// The answer to an operation that succeeded and has nothing to show.
pub open spec fn success() -> http::ReplyView {
    http::json_reply(200, JsonView::object().with("success"@, JsonView::Bool(true)))
}

/// The answer to an operation that succeeded and has nothing to show.
pub fn success_reply() -> (r: Reply)
    ensures
        r@ == success(),
{
    Reply::json(200, Json::object().with("success", Json::Bool(true)))
}

/// Whether a character is one of Unicode's control codes.
pub open spec fn is_control(c: char) -> bool {
    c as u32 <= 0x1f || 0x7f <= c as u32 <= 0x9f
}

/// Whether some character is a control code.
pub open spec fn has_control(s: Seq<char>) -> bool {
    exists|i: int| 0 <= i < s.len() && is_control(#[trigger] s[i])
}

fn contains_control(s: &str) -> (r: bool)
    ensures
        r == has_control(s@),
{
    let v = text::chars_of(s);
    let mut i: usize = 0;
    while i < v.len()
        invariant
            i <= v@.len(),
            v@ == s@,
            forall|j: int| 0 <= j < i ==> !is_control(#[trigger] v@[j]),
        decreases v@.len() - i,
    {
        let code: u32 = v[i] as u32;
        if code <= 0x1f || (0x7f <= code && code <= 0x9f) {
            assert(is_control(s@[i as int]));
            return true;
        }
        i += 1;
    }
    false
}

/// Why a destination path is refused, if it is.
pub open spec fn path_refusal(path: Seq<char>) -> Option<Seq<char>> {
    if path.len() == 0 {
        Some("destination path is empty"@)
    } else if path[0] == '/' {
        Some("destination path must be relative (no leading '/')"@)
    } else if text::pieces(path, '/').contains(".."@) {
        Some("destination path may not contain '..'"@)
    } else if has_control(path) {
        Some("destination path contains control characters"@)
    } else {
        None
    }
}

fn any_piece_is(pieces: &Vec<String>, wanted: &str) -> (r: bool)
    ensures
        r == text::views(pieces@).contains(wanted@),
{
    let mut i: usize = 0;
    while i < pieces.len()
        invariant
            i <= pieces@.len(),
            forall|j: int| 0 <= j < i ==> text::views(pieces@)[j] != wanted@,
        decreases pieces@.len() - i,
    {
        assert(text::views(pieces@)[i as int] == pieces@[i as int]@);
        if text::str_eq(pieces[i].as_str(), wanted) {
            return true;
        }
        i += 1;
    }
    false
}

/// Refuses a destination path that is empty, absolute, goes up, or holds control
/// characters.
pub fn validate_dest_path(path: &str) -> (r: Result<(), Reply>)
    ensures
        match path_refusal(path@) {
            Some(message) => r matches Err(reply) && reply@ == http::error_reply(422, message),
            None => r is Ok,
        },
{
    proof {
        reveal_strlit("/");
        assert("/"@.is_prefix_of(path@) ==> path@[0] == "/"@[0]);
        if path@.len() > 0 && path@[0] == '/' {
            assert("/"@ =~= path@.take(1));
        }
        reveal_strlit("");
        if path@ == ""@ {
            assert(path@.len() == 0);
        }
        if path@.len() == 0 {
            assert(path@ =~= ""@);
        }
    }
    if text::str_eq(path, "") {
        return Err(Reply::error(422, "destination path is empty"));
    }
    if text::starts_with(path, "/") {
        return Err(Reply::error(422, "destination path must be relative (no leading '/')"));
    }
    let pieces = text::split(path, '/');
    if any_piece_is(&pieces, "..") {
        return Err(Reply::error(422, "destination path may not contain '..'"));
    }
    if contains_control(path) {
        return Err(Reply::error(422, "destination path contains control characters"));
    }
    Ok(())
}

/// The media type that is given to a file, by what its leading bytes point to.
pub open spec fn mime_or_default(detected: Option<Seq<char>>) -> Seq<char> {
    match detected {
        Some(mime) => mime,
        None => "application/octet-stream"@,
    }
}

/// The media type that is given to a file of which the type was or was not detected.
pub fn upload_mime(detected: Option<String>) -> (r: String)
    ensures
        r@ == mime_or_default(text::opt_view(detected)),
{
    match detected {
        Some(mime) => mime,
        None => "application/octet-stream".to_owned(),
    }
}

/// The media type of a file, by its contents alone.
pub fn sniff_upload_mime(data: &[u8]) -> (r: String)
    ensures
        r@ == mime_or_default(primitives::detected_mime(data@)),
{
    upload_mime(primitives::detect_mime(data))
}

/// Where an upload goes.
#[derive(Clone, Copy, PartialEq, Eq, Structural, Debug)]
pub enum UploadTarget {
    /// A volume that is named by its identifier.
    Volume(u128),
    /// The volume for what is attached to chats.
    ChatAttachments,
}

/// Where an upload goes, by what names the volume and the identifier that this
/// denotes, if it denotes one.
pub open spec fn target_of(id_or_name: Seq<char>, id: Option<u128>) -> Option<UploadTarget> {
    match id {
        Some(n) => Some(UploadTarget::Volume(n)),
        None => if id_or_name == "chat-attachments"@ {
            Some(UploadTarget::ChatAttachments)
        } else {
            None
        },
    }
}

/// Where an upload goes, given the identifier that the name denotes: to the volume with
/// that identifier, or to the one for what is attached to chats.
pub fn upload_target_of(id_or_name: &str, id: Option<u128>) -> (r: Result<UploadTarget, Reply>)
    ensures
        match target_of(id_or_name@, id) {
            Some(target) => r matches Ok(t) && t == target,
            None => r matches Err(reply) && reply@ == http::error_reply(
                400,
                "expected volume UUID or reserved name 'chat-attachments'"@,
            ),
        },
{
    if let Some(n) = id {
        return Ok(UploadTarget::Volume(n));
    }
    if !text::str_eq(id_or_name, "chat-attachments") {
        return Err(
            Reply::error(400, "expected volume UUID or reserved name 'chat-attachments'"),
        );
    }
    Ok(UploadTarget::ChatAttachments)
}

/// The first volume with the given name.
pub open spec fn first_named(volumes: Seq<VolumeRow>, name: Seq<char>) -> Option<VolumeRow>
    decreases volumes.len(),
{
    if volumes.len() == 0 {
        None
    } else if volumes[0].name@ == name {
        Some(volumes[0])
    } else {
        first_named(volumes.skip(1), name)
    }
}

/// The volume for what is attached to chats, among the volumes of its owner; where
/// there is none, the order to create it.
pub fn resolve_or_provision_upload_volume(
    existing: &Vec<VolumeRow>,
    tenant_id: TenantId,
    owner: &str,
    tier: ZaruTier,
) -> (r: Result<u128, CreateUserVolumeCommand>)
    ensures
        match first_named(existing@, "chat-attachments"@) {
            Some(v) => r matches Ok(id) && id == v.id,
            None => r matches Err(order) && order.tenant_id == tenant_id && order.owner_user_id@
                == owner@ && order.label@ == "chat-attachments"@ && order.size_limit_bytes
                == CHAT_ATTACHMENTS_DEFAULT_SIZE_BYTES && order.zaru_tier == tier,
        },
{
    let mut i: usize = 0;
    assert(existing@.skip(0) =~= existing@);
    while i < existing.len()
        invariant
            i <= existing@.len(),
            first_named(existing@, "chat-attachments"@) == first_named(
                existing@.skip(i as int),
                "chat-attachments"@,
            ),
        decreases existing@.len() - i,
    {
        assert(existing@.skip(i as int)[0] == existing@[i as int]);
        assert(existing@.skip(i as int).skip(1) =~= existing@.skip(i + 1));
        if text::str_eq(existing[i].name.as_str(), "chat-attachments") {
            return Ok(existing[i].id);
        }
        i += 1;
    }
    Err(
        CreateUserVolumeCommand {
            tenant_id,
            owner_user_id: owner.to_owned(),
            label: "chat-attachments".to_owned(),
            size_limit_bytes: CHAT_ATTACHMENTS_DEFAULT_SIZE_BYTES,
            zaru_tier: tier,
        },
    )
}

/// Whether a file name that comes with an upload may be shown: it takes between 1
/// and 255 bytes, is not `.`, and holds no `..`, no separator and no control character.
pub open spec fn valid_filename(name: Seq<char>) -> bool {
    &&& 1 <= vstd::utf8::encode_utf8(name).len() <= 255
    &&& name != "."@
    &&& !text::occurs(".."@, name)
    &&& !name.contains('/')
    &&& !name.contains('\\')
    &&& !has_control(name)
}

/// Whether a file name that comes with an upload may be shown.
pub fn validate_supplied_filename(name: &str) -> (r: bool)
    ensures
        r == valid_filename(name@),
{
    let length: usize = name.as_bytes().len();
    if length == 0 || length > 255 {
        return false;
    }
    if text::str_eq(name, ".") || text::contains(name, "..") {
        return false;
    }
    !(contains_control(name) || text::contains_char(name, '/') || text::contains_char(name, '\\'))
}

/// A decoded text, or the raw one where it cannot be decoded.
pub open spec fn decoded_or_raw_spec(decoded: Option<Seq<char>>, raw: Seq<char>) -> Seq<char> {
    match decoded {
        Some(d) => d,
        None => raw,
    }
}

/// A decoded text, or the raw one where it cannot be decoded.
pub fn decoded_or_raw(decoded: Option<String>, raw: &str) -> (r: String)
    ensures
        r@ == decoded_or_raw_spec(text::opt_view(decoded), raw@),
{
    match decoded {
        Some(d) => d,
        None => raw.to_owned(),
    }
}

/// The file name in an `X-Filename` header, whose percent-encoding is undone.
pub fn decode_x_filename(raw: &str) -> (r: String)
    ensures
        r@ == decoded_or_raw_spec(primitives::percent_decoded(raw@), raw@),
{
    decoded_or_raw(primitives::percent_decode(raw), raw)
}

/// The name that an upload with a raw body comes with: that of the header, where it
/// may be shown.
pub fn raw_body_name(x_filename: Option<&str>) -> (r: Option<String>)
    ensures
        text::opt_view(r) == (match x_filename {
            Some(raw) => {
                let name = decoded_or_raw_spec(primitives::percent_decoded(raw@), raw@);
                if valid_filename(name) {
                    Some(name)
                } else {
                    None
                }
            },
            None => None,
        }),
{
    match x_filename {
        Some(raw) => {
            let name = decode_x_filename(raw);
            if validate_supplied_filename(name.as_str()) {
                Some(name)
            } else {
                None
            }
        },
        None => None,
    }
}

/// The size that one file may have under a tier.
pub open spec fn max_file_size(tier: ZaruTier) -> u64 {
    match tier {
        ZaruTier::Free => 52_428_800,
        ZaruTier::Pro => 524_288_000,
        ZaruTier::Business => 2_147_483_648,
        ZaruTier::Enterprise => u64::MAX,
    }
}

/// The size that one file may have under a tier. Every tier has one.
pub fn resolve_max_file_size_bytes(tier: &ZaruTier) -> (r: Option<u64>)
    ensures
        r == Some(max_file_size(*tier)),
{
    Some(
        match tier {
            ZaruTier::Free => 52_428_800,
            ZaruTier::Pro => 524_288_000,
            ZaruTier::Business => 2_147_483_648,
            ZaruTier::Enterprise => u64::MAX,
        },
    )
}

/// The size in the machine's own word, or the largest word where it does not fit.
pub fn cap_as_usize(cap: u64) -> (r: usize)
    ensures
        r == (if cap <= usize::MAX {
            cap as int
        } else {
            usize::MAX as int
        }),
{
    if cap <= usize::MAX as u64 {
        cap as usize
    } else {
        usize::MAX
    }
}

/// The cap on an upload.
pub fn upload_cap(limit: Option<u64>) -> (r: Result<u64, Reply>)
    ensures
        match limit {
            Some(cap) => r == Ok::<u64, Reply>(cap),
            None => r matches Err(reply) && reply@ == http::error_reply(
                403,
                "no upload size limit configured for caller tier"@,
            ),
        },
{
    match limit {
        Some(cap) => Ok(cap),
        None => Err(Reply::error(403, "no upload size limit configured for caller tier")),
    }
}

/// Whether a content type announces a body of several parts.
pub open spec fn announces_parts(content_type: Option<Seq<char>>) -> bool {
    match content_type {
        Some(t) => "multipart/"@.is_prefix_of(text::lowered(text::trimmed_start(t))),
        None => false,
    }
}

/// Whether a content type announces a body of several parts.
pub fn is_multipart(content_type: Option<&str>) -> (r: bool)
    ensures
        r == announces_parts(text::opt_str_view(content_type)),
{
    match content_type {
        Some(t) => {
            let trimmed = text::trim_start(t);
            let lowered = text::ascii_lower(trimmed.as_str());
            text::starts_with(lowered.as_str(), "multipart/")
        },
        None => false,
    }
}

/// A file that was sent, with the name that it came with.
pub struct Upload {
    pub data: Vec<u8>,
    pub name: Option<String>,
}

/// The mathematical content of a file that was sent.
pub struct UploadView {
    pub data: Seq<u8>,
    pub name: Option<Seq<char>>,
}

impl View for Upload {
    type V = UploadView;

    open spec fn view(&self) -> UploadView {
        UploadView { data: self.data@, name: text::opt_view(self.name) }
    }
}

/// The view of a file that may have been sent.
pub open spec fn opt_upload(u: Option<Upload>) -> Option<UploadView> {
    match u {
        Some(f) => Some(f@),
        None => None,
    }
}

/// What is kept after one more part of a body: the first part that is not empty.
pub open spec fn kept(found: Option<UploadView>, part: UploadView) -> Option<UploadView> {
    if found is None && part.data.len() > 0 {
        Some(part)
    } else {
        found
    }
}

/// The answer to an upload that is larger than its cap.
pub open spec fn too_large(cap: u64) -> http::ReplyView {
    http::error_reply(
        413,
        "upload exceeds tier cap of "@ + text::decimal(cap as nat) + " bytes"@,
    )
}

/// Takes one more part of a body. A part over the cap fails the upload, even where
/// the file was found before it.
pub fn take_part(found: Option<Upload>, part: Upload, cap: u64) -> (r: Result<
    Option<Upload>,
    Reply,
>)
    ensures
        if part@.data.len() > cap {
            r matches Err(reply) && reply@ == too_large(cap)
        } else {
            r matches Ok(now) && opt_upload(now) == kept(opt_upload(found), part@)
        },
{
    let size: usize = part.data.len();
    if size as u64 > cap {
        let message = "upload exceeds tier cap of ".to_owned().concat(
            text::u64_text(cap).as_str(),
        ).concat(" bytes");
        return Err(Reply::error(413, message.as_str()));
    }
    if found.is_none() && size > 0 {
        Ok(Some(part))
    } else {
        Ok(found)
    }
}

/// The last piece of a path that names something: neither empty nor `.`.
pub open spec fn last_named(pieces: Seq<Seq<char>>) -> Option<Seq<char>>
    decreases pieces.len(),
{
    if pieces.len() == 0 {
        None
    } else if pieces.last().len() > 0 && pieces.last() != "."@ {
        Some(pieces.last())
    } else {
        last_named(pieces.drop_last())
    }
}

/// The file name that a path ends in. A path that ends in `..` has none.
pub open spec fn path_file_name(path: Seq<char>) -> Option<Seq<char>> {
    match last_named(text::pieces(path, '/')) {
        Some(name) => if name == ".."@ {
            None
        } else {
            Some(name)
        },
        None => None,
    }
}

/// The file name that a path ends in.
pub fn file_name(path: &str) -> (r: Option<String>)
    ensures
        text::opt_view(r) == path_file_name(path@),
{
    let pieces = text::split(path, '/');
    let ghost all = text::views(pieces@);
    let mut i: usize = pieces.len();
    assert(all.take(i as int) =~= all);
    while i > 0
        invariant
            i <= pieces@.len(),
            all == text::views(pieces@),
            all == text::pieces(path@, '/'),
            last_named(all) == last_named(all.take(i as int)),
        decreases i,
    {
        assert(all.take(i as int).last() == pieces@[i - 1]@);
        assert(all.take(i as int).drop_last() =~= all.take(i - 1));
        let piece = &pieces[i - 1];
        if !piece.as_str().is_empty() && !text::str_eq(piece.as_str(), ".") {
            if text::str_eq(piece.as_str(), "..") {
                return None;
            }
            return Some(piece.clone());
        }
        i -= 1;
    }
    None
}

/// The name under which an uploaded file is shown: the one that it came with, where
/// that may be shown; else the one that the path ends in; else the path.
pub open spec fn shown_name(supplied: Option<Seq<char>>, path: Seq<char>) -> Seq<char> {
    if supplied is Some && valid_filename(supplied->Some_0) {
        supplied->Some_0
    } else {
        match path_file_name(path) {
            Some(name) => name,
            None => path,
        }
    }
}

/// The name under which an uploaded file is shown.
pub fn display_name(supplied: Option<String>, path: &str) -> (r: String)
    ensures
        r@ == shown_name(text::opt_view(supplied), path@),
{
    if let Some(name) = supplied {
        if validate_supplied_filename(name.as_str()) {
            return name;
        }
    }
    match file_name(path) {
        Some(name) => name,
        None => path.to_owned(),
    }
}

/// What is shown of a stored file.
pub open spec fn stored_file(
    volume_id: Seq<char>,
    path: Seq<char>,
    name: Seq<char>,
    mime_type: Seq<char>,
    size: nat,
    digest: Seq<u8>,
) -> JsonView {
    JsonView::object().with("volume_id"@, JsonView::Str(volume_id)).with(
        "path"@,
        JsonView::Str(path),
    ).with("name"@, JsonView::Str(name)).with("mime_type"@, JsonView::Str(mime_type)).with(
        "size"@,
        JsonView::Int(size as int),
    ).with("sha256"@, JsonView::Str(primitives::hex_text(digest)))
}

/// The answer to an upload that was stored, given the type and the digest of the
/// file.
pub fn stored_file_reply(
    volume_id: &str,
    path: &str,
    supplied: Option<String>,
    mime_type: &str,
    size: usize,
    digest: &Vec<u8>,
) -> (r: Reply)
    requires
        2 * digest@.len() <= isize::MAX,
    ensures
        r@ == http::json_reply(
            200,
            stored_file(
                volume_id@,
                path@,
                shown_name(text::opt_view(supplied), path@),
                mime_type@,
                size as nat,
                digest@,
            ),
        ),
{
    let name = display_name(supplied, path);
    let sha256 = primitives::hex_encode(digest.as_slice());
    Reply::json(
        200,
        Json::object().with("volume_id", Json::text(volume_id)).with(
            "path",
            Json::text(path),
        ).with("name", Json::Str(name)).with("mime_type", Json::text(mime_type)).with(
            "size",
            Json::Int(size as i128),
        ).with("sha256", Json::Str(sha256)),
    )
}

/// The answer to an upload that was stored.
pub fn upload_file_reply(volume_id: &str, path: &str, upload: Upload) -> (r: Reply)
    ensures
        r@ == http::json_reply(
            200,
            stored_file(
                volume_id@,
                path@,
                shown_name(upload@.name, path@),
                mime_or_default(primitives::detected_mime(upload@.data)),
                upload@.data.len(),
                primitives::sha256_digest(upload@.data),
            ),
        ),
{
    let mime_type = sniff_upload_mime(upload.data.as_slice());
    let digest = primitives::sha256(upload.data.as_slice());
    stored_file_reply(
        volume_id,
        path,
        upload.name,
        mime_type.as_str(),
        upload.data.len(),
        &digest,
    )
}

/// What is kept after all parts of a body.
pub open spec fn kept_of_all(parts: Seq<UploadView>) -> Option<UploadView>
    decreases parts.len(),
{
    if parts.len() == 0 {
        None
    } else {
        kept(kept_of_all(parts.drop_last()), parts.last())
    }
}

/// Of a body of several parts the first one that is not empty is kept, and none only
/// where all are empty.
pub proof fn law_first_nonempty_part_is_kept(parts: Seq<UploadView>)
    ensures
        match kept_of_all(parts) {
            Some(file) => exists|i: int|
                0 <= i < parts.len() && #[trigger] parts[i] == file && file.data.len() > 0
                    && forall|j: int| 0 <= j < i ==> (#[trigger] parts[j]).data.len() == 0,
            None => forall|j: int| 0 <= j < parts.len() ==> (#[trigger] parts[j]).data.len() == 0,
        },
    decreases parts.len(),
{
    if parts.len() > 0 {
        let before = parts.drop_last();
        law_first_nonempty_part_is_kept(before);
        assert(forall|j: int| 0 <= j < before.len() ==> #[trigger] before[j] == parts[j]);
        assert(parts[parts.len() - 1] == parts.last());
        match kept_of_all(before) {
            Some(file) => {
                let i = choose|i: int|
                    0 <= i < before.len() && #[trigger] before[i] == file && file.data.len() > 0
                        && forall|j: int| 0 <= j < i ==> (#[trigger] before[j]).data.len() == 0;
                assert(parts[i] == file);
                assert forall|j: int| 0 <= j < i implies (#[trigger] parts[j]).data.len() == 0 by {
                    assert(before[j] == parts[j]);
                }
            },
            None => {
                assert forall|j: int| 0 <= j < before.len() implies (
                #[trigger] parts[j]).data.len() == 0 by {
                    assert(before[j] == parts[j]);
                }
            },
        }
    }
}

proof fn lemma_pieces_hold_no_others(s: Seq<char>, sep: char)
    ensures
        text::pieces(s, sep).len() > 0,
        forall|i: int, c: char|
            #![trigger text::pieces(s, sep)[i].contains(c)]
            0 <= i < text::pieces(s, sep).len() && text::pieces(s, sep)[i].contains(c)
                ==> s.contains(c),
    decreases s.len(),
{
    if s.len() > 0 {
        lemma_pieces_hold_no_others(s.drop_last(), sep);
        let before = text::pieces(s.drop_last(), sep);
        let all = text::pieces(s, sep);
        assert forall|i: int, c: char|
            #![trigger all[i].contains(c)]
            0 <= i < all.len() && all[i].contains(c) implies s.contains(c) by {
            let k = choose|k: int| 0 <= k < all[i].len() && all[i][k] == c;
            if s.last() == sep {
                if i < before.len() {
                    assert(before[i].contains(c));
                }
            } else if i < before.len() - 1 {
                assert(before[i].contains(c));
            } else if k < before.last().len() {
                assert(before[i] == before.last());
                assert(before[i][k] == c);
                assert(before[i].contains(c));
            } else {
                assert(s[s.len() - 1] == c);
            }
            if s.drop_last().contains(c) {
                let m = choose|m: int| 0 <= m < s.drop_last().len() && s.drop_last()[m] == c;
                assert(s[m] == c);
            }
        }
    }
}

proof fn lemma_last_named_is_a_piece(pieces: Seq<Seq<char>>)
    ensures
        last_named(pieces) matches Some(name) ==> pieces.contains(name),
    decreases pieces.len(),
{
    if pieces.len() > 0 {
        if pieces.last().len() > 0 && pieces.last() != "."@ {
            assert(pieces[pieces.len() - 1] == pieces.last());
        } else {
            lemma_last_named_is_a_piece(pieces.drop_last());
            if let Some(name) = last_named(pieces.drop_last()) {
                let i = choose|i: int|
                    0 <= i < pieces.drop_last().len() && pieces.drop_last()[i] == name;
                assert(pieces[i] == name);
            }
        }
    }
}

/// Whatever name comes with an upload to an accepted path, the name that is shown
/// holds no control character.
pub proof fn law_shown_names_are_printable(supplied: Option<Seq<char>>, path: Seq<char>)
    requires
        path_refusal(path) is None,
    ensures
        !has_control(shown_name(supplied, path)),
{
    let name = shown_name(supplied, path);
    if !(supplied is Some && valid_filename(supplied->Some_0)) {
        if path_file_name(path) is Some {
            let pieces = text::pieces(path, '/');
            lemma_pieces_hold_no_others(path, '/');
            lemma_last_named_is_a_piece(pieces);
            let i = choose|i: int| 0 <= i < pieces.len() && pieces[i] == name;
            if has_control(name) {
                let k = choose|k: int| 0 <= k < name.len() && is_control(#[trigger] name[k]);
                assert(pieces[i].contains(name[k]));
                assert(path.contains(name[k]));
                let m = choose|m: int| 0 <= m < path.len() && path[m] == name[k];
                assert(is_control(path[m]));
            }
        }
    }
}

proof fn lemma_scalar_has_no_percent(c: char)
    requires
        c != '%',
    ensures
        forall|i: int|
            0 <= i < vstd::utf8::encode_scalar(c as u32).len() ==> #[trigger]
            vstd::utf8::encode_scalar(c as u32)[i] != 37,
{
    let s = c as u32;
    assert(s != 37 && s <= 0x7f ==> (s & 0x7f) as u8 != 37) by (bit_vector);
    assert(0xc0 | ((s >> 6) & 0x1f) as u8 >= 0x80) by (bit_vector);
    assert(0xe0 | ((s >> 12) & 0x0f) as u8 >= 0x80) by (bit_vector);
    assert(0xf0 | ((s >> 18) & 0x7) as u8 >= 0x80) by (bit_vector);
    assert(0x80 | (s & 0x3f) as u8 >= 0x80) by (bit_vector);
    assert(0x80 | ((s >> 6) & 0x3f) as u8 >= 0x80) by (bit_vector);
    assert(0x80 | ((s >> 12) & 0x3f) as u8 >= 0x80) by (bit_vector);
}

proof fn lemma_text_has_no_percent(text: Seq<char>)
    requires
        !text.contains('%'),
    ensures
        !vstd::utf8::encode_utf8(text).contains(37),
    decreases text.len(),
{
    if text.len() > 0 {
        let rest = text.drop_first();
        let first = vstd::utf8::encode_scalar(text[0] as u32);
        assert(text.contains(text[0]));
        assert forall|c: char| rest.contains(c) implies text.contains(c) by {
            let i = choose|i: int| 0 <= i < rest.len() && rest[i] == c;
            assert(text[i + 1] == c);
        }
        lemma_scalar_has_no_percent(text[0]);
        lemma_text_has_no_percent(rest);
        let bytes = vstd::utf8::encode_utf8(text);
        assert(bytes == first + vstd::utf8::encode_utf8(rest));
        assert forall|i: int| 0 <= i < bytes.len() implies bytes[i] != 37 by {
            if i < first.len() {
                assert(bytes[i] == first[i]);
            } else {
                let tail = vstd::utf8::encode_utf8(rest);
                assert(bytes[i] == tail[i - first.len()]);
                assert(tail.contains(tail[i - first.len()]));
            }
        }
    }
}

proof fn lemma_plain_bytes(bytes: Seq<u8>)
    requires
        !bytes.contains(37),
    ensures
        primitives::percent_bytes(bytes) == bytes,
    decreases bytes.len(),
{
    if bytes.len() > 0 {
        assert(bytes.contains(bytes[0]));
        let rest = bytes.skip(1);
        assert forall|b: u8| rest.contains(b) implies bytes.contains(b) by {
            let i = choose|i: int| 0 <= i < rest.len() && rest[i] == b;
            assert(bytes[i + 1] == b);
        }
        lemma_plain_bytes(rest);
        assert(seq![bytes[0]] + rest =~= bytes);
    }
}

/// A name without a percent sign is taken as it is.
pub proof fn law_plain_names_pass_through(raw: Seq<char>)
    requires
        !raw.contains('%'),
    ensures
        decoded_or_raw_spec(primitives::percent_decoded(raw), raw) == raw,
{
    lemma_text_has_no_percent(raw);
    lemma_plain_bytes(vstd::utf8::encode_utf8(raw));
    vstd::utf8::encode_utf8_valid_utf8(raw);
    vstd::utf8::encode_utf8_decode_utf8(raw);
}

/// The volume as it is shown: each part is found under its own name, as it is.
pub proof fn law_volume_row_shown_holds_its_parts(
    row: VolumeRow,
)
    ensures
        row.shown().get("id"@) == Some(JsonView::Str(primitives::uuid_chars(row.id))),
        row.shown().get("name"@) == Some(JsonView::Str(row.name@)),
        row.shown().get("status"@) == Some(JsonView::Str(row.status@)),
        row.shown().get("size_limit_bytes"@) == Some(JsonView::Int(row.size_limit_bytes as int)),
        row.shown().get("created_at"@) == Some(row.created_at@),
{
    broadcast use crate::json::lemma_get_with;

    reveal_strlit("id");
    reveal_strlit("name");
    reveal_strlit("status");
    reveal_strlit("size_limit_bytes");
    reveal_strlit("created_at");
    assert("id"@.len() == 2 && "name"@.len() == 4 && "status"@.len() == 6 && "size_limit_bytes"@.len() == 16 && "created_at"@.len() == 10);
}

/// The volume as it is shown in a list, with the space that it takes: each part is
/// found under its own name, as it is.
pub proof fn law_volume_row_shown_with_usage_holds_its_parts(
    row: VolumeRow,
    used_bytes: u64,
)
    ensures
        row.shown_with_usage(used_bytes).get("id"@) == Some(JsonView::Str(primitives::uuid_chars(row.id))),
        row.shown_with_usage(used_bytes).get("name"@) == Some(JsonView::Str(row.name@)),
        row.shown_with_usage(used_bytes).get("status"@) == Some(JsonView::Str(row.status@)),
        row.shown_with_usage(used_bytes).get("size_limit_bytes"@) == Some(JsonView::Int(row.size_limit_bytes as int)),
        row.shown_with_usage(used_bytes).get("used_bytes"@) == Some(JsonView::Int(used_bytes as int)),
        row.shown_with_usage(used_bytes).get("created_at"@) == Some(row.created_at@),
{
    broadcast use crate::json::lemma_get_with;

    reveal_strlit("id");
    reveal_strlit("name");
    reveal_strlit("status");
    reveal_strlit("size_limit_bytes");
    reveal_strlit("used_bytes");
    reveal_strlit("created_at");
    assert("id"@.len() == 2 && "name"@.len() == 4 && "status"@.len() == 6 && "size_limit_bytes"@.len() == 16 && "used_bytes"@.len() == 10 && "created_at"@.len() == 10 && "created_at"@[0] == 'c' && "used_bytes"@[0] == 'u');
}

/// The usage as it is shown: each part is found under its own name, as it is.
pub proof fn law_quota_usage_shown_holds_its_parts(
    row: QuotaUsage,
)
    ensures
        row.shown().get("volume_count"@) == Some(JsonView::Int(row.volume_count as int)),
        row.shown().get("total_bytes_used"@) == Some(JsonView::Int(row.total_bytes_used as int)),
        row.shown().get("max_volumes"@) == Some(JsonView::Int(row.max_volumes as int)),
        row.shown().get("total_storage_bytes"@) == Some(JsonView::Int(row.total_storage_bytes as int)),
        row.shown().get("max_file_size_bytes"@) == Some(JsonView::Int(row.max_file_size_bytes as int)),
{
    broadcast use crate::json::lemma_get_with;

    reveal_strlit("volume_count");
    reveal_strlit("total_bytes_used");
    reveal_strlit("max_volumes");
    reveal_strlit("total_storage_bytes");
    reveal_strlit("max_file_size_bytes");
    assert("volume_count"@.len() == 12 && "total_bytes_used"@.len() == 16 && "max_volumes"@.len() == 11 && "total_storage_bytes"@.len() == 19 && "max_file_size_bytes"@.len() == 19 && "max_file_size_bytes"@[0] == 'm' && "total_storage_bytes"@[0] == 't');
}

/// The answer to an operation that succeeded and has nothing to show: each part is
/// found under its own name, as it is.
pub proof fn law_success_holds_its_parts()
    ensures
        success().status == 200,
        success().body is Some,
        success().body->Some_0.get("success"@) == Some(JsonView::Bool(true)),
{
    broadcast use crate::json::lemma_get_with;

    reveal_strlit("success");
    assert("success"@.len() == 7);
}

/// What is shown of a stored file: each part is found under its own name, as it is.
pub proof fn law_stored_file_holds_its_parts(
    volume_id: Seq<char>,
    path: Seq<char>,
    name: Seq<char>,
    mime_type: Seq<char>,
    size: nat,
    digest: Seq<u8>,
)
    ensures
        stored_file(volume_id, path, name, mime_type, size, digest).get("volume_id"@) == Some(JsonView::Str(volume_id)),
        stored_file(volume_id, path, name, mime_type, size, digest).get("path"@) == Some(JsonView::Str(path)),
        stored_file(volume_id, path, name, mime_type, size, digest).get("name"@) == Some(JsonView::Str(name)),
        stored_file(volume_id, path, name, mime_type, size, digest).get("mime_type"@) == Some(JsonView::Str(mime_type)),
        stored_file(volume_id, path, name, mime_type, size, digest).get("size"@) == Some(JsonView::Int(size as int)),
        stored_file(volume_id, path, name, mime_type, size, digest).get("sha256"@) == Some(JsonView::Str(primitives::hex_text(digest))),
{
    broadcast use crate::json::lemma_get_with;

    reveal_strlit("volume_id");
    reveal_strlit("path");
    reveal_strlit("name");
    reveal_strlit("mime_type");
    reveal_strlit("size");
    reveal_strlit("sha256");
    assert("volume_id"@.len() == 9 && "path"@.len() == 4 && "name"@.len() == 4 && "mime_type"@.len() == 9 && "size"@.len() == 4 && "sha256"@.len() == 6 && "name"@[0] == 'n' && "path"@[0] == 'p' && "mime_type"@[0] == 'm' && "volume_id"@[0] == 'v' && "size"@[0] == 's');
}

/// What goes wrong with a volume or a file is answered by its kind.
pub proof fn law_volume_failures_by_status(e: UserVolumeError, f: FileOperationsError)
    ensures
        volume_error_status(e) == 404 <==> e == UserVolumeError::NotFound,
        volume_error_status(e) == 403 <==> e == UserVolumeError::Unauthorized,
        volume_error_status(e) == 422 <==> e == UserVolumeError::VolumeCountQuotaExceeded || e
            == UserVolumeError::StorageQuotaExceeded,
        volume_error_status(e) == 409 <==> e == UserVolumeError::DuplicateName || e
            == UserVolumeError::VolumeAttached,
        volume_error_status(e) == 500 <==> e == UserVolumeError::Other,
        file_error_status(f) == 404 <==> f == FileOperationsError::NotFound,
        file_error_status(f) == 403 <==> f == FileOperationsError::Unauthorized,
        file_error_status(f) == 422 <==> f == FileOperationsError::FileTooLarge || f
            == FileOperationsError::InvalidPath,
        file_error_status(f) == 500 <==> f == FileOperationsError::Other,
{
}

/// The volume with an identifier is the first that has it; where none has it, there is none.
pub proof fn law_the_first_volume_with_an_identifier(volumes: Seq<VolumeRow>, id: u128, at: int)
    requires
        0 <= at <= volumes.len(),
        forall|j: int| 0 <= j < at ==> (#[trigger] volumes[j]).id != id,
        at < volumes.len() ==> volumes[at].id == id,
    ensures
        at < volumes.len() ==> first_with_id(volumes, id) == Some(volumes[at]),
        at == volumes.len() ==> first_with_id(volumes, id) is None,
    decreases volumes.len(),
{
    if at > 0 {
        assert(volumes[0].id != id);
        let rest = volumes.skip(1);
        assert forall|j: int| 0 <= j < at - 1 implies (#[trigger] rest[j]).id != id by {
            assert(rest[j] == volumes[j + 1]);
        }
        law_the_first_volume_with_an_identifier(rest, id, at - 1);
    }
}

/// The volume with a name is the first that has it; where none has it, there is none.
pub proof fn law_the_first_volume_with_a_name(volumes: Seq<VolumeRow>, name: Seq<char>, at: int)
    requires
        0 <= at <= volumes.len(),
        forall|j: int| 0 <= j < at ==> (#[trigger] volumes[j]).name@ != name,
        at < volumes.len() ==> volumes[at].name@ == name,
    ensures
        at < volumes.len() ==> first_named(volumes, name) == Some(volumes[at]),
        at == volumes.len() ==> first_named(volumes, name) is None,
    decreases volumes.len(),
{
    if at > 0 {
        assert(volumes[0].name@ != name);
        let rest = volumes.skip(1);
        assert forall|j: int| 0 <= j < at - 1 implies (#[trigger] rest[j]).name@ != name by {
            assert(rest[j] == volumes[j + 1]);
        }
        law_the_first_volume_with_a_name(rest, name, at - 1);
    }
}

/// A destination is taken where it is not empty, is relative, has no step upwards and holds
/// no control character, and nowhere else.
pub proof fn law_destinations_that_are_taken(path: Seq<char>)
    ensures
        path_refusal(path) is None <==> path.len() > 0 && path[0] != '/' && !text::pieces(
            path,
            '/',
        ).contains(".."@) && forall|i: int|
            0 <= i < path.len() ==> !is_control(#[trigger] path[i]),
{
}

/// The control characters are those below the blank, the one above the tilde, and the
/// thirty-two that follow it.
pub proof fn law_control_characters(c: char)
    ensures
        is_control(c) <==> (c as u32) < 32 || 127 <= (c as u32) < 160,
        is_control('\n'),
        is_control('\t'),
        !is_control(' '),
        !is_control('a'),
        !is_control('/'),
{
}

/// A file's name is of one to two hundred and fifty-five bytes, is no step in a path, and
/// holds neither a slash of either kind nor a control character.
pub proof fn law_names_that_are_taken(name: Seq<char>, i: int)
    requires
        0 <= i < name.len(),
    ensures
        valid_filename(name) ==> name[i] != '/' && name[i] != '\\' && !is_control(name[i]),
        valid_filename(name) ==> name != "."@ && name != ".."@,
        valid_filename(name) ==> vstd::utf8::encode_utf8(name).len() <= 255,
{
    assert(name.contains(name[i]));
    if name == ".."@ {
        reveal_strlit("..");
        assert(name.subrange(0, ".."@.len() as int) =~= ".."@);
        assert(text::occurs_at(".."@, name, 0));
    }
}

/// A name without anything of the kind is taken.
pub proof fn law_plain_names_are_taken(name: Seq<char>)
    requires
        1 <= vstd::utf8::encode_utf8(name).len() <= 255,
        forall|i: int|
            0 <= i < name.len() ==> #[trigger] name[i] != '/' && name[i] != '\\' && name[i]
                != '.' && !is_control(name[i]),
    ensures
        valid_filename(name),
{
    reveal_strlit("..");
    reveal_strlit(".");
    if name == "."@ {
        assert(name[0] == '.');
    }
    if text::occurs(".."@, name) {
        let i = choose|i: int| text::occurs_at(".."@, name, i);
        assert(name.subrange(i, i + ".."@.len())[0] == '.');
        assert(name[i] == '.');
    }
}

/// An upload goes to the volume whose identifier is given, or to the chat's attachments by
/// their name.
pub proof fn law_uploads_are_addressed(name: Seq<char>, id: u128)
    ensures
        target_of(name, Some(id)) == Some(UploadTarget::Volume(id)),
        target_of("chat-attachments"@, None) == Some(UploadTarget::ChatAttachments),
        name != "chat-attachments"@ ==> target_of(name, None) is None,
{
}

/// Higher tiers take larger files: fifty mebibytes, five hundred, two gibibytes, any size.
pub proof fn law_file_sizes_by_tier()
    ensures
        max_file_size(ZaruTier::Free) == 50 * 1024 * 1024,
        max_file_size(ZaruTier::Pro) == 500 * 1024 * 1024,
        max_file_size(ZaruTier::Business) == 2 * 1024 * 1024 * 1024,
        max_file_size(ZaruTier::Enterprise) == u64::MAX,
        max_file_size(ZaruTier::Free) < max_file_size(ZaruTier::Pro),
        max_file_size(ZaruTier::Pro) < max_file_size(ZaruTier::Business),
        max_file_size(ZaruTier::Business) < max_file_size(ZaruTier::Enterprise),
{
}

/// Of the parts of an upload the first that is not empty is kept.
pub proof fn law_the_first_filled_part_is_kept(parts: Seq<UploadView>, at: int)
    requires
        0 <= at <= parts.len(),
        forall|j: int| 0 <= j < at ==> (#[trigger] parts[j]).data.len() == 0,
        at < parts.len() ==> parts[at].data.len() > 0,
    ensures
        at < parts.len() ==> kept_of_all(parts) == Some(parts[at]),
        at == parts.len() ==> kept_of_all(parts) is None,
    decreases parts.len(),
{
    if parts.len() > 0 {
        let front = parts.drop_last();
        assert forall|j: int| 0 <= j < front.len() implies front[j] == parts[j] by {}
        if at < parts.len() - 1 {
            law_the_first_filled_part_is_kept(front, at);
        } else {
            law_the_first_filled_part_is_kept(front, front.len() as int);
            if at == parts.len() {
                assert(parts[parts.len() - 1].data.len() == 0);
            }
        }
    }
}

/// The name in a path is its last step that is neither empty nor a full stop.
pub proof fn law_the_last_step_names_the_file(pieces: Seq<Seq<char>>, at: int)
    requires
        0 <= at < pieces.len(),
        pieces[at].len() > 0,
        pieces[at] != "."@,
        forall|j: int|
            at < j < pieces.len() ==> (#[trigger] pieces[j]).len() == 0 || pieces[j] == "."@,
    ensures
        last_named(pieces) == Some(pieces[at]),
    decreases pieces.len(),
{
    if at < pieces.len() - 1 {
        assert(pieces[pieces.len() - 1].len() == 0 || pieces[pieces.len() - 1] == "."@);
        assert forall|j: int| at < j < pieces.drop_last().len() implies (
        #[trigger] pieces.drop_last()[j]).len() == 0 || pieces.drop_last()[j] == "."@ by {
            assert(pieces.drop_last()[j] == pieces[j]);
        }
        law_the_last_step_names_the_file(pieces.drop_last(), at);
    }
}

/// A file is shown under the name that came with it where that can be taken, or under the
/// name in its path, or under the path.
pub proof fn law_files_are_shown_under_a_name(supplied: Seq<char>, path: Seq<char>, name: Seq<char>)
    ensures
        valid_filename(supplied) ==> shown_name(Some(supplied), path) == supplied,
        !valid_filename(supplied) && path_file_name(path) == Some(name) ==> shown_name(
            Some(supplied),
            path,
        ) == name,
        path_file_name(path) == Some(name) ==> shown_name(None, path) == name,
        path_file_name(path) is None ==> shown_name(None, path) == path,
        mime_or_default(Some(name)) == name,
        mime_or_default(None) == "application/octet-stream"@,
        decoded_or_raw_spec(Some(name), path) == name,
        decoded_or_raw_spec(None, path) == path,
{
}

/// A body in parts is announced by its type, whatever its case and the blanks before it.
pub proof fn law_parts_are_announced(content_type: Seq<char>)
    ensures
        announces_parts(Some(content_type)) <==> "multipart/"@.is_prefix_of(
            text::lowered(text::trimmed_start(content_type)),
        ),
        !announces_parts(None),
{
}

} // verus!
