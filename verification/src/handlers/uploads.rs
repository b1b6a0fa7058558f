//! Uploads, step by step: where the file goes, how much of it is taken, and what is
//! shown of it once it is stored.

use crate::handlers;
use crate::handlers::volumes;
use crate::handlers::volumes::{
    CreateUserVolumeCommand, FileOperationsError, Upload, UploadTarget, UploadView,
    UserVolumeError, VolumeRow,
};
use crate::http;
use crate::http::Reply;
use crate::identity;
use crate::identity::{TenantId, UserIdentity, ZaruTier};
use crate::json::JsonView;
use crate::{primitives, text};
use vstd::prelude::*;

verus! {

/// A request to store a file, and what was taken of the file so far.
pub struct UploadRequest {
    pub id_or_name: String,
    /// The volume that the text denotes by its identifier, where it does.
    pub id: Option<u128>,
    pub path: String,
    pub tenant_id: TenantId,
    pub owner: String,
    pub tier: ZaruTier,
    pub content_type: Option<String>,
    pub x_filename: Option<String>,
    /// The volume, once it is known.
    pub volume: Option<u128>,
    pub upload: Option<Upload>,
}

/// Where the reading of a body of several parts failed.
#[derive(Clone, Copy, PartialEq, Eq, Structural, Debug)]
pub enum PartsStage {
    Init,
    Parse,
    Read,
}

/// What was learnt of an upload.
pub enum UploadEvent {
    Begun,
    /// The volumes of the owner.
    Listed(Result<Vec<VolumeRow>, (UserVolumeError, String)>),
    /// The volume that was created.
    Created(Result<u128, (UserVolumeError, String)>),
    /// One more part of the body.
    Part(Upload),
    PartsEnded,
    PartsFailed { stage: PartsStage, message: String },
    /// The body as a whole.
    RawRead(Result<Vec<u8>, String>),
    /// The file was stored in the volume.
    Stored(Result<(), (FileOperationsError, String)>),
}

/// What is done next with an upload.
pub enum UploadAction {
    /// List the volumes of an owner within a tenant.
    ListVolumes { tenant_id: TenantId, owner: String },
    CreateVolume(CreateUserVolumeCommand),
    /// Read the body part by part.
    ReadParts,
    NextPart,
    /// Read the body as a whole, at most as many bytes as given.
    ReadRaw { at_most: usize },
    /// Store what was taken, in the name of its owner and under its path.
    Store { volume: u128, owner: String, path: String, cap: u64 },
    Answer(Reply),
}

/// The mathematical content of the order to create a volume.
pub struct VolumeOrderView {
    pub tenant_id: Seq<char>,
    pub owner_user_id: Seq<char>,
    pub label: Seq<char>,
    pub size_limit_bytes: u64,
    pub zaru_tier: ZaruTier,
}

/// The mathematical content of what is done next with an upload.
pub enum UploadActionView {
    ListVolumes { tenant_id: Seq<char>, owner: Seq<char> },
    CreateVolume(VolumeOrderView),
    ReadParts,
    NextPart,
    ReadRaw { at_most: int },
    Store { volume: u128, owner: Seq<char>, path: Seq<char>, cap: u64 },
    Answer(http::ReplyView),
}

impl View for UploadAction {
    type V = UploadActionView;

    open spec fn view(&self) -> UploadActionView {
        match *self {
            UploadAction::ListVolumes { tenant_id, owner } => UploadActionView::ListVolumes {
                tenant_id: tenant_id@,
                owner: owner@,
            },
            UploadAction::CreateVolume(order) => UploadActionView::CreateVolume(
                VolumeOrderView {
                    tenant_id: order.tenant_id@,
                    owner_user_id: order.owner_user_id@,
                    label: order.label@,
                    size_limit_bytes: order.size_limit_bytes,
                    zaru_tier: order.zaru_tier,
                },
            ),
            UploadAction::ReadParts => UploadActionView::ReadParts,
            UploadAction::NextPart => UploadActionView::NextPart,
            UploadAction::ReadRaw { at_most } => UploadActionView::ReadRaw {
                at_most: at_most as int,
            },
            UploadAction::Store { volume, owner, path, cap } => UploadActionView::Store {
                volume,
                owner: owner@,
                path: path@,
                cap,
            },
            UploadAction::Answer(reply) => UploadActionView::Answer(reply@),
        }
    }
}

/// What is said of a body of several parts that could not be read.
pub open spec fn parts_flaw(stage: PartsStage) -> Seq<char> {
    match stage {
        PartsStage::Init => "multipart init error: "@,
        PartsStage::Parse => "multipart parse error: "@,
        PartsStage::Read => "multipart read error: "@,
    }
}

/// The name that a body as a whole comes with: the decoded header, where it may be
/// shown.
pub open spec fn header_name(x_filename: Option<Seq<char>>) -> Option<Seq<char>> {
    match x_filename {
        Some(raw) => {
            let name = volumes::decoded_or_raw_spec(primitives::percent_decoded(raw), raw);
            if volumes::valid_filename(name) {
                Some(name)
            } else {
                None
            }
        },
        None => None,
    }
}

/// The answer to an upload that was stored.
pub open spec fn stored_answer(volume: Seq<char>, path: Seq<char>, upload: UploadView) ->
    http::ReplyView {
    http::json_reply(
        200,
        volumes::stored_file(
            volume,
            path,
            volumes::shown_name(upload.name, path),
            volumes::mime_or_default(primitives::detected_mime(upload.data)),
            upload.data.len(),
            primitives::sha256_digest(upload.data),
        ),
    )
}

/// The answer where a body holds no file.
pub open spec fn no_file() -> http::ReplyView {
    http::error_reply(422, "multipart body contained no file"@)
}

impl UploadRequest {
    /// What is known of an upload from its request: it is the caller's, in the
    /// caller's tenant, under the caller's tier.
    pub fn start(
        id_or_name: String,
        path: String,
        caller: Option<&UserIdentity>,
        default_tenant: &TenantId,
        content_type: Option<String>,
        x_filename: Option<String>,
    ) -> (r: Self)
        ensures
            r.id_or_name == id_or_name,
            r.id == primitives::parsed_uuid(id_or_name@),
            r.path == path,
            r.tenant_id@ == handlers::tenant_of_identity(
                identity::opt_identity(caller),
                default_tenant@,
            ),
            r.owner@ == identity::sub_of(identity::opt_identity(caller)),
            r.tier == identity::tier_of(identity::opt_identity(caller)),
            r.content_type == content_type,
            r.x_filename == x_filename,
            r.volume is None,
            r.upload is None,
    {
        let id = primitives::parse_uuid(id_or_name.as_str());
        UploadRequest {
            id_or_name,
            id,
            path,
            tenant_id: handlers::tenant_id_from_identity(caller, default_tenant),
            owner: identity::user_sub(caller),
            tier: identity::user_tier(caller),
            content_type,
            x_filename,
            volume: None,
            upload: None,
        }
    }

    /// How many bytes the file may have.
    pub open spec fn cap(self) -> u64 {
        volumes::max_file_size(self.tier)
    }

    /// What follows once the volume is known: the body is read.
    pub open spec fn with_volume(self) -> UploadActionView {
        if volumes::announces_parts(text::opt_view(self.content_type)) {
            UploadActionView::ReadParts
        } else {
            UploadActionView::ReadRaw {
                at_most: if self.cap() <= usize::MAX {
                    self.cap() as int
                } else {
                    usize::MAX as int
                },
            }
        }
    }

    /// What follows once the file is taken. Without a volume the upload begins anew.
    pub open spec fn with_file(self) -> UploadActionView {
        match self.volume {
            Some(volume) => UploadActionView::Store {
                volume,
                owner: self.owner@,
                path: self.path@,
                cap: self.cap(),
            },
            None => self.first(),
        }
    }

    /// What an upload begins with: its path, then its volume.
    pub open spec fn first(self) -> UploadActionView {
        match volumes::path_refusal(self.path@) {
            Some(message) => UploadActionView::Answer(http::error_reply(422, message)),
            None => match volumes::target_of(self.id_or_name@, self.id) {
                None => UploadActionView::Answer(
                    http::error_reply(
                        400,
                        "expected volume UUID or reserved name 'chat-attachments'"@,
                    ),
                ),
                Some(UploadTarget::Volume(_)) => self.with_volume(),
                Some(UploadTarget::ChatAttachments) => UploadActionView::ListVolumes {
                    tenant_id: self.tenant_id@,
                    owner: self.owner@,
                },
            },
        }
    }

    /// What follows from what was learnt.
    pub open spec fn next(self, event: UploadEvent) -> UploadActionView {
        match event {
            UploadEvent::Begun => self.first(),
            UploadEvent::Listed(found) => match found {
                Err((e, message)) => UploadActionView::Answer(
                    http::error_reply(volumes::volume_error_status(e), message@),
                ),
                Ok(existing) => match volumes::first_named(existing@, "chat-attachments"@) {
                    Some(_) => self.with_volume(),
                    None => UploadActionView::CreateVolume(
                        VolumeOrderView {
                            tenant_id: self.tenant_id@,
                            owner_user_id: self.owner@,
                            label: "chat-attachments"@,
                            size_limit_bytes: volumes::CHAT_ATTACHMENTS_DEFAULT_SIZE_BYTES,
                            zaru_tier: self.tier,
                        },
                    ),
                },
            },
            UploadEvent::Created(outcome) => match outcome {
                Err((e, message)) => UploadActionView::Answer(
                    http::error_reply(volumes::volume_error_status(e), message@),
                ),
                Ok(_) => self.with_volume(),
            },
            UploadEvent::Part(part) => if part@.data.len() > self.cap() {
                UploadActionView::Answer(volumes::too_large(self.cap()))
            } else {
                UploadActionView::NextPart
            },
            UploadEvent::PartsEnded => if self.upload is Some {
                self.with_file()
            } else {
                UploadActionView::Answer(no_file())
            },
            UploadEvent::PartsFailed { stage, message } => UploadActionView::Answer(
                http::error_reply(400, parts_flaw(stage) + message@),
            ),
            UploadEvent::RawRead(outcome) => match outcome {
                Err(e) => UploadActionView::Answer(
                    http::error_reply(413, "body read error: "@ + e@),
                ),
                Ok(_) => self.with_file(),
            },
            UploadEvent::Stored(outcome) => match outcome {
                Err((e, message)) => UploadActionView::Answer(
                    http::error_reply(volumes::file_error_status(e), message@),
                ),
                Ok(_) => match (self.upload, self.volume) {
                    (Some(upload), Some(volume)) => UploadActionView::Answer(
                        stored_answer(primitives::uuid_chars(volume), self.path@, upload@),
                    ),
                    (Some(_), None) => self.first(),
                    (None, _) => UploadActionView::Answer(no_file()),
                },
            },
        }
    }

    /// The volume that is known after an event.
    pub open spec fn volume_after(self, event: UploadEvent) -> Option<u128> {
        match event {
            UploadEvent::Begun => match volumes::target_of(self.id_or_name@, self.id) {
                Some(UploadTarget::Volume(id)) if volumes::path_refusal(self.path@) is None => {
                    Some(id)
                },
                _ => self.volume,
            },
            UploadEvent::Listed(Ok(existing)) => match volumes::first_named(
                existing@,
                "chat-attachments"@,
            ) {
                Some(v) => Some(v.id),
                None => self.volume,
            },
            UploadEvent::Created(Ok(id)) => Some(id),
            _ => self.volume,
        }
    }

    /// What is taken of the file after an event: of several parts the first that is not
    /// empty; a body as a whole under the name in its header.
    pub open spec fn upload_after(self, event: UploadEvent) -> Option<UploadView> {
        match event {
            UploadEvent::Part(part) => if part@.data.len() > self.cap() {
                None
            } else {
                volumes::kept(volumes::opt_upload(self.upload), part@)
            },
            UploadEvent::RawRead(Ok(data)) => Some(
                UploadView { data: data@, name: header_name(text::opt_view(self.x_filename)) },
            ),
            UploadEvent::Stored(Ok(_)) => None,
            _ => volumes::opt_upload(self.upload),
        }
    }

    fn read(&self) -> (r: UploadAction)
        ensures
            r@ == self.with_volume(),
    {
        let content_type = match &self.content_type {
            Some(t) => Some(t.as_str()),
            None => None,
        };
        match volumes::upload_cap(volumes::resolve_max_file_size_bytes(&self.tier)) {
            Ok(cap) => if volumes::is_multipart(content_type) {
                UploadAction::ReadParts
            } else {
                UploadAction::ReadRaw { at_most: volumes::cap_as_usize(cap) }
            },
            Err(reply) => UploadAction::Answer(reply),
        }
    }

    fn max_size(&self) -> (r: u64)
        ensures
            r == self.cap(),
    {
        match volumes::resolve_max_file_size_bytes(&self.tier) {
            Some(cap) => cap,
            None => 0,
        }
    }

    fn begin(&self) -> (r: (UploadAction, Option<u128>))
        ensures
            r.0@ == self.first(),
            r.1 == self.volume_after(UploadEvent::Begun),
    {
        if let Err(reply) = volumes::validate_dest_path(self.path.as_str()) {
            return (UploadAction::Answer(reply), self.volume);
        }
        match volumes::upload_target_of(self.id_or_name.as_str(), self.id) {
            Err(reply) => (UploadAction::Answer(reply), self.volume),
            Ok(UploadTarget::Volume(id)) => (self.read(), Some(id)),
            Ok(UploadTarget::ChatAttachments) => (
                UploadAction::ListVolumes {
                    tenant_id: self.tenant_id.clone(),
                    owner: self.owner.clone(),
                },
                self.volume,
            ),
        }
    }

    fn store(&self) -> (r: UploadAction)
        ensures
            r@ == self.with_file(),
    {
        match self.volume {
            Some(volume) => UploadAction::Store {
                volume,
                owner: self.owner.clone(),
                path: self.path.clone(),
                cap: self.max_size(),
            },
            None => self.begin().0,
        }
    }

    /// One step of an upload: takes what was learnt and says what to do next.
    pub fn step(&mut self, event: UploadEvent) -> (action: UploadAction)
        ensures
            action@ == old(self).next(event),
            final(self).id_or_name == old(self).id_or_name,
            final(self).id == old(self).id,
            final(self).path == old(self).path,
            final(self).tenant_id == old(self).tenant_id,
            final(self).owner == old(self).owner,
            final(self).tier == old(self).tier,
            final(self).content_type == old(self).content_type,
            final(self).x_filename == old(self).x_filename,
            final(self).volume == old(self).volume_after(event),
            volumes::opt_upload(final(self).upload) == old(self).upload_after(event),
    {
        match event {
            UploadEvent::Begun => {
                let (action, volume) = self.begin();
                self.volume = volume;
                action
            },
            UploadEvent::Listed(found) => match found {
                Err((e, message)) => UploadAction::Answer(
                    volumes::user_volume_error_response(e, message.as_str()),
                ),
                Ok(existing) => match volumes::resolve_or_provision_upload_volume(
                    &existing,
                    self.tenant_id.clone(),
                    self.owner.as_str(),
                    self.tier,
                ) {
                    Ok(id) => {
                        self.volume = Some(id);
                        self.read()
                    },
                    Err(order) => UploadAction::CreateVolume(order),
                },
            },
            UploadEvent::Created(outcome) => match outcome {
                Err((e, message)) => UploadAction::Answer(
                    volumes::user_volume_error_response(e, message.as_str()),
                ),
                Ok(id) => {
                    self.volume = Some(id);
                    self.read()
                },
            },
            UploadEvent::Part(part) => {
                let found = self.upload.take();
                match volumes::take_part(found, part, self.max_size()) {
                    Ok(kept) => {
                        self.upload = kept;
                        UploadAction::NextPart
                    },
                    Err(reply) => UploadAction::Answer(reply),
                }
            },
            UploadEvent::PartsEnded => if self.upload.is_some() {
                self.store()
            } else {
                UploadAction::Answer(Reply::error(422, "multipart body contained no file"))
            },
            UploadEvent::PartsFailed { stage, message } => {
                let what = match stage {
                    PartsStage::Init => "multipart init error: ",
                    PartsStage::Parse => "multipart parse error: ",
                    PartsStage::Read => "multipart read error: ",
                };
                UploadAction::Answer(
                    Reply::error(400, what.to_owned().concat(message.as_str()).as_str()),
                )
            },
            UploadEvent::RawRead(outcome) => match outcome {
                Err(e) => UploadAction::Answer(
                    Reply::error(413, "body read error: ".to_owned().concat(e.as_str()).as_str()),
                ),
                Ok(data) => {
                    let raw = match &self.x_filename {
                        Some(name) => Some(name.as_str()),
                        None => None,
                    };
                    let name = volumes::raw_body_name(raw);
                    self.upload = Some(Upload { data, name });
                    self.store()
                },
            },
            UploadEvent::Stored(outcome) => match outcome {
                Err((e, message)) => UploadAction::Answer(
                    volumes::file_ops_error_response(e, message.as_str()),
                ),
                Ok(_) => match self.upload.take() {
                    Some(upload) => match self.volume {
                        Some(volume) => UploadAction::Answer(
                            volumes::upload_file_reply(
                                primitives::uuid_text(volume).as_str(),
                                self.path.as_str(),
                                upload,
                            ),
                        ),
                        None => self.begin().0,
                    },
                    None => UploadAction::Answer(
                        Reply::error(422, "multipart body contained no file"),
                    ),
                },
            },
        }
    }
}

/// The type that is shown of a file comes from its content: what the request announces
/// in its headers changes nothing of the answer to the same file in the same place.
pub proof fn law_announced_types_are_not_trusted(one: UploadRequest, other: UploadRequest)
    requires
        one.path@ == other.path@,
        one.volume is Some,
        one.volume == other.volume,
        volumes::opt_upload(one.upload) == volumes::opt_upload(other.upload),
    ensures
        one.next(UploadEvent::Stored(Ok(()))) == other.next(UploadEvent::Stored(Ok(()))),
{
}

/// A file that is stored is answered with the volume that it was stored to.
pub proof fn law_the_answer_names_the_volume(request: UploadRequest, volume: u128)
    requires
        request.upload is Some,
        request.with_file() == (UploadActionView::Store {
            volume,
            owner: request.owner@,
            path: request.path@,
            cap: request.cap(),
        }),
    ensures
        request.next(UploadEvent::Stored(Ok(()))) == UploadActionView::Answer(
            stored_answer(
                primitives::uuid_chars(volume),
                request.path@,
                request.upload->Some_0@,
            ),
        ),
{
}

/// A file over the cap of the caller's tier is never stored: the part that is too
/// large ends the upload.
pub proof fn law_oversized_parts_end_the_upload(request: UploadRequest, part: Upload)
    requires
        part@.data.len() > request.cap(),
    ensures
        request.next(UploadEvent::Part(part)) == UploadActionView::Answer(
            volumes::too_large(request.cap()),
        ),
        request.upload_after(UploadEvent::Part(part)) is None,
{
}

/// Nothing is looked up, read or stored for a path that is refused.
pub proof fn law_refused_paths_end_the_upload(request: UploadRequest)
    requires
        volumes::path_refusal(request.path@) is Some,
    ensures
        request.next(UploadEvent::Begun) == UploadActionView::Answer(
            http::error_reply(422, volumes::path_refusal(request.path@)->Some_0),
        ),
{
}

/// A file that was stored is told: where it is, under which name, of what type, how large
/// it is and what its hash is.
pub proof fn law_a_stored_file_is_told(volume: Seq<char>, path: Seq<char>, upload: UploadView)
    ensures
        ({
            &&& stored_answer(volume, path, upload).status == 200
            &&& stored_answer(volume, path, upload).body matches Some(body)
            &&& body.get("volume_id"@) == Some(JsonView::Str(volume))
            &&& body.get("path"@) == Some(JsonView::Str(path))
            &&& body.get("name"@) == Some(JsonView::Str(volumes::shown_name(upload.name, path)))
            &&& body.get("size"@) == Some(JsonView::Int(upload.data.len() as int))
            &&& body.get("sha256"@) == Some(
                JsonView::Str(primitives::hex_text(primitives::sha256_digest(upload.data))),
            )
            &&& body.get("mime_type"@) == Some(
                JsonView::Str(
                    volumes::mime_or_default(primitives::detected_mime(upload.data)),
                ),
            )
        }),
{
    broadcast use crate::json::lemma_get_with;

    reveal_strlit("volume_id");
    reveal_strlit("path");
    reveal_strlit("name");
    reveal_strlit("mime_type");
    reveal_strlit("size");
    reveal_strlit("sha256");
    assert("volume_id"@.len() == 9 && "path"@.len() == 4 && "name"@.len() == 4 && "mime_type"@.len() == 9 && "size"@.len() == 4 && "sha256"@.len() == 6 && "name"@[0] == 'n' && "path"@[0] == 'p' && "mime_type"@[0] == 'm' && "volume_id"@[0] == 'v' && "size"@[0] == 's');
}

/// An upload to a known volume reads its body, in parts where these are announced; one to
/// the chat's attachments asks for the volumes of its owner; every other is refused.
pub proof fn law_an_upload_begins_with_its_volume(request: UploadRequest, id: u128)
    requires
        volumes::path_refusal(request.path@) is None,
    ensures
        request.id == Some(id) && volumes::announces_parts(text::opt_view(request.content_type))
            ==> request.next(UploadEvent::Begun) == UploadActionView::ReadParts,
        request.id == Some(id) && !volumes::announces_parts(text::opt_view(request.content_type))
            && volumes::max_file_size(request.tier) <= usize::MAX ==> request.next(
            UploadEvent::Begun,
        ) == (UploadActionView::ReadRaw { at_most: volumes::max_file_size(request.tier) as int }),
        request.id == Some(id) ==> request.volume_after(UploadEvent::Begun) == Some(id),
        request.id is None && request.id_or_name@ == "chat-attachments"@ ==> request.next(
            UploadEvent::Begun,
        ) == (UploadActionView::ListVolumes {
            tenant_id: request.tenant_id@,
            owner: request.owner@,
        }),
        request.id is None && request.id_or_name@ != "chat-attachments"@ ==> (request.next(
            UploadEvent::Begun,
        ) matches UploadActionView::Answer(reply) && reply.status == 400),
{
}

/// A destination that cannot be taken is refused before anything else.
pub proof fn law_bad_destinations_are_refused(request: UploadRequest)
    requires
        volumes::path_refusal(request.path@) is Some,
    ensures
        request.next(UploadEvent::Begun) matches UploadActionView::Answer(reply) && reply.status
            == 422,
        request.volume_after(UploadEvent::Begun) == request.volume,
{
}

/// The chat's attachments go to the volume of that name, which is made for the owner where
/// they have none.
pub proof fn law_attachments_have_a_volume(
    request: UploadRequest,
    existing: Vec<VolumeRow>,
    found: VolumeRow,
    id: u128,
)
    ensures
        volumes::first_named(existing@, "chat-attachments"@) == Some(found)
            ==> request.volume_after(UploadEvent::Listed(Ok(existing))) == Some(found.id)
            && !(request.next(UploadEvent::Listed(Ok(existing))) is CreateVolume),
        volumes::first_named(existing@, "chat-attachments"@) is None ==> (request.next(
            UploadEvent::Listed(Ok(existing)),
        ) matches UploadActionView::CreateVolume(order) && order.tenant_id == request.tenant_id@
            && order.owner_user_id == request.owner@ && order.label == "chat-attachments"@
            && order.zaru_tier == request.tier),
        request.volume_after(UploadEvent::Created(Ok(id))) == Some(id),
{
}

/// A part over the limit of the tier ends the upload; the first filled one within it is
/// kept, and is what is stored, for the owner and under the path.
pub proof fn law_what_is_uploaded_is_stored(
    request: UploadRequest,
    part: Upload,
    volume: u128,
    data: Vec<u8>,
    kept: Upload,
    e: String,
)
    requires
        request.volume == Some(volume),
    ensures
        part@.data.len() > volumes::max_file_size(request.tier) ==> (request.next(
            UploadEvent::Part(part),
        ) matches UploadActionView::Answer(reply) && reply.status == 413),
        part@.data.len() <= volumes::max_file_size(request.tier) ==> request.next(
            UploadEvent::Part(part),
        ) == UploadActionView::NextPart,
        0 < part@.data.len() <= volumes::max_file_size(request.tier) && request.upload is None
            ==> request.upload_after(UploadEvent::Part(part)) == Some(part@),
        part@.data.len() <= volumes::max_file_size(request.tier) && request.upload == Some(kept)
            ==> request.upload_after(UploadEvent::Part(part)) == Some(kept@),
        request.upload_after(UploadEvent::RawRead(Ok(data))) matches Some(u) && u.data == data@,
        request.upload == Some(kept) ==> request.next(UploadEvent::PartsEnded) == (
        UploadActionView::Store {
            volume,
            owner: request.owner@,
            path: request.path@,
            cap: volumes::max_file_size(request.tier),
        }),
        request.upload is None ==> (request.next(
            UploadEvent::PartsEnded,
        ) matches UploadActionView::Answer(reply) && reply.status == 422),
        request.next(UploadEvent::RawRead(Ok(data))) == (UploadActionView::Store {
            volume,
            owner: request.owner@,
            path: request.path@,
            cap: volumes::max_file_size(request.tier),
        }),
        request.next(UploadEvent::RawRead(Err(e))) matches UploadActionView::Answer(reply)
            && reply.status == 413,
{
}

/// A file that was stored is answered from what was kept of it; a failure by its kind.
pub proof fn law_a_stored_upload_is_answered(
    request: UploadRequest,
    volume: u128,
    kept: Upload,
    e: FileOperationsError,
    message: String,
    stage: PartsStage,
)
    requires
        request.volume == Some(volume),
        request.upload == Some(kept),
    ensures
        forall|outcome: UploadEvent|
            outcome matches UploadEvent::Stored(Ok(_)) ==> #[trigger] request.next(outcome)
                == UploadActionView::Answer(
                stored_answer(primitives::uuid_chars(volume), request.path@, kept@),
            ),
        request.next(UploadEvent::Stored(Err((e, message)))) matches UploadActionView::Answer(
            reply,
        ) && reply.status == volumes::file_error_status(e),
        request.next(
            UploadEvent::PartsFailed { stage, message },
        ) matches UploadActionView::Answer(reply) && reply.status == 400,
{
}

/// The name in the header is the decoded one where it can be taken.
pub proof fn law_the_header_may_name_the_file(raw: Seq<char>, name: Seq<char>)
    ensures
        primitives::percent_decoded(raw) == Some(name) && volumes::valid_filename(name)
            ==> header_name(Some(raw)) == Some(name),
        primitives::percent_decoded(raw) == Some(name) && !volumes::valid_filename(name)
            ==> header_name(Some(raw)) is None,
        primitives::percent_decoded(raw) is None && volumes::valid_filename(raw) ==> header_name(
            Some(raw),
        ) == Some(raw),
        header_name(None) is None,
{
}

} // verus!
