//! What requests about volumes and the files in them ask of the services behind them,
//! and how they are answered.

use crate::handlers;
use crate::handlers::volumes;
use crate::handlers::volumes::{
    CreateUserVolumeCommand, FileOperationsError, QuotaUsage, UserVolumeError, VolumeRow,
};
use crate::handlers::Owner;
use crate::http;
use crate::http::Reply;
use crate::identity;
use crate::identity::{TenantId, UserIdentity, UserIdentityView, ZaruTier};
use crate::json::{Json, JsonView};
use vstd::prelude::*;

verus! {

/// What a request about volumes or files asks for.
pub enum VolumeAsk {
    Create { label: String, size_limit_bytes: u64 },
    List,
    Quota,
    Get { id: u128 },
    Rename { id: u128, label: String },
    Delete { id: u128 },
    ListFiles { id: u128, path: String },
    Download { id: u128, path: String },
    DeletePath { id: u128, path: String },
    MakeDirectory { id: u128, path: String },
    MovePath { id: u128, from: String, to: String },
}

/// What the services of volumes and files are called for. What is done to one volume
/// is done in the name of a user; the service knows the user's tenant.
pub enum VolumeCall {
    Create(CreateUserVolumeCommand),
    ListWithUsage { owner: Owner },
    Quota { owner: Owner, tier: ZaruTier },
    /// The volumes of the caller, among which the one asked for is sought.
    Find { owner: Owner, id: u128 },
    Rename { id: u128, user: String, label: String },
    Delete { id: u128, user: String },
    ListFiles { id: u128, user: String, path: String },
    Download { id: u128, user: String, path: String },
    DeletePath { id: u128, user: String, path: String },
    MakeDirectory { id: u128, user: String, path: String },
    MovePath { id: u128, user: String, from: String, to: String },
}

/// Whether a call is the one that a caller asks for, in the caller's own name.
pub open spec fn is_call(
    call: VolumeCall,
    ask: VolumeAsk,
    caller: Option<UserIdentityView>,
    default_tenant: Seq<char>,
) -> bool {
    let whose = handlers::owner_of(caller, default_tenant);
    match (ask, call) {
        (VolumeAsk::Create { label, size_limit_bytes }, VolumeCall::Create(order)) => {
            &&& order.tenant_id@ == whose.tenant_id
            &&& order.owner_user_id@ == whose.sub
            &&& order.label == label
            &&& order.size_limit_bytes == size_limit_bytes
            &&& order.zaru_tier == identity::tier_of(caller)
        },
        (VolumeAsk::List, VolumeCall::ListWithUsage { owner }) => owner@ == whose,
        (VolumeAsk::Quota, VolumeCall::Quota { owner, tier }) => owner@ == whose && tier
            == identity::tier_of(caller),
        (VolumeAsk::Get { id: asked }, VolumeCall::Find { owner, id }) => id == asked && owner@
            == whose,
        (
            VolumeAsk::Rename { id: asked, label: named },
            VolumeCall::Rename { id, user, label },
        ) => id == asked && user@ == whose.sub && label == named,
        (VolumeAsk::Delete { id: asked }, VolumeCall::Delete { id, user }) => id == asked && user@
            == whose.sub,
        (
            VolumeAsk::ListFiles { id: asked, path: at },
            VolumeCall::ListFiles { id, user, path },
        ) => id == asked && user@ == whose.sub && path == at,
        (
            VolumeAsk::Download { id: asked, path: at },
            VolumeCall::Download { id, user, path },
        ) => id == asked && user@ == whose.sub && path == at,
        (
            VolumeAsk::DeletePath { id: asked, path: at },
            VolumeCall::DeletePath { id, user, path },
        ) => id == asked && user@ == whose.sub && path == at,
        (
            VolumeAsk::MakeDirectory { id: asked, path: at },
            VolumeCall::MakeDirectory { id, user, path },
        ) => id == asked && user@ == whose.sub && path == at,
        (
            VolumeAsk::MovePath { id: asked, from: source, to: target },
            VolumeCall::MovePath { id, user, from, to },
        ) => id == asked && user@ == whose.sub && from == source && to == target,
        _ => false,
    }
}

/// The call that a request about volumes or files leads to.
pub fn begin_volume(
    ask: VolumeAsk,
    caller: Option<&UserIdentity>,
    default_tenant: &TenantId,
) -> (r: VolumeCall)
    ensures
        is_call(r, ask, identity::opt_identity(caller), default_tenant@),
{
    let user = identity::user_sub(caller);
    match ask {
        VolumeAsk::Create { label, size_limit_bytes } => VolumeCall::Create(
            volumes::create_volume(caller, default_tenant, label, size_limit_bytes),
        ),
        VolumeAsk::List => VolumeCall::ListWithUsage {
            owner: handlers::request_owner(caller, default_tenant),
        },
        VolumeAsk::Quota => VolumeCall::Quota {
            owner: handlers::request_owner(caller, default_tenant),
            tier: identity::user_tier(caller),
        },
        VolumeAsk::Get { id } => VolumeCall::Find {
            owner: handlers::request_owner(caller, default_tenant),
            id,
        },
        VolumeAsk::Rename { id, label } => VolumeCall::Rename { id, user, label },
        VolumeAsk::Delete { id } => VolumeCall::Delete { id, user },
        VolumeAsk::ListFiles { id, path } => VolumeCall::ListFiles { id, user, path },
        VolumeAsk::Download { id, path } => VolumeCall::Download { id, user, path },
        VolumeAsk::DeletePath { id, path } => VolumeCall::DeletePath { id, user, path },
        VolumeAsk::MakeDirectory { id, path } => VolumeCall::MakeDirectory { id, user, path },
        VolumeAsk::MovePath { id, from, to } => VolumeCall::MovePath { id, user, from, to },
    }
}

/// What came of a call.
pub enum VolumeDone {
    Created(VolumeRow),
    Listed(Vec<(VolumeRow, u64)>),
    Quota(QuotaUsage),
    /// The volumes of the caller, and the one that is sought among them.
    Volumes { volumes: Vec<VolumeRow>, id: u128 },
    /// What a directory holds; missing where it cannot be written down.
    Files(Option<Json>),
    /// A file, with its type.
    File { content_type: String, data: Vec<u8> },
    /// Something was done that has nothing to show.
    Done,
    VolumeFailed { error: UserVolumeError, message: String },
    FileFailed { file_error: FileOperationsError, message: String },
}

/// What a request about volumes or files gets.
pub enum VolumeAnswer {
    Json(Reply),
    /// The content of a file.
    File { content_type: String, data: Vec<u8> },
}

/// The answer in JSON that a request about volumes or files gets; none where it gets
/// a file.
pub open spec fn volume_answer(done: VolumeDone) -> Option<http::ReplyView> {
    match done {
        VolumeDone::Created(volume) => Some(http::json_reply(201, volume.shown())),
        VolumeDone::Listed(listed) => Some(
            http::json_reply(
                200,
                JsonView::Arr(listed@.map_values(|v: (VolumeRow, u64)| v.0.shown_with_usage(v.1))),
            ),
        ),
        VolumeDone::Quota(usage) => Some(http::json_reply(200, usage.shown())),
        VolumeDone::Volumes { volumes: of_caller, id } => Some(
            match volumes::first_with_id(of_caller@, id) {
                Some(v) => http::json_reply(200, v.shown()),
                None => http::error_reply(404, "volume not found"@),
            },
        ),
        VolumeDone::Files(Some(entries)) => Some(http::json_reply(200, entries@)),
        VolumeDone::Files(None) => Some(http::json_reply(200, JsonView::Arr(Seq::empty()))),
        VolumeDone::File { .. } => None,
        VolumeDone::Done => Some(volumes::success()),
        VolumeDone::VolumeFailed { error, message } => Some(
            http::error_reply(volumes::volume_error_status(error), message@),
        ),
        VolumeDone::FileFailed { file_error: error, message } => Some(
            http::error_reply(volumes::file_error_status(error), message@),
        ),
    }
}

/// What a request about volumes or files gets, once the service was called.
pub fn volume_reply(done: VolumeDone) -> (r: VolumeAnswer)
    ensures
        match volume_answer(done) {
            Some(answer) => r matches VolumeAnswer::Json(reply) && reply@ == answer,
            None => done matches VolumeDone::File { content_type, data } && r
                == (VolumeAnswer::File { content_type, data }),
        },
{
    VolumeAnswer::Json(
        match done {
            VolumeDone::Created(volume) => volumes::create_volume_reply(&volume),
            VolumeDone::Listed(listed) => volumes::list_volumes_reply(&listed),
            VolumeDone::Quota(usage) => volumes::get_quota_reply(&usage),
            VolumeDone::Volumes { volumes: of_caller, id } => volumes::get_volume_reply(
                &of_caller,
                id,
            ),
            VolumeDone::Files(Some(entries)) => Reply::json(200, entries),
            VolumeDone::Files(None) => {
                let none: Vec<Json> = Vec::new();
                assert(crate::json::json_views(none@) =~= Seq::empty());
                Reply::json(200, Json::array(none))
            },
            VolumeDone::File { content_type, data } => {
                return VolumeAnswer::File { content_type, data };
            },
            VolumeDone::Done => volumes::success_reply(),
            VolumeDone::VolumeFailed { error, message } => volumes::user_volume_error_response(
                error,
                message.as_str(),
            ),
            VolumeDone::FileFailed { file_error: error, message } => volumes::file_ops_error_response(
                error,
                message.as_str(),
            ),
        },
    )
}

/// A volume that is not among the caller's is answered like one that is not there,
/// whoever else has it.
pub proof fn law_only_own_volumes_are_found(of_caller: Vec<VolumeRow>, id: u128)
    requires
        forall|i: int| 0 <= i < of_caller@.len() ==> (#[trigger] of_caller@[i]).id != id,
    ensures
        volume_answer(VolumeDone::Volumes { volumes: of_caller, id }) == Some(
            http::error_reply(404, "volume not found"@),
        ),
{
    lemma_none_with_id(of_caller@, id);
}

proof fn lemma_none_with_id(of_caller: Seq<VolumeRow>, id: u128)
    requires
        forall|i: int| 0 <= i < of_caller.len() ==> (#[trigger] of_caller[i]).id != id,
    ensures
        volumes::first_with_id(of_caller, id) is None,
    decreases of_caller.len(),
{
    if of_caller.len() > 0 {
        lemma_none_with_id(of_caller.skip(1), id);
    }
}

/// A call on a volume is of the caller, for the one that is asked for, with what is asked.
pub proof fn law_volume_calls_are_the_callers(
    call: VolumeCall,
    asked: u128,
    label: String,
    at: String,
    to_path: String,
    size: u64,
    caller: Option<UserIdentityView>,
    default: Seq<char>,
)
    ensures
        is_call(call, VolumeAsk::Create { label, size_limit_bytes: size }, caller, default) ==> (
        call matches VolumeCall::Create(order) && order.tenant_id@ == handlers::tenant_of_identity(
            caller,
            default,
        ) && order.owner_user_id@ == identity::sub_of(caller) && order.label == label
            && order.size_limit_bytes == size && order.zaru_tier == identity::tier_of(caller)),
        is_call(call, VolumeAsk::List, caller, default) ==> (
        call matches VolumeCall::ListWithUsage { owner } && owner@ == handlers::owner_of(
            caller,
            default,
        )),
        is_call(call, VolumeAsk::Quota, caller, default) ==> (call matches VolumeCall::Quota {
            owner,
            tier,
        } && owner@ == handlers::owner_of(caller, default) && tier == identity::tier_of(caller)),
        is_call(call, VolumeAsk::Get { id: asked }, caller, default) ==> (
        call matches VolumeCall::Find { owner, id } && id == asked && owner@ == handlers::owner_of(
            caller,
            default,
        )),
        is_call(call, VolumeAsk::Rename { id: asked, label }, caller, default) ==> (
        call matches VolumeCall::Rename { id, user, label: l } && id == asked && user@
            == identity::sub_of(caller) && l == label),
        is_call(call, VolumeAsk::Delete { id: asked }, caller, default) ==> (
        call matches VolumeCall::Delete { id, user } && id == asked && user@ == identity::sub_of(
            caller,
        )),
        is_call(call, VolumeAsk::ListFiles { id: asked, path: at }, caller, default) ==> (
        call matches VolumeCall::ListFiles { id, user, path } && id == asked && user@
            == identity::sub_of(caller) && path == at),
        is_call(call, VolumeAsk::Download { id: asked, path: at }, caller, default) ==> (
        call matches VolumeCall::Download { id, user, path } && id == asked && user@
            == identity::sub_of(caller) && path == at),
        is_call(call, VolumeAsk::DeletePath { id: asked, path: at }, caller, default) ==> (
        call matches VolumeCall::DeletePath { id, user, path } && id == asked && user@
            == identity::sub_of(caller) && path == at),
        is_call(call, VolumeAsk::MakeDirectory { id: asked, path: at }, caller, default) ==> (
        call matches VolumeCall::MakeDirectory { id, user, path } && id == asked && user@
            == identity::sub_of(caller) && path == at),
        is_call(call, VolumeAsk::MovePath { id: asked, from: at, to: to_path }, caller, default)
            ==> (call matches VolumeCall::MovePath { id, user, from, to } && id == asked && user@
            == identity::sub_of(caller) && from == at && to == to_path),
{
}

/// What was done to a volume is answered: every volume in a list with its use, the quota,
/// the files as they are, and a failure by its kind.
pub proof fn law_volume_answers(
    volume: VolumeRow,
    listed: Vec<(VolumeRow, u64)>,
    usage: QuotaUsage,
    entries: Json,
    error: UserVolumeError,
    file_error: FileOperationsError,
    message: String,
    i: int,
)
    requires
        0 <= i < listed@.len(),
    ensures
        volume_answer(VolumeDone::Created(volume)) == Some(http::json_reply(201, volume.shown())),
        ({
            &&& volume_answer(VolumeDone::Listed(listed)) matches Some(reply)
            &&& reply.status == 200
            &&& reply.body matches Some(JsonView::Arr(shown))
            &&& shown.len() == listed@.len()
            &&& shown[i] == listed@[i].0.shown_with_usage(listed@[i].1)
        }),
        volume_answer(VolumeDone::Quota(usage)) == Some(http::json_reply(200, usage.shown())),
        volume_answer(VolumeDone::Files(Some(entries))) == Some(http::json_reply(200, entries@)),
        volume_answer(VolumeDone::Files(None)) == Some(
            http::json_reply(200, JsonView::Arr(Seq::empty())),
        ),
        volume_answer(VolumeDone::Done) matches Some(reply) && reply.status == 200,
        volume_answer(VolumeDone::VolumeFailed { error, message }) matches Some(reply)
            && reply.status == volumes::volume_error_status(error) && (reply.body matches Some(body)
            && body.get("error"@) == Some(JsonView::Str(message@))),
        volume_answer(VolumeDone::FileFailed { file_error, message }) matches Some(reply)
            && reply.status == volumes::file_error_status(file_error) && (
        reply.body matches Some(body) && body.get("error"@) == Some(JsonView::Str(message@))),
{
    broadcast use crate::json::lemma_get_with;

}

/// The volume that is asked for is shown where the caller has it, and else told as missing.
pub proof fn law_the_volume_asked_for_is_shown(of_caller: Vec<VolumeRow>, id: u128, at: int)
    requires
        0 <= at <= of_caller@.len(),
        forall|j: int| 0 <= j < at ==> (#[trigger] of_caller@[j]).id != id,
        at < of_caller@.len() ==> of_caller@[at].id == id,
    ensures
        at < of_caller@.len() ==> volume_answer(VolumeDone::Volumes { volumes: of_caller, id })
            == Some(http::json_reply(200, of_caller@[at].shown())),
        at == of_caller@.len() ==> (volume_answer(
            VolumeDone::Volumes { volumes: of_caller, id },
        ) matches Some(reply) && reply.status == 404),
{
    volumes::law_the_first_volume_with_an_identifier(of_caller@, id, at);
}

} // verus!
