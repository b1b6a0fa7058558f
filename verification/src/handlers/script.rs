//! Scripts of a user.

use crate::handlers;
use crate::handlers::Owner;
use crate::http;
use crate::http::Reply;
use crate::identity;
use crate::identity::{TenantId, UserIdentity, UserIdentityView, ZaruTier};
use crate::json::{Json, JsonView};
use crate::text;
use vstd::prelude::*;

verus! {

/// Why an operation on a script failed.
#[derive(Clone, Copy, PartialEq, Eq, Structural, Debug)]
pub enum ScriptServiceError {
    NotFound,
    DuplicateName,
    TierLimitExceeded,
    Domain,
    Repository,
}

/// The status that a failed operation on a script is answered with.
pub open spec fn script_error_status(e: ScriptServiceError) -> u16 {
    match e {
        ScriptServiceError::NotFound => 404,
        ScriptServiceError::DuplicateName => 409,
        ScriptServiceError::TierLimitExceeded => 422,
        ScriptServiceError::Domain => 400,
        ScriptServiceError::Repository => 500,
    }
}

/// The answer to a failed operation on a script.
pub fn script_error_response(e: ScriptServiceError, message: &str) -> (r: Reply)
    ensures
        r@ == http::error_reply(script_error_status(e), message@),
{
    let status: u16 = match e {
        ScriptServiceError::NotFound => 404,
        ScriptServiceError::DuplicateName => 409,
        ScriptServiceError::TierLimitExceeded => 422,
        ScriptServiceError::Domain => 400,
        ScriptServiceError::Repository => 500,
    };
    Reply::error(status, message)
}

/// The answer to a request for a visibility that there is not.
pub open spec fn visibility_refusal(raw: Seq<char>) -> http::ReplyView {
    http::error_reply(
        400,
        "script visibility '"@ + raw + "' is not supported yet; only 'private' is accepted"@,
    )
}

/// The answer to a request for a visibility that there is not.
pub fn visibility_error(raw: &str) -> (r: Reply)
    ensures
        r@ == visibility_refusal(raw@),
{
    let message = "script visibility '".to_owned().concat(raw).concat(
        "' is not supported yet; only 'private' is accepted",
    );
    Reply::error(400, message.as_str())
}

/// Whether a request asks for no visibility, or for the private one.
pub open spec fn asks_private(raw: Option<Seq<char>>) -> bool {
    match raw {
        Some(v) => v == "private"@,
        None => true,
    }
}

/// Refuses every visibility but the private one.
pub fn require_private_visibility(raw: Option<&str>) -> (r: Result<(), Reply>)
    ensures
        if asks_private(text::opt_str_view(raw)) {
            r is Ok
        } else {
            r matches Err(reply) && reply@ == visibility_refusal(raw->Some_0@)
        },
{
    match raw {
        None => Ok(()),
        Some(v) => if text::str_eq(v, "private") {
            Ok(())
        } else {
            Err(visibility_error(v))
        },
    }
}

/// What a request says about a script.
pub struct ScriptRequestBody {
    pub name: String,
    pub description: String,
    pub code: String,
    pub tags: Vec<String>,
    pub visibility: Option<String>,
}

/// The order to create a script.
pub struct CreateScriptCommand {
    pub tenant_id: TenantId,
    pub created_by: String,
    pub zaru_tier: ZaruTier,
    pub name: String,
    pub description: String,
    pub code: String,
    pub tags: Vec<String>,
}

/// The order to change a script.
pub struct UpdateScriptCommand {
    pub name: String,
    pub description: String,
    pub code: String,
    pub tags: Vec<String>,
}

/// The answer where scripts are not stored.
pub open spec fn no_scripts() -> http::ReplyView {
    http::error_reply(503, "script service not configured"@)
}

/// The answer where scripts are not stored, if they are not.
pub fn script_service(configured: bool) -> (r: Result<(), Reply>)
    ensures
        if configured {
            r is Ok
        } else {
            r matches Err(reply) && reply@ == no_scripts()
        },
{
    if configured {
        Ok(())
    } else {
        Err(Reply::error(503, "script service not configured"))
    }
}

/// Why a request about a script is refused, if it is: the visibility is looked at
/// before it is known whether scripts are stored.
pub open spec fn write_refusal(visibility: Option<Seq<char>>, configured: bool) -> Option<
    http::ReplyView,
> {
    if !asks_private(visibility) {
        Some(visibility_refusal(visibility->Some_0))
    } else if !configured {
        Some(no_scripts())
    } else {
        None
    }
}

fn admit_write(visibility: &Option<String>, configured: bool) -> (r: Result<(), Reply>)
    ensures
        match write_refusal(text::opt_view(*visibility), configured) {
            Some(refusal) => r matches Err(reply) && reply@ == refusal,
            None => r is Ok,
        },
{
    match require_private_visibility(text::opt_str(visibility)) {
        Ok(_) => script_service(configured),
        Err(reply) => Err(reply),
    }
}

/// Whether an order creates a script as a request asks, for the caller.
pub open spec fn creates(
    order: CreateScriptCommand,
    body: ScriptRequestBody,
    caller: Option<UserIdentityView>,
    default_tenant: Seq<char>,
) -> bool {
    &&& order.tenant_id@ == handlers::tenant_of_identity(caller, default_tenant)
    &&& order.created_by@ == identity::sub_of(caller)
    &&& order.zaru_tier == identity::tier_of(caller)
    &&& order.name == body.name
    &&& order.description == body.description
    &&& order.code == body.code
    &&& order.tags == body.tags
}

/// Whether an order changes a script as a request asks.
pub open spec fn changes(order: UpdateScriptCommand, body: ScriptRequestBody) -> bool {
    &&& order.name == body.name
    &&& order.description == body.description
    &&& order.code == body.code
    &&& order.tags == body.tags
}

/// The order that a request to create a script leads to: the script belongs to the
/// caller.
pub fn create_script(
    body: ScriptRequestBody,
    caller: Option<&UserIdentity>,
    default_tenant: &TenantId,
    configured: bool,
) -> (r: Result<CreateScriptCommand, Reply>)
    ensures
        match write_refusal(text::opt_view(body.visibility), configured) {
            Some(refusal) => r matches Err(reply) && reply@ == refusal,
            None => r matches Ok(order) && creates(
                order,
                body,
                identity::opt_identity(caller),
                default_tenant@,
            ),
        },
{
    match admit_write(&body.visibility, configured) {
        Ok(_) => Ok(
            CreateScriptCommand {
                tenant_id: handlers::tenant_id_from_identity(caller, default_tenant),
                created_by: identity::user_sub(caller),
                zaru_tier: identity::user_tier(caller),
                name: body.name,
                description: body.description,
                code: body.code,
                tags: body.tags,
            },
        ),
        Err(reply) => Err(reply),
    }
}

/// The order that a request to change a script leads to.
pub fn update_script(body: ScriptRequestBody, configured: bool) -> (r: Result<
    UpdateScriptCommand,
    Reply,
>)
    ensures
        match write_refusal(text::opt_view(body.visibility), configured) {
            Some(refusal) => r matches Err(reply) && reply@ == refusal,
            None => r matches Ok(order) && changes(order, body),
        },
{
    match admit_write(&body.visibility, configured) {
        Ok(_) => Ok(
            UpdateScriptCommand {
                name: body.name,
                description: body.description,
                code: body.code,
                tags: body.tags,
            },
        ),
        Err(reply) => Err(reply),
    }
}

/// A script.
pub struct Script {
    pub id: String,
    pub tenant_id: Json,
    pub created_by: String,
    pub name: String,
    pub description: String,
    pub code: String,
    pub tags: Vec<String>,
    pub visibility: String,
    pub version: u32,
    pub created_at: Json,
    pub updated_at: Json,
}

impl Script {
    /// The script as it is shown.
    pub open spec fn shown(&self) -> JsonView {
        JsonView::object().with("id"@, JsonView::Str(self.id@)).with(
            "tenant_id"@,
            self.tenant_id@,
        ).with("created_by"@, JsonView::Str(self.created_by@)).with(
            "name"@,
            JsonView::Str(self.name@),
        ).with("description"@, JsonView::Str(self.description@)).with(
            "code"@,
            JsonView::Str(self.code@),
        ).with(
            "tags"@,
            JsonView::Arr(self.tags@.map_values(|t: String| JsonView::Str(t@))),
        ).with("visibility"@, JsonView::Str(self.visibility@)).with(
            "version"@,
            JsonView::Int(self.version as int),
        ).with("created_at"@, self.created_at@).with("updated_at"@, self.updated_at@)
    }

    /// Whether the script carries a tag.
    pub open spec fn tagged(&self, tag: Seq<char>) -> bool {
        text::views(self.tags@).contains(tag)
    }

    /// Whether the name or the description holds a text, in any case of letters.
    pub open spec fn mentions(&self, q: Seq<char>) -> bool {
        text::occurs(text::lowered(q), text::lowered(self.name@)) || text::occurs(
            text::lowered(q),
            text::lowered(self.description@),
        )
    }

    /// Whether the script is among those that a list asks for.
    pub open spec fn asked_for(&self, tag: Option<Seq<char>>, q: Option<Seq<char>>) -> bool {
        (tag matches Some(t) ==> self.tagged(t)) && (q matches Some(s) ==> self.mentions(s))
    }

    fn is_tagged(&self, tag: &str) -> (r: bool)
        ensures
            r == self.tagged(tag@),
    {
        let ghost names = text::views(self.tags@);
        let mut i: usize = 0;
        while i < self.tags.len()
            invariant
                i <= self.tags@.len(),
                names == text::views(self.tags@),
                forall|k: int| 0 <= k < i ==> names[k] != tag@,
            decreases self.tags@.len() - i,
        {
            assert(names[i as int] == self.tags@[i as int]@);
            if text::str_eq(self.tags[i].as_str(), tag) {
                return true;
            }
            i += 1;
        }
        false
    }

    /// Whether the script is among those that a list asks for.
    pub fn is_asked_for(&self, tag: Option<&str>, q: Option<&str>) -> (r: bool)
        ensures
            r == self.asked_for(text::opt_str_view(tag), text::opt_str_view(q)),
    {
        if let Some(t) = tag {
            if !self.is_tagged(t) {
                return false;
            }
        }
        if let Some(s) = q {
            let needle = text::ascii_lower(s);
            let name = text::ascii_lower(self.name.as_str());
            let description = text::ascii_lower(self.description.as_str());
            if !text::contains(name.as_str(), needle.as_str()) && !text::contains(
                description.as_str(),
                needle.as_str(),
            ) {
                return false;
            }
        }
        true
    }
}

/// The script as it is shown.
pub fn script_dto(s: &Script) -> (r: Json)
    ensures
        r@ == s.shown(),
{
    Json::object().with("id", Json::text(s.id.as_str())).with(
        "tenant_id",
        s.tenant_id.copy(),
    ).with("created_by", Json::text(s.created_by.as_str())).with(
        "name",
        Json::text(s.name.as_str()),
    ).with("description", Json::text(s.description.as_str())).with(
        "code",
        Json::text(s.code.as_str()),
    ).with("tags", Json::texts(&s.tags)).with("visibility", Json::text(s.visibility.as_str())).with(
        "version",
        Json::Int(s.version as i128),
    ).with("created_at", s.created_at.copy()).with("updated_at", s.updated_at.copy())
}

/// What is shown of those scripts that a list asks for, in their order.
pub open spec fn shown_scripts(
    scripts: Seq<Script>,
    tag: Option<Seq<char>>,
    q: Option<Seq<char>>,
) -> Seq<JsonView> {
    scripts.filter(|s: Script| s.asked_for(tag, q)).map_values(|s: Script| s.shown())
}

/// The answer that lists scripts: those that carry the tag, where one is given, and
/// mention the text, where one is given.
pub fn list_scripts_reply(scripts: &Vec<Script>, tag: Option<&str>, q: Option<&str>) -> (r: Reply)
    ensures
        r@ == http::json_reply(
            200,
            JsonView::Arr(
                shown_scripts(scripts@, text::opt_str_view(tag), text::opt_str_view(q)),
            ),
        ),
{
    let ghost wanted = |s: Script| s.asked_for(text::opt_str_view(tag), text::opt_str_view(q));
    let ghost show = |s: Script| s.shown();
    let mut items: Vec<Json> = Vec::new();
    let mut i: usize = 0;
    assert(scripts@.take(0).filter(wanted) =~= Seq::empty()) by {
        reveal(Seq::filter);
    }
    assert(crate::json::json_views(items@) =~= scripts@.take(0).filter(wanted).map_values(show));
    while i < scripts.len()
        invariant
            i <= scripts@.len(),
            wanted == (|s: Script| s.asked_for(text::opt_str_view(tag), text::opt_str_view(q))),
            show == (|s: Script| s.shown()),
            crate::json::json_views(items@) == scripts@.take(i as int).filter(wanted).map_values(
                show,
            ),
        decreases scripts@.len() - i,
    {
        let ghost before = scripts@.take(i as int).filter(wanted);
        proof {
            reveal(Seq::filter);
            assert(scripts@.take(i + 1).drop_last() =~= scripts@.take(i as int));
            assert(scripts@.take(i + 1).last() == scripts@[i as int]);
        }
        if scripts[i].is_asked_for(tag, q) {
            let ghost old_items = items@;
            items.push(script_dto(&scripts[i]));
            assert(crate::json::json_views(items@) =~= crate::json::json_views(old_items).push(
                scripts@[i as int].shown(),
            ));
            assert(before.push(scripts@[i as int]).map_values(show) =~= before.map_values(
                show,
            ).push(scripts@[i as int].shown()));
        }
        i += 1;
    }
    assert(scripts@.take(scripts@.len() as int) =~= scripts@);
    Reply::json(200, Json::array(items))
}

/// A former state of a script.
pub struct ScriptVersion {
    pub version: u32,
    pub updated_at: Json,
    pub updated_by: String,
}

impl ScriptVersion {
    /// The version as it is shown.
    pub open spec fn shown(&self) -> JsonView {
        JsonView::object().with("version"@, JsonView::Int(self.version as int)).with(
            "updated_at"@,
            self.updated_at@,
        ).with("updated_by"@, JsonView::Str(self.updated_by@))
    }
}

fn get_script_reply(script: &Script, versions: &Vec<ScriptVersion>) -> (r: Reply)
    ensures
        r@ == http::json_reply(
            200,
            script.shown().with(
                "versions"@,
                JsonView::Arr(versions@.map_values(|v: ScriptVersion| v.shown())),
            ),
        ),
{
    let mut items: Vec<Json> = Vec::new();
    let mut i: usize = 0;
    while i < versions.len()
        invariant
            i <= versions@.len(),
            items@.len() == i,
            forall|k: int| 0 <= k < i ==> #[trigger] items@[k]@ == versions@[k].shown(),
        decreases versions@.len() - i,
    {
        let v = &versions[i];
        items.push(
            Json::object().with("version", Json::Int(v.version as i128)).with(
                "updated_at",
                v.updated_at.copy(),
            ).with("updated_by", Json::text(v.updated_by.as_str())),
        );
        i += 1;
    }
    assert(crate::json::json_views(items@) =~= versions@.map_values(|v: ScriptVersion| v.shown()));
    Reply::json(200, script_dto(script).with("versions", Json::array(items)))
}

/// What a request about scripts asks for.
pub enum ScriptAsk {
    Create(ScriptRequestBody),
    List,
    Get { id: u128 },
    Update { id: u128, body: ScriptRequestBody },
    Delete { id: u128 },
}

/// What the service of scripts is called for.
pub enum ScriptCall {
    Create(CreateScriptCommand),
    List { owner: Owner },
    Get { id: u128, owner: Owner },
    Update { id: u128, owner: Owner, order: UpdateScriptCommand },
    Delete { id: u128, owner: Owner },
}

/// Why a request about scripts is refused, if it is.
pub open spec fn refusal(ask: ScriptAsk, configured: bool) -> Option<http::ReplyView> {
    match ask {
        ScriptAsk::Create(body) => write_refusal(text::opt_view(body.visibility), configured),
        ScriptAsk::Update { body, .. } => write_refusal(
            text::opt_view(body.visibility),
            configured,
        ),
        _ => if configured {
            None
        } else {
            Some(no_scripts())
        },
    }
}

/// Whether a call is the one that a caller asks for: it is about the caller's own
/// scripts.
pub open spec fn is_call(
    call: ScriptCall,
    ask: ScriptAsk,
    caller: Option<UserIdentityView>,
    default_tenant: Seq<char>,
) -> bool {
    let whose = handlers::owner_of(caller, default_tenant);
    match (ask, call) {
        (ScriptAsk::Create(body), ScriptCall::Create(order)) => creates(
            order,
            body,
            caller,
            default_tenant,
        ),
        (ScriptAsk::List, ScriptCall::List { owner }) => owner@ == whose,
        (ScriptAsk::Get { id: asked }, ScriptCall::Get { id, owner }) => id == asked && owner@
            == whose,
        (
            ScriptAsk::Update { id: asked, body },
            ScriptCall::Update { id, owner, order },
        ) => id == asked && owner@ == whose && changes(order, body),
        (ScriptAsk::Delete { id: asked }, ScriptCall::Delete { id, owner }) => id == asked
            && owner@ == whose,
        _ => false,
    }
}

/// What a request about scripts leads to: a call of their service, or the answer that
/// refuses it.
pub fn begin_script(
    ask: ScriptAsk,
    caller: Option<&UserIdentity>,
    default_tenant: &TenantId,
    configured: bool,
) -> (r: Result<ScriptCall, Reply>)
    ensures
        match refusal(ask, configured) {
            Some(refused) => r matches Err(reply) && reply@ == refused,
            None => r matches Ok(call) && is_call(
                call,
                ask,
                identity::opt_identity(caller),
                default_tenant@,
            ),
        },
{
    match ask {
        ScriptAsk::Create(body) => match create_script(body, caller, default_tenant, configured) {
            Ok(order) => Ok(ScriptCall::Create(order)),
            Err(reply) => Err(reply),
        },
        ScriptAsk::Update { id, body } => match update_script(body, configured) {
            Ok(order) => Ok(
                ScriptCall::Update {
                    id,
                    owner: handlers::request_owner(caller, default_tenant),
                    order,
                },
            ),
            Err(reply) => Err(reply),
        },
        ScriptAsk::List => match script_service(configured) {
            Ok(_) => Ok(
                ScriptCall::List { owner: handlers::request_owner(caller, default_tenant) },
            ),
            Err(reply) => Err(reply),
        },
        ScriptAsk::Get { id } => match script_service(configured) {
            Ok(_) => Ok(
                ScriptCall::Get { id, owner: handlers::request_owner(caller, default_tenant) },
            ),
            Err(reply) => Err(reply),
        },
        ScriptAsk::Delete { id } => match script_service(configured) {
            Ok(_) => Ok(
                ScriptCall::Delete { id, owner: handlers::request_owner(caller, default_tenant) },
            ),
            Err(reply) => Err(reply),
        },
    }
}

/// What came of a call of the service of scripts.
pub enum ScriptDone {
    Created(Script),
    /// The scripts of the caller, and by what tag and text the request narrows them.
    Listed { scripts: Vec<Script>, tag: Option<String>, q: Option<String> },
    Found(Script),
    /// The versions of a script that was found.
    VersionsFound { script: Script, versions: Vec<ScriptVersion> },
    Updated(Script),
    Deleted,
}

/// What is done next for a request about scripts.
pub enum ScriptNext {
    /// The versions of the script are looked up.
    FindVersions(Script),
    /// The request is answered.
    Answer(Reply),
}

/// What a request about scripts is answered; nothing yet, where a script was found
/// and its versions are to be looked up.
pub open spec fn script_answer(
    outcome: Result<ScriptDone, (ScriptServiceError, String)>,
) -> Option<http::ReplyView> {
    match outcome {
        Ok(ScriptDone::Created(script)) => Some(http::json_reply(201, script.shown())),
        Ok(ScriptDone::Listed { scripts, tag, q }) => Some(
            http::json_reply(
                200,
                JsonView::Arr(shown_scripts(scripts@, text::opt_view(tag), text::opt_view(q))),
            ),
        ),
        Ok(ScriptDone::Found(_)) => None,
        Ok(ScriptDone::VersionsFound { script, versions }) => Some(
            http::json_reply(
                200,
                script.shown().with(
                    "versions"@,
                    JsonView::Arr(versions@.map_values(|v: ScriptVersion| v.shown())),
                ),
            ),
        ),
        Ok(ScriptDone::Updated(script)) => Some(http::json_reply(200, script.shown())),
        Ok(ScriptDone::Deleted) => Some(http::empty_reply(204)),
        Err((e, message)) => Some(http::error_reply(script_error_status(e), message@)),
    }
}

/// What is done next for a request about scripts, once the service was called.
pub fn script_reply(outcome: Result<ScriptDone, (ScriptServiceError, String)>) -> (r: ScriptNext)
    ensures
        match script_answer(outcome) {
            Some(answer) => r matches ScriptNext::Answer(reply) && reply@ == answer,
            None => outcome matches Ok(ScriptDone::Found(script)) && r == ScriptNext::FindVersions(
                script,
            ),
        },
{
    match outcome {
        Ok(ScriptDone::Created(script)) => ScriptNext::Answer(
            Reply::json(201, script_dto(&script)),
        ),
        Ok(ScriptDone::Listed { scripts, tag, q }) => ScriptNext::Answer(
            list_scripts_reply(&scripts, text::opt_str(&tag), text::opt_str(&q)),
        ),
        Ok(ScriptDone::Found(script)) => ScriptNext::FindVersions(script),
        Ok(ScriptDone::VersionsFound { script, versions }) => ScriptNext::Answer(
            get_script_reply(&script, &versions),
        ),
        Ok(ScriptDone::Updated(script)) => ScriptNext::Answer(
            Reply::json(200, script_dto(&script)),
        ),
        Ok(ScriptDone::Deleted) => ScriptNext::Answer(Reply::empty(204)),
        Err((e, message)) => ScriptNext::Answer(script_error_response(e, message.as_str())),
    }
}

/// A list shows exactly the scripts that are asked for, and where nothing narrows it,
/// all of them.
pub proof fn law_lists_show_what_is_asked_for(
    scripts: Seq<Script>,
    tag: Option<Seq<char>>,
    q: Option<Seq<char>>,
)
    ensures
        forall|i: int|
            0 <= i < scripts.len() && (#[trigger] scripts[i]).asked_for(tag, q) ==> shown_scripts(
                scripts,
                tag,
                q,
            ).contains(scripts[i].shown()),
        shown_scripts(scripts, None, None) == scripts.map_values(|s: Script| s.shown()),
{
    let wanted = |s: Script| s.asked_for(tag, q);
    broadcast use vstd::seq_lib::group_filter_ensures;

    assert forall|i: int| 0 <= i < scripts.len() && (#[trigger] scripts[i]).asked_for(
        tag,
        q,
    ) implies shown_scripts(scripts, tag, q).contains(scripts[i].shown()) by {
        assert(wanted(scripts[i]));
        assert(scripts.filter(wanted).contains(scripts[i]));
        let k = choose|k: int|
            0 <= k < scripts.filter(wanted).len() && scripts.filter(wanted)[k] == scripts[i];
        assert(shown_scripts(scripts, tag, q)[k] == scripts[i].shown());
    }
    lemma_filter_keeps_all(scripts, |s: Script| s.asked_for(None, None));
}

proof fn lemma_filter_keeps_all(scripts: Seq<Script>, wanted: spec_fn(Script) -> bool)
    requires
        forall|s: Script| #[trigger] wanted(s),
    ensures
        scripts.filter(wanted) == scripts,
    decreases scripts.len(),
{
    reveal(Seq::filter);
    if scripts.len() > 0 {
        lemma_filter_keeps_all(scripts.drop_last(), wanted);
        assert(wanted(scripts.last()));
        assert(scripts =~= scripts.drop_last().push(scripts.last()));
    }
}

/// The script as it is shown: each part is found under its own name, as it is.
pub proof fn law_script_shown_holds_its_parts(
    row: Script,
)
    ensures
        row.shown().get("id"@) == Some(JsonView::Str(row.id@)),
        row.shown().get("tenant_id"@) == Some(row.tenant_id@),
        row.shown().get("created_by"@) == Some(JsonView::Str(row.created_by@)),
        row.shown().get("name"@) == Some(JsonView::Str(row.name@)),
        row.shown().get("description"@) == Some(JsonView::Str(row.description@)),
        row.shown().get("code"@) == Some(JsonView::Str(row.code@)),
        row.shown().get("tags"@) == Some(JsonView::Arr(row.tags@.map_values(|t: String| JsonView::Str(t@)))),
        row.shown().get("visibility"@) == Some(JsonView::Str(row.visibility@)),
        row.shown().get("version"@) == Some(JsonView::Int(row.version as int)),
        row.shown().get("created_at"@) == Some(row.created_at@),
        row.shown().get("updated_at"@) == Some(row.updated_at@),
{
    broadcast use crate::json::lemma_get_with;

    reveal_strlit("id");
    reveal_strlit("tenant_id");
    reveal_strlit("created_by");
    reveal_strlit("name");
    reveal_strlit("description");
    reveal_strlit("code");
    reveal_strlit("tags");
    reveal_strlit("visibility");
    reveal_strlit("version");
    reveal_strlit("created_at");
    reveal_strlit("updated_at");
    assert("id"@.len() == 2 && "tenant_id"@.len() == 9 && "created_by"@.len() == 10 && "name"@.len() == 4 && "description"@.len() == 11 && "code"@.len() == 4 && "tags"@.len() == 4 && "visibility"@.len() == 10 && "version"@.len() == 7 && "created_at"@.len() == 10 && "updated_at"@.len() == 10 && "code"@[0] == 'c' && "name"@[0] == 'n' && "tags"@[0] == 't' && "visibility"@[0] == 'v' && "created_by"@[0] == 'c' && "created_at"@[8] == 'a' && "created_by"@[8] == 'b' && "created_at"@[0] == 'c' && "updated_at"@[0] == 'u');
}

/// The version as it is shown: each part is found under its own name, as it is.
pub proof fn law_script_version_shown_holds_its_parts(
    row: ScriptVersion,
)
    ensures
        row.shown().get("version"@) == Some(JsonView::Int(row.version as int)),
        row.shown().get("updated_at"@) == Some(row.updated_at@),
        row.shown().get("updated_by"@) == Some(JsonView::Str(row.updated_by@)),
{
    broadcast use crate::json::lemma_get_with;

    reveal_strlit("version");
    reveal_strlit("updated_at");
    reveal_strlit("updated_by");
    assert("version"@.len() == 7 && "updated_at"@.len() == 10 && "updated_by"@.len() == 10 && "updated_by"@[8] == 'b' && "updated_at"@[8] == 'a');
}

/// What goes wrong with a script is answered by its kind.
pub proof fn law_script_failures_by_status(e: ScriptServiceError, message: String)
    ensures
        script_error_status(e) == 404 <==> e == ScriptServiceError::NotFound,
        script_error_status(e) == 409 <==> e == ScriptServiceError::DuplicateName,
        script_error_status(e) == 422 <==> e == ScriptServiceError::TierLimitExceeded,
        script_error_status(e) == 400 <==> e == ScriptServiceError::Domain,
        script_error_status(e) == 500 <==> e == ScriptServiceError::Repository,
        script_answer(Err((e, message))) matches Some(reply) && reply.status
            == script_error_status(e) && (reply.body matches Some(body) && body.get("error"@)
            == Some(JsonView::Str(message@))),
{
    broadcast use crate::json::lemma_get_with;

}

/// Scripts are private: a body that asks for anything else is refused, before the want of
/// the service is.
pub proof fn law_scripts_are_private(body: ScriptRequestBody, id: u128, configured: bool)
    ensures
        body.visibility is None || text::opt_view(body.visibility) == Some("private"@) ==> {
            &&& refusal(ScriptAsk::Create(body), true) is None
            &&& refusal(ScriptAsk::Update { id, body }, true) is None
            &&& refusal(ScriptAsk::Create(body), false) matches Some(r) && r.status == 503
        },
        body.visibility is Some && text::opt_view(body.visibility) != Some("private"@) ==> {
            &&& refusal(ScriptAsk::Create(body), configured) matches Some(r) && r.status == 400
            &&& refusal(ScriptAsk::Update { id, body }, configured) matches Some(r) && r.status
                == 400
        },
        refusal(ScriptAsk::List, true) is None,
        refusal(ScriptAsk::Get { id }, true) is None,
        refusal(ScriptAsk::Delete { id }, true) is None,
        refusal(ScriptAsk::List, false) is Some,
        refusal(ScriptAsk::Get { id }, false) is Some,
        refusal(ScriptAsk::Delete { id }, false) is Some,
{
}

/// A call on a script is of the caller, for the one that is asked for, with what the body
/// says.
pub proof fn law_script_calls_are_the_callers(
    call: ScriptCall,
    body: ScriptRequestBody,
    asked: u128,
    caller: Option<UserIdentityView>,
    default: Seq<char>,
)
    ensures
        is_call(call, ScriptAsk::Create(body), caller, default) ==> (
        call matches ScriptCall::Create(order) && order.tenant_id@ == handlers::tenant_of_identity(
            caller,
            default,
        ) && order.created_by@ == identity::sub_of(caller) && order.zaru_tier == identity::tier_of(
            caller,
        ) && order.name == body.name && order.description == body.description && order.code
            == body.code && order.tags == body.tags),
        is_call(call, ScriptAsk::Update { id: asked, body }, caller, default) ==> (
        call matches ScriptCall::Update { id, owner, order } && id == asked && owner@
            == handlers::owner_of(caller, default) && order.name == body.name && order.description
            == body.description && order.code == body.code && order.tags == body.tags),
        is_call(call, ScriptAsk::List, caller, default) ==> (call matches ScriptCall::List {
            owner,
        } && owner@ == handlers::owner_of(caller, default)),
        is_call(call, ScriptAsk::Get { id: asked }, caller, default) ==> (
        call matches ScriptCall::Get { id, owner } && id == asked && owner@ == handlers::owner_of(
            caller,
            default,
        )),
        is_call(call, ScriptAsk::Delete { id: asked }, caller, default) ==> (
        call matches ScriptCall::Delete { id, owner } && id == asked && owner@
            == handlers::owner_of(caller, default)),
{
}

/// A script is in a list where it has the tag that is asked for and speaks of what is
/// sought, in its name or its description, whatever the case.
pub proof fn law_scripts_are_sought(script: Script, tag: Seq<char>, q: Seq<char>, i: int)
    ensures
        script.asked_for(None, None),
        0 <= i < script.tags@.len() && script.tags@[i]@ == tag ==> script.asked_for(
            Some(tag),
            None,
        ),
        script.asked_for(Some(tag), None) ==> text::views(script.tags@).contains(tag),
        text::lowered(script.name@) == text::lowered(q) ==> script.asked_for(None, Some(q)),
        text::lowered(script.description@) == text::lowered(q) ==> script.asked_for(None, Some(q)),
        script.asked_for(None, Some(q)) <==> text::occurs(
            text::lowered(q),
            text::lowered(script.name@),
        ) || text::occurs(text::lowered(q), text::lowered(script.description@)),
        script.asked_for(Some(tag), Some(q)) <==> script.asked_for(Some(tag), None)
            && script.asked_for(None, Some(q)),
{
    if 0 <= i < script.tags@.len() && script.tags@[i]@ == tag {
        assert(text::views(script.tags@)[i] == tag);
    }
    let sought = text::lowered(q);
    assert(sought.subrange(0, sought.len() as int) =~= sought);
    assert(text::occurs_at(sought, sought, 0));
}

/// Every script that is asked for is listed, in its order, and no other.
pub proof fn law_scripts_are_listed_one_by_one(
    scripts: Seq<Script>,
    last: Script,
    tag: Option<Seq<char>>,
    q: Option<Seq<char>>,
)
    ensures
        last.asked_for(tag, q) ==> shown_scripts(scripts.push(last), tag, q) == shown_scripts(
            scripts,
            tag,
            q,
        ).push(last.shown()),
        !last.asked_for(tag, q) ==> shown_scripts(scripts.push(last), tag, q) == shown_scripts(
            scripts,
            tag,
            q,
        ),
        shown_scripts(Seq::empty(), tag, q).len() == 0,
{
    reveal(Seq::filter);
    assert(scripts.push(last).drop_last() =~= scripts);
    assert(last.asked_for(tag, q) ==> shown_scripts(scripts.push(last), tag, q) =~= shown_scripts(
        scripts,
        tag,
        q,
    ).push(last.shown()));
}

/// What was done to a script is answered: a new one 201, one with every version, and the
/// end of one without a body.
pub proof fn law_script_answers(
    script: Script,
    scripts: Vec<Script>,
    tag: Option<String>,
    q: Option<String>,
    versions: Vec<ScriptVersion>,
    i: int,
)
    requires
        0 <= i < versions@.len(),
    ensures
        script_answer(Ok(ScriptDone::Created(script))) == Some(
            http::json_reply(201, script.shown()),
        ),
        script_answer(Ok(ScriptDone::Updated(script))) == Some(
            http::json_reply(200, script.shown()),
        ),
        script_answer(Ok(ScriptDone::Deleted)) == Some(http::empty_reply(204)),
        script_answer(Ok(ScriptDone::Found(script))) is None,
        script_answer(Ok(ScriptDone::Listed { scripts, tag, q })) == Some(
            http::json_reply(
                200,
                JsonView::Arr(shown_scripts(scripts@, text::opt_view(tag), text::opt_view(q))),
            ),
        ),
        ({
            &&& script_answer(Ok(ScriptDone::VersionsFound { script, versions })) matches Some(
                reply,
            )
            &&& reply.status == 200
            &&& reply.body matches Some(body)
            &&& body.get("id"@) == Some(JsonView::Str(script.id@))
            &&& body.get("versions"@) matches Some(JsonView::Arr(told))
            &&& told.len() == versions@.len()
            &&& told[i] == versions@[i].shown()
        }),
{
    broadcast use crate::json::lemma_get_with;

    reveal_strlit("id");
    reveal_strlit("tenant_id");
    reveal_strlit("created_by");
    reveal_strlit("name");
    reveal_strlit("description");
    reveal_strlit("code");
    reveal_strlit("tags");
    reveal_strlit("visibility");
    reveal_strlit("version");
    reveal_strlit("created_at");
    reveal_strlit("updated_at");
    reveal_strlit("versions");
    assert("id"@.len() == 2 && "tenant_id"@.len() == 9 && "created_by"@.len() == 10 && "name"@.len() == 4 && "description"@.len() == 11 && "code"@.len() == 4 && "tags"@.len() == 4 && "visibility"@.len() == 10 && "version"@.len() == 7 && "created_at"@.len() == 10 && "updated_at"@.len() == 10 && "versions"@.len() == 8 && "code"@[0] == 'c' && "name"@[0] == 'n' && "tags"@[0] == 't' && "visibility"@[0] == 'v' && "created_by"@[0] == 'c' && "created_at"@[8] == 'a' && "created_by"@[8] == 'b' && "created_at"@[0] == 'c' && "updated_at"@[0] == 'u');
}

} // verus!
