//! API keys: how they are made, stored and checked.

use crate::identity::{IdentityKind, IdentityKindView, TenantId, UserIdentity, UserIdentityView};
use crate::http::Reply;
use crate::json::{Json, JsonView};
use crate::operator_read_models::Moment;
use crate::{http, operator_read_models, primitives, text};
use vstd::prelude::*;

verus! {

/// The columns of a stored key that hold what its owner's claims say: the role of
/// an operator, the tier of a consumer.
pub open spec fn claim_columns(kind: IdentityKindView) -> (Option<Seq<char>>, Option<Seq<char>>) {
    match kind {
        IdentityKindView::Operator { aegis_role } => (Some(aegis_role.claim()), None),
        IdentityKindView::ConsumerUser { zaru_tier, .. } => (None, Some(zaru_tier.claim())),
        _ => (None, None),
    }
}

/// The role and tier columns of a key of the given owner. Both hold bare claims.
pub fn identity_claim_columns(identity: &UserIdentity) -> (r: (Option<String>, Option<String>))
    ensures
        (text::opt_view(r.0), text::opt_view(r.1)) == claim_columns(identity.identity_kind@),
{
    match &identity.identity_kind {
        IdentityKind::Operator { aegis_role } => (Some(aegis_role.as_claim_str().to_owned()), None),
        IdentityKind::ConsumerUser { zaru_tier, .. } => (
            None,
            Some(zaru_tier.to_claim_str().to_owned()),
        ),
        _ => (None, None),
    }
}

/// The digit or letter with the given number: ten digits, then the small letters,
/// then the capitals.
pub open spec fn key_char_spec(index: u8) -> char {
    if index < 10 {
        (48 + index) as char
    } else if index < 36 {
        (97 + index - 10) as char
    } else {
        (65 + index - 36) as char
    }
}

/// The digit or letter with the given number.
pub fn key_char(index: u8) -> (c: char)
    requires
        index < 62,
    ensures
        c == key_char_spec(index),
        ('0' <= c && c <= '9') || ('a' <= c && c <= 'z') || ('A' <= c && c <= 'Z'),
{
    if index < 10 {
        (48 + index) as char
    } else if index < 36 {
        (97 + (index - 10)) as char
    } else {
        (65 + (index - 36)) as char
    }
}

/// Whether a text has the shape of a key: a prefix, then forty digits or letters.
pub open spec fn is_key_shaped(key: Seq<char>) -> bool {
    &&& key.len() == 46
    &&& "aegis_"@.is_prefix_of(key)
    &&& forall|i: int|
        6 <= i < 46 ==> ('0' <= #[trigger] key[i] && key[i] <= '9') || ('a' <= key[i] && key[i]
            <= 'z') || ('A' <= key[i] && key[i] <= 'Z')
}

/// The key that a sequence of random numbers makes.
pub open spec fn key_of(indices: Seq<u8>) -> Seq<char> {
    "aegis_"@ + indices.map_values(|i: u8| key_char_spec(i))
}

/// The key that a sequence of random numbers makes.
pub fn key_from_indices(indices: &Vec<u8>) -> (key: String)
    requires
        forall|i: int| 0 <= i < indices@.len() ==> #[trigger] indices@[i] < 62,
    ensures
        key@ == key_of(indices@),
        indices@.len() == 40 ==> is_key_shaped(key@),
{
    let mut key = "aegis_".to_owned();
    proof {
        reveal_strlit("aegis_");
    }
    assert(key@ =~= "aegis_"@ + Seq::<char>::empty());
    let mut n: usize = 0;
    while n < indices.len()
        invariant
            n <= indices@.len(),
            "aegis_"@.len() == 6,
            key@.len() == 6 + n,
            "aegis_"@.is_prefix_of(key@),
            forall|i: int| 0 <= i < indices@.len() ==> #[trigger] indices@[i] < 62,
            forall|i: int| 0 <= i < n ==> key@[6 + i] == key_char_spec(#[trigger] indices@[i]),
            forall|i: int|
                6 <= i < 6 + n ==> ('0' <= #[trigger] key@[i] && key@[i] <= '9') || ('a' <= key@[i]
                    && key@[i] <= 'z') || ('A' <= key@[i] && key@[i] <= 'Z'),
        decreases indices@.len() - n,
    {
        key.push(key_char(indices[n]));
        n += 1;
    }
    assert(key@ =~= key_of(indices@)) by {
        assert forall|i: int| 0 <= i < key@.len() implies key@[i] == key_of(indices@)[i] by {
            if i >= 6 {
                assert(indices@[i - 6] == indices@[i - 6]);
                assert(key@[6 + (i - 6)] == key_char_spec(indices@[i - 6]));
            }
        }
    }
    key
}

/// Makes a new key at random.
pub fn generate_api_key() -> (key: String)
    ensures
        is_key_shaped(key@),
{
    let mut indices: Vec<u8> = Vec::new();
    while indices.len() < 40
        invariant
            indices@.len() <= 40,
            forall|i: int| 0 <= i < indices@.len() ==> #[trigger] indices@[i] < 62,
        decreases 40 - indices@.len(),
    {
        indices.push(primitives::random_below(62));
    }
    key_from_indices(&indices)
}

/// The digest of a key, as it is stored.
pub open spec fn key_hash(key: Seq<char>) -> Seq<char> {
    primitives::hex_text(primitives::sha256_digest(vstd::utf8::encode_utf8(key)))
}

/// The SHA-256 digest of a key, in hexadecimal notation.
pub fn hash_key(key: &str) -> (r: String)
    ensures
        r@ == key_hash(key@),
        r@.len() == 64,
{
    let digest = primitives::sha256(key.as_bytes());
    primitives::hex_encode(digest.as_slice())
}

/// The answer where no key repository is there.
pub open spec fn not_configured() -> http::ReplyView {
    http::error_reply(503, "API key repository not configured"@)
}

fn not_configured_reply() -> (r: Reply)
    ensures
        r@ == not_configured(),
{
    Reply::error(503, "API key repository not configured")
}

/// What is shown of a stored key. The key itself is not stored.
pub struct ApiKeySummary {
    pub id: String,
    pub name: String,
    pub scopes: Json,
    pub expires_at: Option<Moment>,
    pub last_used_at: Option<Moment>,
    pub created_at: Moment,
    pub status: String,
}

impl ApiKeySummary {
    /// The key as it is shown.
    pub open spec fn shown(&self) -> JsonView {
        JsonView::object().with("id"@, JsonView::Str(self.id@)).with(
            "name"@,
            JsonView::Str(self.name@),
        ).with("scopes"@, self.scopes@).with(
            "expires_at"@,
            operator_read_models::opt_moment_shown(self.expires_at),
        ).with("last_used_at"@, operator_read_models::opt_moment_shown(self.last_used_at)).with(
            "created_at"@,
            operator_read_models::moment_shown(self.created_at),
        ).with("status"@, JsonView::Str(self.status@))
    }

    fn show(&self) -> (r: Json)
        ensures
            r@ == self.shown(),
    {
        Json::object().with("id", Json::text(self.id.as_str())).with(
            "name",
            Json::text(self.name.as_str()),
        ).with("scopes", self.scopes.copy()).with(
            "expires_at",
            operator_read_models::show_opt_moment(self.expires_at),
        ).with("last_used_at", operator_read_models::show_opt_moment(self.last_used_at)).with(
            "created_at",
            operator_read_models::show_moment(self.created_at),
        ).with(
            "status",
            Json::text(self.status.as_str()),
        )
    }
}

/// The answer that lists keys; the outcome is missing where keys are not stored.
pub fn list_api_keys_reply(outcome: Option<Result<Vec<ApiKeySummary>, String>>) -> (r: Reply)
    ensures
        r@ == (match outcome {
            None => not_configured(),
            Some(Ok(rows)) => http::json_reply(
                200,
                JsonView::object().with(
                    "api_keys"@,
                    JsonView::Arr(rows@.map_values(|k: ApiKeySummary| k.shown())),
                ),
            ),
            Some(Err(e)) => http::error_reply(500, e@),
        }),
{
    match outcome {
        None => Reply::error(503, "API key repository not configured"),
        Some(Ok(rows)) => {
            let mut items: Vec<Json> = Vec::new();
            let mut i: usize = 0;
            while i < rows.len()
                invariant
                    i <= rows@.len(),
                    items@.len() == i,
                    forall|k: int| 0 <= k < i ==> #[trigger] items@[k]@ == rows@[k].shown(),
                decreases rows@.len() - i,
            {
                items.push(rows[i].show());
                i += 1;
            }
            assert(crate::json::json_views(items@) =~= rows@.map_values(
                |k: ApiKeySummary| k.shown(),
            ));
            Reply::json(200, Json::object().with("api_keys", Json::array(items)))
        },
        Some(Err(e)) => Reply::error(500, e.as_str()),
    }
}

/// A key as it goes into the repository.
pub struct NewApiKey {
    pub id: u128,
    pub user_id: String,
    pub name: String,
    pub key_hash: String,
    pub scopes: Vec<String>,
    pub expires_at: Option<Moment>,
    pub tenant_id: String,
    pub aegis_role: Option<String>,
    pub zaru_tier: Option<String>,
}

/// Whether a key may be created, and if not, what the request is answered. The
/// length of the name is counted in bytes.
pub open spec fn create_refusal(configured: bool, name: Seq<char>) -> Option<http::ReplyView> {
    let len = vstd::utf8::encode_utf8(name).len() as usize;
    if !configured {
        Some(not_configured())
    } else if len == 0 || len > 64 {
        Some(http::error_reply(400, "name must be between 1 and 64 characters"@))
    } else {
        None
    }
}

/// What a request says about the key to create.
pub struct CreateApiKeyRequest {
    pub name: String,
    pub scopes: Vec<String>,
    pub expires_at: Option<Moment>,
}

/// Whether a row stores the given key as the request asks, under the name of its
/// owner.
pub open spec fn stores_key(
    row: NewApiKey,
    request: CreateApiKeyRequest,
    owner: UserIdentityView,
    tenant: Seq<char>,
    key: Seq<char>,
) -> bool {
    &&& row.user_id@ == owner.sub
    &&& row.name == request.name
    &&& row.key_hash@ == key_hash(key)
    &&& row.scopes == request.scopes
    &&& row.expires_at == request.expires_at
    &&& row.tenant_id@ == tenant
    &&& (text::opt_view(row.aegis_role), text::opt_view(row.zaru_tier)) == claim_columns(
        owner.identity_kind,
    )
}

/// Decides on a request to create a key: the row to store for the given key, or
/// the answer that refuses it.
pub fn create_api_key_with(
    configured: bool,
    identity: &UserIdentity,
    tenant: &TenantId,
    request: CreateApiKeyRequest,
    id: u128,
    key: &str,
) -> (r: Result<NewApiKey, Reply>)
    ensures
        match create_refusal(configured, request.name@) {
            Some(refusal) => r matches Err(reply) && reply@ == refusal,
            None => r matches Ok(row) && row.id == id && stores_key(
                row,
                request,
                identity@,
                tenant@,
                key@,
            ),
        },
{
    if !configured {
        return Err(not_configured_reply());
    }
    let len: usize = request.name.as_str().len();
    if len == 0 || len > 64 {
        return Err(Reply::error(400, "name must be between 1 and 64 characters"));
    }
    let (aegis_role, zaru_tier) = identity_claim_columns(identity);
    Ok(
        NewApiKey {
            id,
            user_id: identity.sub.clone(),
            name: request.name,
            key_hash: hash_key(key),
            scopes: request.scopes,
            expires_at: request.expires_at,
            tenant_id: tenant.as_str().to_owned(),
            aegis_role,
            zaru_tier,
        },
    )
}

/// Decides on a request to create a key: a new key and the row that stores it, or
/// the answer that refuses the request.
pub fn create_api_key(
    configured: bool,
    identity: &UserIdentity,
    tenant: &TenantId,
    request: CreateApiKeyRequest,
) -> (r: Result<(NewApiKey, String), Reply>)
    ensures
        match create_refusal(configured, request.name@) {
            Some(refusal) => r matches Err(reply) && reply@ == refusal,
            None => r matches Ok((row, key)) && is_key_shaped(key@) && primitives::is_random_uuid(
                row.id,
            ) && stores_key(row, request, identity@, tenant@, key@),
        },
{
    let key = generate_api_key();
    let id: u128 = primitives::random_uuid();
    match create_api_key_with(configured, identity, tenant, request, id, key.as_str()) {
        Ok(row) => Ok((row, key)),
        Err(reply) => Err(reply),
    }
}

/// The answer to a request to create a key, once it was to be stored. It alone shows
/// the key.
pub open spec fn created_answer(
    key: Seq<char>,
    outcome: Result<ApiKeySummary, String>,
) -> http::ReplyView {
    match outcome {
        Ok(stored) => http::json_reply(
            201,
            JsonView::object().with("id"@, JsonView::Str(stored.id@)).with(
                "name"@,
                JsonView::Str(stored.name@),
            ).with("key"@, JsonView::Str(key)).with("scopes"@, stored.scopes@).with(
                "expires_at"@,
                operator_read_models::opt_moment_shown(stored.expires_at),
            ).with("created_at"@, operator_read_models::moment_shown(stored.created_at)),
        ),
        Err(e) => http::error_reply(500, e@),
    }
}

/// The answer to a request to create a key, once it was to be stored.
pub fn created_api_key_reply(key: &str, outcome: Result<ApiKeySummary, String>) -> (r: Reply)
    ensures
        r@ == created_answer(key@, outcome),
{
    match outcome {
        Ok(stored) => Reply::json(
            201,
            Json::object().with("id", Json::text(stored.id.as_str())).with(
                "name",
                Json::text(stored.name.as_str()),
            ).with("key", Json::text(key)).with("scopes", stored.scopes.copy()).with(
                "expires_at",
                operator_read_models::show_opt_moment(stored.expires_at),
            ).with("created_at", operator_read_models::show_moment(stored.created_at)),
        ),
        Err(e) => Reply::error(500, e.as_str()),
    }
}

/// What came of an attempt to revoke a key.
pub enum RevokeOutcome {
    Revoked,
    NotFound,
    Failed(String),
}

/// The answer to a request to revoke a key.
pub open spec fn revoke_answer(outcome: RevokeOutcome) -> http::ReplyView {
    match outcome {
        RevokeOutcome::Revoked => http::json_reply(
            200,
            JsonView::object().with("message"@, JsonView::Str("API key revoked"@)),
        ),
        RevokeOutcome::NotFound => http::error_reply(404, "API key not found or already revoked"@),
        RevokeOutcome::Failed(e) => http::error_reply(500, e@),
    }
}

/// The answer to a request to revoke a key; `None` where no repository is there.
pub fn revoke_api_key_reply(outcome: Option<RevokeOutcome>) -> (r: Reply)
    ensures
        r@ == (match outcome {
            Some(o) => revoke_answer(o),
            None => not_configured(),
        }),
{
    match outcome {
        None => not_configured_reply(),
        Some(RevokeOutcome::Revoked) => Reply::json(
            200,
            Json::object().with("message", Json::text("API key revoked")),
        ),
        Some(RevokeOutcome::NotFound) => Reply::error(404, "API key not found or already revoked"),
        Some(RevokeOutcome::Failed(e)) => Reply::error(500, e.as_str()),
    }
}

/// The key in an `Authorization` header, where it has the form of one.
pub open spec fn key_in_header(header: Option<Seq<char>>) -> Option<Seq<char>> {
    match header {
        Some(h) => if "Bearer "@.is_prefix_of(h) {
            let token = h.skip("Bearer "@.len() as int);
            if "aegis_"@.is_prefix_of(token) {
                Some(token)
            } else {
                None
            }
        } else {
            None
        },
        None => None,
    }
}

/// Decides on a request to validate a key: the hash to look up, or the answer that
/// refuses it.
pub fn validate_api_key(authorization: Option<&str>, configured: bool) -> (r: Result<
    String,
    Reply,
>)
    ensures
        match key_in_header(text::opt_str_view(authorization)) {
            None => r matches Err(reply) && reply@ == http::error_reply(
                401,
                "Missing or invalid API key"@,
            ),
            Some(key) => if configured {
                r matches Ok(hash) && hash@ == key_hash(key)
            } else {
                r matches Err(reply) && reply@ == not_configured()
            },
        },
{
    let token = match authorization {
        Some(h) => text::strip_prefix(h, "Bearer "),
        None => None,
    };
    match token {
        Some(t) => if text::starts_with(t.as_str(), "aegis_") {
            if configured {
                Ok(hash_key(t.as_str()))
            } else {
                Err(not_configured_reply())
            }
        } else {
            Err(Reply::error(401, "Missing or invalid API key"))
        },
        None => Err(Reply::error(401, "Missing or invalid API key")),
    }
}

/// A stored key.
pub struct ApiKeyRow {
    pub user_id: String,
    pub tenant_id: String,
    pub aegis_role: Option<String>,
    pub scopes: Vec<String>,
    pub zaru_tier: Option<String>,
}

/// What looking up a key brought.
pub enum KeyLookup {
    Found(ApiKeyRow),
    NotFound,
    Failed(String),
}

/// The answer to a request to validate a key.
pub open spec fn validate_answer(lookup: KeyLookup) -> http::ReplyView {
    match lookup {
        KeyLookup::Found(row) => http::json_reply(
            200,
            JsonView::object().with("user_id"@, JsonView::Str(row.user_id@)).with(
                "tenant_id"@,
                JsonView::Str(row.tenant_id@),
            ).with("aegis_role"@, JsonView::opt_text(text::opt_view(row.aegis_role))).with(
                "scopes"@,
                JsonView::Arr(row.scopes@.map_values(|s: String| JsonView::Str(s@))),
            ).with("zaru_tier"@, JsonView::opt_text(text::opt_view(row.zaru_tier))),
        ),
        KeyLookup::NotFound => http::error_reply(401, "Invalid or expired API key"@),
        KeyLookup::Failed(e) => http::error_reply(500, e@),
    }
}

/// The answer to a request to validate a key, once it was looked up.
pub fn validate_api_key_reply(lookup: KeyLookup) -> (r: Reply)
    ensures
        r@ == validate_answer(lookup),
{
    match lookup {
        KeyLookup::Found(row) => Reply::json(
            200,
            Json::object().with("user_id", Json::text(row.user_id.as_str())).with(
                "tenant_id",
                Json::text(row.tenant_id.as_str()),
            ).with("aegis_role", Json::opt_text(&row.aegis_role)).with(
                "scopes",
                Json::texts(&row.scopes),
            ).with("zaru_tier", Json::opt_text(&row.zaru_tier)),
        ),
        KeyLookup::NotFound => Reply::error(401, "Invalid or expired API key"),
        KeyLookup::Failed(e) => Reply::error(500, e.as_str()),
    }
}

/// What is stored of a key depends on the key only through its digest: two keys with
/// one digest are stored alike.
pub proof fn law_keys_are_stored_by_digest(
    row: NewApiKey,
    request: CreateApiKeyRequest,
    owner: UserIdentityView,
    tenant: Seq<char>,
    a: Seq<char>,
    b: Seq<char>,
)
    requires
        key_hash(a) == key_hash(b),
    ensures
        stores_key(row, request, owner, tenant, a) == stores_key(row, request, owner, tenant, b),
{
}

/// A key that was created is found again: the digest under which it is stored is the
/// one that its header leads to.
pub proof fn law_created_keys_are_looked_up(
    row: NewApiKey,
    request: CreateApiKeyRequest,
    owner: UserIdentityView,
    tenant: Seq<char>,
    key: Seq<char>,
)
    requires
        is_key_shaped(key),
        stores_key(row, request, owner, tenant, key),
    ensures
        key_in_header(Some("Bearer "@ + key)) == Some(key),
        row.key_hash@ == key_hash(key_in_header(Some("Bearer "@ + key))->Some_0),
{
    let header = "Bearer "@ + key;
    assert("Bearer "@.is_prefix_of(header)) by {
        assert(header.subrange(0, "Bearer "@.len() as int) =~= "Bearer "@);
    }
    assert(header.skip("Bearer "@.len() as int) =~= key);
}

/// What is stored of an owner's claims is read back as the same claims: the tier
/// of a consumer, the role of an operator.
pub proof fn law_claim_columns_round_trip(kind: IdentityKindView)
    ensures
        kind matches IdentityKindView::ConsumerUser { zaru_tier, .. } ==> claim_columns(kind).0
            is None && crate::identity::ZaruTier::of_claim(claim_columns(kind).1->Some_0) == Some(
            zaru_tier,
        ),
        kind matches IdentityKindView::Operator { aegis_role } ==> claim_columns(kind).1 is None
            && crate::identity::AegisRole::of_claim(claim_columns(kind).0->Some_0) == Some(
            aegis_role,
        ),
        kind is ServiceAccount || kind is TenantUser ==> claim_columns(kind) == (
            None::<Seq<char>>,
            None::<Seq<char>>,
        ),
{
    match kind {
        IdentityKindView::ConsumerUser { zaru_tier, .. } => {
            crate::identity::law_tier_claim_round_trip(zaru_tier);
        },
        IdentityKindView::Operator { aegis_role } => {
            crate::identity::law_role_claim_round_trip(aegis_role);
        },
        _ => {},
    }
}

/// The key as it is shown: each part is found under its own name, as it is.
pub proof fn law_api_key_summary_shown_holds_its_parts(
    row: ApiKeySummary,
)
    ensures
        row.shown().get("id"@) == Some(JsonView::Str(row.id@)),
        row.shown().get("name"@) == Some(JsonView::Str(row.name@)),
        row.shown().get("scopes"@) == Some(row.scopes@),
        row.shown().get("expires_at"@) == Some(operator_read_models::opt_moment_shown(row.expires_at)),
        row.shown().get("last_used_at"@) == Some(operator_read_models::opt_moment_shown(row.last_used_at)),
        row.shown().get("created_at"@) == Some(operator_read_models::moment_shown(row.created_at)),
        row.shown().get("status"@) == Some(JsonView::Str(row.status@)),
{
    broadcast use crate::json::lemma_get_with;

    reveal_strlit("id");
    reveal_strlit("name");
    reveal_strlit("scopes");
    reveal_strlit("expires_at");
    reveal_strlit("last_used_at");
    reveal_strlit("created_at");
    reveal_strlit("status");
    assert("id"@.len() == 2 && "name"@.len() == 4 && "scopes"@.len() == 6 && "expires_at"@.len() == 10 && "last_used_at"@.len() == 12 && "created_at"@.len() == 10 && "status"@.len() == 6 && "created_at"@[0] == 'c' && "expires_at"@[0] == 'e' && "status"@[1] == 't' && "scopes"@[1] == 'c');
}

/// A key carries the role of an operator or the tier of a consumer, and nothing of others.
pub proof fn law_keys_carry_the_claims_of_their_owner(kind: IdentityKindView)
    ensures
        kind matches IdentityKindView::Operator { aegis_role } ==> claim_columns(kind).0 == Some(
            aegis_role.claim(),
        ) && claim_columns(kind).1 is None,
        kind matches IdentityKindView::ConsumerUser { zaru_tier, .. } ==> claim_columns(kind).1
            == Some(zaru_tier.claim()) && claim_columns(kind).0 is None,
        kind is TenantUser || kind is ServiceAccount ==> claim_columns(kind).0 is None
            && claim_columns(kind).1 is None,
{
}

/// Each place in the alphabet of keys is a character of its own.
pub proof fn law_key_characters_are_told_apart(a: u8, b: u8)
    requires
        a < 62,
        b < 62,
    ensures
        key_char_spec(a) == key_char_spec(b) ==> a == b,
        a < 10 ==> '0' <= key_char_spec(a) <= '9',
        10 <= a < 36 ==> 'a' <= key_char_spec(a) <= 'z',
        36 <= a ==> 'A' <= key_char_spec(a) <= 'Z',
{
}

/// Different drawings give different keys.
pub proof fn law_keys_are_told_apart(a: Seq<u8>, b: Seq<u8>)
    requires
        a.len() == b.len(),
        forall|i: int| 0 <= i < a.len() ==> #[trigger] a[i] < 62,
        forall|i: int| 0 <= i < b.len() ==> #[trigger] b[i] < 62,
        key_of(a) == key_of(b),
    ensures
        a == b,
{
    let n = "aegis_"@.len() as int;
    assert forall|i: int| 0 <= i < a.len() implies a[i] == b[i] by {
        assert(key_of(a)[n + i] == key_char_spec(a[i]));
        assert(key_of(b)[n + i] == key_char_spec(b[i]));
        law_key_characters_are_told_apart(a[i], b[i]);
    }
    assert(a =~= b);
}

/// A key is made under a name of one to sixty-four bytes, where keys are stored.
pub proof fn law_keys_are_made_under_a_name(name: Seq<char>)
    requires
        vstd::utf8::encode_utf8(name).len() <= usize::MAX,
    ensures
        create_refusal(true, name) is None <==> 1 <= vstd::utf8::encode_utf8(name).len() <= 64,
        create_refusal(false, name) matches Some(r) && r.status == 503,
        create_refusal(true, name) matches Some(r) ==> r.status == 400,
{
}

/// Of a key only the hash is stored, with its owner, their tenant and claims, and what the
/// request says.
pub proof fn law_a_key_is_stored_for_its_owner(
    row: NewApiKey,
    request: CreateApiKeyRequest,
    owner: UserIdentityView,
    tenant: Seq<char>,
    key: Seq<char>,
)
    requires
        stores_key(row, request, owner, tenant, key),
    ensures
        row.user_id@ == owner.sub,
        row.tenant_id@ == tenant,
        row.name == request.name,
        row.scopes == request.scopes,
        row.expires_at == request.expires_at,
        row.key_hash@ == primitives::hex_text(
            primitives::sha256_digest(vstd::utf8::encode_utf8(key)),
        ),
        text::opt_view(row.aegis_role) == claim_columns(owner.identity_kind).0,
        text::opt_view(row.zaru_tier) == claim_columns(owner.identity_kind).1,
{
}

/// A key that was made is told once, with what was stored of it.
pub proof fn law_a_new_key_is_told(key: Seq<char>, stored: ApiKeySummary, e: String)
    ensures
        ({
            &&& created_answer(key, Ok(stored)).status == 201
            &&& created_answer(key, Ok(stored)).body matches Some(body)
            &&& body.get("key"@) == Some(JsonView::Str(key))
            &&& body.get("id"@) == Some(JsonView::Str(stored.id@))
            &&& body.get("name"@) == Some(JsonView::Str(stored.name@))
            &&& body.get("scopes"@) == Some(stored.scopes@)
        }),
        created_answer(key, Err(e)).status == 500,
        revoke_answer(RevokeOutcome::Revoked).status == 200,
        revoke_answer(RevokeOutcome::NotFound).status == 404,
        revoke_answer(RevokeOutcome::Failed(e)).status == 500,
{
    broadcast use crate::json::lemma_get_with;

    reveal_strlit("id");
    reveal_strlit("name");
    reveal_strlit("key");
    reveal_strlit("scopes");
    reveal_strlit("expires_at");
    reveal_strlit("created_at");
    assert("id"@.len() == 2 && "name"@.len() == 4 && "key"@.len() == 3 && "scopes"@.len() == 6 && "expires_at"@.len() == 10 && "created_at"@.len() == 10 && "created_at"@[0] == 'c' && "expires_at"@[0] == 'e');
}

/// A key is read from a bearer header that holds one, and from no other.
pub proof fn law_keys_are_read_from_the_header(rest: Seq<char>, header: Seq<char>)
    ensures
        key_in_header(Some("Bearer "@ + ("aegis_"@ + rest))) == Some("aegis_"@ + rest),
        !"Bearer "@.is_prefix_of(header) ==> key_in_header(Some(header)) is None,
        !"aegis_"@.is_prefix_of(rest) ==> key_in_header(Some("Bearer "@ + rest)) is None,
        key_in_header(None) is None,
{
    let n = "Bearer "@.len() as int;
    let key = "aegis_"@ + rest;
    let whole = "Bearer "@ + key;
    assert(whole.take(n) =~= "Bearer "@);
    assert(whole.skip(n) =~= key);
    assert("Bearer "@.is_prefix_of(whole));
    assert("aegis_"@.is_prefix_of(key));
    let other = "Bearer "@ + rest;
    assert("Bearer "@.is_prefix_of(other));
    assert(other.skip(n) =~= rest);
}

/// A key that is found is answered with its owner, their tenant, claims and every scope.
pub proof fn law_a_valid_key_tells_its_owner(row: ApiKeyRow, e: String, i: int)
    requires
        0 <= i < row.scopes@.len(),
    ensures
        ({
            &&& validate_answer(KeyLookup::Found(row)).status == 200
            &&& validate_answer(KeyLookup::Found(row)).body matches Some(body)
            &&& body.get("user_id"@) == Some(JsonView::Str(row.user_id@))
            &&& body.get("tenant_id"@) == Some(JsonView::Str(row.tenant_id@))
            &&& body.get("scopes"@) matches Some(JsonView::Arr(scopes))
            &&& scopes.len() == row.scopes@.len()
            &&& scopes[i] == JsonView::Str(row.scopes@[i]@)
        }),
        validate_answer(KeyLookup::NotFound).status == 401,
        validate_answer(KeyLookup::Failed(e)).status == 500,
{
    broadcast use crate::json::lemma_get_with;

    reveal_strlit("user_id");
    reveal_strlit("tenant_id");
    reveal_strlit("aegis_role");
    reveal_strlit("scopes");
    reveal_strlit("zaru_tier");
    assert("user_id"@.len() == 7 && "tenant_id"@.len() == 9 && "aegis_role"@.len() == 10 && "scopes"@.len() == 6 && "zaru_tier"@.len() == 9 && "zaru_tier"@[0] == 'z' && "tenant_id"@[0] == 't');
}

} // verus!
