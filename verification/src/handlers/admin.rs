//! Rate limits: the exceptions that administrators make, and what a user has used.

use crate::http::Reply;
use crate::identity::{IdentityKind, IdentityKindView, TenantId, UserIdentity, ZaruTier};
use crate::json::{Json, JsonView};
use crate::operator_read_models::Moment;
use crate::{http, operator_read_models, text};
use vstd::prelude::*;

verus! {

/// The answer where exceptions are not stored.
pub open spec fn no_overrides() -> http::ReplyView {
    http::error_reply(503, "Rate-limit override repository not configured"@)
}

/// The answer where exceptions are not stored.
pub fn no_overrides_reply() -> (r: Reply)
    ensures
        r@ == no_overrides(),
{
    Reply::error(503, "Rate-limit override repository not configured")
}

/// The answer that lists stored rows under a name, with their number.
pub open spec fn counted(name: Seq<char>, rows: Seq<JsonView>) -> http::ReplyView {
    http::json_reply(
        200,
        JsonView::object().with(name, JsonView::Arr(rows)).with(
            "count"@,
            JsonView::Int(rows.len() as int),
        ),
    )
}

fn counted_reply(name: &str, rows: Vec<Json>) -> (r: Reply)
    ensures
        r@ == counted(name@, crate::json::json_views(rows@)),
{
    let count: usize = rows.len();
    Reply::json(
        200,
        Json::object().with(name, Json::array(rows)).with("count", Json::Int(count as i128)),
    )
}

/// The answer that lists exceptions.
pub fn list_overrides_reply(outcome: Option<Result<Vec<Json>, String>>) -> (r: Reply)
    ensures
        r@ == (match outcome {
            None => no_overrides(),
            Some(Ok(rows)) => counted("overrides"@, crate::json::json_views(rows@)),
            Some(Err(e)) => http::error_reply(500, e@),
        }),
{
    match outcome {
        None => no_overrides_reply(),
        Some(Ok(rows)) => counted_reply("overrides", rows),
        Some(Err(e)) => Reply::error(500, e.as_str()),
    }
}

/// Decides on a request to make an exception: it is for a tenant or for a user, not
/// for both and not for neither.
pub fn upsert_override(configured: bool, tenant_id: Option<&str>, user_id: Option<&str>) -> (r:
    Result<(), Reply>)
    ensures
        if !configured {
            r matches Err(reply) && reply@ == no_overrides()
        } else if (tenant_id is Some) == (user_id is Some) {
            r matches Err(reply) && reply@ == http::error_reply(
                400,
                "Exactly one of tenant_id or user_id must be provided"@,
            )
        } else {
            r is Ok
        },
{
    if !configured {
        return Err(no_overrides_reply());
    }
    if tenant_id.is_some() == user_id.is_some() {
        return Err(Reply::error(400, "Exactly one of tenant_id or user_id must be provided"));
    }
    Ok(())
}

/// The answer to an exception that was made. The row is missing where it cannot be
/// written down.
pub fn upsert_override_reply(outcome: Result<Option<Json>, String>) -> (r: Reply)
    ensures
        r@ == (match outcome {
            Ok(Some(row)) => http::json_reply(200, row@),
            Ok(None) => http::json_reply(
                200,
                JsonView::object().with("status"@, JsonView::Str("upserted"@)),
            ),
            Err(e) => http::error_reply(500, e@),
        }),
{
    match outcome {
        Ok(Some(row)) => Reply::json(200, row),
        Ok(None) => Reply::json(200, Json::object().with("status", Json::text("upserted"))),
        Err(e) => Reply::error(500, e.as_str()),
    }
}

/// The answer to a request to delete an exception, which says whether there was one.
pub fn delete_override_reply(id: &str, outcome: Option<Result<bool, String>>) -> (r: Reply)
    ensures
        r@ == (match outcome {
            None => no_overrides(),
            Some(Ok(true)) => http::json_reply(
                200,
                JsonView::object().with("status"@, JsonView::Str("deleted"@)).with(
                    "id"@,
                    JsonView::Str(id@),
                ),
            ),
            Some(Ok(false)) => http::error_reply(404, "Override not found"@),
            Some(Err(e)) => http::error_reply(500, e@),
        }),
{
    match outcome {
        None => no_overrides_reply(),
        Some(Ok(found)) => if found {
            Reply::json(
                200,
                Json::object().with("status", Json::text("deleted")).with("id", Json::text(id)),
            )
        } else {
            Reply::error(404, "Override not found")
        },
        Some(Err(e)) => Reply::error(500, e.as_str()),
    }
}

/// The answer that lists what was used.
pub fn usage_rows_reply(outcome: Option<Result<Vec<Json>, String>>) -> (r: Reply)
    ensures
        r@ == (match outcome {
            None => no_overrides(),
            Some(Ok(rows)) => counted("usage"@, crate::json::json_views(rows@)),
            Some(Err(e)) => http::error_reply(500, e@),
        }),
{
    match outcome {
        None => no_overrides_reply(),
        Some(Ok(rows)) => counted_reply("usage", rows),
        Some(Err(e)) => Reply::error(500, e.as_str()),
    }
}

/// The tenant whose limits hold for a caller.
pub open spec fn limits_tenant(kind: IdentityKindView) -> Seq<char> {
    match kind {
        IdentityKindView::ConsumerUser { .. } => "zaru-consumer"@,
        IdentityKindView::TenantUser { tenant, .. } => match tenant {
            Some(t) => t,
            None => "zaru-consumer"@,
        },
        IdentityKindView::Operator { .. } => "aegis-system"@,
        IdentityKindView::ServiceAccount { .. } => "aegis-system"@,
    }
}

/// The tenant whose limits hold for a caller.
pub fn rate_limit_tenant(caller: &UserIdentity) -> (r: TenantId)
    ensures
        r@ == limits_tenant(caller@.identity_kind),
{
    match &caller.identity_kind {
        IdentityKind::ConsumerUser { .. } => TenantId::consumer(),
        IdentityKind::TenantUser { tenant, .. } => match tenant {
            Some(t) => t.clone(),
            None => TenantId::consumer(),
        },
        IdentityKind::Operator { .. } | IdentityKind::ServiceAccount { .. } => TenantId::system(),
    }
}

/// A span of time over which uses are counted.
#[derive(Clone, Copy, PartialEq, Eq, Structural, Debug)]
pub enum RateLimitBucket {
    PerMinute,
    Hourly,
    Daily,
    Weekly,
    Monthly,
}

/// The name of a span.
pub open spec fn bucket_name(bucket: RateLimitBucket) -> Seq<char> {
    match bucket {
        RateLimitBucket::PerMinute => "per_minute"@,
        RateLimitBucket::Hourly => "hourly"@,
        RateLimitBucket::Daily => "daily"@,
        RateLimitBucket::Weekly => "weekly"@,
        RateLimitBucket::Monthly => "monthly"@,
    }
}

/// The name of a span.
pub fn bucket_to_str(bucket: &RateLimitBucket) -> (r: String)
    ensures
        r@ == bucket_name(*bucket),
{
    match bucket {
        RateLimitBucket::PerMinute => "per_minute".to_owned(),
        RateLimitBucket::Hourly => "hourly".to_owned(),
        RateLimitBucket::Daily => "daily".to_owned(),
        RateLimitBucket::Weekly => "weekly".to_owned(),
        RateLimitBucket::Monthly => "monthly".to_owned(),
    }
}

/// What is counted.
pub enum RateLimitResourceType {
    AgentExecution,
    WorkflowExecution,
    LlmCall,
    LlmToken,
    SealToolCall { tool_pattern: String },
}

/// The name of what is counted.
pub open spec fn resource_name(rt: RateLimitResourceType) -> Seq<char> {
    match rt {
        RateLimitResourceType::AgentExecution => "agent_execution"@,
        RateLimitResourceType::WorkflowExecution => "workflow_execution"@,
        RateLimitResourceType::LlmCall => "llm_call"@,
        RateLimitResourceType::LlmToken => "llm_token"@,
        RateLimitResourceType::SealToolCall { tool_pattern } => "seal_tool:"@ + tool_pattern@,
    }
}

/// The name of what is counted.
pub fn resource_type_to_db_str(rt: &RateLimitResourceType) -> (r: String)
    ensures
        r@ == resource_name(*rt),
{
    match rt {
        RateLimitResourceType::AgentExecution => "agent_execution".to_owned(),
        RateLimitResourceType::WorkflowExecution => "workflow_execution".to_owned(),
        RateLimitResourceType::LlmCall => "llm_call".to_owned(),
        RateLimitResourceType::LlmToken => "llm_token".to_owned(),
        RateLimitResourceType::SealToolCall { tool_pattern } => "seal_tool:".to_owned().concat(
            tool_pattern.as_str(),
        ),
    }
}

/// A stored counter.
pub struct UsageRow {
    pub resource_type: String,
    pub bucket: String,
    pub counter: i64,
    pub window_start: Moment,
}

/// A limit on the uses in one span.
#[derive(Clone, Copy, PartialEq, Eq, Structural, Debug)]
pub struct RateLimitWindow {
    pub bucket: RateLimitBucket,
    pub limit: u64,
    pub window_seconds: u64,
}

/// The limits on one thing that is counted; missing where they could not be found
/// out.
pub struct ResourcePolicy {
    pub resource_type: RateLimitResourceType,
    pub windows: Option<Vec<RateLimitWindow>>,
}

/// What a user has used of one limit.
pub struct UserRateLimitUsageItem {
    pub resource_type: String,
    pub bucket: String,
    pub current_count: i64,
    pub limit_value: i64,
    pub window_seconds: u64,
    pub resets_at: Moment,
}

/// The mathematical content of what a user has used of one limit.
pub struct UsageItemView {
    pub resource_type: Seq<char>,
    pub bucket: Seq<char>,
    pub current_count: i64,
    pub limit_value: i64,
    pub window_seconds: u64,
    pub resets_at: Moment,
}

impl View for UserRateLimitUsageItem {
    type V = UsageItemView;

    open spec fn view(&self) -> UsageItemView {
        UsageItemView {
            resource_type: self.resource_type@,
            bucket: self.bucket@,
            current_count: self.current_count,
            limit_value: self.limit_value,
            window_seconds: self.window_seconds,
            resets_at: self.resets_at,
        }
    }
}

/// The views of what a user has used.
pub open spec fn item_views(items: Seq<UserRateLimitUsageItem>) -> Seq<UsageItemView> {
    items.map_values(|i: UserRateLimitUsageItem| i@)
}

/// The last stored counter of a thing over a span.
pub open spec fn last_counter(
    rows: Seq<UsageRow>,
    resource: Seq<char>,
    bucket: Seq<char>,
) -> Option<UsageRow>
    decreases rows.len(),
{
    if rows.len() == 0 {
        None
    } else if rows.last().resource_type@ == resource && rows.last().bucket@ == bucket {
        Some(rows.last())
    } else {
        last_counter(rows.drop_last(), resource, bucket)
    }
}

fn find_counter<'a>(rows: &'a Vec<UsageRow>, resource: &str, bucket: &str) -> (r: Option<
    &'a UsageRow,
>)
    ensures
        match r {
            Some(row) => last_counter(rows@, resource@, bucket@) == Some(*row),
            None => last_counter(rows@, resource@, bucket@) is None,
        },
{
    let mut i: usize = rows.len();
    assert(rows@.take(i as int) =~= rows@);
    while i > 0
        invariant
            i <= rows@.len(),
            last_counter(rows@, resource@, bucket@) == last_counter(
                rows@.take(i as int),
                resource@,
                bucket@,
            ),
        decreases i,
    {
        assert(rows@.take(i as int).last() == rows@[i - 1]);
        assert(rows@.take(i as int).drop_last() =~= rows@.take(i - 1));
        if text::str_eq(rows[i - 1].resource_type.as_str(), resource) && text::str_eq(
            rows[i - 1].bucket.as_str(),
            bucket,
        ) {
            return Some(&rows[i - 1]);
        }
        i -= 1;
    }
    None
}

/// When the count of a limit starts anew, where it started at the given moment.
pub open spec fn window_end(start: Moment, window: RateLimitWindow) -> int {
    start + (window.window_seconds as i64) * 1_000_000_000
}

/// The first moment of the calendar, in nanoseconds.
pub const CALENDAR_START: i128 = -8_334_601_228_800_000_000_000;

/// The last moment of the calendar, in nanoseconds.
pub const CALENDAR_END: i128 = 8_210_266_876_799_999_999_999;

/// The longest span, in seconds, that can be added to a moment.
pub const LONGEST_SPAN_SECS: i64 = 9_223_372_036_854_775;

/// Whether a limit that started at the given moment ends within the calendar.
pub open spec fn window_fits(start: Moment, window: RateLimitWindow) -> bool {
    &&& CALENDAR_START <= start <= CALENDAR_END
    &&& -LONGEST_SPAN_SECS <= window.window_seconds as i64 <= LONGEST_SPAN_SECS
    &&& CALENDAR_START <= window_end(start, window) <= CALENDAR_END
}

/// The moment at which the count of a limit started: that of its counter, or the
/// present.
pub open spec fn window_start(
    rows: Seq<UsageRow>,
    resource: Seq<char>,
    window: RateLimitWindow,
    now: Moment,
) -> Moment {
    match last_counter(rows, resource, bucket_name(window.bucket)) {
        Some(row) => row.window_start,
        None => now,
    }
}

/// What a user has used of one limit.
pub open spec fn usage_of(
    rows: Seq<UsageRow>,
    resource: Seq<char>,
    window: RateLimitWindow,
    now: Moment,
) -> UsageItemView {
    UsageItemView {
        resource_type: resource,
        bucket: bucket_name(window.bucket),
        current_count: match last_counter(rows, resource, bucket_name(window.bucket)) {
            Some(row) => row.counter,
            None => 0,
        },
        limit_value: window.limit as i64,
        window_seconds: window.window_seconds,
        resets_at: window_end(window_start(rows, resource, window, now), window) as Moment,
    }
}

/// What a user has used of each of the limits on one thing.
pub open spec fn usage_of_resource(
    rows: Seq<UsageRow>,
    policy: ResourcePolicy,
    now: Moment,
) -> Seq<UsageItemView> {
    match policy.windows {
        Some(windows) => windows@.map_values(
            |w: RateLimitWindow| usage_of(rows, resource_name(policy.resource_type), w, now),
        ),
        None => Seq::empty(),
    }
}

/// What a user has used of each limit. Things whose limits are unknown are left out.
pub open spec fn usage_of_all(
    rows: Seq<UsageRow>,
    policies: Seq<ResourcePolicy>,
    now: Moment,
) -> Seq<UsageItemView>
    decreases policies.len(),
{
    if policies.len() == 0 {
        Seq::empty()
    } else {
        usage_of_all(rows, policies.drop_last(), now) + usage_of_resource(
            rows,
            policies.last(),
            now,
        )
    }
}

/// Whether every limit on one thing ends within the calendar.
pub open spec fn resource_fits(rows: Seq<UsageRow>, policy: ResourcePolicy, now: Moment) -> bool {
    policy.windows matches Some(windows) ==> forall|i: int|
        0 <= i < windows@.len() ==> window_fits(
            window_start(
                rows,
                resource_name(policy.resource_type),
                #[trigger] windows@[i],
                now,
            ),
            windows@[i],
        )
}

/// Whether every limit ends within the calendar.
pub open spec fn usage_fits(
    rows: Seq<UsageRow>,
    policies: Seq<ResourcePolicy>,
    now: Moment,
) -> bool {
    forall|i: int| 0 <= i < policies.len() ==> resource_fits(rows, #[trigger] policies[i], now)
}

/// Whether every limit ends within the calendar.
pub fn usage_in_range(rows: &Vec<UsageRow>, policies: &Vec<ResourcePolicy>, now: Moment) -> (r: bool)
    ensures
        r == usage_fits(rows@, policies@, now),
{
    let mut i: usize = 0;
    while i < policies.len()
        invariant
            i <= policies@.len(),
            forall|k: int| 0 <= k < i ==> resource_fits(rows@, #[trigger] policies@[k], now),
        decreases policies@.len() - i,
    {
        let resource = resource_type_to_db_str(&policies[i].resource_type);
        if let Some(windows) = &policies[i].windows {
            let mut j: usize = 0;
            while j < windows.len()
                invariant
                    i < policies@.len(),
                    j <= windows@.len(),
                    policies@[i as int].windows == Some(*windows),
                    resource@ == resource_name(policies@[i as int].resource_type),
                    forall|k: int|
                        0 <= k < j ==> window_fits(
                            window_start(rows@, resource@, #[trigger] windows@[k], now),
                            windows@[k],
                        ),
                decreases windows@.len() - j,
            {
                let bucket = bucket_to_str(&windows[j].bucket);
                let start: Moment = match find_counter(rows, resource.as_str(), bucket.as_str()) {
                    Some(row) => row.window_start,
                    None => now,
                };
                let seconds: i64 = #[verifier::truncate] (windows[j].window_seconds as i64);
                let fits = CALENDAR_START <= start && start <= CALENDAR_END && -LONGEST_SPAN_SECS
                    <= seconds && seconds <= LONGEST_SPAN_SECS && {
                    let end: i128 = start + (seconds as i128) * 1_000_000_000;
                    CALENDAR_START <= end && end <= CALENDAR_END
                };
                assert(start == window_start(rows@, resource@, windows@[j as int], now));
                if !fits {
                    assert(!window_fits(
                        window_start(rows@, resource@, windows@[j as int], now),
                        windows@[j as int],
                    ));
                    assert(policies@[i as int].windows->Some_0@[j as int] == windows@[j as int]);
                    assert(!resource_fits(rows@, policies@[i as int], now));
                    return false;
                }
                j += 1;
            }
        }
        i += 1;
    }
    true
}

/// What a user has used of each limit, so that a new user sees all limits, unused.
pub fn user_rate_limit_usage(
    rows: &Vec<UsageRow>,
    policies: &Vec<ResourcePolicy>,
    now: Moment,
) -> (r: Vec<UserRateLimitUsageItem>)
    requires
        usage_fits(rows@, policies@, now),
    ensures
        item_views(r@) == usage_of_all(rows@, policies@, now),
{
    let mut items: Vec<UserRateLimitUsageItem> = Vec::new();
    let mut i: usize = 0;
    assert(item_views(items@) =~= usage_of_all(rows@, policies@.take(0), now));
    while i < policies.len()
        invariant
            i <= policies@.len(),
            usage_fits(rows@, policies@, now),
            item_views(items@) == usage_of_all(rows@, policies@.take(i as int), now),
        decreases policies@.len() - i,
    {
        let ghost before = item_views(items@);
        let ghost policy = policies@[i as int];
        assert(policies@.take(i + 1).drop_last() =~= policies@.take(i as int));
        assert(policies@.take(i + 1).last() == policy);
        assert(resource_fits(rows@, policy, now));
        let resource = resource_type_to_db_str(&policies[i].resource_type);
        if let Some(windows) = &policies[i].windows {
            let ghost all = usage_of_resource(rows@, policy, now);
            let mut j: usize = 0;
            assert(item_views(items@) =~= before + all.take(0));
            while j < windows.len()
                invariant
                    j <= windows@.len(),
                    policy.windows == Some(*windows),
                    resource_fits(rows@, policy, now),
                    resource@ == resource_name(policy.resource_type),
                    all == usage_of_resource(rows@, policy, now),
                    item_views(items@) == before + all.take(j as int),
                decreases windows@.len() - j,
            {
                let window = windows[j];
                assert(window_fits(
                    window_start(rows@, resource@, windows@[j as int], now),
                    windows@[j as int],
                ));
                let bucket = bucket_to_str(&window.bucket);
                let (current_count, start): (i64, Moment) = match find_counter(
                    rows,
                    resource.as_str(),
                    bucket.as_str(),
                ) {
                    Some(row) => (row.counter, row.window_start),
                    None => (0, now),
                };
                let seconds: i64 = #[verifier::truncate] (window.window_seconds as i64);
                let resets_at: Moment = start + (seconds as i128) * 1_000_000_000;
                let item = UserRateLimitUsageItem {
                    resource_type: resource.clone(),
                    bucket,
                    current_count,
                    limit_value: window.limit as i64,
                    window_seconds: window.window_seconds,
                    resets_at,
                };
                assert(item@ == usage_of(rows@, resource@, window, now));
                assert(all[j as int] == usage_of(rows@, resource@, window, now));
                let ghost old_items = items@;
                items.push(item);
                assert(item_views(items@) =~= item_views(old_items).push(all[j as int]));
                assert(all.take(j + 1) =~= all.take(j as int).push(all[j as int]));
                j += 1;
            }
            assert(all.take(windows@.len() as int) =~= all);
        } else {
            assert(usage_of_resource(rows@, policy, now) =~= Seq::empty());
            assert(before + usage_of_resource(rows@, policy, now) =~= before);
        }
        i += 1;
    }
    assert(policies@.take(policies@.len() as int) =~= policies@);
    items
}

proof fn lemma_usage_length(rows: Seq<UsageRow>, policies: Seq<ResourcePolicy>, now: Moment)
    ensures
        usage_of_all(Seq::empty(), policies, now).len() == usage_of_all(rows, policies, now).len(),
    decreases policies.len(),
{
    if policies.len() > 0 {
        lemma_usage_length(rows, policies.drop_last(), now);
    }
}

/// What is looked up for the usage of a caller.
pub struct UsageLookup {
    /// What the counters are kept for: a user.
    pub scope_type: &'static str,
    pub scope_id: String,
    /// The tenant and the tier whose limits count.
    pub tenant_id: TenantId,
    pub tier: ZaruTier,
}

/// What is looked up for the usage of a caller. Whoever is no consumer has the limits of
/// the highest tier.
pub fn user_usage_lookup(configured: bool, caller: &UserIdentity) -> (r: Result<
    UsageLookup,
    Reply,
>)
    ensures
        if configured {
            r matches Ok(lookup) && lookup.scope_type@ == "user"@ && lookup.scope_id@ == caller@.sub
                && lookup.tenant_id@ == limits_tenant(caller@.identity_kind) && lookup.tier
                == crate::identity::tier_of(Some(caller@))
        } else {
            r matches Err(reply) && reply@ == no_overrides()
        },
{
    if configured {
        Ok(
            UsageLookup {
                scope_type: "user",
                scope_id: caller.sub.clone(),
                tenant_id: rate_limit_tenant(caller),
                tier: crate::identity::user_tier(Some(caller)),
            },
        )
    } else {
        Err(no_overrides_reply())
    }
}

/// What is shown of a limit.
pub open spec fn usage_shown(item: UsageItemView) -> JsonView {
    JsonView::object().with("resource_type"@, JsonView::Str(item.resource_type)).with(
        "bucket"@,
        JsonView::Str(item.bucket),
    ).with("current_count"@, JsonView::Int(item.current_count as int)).with(
        "limit_value"@,
        JsonView::Int(item.limit_value as int),
    ).with("window_seconds"@, JsonView::Int(item.window_seconds as int)).with(
        "resets_at"@,
        operator_read_models::moment_shown(item.resets_at),
    )
}

/// The answer that shows a caller's limits.
pub fn user_usage_reply(items: &Vec<UserRateLimitUsageItem>) -> (r: Reply)
    ensures
        r@ == counted(
            "usage"@,
            items@.map_values(|i: UserRateLimitUsageItem| usage_shown(i@)),
        ),
{
    let mut rows: Vec<Json> = Vec::new();
    let mut i: usize = 0;
    while i < items.len()
        invariant
            i <= items@.len(),
            rows@.len() == i,
            forall|k: int|
                0 <= k < i ==> #[trigger] rows@[k]@ == usage_shown(items@[k]@),
        decreases items@.len() - i,
    {
        let item = &items[i];
        rows.push(
            Json::object().with("resource_type", Json::text(item.resource_type.as_str())).with(
                "bucket",
                Json::text(item.bucket.as_str()),
            ).with("current_count", Json::Int(item.current_count as i128)).with(
                "limit_value",
                Json::Int(item.limit_value as i128),
            ).with("window_seconds", Json::Int(item.window_seconds as i128)).with(
                "resets_at",
                operator_read_models::show_moment(item.resets_at),
            ),
        );
        i += 1;
    }
    assert(crate::json::json_views(rows@) =~= items@.map_values(
        |i: UserRateLimitUsageItem| usage_shown(i@),
    ));
    usage_rows_reply(Some(Ok(rows)))
}

/// Which limits a user is shown does not depend on what was used: a user without any
/// counter sees as many as any other, all of them unused.
pub proof fn law_new_users_see_all_limits(
    rows: Seq<UsageRow>,
    policies: Seq<ResourcePolicy>,
    now: Moment,
)
    ensures
        usage_of_all(Seq::empty(), policies, now).len() == usage_of_all(rows, policies, now).len(),
        forall|i: int|
            0 <= i < usage_of_all(Seq::empty(), policies, now).len() ==> (
            #[trigger] usage_of_all(Seq::empty(), policies, now)[i]).current_count == 0,
    decreases policies.len(),
{
    lemma_usage_length(rows, policies, now);
    if policies.len() > 0 {
        law_new_users_see_all_limits(rows, policies.drop_last(), now);
        let none = Seq::<UsageRow>::empty();
        let front = usage_of_all(none, policies.drop_last(), now);
        let back = usage_of_resource(none, policies.last(), now);
        let all = usage_of_all(none, policies, now);
        assert forall|i: int| 0 <= i < all.len() implies (#[trigger] all[i]).current_count == 0 by {
            if i < front.len() {
                assert(all[i] == front[i]);
            } else {
                assert(all[i] == back[i - front.len()]);
            }
        }
    }
}

/// What is shown of a limit: each part is found under its own name, as it is.
pub proof fn law_usage_shown_holds_its_parts(
    item: UsageItemView,
)
    ensures
        usage_shown(item).get("resource_type"@) == Some(JsonView::Str(item.resource_type)),
        usage_shown(item).get("bucket"@) == Some(JsonView::Str(item.bucket)),
        usage_shown(item).get("current_count"@) == Some(JsonView::Int(item.current_count as int)),
        usage_shown(item).get("limit_value"@) == Some(JsonView::Int(item.limit_value as int)),
        usage_shown(item).get("window_seconds"@) == Some(JsonView::Int(item.window_seconds as int)),
        usage_shown(item).get("resets_at"@) == Some(operator_read_models::moment_shown(item.resets_at)),
{
    broadcast use crate::json::lemma_get_with;

    reveal_strlit("resource_type");
    reveal_strlit("bucket");
    reveal_strlit("current_count");
    reveal_strlit("limit_value");
    reveal_strlit("window_seconds");
    reveal_strlit("resets_at");
    assert("resource_type"@.len() == 13 && "bucket"@.len() == 6 && "current_count"@.len() == 13 && "limit_value"@.len() == 11 && "window_seconds"@.len() == 14 && "resets_at"@.len() == 9 && "current_count"@[0] == 'c' && "resource_type"@[0] == 'r');
}

/// A list is told whole, under its name, with its length.
pub proof fn law_counted_rows_are_all_told(name: Seq<char>, rows: Seq<JsonView>)
    requires
        name != "count"@,
    ensures
        counted(name, rows).status == 200,
        counted(name, rows).body matches Some(body) && body.get(name) == Some(JsonView::Arr(rows))
            && body.get("count"@) == Some(JsonView::Int(rows.len() as int)),
{
    broadcast use crate::json::lemma_get_with;

}

/// The limits of a user are those of the tenant that they are in: consumers of the shared
/// one, operators and services of the system's.
pub proof fn law_limits_are_of_the_tenant(kind: IdentityKindView)
    ensures
        kind is ConsumerUser ==> limits_tenant(kind) == "zaru-consumer"@,
        kind is Operator || kind is ServiceAccount ==> limits_tenant(kind) == "aegis-system"@,
        kind matches IdentityKindView::TenantUser { tenant: Some(own), .. } ==> limits_tenant(kind)
            == own,
        kind matches IdentityKindView::TenantUser { tenant: None, .. } ==> limits_tenant(kind)
            == "zaru-consumer"@,
{
}

/// Each bucket and each resource has a name of its own.
pub proof fn law_buckets_and_resources_are_named(
    a: RateLimitBucket,
    b: RateLimitBucket,
    pattern: String,
)
    ensures
        bucket_name(a) == bucket_name(b) ==> a == b,
        bucket_name(RateLimitBucket::PerMinute) == "per_minute"@,
        bucket_name(RateLimitBucket::Hourly) == "hourly"@,
        bucket_name(RateLimitBucket::Daily) == "daily"@,
        bucket_name(RateLimitBucket::Weekly) == "weekly"@,
        bucket_name(RateLimitBucket::Monthly) == "monthly"@,
        resource_name(RateLimitResourceType::AgentExecution) == "agent_execution"@,
        resource_name(RateLimitResourceType::WorkflowExecution) == "workflow_execution"@,
        resource_name(RateLimitResourceType::LlmCall) == "llm_call"@,
        resource_name(RateLimitResourceType::LlmToken) == "llm_token"@,
        resource_name(RateLimitResourceType::SealToolCall { tool_pattern: pattern })
            == "seal_tool:"@ + pattern@,
{
    reveal_strlit("per_minute");
    reveal_strlit("hourly");
    reveal_strlit("daily");
    reveal_strlit("weekly");
    reveal_strlit("monthly");
    assert("per_minute"@.len() == 10 && "hourly"@.len() == 6 && "daily"@.len() == 5 && "weekly"@.len() == 6 && "monthly"@.len() == 7 && "weekly"@[0] == 'w' && "hourly"@[0] == 'h');
}

/// The counter of a resource in a bucket is that of the last row that is of both.
pub proof fn law_the_last_counter_counts(
    rows: Seq<UsageRow>,
    resource: Seq<char>,
    bucket: Seq<char>,
    at: int,
)
    requires
        0 <= at < rows.len(),
        rows[at].resource_type@ == resource,
        rows[at].bucket@ == bucket,
        forall|j: int|
            at < j < rows.len() ==> (#[trigger] rows[j]).resource_type@ != resource
                || rows[j].bucket@ != bucket,
    ensures
        last_counter(rows, resource, bucket) == Some(rows[at]),
    decreases rows.len(),
{
    if at < rows.len() - 1 {
        assert(rows[rows.len() - 1].resource_type@ != resource || rows[rows.len() - 1].bucket@
            != bucket);
        assert forall|j: int| at < j < rows.drop_last().len() implies (
        #[trigger] rows.drop_last()[j]).resource_type@ != resource || rows.drop_last()[j].bucket@
            != bucket by {
            assert(rows.drop_last()[j] == rows[j]);
        }
        law_the_last_counter_counts(rows.drop_last(), resource, bucket, at);
    }
}

/// Without such a row there is no counter.
pub proof fn law_no_counter_is_made_up(
    rows: Seq<UsageRow>,
    resource: Seq<char>,
    bucket: Seq<char>,
)
    requires
        forall|j: int|
            0 <= j < rows.len() ==> (#[trigger] rows[j]).resource_type@ != resource
                || rows[j].bucket@ != bucket,
    ensures
        last_counter(rows, resource, bucket) is None,
    decreases rows.len(),
{
    if rows.len() > 0 {
        assert(rows[rows.len() - 1].resource_type@ != resource || rows[rows.len() - 1].bucket@
            != bucket);
        assert forall|j: int| 0 <= j < rows.drop_last().len() implies (
        #[trigger] rows.drop_last()[j]).resource_type@ != resource || rows.drop_last()[j].bucket@
            != bucket by {
            assert(rows.drop_last()[j] == rows[j]);
        }
        law_no_counter_is_made_up(rows.drop_last(), resource, bucket);
    }
}

/// The use of a window is its counter, or nothing where it has none; it is over as many
/// seconds after its start as the window is long.
pub proof fn law_the_use_of_a_window(
    rows: Seq<UsageRow>,
    resource: Seq<char>,
    window: RateLimitWindow,
    now: Moment,
    row: UsageRow,
)
    ensures
        last_counter(rows, resource, bucket_name(window.bucket)) == Some(row) ==> usage_of(
            rows,
            resource,
            window,
            now,
        ).current_count == row.counter && window_start(rows, resource, window, now)
            == row.window_start,
        last_counter(rows, resource, bucket_name(window.bucket)) is None ==> usage_of(
            rows,
            resource,
            window,
            now,
        ).current_count == 0 && window_start(rows, resource, window, now) == now,
        usage_of(rows, resource, window, now).resource_type == resource,
        usage_of(rows, resource, window, now).bucket == bucket_name(window.bucket),
        usage_of(rows, resource, window, now).window_seconds == window.window_seconds,
        window.limit <= i64::MAX ==> usage_of(rows, resource, window, now).limit_value
            == window.limit,
        window.window_seconds <= i64::MAX && i64::MIN <= window_start(rows, resource, window, now)
            + window.window_seconds * 1_000_000_000 <= i64::MAX ==> window_end(
            window_start(rows, resource, window, now),
            window,
        ) == window_start(rows, resource, window, now) + window.window_seconds * 1_000_000_000,
{
}

/// The use of every window of every policy is told, in their order.
pub proof fn law_every_window_is_told(
    rows: Seq<UsageRow>,
    policies: Seq<ResourcePolicy>,
    last: ResourcePolicy,
    windows: Vec<RateLimitWindow>,
    now: Moment,
    i: int,
)
    requires
        last.windows == Some(windows),
        0 <= i < windows@.len(),
    ensures
        ({
            let before = usage_of_all(rows, policies, now);
            let after = usage_of_all(rows, policies.push(last), now);
            &&& after.len() == before.len() + windows@.len()
            &&& after.take(before.len() as int) == before
            &&& after[before.len() + i] == usage_of(
                rows,
                resource_name(last.resource_type),
                windows@[i],
                now,
            )
        }),
        usage_of_all(rows, Seq::empty(), now).len() == 0,
{
    assert(policies.push(last).drop_last() =~= policies);
    let before = usage_of_all(rows, policies, now);
    assert(usage_of_all(rows, policies.push(last), now).take(before.len() as int) =~= before);
}

} // verus!
