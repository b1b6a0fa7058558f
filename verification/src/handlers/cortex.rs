//! What the memory of past errors holds: patterns, the skills that they add up to,
//! and figures about them.

use crate::handlers;
use crate::http;
use crate::http::Reply;
use crate::identity;
use crate::identity::{IdentityKind, TenantId, UserIdentity, UserIdentityView};
use crate::json::{Json, JsonView};
use crate::text;
use vstd::prelude::*;

verus! {

/// The tenant whose patterns a caller sees. A consumer whose claims name only the
/// tenant that all consumers share sees those of its own tenant.
pub open spec fn patterns_tenant(
    caller: Option<UserIdentityView>,
    default_tenant: Seq<char>,
) -> Seq<char> {
    let tenant = handlers::tenant_of_identity(caller, default_tenant);
    if caller is Some && caller->Some_0.identity_kind is ConsumerUser && tenant
        == "zaru-consumer"@ && caller->Some_0.sub.len() > 0 {
        identity::consumer_user_slug(caller->Some_0.sub)
    } else {
        tenant
    }
}

/// The tenant whose patterns a caller sees.
pub fn cortex_request_tenant_id(caller: Option<&UserIdentity>, default_tenant: &TenantId) -> (r:
    String)
    ensures
        r@ == patterns_tenant(identity::opt_identity(caller), default_tenant@),
{
    let tenant = handlers::tenant_id_from_identity(caller, default_tenant);
    if let Some(i) = caller {
        let consumer = match &i.identity_kind {
            IdentityKind::ConsumerUser { .. } => true,
            _ => false,
        };
        if consumer && text::str_eq(tenant.as_str(), "zaru-consumer") {
            if let Some(own) = TenantId::for_consumer_user(i.sub.as_str()) {
                return own.as_str().to_owned();
            }
        }
    }
    tenant.as_str().to_owned()
}

/// The answer where there is no memory.
pub fn cortex_not_configured_reply() -> (r: Reply)
    ensures
        r@ == http::json_reply(
            503,
            JsonView::object().with("error"@, JsonView::Str("cortex_not_configured"@)).with(
                "message"@,
                JsonView::Str(
                    "Cortex gRPC service is not configured; orchestrator running in memoryless mode"@,
                ),
            ),
        ),
{
    Reply::json(
        503,
        Json::object().with("error", Json::text("cortex_not_configured")).with(
            "message",
            Json::text(
                "Cortex gRPC service is not configured; orchestrator running in memoryless mode",
            ),
        ),
    )
}

/// What is asked of the memory.
pub struct QueryPatternsRequest {
    pub error_signature: String,
    pub limit: u32,
    pub tenant_id: String,
}

/// What is asked of the memory to list patterns: those like the given error, 100 of
/// them unless the request says otherwise. A number that does not fit into 32 bits
/// loses its upper ones.
pub fn list_patterns_query(
    q: Option<String>,
    limit: Option<usize>,
    caller: Option<&UserIdentity>,
    default_tenant: &TenantId,
) -> (r: QueryPatternsRequest)
    ensures
        r.error_signature@ == (match q {
            Some(s) => s@,
            None => Seq::empty(),
        }),
        r.limit == (match limit {
            Some(n) => n as u32,
            None => 100,
        }),
        r.tenant_id@ == patterns_tenant(identity::opt_identity(caller), default_tenant@),
{
    let error_signature = match q {
        Some(s) => s,
        None => String::new(),
    };
    let limit: u32 = match limit {
        Some(n) => #[verifier::truncate] (n as u32),
        None => 100,
    };
    QueryPatternsRequest {
        error_signature,
        limit,
        tenant_id: cortex_request_tenant_id(caller, default_tenant),
    }
}

/// The number of patterns that skills are made of.
pub const SKILLS_LIMIT: u32 = 500;

/// The number of patterns that figures are made of.
pub const METRICS_LIMIT: u32 = 1000;

/// What is asked of the memory for all patterns, up to a number.
fn all_patterns_query(
    limit: u32,
    caller: Option<&UserIdentity>,
    default_tenant: &TenantId,
) -> (r: QueryPatternsRequest)
    ensures
        r.error_signature@ == Seq::<char>::empty(),
        r.limit == limit,
        r.tenant_id@ == patterns_tenant(identity::opt_identity(caller), default_tenant@),
{
    QueryPatternsRequest {
        error_signature: String::new(),
        limit,
        tenant_id: cortex_request_tenant_id(caller, default_tenant),
    }
}

/// What is asked of the memory for skills: the first 500 patterns of the tenant.
pub fn skills_query(caller: Option<&UserIdentity>, default_tenant: &TenantId) -> (r:
    QueryPatternsRequest)
    ensures
        r.error_signature@ == Seq::<char>::empty(),
        r.limit == 500,
        r.tenant_id@ == patterns_tenant(identity::opt_identity(caller), default_tenant@),
{
    all_patterns_query(SKILLS_LIMIT, caller, default_tenant)
}

/// What is asked of the memory for figures: the first 1000 patterns of the tenant.
pub fn metrics_query(caller: Option<&UserIdentity>, default_tenant: &TenantId) -> (r:
    QueryPatternsRequest)
    ensures
        r.error_signature@ == Seq::<char>::empty(),
        r.limit == 1000,
        r.tenant_id@ == patterns_tenant(identity::opt_identity(caller), default_tenant@),
{
    all_patterns_query(METRICS_LIMIT, caller, default_tenant)
}

/// A pattern, as it is shown. Its score and its times are shown as they are.
pub struct Pattern {
    pub id: String,
    pub error_signature_hash: String,
    pub error_type: String,
    pub error_message: String,
    pub solution_approach: String,
    pub solution_code: Json,
    pub frequency: u32,
    pub success_count: u32,
    pub total_count: u32,
    pub success_score: Json,
    pub created_at: Json,
    pub last_used_at: Json,
}

impl Pattern {
    /// The pattern as it is shown.
    pub open spec fn shown(&self) -> JsonView {
        JsonView::object().with("id"@, JsonView::Str(self.id@)).with(
            "error_signature_hash"@,
            JsonView::Str(self.error_signature_hash@),
        ).with("error_type"@, JsonView::Str(self.error_type@)).with(
            "error_message"@,
            JsonView::Str(self.error_message@),
        ).with("solution_approach"@, JsonView::Str(self.solution_approach@)).with(
            "solution_code"@,
            self.solution_code@,
        ).with("frequency"@, JsonView::Int(self.frequency as int)).with(
            "success_count"@,
            JsonView::Int(self.success_count as int),
        ).with("total_count"@, JsonView::Int(self.total_count as int)).with(
            "success_score"@,
            self.success_score@,
        ).with("created_at"@, self.created_at@).with("last_used_at"@, self.last_used_at@)
    }

    /// The pattern as it is shown.
    pub fn show(&self) -> (r: Json)
        ensures
            r@ == self.shown(),
    {
        Json::object().with("id", Json::text(self.id.as_str())).with(
            "error_signature_hash",
            Json::text(self.error_signature_hash.as_str()),
        ).with("error_type", Json::text(self.error_type.as_str())).with(
            "error_message",
            Json::text(self.error_message.as_str()),
        ).with("solution_approach", Json::text(self.solution_approach.as_str())).with(
            "solution_code",
            self.solution_code.copy(),
        ).with("frequency", Json::Int(self.frequency as i128)).with(
            "success_count",
            Json::Int(self.success_count as i128),
        ).with("total_count", Json::Int(self.total_count as i128)).with(
            "success_score",
            self.success_score.copy(),
        ).with("created_at", self.created_at.copy()).with("last_used_at", self.last_used_at.copy())
    }
}

/// The answer where the memory failed.
pub open spec fn query_failed(e: Seq<char>) -> http::ReplyView {
    http::error_reply(500, "cortex_query_failed: "@ + e)
}

/// The answer where the memory failed.
pub fn query_failed_reply(e: &str) -> (r: Reply)
    ensures
        r@ == query_failed(e@),
{
    let message = "cortex_query_failed: ".to_owned().concat(e);
    Reply::error(500, message.as_str())
}

/// The answer that lists patterns.
pub fn list_patterns_reply(outcome: Result<Vec<Pattern>, String>) -> (r: Reply)
    ensures
        r@ == (match outcome {
            Ok(patterns) => http::json_reply(
                200,
                JsonView::object().with(
                    "items"@,
                    JsonView::Arr(patterns@.map_values(|p: Pattern| p.shown())),
                ),
            ),
            Err(e) => query_failed(e@),
        }),
{
    match outcome {
        Ok(patterns) => {
            let mut items: Vec<Json> = Vec::new();
            let mut i: usize = 0;
            while i < patterns.len()
                invariant
                    i <= patterns@.len(),
                    items@.len() == i,
                    forall|k: int| 0 <= k < i ==> #[trigger] items@[k]@ == patterns@[k].shown(),
                decreases patterns@.len() - i,
            {
                items.push(patterns[i].show());
                i += 1;
            }
            assert(crate::json::json_views(items@) =~= patterns@.map_values(
                |p: Pattern| p.shown(),
            ));
            Reply::json(200, Json::object().with("items", Json::array(items)))
        },
        Err(e) => query_failed_reply(e.as_str()),
    }
}

/// The category of a type of error. Errors without a type are general.
pub open spec fn category_of(error_type: Seq<char>) -> Seq<char> {
    if error_type.len() == 0 {
        "general"@
    } else {
        error_type
    }
}

/// The category of a type of error.
pub fn category(error_type: &str) -> (r: &str)
    ensures
        r@ == category_of(error_type@),
{
    if error_type.is_empty() {
        "general"
    } else {
        error_type
    }
}

/// The words of a sequence, each once, in the order in which they first occur.
pub open spec fn distinct(words: Seq<Seq<char>>) -> Seq<Seq<char>>
    decreases words.len(),
{
    if words.len() == 0 {
        Seq::empty()
    } else {
        let before = distinct(words.drop_last());
        if before.contains(words.last()) {
            before
        } else {
            before.push(words.last())
        }
    }
}

fn add_distinct(words: &mut Vec<String>, word: &str)
    ensures
        text::views(final(words)@) == (if text::views(old(words)@).contains(word@) {
            text::views(old(words)@)
        } else {
            text::views(old(words)@).push(word@)
        }),
{
    let ghost before = text::views(words@);
    let mut i: usize = 0;
    while i < words.len()
        invariant
            i <= words@.len(),
            before == text::views(words@),
            words@ == old(words)@,
            forall|k: int| 0 <= k < i ==> before[k] != word@,
        decreases words@.len() - i,
    {
        assert(before[i as int] == words@[i as int]@);
        if text::str_eq(words[i].as_str(), word) {
            return ;
        }
        i += 1;
    }
    assert(!before.contains(word@));
    words.push(word.to_owned());
    assert(text::views(words@) =~= before.push(word@));
}

/// The categories of patterns, one for each pattern.
pub open spec fn category_list(patterns: Seq<Pattern>) -> Seq<Seq<char>> {
    patterns.map_values(|p: Pattern| category_of(p.error_type@))
}

/// The number of patterns in a category.
pub open spec fn pattern_count(patterns: Seq<Pattern>, category: Seq<char>) -> nat
    decreases patterns.len(),
{
    if patterns.len() == 0 {
        0
    } else {
        pattern_count(patterns.drop_last(), category) + (if category_of(patterns.last().error_type@)
            == category {
            1nat
        } else {
            0nat
        })
    }
}

/// How often the patterns of a category were met.
pub open spec fn usage_count(patterns: Seq<Pattern>, category: Seq<char>) -> nat
    decreases patterns.len(),
{
    if patterns.len() == 0 {
        0
    } else {
        usage_count(patterns.drop_last(), category) + (if category_of(patterns.last().error_type@)
            == category {
            patterns.last().frequency as nat
        } else {
            0nat
        })
    }
}

/// A skill: what the patterns of a category add up to.
pub struct Skill {
    pub category: String,
    pub pattern_count: u64,
    pub usage_count: u64,
}

/// The mathematical content of a skill.
pub struct SkillView {
    pub category: Seq<char>,
    pub pattern_count: nat,
    pub usage_count: nat,
}

impl View for Skill {
    type V = SkillView;

    open spec fn view(&self) -> SkillView {
        SkillView {
            category: self.category@,
            pattern_count: self.pattern_count as nat,
            usage_count: self.usage_count as nat,
        }
    }
}

impl Skill {
    /// The skill as it is shown, with its rate of success: five patterns make it
    /// advanced.
    pub open spec fn shown(&self, success_rate: JsonView) -> JsonView {
        JsonView::object().with("id"@, JsonView::Str(self.category@)).with(
            "name"@,
            JsonView::Str(self.category@),
        ).with(
            "description"@,
            JsonView::Str("Learned patterns for "@ + self.category@ + " errors"@),
        ).with("category"@, JsonView::Str(self.category@)).with(
            "level"@,
            JsonView::Str(
                if self.pattern_count >= 5 {
                    "advanced"@
                } else {
                    "intermediate"@
                },
            ),
        ).with("patternCount"@, JsonView::Int(self.pattern_count as int)).with(
            "usageCount"@,
            JsonView::Int(self.usage_count as int),
        ).with("successRate"@, success_rate)
    }

    /// The skill as it is shown, with its rate of success.
    pub fn show(&self, success_rate: Json) -> (r: Json)
        ensures
            r@ == self.shown(success_rate@),
    {
        let description = "Learned patterns for ".to_owned().concat(self.category.as_str()).concat(
            " errors",
        );
        let level = if self.pattern_count >= 5 { "advanced" } else { "intermediate" };
        Json::object().with("id", Json::text(self.category.as_str())).with(
            "name",
            Json::text(self.category.as_str()),
        ).with("description", Json::Str(description)).with(
            "category",
            Json::text(self.category.as_str()),
        ).with("level", Json::text(level)).with(
            "patternCount",
            Json::Int(self.pattern_count as i128),
        ).with("usageCount", Json::Int(self.usage_count as i128)).with("successRate", success_rate)
    }
}

/// The skills that patterns add up to, one for each category that occurs.
pub open spec fn skills(patterns: Seq<Pattern>) -> Seq<SkillView> {
    distinct(category_list(patterns)).map_values(
        |c: Seq<char>|
            SkillView {
                category: c,
                pattern_count: pattern_count(patterns, c),
                usage_count: usage_count(patterns, c),
            },
    )
}

fn skill_of(patterns: &Vec<Pattern>, name: &str) -> (r: Skill)
    requires
        patterns@.len() <= u32::MAX,
    ensures
        r@ == (SkillView {
            category: name@,
            pattern_count: pattern_count(patterns@, name@),
            usage_count: usage_count(patterns@, name@),
        }),
{
    let mut count: u64 = 0;
    let mut usage: u64 = 0;
    let mut i: usize = 0;
    while i < patterns.len()
        invariant
            i <= patterns@.len() <= u32::MAX,
            count <= i,
            usage <= i * (u32::MAX as int),
            count == pattern_count(patterns@.take(i as int), name@),
            usage == usage_count(patterns@.take(i as int), name@),
        decreases patterns@.len() - i,
    {
        assert(patterns@.take(i + 1).drop_last() =~= patterns@.take(i as int));
        assert(patterns@.take(i + 1).last() == patterns@[i as int]);
        assert(i * (u32::MAX as int) <= u32::MAX * (u32::MAX as int)) by (nonlinear_arith)
            requires
                0 <= i <= u32::MAX,
        ;
        assert((i + 1) * (u32::MAX as int) == i * (u32::MAX as int) + u32::MAX)
            by (nonlinear_arith);
        if text::str_eq(category(patterns[i].error_type.as_str()), name) {
            count += 1;
            usage += patterns[i].frequency as u64;
        }
        i += 1;
    }
    assert(patterns@.take(patterns@.len() as int) =~= patterns@);
    Skill { category: name.to_owned(), pattern_count: count, usage_count: usage }
}

/// The skills that patterns add up to. Their rates of success are averages, and not
/// among them.
pub fn aggregate_skills(patterns: &Vec<Pattern>) -> (r: Vec<Skill>)
    requires
        patterns@.len() <= u32::MAX,
    ensures
        r@.map_values(|s: Skill| s@) == skills(patterns@),
{
    let mut names: Vec<String> = Vec::new();
    let mut i: usize = 0;
    assert(text::views(names@) =~= distinct(category_list(patterns@.take(0))));
    while i < patterns.len()
        invariant
            i <= patterns@.len(),
            text::views(names@) == distinct(category_list(patterns@.take(i as int))),
        decreases patterns@.len() - i,
    {
        proof {
            let upto = category_list(patterns@.take(i + 1));
            assert(upto.drop_last() =~= category_list(patterns@.take(i as int)));
            assert(upto.last() == category_of(patterns@[i as int].error_type@));
        }
        add_distinct(&mut names, category(patterns[i].error_type.as_str()));
        i += 1;
    }
    assert(patterns@.take(patterns@.len() as int) =~= patterns@);
    let mut found: Vec<Skill> = Vec::new();
    let mut j: usize = 0;
    while j < names.len()
        invariant
            j <= names@.len(),
            found@.len() == j,
            patterns@.len() <= u32::MAX,
            forall|k: int|
                0 <= k < j ==> #[trigger] found@[k]@ == (SkillView {
                    category: names@[k]@,
                    pattern_count: pattern_count(patterns@, names@[k]@),
                    usage_count: usage_count(patterns@, names@[k]@),
                }),
        decreases names@.len() - j,
    {
        found.push(skill_of(patterns, names[j].as_str()));
        j += 1;
    }
    proof {
        let shown = found@.map_values(|s: Skill| s@);
        let wanted = skills(patterns@);
        assert forall|k: int| 0 <= k < wanted.len() implies #[trigger] shown[k] == wanted[k] by {
            assert(text::views(names@)[k] == names@[k]@);
            assert(found@[k]@ == shown[k]);
        }
        assert(shown =~= wanted);
    }
    found
}

/// How often patterns were met, all together.
pub open spec fn total_frequency(patterns: Seq<Pattern>) -> nat
    decreases patterns.len(),
{
    if patterns.len() == 0 {
        0
    } else {
        total_frequency(patterns.drop_last()) + patterns.last().frequency as nat
    }
}

/// The types of error of patterns that have one, each once, in the order in which
/// they first occur.
pub open spec fn error_types(patterns: Seq<Pattern>) -> Seq<Seq<char>>
    decreases patterns.len(),
{
    if patterns.len() == 0 {
        Seq::empty()
    } else {
        let before = error_types(patterns.drop_last());
        let last = patterns.last().error_type@;
        if last.len() == 0 || before.contains(last) {
            before
        } else {
            before.push(last)
        }
    }
}

/// Figures about patterns.
pub struct Metrics {
    pub total_patterns: usize,
    pub total_frequency: u64,
    pub error_types: Vec<String>,
}

/// Figures about patterns. Their average score is not among them.
pub fn pattern_metrics(patterns: &Vec<Pattern>) -> (r: Metrics)
    requires
        patterns@.len() <= u32::MAX,
    ensures
        r.total_patterns == patterns@.len(),
        r.total_frequency == total_frequency(patterns@),
        text::views(r.error_types@) == error_types(patterns@),
{
    let mut total: u64 = 0;
    let mut types: Vec<String> = Vec::new();
    let mut i: usize = 0;
    assert(text::views(types@) =~= error_types(patterns@.take(0)));
    while i < patterns.len()
        invariant
            i <= patterns@.len() <= u32::MAX,
            total <= i * (u32::MAX as int),
            total == total_frequency(patterns@.take(i as int)),
            text::views(types@) == error_types(patterns@.take(i as int)),
        decreases patterns@.len() - i,
    {
        assert(patterns@.take(i + 1).drop_last() =~= patterns@.take(i as int));
        assert(patterns@.take(i + 1).last() == patterns@[i as int]);
        assert(i * (u32::MAX as int) <= u32::MAX * (u32::MAX as int)) by (nonlinear_arith)
            requires
                0 <= i <= u32::MAX,
        ;
        assert((i + 1) * (u32::MAX as int) == i * (u32::MAX as int) + u32::MAX)
            by (nonlinear_arith);
        total += patterns[i].frequency as u64;
        if !patterns[i].error_type.as_str().is_empty() {
            add_distinct(&mut types, patterns[i].error_type.as_str());
        }
        i += 1;
    }
    assert(patterns@.take(patterns@.len() as int) =~= patterns@);
    Metrics { total_patterns: patterns.len(), total_frequency: total, error_types: types }
}

impl Metrics {
    /// The figures as they are shown, with the average score: at most five types of
    /// error are named, and what is not measured is 0.
    pub open spec fn shown(&self, average: JsonView) -> JsonView {
        let named = text::views(self.error_types@).take(
            if self.error_types@.len() < 5 {
                self.error_types@.len() as int
            } else {
                5
            },
        );
        JsonView::object().with("totalPatterns"@, JsonView::Int(self.total_patterns as int)).with(
            "totalSkills"@,
            JsonView::Int(self.error_types@.len() as int),
        ).with("avgSuccessRate"@, average).with(
            "totalFrequency"@,
            JsonView::Int(self.total_frequency as int),
        ).with("patternsThisWeek"@, JsonView::Int(0)).with("growthRate"@, JsonView::Int(0)).with(
            "firstAttemptSuccessRate"@,
            JsonView::Int(0),
        ).with("averageIterations"@, JsonView::Int(0)).with(
            "learningVelocity"@,
            JsonView::Int(0),
        ).with("mostUsedSkills"@, JsonView::Arr(named.map_values(|t: Seq<char>| JsonView::Str(t))))
    }

    /// The figures as they are shown, with the average score.
    pub fn show(&self, average: Json) -> (r: Json)
        ensures
            r@ == self.shown(average@),
    {
        let mut named: Vec<Json> = Vec::new();
        let most: usize = if self.error_types.len() < 5 { self.error_types.len() } else { 5 };
        let mut i: usize = 0;
        while i < most
            invariant
                i <= most <= self.error_types@.len(),
                named@.len() == i,
                forall|k: int|
                    0 <= k < i ==> #[trigger] named@[k]@ == JsonView::Str(self.error_types@[k]@),
            decreases most - i,
        {
            named.push(Json::text(self.error_types[i].as_str()));
            i += 1;
        }
        assert(crate::json::json_views(named@) =~= text::views(self.error_types@).take(
            most as int,
        ).map_values(|t: Seq<char>| JsonView::Str(t)));
        Json::object().with("totalPatterns", Json::Int(self.total_patterns as i128)).with(
            "totalSkills",
            Json::Int(self.error_types.len() as i128),
        ).with("avgSuccessRate", average).with(
            "totalFrequency",
            Json::Int(self.total_frequency as i128),
        ).with("patternsThisWeek", Json::Int(0)).with("growthRate", Json::Int(0)).with(
            "firstAttemptSuccessRate",
            Json::Int(0),
        ).with("averageIterations", Json::Int(0)).with("learningVelocity", Json::Int(0)).with(
            "mostUsedSkills",
            Json::array(named),
        )
    }
}

/// The tenant whose patterns a consumer with a subject sees is never empty, and never
/// the one that all consumers share, unless the claims name an empty tenant.
pub proof fn law_consumers_see_their_own_patterns(
    caller: UserIdentityView,
    default_tenant: Seq<char>,
)
    requires
        caller.identity_kind is ConsumerUser,
        caller.identity_kind->ConsumerUser_tenant_id.len() > 0,
        caller.sub.len() > 0,
    ensures
        patterns_tenant(Some(caller), default_tenant).len() > 0,
        patterns_tenant(Some(caller), default_tenant) != "zaru-consumer"@,
{
    reveal_strlit("u-");
    reveal_strlit("zaru-consumer");
    assert("u-"@[0] == 'u');
    assert("zaru-consumer"@[0] == 'z');
    assert(identity::consumer_user_slug(caller.sub)[0] == 'u');
}

proof fn lemma_pattern_counts_add_up(patterns: Seq<Pattern>, category: Seq<char>)
    ensures
        distinct(category_list(patterns)).contains(category) <==> pattern_count(patterns, category)
            > 0,
    decreases patterns.len(),
{
    let all = category_list(patterns);
    if patterns.len() > 0 {
        let front = patterns.drop_last();
        lemma_pattern_counts_add_up(front, category);
        assert(all.drop_last() =~= category_list(front));
        let before = distinct(category_list(front));
        let last = category_of(patterns.last().error_type@);
        assert(all.last() == last);
        if !before.contains(last) {
            let longer = before.push(last);
            if longer.contains(category) {
                let i = choose|i: int| 0 <= i < longer.len() && longer[i] == category;
                if i < before.len() {
                    assert(before[i] == category);
                }
            }
            if before.contains(category) {
                let i = choose|i: int| 0 <= i < before.len() && before[i] == category;
                assert(longer[i] == category);
            }
            if last == category {
                assert(longer[before.len() as int] == category);
            }
        }
    }
}

/// There is a skill exactly for each category that a pattern has, and it counts at
/// least one pattern.
pub proof fn law_skills_are_of_patterns(patterns: Seq<Pattern>, category: Seq<char>)
    ensures
        (exists|i: int| 0 <= i < skills(patterns).len() && #[trigger] skills(patterns)[i].category
            == category) <==> pattern_count(patterns, category) > 0,
{
    lemma_pattern_counts_add_up(patterns, category);
    let names = distinct(category_list(patterns));
    if names.contains(category) {
        let i = choose|i: int| 0 <= i < names.len() && names[i] == category;
        assert(skills(patterns)[i].category == category);
    }
    if exists|i: int| 0 <= i < skills(patterns).len() && #[trigger] skills(patterns)[i].category
        == category {
        let i = choose|i: int|
            0 <= i < skills(patterns).len() && #[trigger] skills(patterns)[i].category == category;
        assert(names[i] == category);
    }
}

/// The pattern as it is shown: each part is found under its own name, as it is.
pub proof fn law_pattern_shown_holds_its_parts(
    row: Pattern,
)
    ensures
        row.shown().get("id"@) == Some(JsonView::Str(row.id@)),
        row.shown().get("error_signature_hash"@) == Some(JsonView::Str(row.error_signature_hash@)),
        row.shown().get("error_type"@) == Some(JsonView::Str(row.error_type@)),
        row.shown().get("error_message"@) == Some(JsonView::Str(row.error_message@)),
        row.shown().get("solution_approach"@) == Some(JsonView::Str(row.solution_approach@)),
        row.shown().get("solution_code"@) == Some(row.solution_code@),
        row.shown().get("frequency"@) == Some(JsonView::Int(row.frequency as int)),
        row.shown().get("success_count"@) == Some(JsonView::Int(row.success_count as int)),
        row.shown().get("total_count"@) == Some(JsonView::Int(row.total_count as int)),
        row.shown().get("success_score"@) == Some(row.success_score@),
        row.shown().get("created_at"@) == Some(row.created_at@),
        row.shown().get("last_used_at"@) == Some(row.last_used_at@),
{
    broadcast use crate::json::lemma_get_with;

    reveal_strlit("id");
    reveal_strlit("error_signature_hash");
    reveal_strlit("error_type");
    reveal_strlit("error_message");
    reveal_strlit("solution_approach");
    reveal_strlit("solution_code");
    reveal_strlit("frequency");
    reveal_strlit("success_count");
    reveal_strlit("total_count");
    reveal_strlit("success_score");
    reveal_strlit("created_at");
    reveal_strlit("last_used_at");
    assert("id"@.len() == 2 && "error_signature_hash"@.len() == 20 && "error_type"@.len() == 10 && "error_message"@.len() == 13 && "solution_approach"@.len() == 17 && "solution_code"@.len() == 13 && "frequency"@.len() == 9 && "success_count"@.len() == 13 && "total_count"@.len() == 11 && "success_score"@.len() == 13 && "created_at"@.len() == 10 && "last_used_at"@.len() == 12 && "solution_code"@[0] == 's' && "error_message"@[0] == 'e' && "success_count"@[0] == 's' && "success_count"@[1] == 'u' && "solution_code"@[1] == 'o' && "success_score"@[0] == 's' && "success_score"@[1] == 'u' && "success_score"@[8] == 's' && "success_count"@[8] == 'c' && "created_at"@[0] == 'c' && "error_type"@[0] == 'e');
}

/// The skill as it is shown, with its rate of success: each part is found under its own
/// name, as it is.
pub proof fn law_skill_shown_holds_its_parts(
    row: Skill,
    success_rate: JsonView,
)
    ensures
        row.shown(success_rate).get("id"@) == Some(JsonView::Str(row.category@)),
        row.shown(success_rate).get("name"@) == Some(JsonView::Str(row.category@)),
        row.shown(success_rate).get("description"@) == Some(JsonView::Str("Learned patterns for "@ + row.category@ + " errors"@)),
        row.shown(success_rate).get("category"@) == Some(JsonView::Str(row.category@)),
        row.shown(success_rate).get("level"@) == Some(JsonView::Str( if row.pattern_count >= 5 { "advanced"@ } else { "intermediate"@ }, )),
        row.shown(success_rate).get("patternCount"@) == Some(JsonView::Int(row.pattern_count as int)),
        row.shown(success_rate).get("usageCount"@) == Some(JsonView::Int(row.usage_count as int)),
        row.shown(success_rate).get("successRate"@) == Some(success_rate),
{
    broadcast use crate::json::lemma_get_with;

    reveal_strlit("id");
    reveal_strlit("name");
    reveal_strlit("description");
    reveal_strlit("category");
    reveal_strlit("level");
    reveal_strlit("patternCount");
    reveal_strlit("usageCount");
    reveal_strlit("successRate");
    assert("id"@.len() == 2 && "name"@.len() == 4 && "description"@.len() == 11 && "category"@.len() == 8 && "level"@.len() == 5 && "patternCount"@.len() == 12 && "usageCount"@.len() == 10 && "successRate"@.len() == 11 && "successRate"@[0] == 's' && "description"@[0] == 'd');
}

/// Every error type of the patterns is a category of their skills, once each, and there are
/// no others; what has no type is general.
pub proof fn law_every_category_is_a_skill(patterns: Seq<Pattern>, category: Seq<char>)
    ensures
        (exists|i: int| 0 <= i < skills(patterns).len() && #[trigger] skills(patterns)[i].category
            == category) <==> category_list(patterns).contains(category),
        forall|i: int, j: int|
            0 <= i < j < skills(patterns).len() ==> #[trigger] skills(patterns)[i].category
                != #[trigger] skills(patterns)[j].category,
{
    let words = category_list(patterns);
    lemma_distinct_words(words);
    let kept = distinct(words);
    assert forall|i: int| 0 <= i < kept.len() implies skills(patterns)[i].category == kept[i] by {}
    if words.contains(category) {
        assert(kept.contains(category));
        let i = choose|i: int| 0 <= i < kept.len() && kept[i] == category;
        assert(skills(patterns)[i].category == category);
    }
    if exists|i: int| 0 <= i < skills(patterns).len() && #[trigger] skills(patterns)[i].category
        == category {
        let i = choose|i: int|
            0 <= i < skills(patterns).len() && #[trigger] skills(patterns)[i].category == category;
        assert(kept[i] == category);
        assert(kept.contains(category));
    }
    assert forall|i: int, j: int| 0 <= i < j < skills(patterns).len() implies #[trigger] skills(
        patterns,
    )[i].category != #[trigger] skills(patterns)[j].category by {
        assert(kept[i] != kept[j]);
    }
}

/// Words are kept once each, and all of them.
pub proof fn lemma_distinct_words(words: Seq<Seq<char>>)
    ensures
        distinct(words).no_duplicates(),
        forall|w: Seq<char>| #[trigger] distinct(words).contains(w) <==> words.contains(w),
    decreases words.len(),
{
    if words.len() > 0 {
        let front = words.drop_last();
        let before = distinct(front);
        lemma_distinct_words(front);
        assert forall|w: Seq<char>| #[trigger] distinct(words).contains(w) <==> words.contains(
            w,
        ) by {
            if words.contains(w) {
                let i = choose|i: int| 0 <= i < words.len() && words[i] == w;
                if i < front.len() {
                    assert(front[i] == w);
                    assert(before.contains(w));
                }
                if !before.contains(words.last()) {
                    if w == words.last() {
                        assert(distinct(words)[before.len() as int] == w);
                    } else {
                        let k = choose|k: int| 0 <= k < before.len() && before[k] == w;
                        assert(distinct(words)[k] == w);
                    }
                }
            }
            if distinct(words).contains(w) {
                let k = choose|k: int| 0 <= k < distinct(words).len() && distinct(words)[k] == w;
                if k < before.len() {
                    assert(before[k] == w);
                    assert(distinct(front).contains(w));
                    assert(front.contains(w));
                    let i = choose|i: int| 0 <= i < front.len() && front[i] == w;
                    assert(words[i] == w);
                } else {
                    assert(words[words.len() - 1] == w);
                }
            }
        }
        assert forall|a: int, b: int| 0 <= a < b < distinct(words).len() implies distinct(words)[a]
            != distinct(words)[b] by {
            if b == before.len() {
                assert(before.contains(before[a]));
            }
        }
    }
}

/// A skill counts each pattern of its category once, and adds its frequency to its use.
pub proof fn law_each_pattern_counts_for_its_skill(
    patterns: Seq<Pattern>,
    last: Pattern,
    category: Seq<char>,
)
    ensures
        last.error_type@ == category && category.len() > 0 ==> pattern_count(
            patterns.push(last),
            category,
        ) == pattern_count(patterns, category) + 1 && usage_count(patterns.push(last), category)
            == usage_count(patterns, category) + last.frequency,
        last.error_type@.len() == 0 ==> pattern_count(patterns.push(last), "general"@)
            == pattern_count(patterns, "general"@) + 1,
        category_of(last.error_type@) != category ==> pattern_count(patterns.push(last), category)
            == pattern_count(patterns, category) && usage_count(patterns.push(last), category)
            == usage_count(patterns, category),
        pattern_count(Seq::empty(), category) == 0,
        usage_count(Seq::empty(), category) == 0,
        total_frequency(patterns.push(last)) == total_frequency(patterns) + last.frequency,
        total_frequency(Seq::empty()) == 0,
{
    assert(patterns.push(last).drop_last() =~= patterns);
}

/// The error types are those that the patterns name, each once, and nothing empty.
pub proof fn law_error_types_are_named_once(patterns: Seq<Pattern>, last: Pattern, i: int)
    ensures
        last.error_type@.len() == 0 ==> error_types(patterns.push(last)) == error_types(patterns),
        error_types(patterns).contains(last.error_type@) ==> error_types(patterns.push(last))
            == error_types(patterns),
        last.error_type@.len() > 0 && !error_types(patterns).contains(last.error_type@)
            ==> error_types(patterns.push(last)) == error_types(patterns).push(last.error_type@),
        error_types(Seq::empty()).len() == 0,
        0 <= i < error_types(patterns).len() ==> error_types(patterns)[i].len() > 0,
    decreases patterns.len(),
{
    assert(patterns.push(last).drop_last() =~= patterns);
    if patterns.len() > 0 {
        law_error_types_are_named_once(patterns.drop_last(), last, i);
    }
}

/// A skill is shown under its category, with its counts; it is advanced from five patterns
/// on.
pub proof fn law_a_skill_is_shown_by_its_category(skill: Skill, rate: JsonView)
    ensures
        skill.shown(rate).get("id"@) == Some(JsonView::Str(skill.category@)),
        skill.shown(rate).get("name"@) == Some(JsonView::Str(skill.category@)),
        skill.shown(rate).get("category"@) == Some(JsonView::Str(skill.category@)),
        skill.shown(rate).get("patternCount"@) == Some(JsonView::Int(skill.pattern_count as int)),
        skill.shown(rate).get("usageCount"@) == Some(JsonView::Int(skill.usage_count as int)),
        skill.shown(rate).get("successRate"@) == Some(rate),
        skill.pattern_count >= 5 ==> skill.shown(rate).get("level"@) == Some(
            JsonView::Str("advanced"@),
        ),
        skill.pattern_count < 5 ==> skill.shown(rate).get("level"@) == Some(
            JsonView::Str("intermediate"@),
        ),
{
    broadcast use crate::json::lemma_get_with;

    reveal_strlit("id");
    reveal_strlit("name");
    reveal_strlit("description");
    reveal_strlit("category");
    reveal_strlit("level");
    reveal_strlit("patternCount");
    reveal_strlit("usageCount");
    reveal_strlit("successRate");
    assert("id"@.len() == 2 && "name"@.len() == 4 && "description"@.len() == 11 && "category"@.len() == 8 && "level"@.len() == 5 && "patternCount"@.len() == 12 && "usageCount"@.len() == 10 && "successRate"@.len() == 11 && "successRate"@[0] == 's' && "description"@[0] == 'd');
}

/// The measures tell how many patterns and types there are and how often the patterns were
/// used, and name the first five types.
pub proof fn law_measures_are_told(metrics: Metrics, average: JsonView, i: int)
    requires
        0 <= i < metrics.error_types@.len(),
        i < 5,
    ensures
        metrics.shown(average).get("totalPatterns"@) == Some(
            JsonView::Int(metrics.total_patterns as int),
        ),
        metrics.shown(average).get("totalSkills"@) == Some(
            JsonView::Int(metrics.error_types@.len() as int),
        ),
        metrics.shown(average).get("avgSuccessRate"@) == Some(average),
        metrics.shown(average).get("totalFrequency"@) == Some(
            JsonView::Int(metrics.total_frequency as int),
        ),
        metrics.shown(average).get("mostUsedSkills"@) matches Some(JsonView::Arr(named))
            && named.len() <= 5 && named.len() <= metrics.error_types@.len() && i < named.len()
            && named[i] == JsonView::Str(metrics.error_types@[i]@),
{
    broadcast use crate::json::lemma_get_with;

    reveal_strlit("totalPatterns");
    reveal_strlit("totalSkills");
    reveal_strlit("avgSuccessRate");
    reveal_strlit("totalFrequency");
    reveal_strlit("patternsThisWeek");
    reveal_strlit("growthRate");
    reveal_strlit("firstAttemptSuccessRate");
    reveal_strlit("averageIterations");
    reveal_strlit("learningVelocity");
    reveal_strlit("mostUsedSkills");
    assert("totalPatterns"@.len() == 13 && "totalSkills"@.len() == 11 && "avgSuccessRate"@.len() == 14 && "totalFrequency"@.len() == 14 && "patternsThisWeek"@.len() == 16 && "growthRate"@.len() == 10 && "firstAttemptSuccessRate"@.len() == 23 && "averageIterations"@.len() == 17 && "learningVelocity"@.len() == 16 && "mostUsedSkills"@.len() == 14 && "totalFrequency"@[0] == 't' && "avgSuccessRate"@[0] == 'a' && "learningVelocity"@[0] == 'l' && "patternsThisWeek"@[0] == 'p' && "mostUsedSkills"@[0] == 'm');
}

/// Consumers of the shared tenant see the patterns of their own; everybody else sees those
/// of their tenant.
pub proof fn law_consumers_have_patterns_of_their_own(i: UserIdentityView, default: Seq<char>)
    ensures
        i.identity_kind is ConsumerUser && i.sub.len() > 0 && handlers::tenant_of_identity(
            Some(i),
            default,
        ) == "zaru-consumer"@ ==> patterns_tenant(Some(i), default)
            == identity::consumer_user_slug(i.sub),
        !(i.identity_kind is ConsumerUser) ==> patterns_tenant(Some(i), default)
            == handlers::tenant_of_identity(Some(i), default),
        handlers::tenant_of_identity(Some(i), default) != "zaru-consumer"@ ==> patterns_tenant(
            Some(i),
            default,
        ) == handlers::tenant_of_identity(Some(i), default),
{
}

} // verus!
