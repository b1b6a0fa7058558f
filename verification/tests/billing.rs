use aegis_daemon::handlers::billing::catalog::{
    find_seat_price_id, list_prices, list_prices_reply, Price, PriceListAction, PriceListEvent,
    PriceListRequest, Product,
};
use aegis_daemon::handlers::billing::checkout::{
    get_subscription_reply, invoices_customer, list_invoices_reply, portal_customer, portal_reply,
    Checkout, CheckoutAction, CheckoutEvent, CheckoutRequest, Invoice, SubscriptionLookup,
};
use aegis_daemon::handlers::billing::report::{
    after_effect, AfterEffect, Effect, Report, ReportAction, ReportEvent,
};
use aegis_daemon::handlers::billing::seats::{
    plan_seat_change, update_seats_step, ItemChange, Proration, SeatsAction, SeatsChange, SeatsEvent,
    SubscriptionItem, UpdateSeatsRequest,
};
use aegis_daemon::handlers::billing::tier_writes::{
    invalidate_zaru_sessions, TierWrite, TierWriteAction, TierWriteEvent,
};
use aegis_daemon::handlers::billing::tiers::{
    consumer_tenant_id_to_user_sub, extract_tier_from_subscription, included_seats_for_tier,
    item_is_seat_addon, needs_team, product_name_to_tier,
    reconcile_team_suspension, seat_product_tier, str_to_tier, sync_tier, sync_tier_to_keycloak,
    tier_for_seat_item, tier_to_str, TeamEffect, TeamPlan, TierSync,
};
use aegis_daemon::handlers::billing::webhook::{
    checkout_seats_fit, checkout_tenant_id, compute_reconciled_seats, event_customer,
    handle_checkout_completed, handle_payment_failed, handle_subscription_deleted,
    handle_subscription_updated, migrate_seat_addon_if_needed, moment_of, plan_migration,
    process_stripe_event, reconciled_seats_fit, subscription_status_name, StripeEventKind,
};
use aegis_daemon::handlers::billing::{billing_gate, not_implemented, stripe_key};
use aegis_daemon::http::Reply;
use aegis_daemon::identity::{IdentityKind, TenantId, UserIdentity, ZaruTier};
use aegis_daemon::json::Json;
use aegis_daemon::tenancy::{SubscriptionStatus, TeamStatus, TenantSubscription, TenantTier};

fn lib_json(value: &serde_json::Value) -> Json {
    aegis_daemon::json_value::read_value(value)
}

fn json(text: &str) -> Json {
    lib_json(&serde_json::from_str(text).expect("valid JSON"))
}

fn value_of(json: &Json) -> serde_json::Value {
    match json {
        Json::Null => serde_json::Value::Null,
        Json::Bool(b) => serde_json::Value::from(*b),
        Json::Int(n) => match (i64::try_from(*n), u64::try_from(*n)) {
            (Ok(i), _) => serde_json::Value::from(i),
            (_, Ok(u)) => serde_json::Value::from(u),
            _ => panic!("the number does not fit"),
        },
        Json::Real(text) => serde_json::from_str(text).expect("a number"),
        Json::Str(s) => serde_json::Value::from(s.as_str()),
        Json::Arr(items) => serde_json::Value::from(items.iter().map(value_of).collect::<Vec<_>>()),
        Json::Obj(members) => {
            let mut out = serde_json::Map::new();
            for (key, value) in members {
                out.insert(key.clone(), value_of(value));
            }
            serde_json::Value::from(out)
        }
    }
}

/// Checks a reply's status and its body, whatever the order of the members.
fn check(reply: &Reply, status: u16, body: &str) {
    assert_eq!(reply.status, status);
    let expected: serde_json::Value = serde_json::from_str(body).expect("valid JSON");
    assert_eq!(value_of(reply.body.as_ref().expect("a body")), expected);
}

#[test]
fn product_name_to_tier_maps_base_plans() {
    assert_eq!(product_name_to_tier("Zaru Pro"), Some(("pro", 0)));
    assert_eq!(product_name_to_tier("Zaru Business"), Some(("business", 5)));
    assert_eq!(
        product_name_to_tier("Zaru Enterprise"),
        Some(("enterprise", 10))
    );
}

#[test]
fn product_name_to_tier_maps_pro_to_zero_seats() {
    assert_eq!(product_name_to_tier("Zaru Pro"), Some(("pro", 0)));
    assert_eq!(product_name_to_tier("Zaru Pro - Monthly"), Some(("pro", 0)));
}

#[test]
fn product_name_to_tier_excludes_seat_addons() {
    assert_eq!(product_name_to_tier("Zaru Pro - Extra Seat"), None);
    assert_eq!(product_name_to_tier("Zaru Business - Extra Seat"), None);
}

#[test]
fn product_name_to_tier_excludes_non_zaru() {
    assert_eq!(product_name_to_tier("Some Other Product"), None);
}

#[test]
fn seat_product_tier_maps_correctly() {
    assert_eq!(seat_product_tier("Zaru Pro - Extra Seat"), None);
    assert_eq!(
        seat_product_tier("Zaru Business - Extra Seat"),
        Some("business")
    );
    assert_eq!(
        seat_product_tier("Zaru Enterprise - Extra Seat"),
        Some("enterprise")
    );
}

#[test]
fn seat_product_tier_rejects_non_seat_products() {
    assert_eq!(seat_product_tier("Zaru Pro"), None);
    assert_eq!(seat_product_tier("Zaru Business"), None);
}

#[test]
fn pro_has_zero_included_seats() {
    assert_eq!(included_seats_for_tier("pro"), 0);
}

#[test]
fn str_to_tier_mapping() {
    assert_eq!(str_to_tier("pro"), TenantTier::Pro);
    assert_eq!(str_to_tier("business"), TenantTier::Business);
    assert_eq!(str_to_tier("enterprise"), TenantTier::Enterprise);
    assert_eq!(str_to_tier("system"), TenantTier::System);
    assert_eq!(str_to_tier("unknown"), TenantTier::Free);
}

#[test]
fn tier_to_str_mapping() {
    assert_eq!(tier_to_str(&TenantTier::Free), "free");
    assert_eq!(tier_to_str(&TenantTier::Pro), "pro");
    assert_eq!(tier_to_str(&TenantTier::Business), "business");
    assert_eq!(tier_to_str(&TenantTier::Enterprise), "enterprise");
    assert_eq!(tier_to_str(&TenantTier::System), "system");
}

#[test]
fn extract_tier_from_metadata() {
    let obj = json(r#"{"metadata": {"tier": "business"}}"#);
    assert_eq!(
        extract_tier_from_subscription(&obj),
        Some(TenantTier::Business)
    );
}

#[test]
fn extract_tier_from_price_metadata() {
    let obj = json(r#"{"items": {"data": [{"price": {"metadata": {"tier": "pro"}}}]}}"#);
    assert_eq!(extract_tier_from_subscription(&obj), Some(TenantTier::Pro));
}

#[test]
fn extract_tier_returns_none_when_absent() {
    let obj = json("{}");
    assert_eq!(extract_tier_from_subscription(&obj), None);
}

#[test]
fn tier_for_seat_item_returns_tier_from_metadata() {
    let item = json(
        r#"{
            "id": "si_test",
            "quantity": 3,
            "price": {
                "id": "price_opaque_id",
                "metadata": { "kind": "seat", "tier": "business" },
                "recurring": { "interval": "month" }
            }
        }"#,
    );
    assert_eq!(
        tier_for_seat_item(&item),
        Some(("business".to_string(), "month".to_string()))
    );

    let item_year = json(
        r#"{
            "price": {
                "metadata": { "kind": "seat", "tier": "enterprise" },
                "recurring": { "interval": "year" }
            }
        }"#,
    );
    assert_eq!(
        tier_for_seat_item(&item_year),
        Some(("enterprise".to_string(), "year".to_string()))
    );
}

#[test]
fn tier_for_seat_item_returns_none_for_base_kind() {
    let item = json(
        r#"{
            "price": {
                "id": "price_base_plan",
                "metadata": { "kind": "base", "tier": "business" },
                "recurring": { "interval": "month" }
            }
        }"#,
    );
    assert_eq!(tier_for_seat_item(&item), None);
}

#[test]
fn tier_for_seat_item_returns_none_without_metadata() {
    let no_metadata =
        json(r#"{"price": { "id": "price_legacy", "recurring": { "interval": "month" } }}"#);
    assert_eq!(tier_for_seat_item(&no_metadata), None);

    let no_kind = json(
        r#"{"price": {
            "metadata": { "tier": "business" },
            "recurring": { "interval": "month" }
        }}"#,
    );
    assert_eq!(tier_for_seat_item(&no_kind), None);

    let no_tier = json(
        r#"{"price": {
            "metadata": { "kind": "seat" },
            "recurring": { "interval": "month" }
        }}"#,
    );
    assert_eq!(tier_for_seat_item(&no_tier), None);

    let no_interval = json(
        r#"{"price": {
            "metadata": { "kind": "seat", "tier": "business" }
        }}"#,
    );
    assert_eq!(tier_for_seat_item(&no_interval), None);
}

#[test]
fn item_is_seat_addon_only_true_for_seat_kind() {
    let seat = json(r#"{"price": { "metadata": { "kind": "seat", "tier": "business" } }}"#);
    assert!(item_is_seat_addon(&seat));

    let base = json(r#"{"price": { "metadata": { "kind": "base", "tier": "business" } }}"#);
    assert!(!item_is_seat_addon(&base));

    let bare = json(r#"{ "price": { "id": "price_x" } }"#);
    assert!(!item_is_seat_addon(&bare));
}

enum ItemKind {
    Base,
    Seat,
}

/// A subscription with the given items, each stamped with the kind and the tier
/// of its price.
fn make_items_payload(items: &[(ItemKind, &str, &str, u64)]) -> Json {
    let data: Vec<Json> = items
        .iter()
        .map(|(kind, tier, interval, qty)| {
            let kind_str = match kind {
                ItemKind::Base => "base",
                ItemKind::Seat => "seat",
            };
            json(&format!(
                r#"{{
                    "price": {{
                        "id": "price_opaque_{kind_str}_{tier}_{interval}",
                        "metadata": {{ "kind": "{kind_str}", "tier": "{tier}" }},
                        "recurring": {{ "interval": "{interval}" }}
                    }},
                    "quantity": {qty}
                }}"#
            ))
        })
        .collect();
    Json::object().with("items", Json::object().with("data", Json::Arr(data)))
}

#[test]
fn reconcile_seats_single_item_base_plan_only() {
    let obj = make_items_payload(&[(ItemKind::Base, "business", "month", 1)]);
    assert_eq!(compute_reconciled_seats(&obj, "business"), 5);
}

#[test]
fn reconcile_seats_multi_item_finds_addon_not_base_plan() {
    let obj = make_items_payload(&[
        (ItemKind::Base, "business", "month", 1),
        (ItemKind::Seat, "business", "month", 5),
    ]);
    assert_eq!(compute_reconciled_seats(&obj, "business"), 10);
}

#[test]
fn reconcile_seats_addon_first_in_list() {
    let obj = make_items_payload(&[
        (ItemKind::Seat, "business", "month", 2),
        (ItemKind::Base, "business", "month", 1),
    ]);
    assert_eq!(compute_reconciled_seats(&obj, "business"), 7);
}

#[test]
fn reconcile_seats_missing_items_falls_back_to_included() {
    let obj = json("{}");
    assert_eq!(compute_reconciled_seats(&obj, "business"), 5);
}

#[test]
fn reconcile_seats_not_gated_on_tenant_prefix() {
    let obj = make_items_payload(&[
        (ItemKind::Base, "business", "month", 1),
        (ItemKind::Seat, "business", "month", 2),
    ]);
    assert_eq!(compute_reconciled_seats(&obj, "business"), 7);
}

fn plan_for(tier: &TenantTier, status: TeamStatus) -> TeamPlan {
    let found = Some(("team-1".to_string(), status));
    reconcile_team_suspension(&TenantId::new("t-acme"), tier, found).expect("a plan")
}

#[test]
fn subscription_downgrade_to_pro_suspends_team_colony() {
    let plan = plan_for(&TenantTier::Pro, TeamStatus::Active);
    assert_eq!(
        plan.effects,
        vec![TeamEffect::Save(TeamStatus::Suspended), TeamEffect::RecomputeMembers]
    );
    assert_eq!(plan.team_id, "team-1");
}

#[test]
fn subscription_deleted_suspends_team_colony() {
    let (tier, status, _) = handle_subscription_deleted();
    assert_eq!(tier, TenantTier::Free);
    assert_eq!(status, SubscriptionStatus::Canceled);
    let plan = plan_for(&tier, TeamStatus::Active);
    assert_eq!(
        plan.effects,
        vec![TeamEffect::Save(TeamStatus::Suspended), TeamEffect::RecomputeMembers]
    );
    assert_eq!(plan.team_id, "team-1");
}

#[test]
fn subscription_upgrade_to_business_resumes_suspended_team() {
    let plan = plan_for(&TenantTier::Business, TeamStatus::Suspended);
    assert_eq!(
        plan.effects,
        vec![TeamEffect::Save(TeamStatus::Active), TeamEffect::RecomputeMembers]
    );
    assert_eq!(plan.team_id, "team-1");
}

#[test]
fn non_team_tenant_is_no_op() {
    let personal = TenantId::new("u-abc123");
    assert!(!needs_team(&personal));
    assert!(reconcile_team_suspension(&personal, &TenantTier::Free, None).is_none());
    let found = Some(("team-1".to_string(), TeamStatus::Active));
    assert!(reconcile_team_suspension(&personal, &TenantTier::Free, found).is_none());
}

#[test]
fn consumer_tenant_id_to_user_sub_round_trips() {
    let tenant_id = TenantId::new("u-d7f8170035d349b6b237c391ccc19035");
    assert_eq!(
        consumer_tenant_id_to_user_sub(&tenant_id),
        Some("d7f81700-35d3-49b6-b237-c391ccc19035".to_string())
    );

    let shared = TenantId::consumer();
    assert_eq!(consumer_tenant_id_to_user_sub(&shared), None);

    let enterprise = TenantId::new("acme-corp");
    assert_eq!(consumer_tenant_id_to_user_sub(&enterprise), None);
}

#[test]
fn subscription_updated_syncs_keycloak_put_body_includes_full_user_representation() {
    let plan = sync_tier_to_keycloak(
        &TenantId::new("u-d7f8170035d349b6b237c391ccc19035"),
        &TenantTier::Business,
        true,
    );
    let new_tier_value = match plan {
        TierSync::SetUser { realm, user_sub, tier } => {
            assert_eq!(realm, "zaru-consumer");
            assert_eq!(user_sub, "d7f81700-35d3-49b6-b237-c391ccc19035");
            tier
        }
        _ => panic!("the tier goes to the user"),
    };

    // The body that the identity provider is sent: the whole user, with the tier in
    // place of the old one.
    let mut merged_attrs = serde_json::Map::new();
    merged_attrs.insert(
        "tenant_id".to_string(),
        serde_json::Value::from(vec!["u-pro-user".to_string()]),
    );
    merged_attrs.insert(
        "zaru_tier".to_string(),
        serde_json::Value::from(vec!["pro".to_string()]),
    );
    merged_attrs.insert(
        "zaru_tier".to_string(),
        serde_json::Value::from(vec![new_tier_value.to_string()]),
    );
    let mut put_body = serde_json::Map::new();
    put_body.insert("id".to_string(), serde_json::Value::from("kc-user-001"));
    put_body.insert("email".to_string(), serde_json::Value::from("alice@example.com"));
    put_body.insert("firstName".to_string(), serde_json::Value::from("Alice"));
    put_body.insert("lastName".to_string(), serde_json::Value::from("Smith"));
    put_body.insert("enabled".to_string(), serde_json::Value::from(true));
    put_body.insert("attributes".to_string(), serde_json::Value::from(merged_attrs));
    let put_body = serde_json::Value::from(put_body);

    assert_eq!(put_body["id"], "kc-user-001");
    assert_eq!(put_body["email"], "alice@example.com");
    assert_eq!(put_body["firstName"], "Alice");
    assert_eq!(put_body["lastName"], "Smith");
    assert_eq!(put_body["enabled"], true);
    assert!(
        put_body.get("createdTimestamp").is_none(),
        "createdTimestamp must be omitted from Keycloak PUT body"
    );
    assert_eq!(put_body["attributes"]["zaru_tier"][0], "business");
    assert_eq!(put_body["attributes"]["tenant_id"][0], "u-pro-user");
}

#[test]
fn tiers_are_carried_to_where_the_tenant_lives() {
    let personal = TenantId::new("u-d7f8170035d349b6b237c391ccc19035");
    let plan = sync_tier(&personal, &TenantTier::Pro, true, true);
    assert!(matches!(
        plan,
        TierSync::RecomputeUser { user_sub } if user_sub == "d7f81700-35d3-49b6-b237-c391ccc19035"
    ));
    let plan = sync_tier(&TenantId::new("acme"), &TenantTier::Pro, true, true);
    assert!(matches!(
        plan,
        TierSync::SetRealm { realm, tier: "pro" } if realm == "tenant-acme"
    ));
    let plan = sync_tier(&TenantId::consumer(), &TenantTier::Pro, true, true);
    assert!(matches!(plan, TierSync::SharedTenant));
    let plan = sync_tier(&TenantId::new("acme"), &TenantTier::Pro, true, false);
    assert!(matches!(plan, TierSync::NoIdentityProvider));
}

#[test]
fn sessions_are_invalidated_only_where_the_client_is_configured() {
    let order = invalidate_zaru_sessions(Some("https://z"), Some("s"), "u").expect("an order");
    assert_eq!(order.endpoint, "https://z/api/internal/invalidate-sessions");
    assert_eq!(order.bearer, "s");
    assert_eq!(order.body.get_str("user_id"), Some("u"));
    assert!(invalidate_zaru_sessions(Some("https://z"), None, "u").is_none());
    assert!(invalidate_zaru_sessions(None, Some("s"), "u").is_none());
}

#[test]
fn a_tier_is_written_user_by_user() {
    let plan = sync_tier(&TenantId::new("acme"), &TenantTier::Pro, true, true);
    let (mut write, first) = TierWrite::start(plan);
    assert!(matches!(first, TierWriteAction::ListUsers { realm } if realm == "tenant-acme"));
    let users = vec!["a".to_string(), "b".to_string()];
    assert!(matches!(
        write.step(TierWriteEvent::UsersListed(Some(users))),
        TierWriteAction::Write { realm, user, attribute: "zaru_tier", value: "pro" }
            if realm == "tenant-acme" && user == "a"
    ));
    let written = |user: &str, done| TierWriteEvent::Written { user: user.to_string(), done };
    assert!(matches!(
        write.step(written("a", false)),
        TierWriteAction::Write { user, .. } if user == "b"
    ));
    assert!(matches!(
        write.step(written("b", true)),
        TierWriteAction::InvalidateSessions { user } if user == "b"
    ));
    assert!(matches!(write.step(TierWriteEvent::Invalidated), TierWriteAction::End));
    assert!(matches!(write.step(TierWriteEvent::UsersListed(None)), TierWriteAction::End));
    let personal = TenantId::new("u-d7f8170035d349b6b237c391ccc19035");
    let (mut write, first) =
        TierWrite::start(sync_tier(&personal, &TenantTier::Business, false, true));
    assert!(matches!(
        first,
        TierWriteAction::FindUser { realm, user_sub }
            if realm == "zaru-consumer" && user_sub == "d7f81700-35d3-49b6-b237-c391ccc19035"
    ));
    assert!(matches!(write.step(TierWriteEvent::UserFound(None)), TierWriteAction::End));
    assert!(matches!(
        write.step(TierWriteEvent::UserFound(Some("id".to_string()))),
        TierWriteAction::Write { user, value: "business", .. } if user == "id"
    ));
    let (_, first) = TierWrite::start(TierSync::SharedTenant);
    assert!(matches!(first, TierWriteAction::End));
}

#[test]
fn what_is_not_stored_stops_the_report() {
    assert!(matches!(after_effect(&Effect::Store(record()), true), AfterEffect::Stop));
    assert!(matches!(after_effect(&Effect::Store(record()), false), AfterEffect::GoOn));
    let update = |required| Effect::UpdateTier {
        tenant_id: TenantId::new("acme"),
        tier: TenantTier::Free,
        status: SubscriptionStatus::Canceled,
        period_end: None,
        required,
    };
    assert!(matches!(after_effect(&update(true), true), AfterEffect::Stop));
    assert!(matches!(after_effect(&update(false), true), AfterEffect::GoOn));
    assert!(matches!(after_effect(&update(true), false), AfterEffect::GoOn));
    let seats = Effect::StoreSeats {
        tenant_id: TenantId::new("acme"),
        customer: "cus_1".to_string(),
        previous: 5,
        new: 7,
        large_drift: true,
    };
    assert!(matches!(after_effect(&seats, true), AfterEffect::GoOn));
    assert!(matches!(
        after_effect(&seats, false),
        AfterEffect::TellSeats { tenant_id, previous: 5, new: 7 } if tenant_id.as_str() == "acme"
    ));
}

#[test]
fn suspending_twice_and_resuming_leaves_the_team_active() {
    let members_only = vec![TeamEffect::RecomputeMembers];
    assert_eq!(plan_for(&TenantTier::Pro, TeamStatus::Suspended).effects, members_only);
    assert_eq!(plan_for(&TenantTier::Enterprise, TeamStatus::Active).effects, members_only);
    assert_eq!(plan_for(&TenantTier::Free, TeamStatus::Deleted).effects, members_only);
    let tenant = TenantId::new("t-acme");
    assert!(reconcile_team_suspension(&tenant, &TenantTier::Pro, None).is_none());
}

fn consumer() -> UserIdentity {
    UserIdentity {
        sub: "user-1".to_string(),
        realm_slug: "zaru-consumer".to_string(),
        email: Some("a@example.com".to_string()),
        name: Some(String::new()),
        identity_kind: IdentityKind::ConsumerUser {
            zaru_tier: ZaruTier::Free,
            tenant_id: TenantId::new("u-user1"),
        },
    }
}

#[test]
fn billing_is_refused_at_the_door_in_order() {
    let caller = consumer();
    let default = TenantId::new("default");
    let refused = billing_gate(false, None, false, &default).unwrap_err();
    assert_eq!(refused, not_implemented());
    check(
        &refused,
        501,
        r#"{"error": "billing_not_configured", "message": "Stripe billing is not configured"}"#,
    );
    assert_eq!(billing_gate(true, None, false, &default).unwrap_err().status, 401);
    assert_eq!(billing_gate(true, Some(&caller), false, &default).unwrap_err().status, 503);
    let tenant = billing_gate(true, Some(&caller), true, &default).unwrap();
    assert_eq!(tenant.as_str(), "u-user1");
}

#[test]
fn an_empty_key_is_no_key() {
    assert_eq!(stripe_key(Some(String::new())), None);
    assert_eq!(stripe_key(Some("sk".to_string())), Some("sk".to_string()));
    assert_eq!(stripe_key(None), None);
}

fn product(id: &str, name: &str) -> Product {
    Product { id: id.to_string(), name: name.to_string(), description: None }
}

fn price(id: &str, amount: Option<i64>, interval: &str) -> Price {
    Price {
        id: id.to_string(),
        unit_amount: amount,
        currency: "usd".to_string(),
        interval: Some(interval.to_string()),
        kind: None,
        tier: None,
    }
}

#[test]
fn the_price_list_goes_from_the_smallest_tier_up() {
    let products = vec![
        product("p-ent", "Zaru Enterprise"),
        product("p-seat", "Zaru Business - Extra Seat"),
        product("p-biz", "Zaru Business"),
        product("p-pro", "Zaru Pro"),
        product("p-other", "Something else"),
    ];
    let prices = vec![
        None,
        Some(vec![price("s-m", Some(700), "month"), price("s-y", None, "year")]),
        Some(vec![price("b-m1", Some(1000), "month"), price("b-m2", Some(2000), "month")]),
        Some(vec![price("pro-y", Some(9900), "year")]),
        None,
    ];
    let list = list_prices(&products, &prices);
    let tiers: Vec<&str> = list.iter().map(|t| t.tier.as_str()).collect();
    assert_eq!(tiers, vec!["pro", "business", "enterprise"]);
    assert!(list[0].monthly.is_none());
    assert_eq!(list[0].annual.as_ref().unwrap().amount, 9900);
    assert_eq!(list[1].product_id, "p-biz");
    assert_eq!(list[1].included_seats, 5);
    assert_eq!(list[1].monthly.as_ref().unwrap().price_id, "b-m2");
    assert_eq!(list[1].seat_monthly.as_ref().unwrap().amount, 700);
    assert_eq!(list[1].seat_annual.as_ref().unwrap().amount, 0);
    assert!(list[2].monthly.is_none());
}

#[test]
fn the_smallest_tier_sells_no_seats() {
    let products = vec![product("p-pro", "Zaru Pro"), product("p-s", "Zaru Pro - Extra Seat")];
    let prices =
        vec![Some(vec![price("m", Some(1), "month")]), Some(vec![price("s", Some(2), "month")])];
    let list = list_prices(&products, &prices);
    assert_eq!(list.len(), 1);
    assert_eq!(list[0].monthly.as_ref().unwrap().price_id, "m");
    assert_eq!(list[0].included_seats, 0);
    assert!(list[0].seat_monthly.is_none() && list[0].seat_annual.is_none());
}

#[test]
fn seat_prices_are_found_by_kind_tier_and_interval() {
    let stamped = |id: &str, kind: &str, tier: &str, interval: &str| Price {
        id: id.to_string(),
        unit_amount: None,
        currency: "usd".to_string(),
        interval: Some(interval.to_string()),
        kind: Some(kind.to_string()),
        tier: Some(tier.to_string()),
    };
    let prices = vec![
        stamped("a", "base", "business", "month"),
        stamped("b", "seat", "business", "year"),
        stamped("c", "seat", "business", "month"),
    ];
    assert_eq!(find_seat_price_id(&prices, "business", "month"), Some("c".to_string()));
    assert_eq!(find_seat_price_id(&prices, "enterprise", "month"), None);
}

fn checkout_body() -> CheckoutRequest {
    CheckoutRequest {
        price_id: "price_b".to_string(),
        seat_price_id: Some("price_s".to_string()),
        seats: 3,
        tier: Some("business".to_string()),
        success_url: "https://ok".to_string(),
        cancel_url: "https://no".to_string(),
    }
}

fn record() -> TenantSubscription {
    TenantSubscription {
        tenant_id: TenantId::new("u-user1"),
        stripe_customer_id: "cus_1".to_string(),
        stripe_subscription_id: Some("sub_1".to_string()),
        tier: TenantTier::Business,
        status: SubscriptionStatus::Active,
        current_period_end: Some(5),
        cancel_at_period_end: false,
        created_at: 1,
        updated_at: 2,
        seat_count: 7,
    }
}

fn started() -> Checkout {
    let caller = consumer();
    match Checkout::start(true, Some(&caller), true, &TenantId::new("d"), checkout_body()) {
        Ok(checkout) => checkout,
        Err(_) => panic!("the request is let in"),
    }
}

#[test]
fn a_known_customer_is_used_again() {
    let mut checkout = started();
    assert_eq!(checkout.name, None);
    let action = checkout.step(CheckoutEvent::Loaded(Ok(Some(record()))), 9);
    assert!(matches!(action, CheckoutAction::Retrieve { customer } if customer == "cus_1"));
    match checkout.step(CheckoutEvent::Retrieved { found: true }, 9) {
        CheckoutAction::UpdateAndOpen { name, email, session } => {
            assert_eq!(name, None);
            assert_eq!(email, Some("a@example.com".to_string()));
            assert_eq!(session.customer, "cus_1");
            assert_eq!(session.lines.len(), 2);
            assert_eq!(session.lines[0].price, "price_b");
            assert_eq!(session.lines[0].quantity, 1);
            assert_eq!(session.lines[1].price, "price_s");
            assert_eq!(session.lines[1].quantity, 3);
            assert_eq!(session.metadata.get_str("tenant_id"), Some("u-user1"));
            assert_eq!(session.metadata.get_str("tier"), Some("business"));
            assert_eq!(session.metadata.get_str("extra_seats"), Some("3"));
        }
        _ => panic!("the session is opened"),
    }
}

#[test]
fn a_lost_customer_is_created_again_and_stored() {
    let mut checkout = started();
    checkout.step(CheckoutEvent::Loaded(Ok(Some(record()))), 9);
    let action = checkout.step(CheckoutEvent::Retrieved { found: false }, 9);
    assert!(matches!(action, CheckoutAction::Create { metadata, .. }
        if metadata == vec![("tenant_id".to_string(), "u-user1".to_string())]));
    match checkout.step(CheckoutEvent::Created(Ok("cus_2".to_string())), 9) {
        CheckoutAction::StoreAndOpen { record, session } => {
            assert_eq!(record.stripe_customer_id, "cus_2");
            assert_eq!(record.updated_at, 9);
            assert_eq!(record.created_at, 1);
            assert_eq!(record.seat_count, 7);
            assert_eq!(session.customer, "cus_2");
        }
        _ => panic!("the record is stored"),
    }
    match checkout.step(CheckoutEvent::Opened(Ok(Some("https://pay".to_string()))), 9) {
        CheckoutAction::Answer(reply) => check(&reply, 200, r#"{"url": "https://pay"}"#),
        _ => panic!("the request is answered"),
    }
}

#[test]
fn a_failing_checkout_says_what_failed() {
    let mut checkout = started();
    let failed = |action: CheckoutAction| match action {
        CheckoutAction::Answer(reply) => reply,
        _ => panic!("the request is answered"),
    };
    let reply = failed(checkout.step(CheckoutEvent::Loaded(Err("db".to_string())), 9));
    assert_eq!(reply.status, 500);
    let reply = failed(checkout.step(CheckoutEvent::Created(Err("x".to_string())), 9));
    assert_eq!(
        reply.body.unwrap().get_str("error"),
        Some("Failed to create Stripe customer: x")
    );
    let reply = failed(checkout.step(CheckoutEvent::Opened(Err("x".to_string())), 9));
    assert_eq!(
        reply.body.unwrap().get_str("error"),
        Some("Failed to create checkout session: x")
    );
}

#[test]
fn what_a_checkout_sells_is_what_its_completion_stores() {
    let mut checkout = started();
    checkout.step(CheckoutEvent::Loaded(Ok(None)), 9);
    let metadata = match checkout.step(CheckoutEvent::Created(Ok("cus_9".to_string())), 9) {
        CheckoutAction::StoreAndOpen { record, session } => {
            assert_eq!(record.tier, TenantTier::Free);
            assert_eq!(record.status, SubscriptionStatus::Unsubscribed);
            assert_eq!(record.seat_count, 1);
            session.metadata
        }
        _ => panic!("the record is stored"),
    };
    let completed = Json::object()
        .with("customer", Json::text("cus_9"))
        .with("subscription", Json::text("sub_9"))
        .with("metadata", metadata);
    assert_eq!(checkout_tenant_id(&completed), Some("u-user1".to_string()));
    assert!(checkout_seats_fit(&completed));
    let stored = handle_checkout_completed(&completed, TenantId::new("u-user1"), 11);
    assert_eq!(stored.tier, TenantTier::Business);
    assert_eq!(stored.status, SubscriptionStatus::Active);
    assert_eq!(stored.seat_count, 8);
    assert_eq!(stored.stripe_customer_id, "cus_9");
    assert_eq!(stored.stripe_subscription_id, Some("sub_9".to_string()));
}

#[test]
fn a_completion_without_metadata_is_a_pro_plan() {
    let completed = json(r#"{"subscription_data": {"metadata": {"tenant_id": "acme"}}}"#);
    assert_eq!(checkout_tenant_id(&completed), Some("acme".to_string()));
    assert_eq!(event_customer(&completed), "");
    let stored = handle_checkout_completed(&completed, TenantId::new("acme"), 11);
    assert_eq!(stored.tier, TenantTier::Pro);
    assert_eq!(stored.seat_count, 0);
    let too_many = json(r#"{"metadata": {"tier": "business", "extra_seats": "4294967295"}}"#);
    assert!(!checkout_seats_fit(&too_many));
}

#[test]
fn seats_are_added_changed_or_taken_away() {
    let items = vec![
        SubscriptionItem { id: "si_1".to_string(), price_id: "price_b".to_string() },
        SubscriptionItem { id: "si_2".to_string(), price_id: "price_s".to_string() },
    ];
    let request = |extra_seats: u32, price: &str| UpdateSeatsRequest {
        extra_seats,
        seat_price_id: price.to_string(),
    };
    assert!(matches!(
        plan_seat_change(&request(4, "price_s"), &items),
        Some(ItemChange::SetQuantity { id, quantity: 4 }) if id == "si_2"
    ));
    assert!(matches!(
        plan_seat_change(&request(0, "price_s"), &items),
        Some(ItemChange::Delete { id }) if id == "si_2"
    ));
    assert!(matches!(
        plan_seat_change(&request(2, "price_x"), &items),
        Some(ItemChange::Add { price, quantity: 2 }) if price == "price_x"
    ));
    assert!(plan_seat_change(&request(0, "price_x"), &items).is_none());
}

#[test]
fn added_seats_are_paid_before_the_answer() {
    let mut seats = SeatsChange {
        request: UpdateSeatsRequest { extra_seats: 4, seat_price_id: "price_s".to_string() },
        subscription: None,
    };
    let mut step = |event| update_seats_step(&mut seats, event);
    let loaded = step(SeatsEvent::Loaded(SubscriptionLookup::Found(record())));
    assert!(matches!(loaded, SeatsAction::Retrieve { subscription } if subscription == "sub_1"));
    assert!(matches!(
        step(SeatsEvent::Retrieved(Ok(vec![]))),
        SeatsAction::Update {
            subscription,
            change: ItemChange::Add { quantity: 4, .. },
            proration: Proration::AlwaysInvoice,
        } if subscription == "sub_1"
    ));
    assert!(matches!(
        step(SeatsEvent::Updated(Ok(()))),
        SeatsAction::ListOpenInvoices { subscription } if subscription == "sub_1"
    ));
    let invoiced = step(SeatsEvent::Invoiced(Ok(Some("in_1".to_string()))));
    assert!(matches!(invoiced, SeatsAction::Pay { invoice } if invoice == "in_1"));
    match step(SeatsEvent::Paid(Ok(()))) {
        SeatsAction::Answer(reply) => {
            check(&reply, 200, r#"{"success": true, "extra_seats": 4}"#)
        }
        _ => panic!("the request is answered"),
    }
    match step(SeatsEvent::Paid(Err("no".to_string()))) {
        SeatsAction::Answer(reply) => check(
            &reply,
            402,
            r#"{"error": "Seat update succeeded but payment failed: no"}"#,
        ),
        _ => panic!("the request is answered"),
    }
}

#[test]
fn seat_changes_are_refused_with_their_status() {
    let mut seats = SeatsChange {
        request: UpdateSeatsRequest { extra_seats: 1, seat_price_id: "p".to_string() },
        subscription: None,
    };
    let mut status = |event: SeatsEvent| match update_seats_step(&mut seats, event) {
        SeatsAction::Answer(reply) => reply.status,
        _ => panic!("the request is answered"),
    };
    assert_eq!(status(SeatsEvent::Loaded(SubscriptionLookup::Missing)), 404);
    assert_eq!(status(SeatsEvent::Loaded(SubscriptionLookup::Failed("x".to_string()))), 500);
    let mut unsubscribed = record();
    unsubscribed.stripe_subscription_id = None;
    assert_eq!(status(SeatsEvent::Loaded(SubscriptionLookup::Found(unsubscribed))), 404);
    assert_eq!(status(SeatsEvent::Retrieved(Err("x".to_string()))), 502);
    assert_eq!(status(SeatsEvent::Updated(Err("x".to_string()))), 502);
    assert_eq!(status(SeatsEvent::Invoiced(Err("x".to_string()))), 502);
}

#[test]
fn the_portal_and_the_invoices_are_the_customer_s() {
    assert_eq!(
        portal_customer(SubscriptionLookup::Found(record())).unwrap(),
        "cus_1".to_string()
    );
    assert_eq!(portal_customer(SubscriptionLookup::Missing).unwrap_err().status, 404);
    check(&portal_reply(Ok("https://p".to_string())), 200, r#"{"url": "https://p"}"#);
    assert_eq!(portal_reply(Err("x".to_string())).status, 500);
    assert_eq!(
        invoices_customer(SubscriptionLookup::Found(record())).unwrap(),
        "cus_1".to_string()
    );
    let none = invoices_customer(SubscriptionLookup::Missing).unwrap_err();
    check(&none, 200, r#"{"invoices": [], "count": 0}"#);
    let invoice = Invoice {
        id: Some("in_1".to_string()),
        amount_due: 100,
        amount_paid: 90,
        currency: "usd".to_string(),
        status: None,
        created: 1_700_000_000,
        hosted_invoice_url: None,
        invoice_pdf: Some("https://pdf".to_string()),
    };
    check(
        &list_invoices_reply(Ok(vec![invoice])),
        200,
        r#"{"invoices": [{"id": "in_1", "amount_due": 100, "amount_paid": 90,
            "currency": "usd", "status": null, "created": 1700000000,
            "hosted_invoice_url": null, "invoice_pdf": "https://pdf"}], "count": 1}"#,
    );
}

#[test]
fn a_tenant_without_a_record_is_free() {
    let tenant = TenantId::new("acme");
    check(
        &get_subscription_reply(SubscriptionLookup::Missing, &tenant, "x"),
        200,
        r#"{"tenant_id": "acme", "tier": "free", "status": "none",
            "stripe_subscription_id": null, "current_period_end": null,
            "cancel_at_period_end": false}"#,
    );
    check(
        &get_subscription_reply(SubscriptionLookup::Found(record()), &tenant, "active"),
        200,
        r#"{"tenant_id": "u-user1", "tier": "business", "status": "active",
            "stripe_subscription_id": "sub_1",
            "current_period_end": "1970-01-01T00:00:00.000000005Z",
            "cancel_at_period_end": false, "seat_count": 7}"#,
    );
    let mut running = record();
    running.current_period_end = Some(1_700_000_000_250_000_000);
    let reply = get_subscription_reply(SubscriptionLookup::Found(running), &tenant, "active");
    assert_eq!(
        reply.body.and_then(|b| b.get("current_period_end").map(|v| v.copy())),
        Some(Json::Str("2023-11-14T22:13:20.250Z".to_string()))
    );
}

#[test]
fn events_are_told_apart_by_their_type() {
    assert_eq!(
        process_stripe_event("checkout.session.completed", true),
        StripeEventKind::CheckoutCompleted
    );
    assert_eq!(
        process_stripe_event("customer.subscription.updated", true),
        StripeEventKind::SubscriptionUpdated
    );
    assert_eq!(
        process_stripe_event("customer.subscription.deleted", true),
        StripeEventKind::SubscriptionDeleted
    );
    assert_eq!(
        process_stripe_event("invoice.payment_failed", true),
        StripeEventKind::PaymentFailed
    );
    assert_eq!(process_stripe_event("ping", true), StripeEventKind::Ignored);
    assert_eq!(
        process_stripe_event("invoice.payment_failed", false),
        StripeEventKind::Ignored
    );
}

#[test]
fn an_upgraded_subscription_moves_its_seat_add_on() {
    let mut obj = make_items_payload(&[
        (ItemKind::Base, "enterprise", "month", 1),
        (ItemKind::Seat, "business", "month", 3),
    ]);
    obj = obj
        .with("id", Json::text("sub_1"))
        .with("status", Json::text("active"))
        .with("current_period_end", Json::Int(1_700_000_000))
        .with("metadata", json(r#"{"tier": "enterprise"}"#));
    assert_eq!(subscription_status_name(&obj), "active");
    assert!(reconciled_seats_fit(&obj, "enterprise"));
    let update = handle_subscription_updated(&obj, &record(), SubscriptionStatus::Active);
    assert_eq!(update.tier, TenantTier::Enterprise);
    assert_eq!(update.status, SubscriptionStatus::Active);
    assert_eq!(update.period_end, Some(1_700_000_000_000_000_000));
    assert_eq!(moment_of(Some(2)), Some(2_000_000_000));
    let seats = update.seats.unwrap();
    assert_eq!((seats.previous, seats.new, seats.large_drift), (7, 13, true));
    // The item has no id, so there is nothing to move.
    assert!(update.migration.is_none());

    let with_id = json(
        r#"{"id": "sub_1", "items": {"data": [{"id": "si_1", "quantity": 3, "price": {
            "metadata": {"kind": "seat", "tier": "business"},
            "recurring": {"interval": "month"}}}]}}"#,
    );
    let migration = migrate_seat_addon_if_needed(&with_id, &TenantTier::Enterprise).unwrap();
    assert_eq!(migration.item_id, "si_1");
    assert_eq!(migration.old_tier, "business");
    assert_eq!(migration.interval, "month");
    assert_eq!(migration.quantity, 3);
    let (sub, changes) =
        plan_migration(&with_id, &migration, Some("price_e".to_string())).unwrap();
    assert_eq!(sub, "sub_1");
    assert!(matches!(&changes[0], ItemChange::Delete { id } if id == "si_1"));
    assert!(matches!(&changes[1], ItemChange::Add { price, quantity: 3 } if price == "price_e"));
    assert!(plan_migration(&with_id, &migration, None).is_none());
    assert!(migrate_seat_addon_if_needed(&with_id, &TenantTier::Business).is_none());
    assert!(migrate_seat_addon_if_needed(&with_id, &TenantTier::Free).is_none());
}

#[test]
fn the_price_list_is_shown_tier_by_tier() {
    let products = vec![product("p-pro", "Zaru Pro")];
    let prices = vec![Some(vec![price("pro-m", Some(2000), "month")])];
    check(
        &list_prices_reply(&products, &prices),
        200,
        r#"{"tiers": [{"tier": "pro", "product_id": "p-pro", "name": "Zaru Pro",
            "description": null, "included_seats": 0,
            "monthly": {"price_id": "pro-m", "amount": 2000, "currency": "usd"},
            "annual": null, "seat_monthly": null, "seat_annual": null}]}"#,
    );
    check(&list_prices_reply(&vec![], &vec![]), 200, r#"{"tiers": []}"#);
}

#[test]
fn prices_are_listed_product_by_product() {
    let mut request = PriceListRequest::start();
    let answer = |action| match action {
        PriceListAction::Answer(reply) => reply,
        _ => panic!("an answer"),
    };
    let off = PriceListEvent::Begun { configured: false };
    assert_eq!(answer(request.step(off)), not_implemented());
    assert!(matches!(
        request.step(PriceListEvent::Begun { configured: true }),
        PriceListAction::ListProducts
    ));
    check(
        &answer(request.step(PriceListEvent::ProductsListed(Err("timeout".to_string())))),
        502,
        r#"{"error": "Failed to list products from Stripe: timeout"}"#,
    );
    let all = vec![
        product("x", "Other"),
        product("p-pro", "Zaru Pro"),
        product("y", "zaru"),
        product("p-biz", "Zaru Business"),
    ];
    assert!(matches!(
        request.step(PriceListEvent::ProductsListed(Ok(all))),
        PriceListAction::ListPrices { product_id } if product_id == "p-pro"
    ));
    let priced = Some(vec![price("pro-m", Some(2000), "month")]);
    assert!(matches!(
        request.step(PriceListEvent::PricesListed(priced)),
        PriceListAction::ListPrices { product_id } if product_id == "p-biz"
    ));
    let reply = answer(request.step(PriceListEvent::PricesListed(None)));
    let body = reply.body.unwrap();
    let tiers = body.get("tiers").and_then(|t| t.as_array()).unwrap();
    let names: Vec<_> = tiers.iter().map(|t| t.get_str("tier").unwrap()).collect();
    assert_eq!(names, vec!["pro", "business"]);
    assert!(tiers[0].get("monthly") != Some(&Json::Null));
    assert_eq!(tiers[1].get("monthly"), Some(&Json::Null));
}

#[test]
fn a_completed_checkout_is_stored_and_carried_on() {
    let object = json(
        r#"{"customer": "cus_9", "subscription": "sub_9",
            "metadata": {"tenant_id": "acme", "tier": "business", "extra_seats": "2"}}"#,
    );
    let report = Report::start("checkout.session.completed", object, true);
    assert!(matches!(
        report.step(ReportEvent::Begun),
        ReportAction::ReadTenant { name } if name == "acme"
    ));
    let read = |tenant| ReportEvent::TenantRead { tenant, now: 4 };
    assert!(report.can_step(&read(Some(TenantId::new("acme")))));
    match report.step(read(Some(TenantId::new("acme")))) {
        ReportAction::Perform(effects) => {
            assert_eq!(effects.len(), 2);
            assert!(matches!(
                &effects[0],
                Effect::Store(record)
                    if record.stripe_customer_id == "cus_9" && record.seat_count == 7
            ));
            assert!(matches!(
                &effects[1],
                Effect::CarryTier { tier: TenantTier::Business, tenant_id }
                    if tenant_id.as_str() == "acme"
            ));
        }
        _ => panic!("effects"),
    }
    let nothing = |action| matches!(action, ReportAction::Perform(effects) if effects.is_empty());
    assert!(nothing(report.step(read(None))));
    let unnamed = Report::start("checkout.session.completed", json("{}"), true);
    assert!(nothing(unnamed.step(ReportEvent::Begun)));
    assert!(nothing(Report::start("ping", json("{}"), true).step(ReportEvent::Begun)));
    let off = Report::start("invoice.payment_failed", json("{}"), false);
    assert!(nothing(off.step(ReportEvent::Begun)));
}

#[test]
fn a_report_on_a_subscription_sets_off_what_it_needs() {
    let object = || {
        json(
            r#"{"id": "sub_1", "customer": "cus_1", "status": "active",
                "metadata": {"tier": "enterprise"},
                "items": {"data": [{"id": "si_1", "quantity": 3, "price": {
                    "metadata": {"kind": "seat", "tier": "business"},
                    "recurring": {"interval": "month"}}}]}}"#,
        )
    };
    let found = |record| ReportEvent::RecordFound { record, status: SubscriptionStatus::Active };
    let effects = |report: &Report, record| match report.step(found(record)) {
        ReportAction::Perform(effects) => effects,
        _ => panic!("effects"),
    };
    let changed = Report::start("customer.subscription.updated", object(), true);
    assert!(matches!(
        changed.step(ReportEvent::Begun),
        ReportAction::FindRecord { customer, status_name }
            if customer == "cus_1" && status_name == "active"
    ));
    assert!(effects(&changed, None).is_empty());
    let all = effects(&changed, Some(record()));
    assert_eq!(all.len(), 5);
    assert!(matches!(
        &all[0],
        Effect::UpdateTier { tier: TenantTier::Enterprise, required: false, period_end: None, .. }
    ));
    assert!(matches!(&all[1], Effect::CarryTier { tier: TenantTier::Enterprise, .. }));
    assert!(matches!(&all[2], Effect::AlignTeam { tier: TenantTier::Enterprise, .. }));
    assert!(matches!(
        &all[3],
        Effect::StoreSeats { customer, previous: 7, new: 13, large_drift: true, .. }
            if customer == "cus_1"
    ));
    assert!(matches!(
        &all[4],
        Effect::MigrateSeats { tier: TenantTier::Enterprise, migration }
            if migration.item_id == "si_1"
    ));
    let deleted = Report::start("customer.subscription.deleted", object(), true);
    let all = effects(&deleted, Some(record()));
    assert_eq!(all.len(), 3);
    assert!(matches!(
        &all[0],
        Effect::UpdateTier {
            tier: TenantTier::Free,
            status: SubscriptionStatus::Canceled,
            required: true,
            ..
        }
    ));
    let failed = Report::start("invoice.payment_failed", object(), true);
    let all = effects(&failed, Some(record()));
    assert_eq!(all.len(), 1);
    assert!(matches!(
        &all[0],
        Effect::UpdateTier {
            tier: TenantTier::Business,
            status: SubscriptionStatus::PastDue,
            period_end: Some(5),
            ..
        }
    ));
    let many = make_items_payload(&[(ItemKind::Seat, "business", "month", u64::MAX)]);
    let too_many = Report::start("customer.subscription.updated", many, true);
    assert!(!too_many.can_step(&found(Some(record()))));
}

#[test]
fn the_last_second_of_the_calendar_is_kept() {
    let period = |end: i64| {
        let obj = json(&format!(r#"{{"current_period_end": {end}}}"#));
        handle_subscription_updated(&obj, &record(), SubscriptionStatus::Active).period_end
    };
    assert_eq!(period(8_210_266_876_799), Some(8_210_266_876_799_000_000_000));
    assert_eq!(period(8_210_266_876_800), None);
    assert_eq!(period(-8_334_601_228_800), Some(-8_334_601_228_800_000_000_000));
    assert_eq!(period(-8_334_601_228_801), None);
    assert_eq!(period(0), Some(0));
}

#[test]
fn a_period_beyond_the_calendar_is_dropped() {
    let obj = json(r#"{"current_period_end": 9223372036854775807}"#);
    let update = handle_subscription_updated(&obj, &record(), SubscriptionStatus::Other);
    assert_eq!(update.period_end, None);
    assert_eq!(update.tier, TenantTier::Business);
    assert!(update.seats.is_some());
}

#[test]
fn seats_beyond_the_count_are_noticed() {
    let obj = make_items_payload(&[(ItemKind::Seat, "business", "month", u64::MAX)]);
    assert!(!reconciled_seats_fit(&obj, "business"));
    assert!(reconciled_seats_fit(&obj, "pro"));
    assert_eq!(compute_reconciled_seats(&obj, "pro"), u32::MAX);
}

#[test]
fn a_failed_payment_keeps_tier_and_period() {
    assert_eq!(
        handle_payment_failed(&record()),
        (TenantTier::Business, SubscriptionStatus::PastDue, Some(5))
    );
}
