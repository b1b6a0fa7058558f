use aegis_daemon::handlers::colony::{
    accept_invitation, active_team, create_team, delete_team, effective_tier,
    get_saml_config_reply, get_subscription_reply, invitation_issued_reply,
    invitation_role, list_invitations_reply,
    list_members_reply, list_teams_reply, map_service_error, member_name, members_limit,
    parse_invitation_id, parse_team_id, parse_tier, require_member, resolve_active_team,
    role_updated_reply, saml_realm, team_cleanup, team_context_required, team_created_reply,
    team_kind_for, team_realm, tier_str, Cleanup, DirectoryUser, Invitation,
    IssuedInvitation,
    Membership, SubscriptionRow, Team, TeamLookup, TeamServiceError, TenantKind,
};
use aegis_daemon::http::Reply;
use aegis_daemon::identity::{IdentityKind, TenantId, UserIdentity, ZaruTier};
use aegis_daemon::json::Json;
use aegis_daemon::tenancy::{SubscriptionStatus, TenantTier};

fn value_of(json: &Json) -> serde_json::Value {
    match json {
        Json::Null => serde_json::Value::Null,
        Json::Bool(b) => serde_json::Value::from(*b),
        Json::Int(n) => match (i64::try_from(*n), u64::try_from(*n)) {
            (Ok(i), _) => serde_json::Value::from(i),
            (_, Ok(u)) => serde_json::Value::from(u),
            _ => panic!("the number does not fit"),
        },
        Json::Real(text) => serde_json::from_str(text).expect("a number"),
        Json::Str(s) => serde_json::Value::from(s.as_str()),
        Json::Arr(items) => serde_json::Value::from(items.iter().map(value_of).collect::<Vec<_>>()),
        Json::Obj(members) => {
            let mut out = serde_json::Map::new();
            for (key, value) in members {
                out.insert(key.clone(), value_of(value));
            }
            serde_json::Value::from(out)
        }
    }
}

/// Checks a reply's status and its body, whatever the order of the members.
fn check(reply: &Reply, status: u16, body: &str) {
    assert_eq!(reply.status, status);
    let expected: serde_json::Value = serde_json::from_str(body).expect("valid JSON");
    assert_eq!(value_of(reply.body.as_ref().expect("a body")), expected);
}

#[test]
fn parse_tier_accepts_known_tiers() {
    assert!(matches!(parse_tier("pro"), Ok(TenantTier::Pro)));
    assert!(matches!(parse_tier("business"), Ok(TenantTier::Business)));
    assert!(matches!(
        parse_tier("ENTERPRISE"),
        Ok(TenantTier::Enterprise)
    ));
}

#[test]
fn parse_tier_rejects_free_and_system() {
    assert!(parse_tier("free").is_err());
    assert!(parse_tier("system").is_err());
}

#[test]
fn team_kind_detection() {
    assert_eq!(
        team_kind_for(&TenantId::new("zaru-consumer")),
        TenantKind::Consumer
    );
    assert_eq!(
        team_kind_for(&TenantId::new("aegis-system")),
        TenantKind::System
    );
    assert_eq!(
        team_kind_for(&TenantId::new("u-12345678")),
        TenantKind::Consumer
    );
    assert_eq!(
        team_kind_for(&TenantId::new("t-12345678")),
        TenantKind::Team
    );
    assert_eq!(
        team_kind_for(&TenantId::new("acme-corp")),
        TenantKind::Enterprise
    );
}

fn caller(sub: &str, email: Option<&str>) -> UserIdentity {
    UserIdentity {
        sub: sub.to_string(),
        realm_slug: "zaru-consumer".to_string(),
        email: email.map(|e| e.to_string()),
        name: None,
        identity_kind: IdentityKind::ConsumerUser {
            zaru_tier: ZaruTier::Pro,
            tenant_id: TenantId::new("u-1"),
        },
    }
}

fn team(tier: TenantTier) -> Team {
    Team {
        id: "team-1".to_string(),
        slug: "acme".to_string(),
        display_name: "Acme".to_string(),
        tier,
        tenant_id: TenantId::new("t-1"),
        owner_user_id: "owner".to_string(),
    }
}

fn member(user: &str, active: bool, can_manage: bool) -> Membership {
    Membership {
        team_id: "team-1".to_string(),
        user_id: user.to_string(),
        role: "member".to_string(),
        status: if active { "active" } else { "revoked" }.to_string(),
        active,
        can_manage,
        joined_at_ms: 5,
    }
}

#[test]
fn service_errors_have_their_code() {
    let seen = |e| {
        let reply = map_service_error(e, "m");
        let code = reply.body.as_ref().and_then(|b| b.get_str("error")).unwrap().to_string();
        (reply.status, code)
    };
    assert_eq!(seen(TeamServiceError::Unauthorized), (403, "forbidden".to_string()));
    assert_eq!(seen(TeamServiceError::TierNotPermitted), (403, "tier_not_permitted".to_string()));
    assert_eq!(
        seen(TeamServiceError::PersonalTierTooLow),
        (402, "personal_tier_too_low".to_string())
    );
    assert_eq!(seen(TeamServiceError::SeatCapReached), (409, "seat_cap_reached".to_string()));
    assert_eq!(seen(TeamServiceError::NotFound), (404, "not_found".to_string()));
    assert_eq!(seen(TeamServiceError::InvalidInvitation), (400, "invalid_invitation".to_string()));
    assert_eq!(seen(TeamServiceError::InvitationExpired), (410, "invitation_expired".to_string()));
    assert_eq!(
        seen(TeamServiceError::InvitationNotPending),
        (409, "invitation_not_pending".to_string())
    );
    assert_eq!(
        seen(TeamServiceError::OwnerRoleImmutable),
        (400, "owner_role_immutable".to_string())
    );
    assert_eq!(seen(TeamServiceError::InvalidCommand), (400, "invalid_command".to_string()));
    assert_eq!(seen(TeamServiceError::Domain), (400, "domain_invariant".to_string()));
    assert_eq!(
        seen(TeamServiceError::InvitationsNotConfigured),
        (503, "invitations_not_configured".to_string())
    );
    assert_eq!(seen(TeamServiceError::Repository), (500, "internal".to_string()));
    assert_eq!(seen(TeamServiceError::Billing), (500, "internal".to_string()));
}

#[test]
fn ids_are_read_or_refused() {
    let id = uuid::Uuid::new_v4();
    assert_eq!(parse_team_id(&id.to_string()).unwrap(), id.as_u128());
    check(&parse_team_id("x").unwrap_err(), 400, r#"{"error": "invalid_team_id"}"#);
    check(
        &parse_invitation_id("x").unwrap_err(),
        400,
        r#"{"error": "invalid_invitation_id"}"#,
    );
}

#[test]
fn the_active_team_is_looked_up_for_team_tenants_only() {
    assert_eq!(resolve_active_team(TenantKind::Consumer, false, None), Ok(false));
    assert_eq!(resolve_active_team(TenantKind::Team, true, None), Ok(true));
    assert_eq!(
        resolve_active_team(TenantKind::Team, false, None).unwrap_err().status,
        503
    );
    check(
        &resolve_active_team(TenantKind::Team, true, Some("bad")).unwrap_err(),
        400,
        r#"{"error": "invalid_team_slug", "message": "bad"}"#,
    );
    assert_eq!(active_team(Ok(None)).err().unwrap().status, 404);
    assert_eq!(active_team(Err("x".to_string())).err().unwrap().status, 500);
    assert_eq!(team_context_required(true).status, 400);
}

#[test]
fn members_who_left_see_no_team() {
    let lookups = vec![
        TeamLookup {
            membership: member("u", false, false),
            team: Err("not even read".to_string()),
        },
        TeamLookup {
            membership: member("u", true, false),
            team: Ok(Some((team(TenantTier::Business), None))),
        },
        TeamLookup { membership: member("u", true, false), team: Ok(None) },
    ];
    check(
        &list_teams_reply(&lookups),
        200,
        r#"{"teams": [{"id": "team-1", "slug": "acme", "display_name": "Acme",
            "tier": "business", "tenant_id": "t-1", "role": "member", "status": "active",
            "member_count": 0}], "count": 1}"#,
    );
    let failing = vec![TeamLookup {
        membership: member("u", true, false),
        team: Err("db".to_string()),
    }];
    check(&list_teams_reply(&failing), 500, r#"{"error": "db"}"#);
    let members = vec![member("a", false, false), member("b", true, false)];
    assert!(require_member(&members, "b").is_ok());
    assert_eq!(require_member(&members, "a").unwrap_err().status, 403);
    assert!(require_member(&members, "c").is_err());
}

#[test]
fn a_team_needs_an_owner_with_an_address_and_a_paid_tier() {
    let owner = caller("u", Some("a@example.com"));
    let made = create_team(Some(&owner), "Acme".to_string(), "Business", true).ok().unwrap();
    assert_eq!(made.owner_user_id, "u");
    assert_eq!(made.owner_email, "a@example.com");
    assert_eq!(made.tier, TenantTier::Business);
    let refused = |caller: Option<&UserIdentity>, tier: &str, configured: bool| {
        create_team(caller, "Acme".to_string(), tier, configured).err().unwrap()
    };
    assert_eq!(refused(None, "pro", true).status, 401);
    let nameless = caller("u", None);
    check(
        &refused(Some(&nameless), "pro", true),
        400,
        r#"{"error": "missing_email",
            "message": "Owner email is required to provision a Stripe customer"}"#,
    );
    check(
        &refused(Some(&owner), "Gold", true),
        400,
        r#"{"error": "invalid_tier", "message": "unsupported tier: gold"}"#,
    );
    assert_eq!(refused(Some(&owner), "pro", false).status, 503);
    assert_eq!(tier_str(&TenantTier::System), "system");
    check(
        &team_created_reply(&team(TenantTier::Pro)),
        201,
        r#"{"team": {"id": "team-1", "slug": "acme", "display_name": "Acme", "tier": "pro",
            "tenant_id": "t-1"}}"#,
    );
}

#[test]
fn only_the_owner_deletes_a_team() {
    let owner = caller("owner", None);
    assert!(delete_team(&owner, Ok(Some(team(TenantTier::Pro)))).is_ok());
    let other = caller("other", None);
    let refused = delete_team(&other, Ok(Some(team(TenantTier::Pro)))).err().unwrap();
    check(&refused, 403, r#"{"error": "owner_only"}"#);
    assert_eq!(delete_team(&owner, Ok(None)).err().unwrap().status, 404);
    assert_eq!(team_realm(&TenantTier::Enterprise, "acme"), "team-acme");
    assert_eq!(team_realm(&TenantTier::Business, "acme"), "zaru-consumer");
    assert!(matches!(
        team_cleanup(&TenantTier::Enterprise, "acme"),
        Cleanup::Realm(realm) if realm == "team-acme"
    ));
    assert!(matches!(
        team_cleanup(&TenantTier::Pro, "acme"),
        Cleanup::Group(group) if group == "acme"
    ));
}

#[test]
fn members_are_listed_with_what_the_directory_knows() {
    let known = DirectoryUser {
        email: Some("a@example.com".to_string()),
        first_name: Some("A".to_string()),
        last_name: Some("B".to_string()),
    };
    check(
        &list_members_reply(&vec![(member("u", true, false), Some(known)), (member("v", true, false), None)]),
        200,
        r#"{"members": [
            {"user_id": "u", "email": "a@example.com", "name": "A B", "role": "member",
             "status": "active", "joined_at": 5},
            {"user_id": "v", "email": null, "name": null, "role": "member",
             "status": "active", "joined_at": 5}], "count": 2}"#,
    );
    assert_eq!(member_name(&None, &Some("B".to_string())), Some("B".to_string()));
    assert_eq!(member_name(&None, &None), None);
}

#[test]
fn pending_invitations_are_listed_and_accepted() {
    let invitation = |id: &str, pending: bool| Invitation {
        id: id.to_string(),
        team_id: "team-1".to_string(),
        invitee_email: "x@example.com".to_string(),
        status: "s".to_string(),
        pending,
        expires_at: 1_700_000_000_250_000_000,
        created_at: -1,
        invited_by: "o".to_string(),
    };
    let reply = list_invitations_reply(&vec![invitation("1", false), invitation("2", true)]);
    let body = reply.body.unwrap();
    assert_eq!(body.get("count"), Some(&Json::Int(1)));
    let shown = &body.get("invitations").and_then(|i| i.as_array()).unwrap()[0];
    assert_eq!(shown.get_str("id"), Some("2"));
    assert_eq!(shown.get_str("expires_at"), Some("2023-11-14T22:13:20.250+00:00"));
    assert_eq!(shown.get_str("created_at"), Some("1969-12-31T23:59:59.999999999+00:00"));
    let issued = invitation_issued_reply(&IssuedInvitation {
        id: "1".to_string(),
        team_id: "team-1".to_string(),
        invitee_email: "x@example.com".to_string(),
        raw_token: "tok".to_string(),
        expires_at: 0,
    });
    check(
        &issued,
        201,
        r#"{"invitation": {"id": "1", "team_id": "team-1", "invitee_email": "x@example.com",
            "token": "tok", "expires_at": "1970-01-01T00:00:00+00:00"}}"#,
    );
    let invitee = caller("u", Some("x@example.com"));
    let command = accept_invitation(Some(&invitee), "tok".to_string(), true).ok().unwrap();
    assert_eq!(command.authenticated_email, "x@example.com");
    assert_eq!(command.token, "tok");
    assert!(accept_invitation(Some(&caller("u", None)), "tok".to_string(), true).is_err());
    assert_eq!(invitation_role(None, "member"), "member");
    assert_eq!(invitation_role(Some("admin"), "member"), "admin");
    check(&role_updated_reply(), 200, r#"{"status": "updated"}"#);
}

#[test]
fn federation_is_for_managers_of_enterprise_teams() {
    let members = vec![member("m", true, true), member("n", true, false)];
    let enterprise = team(TenantTier::Enterprise);
    assert_eq!(
        saml_realm(&enterprise, Some(&members), "m", true, true),
        Ok("team-acme".to_string())
    );
    let status = |team: &Team, members: Option<&Vec<Membership>>, user: &str, directory: bool| {
        saml_realm(team, members, user, directory, false).unwrap_err().status
    };
    assert_eq!(status(&enterprise, Some(&members), "n", true), 403);
    assert_eq!(status(&enterprise, None, "m", true), 403);
    assert_eq!(status(&enterprise, Some(&members), "m", false), 503);
    assert_eq!(status(&team(TenantTier::Business), Some(&members), "m", true), 403);
    check(&get_saml_config_reply(Ok(None)), 200, r#"{"saml": null}"#);
}

#[test]
fn a_lapsed_subscription_is_free() {
    let row = |status| SubscriptionRow {
        tier: TenantTier::Business,
        status,
        status_name: "s".to_string(),
        seat_count: 5,
        current_period_end: None,
    };
    assert_eq!(effective_tier(Some(&row(SubscriptionStatus::Active))), TenantTier::Business);
    assert_eq!(effective_tier(Some(&row(SubscriptionStatus::Trialing))), TenantTier::Business);
    assert_eq!(effective_tier(Some(&row(SubscriptionStatus::PastDue))), TenantTier::Free);
    assert_eq!(effective_tier(None), TenantTier::Free);
    assert_eq!(members_limit(&TenantTier::Free), 1);
    assert_eq!(members_limit(&TenantTier::Pro), 5);
    assert_eq!(members_limit(&TenantTier::Business), 25);
    assert_eq!(members_limit(&TenantTier::Enterprise), u32::MAX);
    check(
        &get_subscription_reply(TenantTier::Free, None, None),
        200,
        r#"{"tier": "free", "members_used": 1, "members_limit": 1, "seat_count": null,
            "status": null, "current_period_end": null, "is_team": false}"#,
    );
    let mut dated = row(SubscriptionStatus::Active);
    dated.current_period_end = Some(1_700_000_000_000_000_000);
    check(
        &get_subscription_reply(TenantTier::Business, Some(3), Some(&dated)),
        200,
        r#"{"tier": "business", "members_used": 3, "members_limit": 25, "seat_count": 5,
            "status": "s", "current_period_end": "2023-11-14T22:13:20+00:00",
            "is_team": true}"#,
    );
}
