use aegis_daemon::handlers::colony::{
    Cleanup, DirectoryUser, Invitation, IssuedInvitation, Membership, SamlIdpConfig,
    SubscriptionRow, Team, TeamServiceError, TenantKind,
};
use aegis_daemon::handlers::team_requests::{
    admit_to_team, begin_colony, begin_colony_with, invitation_accepted, invitation_cancelled,
    team_deleted, team_founded, teams_to_find, BodyFlaw, ColonyAsk, ColonyStart,
    SubscriptionAction, SubscriptionEvent, SubscriptionRequest, SubscriptionStores, TeamAction,
    TeamAsk, TeamEvent, TeamFailure, TeamRequest, TeamServices,
};
use aegis_daemon::http::Reply;
use aegis_daemon::identity::{IdentityKind, TenantId, UserIdentity, ZaruTier};
use aegis_daemon::tenancy::{SubscriptionStatus, TenantTier};

fn caller() -> UserIdentity {
    UserIdentity {
        sub: "me".to_string(),
        realm_slug: "zaru-consumer".to_string(),
        email: None,
        name: None,
        identity_kind: IdentityKind::ConsumerUser {
            zaru_tier: ZaruTier::Pro,
            tenant_id: TenantId::new("u-1"),
        },
    }
}

fn team(tier: TenantTier) -> Team {
    Team {
        id: "team-1".to_string(),
        slug: "acme".to_string(),
        display_name: "Acme".to_string(),
        tier,
        tenant_id: TenantId::new("t-1"),
        owner_user_id: "owner".to_string(),
    }
}

fn member(user: &str, active: bool, can_manage: bool) -> Membership {
    Membership {
        team_id: "team-1".to_string(),
        user_id: user.to_string(),
        role: "member".to_string(),
        status: "s".to_string(),
        active,
        can_manage,
        joined_at_ms: 5,
    }
}

fn all() -> TeamServices {
    TeamServices { teams: true, members: true, service: true, directory: true }
}

fn request(ask: TeamAsk, services: TeamServices) -> TeamRequest {
    TeamRequest {
        ask,
        caller: "me".to_string(),
        kind: TenantKind::Team,
        slug_flaw: None,
        services,
        team: None,
    }
}

fn within(ask: TeamAsk, services: TeamServices, tier: TenantTier) -> (TeamRequest, TeamAction) {
    let mut asked = request(ask, services);
    assert!(matches!(asked.step(TeamEvent::Begun), TeamAction::FindTeam));
    let action = asked.step(TeamEvent::TeamFound(Ok(Some(team(tier)))));
    (asked, action)
}

fn status(action: TeamAction) -> u16 {
    match action {
        TeamAction::Answer(reply) => reply.status,
        _ => panic!("an answer"),
    }
}

fn code(reply: &Reply) -> Option<&str> {
    reply.body.as_ref().and_then(|b| b.get_str("error"))
}

fn failure() -> TeamFailure {
    TeamFailure { error: TeamServiceError::SeatCapReached, message: "full".to_string() }
}

#[test]
fn callers_come_before_bodies() {
    let flaw = || Some(BodyFlaw::Malformed("eof".to_string()));
    assert_eq!(admit_to_team(None, flaw()).unwrap_err().status, 401);
    let refused = admit_to_team(Some(&caller()), flaw()).unwrap_err();
    assert_eq!((refused.status, code(&refused)), (400, Some("invalid_body")));
    let unread = Some(BodyFlaw::Unreadable("cut".to_string()));
    assert_eq!(code(&admit_to_team(Some(&caller()), unread).unwrap_err()), Some("cut"));
    assert_eq!(admit_to_team(Some(&caller()), None), Ok("me".to_string()));
}

#[test]
fn requests_within_a_team_need_a_team() {
    let mut elsewhere = request(TeamAsk::ListMembers, all());
    elsewhere.kind = TenantKind::Consumer;
    assert_eq!(status(elsewhere.step(TeamEvent::Begun)), 400);
    let mut flawed = request(TeamAsk::ListMembers, all());
    flawed.slug_flaw = Some("bad".to_string());
    assert_eq!(status(flawed.step(TeamEvent::Begun)), 400);
    let none = TeamServices { teams: false, ..all() };
    assert_eq!(status(request(TeamAsk::ListMembers, none).step(TeamEvent::Begun)), 503);
    let mut lost = request(TeamAsk::ListMembers, all());
    assert_eq!(status(lost.step(TeamEvent::TeamFound(Ok(None)))), 404);
    assert_eq!(status(lost.step(TeamEvent::TeamFound(Err("x".to_string())))), 500);
    assert!(matches!(
        lost.step(TeamEvent::RolesFound(Ok(vec![]))),
        TeamAction::FindTeam
    ));
}

#[test]
fn members_are_listed_for_members() {
    let (mut asked, action) = within(TeamAsk::ListMembers, all(), TenantTier::Business);
    assert!(matches!(action, TeamAction::FindRoles { team } if team == "team-1"));
    let roles = |active| TeamEvent::RolesFound(Ok(vec![member("me", active, false)]));
    assert_eq!(status(asked.step(roles(false))), 403);
    assert!(matches!(asked.step(roles(true)), TeamAction::FindMembers { .. }));
    let found = TeamEvent::MembersFound(Ok(vec![member("me", true, false)]));
    assert!(matches!(
        asked.step(found),
        TeamAction::FindUsers { realm, members } if realm == "zaru-consumer" && members.len() == 1
    ));
    let user = DirectoryUser {
        email: None,
        first_name: Some("A".to_string()),
        last_name: Some("B".to_string()),
    };
    match asked.step(TeamEvent::UsersFound(vec![(member("me", true, false), Some(user))])) {
        TeamAction::Answer(reply) => {
            let body = reply.body.unwrap();
            let shown = body.get("members").and_then(|m| m.as_array()).unwrap();
            assert_eq!(shown[0].get_str("name"), Some("A B"));
        }
        _ => panic!("an answer"),
    }
    let quiet = TeamServices { directory: false, ..all() };
    let (mut asked, _) = within(TeamAsk::ListMembers, quiet, TenantTier::Business);
    let found =
        TeamEvent::MembersFound(Ok(vec![member("a", true, false), member("b", true, false)]));
    match asked.step(found) {
        TeamAction::Answer(reply) => {
            let body = reply.body.unwrap();
            let shown = body.get("members").and_then(|m| m.as_array()).unwrap();
            assert_eq!(shown[0].get_str("user_id"), Some("a"));
            assert_eq!(shown[1].get_str("user_id"), Some("b"));
        }
        _ => panic!("an answer"),
    }
}

#[test]
fn an_invitation_stands_whatever_the_directory_says() {
    let invite = |role: Option<&str>| TeamAsk::CreateInvitation {
        invitee_email: "x@example.com".to_string(),
        role: role.map(|r| r.to_string()),
        usual_role: "member".to_string(),
    };
    let (mut asked, action) = within(invite(None), all(), TenantTier::Pro);
    assert!(matches!(
        action,
        TeamAction::Invite { invitee_email, invited_by, .. }
            if invitee_email == "x@example.com" && invited_by == "me"
    ));
    let issued = || IssuedInvitation {
        id: "i".to_string(),
        team_id: "team-1".to_string(),
        invitee_email: "x@example.com".to_string(),
        raw_token: "tok".to_string(),
        expires_at: 0,
    };
    assert!(matches!(
        asked.step(TeamEvent::Invited(Ok(issued()))),
        TeamAction::Enrol { role, token, reply, .. }
            if role == "member" && token == "tok" && reply.status == 201
    ));
    let (mut asked, _) = within(invite(Some("admin")), all(), TenantTier::Pro);
    assert!(matches!(
        asked.step(TeamEvent::Invited(Ok(issued()))),
        TeamAction::Enrol { role, .. } if role == "admin"
    ));
    assert_eq!(status(asked.step(TeamEvent::Invited(Err(failure())))), 409);
    let bare = TeamServices { service: false, ..all() };
    assert_eq!(status(within(invite(None), bare, TenantTier::Pro).1), 503);
}

#[test]
fn invitations_are_listed_and_members_removed() {
    let (mut asked, _) = within(TeamAsk::ListInvitations, all(), TenantTier::Pro);
    let roles = TeamEvent::RolesFound(Ok(vec![member("me", true, false)]));
    assert!(matches!(asked.step(roles), TeamAction::FindInvitations { .. }));
    assert_eq!(status(asked.step(TeamEvent::InvitationsFound(Err(failure())))), 409);
    let none: Vec<Invitation> = vec![];
    assert_eq!(status(asked.step(TeamEvent::InvitationsFound(Ok(none)))), 200);
    let remove = || TeamAsk::RemoveMember { user_id: "other".to_string() };
    let (mut asked, action) = within(remove(), all(), TenantTier::Enterprise);
    assert!(matches!(
        action,
        TeamAction::Revoke { user_id, revoked_by, .. } if user_id == "other" && revoked_by == "me"
    ));
    assert!(matches!(
        asked.step(TeamEvent::Revoked(Ok(()))),
        TeamAction::Detach { user_id, from: Cleanup::Realm(realm), reply }
            if user_id == "other" && realm == "team-acme" && reply.status == 204
    ));
    let quiet = TeamServices { directory: false, ..all() };
    let (mut asked, _) = within(remove(), quiet, TenantTier::Pro);
    assert_eq!(status(asked.step(TeamEvent::Revoked(Ok(())))), 204);
}

#[test]
fn roles_are_changed_once_they_are_sound() {
    let change = |flaw: Option<&str>| TeamAsk::UpdateRole {
        user_id: "other".to_string(),
        new_role: "admin".to_string(),
        role_flaw: flaw.map(|f| f.to_string()),
    };
    match within(change(Some("no such role")), all(), TenantTier::Pro).1 {
        TeamAction::Answer(reply) => assert_eq!(code(&reply), Some("invalid_role")),
        _ => panic!("an answer"),
    }
    let (mut asked, action) = within(change(None), all(), TenantTier::Pro);
    assert!(matches!(action, TeamAction::UpdateRole { role, .. } if role == "admin"));
    assert_eq!(status(asked.step(TeamEvent::RoleUpdated(Ok(())))), 200);
    assert_eq!(status(asked.step(TeamEvent::RoleUpdated(Err(failure())))), 409);
}

#[test]
fn sign_on_is_for_managers_of_enterprise_teams() {
    assert_eq!(status(within(TeamAsk::GetSaml, all(), TenantTier::Business).1), 403);
    let (mut asked, action) = within(TeamAsk::GetSaml, all(), TenantTier::Enterprise);
    assert!(matches!(action, TeamAction::FindRoles { .. }));
    let roles = |manages| TeamEvent::RolesFound(Ok(vec![member("me", true, manages)]));
    assert_eq!(status(asked.step(roles(false))), 403);
    assert_eq!(status(asked.step(TeamEvent::RolesFound(Err("x".to_string())))), 403);
    assert!(matches!(
        asked.step(roles(true)),
        TeamAction::FindSaml { realm } if realm == "team-acme"
    ));
    assert_eq!(status(asked.step(TeamEvent::SamlFound(Ok(None)))), 200);
    let config = SamlIdpConfig {
        entity_id: "e".to_string(),
        sso_url: "s".to_string(),
        certificate: "c".to_string(),
    };
    let (mut asked, _) = within(TeamAsk::SetSaml { config }, all(), TenantTier::Enterprise);
    assert!(matches!(
        asked.step(roles(true)),
        TeamAction::SetSaml { config, .. } if config.entity_id == "e"
    ));
    assert_eq!(status(asked.step(TeamEvent::SamlSet(Err("x".to_string())))), 500);
    assert_eq!(status(asked.step(TeamEvent::SamlSet(Ok(())))), 200);
}

#[test]
fn requests_outside_a_team_begin_with_their_caller() {
    let delete = |id: &str| ColonyAsk::DeleteTeam { id: id.to_string() };
    let none = TeamServices { teams: false, members: false, service: false, directory: false };
    let refused = |caller: Option<&UserIdentity>, ask: &ColonyAsk, services| {
        begin_colony(caller, ask, services).err().unwrap().status
    };
    assert_eq!(refused(None, &delete("x"), none), 401);
    assert_eq!(refused(Some(&caller()), &delete("x"), none), 400);
    let id = uuid::Uuid::from_u128(6).to_string();
    assert_eq!(refused(Some(&caller()), &delete(&id), none), 503);
    assert!(matches!(
        begin_colony(Some(&caller()), &delete(&id), all()),
        Ok(ColonyStart::FindTeam { id: 6 })
    ));
    let cancel = ColonyAsk::CancelInvitation { id: "i".to_string() };
    assert!(matches!(
        begin_colony_with(Some(&caller()), &cancel, all(), Some(2)),
        Ok(ColonyStart::Cancel { id: 2, user_id }) if user_id == "me"
    ));
    assert!(matches!(
        begin_colony(Some(&caller()), &ColonyAsk::ListTeams, all()),
        Ok(ColonyStart::FindMemberships { user_id }) if user_id == "me"
    ));
    assert_eq!(teams_to_find(Err(failure()), all()).err().unwrap().status, 409);
    let blind = TeamServices { members: false, ..all() };
    assert_eq!(teams_to_find(Ok(vec![]), blind).err().unwrap().status, 503);
    assert!(teams_to_find(Ok(vec![]), all()).is_ok());
}

#[test]
fn what_is_done_is_told_to_the_directory() {
    let ending = team_deleted(&team(TenantTier::Pro), None, all());
    assert!(matches!(ending.cleanup, Some(Cleanup::Group(group)) if group == "acme"));
    assert_eq!(ending.reply.status, 204);
    let failed = team_deleted(&team(TenantTier::Pro), Some("x"), all());
    assert!(failed.cleanup.is_none());
    assert_eq!(failed.reply.status, 500);
    let (realm, reply) = team_founded(Ok(team(TenantTier::Enterprise)), all());
    assert_eq!((realm, reply.status), (Some("acme".to_string()), 201));
    let (realm, reply) = team_founded(Ok(team(TenantTier::Pro)), all());
    assert_eq!((realm, reply.status), (None, 201));
    assert_eq!(team_founded(Err(failure()), all()).1.status, 409);
    assert_eq!(invitation_cancelled(Ok(())).status, 204);
    assert_eq!(invitation_accepted(Ok(member("me", true, false))).status, 200);
}

#[test]
fn a_subscription_is_shown_with_the_members_of_its_team() {
    let stores = SubscriptionStores { tenants: true, billing: true, teams: true, members: true };
    let asked = |kind, stores| SubscriptionRequest {
        kind,
        slug_flaw: None,
        stores,
        tier: TenantTier::Free,
        team_members: None,
    };
    let row = || SubscriptionRow {
        tier: TenantTier::Business,
        status: SubscriptionStatus::Active,
        status_name: "active".to_string(),
        seat_count: 7,
        current_period_end: None,
    };
    let mut request = asked(TenantKind::Team, stores);
    assert!(matches!(request.step(SubscriptionEvent::Begun), SubscriptionAction::FindTenant));
    assert!(matches!(
        request.step(SubscriptionEvent::TenantFound(Ok(true))),
        SubscriptionAction::FindTier
    ));
    assert!(matches!(
        request.step(SubscriptionEvent::TierFound(Some(row()))),
        SubscriptionAction::FindTeam
    ));
    assert!(matches!(
        request.step(SubscriptionEvent::TeamFound(Ok(Some(team(TenantTier::Business))))),
        SubscriptionAction::CountMembers { team } if team == "team-1"
    ));
    assert!(matches!(
        request.step(SubscriptionEvent::Counted(Some(3))),
        SubscriptionAction::FindRow
    ));
    match request.step(SubscriptionEvent::RowFound(Some(row()))) {
        SubscriptionAction::Answer(reply) => {
            let body = reply.body.unwrap();
            assert_eq!(body.get_str("tier"), Some("business"));
            assert_eq!(body.get("members_used").and_then(|n| n.as_u64()), Some(3));
            assert_eq!(body.get("members_limit").and_then(|n| n.as_u64()), Some(25));
            assert_eq!(body.get("is_team").and_then(|b| b.as_bool()), Some(true));
        }
        _ => panic!("an answer"),
    }
    let status = |action| match action {
        SubscriptionAction::Answer(reply) => reply.status,
        _ => panic!("an answer"),
    };
    assert_eq!(status(request.step(SubscriptionEvent::TenantFound(Ok(false)))), 404);
    let failed = SubscriptionEvent::TenantFound(Err("x".to_string()));
    assert_eq!(status(request.step(failed)), 500);
    let bare = SubscriptionStores { tenants: true, billing: false, teams: false, members: false };
    let mut own = asked(TenantKind::Consumer, bare);
    match own.step(SubscriptionEvent::TenantFound(Ok(true))) {
        SubscriptionAction::Answer(reply) => {
            let body = reply.body.unwrap();
            assert_eq!(body.get_str("tier"), Some("free"));
            assert_eq!(body.get("members_used").and_then(|n| n.as_u64()), Some(1));
        }
        _ => panic!("an answer"),
    }
    assert_eq!(
        status(asked(TenantKind::Team, bare).step(SubscriptionEvent::TenantFound(Ok(true)))),
        503
    );
}
