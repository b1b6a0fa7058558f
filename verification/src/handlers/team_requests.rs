//! Requests within a team, step by step: who is let in, what is asked of the services
//! behind them, and in which order.

use crate::handlers::colony;
use crate::handlers::colony::{
    Cleanup, DirectoryUser, Invitation, IssuedInvitation, Membership, SamlIdpConfig,
    SubscriptionRow, Team, TeamServiceError, TenantKind,
};
use crate::http;
use crate::http::Reply;
use crate::identity;
use crate::identity::UserIdentity;
use crate::tenancy::TenantTier;
use crate::{primitives, text};
use vstd::prelude::*;

verus! {

/// The longest body of a request about a team, in bytes.
pub const BODY_LIMIT: usize = 65_536;

/// What is asked for within a team.
pub enum TeamAsk {
    ListMembers,
    /// The role is missing where the usual one is meant.
    CreateInvitation { invitee_email: String, role: Option<String>, usual_role: String },
    ListInvitations,
    RemoveMember { user_id: String },
    /// The flaw is missing where the role is well formed.
    UpdateRole { user_id: String, new_role: String, role_flaw: Option<String> },
    GetSaml,
    SetSaml { config: SamlIdpConfig },
}

/// Which services are configured.
#[derive(Clone, Copy, PartialEq, Eq, Structural, Debug)]
pub struct TeamServices {
    /// The store of teams.
    pub teams: bool,
    /// The store of memberships.
    pub members: bool,
    /// The service that changes teams.
    pub service: bool,
    /// The identity provider.
    pub directory: bool,
}

/// What is wrong with the body of a request.
pub enum BodyFlaw {
    /// It could not be read.
    Unreadable(String),
    /// It is not what the request takes.
    Malformed(String),
}

/// The caller of a request about teams, by its name, or the answer that refuses it.
/// Callers come before bodies.
pub fn admit_to_team(caller: Option<&UserIdentity>, flaw: Option<BodyFlaw>) -> (r: Result<
    String,
    Reply,
>)
    ensures
        match identity::opt_identity(caller) {
            None => r matches Err(reply) && reply@ == colony::unauthenticated_answer(),
            Some(i) => match flaw {
                Some(BodyFlaw::Unreadable(e)) => r matches Err(reply) && reply@
                    == http::error_reply(400, e@),
                Some(BodyFlaw::Malformed(e)) => r matches Err(reply) && reply@ == colony::coded(
                    400,
                    "invalid_body"@,
                    e@,
                ),
                None => r matches Ok(sub) && sub@ == i.sub,
            },
        },
{
    match caller {
        None => Err(colony::unauthenticated()),
        Some(i) => match flaw {
            Some(BodyFlaw::Unreadable(e)) => Err(Reply::error(400, e.as_str())),
            Some(BodyFlaw::Malformed(e)) => Err(
                colony::coded_reply(400, "invalid_body", e.as_str()),
            ),
            None => Ok(i.sub.clone()),
        },
    }
}

/// A request within a team, and the team once it is known.
pub struct TeamRequest {
    pub ask: TeamAsk,
    pub caller: String,
    pub kind: TenantKind,
    /// Missing where the tenant's slug is well formed.
    pub slug_flaw: Option<String>,
    pub services: TeamServices,
    pub team: Option<Team>,
}

/// Why the service that changes teams did not do so.
pub struct TeamFailure {
    pub error: TeamServiceError,
    pub message: String,
}

impl TeamFailure {
    /// How the failure is answered.
    pub open spec fn answer(self) -> http::ReplyView {
        colony::coded(
            colony::team_error(self.error).0,
            colony::team_error(self.error).1,
            self.message@,
        )
    }

    /// The answer to the failure.
    pub fn reply(&self) -> (r: Reply)
        ensures
            r@ == self.answer(),
    {
        colony::map_service_error(self.error, self.message.as_str())
    }
}

/// What was learnt.
pub enum TeamEvent {
    Begun,
    TeamFound(Result<Option<Team>, String>),
    /// The members of the team, to see what the caller is among them.
    RolesFound(Result<Vec<Membership>, String>),
    /// The members of the team, to be shown.
    MembersFound(Result<Vec<Membership>, String>),
    /// The members, with what the identity provider knows of each.
    UsersFound(Vec<(Membership, Option<DirectoryUser>)>),
    Invited(Result<IssuedInvitation, TeamFailure>),
    InvitationsFound(Result<Vec<Invitation>, TeamFailure>),
    Revoked(Result<(), TeamFailure>),
    RoleUpdated(Result<(), TeamFailure>),
    SamlFound(Result<Option<SamlIdpConfig>, String>),
    SamlSet(Result<(), String>),
}

/// What is to be done next.
pub enum TeamAction {
    FindTeam,
    FindRoles { team: String },
    FindMembers { team: String },
    /// Ask the identity provider for each member.
    FindUsers { realm: String, members: Vec<Membership> },
    Invite { team: String, invitee_email: String, invited_by: String },
    /// Tell the identity provider of the one invited. Whatever it says, answer.
    Enrol {
        tier: TenantTier,
        slug: String,
        email: String,
        role: String,
        token: String,
        reply: Reply,
    },
    FindInvitations { team: String },
    Revoke { team: String, user_id: String, revoked_by: String },
    /// Tell the identity provider of the one removed. Whatever it says, answer.
    Detach { user_id: String, from: Cleanup, reply: Reply },
    UpdateRole { team: String, user_id: String, role: String, updated_by: String },
    FindSaml { realm: String },
    SetSaml { realm: String, config: SamlIdpConfig },
    Answer(Reply),
}

/// The mathematical content of what is to be done next.
pub enum TeamActionView {
    FindTeam,
    FindRoles { team: Seq<char> },
    FindMembers { team: Seq<char> },
    FindUsers { realm: Seq<char>, members: Seq<Membership> },
    Invite { team: Seq<char>, invitee_email: Seq<char>, invited_by: Seq<char> },
    Enrol {
        tier: TenantTier,
        slug: Seq<char>,
        email: Seq<char>,
        role: Seq<char>,
        token: Seq<char>,
        reply: http::ReplyView,
    },
    FindInvitations { team: Seq<char> },
    Revoke { team: Seq<char>, user_id: Seq<char>, revoked_by: Seq<char> },
    Detach { user_id: Seq<char>, from: colony::CleanupView, reply: http::ReplyView },
    UpdateRole { team: Seq<char>, user_id: Seq<char>, role: Seq<char>, updated_by: Seq<char> },
    FindSaml { realm: Seq<char> },
    SetSaml { realm: Seq<char>, config: colony::SamlIdpConfigView },
    Answer(http::ReplyView),
}

impl View for TeamAction {
    type V = TeamActionView;

    open spec fn view(&self) -> TeamActionView {
        match *self {
            TeamAction::FindTeam => TeamActionView::FindTeam,
            TeamAction::FindRoles { team } => TeamActionView::FindRoles { team: team@ },
            TeamAction::FindMembers { team } => TeamActionView::FindMembers { team: team@ },
            TeamAction::FindUsers { realm, members } => TeamActionView::FindUsers {
                realm: realm@,
                members: members@,
            },
            TeamAction::Invite { team, invitee_email, invited_by } => TeamActionView::Invite {
                team: team@,
                invitee_email: invitee_email@,
                invited_by: invited_by@,
            },
            TeamAction::Enrol { tier, slug, email, role, token, reply } => TeamActionView::Enrol {
                tier,
                slug: slug@,
                email: email@,
                role: role@,
                token: token@,
                reply: reply@,
            },
            TeamAction::FindInvitations { team } => TeamActionView::FindInvitations {
                team: team@,
            },
            TeamAction::Revoke { team, user_id, revoked_by } => TeamActionView::Revoke {
                team: team@,
                user_id: user_id@,
                revoked_by: revoked_by@,
            },
            TeamAction::Detach { user_id, from, reply } => TeamActionView::Detach {
                user_id: user_id@,
                from: from@,
                reply: reply@,
            },
            TeamAction::UpdateRole { team, user_id, role, updated_by } => {
                TeamActionView::UpdateRole {
                    team: team@,
                    user_id: user_id@,
                    role: role@,
                    updated_by: updated_by@,
                }
            },
            TeamAction::FindSaml { realm } => TeamActionView::FindSaml { realm: realm@ },
            TeamAction::SetSaml { realm, config } => TeamActionView::SetSaml {
                realm: realm@,
                config: config@,
            },
            TeamAction::Answer(reply) => TeamActionView::Answer(reply@),
        }
    }
}

/// Why the team that a caller acts in is not looked up, if it is not.
pub open spec fn team_refusal(
    kind: TenantKind,
    has_store: bool,
    slug_flaw: Option<Seq<char>>,
    elsewhere: http::ReplyView,
) -> Option<http::ReplyView> {
    if kind != TenantKind::Team {
        Some(elsewhere)
    } else if !has_store {
        Some(http::error_reply(503, "teams_not_configured"@))
    } else {
        match slug_flaw {
            Some(e) => Some(colony::coded(400, "invalid_team_slug"@, e)),
            None => None,
        }
    }
}

/// The members that lookups gave, where they gave any.
pub open spec fn members_given(found: Result<Vec<Membership>, String>) -> Option<Seq<Membership>> {
    match found {
        Ok(members) => Some(members@),
        Err(_) => None,
    }
}

impl TeamRequest {
    /// What a request begins with: the team of the tenant.
    pub open spec fn first(self) -> TeamActionView {
        match team_refusal(
            self.kind,
            self.services.teams,
            text::opt_view(self.slug_flaw),
            colony::team_context_answer(self.ask is ListMembers),
        ) {
            Some(refusal) => TeamActionView::Answer(refusal),
            None => TeamActionView::FindTeam,
        }
    }

    /// What follows once the team is known. Who reads members or invitations is looked
    /// up; who changes them is left to the service.
    pub open spec fn with_team(self, team: Team) -> TeamActionView {
        match self.ask {
            TeamAsk::ListMembers | TeamAsk::ListInvitations => if self.services.members {
                TeamActionView::FindRoles { team: team.id@ }
            } else {
                TeamActionView::Answer(http::error_reply(503, "teams_not_configured"@))
            },
            TeamAsk::CreateInvitation { invitee_email, .. } => if self.services.service {
                TeamActionView::Invite {
                    team: team.id@,
                    invitee_email: invitee_email@,
                    invited_by: self.caller@,
                }
            } else {
                TeamActionView::Answer(colony::no_team_service())
            },
            TeamAsk::RemoveMember { user_id } => if self.services.service {
                TeamActionView::Revoke {
                    team: team.id@,
                    user_id: user_id@,
                    revoked_by: self.caller@,
                }
            } else {
                TeamActionView::Answer(colony::no_team_service())
            },
            TeamAsk::UpdateRole { user_id, new_role, role_flaw } => match text::opt_view(role_flaw) {
                Some(e) => TeamActionView::Answer(colony::coded(400, "invalid_role"@, e)),
                None => if self.services.service {
                    TeamActionView::UpdateRole {
                        team: team.id@,
                        user_id: user_id@,
                        role: new_role@,
                        updated_by: self.caller@,
                    }
                } else {
                    TeamActionView::Answer(colony::no_team_service())
                },
            },
            TeamAsk::GetSaml | TeamAsk::SetSaml { .. } => if !colony::has_own_realm(team.tier) {
                TeamActionView::Answer(colony::enterprise_only(self.ask is GetSaml))
            } else if self.services.members {
                TeamActionView::FindRoles { team: team.id@ }
            } else {
                TeamActionView::Answer(http::error_reply(403, "forbidden"@))
            },
        }
    }

    /// What follows once the members are known: active members read, managers set up
    /// sign-on.
    pub open spec fn with_roles(self, team: Team, found: Result<Vec<Membership>, String>) ->
        TeamActionView {
        match self.ask {
            TeamAsk::ListMembers | TeamAsk::ListInvitations => match found {
                Err(e) => TeamActionView::Answer(http::error_reply(500, e@)),
                Ok(members) => if !colony::is_member(members@, self.caller@) {
                    TeamActionView::Answer(http::error_reply(403, "not_a_member"@))
                } else if self.ask is ListMembers {
                    TeamActionView::FindMembers { team: team.id@ }
                } else if self.services.service {
                    TeamActionView::FindInvitations { team: team.id@ }
                } else {
                    TeamActionView::Answer(colony::no_team_service())
                },
            },
            TeamAsk::GetSaml | TeamAsk::SetSaml { .. } => match colony::saml_refusal(
                team,
                members_given(found),
                self.caller@,
                self.services.directory,
                self.ask is GetSaml,
            ) {
                Some(refusal) => TeamActionView::Answer(refusal),
                None => match self.ask {
                    TeamAsk::SetSaml { config } => TeamActionView::SetSaml {
                        realm: "team-"@ + team.slug@,
                        config: config@,
                    },
                    _ => TeamActionView::FindSaml { realm: "team-"@ + team.slug@ },
                },
            },
            _ => self.first(),
        }
    }

    /// What follows once the members to be shown are known.
    pub open spec fn with_members(self, team: Team, found: Result<Vec<Membership>, String>) ->
        TeamActionView {
        match found {
            Err(e) => TeamActionView::Answer(http::error_reply(500, e@)),
            Ok(members) => if self.services.directory {
                TeamActionView::FindUsers {
                    realm: colony::realm_of(team.tier, team.slug@),
                    members: members@,
                }
            } else {
                TeamActionView::Answer(
                    colony::members_answer(
                        members@.map_values(|m: Membership| (m, None::<DirectoryUser>)),
                    ),
                )
            },
        }
    }

    /// What follows an invitation: the identity provider is told of the one invited,
    /// with the role that was asked for or else the usual one.
    pub open spec fn with_invitation(self, team: Team, issued: IssuedInvitation) ->
        TeamActionView {
        let reply = colony::issued_answer(issued);
        match self.ask {
            TeamAsk::CreateInvitation { role, usual_role, .. } if self.services.directory => {
                TeamActionView::Enrol {
                    tier: team.tier,
                    slug: team.slug@,
                    email: issued.invitee_email@,
                    role: match text::opt_view(role) {
                        Some(asked) => asked,
                        None => usual_role@,
                    },
                    token: issued.raw_token@,
                    reply,
                }
            },
            _ => TeamActionView::Answer(reply),
        }
    }

    /// What follows a removal: the identity provider is told of the one removed.
    pub open spec fn with_removal(self, team: Team) -> TeamActionView {
        match self.ask {
            TeamAsk::RemoveMember { user_id } if self.services.directory => TeamActionView::Detach {
                user_id: user_id@,
                from: colony::cleanup_of(team.tier, team.slug@),
                reply: http::empty_reply(204),
            },
            _ => TeamActionView::Answer(http::empty_reply(204)),
        }
    }

    /// What follows from what was learnt. What needs a team that is not known yet
    /// begins anew.
    pub open spec fn next(self, event: TeamEvent) -> TeamActionView {
        match event {
            TeamEvent::Begun => self.first(),
            TeamEvent::TeamFound(found) => match found {
                Ok(Some(team)) => self.with_team(team),
                Ok(None) => TeamActionView::Answer(http::error_reply(404, "team_not_found"@)),
                Err(e) => TeamActionView::Answer(http::error_reply(500, e@)),
            },
            TeamEvent::RolesFound(found) => match self.team {
                Some(team) => self.with_roles(team, found),
                None => self.first(),
            },
            TeamEvent::MembersFound(found) => match self.team {
                Some(team) => self.with_members(team, found),
                None => self.first(),
            },
            TeamEvent::UsersFound(users) => TeamActionView::Answer(colony::members_answer(users@)),
            TeamEvent::Invited(outcome) => match (outcome, self.team) {
                (Err(failure), _) => TeamActionView::Answer(failure.answer()),
                (Ok(issued), Some(team)) => self.with_invitation(team, issued),
                (Ok(issued), None) => TeamActionView::Answer(colony::issued_answer(issued)),
            },
            TeamEvent::InvitationsFound(outcome) => TeamActionView::Answer(
                match outcome {
                    Ok(invitations) => colony::invitations_answer(invitations@),
                    Err(failure) => failure.answer(),
                },
            ),
            TeamEvent::Revoked(outcome) => match (outcome, self.team) {
                (Err(failure), _) => TeamActionView::Answer(failure.answer()),
                (Ok(_), Some(team)) => self.with_removal(team),
                (Ok(_), None) => TeamActionView::Answer(http::empty_reply(204)),
            },
            TeamEvent::RoleUpdated(outcome) => TeamActionView::Answer(
                match outcome {
                    Ok(_) => colony::role_updated_answer(),
                    Err(failure) => failure.answer(),
                },
            ),
            TeamEvent::SamlFound(found) => TeamActionView::Answer(colony::saml_answer(found)),
            TeamEvent::SamlSet(outcome) => TeamActionView::Answer(
                match outcome {
                    Ok(_) => colony::saml_set_answer(None),
                    Err(e) => colony::saml_set_answer(Some(e@)),
                },
            ),
        }
    }

    fn begin(&self) -> (r: TeamAction)
        ensures
            r@ == self.first(),
    {
        let flaw = match &self.slug_flaw {
            Some(e) => Some(e.as_str()),
            None => None,
        };
        match colony::resolve_active_team(self.kind, self.services.teams, flaw) {
            Ok(found) => if found {
                TeamAction::FindTeam
            } else {
                let for_members = match &self.ask {
                    TeamAsk::ListMembers => true,
                    _ => false,
                };
                TeamAction::Answer(colony::team_context_required(for_members))
            },
            Err(reply) => TeamAction::Answer(reply),
        }
    }

    fn ask_of_team(&self, team: &Team) -> (r: TeamAction)
        ensures
            r@ == self.with_team(*team),
    {
        match &self.ask {
            TeamAsk::ListMembers | TeamAsk::ListInvitations => match colony::team_store(
                self.services.members,
            ) {
                Ok(_) => TeamAction::FindRoles { team: team.id.clone() },
                Err(reply) => TeamAction::Answer(reply),
            },
            TeamAsk::CreateInvitation { invitee_email, .. } => match colony::team_service(
                self.services.service,
            ) {
                Ok(_) => TeamAction::Invite {
                    team: team.id.clone(),
                    invitee_email: invitee_email.clone(),
                    invited_by: self.caller.clone(),
                },
                Err(reply) => TeamAction::Answer(reply),
            },
            TeamAsk::RemoveMember { user_id } => match colony::team_service(self.services.service) {
                Ok(_) => TeamAction::Revoke {
                    team: team.id.clone(),
                    user_id: user_id.clone(),
                    revoked_by: self.caller.clone(),
                },
                Err(reply) => TeamAction::Answer(reply),
            },
            TeamAsk::UpdateRole { user_id, new_role, role_flaw } => match role_flaw {
                Some(e) => TeamAction::Answer(
                    colony::coded_reply(400, "invalid_role", e.as_str()),
                ),
                None => match colony::team_service(self.services.service) {
                    Ok(_) => TeamAction::UpdateRole {
                        team: team.id.clone(),
                        user_id: user_id.clone(),
                        role: new_role.clone(),
                        updated_by: self.caller.clone(),
                    },
                    Err(reply) => TeamAction::Answer(reply),
                },
            },
            TeamAsk::GetSaml => self.ask_of_enterprise(team, true),
            TeamAsk::SetSaml { .. } => self.ask_of_enterprise(team, false),
        }
    }

    fn ask_of_enterprise(&self, team: &Team, reading: bool) -> (r: TeamAction)
        ensures
            r@ == (if !colony::has_own_realm(team.tier) {
                TeamActionView::Answer(colony::enterprise_only(reading))
            } else if self.services.members {
                TeamActionView::FindRoles { team: team.id@ }
            } else {
                TeamActionView::Answer(http::error_reply(403, "forbidden"@))
            }),
    {
        if !colony::needs_realm(&team.tier) {
            TeamAction::Answer(colony::enterprise_only_reply(reading))
        } else if self.services.members {
            TeamAction::FindRoles { team: team.id.clone() }
        } else {
            TeamAction::Answer(Reply::error(403, "forbidden"))
        }
    }

    fn ask_of_roles(&self, team: &Team, found: Result<Vec<Membership>, String>) -> (r: TeamAction)
        ensures
            r@ == self.with_roles(*team, found),
    {
        match &self.ask {
            TeamAsk::ListMembers => match found {
                Err(e) => TeamAction::Answer(Reply::error(500, e.as_str())),
                Ok(members) => match colony::require_member(&members, self.caller.as_str()) {
                    Ok(_) => TeamAction::FindMembers { team: team.id.clone() },
                    Err(reply) => TeamAction::Answer(reply),
                },
            },
            TeamAsk::ListInvitations => match found {
                Err(e) => TeamAction::Answer(Reply::error(500, e.as_str())),
                Ok(members) => match colony::require_member(&members, self.caller.as_str()) {
                    Ok(_) => match colony::team_service(self.services.service) {
                        Ok(_) => TeamAction::FindInvitations { team: team.id.clone() },
                        Err(reply) => TeamAction::Answer(reply),
                    },
                    Err(reply) => TeamAction::Answer(reply),
                },
            },
            TeamAsk::GetSaml => match self.sign_on_realm(team, &found, true) {
                Ok(realm) => TeamAction::FindSaml { realm },
                Err(reply) => TeamAction::Answer(reply),
            },
            TeamAsk::SetSaml { config } => match self.sign_on_realm(team, &found, false) {
                Ok(realm) => TeamAction::SetSaml { realm, config: config.copy() },
                Err(reply) => TeamAction::Answer(reply),
            },
            _ => self.begin(),
        }
    }

    fn sign_on_realm(
        &self,
        team: &Team,
        found: &Result<Vec<Membership>, String>,
        reading: bool,
    ) -> (r: Result<String, Reply>)
        ensures
            match colony::saml_refusal(
                *team,
                members_given(*found),
                self.caller@,
                self.services.directory,
                reading,
            ) {
                Some(refusal) => r matches Err(reply) && reply@ == refusal,
                None => r matches Ok(realm) && realm@ == "team-"@ + team.slug@,
            },
    {
        let members = match found {
            Ok(v) => Some(v),
            Err(_) => None,
        };
        colony::saml_realm(
            team,
            members,
            self.caller.as_str(),
            self.services.directory,
            reading,
        )
    }

    fn show_members(&self, team: &Team, found: Result<Vec<Membership>, String>) -> (r: TeamAction)
        ensures
            r@ == self.with_members(*team, found),
    {
        match found {
            Err(e) => TeamAction::Answer(Reply::error(500, e.as_str())),
            Ok(members) => if self.services.directory {
                TeamAction::FindUsers {
                    realm: colony::team_realm(&team.tier, team.slug.as_str()),
                    members,
                }
            } else {
                let unknown = without_users(members);
                TeamAction::Answer(colony::list_members_reply(&unknown))
            },
        }
    }

    fn enrol(&self, team: &Team, issued: &IssuedInvitation) -> (r: TeamAction)
        ensures
            r@ == self.with_invitation(*team, *issued),
    {
        let reply = colony::invitation_issued_reply(issued);
        if self.services.directory {
            if let TeamAsk::CreateInvitation { role, usual_role, .. } = &self.ask {
                let asked = match role {
                    Some(name) => Some(name.as_str()),
                    None => None,
                };
                let given = colony::invitation_role(asked, usual_role.as_str()).to_owned();
                return TeamAction::Enrol {
                    tier: team.tier,
                    slug: team.slug.clone(),
                    email: issued.invitee_email.clone(),
                    role: given,
                    token: issued.raw_token.clone(),
                    reply,
                };
            }
        }
        TeamAction::Answer(reply)
    }

    fn detach(&self, team: &Team) -> (r: TeamAction)
        ensures
            r@ == self.with_removal(*team),
    {
        if self.services.directory {
            if let TeamAsk::RemoveMember { user_id } = &self.ask {
                return TeamAction::Detach {
                    user_id: user_id.clone(),
                    from: colony::team_cleanup(&team.tier, team.slug.as_str()),
                    reply: Reply::empty(204),
                };
            }
        }
        TeamAction::Answer(Reply::empty(204))
    }

    /// One step of a request: takes what was learnt and says what to do next.
    pub fn step(&mut self, event: TeamEvent) -> (action: TeamAction)
        ensures
            action@ == old(self).next(event),
            final(self).ask == old(self).ask,
            final(self).caller == old(self).caller,
            final(self).kind == old(self).kind,
            final(self).slug_flaw == old(self).slug_flaw,
            final(self).services == old(self).services,
            final(self).team == (match event {
                TeamEvent::TeamFound(Ok(found)) => found,
                _ => old(self).team,
            }),
    {
        match event {
            TeamEvent::Begun => self.begin(),
            TeamEvent::TeamFound(found) => match found {
                Ok(team) => {
                    self.team = team;
                    match &self.team {
                        Some(t) => self.ask_of_team(t),
                        None => TeamAction::Answer(Reply::error(404, "team_not_found")),
                    }
                },
                Err(e) => TeamAction::Answer(Reply::error(500, e.as_str())),
            },
            TeamEvent::RolesFound(found) => match &self.team {
                Some(team) => self.ask_of_roles(team, found),
                None => self.begin(),
            },
            TeamEvent::MembersFound(found) => match &self.team {
                Some(team) => self.show_members(team, found),
                None => self.begin(),
            },
            TeamEvent::UsersFound(users) => TeamAction::Answer(colony::list_members_reply(&users)),
            TeamEvent::Invited(outcome) => match outcome {
                Err(failure) => TeamAction::Answer(failure.reply()),
                Ok(issued) => match &self.team {
                    Some(team) => self.enrol(team, &issued),
                    None => TeamAction::Answer(colony::invitation_issued_reply(&issued)),
                },
            },
            TeamEvent::InvitationsFound(outcome) => match outcome {
                Ok(invitations) => TeamAction::Answer(
                    colony::list_invitations_reply(&invitations),
                ),
                Err(failure) => TeamAction::Answer(failure.reply()),
            },
            TeamEvent::Revoked(outcome) => match outcome {
                Err(failure) => TeamAction::Answer(failure.reply()),
                Ok(_) => match &self.team {
                    Some(team) => self.detach(team),
                    None => TeamAction::Answer(Reply::empty(204)),
                },
            },
            TeamEvent::RoleUpdated(outcome) => match outcome {
                Ok(_) => TeamAction::Answer(colony::role_updated_reply()),
                Err(failure) => TeamAction::Answer(failure.reply()),
            },
            TeamEvent::SamlFound(found) => TeamAction::Answer(
                colony::get_saml_config_reply(found),
            ),
            TeamEvent::SamlSet(outcome) => match outcome {
                Ok(_) => TeamAction::Answer(colony::set_saml_config_reply(None)),
                Err(e) => TeamAction::Answer(colony::set_saml_config_reply(Some(e.as_str()))),
            },
        }
    }
}

/// Members of whom the identity provider was not asked.
fn without_users(members: Vec<Membership>) -> (r: Vec<(Membership, Option<DirectoryUser>)>)
    ensures
        r@ == members@.map_values(|m: Membership| (m, None::<DirectoryUser>)),
{
    let ghost all = members@;
    let mut rest = members;
    let mut back: Vec<Membership> = Vec::new();
    while rest.len() > 0
        invariant
            rest@.len() + back@.len() == all.len(),
            rest@ == all.take(rest@.len() as int),
            forall|k: int|
                0 <= k < back@.len() ==> #[trigger] back@[k] == all[all.len() - 1 - k],
        decreases rest@.len(),
    {
        if let Some(m) = rest.pop() {
            back.push(m);
        }
    }
    let mut out: Vec<(Membership, Option<DirectoryUser>)> = Vec::new();
    while back.len() > 0
        invariant
            out@.len() + back@.len() == all.len(),
            forall|k: int|
                0 <= k < back@.len() ==> #[trigger] back@[k] == all[all.len() - 1 - k],
            forall|k: int| 0 <= k < out@.len() ==> #[trigger] out@[k] == (all[k], None::<DirectoryUser>),
        decreases back@.len(),
    {
        if let Some(m) = back.pop() {
            out.push((m, None));
        }
    }
    assert(out@ =~= all.map_values(|m: Membership| (m, None::<DirectoryUser>)));
    out
}

/// What is asked for outside of any one team, and of a team by its identifier.
pub enum ColonyAsk {
    ListTeams,
    DeleteTeam { id: String },
    CancelInvitation { id: String },
}

/// What a request begins with.
pub enum ColonyStart {
    /// Find the memberships of the caller.
    FindMemberships { user_id: String },
    /// Find the team.
    FindTeam { id: u128 },
    /// Have the invitation cancelled, in the caller's name.
    Cancel { id: u128, user_id: String },
}

/// Why a request outside of any one team is refused, if it is, given the identifier
/// that its text denotes.
pub open spec fn colony_refusal(
    caller: Option<identity::UserIdentityView>,
    ask: ColonyAsk,
    services: TeamServices,
    id: Option<u128>,
) -> Option<http::ReplyView> {
    if caller is None {
        Some(colony::unauthenticated_answer())
    } else {
        match ask {
            ColonyAsk::ListTeams => if services.service {
                None
            } else {
                Some(colony::no_team_service())
            },
            ColonyAsk::DeleteTeam { .. } => if id is None {
                Some(http::error_reply(400, "invalid_team_id"@))
            } else if services.teams {
                None
            } else {
                Some(http::error_reply(503, "teams_not_configured"@))
            },
            ColonyAsk::CancelInvitation { .. } => if id is None {
                Some(http::error_reply(400, "invalid_invitation_id"@))
            } else if services.service {
                None
            } else {
                Some(colony::no_team_service())
            },
        }
    }
}

/// The text of the identifier in a request.
pub open spec fn colony_id_text(ask: ColonyAsk) -> Seq<char> {
    match ask {
        ColonyAsk::ListTeams => Seq::empty(),
        ColonyAsk::DeleteTeam { id } => id@,
        ColonyAsk::CancelInvitation { id } => id@,
    }
}

/// Decides what a request outside of any one team begins with, given the identifier
/// that its text denotes.
pub fn begin_colony_with(
    caller: Option<&UserIdentity>,
    ask: &ColonyAsk,
    services: TeamServices,
    denoted: Option<u128>,
) -> (r: Result<ColonyStart, Reply>)
    ensures
        match colony_refusal(identity::opt_identity(caller), *ask, services, denoted) {
            Some(refusal) => r matches Err(reply) && reply@ == refusal,
            None => match *ask {
                ColonyAsk::ListTeams => r matches Ok(ColonyStart::FindMemberships { user_id })
                    && user_id@ == caller->Some_0@.sub,
                ColonyAsk::DeleteTeam { .. } => r matches Ok(ColonyStart::FindTeam { id }) && Some(
                    id,
                ) == denoted,
                ColonyAsk::CancelInvitation { .. } => r matches Ok(
                    ColonyStart::Cancel { id, user_id },
                ) && Some(id) == denoted && user_id@ == caller->Some_0@.sub,
            },
        },
{
    let i = match caller {
        Some(i) => i,
        None => {
            return Err(colony::unauthenticated());
        },
    };
    match ask {
        ColonyAsk::ListTeams => match colony::team_service(services.service) {
            Ok(_) => Ok(ColonyStart::FindMemberships { user_id: i.sub.clone() }),
            Err(reply) => Err(reply),
        },
        ColonyAsk::DeleteTeam { .. } => match colony::id_or_refusal(denoted, "invalid_team_id") {
            Ok(id) => match colony::team_store(services.teams) {
                Ok(_) => Ok(ColonyStart::FindTeam { id }),
                Err(reply) => Err(reply),
            },
            Err(reply) => Err(reply),
        },
        ColonyAsk::CancelInvitation { .. } => match colony::id_or_refusal(
            denoted,
            "invalid_invitation_id",
        ) {
            Ok(id) => match colony::team_service(services.service) {
                Ok(_) => Ok(ColonyStart::Cancel { id, user_id: i.sub.clone() }),
                Err(reply) => Err(reply),
            },
            Err(reply) => Err(reply),
        },
    }
}

/// Decides what a request outside of any one team begins with.
pub fn begin_colony(caller: Option<&UserIdentity>, ask: &ColonyAsk, services: TeamServices) -> (r:
    Result<ColonyStart, Reply>)
    ensures
        match colony_refusal(
            identity::opt_identity(caller),
            *ask,
            services,
            primitives::parsed_uuid(colony_id_text(*ask)),
        ) {
            Some(refusal) => r matches Err(reply) && reply@ == refusal,
            None => match *ask {
                ColonyAsk::ListTeams => r matches Ok(ColonyStart::FindMemberships { user_id })
                    && user_id@ == caller->Some_0@.sub,
                ColonyAsk::DeleteTeam { .. } => r matches Ok(ColonyStart::FindTeam { id }) && Some(
                    id,
                ) == primitives::parsed_uuid(colony_id_text(*ask)),
                ColonyAsk::CancelInvitation { .. } => r matches Ok(
                    ColonyStart::Cancel { id, user_id },
                ) && Some(id) == primitives::parsed_uuid(colony_id_text(*ask)) && user_id@
                    == caller->Some_0@.sub,
            },
        },
{
    let denoted: Option<u128> = match ask {
        ColonyAsk::ListTeams => None,
        ColonyAsk::DeleteTeam { id } => primitives::parse_uuid(id.as_str()),
        ColonyAsk::CancelInvitation { id } => primitives::parse_uuid(id.as_str()),
    };
    begin_colony_with(caller, ask, services, denoted)
}

/// The memberships whose teams are to be looked up, or the answer that ends a request
/// to list teams.
pub fn teams_to_find(memberships: Result<Vec<Membership>, TeamFailure>, services: TeamServices) ->
    (r: Result<Vec<Membership>, Reply>)
    ensures
        match memberships {
            Err(failure) => r matches Err(reply) && reply@ == failure.answer(),
            Ok(all) => if services.teams && services.members {
                r matches Ok(found) && found == all
            } else {
                r matches Err(reply) && reply@ == http::error_reply(503, "teams_not_configured"@)
            },
        },
{
    match memberships {
        Err(failure) => Err(failure.reply()),
        Ok(all) => match colony::team_store(services.teams && services.members) {
            Ok(_) => Ok(all),
            Err(reply) => Err(reply),
        },
    }
}

/// What ends a request that had the identity provider told of something.
pub struct Ending {
    /// What the identity provider is told first. Whatever it says, the answer stands.
    pub cleanup: Option<Cleanup>,
    pub reply: Reply,
}

/// What ends the removal of a team, given why it failed, if it did.
pub fn team_deleted(team: &Team, failure: Option<&str>, services: TeamServices) -> (r: Ending)
    ensures
        match text::opt_str_view(failure) {
            Some(e) => r.cleanup is None && r.reply@ == http::error_reply(500, e),
            None => {
                &&& r.reply@ == http::empty_reply(204)
                &&& if services.directory {
                    r.cleanup matches Some(c) && c@ == colony::cleanup_of(team.tier, team.slug@)
                } else {
                    r.cleanup is None
                }
            },
        },
{
    match failure {
        Some(e) => Ending { cleanup: None, reply: Reply::error(500, e) },
        None => if services.directory {
            Ending {
                cleanup: Some(colony::team_cleanup(&team.tier, team.slug.as_str())),
                reply: Reply::empty(204),
            }
        } else {
            Ending { cleanup: None, reply: Reply::empty(204) }
        },
    }
}

/// What ends the founding of a team: the realm that is to be made first, where the team
/// has its own, and the answer.
pub fn team_founded(outcome: Result<Team, TeamFailure>, services: TeamServices) -> (r: (
    Option<String>,
    Reply,
))
    ensures
        match outcome {
            Ok(team) => {
                &&& r.1@ == colony::created_answer(team)
                &&& text::opt_view(r.0) == (if colony::has_own_realm(team.tier)
                    && services.directory {
                    Some(team.slug@)
                } else {
                    None
                })
            },
            Err(failure) => r.0 is None && r.1@ == failure.answer(),
        },
{
    match outcome {
        Ok(team) => {
            let reply = colony::team_created_reply(&team);
            if colony::needs_realm(&team.tier) && services.directory {
                (Some(team.slug), reply)
            } else {
                (None, reply)
            }
        },
        Err(failure) => (None, failure.reply()),
    }
}

/// The answer to an invitation that was cancelled.
pub fn invitation_cancelled(outcome: Result<(), TeamFailure>) -> (r: Reply)
    ensures
        r@ == (match outcome {
            Ok(_) => http::empty_reply(204),
            Err(failure) => failure.answer(),
        }),
{
    match outcome {
        Ok(_) => Reply::empty(204),
        Err(failure) => failure.reply(),
    }
}

/// The answer to an invitation that was accepted.
pub fn invitation_accepted(outcome: Result<Membership, TeamFailure>) -> (r: Reply)
    ensures
        r@ == (match outcome {
            Ok(m) => colony::accepted_answer(m),
            Err(failure) => failure.answer(),
        }),
{
    match outcome {
        Ok(m) => colony::invitation_accepted_reply(&m),
        Err(failure) => failure.reply(),
    }
}

/// Which stores a request for a subscription can use.
#[derive(Clone, Copy, PartialEq, Eq, Structural, Debug)]
pub struct SubscriptionStores {
    pub tenants: bool,
    pub billing: bool,
    pub teams: bool,
    pub members: bool,
}

/// A request for the subscription of a tenant, and what is known so far: the tier, and
/// the number of members where the tenant is a team's.
pub struct SubscriptionRequest {
    pub kind: TenantKind,
    /// Missing where the tenant's slug is well formed.
    pub slug_flaw: Option<String>,
    pub stores: SubscriptionStores,
    pub tier: TenantTier,
    pub team_members: Option<u32>,
}

/// What was learnt. A subscription is missing where there is none or it could not be
/// read; a count where the members could not be counted.
pub enum SubscriptionEvent {
    Begun,
    /// Whether the tenant is there.
    TenantFound(Result<bool, String>),
    /// The subscription that the tier is taken from.
    TierFound(Option<SubscriptionRow>),
    TeamFound(Result<Option<Team>, String>),
    Counted(Option<u32>),
    /// The subscription that is shown.
    RowFound(Option<SubscriptionRow>),
}

/// What is to be done next.
pub enum SubscriptionAction {
    FindTenant,
    FindTier,
    FindTeam,
    CountMembers { team: String },
    FindRow,
    Answer(Reply),
}

/// The mathematical content of what is to be done next.
pub enum SubscriptionActionView {
    FindTenant,
    FindTier,
    FindTeam,
    CountMembers { team: Seq<char> },
    FindRow,
    Answer(http::ReplyView),
}

impl View for SubscriptionAction {
    type V = SubscriptionActionView;

    open spec fn view(&self) -> SubscriptionActionView {
        match *self {
            SubscriptionAction::FindTenant => SubscriptionActionView::FindTenant,
            SubscriptionAction::FindTier => SubscriptionActionView::FindTier,
            SubscriptionAction::FindTeam => SubscriptionActionView::FindTeam,
            SubscriptionAction::CountMembers { team } => SubscriptionActionView::CountMembers {
                team: team@,
            },
            SubscriptionAction::FindRow => SubscriptionActionView::FindRow,
            SubscriptionAction::Answer(reply) => SubscriptionActionView::Answer(reply@),
        }
    }
}

impl SubscriptionRequest {
    /// The tier that is known after an event.
    pub open spec fn tier_after(self, event: SubscriptionEvent) -> TenantTier {
        match event {
            SubscriptionEvent::TierFound(row) => colony::tier_given(row),
            SubscriptionEvent::TenantFound(_) => TenantTier::Free,
            _ => self.tier,
        }
    }

    /// The number of members that is known after an event.
    pub open spec fn members_after(self, event: SubscriptionEvent) -> Option<u32> {
        match event {
            SubscriptionEvent::Counted(count) => Some(
                match count {
                    Some(n) => n,
                    None => 0,
                },
            ),
            _ => self.team_members,
        }
    }

    /// What follows once the tier is known: the members of the team, where the tenant
    /// is a team's.
    pub open spec fn with_tier(self, tier: TenantTier) -> SubscriptionActionView {
        if self.kind == TenantKind::Team {
            match team_refusal(
                self.kind,
                self.stores.teams,
                text::opt_view(self.slug_flaw),
                http::error_reply(404, "team_not_found"@),
            ) {
                Some(refusal) => SubscriptionActionView::Answer(refusal),
                None => SubscriptionActionView::FindTeam,
            }
        } else {
            self.with_members(tier, self.team_members)
        }
    }

    /// What follows once the members are counted.
    pub open spec fn with_members(self, tier: TenantTier, members: Option<u32>) ->
        SubscriptionActionView {
        if self.stores.billing {
            SubscriptionActionView::FindRow
        } else {
            SubscriptionActionView::Answer(
                http::json_reply(200, colony::subscription_shown(tier, members, None)),
            )
        }
    }

    /// What follows from what was learnt.
    pub open spec fn next(self, event: SubscriptionEvent) -> SubscriptionActionView {
        match event {
            SubscriptionEvent::Begun => if self.stores.tenants {
                SubscriptionActionView::FindTenant
            } else {
                SubscriptionActionView::Answer(
                    http::error_reply(503, "tenant repository not configured"@),
                )
            },
            SubscriptionEvent::TenantFound(found) => match found {
                Ok(true) => if self.stores.billing {
                    SubscriptionActionView::FindTier
                } else {
                    self.with_tier(TenantTier::Free)
                },
                Ok(false) => SubscriptionActionView::Answer(
                    http::error_reply(404, "Tenant not found"@),
                ),
                Err(e) => SubscriptionActionView::Answer(http::error_reply(500, e@)),
            },
            SubscriptionEvent::TierFound(row) => self.with_tier(colony::tier_given(row)),
            SubscriptionEvent::TeamFound(found) => match found {
                Ok(Some(team)) => if self.stores.members {
                    SubscriptionActionView::CountMembers { team: team.id@ }
                } else {
                    SubscriptionActionView::Answer(http::error_reply(503, "teams_not_configured"@))
                },
                Ok(None) => SubscriptionActionView::Answer(
                    http::error_reply(404, "team_not_found"@),
                ),
                Err(e) => SubscriptionActionView::Answer(http::error_reply(500, e@)),
            },
            SubscriptionEvent::Counted(_) => self.with_members(
                self.tier,
                self.members_after(event),
            ),
            SubscriptionEvent::RowFound(row) => SubscriptionActionView::Answer(
                http::json_reply(200, colony::subscription_shown(self.tier, self.team_members, row)),
            ),
        }
    }

    fn after_tier(&self) -> (r: SubscriptionAction)
        ensures
            r@ == self.with_tier(self.tier),
    {
        let flaw = match &self.slug_flaw {
            Some(e) => Some(e.as_str()),
            None => None,
        };
        match colony::resolve_active_team(self.kind, self.stores.teams, flaw) {
            Ok(found) => if found {
                SubscriptionAction::FindTeam
            } else {
                self.after_members()
            },
            Err(reply) => SubscriptionAction::Answer(reply),
        }
    }

    fn after_members(&self) -> (r: SubscriptionAction)
        ensures
            r@ == self.with_members(self.tier, self.team_members),
    {
        if self.stores.billing {
            SubscriptionAction::FindRow
        } else {
            SubscriptionAction::Answer(
                colony::get_subscription_reply(self.tier, self.team_members, None),
            )
        }
    }

    /// One step of a request: takes what was learnt and says what to do next.
    pub fn step(&mut self, event: SubscriptionEvent) -> (action: SubscriptionAction)
        ensures
            action@ == old(self).next(event),
            final(self).kind == old(self).kind,
            final(self).slug_flaw == old(self).slug_flaw,
            final(self).stores == old(self).stores,
            final(self).tier == old(self).tier_after(event),
            final(self).team_members == old(self).members_after(event),
    {
        match event {
            SubscriptionEvent::Begun => if self.stores.tenants {
                SubscriptionAction::FindTenant
            } else {
                SubscriptionAction::Answer(Reply::error(503, "tenant repository not configured"))
            },
            SubscriptionEvent::TenantFound(found) => {
                self.tier = TenantTier::Free;
                match found {
                    Ok(there) => if !there {
                        SubscriptionAction::Answer(Reply::error(404, "Tenant not found"))
                    } else if self.stores.billing {
                        SubscriptionAction::FindTier
                    } else {
                        self.after_tier()
                    },
                    Err(e) => SubscriptionAction::Answer(Reply::error(500, e.as_str())),
                }
            },
            SubscriptionEvent::TierFound(row) => {
                self.tier = colony::effective_tier(row.as_ref());
                self.after_tier()
            },
            SubscriptionEvent::TeamFound(found) => match colony::active_team(found) {
                Ok(team) => match colony::team_store(self.stores.members) {
                    Ok(_) => SubscriptionAction::CountMembers { team: team.id },
                    Err(reply) => SubscriptionAction::Answer(reply),
                },
                Err(reply) => SubscriptionAction::Answer(reply),
            },
            SubscriptionEvent::Counted(count) => {
                let members: u32 = match count {
                    Some(n) => n,
                    None => 0,
                };
                self.team_members = Some(members);
                self.after_members()
            },
            SubscriptionEvent::RowFound(row) => SubscriptionAction::Answer(
                colony::get_subscription_reply(self.tier, self.team_members, row.as_ref()),
            ),
        }
    }
}

/// Outside of a team no request within a team asks anything of any service.
pub proof fn law_nothing_is_asked_outside_a_team(request: TeamRequest)
    requires
        request.kind != TenantKind::Team,
    ensures
        request.next(TeamEvent::Begun) == TeamActionView::Answer(
            colony::team_context_answer(request.ask is ListMembers),
        ),
{
}

/// Members and invitations are shown, and sign-on is read or set, only for an active
/// member of the team; sign-on only for one that manages others.
pub proof fn law_only_members_go_on(
    request: TeamRequest,
    team: Team,
    found: Result<Vec<Membership>, String>,
)
    requires
        request.team == Some(team),
        request.ask is ListMembers || request.ask is ListInvitations || request.ask is GetSaml
            || request.ask is SetSaml,
        !(members_given(found) matches Some(members) && colony::is_member(
            members,
            request.caller@,
        )),
    ensures
        request.next(TeamEvent::RolesFound(found)) is Answer,
        (request.ask is GetSaml || request.ask is SetSaml) && colony::has_own_realm(team.tier)
            ==> request.next(TeamEvent::RolesFound(found)) == TeamActionView::Answer(
            http::error_reply(403, "forbidden"@),
        ),
{
}

/// Whatever the identity provider says, an invitation that was issued is answered with
/// its token, and a removal that was done is answered as done.
pub proof fn law_the_directory_changes_no_answer(
    request: TeamRequest,
    team: Team,
    issued: IssuedInvitation,
)
    requires
        request.team == Some(team),
    ensures
        match request.next(TeamEvent::Invited(Ok(issued))) {
            TeamActionView::Enrol { reply, .. } => reply == colony::issued_answer(issued),
            action => action == TeamActionView::Answer(colony::issued_answer(issued)),
        },
        match request.next(TeamEvent::Revoked(Ok(()))) {
            TeamActionView::Detach { reply, .. } => reply == http::empty_reply(204),
            action => action == TeamActionView::Answer(http::empty_reply(204)),
        },
{
}

/// What is asked of a team is done for that team, in the name of the caller, and with what
/// they say.
pub proof fn law_what_is_asked_of_a_team_is_done(
    request: TeamRequest,
    team: Team,
    email: String,
    role: Option<String>,
    usual: String,
    user: String,
    new_role: String,
)
    requires
        request.services.service,
    ensures
        request.ask == (TeamAsk::CreateInvitation {
            invitee_email: email,
            role,
            usual_role: usual,
        }) ==> request.next(TeamEvent::TeamFound(Ok(Some(team)))) == (TeamActionView::Invite {
            team: team.id@,
            invitee_email: email@,
            invited_by: request.caller@,
        }),
        request.ask == (TeamAsk::RemoveMember { user_id: user }) ==> request.next(
            TeamEvent::TeamFound(Ok(Some(team))),
        ) == (TeamActionView::Revoke {
            team: team.id@,
            user_id: user@,
            revoked_by: request.caller@,
        }),
        request.ask == (TeamAsk::UpdateRole { user_id: user, new_role, role_flaw: None })
            ==> request.next(TeamEvent::TeamFound(Ok(Some(team)))) == (
        TeamActionView::UpdateRole {
            team: team.id@,
            user_id: user@,
            role: new_role@,
            updated_by: request.caller@,
        }),
        request.ask == (TeamAsk::UpdateRole { user_id: user, new_role, role_flaw: Some(email) })
            ==> (request.next(
            TeamEvent::TeamFound(Ok(Some(team))),
        ) matches TeamActionView::Answer(reply) && reply.status == 400),
{
}

/// Members and invitations are looked up for the team once the caller is known as a member
/// of it.
pub proof fn law_members_see_their_team(
    request: TeamRequest,
    team: Team,
    members: Vec<Membership>,
    e: String,
)
    requires
        request.team == Some(team),
        request.services.members,
        request.services.service,
        colony::is_member(members@, request.caller@),
    ensures
        request.ask is ListMembers || request.ask is ListInvitations ==> request.next(
            TeamEvent::TeamFound(Ok(Some(team))),
        ) == (TeamActionView::FindRoles { team: team.id@ }),
        request.ask is ListMembers ==> request.next(TeamEvent::RolesFound(Ok(members))) == (
        TeamActionView::FindMembers { team: team.id@ }),
        request.ask is ListInvitations ==> request.next(TeamEvent::RolesFound(Ok(members))) == (
        TeamActionView::FindInvitations { team: team.id@ }),
        request.ask is ListMembers ==> (request.next(
            TeamEvent::RolesFound(Err(e)),
        ) matches TeamActionView::Answer(reply) && reply.status == 500),
        request.next(TeamEvent::TeamFound(Ok(None))) matches TeamActionView::Answer(reply)
            && reply.status == 404,
        request.next(TeamEvent::TeamFound(Err(e))) matches TeamActionView::Answer(reply)
            && reply.status == 500,
        request.kind == TenantKind::Team && request.services.teams && request.slug_flaw is None
            ==> request.next(TeamEvent::Begun) == TeamActionView::FindTeam,
{
}

/// All members are looked up in the realm of the team, and told without the directory where
/// there is none.
pub proof fn law_all_members_are_looked_up(
    request: TeamRequest,
    team: Team,
    members: Vec<Membership>,
    users: Vec<(Membership, Option<DirectoryUser>)>,
    i: int,
)
    requires
        request.team == Some(team),
        0 <= i < members@.len(),
    ensures
        request.services.directory ==> request.next(TeamEvent::MembersFound(Ok(members))) == (
        TeamActionView::FindUsers {
            realm: colony::realm_of(team.tier, team.slug@),
            members: members@,
        }),
        !request.services.directory ==> ({
            &&& request.next(
                TeamEvent::MembersFound(Ok(members)),
            ) matches TeamActionView::Answer(reply)
            &&& reply.body matches Some(body)
            &&& body.get("members"@) matches Some(crate::json::JsonView::Arr(shown))
            &&& shown.len() == members@.len()
            &&& shown[i] == colony::member_view(members@[i], None)
        }),
        request.next(TeamEvent::UsersFound(users)) == TeamActionView::Answer(
            colony::members_answer(users@),
        ),
{
    broadcast use crate::json::lemma_get_with;

    reveal_strlit("members");
    reveal_strlit("count");
    assert("members"@.len() == 7 && "count"@.len() == 5);
}

/// Who is invited is enrolled with their address, the role that is asked for or else the
/// usual one, and the token of the invitation.
pub proof fn law_the_invited_are_enrolled(
    request: TeamRequest,
    team: Team,
    issued: IssuedInvitation,
    email: String,
    asked: String,
    usual: String,
)
    requires
        request.team == Some(team),
        request.services.directory,
    ensures
        request.ask == (TeamAsk::CreateInvitation {
            invitee_email: email,
            role: Some(asked),
            usual_role: usual,
        }) ==> (request.next(TeamEvent::Invited(Ok(issued))) matches TeamActionView::Enrol {
            tier,
            slug,
            email: to,
            role,
            token,
            ..
        } && tier == team.tier && slug == team.slug@ && to == issued.invitee_email@ && role
            == asked@ && token == issued.raw_token@),
        request.ask == (TeamAsk::CreateInvitation {
            invitee_email: email,
            role: None,
            usual_role: usual,
        }) ==> (request.next(TeamEvent::Invited(Ok(issued))) matches TeamActionView::Enrol {
            role,
            ..
        } && role == usual@),
        request.ask == (TeamAsk::RemoveMember { user_id: email }) ==> (request.next(
            TeamEvent::Revoked(Ok(())),
        ) matches TeamActionView::Detach { user_id, from, .. } && user_id == email@ && from
            == colony::cleanup_of(team.tier, team.slug@)),
{
}

/// Sign-on is read and set in the realm of the team, as it is given.
pub proof fn law_sign_on_is_set_as_given(
    request: TeamRequest,
    team: Team,
    members: Vec<Membership>,
    config: SamlIdpConfig,
)
    requires
        request.team == Some(team),
        team.tier == TenantTier::Enterprise,
        colony::is_manager(members@, request.caller@),
        request.services.directory,
    ensures
        request.ask is GetSaml ==> request.next(TeamEvent::RolesFound(Ok(members))) == (
        TeamActionView::FindSaml { realm: "team-"@ + team.slug@ }),
        request.ask == (TeamAsk::SetSaml { config }) ==> request.next(
            TeamEvent::RolesFound(Ok(members)),
        ) == (TeamActionView::SetSaml { realm: "team-"@ + team.slug@, config: config@ }),
{
}

/// What fails is answered by its kind, with its message.
pub proof fn law_team_failures_are_told(request: TeamRequest, failure: TeamFailure)
    ensures
        ({
            let told = colony::coded(
                colony::team_error(failure.error).0,
                colony::team_error(failure.error).1,
                failure.message@,
            );
            &&& request.next(TeamEvent::Invited(Err(failure))) == TeamActionView::Answer(told)
            &&& request.next(TeamEvent::InvitationsFound(Err(failure))) == TeamActionView::Answer(
                told,
            )
            &&& request.next(TeamEvent::Revoked(Err(failure))) == TeamActionView::Answer(told)
            &&& request.next(TeamEvent::RoleUpdated(Err(failure))) == TeamActionView::Answer(told)
        }),
        request.next(TeamEvent::RoleUpdated(Ok(()))) matches TeamActionView::Answer(reply)
            && reply.status == 200,
{
}

/// A request about teams is for known callers, with an identifier where it names one, and
/// where the service that it needs is there.
pub proof fn law_requests_about_teams_are_checked(
    i: identity::UserIdentityView,
    services: TeamServices,
    text: String,
    id: Option<u128>,
)
    ensures
        colony_refusal(Some(i), ColonyAsk::ListTeams, services, id) is None <==> services.service,
        colony_refusal(Some(i), ColonyAsk::DeleteTeam { id: text }, services, id) is None <==> id is Some
            && services.teams,
        colony_refusal(Some(i), ColonyAsk::CancelInvitation { id: text }, services, id) is None
            <==> id is Some && services.service,
        colony_refusal(None, ColonyAsk::ListTeams, services, id) matches Some(r) && r.status
            == 401,
        id is None ==> (colony_refusal(
            Some(i),
            ColonyAsk::DeleteTeam { id: text },
            services,
            id,
        ) matches Some(r) && r.status == 400),
        colony_id_text(ColonyAsk::DeleteTeam { id: text }) == text@,
        colony_id_text(ColonyAsk::CancelInvitation { id: text }) == text@,
{
}

/// The subscription of a tenant is looked up step by step: the tenant, its tier, its team
/// and that team's members, and its record, which is shown with what was found on the way.
pub proof fn law_subscriptions_are_looked_up(
    request: SubscriptionRequest,
    row: SubscriptionRow,
    team: Team,
    n: u32,
    e: String,
)
    requires
        request.stores.tenants,
        request.stores.billing,
        request.stores.teams,
        request.stores.members,
        request.slug_flaw is None,
    ensures
        request.next(SubscriptionEvent::Begun) == SubscriptionActionView::FindTenant,
        request.next(SubscriptionEvent::TenantFound(Ok(true))) == SubscriptionActionView::FindTier,
        request.next(
            SubscriptionEvent::TenantFound(Ok(false)),
        ) matches SubscriptionActionView::Answer(reply) && reply.status == 404,
        request.next(
            SubscriptionEvent::TenantFound(Err(e)),
        ) matches SubscriptionActionView::Answer(reply) && reply.status == 500,
        request.kind == TenantKind::Team ==> request.next(SubscriptionEvent::TierFound(Some(row)))
            == SubscriptionActionView::FindTeam,
        request.kind != TenantKind::Team ==> request.next(SubscriptionEvent::TierFound(Some(row)))
            == SubscriptionActionView::FindRow,
        request.next(SubscriptionEvent::TeamFound(Ok(Some(team)))) == (
        SubscriptionActionView::CountMembers { team: team.id@ }),
        request.next(
            SubscriptionEvent::TeamFound(Ok(None)),
        ) matches SubscriptionActionView::Answer(reply) && reply.status == 404,
        request.next(SubscriptionEvent::Counted(Some(n))) == SubscriptionActionView::FindRow,
        request.next(SubscriptionEvent::RowFound(Some(row))) == SubscriptionActionView::Answer(
            http::json_reply(
                200,
                colony::subscription_shown(request.tier, request.team_members, Some(row)),
            ),
        ),
        request.tier_after(SubscriptionEvent::TierFound(Some(row))) == colony::tier_given(
            Some(row),
        ),
        request.tier_after(SubscriptionEvent::Counted(Some(n))) == request.tier,
        request.members_after(SubscriptionEvent::Counted(Some(n))) == Some(n),
        request.members_after(SubscriptionEvent::Counted(None)) == Some(0u32),
        request.members_after(SubscriptionEvent::TierFound(Some(row))) == request.team_members,
{
}

/// Without a store for billing the tenant is shown as of the free tier.
pub proof fn law_without_billing_all_is_free(request: SubscriptionRequest)
    requires
        request.kind != TenantKind::Team,
        !request.stores.billing,
    ensures
        request.next(SubscriptionEvent::TenantFound(Ok(true))) == SubscriptionActionView::Answer(
            http::json_reply(
                200,
                colony::subscription_shown(TenantTier::Free, request.team_members, None),
            ),
        ),
        !request.stores.tenants ==> (request.next(
            SubscriptionEvent::Begun,
        ) matches SubscriptionActionView::Answer(reply) && reply.status == 503),
{
}

/// Outside a team, without a store or with a name that is no team's, a request is answered
/// at once.
pub proof fn law_requests_that_go_nowhere(request: TeamRequest, flaw: String)
    requires
        request.kind == TenantKind::Team,
    ensures
        !request.services.teams ==> (request.next(
            TeamEvent::Begun,
        ) matches TeamActionView::Answer(reply) && reply.status == 503),
        request.services.teams && request.slug_flaw == Some(flaw) ==> (request.next(
            TeamEvent::Begun,
        ) matches TeamActionView::Answer(reply) && reply == colony::coded(
            400,
            "invalid_team_slug"@,
            flaw@,
        )),
{
}

} // verus!
