//! How a tier is written to the users of a tenant, user by user.

use crate::handlers::billing::tiers::{TierSync, TierSyncView};
use crate::json::{Json, JsonView};
use crate::text;
use vstd::prelude::*;

verus! {

/// The attribute of a user that holds the user's tier.
pub const TIER_ATTRIBUTE: &'static str = "zaru_tier";

/// A tier on its way to the users of a realm: the users that are still to come.
pub struct TierWrite {
    pub realm: String,
    pub tier: &'static str,
    pub left: Vec<String>,
}

/// The mathematical content of a tier on its way.
pub struct TierWriteView {
    pub realm: Seq<char>,
    pub tier: Seq<char>,
    pub left: Seq<Seq<char>>,
}

impl View for TierWrite {
    type V = TierWriteView;

    open spec fn view(&self) -> TierWriteView {
        TierWriteView { realm: self.realm@, tier: self.tier@, left: text::views(self.left@) }
    }
}

/// What was learnt on the way.
pub enum TierWriteEvent {
    /// The user was looked up: the user, where there is one and they could be.
    UserFound(Option<String>),
    /// The users of the realm were listed, where they could be.
    UsersListed(Option<Vec<String>>),
    /// The tier was written to a user, or it could not be.
    Written { user: String, done: bool },
    /// The sessions of a user were made invalid, or they could not be.
    Invalidated,
}

/// What is done next on the way.
pub enum TierWriteAction {
    FindUser { realm: String, user_sub: String },
    ListUsers { realm: String },
    Write { realm: String, user: String, attribute: &'static str, value: &'static str },
    InvalidateSessions { user: String },
    End,
}

/// The mathematical content of what is done next on the way.
pub enum TierWriteActionView {
    FindUser { realm: Seq<char>, user_sub: Seq<char> },
    ListUsers { realm: Seq<char> },
    Write { realm: Seq<char>, user: Seq<char>, attribute: Seq<char>, value: Seq<char> },
    InvalidateSessions { user: Seq<char> },
    End,
}

impl View for TierWriteAction {
    type V = TierWriteActionView;

    open spec fn view(&self) -> TierWriteActionView {
        match self {
            TierWriteAction::FindUser { realm, user_sub } => TierWriteActionView::FindUser {
                realm: realm@,
                user_sub: user_sub@,
            },
            TierWriteAction::ListUsers { realm } => TierWriteActionView::ListUsers {
                realm: realm@,
            },
            TierWriteAction::Write { realm, user, attribute, value } =>
                TierWriteActionView::Write {
                realm: realm@,
                user: user@,
                attribute: attribute@,
                value: value@,
            },
            TierWriteAction::InvalidateSessions { user } =>
                TierWriteActionView::InvalidateSessions { user: user@ },
            TierWriteAction::End => TierWriteActionView::End,
        }
    }
}

impl TierWriteView {
    /// The tier is written to the given user.
    pub open spec fn write_to(self, user: Seq<char>) -> TierWriteActionView {
        TierWriteActionView::Write {
            realm: self.realm,
            user,
            attribute: "zaru_tier"@,
            value: self.tier,
        }
    }

    /// The tier goes to the first of the given users, and the others are still to come.
    pub open spec fn go_on(self, users: Seq<Seq<char>>) -> (TierWriteActionView, TierWriteView) {
        if users.len() == 0 {
            (TierWriteActionView::End, TierWriteView { left: users, ..self })
        } else {
            (self.write_to(users[0]), TierWriteView { left: users.skip(1), ..self })
        }
    }

    /// What is done next, and what is still to come then. A user's sessions end once
    /// the tier was written to the user; a user to whom it could not be written keeps
    /// them, and the others follow all the same.
    pub open spec fn next(self, event: TierWriteEvent) -> (TierWriteActionView, TierWriteView) {
        match event {
            TierWriteEvent::UserFound(Some(user)) => self.go_on(seq![user@]),
            TierWriteEvent::UserFound(None) => (TierWriteActionView::End, self),
            TierWriteEvent::UsersListed(Some(users)) => self.go_on(text::views(users@)),
            TierWriteEvent::UsersListed(None) => (TierWriteActionView::End, self),
            TierWriteEvent::Written { user, done } => if done {
                (TierWriteActionView::InvalidateSessions { user: user@ }, self)
            } else {
                self.go_on(self.left)
            },
            TierWriteEvent::Invalidated => self.go_on(self.left),
        }
    }
}

/// What is done first to carry out a plan that writes to users; nothing for any other.
pub open spec fn first_write(plan: TierSyncView) -> TierWriteActionView {
    match plan {
        TierSyncView::SetUser { realm, user_sub, .. } => TierWriteActionView::FindUser {
            realm,
            user_sub,
        },
        TierSyncView::SetRealm { realm, .. } => TierWriteActionView::ListUsers { realm },
        _ => TierWriteActionView::End,
    }
}

/// The tier on its way that a plan starts.
pub open spec fn write_of(plan: TierSyncView) -> TierWriteView {
    match plan {
        TierSyncView::SetUser { realm, tier, .. } => TierWriteView {
            realm,
            tier,
            left: Seq::empty(),
        },
        TierSyncView::SetRealm { realm, tier } => TierWriteView { realm, tier, left: Seq::empty() },
        _ => TierWriteView { realm: Seq::empty(), tier: Seq::empty(), left: Seq::empty() },
    }
}

impl TierWrite {
    /// Starts to carry out a plan.
    pub fn start(plan: TierSync) -> (r: (TierWrite, TierWriteAction))
        ensures
            r.0@ == write_of(plan@),
            r.1@ == first_write(plan@),
    {
        let left: Vec<String> = Vec::new();
        assert(text::views(left@) =~= Seq::empty());
        match plan {
            TierSync::SetUser { realm, user_sub, tier } => {
                let action = TierWriteAction::FindUser { realm: realm.clone(), user_sub };
                (TierWrite { realm, tier, left }, action)
            },
            TierSync::SetRealm { realm, tier } => {
                let action = TierWriteAction::ListUsers { realm: realm.clone() };
                (TierWrite { realm, tier, left }, action)
            },
            _ => {
                let realm = String::new();
                let tier: &'static str = "";
                proof {
                    reveal_strlit("");
                    assert(tier@ =~= Seq::empty());
                    assert(realm@ =~= Seq::empty());
                }
                (TierWrite { realm, tier, left }, TierWriteAction::End)
            },
        }
    }

    fn continue_with(&mut self, users: Vec<String>) -> (action: TierWriteAction)
        ensures
            (action@, final(self)@) == old(self)@.go_on(text::views(users@)),
    {
        let mut users = users;
        let ghost all = text::views(users@);
        if users.len() == 0 {
            self.left = users;
            TierWriteAction::End
        } else {
            let user = users.remove(0);
            assert(text::views(users@) =~= all.skip(1));
            self.left = users;
            TierWriteAction::Write {
                realm: self.realm.clone(),
                user,
                attribute: TIER_ATTRIBUTE,
                value: self.tier,
            }
        }
    }

    /// What is done next.
    pub fn step(&mut self, event: TierWriteEvent) -> (action: TierWriteAction)
        ensures
            (action@, final(self)@) == old(self)@.next(event),
    {
        match event {
            TierWriteEvent::UserFound(Some(user)) => {
                let mut users: Vec<String> = Vec::new();
                users.push(user);
                assert(text::views(users@) =~= seq![user@]);
                self.continue_with(users)
            },
            TierWriteEvent::UserFound(None) => TierWriteAction::End,
            TierWriteEvent::UsersListed(Some(users)) => self.continue_with(users),
            TierWriteEvent::UsersListed(None) => TierWriteAction::End,
            TierWriteEvent::Written { user, done } => {
                if done {
                    return TierWriteAction::InvalidateSessions { user };
                }
                let left = text::copied(&self.left);
                self.continue_with(left)
            },
            TierWriteEvent::Invalidated => {
                let left = text::copied(&self.left);
                self.continue_with(left)
            },
        }
    }
}

/// The sessions of a user end only where the tier was just written to that user.
pub proof fn law_sessions_end_after_the_write(write: TierWriteView, event: TierWriteEvent)
    ensures
        write.next(event).0 matches TierWriteActionView::InvalidateSessions { user } ==> (
        event matches TierWriteEvent::Written { user: written, done: true } && written@ == user),
{
}

/// The users to whom a tier is written when a listing is carried out with the given
/// outcomes: one after the other, and whether the sessions of each end.
pub open spec fn carried_out(write: TierWriteView, outcomes: Seq<bool>) -> Seq<(Seq<char>, bool)>
    decreases write.left.len(),
{
    if write.left.len() == 0 || outcomes.len() == 0 {
        Seq::empty()
    } else {
        let after = write.go_on(write.left).1;
        seq![(write.left[0], outcomes[0])] + carried_out(after, outcomes.skip(1))
    }
}

/// Every user of a listing gets the tier, in the order of the listing and whatever
/// became of those before; and the sessions of exactly those end to whom it was written.
pub proof fn law_every_user_is_written(write: TierWriteView, outcomes: Seq<bool>, user: String)
    requires
        outcomes.len() == write.left.len(),
    ensures
        write.next(TierWriteEvent::Written { user, done: false }) == write.go_on(write.left),
        write.next(TierWriteEvent::Invalidated) == write.go_on(write.left),
        carried_out(write, outcomes) == Seq::new(
            write.left.len(),
            |i: int| (write.left[i], outcomes[i]),
        ),
    decreases write.left.len(),
{
    let users = write.left;
    let expected = Seq::new(users.len(), |i: int| (users[i], outcomes[i]));
    if users.len() == 0 {
        assert(carried_out(write, outcomes) =~= expected);
    } else {
        let after = write.go_on(users).1;
        law_every_user_is_written(after, outcomes.skip(1), user);
        assert(carried_out(write, outcomes) =~= expected);
    }
}

/// The order to the web client to end the sessions of a user.
pub struct Invalidation {
    pub endpoint: String,
    pub bearer: String,
    pub body: Json,
}

/// The order to the web client to end the sessions of a user; none where the client is
/// not configured.
pub fn invalidate_zaru_sessions(
    zaru_url: Option<&str>,
    zaru_internal_secret: Option<&str>,
    user: &str,
) -> (r: Option<Invalidation>)
    ensures
        match (zaru_url, zaru_internal_secret) {
            (Some(url), Some(secret)) => r matches Some(order) && order.endpoint@ == url@
                + "/api/internal/invalidate-sessions"@ && order.bearer@ == secret@ && order.body@
                == JsonView::object().with("user_id"@, JsonView::Str(user@)),
            _ => r is None,
        },
{
    match (zaru_url, zaru_internal_secret) {
        (Some(url), Some(secret)) => Some(
            Invalidation {
                endpoint: url.to_owned().concat("/api/internal/invalidate-sessions"),
                bearer: secret.to_owned(),
                body: Json::object().with("user_id", Json::text(user)),
            },
        ),
        _ => None,
    }
}

/// A plan is begun by looking up its one user, or by listing the users of its realm, and
/// carries its own tier.
pub proof fn law_a_plan_is_begun_with_its_users(
    realm: Seq<char>,
    user_sub: Seq<char>,
    tier: Seq<char>,
)
    ensures
        first_write(TierSyncView::SetUser { realm, user_sub, tier }) == (
        TierWriteActionView::FindUser { realm, user_sub }),
        first_write(TierSyncView::SetRealm { realm, tier }) == (TierWriteActionView::ListUsers {
            realm,
        }),
        write_of(TierSyncView::SetUser { realm, user_sub, tier }) == (TierWriteView {
            realm,
            tier,
            left: Seq::empty(),
        }),
        write_of(TierSyncView::SetRealm { realm, tier }) == (TierWriteView {
            realm,
            tier,
            left: Seq::empty(),
        }),
        first_write(TierSyncView::SharedTenant) is End,
        first_write(TierSyncView::NoIdentityProvider) is End,
{
}

/// The tier goes to each user of a list in turn, under the attribute `zaru_tier`: first to
/// the first, and then to each of those that are left, whether the one before could be
/// written or not.
pub proof fn law_the_tier_goes_from_user_to_user(
    write: TierWriteView,
    users: Vec<String>,
    user: String,
)
    ensures
        users@.len() > 0 ==> write.next(TierWriteEvent::UsersListed(Some(users))).0 == (
        TierWriteActionView::Write {
            realm: write.realm,
            user: users@[0]@,
            attribute: "zaru_tier"@,
            value: write.tier,
        }) && write.next(TierWriteEvent::UsersListed(Some(users))).1.left == text::views(
            users@,
        ).skip(1),
        write.next(TierWriteEvent::UserFound(Some(user))).0 == (TierWriteActionView::Write {
            realm: write.realm,
            user: user@,
            attribute: "zaru_tier"@,
            value: write.tier,
        }),
        write.next(TierWriteEvent::UserFound(Some(user))).1.left.len() == 0,
        write.left.len() > 0 ==> write.next(TierWriteEvent::Invalidated).0 == (
        TierWriteActionView::Write {
            realm: write.realm,
            user: write.left[0],
            attribute: "zaru_tier"@,
            value: write.tier,
        }) && write.next(TierWriteEvent::Invalidated).1.left == write.left.skip(1),
        write.left.len() == 0 ==> write.next(TierWriteEvent::Invalidated).0 is End,
        write.next(TierWriteEvent::Written { user, done: true }).0 == (
        TierWriteActionView::InvalidateSessions { user: user@ }),
        write.next(TierWriteEvent::Written { user, done: false }) == write.next(
            TierWriteEvent::Invalidated,
        ),
{
}

} // verus!
