//! Checkout: from a request to a session at the payment provider.

use crate::handlers::billing;
use crate::http::Reply;
use crate::identity::{TenantId, UserIdentity, UserIdentityView};
use crate::json::{Json, JsonView};
use crate::operator_read_models::Moment;
use crate::tenancy::{SubscriptionStatus, TenantSubscription, TenantSubscriptionView, TenantTier};
use crate::{handlers, http, identity, operator_read_models, tenancy, text};
use vstd::prelude::*;

verus! {

/// The body of a checkout request.
pub struct CheckoutRequest {
    pub price_id: String,
    pub seat_price_id: Option<String>,
    pub seats: u32,
    pub tier: Option<String>,
    pub success_url: String,
    pub cancel_url: String,
}

/// What is bought: a price, and how many of it.
pub struct LineItem {
    pub price: String,
    pub quantity: u64,
}

/// The mathematical content of a line.
pub struct LineItemView {
    pub price: Seq<char>,
    pub quantity: u64,
}

impl View for LineItem {
    type V = LineItemView;

    open spec fn view(&self) -> LineItemView {
        LineItemView { price: self.price@, quantity: self.quantity }
    }
}

/// The lines of a checkout: the plan, and the extra seats where there are any.
pub open spec fn checkout_lines(body: CheckoutRequest) -> Seq<LineItemView> {
    let plan = seq![LineItemView { price: body.price_id@, quantity: 1 }];
    match body.seat_price_id {
        Some(seat_price) if body.seats > 0 => plan.push(
            LineItemView { price: seat_price@, quantity: body.seats as u64 },
        ),
        _ => plan,
    }
}

fn build_lines(body: &CheckoutRequest) -> (r: Vec<LineItem>)
    ensures
        r@.map_values(|l: LineItem| l@) == checkout_lines(*body),
{
    let mut lines: Vec<LineItem> = Vec::new();
    let ghost model = |l: LineItem| l@;
    lines.push(LineItem { price: body.price_id.clone(), quantity: 1 });
    assert(lines@.map_values(model) =~= seq![LineItemView { price: body.price_id@, quantity: 1 }]);
    if let Some(seat_price) = &body.seat_price_id {
        if body.seats > 0 {
            lines.push(LineItem { price: seat_price.clone(), quantity: body.seats as u64 });
        }
    }
    assert(lines@.map_values(model) =~= checkout_lines(*body));
    lines
}

/// The metadata that a checkout carries to the webhook that reports its completion:
/// the tenant, the tier where it is known, and the number of extra seats.
pub open spec fn checkout_metadata(tenant: Seq<char>, body: CheckoutRequest) -> JsonView {
    let with_tenant = JsonView::object().with("tenant_id"@, JsonView::Str(tenant));
    let with_tier = match body.tier {
        Some(tier) => with_tenant.with("tier"@, JsonView::Str(tier@)),
        None => with_tenant,
    };
    if body.seats > 0 {
        with_tier.with("extra_seats"@, JsonView::Str(text::decimal(body.seats as nat)))
    } else {
        with_tier
    }
}

fn build_metadata(tenant: &TenantId, body: &CheckoutRequest) -> (r: Json)
    ensures
        r@ == checkout_metadata(tenant@, *body),
{
    let with_tenant = Json::object().with("tenant_id", Json::text(tenant.as_str()));
    let with_tier = match &body.tier {
        Some(tier) => with_tenant.with("tier", Json::text(tier.as_str())),
        None => with_tenant,
    };
    if body.seats > 0 {
        with_tier.with("extra_seats", Json::Str(text::u64_text(body.seats as u64)))
    } else {
        with_tier
    }
}

/// A checkout session to create. The metadata go with the session and with the
/// subscription that comes of it.
pub struct SessionParams {
    pub customer: String,
    pub success_url: String,
    pub cancel_url: String,
    pub lines: Vec<LineItem>,
    pub metadata: Json,
}

/// The mathematical content of a session to create.
pub struct SessionParamsView {
    pub customer: Seq<char>,
    pub success_url: Seq<char>,
    pub cancel_url: Seq<char>,
    pub lines: Seq<LineItemView>,
    pub metadata: JsonView,
}

impl View for SessionParams {
    type V = SessionParamsView;

    open spec fn view(&self) -> SessionParamsView {
        SessionParamsView {
            customer: self.customer@,
            success_url: self.success_url@,
            cancel_url: self.cancel_url@,
            lines: self.lines@.map_values(|l: LineItem| l@),
            metadata: self.metadata@,
        }
    }
}

/// The session to create for a customer.
pub open spec fn session_params(
    customer: Seq<char>,
    tenant: Seq<char>,
    body: CheckoutRequest,
) -> SessionParamsView {
    SessionParamsView {
        customer,
        success_url: body.success_url@,
        cancel_url: body.cancel_url@,
        lines: checkout_lines(body),
        metadata: checkout_metadata(tenant, body),
    }
}

/// The name and the e-mail address that a customer gets: what the caller's claims
/// hold, unless it is empty.
pub open spec fn filled(claim: Option<Seq<char>>) -> Option<Seq<char>> {
    match claim {
        Some(t) => if t.len() > 0 {
            Some(t)
        } else {
            None
        },
        None => None,
    }
}

fn fill(claim: &Option<String>) -> (r: Option<String>)
    ensures
        text::opt_view(r) == filled(text::opt_view(*claim)),
{
    match claim {
        Some(t) => if t.as_str().is_empty() {
            None
        } else {
            Some(t.clone())
        },
        None => None,
    }
}

/// The record that ties a tenant to a new customer: the tenant's record with the new
/// customer, or a fresh one without a subscription.
pub open spec fn customer_record(
    existing: Option<TenantSubscriptionView>,
    tenant: Seq<char>,
    customer: Seq<char>,
    now: Moment,
) -> TenantSubscriptionView {
    match existing {
        Some(prev) => TenantSubscriptionView {
            stripe_customer_id: customer,
            updated_at: now,
            ..prev
        },
        None => TenantSubscriptionView {
            tenant_id: tenant,
            stripe_customer_id: customer,
            stripe_subscription_id: None,
            tier: TenantTier::Free,
            status: SubscriptionStatus::Unsubscribed,
            current_period_end: None,
            cancel_at_period_end: false,
            created_at: now,
            updated_at: now,
            seat_count: 1,
        },
    }
}

/// A checkout that was let in.
pub struct Checkout {
    pub tenant: TenantId,
    pub name: Option<String>,
    pub email: Option<String>,
    pub body: CheckoutRequest,
    pub existing: Option<TenantSubscription>,
}

/// What a checkout has just learnt.
pub enum CheckoutEvent {
    /// The tenant's record was loaded.
    Loaded(Result<Option<TenantSubscription>, String>),
    /// The customer of the record was asked for: whether it is still there.
    Retrieved { found: bool },
    /// A customer was created.
    Created(Result<String, String>),
    /// The session was created, with the address to go to.
    Opened(Result<Option<String>, String>),
}

/// What a checkout does next.
pub enum CheckoutAction {
    /// Ask the provider for a customer.
    Retrieve { customer: String },
    /// Bring the customer's name and address up to date, then create the session.
    UpdateAndOpen { name: Option<String>, email: Option<String>, session: SessionParams },
    /// Create a customer, which keeps the tenant that it is made for.
    Create {
        metadata: Vec<(String, String)>,
        name: Option<String>,
        email: Option<String>,
    },
    /// Store the record, then create the session.
    StoreAndOpen { record: TenantSubscription, session: SessionParams },
    /// Answer the request.
    Answer(Reply),
}

/// The mathematical content of an action.
pub enum CheckoutActionView {
    Retrieve { customer: Seq<char> },
    UpdateAndOpen {
        name: Option<Seq<char>>,
        email: Option<Seq<char>>,
        session: SessionParamsView,
    },
    Create {
        metadata: Seq<(Seq<char>, Seq<char>)>,
        name: Option<Seq<char>>,
        email: Option<Seq<char>>,
    },
    StoreAndOpen { record: TenantSubscriptionView, session: SessionParamsView },
    Answer(http::ReplyView),
}

impl View for CheckoutAction {
    type V = CheckoutActionView;

    open spec fn view(&self) -> CheckoutActionView {
        match self {
            CheckoutAction::Retrieve { customer } => CheckoutActionView::Retrieve {
                customer: customer@,
            },
            CheckoutAction::UpdateAndOpen {
                name,
                email,
                session,
            } => CheckoutActionView::UpdateAndOpen {
                name: text::opt_view(*name),
                email: text::opt_view(*email),
                session: session@,
            },
            CheckoutAction::Create { metadata, name, email } => CheckoutActionView::Create {
                metadata: text::pair_views(metadata@),
                name: text::opt_view(*name),
                email: text::opt_view(*email),
            },
            CheckoutAction::StoreAndOpen { record, session } => CheckoutActionView::StoreAndOpen {
                record: record@,
                session: session@,
            },
            CheckoutAction::Answer(reply) => CheckoutActionView::Answer(reply@),
        }
    }
}

impl Checkout {
    /// Lets a checkout request in for the caller's tenant, or refuses it.
    pub fn start(
        configured: bool,
        identity: Option<&UserIdentity>,
        repository: bool,
        default_tenant: &TenantId,
        body: CheckoutRequest,
    ) -> (r: Result<Checkout, Reply>)
        ensures
            match billing::gate_refusal(configured, identity::opt_identity(identity), repository) {
                Some(refusal) => r matches Err(reply) && reply@ == refusal,
                None => {
                    &&& r is Ok
                    &&& r->Ok_0.tenant@ == handlers::tenant_of_identity(
                        identity::opt_identity(identity),
                        default_tenant@,
                    )
                    &&& text::opt_view(r->Ok_0.name) == filled(
                        identity::opt_identity(identity)->Some_0.name,
                    )
                    &&& text::opt_view(r->Ok_0.email) == filled(
                        identity::opt_identity(identity)->Some_0.email,
                    )
                    &&& r->Ok_0.body == body
                    &&& r->Ok_0.existing is None
                },
            },
    {
        let tenant = match billing::billing_gate(configured, identity, repository, default_tenant) {
            Ok(t) => t,
            Err(reply) => {
                return Err(reply);
            },
        };
        let (name, email) = match identity {
            Some(i) => (fill(&i.name), fill(&i.email)),
            None => (None, None),
        };
        Ok(Checkout { tenant, name, email, body, existing: None })
    }

    /// The action that creates a customer.
    pub open spec fn create_action(self) -> CheckoutActionView {
        CheckoutActionView::Create {
            metadata: seq![("tenant_id"@, self.tenant@)],
            name: text::opt_view(self.name),
            email: text::opt_view(self.email),
        }
    }

    /// What a checkout does next. A record's customer is used again where the provider
    /// still knows it; otherwise a new one is created and stored.
    pub open spec fn next(self, event: CheckoutEvent, now: Moment) -> CheckoutActionView {
        match event {
            CheckoutEvent::Loaded(Ok(Some(record))) => CheckoutActionView::Retrieve {
                customer: record.stripe_customer_id@,
            },
            CheckoutEvent::Loaded(Ok(None)) => self.create_action(),
            CheckoutEvent::Loaded(Err(e)) => CheckoutActionView::Answer(http::error_reply(500, e@)),
            CheckoutEvent::Retrieved { found } => match self.existing {
                Some(record) if found => CheckoutActionView::UpdateAndOpen {
                    name: text::opt_view(self.name),
                    email: text::opt_view(self.email),
                    session: session_params(
                        record.stripe_customer_id@,
                        self.tenant@,
                        self.body,
                    ),
                },
                _ => self.create_action(),
            },
            CheckoutEvent::Created(Ok(customer)) => CheckoutActionView::StoreAndOpen {
                record: customer_record(
                    tenancy::opt_subscription(self.existing),
                    self.tenant@,
                    customer@,
                    now,
                ),
                session: session_params(customer@, self.tenant@, self.body),
            },
            CheckoutEvent::Created(Err(e)) => CheckoutActionView::Answer(
                http::error_reply(500, "Failed to create Stripe customer: "@ + e@),
            ),
            CheckoutEvent::Opened(Ok(url)) => CheckoutActionView::Answer(
                http::json_reply(
                    200,
                    JsonView::object().with(
                        "url"@,
                        JsonView::Str(
                            match url {
                                Some(u) => u@,
                                None => Seq::empty(),
                            },
                        ),
                    ),
                ),
            ),
            CheckoutEvent::Opened(Err(e)) => CheckoutActionView::Answer(
                http::error_reply(500, "Failed to create checkout session: "@ + e@),
            ),
        }
    }

    fn session(&self, customer: &str) -> (r: SessionParams)
        ensures
            r@ == session_params(customer@, self.tenant@, self.body),
    {
        SessionParams {
            customer: customer.to_owned(),
            success_url: self.body.success_url.clone(),
            cancel_url: self.body.cancel_url.clone(),
            lines: build_lines(&self.body),
            metadata: build_metadata(&self.tenant, &self.body),
        }
    }

    fn create(&self) -> (r: CheckoutAction)
        ensures
            r@ == self.create_action(),
    {
        let mut metadata: Vec<(String, String)> = Vec::new();
        metadata.push(("tenant_id".to_owned(), self.tenant.as_str().to_owned()));
        assert(text::pair_views(metadata@) =~= seq![("tenant_id"@, self.tenant@)]);
        CheckoutAction::Create {
            metadata,
            name: fill_again(&self.name),
            email: fill_again(&self.email),
        }
    }

    /// One step of a checkout: takes what was learnt and says what to do next.
    pub fn step(&mut self, event: CheckoutEvent, now: Moment) -> (action: CheckoutAction)
        ensures
            action@ == old(self).next(event, now),
            final(self).tenant == old(self).tenant,
            final(self).name == old(self).name,
            final(self).email == old(self).email,
            final(self).body == old(self).body,
            tenancy::opt_subscription(final(self).existing) == (match event {
                CheckoutEvent::Loaded(Ok(record)) => tenancy::opt_subscription(record),
                _ => tenancy::opt_subscription(old(self).existing),
            }),
    {
        match event {
            CheckoutEvent::Loaded(Ok(record)) => {
                self.existing = record;
                match &self.existing {
                    Some(r) => CheckoutAction::Retrieve { customer: r.stripe_customer_id.clone() },
                    None => self.create(),
                }
            },
            CheckoutEvent::Loaded(Err(e)) => CheckoutAction::Answer(Reply::error(500, e.as_str())),
            CheckoutEvent::Retrieved { found } => {
                if found {
                    if let Some(record) = &self.existing {
                        return CheckoutAction::UpdateAndOpen {
                            name: fill_again(&self.name),
                            email: fill_again(&self.email),
                            session: self.session(record.stripe_customer_id.as_str()),
                        };
                    }
                }
                self.create()
            },
            CheckoutEvent::Created(Ok(customer)) => {
                let record = match &self.existing {
                    Some(prev) => {
                        let mut next = prev.clone();
                        next.stripe_customer_id = customer.clone();
                        next.updated_at = now;
                        next
                    },
                    None => TenantSubscription {
                        tenant_id: self.tenant.clone(),
                        stripe_customer_id: customer.clone(),
                        stripe_subscription_id: None,
                        tier: TenantTier::Free,
                        status: SubscriptionStatus::Unsubscribed,
                        current_period_end: None,
                        cancel_at_period_end: false,
                        created_at: now,
                        updated_at: now,
                        seat_count: 1,
                    },
                };
                CheckoutAction::StoreAndOpen { record, session: self.session(customer.as_str()) }
            },
            CheckoutEvent::Created(Err(e)) => CheckoutAction::Answer(
                Reply::error(
                    500,
                    "Failed to create Stripe customer: ".to_owned().concat(e.as_str()).as_str(),
                ),
            ),
            CheckoutEvent::Opened(Ok(url)) => {
                let address = match url {
                    Some(u) => u,
                    None => String::new(),
                };
                CheckoutAction::Answer(
                    Reply::json(200, Json::object().with("url", Json::Str(address))),
                )
            },
            CheckoutEvent::Opened(Err(e)) => CheckoutAction::Answer(
                Reply::error(
                    500,
                    "Failed to create checkout session: ".to_owned().concat(e.as_str()).as_str(),
                ),
            ),
        }
    }
}

fn fill_again(s: &Option<String>) -> (r: Option<String>)
    ensures
        text::opt_view(r) == text::opt_view(*s),
{
    match s {
        Some(t) => Some(t.clone()),
        None => None,
    }
}

/// What looking up a tenant's record brought.
pub enum SubscriptionLookup {
    Found(TenantSubscription),
    Missing,
    Failed(String),
}

/// Decides on a request for the customer portal, once the tenant's record was looked
/// up: the customer to open it for, or the answer that refuses it.
pub fn portal_customer(lookup: SubscriptionLookup) -> (r: Result<String, Reply>)
    ensures
        match lookup {
            SubscriptionLookup::Found(record) => r matches Ok(customer) && customer@
                == record.stripe_customer_id@,
            SubscriptionLookup::Missing => r matches Err(reply) && reply@ == http::error_reply(
                404,
                "No billing account found. Please subscribe first."@,
            ),
            SubscriptionLookup::Failed(e) => r matches Err(reply) && reply@ == http::error_reply(
                500,
                e@,
            ),
        },
{
    match lookup {
        SubscriptionLookup::Found(record) => Ok(record.stripe_customer_id),
        SubscriptionLookup::Missing => Err(
            Reply::error(404, "No billing account found. Please subscribe first."),
        ),
        SubscriptionLookup::Failed(e) => Err(Reply::error(500, e.as_str())),
    }
}

/// The answer to a request for the customer portal.
pub fn portal_reply(outcome: Result<String, String>) -> (r: Reply)
    ensures
        r@ == (match outcome {
            Ok(url) => http::json_reply(
                200,
                JsonView::object().with("url"@, JsonView::Str(url@)),
            ),
            Err(e) => http::error_reply(500, "Failed to create portal session: "@ + e@),
        }),
{
    match outcome {
        Ok(url) => Reply::json(200, Json::object().with("url", Json::Str(url))),
        Err(e) => Reply::error(
            500,
            "Failed to create portal session: ".to_owned().concat(e.as_str()).as_str(),
        ),
    }
}

/// The answer to a request for the subscription, once the tenant's record was looked
/// up. `status` is the name of the record's status.
pub fn get_subscription_reply(
    lookup: SubscriptionLookup,
    tenant: &TenantId,
    status: &str,
) -> (r: Reply)
    ensures
        r@ == (match lookup {
            SubscriptionLookup::Found(record) => http::json_reply(
                200,
                JsonView::object().with("tenant_id"@, JsonView::Str(record.tenant_id@)).with(
                    "tier"@,
                    JsonView::Str(record.tier.name()),
                ).with("status"@, JsonView::Str(status@)).with(
                    "stripe_subscription_id"@,
                    JsonView::opt_text(text::opt_view(record.stripe_subscription_id)),
                ).with(
                    "current_period_end"@,
                    operator_read_models::opt_moment_shown(record.current_period_end),
                ).with("cancel_at_period_end"@, JsonView::Bool(record.cancel_at_period_end)).with(
                    "seat_count"@,
                    JsonView::Int(record.seat_count as int),
                ),
            ),
            SubscriptionLookup::Missing => http::json_reply(
                200,
                JsonView::object().with("tenant_id"@, JsonView::Str(tenant@)).with(
                    "tier"@,
                    JsonView::Str("free"@),
                ).with("status"@, JsonView::Str("none"@)).with(
                    "stripe_subscription_id"@,
                    JsonView::Null,
                ).with("current_period_end"@, JsonView::Null).with(
                    "cancel_at_period_end"@,
                    JsonView::Bool(false),
                ),
            ),
            SubscriptionLookup::Failed(e) => http::error_reply(500, e@),
        }),
{
    match lookup {
        SubscriptionLookup::Found(record) => Reply::json(
            200,
            Json::object().with("tenant_id", Json::text(record.tenant_id.as_str())).with(
                "tier",
                Json::text(record.tier.as_keycloak_str()),
            ).with("status", Json::text(status)).with(
                "stripe_subscription_id",
                Json::opt_text(&record.stripe_subscription_id),
            ).with("current_period_end", operator_read_models::show_opt_moment(record.current_period_end)).with(
                "cancel_at_period_end",
                Json::Bool(record.cancel_at_period_end),
            ).with("seat_count", Json::Int(record.seat_count as i128)),
        ),
        SubscriptionLookup::Missing => Reply::json(
            200,
            Json::object().with("tenant_id", Json::text(tenant.as_str())).with(
                "tier",
                Json::text("free"),
            ).with("status", Json::text("none")).with("stripe_subscription_id", Json::Null).with(
                "current_period_end",
                Json::Null,
            ).with("cancel_at_period_end", Json::Bool(false)),
        ),
        SubscriptionLookup::Failed(e) => Reply::error(500, e.as_str()),
    }
}

/// An invoice, as the provider lists it.
pub struct Invoice {
    pub id: Option<String>,
    pub amount_due: i64,
    pub amount_paid: i64,
    pub currency: String,
    pub status: Option<String>,
    pub created: i64,
    pub hosted_invoice_url: Option<String>,
    pub invoice_pdf: Option<String>,
}

/// How an invoice is shown.
pub open spec fn invoice_json(invoice: Invoice) -> JsonView {
    JsonView::object().with("id"@, JsonView::opt_text(text::opt_view(invoice.id))).with(
        "amount_due"@,
        JsonView::Int(invoice.amount_due as int),
    ).with("amount_paid"@, JsonView::Int(invoice.amount_paid as int)).with(
        "currency"@,
        JsonView::Str(invoice.currency@),
    ).with("status"@, JsonView::opt_text(text::opt_view(invoice.status))).with(
        "created"@,
        JsonView::Int(invoice.created as int),
    ).with(
        "hosted_invoice_url"@,
        JsonView::opt_text(text::opt_view(invoice.hosted_invoice_url)),
    ).with("invoice_pdf"@, JsonView::opt_text(text::opt_view(invoice.invoice_pdf)))
}

fn build_invoice(invoice: &Invoice) -> (r: Json)
    ensures
        r@ == invoice_json(*invoice),
{
    Json::object().with("id", Json::opt_text(&invoice.id)).with(
        "amount_due",
        Json::Int(invoice.amount_due as i128),
    ).with("amount_paid", Json::Int(invoice.amount_paid as i128)).with(
        "currency",
        Json::text(invoice.currency.as_str()),
    ).with("status", Json::opt_text(&invoice.status)).with(
        "created",
        Json::Int(invoice.created as i128),
    ).with("hosted_invoice_url", Json::opt_text(&invoice.hosted_invoice_url)).with(
        "invoice_pdf",
        Json::opt_text(&invoice.invoice_pdf),
    )
}

/// Decides on a request for the invoices, once the tenant's record was looked up: the
/// customer whose invoices to list, or the answer.
pub fn invoices_customer(lookup: SubscriptionLookup) -> (r: Result<String, Reply>)
    ensures
        match lookup {
            SubscriptionLookup::Found(record) => r matches Ok(customer) && customer@
                == record.stripe_customer_id@,
            SubscriptionLookup::Missing => r matches Err(reply) && reply@ == invoices_answer(
                Seq::empty(),
            ),
            SubscriptionLookup::Failed(e) => r matches Err(reply) && reply@ == http::error_reply(
                500,
                e@,
            ),
        },
{
    match lookup {
        SubscriptionLookup::Found(record) => Ok(record.stripe_customer_id),
        SubscriptionLookup::Missing => Err(list_invoices_reply(Ok(Vec::new()))),
        SubscriptionLookup::Failed(e) => Err(Reply::error(500, e.as_str())),
    }
}

/// The answer that lists invoices.
pub open spec fn invoices_answer(invoices: Seq<Invoice>) -> http::ReplyView {
    http::json_reply(
        200,
        JsonView::object().with(
            "invoices"@,
            JsonView::Arr(invoices.map_values(|i: Invoice| invoice_json(i))),
        ).with("count"@, JsonView::Int(invoices.len() as int)),
    )
}

/// The answer to a request for the invoices.
pub fn list_invoices_reply(invoices: Result<Vec<Invoice>, String>) -> (r: Reply)
    ensures
        r@ == (match invoices {
            Ok(list) => invoices_answer(list@),
            Err(e) => http::error_reply(500, "Failed to list invoices: "@ + e@),
        }),
{
    match invoices {
        Ok(list) => {
            let mut items: Vec<Json> = Vec::new();
            let mut i: usize = 0;
            while i < list.len()
                invariant
                    i <= list@.len(),
                    items@.len() == i,
                    forall|j: int| 0 <= j < i ==> (#[trigger] items@[j])@ == invoice_json(list@[j]),
                decreases list@.len() - i,
            {
                items.push(build_invoice(&list[i]));
                i += 1;
            }
            assert(crate::json::json_views(items@) =~= list@.map_values(
                |i: Invoice| invoice_json(i),
            ));
            let count: usize = list.len();
            Reply::json(
                200,
                Json::object().with("invoices", Json::array(items)).with(
                    "count",
                    Json::Int(count as i128),
                ),
            )
        },
        Err(e) => Reply::error(
            500,
            "Failed to list invoices: ".to_owned().concat(e.as_str()).as_str(),
        ),
    }
}

/// A customer who is still known to the provider is never replaced, and the session
/// is opened for them.
pub proof fn law_known_customer_is_reused(
    checkout: Checkout,
    record: TenantSubscription,
    now: Moment,
)
    requires
        checkout.existing == Some(record),
    ensures
        checkout.next(CheckoutEvent::Retrieved { found: true }, now) matches
            CheckoutActionView::UpdateAndOpen { session, .. } && session.customer
            == record.stripe_customer_id@,
{
}

/// Replacing a customer keeps everything else that is stored about the tenant.
pub proof fn law_replacing_customer_keeps_plan(
    existing: TenantSubscriptionView,
    tenant: Seq<char>,
    customer: Seq<char>,
    now: Moment,
)
    ensures
        ({
            let record = customer_record(Some(existing), tenant, customer, now);
            &&& record.stripe_customer_id == customer
            &&& record.tier == existing.tier
            &&& record.status == existing.status
            &&& record.seat_count == existing.seat_count
            &&& record.tenant_id == existing.tenant_id
            &&& record.stripe_subscription_id == existing.stripe_subscription_id
        }),
{
}

/// How an invoice is shown: each part is found under its own name, as it is.
pub proof fn law_invoice_json_holds_its_parts(
    invoice: Invoice,
)
    ensures
        invoice_json(invoice).get("id"@) == Some(JsonView::opt_text(text::opt_view(invoice.id))),
        invoice_json(invoice).get("amount_due"@) == Some(JsonView::Int(invoice.amount_due as int)),
        invoice_json(invoice).get("amount_paid"@) == Some(JsonView::Int(invoice.amount_paid as int)),
        invoice_json(invoice).get("currency"@) == Some(JsonView::Str(invoice.currency@)),
        invoice_json(invoice).get("status"@) == Some(JsonView::opt_text(text::opt_view(invoice.status))),
        invoice_json(invoice).get("created"@) == Some(JsonView::Int(invoice.created as int)),
        invoice_json(invoice).get("hosted_invoice_url"@) == Some(JsonView::opt_text(text::opt_view(invoice.hosted_invoice_url))),
        invoice_json(invoice).get("invoice_pdf"@) == Some(JsonView::opt_text(text::opt_view(invoice.invoice_pdf))),
{
    broadcast use crate::json::lemma_get_with;

    reveal_strlit("id");
    reveal_strlit("amount_due");
    reveal_strlit("amount_paid");
    reveal_strlit("currency");
    reveal_strlit("status");
    reveal_strlit("created");
    reveal_strlit("hosted_invoice_url");
    reveal_strlit("invoice_pdf");
    assert("id"@.len() == 2 && "amount_due"@.len() == 10 && "amount_paid"@.len() == 11 && "currency"@.len() == 8 && "status"@.len() == 6 && "created"@.len() == 7 && "hosted_invoice_url"@.len() == 18 && "invoice_pdf"@.len() == 11 && "invoice_pdf"@[0] == 'i' && "amount_paid"@[0] == 'a');
}

/// The answer that lists invoices: each part is found under its own name, as it is.
pub proof fn law_invoices_answer_holds_its_parts(
    invoices: Seq<Invoice>,
)
    ensures
        invoices_answer(invoices).status == 200,
        invoices_answer(invoices).body is Some,
        invoices_answer(invoices).body->Some_0.get("invoices"@) == Some(JsonView::Arr(invoices.map_values(|i: Invoice| invoice_json(i)))),
        invoices_answer(invoices).body->Some_0.get("count"@) == Some(JsonView::Int(invoices.len() as int)),
{
    broadcast use crate::json::lemma_get_with;

    reveal_strlit("invoices");
    reveal_strlit("count");
    assert("invoices"@.len() == 8 && "count"@.len() == 5);
}

/// A checkout buys the plan once, and as many extra seats as are asked for where their
/// price is known.
pub proof fn law_a_checkout_buys_what_is_asked_for(body: CheckoutRequest, seat_price: String)
    ensures
        checkout_lines(body).len() >= 1,
        checkout_lines(body)[0].price == body.price_id@,
        checkout_lines(body)[0].quantity == 1,
        body.seat_price_id == Some(seat_price) && body.seats > 0 ==> checkout_lines(body).len() == 2
            && checkout_lines(body)[1].price == seat_price@ && checkout_lines(body)[1].quantity
            == body.seats,
        body.seat_price_id is None || body.seats == 0 ==> checkout_lines(body).len() == 1,
{
}

/// A checkout opens a session for its customer, with the addresses of the request, what it
/// buys, and marked with its tenant.
pub proof fn law_a_session_is_the_customers(
    customer: Seq<char>,
    tenant: Seq<char>,
    body: CheckoutRequest,
)
    ensures
        session_params(customer, tenant, body).customer == customer,
        session_params(customer, tenant, body).success_url == body.success_url@,
        session_params(customer, tenant, body).cancel_url == body.cancel_url@,
        session_params(customer, tenant, body).lines == checkout_lines(body),
        session_params(customer, tenant, body).metadata.get("tenant_id"@) == Some(
            JsonView::Str(tenant),
        ),
        body.tier matches Some(tier) ==> session_params(customer, tenant, body).metadata.get(
            "tier"@,
        ) == Some(JsonView::Str(tier@)),
        body.tier is None ==> session_params(customer, tenant, body).metadata.get("tier"@) is None,
        body.seats > 0 ==> session_params(customer, tenant, body).metadata.get("extra_seats"@)
            == Some(JsonView::Str(text::decimal(body.seats as nat))),
        body.seats == 0 ==> session_params(customer, tenant, body).metadata.get(
            "extra_seats"@,
        ) is None,
{
    broadcast use crate::json::lemma_get_with;

    reveal_strlit("tenant_id");
    reveal_strlit("tier");
    reveal_strlit("extra_seats");
    assert("tenant_id"@.len() == 9 && "tier"@.len() == 4 && "extra_seats"@.len() == 11);
}

/// A customer that the provider still has is brought up to date and used; where there is
/// none, one is made for the tenant, and stored as the tenant's before the session opens.
pub proof fn law_a_checkout_finds_or_makes_its_customer(
    checkout: Checkout,
    record: TenantSubscription,
    customer: String,
    now: Moment,
)
    ensures
        checkout.next(CheckoutEvent::Loaded(Ok(Some(record))), now) == (
        CheckoutActionView::Retrieve { customer: record.stripe_customer_id@ }),
        ({
            &&& checkout.next(CheckoutEvent::Loaded(Ok(None)), now) matches CheckoutActionView::Create {
                metadata,
                name,
                email,
            }
            &&& metadata == seq![("tenant_id"@, checkout.tenant@)]
            &&& name == text::opt_view(checkout.name)
            &&& email == text::opt_view(checkout.email)
        }),
        checkout.existing == Some(record) ==> checkout.next(
            CheckoutEvent::Retrieved { found: true },
            now,
        ) == (CheckoutActionView::UpdateAndOpen {
            name: text::opt_view(checkout.name),
            email: text::opt_view(checkout.email),
            session: session_params(record.stripe_customer_id@, checkout.tenant@, checkout.body),
        }),
        checkout.next(CheckoutEvent::Retrieved { found: false }, now) == checkout.next(
            CheckoutEvent::Loaded(Ok(None)),
            now,
        ),
        ({
            &&& checkout.next(
                CheckoutEvent::Created(Ok(customer)),
                now,
            ) matches CheckoutActionView::StoreAndOpen { record: stored, session }
            &&& stored.stripe_customer_id == customer@
            &&& stored.updated_at == now
            &&& checkout.existing is None ==> stored.tenant_id == checkout.tenant@ && stored.tier
                == TenantTier::Free && stored.status == SubscriptionStatus::Unsubscribed
                && stored.created_at == now && stored.seat_count == 1
                && stored.stripe_subscription_id is None
            &&& session == session_params(customer@, checkout.tenant@, checkout.body)
        }),
{
}

/// A session that was opened is answered with its address; a failure is answered 500.
pub proof fn law_a_checkout_answers_with_the_address(
    checkout: Checkout,
    url: String,
    e: String,
    now: Moment,
)
    ensures
        ({
            &&& checkout.next(
                CheckoutEvent::Opened(Ok(Some(url))),
                now,
            ) matches CheckoutActionView::Answer(reply)
            &&& reply.status == 200
            &&& reply.body matches Some(body)
            &&& body.get("url"@) == Some(JsonView::Str(url@))
        }),
        checkout.next(CheckoutEvent::Opened(Err(e)), now) matches CheckoutActionView::Answer(reply)
            && reply.status == 500,
        checkout.next(CheckoutEvent::Created(Err(e)), now) matches CheckoutActionView::Answer(reply)
            && reply.status == 500,
        checkout.next(CheckoutEvent::Loaded(Err(e)), now) matches CheckoutActionView::Answer(reply)
            && reply.status == 500,
{
    broadcast use crate::json::lemma_get_with;

}

/// Claims that are empty are none; every invoice is listed, in its order.
pub proof fn law_invoices_are_all_listed(invoices: Seq<Invoice>, claim: Seq<char>, i: int)
    requires
        0 <= i < invoices.len(),
    ensures
        claim.len() > 0 ==> filled(Some(claim)) == Some(claim),
        claim.len() == 0 ==> filled(Some(claim)) is None,
        ({
            &&& invoices_answer(invoices).body matches Some(body)
            &&& body.get("invoices"@) matches Some(JsonView::Arr(shown))
            &&& shown.len() == invoices.len()
            &&& shown[i] == invoice_json(invoices[i])
            &&& body.get("count"@) == Some(JsonView::Int(invoices.len() as int))
        }),
{
    broadcast use crate::json::lemma_get_with;

    reveal_strlit("invoices");
    reveal_strlit("count");
    assert("invoices"@.len() == 8 && "count"@.len() == 5);
}

} // verus!
