//! Extra seats on a running subscription.

use crate::handlers::billing::checkout::SubscriptionLookup;
use crate::http::Reply;
use crate::json::{Json, JsonView};
use crate::{http, text};
use vstd::prelude::*;

verus! {

/// The body of a request to change the number of extra seats.
pub struct UpdateSeatsRequest {
    pub extra_seats: u32,
    pub seat_price_id: String,
}

/// A line of a running subscription: its id and its price.
pub struct SubscriptionItem {
    pub id: String,
    pub price_id: String,
}

/// A change to a line of a subscription.
pub enum ItemChange {
    Add { price: String, quantity: u64 },
    SetQuantity { id: String, quantity: u64 },
    Delete { id: String },
}

/// The mathematical content of a change.
pub enum ItemChangeView {
    Add { price: Seq<char>, quantity: u64 },
    SetQuantity { id: Seq<char>, quantity: u64 },
    Delete { id: Seq<char> },
}

impl View for ItemChange {
    type V = ItemChangeView;

    open spec fn view(&self) -> ItemChangeView {
        match self {
            ItemChange::Add { price, quantity } => ItemChangeView::Add {
                price: price@,
                quantity: *quantity,
            },
            ItemChange::SetQuantity { id, quantity } => ItemChangeView::SetQuantity {
                id: id@,
                quantity: *quantity,
            },
            ItemChange::Delete { id } => ItemChangeView::Delete { id: id@ },
        }
    }
}

/// The first line with the given price.
pub open spec fn line_with_price(items: Seq<SubscriptionItem>, price: Seq<char>) -> Option<Seq<char>>
    decreases items.len(),
{
    if items.len() == 0 {
        None
    } else if items[0].price_id@ == price {
        Some(items[0].id@)
    } else {
        line_with_price(items.skip(1), price)
    }
}

/// The change that brings a subscription to the wanted number of extra seats, where
/// one is needed.
pub open spec fn seat_change(
    extra_seats: u32,
    seat_price: Seq<char>,
    items: Seq<SubscriptionItem>,
) -> Option<ItemChangeView> {
    match line_with_price(items, seat_price) {
        None => if extra_seats > 0 {
            Some(ItemChangeView::Add { price: seat_price, quantity: extra_seats as u64 })
        } else {
            None
        },
        Some(id) => if extra_seats > 0 {
            Some(ItemChangeView::SetQuantity { id, quantity: extra_seats as u64 })
        } else {
            Some(ItemChangeView::Delete { id })
        },
    }
}

fn find_line(items: &Vec<SubscriptionItem>, price: &str) -> (r: Option<String>)
    ensures
        text::opt_view(r) == line_with_price(items@, price@),
{
    let mut i: usize = 0;
    assert(items@.skip(0) =~= items@);
    while i < items.len()
        invariant
            i <= items@.len(),
            line_with_price(items@, price@) == line_with_price(items@.skip(i as int), price@),
        decreases items@.len() - i,
    {
        assert(items@.skip(i as int)[0] == items@[i as int]);
        assert(items@.skip(i as int).skip(1) =~= items@.skip(i + 1));
        if text::str_eq(items[i].price_id.as_str(), price) {
            return Some(items[i].id.clone());
        }
        i += 1;
    }
    None
}

/// The change that brings a subscription to the wanted number of extra seats.
pub fn plan_seat_change(request: &UpdateSeatsRequest, items: &Vec<SubscriptionItem>) -> (r: Option<
    ItemChange,
>)
    ensures
        (match r {
            Some(c) => Some(c@),
            None => None,
        }) == seat_change(request.extra_seats, request.seat_price_id@, items@),
{
    let extra: u32 = request.extra_seats;
    match find_line(items, request.seat_price_id.as_str()) {
        None => if extra > 0 {
            Some(
                ItemChange::Add { price: request.seat_price_id.clone(), quantity: extra as u64 },
            )
        } else {
            None
        },
        Some(id) => if extra > 0 {
            Some(ItemChange::SetQuantity { id, quantity: extra as u64 })
        } else {
            Some(ItemChange::Delete { id })
        },
    }
}

/// A change of seats: the request, and the subscription once it is known.
pub struct SeatsChange {
    pub request: UpdateSeatsRequest,
    pub subscription: Option<String>,
}

/// When the payment provider invoices what a change costs or gives back.
#[derive(Clone, Copy, PartialEq, Eq, Structural, Debug)]
pub enum Proration {
    /// At once.
    AlwaysInvoice,
    /// As the account is set up.
    Unstated,
}

/// What a change of seats has just learnt.
pub enum SeatsEvent {
    /// The tenant's record was looked up.
    Loaded(SubscriptionLookup),
    /// The running subscription was asked for.
    Retrieved(Result<Vec<SubscriptionItem>, String>),
    /// The subscription was changed.
    Updated(Result<(), String>),
    /// The first open invoice was asked for; it has an id once it is issued.
    Invoiced(Result<Option<String>, String>),
    /// The invoice was paid.
    Paid(Result<(), String>),
}

/// What a change of seats does next.
pub enum SeatsAction {
    /// Ask the provider for the subscription.
    Retrieve { subscription: String },
    /// Change the subscription.
    Update { subscription: String, change: ItemChange, proration: Proration },
    /// Ask the provider for the first open invoice of the subscription.
    ListOpenInvoices { subscription: String },
    /// Pay an invoice.
    Pay { invoice: String },
    /// Answer the request.
    Answer(Reply),
}

/// The mathematical content of an action.
pub enum SeatsActionView {
    Retrieve { subscription: Seq<char> },
    Update { subscription: Seq<char>, change: ItemChangeView, proration: Proration },
    ListOpenInvoices { subscription: Seq<char> },
    Pay { invoice: Seq<char> },
    Answer(http::ReplyView),
}

impl View for SeatsAction {
    type V = SeatsActionView;

    open spec fn view(&self) -> SeatsActionView {
        match self {
            SeatsAction::Retrieve { subscription } => SeatsActionView::Retrieve {
                subscription: subscription@,
            },
            SeatsAction::Update { subscription, change, proration } => SeatsActionView::Update {
                subscription: subscription@,
                change: change@,
                proration: *proration,
            },
            SeatsAction::ListOpenInvoices { subscription } => SeatsActionView::ListOpenInvoices {
                subscription: subscription@,
            },
            SeatsAction::Pay { invoice } => SeatsActionView::Pay { invoice: invoice@ },
            SeatsAction::Answer(reply) => SeatsActionView::Answer(reply@),
        }
    }
}

/// The answer that reports the number of extra seats.
pub open spec fn seats_answer(extra_seats: u32) -> http::ReplyView {
    http::json_reply(
        200,
        JsonView::object().with("success"@, JsonView::Bool(true)).with(
            "extra_seats"@,
            JsonView::Int(extra_seats as int),
        ),
    )
}

fn seats_reply(extra_seats: u32) -> (r: Reply)
    ensures
        r@ == seats_answer(extra_seats),
{
    Reply::json(
        200,
        Json::object().with("success", Json::Bool(true)).with(
            "extra_seats",
            Json::Int(extra_seats as i128),
        ),
    )
}

/// The answer where the tenant has no running subscription.
pub open spec fn no_running_subscription() -> SeatsActionView {
    SeatsActionView::Answer(http::error_reply(404, "No active Stripe subscription found."@))
}

impl SeatsChange {
    /// What a change of seats does next. What it costs is invoiced at once, and where
    /// there are seats to pay for, an open invoice of the subscription is paid before
    /// the request is answered.
    pub open spec fn next(self, event: SeatsEvent) -> SeatsActionView {
        match event {
            SeatsEvent::Loaded(SubscriptionLookup::Found(record)) =>
                match record.stripe_subscription_id {
                    Some(id) => SeatsActionView::Retrieve { subscription: id@ },
                    None => no_running_subscription(),
                },
            SeatsEvent::Loaded(SubscriptionLookup::Missing) => SeatsActionView::Answer(
                http::error_reply(404, "No subscription found. Please subscribe first."@),
            ),
            SeatsEvent::Loaded(SubscriptionLookup::Failed(e)) => SeatsActionView::Answer(
                http::error_reply(500, e@),
            ),
            SeatsEvent::Retrieved(Ok(items)) => match seat_change(
                self.request.extra_seats,
                self.request.seat_price_id@,
                items@,
            ) {
                Some(change) => match self.subscription {
                    Some(id) => SeatsActionView::Update {
                        subscription: id@,
                        change,
                        proration: Proration::AlwaysInvoice,
                    },
                    None => no_running_subscription(),
                },
                None => SeatsActionView::Answer(seats_answer(0)),
            },
            SeatsEvent::Retrieved(Err(e)) => SeatsActionView::Answer(
                http::error_reply(502, "Failed to retrieve subscription from Stripe: "@ + e@),
            ),
            SeatsEvent::Updated(Ok(_)) => if self.request.extra_seats > 0 {
                match self.subscription {
                    Some(id) => SeatsActionView::ListOpenInvoices { subscription: id@ },
                    None => no_running_subscription(),
                }
            } else {
                SeatsActionView::Answer(seats_answer(self.request.extra_seats))
            },
            SeatsEvent::Updated(Err(e)) => SeatsActionView::Answer(
                http::error_reply(502, "Failed to update seats: "@ + e@),
            ),
            SeatsEvent::Invoiced(Ok(Some(invoice))) => SeatsActionView::Pay { invoice: invoice@ },
            SeatsEvent::Invoiced(Ok(None)) => SeatsActionView::Answer(
                seats_answer(self.request.extra_seats),
            ),
            SeatsEvent::Invoiced(Err(e)) => SeatsActionView::Answer(
                http::error_reply(
                    502,
                    "Seat update succeeded but could not retrieve invoice: "@ + e@,
                ),
            ),
            SeatsEvent::Paid(Ok(_)) => SeatsActionView::Answer(
                seats_answer(self.request.extra_seats),
            ),
            SeatsEvent::Paid(Err(e)) => SeatsActionView::Answer(
                http::error_reply(402, "Seat update succeeded but payment failed: "@ + e@),
            ),
        }
    }

    /// The subscription that is known after an event.
    pub open spec fn subscription_after(self, event: SeatsEvent) -> Option<Seq<char>> {
        match event {
            SeatsEvent::Loaded(SubscriptionLookup::Found(record)) => text::opt_view(
                record.stripe_subscription_id,
            ),
            _ => text::opt_view(self.subscription),
        }
    }
}

fn failed(status: u16, what: &str, e: String) -> (r: SeatsAction)
    ensures
        r@ == SeatsActionView::Answer(http::error_reply(status, what@ + e@)),
{
    SeatsAction::Answer(Reply::error(status, what.to_owned().concat(e.as_str()).as_str()))
}

fn not_subscribed() -> (r: SeatsAction)
    ensures
        r@ == no_running_subscription(),
{
    SeatsAction::Answer(Reply::error(404, "No active Stripe subscription found."))
}

/// One step of a change of seats: takes what was learnt and says what to do next.
pub fn update_seats_step(seats: &mut SeatsChange, event: SeatsEvent) -> (action: SeatsAction)
    ensures
        action@ == old(seats).next(event),
        final(seats).request == old(seats).request,
        text::opt_view(final(seats).subscription) == old(seats).subscription_after(event),
{
    match event {
        SeatsEvent::Loaded(lookup) => match lookup {
            SubscriptionLookup::Found(record) => {
                let action = match &record.stripe_subscription_id {
                    Some(id) => SeatsAction::Retrieve { subscription: id.clone() },
                    None => not_subscribed(),
                };
                seats.subscription = record.stripe_subscription_id;
                action
            },
            SubscriptionLookup::Missing => SeatsAction::Answer(
                Reply::error(404, "No subscription found. Please subscribe first."),
            ),
            SubscriptionLookup::Failed(e) => SeatsAction::Answer(Reply::error(500, e.as_str())),
        },
        SeatsEvent::Retrieved(outcome) => match outcome {
            Ok(items) => match plan_seat_change(&seats.request, &items) {
                Some(change) => match &seats.subscription {
                    Some(id) => SeatsAction::Update {
                        subscription: id.clone(),
                        change,
                        proration: Proration::AlwaysInvoice,
                    },
                    None => not_subscribed(),
                },
                None => SeatsAction::Answer(seats_reply(0)),
            },
            Err(e) => failed(502, "Failed to retrieve subscription from Stripe: ", e),
        },
        SeatsEvent::Updated(outcome) => match outcome {
            Ok(_) => if seats.request.extra_seats > 0 {
                match &seats.subscription {
                    Some(id) => SeatsAction::ListOpenInvoices { subscription: id.clone() },
                    None => not_subscribed(),
                }
            } else {
                SeatsAction::Answer(seats_reply(seats.request.extra_seats))
            },
            Err(e) => failed(502, "Failed to update seats: ", e),
        },
        SeatsEvent::Invoiced(outcome) => match outcome {
            Ok(Some(invoice)) => SeatsAction::Pay { invoice },
            Ok(None) => SeatsAction::Answer(seats_reply(seats.request.extra_seats)),
            Err(e) => failed(502, "Seat update succeeded but could not retrieve invoice: ", e),
        },
        SeatsEvent::Paid(outcome) => match outcome {
            Ok(_) => SeatsAction::Answer(seats_reply(seats.request.extra_seats)),
            Err(e) => failed(402, "Seat update succeeded but payment failed: ", e),
        },
    }
}

proof fn lemma_line_exists(items: Seq<SubscriptionItem>, price: Seq<char>)
    ensures
        line_with_price(items, price) matches Some(id) ==> exists|i: int|
            0 <= i < items.len() && (#[trigger] items[i]).id@ == id && items[i].price_id@ == price,
        line_with_price(items, price) is None ==> forall|i: int|
            0 <= i < items.len() ==> (#[trigger] items[i]).price_id@ != price,
    decreases items.len(),
{
    if items.len() > 0 && items[0].price_id@ != price {
        lemma_line_exists(items.skip(1), price);
        let rest = items.skip(1);
        match line_with_price(rest, price) {
            Some(id) => {
                let i = choose|i: int|
                    0 <= i < rest.len() && (#[trigger] rest[i]).id@ == id && rest[i].price_id@
                        == price;
                assert(items[i + 1] == rest[i]);
            },
            None => {
                assert forall|i: int| 0 <= i < items.len() implies (#[trigger] items[i]).price_id@
                    != price by {
                    if i > 0 {
                        assert(rest[i - 1] == items[i]);
                    }
                }
            },
        }
    }
}

/// Asking for no extra seats never adds a line, and asking for some never deletes
/// one; a change to an existing line is to one with the seat price.
pub proof fn law_seat_change_touches_seat_line_only(
    extra_seats: u32,
    seat_price: Seq<char>,
    items: Seq<SubscriptionItem>,
)
    ensures
        extra_seats == 0 ==> !(seat_change(extra_seats, seat_price, items) matches Some(
            ItemChangeView::Add { .. },
        )),
        extra_seats > 0 ==> !(seat_change(extra_seats, seat_price, items) matches Some(
            ItemChangeView::Delete { .. },
        )),
        seat_change(extra_seats, seat_price, items) matches Some(
            ItemChangeView::SetQuantity { id, quantity },
        ) ==> quantity == extra_seats && exists|i: int|
            0 <= i < items.len() && (#[trigger] items[i]).id@ == id && items[i].price_id@
                == seat_price,
        seat_change(extra_seats, seat_price, items) matches Some(ItemChangeView::Delete { id })
            ==> exists|i: int|
            0 <= i < items.len() && (#[trigger] items[i]).id@ == id && items[i].price_id@
                == seat_price,
        seat_change(extra_seats, seat_price, items) matches Some(
            ItemChangeView::Add { price, quantity },
        ) ==> price == seat_price && quantity == extra_seats && forall|i: int|
            0 <= i < items.len() ==> (#[trigger] items[i]).price_id@ != seat_price,
{
    lemma_line_exists(items, seat_price);
}

/// The line of a price is the first one that has it; and a subscription without such a
/// line has none.
pub proof fn law_the_line_of_a_price_is_its_first(
    items: Seq<SubscriptionItem>,
    price: Seq<char>,
    at: int,
)
    requires
        0 <= at <= items.len(),
        forall|i: int| 0 <= i < at ==> (#[trigger] items[i]).price_id@ != price,
        at < items.len() ==> items[at].price_id@ == price,
    ensures
        line_with_price(items, price) == (if at < items.len() {
            Some(items[at].id@)
        } else {
            None
        }),
    decreases items.len(),
{
    if at > 0 {
        let rest = items.skip(1);
        assert(items[0].price_id@ != price);
        assert forall|i: int| 0 <= i < at - 1 implies (#[trigger] rest[i]).price_id@ != price by {
            assert(rest[i] == items[i + 1]);
        }
        law_the_line_of_a_price_is_its_first(rest, price, at - 1);
    }
}

/// The number of extra seats that is asked for is the number that comes: a line is added
/// with it, or the line that is there is set to it; the line goes where none are asked for,
/// and nothing is changed where there is none.
pub proof fn law_seats_become_what_is_asked_for(
    extra: u32,
    price: Seq<char>,
    items: Seq<SubscriptionItem>,
    id: Seq<char>,
)
    ensures
        extra > 0 && line_with_price(items, price) is None ==> seat_change(extra, price, items)
            == Some(ItemChangeView::Add { price, quantity: extra as u64 }),
        extra > 0 && line_with_price(items, price) == Some(id) ==> seat_change(extra, price, items)
            == Some(ItemChangeView::SetQuantity { id, quantity: extra as u64 }),
        line_with_price(items, price) == Some(id) ==> seat_change(0, price, items) == Some(
            ItemChangeView::Delete { id },
        ),
        line_with_price(items, price) is None ==> seat_change(0, price, items) is None,
{
}

/// A change of seats goes to the tenant's own subscription, is invoiced at once, and its
/// open invoice is the one that is paid.
pub proof fn law_seats_are_changed_and_paid(
    seats: SeatsChange,
    id: String,
    items: Vec<SubscriptionItem>,
    invoice: String,
)
    requires
        seats.subscription == Some(id),
    ensures
        seat_change(seats.request.extra_seats, seats.request.seat_price_id@, items@) matches Some(
            change,
        ) ==> seats.next(SeatsEvent::Retrieved(Ok(items))) == (SeatsActionView::Update {
            subscription: id@,
            change,
            proration: Proration::AlwaysInvoice,
        }),
        seat_change(
            seats.request.extra_seats,
            seats.request.seat_price_id@,
            items@,
        ) is None ==> seats.next(SeatsEvent::Retrieved(Ok(items))) == SeatsActionView::Answer(
            seats_answer(0),
        ),
        seats.request.extra_seats > 0 ==> seats.next(SeatsEvent::Updated(Ok(()))) == (
        SeatsActionView::ListOpenInvoices { subscription: id@ }),
        seats.next(SeatsEvent::Invoiced(Ok(Some(invoice)))) == (SeatsActionView::Pay {
            invoice: invoice@,
        }),
        seats.next(SeatsEvent::Invoiced(Ok(None))) == SeatsActionView::Answer(
            seats_answer(seats.request.extra_seats),
        ),
        seats.next(SeatsEvent::Paid(Ok(()))) == SeatsActionView::Answer(
            seats_answer(seats.request.extra_seats),
        ),
{
}

/// A change of seats is begun on the subscription of the tenant's record; a tenant without
/// one is answered 404. A failure is told with its own status: 502 before the change is
/// done, 402 where it could not be paid.
pub proof fn law_changes_of_seats_tell_their_failures(
    seats: SeatsChange,
    record: crate::tenancy::TenantSubscription,
    e: String,
)
    ensures
        record.stripe_subscription_id matches Some(id) ==> seats.next(
            SeatsEvent::Loaded(SubscriptionLookup::Found(record)),
        ) == (SeatsActionView::Retrieve { subscription: id@ }),
        record.stripe_subscription_id is None ==> (seats.next(
            SeatsEvent::Loaded(SubscriptionLookup::Found(record)),
        ) matches SeatsActionView::Answer(reply) && reply.status == 404),
        seats.next(SeatsEvent::Loaded(SubscriptionLookup::Missing)) matches SeatsActionView::Answer(
            reply,
        ) && reply.status == 404,
        seats.next(
            SeatsEvent::Loaded(SubscriptionLookup::Failed(e)),
        ) matches SeatsActionView::Answer(reply) && reply.status == 500,
        seats.next(SeatsEvent::Retrieved(Err(e))) matches SeatsActionView::Answer(reply)
            && reply.status == 502,
        seats.next(SeatsEvent::Updated(Err(e))) matches SeatsActionView::Answer(reply)
            && reply.status == 502,
        seats.next(SeatsEvent::Invoiced(Err(e))) matches SeatsActionView::Answer(reply)
            && reply.status == 502,
        seats.next(SeatsEvent::Paid(Err(e))) matches SeatsActionView::Answer(reply) && reply.status
            == 402,
{
}

/// The answer to a change tells the number of extra seats.
pub proof fn law_the_answer_tells_the_seats(extra: u32)
    ensures
        seats_answer(extra).status == 200,
        seats_answer(extra).body matches Some(body) && body.get("success"@) == Some(
            JsonView::Bool(true),
        ) && body.get("extra_seats"@) == Some(JsonView::Int(extra as int)),
{
    broadcast use crate::json::lemma_get_with;

    reveal_strlit("success");
    reveal_strlit("extra_seats");
    assert("success"@.len() == 7 && "extra_seats"@.len() == 11);
}

/// The subscription of the record that was found is known from that moment on.
pub proof fn law_the_subscription_stays_known(
    change: SeatsChange,
    record: crate::tenancy::TenantSubscription,
    id: String,
    other: SeatsEvent,
)
    requires
        !(other is Loaded),
    ensures
        record.stripe_subscription_id == Some(id) ==> change.subscription_after(
            SeatsEvent::Loaded(SubscriptionLookup::Found(record)),
        ) == Some(id@),
        change.subscription == Some(id) ==> change.subscription_after(other) == Some(id@),
        change.subscription is None ==> change.subscription_after(other) is None,
{
}

} // verus!
