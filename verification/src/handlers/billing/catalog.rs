//! The price list: products and prices of the payment provider, sorted into tiers.

use crate::handlers::billing;
use crate::handlers::billing::tiers;
use crate::http;
use crate::http::Reply;
use crate::json::{Json, JsonView};
use crate::text;
use vstd::prelude::*;

verus! {

/// A product that is for sale.
pub struct Product {
    pub id: String,
    pub name: String,
    pub description: Option<String>,
}

/// A price of a product, with the kind and the tier that its metadata name.
pub struct Price {
    pub id: String,
    pub unit_amount: Option<i64>,
    pub currency: String,
    pub interval: Option<String>,
    pub kind: Option<String>,
    pub tier: Option<String>,
}

/// A price as the price list shows it.
pub struct PriceInfo {
    pub price_id: String,
    pub amount: i64,
    pub currency: String,
}

/// The mathematical content of a price in the list.
pub struct PriceInfoView {
    pub price_id: Seq<char>,
    pub amount: i64,
    pub currency: Seq<char>,
}

impl View for PriceInfo {
    type V = PriceInfoView;

    open spec fn view(&self) -> PriceInfoView {
        PriceInfoView {
            price_id: self.price_id@,
            amount: self.amount,
            currency: self.currency@,
        }
    }
}

/// A tier as the price list shows it.
pub struct TierPricing {
    pub tier: String,
    pub product_id: String,
    pub name: String,
    pub description: Option<String>,
    pub included_seats: u32,
    pub monthly: Option<PriceInfo>,
    pub annual: Option<PriceInfo>,
    pub seat_monthly: Option<PriceInfo>,
    pub seat_annual: Option<PriceInfo>,
}

/// The mathematical content of a tier in the list.
pub struct TierPricingView {
    pub tier: Seq<char>,
    pub product_id: Seq<char>,
    pub name: Seq<char>,
    pub description: Option<Seq<char>>,
    pub included_seats: u32,
    pub monthly: Option<PriceInfoView>,
    pub annual: Option<PriceInfoView>,
    pub seat_monthly: Option<PriceInfoView>,
    pub seat_annual: Option<PriceInfoView>,
}

/// The view of an optional price.
pub open spec fn opt_price(p: Option<PriceInfo>) -> Option<PriceInfoView> {
    match p {
        Some(p) => Some(p@),
        None => None,
    }
}

impl View for TierPricing {
    type V = TierPricingView;

    open spec fn view(&self) -> TierPricingView {
        TierPricingView {
            tier: self.tier@,
            product_id: self.product_id@,
            name: self.name@,
            description: text::opt_view(self.description),
            included_seats: self.included_seats,
            monthly: opt_price(self.monthly),
            annual: opt_price(self.annual),
            seat_monthly: opt_price(self.seat_monthly),
            seat_annual: opt_price(self.seat_annual),
        }
    }
}

/// The tier that a product belongs to, as a base product or as a seat add-on.
pub open spec fn product_key(name: Seq<char>) -> Option<Seq<char>> {
    if text::occurs("Extra Seat"@, name) {
        tiers::seat_tier(name)
    } else {
        match tiers::base_tier(name) {
            Some((tier, _)) => Some(tier),
            None => None,
        }
    }
}

/// Whether a product is the base product of a tier.
pub open spec fn is_base_of(product: Product, tier: Seq<char>) -> bool {
    tiers::base_tier(product.name@) matches Some((t, _)) && t == tier
}

/// The first base product of a tier.
pub open spec fn first_base(products: Seq<Product>, tier: Seq<char>) -> Option<Product>
    decreases products.len(),
{
    if products.len() == 0 {
        None
    } else if is_base_of(products[0], tier) {
        Some(products[0])
    } else {
        first_base(products.skip(1), tier)
    }
}

/// The last price with the given interval.
pub open spec fn last_priced(prices: Seq<Price>, interval: Seq<char>) -> Option<PriceInfoView>
    decreases prices.len(),
{
    if prices.len() == 0 {
        None
    } else if text::opt_view(prices.last().interval) == Some(interval) {
        Some(price_info(prices.last()))
    } else {
        last_priced(prices.drop_last(), interval)
    }
}

/// How the price list shows a price; one without an amount is shown as zero.
pub open spec fn price_info(price: Price) -> PriceInfoView {
    PriceInfoView {
        price_id: price.id@,
        amount: match price.unit_amount {
            Some(a) => a,
            None => 0,
        },
        currency: price.currency@,
    }
}

/// Whether the prices of a product go into the given place of a tier.
pub open spec fn fills(name: Seq<char>, tier: Seq<char>, seat: bool) -> bool {
    text::occurs("Extra Seat"@, name) == seat && product_key(name) == Some(tier)
}

/// The price in one place of a tier: the last one with the interval among the
/// prices of the products that go there. `prices` holds the prices of each product,
/// where they could be listed.
pub open spec fn slot(
    products: Seq<Product>,
    prices: Seq<Option<Vec<Price>>>,
    tier: Seq<char>,
    seat: bool,
    interval: Seq<char>,
) -> Option<PriceInfoView>
    decreases products.len(),
{
    if products.len() == 0 {
        None
    } else {
        let earlier = slot(products.drop_last(), prices, tier, seat, interval);
        match prices[products.len() - 1] {
            Some(list) => if fills(products.last().name@, tier, seat) && last_priced(
                list@,
                interval,
            ) is Some {
                last_priced(list@, interval)
            } else {
                earlier
            },
            None => earlier,
        }
    }
}

/// How the price list shows a tier, where it has a base product.
pub open spec fn tier_pricing(
    products: Seq<Product>,
    prices: Seq<Option<Vec<Price>>>,
    tier: Seq<char>,
) -> Option<TierPricingView> {
    match first_base(products, tier) {
        Some(product) => Some(
            TierPricingView {
                tier,
                product_id: product.id@,
                name: product.name@,
                description: text::opt_view(product.description),
                included_seats: tiers::base_tier(product.name@)->Some_0.1,
                monthly: slot(products, prices, tier, false, "month"@),
                annual: slot(products, prices, tier, false, "year"@),
                seat_monthly: slot(products, prices, tier, true, "month"@),
                seat_annual: slot(products, prices, tier, true, "year"@),
            },
        ),
        None => None,
    }
}

/// One item or none, as a sequence.
pub open spec fn as_seq<T>(item: Option<T>) -> Seq<T> {
    match item {
        Some(x) => seq![x],
        None => Seq::empty(),
    }
}

/// The price list: the tiers that are for sale, from the smallest up.
pub open spec fn price_list(products: Seq<Product>, prices: Seq<Option<Vec<Price>>>) -> Seq<
    TierPricingView,
> {
    as_seq(tier_pricing(products, prices, "pro"@)) + as_seq(
        tier_pricing(products, prices, "business"@),
    ) + as_seq(tier_pricing(products, prices, "enterprise"@))
}

fn is_zaru_product(name: &str) -> (r: bool)
    ensures
        r == "Zaru"@.is_prefix_of(name@),
{
    text::starts_with(name, "Zaru")
}

fn find_first_base<'a>(products: &'a Vec<Product>, tier: &str) -> (r: Option<(&'a Product, u32)>)
    ensures
        match r {
            Some((product, seats)) => first_base(products@, tier@) == Some(*product)
                && tiers::base_tier(product.name@) == Some((tier@, seats)),
            None => first_base(products@, tier@) is None,
        },
{
    let mut i: usize = 0;
    assert(products@.skip(0) =~= products@);
    while i < products.len()
        invariant
            i <= products@.len(),
            first_base(products@, tier@) == first_base(products@.skip(i as int), tier@),
        decreases products@.len() - i,
    {
        assert(products@.skip(i as int)[0] == products@[i as int]);
        assert(products@.skip(i as int).skip(1) =~= products@.skip(i + 1));
        if let Some((name, seats)) = tiers::product_name_to_tier(products[i].name.as_str()) {
            if text::str_eq(name, tier) {
                return Some((&products[i], seats));
            }
        }
        i += 1;
    }
    None
}

fn find_last_priced(prices: &Vec<Price>, interval: &str) -> (r: Option<PriceInfo>)
    ensures
        opt_price(r) == last_priced(prices@, interval@),
{
    let mut i: usize = prices.len();
    assert(prices@.take(i as int) =~= prices@);
    while i > 0
        invariant
            i <= prices@.len(),
            last_priced(prices@, interval@) == last_priced(prices@.take(i as int), interval@),
        decreases i,
    {
        let price = &prices[i - 1];
        assert(prices@.take(i as int).last() == *price);
        assert(prices@.take(i as int).drop_last() =~= prices@.take(i - 1));
        let fits = match &price.interval {
            Some(p) => text::str_eq(p.as_str(), interval),
            None => false,
        };
        if fits {
            return Some(
                PriceInfo {
                    price_id: price.id.clone(),
                    amount: match price.unit_amount {
                        Some(a) => a,
                        None => 0,
                    },
                    currency: price.currency.clone(),
                },
            );
        }
        i -= 1;
    }
    None
}

fn fills_slot(name: &str, tier: &str, seat: bool) -> (r: bool)
    ensures
        r == fills(name@, tier@, seat),
{
    if text::contains(name, "Extra Seat") {
        seat && text::opt_eq(tiers::seat_product_tier(name), tier)
    } else {
        match tiers::product_name_to_tier(name) {
            Some((t, _)) => !seat && text::str_eq(t, tier),
            None => false,
        }
    }
}

fn find_slot(
    products: &Vec<Product>,
    prices: &Vec<Option<Vec<Price>>>,
    tier: &str,
    seat: bool,
    interval: &str,
) -> (r: Option<PriceInfo>)
    requires
        prices@.len() == products@.len(),
    ensures
        opt_price(r) == slot(products@, prices@, tier@, seat, interval@),
{
    let mut i: usize = products.len();
    assert(products@.take(i as int) =~= products@);
    while i > 0
        invariant
            i <= products@.len(),
            prices@.len() == products@.len(),
            slot(products@, prices@, tier@, seat, interval@) == slot(
                products@.take(i as int),
                prices@,
                tier@,
                seat,
                interval@,
            ),
        decreases i,
    {
        assert(products@.take(i as int).last() == products@[i - 1]);
        assert(products@.take(i as int).drop_last() =~= products@.take(i - 1));
        if let Some(list) = &prices[i - 1] {
            if fills_slot(products[i - 1].name.as_str(), tier, seat) {
                let found = find_last_priced(list, interval);
                if found.is_some() {
                    return found;
                }
            }
        }
        i -= 1;
    }
    None
}

fn price_tier(products: &Vec<Product>, prices: &Vec<Option<Vec<Price>>>, tier: &str) -> (r: Option<
    TierPricing,
>)
    requires
        prices@.len() == products@.len(),
    ensures
        (match r {
            Some(t) => Some(t@),
            None => None,
        }) == tier_pricing(products@, prices@, tier@),
{
    match find_first_base(products, tier) {
        Some((product, included_seats)) => Some(
            TierPricing {
                tier: tier.to_owned(),
                product_id: product.id.clone(),
                name: product.name.clone(),
                description: match &product.description {
                    Some(d) => Some(d.clone()),
                    None => None,
                },
                included_seats,
                monthly: find_slot(products, prices, tier, false, "month"),
                annual: find_slot(products, prices, tier, false, "year"),
                seat_monthly: find_slot(products, prices, tier, true, "month"),
                seat_annual: find_slot(products, prices, tier, true, "year"),
            },
        ),
        None => None,
    }
}

/// The price list of the given products. `prices` holds the prices of each product,
/// in the same order, where they could be listed.
pub fn list_prices(products: &Vec<Product>, prices: &Vec<Option<Vec<Price>>>) -> (r: Vec<
    TierPricing,
>)
    requires
        prices@.len() == products@.len(),
    ensures
        r@.map_values(|t: TierPricing| t@) == price_list(products@, prices@),
{
    let mut out: Vec<TierPricing> = Vec::new();
    let ghost model = |t: TierPricing| t@;
    let ghost p = as_seq(tier_pricing(products@, prices@, "pro"@));
    let ghost b = as_seq(tier_pricing(products@, prices@, "business"@));
    let ghost e = as_seq(tier_pricing(products@, prices@, "enterprise"@));
    if let Some(t) = price_tier(products, prices, "pro") {
        out.push(t);
    }
    assert(out@.map_values(model) =~= p);
    if let Some(t) = price_tier(products, prices, "business") {
        out.push(t);
    }
    assert(out@.map_values(model) =~= p + b);
    if let Some(t) = price_tier(products, prices, "enterprise") {
        out.push(t);
    }
    assert(out@.map_values(model) =~= p + b + e);
    out
}

impl PriceInfoView {
    /// How a price is written.
    pub open spec fn shown(self) -> JsonView {
        JsonView::object().with("price_id"@, JsonView::Str(self.price_id)).with(
            "amount"@,
            JsonView::Int(self.amount as int),
        ).with("currency"@, JsonView::Str(self.currency))
    }
}

/// How the price in one place of a tier is written.
pub open spec fn shown_price(price: Option<PriceInfoView>) -> JsonView {
    match price {
        Some(p) => p.shown(),
        None => JsonView::Null,
    }
}

impl TierPricingView {
    /// How a tier is written.
    pub open spec fn shown(self) -> JsonView {
        JsonView::object().with("tier"@, JsonView::Str(self.tier)).with(
            "product_id"@,
            JsonView::Str(self.product_id),
        ).with("name"@, JsonView::Str(self.name)).with(
            "description"@,
            JsonView::opt_text(self.description),
        ).with("included_seats"@, JsonView::Int(self.included_seats as int)).with(
            "monthly"@,
            shown_price(self.monthly),
        ).with("annual"@, shown_price(self.annual)).with(
            "seat_monthly"@,
            shown_price(self.seat_monthly),
        ).with("seat_annual"@, shown_price(self.seat_annual))
    }
}

fn show_price(price: &Option<PriceInfo>) -> (r: Json)
    ensures
        r@ == shown_price(opt_price(*price)),
{
    match price {
        Some(p) => Json::object().with("price_id", Json::text(p.price_id.as_str())).with(
            "amount",
            Json::Int(p.amount as i128),
        ).with("currency", Json::text(p.currency.as_str())),
        None => Json::Null,
    }
}

impl TierPricing {
    /// Writes a tier.
    pub fn show(&self) -> (r: Json)
        ensures
            r@ == self@.shown(),
    {
        Json::object().with("tier", Json::text(self.tier.as_str())).with(
            "product_id",
            Json::text(self.product_id.as_str()),
        ).with("name", Json::text(self.name.as_str())).with(
            "description",
            Json::opt_text(&self.description),
        ).with("included_seats", Json::Int(self.included_seats as i128)).with(
            "monthly",
            show_price(&self.monthly),
        ).with("annual", show_price(&self.annual)).with(
            "seat_monthly",
            show_price(&self.seat_monthly),
        ).with("seat_annual", show_price(&self.seat_annual))
    }
}

/// The answer to a request for the price list.
pub open spec fn prices_answer(
    products: Seq<Product>,
    prices: Seq<Option<Vec<Price>>>,
) -> http::ReplyView {
    http::json_reply(
        200,
        JsonView::object().with(
            "tiers"@,
            JsonView::Arr(price_list(products, prices).map_values(|t: TierPricingView| t.shown())),
        ),
    )
}

/// The answer to a request for the price list.
pub fn list_prices_reply(products: &Vec<Product>, prices: &Vec<Option<Vec<Price>>>) -> (r: Reply)
    requires
        prices@.len() == products@.len(),
    ensures
        r@ == prices_answer(products@, prices@),
{
    let tiers = list_prices(products, prices);
    let ghost models = tiers@.map_values(|t: TierPricing| t@);
    let mut items: Vec<Json> = Vec::new();
    let mut i: usize = 0;
    while i < tiers.len()
        invariant
            i <= tiers@.len(),
            items@.len() == i,
            forall|k: int| 0 <= k < i ==> #[trigger] items@[k]@ == tiers@[k]@.shown(),
        decreases tiers@.len() - i,
    {
        items.push(tiers[i].show());
        i += 1;
    }
    assert forall|k: int| 0 <= k < items@.len() implies #[trigger] items@[k]@
        == models[k].shown() by {}
    assert(crate::json::json_views(items@) =~= models.map_values(
        |t: TierPricingView| t.shown(),
    ));
    Reply::json(200, Json::object().with("tiers", Json::array(items)))
}

fn products_failed_reply(e: &str) -> (r: Reply)
    ensures
        r@ == http::error_reply(502, "Failed to list products from Stripe: "@ + e@),
{
    let message = "Failed to list products from Stripe: ".to_owned().concat(e);
    Reply::error(502, message.as_str())
}

/// The products whose prices are listed, in their order.
pub open spec fn zaru_products(all: Seq<Product>) -> Seq<Product> {
    all.filter(|p: Product| "Zaru"@.is_prefix_of(p.name@))
}

fn select_products(all: Vec<Product>) -> (r: Vec<Product>)
    ensures
        r@ == zaru_products(all@),
{
    let ghost wanted = |p: Product| "Zaru"@.is_prefix_of(p.name@);
    let ghost whole = all@;
    let mut rest = all;
    let mut kept: Vec<Product> = Vec::new();
    assert(whole.take(0).filter(wanted) =~= Seq::empty()) by {
        reveal(Seq::filter);
    }
    assert(whole.skip(0) =~= whole);
    while rest.len() > 0
        invariant
            rest@.len() <= whole.len(),
            wanted == (|p: Product| "Zaru"@.is_prefix_of(p.name@)),
            rest@ == whole.skip(whole.len() - rest@.len()),
            kept@ == whole.take(whole.len() - rest@.len()).filter(wanted),
        decreases rest@.len(),
    {
        let ghost done = whole.len() - rest@.len();
        let product = rest.remove(0);
        assert(product == whole[done]);
        assert(rest@ =~= whole.skip(done + 1));
        proof {
            reveal(Seq::filter);
            assert(whole.take(done + 1).drop_last() =~= whole.take(done));
        }
        if is_zaru_product(product.name.as_str()) {
            kept.push(product);
        }
    }
    assert(whole.take(whole.len() as int) =~= whole);
    kept
}

/// A request for the price list: the products whose prices are listed, and the prices
/// of those that came first; missing where they could not be listed.
pub struct PriceListRequest {
    pub products: Vec<Product>,
    pub prices: Vec<Option<Vec<Price>>>,
}

/// What was learnt for a price list.
pub enum PriceListEvent {
    /// The request came in; and whether there is a payment provider.
    Begun { configured: bool },
    /// The products of the provider were listed.
    ProductsListed(Result<Vec<Product>, String>),
    /// The prices of the product that was asked for were listed.
    PricesListed(Option<Vec<Price>>),
}

/// What is done next for a price list.
pub enum PriceListAction {
    ListProducts,
    ListPrices { product_id: String },
    Answer(Reply),
}

/// The mathematical content of what is done next for a price list.
pub enum PriceListActionView {
    ListProducts,
    ListPrices { product_id: Seq<char> },
    Answer(http::ReplyView),
}

impl View for PriceListAction {
    type V = PriceListActionView;

    open spec fn view(&self) -> PriceListActionView {
        match self {
            PriceListAction::ListProducts => PriceListActionView::ListProducts,
            PriceListAction::ListPrices { product_id } => PriceListActionView::ListPrices {
                product_id: product_id@,
            },
            PriceListAction::Answer(reply) => PriceListActionView::Answer(reply@),
        }
    }
}

/// What is done next once the prices of some of the products are known: the next
/// product's prices are listed, or the list is complete.
pub open spec fn price_list_next(
    products: Seq<Product>,
    prices: Seq<Option<Vec<Price>>>,
) -> PriceListActionView {
    if prices.len() < products.len() {
        PriceListActionView::ListPrices { product_id: products[prices.len() as int].id@ }
    } else {
        PriceListActionView::Answer(prices_answer(products, prices))
    }
}

impl PriceListRequest {
    /// A request of which nothing is known yet.
    pub fn start() -> (r: Self)
        ensures
            r.wf(),
            r.products@.len() == 0,
            r.prices@.len() == 0,
    {
        PriceListRequest { products: Vec::new(), prices: Vec::new() }
    }

    /// No prices are known but those of the products.
    pub open spec fn wf(self) -> bool {
        self.prices@.len() <= self.products@.len()
    }

    /// The products and prices that are known after an event. Prices for which no
    /// product is left are passed over.
    pub open spec fn known_after(self, event: PriceListEvent) -> (
        Seq<Product>,
        Seq<Option<Vec<Price>>>,
    ) {
        match event {
            PriceListEvent::ProductsListed(Ok(all)) => (zaru_products(all@), Seq::empty()),
            PriceListEvent::PricesListed(prices) if self.prices@.len() < self.products@.len() => (
                self.products@,
                self.prices@.push(prices),
            ),
            _ => (self.products@, self.prices@),
        }
    }

    /// What is done next.
    pub open spec fn next(self, event: PriceListEvent) -> PriceListActionView {
        match event {
            PriceListEvent::Begun { configured } => if configured {
                PriceListActionView::ListProducts
            } else {
                PriceListActionView::Answer(billing::not_implemented_answer())
            },
            PriceListEvent::ProductsListed(Err(e)) => PriceListActionView::Answer(
                http::error_reply(502, "Failed to list products from Stripe: "@ + e@),
            ),
            _ => price_list_next(self.known_after(event).0, self.known_after(event).1),
        }
    }

    fn proceed(&self) -> (action: PriceListAction)
        requires
            self.wf(),
        ensures
            action@ == price_list_next(self.products@, self.prices@),
    {
        let n: usize = self.prices.len();
        if n < self.products.len() {
            PriceListAction::ListPrices { product_id: self.products[n].id.clone() }
        } else {
            PriceListAction::Answer(list_prices_reply(&self.products, &self.prices))
        }
    }

    /// What is done next.
    pub fn step(&mut self, event: PriceListEvent) -> (action: PriceListAction)
        requires
            old(self).wf(),
        ensures
            final(self).wf(),
            action@ == old(self).next(event),
            (final(self).products@, final(self).prices@) == old(self).known_after(event),
    {
        match event {
            PriceListEvent::Begun { configured } => if configured {
                PriceListAction::ListProducts
            } else {
                PriceListAction::Answer(billing::not_implemented())
            },
            PriceListEvent::ProductsListed(Err(e)) => PriceListAction::Answer(
                products_failed_reply(e.as_str()),
            ),
            PriceListEvent::ProductsListed(Ok(all)) => {
                self.products = select_products(all);
                self.prices = Vec::new();
                self.proceed()
            },
            PriceListEvent::PricesListed(prices) => {
                if self.prices.len() < self.products.len() {
                    self.prices.push(prices);
                }
                self.proceed()
            },
        }
    }
}

/// Whether a price is the seat price of a tier for an interval.
pub open spec fn is_seat_price(price: Price, tier: Seq<char>, interval: Seq<char>) -> bool {
    &&& text::opt_view(price.kind) == Some("seat"@)
    &&& text::opt_view(price.tier) == Some(tier)
    &&& text::opt_view(price.interval) == Some(interval)
}

/// The first seat price of a tier for an interval.
pub open spec fn seat_price(prices: Seq<Price>, tier: Seq<char>, interval: Seq<char>) -> Option<
    Seq<char>,
>
    decreases prices.len(),
{
    if prices.len() == 0 {
        None
    } else if is_seat_price(prices[0], tier, interval) {
        Some(prices[0].id@)
    } else {
        seat_price(prices.skip(1), tier, interval)
    }
}

fn opt_is(s: &Option<String>, lit: &str) -> (r: bool)
    ensures
        r == (text::opt_view(*s) == Some(lit@)),
{
    match s {
        Some(t) => text::str_eq(t.as_str(), lit),
        None => false,
    }
}

/// The seat price of a tier for an interval, among the active prices.
pub fn find_seat_price_id(prices: &Vec<Price>, tier: &str, interval: &str) -> (r: Option<String>)
    ensures
        text::opt_view(r) == seat_price(prices@, tier@, interval@),
{
    let mut i: usize = 0;
    assert(prices@.skip(0) =~= prices@);
    while i < prices.len()
        invariant
            i <= prices@.len(),
            seat_price(prices@, tier@, interval@) == seat_price(
                prices@.skip(i as int),
                tier@,
                interval@,
            ),
        decreases prices@.len() - i,
    {
        assert(prices@.skip(i as int)[0] == prices@[i as int]);
        assert(prices@.skip(i as int).skip(1) =~= prices@.skip(i + 1));
        let price = &prices[i];
        if opt_is(&price.kind, "seat") && opt_is(&price.tier, tier) && opt_is(
            &price.interval,
            interval,
        ) {
            return Some(price.id.clone());
        }
        i += 1;
    }
    None
}

/// Where a tier stands in the price list.
pub open spec fn tier_rank(tier: Seq<char>) -> int {
    if tier == "pro"@ {
        0
    } else if tier == "business"@ {
        1
    } else {
        2
    }
}

proof fn lemma_no_slot(
    products: Seq<Product>,
    prices: Seq<Option<Vec<Price>>>,
    tier: Seq<char>,
    interval: Seq<char>,
)
    requires
        forall|name: Seq<char>| #[trigger] tiers::seat_tier(name) != Some(tier),
    ensures
        slot(products, prices, tier, true, interval) is None,
    decreases products.len(),
{
    if products.len() > 0 {
        lemma_no_slot(products.drop_last(), prices, tier, interval);
        assert(tiers::seat_tier(products.last().name@) != Some(tier));
    }
}

/// The smallest tier sells no seats, whatever products and prices there are.
pub proof fn law_pro_sells_no_seats(products: Seq<Product>, prices: Seq<Option<Vec<Price>>>)
    ensures
        tier_pricing(products, prices, "pro"@) matches Some(pro) ==> pro.included_seats == 0
            && pro.seat_monthly is None && pro.seat_annual is None,
        forall|name: Seq<char>| #[trigger] tiers::seat_tier(name) != Some("pro"@),
{
    reveal_strlit("pro");
    reveal_strlit("business");
    reveal_strlit("enterprise");
    assert("pro"@[0] == 'p' && "business"@[0] == 'b' && "enterprise"@[0] == 'e');
    lemma_no_slot(products, prices, "pro"@, "month"@);
    lemma_no_slot(products, prices, "pro"@, "year"@);
    lemma_first_base(products, "pro"@);
}

/// The price list names each tier at most once, in the order pro, business,
/// enterprise, and the seats it shows are those that the tier includes.
pub proof fn law_price_list_order(products: Seq<Product>, prices: Seq<Option<Vec<Price>>>)
    ensures
        forall|i: int, j: int|
            0 <= i < j < price_list(products, prices).len() ==> tier_rank(
                (#[trigger] price_list(products, prices)[i]).tier,
            ) < tier_rank((#[trigger] price_list(products, prices)[j]).tier),
        forall|i: int|
            0 <= i < price_list(products, prices).len() ==> (#[trigger] price_list(
                products,
                prices,
            )[i]).included_seats == tiers::seats_included(price_list(products, prices)[i].tier),
{
    lemma_first_base(products, "pro"@);
    lemma_first_base(products, "business"@);
    lemma_first_base(products, "enterprise"@);
    reveal_strlit("pro");
    reveal_strlit("business");
    reveal_strlit("enterprise");
    assert("pro"@[0] == 'p' && "business"@[0] == 'b' && "enterprise"@[0] == 'e');
    let list = price_list(products, prices);
    let p = tier_pricing(products, prices, "pro"@);
    let b = tier_pricing(products, prices, "business"@);
    let e = tier_pricing(products, prices, "enterprise"@);
    assert forall|i: int| 0 <= i < list.len() implies (#[trigger] list[i]).included_seats
        == tiers::seats_included(list[i].tier) by {
        assert(list[i] == p->Some_0 && p is Some || list[i] == b->Some_0 && b is Some || list[i]
            == e->Some_0 && e is Some);
    }
    assert forall|i: int, j: int| 0 <= i < j < list.len() implies tier_rank(
        (#[trigger] list[i]).tier,
    ) < tier_rank((#[trigger] list[j]).tier) by {
        let n = as_seq(p).len();
        let m = as_seq(b).len();
        assert(i < n ==> list[i] == p->Some_0);
        assert(n <= i < n + m ==> list[i] == b->Some_0);
        assert(n <= j < n + m ==> list[j] == b->Some_0);
        assert(n + m <= j ==> list[j] == e->Some_0);
    }
}

proof fn lemma_first_base(products: Seq<Product>, tier: Seq<char>)
    ensures
        first_base(products, tier) matches Some(product) ==> is_base_of(product, tier)
            && tiers::base_tier(product.name@)->Some_0.1 == tiers::seats_included(tier),
    decreases products.len(),
{
    if products.len() > 0 {
        if is_base_of(products[0], tier) {
            tiers::law_product_seats_agree(products[0].name@);
        } else {
            lemma_first_base(products.skip(1), tier);
        }
    }
}

/// How a price is written: each part is found under its own name, as it is.
pub proof fn law_price_info_view_shown_holds_its_parts(
    row: PriceInfoView,
)
    ensures
        row.shown().get("price_id"@) == Some(JsonView::Str(row.price_id)),
        row.shown().get("amount"@) == Some(JsonView::Int(row.amount as int)),
        row.shown().get("currency"@) == Some(JsonView::Str(row.currency)),
{
    broadcast use crate::json::lemma_get_with;

    reveal_strlit("price_id");
    reveal_strlit("amount");
    reveal_strlit("currency");
    assert("price_id"@.len() == 8 && "amount"@.len() == 6 && "currency"@.len() == 8 && "currency"@[0] == 'c' && "price_id"@[0] == 'p');
}

/// How a tier is written: each part is found under its own name, as it is.
pub proof fn law_tier_pricing_view_shown_holds_its_parts(
    row: TierPricingView,
)
    ensures
        row.shown().get("tier"@) == Some(JsonView::Str(row.tier)),
        row.shown().get("product_id"@) == Some(JsonView::Str(row.product_id)),
        row.shown().get("name"@) == Some(JsonView::Str(row.name)),
        row.shown().get("description"@) == Some(JsonView::opt_text(row.description)),
        row.shown().get("included_seats"@) == Some(JsonView::Int(row.included_seats as int)),
        row.shown().get("monthly"@) == Some(shown_price(row.monthly)),
        row.shown().get("annual"@) == Some(shown_price(row.annual)),
        row.shown().get("seat_monthly"@) == Some(shown_price(row.seat_monthly)),
        row.shown().get("seat_annual"@) == Some(shown_price(row.seat_annual)),
{
    broadcast use crate::json::lemma_get_with;

    reveal_strlit("tier");
    reveal_strlit("product_id");
    reveal_strlit("name");
    reveal_strlit("description");
    reveal_strlit("included_seats");
    reveal_strlit("monthly");
    reveal_strlit("annual");
    reveal_strlit("seat_monthly");
    reveal_strlit("seat_annual");
    assert("tier"@.len() == 4 && "product_id"@.len() == 10 && "name"@.len() == 4 && "description"@.len() == 11 && "included_seats"@.len() == 14 && "monthly"@.len() == 7 && "annual"@.len() == 6 && "seat_monthly"@.len() == 12 && "seat_annual"@.len() == 11 && "name"@[0] == 'n' && "tier"@[0] == 't' && "seat_annual"@[0] == 's' && "description"@[0] == 'd');
}

/// The answer to a request for the price list: each part is found under its own name,
/// as it is.
pub proof fn law_prices_answer_holds_its_parts(
    products: Seq<Product>,
    prices: Seq<Option<Vec<Price>>>,
)
    ensures
        prices_answer(products, prices).status == 200,
        prices_answer(products, prices).body is Some,
        prices_answer(products, prices).body->Some_0.get("tiers"@) == Some(JsonView::Arr(price_list(products, prices).map_values(|t: TierPricingView| t.shown()))),
{
    broadcast use crate::json::lemma_get_with;

    reveal_strlit("tiers");
    assert("tiers"@.len() == 5);
}

/// The price of a plan is the one that its product has for the interval, with its own
/// identifier, amount and currency; of several the last one counts.
pub proof fn law_the_last_price_of_an_interval_counts(
    prices: Seq<Price>,
    interval: Seq<char>,
    at: int,
)
    requires
        0 <= at < prices.len(),
        text::opt_view(prices[at].interval) == Some(interval),
        forall|j: int|
            at < j < prices.len() ==> text::opt_view((#[trigger] prices[j]).interval) != Some(
                interval,
            ),
    ensures
        last_priced(prices, interval) matches Some(info) && info.price_id == prices[at].id@
            && info.currency == prices[at].currency@ && (prices[at].unit_amount matches Some(a)
            ==> info.amount == a) && (prices[at].unit_amount is None ==> info.amount == 0),
    decreases prices.len(),
{
    if at < prices.len() - 1 {
        assert(text::opt_view(prices[prices.len() - 1].interval) != Some(interval));
        assert forall|j: int| at < j < prices.drop_last().len() implies text::opt_view(
            (#[trigger] prices.drop_last()[j]).interval,
        ) != Some(interval) by {
            assert(prices.drop_last()[j] == prices[j]);
        }
        law_the_last_price_of_an_interval_counts(prices.drop_last(), interval, at);
    }
}

/// A product without a price for an interval has none for it.
pub proof fn law_no_price_is_made_up(prices: Seq<Price>, interval: Seq<char>)
    requires
        forall|j: int|
            0 <= j < prices.len() ==> text::opt_view((#[trigger] prices[j]).interval) != Some(
                interval,
            ),
    ensures
        last_priced(prices, interval) is None,
    decreases prices.len(),
{
    if prices.len() > 0 {
        assert(text::opt_view(prices[prices.len() - 1].interval) != Some(interval));
        assert forall|j: int| 0 <= j < prices.drop_last().len() implies text::opt_view(
            (#[trigger] prices.drop_last()[j]).interval,
        ) != Some(interval) by {
            assert(prices.drop_last()[j] == prices[j]);
        }
        law_no_price_is_made_up(prices.drop_last(), interval);
    }
}

/// The product of a tier is the first base product of that tier.
pub proof fn law_a_tier_is_sold_by_its_first_product(
    products: Seq<Product>,
    tier: Seq<char>,
    at: int,
)
    requires
        0 <= at <= products.len(),
        forall|j: int| 0 <= j < at ==> !is_base_of(#[trigger] products[j], tier),
        at < products.len() ==> is_base_of(products[at], tier),
    ensures
        first_base(products, tier) == (if at < products.len() {
            Some(products[at])
        } else {
            None
        }),
    decreases products.len(),
{
    if at > 0 {
        assert(!is_base_of(products[0], tier));
        let rest = products.skip(1);
        assert forall|j: int| 0 <= j < at - 1 implies !is_base_of(#[trigger] rest[j], tier) by {
            assert(rest[j] == products[j + 1]);
        }
        law_a_tier_is_sold_by_its_first_product(rest, tier, at - 1);
    }
}

/// A price of a tier is that of the last product that fills its place and has one for the
/// interval; products that could not be priced count for nothing.
pub proof fn law_places_are_filled_by_the_last_priced_product(
    products: Seq<Product>,
    prices: Seq<Option<Vec<Price>>>,
    tier: Seq<char>,
    seat: bool,
    interval: Seq<char>,
    at: int,
)
    requires
        prices.len() >= products.len(),
        0 <= at < products.len(),
        fills(products[at].name@, tier, seat),
        prices[at] is Some,
        last_priced(prices[at]->Some_0@, interval) is Some,
        forall|j: int|
            at < j < products.len() ==> !fills((#[trigger] products[j]).name@, tier, seat)
                || prices[j] is None || last_priced(prices[j]->Some_0@, interval) is None,
    ensures
        slot(products, prices, tier, seat, interval) == last_priced(
            prices[at]->Some_0@,
            interval,
        ),
    decreases products.len(),
{
    if at < products.len() - 1 {
        let n = products.len() - 1;
        assert(!fills(products[n].name@, tier, seat) || prices[n] is None || last_priced(
            prices[n]->Some_0@,
            interval,
        ) is None);
        assert forall|j: int| at < j < products.drop_last().len() implies !fills(
            (#[trigger] products.drop_last()[j]).name@,
            tier,
            seat,
        ) || prices[j] is None || last_priced(prices[j]->Some_0@, interval) is None by {
            assert(products.drop_last()[j] == products[j]);
        }
        law_places_are_filled_by_the_last_priced_product(
            products.drop_last(),
            prices,
            tier,
            seat,
            interval,
            at,
        );
    }
}

/// What is told of a tier is of its own product: identifier, name, description, the seats
/// that it includes, and its prices by month and by year, with and without seats.
pub proof fn law_a_tier_tells_of_its_product(
    products: Seq<Product>,
    prices: Seq<Option<Vec<Price>>>,
    tier: Seq<char>,
    product: Product,
)
    requires
        first_base(products, tier) == Some(product),
    ensures
        tier_pricing(products, prices, tier) matches Some(told) && told.tier == tier
            && told.product_id == product.id@ && told.name == product.name@ && told.description
            == text::opt_view(product.description) && told.monthly == slot(
            products,
            prices,
            tier,
            false,
            "month"@,
        ) && told.annual == slot(products, prices, tier, false, "year"@) && told.seat_monthly
            == slot(products, prices, tier, true, "month"@) && told.seat_annual == slot(
            products,
            prices,
            tier,
            true,
            "year"@,
        ),
{
}

/// The list of prices holds every tier that is sold, and no other.
pub proof fn law_every_tier_that_is_sold_is_listed(
    products: Seq<Product>,
    prices: Seq<Option<Vec<Price>>>,
    told: TierPricingView,
)
    ensures
        price_list(products, prices).contains(told) <==> (tier_pricing(products, prices, "pro"@)
            == Some(told) || tier_pricing(products, prices, "business"@) == Some(told)
            || tier_pricing(products, prices, "enterprise"@) == Some(told)),
{
    let a = as_seq(tier_pricing(products, prices, "pro"@));
    let b = as_seq(tier_pricing(products, prices, "business"@));
    let c = as_seq(tier_pricing(products, prices, "enterprise"@));
    let all = price_list(products, prices);
    assert(all =~= a + b + c);
    if tier_pricing(products, prices, "pro"@) == Some(told) {
        assert(all[0] == told);
    }
    if tier_pricing(products, prices, "business"@) == Some(told) {
        assert(all[a.len() as int] == told);
    }
    if tier_pricing(products, prices, "enterprise"@) == Some(told) {
        assert(all[(a.len() + b.len()) as int] == told);
    }
}

/// The price of a seat is the first one that is marked as a seat of that tier and interval.
pub proof fn law_the_seat_price_is_the_first_that_fits(
    prices: Seq<Price>,
    tier: Seq<char>,
    interval: Seq<char>,
    at: int,
)
    requires
        0 <= at < prices.len(),
        text::opt_view(prices[at].kind) == Some("seat"@),
        text::opt_view(prices[at].tier) == Some(tier),
        text::opt_view(prices[at].interval) == Some(interval),
        forall|j: int|
            0 <= j < at ==> text::opt_view((#[trigger] prices[j]).kind) != Some("seat"@)
                || text::opt_view(prices[j].tier) != Some(tier) || text::opt_view(
                prices[j].interval,
            ) != Some(interval),
    ensures
        seat_price(prices, tier, interval) == Some(prices[at].id@),
    decreases prices.len(),
{
    if at > 0 {
        assert(!is_seat_price(prices[0], tier, interval));
        let rest = prices.skip(1);
        assert forall|j: int| 0 <= j < at - 1 implies text::opt_view((#[trigger] rest[j]).kind)
            != Some("seat"@) || text::opt_view(rest[j].tier) != Some(tier) || text::opt_view(
            rest[j].interval,
        ) != Some(interval) by {
            assert(rest[j] == prices[j + 1]);
        }
        law_the_seat_price_is_the_first_that_fits(rest, tier, interval, at - 1);
    }
}

/// Where no price is marked as a seat of a tier and an interval, there is none.
pub proof fn law_no_seat_price_is_made_up(
    prices: Seq<Price>,
    tier: Seq<char>,
    interval: Seq<char>,
)
    requires
        forall|j: int|
            0 <= j < prices.len() ==> text::opt_view((#[trigger] prices[j]).kind) != Some("seat"@)
                || text::opt_view(prices[j].tier) != Some(tier) || text::opt_view(
                prices[j].interval,
            ) != Some(interval),
    ensures
        seat_price(prices, tier, interval) is None,
    decreases prices.len(),
{
    if prices.len() > 0 {
        assert(!is_seat_price(prices[0], tier, interval));
        let rest = prices.skip(1);
        assert forall|j: int| 0 <= j < rest.len() implies text::opt_view((#[trigger] rest[j]).kind)
            != Some("seat"@) || text::opt_view(rest[j].tier) != Some(tier) || text::opt_view(
            rest[j].interval,
        ) != Some(interval) by {
            assert(rest[j] == prices[j + 1]);
        }
        law_no_seat_price_is_made_up(rest, tier, interval);
    }
}

/// The prices of every product of the house are asked for, one product after the other, and
/// only then is the list answered.
pub proof fn law_every_product_is_priced(
    request: PriceListRequest,
    all: Vec<Product>,
    prices: Option<Vec<Price>>,
    e: String,
)
    requires
        request.wf(),
    ensures
        request.next(PriceListEvent::Begun { configured: true }) is ListProducts,
        request.next(PriceListEvent::Begun { configured: false }) matches PriceListActionView::Answer(
            reply,
        ) && reply.status == 501,
        request.next(PriceListEvent::ProductsListed(Err(e))) matches PriceListActionView::Answer(
            reply,
        ) && reply.status == 502,
        zaru_products(all@).len() > 0 ==> request.next(PriceListEvent::ProductsListed(Ok(all))) == (
        PriceListActionView::ListPrices { product_id: zaru_products(all@)[0].id@ }),
        request.prices@.len() + 1 < request.products@.len() ==> request.next(
            PriceListEvent::PricesListed(prices),
        ) == (PriceListActionView::ListPrices {
            product_id: request.products@[request.prices@.len() as int + 1].id@,
        }),
        request.prices@.len() + 1 == request.products@.len() ==> request.next(
            PriceListEvent::PricesListed(prices),
        ) == PriceListActionView::Answer(
            prices_answer(request.products@, request.prices@.push(prices)),
        ),
{
}

/// The products of the house are those whose name begins with `Zaru`, in their order.
pub proof fn law_products_of_the_house_are_kept(all: Seq<Product>, last: Product)
    ensures
        "Zaru"@.is_prefix_of(last.name@) ==> zaru_products(all.push(last)) == zaru_products(
            all,
        ).push(last),
        !"Zaru"@.is_prefix_of(last.name@) ==> zaru_products(all.push(last)) == zaru_products(all),
        zaru_products(Seq::empty()).len() == 0,
{
    reveal(Seq::filter);
    assert(all.push(last).drop_last() =~= all);
}

/// A product fills the place of a seat where its name says so, and else that of a plan, of
/// the tier that its name tells.
pub proof fn law_products_fill_their_places(name: Seq<char>, tier: Seq<char>)
    ensures
        text::occurs("Extra Seat"@, name) ==> !fills(name, tier, false) && (fills(name, tier, true)
            <==> tiers::seat_tier(name) == Some(tier)),
        !text::occurs("Extra Seat"@, name) ==> !fills(name, tier, true) && (fills(
            name,
            tier,
            false,
        ) <==> (tiers::base_tier(name) matches Some(t) && t.0 == tier)),
{
}

/// A price is told by its identifier, its amount, or nothing where it has none, and its
/// currency; the products and prices that are known grow by what was asked for.
pub proof fn law_what_is_known_grows(
    request: PriceListRequest,
    all: Vec<Product>,
    prices: Option<Vec<Price>>,
    price: Price,
)
    ensures
        price_info(price).price_id == price.id@,
        price_info(price).currency == price.currency@,
        price.unit_amount matches Some(a) ==> price_info(price).amount == a,
        price.unit_amount is None ==> price_info(price).amount == 0,
        request.known_after(PriceListEvent::ProductsListed(Ok(all))).0 == zaru_products(all@),
        request.known_after(PriceListEvent::ProductsListed(Ok(all))).1.len() == 0,
        request.prices@.len() < request.products@.len() ==> request.known_after(
            PriceListEvent::PricesListed(prices),
        ) == (request.products@, request.prices@.push(prices)),
{
}

} // verus!
