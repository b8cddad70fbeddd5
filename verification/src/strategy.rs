//! The quoting strategy: when to pull quotes, when to hold, and which two
//! bids to rest around the fair value.
//!
//! The fair value itself (a driftless lognormal probability that BTC ends
//! above the strike) and the time left in the round are real-valued; they are
//! measured outside the library and reach `decide` as `Readings`: whether the
//! jump guard fired, whether the round is inside its final TWAP window, and
//! the two whole-cent bids that the fair value gives.

use vstd::prelude::*;
use crate::models::{
    DesiredOrder, DesiredOrderView, is_nonpositive_price, is_positive_price, orders_view,
    price_is_nonpositive, price_is_positive,
};
use crate::state::{MarketState, MarketStateView};
use crate::text::str_eq;

verus! {

/// Half-spread in cents around fair value.
pub const SPREAD_CENTS: i64 = 2;

/// Contracts per quote side.
pub const ORDER_QTY: i64 = 1;

/// The fair value quoted around while the round's freeze time or strike is
/// not known yet: 50 cents.
pub const PLACEHOLDER_FAIR_CENTS: i64 = 50;

/// Lowest and highest whole-cent bid that is sent.
pub const MIN_BID_CENTS: i64 = 1;
pub const MAX_BID_CENTS: i64 = 98;

/// Whole-cent bids derived from a fair value `f` (in cents):
/// `yes = floor(f - spread)` and `no = floor(100 - f - spread)`.
#[derive(Clone, Copy, Debug)]
pub struct BidCents {
    pub yes: i64,
    pub no: i64,
}

/// What the pricing model measured for the current state.
#[derive(Clone, Copy, Debug)]
pub struct Readings {
    /// The price moved by more than the jump threshold since the previous
    /// oracle tick (only consulted when a previous price is known).
    pub jump: bool,
    /// The time left before the freeze is within the TWAP window.
    pub in_twap_window: bool,
    /// The bids that the fair value gives.
    pub fair_bids: BidCents,
}

/// What the strategy wants done.
pub enum Decision {
    /// Rest exactly these orders.
    Quote(Vec<DesiredOrder>),
    /// Pull every quote.
    Kill,
    /// Leave things as they are.
    Hold,
}

pub enum DecisionView {
    Quote(Seq<DesiredOrderView>),
    Kill,
    Hold,
}

impl View for Decision {
    type V = DecisionView;

    open spec fn view(&self) -> DecisionView {
        match self {
            Decision::Quote(orders) => DecisionView::Quote(orders_view(orders@)),
            Decision::Kill => DecisionView::Kill,
            Decision::Hold => DecisionView::Hold,
        }
    }
}

/// The API's price tick for a whole-cent price: cents × 100, the cents
/// clamped to 1..=99.
pub open spec fn tick_of_cents(cents: int) -> int {
    if cents < 1 {
        100
    } else if cents > 99 {
        9900
    } else {
        cents * 100
    }
}

pub fn cents_to_tick(cents: i64) -> (tick: i64)
    ensures
        tick == tick_of_cents(cents as int),
{
    let c = if cents < 1 {
        1
    } else if cents > 99 {
        99
    } else {
        cents
    };
    c * 100
}

pub open spec fn bid_in_range(cents: i64) -> bool {
    MIN_BID_CENTS <= cents <= MAX_BID_CENTS
}

pub open spec fn buy_order(outcome: Seq<char>, cents: i64) -> DesiredOrderView {
    DesiredOrderView {
        side: "buy"@,
        outcome,
        tick: tick_of_cents(cents as int) as i64,
        qty: ORDER_QTY,
    }
}

/// The YES bid, then the NO bid, each only when it lies in 1..=98 cents.
pub open spec fn quote_orders(bids: BidCents) -> Seq<DesiredOrderView> {
    (if bid_in_range(bids.yes) {
        seq![buy_order("yes"@, bids.yes)]
    } else {
        Seq::empty()
    }) + (if bid_in_range(bids.no) {
        seq![buy_order("no"@, bids.no)]
    } else {
        Seq::empty()
    })
}

/// The bids around the placeholder fair value of 50 cents.
pub open spec fn placeholder_bids() -> BidCents {
    BidCents {
        yes: (PLACEHOLDER_FAIR_CENTS - SPREAD_CENTS) as i64,
        no: (100 - PLACEHOLDER_FAIR_CENTS - SPREAD_CENTS) as i64,
    }
}

pub fn placeholder_quote_bids() -> (b: BidCents)
    ensures
        b == placeholder_bids(),
{
    BidCents {
        yes: PLACEHOLDER_FAIR_CENTS - SPREAD_CENTS,
        no: 100 - PLACEHOLDER_FAIR_CENTS - SPREAD_CENTS,
    }
}

fn buy(outcome: &str, cents: i64) -> (o: DesiredOrder)
    requires
        bid_in_range(cents),
    ensures
        o@ == buy_order(outcome@, cents),
{
    proof { reveal_strlit("buy"); }
    DesiredOrder {
        side: "buy".to_owned(),
        outcome: outcome.to_owned(),
        tick: cents_to_tick(cents),
        qty: ORDER_QTY,
    }
}

/// Dual limit bids around the fair value: buy YES at the YES bid and buy NO
/// at the NO bid (the latter is offering to sell YES at fair + spread).
pub fn quote_around(bids: BidCents) -> (d: Decision)
    ensures
        d@ == DecisionView::Quote(quote_orders(bids)),
{
    let mut orders: Vec<DesiredOrder> = Vec::new();
    if MIN_BID_CENTS <= bids.yes && bids.yes <= MAX_BID_CENTS {
        orders.push(buy("yes", bids.yes));
    }
    if MIN_BID_CENTS <= bids.no && bids.no <= MAX_BID_CENTS {
        orders.push(buy("no", bids.no));
    }
    assert(orders_view(orders@) =~= quote_orders(bids));
    Decision::Quote(orders)
}

/// The decision for a state and the readings taken for it.
pub open spec fn decision_for(s: MarketStateView, r: Readings) -> DecisionView {
    if s.market_status != "trading"@ {
        DecisionView::Kill
    } else if is_nonpositive_price(s.current_btc_price) {
        DecisionView::Hold
    } else if !(s.freeze_ts matches Some(f) && f > 0) {
        DecisionView::Quote(quote_orders(placeholder_bids()))
    } else if s.previous_btc_price is Some && r.jump {
        DecisionView::Kill
    } else if r.in_twap_window {
        DecisionView::Kill
    } else if !(s.strike_raw matches Some(k) && is_positive_price(k)) {
        DecisionView::Quote(quote_orders(placeholder_bids()))
    } else {
        DecisionView::Quote(quote_orders(r.fair_bids))
    }
}

/// Only trade while the market is open; hold without a positive oracle
/// price; quote the 50-cent placeholder until the freeze time is known; pull
/// quotes on a price jump or inside the TWAP window; quote the placeholder
/// until the strike is known; otherwise quote around the fair value.
pub fn decide(state: &MarketState, readings: &Readings) -> (d: Decision)
    ensures
        d@ == decision_for(state@, *readings),
{
    if !str_eq(state.market_status.as_str(), "trading") {
        return Decision::Kill;
    }
    if price_is_nonpositive(state.current_btc_price) {
        return Decision::Hold;
    }
    match state.freeze_ts {
        Some(f) if f > 0 => {},
        _ => {
            return quote_around(placeholder_quote_bids());
        },
    }
    if state.previous_btc_price.is_some() && readings.jump {
        return Decision::Kill;
    }
    if readings.in_twap_window {
        return Decision::Kill;
    }
    match state.strike_raw {
        Some(s) if price_is_positive(s) => {},
        _ => {
            return quote_around(placeholder_quote_bids());
        },
    }
    quote_around(readings.fair_bids)
}

// ─── Laws ───────────────────────────────────────────────────────────────────

/// Every quote is at most one YES bid followed by at most one NO bid, each a
/// buy of one contract at a tick that is a whole number of cents between 1
/// and 98 (100..=9800 in ticks).
pub proof fn law_quotes_are_well_formed(bids: BidCents)
    ensures
        ({
            let q = quote_orders(bids);
            &&& q.len() <= 2
            &&& forall|i: int| 0 <= i < q.len() ==> {
                &&& (#[trigger] q[i]).side == "buy"@
                &&& q[i].qty == 1
                &&& 100 <= q[i].tick <= 9800
                &&& q[i].tick % 100 == 0
                &&& (q[i].outcome == "yes"@ || q[i].outcome == "no"@)
            }
            &&& q.len() == 2 ==> q[0].outcome == "yes"@ && q[1].outcome == "no"@
            &&& (exists|i: int| 0 <= i < q.len() && #[trigger] q[i].outcome == "yes"@) <==> bid_in_range(bids.yes)
        }),
{
    let q = quote_orders(bids);
    reveal_strlit("yes");
    reveal_strlit("no");
    assert("yes"@.len() != "no"@.len());
    if bid_in_range(bids.yes) {
        assert(q[0].outcome == "yes"@);
    }
}

/// The strategy never quotes unless the market is trading and the oracle
/// price is not known to be non-positive; outside trading it always pulls
/// its quotes.
pub proof fn law_quotes_only_while_trading(s: MarketStateView, r: Readings)
    ensures
        decision_for(s, r) is Quote ==> s.market_status == "trading"@ && !is_nonpositive_price(s.current_btc_price),
        s.market_status != "trading"@ ==> decision_for(s, r) is Kill,
{
}

/// Inside the TWAP window, or after a price jump, a trading market with a
/// known freeze time and a positive price is never quoted.
pub proof fn law_no_quotes_in_twap_window_or_after_jump(s: MarketStateView, r: Readings)
    requires
        s.market_status == "trading"@,
        !is_nonpositive_price(s.current_btc_price),
        s.freeze_ts matches Some(f) && f > 0,
        r.in_twap_window || (r.jump && s.previous_btc_price is Some),
    ensures
        decision_for(s, r) is Kill,
{
}

/// The bids rest exactly where the whole-cent bids say: one buy of one
/// contract per side whose bid lies in 1..=98 cents, at that many cents
/// times 100 in ticks, the YES bid first.
pub proof fn law_quote_orders_rest_at_the_bids(bids: BidCents)
    ensures
        ({
            let q = quote_orders(bids);
            let yes_in = 1 <= bids.yes <= 98;
            let no_in = 1 <= bids.no <= 98;
            &&& q.len() == (if yes_in { 1int } else { 0int }) + (if no_in { 1int } else { 0int })
            &&& yes_in ==> q[0] == DesiredOrderView {
                side: "buy"@,
                outcome: "yes"@,
                tick: (bids.yes * 100) as i64,
                qty: 1,
            }
            &&& no_in ==> q[q.len() - 1] == DesiredOrderView {
                side: "buy"@,
                outcome: "no"@,
                tick: (bids.no * 100) as i64,
                qty: 1,
            }
        }),
{
}

/// Once the round is fully known (a trading market, a price not known to be
/// non-positive, a positive freeze time and a positive strike) and neither
/// the jump guard nor the TWAP window pulls the quotes, the strategy quotes
/// exactly around the fair-value bids, whatever the price is relative to
/// the strike.
pub proof fn law_known_round_quotes_around_fair_value(s: MarketStateView, r: Readings, f: u64, k: u64)
    requires
        s.market_status == "trading"@,
        !is_nonpositive_price(s.current_btc_price),
        s.freeze_ts == Some(f),
        f > 0,
        s.strike_raw == Some(k),
        is_positive_price(k),
        !(r.jump && s.previous_btc_price is Some),
        !r.in_twap_window,
    ensures
        decision_for(s, r) == DecisionView::Quote(quote_orders(r.fair_bids)),
{
}


/// A whole-cent price becomes ticks of 10^-4 dollars: cents times 100,
/// the cents first brought into 1..=99.
pub proof fn law_ticks_of_cents(cents: int)
    ensures
        1 <= cents <= 99 ==> tick_of_cents(cents) == cents * 100,
        cents < 1 ==> tick_of_cents(cents) == 100,
        cents > 99 ==> tick_of_cents(cents) == 9900,
{
}

/// Without a positive oracle price the strategy holds; until the freeze
/// time or the strike is known it quotes the 50-cent placeholder, a YES and
/// a NO bid at 48 cents each.
pub proof fn law_hold_and_placeholder(s: MarketStateView, r: Readings)
    requires
        s.market_status == "trading"@,
    ensures
        is_nonpositive_price(s.current_btc_price) ==> decision_for(s, r) is Hold,
        (!is_nonpositive_price(s.current_btc_price) && !(s.freeze_ts is Some && s.freeze_ts->0 > 0))
            ==> decision_for(s, r) == DecisionView::Quote(quote_orders(BidCents { yes: 48, no: 48 })),
        (!is_nonpositive_price(s.current_btc_price) && s.freeze_ts is Some && s.freeze_ts->0 > 0
            && !(r.jump && s.previous_btc_price is Some) && !r.in_twap_window
            && !(s.strike_raw is Some && is_positive_price(s.strike_raw->0)))
            ==> decision_for(s, r) == DecisionView::Quote(quote_orders(BidCents { yes: 48, no: 48 })),
{
}

} // verus!
