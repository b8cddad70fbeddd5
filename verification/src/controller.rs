//! The quoting loop's decisions: which orders to cancel and which to place
//! after each feed event.
//!
//! The loop itself (receiving events, measuring the fair value, talking to
//! the REST API) runs outside; it feeds each event to `Brain::on_event`,
//! asks the strategy when told to `Evaluate`, hands the decision to
//! `Brain::on_decision`, performs the plan, and records each order id that
//! the venue accepted with `Brain::record_order`.

use vstd::prelude::*;
use crate::models::{DesiredOrder, DesiredOrderView, MarketEvent, is_nonpositive_price, orders_view, price_is_nonpositive};
use crate::state::{MarketState, MarketStateView};
use crate::strategy::{Decision, DecisionView, Readings, decision_for, quote_orders};
use crate::text::str_eq;

verus! {

/// The loop's memory between events.
pub struct Brain {
    pub state: MarketState,
    /// Ids of the orders believed to be resting on the book.
    pub live_orders: Vec<String>,
    /// The market of the last quote or kill.
    pub last_quoted_market: Option<i64>,
    /// The (YES, NO) ticks of the last quote sent.
    pub last_quoted_ticks: Option<(i64, i64)>,
}

pub struct BrainView {
    pub state: MarketStateView,
    pub live_orders: Seq<String>,
    pub last_quoted_market: Option<i64>,
    pub last_quoted_ticks: Option<(i64, i64)>,
}

impl View for Brain {
    type V = BrainView;

    open spec fn view(&self) -> BrainView {
        BrainView {
            state: self.state@,
            live_orders: self.live_orders@,
            last_quoted_market: self.last_quoted_market,
            last_quoted_ticks: self.last_quoted_ticks,
        }
    }
}

/// What the loop does after an event.
pub enum Reaction {
    /// Nothing.
    Idle,
    /// Cancel these orders in one batch.
    Cancel(Vec<String>),
    /// Run the strategy for this market and pass the decision to `on_decision`.
    Evaluate(i64),
}

pub enum ReactionView {
    Idle,
    Cancel(Seq<String>),
    Evaluate(i64),
}

impl View for Reaction {
    type V = ReactionView;

    open spec fn view(&self) -> ReactionView {
        match self {
            Reaction::Idle => ReactionView::Idle,
            Reaction::Cancel(ids) => ReactionView::Cancel(ids@),
            Reaction::Evaluate(m) => ReactionView::Evaluate(*m),
        }
    }
}

/// What to send after a decision: first cancel `cancel` (when not empty),
/// then place each order of `place`.
pub struct QuotePlan {
    pub cancel: Vec<String>,
    pub place: Vec<DesiredOrder>,
}

pub struct QuotePlanView {
    pub cancel: Seq<String>,
    pub place: Seq<DesiredOrderView>,
}

impl View for QuotePlan {
    type V = QuotePlanView;

    open spec fn view(&self) -> QuotePlanView {
        QuotePlanView { cancel: self.cancel@, place: orders_view(self.place@) }
    }
}

pub open spec fn empty_plan() -> QuotePlanView {
    QuotePlanView { cancel: Seq::empty(), place: Seq::empty() }
}

/// The (YES, NO) ticks of a quote: the tick of the last order for each
/// outcome, 0 where there is none.
pub open spec fn quoted_ticks(orders: Seq<DesiredOrderView>) -> (i64, i64)
    decreases orders.len(),
{
    if orders.len() == 0 {
        (0, 0)
    } else {
        let before = quoted_ticks(orders.drop_last());
        let last = orders.last();
        (
            if last.outcome == "yes"@ { last.tick } else { before.0 },
            if last.outcome == "no"@ { last.tick } else { before.1 },
        )
    }
}

impl BrainView {
    pub open spec fn initial() -> BrainView {
        BrainView {
            state: MarketStateView::initial(),
            live_orders: Seq::empty(),
            last_quoted_market: None,
            last_quoted_ticks: None,
        }
    }

    /// Pull every live order: the reaction cancels them and none stays live.
    pub open spec fn pull_quotes(self) -> (BrainView, ReactionView) {
        if self.live_orders.len() > 0 {
            (
                BrainView { live_orders: Seq::empty(), last_quoted_ticks: None, ..self },
                ReactionView::Cancel(self.live_orders),
            )
        } else {
            (self, ReactionView::Idle)
        }
    }

    /// The loop's memory and reaction after a feed event.
    pub open spec fn after_event(self, ev: crate::models::MarketEventView) -> (BrainView, ReactionView) {
        let s = self.state.after_event(ev);
        let b = if s.active_market_id != self.state.active_market_id {
            // The old market's orders are already gone.
            BrainView { state: s, live_orders: Seq::empty(), last_quoted_market: None, last_quoted_ticks: None }
        } else {
            BrainView { state: s, ..self }
        };
        if is_nonpositive_price(s.current_btc_price) {
            (b, ReactionView::Idle)
        } else if s.active_market_id is None || s.market_status != "trading"@ {
            b.pull_quotes()
        } else {
            (b, ReactionView::Evaluate(s.active_market_id->0))
        }
    }

    /// The loop's memory and plan after the strategy decided `d` for `market_id`.
    pub open spec fn after_decision(self, market_id: i64, d: DecisionView) -> (BrainView, QuotePlanView) {
        match d {
            DecisionView::Hold => (self, empty_plan()),
            DecisionView::Kill => {
                let b = BrainView { last_quoted_market: Some(market_id), ..self };
                if self.live_orders.len() > 0 {
                    (
                        BrainView { live_orders: Seq::empty(), last_quoted_ticks: None, ..b },
                        QuotePlanView { cancel: self.live_orders, place: Seq::empty() },
                    )
                } else {
                    (b, empty_plan())
                }
            },
            DecisionView::Quote(orders) => {
                let ticks = quoted_ticks(orders);
                if Some(market_id) == self.last_quoted_market && Some(ticks) == self.last_quoted_ticks {
                    // Same market, same ticks: the resting quotes stand.
                    (self, empty_plan())
                } else {
                    (
                        BrainView {
                            live_orders: Seq::empty(),
                            last_quoted_ticks: Some(ticks),
                            last_quoted_market: Some(market_id),
                            ..self
                        },
                        QuotePlanView { cancel: self.live_orders, place: orders },
                    )
                }
            },
        }
    }
}

fn quote_ticks(orders: &Vec<DesiredOrder>) -> (t: (i64, i64))
    ensures
        t == quoted_ticks(orders_view(orders@)),
{
    let mut yes: i64 = 0;
    let mut no: i64 = 0;
    let n = orders.len();
    let mut i: usize = 0;
    while i < n
        invariant
            n == orders@.len(),
            i <= n,
            (yes, no) == quoted_ticks(orders_view(orders@.subrange(0, i as int))),
        decreases n - i,
    {
        let o = &orders[i];
        proof {
            let pre = orders@.subrange(0, i as int + 1);
            assert(orders_view(pre).drop_last() =~= orders_view(orders@.subrange(0, i as int)));
            assert(orders_view(pre).last() == o@);
        }
        if str_eq(o.outcome.as_str(), "yes") {
            yes = o.tick;
        }
        if str_eq(o.outcome.as_str(), "no") {
            no = o.tick;
        }
        i = i + 1;
    }
    assert(orders@.subrange(0, n as int) =~= orders@);
    (yes, no)
}

fn empty_quote_plan() -> (p: QuotePlan)
    ensures
        p@ == empty_plan(),
{
    let p = QuotePlan { cancel: Vec::new(), place: Vec::new() };
    assert(p@.place =~= Seq::<DesiredOrderView>::empty());
    p
}

impl Brain {
    pub fn new() -> (b: Brain)
        ensures
            b@ == BrainView::initial(),
    {
        Brain {
            state: MarketState::new(),
            live_orders: Vec::new(),
            last_quoted_market: None,
            last_quoted_ticks: None,
        }
    }

    fn pull_quotes(&mut self) -> (r: Reaction)
        ensures
            (final(self)@, r@) == old(self)@.pull_quotes(),
    {
        if self.live_orders.len() > 0 {
            let mut ids: Vec<String> = Vec::new();
            std::mem::swap(&mut ids, &mut self.live_orders);
            self.last_quoted_ticks = None;
            Reaction::Cancel(ids)
        } else {
            Reaction::Idle
        }
    }

    /// Applies a feed event and says what to do next.
    pub fn on_event(&mut self, event: MarketEvent) -> (r: Reaction)
        requires
            old(self)@.state.accepts(event@),
        ensures
            (final(self)@, r@) == old(self)@.after_event(event@),
    {
        let prev_market = self.state.active_market_id;
        self.state.process_event(event);
        let curr_market = self.state.active_market_id;
        if curr_market != prev_market {
            self.live_orders = Vec::new();
            self.last_quoted_ticks = None;
            self.last_quoted_market = None;
        }
        if price_is_nonpositive(self.state.current_btc_price) {
            return Reaction::Idle;
        }
        match curr_market {
            None => self.pull_quotes(),
            Some(market_id) => {
                if !str_eq(self.state.market_status.as_str(), "trading") {
                    self.pull_quotes()
                } else {
                    Reaction::Evaluate(market_id)
                }
            },
        }
    }

    /// Turns the strategy's decision for `market_id` into cancels and placements.
    pub fn on_decision(&mut self, market_id: i64, decision: Decision) -> (p: QuotePlan)
        ensures
            (final(self)@, p@) == old(self)@.after_decision(market_id, decision@),
    {
        match decision {
            Decision::Hold => empty_quote_plan(),
            Decision::Kill => {
                self.last_quoted_market = Some(market_id);
                if self.live_orders.len() > 0 {
                    let mut ids: Vec<String> = Vec::new();
                    std::mem::swap(&mut ids, &mut self.live_orders);
                    self.last_quoted_ticks = None;
                    let p = QuotePlan { cancel: ids, place: Vec::new() };
                    assert(p@.place =~= Seq::<DesiredOrderView>::empty());
                    p
                } else {
                    empty_quote_plan()
                }
            },
            Decision::Quote(desired) => {
                let ticks = quote_ticks(&desired);
                let is_new_market = Some(market_id) != self.last_quoted_market;
                let ticks_changed = Some(ticks) != self.last_quoted_ticks;
                if !ticks_changed && !is_new_market {
                    return empty_quote_plan();
                }
                let mut ids: Vec<String> = Vec::new();
                std::mem::swap(&mut ids, &mut self.live_orders);
                self.last_quoted_ticks = Some(ticks);
                self.last_quoted_market = Some(market_id);
                QuotePlan { cancel: ids, place: desired }
            },
        }
    }

    /// Reads the venue's answer to an order: when the request succeeded and
    /// the body names the order's id, that id becomes live and is returned.
    pub fn record_response(&mut self, success: bool, body: &str) -> (r: Option<String>)
        ensures
            r is Some <==> (success && crate::feed::json_order_id(body@) is Some),
            r matches Some(id) ==> {
                &&& crate::feed::json_order_id(body@) == Some(id@)
                &&& final(self)@ == (BrainView { live_orders: old(self)@.live_orders.push(id), ..old(self)@ })
            },
            r is None ==> final(self)@ == old(self)@,
    {
        if !success {
            return None;
        }
        match crate::feed::order_id_of(body) {
            Some(id) => {
                self.live_orders.push(id.clone());
                Some(id)
            },
            None => None,
        }
    }

    /// Records the id of an order that the venue accepted.
    pub fn record_order(&mut self, order_id: String)
        ensures
            final(self)@ == (BrainView { live_orders: old(self)@.live_orders.push(order_id), ..old(self)@ }),
    {
        self.live_orders.push(order_id);
    }
}

// ─── Laws ───────────────────────────────────────────────────────────────────

impl BrainView {
    /// Live orders belong to the market being traded: whenever an order is
    /// live, the last quoted market is the active market.
    pub open spec fn live_orders_in_active_market(self) -> bool {
        self.live_orders.len() > 0 ==> self.last_quoted_market is Some
            && self.last_quoted_market == self.state.active_market_id
    }
}

/// When an event changes the active market, every live order is dropped
/// without a cancel request (the venue has already removed them) and the
/// quoting memory is reset.
pub proof fn law_market_change_drops_live_orders(b: BrainView, ev: crate::models::MarketEventView)
    requires
        b.state.after_event(ev).active_market_id != b.state.active_market_id,
    ensures
        ({
            let (after, reaction) = b.after_event(ev);
            &&& after.live_orders.len() == 0
            &&& after.last_quoted_ticks is None
            &&& after.last_quoted_market is None
            &&& !(reaction is Cancel)
        }),
{
}

/// The loop asks for a decision only about the active market, while it is
/// trading and its price is not known to be non-positive.
pub proof fn law_evaluate_only_active_trading_market(b: BrainView, ev: crate::models::MarketEventView)
    ensures
        ({
            let (after, reaction) = b.after_event(ev);
            reaction matches ReactionView::Evaluate(m) ==> {
                &&& after.state.active_market_id == Some(m)
                &&& after.state.market_status == "trading"@
                &&& !is_nonpositive_price(after.state.current_btc_price)
            }
        }),
{
}

/// Orders are only ever cancelled all together: after an event or a
/// decision, either no cancel is sent and the live orders stay as they were,
/// or exactly the live orders are cancelled and none remains live.
pub proof fn law_cancels_exactly_the_live_orders(
    b: BrainView,
    ev: crate::models::MarketEventView,
    market_id: i64,
    d: DecisionView,
)
    requires
        b.state.after_event(ev).active_market_id == b.state.active_market_id,
    ensures
        ({
            let (after, reaction) = b.after_event(ev);
            match reaction {
                ReactionView::Cancel(ids) => ids == b.live_orders && ids.len() > 0 && after.live_orders.len() == 0,
                _ => after.live_orders == b.live_orders,
            }
        }),
        ({
            let (after, plan) = b.after_decision(market_id, d);
            ||| plan.cancel.len() == 0 && after.live_orders == b.live_orders
            ||| plan.cancel == b.live_orders && after.live_orders.len() == 0
        }),
{
}

/// A kill cancels every live order and leaves none live; it places nothing.
pub proof fn law_kill_pulls_every_quote(b: BrainView, market_id: i64)
    ensures
        ({
            let (after, plan) = b.after_decision(market_id, DecisionView::Kill);
            &&& plan.cancel == b.live_orders
            &&& plan.place.len() == 0
            &&& after.live_orders.len() == 0
            &&& after.last_quoted_market == Some(market_id)
            &&& after.state == b.state
            &&& b.live_orders.len() > 0 ==> after.last_quoted_ticks is None
            &&& b.live_orders.len() == 0 ==> after.last_quoted_ticks == b.last_quoted_ticks
        }),
{
}

/// Quoting the same orders again in the same market sends nothing: once a
/// quote went out (and whatever order ids were recorded for it), repeating
/// the decision neither cancels nor places an order nor changes the memory.
pub proof fn law_repeated_quote_sends_nothing(
    b: BrainView,
    market_id: i64,
    orders: Seq<DesiredOrderView>,
    recorded: Seq<String>,
)
    ensures
        ({
            let (after, plan) = b.after_decision(market_id, DecisionView::Quote(orders));
            let with_ids = BrainView { live_orders: after.live_orders + recorded, ..after };
            with_ids.after_decision(market_id, DecisionView::Quote(orders)) == (with_ids, empty_plan())
        }),
{
}

/// A new quote (new market or new ticks) cancels every live order and places
/// exactly the strategy's orders.
pub proof fn law_new_quote_replaces_live_orders(b: BrainView, market_id: i64, orders: Seq<DesiredOrderView>)
    requires
        Some(market_id) != b.last_quoted_market || Some(quoted_ticks(orders)) != b.last_quoted_ticks,
    ensures
        ({
            let (after, plan) = b.after_decision(market_id, DecisionView::Quote(orders));
            &&& plan.cancel == b.live_orders
            &&& plan.place == orders
            &&& after.live_orders.len() == 0
            &&& after.last_quoted_market == Some(market_id)
            &&& after.last_quoted_ticks == Some(quoted_ticks(orders))
        }),
{
}

/// Over a whole turn of the loop (an event, then the strategy's decision
/// for whatever readings were taken), orders are placed only for the active
/// market, only while it is trading, and only as the strategy's quote: a
/// YES and/or NO bid from `quote_orders`.
pub proof fn law_orders_placed_only_while_trading(b: BrainView, ev: crate::models::MarketEventView, r: Readings)
    ensures
        ({
            let (b1, reaction) = b.after_event(ev);
            reaction matches ReactionView::Evaluate(m) ==> {
                let (b2, plan) = b1.after_decision(m, decision_for(b1.state, r));
                plan.place.len() > 0 ==> {
                    &&& b1.state.active_market_id == Some(m)
                    &&& b1.state.market_status == "trading"@
                    &&& exists|bids: crate::strategy::BidCents| plan.place == #[trigger] quote_orders(bids)
                }
            }
        }),
{
    let (b1, reaction) = b.after_event(ev);
    if let ReactionView::Evaluate(m) = reaction {
        let d = decision_for(b1.state, r);
        if let DecisionView::Quote(orders) = d {
            if orders != quote_orders(r.fair_bids) {
                assert(orders == quote_orders(crate::strategy::placeholder_bids()));
            }
        }
    }
}

/// The memory starts with live orders in the active market only, and every
/// step keeps it so: events, decisions about the active market, and
/// recording an order right after quoting the active market.
pub proof fn law_live_orders_stay_in_active_market(
    b: BrainView,
    ev: crate::models::MarketEventView,
    market_id: i64,
    d: DecisionView,
    order_id: String,
)
    ensures
        BrainView::initial().live_orders_in_active_market(),
        b.live_orders_in_active_market() ==> b.after_event(ev).0.live_orders_in_active_market(),
        b.live_orders_in_active_market() && b.state.active_market_id == Some(market_id)
            ==> b.after_decision(market_id, d).0.live_orders_in_active_market(),
        b.last_quoted_market is Some && b.last_quoted_market == b.state.active_market_id
            ==> (BrainView { live_orders: b.live_orders.push(order_id), ..b }).live_orders_in_active_market(),
{
}

/// When an event leaves the active market as it was and the price is not
/// known to be non-positive, but the status is no longer "trading" (a
/// freeze, or the settlement of any market), every live order is cancelled
/// in one batch and none stays live.
pub proof fn law_leaving_trading_pulls_live_orders(b: BrainView, ev: crate::models::MarketEventView)
    requires
        b.state.after_event(ev).active_market_id == b.state.active_market_id,
        !is_nonpositive_price(b.state.after_event(ev).current_btc_price),
        b.state.after_event(ev).market_status != "trading"@,
        b.live_orders.len() > 0,
    ensures
        ({
            let (after, reaction) = b.after_event(ev);
            &&& reaction == ReactionView::Cancel(b.live_orders)
            &&& after.live_orders.len() == 0
            &&& after.last_quoted_ticks is None
            &&& after.last_quoted_market == b.last_quoted_market
        }),
{
}

/// Settling a market other than the active one, while orders are live and
/// the price is positive, pulls every live order.
pub proof fn law_settling_another_market_pulls_live_orders(
    b: BrainView,
    market_id: i64,
    round_number: Seq<char>,
    strike_raw: Option<u64>,
    freeze_ts: Option<u64>,
    open_ts: Option<u64>,
)
    requires
        b.state.active_market_id != Some(market_id),
        !is_nonpositive_price(b.state.current_btc_price),
        b.live_orders.len() > 0,
    ensures
        ({
            let ev = crate::models::MarketEventView::RoundUpdate {
                market_id,
                round_number,
                status: "settled"@,
                strike_raw,
                freeze_ts,
                open_ts,
            };
            let (after, reaction) = b.after_event(ev);
            &&& reaction == ReactionView::Cancel(b.live_orders)
            &&& after.live_orders.len() == 0
            &&& after.state.market_status == "settled"@
        }),
{
    reveal_strlit("settled");
    reveal_strlit("trading");
    reveal_strlit("frozen");
    assert("settled"@[0] != "trading"@[0]);
    assert("settled"@.len() != "frozen"@.len());
}


/// A hold changes nothing and sends nothing.
pub proof fn law_hold_sends_nothing(b: BrainView, market_id: i64)
    ensures
        b.after_decision(market_id, DecisionView::Hold) == (b, empty_plan()),
        empty_plan().cancel.len() == 0 && empty_plan().place.len() == 0,
{
}

/// The ticks remembered for a quote are its YES and NO ticks: a bid's
/// cents times 100 where that side is quoted, 0 where it is not.
pub proof fn law_quoted_ticks_of_a_quote(bids: crate::strategy::BidCents)
    ensures
        quoted_ticks(quote_orders(bids)) == (
            if 1 <= bids.yes <= 98 { (bids.yes * 100) as i64 } else { 0i64 },
            if 1 <= bids.no <= 98 { (bids.no * 100) as i64 } else { 0i64 },
        ),
{
    let q = quote_orders(bids);
    reveal_strlit("yes");
    reveal_strlit("no");
    assert("yes"@.len() != "no"@.len());
    crate::strategy::law_quote_orders_rest_at_the_bids(bids);
    reveal_with_fuel(quoted_ticks, 3);
    if q.len() == 2 {
        assert(q.drop_last().drop_last() =~= Seq::<DesiredOrderView>::empty());
        assert(q.drop_last() =~= seq![q[0]]);
        assert(q.drop_last().last() == q[0]);
    } else if q.len() == 1 {
        assert(q.drop_last() =~= Seq::<DesiredOrderView>::empty());
    }
}

/// An event after which the price is not known to be non-positive and the
/// active market is trading asks the strategy about that market; an event
/// after which the price is known to be non-positive does nothing.
pub proof fn law_event_reactions(b: BrainView, ev: crate::models::MarketEventView, m: i64)
    ensures
        (b.state.after_event(ev).active_market_id == Some(m)
            && b.state.after_event(ev).market_status == "trading"@
            && !is_nonpositive_price(b.state.after_event(ev).current_btc_price))
            ==> b.after_event(ev).1 == ReactionView::Evaluate(m),
        is_nonpositive_price(b.state.after_event(ev).current_btc_price) ==> b.after_event(ev).1 == ReactionView::Idle,
        b.after_event(ev).0.state == b.state.after_event(ev),
{
}

} // verus!
