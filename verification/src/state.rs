//! The market state machine fed by oracle and round events.

use vstd::prelude::*;
use crate::models::{MarketEvent, MarketEventView, is_positive_price, price_is_positive};
use crate::text::str_eq;

verus! {

/// How long after a round opens it freezes, in nanoseconds, where the venue
/// does not say.
pub const FREEZE_AFTER_OPEN_NS: u64 = 60_000_000_000;

/// All runtime state needed by the strategy engine.
#[derive(Debug)]
pub struct MarketState {
    pub active_market_id: Option<i64>,
    pub active_round_number: Option<String>,
    /// "trading" | "frozen" | "settled" (empty before the first round event)
    pub market_status: String,
    /// Oracle price (bits of the raw 10^-8 USD value, same units as the strike).
    pub current_btc_price: u64,
    pub previous_btc_price: Option<u64>,
    /// Strike (bits of the raw 10^-8 USD value).
    pub strike_raw: Option<u64>,
    /// Nanoseconds since the epoch.
    pub open_ts: Option<u64>,
    /// Nanoseconds since the epoch (open_ts + 60 s if the venue does not send it).
    pub freeze_ts: Option<u64>,
}

pub struct MarketStateView {
    pub active_market_id: Option<i64>,
    pub active_round_number: Option<Seq<char>>,
    pub market_status: Seq<char>,
    pub current_btc_price: u64,
    pub previous_btc_price: Option<u64>,
    pub strike_raw: Option<u64>,
    pub open_ts: Option<u64>,
    pub freeze_ts: Option<u64>,
}

impl View for MarketState {
    type V = MarketStateView;

    open spec fn view(&self) -> MarketStateView {
        MarketStateView {
            active_market_id: self.active_market_id,
            active_round_number: match self.active_round_number {
                Some(r) => Some(r@),
                None => None,
            },
            market_status: self.market_status@,
            current_btc_price: self.current_btc_price,
            previous_btc_price: self.previous_btc_price,
            strike_raw: self.strike_raw,
            open_ts: self.open_ts,
            freeze_ts: self.freeze_ts,
        }
    }
}

/// `new` if `new` is given, `old` otherwise.
pub open spec fn replace_if_some<T>(old: Option<T>, new: Option<T>) -> Option<T> {
    if new is Some {
        new
    } else {
        old
    }
}

impl MarketStateView {
    /// The state before any event.
    pub open spec fn initial() -> MarketStateView {
        MarketStateView {
            active_market_id: None,
            active_round_number: None,
            market_status: Seq::empty(),
            current_btc_price: 0,
            previous_btc_price: None,
            strike_raw: None,
            open_ts: None,
            freeze_ts: None,
        }
    }

    /// Whether the state can take `ev` without the derived freeze time
    /// (open time + 60 s) overflowing 64 bits.
    pub open spec fn accepts(self, ev: MarketEventView) -> bool {
        match ev {
            MarketEventView::OracleUpdate { .. } => true,
            MarketEventView::RoundUpdate { status, freeze_ts, open_ts, .. } => {
                (status == "trading"@ && freeze_ts is None)
                    ==> match replace_if_some(self.open_ts, open_ts) {
                    Some(o) => o <= u64::MAX - FREEZE_AFTER_OPEN_NS,
                    None => true,
                }
            },
        }
    }

    /// The state after `ev`.
    pub open spec fn after_event(self, ev: MarketEventView) -> MarketStateView {
        match ev {
            MarketEventView::OracleUpdate { price } => MarketStateView {
                previous_btc_price: if is_positive_price(self.current_btc_price) {
                    Some(self.current_btc_price)
                } else {
                    self.previous_btc_price
                },
                current_btc_price: price,
                ..self
            },
            MarketEventView::RoundUpdate {
                market_id,
                round_number,
                status,
                strike_raw,
                freeze_ts,
                open_ts,
            } => {
                if status == "trading"@ {
                    let open = replace_if_some(self.open_ts, open_ts);
                    MarketStateView {
                        active_market_id: Some(market_id),
                        active_round_number: Some(round_number),
                        market_status: "trading"@,
                        strike_raw: replace_if_some(self.strike_raw, strike_raw),
                        open_ts: open,
                        freeze_ts: if freeze_ts is Some {
                            freeze_ts
                        } else if open is Some {
                            Some((open->0 + FREEZE_AFTER_OPEN_NS) as u64)
                        } else {
                            self.freeze_ts
                        },
                        ..self
                    }
                } else if status == "frozen"@ {
                    MarketStateView { market_status: "frozen"@, ..self }
                } else if status == "settled"@ {
                    if self.active_market_id == Some(market_id) {
                        MarketStateView {
                            active_market_id: None,
                            active_round_number: None,
                            strike_raw: None,
                            freeze_ts: None,
                            open_ts: None,
                            market_status: "settled"@,
                            ..self
                        }
                    } else {
                        MarketStateView { market_status: "settled"@, ..self }
                    }
                } else {
                    self
                }
            },
        }
    }
}

impl MarketState {
    pub fn new() -> (s: Self)
        ensures
            s@ == MarketStateView::initial(),
    {
        MarketState {
            active_market_id: None,
            active_round_number: None,
            market_status: String::new(),
            current_btc_price: 0,
            previous_btc_price: None,
            strike_raw: None,
            open_ts: None,
            freeze_ts: None,
        }
    }

    /// Whether the state can take `event` (see `MarketStateView::accepts`).
    pub fn accepts_event(&self, event: &MarketEvent) -> (r: bool)
        ensures
            r == self@.accepts(event@),
    {
        match event {
            MarketEvent::OracleUpdate { .. } => true,
            MarketEvent::RoundUpdate { status, freeze_ts, open_ts, .. } => {
                if str_eq(status.as_str(), "trading") && freeze_ts.is_none() {
                    let open = match open_ts {
                        Some(o) => Some(*o),
                        None => self.open_ts,
                    };
                    match open {
                        Some(o) => o <= u64::MAX - FREEZE_AFTER_OPEN_NS,
                        None => true,
                    }
                } else {
                    true
                }
            },
        }
    }

    /// Applies one event from the feeds.
    pub fn process_event(&mut self, event: MarketEvent)
        requires
            old(self)@.accepts(event@),
        ensures
            final(self)@ == old(self)@.after_event(event@),
    {
        match event {
            MarketEvent::OracleUpdate { price } => {
                if price_is_positive(self.current_btc_price) {
                    self.previous_btc_price = Some(self.current_btc_price);
                }
                self.current_btc_price = price;
            },
            MarketEvent::RoundUpdate {
                market_id,
                round_number,
                status,
                strike_raw,
                freeze_ts,
                open_ts,
            } => {
                if str_eq(status.as_str(), "trading") {
                    self.active_market_id = Some(market_id);
                    self.active_round_number = Some(round_number);
                    self.market_status = "trading".to_owned();
                    if let Some(s) = strike_raw {
                        self.strike_raw = Some(s);
                    }
                    if let Some(o) = open_ts {
                        self.open_ts = Some(o);
                    }
                    if let Some(f) = freeze_ts {
                        self.freeze_ts = Some(f);
                    } else if let Some(o) = self.open_ts {
                        // Derive freeze_ts: open_ts + 60 seconds (in nanoseconds)
                        self.freeze_ts = Some(o + FREEZE_AFTER_OPEN_NS);
                    }
                } else if str_eq(status.as_str(), "frozen") {
                    self.market_status = "frozen".to_owned();
                } else if str_eq(status.as_str(), "settled") {
                    if self.active_market_id == Some(market_id) {
                        self.active_market_id = None;
                        self.active_round_number = None;
                        self.strike_raw = None;
                        self.freeze_ts = None;
                        self.open_ts = None;
                    }
                    self.market_status = "settled".to_owned();
                }
            },
        }
    }
}

impl Default for MarketState {
    fn default() -> (s: Self)
        ensures
            s@ == MarketStateView::initial(),
    {
        MarketState::new()
    }
}

// ─── Laws ───────────────────────────────────────────────────────────────────

impl MarketStateView {
    /// The state's internal consistency: a market is active exactly when a
    /// round number is known; without an active market no strike, open or
    /// freeze time is kept; a known open time comes with a freeze time; and
    /// the status is empty (before any round event) or one of "trading",
    /// "frozen", "settled".
    pub open spec fn well_formed(self) -> bool {
        &&& self.active_market_id is Some == self.active_round_number is Some
        &&& self.active_market_id is None ==> {
            &&& self.strike_raw is None
            &&& self.open_ts is None
            &&& self.freeze_ts is None
        }
        &&& self.open_ts is Some ==> self.freeze_ts is Some
        &&& {
            ||| self.market_status.len() == 0
            ||| self.market_status == "trading"@
            ||| self.market_status == "frozen"@
            ||| self.market_status == "settled"@
        }
    }

    /// The state after the events of `events`, in order.
    pub open spec fn after_events(self, events: Seq<MarketEventView>) -> MarketStateView
        decreases events.len(),
    {
        if events.len() == 0 {
            self
        } else {
            self.after_event(events[0]).after_events(events.drop_first())
        }
    }
}

/// The new state is consistent, and every event keeps the state consistent,
/// so the state is consistent after any run of events from the new state.
pub proof fn law_state_stays_well_formed(s: MarketStateView, ev: MarketEventView, events: Seq<MarketEventView>)
    ensures
        MarketStateView::initial().well_formed(),
        s.well_formed() ==> s.after_event(ev).well_formed(),
        s.well_formed() ==> s.after_events(events).well_formed(),
        MarketStateView::initial().after_events(events).well_formed(),
    decreases events.len(),
{
    if events.len() > 0 {
        law_state_stays_well_formed(s, events[0], Seq::empty());
        law_state_stays_well_formed(s.after_event(events[0]), ev, events.drop_first());
        law_state_stays_well_formed(MarketStateView::initial(), events[0], Seq::empty());
        law_state_stays_well_formed(
            MarketStateView::initial().after_event(events[0]),
            ev,
            events.drop_first(),
        );
    }
}

/// An oracle update leaves the round untouched: market, round number,
/// status, strike, open and freeze times stay as they were.
pub proof fn law_oracle_update_keeps_round(s: MarketStateView, price: u64)
    ensures
        ({
            let t = s.after_event(MarketEventView::OracleUpdate { price });
            &&& t.active_market_id == s.active_market_id
            &&& t.active_round_number == s.active_round_number
            &&& t.market_status == s.market_status
            &&& t.strike_raw == s.strike_raw
            &&& t.open_ts == s.open_ts
            &&& t.freeze_ts == s.freeze_ts
        }),
{
}

/// A round event never touches the oracle prices.
pub proof fn law_round_update_keeps_prices(
    s: MarketStateView,
    market_id: i64,
    round_number: Seq<char>,
    status: Seq<char>,
    strike_raw: Option<u64>,
    freeze_ts: Option<u64>,
    open_ts: Option<u64>,
)
    ensures
        ({
            let t = s.after_event(
                MarketEventView::RoundUpdate { market_id, round_number, status, strike_raw, freeze_ts, open_ts },
            );
            &&& t.current_btc_price == s.current_btc_price
            &&& t.previous_btc_price == s.previous_btc_price
        }),
{
}

/// After two oracle updates `p` then `q`, the current price is `q` and the
/// previous price is `p` when `p` is positive (a non-positive tick does not
/// displace the last positive price).
pub proof fn law_previous_price_is_last_positive(s: MarketStateView, p: u64, q: u64)
    ensures
        ({
            let t = s.after_event(MarketEventView::OracleUpdate { price: p })
                .after_event(MarketEventView::OracleUpdate { price: q });
            &&& t.current_btc_price == q
            &&& is_positive_price(p) ==> t.previous_btc_price == Some(p)
            &&& !is_positive_price(p) ==> t.previous_btc_price == s.after_event(
                MarketEventView::OracleUpdate { price: p },
            ).previous_btc_price
        }),
{
}

/// Settling the active market clears the round: no active market, round
/// number, strike, open or freeze time remain, and the status is "settled".
/// Settling another market only sets the status.
pub proof fn law_settle(
    s: MarketStateView,
    market_id: i64,
    round_number: Seq<char>,
    strike_raw: Option<u64>,
    freeze_ts: Option<u64>,
    open_ts: Option<u64>,
)
    ensures
        ({
            let t = s.after_event(
                MarketEventView::RoundUpdate { market_id, round_number, status: "settled"@, strike_raw, freeze_ts, open_ts },
            );
            &&& t.market_status == "settled"@
            &&& s.active_market_id == Some(market_id) ==> {
                &&& t.active_market_id is None
                &&& t.active_round_number is None
                &&& t.strike_raw is None
                &&& t.open_ts is None
                &&& t.freeze_ts is None
            }
            &&& s.active_market_id != Some(market_id) ==> t == MarketStateView { market_status: "settled"@, ..s }
        }),
{
    reveal_strlit("settled");
    reveal_strlit("trading");
    reveal_strlit("frozen");
    assert("settled"@[0] != "trading"@[0]);
    assert("settled"@.len() != "frozen"@.len());
}

/// When a trading round is announced without a freeze time, the round
/// freezes exactly 60 s after its open time.
pub proof fn law_derived_freeze_is_one_minute_after_open(
    s: MarketStateView,
    market_id: i64,
    round_number: Seq<char>,
    strike_raw: Option<u64>,
    open_ts: u64,
)
    requires
        open_ts <= u64::MAX - FREEZE_AFTER_OPEN_NS,
    ensures
        ({
            let ev = MarketEventView::RoundUpdate {
                market_id,
                round_number,
                status: "trading"@,
                strike_raw,
                freeze_ts: None,
                open_ts: Some(open_ts),
            };
            &&& s.accepts(ev)
            &&& s.after_event(ev).freeze_ts == Some((open_ts + 60_000_000_000) as u64)
            &&& s.after_event(ev).active_market_id == Some(market_id)
            &&& s.after_event(ev).market_status == "trading"@
        }),
{
}

/// A round event whose status is none of "trading", "frozen" and "settled"
/// (such as "creating") leaves the state as it was.
pub proof fn law_other_status_changes_nothing(
    s: MarketStateView,
    market_id: i64,
    round_number: Seq<char>,
    status: Seq<char>,
    strike_raw: Option<u64>,
    freeze_ts: Option<u64>,
    open_ts: Option<u64>,
)
    requires
        status != "trading"@,
        status != "frozen"@,
        status != "settled"@,
    ensures
        s.after_event(
            MarketEventView::RoundUpdate { market_id, round_number, status, strike_raw, freeze_ts, open_ts },
        ) == s,
{
}


/// A trading round event makes its market the active one with its round
/// number and status "trading"; a strike or open time it gives replaces the
/// old one and one it leaves out keeps the old one; the freeze time is the
/// one it gives, else the (new) open time plus 60 s, else the old one. The
/// prices stay as they were.
pub proof fn law_trading_round_update(
    s: MarketStateView,
    market_id: i64,
    round_number: Seq<char>,
    strike_raw: Option<u64>,
    freeze_ts: Option<u64>,
    open_ts: Option<u64>,
)
    ensures
        ({
            let t = s.after_event(
                MarketEventView::RoundUpdate { market_id, round_number, status: "trading"@, strike_raw, freeze_ts, open_ts },
            );
            let open = if open_ts is Some { open_ts } else { s.open_ts };
            &&& t.active_market_id == Some(market_id)
            &&& t.active_round_number == Some(round_number)
            &&& t.market_status == "trading"@
            &&& t.strike_raw == if strike_raw is Some { strike_raw } else { s.strike_raw }
            &&& t.open_ts == open
            &&& freeze_ts is Some ==> t.freeze_ts == freeze_ts
            &&& (freeze_ts is None && open is Some) ==> t.freeze_ts == Some((open->0 + 60_000_000_000) as u64)
            &&& (freeze_ts is None && open is None) ==> t.freeze_ts == s.freeze_ts
            &&& t.current_btc_price == s.current_btc_price
            &&& t.previous_btc_price == s.previous_btc_price
        }),
{
}

/// A freeze only sets the status to "frozen"; everything else stays.
pub proof fn law_freeze_only_sets_status(
    s: MarketStateView,
    market_id: i64,
    round_number: Seq<char>,
    strike_raw: Option<u64>,
    freeze_ts: Option<u64>,
    open_ts: Option<u64>,
)
    ensures
        s.after_event(
            MarketEventView::RoundUpdate { market_id, round_number, status: "frozen"@, strike_raw, freeze_ts, open_ts },
        ) == (MarketStateView { market_status: "frozen"@, ..s }),
{
    reveal_strlit("frozen");
    reveal_strlit("trading");
    assert("frozen"@[0] != "trading"@[0]);
}

} // verus!
