//! The values that flow between the feed, the state machine and the strategy.
//!
//! Prices are carried exactly as the feed delivers them: the bit pattern of
//! an IEEE-754 binary64 number in raw 10^-8 USD units. The library only ever
//! compares a price with zero, which it does on the bit pattern.

use vstd::prelude::*;

verus! {

/// The largest bit pattern of a positive binary64 value: +infinity.
pub const POSITIVE_INFINITY_BITS: u64 = 0x7ff0_0000_0000_0000;

/// The bit pattern of -0.0, the smallest pattern with the sign bit set.
pub const NEGATIVE_ZERO_BITS: u64 = 0x8000_0000_0000_0000;

/// The bit pattern of -infinity.
pub const NEGATIVE_INFINITY_BITS: u64 = 0xfff0_0000_0000_0000;

/// `x > 0.0` for the binary64 value `x` with these bits: the patterns from
/// the smallest positive subnormal up to +infinity (NaNs excluded).
pub open spec fn is_positive_price(bits: u64) -> bool {
    0 < bits <= POSITIVE_INFINITY_BITS
}

/// `x <= 0.0` for the binary64 value `x` with these bits: +0.0, -0.0 and the
/// negative values down to -infinity (NaNs excluded).
pub open spec fn is_nonpositive_price(bits: u64) -> bool {
    bits == 0 || (NEGATIVE_ZERO_BITS <= bits <= NEGATIVE_INFINITY_BITS)
}

pub fn price_is_positive(bits: u64) -> (r: bool)
    ensures
        r == is_positive_price(bits),
{
    0 < bits && bits <= POSITIVE_INFINITY_BITS
}

pub fn price_is_nonpositive(bits: u64) -> (r: bool)
    ensures
        r == is_nonpositive_price(bits),
{
    bits == 0 || (NEGATIVE_ZERO_BITS <= bits && bits <= NEGATIVE_INFINITY_BITS)
}

/// An event from the venue's feeds.
#[derive(Debug, Clone)]
pub enum MarketEvent {
    /// Oracle price update (bits of the raw 10^-8 USD price).
    OracleUpdate { price: u64 },
    /// Round lifecycle event.
    RoundUpdate {
        market_id: i64,
        round_number: String,
        status: String,
        /// Bits of the raw 10^-8 USD strike.
        strike_raw: Option<u64>,
        /// Nanoseconds since the epoch.
        freeze_ts: Option<u64>,
        /// Nanoseconds since the epoch.
        open_ts: Option<u64>,
    },
}

pub enum MarketEventView {
    OracleUpdate { price: u64 },
    RoundUpdate {
        market_id: i64,
        round_number: Seq<char>,
        status: Seq<char>,
        strike_raw: Option<u64>,
        freeze_ts: Option<u64>,
        open_ts: Option<u64>,
    },
}

impl View for MarketEvent {
    type V = MarketEventView;

    open spec fn view(&self) -> MarketEventView {
        match self {
            MarketEvent::OracleUpdate { price } => MarketEventView::OracleUpdate { price: *price },
            MarketEvent::RoundUpdate {
                market_id,
                round_number,
                status,
                strike_raw,
                freeze_ts,
                open_ts,
            } => MarketEventView::RoundUpdate {
                market_id: *market_id,
                round_number: round_number@,
                status: status@,
                strike_raw: *strike_raw,
                freeze_ts: *freeze_ts,
                open_ts: *open_ts,
            },
        }
    }
}

/// A limit order the strategy wants resting on the book.
#[derive(Debug, Clone)]
pub struct DesiredOrder {
    /// "buy"
    pub side: String,
    /// "yes" or "no"
    pub outcome: String,
    /// Price in ticks of 10^-4 dollars (cents × 100), 100..=9900.
    pub tick: i64,
    pub qty: i64,
}

pub struct DesiredOrderView {
    pub side: Seq<char>,
    pub outcome: Seq<char>,
    pub tick: i64,
    pub qty: i64,
}

impl View for DesiredOrder {
    type V = DesiredOrderView;

    open spec fn view(&self) -> DesiredOrderView {
        DesiredOrderView { side: self.side@, outcome: self.outcome@, tick: self.tick, qty: self.qty }
    }
}

pub open spec fn orders_view(orders: Seq<DesiredOrder>) -> Seq<DesiredOrderView> {
    orders.map_values(|o: DesiredOrder| o@)
}


/// The two comparisons with zero split the bit patterns three ways: positive
/// values (up to +infinity), non-positive values (+0.0, -0.0, negatives down
/// to -infinity), and the NaN patterns, which are neither.
pub proof fn law_price_sign_classes(bits: u64)
    ensures
        !(is_positive_price(bits) && is_nonpositive_price(bits)),
        bits == 0 ==> is_nonpositive_price(bits),
        bits == 0x8000_0000_0000_0000 ==> is_nonpositive_price(bits),
        bits == 0x7ff0_0000_0000_0000 ==> is_positive_price(bits),
        bits == 0xfff0_0000_0000_0000 ==> is_nonpositive_price(bits),
        (0 < bits < 0x7ff0_0000_0000_0000) ==> is_positive_price(bits),
        (0x8000_0000_0000_0000 < bits < 0xfff0_0000_0000_0000) ==> is_nonpositive_price(bits),
        (!is_positive_price(bits) && !is_nonpositive_price(bits)) <==> (0x7ff0_0000_0000_0000 < bits
            < 0x8000_0000_0000_0000 || 0xfff0_0000_0000_0000 < bits),
{
}

} // verus!
