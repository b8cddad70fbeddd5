//! Reading the venue's feeds: JSON fields as plain values, the oracle and
//! round messages of the WebSocket, the active round of the REST listing,
//! and the reconnect back-off.

use vstd::prelude::*;
use crate::models::{MarketEvent, MarketEventView, is_positive_price, price_is_positive};
use crate::state::FREEZE_AFTER_OPEN_NS;
use serde_json::Value;
use vstd::arithmetic::power2::{lemma_pow2_unfold, pow2};
use crate::text::{i64_to_decimal, parse_u64, parsed_u64, signed_decimal, str_eq};

verus! {

// ─── JSON fields ────────────────────────────────────────────────────────────

/// What the logic reads of one JSON field: the answers of the JSON value's
/// accessors (`as_str`, `as_i64`, `as_u64`, `as_f64`), and the string form
/// read as a binary64 number. Numbers that are read as reals are carried as
/// bit patterns. A missing field has every entry `None`.
#[derive(Clone, Debug)]
pub struct JsonScalar {
    /// The field's text, when it is a JSON string.
    pub text: Option<String>,
    /// The field's value, when it is a JSON integer that fits in `i64`.
    pub int: Option<i64>,
    /// The field's value, when it is a JSON integer that fits in `u64`.
    pub uint: Option<u64>,
    /// The bits of the field's text read as a binary64 number, when the
    /// field is a string that reads as one.
    pub text_number: Option<u64>,
    /// The bits of the field as a binary64 number, when it is a JSON number.
    pub number: Option<u64>,
}

pub struct JsonScalarView {
    pub text: Option<Seq<char>>,
    pub int: Option<i64>,
    pub uint: Option<u64>,
    pub text_number: Option<u64>,
    pub number: Option<u64>,
}

impl View for JsonScalar {
    type V = JsonScalarView;

    open spec fn view(&self) -> JsonScalarView {
        JsonScalarView {
            text: match self.text {
                Some(t) => Some(t@),
                None => None,
            },
            int: self.int,
            uint: self.uint,
            text_number: self.text_number,
            number: self.number,
        }
    }
}

pub open spec fn or_else<T>(first: Option<T>, second: Option<T>) -> Option<T> {
    if first is Some {
        first
    } else {
        second
    }
}

impl JsonScalar {
    /// A missing field.
    pub fn absent() -> (f: JsonScalar)
        ensures
            f@ == (JsonScalarView { text: None, int: None, uint: None, text_number: None, number: None }),
    {
        JsonScalar { text: None, int: None, uint: None, text_number: None, number: None }
    }
}

impl JsonScalarView {
    /// The text if the field is a string, else the decimal form of the
    /// integer, else the empty string.
    pub open spec fn text_or_integer(self) -> Seq<char> {
        match self.text {
            Some(t) => t,
            None => match self.int {
                Some(n) => signed_decimal(n as int),
                None => Seq::empty(),
            },
        }
    }

    /// The string read as a `u64`, else the field as a `u64`.
    pub open spec fn unsigned(self) -> Option<u64> {
        or_else(
            match self.text {
                Some(t) => parsed_u64(t),
                None => None,
            },
            self.uint,
        )
    }

    /// The string read as a binary64 number, else the field as one.
    pub open spec fn as_real(self) -> Option<u64> {
        or_else(self.text_number, self.number)
    }

    pub open spec fn is_text(self, t: Seq<char>) -> bool {
        self.text == Some(t)
    }
}

pub fn text_or_integer(f: &JsonScalar) -> (s: String)
    ensures
        s@ == f@.text_or_integer(),
{
    match &f.text {
        Some(t) => t.clone(),
        None => match f.int {
            Some(n) => i64_to_decimal(n),
            None => String::new(),
        },
    }
}

pub fn unsigned_field(f: &JsonScalar) -> (r: Option<u64>)
    ensures
        r == f@.unsigned(),
{
    let parsed = match &f.text {
        Some(t) => parse_u64(t.as_str()),
        None => None,
    };
    match parsed {
        Some(v) => Some(v),
        None => f.uint,
    }
}

pub fn real_field(f: &JsonScalar) -> (r: Option<u64>)
    ensures
        r == f@.as_real(),
{
    match f.text_number {
        Some(v) => Some(v),
        None => f.number,
    }
}

fn text_is(f: &JsonScalar, t: &str) -> (r: bool)
    ensures
        r == f@.is_text(t@),
{
    match &f.text {
        Some(s) => str_eq(s.as_str(), t),
        None => false,
    }
}

// ─── WebSocket messages ─────────────────────────────────────────────────────

/// The kinds of WebSocket message the bot acts on.
pub enum FeedMessageKind {
    Oracle,
    Rounds,
    /// Anything else (subscription acknowledgements, unknown types).
    Other,
}

/// The kind of a message by its `type` field: "oracle", "rounds", or other.
pub fn message_kind(type_field: &JsonScalar) -> (k: FeedMessageKind)
    ensures
        (k is Oracle) == type_field@.is_text("oracle"@),
        (k is Rounds) == (type_field@.is_text("rounds"@) && !type_field@.is_text("oracle"@)),
{
    if text_is(type_field, "oracle") {
        FeedMessageKind::Oracle
    } else if text_is(type_field, "rounds") {
        FeedMessageKind::Rounds
    } else {
        FeedMessageKind::Other
    }
}

/// The fields of an oracle message that carry the price.
pub struct OracleFields {
    pub price: JsonScalar,
    pub median: JsonScalar,
}

/// The price of an oracle message: the `price` field (string, then number),
/// else the `median` field (string, then number).
pub open spec fn oracle_price(price: JsonScalarView, median: JsonScalarView) -> Option<u64> {
    or_else(price.as_real(), median.as_real())
}

/// The event of an oracle message: an update when its price is positive.
pub open spec fn oracle_event_of(price: JsonScalarView, median: JsonScalarView) -> Option<MarketEventView> {
    match oracle_price(price, median) {
        Some(p) => if is_positive_price(p) {
            Some(MarketEventView::OracleUpdate { price: p })
        } else {
            None
        },
        None => None,
    }
}

pub fn oracle_event(f: &OracleFields) -> (r: Option<MarketEvent>)
    ensures
        match r {
            Some(e) => oracle_event_of(f.price@, f.median@) == Some(e@),
            None => oracle_event_of(f.price@, f.median@) is None,
        },
{
    let p = match real_field(&f.price) {
        Some(p) => Some(p),
        None => real_field(&f.median),
    };
    match p {
        Some(price) => if price_is_positive(price) {
            Some(MarketEvent::OracleUpdate { price })
        } else {
            None
        },
        None => None,
    }
}

/// The market status that a round action announces: open → trading,
/// freeze → frozen, settle → settled, create → creating, any other action
/// is passed on as it is.
pub open spec fn status_of_action(action: Seq<char>) -> Seq<char> {
    if action == "open"@ {
        "trading"@
    } else if action == "freeze"@ {
        "frozen"@
    } else if action == "settle"@ {
        "settled"@
    } else if action == "create"@ {
        "creating"@
    } else {
        action
    }
}

pub fn round_status(action: &str) -> (s: String)
    ensures
        s@ == status_of_action(action@),
{
    if str_eq(action, "open") {
        "trading".to_owned()
    } else if str_eq(action, "freeze") {
        "frozen".to_owned()
    } else if str_eq(action, "settle") {
        "settled".to_owned()
    } else if str_eq(action, "create") {
        "creating".to_owned()
    } else {
        action.to_owned()
    }
}

/// The fields of a round message.
pub struct RoundFields {
    pub action: JsonScalar,
    pub market_id: JsonScalar,
    pub round_number: JsonScalar,
    pub strike: JsonScalar,
    pub freeze_ts: JsonScalar,
    pub open_ts: JsonScalar,
}

/// The action of a round message, "unknown" when it has none.
pub open spec fn round_action(action: JsonScalarView) -> Seq<char> {
    match action.text {
        Some(a) => a,
        None => "unknown"@,
    }
}

pub fn action_of(f: &RoundFields) -> (a: String)
    ensures
        a@ == round_action(f.action@),
{
    match &f.action {
        JsonScalar { text: Some(a), .. } => a.clone(),
        _ => "unknown".to_owned(),
    }
}

/// The event of a round message: a round update when it names its market.
pub open spec fn round_event_of(
    action: JsonScalarView,
    market_id: JsonScalarView,
    round_number: JsonScalarView,
    strike: JsonScalarView,
    freeze_ts: JsonScalarView,
    open_ts: JsonScalarView,
) -> Option<MarketEventView> {
    match market_id.int {
        Some(id) => Some(MarketEventView::RoundUpdate {
            market_id: id,
            round_number: round_number.text_or_integer(),
            status: status_of_action(round_action(action)),
            strike_raw: strike.as_real(),
            freeze_ts: freeze_ts.unsigned(),
            open_ts: open_ts.unsigned(),
        }),
        None => None,
    }
}

pub fn round_event(f: &RoundFields) -> (r: Option<MarketEvent>)
    ensures
        match r {
            Some(e) => round_event_of(f.action@, f.market_id@, f.round_number@, f.strike@, f.freeze_ts@, f.open_ts@) == Some(e@),
            None => round_event_of(f.action@, f.market_id@, f.round_number@, f.strike@, f.freeze_ts@, f.open_ts@) is None,
        },
{
    match f.market_id.int {
        Some(id) => {
            let action = action_of(f);
            Some(MarketEvent::RoundUpdate {
                market_id: id,
                round_number: text_or_integer(&f.round_number),
                status: round_status(action.as_str()),
                strike_raw: real_field(&f.strike),
                freeze_ts: unsigned_field(&f.freeze_ts),
                open_ts: unsigned_field(&f.open_ts),
            })
        },
        None => None,
    }
}

// ─── WebSocket frames ───────────────────────────────────────────────────────

/// The fields of a WebSocket frame that the bot reads: `type`, and under
/// `msg` the oracle's `price` and `median` and a round's `action`,
/// `market_id`, `round_number`, `strike`, `freeze_ts` and `open_ts`.
pub struct FrameFields {
    pub type_field: JsonScalar,
    pub price: JsonScalar,
    pub median: JsonScalar,
    pub action: JsonScalar,
    pub market_id: JsonScalar,
    pub round_number: JsonScalar,
    pub strike: JsonScalar,
    pub freeze_ts: JsonScalar,
    pub open_ts: JsonScalar,
}

pub struct FrameFieldsView {
    pub type_field: JsonScalarView,
    pub price: JsonScalarView,
    pub median: JsonScalarView,
    pub action: JsonScalarView,
    pub market_id: JsonScalarView,
    pub round_number: JsonScalarView,
    pub strike: JsonScalarView,
    pub freeze_ts: JsonScalarView,
    pub open_ts: JsonScalarView,
}

impl View for FrameFields {
    type V = FrameFieldsView;

    open spec fn view(&self) -> FrameFieldsView {
        FrameFieldsView {
            type_field: self.type_field@,
            price: self.price@,
            median: self.median@,
            action: self.action@,
            market_id: self.market_id@,
            round_number: self.round_number@,
            strike: self.strike@,
            freeze_ts: self.freeze_ts@,
            open_ts: self.open_ts@,
        }
    }
}

/// What `serde_json::from_str::<serde_json::Value>` makes of a frame's
/// text, read through the value's accessors: `None` when the text is not
/// JSON; otherwise, for each field of `FrameFields`, what `as_str`,
/// `as_i64`, `as_u64` and `as_f64` (as bits) give on it (all `None` for a
/// missing field, or when the frame or its `msg` is not an object).
pub uninterp spec fn json_frame(text: Seq<char>) -> Option<FrameFieldsView>;

/// Parses a frame with `serde_json::from_str` and reads its fields through
/// the accessors `as_str`, `as_i64`, `as_u64` and `as_f64` of
/// `serde_json::Value` (indexing a missing field gives JSON null, on which
/// every accessor gives `None`). Reading a string field as a binary64 number
/// is left to the caller: `text_number` is `None` in every field.
#[verifier::external_body]
pub fn parse_frame(text: &str) -> (r: Option<FrameFields>)
    ensures
        match r {
            Some(f) => json_frame(text@) == Some(f@),
            None => json_frame(text@) is None,
        },
{
    let v: Value = serde_json::from_str(text).ok()?;
    let f = |x: &Value| JsonScalar { text: x.as_str().map(String::from), int: x.as_i64(), uint: x.as_u64(), text_number: None, number: x.as_f64().map(|n| n.to_bits()) };
    let m = |k: &str| f(&v["msg"][k]);
    Some(FrameFields { type_field: f(&v["type"]), price: m("price"), median: m("median"), action: m("action"), market_id: m("market_id"),
        round_number: m("round_number"), strike: m("strike"), freeze_ts: m("freeze_ts"), open_ts: m("open_ts") })
}

/// The string fields of a frame that hold numbers, read as binary64 numbers
/// (as bits; `None` where the field is not a string that reads as one).
#[derive(Clone, Copy, Debug)]
pub struct StringReadings {
    pub price: Option<u64>,
    pub median: Option<u64>,
    pub strike: Option<u64>,
}

/// A field with its string read as a binary64 number: the reading counts
/// only where the field is a string.
pub open spec fn with_reading(f: JsonScalarView, bits: Option<u64>) -> JsonScalarView {
    JsonScalarView { text_number: if f.text is Some { bits } else { None }, ..f }
}

fn apply_reading(f: &mut JsonScalar, bits: Option<u64>)
    ensures
        final(f)@ == with_reading(old(f)@, bits),
{
    if f.text.is_some() {
        f.text_number = bits;
    } else {
        f.text_number = None;
    }
}

/// The event that a frame carries: an oracle update from an "oracle"
/// frame, a round update from a "rounds" frame, nothing otherwise (or when
/// the text is not JSON).
pub open spec fn frame_event_of(frame: Option<FrameFieldsView>, r: StringReadings) -> Option<MarketEventView> {
    match frame {
        None => None,
        Some(f) => if f.type_field.is_text("oracle"@) {
            oracle_event_of(with_reading(f.price, r.price), with_reading(f.median, r.median))
        } else if f.type_field.is_text("rounds"@) {
            round_event_of(f.action, f.market_id, f.round_number, with_reading(f.strike, r.strike), f.freeze_ts, f.open_ts)
        } else {
            None
        },
    }
}

/// The event that parsed frame fields carry, given the binary64 readings of
/// their string fields.
pub fn frame_fields_event(fields: FrameFields, readings: &StringReadings) -> (r: Option<MarketEvent>)
    ensures
        match r {
            Some(e) => frame_event_of(Some(fields@), *readings) == Some(e@),
            None => frame_event_of(Some(fields@), *readings) is None,
        },
{
    let mut fields = fields;
    apply_reading(&mut fields.price, readings.price);
    apply_reading(&mut fields.median, readings.median);
    apply_reading(&mut fields.strike, readings.strike);
    match message_kind(&fields.type_field) {
        FeedMessageKind::Oracle => oracle_event(&OracleFields { price: fields.price, median: fields.median }),
        FeedMessageKind::Rounds => round_event(
            &RoundFields {
                action: fields.action,
                market_id: fields.market_id,
                round_number: fields.round_number,
                strike: fields.strike,
                freeze_ts: fields.freeze_ts,
                open_ts: fields.open_ts,
            },
        ),
        FeedMessageKind::Other => None,
    }
}

/// The event of a WebSocket frame, given the binary64 readings of its
/// string fields.
pub fn frame_event(text: &str, readings: &StringReadings) -> (r: Option<MarketEvent>)
    ensures
        match r {
            Some(e) => frame_event_of(json_frame(text@), *readings) == Some(e@),
            None => frame_event_of(json_frame(text@), *readings) is None,
        },
{
    match parse_frame(text) {
        Some(fields) => frame_fields_event(fields, readings),
        None => None,
    }
}

// ─── Order responses ────────────────────────────────────────────────────────

/// What an order response's body gives as the order's id: the `order_id`
/// field when the body is JSON and that field is a string.
pub uninterp spec fn json_order_id(body: Seq<char>) -> Option<Seq<char>>;

/// Parses a response body with `serde_json::from_str` and reads its
/// `order_id` field with `as_str`.
#[verifier::external_body]
pub fn order_id_of(body: &str) -> (r: Option<String>)
    ensures
        match r {
            Some(s) => json_order_id(body@) == Some(s@),
            None => json_order_id(body@) is None,
        },
{
    let v: Value = serde_json::from_str(body).ok()?;
    v["order_id"].as_str().map(String::from)
}

// ─── REST round listing ─────────────────────────────────────────────────────

/// The fields of one entry of the REST round listing.
pub struct RoundRecord {
    pub status: JsonScalar,
    pub market_id: JsonScalar,
    pub round_number: JsonScalar,
    pub strike: JsonScalar,
    pub open_ts: JsonScalar,
}

/// The round that is trading, as the REST listing describes it.
#[derive(Clone, Debug)]
pub struct ActiveRound {
    pub market_id: i64,
    pub round_number: String,
    /// Bits of the raw 10^-8 USD strike.
    pub strike_raw: u64,
    /// Nanoseconds since the epoch (0 when the listing gives none).
    pub open_ts: u64,
}

pub struct ActiveRoundView {
    pub market_id: i64,
    pub round_number: Seq<char>,
    pub strike_raw: u64,
    pub open_ts: u64,
}

impl View for ActiveRound {
    type V = ActiveRoundView;

    open spec fn view(&self) -> ActiveRoundView {
        ActiveRoundView {
            market_id: self.market_id,
            round_number: self.round_number@,
            strike_raw: self.strike_raw,
            open_ts: self.open_ts,
        }
    }
}

pub open spec fn is_trading_record(r: RoundRecord) -> bool {
    r.status@.is_text("trading"@)
}

/// The index of the first trading entry, if any.
pub open spec fn first_trading(rounds: Seq<RoundRecord>) -> Option<int>
    decreases rounds.len(),
{
    if rounds.len() == 0 {
        None
    } else {
        match first_trading(rounds.drop_last()) {
            Some(i) => Some(i),
            None => if is_trading_record(rounds.last()) {
                Some(rounds.len() - 1)
            } else {
                None
            },
        }
    }
}

/// The active round of a listing: the first trading entry, provided it
/// names its market and strike; its open time defaults to 0.
pub open spec fn active_round_of(rounds: Seq<RoundRecord>) -> Option<ActiveRoundView> {
    match first_trading(rounds) {
        Some(i) => {
            let r = rounds[i];
            match (r.market_id@.int, r.strike@.as_real()) {
                (Some(id), Some(strike)) => Some(ActiveRoundView {
                    market_id: id,
                    round_number: r.round_number@.text_or_integer(),
                    strike_raw: strike,
                    open_ts: match r.open_ts@.unsigned() {
                        Some(t) => t,
                        None => 0,
                    },
                }),
                _ => None,
            }
        },
        None => None,
    }
}

proof fn lemma_first_trading_bounds(rounds: Seq<RoundRecord>)
    ensures
        first_trading(rounds) matches Some(i) ==> 0 <= i < rounds.len() && is_trading_record(rounds[i]),
        first_trading(rounds) is None ==> forall|j: int| 0 <= j < rounds.len() ==> !is_trading_record(#[trigger] rounds[j]),
    decreases rounds.len(),
{
    if rounds.len() > 0 {
        lemma_first_trading_bounds(rounds.drop_last());
        assert forall|j: int| 0 <= j < rounds.len() - 1 implies rounds.drop_last()[j] == #[trigger] rounds[j] by {}
    }
}

proof fn lemma_first_trading_prefix(rounds: Seq<RoundRecord>, k: int)
    requires
        0 <= k < rounds.len(),
        is_trading_record(rounds[k]),
        forall|j: int| 0 <= j < k ==> !is_trading_record(#[trigger] rounds[j]),
    ensures
        first_trading(rounds) == Some(k),
    decreases rounds.len(),
{
    if k < rounds.len() - 1 {
        let d = rounds.drop_last();
        assert forall|j: int| 0 <= j <= k implies d[j] == #[trigger] rounds[j] by {}
        lemma_first_trading_prefix(d, k);
    } else {
        let d = rounds.drop_last();
        lemma_first_trading_bounds(d);
        if first_trading(d) is Some {
            let i = first_trading(d)->0;
            assert(d[i] == rounds[i]);
        }
    }
}

/// The active round of a REST round listing.
pub fn select_active_round(rounds: &Vec<RoundRecord>) -> (r: Option<ActiveRound>)
    ensures
        match r {
            Some(a) => active_round_of(rounds@) == Some(a@),
            None => active_round_of(rounds@) is None,
        },
{
    let n = rounds.len();
    let mut i: usize = 0;
    while i < n
        invariant
            n == rounds@.len(),
            i <= n,
            forall|j: int| 0 <= j < i ==> !is_trading_record(#[trigger] rounds@[j]),
        decreases n - i,
    {
        let r = &rounds[i];
        if text_is(&r.status, "trading") {
            proof { lemma_first_trading_prefix(rounds@, i as int); }
            let id = match r.market_id.int {
                Some(id) => id,
                None => {
                    return None;
                },
            };
            let strike = match real_field(&r.strike) {
                Some(s) => s,
                None => {
                    return None;
                },
            };
            let open_ts = match unsigned_field(&r.open_ts) {
                Some(t) => t,
                None => 0,
            };
            return Some(ActiveRound {
                market_id: id,
                round_number: text_or_integer(&r.round_number),
                strike_raw: strike,
                open_ts,
            });
        }
        i = i + 1;
    }
    proof {
        lemma_first_trading_bounds(rounds@);
        if first_trading(rounds@) is Some {
            let k = first_trading(rounds@)->0;
            assert(is_trading_record(rounds@[k]));
        }
    }
    None
}

impl ActiveRound {
    /// The round event that refreshes the state from this listing: the round
    /// is trading, with the listed strike and open time and a freeze time 60 s
    /// after the open.
    pub open spec fn refresh_event_of(a: ActiveRoundView) -> MarketEventView {
        MarketEventView::RoundUpdate {
            market_id: a.market_id,
            round_number: a.round_number,
            status: "trading"@,
            strike_raw: Some(a.strike_raw),
            freeze_ts: Some((a.open_ts + FREEZE_AFTER_OPEN_NS) as u64),
            open_ts: Some(a.open_ts),
        }
    }

    pub fn refresh_event(&self) -> (e: MarketEvent)
        requires
            self.open_ts <= u64::MAX - FREEZE_AFTER_OPEN_NS,
        ensures
            e@ == Self::refresh_event_of(self@),
    {
        MarketEvent::RoundUpdate {
            market_id: self.market_id,
            round_number: self.round_number.clone(),
            status: "trading".to_owned(),
            strike_raw: Some(self.strike_raw),
            freeze_ts: Some(self.open_ts + FREEZE_AFTER_OPEN_NS),
            open_ts: Some(self.open_ts),
        }
    }
}

// ─── Reconnect back-off ─────────────────────────────────────────────────────

/// Seconds to wait before the first reconnect, and after a successful connect.
pub const INITIAL_RETRY_SECS: u64 = 1;

/// The longest wait between reconnects, in seconds.
pub const MAX_RETRY_SECS: u64 = 30;

pub open spec fn next_retry_secs(secs: u64) -> u64 {
    if 2 * secs < MAX_RETRY_SECS {
        (2 * secs) as u64
    } else {
        MAX_RETRY_SECS
    }
}

/// The wait after a failed attempt that waited `secs`: twice as long, at
/// most 30 s.
pub fn next_retry_delay(secs: u64) -> (next: u64)
    requires
        secs <= u64::MAX / 2,
    ensures
        next == next_retry_secs(secs),
{
    let doubled = secs * 2;
    if doubled < MAX_RETRY_SECS {
        doubled
    } else {
        MAX_RETRY_SECS
    }
}

/// The reconnect back-off: the wait before the next attempt, reset to 1 s
/// by a successful connect, doubled (up to 30 s) by every wait taken.
pub struct ReconnectBackoff {
    secs: u64,
}

impl ReconnectBackoff {
    #[verifier::type_invariant]
    spec fn in_range(self) -> bool {
        INITIAL_RETRY_SECS <= self.secs <= MAX_RETRY_SECS
    }

    /// The wait, in seconds, that the next failure or disconnect takes.
    pub closed spec fn current(self) -> u64 {
        self.secs
    }

    pub fn new() -> (b: ReconnectBackoff)
        ensures
            b.current() == INITIAL_RETRY_SECS,
    {
        ReconnectBackoff { secs: INITIAL_RETRY_SECS }
    }

    /// After a successful connect the next wait is the initial one again.
    pub fn reset(&mut self)
        ensures
            final(self).current() == INITIAL_RETRY_SECS,
    {
        self.secs = INITIAL_RETRY_SECS;
    }

    /// The wait to take now, in seconds; the next one is twice as long, at
    /// most 30 s.
    pub fn next_wait(&mut self) -> (w: u64)
        ensures
            w == old(self).current(),
            final(self).current() == next_retry_secs(w),
            INITIAL_RETRY_SECS <= w <= MAX_RETRY_SECS,
    {
        proof { use_type_invariant(&*self); }
        let w = self.secs;
        self.secs = next_retry_delay(w);
        w
    }
}

/// The i-th wait (i ≥ 1) after a reset: 1 s, then each twice the last, at
/// most 30 s.
pub open spec fn nth_retry_secs(i: nat) -> u64
    decreases i,
{
    if i <= 1 {
        INITIAL_RETRY_SECS
    } else {
        next_retry_secs(nth_retry_secs((i - 1) as nat))
    }
}

// ─── Laws ───────────────────────────────────────────────────────────────────

/// Counted from a reset, the i-th wait lasts min(2^(i-1), 30) seconds:
/// 1, 2, 4, 8, 16, 30, 30, …
pub proof fn law_retry_waits_closed_form(i: nat)
    requires
        i >= 1,
    ensures
        nth_retry_secs(i + 1) == next_retry_secs(nth_retry_secs(i)),
        nth_retry_secs(i) == if pow2((i - 1) as nat) < 30 {
            pow2((i - 1) as nat)
        } else {
            30
        },
    decreases i,
{
    if i == 1 {
        assert(pow2(0) == 1) by { lemma_pow2_unfold(1); reveal(vstd::arithmetic::power::pow); }
    } else {
        law_retry_waits_closed_form((i - 1) as nat);
        lemma_pow2_unfold((i - 1) as nat);
    }
}

/// Starting from the initial wait, every wait between reconnects lies
/// between 1 and 30 seconds and never shrinks until a connect resets it.
pub proof fn law_retry_delay_stays_in_range(secs: u64)
    requires
        INITIAL_RETRY_SECS <= secs <= MAX_RETRY_SECS,
    ensures
        1 <= next_retry_secs(secs) <= 30,
        secs <= next_retry_secs(secs),
        secs < 15 ==> next_retry_secs(secs) == 2 * secs,
        secs >= 15 ==> next_retry_secs(secs) == 30,
{
}

/// The refresh event of a listed round can be taken by any state and makes
/// the round the active, trading one with the listed strike, open time and
/// a freeze time one minute later.
pub proof fn law_refresh_activates_round(s: crate::state::MarketStateView, a: ActiveRoundView)
    requires
        a.open_ts <= u64::MAX - FREEZE_AFTER_OPEN_NS,
    ensures
        s.accepts(ActiveRound::refresh_event_of(a)),
        ({
            let t = s.after_event(ActiveRound::refresh_event_of(a));
            &&& t.active_market_id == Some(a.market_id)
            &&& t.active_round_number == Some(a.round_number)
            &&& t.market_status == "trading"@
            &&& t.strike_raw == Some(a.strike_raw)
            &&& t.open_ts == Some(a.open_ts)
            &&& t.freeze_ts == Some((a.open_ts + 60_000_000_000) as u64)
        }),
{
}

/// A "rounds" frame that names its market becomes a round update for that
/// market whose freeze time is the frame's `msg.freeze_ts` and whose open
/// time is its `msg.open_ts`, each read as a `u64` from its string form or
/// else from its JSON unsigned value; the strike is the string reading when
/// the field is a string, else the JSON number.
pub proof fn law_round_frame_event(f: FrameFieldsView, r: StringReadings, id: i64)
    requires
        f.type_field.text == Some("rounds"@),
        f.market_id.int == Some(id),
    ensures
        frame_event_of(Some(f), r) == Some(MarketEventView::RoundUpdate {
            market_id: id,
            round_number: f.round_number.text_or_integer(),
            status: status_of_action(round_action(f.action)),
            strike_raw: if f.strike.text is Some && r.strike is Some { r.strike } else { f.strike.number },
            freeze_ts: if f.freeze_ts.text matches Some(t) && parsed_u64(t) is Some {
                parsed_u64(f.freeze_ts.text->0)
            } else {
                f.freeze_ts.uint
            },
            open_ts: if f.open_ts.text matches Some(t) && parsed_u64(t) is Some {
                parsed_u64(f.open_ts.text->0)
            } else {
                f.open_ts.uint
            },
        }),
{
    reveal_strlit("rounds");
    reveal_strlit("oracle");
    assert("rounds"@[0] != "oracle"@[0]);
}

/// An "oracle" frame becomes an update to its price, read from `msg.price`
/// (string, then number), else from `msg.median` (string, then number),
/// exactly when that price is positive.
pub proof fn law_oracle_frame_event(f: FrameFieldsView, r: StringReadings)
    requires
        f.type_field.text == Some("oracle"@),
    ensures
        ({
            let from_price = if f.price.text is Some && r.price is Some { r.price } else { f.price.number };
            let from_median = if f.median.text is Some && r.median is Some { r.median } else { f.median.number };
            let p = if from_price is Some { from_price } else { from_median };
            &&& (p is Some && is_positive_price(p->0)) ==> frame_event_of(Some(f), r)
                == Some(MarketEventView::OracleUpdate { price: p->0 })
            &&& !(p is Some && is_positive_price(p->0)) ==> frame_event_of(Some(f), r) is None
        }),
{
}

/// The active round of a listing is its first trading entry, provided that
/// entry names its market and strike: the round carries that entry's
/// market, round number and strike, and its open time read as a `u64` from
/// the string form, else from the JSON unsigned value, and 0 only when
/// neither gives one.
pub proof fn law_active_round_is_first_trading_entry(rounds: Seq<RoundRecord>, i: int, id: i64, strike: u64)
    requires
        0 <= i < rounds.len(),
        rounds[i].status@.text == Some("trading"@),
        forall|j: int| 0 <= j < i ==> !(#[trigger] rounds[j].status@.text == Some("trading"@)),
        rounds[i].market_id@.int == Some(id),
        rounds[i].strike@.as_real() == Some(strike),
    ensures
        active_round_of(rounds) == Some(ActiveRoundView {
            market_id: id,
            round_number: rounds[i].round_number@.text_or_integer(),
            strike_raw: strike,
            open_ts: if rounds[i].open_ts@.text matches Some(t) && parsed_u64(t) is Some {
                parsed_u64(rounds[i].open_ts@.text->0)->0
            } else if rounds[i].open_ts@.uint is Some {
                rounds[i].open_ts@.uint->0
            } else {
                0
            },
        }),
{
    assert forall|j: int| 0 <= j < i implies !is_trading_record(#[trigger] rounds[j]) by {
        assert(!(rounds[j].status@.text == Some("trading"@)));
    }
    lemma_first_trading_prefix(rounds, i);
}

/// A listing without a trading entry has no active round, and neither has
/// one whose first trading entry lacks its market id or strike.
pub proof fn law_no_active_round(rounds: Seq<RoundRecord>, i: int)
    requires
        0 <= i < rounds.len(),
        rounds[i].status@.text == Some("trading"@),
        forall|j: int| 0 <= j < i ==> !(#[trigger] rounds[j].status@.text == Some("trading"@)),
        rounds[i].market_id@.int is None || rounds[i].strike@.as_real() is None,
    ensures
        active_round_of(rounds) is None,
{
    assert forall|j: int| 0 <= j < i implies !is_trading_record(#[trigger] rounds[j]) by {
        assert(!(rounds[j].status@.text == Some("trading"@)));
    }
    lemma_first_trading_prefix(rounds, i);
}


/// A round action announces a status: "open" means trading, "freeze"
/// frozen, "settle" settled, "create" creating; any other action is passed
/// on as the status unchanged.
pub proof fn law_action_statuses(action: Seq<char>)
    ensures
        action == "open"@ ==> status_of_action(action) == "trading"@,
        action == "freeze"@ ==> status_of_action(action) == "frozen"@,
        action == "settle"@ ==> status_of_action(action) == "settled"@,
        action == "create"@ ==> status_of_action(action) == "creating"@,
        (action != "open"@ && action != "freeze"@ && action != "settle"@ && action != "create"@)
            ==> status_of_action(action) == action,
{
    reveal_strlit("open");
    reveal_strlit("freeze");
    reveal_strlit("settle");
    reveal_strlit("create");
    assert("open"@[0] != "freeze"@[0]);
    assert("open"@[0] != "settle"@[0]);
    assert("open"@[0] != "create"@[0]);
    assert("freeze"@[0] != "settle"@[0]);
    assert("freeze"@[0] != "create"@[0]);
    assert("settle"@[0] != "create"@[0]);
}

/// A round message's fields are read as the venue sends them: the round
/// number is the string if there is one, else the integer in decimal, else
/// empty; a time is the string read as a `u64`, else the JSON unsigned
/// value; a strike is the string's reading, else the JSON number.
pub proof fn law_field_readings(f: JsonScalarView)
    ensures
        f.text is Some ==> f.text_or_integer() == f.text->0,
        (f.text is None && f.int is Some) ==> f.text_or_integer() == signed_decimal(f.int->0 as int),
        (f.text is None && f.int is None) ==> f.text_or_integer().len() == 0,
        (f.text is Some && parsed_u64(f.text->0) is Some) ==> f.unsigned() == parsed_u64(f.text->0),
        !(f.text is Some && parsed_u64(f.text->0) is Some) ==> f.unsigned() == f.uint,
        f.text_number is Some ==> f.as_real() == f.text_number,
        f.text_number is None ==> f.as_real() == f.number,
{
}

} // verus!
