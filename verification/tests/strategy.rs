use omnibook_quoter::models::{DesiredOrder, MarketEvent};
use omnibook_quoter::state::MarketState;
use omnibook_quoter::strategy::{cents_to_tick, decide, placeholder_quote_bids, quote_around, BidCents, Decision, Readings};

fn orders(d: &Decision) -> Vec<(String, String, i64, i64)> {
    match d {
        Decision::Quote(os) => os.iter().map(|o: &DesiredOrder| (o.side.clone(), o.outcome.clone(), o.tick, o.qty)).collect(),
        _ => panic!("expected a quote"),
    }
}

fn buy(outcome: &str, tick: i64) -> (String, String, i64, i64) {
    ("buy".to_string(), outcome.to_string(), tick, 1)
}

#[test]
fn ticks_of_cents() {
    assert_eq!(cents_to_tick(1), 100);
    assert_eq!(cents_to_tick(48), 4800);
    assert_eq!(cents_to_tick(99), 9900);
    assert_eq!(cents_to_tick(0), 100);
    assert_eq!(cents_to_tick(-5), 100);
    assert_eq!(cents_to_tick(150), 9900);
}

#[test]
fn whole_cent_ticks_match_the_rounded_probability() {
    // The API price of a whole-cent bid k is round((k / 100) * 100) clamped, times 100.
    for k in 1i64..=98 {
        let p = k as f64 / 100.0;
        let cents = (p * 100.0).round() as i64;
        assert_eq!(cents.clamp(1, 99) * 100, cents_to_tick(k));
    }
}

#[test]
fn placeholder_quote_is_symmetric() {
    let b = placeholder_quote_bids();
    assert_eq!((b.yes, b.no), (48, 48));
    assert_eq!(orders(&quote_around(b)), vec![buy("yes", 4800), buy("no", 4800)]);
}

#[test]
fn out_of_range_bids_are_dropped() {
    assert_eq!(orders(&quote_around(BidCents { yes: 97, no: 1 })), vec![buy("yes", 9700), buy("no", 100)]);
    assert_eq!(orders(&quote_around(BidCents { yes: 99, no: 0 })), vec![]);
    assert_eq!(orders(&quote_around(BidCents { yes: 98, no: -1 })), vec![buy("yes", 9800)]);
    assert_eq!(orders(&quote_around(BidCents { yes: 0, no: 98 })), vec![buy("no", 9800)]);
}

fn trading_state(price: f64, freeze: Option<u64>, strike: Option<f64>) -> MarketState {
    let mut s = MarketState::new();
    s.process_event(MarketEvent::RoundUpdate {
        market_id: 1,
        round_number: "1".to_string(),
        status: "trading".to_string(),
        strike_raw: strike.map(f64::to_bits),
        freeze_ts: freeze,
        open_ts: None,
    });
    s.process_event(MarketEvent::OracleUpdate { price: price.to_bits() });
    s
}

fn readings(jump: bool, twap: bool, yes: i64, no: i64) -> Readings {
    Readings { jump, in_twap_window: twap, fair_bids: BidCents { yes, no } }
}

#[test]
fn decide_outside_trading_kills() {
    let s = MarketState::new();
    assert!(matches!(decide(&s, &readings(false, false, 10, 10)), Decision::Kill));
    let mut s = trading_state(100.0, Some(10), Some(1.0));
    s.process_event(MarketEvent::RoundUpdate {
        market_id: 1,
        round_number: "1".to_string(),
        status: "frozen".to_string(),
        strike_raw: None,
        freeze_ts: None,
        open_ts: None,
    });
    assert!(matches!(decide(&s, &readings(false, false, 10, 10)), Decision::Kill));
}

#[test]
fn decide_holds_without_positive_price() {
    let s = trading_state(0.0, Some(10), Some(1.0));
    assert!(matches!(decide(&s, &readings(false, false, 10, 10)), Decision::Hold));
    let s = trading_state(-3.0, Some(10), Some(1.0));
    assert!(matches!(decide(&s, &readings(false, false, 10, 10)), Decision::Hold));
}

#[test]
fn decide_quotes_placeholder_until_freeze_and_strike_known() {
    let s = trading_state(100.0, None, Some(1.0));
    assert_eq!(orders(&decide(&s, &readings(true, true, 10, 10))), vec![buy("yes", 4800), buy("no", 4800)]);
    let s = trading_state(100.0, Some(0), Some(1.0));
    assert_eq!(orders(&decide(&s, &readings(true, true, 10, 10))), vec![buy("yes", 4800), buy("no", 4800)]);
    let s = trading_state(100.0, Some(10), None);
    assert_eq!(orders(&decide(&s, &readings(false, false, 10, 10))), vec![buy("yes", 4800), buy("no", 4800)]);
    let s = trading_state(100.0, Some(10), Some(0.0));
    assert_eq!(orders(&decide(&s, &readings(false, false, 10, 10))), vec![buy("yes", 4800), buy("no", 4800)]);
}

#[test]
fn decide_pulls_on_jump_and_in_twap_window() {
    let mut s = trading_state(100.0, Some(10), Some(1.0));
    // Without a previous price the jump guard is not consulted.
    assert_eq!(orders(&decide(&s, &readings(true, false, 30, 60))), vec![buy("yes", 3000), buy("no", 6000)]);
    s.process_event(MarketEvent::OracleUpdate { price: 101.0f64.to_bits() });
    assert!(matches!(decide(&s, &readings(true, false, 30, 60)), Decision::Kill));
    assert!(matches!(decide(&s, &readings(false, true, 30, 60)), Decision::Kill));
    assert_eq!(orders(&decide(&s, &readings(false, false, 30, 60))), vec![buy("yes", 3000), buy("no", 6000)]);
}

#[test]
fn decide_with_nan_price_goes_on_to_quote() {
    // NaN is not <= 0, so the price check lets it through, as with binary64 comparisons.
    let s = trading_state(f64::NAN, Some(10), Some(1.0));
    assert_eq!(orders(&decide(&s, &readings(false, false, 0, 0))), vec![]);
}
