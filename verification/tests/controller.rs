use omnibook_quoter::controller::{Brain, Reaction};
use omnibook_quoter::models::MarketEvent;
use omnibook_quoter::strategy::{quote_around, BidCents, Decision};

fn round(market_id: i64, status: &str) -> MarketEvent {
    MarketEvent::RoundUpdate {
        market_id,
        round_number: market_id.to_string(),
        status: status.to_string(),
        strike_raw: Some(1.0f64.to_bits()),
        freeze_ts: Some(1),
        open_ts: None,
    }
}

fn oracle(p: f64) -> MarketEvent {
    MarketEvent::OracleUpdate { price: p.to_bits() }
}

fn evaluate(r: Reaction) -> i64 {
    match r {
        Reaction::Evaluate(m) => m,
        _ => panic!("expected Evaluate"),
    }
}

fn quote(yes: i64, no: i64) -> Decision {
    quote_around(BidCents { yes, no })
}

#[test]
fn no_price_means_no_action() {
    let mut b = Brain::new();
    assert!(matches!(b.on_event(round(1, "trading")), Reaction::Idle));
}

#[test]
fn quote_record_repeat_and_requote() {
    let mut b = Brain::new();
    b.on_event(oracle(100.0));
    let m = evaluate(b.on_event(round(1, "trading")));
    assert_eq!(m, 1);

    let plan = b.on_decision(m, quote(48, 48));
    assert!(plan.cancel.is_empty());
    assert_eq!(plan.place.len(), 2);
    b.record_order("a".to_string());
    b.record_order("b".to_string());
    assert_eq!(b.live_orders, vec!["a".to_string(), "b".to_string()]);
    assert_eq!(b.last_quoted_ticks, Some((4800, 4800)));
    assert_eq!(b.last_quoted_market, Some(1));

    // Same ticks in the same market: nothing is sent.
    let m = evaluate(b.on_event(oracle(101.0)));
    let plan = b.on_decision(m, quote(48, 48));
    assert!(plan.cancel.is_empty() && plan.place.is_empty());
    assert_eq!(b.live_orders.len(), 2);

    // New ticks: the live orders are cancelled and the new quote placed.
    let plan = b.on_decision(m, quote(40, 55));
    assert_eq!(plan.cancel, vec!["a".to_string(), "b".to_string()]);
    assert_eq!(plan.place.len(), 2);
    assert!(b.live_orders.is_empty());
    assert_eq!(b.last_quoted_ticks, Some((4000, 5500)));
}

#[test]
fn one_sided_quote_records_zero_tick() {
    let mut b = Brain::new();
    b.on_event(oracle(100.0));
    let m = evaluate(b.on_event(round(2, "trading")));
    b.on_decision(m, quote(0, 30));
    assert_eq!(b.last_quoted_ticks, Some((0, 3000)));
}

#[test]
fn kill_cancels_all_live_orders() {
    let mut b = Brain::new();
    b.on_event(oracle(100.0));
    let m = evaluate(b.on_event(round(1, "trading")));
    b.on_decision(m, quote(48, 48));
    b.record_order("x".to_string());
    let plan = b.on_decision(m, Decision::Kill);
    assert_eq!(plan.cancel, vec!["x".to_string()]);
    assert!(plan.place.is_empty());
    assert!(b.live_orders.is_empty());
    assert_eq!(b.last_quoted_ticks, None);
    // A second kill has nothing to cancel.
    let plan = b.on_decision(m, Decision::Kill);
    assert!(plan.cancel.is_empty());
    // After a kill the same quote is placed again.
    let plan = b.on_decision(m, quote(48, 48));
    assert_eq!(plan.place.len(), 2);
    // Hold changes nothing.
    b.record_order("y".to_string());
    let plan = b.on_decision(m, Decision::Hold);
    assert!(plan.cancel.is_empty() && plan.place.is_empty());
    assert_eq!(b.live_orders, vec!["y".to_string()]);
}

#[test]
fn freeze_pulls_quotes() {
    let mut b = Brain::new();
    b.on_event(oracle(100.0));
    let m = evaluate(b.on_event(round(1, "trading")));
    b.on_decision(m, quote(48, 48));
    b.record_order("x".to_string());
    match b.on_event(round(1, "frozen")) {
        Reaction::Cancel(ids) => assert_eq!(ids, vec!["x".to_string()]),
        _ => panic!("expected Cancel"),
    }
    assert!(b.live_orders.is_empty());
    assert!(matches!(b.on_event(round(1, "frozen")), Reaction::Idle));
}

#[test]
fn market_change_drops_live_orders_without_cancel() {
    let mut b = Brain::new();
    b.on_event(oracle(100.0));
    let m = evaluate(b.on_event(round(1, "trading")));
    b.on_decision(m, quote(48, 48));
    b.record_order("x".to_string());
    // Settling the active market: the market is gone, its orders too.
    assert!(matches!(b.on_event(round(1, "settled")), Reaction::Idle));
    assert!(b.live_orders.is_empty());
    assert_eq!(b.last_quoted_market, None);
    // A new market is quoted afresh.
    let m = evaluate(b.on_event(round(2, "trading")));
    assert_eq!(m, 2);
    let plan = b.on_decision(m, quote(48, 48));
    assert!(plan.cancel.is_empty());
    assert_eq!(plan.place.len(), 2);
}

#[test]
fn switching_markets_directly_drops_live_orders() {
    let mut b = Brain::new();
    b.on_event(oracle(100.0));
    let m = evaluate(b.on_event(round(1, "trading")));
    b.on_decision(m, quote(48, 48));
    b.record_order("x".to_string());
    assert_eq!(evaluate(b.on_event(round(5, "trading"))), 5);
    assert!(b.live_orders.is_empty());
    assert_eq!(b.last_quoted_ticks, None);
}

#[test]
fn responses_record_order_ids() {
    let mut b = Brain::new();
    b.on_event(oracle(100.0));
    let m = evaluate(b.on_event(round(1, "trading")));
    b.on_decision(m, quote(48, 48));
    assert_eq!(b.record_response(true, r#"{"order_id":"o1"}"#).as_deref(), Some("o1"));
    assert_eq!(b.record_response(false, r#"{"order_id":"o2"}"#), None);
    assert_eq!(b.record_response(true, "not json"), None);
    assert_eq!(b.record_response(true, r#"{"status":"ok"}"#), None);
    assert_eq!(b.live_orders, vec!["o1".to_string()]);
}
