use omnibook_quoter::feed::{
    message_kind, next_retry_delay, oracle_event, real_field, round_event, round_status, select_active_round,
    text_or_integer, unsigned_field, ActiveRound, FeedMessageKind, JsonScalar, OracleFields, RoundFields,
    RoundRecord,
};
use omnibook_quoter::models::MarketEvent;

fn text(s: &str) -> JsonScalar {
    let mut f = JsonScalar::absent();
    f.text = Some(s.to_string());
    f.text_number = s.parse::<f64>().ok().map(f64::to_bits);
    f
}

fn integer(n: i64) -> JsonScalar {
    let mut f = JsonScalar::absent();
    f.int = Some(n);
    f.uint = u64::try_from(n).ok();
    f.number = Some((n as f64).to_bits());
    f
}

fn number(x: f64) -> JsonScalar {
    let mut f = JsonScalar::absent();
    f.number = Some(x.to_bits());
    f
}

#[test]
fn field_readers() {
    assert_eq!(text_or_integer(&text("12")), "12");
    assert_eq!(text_or_integer(&integer(-34)), "-34");
    assert_eq!(text_or_integer(&JsonScalar::absent()), "");
    assert_eq!(unsigned_field(&text("1700000000000000000")), Some(1_700_000_000_000_000_000));
    assert_eq!(unsigned_field(&text("x")), None);
    assert_eq!(unsigned_field(&integer(5)), Some(5));
    assert_eq!(unsigned_field(&integer(-5)), None);
    assert_eq!(real_field(&text("7963860000000")), Some(7963860000000.0f64.to_bits()));
    assert_eq!(real_field(&number(2.5)), Some(2.5f64.to_bits()));
    assert_eq!(real_field(&text("abc")), None);
}

#[test]
fn message_kinds() {
    assert!(matches!(message_kind(&text("oracle")), FeedMessageKind::Oracle));
    assert!(matches!(message_kind(&text("rounds")), FeedMessageKind::Rounds));
    assert!(matches!(message_kind(&text("subscribed")), FeedMessageKind::Other));
    assert!(matches!(message_kind(&JsonScalar::absent()), FeedMessageKind::Other));
}

fn price_of(e: Option<MarketEvent>) -> Option<f64> {
    match e {
        Some(MarketEvent::OracleUpdate { price }) => Some(f64::from_bits(price)),
        Some(_) => panic!("expected an oracle update"),
        None => None,
    }
}

#[test]
fn oracle_price_fallbacks() {
    let f = OracleFields { price: text("7963860000000"), median: number(1.0) };
    assert_eq!(price_of(oracle_event(&f)), Some(7963860000000.0));
    let f = OracleFields { price: number(5.0), median: text("6") };
    assert_eq!(price_of(oracle_event(&f)), Some(5.0));
    let f = OracleFields { price: JsonScalar::absent(), median: text("6") };
    assert_eq!(price_of(oracle_event(&f)), Some(6.0));
    let f = OracleFields { price: text("n/a"), median: number(7.0) };
    assert_eq!(price_of(oracle_event(&f)), Some(7.0));
    let f = OracleFields { price: number(0.0), median: number(7.0) };
    assert_eq!(price_of(oracle_event(&f)), None);
    let f = OracleFields { price: JsonScalar::absent(), median: JsonScalar::absent() };
    assert_eq!(price_of(oracle_event(&f)), None);
}

#[test]
fn round_status_mapping() {
    assert_eq!(round_status("open"), "trading");
    assert_eq!(round_status("freeze"), "frozen");
    assert_eq!(round_status("settle"), "settled");
    assert_eq!(round_status("create"), "creating");
    assert_eq!(round_status("cancel"), "cancel");
}

#[test]
fn round_message_to_event() {
    let f = RoundFields {
        action: text("open"),
        market_id: integer(42),
        round_number: integer(7),
        strike: text("8000000000000"),
        freeze_ts: text("1700000060000000000"),
        open_ts: integer(1_700_000_000_000_000_000),
    };
    match round_event(&f) {
        Some(MarketEvent::RoundUpdate { market_id, round_number, status, strike_raw, freeze_ts, open_ts }) => {
            assert_eq!(market_id, 42);
            assert_eq!(round_number, "7");
            assert_eq!(status, "trading");
            assert_eq!(strike_raw, Some(8.0e12f64.to_bits()));
            assert_eq!(freeze_ts, Some(1_700_000_060_000_000_000));
            assert_eq!(open_ts, Some(1_700_000_000_000_000_000));
        },
        _ => panic!("expected a round update"),
    }
    let no_id = RoundFields {
        action: text("open"),
        market_id: JsonScalar::absent(),
        round_number: integer(7),
        strike: JsonScalar::absent(),
        freeze_ts: JsonScalar::absent(),
        open_ts: JsonScalar::absent(),
    };
    assert!(round_event(&no_id).is_none());
    let unknown = RoundFields {
        action: JsonScalar::absent(),
        market_id: integer(1),
        round_number: JsonScalar::absent(),
        strike: JsonScalar::absent(),
        freeze_ts: JsonScalar::absent(),
        open_ts: JsonScalar::absent(),
    };
    match round_event(&unknown) {
        Some(MarketEvent::RoundUpdate { status, round_number, strike_raw, freeze_ts, open_ts, .. }) => {
            assert_eq!(status, "unknown");
            assert_eq!(round_number, "");
            assert_eq!((strike_raw, freeze_ts, open_ts), (None, None, None));
        },
        _ => panic!("expected a round update"),
    }
}

fn record(status: &str, id: Option<i64>, strike: Option<&str>, open: Option<&str>) -> RoundRecord {
    RoundRecord {
        status: text(status),
        market_id: id.map(integer).unwrap_or_else(JsonScalar::absent),
        round_number: text("r"),
        strike: strike.map(text).unwrap_or_else(JsonScalar::absent),
        open_ts: open.map(text).unwrap_or_else(JsonScalar::absent),
    }
}

#[test]
fn active_round_is_first_trading_entry() {
    let rounds = vec![
        record("settled", Some(1), Some("1"), Some("1")),
        record("trading", Some(2), Some("8000"), Some("99")),
        record("trading", Some(3), Some("9000"), Some("100")),
    ];
    let a = select_active_round(&rounds).expect("a trading round");
    assert_eq!((a.market_id, a.round_number.as_str(), a.strike_raw, a.open_ts), (2, "r", 8000.0f64.to_bits(), 99));

    // Missing open time defaults to 0.
    let a = select_active_round(&vec![record("trading", Some(4), Some("1"), None)]).unwrap();
    assert_eq!(a.open_ts, 0);

    // The first trading entry must carry its market id and strike; later entries are not tried.
    assert!(select_active_round(&vec![record("trading", None, Some("1"), None), record("trading", Some(5), Some("1"), None)]).is_none());
    assert!(select_active_round(&vec![record("trading", Some(5), None, None)]).is_none());
    assert!(select_active_round(&vec![record("frozen", Some(5), Some("1"), None)]).is_none());
    assert!(select_active_round(&vec![]).is_none());
}

#[test]
fn refresh_event_sets_freeze_one_minute_after_open() {
    let a = ActiveRound { market_id: 8, round_number: "12".to_string(), strike_raw: 3.0f64.to_bits(), open_ts: 1_000 };
    match a.refresh_event() {
        MarketEvent::RoundUpdate { market_id, round_number, status, strike_raw, freeze_ts, open_ts } => {
            assert_eq!(market_id, 8);
            assert_eq!(round_number, "12");
            assert_eq!(status, "trading");
            assert_eq!(strike_raw, Some(3.0f64.to_bits()));
            assert_eq!(freeze_ts, Some(60_000_001_000));
            assert_eq!(open_ts, Some(1_000));
        },
        _ => panic!("expected a round update"),
    }
}

#[test]
fn retry_delays_double_up_to_thirty_seconds() {
    let mut d = 1;
    let mut seen = vec![d];
    for _ in 0..7 {
        d = next_retry_delay(d);
        seen.push(d);
    }
    assert_eq!(seen, vec![1, 2, 4, 8, 16, 30, 30, 30]);
    assert_eq!(next_retry_delay(0), 0);
}

use omnibook_quoter::feed::{frame_event, order_id_of, parse_frame, ReconnectBackoff, StringReadings};

fn readings_of(text: &str) -> StringReadings {
    let f = parse_frame(text).expect("JSON");
    let read = |s: &JsonScalar| s.text.as_deref().and_then(|t| t.parse::<f64>().ok()).map(f64::to_bits);
    StringReadings { price: read(&f.price), median: read(&f.median), strike: read(&f.strike) }
}

#[test]
fn frame_fields_are_read() {
    let f = parse_frame(r#"{"type":"rounds","msg":{"action":"open","market_id":42,"round_number":"7","strike":"8000","freeze_ts":12,"open_ts":"3"}}"#)
        .expect("JSON");
    assert_eq!(f.type_field.text.as_deref(), Some("rounds"));
    assert_eq!(f.action.text.as_deref(), Some("open"));
    assert_eq!(f.market_id.int, Some(42));
    assert_eq!(f.market_id.uint, Some(42));
    assert_eq!(f.market_id.number, Some(42.0f64.to_bits()));
    assert_eq!(f.round_number.text.as_deref(), Some("7"));
    assert_eq!(f.strike.text_number, None);
    assert_eq!(f.freeze_ts.uint, Some(12));
    assert!(f.price.text.is_none() && f.price.int.is_none() && f.price.number.is_none());
    assert!(parse_frame("not json").is_none());
    // A frame that is not an object has no fields.
    let g = parse_frame("5").expect("JSON");
    assert!(g.type_field.text.is_none() && g.type_field.int.is_none());
}

#[test]
fn oracle_frame_to_event() {
    let text = r#"{"type":"oracle","msg":{"price":"7963860000000"}}"#;
    assert_eq!(price_of(frame_event(text, &readings_of(text))), Some(7963860000000.0));
    let text = r#"{"type":"oracle","msg":{"median":7.5}}"#;
    assert_eq!(price_of(frame_event(text, &readings_of(text))), Some(7.5));
    let text = r#"{"type":"oracle","msg":{"price":"0"}}"#;
    assert_eq!(price_of(frame_event(text, &readings_of(text))), None);
    // A reading handed in for a field that is not a string does not count.
    let text = r#"{"type":"oracle","msg":{"price":3}}"#;
    let r = StringReadings { price: Some(9.0f64.to_bits()), median: None, strike: None };
    assert_eq!(price_of(frame_event(text, &r)), Some(3.0));
}

#[test]
fn round_and_other_frames_to_events() {
    let text = r#"{"type":"rounds","msg":{"action":"freeze","market_id":42,"round_number":7,"strike":"8000"}}"#;
    match frame_event(text, &readings_of(text)) {
        Some(MarketEvent::RoundUpdate { market_id, round_number, status, strike_raw, .. }) => {
            assert_eq!((market_id, round_number.as_str(), status.as_str()), (42, "7", "frozen"));
            assert_eq!(strike_raw, Some(8000.0f64.to_bits()));
        },
        _ => panic!("expected a round update"),
    }
    let text = r#"{"type":"subscribed","msg":{"price":"5"}}"#;
    assert!(frame_event(text, &readings_of(text)).is_none());
    let none = StringReadings { price: None, median: None, strike: None };
    assert!(frame_event("{", &none).is_none());
}

#[test]
fn order_ids_of_responses() {
    assert_eq!(order_id_of(r#"{"order_id":"abc-1"}"#).as_deref(), Some("abc-1"));
    assert_eq!(order_id_of(r#"{"order_id":12}"#), None);
    assert_eq!(order_id_of(r#"{"id":"x"}"#), None);
    assert_eq!(order_id_of("oops"), None);
}

#[test]
fn backoff_waits_and_resets() {
    let mut b = ReconnectBackoff::new();
    let waits: Vec<u64> = (0..8).map(|_| b.next_wait()).collect();
    assert_eq!(waits, vec![1, 2, 4, 8, 16, 30, 30, 30]);
    b.reset();
    assert_eq!(b.next_wait(), 1);
    assert_eq!(b.next_wait(), 2);
}

use omnibook_quoter::feed::frame_fields_event;

#[test]
fn parsed_frame_fields_to_event() {
    let text = r#"{"type":"oracle","msg":{"price":"12.5"}}"#;
    let readings = readings_of(text);
    let fields = parse_frame(text).expect("JSON");
    assert_eq!(price_of(frame_fields_event(fields, &readings)), Some(12.5));
    let fields = parse_frame(r#"{"type":"rounds","msg":{"action":"settle"}}"#).expect("JSON");
    assert!(frame_fields_event(fields, &StringReadings { price: None, median: None, strike: None }).is_none());
}
