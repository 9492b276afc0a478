use cellar_rebalancer::error::{Error, ErrorKind};
use cellar_rebalancer::time_range::{MongoData, TickWeight, TimeRange, TokenInfo};
use cellar_rebalancer::wide::Uint256;

fn tw(lower: i32, upper: i32, weight: u32) -> TickWeight {
    TickWeight { upper_bound: upper, lower_bound: lower, weight }
}

fn window() -> TimeRange {
    TimeRange::new(
        Some(100),
        None,
        Uint256::from_u128(5),
        100,
        vec![tw(0, 60, 10)],
        TokenInfo::default(),
        TokenInfo::default(),
        "mongodb://localhost".to_string(),
    )
}

fn record(ts: Option<i64>, pair: u128, ranges: Vec<TickWeight>) -> MongoData {
    MongoData {
        created_timestamp: ts,
        pair_id: Uint256::from_u128(pair),
        symbol: "ETHUSDC".to_string(),
        tick_weights: ranges,
    }
}

#[test]
fn empty_store_leaves_window_unchanged() {
    let mut w = window();
    assert!(w.poll(None).is_ok());
    assert_eq!(w.time, Some(100));
    assert_eq!(w.previous_update, None);
    assert_eq!(w.tick_weights, vec![tw(0, 60, 10)]);
}

#[test]
fn record_replaces_ranges_and_shifts_time() {
    let mut w = window();
    let ranges = vec![tw(120, 180, 3), tw(-60, 0, 0), tw(0, 60, 7)];
    assert!(w.poll(Some(record(Some(200), 5, ranges.clone()))).is_ok());
    assert_eq!(w.time, Some(200));
    assert_eq!(w.previous_update, Some(100));
    assert_eq!(w.tick_weights, ranges);
    assert_eq!(w.pair_id, Uint256::from_u128(5));
}

#[test]
fn same_record_gives_same_ranges() {
    let mut a = window();
    let mut b = window();
    let ranges = vec![tw(-5, 5, 1), tw(5, 15, 2)];
    a.poll(Some(record(Some(300), 5, ranges.clone()))).unwrap();
    b.poll(Some(record(Some(300), 5, ranges.clone()))).unwrap();
    assert_eq!(a.tick_weights, b.tick_weights);
    assert_eq!(a.time, b.time);
}

fn assert_malformed(r: Result<(), Error>) {
    match r {
        Err(e) => assert_eq!(e.kind, ErrorKind::Malformed),
        Ok(()) => panic!("expected an error"),
    }
}

#[test]
fn unreadable_timestamp_is_malformed() {
    let mut w = window();
    assert_malformed(w.poll(Some(record(None, 5, vec![tw(0, 1, 1)]))));
    assert_eq!(w.time, Some(100));
    assert_eq!(w.tick_weights, vec![tw(0, 60, 10)]);
}

#[test]
fn inverted_range_is_malformed() {
    let mut w = window();
    assert_malformed(w.poll(Some(record(Some(200), 5, vec![tw(0, 60, 1), tw(61, 60, 1)]))));
    assert_eq!(w.time, Some(100));
    assert_eq!(w.previous_update, None);
}

#[test]
fn record_for_other_pair_is_malformed() {
    let mut w = window();
    assert_malformed(w.poll(Some(record(Some(200), 6, vec![tw(0, 60, 1)]))));
    assert_eq!(w.pair_id, Uint256::from_u128(5));
    assert_eq!(w.tick_weights, vec![tw(0, 60, 10)]);
}

#[test]
fn default_window() {
    let w = TimeRange::default();
    assert_eq!(w.time, None);
    assert_eq!(w.previous_update, None);
    assert!(w.pair_id.is_zero());
    assert_eq!(w.weight_factor, 100);
    assert!(w.tick_weights.is_empty());
    assert_eq!(w.monogo_uri, "mongodb://localhost:27017/?directconnection=true");
    assert_eq!(w.token_info.0.decimals, 0);
    assert_eq!(w.token_info.1.address, [0u8; 20]);
}

#[test]
fn clone_keeps_everything() {
    let w = window();
    let c = w.clone();
    assert_eq!(c.time, w.time);
    assert_eq!(c.tick_weights, w.tick_weights);
    assert_eq!(c.monogo_uri, w.monogo_uri);
    assert_eq!(c.pair_id, w.pair_id);
}

#[test]
fn error_kind_descriptions() {
    assert_eq!(ErrorKind::Config.description(), "config error");
    assert_eq!(ErrorKind::GasOracle.description(), "gas error");
    assert_eq!(ErrorKind::MiscError.description(), "allocation error");
    assert_eq!(ErrorKind::Malformed.description(), "malformed data");
}

#[test]
fn error_context_keeps_kind_and_source() {
    let e = ErrorKind::Http.context("503".to_string());
    assert_eq!(e.kind(), ErrorKind::Http);
    assert_eq!(e.source, Some("503".to_string()));
    let m = Error::from_message("boom".to_string());
    assert_eq!(m.kind, ErrorKind::MiscError);
    assert_eq!(Error::from_kind(ErrorKind::Io).source, None);
}

#[test]
fn wide_integers() {
    assert!(Uint256::zero().is_zero());
    assert!(!Uint256::from_u128(1).is_zero());
    assert!(!Uint256 { hi: 1, lo: 0 }.is_zero());
}
