use rust_market_data::store::TickStore;

/// A tick as (price, timestamp) and its history point as (timestamp, price).
type Store = TickStore<(f64, u64), (u64, f64)>;

fn sample_tick(symbol: &str, price: f64, timestamp_ms: u64) -> (String, (f64, u64), (u64, f64)) {
    (symbol.to_string(), (price, timestamp_ms), (timestamp_ms, price))
}

fn ingest(store: &mut Store, symbol: &str, price: f64, timestamp_ms: u64) {
    let (s, t, p) = sample_tick(symbol, price, timestamp_ms);
    store.ingest(s, t, p);
}

#[test]
fn maintains_latest_per_symbol() {
    let mut store = Store::new(4);
    ingest(&mut store, "AAA", 10.0, 1);
    ingest(&mut store, "AAA", 11.0, 2);
    ingest(&mut store, "BBB", 9.5, 3);

    assert_eq!(store.len(), 2);
    assert_eq!(store.latest_for("AAA").unwrap().0, 11.0);
}

#[test]
fn trims_history_bound() {
    let mut store = Store::new(2);
    ingest(&mut store, "AAA", 10.0, 1);
    ingest(&mut store, "AAA", 11.0, 2);
    ingest(&mut store, "AAA", 12.0, 3);

    let history = store.history_for("AAA").unwrap();
    assert_eq!(history.len(), 2);
    assert_eq!(history.front().unwrap().1, 11.0);
    assert_eq!(history.back().unwrap().1, 12.0);
}

#[test]
fn batch_ingest_updates_multiple_symbols() {
    let mut store = Store::new(4);
    store.ingest_batch(vec![
        sample_tick("AAA", 10.0, 1),
        sample_tick("BBB", 20.0, 1),
        sample_tick("AAA", 11.0, 2),
    ]);

    assert_eq!(store.len(), 2);
    assert_eq!(store.latest_for("AAA").unwrap().0, 11.0);
    assert_eq!(store.latest_for("BBB").unwrap().0, 20.0);
}

#[test]
fn store_keeps_first_seen_order_and_clears() {
    let mut store = Store::new(3);
    ingest(&mut store, "CCC", 30.0, 1);
    ingest(&mut store, "AAA", 10.0, 2);
    ingest(&mut store, "CCC", 39.0, 3);
    let (symbol, tick, history) = store.entry_at(0).unwrap();
    assert_eq!(symbol, "CCC");
    assert_eq!(tick.0, 39.0);
    assert_eq!(history.len(), 2);
    assert_eq!(store.entry_at(1).unwrap().0, "AAA");
    assert!(store.entry_at(2).is_none());
    assert!(store.latest_for("ZZZ").is_none());
    assert!(store.history_for("ZZZ").is_none());

    store.clear();
    assert!(store.is_empty());
    assert!(store.latest_for("CCC").is_none());
}

#[test]
fn zero_history_keeps_latest_only() {
    let mut store = Store::new(0);
    ingest(&mut store, "AAA", 10.0, 1);
    assert_eq!(store.latest_for("AAA").unwrap().0, 10.0);
    assert!(store.history_for("AAA").unwrap().is_empty());
}
