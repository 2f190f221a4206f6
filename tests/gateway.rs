use rust_market_data::gateway::{
    AggregatorReaction, BatchAccumulator, ClientSink, GatewayAggregator, QueueOffer, RateTracker,
    TICK_BATCH_VERSION,
};
use rust_market_data::metrics::{LagSource, MetricsEvent, MetricsWindow};

#[test]
fn accumulator_snapshot_sorts_symbols() {
    let mut accumulator: BatchAccumulator<(String, u128)> = BatchAccumulator::new();
    accumulator.ingest("B".into(), ("B".to_string(), 1));
    accumulator.ingest("A".into(), ("A".to_string(), 2));

    let snapshot = accumulator.snapshot();
    let symbols: Vec<_> = snapshot.iter().map(|tick| tick.0.as_str()).collect();
    assert_eq!(symbols, vec!["A", "B"]);
}

#[test]
fn accumulator_keeps_latest_per_symbol() {
    let mut acc: BatchAccumulator<u32> = BatchAccumulator::new();
    assert!(acc.is_empty());
    acc.ingest("NATECH001".into(), 1);
    acc.ingest("EUFIN003".into(), 2);
    acc.ingest("NATECH001".into(), 3);
    acc.ingest("APHLT000".into(), 4);
    acc.ingest("EUFIN003".into(), 5);
    assert_eq!(acc.len(), 3);
    assert!(!acc.is_empty());
    assert_eq!(acc.snapshot(), vec![4, 5, 3]);
}

#[test]
fn accumulator_orders_prefixes_first() {
    let mut acc: BatchAccumulator<u32> = BatchAccumulator::new();
    acc.ingest("AB".into(), 1);
    acc.ingest("A".into(), 2);
    acc.ingest("".into(), 3);
    acc.ingest("B".into(), 4);
    acc.ingest("AA".into(), 5);
    assert_eq!(acc.snapshot(), vec![3, 2, 5, 1, 4]);
}

#[test]
fn accumulator_over_default_universe_lists_each_symbol_once_sorted() {
    let equities = rust_market_data::model::default_equities();
    let mut acc: BatchAccumulator<String> = BatchAccumulator::new();
    for round in 0..2 {
        for e in equities.iter().rev() {
            acc.ingest(e.symbol.clone(), format!("{}#{}", e.symbol, round));
        }
    }
    let batch = acc.snapshot();
    assert_eq!(batch.len(), 500);
    for pair in batch.windows(2) {
        assert!(pair[0] < pair[1]);
    }
    assert!(batch.iter().all(|s| s.ends_with("#1")));
}

#[test]
fn rate_tracker_reports_once_per_window() {
    let mut t = RateTracker::new(1000);
    assert_eq!(t.record(3, 10), None);
    assert_eq!(t.record(5, 500), None);
    assert_eq!(t.record(2, 1010), Some((10, 5)));
    assert_eq!(t.total, 0);
    assert_eq!(t.record(1, 1500), None);
    assert_eq!(t.flush(1600), Some((1, 1)));
    assert_eq!(t.flush(1700), None);
    assert_eq!(t.last_emit_ms, Some(1600));
}

#[test]
fn rate_tracker_total_saturates() {
    let mut t = RateTracker::new(0);
    assert_eq!(t.record(usize::MAX, 0), None);
    assert_eq!(t.record(7, 0), Some((usize::MAX, usize::MAX)));
}

#[test]
fn full_queue_drops_and_reports() {
    let mut agg: GatewayAggregator<u8> = GatewayAggregator::new();
    assert!(agg.on_throttle().is_none());
    agg.on_tick("B".into(), 2);
    agg.on_tick("A".into(), 1);
    assert_eq!(agg.on_throttle(), Some(vec![1, 2]));

    let r: AggregatorReaction = agg.on_offer(QueueOffer::Full, 100);
    assert!(r.keep_running);
    assert_eq!(r.report, Some(MetricsEvent::GatewayBackpressure { dropped: 1 }));
    assert_eq!(r.warning, None);
    let r = agg.on_offer(QueueOffer::Full, 1200);
    assert_eq!(r.warning, Some((2, 1)));

    let mut window = MetricsWindow::new();
    window.record(r.report.unwrap());
    assert!(window.dropped_batches > 0);

    let r = agg.on_offer(QueueOffer::Accepted, 1300);
    assert!(r.keep_running);
    assert_eq!(r.report, None);
    let r = agg.on_offer(QueueOffer::Closed, 1400);
    assert!(!r.keep_running);
}

#[test]
fn aggregator_lag_is_reported_and_flushed() {
    let mut agg: GatewayAggregator<u8> = GatewayAggregator::new();
    let r = agg.on_lag(12, 0);
    assert_eq!(
        r.report,
        Some(MetricsEvent::GatewayLag { skipped: 12, component: LagSource::Aggregator })
    );
    agg.on_offer(QueueOffer::Full, 0);
    assert_eq!(agg.finish(50), (Some((12, 12)), Some((1, 1))));
    assert_eq!(agg.finish(60), (None, None));
}

#[test]
fn client_sink_skips_empty_batches() {
    let mut sink = ClientSink::new();
    assert!(!sink.forwards(0));
    assert!(sink.forwards(400));
    let (event, warning) = sink.on_lag(3, 5);
    assert_eq!(event, MetricsEvent::GatewayLag { skipped: 3, component: LagSource::Client });
    assert_eq!(warning, None);
    assert_eq!(TICK_BATCH_VERSION, 1);
}

#[test]
fn metrics_window_sums_and_resets() {
    let mut w = MetricsWindow::new();
    assert_eq!(w.take_summary(), None);
    w.record(MetricsEvent::TickBatch { generated: 500 });
    w.record(MetricsEvent::TickBatch { generated: 500 });
    w.record(MetricsEvent::GatewayBatch { symbols: 420 });
    w.record(MetricsEvent::GatewayBatch { symbols: 480 });
    w.record(MetricsEvent::GatewayLag { skipped: 4, component: LagSource::Client });
    w.record(MetricsEvent::GatewayLag { skipped: 6, component: LagSource::Client });
    let s = w.take_summary().unwrap();
    assert_eq!(s.tick_batches, 2);
    assert_eq!(s.total_ticks, 1000);
    assert_eq!(s.gateway_batches, 2);
    assert_eq!(s.gateway_symbols, 900);
    assert_eq!(s.gateway_max_batch, 480);
    assert_eq!(s.client_lag.events, 2);
    assert_eq!(s.client_lag.skipped, 10);
    assert_eq!(s.aggregator_lag.events, 0);
    assert_eq!(w, MetricsWindow::new());
    assert_eq!(LagSource::Aggregator.as_str(), "aggregator");
}
