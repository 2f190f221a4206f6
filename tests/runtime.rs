use rust_market_data::correlation::{updater_step, UpdaterAction, UpdaterEvent};
use rust_market_data::config::{ConfigError, SimulatorConfig};
use rust_market_data::generator::{TickBudget, TimestampSequencer};
use rust_market_data::lifecycle::{respond_to_signal, OsSignal, ShutdownSignal};
use rust_market_data::transport::{is_disconnect, WriteFailure};

#[test]
fn timestamps_increase_within_and_across_cycles() {
    let mut seq = TimestampSequencer::new();
    let a = seq.stamp_cycle(1_716_400_005_000, 3);
    assert_eq!(a, vec![1_716_400_005_000, 1_716_400_005_001, 1_716_400_005_002]);
    let b = seq.stamp_cycle(1_716_400_005_008, 2);
    assert_eq!(b, vec![1_716_400_005_008, 1_716_400_005_009]);
}

#[test]
fn timestamps_do_not_go_back_with_the_clock() {
    let mut seq = TimestampSequencer::new();
    let a = seq.stamp_cycle(1000, 500);
    assert_eq!(a[499], 1499);
    let b = seq.stamp_cycle(1008, 2);
    assert_eq!(b, vec![1500, 1501]);
    let c = seq.stamp_cycle(900, 1);
    assert_eq!(c, vec![1502]);
    assert!(seq.stamp_cycle(5000, 0).is_empty());
    assert_eq!(seq.stamp_cycle(10, 1), vec![1503]);
}

#[test]
fn timestamps_saturate_at_the_top() {
    let mut seq = TimestampSequencer::new();
    let a = seq.stamp_cycle(u128::MAX - 1, 3);
    assert_eq!(a, vec![u128::MAX - 1, u128::MAX, u128::MAX]);
}

#[test]
fn budget_stops_at_cap() {
    let mut budget = TickBudget::new(Some(1000));
    assert!(!budget.record_cycle(500));
    assert!(budget.record_cycle(500));
    assert_eq!(budget.emitted, 1000);

    let mut budget = TickBudget::new(Some(50_000));
    let mut cycles = 0;
    while !budget.record_cycle(500) {
        cycles += 1;
    }
    assert_eq!(cycles + 1, 100);

    let mut unlimited = TickBudget::new(None);
    assert!(!unlimited.record_cycle(usize::MAX));
    assert!(!unlimited.record_cycle(1));
    assert_eq!(unlimited.emitted, usize::MAX);
}

#[test]
fn signals_drive_the_shutdown_state() {
    let r = respond_to_signal(ShutdownSignal::Running, OsSignal::Terminate);
    assert_eq!(r.publish, Some(ShutdownSignal::Graceful));
    assert!(r.keep_listening);
    assert!(!r.reload);

    let r = respond_to_signal(ShutdownSignal::Graceful, OsSignal::Interrupt);
    assert_eq!(r.publish, Some(ShutdownSignal::Immediate));
    assert!(!r.keep_listening);

    let r = respond_to_signal(ShutdownSignal::Running, OsSignal::Hangup);
    assert_eq!(r.publish, None);
    assert!(r.reload);
    assert!(r.keep_listening);

    let r = respond_to_signal(ShutdownSignal::Immediate, OsSignal::Terminate);
    assert_eq!(r.publish, Some(ShutdownSignal::Immediate));
}

#[test]
fn shutdown_never_softens() {
    assert_eq!(ShutdownSignal::Immediate.escalate(ShutdownSignal::Graceful), ShutdownSignal::Immediate);
    assert_eq!(ShutdownSignal::Graceful.escalate(ShutdownSignal::Running), ShutdownSignal::Graceful);
    assert_eq!(ShutdownSignal::Running.escalate(ShutdownSignal::Graceful), ShutdownSignal::Graceful);
    assert!(!ShutdownSignal::Running.requests_stop());
    assert!(ShutdownSignal::Graceful.requests_stop());
    assert!(ShutdownSignal::Immediate.requests_stop());
}

#[test]
fn default_config_matches_documented_values() {
    let c = SimulatorConfig::default();
    assert_eq!(c.socket_path, "market_ticks.sock");
    assert_eq!(c.tick_interval_us, 8_000);
    assert_eq!(c.correlation_refresh_ms, 30_000);
    assert_eq!(c.gateway_addr, "127.0.0.1:9001");
    assert_eq!(c.gateway_throttle_ms, 1_000);
    assert_eq!(c.queue_depth, 64);
    assert_eq!(c.max_ticks, None);
    assert!(c.enable_socket);
    assert_eq!(c.validate(), Ok(()));
    assert_eq!(c.batch_channel_capacity(), 128);
}

#[test]
fn config_errors() {
    let mut c = SimulatorConfig::default();
    c.socket_path = String::new();
    assert_eq!(c.validate(), Err(ConfigError::InvalidSocketPath));
    c.enable_socket = false;
    assert_eq!(c.validate(), Ok(()));
    c.tick_interval_us = 0;
    assert_eq!(c.validate(), Err(ConfigError::ZeroTickInterval));
    c.tick_interval_us = 1;
    c.gateway_throttle_ms = 0;
    assert_eq!(c.validate(), Err(ConfigError::ZeroThrottle));
    c.gateway_throttle_ms = 1000;
    c.queue_depth = 0;
    assert_eq!(c.validate(), Err(ConfigError::InvalidQueueDepth));
    c.queue_depth = usize::MAX;
    assert_eq!(c.validate(), Err(ConfigError::InvalidQueueDepth));
}

#[test]
fn disconnects_end_sessions_quietly() {
    assert!(is_disconnect(WriteFailure::BrokenPipe));
    assert!(is_disconnect(WriteFailure::ConnectionReset));
    assert!(is_disconnect(WriteFailure::ConnectionAborted));
    assert!(!is_disconnect(WriteFailure::Other));
}

#[test]
fn correlation_updater_decisions() {
    assert_eq!(updater_step(UpdaterEvent::RefreshDue), UpdaterAction::Refresh);
    assert_eq!(updater_step(UpdaterEvent::Reload), UpdaterAction::Rebuild);
    assert_eq!(updater_step(UpdaterEvent::ReloadLagged), UpdaterAction::Wait);
    assert_eq!(updater_step(UpdaterEvent::ReloadClosed), UpdaterAction::Stop);
    assert_eq!(
        updater_step(UpdaterEvent::ShutdownChanged(ShutdownSignal::Running)),
        UpdaterAction::Wait
    );
    assert_eq!(
        updater_step(UpdaterEvent::ShutdownChanged(ShutdownSignal::Graceful)),
        UpdaterAction::Stop
    );
}
