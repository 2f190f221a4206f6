//! Metrics events and the one-second windows that aggregate them.

use vstd::prelude::*;

verus! {

/// Which gateway component missed broadcast messages.
#[derive(Debug, Clone, Copy, PartialEq, Eq, Structural)]
pub enum LagSource {
    Aggregator,
    Client,
}

impl LagSource {
    /// The component's name in reports.
    pub fn as_str(self) -> (r: &'static str)
        ensures
            r@ == (match self {
                LagSource::Aggregator => "aggregator"@,
                LagSource::Client => "client"@,
            }),
    {
        match self {
            LagSource::Aggregator => "aggregator",
            LagSource::Client => "client",
        }
    }
}

/// A structured event for the metrics reporter.
#[derive(Debug, Clone, Copy, PartialEq, Eq, Structural)]
pub enum MetricsEvent {
    /// The generator published a cycle of ticks.
    TickBatch { generated: usize },
    /// The dispatcher forwarded a batch of this many symbols.
    GatewayBatch { symbols: usize },
    /// A broadcast receiver missed messages.
    GatewayLag { skipped: usize, component: LagSource },
    /// The aggregator dropped snapshots because the queue was full.
    GatewayBackpressure { dropped: usize },
}

/// `a + b`, held to the range of `usize`.
pub open spec fn sat_add(a: usize, b: usize) -> usize {
    if a + b > usize::MAX {
        usize::MAX
    } else {
        (a + b) as usize
    }
}

/// Lag seen from one component within a window.
#[derive(Debug, Clone, Copy, PartialEq, Eq, Structural)]
pub struct LagCounts {
    /// How many lag events came.
    pub events: usize,
    /// How many messages they skipped in all.
    pub skipped: usize,
}

/// The counters of one reporting window.
#[derive(Debug, Clone, Copy, PartialEq, Eq, Structural)]
pub struct MetricsWindow {
    pub tick_batches: usize,
    pub total_ticks: usize,
    pub gateway_batches: usize,
    pub gateway_symbols: usize,
    pub gateway_max_batch: usize,
    pub aggregator_lag: LagCounts,
    pub client_lag: LagCounts,
    pub dropped_batches: usize,
}

impl MetricsWindow {
    /// A window with every counter at zero.
    pub open spec fn spec_empty() -> MetricsWindow {
        MetricsWindow {
            tick_batches: 0,
            total_ticks: 0,
            gateway_batches: 0,
            gateway_symbols: 0,
            gateway_max_batch: 0,
            aggregator_lag: LagCounts { events: 0, skipped: 0 },
            client_lag: LagCounts { events: 0, skipped: 0 },
            dropped_batches: 0,
        }
    }

    pub fn new() -> (r: MetricsWindow)
        ensures
            r == MetricsWindow::spec_empty(),
    {
        MetricsWindow {
            tick_batches: 0,
            total_ticks: 0,
            gateway_batches: 0,
            gateway_symbols: 0,
            gateway_max_batch: 0,
            aggregator_lag: LagCounts { events: 0, skipped: 0 },
            client_lag: LagCounts { events: 0, skipped: 0 },
            dropped_batches: 0,
        }
    }

    /// The window after one event: counters add up, saturating, and the
    /// largest gateway batch is kept.
    pub open spec fn spec_record(self, event: MetricsEvent) -> MetricsWindow {
        match event {
            MetricsEvent::TickBatch { generated } => MetricsWindow {
                tick_batches: sat_add(self.tick_batches, 1),
                total_ticks: sat_add(self.total_ticks, generated),
                ..self
            },
            MetricsEvent::GatewayBatch { symbols } => MetricsWindow {
                gateway_batches: sat_add(self.gateway_batches, 1),
                gateway_symbols: sat_add(self.gateway_symbols, symbols),
                gateway_max_batch: if symbols > self.gateway_max_batch {
                    symbols
                } else {
                    self.gateway_max_batch
                },
                ..self
            },
            MetricsEvent::GatewayLag { skipped, component } => {
                let counts = match component {
                    LagSource::Aggregator => self.aggregator_lag,
                    LagSource::Client => self.client_lag,
                };
                let updated = LagCounts {
                    events: sat_add(counts.events, 1),
                    skipped: sat_add(counts.skipped, skipped),
                };
                match component {
                    LagSource::Aggregator => MetricsWindow { aggregator_lag: updated, ..self },
                    LagSource::Client => MetricsWindow { client_lag: updated, ..self },
                }
            },
            MetricsEvent::GatewayBackpressure { dropped } => MetricsWindow {
                dropped_batches: sat_add(self.dropped_batches, dropped),
                ..self
            },
        }
    }

    pub fn record(&mut self, event: MetricsEvent)
        ensures
            *final(self) == old(self).spec_record(event),
    {
        match event {
            MetricsEvent::TickBatch { generated } => {
                self.tick_batches = self.tick_batches.saturating_add(1);
                self.total_ticks = self.total_ticks.saturating_add(generated);
            },
            MetricsEvent::GatewayBatch { symbols } => {
                self.gateway_batches = self.gateway_batches.saturating_add(1);
                self.gateway_symbols = self.gateway_symbols.saturating_add(symbols);
                if symbols > self.gateway_max_batch {
                    self.gateway_max_batch = symbols;
                }
            },
            MetricsEvent::GatewayLag { skipped, component } => {
                match component {
                    LagSource::Aggregator => {
                        self.aggregator_lag = LagCounts {
                            events: self.aggregator_lag.events.saturating_add(1),
                            skipped: self.aggregator_lag.skipped.saturating_add(skipped),
                        };
                    },
                    LagSource::Client => {
                        self.client_lag = LagCounts {
                            events: self.client_lag.events.saturating_add(1),
                            skipped: self.client_lag.skipped.saturating_add(skipped),
                        };
                    },
                }
            },
            MetricsEvent::GatewayBackpressure { dropped } => {
                self.dropped_batches = self.dropped_batches.saturating_add(dropped);
            },
        }
    }

    /// Whether the window saw anything worth reporting.
    pub open spec fn spec_has_activity(self) -> bool {
        self.tick_batches > 0 || self.gateway_batches > 0 || self.aggregator_lag.events > 0
            || self.client_lag.events > 0 || self.dropped_batches > 0
    }

    /// Closes the window: hands out its counters if it saw anything, and
    /// starts the next window from zero either way.
    pub fn take_summary(&mut self) -> (r: Option<MetricsWindow>)
        ensures
            r == (if old(self).spec_has_activity() {
                Some(*old(self))
            } else {
                None
            }),
            *final(self) == MetricsWindow::spec_empty(),
    {
        let active = self.tick_batches > 0 || self.gateway_batches > 0 || self.aggregator_lag.events
            > 0 || self.client_lag.events > 0 || self.dropped_batches > 0;
        let summary = *self;
        *self = MetricsWindow::new();
        if active {
            Some(summary)
        } else {
            None
        }
    }
}

} // verus!
