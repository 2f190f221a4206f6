//! The gateway's batching fabric: the accumulator that keeps the latest
//! item per symbol, the decisions of the aggregator and of each client
//! sink, and the rate-limited reporting of lag and drops.

use vstd::prelude::*;

use crate::metrics::{LagSource, MetricsEvent, MetricsWindow};
use crate::model::{default_symbol, lemma_default_symbols_distinct};
use crate::text::{
    chars_before, lemma_chars_before_irreflexive, lemma_chars_before_total,
    lemma_chars_before_transitive, text_before, text_equals,
};

verus! {

/// The version that every websocket batch payload carries.
pub const TICK_BATCH_VERSION: u32 = 1;

/// Each symbol orders strictly before every later one.
pub open spec fn symbols_ascending(symbols: Seq<Seq<char>>) -> bool {
    forall|i: int, j: int| 0 <= i < j < symbols.len() ==> chars_before(symbols[i], symbols[j])
}

/// In a batch whose symbols ascend, no symbol appears twice.
pub proof fn lemma_ascending_symbols_are_distinct(symbols: Seq<Seq<char>>)
    requires
        symbols_ascending(symbols),
    ensures
        forall|i: int, j: int| 0 <= i < symbols.len() && 0 <= j < symbols.len() && i != j ==> symbols[i] != symbols[j],
{
    assert forall|i: int, j: int| 0 <= i < symbols.len() && 0 <= j < symbols.len() && i != j implies symbols[i] != symbols[j] by {
        lemma_chars_before_irreflexive(symbols[i]);
    }
}

/// `after` is `before` with `item` recorded as the latest for `symbol`:
/// the entry for `symbol` is replaced and every other entry is kept.
pub open spec fn ingest_relation<T>(
    before: Seq<(Seq<char>, T)>,
    symbol: Seq<char>,
    item: T,
    after: Seq<(Seq<char>, T)>,
) -> bool {
    &&& after.contains((symbol, item))
    &&& forall|e: (Seq<char>, T)| #[trigger] before.contains(e) && e.0 != symbol ==> after.contains(e)
    &&& forall|e: (Seq<char>, T)|
        #[trigger] after.contains(e) ==> e == (symbol, item) || (before.contains(e) && e.0 != symbol)
}

/// Some entry of `entries` is for `symbol`.
pub open spec fn holds_symbol<T>(entries: Seq<(Seq<char>, T)>, symbol: Seq<char>) -> bool {
    exists|i: int| 0 <= i < entries.len() && (#[trigger] entries[i]).0 == symbol
}

proof fn lemma_ingest_keeps_symbols<T>(
    before: Seq<(Seq<char>, T)>,
    symbol: Seq<char>,
    item: T,
    after: Seq<(Seq<char>, T)>,
    held: Seq<char>,
)
    requires
        ingest_relation(before, symbol, item, after),
        holds_symbol(before, held) || held == symbol,
    ensures
        holds_symbol(after, held),
{
    if held == symbol {
        let i = choose|i: int| 0 <= i < after.len() && after[i] == (symbol, item);
        assert(after[i].0 == held);
    } else {
        let i = choose|i: int| 0 <= i < before.len() && (#[trigger] before[i]).0 == held;
        assert(before.contains(before[i]));
        let j = choose|j: int| 0 <= j < after.len() && after[j] == before[i];
        assert(after[j].0 == held);
    }
}

/// After a run of ingests, every symbol that the run carried is held: a
/// symbol, once seen, stays in every later batch.
pub proof fn lemma_run_holds_every_symbol<T>(states: Seq<Seq<(Seq<char>, T)>>, run: Seq<(Seq<char>, T)>)
    requires
        states.len() == run.len() + 1,
        forall|k: int|
            0 <= k < run.len() ==> ingest_relation(states[k], run[k].0, run[k].1, #[trigger] states[k + 1]),
    ensures
        forall|k: int| 0 <= k < run.len() ==> holds_symbol(states.last(), (#[trigger] run[k]).0),
    decreases run.len(),
{
    if run.len() > 0 {
        let n = run.len() - 1;
        let states0 = states.drop_last();
        let run0 = run.drop_last();
        assert forall|k: int| 0 <= k < run0.len() implies ingest_relation(
            states0[k],
            run0[k].0,
            run0[k].1,
            #[trigger] states0[k + 1],
        ) by {
            assert(ingest_relation(states[k], run[k].0, run[k].1, states[k + 1]));
        }
        lemma_run_holds_every_symbol(states0, run0);
        assert(ingest_relation(states[n], run[n].0, run[n].1, states[n + 1]));
        assert forall|k: int| 0 <= k < run.len() implies holds_symbol(states.last(), (#[trigger] run[k]).0) by {
            if k < n {
                assert(run0[k] == run[k]);
                assert(states0.last() == states[n]);
                lemma_ingest_keeps_symbols(states[n], run[n].0, run[n].1, states[n + 1], run[k].0);
            } else {
                lemma_ingest_keeps_symbols(states[n], run[n].0, run[n].1, states[n + 1], run[k].0);
            }
        }
    }
}

/// A batch taken after a run that carried every symbol of the default
/// universe lists at least those 500 symbols.
pub proof fn lemma_full_cycle_batch_size<T>(states: Seq<Seq<(Seq<char>, T)>>, run: Seq<(Seq<char>, T)>)
    requires
        states.len() == run.len() + 1,
        forall|k: int|
            0 <= k < run.len() ==> ingest_relation(states[k], run[k].0, run[k].1, #[trigger] states[k + 1]),
        symbols_ascending(states.last().map_values(|e: (Seq<char>, T)| e.0)),
        forall|k: int|
            0 <= k < 500 ==> exists|j: int| 0 <= j < run.len() && (#[trigger] run[j]).0 == #[trigger] default_symbol(k),
    ensures
        states.last().len() >= 500,
{
    lemma_run_holds_every_symbol(states, run);
    let last = states.last();
    let keys = last.map_values(|e: (Seq<char>, T)| e.0);
    let defaults = Seq::new(500, |k: int| default_symbol(k));
    assert forall|i: int, j: int| 0 <= i < defaults.len() && 0 <= j < defaults.len() && i != j implies defaults[i]
        != defaults[j] by {
        lemma_default_symbols_distinct(i, j);
    }
    lemma_ascending_symbols_are_distinct(keys);
    defaults.unique_seq_to_set();
    keys.unique_seq_to_set();
    assert forall|x: Seq<char>| defaults.to_set().contains(x) implies keys.to_set().contains(x) by {
        let k = choose|k: int| 0 <= k < defaults.len() && defaults[k] == x;
        let j = choose|j: int| 0 <= j < run.len() && (#[trigger] run[j]).0 == default_symbol(k);
        assert(holds_symbol(last, run[j].0));
        let i = choose|i: int| 0 <= i < last.len() && (#[trigger] last[i]).0 == run[j].0;
        assert(keys[i] == x);
    }
    vstd::seq_lib::seq_to_set_is_finite(keys);
    vstd::set_lib::lemma_len_subset(defaults.to_set(), keys.to_set());
}

/// Keeps the latest item seen for each symbol; a snapshot lists them in
/// ascending symbol order.
pub struct BatchAccumulator<T> {
    latest: Vec<(String, T)>,
}

impl<T: Clone> BatchAccumulator<T> {
    /// The held entries, by symbol, in ascending symbol order.
    pub closed spec fn entries(&self) -> Seq<(Seq<char>, T)> {
        self.latest@.map_values(|e: (String, T)| (e.0@, e.1))
    }

    /// The held symbols, in order.
    pub open spec fn symbols(&self) -> Seq<Seq<char>> {
        self.entries().map_values(|e: (Seq<char>, T)| e.0)
    }

    /// Symbols strictly ascend, so that each is held once.
    pub open spec fn wf(&self) -> bool {
        symbols_ascending(self.symbols())
    }

    pub fn new() -> (r: BatchAccumulator<T>)
        ensures
            r.wf(),
            r.entries().len() == 0,
    {
        BatchAccumulator { latest: Vec::new() }
    }

    /// Records `item` as the latest for `symbol`, replacing what was held
    /// for that symbol and keeping every other entry.
    pub fn ingest(&mut self, symbol: String, item: T)
        requires
            old(self).wf(),
        ensures
            final(self).wf(),
            ingest_relation(old(self).entries(), symbol@, item, final(self).entries()),
    {
        let ghost old_entries = self.entries();
        let n = self.latest.len();
        let mut lo: usize = 0;
        let mut hi: usize = n;
        while lo < hi
            invariant
                n == self.latest@.len(),
                self.entries() == old_entries,
                self.wf(),
                0 <= lo <= hi <= n,
                forall|j: int| 0 <= j < lo ==> chars_before(#[trigger] self.symbols()[j], symbol@),
                forall|j: int| hi <= j < n ==> !chars_before(#[trigger] self.symbols()[j], symbol@),
            decreases hi - lo,
        {
            let mid = lo + (hi - lo) / 2;
            proof {
                assert(self.symbols()[mid as int] == self.latest@[mid as int].0@);
            }
            if text_before(self.latest[mid].0.as_str(), symbol.as_str()) {
                proof {
                    assert forall|j: int| 0 <= j <= mid implies chars_before(
                        #[trigger] self.symbols()[j],
                        symbol@,
                    ) by {
                        if j < mid {
                            lemma_chars_before_transitive(
                                self.symbols()[j],
                                self.symbols()[mid as int],
                                symbol@,
                            );
                        }
                    }
                }
                lo = mid + 1;
            } else {
                proof {
                    assert forall|j: int| mid <= j < n implies !chars_before(
                        #[trigger] self.symbols()[j],
                        symbol@,
                    ) by {
                        if j > mid && chars_before(self.symbols()[j], symbol@) {
                            lemma_chars_before_transitive(
                                self.symbols()[mid as int],
                                self.symbols()[j],
                                symbol@,
                            );
                        }
                    }
                }
                hi = mid;
            }
        }
        proof {
            assert forall|i: int| 0 <= i < n implies #[trigger] self.entries()[i] == (
            self.latest@[i].0@,
            self.latest@[i].1,
            ) by {}
        }
        if lo < n && text_equals(self.latest[lo].0.as_str(), symbol.as_str()) {
            let ghost pre = self.latest@;
            self.latest.set(lo, (symbol, item));
            proof {
                assert(self.entries() =~= old_entries.update(lo as int, (symbol@, item)));
                assert(self.symbols() =~= old(self).symbols());
                assert(self.entries()[lo as int] == (symbol@, item));
                lemma_chars_before_irreflexive(symbol@);
                assert forall|e: (Seq<char>, T)| old_entries.contains(e) && e.0 != symbol@ implies
                    self.entries().contains(e) by {
                    let k = choose|k: int| 0 <= k < old_entries.len() && old_entries[k] == e;
                    assert(self.entries()[k] == e);
                }
                assert forall|e: (Seq<char>, T)| #[trigger]
                    self.entries().contains(e) implies e == (symbol@, item) || (
                    old_entries.contains(e) && e.0 != symbol@) by {
                    let k = choose|k: int| 0 <= k < self.entries().len() && self.entries()[k] == e;
                    if k != lo {
                        assert(old_entries[k] == e);
                        assert(old(self).symbols()[k] == e.0);
                        assert(old(self).symbols()[lo as int] == symbol@);
                    }
                }
            }
        } else {
            proof {
                if lo < n {
                    assert(self.symbols()[lo as int] != symbol@);
                    lemma_chars_before_total(self.symbols()[lo as int], symbol@);
                }
            }
            self.latest.insert(lo, (symbol, item));
            proof {
                let new_entries = self.entries();
                assert(new_entries =~= old_entries.insert(lo as int, (symbol@, item)));
                assert forall|i: int, j: int| 0 <= i < j < self.symbols().len() implies chars_before(
                    self.symbols()[i],
                    self.symbols()[j],
                ) by {
                    assert(self.symbols()[i] == new_entries[i].0);
                    assert(self.symbols()[j] == new_entries[j].0);
                    if j < lo {
                        assert(new_entries[i] == old_entries[i]);
                        assert(new_entries[j] == old_entries[j]);
                        assert(old(self).symbols()[i] == old_entries[i].0);
                        assert(old(self).symbols()[j] == old_entries[j].0);
                    } else if j == lo {
                        assert(new_entries[i] == old_entries[i]);
                        assert(old(self).symbols()[i] == old_entries[i].0);
                    } else if i == lo {
                        assert(new_entries[j] == old_entries[j - 1]);
                        assert(old(self).symbols()[j - 1] == old_entries[j - 1].0);
                        if j - 1 > lo {
                            assert(old(self).symbols()[lo as int] == old_entries[lo as int].0);
                            lemma_chars_before_transitive(
                                symbol@,
                                old_entries[lo as int].0,
                                old_entries[j - 1].0,
                            );
                        }
                    } else if i < lo {
                        assert(new_entries[i] == old_entries[i]);
                        assert(new_entries[j] == old_entries[j - 1]);
                        assert(old(self).symbols()[i] == old_entries[i].0);
                        assert(old(self).symbols()[j - 1] == old_entries[j - 1].0);
                    } else {
                        assert(new_entries[i] == old_entries[i - 1]);
                        assert(new_entries[j] == old_entries[j - 1]);
                        assert(old(self).symbols()[i - 1] == old_entries[i - 1].0);
                        assert(old(self).symbols()[j - 1] == old_entries[j - 1].0);
                    }
                }
                assert(new_entries[lo as int] == (symbol@, item));
                assert forall|e: (Seq<char>, T)| old_entries.contains(e) && e.0 != symbol@ implies
                    new_entries.contains(e) by {
                    let k = choose|k: int| 0 <= k < old_entries.len() && old_entries[k] == e;
                    if k < lo {
                        assert(new_entries[k] == e);
                    } else {
                        assert(new_entries[k + 1] == e);
                    }
                }
                assert forall|e: (Seq<char>, T)| #[trigger]
                    new_entries.contains(e) implies e == (symbol@, item) || (old_entries.contains(e)
                    && e.0 != symbol@) by {
                    let k = choose|k: int| 0 <= k < new_entries.len() && new_entries[k] == e;
                    lemma_chars_before_irreflexive(symbol@);
                    if k < lo {
                        assert(old_entries[k] == e);
                        assert(old(self).symbols()[k] == e.0);
                    } else if k > lo {
                        assert(old_entries[k - 1] == e);
                        assert(old(self).symbols()[k - 1] == e.0);
                        assert(old(self).symbols()[lo as int] == old_entries[lo as int].0);
                        if k - 1 > lo {
                            lemma_chars_before_transitive(
                                symbol@,
                                old_entries[lo as int].0,
                                old_entries[k - 1].0,
                            );
                        }
                    }
                }
            }
        }
    }

    /// The latest items, one per symbol, in ascending symbol order.
    pub fn snapshot(&self) -> (r: Vec<T>)
        requires
            self.wf(),
        ensures
            r@.len() == self.entries().len(),
            forall|i: int| 0 <= i < r@.len() ==> cloned(self.entries()[i].1, #[trigger] r@[i]),
            symbols_ascending(self.symbols()),
    {
        let n = self.latest.len();
        let mut items: Vec<T> = Vec::with_capacity(n);
        let mut i: usize = 0;
        while i < n
            invariant
                n == self.latest@.len(),
                0 <= i <= n,
                items@.len() == i,
                forall|j: int| 0 <= j < i ==> cloned(self.entries()[j].1, #[trigger] items@[j]),
            decreases n - i,
        {
            let item = self.latest[i].1.clone();
            proof {
                assert(self.entries()[i as int].1 == self.latest@[i as int].1);
            }
            items.push(item);
            i = i + 1;
        }
        items
    }

    /// Whether no symbol has been seen yet.
    pub fn is_empty(&self) -> (r: bool)
        ensures
            r == (self.entries().len() == 0),
    {
        self.latest.len() == 0
    }

    /// How many symbols are held.
    pub fn len(&self) -> (r: usize)
        ensures
            r == self.entries().len(),
    {
        self.latest.len()
    }
}

/// Sums values that come in bursts, and lets them be reported at most
/// once per window: the first value opens the window, and a later one
/// reports the sum once the window has passed.
#[derive(Debug, Clone, Copy, PartialEq, Eq, Structural)]
pub struct RateTracker {
    pub total: usize,
    pub max: usize,
    pub window_ms: u64,
    pub last_emit_ms: Option<u64>,
}

/// `a` minus `b`, or zero where `b` is larger.
pub open spec fn elapsed_ms(now: u64, last: u64) -> int {
    if now >= last {
        now - last
    } else {
        0
    }
}

impl RateTracker {
    /// An empty tracker whose window has not opened yet.
    pub open spec fn new_spec(window_ms: u64) -> RateTracker {
        RateTracker { total: 0, max: 0, window_ms, last_emit_ms: None }
    }

    pub fn new(window_ms: u64) -> (r: RateTracker)
        ensures
            r == RateTracker::new_spec(window_ms),
    {
        RateTracker { total: 0, max: 0, window_ms, last_emit_ms: None }
    }

    /// The tracker and the report after recording `value` at `now`.
    pub open spec fn spec_record(self, value: usize, now: u64) -> (RateTracker, Option<(usize, usize)>) {
        let total = crate::metrics::sat_add(self.total, value);
        let max = if value > self.max {
            value
        } else {
            self.max
        };
        match self.last_emit_ms {
            Some(last) => if elapsed_ms(now, last) >= self.window_ms {
                (RateTracker { total: 0, max: 0, last_emit_ms: Some(now), ..self }, Some((total, max)))
            } else {
                (RateTracker { total, max, ..self }, None)
            },
            None => (RateTracker { total, max, last_emit_ms: Some(now), ..self }, None),
        }
    }

    /// Adds `value`, seen at `now_ms` on a monotonic clock. Returns the sum
    /// and the largest value since the last report, when one is due.
    pub fn record(&mut self, value: usize, now_ms: u64) -> (r: Option<(usize, usize)>)
        ensures
            (*final(self), r) == old(self).spec_record(value, now_ms),
    {
        self.total = self.total.saturating_add(value);
        if value > self.max {
            self.max = value;
        }
        match self.last_emit_ms {
            Some(last) => {
                if now_ms.saturating_sub(last) >= self.window_ms {
                    self.last_emit_ms = Some(now_ms);
                    let report = (self.total, self.max);
                    self.total = 0;
                    self.max = 0;
                    Some(report)
                } else {
                    None
                }
            },
            None => {
                self.last_emit_ms = Some(now_ms);
                None
            },
        }
    }

    /// Reports what is left, if anything, and empties the tracker.
    pub fn flush(&mut self, now_ms: u64) -> (r: Option<(usize, usize)>)
        ensures
            old(self).total > 0 ==> r == Some((old(self).total, old(self).max)) && *final(self) == (
            RateTracker { total: 0, max: 0, last_emit_ms: Some(now_ms), ..*old(self) }),
            old(self).total == 0 ==> r is None && *final(self) == *old(self),
    {
        if self.total > 0 {
            let report = (self.total, self.max);
            self.total = 0;
            self.max = 0;
            self.last_emit_ms = Some(now_ms);
            Some(report)
        } else {
            None
        }
    }
}

/// How a non-blocking offer of a snapshot to the bounded queue went.
#[derive(Debug, Clone, Copy, PartialEq, Eq, Structural)]
pub enum QueueOffer {
    Accepted,
    Full,
    Closed,
}

/// What the aggregator does after an event.
#[derive(Debug, Clone, Copy)]
pub struct AggregatorReaction {
    /// Whether the aggregator loop goes on.
    pub keep_running: bool,
    /// The event to report to the metrics reporter, if any.
    pub report: Option<MetricsEvent>,
    /// A rate-limited warning that is due: the sum and the largest value.
    pub warning: Option<(usize, usize)>,
}

/// The metrics event for an offer: a full queue drops the snapshot and
/// reports one dropped batch.
pub open spec fn offer_event(offer: QueueOffer) -> Option<MetricsEvent> {
    match offer {
        QueueOffer::Full => Some(MetricsEvent::GatewayBackpressure { dropped: 1 }),
        _ => None,
    }
}

/// One window of a second for the aggregator's rate-limited warnings.
pub const WARNING_WINDOW_MS: u64 = 1000;

/// The aggregator's state: the latest item per symbol, and the trackers
/// of lag and of dropped snapshots.
pub struct GatewayAggregator<T> {
    pub accumulator: BatchAccumulator<T>,
    pub lag_tracker: RateTracker,
    pub drop_tracker: RateTracker,
}

impl<T: Clone> GatewayAggregator<T> {
    pub open spec fn wf(&self) -> bool {
        self.accumulator.wf()
    }

    pub fn new() -> (r: GatewayAggregator<T>)
        ensures
            r.wf(),
            r.accumulator.entries().len() == 0,
            r.lag_tracker == RateTracker::new_spec(WARNING_WINDOW_MS),
            r.drop_tracker == RateTracker::new_spec(WARNING_WINDOW_MS),
    {
        GatewayAggregator {
            accumulator: BatchAccumulator::new(),
            lag_tracker: RateTracker::new(WARNING_WINDOW_MS),
            drop_tracker: RateTracker::new(WARNING_WINDOW_MS),
        }
    }

    /// A tick came from the broadcast: it becomes the latest for its symbol.
    pub fn on_tick(&mut self, symbol: String, item: T)
        requires
            old(self).wf(),
        ensures
            final(self).wf(),
            ingest_relation(old(self).accumulator.entries(), symbol@, item, final(self).accumulator.entries()),
            final(self).lag_tracker == old(self).lag_tracker,
            final(self).drop_tracker == old(self).drop_tracker,
    {
        self.accumulator.ingest(symbol, item);
    }

    /// The throttle fired: the snapshot to offer to the queue, unless no
    /// symbol has been seen yet.
    pub fn on_throttle(&self) -> (r: Option<Vec<T>>)
        requires
            self.wf(),
        ensures
            self.accumulator.entries().len() == 0 <==> r is None,
            r matches Some(batch) ==> batch@.len() == self.accumulator.entries().len() && (forall|
                i: int,
            |
                0 <= i < batch@.len() ==> cloned(self.accumulator.entries()[i].1, #[trigger] batch@[i])),
    {
        if self.accumulator.is_empty() {
            None
        } else {
            Some(self.accumulator.snapshot())
        }
    }

    /// The queue answered an offer at `now_ms`: a full queue drops the
    /// snapshot and counts it; a closed queue ends the aggregator.
    pub fn on_offer(&mut self, offer: QueueOffer, now_ms: u64) -> (r: AggregatorReaction)
        ensures
            final(self).accumulator == old(self).accumulator,
            final(self).lag_tracker == old(self).lag_tracker,
            r.keep_running == (offer != QueueOffer::Closed),
            r.report == offer_event(offer),
            offer == QueueOffer::Full ==> (final(self).drop_tracker, r.warning)
                == old(self).drop_tracker.spec_record(1, now_ms),
            offer != QueueOffer::Full ==> final(self).drop_tracker == old(self).drop_tracker
                && r.warning is None,
    {
        match offer {
            QueueOffer::Accepted => AggregatorReaction { keep_running: true, report: None, warning: None },
            QueueOffer::Full => {
                let warning = self.drop_tracker.record(1, now_ms);
                AggregatorReaction {
                    keep_running: true,
                    report: Some(MetricsEvent::GatewayBackpressure { dropped: 1 }),
                    warning,
                }
            },
            QueueOffer::Closed => AggregatorReaction { keep_running: false, report: None, warning: None },
        }
    }

    /// The broadcast reported `skipped` missed ticks at `now_ms`.
    pub fn on_lag(&mut self, skipped: usize, now_ms: u64) -> (r: AggregatorReaction)
        ensures
            final(self).accumulator == old(self).accumulator,
            final(self).drop_tracker == old(self).drop_tracker,
            r.keep_running,
            r.report == Some(MetricsEvent::GatewayLag { skipped, component: LagSource::Aggregator }),
            (final(self).lag_tracker, r.warning) == old(self).lag_tracker.spec_record(skipped, now_ms),
    {
        let warning = self.lag_tracker.record(skipped, now_ms);
        AggregatorReaction {
            keep_running: true,
            report: Some(MetricsEvent::GatewayLag { skipped, component: LagSource::Aggregator }),
            warning,
        }
    }

    /// The aggregator stops at `now_ms`: the lag and drop warnings still
    /// due, in that order.
    pub fn finish(&mut self, now_ms: u64) -> (r: (Option<(usize, usize)>, Option<(usize, usize)>))
        ensures
            final(self).accumulator == old(self).accumulator,
            old(self).lag_tracker.total > 0 <==> r.0 is Some,
            old(self).drop_tracker.total > 0 <==> r.1 is Some,
            r.0 matches Some(p) ==> p == (old(self).lag_tracker.total, old(self).lag_tracker.max),
            r.1 matches Some(p) ==> p == (old(self).drop_tracker.total, old(self).drop_tracker.max),
            final(self).lag_tracker.total == 0,
            final(self).drop_tracker.total == 0,
    {
        let lag = self.lag_tracker.flush(now_ms);
        let dropped = self.drop_tracker.flush(now_ms);
        (lag, dropped)
    }
}

/// The state of one websocket client's sink: the tracker of the batches
/// that the client missed.
pub struct ClientSink {
    pub lag_tracker: RateTracker,
}

impl ClientSink {
    pub fn new() -> (r: ClientSink)
        ensures
            r.lag_tracker == RateTracker::new_spec(WARNING_WINDOW_MS),
    {
        ClientSink { lag_tracker: RateTracker::new(WARNING_WINDOW_MS) }
    }

    /// Whether a batch of `len` ticks is sent to the client: empty ones
    /// are skipped.
    pub fn forwards(&self, len: usize) -> (r: bool)
        ensures
            r == (len > 0),
    {
        len > 0
    }

    /// The client's receiver missed `skipped` batches at `now_ms`: the
    /// event to report and the rate-limited warning that is due.
    pub fn on_lag(&mut self, skipped: usize, now_ms: u64) -> (r: (MetricsEvent, Option<(usize, usize)>))
        ensures
            r.0 == (MetricsEvent::GatewayLag { skipped, component: LagSource::Client }),
            (final(self).lag_tracker, r.1) == old(self).lag_tracker.spec_record(skipped, now_ms),
    {
        let warning = self.lag_tracker.record(skipped, now_ms);
        (MetricsEvent::GatewayLag { skipped, component: LagSource::Client }, warning)
    }
}

/// Whenever the queue is full, the dropped snapshot is counted: the window
/// that receives the aggregator's report holds a positive drop count.
pub proof fn lemma_full_queue_counts_a_drop(window: MetricsWindow)
    ensures
        offer_event(QueueOffer::Full) is Some,
        window.spec_record(offer_event(QueueOffer::Full).unwrap()).dropped_batches > 0,
        window.spec_record(offer_event(QueueOffer::Full).unwrap()).dropped_batches
            >= window.dropped_batches,
{
}

} // verus!
