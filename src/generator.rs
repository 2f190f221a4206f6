//! The integer side of the tick generator: the timestamps that each cycle
//! stamps on its ticks, and the budget that ends a capped run.

use vstd::prelude::*;

verus! {

/// `x`, held to the range of `u128`.
pub open spec fn clamp_u128(x: int) -> int {
    if x > u128::MAX {
        u128::MAX as int
    } else {
        x
    }
}

/// The first timestamp of a cycle: the wall clock, unless that is below
/// the lowest timestamp still free.
pub open spec fn cycle_base(next: int, now: int) -> int {
    if now > next {
        now
    } else {
        next
    }
}

/// The timestamp of the `i`-th tick of a cycle.
pub open spec fn stamp_at(next: int, now: int, i: int) -> int {
    clamp_u128(cycle_base(next, now) + i)
}

/// The lowest timestamp still free after a cycle of `count` ticks.
pub open spec fn next_after(next: int, now: int, count: nat) -> int {
    if count == 0 {
        next
    } else {
        clamp_u128(cycle_base(next, now) + count)
    }
}

/// The timestamps of a run of cycles, each given by its clock reading
/// and its number of ticks, in emission order.
pub open spec fn run_stamps(next: int, cycles: Seq<(int, nat)>) -> Seq<int>
    decreases cycles.len(),
{
    if cycles.len() == 0 {
        Seq::empty()
    } else {
        let now = cycles[0].0;
        let count = cycles[0].1;
        Seq::new(count, |i: int| stamp_at(next, now, i)) + run_stamps(
            next_after(next, now, count),
            cycles.drop_first(),
        )
    }
}

/// Hands out tick timestamps in milliseconds: consecutive within a cycle,
/// and never below one already handed out, whatever the wall clock does.
pub struct TimestampSequencer {
    next_ms: u128,
}

impl TimestampSequencer {
    /// The lowest timestamp that the next tick may carry.
    pub closed spec fn next(&self) -> int {
        self.next_ms as int
    }

    pub fn new() -> (r: TimestampSequencer)
        ensures
            r.next() == 0,
    {
        TimestampSequencer { next_ms: 0 }
    }

    /// The timestamps of a cycle of `count` ticks whose clock reading is
    /// `now_ms`: the `i`-th is the cycle's base plus `i`.
    pub fn stamp_cycle(&mut self, now_ms: u128, count: usize) -> (r: Vec<u128>)
        ensures
            r@.len() == count,
            forall|i: int| 0 <= i < count ==> r@[i] == stamp_at(old(self).next(), now_ms as int, i),
            final(self).next() == next_after(old(self).next(), now_ms as int, count as nat),
    {
        let base: u128 = if now_ms > self.next_ms {
            now_ms
        } else {
            self.next_ms
        };
        let mut stamps: Vec<u128> = Vec::with_capacity(count);
        let mut i: usize = 0;
        while i < count
            invariant
                0 <= i <= count,
                base == cycle_base(old(self).next(), now_ms as int),
                stamps@.len() == i,
                forall|j: int| 0 <= j < i ==> stamps@[j] == stamp_at(old(self).next(), now_ms as int, j),
            decreases count - i,
        {
            stamps.push(base.saturating_add(i as u128));
            i = i + 1;
        }
        if count > 0 {
            self.next_ms = base.saturating_add(count as u128);
        }
        stamps
    }
}

/// Within a cycle timestamps never decrease, and they lie between the first
/// free timestamp before the cycle and the first free one after it.
proof fn lemma_cycle_bounds(next: int, now: int, count: nat)
    requires
        0 <= next <= u128::MAX,
        0 <= now <= u128::MAX,
    ensures
        forall|i: int, j: int| 0 <= i <= j < count ==> stamp_at(next, now, i) <= stamp_at(next, now, j),
        forall|i: int| 0 <= i < count ==> next <= #[trigger] stamp_at(next, now, i) <= next_after(next, now, count),
        next <= next_after(next, now, count) <= u128::MAX,
{
}

/// Timestamps never decrease across any contiguous run of cycles, whatever
/// clock readings the cycles get, and none is below the first free one.
pub proof fn lemma_run_stamps_non_decreasing(next: int, cycles: Seq<(int, nat)>)
    requires
        0 <= next <= u128::MAX,
        forall|c: int| 0 <= c < cycles.len() ==> 0 <= (#[trigger] cycles[c]).0 <= u128::MAX,
    ensures
        forall|i: int, j: int|
            0 <= i <= j < run_stamps(next, cycles).len() ==> run_stamps(next, cycles)[i] <= run_stamps(
                next,
                cycles,
            )[j],
        forall|i: int| 0 <= i < run_stamps(next, cycles).len() ==> next <= #[trigger] run_stamps(next, cycles)[i],
    decreases cycles.len(),
{
    if cycles.len() > 0 {
        let now = cycles[0].0;
        let count = cycles[0].1;
        let after = next_after(next, now, count);
        let rest = cycles.drop_first();
        assert forall|c: int| 0 <= c < rest.len() implies 0 <= (#[trigger] rest[c]).0 <= u128::MAX by {
            assert(rest[c] == cycles[c + 1]);
        }
        lemma_cycle_bounds(next, now, count);
        lemma_run_stamps_non_decreasing(after, rest);
        let head = Seq::new(count, |i: int| stamp_at(next, now, i));
        let tail = run_stamps(after, rest);
        assert(run_stamps(next, cycles) == head + tail);
    }
}

/// How many ticks a generator has emitted against its optional cap.
pub struct TickBudget {
    pub emitted: usize,
    pub max_ticks: Option<usize>,
}

/// The emitted count after `k` cycles of `n` ticks each, from zero,
/// held to the range of `usize`.
pub open spec fn emitted_after(n: nat, k: nat) -> int
    decreases k,
{
    if k == 0 {
        0
    } else {
        let e = emitted_after(n, (k - 1) as nat) + n;
        if e > usize::MAX {
            usize::MAX as int
        } else {
            e
        }
    }
}

impl TickBudget {
    pub fn new(max_ticks: Option<usize>) -> (r: TickBudget)
        ensures
            r.emitted == 0,
            r.max_ticks == max_ticks,
    {
        TickBudget { emitted: 0, max_ticks }
    }

    /// Whether the cap, if any, has been reached.
    pub open spec fn spec_exhausted(&self) -> bool {
        self.max_ticks matches Some(m) && self.emitted >= m
    }

    /// Counts a cycle of `produced` ticks and says whether the generator
    /// must now stop: once the emitted total reaches the cap.
    pub fn record_cycle(&mut self, produced: usize) -> (exhausted: bool)
        ensures
            final(self).emitted == (if old(self).emitted + produced > usize::MAX {
                usize::MAX as int
            } else {
                old(self).emitted + produced
            }),
            final(self).max_ticks == old(self).max_ticks,
            exhausted == final(self).spec_exhausted(),
    {
        self.emitted = self.emitted.saturating_add(produced);
        match self.max_ticks {
            Some(max) => self.emitted >= max,
            None => false,
        }
    }
}

/// A capped generator of `n` ticks per cycle, `n` at least one, reaches its
/// cap of `m` ticks after `k` cycles as soon as `k * n >= m`: a capped run
/// always ends.
pub proof fn lemma_capped_run_ends(m: nat, n: nat, k: nat)
    requires
        n >= 1,
        m <= usize::MAX,
        k * n >= m,
    ensures
        emitted_after(n, k) >= m,
{
    lemma_emitted_after_closed(n, k);
}

proof fn lemma_emitted_after_closed(n: nat, k: nat)
    ensures
        emitted_after(n, k) == (if k * n > usize::MAX {
            usize::MAX as int
        } else {
            (k * n) as int
        }),
    decreases k,
{
    if k > 0 {
        let p = (k - 1) as nat;
        lemma_emitted_after_closed(n, p);
        assert(p * n + n == k * n) by (nonlinear_arith)
            requires
                p + 1 == k,
        ;
    } else {
        assert(k * n == 0) by (nonlinear_arith)
            requires
                k == 0,
        ;
    }
}

} // verus!
