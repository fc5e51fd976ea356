//! Sliding-window throughput estimate of the transaction flow.

use vstd::prelude::*;
use crate::clock::{elapsed_between, NANOS_PER_SEC};

verus! {

/// How long an arrival stays in the history: ten seconds.
pub const HISTORY_SPAN: u64 = 10_000_000_000;

/// The least time between two computations of the estimate: 500 ms.
pub const RECOMPUTE_AFTER: u64 = 500_000_000;

/// A throughput: `transactions` arrivals in `nanos` nanoseconds.
///
/// With `nanos == 0` the rate is zero, whatever `transactions` holds.
#[derive(Debug, Clone, Copy, PartialEq, Eq, Structural)]
pub struct TransactionRate {
    /// Number of arrivals counted.
    pub transactions: u64,
    /// The time over which they were counted, in nanoseconds.
    pub nanos: u64,
}

impl TransactionRate {
    /// Whether the rate is zero transactions per second.
    pub open spec fn is_zero(self) -> bool {
        self.transactions == 0 || self.nanos == 0
    }

    /// Whether the rate is more than `per_second` transactions per second.
    pub open spec fn exceeds(self, per_second: int) -> bool {
        self.nanos > 0 && self.transactions * NANOS_PER_SEC > per_second * self.nanos
    }

    /// Whether the rate is less than one transaction in two seconds.
    pub open spec fn below_half(self) -> bool {
        self.nanos == 0 || 2 * self.transactions * NANOS_PER_SEC < self.nanos
    }

    /// The rate of no transactions at all.
    pub fn zero() -> (rate: TransactionRate)
        ensures
            rate.is_zero(),
            rate == (TransactionRate { transactions: 0, nanos: 0 }),
    {
        TransactionRate { transactions: 0, nanos: 0 }
    }

    /// The rate of `count` transactions per second.
    pub fn per_second(count: u64) -> (rate: TransactionRate)
        ensures
            rate == (TransactionRate { transactions: count, nanos: NANOS_PER_SEC }),
    {
        TransactionRate { transactions: count, nanos: NANOS_PER_SEC }
    }

    /// Tells whether the rate is zero.
    pub fn is_zero_rate(&self) -> (zero: bool)
        ensures
            zero == self.is_zero(),
    {
        self.transactions == 0 || self.nanos == 0
    }

    /// Tells whether the rate is above `per_second` transactions per second.
    pub fn is_above(&self, per_second: u64) -> (above: bool)
        ensures
            above == self.exceeds(per_second as int),
    {
        assert(self.transactions * NANOS_PER_SEC <= u64::MAX * NANOS_PER_SEC) by (nonlinear_arith)
            requires
                self.transactions <= u64::MAX,
        ;
        assert(per_second * self.nanos <= u64::MAX * u64::MAX) by (nonlinear_arith)
            requires
                per_second <= u64::MAX,
                self.nanos <= u64::MAX,
        ;
        self.nanos > 0 && (self.transactions as u128) * (NANOS_PER_SEC as u128) > (
        per_second as u128) * (self.nanos as u128)
    }

    /// Tells whether the rate is under half a transaction per second.
    pub fn is_below_half(&self) -> (below: bool)
        ensures
            below == self.below_half(),
    {
        assert(2 * self.transactions * NANOS_PER_SEC <= 2 * u64::MAX * NANOS_PER_SEC)
            by (nonlinear_arith)
            requires
                self.transactions <= u64::MAX,
        ;
        self.nanos == 0 || 2 * (self.transactions as u128) * (NANOS_PER_SEC as u128) < (
        self.nanos as u128)
    }
}

/// The arrivals of `history` that are no older than ten seconds at `now`.
pub open spec fn recent(history: Seq<u64>, now: u64) -> Seq<u64> {
    history.filter(|stamp: u64| stamp + HISTORY_SPAN >= now)
}

/// The last `limit` entries of `history`, or all of it if it holds fewer.
pub open spec fn newest(history: Seq<u64>, limit: int) -> Seq<u64> {
    if history.len() > limit {
        history.subrange(history.len() - limit, history.len() as int)
    } else {
        history
    }
}

/// The history after an arrival at `now`: the arrival is appended, entries
/// older than ten seconds are dropped, then all but the newest `limit`.
pub open spec fn history_after(history: Seq<u64>, limit: int, now: u64) -> Seq<u64> {
    newest(recent(history.push(now), now), limit)
}

/// The throughput that `history` shows at `now`: the number of entries over
/// the time since the oldest; zero with fewer than two entries or no time passed.
pub open spec fn rate_of(history: Seq<u64>, now: u64) -> TransactionRate {
    if history.len() < 2 || elapsed_between(history[0], now) == 0 {
        TransactionRate { transactions: 0, nanos: 0 }
    } else {
        TransactionRate {
            transactions: history.len() as u64,
            nanos: elapsed_between(history[0], now) as u64,
        }
    }
}

/// What a load tracker holds, as a mathematical value.
pub struct LoadModel {
    /// The recorded arrivals, oldest first.
    pub history: Seq<u64>,
    /// The most arrivals that are kept.
    pub capacity: usize,
    /// The cached estimate.
    pub tps: TransactionRate,
    /// The instant of the last computation of the estimate.
    pub computed_at: u64,
}

impl LoadModel {
    /// Whether an arrival at `now` makes the tracker compute its estimate anew:
    /// 500 ms or more have passed since the last computation.
    pub open spec fn recomputes_at(self, now: u64) -> bool {
        now - self.computed_at >= RECOMPUTE_AFTER
    }

    /// The tracker after an arrival at `now`.
    pub open spec fn arrival(self, now: u64) -> LoadModel {
        let history = history_after(self.history, self.capacity as int, now);
        LoadModel {
            history,
            capacity: self.capacity,
            tps: if self.recomputes_at(now) {
                rate_of(history, now)
            } else {
                self.tps
            },
            computed_at: if self.recomputes_at(now) {
                now
            } else {
                self.computed_at
            },
        }
    }
}

/// Network load tracker for adaptive collection windows.
#[derive(Debug)]
pub struct NetworkLoadTracker {
    /// Transaction timestamps for rate calculation.
    transaction_history: Vec<u64>,
    /// Maximum history size.
    max_history_size: usize,
    /// Current throughput estimate.
    current_tps: TransactionRate,
    /// Last calculation time.
    last_calculation: u64,
}

impl View for NetworkLoadTracker {
    type V = LoadModel;

    closed spec fn view(&self) -> LoadModel {
        LoadModel {
            history: self.transaction_history@,
            capacity: self.max_history_size,
            tps: self.current_tps,
            computed_at: self.last_calculation,
        }
    }
}

impl NetworkLoadTracker {
    /// Create a new network load tracker with specified history size.
    pub fn new(max_history_size: usize, now: u64) -> (tracker: Self)
        ensures
            tracker@ == (LoadModel {
                history: Seq::<u64>::empty(),
                capacity: max_history_size,
                tps: TransactionRate { transactions: 0, nanos: 0 },
                computed_at: now,
            }),
    {
        NetworkLoadTracker {
            transaction_history: Vec::new(),
            max_history_size,
            current_tps: TransactionRate::zero(),
            last_calculation: now,
        }
    }

    /// Record a new transaction and calculate the current throughput.
    ///
    /// The arrival is appended to the history, which is then cut to the last
    /// ten seconds and to its capacity. The estimate is computed anew only if
    /// 500 ms or more have passed since the last computation; the estimate
    /// that then stands is returned.
    pub fn record_transaction(&mut self, now: u64) -> (tps: TransactionRate)
        ensures
            final(self)@ == old(self)@.arrival(now),
            final(self)@.history.len() <= old(self)@.capacity,
            tps == final(self)@.tps,
    {
        let kept = keep_recent(&self.transaction_history, now);
        let trimmed = keep_newest(kept, self.max_history_size);
        self.transaction_history = trimmed;
        if now >= self.last_calculation && now - self.last_calculation >= RECOMPUTE_AFTER {
            self.current_tps = self.calculate_tps(now);
            self.last_calculation = now;
        }
        self.current_tps
    }

    /// Get the current throughput estimate, as it was last computed.
    pub fn get_tps(&self) -> (tps: TransactionRate)
        ensures
            tps == self@.tps,
    {
        self.current_tps
    }

    /// Calculate the throughput from the transaction history.
    fn calculate_tps(&self, now: u64) -> (tps: TransactionRate)
        ensures
            tps == rate_of(self@.history, now),
    {
        if self.transaction_history.len() < 2 {
            return TransactionRate::zero();
        }
        let oldest = self.transaction_history[0];
        if now > oldest {
            TransactionRate {
                transactions: self.transaction_history.len() as u64,
                nanos: now - oldest,
            }
        } else {
            TransactionRate::zero()
        }
    }
}

/// The entries of `history` and the arrival at `now` that are no older than ten seconds.
fn keep_recent(history: &Vec<u64>, now: u64) -> (kept: Vec<u64>)
    ensures
        kept@ == recent(history@.push(now), now),
{
    let ghost keep = |stamp: u64| stamp + HISTORY_SPAN >= now;
    let mut kept: Vec<u64> = Vec::new();
    let mut i: usize = 0;
    while i < history.len()
        invariant
            i <= history.len(),
            keep == (|stamp: u64| stamp + HISTORY_SPAN >= now),
            kept@ == history@.take(i as int).filter(keep),
        decreases history.len() - i,
    {
        let stamp = history[i];
        proof {
            assert(history@.take(i + 1).drop_last() =~= history@.take(i as int));
            reveal_with_fuel(Seq::filter, 2);
        }
        if stamp as u128 + HISTORY_SPAN as u128 >= now as u128 {
            kept.push(stamp);
        }
        i += 1;
    }
    proof {
        assert(history@.take(i as int) =~= history@);
        assert(history@.push(now).drop_last() =~= history@);
        reveal_with_fuel(Seq::filter, 2);
    }
    kept.push(now);
    kept
}

/// The last `limit` entries of `history`.
fn keep_newest(history: Vec<u64>, limit: usize) -> (kept: Vec<u64>)
    ensures
        kept@ == newest(history@, limit as int),
        kept@.len() <= limit,
{
    if history.len() <= limit {
        return history;
    }
    let start = history.len() - limit;
    let mut kept: Vec<u64> = Vec::new();
    let mut i: usize = start;
    while i < history.len()
        invariant
            start <= i <= history.len(),
            start == history.len() - limit,
            kept@ == history@.subrange(start as int, i as int),
        decreases history.len() - i,
    {
        kept.push(history[i]);
        proof {
            assert(kept@ =~= history@.subrange(start as int, i + 1));
        }
        i += 1;
    }
    kept
}

} // verus!
