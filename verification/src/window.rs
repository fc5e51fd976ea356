//! Collection windows: bounded waits that batch incoming transactions.

use vstd::prelude::*;
use crate::clock::{clamp_between, elapsed_between, elapsed_since, min_of, Timer, NANOS_PER_MILLI};
use crate::config::CollectionConfig;
use crate::load::TransactionRate;

verus! {

/// The longest wait that is left once a transaction at or above the threshold arrives: 100 ms.
pub const PRIORITY_WAIT: u64 = 100_000_000;

/// The window of the baseline controller for a pool of middling size: one second.
pub const BASELINE_WINDOW: u64 = 1_000_000_000;

/// The load factor in percent: 70 above five transactions per second, 85
/// above two, 130 below one half, else 100.
pub open spec fn load_factor_percent(load: TransactionRate) -> int {
    if load.exceeds(5) {
        70
    } else if load.exceeds(2) {
        85
    } else if load.below_half() {
        130
    } else {
        100
    }
}

/// The priority factor in tenths: 1 at or above the threshold, 5 above half
/// of it, else 10.
pub open spec fn priority_factor_tenths(priority: Option<u64>, threshold: u64) -> int {
    match priority {
        Some(p) => if p >= threshold {
            1
        } else if p > threshold / 2 {
            5
        } else {
            10
        },
        None => 10,
    }
}

/// The duration before load and priority are applied: the shortest window if
/// a priority transaction opened it, else the midpoint of the shortest and the
/// longest, in whole milliseconds.
pub open spec fn base_duration(config: CollectionConfig, priority_triggered: bool) -> int {
    if priority_triggered {
        config.min_collection_time as int
    } else {
        (config.min_collection_time / NANOS_PER_MILLI + config.max_collection_time
            / NANOS_PER_MILLI) / 2 * NANOS_PER_MILLI
    }
}

/// The duration of an adaptive collection window.
pub open spec fn adaptive_duration(
    config: CollectionConfig,
    load: TransactionRate,
    priority: Option<u64>,
    priority_triggered: bool,
) -> int {
    let base = base_duration(config, priority_triggered);
    let scaled = if config.enable_adaptive_timing {
        base * load_factor_percent(load) * priority_factor_tenths(
            priority,
            config.priority_threshold,
        ) / 1000
    } else {
        base
    };
    clamp_between(scaled, config.min_collection_time as int, config.max_collection_time as int)
}

/// The duration of an adaptive window never leaves the configured range.
pub proof fn lemma_adaptive_duration_in_range(
    config: CollectionConfig,
    load: TransactionRate,
    priority: Option<u64>,
    priority_triggered: bool,
)
    requires
        config.well_formed(),
    ensures
        config.min_collection_time <= adaptive_duration(config, load, priority, priority_triggered)
            <= config.max_collection_time,
{
}

/// The window of the baseline controller for `tx_count` ready transactions:
/// the shortest above 50, one second above 10, else the longest, and always
/// within the configured range.
pub open spec fn baseline_duration(config: CollectionConfig, tx_count: usize) -> int {
    let wanted = if tx_count > 50 {
        config.min_collection_time
    } else if tx_count > 10 {
        BASELINE_WINDOW
    } else {
        config.max_collection_time
    };
    clamp_between(
        wanted as int,
        config.min_collection_time as int,
        config.max_collection_time as int,
    )
}

/// Calculate the collection window duration from the number of ready transactions.
pub fn calculate_collection_duration(config: &CollectionConfig, tx_count: usize) -> (duration: u64)
    requires
        config.well_formed(),
    ensures
        duration == baseline_duration(*config, tx_count),
        config.min_collection_time <= duration <= config.max_collection_time,
{
    let wanted = if tx_count > 50 {
        config.min_collection_time
    } else if tx_count > 10 {
        BASELINE_WINDOW
    } else {
        config.max_collection_time
    };
    clamp_duration(wanted, config.min_collection_time, config.max_collection_time)
}

/// Limits a duration to the range from `low` to `high`.
pub fn clamp_duration(value: u64, low: u64, high: u64) -> (clamped: u64)
    requires
        low <= high,
    ensures
        clamped == clamp_between(value as int, low as int, high as int),
        low <= clamped <= high,
{
    if value < low {
        low
    } else if value > high {
        high
    } else {
        value
    }
}

/// Smart collection window manager with adaptive timing.
#[derive(Debug, Clone, Copy, PartialEq, Eq, Structural)]
pub struct SmartCollectionWindow {
    /// Start time of the collection window.
    pub started_at: u64,
    /// Adaptive duration based on network conditions, in nanoseconds.
    pub duration: u64,
    /// Number of transactions when window started.
    pub initial_tx_count: usize,
    /// Highest priority transaction in this window.
    pub highest_priority: Option<u64>,
    /// Network load at window start.
    pub network_load: TransactionRate,
    /// Timer for the collection window.
    pub timer: Timer,
    /// Whether this window was triggered by a high-priority transaction.
    pub priority_triggered: bool,
}

impl SmartCollectionWindow {
    /// The window that `new` opens.
    pub open spec fn opened(
        config: CollectionConfig,
        initial_tx_count: usize,
        highest_priority: Option<u64>,
        network_load: TransactionRate,
        priority_triggered: bool,
        now: u64,
    ) -> SmartCollectionWindow {
        let duration = adaptive_duration(
            config,
            network_load,
            highest_priority,
            priority_triggered,
        ) as u64;
        SmartCollectionWindow {
            started_at: now,
            duration,
            initial_tx_count,
            highest_priority,
            network_load,
            timer: Timer { deadline: (now + duration) as u128 },
            priority_triggered,
        }
    }

    /// Whether `priority` is above the highest priority that the window has
    /// seen. Any priority is above that of a window that has seen none.
    pub open spec fn raised_by(self, priority: u64) -> bool {
        match self.highest_priority {
            Some(current) => priority > current,
            None => true,
        }
    }

    /// The timer after the wait is shrunk at `now`: it fires at the earlier
    /// of its deadline and the end of what is left of the window, 100 ms from
    /// `now` at most. A shrunk timer is never put off and a timer that has
    /// fired stays fired.
    pub open spec fn shrunk_timer(self, now: u64) -> Timer {
        let wanted = now + self.remaining_wait(now);
        if wanted < self.timer.deadline {
            Timer { deadline: wanted as u128 }
        } else {
            self.timer
        }
    }

    /// The window after a transaction of priority `priority` arrived at `now`.
    ///
    /// A priority above the highest seen replaces it; if it also reaches the
    /// threshold, the wait is shrunk. Nothing else changes.
    pub open spec fn with_priority(
        self,
        priority: u64,
        config: CollectionConfig,
        now: u64,
    ) -> SmartCollectionWindow {
        if self.raised_by(priority) {
            SmartCollectionWindow {
                highest_priority: Some(priority),
                timer: if priority >= config.priority_threshold {
                    self.shrunk_timer(now)
                } else {
                    self.timer
                },
                ..self
            }
        } else {
            self
        }
    }

    /// What is left of the window's duration at `now`, and 100 ms at most.
    pub open spec fn remaining_wait(self, now: u64) -> int {
        let elapsed = elapsed_between(self.started_at, now);
        let remaining = if self.duration >= elapsed {
            self.duration - elapsed
        } else {
            0
        };
        min_of(remaining, PRIORITY_WAIT as int)
    }

    /// Create a new smart collection window with adaptive timing.
    pub fn new(
        config: &CollectionConfig,
        initial_tx_count: usize,
        highest_priority: Option<u64>,
        network_load: TransactionRate,
        priority_triggered: bool,
        now: u64,
    ) -> (window: Self)
        requires
            config.well_formed(),
        ensures
            window == Self::opened(
                *config,
                initial_tx_count,
                highest_priority,
                network_load,
                priority_triggered,
                now,
            ),
            config.min_collection_time <= window.duration <= config.max_collection_time,
    {
        let duration = Self::calculate_adaptive_duration(
            config,
            network_load,
            highest_priority,
            priority_triggered,
        );
        SmartCollectionWindow {
            started_at: now,
            duration,
            initial_tx_count,
            highest_priority,
            network_load,
            timer: Timer::after_nanos(now, duration),
            priority_triggered,
        }
    }

    /// Calculate adaptive duration based on network conditions and priority.
    pub fn calculate_adaptive_duration(
        config: &CollectionConfig,
        network_load: TransactionRate,
        highest_priority: Option<u64>,
        priority_triggered: bool,
    ) -> (duration: u64)
        requires
            config.well_formed(),
        ensures
            duration == adaptive_duration(
                *config,
                network_load,
                highest_priority,
                priority_triggered,
            ),
            config.min_collection_time <= duration <= config.max_collection_time,
    {
        let base: u64 = if priority_triggered {
            config.min_collection_time
        } else {
            (config.min_collection_time / NANOS_PER_MILLI + config.max_collection_time
                / NANOS_PER_MILLI) / 2 * NANOS_PER_MILLI
        };
        if !config.enable_adaptive_timing {
            return clamp_duration(base, config.min_collection_time, config.max_collection_time);
        }
        let load_factor: u128 = if network_load.is_above(5) {
            70
        } else if network_load.is_above(2) {
            85
        } else if network_load.is_below_half() {
            130
        } else {
            100
        };
        let priority_factor: u128 = match highest_priority {
            Some(priority) => if priority >= config.priority_threshold {
                1
            } else if priority > config.priority_threshold / 2 {
                5
            } else {
                10
            },
            None => 10,
        };
        assert(base * load_factor * priority_factor <= u64::MAX * 1300) by (nonlinear_arith)
            requires
                base <= u64::MAX,
                load_factor <= 130,
                priority_factor <= 10,
        ;
        let scaled: u128 = base as u128 * load_factor * priority_factor / 1000;
        if scaled < config.min_collection_time as u128 {
            config.min_collection_time
        } else if scaled > config.max_collection_time as u128 {
            config.max_collection_time
        } else {
            scaled as u64
        }
    }

    /// Check if the collection window has expired.
    pub fn is_expired(&self, now: u64) -> (expired: bool)
        ensures
            expired == self.timer.fired_at(now),
    {
        self.timer.is_expired(now)
    }

    /// Get elapsed time since window started.
    pub fn elapsed(&self, now: u64) -> (elapsed: u64)
        ensures
            elapsed == elapsed_between(self.started_at, now),
    {
        elapsed_since(self.started_at, now)
    }

    /// Update window with new high-priority transaction.
    pub fn update_priority(&mut self, priority: u64, config: &CollectionConfig, now: u64)
        ensures
            *final(self) == old(self).with_priority(priority, *config, now),
            final(self).timer.deadline <= old(self).timer.deadline,
    {
        let raised = match self.highest_priority {
            Some(current_priority) => priority > current_priority,
            None => true,
        };
        if raised {
            self.highest_priority = Some(priority);
            if priority >= config.priority_threshold {
                let elapsed = self.elapsed(now);
                let remaining = if self.duration >= elapsed {
                    self.duration - elapsed
                } else {
                    0
                };
                let new_remaining = if remaining <= PRIORITY_WAIT {
                    remaining
                } else {
                    PRIORITY_WAIT
                };
                let wanted = Timer::after_nanos(now, new_remaining);
                if wanted.deadline < self.timer.deadline {
                    self.timer = wanted;
                }
            }
        }
    }
}

/// An update of the priority never lowers the highest priority, never puts
/// the timer off, and leaves the rest of the window as it is. A priority
/// that is taken and reaches the threshold leaves 100 ms of waiting at most.
pub proof fn lemma_priority_update_only_shrinks(
    window: SmartCollectionWindow,
    priority: u64,
    config: CollectionConfig,
    now: u64,
)
    ensures
        window.with_priority(priority, config, now).timer.deadline <= window.timer.deadline,
        window.timer.fired_at(now) ==> window.with_priority(priority, config, now).timer.fired_at(
            now,
        ),
        window.with_priority(priority, config, now).highest_priority == Some(
            match window.highest_priority {
                Some(current) => if priority > current {
                    priority
                } else {
                    current
                },
                None => priority,
            },
        ),
        window.with_priority(priority, config, now) == (SmartCollectionWindow {
            highest_priority: window.with_priority(priority, config, now).highest_priority,
            timer: window.with_priority(priority, config, now).timer,
            ..window
        }),
        window.raised_by(priority) && priority >= config.priority_threshold
            ==> window.with_priority(priority, config, now).timer.deadline <= now + PRIORITY_WAIT,
{
}

/// Collection window of the baseline controller.
#[derive(Debug, Clone, Copy, PartialEq, Eq, Structural)]
pub struct CollectionWindow {
    /// Start time of the collection window.
    pub started_at: u64,
    /// Duration of the collection window, in nanoseconds.
    pub duration: u64,
    /// Number of transactions when window started.
    pub initial_tx_count: usize,
    /// Timer for the collection window.
    pub timer: Timer,
}

impl CollectionWindow {
    /// The window that `new` opens.
    pub open spec fn opened(duration: u64, initial_tx_count: usize, now: u64) -> CollectionWindow {
        CollectionWindow {
            started_at: now,
            duration,
            initial_tx_count,
            timer: Timer { deadline: (now + duration) as u128 },
        }
    }

    /// Create a new collection window.
    pub fn new(duration: u64, initial_tx_count: usize, now: u64) -> (window: Self)
        ensures
            window == Self::opened(duration, initial_tx_count, now),
    {
        CollectionWindow {
            started_at: now,
            duration,
            initial_tx_count,
            timer: Timer::after_nanos(now, duration),
        }
    }

    /// Check if the collection window has expired.
    pub fn is_expired(&self, now: u64) -> (expired: bool)
        ensures
            expired == self.timer.fired_at(now),
    {
        self.timer.is_expired(now)
    }

    /// Get elapsed time since window started.
    pub fn elapsed(&self, now: u64) -> (elapsed: u64)
        ensures
            elapsed == elapsed_between(self.started_at, now),
    {
        elapsed_since(self.started_at, now)
    }
}

} // verus!
