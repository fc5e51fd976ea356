//! Consensus monitoring and health checks.
//!
//! The monitor only observes: nothing it records changes an authoring decision.

use vstd::prelude::*;
use std::collections::VecDeque;
use crate::clock::{elapsed_between, elapsed_since, NANOS_PER_MILLI, NANOS_PER_SEC};
use crate::text::{decimal, decimal_text, three_digit_text, three_digits};

verus! {

/// The block time that is expected: 500 ms.
pub const EXPECTED_BLOCK_TIME: u64 = 500_000_000;

/// The most slot records and the most anomalies that are kept.
pub const RECENT_LIMIT: usize = 100;

/// Network health status.
#[derive(Debug, Clone, Copy, PartialEq, Eq, Structural)]
pub enum NetworkHealth {
    /// Network health is unknown.
    Unknown,
    /// Network is healthy.
    Healthy,
    /// Network is degraded but functional.
    Degraded,
    /// Network has serious issues.
    Critical,
}

/// Consensus health metrics.
#[derive(Debug, Clone, Copy, PartialEq, Eq, Structural)]
pub struct ConsensusMetrics {
    /// Total blocks produced.
    pub blocks_produced: u64,
    /// Total slots seen.
    pub slots_seen: u64,
    /// Empty slots (no block produced).
    pub empty_slots: u64,
    /// Average block production time, in nanoseconds.
    pub avg_block_time: u64,
    /// Number of forks detected.
    pub forks_detected: u32,
    /// Number of consensus anomalies.
    pub anomalies_detected: u32,
    /// Last block production time.
    pub last_block_time: Option<u64>,
    /// Current session authorities count.
    pub authorities_count: u32,
    /// Network health status.
    pub network_health: NetworkHealth,
}

impl ConsensusMetrics {
    /// The metrics before anything was seen.
    pub open spec fn initial() -> ConsensusMetrics {
        ConsensusMetrics {
            blocks_produced: 0,
            slots_seen: 0,
            empty_slots: 0,
            avg_block_time: EXPECTED_BLOCK_TIME,
            forks_detected: 0,
            anomalies_detected: 0,
            last_block_time: None,
            authorities_count: 0,
            network_health: NetworkHealth::Unknown,
        }
    }
}

impl Default for ConsensusMetrics {
    /// Nothing seen yet, an average block time of 500 ms, health unknown.
    fn default() -> (metrics: Self)
        ensures
            metrics == ConsensusMetrics::initial(),
    {
        ConsensusMetrics {
            blocks_produced: 0,
            slots_seen: 0,
            empty_slots: 0,
            avg_block_time: EXPECTED_BLOCK_TIME,
            forks_detected: 0,
            anomalies_detected: 0,
            last_block_time: None,
            authorities_count: 0,
            network_health: NetworkHealth::Unknown,
        }
    }
}

/// Security anomaly types.
#[derive(Debug, Clone, Copy, PartialEq, Eq, Structural)]
pub enum SecurityAnomaly {
    /// Unexpected empty slots.
    EmptySlotSpike {
        /// Number of consecutive empty slots detected.
        consecutive_empty: u32,
        /// Threshold that was exceeded.
        threshold: u32,
    },
    /// Block time variance anomaly.
    BlockTimeAnomaly {
        /// Actual observed block time.
        observed_time: u64,
        /// Expected block time.
        expected_time: u64,
        /// Variance threshold that was exceeded, in percent.
        variance_threshold: u32,
    },
    /// Fork detection.
    ForkDetected {
        /// Slot where fork was detected.
        slot: u64,
        /// Number of conflicting blocks.
        block_count: u32,
    },
    /// Authority set change anomaly.
    AuthorityAnomaly {
        /// Expected number of authorities.
        expected_count: u32,
        /// Actual number of authorities.
        actual_count: u32,
    },
    /// Consensus stall detected.
    ConsensusStall {
        /// Duration of the stall.
        stall_duration: u64,
        /// Last slot that produced a block.
        last_block_slot: u64,
        /// Current slot.
        current_slot: u64,
    },
}

/// Configuration for consensus monitoring.
#[derive(Debug, Clone, Copy, PartialEq, Eq, Structural)]
pub struct MonitoringConfig {
    /// Maximum consecutive empty slots before anomaly.
    pub max_empty_slots: u32,
    /// Block time variance threshold, in percent of the expected block time.
    pub block_time_variance_threshold: u32,
    /// Stall detection threshold, in nanoseconds.
    pub stall_threshold: u64,
    /// Enable detailed logging.
    pub enable_detailed_logging: bool,
    /// Metrics collection interval, in nanoseconds.
    pub metrics_interval: u64,
    /// Maximum metrics history to keep.
    pub max_metrics_history: usize,
}

impl Default for MonitoringConfig {
    /// Ten empty slots, a variance of 50 percent, a stall after 30 seconds,
    /// metrics every minute and a history of one day.
    fn default() -> (config: Self)
        ensures
            config == (MonitoringConfig {
                max_empty_slots: 10,
                block_time_variance_threshold: 50,
                stall_threshold: 30_000_000_000,
                enable_detailed_logging: true,
                metrics_interval: 60_000_000_000,
                max_metrics_history: 1440,
            }),
    {
        MonitoringConfig {
            max_empty_slots: 10,
            block_time_variance_threshold: 50,
            stall_threshold: 30_000_000_000,
            enable_detailed_logging: true,
            metrics_interval: 60_000_000_000,
            max_metrics_history: 1440,
        }
    }
}

/// What the monitor keeps of a slot.
#[derive(Debug, Clone, Copy, PartialEq, Eq, Structural)]
pub struct SlotRecord {
    /// The slot number.
    pub slot: u64,
    /// Whether a block was produced in the slot.
    pub block_produced: bool,
    /// The instant at which the slot was recorded.
    pub timestamp: u64,
    /// The index of the expected author, if it is known.
    pub authority_index: Option<u32>,
}

/// A counter grown by one, held at the largest count.
pub open spec fn bumped(count: u64) -> u64 {
    if count < u64::MAX {
        (count + 1) as u64
    } else {
        count
    }
}

/// A small counter grown by one, held at the largest count.
pub open spec fn bumped_small(count: u32) -> u32 {
    if count < u32::MAX {
        (count + 1) as u32
    } else {
        count
    }
}

/// A counter grown by `by`, held at the largest count.
pub open spec fn grown(count: u64, by: u64) -> u64 {
    if count + by <= u64::MAX {
        (count + by) as u64
    } else {
        u64::MAX
    }
}

/// The number of records at the end of `slots` without a block, one after
/// the other, among the last `limit`.
pub open spec fn trailing_empty(slots: Seq<SlotRecord>, limit: nat) -> nat
    decreases limit,
{
    if limit == 0 || slots.len() == 0 || slots.last().block_produced {
        0
    } else {
        1 + trailing_empty(slots.drop_last(), (limit - 1) as nat)
    }
}

/// The records with the first record of `slot` marked as having a block.
pub open spec fn marked(slots: Seq<SlotRecord>, slot: u64) -> Seq<SlotRecord>
    decreases slots.len(),
{
    if slots.len() == 0 {
        slots
    } else if slots[0].slot == slot {
        slots.update(0, SlotRecord { block_produced: true, ..slots[0] })
    } else {
        seq![slots[0]] + marked(slots.drop_first(), slot)
    }
}

/// The average block time after a block time was observed: nine parts of the
/// old average and one part of the new time.
pub open spec fn smoothed(average: u64, block_time: u64) -> u64 {
    ((block_time + 9 * average) / 10) as u64
}

/// Whether a block time strays from the expected 500 ms by more than
/// `threshold` percent of it.
pub open spec fn strays(block_time: u64, threshold: u32) -> bool {
    let distance = if block_time >= EXPECTED_BLOCK_TIME {
        block_time - EXPECTED_BLOCK_TIME
    } else {
        EXPECTED_BLOCK_TIME - block_time
    };
    distance * 100 > threshold * EXPECTED_BLOCK_TIME
}

/// The state of a monitor, as a mathematical value.
pub struct MonitorModel {
    /// Current metrics.
    pub metrics: ConsensusMetrics,
    /// Monitoring configuration.
    pub config: MonitoringConfig,
    /// Recent slot information, oldest first.
    pub recent_slots: Seq<SlotRecord>,
    /// Metrics history, oldest first.
    pub metrics_history: Seq<ConsensusMetrics>,
    /// Detected anomalies, oldest first.
    pub anomalies: Seq<SecurityAnomaly>,
    /// Last metrics collection time.
    pub last_metrics_time: Option<u64>,
}

impl MonitorModel {
    /// The monitor after an anomaly is recorded: it joins the last hundred
    /// and is counted.
    pub open spec fn with_anomaly(self, anomaly: SecurityAnomaly) -> MonitorModel {
        let all = self.anomalies.push(anomaly);
        MonitorModel {
            anomalies: if all.len() > RECENT_LIMIT {
                all.drop_first()
            } else {
                all
            },
            metrics: ConsensusMetrics {
                anomalies_detected: bumped_small(self.metrics.anomalies_detected),
                ..self.metrics
            },
            ..self
        }
    }

    /// The monitor after the recent slots are checked for a run of empty ones.
    pub open spec fn empty_slots_checked(self) -> MonitorModel {
        let limit = self.config.max_empty_slots;
        if self.recent_slots.len() < limit {
            self
        } else {
            let run = trailing_empty(self.recent_slots, limit as nat);
            if run >= limit {
                let noted = self.with_anomaly(
                    SecurityAnomaly::EmptySlotSpike {
                        consecutive_empty: run as u32,
                        threshold: limit,
                    },
                );
                MonitorModel {
                    metrics: ConsensusMetrics {
                        empty_slots: grown(noted.metrics.empty_slots, run as u64),
                        network_health: NetworkHealth::Degraded,
                        ..noted.metrics
                    },
                    ..noted
                }
            } else {
                self
            }
        }
    }

    /// The monitor after a slot is recorded at `now`.
    pub open spec fn slot_recorded(self, slot: u64, authority_index: Option<u32>, now: u64) -> MonitorModel {
        let all = self.recent_slots.push(
            SlotRecord { slot, block_produced: false, timestamp: now, authority_index },
        );
        (MonitorModel {
            recent_slots: if all.len() > RECENT_LIMIT {
                all.drop_first()
            } else {
                all
            },
            metrics: ConsensusMetrics {
                slots_seen: bumped(self.metrics.slots_seen),
                ..self.metrics
            },
            ..self
        }).empty_slots_checked()
    }

    /// The monitor after the metrics are collected, if their interval has
    /// passed at `now` or they were never collected.
    pub open spec fn metrics_collected(self, now: u64) -> MonitorModel {
        let due = match self.last_metrics_time {
            Some(last) => elapsed_between(last, now) >= self.config.metrics_interval,
            None => true,
        };
        if due {
            let all = self.metrics_history.push(self.metrics);
            MonitorModel {
                last_metrics_time: Some(now),
                metrics_history: if all.len() > self.config.max_metrics_history {
                    all.drop_first()
                } else {
                    all
                },
                ..self
            }
        } else {
            self
        }
    }

    /// The monitor after a block of `slot` is recorded at `now`.
    pub open spec fn block_recorded(self, slot: u64, now: u64) -> MonitorModel {
        let counted = MonitorModel {
            recent_slots: marked(self.recent_slots, slot),
            metrics: ConsensusMetrics {
                blocks_produced: bumped(self.metrics.blocks_produced),
                ..self.metrics
            },
            ..self
        };
        let timed = match self.metrics.last_block_time {
            Some(last) => {
                let block_time = elapsed_between(last, now) as u64;
                let averaged = MonitorModel {
                    metrics: ConsensusMetrics {
                        avg_block_time: smoothed(self.metrics.avg_block_time, block_time),
                        ..counted.metrics
                    },
                    ..counted
                };
                if strays(block_time, self.config.block_time_variance_threshold) {
                    averaged.with_anomaly(
                        SecurityAnomaly::BlockTimeAnomaly {
                            observed_time: block_time,
                            expected_time: EXPECTED_BLOCK_TIME,
                            variance_threshold: self.config.block_time_variance_threshold,
                        },
                    )
                } else {
                    averaged
                }
            },
            None => counted,
        };
        (MonitorModel {
            metrics: ConsensusMetrics { last_block_time: Some(now), ..timed.metrics },
            ..timed
        }).metrics_collected(now)
    }

    /// The monitor after the number of authorities is reported.
    pub open spec fn authorities_counted(self, count: u32) -> MonitorModel {
        let noted = if self.metrics.authorities_count > 0 && self.metrics.authorities_count
            != count {
            self.with_anomaly(
                SecurityAnomaly::AuthorityAnomaly {
                    expected_count: self.metrics.authorities_count,
                    actual_count: count,
                },
            )
        } else {
            self
        };
        MonitorModel {
            metrics: ConsensusMetrics { authorities_count: count, ..noted.metrics },
            ..noted
        }
    }

    /// The monitor after a check for a stall at `now`.
    pub open spec fn stall_checked(self, current_slot: u64, now: u64) -> MonitorModel {
        match self.metrics.last_block_time {
            Some(last) => if elapsed_between(last, now) > self.config.stall_threshold {
                let noted = self.with_anomaly(
                    SecurityAnomaly::ConsensusStall {
                        stall_duration: elapsed_between(last, now) as u64,
                        last_block_slot: 0,
                        current_slot,
                    },
                );
                MonitorModel {
                    metrics: ConsensusMetrics {
                        network_health: NetworkHealth::Critical,
                        ..noted.metrics
                    },
                    ..noted
                }
            } else {
                self
            },
            None => self,
        }
    }

    /// The monitor at the start of a session: the recent slots are forgotten
    /// and the network counts as healthy; the counters go on.
    pub open spec fn session_started(self) -> MonitorModel {
        MonitorModel {
            recent_slots: Seq::empty(),
            metrics: ConsensusMetrics {
                network_health: NetworkHealth::Healthy,
                ..self.metrics
            },
            ..self
        }
    }
}

/// Consensus monitoring system.
pub struct ConsensusMonitor {
    metrics: ConsensusMetrics,
    config: MonitoringConfig,
    recent_slots: VecDeque<SlotRecord>,
    metrics_history: VecDeque<ConsensusMetrics>,
    anomalies: Vec<SecurityAnomaly>,
    last_metrics_time: Option<u64>,
}

impl View for ConsensusMonitor {
    type V = MonitorModel;

    closed spec fn view(&self) -> MonitorModel {
        MonitorModel {
            metrics: self.metrics,
            config: self.config,
            recent_slots: self.recent_slots@,
            metrics_history: self.metrics_history@,
            anomalies: self.anomalies@,
            last_metrics_time: self.last_metrics_time,
        }
    }
}

impl ConsensusMonitor {
    /// Create a new consensus monitor.
    pub fn new(config: MonitoringConfig) -> (monitor: Self)
        ensures
            monitor@ == (MonitorModel {
                metrics: ConsensusMetrics::initial(),
                config,
                recent_slots: Seq::empty(),
                metrics_history: Seq::empty(),
                anomalies: Seq::empty(),
                last_metrics_time: None,
            }),
    {
        ConsensusMonitor {
            metrics: ConsensusMetrics::default(),
            config,
            recent_slots: VecDeque::new(),
            metrics_history: VecDeque::new(),
            anomalies: Vec::new(),
            last_metrics_time: None,
        }
    }

    /// Record a new slot.
    pub fn record_slot(&mut self, slot: u64, authority_index: Option<u32>, now: u64)
        ensures
            final(self)@ == old(self)@.slot_recorded(slot, authority_index, now),
    {
        self.recent_slots.push_back(
            SlotRecord { slot, block_produced: false, timestamp: now, authority_index },
        );
        if self.recent_slots.len() > RECENT_LIMIT {
            let _ = self.recent_slots.pop_front();
        }
        proof {
            let all = old(self)@.recent_slots.push(
                SlotRecord { slot, block_produced: false, timestamp: now, authority_index },
            );
            if all.len() > RECENT_LIMIT {
                assert(self.recent_slots@ =~= all.drop_first());
            }
        }
        self.metrics.slots_seen = self.metrics.slots_seen.saturating_add(1);
        self.check_empty_slot_anomalies();
    }

    /// Record a block production.
    pub fn record_block_production(&mut self, slot: u64, authority_index: Option<u32>, now: u64)
        ensures
            final(self)@ == old(self)@.block_recorded(slot, now),
    {
        let ghost before = self@;
        self.mark_block_produced(slot);
        self.metrics.blocks_produced = self.metrics.blocks_produced.saturating_add(1);
        match self.metrics.last_block_time {
            Some(last_time) => {
                let block_time = elapsed_since(last_time, now);
                let smoothed_time = (block_time as u128 + 9 * (self.metrics.avg_block_time as u128))
                    / 10;
                self.metrics.avg_block_time = smoothed_time as u64;
                self.check_block_time_anomaly(block_time);
            },
            None => {},
        }
        self.metrics.last_block_time = Some(now);
        self.maybe_collect_metrics(now);
    }

    /// Marks the first record of `slot` as having a block.
    fn mark_block_produced(&mut self, slot: u64)
        ensures
            final(self)@ == (MonitorModel {
                recent_slots: marked(old(self)@.recent_slots, slot),
                ..old(self)@
            }),
    {
        let ghost before = self.recent_slots@;
        let mut i: usize = 0;
        proof {
            assert(before.skip(0) =~= before);
            assert(before.take(0) + marked(before, slot) =~= marked(before, slot));
        }
        while i < self.recent_slots.len()
            invariant
                i <= self.recent_slots.len(),
                self.recent_slots@ == before,
                *self == *old(self),
                forall|j: int| 0 <= j < i ==> before[j].slot != slot,
                marked(before, slot) == before.take(i as int) + marked(
                    before.skip(i as int),
                    slot,
                ),
            decreases self.recent_slots.len() - i,
        {
            let record = self.recent_slots[i];
            if record.slot == slot {
                let _ = self.recent_slots.remove(i);
                self.recent_slots.insert(i, SlotRecord { block_produced: true, ..record });
                proof {
                    assert(self.recent_slots@ =~= before.update(
                        i as int,
                        SlotRecord { block_produced: true, ..record },
                    ));
                    let rest = before.skip(i as int);
                    assert(rest[0] == before[i as int]);
                    let fixed = rest.update(0, SlotRecord { block_produced: true, ..rest[0] });
                    assert(marked(rest, slot) == fixed);
                    assert(self.recent_slots@ =~= before.take(i as int) + fixed);
                    assert(self.recent_slots@ == marked(before, slot));
                }
                return;
            }
            proof {
                let rest = before.skip(i as int);
                assert(rest[0] == before[i as int]);
                assert(rest.drop_first() =~= before.skip(i + 1));
                assert(before.take(i + 1) =~= before.take(i as int) + seq![before[i as int]]);
                assert(before.take(i as int) + (seq![rest[0]] + marked(rest.drop_first(), slot))
                    =~= before.take(i + 1) + marked(before.skip(i + 1), slot));
            }
            i += 1;
        }
        proof {
            assert(before.skip(i as int) =~= Seq::<SlotRecord>::empty());
            assert(before.take(i as int) =~= before);
            assert(marked(before, slot) =~= before);
        }
    }

    /// Check for empty slot anomalies.
    fn check_empty_slot_anomalies(&mut self)
        ensures
            final(self)@ == old(self)@.empty_slots_checked(),
    {
        let limit = self.config.max_empty_slots as usize;
        if self.recent_slots.len() < limit {
            return;
        }
        let ghost slots = self.recent_slots@;
        let mut run: usize = 0;
        proof {
            assert(slots.take(slots.len() as int) =~= slots);
        }
        while run < limit && !self.recent_slots[self.recent_slots.len() - 1 - run].block_produced
            invariant
                run <= limit <= slots.len(),
                limit == self.config.max_empty_slots,
                slots == self.recent_slots@,
                *self == *old(self),
                trailing_empty(slots, limit as nat) == run + trailing_empty(
                    slots.take(slots.len() - run),
                    (limit - run) as nat,
                ),
            decreases limit - run,
        {
            proof {
                let front = slots.take(slots.len() - run);
                assert(front.last() == slots[slots.len() - 1 - run]);
                assert(front.drop_last() =~= slots.take(slots.len() - (run + 1)));
            }
            run += 1;
        }
        proof {
            let front = slots.take(slots.len() - run);
            assert(slots.take(slots.len() as int) =~= slots);
            if run < limit {
                assert(front.last() == slots[slots.len() - 1 - run]);
            }
            assert(trailing_empty(front, (limit - run) as nat) == 0);
        }
        if run >= limit {
            let consecutive_empty = run as u32;
            self.record_anomaly(
                SecurityAnomaly::EmptySlotSpike {
                    consecutive_empty,
                    threshold: self.config.max_empty_slots,
                },
            );
            self.metrics.empty_slots = self.metrics.empty_slots.saturating_add(
                consecutive_empty as u64,
            );
            self.metrics.network_health = NetworkHealth::Degraded;
        }
    }

    /// Check for block time anomalies.
    fn check_block_time_anomaly(&mut self, observed_time: u64)
        ensures
            final(self)@ == if strays(observed_time, old(self)@.config.block_time_variance_threshold) {
                old(self)@.with_anomaly(
                    SecurityAnomaly::BlockTimeAnomaly {
                        observed_time,
                        expected_time: EXPECTED_BLOCK_TIME,
                        variance_threshold: old(self)@.config.block_time_variance_threshold,
                    },
                )
            } else {
                old(self)@
            },
    {
        let distance = if observed_time >= EXPECTED_BLOCK_TIME {
            observed_time - EXPECTED_BLOCK_TIME
        } else {
            EXPECTED_BLOCK_TIME - observed_time
        };
        let threshold = self.config.block_time_variance_threshold;
        assert(threshold * EXPECTED_BLOCK_TIME <= u32::MAX * EXPECTED_BLOCK_TIME)
            by (nonlinear_arith)
            requires
                threshold <= u32::MAX,
        ;
        if distance as u128 * 100 > threshold as u128 * (EXPECTED_BLOCK_TIME as u128) {
            self.record_anomaly(
                SecurityAnomaly::BlockTimeAnomaly {
                    observed_time,
                    expected_time: EXPECTED_BLOCK_TIME,
                    variance_threshold: threshold,
                },
            );
        }
    }

    /// Record a security anomaly.
    fn record_anomaly(&mut self, anomaly: SecurityAnomaly)
        ensures
            final(self)@ == old(self)@.with_anomaly(anomaly),
    {
        self.anomalies.push(anomaly);
        if self.anomalies.len() > RECENT_LIMIT {
            let _ = self.anomalies.remove(0);
        }
        proof {
            let all = old(self)@.anomalies.push(anomaly);
            if all.len() > RECENT_LIMIT {
                assert(self.anomalies@ =~= all.drop_first());
            }
        }
        self.metrics.anomalies_detected = self.metrics.anomalies_detected.saturating_add(1);
    }

    /// Maybe collect metrics based on interval.
    fn maybe_collect_metrics(&mut self, now: u64)
        ensures
            final(self)@ == old(self)@.metrics_collected(now),
    {
        let should_collect = match self.last_metrics_time {
            Some(last) => elapsed_since(last, now) >= self.config.metrics_interval,
            None => true,
        };
        if should_collect {
            self.last_metrics_time = Some(now);
            self.collect_metrics_snapshot();
        }
    }

    /// Collect a snapshot of metrics.
    fn collect_metrics_snapshot(&mut self)
        ensures
            final(self)@ == (MonitorModel {
                metrics_history: if old(self)@.metrics_history.len() + 1
                    > old(self)@.config.max_metrics_history {
                    old(self)@.metrics_history.push(old(self)@.metrics).drop_first()
                } else {
                    old(self)@.metrics_history.push(old(self)@.metrics)
                },
                ..old(self)@
            }),
    {
        self.metrics_history.push_back(self.metrics);
        if self.metrics_history.len() > self.config.max_metrics_history {
            let _ = self.metrics_history.pop_front();
        }
        proof {
            let all = old(self)@.metrics_history.push(old(self)@.metrics);
            if all.len() > self.config.max_metrics_history {
                assert(self.metrics_history@ =~= all.drop_first());
            }
        }
    }

    /// Get current metrics.
    pub fn get_metrics(&self) -> (metrics: ConsensusMetrics)
        ensures
            metrics == self@.metrics,
    {
        self.metrics
    }

    /// Get recent anomalies.
    pub fn get_recent_anomalies(&self) -> (anomalies: Vec<SecurityAnomaly>)
        ensures
            anomalies@ == self@.anomalies,
    {
        let mut anomalies: Vec<SecurityAnomaly> = Vec::new();
        let mut i: usize = 0;
        while i < self.anomalies.len()
            invariant
                i <= self.anomalies.len(),
                anomalies@ == self.anomalies@.take(i as int),
            decreases self.anomalies.len() - i,
        {
            anomalies.push(self.anomalies[i]);
            proof {
                assert(anomalies@ =~= self.anomalies@.take(i + 1));
            }
            i += 1;
        }
        proof {
            assert(self.anomalies@.take(i as int) =~= self.anomalies@);
        }
        anomalies
    }

    /// Update authority count.
    pub fn update_authority_count(&mut self, count: u32)
        ensures
            final(self)@ == old(self)@.authorities_counted(count),
    {
        if self.metrics.authorities_count > 0 && self.metrics.authorities_count != count {
            self.record_anomaly(
                SecurityAnomaly::AuthorityAnomaly {
                    expected_count: self.metrics.authorities_count,
                    actual_count: count,
                },
            );
        }
        self.metrics.authorities_count = count;
    }

    /// Check for consensus stalls.
    pub fn check_consensus_stall(&mut self, current_slot: u64, now: u64)
        ensures
            final(self)@ == old(self)@.stall_checked(current_slot, now),
    {
        match self.metrics.last_block_time {
            Some(last_time) => {
                let stall_duration = elapsed_since(last_time, now);
                if stall_duration > self.config.stall_threshold {
                    self.record_anomaly(
                        SecurityAnomaly::ConsensusStall {
                            stall_duration,
                            last_block_slot: 0,
                            current_slot,
                        },
                    );
                    self.metrics.network_health = NetworkHealth::Critical;
                }
            },
            None => {},
        }
    }

    /// Reset monitoring state for new session.
    pub fn new_session(&mut self)
        ensures
            final(self)@ == old(self)@.session_started(),
    {
        self.recent_slots.clear();
        self.metrics.network_health = NetworkHealth::Healthy;
    }
}

/// The efficiency of consensus in parts per million: blocks produced per slot
/// seen, zero if no slot was seen.
pub open spec fn efficiency(metrics: ConsensusMetrics) -> int {
    if metrics.slots_seen == 0 {
        0
    } else {
        metrics.blocks_produced * 1_000_000 / (metrics.slots_seen as int)
    }
}

/// The health that the metrics show: critical if less than half of the
/// slots gave a block, degraded if less than four in five did or more than
/// ten anomalies were seen, else healthy.
pub open spec fn health_of(metrics: ConsensusMetrics) -> NetworkHealth {
    if metrics.slots_seen == 0 || 2 * metrics.blocks_produced < metrics.slots_seen {
        NetworkHealth::Critical
    } else if 5 * metrics.blocks_produced < 4 * metrics.slots_seen || metrics.anomalies_detected
        > 10 {
        NetworkHealth::Degraded
    } else {
        NetworkHealth::Healthy
    }
}

/// Calculate consensus efficiency (blocks produced / slots seen), in parts per million.
pub fn calculate_efficiency(metrics: &ConsensusMetrics) -> (parts_per_million: u128)
    ensures
        parts_per_million == efficiency(*metrics),
{
    if metrics.slots_seen == 0 {
        0
    } else {
        assert(metrics.blocks_produced * 1_000_000 <= u64::MAX * 1_000_000) by (nonlinear_arith)
            requires
                metrics.blocks_produced <= u64::MAX,
        ;
        metrics.blocks_produced as u128 * 1_000_000 / (metrics.slots_seen as u128)
    }
}

/// Determine if the network is healthy based on metrics.
pub fn assess_network_health(metrics: &ConsensusMetrics) -> (health: NetworkHealth)
    ensures
        health == health_of(*metrics),
{
    let blocks = metrics.blocks_produced as u128;
    let slots = metrics.slots_seen as u128;
    if slots == 0 || 2 * blocks < slots {
        NetworkHealth::Critical
    } else if 5 * blocks < 4 * slots || metrics.anomalies_detected > 10 {
        NetworkHealth::Degraded
    } else {
        NetworkHealth::Healthy
    }
}

/// A duration for human readers: seconds with three decimals from one second
/// on, else whole milliseconds.
pub open spec fn duration_text(nanos: u64) -> Seq<char> {
    let secs = (nanos / NANOS_PER_SEC) as nat;
    let millis = (nanos % NANOS_PER_SEC / NANOS_PER_MILLI) as nat;
    if secs > 0 {
        decimal(secs) + "."@ + three_digits(millis) + "s"@
    } else {
        decimal(millis) + "ms"@
    }
}

/// Format duration for human-readable output.
pub fn format_duration(duration: u64) -> (text: String)
    ensures
        text@ == duration_text(duration),
{
    let secs = duration / NANOS_PER_SEC;
    let millis = duration % NANOS_PER_SEC / NANOS_PER_MILLI;
    if secs > 0 {
        let mut text = decimal_text(secs);
        text.append(".");
        text.append(three_digit_text(millis).as_str());
        text.append("s");
        text
    } else {
        let mut text = decimal_text(millis);
        text.append("ms");
        text
    }
}

/// The text that `Debug` gives for a `std::time::Duration` of `nanos` nanoseconds.
pub uninterp spec fn duration_debug(nanos: u64) -> Seq<char>;

/// `Debug` formatting of `std::time::Duration`: the duration with a unit, as
/// the standard library writes it. How digits and unit are chosen is not
/// stated here.
#[verifier::external_body]
pub(crate) fn duration_debug_text(nanos: u64) -> (text: String)
    ensures
        text@ == duration_debug(nanos),
{
    format!("{:?}", std::time::Duration::from_nanos(nanos))
}

impl NetworkHealth {
    /// The name of the status.
    pub open spec fn name(self) -> Seq<char> {
        match self {
            NetworkHealth::Unknown => "Unknown"@,
            NetworkHealth::Healthy => "Healthy"@,
            NetworkHealth::Degraded => "Degraded"@,
            NetworkHealth::Critical => "Critical"@,
        }
    }

    /// Writes the name of the status.
    pub fn name_text(&self) -> (text: &'static str)
        ensures
            text@ == self.name(),
    {
        match self {
            NetworkHealth::Unknown => "Unknown",
            NetworkHealth::Healthy => "Healthy",
            NetworkHealth::Degraded => "Degraded",
            NetworkHealth::Critical => "Critical",
        }
    }
}

/// The health summary of a monitor, with the average block time given as text.
pub open spec fn health_summary(
    metrics: ConsensusMetrics,
    average_block_time: Seq<char>,
    anomalies: nat,
) -> Seq<char> {
    "MICC Consensus Health Summary:\n- Blocks Produced: "@ + decimal(
        metrics.blocks_produced as nat,
    ) + "\n- Slots Seen: "@ + decimal(metrics.slots_seen as nat) + "\n- Empty Slots: "@ + decimal(
        metrics.empty_slots as nat,
    ) + "\n- Average Block Time: "@ + average_block_time + "\n- Network Health: "@
        + metrics.network_health.name() + "\n- Recent Anomalies: "@ + decimal(anomalies)
        + "\n- Authorities: "@ + decimal(metrics.authorities_count as nat)
}

/// Writes the health summary from the metrics, the text of the average block
/// time and the number of recent anomalies.
pub fn write_health_summary(
    metrics: &ConsensusMetrics,
    average_block_time: &str,
    anomalies: usize,
) -> (text: String)
    ensures
        text@ == health_summary(*metrics, average_block_time@, anomalies as nat),
{
    let mut text = String::from_str("MICC Consensus Health Summary:\n- Blocks Produced: ");
    text.append(decimal_text(metrics.blocks_produced).as_str());
    text.append("\n- Slots Seen: ");
    text.append(decimal_text(metrics.slots_seen).as_str());
    text.append("\n- Empty Slots: ");
    text.append(decimal_text(metrics.empty_slots).as_str());
    text.append("\n- Average Block Time: ");
    text.append(average_block_time);
    text.append("\n- Network Health: ");
    text.append(metrics.network_health.name_text());
    text.append("\n- Recent Anomalies: ");
    text.append(decimal_text(anomalies as u64).as_str());
    text.append("\n- Authorities: ");
    text.append(decimal_text(metrics.authorities_count as u64).as_str());
    text
}

impl ConsensusMonitor {
    /// Get metrics summary for health checks.
    pub fn get_health_summary(&self) -> (text: String)
        ensures
            text@ == health_summary(
                self@.metrics,
                duration_debug(self@.metrics.avg_block_time),
                self@.anomalies.len(),
            ),
    {
        let average = duration_debug_text(self.metrics.avg_block_time);
        write_health_summary(&self.metrics, average.as_str(), self.anomalies.len())
    }
}

} // verus!
