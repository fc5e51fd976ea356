//! Trigger controllers: from pool events to block production decisions.
//!
//! Both controllers own at most one collection window and follow the same
//! rules. The smart controller sizes its windows by load and priority and
//! keeps a load tracker; the baseline controller sizes them by the number of
//! ready transactions.

use vstd::prelude::*;
use crate::clock::{elapsed_between, Timer, NANOS_PER_MILLI};
use crate::config::{CollectionConfig, EventDrivenConfig};
use crate::load::{LoadModel, NetworkLoadTracker, TransactionRate};
use crate::trigger::{BlockProductionTrigger, PoolEvent};
use crate::window::{baseline_duration, calculate_collection_duration, CollectionWindow, SmartCollectionWindow};

verus! {

/// Whether `priority` reaches the threshold for immediate production.
pub open spec fn qualifies(priority: Option<u64>, threshold: u64) -> bool {
    priority matches Some(p) && p >= threshold
}

/// Whether a pool of `count` ready transactions with highest priority
/// `priority` asks for a block at once: the batch is full or the priority
/// reaches the threshold.
pub open spec fn immediate(config: CollectionConfig, count: usize, priority: Option<u64>) -> bool {
    count >= config.max_batch_size || qualifies(priority, config.priority_threshold)
}

/// Whether a window opened at `started_at` has lasted for the longest
/// collection time at `now`.
pub open spec fn stalled(config: CollectionConfig, started_at: u64, now: u64) -> bool {
    elapsed_between(started_at, now) >= config.max_collection_time
}

/// Whether a window that a pool update opens counts as opened by priority:
/// the highest priority reaches half the threshold.
pub open spec fn opens_by_priority(priority: Option<u64>, threshold: u64) -> bool {
    priority matches Some(p) && p >= threshold / 2
}

/// The empty-block timer after it is armed anew at `now`.
pub open spec fn rearmed(
    timer: Option<Timer>,
    interval_ms: Option<u64>,
    now: u64,
) -> Option<Timer> {
    match interval_ms {
        Some(ms) => Some(Timer { deadline: (now + ms * NANOS_PER_MILLI) as u128 }),
        None => timer,
    }
}

/// Arms the empty-block timer anew, where an interval is configured.
fn rearm(timer: Option<Timer>, interval_ms: Option<u64>, now: u64) -> (armed: Option<Timer>)
    ensures
        armed == rearmed(timer, interval_ms, now),
{
    match interval_ms {
        Some(ms) => Some(Timer::after_millis(now, ms)),
        None => timer,
    }
}

/// Tells whether a pool update asks for a block at once.
fn is_immediate(config: &CollectionConfig, count: usize, priority: Option<u64>) -> (at_once: bool)
    ensures
        at_once == immediate(*config, count, priority),
{
    if count >= config.max_batch_size {
        return true;
    }
    match priority {
        Some(p) => p >= config.priority_threshold,
        None => false,
    }
}

/// The state of the smart controller, as a mathematical value.
pub struct SmartModel {
    /// The configuration the controller was made with.
    pub config: EventDrivenConfig,
    /// The active collection window, if any.
    pub window: Option<SmartCollectionWindow>,
    /// The timer for empty blocks, if they are configured.
    pub empty_block_timer: Option<Timer>,
    /// The number of ready transactions last reported.
    pub pending: usize,
    /// The instant of the last block, or of the controller's creation.
    pub last_block_time: u64,
    /// The load tracker.
    pub load: LoadModel,
}

impl SmartModel {
    /// A controller is well formed when its collection configuration is.
    pub open spec fn well_formed(self) -> bool {
        self.config.collection.well_formed()
    }

    /// The state and the trigger after a pool event at `now`.
    pub open spec fn handle(self, event: PoolEvent, now: u64) -> (
        SmartModel,
        BlockProductionTrigger,
    ) {
        let collection = self.config.collection;
        let load = self.load.arrival(now);
        match event {
            PoolEvent::TransactionAdded(_) => (
                SmartModel { load, ..self },
                BlockProductionTrigger::NoTrigger,
            ),
            PoolEvent::HighPriorityTransactionAdded(_, priority) => {
                if priority >= collection.priority_threshold {
                    (
                        SmartModel { load, window: None, ..self },
                        BlockProductionTrigger::ProduceImmediately,
                    )
                } else {
                    match self.window {
                        Some(window) => (
                            SmartModel {
                                load,
                                window: Some(window.with_priority(priority, collection, now)),
                                ..self
                            },
                            BlockProductionTrigger::NoTrigger,
                        ),
                        None => (
                            SmartModel {
                                load,
                                window: Some(
                                    SmartCollectionWindow::opened(
                                        collection,
                                        self.pending,
                                        Some(priority),
                                        load.tps,
                                        true,
                                        now,
                                    ),
                                ),
                                ..self
                            },
                            BlockProductionTrigger::StartCollectionWindow,
                        ),
                    }
                }
            },
            PoolEvent::PoolReady(count, priority) => {
                if immediate(collection, count, priority) {
                    (
                        SmartModel { load, window: None, pending: count, ..self },
                        BlockProductionTrigger::ProduceImmediately,
                    )
                } else {
                    match self.window {
                        Some(window) => if stalled(collection, window.started_at, now) {
                            (
                                SmartModel { load, window: None, pending: count, ..self },
                                BlockProductionTrigger::ProduceImmediately,
                            )
                        } else {
                            (
                                SmartModel { load, pending: count, ..self },
                                BlockProductionTrigger::NoTrigger,
                            )
                        },
                        None => if count > 0 {
                            (
                                SmartModel {
                                    load,
                                    pending: count,
                                    window: Some(
                                        SmartCollectionWindow::opened(
                                            collection,
                                            count,
                                            priority,
                                            load.tps,
                                            opens_by_priority(
                                                priority,
                                                collection.priority_threshold,
                                            ),
                                            now,
                                        ),
                                    ),
                                    ..self
                                },
                                BlockProductionTrigger::StartCollectionWindow,
                            )
                        } else {
                            (
                                SmartModel { load, pending: count, ..self },
                                BlockProductionTrigger::NoTrigger,
                            )
                        },
                    }
                }
            },
            PoolEvent::PoolEmpty => (
                SmartModel { window: None, pending: 0, ..self },
                BlockProductionTrigger::NoTrigger,
            ),
            PoolEvent::TransactionRemoved(_) => (self, BlockProductionTrigger::NoTrigger),
            PoolEvent::NetworkLoad(_) => (self, BlockProductionTrigger::NoTrigger),
        }
    }

    /// The state and the trigger after a check of the collection window at `now`.
    pub open spec fn check_window(self, now: u64) -> (SmartModel, BlockProductionTrigger) {
        match self.window {
            Some(window) => if window.timer.fired_at(now) {
                (
                    SmartModel { window: None, ..self },
                    if self.pending > 0 {
                        BlockProductionTrigger::CollectionWindowExpired
                    } else {
                        BlockProductionTrigger::NoTrigger
                    },
                )
            } else {
                (self, BlockProductionTrigger::NoTrigger)
            },
            None => (self, BlockProductionTrigger::NoTrigger),
        }
    }

    /// The state and the trigger after a check of the empty-block timer at `now`.
    pub open spec fn check_empty_timer(self, now: u64) -> (SmartModel, BlockProductionTrigger) {
        match self.empty_block_timer {
            Some(timer) => if timer.fired_at(now) {
                (
                    SmartModel {
                        empty_block_timer: rearmed(
                            self.empty_block_timer,
                            self.config.empty_block_interval_ms,
                            now,
                        ),
                        ..self
                    },
                    BlockProductionTrigger::EmptyBlockTimer,
                )
            } else {
                (self, BlockProductionTrigger::NoTrigger)
            },
            None => (self, BlockProductionTrigger::NoTrigger),
        }
    }

    /// The state after a block was produced at `now`.
    pub open spec fn block_produced(self, now: u64) -> SmartModel {
        SmartModel {
            window: None,
            last_block_time: now,
            empty_block_timer: rearmed(
                self.empty_block_timer,
                self.config.empty_block_interval_ms,
                now,
            ),
            ..self
        }
    }
}

/// Smart event-driven block production controller with adaptive collection.
pub struct SmartEventDrivenController {
    config: EventDrivenConfig,
    collection_window: Option<SmartCollectionWindow>,
    empty_block_timer: Option<Timer>,
    pending_transactions: usize,
    last_block_time: u64,
    network_load_tracker: NetworkLoadTracker,
}

impl View for SmartEventDrivenController {
    type V = SmartModel;

    closed spec fn view(&self) -> SmartModel {
        SmartModel {
            config: self.config,
            window: self.collection_window,
            empty_block_timer: self.empty_block_timer,
            pending: self.pending_transactions,
            last_block_time: self.last_block_time,
            load: self.network_load_tracker@,
        }
    }
}

impl SmartEventDrivenController {
    /// Create a new smart event-driven controller.
    pub fn new(config: EventDrivenConfig, now: u64) -> (controller: Self)
        requires
            config.collection.well_formed(),
        ensures
            controller@ == (SmartModel {
                config,
                window: None,
                empty_block_timer: rearmed(None, config.empty_block_interval_ms, now),
                pending: 0,
                last_block_time: now,
                load: LoadModel {
                    history: Seq::<u64>::empty(),
                    capacity: config.transaction_rate_history_size,
                    tps: TransactionRate { transactions: 0, nanos: 0 },
                    computed_at: now,
                },
            }),
            controller@.well_formed(),
    {
        SmartEventDrivenController {
            config,
            collection_window: None,
            empty_block_timer: rearm(None, config.empty_block_interval_ms, now),
            pending_transactions: 0,
            last_block_time: now,
            network_load_tracker: NetworkLoadTracker::new(
                config.transaction_rate_history_size,
                now,
            ),
        }
    }

    /// Handle a pool event and determine if block production should be triggered.
    pub fn handle_pool_event(&mut self, event: PoolEvent, now: u64) -> (trigger:
        BlockProductionTrigger)
        requires
            old(self)@.well_formed(),
        ensures
            (final(self)@, trigger) == old(self)@.handle(event, now),
            final(self)@.well_formed(),
    {
        match event {
            PoolEvent::TransactionAdded(_) => {
                let _ = self.network_load_tracker.record_transaction(now);
                BlockProductionTrigger::NoTrigger
            },
            PoolEvent::HighPriorityTransactionAdded(_, priority) => {
                let tps = self.network_load_tracker.record_transaction(now);
                if priority >= self.config.collection.priority_threshold {
                    self.collection_window = None;
                    return BlockProductionTrigger::ProduceImmediately;
                }
                match self.collection_window {
                    Some(mut window) => {
                        window.update_priority(priority, &self.config.collection, now);
                        self.collection_window = Some(window);
                        BlockProductionTrigger::NoTrigger
                    },
                    None => self.start_collection_window_for_priority(priority, tps, now),
                }
            },
            PoolEvent::PoolReady(count, highest_priority) => {
                let tps = self.network_load_tracker.record_transaction(now);
                self.pending_transactions = count;
                if self.should_produce_immediately(count, highest_priority, now) {
                    self.collection_window = None;
                    return BlockProductionTrigger::ProduceImmediately;
                }
                if self.collection_window.is_none() && count > 0 {
                    let priority_triggered = match highest_priority {
                        Some(p) => p >= self.config.collection.priority_threshold / 2,
                        None => false,
                    };
                    self.collection_window = Some(
                        SmartCollectionWindow::new(
                            &self.config.collection,
                            count,
                            highest_priority,
                            tps,
                            priority_triggered,
                            now,
                        ),
                    );
                    return BlockProductionTrigger::StartCollectionWindow;
                }
                BlockProductionTrigger::NoTrigger
            },
            PoolEvent::PoolEmpty => {
                self.pending_transactions = 0;
                self.collection_window = None;
                BlockProductionTrigger::NoTrigger
            },
            PoolEvent::TransactionRemoved(_) => BlockProductionTrigger::NoTrigger,
            PoolEvent::NetworkLoad(_) => BlockProductionTrigger::NoTrigger,
        }
    }

    /// Start a new collection window for a transaction whose priority is
    /// under the threshold.
    fn start_collection_window_for_priority(
        &mut self,
        priority: u64,
        network_load: TransactionRate,
        now: u64,
    ) -> (trigger: BlockProductionTrigger)
        requires
            old(self)@.well_formed(),
        ensures
            trigger == BlockProductionTrigger::StartCollectionWindow,
            final(self)@ == (SmartModel {
                window: Some(
                    SmartCollectionWindow::opened(
                        old(self)@.config.collection,
                        old(self)@.pending,
                        Some(priority),
                        network_load,
                        true,
                        now,
                    ),
                ),
                ..old(self)@
            }),
    {
        self.collection_window = Some(
            SmartCollectionWindow::new(
                &self.config.collection,
                self.pending_transactions,
                Some(priority),
                network_load,
                true,
                now,
            ),
        );
        BlockProductionTrigger::StartCollectionWindow
    }

    /// Check if collection window has expired.
    pub fn check_collection_window(&mut self, now: u64) -> (trigger: BlockProductionTrigger)
        ensures
            (final(self)@, trigger) == old(self)@.check_window(now),
    {
        match self.collection_window {
            Some(window) => {
                if window.is_expired(now) {
                    self.collection_window = None;
                    if self.pending_transactions > 0 {
                        return BlockProductionTrigger::CollectionWindowExpired;
                    }
                }
                BlockProductionTrigger::NoTrigger
            },
            None => BlockProductionTrigger::NoTrigger,
        }
    }

    /// Check if empty block timer has expired.
    pub fn check_empty_block_timer(&mut self, now: u64) -> (trigger: BlockProductionTrigger)
        ensures
            (final(self)@, trigger) == old(self)@.check_empty_timer(now),
    {
        match self.empty_block_timer {
            Some(timer) => {
                if timer.is_expired(now) {
                    self.empty_block_timer = rearm(
                        self.empty_block_timer,
                        self.config.empty_block_interval_ms,
                        now,
                    );
                    return BlockProductionTrigger::EmptyBlockTimer;
                }
                BlockProductionTrigger::NoTrigger
            },
            None => BlockProductionTrigger::NoTrigger,
        }
    }

    /// Record that a block was produced.
    pub fn record_block_produced(&mut self, now: u64)
        ensures
            final(self)@ == old(self)@.block_produced(now),
    {
        self.last_block_time = now;
        self.collection_window = None;
        self.empty_block_timer = rearm(
            self.empty_block_timer,
            self.config.empty_block_interval_ms,
            now,
        );
    }

    /// Check if we should produce a block immediately.
    fn should_produce_immediately(
        &self,
        tx_count: usize,
        highest_priority: Option<u64>,
        now: u64,
    ) -> (produce: bool)
        ensures
            produce == (immediate(self@.config.collection, tx_count, highest_priority) || (
            self@.window matches Some(w) && stalled(self@.config.collection, w.started_at, now))),
    {
        if is_immediate(&self.config.collection, tx_count, highest_priority) {
            return true;
        }
        match self.collection_window {
            Some(window) => window.elapsed(now) >= self.config.collection.max_collection_time,
            None => false,
        }
    }

    /// Get current network load.
    pub fn get_network_load(&self) -> (load: TransactionRate)
        ensures
            load == self@.load.tps,
    {
        self.network_load_tracker.get_tps()
    }

    /// The active collection window, if there is one.
    pub fn collection_window(&self) -> (window: Option<SmartCollectionWindow>)
        ensures
            window == self@.window,
    {
        self.collection_window
    }

    /// The number of ready transactions last reported.
    pub fn pending_transactions(&self) -> (pending: usize)
        ensures
            pending == self@.pending,
    {
        self.pending_transactions
    }
}

/// The state of the baseline controller, as a mathematical value.
pub struct BaselineModel {
    /// The configuration the controller was made with.
    pub config: EventDrivenConfig,
    /// The active collection window, if any.
    pub window: Option<CollectionWindow>,
    /// The timer for empty blocks, if they are configured.
    pub empty_block_timer: Option<Timer>,
    /// The number of ready transactions last reported.
    pub pending: usize,
    /// The instant of the last block, or of the controller's creation.
    pub last_block_time: u64,
}

impl BaselineModel {
    /// A controller is well formed when its collection configuration is.
    pub open spec fn well_formed(self) -> bool {
        self.config.collection.well_formed()
    }

    /// The state and the trigger after a pool event at `now`.
    pub open spec fn handle(self, event: PoolEvent, now: u64) -> (
        BaselineModel,
        BlockProductionTrigger,
    ) {
        let collection = self.config.collection;
        match event {
            PoolEvent::TransactionAdded(_) => (self, BlockProductionTrigger::NoTrigger),
            PoolEvent::HighPriorityTransactionAdded(_, priority) => {
                if priority >= collection.priority_threshold {
                    (
                        BaselineModel { window: None, ..self },
                        BlockProductionTrigger::ProduceImmediately,
                    )
                } else {
                    (self, BlockProductionTrigger::NoTrigger)
                }
            },
            PoolEvent::PoolReady(count, priority) => {
                if immediate(collection, count, priority) {
                    (
                        BaselineModel { window: None, pending: count, ..self },
                        BlockProductionTrigger::ProduceImmediately,
                    )
                } else {
                    match self.window {
                        Some(window) => if stalled(collection, window.started_at, now) {
                            (
                                BaselineModel { window: None, pending: count, ..self },
                                BlockProductionTrigger::ProduceImmediately,
                            )
                        } else {
                            (
                                BaselineModel { pending: count, ..self },
                                BlockProductionTrigger::NoTrigger,
                            )
                        },
                        None => if count > 0 {
                            (
                                BaselineModel {
                                    pending: count,
                                    window: Some(
                                        CollectionWindow::opened(
                                            baseline_duration(collection, count) as u64,
                                            count,
                                            now,
                                        ),
                                    ),
                                    ..self
                                },
                                BlockProductionTrigger::StartCollectionWindow,
                            )
                        } else {
                            (
                                BaselineModel { pending: count, ..self },
                                BlockProductionTrigger::NoTrigger,
                            )
                        },
                    }
                }
            },
            PoolEvent::PoolEmpty => (
                BaselineModel { window: None, pending: 0, ..self },
                BlockProductionTrigger::NoTrigger,
            ),
            PoolEvent::TransactionRemoved(_) => (self, BlockProductionTrigger::NoTrigger),
            PoolEvent::NetworkLoad(_) => (self, BlockProductionTrigger::NoTrigger),
        }
    }

    /// The state and the trigger after a check of the collection window at `now`.
    pub open spec fn check_window(self, now: u64) -> (BaselineModel, BlockProductionTrigger) {
        match self.window {
            Some(window) => if window.timer.fired_at(now) {
                (
                    BaselineModel { window: None, ..self },
                    if self.pending > 0 {
                        BlockProductionTrigger::CollectionWindowExpired
                    } else {
                        BlockProductionTrigger::NoTrigger
                    },
                )
            } else {
                (self, BlockProductionTrigger::NoTrigger)
            },
            None => (self, BlockProductionTrigger::NoTrigger),
        }
    }

    /// The state and the trigger after a check of the empty-block timer at `now`.
    pub open spec fn check_empty_timer(self, now: u64) -> (BaselineModel, BlockProductionTrigger) {
        match self.empty_block_timer {
            Some(timer) => if timer.fired_at(now) {
                (
                    BaselineModel {
                        empty_block_timer: rearmed(
                            self.empty_block_timer,
                            self.config.empty_block_interval_ms,
                            now,
                        ),
                        ..self
                    },
                    BlockProductionTrigger::EmptyBlockTimer,
                )
            } else {
                (self, BlockProductionTrigger::NoTrigger)
            },
            None => (self, BlockProductionTrigger::NoTrigger),
        }
    }

    /// The state after a block was produced at `now`.
    pub open spec fn block_produced(self, now: u64) -> BaselineModel {
        BaselineModel {
            window: None,
            last_block_time: now,
            empty_block_timer: rearmed(
                self.empty_block_timer,
                self.config.empty_block_interval_ms,
                now,
            ),
            ..self
        }
    }
}

/// Baseline event-driven block production controller.
pub struct EventDrivenController {
    config: EventDrivenConfig,
    collection_window: Option<CollectionWindow>,
    empty_block_timer: Option<Timer>,
    pending_transactions: usize,
    last_block_time: u64,
}

impl View for EventDrivenController {
    type V = BaselineModel;

    closed spec fn view(&self) -> BaselineModel {
        BaselineModel {
            config: self.config,
            window: self.collection_window,
            empty_block_timer: self.empty_block_timer,
            pending: self.pending_transactions,
            last_block_time: self.last_block_time,
        }
    }
}

impl EventDrivenController {
    /// Create a new event-driven controller.
    pub fn new(config: EventDrivenConfig, now: u64) -> (controller: Self)
        requires
            config.collection.well_formed(),
        ensures
            controller@ == (BaselineModel {
                config,
                window: None,
                empty_block_timer: rearmed(None, config.empty_block_interval_ms, now),
                pending: 0,
                last_block_time: now,
            }),
            controller@.well_formed(),
    {
        EventDrivenController {
            config,
            collection_window: None,
            empty_block_timer: rearm(None, config.empty_block_interval_ms, now),
            pending_transactions: 0,
            last_block_time: now,
        }
    }

    /// Handle a pool event and determine if block production should be triggered.
    pub fn handle_pool_event(&mut self, event: PoolEvent, now: u64) -> (trigger:
        BlockProductionTrigger)
        requires
            old(self)@.well_formed(),
        ensures
            (final(self)@, trigger) == old(self)@.handle(event, now),
            final(self)@.well_formed(),
    {
        match event {
            PoolEvent::TransactionAdded(_) => BlockProductionTrigger::NoTrigger,
            PoolEvent::HighPriorityTransactionAdded(_, priority) => {
                if priority >= self.config.collection.priority_threshold {
                    self.collection_window = None;
                    return BlockProductionTrigger::ProduceImmediately;
                }
                BlockProductionTrigger::NoTrigger
            },
            PoolEvent::PoolReady(count, highest_priority) => {
                self.pending_transactions = count;
                if self.should_produce_immediately(count, highest_priority, now) {
                    self.collection_window = None;
                    return BlockProductionTrigger::ProduceImmediately;
                }
                if self.collection_window.is_none() && count > 0 {
                    let duration = self.calculate_collection_window_duration(count);
                    self.collection_window = Some(CollectionWindow::new(duration, count, now));
                    return BlockProductionTrigger::StartCollectionWindow;
                }
                BlockProductionTrigger::NoTrigger
            },
            PoolEvent::PoolEmpty => {
                self.pending_transactions = 0;
                self.collection_window = None;
                BlockProductionTrigger::NoTrigger
            },
            PoolEvent::TransactionRemoved(_) => BlockProductionTrigger::NoTrigger,
            PoolEvent::NetworkLoad(_) => BlockProductionTrigger::NoTrigger,
        }
    }

    /// Check if collection window has expired.
    pub fn check_collection_window(&mut self, now: u64) -> (trigger: BlockProductionTrigger)
        ensures
            (final(self)@, trigger) == old(self)@.check_window(now),
    {
        match self.collection_window {
            Some(window) => {
                if window.is_expired(now) {
                    self.collection_window = None;
                    if self.pending_transactions > 0 {
                        return BlockProductionTrigger::CollectionWindowExpired;
                    }
                }
                BlockProductionTrigger::NoTrigger
            },
            None => BlockProductionTrigger::NoTrigger,
        }
    }

    /// Check if empty block timer has expired.
    pub fn check_empty_block_timer(&mut self, now: u64) -> (trigger: BlockProductionTrigger)
        ensures
            (final(self)@, trigger) == old(self)@.check_empty_timer(now),
    {
        match self.empty_block_timer {
            Some(timer) => {
                if timer.is_expired(now) {
                    self.empty_block_timer = rearm(
                        self.empty_block_timer,
                        self.config.empty_block_interval_ms,
                        now,
                    );
                    return BlockProductionTrigger::EmptyBlockTimer;
                }
                BlockProductionTrigger::NoTrigger
            },
            None => BlockProductionTrigger::NoTrigger,
        }
    }

    /// Record that a block was produced.
    pub fn record_block_produced(&mut self, now: u64)
        ensures
            final(self)@ == old(self)@.block_produced(now),
    {
        self.last_block_time = now;
        self.collection_window = None;
        self.empty_block_timer = rearm(
            self.empty_block_timer,
            self.config.empty_block_interval_ms,
            now,
        );
    }

    /// Calculate the collection window duration from the number of ready transactions.
    pub fn calculate_collection_window_duration(&self, tx_count: usize) -> (duration: u64)
        requires
            self@.well_formed(),
        ensures
            duration == baseline_duration(self@.config.collection, tx_count),
    {
        calculate_collection_duration(&self.config.collection, tx_count)
    }

    /// Check if we should produce a block immediately without waiting for the
    /// collection window.
    pub fn should_produce_immediately(
        &self,
        tx_count: usize,
        highest_priority: Option<u64>,
        now: u64,
    ) -> (produce: bool)
        ensures
            produce == (immediate(self@.config.collection, tx_count, highest_priority) || (
            self@.window matches Some(w) && stalled(self@.config.collection, w.started_at, now))),
    {
        if is_immediate(&self.config.collection, tx_count, highest_priority) {
            return true;
        }
        match self.collection_window {
            Some(window) => window.elapsed(now) >= self.config.collection.max_collection_time,
            None => false,
        }
    }

    /// The active collection window, if there is one.
    pub fn collection_window(&self) -> (window: Option<CollectionWindow>)
        ensures
            window == self@.window,
    {
        self.collection_window
    }

    /// The number of ready transactions last reported.
    pub fn pending_transactions(&self) -> (pending: usize)
        ensures
            pending == self@.pending,
    {
        self.pending_transactions
    }
}

/// A pool update with a full batch always asks for a block at once, whatever
/// the state of either controller.
pub proof fn lemma_full_batch_produces(
    smart: SmartModel,
    baseline: BaselineModel,
    count: usize,
    priority: Option<u64>,
    now: u64,
)
    ensures
        count >= smart.config.collection.max_batch_size ==> smart.handle(
            PoolEvent::PoolReady(count, priority),
            now,
        ).1 == BlockProductionTrigger::ProduceImmediately,
        count >= baseline.config.collection.max_batch_size ==> baseline.handle(
            PoolEvent::PoolReady(count, priority),
            now,
        ).1 == BlockProductionTrigger::ProduceImmediately,
{
}

/// A priority at or above the threshold always asks for a block at once,
/// whether it comes with a transaction or with a pool update, and whatever
/// the number of ready transactions.
pub proof fn lemma_high_priority_produces(
    smart: SmartModel,
    baseline: BaselineModel,
    hash: [u8; 32],
    count: usize,
    priority: u64,
    now: u64,
)
    ensures
        priority >= smart.config.collection.priority_threshold ==> {
            &&& smart.handle(PoolEvent::HighPriorityTransactionAdded(hash, priority), now).1
                == BlockProductionTrigger::ProduceImmediately
            &&& smart.handle(PoolEvent::PoolReady(count, Some(priority)), now).1
                == BlockProductionTrigger::ProduceImmediately
        },
        priority >= baseline.config.collection.priority_threshold ==> {
            &&& baseline.handle(PoolEvent::HighPriorityTransactionAdded(hash, priority), now).1
                == BlockProductionTrigger::ProduceImmediately
            &&& baseline.handle(PoolEvent::PoolReady(count, Some(priority)), now).1
                == BlockProductionTrigger::ProduceImmediately
        },
{
}

/// An empty pool clears the window, and a check of the window afterwards,
/// at any time, gives no trigger.
pub proof fn lemma_empty_pool_clears_window(
    smart: SmartModel,
    baseline: BaselineModel,
    now: u64,
    later: u64,
)
    ensures
        smart.handle(PoolEvent::PoolEmpty, now).0.window is None,
        smart.handle(PoolEvent::PoolEmpty, now).1 == BlockProductionTrigger::NoTrigger,
        smart.handle(PoolEvent::PoolEmpty, now).0.check_window(later).1
            == BlockProductionTrigger::NoTrigger,
        baseline.handle(PoolEvent::PoolEmpty, now).0.window is None,
        baseline.handle(PoolEvent::PoolEmpty, now).1 == BlockProductionTrigger::NoTrigger,
        baseline.handle(PoolEvent::PoolEmpty, now).0.check_window(later).1
            == BlockProductionTrigger::NoTrigger,
{
}

/// A window reports its expiry once: the check that finds the timer fired
/// clears the window, and the next check gives no trigger.
pub proof fn lemma_window_expires_once(smart: SmartModel, baseline: BaselineModel, now: u64, later: u64)
    ensures
        smart.check_window(now).1 == BlockProductionTrigger::CollectionWindowExpired
            ==> smart.check_window(now).0.check_window(later).1
            == BlockProductionTrigger::NoTrigger,
        baseline.check_window(now).1 == BlockProductionTrigger::CollectionWindowExpired
            ==> baseline.check_window(now).0.check_window(later).1
            == BlockProductionTrigger::NoTrigger,
{
}

} // verus!
