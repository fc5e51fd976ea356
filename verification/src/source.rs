//! The event source: from pool observations to the signals of the slot loop.
//!
//! The caller watches the pool and the clock and hands each observation to
//! a step function, which decides. Only `CreateBlock` is meant to be passed
//! on to the slot loop.

use vstd::prelude::*;
use crate::clock::Timer;
use crate::config::{CollectionConfig, EventDrivenConfig};
use crate::load::{LoadModel, NetworkLoadTracker, TransactionRate};
use crate::trigger::{PoolEvent, SlotTrigger, TransactionHash};
use crate::window::{baseline_duration, calculate_collection_duration, SmartCollectionWindow};

verus! {

/// The interval of the backup poll while notifications arrive, in milliseconds.
pub const BACKUP_POLL_MS: u64 = 500;

/// The interval of the poll once the notification feed has ended, in milliseconds.
pub const FALLBACK_POLL_MS: u64 = 100;

/// What the caller saw of the pool.
#[derive(Debug, Clone, Copy, PartialEq, Eq, Structural)]
pub struct PoolSnapshot {
    /// The number of ready transactions.
    pub ready_count: usize,
    /// The highest priority among the ready transactions, if there is any.
    pub highest_priority: Option<u64>,
}

/// An observation of the pool or of the clock.
#[derive(Debug, Clone, Copy, PartialEq, Eq, Structural)]
pub enum SourceEvent {
    /// A transaction was imported into the pool.
    Imported(PoolSnapshot),
    /// The notification feed has ended.
    FeedEnded,
    /// The poll interval has passed.
    Tick(PoolSnapshot),
}

/// Whether the source still hears of imports.
#[derive(Debug, Clone, Copy, PartialEq, Eq, Structural)]
pub enum FeedMode {
    /// Imports are notified; a backup poll runs beside them.
    Notified,
    /// The feed has ended; only the poll is left.
    PollingOnly,
}

/// The priority that counts for a pool whose highest priority may be unknown.
pub open spec fn effective_priority(priority: Option<u64>) -> u64 {
    match priority {
        Some(p) => p,
        None => 0,
    }
}

/// Whether a snapshot asks for a block at once: the batch is full or the
/// priority reaches the threshold.
pub open spec fn urgent(config: CollectionConfig, snapshot: PoolSnapshot) -> bool {
    snapshot.ready_count >= config.max_batch_size || effective_priority(
        snapshot.highest_priority,
    ) >= config.priority_threshold
}

/// Tells whether a snapshot asks for a block at once.
fn is_urgent(config: &CollectionConfig, snapshot: &PoolSnapshot) -> (at_once: bool)
    ensures
        at_once == urgent(*config, *snapshot),
{
    let priority = match snapshot.highest_priority {
        Some(p) => p,
        None => 0,
    };
    snapshot.ready_count >= config.max_batch_size || priority >= config.priority_threshold
}

/// The timer of a window opened at `now` for `ready_count` transactions.
pub open spec fn window_timer(config: CollectionConfig, ready_count: usize, now: u64) -> Timer {
    Timer { deadline: (now + baseline_duration(config, ready_count)) as u128 }
}

/// The source that is driven by import notifications, with a backup poll.
#[derive(Debug, Clone, Copy, PartialEq, Eq, Structural)]
pub struct NotificationSource {
    /// The number of ready transactions last seen.
    pub last_status: usize,
    /// The timer of the active collection window, if there is one.
    pub collection_timer: Option<Timer>,
    /// Whether imports are still notified.
    pub mode: FeedMode,
}

impl NotificationSource {
    /// The source and its signal after an import notification.
    ///
    /// A pool that is not empty asks for a block at once if it is urgent,
    /// which also ends the window; else a window is opened unless one is
    /// active.
    pub open spec fn imported(self, config: CollectionConfig, snapshot: PoolSnapshot, now: u64) -> (
        NotificationSource,
        SlotTrigger,
    ) {
        let seen = NotificationSource { last_status: snapshot.ready_count, ..self };
        if snapshot.ready_count > 0 {
            if urgent(config, snapshot) {
                (NotificationSource { collection_timer: None, ..seen }, SlotTrigger::CreateBlock)
            } else if self.collection_timer is None {
                (
                    NotificationSource {
                        collection_timer: Some(window_timer(config, snapshot.ready_count, now)),
                        ..seen
                    },
                    SlotTrigger::NoAction,
                )
            } else {
                (seen, SlotTrigger::NoAction)
            }
        } else {
            (seen, SlotTrigger::NoAction)
        }
    }

    /// The source and its signal after a poll.
    ///
    /// A window whose timer has fired ends, with a block if the pool is not
    /// empty. Else a change of the pool is taken up as an import would be,
    /// and an empty pool ends the window.
    pub open spec fn polled(self, config: CollectionConfig, snapshot: PoolSnapshot, now: u64) -> (
        NotificationSource,
        SlotTrigger,
    ) {
        let fired = self.collection_timer matches Some(timer) && timer.fired_at(now);
        if fired && snapshot.ready_count > 0 {
            (
                NotificationSource {
                    collection_timer: None,
                    last_status: snapshot.ready_count,
                    ..self
                },
                SlotTrigger::CreateBlock,
            )
        } else {
            let timer = if fired {
                None
            } else {
                self.collection_timer
            };
            if snapshot.ready_count != self.last_status {
                let seen = NotificationSource {
                    last_status: snapshot.ready_count,
                    collection_timer: timer,
                    ..self
                };
                if snapshot.ready_count > 0 && timer is None {
                    if urgent(config, snapshot) {
                        (seen, SlotTrigger::CreateBlock)
                    } else {
                        (
                            NotificationSource {
                                collection_timer: Some(
                                    window_timer(config, snapshot.ready_count, now),
                                ),
                                ..seen
                            },
                            SlotTrigger::NoAction,
                        )
                    }
                } else if snapshot.ready_count == 0 {
                    (NotificationSource { collection_timer: None, ..seen }, SlotTrigger::NoAction)
                } else {
                    (seen, SlotTrigger::NoAction)
                }
            } else {
                (NotificationSource { collection_timer: timer, ..self }, SlotTrigger::NoAction)
            }
        }
    }

    /// The source and its signal after an observation.
    ///
    /// Once the feed has ended the source goes on by polling alone, and a
    /// late notification is not acted upon.
    pub open spec fn stepped(self, config: CollectionConfig, event: SourceEvent, now: u64) -> (
        NotificationSource,
        SlotTrigger,
    ) {
        match event {
            SourceEvent::Imported(snapshot) => match self.mode {
                FeedMode::Notified => self.imported(config, snapshot, now),
                FeedMode::PollingOnly => (self, SlotTrigger::NoAction),
            },
            SourceEvent::FeedEnded => (
                NotificationSource { mode: FeedMode::PollingOnly, ..self },
                SlotTrigger::NoAction,
            ),
            SourceEvent::Tick(snapshot) => self.polled(config, snapshot, now),
        }
    }

    /// The time to the next poll, in milliseconds: 500 while imports are
    /// notified, 100 once the feed has ended.
    pub open spec fn poll_interval(self) -> u64 {
        match self.mode {
            FeedMode::Notified => BACKUP_POLL_MS,
            FeedMode::PollingOnly => FALLBACK_POLL_MS,
        }
    }

    /// A source that starts with `ready_count` transactions in the pool and no window.
    pub fn new(ready_count: usize) -> (source: Self)
        ensures
            source == (NotificationSource {
                last_status: ready_count,
                collection_timer: None,
                mode: FeedMode::Notified,
            }),
    {
        NotificationSource {
            last_status: ready_count,
            collection_timer: None,
            mode: FeedMode::Notified,
        }
    }

    /// Takes an observation and gives the signal for the slot loop.
    pub fn step(&mut self, config: &EventDrivenConfig, event: SourceEvent, now: u64) -> (signal:
        SlotTrigger)
        requires
            config.collection.well_formed(),
        ensures
            (*final(self), signal) == old(self).stepped(config.collection, event, now),
    {
        match event {
            SourceEvent::Imported(snapshot) => {
                match self.mode {
                    FeedMode::PollingOnly => {
                        return SlotTrigger::NoAction;
                    },
                    FeedMode::Notified => {},
                }
                self.last_status = snapshot.ready_count;
                if snapshot.ready_count > 0 {
                    if is_urgent(&config.collection, &snapshot) {
                        self.collection_timer = None;
                        return SlotTrigger::CreateBlock;
                    }
                    if self.collection_timer.is_none() {
                        let duration = calculate_collection_duration(
                            &config.collection,
                            snapshot.ready_count,
                        );
                        self.collection_timer = Some(Timer::after_nanos(now, duration));
                    }
                }
                SlotTrigger::NoAction
            },
            SourceEvent::FeedEnded => {
                self.mode = FeedMode::PollingOnly;
                SlotTrigger::NoAction
            },
            SourceEvent::Tick(snapshot) => {
                let fired = match self.collection_timer {
                    Some(timer) => timer.is_expired(now),
                    None => false,
                };
                if fired {
                    self.collection_timer = None;
                    if snapshot.ready_count > 0 {
                        self.last_status = snapshot.ready_count;
                        return SlotTrigger::CreateBlock;
                    }
                }
                if snapshot.ready_count != self.last_status {
                    self.last_status = snapshot.ready_count;
                    if snapshot.ready_count > 0 && self.collection_timer.is_none() {
                        if is_urgent(&config.collection, &snapshot) {
                            return SlotTrigger::CreateBlock;
                        }
                        let duration = calculate_collection_duration(
                            &config.collection,
                            snapshot.ready_count,
                        );
                        self.collection_timer = Some(Timer::after_nanos(now, duration));
                    } else if snapshot.ready_count == 0 {
                        self.collection_timer = None;
                    }
                }
                SlotTrigger::NoAction
            },
        }
    }

    /// The time to the next poll, in milliseconds.
    pub fn poll_interval_ms(&self) -> (millis: u64)
        ensures
            millis == self.poll_interval(),
    {
        match self.mode {
            FeedMode::Notified => BACKUP_POLL_MS,
            FeedMode::PollingOnly => FALLBACK_POLL_MS,
        }
    }
}

/// The source that polls the pool at a fixed interval.
#[derive(Debug, Clone, Copy, PartialEq, Eq, Structural)]
pub struct IntervalSource {
    /// The number of ready transactions last seen.
    pub last_status: usize,
    /// The timer of the active collection window, if there is one.
    pub collection_timer: Option<Timer>,
}

impl IntervalSource {
    /// The source and its signal after a poll.
    ///
    /// A change of the pool is taken up first: a pool that is not empty asks
    /// for a block at once if it is urgent, else opens a window unless one is
    /// active; an empty pool ends the window. Then a window whose timer has
    /// fired ends, with a block if the pool is not empty.
    pub open spec fn polled(self, config: CollectionConfig, snapshot: PoolSnapshot, now: u64) -> (
        IntervalSource,
        SlotTrigger,
    ) {
        let changed = snapshot.ready_count != self.last_status;
        let seen = IntervalSource { last_status: snapshot.ready_count, ..self };
        if changed && snapshot.ready_count > 0 && self.collection_timer is None && urgent(
            config,
            snapshot,
        ) {
            (seen, SlotTrigger::CreateBlock)
        } else {
            let timer = if changed && snapshot.ready_count > 0 && self.collection_timer is None {
                Some(window_timer(config, snapshot.ready_count, now))
            } else if changed && snapshot.ready_count == 0 {
                None
            } else {
                self.collection_timer
            };
            if timer matches Some(t) && t.fired_at(now) {
                (
                    IntervalSource { collection_timer: None, ..seen },
                    if snapshot.ready_count > 0 {
                        SlotTrigger::CreateBlock
                    } else {
                        SlotTrigger::NoAction
                    },
                )
            } else {
                (IntervalSource { collection_timer: timer, ..seen }, SlotTrigger::NoAction)
            }
        }
    }

    /// A source that starts with `ready_count` transactions in the pool and no window.
    pub fn new(ready_count: usize) -> (source: Self)
        ensures
            source == (IntervalSource { last_status: ready_count, collection_timer: None }),
    {
        IntervalSource { last_status: ready_count, collection_timer: None }
    }

    /// Takes a poll of the pool and gives the signal for the slot loop.
    pub fn step(&mut self, config: &EventDrivenConfig, snapshot: PoolSnapshot, now: u64) -> (signal:
        SlotTrigger)
        requires
            config.collection.well_formed(),
        ensures
            (*final(self), signal) == old(self).polled(config.collection, snapshot, now),
    {
        if snapshot.ready_count != self.last_status {
            self.last_status = snapshot.ready_count;
            if snapshot.ready_count > 0 && self.collection_timer.is_none() {
                if is_urgent(&config.collection, &snapshot) {
                    return SlotTrigger::CreateBlock;
                }
                let duration = calculate_collection_duration(
                    &config.collection,
                    snapshot.ready_count,
                );
                self.collection_timer = Some(Timer::after_nanos(now, duration));
            } else if snapshot.ready_count == 0 {
                self.collection_timer = None;
            }
        }
        match self.collection_timer {
            Some(timer) => {
                if timer.is_expired(now) {
                    self.collection_timer = None;
                    if snapshot.ready_count > 0 {
                        return SlotTrigger::CreateBlock;
                    }
                }
            },
            None => {},
        }
        SlotTrigger::NoAction
    }
}

/// The state of the smart polling source, as a mathematical value.
pub struct SmartSourceModel {
    /// The number of ready transactions last seen.
    pub last_status: usize,
    /// The active collection window, if there is one.
    pub window: Option<SmartCollectionWindow>,
    /// The load tracker.
    pub load: LoadModel,
}

impl SmartSourceModel {
    /// The source and its signal after a poll.
    ///
    /// A change of the pool counts as an arrival for the load tracker and is
    /// taken up first: a pool that is not empty asks for a block at once if
    /// its priority reaches the threshold or its batch is full, else it opens
    /// an adaptive window unless one is active; an empty pool ends the
    /// window. Then a window whose timer has fired ends, with a block if the
    /// pool is not empty.
    pub open spec fn polled(self, config: CollectionConfig, snapshot: PoolSnapshot, now: u64) -> (
        SmartSourceModel,
        SlotTrigger,
    ) {
        let changed = snapshot.ready_count != self.last_status;
        let load = if changed {
            self.load.arrival(now)
        } else {
            self.load
        };
        let seen = SmartSourceModel { last_status: snapshot.ready_count, load, ..self };
        let opens = changed && snapshot.ready_count > 0 && self.window is None;
        if opens && (crate::controller::qualifies(
            snapshot.highest_priority,
            config.priority_threshold,
        ) || snapshot.ready_count >= config.max_batch_size) {
            (seen, SlotTrigger::CreateBlock)
        } else {
            let window = if opens {
                Some(
                    SmartCollectionWindow::opened(
                        config,
                        snapshot.ready_count,
                        snapshot.highest_priority,
                        load.tps,
                        false,
                        now,
                    ),
                )
            } else if changed && snapshot.ready_count == 0 {
                None
            } else {
                self.window
            };
            if window matches Some(w) && w.timer.fired_at(now) {
                (
                    SmartSourceModel { window: None, ..seen },
                    if snapshot.ready_count > 0 {
                        SlotTrigger::CreateBlock
                    } else {
                        SlotTrigger::NoAction
                    },
                )
            } else {
                (SmartSourceModel { window, ..seen }, SlotTrigger::NoAction)
            }
        }
    }
}

/// The source that polls the pool and sizes its windows by load and priority.
pub struct SmartIntervalSource {
    last_status: usize,
    collection_window: Option<SmartCollectionWindow>,
    load_tracker: NetworkLoadTracker,
}

impl View for SmartIntervalSource {
    type V = SmartSourceModel;

    closed spec fn view(&self) -> SmartSourceModel {
        SmartSourceModel {
            last_status: self.last_status,
            window: self.collection_window,
            load: self.load_tracker@,
        }
    }
}

impl SmartIntervalSource {
    /// A source that starts at `now` with `ready_count` transactions in the
    /// pool, no window and an empty load history.
    pub fn new(config: &EventDrivenConfig, ready_count: usize, now: u64) -> (source: Self)
        ensures
            source@ == (SmartSourceModel {
                last_status: ready_count,
                window: None,
                load: LoadModel {
                    history: Seq::<u64>::empty(),
                    capacity: config.transaction_rate_history_size,
                    tps: TransactionRate { transactions: 0, nanos: 0 },
                    computed_at: now,
                },
            }),
    {
        SmartIntervalSource {
            last_status: ready_count,
            collection_window: None,
            load_tracker: NetworkLoadTracker::new(config.transaction_rate_history_size, now),
        }
    }

    /// Takes a poll of the pool and gives the signal for the slot loop.
    pub fn step(&mut self, config: &EventDrivenConfig, snapshot: PoolSnapshot, now: u64) -> (signal:
        SlotTrigger)
        requires
            config.collection.well_formed(),
        ensures
            (final(self)@, signal) == old(self)@.polled(config.collection, snapshot, now),
    {
        let changed = snapshot.ready_count != self.last_status;
        let current_tps = if changed {
            self.load_tracker.record_transaction(now)
        } else {
            self.load_tracker.get_tps()
        };
        if changed {
            self.last_status = snapshot.ready_count;
            if snapshot.ready_count > 0 && self.collection_window.is_none() {
                let qualifies = match snapshot.highest_priority {
                    Some(priority) => priority >= config.collection.priority_threshold,
                    None => false,
                };
                if qualifies || snapshot.ready_count >= config.collection.max_batch_size {
                    return SlotTrigger::CreateBlock;
                }
                self.collection_window = Some(
                    SmartCollectionWindow::new(
                        &config.collection,
                        snapshot.ready_count,
                        snapshot.highest_priority,
                        current_tps,
                        false,
                        now,
                    ),
                );
            } else if snapshot.ready_count == 0 {
                self.collection_window = None;
            }
        }
        match self.collection_window {
            Some(window) => {
                if window.is_expired(now) {
                    self.collection_window = None;
                    if snapshot.ready_count > 0 {
                        return SlotTrigger::CreateBlock;
                    }
                }
            },
            None => {},
        }
        SlotTrigger::NoAction
    }

    /// The active collection window, if there is one.
    pub fn collection_window(&self) -> (window: Option<SmartCollectionWindow>)
        ensures
            window == self@.window,
    {
        self.collection_window
    }
}

/// What the pool watcher saw.
#[derive(Debug, Clone, Copy)]
pub enum WatchEvent {
    /// A transaction with this hash was imported; the pool now holds
    /// `ready_count` ready transactions.
    Imported(TransactionHash, usize),
    /// The notification feed has ended.
    FeedEnded,
    /// The poll interval has passed; the pool holds `ready_count` ready transactions.
    Tick(usize),
}

/// The pool event that reports `ready_count` ready transactions.
pub open spec fn status_event(ready_count: usize) -> PoolEvent {
    if ready_count > 0 {
        PoolEvent::PoolReady(ready_count, None)
    } else {
        PoolEvent::PoolEmpty
    }
}

/// The pool watcher: it turns what it sees of the pool into pool events.
#[derive(Debug, Clone, Copy)]
pub struct PoolWatcher {
    /// The number of ready transactions last seen.
    pub last_status: usize,
    /// Whether imports are still notified.
    pub mode: FeedMode,
    /// The hash that stands for an arrival that only a poll has shown.
    pub unknown_hash: TransactionHash,
}

impl PoolWatcher {
    /// The watcher after an observation.
    pub open spec fn watched(self, event: WatchEvent) -> PoolWatcher {
        match event {
            WatchEvent::Imported(_, ready_count) => match self.mode {
                FeedMode::Notified => PoolWatcher { last_status: ready_count, ..self },
                FeedMode::PollingOnly => self,
            },
            WatchEvent::FeedEnded => PoolWatcher { mode: FeedMode::PollingOnly, ..self },
            WatchEvent::Tick(ready_count) => PoolWatcher { last_status: ready_count, ..self },
        }
    }

    /// The pool events that an observation gives rise to, in order.
    ///
    /// An import is reported, followed by the status of the pool. A poll
    /// reports the status only if it has changed; once the feed has ended, a
    /// grown pool is reported as an arrival of unknown hash first.
    pub open spec fn emitted(self, event: WatchEvent) -> Seq<PoolEvent> {
        match event {
            WatchEvent::Imported(hash, ready_count) => match self.mode {
                FeedMode::Notified => seq![
                    PoolEvent::TransactionAdded(hash),
                    status_event(ready_count),
                ],
                FeedMode::PollingOnly => Seq::empty(),
            },
            WatchEvent::FeedEnded => Seq::empty(),
            WatchEvent::Tick(ready_count) => if ready_count == self.last_status {
                Seq::empty()
            } else {
                match self.mode {
                    FeedMode::Notified => seq![status_event(ready_count)],
                    FeedMode::PollingOnly => if ready_count > self.last_status {
                        seq![
                            PoolEvent::TransactionAdded(self.unknown_hash),
                            status_event(ready_count),
                        ]
                    } else {
                        seq![status_event(ready_count)]
                    },
                }
            },
        }
    }

    /// A watcher that starts with `ready_count` ready transactions in the
    /// pool. `unknown_hash` stands for arrivals that only a poll has shown.
    pub fn new(ready_count: usize, unknown_hash: TransactionHash) -> (watcher: Self)
        ensures
            watcher == (PoolWatcher {
                last_status: ready_count,
                mode: FeedMode::Notified,
                unknown_hash,
            }),
    {
        PoolWatcher { last_status: ready_count, mode: FeedMode::Notified, unknown_hash }
    }

    /// The time to the next poll, in milliseconds: 500 while imports are
    /// notified, 100 once the feed has ended.
    pub fn poll_interval_ms(&self) -> (millis: u64)
        ensures
            millis == match self.mode {
                FeedMode::Notified => BACKUP_POLL_MS,
                FeedMode::PollingOnly => FALLBACK_POLL_MS,
            },
    {
        match self.mode {
            FeedMode::Notified => BACKUP_POLL_MS,
            FeedMode::PollingOnly => FALLBACK_POLL_MS,
        }
    }

    /// Takes an observation and gives the pool events to send, in order.
    pub fn watch(&mut self, event: WatchEvent) -> (events: Vec<PoolEvent>)
        ensures
            *final(self) == old(self).watched(event),
            events@ == old(self).emitted(event),
    {
        let mut events: Vec<PoolEvent> = Vec::new();
        match event {
            WatchEvent::Imported(hash, ready_count) => {
                match self.mode {
                    FeedMode::Notified => {
                        self.last_status = ready_count;
                        events.push(PoolEvent::TransactionAdded(hash));
                        events.push(status_of(ready_count));
                    },
                    FeedMode::PollingOnly => {},
                }
            },
            WatchEvent::FeedEnded => {
                self.mode = FeedMode::PollingOnly;
            },
            WatchEvent::Tick(ready_count) => {
                let last_count = self.last_status;
                self.last_status = ready_count;
                if ready_count != last_count {
                    match self.mode {
                        FeedMode::Notified => {},
                        FeedMode::PollingOnly => {
                            if ready_count > last_count {
                                events.push(PoolEvent::TransactionAdded(self.unknown_hash));
                            }
                        },
                    }
                    events.push(status_of(ready_count));
                }
            },
        }
        proof {
            assert(events@ =~= old(self).emitted(event));
        }
        events
    }
}

/// The pool event that reports `ready_count` ready transactions.
fn status_of(ready_count: usize) -> (event: PoolEvent)
    ensures
        event == status_event(ready_count),
{
    if ready_count > 0 {
        PoolEvent::PoolReady(ready_count, None)
    } else {
        PoolEvent::PoolEmpty
    }
}

/// Whatever the source has seen, a snapshot with a priority at or above the
/// threshold or with a full batch gives `CreateBlock` on import, and the
/// window is gone afterwards.
pub proof fn lemma_urgent_import_creates_block(
    source: NotificationSource,
    config: CollectionConfig,
    snapshot: PoolSnapshot,
    now: u64,
)
    requires
        source.mode == FeedMode::Notified,
        snapshot.ready_count > 0,
        urgent(config, snapshot),
    ensures
        source.stepped(config, SourceEvent::Imported(snapshot), now).1 == SlotTrigger::CreateBlock,
        source.stepped(config, SourceEvent::Imported(snapshot), now).0.collection_timer is None,
{
}

/// The end of the notification feed does not end the source: it polls on
/// at the short interval, and a poll still takes up a changed pool.
pub proof fn lemma_source_survives_feed_end(
    source: NotificationSource,
    config: CollectionConfig,
    snapshot: PoolSnapshot,
    now: u64,
)
    ensures
        source.stepped(config, SourceEvent::FeedEnded, now).0.mode == FeedMode::PollingOnly,
        source.stepped(config, SourceEvent::FeedEnded, now).0.poll_interval() == FALLBACK_POLL_MS,
        source.stepped(config, SourceEvent::FeedEnded, now).0.stepped(
            config,
            SourceEvent::Tick(snapshot),
            now,
        ).1 == source.polled(config, snapshot, now).1,
{
}

} // verus!
