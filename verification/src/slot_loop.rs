//! The decisions of the slot loops that drive the authoring state machine.

use vstd::prelude::*;
use crate::trigger::SlotTrigger;

verus! {

/// The interval after which a block is authored even without a trigger: one hour, in seconds.
pub const BLOCK_INTERVAL: u64 = 3600;

/// The interval at which the polling loop looks at the pool, in milliseconds.
pub const TRANSACTION_CHECK_MS: u64 = 100;

/// The time from `millis_since_epoch` to the next multiple of `interval_ms`:
/// a whole interval if the clock stands on a multiple.
pub open spec fn boundary_delay(interval_ms: u64, millis_since_epoch: u64) -> int {
    interval_ms - millis_since_epoch % interval_ms
}

/// Calculate the time in milliseconds to the next time boundary.
pub fn next_time_boundary(interval_ms: u64, millis_since_epoch: u64) -> (delay: u64)
    requires
        interval_ms > 0,
    ensures
        delay == boundary_delay(interval_ms, millis_since_epoch),
        0 < delay <= interval_ms,
        (millis_since_epoch + delay) % (interval_ms as int) == 0,
{
    let past = millis_since_epoch % interval_ms;
    proof {
        let q = millis_since_epoch as int / interval_ms as int;
        assert(millis_since_epoch == q * interval_ms + past) by (nonlinear_arith)
            requires
                q == millis_since_epoch as int / interval_ms as int,
                past == millis_since_epoch as int % interval_ms as int,
                interval_ms > 0,
        ;
        assert((millis_since_epoch + (interval_ms - past)) % (interval_ms as int) == 0)
            by (nonlinear_arith)
            requires
                millis_since_epoch == q * interval_ms + past,
                interval_ms > 0,
        ;
    }
    interval_ms - past
}

/// The signal of a plain poll of the pool: a block if anything is ready.
pub open spec fn signal_for(ready_count: usize) -> SlotTrigger {
    if ready_count > 0 {
        SlotTrigger::CreateBlock
    } else {
        SlotTrigger::NoAction
    }
}

/// The signal of a plain poll of the pool.
pub fn pool_signal(ready_count: usize) -> (signal: SlotTrigger)
    ensures
        signal == signal_for(ready_count),
{
    if ready_count > 0 {
        SlotTrigger::CreateBlock
    } else {
        SlotTrigger::NoAction
    }
}

/// What wakes the triggered slot loop.
#[derive(Debug, Clone, Copy, PartialEq, Eq, Structural)]
pub enum LoopEvent {
    /// The trigger stream gave a signal, or ended.
    Trigger(Option<SlotTrigger>),
    /// The block interval has passed.
    IntervalTick,
}

/// What the triggered slot loop does next.
#[derive(Debug, Clone, Copy, PartialEq, Eq, Structural)]
pub struct LoopAction {
    /// Whether to author in the next slot.
    pub run_slot: bool,
    /// Whether to start the block interval anew.
    pub reset_interval: bool,
}

/// The slot loop that is driven by a trigger stream and an hourly interval.
#[derive(Debug, Clone, Copy, PartialEq, Eq, Structural)]
pub struct TriggeredLoop {
    /// Whether the trigger stream has ended.
    pub stream_ended: bool,
}

impl TriggeredLoop {
    /// The loop and its action after an event.
    ///
    /// A creation request runs a slot and starts the interval anew. The end
    /// of the stream leaves the interval as the only source. The interval
    /// runs a slot. Everything else does nothing.
    pub open spec fn stepped(self, event: LoopEvent) -> (TriggeredLoop, LoopAction) {
        match event {
            LoopEvent::Trigger(Some(SlotTrigger::CreateBlock)) => if self.stream_ended {
                (self, LoopAction { run_slot: false, reset_interval: false })
            } else {
                (self, LoopAction { run_slot: true, reset_interval: true })
            },
            LoopEvent::Trigger(Some(SlotTrigger::NoAction)) => (
                self,
                LoopAction { run_slot: false, reset_interval: false },
            ),
            LoopEvent::Trigger(None) => (
                TriggeredLoop { stream_ended: true },
                LoopAction { run_slot: false, reset_interval: false },
            ),
            LoopEvent::IntervalTick => (
                self,
                LoopAction { run_slot: true, reset_interval: false },
            ),
        }
    }

    /// A loop whose trigger stream is live.
    pub fn new() -> (worker: Self)
        ensures
            worker == (TriggeredLoop { stream_ended: false }),
    {
        TriggeredLoop { stream_ended: false }
    }

    /// Takes an event and says what to do.
    pub fn step(&mut self, event: LoopEvent) -> (action: LoopAction)
        ensures
            (*final(self), action) == old(self).stepped(event),
    {
        match event {
            LoopEvent::Trigger(Some(SlotTrigger::CreateBlock)) => {
                if self.stream_ended {
                    LoopAction { run_slot: false, reset_interval: false }
                } else {
                    LoopAction { run_slot: true, reset_interval: true }
                }
            },
            LoopEvent::Trigger(Some(SlotTrigger::NoAction)) => LoopAction {
                run_slot: false,
                reset_interval: false,
            },
            LoopEvent::Trigger(None) => {
                self.stream_ended = true;
                LoopAction { run_slot: false, reset_interval: false }
            },
            LoopEvent::IntervalTick => LoopAction { run_slot: true, reset_interval: false },
        }
    }
}

/// What wakes the polling slot loop.
#[derive(Debug, Clone, Copy, PartialEq, Eq, Structural)]
pub enum PollEvent {
    /// The pool was checked and holds this many ready transactions.
    PoolChecked(usize),
    /// The top of the hour was reached.
    HourlyTick,
}

/// What the polling slot loop does next.
#[derive(Debug, Clone, Copy, PartialEq, Eq, Structural)]
pub struct PollAction {
    /// Whether to author in the next slot.
    pub run_slot: bool,
    /// Whether to set the hourly trigger to the next full hour.
    pub reschedule_hourly: bool,
    /// Whether to set the pool check to the next boundary of 100 ms.
    pub reschedule_check: bool,
}

/// The action of the polling slot loop: a pool that holds transactions runs
/// a slot and puts the hourly trigger off; the hour runs a slot.
pub open spec fn poll_action(event: PollEvent) -> PollAction {
    match event {
        PollEvent::PoolChecked(ready) => PollAction {
            run_slot: ready > 0,
            reschedule_hourly: ready > 0,
            reschedule_check: true,
        },
        PollEvent::HourlyTick => PollAction {
            run_slot: true,
            reschedule_hourly: true,
            reschedule_check: false,
        },
    }
}

/// Takes an event of the polling slot loop and says what to do.
pub fn poll_step(event: PollEvent) -> (action: PollAction)
    ensures
        action == poll_action(event),
{
    match event {
        PollEvent::PoolChecked(ready) => PollAction {
            run_slot: ready > 0,
            reschedule_hourly: ready > 0,
            reschedule_check: true,
        },
        PollEvent::HourlyTick => PollAction {
            run_slot: true,
            reschedule_hourly: true,
            reschedule_check: false,
        },
    }
}

} // verus!
