//! The values that flow between the pool, the trigger engine and the slot loop.

use vstd::prelude::*;
use crate::load::TransactionRate;

verus! {

/// The hash that names a transaction.
pub type TransactionHash = [u8; 32];

/// The priority of a pending transaction.
pub type TransactionPriority = u64;

/// Transaction pool events for event-driven block production.
#[derive(Debug, Clone, Copy)]
pub enum PoolEvent {
    /// A new transaction was added to the ready queue.
    TransactionAdded(TransactionHash),
    /// A high-priority transaction was added to the ready queue.
    HighPriorityTransactionAdded(TransactionHash, TransactionPriority),
    /// A transaction was removed from the pool.
    TransactionRemoved(TransactionHash),
    /// Pool status update with number of ready transactions and highest priority.
    PoolReady(usize, Option<TransactionPriority>),
    /// Pool became empty.
    PoolEmpty,
    /// Network load indicator (transactions per second over recent history).
    NetworkLoad(TransactionRate),
}

/// Trigger for block production decisions.
#[derive(Debug, Clone, Copy, PartialEq, Eq, Structural)]
pub enum BlockProductionTrigger {
    /// No action needed.
    NoTrigger,
    /// Start collection window for incoming transactions.
    StartCollectionWindow,
    /// Produce block immediately (high priority or large batch).
    ProduceImmediately,
    /// Collection window expired, produce block with current transactions.
    CollectionWindowExpired,
    /// Empty block timer expired, produce empty block.
    EmptyBlockTimer,
}

impl BlockProductionTrigger {
    /// Whether this trigger asks for a block.
    pub open spec fn produces_block(self) -> bool {
        self is ProduceImmediately || self is CollectionWindowExpired || self is EmptyBlockTimer
    }

    /// Check if this trigger should result in block production.
    pub fn should_produce_block(&self) -> (produce: bool)
        ensures
            produce == self.produces_block(),
    {
        match self {
            BlockProductionTrigger::ProduceImmediately => true,
            BlockProductionTrigger::CollectionWindowExpired => true,
            BlockProductionTrigger::EmptyBlockTimer => true,
            _ => false,
        }
    }
}

/// The signal that the slot loop consumes.
#[derive(Debug, Clone, Copy, PartialEq, Eq, Structural)]
pub enum SlotTrigger {
    /// Command to create block.
    CreateBlock,
    /// Nothing to do.
    NoAction,
}

/// What of a signal reaches the slot loop: creation requests only.
pub open spec fn forwarded(signal: SlotTrigger) -> Option<SlotTrigger> {
    match signal {
        SlotTrigger::CreateBlock => Some(SlotTrigger::CreateBlock),
        SlotTrigger::NoAction => None,
    }
}

/// Filters a signal on its way to the slot loop: `NoAction` is dropped.
pub fn forward_signal(signal: SlotTrigger) -> (out: Option<SlotTrigger>)
    ensures
        out == forwarded(signal),
{
    match signal {
        SlotTrigger::CreateBlock => Some(SlotTrigger::CreateBlock),
        SlotTrigger::NoAction => None,
    }
}

/// The highest of a sequence of priorities, if there is any.
pub open spec fn highest_of(priorities: Seq<u64>) -> Option<u64>
    decreases priorities.len(),
{
    if priorities.len() == 0 {
        None
    } else {
        match highest_of(priorities.drop_last()) {
            Some(best) => if best >= priorities.last() {
                Some(best)
            } else {
                Some(priorities.last())
            },
            None => Some(priorities.last()),
        }
    }
}

/// The highest priority among the ready transactions.
pub fn highest_priority(priorities: &Vec<TransactionPriority>) -> (best: Option<
    TransactionPriority,
>)
    ensures
        best == highest_of(priorities@),
        best is None <==> priorities@.len() == 0,
        best matches Some(b) ==> priorities@.contains(b) && forall|i: int|
            0 <= i < priorities@.len() ==> priorities@[i] <= b,
{
    let mut best: Option<u64> = None;
    let mut i: usize = 0;
    while i < priorities.len()
        invariant
            i <= priorities.len(),
            best == highest_of(priorities@.take(i as int)),
            best is None <==> i == 0,
            best matches Some(b) ==> priorities@.take(i as int).contains(b) && forall|j: int|
                0 <= j < i ==> priorities@[j] <= b,
        decreases priorities.len() - i,
    {
        let p = priorities[i];
        proof {
            let next = priorities@.take(i + 1);
            assert(next.drop_last() =~= priorities@.take(i as int));
            assert(next.last() == p);
            assert(next[i as int] == p);
            if best is Some {
                let b = best->0;
                let at = choose|j: int|
                    0 <= j < priorities@.take(i as int).len() && priorities@.take(i as int)[j]
                        == b;
                assert(next[at] == b);
            }
        }
        best = match best {
            Some(b) => if b >= p {
                Some(b)
            } else {
                Some(p)
            },
            None => Some(p),
        };
        i += 1;
    }
    proof {
        assert(priorities@.take(i as int) =~= priorities@);
    }
    best
}

} // verus!
