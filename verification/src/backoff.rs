//! Backing off from authoring while finality lags behind the chain head.

use vstd::prelude::*;

verus! {

/// The length of the unfinalized suffix of the chain.
pub open spec fn unfinalized_length(chain_head_number: u64, finalized_number: u64) -> int {
    if chain_head_number >= finalized_number {
        chain_head_number - finalized_number
    } else {
        0
    }
}

/// The number of slots to wait after the slot of the chain head: the
/// unfinalized length beyond the slack, divided by the bias, and the
/// longest interval at most.
pub open spec fn backoff_interval(
    max_interval: u64,
    unfinalized_slack: u64,
    authoring_bias: u64,
    chain_head_number: u64,
    finalized_number: u64,
) -> int {
    let unfinalized = unfinalized_length(chain_head_number, finalized_number);
    let beyond_slack = if unfinalized >= unfinalized_slack {
        unfinalized - unfinalized_slack
    } else {
        0
    };
    let interval = beyond_slack / (authoring_bias as int);
    if interval <= max_interval {
        interval
    } else {
        max_interval as int
    }
}

/// Strategy for when to back off from authoring blocks.
pub trait BackoffAuthoringBlocksStrategy {
    /// What the strategy needs of itself to decide for a slot after the
    /// slot of the chain head. At or before that slot nothing is needed.
    spec fn usable(&self) -> bool;

    /// Whether the strategy backs off at `slot_now`.
    spec fn backs_off(
        &self,
        chain_head_number: u64,
        chain_head_slot: u64,
        finalized_number: u64,
        slot_now: u64,
    ) -> bool;

    /// Returns true if we should backoff authoring new blocks.
    fn should_backoff(
        &self,
        chain_head_number: u64,
        chain_head_slot: u64,
        finalized_number: u64,
        slot_now: u64,
    ) -> (backoff: bool)
        requires
            slot_now > chain_head_slot ==> self.usable(),
        ensures
            backoff == self.backs_off(
                chain_head_number,
                chain_head_slot,
                finalized_number,
                slot_now,
            ),
    ;
}

/// A simple default strategy for how to decide backing off authoring blocks if the number of
/// unfinalized blocks grows too large.
#[derive(Debug, Clone, Copy, PartialEq, Eq, Structural)]
pub struct BackoffAuthoringOnFinalizedHeadLagging {
    /// The max interval to backoff when authoring blocks, regardless of delay in finality.
    pub max_interval: u64,
    /// The number of unfinalized blocks allowed before starting to consider to backoff authoring
    /// blocks. Note that depending on the value for `authoring_bias`, there might still be an
    /// additional wait until block authorship starts getting declined.
    pub unfinalized_slack: u64,
    /// Scales the backoff rate. A higher value effectively means we backoff slower, taking longer
    /// time to reach the maximum backoff as the unfinalized head of chain grows.
    pub authoring_bias: u64,
}

impl BackoffAuthoringOnFinalizedHeadLagging {
    /// The interval that the strategy waits after the slot of the chain head.
    pub open spec fn interval(self, chain_head_number: u64, finalized_number: u64) -> int {
        backoff_interval(
            self.max_interval,
            self.unfinalized_slack,
            self.authoring_bias,
            chain_head_number,
            finalized_number,
        )
    }
}

impl Default for BackoffAuthoringOnFinalizedHeadLagging {
    /// Never more than 100 slots of waiting, a slack of 50 unfinalized blocks, and a bias of 2.
    fn default() -> (strategy: Self)
        ensures
            strategy == (BackoffAuthoringOnFinalizedHeadLagging {
                max_interval: 100,
                unfinalized_slack: 50,
                authoring_bias: 2,
            }),
    {
        BackoffAuthoringOnFinalizedHeadLagging {
            max_interval: 100,
            unfinalized_slack: 50,
            authoring_bias: 2,
        }
    }
}

impl BackoffAuthoringBlocksStrategy for BackoffAuthoringOnFinalizedHeadLagging {
    /// The bias is a divisor: it must not be zero where the interval is computed.
    open spec fn usable(&self) -> bool {
        self.authoring_bias > 0
    }

    /// The strategy backs off in the slots after the slot of the chain head,
    /// up to the interval; never at or before the slot of the chain head.
    open spec fn backs_off(
        &self,
        chain_head_number: u64,
        chain_head_slot: u64,
        finalized_number: u64,
        slot_now: u64,
    ) -> bool {
        chain_head_slot < slot_now && slot_now <= chain_head_slot + self.interval(
            chain_head_number,
            finalized_number,
        )
    }

    fn should_backoff(
        &self,
        chain_head_number: u64,
        chain_head_slot: u64,
        finalized_number: u64,
        slot_now: u64,
    ) -> (backoff: bool) {
        if slot_now <= chain_head_slot {
            return false;
        }
        let unfinalized_block_length = chain_head_number.saturating_sub(finalized_number);
        let interval = unfinalized_block_length.saturating_sub(self.unfinalized_slack)
            / self.authoring_bias;
        let interval = if interval <= self.max_interval {
            interval
        } else {
            self.max_interval
        };
        slot_now - chain_head_slot <= interval
    }
}

/// The strategy that never backs off.
#[derive(Debug, Clone, Copy, PartialEq, Eq, Structural)]
pub struct NeverBackoff;

impl BackoffAuthoringBlocksStrategy for NeverBackoff {
    open spec fn usable(&self) -> bool {
        true
    }

    open spec fn backs_off(
        &self,
        chain_head_number: u64,
        chain_head_slot: u64,
        finalized_number: u64,
        slot_now: u64,
    ) -> bool {
        false
    }

    fn should_backoff(
        &self,
        chain_head_number: u64,
        chain_head_slot: u64,
        finalized_number: u64,
        slot_now: u64,
    ) -> (backoff: bool) {
        false
    }
}

/// No strategy backs off at or before the slot of the chain head.
pub proof fn lemma_no_backoff_before_head_slot(
    strategy: BackoffAuthoringOnFinalizedHeadLagging,
    chain_head_number: u64,
    chain_head_slot: u64,
    finalized_number: u64,
    slot_now: u64,
)
    requires
        slot_now <= chain_head_slot,
    ensures
        !strategy.backs_off(chain_head_number, chain_head_slot, finalized_number, slot_now),
{
}

/// While finality keeps up with the head, within the slack, the strategy
/// does not back off; and it never waits for more than the longest interval.
pub proof fn lemma_backoff_is_capped(
    strategy: BackoffAuthoringOnFinalizedHeadLagging,
    chain_head_number: u64,
    chain_head_slot: u64,
    finalized_number: u64,
    slot_now: u64,
)
    requires
        strategy.authoring_bias > 0,
    ensures
        0 <= strategy.interval(chain_head_number, finalized_number) <= strategy.max_interval,
        unfinalized_length(chain_head_number, finalized_number) <= strategy.unfinalized_slack
            ==> !strategy.backs_off(chain_head_number, chain_head_slot, finalized_number, slot_now),
        slot_now > chain_head_slot + strategy.max_interval ==> !strategy.backs_off(
            chain_head_number,
            chain_head_slot,
            finalized_number,
            slot_now,
        ),
{
    let unfinalized = unfinalized_length(chain_head_number, finalized_number);
    let beyond: int = if unfinalized >= strategy.unfinalized_slack {
        unfinalized - strategy.unfinalized_slack
    } else {
        0
    };
    let bias = strategy.authoring_bias as int;
    assert(beyond / bias >= 0) by (nonlinear_arith)
        requires
            beyond >= 0,
            bias > 0,
    ;
    assert(0int / bias == 0) by (nonlinear_arith)
        requires
            bias > 0,
    ;
}

/// The wait grows with the unfinalized length: a longer unfinalized suffix
/// never shortens the interval.
pub proof fn lemma_backoff_interval_grows(
    strategy: BackoffAuthoringOnFinalizedHeadLagging,
    finalized_number: u64,
    shorter_head: u64,
    longer_head: u64,
)
    requires
        strategy.authoring_bias > 0,
        shorter_head <= longer_head,
    ensures
        strategy.interval(shorter_head, finalized_number) <= strategy.interval(
            longer_head,
            finalized_number,
        ),
{
    let a = unfinalized_length(shorter_head, finalized_number);
    let b = unfinalized_length(longer_head, finalized_number);
    let slack = strategy.unfinalized_slack as int;
    let beyond_a: int = if a >= slack { a - slack } else { 0 };
    let beyond_b: int = if b >= slack { b - slack } else { 0 };
    let bias = strategy.authoring_bias as int;
    assert(beyond_a / bias <= beyond_b / bias) by (nonlinear_arith)
        requires
            0 <= beyond_a <= beyond_b,
            bias > 0,
    ;
}

} // verus!
