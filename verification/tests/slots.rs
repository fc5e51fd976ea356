use micc_consensus::backoff::{
    BackoffAuthoringBlocksStrategy, BackoffAuthoringOnFinalizedHeadLagging, NeverBackoff,
};
use micc_consensus::inherents::{InherentDataProvider, INHERENT_IDENTIFIER};
use micc_consensus::lenience::{
    proposing_remaining_duration, slot_lenience_exponential, slot_lenience_linear,
    try_proposing_remaining_duration, SlotInfo, SlotLenienceType, SlotProportion,
};

const MS: u64 = 1_000_000;
const SLOT_DURATION: u64 = 6000 * MS;
const NOW: u64 = 1_000 * MS;

fn slot(slot: u64) -> SlotInfo {
    SlotInfo {
        slot,
        duration: SLOT_DURATION,
        ends_at: NOW + SLOT_DURATION,
        chain_head_number: 1,
        block_size_limit: None,
    }
}

#[test]
fn linear_slot_lenience() {
    // if no slots are skipped there should be no lenience
    assert_eq!(slot_lenience_linear(1, &slot(2)), None);

    // otherwise the lenience is incremented linearly with
    // the number of skipped slots.
    for n in 3..=22 {
        assert_eq!(slot_lenience_linear(1, &slot(n)), Some(SLOT_DURATION * (n - 2)));
    }

    // but we cap it to a maximum of 20 slots
    assert_eq!(slot_lenience_linear(1, &slot(23)), Some(SLOT_DURATION * 20));
}

#[test]
fn exponential_slot_lenience() {
    // if no slots are skipped there should be no lenience
    assert_eq!(slot_lenience_exponential(1, &slot(2)), None);

    // otherwise the lenience is incremented exponentially every two slots
    for n in 3..=17 {
        assert_eq!(
            slot_lenience_exponential(1, &slot(n)),
            Some(SLOT_DURATION * 2u64.pow((n / 2 - 1) as u32)),
        );
    }

    // but we cap it to a maximum of 14 slots
    assert_eq!(slot_lenience_exponential(1, &slot(18)), Some(SLOT_DURATION * 2u64.pow(7)));

    assert_eq!(slot_lenience_exponential(1, &slot(19)), Some(SLOT_DURATION * 2u64.pow(7)));
}

#[test]
fn proposing_remaining_duration_should_apply_lenience_based_on_proposal_slot_proportion() {
    assert_eq!(
        proposing_remaining_duration(
            Some(0),
            &slot(2),
            &SlotProportion::new(250_000),
            None,
            SlotLenienceType::Linear,
            NOW,
        ),
        SLOT_DURATION / 4 * 2,
    );
}

#[test]
fn proposing_remaining_duration_should_never_exceed_max_proposal_slot_proportion() {
    assert_eq!(
        proposing_remaining_duration(
            Some(0),
            &slot(100),
            &SlotProportion::new(250_000),
            Some(&SlotProportion::new(900_000)),
            SlotLenienceType::Exponential,
            NOW,
        ),
        SLOT_DURATION / 10 * 9,
    );
}

#[derive(PartialEq, Debug)]
struct HeadState {
    head_number: u64,
    head_slot: u64,
    slot_now: u64,
}

impl HeadState {
    fn author_block(&mut self) {
        // Add a block to the head, and set latest slot to the current
        self.head_number += 1;
        self.head_slot = self.slot_now;
        // Advance slot to next
        self.slot_now += 1;
    }

    fn dont_author_block(&mut self) {
        self.slot_now += 1;
    }
}

#[test]
fn should_never_backoff_when_head_not_advancing() {
    let strategy = BackoffAuthoringOnFinalizedHeadLagging {
        max_interval: 100,
        unfinalized_slack: 5,
        authoring_bias: 2,
    };

    let head_number = 1;
    let head_slot = 1;
    let finalized_number = 1;
    let slot_now = 2;

    let should_backoff: Vec<bool> = (slot_now..1000)
        .map(|s| strategy.should_backoff(head_number, head_slot, finalized_number, s))
        .collect();

    // Should always be false, since the head isn't advancing
    let expected: Vec<bool> = (slot_now..1000).map(|_| false).collect();
    assert_eq!(should_backoff, expected);
}

#[test]
fn should_stop_authoring_if_blocks_are_still_produced_when_finality_stalled() {
    let strategy = BackoffAuthoringOnFinalizedHeadLagging {
        max_interval: 100,
        unfinalized_slack: 5,
        authoring_bias: 2,
    };

    let mut head_number = 1;
    let mut head_slot = 1;
    let finalized_number = 1;
    let slot_now = 2;

    let should_backoff: Vec<bool> = (slot_now..300)
        .map(move |s| {
            let b = strategy.should_backoff(head_number, head_slot, finalized_number, s);
            // Chain is still advancing (by someone else)
            head_number += 1;
            head_slot = s;
            b
        })
        .collect();

    // Should always be true after a short while, since the chain is advancing but finality is
    // stalled
    let expected: Vec<bool> = (slot_now..300).map(|s| s > 8).collect();
    assert_eq!(should_backoff, expected);
}

#[test]
fn should_never_backoff_if_max_interval_is_reached() {
    let strategy = BackoffAuthoringOnFinalizedHeadLagging {
        max_interval: 100,
        unfinalized_slack: 5,
        authoring_bias: 2,
    };

    // The limit `max_interval` is used when the unfinalized chain grows to
    // 	`max_interval * authoring_bias + unfinalized_slack`,
    // which for the above parameters becomes
    // 	100 * 2 + 5 = 205.
    // Hence we trigger this with head_number > finalized_number + 205.
    let head_number = 207;
    let finalized_number = 1;

    // The limit is then used once the current slot is `max_interval` ahead of slot of the head.
    let head_slot = 1;
    let slot_now = 2;
    let max_interval = strategy.max_interval;

    let should_backoff: Vec<bool> = (slot_now..200)
        .map(|s| strategy.should_backoff(head_number, head_slot, finalized_number, s))
        .collect();

    // Should backoff (true) until we are `max_interval` number of slots ahead of the chain
    // head slot, then we never backoff (false).
    let expected: Vec<bool> = (slot_now..200).map(|s| s <= max_interval + head_slot).collect();
    assert_eq!(should_backoff, expected);
}

#[test]
fn should_backoff_authoring_when_finality_stalled() {
    let param = BackoffAuthoringOnFinalizedHeadLagging {
        max_interval: 100,
        unfinalized_slack: 5,
        authoring_bias: 2,
    };

    let finalized_number = 2;
    let mut head_state = HeadState { head_number: 4, head_slot: 10, slot_now: 11 };

    let should_backoff = |head_state: &HeadState| -> bool {
        param.should_backoff(
            head_state.head_number,
            head_state.head_slot,
            finalized_number,
            head_state.slot_now,
        )
    };

    let backoff: Vec<bool> = (head_state.slot_now..200)
        .map(|_| {
            if should_backoff(&head_state) {
                head_state.dont_author_block();
                true
            } else {
                head_state.author_block();
                false
            }
        })
        .collect();

    // Gradually start to backoff more and more frequently
    let expected = [
        false, false, false, false, false, // no effect
        true, false, true, false, // 1:1
        true, true, false, true, true, false, // 2:1
        true, true, true, false, true, true, true, false, // 3:1
        true, true, true, true, false, true, true, true, true, false, // 4:1
        true, true, true, true, true, false, true, true, true, true, true, false, // 5:1
        true, true, true, true, true, true, false, true, true, true, true, true, true,
        false, // 6:1
        true, true, true, true, true, true, true, false, true, true, true, true, true, true,
        true, false, // 7:1
        true, true, true, true, true, true, true, true, false, true, true, true, true, true,
        true, true, true, false, // 8:1
        true, true, true, true, true, true, true, true, true, false, true, true, true, true,
        true, true, true, true, true, false, // 9:1
        true, true, true, true, true, true, true, true, true, true, false, true, true, true,
        true, true, true, true, true, true, true, false, // 10:1
        true, true, true, true, true, true, true, true, true, true, true, false, true, true,
        true, true, true, true, true, true, true, true, true, false, // 11:1
        true, true, true, true, true, true, true, true, true, true, true, true, false, true,
        true, true, true, true, true, true, true, true, true, true, true, false, // 12:1
        true, true, true, true,
    ];

    assert_eq!(backoff.as_slice(), &expected[..]);
}

#[test]
fn should_never_wait_more_than_max_interval() {
    let param = BackoffAuthoringOnFinalizedHeadLagging {
        max_interval: 100,
        unfinalized_slack: 5,
        authoring_bias: 2,
    };

    let finalized_number = 2;
    let starting_slot = 11;
    let mut head_state = HeadState { head_number: 4, head_slot: 10, slot_now: starting_slot };

    let should_backoff = |head_state: &HeadState| -> bool {
        param.should_backoff(
            head_state.head_number,
            head_state.head_slot,
            finalized_number,
            head_state.slot_now,
        )
    };

    let backoff: Vec<bool> = (head_state.slot_now..40000)
        .map(|_| {
            if should_backoff(&head_state) {
                head_state.dont_author_block();
                true
            } else {
                head_state.author_block();
                false
            }
        })
        .collect();

    let slots_claimed: Vec<usize> = backoff
        .iter()
        .enumerate()
        .filter(|&(_i, x)| x == &false)
        .map(|(i, _x)| i + starting_slot as usize)
        .collect();

    let last_slot = backoff.len() + starting_slot as usize;
    let mut last_two_claimed = slots_claimed.iter().rev().take(2);

    // Check that we claimed all the way to the end. Check two slots for when we have an uneven
    // number of slots_claimed.
    let expected_distance = param.max_interval as usize + 1;
    assert_eq!(last_slot - last_two_claimed.next().unwrap(), 92);
    assert_eq!(last_slot - last_two_claimed.next().unwrap(), 92 + expected_distance);

    let intervals: Vec<_> = slots_claimed.windows(2).map(|x| x[1] - x[0]).collect();

    // The key thing is that the distance between claimed slots is capped to `max_interval + 1`
    assert_eq!(intervals.iter().max(), Some(&expected_distance));

    // But lets assert all distances, which we expect to grow linearly until `max_interval + 1`
    let expected_intervals: Vec<_> =
        (0..497).map(|i| (i / 2).clamp(1, expected_distance)).collect();

    assert_eq!(intervals, expected_intervals);
}

fn run_until_max_interval(param: BackoffAuthoringOnFinalizedHeadLagging) -> (u64, u64) {
    let finalized_number = 0;
    let mut head_state = HeadState { head_number: 0, head_slot: 0, slot_now: 1 };

    let should_backoff = |head_state: &HeadState| -> bool {
        param.should_backoff(
            head_state.head_number,
            head_state.head_slot,
            finalized_number,
            head_state.slot_now,
        )
    };

    // Number of blocks until we reach the max interval
    let block_for_max_interval =
        param.max_interval * param.authoring_bias + param.unfinalized_slack;

    while head_state.head_number < block_for_max_interval {
        if should_backoff(&head_state) {
            head_state.dont_author_block();
        } else {
            head_state.author_block();
        }
    }

    let slot_time = 6;
    let time_to_reach_limit = slot_time * head_state.slot_now;
    (block_for_max_interval, time_to_reach_limit)
}

// Denoting
// 	C: unfinalized_slack
// 	M: authoring_bias
// 	X: max_interval
// then the number of slots to reach the max interval can be computed from
// 	(start_slot + C) + M * sum(n, 1, X)
// or
// 	(start_slot + C) + M * X*(X+1)/2
fn expected_time_to_reach_max_interval(param: &BackoffAuthoringOnFinalizedHeadLagging) -> (u64, u64) {
    let c = param.unfinalized_slack;
    let m = param.authoring_bias;
    let x = param.max_interval;
    let slot_time = 6;

    let block_for_max_interval = x * m + c;

    // The 1 is because we start at slot_now = 1.
    let expected_number_of_slots = (1 + c) + m * x * (x + 1) / 2;
    let time_to_reach = expected_number_of_slots * slot_time;

    (block_for_max_interval, time_to_reach)
}

#[test]
fn time_to_reach_upper_bound_for_smaller_slack() {
    let param = BackoffAuthoringOnFinalizedHeadLagging {
        max_interval: 100,
        unfinalized_slack: 5,
        authoring_bias: 2,
    };
    let expected = expected_time_to_reach_max_interval(&param);
    let (block_for_max_interval, time_to_reach_limit) = run_until_max_interval(param);
    assert_eq!((block_for_max_interval, time_to_reach_limit), expected);
    // Note: 16 hours is 57600 sec
    assert_eq!((block_for_max_interval, time_to_reach_limit), (205, 60636));
}

#[test]
fn time_to_reach_upper_bound_for_larger_slack() {
    let param = BackoffAuthoringOnFinalizedHeadLagging {
        max_interval: 100,
        unfinalized_slack: 50,
        authoring_bias: 2,
    };
    let expected = expected_time_to_reach_max_interval(&param);
    let (block_for_max_interval, time_to_reach_limit) = run_until_max_interval(param);
    assert_eq!((block_for_max_interval, time_to_reach_limit), expected);
    assert_eq!((block_for_max_interval, time_to_reach_limit), (250, 60906));
}

#[test]
fn backoff_defaults_and_edges() {
    let strategy = BackoffAuthoringOnFinalizedHeadLagging::default();
    assert_eq!(strategy.max_interval, 100);
    assert_eq!(strategy.unfinalized_slack, 50);
    assert_eq!(strategy.authoring_bias, 2);
    // never at or before the slot of the chain head
    assert!(!strategy.should_backoff(1_000_000, 10, 0, 10));
    assert!(!strategy.should_backoff(1_000_000, 10, 0, 9));
    assert!(!strategy.should_backoff(u64::MAX, u64::MAX, 0, u64::MAX));
    // interval = min(100, (60 - 50) / 2) = 5
    assert!(strategy.should_backoff(60, 10, 0, 11));
    assert!(strategy.should_backoff(60, 10, 0, 15));
    assert!(!strategy.should_backoff(60, 10, 0, 16));
    // finality ahead of the head counts as no lag
    assert!(!strategy.should_backoff(5, 10, 60, 11));
    // no overflow at the end of the slot range
    assert!(strategy.should_backoff(u64::MAX, u64::MAX - 1, 0, u64::MAX));
    // at or before the slot of the chain head even a bias of zero is never asked
    let unbiased = BackoffAuthoringOnFinalizedHeadLagging { authoring_bias: 0, ..strategy };
    assert!(!unbiased.should_backoff(1_000_000, 10, 0, 10));
    assert!(!unbiased.should_backoff(0, 10, 1_000_000, 3));
    assert!(!NeverBackoff.should_backoff(1_000_000, 0, 0, 1));
}

#[test]
fn lenience_edges() {
    // the parent's own slot and the slot after it skip nothing
    assert_eq!(slot_lenience_linear(5, &slot(5)), None);
    assert_eq!(slot_lenience_linear(5, &slot(6)), None);
    assert_eq!(slot_lenience_exponential(5, &slot(4)), None);
    assert_eq!(slot_lenience_exponential(u64::MAX, &slot(u64::MAX)), None);
    // one skipped slot: factor 2^0 and factor 1
    assert_eq!(slot_lenience_exponential(5, &slot(7)), Some(SLOT_DURATION));
    assert_eq!(slot_lenience_linear(5, &slot(7)), Some(SLOT_DURATION));
    // two skipped slots: 2^1 and 2
    assert_eq!(slot_lenience_exponential(5, &slot(8)), Some(2 * SLOT_DURATION));
    assert_eq!(slot_lenience_linear(5, &slot(8)), Some(2 * SLOT_DURATION));
    assert_eq!(slot_lenience_exponential(0, &slot(u64::MAX)), Some(128 * SLOT_DURATION));
    assert_eq!(slot_lenience_linear(0, &slot(u64::MAX)), Some(20 * SLOT_DURATION));
    assert_eq!(SlotLenienceType::Linear.as_str(), "linear");
    assert_eq!(SlotLenienceType::Exponential.as_str(), "exponential");
}

#[test]
fn proposing_duration_edges() {
    let half = SlotProportion::new(500_000);
    assert_eq!(half.get(), 500_000);
    assert_eq!(SlotProportion::new(2_000_000).get(), 1_000_000);
    // no lenience on top of the genesis block
    let genesis = SlotInfo { chain_head_number: 0, ..slot(100) };
    assert_eq!(
        proposing_remaining_duration(Some(0), &genesis, &half, None, SlotLenienceType::Linear, NOW),
        SLOT_DURATION / 2
    );
    // no lenience without a parent slot
    assert_eq!(
        proposing_remaining_duration(None, &slot(100), &half, None, SlotLenienceType::Linear, NOW),
        SLOT_DURATION / 2
    );
    // what is left of the slot bounds the time
    assert_eq!(
        proposing_remaining_duration(
            Some(1),
            &slot(2),
            &half,
            None,
            SlotLenienceType::Exponential,
            NOW + SLOT_DURATION - 7
        ),
        7
    );
    // nothing is left after the end of the slot
    assert_eq!(
        proposing_remaining_duration(
            Some(1),
            &slot(2),
            &half,
            None,
            SlotLenienceType::Exponential,
            NOW + SLOT_DURATION + 1
        ),
        0
    );
    // exponential lenience without a cap: 3000 ms + 128 * 6000 ms / 2
    assert_eq!(
        proposing_remaining_duration(
            Some(0),
            &slot(100),
            &half,
            None,
            SlotLenienceType::Exponential,
            NOW
        ),
        3000 * MS + 64 * SLOT_DURATION
    );
    // two thirds of a slot, in parts per million
    let two_thirds = SlotProportion::new(666_666);
    assert_eq!(
        proposing_remaining_duration(None, &slot(3), &two_thirds, None, SlotLenienceType::Linear, NOW),
        3_999_996_000
    );
}

#[test]
fn proposing_duration_that_does_not_fit() {
    let whole = SlotProportion::new(1_000_000);
    let long = SlotInfo {
        slot: 100,
        duration: u64::MAX / 2,
        ends_at: u64::MAX,
        chain_head_number: 1,
        block_size_limit: None,
    };
    // half the range plus 128 times half the range
    assert_eq!(
        try_proposing_remaining_duration(Some(0), &long, &whole, None, SlotLenienceType::Exponential, 0),
        None
    );
    // held to the whole slot it fits
    assert_eq!(
        try_proposing_remaining_duration(
            Some(0),
            &long,
            &whole,
            Some(&whole),
            SlotLenienceType::Exponential,
            0
        ),
        Some(u64::MAX / 2)
    );
    assert_eq!(
        try_proposing_remaining_duration(
            Some(0),
            &slot(2),
            &SlotProportion::new(250_000),
            None,
            SlotLenienceType::Linear,
            NOW
        ),
        Some(SLOT_DURATION / 2)
    );
}

#[test]
fn the_slot_of_a_timestamp() {
    assert_eq!(InherentDataProvider::new(7).slot(), 7);
    assert_eq!(InherentDataProvider::from_timestamp_and_slot_duration(0, 500).slot(), 0);
    assert_eq!(InherentDataProvider::from_timestamp_and_slot_duration(499, 500).slot(), 0);
    assert_eq!(InherentDataProvider::from_timestamp_and_slot_duration(500, 500).slot(), 1);
    assert_eq!(
        InherentDataProvider::from_timestamp_and_slot_duration(1_700_000_000_123, 1000).slot(),
        1_700_000_000
    );
    assert_eq!(InherentDataProvider::from_timestamp_and_slot_duration(u64::MAX, 1).slot(), u64::MAX);
    assert_eq!(&INHERENT_IDENTIFIER, b"miccslot");
}
