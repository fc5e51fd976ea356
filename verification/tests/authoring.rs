use micc_consensus::authoring::{
    claim_slot, must_wait_for_network, slot_author, soft_deadline, worker_should_backoff,
    AuthoringAction, AuthoringEvent, AuthoringState, CompatibilityMode, ProposingPhase,
    SkipReason, SlotAuthoring,
};
use micc_consensus::backoff::BackoffAuthoringOnFinalizedHeadLagging;

fn claimed_machine() -> SlotAuthoring {
    let (mut machine, action) = SlotAuthoring::begin(1000, 50, false);
    assert_eq!(action, AuthoringAction::FetchAuxData);
    assert_eq!(machine.state(), AuthoringState::Idle);
    assert_eq!(
        machine.on_event(AuthoringEvent::AuxDataFetched { authorities_len: Some(3) }),
        AuthoringAction::NotifyObservers
    );
    assert_eq!(machine.state(), AuthoringState::AuxDataFetched);
    assert_eq!(
        machine.on_event(AuthoringEvent::ObserversNotified { sync_offline: false }),
        AuthoringAction::ClaimSlot
    );
    assert_eq!(machine.state(), AuthoringState::NotifiedObservers);
    assert_eq!(machine.on_event(AuthoringEvent::SlotClaimed), AuthoringAction::CheckBackoff);
    assert_eq!(machine.state(), AuthoringState::Claimed { backoff_passed: false });
    machine
}

fn proposing_machine() -> SlotAuthoring {
    let mut machine = claimed_machine();
    assert_eq!(
        machine.on_event(AuthoringEvent::BackoffDecided { backoff: false }),
        AuthoringAction::BuildProposer
    );
    assert_eq!(
        machine.on_event(AuthoringEvent::ProposerReady { now: 150 }),
        AuthoringAction::CreateInherentData { timeout: 900 }
    );
    assert_eq!(machine.state(), AuthoringState::Proposing(ProposingPhase::InherentData));
    machine
}

#[test]
fn a_block_is_authored_step_by_step() {
    let mut machine = proposing_machine();
    assert_eq!(
        machine.on_event(AuthoringEvent::InherentDataReady { now: 250 }),
        AuthoringAction::Propose { soft_deadline: 784, hard_deadline: 800 }
    );
    assert_eq!(machine.state(), AuthoringState::Proposing(ProposingPhase::Block));
    assert_eq!(machine.on_event(AuthoringEvent::ProposalBuilt), AuthoringAction::SealBlock);
    assert_eq!(machine.on_event(AuthoringEvent::BlockSealed), AuthoringAction::ImportBlock);
    assert_eq!(machine.state(), AuthoringState::Sealed);
    assert!(!machine.is_finished());
    assert_eq!(
        machine.on_event(AuthoringEvent::BlockImported),
        AuthoringAction::Finish { authored: true }
    );
    assert_eq!(machine.state(), AuthoringState::Imported);
    assert!(machine.is_finished());
    // a finished attempt ignores everything
    assert_eq!(machine.on_event(AuthoringEvent::BlockImported), AuthoringAction::Ignore);
    assert_eq!(machine.on_event(AuthoringEvent::AuxDataFailed), AuthoringAction::Ignore);
    assert_eq!(machine.state(), AuthoringState::Imported);
}

#[test]
fn every_skip_reason_is_reached() {
    let skipped = AuthoringAction::Finish { authored: false };

    let (machine, action) = SlotAuthoring::begin(0, 50, false);
    assert_eq!(action, skipped);
    assert_eq!(machine.state(), AuthoringState::Skipped(SkipReason::NoTimeLeft));
    assert!(machine.is_finished());

    let (mut machine, _) = SlotAuthoring::begin(1, 50, false);
    assert_eq!(machine.on_event(AuthoringEvent::AuxDataFailed), skipped);
    assert_eq!(machine.state(), AuthoringState::Skipped(SkipReason::AuxDataError));

    let (mut machine, _) = SlotAuthoring::begin(1, 50, false);
    machine.on_event(AuthoringEvent::AuxDataFetched { authorities_len: Some(2) });
    assert_eq!(machine.on_event(AuthoringEvent::ObserversNotified { sync_offline: true }), skipped);
    assert_eq!(machine.state(), AuthoringState::Skipped(SkipReason::WaitingForNetwork));

    let (mut machine, _) = SlotAuthoring::begin(1, 50, false);
    machine.on_event(AuthoringEvent::AuxDataFetched { authorities_len: Some(2) });
    machine.on_event(AuthoringEvent::ObserversNotified { sync_offline: false });
    assert_eq!(machine.on_event(AuthoringEvent::ClaimMissed), skipped);
    assert_eq!(machine.state(), AuthoringState::Skipped(SkipReason::NoClaim));

    let mut machine = claimed_machine();
    assert_eq!(machine.on_event(AuthoringEvent::BackoffDecided { backoff: true }), skipped);
    assert_eq!(machine.state(), AuthoringState::Skipped(SkipReason::Backoff));

    let mut machine = claimed_machine();
    machine.on_event(AuthoringEvent::BackoffDecided { backoff: false });
    assert_eq!(machine.on_event(AuthoringEvent::ProposerFailed), skipped);
    assert_eq!(machine.state(), AuthoringState::Skipped(SkipReason::ProposerError));

    let mut machine = proposing_machine();
    assert_eq!(machine.on_event(AuthoringEvent::InherentDataFailed), skipped);
    assert_eq!(machine.state(), AuthoringState::Skipped(SkipReason::InherentError));

    let mut machine = proposing_machine();
    assert_eq!(machine.on_event(AuthoringEvent::InherentDataTimedOut), skipped);
    assert_eq!(machine.state(), AuthoringState::Skipped(SkipReason::InherentError));

    let mut machine = proposing_machine();
    machine.on_event(AuthoringEvent::InherentDataReady { now: 250 });
    assert_eq!(machine.on_event(AuthoringEvent::ProposalTimedOut), skipped);
    assert_eq!(machine.state(), AuthoringState::Skipped(SkipReason::DeadlineExceeded));

    let mut machine = proposing_machine();
    machine.on_event(AuthoringEvent::InherentDataReady { now: 250 });
    assert_eq!(machine.on_event(AuthoringEvent::ProposalFailed), skipped);
    assert_eq!(machine.state(), AuthoringState::Skipped(SkipReason::ProposeError));

    let mut machine = proposing_machine();
    machine.on_event(AuthoringEvent::InherentDataReady { now: 250 });
    machine.on_event(AuthoringEvent::ProposalBuilt);
    assert_eq!(machine.on_event(AuthoringEvent::SealFailed), skipped);
    assert_eq!(machine.state(), AuthoringState::Skipped(SkipReason::SignError));

    let mut machine = proposing_machine();
    machine.on_event(AuthoringEvent::InherentDataReady { now: 250 });
    machine.on_event(AuthoringEvent::ProposalBuilt);
    machine.on_event(AuthoringEvent::BlockSealed);
    assert_eq!(machine.on_event(AuthoringEvent::ImportFailed), skipped);
    assert_eq!(machine.state(), AuthoringState::Skipped(SkipReason::ImportError));
    assert_eq!(machine.on_event(AuthoringEvent::BlockImported), AuthoringAction::Ignore);
}

#[test]
fn events_out_of_order_are_ignored() {
    let (mut machine, _) = SlotAuthoring::begin(1000, 50, false);
    assert_eq!(machine.on_event(AuthoringEvent::SlotClaimed), AuthoringAction::Ignore);
    assert_eq!(machine.on_event(AuthoringEvent::BlockImported), AuthoringAction::Ignore);
    assert_eq!(machine.state(), AuthoringState::Idle);
    let mut machine = claimed_machine();
    // the proposer is not asked for before backoff has passed
    assert_eq!(machine.on_event(AuthoringEvent::ProposerReady { now: 60 }), AuthoringAction::Ignore);
    assert_eq!(machine.state(), AuthoringState::Claimed { backoff_passed: false });
}

#[test]
fn forced_authoring_does_not_wait_for_the_network() {
    let (mut machine, _) = SlotAuthoring::begin(1000, 50, true);
    machine.on_event(AuthoringEvent::AuxDataFetched { authorities_len: Some(5) });
    assert_eq!(
        machine.on_event(AuthoringEvent::ObserversNotified { sync_offline: true }),
        AuthoringAction::ClaimSlot
    );
    assert!(must_wait_for_network(false, true, Some(2)));
    assert!(!must_wait_for_network(false, true, Some(1)));
    assert!(!must_wait_for_network(false, true, None));
    assert!(!must_wait_for_network(false, false, Some(2)));
    assert!(!must_wait_for_network(true, true, Some(2)));
}

#[test]
fn deadlines_after_the_end_of_proposing_are_zero() {
    let mut machine = claimed_machine();
    machine.on_event(AuthoringEvent::BackoffDecided { backoff: false });
    assert_eq!(
        machine.on_event(AuthoringEvent::ProposerReady { now: 5000 }),
        AuthoringAction::CreateInherentData { timeout: 0 }
    );
    assert_eq!(
        machine.on_event(AuthoringEvent::InherentDataReady { now: 5000 }),
        AuthoringAction::Propose { soft_deadline: 0, hard_deadline: 0 }
    );
    assert_eq!(soft_deadline(100), 98);
    assert_eq!(soft_deadline(0), 0);
    assert_eq!(soft_deadline(u64::MAX), 18_077_809_192_235_360_582);
}

#[test]
fn current_node_authority_claims_its_slots() {
    // four authorities, the key store holds the key of the fourth
    let held = vec![false, false, false, true];
    assert!(claim_slot(0, &held, false).is_none());
    assert!(claim_slot(1, &held, false).is_none());
    assert!(claim_slot(2, &held, false).is_none());
    assert_eq!(claim_slot(3, &held, false), Some(3));
    assert!(claim_slot(4, &held, false).is_none());
    assert!(claim_slot(5, &held, false).is_none());
    assert!(claim_slot(6, &held, false).is_none());
    assert_eq!(claim_slot(7, &held, false), Some(3));
    // forced authoring takes the first key that is held, whatever the slot
    assert_eq!(claim_slot(0, &held, true), Some(3));
    assert_eq!(claim_slot(0, &vec![false, true, true], true), Some(1));
    assert_eq!(claim_slot(2, &vec![false, false], true), None);
    assert_eq!(claim_slot(2, &vec![], true), None);
    assert_eq!(claim_slot(2, &vec![], false), None);
}

#[test]
fn test_slot_duration_and_timing_security() {
    // Test 1: Verify slot duration configuration
    let slot_duration = sp_consensus_slots::SlotDuration::from_millis(500);
    assert_eq!(slot_duration.as_millis(), 500);

    // Test 2: Verify slot timing calculations
    let slot_0 = sp_consensus_slots::Slot::from(0u64);
    let slot_1 = sp_consensus_slots::Slot::from(1u64);
    let slot_100 = sp_consensus_slots::Slot::from(100u64);

    // Verify slot progression is monotonic
    assert!(*slot_0 < *slot_1);
    assert!(*slot_1 < *slot_100);

    // Test 3: Verify large slot numbers don't overflow
    let large_slot = sp_consensus_slots::Slot::from(u64::MAX - 1);
    let next_slot = sp_consensus_slots::Slot::from(u64::MAX);
    assert!(*large_slot < *next_slot);

    // Test 4: Authority assignment with large slots should be stable
    let authorities = vec![[1u8; 32], [2u8; 32], [3u8; 32]];

    let author_for_large_slot = slot_author(*large_slot, authorities.len());
    assert!(author_for_large_slot.is_some());

    // Verify consistent assignment for same slot
    let author_again = slot_author(*large_slot, authorities.len());
    assert_eq!(author_for_large_slot, author_again);
    assert_eq!(author_for_large_slot, Some(((u64::MAX - 1) % 3) as usize));
}

#[test]
fn slot_assignment_follows_the_slot_number() {
    assert_eq!(slot_author(0, 2), Some(0));
    assert_eq!(slot_author(1, 2), Some(1));
    assert_eq!(slot_author(1, 3), Some(1));
    assert_eq!(slot_author(7, 3), Some(1));
    assert_eq!(slot_author(7, 0), None);
    assert_eq!(slot_author(u64::MAX, 100), Some(15));
}

#[test]
fn worker_backoff_needs_strategy_and_head_slot() {
    let strategy = BackoffAuthoringOnFinalizedHeadLagging::default();
    assert!(worker_should_backoff(Some(&strategy), 60, Some(10), 0, 11));
    assert!(!worker_should_backoff(Some(&strategy), 60, Some(10), 0, 16));
    assert!(!worker_should_backoff(Some(&strategy), 60, None, 0, 11));
    assert!(!worker_should_backoff(None, 60, Some(10), 0, 11));
    let unbiased = BackoffAuthoringOnFinalizedHeadLagging { authoring_bias: 0, ..strategy };
    assert!(!worker_should_backoff(Some(&unbiased), 60, Some(10), 0, 10));
    assert!(!worker_should_backoff(Some(&unbiased), 60, None, 0, 11));
}

#[test]
fn compatibility_mode_initializes_blocks_before_until() {
    assert_eq!(CompatibilityMode::default(), CompatibilityMode::Disabled);
    assert!(!CompatibilityMode::Disabled.initializes_block(0));
    let mode = CompatibilityMode::UseInitializeBlock { until: 10 };
    assert!(mode.initializes_block(9));
    assert!(!mode.initializes_block(10));
    assert!(!mode.initializes_block(11));
}
