use micc_consensus::authorities::{
    do_try_state, find_author, initialize_authorities, is_disabled, minimum_period_times_two,
    on_initialize, on_new_session, on_timestamp_set, report_equivocation, same_authorities,
    slot_author_index, truncate_authorities, RuntimeEvent, StateError,
};
use micc_consensus::chain_spec;
use micc_consensus::digests::{
    find_pre_digest, names_micc, DigestItem, PreDigestLookupError, MICC_ENGINE_ID,
};
use micc_consensus::environments::{
    BuildParams, ConsensusParams, Environment, EnvironmentValidator, NetworkParams,
    RateLimitParams, Violation,
};
use parity_scale_codec::Encode;

#[test]
fn test_header_validation_security() {
    // Test 1: Valid header with pre-digest
    let slot = 42u64;
    let pre_digest = DigestItem::micc_pre_digest(slot);
    let logs = vec![pre_digest];

    // Should successfully extract slot
    let extracted_slot = find_pre_digest(1, &logs);
    assert!(extracted_slot.is_ok());
    assert_eq!(extracted_slot.unwrap(), slot);

    // Test 2: Header without pre-digest should fail
    let no_digest_result = find_pre_digest(1, &vec![]);
    assert!(no_digest_result.is_err());
    match no_digest_result.unwrap_err() {
        PreDigestLookupError::NoDigestFound => {}, // Expected
        _ => panic!("Unexpected error type"),
    }

    // Test 3: Genesis block (block 0) should return slot 0
    let genesis_slot = find_pre_digest(0, &vec![]);
    assert!(genesis_slot.is_ok());
    assert_eq!(genesis_slot.unwrap(), 0);
}

#[test]
fn test_force_authoring_security_validation() {
    let authorities = vec![1u64, 2u64, 3u64];
    // Test 1: Verify proper slot assignment in normal mode
    let slot = 1u64;
    let expected_authority_index = slot_author_index(slot, authorities.len() as u32);
    let expected_authority = authorities[expected_authority_index as usize];

    // In normal mode, only the expected authority should be able to claim the slot
    assert_eq!(expected_authority, authorities[1 % 3]); // slot 1 -> authority at index 1
}

#[test]
fn pre_digests_hold_the_slot_lowest_byte_first() {
    match DigestItem::micc_pre_digest(0x0102030405060708) {
        DigestItem::PreRuntime(id, data) => {
            assert_eq!(id, *b"micc");
            assert_eq!(data, vec![8, 7, 6, 5, 4, 3, 2, 1]);
            assert_eq!(data, sp_consensus_slots::Slot::from(0x0102030405060708u64).encode());
        },
        _ => panic!("a pre-runtime digest is expected"),
    }
    assert_eq!(MICC_ENGINE_ID, *b"micc");
    assert!(names_micc(b"micc"));
    assert!(!names_micc(b"aura"));
    let item = DigestItem::PreRuntime(*b"micc", vec![1, 0, 0, 0, 0, 0, 0, 1]);
    assert_eq!(item.as_micc_pre_digest(), Some(1 + (1 << 56)));
    // bytes beyond the eighth are not read
    let long = DigestItem::PreRuntime(*b"micc", vec![2, 0, 0, 0, 0, 0, 0, 0, 9, 9]);
    assert_eq!(long.as_micc_pre_digest(), Some(2));
    // fewer than eight bytes hold no slot
    let short = DigestItem::PreRuntime(*b"micc", vec![1, 0, 0, 0, 0, 0, 0]);
    assert_eq!(short.as_micc_pre_digest(), None);
    let foreign = DigestItem::PreRuntime(*b"aura", vec![1, 0, 0, 0, 0, 0, 0, 0]);
    assert_eq!(foreign.as_micc_pre_digest(), None);
    assert_eq!(DigestItem::Other(vec![1, 0, 0, 0, 0, 0, 0, 0]).as_micc_pre_digest(), None);
    assert_eq!(DigestItem::micc_pre_digest(u64::MAX).as_micc_pre_digest(), Some(u64::MAX));

    let seal = DigestItem::micc_seal(vec![5; 64]);
    assert_eq!(seal.as_micc_seal(), Some(&vec![5u8; 64]));
    assert_eq!(seal.as_micc_pre_digest(), None);
    assert_eq!(DigestItem::Seal(*b"aura", vec![5; 64]).as_micc_seal(), None);
    assert_eq!(DigestItem::RuntimeEnvironmentUpdated.as_micc_seal(), None);
}

#[test]
fn the_slot_of_a_header() {
    let other = || DigestItem::Consensus(*b"micc", vec![1, 2, 3]);
    assert_eq!(
        find_pre_digest(7, &vec![other(), DigestItem::micc_pre_digest(9), DigestItem::micc_seal(vec![])]),
        Ok(9)
    );
    assert_eq!(
        find_pre_digest(7, &vec![DigestItem::micc_pre_digest(9), DigestItem::micc_pre_digest(9)]),
        Err(PreDigestLookupError::MultipleHeaders)
    );
    assert_eq!(find_pre_digest(7, &vec![other()]), Err(PreDigestLookupError::NoDigestFound));
    // an undecodable pre-digest counts as none
    assert_eq!(
        find_pre_digest(7, &vec![DigestItem::PreRuntime(*b"micc", vec![1])]),
        Err(PreDigestLookupError::NoDigestFound)
    );
    // the genesis block has slot 0 whatever its digest
    assert_eq!(
        find_pre_digest(0, &vec![DigestItem::micc_pre_digest(9), DigestItem::micc_pre_digest(9)]),
        Ok(0)
    );
}

#[test]
fn slots_must_advance() {
    let none: Vec<u32> = vec![];
    // no digest: nothing happens
    let outcome = on_initialize(5, None, false, Some(4), &none);
    assert_eq!((outcome.current_slot, outcome.reads, outcome.writes), (5, 1, 0));
    assert!(outcome.events.is_empty());
    // the slot increases
    let outcome = on_initialize(5, Some(6), false, Some(4), &none);
    assert_eq!((outcome.current_slot, outcome.reads, outcome.writes), (6, 2, 1));
    assert!(outcome.events.is_empty());
    // the slot must increase unless allowed
    let outcome = on_initialize(5, Some(5), false, Some(4), &none);
    assert_eq!((outcome.current_slot, outcome.reads, outcome.writes), (5, 1, 0));
    assert_eq!(
        outcome.events,
        vec![
            RuntimeEvent::SlotValidationFailed { current_slot: 5, new_slot: 5 },
            RuntimeEvent::ConsensusErrorRecovered { error_type: 2 },
        ]
    );
    // an unchanged slot can be allowed
    let outcome = on_initialize(5, Some(5), true, Some(4), &none);
    assert_eq!((outcome.current_slot, outcome.writes), (5, 1));
    assert!(outcome.events.is_empty());
    // a decreasing slot is always refused
    let outcome = on_initialize(5, Some(4), true, Some(4), &none);
    assert_eq!(outcome.current_slot, 5);
    assert_eq!(
        outcome.events,
        vec![
            RuntimeEvent::SlotValidationFailed { current_slot: 5, new_slot: 4 },
            RuntimeEvent::ConsensusErrorRecovered { error_type: 2 },
        ]
    );
}

#[test]
fn disabled_validators_are_reported() {
    // slot 1 of four authorities belongs to validator 1
    let outcome = on_initialize(0, Some(1), false, Some(4), &vec![3, 1]);
    assert_eq!((outcome.current_slot, outcome.reads, outcome.writes), (1, 1, 0));
    assert_eq!(
        outcome.events,
        vec![
            RuntimeEvent::DisabledValidatorAttempt { authority_index: 1, slot: 1 },
            RuntimeEvent::ConsensusErrorRecovered { error_type: 0 },
        ]
    );
    let outcome = on_initialize(0, Some(2), false, Some(4), &vec![3, 1]);
    assert!(outcome.events.is_empty());
    let outcome = on_initialize(0, Some(2), false, None, &vec![3, 1]);
    assert_eq!(outcome.current_slot, 2);
    assert_eq!(
        outcome.events,
        vec![
            RuntimeEvent::AuthoritiesDecodeError,
            RuntimeEvent::ConsensusErrorRecovered { error_type: 1 },
        ]
    );
    // a set without authorities is reported like one that cannot be decoded
    let outcome = on_initialize(0, Some(2), false, Some(0), &vec![3, 1]);
    assert_eq!((outcome.current_slot, outcome.reads, outcome.writes), (2, 1, 0));
    assert_eq!(
        outcome.events,
        vec![
            RuntimeEvent::AuthoritiesDecodeError,
            RuntimeEvent::ConsensusErrorRecovered { error_type: 1 },
        ]
    );
    // a refused slot and a missing digest need no authorities at all
    assert_eq!(on_initialize(5, Some(5), false, Some(0), &vec![]).current_slot, 5);
    assert_eq!(on_initialize(5, None, false, Some(0), &vec![]).current_slot, 5);
    assert!(is_disabled(&vec![3, 1], 3));
    assert!(!is_disabled(&vec![3, 1], 2));
    assert_eq!(slot_author_index(u64::MAX, 100), 15);
    assert_eq!(slot_author_index(u64::MAX, u32::MAX), 0);
}

#[test]
fn timestamps_are_held_against_the_slot() {
    assert!(on_timestamp_set(5000, 500, 10).is_empty());
    assert!(on_timestamp_set(5499, 500, 10).is_empty());
    assert_eq!(
        on_timestamp_set(5500, 500, 10),
        vec![
            RuntimeEvent::SlotValidationFailed { current_slot: 10, new_slot: 11 },
            RuntimeEvent::ConsensusErrorRecovered { error_type: 2 },
        ]
    );
    // a slot duration of zero is ignored
    assert!(on_timestamp_set(5500, 0, 10).is_empty());
    assert_eq!(minimum_period_times_two(250), 500);
    assert_eq!(minimum_period_times_two(u64::MAX / 2), u64::MAX - 1);
    assert_eq!(minimum_period_times_two(u64::MAX / 2 + 1), u64::MAX);
}

fn set(ids: &[u8]) -> Vec<Vec<u8>> {
    ids.iter().map(|id| vec![*id; 32]).collect()
}

#[test]
fn authority_sets_are_bounded() {
    assert_eq!(truncate_authorities(set(&[1, 2, 3]), 2), set(&[1, 2]));
    assert_eq!(truncate_authorities(set(&[1, 2, 3]), 3), set(&[1, 2, 3]));
    assert_eq!(truncate_authorities(set(&[1, 2, 3]), 0), set(&[]));
    assert_eq!(truncate_authorities(set(&[]), 5), set(&[]));
    // initial values
    assert_eq!(initialize_authorities(0, set(&[0, 1, 2, 3]), 100), Some(set(&[0, 1, 2, 3])));
    assert_eq!(initialize_authorities(0, set(&[0, 1, 2, 3]), 3), Some(set(&[0, 1, 2])));
    assert_eq!(initialize_authorities(0, set(&[]), 100), None);
    // a stored set is not replaced
    assert_eq!(initialize_authorities(2, set(&[0, 1]), 100), None);
    // new sessions
    assert!(same_authorities(&set(&[1, 2]), &set(&[1, 2])));
    assert!(!same_authorities(&set(&[1, 2]), &set(&[2, 1])));
    assert!(!same_authorities(&set(&[1, 2]), &set(&[1])));
    assert_eq!(on_new_session(true, &set(&[1, 2]), set(&[1, 3]), 10), Some(set(&[1, 3])));
    assert_eq!(on_new_session(true, &set(&[1, 2]), set(&[1, 3, 4]), 2), Some(set(&[1, 3])));
    assert_eq!(on_new_session(false, &set(&[1, 2]), set(&[1, 3]), 10), None);
    assert_eq!(on_new_session(true, &set(&[1, 2]), set(&[1, 2]), 10), None);
    assert_eq!(on_new_session(true, &set(&[1, 2]), set(&[]), 10), None);
    assert_eq!(on_new_session(true, &set(&[1, 2]), set(&[5]), 0), None);
}

#[test]
fn the_author_is_found_in_the_digests() {
    let slot = |n: u64| n.encode();
    assert_eq!(find_author(&vec![(*b"micc", slot(7))], 3), Some(1));
    assert_eq!(find_author(&vec![(*b"aura", slot(2)), (*b"micc", slot(7))], 4), Some(3));
    // the first digest of the engine decides
    assert_eq!(find_author(&vec![(*b"micc", slot(7)), (*b"micc", slot(8))], 4), Some(3));
    assert_eq!(find_author(&vec![(*b"micc", vec![1, 2]), (*b"micc", slot(8))], 4), None);
    assert_eq!(find_author(&vec![(*b"aura", slot(2))], 4), None);
    assert_eq!(find_author(&vec![], 4), None);
    // where no slot is named the number of authorities is never used
    assert_eq!(find_author(&vec![(*b"aura", slot(2))], 0), None);
    assert_eq!(find_author(&vec![(*b"micc", vec![1, 2])], 0), None);
}

#[test]
fn reported_equivocations_count_and_disable() {
    assert_eq!(report_equivocation(0, true), (1, true));
    assert_eq!(report_equivocation(0, false), (1, false));
    assert_eq!(report_equivocation(9, true), (10, true));
    assert_eq!(report_equivocation(u32::MAX, true), (u32::MAX, true));
}

#[test]
fn the_state_is_checked() {
    let none: Vec<u32> = vec![];
    assert_eq!(do_try_state(5, false, Some(4), &none), Ok(()));
    assert_eq!(do_try_state(u64::MAX, false, Some(4), &none), Err(StateError::SlotAtMaximum));
    assert_eq!(do_try_state(u64::MAX, true, Some(4), &none), Ok(()));
    assert_eq!(do_try_state(5, false, None, &none), Err(StateError::AuthoritiesUndecodable));
    assert_eq!(do_try_state(5, false, Some(0), &none), Err(StateError::NoAuthorities));
    assert_eq!(do_try_state(5, false, Some(4), &vec![1]), Err(StateError::CurrentValidatorDisabled));
    assert_eq!(do_try_state(5, false, Some(4), &vec![2]), Ok(()));
}

#[test]
fn environments_are_named_in_any_case() {
    assert_eq!(Environment::from_str("dev"), Ok(Environment::Development));
    assert_eq!(Environment::from_str("Development"), Ok(Environment::Development));
    assert_eq!(Environment::from_str("LOCAL"), Ok(Environment::Local));
    assert_eq!(Environment::from_str("staging"), Ok(Environment::Staging));
    assert_eq!(Environment::from_str("Prod"), Ok(Environment::Production));
    assert_eq!(Environment::from_str("PRODUCTION"), Ok(Environment::Production));
    assert_eq!(
        Environment::from_str("Test"),
        Err("Unknown environment: Test. Valid options: dev, local, staging, production".to_string())
    );
    assert_eq!(
        Environment::from_str(""),
        Err("Unknown environment: . Valid options: dev, local, staging, production".to_string())
    );
    assert_eq!(Environment::from_env(), Environment::Development);
    assert_eq!(chain_spec::parse_environment("DEV"), Ok(chain_spec::Environment::Development));
    assert_eq!(chain_spec::parse_environment("development"), Ok(chain_spec::Environment::Development));
    assert_eq!(chain_spec::parse_environment("local"), Ok(chain_spec::Environment::Local));
    assert_eq!(chain_spec::parse_environment("Staging"), Ok(chain_spec::Environment::Staging));
    assert_eq!(chain_spec::parse_environment("prod"), Ok(chain_spec::Environment::Production));
    assert_eq!(chain_spec::parse_environment("production"), Ok(chain_spec::Environment::Production));
    assert_eq!(
        chain_spec::parse_environment("mainnet"),
        Err("Unknown environment: mainnet. Valid options: dev, local, staging, production".to_string())
    );
}

#[test]
fn parameters_of_the_environments() {
    let development = RateLimitParams::for_environment(&Environment::Development);
    assert_eq!(development.default_transactions_per_block, 1000);
    assert_eq!(development.default_transactions_per_minute, 6000);
    assert_eq!(development.max_transactions_per_account, 1000);
    assert_eq!(development.max_bytes_per_account, 2 * 1024 * 1024);
    assert_eq!(development.max_transactions_per_minute, 600);
    let local = RateLimitParams::for_environment(&Environment::Local);
    assert_eq!(local.default_transactions_per_block, 500);
    assert_eq!(local.max_bytes_per_account, 1024 * 1024);
    let staging = RateLimitParams::for_environment(&Environment::Staging);
    assert_eq!(staging.default_transactions_per_minute, 1200);
    assert_eq!(staging.max_bytes_per_account, 512 * 1024);
    let production = RateLimitParams::for_environment(&Environment::Production);
    assert_eq!(production.default_transactions_per_block, 100);
    assert_eq!(production.max_transactions_per_minute, 60);

    assert_eq!(
        ConsensusParams::for_environment(&Environment::Development),
        ConsensusParams { max_authorities: 10, allow_multiple_blocks_per_slot: true, block_hash_count: 250 }
    );
    assert_eq!(
        ConsensusParams::for_environment(&Environment::Local),
        ConsensusParams { max_authorities: 10, allow_multiple_blocks_per_slot: false, block_hash_count: 1200 }
    );
    assert_eq!(
        ConsensusParams::for_environment(&Environment::Staging),
        ConsensusParams { max_authorities: 21, allow_multiple_blocks_per_slot: false, block_hash_count: 2400 }
    );
    assert_eq!(
        ConsensusParams::for_environment(&Environment::Production),
        ConsensusParams { max_authorities: 32, allow_multiple_blocks_per_slot: false, block_hash_count: 7200 }
    );
    assert_eq!(
        NetworkParams::for_environment(&Environment::Development),
        NetworkParams { ss58_prefix: 42, existential_deposit_multiplier: 1, max_consumers: 16 }
    );
    assert_eq!(
        NetworkParams::for_environment(&Environment::Local),
        NetworkParams { ss58_prefix: 42, existential_deposit_multiplier: 1, max_consumers: 16 }
    );
    assert_eq!(
        NetworkParams::for_environment(&Environment::Staging),
        NetworkParams { ss58_prefix: 42, existential_deposit_multiplier: 10, max_consumers: 32 }
    );
    assert_eq!(
        NetworkParams::for_environment(&Environment::Production),
        NetworkParams { ss58_prefix: 42, existential_deposit_multiplier: 100, max_consumers: 32 }
    );
}

#[test]
fn environments_are_validated() {
    assert_eq!(EnvironmentValidator::validate(), Ok(()));
    let build = BuildParams::of_this_build();
    assert_eq!(EnvironmentValidator::validate_for(&Environment::Development, &build), Ok(()));
    assert_eq!(EnvironmentValidator::validate_for(&Environment::Local, &build), Ok(()));
    assert_eq!(EnvironmentValidator::validate_for(&Environment::Staging, &build), Ok(()));
    // the development build breaks three rules of production
    assert_eq!(
        EnvironmentValidator::check(&Environment::Production, &build),
        vec![
            Violation::GenericPrefix,
            Violation::BlockLimitTooHigh,
            Violation::MultipleBlocksPerSlot,
        ]
    );
    assert_eq!(
        EnvironmentValidator::validate_for(&Environment::Production, &build),
        Err("Production environment validation failed:\nProduction SS58 prefix must not be 42 (generic Substrate prefix)\nProduction transaction per block limit is too high\nProduction should not allow multiple blocks per slot".to_string())
    );
    let good = BuildParams {
        rate_limit: RateLimitParams::for_environment(&Environment::Production),
        consensus: ConsensusParams::for_environment(&Environment::Production),
        ss58_prefix: 7,
        max_consumers: 32,
    };
    assert_eq!(EnvironmentValidator::validate_for(&Environment::Production, &good), Ok(()));
    let few = BuildParams {
        consensus: ConsensusParams { max_authorities: 1, ..good.consensus },
        ..good
    };
    assert_eq!(
        EnvironmentValidator::validate_for(&Environment::Production, &few),
        Err("Production environment validation failed:\nProduction should have at least 3 authorities for security".to_string())
    );
    assert_eq!(
        EnvironmentValidator::validate_for(&Environment::Staging, &few),
        Err("Staging environment validation failed:\nStaging should have at least 2 authorities for testing".to_string())
    );
}

#[test]
fn the_configuration_is_summarised() {
    assert_eq!(
        EnvironmentValidator::get_config_summary(),
        "Environment: Development\nRate Limiting:\n- Default Transactions Per Block: 1000\n- Default Transactions Per Minute: 6000\n- Max Transactions Per Account: 1000\n- Max Bytes Per Account: 2097152 bytes\n- Max Transactions Per Minute: 600\nConsensus:\n- Max Authorities: 10\n- Allow Multiple Blocks Per Slot: true\n- Block Hash Count: 250\nNetwork:\n- SS58 Prefix: 42\n- Max Consumers: 16"
    );
}
