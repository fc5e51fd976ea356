use micc_consensus::clock::Timer;
use micc_consensus::config::{CollectionConfig, EventDrivenConfig};
use micc_consensus::controller::{EventDrivenController, SmartEventDrivenController};
use micc_consensus::load::{NetworkLoadTracker, TransactionRate};
use micc_consensus::trigger::{
    forward_signal, highest_priority, BlockProductionTrigger, PoolEvent, SlotTrigger,
};
use micc_consensus::window::{calculate_collection_duration, CollectionWindow, SmartCollectionWindow};

const MS: u64 = 1_000_000;

#[test]
fn test_immediate_production_triggers() {
    let config = EventDrivenConfig::default();
    let controller = EventDrivenController::new(config, 0);

    // Test large batch triggers immediate production
    assert!(controller.should_produce_immediately(config.collection.max_batch_size, None, 0));

    // Test normal batch doesn't trigger immediate production
    assert!(!controller.should_produce_immediately(10, None, 0));
}

#[test]
fn test_block_production_triggers() {
    let config = EventDrivenConfig::default();
    let mut controller = EventDrivenController::new(config, 0);

    // Test transaction added starts collection window
    let trigger = controller.handle_pool_event(PoolEvent::PoolReady(5, None), 0);
    assert_eq!(trigger, BlockProductionTrigger::StartCollectionWindow);

    // Test large batch triggers immediate production
    let trigger = controller.handle_pool_event(PoolEvent::PoolReady(1000, None), 0);
    assert_eq!(trigger, BlockProductionTrigger::ProduceImmediately);

    // Test empty pool cancels collection
    let trigger = controller.handle_pool_event(PoolEvent::PoolEmpty, 0);
    assert_eq!(trigger, BlockProductionTrigger::NoTrigger);
    assert!(controller.collection_window().is_none());
}

#[test]
fn test_smart_collection_window() {
    let config = CollectionConfig::default();

    // Test normal collection window
    let window = SmartCollectionWindow::new(&config, 10, None, TransactionRate::per_second(1), false, 0);
    assert_eq!(window.initial_tx_count, 10);
    assert!(!window.network_load.is_zero_rate());
    assert!(!window.priority_triggered);

    // Test priority collection window
    let priority_window =
        SmartCollectionWindow::new(&config, 5, Some(1000), TransactionRate::per_second(2), true, 0);
    assert_eq!(priority_window.initial_tx_count, 5);
    assert_eq!(priority_window.highest_priority, Some(1000));
    assert!(priority_window.priority_triggered);
}

#[test]
fn test_network_load_tracker() {
    let mut tracker = NetworkLoadTracker::new(100, 0);

    // Test initial state
    assert!(tracker.get_tps().is_zero_rate());

    // Test recording transactions
    let tps = tracker.record_transaction(1);
    assert!(tps.is_zero_rate());

    // Test multiple transactions
    for i in 0..5 {
        tracker.record_transaction(2 + i);
    }

    let final_tps = tracker.get_tps();
    assert!(final_tps.is_zero_rate());
}

#[test]
fn test_smart_event_driven_controller() {
    let config = EventDrivenConfig::default();
    let mut controller = SmartEventDrivenController::new(config, 0);

    // Test normal transaction handling
    let trigger = controller.handle_pool_event(PoolEvent::PoolReady(10, None), 0);
    assert_eq!(trigger, BlockProductionTrigger::StartCollectionWindow);

    // Test high priority transaction
    let trigger = controller
        .handle_pool_event(PoolEvent::HighPriorityTransactionAdded([0u8; 32], u64::MAX), 0);
    assert_eq!(trigger, BlockProductionTrigger::ProduceImmediately);

    // Test network load tracking
    let load = controller.get_network_load();
    assert!(load.is_zero_rate());
}

#[test]
fn test_collection_config_adaptive_timing() {
    let config = CollectionConfig {
        min_collection_time: 100 * MS,
        max_collection_time: 1000 * MS,
        max_batch_size: 500,
        priority_threshold: 1000,
        network_load_factor: 100,
        enable_adaptive_timing: true,
    };

    // Test high load scenario
    let window = SmartCollectionWindow::new(&config, 20, None, TransactionRate::per_second(10), false, 0);
    assert!(window.duration >= config.min_collection_time);
    assert!(window.duration <= config.max_collection_time);

    // Test high priority scenario
    let priority_window =
        SmartCollectionWindow::new(&config, 5, Some(1500), TransactionRate::per_second(1), true, 0);
    assert!(priority_window.duration >= config.min_collection_time);
    assert!(priority_window.highest_priority == Some(1500));
}

#[test]
fn test_event_driven_integration() {
    let config = EventDrivenConfig::default();

    // Test that event-driven config can be created and used
    assert_eq!(config.collection.min_collection_time, 100 * MS);
    assert_eq!(config.collection.max_batch_size, 1000);
    assert!(config.enable_priority_fast_track);

    // Test that controller can be created with config
    let controller = EventDrivenController::new(config, 0);
    assert_eq!(controller.pending_transactions(), 0);

    assert_eq!(config.collection.max_collection_time, 400 * MS);
    assert_eq!(config.collection.priority_threshold, u64::MAX / 2);
    assert!(config.collection.enable_adaptive_timing);
    assert_eq!(config.empty_block_interval_ms, Some(3_600_000));
    assert_eq!(config.transaction_rate_history_size, 10);
    assert!(config.collection.is_well_formed());
}

#[test]
fn test_collection_window_duration_calculation() {
    let config = EventDrivenConfig::default();
    let controller = EventDrivenController::new(config, 0);

    // Test different transaction counts
    assert_eq!(
        controller.calculate_collection_window_duration(1),
        config.collection.max_collection_time
    );

    // one second, held to the longest window
    assert_eq!(controller.calculate_collection_window_duration(25), 400 * MS);

    assert_eq!(
        controller.calculate_collection_window_duration(100),
        config.collection.min_collection_time
    );

    // with a range that holds one second
    let wide = CollectionConfig {
        min_collection_time: 500 * MS,
        max_collection_time: 2000 * MS,
        ..CollectionConfig::default()
    };
    assert_eq!(calculate_collection_duration(&wide, 1), 2000 * MS);
    assert_eq!(calculate_collection_duration(&wide, 10), 2000 * MS);
    assert_eq!(calculate_collection_duration(&wide, 25), 1000 * MS);
    assert_eq!(calculate_collection_duration(&wide, 50), 1000 * MS);
    assert_eq!(calculate_collection_duration(&wide, 100), 500 * MS);
    let narrow = CollectionConfig::default();
    assert_eq!(calculate_collection_duration(&narrow, 25), 400 * MS);
    assert_eq!(calculate_collection_duration(&narrow, 1), 400 * MS);
    assert_eq!(calculate_collection_duration(&narrow, 100), 100 * MS);
}

#[test]
fn adaptive_duration_exact_values() {
    let config = CollectionConfig::default();
    let normal = TransactionRate::per_second(1);
    // midpoint of 100 ms and 400 ms
    assert_eq!(
        SmartCollectionWindow::calculate_adaptive_duration(&config, normal, None, false),
        250 * MS
    );
    // high load: 250 ms * 0.7
    assert_eq!(
        SmartCollectionWindow::calculate_adaptive_duration(
            &config,
            TransactionRate::per_second(6),
            None,
            false
        ),
        175 * MS
    );
    // medium load: 250 ms * 0.85
    assert_eq!(
        SmartCollectionWindow::calculate_adaptive_duration(
            &config,
            TransactionRate::per_second(3),
            None,
            false
        ),
        212_500_000
    );
    // exactly five per second is medium, exactly two is normal
    assert_eq!(
        SmartCollectionWindow::calculate_adaptive_duration(
            &config,
            TransactionRate::per_second(5),
            None,
            false
        ),
        212_500_000
    );
    assert_eq!(
        SmartCollectionWindow::calculate_adaptive_duration(
            &config,
            TransactionRate::per_second(2),
            None,
            false
        ),
        250 * MS
    );
    // low load: 250 ms * 1.3
    assert_eq!(
        SmartCollectionWindow::calculate_adaptive_duration(
            &config,
            TransactionRate::zero(),
            None,
            false
        ),
        325 * MS
    );
    let third = TransactionRate { transactions: 1, nanos: 3_000_000_000 };
    assert_eq!(
        SmartCollectionWindow::calculate_adaptive_duration(&config, third, None, false),
        325 * MS
    );
    // low load is held to the longest window
    let tight = CollectionConfig { max_collection_time: 300 * MS, ..config };
    assert_eq!(
        SmartCollectionWindow::calculate_adaptive_duration(
            &tight,
            TransactionRate::zero(),
            None,
            false
        ),
        260 * MS
    );
    let tighter = CollectionConfig { max_collection_time: 120 * MS, ..config };
    assert_eq!(
        SmartCollectionWindow::calculate_adaptive_duration(
            &tighter,
            TransactionRate::zero(),
            None,
            false
        ),
        120 * MS
    );
    // priority at the threshold: factor 0.1, held to the shortest window
    let priority = CollectionConfig { priority_threshold: 1000, ..config };
    assert_eq!(
        SmartCollectionWindow::calculate_adaptive_duration(&priority, normal, Some(1000), false),
        100 * MS
    );
    // priority above half the threshold: factor 0.5
    assert_eq!(
        SmartCollectionWindow::calculate_adaptive_duration(&priority, normal, Some(501), false),
        125 * MS
    );
    assert_eq!(
        SmartCollectionWindow::calculate_adaptive_duration(&priority, normal, Some(500), false),
        250 * MS
    );
    // a window opened by priority starts from the shortest duration
    assert_eq!(
        SmartCollectionWindow::calculate_adaptive_duration(&priority, normal, Some(10), true),
        100 * MS
    );
    // without adaptive timing only the base counts
    let fixed = CollectionConfig { enable_adaptive_timing: false, ..config };
    assert_eq!(
        SmartCollectionWindow::calculate_adaptive_duration(
            &fixed,
            TransactionRate::per_second(100),
            Some(u64::MAX),
            false
        ),
        250 * MS
    );
}

#[test]
fn adaptive_duration_stays_in_range() {
    let loads = [
        TransactionRate::zero(),
        TransactionRate::per_second(1),
        TransactionRate::per_second(3),
        TransactionRate::per_second(100),
    ];
    let priorities = [None, Some(0), Some(600), Some(1000), Some(u64::MAX)];
    for (min, max) in [(0u64, 0u64), (1, 1), (100 * MS, 400 * MS), (7, u64::MAX), (u64::MAX, u64::MAX)] {
        for adaptive in [true, false] {
            let config = CollectionConfig {
                min_collection_time: min,
                max_collection_time: max,
                max_batch_size: 10,
                priority_threshold: 1000,
                network_load_factor: 100,
                enable_adaptive_timing: adaptive,
            };
            for load in loads {
                for priority in priorities {
                    for triggered in [true, false] {
                        let window =
                            SmartCollectionWindow::new(&config, 1, priority, load, triggered, 5);
                        assert!(min <= window.duration && window.duration <= max);
                    }
                }
            }
        }
    }
}

#[test]
fn window_priority_update_shortens_the_wait() {
    let config = CollectionConfig { priority_threshold: 1000, ..CollectionConfig::default() };
    let mut window =
        SmartCollectionWindow::new(&config, 5, Some(10), TransactionRate::per_second(1), false, 0);
    assert_eq!(window.duration, 250 * MS);
    assert_eq!(window.timer, Timer { deadline: 250_000_000 });
    assert!(!window.is_expired(249_999_999));
    assert!(window.is_expired(250_000_000));
    assert_eq!(window.elapsed(40 * MS), 40 * MS);

    // a lower priority changes nothing
    window.update_priority(5, &config, 10 * MS);
    assert_eq!(window.highest_priority, Some(10));
    // a higher priority under the threshold only replaces the priority
    window.update_priority(999, &config, 10 * MS);
    assert_eq!(window.highest_priority, Some(999));
    assert_eq!(window.timer, Timer { deadline: 250_000_000 });
    // at the threshold the wait shrinks to 100 ms
    window.update_priority(1000, &config, 20 * MS);
    assert_eq!(window.highest_priority, Some(1000));
    assert_eq!(window.timer, Timer { deadline: 120_000_000 });
    // a wait that was shrunk is never put off, and a timer that fired stays fired
    window.update_priority(2000, &config, 200 * MS);
    assert_eq!(window.highest_priority, Some(2000));
    assert_eq!(window.timer, Timer { deadline: 120_000_000 });
    assert!(window.is_expired(200 * MS));
    assert_eq!(window.duration, 250 * MS);
    assert_eq!(window.started_at, 0);

    // near the end of the window what is left counts
    let mut late =
        SmartCollectionWindow::new(&config, 5, Some(10), TransactionRate::per_second(1), false, 0);
    late.update_priority(1000, &config, 200 * MS);
    assert_eq!(late.timer, Timer { deadline: 250_000_000 });
    late.update_priority(3000, &config, 240 * MS);
    assert_eq!(late.timer, Timer { deadline: 250_000_000 });

    // a window without a priority takes any priority, and shrinks at the threshold
    let mut fresh =
        SmartCollectionWindow::new(&config, 5, None, TransactionRate::per_second(1), false, 0);
    fresh.update_priority(0, &config, MS);
    assert_eq!(fresh.highest_priority, Some(0));
    assert_eq!(fresh.timer, Timer { deadline: 250_000_000 });
    let mut urgent =
        SmartCollectionWindow::new(&config, 5, None, TransactionRate::per_second(1), false, 0);
    urgent.update_priority(5000, &config, MS);
    assert_eq!(urgent.highest_priority, Some(5000));
    assert_eq!(urgent.timer, Timer { deadline: 101_000_000 });

    let plain = CollectionWindow::new(7 * MS, 3, 100);
    assert_eq!(plain.initial_tx_count, 3);
    assert!(!plain.is_expired(7 * MS + 99));
    assert!(plain.is_expired(7 * MS + 100));
    assert_eq!(plain.elapsed(50), 0);
}

#[test]
fn load_tracker_reflects_count_over_elapsed() {
    let mut tracker = NetworkLoadTracker::new(100, 0);
    // six transactions within one second
    let stamps = [100 * MS, 200 * MS, 300 * MS, 400 * MS, 450 * MS, 900 * MS];
    let mut last = TransactionRate::zero();
    for stamp in stamps {
        last = tracker.record_transaction(stamp);
    }
    let tps = tracker.get_tps();
    assert_eq!(tps, last);
    assert!(!tps.is_zero_rate());
    // six arrivals in the 800 ms since the oldest: 7.5 per second
    assert_eq!(tps, TransactionRate { transactions: 6, nanos: 800 * MS });
    assert!(tps.is_above(7));
    assert!(!tps.is_above(8));
    assert!(!tps.is_below_half());
}

#[test]
fn load_tracker_recomputes_at_most_every_half_second() {
    let mut tracker = NetworkLoadTracker::new(100, 0);
    assert!(tracker.record_transaction(0).is_zero_rate());
    assert!(tracker.record_transaction(500 * MS - 1).is_zero_rate());
    let first = tracker.record_transaction(500 * MS);
    assert_eq!(first, TransactionRate { transactions: 3, nanos: 500 * MS });
    // within the next half second the cached value is returned
    assert_eq!(tracker.record_transaction(900 * MS), first);
    assert_eq!(tracker.record_transaction(1000 * MS - 1), first);
    let second = tracker.record_transaction(1000 * MS);
    assert_eq!(second, TransactionRate { transactions: 6, nanos: 1000 * MS });
}

#[test]
fn load_tracker_prunes_by_age_and_capacity() {
    let mut tracker = NetworkLoadTracker::new(3, 0);
    for second in 1..=5u64 {
        tracker.record_transaction(second * 1_000_000_000);
    }
    // capacity 3: arrivals at 3 s, 4 s and 5 s are left
    assert_eq!(
        tracker.get_tps(),
        TransactionRate { transactions: 3, nanos: 2_000_000_000 }
    );
    // at 14 s the arrival at 3 s is older than ten seconds, the one at 4 s is not
    let tps = tracker.record_transaction(14_000_000_000);
    assert_eq!(tps, TransactionRate { transactions: 3, nanos: 10_000_000_000 });
    let tps = tracker.record_transaction(15_000_000_001);
    assert_eq!(tps, TransactionRate { transactions: 2, nanos: 1_000_000_001 });
    // a single sample gives no rate
    let tps = tracker.record_transaction(40_000_000_000);
    assert!(tps.is_zero_rate());
    // two samples at the same instant give no rate either
    let mut same = NetworkLoadTracker::new(10, 0);
    same.record_transaction(1_000_000_000);
    assert!(same.record_transaction(1_000_000_000).is_zero_rate());
    // a tracker without capacity keeps nothing
    let mut none = NetworkLoadTracker::new(0, 0);
    none.record_transaction(1_000_000_000);
    assert!(none.record_transaction(2_000_000_000).is_zero_rate());
}

#[test]
fn scenario_window_then_priority() {
    let threshold = 777u64;
    let config = EventDrivenConfig {
        collection: CollectionConfig {
            min_collection_time: 100 * MS,
            max_collection_time: 400 * MS,
            priority_threshold: threshold,
            ..CollectionConfig::default()
        },
        ..EventDrivenConfig::default()
    };
    let mut smart = SmartEventDrivenController::new(config, 0);
    assert_eq!(
        smart.handle_pool_event(PoolEvent::PoolReady(5, None), 0),
        BlockProductionTrigger::StartCollectionWindow
    );
    assert!(smart.collection_window().is_some());
    assert_eq!(smart.pending_transactions(), 5);
    assert_eq!(
        smart.handle_pool_event(PoolEvent::HighPriorityTransactionAdded([1u8; 32], threshold), MS),
        BlockProductionTrigger::ProduceImmediately
    );
    assert!(smart.collection_window().is_none());

    let mut baseline = EventDrivenController::new(config, 0);
    assert_eq!(
        baseline.handle_pool_event(PoolEvent::PoolReady(5, None), 0),
        BlockProductionTrigger::StartCollectionWindow
    );
    assert_eq!(
        baseline.handle_pool_event(PoolEvent::HighPriorityTransactionAdded([1u8; 32], threshold), MS),
        BlockProductionTrigger::ProduceImmediately
    );
    assert!(baseline.collection_window().is_none());
}

#[test]
fn full_batch_and_high_priority_produce_immediately() {
    let config = EventDrivenConfig::default();
    let threshold = config.collection.priority_threshold;
    // with no window
    let mut smart = SmartEventDrivenController::new(config, 0);
    assert_eq!(
        smart.handle_pool_event(PoolEvent::PoolReady(1000, None), 0),
        BlockProductionTrigger::ProduceImmediately
    );
    assert!(smart.collection_window().is_none());
    assert_eq!(
        smart.handle_pool_event(PoolEvent::PoolReady(0, Some(threshold)), 0),
        BlockProductionTrigger::ProduceImmediately
    );
    assert_eq!(
        smart.handle_pool_event(PoolEvent::PoolReady(3, Some(threshold)), 0),
        BlockProductionTrigger::ProduceImmediately
    );
    assert_eq!(
        smart.handle_pool_event(PoolEvent::HighPriorityTransactionAdded([0u8; 32], threshold), 0),
        BlockProductionTrigger::ProduceImmediately
    );
    // with a window
    assert_eq!(
        smart.handle_pool_event(PoolEvent::PoolReady(3, Some(threshold - 1)), 0),
        BlockProductionTrigger::StartCollectionWindow
    );
    assert!(smart.collection_window().unwrap().priority_triggered);
    assert_eq!(
        smart.handle_pool_event(PoolEvent::PoolReady(2000, None), 1),
        BlockProductionTrigger::ProduceImmediately
    );
    assert!(smart.collection_window().is_none());

    let mut baseline = EventDrivenController::new(config, 0);
    assert_eq!(
        baseline.handle_pool_event(PoolEvent::PoolReady(1000, None), 0),
        BlockProductionTrigger::ProduceImmediately
    );
    assert_eq!(
        baseline.handle_pool_event(PoolEvent::PoolReady(1, Some(threshold)), 0),
        BlockProductionTrigger::ProduceImmediately
    );
    assert_eq!(
        baseline.handle_pool_event(PoolEvent::HighPriorityTransactionAdded([0u8; 32], threshold - 1), 0),
        BlockProductionTrigger::NoTrigger
    );
}

#[test]
fn low_priority_transaction_opens_a_priority_window() {
    let config = EventDrivenConfig::default();
    let mut smart = SmartEventDrivenController::new(config, 0);
    assert_eq!(
        smart.handle_pool_event(PoolEvent::HighPriorityTransactionAdded([0u8; 32], 5), 0),
        BlockProductionTrigger::StartCollectionWindow
    );
    let window = smart.collection_window().unwrap();
    assert!(window.priority_triggered);
    assert_eq!(window.highest_priority, Some(5));
    assert_eq!(window.initial_tx_count, 0);
    // load is zero, so the shortest window is stretched by 1.3
    assert_eq!(window.duration, 130 * MS);
    // a second one only updates the window
    assert_eq!(
        smart.handle_pool_event(PoolEvent::HighPriorityTransactionAdded([0u8; 32], 9), MS),
        BlockProductionTrigger::NoTrigger
    );
    assert_eq!(smart.collection_window().unwrap().highest_priority, Some(9));
    // informational events
    assert_eq!(
        smart.handle_pool_event(PoolEvent::TransactionAdded([0u8; 32]), MS),
        BlockProductionTrigger::NoTrigger
    );
    assert_eq!(
        smart.handle_pool_event(PoolEvent::TransactionRemoved([0u8; 32]), MS),
        BlockProductionTrigger::NoTrigger
    );
    assert_eq!(
        smart.handle_pool_event(PoolEvent::NetworkLoad(TransactionRate::per_second(9)), MS),
        BlockProductionTrigger::NoTrigger
    );
    assert!(smart.collection_window().is_some());
}

#[test]
fn stalled_window_produces_immediately() {
    let config = EventDrivenConfig::default();
    let mut smart = SmartEventDrivenController::new(config, 0);
    smart.handle_pool_event(PoolEvent::PoolReady(5, None), 0);
    assert_eq!(
        smart.handle_pool_event(PoolEvent::PoolReady(6, None), 400 * MS - 1),
        BlockProductionTrigger::NoTrigger
    );
    assert_eq!(
        smart.handle_pool_event(PoolEvent::PoolReady(6, None), 400 * MS),
        BlockProductionTrigger::ProduceImmediately
    );
    assert!(smart.collection_window().is_none());
}

#[test]
fn pool_empty_clears_window_and_expiry_check_is_silent() {
    let config = EventDrivenConfig::default();
    let mut smart = SmartEventDrivenController::new(config, 0);
    smart.handle_pool_event(PoolEvent::PoolReady(5, None), 0);
    assert_eq!(smart.handle_pool_event(PoolEvent::PoolEmpty, 1), BlockProductionTrigger::NoTrigger);
    assert!(smart.collection_window().is_none());
    assert_eq!(smart.pending_transactions(), 0);
    assert_eq!(smart.check_collection_window(u64::MAX), BlockProductionTrigger::NoTrigger);

    let mut baseline = EventDrivenController::new(config, 0);
    baseline.handle_pool_event(PoolEvent::PoolReady(5, None), 0);
    baseline.handle_pool_event(PoolEvent::PoolEmpty, 1);
    assert_eq!(baseline.check_collection_window(u64::MAX), BlockProductionTrigger::NoTrigger);
}

#[test]
fn window_expiry_is_reported_once() {
    let config = EventDrivenConfig::default();
    let mut smart = SmartEventDrivenController::new(config, 0);
    smart.handle_pool_event(PoolEvent::PoolReady(5, None), 0);
    let duration = smart.collection_window().unwrap().duration;
    assert_eq!(duration, 325 * MS);
    assert_eq!(smart.check_collection_window(duration - 1), BlockProductionTrigger::NoTrigger);
    assert_eq!(
        smart.check_collection_window(duration),
        BlockProductionTrigger::CollectionWindowExpired
    );
    assert_eq!(smart.check_collection_window(duration + 1), BlockProductionTrigger::NoTrigger);

    let mut baseline = EventDrivenController::new(config, 0);
    baseline.handle_pool_event(PoolEvent::PoolReady(5, None), 0);
    assert_eq!(baseline.collection_window().unwrap().duration, 400 * MS);
    assert_eq!(
        baseline.check_collection_window(400 * MS),
        BlockProductionTrigger::CollectionWindowExpired
    );
    assert_eq!(baseline.check_collection_window(400 * MS), BlockProductionTrigger::NoTrigger);
}

#[test]
fn empty_block_timer_fires_and_is_rearmed() {
    let config = EventDrivenConfig { empty_block_interval_ms: Some(1000), ..EventDrivenConfig::default() };
    let mut smart = SmartEventDrivenController::new(config, 0);
    assert_eq!(smart.check_empty_block_timer(999 * MS), BlockProductionTrigger::NoTrigger);
    assert_eq!(smart.check_empty_block_timer(1000 * MS), BlockProductionTrigger::EmptyBlockTimer);
    assert_eq!(smart.check_empty_block_timer(1999 * MS), BlockProductionTrigger::NoTrigger);
    smart.record_block_produced(1500 * MS);
    assert_eq!(smart.check_empty_block_timer(2000 * MS), BlockProductionTrigger::NoTrigger);
    assert_eq!(smart.check_empty_block_timer(2500 * MS), BlockProductionTrigger::EmptyBlockTimer);

    let silent = EventDrivenConfig { empty_block_interval_ms: None, ..EventDrivenConfig::default() };
    let mut baseline = EventDrivenController::new(silent, 0);
    assert_eq!(baseline.check_empty_block_timer(u64::MAX), BlockProductionTrigger::NoTrigger);
    baseline.handle_pool_event(PoolEvent::PoolReady(5, None), 0);
    baseline.record_block_produced(7);
    assert!(baseline.collection_window().is_none());
}

#[test]
fn triggers_that_produce_blocks() {
    assert!(!BlockProductionTrigger::NoTrigger.should_produce_block());
    assert!(!BlockProductionTrigger::StartCollectionWindow.should_produce_block());
    assert!(BlockProductionTrigger::ProduceImmediately.should_produce_block());
    assert!(BlockProductionTrigger::CollectionWindowExpired.should_produce_block());
    assert!(BlockProductionTrigger::EmptyBlockTimer.should_produce_block());
    assert_eq!(forward_signal(SlotTrigger::CreateBlock), Some(SlotTrigger::CreateBlock));
    assert_eq!(forward_signal(SlotTrigger::NoAction), None);
    assert_eq!(highest_priority(&vec![]), None);
    assert_eq!(highest_priority(&vec![3, 9, 2, 9, 1]), Some(9));
    assert_eq!(highest_priority(&vec![0]), Some(0));
}
