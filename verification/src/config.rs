//! Configuration of the trigger engine.

use vstd::prelude::*;

verus! {

/// Smart collection window configuration for optimized block production.
#[derive(Debug, Clone, Copy, PartialEq, Eq, Structural)]
pub struct CollectionConfig {
    /// Minimum collection time before producing a block, in nanoseconds.
    pub min_collection_time: u64,
    /// Maximum collection time to wait for more transactions, in nanoseconds.
    pub max_collection_time: u64,
    /// Maximum number of transactions per block.
    pub max_batch_size: usize,
    /// Priority threshold for immediate block production.
    pub priority_threshold: u64,
    /// Network load factor for dynamic timing, in percent (10 to 200).
    pub network_load_factor: u32,
    /// Enable adaptive collection windows based on transaction flow.
    pub enable_adaptive_timing: bool,
}

impl CollectionConfig {
    /// A configuration is well formed when its shortest window is no longer than its longest.
    pub open spec fn well_formed(self) -> bool {
        self.min_collection_time <= self.max_collection_time
    }

    /// Tells whether the configuration is well formed.
    pub fn is_well_formed(&self) -> (ok: bool)
        ensures
            ok == self.well_formed(),
    {
        self.min_collection_time <= self.max_collection_time
    }

    /// The configuration that `default` gives.
    pub open spec fn standard() -> CollectionConfig {
        CollectionConfig {
            min_collection_time: 100_000_000,
            max_collection_time: 400_000_000,
            max_batch_size: 1000,
            priority_threshold: 0x7fff_ffff_ffff_ffff,
            network_load_factor: 100,
            enable_adaptive_timing: true,
        }
    }
}

impl Default for CollectionConfig {
    /// Windows of 100 ms to 400 ms, batches of 1000, and the upper half of
    /// the priority range for immediate production.
    fn default() -> (config: Self)
        ensures
            config == CollectionConfig::standard(),
            config.well_formed(),
    {
        CollectionConfig {
            min_collection_time: 100_000_000,
            max_collection_time: 400_000_000,
            max_batch_size: 1000,
            priority_threshold: u64::MAX / 2,
            network_load_factor: 100,
            enable_adaptive_timing: true,
        }
    }
}

/// Configuration for event-driven block production with smart collection.
#[derive(Debug, Clone, Copy, PartialEq, Eq, Structural)]
pub struct EventDrivenConfig {
    /// Smart collection window configuration.
    pub collection: CollectionConfig,
    /// Interval for empty block production in milliseconds (None = no empty blocks).
    pub empty_block_interval_ms: Option<u64>,
    /// Enable priority fast-track for high-priority transactions.
    pub enable_priority_fast_track: bool,
    /// Historical transaction rate for adaptive timing.
    pub transaction_rate_history_size: usize,
}

impl EventDrivenConfig {
    /// The configuration that `default` gives.
    pub open spec fn standard() -> EventDrivenConfig {
        EventDrivenConfig {
            collection: CollectionConfig::standard(),
            empty_block_interval_ms: Some(3_600_000),
            enable_priority_fast_track: true,
            transaction_rate_history_size: 10,
        }
    }
}

impl Default for EventDrivenConfig {
    /// The standard collection windows, an empty block every hour, and a
    /// history of ten arrivals.
    fn default() -> (config: Self)
        ensures
            config == EventDrivenConfig::standard(),
            config.collection.well_formed(),
    {
        EventDrivenConfig {
            collection: CollectionConfig::default(),
            empty_block_interval_ms: Some(3_600_000),
            enable_priority_fast_track: true,
            transaction_rate_history_size: 10,
        }
    }
}

} // verus!
