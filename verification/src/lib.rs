//! Authoring scheduler of a slot-based consensus engine.
//!
//! The crate decides when a node attempts to produce a block and whether
//! producing it is safe. It holds the adaptive trigger engine, the slot
//! authoring state machine with its lenience and backoff rules, and the
//! equivocation detector. Time enters every function as a plain value: an
//! instant is a count of nanoseconds on a monotonic clock, a duration a
//! count of nanoseconds.

pub mod authorities;
pub mod authoring;
pub mod backoff;
pub mod bounded;
pub mod chain_spec;
pub mod clock;
pub mod config;
pub mod controller;
pub mod digests;
pub mod environments;
pub mod equivocation;
pub mod window;
pub mod trigger;
pub mod inherents;
pub mod lenience;
pub mod load;
pub mod monitoring;
pub mod rate_limit;
pub mod slot_loop;
pub mod source;
pub mod text;

pub use backoff::{BackoffAuthoringBlocksStrategy, BackoffAuthoringOnFinalizedHeadLagging, NeverBackoff};
pub use clock::Timer;
pub use lenience::{
    proposing_remaining_duration, slot_lenience_exponential, slot_lenience_linear,
    try_proposing_remaining_duration, SlotInfo, SlotLenienceType, SlotProportion,
};
pub use config::{CollectionConfig, EventDrivenConfig};
pub use controller::{EventDrivenController, SmartEventDrivenController};
pub use window::{CollectionWindow, SmartCollectionWindow};
pub use load::{NetworkLoadTracker, TransactionRate};
pub use trigger::{BlockProductionTrigger, PoolEvent, SlotTrigger};
