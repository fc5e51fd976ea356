//! How long a slot's author may take to propose, and the lenience that
//! skipped slots grant.

use vstd::prelude::*;
use crate::clock::{elapsed_between, min_of};

verus! {

/// The denominator of a slot proportion: parts per million.
pub const PROPORTION_SCALE: u32 = 1_000_000;

/// The most that exponential lenience doubles: 7 times.
pub const EXPONENTIAL_CAP: u64 = 7;

/// The number of skipped slots after which exponential lenience doubles.
pub const EXPONENTIAL_STEP: u64 = 2;

/// The most that linear lenience multiplies: 20 times.
pub const LINEAR_CAP: u64 = 20;

/// What the slot clock hands to an authoring attempt.
#[derive(Debug, Clone, Copy, PartialEq, Eq, Structural)]
pub struct SlotInfo {
    /// The slot number.
    pub slot: u64,
    /// The duration of a slot, in nanoseconds.
    pub duration: u64,
    /// The instant at which the slot ends.
    pub ends_at: u64,
    /// The number of the block at the head of the chain.
    pub chain_head_number: u64,
    /// The size limit for the block to build, if any.
    pub block_size_limit: Option<usize>,
}

/// A proportion of a slot, in parts per million, from none to the whole.
#[derive(Debug, Clone, Copy)]
pub struct SlotProportion {
    parts_per_million: u32,
}

impl SlotProportion {
    #[verifier::type_invariant]
    spec fn within_whole(self) -> bool {
        self.parts_per_million <= PROPORTION_SCALE
    }

    /// The proportion in parts per million.
    pub closed spec fn parts(self) -> int {
        self.parts_per_million as int
    }

    /// Create a new proportion from parts per million. A value above one
    /// million is taken as the whole.
    pub fn new(parts_per_million: u32) -> (proportion: Self)
        ensures
            proportion.parts() == min_of(parts_per_million as int, PROPORTION_SCALE as int),
    {
        if parts_per_million > PROPORTION_SCALE {
            SlotProportion { parts_per_million: PROPORTION_SCALE }
        } else {
            SlotProportion { parts_per_million }
        }
    }

    /// Returns the proportion in parts per million, at most one million.
    pub fn get(&self) -> (parts_per_million: u32)
        ensures
            parts_per_million == self.parts(),
            parts_per_million <= PROPORTION_SCALE,
    {
        proof {
            use_type_invariant(self);
        }
        self.parts_per_million
    }
}

/// The strategy used to calculate the slot lenience used to increase the block proposal time when
/// slots have been skipped with no blocks authored.
#[derive(Debug, Clone, Copy, PartialEq, Eq, Structural)]
pub enum SlotLenienceType {
    /// Increase the lenience linearly with the number of skipped slots.
    Linear,
    /// Increase the lenience exponentially with the number of skipped slots.
    Exponential,
}

impl SlotLenienceType {
    /// The name of the strategy.
    pub fn as_str(&self) -> (name: &'static str)
        ensures
            name@ == (match self {
                SlotLenienceType::Linear => "linear"@,
                SlotLenienceType::Exponential => "exponential"@,
            }),
    {
        match self {
            SlotLenienceType::Linear => "linear",
            SlotLenienceType::Exponential => "exponential",
        }
    }
}

/// The part `parts` per million of `duration`, rounded down.
pub open spec fn portion_of(duration: int, parts: int) -> int {
    duration * parts / (PROPORTION_SCALE as int)
}

/// The number of slots between the parent's slot and `slot` in which no
/// block was authored.
pub open spec fn skipped_slots(parent_slot: u64, slot: u64) -> int {
    if slot > parent_slot + 1 {
        slot - (parent_slot + 1)
    } else {
        0
    }
}

/// Two to the power `exponent`.
pub open spec fn power_of_two(exponent: nat) -> int
    decreases exponent,
{
    if exponent == 0 {
        1
    } else {
        2 * power_of_two((exponent - 1) as nat)
    }
}

/// The factor of exponential lenience: it doubles every two skipped slots,
/// seven times at most.
pub open spec fn exponential_factor(skipped: int) -> int {
    power_of_two(min_of(skipped / (EXPONENTIAL_STEP as int), EXPONENTIAL_CAP as int) as nat)
}

/// The factor of linear lenience: the number of skipped slots, twenty at most.
pub open spec fn linear_factor(skipped: int) -> int {
    min_of(skipped, LINEAR_CAP as int)
}

/// Exponential lenience: none if no slot was skipped, else the slot
/// duration times the exponential factor.
pub open spec fn exponential_lenience(parent_slot: u64, slot: u64, duration: u64) -> Option<int> {
    let skipped = skipped_slots(parent_slot, slot);
    if skipped == 0 {
        None
    } else {
        Some(duration * exponential_factor(skipped))
    }
}

/// Linear lenience: none if no slot was skipped, else the slot duration
/// times the linear factor.
pub open spec fn linear_lenience(parent_slot: u64, slot: u64, duration: u64) -> Option<int> {
    let skipped = skipped_slots(parent_slot, slot);
    if skipped == 0 {
        None
    } else {
        Some(duration * linear_factor(skipped))
    }
}

/// The lenience that the strategy `kind` grants.
pub open spec fn lenience_of(
    kind: SlotLenienceType,
    parent_slot: u64,
    slot: u64,
    duration: u64,
) -> Option<int> {
    match kind {
        SlotLenienceType::Exponential => exponential_lenience(parent_slot, slot, duration),
        SlotLenienceType::Linear => linear_lenience(parent_slot, slot, duration),
    }
}

/// The number of skipped slots, computed.
fn count_skipped(parent_slot: u64, slot: u64) -> (skipped: u64)
    ensures
        skipped == skipped_slots(parent_slot, slot),
{
    if parent_slot < u64::MAX && slot > parent_slot + 1 {
        slot - (parent_slot + 1)
    } else {
        0
    }
}

/// The exponential factor, computed.
fn compute_exponential_factor(skipped: u64) -> (factor: u64)
    ensures
        factor == exponential_factor(skipped as int),
        1 <= factor <= 128,
{
    let steps = skipped / EXPONENTIAL_STEP;
    let exponent = if steps <= EXPONENTIAL_CAP {
        steps
    } else {
        EXPONENTIAL_CAP
    };
    let mut factor: u64 = 1;
    let mut i: u64 = 0;
    while i < exponent
        invariant
            i <= exponent <= 7,
            factor == power_of_two(i as nat),
            1 <= factor,
            i == 0 ==> factor == 1,
            i == 1 ==> factor == 2,
            i == 2 ==> factor == 4,
            i == 3 ==> factor == 8,
            i == 4 ==> factor == 16,
            i == 5 ==> factor == 32,
            i == 6 ==> factor == 64,
            i == 7 ==> factor == 128,
        decreases exponent - i,
    {
        factor = factor * 2;
        i += 1;
    }
    factor
}

/// The lenience in nanoseconds, wide enough for every slot duration.
fn lenience_wide(kind: SlotLenienceType, parent_slot: u64, slot_info: &SlotInfo) -> (lenience:
    Option<u128>)
    ensures
        lenience is Some == lenience_of(kind, parent_slot, slot_info.slot, slot_info.duration)
            is Some,
        lenience matches Some(l) ==> l == lenience_of(
            kind,
            parent_slot,
            slot_info.slot,
            slot_info.duration,
        )->0,
        lenience matches Some(l) ==> l <= 128 * u64::MAX,
{
    let skipped = count_skipped(parent_slot, slot_info.slot);
    if skipped == 0 {
        return None;
    }
    let factor: u64 = match kind {
        SlotLenienceType::Exponential => compute_exponential_factor(skipped),
        SlotLenienceType::Linear => if skipped <= LINEAR_CAP {
            skipped
        } else {
            LINEAR_CAP
        },
    };
    assert(slot_info.duration * factor <= u64::MAX * 128) by (nonlinear_arith)
        requires
            slot_info.duration <= u64::MAX,
            0 <= factor <= 128,
    ;
    Some(slot_info.duration as u128 * factor as u128)
}

/// Calculate a slot duration lenience based on the number of missed slots from current
/// to parent. If the number of skipped slots is greater than 0 this method will apply
/// an exponential backoff of at most `2^7 * slot_duration`, if no slots were skipped
/// this method will return `None.`
pub fn slot_lenience_exponential(parent_slot: u64, slot_info: &SlotInfo) -> (lenience: Option<u64>)
    requires
        exponential_lenience(parent_slot, slot_info.slot, slot_info.duration) matches Some(l)
            ==> l <= u64::MAX,
    ensures
        lenience is Some == exponential_lenience(parent_slot, slot_info.slot, slot_info.duration)
            is Some,
        lenience matches Some(l) ==> l == exponential_lenience(
            parent_slot,
            slot_info.slot,
            slot_info.duration,
        )->0,
        skipped_slots(parent_slot, slot_info.slot) == 0 ==> lenience is None,
        skipped_slots(parent_slot, slot_info.slot) > 0 ==> lenience == Some(
            (slot_info.duration * power_of_two(
                min_of(skipped_slots(parent_slot, slot_info.slot) / 2, 7) as nat,
            )) as u64,
        ),
{
    match lenience_wide(SlotLenienceType::Exponential, parent_slot, slot_info) {
        Some(l) => Some(l as u64),
        None => None,
    }
}

/// Calculate a slot duration lenience based on the number of missed slots from current
/// to parent. If the number of skipped slots is greater than 0 this method will apply
/// a linear backoff of at most `20 * slot_duration`, if no slots were skipped
/// this method will return `None.`
pub fn slot_lenience_linear(parent_slot: u64, slot_info: &SlotInfo) -> (lenience: Option<u64>)
    requires
        linear_lenience(parent_slot, slot_info.slot, slot_info.duration) matches Some(l) ==> l
            <= u64::MAX,
    ensures
        lenience is Some == linear_lenience(parent_slot, slot_info.slot, slot_info.duration)
            is Some,
        lenience matches Some(l) ==> l == linear_lenience(
            parent_slot,
            slot_info.slot,
            slot_info.duration,
        )->0,
        skipped_slots(parent_slot, slot_info.slot) == 0 ==> lenience is None,
        skipped_slots(parent_slot, slot_info.slot) > 0 ==> lenience == Some(
            (slot_info.duration * min_of(skipped_slots(parent_slot, slot_info.slot), 20)) as u64,
        ),
{
    match lenience_wide(SlotLenienceType::Linear, parent_slot, slot_info) {
        Some(l) => Some(l as u64),
        None => None,
    }
}

/// The time left for proposing in a slot.
///
/// Without lenience it is the configured part of the slot, and what is left
/// of the slot at most. A parent that is the genesis block or that names no
/// slot gives no lenience. Else the same part of the lenience is added, and
/// the sum is held to the largest part of the slot, where one is given.
pub open spec fn proposing_duration(
    parent_slot: Option<u64>,
    slot_info: SlotInfo,
    portion: int,
    max_portion: Option<int>,
    kind: SlotLenienceType,
    now: u64,
) -> int {
    let proposing = min_of(
        elapsed_between(now, slot_info.ends_at),
        portion_of(slot_info.duration as int, portion),
    );
    if slot_info.chain_head_number == 0 {
        proposing
    } else {
        match parent_slot {
            None => proposing,
            Some(parent) => match lenience_of(kind, parent, slot_info.slot, slot_info.duration) {
                None => proposing,
                Some(lenience) => {
                    let lenient = proposing + portion_of(lenience, portion);
                    match max_portion {
                        Some(most) => min_of(lenient, portion_of(slot_info.duration as int, most)),
                        None => lenient,
                    }
                },
            },
        }
    }
}

/// The part `parts` per million of `duration`, computed.
fn scale(duration: u128, parts: u32) -> (part: u128)
    requires
        parts <= PROPORTION_SCALE,
        duration <= 128 * u64::MAX,
    ensures
        part == portion_of(duration as int, parts as int),
        part <= duration,
{
    assert(duration * parts <= 128 * u64::MAX * PROPORTION_SCALE) by (nonlinear_arith)
        requires
            duration <= 128 * u64::MAX,
            parts <= PROPORTION_SCALE,
    ;
    assert(duration * parts / (PROPORTION_SCALE as int) <= duration) by (nonlinear_arith)
        requires
            duration >= 0,
            0 <= parts <= PROPORTION_SCALE,
            PROPORTION_SCALE == 1_000_000,
    ;
    duration * (parts as u128) / (PROPORTION_SCALE as u128)
}

/// The parts per million of an optional proportion.
pub open spec fn parts_of(proportion: Option<&SlotProportion>) -> Option<int> {
    match proportion {
        Some(most) => Some(most.parts()),
        None => None,
    }
}

/// The time left for proposing, wide enough for every slot duration.
fn proposing_wide(
    parent_slot: Option<u64>,
    slot_info: &SlotInfo,
    block_proposal_slot_portion: &SlotProportion,
    max_block_proposal_slot_portion: Option<&SlotProportion>,
    slot_lenience_type: SlotLenienceType,
    now: u64,
) -> (remaining: u128)
    ensures
        remaining == proposing_duration(
            parent_slot,
            *slot_info,
            block_proposal_slot_portion.parts(),
            parts_of(max_block_proposal_slot_portion),
            slot_lenience_type,
            now,
        ),
{
    let portion = block_proposal_slot_portion.get();
    let proposing_duration = scale(slot_info.duration as u128, portion);
    let slot_remaining: u128 = if slot_info.ends_at >= now {
        (slot_info.ends_at - now) as u128
    } else {
        0
    };
    let proposing_duration = if slot_remaining <= proposing_duration {
        slot_remaining
    } else {
        proposing_duration
    };
    if slot_info.chain_head_number == 0 {
        return proposing_duration;
    }
    let parent_slot = match parent_slot {
        Some(parent_slot) => parent_slot,
        None => return proposing_duration,
    };
    match lenience_wide(slot_lenience_type, parent_slot, slot_info) {
        Some(slot_lenience) => {
            let lenient_proposing_duration = proposing_duration + scale(slot_lenience, portion);
            match max_block_proposal_slot_portion {
                Some(most) => {
                    let cap = scale(slot_info.duration as u128, most.get());
                    if lenient_proposing_duration <= cap {
                        lenient_proposing_duration
                    } else {
                        cap
                    }
                },
                None => lenient_proposing_duration,
            }
        },
        None => proposing_duration,
    }
}

/// Calculate the remaining duration for block proposal taking into account whether any slots have
/// been skipped and applying the given lenience strategy. If `max_block_proposal_slot_portion` is
/// not none and lenience applies, the returned duration is lower or equal to
/// `slot_info.duration * max_block_proposal_slot_portion`.
pub fn proposing_remaining_duration(
    parent_slot: Option<u64>,
    slot_info: &SlotInfo,
    block_proposal_slot_portion: &SlotProportion,
    max_block_proposal_slot_portion: Option<&SlotProportion>,
    slot_lenience_type: SlotLenienceType,
    now: u64,
) -> (remaining: u64)
    requires
        proposing_duration(
            parent_slot,
            *slot_info,
            block_proposal_slot_portion.parts(),
            parts_of(max_block_proposal_slot_portion),
            slot_lenience_type,
            now,
        ) <= u64::MAX,
    ensures
        remaining == proposing_duration(
            parent_slot,
            *slot_info,
            block_proposal_slot_portion.parts(),
            parts_of(max_block_proposal_slot_portion),
            slot_lenience_type,
            now,
        ),
{
    proposing_wide(
        parent_slot,
        slot_info,
        block_proposal_slot_portion,
        max_block_proposal_slot_portion,
        slot_lenience_type,
        now,
    ) as u64
}

/// The remaining duration for block proposal, or none if it is longer than
/// a duration can be.
pub fn try_proposing_remaining_duration(
    parent_slot: Option<u64>,
    slot_info: &SlotInfo,
    block_proposal_slot_portion: &SlotProportion,
    max_block_proposal_slot_portion: Option<&SlotProportion>,
    slot_lenience_type: SlotLenienceType,
    now: u64,
) -> (remaining: Option<u64>)
    ensures
        remaining is Some <==> proposing_duration(
            parent_slot,
            *slot_info,
            block_proposal_slot_portion.parts(),
            parts_of(max_block_proposal_slot_portion),
            slot_lenience_type,
            now,
        ) <= u64::MAX,
        remaining matches Some(r) ==> r == proposing_duration(
            parent_slot,
            *slot_info,
            block_proposal_slot_portion.parts(),
            parts_of(max_block_proposal_slot_portion),
            slot_lenience_type,
            now,
        ),
{
    let wide = proposing_wide(
        parent_slot,
        slot_info,
        block_proposal_slot_portion,
        max_block_proposal_slot_portion,
        slot_lenience_type,
        now,
    );
    if wide <= u64::MAX as u128 {
        Some(wide as u64)
    } else {
        None
    }
}

/// Where lenience applies and a largest part of the slot is given, the time
/// for proposing never exceeds that part of the slot.
pub proof fn lemma_lenient_duration_is_capped(
    parent_slot: u64,
    slot_info: SlotInfo,
    portion: int,
    most: int,
    kind: SlotLenienceType,
    now: u64,
)
    requires
        slot_info.chain_head_number != 0,
        lenience_of(kind, parent_slot, slot_info.slot, slot_info.duration) is Some,
    ensures
        proposing_duration(Some(parent_slot), slot_info, portion, Some(most), kind, now)
            <= portion_of(slot_info.duration as int, most),
{
}

/// No lenience is granted when no slot was skipped, whatever the strategy.
pub proof fn lemma_no_lenience_without_skipped_slots(
    kind: SlotLenienceType,
    parent_slot: u64,
    slot: u64,
    duration: u64,
)
    requires
        skipped_slots(parent_slot, slot) == 0,
    ensures
        lenience_of(kind, parent_slot, slot, duration) is None,
{
}

/// With skipped slots, exponential lenience is the slot duration times two
/// to the power of half the skipped slots, seven at most; linear lenience is
/// the slot duration times the skipped slots, twenty at most.
pub proof fn lemma_lenience_formula(parent_slot: u64, slot: u64, duration: u64)
    requires
        skipped_slots(parent_slot, slot) > 0,
    ensures
        exponential_lenience(parent_slot, slot, duration) == Some(
            duration * power_of_two(
                min_of(skipped_slots(parent_slot, slot) / 2, 7) as nat,
            ),
        ),
        linear_lenience(parent_slot, slot, duration) == Some(
            duration * min_of(skipped_slots(parent_slot, slot), 20),
        ),
        duration <= exponential_lenience(parent_slot, slot, duration)->0 <= 128 * duration,
        duration <= linear_lenience(parent_slot, slot, duration)->0 <= 20 * duration,
{
    let skipped = skipped_slots(parent_slot, slot);
    let e = min_of(skipped / 2, 7) as nat;
    lemma_power_of_two_bounds(e);
    let f = power_of_two(e);
    assert(duration <= duration * f <= 128 * duration) by (nonlinear_arith)
        requires
            1 <= f <= 128,
            duration >= 0,
    ;
    let g = min_of(skipped, 20);
    assert(duration <= duration * g <= 20 * duration) by (nonlinear_arith)
        requires
            1 <= g <= 20,
            duration >= 0,
    ;
}

/// Two to a power of at most seven lies between 1 and 128.
pub proof fn lemma_power_of_two_bounds(exponent: nat)
    requires
        exponent <= 7,
    ensures
        1 <= power_of_two(exponent) <= 128,
{
    reveal_with_fuel(power_of_two, 9);
}

} // verus!
