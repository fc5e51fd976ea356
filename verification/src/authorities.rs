//! The rules of the runtime side: slots must advance, disabled validators
//! must not author, and authority sets are bounded.

use vstd::prelude::*;
use crate::digests::{decode_slot, decoded_slot, is_micc, names_micc, ConsensusEngineId};
use crate::equivocation::same_bytes;

verus! {

/// The kind of a consensus error that was recovered from: a disabled validator.
pub const RECOVERED_DISABLED_VALIDATOR: u8 = 0;

/// The kind of a consensus error that was recovered from: the authorities could not be decoded.
pub const RECOVERED_AUTHORITY_DECODE: u8 = 1;

/// The kind of a consensus error that was recovered from: the slot is out of order.
pub const RECOVERED_SLOT_TIMING: u8 = 2;

/// An event that the runtime deposits.
#[derive(Debug, Clone, Copy, PartialEq, Eq, Structural)]
pub enum RuntimeEvent {
    /// Disabled validator attempted to author block.
    DisabledValidatorAttempt {
        /// The index of the validator.
        authority_index: u32,
        /// The slot of the block.
        slot: u64,
    },
    /// Authority set decoding failed.
    AuthoritiesDecodeError,
    /// Consensus error recovered gracefully.
    ConsensusErrorRecovered {
        /// 0 = disabled validator, 1 = authority decode, 2 = slot timing.
        error_type: u8,
    },
    /// Slot validation failed but recovered.
    SlotValidationFailed {
        /// The slot that was current.
        current_slot: u64,
        /// The slot that was offered.
        new_slot: u64,
    },
}

/// What the start of a block does to the runtime.
pub struct InitializeOutcome {
    /// The current slot after the start of the block.
    pub current_slot: u64,
    /// The events to deposit, in order.
    pub events: Vec<RuntimeEvent>,
    /// The storage reads that the start of the block is charged for.
    pub reads: u64,
    /// The storage writes that the start of the block is charged for.
    pub writes: u64,
}

/// What the start of a block does to the runtime, as a mathematical value.
pub struct InitializeModel {
    /// The current slot after the start of the block.
    pub current_slot: u64,
    /// The events to deposit, in order.
    pub events: Seq<RuntimeEvent>,
    /// The storage reads that the start of the block is charged for.
    pub reads: u64,
    /// The storage writes that the start of the block is charged for.
    pub writes: u64,
}

impl View for InitializeOutcome {
    type V = InitializeModel;

    open spec fn view(&self) -> InitializeModel {
        InitializeModel {
            current_slot: self.current_slot,
            events: self.events@,
            reads: self.reads,
            writes: self.writes,
        }
    }
}

/// Whether `new_slot` may follow `current_slot`: slots never move backwards,
/// and they stay equal only where several blocks per slot are allowed.
pub open spec fn slot_may_follow(current_slot: u64, new_slot: u64, allow_multiple: bool) -> bool {
    if allow_multiple {
        current_slot <= new_slot
    } else {
        current_slot < new_slot
    }
}

/// The index of the authority that is expected to author in `slot`.
pub open spec fn author_index(slot: u64, authorities_len: u32) -> u32 {
    (slot as int % authorities_len as int) as u32
}

/// What the start of a block does.
///
/// Without a slot in the digest nothing happens. A slot that may not follow
/// the current one is refused and the current slot stays. Else the slot
/// becomes current; if the authorities cannot be counted, if there are none,
/// or if the author of the slot is disabled, that is reported.
pub open spec fn initialized(
    current_slot: u64,
    digest_slot: Option<u64>,
    allow_multiple: bool,
    authorities_len: Option<u32>,
    disabled: Seq<u32>,
) -> InitializeModel {
    match digest_slot {
        None => InitializeModel { current_slot, events: Seq::empty(), reads: 1, writes: 0 },
        Some(new_slot) => if !slot_may_follow(current_slot, new_slot, allow_multiple) {
            InitializeModel {
                current_slot,
                events: seq![
                    RuntimeEvent::SlotValidationFailed { current_slot, new_slot },
                    RuntimeEvent::ConsensusErrorRecovered { error_type: RECOVERED_SLOT_TIMING },
                ],
                reads: 1,
                writes: 0,
            }
        } else {
            match countable(authorities_len) {
                Some(len) => if disabled.contains(author_index(new_slot, len)) {
                    InitializeModel {
                        current_slot: new_slot,
                        events: seq![
                            RuntimeEvent::DisabledValidatorAttempt {
                                authority_index: author_index(new_slot, len),
                                slot: new_slot,
                            },
                            RuntimeEvent::ConsensusErrorRecovered {
                                error_type: RECOVERED_DISABLED_VALIDATOR,
                            },
                        ],
                        reads: 1,
                        writes: 0,
                    }
                } else {
                    InitializeModel {
                        current_slot: new_slot,
                        events: Seq::empty(),
                        reads: 2,
                        writes: 1,
                    }
                },
                None => InitializeModel {
                    current_slot: new_slot,
                    events: seq![
                        RuntimeEvent::AuthoritiesDecodeError,
                        RuntimeEvent::ConsensusErrorRecovered {
                            error_type: RECOVERED_AUTHORITY_DECODE,
                        },
                    ],
                    reads: 1,
                    writes: 0,
                },
            }
        },
    }
}

/// The number of authorities, where there is one to count by: a set that
/// cannot be decoded and a set without authorities give none.
pub open spec fn countable(authorities_len: Option<u32>) -> Option<u32> {
    match authorities_len {
        Some(len) => if len > 0 {
            Some(len)
        } else {
            None
        },
        None => None,
    }
}

/// Tells whether the validator with index `index` is among the disabled.
pub fn is_disabled(disabled: &Vec<u32>, index: u32) -> (found: bool)
    ensures
        found == disabled@.contains(index),
{
    let mut i: usize = 0;
    while i < disabled.len()
        invariant
            i <= disabled.len(),
            forall|j: int| 0 <= j < i ==> disabled@[j] != index,
        decreases disabled.len() - i,
    {
        if disabled[i] == index {
            return true;
        }
        i += 1;
    }
    false
}

/// The two events of a recovered error.
fn recovered(first: RuntimeEvent, error_type: u8) -> (events: Vec<RuntimeEvent>)
    ensures
        events@ == seq![first, RuntimeEvent::ConsensusErrorRecovered { error_type }],
{
    let mut events: Vec<RuntimeEvent> = Vec::new();
    events.push(first);
    events.push(RuntimeEvent::ConsensusErrorRecovered { error_type });
    proof {
        assert(events@ =~= seq![first, RuntimeEvent::ConsensusErrorRecovered { error_type }]);
    }
    events
}

/// Starts a block: takes the slot from the digest, if there is one.
pub fn on_initialize(
    current_slot: u64,
    digest_slot: Option<u64>,
    allow_multiple: bool,
    authorities_len: Option<u32>,
    disabled: &Vec<u32>,
) -> (outcome: InitializeOutcome)
    ensures
        outcome@ == initialized(
            current_slot,
            digest_slot,
            allow_multiple,
            authorities_len,
            disabled@,
        ),
{
    let new_slot = match digest_slot {
        Some(slot) => slot,
        None => {
            return InitializeOutcome { current_slot, events: Vec::new(), reads: 1, writes: 0 };
        },
    };
    let refused = if allow_multiple {
        current_slot > new_slot
    } else {
        current_slot >= new_slot
    };
    if refused {
        return InitializeOutcome {
            current_slot,
            events: recovered(
                RuntimeEvent::SlotValidationFailed { current_slot, new_slot },
                RECOVERED_SLOT_TIMING,
            ),
            reads: 1,
            writes: 0,
        };
    }
    let countable_len = match authorities_len {
        Some(len) => if len > 0 {
            Some(len)
        } else {
            None
        },
        None => None,
    };
    match countable_len {
        Some(len) => {
            let authority_index = slot_author_index(new_slot, len);
            if is_disabled(disabled, authority_index) {
                InitializeOutcome {
                    current_slot: new_slot,
                    events: recovered(
                        RuntimeEvent::DisabledValidatorAttempt { authority_index, slot: new_slot },
                        RECOVERED_DISABLED_VALIDATOR,
                    ),
                    reads: 1,
                    writes: 0,
                }
            } else {
                InitializeOutcome {
                    current_slot: new_slot,
                    events: Vec::new(),
                    reads: 2,
                    writes: 1,
                }
            }
        },
        None => InitializeOutcome {
            current_slot: new_slot,
            events: recovered(RuntimeEvent::AuthoritiesDecodeError, RECOVERED_AUTHORITY_DECODE),
            reads: 1,
            writes: 0,
        },
    }
}

/// The index of the authority that is expected to author in `slot`.
pub fn slot_author_index(slot: u64, authorities_len: u32) -> (index: u32)
    requires
        authorities_len > 0,
    ensures
        index == author_index(slot, authorities_len),
        index < authorities_len,
{
    let index = slot % (authorities_len as u64);
    index as u32
}

/// The events of a timestamp: none if the slot duration is zero or the
/// timestamp falls into the current slot, else a failed validation that was
/// recovered from.
pub open spec fn timestamp_events(moment: u64, slot_duration: u64, current_slot: u64) -> Seq<
    RuntimeEvent,
> {
    if slot_duration == 0 || moment / slot_duration == current_slot {
        Seq::empty()
    } else {
        seq![
            RuntimeEvent::SlotValidationFailed {
                current_slot,
                new_slot: moment / slot_duration,
            },
            RuntimeEvent::ConsensusErrorRecovered { error_type: RECOVERED_SLOT_TIMING },
        ]
    }
}

/// Checks the timestamp of a block against the current slot.
pub fn on_timestamp_set(moment: u64, slot_duration: u64, current_slot: u64) -> (events: Vec<
    RuntimeEvent,
>)
    ensures
        events@ == timestamp_events(moment, slot_duration, current_slot),
{
    if slot_duration == 0 {
        return Vec::new();
    }
    let timestamp_slot = moment / slot_duration;
    if current_slot != timestamp_slot {
        recovered(
            RuntimeEvent::SlotValidationFailed { current_slot, new_slot: timestamp_slot },
            RECOVERED_SLOT_TIMING,
        )
    } else {
        Vec::new()
    }
}

/// The slot duration that follows from the minimum period of the timestamp:
/// twice the period, held at the largest duration.
pub fn minimum_period_times_two(minimum_period: u64) -> (slot_duration: u64)
    ensures
        slot_duration == if 2 * minimum_period <= u64::MAX {
            2 * minimum_period
        } else {
            u64::MAX as int
        },
{
    if minimum_period > u64::MAX / 2 {
        u64::MAX
    } else {
        minimum_period * 2
    }
}

/// An authority set held to `max_authorities`: its first entries, in order.
pub open spec fn bounded_set<T>(authorities: Seq<T>, max_authorities: u32) -> Seq<T> {
    if authorities.len() > max_authorities {
        authorities.take(max_authorities as int)
    } else {
        authorities
    }
}

/// Holds an authority set to `max_authorities`: what is beyond is cut off.
pub fn truncate_authorities(authorities: Vec<Vec<u8>>, max_authorities: u32) -> (kept: Vec<
    Vec<u8>,
>)
    ensures
        kept@ == bounded_set(authorities@, max_authorities),
        kept@.len() <= max_authorities,
{
    let mut kept = authorities;
    if kept.len() > max_authorities as usize {
        kept.truncate(max_authorities as usize);
        proof {
            assert(kept@ =~= authorities@.take(max_authorities as int));
        }
    }
    kept
}

/// The initial authorities to store: none if none are given or a set is
/// stored already, else the given ones, held to the bound.
pub fn initialize_authorities(
    stored_len: usize,
    authorities: Vec<Vec<u8>>,
    max_authorities: u32,
) -> (to_store: Option<Vec<Vec<u8>>>)
    ensures
        authorities@.len() == 0 || stored_len > 0 ==> to_store is None,
        authorities@.len() > 0 && stored_len == 0 ==> (to_store matches Some(kept) && kept@
            == bounded_set(authorities@, max_authorities)),
{
    if authorities.len() == 0 || stored_len > 0 {
        return None;
    }
    Some(truncate_authorities(authorities, max_authorities))
}

/// The views of an authority set.
pub open spec fn set_views(authorities: Seq<Vec<u8>>) -> Seq<Seq<u8>> {
    authorities.map_values(|a: Vec<u8>| a@)
}

/// Tells whether two authority sets hold the same authorities in the same order.
pub fn same_authorities(a: &Vec<Vec<u8>>, b: &Vec<Vec<u8>>) -> (same: bool)
    ensures
        same == (set_views(a@) == set_views(b@)),
{
    if a.len() != b.len() {
        proof {
            assert(set_views(a@).len() != set_views(b@).len());
        }
        return false;
    }
    let mut i: usize = 0;
    while i < a.len()
        invariant
            i <= a.len(),
            a.len() == b.len(),
            forall|j: int| 0 <= j < i ==> a@[j]@ == b@[j]@,
        decreases a.len() - i,
    {
        if !same_bytes(&a[i], &b[i]) {
            proof {
                assert(set_views(a@)[i as int] != set_views(b@)[i as int]);
            }
            return false;
        }
        i += 1;
    }
    proof {
        assert(set_views(a@) =~= set_views(b@));
    }
    true
}

/// The authority set to enact at a new session: none if the session did not
/// change the validators, if the set is the stored one, or if it is empty;
/// else the new set, held to the bound.
pub fn on_new_session(
    changed: bool,
    last_authorities: &Vec<Vec<u8>>,
    next_authorities: Vec<Vec<u8>>,
    max_authorities: u32,
) -> (to_store: Option<Vec<Vec<u8>>>)
    ensures
        to_store is Some <==> changed && set_views(last_authorities@) != set_views(
            next_authorities@,
        ) && bounded_set(next_authorities@, max_authorities).len() > 0,
        to_store matches Some(kept) ==> kept@ == bounded_set(next_authorities@, max_authorities),
{
    if !changed {
        return None;
    }
    if same_authorities(last_authorities, &next_authorities) {
        return None;
    }
    let bounded = truncate_authorities(next_authorities, max_authorities);
    if bounded.len() == 0 {
        return None;
    }
    Some(bounded)
}

/// The first digest of this engine among `digests`, if there is one.
pub open spec fn first_micc(digests: Seq<(ConsensusEngineId, Seq<u8>)>) -> Option<Seq<u8>>
    decreases digests.len(),
{
    if digests.len() == 0 {
        None
    } else if is_micc(digests[0].0) {
        Some(digests[0].1)
    } else {
        first_micc(digests.drop_first())
    }
}

/// The index of the author that the digests name: the slot of the first
/// digest of this engine, modulo the number of authorities.
pub open spec fn author_of(digests: Seq<(ConsensusEngineId, Seq<u8>)>, authorities_len: u32) -> Option<
    u32,
> {
    match first_micc(digests) {
        Some(data) => match decoded_slot(data) {
            Some(slot) => Some(author_index(slot as u64, authorities_len)),
            None => None,
        },
        None => None,
    }
}

/// Whether the digests name a slot: the first digest of this engine encodes one.
pub open spec fn names_slot(digests: Seq<(ConsensusEngineId, Seq<u8>)>) -> bool {
    first_micc(digests) matches Some(data) && decoded_slot(data) is Some
}

/// The digests of a block, as mathematical values.
pub open spec fn digest_pairs(digests: Seq<(ConsensusEngineId, Vec<u8>)>) -> Seq<
    (ConsensusEngineId, Seq<u8>),
> {
    digests.map_values(|d: (ConsensusEngineId, Vec<u8>)| (d.0, d.1@))
}

/// Find the index of the author of a block from its pre-runtime digests.
pub fn find_author(digests: &Vec<(ConsensusEngineId, Vec<u8>)>, authorities_len: u32) -> (author:
    Option<u32>)
    requires
        names_slot(digest_pairs(digests@)) ==> authorities_len > 0,
    ensures
        author == author_of(digest_pairs(digests@), authorities_len),
{
    let ghost pairs = digest_pairs(digests@);
    let mut i: usize = 0;
    proof {
        assert(pairs.skip(0) =~= pairs);
    }
    while i < digests.len()
        invariant
            i <= digests.len(),
            names_slot(pairs) ==> authorities_len > 0,
            pairs == digest_pairs(digests@),
            first_micc(pairs) == first_micc(pairs.skip(i as int)),
        decreases digests.len() - i,
    {
        proof {
            let rest = pairs.skip(i as int);
            assert(rest[0] == pairs[i as int]);
            assert(rest.drop_first() =~= pairs.skip(i + 1));
        }
        if names_micc(&digests[i].0) {
            return match decode_slot(&digests[i].1) {
                Some(slot) => Some(slot_author_index(slot, authorities_len)),
                None => None,
            };
        }
        i += 1;
    }
    None
}

/// What a reported equivocation does to the count of the offender and
/// whether the offender is disabled: the count grows by one and is held at
/// the largest count; the offender is disabled if slashing is enabled.
pub fn report_equivocation(count: u32, enable_slashing: bool) -> (outcome: (u32, bool))
    ensures
        outcome.0 == if count < u32::MAX {
            count + 1
        } else {
            u32::MAX as int
        },
        outcome.1 == enable_slashing,
{
    let new_count = count.saturating_add(1);
    (new_count, enable_slashing && new_count > 0)
}

/// A broken invariant of the runtime's state.
#[derive(Debug, Clone, Copy, PartialEq, Eq, Structural)]
pub enum StateError {
    /// The current slot has reached the largest value and cannot grow.
    SlotAtMaximum,
    /// The number of authorities could not be decoded.
    AuthoritiesUndecodable,
    /// There are no authorities.
    NoAuthorities,
    /// The author of the current slot is disabled.
    CurrentValidatorDisabled,
}

/// The first invariant that the state breaks, if it breaks any.
pub open spec fn state_error(
    current_slot: u64,
    allow_multiple: bool,
    authorities_len: Option<u32>,
    disabled: Seq<u32>,
) -> Option<StateError> {
    if !allow_multiple && current_slot == u64::MAX {
        Some(StateError::SlotAtMaximum)
    } else {
        match authorities_len {
            None => Some(StateError::AuthoritiesUndecodable),
            Some(len) => if len == 0 {
                Some(StateError::NoAuthorities)
            } else if disabled.contains(author_index(current_slot, len)) {
                Some(StateError::CurrentValidatorDisabled)
            } else {
                None
            },
        }
    }
}

/// Ensure the correctness of the state of the runtime.
pub fn do_try_state(
    current_slot: u64,
    allow_multiple: bool,
    authorities_len: Option<u32>,
    disabled: &Vec<u32>,
) -> (outcome: Result<(), StateError>)
    ensures
        match state_error(current_slot, allow_multiple, authorities_len, disabled@) {
            Some(error) => outcome == Err::<(), StateError>(error),
            None => outcome is Ok,
        },
{
    if !allow_multiple && current_slot == u64::MAX {
        return Err(StateError::SlotAtMaximum);
    }
    let len = match authorities_len {
        Some(len) => len,
        None => {
            return Err(StateError::AuthoritiesUndecodable);
        },
    };
    if len == 0 {
        return Err(StateError::NoAuthorities);
    }
    if is_disabled(disabled, slot_author_index(current_slot, len)) {
        return Err(StateError::CurrentValidatorDisabled);
    }
    Ok(())
}

/// Within a session the current slot never moves backwards, and it moves
/// forwards wherever several blocks per slot are not allowed and a block is
/// taken.
pub proof fn lemma_slots_never_move_backwards(
    current_slot: u64,
    digest_slot: Option<u64>,
    allow_multiple: bool,
    authorities_len: Option<u32>,
    disabled: Seq<u32>,
)
    ensures
        initialized(current_slot, digest_slot, allow_multiple, authorities_len, disabled).current_slot
            >= current_slot,
        !allow_multiple && initialized(
            current_slot,
            digest_slot,
            allow_multiple,
            authorities_len,
            disabled,
        ).writes > 0 ==> initialized(
            current_slot,
            digest_slot,
            allow_multiple,
            authorities_len,
            disabled,
        ).current_slot > current_slot,
{
}

} // verus!
