//! The slot authoring state machine: claim, propose, seal, import.
//!
//! The machine decides; its caller does the outside work. Each step takes
//! the outcome of the last piece of work and names the next one, until the
//! attempt ends with an imported block or a skipped slot.

use vstd::prelude::*;
use crate::backoff::{BackoffAuthoringBlocksStrategy, BackoffAuthoringOnFinalizedHeadLagging};
use crate::clock::elapsed_between;

verus! {

/// Why a slot was left without a block of ours.
#[derive(Debug, Clone, Copy, PartialEq, Eq, Structural)]
pub enum SkipReason {
    /// No time is left in the slot for proposing.
    NoTimeLeft,
    /// The authority set could not be fetched.
    AuxDataError,
    /// The node is offline and there are other authorities to wait for.
    WaitingForNetwork,
    /// The key store holds no key that may claim the slot.
    NoClaim,
    /// Finality lags too far behind the chain head.
    Backoff,
    /// The proposer could not be built.
    ProposerError,
    /// The inherent data failed or came too late.
    InherentError,
    /// The proposal did not arrive before the hard deadline.
    DeadlineExceeded,
    /// The proposer failed.
    ProposeError,
    /// The header could not be signed.
    SignError,
    /// The sealed block was not imported.
    ImportError,
}

/// How far proposing has come.
#[derive(Debug, Clone, Copy, PartialEq, Eq, Structural)]
pub enum ProposingPhase {
    /// The inherent data is being created.
    InherentData,
    /// The block is being built.
    Block,
    /// The header is being sealed.
    Seal,
}

/// Where an authoring attempt stands.
#[derive(Debug, Clone, Copy, PartialEq, Eq, Structural)]
pub enum AuthoringState {
    /// The attempt has begun; the authority set is being fetched.
    Idle,
    /// The authority set is known; observers are being notified.
    AuxDataFetched,
    /// Observers are notified; the slot is being claimed.
    NotifiedObservers,
    /// The slot is claimed. Backoff is asked first, then the proposer is built.
    Claimed {
        /// Whether the backoff strategy has let the attempt pass.
        backoff_passed: bool,
    },
    /// The proposer is at work.
    Proposing(ProposingPhase),
    /// The block is sealed and handed to the import.
    Sealed,
    /// The block is imported: the attempt succeeded.
    Imported,
    /// The slot is skipped: the attempt is over.
    Skipped(SkipReason),
}

/// The outcome of a piece of outside work.
#[derive(Debug, Clone, Copy, PartialEq, Eq, Structural)]
pub enum AuthoringEvent {
    /// The authority set was fetched; its length, if it is known.
    AuxDataFetched {
        /// The number of authorities.
        authorities_len: Option<usize>,
    },
    /// The authority set could not be fetched.
    AuxDataFailed,
    /// Observers were notified; what the sync oracle says.
    ObserversNotified {
        /// Whether the sync oracle reports the node offline.
        sync_offline: bool,
    },
    /// The key store holds a key for the slot.
    SlotClaimed,
    /// The key store holds no key for the slot.
    ClaimMissed,
    /// The backoff strategy has decided.
    BackoffDecided {
        /// Whether to back off.
        backoff: bool,
    },
    /// The proposer was built, at the instant `now`.
    ProposerReady {
        /// The instant at which the proposer was ready.
        now: u64,
    },
    /// The proposer could not be built.
    ProposerFailed,
    /// The inherent data was created, at the instant `now`.
    InherentDataReady {
        /// The instant at which the data was ready.
        now: u64,
    },
    /// Creating the inherent data failed.
    InherentDataFailed,
    /// Creating the inherent data took longer than the time left.
    InherentDataTimedOut,
    /// The proposer built a block.
    ProposalBuilt,
    /// The proposer failed.
    ProposalFailed,
    /// The hard deadline passed before the proposer answered.
    ProposalTimedOut,
    /// The header was signed and the seal attached.
    BlockSealed,
    /// Signing failed.
    SealFailed,
    /// The block was imported.
    BlockImported,
    /// The import refused the block.
    ImportFailed,
}

/// The outside work that the machine asks for next.
#[derive(Debug, Clone, Copy, PartialEq, Eq, Structural)]
pub enum AuthoringAction {
    /// Fetch the authority set for the chain head.
    FetchAuxData,
    /// Notify the observers of the slot and ask the sync oracle.
    NotifyObservers,
    /// Try to claim the slot.
    ClaimSlot,
    /// Ask the backoff strategy.
    CheckBackoff,
    /// Build a proposer for the chain head.
    BuildProposer,
    /// Create the inherent data, giving up after `timeout` nanoseconds.
    CreateInherentData {
        /// The time left for proposing.
        timeout: u64,
    },
    /// Build the block. The proposer is told to stop after `soft_deadline`
    /// nanoseconds; its answer is discarded after `hard_deadline`.
    Propose {
        /// 98 in 100 parts of the time left.
        soft_deadline: u64,
        /// The time left for proposing.
        hard_deadline: u64,
    },
    /// Attach the pre-digest and sign the header.
    SealBlock,
    /// Import the sealed block.
    ImportBlock,
    /// The attempt is over.
    Finish {
        /// Whether a block of ours was imported.
        authored: bool,
    },
    /// The event does not belong to the state: nothing is to be done.
    Ignore,
}

/// The proposer is told to stop after 98 in 100 parts of the time left.
pub open spec fn soft_deadline_of(remaining: u64) -> int {
    remaining * 98 / 100
}

/// Whether an offline node has to wait for the network: it is not forced to
/// author and knows of more than one authority.
pub open spec fn waits_for_network(
    force_authoring: bool,
    sync_offline: bool,
    authorities_len: Option<usize>,
) -> bool {
    !force_authoring && sync_offline && (authorities_len matches Some(len) && len > 1)
}

/// An authoring attempt, as a mathematical value.
pub struct AuthoringModel {
    /// Where the attempt stands.
    pub state: AuthoringState,
    /// Whether the node authors even when offline and with any key it holds.
    pub force_authoring: bool,
    /// The instant at which proposing has to end.
    pub end_proposing_at: u64,
    /// The number of authorities, once it is known.
    pub authorities_len: Option<usize>,
}

impl AuthoringModel {
    /// Whether the attempt is over.
    pub open spec fn finished(self) -> bool {
        self.state is Imported || self.state is Skipped
    }

    /// The attempt, skipped for `reason`.
    pub open spec fn skip(self, reason: SkipReason) -> (AuthoringModel, AuthoringAction) {
        (
            AuthoringModel { state: AuthoringState::Skipped(reason), ..self },
            AuthoringAction::Finish { authored: false },
        )
    }

    /// The attempt in `state`, with `action` to do next.
    pub open spec fn advance(self, state: AuthoringState, action: AuthoringAction) -> (
        AuthoringModel,
        AuthoringAction,
    ) {
        (AuthoringModel { state, ..self }, action)
    }

    /// The time left for proposing at `now`.
    pub open spec fn time_left(self, now: u64) -> u64 {
        elapsed_between(now, self.end_proposing_at) as u64
    }

    /// The attempt and the next piece of work after `event`.
    pub open spec fn step(self, event: AuthoringEvent) -> (AuthoringModel, AuthoringAction) {
        match (self.state, event) {
            (AuthoringState::Idle, AuthoringEvent::AuxDataFetched { authorities_len }) => (
                AuthoringModel {
                    state: AuthoringState::AuxDataFetched,
                    authorities_len,
                    ..self
                },
                AuthoringAction::NotifyObservers,
            ),
            (AuthoringState::Idle, AuthoringEvent::AuxDataFailed) => self.skip(
                SkipReason::AuxDataError,
            ),
            (
                AuthoringState::AuxDataFetched,
                AuthoringEvent::ObserversNotified { sync_offline },
            ) => if waits_for_network(self.force_authoring, sync_offline, self.authorities_len) {
                self.skip(SkipReason::WaitingForNetwork)
            } else {
                self.advance(AuthoringState::NotifiedObservers, AuthoringAction::ClaimSlot)
            },
            (AuthoringState::NotifiedObservers, AuthoringEvent::SlotClaimed) => self.advance(
                AuthoringState::Claimed { backoff_passed: false },
                AuthoringAction::CheckBackoff,
            ),
            (AuthoringState::NotifiedObservers, AuthoringEvent::ClaimMissed) => self.skip(
                SkipReason::NoClaim,
            ),
            (
                AuthoringState::Claimed { backoff_passed: false },
                AuthoringEvent::BackoffDecided { backoff },
            ) => if backoff {
                self.skip(SkipReason::Backoff)
            } else {
                self.advance(
                    AuthoringState::Claimed { backoff_passed: true },
                    AuthoringAction::BuildProposer,
                )
            },
            (
                AuthoringState::Claimed { backoff_passed: true },
                AuthoringEvent::ProposerReady { now },
            ) => self.advance(
                AuthoringState::Proposing(ProposingPhase::InherentData),
                AuthoringAction::CreateInherentData { timeout: self.time_left(now) },
            ),
            (
                AuthoringState::Claimed { backoff_passed: true },
                AuthoringEvent::ProposerFailed,
            ) => self.skip(SkipReason::ProposerError),
            (
                AuthoringState::Proposing(ProposingPhase::InherentData),
                AuthoringEvent::InherentDataReady { now },
            ) => self.advance(
                AuthoringState::Proposing(ProposingPhase::Block),
                AuthoringAction::Propose {
                    soft_deadline: soft_deadline_of(self.time_left(now)) as u64,
                    hard_deadline: self.time_left(now),
                },
            ),
            (
                AuthoringState::Proposing(ProposingPhase::InherentData),
                AuthoringEvent::InherentDataFailed,
            ) => self.skip(SkipReason::InherentError),
            (
                AuthoringState::Proposing(ProposingPhase::InherentData),
                AuthoringEvent::InherentDataTimedOut,
            ) => self.skip(SkipReason::InherentError),
            (
                AuthoringState::Proposing(ProposingPhase::Block),
                AuthoringEvent::ProposalBuilt,
            ) => self.advance(
                AuthoringState::Proposing(ProposingPhase::Seal),
                AuthoringAction::SealBlock,
            ),
            (
                AuthoringState::Proposing(ProposingPhase::Block),
                AuthoringEvent::ProposalFailed,
            ) => self.skip(SkipReason::ProposeError),
            (
                AuthoringState::Proposing(ProposingPhase::Block),
                AuthoringEvent::ProposalTimedOut,
            ) => self.skip(SkipReason::DeadlineExceeded),
            (
                AuthoringState::Proposing(ProposingPhase::Seal),
                AuthoringEvent::BlockSealed,
            ) => self.advance(AuthoringState::Sealed, AuthoringAction::ImportBlock),
            (
                AuthoringState::Proposing(ProposingPhase::Seal),
                AuthoringEvent::SealFailed,
            ) => self.skip(SkipReason::SignError),
            (AuthoringState::Sealed, AuthoringEvent::BlockImported) => self.advance(
                AuthoringState::Imported,
                AuthoringAction::Finish { authored: true },
            ),
            (AuthoringState::Sealed, AuthoringEvent::ImportFailed) => self.skip(
                SkipReason::ImportError,
            ),
            _ => (self, AuthoringAction::Ignore),
        }
    }
}

/// The slot authoring state machine of one attempt.
pub struct SlotAuthoring {
    state: AuthoringState,
    force_authoring: bool,
    end_proposing_at: u64,
    authorities_len: Option<usize>,
}

impl View for SlotAuthoring {
    type V = AuthoringModel;

    closed spec fn view(&self) -> AuthoringModel {
        AuthoringModel {
            state: self.state,
            force_authoring: self.force_authoring,
            end_proposing_at: self.end_proposing_at,
            authorities_len: self.authorities_len,
        }
    }
}

impl SlotAuthoring {
    /// Begins an attempt at `now` with `proposing_remaining` nanoseconds for
    /// proposing. With no time left the slot is skipped at once; else the
    /// authority set is to be fetched.
    pub fn begin(proposing_remaining: u64, now: u64, force_authoring: bool) -> (started: (
        Self,
        AuthoringAction,
    ))
        requires
            now + proposing_remaining <= u64::MAX,
        ensures
            started.0@ == (AuthoringModel {
                state: if proposing_remaining == 0 {
                    AuthoringState::Skipped(SkipReason::NoTimeLeft)
                } else {
                    AuthoringState::Idle
                },
                force_authoring,
                end_proposing_at: (now + proposing_remaining) as u64,
                authorities_len: None,
            }),
            started.1 == if proposing_remaining == 0 {
                AuthoringAction::Finish { authored: false }
            } else {
                AuthoringAction::FetchAuxData
            },
    {
        if proposing_remaining == 0 {
            (
                SlotAuthoring {
                    state: AuthoringState::Skipped(SkipReason::NoTimeLeft),
                    force_authoring,
                    end_proposing_at: now,
                    authorities_len: None,
                },
                AuthoringAction::Finish { authored: false },
            )
        } else {
            (
                SlotAuthoring {
                    state: AuthoringState::Idle,
                    force_authoring,
                    end_proposing_at: now + proposing_remaining,
                    authorities_len: None,
                },
                AuthoringAction::FetchAuxData,
            )
        }
    }

    /// Where the attempt stands.
    pub fn state(&self) -> (state: AuthoringState)
        ensures
            state == self@.state,
    {
        self.state
    }

    /// Whether the attempt is over.
    pub fn is_finished(&self) -> (finished: bool)
        ensures
            finished == self@.finished(),
    {
        match self.state {
            AuthoringState::Imported => true,
            AuthoringState::Skipped(_) => true,
            _ => false,
        }
    }

    /// Ends the attempt for `reason` and says so.
    fn skipped(&mut self, reason: SkipReason) -> (action: AuthoringAction)
        ensures
            (final(self)@, action) == old(self)@.skip(reason),
    {
        self.state = AuthoringState::Skipped(reason);
        AuthoringAction::Finish { authored: false }
    }

    /// The time left for proposing at `now`.
    fn time_left(&self, now: u64) -> (left: u64)
        ensures
            left == self@.time_left(now),
    {
        if self.end_proposing_at >= now {
            self.end_proposing_at - now
        } else {
            0
        }
    }

    /// Takes the outcome of the last piece of work and names the next.
    pub fn on_event(&mut self, event: AuthoringEvent) -> (action: AuthoringAction)
        ensures
            (final(self)@, action) == old(self)@.step(event),
    {
        match (self.state, event) {
            (AuthoringState::Idle, AuthoringEvent::AuxDataFetched { authorities_len }) => {
                self.state = AuthoringState::AuxDataFetched;
                self.authorities_len = authorities_len;
                AuthoringAction::NotifyObservers
            },
            (AuthoringState::Idle, AuthoringEvent::AuxDataFailed) => self.skipped(
                SkipReason::AuxDataError,
            ),
            (
                AuthoringState::AuxDataFetched,
                AuthoringEvent::ObserversNotified { sync_offline },
            ) => {
                if must_wait_for_network(self.force_authoring, sync_offline, self.authorities_len) {
                    self.skipped(SkipReason::WaitingForNetwork)
                } else {
                    self.state = AuthoringState::NotifiedObservers;
                    AuthoringAction::ClaimSlot
                }
            },
            (AuthoringState::NotifiedObservers, AuthoringEvent::SlotClaimed) => {
                self.state = AuthoringState::Claimed { backoff_passed: false };
                AuthoringAction::CheckBackoff
            },
            (AuthoringState::NotifiedObservers, AuthoringEvent::ClaimMissed) => self.skipped(
                SkipReason::NoClaim,
            ),
            (
                AuthoringState::Claimed { backoff_passed: false },
                AuthoringEvent::BackoffDecided { backoff },
            ) => {
                if backoff {
                    self.skipped(SkipReason::Backoff)
                } else {
                    self.state = AuthoringState::Claimed { backoff_passed: true };
                    AuthoringAction::BuildProposer
                }
            },
            (
                AuthoringState::Claimed { backoff_passed: true },
                AuthoringEvent::ProposerReady { now },
            ) => {
                self.state = AuthoringState::Proposing(ProposingPhase::InherentData);
                AuthoringAction::CreateInherentData { timeout: self.time_left(now) }
            },
            (
                AuthoringState::Claimed { backoff_passed: true },
                AuthoringEvent::ProposerFailed,
            ) => self.skipped(SkipReason::ProposerError),
            (
                AuthoringState::Proposing(ProposingPhase::InherentData),
                AuthoringEvent::InherentDataReady { now },
            ) => {
                let left = self.time_left(now);
                self.state = AuthoringState::Proposing(ProposingPhase::Block);
                AuthoringAction::Propose {
                    soft_deadline: soft_deadline(left),
                    hard_deadline: left,
                }
            },
            (
                AuthoringState::Proposing(ProposingPhase::InherentData),
                AuthoringEvent::InherentDataFailed,
            ) => self.skipped(SkipReason::InherentError),
            (
                AuthoringState::Proposing(ProposingPhase::InherentData),
                AuthoringEvent::InherentDataTimedOut,
            ) => self.skipped(SkipReason::InherentError),
            (
                AuthoringState::Proposing(ProposingPhase::Block),
                AuthoringEvent::ProposalBuilt,
            ) => {
                self.state = AuthoringState::Proposing(ProposingPhase::Seal);
                AuthoringAction::SealBlock
            },
            (
                AuthoringState::Proposing(ProposingPhase::Block),
                AuthoringEvent::ProposalFailed,
            ) => self.skipped(SkipReason::ProposeError),
            (
                AuthoringState::Proposing(ProposingPhase::Block),
                AuthoringEvent::ProposalTimedOut,
            ) => self.skipped(SkipReason::DeadlineExceeded),
            (
                AuthoringState::Proposing(ProposingPhase::Seal),
                AuthoringEvent::BlockSealed,
            ) => {
                self.state = AuthoringState::Sealed;
                AuthoringAction::ImportBlock
            },
            (
                AuthoringState::Proposing(ProposingPhase::Seal),
                AuthoringEvent::SealFailed,
            ) => self.skipped(SkipReason::SignError),
            (AuthoringState::Sealed, AuthoringEvent::BlockImported) => {
                self.state = AuthoringState::Imported;
                AuthoringAction::Finish { authored: true }
            },
            (AuthoringState::Sealed, AuthoringEvent::ImportFailed) => self.skipped(
                SkipReason::ImportError,
            ),
            _ => AuthoringAction::Ignore,
        }
    }
}

/// The soft deadline for the proposer: 98 in 100 parts of the time left.
pub fn soft_deadline(remaining: u64) -> (deadline: u64)
    ensures
        deadline == soft_deadline_of(remaining),
        deadline <= remaining,
{
    (remaining as u128 * 98 / 100) as u64
}

/// Tells whether an offline node has to wait for the network.
pub fn must_wait_for_network(
    force_authoring: bool,
    sync_offline: bool,
    authorities_len: Option<usize>,
) -> (wait: bool)
    ensures
        wait == waits_for_network(force_authoring, sync_offline, authorities_len),
{
    if force_authoring || !sync_offline {
        return false;
    }
    match authorities_len {
        Some(len) => len > 1,
        None => false,
    }
}

/// The index of the authority that is expected to author in `slot`: the slot
/// number modulo the number of authorities. An empty set has no author.
pub open spec fn expected_author(slot: u64, authorities_len: usize) -> Option<usize> {
    if authorities_len == 0 {
        None
    } else {
        Some((slot as int % authorities_len as int) as usize)
    }
}

/// The index of the expected author of `slot` among `authorities_len` authorities.
pub fn slot_author(slot: u64, authorities_len: usize) -> (author: Option<usize>)
    ensures
        author == expected_author(slot, authorities_len),
        author matches Some(index) ==> index < authorities_len,
{
    if authorities_len == 0 {
        return None;
    }
    let index = slot % (authorities_len as u64);
    Some(index as usize)
}

/// The claim that the key store allows, where `held[i]` tells whether it
/// holds the key of authority `i`.
///
/// In strict mode only the expected author of the slot can claim it. When
/// authoring is forced, the first authority whose key is held claims it.
pub open spec fn claim_of(slot: u64, held: Seq<bool>, force_authoring: bool) -> Option<usize> {
    if force_authoring {
        if exists|i: int| 0 <= i < held.len() && held[i] {
            Some(first_held(held) as usize)
        } else {
            None
        }
    } else {
        match expected_author(slot, held.len() as usize) {
            Some(index) => if held[index as int] {
                Some(index)
            } else {
                None
            },
            None => None,
        }
    }
}

/// The least index at which `held` is true, or its length if there is none.
pub open spec fn first_held(held: Seq<bool>) -> int
    decreases held.len(),
{
    if held.len() == 0 {
        0
    } else if held[0] {
        0
    } else {
        1 + first_held(held.drop_first())
    }
}

/// `first_held` names the first true entry, if there is one.
pub proof fn lemma_first_held(held: Seq<bool>)
    ensures
        0 <= first_held(held) <= held.len(),
        forall|i: int| 0 <= i < first_held(held) ==> !held[i],
        first_held(held) < held.len() ==> held[first_held(held)],
        first_held(held) == held.len() ==> forall|i: int| 0 <= i < held.len() ==> !held[i],
    decreases held.len(),
{
    if held.len() > 0 && !held[0] {
        let rest = held.drop_first();
        lemma_first_held(rest);
        assert forall|i: int| 0 <= i < first_held(held) implies !held[i] by {
            if i > 0 {
                assert(rest[i - 1] == held[i]);
            }
        }
        if first_held(held) < held.len() {
            assert(rest[first_held(rest)] == held[first_held(held)]);
        } else {
            assert forall|i: int| 0 <= i < held.len() implies !held[i] by {
                if i > 0 {
                    assert(rest[i - 1] == held[i]);
                }
            }
        }
    }
}

/// Tries to claim `slot`, given for each authority whether the key store
/// holds its key.
pub fn claim_slot(slot: u64, held: &Vec<bool>, force_authoring: bool) -> (claim: Option<usize>)
    ensures
        claim == claim_of(slot, held@, force_authoring),
        claim matches Some(index) ==> index < held@.len() && held@[index as int],
        !force_authoring && claim is Some ==> claim == expected_author(slot, held@.len() as usize),
{
    if force_authoring {
        let mut i: usize = 0;
        while i < held.len()
            invariant
                force_authoring,
                i <= held.len(),
                forall|j: int| 0 <= j < i ==> !held@[j],
            decreases held.len() - i,
        {
            if held[i] {
                proof {
                    lemma_first_held(held@);
                    let first = first_held(held@);
                    if first < i {
                        assert(!held@[first]);
                    }
                    if first > i {
                        assert(!held@[i as int]);
                    }
                    assert(held@[i as int]);
                    assert(first == i);
                }
                return Some(i);
            }
            i += 1;
        }
        None
    } else {
        match slot_author(slot, held.len()) {
            Some(index) => if held[index] {
                Some(index)
            } else {
                None
            },
            None => None,
        }
    }
}

/// Whether the worker backs off: only with a strategy, and only if the chain
/// head names its slot.
pub open spec fn worker_backs_off(
    strategy: Option<BackoffAuthoringOnFinalizedHeadLagging>,
    chain_head_number: u64,
    chain_head_slot: Option<u64>,
    finalized_number: u64,
    slot_now: u64,
) -> bool {
    match (strategy, chain_head_slot) {
        (Some(strategy), Some(head_slot)) => strategy.backs_off(
            chain_head_number,
            head_slot,
            finalized_number,
            slot_now,
        ),
        _ => false,
    }
}

/// Asks the backoff strategy of the worker, if it has one.
pub fn worker_should_backoff(
    strategy: Option<&BackoffAuthoringOnFinalizedHeadLagging>,
    chain_head_number: u64,
    chain_head_slot: Option<u64>,
    finalized_number: u64,
    slot_now: u64,
) -> (backoff: bool)
    requires
        match (strategy, chain_head_slot) {
            (Some(s), Some(head_slot)) => slot_now > head_slot ==> s.authoring_bias > 0,
            _ => true,
        },
    ensures
        backoff == worker_backs_off(
            match strategy {
                Some(s) => Some(*s),
                None => None,
            },
            chain_head_number,
            chain_head_slot,
            finalized_number,
            slot_now,
        ),
{
    match strategy {
        Some(strategy) => match chain_head_slot {
            Some(head_slot) => strategy.should_backoff(
                chain_head_number,
                head_slot,
                finalized_number,
                slot_now,
            ),
            None => false,
        },
        None => false,
    }
}

/// Run the engine in a compatibility mode.
#[derive(Debug, Clone, Copy, PartialEq, Eq, Structural)]
pub enum CompatibilityMode {
    /// Don't use any compatibility mode.
    Disabled,
    /// Call `initialize_block` before doing any runtime calls.
    UseInitializeBlock {
        /// The block number until this compatibility mode should be executed.
        until: u64,
    },
}

impl Default for CompatibilityMode {
    fn default() -> (mode: Self)
        ensures
            mode == CompatibilityMode::Disabled,
    {
        CompatibilityMode::Disabled
    }
}

impl CompatibilityMode {
    /// Whether the block is to be initialized before the authorities are
    /// asked for: in compatibility mode, for blocks before `until`.
    pub open spec fn initializes(self, context_block_number: u64) -> bool {
        self matches CompatibilityMode::UseInitializeBlock { until } && until
            > context_block_number
    }

    /// Tells whether the block is to be initialized before the authorities
    /// are asked for.
    pub fn initializes_block(&self, context_block_number: u64) -> (initialize: bool)
        ensures
            initialize == self.initializes(context_block_number),
    {
        match self {
            CompatibilityMode::Disabled => false,
            CompatibilityMode::UseInitializeBlock { until } => *until > context_block_number,
        }
    }
}

/// An attempt that is over stays as it is: every event is ignored.
pub proof fn lemma_finished_attempt_is_final(attempt: AuthoringModel, event: AuthoringEvent)
    requires
        attempt.finished(),
    ensures
        attempt.step(event) == (attempt, AuthoringAction::Ignore),
{
}

/// A block counts as authored only when a sealed block was imported, and
/// every skip ends the attempt.
pub proof fn lemma_authored_only_after_import(attempt: AuthoringModel, event: AuthoringEvent)
    ensures
        attempt.step(event).1 == (AuthoringAction::Finish { authored: true }) <==> (attempt.state
            is Sealed && event is BlockImported),
        attempt.step(event).1 is Finish ==> attempt.step(event).0.finished(),
        attempt.step(event).0.end_proposing_at == attempt.end_proposing_at,
        attempt.step(event).0.force_authoring == attempt.force_authoring,
{
}

/// The deadlines handed to the proposer never pass the end of proposing:
/// the hard deadline is the time left, the soft deadline is no later.
pub proof fn lemma_deadlines_within_time_left(attempt: AuthoringModel, now: u64)
    requires
        now <= attempt.end_proposing_at,
    ensures
        attempt.step(AuthoringEvent::InherentDataReady { now }).1 matches AuthoringAction::Propose {
            soft_deadline,
            hard_deadline,
        } ==> soft_deadline <= hard_deadline && now + hard_deadline == attempt.end_proposing_at,
        attempt.step(AuthoringEvent::ProposerReady { now }).1
            matches AuthoringAction::CreateInherentData { timeout } ==> now + timeout
            == attempt.end_proposing_at,
{
    let left = attempt.time_left(now);
    assert(left * 98 / 100 <= left) by (nonlinear_arith)
        requires
            left >= 0,
    ;
}

} // verus!
