//! Equivocation detection: an authority signing two blocks for one slot.

use vstd::prelude::*;
use std::collections::BTreeMap;
use crate::bounded::{
    counts_get, counts_len, counts_new, counts_of, counts_set, counts_try_push, oldest_slot,
    reports_len, reports_new, reports_of, reports_try_push, OffenderCounts, ReportList,
    SESSION_CAPACITY,
};

verus! {

/// The most distinct slots whose blocks are remembered.
pub const MAX_SLOTS: usize = 1000;

/// Tells whether two byte strings are the same.
pub fn same_bytes(a: &Vec<u8>, b: &Vec<u8>) -> (same: bool)
    ensures
        same == (a@ == b@),
{
    if a.len() != b.len() {
        return false;
    }
    let mut i: usize = 0;
    while i < a.len()
        invariant
            i <= a.len(),
            a.len() == b.len(),
            forall|j: int| 0 <= j < i ==> a@[j] == b@[j],
        decreases a.len() - i,
    {
        if a[i] != b[i] {
            return false;
        }
        i += 1;
    }
    proof {
        assert(a@ =~= b@);
    }
    true
}

/// A copy of a byte string.
pub fn copy_bytes(bytes: &Vec<u8>) -> (copy: Vec<u8>)
    ensures
        copy@ == bytes@,
{
    let mut copy: Vec<u8> = Vec::new();
    let mut i: usize = 0;
    while i < bytes.len()
        invariant
            i <= bytes.len(),
            copy@ == bytes@.take(i as int),
        decreases bytes.len() - i,
    {
        copy.push(bytes[i]);
        proof {
            assert(copy@ =~= bytes@.take(i + 1));
        }
        i += 1;
    }
    proof {
        assert(bytes@.take(i as int) =~= bytes@);
    }
    copy
}

/// What the detector needs of a block header: its hash and its number.
#[derive(Debug)]
pub struct HeaderId {
    /// The hash of the header.
    pub hash: Vec<u8>,
    /// The number of the block.
    pub number: u64,
}

/// A header, as a mathematical value.
pub struct HeaderModel {
    /// The hash of the header.
    pub hash: Seq<u8>,
    /// The number of the block.
    pub number: u64,
}

impl View for HeaderId {
    type V = HeaderModel;

    open spec fn view(&self) -> HeaderModel {
        HeaderModel { hash: self.hash@, number: self.number }
    }
}

impl Clone for HeaderId {
    fn clone(&self) -> (copy: Self)
        ensures
            copy@ == self@,
    {
        HeaderId { hash: copy_bytes(&self.hash), number: self.number }
    }
}

/// Evidence of equivocation: a validator authored two different blocks for the same slot.
#[derive(Debug)]
pub struct EquivocationProof {
    /// The slot in which equivocation occurred.
    pub slot: u64,
    /// The offending authority.
    pub offender: Vec<u8>,
    /// First conflicting block header.
    pub first_header: HeaderId,
    /// Second conflicting block header.
    pub second_header: HeaderId,
}

/// An equivocation proof, as a mathematical value.
pub struct ProofModel {
    /// The slot in which equivocation occurred.
    pub slot: u64,
    /// The offending authority.
    pub offender: Seq<u8>,
    /// First conflicting block header.
    pub first_header: HeaderModel,
    /// Second conflicting block header.
    pub second_header: HeaderModel,
}

impl View for EquivocationProof {
    type V = ProofModel;

    open spec fn view(&self) -> ProofModel {
        ProofModel {
            slot: self.slot,
            offender: self.offender@,
            first_header: self.first_header@,
            second_header: self.second_header@,
        }
    }
}

/// The proof that a call returned, as a mathematical value.
pub open spec fn proof_view(found: Option<EquivocationProof>) -> Option<ProofModel> {
    match found {
        Some(p) => Some(p@),
        None => None,
    }
}

/// A report of equivocation.
#[derive(Debug)]
pub struct EquivocationReport {
    /// The offending authority.
    pub offender: Vec<u8>,
    /// The slot where equivocation occurred.
    pub slot: u64,
    /// Block number where equivocation was detected.
    pub block_number: u32,
    /// Session where equivocation occurred.
    pub session_index: u32,
}

/// A report, as a mathematical value.
pub struct ReportModel {
    /// The offending authority.
    pub offender: Seq<u8>,
    /// The slot where equivocation occurred.
    pub slot: u64,
    /// Block number where equivocation was detected.
    pub block_number: u32,
    /// Session where equivocation occurred.
    pub session_index: u32,
}

impl View for EquivocationReport {
    type V = ReportModel;

    open spec fn view(&self) -> ReportModel {
        ReportModel {
            offender: self.offender@,
            slot: self.slot,
            block_number: self.block_number,
            session_index: self.session_index,
        }
    }
}

/// Equivocation detection and slashing configuration.
#[derive(Debug, Clone, Copy, PartialEq, Eq, Structural)]
pub struct EquivocationConfig {
    /// Enable automatic slashing of equivocating validators.
    pub enable_slashing: bool,
    /// Grace period before slashing (number of blocks).
    pub grace_period: u32,
    /// Maximum number of equivocations to track per session.
    pub max_reports_per_session: u32,
    /// Percentage of stake to slash for equivocation (basis points: 10000 = 100%).
    pub slash_percentage: u32,
}

impl Default for EquivocationConfig {
    /// No slashing, a grace period of 100 blocks, ten reports per session
    /// and a slash of ten percent.
    fn default() -> (config: Self)
        ensures
            config == (EquivocationConfig {
                enable_slashing: false,
                grace_period: 100,
                max_reports_per_session: 10,
                slash_percentage: 1000,
            }),
    {
        EquivocationConfig {
            enable_slashing: false,
            grace_period: 100,
            max_reports_per_session: 10,
            slash_percentage: 1000,
        }
    }
}

/// Storage for tracking equivocations within a session.
pub struct SessionEquivocations {
    /// List of equivocation reports in this session (bounded to prevent bloat).
    pub reports: ReportList,
    /// Mapping of authority to their equivocation count (bounded to prevent bloat).
    pub offender_counts: OffenderCounts,
}

/// The tables of a session, as a mathematical value.
pub struct SessionModel {
    /// The reports of the session, oldest first.
    pub reports: Seq<ReportModel>,
    /// The offenders of the session with their counts, in order of first offence.
    pub offender_counts: Seq<(Seq<u8>, u32)>,
}

impl View for SessionEquivocations {
    type V = SessionModel;

    open spec fn view(&self) -> SessionModel {
        SessionModel {
            reports: reports_of(self.reports).map_values(|r: EquivocationReport| r@),
            offender_counts: counts_of(self.offender_counts).map_values(
                |e: (Vec<u8>, u32)| (e.0@, e.1),
            ),
        }
    }
}

impl SessionModel {
    /// The tables of a session in which nothing was reported.
    pub open spec fn empty() -> SessionModel {
        SessionModel { reports: Seq::empty(), offender_counts: Seq::empty() }
    }

    /// The place of `offender` in the table, if it has one.
    pub open spec fn position(self, offender: Seq<u8>) -> Option<int> {
        position_of(self.offender_counts, offender)
    }

    /// The number of equivocations recorded for `offender`.
    pub open spec fn count_of(self, offender: Seq<u8>) -> u32 {
        match self.position(offender) {
            Some(at) => self.offender_counts[at].1,
            None => 0,
        }
    }

    /// Whether both tables are within their capacity of 100 entries.
    pub open spec fn bounded(self) -> bool {
        self.reports.len() <= SESSION_CAPACITY && self.offender_counts.len() <= SESSION_CAPACITY
    }

    /// The most reports that the list takes: its capacity, and `max_reports` at most.
    pub open spec fn report_limit(max_reports: u32) -> int {
        if max_reports < SESSION_CAPACITY {
            max_reports as int
        } else {
            SESSION_CAPACITY as int
        }
    }

    /// Whether a table has reached its capacity, with at most `max_reports`
    /// reports taken in a session.
    pub open spec fn full(self, max_reports: u32) -> bool {
        self.reports.len() >= Self::report_limit(max_reports) || self.offender_counts.len()
            >= SESSION_CAPACITY
    }

    /// The tables after `report` is recorded, with at most `max_reports`
    /// reports taken in a session.
    ///
    /// The count of a known offender always grows by one, and the report
    /// joins the list while the list has room. A new offender enters the
    /// table with its report unless a table has reached its capacity: then
    /// nothing is recorded.
    pub open spec fn record(self, report: ReportModel, max_reports: u32) -> SessionModel {
        match self.position(report.offender) {
            Some(at) => SessionModel {
                reports: if self.reports.len() < Self::report_limit(max_reports) {
                    self.reports.push(report)
                } else {
                    self.reports
                },
                offender_counts: self.offender_counts.update(
                    at,
                    (report.offender, one_more(self.offender_counts[at].1)),
                ),
            },
            None => if self.full(max_reports) {
                self
            } else {
                SessionModel {
                    reports: self.reports.push(report),
                    offender_counts: self.offender_counts.push((report.offender, 1u32)),
                }
            },
        }
    }
}

/// A count grown by one, held at the largest count.
pub open spec fn one_more(count: u32) -> u32 {
    if count < u32::MAX {
        (count + 1) as u32
    } else {
        count
    }
}

/// The first place in `table` that names `offender`.
pub open spec fn position_of(table: Seq<(Seq<u8>, u32)>, offender: Seq<u8>) -> Option<int>
    decreases table.len(),
{
    if table.len() == 0 {
        None
    } else {
        match position_of(table.drop_last(), offender) {
            Some(at) => Some(at),
            None => if table.last().0 == offender {
                Some(table.len() - 1)
            } else {
                None
            },
        }
    }
}

/// `position_of` names the first entry of the offender, if there is one.
pub proof fn lemma_position_of(table: Seq<(Seq<u8>, u32)>, offender: Seq<u8>)
    ensures
        match position_of(table, offender) {
            Some(at) => 0 <= at < table.len() && table[at].0 == offender && forall|i: int|
                0 <= i < at ==> table[i].0 != offender,
            None => forall|i: int| 0 <= i < table.len() ==> table[i].0 != offender,
        },
    decreases table.len(),
{
    if table.len() > 0 {
        let front = table.drop_last();
        lemma_position_of(front, offender);
        assert forall|i: int| 0 <= i < front.len() implies front[i] == table[i] by {}
        match position_of(front, offender) {
            Some(at) => {
                assert(front[at] == table[at]);
            },
            None => {
                assert forall|i: int| 0 <= i < front.len() implies table[i].0 != offender by {
                    assert(front[i] == table[i]);
                }
            },
        }
    }
}

/// A block that was seen in a slot.
#[derive(Debug)]
pub struct StoredBlock {
    /// The header of the block.
    pub header: HeaderId,
    /// The authority that authored it.
    pub author: Vec<u8>,
}

/// A block that was seen in a slot, as a mathematical value.
pub struct Observation {
    /// The header of the block.
    pub header: HeaderModel,
    /// The authority that authored it.
    pub author: Seq<u8>,
}

impl View for StoredBlock {
    type V = Observation;

    open spec fn view(&self) -> Observation {
        Observation { header: self.header@, author: self.author@ }
    }
}

/// The blocks of a slot, as mathematical values.
pub open spec fn observations(blocks: Seq<StoredBlock>) -> Seq<Observation> {
    blocks.map_values(|b: StoredBlock| b@)
}

/// Whether a block seen before conflicts with a block of hash `hash` by
/// `author`: the same author, another hash.
pub open spec fn conflicts(seen: Observation, hash: Seq<u8>, author: Seq<u8>) -> bool {
    seen.author == author && seen.header.hash != hash
}

/// The first block among `seen` that conflicts with a block of hash `hash`
/// by `author`.
pub open spec fn first_conflict(seen: Seq<Observation>, hash: Seq<u8>, author: Seq<u8>) -> Option<
    int,
>
    decreases seen.len(),
{
    if seen.len() == 0 {
        None
    } else {
        match first_conflict(seen.drop_last(), hash, author) {
            Some(at) => Some(at),
            None => if conflicts(seen.last(), hash, author) {
                Some(seen.len() - 1)
            } else {
                None
            },
        }
    }
}

/// `first_conflict` names the first conflicting block, if there is one.
pub proof fn lemma_first_conflict(seen: Seq<Observation>, hash: Seq<u8>, author: Seq<u8>)
    ensures
        match first_conflict(seen, hash, author) {
            Some(at) => 0 <= at < seen.len() && conflicts(seen[at], hash, author) && forall|
                i: int,
            |
                0 <= i < at ==> !conflicts(seen[i], hash, author),
            None => forall|i: int| 0 <= i < seen.len() ==> !conflicts(seen[i], hash, author),
        },
    decreases seen.len(),
{
    if seen.len() > 0 {
        let front = seen.drop_last();
        lemma_first_conflict(front, hash, author);
        assert forall|i: int| 0 <= i < front.len() implies front[i] == seen[i] by {}
        match first_conflict(front, hash, author) {
            Some(at) => {
                assert(front[at] == seen[at]);
            },
            None => {
                assert forall|i: int| 0 <= i < front.len() implies !conflicts(
                    seen[i],
                    hash,
                    author,
                ) by {
                    assert(front[i] == seen[i]);
                }
            },
        }
    }
}

/// Whether `slot` is the oldest of `slots`.
pub open spec fn is_oldest(slots: Set<u64>, slot: u64) -> bool {
    slots.contains(slot) && forall|other: u64| slots.contains(other) ==> slot <= other
}

/// The oldest of `slots`.
pub open spec fn oldest_of(slots: Set<u64>) -> u64 {
    choose|slot: u64| is_oldest(slots, slot)
}

/// The block number of a report: the number of the header, held at the
/// largest 32-bit number.
pub open spec fn reported_number(number: u64) -> u32 {
    if number > u32::MAX {
        u32::MAX
    } else {
        number as u32
    }
}

/// The state of a detector, as a mathematical value.
pub struct DetectorModel {
    /// The blocks seen in this session, by slot.
    pub slots: Map<u64, Seq<Observation>>,
    /// The tables of this session.
    pub session: SessionModel,
    /// The configuration.
    pub config: EquivocationConfig,
}

impl DetectorModel {
    /// A detector is well formed when its session tables hold at most 100
    /// entries each and its index tracks at most 1000 slots.
    pub open spec fn well_formed(self) -> bool {
        self.session.bounded() && self.slots.dom().finite() && self.slots.dom().len() <= MAX_SLOTS
    }

    /// The blocks seen in `slot`.
    pub open spec fn seen_in(self, slot: u64) -> Seq<Observation> {
        if self.slots.contains_key(slot) {
            self.slots[slot]
        } else {
            Seq::empty()
        }
    }

    /// The index after the oldest slot is dropped, if more than 1000 slots
    /// are tracked.
    pub open spec fn evicted(slots: Map<u64, Seq<Observation>>) -> Map<u64, Seq<Observation>> {
        if slots.dom().len() > MAX_SLOTS {
            slots.remove(oldest_of(slots.dom()))
        } else {
            slots
        }
    }

    /// The detector and the proof after a block is checked.
    ///
    /// If a block by the same author with another hash was seen in the slot,
    /// the first such block and the new one make the proof, and a report is
    /// recorded; the index stays as it is. Else the block is added to those
    /// of its slot and the oldest slot leaves if the index has grown too
    /// large.
    pub open spec fn check(
        self,
        header: HeaderModel,
        slot: u64,
        author: Seq<u8>,
        session_index: u32,
    ) -> (DetectorModel, Option<ProofModel>) {
        let seen = self.seen_in(slot);
        match first_conflict(seen, header.hash, author) {
            Some(at) => (
                DetectorModel {
                    session: self.session.record(
                        ReportModel {
                            offender: author,
                            slot,
                            block_number: reported_number(header.number),
                            session_index,
                        },
                        self.config.max_reports_per_session,
                    ),
                    ..self
                },
                Some(
                    ProofModel {
                        slot,
                        offender: author,
                        first_header: seen[at].header,
                        second_header: header,
                    },
                ),
            ),
            None => (
                DetectorModel {
                    slots: Self::evicted(
                        self.slots.insert(slot, seen.push(Observation { header, author })),
                    ),
                    ..self
                },
                None,
            ),
        }
    }

    /// Whether `authority` can be slashed: slashing is enabled and an
    /// equivocation of the authority is recorded.
    pub open spec fn slashable(self, authority: Seq<u8>) -> bool {
        self.config.enable_slashing && self.session.count_of(authority) > 0
    }
}

/// Equivocation detector that tracks blocks per slot.
pub struct EquivocationDetector {
    /// Blocks seen per slot in current session.
    slot_blocks: BTreeMap<u64, Vec<StoredBlock>>,
    /// Current session equivocations.
    session_equivocations: SessionEquivocations,
    /// Detection configuration.
    config: EquivocationConfig,
}

impl View for EquivocationDetector {
    type V = DetectorModel;

    closed spec fn view(&self) -> DetectorModel {
        DetectorModel {
            slots: Map::new(
                |slot: u64| self.slot_blocks@.contains_key(slot),
                |slot: u64| observations(self.slot_blocks@[slot]@),
            ),
            session: self.session_equivocations@,
            config: self.config,
        }
    }
}

impl EquivocationDetector {
    /// Create a new equivocation detector.
    pub fn new(config: EquivocationConfig) -> (detector: Self)
        ensures
            detector@ == (DetectorModel {
                slots: Map::empty(),
                session: SessionModel::empty(),
                config,
            }),
            detector@.well_formed(),
    {
        let detector = EquivocationDetector {
            slot_blocks: BTreeMap::new(),
            session_equivocations: SessionEquivocations {
                reports: reports_new(),
                offender_counts: counts_new(),
            },
            config,
        };
        proof {
            assert(detector@.slots =~= Map::empty());
            assert(detector@.session.reports =~= Seq::empty());
            assert(detector@.session.offender_counts =~= Seq::empty());
        }
        detector
    }

    /// Reset detection state for a new session.
    pub fn new_session(&mut self)
        ensures
            final(self)@ == (DetectorModel {
                slots: Map::empty(),
                session: SessionModel::empty(),
                config: old(self)@.config,
            }),
            final(self)@.well_formed(),
    {
        self.slot_blocks.clear();
        self.session_equivocations = SessionEquivocations {
            reports: reports_new(),
            offender_counts: counts_new(),
        };
        proof {
            assert(self@.slots =~= Map::empty());
            assert(self@.session.reports =~= Seq::empty());
            assert(self@.session.offender_counts =~= Seq::empty());
        }
    }

    /// Get current session equivocations.
    pub fn get_session_equivocations(&self) -> (session: &SessionEquivocations)
        ensures
            session@ == self@.session,
    {
        &self.session_equivocations
    }

    /// Update configuration.
    pub fn update_config(&mut self, config: EquivocationConfig)
        ensures
            final(self)@ == (DetectorModel { config, ..old(self)@ }),
    {
        self.config = config;
    }

    /// Get current configuration.
    pub fn get_config(&self) -> (config: &EquivocationConfig)
        ensures
            *config == self@.config,
    {
        &self.config
    }

    /// Process a new block and check for equivocations.
    ///
    /// `header` names the block by hash and number, `author` is the
    /// authority that signed it.
    pub fn check_block(
        &mut self,
        header: HeaderId,
        slot: u64,
        author: Vec<u8>,
        session_index: u32,
    ) -> (found: Option<EquivocationProof>)
        ensures
            (final(self)@, proof_view(found)) == old(self)@.check(
                header@,
                slot,
                author@,
                session_index,
            ),
            old(self)@.well_formed() ==> final(self)@.well_formed(),
    {
        let ghost before = self@;
        proof {
            if before.well_formed() {
                lemma_check_keeps_well_formed(before, header@, slot, author@, session_index);
            }
        }
        let ghost index_before = self.slot_blocks@;
        let known = self.slot_blocks.remove(&slot);
        let mut entries: Vec<StoredBlock> = match known {
            Some(blocks) => blocks,
            None => Vec::new(),
        };
        proof {
            assert(observations(entries@) =~= before.seen_in(slot));
            lemma_first_conflict(observations(entries@), header.hash@, author@);
        }
        let mut at: usize = 0;
        let mut conflict: Option<usize> = None;
        while at < entries.len() && conflict.is_none()
            invariant
                at <= entries.len(),
                forall|i: int|
                    0 <= i < at && conflict is None ==> !conflicts(
                        #[trigger] observations(entries@)[i],
                        header.hash@,
                        author@,
                    ),
                conflict matches Some(c) ==> c < entries.len() && conflicts(
                    observations(entries@)[c as int],
                    header.hash@,
                    author@,
                ) && forall|i: int|
                    0 <= i < c ==> !conflicts(
                        #[trigger] observations(entries@)[i],
                        header.hash@,
                        author@,
                    ),
            decreases entries.len() - at + (if conflict is None { 1int } else { 0int }),
        {
            let same_author = same_bytes(&entries[at].author, &author);
            let same_hash = same_bytes(&entries[at].header.hash, &header.hash);
            if same_author && !same_hash {
                conflict = Some(at);
            } else {
                at += 1;
            }
        }
        match conflict {
            Some(c) => {
                let evidence = EquivocationProof {
                    slot,
                    offender: copy_bytes(&author),
                    first_header: entries[c].header.clone(),
                    second_header: header.clone(),
                };
                let report = EquivocationReport {
                    offender: author,
                    slot,
                    block_number: if header.number > 0xffff_ffff {
                        0xffff_ffff
                    } else {
                        header.number as u32
                    },
                    session_index,
                };
                proof {
                    assert(known is Some);
                    assert(first_conflict(observations(entries@), header.hash@, author@) == Some(
                        c as int,
                    ));
                }
                self.slot_blocks.insert(slot, entries);
                proof {
                    assert(self.slot_blocks@ =~= index_before);
                    assert(self@.slots =~= before.slots);
                }
                self.record_equivocation(report);
                Some(evidence)
            },
            None => {
                let ghost seen = observations(entries@);
                proof {
                    assert(first_conflict(seen, header.hash@, author@) is None);
                }
                let ghost added = Observation { header: header@, author: author@ };
                entries.push(StoredBlock { header, author });
                proof {
                    assert(observations(entries@) =~= seen.push(added));
                }
                self.slot_blocks.insert(slot, entries);
                let ghost grown = before.slots.insert(slot, seen.push(added));
                proof {
                    assert(self@.slots =~= grown);
                    assert(self@.slots.dom() =~= self.slot_blocks@.dom());
                }
                if self.slot_blocks.len() > MAX_SLOTS {
                    match oldest_slot(&self.slot_blocks) {
                        Some(oldest) => {
                            proof {
                                assert(is_oldest(grown.dom(), oldest));
                                let chosen = oldest_of(grown.dom());
                                assert(is_oldest(grown.dom(), chosen));
                                assert(chosen == oldest);
                            }
                            self.slot_blocks.remove(&oldest);
                            proof {
                                assert(self@.slots =~= grown.remove(oldest));
                            }
                        },
                        None => {
                            proof {
                                assert(self.slot_blocks@.dom().len() == 0);
                            }
                        },
                    }
                }
                None
            },
        }
    }

    /// Record an equivocation in the current session.
    fn record_equivocation(&mut self, report: EquivocationReport)
        ensures
            final(self)@ == (DetectorModel {
                session: old(self)@.session.record(
                    report@,
                    old(self)@.config.max_reports_per_session,
                ),
                ..old(self)@
            }),
    {
        let ghost before = self@.session;
        let ghost table = counts_of(self.session_equivocations.offender_counts);
        let ghost reports_before = reports_of(self.session_equivocations.reports);
        let report_limit = if (self.config.max_reports_per_session as usize) < SESSION_CAPACITY {
            self.config.max_reports_per_session as usize
        } else {
            SESSION_CAPACITY
        };
        let recorded = reports_len(&self.session_equivocations.reports);
        let known = counts_len(&self.session_equivocations.offender_counts);
        let mut at: usize = 0;
        let mut place: Option<usize> = None;
        while at < known && place.is_none()
            invariant
                known == table.len(),
                table == counts_of(self.session_equivocations.offender_counts),
                at <= known,
                forall|i: int|
                    0 <= i < at && place is None ==> (#[trigger] table[i]).0@ != report.offender@,
                place matches Some(p) ==> p < known && table[p as int].0@ == report.offender@
                    && forall|i: int| 0 <= i < p ==> (#[trigger] table[i]).0@ != report.offender@,
            decreases known - at + (if place is None { 1int } else { 0int }),
        {
            let entry = counts_get(&self.session_equivocations.offender_counts, at);
            if same_bytes(&entry.0, &report.offender) {
                place = Some(at);
            } else {
                at += 1;
            }
        }
        proof {
            lemma_position_of(before.offender_counts, report.offender@);
            match place {
                Some(p) => {
                    assert(before.offender_counts[p as int].0 == report.offender@);
                    assert(before.position(report.offender@) == Some(p as int));
                },
                None => {
                    assert(before.position(report.offender@) is None) by {
                        if before.position(report.offender@) is Some {
                            let q = before.position(report.offender@)->0;
                            assert(table[q].0@ == before.offender_counts[q].0);
                        }
                    }
                },
            }
        }
        let ghost report_model = report@;
        match place {
            Some(p) => {
                let count = counts_get(&self.session_equivocations.offender_counts, p).1;
                let grown = if count < u32::MAX {
                    count + 1
                } else {
                    count
                };
                counts_set(&mut self.session_equivocations.offender_counts, p, grown);
                proof {
                    assert(self@.session.offender_counts =~= before.offender_counts.update(
                        p as int,
                        (report.offender@, one_more(before.offender_counts[p as int].1)),
                    ));
                }
                if recorded < report_limit {
                    let _ = reports_try_push(&mut self.session_equivocations.reports, report);
                    proof {
                        assert(self@.session.reports =~= before.reports.push(report_model));
                    }
                }
            },
            None => {
                if recorded < report_limit && known < SESSION_CAPACITY {
                    let entry = (copy_bytes(&report.offender), 1u32);
                    let _ = counts_try_push(&mut self.session_equivocations.offender_counts, entry);
                    let _ = reports_try_push(&mut self.session_equivocations.reports, report);
                    proof {
                        assert(self@.session.offender_counts =~= before.offender_counts.push(
                            (report_model.offender, 1u32),
                        ));
                        assert(self@.session.reports =~= before.reports.push(report_model));
                    }
                }
            },
        }
    }

    /// Check if an authority has exceeded equivocation threshold.
    pub fn is_authority_slashable(&self, authority: &Vec<u8>) -> (slashable: bool)
        ensures
            slashable == self@.slashable(authority@),
    {
        let ghost table = counts_of(self.session_equivocations.offender_counts);
        let known = counts_len(&self.session_equivocations.offender_counts);
        proof {
            lemma_position_of(self@.session.offender_counts, authority@);
        }
        let mut at: usize = 0;
        while at < known
            invariant
                known == table.len(),
                table == counts_of(self.session_equivocations.offender_counts),
                at <= known,
                forall|i: int| 0 <= i < at ==> (#[trigger] table[i]).0@ != authority@,
            decreases known - at,
        {
            let entry = counts_get(&self.session_equivocations.offender_counts, at);
            if same_bytes(&entry.0, authority) {
                proof {
                    lemma_position_of(self@.session.offender_counts, authority@);
                    assert(self@.session.offender_counts[at as int].0 == authority@);
                    assert(self@.session.position(authority@) == Some(at as int)) by {
                        let q = self@.session.position(authority@)->0;
                        if q < at {
                            assert(table[q].0@ == self@.session.offender_counts[q].0);
                        }
                    }
                }
                return self.config.enable_slashing && entry.1 > 0u32;
            }
            at += 1;
        }
        proof {
            lemma_position_of(self@.session.offender_counts, authority@);
            assert(self@.session.position(authority@) is None) by {
                if self@.session.position(authority@) is Some {
                    let q = self@.session.position(authority@)->0;
                    assert(table[q].0@ == self@.session.offender_counts[q].0);
                }
            }
        }
        false
    }

    /// The number of slots whose blocks are remembered.
    pub fn tracked_slots(&self) -> (count: usize)
        ensures
            count == self@.slots.dom().len(),
    {
        proof {
            assert(self@.slots.dom() =~= self.slot_blocks@.dom());
        }
        self.slot_blocks.len()
    }
}

/// Whether two headers make a valid proof of equivocation: their hashes
/// differ and they claim the same block number.
pub open spec fn valid_proof(evidence: ProofModel) -> bool {
    evidence.first_header.hash != evidence.second_header.hash && evidence.first_header.number
        == evidence.second_header.number
}

/// Verify that two headers constitute valid equivocation proof.
pub fn verify_equivocation_proof(evidence: &EquivocationProof) -> (valid: bool)
    ensures
        valid == valid_proof(evidence@),
{
    if same_bytes(&evidence.first_header.hash, &evidence.second_header.hash) {
        return false;
    }
    evidence.first_header.number == evidence.second_header.number
}

/// The part of `total_stake` that the configuration slashes: the slash
/// percentage in basis points, rounded down.
pub open spec fn slash_amount(total_stake: u128, config: EquivocationConfig) -> int {
    total_stake * config.slash_percentage / 10000
}

/// Calculate slash amount based on configuration.
pub fn calculate_slash_amount(total_stake: u128, config: &EquivocationConfig) -> (amount: u128)
    requires
        total_stake * config.slash_percentage <= u128::MAX,
    ensures
        amount == slash_amount(total_stake, *config),
{
    total_stake * (config.slash_percentage as u128) / 10000
}

/// Whether the grace period after an equivocation has passed.
pub open spec fn grace_period_over(
    equivocation_block: u32,
    current_block: u32,
    config: EquivocationConfig,
) -> bool {
    current_block >= equivocation_block + config.grace_period
}

/// Check if enough time has passed for slashing.
pub fn is_past_grace_period(
    equivocation_block: u32,
    current_block: u32,
    config: &EquivocationConfig,
) -> (past: bool)
    ensures
        past == grace_period_over(equivocation_block, current_block, *config),
{
    current_block as u64 >= equivocation_block as u64 + config.grace_period as u64
}

/// Two blocks of one author in one slot with different hashes are an
/// equivocation: where the first is taken in and its slot is still tracked,
/// the second gives a proof that names the author, the slot, the hash of the
/// first and the second header itself.
pub proof fn lemma_conflicting_blocks_are_detected(
    detector: DetectorModel,
    first: HeaderModel,
    second: HeaderModel,
    slot: u64,
    author: Seq<u8>,
    session_index: u32,
)
    requires
        first.hash != second.hash,
        detector.check(first, slot, author, session_index).1 is None,
        detector.check(first, slot, author, session_index).0.slots.contains_key(slot),
    ensures
        detector.check(first, slot, author, session_index).0.check(
            second,
            slot,
            author,
            session_index,
        ).1 matches Some(evidence) && evidence.slot == slot && evidence.offender == author
            && evidence.first_header.hash == first.hash && evidence.second_header == second,
{
    let seen = detector.seen_in(slot);
    lemma_first_conflict(seen, first.hash, author);
    let added = Observation { header: first, author };
    let after = detector.check(first, slot, author, session_index).0;
    let seen_after = after.seen_in(slot);
    assert(seen_after == seen.push(added));
    lemma_first_conflict(seen_after, second.hash, author);
    assert(conflicts(seen_after[seen.len() as int], second.hash, author));
    let at = first_conflict(seen_after, second.hash, author)->0;
    if at < seen.len() {
        assert(seen_after[at] == seen[at]);
    }
}

/// A detector with room in its index takes in the first block of a slot
/// and keeps the slot.
pub proof fn lemma_first_block_is_kept(
    detector: DetectorModel,
    first: HeaderModel,
    slot: u64,
    author: Seq<u8>,
    session_index: u32,
)
    requires
        detector.slots.dom().finite(),
        detector.slots.dom().len() < MAX_SLOTS,
        detector.seen_in(slot).len() == 0,
    ensures
        detector.check(first, slot, author, session_index).1 is None,
        detector.check(first, slot, author, session_index).0.slots.contains_key(slot),
{
    let seen = detector.seen_in(slot);
    let added = Observation { header: first, author };
    let grown = detector.slots.insert(slot, seen.push(added));
    assert(grown.dom() =~= detector.slots.dom().insert(slot));
}

/// The same block seen twice is no equivocation, neither the first time
/// nor the second, whatever other blocks by other authors the slot holds.
pub proof fn lemma_same_block_is_no_equivocation(
    detector: DetectorModel,
    header: HeaderModel,
    slot: u64,
    author: Seq<u8>,
    session_index: u32,
)
    requires
        detector.slots.dom().finite(),
        forall|i: int|
            0 <= i < detector.seen_in(slot).len() ==> !conflicts(
                #[trigger] detector.seen_in(slot)[i],
                header.hash,
                author,
            ),
    ensures
        detector.check(header, slot, author, session_index).1 is None,
        detector.check(header, slot, author, session_index).0.check(
            header,
            slot,
            author,
            session_index,
        ).1 is None,
{
    let seen = detector.seen_in(slot);
    lemma_first_conflict(seen, header.hash, author);
    let added = Observation { header, author };
    let after = detector.check(header, slot, author, session_index).0;
    let seen_after = after.seen_in(slot);
    lemma_first_conflict(seen_after, header.hash, author);
    let grown = detector.slots.insert(slot, seen.push(added));
    if after.slots.contains_key(slot) {
        assert(seen_after == seen.push(added));
        assert forall|i: int| 0 <= i < seen_after.len() implies !conflicts(
            seen_after[i],
            header.hash,
            author,
        ) by {
            if i < seen.len() {
                assert(seen_after[i] == seen[i]);
            }
        }
    }
}

/// A new session empties the report list, the offender table and the slot
/// index, so that no authority can be slashed right after it.
pub proof fn lemma_new_session_is_empty(config: EquivocationConfig, authority: Seq<u8>)
    ensures
        (DetectorModel { slots: Map::empty(), session: SessionModel::empty(), config }).session.reports.len()
            == 0,
        !(DetectorModel { slots: Map::empty(), session: SessionModel::empty(), config }).slashable(
            authority,
        ),
        (DetectorModel { slots: Map::empty(), session: SessionModel::empty(), config }).seen_in(0)
            == Seq::<Observation>::empty(),
{
    lemma_position_of(Seq::empty(), authority);
}

/// Recording keeps both session tables within their capacity of 100 entries.
pub proof fn lemma_record_keeps_bounds(session: SessionModel, report: ReportModel, max_reports: u32)
    requires
        session.bounded(),
    ensures
        session.record(report, max_reports).bounded(),
        session.record(report, max_reports).reports.len() <= session.reports.len() + 1,
        session.record(report, max_reports).offender_counts.len() <= session.offender_counts.len()
            + 1,
{
    lemma_position_of(session.offender_counts, report.offender);
}

/// The oldest of a set of slots that is finite and not empty is one of them.
pub proof fn lemma_oldest_exists(slots: Set<u64>)
    requires
        slots.finite(),
        slots.len() > 0,
    ensures
        is_oldest(slots, oldest_of(slots)),
    decreases slots.len(),
{
    let any = slots.choose();
    let rest = slots.remove(any);
    if rest.len() == 0 {
        assert forall|other: u64| slots.contains(other) implies any <= other by {
            if other != any {
                assert(rest.contains(other));
            }
        }
        assert(is_oldest(slots, any));
    } else {
        lemma_oldest_exists(rest);
        let least = oldest_of(rest);
        let candidate = if any <= least {
            any
        } else {
            least
        };
        assert forall|other: u64| slots.contains(other) implies candidate <= other by {
            if other != any {
                assert(rest.contains(other));
            }
        }
        assert(is_oldest(slots, candidate));
    }
}

/// A check keeps the detector well formed: the session tables stay within
/// 100 entries and the index within 1000 slots.
pub proof fn lemma_check_keeps_well_formed(
    detector: DetectorModel,
    header: HeaderModel,
    slot: u64,
    author: Seq<u8>,
    session_index: u32,
)
    requires
        detector.well_formed(),
    ensures
        detector.check(header, slot, author, session_index).0.well_formed(),
{
    let seen = detector.seen_in(slot);
    match first_conflict(seen, header.hash, author) {
        Some(at) => {
            lemma_record_keeps_bounds(
                detector.session,
                ReportModel {
                    offender: author,
                    slot,
                    block_number: reported_number(header.number),
                    session_index,
                },
                detector.config.max_reports_per_session,
            );
        },
        None => {
            let grown = detector.slots.insert(slot, seen.push(Observation { header, author }));
            assert(grown.dom() =~= detector.slots.dom().insert(slot));
            if grown.dom().len() > MAX_SLOTS {
                lemma_oldest_exists(grown.dom());
                assert(grown.remove(oldest_of(grown.dom())).dom() =~= grown.dom().remove(
                    oldest_of(grown.dom()),
                ));
            }
        },
    }
}

} // verus!
