//! The bounded tables of a session, kept in `bounded_collections::BoundedVec`.
//!
//! Nothing in this file is proved: each function states what the outside
//! collection does, as its source shows it.

use vstd::prelude::*;
use bounded_collections::{BoundedVec, ConstU32};
use std::collections::BTreeMap;
use crate::equivocation::{EquivocationReport, StoredBlock};

verus! {

/// The most entries that a session table holds.
pub const SESSION_CAPACITY: usize = 100;

#[verifier::external_type_specification]
#[verifier::external_body]
#[verifier::reject_recursive_types(T)]
#[verifier::reject_recursive_types(S)]
pub struct ExBoundedVec<T, S>(BoundedVec<T, S>);

#[verifier::external_type_specification]
#[verifier::external_body]
pub struct ExConstU32<const N: u32>(ConstU32<N>);

/// The list of reports of a session: at most 100.
pub type ReportList = BoundedVec<EquivocationReport, ConstU32<100>>;

/// The offenders of a session with their counts: at most 100.
pub type OffenderCounts = BoundedVec<(Vec<u8>, u32), ConstU32<100>>;

/// The reports that a report list holds, in the order in which they were pushed.
pub uninterp spec fn reports_of(list: ReportList) -> Seq<EquivocationReport>;

/// The entries that an offender table holds, in the order in which they were pushed.
pub uninterp spec fn counts_of(table: OffenderCounts) -> Seq<(Vec<u8>, u32)>;

/// `BoundedVec::new`: a list that holds nothing.
#[verifier::external_body]
pub(crate) fn reports_new() -> (list: ReportList)
    ensures
        reports_of(list) == Seq::<EquivocationReport>::empty(),
{
    BoundedVec::new()
}

/// `Vec::len` through `BoundedVec`'s `Deref`: the number of reports held.
#[verifier::external_body]
pub(crate) fn reports_len(list: &ReportList) -> (len: usize)
    ensures
        len == reports_of(*list).len(),
{
    list.len()
}

/// `BoundedVec::try_push`: below the bound the report is appended, at the
/// bound the list stays as it is. The result tells which.
#[verifier::external_body]
pub(crate) fn reports_try_push(list: &mut ReportList, report: EquivocationReport) -> (pushed: bool)
    ensures
        pushed == (reports_of(*old(list)).len() < SESSION_CAPACITY),
        reports_of(*final(list)) == if pushed {
            reports_of(*old(list)).push(report)
        } else {
            reports_of(*old(list))
        },
{
    list.try_push(report).is_ok()
}

/// `BoundedVec::new`: a table that holds nothing.
#[verifier::external_body]
pub(crate) fn counts_new() -> (table: OffenderCounts)
    ensures
        counts_of(table) == Seq::<(Vec<u8>, u32)>::empty(),
{
    BoundedVec::new()
}

/// `Vec::len` through `BoundedVec`'s `Deref`: the number of entries held.
#[verifier::external_body]
pub(crate) fn counts_len(table: &OffenderCounts) -> (len: usize)
    ensures
        len == counts_of(*table).len(),
{
    table.len()
}

/// `BoundedVec::try_push`: below the bound the entry is appended, at the
/// bound the table stays as it is. The result tells which.
#[verifier::external_body]
pub(crate) fn counts_try_push(table: &mut OffenderCounts, entry: (Vec<u8>, u32)) -> (pushed: bool)
    ensures
        pushed == (counts_of(*old(table)).len() < SESSION_CAPACITY),
        counts_of(*final(table)) == if pushed {
            counts_of(*old(table)).push(entry)
        } else {
            counts_of(*old(table))
        },
{
    table.try_push(entry).is_ok()
}

/// `Index::index` of `BoundedVec`: the entry at `index`.
#[verifier::external_body]
pub(crate) fn counts_get(table: &OffenderCounts, index: usize) -> (entry: &(Vec<u8>, u32))
    requires
        index < counts_of(*table).len(),
    ensures
        *entry == counts_of(*table)[index as int],
{
    &table[index]
}

/// `IndexMut::index_mut` of `BoundedVec`: the count at `index` is replaced,
/// the offender and every other entry stay.
#[verifier::external_body]
pub(crate) fn counts_set(table: &mut OffenderCounts, index: usize, count: u32)
    requires
        index < counts_of(*old(table)).len(),
    ensures
        counts_of(*final(table)) == counts_of(*old(table)).update(
            index as int,
            (counts_of(*old(table))[index as int].0, count),
        ),
{
    table[index].1 = count;
}

/// The timestamps of an account's recent transactions: at most 100.
pub type StampList = BoundedVec<u64, ConstU32<100>>;

/// The timestamps that a list holds, in the order in which they were pushed.
pub uninterp spec fn stamps_of(list: StampList) -> Seq<u64>;

/// `BoundedVec::new`: a list that holds nothing.
#[verifier::external_body]
pub(crate) fn stamps_new() -> (list: StampList)
    ensures
        stamps_of(list) == Seq::<u64>::empty(),
{
    BoundedVec::new()
}

/// `Vec::len` through `BoundedVec`'s `Deref`: the number of timestamps held.
#[verifier::external_body]
pub(crate) fn stamps_len(list: &StampList) -> (len: usize)
    ensures
        len == stamps_of(*list).len(),
{
    list.len()
}

/// `BoundedVec::try_push`: below the bound the timestamp is appended, at the
/// bound the list stays as it is. The result tells which.
#[verifier::external_body]
pub(crate) fn stamps_try_push(list: &mut StampList, stamp: u64) -> (pushed: bool)
    ensures
        pushed == (stamps_of(*old(list)).len() < SESSION_CAPACITY),
        stamps_of(*final(list)) == if pushed {
            stamps_of(*old(list)).push(stamp)
        } else {
            stamps_of(*old(list))
        },
{
    list.try_push(stamp).is_ok()
}

/// `BoundedVec::retain`: the timestamps after `cutoff` stay, in their order.
#[verifier::external_body]
pub(crate) fn stamps_retain_after(list: &mut StampList, cutoff: u64)
    ensures
        stamps_of(*final(list)) == stamps_of(*old(list)).filter(
            |stamp: u64| crate::rate_limit::is_after(stamp, cutoff),
        ),
{
    list.retain(|stamp| crate::rate_limit::comes_after(*stamp, cutoff));
}

/// `BTreeMap::first_key_value`: the least key of the map, none if it is empty.
#[verifier::external_body]
pub(crate) fn oldest_slot(slots: &BTreeMap<u64, Vec<StoredBlock>>) -> (oldest: Option<u64>)
    ensures
        match oldest {
            Some(slot) => slots@.contains_key(slot) && forall|other: u64|
                slots@.contains_key(other) ==> slot <= other,
            None => slots@.dom() == Set::<u64>::empty(),
        },
{
    slots.first_key_value().map(|first| *first.0)
}

} // verus!
