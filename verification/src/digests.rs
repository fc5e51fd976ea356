//! Digest items of the engine: the slot before the block runs, the seal after.

use vstd::prelude::*;
use parity_scale_codec::{Decode, Encode};
use sp_consensus_slots::Slot;

verus! {

/// The name of a consensus engine in a digest.
pub type ConsensusEngineId = [u8; 4];

/// The engine id of this engine: `micc`.
pub const MICC_ENGINE_ID: ConsensusEngineId = [109, 105, 99, 99];

/// Whether `id` names this engine.
pub open spec fn is_micc(id: ConsensusEngineId) -> bool {
    id[0] == 109 && id[1] == 105 && id[2] == 99 && id[3] == 99
}

/// Tells whether `id` names this engine.
pub fn names_micc(id: &ConsensusEngineId) -> (named: bool)
    ensures
        named == is_micc(*id),
{
    id[0] == 109 && id[1] == 105 && id[2] == 99 && id[3] == 99
}

/// The number that bytes stand for, lowest byte first.
pub open spec fn little_endian(bytes: Seq<u8>) -> int
    decreases bytes.len(),
{
    if bytes.len() == 0 {
        0
    } else {
        bytes[0] + 256 * little_endian(bytes.drop_first())
    }
}

/// The slot that `data` encodes: its first eight bytes, lowest first. Fewer
/// bytes encode no slot.
pub open spec fn decoded_slot(data: Seq<u8>) -> Option<int> {
    if data.len() >= 8 {
        Some(little_endian(data.take(8)))
    } else {
        None
    }
}

/// `Encode::encode` of `sp_consensus_slots::Slot`: the eight bytes of the
/// slot number, lowest first.
#[verifier::external_body]
pub(crate) fn encode_slot(slot: u64) -> (bytes: Vec<u8>)
    ensures
        bytes@.len() == 8,
        little_endian(bytes@) == slot,
{
    Slot::from(slot).encode()
}

/// `Decode::decode` of `sp_consensus_slots::Slot` on a byte slice: the slot
/// number in the first eight bytes, lowest first; an error, given here as
/// none, if there are fewer than eight. Bytes beyond the eighth are left unread.
#[verifier::external_body]
pub(crate) fn decode_slot(data: &Vec<u8>) -> (slot: Option<u64>)
    ensures
        slot is Some == decoded_slot(data@) is Some,
        slot matches Some(s) ==> decoded_slot(data@) == Some(s as int),
{
    Slot::decode(&mut &data[..]).ok().map(u64::from)
}

/// An item of a block header's digest.
#[derive(Debug)]
pub enum DigestItem {
    /// A message from the consensus engine to the runtime, set before the block runs.
    PreRuntime(ConsensusEngineId, Vec<u8>),
    /// A message from the runtime to the consensus engine.
    Consensus(ConsensusEngineId, Vec<u8>),
    /// The seal of the block's author.
    Seal(ConsensusEngineId, Vec<u8>),
    /// Any other data.
    Other(Vec<u8>),
    /// The runtime's environment was updated.
    RuntimeEnvironmentUpdated,
}

/// A digest item, as a mathematical value.
pub enum DigestModel {
    /// A message from the consensus engine to the runtime.
    PreRuntime(ConsensusEngineId, Seq<u8>),
    /// A message from the runtime to the consensus engine.
    Consensus(ConsensusEngineId, Seq<u8>),
    /// The seal of the block's author.
    Seal(ConsensusEngineId, Seq<u8>),
    /// Any other data.
    Other(Seq<u8>),
    /// The runtime's environment was updated.
    RuntimeEnvironmentUpdated,
}

impl View for DigestItem {
    type V = DigestModel;

    open spec fn view(&self) -> DigestModel {
        match self {
            DigestItem::PreRuntime(id, data) => DigestModel::PreRuntime(*id, data@),
            DigestItem::Consensus(id, data) => DigestModel::Consensus(*id, data@),
            DigestItem::Seal(id, data) => DigestModel::Seal(*id, data@),
            DigestItem::Other(data) => DigestModel::Other(data@),
            DigestItem::RuntimeEnvironmentUpdated => DigestModel::RuntimeEnvironmentUpdated,
        }
    }
}

impl DigestModel {
    /// The slot that the item names, if it is a pre-runtime digest of this
    /// engine that encodes one.
    pub open spec fn pre_digest_slot(self) -> Option<int> {
        match self {
            DigestModel::PreRuntime(id, data) => if is_micc(id) {
                decoded_slot(data)
            } else {
                None
            },
            _ => None,
        }
    }

    /// The encoded signature that the item carries, if it is a seal of this engine.
    pub open spec fn seal_data(self) -> Option<Seq<u8>> {
        match self {
            DigestModel::Seal(id, data) => if is_micc(id) {
                Some(data)
            } else {
                None
            },
            _ => None,
        }
    }
}

impl DigestItem {
    /// Construct a digest item which contains an encoded signature.
    pub fn micc_seal(signature: Vec<u8>) -> (item: Self)
        ensures
            item@ == DigestModel::Seal(MICC_ENGINE_ID, signature@),
            item@.seal_data() == Some(signature@),
    {
        DigestItem::Seal(MICC_ENGINE_ID, signature)
    }

    /// If this item is a seal of this engine, return the encoded signature.
    pub fn as_micc_seal(&self) -> (signature: Option<&Vec<u8>>)
        ensures
            signature is Some == self@.seal_data() is Some,
            signature matches Some(s) ==> self@.seal_data() == Some(s@),
    {
        match self {
            DigestItem::Seal(id, data) => if names_micc(id) {
                Some(data)
            } else {
                None
            },
            _ => None,
        }
    }

    /// Construct a digest item which contains the slot number.
    pub fn micc_pre_digest(slot: u64) -> (item: Self)
        ensures
            item@.pre_digest_slot() == Some(slot as int),
            item@ matches DigestModel::PreRuntime(id, data) && id == MICC_ENGINE_ID && data.len()
                == 8,
    {
        let data = encode_slot(slot);
        proof {
            assert(data@.take(8) =~= data@);
        }
        DigestItem::PreRuntime(MICC_ENGINE_ID, data)
    }

    /// If this item is a pre-runtime digest of this engine, return the slot number.
    pub fn as_micc_pre_digest(&self) -> (slot: Option<u64>)
        ensures
            slot is Some == self@.pre_digest_slot() is Some,
            slot matches Some(s) ==> self@.pre_digest_slot() == Some(s as int),
    {
        match self {
            DigestItem::PreRuntime(id, data) => if names_micc(id) {
                decode_slot(data)
            } else {
                None
            },
            _ => None,
        }
    }
}

/// Why the slot of a header could not be found.
#[derive(Debug, Clone, Copy, PartialEq, Eq, Structural)]
pub enum PreDigestLookupError {
    /// Multiple pre-runtime digests of this engine.
    MultipleHeaders,
    /// No pre-runtime digest of this engine.
    NoDigestFound,
}

/// The number of items among `logs` that name a slot of this engine.
pub open spec fn pre_digest_count(logs: Seq<DigestModel>) -> nat
    decreases logs.len(),
{
    if logs.len() == 0 {
        0
    } else {
        pre_digest_count(logs.drop_last()) + if logs.last().pre_digest_slot() is Some {
            1nat
        } else {
            0nat
        }
    }
}

/// The slot that the last item among `logs` with a slot of this engine names.
pub open spec fn last_pre_digest(logs: Seq<DigestModel>) -> Option<int>
    decreases logs.len(),
{
    if logs.len() == 0 {
        None
    } else if logs.last().pre_digest_slot() is Some {
        logs.last().pre_digest_slot()
    } else {
        last_pre_digest(logs.drop_last())
    }
}

/// The slot of a header: slot 0 for the genesis block; else the slot of its
/// one pre-runtime digest of this engine.
pub open spec fn header_slot(number: u64, logs: Seq<DigestModel>) -> Result<
    int,
    PreDigestLookupError,
> {
    if number == 0 {
        Ok(0)
    } else if pre_digest_count(logs) > 1 {
        Err(PreDigestLookupError::MultipleHeaders)
    } else if pre_digest_count(logs) == 0 {
        Err(PreDigestLookupError::NoDigestFound)
    } else {
        Ok(last_pre_digest(logs)->0)
    }
}

/// The digest items of a header, as mathematical values.
pub open spec fn digest_views(logs: Seq<DigestItem>) -> Seq<DigestModel> {
    logs.map_values(|item: DigestItem| item@)
}

/// Get the slot of a header with the given number and digest.
pub fn find_pre_digest(number: u64, logs: &Vec<DigestItem>) -> (slot: Result<
    u64,
    PreDigestLookupError,
>)
    ensures
        match header_slot(number, digest_views(logs@)) {
            Ok(found) => slot matches Ok(s) && s == found,
            Err(error) => slot == Err::<u64, PreDigestLookupError>(error),
        },
{
    if number == 0 {
        return Ok(0);
    }
    let ghost views = digest_views(logs@);
    let mut pre_digest: Option<u64> = None;
    let mut i: usize = 0;
    while i < logs.len()
        invariant
            number != 0,
            i <= logs.len(),
            views == digest_views(logs@),
            pre_digest_count(views.take(i as int)) <= 1,
            pre_digest is Some <==> pre_digest_count(views.take(i as int)) == 1,
            pre_digest matches Some(s) ==> last_pre_digest(views.take(i as int)) == Some(
                s as int,
            ),
        decreases logs.len() - i,
    {
        let found = logs[i].as_micc_pre_digest();
        proof {
            let next = views.take(i + 1);
            assert(next.drop_last() =~= views.take(i as int));
            assert(next.last() == logs@[i as int]@);
        }
        match found {
            Some(slot) => {
                if pre_digest.is_some() {
                    proof {
                        assert(pre_digest_count(views.take(i + 1)) == 2);
                        lemma_pre_digest_count_grows(views, i + 1);
                    }
                    return Err(PreDigestLookupError::MultipleHeaders);
                }
                pre_digest = Some(slot);
            },
            None => {},
        }
        i += 1;
    }
    proof {
        assert(views.take(i as int) =~= views);
    }
    match pre_digest {
        Some(slot) => Ok(slot),
        None => Err(PreDigestLookupError::NoDigestFound),
    }
}

/// Taking more items never lowers the count of pre-runtime digests.
pub proof fn lemma_pre_digest_count_grows(logs: Seq<DigestModel>, upto: int)
    requires
        0 <= upto <= logs.len(),
    ensures
        pre_digest_count(logs.take(upto)) <= pre_digest_count(logs),
    decreases logs.len() - upto,
{
    if upto < logs.len() {
        lemma_pre_digest_count_grows(logs, upto + 1);
        assert(logs.take(upto + 1).drop_last() =~= logs.take(upto));
    } else {
        assert(logs.take(upto) =~= logs);
    }
}

/// A pre-runtime digest made for a slot is read back as that slot.
pub proof fn lemma_pre_digest_round_trip(slot: u64, data: Seq<u8>)
    requires
        data.len() == 8,
        little_endian(data) == slot,
    ensures
        DigestModel::PreRuntime(MICC_ENGINE_ID, data).pre_digest_slot() == Some(slot as int),
{
    assert(data.take(8) =~= data);
}

} // verus!
