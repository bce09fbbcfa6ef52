//! Finds the authority-set change that a header announces.
//!
//! The finality gadget writes its announcements into the header's digest as
//! consensus log entries under its own engine tag. Only the first entry that
//! announces a scheduled change counts; every other entry is passed over.
//!
//! What the bytes of a log entry mean is the finality gadget's business: the
//! entry is decoded by the gadget's own crate, and this module takes the
//! decoded log as it comes.

use crate::authorities::BlockNumber;
use crate::change::{ScheduledChange, ScheduledChangeView};
use crate::header::{ConsensusEngineId, DigestItem, DigestItemView, Header, HeaderView};
use parity_scale_codec::Decode;
use sp_finality_grandpa::ConsensusLog;
use vstd::prelude::*;

verus! {

/// The engine tag of the finality gadget: the ASCII letters `FRNK`.
pub const GRANDPA_ENGINE_ID: ConsensusEngineId = [0x46, 0x52, 0x4e, 0x4b];

/// A consensus log entry of the finality gadget.
#[derive(Clone, Debug, PartialEq, Eq)]
pub enum GrandpaLog {
    /// A change of the authority set is scheduled.
    ScheduledChange(ScheduledChange),
    /// A change of the authority set is forced; the number is the median of
    /// the heights that the authorities last finalized.
    ForcedChange(BlockNumber, ScheduledChange),
    /// The authority with this index is disabled until the next change.
    OnDisabled(u64),
    /// The authority set pauses after this delay.
    Pause(BlockNumber),
    /// The authority set resumes after this delay.
    Resume(BlockNumber),
}

/// What a [`GrandpaLog`] stands for.
pub enum GrandpaLogView {
    ScheduledChange(ScheduledChangeView),
    ForcedChange(BlockNumber, ScheduledChangeView),
    OnDisabled(u64),
    Pause(BlockNumber),
    Resume(BlockNumber),
}

impl View for GrandpaLog {
    type V = GrandpaLogView;

    open spec fn view(&self) -> GrandpaLogView {
        match *self {
            GrandpaLog::ScheduledChange(change) => GrandpaLogView::ScheduledChange(change@),
            GrandpaLog::ForcedChange(median, change) => GrandpaLogView::ForcedChange(
                median,
                change@,
            ),
            GrandpaLog::OnDisabled(index) => GrandpaLogView::OnDisabled(index),
            GrandpaLog::Pause(delay) => GrandpaLogView::Pause(delay),
            GrandpaLog::Resume(delay) => GrandpaLogView::Resume(delay),
        }
    }
}

/// What an optional log stands for.
pub open spec fn log_view(log: Option<GrandpaLog>) -> Option<GrandpaLogView> {
    match log {
        Some(log) => Some(log@),
        None => None,
    }
}

/// The log that the finality gadget's crate decodes from the beginning of
/// `data`, if it decodes one.
pub uninterp spec fn decoded_grandpa_log(data: Seq<u8>) -> Option<GrandpaLogView>;

/// Decodes a consensus log of the finality gadget: a call of
/// `<sp_finality_grandpa::ConsensusLog<u32> as parity_scale_codec::Decode>::decode`
/// on `data`, whose result is handed on variant by variant, with each
/// authority's public key as its 32 bytes.
///
/// Nothing of this is proved. It is taken from the decoder that
/// - what it returns depends on the bytes of `data` alone, so that the
///   result has a name, [`decoded_grandpa_log`], with an error as none;
/// - the authorities of a scheduled change that it returns are no more than
///   `u32::MAX`: the decoder reads the length of a list as a compact `u32`
///   and then reads exactly that many items.
#[verifier::external_body]
fn decode_grandpa_log(data: &[u8]) -> (log: Option<GrandpaLog>)
    ensures
        log_view(log) == decoded_grandpa_log(data@),
        log matches Some(GrandpaLog::ScheduledChange(change)) ==> change@.encodable(),
{
    let own = |c: sp_finality_grandpa::ScheduledChange<u32>| ScheduledChange {
        next_authorities: c.next_authorities.into_iter().map(|(id, weight)| (sp_core::ed25519::Public::from(id).0, weight)).collect(),
        delay: c.delay,
    };
    match ConsensusLog::<u32>::decode(&mut &data[..]) {
        Ok(ConsensusLog::ScheduledChange(change)) => Some(GrandpaLog::ScheduledChange(own(change))),
        Ok(ConsensusLog::ForcedChange(median, change)) => Some(GrandpaLog::ForcedChange(median, own(change))),
        Ok(ConsensusLog::OnDisabled(index)) => Some(GrandpaLog::OnDisabled(index)),
        Ok(ConsensusLog::Pause(delay)) => Some(GrandpaLog::Pause(delay)),
        Ok(ConsensusLog::Resume(delay)) => Some(GrandpaLog::Resume(delay)),
        Err(_) => None,
    }
}

/// The change that one digest entry announces: the entry is a consensus
/// message under the tag of the finality gadget, and the log that it decodes
/// to schedules a change.
pub open spec fn announced_change(item: DigestItemView) -> Option<ScheduledChangeView> {
    match item {
        DigestItemView::Consensus(engine, data) => if engine == GRANDPA_ENGINE_ID {
            match decoded_grandpa_log(data) {
                Some(GrandpaLogView::ScheduledChange(change)) => Some(change),
                _ => None,
            }
        } else {
            None
        },
        _ => None,
    }
}

/// The change announced by the first entry from index `from` on that
/// announces one.
pub open spec fn first_announced_change_from(logs: Seq<DigestItemView>, from: int) -> Option<
    ScheduledChangeView,
>
    decreases logs.len() - from,
{
    if from < 0 || from >= logs.len() {
        None
    } else {
        match announced_change(logs[from]) {
            Some(change) => Some(change),
            None => first_announced_change_from(logs, from + 1),
        }
    }
}

impl HeaderView {
    /// The scheduled change that this header announces: that of the first
    /// digest entry that announces one.
    pub open spec fn scheduled_change(self) -> Option<ScheduledChangeView> {
        first_announced_change_from(self.digest, 0)
    }
}

/// The announced change is that of some entry before which no entry
/// announces one; and where none is announced, no entry announces one.
pub proof fn lemma_first_announced_change(logs: Seq<DigestItemView>, from: int)
    requires
        0 <= from,
    ensures
        match first_announced_change_from(logs, from) {
            Some(change) => exists|i: int|
                {
                    &&& from <= i < logs.len()
                    &&& #[trigger] announced_change(logs[i]) == Some(change)
                    &&& forall|j: int| from <= j < i ==> announced_change(logs[j]) is None
                },
            None => forall|i: int| from <= i < logs.len() ==> announced_change(logs[i]) is None,
        },
    decreases logs.len() - from,
{
    if from < logs.len() {
        match announced_change(logs[from]) {
            Some(change) => {
                assert(announced_change(logs[from]) == Some(change));
            },
            None => {
                lemma_first_announced_change(logs, from + 1);
                match first_announced_change_from(logs, from + 1) {
                    Some(change) => {
                        let i = choose|i: int|
                            {
                                &&& from + 1 <= i < logs.len()
                                &&& #[trigger] announced_change(logs[i]) == Some(change)
                                &&& forall|j: int|
                                    from + 1 <= j < i ==> announced_change(logs[j]) is None
                            };
                        assert(announced_change(logs[i]) == Some(change));
                    },
                    None => {},
                }
            },
        }
    }
}

/// Whether `engine` is the tag of the finality gadget.
fn is_grandpa(engine: &ConsensusEngineId) -> (r: bool)
    ensures
        r == (*engine == GRANDPA_ENGINE_ID),
{
    let r = engine[0] == 0x46 && engine[1] == 0x52 && engine[2] == 0x4e && engine[3] == 0x4b;
    proof {
        if r {
            assert(*engine =~= GRANDPA_ENGINE_ID);
        }
    }
    r
}

/// Picks the scheduled change out of a decoded log: every other kind of log
/// announces none.
pub fn scheduled_change_of(log: Option<GrandpaLog>) -> (r: Option<ScheduledChange>)
    ensures
        match r {
            Some(change) => log_view(log) == Some(GrandpaLogView::ScheduledChange(change@)),
            None => !(log_view(log) matches Some(GrandpaLogView::ScheduledChange(_))),
        },
{
    match log {
        Some(GrandpaLog::ScheduledChange(change)) => Some(change),
        _ => None,
    }
}

/// Reads the change that one digest entry announces.
pub fn read_announced_change(item: &DigestItem) -> (r: Option<ScheduledChange>)
    ensures
        match r {
            Some(change) => announced_change(item@) == Some(change@) && change@.encodable(),
            None => announced_change(item@) is None,
        },
{
    match item {
        DigestItem::Consensus(engine, data) => {
            if is_grandpa(engine) {
                scheduled_change_of(decode_grandpa_log(data.as_slice()))
            } else {
                None
            }
        },
        _ => None,
    }
}

/// The scheduled change that `header` announces, if it announces one: the
/// first digest entry that announces one decides, and every other entry is
/// passed over.
pub fn find_scheduled_change(header: &Header) -> (r: Option<ScheduledChange>)
    ensures
        match r {
            Some(change) => header@.scheduled_change() == Some(change@) && change@.encodable(),
            None => header@.scheduled_change() is None,
        },
{
    let ghost logs = header@.digest;
    let mut i: usize = 0;
    while i < header.digest.len()
        invariant
            i <= header.digest.len(),
            logs == header@.digest,
            logs.len() == header.digest@.len(),
            first_announced_change_from(logs, 0) == first_announced_change_from(logs, i as int),
        decreases header.digest.len() - i,
    {
        assert(logs[i as int] == header.digest@[i as int]@);
        match read_announced_change(&header.digest[i]) {
            Some(change) => {
                return Some(change);
            },
            None => {},
        }
        i += 1;
    }
    None
}

} // verus!
