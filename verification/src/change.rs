//! Announced and pending changes of the authority set.
//!
//! A [`ScheduledChange`] is what a header announces: the next authorities and
//! a delay in blocks. A [`NextChangeInAuthority`] is an announcement bound to
//! the height at which it takes effect; it is what the tracker keeps pending.

use crate::authorities::{
    authorities_bytes, encodable, is_encodable, lemma_authorities_unique, lemma_holds_at_concat,
    read_authorities, write_authorities, AuthorityId, AuthorityList, AuthorityWeight, BlockNumber,
};
use crate::scale::{holds_at, lemma_u32_le_injective, read_u32, u32_le, write_u32};
use vstd::prelude::*;

verus! {

/// An announcement of the authority set that is to follow, `delay` blocks
/// after the block that carries it.
#[derive(Clone, Debug, PartialEq, Eq)]
pub struct ScheduledChange {
    /// The authorities to install, in voting order.
    pub next_authorities: AuthorityList,
    /// How many blocks after the announcing block the change takes effect.
    pub delay: BlockNumber,
}

/// What a [`ScheduledChange`] stands for.
pub struct ScheduledChangeView {
    pub next_authorities: Seq<(AuthorityId, AuthorityWeight)>,
    pub delay: BlockNumber,
}

impl View for ScheduledChange {
    type V = ScheduledChangeView;

    open spec fn view(&self) -> ScheduledChangeView {
        ScheduledChangeView { next_authorities: self.next_authorities@, delay: self.delay }
    }
}

/// What an optional scheduled change stands for.
pub open spec fn scheduled_change_view(change: Option<ScheduledChange>) -> Option<
    ScheduledChangeView,
> {
    match change {
        Some(change) => Some(change@),
        None => None,
    }
}

impl ScheduledChangeView {
    /// The change has a wire form: its authorities fit a length prefix.
    pub open spec fn encodable(self) -> bool {
        encodable(self.next_authorities)
    }

    /// The wire form: the authority list, then the delay.
    pub open spec fn encoding(self) -> Seq<u8> {
        authorities_bytes(self.next_authorities) + u32_le(self.delay)
    }

    /// The wire form of this change stands in `bytes` at `pos`.
    pub open spec fn stands_at(self, bytes: Seq<u8>, pos: int) -> bool {
        self.encodable() && holds_at(bytes, pos, self.encoding())
    }

    /// The change whose wire form stands in `bytes` at `pos`, if there is one.
    /// What follows the wire form is not looked at.
    pub open spec fn decoded_at(bytes: Seq<u8>, pos: int) -> Option<ScheduledChangeView> {
        if exists|change: ScheduledChangeView| change.stands_at(bytes, pos) {
            Some(choose|change: ScheduledChangeView| change.stands_at(bytes, pos))
        } else {
            None
        }
    }

    /// At most one change stands at a position.
    pub proof fn lemma_unique(bytes: Seq<u8>, pos: int, a: ScheduledChangeView, b: ScheduledChangeView)
        requires
            a.stands_at(bytes, pos),
            b.stands_at(bytes, pos),
        ensures
            a == b,
    {
        let la = authorities_bytes(a.next_authorities);
        let lb = authorities_bytes(b.next_authorities);
        lemma_holds_at_concat(bytes, pos, la, u32_le(a.delay));
        lemma_holds_at_concat(bytes, pos, lb, u32_le(b.delay));
        lemma_authorities_unique(bytes, pos, a.next_authorities, b.next_authorities);
        assert(u32_le(a.delay) =~= u32_le(b.delay));
        lemma_u32_le_injective(a.delay, b.delay);
    }

    /// A change that stands at a position is the one decoded there.
    pub proof fn lemma_decoded(self, bytes: Seq<u8>, pos: int)
        requires
            self.stands_at(bytes, pos),
        ensures
            Self::decoded_at(bytes, pos) == Some(self),
    {
        let found = choose|change: ScheduledChangeView| change.stands_at(bytes, pos);
        Self::lemma_unique(bytes, pos, self, found);
    }

    /// Decoding gives back what was encoded, whatever bytes follow.
    pub proof fn lemma_round_trip(self, rest: Seq<u8>)
        requires
            self.encodable(),
        ensures
            Self::decoded_at(self.encoding() + rest, 0) == Some(self),
    {
        let bytes = self.encoding() + rest;
        assert(bytes.subrange(0, self.encoding().len() as int) =~= self.encoding());
        self.lemma_decoded(bytes, 0);
    }
}

impl ScheduledChange {
    /// Whether this change has a wire form.
    pub fn is_encodable(&self) -> (r: bool)
        ensures
            r == self@.encodable(),
    {
        is_encodable(&self.next_authorities)
    }

    /// Appends the wire form of this change.
    pub fn encode_to(&self, out: &mut Vec<u8>)
        requires
            self@.encodable(),
        ensures
            final(out)@ == old(out)@ + self@.encoding(),
    {
        write_authorities(&self.next_authorities, out);
        write_u32(self.delay, out);
        assert(out@ =~= old(out)@ + self@.encoding());
    }

    /// The wire form of this change.
    pub fn encode(&self) -> (out: Vec<u8>)
        requires
            self@.encodable(),
        ensures
            out@ == self@.encoding(),
    {
        let mut out: Vec<u8> = Vec::new();
        self.encode_to(&mut out);
        assert(out@ =~= self@.encoding());
        out
    }

    /// Reads the change whose wire form stands in `input` at `pos`.
    pub fn decode_at(input: &[u8], pos: usize) -> (r: Option<ScheduledChange>)
        ensures
            match r {
                Some(change) => ScheduledChangeView::decoded_at(input@, pos as int) == Some(change@),
                None => ScheduledChangeView::decoded_at(input@, pos as int) is None,
            },
    {
        proof {
            assert forall|change: ScheduledChangeView| #[trigger]
                change.stands_at(input@, pos as int) implies holds_at(
                input@,
                pos as int,
                authorities_bytes(change.next_authorities),
            ) && holds_at(
                input@,
                pos + authorities_bytes(change.next_authorities).len(),
                u32_le(change.delay),
            ) by {
                lemma_holds_at_concat(
                    input@,
                    pos as int,
                    authorities_bytes(change.next_authorities),
                    u32_le(change.delay),
                );
            }
        }
        let (next_authorities, after): (AuthorityList, usize) = match read_authorities(input, pos) {
            Some(found) => found,
            None => {
                return None;
            },
        };
        proof {
            assert forall|change: ScheduledChangeView| #[trigger]
                change.stands_at(input@, pos as int) implies change.next_authorities
                == next_authorities@ by {
                lemma_authorities_unique(
                    input@,
                    pos as int,
                    change.next_authorities,
                    next_authorities@,
                );
            }
        }
        let delay: BlockNumber = match read_u32(input, after) {
            Some(delay) => delay,
            None => {
                return None;
            },
        };
        let change = ScheduledChange { next_authorities, delay };
        proof {
            lemma_holds_at_concat(
                input@,
                pos as int,
                authorities_bytes(change@.next_authorities),
                u32_le(delay),
            );
            change@.lemma_decoded(input@, pos as int);
        }
        Some(change)
    }

    /// Reads the change whose wire form `input` begins with.
    pub fn decode(input: &[u8]) -> (r: Option<ScheduledChange>)
        ensures
            match r {
                Some(change) => ScheduledChangeView::decoded_at(input@, 0) == Some(change@),
                None => ScheduledChangeView::decoded_at(input@, 0) is None,
            },
    {
        Self::decode_at(input, 0)
    }
}

/// A scheduled change together with the height at which it takes effect.
#[derive(Clone, Debug, PartialEq, Eq)]
pub struct NextChangeInAuthority {
    /// The height of the block at which the change is applied.
    pub effective_at: BlockNumber,
    /// The announced change.
    pub scheduled_change: ScheduledChange,
}

/// What a [`NextChangeInAuthority`] stands for.
pub struct NextChangeInAuthorityView {
    pub effective_at: BlockNumber,
    pub scheduled_change: ScheduledChangeView,
}

impl View for NextChangeInAuthority {
    type V = NextChangeInAuthorityView;

    open spec fn view(&self) -> NextChangeInAuthorityView {
        NextChangeInAuthorityView {
            effective_at: self.effective_at,
            scheduled_change: self.scheduled_change@,
        }
    }
}

/// What an optional change stands for.
pub open spec fn change_view(change: Option<NextChangeInAuthority>) -> Option<
    NextChangeInAuthorityView,
> {
    match change {
        Some(change) => Some(change@),
        None => None,
    }
}

impl NextChangeInAuthorityView {
    /// The record has a wire form: its change has one.
    pub open spec fn encodable(self) -> bool {
        self.scheduled_change.encodable()
    }

    /// The wire form: the effective height, then the change.
    pub open spec fn encoding(self) -> Seq<u8> {
        u32_le(self.effective_at) + self.scheduled_change.encoding()
    }

    /// The wire form of this record stands in `bytes` at `pos`.
    pub open spec fn stands_at(self, bytes: Seq<u8>, pos: int) -> bool {
        self.encodable() && holds_at(bytes, pos, self.encoding())
    }

    /// The record whose wire form `bytes` begins with, if there is one.
    /// What follows the wire form is not looked at.
    pub open spec fn decoded(bytes: Seq<u8>) -> Option<NextChangeInAuthorityView> {
        if exists|change: NextChangeInAuthorityView| change.stands_at(bytes, 0) {
            Some(choose|change: NextChangeInAuthorityView| change.stands_at(bytes, 0))
        } else {
            None
        }
    }

    /// At most one record stands at a position.
    pub proof fn lemma_unique(
        bytes: Seq<u8>,
        pos: int,
        a: NextChangeInAuthorityView,
        b: NextChangeInAuthorityView,
    )
        requires
            a.stands_at(bytes, pos),
            b.stands_at(bytes, pos),
        ensures
            a == b,
    {
        lemma_holds_at_concat(bytes, pos, u32_le(a.effective_at), a.scheduled_change.encoding());
        lemma_holds_at_concat(bytes, pos, u32_le(b.effective_at), b.scheduled_change.encoding());
        assert(u32_le(a.effective_at) =~= u32_le(b.effective_at));
        lemma_u32_le_injective(a.effective_at, b.effective_at);
        ScheduledChangeView::lemma_unique(bytes, pos + 4, a.scheduled_change, b.scheduled_change);
    }

    /// A record that `bytes` begins with is the one decoded from them.
    pub proof fn lemma_decoded(self, bytes: Seq<u8>)
        requires
            self.stands_at(bytes, 0),
        ensures
            Self::decoded(bytes) == Some(self),
    {
        let found = choose|change: NextChangeInAuthorityView| change.stands_at(bytes, 0);
        Self::lemma_unique(bytes, 0, self, found);
    }

    /// Decoding gives back what was encoded, whatever bytes follow.
    pub proof fn lemma_round_trip(self, rest: Seq<u8>)
        requires
            self.encodable(),
        ensures
            Self::decoded(self.encoding() + rest) == Some(self),
    {
        let bytes = self.encoding() + rest;
        assert(bytes.subrange(0, self.encoding().len() as int) =~= self.encoding());
        self.lemma_decoded(bytes);
    }
}

impl NextChangeInAuthority {
    /// Binds a scheduled change to the height at which it takes effect.
    pub fn new(effective_at: BlockNumber, scheduled_change: ScheduledChange) -> (r: Self)
        ensures
            r.effective_at == effective_at,
            r.scheduled_change == scheduled_change,
    {
        NextChangeInAuthority { effective_at, scheduled_change }
    }

    /// Whether this record has a wire form.
    pub fn is_encodable(&self) -> (r: bool)
        ensures
            r == self@.encodable(),
    {
        self.scheduled_change.is_encodable()
    }

    /// The wire form of this record.
    pub fn encode(&self) -> (out: Vec<u8>)
        requires
            self@.encodable(),
        ensures
            out@ == self@.encoding(),
    {
        let mut out: Vec<u8> = Vec::new();
        write_u32(self.effective_at, &mut out);
        self.scheduled_change.encode_to(&mut out);
        assert(out@ =~= self@.encoding());
        out
    }

    /// Reads the record whose wire form `input` begins with.
    pub fn decode(input: &[u8]) -> (r: Option<NextChangeInAuthority>)
        ensures
            match r {
                Some(change) => NextChangeInAuthorityView::decoded(input@) == Some(change@),
                None => NextChangeInAuthorityView::decoded(input@) is None,
            },
    {
        proof {
            assert forall|change: NextChangeInAuthorityView| #[trigger]
                change.stands_at(input@, 0) implies holds_at(input@, 0, u32_le(change.effective_at))
                && change.scheduled_change.stands_at(input@, 4) by {
                lemma_holds_at_concat(
                    input@,
                    0,
                    u32_le(change.effective_at),
                    change.scheduled_change.encoding(),
                );
            }
        }
        let effective_at: BlockNumber = match read_u32(input, 0) {
            Some(effective_at) => effective_at,
            None => {
                return None;
            },
        };
        let scheduled_change: ScheduledChange = match ScheduledChange::decode_at(input, 4) {
            Some(scheduled_change) => scheduled_change,
            None => {
                return None;
            },
        };
        let change = NextChangeInAuthority { effective_at, scheduled_change };
        proof {
            lemma_holds_at_concat(
                input@,
                0,
                u32_le(effective_at),
                change@.scheduled_change.encoding(),
            );
            change@.lemma_decoded(input@);
        }
        Some(change)
    }
}

} // verus!
