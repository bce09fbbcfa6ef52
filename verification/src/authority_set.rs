//! The authority set that is currently entitled to finalize blocks.

use crate::authorities::{
    authorities_bytes, encodable, is_encodable, lemma_authorities_unique, lemma_holds_at_concat,
    read_authorities, write_authorities, AuthorityId, AuthorityList, AuthorityWeight,
};
use crate::scale::{holds_at, lemma_u64_le_injective, read_u64, u64_le, write_u64};
use vstd::prelude::*;

verus! {

/// The active authorities and the number of the set they form. Every change
/// of the authorities raises the number by one.
#[derive(Clone, Debug, PartialEq, Eq)]
pub struct LightAuthoritySet {
    /// Which set this is, counted from the set the client was seeded with.
    pub set_id: u64,
    /// The authorities of the set, in voting order.
    pub authorities: AuthorityList,
}

/// What a [`LightAuthoritySet`] stands for.
pub struct LightAuthoritySetView {
    pub set_id: u64,
    pub authorities: Seq<(AuthorityId, AuthorityWeight)>,
}

impl View for LightAuthoritySet {
    type V = LightAuthoritySetView;

    open spec fn view(&self) -> LightAuthoritySetView {
        LightAuthoritySetView { set_id: self.set_id, authorities: self.authorities@ }
    }
}

/// What an optional authority set stands for.
pub open spec fn set_view(set: Option<LightAuthoritySet>) -> Option<LightAuthoritySetView> {
    match set {
        Some(set) => Some(set@),
        None => None,
    }
}

impl LightAuthoritySetView {
    /// The set has a wire form: its authorities fit a length prefix.
    pub open spec fn encodable(self) -> bool {
        encodable(self.authorities)
    }

    /// The wire form: the set number, then the authority list.
    pub open spec fn encoding(self) -> Seq<u8> {
        u64_le(self.set_id) + authorities_bytes(self.authorities)
    }

    /// The wire form of this set stands in `bytes` at `pos`.
    pub open spec fn stands_at(self, bytes: Seq<u8>, pos: int) -> bool {
        self.encodable() && holds_at(bytes, pos, self.encoding())
    }

    /// The set whose wire form `bytes` begins with, if there is one. What
    /// follows the wire form is not looked at.
    pub open spec fn decoded(bytes: Seq<u8>) -> Option<LightAuthoritySetView> {
        if exists|set: LightAuthoritySetView| set.stands_at(bytes, 0) {
            Some(choose|set: LightAuthoritySetView| set.stands_at(bytes, 0))
        } else {
            None
        }
    }

    /// The set that follows this one when `authorities` take over.
    pub open spec fn successor(
        self,
        authorities: Seq<(AuthorityId, AuthorityWeight)>,
    ) -> LightAuthoritySetView
        recommends
            self.set_id < u64::MAX,
    {
        LightAuthoritySetView { set_id: (self.set_id + 1) as u64, authorities }
    }

    /// At most one set stands at a position.
    pub proof fn lemma_unique(
        bytes: Seq<u8>,
        pos: int,
        a: LightAuthoritySetView,
        b: LightAuthoritySetView,
    )
        requires
            a.stands_at(bytes, pos),
            b.stands_at(bytes, pos),
        ensures
            a == b,
    {
        lemma_holds_at_concat(bytes, pos, u64_le(a.set_id), authorities_bytes(a.authorities));
        lemma_holds_at_concat(bytes, pos, u64_le(b.set_id), authorities_bytes(b.authorities));
        assert(u64_le(a.set_id) =~= u64_le(b.set_id));
        lemma_u64_le_injective(a.set_id, b.set_id);
        lemma_authorities_unique(bytes, pos + 8, a.authorities, b.authorities);
    }

    /// A set that `bytes` begins with is the one decoded from them.
    pub proof fn lemma_decoded(self, bytes: Seq<u8>)
        requires
            self.stands_at(bytes, 0),
        ensures
            Self::decoded(bytes) == Some(self),
    {
        let found = choose|set: LightAuthoritySetView| set.stands_at(bytes, 0);
        Self::lemma_unique(bytes, 0, self, found);
    }

    /// Decoding gives back what was encoded, whatever bytes follow.
    pub proof fn lemma_round_trip(self, rest: Seq<u8>)
        requires
            self.encodable(),
        ensures
            Self::decoded(self.encoding() + rest) == Some(self),
    {
        let bytes = self.encoding() + rest;
        assert(bytes.subrange(0, self.encoding().len() as int) =~= self.encoding());
        self.lemma_decoded(bytes);
    }
}

impl LightAuthoritySet {
    /// The set with the given number and authorities.
    pub fn new(set_id: u64, authorities: AuthorityList) -> (r: Self)
        ensures
            r.set_id == set_id,
            r.authorities == authorities,
    {
        LightAuthoritySet { set_id, authorities }
    }

    /// The number of this set.
    pub fn set_id(&self) -> (r: u64)
        ensures
            r == self.set_id,
    {
        self.set_id
    }

    /// The authorities of this set, in voting order.
    pub fn authorities(&self) -> (r: &AuthorityList)
        ensures
            r == self.authorities,
    {
        &self.authorities
    }

    /// The set that follows `prev_authority_set` when `new_authority_list`
    /// takes over: its number is one higher.
    pub fn construct_next_authority_set(
        prev_authority_set: &LightAuthoritySet,
        new_authority_list: AuthorityList,
    ) -> (r: Self)
        requires
            prev_authority_set.set_id < u64::MAX,
        ensures
            r.set_id == prev_authority_set.set_id + 1,
            r.authorities == new_authority_list,
            r@ == prev_authority_set@.successor(new_authority_list@),
    {
        LightAuthoritySet { set_id: prev_authority_set.set_id + 1, authorities: new_authority_list }
    }

    /// Whether this set has a wire form.
    pub fn is_encodable(&self) -> (r: bool)
        ensures
            r == self@.encodable(),
    {
        is_encodable(&self.authorities)
    }

    /// The wire form of this set.
    pub fn encode(&self) -> (out: Vec<u8>)
        requires
            self@.encodable(),
        ensures
            out@ == self@.encoding(),
    {
        let mut out: Vec<u8> = Vec::new();
        write_u64(self.set_id, &mut out);
        write_authorities(&self.authorities, &mut out);
        assert(out@ =~= self@.encoding());
        out
    }

    /// Reads the set whose wire form `input` begins with.
    pub fn decode(input: &[u8]) -> (r: Option<LightAuthoritySet>)
        ensures
            match r {
                Some(set) => LightAuthoritySetView::decoded(input@) == Some(set@),
                None => LightAuthoritySetView::decoded(input@) is None,
            },
    {
        proof {
            assert forall|set: LightAuthoritySetView| #[trigger]
                set.stands_at(input@, 0) implies holds_at(input@, 0, u64_le(set.set_id))
                && holds_at(input@, 8, authorities_bytes(set.authorities)) by {
                lemma_holds_at_concat(
                    input@,
                    0,
                    u64_le(set.set_id),
                    authorities_bytes(set.authorities),
                );
            }
        }
        let set_id: u64 = match read_u64(input, 0) {
            Some(set_id) => set_id,
            None => {
                return None;
            },
        };
        let authorities: AuthorityList = match read_authorities(input, 8) {
            Some((authorities, _)) => authorities,
            None => {
                return None;
            },
        };
        let set = LightAuthoritySet { set_id, authorities };
        proof {
            lemma_holds_at_concat(input@, 0, u64_le(set_id), authorities_bytes(set@.authorities));
            set@.lemma_decoded(input@);
        }
        Some(set)
    }
}

} // verus!
