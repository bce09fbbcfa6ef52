//! The authority-set store: typed access to the two records that the
//! tracker keeps in the client's auxiliary key-value store.
//!
//! The store holds the records as the bytes that lie under their keys. The
//! application loads it from the auxiliary store before a header is verified
//! and writes back what changed afterwards; reaching the auxiliary store is
//! its business, reading and writing the records is this module's.

use crate::authorities::BlockNumber;
use crate::authority_set::{set_view, LightAuthoritySet, LightAuthoritySetView};
use crate::change::{change_view, NextChangeInAuthority, NextChangeInAuthorityView};
use vstd::prelude::*;
use vstd::slice::slice_to_vec;

verus! {

/// The auxiliary-store key of the current authority set: the ASCII text
/// `light_authority_set`.
pub const LIGHT_AUTHORITY_SET_KEY: [u8; 19] = [
    0x6c, 0x69, 0x67, 0x68, 0x74, 0x5f, 0x61, 0x75, 0x74, 0x68, 0x6f, 0x72, 0x69, 0x74, 0x79, 0x5f,
    0x73, 0x65, 0x74,
];

/// The auxiliary-store key of the pending change: the ASCII text
/// `next_change_in_authority`.
pub const NEXT_CHANGE_IN_AUTHORITY_KEY: [u8; 24] = [
    0x6e, 0x65, 0x78, 0x74, 0x5f, 0x63, 0x68, 0x61, 0x6e, 0x67, 0x65, 0x5f, 0x69, 0x6e, 0x5f, 0x61,
    0x75, 0x74, 0x68, 0x6f, 0x72, 0x69, 0x74, 0x79,
];

/// A record is there and is not the wire form of what it should hold.
#[derive(Clone, Copy, Debug, PartialEq, Eq)]
pub enum StorageError {
    /// The bytes of the current authority set do not decode.
    CorruptAuthoritySet,
    /// The bytes of the pending change do not decode.
    CorruptPendingChange,
}

impl StorageError {
    /// What [`StorageError::message`] says.
    pub open spec fn message_text(self) -> Seq<char> {
        match self {
            StorageError::CorruptAuthoritySet => "Stored authority set does not decode"@,
            StorageError::CorruptPendingChange => "Stored change in authority does not decode"@,
        }
    }

    /// The error in words.
    pub fn message(&self) -> (r: String)
        ensures
            r@ == self.message_text(),
    {
        match self {
            StorageError::CorruptAuthoritySet => "Stored authority set does not decode".to_owned(),
            StorageError::CorruptPendingChange => "Stored change in authority does not decode"
                .to_owned(),
        }
    }
}

/// What a flush does to one record of the auxiliary store.
#[derive(Clone, Debug, PartialEq, Eq)]
pub enum RecordWrite {
    /// The record is left as it is.
    Unchanged,
    /// These bytes are written under the record's key.
    Put(Vec<u8>),
    /// The record's key is deleted.
    Delete,
}

/// What a [`RecordWrite`] stands for.
pub enum RecordWriteView {
    Unchanged,
    Put(Seq<u8>),
    Delete,
}

impl View for RecordWrite {
    type V = RecordWriteView;

    open spec fn view(&self) -> RecordWriteView {
        match *self {
            RecordWrite::Unchanged => RecordWriteView::Unchanged,
            RecordWrite::Put(bytes) => RecordWriteView::Put(bytes@),
            RecordWrite::Delete => RecordWriteView::Delete,
        }
    }
}

impl RecordWriteView {
    /// The write that turns the record `before` into the record `after`,
    /// and writes nothing where the two are the same.
    pub open spec fn between(before: Option<Seq<u8>>, after: Option<Seq<u8>>) -> RecordWriteView {
        if before == after {
            RecordWriteView::Unchanged
        } else {
            match after {
                Some(bytes) => RecordWriteView::Put(bytes),
                None => RecordWriteView::Delete,
            }
        }
    }

    /// The record after this write was carried out on `record`.
    pub open spec fn applied_to(self, record: Option<Seq<u8>>) -> Option<Seq<u8>> {
        match self {
            RecordWriteView::Unchanged => record,
            RecordWriteView::Put(bytes) => Some(bytes),
            RecordWriteView::Delete => None,
        }
    }
}

/// The writes of one flush. The auxiliary store is to carry them out
/// together, in one atomic insert-and-delete: the first under
/// [`LIGHT_AUTHORITY_SET_KEY`], the second under
/// [`NEXT_CHANGE_IN_AUTHORITY_KEY`].
#[derive(Clone, Debug, PartialEq, Eq)]
pub struct StoreWrites {
    /// What to do to the current authority set.
    pub authority_set: RecordWrite,
    /// What to do to the pending change.
    pub pending_change: RecordWrite,
}

/// What a [`StoreWrites`] stands for.
pub struct StoreWritesView {
    pub authority_set: RecordWriteView,
    pub pending_change: RecordWriteView,
}

impl View for StoreWrites {
    type V = StoreWritesView;

    open spec fn view(&self) -> StoreWritesView {
        StoreWritesView {
            authority_set: self.authority_set@,
            pending_change: self.pending_change@,
        }
    }
}

impl StoreWritesView {
    /// The writes that bring a store from `before` to `after`.
    pub open spec fn between(
        before: AuthoritySetStoreView,
        after: AuthoritySetStoreView,
    ) -> StoreWritesView {
        StoreWritesView {
            authority_set: RecordWriteView::between(
                before.authority_set_record,
                after.authority_set_record,
            ),
            pending_change: RecordWriteView::between(
                before.pending_change_record,
                after.pending_change_record,
            ),
        }
    }

    /// The store after these writes were carried out on `store`.
    pub open spec fn applied_to(self, store: AuthoritySetStoreView) -> AuthoritySetStoreView {
        AuthoritySetStoreView {
            authority_set_record: self.authority_set.applied_to(store.authority_set_record),
            pending_change_record: self.pending_change.applied_to(store.pending_change_record),
        }
    }

    /// Carrying out the writes between two stores on the first gives the
    /// second.
    pub proof fn lemma_writes_reach(before: AuthoritySetStoreView, after: AuthoritySetStoreView)
        ensures
            Self::between(before, after).applied_to(before) == after,
    {
    }
}

/// Whether two byte strings are the same.
fn same_bytes(a: &[u8], b: &[u8]) -> (r: bool)
    ensures
        r == (a@ == b@),
{
    if a.len() != b.len() {
        return false;
    }
    let mut i: usize = 0;
    while i < a.len()
        invariant
            i <= a.len(),
            a.len() == b.len(),
            forall|j: int| 0 <= j < i ==> a@[j] == b@[j],
        decreases a.len() - i,
    {
        if a[i] != b[i] {
            return false;
        }
        i += 1;
    }
    assert(a@ =~= b@);
    true
}

/// The write that turns the record `before` into the record `after`.
fn write_between(before: &Option<Vec<u8>>, after: &Option<Vec<u8>>) -> (r: RecordWrite)
    ensures
        r@ == RecordWriteView::between(record_view(*before), record_view(*after)),
{
    match after {
        Some(bytes) => {
            let same: bool = match before {
                Some(old_bytes) => same_bytes(old_bytes.as_slice(), bytes.as_slice()),
                None => false,
            };
            if same {
                RecordWrite::Unchanged
            } else {
                RecordWrite::Put(slice_to_vec(bytes.as_slice()))
            }
        },
        None => match before {
            Some(_) => RecordWrite::Delete,
            None => RecordWrite::Unchanged,
        },
    }
}

/// The two records of the tracker, each as the bytes under its key, or
/// absent.
#[derive(Clone, Debug, PartialEq, Eq)]
pub struct AuthoritySetStore {
    authority_set: Option<Vec<u8>>,
    pending_change: Option<Vec<u8>>,
}

/// What an [`AuthoritySetStore`] stands for.
pub struct AuthoritySetStoreView {
    /// The bytes under [`LIGHT_AUTHORITY_SET_KEY`].
    pub authority_set_record: Option<Seq<u8>>,
    /// The bytes under [`NEXT_CHANGE_IN_AUTHORITY_KEY`].
    pub pending_change_record: Option<Seq<u8>>,
}

/// What an optional record stands for.
pub open spec fn record_view(record: Option<Vec<u8>>) -> Option<Seq<u8>> {
    match record {
        Some(bytes) => Some(bytes@),
        None => None,
    }
}

impl View for AuthoritySetStore {
    type V = AuthoritySetStoreView;

    closed spec fn view(&self) -> AuthoritySetStoreView {
        AuthoritySetStoreView {
            authority_set_record: record_view(self.authority_set),
            pending_change_record: record_view(self.pending_change),
        }
    }
}

impl AuthoritySetStoreView {
    /// The current authority set: none where the record is absent, an error
    /// where it is there and does not decode.
    pub open spec fn current_authority_set(self) -> Result<
        Option<LightAuthoritySetView>,
        StorageError,
    > {
        match self.authority_set_record {
            None => Ok(None),
            Some(bytes) => match LightAuthoritySetView::decoded(bytes) {
                Some(set) => Ok(Some(set)),
                None => Err(StorageError::CorruptAuthoritySet),
            },
        }
    }

    /// The pending change: none where the record is absent, an error where
    /// it is there and does not decode.
    pub open spec fn pending_change(self) -> Result<
        Option<NextChangeInAuthorityView>,
        StorageError,
    > {
        match self.pending_change_record {
            None => Ok(None),
            Some(bytes) => match NextChangeInAuthorityView::decoded(bytes) {
                Some(change) => Ok(Some(change)),
                None => Err(StorageError::CorruptPendingChange),
            },
        }
    }

    /// A change is pending that takes effect at height `number`.
    pub open spec fn pending_change_due_at(self, number: BlockNumber) -> bool {
        self.pending_change() matches Ok(Some(change)) && change.effective_at == number
    }

    /// The store after `set` was written as the current authority set.
    pub open spec fn with_authority_set(self, set: LightAuthoritySetView) -> AuthoritySetStoreView {
        AuthoritySetStoreView { authority_set_record: Some(set.encoding()), ..self }
    }

    /// The store after `change` was written as the pending change.
    pub open spec fn with_pending_change(
        self,
        change: NextChangeInAuthorityView,
    ) -> AuthoritySetStoreView {
        AuthoritySetStoreView { pending_change_record: Some(change.encoding()), ..self }
    }

    /// The store after the pending change was deleted.
    pub open spec fn without_pending_change(self) -> AuthoritySetStoreView {
        AuthoritySetStoreView { pending_change_record: None, ..self }
    }

    /// An authority set that was written is the one that is read, and
    /// writing it leaves the pending change alone.
    pub proof fn lemma_written_authority_set_is_read(self, set: LightAuthoritySetView)
        requires
            set.encodable(),
        ensures
            self.with_authority_set(set).current_authority_set() matches Ok(Some(found))
                && found == set,
            self.with_authority_set(set).pending_change() == self.pending_change(),
    {
        set.lemma_round_trip(Seq::empty());
        assert(set.encoding() + Seq::<u8>::empty() =~= set.encoding());
    }

    /// A pending change that was written is the one that is read, and
    /// writing it leaves the authority set alone.
    pub proof fn lemma_written_pending_change_is_read(self, change: NextChangeInAuthorityView)
        requires
            change.encodable(),
        ensures
            self.with_pending_change(change).pending_change() matches Ok(Some(found))
                && found == change,
            self.with_pending_change(change).current_authority_set()
                == self.current_authority_set(),
    {
        change.lemma_round_trip(Seq::empty());
        assert(change.encoding() + Seq::<u8>::empty() =~= change.encoding());
    }

    /// What is read from the store has a wire form.
    pub proof fn lemma_read_records_are_encodable(self)
        ensures
            self.current_authority_set() matches Ok(Some(set)) ==> set.encodable(),
            self.pending_change() matches Ok(Some(change)) ==> change.encodable(),
    {
        if let Some(bytes) = self.authority_set_record {
            if LightAuthoritySetView::decoded(bytes) is Some {
                let set = choose|set: LightAuthoritySetView| set.stands_at(bytes, 0);
                assert(set.stands_at(bytes, 0));
            }
        }
        if let Some(bytes) = self.pending_change_record {
            if NextChangeInAuthorityView::decoded(bytes) is Some {
                let change = choose|change: NextChangeInAuthorityView| change.stands_at(bytes, 0);
                assert(change.stands_at(bytes, 0));
            }
        }
    }
}

impl AuthoritySetStore {
    /// A store that holds neither record.
    pub fn new() -> (r: Self)
        ensures
            r@.authority_set_record is None,
            r@.pending_change_record is None,
    {
        AuthoritySetStore { authority_set: None, pending_change: None }
    }

    /// A store that holds the given bytes: what lies in the auxiliary store
    /// under [`LIGHT_AUTHORITY_SET_KEY`] and under
    /// [`NEXT_CHANGE_IN_AUTHORITY_KEY`].
    pub fn from_records(authority_set: Option<Vec<u8>>, pending_change: Option<Vec<u8>>) -> (r:
        Self)
        ensures
            r@.authority_set_record == record_view(authority_set),
            r@.pending_change_record == record_view(pending_change),
    {
        AuthoritySetStore { authority_set, pending_change }
    }

    /// The bytes of the current authority set, to be written under
    /// [`LIGHT_AUTHORITY_SET_KEY`]; none where that key is to be absent.
    pub fn authority_set_record(&self) -> (r: &Option<Vec<u8>>)
        ensures
            record_view(*r) == self@.authority_set_record,
    {
        &self.authority_set
    }

    /// The bytes of the pending change, to be written under
    /// [`NEXT_CHANGE_IN_AUTHORITY_KEY`]; none where that key is to be absent.
    pub fn pending_change_record(&self) -> (r: &Option<Vec<u8>>)
        ensures
            record_view(*r) == self@.pending_change_record,
    {
        &self.pending_change
    }

    /// Reads the current authority set. It is none where the record is
    /// absent; a record that does not decode is an error.
    pub fn get_current_authority_set(&self) -> (r: Result<Option<LightAuthoritySet>, StorageError>)
        ensures
            match r {
                Ok(set) => self@.current_authority_set() matches Ok(found) && found == set_view(
                    set,
                ),
                Err(error) => self@.current_authority_set() matches Err(e) && e == error,
            },
            r matches Ok(Some(set)) ==> set@.encodable(),
    {
        proof {
            self@.lemma_read_records_are_encodable();
        }
        match &self.authority_set {
            None => Ok(None),
            Some(bytes) => match LightAuthoritySet::decode(bytes.as_slice()) {
                Some(set) => Ok(Some(set)),
                None => Err(StorageError::CorruptAuthoritySet),
            },
        }
    }

    /// Writes `set` as the current authority set, over whatever was there.
    pub fn put_current_authority_set(&mut self, set: &LightAuthoritySet)
        requires
            set@.encodable(),
        ensures
            final(self)@ == old(self)@.with_authority_set(set@),
    {
        self.authority_set = Some(set.encode());
    }

    /// Reads the pending change. It is none where the record is absent; a
    /// record that does not decode is an error.
    pub fn get_pending_change(&self) -> (r: Result<Option<NextChangeInAuthority>, StorageError>)
        ensures
            match r {
                Ok(change) => self@.pending_change() matches Ok(found) && found == change_view(
                    change,
                ),
                Err(error) => self@.pending_change() matches Err(e) && e == error,
            },
            r matches Ok(Some(change)) ==> change@.encodable(),
    {
        proof {
            self@.lemma_read_records_are_encodable();
        }
        match &self.pending_change {
            None => Ok(None),
            Some(bytes) => match NextChangeInAuthority::decode(bytes.as_slice()) {
                Some(change) => Ok(Some(change)),
                None => Err(StorageError::CorruptPendingChange),
            },
        }
    }

    /// Whether a change is pending that takes effect at height `number`.
    /// Only then does verifying a header at that height read the current
    /// authority set.
    pub fn is_pending_change_due_at(&self, number: BlockNumber) -> (r: bool)
        ensures
            r == self@.pending_change_due_at(number),
    {
        match self.get_pending_change() {
            Ok(Some(change)) => change.effective_at == number,
            _ => false,
        }
    }

    /// Writes `change` as the pending change, over whatever was there.
    pub fn put_pending_change(&mut self, change: &NextChangeInAuthority)
        requires
            change@.encodable(),
        ensures
            final(self)@ == old(self)@.with_pending_change(change@),
    {
        self.pending_change = Some(change.encode());
    }

    /// Deletes the pending change. Where there is none, nothing changes.
    pub fn delete_pending_change(&mut self)
        ensures
            final(self)@ == old(self)@.without_pending_change(),
    {
        self.pending_change = None;
    }

    /// The writes that bring an auxiliary store that holds what `before`
    /// holds to hold what this store holds. A record that is the same in
    /// both is not written.
    pub fn writes_since(&self, before: &AuthoritySetStore) -> (r: StoreWrites)
        ensures
            r@ == StoreWritesView::between(before@, self@),
            r@.applied_to(before@) == self@,
    {
        StoreWrites {
            authority_set: write_between(&before.authority_set, &self.authority_set),
            pending_change: write_between(&before.pending_change, &self.pending_change),
        }
    }
}

} // verus!
