//! The verifier: the first half of the two-phase pipeline.
//!
//! Verifying a header does two things that have nothing to do with each
//! other. A pending change whose height the header has reached is applied:
//! its record is deleted and the authority set is replaced. A change that
//! the header announces is staged: it is put on the import request, and
//! becomes the pending change only if the import succeeds. While a change is
//! pending and not yet due, a header that announces another is rejected.

use crate::authorities::BlockNumber;
use crate::authority_set::LightAuthoritySet;
use crate::block_import::{BlockImportParams, BlockImportParamsView, BlockOrigin, CacheKeyId};
use crate::change::{
    scheduled_change_view, NextChangeInAuthority, NextChangeInAuthorityView, ScheduledChange,
    ScheduledChangeView,
};
use crate::header::{Header, HeaderView};
use crate::scanner::find_scheduled_change;
use crate::store::{AuthoritySetStore, AuthoritySetStoreView, StorageError};
use vstd::prelude::*;

verus! {

/// Why a header was rejected.
#[derive(Clone, Copy, Debug, PartialEq, Eq)]
pub enum VerifyError {
    /// A record of the store is there and does not decode.
    Storage(StorageError),
    /// The header announces a change while another is pending and not yet
    /// due.
    ConflictingScheduledChange,
    /// A pending change is due and there is no authority set to apply it to:
    /// the client was never seeded with one.
    MissingAuthoritySet,
}

impl VerifyError {
    /// What [`VerifyError::message`] says.
    pub open spec fn message_text(self) -> Seq<char> {
        match self {
            VerifyError::Storage(error) => error.message_text(),
            VerifyError::ConflictingScheduledChange => "Scheduled change already exists."@,
            VerifyError::MissingAuthoritySet => "No previous authority set found"@,
        }
    }

    /// The error in words.
    pub fn message(&self) -> (r: String)
        ensures
            r@ == self.message_text(),
    {
        match self {
            VerifyError::Storage(error) => error.message(),
            VerifyError::ConflictingScheduledChange => "Scheduled change already exists."
                .to_owned(),
            VerifyError::MissingAuthoritySet => "No previous authority set found".to_owned(),
        }
    }
}

/// The pending change that is due at height `number`: the one whose
/// effective height it is.
pub open spec fn due_change(
    pending: Option<NextChangeInAuthorityView>,
    number: BlockNumber,
) -> Option<NextChangeInAuthorityView> {
    match pending {
        Some(change) => if change.effective_at == number {
            Some(change)
        } else {
            None
        },
        None => None,
    }
}

/// A change is pending and is not due at height `number`.
pub open spec fn change_outstanding(
    pending: Option<NextChangeInAuthorityView>,
    number: BlockNumber,
) -> bool {
    pending is Some && due_change(pending, number) is None
}

/// The change that is staged when a header at height `number` announces
/// `announced`: the announced change, bound to the height at which it takes
/// effect.
pub open spec fn staged_change(
    number: BlockNumber,
    announced: Option<ScheduledChangeView>,
) -> Option<NextChangeInAuthorityView> {
    match announced {
        Some(change) => Some(
            NextChangeInAuthorityView {
                effective_at: (number + change.delay) as BlockNumber,
                scheduled_change: change,
            },
        ),
        None => None,
    }
}

/// The import request that a verified header is wrapped in.
pub open spec fn import_request(
    header: HeaderView,
    announced: Option<ScheduledChangeView>,
) -> BlockImportParamsView {
    BlockImportParamsView {
        origin: BlockOrigin::NetworkBroadcast,
        header,
        staged_change: staged_change(header.number, announced),
    }
}

/// What verifying a header comes to: the outcome and the store afterwards.
pub struct Verification {
    /// The import request, or why the header was rejected.
    pub outcome: Result<BlockImportParamsView, VerifyError>,
    /// The store after the verification.
    pub store: AuthoritySetStoreView,
}

/// Verifying `header`, which announces `announced`, against `store`.
///
/// - A pending change that does not decode rejects the header.
/// - While a change is pending and not due, a header that announces a change
///   is rejected, and nothing is written; one that announces none is
///   accepted with nothing staged.
/// - Otherwise the header is accepted with the change it announces staged.
///   If the pending change is due, its record is deleted first, and the
///   authority set is replaced by its successor; where there is no
///   authority set to succeed, or it does not decode, the header is rejected
///   with the record already deleted.
pub open spec fn verification(
    store: AuthoritySetStoreView,
    header: HeaderView,
    announced: Option<ScheduledChangeView>,
) -> Verification {
    match store.pending_change() {
        Err(error) => Verification { outcome: Err(VerifyError::Storage(error)), store },
        Ok(pending) => if change_outstanding(pending, header.number) {
            if announced is Some {
                Verification { outcome: Err(VerifyError::ConflictingScheduledChange), store }
            } else {
                Verification { outcome: Ok(import_request(header, announced)), store }
            }
        } else {
            match due_change(pending, header.number) {
                None => Verification { outcome: Ok(import_request(header, announced)), store },
                Some(due) => {
                    let cleared = store.without_pending_change();
                    match cleared.current_authority_set() {
                        Err(error) => Verification {
                            outcome: Err(VerifyError::Storage(error)),
                            store: cleared,
                        },
                        Ok(None) => Verification {
                            outcome: Err(VerifyError::MissingAuthoritySet),
                            store: cleared,
                        },
                        Ok(Some(current)) => Verification {
                            outcome: Ok(import_request(header, announced)),
                            store: cleared.with_authority_set(
                                current.successor(due.scheduled_change.next_authorities),
                            ),
                        },
                    }
                },
            }
        },
    }
}

/// The numbers that verifying a header at height `number`, which announces
/// `announced`, computes against `store` fit their types: the effective
/// height of a change that is staged, and the number of an authority set
/// that is installed.
pub open spec fn within_limits(
    store: AuthoritySetStoreView,
    number: BlockNumber,
    announced: Option<ScheduledChangeView>,
) -> bool {
    match store.pending_change() {
        Err(_) => true,
        Ok(pending) => {
            &&& !change_outstanding(pending, number) ==> (announced matches Some(change) ==> number
                + change.delay <= BlockNumber::MAX)
            &&& due_change(pending, number) is Some ==> (store.current_authority_set() matches Ok(
                Some(current),
            ) ==> current.set_id < u64::MAX)
        },
    }
}

/// What [`GrandpaVerifier::verify`] leaves behind and returns for a header
/// that announces `announced`.
pub open spec fn verified(
    before: AuthoritySetStoreView,
    header: HeaderView,
    announced: Option<ScheduledChangeView>,
    after: AuthoritySetStoreView,
    result: Result<(BlockImportParams, Option<Vec<(CacheKeyId, Vec<u8>)>>), VerifyError>,
) -> bool {
    &&& after == verification(before, header, announced).store
    &&& match result {
        Ok((params, cache)) => {
            &&& verification(before, header, announced).outcome matches Ok(request)
            &&& request == params@
            &&& cache is None
            &&& params.staged_change matches Some(change) ==> change@.encodable()
        },
        Err(error) => verification(before, header, announced).outcome matches Err(e) && e == error,
    }
}

/// Verifies headers against the authority-set store that it holds.
#[derive(Clone, Debug, PartialEq, Eq)]
pub struct GrandpaVerifier {
    aux_store: AuthoritySetStore,
}

impl GrandpaVerifier {
    /// What the store of this verifier stands for.
    pub closed spec fn store(&self) -> AuthoritySetStoreView {
        self.aux_store@
    }

    /// A verifier over `aux_store`.
    pub fn new(aux_store: AuthoritySetStore) -> (r: Self)
        ensures
            r.store() == aux_store@,
    {
        GrandpaVerifier { aux_store }
    }

    /// The store of this verifier.
    pub fn aux_store(&self) -> (r: &AuthoritySetStore)
        ensures
            r@ == self.store(),
    {
        &self.aux_store
    }

    /// Gives up the verifier for its store.
    pub fn into_aux_store(self) -> (r: AuthoritySetStore)
        ensures
            r@ == self.store(),
    {
        self.aux_store
    }

    /// Whether the numbers that verifying `header` computes fit their types.
    /// [`GrandpaVerifier::verify`] is to be called only where they do.
    pub fn within_limits(&self, header: &Header) -> (r: bool)
        ensures
            r == within_limits(self.store(), header.number, header@.scheduled_change()),
    {
        let pending: Option<NextChangeInAuthority> = match self.aux_store.get_pending_change() {
            Ok(pending) => pending,
            Err(_) => {
                return true;
            },
        };
        let (due, outstanding): (bool, bool) = match &pending {
            Some(change) => (
                change.effective_at == header.number,
                change.effective_at != header.number,
            ),
            None => (false, false),
        };
        if !outstanding {
            match find_scheduled_change(header) {
                Some(change) => {
                    if change.delay > BlockNumber::MAX - header.number {
                        return false;
                    }
                },
                None => {},
            }
        }
        if due {
            match self.aux_store.get_current_authority_set() {
                Ok(Some(current)) => {
                    if current.set_id == u64::MAX {
                        return false;
                    }
                },
                _ => {},
            }
        }
        true
    }

    /// Verifies `header` and wraps it in an import request.
    ///
    /// The origin, the justification and the body are those that came with
    /// the header; the verifier looks at none of them, and the request
    /// always names the network broadcast as its origin. The second part of
    /// the result, the cache entries to note for the block, is always none.
    ///
    /// Afterwards the store and the result are what [`verification`] gives
    /// for the store before, the header and the change it announces: the
    /// import request with the staged change on it, or the error that
    /// rejects the header.
    #[allow(unused_variables)]
    pub fn verify(
        &mut self,
        origin: BlockOrigin,
        header: Header,
        justification: Option<Vec<u8>>,
        body: Option<Vec<Vec<u8>>>,
    ) -> (r: Result<(BlockImportParams, Option<Vec<(CacheKeyId, Vec<u8>)>>), VerifyError>)
        requires
            within_limits(old(self).store(), header.number, header@.scheduled_change()),
        ensures
            verified(old(self).store(), header@, header@.scheduled_change(), final(self).store(), r),
    {
        let found_scheduled_authority_change = find_scheduled_change(&header);
        self.verify_announced(header, found_scheduled_authority_change)
    }

    /// Verifies `header` if the numbers that this computes fit their types,
    /// as [`GrandpaVerifier::verify`] does; where they do not, the result is
    /// none and the store stays as it is.
    pub fn try_verify(
        &mut self,
        origin: BlockOrigin,
        header: Header,
        justification: Option<Vec<u8>>,
        body: Option<Vec<Vec<u8>>>,
    ) -> (r: Option<Result<(BlockImportParams, Option<Vec<(CacheKeyId, Vec<u8>)>>), VerifyError>>)
        ensures
            match r {
                Some(result) => {
                    &&& within_limits(old(self).store(), header.number, header@.scheduled_change())
                    &&& verified(
                        old(self).store(),
                        header@,
                        header@.scheduled_change(),
                        final(self).store(),
                        result,
                    )
                },
                None => {
                    &&& !within_limits(old(self).store(), header.number, header@.scheduled_change())
                    &&& final(self).store() == old(self).store()
                },
            },
    {
        if self.within_limits(&header) {
            Some(self.verify(origin, header, justification, body))
        } else {
            None
        }
    }

    /// Verifies `header`, given the scheduled change that was found
    /// announced in it. This is the whole of the verifier but for the
    /// reading of the digest.
    pub fn verify_announced(
        &mut self,
        header: Header,
        announced: Option<ScheduledChange>,
    ) -> (r: Result<(BlockImportParams, Option<Vec<(CacheKeyId, Vec<u8>)>>), VerifyError>)
        requires
            within_limits(old(self).store(), header.number, scheduled_change_view(announced)),
            announced matches Some(change) ==> change@.encodable(),
        ensures
            verified(
                old(self).store(),
                header@,
                scheduled_change_view(announced),
                final(self).store(),
                r,
            ),
    {
        let pending: Option<NextChangeInAuthority> = match self.aux_store.get_pending_change() {
            Ok(pending) => pending,
            Err(error) => {
                return Err(VerifyError::Storage(error));
            },
        };
        let (possible_authority_change, scheduled_change_exists): (
            Option<NextChangeInAuthority>,
            bool,
        ) = match pending {
            Some(authority_change) => {
                if authority_change.effective_at == header.number {
                    self.aux_store.delete_pending_change();
                    (Some(authority_change), false)
                } else {
                    (None, true)
                }
            },
            None => (None, false),
        };

        let possible_next_authority_change: Option<NextChangeInAuthority> = match announced {
            Some(scheduled_change) => {
                if scheduled_change_exists {
                    return Err(VerifyError::ConflictingScheduledChange);
                }
                Some(
                    NextChangeInAuthority::new(
                        header.number + scheduled_change.delay,
                        scheduled_change,
                    ),
                )
            },
            None => None,
        };

        let mut block_import_params = BlockImportParams::new(BlockOrigin::NetworkBroadcast, header);
        block_import_params.staged_change = possible_next_authority_change;

        if let Some(authority_change) = possible_authority_change {
            let current_authority_set: LightAuthoritySet =
                match self.aux_store.get_current_authority_set() {
                Ok(Some(current_authority_set)) => current_authority_set,
                Ok(None) => {
                    return Err(VerifyError::MissingAuthoritySet);
                },
                Err(error) => {
                    return Err(VerifyError::Storage(error));
                },
            };
            let next_authority_set = LightAuthoritySet::construct_next_authority_set(
                &current_authority_set,
                authority_change.scheduled_change.next_authorities,
            );
            self.aux_store.put_current_authority_set(&next_authority_set);
        }
        Ok((block_import_params, None))
    }
}

} // verus!
