//! What holds of the pipeline as a whole, stated over the models that the
//! contracts of the verifier and of the import wrapper speak of, and proved
//! from them.
//!
//! Each law about the verifier speaks of a store, a header and the change
//! found announced in the header. It holds of every store, and so of the
//! store after any sequence of headers; and of every announcement, and so of
//! the one that the header's digest holds.

use crate::block_import::{imported_cleanly, ImportResult};
use crate::block_import_wrapper::committed;
use crate::change::{NextChangeInAuthorityView, ScheduledChangeView};
use crate::grandpa_verifier::{due_change, verification, within_limits, VerifyError};
use crate::header::HeaderView;
use crate::store::AuthoritySetStoreView;
use vstd::prelude::*;

verus! {

/// At most one change is pending: a header that announces a change while
/// another is pending and not yet due is rejected as conflicting, and the
/// store is left as it was. No other header is rejected for that reason.
pub proof fn lemma_conflicting_announcement_is_rejected(
    store: AuthoritySetStoreView,
    header: HeaderView,
    announced: Option<ScheduledChangeView>,
)
    ensures
        (store.pending_change() matches Ok(Some(pending)) && pending.effective_at != header.number
            && announced is Some) <==> (verification(store, header, announced).outcome matches Err(
            VerifyError::ConflictingScheduledChange,
        )),
        verification(store, header, announced).outcome matches Err(
            VerifyError::ConflictingScheduledChange,
        ) ==> verification(store, header, announced).store == store,
{
}

/// A pending change is applied exactly at its height. Verifying the header
/// at that height deletes the pending record and replaces the authority
/// set by its successor with the announced authorities. Verifying a header
/// at any other height leaves the store as it was.
pub proof fn lemma_pending_change_is_applied_exactly_at_its_height(
    store: AuthoritySetStoreView,
    header: HeaderView,
    announced: Option<ScheduledChangeView>,
)
    requires
        store.pending_change() matches Ok(Some(_)),
        store.current_authority_set() matches Ok(Some(_)),
        within_limits(store, header.number, announced),
    ensures
        ({
            let pending = store.pending_change()->Ok_0->Some_0;
            let current = store.current_authority_set()->Ok_0->Some_0;
            let after = verification(store, header, announced).store;
            if header.number == pending.effective_at {
                &&& verification(store, header, announced).outcome is Ok
                &&& after.pending_change() matches Ok(None)
                &&& after.current_authority_set() matches Ok(Some(installed))
                &&& installed == current.successor(pending.scheduled_change.next_authorities)
            } else {
                after == store
            }
        }),
{
    let pending = store.pending_change()->Ok_0->Some_0;
    let current = store.current_authority_set()->Ok_0->Some_0;
    if header.number == pending.effective_at {
        store.lemma_read_records_are_encodable();
        let next = current.successor(pending.scheduled_change.next_authorities);
        store.without_pending_change().lemma_written_authority_set_is_read(next);
    }
}

/// The authority set matters only where a change is due. Two stores with
/// the same pending record, in which no change is due at the height of the
/// header, give the same outcome, and each is left as it was, whatever they
/// hold as the authority set.
pub proof fn lemma_authority_set_matters_only_where_a_change_is_due(
    store: AuthoritySetStoreView,
    other: AuthoritySetStoreView,
    header: HeaderView,
    announced: Option<ScheduledChangeView>,
)
    requires
        store.pending_change_record == other.pending_change_record,
        !store.pending_change_due_at(header.number),
    ensures
        verification(store, header, announced).outcome == verification(
            other,
            header,
            announced,
        ).outcome,
        verification(store, header, announced).store == store,
        verification(other, header, announced).store == other,
        within_limits(store, header.number, announced) == within_limits(
            other,
            header.number,
            announced,
        ),
{
}

/// Every applied change raises the number of the authority set by exactly
/// one; a verification that applies none leaves the authority set alone.
pub proof fn lemma_applied_change_advances_set_id_by_one(
    store: AuthoritySetStoreView,
    header: HeaderView,
    announced: Option<ScheduledChangeView>,
)
    requires
        store.current_authority_set() matches Ok(Some(_)),
        within_limits(store, header.number, announced),
    ensures
        ({
            let before = store.current_authority_set()->Ok_0->Some_0;
            let after = verification(store, header, announced).store;
            if store.pending_change() matches Ok(Some(pending)) && pending.effective_at
                == header.number {
                after.current_authority_set() matches Ok(Some(installed)) && installed.set_id
                    == before.set_id + 1
            } else {
                after.authority_set_record == store.authority_set_record
            }
        }),
{
    if store.pending_change() matches Ok(Some(pending)) && pending.effective_at == header.number {
        lemma_pending_change_is_applied_exactly_at_its_height(store, header, announced);
    }
}

/// A staged change becomes the pending change only after a clean import:
/// the importer answered that the block was imported, that its
/// justification was not bad and that no finality proof is owed for it.
/// After any other answer the store is exactly as it was; after a clean
/// import with a change staged, that change is the one that is pending.
pub proof fn lemma_staged_change_is_committed_only_after_clean_import<E>(
    store: AuthoritySetStoreView,
    staged: Option<NextChangeInAuthorityView>,
    result: Result<ImportResult, E>,
)
    requires
        staged matches Some(change) ==> change.encodable(),
    ensures
        ({
            let after = committed(store, staged, imported_cleanly(result));
            &&& after.authority_set_record == store.authority_set_record
            &&& after != store ==> (result matches Ok(ImportResult::Imported(aux))
                && !aux.bad_justification && !aux.needs_finality_proof)
            &&& (imported_cleanly(result) && staged is Some) ==> (after.pending_change() matches Ok(
                Some(pending),
            ) && Some(pending) == staged)
        }),
{
    if let Some(change) = staged {
        store.lemma_written_pending_change_is_read(change);
    }
}

/// Retrying is idempotent. Let a header be accepted and its import then
/// fail, or succeed with a reservation, so that the staged change is
/// dropped. Verifying the same header again accepts it with the same
/// import request, the same change staged, and leaves the store as the
/// first verification left it: the authority set is not advanced a second
/// time, and no pending record is left behind.
pub proof fn lemma_retry_after_dropped_change_repeats_first_attempt<E>(
    store: AuthoritySetStoreView,
    header: HeaderView,
    announced: Option<ScheduledChangeView>,
    result: Result<ImportResult, E>,
)
    requires
        within_limits(store, header.number, announced),
        verification(store, header, announced).outcome is Ok,
        !imported_cleanly(result),
    ensures
        ({
            let first = verification(store, header, announced);
            let after_import = committed(
                first.store,
                first.outcome->Ok_0.staged_change,
                imported_cleanly(result),
            );
            let second = verification(after_import, header, announced);
            &&& after_import == first.store
            &&& within_limits(after_import, header.number, announced)
            &&& second.outcome == first.outcome
            &&& second.store == first.store
        }),
{
    let pending = store.pending_change()->Ok_0;
    if due_change(pending, header.number) is Some {
        let due = due_change(pending, header.number)->Some_0;
        let current = store.current_authority_set()->Ok_0->Some_0;
        store.lemma_read_records_are_encodable();
        let next = current.successor(due.scheduled_change.next_authorities);
        store.without_pending_change().lemma_written_authority_set_is_read(next);
    }
}

} // verus!
