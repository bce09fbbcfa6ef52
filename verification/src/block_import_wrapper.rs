//! The import wrapper: the second half of the two-phase pipeline.
//!
//! The wrapper stands in front of the block importer. It takes the staged
//! change out of an import request, lets the importer import the block, and
//! makes the staged change the pending change only if the import went
//! through without reservation. A staged change that is not committed is
//! dropped: the header still announces it, and verifying the header again
//! stages it again.

use crate::block_import::{
    imported_cleanly, BlockCheckParams, BlockImport, BlockImportParams, CacheKeyId, ImportResult,
};
use crate::change::{change_view, NextChangeInAuthority, NextChangeInAuthorityView};
use crate::store::{AuthoritySetStore, AuthoritySetStoreView};
use std::collections::HashMap;
use vstd::prelude::*;

verus! {

/// The store after an import: the staged change has become the pending
/// change if there was one and the import went through cleanly; otherwise
/// the store is as it was.
pub open spec fn committed(
    store: AuthoritySetStoreView,
    staged: Option<NextChangeInAuthorityView>,
    cleanly: bool,
) -> AuthoritySetStoreView {
    match staged {
        Some(change) => if cleanly {
            store.with_pending_change(change)
        } else {
            store
        },
        None => store,
    }
}

/// Whether an import went through without reservation.
pub fn is_imported_cleanly<E>(result: &Result<ImportResult, E>) -> (r: bool)
    ensures
        r == imported_cleanly(*result),
{
    match result {
        Ok(ImportResult::Imported(imported_aux)) => !imported_aux.bad_justification
            && !imported_aux.needs_finality_proof,
        _ => false,
    }
}

/// A block importer with the bookkeeping of authority-set changes put in
/// front of it.
pub struct BlockImportWrapper<Inner> {
    wrapped_block_import: Inner,
    aux_store: AuthoritySetStore,
}

impl<Inner: BlockImport> BlockImportWrapper<Inner> {
    /// What the store of this wrapper stands for.
    pub closed spec fn store(&self) -> AuthoritySetStoreView {
        self.aux_store@
    }

    /// The importer that this wrapper stands in front of.
    pub closed spec fn importer(&self) -> Inner {
        self.wrapped_block_import
    }

    /// A wrapper around `wrapped_block_import` that commits to `aux_store`.
    pub fn new(wrapped_block_import: Inner, aux_store: AuthoritySetStore) -> (r: Self)
        ensures
            r.store() == aux_store@,
            r.importer() == wrapped_block_import,
    {
        BlockImportWrapper { wrapped_block_import, aux_store }
    }

    /// The store of this wrapper.
    pub fn aux_store(&self) -> (r: &AuthoritySetStore)
        ensures
            r@ == self.store(),
    {
        &self.aux_store
    }

    /// Gives up the wrapper for its store.
    pub fn into_aux_store(self) -> (r: AuthoritySetStore)
        ensures
            r@ == self.store(),
    {
        self.aux_store
    }

    /// Asks the importer whether a block can be imported: the result is the
    /// answer that the importer gives to the check of `block`. The store is
    /// not touched.
    pub fn check_block(&mut self, block: BlockCheckParams) -> (r: Result<ImportResult, Inner::Error>)
        ensures
            old(self).importer().checks(block, r, final(self).importer()),
            final(self).store() == old(self).store(),
    {
        self.wrapped_block_import.check_block(block)
    }

    /// Commits a staged change according to the importer's answer: where
    /// the import went through cleanly and a change was staged, the change
    /// becomes the pending change; in every other case the store stays as
    /// it is.
    pub fn commit_staged_change(
        &mut self,
        staged: Option<NextChangeInAuthority>,
        result: &Result<ImportResult, Inner::Error>,
    )
        requires
            staged matches Some(change) ==> change@.encodable(),
        ensures
            final(self).store() == committed(
                old(self).store(),
                change_view(staged),
                imported_cleanly(*result),
            ),
            final(self).importer() == old(self).importer(),
    {
        let should_store_next_authority_change: bool = is_imported_cleanly(result);
        if should_store_next_authority_change {
            if let Some(next_change_in_authority) = staged {
                self.aux_store.put_pending_change(&next_change_in_authority);
            }
        }
    }

    /// Imports a block: takes the staged change out of the request, hands
    /// the request to the importer, and commits the staged change according
    /// to the importer's answer, which it returns as it got it.
    ///
    /// The result is the answer that the importer gives to the request
    /// without the staged change, with the cache as it came. Whatever that
    /// answer is, the store afterwards is what [`committed`] says of it.
    pub fn import_block(
        &mut self,
        block: BlockImportParams,
        cache: HashMap<CacheKeyId, Vec<u8>>,
    ) -> (r: Result<ImportResult, Inner::Error>)
        requires
            block.staged_change matches Some(change) ==> change@.encodable(),
        ensures
            old(self).importer().imports(
                block.without_staged_change(),
                cache,
                r,
                final(self).importer(),
            ),
            final(self).store() == committed(
                old(self).store(),
                block@.staged_change,
                imported_cleanly(r),
            ),
    {
        let mut block = block;
        let possible_next_change_in_authority: Option<NextChangeInAuthority> =
            block.take_staged_change();
        let result = self.wrapped_block_import.import_block(block, cache);
        self.commit_staged_change(possible_next_change_in_authority, &result);
        result
    }
}

} // verus!
