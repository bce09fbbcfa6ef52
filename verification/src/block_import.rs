//! What passes between the verifier, the import wrapper and the block
//! importer that the wrapper delegates to: the import request, the check
//! request, the importer's answer, and the importer itself as an interface.

use crate::authorities::BlockNumber;
use crate::change::{change_view, NextChangeInAuthority, NextChangeInAuthorityView};
use crate::header::{H256, Header, HeaderView};
use std::collections::HashMap;
use vstd::prelude::*;

verus! {

/// The key under which an importer's cache holds an entry.
pub type CacheKeyId = [u8; 4];

/// The key under which an import request of the node framework carries the
/// staged change among its intermediates: the ASCII text
/// `grandpa_authority_change`.
pub const GRANDPA_AUTHORITY_CHANGE_INTERMEDIATE_KEY: [u8; 24] = [
    0x67, 0x72, 0x61, 0x6e, 0x64, 0x70, 0x61, 0x5f, 0x61, 0x75, 0x74, 0x68, 0x6f, 0x72, 0x69, 0x74,
    0x79, 0x5f, 0x63, 0x68, 0x61, 0x6e, 0x67, 0x65,
];

/// The token of a staged change: the change that the verifier found
/// announced in a header and put on the import request. It is not stored
/// anywhere; it lives for one import and is taken out exactly once.
pub type StagedChangeToken = Option<NextChangeInAuthority>;

/// Where a block came from.
#[derive(Clone, Copy, Debug, PartialEq, Eq)]
pub enum BlockOrigin {
    /// The genesis block, built into the client.
    Genesis,
    /// The block is part of the initial sync with the network.
    NetworkInitialSync,
    /// The block was broadcast on the network.
    NetworkBroadcast,
    /// The block came from the network and was validated by consensus.
    ConsensusBroadcast,
    /// The block was authored by this node.
    Own,
    /// The block was read from a file.
    File,
}

/// What the importer reports of a block that it imported.
#[derive(Clone, Copy, Debug, PartialEq, Eq)]
pub struct ImportedAux {
    /// Only the header was imported; the body was not verified.
    pub header_only: bool,
    /// All pending requests for a justification are to be dropped.
    pub clear_justification_requests: bool,
    /// A justification is to be requested for the block.
    pub needs_justification: bool,
    /// The justification that came with the block was bad.
    pub bad_justification: bool,
    /// A finality proof is to be requested for the block.
    pub needs_finality_proof: bool,
    /// The block is the new best block.
    pub is_new_best: bool,
}

/// The importer's answer to an import or a check.
#[derive(Clone, Copy, Debug, PartialEq, Eq)]
pub enum ImportResult {
    /// The block was imported.
    Imported(ImportedAux),
    /// The block is already in the chain.
    AlreadyInChain,
    /// The block or its parent is known to be bad.
    KnownBad,
    /// The parent of the block is not in the chain.
    UnknownParent,
    /// The state of the parent is missing.
    MissingState,
}

/// What the importer needs to check a block before it is imported.
#[derive(Clone, Copy, Debug, PartialEq, Eq)]
pub struct BlockCheckParams {
    /// The hash of the block.
    pub hash: H256,
    /// The height of the block.
    pub number: BlockNumber,
    /// The hash of the parent block.
    pub parent_hash: H256,
    /// Import the block without verifying its state if the parent's state is
    /// missing.
    pub allow_missing_state: bool,
    /// Check the block again though it is known.
    pub import_existing: bool,
}

/// A request to import a block. Besides the header it carries the token of
/// a staged change, which is to become the pending change once the import
/// has succeeded.
#[derive(Clone, Debug, PartialEq, Eq)]
pub struct BlockImportParams {
    /// Where the block came from.
    pub origin: BlockOrigin,
    /// The header of the block.
    pub header: Header,
    /// The staged change, until it is taken out.
    pub staged_change: StagedChangeToken,
}

/// What a [`BlockImportParams`] stands for.
pub struct BlockImportParamsView {
    pub origin: BlockOrigin,
    pub header: HeaderView,
    pub staged_change: Option<NextChangeInAuthorityView>,
}

impl View for BlockImportParams {
    type V = BlockImportParamsView;

    open spec fn view(&self) -> BlockImportParamsView {
        BlockImportParamsView {
            origin: self.origin,
            header: self.header@,
            staged_change: change_view(self.staged_change),
        }
    }
}

impl BlockImportParams {
    /// A request to import the block with this header, with no change
    /// staged.
    pub fn new(origin: BlockOrigin, header: Header) -> (r: Self)
        ensures
            r.origin == origin,
            r.header == header,
            r.staged_change is None,
    {
        BlockImportParams { origin, header, staged_change: None }
    }

    /// Takes the staged change out of the request. The request holds none
    /// afterwards, so that whoever gets the request next does not see it.
    pub fn take_staged_change(&mut self) -> (r: StagedChangeToken)
        ensures
            r == old(self).staged_change,
            final(self).staged_change is None,
            final(self).origin == old(self).origin,
            final(self).header == old(self).header,
    {
        self.staged_change.take()
    }
}

/// Whether an import went through without reservation: the block was
/// imported, its justification was not bad, and no finality proof is still
/// owed for it.
pub open spec fn imported_cleanly<E>(result: Result<ImportResult, E>) -> bool {
    match result {
        Ok(ImportResult::Imported(aux)) => !aux.bad_justification && !aux.needs_finality_proof,
        _ => false,
    }
}

impl BlockImportParams {
    /// This request with the staged change taken out of it.
    pub open spec fn without_staged_change(self) -> BlockImportParams {
        BlockImportParams { origin: self.origin, header: self.header, staged_change: None }
    }
}

/// A block importer: the collaborator that links headers into the chain.
/// The tracker hands blocks to it and acts on its answers.
///
/// An importer need promise nothing about its answers. What it shows is
/// which answer belongs to which request: [`BlockImport::checks`] and
/// [`BlockImport::imports`] hold of a request, an answer and the importer
/// before and after as the importer sees fit, and each method says that its
/// answer is one that the importer gives to the request that it was handed.
/// An importer that says nothing of its own lets every answer belong to
/// every request.
pub trait BlockImport: Sized {
    /// Why an import or a check could not be carried out.
    type Error;

    /// This importer can answer a check of `block` with `answer` and be
    /// `after` afterwards.
    open spec fn checks(
        &self,
        block: BlockCheckParams,
        answer: Result<ImportResult, Self::Error>,
        after: Self,
    ) -> bool {
        true
    }

    /// This importer can answer the import of `block` with `answer` and be
    /// `after` afterwards.
    open spec fn imports(
        &self,
        block: BlockImportParams,
        cache: HashMap<CacheKeyId, Vec<u8>>,
        answer: Result<ImportResult, Self::Error>,
        after: Self,
    ) -> bool {
        true
    }

    /// Checks whether a block can be imported.
    fn check_block(&mut self, block: BlockCheckParams) -> (answer: Result<
        ImportResult,
        Self::Error,
    >)
        ensures
            old(self).checks(block, answer, *final(self)),
    ;

    /// Imports a block.
    fn import_block(
        &mut self,
        block: BlockImportParams,
        cache: HashMap<CacheKeyId, Vec<u8>>,
    ) -> (answer: Result<ImportResult, Self::Error>)
        ensures
            old(self).imports(block, cache, answer, *final(self)),
    ;
}

} // verus!
