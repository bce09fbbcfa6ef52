//! Block headers as the tracker sees them: a height and a digest of typed,
//! engine-tagged log entries. The hashes are carried along untouched.

use crate::authorities::BlockNumber;
use vstd::prelude::*;

verus! {

/// A 32-byte block or trie hash.
pub type H256 = [u8; 32];

/// The four-byte tag of the consensus engine that a log entry belongs to.
pub type ConsensusEngineId = [u8; 4];

/// One entry of a header's digest.
#[derive(Clone, Debug, PartialEq, Eq)]
pub enum DigestItem {
    /// The root of the changes trie at this block.
    ChangesTrieRoot(H256),
    /// A message from a consensus engine to the runtime.
    PreRuntime(ConsensusEngineId, Vec<u8>),
    /// A message from the runtime to a consensus engine.
    Consensus(ConsensusEngineId, Vec<u8>),
    /// The seal that a consensus engine put on the block.
    Seal(ConsensusEngineId, Vec<u8>),
    /// A signal of the changes-trie manager, in its wire form.
    ChangesTrieSignal(Vec<u8>),
    /// Anything else.
    Other(Vec<u8>),
}

/// What a [`DigestItem`] stands for.
pub enum DigestItemView {
    ChangesTrieRoot(H256),
    PreRuntime(ConsensusEngineId, Seq<u8>),
    Consensus(ConsensusEngineId, Seq<u8>),
    Seal(ConsensusEngineId, Seq<u8>),
    ChangesTrieSignal(Seq<u8>),
    Other(Seq<u8>),
}

impl View for DigestItem {
    type V = DigestItemView;

    open spec fn view(&self) -> DigestItemView {
        match *self {
            DigestItem::ChangesTrieRoot(root) => DigestItemView::ChangesTrieRoot(root),
            DigestItem::PreRuntime(engine, data) => DigestItemView::PreRuntime(engine, data@),
            DigestItem::Consensus(engine, data) => DigestItemView::Consensus(engine, data@),
            DigestItem::Seal(engine, data) => DigestItemView::Seal(engine, data@),
            DigestItem::ChangesTrieSignal(signal) => DigestItemView::ChangesTrieSignal(signal@),
            DigestItem::Other(data) => DigestItemView::Other(data@),
        }
    }
}

/// A block header.
#[derive(Clone, Debug, PartialEq, Eq)]
pub struct Header {
    /// The hash of the parent block.
    pub parent_hash: H256,
    /// The height of the block.
    pub number: BlockNumber,
    /// The root of the state trie after the block.
    pub state_root: H256,
    /// The root of the trie of the block's extrinsics.
    pub extrinsics_root: H256,
    /// The log entries of the block, in the order in which they were made.
    pub digest: Vec<DigestItem>,
}

/// What a [`Header`] stands for.
pub struct HeaderView {
    pub parent_hash: H256,
    pub number: BlockNumber,
    pub state_root: H256,
    pub extrinsics_root: H256,
    pub digest: Seq<DigestItemView>,
}

impl View for Header {
    type V = HeaderView;

    open spec fn view(&self) -> HeaderView {
        HeaderView {
            parent_hash: self.parent_hash,
            number: self.number,
            state_root: self.state_root,
            extrinsics_root: self.extrinsics_root,
            digest: self.digest@.map_values(|item: DigestItem| item@),
        }
    }
}

} // verus!
