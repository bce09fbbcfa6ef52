//! Tracks which authority set may finalize blocks, for a light client of a
//! chain whose finality gadget announces future authority-set changes in its
//! block headers.
//!
//! A light client verifies headers and does not execute blocks. Headers
//! announce changes of the authority set that take effect after a delay, and
//! the client has to apply each change at exactly the announced height,
//! exactly once, also when an import fails in between. The work is done in
//! two phases:
//!
//! - [`GrandpaVerifier`] looks at each header before it is imported. It
//!   applies the pending change if the header has reached its height, and it
//!   stages the change that the header announces, refusing a second change
//!   while one is pending.
//! - [`BlockImportWrapper`] stands in front of the block importer and makes
//!   the staged change the pending change only if the import went through
//!   without reservation.
//!
//! Both work on an [`AuthoritySetStore`], which holds the two records of the
//! tracker as the bytes that lie in the client's auxiliary key-value store.
//! The library does no input or output: the application loads the store,
//! hands over headers and the importer's answers, and writes back the
//! [`StoreWrites`] that the store reports.

pub mod authorities;
pub mod authority_set;
pub mod block_import;
pub mod block_import_wrapper;
pub mod change;
pub mod dummy_objs;
pub mod grandpa_verifier;
pub mod header;
pub mod laws;
pub mod scale;
pub mod scanner;
pub mod store;

pub use authorities::{AuthorityId, AuthorityList, AuthorityWeight, BlockNumber};
pub use authority_set::LightAuthoritySet;
pub use block_import::{
    BlockCheckParams, BlockImport, BlockImportParams, BlockOrigin, CacheKeyId, ImportResult,
    ImportedAux, StagedChangeToken, GRANDPA_AUTHORITY_CHANGE_INTERMEDIATE_KEY,
};
pub use block_import_wrapper::BlockImportWrapper;
pub use change::{NextChangeInAuthority, ScheduledChange};
pub use dummy_objs::{DummyGenesisGrandpaAuthoritySetProvider, DummySpawnHandle};
pub use grandpa_verifier::{GrandpaVerifier, VerifyError};
pub use header::{ConsensusEngineId, DigestItem, Header, H256};
pub use scanner::{find_scheduled_change, GrandpaLog, GRANDPA_ENGINE_ID};
pub use store::{
    AuthoritySetStore, RecordWrite, StorageError, StoreWrites, LIGHT_AUTHORITY_SET_KEY,
    NEXT_CHANGE_IN_AUTHORITY_KEY,
};
