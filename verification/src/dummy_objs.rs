//! Stand-ins for collaborators that a light client is asked to name and
//! never consults.

use vstd::prelude::*;

verus! {

/// Stands where a source of genesis authorities is asked for. It has none to
/// give: the light client takes its first authority set from the auxiliary
/// store, where a trusted checkpoint put it.
#[derive(Clone, Debug, PartialEq, Eq)]
pub struct DummyGenesisGrandpaAuthoritySetProvider {}

/// Stands where a handle for spawning background tasks is asked for. The
/// light client imports its blocks one after another and spawns none.
#[derive(Debug, PartialEq, Eq)]
pub struct DummySpawnHandle {}

} // verus!
