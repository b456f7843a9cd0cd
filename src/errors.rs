//! Errors of a commit.
use vstd::prelude::*;
use crate::mapping::ActionError;

verus! {

/// Why a commit did not produce a new version.
pub enum DeltaTxnError {
    /// The table identifier could not be turned into a table location.
    InvalidTarget(String),
    /// The store could not be reached or the table state could not be read.
    OpenFailed(String),
    /// The table has no committed version yet, so no expected version can match.
    NotInitialized,
    /// The caller's expected version is not the table's current version.
    VersionConflict { expected: i64, actual: i64 },
    /// An action of the batch is malformed: which one, and the field it lacks.
    InvalidAction(ActionError),
    /// The store failed to write the commit for another reason.
    CommitFailed(String),
}

} // verus!
