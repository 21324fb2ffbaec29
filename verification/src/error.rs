//! Typed failures reported to the caller.

use vstd::prelude::*;

verus! {

/// A storage-layer failure: the record asked for is absent from the store.
#[derive(Clone, Copy, Debug, PartialEq, Eq, Structural)]
pub enum StdError {
    NotFound,
}

/// A failure of a state-changing operation: either a storage-layer failure,
/// or a caller that is not the stored owner on a privileged write.
#[derive(Clone, Copy, Debug, PartialEq, Eq, Structural)]
pub enum ContractError {
    Std(StdError),
    Unauthorized {},
}

} // verus!
