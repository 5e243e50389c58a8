use vstd::prelude::*;

use crate::action::IoFailure;

verus! {

/// Why a call on the store failed.
#[derive(Clone, Debug)]
pub enum StoreError {
    /// The file operation failed; the cache was left as it was.
    Persistence(IoFailure),
    /// The action could not be delivered or its reply never came: the store
    /// is closed or closing.
    Dispatch,
}

/// The caller's result from what came back on an action's reply channel:
/// `None` when the action was never delivered or its reply was dropped.
pub fn settle<T>(delivered: Option<Result<T, IoFailure>>) -> (r: Result<T, StoreError>)
    ensures
        r == match delivered {
            None => Err(StoreError::Dispatch),
            Some(Ok(v)) => Ok(v),
            Some(Err(e)) => Err(StoreError::Persistence(e)),
        },
{
    match delivered {
        None => Err(StoreError::Dispatch),
        Some(Ok(v)) => Ok(v),
        Some(Err(e)) => Err(StoreError::Persistence(e)),
    }
}

} // verus!
