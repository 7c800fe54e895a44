//! Failure taxonomy of the forum core.
//!
//! Every fallible operation surfaces one of these values and nothing
//! else; callers treat each as "operation unavailable" and abandon the
//! request. No operation retries or partially applies a write.

use vstd::prelude::*;

verus! {

/// What a forum operation reports when it cannot produce a result.
///
/// `StoreUnavailable` and `StoreOperationFailed` are raised by a file
/// backing when opening the store or running a statement fails; the
/// in-memory store itself never raises them. `NotFound` marks an
/// expected row that is absent, and `Unauthenticated` a request that
/// presented no usable identity where one was required.
#[derive(Clone, Copy, Debug, PartialEq, Eq, Structural)]
pub enum StoreError {
    StoreUnavailable,
    StoreOperationFailed,
    NotFound,
    Unauthenticated,
}

impl StoreError {
    /// A short description, for surfacing a generic failure response.
    pub fn describe(&self) -> (r: &'static str)
        ensures
            r@ == self.spec_describe(),
    {
        proof {
            reveal_strlit("store unavailable");
            reveal_strlit("store operation failed");
            reveal_strlit("not found");
            reveal_strlit("unauthenticated");
        }
        match self {
            StoreError::StoreUnavailable => "store unavailable",
            StoreError::StoreOperationFailed => "store operation failed",
            StoreError::NotFound => "not found",
            StoreError::Unauthenticated => "unauthenticated",
        }
    }

    /// The description each variant carries.
    pub open spec fn spec_describe(&self) -> Seq<char> {
        match self {
            StoreError::StoreUnavailable => "store unavailable"@,
            StoreError::StoreOperationFailed => "store operation failed"@,
            StoreError::NotFound => "not found"@,
            StoreError::Unauthenticated => "unauthenticated"@,
        }
    }
}

} // verus!
