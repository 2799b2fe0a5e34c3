//! The error taxonomy of the dispatch pipeline.

use vstd::prelude::*;

verus! {

/// Every way a dispatch can end short of delivery. The four authentication
/// kinds are all answered with the same "unauthorized" status.
#[derive(Clone, Copy, Debug, PartialEq, Eq, Structural)]
pub enum DispatchError {
    MissingKey,
    UnknownKey,
    InactiveKey,
    StoreError,
    MalformedEvent,
    EncryptionFailure,
    TamperedPayload,
    DeliveryFailure,
}

} // verus!
