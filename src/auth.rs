//! Key authentication: turns a presented API key and the credential store's
//! answer into an admission decision, failing closed.

use vstd::prelude::*;

verus! {

/// A credential record as held by the credential store.
#[derive(Clone, Debug)]
pub struct Credential {
    pub key: Vec<u8>,
    pub active: bool,
}

/// The credential store's answer to one lookup.
#[derive(Clone, Debug)]
pub enum LookupResult {
    /// A record was found for the presented key.
    Found(Credential),
    /// No record exists for the presented key.
    NotFound,
    /// The store could not be reached, failed, or timed out.
    StoreError,
}

/// Why a request was not admitted.
#[derive(Clone, Copy, Debug, PartialEq, Eq, Structural)]
pub enum AuthReason {
    MissingKey,
    UnknownKey,
    Inactive,
    StoreError,
}

/// The outcome of authenticating one request. `reason` is `None` exactly
/// when the request is admitted.
#[derive(Clone, Copy, Debug, PartialEq, Eq, Structural)]
pub struct AuthDecision {
    pub admitted: bool,
    pub reason: Option<AuthReason>,
}

pub open spec fn admitted_decision() -> AuthDecision {
    AuthDecision { admitted: true, reason: None }
}

pub open spec fn rejected_for(reason: AuthReason) -> AuthDecision {
    AuthDecision { admitted: false, reason: Some(reason) }
}

/// The decision owed for a present key given the store's answer.
pub open spec fn decision_for(presented: Seq<u8>, lookup: LookupResult) -> AuthDecision {
    match lookup {
        LookupResult::StoreError => rejected_for(AuthReason::StoreError),
        LookupResult::NotFound => rejected_for(AuthReason::UnknownKey),
        LookupResult::Found(c) => if c.key@ != presented {
            rejected_for(AuthReason::UnknownKey)
        } else if !c.active {
            rejected_for(AuthReason::Inactive)
        } else {
            admitted_decision()
        },
    }
}

/// Compares two keys without an early exit: every byte of equal-length
/// inputs is visited whatever the position of the first difference.
pub fn keys_match(presented: &[u8], stored: &[u8]) -> (r: bool)
    ensures
        r == (presented@ == stored@),
{
    if presented.len() != stored.len() {
        return false;
    }
    let mut diff: u8 = 0;
    let mut i: usize = 0;
    while i < presented.len()
        invariant
            i <= presented@.len(),
            presented@.len() == stored@.len(),
            (diff == 0) == (forall|j: int| 0 <= j < i ==> presented@[j] == stored@[j]),
        decreases presented@.len() - i,
    {
        let a: u8 = presented[i];
        let b: u8 = stored[i];
        assert(((diff | (a ^ b)) == 0u8) == (diff == 0u8 && a == b)) by (bit_vector);
        diff = diff | (a ^ b);
        i = i + 1;
    }
    if diff == 0 {
        assert(presented@ =~= stored@);
    }
    diff == 0
}

/// The first step of authentication: a request without a key is
/// rejected as `MissingKey` before the store is asked; otherwise the key to
/// look up is handed back.
pub fn require_key(presented: Option<Vec<u8>>) -> (r: Result<Vec<u8>, AuthDecision>)
    ensures
        presented is None ==> r == Err::<Vec<u8>, AuthDecision>(rejected_for(AuthReason::MissingKey)),
        presented matches Some(k) ==> r is Ok && r->Ok_0@ == k@,
{
    match presented {
        None => Err(AuthDecision { admitted: false, reason: Some(AuthReason::MissingKey) }),
        Some(k) => Ok(k),
    }
}

/// Decides admission for a present key from the store's answer. A store
/// failure rejects (fail closed); a record whose key does not match the
/// presented one counts as unknown.
pub fn authenticate_with(presented: &[u8], lookup: &LookupResult) -> (r: AuthDecision)
    ensures
        r == decision_for(presented@, *lookup),
        r.admitted == (r.reason is None),
{
    match lookup {
        LookupResult::StoreError => AuthDecision { admitted: false, reason: Some(AuthReason::StoreError) },
        LookupResult::NotFound => AuthDecision { admitted: false, reason: Some(AuthReason::UnknownKey) },
        LookupResult::Found(c) => {
            if !keys_match(presented, c.key.as_slice()) {
                AuthDecision { admitted: false, reason: Some(AuthReason::UnknownKey) }
            } else if !c.active {
                AuthDecision { admitted: false, reason: Some(AuthReason::Inactive) }
            } else {
                AuthDecision { admitted: true, reason: None }
            }
        },
    }
}

/// A key whose record is marked inactive is rejected as `Inactive`; the
/// decision reads only the store's current answer, so no earlier state of
/// the record matters.
pub proof fn lemma_inactive_rejected(presented: Seq<u8>, record: Credential)
    requires
        record.key@ == presented,
        !record.active,
    ensures
        decision_for(presented, LookupResult::Found(record)) == rejected_for(AuthReason::Inactive),
{
}

/// A store failure never admits: it is rejected as `StoreError`.
pub proof fn lemma_store_error_fails_closed(presented: Seq<u8>)
    ensures
        decision_for(presented, LookupResult::StoreError) == rejected_for(AuthReason::StoreError),
{
}

} // verus!
