//! The per-request dispatch state machine:
//! `Received -> Authenticating -> Decoding -> Encrypting -> Delivering -> Completed`,
//! with `Rejected` reachable on failure. The caller performs the store
//! lookup, the body decoding and the delivery, and feeds each outcome back;
//! every transition is a function of the current stage and that one input.

use vstd::prelude::*;
use crate::auth::{authenticate_with, decision_for, AuthDecision, AuthReason, LookupResult};
use crate::auth::require_key;
use crate::cipher::{id_bytes, nonce_at, seals, EncryptedEnvelope, Event, PayloadCipher, MESSAGE_LIMIT};
use crate::entropy::os_random_bytes;
use crate::error::DispatchError;

verus! {

/// The stages of one dispatch.
#[derive(Clone, Copy, Debug, PartialEq, Eq, Structural)]
pub enum Stage {
    Received,
    Authenticating,
    Decoding,
    Encrypting,
    Delivering,
    Completed,
    Rejected(DispatchError),
}

/// An event as decoded from a request body: the id is optional on the wire.
#[derive(Clone, Debug)]
pub struct IncomingEvent {
    pub id: Option<u128>,
    pub data: Vec<u8>,
}

/// `id` carries the version (random, 4) and variant (RFC 4122) bits of a
/// randomly generated UUID, read as a big-endian 128-bit integer.
pub open spec fn is_random_uuid(id: u128) -> bool {
    (id >> 76u128) & 0xfu128 == 4 && (id >> 62u128) & 0x3u128 == 2
}

/// Relies on uuid::Builder::from_random_bytes (read through as_u128): the
/// sixteen given bytes, big-endian, with the version nibble set to 4
/// (random) and the variant bits to RFC 4122.
#[verifier::external_body]
fn uuid_from_random(b: &[u8]) -> (r: u128)
    requires
        b@.len() == 16,
    ensures
        is_random_uuid(r),
        forall|i: int| 0 <= i < 16 && i != 6 && i != 8 ==> #[trigger] id_bytes(r)[i] == b@[i],
        id_bytes(r)[6] == (b@[6] & 0x0fu8) | 0x40u8,
        id_bytes(r)[8] == (b@[8] & 0x3fu8) | 0x80u8,
{
    let mut a = [0u8; 16];
    a.copy_from_slice(b);
    uuid::Builder::from_random_bytes(a).into_uuid().as_u128()
}

/// A fresh random UUID, or `None` when the operating system's generator is
/// unavailable.
pub fn fresh_event_id() -> (r: Option<u128>)
    ensures
        r matches Some(id) ==> is_random_uuid(id),
{
    match os_random_bytes(16) {
        Some(b) => Some(uuid_from_random(b.as_slice())),
        None => None,
    }
}

/// The error that a rejected authentication becomes.
pub open spec fn auth_error(reason: AuthReason) -> DispatchError {
    match reason {
        AuthReason::MissingKey => DispatchError::MissingKey,
        AuthReason::UnknownKey => DispatchError::UnknownKey,
        AuthReason::Inactive => DispatchError::InactiveKey,
        AuthReason::StoreError => DispatchError::StoreError,
    }
}

/// The HTTP status owed for a failure: every authentication failure is a
/// bare "unauthorized", a malformed body a client error, the rest server
/// errors.
pub open spec fn error_status(e: DispatchError) -> u16 {
    match e {
        DispatchError::MissingKey | DispatchError::UnknownKey | DispatchError::InactiveKey
        | DispatchError::StoreError => 401,
        DispatchError::MalformedEvent => 400,
        DispatchError::EncryptionFailure | DispatchError::TamperedPayload
        | DispatchError::DeliveryFailure => 500,
    }
}

/// The response status of a finished dispatch; `None` while in flight.
pub open spec fn stage_status(s: Stage) -> Option<u16> {
    match s {
        Stage::Completed => Some(200u16),
        Stage::Rejected(e) => Some(error_status(e)),
        _ => None,
    }
}

/// Maps an authentication failure reason to its error kind.
pub fn reason_to_error(reason: AuthReason) -> (r: DispatchError)
    ensures
        r == auth_error(reason),
{
    match reason {
        AuthReason::MissingKey => DispatchError::MissingKey,
        AuthReason::UnknownKey => DispatchError::UnknownKey,
        AuthReason::Inactive => DispatchError::InactiveKey,
        AuthReason::StoreError => DispatchError::StoreError,
    }
}

/// The HTTP status for a failure.
pub fn status_for_error(e: DispatchError) -> (r: u16)
    ensures
        r == error_status(e),
{
    match e {
        DispatchError::MissingKey | DispatchError::UnknownKey | DispatchError::InactiveKey
        | DispatchError::StoreError => 401,
        DispatchError::MalformedEvent => 400,
        DispatchError::EncryptionFailure | DispatchError::TamperedPayload
        | DispatchError::DeliveryFailure => 500,
    }
}

/// The event for a decoded body, with `fresh_id` as its id when the body
/// carries none.
pub fn event_from_incoming_with(incoming: IncomingEvent, fresh_id: u128) -> (r: Event)
    ensures
        r.id == match incoming.id {
            Some(id) => id,
            None => fresh_id,
        },
        r.data@ == incoming.data@,
{
    let id = match incoming.id {
        Some(id) => id,
        None => fresh_id,
    };
    Event { id, data: incoming.data }
}

/// The event for a decoded body; when the body carries no id, a freshly
/// generated random UUID is used, and `None` is returned when none can be
/// drawn.
pub fn event_from_incoming(incoming: IncomingEvent) -> (r: Option<Event>)
    ensures
        incoming.id is Some ==> r is Some,
        r matches Some(e) ==> e.data@ == incoming.data@,
        r matches Some(e) ==> match incoming.id {
            Some(id) => e.id == id,
            None => is_random_uuid(e.id),
        },
{
    match incoming.id {
        Some(_) => Some(event_from_incoming_with(incoming, 0)),
        None => match fresh_event_id() {
            Some(fresh) => Some(event_from_incoming_with(incoming, fresh)),
            None => None,
        },
    }
}

/// The state of one dispatch. Each request owns its own.
pub struct Dispatch {
    stage: Stage,
}

impl Dispatch {
    pub closed spec fn stage_spec(&self) -> Stage {
        self.stage
    }

    /// A dispatch for a request just received.
    pub fn new() -> (r: Dispatch)
        ensures
            r.stage_spec() == Stage::Received,
    {
        Dispatch { stage: Stage::Received }
    }

    /// The current stage.
    pub fn stage(&self) -> (r: Stage)
        ensures
            r == self.stage_spec(),
    {
        self.stage
    }

    /// The response status: `Some` once the dispatch has finished.
    pub fn status(&self) -> (r: Option<u16>)
        ensures
            r == stage_status(self.stage_spec()),
    {
        match self.stage {
            Stage::Completed => Some(200),
            Stage::Rejected(e) => Some(status_for_error(e)),
            _ => None,
        }
    }

    /// Starts authentication with the request's API key. Without a key the
    /// dispatch is rejected at once and `None` tells the caller not to
    /// contact the credential store; otherwise the key to look up is
    /// handed back.
    pub fn receive(&mut self, api_key: Option<Vec<u8>>) -> (r: Option<Vec<u8>>)
        requires
            old(self).stage_spec() == Stage::Received,
        ensures
            api_key is None ==> r is None
                && final(self).stage_spec() == Stage::Rejected(DispatchError::MissingKey)
                && stage_status(final(self).stage_spec()) == Some(401u16),
            api_key matches Some(k) ==> r is Some && r->Some_0@ == k@
                && final(self).stage_spec() == Stage::Authenticating,
    {
        self.stage = Stage::Authenticating;
        match require_key(api_key) {
            Err(d) => {
                match d.reason {
                    Some(reason) => {
                        self.stage = Stage::Rejected(reason_to_error(reason));
                    },
                    None => {},
                }
                None
            },
            Ok(k) => Some(k),
        }
    }

    /// Applies the credential store's answer for the presented key. On
    /// admission the dispatch moves on to decoding; otherwise it is
    /// rejected with the reason's error kind.
    pub fn authenticated(&mut self, presented: &[u8], lookup: &LookupResult) -> (r: AuthDecision)
        requires
            old(self).stage_spec() == Stage::Authenticating,
        ensures
            r == decision_for(presented@, *lookup),
            r.admitted ==> final(self).stage_spec() == Stage::Decoding,
            r.reason matches Some(reason) ==> final(self).stage_spec() == Stage::Rejected(auth_error(reason)),
    {
        let d = authenticate_with(presented, lookup);
        match d.reason {
            None => {
                self.stage = Stage::Decoding;
            },
            Some(reason) => {
                self.stage = Stage::Rejected(reason_to_error(reason));
            },
        }
        d
    }

    /// Applies the outcome of decoding the body: `None` for a body that is
    /// not a well-formed event. A decoded event without an id gets a fresh
    /// one; when no randomness can be drawn for it the dispatch fails as a
    /// server error (`EncryptionFailure`: the entropy source is gone).
    pub fn decoded(&mut self, body: Option<IncomingEvent>) -> (r: Option<Event>)
        requires
            old(self).stage_spec() == Stage::Decoding,
        ensures
            body is None ==> r is None
                && final(self).stage_spec() == Stage::Rejected(DispatchError::MalformedEvent),
            body matches Some(inc) ==> (inc.id is Some ==> r is Some),
            body is Some && r is None ==> final(self).stage_spec() == Stage::Rejected(DispatchError::EncryptionFailure),
            r matches Some(e) ==> final(self).stage_spec() == Stage::Encrypting,
            r matches Some(e) ==> body matches Some(inc) && e.data@ == inc.data@
                && (inc.id matches Some(id) ==> e.id == id)
                && (inc.id is None ==> is_random_uuid(e.id)),
    {
        match body {
            None => {
                self.stage = Stage::Rejected(DispatchError::MalformedEvent);
                None
            },
            Some(inc) => match event_from_incoming(inc) {
                Some(e) => {
                    self.stage = Stage::Encrypting;
                    Some(e)
                },
                None => {
                    self.stage = Stage::Rejected(DispatchError::EncryptionFailure);
                    None
                },
            },
        }
    }

    /// Seals the decoded event. On success the envelope is handed back for
    /// delivery; on `EncryptionFailure` the dispatch is rejected.
    pub fn encrypt(&mut self, cipher: &mut PayloadCipher, event: &Event) -> (r: Option<EncryptedEnvelope>)
        requires
            old(self).stage_spec() == Stage::Encrypting,
            old(cipher).wf(),
        ensures
            final(cipher).wf(),
            final(cipher).key_spec() == old(cipher).key_spec(),
            final(cipher).prefix_spec() == old(cipher).prefix_spec(),
            old(cipher).counter_spec() < u32::MAX ==> final(cipher).counter_spec() == old(cipher).counter_spec() + 1,
            old(cipher).counter_spec() == u32::MAX ==> final(cipher).counter_spec() == u32::MAX,
            r is Some <==> old(cipher).counter_spec() < u32::MAX && event.data@.len() < MESSAGE_LIMIT,
            r matches Some(env) ==> final(self).stage_spec() == Stage::Delivering,
            r matches Some(env) ==> seals(old(cipher).key_spec(), nonce_at(old(cipher).prefix_spec(), old(cipher).counter_spec()), event, &env),
            r is None ==> final(self).stage_spec() == Stage::Rejected(DispatchError::EncryptionFailure),
    {
        match cipher.encrypt(event) {
            Ok(env) => {
                self.stage = Stage::Delivering;
                Some(env)
            },
            Err(_) => {
                self.stage = Stage::Rejected(DispatchError::EncryptionFailure);
                None
            },
        }
    }

    /// Applies the delivery sink's answer. The dispatch completes only when
    /// the sink accepted the envelope; there is no retry here.
    pub fn delivered(&mut self, accepted: bool)
        requires
            old(self).stage_spec() == Stage::Delivering,
        ensures
            accepted ==> final(self).stage_spec() == Stage::Completed,
            !accepted ==> final(self).stage_spec() == Stage::Rejected(DispatchError::DeliveryFailure),
    {
        if accepted {
            self.stage = Stage::Completed;
        } else {
            self.stage = Stage::Rejected(DispatchError::DeliveryFailure);
        }
    }
}

/// Every authentication failure, whatever its reason, is answered with the
/// same bare "unauthorized" status.
pub proof fn lemma_auth_failures_indistinguishable(reason: AuthReason)
    ensures
        stage_status(Stage::Rejected(auth_error(reason))) == Some(401u16),
{
}

} // verus!
