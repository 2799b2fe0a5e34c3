//! Payload protection: seals event data with ChaCha20-Poly1305 under a
//! process-wide key, binding the event id as associated data, and opens
//! sealed envelopes again for delivery and audit.
//!
//! Nonces are a random eight-byte prefix, drawn once per cipher from the
//! operating system, followed by a big-endian 32-bit counter that advances
//! on every sealing attempt, so a nonce never repeats for the lifetime of a
//! cipher; two ciphers under one key share nonces only if their prefixes
//! are equal.

use vstd::prelude::*;
use chacha20poly1305::aead::{Aead, KeyInit, Payload};
use chacha20poly1305::{ChaCha20Poly1305, Key, Nonce};
use crate::entropy::os_random_bytes;
use crate::error::DispatchError;

verus! {

/// Length of the cipher key in bytes.
pub const KEY_LEN: usize = 32;

/// Length of a nonce in bytes.
pub const NONCE_LEN: usize = 12;

/// Length of the nonce prefix drawn at construction.
pub const PREFIX_LEN: usize = 8;

/// Length of the authentication tag in bytes.
pub const TAG_LEN: usize = 16;

/// Messages must be shorter than this many bytes (the ChaCha20 block
/// counter bound: 64-byte blocks, fewer than `u32::MAX` of them).
pub const MESSAGE_LIMIT: u64 = 274877906880;

/// The output of ChaCha20-Poly1305 (ciphertext followed by tag) for a key,
/// nonce, associated data and message.
pub uninterp spec fn sealed(key: Seq<u8>, nonce: Seq<u8>, aad: Seq<u8>, msg: Seq<u8>) -> Seq<u8>;

/// An event: its identity (a UUID as a 128-bit integer) and its payload.
#[derive(Clone, Debug)]
pub struct Event {
    pub id: u128,
    pub data: Vec<u8>,
}

/// A sealed event. `id` is carried in the clear and bound into the tag.
#[derive(Clone, Debug)]
pub struct EncryptedEnvelope {
    pub id: u128,
    pub ciphertext: Vec<u8>,
    pub nonce: Vec<u8>,
    pub auth_tag: Vec<u8>,
}

/// The 16 big-endian bytes of an event id.
pub open spec fn id_bytes(id: u128) -> Seq<u8> {
    Seq::new(16, |i: int| (id >> ((120 - 8 * i) as u128)) as u8)
}

/// The 4 big-endian bytes of a nonce counter.
pub open spec fn counter_bytes(c: u32) -> Seq<u8> {
    Seq::new(4, |i: int| (c >> ((24 - 8 * i) as u32)) as u8)
}

/// The nonce used for the sealing made at counter value `c`.
pub open spec fn nonce_at(prefix: Seq<u8>, c: u32) -> Seq<u8> {
    prefix + counter_bytes(c)
}

/// `msg` is a message that seals, under these parameters, to `bytes`.
pub open spec fn authentic(key: Seq<u8>, nonce: Seq<u8>, aad: Seq<u8>, bytes: Seq<u8>, msg: Seq<u8>) -> bool {
    msg.len() < MESSAGE_LIMIT && sealed(key, nonce, aad, msg) == bytes
}

/// The bytes an envelope presents for verification: ciphertext then tag.
pub open spec fn envelope_bytes(env: &EncryptedEnvelope) -> Seq<u8> {
    env.ciphertext@ + env.auth_tag@
}

/// `env` is the sealing of `e` under `key` with nonce `nonce`.
pub open spec fn seals(key: Seq<u8>, nonce: Seq<u8>, e: &Event, env: &EncryptedEnvelope) -> bool {
    &&& env.id == e.id
    &&& env.nonce@ == nonce
    &&& e.data@.len() < MESSAGE_LIMIT
    &&& envelope_bytes(env) == sealed(key, nonce, id_bytes(e.id), e.data@)
    &&& env.ciphertext@.len() == e.data@.len()
    &&& env.auth_tag@.len() == TAG_LEN
}

/// What `decrypt` may return for `env` under `key`: the unique authentic
/// message with the envelope's id, or `TamperedPayload` when none exists.
pub open spec fn opens(key: Seq<u8>, env: &EncryptedEnvelope, r: Result<Event, DispatchError>) -> bool {
    match r {
        Ok(ev) => {
            &&& env.nonce@.len() == NONCE_LEN
            &&& ev.id == env.id
            &&& forall|q: Seq<u8>| #[trigger] authentic(key, env.nonce@, id_bytes(env.id), envelope_bytes(env), q) <==> q == ev.data@
        },
        Err(e) => {
            &&& e == DispatchError::TamperedPayload
            &&& env.nonce@.len() == NONCE_LEN ==> forall|q: Seq<u8>| !#[trigger] authentic(key, env.nonce@, id_bytes(env.id), envelope_bytes(env), q)
        },
    }
}

/// Relies on ChaCha20Poly1305::encrypt (RustCrypto `chacha20poly1305`): the
/// ciphertext followed by the 16-byte tag; it fails only when the message
/// reaches the block-counter bound.
#[verifier::external_body]
fn aead_seal(key: &[u8], nonce: &[u8], aad: &[u8], msg: &[u8]) -> (r: Result<Vec<u8>, ()>)
    requires
        key@.len() == KEY_LEN,
        nonce@.len() == NONCE_LEN,
    ensures
        r is Ok <==> msg@.len() < MESSAGE_LIMIT,
        r matches Ok(c) ==> c@ == sealed(key@, nonce@, aad@, msg@) && c@.len() == msg@.len() + TAG_LEN,
{
    let cipher = ChaCha20Poly1305::new(Key::from_slice(key));
    cipher.encrypt(Nonce::from_slice(nonce), Payload { msg, aad }).map_err(|_| ())
}

/// Relies on ChaCha20Poly1305::decrypt: it succeeds exactly when `bytes` is
/// the sealing of some message under these parameters (the tag verifies),
/// and then returns that message.
#[verifier::external_body]
fn aead_open(key: &[u8], nonce: &[u8], aad: &[u8], bytes: &[u8]) -> (r: Result<Vec<u8>, ()>)
    requires
        key@.len() == KEY_LEN,
        nonce@.len() == NONCE_LEN,
    ensures
        r matches Ok(p) ==> forall|q: Seq<u8>| #[trigger] authentic(key@, nonce@, aad@, bytes@, q) <==> q == p@,
        r is Err ==> forall|q: Seq<u8>| !#[trigger] authentic(key@, nonce@, aad@, bytes@, q),
{
    let cipher = ChaCha20Poly1305::new(Key::from_slice(key));
    cipher.decrypt(Nonce::from_slice(nonce), Payload { msg: bytes, aad }).map_err(|_| ())
}

/// The big-endian bytes of an event id.
pub fn id_to_bytes(id: u128) -> (r: Vec<u8>)
    ensures
        r@ == id_bytes(id),
{
    let mut r: Vec<u8> = Vec::new();
    let mut i: usize = 0;
    while i < 16
        invariant
            i <= 16,
            r@ =~= id_bytes(id).subrange(0, i as int),
        decreases 16 - i,
    {
        let shift: u128 = (120 - 8 * i) as u128;
        r.push((id >> shift) as u8);
        i = i + 1;
    }
    r
}

/// The nonce for counter value `c`: the prefix, then `c` big-endian.
pub fn nonce_for(prefix: &[u8], c: u32) -> (r: Vec<u8>)
    requires
        prefix@.len() == PREFIX_LEN,
    ensures
        r@ == nonce_at(prefix@, c),
        r@.len() == NONCE_LEN,
{
    let mut r: Vec<u8> = Vec::new();
    let mut k: usize = 0;
    while k < prefix.len()
        invariant
            k <= prefix@.len(),
            r@ =~= prefix@.subrange(0, k as int),
        decreases prefix@.len() - k,
    {
        r.push(prefix[k]);
        k = k + 1;
    }
    let mut i: usize = 0;
    while i < 4
        invariant
            i <= 4,
            r@ =~= prefix@ + counter_bytes(c).subrange(0, i as int),
        decreases 4 - i,
    {
        let shift: u32 = (24 - 8 * i) as u32;
        r.push((c >> shift) as u8);
        i = i + 1;
    }
    assert(counter_bytes(c).subrange(0, 4) =~= counter_bytes(c));
    r
}

/// Seals and opens event payloads under one key. The counter counts the
/// sealings attempted so far; each uses the nonce `nonce_at(prefix, counter)`.
pub struct PayloadCipher {
    key: Vec<u8>,
    prefix: Vec<u8>,
    counter: u32,
}

impl PayloadCipher {
    pub closed spec fn key_spec(&self) -> Seq<u8> {
        self.key@
    }

    pub closed spec fn prefix_spec(&self) -> Seq<u8> {
        self.prefix@
    }

    pub closed spec fn counter_spec(&self) -> u32 {
        self.counter
    }

    /// The key and the prefix have their fixed lengths.
    pub open spec fn wf(&self) -> bool {
        self.key_spec().len() == KEY_LEN && self.prefix_spec().len() == PREFIX_LEN
    }

    /// A cipher under `key` whose nonces start with `prefix`, with no nonce
    /// used yet; `None` when the key is not 32 bytes or the prefix not 8.
    /// Nonces are unique only per cipher: a prefix must never be used for
    /// two ciphers under one key.
    pub fn with_prefix(key: Vec<u8>, prefix: Vec<u8>) -> (r: Option<PayloadCipher>)
        ensures
            r is Some <==> key@.len() == KEY_LEN && prefix@.len() == PREFIX_LEN,
            r matches Some(c) ==> c.wf() && c.key_spec() == key@ && c.prefix_spec() == prefix@
                && c.counter_spec() == 0,
    {
        if key.len() != KEY_LEN || prefix.len() != PREFIX_LEN {
            return None;
        }
        Some(PayloadCipher { key, prefix, counter: 0 })
    }

    /// A cipher under `key` with a prefix freshly drawn from the operating
    /// system's generator; `None` when the key is not 32 bytes long or the
    /// generator is unavailable.
    pub fn new(key: Vec<u8>) -> (r: Option<PayloadCipher>)
        ensures
            key@.len() != KEY_LEN ==> r is None,
            r matches Some(c) ==> c.wf() && c.key_spec() == key@ && c.counter_spec() == 0,
    {
        if key.len() != KEY_LEN {
            return None;
        }
        match os_random_bytes(PREFIX_LEN) {
            Some(prefix) => PayloadCipher::with_prefix(key, prefix),
            None => None,
        }
    }

    /// The number of sealings attempted so far.
    pub fn sealed_count(&self) -> (r: u32)
        ensures
            r == self.counter_spec(),
    {
        self.counter
    }

    /// Seals `event`. Each attempt consumes the next nonce; once the counter
    /// is exhausted every call fails rather than reuse a nonce. It fails
    /// with `EncryptionFailure` only then or when the payload is too long
    /// for the cipher; it never truncates.
    pub fn encrypt(&mut self, event: &Event) -> (r: Result<EncryptedEnvelope, DispatchError>)
        requires
            old(self).wf(),
        ensures
            final(self).wf(),
            final(self).key_spec() == old(self).key_spec(),
            final(self).prefix_spec() == old(self).prefix_spec(),
            old(self).counter_spec() == u32::MAX ==> final(self).counter_spec() == u32::MAX
                && r == Err::<EncryptedEnvelope, DispatchError>(DispatchError::EncryptionFailure),
            old(self).counter_spec() < u32::MAX ==> final(self).counter_spec() == old(self).counter_spec() + 1
                && (r is Ok <==> event.data@.len() < MESSAGE_LIMIT),
            r matches Ok(env) ==> seals(old(self).key_spec(), nonce_at(old(self).prefix_spec(), old(self).counter_spec()), event, &env),
            r matches Err(e) ==> e == DispatchError::EncryptionFailure,
    {
        if self.counter == u32::MAX {
            return Err(DispatchError::EncryptionFailure);
        }
        let nonce = nonce_for(self.prefix.as_slice(), self.counter);
        self.counter = self.counter + 1;
        let aad = id_to_bytes(event.id);
        match aead_seal(self.key.as_slice(), nonce.as_slice(), aad.as_slice(), event.data.as_slice()) {
            Err(_) => Err(DispatchError::EncryptionFailure),
            Ok(bytes) => {
                let split: usize = bytes.len() - TAG_LEN;
                let mut ciphertext: Vec<u8> = Vec::new();
                let mut auth_tag: Vec<u8> = Vec::new();
                let mut i: usize = 0;
                while i < bytes.len()
                    invariant
                        split == bytes@.len() - TAG_LEN,
                        i <= bytes@.len(),
                        i <= split ==> ciphertext@ =~= bytes@.subrange(0, i as int) && auth_tag@.len() == 0,
                        i > split ==> ciphertext@ =~= bytes@.subrange(0, split as int)
                            && auth_tag@ =~= bytes@.subrange(split as int, i as int),
                    decreases bytes@.len() - i,
                {
                    if i < split {
                        ciphertext.push(bytes[i]);
                    } else {
                        auth_tag.push(bytes[i]);
                    }
                    i = i + 1;
                }
                assert(ciphertext@ + auth_tag@ =~= bytes@);
                Ok(EncryptedEnvelope { id: event.id, ciphertext, nonce, auth_tag })
            },
        }
    }

    /// Opens `env`: the event it seals, with the envelope's id, or
    /// `TamperedPayload` when its tag does not verify (any change to the
    /// ciphertext, tag, nonce or id) or its nonce is malformed.
    pub fn decrypt(&self, env: &EncryptedEnvelope) -> (r: Result<Event, DispatchError>)
        requires
            self.wf(),
        ensures
            opens(self.key_spec(), env, r),
    {
        if env.nonce.len() != NONCE_LEN {
            return Err(DispatchError::TamperedPayload);
        }
        let mut bytes: Vec<u8> = Vec::new();
        let mut i: usize = 0;
        while i < env.ciphertext.len()
            invariant
                i <= env.ciphertext@.len(),
                bytes@ =~= env.ciphertext@.subrange(0, i as int),
            decreases env.ciphertext@.len() - i,
        {
            bytes.push(env.ciphertext[i]);
            i = i + 1;
        }
        let mut j: usize = 0;
        while j < env.auth_tag.len()
            invariant
                j <= env.auth_tag@.len(),
                bytes@ =~= env.ciphertext@ + env.auth_tag@.subrange(0, j as int),
            decreases env.auth_tag@.len() - j,
        {
            bytes.push(env.auth_tag[j]);
            j = j + 1;
        }
        assert(bytes@ =~= envelope_bytes(env));
        let aad = id_to_bytes(env.id);
        match aead_open(self.key.as_slice(), env.nonce.as_slice(), aad.as_slice(), bytes.as_slice()) {
            Ok(data) => Ok(Event { id: env.id, data }),
            Err(_) => Err(DispatchError::TamperedPayload),
        }
    }
}

/// Opening what was sealed gives the event back: when `env` is the sealing
/// of `e` and `r` is a result `decrypt` may return for `env` under the same
/// key, `r` is `Ok` with `e`'s id and data.
pub proof fn lemma_round_trip(key: Seq<u8>, nonce: Seq<u8>, e: &Event, env: &EncryptedEnvelope, r: Result<Event, DispatchError>)
    requires
        nonce.len() == NONCE_LEN,
        seals(key, nonce, e, env),
        opens(key, env, r),
    ensures
        r matches Ok(d) && d.id == e.id && d.data@ == e.data@,
{
    assert(authentic(key, env.nonce@, id_bytes(env.id), envelope_bytes(env), e.data@));
}

/// An envelope whose presented bytes (ciphertext and tag) differ from those
/// of the sealing of `e` never opens to `e`'s data: if it opens at all, it
/// opens to other data.
pub proof fn lemma_altered_never_yields_sealed_data(
    key: Seq<u8>,
    nonce: Seq<u8>,
    e: &Event,
    env: &EncryptedEnvelope,
    altered: &EncryptedEnvelope,
    r: Result<Event, DispatchError>,
)
    requires
        seals(key, nonce, e, env),
        altered.id == env.id,
        altered.nonce@ == env.nonce@,
        envelope_bytes(altered) != envelope_bytes(env),
        opens(key, altered, r),
    ensures
        r matches Ok(d) ==> d.data@ != e.data@,
{
    if r is Ok {
        let d = r->Ok_0;
        assert(authentic(key, altered.nonce@, id_bytes(altered.id), envelope_bytes(altered), d.data@));
    }
}

/// Distinct counter values give distinct nonces under one prefix.
pub proof fn lemma_nonce_unique(prefix: Seq<u8>, c1: u32, c2: u32)
    requires
        c1 != c2,
    ensures
        nonce_at(prefix, c1) != nonce_at(prefix, c2),
{
    if nonce_at(prefix, c1) == nonce_at(prefix, c2) {
        let n = prefix.len() as int;
        assert forall|i: int| 0 <= i < 4 implies #[trigger] counter_bytes(c1)[i] == counter_bytes(c2)[i] by {
            assert(counter_bytes(c1)[i] == nonce_at(prefix, c1)[n + i]);
            assert(counter_bytes(c2)[i] == nonce_at(prefix, c2)[n + i]);
        }
        let b1 = counter_bytes(c1);
        let b2 = counter_bytes(c2);
        assert(b1[0] == b2[0] && b1[1] == b2[1] && b1[2] == b2[2] && b1[3] == b2[3]);
        assert(
            ((c1 >> 24u32) as u8 == (c2 >> 24u32) as u8 && (c1 >> 16u32) as u8 == (c2 >> 16u32) as u8
            && (c1 >> 8u32) as u8 == (c2 >> 8u32) as u8 && (c1 >> 0u32) as u8 == (c2 >> 0u32) as u8)
            ==> c1 == c2
        ) by (bit_vector);
    }
}

/// Successive sealings by one cipher never share a nonce: the nonces used
/// at two counter values that a cipher passes through one after the other
/// (the counter only grows) differ.
pub proof fn lemma_successive_nonces_differ(earlier: &PayloadCipher, later: &PayloadCipher)
    requires
        earlier.prefix_spec() == later.prefix_spec(),
        earlier.counter_spec() < later.counter_spec(),
    ensures
        nonce_at(earlier.prefix_spec(), earlier.counter_spec()) != nonce_at(later.prefix_spec(), later.counter_spec()),
{
    lemma_nonce_unique(earlier.prefix_spec(), earlier.counter_spec(), later.counter_spec());
}

} // verus!
