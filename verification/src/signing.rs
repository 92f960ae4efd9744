use hmac::Hmac;
use hmac::Mac;
use hmac::NewMac;
use sha2::Sha256;
use vstd::prelude::*;

use crate::errors::SecretReadError;
use crate::errors::SigningError;
use crate::keyid::derive_key_id;
use crate::keyid::murmurhash3_of;
use crate::layout::locate_secret;
use crate::layout::location;
use crate::layout::SecretLocation;
use crate::mode::Mode;

verus! {

/// The longest payload that can be signed, in bytes: `2^61 - 65`.
///
/// SHA-256 counts the bits it has taken in 64 bits, and under HMAC the first
/// 64 bytes that it takes are not the payload's.
pub const MAX_PAYLOAD_LEN: u64 = 0x1fff_ffff_ffff_ffbf;

/// The HMAC-SHA256 tag of a message under a key, as `hmac::Hmac<sha2::Sha256>`
/// computes it: 32 bytes.
pub uninterp spec fn hmac_sha256_of(key: Seq<u8>, message: Seq<u8>) -> Seq<u8>;

/// A digest: the 32 raw bytes of an HMAC-SHA256 tag.
pub type Digest = [u8; 32];

/// One secret of the store: exactly 32 raw bytes. A secret lives for one
/// request: it is read, used as the key of one digest, and erased.
pub struct Secret {
    bytes: [u8; 32],
}

impl View for Secret {
    type V = Seq<u8>;

    closed spec fn view(&self) -> Seq<u8> {
        self.bytes@
    }
}

/// Thirty-two zero bytes: what an erased secret holds.
pub open spec fn erased() -> Seq<u8> {
    Seq::new(32, |i: int| 0u8)
}

/// What signing a payload gives, depending on how the read of its secret
/// went: the tag under the secret, or the read's error, wrapped.
pub open spec fn signed(payload: Seq<u8>, read: Result<Seq<u8>, SecretReadError>) -> Result<
    Seq<u8>,
    SigningError,
> {
    match read {
        Ok(secret) => Ok(hmac_sha256_of(secret, payload)),
        Err(e) => Err(SigningError::SecretRead(e)),
    }
}

/// How the read of a secret went, as a value.
pub open spec fn read_view(read: Result<Secret, SecretReadError>) -> Result<
    Seq<u8>,
    SecretReadError,
> {
    match read {
        Ok(secret) => Ok(secret@),
        Err(e) => Err(e),
    }
}

/// How signing went, as a value.
pub open spec fn outcome_view(outcome: Result<Digest, SigningError>) -> Result<
    Seq<u8>,
    SigningError,
> {
    match outcome {
        Ok(digest) => Ok(digest@),
        Err(e) => Err(e),
    }
}

impl Secret {
    /// A secret is 32 bytes long.
    pub proof fn lemma_len(self)
        ensures
            self@.len() == 32,
    {
    }

    /// The secret that holds the given bytes.
    pub fn new(bytes: [u8; 32]) -> (secret: Secret)
        ensures
            secret@ == bytes@,
    {
        Secret { bytes }
    }

    /// The secret out of what a read of 32 bytes at its offset gave.
    /// Fewer than 32 bytes mean that the file ends too early.
    pub fn from_read(bytes: &[u8]) -> (secret: Result<Secret, SecretReadError>)
        ensures
            match secret {
                Ok(s) => bytes@.len() >= 32 && s@ == bytes@.subrange(0, 32),
                Err(e) => bytes@.len() < 32 && e == SecretReadError::Truncated,
            },
    {
        if bytes.len() < 32 {
            return Err(SecretReadError::Truncated);
        }
        let mut buf: [u8; 32] = [0u8; 32];
        let mut i: usize = 0;
        while i < 32
            invariant
                i <= 32,
                bytes@.len() >= 32,
                forall|j: int| 0 <= j < i ==> buf@[j] == bytes@[j],
            decreases 32 - i,
        {
            buf[i] = bytes[i];
            i = i + 1;
        }
        assert(buf@ =~= bytes@.subrange(0, 32));
        Ok(Secret { bytes: buf })
    }

    /// Overwrites the secret with zeros.
    pub fn erase(&mut self)
        ensures
            final(self)@ == erased(),
    {
        self.bytes = [0u8; 32];
        assert(self.bytes@ =~= erased());
    }
}

/// Calls `Hmac::<Sha256>::new_varkey`, `update` and `finalize` of the crate
/// `hmac`, and takes the bytes out of the tag that `finalize` returns. The
/// contract claims that this is a function of the key and the message alone,
/// and gives it its name. `new_varkey` takes a key of any length and never
/// fails for this MAC. The message's length is bounded because `Sha256` adds
/// up the bits it is fed in a `u64`.
#[verifier::external_body]
fn hmac_sha256(key: &[u8; 32], message: &[u8]) -> (tag: [u8; 32])
    requires
        message@.len() <= MAX_PAYLOAD_LEN,
    ensures
        tag@ == hmac_sha256_of(key@, message@),
{
    let mut mac = Hmac::<Sha256>::new_varkey(key).expect("HMAC takes a key of any length");
    mac.update(message);
    mac.finalize().into_bytes().into()
}

/// Finds the secret that signs a payload under a mode: the one that the key
/// id of the payload selects.
pub fn select_secret(mode: Mode, payload: &[u8]) -> (at: SecretLocation)
    ensures
        at == location(mode, murmurhash3_of(payload@)),
{
    locate_secret(mode, derive_key_id(payload))
}

/// Signs a payload with a secret, and erases the secret.
pub fn compute_hmac(secret: &mut Secret, payload: &[u8]) -> (digest: Digest)
    requires
        payload@.len() <= MAX_PAYLOAD_LEN,
    ensures
        digest@ == hmac_sha256_of(old(secret)@, payload@),
        final(secret)@ == erased(),
{
    let digest = hmac_sha256(&secret.bytes, payload);
    secret.erase();
    digest
}

/// Signs a payload, given how the read of its secret went. A failed read is
/// handed on at once, wrapped; nothing is tried again.
pub fn sign(payload: &[u8], read: Result<Secret, SecretReadError>) -> (outcome: Result<
    Digest,
    SigningError,
>)
    requires
        payload@.len() <= MAX_PAYLOAD_LEN,
    ensures
        outcome_view(outcome) == signed(payload@, read_view(read)),
{
    match read {
        Ok(secret) => {
            let mut secret = secret;
            Ok(compute_hmac(&mut secret, payload))
        },
        Err(e) => Err(SigningError::SecretRead(e)),
    }
}

} // verus!
