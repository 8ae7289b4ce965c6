use crate::error::ProviderError;
use sha2::{Digest, Sha256};
use sodiumoxide::crypto::box_;
use sodiumoxide::crypto::sealedbox;
use vstd::prelude::*;

verus! {

/// Width of a public key of the anonymous sealing scheme.
pub const PUBLIC_KEY_BYTES: usize = 32;

/// How much longer a sealed message is than the message itself.
pub const SEAL_BYTES: usize = 48;

/// A recipient's public key for anonymous sealed encryption.
pub struct PublicKey {
    pub bytes: [u8; 32],
}

/// Relies on sodiumoxide::init: prepares the library once per process; true
/// when it is ready for use.
#[verifier::external_body]
fn sodium_ready() -> (r: bool) {
    sodiumoxide::init().is_ok()
}

/// Initialises the cryptographic library; must succeed before any request is
/// served.
pub fn init_sodium() -> (r: Result<(), ProviderError>)
    ensures
        r is Err ==> r == Err::<(), ProviderError>(ProviderError::CryptoError),
{
    if sodium_ready() {
        Ok(())
    } else {
        Err(ProviderError::CryptoError)
    }
}

/// The SHA-256 digest of a byte sequence.
pub uninterp spec fn sha256_of(data: Seq<u8>) -> Seq<u8>;

/// Relies on sha2::Sha256::digest: the digest depends on the bytes alone and is
/// 32 bytes long.
#[verifier::external_body]
fn sha256(data: &[u8]) -> (r: Vec<u8>)
    ensures
        r@ == sha256_of(data@),
        r@.len() == 32,
{
    Sha256::digest(data).to_vec()
}

/// The key derived from a sealing secret and a measurement set: one digest
/// over their concatenation, secret first.
pub open spec fn derived_key_spec(sealing_key: Seq<u8>, measurements: Seq<u8>) -> Seq<u8> {
    sha256_of(sealing_key + measurements)
}

/// Derives the requester's key from the platform sealing secret and the
/// measurements of its report.
pub fn derive_key(sealing_key: &[u8], measurements: &[u8]) -> (r: Vec<u8>)
    ensures
        r@ == derived_key_spec(sealing_key@, measurements@),
        r@.len() == 32,
{
    let mut input: Vec<u8> = Vec::new();
    input.extend_from_slice(sealing_key);
    input.extend_from_slice(measurements);
    assert(input@ =~= sealing_key@ + measurements@);
    sha256(input.as_slice())
}

/// Deriving twice from the same secret and measurements gives the same key.
pub proof fn lemma_derive_key_deterministic(s1: Seq<u8>, m1: Seq<u8>, s2: Seq<u8>, m2: Seq<u8>)
    requires
        s1 == s2,
        m1 == m2,
    ensures
        derived_key_spec(s1, m1) == derived_key_spec(s2, m2),
        derived_key_spec(s1, m1) == sha256_of(s1 + m1),
{
}

/// The public key that report data holds in its leading bytes, if it is long
/// enough to hold one. Every 32-byte string is a key of the scheme.
pub open spec fn public_key_spec(report_data: Seq<u8>) -> Result<Seq<u8>, ProviderError> {
    if report_data.len() < PUBLIC_KEY_BYTES {
        Err(ProviderError::PublicKeyError)
    } else {
        Ok(report_data.subrange(0, PUBLIC_KEY_BYTES as int))
    }
}

/// Reads the requester's public key from the leading bytes of its report data.
pub fn extract_public_key(report_data: &[u8]) -> (r: Result<PublicKey, ProviderError>)
    ensures
        match public_key_spec(report_data@) {
            Ok(k) => r is Ok && r->Ok_0.bytes@ == k,
            Err(e) => r == Err::<PublicKey, ProviderError>(e),
        },
{
    if report_data.len() < PUBLIC_KEY_BYTES {
        return Err(ProviderError::PublicKeyError);
    }
    let mut bytes = [0u8; 32];
    let mut i: usize = 0;
    while i < PUBLIC_KEY_BYTES
        invariant
            i <= PUBLIC_KEY_BYTES <= report_data@.len(),
            bytes@.len() == PUBLIC_KEY_BYTES,
            forall|j: int| 0 <= j < i ==> bytes@[j] == report_data@[j],
        decreases PUBLIC_KEY_BYTES - i,
    {
        bytes[i] = report_data[i];
        i = i + 1;
    }
    assert(bytes@ =~= report_data@.subrange(0, PUBLIC_KEY_BYTES as int));
    Ok(PublicKey { bytes })
}

/// Relies on sodiumoxide::crypto::sealedbox::seal: the ciphertext is
/// SEALBYTES (48) longer than the message. It is drawn afresh on every call.
#[verifier::external_body]
fn seal(message: &[u8], public_key: &PublicKey) -> (r: Vec<u8>)
    requires
        message@.len() + SEAL_BYTES <= usize::MAX,
    ensures
        r@.len() == message@.len() + SEAL_BYTES,
{
    sealedbox::seal(message, &box_::PublicKey(public_key.bytes))
}

/// Seals the derived key so that only the holder of the matching private key
/// can open it.
pub fn encrypt_key(derived_key: &[u8], public_key: &PublicKey) -> (r: Result<Vec<u8>, ProviderError>)
    requires
        derived_key@.len() + SEAL_BYTES <= usize::MAX,
    ensures
        r is Ok,
        r->Ok_0@.len() == derived_key@.len() + SEAL_BYTES,
{
    Ok(seal(derived_key, public_key))
}

} // verus!
