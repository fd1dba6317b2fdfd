use vstd::prelude::*;

use crate::bytes::push_all;
use crate::errors::L0Error;

verus! {

/// Seed length, in bytes, that the key engine requires.
pub const SEED_LEN: usize = 32;

/// Length of a public key the key engine hands out.
pub const PUBLIC_KEY_LEN: usize = 32;

/// Length of a signature the key engine produces.
pub const SIGNATURE_LEN: usize = 64;

/// The Ed25519 public key derived from a 32-byte seed: a function of
/// the seed alone, named but not written out.
pub uninterp spec fn ed25519_public_of(seed: Seq<u8>) -> Seq<u8>;

/// The Ed25519 signature over `msg` under the key derived from `seed`.
/// Ed25519 signing is deterministic, so this is a function of the two
/// arguments alone.
pub uninterp spec fn ed25519_sign_of(seed: Seq<u8>, msg: Seq<u8>) -> Seq<u8>;

/// The Ed25519 verification outcome for a public key, a message and a
/// signature, all as plain bytes. Byte strings that decode to no valid
/// key or signature never verify.
pub uninterp spec fn ed25519_verify_ok(pk: Seq<u8>, msg: Seq<u8>, sig: Seq<u8>) -> bool;

/// Relies on ed25519_dalek::SigningKey::from_bytes and
/// VerifyingKey::to_bytes: the 32-byte public key is a function of the
/// 32-byte seed alone.
#[verifier::external_body]
fn ed25519_public_key(seed: &Vec<u8>) -> (r: Vec<u8>)
    requires
        seed@.len() == 32,
    ensures
        r@ == ed25519_public_of(seed@),
        r@.len() == 32,
{
    let mut seed_bytes = [0u8; 32];
    seed_bytes.copy_from_slice(seed.as_slice());
    let signing_key = ed25519_dalek::SigningKey::from_bytes(&seed_bytes);
    signing_key.verifying_key().to_bytes().to_vec()
}

/// Relies on ed25519_dalek::SigningKey::try_sign, which is infallible
/// for a valid signing key and deterministic (RFC 8032): the 64-byte
/// signature depends on seed and message alone, and a signature so
/// produced verifies under the key's own public key.
#[verifier::external_body]
fn ed25519_sign(seed: &Vec<u8>, msg: &Vec<u8>) -> (r: Vec<u8>)
    requires
        seed@.len() == 32,
    ensures
        r@ == ed25519_sign_of(seed@, msg@),
        r@.len() == 64,
        ed25519_verify_ok(ed25519_public_of(seed@), msg@, r@),
{
    let mut seed_bytes = [0u8; 32];
    seed_bytes.copy_from_slice(seed.as_slice());
    let signing_key = ed25519_dalek::SigningKey::from_bytes(&seed_bytes);
    ed25519_dalek::Signer::sign(&signing_key, msg.as_slice()).to_bytes().to_vec()
}

/// Relies on ed25519_dalek::VerifyingKey::verify: acceptance is a
/// function of the key, message and signature bytes alone. Bytes that
/// decode to no valid key or signature are rejected here directly, as
/// the engine's own decoders reject them.
#[verifier::external_body]
fn ed25519_verify(pk: &Vec<u8>, msg: &Vec<u8>, sig: &Vec<u8>) -> (r: bool)
    ensures
        r == ed25519_verify_ok(pk@, msg@, sig@),
{
    let pk_bytes: [u8; 32] = match pk.as_slice().try_into() {
        Ok(b) => b,
        Err(_) => return false,
    };
    let sig_bytes: [u8; 64] = match sig.as_slice().try_into() {
        Ok(b) => b,
        Err(_) => return false,
    };
    let verifying_key = match ed25519_dalek::VerifyingKey::from_bytes(&pk_bytes) {
        Ok(k) => k,
        Err(_) => return false,
    };
    let signature = ed25519_dalek::Signature::from_bytes(&sig_bytes);
    ed25519_dalek::Verifier::verify(&verifying_key, msg.as_slice(), &signature).is_ok()
}

/// A derived key pair. The private component of an Ed25519 pair is its
/// seed; the public component is the point derived from it.
#[derive(Debug)]
pub struct KeyPair {
    pub public_key: Vec<u8>,
    pub private_key: Vec<u8>,
}

/// Derive a key pair deterministically from a fixed-length seed.
///
/// Succeeds exactly when the seed is `SEED_LEN` bytes long; the private
/// key is the seed itself and the public key is the one the key engine
/// derives from it.
pub fn derive_key_pair(seed: &Vec<u8>) -> (r: Result<KeyPair, L0Error>)
    ensures
        seed@.len() == SEED_LEN ==> (r matches Ok(kp)
            && kp.public_key@ == ed25519_public_of(seed@)
            && kp.public_key@.len() == PUBLIC_KEY_LEN
            && kp.private_key@ == seed@),
        seed@.len() != SEED_LEN ==> r == Err::<KeyPair, L0Error>(L0Error::InvalidSeedLength),
{
    if seed.len() != SEED_LEN {
        return Err(L0Error::InvalidSeedLength);
    }
    let public_key = ed25519_public_key(seed);
    let mut private_key: Vec<u8> = Vec::new();
    push_all(&mut private_key, seed);
    assert(Seq::<u8>::empty() + seed@ =~= seed@);
    Ok(KeyPair { public_key, private_key })
}

/// Sign `msg` with a private key.
///
/// Succeeds exactly when the key has the length the engine requires;
/// the signature is deterministic and verifies under the matching
/// public key.
pub fn sign(private_key: &Vec<u8>, msg: &Vec<u8>) -> (r: Result<Vec<u8>, L0Error>)
    ensures
        private_key@.len() == SEED_LEN ==> (r matches Ok(sig)
            && sig@ == ed25519_sign_of(private_key@, msg@)
            && sig@.len() == SIGNATURE_LEN
            && ed25519_verify_ok(ed25519_public_of(private_key@), msg@, sig@)),
        private_key@.len() != SEED_LEN ==> r == Err::<Vec<u8>, L0Error>(L0Error::SigningError),
{
    if private_key.len() != SEED_LEN {
        return Err(L0Error::SigningError);
    }
    Ok(ed25519_sign(private_key, msg))
}

/// Check an Ed25519 signature over `msg` under `public_key`.
pub fn verify(public_key: &Vec<u8>, msg: &Vec<u8>, sig: &Vec<u8>) -> (r: bool)
    ensures
        r == ed25519_verify_ok(public_key@, msg@, sig@),
{
    ed25519_verify(public_key, msg, sig)
}

} // verus!
