use vstd::prelude::*;

verus! {

/// Identifier of a hash algorithm the digest engine offers.
#[derive(Clone, Copy, Debug, PartialEq, Eq, Structural)]
pub enum HashAlg {
    Sha256,
    Sha384,
    Sha512,
}

/// Output length in bytes of each supported algorithm.
pub open spec fn spec_hash_len(a: HashAlg) -> u32 {
    match a {
        HashAlg::Sha256 => 32,
        HashAlg::Sha384 => 48,
        HashAlg::Sha512 => 64,
    }
}

/// Fixed digest size for a given algorithm; a pure function with no
/// failure mode.
pub fn hash_len(a: HashAlg) -> (r: u32)
    ensures
        r == spec_hash_len(a),
{
    match a {
        HashAlg::Sha256 => 32,
        HashAlg::Sha384 => 48,
        HashAlg::Sha512 => 64,
    }
}

/// The SHA-256 digest of a byte sequence, named but not written out:
/// it is a function of the input alone.
pub uninterp spec fn sha256_of(input: Seq<u8>) -> Seq<u8>;

/// The SHA-384 digest of a byte sequence.
pub uninterp spec fn sha384_of(input: Seq<u8>) -> Seq<u8>;

/// The SHA-512 digest of a byte sequence.
pub uninterp spec fn sha512_of(input: Seq<u8>) -> Seq<u8>;

/// The digest that algorithm `a` assigns to `input`.
pub open spec fn spec_hash(a: HashAlg, input: Seq<u8>) -> Seq<u8> {
    match a {
        HashAlg::Sha256 => sha256_of(input),
        HashAlg::Sha384 => sha384_of(input),
        HashAlg::Sha512 => sha512_of(input),
    }
}

/// Relies on sha2::Sha256::digest: a one-shot 32-byte digest that
/// depends on the input bytes alone.
#[verifier::external_body]
fn sha256(input: &Vec<u8>) -> (r: Vec<u8>)
    ensures
        r@ == sha256_of(input@),
        r@.len() == 32,
{
    <sha2::Sha256 as sha2::Digest>::digest(input.as_slice()).to_vec()
}

/// Relies on sha2::Sha384::digest: a one-shot 48-byte digest that
/// depends on the input bytes alone.
#[verifier::external_body]
fn sha384(input: &Vec<u8>) -> (r: Vec<u8>)
    ensures
        r@ == sha384_of(input@),
        r@.len() == 48,
{
    <sha2::Sha384 as sha2::Digest>::digest(input.as_slice()).to_vec()
}

/// Relies on sha2::Sha512::digest: a one-shot 64-byte digest that
/// depends on the input bytes alone.
#[verifier::external_body]
fn sha512(input: &Vec<u8>) -> (r: Vec<u8>)
    ensures
        r@ == sha512_of(input@),
        r@.len() == 64,
{
    <sha2::Sha512 as sha2::Digest>::digest(input.as_slice()).to_vec()
}

/// One-shot digest of `input` under algorithm `a`.
pub fn hash(a: HashAlg, input: &Vec<u8>) -> (r: Vec<u8>)
    ensures
        r@ == spec_hash(a, input@),
        r@.len() == spec_hash_len(a) as nat,
{
    match a {
        HashAlg::Sha256 => sha256(input),
        HashAlg::Sha384 => sha384(input),
        HashAlg::Sha512 => sha512(input),
    }
}

} // verus!
