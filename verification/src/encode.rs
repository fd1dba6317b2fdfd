use vstd::prelude::*;

use crate::bytes::{copy_range, push_all};
use crate::errors::L0Error;
use crate::ingredients::{
    field_fits, AliasKeyCrtIngredients, AliasKeyCrtIngredientsView, DeviceIdCsrIngredients,
    DeviceIdCsrIngredientsView, MAX_FIELD_LEN,
};
use crate::keys::{ed25519_public_of, ed25519_sign_of, ed25519_verify_ok, sign, SEED_LEN};

verus! {

/// Big-endian encoding of a 32-bit integer.
pub open spec fn spec_u32_be(v: u32) -> Seq<u8> {
    seq![(v >> 24) as u8, (v >> 16) as u8, (v >> 8) as u8, v as u8]
}

/// Big-endian encoding of a 64-bit integer.
pub open spec fn spec_u64_be(v: u64) -> Seq<u8> {
    seq![
        (v >> 56) as u8,
        (v >> 48) as u8,
        (v >> 40) as u8,
        (v >> 32) as u8,
        (v >> 24) as u8,
        (v >> 16) as u8,
        (v >> 8) as u8,
        v as u8,
    ]
}

/// A variable-length field: one length byte, then the bytes themselves.
/// Meaningful only for fields within `MAX_FIELD_LEN`.
pub open spec fn spec_len_prefixed(s: Seq<u8>) -> Seq<u8> {
    seq![s.len() as u8] + s
}

/// The to-be-signed body of the DeviceID certificate-signing request:
/// every caller field in order, then the subject public key.
pub open spec fn spec_device_id_tbs(ing: DeviceIdCsrIngredientsView) -> Seq<u8> {
    spec_u32_be(ing.version) + spec_u32_be(ing.key_usage) + spec_len_prefixed(ing.subject_common)
        + spec_len_prefixed(ing.subject_org) + spec_len_prefixed(ing.subject_country)
        + spec_len_prefixed(ing.public_key)
}

/// The to-be-signed body of the AliasKey certificate: every caller
/// field in order, then the subject public key.
pub open spec fn spec_alias_key_tbs(ing: AliasKeyCrtIngredientsView) -> Seq<u8> {
    spec_u32_be(ing.version) + spec_u32_be(ing.serial) + spec_len_prefixed(ing.issuer_common)
        + spec_len_prefixed(ing.issuer_org) + spec_len_prefixed(ing.issuer_country)
        + spec_u64_be(ing.not_before) + spec_u64_be(ing.not_after)
        + spec_len_prefixed(ing.subject_common) + spec_len_prefixed(ing.subject_org)
        + spec_len_prefixed(ing.subject_country) + spec_u32_be(ing.key_usage)
        + spec_len_prefixed(ing.public_key)
}

/// A certificate: its to-be-signed body followed by the 64-byte
/// signature over that body under the signer's seed.
pub open spec fn spec_cert(tbs: Seq<u8>, signer_seed: Seq<u8>) -> Seq<u8> {
    tbs + ed25519_sign_of(signer_seed, tbs)
}

/// What a certificate's bytes must satisfy to verify under `pk`: the
/// last 64 bytes are an accepted signature over everything before them.
pub open spec fn spec_cert_verifies(cert: Seq<u8>, pk: Seq<u8>) -> bool {
    cert.len() >= 64 && ed25519_verify_ok(
        pk,
        cert.subrange(0, cert.len() - 64),
        cert.subrange(cert.len() - 64, cert.len() as int),
    )
}

/// A byte-buffer result, seen at the level of byte sequences.
pub open spec fn bytes_result_view(r: Result<Vec<u8>, L0Error>) -> Result<Seq<u8>, L0Error> {
    match r {
        Ok(v) => Ok(v@),
        Err(e) => Err(e),
    }
}

/// What encoding the DeviceID CSR returns: the signed certificate when
/// every field fits and the signing key is well-formed, the exact error
/// otherwise.
pub open spec fn spec_encode_device_id_csr(
    ing: DeviceIdCsrIngredientsView,
    signer_private: Seq<u8>,
) -> Result<Seq<u8>, L0Error> {
    if !ing.fields_fit() || !field_fits(ing.public_key) {
        Err(L0Error::EncodingError)
    } else if signer_private.len() != SEED_LEN {
        Err(L0Error::SigningError)
    } else {
        Ok(spec_cert(spec_device_id_tbs(ing), signer_private))
    }
}

/// What encoding the AliasKey certificate returns.
pub open spec fn spec_encode_alias_key_crt(
    ing: AliasKeyCrtIngredientsView,
    signer_private: Seq<u8>,
) -> Result<Seq<u8>, L0Error> {
    if !ing.fields_fit() || !field_fits(ing.public_key) {
        Err(L0Error::EncodingError)
    } else if signer_private.len() != SEED_LEN {
        Err(L0Error::SigningError)
    } else {
        Ok(spec_cert(spec_alias_key_tbs(ing), signer_private))
    }
}

/// Append the big-endian bytes of `v`.
fn push_u32_be(out: &mut Vec<u8>, v: u32)
    ensures
        final(out)@ == old(out)@ + spec_u32_be(v),
{
    out.push((v >> 24) as u8);
    out.push((v >> 16) as u8);
    out.push((v >> 8) as u8);
    out.push(v as u8);
    assert(out@ =~= old(out)@ + spec_u32_be(v));
}

/// Append the big-endian bytes of `v`.
fn push_u64_be(out: &mut Vec<u8>, v: u64)
    ensures
        final(out)@ == old(out)@ + spec_u64_be(v),
{
    out.push((v >> 56) as u8);
    out.push((v >> 48) as u8);
    out.push((v >> 40) as u8);
    out.push((v >> 32) as u8);
    out.push((v >> 24) as u8);
    out.push((v >> 16) as u8);
    out.push((v >> 8) as u8);
    out.push(v as u8);
    assert(out@ =~= old(out)@ + spec_u64_be(v));
}

/// Append a length byte, then the field's bytes.
fn push_len_prefixed(out: &mut Vec<u8>, s: &Vec<u8>)
    requires
        s@.len() <= MAX_FIELD_LEN,
    ensures
        final(out)@ == old(out)@ + spec_len_prefixed(s@),
{
    let len_byte: u8 = s.len() as u8;
    out.push(len_byte);
    push_all(out, s);
    assert(out@ =~= old(out)@ + spec_len_prefixed(s@));
}

/// Encode and sign the DeviceID certificate-signing request. The CSR is
/// self-signed: `signer_private` is the DeviceID private key itself.
pub fn encode_device_id_csr(
    ing: &DeviceIdCsrIngredients,
    signer_private: &Vec<u8>,
) -> (r: Result<Vec<u8>, L0Error>)
    ensures
        bytes_result_view(r) == spec_encode_device_id_csr(ing@, signer_private@),
        r matches Ok(c) ==> spec_cert_verifies(c@, ed25519_public_of(signer_private@)),
{
    if ing.subject_common.len() > MAX_FIELD_LEN || ing.subject_org.len() > MAX_FIELD_LEN
        || ing.subject_country.len() > MAX_FIELD_LEN || ing.public_key.len() > MAX_FIELD_LEN {
        return Err(L0Error::EncodingError);
    }
    let mut tbs: Vec<u8> = Vec::new();
    push_u32_be(&mut tbs, ing.version);
    push_u32_be(&mut tbs, ing.key_usage);
    push_len_prefixed(&mut tbs, &ing.subject_common);
    push_len_prefixed(&mut tbs, &ing.subject_org);
    push_len_prefixed(&mut tbs, &ing.subject_country);
    push_len_prefixed(&mut tbs, &ing.public_key);
    assert(tbs@ =~= spec_device_id_tbs(ing@));
    match sign(signer_private, &tbs) {
        Ok(sig) => {
            let mut cert = tbs;
            let ghost tbs_view = cert@;
            push_all(&mut cert, &sig);
            proof {
                assert(cert@.subrange(0, cert@.len() - 64) =~= tbs_view);
                assert(cert@.subrange(cert@.len() - 64, cert@.len() as int) =~= sig@);
            }
            Ok(cert)
        },
        Err(e) => Err(e),
    }
}

/// Encode and sign the AliasKey certificate. `signer_private` is the
/// DeviceID private key: the AliasKey certificate is issued by DeviceID.
pub fn encode_alias_key_crt(
    ing: &AliasKeyCrtIngredients,
    signer_private: &Vec<u8>,
) -> (r: Result<Vec<u8>, L0Error>)
    ensures
        bytes_result_view(r) == spec_encode_alias_key_crt(ing@, signer_private@),
        r matches Ok(c) ==> spec_cert_verifies(c@, ed25519_public_of(signer_private@)),
{
    if ing.issuer_common.len() > MAX_FIELD_LEN || ing.issuer_org.len() > MAX_FIELD_LEN
        || ing.issuer_country.len() > MAX_FIELD_LEN || ing.subject_common.len() > MAX_FIELD_LEN
        || ing.subject_org.len() > MAX_FIELD_LEN || ing.subject_country.len() > MAX_FIELD_LEN
        || ing.public_key.len() > MAX_FIELD_LEN {
        return Err(L0Error::EncodingError);
    }
    let mut tbs: Vec<u8> = Vec::new();
    push_u32_be(&mut tbs, ing.version);
    push_u32_be(&mut tbs, ing.serial);
    push_len_prefixed(&mut tbs, &ing.issuer_common);
    push_len_prefixed(&mut tbs, &ing.issuer_org);
    push_len_prefixed(&mut tbs, &ing.issuer_country);
    push_u64_be(&mut tbs, ing.not_before);
    push_u64_be(&mut tbs, ing.not_after);
    push_len_prefixed(&mut tbs, &ing.subject_common);
    push_len_prefixed(&mut tbs, &ing.subject_org);
    push_len_prefixed(&mut tbs, &ing.subject_country);
    push_u32_be(&mut tbs, ing.key_usage);
    push_len_prefixed(&mut tbs, &ing.public_key);
    assert(tbs@ =~= spec_alias_key_tbs(ing@));
    match sign(signer_private, &tbs) {
        Ok(sig) => {
            let mut cert = tbs;
            let ghost tbs_view = cert@;
            push_all(&mut cert, &sig);
            proof {
                assert(cert@.subrange(0, cert@.len() - 64) =~= tbs_view);
                assert(cert@.subrange(cert@.len() - 64, cert@.len() as int) =~= sig@);
            }
            Ok(cert)
        },
        Err(e) => Err(e),
    }
}

/// Check a certificate's signature: split off the trailing 64 bytes and
/// verify them over the body under `signer_public`.
pub fn verify_cert(cert: &Vec<u8>, signer_public: &Vec<u8>) -> (r: bool)
    ensures
        r == spec_cert_verifies(cert@, signer_public@),
{
    if cert.len() < 64 {
        return false;
    }
    let split = cert.len() - 64;
    let tbs = copy_range(cert, 0, split);
    let sig = copy_range(cert, split, cert.len());
    crate::keys::verify(signer_public, &tbs, &sig)
}

} // verus!
