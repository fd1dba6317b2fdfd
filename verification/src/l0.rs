use vstd::prelude::*;

use crate::bytes::{all_zero, bytes_eq, concat3, copy_bytes, zeroize};
use crate::digest::{hash, sha256_of, HashAlg};
use crate::encode::{
    encode_alias_key_crt, encode_device_id_csr, spec_alias_key_tbs, spec_cert,
    spec_cert_verifies, spec_device_id_tbs,
};
use crate::errors::L0Error;
use crate::ingredients::{
    AliasKeyCrtIngredients, AliasKeyCrtIngredientsView, DeviceIdCsrIngredients,
    DeviceIdCsrIngredientsView,
};
use crate::keys::{derive_key_pair, ed25519_public_of};

verus! {

/// Required CDI length in bytes.
pub const CDI_LEN: usize = 32;

/// Required FWID length in bytes: the FWID is itself a measurement
/// digest, so it must be exactly one digest of the core's algorithm
/// long.
pub const FWID_LEN: usize = 32;

/// Everything a successful derivation hands back. Either all five
/// fields are valid or the call returned an error and none of this
/// exists.
#[derive(Debug)]
pub struct Layer0Output {
    pub device_id_public_key: Vec<u8>,
    pub alias_key_public_key: Vec<u8>,
    pub alias_key_private_key: Vec<u8>,
    pub device_id_csr: Vec<u8>,
    pub alias_key_crt: Vec<u8>,
}

/// Mathematical view of a `Layer0Output`.
pub struct Layer0OutputView {
    pub device_id_public_key: Seq<u8>,
    pub alias_key_public_key: Seq<u8>,
    pub alias_key_private_key: Seq<u8>,
    pub device_id_csr: Seq<u8>,
    pub alias_key_crt: Seq<u8>,
}

impl View for Layer0Output {
    type V = Layer0OutputView;

    open spec fn view(&self) -> Layer0OutputView {
        Layer0OutputView {
            device_id_public_key: self.device_id_public_key@,
            alias_key_public_key: self.alias_key_public_key@,
            alias_key_private_key: self.alias_key_private_key@,
            device_id_csr: self.device_id_csr@,
            alias_key_crt: self.alias_key_crt@,
        }
    }
}

/// Caller-provided scratch space for the derivation's transient
/// secrets. Holding them here makes the zeroization discipline
/// observable: after every call, successful or not, each buffer holds
/// only zeros.
pub struct L0Scratch {
    /// Working copy of CDI || FWID || alias-key label fed to the digest.
    pub cdi_work: Vec<u8>,
    /// The DeviceID seed, digest of the CDI alone.
    pub device_id_seed: Vec<u8>,
    /// The AliasKey seed, digest of the working buffer above.
    pub alias_seed: Vec<u8>,
    /// The DeviceID private key, kept only until both certificates are
    /// signed.
    pub device_id_private_key: Vec<u8>,
}

impl L0Scratch {
    /// Every scratch buffer holds only zeros.
    pub open spec fn is_zeroized(self) -> bool {
        all_zero(self.cdi_work@) && all_zero(self.device_id_seed@) && all_zero(self.alias_seed@)
            && all_zero(self.device_id_private_key@)
    }

    /// Fresh, empty scratch space.
    pub fn new() -> (r: L0Scratch)
        ensures
            r.is_zeroized(),
            r.cdi_work@.len() == 0,
            r.device_id_seed@.len() == 0,
            r.alias_seed@.len() == 0,
            r.device_id_private_key@.len() == 0,
    {
        L0Scratch {
            cdi_work: Vec::new(),
            device_id_seed: Vec::new(),
            alias_seed: Vec::new(),
            device_id_private_key: Vec::new(),
        }
    }

    /// Overwrite every scratch buffer with zeros, in place: each buffer
    /// keeps its length, so the region that held secret bytes is the
    /// region now holding zeros — the buffers are scrubbed, not dropped.
    pub fn zeroize_all(&mut self)
        ensures
            final(self).is_zeroized(),
            final(self).cdi_work@.len() == old(self).cdi_work@.len(),
            final(self).device_id_seed@.len() == old(self).device_id_seed@.len(),
            final(self).alias_seed@.len() == old(self).alias_seed@.len(),
            final(self).device_id_private_key@.len() == old(self).device_id_private_key@.len(),
    {
        zeroize(&mut self.cdi_work);
        zeroize(&mut self.device_id_seed);
        zeroize(&mut self.alias_seed);
        zeroize(&mut self.device_id_private_key);
    }
}

/// The DeviceID seed: the digest of the CDI alone.
pub open spec fn spec_device_id_seed(cdi: Seq<u8>) -> Seq<u8> {
    sha256_of(cdi)
}

/// The AliasKey seed: the digest of CDI || FWID || alias-key label.
pub open spec fn spec_alias_seed(cdi: Seq<u8>, fwid: Seq<u8>, alias_key_label: Seq<u8>) -> Seq<u8> {
    sha256_of(cdi + fwid + alias_key_label)
}

/// The DeviceID public key: a function of the CDI alone.
pub open spec fn spec_device_id_public(cdi: Seq<u8>) -> Seq<u8> {
    ed25519_public_of(spec_device_id_seed(cdi))
}

/// The AliasKey public key: a function of CDI, FWID and the alias-key
/// label.
pub open spec fn spec_alias_public(cdi: Seq<u8>, fwid: Seq<u8>, alias_key_label: Seq<u8>) -> Seq<u8> {
    ed25519_public_of(spec_alias_seed(cdi, fwid, alias_key_label))
}

/// What the Layer-0 derivation returns, for every input: the exact
/// error on each rejected input, and on accepted inputs the five
/// outputs, each pinned as a function of the inputs.
pub open spec fn spec_derive_layer0(
    cdi: Seq<u8>,
    fwid: Seq<u8>,
    device_id_label: Seq<u8>,
    alias_key_label: Seq<u8>,
    device_id_ingredients: DeviceIdCsrIngredientsView,
    alias_key_ingredients: AliasKeyCrtIngredientsView,
) -> Result<Layer0OutputView, L0Error> {
    if cdi.len() != CDI_LEN {
        Err(L0Error::InvalidCdiLength)
    } else if fwid.len() != FWID_LEN {
        Err(L0Error::InvalidFwidLength)
    } else if device_id_label.len() == 0 || alias_key_label.len() == 0 {
        Err(L0Error::InvalidLabelLength)
    } else if device_id_label == alias_key_label {
        Err(L0Error::InsecureLabelReuse)
    } else if !device_id_ingredients.fields_fit() || !alias_key_ingredients.fields_fit() {
        Err(L0Error::EncodingError)
    } else {
        Ok(Layer0OutputView {
            device_id_public_key: spec_device_id_public(cdi),
            alias_key_public_key: spec_alias_public(cdi, fwid, alias_key_label),
            alias_key_private_key: spec_alias_seed(cdi, fwid, alias_key_label),
            device_id_csr: spec_cert(
                spec_device_id_tbs(
                    device_id_ingredients.with_public_key(spec_device_id_public(cdi)),
                ),
                spec_device_id_seed(cdi),
            ),
            alias_key_crt: spec_cert(
                spec_alias_key_tbs(
                    alias_key_ingredients.with_public_key(
                        spec_alias_public(cdi, fwid, alias_key_label),
                    ),
                ),
                spec_device_id_seed(cdi),
            ),
        })
    }
}

/// True of the results that reject the inputs before any secret is
/// derived: on these the scratch buffers are scrubbed but never grown.
pub open spec fn input_rejected(r: Result<Layer0Output, L0Error>) -> bool {
    match r {
        Err(L0Error::InvalidCdiLength) => true,
        Err(L0Error::InvalidFwidLength) => true,
        Err(L0Error::InvalidLabelLength) => true,
        Err(L0Error::InsecureLabelReuse) => true,
        _ => false,
    }
}

/// A derivation result, seen at the level of views.
pub open spec fn layer0_result_view(r: Result<Layer0Output, L0Error>) -> Result<
    Layer0OutputView,
    L0Error,
> {
    match r {
        Ok(o) => Ok(o@),
        Err(e) => Err(e),
    }
}

/// Derive the Layer-0 identity: DeviceID and AliasKey key pairs from
/// CDI and FWID, the self-signed DeviceID CSR, and the AliasKey
/// certificate issued by DeviceID.
///
/// The result is exactly `spec_derive_layer0` over the inputs: a typed
/// error on each rejected input, otherwise all five outputs. On every
/// exit path, successful or not, the caller's scratch buffers — the
/// working copy of the CDI material, both seeds and the DeviceID
/// private key — are left overwritten with zeros, at their full
/// lengths: once the derivation has run (success or a late encoding
/// failure), each seed and the DeviceID private key is one zeroed
/// 32-byte buffer and the working copy spans CDI, FWID and alias-key
/// label; on an input rejection the buffers keep the lengths they came
/// with. The regions that held the secrets are the regions now zeroed.
pub fn derive_layer0(
    cdi: &Vec<u8>,
    fwid: &Vec<u8>,
    device_id_label: &Vec<u8>,
    alias_key_label: &Vec<u8>,
    device_id_ingredients: DeviceIdCsrIngredients,
    alias_key_ingredients: AliasKeyCrtIngredients,
    scratch: &mut L0Scratch,
) -> (r: Result<Layer0Output, L0Error>)
    ensures
        final(scratch).is_zeroized(),
        input_rejected(r) ==> (final(scratch).cdi_work@.len() == old(scratch).cdi_work@.len()
            && final(scratch).device_id_seed@.len() == old(scratch).device_id_seed@.len()
            && final(scratch).alias_seed@.len() == old(scratch).alias_seed@.len()
            && final(scratch).device_id_private_key@.len() == old(
                scratch,
            ).device_id_private_key@.len()),
        !input_rejected(r) ==> (final(scratch).cdi_work@.len() == cdi@.len() + fwid@.len()
            + alias_key_label@.len() && final(scratch).device_id_seed@.len() == 32
            && final(scratch).alias_seed@.len() == 32
            && final(scratch).device_id_private_key@.len() == 32),
        layer0_result_view(r) == spec_derive_layer0(
            cdi@,
            fwid@,
            device_id_label@,
            alias_key_label@,
            device_id_ingredients@,
            alias_key_ingredients@,
        ),
        r matches Ok(out) ==> (spec_cert_verifies(out.device_id_csr@, out.device_id_public_key@)
            && spec_cert_verifies(out.alias_key_crt@, out.device_id_public_key@)),
{
    if cdi.len() != CDI_LEN {
        scratch.zeroize_all();
        return Err(L0Error::InvalidCdiLength);
    }
    if fwid.len() != FWID_LEN {
        scratch.zeroize_all();
        return Err(L0Error::InvalidFwidLength);
    }
    if device_id_label.len() == 0 || alias_key_label.len() == 0 {
        scratch.zeroize_all();
        return Err(L0Error::InvalidLabelLength);
    }
    if bytes_eq(device_id_label, alias_key_label) {
        scratch.zeroize_all();
        return Err(L0Error::InsecureLabelReuse);
    }

    // DeviceID seed: digest of the CDI alone; consumed by the key
    // engine and overwritten at once.
    scratch.device_id_seed = hash(HashAlg::Sha256, cdi);
    let device_id_pair = match derive_key_pair(&scratch.device_id_seed) {
        Ok(p) => p,
        Err(e) => {
            scratch.zeroize_all();
            return Err(e);
        },
    };
    zeroize(&mut scratch.device_id_seed);

    // AliasKey seed: digest of CDI || FWID || alias-key label; the
    // working copy of the CDI material is overwritten right after the
    // digest.
    scratch.cdi_work = concat3(cdi, fwid, alias_key_label);
    scratch.alias_seed = hash(HashAlg::Sha256, &scratch.cdi_work);
    zeroize(&mut scratch.cdi_work);
    let alias_pair = match derive_key_pair(&scratch.alias_seed) {
        Ok(p) => p,
        Err(e) => {
            scratch.zeroize_all();
            return Err(e);
        },
    };
    zeroize(&mut scratch.alias_seed);

    // The DeviceID private key must stay alive until both certificates
    // are signed; it lives in the scratch space so that its region is
    // inspectable after the call.
    scratch.device_id_private_key = device_id_pair.private_key;

    let mut filled_device_id = device_id_ingredients;
    filled_device_id.set_public_key(copy_bytes(&device_id_pair.public_key));
    let device_id_csr = match encode_device_id_csr(
        &filled_device_id,
        &scratch.device_id_private_key,
    ) {
        Ok(c) => c,
        Err(e) => {
            let mut alias_private = alias_pair.private_key;
            zeroize(&mut alias_private);
            scratch.zeroize_all();
            return Err(e);
        },
    };

    let mut filled_alias_key = alias_key_ingredients;
    filled_alias_key.set_public_key(copy_bytes(&alias_pair.public_key));
    let alias_key_crt = match encode_alias_key_crt(
        &filled_alias_key,
        &scratch.device_id_private_key,
    ) {
        Ok(c) => c,
        Err(e) => {
            let mut alias_private = alias_pair.private_key;
            zeroize(&mut alias_private);
            scratch.zeroize_all();
            return Err(e);
        },
    };

    // Both certificates are signed: destroy the DeviceID private key.
    // The AliasKey private key is the caller's operational key and is
    // handed back.
    zeroize(&mut scratch.device_id_private_key);

    Ok(Layer0Output {
        device_id_public_key: device_id_pair.public_key,
        alias_key_public_key: alias_pair.public_key,
        alias_key_private_key: alias_pair.private_key,
        device_id_csr,
        alias_key_crt,
    })
}

/// Law: the derivation is deterministic. Two results obtained from
/// byte-identical inputs are identical, outputs and errors alike.
pub proof fn lemma_derivation_deterministic(
    r1: Result<Layer0OutputView, L0Error>,
    r2: Result<Layer0OutputView, L0Error>,
    cdi: Seq<u8>,
    fwid: Seq<u8>,
    device_id_label: Seq<u8>,
    alias_key_label: Seq<u8>,
    device_id_ingredients: DeviceIdCsrIngredientsView,
    alias_key_ingredients: AliasKeyCrtIngredientsView,
)
    requires
        r1 == spec_derive_layer0(
            cdi,
            fwid,
            device_id_label,
            alias_key_label,
            device_id_ingredients,
            alias_key_ingredients,
        ),
        r2 == spec_derive_layer0(
            cdi,
            fwid,
            device_id_label,
            alias_key_label,
            device_id_ingredients,
            alias_key_ingredients,
        ),
    ensures
        r1 == r2,
{
}

/// Law: domain separation, the DeviceID side. The DeviceID public key
/// and CSR are functions of the CDI and the DeviceID ingredients
/// alone: two successful derivations that differ only in the alias-key
/// label agree on both.
pub proof fn lemma_alias_label_leaves_device_id(
    cdi: Seq<u8>,
    fwid: Seq<u8>,
    device_id_label: Seq<u8>,
    alias_key_label1: Seq<u8>,
    alias_key_label2: Seq<u8>,
    device_id_ingredients: DeviceIdCsrIngredientsView,
    alias_key_ingredients: AliasKeyCrtIngredientsView,
)
    requires
        spec_derive_layer0(
            cdi,
            fwid,
            device_id_label,
            alias_key_label1,
            device_id_ingredients,
            alias_key_ingredients,
        ) is Ok,
        spec_derive_layer0(
            cdi,
            fwid,
            device_id_label,
            alias_key_label2,
            device_id_ingredients,
            alias_key_ingredients,
        ) is Ok,
    ensures
        spec_derive_layer0(
            cdi,
            fwid,
            device_id_label,
            alias_key_label1,
            device_id_ingredients,
            alias_key_ingredients,
        )->Ok_0.device_id_public_key == spec_derive_layer0(
            cdi,
            fwid,
            device_id_label,
            alias_key_label2,
            device_id_ingredients,
            alias_key_ingredients,
        )->Ok_0.device_id_public_key,
        spec_derive_layer0(
            cdi,
            fwid,
            device_id_label,
            alias_key_label1,
            device_id_ingredients,
            alias_key_ingredients,
        )->Ok_0.device_id_csr == spec_derive_layer0(
            cdi,
            fwid,
            device_id_label,
            alias_key_label2,
            device_id_ingredients,
            alias_key_ingredients,
        )->Ok_0.device_id_csr,
{
}

/// Law: FWID insensitivity of the DeviceID side. The DeviceID public
/// key and CSR do not depend on the FWID: two successful derivations
/// that differ only in the FWID agree on both.
pub proof fn lemma_fwid_leaves_device_id(
    cdi: Seq<u8>,
    fwid1: Seq<u8>,
    fwid2: Seq<u8>,
    device_id_label: Seq<u8>,
    alias_key_label: Seq<u8>,
    device_id_ingredients: DeviceIdCsrIngredientsView,
    alias_key_ingredients: AliasKeyCrtIngredientsView,
)
    requires
        spec_derive_layer0(
            cdi,
            fwid1,
            device_id_label,
            alias_key_label,
            device_id_ingredients,
            alias_key_ingredients,
        ) is Ok,
        spec_derive_layer0(
            cdi,
            fwid2,
            device_id_label,
            alias_key_label,
            device_id_ingredients,
            alias_key_ingredients,
        ) is Ok,
    ensures
        spec_derive_layer0(
            cdi,
            fwid1,
            device_id_label,
            alias_key_label,
            device_id_ingredients,
            alias_key_ingredients,
        )->Ok_0.device_id_public_key == spec_derive_layer0(
            cdi,
            fwid2,
            device_id_label,
            alias_key_label,
            device_id_ingredients,
            alias_key_ingredients,
        )->Ok_0.device_id_public_key,
        spec_derive_layer0(
            cdi,
            fwid1,
            device_id_label,
            alias_key_label,
            device_id_ingredients,
            alias_key_ingredients,
        )->Ok_0.device_id_csr == spec_derive_layer0(
            cdi,
            fwid2,
            device_id_label,
            alias_key_label,
            device_id_ingredients,
            alias_key_ingredients,
        )->Ok_0.device_id_csr,
{
}

} // verus!
