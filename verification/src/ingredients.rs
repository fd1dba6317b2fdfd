use vstd::prelude::*;

verus! {

/// Largest byte length the encoder accepts for a variable-length field.
pub const MAX_FIELD_LEN: usize = 255;

/// True when a variable-length field fits the encoder's one-byte length
/// prefix.
pub open spec fn field_fits(s: Seq<u8>) -> bool {
    s.len() <= MAX_FIELD_LEN
}

/// Caller-supplied template for the DeviceID certificate-signing
/// request. The core fills only `public_key`; every other field is the
/// caller's and is carried through unchanged.
pub struct DeviceIdCsrIngredients {
    pub version: u32,
    pub subject_common: Vec<u8>,
    pub subject_org: Vec<u8>,
    pub subject_country: Vec<u8>,
    pub key_usage: u32,
    pub public_key: Vec<u8>,
}

/// Mathematical view of a `DeviceIdCsrIngredients` record.
pub struct DeviceIdCsrIngredientsView {
    pub version: u32,
    pub subject_common: Seq<u8>,
    pub subject_org: Seq<u8>,
    pub subject_country: Seq<u8>,
    pub key_usage: u32,
    pub public_key: Seq<u8>,
}

impl View for DeviceIdCsrIngredients {
    type V = DeviceIdCsrIngredientsView;

    open spec fn view(&self) -> DeviceIdCsrIngredientsView {
        DeviceIdCsrIngredientsView {
            version: self.version,
            subject_common: self.subject_common@,
            subject_org: self.subject_org@,
            subject_country: self.subject_country@,
            key_usage: self.key_usage,
            public_key: self.public_key@,
        }
    }
}

impl DeviceIdCsrIngredientsView {
    /// All caller-set variable-length fields fit the encoder's limits.
    /// The public-key slot is the core's to fill and is judged by the
    /// encoder separately.
    pub open spec fn fields_fit(self) -> bool {
        field_fits(self.subject_common) && field_fits(self.subject_org)
            && field_fits(self.subject_country)
    }

    /// The same record with the public-key slot filled.
    pub open spec fn with_public_key(self, pk: Seq<u8>) -> DeviceIdCsrIngredientsView {
        DeviceIdCsrIngredientsView { public_key: pk, ..self }
    }
}

impl DeviceIdCsrIngredients {
    /// Fill the public-key slot, leaving every caller-set field as it was.
    pub fn set_public_key(&mut self, pk: Vec<u8>)
        ensures
            final(self)@ == old(self)@.with_public_key(pk@),
    {
        self.public_key = pk;
    }
}

/// Caller-supplied template for the AliasKey certificate, issued by
/// DeviceID. The core fills only `public_key`.
pub struct AliasKeyCrtIngredients {
    pub version: u32,
    pub serial: u32,
    pub issuer_common: Vec<u8>,
    pub issuer_org: Vec<u8>,
    pub issuer_country: Vec<u8>,
    pub not_before: u64,
    pub not_after: u64,
    pub subject_common: Vec<u8>,
    pub subject_org: Vec<u8>,
    pub subject_country: Vec<u8>,
    pub key_usage: u32,
    pub public_key: Vec<u8>,
}

/// Mathematical view of an `AliasKeyCrtIngredients` record.
pub struct AliasKeyCrtIngredientsView {
    pub version: u32,
    pub serial: u32,
    pub issuer_common: Seq<u8>,
    pub issuer_org: Seq<u8>,
    pub issuer_country: Seq<u8>,
    pub not_before: u64,
    pub not_after: u64,
    pub subject_common: Seq<u8>,
    pub subject_org: Seq<u8>,
    pub subject_country: Seq<u8>,
    pub key_usage: u32,
    pub public_key: Seq<u8>,
}

impl View for AliasKeyCrtIngredients {
    type V = AliasKeyCrtIngredientsView;

    open spec fn view(&self) -> AliasKeyCrtIngredientsView {
        AliasKeyCrtIngredientsView {
            version: self.version,
            serial: self.serial,
            issuer_common: self.issuer_common@,
            issuer_org: self.issuer_org@,
            issuer_country: self.issuer_country@,
            not_before: self.not_before,
            not_after: self.not_after,
            subject_common: self.subject_common@,
            subject_org: self.subject_org@,
            subject_country: self.subject_country@,
            key_usage: self.key_usage,
            public_key: self.public_key@,
        }
    }
}

impl AliasKeyCrtIngredientsView {
    /// All caller-set variable-length fields fit the encoder's limits.
    /// The public-key slot is the core's to fill and is judged by the
    /// encoder separately.
    pub open spec fn fields_fit(self) -> bool {
        field_fits(self.issuer_common) && field_fits(self.issuer_org)
            && field_fits(self.issuer_country) && field_fits(self.subject_common)
            && field_fits(self.subject_org) && field_fits(self.subject_country)
    }

    /// The same record with the public-key slot filled.
    pub open spec fn with_public_key(self, pk: Seq<u8>) -> AliasKeyCrtIngredientsView {
        AliasKeyCrtIngredientsView { public_key: pk, ..self }
    }
}

impl AliasKeyCrtIngredients {
    /// Fill the public-key slot, leaving every caller-set field as it was.
    pub fn set_public_key(&mut self, pk: Vec<u8>)
        ensures
            final(self)@ == old(self)@.with_public_key(pk@),
    {
        self.public_key = pk;
    }
}

} // verus!
