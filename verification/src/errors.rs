use vstd::prelude::*;

verus! {

/// Errors of the Layer-0 derivation core.
///
/// Every failure is terminal: no partial output is ever handed back
/// beside one of these.
#[derive(Clone, Copy, Debug, PartialEq, Eq, Structural)]
pub enum L0Error {
    /// The CDI does not have the required length.
    InvalidCdiLength,
    /// The FWID is not one digest long.
    InvalidFwidLength,
    /// A derivation label is empty.
    InvalidLabelLength,
    /// The two derivation labels are equal, which would correlate the
    /// DeviceID and AliasKey derivation domains.
    InsecureLabelReuse,
    /// A key-derivation seed does not have the length the key engine needs.
    InvalidSeedLength,
    /// The signing key handed to the certificate encoder is malformed.
    SigningError,
    /// An ingredients field exceeds the encoder's field-size limit.
    EncodingError,
}

} // verus!
