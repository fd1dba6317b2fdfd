//! DICE Layer-0 identity derivation.
//!
//! Given a compound device identifier (CDI) and a firmware measurement
//! (FWID), this library derives a DeviceID key pair and an AliasKey key
//! pair, assembles certificate ingredients around the derived public keys,
//! and signs the AliasKey certificate with the DeviceID private key.
//! Transient secret buffers are overwritten before every return, on success
//! and on error alike.

pub mod bytes;
pub mod digest;
pub mod encode;
pub mod errors;
pub mod ingredients;
pub mod keys;
pub mod l0;
