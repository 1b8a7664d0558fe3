//! JWS signing and verification keys backed by the `WebCrypto` API.
//!
//! The library decides which `WebCrypto` algorithm parameters, key usages and
//! key imports a JWS algorithm needs, which imported key verifies which
//! algorithm, and how verification results and key-match requests are
//! answered. The asynchronous calls into `SubtleCrypto` are made by the
//! caller with the values that these functions compute.

pub mod asymmetric;
pub mod factory;
pub mod helpers;
pub mod text;
pub mod jwk;
pub mod laws;
mod sharing;

use vstd::prelude::*;

verus! {

/// Indicates the possible uses of a key.
#[derive(Debug, Clone, Copy, PartialEq, Eq, Structural)]
pub enum KeyUsage {
    /// The key may be used to encrypt messages.
    Encrypt,
    /// The key may be used to decrypt messages.
    Decrypt,
    /// The key may be used to sign messages.
    Sign,
    /// The key may be used to verify signatures.
    Verify,
    /// The key may be used in deriving a new key.
    DeriveKey,
    /// The key may be used in deriving bits.
    DeriveBits,
    /// The key may be used to wrap a key.
    WrapKey,
    /// The key may be used to unwrap a key.
    UnwrapKey,
}

impl KeyUsage {
    /// The name by which `WebCrypto` knows this usage (the camel-case form
    /// of the variant's name).
    pub open spec fn spec_webcrypto_name(self) -> Seq<char> {
        match self {
            KeyUsage::Encrypt => "encrypt"@,
            KeyUsage::Decrypt => "decrypt"@,
            KeyUsage::Sign => "sign"@,
            KeyUsage::Verify => "verify"@,
            KeyUsage::DeriveKey => "deriveKey"@,
            KeyUsage::DeriveBits => "deriveBits"@,
            KeyUsage::WrapKey => "wrapKey"@,
            KeyUsage::UnwrapKey => "unwrapKey"@,
        }
    }

    /// Returns the name by which `WebCrypto` knows this usage.
    pub fn as_str(&self) -> (name: &'static str)
        ensures
            name@ == self.spec_webcrypto_name(),
    {
        match self {
            KeyUsage::Encrypt => "encrypt",
            KeyUsage::Decrypt => "decrypt",
            KeyUsage::Sign => "sign",
            KeyUsage::Verify => "verify",
            KeyUsage::DeriveKey => "deriveKey",
            KeyUsage::DeriveBits => "deriveBits",
            KeyUsage::WrapKey => "wrapKey",
            KeyUsage::UnwrapKey => "unwrapKey",
        }
    }
}

} // verus!
