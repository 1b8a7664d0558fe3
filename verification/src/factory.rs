//! The platform that turns public JWKs into verifiers.

use vstd::prelude::*;

use crate::asymmetric::verification::AsymmetricPublicKey;

verus! {

/// Why no verifier could be created from a JWK.
#[derive(Debug, Clone, Copy, PartialEq, Eq, Structural)]
pub enum CreateVerifierError {
    /// The key is of a type, curve or algorithm this platform does not
    /// support, its use forbids verification, or it could not be imported.
    UnsupportedKey,
}

/// A verifier factory that takes public JWK material and returns a verifier
/// implemented in `WebCrypto`.
#[derive(Debug, Clone, Copy, Default)]
pub struct WebCryptoVerifierPlatform;

impl WebCryptoVerifierPlatform {
    /// Turns the outcome of creating a public key from a JWK into the
    /// platform's answer: the key when there is one, `UnsupportedKey`
    /// otherwise.
    pub fn verifier_from_key(&self, key: Option<AsymmetricPublicKey>) -> (verifier: Result<
        AsymmetricPublicKey,
        CreateVerifierError,
    >)
        ensures
            verifier == (match key {
                Some(k) => Ok(k),
                None => Err(CreateVerifierError::UnsupportedKey),
            }),
    {
        match key {
            Some(k) => Ok(k),
            None => Err(CreateVerifierError::UnsupportedKey),
        }
    }
}

} // verus!
