//! `WebCrypto` algorithm dictionaries and the key type they act on.

pub mod generate_key;
pub mod import_key;

use vstd::prelude::*;

verus! {

/// A key held by `WebCrypto`. The library only carries it to the calls that
/// use it; nothing of its contents is known here.
#[verifier::external_type_specification]
#[verifier::external_body]
pub struct ExCryptoKey(web_sys::CryptoKey);

/// The algorithm dictionary handed to `SubtleCrypto.sign` and
/// `SubtleCrypto.verify`.
#[derive(Debug, Clone, Copy)]
pub enum SignAlgorithm<'a> {
    /// `RSASSA-PKCS1-v1_5` (the hash is the one the key was imported with).
    RsaPkcs1,
    /// `RSA-PSS` with the given salt length in bytes.
    RsaPss { name: &'a str, salt_length: u32 },
    /// `ECDSA` with the given hash.
    EcDsa { name: &'a str, hash: &'a str },
    /// `HMAC`.
    Hmac,
    /// `Ed25519`.
    Ed25519,
}

/// The contents of a [`SignAlgorithm`], with its strings taken by their
/// characters.
pub enum SignAlgorithmView {
    RsaPkcs1,
    RsaPss { name: Seq<char>, salt_length: u32 },
    EcDsa { name: Seq<char>, hash: Seq<char> },
    Hmac,
    Ed25519,
}

impl<'a> View for SignAlgorithm<'a> {
    type V = SignAlgorithmView;

    open spec fn view(&self) -> SignAlgorithmView {
        match *self {
            SignAlgorithm::RsaPkcs1 => SignAlgorithmView::RsaPkcs1,
            SignAlgorithm::RsaPss { name, salt_length } => SignAlgorithmView::RsaPss {
                name: name@,
                salt_length,
            },
            SignAlgorithm::EcDsa { name, hash } => SignAlgorithmView::EcDsa { name: name@, hash: hash@ },
            SignAlgorithm::Hmac => SignAlgorithmView::Hmac,
            SignAlgorithm::Ed25519 => SignAlgorithmView::Ed25519,
        }
    }
}

impl SignAlgorithmView {
    /// The `name` member of the dictionary as `WebCrypto` receives it.
    pub open spec fn algorithm_name(self) -> Seq<char> {
        match self {
            SignAlgorithmView::RsaPkcs1 => "RSASSA-PKCS1-v1_5"@,
            SignAlgorithmView::RsaPss { name, .. } => name,
            SignAlgorithmView::EcDsa { name, .. } => name,
            SignAlgorithmView::Hmac => "HMAC"@,
            SignAlgorithmView::Ed25519 => "Ed25519"@,
        }
    }
}

impl<'a> SignAlgorithm<'a> {
    /// The `name` member of the dictionary: the variants without fields are
    /// written with their `WebCrypto` name.
    pub fn algorithm_name(&self) -> (name: &'a str)
        ensures
            name@ == self@.algorithm_name(),
    {
        match *self {
            SignAlgorithm::RsaPkcs1 => "RSASSA-PKCS1-v1_5",
            SignAlgorithm::RsaPss { name, .. } => name,
            SignAlgorithm::EcDsa { name, .. } => name,
            SignAlgorithm::Hmac => "HMAC",
            SignAlgorithm::Ed25519 => "Ed25519",
        }
    }
}

} // verus!
