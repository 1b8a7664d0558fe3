//! The algorithm dictionary for generating a key pair.

use vstd::prelude::*;

verus! {

/// The algorithm dictionary handed to `SubtleCrypto.generateKey`.
#[derive(Debug, Clone, Copy)]
pub enum AsymmetricKeyGenParams<'a> {
    /// An RSA key pair bound to one hash.
    RsaHashed { name: &'a str, modulus_length: u32, public_exponent: &'a [u8], hash: &'a str },
    /// An elliptic-curve key pair on a named curve.
    Ec { name: &'a str, named_curve: &'a str },
    /// An `Ed25519` key pair.
    Ed25519,
    /// An `X25519` key pair.
    X25519,
}

/// The contents of an [`AsymmetricKeyGenParams`], with its strings taken by
/// their characters and its bytes as a sequence.
pub enum KeyGenParamsView {
    RsaHashed { name: Seq<char>, modulus_length: u32, public_exponent: Seq<u8>, hash: Seq<char> },
    Ec { name: Seq<char>, named_curve: Seq<char> },
    Ed25519,
    X25519,
}

impl<'a> View for AsymmetricKeyGenParams<'a> {
    type V = KeyGenParamsView;

    open spec fn view(&self) -> KeyGenParamsView {
        match *self {
            AsymmetricKeyGenParams::RsaHashed { name, modulus_length, public_exponent, hash } =>
                KeyGenParamsView::RsaHashed {
                name: name@,
                modulus_length,
                public_exponent: public_exponent@,
                hash: hash@,
            },
            AsymmetricKeyGenParams::Ec { name, named_curve } => KeyGenParamsView::Ec {
                name: name@,
                named_curve: named_curve@,
            },
            AsymmetricKeyGenParams::Ed25519 => KeyGenParamsView::Ed25519,
            AsymmetricKeyGenParams::X25519 => KeyGenParamsView::X25519,
        }
    }
}

impl KeyGenParamsView {
    /// The `name` member of the dictionary as `WebCrypto` receives it.
    pub open spec fn algorithm_name(self) -> Seq<char> {
        match self {
            KeyGenParamsView::RsaHashed { name, .. } => name,
            KeyGenParamsView::Ec { name, .. } => name,
            KeyGenParamsView::Ed25519 => "Ed25519"@,
            KeyGenParamsView::X25519 => "X25519"@,
        }
    }
}

impl<'a> AsymmetricKeyGenParams<'a> {
    /// The `name` member of the dictionary: the variants without fields are
    /// written with their `WebCrypto` name.
    pub fn algorithm_name(&self) -> (name: &'a str)
        ensures
            name@ == self@.algorithm_name(),
    {
        match *self {
            AsymmetricKeyGenParams::RsaHashed { name, .. } => name,
            AsymmetricKeyGenParams::Ec { name, .. } => name,
            AsymmetricKeyGenParams::Ed25519 => "Ed25519",
            AsymmetricKeyGenParams::X25519 => "X25519",
        }
    }
}

} // verus!
