//! The algorithm dictionary for importing a public key.

use vstd::prelude::*;

verus! {

/// The algorithm dictionary handed to `SubtleCrypto.importKey`.
#[derive(Debug, Clone, Copy)]
pub enum ImportParams<'a> {
    /// An RSA key bound to one hash (`RSASSA-PKCS1-v1_5` or `RSA-PSS`).
    RsaHashed { name: &'a str, hash: &'a str },
    /// An elliptic-curve key on a named curve.
    Ec { name: &'a str, named_curve: &'a str },
    /// An `Ed25519` key.
    Ed25519,
    /// An `X25519` key.
    X25519,
}

/// The contents of an [`ImportParams`], with its strings taken by their
/// characters.
pub enum ImportParamsView {
    RsaHashed { name: Seq<char>, hash: Seq<char> },
    Ec { name: Seq<char>, named_curve: Seq<char> },
    Ed25519,
    X25519,
}

impl<'a> View for ImportParams<'a> {
    type V = ImportParamsView;

    open spec fn view(&self) -> ImportParamsView {
        match *self {
            ImportParams::RsaHashed { name, hash } => ImportParamsView::RsaHashed { name: name@, hash: hash@ },
            ImportParams::Ec { name, named_curve } => ImportParamsView::Ec {
                name: name@,
                named_curve: named_curve@,
            },
            ImportParams::Ed25519 => ImportParamsView::Ed25519,
            ImportParams::X25519 => ImportParamsView::X25519,
        }
    }
}

impl ImportParamsView {
    /// The `name` member of the dictionary as `WebCrypto` receives it.
    pub open spec fn algorithm_name(self) -> Seq<char> {
        match self {
            ImportParamsView::RsaHashed { name, .. } => name,
            ImportParamsView::Ec { name, .. } => name,
            ImportParamsView::Ed25519 => "Ed25519"@,
            ImportParamsView::X25519 => "X25519"@,
        }
    }
}

impl<'a> ImportParams<'a> {
    /// The `name` member of the dictionary: the variants without fields are
    /// written with their `WebCrypto` name.
    pub fn algorithm_name(&self) -> (name: &'a str)
        ensures
            name@ == self@.algorithm_name(),
    {
        match *self {
            ImportParams::RsaHashed { name, .. } => name,
            ImportParams::Ec { name, .. } => name,
            ImportParams::Ed25519 => "Ed25519",
            ImportParams::X25519 => "X25519",
        }
    }
}

} // verus!
