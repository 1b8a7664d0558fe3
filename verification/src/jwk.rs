//! The public JSON Web Keys (RFC 7517) that verifiers are created from.

use vstd::prelude::*;

verus! {

/// The intended use of a public key (`use`).
#[derive(Debug, Clone, Copy, PartialEq, Eq, Structural)]
pub enum KeyUse {
    /// `sig`: the key verifies signatures.
    Sign,
    /// `enc`: the key encrypts.
    Encrypt,
}

/// An operation a key may be used for (`key_ops`).
#[derive(Debug, Clone, Copy, PartialEq, Eq, Structural)]
pub enum KeyOperation {
    /// `sign`
    Sign,
    /// `verify`
    Verify,
    /// `encrypt`
    Encrypt,
    /// `decrypt`
    Decrypt,
    /// `wrapKey`
    WrapKey,
    /// `unwrapKey`
    UnwrapKey,
    /// `deriveKey`
    DeriveKey,
    /// `deriveBits`
    DeriveBits,
}

/// The members of an elliptic-curve public key (`kty` `EC`).
#[derive(Debug, Clone)]
pub struct EcPublicKey {
    /// The curve (`crv`), such as `P-256`.
    pub crv: String,
    /// The x coordinate, base64url-encoded.
    pub x: String,
    /// The y coordinate, base64url-encoded.
    pub y: String,
}

/// The members of an RSA public key (`kty` `RSA`).
#[derive(Debug, Clone)]
pub struct RsaPublicKey {
    /// The modulus, base64url-encoded.
    pub n: String,
    /// The public exponent, base64url-encoded.
    pub e: String,
}

/// The members of an octet key pair (`kty` `OKP`).
#[derive(Debug, Clone)]
pub struct OkpPublicKey {
    /// The curve (`crv`), such as `Ed25519`.
    pub crv: String,
    /// The public key, base64url-encoded.
    pub x: String,
}

/// The key material of a public JWK, by key type.
#[derive(Debug, Clone)]
pub enum PublicKey {
    /// An elliptic-curve key.
    Ec(EcPublicKey),
    /// An RSA key.
    Rsa(RsaPublicKey),
    /// An octet key pair.
    Okp(OkpPublicKey),
    /// A key of another type, or one that holds private members.
    UnknownOrPrivate,
}

/// A public JSON Web Key.
#[derive(Debug, Clone)]
pub struct PublicJwk {
    /// The key identifier (`kid`).
    pub kid: Option<String>,
    /// The intended use (`use`).
    pub key_use: Option<KeyUse>,
    /// The permitted operations (`key_ops`).
    pub key_operations: Option<Vec<KeyOperation>>,
    /// The algorithm the key is meant for (`alg`).
    pub algorithm: Option<String>,
    /// The key material.
    pub key: PublicKey,
}

/// An optional string taken by its characters.
pub open spec fn opt_string_view(s: Option<String>) -> Option<Seq<char>> {
    match s {
        Some(s) => Some(s@),
        None => None,
    }
}

/// Whether an optional string is absent or holds exactly `expected`.
pub open spec fn is_none_or_equal(s: Option<Seq<char>>, expected: Seq<char>) -> bool {
    match s {
        Some(s) => s == expected,
        None => true,
    }
}

impl PublicJwk {
    /// Whether the JWK allows verifying signatures: a `use` other than `sig`
    /// forbids it, and so does a `key_ops` list without `verify`.
    pub open spec fn spec_permits_verification(&self) -> bool {
        &&& (self.key_use matches Some(u) ==> u == KeyUse::Sign)
        &&& (self.key_operations matches Some(ops) ==> ops@.contains(KeyOperation::Verify))
    }

    /// Decides whether the JWK allows verifying signatures.
    pub fn permits_verification(&self) -> (permitted: bool)
        ensures
            permitted == self.spec_permits_verification(),
            self.key_use == Some(KeyUse::Encrypt) ==> !permitted,
            (self.key_use is None || self.key_use == Some(KeyUse::Sign)) ==> match self.key_operations {
                None => permitted,
                Some(ops) => permitted == ops@.contains(KeyOperation::Verify),
            },
    {
        if let Some(key_use) = self.key_use {
            if key_use != KeyUse::Sign {
                return false;
            }
        }
        if let Some(key_ops) = &self.key_operations {
            if !contains_operation(key_ops, KeyOperation::Verify) {
                return false;
            }
        }
        true
    }
}

/// Decides whether `op` occurs in `ops`.
pub fn contains_operation(ops: &Vec<KeyOperation>, op: KeyOperation) -> (found: bool)
    ensures
        found == ops@.contains(op),
{
    let mut i: usize = 0;
    while i < ops.len()
        invariant
            i <= ops@.len(),
            forall|j: int| 0 <= j < i ==> ops@[j] != op,
        decreases ops@.len() - i,
    {
        if ops[i] == op {
            assert(ops@[i as int] == op);
            return true;
        }
        i = i + 1;
    }
    false
}

} // verus!
