//! Signing keys: the algorithms they are generated for and what describes them.

use std::sync::Arc;

use vstd::prelude::*;

use web_sys::CryptoKey;

use crate::jwk::{opt_string_view, PublicJwk};
use crate::sharing::arc_clone;
use crate::KeyUsage;

use crate::helpers::generate_key::{AsymmetricKeyGenParams, KeyGenParamsView};
use crate::helpers::SignAlgorithmView;
use crate::helpers::SignAlgorithm;

verus! {

/// Algorithm supported by this key.
#[derive(Debug, Clone, Copy)]
pub enum AsymmetricAlgorithm {
    /// ES256
    Es256,
    /// ES384
    Es384,
    /// RS256
    Rs256 {
        /// Modulus length in bits.
        ///
        /// Traditionally 2048, but 3072 is a common recommendation, and some systems require 4096.
        modulus_length: u32,
    },
    /// RS384
    Rs384 {
        /// Modulus length in bits.
        modulus_length: u32,
    },
    /// RS512
    Rs512 {
        /// Modulus length in bits.
        modulus_length: u32,
    },
    /// PS256
    Ps256 {
        /// Modulus length in bits.
        modulus_length: u32,
    },
    /// PS384
    Ps384 {
        /// Modulus length in bits.
        modulus_length: u32,
    },
    /// PS512
    Ps512 {
        /// Modulus length in bits.
        modulus_length: u32,
    },
    /// `EdDSA` (polymorphic algorithm name)
    EdDSA,
    /// Ed25519 (fully specified algorithm name, ref. RFC 9864)
    Ed25519,
}

/// The RSA public exponent 65537, big-endian.
pub open spec fn rsa_public_exponent() -> Seq<u8> {
    seq![0x01u8, 0x00u8, 0x01u8]
}

/// The name of a SHA-2 digest of the given output length in bits.
pub open spec fn sha_name(bits: int) -> Seq<char> {
    if bits == 256 {
        "SHA-256"@
    } else if bits == 384 {
        "SHA-384"@
    } else {
        "SHA-512"@
    }
}

impl AsymmetricAlgorithm {
    /// The modulus length in bits that an RSA algorithm was given; none for
    /// the other algorithms.
    pub open spec fn requested_modulus_length(self) -> Option<u32> {
        match self {
            AsymmetricAlgorithm::Rs256 { modulus_length } => Some(modulus_length),
            AsymmetricAlgorithm::Rs384 { modulus_length } => Some(modulus_length),
            AsymmetricAlgorithm::Rs512 { modulus_length } => Some(modulus_length),
            AsymmetricAlgorithm::Ps256 { modulus_length } => Some(modulus_length),
            AsymmetricAlgorithm::Ps384 { modulus_length } => Some(modulus_length),
            AsymmetricAlgorithm::Ps512 { modulus_length } => Some(modulus_length),
            _ => None,
        }
    }

    /// The JWS `alg` name of the algorithm.
    pub open spec fn spec_name(self) -> Seq<char> {
        match self {
            AsymmetricAlgorithm::Es256 => "ES256"@,
            AsymmetricAlgorithm::Es384 => "ES384"@,
            AsymmetricAlgorithm::Rs256 { .. } => "RS256"@,
            AsymmetricAlgorithm::Rs384 { .. } => "RS384"@,
            AsymmetricAlgorithm::Rs512 { .. } => "RS512"@,
            AsymmetricAlgorithm::Ps256 { .. } => "PS256"@,
            AsymmetricAlgorithm::Ps384 { .. } => "PS384"@,
            AsymmetricAlgorithm::Ps512 { .. } => "PS512"@,
            AsymmetricAlgorithm::EdDSA => "EdDSA"@,
            AsymmetricAlgorithm::Ed25519 => "Ed25519"@,
        }
    }

    /// The `generateKey` dictionary for the algorithm: ECDSA on the curve of
    /// the algorithm, an RSA key of the requested modulus length with exponent
    /// 65537 bound to the algorithm's hash, or `Ed25519`.
    pub open spec fn spec_key_gen_params(self) -> KeyGenParamsView {
        match self {
            AsymmetricAlgorithm::Es256 => KeyGenParamsView::Ec { name: "ECDSA"@, named_curve: "P-256"@ },
            AsymmetricAlgorithm::Es384 => KeyGenParamsView::Ec { name: "ECDSA"@, named_curve: "P-384"@ },
            AsymmetricAlgorithm::Rs256 { modulus_length } => KeyGenParamsView::RsaHashed {
                name: "RSASSA-PKCS1-v1_5"@,
                modulus_length,
                public_exponent: rsa_public_exponent(),
                hash: sha_name(256),
            },
            AsymmetricAlgorithm::Rs384 { modulus_length } => KeyGenParamsView::RsaHashed {
                name: "RSASSA-PKCS1-v1_5"@,
                modulus_length,
                public_exponent: rsa_public_exponent(),
                hash: sha_name(384),
            },
            AsymmetricAlgorithm::Rs512 { modulus_length } => KeyGenParamsView::RsaHashed {
                name: "RSASSA-PKCS1-v1_5"@,
                modulus_length,
                public_exponent: rsa_public_exponent(),
                hash: sha_name(512),
            },
            AsymmetricAlgorithm::Ps256 { modulus_length } => KeyGenParamsView::RsaHashed {
                name: "RSA-PSS"@,
                modulus_length,
                public_exponent: rsa_public_exponent(),
                hash: sha_name(256),
            },
            AsymmetricAlgorithm::Ps384 { modulus_length } => KeyGenParamsView::RsaHashed {
                name: "RSA-PSS"@,
                modulus_length,
                public_exponent: rsa_public_exponent(),
                hash: sha_name(384),
            },
            AsymmetricAlgorithm::Ps512 { modulus_length } => KeyGenParamsView::RsaHashed {
                name: "RSA-PSS"@,
                modulus_length,
                public_exponent: rsa_public_exponent(),
                hash: sha_name(512),
            },
            AsymmetricAlgorithm::EdDSA | AsymmetricAlgorithm::Ed25519 => KeyGenParamsView::Ed25519,
        }
    }

    /// The `sign` dictionary for the algorithm: ECDSA with the algorithm's
    /// hash, `RSASSA-PKCS1-v1_5`, `RSA-PSS` with a salt as long as the
    /// digest, or `Ed25519`.
    pub open spec fn spec_sign_algorithm(self) -> SignAlgorithmView {
        match self {
            AsymmetricAlgorithm::Es256 => SignAlgorithmView::EcDsa { name: "ECDSA"@, hash: sha_name(256) },
            AsymmetricAlgorithm::Es384 => SignAlgorithmView::EcDsa { name: "ECDSA"@, hash: sha_name(384) },
            AsymmetricAlgorithm::Rs256 { .. }
            | AsymmetricAlgorithm::Rs384 { .. }
            | AsymmetricAlgorithm::Rs512 { .. } => SignAlgorithmView::RsaPkcs1,
            AsymmetricAlgorithm::Ps256 { .. } => SignAlgorithmView::RsaPss { name: "RSA-PSS"@, salt_length: 32 },
            AsymmetricAlgorithm::Ps384 { .. } => SignAlgorithmView::RsaPss { name: "RSA-PSS"@, salt_length: 48 },
            AsymmetricAlgorithm::Ps512 { .. } => SignAlgorithmView::RsaPss { name: "RSA-PSS"@, salt_length: 64 },
            AsymmetricAlgorithm::EdDSA | AsymmetricAlgorithm::Ed25519 => SignAlgorithmView::Ed25519,
        }
    }

    /// The parameters with which `WebCrypto` generates a key pair for this
    /// algorithm.
    pub fn key_gen_params(&self) -> (params: AsymmetricKeyGenParams<'_>)
        ensures
            params@ == self.spec_key_gen_params(),
            self.requested_modulus_length() matches Some(bits) ==> {
                &&& params matches AsymmetricKeyGenParams::RsaHashed { modulus_length, public_exponent, .. }
                &&& modulus_length == bits
                &&& public_exponent@ == seq![0x01u8, 0x00u8, 0x01u8]
            },
            self.requested_modulus_length() is None ==> !(params is RsaHashed),
    {
        let public_exponent: &[u8] = &[0x01, 0x00, 0x01];
        assert(public_exponent@ =~= rsa_public_exponent());
        match self {
            AsymmetricAlgorithm::Es256 => AsymmetricKeyGenParams::Ec { name: "ECDSA", named_curve: "P-256" },
            AsymmetricAlgorithm::Es384 => AsymmetricKeyGenParams::Ec { name: "ECDSA", named_curve: "P-384" },
            AsymmetricAlgorithm::Rs256 { modulus_length } => AsymmetricKeyGenParams::RsaHashed {
                name: "RSASSA-PKCS1-v1_5",
                modulus_length: *modulus_length,
                public_exponent,
                hash: "SHA-256",
            },
            AsymmetricAlgorithm::Rs384 { modulus_length } => AsymmetricKeyGenParams::RsaHashed {
                name: "RSASSA-PKCS1-v1_5",
                modulus_length: *modulus_length,
                public_exponent,
                hash: "SHA-384",
            },
            AsymmetricAlgorithm::Rs512 { modulus_length } => AsymmetricKeyGenParams::RsaHashed {
                name: "RSASSA-PKCS1-v1_5",
                modulus_length: *modulus_length,
                public_exponent,
                hash: "SHA-512",
            },
            AsymmetricAlgorithm::Ps256 { modulus_length } => AsymmetricKeyGenParams::RsaHashed {
                name: "RSA-PSS",
                modulus_length: *modulus_length,
                public_exponent,
                hash: "SHA-256",
            },
            AsymmetricAlgorithm::Ps384 { modulus_length } => AsymmetricKeyGenParams::RsaHashed {
                name: "RSA-PSS",
                modulus_length: *modulus_length,
                public_exponent,
                hash: "SHA-384",
            },
            AsymmetricAlgorithm::Ps512 { modulus_length } => AsymmetricKeyGenParams::RsaHashed {
                name: "RSA-PSS",
                modulus_length: *modulus_length,
                public_exponent,
                hash: "SHA-512",
            },
            AsymmetricAlgorithm::EdDSA | AsymmetricAlgorithm::Ed25519 => AsymmetricKeyGenParams::Ed25519,
        }
    }

    /// What to ask `WebCrypto` for when generating a signing key for this
    /// algorithm: the algorithm's key pair, with a private key that
    /// JavaScript cannot export and that may only sign.
    pub fn key_gen_request(&self) -> (request: KeyGenRequest<'_>)
        ensures
            request.params@ == self.spec_key_gen_params(),
            self.requested_modulus_length() matches Some(bits) ==> {
                &&& request.params matches AsymmetricKeyGenParams::RsaHashed { modulus_length, public_exponent, .. }
                &&& modulus_length == bits
                &&& public_exponent@ == seq![0x01u8, 0x00u8, 0x01u8]
            },
            !request.extractable,
            request.usages@ == seq![KeyUsage::Sign],
    {
        let usages: &'static [KeyUsage] = &[KeyUsage::Sign];
        assert(usages@ =~= seq![KeyUsage::Sign]);
        KeyGenRequest { params: self.key_gen_params(), extractable: false, usages }
    }

    /// The parameters with which `WebCrypto` signs with a key of this
    /// algorithm.
    pub fn sign_algorithm(&self) -> (params: SignAlgorithm<'_>)
        ensures
            params@ == self.spec_sign_algorithm(),
    {
        match self {
            Self::Es256 => SignAlgorithm::EcDsa { name: "ECDSA", hash: "SHA-256" },
            Self::Es384 => SignAlgorithm::EcDsa { name: "ECDSA", hash: "SHA-384" },
            Self::Rs256 { .. } | Self::Rs384 { .. } | Self::Rs512 { .. } => SignAlgorithm::RsaPkcs1,
            Self::Ps256 { .. } => SignAlgorithm::RsaPss { name: "RSA-PSS", salt_length: 32 },
            Self::Ps384 { .. } => SignAlgorithm::RsaPss { name: "RSA-PSS", salt_length: 48 },
            Self::Ps512 { .. } => SignAlgorithm::RsaPss { name: "RSA-PSS", salt_length: 64 },
            Self::EdDSA | Self::Ed25519 => SignAlgorithm::Ed25519,
        }
    }

    /// The JWS `alg` name of the algorithm.
    pub fn name(self) -> (name: &'static str)
        ensures
            name@ == self.spec_name(),
    {
        match self {
            Self::Es256 => "ES256",
            Self::Es384 => "ES384",
            Self::Rs256 { .. } => "RS256",
            Self::Rs384 { .. } => "RS384",
            Self::Rs512 { .. } => "RS512",
            Self::Ps256 { .. } => "PS256",
            Self::Ps384 { .. } => "PS384",
            Self::Ps512 { .. } => "PS512",
            Self::EdDSA => "EdDSA",
            Self::Ed25519 => "Ed25519",
        }
    }
}

/// What describes a signing key to the JWS it signs: the `alg` to write in
/// the header and the `kid`, if any.
#[derive(Debug, Clone)]
pub struct SigningKeyMetadata {
    /// The JWS `alg` of the signatures.
    pub jws_algorithm: String,
    /// The key identifier.
    pub key_id: Option<String>,
}

#[derive(Debug)]
struct PrivateKeyInner {
    crypto_key: CryptoKey,
    algorithm: AsymmetricAlgorithm,
    key_metadata: SigningKeyMetadata,
    jwk: PublicJwk,
}

/// A non-exportable asymmetric private key used to create JWS signatures.
///
/// Keys used here are not extractable by JavaScript.
#[derive(Debug)]
pub struct PrivateKey {
    inner: Arc<PrivateKeyInner>,
}

impl Clone for PrivateKey {
    /// Another handle on the same key: the same `WebCrypto` key, algorithm,
    /// metadata and public JWK.
    fn clone(&self) -> (key: Self)
        ensures
            key == *self,
    {
        PrivateKey { inner: arc_clone(&self.inner) }
    }
}

/// What `SubtleCrypto.generateKey` is asked for: a key pair of the given
/// parameters, extractable or not, for the given usages.
#[derive(Debug, Clone, Copy)]
pub struct KeyGenRequest<'a> {
    /// The algorithm dictionary.
    pub params: AsymmetricKeyGenParams<'a>,
    /// Whether JavaScript may export the private key.
    pub extractable: bool,
    /// What the private key may be used for.
    pub usages: &'static [KeyUsage],
}

impl PrivateKey {
    /// The `WebCrypto` private key.
    pub closed spec fn spec_crypto_key(&self) -> CryptoKey {
        self.inner.crypto_key
    }

    /// The algorithm the key signs with.
    pub closed spec fn spec_algorithm(&self) -> AsymmetricAlgorithm {
        self.inner.algorithm
    }

    /// The JWS `alg` the key's metadata reports.
    pub closed spec fn spec_jws_algorithm(&self) -> Seq<char> {
        self.inner.key_metadata.jws_algorithm@
    }

    /// The key identifier the key's metadata reports.
    pub closed spec fn spec_key_id(&self) -> Option<Seq<char>> {
        opt_string_view(self.inner.key_metadata.key_id)
    }

    /// The public JWK of the key pair.
    pub closed spec fn spec_public_key_jwk(&self) -> PublicJwk {
        self.inner.jwk
    }

    /// Creates the signing key from a freshly generated private key, the
    /// algorithm it was generated for and the JWK of its public half: the
    /// metadata reports the algorithm's name and the JWK's key identifier.
    pub fn new(crypto_key: CryptoKey, algorithm: AsymmetricAlgorithm, public_key_jwk: PublicJwk) -> (key: Self)
        ensures
            key.spec_crypto_key() == crypto_key,
            key.spec_algorithm() == algorithm,
            key.spec_jws_algorithm() == algorithm.spec_name(),
            key.spec_key_id() == opt_string_view(public_key_jwk.kid),
            key.spec_public_key_jwk() == public_key_jwk,
    {
        let key_id = match &public_key_jwk.kid {
            Some(kid) => Some(kid.clone()),
            None => None,
        };
        let key_metadata = SigningKeyMetadata { jws_algorithm: algorithm.name().to_owned(), key_id };
        PrivateKey {
            inner: Arc::new(
                PrivateKeyInner { crypto_key, algorithm, key_metadata, jwk: public_key_jwk },
            ),
        }
    }

    /// The metadata that describes the key.
    pub fn key_metadata(&self) -> (metadata: &SigningKeyMetadata)
        ensures
            metadata.jws_algorithm@ == self.spec_jws_algorithm(),
            opt_string_view(metadata.key_id) == self.spec_key_id(),
    {
        &self.inner.key_metadata
    }

    /// The public JWK of the key pair.
    pub fn public_key_jwk(&self) -> (jwk: &PublicJwk)
        ensures
            *jwk == self.spec_public_key_jwk(),
    {
        &self.inner.jwk
    }

    /// The algorithm the key signs with.
    pub fn algorithm(&self) -> (algorithm: AsymmetricAlgorithm)
        ensures
            algorithm == self.spec_algorithm(),
    {
        self.inner.algorithm
    }

    /// The `WebCrypto` private key.
    pub fn crypto_key(&self) -> (key: &CryptoKey)
        ensures
            *key == self.spec_crypto_key(),
    {
        &self.inner.crypto_key
    }
}

} // verus!
