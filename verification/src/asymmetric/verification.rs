//! Public keys that verify JWS signatures: which keys a JWK is imported as,
//! which imported key and parameters verify which algorithm, and how a
//! key-match request and a verification are answered.

use std::sync::Arc;

use vstd::prelude::*;

use web_sys::CryptoKey;

use crate::helpers::import_key::{ImportParams, ImportParamsView};
use crate::helpers::{SignAlgorithm, SignAlgorithmView};
use crate::jwk::{is_none_or_equal, opt_string_view, PublicJwk, PublicKey};
use crate::sharing::arc_clone;
use crate::text::str_equal;
use crate::KeyUsage;

verus! {

/// The shape of a verifying key: which algorithms it serves and how many
/// `WebCrypto` keys stand behind it.
#[derive(Debug, Clone, Copy, PartialEq, Eq, Structural)]
pub enum KeyKind {
    /// A P-256 key for ES256.
    Es256,
    /// A P-384 key for ES384.
    Es384,
    /// An RSA key without a declared algorithm, imported once for each of
    /// RS256, RS384, RS512, PS256, PS384 and PS512.
    Rsa,
    /// An RSA key for RS256 only.
    Rs256,
    /// An RSA key for RS384 only.
    Rs384,
    /// An RSA key for RS512 only.
    Rs512,
    /// An RSA key for PS256 only.
    Ps256,
    /// An RSA key for PS384 only.
    Ps384,
    /// An RSA key for PS512 only.
    Ps512,
    /// An `Ed25519` key.
    Ed25519,
}

/// The kind of verifying key an RSA JWK that declares `alg` becomes.
pub open spec fn spec_rsa_kind_for(alg: Seq<char>) -> Option<KeyKind> {
    if alg == "RS256"@ {
        Some(KeyKind::Rs256)
    } else if alg == "RS384"@ {
        Some(KeyKind::Rs384)
    } else if alg == "RS512"@ {
        Some(KeyKind::Rs512)
    } else if alg == "PS256"@ {
        Some(KeyKind::Ps256)
    } else if alg == "PS384"@ {
        Some(KeyKind::Ps384)
    } else if alg == "PS512"@ {
        Some(KeyKind::Ps512)
    } else {
        None
    }
}

/// The kind of verifying key a JWK with algorithm `alg` and key material
/// `key` becomes, if any: an EC key on P-256 or P-384 whose `alg`, if
/// present, names the curve's algorithm; an RSA key, for all six RSA
/// algorithms when `alg` is absent and for the declared one otherwise; an
/// OKP key whose `alg`, if present, is `EdDSA` or `Ed25519`.
pub open spec fn spec_kind_for_jwk(alg: Option<Seq<char>>, key: PublicKey) -> Option<KeyKind> {
    match key {
        PublicKey::Ec(ec) => if is_none_or_equal(alg, "ES256"@) && ec.crv@ == "P-256"@ {
            Some(KeyKind::Es256)
        } else if is_none_or_equal(alg, "ES384"@) && ec.crv@ == "P-384"@ {
            Some(KeyKind::Es384)
        } else {
            None
        },
        PublicKey::Rsa(_) => match alg {
            None => Some(KeyKind::Rsa),
            Some(a) => spec_rsa_kind_for(a),
        },
        PublicKey::Okp(_) => if is_none_or_equal(alg, "EdDSA"@) || alg == Some("Ed25519"@) {
            Some(KeyKind::Ed25519)
        } else {
            None
        },
        PublicKey::UnknownOrPrivate => None,
    }
}

/// The `importKey` dictionary for an RSA key of the given family bound to
/// the given hash.
pub open spec fn rsa_import(name: Seq<char>, hash: Seq<char>) -> ImportParamsView {
    ImportParamsView::RsaHashed { name, hash }
}

impl KeyKind {
    /// The algorithm names a key of this kind reports as supported; an
    /// `Ed25519` key answers to `EdDSA` as well, its polymorphic name.
    pub open spec fn spec_supported_algorithms(self) -> Seq<Seq<char>> {
        match self {
            KeyKind::Es256 => seq!["ES256"@],
            KeyKind::Es384 => seq!["ES384"@],
            KeyKind::Rsa => seq!["RS256"@, "RS384"@, "RS512"@, "PS256"@, "PS384"@, "PS512"@],
            KeyKind::Rs256 => seq!["RS256"@],
            KeyKind::Rs384 => seq!["RS384"@],
            KeyKind::Rs512 => seq!["RS512"@],
            KeyKind::Ps256 => seq!["PS256"@],
            KeyKind::Ps384 => seq!["PS384"@],
            KeyKind::Ps512 => seq!["PS512"@],
            KeyKind::Ed25519 => seq!["EdDSA"@, "Ed25519"@],
        }
    }

    /// Whether a key of this kind verifies signatures of algorithm `alg`.
    pub open spec fn accepts(self, alg: Seq<char>) -> bool {
        match self {
            KeyKind::Es256 => alg == "ES256"@,
            KeyKind::Es384 => alg == "ES384"@,
            KeyKind::Rsa => {
                ||| alg == "RS256"@
                ||| alg == "RS384"@
                ||| alg == "RS512"@
                ||| alg == "PS256"@
                ||| alg == "PS384"@
                ||| alg == "PS512"@
            },
            KeyKind::Rs256 => alg == "RS256"@,
            KeyKind::Rs384 => alg == "RS384"@,
            KeyKind::Rs512 => alg == "RS512"@,
            KeyKind::Ps256 => alg == "PS256"@,
            KeyKind::Ps384 => alg == "PS384"@,
            KeyKind::Ps512 => alg == "PS512"@,
            KeyKind::Ed25519 => alg == "EdDSA"@ || alg == "Ed25519"@,
        }
    }

    /// The `sign`/`verify` dictionary with which a key of this kind
    /// verifies signatures of algorithm `alg`.
    pub open spec fn spec_sign_algorithm(self, alg: Seq<char>) -> SignAlgorithmView {
        match self {
            KeyKind::Es256 => SignAlgorithmView::EcDsa { name: "ECDSA"@, hash: "SHA-256"@ },
            KeyKind::Es384 => SignAlgorithmView::EcDsa { name: "ECDSA"@, hash: "SHA-384"@ },
            KeyKind::Rsa => if alg == "RS256"@ || alg == "RS384"@ || alg == "RS512"@ {
                SignAlgorithmView::RsaPkcs1
            } else if alg == "PS256"@ {
                SignAlgorithmView::RsaPss { name: "RSA-PSS"@, salt_length: 32 }
            } else if alg == "PS384"@ {
                SignAlgorithmView::RsaPss { name: "RSA-PSS"@, salt_length: 48 }
            } else {
                SignAlgorithmView::RsaPss { name: "RSA-PSS"@, salt_length: 64 }
            },
            KeyKind::Rs256 | KeyKind::Rs384 | KeyKind::Rs512 => SignAlgorithmView::RsaPkcs1,
            KeyKind::Ps256 => SignAlgorithmView::RsaPss { name: "RSA-PSS"@, salt_length: 32 },
            KeyKind::Ps384 => SignAlgorithmView::RsaPss { name: "RSA-PSS"@, salt_length: 48 },
            KeyKind::Ps512 => SignAlgorithmView::RsaPss { name: "RSA-PSS"@, salt_length: 64 },
            KeyKind::Ed25519 => SignAlgorithmView::Ed25519,
        }
    }

    /// The position, among the keys imported for this kind, of the key that
    /// verifies `alg`.
    pub open spec fn slot(self, alg: Seq<char>) -> int {
        if self == KeyKind::Rsa {
            if alg == "RS256"@ {
                0
            } else if alg == "RS384"@ {
                1
            } else if alg == "RS512"@ {
                2
            } else if alg == "PS256"@ {
                3
            } else if alg == "PS384"@ {
                4
            } else {
                5
            }
        } else {
            0
        }
    }

    /// The `importKey` dictionaries of the keys that stand behind a key of
    /// this kind, in the order in which they are imported.
    pub open spec fn spec_import_params(self) -> Seq<ImportParamsView> {
        match self {
            KeyKind::Es256 => seq![ImportParamsView::Ec { name: "ECDSA"@, named_curve: "P-256"@ }],
            KeyKind::Es384 => seq![ImportParamsView::Ec { name: "ECDSA"@, named_curve: "P-384"@ }],
            KeyKind::Rsa => seq![
                rsa_import("RSASSA-PKCS1-v1_5"@, "SHA-256"@),
                rsa_import("RSASSA-PKCS1-v1_5"@, "SHA-384"@),
                rsa_import("RSASSA-PKCS1-v1_5"@, "SHA-512"@),
                rsa_import("RSA-PSS"@, "SHA-256"@),
                rsa_import("RSA-PSS"@, "SHA-384"@),
                rsa_import("RSA-PSS"@, "SHA-512"@),
            ],
            KeyKind::Rs256 => seq![rsa_import("RSASSA-PKCS1-v1_5"@, "SHA-256"@)],
            KeyKind::Rs384 => seq![rsa_import("RSASSA-PKCS1-v1_5"@, "SHA-384"@)],
            KeyKind::Rs512 => seq![rsa_import("RSASSA-PKCS1-v1_5"@, "SHA-512"@)],
            KeyKind::Ps256 => seq![rsa_import("RSA-PSS"@, "SHA-256"@)],
            KeyKind::Ps384 => seq![rsa_import("RSA-PSS"@, "SHA-384"@)],
            KeyKind::Ps512 => seq![rsa_import("RSA-PSS"@, "SHA-512"@)],
            KeyKind::Ed25519 => seq![ImportParamsView::Ed25519],
        }
    }
}

/// Decides whether the optional string is absent or holds exactly `expected`.
fn is_none_or(s: &Option<String>, expected: &str) -> (r: bool)
    ensures
        r == is_none_or_equal(opt_string_view(*s), expected@),
{
    match s {
        Some(s) => str_equal(s.as_str(), expected),
        None => true,
    }
}

impl KeyKind {
    /// Decides which kind of verifying key a JWK becomes, if any.
    pub fn from_jwk(jwk: &PublicJwk) -> (kind: Option<KeyKind>)
        ensures
            kind == spec_kind_for_jwk(opt_string_view(jwk.algorithm), jwk.key),
    {
        match &jwk.key {
            PublicKey::Ec(ec_public_key) => {
                if is_none_or(&jwk.algorithm, "ES256") && str_equal(ec_public_key.crv.as_str(), "P-256") {
                    Some(KeyKind::Es256)
                } else if is_none_or(&jwk.algorithm, "ES384") && str_equal(
                    ec_public_key.crv.as_str(),
                    "P-384",
                ) {
                    Some(KeyKind::Es384)
                } else {
                    None
                }
            },
            PublicKey::Rsa(_) => match &jwk.algorithm {
                None => Some(KeyKind::Rsa),
                Some(alg) => {
                    let alg = alg.as_str();
                    if str_equal(alg, "RS256") {
                        Some(KeyKind::Rs256)
                    } else if str_equal(alg, "RS384") {
                        Some(KeyKind::Rs384)
                    } else if str_equal(alg, "RS512") {
                        Some(KeyKind::Rs512)
                    } else if str_equal(alg, "PS256") {
                        Some(KeyKind::Ps256)
                    } else if str_equal(alg, "PS384") {
                        Some(KeyKind::Ps384)
                    } else if str_equal(alg, "PS512") {
                        Some(KeyKind::Ps512)
                    } else {
                        None
                    }
                },
            },
            PublicKey::Okp(_) => {
                let ed25519 = match &jwk.algorithm {
                    Some(alg) => str_equal(alg.as_str(), "Ed25519"),
                    None => false,
                };
                if is_none_or(&jwk.algorithm, "EdDSA") || ed25519 {
                    Some(KeyKind::Ed25519)
                } else {
                    None
                }
            },
            PublicKey::UnknownOrPrivate => None,
        }
    }

    /// The `importKey` dictionaries of the keys to import for a key of this
    /// kind, in order.
    pub fn import_params(self) -> (params: Vec<ImportParams<'static>>)
        ensures
            params@.map_values(|p: ImportParams<'static>| p@) == self.spec_import_params(),
    {
        let mut params: Vec<ImportParams<'static>> = Vec::new();
        match self {
            KeyKind::Es256 => {
                params.push(ImportParams::Ec { name: "ECDSA", named_curve: "P-256" });
            },
            KeyKind::Es384 => {
                params.push(ImportParams::Ec { name: "ECDSA", named_curve: "P-384" });
            },
            KeyKind::Rsa => {
                params.push(ImportParams::RsaHashed { name: "RSASSA-PKCS1-v1_5", hash: "SHA-256" });
                params.push(ImportParams::RsaHashed { name: "RSASSA-PKCS1-v1_5", hash: "SHA-384" });
                params.push(ImportParams::RsaHashed { name: "RSASSA-PKCS1-v1_5", hash: "SHA-512" });
                params.push(ImportParams::RsaHashed { name: "RSA-PSS", hash: "SHA-256" });
                params.push(ImportParams::RsaHashed { name: "RSA-PSS", hash: "SHA-384" });
                params.push(ImportParams::RsaHashed { name: "RSA-PSS", hash: "SHA-512" });
            },
            KeyKind::Rs256 => {
                params.push(ImportParams::RsaHashed { name: "RSASSA-PKCS1-v1_5", hash: "SHA-256" });
            },
            KeyKind::Rs384 => {
                params.push(ImportParams::RsaHashed { name: "RSASSA-PKCS1-v1_5", hash: "SHA-384" });
            },
            KeyKind::Rs512 => {
                params.push(ImportParams::RsaHashed { name: "RSASSA-PKCS1-v1_5", hash: "SHA-512" });
            },
            KeyKind::Ps256 => {
                params.push(ImportParams::RsaHashed { name: "RSA-PSS", hash: "SHA-256" });
            },
            KeyKind::Ps384 => {
                params.push(ImportParams::RsaHashed { name: "RSA-PSS", hash: "SHA-384" });
            },
            KeyKind::Ps512 => {
                params.push(ImportParams::RsaHashed { name: "RSA-PSS", hash: "SHA-512" });
            },
            KeyKind::Ed25519 => {
                params.push(ImportParams::Ed25519);
            },
        }
        assert(params@.map_values(|p: ImportParams<'static>| p@) =~= self.spec_import_params());
        params
    }
}

/// A verifying key: the `WebCrypto` keys imported from one JWK.
#[derive(Debug)]
pub enum Key {
    Es256(CryptoKey),
    Es384(CryptoKey),
    Rsa {
        /// RS256 key
        rs256: CryptoKey,
        /// RS384 key
        rs384: CryptoKey,
        /// RS512 key
        rs512: CryptoKey,
        /// PS256 key
        ps256: CryptoKey,
        /// PS384 key
        ps384: CryptoKey,
        /// PS512 key
        ps512: CryptoKey,
    },
    Rs256(CryptoKey),
    Rs384(CryptoKey),
    Rs512(CryptoKey),
    Ps256(CryptoKey),
    Ps384(CryptoKey),
    Ps512(CryptoKey),
    Ed25519(CryptoKey),
}

impl Key {
    /// The kind of the key.
    pub open spec fn kind(&self) -> KeyKind {
        match self {
            Key::Es256(..) => KeyKind::Es256,
            Key::Es384(..) => KeyKind::Es384,
            Key::Rsa { .. } => KeyKind::Rsa,
            Key::Rs256(..) => KeyKind::Rs256,
            Key::Rs384(..) => KeyKind::Rs384,
            Key::Rs512(..) => KeyKind::Rs512,
            Key::Ps256(..) => KeyKind::Ps256,
            Key::Ps384(..) => KeyKind::Ps384,
            Key::Ps512(..) => KeyKind::Ps512,
            Key::Ed25519(..) => KeyKind::Ed25519,
        }
    }

    /// The `WebCrypto` keys behind the key, in the order in which the kind
    /// imports them.
    pub open spec fn spec_keys(&self) -> Seq<CryptoKey> {
        match *self {
            Key::Rsa { rs256, rs384, rs512, ps256, ps384, ps512 } => seq![
                rs256,
                rs384,
                rs512,
                ps256,
                ps384,
                ps512,
            ],
            Key::Es256(k) => seq![k],
            Key::Es384(k) => seq![k],
            Key::Rs256(k) => seq![k],
            Key::Rs384(k) => seq![k],
            Key::Rs512(k) => seq![k],
            Key::Ps256(k) => seq![k],
            Key::Ps384(k) => seq![k],
            Key::Ps512(k) => seq![k],
            Key::Ed25519(k) => seq![k],
        }
    }

    /// The algorithm names the key reports as supported.
    pub fn supported_algorithms(&self) -> (algs: &'static [&'static str])
        ensures
            algs@.map_values(|a: &str| a@) == self.kind().spec_supported_algorithms(),
    {
        let algs: &'static [&'static str] = match self {
            Key::Es256(..) => &["ES256"],
            Key::Es384(..) => &["ES384"],
            Key::Rsa { .. } => &["RS256", "RS384", "RS512", "PS256", "PS384", "PS512"],
            Key::Rs256(..) => &["RS256"],
            Key::Rs384(..) => &["RS384"],
            Key::Rs512(..) => &["RS512"],
            Key::Ps256(..) => &["PS256"],
            Key::Ps384(..) => &["PS384"],
            Key::Ps512(..) => &["PS512"],
            Key::Ed25519(..) => &["EdDSA", "Ed25519"],
        };
        assert(algs@.map_values(|a: &str| a@) =~= self.kind().spec_supported_algorithms());
        algs
    }

    /// The parameters and the `WebCrypto` key that verify signatures of
    /// algorithm `alg`, if the key accepts it.
    pub fn matching_key_and_alg(&self, alg: &str) -> (found: Option<(SignAlgorithm<'static>, &CryptoKey)>)
        ensures
            found is Some <==> self.kind().accepts(alg@),
            found matches Some((params, key)) ==> {
                &&& params@ == self.kind().spec_sign_algorithm(alg@)
                &&& *key == self.spec_keys()[self.kind().slot(alg@)]
            },
    {
        match self {
            Key::Es256(k) => if str_equal(alg, "ES256") {
                Some((SignAlgorithm::EcDsa { name: "ECDSA", hash: "SHA-256" }, k))
            } else {
                None
            },
            Key::Es384(k) => if str_equal(alg, "ES384") {
                Some((SignAlgorithm::EcDsa { name: "ECDSA", hash: "SHA-384" }, k))
            } else {
                None
            },
            Key::Rsa { rs256, rs384, rs512, ps256, ps384, ps512 } => {
                if str_equal(alg, "RS256") {
                    Some((SignAlgorithm::RsaPkcs1, rs256))
                } else if str_equal(alg, "RS384") {
                    Some((SignAlgorithm::RsaPkcs1, rs384))
                } else if str_equal(alg, "RS512") {
                    Some((SignAlgorithm::RsaPkcs1, rs512))
                } else if str_equal(alg, "PS256") {
                    Some((SignAlgorithm::RsaPss { name: "RSA-PSS", salt_length: 32 }, ps256))
                } else if str_equal(alg, "PS384") {
                    Some((SignAlgorithm::RsaPss { name: "RSA-PSS", salt_length: 48 }, ps384))
                } else if str_equal(alg, "PS512") {
                    Some((SignAlgorithm::RsaPss { name: "RSA-PSS", salt_length: 64 }, ps512))
                } else {
                    None
                }
            },
            Key::Rs256(k) => if str_equal(alg, "RS256") {
                Some((SignAlgorithm::RsaPkcs1, k))
            } else {
                None
            },
            Key::Rs384(k) => if str_equal(alg, "RS384") {
                Some((SignAlgorithm::RsaPkcs1, k))
            } else {
                None
            },
            Key::Rs512(k) => if str_equal(alg, "RS512") {
                Some((SignAlgorithm::RsaPkcs1, k))
            } else {
                None
            },
            Key::Ps256(k) => if str_equal(alg, "PS256") {
                Some((SignAlgorithm::RsaPss { name: "RSA-PSS", salt_length: 32 }, k))
            } else {
                None
            },
            Key::Ps384(k) => if str_equal(alg, "PS384") {
                Some((SignAlgorithm::RsaPss { name: "RSA-PSS", salt_length: 48 }, k))
            } else {
                None
            },
            Key::Ps512(k) => if str_equal(alg, "PS512") {
                Some((SignAlgorithm::RsaPss { name: "RSA-PSS", salt_length: 64 }, k))
            } else {
                None
            },
            Key::Ed25519(k) => if str_equal(alg, "EdDSA") || str_equal(alg, "Ed25519") {
                Some((SignAlgorithm::Ed25519, k))
            } else {
                None
            },
        }
    }

    /// Builds the verifying key of the given kind from the `WebCrypto` keys
    /// imported with the kind's `importKey` dictionaries, in order.
    pub fn from_imported(kind: KeyKind, keys: Vec<CryptoKey>) -> (key: Key)
        requires
            keys@.len() == kind.spec_import_params().len(),
        ensures
            key.kind() == kind,
            key.spec_keys() == keys@,
    {
        let ghost imported = keys@;
        let mut keys = keys;
        if kind == KeyKind::Rsa {
            let ps512 = keys.pop().unwrap();
            let ps384 = keys.pop().unwrap();
            let ps256 = keys.pop().unwrap();
            let rs512 = keys.pop().unwrap();
            let rs384 = keys.pop().unwrap();
            let rs256 = keys.pop().unwrap();
            let key = Key::Rsa { rs256, rs384, rs512, ps256, ps384, ps512 };
            assert(key.spec_keys() =~= imported);
            key
        } else {
            let k = keys.pop().unwrap();
            let key = match kind {
                KeyKind::Es256 => Key::Es256(k),
                KeyKind::Es384 => Key::Es384(k),
                KeyKind::Rs256 => Key::Rs256(k),
                KeyKind::Rs384 => Key::Rs384(k),
                KeyKind::Rs512 => Key::Rs512(k),
                KeyKind::Ps256 => Key::Ps256(k),
                KeyKind::Ps384 => Key::Ps384(k),
                KeyKind::Ps512 => Key::Ps512(k),
                _ => Key::Ed25519(k),
            };
            assert(key.spec_keys() =~= imported);
            key
        }
    }
}

/// Decides whether `requested` is one of the algorithm names in `supported`.
pub fn require_alg(requested: &str, supported: &[&str]) -> (found: bool)
    ensures
        found == supported@.map_values(|a: &str| a@).contains(requested@),
{
    let ghost names = supported@.map_values(|a: &str| a@);
    let mut i: usize = 0;
    while i < supported.len()
        invariant
            i <= supported@.len(),
            names == supported@.map_values(|a: &str| a@),
            forall|j: int| 0 <= j < i ==> names[j] != requested@,
        decreases supported@.len() - i,
    {
        if str_equal(supported[i], requested) {
            assert(names[i as int] == requested@);
            return true;
        }
        i = i + 1;
    }
    false
}

/// A request to match a verifying key: the JWS `alg` and, optionally, the
/// `kid` of the token's header.
#[derive(Debug, Clone, Copy)]
pub struct KeyMatch<'a> {
    /// The requested algorithm.
    pub alg: &'a str,
    /// The requested key identifier.
    pub kid: Option<&'a str>,
}

/// How well a verifying key matches a request.
#[derive(Debug, Clone, Copy, PartialEq, Eq, Structural)]
pub enum KeyMatchStrength {
    /// The key identifiers agree.
    ByKeyId,
    /// Only the algorithm matches.
    ByAlgorithm,
}

/// Why a signature was not verified.
#[derive(Debug)]
pub enum VerifyError<E> {
    /// No key serves the requested algorithm.
    NoMatchingKey,
    /// The signature does not match the input.
    SignatureMismatch,
    /// The verification could not be carried out.
    Other {
        /// The underlying error.
        source: E,
    },
}

/// An optional string slice taken by its characters.
pub open spec fn opt_str_view(s: Option<&str>) -> Option<Seq<char>> {
    match s {
        Some(s) => Some(s@),
        None => None,
    }
}

/// An asymmetric public key used to verify JWS signatures via the `WebCrypto` `SubtleCrypto` API.
#[derive(Debug)]
pub struct AsymmetricPublicKey {
    inner: Arc<AsymmetricPublicKeyInner>,
}

impl Clone for AsymmetricPublicKey {
    /// Another handle on the same key: the same `WebCrypto` keys and key
    /// identifier.
    fn clone(&self) -> (key: Self)
        ensures
            key == *self,
    {
        AsymmetricPublicKey { inner: arc_clone(&self.inner) }
    }
}

#[derive(Debug)]
struct AsymmetricPublicKeyInner {
    verifying_key: Key,
    kid: Option<String>,
}

/// The answer to a key-match request for algorithm `alg` and requested key
/// identifier `requested`, by a key of kind `kind` with identifier `kid`:
/// none when the kind does not list the algorithm as supported or when both
/// identifiers are present and differ; by key identifier when both are
/// present and equal; by algorithm otherwise.
pub open spec fn spec_key_match(
    kind: KeyKind,
    kid: Option<Seq<char>>,
    alg: Seq<char>,
    requested: Option<Seq<char>>,
) -> Option<KeyMatchStrength> {
    if !kind.spec_supported_algorithms().contains(alg) {
        None
    } else {
        match (requested, kid) {
            (Some(r), Some(k)) => if k == r {
                Some(KeyMatchStrength::ByKeyId)
            } else {
                None
            },
            _ => Some(KeyMatchStrength::ByAlgorithm),
        }
    }
}

/// The outcome of a verification whose `WebCrypto` call gave `outcome`:
/// success for a valid signature, a mismatch for an invalid one, and the
/// call's error otherwise.
pub open spec fn spec_verification_result<E>(outcome: Result<bool, E>) -> Result<(), VerifyError<E>> {
    match outcome {
        Ok(true) => Ok(()),
        Ok(false) => Err(VerifyError::SignatureMismatch),
        Err(e) => Err(VerifyError::Other { source: e }),
    }
}

/// Turns the result of the `WebCrypto` verification call into the result of
/// verifying a signature.
pub fn verification_result<E>(outcome: Result<bool, E>) -> (result: Result<(), VerifyError<E>>)
    ensures
        result == spec_verification_result(outcome),
        result is Ok <==> outcome == Ok::<bool, E>(true),
        outcome == Ok::<bool, E>(false) ==> result == Err::<(), VerifyError<E>>(VerifyError::SignatureMismatch),
        outcome matches Err(e) ==> result == Err::<(), VerifyError<E>>(VerifyError::Other { source: e }),
{
    match outcome {
        Ok(true) => Ok(()),
        Ok(false) => Err(VerifyError::SignatureMismatch),
        Err(e) => Err(VerifyError::Other { source: e }),
    }
}

impl AsymmetricPublicKey {
    /// The verifying key.
    pub closed spec fn spec_verifying_key(&self) -> Key {
        self.inner.verifying_key
    }

    /// The key identifier taken from the JWK.
    pub closed spec fn spec_kid(&self) -> Option<Seq<char>> {
        opt_string_view(self.inner.kid)
    }

    /// Decides which kind of verifying key to import for a JWK: none when
    /// the JWK's `use` or `key_ops` forbid verification or when no kind fits
    /// its key type, curve and algorithm.
    pub fn import_plan(jwk: &PublicJwk) -> (kind: Option<KeyKind>)
        ensures
            kind == (if jwk.spec_permits_verification() {
                spec_kind_for_jwk(opt_string_view(jwk.algorithm), jwk.key)
            } else {
                None
            }),
    {
        if !jwk.permits_verification() {
            return None;
        }
        KeyKind::from_jwk(jwk)
    }

    /// Creates the public key from the `WebCrypto` keys imported, in order,
    /// with the dictionaries of `kind`, keeping the JWK's key identifier.
    pub fn from_imported(jwk: &PublicJwk, kind: KeyKind, keys: Vec<CryptoKey>) -> (key: Self)
        requires
            keys@.len() == kind.spec_import_params().len(),
        ensures
            key.spec_verifying_key().kind() == kind,
            key.spec_verifying_key().spec_keys() == keys@,
            key.spec_kid() == opt_string_view(jwk.kid),
    {
        let kid = match &jwk.kid {
            Some(kid) => Some(kid.clone()),
            None => None,
        };
        AsymmetricPublicKey::new(Key::from_imported(kind, keys), kid)
    }

    fn new(verifying_key: Key, kid: Option<String>) -> (key: Self)
        ensures
            key.spec_verifying_key() == verifying_key,
            key.spec_kid() == opt_string_view(kid),
    {
        AsymmetricPublicKey { inner: Arc::new(AsymmetricPublicKeyInner { verifying_key, kid }) }
    }

    /// Answers a key-match request.
    pub fn key_match(&self, key_match: &KeyMatch<'_>) -> (strength: Option<KeyMatchStrength>)
        ensures
            strength == spec_key_match(
                self.spec_verifying_key().kind(),
                self.spec_kid(),
                key_match.alg@,
                opt_str_view(key_match.kid),
            ),
            strength is Some ==> self.spec_verifying_key().kind().accepts(key_match.alg@),
            key_match.kid matches Some(requested) ==> (self.spec_kid() matches Some(kid) ==> {
                &&& (kid != requested@ ==> strength is None)
                &&& (kid == requested@ && self.spec_verifying_key().kind().accepts(key_match.alg@)
                    ==> strength == Some(KeyMatchStrength::ByKeyId))
            }),
            strength == Some(KeyMatchStrength::ByKeyId) ==> {
                &&& key_match.kid matches Some(requested)
                &&& self.spec_kid() == Some(requested@)
            },
            (key_match.kid is None || self.spec_kid() is None) ==> (strength is Some
                <==> self.spec_verifying_key().kind().accepts(key_match.alg@)),
            (key_match.kid is None || self.spec_kid() is None) ==> strength != Some(
                KeyMatchStrength::ByKeyId,
            ),
    {
        proof {
            crate::laws::law_supported_is_accepted(self.spec_verifying_key().kind(), key_match.alg@);
        }
        if !require_alg(key_match.alg, self.inner.verifying_key.supported_algorithms()) {
            return None;
        }

        let mut identified = false;

        if let Some(requested_kid) = key_match.kid {
            match &self.inner.kid {
                Some(k) => {
                    if !str_equal(k.as_str(), requested_kid) {
                        return None;
                    }
                    identified = true;
                },
                None => {},
            }
        }

        if identified {
            Some(KeyMatchStrength::ByKeyId)
        } else {
            Some(KeyMatchStrength::ByAlgorithm)
        }
    }

    /// The parameters and the `WebCrypto` key with which to verify a
    /// signature of algorithm `alg`, or `NoMatchingKey` when the key does
    /// not verify that algorithm.
    pub fn verification_key<E>(&self, alg: &str) -> (found: Result<(SignAlgorithm<'static>, &CryptoKey), VerifyError<E>>)
        ensures
            found is Ok <==> self.spec_verifying_key().kind().accepts(alg@),
            found matches Ok((params, key)) ==> {
                &&& params@ == self.spec_verifying_key().kind().spec_sign_algorithm(alg@)
                &&& *key == self.spec_verifying_key().spec_keys()[self.spec_verifying_key().kind().slot(alg@)]
            },
            found matches Err(e) ==> e is NoMatchingKey,
    {
        match self.inner.verifying_key.matching_key_and_alg(alg) {
            Some(found) => Ok(found),
            None => Err(VerifyError::NoMatchingKey),
        }
    }
}

/// What `SubtleCrypto.importKey` is asked for: the JWK imported with the
/// given parameters, extractable or not, for the given usages.
#[derive(Debug, Clone, Copy)]
pub struct KeyImportRequest<'a> {
    /// The algorithm dictionary.
    pub params: ImportParams<'a>,
    /// Whether JavaScript may export the imported key.
    pub extractable: bool,
    /// What the imported key may be used for.
    pub usages: &'static [KeyUsage],
}

/// Whether `request` is the import of the key at position `i` of a key of
/// kind `kind`: the kind's `i`-th dictionary, an extractable public key,
/// usable only to verify.
pub open spec fn is_import_request(request: KeyImportRequest<'_>, kind: KeyKind, i: int) -> bool {
    &&& request.params@ == kind.spec_import_params()[i]
    &&& request.extractable
    &&& request.usages@ == seq![KeyUsage::Verify]
}

/// A verifying key being imported from a JWK, one `WebCrypto` key at a time.
#[derive(Debug)]
pub struct KeyImport {
    kind: KeyKind,
    kid: Option<String>,
    keys: Vec<CryptoKey>,
}

/// What to do next while importing a verifying key.
#[derive(Debug)]
pub enum ImportStep {
    /// Import one more key as `request` says, and hand the outcome to
    /// [`KeyImport::imported`].
    Import {
        /// The import so far.
        state: KeyImport,
        /// What to ask `WebCrypto` for.
        request: KeyImportRequest<'static>,
    },
    /// Every key was imported: the verifying key is ready.
    Imported(AsymmetricPublicKey),
    /// The JWK cannot give a verifying key.
    Refused,
}

impl KeyImport {
    #[verifier::type_invariant]
    spec fn pending(self) -> bool {
        self.keys@.len() < self.kind.spec_import_params().len()
    }

    /// The kind of verifying key being imported.
    pub closed spec fn spec_kind(self) -> KeyKind {
        self.kind
    }

    /// The key identifier taken from the JWK.
    pub closed spec fn spec_kid(self) -> Option<Seq<char>> {
        opt_string_view(self.kid)
    }

    /// The `WebCrypto` keys imported so far, in order.
    pub closed spec fn spec_keys(self) -> Seq<CryptoKey> {
        self.keys@
    }

    fn request(kind: KeyKind, i: usize) -> (request: KeyImportRequest<'static>)
        requires
            i < kind.spec_import_params().len(),
        ensures
            is_import_request(request, kind, i as int),
    {
        let params = kind.import_params();
        assert(params@.map_values(|p: ImportParams<'static>| p@)[i as int] == params@[i as int]@);
        let usages: &'static [KeyUsage] = &[KeyUsage::Verify];
        assert(usages@ =~= seq![KeyUsage::Verify]);
        KeyImportRequest { params: params[i], extractable: true, usages }
    }

    /// Starts importing a verifying key from a JWK: refused when the JWK's
    /// `use` or `key_ops` forbid verification or when no kind of key fits
    /// it; otherwise the import of the kind's first key.
    pub fn start(jwk: &PublicJwk) -> (step: ImportStep)
        ensures
            match (if jwk.spec_permits_verification() {
                spec_kind_for_jwk(opt_string_view(jwk.algorithm), jwk.key)
            } else {
                None
            }) {
                None => step is Refused,
                Some(kind) => {
                    &&& step matches ImportStep::Import { state, request }
                    &&& state.spec_kind() == kind
                    &&& state.spec_keys() == Seq::<CryptoKey>::empty()
                    &&& state.spec_kid() == opt_string_view(jwk.kid)
                    &&& is_import_request(request, kind, 0)
                    &&& request.params@ == kind.spec_import_params()[0]
                    &&& request.extractable
                    &&& request.usages@ == seq![KeyUsage::Verify]
                },
            },
    {
        match AsymmetricPublicKey::import_plan(jwk) {
            None => ImportStep::Refused,
            Some(kind) => {
                let kid = match &jwk.kid {
                    Some(kid) => Some(kid.clone()),
                    None => None,
                };
                let request = KeyImport::request(kind, 0);
                let state = KeyImport { kind, kid, keys: Vec::new() };
                assert(state.spec_keys() =~= Seq::<CryptoKey>::empty());
                ImportStep::Import { state, request }
            },
        }
    }

    /// Takes the outcome of the requested import: gives up when it failed;
    /// otherwise keeps the key and asks for the next one, or, once the
    /// kind's keys are all there, builds the verifying key from them.
    pub fn imported(self, outcome: Option<CryptoKey>) -> (step: ImportStep)
        ensures
            outcome is None ==> step is Refused,
            outcome matches Some(key) ==> ({
                let keys = self.spec_keys().push(key);
                if keys.len() == self.spec_kind().spec_import_params().len() {
                    &&& step matches ImportStep::Imported(public_key)
                    &&& public_key.spec_verifying_key().kind() == self.spec_kind()
                    &&& public_key.spec_verifying_key().spec_keys() == keys
                    &&& public_key.spec_kid() == self.spec_kid()
                } else {
                    &&& step matches ImportStep::Import { state, request }
                    &&& state.spec_kind() == self.spec_kind()
                    &&& state.spec_keys() == keys
                    &&& state.spec_kid() == self.spec_kid()
                    &&& is_import_request(request, self.spec_kind(), keys.len() as int)
                    &&& request.params@ == self.spec_kind().spec_import_params()[keys.len() as int]
                    &&& request.extractable
                    &&& request.usages@ == seq![KeyUsage::Verify]
                }
            }),
    {
        proof {
            use_type_invariant(&self);
        }
        let KeyImport { kind, kid, mut keys } = self;
        match outcome {
            None => ImportStep::Refused,
            Some(key) => {
                keys.push(key);
                if keys.len() == kind.import_params().len() {
                    ImportStep::Imported(AsymmetricPublicKey::new(Key::from_imported(kind, keys), kid))
                } else {
                    let request = KeyImport::request(kind, keys.len());
                    ImportStep::Import { state: KeyImport { kind, kid, keys }, request }
                }
            },
        }
    }
}

} // verus!
