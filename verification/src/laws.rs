//! Laws that relate the signing and verifying halves of the library.

use vstd::prelude::*;

use crate::asymmetric::signer::{sha_name, AsymmetricAlgorithm};
use crate::asymmetric::verification::{spec_key_match, spec_kind_for_jwk, KeyKind};
use crate::helpers::generate_key::KeyGenParamsView;
use crate::helpers::import_key::ImportParamsView;
use crate::helpers::SignAlgorithmView;
use crate::jwk::{opt_string_view, KeyOperation, KeyUse, PublicJwk, PublicKey};
use crate::asymmetric::verification::KeyMatchStrength;
use crate::KeyUsage;

verus! {

/// The characters of the JWS algorithm, hash and curve names, which tell
/// them apart.
proof fn lemma_alg_name_chars()
    ensures
        "ES256"@.len() == 5,
        "ES256"@[0] == 'E',
        "ES256"@[1] == 'S',
        "ES256"@[2] == '2',
        "ES256"@[3] == '5',
        "ES256"@[4] == '6',
        "ES384"@.len() == 5,
        "ES384"@[0] == 'E',
        "ES384"@[1] == 'S',
        "ES384"@[2] == '3',
        "ES384"@[3] == '8',
        "ES384"@[4] == '4',
        "RS256"@.len() == 5,
        "RS256"@[0] == 'R',
        "RS256"@[1] == 'S',
        "RS256"@[2] == '2',
        "RS256"@[3] == '5',
        "RS256"@[4] == '6',
        "RS384"@.len() == 5,
        "RS384"@[0] == 'R',
        "RS384"@[1] == 'S',
        "RS384"@[2] == '3',
        "RS384"@[3] == '8',
        "RS384"@[4] == '4',
        "RS512"@.len() == 5,
        "RS512"@[0] == 'R',
        "RS512"@[1] == 'S',
        "RS512"@[2] == '5',
        "RS512"@[3] == '1',
        "RS512"@[4] == '2',
        "PS256"@.len() == 5,
        "PS256"@[0] == 'P',
        "PS256"@[1] == 'S',
        "PS256"@[2] == '2',
        "PS256"@[3] == '5',
        "PS256"@[4] == '6',
        "PS384"@.len() == 5,
        "PS384"@[0] == 'P',
        "PS384"@[1] == 'S',
        "PS384"@[2] == '3',
        "PS384"@[3] == '8',
        "PS384"@[4] == '4',
        "PS512"@.len() == 5,
        "PS512"@[0] == 'P',
        "PS512"@[1] == 'S',
        "PS512"@[2] == '5',
        "PS512"@[3] == '1',
        "PS512"@[4] == '2',
        "EdDSA"@.len() == 5,
        "EdDSA"@[0] == 'E',
        "EdDSA"@[1] == 'd',
        "EdDSA"@[2] == 'D',
        "EdDSA"@[3] == 'S',
        "EdDSA"@[4] == 'A',
        "Ed25519"@.len() == 7,
        "Ed25519"@[0] == 'E',
        "Ed25519"@[1] == 'd',
        "Ed25519"@[2] == '2',
        "Ed25519"@[3] == '5',
        "Ed25519"@[4] == '5',
        "SHA-256"@[4] == '2',
        "SHA-384"@[4] == '3',
        "P-256"@[2] == '2',
        "P-384"@[2] == '3',
{
    reveal_strlit("ES256");
    reveal_strlit("ES384");
    reveal_strlit("RS256");
    reveal_strlit("RS384");
    reveal_strlit("RS512");
    reveal_strlit("PS256");
    reveal_strlit("PS384");
    reveal_strlit("PS512");
    reveal_strlit("EdDSA");
    reveal_strlit("Ed25519");
    reveal_strlit("SHA-256");
    reveal_strlit("SHA-384");
    reveal_strlit("P-256");
    reveal_strlit("P-384");
}

/// Whether an `importKey` dictionary and a `generateKey` dictionary name the
/// same `WebCrypto` algorithm with the same hash or curve.
pub open spec fn same_key_algorithm(imported: ImportParamsView, generated: KeyGenParamsView) -> bool {
    match (imported, generated) {
        (
            ImportParamsView::RsaHashed { name, hash },
            KeyGenParamsView::RsaHashed { name: generated_name, hash: generated_hash, .. },
        ) => name == generated_name && hash == generated_hash,
        (
            ImportParamsView::Ec { name, named_curve },
            KeyGenParamsView::Ec { name: generated_name, named_curve: generated_curve },
        ) => name == generated_name && named_curve == generated_curve,
        (ImportParamsView::Ed25519, KeyGenParamsView::Ed25519) => true,
        (ImportParamsView::X25519, KeyGenParamsView::X25519) => true,
        _ => false,
    }
}

/// The curve that ECDSA pairs with a hash in the JWS algorithms.
pub open spec fn curve_for_hash(hash: Seq<char>) -> Seq<char> {
    if hash == "SHA-256"@ {
        "P-256"@
    } else {
        "P-384"@
    }
}

/// Every verifying key that accepts the name of `algorithm` checks a
/// signature made with a key generated for `algorithm` with the very
/// dictionary the signer used, and with a key imported for the same
/// `WebCrypto` algorithm, hash and curve as the signer's key was generated
/// for.
pub proof fn law_verifier_agrees_with_signer(algorithm: AsymmetricAlgorithm, kind: KeyKind)
    requires
        kind.accepts(algorithm.spec_name()),
    ensures
        kind.spec_sign_algorithm(algorithm.spec_name()) == algorithm.spec_sign_algorithm(),
        0 <= kind.slot(algorithm.spec_name()) < kind.spec_import_params().len(),
        same_key_algorithm(
            kind.spec_import_params()[kind.slot(algorithm.spec_name())],
            algorithm.spec_key_gen_params(),
        ),
{
    lemma_alg_name_chars();
}

/// A key is generated for the same `WebCrypto` algorithm it signs with; an
/// RSA-PSS salt is as long as the digest of the key's hash, and ECDSA signs
/// with the hash that belongs to the key's curve.
pub proof fn law_generation_matches_signing(algorithm: AsymmetricAlgorithm)
    ensures
        algorithm.spec_key_gen_params().algorithm_name() == algorithm.spec_sign_algorithm().algorithm_name(),
        algorithm.spec_sign_algorithm() matches SignAlgorithmView::RsaPss { salt_length, .. } ==> {
            &&& algorithm.spec_key_gen_params() matches KeyGenParamsView::RsaHashed { hash, .. }
            &&& hash == sha_name(8 * salt_length)
        },
        algorithm.spec_sign_algorithm() matches SignAlgorithmView::EcDsa { hash, .. } ==> {
            &&& algorithm.spec_key_gen_params() matches KeyGenParamsView::Ec { named_curve, .. }
            &&& named_curve == curve_for_hash(hash)
        },
{
    lemma_alg_name_chars();
}

/// The key a verifying key uses for an algorithm it accepts was imported for
/// the `WebCrypto` algorithm of the verification dictionary; an RSA-PSS salt
/// is as long as the digest of the key's hash, and ECDSA verifies with the
/// hash that belongs to the key's curve.
pub proof fn law_import_matches_verification(kind: KeyKind, alg: Seq<char>)
    requires
        kind.accepts(alg),
    ensures
        0 <= kind.slot(alg) < kind.spec_import_params().len(),
        kind.spec_import_params()[kind.slot(alg)].algorithm_name() == kind.spec_sign_algorithm(alg).algorithm_name(),
        kind.spec_sign_algorithm(alg) matches SignAlgorithmView::RsaPss { salt_length, .. } ==> {
            &&& kind.spec_import_params()[kind.slot(alg)] matches ImportParamsView::RsaHashed { hash, .. }
            &&& hash == sha_name(8 * salt_length)
        },
        kind.spec_sign_algorithm(alg) matches SignAlgorithmView::EcDsa { hash, .. } ==> {
            &&& kind.spec_import_params()[kind.slot(alg)] matches ImportParamsView::Ec { named_curve, .. }
            &&& named_curve == curve_for_hash(hash)
        },
{
    lemma_alg_name_chars();
}

/// A verifying key that answers a key-match request verifies signatures of
/// the requested algorithm.
pub proof fn law_matched_key_verifies(
    kind: KeyKind,
    kid: Option<Seq<char>>,
    alg: Seq<char>,
    requested: Option<Seq<char>>,
)
    requires
        spec_key_match(kind, kid, alg, requested) is Some,
    ensures
        kind.accepts(alg),
{
    let names = kind.spec_supported_algorithms();
    let i = choose|i: int| 0 <= i < names.len() && names[i] == alg;
}

/// The algorithm names a verifying key lists as supported, and answers to in
/// key matching, are exactly those it verifies; an `Ed25519` key answers to
/// its polymorphic name `EdDSA` as well.
pub proof fn law_supported_is_accepted(kind: KeyKind, alg: Seq<char>)
    ensures
        kind.spec_supported_algorithms().contains(alg) <==> kind.accepts(alg),
        kind == KeyKind::Ed25519 ==> kind.spec_supported_algorithms().contains("EdDSA"@),
{
    let names = kind.spec_supported_algorithms();
    if kind.accepts(alg) {
        if kind == KeyKind::Rsa {
            if alg == "RS256"@ {
                assert(names[0] == alg);
            } else if alg == "RS384"@ {
                assert(names[1] == alg);
            } else if alg == "RS512"@ {
                assert(names[2] == alg);
            } else if alg == "PS256"@ {
                assert(names[3] == alg);
            } else if alg == "PS384"@ {
                assert(names[4] == alg);
            } else {
                assert(names[5] == alg);
            }
        } else if kind == KeyKind::Ed25519 && alg == "Ed25519"@ {
            assert(names[1] == alg);
        } else {
            assert(names[0] == alg);
        }
    }
    if kind == KeyKind::Ed25519 {
        assert(names[0] == "EdDSA"@);
    }
}

/// A verifying key imported from a JWK that declares an algorithm verifies
/// signatures of that algorithm.
pub proof fn law_declared_algorithm_is_verified(alg: Seq<char>, key: PublicKey, kind: KeyKind)
    requires
        spec_kind_for_jwk(Some(alg), key) == Some(kind),
    ensures
        kind.accepts(alg),
{
}

/// Whether `key` is key material of the type and curve that `algorithm`
/// signs with: an EC key on the algorithm's curve, an RSA key, or an octet
/// key pair.
pub open spec fn key_fits_algorithm(algorithm: AsymmetricAlgorithm, key: PublicKey) -> bool {
    match algorithm {
        AsymmetricAlgorithm::Es256 => key matches PublicKey::Ec(ec) && ec.crv@ == "P-256"@,
        AsymmetricAlgorithm::Es384 => key matches PublicKey::Ec(ec) && ec.crv@ == "P-384"@,
        AsymmetricAlgorithm::EdDSA | AsymmetricAlgorithm::Ed25519 => key is Okp,
        _ => key is Rsa,
    }
}

/// Every algorithm a signing key can be generated for is verifiable: a JWK
/// whose key material fits the algorithm, with no `alg` or with the
/// algorithm's name as `alg`, becomes a verifying key that accepts the
/// algorithm's name and verifies it with the dictionary the signer uses.
pub proof fn law_every_algorithm_is_verifiable(algorithm: AsymmetricAlgorithm, key: PublicKey, declared: bool)
    requires
        key_fits_algorithm(algorithm, key),
    ensures
        ({
            let alg = if declared { Some(algorithm.spec_name()) } else { None };
            &&& spec_kind_for_jwk(alg, key) matches Some(kind)
            &&& kind.accepts(algorithm.spec_name())
            &&& kind.spec_sign_algorithm(algorithm.spec_name()) == algorithm.spec_sign_algorithm()
        }),
{
    lemma_alg_name_chars();
    let alg = if declared { Some(algorithm.spec_name()) } else { None };
    let kind = spec_kind_for_jwk(alg, key).unwrap();
    law_verifier_agrees_with_signer(algorithm, kind);
}

/// An RSA key pair is generated with exactly the modulus length the
/// algorithm was given and the public exponent 65537; the other algorithms
/// generate no RSA key.
pub proof fn law_rsa_key_has_requested_modulus(algorithm: AsymmetricAlgorithm)
    ensures
        algorithm.requested_modulus_length() matches Some(bits) ==> {
            &&& algorithm.spec_key_gen_params() matches KeyGenParamsView::RsaHashed {
                modulus_length,
                public_exponent,
                ..
            }
            &&& modulus_length == bits
            &&& public_exponent == seq![0x01u8, 0x00u8, 0x01u8]
        },
        algorithm.requested_modulus_length() is None ==> !(algorithm.spec_key_gen_params() is RsaHashed),
{
}

/// Key identifiers decide a match only as whole strings: when the request
/// and the key both carry one, different identifiers never match and equal
/// ones match by key identifier whenever the algorithm is accepted; a match
/// by key identifier needs both identifiers, and they are equal. Without a
/// requested identifier, a key matches exactly the algorithms it verifies,
/// and asking with the key's own identifier upgrades that match to one by
/// key identifier.
pub proof fn law_key_match_compares_whole_identifiers(
    kind: KeyKind,
    kid: Option<Seq<char>>,
    alg: Seq<char>,
    requested: Option<Seq<char>>,
)
    ensures
        (kid matches Some(k) && requested matches Some(r) && k != r) ==> spec_key_match(kind, kid, alg, requested) is None,
        spec_key_match(kind, kid, alg, requested) == Some(KeyMatchStrength::ByKeyId) ==> {
            &&& requested is Some
            &&& kid == requested
        },
        (kid is Some && kid == requested && kind.accepts(alg)) ==> spec_key_match(kind, kid, alg, requested)
            == Some(KeyMatchStrength::ByKeyId),
        spec_key_match(kind, kid, alg, None) is Some <==> kind.accepts(alg),
        (kid is Some && spec_key_match(kind, kid, alg, None) is Some) ==> spec_key_match(kind, kid, alg, kid)
            == Some(KeyMatchStrength::ByKeyId),
{
    law_supported_is_accepted(kind, alg);
}

/// A JWK whose `use` is absent or `sig` may verify exactly when it has no
/// `key_ops` or its `key_ops` list `verify` somewhere; a `use` of `enc`
/// forbids it. Only such JWKs are planned for import.
pub proof fn law_key_operations_gate_verification(jwk: PublicJwk)
    ensures
        (jwk.key_use is None || jwk.key_use == Some(KeyUse::Sign)) ==> match jwk.key_operations {
            None => jwk.spec_permits_verification(),
            Some(ops) => jwk.spec_permits_verification() == (exists|i: int|
                0 <= i < ops@.len() && ops@[i] == KeyOperation::Verify),
        },
        jwk.key_use == Some(KeyUse::Encrypt) ==> !jwk.spec_permits_verification(),
{
    if let Some(ops) = jwk.key_operations {
        if ops@.contains(KeyOperation::Verify) {
            let i = choose|i: int| 0 <= i < ops@.len() && ops@[i] == KeyOperation::Verify;
        }
    }
}

/// The kind of key chosen for a JWK fits its key material: ES256 and ES384
/// keys come from EC keys on P-256 and P-384, the RSA kinds from RSA keys,
/// and `Ed25519` keys from octet key pairs; an RSA key without `alg` serves
/// all six RSA algorithms.
pub proof fn law_selected_kind_fits_key(alg: Option<Seq<char>>, key: PublicKey)
    ensures
        spec_kind_for_jwk(alg, key) == Some(KeyKind::Es256) ==> (key matches PublicKey::Ec(ec) && ec.crv@ == "P-256"@),
        spec_kind_for_jwk(alg, key) == Some(KeyKind::Es384) ==> (key matches PublicKey::Ec(ec) && ec.crv@ == "P-384"@),
        spec_kind_for_jwk(alg, key) == Some(KeyKind::Ed25519) ==> key is Okp,
        (spec_kind_for_jwk(alg, key) matches Some(kind) && kind != KeyKind::Es256 && kind != KeyKind::Es384
            && kind != KeyKind::Ed25519) ==> key is Rsa,
        (key is Rsa && alg is None) ==> spec_kind_for_jwk(alg, key) == Some(KeyKind::Rsa),
        key is UnknownOrPrivate ==> spec_kind_for_jwk(alg, key) is None,
{
}

/// The JWS names tell the algorithms apart: two algorithms with the same
/// name are the same algorithm (up to an RSA modulus length).
pub proof fn law_names_identify_algorithms(a: AsymmetricAlgorithm, b: AsymmetricAlgorithm)
    requires
        a.spec_name() == b.spec_name(),
    ensures
        (a matches AsymmetricAlgorithm::Es256) <==> (b matches AsymmetricAlgorithm::Es256),
        (a matches AsymmetricAlgorithm::Es384) <==> (b matches AsymmetricAlgorithm::Es384),
        (a matches AsymmetricAlgorithm::Rs256 { .. }) <==> (b matches AsymmetricAlgorithm::Rs256 { .. }),
        (a matches AsymmetricAlgorithm::Rs384 { .. }) <==> (b matches AsymmetricAlgorithm::Rs384 { .. }),
        (a matches AsymmetricAlgorithm::Rs512 { .. }) <==> (b matches AsymmetricAlgorithm::Rs512 { .. }),
        (a matches AsymmetricAlgorithm::Ps256 { .. }) <==> (b matches AsymmetricAlgorithm::Ps256 { .. }),
        (a matches AsymmetricAlgorithm::Ps384 { .. }) <==> (b matches AsymmetricAlgorithm::Ps384 { .. }),
        (a matches AsymmetricAlgorithm::Ps512 { .. }) <==> (b matches AsymmetricAlgorithm::Ps512 { .. }),
        (a matches AsymmetricAlgorithm::EdDSA) <==> (b matches AsymmetricAlgorithm::EdDSA),
        (a matches AsymmetricAlgorithm::Ed25519) <==> (b matches AsymmetricAlgorithm::Ed25519),
{
    lemma_alg_name_chars();
}

/// The characters of the `WebCrypto` key usage names, which tell them apart.
proof fn lemma_usage_name_chars()
    ensures
        "encrypt"@.len() == 7,
        "encrypt"@[0] == 'e',
        "encrypt"@[1] == 'n',
        "encrypt"@[2] == 'c',
        "encrypt"@[3] == 'r',
        "encrypt"@[4] == 'y',
        "encrypt"@[5] == 'p',
        "encrypt"@[6] == 't',
        "decrypt"@.len() == 7,
        "decrypt"@[0] == 'd',
        "decrypt"@[1] == 'e',
        "decrypt"@[2] == 'c',
        "decrypt"@[3] == 'r',
        "decrypt"@[4] == 'y',
        "decrypt"@[5] == 'p',
        "decrypt"@[6] == 't',
        "sign"@.len() == 4,
        "sign"@[0] == 's',
        "sign"@[1] == 'i',
        "sign"@[2] == 'g',
        "sign"@[3] == 'n',
        "verify"@.len() == 6,
        "verify"@[0] == 'v',
        "verify"@[1] == 'e',
        "verify"@[2] == 'r',
        "verify"@[3] == 'i',
        "verify"@[4] == 'f',
        "verify"@[5] == 'y',
        "deriveKey"@.len() == 9,
        "deriveKey"@[0] == 'd',
        "deriveKey"@[1] == 'e',
        "deriveKey"@[2] == 'r',
        "deriveKey"@[3] == 'i',
        "deriveKey"@[4] == 'v',
        "deriveKey"@[5] == 'e',
        "deriveKey"@[6] == 'K',
        "deriveBits"@.len() == 10,
        "deriveBits"@[0] == 'd',
        "deriveBits"@[1] == 'e',
        "deriveBits"@[2] == 'r',
        "deriveBits"@[3] == 'i',
        "deriveBits"@[4] == 'v',
        "deriveBits"@[5] == 'e',
        "deriveBits"@[6] == 'B',
        "wrapKey"@.len() == 7,
        "wrapKey"@[0] == 'w',
        "wrapKey"@[1] == 'r',
        "wrapKey"@[2] == 'a',
        "wrapKey"@[3] == 'p',
        "wrapKey"@[4] == 'K',
        "wrapKey"@[5] == 'e',
        "wrapKey"@[6] == 'y',
        "unwrapKey"@.len() == 9,
        "unwrapKey"@[0] == 'u',
        "unwrapKey"@[1] == 'n',
        "unwrapKey"@[2] == 'w',
        "unwrapKey"@[3] == 'r',
        "unwrapKey"@[4] == 'a',
        "unwrapKey"@[5] == 'p',
        "unwrapKey"@[6] == 'K',
{
    reveal_strlit("encrypt");
    reveal_strlit("decrypt");
    reveal_strlit("sign");
    reveal_strlit("verify");
    reveal_strlit("deriveKey");
    reveal_strlit("deriveBits");
    reveal_strlit("wrapKey");
    reveal_strlit("unwrapKey");
}

/// Distinct key usages have distinct `WebCrypto` names.
pub proof fn law_usage_names_are_distinct(a: KeyUsage, b: KeyUsage)
    requires
        a.spec_webcrypto_name() == b.spec_webcrypto_name(),
    ensures
        a == b,
{
    lemma_usage_name_chars();
}

} // verus!
