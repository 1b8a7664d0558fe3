use webcrypto_jws::asymmetric::verification::{
    require_alg, verification_result, AsymmetricPublicKey, ImportStep, Key, KeyImport, KeyKind,
    KeyMatch, KeyMatchStrength, VerifyError,
};
use webcrypto_jws::factory::{CreateVerifierError, WebCryptoVerifierPlatform};
use webcrypto_jws::helpers::import_key::ImportParams;
use webcrypto_jws::helpers::SignAlgorithm;
use webcrypto_jws::jwk::{
    contains_operation, EcPublicKey, KeyOperation, KeyUse, OkpPublicKey, PublicJwk, PublicKey,
    RsaPublicKey,
};
use webcrypto_jws::text::str_equal;
use webcrypto_jws::KeyUsage;

use wasm_bindgen::{JsCast, JsValue};
use web_sys::CryptoKey;

fn handle() -> CryptoKey {
    JsValue::NULL.unchecked_into::<CryptoKey>()
}

fn handles(n: usize) -> Vec<CryptoKey> {
    (0..n).map(|_| handle()).collect()
}

fn jwk(algorithm: Option<&str>, key: PublicKey) -> PublicJwk {
    PublicJwk {
        kid: None,
        key_use: None,
        key_operations: None,
        algorithm: algorithm.map(|a| a.to_string()),
        key,
    }
}

fn ec(crv: &str) -> PublicKey {
    PublicKey::Ec(EcPublicKey { crv: crv.to_string(), x: "x".to_string(), y: "y".to_string() })
}

fn rsa() -> PublicKey {
    PublicKey::Rsa(RsaPublicKey { n: "n".to_string(), e: "AQAB".to_string() })
}

fn okp(crv: &str) -> PublicKey {
    PublicKey::Okp(OkpPublicKey { crv: crv.to_string(), x: "x".to_string() })
}

fn public_key(kind: KeyKind, kid: Option<&str>) -> AsymmetricPublicKey {
    let mut source = jwk(None, rsa());
    source.kid = kid.map(|k| k.to_string());
    AsymmetricPublicKey::from_imported(&source, kind, handles(kind.import_params().len()))
}

#[test]
fn strings_compare_by_characters() {
    assert!(str_equal("ES256", "ES256"));
    assert!(!str_equal("ES256", "ES384"));
    assert!(!str_equal("ES256", "ES2560"));
    assert!(str_equal("", ""));
    assert!(str_equal("päivä", "päivä"));
}

#[test]
fn required_algorithm_is_looked_up() {
    assert!(require_alg("RS384", &["RS256", "RS384"]));
    assert!(!require_alg("RS512", &["RS256", "RS384"]));
    assert!(!require_alg("RS256", &[]));
}

#[test]
fn jwk_use_and_operations_gate_verification() {
    let mut key = jwk(None, rsa());
    assert!(key.permits_verification());
    key.key_use = Some(KeyUse::Sign);
    assert!(key.permits_verification());
    key.key_use = Some(KeyUse::Encrypt);
    assert!(!key.permits_verification());
    key.key_use = None;
    key.key_operations = Some(vec![KeyOperation::Sign]);
    assert!(!key.permits_verification());
    key.key_operations = Some(vec![KeyOperation::Sign, KeyOperation::Verify]);
    assert!(key.permits_verification());
    key.key_operations = Some(vec![]);
    assert!(!key.permits_verification());
    assert!(contains_operation(&vec![KeyOperation::Encrypt, KeyOperation::Verify], KeyOperation::Verify));
    assert!(!contains_operation(&vec![KeyOperation::Encrypt], KeyOperation::Verify));
}

#[test]
fn ec_jwks_select_curve_and_algorithm() {
    assert_eq!(KeyKind::from_jwk(&jwk(None, ec("P-256"))), Some(KeyKind::Es256));
    assert_eq!(KeyKind::from_jwk(&jwk(Some("ES256"), ec("P-256"))), Some(KeyKind::Es256));
    assert_eq!(KeyKind::from_jwk(&jwk(None, ec("P-384"))), Some(KeyKind::Es384));
    assert_eq!(KeyKind::from_jwk(&jwk(Some("ES384"), ec("P-384"))), Some(KeyKind::Es384));
    assert_eq!(KeyKind::from_jwk(&jwk(Some("ES384"), ec("P-256"))), None);
    assert_eq!(KeyKind::from_jwk(&jwk(Some("ES256"), ec("P-384"))), None);
    assert_eq!(KeyKind::from_jwk(&jwk(None, ec("P-521"))), None);
}

#[test]
fn rsa_jwks_select_declared_algorithm() {
    assert_eq!(KeyKind::from_jwk(&jwk(None, rsa())), Some(KeyKind::Rsa));
    assert_eq!(KeyKind::from_jwk(&jwk(Some("RS256"), rsa())), Some(KeyKind::Rs256));
    assert_eq!(KeyKind::from_jwk(&jwk(Some("RS384"), rsa())), Some(KeyKind::Rs384));
    assert_eq!(KeyKind::from_jwk(&jwk(Some("RS512"), rsa())), Some(KeyKind::Rs512));
    assert_eq!(KeyKind::from_jwk(&jwk(Some("PS256"), rsa())), Some(KeyKind::Ps256));
    assert_eq!(KeyKind::from_jwk(&jwk(Some("PS384"), rsa())), Some(KeyKind::Ps384));
    assert_eq!(KeyKind::from_jwk(&jwk(Some("PS512"), rsa())), Some(KeyKind::Ps512));
    assert_eq!(KeyKind::from_jwk(&jwk(Some("HS256"), rsa())), None);
    assert_eq!(KeyKind::from_jwk(&jwk(Some("ES256"), rsa())), None);
}

#[test]
fn okp_and_other_jwks() {
    assert_eq!(KeyKind::from_jwk(&jwk(None, okp("Ed25519"))), Some(KeyKind::Ed25519));
    assert_eq!(KeyKind::from_jwk(&jwk(Some("EdDSA"), okp("Ed25519"))), Some(KeyKind::Ed25519));
    assert_eq!(KeyKind::from_jwk(&jwk(Some("Ed25519"), okp("Ed25519"))), Some(KeyKind::Ed25519));
    assert_eq!(KeyKind::from_jwk(&jwk(Some("ES256"), okp("Ed25519"))), None);
    assert_eq!(KeyKind::from_jwk(&jwk(None, PublicKey::UnknownOrPrivate)), None);
}

#[test]
fn import_plan_checks_use_first() {
    let mut key = jwk(None, ec("P-256"));
    assert_eq!(AsymmetricPublicKey::import_plan(&key), Some(KeyKind::Es256));
    key.key_use = Some(KeyUse::Encrypt);
    assert_eq!(AsymmetricPublicKey::import_plan(&key), None);
    key.key_use = None;
    key.key_operations = Some(vec![KeyOperation::Encrypt]);
    assert_eq!(AsymmetricPublicKey::import_plan(&key), None);
}

#[test]
fn rsa_key_without_algorithm_is_imported_six_times() {
    let params = KeyKind::Rsa.import_params();
    let expected = [
        ("RSASSA-PKCS1-v1_5", "SHA-256"),
        ("RSASSA-PKCS1-v1_5", "SHA-384"),
        ("RSASSA-PKCS1-v1_5", "SHA-512"),
        ("RSA-PSS", "SHA-256"),
        ("RSA-PSS", "SHA-384"),
        ("RSA-PSS", "SHA-512"),
    ];
    assert_eq!(params.len(), expected.len());
    for (p, (n, h)) in params.iter().zip(expected) {
        match p {
            ImportParams::RsaHashed { name, hash } => {
                assert_eq!(*name, n);
                assert_eq!(*hash, h);
            }
            _ => panic!("RSA keys are imported as hashed RSA keys"),
        }
    }
}

#[test]
fn single_imports() {
    match KeyKind::Es384.import_params().as_slice() {
        [ImportParams::Ec { name, named_curve }] => {
            assert_eq!(*name, "ECDSA");
            assert_eq!(*named_curve, "P-384");
        }
        _ => panic!("ES384 imports one EC key"),
    }
    match KeyKind::Ps384.import_params().as_slice() {
        [ImportParams::RsaHashed { name, hash }] => {
            assert_eq!(*name, "RSA-PSS");
            assert_eq!(*hash, "SHA-384");
        }
        _ => panic!("PS384 imports one RSA key"),
    }
    assert!(matches!(KeyKind::Ed25519.import_params().as_slice(), [ImportParams::Ed25519]));
}

#[test]
fn supported_algorithms_by_kind() {
    let key = Key::from_imported(KeyKind::Rsa, handles(6));
    assert_eq!(key.supported_algorithms(), &["RS256", "RS384", "RS512", "PS256", "PS384", "PS512"]);
    let key = Key::from_imported(KeyKind::Ed25519, handles(1));
    assert_eq!(key.supported_algorithms(), &["EdDSA", "Ed25519"]);
    let key = Key::from_imported(KeyKind::Es256, handles(1));
    assert_eq!(key.supported_algorithms(), &["ES256"]);
}

#[test]
fn rsa_key_matches_each_rsa_algorithm() {
    let key = Key::from_imported(KeyKind::Rsa, handles(6));
    for alg in ["RS256", "RS384", "RS512"] {
        assert!(matches!(key.matching_key_and_alg(alg), Some((SignAlgorithm::RsaPkcs1, _))));
    }
    for (alg, salt) in [("PS256", 32), ("PS384", 48), ("PS512", 64)] {
        match key.matching_key_and_alg(alg) {
            Some((SignAlgorithm::RsaPss { name, salt_length }, _)) => {
                assert_eq!(name, "RSA-PSS");
                assert_eq!(salt_length, salt);
            }
            _ => panic!("PS algorithms verify with RSA-PSS"),
        }
    }
    assert!(key.matching_key_and_alg("ES256").is_none());
    assert!(key.matching_key_and_alg("rs256").is_none());
}

#[test]
fn single_algorithm_keys_match_only_their_algorithm() {
    let key = Key::from_imported(KeyKind::Rs384, handles(1));
    assert!(matches!(key.matching_key_and_alg("RS384"), Some((SignAlgorithm::RsaPkcs1, _))));
    assert!(key.matching_key_and_alg("RS256").is_none());
    let key = Key::from_imported(KeyKind::Es256, handles(1));
    match key.matching_key_and_alg("ES256") {
        Some((SignAlgorithm::EcDsa { name, hash }, _)) => {
            assert_eq!(name, "ECDSA");
            assert_eq!(hash, "SHA-256");
        }
        _ => panic!("ES256 verifies with ECDSA"),
    }
    assert!(key.matching_key_and_alg("ES384").is_none());
}

#[test]
fn ed25519_key_matches_both_names() {
    let key = Key::from_imported(KeyKind::Ed25519, handles(1));
    assert!(matches!(key.matching_key_and_alg("EdDSA"), Some((SignAlgorithm::Ed25519, _))));
    assert!(matches!(key.matching_key_and_alg("Ed25519"), Some((SignAlgorithm::Ed25519, _))));
    assert!(key.matching_key_and_alg("ES256").is_none());
}

#[test]
fn key_match_by_algorithm_and_key_id() {
    let key = public_key(KeyKind::Es256, Some("a"));
    assert_eq!(key.key_match(&KeyMatch { alg: "ES256", kid: None }), Some(KeyMatchStrength::ByAlgorithm));
    assert_eq!(key.key_match(&KeyMatch { alg: "ES256", kid: Some("a") }), Some(KeyMatchStrength::ByKeyId));
    assert_eq!(key.key_match(&KeyMatch { alg: "ES256", kid: Some("b") }), None);
    assert_eq!(key.key_match(&KeyMatch { alg: "ES384", kid: Some("a") }), None);

    let key = public_key(KeyKind::Rsa, None);
    assert_eq!(key.key_match(&KeyMatch { alg: "PS512", kid: Some("a") }), Some(KeyMatchStrength::ByAlgorithm));
    assert_eq!(key.key_match(&KeyMatch { alg: "HS256", kid: None }), None);
}

#[test]
fn ed25519_key_matches_both_names_in_key_match() {
    let key = public_key(KeyKind::Ed25519, None);
    assert_eq!(key.key_match(&KeyMatch { alg: "Ed25519", kid: None }), Some(KeyMatchStrength::ByAlgorithm));
    assert_eq!(key.key_match(&KeyMatch { alg: "EdDSA", kid: None }), Some(KeyMatchStrength::ByAlgorithm));
    let key = public_key(KeyKind::Ed25519, Some("ed"));
    assert_eq!(key.key_match(&KeyMatch { alg: "EdDSA", kid: Some("ed") }), Some(KeyMatchStrength::ByKeyId));
    assert_eq!(key.key_match(&KeyMatch { alg: "ES256", kid: None }), None);
}

#[test]
fn key_import_requests_each_key_and_gives_up_on_failure() {
    let mut source = jwk(None, rsa());
    source.kid = Some("rsa-1".to_string());
    let mut step = KeyImport::start(&source);
    let expected = [
        ("RSASSA-PKCS1-v1_5", "SHA-256"),
        ("RSASSA-PKCS1-v1_5", "SHA-384"),
        ("RSASSA-PKCS1-v1_5", "SHA-512"),
        ("RSA-PSS", "SHA-256"),
        ("RSA-PSS", "SHA-384"),
        ("RSA-PSS", "SHA-512"),
    ];
    for (n, h) in expected {
        match step {
            ImportStep::Import { state, request } => {
                match request.params {
                    ImportParams::RsaHashed { name, hash } => {
                        assert_eq!(name, n);
                        assert_eq!(hash, h);
                    }
                    _ => panic!("RSA keys are imported as hashed RSA keys"),
                }
                assert!(request.extractable);
                assert!(matches!(request.usages, [KeyUsage::Verify]));
                step = state.imported(Some(handle()));
            }
            _ => panic!("six imports are requested"),
        }
    }
    match step {
        ImportStep::Imported(key) => {
            assert_eq!(key.key_match(&KeyMatch { alg: "PS384", kid: Some("rsa-1") }), Some(KeyMatchStrength::ByKeyId));
        }
        _ => panic!("the key is ready after six imports"),
    }

    let step = KeyImport::start(&source);
    match step {
        ImportStep::Import { state, .. } => {
            assert!(matches!(state.imported(None), ImportStep::Refused));
        }
        _ => panic!("an RSA key is imported"),
    }
}

#[test]
fn key_import_is_refused_for_unusable_jwks() {
    let mut source = jwk(None, ec("P-256"));
    source.key_use = Some(KeyUse::Encrypt);
    assert!(matches!(KeyImport::start(&source), ImportStep::Refused));
    assert!(matches!(KeyImport::start(&jwk(None, ec("P-521"))), ImportStep::Refused));
    match KeyImport::start(&jwk(Some("EdDSA"), okp("Ed25519"))) {
        ImportStep::Import { state, request } => {
            assert!(matches!(request.params, ImportParams::Ed25519));
            match state.imported(Some(handle())) {
                ImportStep::Imported(key) => {
                    assert!(key.verification_key::<()>("EdDSA").is_ok());
                }
                _ => panic!("an Ed25519 key needs one import"),
            }
        }
        _ => panic!("an Ed25519 key is imported"),
    }
}

#[test]
fn cloned_public_key_matches_alike() {
    let key = public_key(KeyKind::Es384, Some("k"));
    let copy = key.clone();
    let request = KeyMatch { alg: "ES384", kid: Some("k") };
    assert_eq!(copy.key_match(&request), key.key_match(&request));
}

#[test]
fn verification_key_reports_no_matching_key() {
    let key = public_key(KeyKind::Ps256, None);
    assert!(matches!(
        key.verification_key::<()>("PS256"),
        Ok((SignAlgorithm::RsaPss { salt_length: 32, .. }, _))
    ));
    assert!(matches!(key.verification_key::<()>("RS256"), Err(VerifyError::NoMatchingKey)));
}

#[test]
fn verification_results() {
    assert!(matches!(verification_result::<&str>(Ok(true)), Ok(())));
    assert!(matches!(verification_result::<&str>(Ok(false)), Err(VerifyError::SignatureMismatch)));
    assert!(matches!(
        verification_result::<&str>(Err("no webcrypto")),
        Err(VerifyError::Other { source: "no webcrypto" })
    ));
}

#[test]
fn platform_reports_unsupported_keys() {
    let platform = WebCryptoVerifierPlatform;
    assert!(matches!(platform.verifier_from_key(None), Err(CreateVerifierError::UnsupportedKey)));
    assert!(platform.verifier_from_key(Some(public_key(KeyKind::Es384, None))).is_ok());
}
