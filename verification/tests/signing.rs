use webcrypto_jws::asymmetric::signer::{AsymmetricAlgorithm, PrivateKey};
use webcrypto_jws::helpers::generate_key::AsymmetricKeyGenParams;
use webcrypto_jws::helpers::import_key::ImportParams;
use webcrypto_jws::helpers::SignAlgorithm;
use webcrypto_jws::jwk::{OkpPublicKey, PublicJwk, PublicKey};
use webcrypto_jws::KeyUsage;

use wasm_bindgen::{JsCast, JsValue};
use web_sys::CryptoKey;

fn handle() -> CryptoKey {
    JsValue::NULL.unchecked_into::<CryptoKey>()
}

#[test]
fn key_usage_names_are_camel_case() {
    assert_eq!(KeyUsage::Encrypt.as_str(), "encrypt");
    assert_eq!(KeyUsage::Decrypt.as_str(), "decrypt");
    assert_eq!(KeyUsage::Sign.as_str(), "sign");
    assert_eq!(KeyUsage::Verify.as_str(), "verify");
    assert_eq!(KeyUsage::DeriveKey.as_str(), "deriveKey");
    assert_eq!(KeyUsage::DeriveBits.as_str(), "deriveBits");
    assert_eq!(KeyUsage::WrapKey.as_str(), "wrapKey");
    assert_eq!(KeyUsage::UnwrapKey.as_str(), "unwrapKey");
}

#[test]
fn algorithm_names() {
    assert_eq!(AsymmetricAlgorithm::Es256.name(), "ES256");
    assert_eq!(AsymmetricAlgorithm::Es384.name(), "ES384");
    assert_eq!(AsymmetricAlgorithm::Rs256 { modulus_length: 2048 }.name(), "RS256");
    assert_eq!(AsymmetricAlgorithm::Rs384 { modulus_length: 2048 }.name(), "RS384");
    assert_eq!(AsymmetricAlgorithm::Rs512 { modulus_length: 2048 }.name(), "RS512");
    assert_eq!(AsymmetricAlgorithm::Ps256 { modulus_length: 3072 }.name(), "PS256");
    assert_eq!(AsymmetricAlgorithm::Ps384 { modulus_length: 3072 }.name(), "PS384");
    assert_eq!(AsymmetricAlgorithm::Ps512 { modulus_length: 4096 }.name(), "PS512");
    assert_eq!(AsymmetricAlgorithm::EdDSA.name(), "EdDSA");
    assert_eq!(AsymmetricAlgorithm::Ed25519.name(), "Ed25519");
}

#[test]
fn rsa_key_generation_parameters() {
    let algorithm = AsymmetricAlgorithm::Rs384 { modulus_length: 3072 };
    match algorithm.key_gen_params() {
        AsymmetricKeyGenParams::RsaHashed { name, modulus_length, public_exponent, hash } => {
            assert_eq!(name, "RSASSA-PKCS1-v1_5");
            assert_eq!(modulus_length, 3072);
            assert_eq!(public_exponent, &[0x01, 0x00, 0x01]);
            assert_eq!(hash, "SHA-384");
        }
        _ => panic!("RS384 generates an RSA key"),
    }
    let algorithm = AsymmetricAlgorithm::Ps512 { modulus_length: 4096 };
    match algorithm.key_gen_params() {
        AsymmetricKeyGenParams::RsaHashed { name, modulus_length, hash, .. } => {
            assert_eq!(name, "RSA-PSS");
            assert_eq!(modulus_length, 4096);
            assert_eq!(hash, "SHA-512");
        }
        _ => panic!("PS512 generates an RSA key"),
    }
}

#[test]
fn ec_and_edwards_key_generation_parameters() {
    match AsymmetricAlgorithm::Es256.key_gen_params() {
        AsymmetricKeyGenParams::Ec { name, named_curve } => {
            assert_eq!(name, "ECDSA");
            assert_eq!(named_curve, "P-256");
        }
        _ => panic!("ES256 generates an EC key"),
    }
    match AsymmetricAlgorithm::Es384.key_gen_params() {
        AsymmetricKeyGenParams::Ec { named_curve, .. } => assert_eq!(named_curve, "P-384"),
        _ => panic!("ES384 generates an EC key"),
    }
    assert!(matches!(AsymmetricAlgorithm::EdDSA.key_gen_params(), AsymmetricKeyGenParams::Ed25519));
    assert!(matches!(AsymmetricAlgorithm::Ed25519.key_gen_params(), AsymmetricKeyGenParams::Ed25519));
}

#[test]
fn signing_parameters() {
    match AsymmetricAlgorithm::Es384.sign_algorithm() {
        SignAlgorithm::EcDsa { name, hash } => {
            assert_eq!(name, "ECDSA");
            assert_eq!(hash, "SHA-384");
        }
        _ => panic!("ES384 signs with ECDSA"),
    }
    assert!(matches!(
        AsymmetricAlgorithm::Rs512 { modulus_length: 2048 }.sign_algorithm(),
        SignAlgorithm::RsaPkcs1
    ));
    for (algorithm, salt) in [
        (AsymmetricAlgorithm::Ps256 { modulus_length: 2048 }, 32),
        (AsymmetricAlgorithm::Ps384 { modulus_length: 2048 }, 48),
        (AsymmetricAlgorithm::Ps512 { modulus_length: 2048 }, 64),
    ] {
        match algorithm.sign_algorithm() {
            SignAlgorithm::RsaPss { name, salt_length } => {
                assert_eq!(name, "RSA-PSS");
                assert_eq!(salt_length, salt);
            }
            _ => panic!("PS algorithms sign with RSA-PSS"),
        }
    }
    assert!(matches!(AsymmetricAlgorithm::EdDSA.sign_algorithm(), SignAlgorithm::Ed25519));
}

#[test]
fn dictionary_names() {
    assert_eq!(SignAlgorithm::RsaPkcs1.algorithm_name(), "RSASSA-PKCS1-v1_5");
    assert_eq!(SignAlgorithm::Hmac.algorithm_name(), "HMAC");
    assert_eq!(SignAlgorithm::Ed25519.algorithm_name(), "Ed25519");
    assert_eq!(SignAlgorithm::RsaPss { name: "RSA-PSS", salt_length: 32 }.algorithm_name(), "RSA-PSS");
    assert_eq!(ImportParams::Ed25519.algorithm_name(), "Ed25519");
    assert_eq!(ImportParams::X25519.algorithm_name(), "X25519");
    assert_eq!(ImportParams::Ec { name: "ECDSA", named_curve: "P-256" }.algorithm_name(), "ECDSA");
    assert_eq!(AsymmetricKeyGenParams::X25519.algorithm_name(), "X25519");
    assert_eq!(AsymmetricKeyGenParams::Ed25519.algorithm_name(), "Ed25519");
}

#[test]
fn generated_key_and_signature_agree_on_the_webcrypto_algorithm() {
    let algorithms = [
        AsymmetricAlgorithm::Es256,
        AsymmetricAlgorithm::Es384,
        AsymmetricAlgorithm::Rs256 { modulus_length: 2048 },
        AsymmetricAlgorithm::Rs384 { modulus_length: 2048 },
        AsymmetricAlgorithm::Rs512 { modulus_length: 2048 },
        AsymmetricAlgorithm::Ps256 { modulus_length: 2048 },
        AsymmetricAlgorithm::Ps384 { modulus_length: 2048 },
        AsymmetricAlgorithm::Ps512 { modulus_length: 2048 },
        AsymmetricAlgorithm::EdDSA,
        AsymmetricAlgorithm::Ed25519,
    ];
    for algorithm in algorithms {
        assert_eq!(
            algorithm.key_gen_params().algorithm_name(),
            algorithm.sign_algorithm().algorithm_name()
        );
    }
}

fn ed25519_jwk(kid: Option<&str>) -> PublicJwk {
    PublicJwk {
        kid: kid.map(|k| k.to_string()),
        key_use: None,
        key_operations: None,
        algorithm: None,
        key: PublicKey::Okp(OkpPublicKey { crv: "Ed25519".to_string(), x: "11qYAYKxCrfVS_7TyWQHOg7hcvPapiMlrwIaaPcHURo".to_string() }),
    }
}

#[test]
fn key_generation_request_is_not_extractable_and_signs() {
    for algorithm in [
        AsymmetricAlgorithm::Es256,
        AsymmetricAlgorithm::Rs256 { modulus_length: 2048 },
        AsymmetricAlgorithm::Ed25519,
    ] {
        let request = algorithm.key_gen_request();
        assert!(!request.extractable);
        assert!(matches!(request.usages, [KeyUsage::Sign]));
        assert_eq!(request.params.algorithm_name(), algorithm.key_gen_params().algorithm_name());
    }
    match (AsymmetricAlgorithm::Ps256 { modulus_length: 3072 }).key_gen_request().params {
        AsymmetricKeyGenParams::RsaHashed { modulus_length, hash, .. } => {
            assert_eq!(modulus_length, 3072);
            assert_eq!(hash, "SHA-256");
        }
        _ => panic!("PS256 generates an RSA key"),
    }
}

#[test]
fn cloned_private_key_keeps_its_metadata() {
    let key = PrivateKey::new(handle(), AsymmetricAlgorithm::Es384, ed25519_jwk(Some("k")));
    let copy = key.clone();
    assert_eq!(copy.key_metadata().jws_algorithm, key.key_metadata().jws_algorithm);
    assert_eq!(copy.key_metadata().key_id, key.key_metadata().key_id);
    assert_eq!(copy.key_metadata().jws_algorithm, "ES384");
    assert_eq!(copy.public_key_jwk().kid, key.public_key_jwk().kid);
}

#[test]
fn private_key_metadata_names_algorithm_and_key() {
    let key = PrivateKey::new(handle(), AsymmetricAlgorithm::Ps256 { modulus_length: 2048 }, ed25519_jwk(Some("key-1")));
    assert_eq!(key.key_metadata().jws_algorithm, "PS256");
    assert_eq!(key.key_metadata().key_id.as_deref(), Some("key-1"));
    assert_eq!(key.public_key_jwk().kid.as_deref(), Some("key-1"));
    assert!(matches!(key.algorithm(), AsymmetricAlgorithm::Ps256 { modulus_length: 2048 }));

    let key = PrivateKey::new(handle(), AsymmetricAlgorithm::EdDSA, ed25519_jwk(None));
    assert_eq!(key.key_metadata().jws_algorithm, "EdDSA");
    assert_eq!(key.key_metadata().key_id, None);
}
