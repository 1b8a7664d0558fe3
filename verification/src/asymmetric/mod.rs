//! Asymmetric JWS signing and verification.
//!
//! Currently, the following JWS algorithms are available:
//!
//! - Asymmetric (NIST elliptic curves): ES256, ES384
//! - Asymmetric (RSA): RS256, RS384, RS512, PS256, PS384, PS512
//! - Asymmetric (`EdDSA`): `Ed25519` (aka `EdDSA`)

pub mod signer;
pub mod verification;
