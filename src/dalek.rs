//! The native backend's primitives, as provided by ed25519-dalek and
//! curve25519-dalek. Each result is named by what it is a function of.

use crate::keys::{PublicKey, Scalar, SecretKey, Signature};
use ed25519_dalek::Signer;
use ed25519_dalek::Verifier;
use vstd::prelude::*;

verus! {

/// The public key that ed25519-dalek derives from a secret key seed.
pub uninterp spec fn dalek_public_key(sk: Seq<u8>) -> Seq<u8>;

/// The signature that ed25519-dalek computes over a message with a secret key seed.
pub uninterp spec fn dalek_signature(m: Seq<u8>, sk: Seq<u8>) -> Seq<u8>;

/// Whether ed25519-dalek accepts a signature over a message under a public key.
pub uninterp spec fn dalek_accepts(m: Seq<u8>, pk: Seq<u8>, sig: Seq<u8>) -> bool;

/// The Montgomery u-coordinate of the base point times a clamped scalar.
pub uninterp spec fn x25519_base(e: Seq<u8>) -> Seq<u8>;

/// The Montgomery u-coordinate of a point times a clamped scalar.
pub uninterp spec fn x25519(e: Seq<u8>, p: Seq<u8>) -> Seq<u8>;

/// The public key of a 64-byte extended secret key.
pub uninterp spec fn dalek_ext_public_key(esk: Seq<u8>) -> Seq<u8>;

/// The signature over a message made with a 64-byte extended secret key.
pub uninterp spec fn dalek_ext_signature(m: Seq<u8>, esk: Seq<u8>) -> Seq<u8>;

/// Relies on `SigningKey::from_bytes` and `SigningKey::verifying_key`: the
/// public key depends on the seed alone.
#[verifier::external_body]
pub(crate) fn public_key(sk: &SecretKey) -> (r: PublicKey)
    ensures
        r@ == dalek_public_key(sk@),
{
    ed25519_dalek::SigningKey::from_bytes(sk).verifying_key().to_bytes()
}

/// Relies on `Signer::sign` of `SigningKey`: deterministic Ed25519, so the
/// signature depends on the message and the seed alone, and it verifies under
/// the public key derived from the same seed.
#[verifier::external_body]
pub(crate) fn sign(m: &[u8], sk: &SecretKey) -> (r: Signature)
    ensures
        r@ == dalek_signature(m@, sk@),
        dalek_accepts(m@, dalek_public_key(sk@), r@),
{
    ed25519_dalek::SigningKey::from_bytes(sk).sign(m).to_bytes()
}

/// Relies on `VerifyingKey::from_bytes` and `Verifier::verify`: a public key
/// that does not decompress to a point accepts nothing.
#[verifier::external_body]
pub(crate) fn accepts(m: &[u8], pk: &PublicKey, sig: &Signature) -> (r: bool)
    ensures
        r == dalek_accepts(m@, pk@, sig@),
{
    match ed25519_dalek::VerifyingKey::from_bytes(pk) {
        Ok(vk) => vk.verify(m, &ed25519_dalek::Signature::from_bytes(sig)).is_ok(),
        Err(_) => false,
    }
}

/// Relies on `MontgomeryPoint::mul_base_clamped`.
#[verifier::external_body]
pub(crate) fn base_mult(e: &Scalar) -> (r: Scalar)
    ensures
        r@ == x25519_base(e@),
{
    curve25519_dalek::montgomery::MontgomeryPoint::mul_base_clamped(*e).to_bytes()
}

/// Relies on `MontgomeryPoint::mul_clamped`.
#[verifier::external_body]
pub(crate) fn scalar_mult(e: &SecretKey, p: &Scalar) -> (r: Scalar)
    ensures
        r@ == x25519(e@, p@),
{
    curve25519_dalek::montgomery::MontgomeryPoint(*p).mul_clamped(*e).to_bytes()
}

/// Relies on `hazmat::ExpandedSecretKey::from_bytes` and the conversion of an
/// expanded key into a `VerifyingKey`.
#[verifier::external_body]
pub(crate) fn ext_public_key(esk: &[u8; 64]) -> (r: PublicKey)
    ensures
        r@ == dalek_ext_public_key(esk@),
{
    let esk = ed25519_dalek::hazmat::ExpandedSecretKey::from_bytes(esk);
    ed25519_dalek::VerifyingKey::from(&esk).to_bytes()
}

/// Relies on `hazmat::raw_sign` with SHA-512, under the public key of the same
/// extended secret key.
#[verifier::external_body]
pub(crate) fn ext_sign(m: &[u8], esk: &[u8; 64]) -> (r: Signature)
    ensures
        r@ == dalek_ext_signature(m@, esk@),
{
    let esk = ed25519_dalek::hazmat::ExpandedSecretKey::from_bytes(esk);
    let vk = ed25519_dalek::VerifyingKey::from(&esk);
    ed25519_dalek::hazmat::raw_sign::<sha2::Sha512>(&esk, m, &vk).to_bytes()
}

} // verus!
