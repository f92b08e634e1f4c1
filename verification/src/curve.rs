use vstd::prelude::*;

use bls_sigs_ref::BLSSigCore;
use bls_sigs_ref::BLSSignatureAug;
use bls_sigs_ref::BLSSignatureBasic;
use bls_sigs_ref::BLSSignaturePop;
use pairing_plus::bls12_381::Fr;
use pairing_plus::bls12_381::G1;
use pairing_plus::bls12_381::G2;
use pairing_plus::hash_to_curve::HashToCurve;
use pairing_plus::hash_to_field::ExpandMsgXmd;
use sha2::Sha256;

verus! {

/// The BLS12-381 group G1, an outside curve type the checks carry through.
#[verifier::external_type_specification]
#[verifier::external_body]
pub struct ExG1(G1);

/// The BLS12-381 group G2, an outside curve type the checks carry through.
#[verifier::external_type_specification]
#[verifier::external_body]
pub struct ExG2(G2);

/// The BLS12-381 scalar field, the type of secret exponents.
#[verifier::external_type_specification]
#[verifier::external_body]
pub struct ExFr(Fr);

/// How many bytes a compressed G1 point serializes to.
pub const G1_COMPRESSED_LEN: usize = 48;

/// How many bytes a compressed G2 point serializes to.
pub const G2_COMPRESSED_LEN: usize = 96;

/// The size of the scratch buffer every computed value is serialized into.
pub const SER_BUF_LEN: usize = 96;

/// Relies on pairing_plus's `HashToCurve` for G1: a deterministic,
/// domain-separated hash of a message to a G1 point.
#[verifier::external_body]
pub(crate) fn hash_g1(msg: &[u8], ciphersuite: &[u8]) -> G1 {
    <G1 as HashToCurve<ExpandMsgXmd<Sha256>>>::hash_to_curve(msg, ciphersuite)
}

/// Relies on pairing_plus's `HashToCurve` for G2: a deterministic,
/// domain-separated hash of a message to a G2 point.
#[verifier::external_body]
pub(crate) fn hash_g2(msg: &[u8], ciphersuite: &[u8]) -> G2 {
    <G2 as HashToCurve<ExpandMsgXmd<Sha256>>>::hash_to_curve(msg, ciphersuite)
}

/// Relies on bls_sigs_ref's `BLSSigCore::keygen` for signatures in G1:
/// derives the secret exponent and the G2 public key from secret-key bytes.
#[verifier::external_body]
pub(crate) fn keygen_g1(sk: &[u8]) -> (Fr, G2) {
    <G1 as BLSSigCore<ExpandMsgXmd<Sha256>>>::keygen(sk)
}

/// Relies on bls_sigs_ref's `BLSSigCore::keygen` for signatures in G2:
/// derives the secret exponent and the G1 public key from secret-key bytes.
#[verifier::external_body]
pub(crate) fn keygen_g2(sk: &[u8]) -> (Fr, G1) {
    <G2 as BLSSigCore<ExpandMsgXmd<Sha256>>>::keygen(sk)
}

/// Relies on bls_sigs_ref's `BLSSignatureBasic::sign` for G1.
#[verifier::external_body]
pub(crate) fn sign_basic_g1(x_prime: Fr, msg: &[u8]) -> G1 {
    <G1 as BLSSignatureBasic<ExpandMsgXmd<Sha256>>>::sign(x_prime, msg)
}

/// Relies on bls_sigs_ref's `BLSSignatureBasic::sign` for G2.
#[verifier::external_body]
pub(crate) fn sign_basic_g2(x_prime: Fr, msg: &[u8]) -> G2 {
    <G2 as BLSSignatureBasic<ExpandMsgXmd<Sha256>>>::sign(x_prime, msg)
}

/// Relies on bls_sigs_ref's `BLSSignatureAug::sign` for G1: binds the
/// public key into the signed payload.
#[verifier::external_body]
pub(crate) fn sign_aug_g1(x_prime: Fr, msg: &[u8]) -> G1 {
    <G1 as BLSSignatureAug<ExpandMsgXmd<Sha256>>>::sign(x_prime, msg)
}

/// Relies on bls_sigs_ref's `BLSSignatureAug::sign` for G2: binds the
/// public key into the signed payload.
#[verifier::external_body]
pub(crate) fn sign_aug_g2(x_prime: Fr, msg: &[u8]) -> G2 {
    <G2 as BLSSignatureAug<ExpandMsgXmd<Sha256>>>::sign(x_prime, msg)
}

/// Relies on bls_sigs_ref's `BLSSignaturePop::sign` for G1.
#[verifier::external_body]
pub(crate) fn sign_pop_g1(x_prime: Fr, msg: &[u8]) -> G1 {
    <G1 as BLSSignaturePop<ExpandMsgXmd<Sha256>>>::sign(x_prime, msg)
}

/// Relies on bls_sigs_ref's `BLSSignaturePop::sign` for G2.
#[verifier::external_body]
pub(crate) fn sign_pop_g2(x_prime: Fr, msg: &[u8]) -> G2 {
    <G2 as BLSSignaturePop<ExpandMsgXmd<Sha256>>>::sign(x_prime, msg)
}

/// Relies on bls_sigs_ref's `BLSSignatureBasic::verify` for G1.
#[verifier::external_body]
pub(crate) fn verify_basic_g1(pk: G2, sig: G1, msg: &[u8]) -> bool {
    <G1 as BLSSignatureBasic<ExpandMsgXmd<Sha256>>>::verify(pk, sig, msg)
}

/// Relies on bls_sigs_ref's `BLSSignatureBasic::verify` for G2.
#[verifier::external_body]
pub(crate) fn verify_basic_g2(pk: G1, sig: G2, msg: &[u8]) -> bool {
    <G2 as BLSSignatureBasic<ExpandMsgXmd<Sha256>>>::verify(pk, sig, msg)
}

/// Relies on bls_sigs_ref's `BLSSignatureAug::verify` for G1.
#[verifier::external_body]
pub(crate) fn verify_aug_g1(pk: G2, sig: G1, msg: &[u8]) -> bool {
    <G1 as BLSSignatureAug<ExpandMsgXmd<Sha256>>>::verify(pk, sig, msg)
}

/// Relies on bls_sigs_ref's `BLSSignatureAug::verify` for G2.
#[verifier::external_body]
pub(crate) fn verify_aug_g2(pk: G1, sig: G2, msg: &[u8]) -> bool {
    <G2 as BLSSignatureAug<ExpandMsgXmd<Sha256>>>::verify(pk, sig, msg)
}

/// Relies on bls_sigs_ref's `BLSSignaturePop::verify` for G1.
#[verifier::external_body]
pub(crate) fn verify_pop_scheme_g1(pk: G2, sig: G1, msg: &[u8]) -> bool {
    <G1 as BLSSignaturePop<ExpandMsgXmd<Sha256>>>::verify(pk, sig, msg)
}

/// Relies on bls_sigs_ref's `BLSSignaturePop::verify` for G2.
#[verifier::external_body]
pub(crate) fn verify_pop_scheme_g2(pk: G1, sig: G2, msg: &[u8]) -> bool {
    <G2 as BLSSignaturePop<ExpandMsgXmd<Sha256>>>::verify(pk, sig, msg)
}

/// Relies on bls_sigs_ref's `BLSSigCore::aggregate` for G1: the sum of the
/// given signatures.
#[verifier::external_body]
pub(crate) fn aggregate_g1(sigs: &Vec<G1>) -> G1 {
    <G1 as BLSSigCore<ExpandMsgXmd<Sha256>>>::aggregate(&sigs[..])
}

/// Relies on bls_sigs_ref's `BLSSigCore::aggregate` for G2: the sum of the
/// given signatures.
#[verifier::external_body]
pub(crate) fn aggregate_g2(sigs: &Vec<G2>) -> G2 {
    <G2 as BLSSigCore<ExpandMsgXmd<Sha256>>>::aggregate(&sigs[..])
}

/// Relies on bls_sigs_ref's `BLSSignaturePop::pop_prove` for G1: a
/// possession proof for the given secret-key bytes.
#[verifier::external_body]
pub(crate) fn pop_prove_g1(sk: &[u8]) -> G1 {
    <G1 as BLSSignaturePop<ExpandMsgXmd<Sha256>>>::pop_prove(sk)
}

/// Relies on bls_sigs_ref's `BLSSignaturePop::pop_prove` for G2: a
/// possession proof for the given secret-key bytes.
#[verifier::external_body]
pub(crate) fn pop_prove_g2(sk: &[u8]) -> G2 {
    <G2 as BLSSignaturePop<ExpandMsgXmd<Sha256>>>::pop_prove(sk)
}

/// Relies on bls_sigs_ref's `BLSSignaturePop::pop_verify` for G1.
#[verifier::external_body]
pub(crate) fn pop_verify_g1(pk: G2, proof: G1) -> bool {
    <G1 as BLSSignaturePop<ExpandMsgXmd<Sha256>>>::pop_verify(pk, proof)
}

/// Relies on bls_sigs_ref's `BLSSignaturePop::pop_verify` for G2.
#[verifier::external_body]
pub(crate) fn pop_verify_g2(pk: G1, proof: G2) -> bool {
    <G2 as BLSSignaturePop<ExpandMsgXmd<Sha256>>>::pop_verify(pk, proof)
}

} // verus!
