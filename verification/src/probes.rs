use vstd::prelude::*;

use bls_sigs_ref::BLSSigCore;
use bls_sigs_ref::BLSSignatureAug;
use bls_sigs_ref::BLSSignatureBasic;
use bls_sigs_ref::BLSSignaturePop;
use pairing_plus::bls12_381::G1;
use pairing_plus::bls12_381::G2;
use pairing_plus::hash_to_curve::HashToCurve;
use pairing_plus::hash_to_field::ExpandMsgXmd;
use pairing_plus::serdes::SerDes;
use sha2::Sha256;
use std::io::Cursor;

use crate::curve::SER_BUF_LEN;
use crate::vectors::TestVector;

verus! {

/// The 96-byte buffer holding the compressed serialization of the message
/// hashed to G1: a deterministic function of the message and the
/// domain-separation tag alone.
pub uninterp spec fn hash_ser_g1_of(msg: Seq<u8>, ciphersuite: Seq<u8>) -> Seq<u8>;

/// Whether the expected bytes deserialize to a G1 point (`None` when they
/// do not), and whether that point equals the hash of the message:
/// deterministic in the message, tag and expected bytes alone.
pub uninterp spec fn hash_rt_g1_of(msg: Seq<u8>, ciphersuite: Seq<u8>, expected: Seq<u8>) -> Option<bool>;

/// The 96-byte buffer holding the compressed serialization of the message
/// hashed to G2: a deterministic function of the message and the
/// domain-separation tag alone.
pub uninterp spec fn hash_ser_g2_of(msg: Seq<u8>, ciphersuite: Seq<u8>) -> Seq<u8>;

/// Whether the expected bytes deserialize to a G2 point (`None` when they
/// do not), and whether that point equals the hash of the message:
/// deterministic in the message, tag and expected bytes alone.
pub uninterp spec fn hash_rt_g2_of(msg: Seq<u8>, ciphersuite: Seq<u8>, expected: Seq<u8>) -> Option<bool>;

/// The 96-byte buffer holding the compressed serialization of the
/// Basic-scheme G1 signature derived from the given secret-key and
/// message bytes: deterministic in those bytes alone.
pub uninterp spec fn sig_ser_basic_g1_of(sk: Seq<u8>, msg: Seq<u8>) -> Seq<u8>;

/// Whether the Basic-scheme G1 signature freshly derived from the
/// secret-key bytes verifies under its own public key: deterministic in
/// the secret-key and message bytes alone.
pub uninterp spec fn self_verify_basic_g1_of(sk: Seq<u8>, msg: Seq<u8>) -> bool;

/// Whether the expected bytes deserialize to a G1 point (`None` when they
/// do not), and whether that point equals the freshly derived
/// Basic-scheme signature: deterministic in the bytes given.
pub uninterp spec fn sig_rt_basic_g1_of(sk: Seq<u8>, msg: Seq<u8>, expected: Seq<u8>) -> Option<bool>;

/// The 96-byte buffer holding the compressed serialization of the
/// Basic-scheme G2 signature derived from the given secret-key and
/// message bytes: deterministic in those bytes alone.
pub uninterp spec fn sig_ser_basic_g2_of(sk: Seq<u8>, msg: Seq<u8>) -> Seq<u8>;

/// Whether the Basic-scheme G2 signature freshly derived from the
/// secret-key bytes verifies under its own public key: deterministic in
/// the secret-key and message bytes alone.
pub uninterp spec fn self_verify_basic_g2_of(sk: Seq<u8>, msg: Seq<u8>) -> bool;

/// Whether the expected bytes deserialize to a G2 point (`None` when they
/// do not), and whether that point equals the freshly derived
/// Basic-scheme signature: deterministic in the bytes given.
pub uninterp spec fn sig_rt_basic_g2_of(sk: Seq<u8>, msg: Seq<u8>, expected: Seq<u8>) -> Option<bool>;

/// The 96-byte buffer holding the compressed serialization of the
/// Message-Augmentation-scheme G1 signature derived from the given secret-key and
/// message bytes: deterministic in those bytes alone.
pub uninterp spec fn sig_ser_aug_g1_of(sk: Seq<u8>, msg: Seq<u8>) -> Seq<u8>;

/// Whether the Message-Augmentation-scheme G1 signature freshly derived from the
/// secret-key bytes verifies under its own public key: deterministic in
/// the secret-key and message bytes alone.
pub uninterp spec fn self_verify_aug_g1_of(sk: Seq<u8>, msg: Seq<u8>) -> bool;

/// Whether the expected bytes deserialize to a G1 point (`None` when they
/// do not), and whether that point equals the freshly derived
/// Message-Augmentation-scheme signature: deterministic in the bytes given.
pub uninterp spec fn sig_rt_aug_g1_of(sk: Seq<u8>, msg: Seq<u8>, expected: Seq<u8>) -> Option<bool>;

/// The 96-byte buffer holding the compressed serialization of the
/// Message-Augmentation-scheme G2 signature derived from the given secret-key and
/// message bytes: deterministic in those bytes alone.
pub uninterp spec fn sig_ser_aug_g2_of(sk: Seq<u8>, msg: Seq<u8>) -> Seq<u8>;

/// Whether the Message-Augmentation-scheme G2 signature freshly derived from the
/// secret-key bytes verifies under its own public key: deterministic in
/// the secret-key and message bytes alone.
pub uninterp spec fn self_verify_aug_g2_of(sk: Seq<u8>, msg: Seq<u8>) -> bool;

/// Whether the expected bytes deserialize to a G2 point (`None` when they
/// do not), and whether that point equals the freshly derived
/// Message-Augmentation-scheme signature: deterministic in the bytes given.
pub uninterp spec fn sig_rt_aug_g2_of(sk: Seq<u8>, msg: Seq<u8>, expected: Seq<u8>) -> Option<bool>;

/// The 96-byte buffer holding the compressed serialization of the
/// Proof-of-Possession-scheme G1 signature derived from the given secret-key and
/// message bytes: deterministic in those bytes alone.
pub uninterp spec fn sig_ser_pop_g1_of(sk: Seq<u8>, msg: Seq<u8>) -> Seq<u8>;

/// Whether the Proof-of-Possession-scheme G1 signature freshly derived from the
/// secret-key bytes verifies under its own public key: deterministic in
/// the secret-key and message bytes alone.
pub uninterp spec fn self_verify_pop_g1_of(sk: Seq<u8>, msg: Seq<u8>) -> bool;

/// Whether the expected bytes deserialize to a G1 point (`None` when they
/// do not), and whether that point equals the freshly derived
/// Proof-of-Possession-scheme signature: deterministic in the bytes given.
pub uninterp spec fn sig_rt_pop_g1_of(sk: Seq<u8>, msg: Seq<u8>, expected: Seq<u8>) -> Option<bool>;

/// The 96-byte buffer holding the compressed serialization of the
/// Proof-of-Possession-scheme G2 signature derived from the given secret-key and
/// message bytes: deterministic in those bytes alone.
pub uninterp spec fn sig_ser_pop_g2_of(sk: Seq<u8>, msg: Seq<u8>) -> Seq<u8>;

/// Whether the Proof-of-Possession-scheme G2 signature freshly derived from the
/// secret-key bytes verifies under its own public key: deterministic in
/// the secret-key and message bytes alone.
pub uninterp spec fn self_verify_pop_g2_of(sk: Seq<u8>, msg: Seq<u8>) -> bool;

/// Whether the expected bytes deserialize to a G2 point (`None` when they
/// do not), and whether that point equals the freshly derived
/// Proof-of-Possession-scheme signature: deterministic in the bytes given.
pub uninterp spec fn sig_rt_pop_g2_of(sk: Seq<u8>, msg: Seq<u8>, expected: Seq<u8>) -> Option<bool>;

/// The 96-byte buffer holding the compressed serialization of the G1
/// possession proof for the given secret-key bytes: deterministic in those
/// bytes alone.
pub uninterp spec fn pop_ser_g1_of(sk: Seq<u8>) -> Seq<u8>;

/// Whether the G1 possession proof freshly derived from the secret-key
/// bytes verifies under its own public key: deterministic in those bytes
/// alone.
pub uninterp spec fn pop_self_g1_of(sk: Seq<u8>) -> bool;

/// Whether the expected bytes deserialize to a G1 point (`None` when they
/// do not), and whether that point equals the freshly derived possession
/// proof: deterministic in the bytes given.
pub uninterp spec fn pop_rt_g1_of(sk: Seq<u8>, expected: Seq<u8>) -> Option<bool>;

/// The 96-byte buffer holding the compressed serialization of the G2
/// possession proof for the given secret-key bytes: deterministic in those
/// bytes alone.
pub uninterp spec fn pop_ser_g2_of(sk: Seq<u8>) -> Seq<u8>;

/// Whether the G2 possession proof freshly derived from the secret-key
/// bytes verifies under its own public key: deterministic in those bytes
/// alone.
pub uninterp spec fn pop_self_g2_of(sk: Seq<u8>) -> bool;

/// Whether the expected bytes deserialize to a G2 point (`None` when they
/// do not), and whether that point equals the freshly derived possession
/// proof: deterministic in the bytes given.
pub uninterp spec fn pop_rt_g2_of(sk: Seq<u8>, expected: Seq<u8>) -> Option<bool>;

/// The outcome of the Basic-scheme G1 aggregate-verification protocol
/// on index-aligned secret-key and message lists: sign each message under
/// its derived key, aggregate, and run aggregate-verification against the
/// derived public keys; deterministic in the listed bytes alone.
pub uninterp spec fn agg_verify_basic_g1_of(sks: Seq<Seq<u8>>, msgs: Seq<Seq<u8>>) -> bool;

/// The outcome of the Basic-scheme G2 aggregate-verification protocol
/// on index-aligned secret-key and message lists: sign each message under
/// its derived key, aggregate, and run aggregate-verification against the
/// derived public keys; deterministic in the listed bytes alone.
pub uninterp spec fn agg_verify_basic_g2_of(sks: Seq<Seq<u8>>, msgs: Seq<Seq<u8>>) -> bool;

/// The outcome of the Message-Augmentation-scheme G1 aggregate-verification protocol
/// on index-aligned secret-key and message lists: sign each message under
/// its derived key, aggregate, and run aggregate-verification against the
/// derived public keys; deterministic in the listed bytes alone.
pub uninterp spec fn agg_verify_aug_g1_of(sks: Seq<Seq<u8>>, msgs: Seq<Seq<u8>>) -> bool;

/// The outcome of the Message-Augmentation-scheme G2 aggregate-verification protocol
/// on index-aligned secret-key and message lists: sign each message under
/// its derived key, aggregate, and run aggregate-verification against the
/// derived public keys; deterministic in the listed bytes alone.
pub uninterp spec fn agg_verify_aug_g2_of(sks: Seq<Seq<u8>>, msgs: Seq<Seq<u8>>) -> bool;

/// The outcome of the Proof-of-Possession-scheme G1 aggregate-verification protocol
/// on index-aligned secret-key and message lists: sign each message under
/// its derived key, aggregate, and run aggregate-verification against the
/// derived public keys; deterministic in the listed bytes alone.
pub uninterp spec fn agg_verify_pop_g1_of(sks: Seq<Seq<u8>>, msgs: Seq<Seq<u8>>) -> bool;

/// The outcome of the Proof-of-Possession-scheme G2 aggregate-verification protocol
/// on index-aligned secret-key and message lists: sign each message under
/// its derived key, aggregate, and run aggregate-verification against the
/// derived public keys; deterministic in the listed bytes alone.
pub uninterp spec fn agg_verify_pop_g2_of(sks: Seq<Seq<u8>>, msgs: Seq<Seq<u8>>) -> bool;

/// The outcome of the G1 multi-signature protocol: each listed secret key
/// signs the one shared reference message under the Proof-of-Possession
/// scheme, the signatures are aggregated, and the multi-signature
/// predicate is run against the derived public keys; deterministic in the
/// bytes alone.
pub uninterp spec fn multisig_g1_of(msg: Seq<u8>, sks: Seq<Seq<u8>>) -> bool;

/// The outcome of the G2 multi-signature protocol: each listed secret key
/// signs the one shared reference message under the Proof-of-Possession
/// scheme, the signatures are aggregated, and the multi-signature
/// predicate is run against the derived public keys; deterministic in the
/// bytes alone.
pub uninterp spec fn multisig_g2_of(msg: Seq<u8>, sks: Seq<Seq<u8>>) -> bool;

/// Relies on pairing_plus's `HashToCurve` for G1 and `SerDes::serialize`
/// with the compression flag set: both deterministic, and the write into
/// the 96-byte buffer always succeeds at G1's encoding size.
#[verifier::external_body]
pub(crate) fn hash_probe_g1(msg: &[u8], ciphersuite: &[u8]) -> (r: Vec<u8>)
    ensures
        r@ == hash_ser_g1_of(msg@, ciphersuite@),
        r@.len() == SER_BUF_LEN,
{
    let p = <G1 as HashToCurve<ExpandMsgXmd<Sha256>>>::hash_to_curve(msg, ciphersuite);
    let mut buf = [0u8; 96];
    let _ = p.serialize(&mut Cursor::new(&mut buf[..]), true);
    buf.to_vec()
}

/// Relies on pairing_plus's `HashToCurve` for G1, `SerDes::deserialize`
/// with the compression flag set, and G1's `PartialEq`: all deterministic
/// functions of the bytes given.
#[verifier::external_body]
pub(crate) fn hash_rt_probe_g1(msg: &[u8], ciphersuite: &[u8], expected: &Vec<u8>) -> (r: Option<
    bool,
>)
    ensures
        r == hash_rt_g1_of(msg@, ciphersuite@, expected@),
{
    let p = <G1 as HashToCurve<ExpandMsgXmd<Sha256>>>::hash_to_curve(msg, ciphersuite);
    match <G1 as SerDes>::deserialize(&mut Cursor::new(&expected[..]), true) {
        Ok(q) => Some(q == p),
        Err(_) => None,
    }
}

/// Relies on pairing_plus's `HashToCurve` for G2 and `SerDes::serialize`
/// with the compression flag set: both deterministic, and the write into
/// the 96-byte buffer always succeeds at G2's encoding size.
#[verifier::external_body]
pub(crate) fn hash_probe_g2(msg: &[u8], ciphersuite: &[u8]) -> (r: Vec<u8>)
    ensures
        r@ == hash_ser_g2_of(msg@, ciphersuite@),
        r@.len() == SER_BUF_LEN,
{
    let p = <G2 as HashToCurve<ExpandMsgXmd<Sha256>>>::hash_to_curve(msg, ciphersuite);
    let mut buf = [0u8; 96];
    let _ = p.serialize(&mut Cursor::new(&mut buf[..]), true);
    buf.to_vec()
}

/// Relies on pairing_plus's `HashToCurve` for G2, `SerDes::deserialize`
/// with the compression flag set, and G2's `PartialEq`: all deterministic
/// functions of the bytes given.
#[verifier::external_body]
pub(crate) fn hash_rt_probe_g2(msg: &[u8], ciphersuite: &[u8], expected: &Vec<u8>) -> (r: Option<
    bool,
>)
    ensures
        r == hash_rt_g2_of(msg@, ciphersuite@, expected@),
{
    let p = <G2 as HashToCurve<ExpandMsgXmd<Sha256>>>::hash_to_curve(msg, ciphersuite);
    match <G2 as SerDes>::deserialize(&mut Cursor::new(&expected[..]), true) {
        Ok(q) => Some(q == p),
        Err(_) => None,
    }
}

/// Relies on bls_sigs_ref's `BLSSigCore::keygen`, `BLSSignatureBasic::sign` and
/// `BLSSignatureBasic::verify` for G1, and pairing_plus's `SerDes::serialize`: all
/// deterministic, and the write into the 96-byte buffer always succeeds at
/// G1's encoding size.
#[verifier::external_body]
pub(crate) fn sig_probe_basic_g1(sk: &[u8], msg: &[u8]) -> (r: (Vec<u8>, bool))
    ensures
        r.0@ == sig_ser_basic_g1_of(sk@, msg@),
        r.0@.len() == SER_BUF_LEN,
        r.1 == self_verify_basic_g1_of(sk@, msg@),
{
    let (x_prime, pk) = <G1 as BLSSigCore<ExpandMsgXmd<Sha256>>>::keygen(sk);
    let sig = <G1 as BLSSignatureBasic<ExpandMsgXmd<Sha256>>>::sign(x_prime, msg);
    let ok = <G1 as BLSSignatureBasic<ExpandMsgXmd<Sha256>>>::verify(pk, sig, msg);
    let mut buf = [0u8; 96];
    let _ = sig.serialize(&mut Cursor::new(&mut buf[..]), true);
    (buf.to_vec(), ok)
}

/// Relies on bls_sigs_ref's `BLSSigCore::keygen` and `BLSSignatureBasic::sign` for
/// G1, pairing_plus's `SerDes::deserialize` with the compression flag
/// set, and G1's `PartialEq`: all deterministic functions of the bytes
/// given.
#[verifier::external_body]
pub(crate) fn sig_rt_probe_basic_g1(sk: &[u8], msg: &[u8], expected: &Vec<u8>) -> (r: Option<bool>)
    ensures
        r == sig_rt_basic_g1_of(sk@, msg@, expected@),
{
    let (x_prime, _pk) = <G1 as BLSSigCore<ExpandMsgXmd<Sha256>>>::keygen(sk);
    let sig = <G1 as BLSSignatureBasic<ExpandMsgXmd<Sha256>>>::sign(x_prime, msg);
    match <G1 as SerDes>::deserialize(&mut Cursor::new(&expected[..]), true) {
        Ok(q) => Some(q == sig),
        Err(_) => None,
    }
}

/// Relies on bls_sigs_ref's `BLSSigCore::keygen`, `BLSSignatureBasic::sign` and
/// `BLSSignatureBasic::verify` for G2, and pairing_plus's `SerDes::serialize`: all
/// deterministic, and the write into the 96-byte buffer always succeeds at
/// G2's encoding size.
#[verifier::external_body]
pub(crate) fn sig_probe_basic_g2(sk: &[u8], msg: &[u8]) -> (r: (Vec<u8>, bool))
    ensures
        r.0@ == sig_ser_basic_g2_of(sk@, msg@),
        r.0@.len() == SER_BUF_LEN,
        r.1 == self_verify_basic_g2_of(sk@, msg@),
{
    let (x_prime, pk) = <G2 as BLSSigCore<ExpandMsgXmd<Sha256>>>::keygen(sk);
    let sig = <G2 as BLSSignatureBasic<ExpandMsgXmd<Sha256>>>::sign(x_prime, msg);
    let ok = <G2 as BLSSignatureBasic<ExpandMsgXmd<Sha256>>>::verify(pk, sig, msg);
    let mut buf = [0u8; 96];
    let _ = sig.serialize(&mut Cursor::new(&mut buf[..]), true);
    (buf.to_vec(), ok)
}

/// Relies on bls_sigs_ref's `BLSSigCore::keygen` and `BLSSignatureBasic::sign` for
/// G2, pairing_plus's `SerDes::deserialize` with the compression flag
/// set, and G2's `PartialEq`: all deterministic functions of the bytes
/// given.
#[verifier::external_body]
pub(crate) fn sig_rt_probe_basic_g2(sk: &[u8], msg: &[u8], expected: &Vec<u8>) -> (r: Option<bool>)
    ensures
        r == sig_rt_basic_g2_of(sk@, msg@, expected@),
{
    let (x_prime, _pk) = <G2 as BLSSigCore<ExpandMsgXmd<Sha256>>>::keygen(sk);
    let sig = <G2 as BLSSignatureBasic<ExpandMsgXmd<Sha256>>>::sign(x_prime, msg);
    match <G2 as SerDes>::deserialize(&mut Cursor::new(&expected[..]), true) {
        Ok(q) => Some(q == sig),
        Err(_) => None,
    }
}

/// Relies on bls_sigs_ref's `BLSSigCore::keygen`, `BLSSignatureAug::sign` and
/// `BLSSignatureAug::verify` for G1, and pairing_plus's `SerDes::serialize`: all
/// deterministic, and the write into the 96-byte buffer always succeeds at
/// G1's encoding size.
#[verifier::external_body]
pub(crate) fn sig_probe_aug_g1(sk: &[u8], msg: &[u8]) -> (r: (Vec<u8>, bool))
    ensures
        r.0@ == sig_ser_aug_g1_of(sk@, msg@),
        r.0@.len() == SER_BUF_LEN,
        r.1 == self_verify_aug_g1_of(sk@, msg@),
{
    let (x_prime, pk) = <G1 as BLSSigCore<ExpandMsgXmd<Sha256>>>::keygen(sk);
    let sig = <G1 as BLSSignatureAug<ExpandMsgXmd<Sha256>>>::sign(x_prime, msg);
    let ok = <G1 as BLSSignatureAug<ExpandMsgXmd<Sha256>>>::verify(pk, sig, msg);
    let mut buf = [0u8; 96];
    let _ = sig.serialize(&mut Cursor::new(&mut buf[..]), true);
    (buf.to_vec(), ok)
}

/// Relies on bls_sigs_ref's `BLSSigCore::keygen` and `BLSSignatureAug::sign` for
/// G1, pairing_plus's `SerDes::deserialize` with the compression flag
/// set, and G1's `PartialEq`: all deterministic functions of the bytes
/// given.
#[verifier::external_body]
pub(crate) fn sig_rt_probe_aug_g1(sk: &[u8], msg: &[u8], expected: &Vec<u8>) -> (r: Option<bool>)
    ensures
        r == sig_rt_aug_g1_of(sk@, msg@, expected@),
{
    let (x_prime, _pk) = <G1 as BLSSigCore<ExpandMsgXmd<Sha256>>>::keygen(sk);
    let sig = <G1 as BLSSignatureAug<ExpandMsgXmd<Sha256>>>::sign(x_prime, msg);
    match <G1 as SerDes>::deserialize(&mut Cursor::new(&expected[..]), true) {
        Ok(q) => Some(q == sig),
        Err(_) => None,
    }
}

/// Relies on bls_sigs_ref's `BLSSigCore::keygen`, `BLSSignatureAug::sign` and
/// `BLSSignatureAug::verify` for G2, and pairing_plus's `SerDes::serialize`: all
/// deterministic, and the write into the 96-byte buffer always succeeds at
/// G2's encoding size.
#[verifier::external_body]
pub(crate) fn sig_probe_aug_g2(sk: &[u8], msg: &[u8]) -> (r: (Vec<u8>, bool))
    ensures
        r.0@ == sig_ser_aug_g2_of(sk@, msg@),
        r.0@.len() == SER_BUF_LEN,
        r.1 == self_verify_aug_g2_of(sk@, msg@),
{
    let (x_prime, pk) = <G2 as BLSSigCore<ExpandMsgXmd<Sha256>>>::keygen(sk);
    let sig = <G2 as BLSSignatureAug<ExpandMsgXmd<Sha256>>>::sign(x_prime, msg);
    let ok = <G2 as BLSSignatureAug<ExpandMsgXmd<Sha256>>>::verify(pk, sig, msg);
    let mut buf = [0u8; 96];
    let _ = sig.serialize(&mut Cursor::new(&mut buf[..]), true);
    (buf.to_vec(), ok)
}

/// Relies on bls_sigs_ref's `BLSSigCore::keygen` and `BLSSignatureAug::sign` for
/// G2, pairing_plus's `SerDes::deserialize` with the compression flag
/// set, and G2's `PartialEq`: all deterministic functions of the bytes
/// given.
#[verifier::external_body]
pub(crate) fn sig_rt_probe_aug_g2(sk: &[u8], msg: &[u8], expected: &Vec<u8>) -> (r: Option<bool>)
    ensures
        r == sig_rt_aug_g2_of(sk@, msg@, expected@),
{
    let (x_prime, _pk) = <G2 as BLSSigCore<ExpandMsgXmd<Sha256>>>::keygen(sk);
    let sig = <G2 as BLSSignatureAug<ExpandMsgXmd<Sha256>>>::sign(x_prime, msg);
    match <G2 as SerDes>::deserialize(&mut Cursor::new(&expected[..]), true) {
        Ok(q) => Some(q == sig),
        Err(_) => None,
    }
}

/// Relies on bls_sigs_ref's `BLSSigCore::keygen`, `BLSSignaturePop::sign` and
/// `BLSSignaturePop::verify` for G1, and pairing_plus's `SerDes::serialize`: all
/// deterministic, and the write into the 96-byte buffer always succeeds at
/// G1's encoding size.
#[verifier::external_body]
pub(crate) fn sig_probe_pop_g1(sk: &[u8], msg: &[u8]) -> (r: (Vec<u8>, bool))
    ensures
        r.0@ == sig_ser_pop_g1_of(sk@, msg@),
        r.0@.len() == SER_BUF_LEN,
        r.1 == self_verify_pop_g1_of(sk@, msg@),
{
    let (x_prime, pk) = <G1 as BLSSigCore<ExpandMsgXmd<Sha256>>>::keygen(sk);
    let sig = <G1 as BLSSignaturePop<ExpandMsgXmd<Sha256>>>::sign(x_prime, msg);
    let ok = <G1 as BLSSignaturePop<ExpandMsgXmd<Sha256>>>::verify(pk, sig, msg);
    let mut buf = [0u8; 96];
    let _ = sig.serialize(&mut Cursor::new(&mut buf[..]), true);
    (buf.to_vec(), ok)
}

/// Relies on bls_sigs_ref's `BLSSigCore::keygen` and `BLSSignaturePop::sign` for
/// G1, pairing_plus's `SerDes::deserialize` with the compression flag
/// set, and G1's `PartialEq`: all deterministic functions of the bytes
/// given.
#[verifier::external_body]
pub(crate) fn sig_rt_probe_pop_g1(sk: &[u8], msg: &[u8], expected: &Vec<u8>) -> (r: Option<bool>)
    ensures
        r == sig_rt_pop_g1_of(sk@, msg@, expected@),
{
    let (x_prime, _pk) = <G1 as BLSSigCore<ExpandMsgXmd<Sha256>>>::keygen(sk);
    let sig = <G1 as BLSSignaturePop<ExpandMsgXmd<Sha256>>>::sign(x_prime, msg);
    match <G1 as SerDes>::deserialize(&mut Cursor::new(&expected[..]), true) {
        Ok(q) => Some(q == sig),
        Err(_) => None,
    }
}

/// Relies on bls_sigs_ref's `BLSSigCore::keygen`, `BLSSignaturePop::sign` and
/// `BLSSignaturePop::verify` for G2, and pairing_plus's `SerDes::serialize`: all
/// deterministic, and the write into the 96-byte buffer always succeeds at
/// G2's encoding size.
#[verifier::external_body]
pub(crate) fn sig_probe_pop_g2(sk: &[u8], msg: &[u8]) -> (r: (Vec<u8>, bool))
    ensures
        r.0@ == sig_ser_pop_g2_of(sk@, msg@),
        r.0@.len() == SER_BUF_LEN,
        r.1 == self_verify_pop_g2_of(sk@, msg@),
{
    let (x_prime, pk) = <G2 as BLSSigCore<ExpandMsgXmd<Sha256>>>::keygen(sk);
    let sig = <G2 as BLSSignaturePop<ExpandMsgXmd<Sha256>>>::sign(x_prime, msg);
    let ok = <G2 as BLSSignaturePop<ExpandMsgXmd<Sha256>>>::verify(pk, sig, msg);
    let mut buf = [0u8; 96];
    let _ = sig.serialize(&mut Cursor::new(&mut buf[..]), true);
    (buf.to_vec(), ok)
}

/// Relies on bls_sigs_ref's `BLSSigCore::keygen` and `BLSSignaturePop::sign` for
/// G2, pairing_plus's `SerDes::deserialize` with the compression flag
/// set, and G2's `PartialEq`: all deterministic functions of the bytes
/// given.
#[verifier::external_body]
pub(crate) fn sig_rt_probe_pop_g2(sk: &[u8], msg: &[u8], expected: &Vec<u8>) -> (r: Option<bool>)
    ensures
        r == sig_rt_pop_g2_of(sk@, msg@, expected@),
{
    let (x_prime, _pk) = <G2 as BLSSigCore<ExpandMsgXmd<Sha256>>>::keygen(sk);
    let sig = <G2 as BLSSignaturePop<ExpandMsgXmd<Sha256>>>::sign(x_prime, msg);
    match <G2 as SerDes>::deserialize(&mut Cursor::new(&expected[..]), true) {
        Ok(q) => Some(q == sig),
        Err(_) => None,
    }
}

/// Relies on bls_sigs_ref's `BLSSigCore::keygen`, `BLSSignaturePop::pop_prove`
/// and `BLSSignaturePop::pop_verify` for G1, and pairing_plus's
/// `SerDes::serialize`: all deterministic, and the write into the 96-byte
/// buffer always succeeds at G1's encoding size.
#[verifier::external_body]
pub(crate) fn pop_probe_g1(sk: &[u8]) -> (r: (Vec<u8>, bool))
    ensures
        r.0@ == pop_ser_g1_of(sk@),
        r.0@.len() == SER_BUF_LEN,
        r.1 == pop_self_g1_of(sk@),
{
    let (_x_prime, pk) = <G1 as BLSSigCore<ExpandMsgXmd<Sha256>>>::keygen(sk);
    let proof = <G1 as BLSSignaturePop<ExpandMsgXmd<Sha256>>>::pop_prove(sk);
    let ok = <G1 as BLSSignaturePop<ExpandMsgXmd<Sha256>>>::pop_verify(pk, proof);
    let mut buf = [0u8; 96];
    let _ = proof.serialize(&mut Cursor::new(&mut buf[..]), true);
    (buf.to_vec(), ok)
}

/// Relies on bls_sigs_ref's `BLSSignaturePop::pop_prove` for G1,
/// pairing_plus's `SerDes::deserialize` with the compression flag set, and
/// G1's `PartialEq`: all deterministic functions of the bytes given.
#[verifier::external_body]
pub(crate) fn pop_rt_probe_g1(sk: &[u8], expected: &Vec<u8>) -> (r: Option<bool>)
    ensures
        r == pop_rt_g1_of(sk@, expected@),
{
    let proof = <G1 as BLSSignaturePop<ExpandMsgXmd<Sha256>>>::pop_prove(sk);
    match <G1 as SerDes>::deserialize(&mut Cursor::new(&expected[..]), true) {
        Ok(q) => Some(q == proof),
        Err(_) => None,
    }
}

/// Relies on bls_sigs_ref's `BLSSigCore::keygen`, `BLSSignaturePop::pop_prove`
/// and `BLSSignaturePop::pop_verify` for G2, and pairing_plus's
/// `SerDes::serialize`: all deterministic, and the write into the 96-byte
/// buffer always succeeds at G2's encoding size.
#[verifier::external_body]
pub(crate) fn pop_probe_g2(sk: &[u8]) -> (r: (Vec<u8>, bool))
    ensures
        r.0@ == pop_ser_g2_of(sk@),
        r.0@.len() == SER_BUF_LEN,
        r.1 == pop_self_g2_of(sk@),
{
    let (_x_prime, pk) = <G2 as BLSSigCore<ExpandMsgXmd<Sha256>>>::keygen(sk);
    let proof = <G2 as BLSSignaturePop<ExpandMsgXmd<Sha256>>>::pop_prove(sk);
    let ok = <G2 as BLSSignaturePop<ExpandMsgXmd<Sha256>>>::pop_verify(pk, proof);
    let mut buf = [0u8; 96];
    let _ = proof.serialize(&mut Cursor::new(&mut buf[..]), true);
    (buf.to_vec(), ok)
}

/// Relies on bls_sigs_ref's `BLSSignaturePop::pop_prove` for G2,
/// pairing_plus's `SerDes::deserialize` with the compression flag set, and
/// G2's `PartialEq`: all deterministic functions of the bytes given.
#[verifier::external_body]
pub(crate) fn pop_rt_probe_g2(sk: &[u8], expected: &Vec<u8>) -> (r: Option<bool>)
    ensures
        r == pop_rt_g2_of(sk@, expected@),
{
    let proof = <G2 as BLSSignaturePop<ExpandMsgXmd<Sha256>>>::pop_prove(sk);
    match <G2 as SerDes>::deserialize(&mut Cursor::new(&expected[..]), true) {
        Ok(q) => Some(q == proof),
        Err(_) => None,
    }
}

/// Relies on bls_sigs_ref's `BLSSigCore::keygen`, `BLSSignatureBasic::sign`,
/// `BLSSigCore::aggregate` and `BLSSignatureBasic::aggregate_verify` for G1, chained
/// over the vectors in order: deterministic in their bytes alone.
#[verifier::external_body]
pub(crate) fn agg_verify_probe_basic_g1(tests: &Vec<TestVector>) -> (r: bool)
    ensures
        r == agg_verify_basic_g1_of(
            tests@.map(|j: int, t: TestVector| t@.sk),
            tests@.map(|j: int, t: TestVector| t@.msg),
        ),
{
    let mut sigs = Vec::new();
    let mut msgs = Vec::new();
    let mut pks = Vec::new();
    for t in tests.iter() {
        let (x_prime, pk) = <G1 as BLSSigCore<ExpandMsgXmd<Sha256>>>::keygen(&t.sk[..]);
        sigs.push(<G1 as BLSSignatureBasic<ExpandMsgXmd<Sha256>>>::sign(x_prime, &t.msg[..]));
        msgs.push(t.msg.clone());
        pks.push(pk);
    }
    let agg = <G1 as BLSSigCore<ExpandMsgXmd<Sha256>>>::aggregate(&sigs[..]);
    <G1 as BLSSignatureBasic<ExpandMsgXmd<Sha256>>>::aggregate_verify(&pks[..], &msgs[..], agg)
}

/// Relies on bls_sigs_ref's `BLSSigCore::keygen`, `BLSSignatureBasic::sign`,
/// `BLSSigCore::aggregate` and `BLSSignatureBasic::aggregate_verify` for G2, chained
/// over the vectors in order: deterministic in their bytes alone.
#[verifier::external_body]
pub(crate) fn agg_verify_probe_basic_g2(tests: &Vec<TestVector>) -> (r: bool)
    ensures
        r == agg_verify_basic_g2_of(
            tests@.map(|j: int, t: TestVector| t@.sk),
            tests@.map(|j: int, t: TestVector| t@.msg),
        ),
{
    let mut sigs = Vec::new();
    let mut msgs = Vec::new();
    let mut pks = Vec::new();
    for t in tests.iter() {
        let (x_prime, pk) = <G2 as BLSSigCore<ExpandMsgXmd<Sha256>>>::keygen(&t.sk[..]);
        sigs.push(<G2 as BLSSignatureBasic<ExpandMsgXmd<Sha256>>>::sign(x_prime, &t.msg[..]));
        msgs.push(t.msg.clone());
        pks.push(pk);
    }
    let agg = <G2 as BLSSigCore<ExpandMsgXmd<Sha256>>>::aggregate(&sigs[..]);
    <G2 as BLSSignatureBasic<ExpandMsgXmd<Sha256>>>::aggregate_verify(&pks[..], &msgs[..], agg)
}

/// Relies on bls_sigs_ref's `BLSSigCore::keygen`, `BLSSignatureAug::sign`,
/// `BLSSigCore::aggregate` and `BLSSignatureAug::aggregate_verify` for G1, chained
/// over the vectors in order: deterministic in their bytes alone.
#[verifier::external_body]
pub(crate) fn agg_verify_probe_aug_g1(tests: &Vec<TestVector>) -> (r: bool)
    ensures
        r == agg_verify_aug_g1_of(
            tests@.map(|j: int, t: TestVector| t@.sk),
            tests@.map(|j: int, t: TestVector| t@.msg),
        ),
{
    let mut sigs = Vec::new();
    let mut msgs = Vec::new();
    let mut pks = Vec::new();
    for t in tests.iter() {
        let (x_prime, pk) = <G1 as BLSSigCore<ExpandMsgXmd<Sha256>>>::keygen(&t.sk[..]);
        sigs.push(<G1 as BLSSignatureAug<ExpandMsgXmd<Sha256>>>::sign(x_prime, &t.msg[..]));
        msgs.push(t.msg.clone());
        pks.push(pk);
    }
    let agg = <G1 as BLSSigCore<ExpandMsgXmd<Sha256>>>::aggregate(&sigs[..]);
    <G1 as BLSSignatureAug<ExpandMsgXmd<Sha256>>>::aggregate_verify(&pks[..], &msgs[..], agg)
}

/// Relies on bls_sigs_ref's `BLSSigCore::keygen`, `BLSSignatureAug::sign`,
/// `BLSSigCore::aggregate` and `BLSSignatureAug::aggregate_verify` for G2, chained
/// over the vectors in order: deterministic in their bytes alone.
#[verifier::external_body]
pub(crate) fn agg_verify_probe_aug_g2(tests: &Vec<TestVector>) -> (r: bool)
    ensures
        r == agg_verify_aug_g2_of(
            tests@.map(|j: int, t: TestVector| t@.sk),
            tests@.map(|j: int, t: TestVector| t@.msg),
        ),
{
    let mut sigs = Vec::new();
    let mut msgs = Vec::new();
    let mut pks = Vec::new();
    for t in tests.iter() {
        let (x_prime, pk) = <G2 as BLSSigCore<ExpandMsgXmd<Sha256>>>::keygen(&t.sk[..]);
        sigs.push(<G2 as BLSSignatureAug<ExpandMsgXmd<Sha256>>>::sign(x_prime, &t.msg[..]));
        msgs.push(t.msg.clone());
        pks.push(pk);
    }
    let agg = <G2 as BLSSigCore<ExpandMsgXmd<Sha256>>>::aggregate(&sigs[..]);
    <G2 as BLSSignatureAug<ExpandMsgXmd<Sha256>>>::aggregate_verify(&pks[..], &msgs[..], agg)
}

/// Relies on bls_sigs_ref's `BLSSigCore::keygen`, `BLSSignaturePop::sign`,
/// `BLSSigCore::aggregate` and `BLSSignaturePop::aggregate_verify` for G1, chained
/// over the vectors in order: deterministic in their bytes alone.
#[verifier::external_body]
pub(crate) fn agg_verify_probe_pop_g1(tests: &Vec<TestVector>) -> (r: bool)
    ensures
        r == agg_verify_pop_g1_of(
            tests@.map(|j: int, t: TestVector| t@.sk),
            tests@.map(|j: int, t: TestVector| t@.msg),
        ),
{
    let mut sigs = Vec::new();
    let mut msgs = Vec::new();
    let mut pks = Vec::new();
    for t in tests.iter() {
        let (x_prime, pk) = <G1 as BLSSigCore<ExpandMsgXmd<Sha256>>>::keygen(&t.sk[..]);
        sigs.push(<G1 as BLSSignaturePop<ExpandMsgXmd<Sha256>>>::sign(x_prime, &t.msg[..]));
        msgs.push(t.msg.clone());
        pks.push(pk);
    }
    let agg = <G1 as BLSSigCore<ExpandMsgXmd<Sha256>>>::aggregate(&sigs[..]);
    <G1 as BLSSignaturePop<ExpandMsgXmd<Sha256>>>::aggregate_verify(&pks[..], &msgs[..], agg)
}

/// Relies on bls_sigs_ref's `BLSSigCore::keygen`, `BLSSignaturePop::sign`,
/// `BLSSigCore::aggregate` and `BLSSignaturePop::aggregate_verify` for G2, chained
/// over the vectors in order: deterministic in their bytes alone.
#[verifier::external_body]
pub(crate) fn agg_verify_probe_pop_g2(tests: &Vec<TestVector>) -> (r: bool)
    ensures
        r == agg_verify_pop_g2_of(
            tests@.map(|j: int, t: TestVector| t@.sk),
            tests@.map(|j: int, t: TestVector| t@.msg),
        ),
{
    let mut sigs = Vec::new();
    let mut msgs = Vec::new();
    let mut pks = Vec::new();
    for t in tests.iter() {
        let (x_prime, pk) = <G2 as BLSSigCore<ExpandMsgXmd<Sha256>>>::keygen(&t.sk[..]);
        sigs.push(<G2 as BLSSignaturePop<ExpandMsgXmd<Sha256>>>::sign(x_prime, &t.msg[..]));
        msgs.push(t.msg.clone());
        pks.push(pk);
    }
    let agg = <G2 as BLSSigCore<ExpandMsgXmd<Sha256>>>::aggregate(&sigs[..]);
    <G2 as BLSSignaturePop<ExpandMsgXmd<Sha256>>>::aggregate_verify(&pks[..], &msgs[..], agg)
}

/// Relies on bls_sigs_ref's `BLSSigCore::keygen`, `BLSSignaturePop::sign`,
/// `BLSSigCore::aggregate` and `BLSSignaturePop::multisig_verify` for G1,
/// chained over the vectors after the first, each signing the first
/// vector's message: deterministic in the bytes alone.
#[verifier::external_body]
pub(crate) fn multisig_probe_g1(tests: &Vec<TestVector>) -> (r: bool)
    requires
        tests@.len() >= 1,
    ensures
        r == multisig_g1_of(
            tests@[0]@.msg,
            tests@.subrange(1, tests@.len() as int).map(|j: int, t: TestVector| t@.sk),
        ),
{
    let msg = &tests[0].msg;
    let mut sigs = Vec::new();
    let mut pks = Vec::new();
    for t in tests.iter().skip(1) {
        let (x_prime, pk) = <G1 as BLSSigCore<ExpandMsgXmd<Sha256>>>::keygen(&t.sk[..]);
        sigs.push(<G1 as BLSSignaturePop<ExpandMsgXmd<Sha256>>>::sign(x_prime, &msg[..]));
        pks.push(pk);
    }
    let agg = <G1 as BLSSigCore<ExpandMsgXmd<Sha256>>>::aggregate(&sigs[..]);
    <G1 as BLSSignaturePop<ExpandMsgXmd<Sha256>>>::multisig_verify(&pks[..], agg, &msg[..])
}

/// Relies on bls_sigs_ref's `BLSSigCore::keygen`, `BLSSignaturePop::sign`,
/// `BLSSigCore::aggregate` and `BLSSignaturePop::multisig_verify` for G2,
/// chained over the vectors after the first, each signing the first
/// vector's message: deterministic in the bytes alone.
#[verifier::external_body]
pub(crate) fn multisig_probe_g2(tests: &Vec<TestVector>) -> (r: bool)
    requires
        tests@.len() >= 1,
    ensures
        r == multisig_g2_of(
            tests@[0]@.msg,
            tests@.subrange(1, tests@.len() as int).map(|j: int, t: TestVector| t@.sk),
        ),
{
    let msg = &tests[0].msg;
    let mut sigs = Vec::new();
    let mut pks = Vec::new();
    for t in tests.iter().skip(1) {
        let (x_prime, pk) = <G2 as BLSSigCore<ExpandMsgXmd<Sha256>>>::keygen(&t.sk[..]);
        sigs.push(<G2 as BLSSignaturePop<ExpandMsgXmd<Sha256>>>::sign(x_prime, &msg[..]));
        pks.push(pk);
    }
    let agg = <G2 as BLSSigCore<ExpandMsgXmd<Sha256>>>::aggregate(&sigs[..]);
    <G2 as BLSSignaturePop<ExpandMsgXmd<Sha256>>>::multisig_verify(&pks[..], agg, &msg[..])
}

} // verus!
