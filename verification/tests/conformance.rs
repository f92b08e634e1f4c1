use bls_sigs_test::{
    test_hash, test_pop, test_sig_aug, test_sig_basic, test_sig_pop, CheckError, Group, TestVector,
};
use bls_sigs_test::judge::judge_vector;

use bls_sigs_ref::{BLSSigCore, BLSSignatureBasic};
use pairing_plus::bls12_381::{G1, G2};
use pairing_plus::hash_to_curve::HashToCurve;
use pairing_plus::hash_to_field::ExpandMsgXmd;
use pairing_plus::serdes::SerDes;
use sha2::Sha256;
use std::io::Cursor;

fn tv(msg: &[u8], sk: &[u8], expect: Option<Vec<u8>>) -> TestVector {
    TestVector { msg: msg.to_vec(), sk: sk.to_vec(), expect }
}

fn ser96_g1(p: &G1) -> Vec<u8> {
    let mut buf = [0u8; 96];
    {
        let mut cur = Cursor::new(&mut buf[..]);
        p.serialize(&mut cur, true).unwrap();
    }
    buf.to_vec()
}

fn ser96_g2(p: &G2) -> Vec<u8> {
    let mut buf = [0u8; 96];
    {
        let mut cur = Cursor::new(&mut buf[..]);
        p.serialize(&mut cur, true).unwrap();
    }
    buf.to_vec()
}

const SK0: &[u8] = b"00000000000000000000000000000000";
const SK1: &[u8] = b"00000000000000000000000000000001";

#[test]
fn sig_basic_self_consistency_g1() {
    let tests = vec![tv(b"hello", SK0, None), tv(b"world", SK1, None)];
    assert_eq!(test_sig_basic(Group::G1, tests, 48), Ok(()));
}

#[test]
fn sig_basic_self_consistency_g2() {
    let tests = vec![tv(b"hello", SK0, None)];
    assert_eq!(test_sig_basic(Group::G2, tests, 96), Ok(()));
}

#[test]
fn sig_aug_self_consistency() {
    let tests = vec![tv(b"augmented", SK0, None)];
    assert_eq!(test_sig_aug(Group::G1, tests, 48), Ok(()));
    let tests = vec![tv(b"augmented", SK1, None)];
    assert_eq!(test_sig_aug(Group::G2, tests, 96), Ok(()));
}

#[test]
fn sig_pop_self_consistency() {
    let tests = vec![tv(b"possession", SK0, None)];
    assert_eq!(test_sig_pop(Group::G1, tests, 48), Ok(()));
    let tests = vec![tv(b"possession", SK1, None)];
    assert_eq!(test_sig_pop(Group::G2, tests, 96), Ok(()));
}

#[test]
fn pop_proof_self_consistency() {
    let tests = vec![tv(b"", SK0, None), tv(b"", SK1, None)];
    assert_eq!(test_pop(Group::G1, tests, 48), Ok(()));
    let tests = vec![tv(b"", SK0, None)];
    assert_eq!(test_pop(Group::G2, tests, 96), Ok(()));
}

#[test]
fn sig_basic_byte_exact_g1() {
    let msg: &[u8] = b"byte exact";
    let (x_prime, _pk) = <G1 as BLSSigCore<ExpandMsgXmd<Sha256>>>::keygen(SK0);
    let sig = <G1 as BLSSignatureBasic<ExpandMsgXmd<Sha256>>>::sign(x_prime, msg);
    let expect = ser96_g1(&sig)[..48].to_vec();
    let tests = vec![tv(msg, SK0, Some(expect))];
    assert_eq!(test_sig_basic(Group::G1, tests, 48), Ok(()));
}

#[test]
fn sig_basic_byte_exact_g2() {
    let msg: &[u8] = b"byte exact";
    let (x_prime, _pk) = <G2 as BLSSigCore<ExpandMsgXmd<Sha256>>>::keygen(SK0);
    let sig = <G2 as bls_sigs_ref::BLSSignatureBasic<ExpandMsgXmd<Sha256>>>::sign(x_prime, msg);
    let expect = ser96_g2(&sig);
    let tests = vec![tv(msg, SK0, Some(expect))];
    assert_eq!(test_sig_basic(Group::G2, tests, 96), Ok(()));
}

#[test]
fn sig_basic_mutated_expected_fails() {
    let msg: &[u8] = b"sensitive";
    let (x_prime, _pk) = <G1 as BLSSigCore<ExpandMsgXmd<Sha256>>>::keygen(SK1);
    let sig = <G1 as BLSSignatureBasic<ExpandMsgXmd<Sha256>>>::sign(x_prime, msg);
    let mut expect = ser96_g1(&sig)[..48].to_vec();
    expect[7] ^= 0x01;
    let tests = vec![tv(b"other", SK0, None), tv(msg, SK1, Some(expect))];
    let r = test_sig_basic(Group::G1, tests, 48);
    let f = r.unwrap_err();
    assert_eq!(f.index, 1);
    assert_eq!(f.error, CheckError::EncodingMismatch);
}

#[test]
fn hash_byte_exact_g1() {
    let msg: &[u8] = b"hash me";
    let cs: &[u8] = b"BLS_SIG_BLS12381G1_XMD:SHA-256_SSWU_RO_NUL_";
    let p = <G1 as HashToCurve<ExpandMsgXmd<Sha256>>>::hash_to_curve(msg, cs);
    let expect = ser96_g1(&p)[..48].to_vec();
    let tests = vec![tv(msg, b"", Some(expect))];
    assert_eq!(test_hash(Group::G1, tests, cs, 48), Ok(()));
}

#[test]
fn hash_byte_exact_g2() {
    let msg: &[u8] = b"hash me too";
    let cs: &[u8] = b"BLS_SIG_BLS12381G2_XMD:SHA-256_SSWU_RO_NUL_";
    let p = <G2 as HashToCurve<ExpandMsgXmd<Sha256>>>::hash_to_curve(msg, cs);
    let expect = ser96_g2(&p);
    let tests = vec![tv(msg, b"", Some(expect))];
    assert_eq!(test_hash(Group::G2, tests, cs, 96), Ok(()));
}

#[test]
fn hash_unpinned_passes() {
    let cs: &[u8] = b"BLS_SIG_BLS12381G1_XMD:SHA-256_SSWU_RO_NUL_";
    let tests = vec![tv(b"anything", b"", None), tv(b"at all", b"", None)];
    assert_eq!(test_hash(Group::G1, tests, cs, 48), Ok(()));
}

#[test]
fn hash_mutated_expected_fails() {
    let msg: &[u8] = b"hash sensitivity";
    let cs: &[u8] = b"BLS_SIG_BLS12381G1_XMD:SHA-256_SSWU_RO_NUL_";
    let p = <G1 as HashToCurve<ExpandMsgXmd<Sha256>>>::hash_to_curve(msg, cs);
    let mut expect = ser96_g1(&p)[..48].to_vec();
    expect[47] = expect[47].wrapping_add(1);
    let tests = vec![tv(msg, b"", Some(expect))];
    let f = test_hash(Group::G1, tests, cs, 48).unwrap_err();
    assert_eq!(f.index, 0);
    assert_eq!(f.error, CheckError::EncodingMismatch);
}

#[test]
fn short_expected_gives_io_failure() {
    let msg: &[u8] = b"short expected";
    let (x_prime, _pk) = <G1 as BLSSigCore<ExpandMsgXmd<Sha256>>>::keygen(SK0);
    let sig = <G1 as BLSSignatureBasic<ExpandMsgXmd<Sha256>>>::sign(x_prime, msg);
    let expect = ser96_g1(&sig)[..10].to_vec();
    let tests = vec![tv(msg, SK0, Some(expect))];
    let f = test_sig_basic(Group::G1, tests, 10).unwrap_err();
    assert_eq!(f.index, 0);
    assert_eq!(f.error, CheckError::IoFailure);
}

#[test]
fn pop_proof_byte_exact_g1() {
    let proof = <G1 as bls_sigs_ref::BLSSignaturePop<ExpandMsgXmd<Sha256>>>::pop_prove(SK1);
    let expect = ser96_g1(&proof)[..48].to_vec();
    let tests = vec![tv(b"unused", SK1, Some(expect))];
    assert_eq!(test_pop(Group::G1, tests, 48), Ok(()));
}

#[test]
fn empty_vector_group_passes() {
    let cs: &[u8] = b"BLS_SIG_BLS12381G1_XMD:SHA-256_SSWU_RO_NUL_";
    assert_eq!(test_hash(Group::G1, Vec::new(), cs, 48), Ok(()));
    assert_eq!(test_sig_basic(Group::G1, Vec::new(), 48), Ok(()));
    assert_eq!(test_sig_aug(Group::G2, Vec::new(), 96), Ok(()));
    assert_eq!(test_sig_pop(Group::G2, Vec::new(), 96), Ok(()));
    assert_eq!(test_pop(Group::G1, Vec::new(), 48), Ok(()));
}

#[test]
fn judge_reports_self_verification_failure() {
    let r = judge_vector(
        &None,
        false,
        CheckError::SelfVerificationFailed,
        &None,
        false,
        false,
        48,
    );
    assert_eq!(r, Some(CheckError::SelfVerificationFailed));
}

#[test]
fn judge_reports_pop_self_verification_failure() {
    let r = judge_vector(
        &Some(vec![1u8, 2, 3]),
        false,
        CheckError::PopSelfVerificationFailed,
        &None,
        false,
        false,
        48,
    );
    assert_eq!(r, Some(CheckError::PopSelfVerificationFailed));
}

#[test]
fn judge_reports_round_trip_mismatch() {
    let buf = vec![5u8; 96];
    let expect = vec![5u8; 48];
    let r = judge_vector(
        &Some(expect),
        true,
        CheckError::SelfVerificationFailed,
        &Some(buf),
        true,
        false,
        48,
    );
    assert_eq!(r, Some(CheckError::RoundTripMismatch));
}

#[test]
fn judge_reports_serialization_io_failure() {
    let r = judge_vector(
        &Some(vec![0u8; 48]),
        true,
        CheckError::SelfVerificationFailed,
        &None,
        false,
        false,
        48,
    );
    assert_eq!(r, Some(CheckError::IoFailure));
}

#[test]
fn judge_passes_unpinned_vector() {
    let r = judge_vector(
        &None,
        true,
        CheckError::SelfVerificationFailed,
        &None,
        false,
        false,
        48,
    );
    assert_eq!(r, None);
}

#[test]
fn judge_passes_exact_match() {
    let mut buf = vec![0u8; 96];
    for (i, b) in buf.iter_mut().enumerate() {
        *b = i as u8;
    }
    let expect = buf[..48].to_vec();
    let r = judge_vector(
        &Some(expect),
        true,
        CheckError::SelfVerificationFailed,
        &Some(buf),
        true,
        true,
        48,
    );
    assert_eq!(r, None);
}
