use bls_sigs_test::{
    bench_hash, bench_sig_basic_aggregate, bench_sig_basic_aggregate_verify,
    bench_sig_basic_sign, bench_sig_basic_verify, bench_sig_pop_aggregate_verify,
    bench_sig_pop_multisig_verify, bench_sig_pop_pop_verify, bench_sig_pop_prove,
    bench_sig_pop_verify, Group, TestVector,
};

use bls_sigs_ref::{BLSSigCore, BLSSignatureBasic};
use pairing_plus::bls12_381::G1;
use pairing_plus::hash_to_field::ExpandMsgXmd;
use sha2::Sha256;

type Xmd = ExpandMsgXmd<Sha256>;

fn tv(msg: &[u8], sk: &[u8]) -> TestVector {
    TestVector { msg: msg.to_vec(), sk: sk.to_vec(), expect: None }
}

const SK0: &[u8] = b"00000000000000000000000000000000";
const SK1: &[u8] = b"00000000000000000000000000000001";
const SK2: &[u8] = b"00000000000000000000000000000002";

#[test]
fn aggregate_is_order_independent_g1() {
    let (x0, pk0) = <G1 as BLSSigCore<Xmd>>::keygen(SK0);
    let (x1, pk1) = <G1 as BLSSigCore<Xmd>>::keygen(SK1);
    let m0: &[u8] = b"first message";
    let m1: &[u8] = b"second message";
    let s0 = <G1 as BLSSignatureBasic<Xmd>>::sign(x0, m0);
    let s1 = <G1 as BLSSignatureBasic<Xmd>>::sign(x1, m1);

    let agg_fwd = <G1 as BLSSigCore<Xmd>>::aggregate(&[s0, s1]);
    let agg_rev = <G1 as BLSSigCore<Xmd>>::aggregate(&[s1, s0]);
    assert_eq!(agg_fwd, agg_rev);

    assert!(<G1 as BLSSignatureBasic<Xmd>>::aggregate_verify(
        &[pk0, pk1],
        &[m0, m1],
        agg_fwd
    ));
    assert!(<G1 as BLSSignatureBasic<Xmd>>::aggregate_verify(
        &[pk1, pk0],
        &[m1, m0],
        agg_rev
    ));
}

#[test]
fn aggregate_verify_through_harness() {
    let tests = vec![tv(b"alpha", SK0), tv(b"beta", SK1)];
    assert!(bench_sig_basic_aggregate_verify(Group::G1, tests));
    let tests = vec![tv(b"alpha", SK0), tv(b"beta", SK1)];
    assert!(bench_sig_basic_aggregate_verify(Group::G2, tests));
}

#[test]
fn basic_aggregate_verify_rejects_repeated_messages() {
    let tests = vec![tv(b"same message", SK0), tv(b"same message", SK1)];
    assert!(!bench_sig_basic_aggregate_verify(Group::G1, tests));
}

#[test]
fn pop_aggregate_verify_tolerates_repeated_messages() {
    let tests = vec![tv(b"same message", SK0), tv(b"same message", SK1)];
    assert!(bench_sig_pop_aggregate_verify(Group::G1, tests));
}

#[test]
fn multisig_verify_shared_message() {
    let tests = vec![tv(b"reference", SK0), tv(b"ignored a", SK1), tv(b"ignored b", SK2)];
    assert!(bench_sig_pop_multisig_verify(Group::G1, tests));
    let tests = vec![tv(b"reference", SK0), tv(b"ignored a", SK1), tv(b"ignored b", SK2)];
    assert!(bench_sig_pop_multisig_verify(Group::G2, tests));
}

#[test]
fn multisig_verify_single_signer() {
    let tests = vec![tv(b"shared", SK0), tv(b"unused", SK1)];
    assert!(bench_sig_pop_multisig_verify(Group::G1, tests));
}

#[test]
fn bench_drivers_count_operations() {
    let cs: &[u8] = b"BLS_SIG_BLS12381G1_XMD:SHA-256_SSWU_RO_NUL_";
    let tests = vec![tv(b"one", SK0), tv(b"two", SK1)];
    assert_eq!(bench_hash(Group::G1, tests, cs), 2);
    let tests = vec![tv(b"one", SK0), tv(b"two", SK1)];
    assert_eq!(bench_sig_basic_sign(Group::G1, tests), 2);
    let tests = vec![tv(b"one", SK0)];
    assert_eq!(bench_sig_basic_verify(Group::G1, tests), 1);
    let tests = vec![tv(b"one", SK0), tv(b"two", SK1)];
    assert_eq!(bench_sig_basic_aggregate(Group::G1, tests), 2);
    let tests = vec![tv(b"one", SK0)];
    assert_eq!(bench_sig_pop_prove(Group::G1, tests), 1);
    let tests = vec![tv(b"one", SK0)];
    assert_eq!(bench_sig_pop_pop_verify(Group::G1, tests), 1);
    let tests = vec![tv(b"one", SK0)];
    assert_eq!(bench_sig_pop_verify(Group::G1, tests), 1);
}
