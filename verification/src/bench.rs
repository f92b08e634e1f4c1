use vstd::prelude::*;

use pairing_plus::bls12_381::G1;
use pairing_plus::bls12_381::G2;

use crate::checks::Group;
use crate::checks::Scheme;
use crate::checks::sign_g1;
use crate::checks::sign_g2;
use crate::checks::verify_g1;
use crate::checks::verify_g2;
use crate::curve::aggregate_g1;
use crate::curve::aggregate_g2;
use crate::curve::hash_g1;
use crate::curve::hash_g2;
use crate::curve::keygen_g1;
use crate::curve::keygen_g2;
use crate::curve::pop_prove_g1;
use crate::curve::pop_prove_g2;
use crate::curve::pop_verify_g1;
use crate::curve::pop_verify_g2;
use crate::probes::agg_verify_aug_g1_of;
use crate::probes::agg_verify_aug_g2_of;
use crate::probes::agg_verify_basic_g1_of;
use crate::probes::agg_verify_basic_g2_of;
use crate::probes::agg_verify_pop_g1_of;
use crate::probes::agg_verify_pop_g2_of;
use crate::probes::agg_verify_probe_aug_g1;
use crate::probes::agg_verify_probe_aug_g2;
use crate::probes::agg_verify_probe_basic_g1;
use crate::probes::agg_verify_probe_basic_g2;
use crate::probes::agg_verify_probe_pop_g1;
use crate::probes::agg_verify_probe_pop_g2;
use crate::probes::multisig_g1_of;
use crate::probes::multisig_g2_of;
use crate::probes::multisig_probe_g1;
use crate::probes::multisig_probe_g2;
use crate::vectors::TestVector;

verus! {

/// The aggregate-verification outcome over index-aligned secret-key and
/// message lists, by group and scheme.
pub open spec fn agg_verify_of(
    group: Group,
    scheme: Scheme,
    sks: Seq<Seq<u8>>,
    msgs: Seq<Seq<u8>>,
) -> bool {
    match (group, scheme) {
        (Group::G1, Scheme::Basic) => agg_verify_basic_g1_of(sks, msgs),
        (Group::G1, Scheme::Aug) => agg_verify_aug_g1_of(sks, msgs),
        (Group::G1, Scheme::Pop) => agg_verify_pop_g1_of(sks, msgs),
        (Group::G2, Scheme::Basic) => agg_verify_basic_g2_of(sks, msgs),
        (Group::G2, Scheme::Aug) => agg_verify_aug_g2_of(sks, msgs),
        (Group::G2, Scheme::Pop) => agg_verify_pop_g2_of(sks, msgs),
    }
}

/// The multi-signature outcome for one shared message and the listed
/// secret keys, by group.
pub open spec fn multisig_of(group: Group, msg: Seq<u8>, sks: Seq<Seq<u8>>) -> bool {
    match group {
        Group::G1 => multisig_g1_of(msg, sks),
        Group::G2 => multisig_g2_of(msg, sks),
    }
}

fn hash_loop_g1(tests: &Vec<TestVector>, ciphersuite: &[u8]) -> (n: usize)
    ensures
        n == tests@.len(),
{
    let mut i: usize = 0;
    while i < tests.len()
        invariant
            i <= tests@.len(),
        decreases tests@.len() - i,
    {
        let _p = hash_g1(tests[i].msg.as_slice(), ciphersuite);
        i = i + 1;
    }
    i
}

fn hash_loop_g2(tests: &Vec<TestVector>, ciphersuite: &[u8]) -> (n: usize)
    ensures
        n == tests@.len(),
{
    let mut i: usize = 0;
    while i < tests.len()
        invariant
            i <= tests@.len(),
        decreases tests@.len() - i,
    {
        let _p = hash_g2(tests[i].msg.as_slice(), ciphersuite);
        i = i + 1;
    }
    i
}

fn sign_loop_g1(scheme: Scheme, tests: &Vec<TestVector>) -> (n: usize)
    ensures
        n == tests@.len(),
{
    let mut i: usize = 0;
    while i < tests.len()
        invariant
            i <= tests@.len(),
        decreases tests@.len() - i,
    {
        let t = &tests[i];
        let (x_prime, _pk) = keygen_g1(t.sk.as_slice());
        let _sig = sign_g1(scheme, x_prime, t.msg.as_slice());
        i = i + 1;
    }
    i
}

fn sign_loop_g2(scheme: Scheme, tests: &Vec<TestVector>) -> (n: usize)
    ensures
        n == tests@.len(),
{
    let mut i: usize = 0;
    while i < tests.len()
        invariant
            i <= tests@.len(),
        decreases tests@.len() - i,
    {
        let t = &tests[i];
        let (x_prime, _pk) = keygen_g2(t.sk.as_slice());
        let _sig = sign_g2(scheme, x_prime, t.msg.as_slice());
        i = i + 1;
    }
    i
}

fn verify_loop_g1(scheme: Scheme, tests: &Vec<TestVector>) -> (n: usize)
    ensures
        n == tests@.len(),
{
    let mut i: usize = 0;
    while i < tests.len()
        invariant
            i <= tests@.len(),
        decreases tests@.len() - i,
    {
        let t = &tests[i];
        let (x_prime, pk) = keygen_g1(t.sk.as_slice());
        let sig = sign_g1(scheme, x_prime, t.msg.as_slice());
        let _ok = verify_g1(scheme, pk, sig, t.msg.as_slice());
        i = i + 1;
    }
    i
}

fn verify_loop_g2(scheme: Scheme, tests: &Vec<TestVector>) -> (n: usize)
    ensures
        n == tests@.len(),
{
    let mut i: usize = 0;
    while i < tests.len()
        invariant
            i <= tests@.len(),
        decreases tests@.len() - i,
    {
        let t = &tests[i];
        let (x_prime, pk) = keygen_g2(t.sk.as_slice());
        let sig = sign_g2(scheme, x_prime, t.msg.as_slice());
        let _ok = verify_g2(scheme, pk, sig, t.msg.as_slice());
        i = i + 1;
    }
    i
}

fn collect_sigs_g1(scheme: Scheme, tests: &Vec<TestVector>) -> (sigs: Vec<G1>)
    ensures
        sigs@.len() == tests@.len(),
{
    let mut sigs: Vec<G1> = Vec::new();
    let mut i: usize = 0;
    while i < tests.len()
        invariant
            i <= tests@.len(),
            sigs@.len() == i,
        decreases tests@.len() - i,
    {
        let t = &tests[i];
        let (x_prime, _pk) = keygen_g1(t.sk.as_slice());
        let sig = sign_g1(scheme, x_prime, t.msg.as_slice());
        sigs.push(sig);
        i = i + 1;
    }
    sigs
}

fn collect_sigs_g2(scheme: Scheme, tests: &Vec<TestVector>) -> (sigs: Vec<G2>)
    ensures
        sigs@.len() == tests@.len(),
{
    let mut sigs: Vec<G2> = Vec::new();
    let mut i: usize = 0;
    while i < tests.len()
        invariant
            i <= tests@.len(),
            sigs@.len() == i,
        decreases tests@.len() - i,
    {
        let t = &tests[i];
        let (x_prime, _pk) = keygen_g2(t.sk.as_slice());
        let sig = sign_g2(scheme, x_prime, t.msg.as_slice());
        sigs.push(sig);
        i = i + 1;
    }
    sigs
}

fn prove_loop_g1(tests: &Vec<TestVector>) -> (n: usize)
    ensures
        n == tests@.len(),
{
    let mut i: usize = 0;
    while i < tests.len()
        invariant
            i <= tests@.len(),
        decreases tests@.len() - i,
    {
        let _proof = pop_prove_g1(tests[i].sk.as_slice());
        i = i + 1;
    }
    i
}

fn prove_loop_g2(tests: &Vec<TestVector>) -> (n: usize)
    ensures
        n == tests@.len(),
{
    let mut i: usize = 0;
    while i < tests.len()
        invariant
            i <= tests@.len(),
        decreases tests@.len() - i,
    {
        let _proof = pop_prove_g2(tests[i].sk.as_slice());
        i = i + 1;
    }
    i
}

fn pop_verify_loop_g1(tests: &Vec<TestVector>) -> (n: usize)
    ensures
        n == tests@.len(),
{
    let mut i: usize = 0;
    while i < tests.len()
        invariant
            i <= tests@.len(),
        decreases tests@.len() - i,
    {
        let t = &tests[i];
        let proof = pop_prove_g1(t.sk.as_slice());
        let (_x_prime, pk) = keygen_g1(t.sk.as_slice());
        let _ok = pop_verify_g1(pk, proof);
        i = i + 1;
    }
    i
}

fn pop_verify_loop_g2(tests: &Vec<TestVector>) -> (n: usize)
    ensures
        n == tests@.len(),
{
    let mut i: usize = 0;
    while i < tests.len()
        invariant
            i <= tests@.len(),
        decreases tests@.len() - i,
    {
        let t = &tests[i];
        let proof = pop_prove_g2(t.sk.as_slice());
        let (_x_prime, pk) = keygen_g2(t.sk.as_slice());
        let _ok = pop_verify_g2(pk, proof);
        i = i + 1;
    }
    i
}

/// Drive the hash-to-curve primitive once per vector; returns how many
/// hashes were performed.
pub fn bench_hash(group: Group, tests: Vec<TestVector>, ciphersuite: &[u8]) -> (n: usize)
    ensures
        n == tests@.len(),
{
    match group {
        Group::G1 => hash_loop_g1(&tests, ciphersuite),
        Group::G2 => hash_loop_g2(&tests, ciphersuite),
    }
}

/// Drive Basic-scheme signing once per vector, deriving each key first;
/// returns how many signatures were produced.
pub fn bench_sig_basic_sign(group: Group, tests: Vec<TestVector>) -> (n: usize)
    ensures
        n == tests@.len(),
{
    match group {
        Group::G1 => sign_loop_g1(Scheme::Basic, &tests),
        Group::G2 => sign_loop_g2(Scheme::Basic, &tests),
    }
}

/// Drive Basic-scheme verification once per vector, deriving the key and
/// signature first; returns how many verifications were performed.
pub fn bench_sig_basic_verify(group: Group, tests: Vec<TestVector>) -> (n: usize)
    ensures
        n == tests@.len(),
{
    match group {
        Group::G1 => verify_loop_g1(Scheme::Basic, &tests),
        Group::G2 => verify_loop_g2(Scheme::Basic, &tests),
    }
}

/// Sign every vector under the Basic scheme and aggregate the signatures
/// once; returns how many signatures were aggregated.
pub fn bench_sig_basic_aggregate(group: Group, tests: Vec<TestVector>) -> (n: usize)
    ensures
        n == tests@.len(),
{
    match group {
        Group::G1 => {
            let sigs = collect_sigs_g1(Scheme::Basic, &tests);
            let _agg = aggregate_g1(&sigs);
            sigs.len()
        },
        Group::G2 => {
            let sigs = collect_sigs_g2(Scheme::Basic, &tests);
            let _agg = aggregate_g2(&sigs);
            sigs.len()
        },
    }
}

/// Sign every vector under the Basic scheme, aggregate, and run the
/// aggregate-verification predicate over the parallel key and message
/// lists; returns exactly that protocol's outcome on the vectors' bytes.
pub fn bench_sig_basic_aggregate_verify(group: Group, tests: Vec<TestVector>) -> (r: bool)
    ensures
        r == agg_verify_of(
            group,
            Scheme::Basic,
            tests@.map(|j: int, t: TestVector| t@.sk),
            tests@.map(|j: int, t: TestVector| t@.msg),
        ),
{
    match group {
        Group::G1 => agg_verify_probe_basic_g1(&tests),
        Group::G2 => agg_verify_probe_basic_g2(&tests),
    }
}

/// Drive Message-Augmentation signing once per vector; returns how many
/// signatures were produced.
pub fn bench_sig_aug_sign(group: Group, tests: Vec<TestVector>) -> (n: usize)
    ensures
        n == tests@.len(),
{
    match group {
        Group::G1 => sign_loop_g1(Scheme::Aug, &tests),
        Group::G2 => sign_loop_g2(Scheme::Aug, &tests),
    }
}

/// Drive Message-Augmentation verification once per vector; returns how
/// many verifications were performed.
pub fn bench_sig_aug_verify(group: Group, tests: Vec<TestVector>) -> (n: usize)
    ensures
        n == tests@.len(),
{
    match group {
        Group::G1 => verify_loop_g1(Scheme::Aug, &tests),
        Group::G2 => verify_loop_g2(Scheme::Aug, &tests),
    }
}

/// Sign every vector under the Message-Augmentation scheme and aggregate
/// once; returns how many signatures were aggregated.
pub fn bench_sig_aug_aggregate(group: Group, tests: Vec<TestVector>) -> (n: usize)
    ensures
        n == tests@.len(),
{
    match group {
        Group::G1 => {
            let sigs = collect_sigs_g1(Scheme::Aug, &tests);
            let _agg = aggregate_g1(&sigs);
            sigs.len()
        },
        Group::G2 => {
            let sigs = collect_sigs_g2(Scheme::Aug, &tests);
            let _agg = aggregate_g2(&sigs);
            sigs.len()
        },
    }
}

/// Sign every vector under the Message-Augmentation scheme, aggregate, and
/// run aggregate-verification; returns exactly that protocol's outcome on
/// the vectors' bytes.
pub fn bench_sig_aug_aggregate_verify(group: Group, tests: Vec<TestVector>) -> (r: bool)
    ensures
        r == agg_verify_of(
            group,
            Scheme::Aug,
            tests@.map(|j: int, t: TestVector| t@.sk),
            tests@.map(|j: int, t: TestVector| t@.msg),
        ),
{
    match group {
        Group::G1 => agg_verify_probe_aug_g1(&tests),
        Group::G2 => agg_verify_probe_aug_g2(&tests),
    }
}

/// Drive Proof-of-Possession-scheme signing once per vector; returns how
/// many signatures were produced.
pub fn bench_sig_pop_sign(group: Group, tests: Vec<TestVector>) -> (n: usize)
    ensures
        n == tests@.len(),
{
    match group {
        Group::G1 => sign_loop_g1(Scheme::Pop, &tests),
        Group::G2 => sign_loop_g2(Scheme::Pop, &tests),
    }
}

/// Drive Proof-of-Possession-scheme signature verification once per
/// vector, deriving the key and signature first; returns how many
/// verifications were performed.
pub fn bench_sig_pop_verify(group: Group, tests: Vec<TestVector>) -> (n: usize)
    ensures
        n == tests@.len(),
{
    match group {
        Group::G1 => verify_loop_g1(Scheme::Pop, &tests),
        Group::G2 => verify_loop_g2(Scheme::Pop, &tests),
    }
}

/// Sign every vector under the Proof-of-Possession scheme and aggregate
/// once; returns how many signatures were aggregated.
pub fn bench_sig_pop_aggregate(group: Group, tests: Vec<TestVector>) -> (n: usize)
    ensures
        n == tests@.len(),
{
    match group {
        Group::G1 => {
            let sigs = collect_sigs_g1(Scheme::Pop, &tests);
            let _agg = aggregate_g1(&sigs);
            sigs.len()
        },
        Group::G2 => {
            let sigs = collect_sigs_g2(Scheme::Pop, &tests);
            let _agg = aggregate_g2(&sigs);
            sigs.len()
        },
    }
}

/// Sign every vector under the Proof-of-Possession scheme, aggregate, and
/// run aggregate-verification; returns exactly that protocol's outcome on
/// the vectors' bytes.
pub fn bench_sig_pop_aggregate_verify(group: Group, tests: Vec<TestVector>) -> (r: bool)
    ensures
        r == agg_verify_of(
            group,
            Scheme::Pop,
            tests@.map(|j: int, t: TestVector| t@.sk),
            tests@.map(|j: int, t: TestVector| t@.msg),
        ),
{
    match group {
        Group::G1 => agg_verify_probe_pop_g1(&tests),
        Group::G2 => agg_verify_probe_pop_g2(&tests),
    }
}

/// Multi-signature protocol: the first vector's message is the shared
/// reference; every other vector's key signs it; the signatures are
/// aggregated and checked against the all-but-first public keys with the
/// multi-signature predicate, whose exact outcome on those bytes is
/// returned.
pub fn bench_sig_pop_multisig_verify(group: Group, tests: Vec<TestVector>) -> (r: bool)
    requires
        tests@.len() >= 1,
    ensures
        r == multisig_of(
            group,
            tests@[0]@.msg,
            tests@.subrange(1, tests@.len() as int).map(|j: int, t: TestVector| t@.sk),
        ),
{
    match group {
        Group::G1 => multisig_probe_g1(&tests),
        Group::G2 => multisig_probe_g2(&tests),
    }
}

/// Drive possession-proof production once per vector; returns how many
/// proofs were produced.
pub fn bench_sig_pop_prove(group: Group, tests: Vec<TestVector>) -> (n: usize)
    ensures
        n == tests@.len(),
{
    match group {
        Group::G1 => prove_loop_g1(&tests),
        Group::G2 => prove_loop_g2(&tests),
    }
}

/// Drive possession-proof verification once per vector against a freshly
/// produced proof; returns how many verifications were performed.
pub fn bench_sig_pop_pop_verify(group: Group, tests: Vec<TestVector>) -> (n: usize)
    ensures
        n == tests@.len(),
{
    match group {
        Group::G1 => pop_verify_loop_g1(&tests),
        Group::G2 => pop_verify_loop_g2(&tests),
    }
}

} // verus!
