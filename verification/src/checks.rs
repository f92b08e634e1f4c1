use vstd::prelude::*;

use pairing_plus::bls12_381::Fr;
use pairing_plus::bls12_381::G1;
use pairing_plus::bls12_381::G2;

use crate::curve::SER_BUF_LEN;
use crate::curve::sign_aug_g1;
use crate::curve::sign_aug_g2;
use crate::curve::sign_basic_g1;
use crate::curve::sign_basic_g2;
use crate::curve::sign_pop_g1;
use crate::curve::sign_pop_g2;
use crate::curve::verify_aug_g1;
use crate::curve::verify_aug_g2;
use crate::curve::verify_basic_g1;
use crate::curve::verify_basic_g2;
use crate::curve::verify_pop_scheme_g1;
use crate::curve::verify_pop_scheme_g2;
use crate::judge::judge_vector;
use crate::judge::vector_verdict;
use crate::outcome::CheckError;
use crate::outcome::CheckFailure;
use crate::probes::hash_probe_g1;
use crate::probes::hash_probe_g2;
use crate::probes::hash_rt_g1_of;
use crate::probes::hash_rt_g2_of;
use crate::probes::hash_rt_probe_g1;
use crate::probes::hash_rt_probe_g2;
use crate::probes::hash_ser_g1_of;
use crate::probes::hash_ser_g2_of;
use crate::probes::pop_probe_g1;
use crate::probes::pop_probe_g2;
use crate::probes::pop_rt_g1_of;
use crate::probes::pop_rt_g2_of;
use crate::probes::pop_rt_probe_g1;
use crate::probes::pop_rt_probe_g2;
use crate::probes::pop_self_g1_of;
use crate::probes::pop_self_g2_of;
use crate::probes::pop_ser_g1_of;
use crate::probes::pop_ser_g2_of;
use crate::probes::self_verify_aug_g1_of;
use crate::probes::self_verify_aug_g2_of;
use crate::probes::self_verify_basic_g1_of;
use crate::probes::self_verify_basic_g2_of;
use crate::probes::self_verify_pop_g1_of;
use crate::probes::self_verify_pop_g2_of;
use crate::probes::sig_probe_aug_g1;
use crate::probes::sig_probe_aug_g2;
use crate::probes::sig_probe_basic_g1;
use crate::probes::sig_probe_basic_g2;
use crate::probes::sig_probe_pop_g1;
use crate::probes::sig_probe_pop_g2;
use crate::probes::sig_rt_aug_g1_of;
use crate::probes::sig_rt_aug_g2_of;
use crate::probes::sig_rt_basic_g1_of;
use crate::probes::sig_rt_basic_g2_of;
use crate::probes::sig_rt_pop_g1_of;
use crate::probes::sig_rt_pop_g2_of;
use crate::probes::sig_rt_probe_aug_g1;
use crate::probes::sig_rt_probe_aug_g2;
use crate::probes::sig_rt_probe_basic_g1;
use crate::probes::sig_rt_probe_basic_g2;
use crate::probes::sig_rt_probe_pop_g1;
use crate::probes::sig_rt_probe_pop_g2;
use crate::probes::sig_ser_aug_g1_of;
use crate::probes::sig_ser_aug_g2_of;
use crate::probes::sig_ser_basic_g1_of;
use crate::probes::sig_ser_basic_g2_of;
use crate::probes::sig_ser_pop_g1_of;
use crate::probes::sig_ser_pop_g2_of;
use crate::vectors::TestVector;
use crate::vectors::TestVectorView;

verus! {

/// Which BLS12-381 group signatures live in. Public keys live in the other
/// group.
#[derive(Clone, Copy, Debug, PartialEq, Eq, Structural)]
pub enum Group {
    /// Signatures in G1, public keys in G2.
    G1,
    /// Signatures in G2, public keys in G1.
    G2,
}

/// Which signature-scheme variant is under test.
#[derive(Clone, Copy, Debug, PartialEq, Eq, Structural)]
pub enum Scheme {
    /// Plain signing; aggregation requires pairwise-distinct messages.
    Basic,
    /// Each signature binds the public key into the signed payload.
    Aug,
    /// Plain signing plus a proof of possession per key.
    Pop,
}

/// The serialized hash of a message, by group.
pub open spec fn hash_ser_of(group: Group, msg: Seq<u8>, ciphersuite: Seq<u8>) -> Seq<u8> {
    match group {
        Group::G1 => hash_ser_g1_of(msg, ciphersuite),
        Group::G2 => hash_ser_g2_of(msg, ciphersuite),
    }
}

/// The round-trip outcome for a hashed message, by group.
pub open spec fn hash_rt_of(group: Group, msg: Seq<u8>, ciphersuite: Seq<u8>, e: Seq<u8>) -> Option<
    bool,
> {
    match group {
        Group::G1 => hash_rt_g1_of(msg, ciphersuite, e),
        Group::G2 => hash_rt_g2_of(msg, ciphersuite, e),
    }
}

/// The serialized signature derived from a vector, by group and scheme.
pub open spec fn sig_ser_of(group: Group, scheme: Scheme, sk: Seq<u8>, msg: Seq<u8>) -> Seq<u8> {
    match (group, scheme) {
        (Group::G1, Scheme::Basic) => sig_ser_basic_g1_of(sk, msg),
        (Group::G1, Scheme::Aug) => sig_ser_aug_g1_of(sk, msg),
        (Group::G1, Scheme::Pop) => sig_ser_pop_g1_of(sk, msg),
        (Group::G2, Scheme::Basic) => sig_ser_basic_g2_of(sk, msg),
        (Group::G2, Scheme::Aug) => sig_ser_aug_g2_of(sk, msg),
        (Group::G2, Scheme::Pop) => sig_ser_pop_g2_of(sk, msg),
    }
}

/// The self-verification outcome of a vector's fresh signature, by group
/// and scheme.
pub open spec fn self_verify_of(group: Group, scheme: Scheme, sk: Seq<u8>, msg: Seq<u8>) -> bool {
    match (group, scheme) {
        (Group::G1, Scheme::Basic) => self_verify_basic_g1_of(sk, msg),
        (Group::G1, Scheme::Aug) => self_verify_aug_g1_of(sk, msg),
        (Group::G1, Scheme::Pop) => self_verify_pop_g1_of(sk, msg),
        (Group::G2, Scheme::Basic) => self_verify_basic_g2_of(sk, msg),
        (Group::G2, Scheme::Aug) => self_verify_aug_g2_of(sk, msg),
        (Group::G2, Scheme::Pop) => self_verify_pop_g2_of(sk, msg),
    }
}

/// The round-trip outcome for a vector's signature, by group and scheme.
pub open spec fn sig_rt_of(
    group: Group,
    scheme: Scheme,
    sk: Seq<u8>,
    msg: Seq<u8>,
    e: Seq<u8>,
) -> Option<bool> {
    match (group, scheme) {
        (Group::G1, Scheme::Basic) => sig_rt_basic_g1_of(sk, msg, e),
        (Group::G1, Scheme::Aug) => sig_rt_aug_g1_of(sk, msg, e),
        (Group::G1, Scheme::Pop) => sig_rt_pop_g1_of(sk, msg, e),
        (Group::G2, Scheme::Basic) => sig_rt_basic_g2_of(sk, msg, e),
        (Group::G2, Scheme::Aug) => sig_rt_aug_g2_of(sk, msg, e),
        (Group::G2, Scheme::Pop) => sig_rt_pop_g2_of(sk, msg, e),
    }
}

/// The serialized possession proof for a vector's secret key, by group.
pub open spec fn pop_ser_of(group: Group, sk: Seq<u8>) -> Seq<u8> {
    match group {
        Group::G1 => pop_ser_g1_of(sk),
        Group::G2 => pop_ser_g2_of(sk),
    }
}

/// The self-verification outcome of a vector's possession proof, by group.
pub open spec fn pop_self_of(group: Group, sk: Seq<u8>) -> bool {
    match group {
        Group::G1 => pop_self_g1_of(sk),
        Group::G2 => pop_self_g2_of(sk),
    }
}

/// The round-trip outcome for a vector's possession proof, by group.
pub open spec fn pop_rt_of(group: Group, sk: Seq<u8>, e: Seq<u8>) -> Option<bool> {
    match group {
        Group::G1 => pop_rt_g1_of(sk, e),
        Group::G2 => pop_rt_g2_of(sk, e),
    }
}

/// The verdict the hash check passes on one vector: the gates of
/// `vector_verdict` applied to the vector's hash serialization and
/// round-trip outcomes (the hash check has no self-verification gate).
pub open spec fn hash_verdict(
    group: Group,
    v: TestVectorView,
    ciphersuite: Seq<u8>,
    len: int,
) -> Option<CheckError> {
    let rt = match v.expect {
        Option::Some(e) => hash_rt_of(group, v.msg, ciphersuite, e),
        Option::None => Option::None,
    };
    vector_verdict(
        v.expect,
        true,
        CheckError::SelfVerificationFailed,
        Option::Some(hash_ser_of(group, v.msg, ciphersuite)),
        rt is Some,
        rt == Option::Some(true),
        len,
    )
}

/// The verdict a signature check passes on one vector: the gates of
/// `vector_verdict` applied to the vector's self-verification, signature
/// serialization and round-trip outcomes.
pub open spec fn sig_verdict(group: Group, scheme: Scheme, v: TestVectorView, len: int) -> Option<
    CheckError,
> {
    let rt = match v.expect {
        Option::Some(e) => sig_rt_of(group, scheme, v.sk, v.msg, e),
        Option::None => Option::None,
    };
    vector_verdict(
        v.expect,
        self_verify_of(group, scheme, v.sk, v.msg),
        CheckError::SelfVerificationFailed,
        Option::Some(sig_ser_of(group, scheme, v.sk, v.msg)),
        rt is Some,
        rt == Option::Some(true),
        len,
    )
}

/// The verdict the possession-proof check passes on one vector: the gates
/// of `vector_verdict` applied to the vector's proof self-verification,
/// proof serialization and round-trip outcomes.
pub open spec fn pop_verdict(group: Group, v: TestVectorView, len: int) -> Option<CheckError> {
    let rt = match v.expect {
        Option::Some(e) => pop_rt_of(group, v.sk, e),
        Option::None => Option::None,
    };
    vector_verdict(
        v.expect,
        pop_self_of(group, v.sk),
        CheckError::PopSelfVerificationFailed,
        Option::Some(pop_ser_of(group, v.sk)),
        rt is Some,
        rt == Option::Some(true),
        len,
    )
}

/// A clean signature verdict on a vector with pinned expected bytes
/// certifies all three laws for that vector: the fresh signature verified
/// under its own public key, the expected bytes are exactly the first
/// `len` bytes of the signature's serialization, and they deserialize back
/// to a value equal to the fresh signature.
pub proof fn lemma_clean_sig_verdict_certifies_laws(
    group: Group,
    scheme: Scheme,
    v: TestVectorView,
    len: int,
    e: Seq<u8>,
)
    requires
        sig_verdict(group, scheme, v, len) is None,
        v.expect == Option::Some(e),
    ensures
        self_verify_of(group, scheme, v.sk, v.msg),
        e == sig_ser_of(group, scheme, v.sk, v.msg).subrange(0, len),
        sig_rt_of(group, scheme, v.sk, v.msg, e) == Option::Some(true),
{
}

pub(crate) fn sign_g1(scheme: Scheme, x_prime: Fr, msg: &[u8]) -> G1 {
    match scheme {
        Scheme::Basic => sign_basic_g1(x_prime, msg),
        Scheme::Aug => sign_aug_g1(x_prime, msg),
        Scheme::Pop => sign_pop_g1(x_prime, msg),
    }
}

pub(crate) fn sign_g2(scheme: Scheme, x_prime: Fr, msg: &[u8]) -> G2 {
    match scheme {
        Scheme::Basic => sign_basic_g2(x_prime, msg),
        Scheme::Aug => sign_aug_g2(x_prime, msg),
        Scheme::Pop => sign_pop_g2(x_prime, msg),
    }
}

pub(crate) fn verify_g1(scheme: Scheme, pk: G2, sig: G1, msg: &[u8]) -> bool {
    match scheme {
        Scheme::Basic => verify_basic_g1(pk, sig, msg),
        Scheme::Aug => verify_aug_g1(pk, sig, msg),
        Scheme::Pop => verify_pop_scheme_g1(pk, sig, msg),
    }
}

pub(crate) fn verify_g2(scheme: Scheme, pk: G1, sig: G2, msg: &[u8]) -> bool {
    match scheme {
        Scheme::Basic => verify_basic_g2(pk, sig, msg),
        Scheme::Aug => verify_aug_g2(pk, sig, msg),
        Scheme::Pop => verify_pop_scheme_g2(pk, sig, msg),
    }
}

fn hash_probe(group: Group, msg: &[u8], ciphersuite: &[u8]) -> (r: Vec<u8>)
    ensures
        r@ == hash_ser_of(group, msg@, ciphersuite@),
        r@.len() == SER_BUF_LEN,
{
    match group {
        Group::G1 => hash_probe_g1(msg, ciphersuite),
        Group::G2 => hash_probe_g2(msg, ciphersuite),
    }
}

fn hash_rt_probe(group: Group, msg: &[u8], ciphersuite: &[u8], expected: &Vec<u8>) -> (r: Option<
    bool,
>)
    ensures
        r == hash_rt_of(group, msg@, ciphersuite@, expected@),
{
    match group {
        Group::G1 => hash_rt_probe_g1(msg, ciphersuite, expected),
        Group::G2 => hash_rt_probe_g2(msg, ciphersuite, expected),
    }
}

fn sig_probe(group: Group, scheme: Scheme, sk: &[u8], msg: &[u8]) -> (r: (Vec<u8>, bool))
    ensures
        r.0@ == sig_ser_of(group, scheme, sk@, msg@),
        r.0@.len() == SER_BUF_LEN,
        r.1 == self_verify_of(group, scheme, sk@, msg@),
{
    match (group, scheme) {
        (Group::G1, Scheme::Basic) => sig_probe_basic_g1(sk, msg),
        (Group::G1, Scheme::Aug) => sig_probe_aug_g1(sk, msg),
        (Group::G1, Scheme::Pop) => sig_probe_pop_g1(sk, msg),
        (Group::G2, Scheme::Basic) => sig_probe_basic_g2(sk, msg),
        (Group::G2, Scheme::Aug) => sig_probe_aug_g2(sk, msg),
        (Group::G2, Scheme::Pop) => sig_probe_pop_g2(sk, msg),
    }
}

fn sig_rt_probe(group: Group, scheme: Scheme, sk: &[u8], msg: &[u8], expected: &Vec<u8>) -> (r:
    Option<bool>)
    ensures
        r == sig_rt_of(group, scheme, sk@, msg@, expected@),
{
    match (group, scheme) {
        (Group::G1, Scheme::Basic) => sig_rt_probe_basic_g1(sk, msg, expected),
        (Group::G1, Scheme::Aug) => sig_rt_probe_aug_g1(sk, msg, expected),
        (Group::G1, Scheme::Pop) => sig_rt_probe_pop_g1(sk, msg, expected),
        (Group::G2, Scheme::Basic) => sig_rt_probe_basic_g2(sk, msg, expected),
        (Group::G2, Scheme::Aug) => sig_rt_probe_aug_g2(sk, msg, expected),
        (Group::G2, Scheme::Pop) => sig_rt_probe_pop_g2(sk, msg, expected),
    }
}

fn pop_probe(group: Group, sk: &[u8]) -> (r: (Vec<u8>, bool))
    ensures
        r.0@ == pop_ser_of(group, sk@),
        r.0@.len() == SER_BUF_LEN,
        r.1 == pop_self_of(group, sk@),
{
    match group {
        Group::G1 => pop_probe_g1(sk),
        Group::G2 => pop_probe_g2(sk),
    }
}

fn pop_rt_probe(group: Group, sk: &[u8], expected: &Vec<u8>) -> (r: Option<bool>)
    ensures
        r == pop_rt_of(group, sk@, expected@),
{
    match group {
        Group::G1 => pop_rt_probe_g1(sk, expected),
        Group::G2 => pop_rt_probe_g2(sk, expected),
    }
}

/// Check that hashing each vector's message to the curve reproduces the
/// expected encoding: the computed point must serialize (compressed) to the
/// first `len` expected bytes exactly, and the expected bytes must
/// deserialize back to the computed point. Vectors that pin no expected
/// bytes pass with no further gate. `Ok` holds exactly when every vector's
/// `hash_verdict` is clean; `Err` names the first failing vector and its
/// verdict.
pub fn test_hash(group: Group, tests: Vec<TestVector>, ciphersuite: &[u8], len: usize) -> (r:
    Result<(), CheckFailure>)
    requires
        len <= SER_BUF_LEN,
    ensures
        r is Ok <==> (forall|j: int|
            0 <= j < tests@.len() ==> hash_verdict(group, tests@[j]@, ciphersuite@, len as int)
                is None),
        r matches Err(f) ==> f.index < tests@.len() && hash_verdict(
            group,
            tests@[f.index as int]@,
            ciphersuite@,
            len as int,
        ) == Some(f.error) && (forall|j: int|
            0 <= j < f.index ==> hash_verdict(group, tests@[j]@, ciphersuite@, len as int)
                is None),
{
    let mut i: usize = 0;
    while i < tests.len()
        invariant
            i <= tests@.len(),
            len <= SER_BUF_LEN,
            forall|j: int|
                0 <= j < i ==> hash_verdict(group, tests@[j]@, ciphersuite@, len as int) is None,
        decreases tests@.len() - i,
    {
        let t = &tests[i];
        let ser = hash_probe(group, t.msg.as_slice(), ciphersuite);
        let mut deser_ok = false;
        let mut rt_eq = false;
        match &t.expect {
            None => {},
            Some(e) => {
                match hash_rt_probe(group, t.msg.as_slice(), ciphersuite, e) {
                    Some(b) => {
                        deser_ok = true;
                        rt_eq = b;
                    },
                    None => {},
                }
            },
        }
        let ser_opt = Some(ser);
        let verdict = judge_vector(
            &t.expect,
            true,
            CheckError::SelfVerificationFailed,
            &ser_opt,
            deser_ok,
            rt_eq,
            len,
        );
        assert(verdict == hash_verdict(group, tests@[i as int]@, ciphersuite@, len as int));
        match verdict {
            Some(err) => {
                return Err(CheckFailure { index: i, error: err });
            },
            None => {},
        }
        i = i + 1;
    }
    Ok(())
}

fn run_sig_check(group: Group, scheme: Scheme, tests: &Vec<TestVector>, len: usize) -> (r: Result<
    (),
    CheckFailure,
>)
    requires
        len <= SER_BUF_LEN,
    ensures
        r is Ok <==> (forall|j: int|
            0 <= j < tests@.len() ==> sig_verdict(group, scheme, tests@[j]@, len as int) is None),
        r matches Err(f) ==> f.index < tests@.len() && sig_verdict(
            group,
            scheme,
            tests@[f.index as int]@,
            len as int,
        ) == Some(f.error) && (forall|j: int|
            0 <= j < f.index ==> sig_verdict(group, scheme, tests@[j]@, len as int) is None),
{
    let mut i: usize = 0;
    while i < tests.len()
        invariant
            i <= tests@.len(),
            len <= SER_BUF_LEN,
            forall|j: int|
                0 <= j < i ==> sig_verdict(group, scheme, tests@[j]@, len as int) is None,
        decreases tests@.len() - i,
    {
        let t = &tests[i];
        let (ser, self_ok) = sig_probe(group, scheme, t.sk.as_slice(), t.msg.as_slice());
        let mut deser_ok = false;
        let mut rt_eq = false;
        match &t.expect {
            None => {},
            Some(e) => {
                match sig_rt_probe(group, scheme, t.sk.as_slice(), t.msg.as_slice(), e) {
                    Some(b) => {
                        deser_ok = true;
                        rt_eq = b;
                    },
                    None => {},
                }
            },
        }
        let ser_opt = Some(ser);
        let verdict = judge_vector(
            &t.expect,
            self_ok,
            CheckError::SelfVerificationFailed,
            &ser_opt,
            deser_ok,
            rt_eq,
            len,
        );
        assert(verdict == sig_verdict(group, scheme, tests@[i as int]@, len as int));
        match verdict {
            Some(err) => {
                return Err(CheckFailure { index: i, error: err });
            },
            None => {},
        }
        i = i + 1;
    }
    Ok(())
}

/// Check the Basic scheme on each vector: key generation, signing, the
/// self-verification gate, and, where expected bytes are pinned, the
/// byte-exact and round-trip gates on the serialized signature. `Ok` holds
/// exactly when every vector's `sig_verdict` is clean; `Err` names the
/// first failing vector and its verdict.
pub fn test_sig_basic(group: Group, tests: Vec<TestVector>, len: usize) -> (r: Result<
    (),
    CheckFailure,
>)
    requires
        len <= SER_BUF_LEN,
    ensures
        r is Ok <==> (forall|j: int|
            0 <= j < tests@.len() ==> sig_verdict(group, Scheme::Basic, tests@[j]@, len as int)
                is None),
        r matches Err(f) ==> f.index < tests@.len() && sig_verdict(
            group,
            Scheme::Basic,
            tests@[f.index as int]@,
            len as int,
        ) == Some(f.error) && (forall|j: int|
            0 <= j < f.index ==> sig_verdict(group, Scheme::Basic, tests@[j]@, len as int)
                is None),
{
    run_sig_check(group, Scheme::Basic, &tests, len)
}

/// Check the Message-Augmentation scheme on each vector, with the same
/// gates and the same `Ok`/`Err` meaning as the Basic check.
pub fn test_sig_aug(group: Group, tests: Vec<TestVector>, len: usize) -> (r: Result<
    (),
    CheckFailure,
>)
    requires
        len <= SER_BUF_LEN,
    ensures
        r is Ok <==> (forall|j: int|
            0 <= j < tests@.len() ==> sig_verdict(group, Scheme::Aug, tests@[j]@, len as int)
                is None),
        r matches Err(f) ==> f.index < tests@.len() && sig_verdict(
            group,
            Scheme::Aug,
            tests@[f.index as int]@,
            len as int,
        ) == Some(f.error) && (forall|j: int|
            0 <= j < f.index ==> sig_verdict(group, Scheme::Aug, tests@[j]@, len as int) is None),
{
    run_sig_check(group, Scheme::Aug, &tests, len)
}

/// Check the Proof-of-Possession scheme's signing surface on each vector,
/// with the same gates and the same `Ok`/`Err` meaning as the Basic check.
pub fn test_sig_pop(group: Group, tests: Vec<TestVector>, len: usize) -> (r: Result<
    (),
    CheckFailure,
>)
    requires
        len <= SER_BUF_LEN,
    ensures
        r is Ok <==> (forall|j: int|
            0 <= j < tests@.len() ==> sig_verdict(group, Scheme::Pop, tests@[j]@, len as int)
                is None),
        r matches Err(f) ==> f.index < tests@.len() && sig_verdict(
            group,
            Scheme::Pop,
            tests@[f.index as int]@,
            len as int,
        ) == Some(f.error) && (forall|j: int|
            0 <= j < f.index ==> sig_verdict(group, Scheme::Pop, tests@[j]@, len as int) is None),
{
    run_sig_check(group, Scheme::Pop, &tests, len)
}

/// Check the possession proof on each vector: derive the public key,
/// produce the proof from the secret-key bytes, require that it verifies
/// under that key, and, where expected bytes are pinned, apply the
/// byte-exact and round-trip gates on the serialized proof. `Ok` holds
/// exactly when every vector's `pop_verdict` is clean; `Err` names the
/// first failing vector and its verdict.
pub fn test_pop(group: Group, tests: Vec<TestVector>, len: usize) -> (r: Result<(), CheckFailure>)
    requires
        len <= SER_BUF_LEN,
    ensures
        r is Ok <==> (forall|j: int|
            0 <= j < tests@.len() ==> pop_verdict(group, tests@[j]@, len as int) is None),
        r matches Err(f) ==> f.index < tests@.len() && pop_verdict(
            group,
            tests@[f.index as int]@,
            len as int,
        ) == Some(f.error) && (forall|j: int|
            0 <= j < f.index ==> pop_verdict(group, tests@[j]@, len as int) is None),
{
    let mut i: usize = 0;
    while i < tests.len()
        invariant
            i <= tests@.len(),
            len <= SER_BUF_LEN,
            forall|j: int| 0 <= j < i ==> pop_verdict(group, tests@[j]@, len as int) is None,
        decreases tests@.len() - i,
    {
        let t = &tests[i];
        let (ser, self_ok) = pop_probe(group, t.sk.as_slice());
        let mut deser_ok = false;
        let mut rt_eq = false;
        match &t.expect {
            None => {},
            Some(e) => {
                match pop_rt_probe(group, t.sk.as_slice(), e) {
                    Some(b) => {
                        deser_ok = true;
                        rt_eq = b;
                    },
                    None => {},
                }
            },
        }
        let ser_opt = Some(ser);
        let verdict = judge_vector(
            &t.expect,
            self_ok,
            CheckError::PopSelfVerificationFailed,
            &ser_opt,
            deser_ok,
            rt_eq,
            len,
        );
        assert(verdict == pop_verdict(group, tests@[i as int]@, len as int));
        match verdict {
            Some(err) => {
                return Err(CheckFailure { index: i, error: err });
            },
            None => {},
        }
        i = i + 1;
    }
    Ok(())
}

} // verus!
