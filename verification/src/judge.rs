use vstd::prelude::*;

use crate::outcome::CheckError;

verus! {

/// The verdict one test vector receives, as a function of the outcomes of
/// its gates: `self_ok` is the self-verification gate (always `true` for the
/// hash check, which has none), `self_err` the error that gate reports,
/// `ser` the serialized computed value (`None` when serialization itself
/// failed), `deser_ok` whether the expected bytes deserialized, `rt_eq`
/// whether the deserialized value equals the computed one, and `len` how
/// many serialized bytes the expected value pins.
///
/// The gates apply in order: self-verification first; with no expected
/// bytes nothing more is checked; otherwise the serialized prefix must
/// equal the expected bytes exactly, and deserializing them must give the
/// computed value back.
pub open spec fn vector_verdict(
    expect: Option<Seq<u8>>,
    self_ok: bool,
    self_err: CheckError,
    ser: Option<Seq<u8>>,
    deser_ok: bool,
    rt_eq: bool,
    len: int,
) -> Option<CheckError> {
    if !self_ok {
        Option::Some(self_err)
    } else {
        match expect {
            Option::None => Option::None,
            Option::Some(e) => match ser {
                Option::None => Option::Some(CheckError::IoFailure),
                Option::Some(buf) => if e != buf.subrange(0, len) {
                    Option::Some(CheckError::EncodingMismatch)
                } else if !deser_ok {
                    Option::Some(CheckError::IoFailure)
                } else if !rt_eq {
                    Option::Some(CheckError::RoundTripMismatch)
                } else {
                    Option::None
                },
            },
        }
    }
}

/// Whether `e` equals exactly the first `len` bytes of `buf`.
pub fn bytes_eq_prefix(e: &Vec<u8>, buf: &Vec<u8>, len: usize) -> (r: bool)
    requires
        len <= buf@.len(),
    ensures
        r == (e@ == buf@.subrange(0, len as int)),
{
    if e.len() != len {
        assert(e@ != buf@.subrange(0, len as int)) by {
            assert(buf@.subrange(0, len as int).len() == len as int);
        }
        return false;
    }
    let mut i: usize = 0;
    while i < len
        invariant
            i <= len,
            len <= buf@.len(),
            e@.len() == len as int,
            forall|j: int| 0 <= j < i ==> e@[j] == buf@[j],
        decreases len - i,
    {
        if e[i] != buf[i] {
            assert(e@ != buf@.subrange(0, len as int)) by {
                assert(buf@.subrange(0, len as int)[i as int] == buf@[i as int]);
            }
            return false;
        }
        i = i + 1;
    }
    assert(e@ =~= buf@.subrange(0, len as int));
    true
}

/// Judge one vector from its gate outcomes, exactly as `vector_verdict`
/// states.
pub fn judge_vector(
    expect: &Option<Vec<u8>>,
    self_ok: bool,
    self_err: CheckError,
    ser: &Option<Vec<u8>>,
    deser_ok: bool,
    rt_eq: bool,
    len: usize,
) -> (r: Option<CheckError>)
    requires
        ser matches Some(buf) ==> len <= buf@.len(),
    ensures
        r == vector_verdict(
            crate::vectors::opt_bytes_view(*expect),
            self_ok,
            self_err,
            crate::vectors::opt_bytes_view(*ser),
            deser_ok,
            rt_eq,
            len as int,
        ),
{
    if !self_ok {
        return Some(self_err);
    }
    match expect {
        None => None,
        Some(e) => match ser {
            None => Some(CheckError::IoFailure),
            Some(buf) => {
                if !bytes_eq_prefix(e, buf, len) {
                    Some(CheckError::EncodingMismatch)
                } else if !deser_ok {
                    Some(CheckError::IoFailure)
                } else if !rt_eq {
                    Some(CheckError::RoundTripMismatch)
                } else {
                    None
                }
            },
        },
    }
}

/// A vector with pinned expected bytes passes only when every gate held:
/// the self-verification gate, the byte-exact gate (the expected bytes are
/// exactly the first `len` serialized bytes), and the round-trip gate (the
/// expected bytes deserialized, to a value equal to the computed one).
pub proof fn lemma_pass_certifies_gates(
    e: Seq<u8>,
    self_ok: bool,
    self_err: CheckError,
    buf: Seq<u8>,
    deser_ok: bool,
    rt_eq: bool,
    len: int,
)
    requires
        vector_verdict(Option::Some(e), self_ok, self_err, Option::Some(buf), deser_ok, rt_eq, len)
            is None,
    ensures
        self_ok,
        e == buf.subrange(0, len),
        deser_ok,
        rt_eq,
{
}

/// A vector that passes the byte-exact gate stops passing it as soon as a
/// single expected byte is changed: mutating any position of the expected
/// bytes to a different value turns the verdict into `EncodingMismatch`,
/// whatever the round-trip gates held.
pub proof fn lemma_mutated_expected_detected(
    e: Seq<u8>,
    self_err: CheckError,
    buf: Seq<u8>,
    deser_ok: bool,
    rt_eq: bool,
    len: int,
    i: int,
    b: u8,
)
    requires
        0 <= i < e.len(),
        b != e[i],
        vector_verdict(Option::Some(e), true, self_err, Option::Some(buf), deser_ok, rt_eq, len)
            != Option::Some(CheckError::EncodingMismatch),
    ensures
        vector_verdict(
            Option::Some(e.update(i, b)),
            true,
            self_err,
            Option::Some(buf),
            deser_ok,
            rt_eq,
            len,
        ) == Option::Some(CheckError::EncodingMismatch),
{
    assert(e == buf.subrange(0, len));
    let m = e.update(i, b);
    assert(m[i] == b);
    if m == buf.subrange(0, len) {
        assert(m[i] == e[i]);
        assert(false);
    }
}

} // verus!
