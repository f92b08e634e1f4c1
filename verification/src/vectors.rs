use vstd::prelude::*;

verus! {

/// One conformance test case: a message to hash or sign, a secret key,
/// and, when the output is pinned, the expected serialized bytes.
#[derive(Clone, Debug)]
pub struct TestVector {
    /// The message to be hashed or signed.
    pub msg: Vec<u8>,
    /// The byte string a secret scalar is derived from.
    pub sk: Vec<u8>,
    /// The expected serialized output, when the vector pins one.
    pub expect: Option<Vec<u8>>,
}

/// The mathematical shape of a test vector: plain byte sequences.
pub struct TestVectorView {
    /// The message bytes.
    pub msg: Seq<u8>,
    /// The secret-key bytes.
    pub sk: Seq<u8>,
    /// The expected output bytes, when pinned.
    pub expect: Option<Seq<u8>>,
}

/// The sequence view of an optional byte vector.
pub open spec fn opt_bytes_view(o: Option<Vec<u8>>) -> Option<Seq<u8>> {
    match o {
        Option::None => Option::None,
        Option::Some(e) => Option::Some(e@),
    }
}

impl View for TestVector {
    type V = TestVectorView;

    open spec fn view(&self) -> TestVectorView {
        TestVectorView {
            msg: self.msg@,
            sk: self.sk@,
            expect: opt_bytes_view(self.expect),
        }
    }
}

} // verus!
