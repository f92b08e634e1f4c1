//! Conformance checks and benchmark drivers for BLS signatures over the
//! BLS12-381 pairing curve, covering the Basic, Message-Augmentation and
//! Proof-of-Possession schemes in both curve groups.

pub mod bench;
pub mod checks;
pub mod curve;
pub mod vectors;
pub mod outcome;
pub mod probes;
pub mod judge;

pub use bench::{
    bench_hash, bench_sig_aug_aggregate, bench_sig_aug_aggregate_verify, bench_sig_aug_sign,
    bench_sig_aug_verify, bench_sig_basic_aggregate, bench_sig_basic_aggregate_verify,
    bench_sig_basic_sign, bench_sig_basic_verify, bench_sig_pop_aggregate,
    bench_sig_pop_aggregate_verify, bench_sig_pop_multisig_verify, bench_sig_pop_pop_verify,
    bench_sig_pop_prove, bench_sig_pop_sign, bench_sig_pop_verify,
};
pub use checks::{test_hash, test_pop, test_sig_aug, test_sig_basic, test_sig_pop, Group, Scheme};
pub use outcome::{CheckError, CheckFailure};
pub use vectors::TestVector;
