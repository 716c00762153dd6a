use vstd::prelude::*;
use rand::Rng;

verus! {

/// Relies on `rand::Rng::gen_range` on the thread-local generator
/// (`rand::thread_rng`): sampling `lo..hi` yields a value in `[lo, hi)`
/// and panics only when the range is empty, which the precondition rules
/// out. Nothing more is promised: the sample is random.
#[verifier::external_body]
pub(crate) fn random_in(lo: i64, hi: i64) -> (r: i64)
    requires
        lo < hi,
    ensures
        lo <= r < hi,
{
    rand::thread_rng().gen_range(lo..hi)
}

} // verus!
