use rand::Rng;
use vstd::prelude::*;
use vstd::string::StrSliceExecFns;

verus! {

/// Whether two string slices hold the same characters, compared one
/// character at a time.
pub(crate) fn str_eq(a: &str, b: &str) -> (r: bool)
    ensures
        r == (a@ == b@),
{
    let n = a.unicode_len();
    if n != b.unicode_len() {
        return false;
    }
    let mut i: usize = 0;
    while i < n
        invariant
            i <= n,
            n == a@.len(),
            n == b@.len(),
            forall|j: int| 0 <= j < i ==> a@[j] == b@[j],
        decreases n - i,
    {
        if a.get_char(i) != b.get_char(i) {
            return false;
        }
        i = i + 1;
    }
    proof {
        assert(a@ =~= b@);
    }
    true
}

/// Wraps `rand::Rng::gen_range` on the thread-local generator with the
/// inclusive range `min..=max`. The value is drawn at random; the only thing
/// promised is that it lies in the range (an empty range panics, hence the
/// `requires`).
#[verifier::external_body]
pub fn urand(min: usize, max: usize) -> (r: usize)
    requires
        min <= max,
    ensures
        min <= r <= max,
{
    let mut rng = rand::thread_rng();
    rng.gen_range(min..=max)
}

} // verus!
