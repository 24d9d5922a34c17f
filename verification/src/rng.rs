//! Trusted access to the process-wide random number generator.

use rand::Rng;
use vstd::prelude::*;

verus! {

/// Declares rand's thread-local generator handle so that it can stand in
/// signatures; the library sees nothing of its inside.
#[verifier::external_type_specification]
#[verifier::external_body]
pub struct ExThreadRng(rand::rngs::ThreadRng);

/// Relies on rand::thread_rng: hands out a handle to the thread-local
/// generator. Nothing is claimed of it.
#[verifier::external_body]
pub(crate) fn fresh_rng() -> rand::rngs::ThreadRng {
    rand::thread_rng()
}

/// Relies on Rng::gen_range over `0..n`: returns a value below `n`. It
/// panics only on an empty range, which the precondition rules out.
#[verifier::external_body]
pub(crate) fn gen_index(rng: &mut rand::rngs::ThreadRng, n: usize) -> (r: usize)
    requires
        n > 0,
    ensures
        r < n,
{
    rng.gen_range(0..n)
}

/// Relies on Rng::gen_range over `'A'..='Z'`: returns a character in that
/// inclusive range.
#[verifier::external_body]
pub(crate) fn gen_uppercase(rng: &mut rand::rngs::ThreadRng) -> (c: char)
    ensures
        'A' <= c && c <= 'Z',
{
    rng.gen_range('A'..='Z')
}

} // verus!
