use rand::rngs::ThreadRng;
use rand::seq::SliceRandom;
use rand::Rng;
use vstd::prelude::*;

verus! {

#[verifier::external_type_specification]
#[verifier::external_body]
pub struct ExThreadRng(ThreadRng);

/// Relies on `ThreadRng::default` (rand's `thread_rng`): a handle on this
/// thread's generator. Nothing is known of what it will draw.
#[verifier::external_body]
pub(crate) fn thread_rng() -> ThreadRng {
    ThreadRng::default()
}

/// Relies on `SliceRandom::choose` for slices: `None` exactly when the slice
/// is empty, else one of its elements.
#[verifier::external_body]
pub(crate) fn choose_word<'a>(words: &'a [&'a str], rng: &mut ThreadRng) -> (r: Option<&'a str>)
    ensures
        r is None <==> words@.len() == 0,
        r matches Some(w) ==> words@.contains(w),
{
    words.choose(rng).copied()
}

/// Relies on `Rng::gen_range` over `low..high`: a value of that half-open
/// range, which must not be empty.
#[verifier::external_body]
fn gen_range_u16(rng: &mut ThreadRng, low: u16, high: u16) -> (r: u16)
    requires
        low < high,
    ensures
        low <= r < high,
{
    rng.gen_range(low..high)
}

/// A number for a name's suffix: from 1 to 9999.
pub(crate) fn rand_num(rng: &mut ThreadRng) -> (r: u16)
    ensures
        1 <= r <= 9999,
{
    gen_range_u16(rng, 1, 10000)
}

} // verus!
