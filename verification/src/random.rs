use crate::ratio::Ratio;
use rand::rngs::ThreadRng;
use vstd::prelude::*;

verus! {

/// The thread-local random generator of the `rand` crate. Nothing is known of
/// the state inside it.
#[verifier::external_type_specification]
#[verifier::external_body]
pub struct ExThreadRng(ThreadRng);

/// Calls `rand::rng()`, which hands out a handle to the generator of the
/// current thread. Nothing is claimed of it.
#[verifier::external_body]
pub(crate) fn thread_generator() -> ThreadRng {
    rand::rng()
}

/// Calls `Clone::clone` on a `ThreadRng`, which hands out a second handle to
/// the same thread-local generator. Nothing is claimed of it.
#[verifier::external_body]
pub(crate) fn second_handle(rng: &ThreadRng) -> ThreadRng {
    rng.clone()
}

/// Calls `Rng::random_range` with the half-open range `low..high`. The crate
/// documents that the value lies in the range and that an empty range panics,
/// so the range must not be empty.
#[verifier::external_body]
pub(crate) fn random_below(rng: &mut ThreadRng, low: usize, high: usize) -> (value: usize)
    requires
        low < high,
    ensures
        low <= value < high,
{
    rand::Rng::random_range(rng, low..high)
}

/// Calls `Rng::random_ratio`, which is true with probability
/// `numerator / denominator`. The crate documents a panic for a zero
/// denominator or a numerator above the denominator, that the ratio one always
/// gives true, and that the ratio zero always gives false.
#[verifier::external_body]
pub(crate) fn random_ratio(rng: &mut ThreadRng, numerator: u32, denominator: u32) -> (happens: bool)
    requires
        denominator > 0,
        numerator <= denominator,
    ensures
        numerator == denominator ==> happens,
        numerator == 0 ==> !happens,
{
    rand::Rng::random_ratio(rng, numerator, denominator)
}

/// Decides at random, with probability `rate`, whether an event happens. An
/// event with rate one always happens and one with rate zero never does.
pub(crate) fn random_event(rng: &mut ThreadRng, rate: Ratio) -> (happens: bool)
    requires
        rate.is_probability(),
    ensures
        rate.numer() == rate.denom() ==> happens,
        rate.numer() == 0 ==> !happens,
{
    let numerator = rate.numerator();
    let denominator = rate.denominator();
    random_ratio(rng, numerator, denominator)
}

/// Calls `rand::seq::index::sample`, which draws `amount` distinct indices
/// below `length`, in random order. The crate documents a panic when `amount`
/// exceeds `length`; for a `length` beyond what 32 bits hold its source also
/// asserts, in builds that keep such assertions, that `amount` is less than
/// `length`. Both are left out.
#[verifier::external_body]
pub(crate) fn random_draw(rng: &mut ThreadRng, length: usize, amount: usize) -> (draw: Vec<usize>)
    requires
        amount <= length,
        length <= u32::MAX || amount < length,
    ensures
        crate::ranking::is_draw(draw@, length as nat, amount as nat),
{
    rand::seq::index::sample(rng, length, amount).into_vec()
}

} // verus!
