use vstd::prelude::*;

verus! {

#[verifier::external_type_specification]
#[verifier::external_body]
pub struct ExRandomNumberGenerator(bracket_random::prelude::RandomNumberGenerator);

/// Relies on bracket_random's RandomNumberGenerator::new: a generator freshly
/// seeded from system entropy. Nothing is assumed of the values it will draw.
#[verifier::external_body]
pub(crate) fn new_rng() -> bracket_random::prelude::RandomNumberGenerator {
    bracket_random::prelude::RandomNumberGenerator::new()
}

/// Relies on bracket_random's RandomNumberGenerator::range, which draws
/// uniformly from rand's range `min..max`: the result is at least `min` and
/// below `max`. The call panics on an empty range, so one is required off.
#[verifier::external_body]
pub(crate) fn rng_range(
    rng: &mut bracket_random::prelude::RandomNumberGenerator,
    min: i32,
    max: i32,
) -> (r: i32)
    requires
        min < max,
    ensures
        min <= r < max,
{
    rng.range(min, max)
}

} // verus!
