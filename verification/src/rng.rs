use vstd::prelude::*;
use rltk::RandomNumberGenerator;

verus! {

#[verifier::external_type_specification]
#[verifier::external_body]
pub struct ExRandomNumberGenerator(RandomNumberGenerator);

/// Creates a freshly seeded generator through `RandomNumberGenerator::new`.
/// The seed comes from the machine, so nothing is stated of the result.
#[verifier::external_body]
pub(crate) fn new_rng() -> RandomNumberGenerator {
    RandomNumberGenerator::new()
}

/// `RandomNumberGenerator::roll_dice(n, die_type)` sums `n` uniform draws from
/// `1..=die_type`; each draw is `gen_range(1..die_type + 1)`, which panics on an
/// empty range. The contract claims only the range of the sum.
#[verifier::external_body]
pub(crate) fn roll_dice(rng: &mut RandomNumberGenerator, n: i32, die_type: i32) -> (r: i32)
    requires
        0 <= n,
        1 <= die_type < i32::MAX,
        n * die_type <= i32::MAX,
    ensures
        n <= r <= n * die_type,
{
    rng.roll_dice(n, die_type)
}

/// `RandomNumberGenerator::range(min, max)` draws uniformly from the half open
/// range `min..max` (it panics when the range is empty). The contract claims
/// only the range of the draw.
#[verifier::external_body]
pub(crate) fn range(rng: &mut RandomNumberGenerator, min: i32, max: i32) -> (r: i32)
    requires
        min < max,
    ensures
        min <= r < max,
{
    rng.range(min, max)
}

} // verus!
