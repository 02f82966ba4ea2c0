use vstd::prelude::*;
use bracket_lib::prelude::RandomNumberGenerator;

verus! {

/// The random number generator of `bracket_lib`, carried through as an opaque value.
#[verifier::external_type_specification]
#[verifier::external_body]
pub struct ExRandomNumberGenerator(RandomNumberGenerator);

/// Calls `RandomNumberGenerator::new`, which seeds a generator from the
/// system's entropy. Nothing is claimed of the generator it returns.
#[verifier::external_body]
pub(crate) fn fresh_generator() -> (generator: RandomNumberGenerator) {
    RandomNumberGenerator::new()
}

/// Calls `RandomNumberGenerator::range`, which draws from the half-open range
/// that starts at `low` and ends before `high`, and panics on an empty range.
/// The contract claims only that the number drawn lies in the range.
#[verifier::external_body]
pub(crate) fn draw_between(generator: &mut RandomNumberGenerator, low: i32, high: i32) -> (drawn:
    i32)
    requires
        low < high,
    ensures
        low <= drawn < high,
{
    generator.range(low, high)
}

} // verus!
