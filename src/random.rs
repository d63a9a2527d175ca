use vstd::prelude::*;

verus! {

/// Where new obstacles get their gap centers from. The game asks for a value
/// in `[low, high)`; what comes back is clamped into that range by the caller,
/// so an implementation may be a fixed sequence for replaying a game.
pub trait RandomSource {
    fn range(&mut self, low: i32, high: i32) -> i32
        requires
            low < high,
    ;
}

#[verifier::external_type_specification]
#[verifier::external_body]
pub struct ExRandomNumberGenerator(bracket_lib::prelude::RandomNumberGenerator);

/// Relies on `RandomNumberGenerator::new` of bracket-random: a generator
/// seeded from the system's entropy.
#[verifier::external_body]
fn new_generator() -> bracket_lib::prelude::RandomNumberGenerator {
    bracket_lib::prelude::RandomNumberGenerator::new()
}

/// Relies on `RandomNumberGenerator::range` of bracket-random, which draws
/// with `gen_range(min..max)`: a value in `[min, max)`; it panics on an empty
/// range.
#[verifier::external_body]
fn generator_range(
    rng: &mut bracket_lib::prelude::RandomNumberGenerator,
    min: i32,
    max: i32,
) -> (r: i32)
    requires
        min < max,
    ensures
        min <= r < max,
{
    rng.range(min, max)
}

/// The game's source of randomness: bracket-lib's generator.
pub struct GameRng {
    rng: bracket_lib::prelude::RandomNumberGenerator,
}

impl GameRng {
    pub fn new() -> GameRng {
        GameRng { rng: new_generator() }
    }

    /// A uniformly drawn value in `[low, high)`.
    pub fn draw(&mut self, low: i32, high: i32) -> (r: i32)
        requires
            low < high,
        ensures
            low <= r < high,
    {
        generator_range(&mut self.rng, low, high)
    }
}

impl RandomSource for GameRng {
    fn range(&mut self, low: i32, high: i32) -> i32 {
        self.draw(low, high)
    }
}

} // verus!
