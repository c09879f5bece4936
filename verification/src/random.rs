//! Dice rolls, drawn from the thread-local generator of `rand`.
use vstd::prelude::*;
use rand::Rng;

verus! {

/// The thread-local random number generator of `rand`, carried through
/// unopened.
#[verifier::external_type_specification]
#[verifier::external_body]
pub struct ExThreadRng(rand::rngs::ThreadRng);

/// Calls `rand::thread_rng`, which hands out the generator of this thread,
/// seeding it from the operating system on first use (and panicking only if
/// that source fails). Nothing is stated of the generator.
#[verifier::external_body]
pub(crate) fn thread_rng() -> (rng: rand::rngs::ThreadRng) {
    rand::thread_rng()
}

/// Calls `Rng::gen_range(0..sides)` on the generator: its documentation
/// promises a value in the range and a panic on an empty range, so
/// `sides` must be positive. Which value comes is chance; only the range is
/// stated.
#[verifier::external_body]
fn roll(rng: &mut rand::rngs::ThreadRng, sides: i32) -> (r: i32)
    requires
        0 < sides,
    ensures
        0 <= r < sides,
{
    rng.gen_range(0..sides)
}


/// One roll of a die: how many sides it had and which face came up.
pub struct Draw {
    pub sides: int,
    pub face: int,
}

/// The thread's random number generator, together with the record of every
/// roll made with it so far.
pub struct Dice {
    rng: rand::rngs::ThreadRng,
    log: Ghost<Seq<Draw>>,
}

impl Dice {
    /// The rolls made with these dice so far, oldest first.
    pub closed spec fn draws(&self) -> Seq<Draw> {
        self.log@
    }

    /// Dice on the thread's generator, with no roll made yet.
    pub fn new() -> (d: Dice)
        ensures
            d.draws() == Seq::<Draw>::empty(),
    {
        Dice { rng: thread_rng(), log: Ghost(Seq::empty()) }
    }

    /// Rolls a die with `sides` sides: some face from 0 to `sides - 1`
    /// comes up, and the roll is added to the record.
    pub fn roll(&mut self, sides: i32) -> (r: i32)
        requires
            0 < sides,
        ensures
            0 <= r < sides,
            final(self).draws() == old(self).draws().push(Draw { sides: sides as int, face: r as int }),
    {
        let r: i32 = roll(&mut self.rng, sides);
        self.log = Ghost(self.log@.push(Draw { sides: sides as int, face: r as int }));
        r
    }
}

/// Whether every recorded roll shows a face of its die.
pub open spec fn faces_on_dice(draws: Seq<Draw>) -> bool {
    forall|i: int| 0 <= i < draws.len() ==> 0 <= #[trigger] draws[i].face < draws[i].sides
}

} // verus!
