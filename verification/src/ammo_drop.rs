//! When and where ammo drops enter the screen.
use vstd::prelude::*;
use crate::components::{LEVEL, level_of_roll};
use crate::enemy::{Chance, SPAWN_DIE, LANE_DIE};
use crate::random::{Dice, Draw, faces_on_dice};

verus! {

/// Ammo drops are this many points rarer than enemies.
pub const AMMO_CHANCE_HANDICAP: i32 = 5;

/// Decides one drop attempt from its rolls: a drop comes when the spawn roll
/// is below the chance less five points, in the lane the lane roll picks.
pub fn plan_ammo_drop(chance: i32, spawn_roll: i32, lane_roll: i32) -> (r: Option<LEVEL>)
    requires
        chance >= i32::MIN + AMMO_CHANCE_HANDICAP,
    ensures
        r is Some <==> spawn_roll < chance - AMMO_CHANCE_HANDICAP,
        r is Some ==> r->0 == level_of_roll(lane_roll as int),
{
    if spawn_roll < chance - AMMO_CHANCE_HANDICAP {
        Some(LEVEL::from_roll(lane_roll))
    } else {
        None
    }
}

/// One drop attempt with the given dice: the spawn die is rolled; a face
/// at or above the chance less five ends the attempt; a lower face is
/// followed by a roll of the lane die, and the drop comes in the lane that
/// face picks.
pub fn ammo_drop_roll(chance: &Chance, dice: &mut Dice) -> (r: Option<LEVEL>)
    requires
        chance.0 >= i32::MIN + AMMO_CHANCE_HANDICAP,
    ensures
        ({
            let before = old(dice).draws();
            let after = final(dice).draws();
            let new = after.skip(before.len() as int);
            &&& after.len() >= before.len()
            &&& after.take(before.len() as int) == before
            &&& faces_on_dice(new)
            &&& new.len() >= 1
            &&& new[0].sides == SPAWN_DIE
            &&& new[0].face >= chance.0 - AMMO_CHANCE_HANDICAP ==> new.len() == 1 && r is None
            &&& new[0].face < chance.0 - AMMO_CHANCE_HANDICAP ==> {
                &&& new.len() == 2
                &&& new[1].sides == LANE_DIE
                &&& r == Some(level_of_roll(new[1].face))
            }
        }),
{
    let ghost before = dice.draws();
    let spawn_roll: i32 = dice.roll(SPAWN_DIE);
    if spawn_roll < chance.0 - AMMO_CHANCE_HANDICAP {
        let lane_roll: i32 = dice.roll(LANE_DIE);
        proof {
            assert(dice.draws().skip(before.len() as int) =~= seq![
                Draw { sides: SPAWN_DIE as int, face: spawn_roll as int },
                Draw { sides: LANE_DIE as int, face: lane_roll as int },
            ]);
            assert(dice.draws().take(before.len() as int) =~= before);
        }
        plan_ammo_drop(chance.0, spawn_roll, lane_roll)
    } else {
        proof {
            assert(dice.draws().skip(before.len() as int) =~= seq![
                Draw { sides: SPAWN_DIE as int, face: spawn_roll as int },
            ]);
            assert(dice.draws().take(before.len() as int) =~= before);
        }
        None
    }
}

/// One drop attempt on the thread's generator: rolls the spawn die and, on
/// a low enough roll, the lane die. Which rolls come is chance; a drop needs
/// a chance above the handicap.
pub fn ammo_drop_step(chance: &Chance) -> (r: Option<LEVEL>)
    requires
        chance.0 >= i32::MIN + AMMO_CHANCE_HANDICAP,
    ensures
        r is Some ==> chance.0 > AMMO_CHANCE_HANDICAP,
        chance.0 - AMMO_CHANCE_HANDICAP >= SPAWN_DIE ==> r is Some,
        r is Some ==> exists|lane_roll: int| 0 <= lane_roll < LANE_DIE && r->0 == level_of_roll(lane_roll),
{
    let mut dice = Dice::new();
    let r = ammo_drop_roll(chance, &mut dice);
    proof {
        let new = dice.draws().skip(0);
        assert(0 <= new[0].face < new[0].sides);
        if r is Some {
            assert(0 <= new[1].face < new[1].sides);
        }
    }
    r
}

/// Every lane can receive a drop: each lane is picked by some face of the
/// lane die.
pub proof fn every_lane_can_get_a_drop(level: LEVEL)
    ensures
        exists|lane_face: int| 0 <= lane_face < LANE_DIE && #[trigger] level_of_roll(lane_face) == level,
{
    let lane_face: int = match level {
        LEVEL::Below => 0,
        LEVEL::Middle => 1,
        LEVEL::Above => 2,
    };
    assert(level_of_roll(lane_face) == level);
}

} // verus!
