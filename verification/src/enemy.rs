//! When and how enemies enter the screen.
use vstd::prelude::*;
use crate::components::{LEVEL, ENEMY_TYPE, Lives, level_of_roll};
use crate::random::{Dice, Draw, faces_on_dice};

verus! {

/// No enemy spawns while this many are counted on screen.
pub const ENEMY_MAX: u32 = 9;

/// Sides of the die that decides whether something spawns: a spawn needs a
/// roll below the current chance.
pub const SPAWN_DIE: i32 = 100;

/// Sides of the die that picks a lane.
pub const LANE_DIE: i32 = 3;

/// Sides of the die that picks the kind of enemy.
pub const KIND_DIE: i32 = 2;

/// Percent chance of a spawn at the start of a game.
pub const STARTING_CHANCE: i32 = 15;

/// Enemies counted on screen.
#[derive(Clone, Copy, Debug, PartialEq, Eq, Structural)]
pub struct EnemyCount(pub u32);

/// Percent chance that a spawn attempt succeeds; it grows as the game goes on.
#[derive(Clone, Copy, Debug, PartialEq, Eq, Structural)]
pub struct Chance(pub i32);

/// What a new enemy looks like.
#[derive(Clone, Copy, Debug, PartialEq, Eq, Structural)]
pub struct EnemySpawn {
    pub level: LEVEL,
    pub kind: ENEMY_TYPE,
    pub lives: Lives,
}

/// The kind of enemy that a roll of the two-sided die picks: 1 a ninja,
/// anything else a samurai.
pub open spec fn kind_of_roll(roll: int) -> ENEMY_TYPE {
    if roll == 1 {
        ENEMY_TYPE::NINJA
    } else {
        ENEMY_TYPE::SAMURAI
    }
}

/// Hits a new enemy takes: a ninja falls at the first, a samurai at the third.
pub open spec fn starting_lives(kind: ENEMY_TYPE) -> int {
    match kind {
        ENEMY_TYPE::NINJA => 1,
        ENEMY_TYPE::SAMURAI => 3,
    }
}

/// The enemy that the lane roll and the kind roll describe.
pub open spec fn enemy_of_rolls(lane_roll: int, kind_roll: int) -> EnemySpawn {
    EnemySpawn {
        level: level_of_roll(lane_roll),
        kind: kind_of_roll(kind_roll),
        lives: Lives { lives: starting_lives(kind_of_roll(kind_roll)) as i32 },
    }
}

impl ENEMY_TYPE {
    /// Hits a new enemy of this kind takes.
    pub fn starting_lives(&self) -> (n: i32)
        ensures
            n == starting_lives(*self),
    {
        match self {
            ENEMY_TYPE::NINJA => 1,
            ENEMY_TYPE::SAMURAI => 3,
        }
    }
}

/// Decides one spawn attempt from its rolls: an enemy comes when fewer than
/// `ENEMY_MAX` are counted and the spawn roll is below the chance; the lane
/// roll then picks its lane and the kind roll its kind and lives.
pub fn plan_enemy_spawn(count: u32, chance: i32, spawn_roll: i32, lane_roll: i32, kind_roll: i32) -> (r: Option<EnemySpawn>)
    ensures
        r is Some <==> (count < ENEMY_MAX && spawn_roll < chance),
        r is Some ==> r->0 == enemy_of_rolls(lane_roll as int, kind_roll as int),
{
    if count < ENEMY_MAX && spawn_roll < chance {
        let kind = if kind_roll == 1 { ENEMY_TYPE::NINJA } else { ENEMY_TYPE::SAMURAI };
        let lives: i32 = kind.starting_lives();
        Some(EnemySpawn { level: LEVEL::from_roll(lane_roll), kind, lives: Lives { lives } })
    } else {
        None
    }
}

/// The rolls of one spawn attempt below the cap, as recorded: the spawn
/// die first; on a face below the chance, then the lane die and the kind die.
pub open spec fn spawn_attempt_draws(draws: Seq<Draw>, chance: int) -> bool {
    &&& draws.len() >= 1
    &&& draws[0].sides == SPAWN_DIE
    &&& draws[0].face >= chance ==> draws.len() == 1
    &&& draws[0].face < chance ==> {
        &&& draws.len() == 3
        &&& draws[1].sides == LANE_DIE
        &&& draws[2].sides == KIND_DIE
    }
}

/// One spawn attempt with the given dice. At the cap nothing is rolled and
/// nothing spawns. Below it the spawn die is rolled; a face at or above the
/// chance ends the attempt; a face below it is followed by a roll of the
/// lane die and of the kind die, and the enemy those faces describe spawns
/// and is counted.
pub fn enemy_spawn_roll(count: &mut EnemyCount, chance: &Chance, dice: &mut Dice) -> (r: Option<EnemySpawn>)
    ensures
        ({
            let before = old(dice).draws();
            let after = final(dice).draws();
            let new = after.skip(before.len() as int);
            &&& after.len() >= before.len()
            &&& after.take(before.len() as int) == before
            &&& faces_on_dice(new)
            &&& old(count).0 >= ENEMY_MAX ==> new.len() == 0 && r is None
            &&& old(count).0 < ENEMY_MAX ==> spawn_attempt_draws(new, chance.0 as int)
            &&& (old(count).0 < ENEMY_MAX && new[0].face >= chance.0) ==> r is None
            &&& (old(count).0 < ENEMY_MAX && new[0].face < chance.0) ==>
                r == Some(enemy_of_rolls(new[1].face, new[2].face))
        }),
        r is Some ==> final(count).0 == old(count).0 + 1,
        r is None ==> final(count).0 == old(count).0,
{
    let ghost before = dice.draws();
    if count.0 < ENEMY_MAX {
        let spawn_roll: i32 = dice.roll(SPAWN_DIE);
        if spawn_roll < chance.0 {
            let lane_roll: i32 = dice.roll(LANE_DIE);
            let kind_roll: i32 = dice.roll(KIND_DIE);
            let planned = plan_enemy_spawn(count.0, chance.0, spawn_roll, lane_roll, kind_roll);
            proof {
                let new = dice.draws().skip(before.len() as int);
                assert(new =~= seq![
                    Draw { sides: SPAWN_DIE as int, face: spawn_roll as int },
                    Draw { sides: LANE_DIE as int, face: lane_roll as int },
                    Draw { sides: KIND_DIE as int, face: kind_roll as int },
                ]);
                assert(dice.draws().take(before.len() as int) =~= before);
            }
            match planned {
                Some(spawn) => {
                    count.0 = count.0 + 1;
                    return Some(spawn);
                },
                None => {
                    return None;
                },
            }
        }
        proof {
            let new = dice.draws().skip(before.len() as int);
            assert(new =~= seq![Draw { sides: SPAWN_DIE as int, face: spawn_roll as int }]);
            assert(dice.draws().take(before.len() as int) =~= before);
        }
        return None;
    }
    proof {
        assert(dice.draws().skip(before.len() as int) =~= Seq::<Draw>::empty());
        assert(dice.draws().take(before.len() as int) =~= before);
    }
    None
}

/// One spawn attempt on the thread's generator: below the cap, rolls the
/// spawn die and, on a roll below the chance, the lane and kind dice, and
/// counts the new enemy. Which rolls come is chance; what is stated holds
/// for every roll.
pub fn enemy_spawn_step(count: &mut EnemyCount, chance: &Chance) -> (r: Option<EnemySpawn>)
    ensures
        old(count).0 >= ENEMY_MAX ==> r is None,
        r is Some ==> final(count).0 == old(count).0 + 1,
        r is None ==> final(count).0 == old(count).0,
        r is Some ==> 0 < chance.0 && r->0.lives.lives == starting_lives(r->0.kind),
        old(count).0 <= ENEMY_MAX ==> final(count).0 <= ENEMY_MAX,
        old(count).0 < ENEMY_MAX && chance.0 >= SPAWN_DIE ==> r is Some,
        r is Some ==> exists|lane_roll: int, kind_roll: int|
            0 <= lane_roll < LANE_DIE && 0 <= kind_roll < KIND_DIE
            && r->0 == enemy_of_rolls(lane_roll, kind_roll),
{
    if count.0 < ENEMY_MAX {
        let mut dice = Dice::new();
        let r = enemy_spawn_roll(count, chance, &mut dice);
        proof {
            let new = dice.draws().skip(0);
            assert(new[0].sides == SPAWN_DIE && 0 <= new[0].face < new[0].sides);
            if r is Some {
                assert(0 <= new[1].face < new[1].sides);
                assert(0 <= new[2].face < new[2].sides);
            }
        }
        r
    } else {
        None
    }
}

/// Every lane and every kind of enemy can come: for each lane and kind
/// some face of the lane die and some face of the kind die describe an
/// enemy of that kind in that lane, with the lives of its kind.
pub proof fn every_lane_and_kind_can_spawn(level: LEVEL, kind: ENEMY_TYPE)
    ensures
        exists|lane_face: int, kind_face: int|
            0 <= lane_face < LANE_DIE && 0 <= kind_face < KIND_DIE && {
                let e = #[trigger] enemy_of_rolls(lane_face, kind_face);
                &&& e.level == level
                &&& e.kind == kind
                &&& e.lives.lives == starting_lives(kind)
            },
{
    let lane_face: int = match level {
        LEVEL::Below => 0,
        LEVEL::Middle => 1,
        LEVEL::Above => 2,
    };
    let kind_face: int = match kind {
        ENEMY_TYPE::SAMURAI => 0,
        ENEMY_TYPE::NINJA => 1,
    };
    assert(enemy_of_rolls(lane_face, kind_face).level == level);
}

} // verus!
