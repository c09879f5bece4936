//! The components that game entities carry, and the three lanes.
use vstd::prelude::*;

verus! {

/// Heights are kept in quarter pixels: every height and vertical speed the
/// game uses is a whole number of quarter pixels.
pub const QUARTERS_PER_PIXEL: i32 = 4;

/// Floor of the bottom lane (-238 px).
pub const BOTTOM_Q: i32 = -952;

/// Floor of the middle lane (-12 px).
pub const MIDDLE_Q: i32 = -48;

/// Floor of the top lane (212 px).
pub const ABOVE_Q: i32 = 848;

/// How far above its lane floor a sprite stands: half of a 75 px sprite
/// drawn at scale 1.5, plus 5 px (61.25 px).
pub const STANDING_OFFSET_Q: i32 = 245;

/// How an entity moves and whether it disappears once off screen.
#[derive(Clone, Copy, Debug, PartialEq, Eq, Structural)]
pub struct Movable {
    pub auto_despawn: bool,
    pub enemy: bool,
    pub ammo: bool,
}

impl Movable {
    /// Enemies and ammo drops scroll with the map; anything else moves by
    /// its own velocity alone.
    pub fn scrolls_with_map(&self) -> (r: bool)
        ensures
            r == (self.enemy || self.ammo),
    {
        self.enemy || self.ammo
    }
}

/// Marks a bullet.
#[derive(Clone, Copy, Debug, PartialEq, Eq, Structural)]
pub struct Bullet;

/// Rounds the player can still fire.
#[derive(Clone, Copy, Debug, PartialEq, Eq, Structural)]
pub struct Ammo {
    pub ammo: i32,
}

/// Hits an enemy can still take.
#[derive(Clone, Copy, Debug, PartialEq, Eq, Structural)]
pub struct Lives {
    pub lives: i32,
}

/// The lane an entity stands in.
#[derive(Clone, Copy, Debug, PartialEq, Eq, Structural)]
pub struct PlayerLevel {
    pub level: LEVEL,
}

/// The three lanes.
#[derive(Clone, Copy, Debug, PartialEq, Eq, Structural)]
pub enum LEVEL {
    Middle,
    Above,
    Below,
}

/// What the player is doing.
#[derive(Clone, Copy, Debug, PartialEq, Eq, Structural)]
pub struct PlayerState {
    pub state: PLAYER_STATE,
}

/// Running in a lane, or jumping to the lane above or below.
#[derive(Clone, Copy, Debug, PartialEq, Eq, Structural)]
pub enum PLAYER_STATE {
    Run,
    JumpUp,
    JumpDown,
}

/// Which kind of enemy an entity is.
#[derive(Clone, Copy, Debug, PartialEq, Eq, Structural)]
pub struct EnemyType {
    pub Etype: ENEMY_TYPE,
}

/// The two kinds of enemy.
#[derive(Clone, Copy, Debug, PartialEq, Eq, Structural)]
pub enum ENEMY_TYPE {
    NINJA,
    SAMURAI,
}

/// Marks the text line at the top of the screen.
#[derive(Clone, Copy, Debug, PartialEq, Eq, Structural)]
pub struct TopText;

/// Marks the player.
#[derive(Clone, Copy, Debug, PartialEq, Eq, Structural)]
pub struct Player;

/// Marks what the player fired.
#[derive(Clone, Copy, Debug, PartialEq, Eq, Structural)]
pub struct FromPlayer;

/// Marks an ammo drop.
#[derive(Clone, Copy, Debug, PartialEq, Eq, Structural)]
pub struct AmmoDrop;

/// Marks an enemy.
#[derive(Clone, Copy, Debug, PartialEq, Eq, Structural)]
pub struct Enemy;

/// Marks what an enemy fired.
#[derive(Clone, Copy, Debug, PartialEq, Eq, Structural)]
pub struct FromEnemy;

/// The height, in quarter pixels, at which a sprite stands in a lane.
pub open spec fn lane_height_spec(level: LEVEL) -> int {
    match level {
        LEVEL::Below => BOTTOM_Q + STANDING_OFFSET_Q,
        LEVEL::Middle => MIDDLE_Q + STANDING_OFFSET_Q,
        LEVEL::Above => ABOVE_Q + STANDING_OFFSET_Q,
    }
}

/// The lane that a roll of a three-sided die picks: 1 the middle lane,
/// 2 the top lane, anything else the bottom lane.
pub open spec fn level_of_roll(roll: int) -> LEVEL {
    if roll == 1 {
        LEVEL::Middle
    } else if roll == 2 {
        LEVEL::Above
    } else {
        LEVEL::Below
    }
}

impl LEVEL {
    /// The height, in quarter pixels, at which a sprite stands in this lane.
    pub fn lane_height(&self) -> (h: i32)
        ensures
            h == lane_height_spec(*self),
    {
        match self {
            LEVEL::Below => BOTTOM_Q + STANDING_OFFSET_Q,
            LEVEL::Middle => MIDDLE_Q + STANDING_OFFSET_Q,
            LEVEL::Above => ABOVE_Q + STANDING_OFFSET_Q,
        }
    }

    /// The lane that a roll of a three-sided die picks.
    pub fn from_roll(roll: i32) -> (level: LEVEL)
        ensures
            level == level_of_roll(roll as int),
    {
        if roll == 1 {
            LEVEL::Middle
        } else if roll == 2 {
            LEVEL::Above
        } else {
            LEVEL::Below
        }
    }
}

} // verus!
