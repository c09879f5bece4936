//! The player: jumping between lanes, firing and picking up ammo.
use vstd::prelude::*;
use crate::components::{
    Ammo, LEVEL, PLAYER_STATE, PlayerLevel, PlayerState, lane_height_spec,
};

verus! {

/// Rounds the player starts with.
pub const STARTING_AMMO: i32 = 5;

/// Rounds an ammo drop gives.
pub const AMMO_PER_DROP: i32 = 5;

/// Upward speed of a jump, in quarter pixels per frame (5 px).
pub const JUMP_UP_SPEED_Q: i32 = 20;

/// Speed at which a downward jump starts, in quarter pixels per frame (-2 px).
pub const JUMP_DOWN_SPEED_Q: i32 = -8;

/// How much faster a downward jump falls each frame, in quarter pixels (1 px).
pub const FALL_ACCEL_Q: i32 = 4;

/// Highest height a player can reach, in quarter pixels: a jump up stops
/// within one step above the top lane.
pub const HEIGHT_CEILING_Q: i32 = 1200;

/// Lowest height a player can reach, in quarter pixels: a jump down stops
/// within one step, at most `FASTEST_FALL_Q`, below the bottom lane.
pub const HEIGHT_FLOOR_Q: i32 = -3000;

/// Fastest fall a player can reach, in quarter pixels per frame: a fall
/// never gathers more speed than the height it has to cover.
pub const FASTEST_FALL_Q: i32 = -2000;

/// Where the player is and how it moves vertically: its state and lane,
/// its height and its vertical speed, both in quarter pixels.
#[derive(Clone, Copy, Debug, PartialEq, Eq, Structural)]
pub struct PlayerMotion {
    pub state: PlayerState,
    pub level: PlayerLevel,
    pub height: i32,
    pub vy: i32,
}

/// The lane a jump in `state` from `level` heads for, if any: up from the
/// bottom or middle lane, down from the top or middle lane.
pub open spec fn destination(state: PLAYER_STATE, level: LEVEL) -> Option<LEVEL> {
    match (state, level) {
        (PLAYER_STATE::JumpUp, LEVEL::Below) => Some(LEVEL::Middle),
        (PLAYER_STATE::JumpUp, LEVEL::Middle) => Some(LEVEL::Above),
        (PLAYER_STATE::JumpDown, LEVEL::Above) => Some(LEVEL::Middle),
        (PLAYER_STATE::JumpDown, LEVEL::Middle) => Some(LEVEL::Below),
        _ => None,
    }
}

impl PlayerMotion {
    /// A running player stands still vertically; a rising player rises at
    /// jump speed and is not in the top lane; a falling player falls, not
    /// faster than `FASTEST_FALL_Q`, and is not in the bottom lane; the height
    /// stays between `HEIGHT_FLOOR_Q` and `HEIGHT_CEILING_Q`.
    pub open spec fn wf(&self) -> bool {
        &&& HEIGHT_FLOOR_Q <= self.height <= HEIGHT_CEILING_Q
        &&& self.state.state == PLAYER_STATE::Run ==> self.vy == 0
        &&& self.state.state == PLAYER_STATE::JumpUp ==> {
            &&& self.level.level != LEVEL::Above
            &&& self.vy == JUMP_UP_SPEED_Q
        }
        &&& self.state.state == PLAYER_STATE::JumpDown ==> {
            &&& self.level.level != LEVEL::Below
            &&& FASTEST_FALL_Q <= self.vy <= JUMP_DOWN_SPEED_Q
        }
    }

    /// The same motion in another state and lane, at another speed.
    pub open spec fn with(self, state: PLAYER_STATE, level: LEVEL, height: int, vy: int) -> PlayerMotion {
        PlayerMotion {
            state: PlayerState { state },
            level: PlayerLevel { level },
            height: height as i32,
            vy: vy as i32,
        }
    }

    /// The reaction to the arrow keys: a running player held up starts a jump
    /// up unless in the top lane; otherwise, held down, a jump down unless in
    /// the bottom lane; anything else is left as it is.
    pub open spec fn after_keys(self, up: bool, down: bool) -> PlayerMotion {
        let running = self.state.state == PLAYER_STATE::Run;
        if up && self.level.level != LEVEL::Above && running {
            PlayerMotion { state: PlayerState { state: PLAYER_STATE::JumpUp }, vy: JUMP_UP_SPEED_Q, ..self }
        } else if down && self.level.level != LEVEL::Below && running {
            PlayerMotion { state: PlayerState { state: PLAYER_STATE::JumpDown }, vy: JUMP_DOWN_SPEED_Q, ..self }
        } else {
            self
        }
    }

    /// The height after this frame's move: a jump moves by its speed while
    /// it has not yet reached the lane it heads for.
    pub open spec fn moved_height(self) -> int {
        match destination(self.state.state, self.level.level) {
            Some(d) => {
                let t: int = lane_height_spec(d);
                if (self.state.state == PLAYER_STATE::JumpUp && self.height < t)
                    || (self.state.state == PLAYER_STATE::JumpDown && self.height > t) {
                    self.height + self.vy
                } else {
                    self.height as int
                }
            },
            None => self.height as int,
        }
    }

    /// Whether a jump reaches its lane this frame.
    pub open spec fn lands(self) -> bool {
        match destination(self.state.state, self.level.level) {
            Some(d) => {
                let t: int = lane_height_spec(d);
                (self.state.state == PLAYER_STATE::JumpUp && self.moved_height() >= t)
                    || (self.state.state == PLAYER_STATE::JumpDown && self.moved_height() <= t)
            },
            None => false,
        }
    }

    /// One frame of vertical motion: the jump moves; once at or past its
    /// lane it lands there, running and standing still; a jump down that has
    /// not landed falls one pixel per frame faster.
    pub open spec fn after_frame(self) -> PlayerMotion {
        let h: int = self.moved_height();
        if self.lands() {
            self.with(PLAYER_STATE::Run, destination(self.state.state, self.level.level)->0, h, 0)
        } else if self.state.state == PLAYER_STATE::JumpDown {
            self.with(self.state.state, self.level.level, h, self.vy - FALL_ACCEL_Q)
        } else {
            self.with(self.state.state, self.level.level, h, self.vy as int)
        }
    }

    /// Whether the motion is well formed.
    pub fn is_wf(&self) -> (b: bool)
        ensures
            b == self.wf(),
    {
        let in_range = HEIGHT_FLOOR_Q <= self.height && self.height <= HEIGHT_CEILING_Q;
        match self.state.state {
            PLAYER_STATE::Run => in_range && self.vy == 0,
            PLAYER_STATE::JumpUp => in_range && !(self.level.level == LEVEL::Above) && self.vy == JUMP_UP_SPEED_Q,
            PLAYER_STATE::JumpDown => in_range && !(self.level.level == LEVEL::Below) && FASTEST_FALL_Q <= self.vy
                && self.vy <= JUMP_DOWN_SPEED_Q,
        }
    }

    /// A freshly spawned player: running in the middle lane, standing on it.
    pub fn spawn() -> (m: PlayerMotion)
        ensures
            m.state.state == PLAYER_STATE::Run,
            m.level.level == LEVEL::Middle,
            m.height == lane_height_spec(LEVEL::Middle),
            m.vy == 0,
            m.wf(),
    {
        PlayerMotion {
            state: PlayerState { state: PLAYER_STATE::Run },
            level: PlayerLevel { level: LEVEL::Middle },
            height: LEVEL::Middle.lane_height(),
            vy: 0,
        }
    }
}

/// Reacts to the arrow keys held this frame: up starts a jump up, down a
/// jump down, from running only and never out of the three lanes.
pub fn player_keyboard_event(m: &mut PlayerMotion, up: bool, down: bool)
    ensures
        *final(m) == old(m).after_keys(up, down),
        old(m).wf() ==> final(m).wf(),
        final(m).height == old(m).height,
        final(m).level == old(m).level,
        final(m).state != old(m).state ==> old(m).state.state == PLAYER_STATE::Run,
{
    if up && !(m.level.level == LEVEL::Above) && m.state.state == PLAYER_STATE::Run {
        m.state.state = PLAYER_STATE::JumpUp;
        m.vy = JUMP_UP_SPEED_Q;
    } else if down && !(m.level.level == LEVEL::Below) && m.state.state == PLAYER_STATE::Run {
        m.state.state = PLAYER_STATE::JumpDown;
        m.vy = JUMP_DOWN_SPEED_Q;
    }
}

/// Moves the player through one frame of a jump, landing it in the next
/// lane once it gets there.
pub fn player_movement(m: &mut PlayerMotion)
    requires
        old(m).wf(),
    ensures
        *final(m) == old(m).after_frame(),
        final(m).wf(),
{
    let below: i32 = LEVEL::Below.lane_height();
    let middle: i32 = LEVEL::Middle.lane_height();
    let above: i32 = LEVEL::Above.lane_height();
    let ghost m0 = *m;

    if m.state.state == PLAYER_STATE::JumpUp && m.level.level == LEVEL::Below && m.height < middle {
        m.height = m.height + m.vy;
    }
    if m.state.state == PLAYER_STATE::JumpUp && m.level.level == LEVEL::Middle && m.height < above {
        m.height = m.height + m.vy;
    }
    if m.state.state == PLAYER_STATE::JumpDown && m.level.level == LEVEL::Above && m.height > middle {
        m.height = m.height + m.vy;
    }
    if m.state.state == PLAYER_STATE::JumpDown && m.level.level == LEVEL::Middle && m.height > below {
        m.height = m.height + m.vy;
    }
    assert(m.height == m0.moved_height());

    if m.state.state == PLAYER_STATE::JumpUp && m.level.level == LEVEL::Below && m.height >= middle {
        m.vy = 0;
        m.state.state = PLAYER_STATE::Run;
        m.level.level = LEVEL::Middle;
    }
    if m.state.state == PLAYER_STATE::JumpUp && m.level.level == LEVEL::Middle && m.height >= above {
        m.vy = 0;
        m.state.state = PLAYER_STATE::Run;
        m.level.level = LEVEL::Above;
    }
    if m.state.state == PLAYER_STATE::JumpDown && m.level.level == LEVEL::Above && m.height <= middle {
        m.vy = 0;
        m.state.state = PLAYER_STATE::Run;
        m.level.level = LEVEL::Middle;
    }
    if m.state.state == PLAYER_STATE::JumpDown && m.level.level == LEVEL::Middle && m.height <= below {
        m.vy = 0;
        m.state.state = PLAYER_STATE::Run;
        m.level.level = LEVEL::Below;
    }
    if m.state.state == PLAYER_STATE::JumpDown {
        m.vy = m.vy - FALL_ACCEL_Q;
    }
}


/// The motion after `n` frames without key presses.
pub open spec fn after_frames(m: PlayerMotion, n: nat) -> PlayerMotion
    decreases n,
{
    if n == 0 {
        m
    } else {
        after_frames(m, (n - 1) as nat).after_frame()
    }
}

/// How far a jump still has to go to reach its lane, in quarter pixels.
pub open spec fn distance_left(m: PlayerMotion) -> int {
    match destination(m.state.state, m.level.level) {
        Some(d) => if m.state.state == PLAYER_STATE::JumpUp {
            lane_height_spec(d) - m.height
        } else {
            m.height - lane_height_spec(d)
        },
        None => 0,
    }
}

/// A running player stays where it is, frame after frame.
pub proof fn running_player_stays(m: PlayerMotion)
    requires
        m.wf(),
        m.state.state == PLAYER_STATE::Run,
    ensures
        m.after_frame() == m,
{
}

/// A frame either lands a jump in the lane right above or below, running and
/// standing still, or keeps it going in the same direction, at least 2 px
/// closer to its lane.
pub proof fn jump_progresses(m: PlayerMotion)
    requires
        m.wf(),
        m.state.state != PLAYER_STATE::Run,
    ensures
        m.lands() ==> {
            let next = m.after_frame();
            &&& next.state.state == PLAYER_STATE::Run
            &&& next.vy == 0
            &&& Some(next.level.level) == destination(m.state.state, m.level.level)
        },
        !m.lands() ==> {
            let next = m.after_frame();
            &&& next.state == m.state
            &&& next.level == m.level
            &&& distance_left(next) <= distance_left(m) + JUMP_DOWN_SPEED_Q
        },
{
}

/// Any number of frames keep a well-formed motion well formed.
pub proof fn frames_keep_wf(m: PlayerMotion, n: nat)
    requires
        m.wf(),
    ensures
        after_frames(m, n).wf(),
    decreases n,
{
    if n > 0 {
        frames_keep_wf(m, (n - 1) as nat);
    }
}

/// Frames after landing leave a running player where it is.
proof fn run_stays_for(m: PlayerMotion, n: nat)
    requires
        m.wf(),
        m.state.state == PLAYER_STATE::Run,
    ensures
        after_frames(m, n) == m,
    decreases n,
{
    if n > 0 {
        run_stays_for(m, (n - 1) as nat);
    }
}

/// Later frames apply to where the first frame left the player.
proof fn after_frames_shift(m: PlayerMotion, n: nat)
    ensures
        after_frames(m, n + 1) == after_frames(m.after_frame(), n),
    decreases n,
{
    if n > 0 {
        after_frames_shift(m, (n - 1) as nat);
        assert(after_frames(m, n + 1) == after_frames(m, n).after_frame());
        assert(after_frames(m.after_frame(), n) == after_frames(m.after_frame(), (n - 1) as nat).after_frame());
    }
}

/// Every jump ends: once `n` frames cover the distance left at 2 px per
/// frame, the player is running again.
pub proof fn jump_lands_within(m: PlayerMotion, n: nat)
    requires
        m.wf(),
        m.state.state != PLAYER_STATE::Run,
        n >= 1,
        n * (-JUMP_DOWN_SPEED_Q) >= distance_left(m),
    ensures
        after_frames(m, n).state.state == PLAYER_STATE::Run,
    decreases n,
{
    jump_progresses(m);
    let next = m.after_frame();
    after_frames_shift(m, (n - 1) as nat);
    if m.lands() {
        run_stays_for(next, (n - 1) as nat);
    } else {
        assert(distance_left(next) <= distance_left(m) - 8);
        if n == 1 {
            assert(distance_left(m) <= 8);
            assert(distance_left(next) <= 0);
            assert(false);
        } else {
            assert((n - 1) as nat * 8 >= distance_left(next)) by (nonlinear_arith)
                requires
                    n * 8 >= distance_left(m),
                    distance_left(next) <= distance_left(m) - 8,
                    n >= 2;
            jump_lands_within(next, (n - 1) as nat);
        }
    }
}


/// Fires when the fire key was just pressed and a round is left; a shot
/// uses up one round.
pub fn player_fire(ammo: &mut Ammo, fire_pressed: bool) -> (fired: bool)
    ensures
        fired == (fire_pressed && old(ammo).ammo > 0),
        final(ammo).ammo == old(ammo).ammo - (if fired { 1int } else { 0int }),
        old(ammo).ammo >= 0 ==> final(ammo).ammo >= 0,
{
    if fire_pressed && ammo.ammo > 0 {
        ammo.ammo = ammo.ammo - 1;
        true
    } else {
        false
    }
}

/// Picks up the first ammo drop that the player touches, if any, for
/// `AMMO_PER_DROP` more rounds; `touching[i]` tells whether drop `i`
/// overlaps the player. At most one drop is taken per frame.
pub fn ammo_pickup(ammo: &mut Ammo, touching: &Vec<bool>) -> (taken: Option<usize>)
    requires
        (exists|i: int| 0 <= i < touching@.len() && touching@[i]) ==> old(ammo).ammo <= i32::MAX - AMMO_PER_DROP,
    ensures
        match taken {
            Some(i) => {
                &&& i < touching@.len()
                &&& touching@[i as int]
                &&& forall|j: int| 0 <= j < i ==> !touching@[j]
                &&& final(ammo).ammo == old(ammo).ammo + AMMO_PER_DROP
            },
            None => {
                &&& forall|j: int| 0 <= j < touching@.len() ==> !touching@[j]
                &&& final(ammo).ammo == old(ammo).ammo
            },
        },
{
    let mut i: usize = 0;
    while i < touching.len()
        invariant
            i <= touching@.len(),
            forall|j: int| 0 <= j < i ==> !touching@[j],
            ammo.ammo == old(ammo).ammo,
            (exists|k: int| 0 <= k < touching@.len() && touching@[k]) ==> old(ammo).ammo <= i32::MAX - AMMO_PER_DROP,
        decreases touching@.len() - i,
    {
        if touching[i] {
            ammo.ammo = ammo.ammo + AMMO_PER_DROP;
            return Some(i);
        }
        i = i + 1;
    }
    None
}


/// Whether some lane stands higher than `level`.
pub open spec fn has_lane_above(level: LEVEL) -> bool {
    exists|l: LEVEL| #[trigger] lane_height_spec(l) > lane_height_spec(level)
}

/// Whether some lane stands lower than `level`.
pub open spec fn has_lane_below(level: LEVEL) -> bool {
    exists|l: LEVEL| #[trigger] lane_height_spec(l) < lane_height_spec(level)
}

/// Only the top lane has no lane above it, and only the bottom lane none
/// below it.
proof fn lanes_above_and_below(level: LEVEL)
    ensures
        has_lane_above(level) <==> level != LEVEL::Above,
        has_lane_below(level) <==> level != LEVEL::Below,
{
    assert(lane_height_spec(LEVEL::Above) > lane_height_spec(LEVEL::Middle));
    assert(lane_height_spec(LEVEL::Middle) > lane_height_spec(LEVEL::Below));
}

/// The arrow keys: holding up while running, with a lane above, starts a
/// jump up at jump speed whatever down does; holding down while running,
/// with a lane below and no jump up started, starts a jump down at its
/// starting speed; nothing else changes anything. Keys never move the
/// player or change its lane.
pub proof fn arrow_keys_start_jumps(m: PlayerMotion, up: bool, down: bool)
    ensures
        ({
            let n = m.after_keys(up, down);
            let running = m.state.state == PLAYER_STATE::Run;
            &&& n.height == m.height && n.level == m.level
            &&& (running && up && has_lane_above(m.level.level)) ==> {
                &&& n.state.state == PLAYER_STATE::JumpUp
                &&& n.vy == JUMP_UP_SPEED_Q
            }
            &&& (running && !(up && has_lane_above(m.level.level)) && down && has_lane_below(m.level.level)) ==> {
                &&& n.state.state == PLAYER_STATE::JumpDown
                &&& n.vy == JUMP_DOWN_SPEED_Q
            }
            &&& !(running && ((up && has_lane_above(m.level.level)) || (down && has_lane_below(m.level.level)))) ==> n == m
        }),
{
    lanes_above_and_below(m.level.level);
}

/// A frame of a jump up: the player rises by the jump speed while it is
/// below the nearest lane above it, and lands, running and standing still,
/// in that nearest lane above exactly when its height has reached that
/// lane's standing height; until then it stays below every higher lane.
pub proof fn rising_lands_on_reaching_lane(m: PlayerMotion)
    requires
        m.wf(),
        m.state.state == PLAYER_STATE::JumpUp,
    ensures
        ({
            let n = m.after_frame();
            &&& n.state.state == PLAYER_STATE::Run ==> {
                &&& lane_height_spec(n.level.level) > lane_height_spec(m.level.level)
                &&& forall|l: LEVEL| #[trigger] lane_height_spec(l) > lane_height_spec(m.level.level)
                    ==> lane_height_spec(n.level.level) <= lane_height_spec(l)
                &&& n.height >= lane_height_spec(n.level.level)
                &&& n.vy == 0
                &&& ((m.height < lane_height_spec(n.level.level) && n.height == m.height + JUMP_UP_SPEED_Q)
                    || (m.height >= lane_height_spec(n.level.level) && n.height == m.height))
            }
            &&& n.state.state != PLAYER_STATE::Run ==> {
                &&& n.state == m.state
                &&& n.level == m.level
                &&& n.height == m.height + JUMP_UP_SPEED_Q
                &&& n.vy == m.vy
                &&& forall|l: LEVEL| #[trigger] lane_height_spec(l) > lane_height_spec(m.level.level)
                    ==> n.height < lane_height_spec(l)
            }
        }),
{
}

/// A frame of a jump down: the player falls by its speed while it is above
/// the nearest lane below it, falling one pixel per frame faster, and lands,
/// running and standing still, in that nearest lane below exactly when its
/// height has come down to that lane's standing height; until then it
/// stays above every lower lane.
pub proof fn falling_lands_on_reaching_lane(m: PlayerMotion)
    requires
        m.wf(),
        m.state.state == PLAYER_STATE::JumpDown,
    ensures
        ({
            let n = m.after_frame();
            &&& n.state.state == PLAYER_STATE::Run ==> {
                &&& lane_height_spec(n.level.level) < lane_height_spec(m.level.level)
                &&& forall|l: LEVEL| #[trigger] lane_height_spec(l) < lane_height_spec(m.level.level)
                    ==> lane_height_spec(n.level.level) >= lane_height_spec(l)
                &&& n.height <= lane_height_spec(n.level.level)
                &&& n.vy == 0
                &&& ((m.height > lane_height_spec(n.level.level) && n.height == m.height + m.vy)
                    || (m.height <= lane_height_spec(n.level.level) && n.height == m.height))
            }
            &&& n.state.state != PLAYER_STATE::Run ==> {
                &&& n.state == m.state
                &&& n.level == m.level
                &&& n.height == m.height + m.vy
                &&& n.vy == m.vy - FALL_ACCEL_Q
                &&& forall|l: LEVEL| #[trigger] lane_height_spec(l) < lane_height_spec(m.level.level)
                    ==> n.height > lane_height_spec(l)
            }
        }),
{
}

} // verus!
