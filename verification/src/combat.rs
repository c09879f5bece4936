//! What happens when bullets, enemies, drops and the player meet, and when
//! things scroll off screen. Which sprites overlap is measured by the caller;
//! the rules here decide what follows from it.
use vstd::prelude::*;
use crate::components::{Lives, Movable};
use crate::enemy::{EnemyCount, ENEMY_MAX};

verus! {

/// How many entries of `s` hold.
pub open spec fn count_true(s: Seq<bool>) -> nat
    decreases s.len(),
{
    if s.len() == 0 {
        0
    } else {
        count_true(s.drop_last()) + if s.last() { 1nat } else { 0nat }
    }
}

/// Counting a prefix one entry longer adds that entry.
proof fn count_true_step(s: Seq<bool>, i: int)
    requires
        0 <= i < s.len(),
    ensures
        count_true(s.take(i + 1)) == count_true(s.take(i)) + if s[i] { 1nat } else { 0nat },
{
    assert(s.take(i + 1).drop_last() =~= s.take(i));
}

/// A prefix holds no more entries than the whole.
proof fn count_true_prefix(s: Seq<bool>, i: int)
    requires
        0 <= i <= s.len(),
    ensures
        count_true(s.take(i)) <= count_true(s),
    decreases s.len() - i,
{
    if i == s.len() {
        assert(s.take(i) =~= s);
    } else {
        count_true_step(s, i);
        count_true_prefix(s, i + 1);
    }
}

/// How many entries of `v` hold.
pub fn count_set(v: &Vec<bool>) -> (n: usize)
    ensures
        n == count_true(v@),
{
    let mut n: usize = 0;
    let mut i: usize = 0;
    while i < v.len()
        invariant
            i <= v@.len(),
            n <= i,
            n == count_true(v@.take(i as int)),
        decreases v@.len() - i,
    {
        proof {
            count_true_step(v@, i as int);
        }
        if v[i] {
            n = n + 1;
        }
        i = i + 1;
    }
    assert(v@.take(v@.len() as int) =~= v@);
    n
}

impl EnemyCount {
    /// Stops counting `n` enemies that fell or left the screen.
    pub fn remove(&mut self, n: usize)
        requires
            n <= old(self).0,
        ensures
            final(self).0 == old(self).0 - n,
            old(self).0 <= ENEMY_MAX ==> final(self).0 <= ENEMY_MAX,
    {
        self.0 = self.0 - (n as u32);
    }
}

// region: bullets against enemies

/// What a volley of bullets leaves behind: the enemies' lives, which enemies
/// fell and which bullets were used up.
pub struct VolleyState {
    pub lives: Seq<int>,
    pub killed: Seq<bool>,
    pub spent: Seq<bool>,
}

/// The first enemy from index `e` on that the bullet overlaps and that has
/// not fallen yet.
pub open spec fn first_target(row: Seq<bool>, killed: Seq<bool>, e: int) -> Option<int>
    decreases row.len() - e,
{
    if e < 0 || e >= row.len() {
        None
    } else if row[e] && !killed[e] {
        Some(e)
    } else {
        first_target(row, killed, e + 1)
    }
}

/// The first target is the earliest standing enemy the bullet overlaps.
pub proof fn first_target_is_earliest(row: Seq<bool>, killed: Seq<bool>, e0: int)
    requires
        0 <= e0,
    ensures
        match first_target(row, killed, e0) {
            Some(e) => {
                &&& e0 <= e < row.len()
                &&& row[e] && !killed[e]
                &&& forall|j: int| e0 <= j < e ==> !(row[j] && !killed[j])
            },
            None => forall|j: int| e0 <= j < row.len() ==> !(row[j] && !killed[j]),
        },
    decreases row.len() - e0,
{
    if e0 < row.len() && !(row[e0] && !killed[e0]) {
        first_target_is_earliest(row, killed, e0 + 1);
    }
}

/// The state after the first `b` bullets: each bullet in turn takes one life
/// from the first enemy still standing that it overlaps, and is used up; an
/// enemy falls once its lives reach zero and is not hit again; a bullet that
/// overlaps no standing enemy flies on.
pub open spec fn volley_after(touching: Seq<Seq<bool>>, lives: Seq<int>, b: nat) -> VolleyState
    decreases b,
{
    if b == 0 {
        VolleyState { lives, killed: Seq::new(lives.len(), |i: int| false), spent: Seq::empty() }
    } else {
        let s = volley_after(touching, lives, (b - 1) as nat);
        match first_target(touching[b - 1], s.killed, 0) {
            None => VolleyState { lives: s.lives, killed: s.killed, spent: s.spent.push(false) },
            Some(e) => {
                let left: int = s.lives[e] - 1;
                VolleyState {
                    lives: s.lives.update(e, left),
                    killed: s.killed.update(e, left <= 0),
                    spent: s.spent.push(true),
                }
            },
        }
    }
}

/// The total of the entries of `s`.
pub open spec fn total(s: Seq<int>) -> int
    decreases s.len(),
{
    if s.len() == 0 {
        0
    } else {
        total(s.drop_last()) + s.last()
    }
}

/// Changing one entry changes the total by the difference.
proof fn total_update(s: Seq<int>, i: int, v: int)
    requires
        0 <= i < s.len(),
    ensures
        total(s.update(i, v)) == total(s) - s[i] + v,
    decreases s.len(),
{
    let u = s.update(i, v);
    if i == s.len() - 1 {
        assert(u.drop_last() =~= s.drop_last());
    } else {
        assert(u.drop_last() =~= s.drop_last().update(i, v));
        total_update(s.drop_last(), i, v);
    }
}

/// The accounting of a volley: lives only go down; every bullet used up
/// took exactly one life, so the lives lost add up to the bullets spent;
/// and an enemy has fallen exactly when it was hit and has no lives left.
pub proof fn volley_accounting(touching: Seq<Seq<bool>>, lives: Seq<int>, b: nat)
    requires
        b <= touching.len(),
        forall|k: int| 0 <= k < touching.len() ==> (#[trigger] touching[k]).len() == lives.len(),
    ensures
        ({
            let s = volley_after(touching, lives, b);
            &&& s.lives.len() == lives.len()
            &&& s.killed.len() == lives.len()
            &&& s.spent.len() == b
            &&& forall|e: int| 0 <= e < lives.len() ==> s.lives[e] <= lives[e]
            &&& forall|e: int| 0 <= e < lives.len() ==>
                (s.killed[e] <==> (s.lives[e] < lives[e] && s.lives[e] <= 0))
            &&& count_true(s.spent) == total(lives) - total(s.lives)
        }),
    decreases b,
{
    if b > 0 {
        volley_accounting(touching, lives, (b - 1) as nat);
        let s = volley_after(touching, lives, (b - 1) as nat);
        let next = volley_after(touching, lives, b);
        first_target_is_earliest(touching[b - 1], s.killed, 0);
        assert(next.spent.drop_last() =~= s.spent);
        match first_target(touching[b - 1], s.killed, 0) {
            Some(e) => {
                total_update(s.lives, e, s.lives[e] - 1);
            },
            None => {},
        }
    }
}

/// The lives of a row of enemies, as integers.
pub open spec fn lives_view(v: Seq<Lives>) -> Seq<int> {
    v.map_values(|l: Lives| l.lives as int)
}

/// The overlaps of each bullet with each enemy.
pub open spec fn rows_view(t: Seq<Vec<bool>>) -> Seq<Seq<bool>> {
    t.map_values(|r: Vec<bool>| r@)
}

/// Bullets used up and enemies fallen in a volley.
pub struct Volley {
    pub spent: Vec<bool>,
    pub killed: Vec<bool>,
}

/// Finds the first enemy standing that a bullet overlaps.
fn find_target(row: &Vec<bool>, killed: &Vec<bool>) -> (t: Option<usize>)
    requires
        row@.len() == killed@.len(),
    ensures
        match t {
            Some(e) => first_target(row@, killed@, 0) == Some(e as int) && e < row@.len() && row@[e as int] && !killed@[e as int],
            None => first_target(row@, killed@, 0) is None,
        },
{
    proof {
        first_target_is_earliest(row@, killed@, 0);
    }
    let n: usize = row.len();
    let mut e: usize = 0;
    while e < n
        invariant
            n == row@.len(),
            row@.len() == killed@.len(),
            e <= n,
            first_target(row@, killed@, 0) == first_target(row@, killed@, e as int),
        decreases n - e,
    {
        if row[e] && !killed[e] {
            return Some(e);
        }
        e = e + 1;
    }
    None
}

/// Resolves this frame's hits of player bullets on enemies: `touching[b][e]`
/// tells whether bullet `b` overlaps enemy `e`. Bullets are taken in order;
/// each takes one life from the first standing enemy it overlaps and is used
/// up; an enemy whose lives reach zero falls and is not hit again.
pub fn resolve_volley(touching: &Vec<Vec<bool>>, lives: &mut Vec<Lives>) -> (v: Volley)
    requires
        forall|b: int| 0 <= b < touching@.len() ==> (#[trigger] touching@[b])@.len() == old(lives)@.len(),
        forall|e: int| 0 <= e < old(lives)@.len() ==> (#[trigger] old(lives)@[e]).lives > i32::MIN,
    ensures
        ({
            let s = volley_after(rows_view(touching@), lives_view(old(lives)@), touching@.len());
            &&& v.spent@ == s.spent
            &&& v.killed@ == s.killed
            &&& lives_view(final(lives)@) == s.lives
        }),
        final(lives)@.len() == old(lives)@.len(),
{
    let ghost rows = rows_view(touching@);
    let ghost lives0 = lives_view(lives@);
    let n: usize = lives.len();
    let mut killed: Vec<bool> = Vec::new();
    let mut i: usize = 0;
    while i < n
        invariant
            n == lives@.len(),
            i <= n,
            killed@ =~= Seq::new(i as nat, |k: int| false),
        decreases n - i,
    {
        killed.push(false);
        i = i + 1;
    }
    let mut spent: Vec<bool> = Vec::new();
    let mut b: usize = 0;
    while b < touching.len()
        invariant
            b <= touching@.len(),
            n == lives@.len(),
            killed@.len() == n,
            spent@.len() == b,
            rows == rows_view(touching@),
            lives0.len() == n,
            forall|k: int| 0 <= k < touching@.len() ==> (#[trigger] touching@[k])@.len() == n,
            lives_view(lives@) == volley_after(rows, lives0, b as nat).lives,
            killed@ == volley_after(rows, lives0, b as nat).killed,
            spent@ == volley_after(rows, lives0, b as nat).spent,
            forall|e: int| 0 <= e < n && !killed@[e] ==> (#[trigger] lives@[e]).lives > i32::MIN,
        decreases touching@.len() - b,
    {
        let ghost s = volley_after(rows, lives0, b as nat);
        let row = &touching[b];
        assert(rows[b as int] == row@);
        let target = find_target(row, &killed);
        match target {
            Some(e) => {
                let left: i32 = lives[e].lives - 1;
                lives.set(e, Lives { lives: left });
                killed.set(e, left <= 0);
                spent.push(true);
                assert(lives_view(lives@) =~= s.lives.update(e as int, left as int));
            },
            None => {
                spent.push(false);
            },
        }
        b = b + 1;
    }
    Volley { spent, killed }
}

// endregion

// region: enemies against the player

/// Lives the player has left.
#[derive(Clone, Copy, Debug, PartialEq, Eq, Structural)]
pub struct PlayerLife(pub i32);

/// Lives the player starts a game with.
pub const STARTING_PLAYER_LIVES: i32 = 3;

/// Which enemy, if any, hit the player this frame, and whether that ended
/// the game.
#[derive(Clone, Copy, Debug, PartialEq, Eq, Structural)]
pub struct Contact {
    pub enemy: Option<usize>,
    pub game_over: bool,
}

/// Resolves enemies running into the player: `touching[i]` tells whether
/// enemy `i` overlaps the player, and `cooldown_over` whether enough time
/// has passed since the last hit. Then the first overlapping enemy hits: it
/// is removed, the player loses a life, and the game is over once no life
/// is left. Without the cooldown over nothing happens.
pub fn enemy_contact(life: &mut PlayerLife, cooldown_over: bool, touching: &Vec<bool>) -> (c: Contact)
    requires
        (cooldown_over && exists|i: int| 0 <= i < touching@.len() && touching@[i]) ==> old(life).0 > i32::MIN,
    ensures
        match c.enemy {
            Some(i) => {
                &&& cooldown_over
                &&& i < touching@.len()
                &&& touching@[i as int]
                &&& forall|j: int| 0 <= j < i ==> !touching@[j]
                &&& final(life).0 == old(life).0 - 1
                &&& c.game_over == (final(life).0 <= 0)
            },
            None => {
                &&& (cooldown_over ==> forall|j: int| 0 <= j < touching@.len() ==> !touching@[j])
                &&& final(life).0 == old(life).0
                &&& !c.game_over
            },
        },
{
    let mut i: usize = 0;
    while i < touching.len()
        invariant
            i <= touching@.len(),
            cooldown_over ==> forall|j: int| 0 <= j < i ==> !touching@[j],
            life.0 == old(life).0,
            (cooldown_over && exists|k: int| 0 <= k < touching@.len() && touching@[k]) ==> old(life).0 > i32::MIN,
        decreases touching@.len() - i,
    {
        if touching[i] && cooldown_over {
            life.0 = life.0 - 1;
            return Contact { enemy: Some(i), game_over: life.0 <= 0 };
        }
        i = i + 1;
    }
    Contact { enemy: None, game_over: false }
}

// endregion

// region: leaving the screen

/// Which entries are enemies that leave the screen for good.
pub open spec fn leaving_enemies(movables: Seq<Movable>, offscreen: Seq<bool>) -> Seq<bool> {
    Seq::new(movables.len(), |i: int| movables[i].auto_despawn && offscreen[i] && movables[i].enemy)
}

/// How many enemies leave the screen for good: the number that
/// `despawn_offscreen` stops counting.
pub fn leaving_enemy_count(movables: &Vec<Movable>, offscreen: &Vec<bool>) -> (n: usize)
    requires
        movables@.len() == offscreen@.len(),
    ensures
        n == count_true(leaving_enemies(movables@, offscreen@)),
{
    let ghost leaving = leaving_enemies(movables@, offscreen@);
    let mut n: usize = 0;
    let mut i: usize = 0;
    while i < movables.len()
        invariant
            i <= movables@.len(),
            movables@.len() == offscreen@.len(),
            leaving == leaving_enemies(movables@, offscreen@),
            n <= i,
            n == count_true(leaving.take(i as int)),
        decreases movables@.len() - i,
    {
        proof {
            count_true_step(leaving, i as int);
        }
        let m = movables[i];
        if m.auto_despawn && offscreen[i] && m.enemy {
            n = n + 1;
        }
        i = i + 1;
    }
    assert(leaving.take(movables@.len() as int) =~= leaving);
    n
}

/// Removes what has scrolled off screen: `offscreen[i]` tells whether entity
/// `i` is past the margin around the window. Entities that disappear once
/// off screen go, and each enemy among them stops being counted.
pub fn despawn_offscreen(movables: &Vec<Movable>, offscreen: &Vec<bool>, count: &mut EnemyCount) -> (despawn: Vec<bool>)
    requires
        movables@.len() == offscreen@.len(),
        count_true(leaving_enemies(movables@, offscreen@)) <= old(count).0,
    ensures
        despawn@.len() == movables@.len(),
        forall|i: int| 0 <= i < movables@.len() ==> #[trigger] despawn@[i] == (movables@[i].auto_despawn && offscreen@[i]),
        final(count).0 == old(count).0 - count_true(leaving_enemies(movables@, offscreen@)),
        old(count).0 <= ENEMY_MAX ==> final(count).0 <= ENEMY_MAX,
{
    let ghost leaving = leaving_enemies(movables@, offscreen@);
    let mut despawn: Vec<bool> = Vec::new();
    let mut i: usize = 0;
    while i < movables.len()
        invariant
            i <= movables@.len(),
            movables@.len() == offscreen@.len(),
            leaving == leaving_enemies(movables@, offscreen@),
            despawn@.len() == i,
            forall|k: int| 0 <= k < i ==> #[trigger] despawn@[k] == (movables@[k].auto_despawn && offscreen@[k]),
            count_true(leaving) <= old(count).0,
            count.0 == old(count).0 - count_true(leaving.take(i as int)),
        decreases movables@.len() - i,
    {
        proof {
            count_true_step(leaving, i as int);
            count_true_prefix(leaving, i as int + 1);
        }
        let m = movables[i];
        let gone = m.auto_despawn && offscreen[i];
        if gone && m.enemy {
            count.0 = count.0 - 1;
        }
        despawn.push(gone);
        i = i + 1;
    }
    assert(leaving.take(movables@.len() as int) =~= leaving);
    despawn
}

// endregion

} // verus!
