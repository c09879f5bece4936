use escape_adventure::ammo_drop::{ammo_drop_step, plan_ammo_drop};
use escape_adventure::combat::{
    count_set, despawn_offscreen, enemy_contact, resolve_volley, PlayerLife, STARTING_PLAYER_LIVES,
};
use escape_adventure::components::{
    Ammo, Lives, Movable, PlayerLevel, PlayerState, ABOVE_Q, BOTTOM_Q, ENEMY_TYPE, LEVEL, MIDDLE_Q, PLAYER_STATE,
    QUARTERS_PER_PIXEL, STANDING_OFFSET_Q,
};
use escape_adventure::enemy::{
    enemy_spawn_step, plan_enemy_spawn, Chance, EnemyCount, ENEMY_MAX, STARTING_CHANCE,
};
use escape_adventure::player::{
    ammo_pickup, player_fire, player_keyboard_event, player_movement, PlayerMotion, STARTING_AMMO,
};

fn px(q: i32) -> f32 {
    q as f32 / QUARTERS_PER_PIXEL as f32
}

#[test]
fn lane_heights_match_pixel_layout() {
    let offset: f32 = 75. / 2. * 1.5 + 5.;
    assert_eq!(px(LEVEL::Below.lane_height()), -238.0 + offset);
    assert_eq!(px(LEVEL::Middle.lane_height()), -12.0 + offset);
    assert_eq!(px(LEVEL::Above.lane_height()), 212.0 + offset);
    assert_eq!(LEVEL::Below.lane_height(), -707);
    assert_eq!(LEVEL::Middle.lane_height(), 197);
    assert_eq!(LEVEL::Above.lane_height(), 1093);
    assert_eq!(px(BOTTOM_Q), -238.0);
    assert_eq!(px(MIDDLE_Q), -12.0);
    assert_eq!(px(ABOVE_Q), 212.0);
    assert_eq!(px(STANDING_OFFSET_Q), 61.25);
}

#[test]
fn lane_rolls() {
    assert_eq!(LEVEL::from_roll(0), LEVEL::Below);
    assert_eq!(LEVEL::from_roll(1), LEVEL::Middle);
    assert_eq!(LEVEL::from_roll(2), LEVEL::Above);
}

#[test]
fn scrolling_with_the_map() {
    let bullet = Movable { auto_despawn: true, enemy: false, ammo: false };
    let enemy = Movable { auto_despawn: true, enemy: true, ammo: false };
    let drop = Movable { auto_despawn: true, enemy: false, ammo: true };
    assert!(!bullet.scrolls_with_map());
    assert!(enemy.scrolls_with_map());
    assert!(drop.scrolls_with_map());
}

#[test]
fn enemy_plans() {
    let s = plan_enemy_spawn(0, STARTING_CHANCE, 14, 1, 1).unwrap();
    assert_eq!(s.level, LEVEL::Middle);
    assert_eq!(s.kind, ENEMY_TYPE::NINJA);
    assert_eq!(s.lives, Lives { lives: 1 });
    let s = plan_enemy_spawn(8, STARTING_CHANCE, 0, 2, 0).unwrap();
    assert_eq!(s.level, LEVEL::Above);
    assert_eq!(s.kind, ENEMY_TYPE::SAMURAI);
    assert_eq!(s.lives.lives, 3);
    assert_eq!(plan_enemy_spawn(0, STARTING_CHANCE, 0, 0, 0).unwrap().level, LEVEL::Below);
    // the roll must be strictly below the chance
    assert!(plan_enemy_spawn(0, STARTING_CHANCE, 15, 0, 0).is_none());
    // no spawn at the cap
    assert!(plan_enemy_spawn(ENEMY_MAX, STARTING_CHANCE, 0, 0, 0).is_none());
}

#[test]
fn enemy_spawn_respects_cap_and_chance() {
    let mut count = EnemyCount(0);
    // a certain chance always spawns until the cap is reached
    for k in 0..ENEMY_MAX {
        let s = enemy_spawn_step(&mut count, &Chance(100)).expect("spawn below the cap");
        assert_eq!(count.0, k + 1);
        match s.kind {
            ENEMY_TYPE::NINJA => assert_eq!(s.lives.lives, 1),
            ENEMY_TYPE::SAMURAI => assert_eq!(s.lives.lives, 3),
        }
    }
    for _ in 0..50 {
        assert!(enemy_spawn_step(&mut count, &Chance(100)).is_none());
        assert_eq!(count.0, ENEMY_MAX);
    }
    let mut count = EnemyCount(0);
    for _ in 0..50 {
        assert!(enemy_spawn_step(&mut count, &Chance(0)).is_none());
    }
    assert_eq!(count.0, 0);
}

#[test]
fn ammo_drop_plans() {
    assert_eq!(plan_ammo_drop(STARTING_CHANCE, 9, 2), Some(LEVEL::Above));
    assert_eq!(plan_ammo_drop(STARTING_CHANCE, 10, 2), None);
    assert_eq!(plan_ammo_drop(5, 0, 1), None);
    for _ in 0..50 {
        assert!(ammo_drop_step(&Chance(105)).is_some());
        assert!(ammo_drop_step(&Chance(5)).is_none());
    }
}

#[test]
fn jump_up_to_the_top_lane_and_back() {
    let mut m = PlayerMotion::spawn();
    assert_eq!(m.height, 197);
    player_keyboard_event(&mut m, true, false);
    assert_eq!(m.state.state, PLAYER_STATE::JumpUp);
    assert_eq!(m.vy, 20);
    let mut frames = 0;
    while m.state.state != PLAYER_STATE::Run {
        player_movement(&mut m);
        frames += 1;
    }
    // 896 quarter pixels at 20 per frame
    assert_eq!(frames, 45);
    assert_eq!(m.level.level, LEVEL::Above);
    assert_eq!(m.height, 197 + 45 * 20);
    assert_eq!(m.vy, 0);
    // no higher lane
    player_keyboard_event(&mut m, true, false);
    assert_eq!(m.state.state, PLAYER_STATE::Run);
    // down from the top lane
    player_keyboard_event(&mut m, false, true);
    assert_eq!(m.state.state, PLAYER_STATE::JumpDown);
    assert_eq!(m.vy, -8);
    player_movement(&mut m);
    assert_eq!(m.height, 1097 - 8);
    assert_eq!(m.vy, -12);
    let mut frames = 1;
    while m.state.state != PLAYER_STATE::Run {
        player_movement(&mut m);
        frames += 1;
    }
    assert_eq!(m.level.level, LEVEL::Middle);
    assert!(m.height <= 197);
    assert!(frames <= (1097 - 197) / 8 + 1);
    assert_eq!(m.vy, 0);
}

#[test]
fn keys_do_nothing_mid_jump_or_at_the_bottom() {
    let mut m = PlayerMotion::spawn();
    player_keyboard_event(&mut m, false, true);
    assert_eq!(m.state.state, PLAYER_STATE::JumpDown);
    let before = m;
    player_keyboard_event(&mut m, true, false);
    assert_eq!(m, before);
    while m.state.state != PLAYER_STATE::Run {
        player_movement(&mut m);
    }
    assert_eq!(m.level.level, LEVEL::Below);
    let before = m;
    player_keyboard_event(&mut m, false, true);
    assert_eq!(m, before);
    // up has priority over down
    player_keyboard_event(&mut m, true, true);
    assert_eq!(m.state.state, PLAYER_STATE::JumpUp);
    // a running player does not move
    let mut r = PlayerMotion::spawn();
    player_movement(&mut r);
    assert_eq!(r, PlayerMotion::spawn());
}

#[test]
fn firing_uses_ammo() {
    let mut ammo = Ammo { ammo: STARTING_AMMO };
    assert!(!player_fire(&mut ammo, false));
    assert_eq!(ammo.ammo, 5);
    for k in (0..5).rev() {
        assert!(player_fire(&mut ammo, true));
        assert_eq!(ammo.ammo, k);
    }
    assert!(!player_fire(&mut ammo, true));
    assert_eq!(ammo.ammo, 0);
}

#[test]
fn picking_up_ammo() {
    let mut ammo = Ammo { ammo: 0 };
    assert_eq!(ammo_pickup(&mut ammo, &vec![false, true, true]), Some(1));
    assert_eq!(ammo.ammo, 5);
    assert_eq!(ammo_pickup(&mut ammo, &vec![false, false]), None);
    assert_eq!(ammo.ammo, 5);
    assert_eq!(ammo_pickup(&mut ammo, &vec![]), None);
}

#[test]
fn volley_hits_first_standing_enemy() {
    // two bullets both overlapping a ninja (1 life) and a samurai (3 lives)
    let touching = vec![vec![true, true], vec![true, true], vec![false, false]];
    let mut lives = vec![Lives { lives: 1 }, Lives { lives: 3 }];
    let v = resolve_volley(&touching, &mut lives);
    assert_eq!(v.spent, vec![true, true, false]);
    assert_eq!(v.killed, vec![true, false]);
    assert_eq!(lives, vec![Lives { lives: 0 }, Lives { lives: 2 }]);
    assert_eq!(count_set(&v.spent), 2);
    assert_eq!(count_set(&v.killed), 1);
}

#[test]
fn volley_lives_lost_match_bullets_spent() {
    let touching = vec![vec![false, true], vec![false, true], vec![false, true], vec![false, true], vec![true, false]];
    let mut lives = vec![Lives { lives: 3 }, Lives { lives: 3 }];
    let v = resolve_volley(&touching, &mut lives);
    assert_eq!(v.spent, vec![true, true, true, false, true]);
    assert_eq!(v.killed, vec![false, true]);
    assert_eq!(lives, vec![Lives { lives: 2 }, Lives { lives: 0 }]);
    let lost: i32 = 6 - lives.iter().map(|l| l.lives).sum::<i32>();
    assert_eq!(lost as usize, count_set(&v.spent));
}

#[test]
fn enemy_contacts() {
    let mut life = PlayerLife(STARTING_PLAYER_LIVES);
    let c = enemy_contact(&mut life, false, &vec![true]);
    assert_eq!(c.enemy, None);
    assert_eq!(life.0, 3);
    let c = enemy_contact(&mut life, true, &vec![false, true, true]);
    assert_eq!(c.enemy, Some(1));
    assert!(!c.game_over);
    assert_eq!(life.0, 2);
    let c = enemy_contact(&mut life, true, &vec![false]);
    assert_eq!(c.enemy, None);
    enemy_contact(&mut life, true, &vec![true]);
    let c = enemy_contact(&mut life, true, &vec![true]);
    assert_eq!(c.enemy, Some(0));
    assert!(c.game_over);
    assert_eq!(life.0, 0);
}

#[test]
fn leaving_the_screen() {
    let enemy = Movable { auto_despawn: true, enemy: true, ammo: false };
    let bullet = Movable { auto_despawn: true, enemy: false, ammo: false };
    let sticky = Movable { auto_despawn: false, enemy: true, ammo: false };
    let mut count = EnemyCount(4);
    let d = despawn_offscreen(&vec![enemy, bullet, sticky, enemy], &vec![true, true, true, false], &mut count);
    assert_eq!(d, vec![true, true, false, false]);
    assert_eq!(count.0, 3);
    count.remove(3);
    assert_eq!(count.0, 0);
}

#[test]
fn motion_well_formedness() {
    let m = PlayerMotion::spawn();
    assert!(m.is_wf());
    let rising_from_top = PlayerMotion {
        state: PlayerState { state: PLAYER_STATE::JumpUp },
        level: PlayerLevel { level: LEVEL::Above },
        height: 1093,
        vy: 20,
    };
    assert!(!rising_from_top.is_wf());
    let drifting = PlayerMotion { vy: 4, ..m };
    assert!(!drifting.is_wf());
    let falling = PlayerMotion {
        state: PlayerState { state: PLAYER_STATE::JumpDown },
        level: PlayerLevel { level: LEVEL::Middle },
        height: 197,
        vy: -8,
    };
    assert!(falling.is_wf());
}

#[test]
fn jump_down_to_the_bottom_lane() {
    let mut m = PlayerMotion::spawn();
    player_keyboard_event(&mut m, false, true);
    // speeds in quarter pixels: -8, -12, -16, ... until 904 quarter pixels are covered
    let mut expected_height = 197;
    let mut expected_vy = -8;
    let mut frames = 0;
    while m.state.state != PLAYER_STATE::Run {
        player_movement(&mut m);
        frames += 1;
        expected_height += expected_vy;
        expected_vy -= 4;
        if m.state.state != PLAYER_STATE::Run {
            assert_eq!(m.height, expected_height);
            assert_eq!(m.vy, expected_vy);
        }
    }
    assert_eq!(m.height, expected_height);
    assert!(m.height <= -707);
    assert_eq!(m.level.level, LEVEL::Below);
    assert_eq!(frames, 20);
}
