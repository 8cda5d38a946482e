use mario_core::enemy::{move_enemy, Enemy, EnemyType};
use mario_core::mario::{handle_mario_dead_event, move_mario, MarioDead};
use mario_core::mushroom::{magic_mushroom_event_read, move_mushroom, MagicMushroomReleaseEvent};
use mario_core::{setup, tick, Intent, Sound, World};

fn no_intent() -> Intent {
    Intent { left: false, right: false, up: false }
}

fn empty_world() -> World {
    let mut w = setup();
    w.enemies.clear();
    w.mushrooms.clear();
    w.question_blocks.clear();
    w.empty_blocks.clear();
    w
}

#[test]
fn setup_builds_the_fixed_level() {
    let w = setup();
    let m = w.mario.expect("a live player");
    assert_eq!((m.x, m.y), (-2500, -780));
    assert!(!m.is_super_mario);
    assert!(w.mario_dead.is_none());
    assert_eq!(w.enemies.len(), 2);
    assert_eq!((w.enemies[0].x, w.enemies[0].y), (1750, -780));
    assert!(w.enemies[0].enemy_type == EnemyType::Goomba);
    assert_eq!((w.enemies[1].x, w.enemies[1].y), (1000, -740));
    assert!(w.enemies[1].enemy_type == EnemyType::Turtle);
    assert_eq!(w.mushrooms.len(), 1);
    assert!(!w.mushrooms[0].visible);
    assert_eq!(w.question_blocks.len(), 4);
    assert_eq!(w.empty_blocks.len(), 4);
    assert!(w.question_blocks[0].is_mushroom);
    assert!(!w.question_blocks[1].is_mushroom);
    assert!(w.music_playing);
    assert!(w.fireworks.is_empty());
}

#[test]
fn mario_walks_right_and_emits_a_move_event() {
    let mut w = empty_world();
    move_mario(&mut w, Intent { left: false, right: true, up: false });
    let m = w.mario.unwrap();
    assert_eq!(m.x, -2500 + 12);
    assert_eq!(m.y, -780); // already on the ground, gravity clamps
    assert_eq!(w.mario_move_events.len(), 1);
    assert_eq!(w.mario_move_events[0].x, -2488);
    assert_eq!(w.mario_move_events[0].y, -780);
}

#[test]
fn mario_without_horizontal_intent_emits_no_event() {
    let mut w = empty_world();
    move_mario(&mut w, Intent { left: true, right: true, up: false });
    assert!(w.mario_move_events.is_empty());
    assert_eq!(w.mario.unwrap().x, -2500);
}

#[test]
fn mario_is_clamped_to_the_left_level_bound() {
    let mut w = empty_world();
    move_mario(&mut w, Intent { left: true, right: false, up: false });
    assert_eq!(w.mario.unwrap().x, -2500);
}

#[test]
fn jumping_from_the_ground_plays_the_jump_sound() {
    let mut w = empty_world();
    move_mario(&mut w, Intent { left: false, right: false, up: true });
    let m = w.mario.unwrap();
    assert_eq!(m.y, -780 + 15);
    assert_eq!(w.sounds, vec![Sound::MarioJump]);
}

#[test]
fn super_mario_jump_uses_its_own_sound() {
    let mut w = empty_world();
    let mut m = w.mario.take().unwrap();
    m.is_super_mario = true;
    m.y = -700; // super ground height
    w.mario = Some(m);
    move_mario(&mut w, Intent { left: false, right: false, up: true });
    assert_eq!(w.sounds, vec![Sound::SuperMarioJump]);
    assert_eq!(w.mario.unwrap().y, -685);
}

#[test]
fn reaching_the_ceiling_engages_the_settle_lock() {
    let mut w = empty_world();
    let mut m = w.mario.take().unwrap();
    m.y = -105; // one step below the ceiling
    w.mario = Some(m);
    move_mario(&mut w, Intent { left: false, right: false, up: true });
    let m = w.mario.unwrap();
    assert_eq!(m.y, -100);
    // Holding up now forces descent until the player lands again.
    move_mario(&mut w, Intent { left: false, right: false, up: true });
    let m = w.mario.unwrap();
    assert_eq!(m.y, -115);
}

#[test]
fn landing_releases_the_settle_lock() {
    let mut w = empty_world();
    let mut m = w.mario.take().unwrap();
    m.y = -770;
    m.dont_go_up_until_settle = true;
    w.mario = Some(m);
    move_mario(&mut w, Intent { left: false, right: false, up: true });
    let m = w.mario.unwrap();
    assert_eq!(m.y, -780); // forced down, clamped at the ground
    assert!(!m.dont_go_up_until_settle);
    move_mario(&mut w, Intent { left: false, right: false, up: true });
    assert_eq!(w.mario.unwrap().y, -765); // free to climb again
}

#[test]
fn enemy_patrol_flips_at_the_right_bound() {
    let mut w = empty_world();
    w.enemies.push(Enemy { id: 1, x: 1800, y: -780, go_right: true, enemy_type: EnemyType::Goomba });
    move_enemy(&mut w);
    assert_eq!(w.enemies[0].x, 1800);
    assert!(!w.enemies[0].go_right);
    move_enemy(&mut w);
    assert_eq!(w.enemies[0].x, 1795);
    assert!(!w.enemies[0].go_right);
}

#[test]
fn enemy_patrol_flips_at_the_left_bound() {
    let mut w = empty_world();
    w.enemies.push(
        Enemy { id: 1, x: -2500, y: -780, go_right: false, enemy_type: EnemyType::Turtle },
    );
    move_enemy(&mut w);
    assert_eq!(w.enemies[0].x, -2500);
    assert!(w.enemies[0].go_right);
    move_enemy(&mut w);
    assert_eq!(w.enemies[0].x, -2495);
    assert!(w.enemies[0].go_right);
}

#[test]
fn every_enemy_emits_a_position_event_each_tick() {
    let mut w = empty_world();
    w.enemies.push(Enemy { id: 7, x: 0, y: -780, go_right: true, enemy_type: EnemyType::Goomba });
    w.enemies.push(Enemy { id: 8, x: 100, y: -740, go_right: false, enemy_type: EnemyType::Turtle });
    move_enemy(&mut w);
    assert_eq!(w.enemy_move_events.len(), 2);
    assert_eq!(w.enemy_move_events[0].entity, 7);
    assert_eq!(w.enemy_move_events[0].x, 5);
    assert_eq!(w.enemy_move_events[1].entity, 8);
    assert_eq!(w.enemy_move_events[1].x, 95);
}

#[test]
fn hidden_mushroom_does_not_move() {
    let mut w = setup();
    let before = (w.mushrooms[0].x, w.mushrooms[0].y);
    move_mushroom(&mut w);
    assert_eq!((w.mushrooms[0].x, w.mushrooms[0].y), before);
}

#[test]
fn released_mushroom_rises_then_rolls() {
    let mut w = setup();
    w.mushroom_release_events.push(MagicMushroomReleaseEvent { x: 20, y: -295 });
    magic_mushroom_event_read(&mut w);
    assert!(w.mushrooms[0].visible);
    assert!(w.mushroom_release_events.is_empty());
    // Rise by 0.4 units per tick until clearing the release height.
    move_mushroom(&mut w);
    assert_eq!(w.mushrooms[0].y, -291);
    assert!(!w.mushrooms[0].is_released);
    let mut guard = 0;
    while !w.mushrooms[0].is_released {
        move_mushroom(&mut w);
        guard += 1;
        assert!(guard < 100, "mushroom never finished rising");
    }
    assert_eq!(w.mushrooms[0].y, -107); // -295 + 47 * 4
    // Now rolling: right at 0.5/tick, and the roll clamp snaps it down to
    // its vertical ceiling of -12.0.
    move_mushroom(&mut w);
    assert_eq!(w.mushrooms[0].x, 25);
    assert_eq!(w.mushrooms[0].y, -120);
}

#[test]
fn release_event_pairs_by_exact_coordinates_only() {
    let mut w = setup();
    w.mushroom_release_events.push(MagicMushroomReleaseEvent { x: 21, y: -295 });
    magic_mushroom_event_read(&mut w);
    assert!(!w.mushrooms[0].visible, "an off-by-one release must not match");
}

#[test]
fn rolling_mushroom_turns_at_the_right_bound_and_leaves_at_the_left() {
    let mut w = empty_world();
    w.mushrooms.push(mario_core::mushroom::MagicMushroom {
        id: 2,
        x: 1798,
        y: -300,
        visible: true,
        is_released: true,
        x_reached_max: false,
    });
    move_mushroom(&mut w);
    assert_eq!(w.mushrooms[0].x, 1800);
    assert!(w.mushrooms[0].x_reached_max);
    move_mushroom(&mut w);
    assert_eq!(w.mushrooms[0].x, 1795);
    // Past the ledge it falls faster (0.5 instead of 0.1 per tick).
    assert_eq!(w.mushrooms[0].y, -310);
    w.mushrooms[0].x = -2798;
    move_mushroom(&mut w);
    assert_eq!(w.mushrooms[0].x, -2800);
    assert!(!w.mushrooms[0].visible, "reaching the left bound consumes it");
}

#[test]
fn dead_mario_rises_then_falls() {
    let mut w = empty_world();
    w.mario = None;
    w.mario_dead = Some(MarioDead { id: 9, x: 0, y: -400, go_up: true });
    handle_mario_dead_event(&mut w);
    let d = w.mario_dead.unwrap();
    assert_eq!(d.y, -380);
    assert!(d.go_up);
    let mut guard = 0;
    while w.mario_dead.unwrap().go_up {
        handle_mario_dead_event(&mut w);
        guard += 1;
        assert!(guard < 100, "dead player never reached the turning height");
    }
    let top = w.mario_dead.unwrap().y;
    assert_eq!(top, -300);
    handle_mario_dead_event(&mut w);
    assert_eq!(w.mario_dead.unwrap().y, top - 15);
}

#[test]
fn a_tick_without_a_live_player_skips_cleanly() {
    let mut w = setup();
    w.mario = None;
    w.mario_dead = Some(MarioDead { id: 50, x: 0, y: -500, go_up: false });
    tick(&mut w, Intent { left: true, right: false, up: true });
    assert!(w.mario.is_none());
    let d = w.mario_dead.unwrap();
    assert_eq!(d.y, -515, "only the death animation advances");
    assert!(w.sounds.is_empty());
    assert_eq!(w.enemies.len(), 2, "enemies keep patrolling");
    assert_eq!(w.enemies[0].x, 1745);
}

#[test]
fn quiet_tick_is_pure_movement() {
    let mut w = setup();
    tick(&mut w, Intent { left: false, right: true, up: false });
    assert!(w.sounds.is_empty(), "nothing to interact with at the level start");
    let m = w.mario.unwrap();
    assert_eq!((m.x, m.y), (-2488, -780));
    assert_eq!(w.enemies[0].x, 1745, "the goomba patrolled one step left");
    assert_eq!(w.enemies[1].x, 995, "the turtle patrolled one step left");
    assert_eq!(w.enemies.len(), 2);
}

#[test]
fn player_and_enemies_stay_in_bounds_over_many_ticks() {
    let mut w = setup();
    for i in 0..600 {
        let intent = Intent { left: false, right: true, up: i % 3 == 0 };
        tick(&mut w, intent);
        if let Some(m) = &w.mario {
            assert!((-2500..=2300).contains(&m.x));
            assert!((-780..=-30).contains(&m.y));
        }
        for e in &w.enemies {
            assert!((-2500..=1800).contains(&e.x));
        }
        for mu in &w.mushrooms {
            assert!((-2800..=1800).contains(&mu.x));
        }
    }
}
