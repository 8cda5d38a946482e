use mario_core::enemy::{
    enemy_move_event_read_for_mario, is_enemy_hit_mario, Enemy, EnemyMoveEvent, EnemyType,
};
use mario_core::mario::{
    mario_changed_as_supermario_event_read, mario_move_event_read, Mario, MarioMoveEvent,
};
use mario_core::question_block::hit_questionblock_by_mario;
use mario_core::{setup, Sound, World};

fn empty_world() -> World {
    let mut w = setup();
    w.enemies.clear();
    w.mushrooms.clear();
    w.question_blocks.clear();
    w.empty_blocks.clear();
    w
}

fn world_with_player(x: i64, y: i64, is_super: bool) -> World {
    let mut w = empty_world();
    w.mario = Some(Mario { id: 11, x, y, dont_go_up_until_settle: false, is_super_mario: is_super });
    w
}

#[test]
fn hit_test_keeps_the_last_overlapping_event() {
    let events = vec![
        EnemyMoveEvent { entity: 1, x: 0, y: -600 },
        EnemyMoveEvent { entity: 2, x: 10, y: -605 },
        EnemyMoveEvent { entity: 3, x: 500, y: -600 },
    ];
    assert_eq!(is_enemy_hit_mario(&events, 0, -600), Some(2));
}

#[test]
fn hit_test_respects_both_margins() {
    // 5.0 units horizontally, 8.0 vertically.
    let events = vec![EnemyMoveEvent { entity: 1, x: 51, y: -600 }];
    assert_eq!(is_enemy_hit_mario(&events, 0, -600), None);
    let events = vec![EnemyMoveEvent { entity: 1, x: 50, y: -680 }];
    assert_eq!(is_enemy_hit_mario(&events, 0, -600), Some(1));
    let events = vec![EnemyMoveEvent { entity: 1, x: 50, y: -681 }];
    assert_eq!(is_enemy_hit_mario(&events, 0, -600), None);
}

#[test]
fn stomp_takes_priority_over_death_above_the_threshold() {
    // Player at y = -60.0, well above the small kill threshold of -74.0:
    // the hit must always resolve as a stomp, never as a death.
    let mut w = world_with_player(0, -600, false);
    w.enemies.push(Enemy { id: 5, x: 0, y: -600, go_right: true, enemy_type: EnemyType::Goomba });
    w.enemy_move_events.push(EnemyMoveEvent { entity: 5, x: 0, y: -600 });
    enemy_move_event_read_for_mario(&mut w);
    assert!(w.enemies.is_empty(), "the enemy must be removed");
    let m = w.mario.expect("the player survives a stomp");
    assert_eq!((m.x, m.y), (0, -600));
    assert!(!m.is_super_mario);
    assert!(w.mario_dead.is_none());
    assert_eq!(w.sounds, vec![Sound::Stomp]);
    assert_eq!(w.enemy_dead_events.len(), 1);
    assert!(w.music_playing);
}

#[test]
fn ground_level_hit_kills_the_small_player() {
    // Player at (175.0, -78.0), enemy at the same position: both margins
    // hold and -78.0 is at or below the kill threshold of -74.0.
    let mut w = world_with_player(1750, -780, false);
    w.enemies.push(Enemy { id: 5, x: 1750, y: -780, go_right: false, enemy_type: EnemyType::Goomba });
    w.enemy_move_events.push(EnemyMoveEvent { entity: 5, x: 1750, y: -780 });
    enemy_move_event_read_for_mario(&mut w);
    assert!(w.mario.is_none(), "the small player dies");
    let d = w.mario_dead.expect("the dead remains spawn in the player's place");
    assert_eq!((d.x, d.y), (1750, -780));
    assert!(d.go_up);
    assert_eq!(w.sounds, vec![Sound::MarioDie]);
    assert!(!w.music_playing, "the level music stops on death");
    assert_eq!(w.enemies.len(), 1, "the enemy survives");
}

#[test]
fn super_player_above_threshold_stomps_and_stays_super() {
    // Player at (170.0, -65.0) Super, enemy at (172.0, -65.0):
    // -65.0 is above the super kill threshold of -70.0.
    let mut w = world_with_player(1700, -650, true);
    w.enemies.push(Enemy { id: 5, x: 1720, y: -650, go_right: false, enemy_type: EnemyType::Turtle });
    w.enemy_move_events.push(EnemyMoveEvent { entity: 5, x: 1720, y: -650 });
    enemy_move_event_read_for_mario(&mut w);
    assert!(w.enemies.is_empty(), "the enemy is removed");
    let m = w.mario.expect("the player survives");
    assert!(m.is_super_mario, "the player stays super");
    assert_eq!((m.x, m.y), (1700, -650));
    assert_eq!(w.sounds, vec![Sound::Stomp]);
}

#[test]
fn super_player_at_threshold_powers_down() {
    let mut w = world_with_player(1000, -700, true);
    w.enemies.push(Enemy { id: 5, x: 1000, y: -700, go_right: false, enemy_type: EnemyType::Goomba });
    w.enemy_move_events.push(EnemyMoveEvent { entity: 5, x: 1000, y: -700 });
    enemy_move_event_read_for_mario(&mut w);
    let m = w.mario.expect("the player survives a power-down");
    assert!(!m.is_super_mario);
    assert_eq!((m.x, m.y), (1000 + 500, -740), "replaced 50 units right at ground height");
    assert!(w.mario_dead.is_none());
    assert_eq!(w.sounds, vec![Sound::PowerDown]);
    assert_eq!(w.enemies.len(), 1, "the enemy survives a power-down");
    assert!(w.music_playing);
}

#[test]
fn exactly_one_player_after_every_transition() {
    // Death: live player replaced by dead remains.
    let mut w = world_with_player(0, -780, false);
    w.enemy_move_events.push(EnemyMoveEvent { entity: 1, x: 0, y: -780 });
    w.enemies.push(Enemy { id: 1, x: 0, y: -780, go_right: false, enemy_type: EnemyType::Goomba });
    enemy_move_event_read_for_mario(&mut w);
    assert_eq!(w.mario.is_some() as u8 + w.mario_dead.is_some() as u8, 1);

    // Power-down: super player replaced by a small one.
    let mut w = world_with_player(0, -700, true);
    w.enemy_move_events.push(EnemyMoveEvent { entity: 1, x: 0, y: -700 });
    w.enemies.push(Enemy { id: 1, x: 0, y: -700, go_right: false, enemy_type: EnemyType::Goomba });
    enemy_move_event_read_for_mario(&mut w);
    assert_eq!(w.mario.is_some() as u8 + w.mario_dead.is_some() as u8, 1);

    // Power-up: small player replaced by a super one.
    let mut w = world_with_player(0, -780, false);
    w.super_mario_events.push(mario_core::mario::MarioChangedAsSuperMarioEvent { x: 0, y: -780 });
    mario_changed_as_supermario_event_read(&mut w);
    assert_eq!(w.mario.is_some() as u8 + w.mario_dead.is_some() as u8, 1);
    assert!(w.mario.unwrap().is_super_mario);
}

#[test]
fn pickup_turns_the_player_super_above_the_pickup_position() {
    let mut w = world_with_player(0, -780, false);
    w.mushrooms.push(mario_core::mushroom::MagicMushroom {
        id: 2,
        x: 90,
        y: -300,
        visible: true,
        is_released: true,
        x_reached_max: false,
    });
    let old_id = w.mario.as_ref().unwrap().id;
    w.mario_move_events.push(MarioMoveEvent { x: 0, y: -780 });
    mario_move_event_read(&mut w);
    assert!(!w.mushrooms[0].visible, "the mushroom is collected");
    assert_eq!(w.sounds, vec![Sound::PowerUp]);
    assert_eq!(w.super_mario_events.len(), 1);
    assert!(w.mario_move_events.is_empty());
    mario_changed_as_supermario_event_read(&mut w);
    let m = w.mario.expect("a super player");
    assert!(m.is_super_mario);
    assert_eq!((m.x, m.y), (0, -780 + 70), "spawned 7.0 units above the pickup");
    assert_ne!(m.id, old_id, "the old identity was destroyed");
    assert!(w.super_mario_events.is_empty());
}

#[test]
fn mushroom_out_of_pickup_range_is_ignored() {
    let mut w = world_with_player(0, -780, false);
    w.mushrooms.push(mario_core::mushroom::MagicMushroom {
        id: 2,
        x: 101,
        y: -300,
        visible: true,
        is_released: true,
        x_reached_max: false,
    });
    w.mario_move_events.push(MarioMoveEvent { x: 0, y: -780 });
    mario_move_event_read(&mut w);
    assert!(w.mushrooms[0].visible);
    assert!(w.sounds.is_empty());
    assert!(w.super_mario_events.is_empty());
}

#[test]
fn coin_block_consumes_and_reveals_its_placeholder() {
    let mut w = setup();
    // Stand at the coin block at (82.5, -29.5).
    let mut m = w.mario.take().unwrap();
    m.x = 825;
    m.y = -330;
    w.mario = Some(m);
    hit_questionblock_by_mario(&mut w);
    assert!(w.question_blocks[1].consumed);
    assert!(w.empty_blocks[1].visible);
    assert_eq!(w.sounds, vec![Sound::Coin]);
    assert!(w.mushroom_release_events.is_empty(), "a coin block releases nothing");
    assert!(!w.question_blocks[0].consumed);
    assert!(!w.empty_blocks[0].visible);
}

#[test]
fn mushroom_block_fires_the_release_event() {
    let mut w = setup();
    let mut m = w.mario.take().unwrap();
    m.x = 20;
    m.y = -330;
    w.mario = Some(m);
    hit_questionblock_by_mario(&mut w);
    assert!(w.question_blocks[0].consumed);
    assert!(w.empty_blocks[0].visible);
    assert_eq!(w.sounds, vec![Sound::MushroomAppears]);
    assert_eq!(w.mushroom_release_events.len(), 1);
    assert_eq!(w.mushroom_release_events[0].x, 20);
    assert_eq!(w.mushroom_release_events[0].y, -295);
}

#[test]
fn consumed_block_is_one_shot() {
    let mut w = setup();
    let mut m = w.mario.take().unwrap();
    m.x = 825;
    m.y = -330;
    w.mario = Some(m);
    hit_questionblock_by_mario(&mut w);
    assert!(w.question_blocks[1].consumed);
    assert!(w.empty_blocks[1].visible);
    w.sounds.clear();
    // A second hit at the same coordinates produces no further event.
    hit_questionblock_by_mario(&mut w);
    assert!(w.sounds.is_empty());
    assert!(w.mushroom_release_events.is_empty());
    assert!(w.empty_blocks[1].visible, "the placeholder stays visible");
    assert!(w.question_blocks[1].consumed);
}

#[test]
fn missed_block_stays_full() {
    let mut w = setup();
    let mut m = w.mario.take().unwrap();
    m.x = 825 + 51; // one tenth outside the margin
    m.y = -330;
    w.mario = Some(m);
    hit_questionblock_by_mario(&mut w);
    assert!(!w.question_blocks[1].consumed);
    assert!(w.sounds.is_empty());
}
