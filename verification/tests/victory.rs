use mario_core::enemy::{enemy_dead_event_read, Enemy, EnemyDead, EnemyType};
use mario_core::firework::{animate_fireworks, show_fireworks, Firework};
use mario_core::mario::Mario;
use mario_core::{setup, tick, Intent, Sound, World};

fn empty_world() -> World {
    let mut w = setup();
    w.enemies.clear();
    w.mushrooms.clear();
    w.question_blocks.clear();
    w.empty_blocks.clear();
    w
}

#[test]
fn stomping_the_last_enemy_triggers_the_victory_sequence() {
    let mut w = empty_world();
    w.mario = Some(Mario { id: 11, x: 0, y: -600, dont_go_up_until_settle: false, is_super_mario: false });
    w.enemies.push(Enemy { id: 5, x: 0, y: -600, go_right: false, enemy_type: EnemyType::Goomba });
    tick(&mut w, Intent { left: false, right: false, up: false });
    assert!(w.enemies.is_empty(), "the last enemy is stomped");
    assert_eq!(w.fireworks.len(), 7, "exactly seven bursts spawn");
    for f in &w.fireworks {
        assert!((-2500..1800).contains(&f.x), "burst x inside the rectangle");
        assert!((100..1100).contains(&f.y), "burst y inside the rectangle");
    }
    assert!(!w.music_playing, "the level music stops");
    assert!(w.sounds.contains(&Sound::Stomp));
    assert!(w.sounds.contains(&Sound::StageClear));
    // The same tick already reveals the front burst with its bang.
    assert!(w.fireworks[0].visible);
    assert!(w.sounds.contains(&Sound::Firework));
    assert!(w.fireworks[1..].iter().all(|f| !f.visible));
    // All queues are drained by the end of the tick.
    assert!(w.enemy_dead_events.is_empty());
    assert!(w.enemy_move_events.is_empty());
    // Victory never fires a second time: the next tick only animates the
    // bursts already in flight.
    tick(&mut w, Intent { left: false, right: false, up: false });
    assert_eq!(w.fireworks.len(), 7);
    assert!(!w.sounds.contains(&Sound::StageClear));
    assert_eq!(w.fireworks[0].frame, 2, "the revealed burst keeps animating");
}

#[test]
fn victory_does_not_fire_while_enemies_remain() {
    let mut w = empty_world();
    w.enemies.push(Enemy { id: 5, x: 0, y: -780, go_right: false, enemy_type: EnemyType::Goomba });
    w.enemy_dead_events.push(EnemyDead);
    enemy_dead_event_read(&mut w);
    assert!(w.fireworks.is_empty());
    assert!(w.music_playing);
    assert!(w.sounds.is_empty());
    assert!(w.enemy_dead_events.is_empty(), "the stale event is still drained");
}

#[test]
fn victory_needs_a_dead_event_not_just_an_empty_level() {
    let mut w = empty_world();
    enemy_dead_event_read(&mut w);
    assert!(w.fireworks.is_empty());
    assert!(w.music_playing);
}

#[test]
fn fireworks_reveal_one_at_a_time_and_despawn_after_the_last_frame() {
    let mut w = empty_world();
    w.fireworks.push(Firework { id: 20, x: 0, y: 500, visible: false, frame: 0 });
    w.fireworks.push(Firework { id: 21, x: 100, y: 600, visible: false, frame: 0 });
    show_fireworks(&mut w);
    assert!(w.fireworks[0].visible);
    assert!(!w.fireworks[1].visible, "only the front burst is revealed");
    assert_eq!(w.sounds, vec![Sound::Firework]);
    // Revealing an already visible front burst plays nothing further.
    show_fireworks(&mut w);
    assert_eq!(w.sounds.len(), 1);
    // The visible burst animates to its final frame and despawns there,
    // while the hidden one stays untouched.
    for expected in 1..=14u64 {
        animate_fireworks(&mut w);
        assert_eq!(w.fireworks[0].frame, expected);
        assert_eq!(w.fireworks[1].frame, 0);
    }
    animate_fireworks(&mut w);
    assert_eq!(w.fireworks.len(), 1, "the exhausted burst despawns");
    assert_eq!(w.fireworks[0].id, 21);
    // Its successor is now the front burst and gets revealed in turn.
    show_fireworks(&mut w);
    assert!(w.fireworks[0].visible);
    assert_eq!(w.sounds, vec![Sound::Firework, Sound::Firework]);
}

#[test]
fn long_playthrough_keeps_the_world_well_formed() {
    // Drive the real level for a long stretch of mixed input and check the
    // steady-state guarantees: one player entity, and no event ever
    // survives its tick.
    let mut w = setup();
    for i in 0..2000 {
        let intent = Intent { left: false, right: i % 2 == 0, up: i % 5 == 0 };
        tick(&mut w, intent);
        assert_eq!(
            w.mario.is_some() as u8 + w.mario_dead.is_some() as u8,
            1,
            "exactly one player entity at every tick",
        );
        assert!(w.enemy_move_events.is_empty());
        assert!(w.mario_move_events.is_empty());
        assert!(w.super_mario_events.is_empty());
        assert!(w.mushroom_release_events.is_empty());
        assert!(w.enemy_dead_events.is_empty());
    }
}
