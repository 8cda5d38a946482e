//! Enemy actors: patrol movement, the enemy/player hit test and its
//! consequences, and the victory sequence fired when the last enemy dies.

use vstd::prelude::*;

use rand::distributions::Distribution;

use crate::firework::Firework;
use crate::mario::{Mario, MarioDead};
use crate::{
    clamp_i64, clamp_spec, Sound, World, DEAD_RISE_DY, ENEMY_DX, ENEMY_HIT_MARGIN_X,
    ENEMY_HIT_MARGIN_Y, FIREWORK_COUNT, FIREWORK_X_MAX, FIREWORK_X_MIN, FIREWORK_Y_MAX,
    FIREWORK_Y_MIN, LEVEL_X_MAX, LEVEL_X_MIN, PLAYER_Y_MAX, POWERDOWN_DX, POWERDOWN_Y,
    SMALL_KILL_Y, SMALL_MIN_Y, SUPER_KILL_Y, SUPER_SPAWN_DY,
};

verus! {

#[derive(Clone, Copy, Debug, PartialEq, Eq, Structural)]
pub enum EnemyType {
    Goomba,
    Turtle,
}

/// An enemy was stomped this tick.
#[derive(Clone, Copy, Debug)]
pub struct EnemyDead;

/// A patrolling enemy.
#[derive(Clone, Copy, Debug)]
pub struct Enemy {
    pub id: u64,
    pub x: i64,
    pub y: i64,
    pub go_right: bool,
    pub enemy_type: EnemyType,
}

/// An enemy moved this tick and now stands at this position.
#[derive(Clone, Copy, Debug)]
pub struct EnemyMoveEvent {
    pub entity: u64,
    pub x: i64,
    pub y: i64,
}

/// Where a patrol step from `x` in the current direction lands.
pub open spec fn enemy_step_x(x: int, go_right: bool) -> int {
    clamp_spec(if go_right { x + ENEMY_DX } else { x - ENEMY_DX }, LEVEL_X_MIN as int, LEVEL_X_MAX as int)
}

/// The patrol direction after a step that landed on `new_x`: reaching either
/// level bound turns the enemy around for the next tick.
pub open spec fn enemy_step_dir(new_x: int, go_right: bool) -> bool {
    if new_x == LEVEL_X_MIN {
        true
    } else if new_x == LEVEL_X_MAX {
        false
    } else {
        go_right
    }
}

/// `e1` is `e0` after one patrol step.
pub open spec fn enemy_stepped(e0: Enemy, e1: Enemy) -> bool {
    &&& e1.id == e0.id
    &&& e1.y == e0.y
    &&& e1.enemy_type == e0.enemy_type
    &&& e1.x == enemy_step_x(e0.x as int, e0.go_right)
    &&& e1.go_right == enemy_step_dir(e1.x as int, e0.go_right)
}

/// All fields of the world other than the enemies and the enemy-move queue
/// are the same in `a` and `b`.
pub open spec fn eq_except_enemy_move(a: World, b: World) -> bool {
    &&& b.next_id == a.next_id
    &&& b.mario == a.mario
    &&& b.mario_dead == a.mario_dead
    &&& b.mushrooms == a.mushrooms
    &&& b.question_blocks == a.question_blocks
    &&& b.empty_blocks == a.empty_blocks
    &&& b.fireworks == a.fireworks
    &&& b.music_playing == a.music_playing
    &&& b.sounds == a.sounds
    &&& b.mario_move_events == a.mario_move_events
    &&& b.enemy_dead_events == a.enemy_dead_events
    &&& b.mushroom_release_events == a.mushroom_release_events
    &&& b.super_mario_events == a.super_mario_events
}

/// Movement stage for enemies: every enemy takes one patrol step, clamped to
/// the level bounds, turning around at either bound, and a position event is
/// emitted for every enemy, moved or not.
pub fn move_enemy(w: &mut World)
    requires
        old(w).wf_enemies(),
    ensures
        eq_except_enemy_move(*old(w), *final(w)),
        final(w).enemies@.len() == old(w).enemies@.len(),
        forall|i: int|
            0 <= i < final(w).enemies@.len() ==> enemy_stepped(
                old(w).enemies@[i],
                #[trigger] final(w).enemies@[i],
            ),
        final(w).enemy_move_events@.len() == old(w).enemy_move_events@.len() + old(
            w,
        ).enemies@.len(),
        forall|i: int|
            0 <= i < old(w).enemy_move_events@.len() ==> #[trigger] final(w).enemy_move_events@[i]
                == old(w).enemy_move_events@[i],
        forall|i: int|
            0 <= i < final(w).enemies@.len() ==> #[trigger] final(w).enemy_move_events@[old(
                w,
            ).enemy_move_events@.len() + i] == (EnemyMoveEvent {
                entity: final(w).enemies@[i].id,
                x: final(w).enemies@[i].x,
                y: final(w).enemies@[i].y,
            }),
        final(w).wf_enemies(),
{
    let n = w.enemies.len();
    let ghost evs0 = w.enemy_move_events@.len() as int;
    for i in 0..n
        invariant
            n == w.enemies@.len(),
            n == old(w).enemies@.len(),
            eq_except_enemy_move(*old(w), *w),
            forall|j: int|
                0 <= j < i ==> enemy_stepped(old(w).enemies@[j], #[trigger] w.enemies@[j]),
            forall|j: int| i <= j < n ==> #[trigger] w.enemies@[j] == old(w).enemies@[j],
            old(w).wf_enemies(),
            w.enemy_move_events@.len() == evs0 + i,
            evs0 == old(w).enemy_move_events@.len(),
            forall|j: int|
                0 <= j < evs0 ==> #[trigger] w.enemy_move_events@[j] == old(
                    w,
                ).enemy_move_events@[j],
            forall|j: int|
                0 <= j < i ==> #[trigger] w.enemy_move_events@[evs0 + j] == (EnemyMoveEvent {
                    entity: w.enemies@[j].id,
                    x: w.enemies@[j].x,
                    y: w.enemies@[j].y,
                }),
    {
        let e = w.enemies[i];
        assert(LEVEL_X_MIN <= e.x <= LEVEL_X_MAX);
        let position: i64 = if e.go_right {
            e.x + ENEMY_DX
        } else {
            e.x - ENEMY_DX
        };
        let nx = clamp_i64(position, LEVEL_X_MIN, LEVEL_X_MAX);
        let ndir = if nx == LEVEL_X_MIN {
            true
        } else if nx == LEVEL_X_MAX {
            false
        } else {
            e.go_right
        };
        let ne = Enemy { x: nx, go_right: ndir, ..e };
        w.enemies.set(i, ne);
        w.enemy_move_events.push(EnemyMoveEvent { entity: ne.id, x: ne.x, y: ne.y });
    }
    assert forall|i: int| 0 <= i < w.enemies@.len() implies LEVEL_X_MIN
        <= (#[trigger] w.enemies@[i]).x <= LEVEL_X_MAX by {
        assert(enemy_stepped(old(w).enemies@[i], w.enemies@[i]));
    }
    assert forall|i: int, j: int|
        0 <= i < j < w.enemies@.len() implies (#[trigger] w.enemies@[i]).id
        != (#[trigger] w.enemies@[j]).id by {
        assert(enemy_stepped(old(w).enemies@[i], w.enemies@[i]));
        assert(enemy_stepped(old(w).enemies@[j], w.enemies@[j]));
    }
}

/// Patrol-reversal law: an enemy standing at the right level bound and
/// moving right turns around on its next step (and stays at the bound), and
/// symmetrically at the left bound.
pub proof fn lemma_patrol_reversal(e0: Enemy, e1: Enemy)
    requires
        enemy_stepped(e0, e1),
    ensures
        e0.x == LEVEL_X_MAX && e0.go_right ==> e1.x == LEVEL_X_MAX && !e1.go_right,
        e0.x == LEVEL_X_MIN && !e0.go_right ==> e1.x == LEVEL_X_MIN && e1.go_right,
{
}

/// Whether an enemy position event overlaps the player at `(mx, my)` within
/// the asymmetric hit margins.
pub open spec fn enemy_hits_mario(e: EnemyMoveEvent, mx: int, my: int) -> bool {
    &&& mx - ENEMY_HIT_MARGIN_X <= e.x <= mx + ENEMY_HIT_MARGIN_X
    &&& my - ENEMY_HIT_MARGIN_Y <= e.y <= my + ENEMY_HIT_MARGIN_Y
}

/// The enemy reported by scanning all position events in order and keeping
/// the last one that overlaps the player: later events overwrite earlier
/// ones, so simultaneous hits collapse to the last in iteration order.
pub open spec fn last_hit(es: Seq<EnemyMoveEvent>, mx: int, my: int) -> Option<u64>
    decreases es.len(),
{
    if es.len() == 0 {
        None
    } else if enemy_hits_mario(es.last(), mx, my) {
        Some(es.last().entity)
    } else {
        last_hit(es.drop_last(), mx, my)
    }
}

/// Scan the enemy position events of this tick against the player position,
/// keeping the last overlapping event.
pub fn is_enemy_hit_mario(events: &Vec<EnemyMoveEvent>, mx: i64, my: i64) -> (r: Option<u64>)
    requires
        LEVEL_X_MIN <= mx <= LEVEL_X_MAX + POWERDOWN_DX,
        SMALL_MIN_Y <= my <= PLAYER_Y_MAX + SUPER_SPAWN_DY,
    ensures
        r == last_hit(events@, mx as int, my as int),
{
    let mut hit_event: Option<u64> = None;
    let n = events.len();
    for i in 0..n
        invariant
            n == events@.len(),
            LEVEL_X_MIN <= mx <= LEVEL_X_MAX + POWERDOWN_DX,
            SMALL_MIN_Y <= my <= PLAYER_Y_MAX + SUPER_SPAWN_DY,
            hit_event == last_hit(events@.take(i as int), mx as int, my as int),
    {
        let e = events[i];
        if e.x >= mx - ENEMY_HIT_MARGIN_X && e.x <= mx + ENEMY_HIT_MARGIN_X && (e.y >= my
            - ENEMY_HIT_MARGIN_Y && e.y <= my + ENEMY_HIT_MARGIN_Y) {
            hit_event = Some(e.entity);
        }
        proof {
            let pre = events@.take(i as int);
            let cur = events@.take(i + 1 as int);
            assert(cur.drop_last() =~= pre);
            assert(cur.last() == events@[i as int]);
        }
    }
    proof {
        assert(events@.take(n as int) =~= events@);
    }
    hit_event
}

/// Remove the first enemy with the given identity, if any.
fn remove_enemy_by_id(enemies: &mut Vec<Enemy>, id: u64)
    ensures
        (forall|i: int| 0 <= i < old(enemies)@.len() ==> (#[trigger] old(enemies)@[i]).id != id)
            ==> final(enemies)@ == old(enemies)@,
        (exists|i: int| 0 <= i < old(enemies)@.len() && (#[trigger] old(enemies)@[i]).id == id)
            ==> exists|i: int|
            {
                &&& 0 <= i < old(enemies)@.len()
                &&& (#[trigger] old(enemies)@[i]).id == id
                &&& final(enemies)@ == old(enemies)@.remove(i)
            },
{
    let n = enemies.len();
    for i in 0..n
        invariant
            n == enemies@.len(),
            enemies@ == old(enemies)@,
            forall|j: int| 0 <= j < i ==> (#[trigger] enemies@[j]).id != id,
    {
        if enemies[i].id == id {
            enemies.remove(i);
            return ;
        }
    }
}

/// The height at or below which an enemy collision kills the player rather
/// than being a stomp, for the given size state.
pub open spec fn kill_threshold(is_super_mario: bool) -> int {
    if is_super_mario {
        SUPER_KILL_Y as int
    } else {
        SMALL_KILL_Y as int
    }
}

/// All fields of the world that the enemy-collision stage never touches are
/// the same in `a` and `b`.
pub open spec fn eq_except_enemy_hit(a: World, b: World) -> bool {
    &&& b.mushrooms == a.mushrooms
    &&& b.question_blocks == a.question_blocks
    &&& b.empty_blocks == a.empty_blocks
    &&& b.fireworks == a.fireworks
    &&& b.mario_move_events == a.mario_move_events
    &&& b.mushroom_release_events == a.mushroom_release_events
    &&& b.super_mario_events == a.super_mario_events
}

/// Collision stage: consume this tick's enemy position events, hit-test them
/// against the live player (keeping the last overlapping event), and apply
/// exactly one outcome in strict priority order: a stomp if the player is
/// above the kill threshold (the enemy is removed and an enemy-dead event
/// fires), otherwise death for a small player (the player is replaced by the
/// dead remains and the music stops), otherwise power-down for a super
/// player (replaced small, 50 units to the right at ground height).
pub fn enemy_move_event_read_for_mario(w: &mut World)
    requires
        old(w).wf_player(),
        old(w).next_id < u64::MAX,
    ensures
        eq_except_enemy_hit(*old(w), *final(w)),
        final(w).enemy_move_events@.len() == 0,
        old(w).mario is None ==> *final(w) == (World {
            enemy_move_events: final(w).enemy_move_events,
            ..*old(w)
        }),
        old(w).mario matches Some(m) ==> {
            let hit = last_hit(old(w).enemy_move_events@, m.x as int, m.y as int);
            &&& (hit is None ==> *final(w) == (World {
                enemy_move_events: final(w).enemy_move_events,
                ..*old(w)
            }))
            &&& (hit matches Some(hit_id) ==> {
                if m.y > kill_threshold(m.is_super_mario) {
                    // Stomp: the player survives unchanged, the enemy dies.
                    &&& final(w).mario == old(w).mario
                    &&& final(w).mario_dead == old(w).mario_dead
                    &&& final(w).next_id == old(w).next_id
                    &&& final(w).music_playing == old(w).music_playing
                    &&& final(w).sounds@ == old(w).sounds@.push(Sound::Stomp)
                    &&& final(w).enemy_dead_events@ == old(w).enemy_dead_events@.push(EnemyDead)
                    &&& (forall|i: int|
                        0 <= i < old(w).enemies@.len() ==> (#[trigger] old(w).enemies@[i]).id
                            != hit_id) ==> final(w).enemies@ == old(w).enemies@
                    &&& (exists|i: int|
                        0 <= i < old(w).enemies@.len() && (#[trigger] old(w).enemies@[i]).id
                            == hit_id) ==> exists|i: int|
                        {
                            &&& 0 <= i < old(w).enemies@.len()
                            &&& (#[trigger] old(w).enemies@[i]).id == hit_id
                            &&& final(w).enemies@ == old(w).enemies@.remove(i)
                        }
                } else if !m.is_super_mario {
                    // Death: the player identity is destroyed and replaced by
                    // the dead remains at the same position.
                    &&& final(w).mario is None
                    &&& final(w).mario_dead == Some(
                        MarioDead { id: old(w).next_id, x: m.x, y: m.y, go_up: true },
                    )
                    &&& final(w).next_id == old(w).next_id + 1
                    &&& final(w).music_playing == false
                    &&& final(w).sounds@ == old(w).sounds@.push(Sound::MarioDie)
                    &&& final(w).enemies@ == old(w).enemies@
                    &&& final(w).enemy_dead_events == old(w).enemy_dead_events
                } else {
                    // Power-down: the super player is replaced by a small one
                    // 50 units to the right at the small ground height.
                    &&& final(w).mario == Some(
                        Mario {
                            id: old(w).next_id,
                            x: (m.x + POWERDOWN_DX) as i64,
                            y: POWERDOWN_Y,
                            dont_go_up_until_settle: false,
                            is_super_mario: false,
                        },
                    )
                    &&& final(w).mario_dead == old(w).mario_dead
                    &&& final(w).next_id == old(w).next_id + 1
                    &&& final(w).music_playing == old(w).music_playing
                    &&& final(w).sounds@ == old(w).sounds@.push(Sound::PowerDown)
                    &&& final(w).enemies@ == old(w).enemies@
                    &&& final(w).enemy_dead_events == old(w).enemy_dead_events
                }
            })
        },
        final(w).wf_player(),
        old(w).wf_enemies() ==> final(w).wf_enemies(),
{
    let m = match &w.mario {
        None => {
            w.enemy_move_events.clear();
            return ;
        },
        Some(m) => *m,
    };
    let enemy_kill_y_limit: i64 = if m.is_super_mario {
        SUPER_KILL_Y
    } else {
        SMALL_KILL_Y
    };
    let hit = is_enemy_hit_mario(&w.enemy_move_events, m.x, m.y);
    w.enemy_move_events.clear();
    match hit {
        None => {},
        Some(entity) => {
            if m.y > enemy_kill_y_limit {
                w.sounds.push(Sound::Stomp);
                remove_enemy_by_id(&mut w.enemies, entity);
                w.enemy_dead_events.push(EnemyDead);
                proof {
                    if exists|i: int|
                        0 <= i < old(w).enemies@.len() && (#[trigger] old(w).enemies@[i]).id
                            == entity {
                        let i = choose|i: int|
                            0 <= i < old(w).enemies@.len() && (#[trigger] old(w).enemies@[i]).id
                                == entity && w.enemies@ == old(w).enemies@.remove(i);
                        if old(w).wf_enemies() {
                            assert forall|a: int|
                                0 <= a < w.enemies@.len() implies LEVEL_X_MIN
                                <= (#[trigger] w.enemies@[a]).x <= LEVEL_X_MAX by {
                                if a < i {
                                    assert(w.enemies@[a] == old(w).enemies@[a]);
                                } else {
                                    assert(w.enemies@[a] == old(w).enemies@[a + 1]);
                                }
                            }
                            assert forall|a: int, b: int|
                                0 <= a < b < w.enemies@.len() implies (
                                #[trigger] w.enemies@[a]).id != (#[trigger] w.enemies@[b]).id by {
                                let oa = if a < i {
                                    a
                                } else {
                                    a + 1
                                };
                                let ob = if b < i {
                                    b
                                } else {
                                    b + 1
                                };
                                assert(w.enemies@[a] == old(w).enemies@[oa]);
                                assert(w.enemies@[b] == old(w).enemies@[ob]);
                            }
                        }
                    }
                }
            } else if !m.is_super_mario {
                w.music_playing = false;
                w.sounds.push(Sound::MarioDie);
                let id = w.next_id;
                w.next_id = w.next_id + 1;
                w.mario = None;
                w.mario_dead = Some(MarioDead { id, x: m.x, y: m.y, go_up: true });
            } else {
                w.sounds.push(Sound::PowerDown);
                let id = w.next_id;
                w.next_id = w.next_id + 1;
                w.mario = Some(
                    Mario {
                        id,
                        x: m.x + POWERDOWN_DX,
                        y: POWERDOWN_Y,
                        dont_go_up_until_settle: false,
                        is_super_mario: false,
                    },
                );
            }
        },
    }
}

/// Relies on rand: `Uniform::from(lo..hi)` sampled with `thread_rng` draws
/// from the half-open range `[lo, hi)`; `Uniform` panics on an empty range,
/// which the precondition rules out.
#[verifier::external_body]
fn sample_uniform(lo: i64, hi: i64) -> (r: i64)
    requires
        lo < hi,
    ensures
        lo <= r < hi,
{
    let mut rng = rand::thread_rng();
    let range = rand::distributions::Uniform::from(lo..hi);
    range.sample(&mut rng)
}

/// Victory stage: on the tick the last enemy was stomped (an enemy-dead
/// event is pending and no enemy remains), the music stops, the stage-clear
/// jingle plays, and exactly seven hidden fireworks spawn at uniformly
/// random positions inside the celebration rectangle.  The enemy-dead queue
/// is drained.
pub fn enemy_dead_event_read(w: &mut World)
    requires
        old(w).next_id <= u64::MAX - (FIREWORK_COUNT as u64),
    ensures
        *final(w) == (World {
            fireworks: final(w).fireworks,
            sounds: final(w).sounds,
            music_playing: final(w).music_playing,
            next_id: final(w).next_id,
            enemy_dead_events: final(w).enemy_dead_events,
            ..*old(w)
        }),
        final(w).enemy_dead_events@.len() == 0,
        !(old(w).enemy_dead_events@.len() > 0 && old(w).enemies@.len() == 0) ==> *final(w)
            == (World { enemy_dead_events: final(w).enemy_dead_events, ..*old(w) }),
        (old(w).enemy_dead_events@.len() > 0 && old(w).enemies@.len() == 0) ==> {
            &&& final(w).music_playing == false
            &&& final(w).sounds@ == old(w).sounds@.push(Sound::StageClear)
            &&& final(w).next_id == old(w).next_id + FIREWORK_COUNT
            &&& final(w).fireworks@.len() == old(w).fireworks@.len() + FIREWORK_COUNT
            &&& forall|k: int|
                0 <= k < old(w).fireworks@.len() ==> #[trigger] final(w).fireworks@[k] == old(
                    w,
                ).fireworks@[k]
            &&& forall|k: int|
                old(w).fireworks@.len() <= k < final(w).fireworks@.len() ==> {
                    let f = #[trigger] final(w).fireworks@[k];
                    &&& FIREWORK_X_MIN <= f.x < FIREWORK_X_MAX
                    &&& FIREWORK_Y_MIN <= f.y < FIREWORK_Y_MAX
                    &&& !f.visible
                    &&& f.frame == 0
                    &&& f.id == old(w).next_id + k - old(w).fireworks@.len()
                }
        },
        old(w).wf_fireworks() ==> final(w).wf_fireworks(),
{
    if w.enemy_dead_events.len() == 0 || w.enemies.len() > 0 {
        w.enemy_dead_events.clear();
        return ;
    }
    w.enemy_dead_events.clear();
    w.music_playing = false;
    w.sounds.push(Sound::StageClear);
    let ghost fs0 = w.fireworks@;
    let ghost id0 = w.next_id;
    let mut spawned: usize = 0;
    while spawned < FIREWORK_COUNT
        invariant
            spawned <= FIREWORK_COUNT,
            id0 <= u64::MAX - (FIREWORK_COUNT as u64),
            w.next_id == id0 + spawned,
            *w == (World {
                fireworks: w.fireworks,
                sounds: w.sounds,
                music_playing: w.music_playing,
                next_id: w.next_id,
                enemy_dead_events: w.enemy_dead_events,
                ..*old(w)
            }),
            w.enemy_dead_events@.len() == 0,
            w.music_playing == false,
            w.sounds@ == old(w).sounds@.push(Sound::StageClear),
            w.fireworks@.len() == fs0.len() + spawned,
            forall|k: int| 0 <= k < fs0.len() ==> #[trigger] w.fireworks@[k] == fs0[k],
            forall|k: int|
                fs0.len() <= k < w.fireworks@.len() ==> {
                    let f = #[trigger] w.fireworks@[k];
                    &&& FIREWORK_X_MIN <= f.x < FIREWORK_X_MAX
                    &&& FIREWORK_Y_MIN <= f.y < FIREWORK_Y_MAX
                    &&& !f.visible
                    &&& f.frame == 0
                    &&& f.id == id0 + k - fs0.len()
                },
            fs0 == old(w).fireworks@,
            id0 == old(w).next_id,
        decreases FIREWORK_COUNT - spawned,
    {
        let x = sample_uniform(FIREWORK_X_MIN, FIREWORK_X_MAX);
        let y = sample_uniform(FIREWORK_Y_MIN, FIREWORK_Y_MAX);
        let id = w.next_id;
        w.next_id = w.next_id + 1;
        w.fireworks.push(Firework { id, x, y, visible: false, frame: 0 });
        spawned = spawned + 1;
    }
}

} // verus!
