//! The player actor: movement, life-cycle replacement, and the dead-player
//! animation.

use vstd::prelude::*;

use crate::mushroom::MagicMushroom;
use crate::{
    clamp_i64, clamp_spec, Intent, Sound, World, DEAD_FALL_DY, DEAD_RISE_DY, DEAD_RISE_TOP,
    LEVEL_X_MAX, LEVEL_X_MIN, MUSHROOM_PICKUP_MARGIN, MUSHROOM_RISE_DONE_Y, MUSHROOM_RISE_DY,
    MUSHROOM_X_MAX, MUSHROOM_X_MIN, MUSHROOM_Y_MIN, PLAYER_DX, PLAYER_DY, PLAYER_Y_MAX,
    SMALL_MIN_Y, SUPER_MIN_Y, SUPER_SPAWN_DY,
};

verus! {

/// Remains of a dead player: rises a short way, then falls forever.
#[derive(Clone, Copy, Debug)]
pub struct MarioDead {
    pub id: u64,
    pub x: i64,
    pub y: i64,
    pub go_up: bool,
}

/// The live player.
#[derive(Clone, Copy, Debug)]
pub struct Mario {
    pub id: u64,
    pub x: i64,
    pub y: i64,
    pub dont_go_up_until_settle: bool,
    pub is_super_mario: bool,
}

/// The player picked up the power-up at this position and becomes super.
#[derive(Clone, Copy, Debug)]
pub struct MarioChangedAsSuperMarioEvent {
    pub x: i64,
    pub y: i64,
}

/// The player moved horizontally this tick and now stands at this position.
#[derive(Clone, Copy, Debug)]
pub struct MarioMoveEvent {
    pub x: i64,
    pub y: i64,
}

/// The ground height for the player's current size state.
pub open spec fn mario_min_y(is_super_mario: bool) -> int {
    if is_super_mario {
        SUPER_MIN_Y as int
    } else {
        SMALL_MIN_Y as int
    }
}

/// Horizontal delta for the held directional intent.
pub open spec fn intent_dx(intent: Intent) -> int {
    (if intent.right {
        PLAYER_DX as int
    } else {
        0
    }) - (if intent.left {
        PLAYER_DX as int
    } else {
        0
    })
}

/// Vertical delta: holding up climbs unless the settle lock forces descent;
/// otherwise gravity pulls down.
pub open spec fn intent_dy(up: bool, settle_locked: bool) -> int {
    if up {
        if settle_locked {
            -(PLAYER_DY as int)
        } else {
            PLAYER_DY as int
        }
    } else {
        -(PLAYER_DY as int)
    }
}

/// `m1` is `m0` after one movement step under `intent`.
pub open spec fn mario_stepped(m0: Mario, m1: Mario, intent: Intent) -> bool {
    &&& m1.id == m0.id
    &&& m1.is_super_mario == m0.is_super_mario
    &&& m1.x == clamp_spec(m0.x + intent_dx(intent), LEVEL_X_MIN as int, LEVEL_X_MAX as int)
    &&& m1.y == clamp_spec(
        m0.y + intent_dy(intent.up, m0.dont_go_up_until_settle),
        mario_min_y(m0.is_super_mario),
        PLAYER_Y_MAX as int,
    )
    &&& m1.dont_go_up_until_settle == (if m1.y == PLAYER_Y_MAX {
        true
    } else if m1.y == mario_min_y(m0.is_super_mario) {
        false
    } else {
        m0.dont_go_up_until_settle
    })
}

/// The jump sound is owed exactly when the player holds up while standing on
/// the ground.
pub open spec fn mario_jump_sound(m0: Mario, up: bool) -> bool {
    up && m0.y == mario_min_y(m0.is_super_mario)
}

/// All fields of the world other than the player, the sounds, and the
/// player-move queue are the same in `a` and `b`.
pub open spec fn eq_except_mario_move(a: World, b: World) -> bool {
    &&& b.next_id == a.next_id
    &&& b.mario_dead == a.mario_dead
    &&& b.enemies == a.enemies
    &&& b.mushrooms == a.mushrooms
    &&& b.question_blocks == a.question_blocks
    &&& b.empty_blocks == a.empty_blocks
    &&& b.fireworks == a.fireworks
    &&& b.music_playing == a.music_playing
    &&& b.enemy_move_events == a.enemy_move_events
    &&& b.enemy_dead_events == a.enemy_dead_events
    &&& b.mushroom_release_events == a.mushroom_release_events
    &&& b.super_mario_events == a.super_mario_events
}

/// Movement stage for the player.  With no live player this is a no-op.
/// Otherwise the player takes one step under the held intent: x moves by
/// 1.2 units per held direction, y climbs by 1.5 while up is held and the
/// settle lock is off, else falls by 1.5; both are clamped to the level
/// bounds for the current size state.  Reaching the ceiling engages the
/// settle lock, landing releases it.  Holding up on the ground requests the
/// jump sound, and a position event is emitted exactly when x moved.
pub fn move_mario(w: &mut World, intent: Intent)
    requires
        old(w).wf_player(),
    ensures
        eq_except_mario_move(*old(w), *final(w)),
        final(w).mario is Some <==> old(w).mario is Some,
        old(w).mario is None ==> *final(w) == *old(w),
        old(w).mario matches Some(m0) ==> {
            &&& final(w).mario matches Some(m1) && mario_stepped(m0, m1, intent)
            &&& final(w).sounds@ == if mario_jump_sound(m0, intent.up) {
                old(w).sounds@.push(
                    if m0.is_super_mario {
                        Sound::SuperMarioJump
                    } else {
                        Sound::MarioJump
                    },
                )
            } else {
                old(w).sounds@
            }
            &&& final(w).mario_move_events@ == if intent_dx(intent) != 0 {
                old(w).mario_move_events@.push(
                    MarioMoveEvent {
                        x: final(w).mario->Some_0.x,
                        y: final(w).mario->Some_0.y,
                    },
                )
            } else {
                old(w).mario_move_events@
            }
        },
        final(w).wf_player(),
        old(w).wf_event_queues() ==> final(w).wf_event_queues(),
{
    let m0 = match &w.mario {
        None => {
            return ;
        },
        Some(m) => *m,
    };
    let min_y: i64 = if !m0.is_super_mario {
        SMALL_MIN_Y
    } else {
        SUPER_MIN_Y
    };
    let max_y: i64 = PLAYER_Y_MAX;

    let mut direction_x: i64 = 0;
    let mut direction_y: i64 = 0;

    if intent.left {
        direction_x = direction_x - PLAYER_DX;
    }
    if intent.right {
        direction_x = direction_x + PLAYER_DX;
    }
    if intent.up {
        // The jump rate limiter fires every tick at the fixed external tick
        // rate, so only the ground check gates the sound.
        if m0.y == min_y {
            let jump = if !m0.is_super_mario {
                Sound::MarioJump
            } else {
                Sound::SuperMarioJump
            };
            w.sounds.push(jump);
        }
        if !m0.dont_go_up_until_settle {
            direction_y = direction_y + PLAYER_DY;
        } else {
            direction_y = direction_y - PLAYER_DY;
        }
    } else {
        direction_y = direction_y - PLAYER_DY;
    }

    let mario_position_x = m0.x + direction_x;
    let mario_position_y = m0.y + direction_y;

    let nx = clamp_i64(mario_position_x, LEVEL_X_MIN, LEVEL_X_MAX);
    let ny = clamp_i64(mario_position_y, min_y, max_y);

    let settle = if ny == max_y {
        true
    } else if ny == min_y {
        false
    } else {
        m0.dont_go_up_until_settle
    };

    w.mario = Some(Mario { x: nx, y: ny, dont_go_up_until_settle: settle, ..m0 });

    if direction_x != 0 {
        w.mario_move_events.push(MarioMoveEvent { x: nx, y: ny });
    }
}

/// Build the dead-player remains spawned where the player died; they start
/// in the rising phase of the death animation.
pub fn get_dead_mario_bundle(x: i64, y: i64, id: u64) -> (d: MarioDead)
    ensures
        d == (MarioDead { id, x, y, go_up: true }),
{
    MarioDead { id, x, y, go_up: true }
}

/// Build a fresh live player at the given position and size state, with the
/// settle lock disengaged.
pub fn get_mario_bundle(is_super_mario: bool, x: i64, y: i64, id: u64) -> (m: Mario)
    ensures
        m == (Mario { id, x, y, dont_go_up_until_settle: false, is_super_mario }),
{
    Mario { id, x, y, dont_go_up_until_settle: false, is_super_mario }
}

/// `d1` is `d0` one tick further into the death animation: rise by 2.0 units
/// until reaching -30.0, then fall by 1.5 per tick forever (saturating at
/// the numeric floor, which the animation can never reach from any level
/// position).
pub open spec fn dead_mario_stepped(d0: MarioDead, d1: MarioDead) -> bool {
    &&& d1.id == d0.id
    &&& d1.x == d0.x
    &&& if d0.go_up {
        &&& d1.y == d0.y + DEAD_RISE_DY
        &&& d1.go_up == !(d1.y >= DEAD_RISE_TOP)
    } else {
        &&& d1.y == if d0.y - DEAD_FALL_DY >= i64::MIN {
            d0.y - DEAD_FALL_DY
        } else {
            i64::MIN as int
        }
        &&& d1.go_up == false
    }
}

/// All fields of the world other than the dead player are the same.
pub open spec fn eq_except_mario_dead(a: World, b: World) -> bool {
    b == (World { mario_dead: b.mario_dead, ..a })
}

/// Whether a player position event is close enough horizontally to pick up
/// a mushroom (the vertical distance is unconstrained).
pub open spec fn mushroom_in_pickup_range(e: MarioMoveEvent, m: MagicMushroom) -> bool {
    m.x - MUSHROOM_PICKUP_MARGIN <= e.x <= m.x + MUSHROOM_PICKUP_MARGIN
}

/// `m` with its visibility cleared.
pub open spec fn mushroom_hidden(m: MagicMushroom) -> MagicMushroom {
    MagicMushroom { visible: false, ..m }
}

/// Result of testing one player position event against the mushrooms from
/// index `j` on: each visible mushroom in pickup range is hidden, a pickup
/// sound is requested, and a became-super event carrying the player position
/// is emitted, in mushroom order.
pub open spec fn pickup_one_event(
    ms: Seq<MagicMushroom>,
    evs: Seq<MarioChangedAsSuperMarioEvent>,
    snds: Seq<Sound>,
    e: MarioMoveEvent,
    j: int,
) -> (Seq<MagicMushroom>, Seq<MarioChangedAsSuperMarioEvent>, Seq<Sound>)
    decreases ms.len() - j,
{
    if j < 0 || j >= ms.len() {
        (ms, evs, snds)
    } else if ms[j].visible && mushroom_in_pickup_range(e, ms[j]) {
        pickup_one_event(
            ms.update(j, mushroom_hidden(ms[j])),
            evs.push(MarioChangedAsSuperMarioEvent { x: e.x, y: e.y }),
            snds.push(Sound::PowerUp),
            e,
            j + 1,
        )
    } else {
        pickup_one_event(ms, evs, snds, e, j + 1)
    }
}

/// Result of testing the player position events from index `i` on, in
/// order, each against all mushrooms.
pub open spec fn pickup_fold(
    ms: Seq<MagicMushroom>,
    evs: Seq<MarioChangedAsSuperMarioEvent>,
    snds: Seq<Sound>,
    es: Seq<MarioMoveEvent>,
    i: int,
) -> (Seq<MagicMushroom>, Seq<MarioChangedAsSuperMarioEvent>, Seq<Sound>)
    decreases es.len() - i,
{
    if i < 0 || i >= es.len() {
        (ms, evs, snds)
    } else {
        let t = pickup_one_event(ms, evs, snds, es[i], 0);
        pickup_fold(t.0, t.1, t.2, es, i + 1)
    }
}

proof fn lemma_pickup_one_props(
    ms: Seq<MagicMushroom>,
    evs: Seq<MarioChangedAsSuperMarioEvent>,
    snds: Seq<Sound>,
    e: MarioMoveEvent,
    j: int,
)
    ensures
        ({
            let t = pickup_one_event(ms, evs, snds, e, j);
            &&& t.0.len() == ms.len()
            &&& forall|k: int|
                0 <= k < ms.len() ==> #[trigger] t.0[k] == ms[k] || t.0[k] == mushroom_hidden(
                    ms[k],
                )
            &&& t.1.len() >= evs.len()
            &&& forall|k: int| 0 <= k < evs.len() ==> #[trigger] t.1[k] == evs[k]
            &&& forall|k: int|
                evs.len() <= k < t.1.len() ==> #[trigger] t.1[k]
                    == (MarioChangedAsSuperMarioEvent { x: e.x, y: e.y })
            &&& t.2.len() == snds.len() + t.1.len() - evs.len()
            &&& forall|k: int| 0 <= k < snds.len() ==> #[trigger] t.2[k] == snds[k]
            &&& forall|k: int| snds.len() <= k < t.2.len() ==> #[trigger] t.2[k] == Sound::PowerUp
            &&& t.2.len() == snds.len() ==> t.0 == ms && t.1 == evs && t.2 == snds
        }),
    decreases ms.len() - j,
{
    if j < 0 || j >= ms.len() {
    } else if ms[j].visible && mushroom_in_pickup_range(e, ms[j]) {
        lemma_pickup_one_props(
            ms.update(j, mushroom_hidden(ms[j])),
            evs.push(MarioChangedAsSuperMarioEvent { x: e.x, y: e.y }),
            snds.push(Sound::PowerUp),
            e,
            j + 1,
        );
    } else {
        lemma_pickup_one_props(ms, evs, snds, e, j + 1);
    }
}

/// Frame facts about the pickup scan: mushrooms only ever lose visibility,
/// the produced became-super events carry the position of one of the player
/// position events, and each produced event comes with one pickup sound.
pub proof fn lemma_pickup_fold_props(
    ms: Seq<MagicMushroom>,
    evs: Seq<MarioChangedAsSuperMarioEvent>,
    snds: Seq<Sound>,
    es: Seq<MarioMoveEvent>,
    i: int,
)
    ensures
        ({
            let t = pickup_fold(ms, evs, snds, es, i);
            &&& t.0.len() == ms.len()
            &&& forall|k: int|
                0 <= k < ms.len() ==> #[trigger] t.0[k] == ms[k] || t.0[k] == mushroom_hidden(
                    ms[k],
                )
            &&& t.1.len() >= evs.len()
            &&& forall|k: int| 0 <= k < evs.len() ==> #[trigger] t.1[k] == evs[k]
            &&& forall|k: int|
                evs.len() <= k < t.1.len() ==> exists|i2: int|
                    i <= i2 < es.len() && #[trigger] t.1[k] == (MarioChangedAsSuperMarioEvent {
                        x: es[i2].x,
                        y: es[i2].y,
                    })
            &&& t.2.len() == snds.len() + t.1.len() - evs.len()
            &&& forall|k: int| 0 <= k < snds.len() ==> #[trigger] t.2[k] == snds[k]
            &&& forall|k: int| snds.len() <= k < t.2.len() ==> #[trigger] t.2[k] == Sound::PowerUp
            &&& t.2.len() == snds.len() ==> t.0 == ms && t.1 == evs && t.2 == snds
        }),
    decreases es.len() - i,
{
    if i < 0 || i >= es.len() {
    } else {
        let t1 = pickup_one_event(ms, evs, snds, es[i], 0);
        lemma_pickup_one_props(ms, evs, snds, es[i], 0);
        lemma_pickup_fold_props(t1.0, t1.1, t1.2, es, i + 1);
        let t = pickup_fold(ms, evs, snds, es, i);
        assert forall|k: int|
            0 <= k < ms.len() implies #[trigger] t.0[k] == ms[k] || t.0[k] == mushroom_hidden(
            ms[k],
        ) by {
            assert(t.0[k] == t1.0[k] || t.0[k] == mushroom_hidden(t1.0[k]));
            assert(t1.0[k] == ms[k] || t1.0[k] == mushroom_hidden(ms[k]));
        }
        assert forall|k: int| evs.len() <= k < t.1.len() implies exists|i2: int|
            i <= i2 < es.len() && #[trigger] t.1[k] == (MarioChangedAsSuperMarioEvent {
                x: es[i2].x,
                y: es[i2].y,
            }) by {
            if k < t1.1.len() {
                assert(t.1[k] == t1.1[k]);
                assert(t1.1[k] == (MarioChangedAsSuperMarioEvent { x: es[i].x, y: es[i].y }));
            }
        }
    }
}

/// Pickup stage: every player position event of this tick is tested against
/// every mushroom, in order.  A visible mushroom within 10.0 units
/// horizontally of the moved player is picked up: it turns invisible, the
/// pickup sound plays, and a became-super event carrying the player position
/// fires.  The player position queue is drained.
pub fn mario_move_event_read(w: &mut World)
    requires
        old(w).wf_mushrooms(),
    ensures
        *final(w) == (World {
            mushrooms: final(w).mushrooms,
            super_mario_events: final(w).super_mario_events,
            sounds: final(w).sounds,
            mario_move_events: final(w).mario_move_events,
            ..*old(w)
        }),
        final(w).mario_move_events@.len() == 0,
        ({
            let t = pickup_fold(
                old(w).mushrooms@,
                old(w).super_mario_events@,
                old(w).sounds@,
                old(w).mario_move_events@,
                0,
            );
            &&& final(w).mushrooms@ == t.0
            &&& final(w).super_mario_events@ == t.1
            &&& final(w).sounds@ == t.2
        }),
        final(w).wf_mushrooms(),
        old(w).wf_event_queues() ==> final(w).wf_event_queues(),
{
    let ghost ms0 = w.mushrooms@;
    let ghost evs0 = w.super_mario_events@;
    let ghost snds0 = w.sounds@;
    let ghost es0 = w.mario_move_events@;
    let ne = w.mario_move_events.len();
    let nm = w.mushrooms.len();
    for i in 0..ne
        invariant
            ne == es0.len(),
            nm == ms0.len(),
            nm == w.mushrooms@.len(),
            ms0 == old(w).mushrooms@,
            w.mario_move_events@ == es0,
            *w == (World {
                mushrooms: w.mushrooms,
                super_mario_events: w.super_mario_events,
                sounds: w.sounds,
                ..*old(w)
            }),
            old(w).wf_mushrooms(),
            forall|k: int|
                0 <= k < nm ==> #[trigger] w.mushrooms@[k] == ms0[k] || w.mushrooms@[k]
                    == mushroom_hidden(ms0[k]),
            pickup_fold(w.mushrooms@, w.super_mario_events@, w.sounds@, es0, i as int)
                == pickup_fold(ms0, evs0, snds0, es0, 0),
    {
        let e = w.mario_move_events[i];
        let ghost ms_entry = w.mushrooms@;
        let ghost evs_entry = w.super_mario_events@;
        let ghost snds_entry = w.sounds@;
        for j in 0..nm
            invariant
                ne == es0.len(),
                i < ne,
                e == es0[i as int],
                nm == ms0.len(),
                nm == ms_entry.len(),
                nm == w.mushrooms@.len(),
                ms0 == old(w).mushrooms@,
                w.mario_move_events@ == es0,
                *w == (World {
                    mushrooms: w.mushrooms,
                    super_mario_events: w.super_mario_events,
                    sounds: w.sounds,
                    ..*old(w)
                }),
                old(w).wf_mushrooms(),
                forall|k: int|
                    0 <= k < nm ==> #[trigger] w.mushrooms@[k] == ms0[k] || w.mushrooms@[k]
                        == mushroom_hidden(ms0[k]),
                pickup_one_event(w.mushrooms@, w.super_mario_events@, w.sounds@, e, j as int)
                    == pickup_one_event(ms_entry, evs_entry, snds_entry, e, 0),
        {
            let m = w.mushrooms[j];
            proof {
                assert(ms0[j as int].x == m.x && ms0[j as int].y == m.y);
                assert(MUSHROOM_X_MIN <= ms0[j as int].x <= MUSHROOM_X_MAX);
            }
            if m.visible && e.x >= m.x - MUSHROOM_PICKUP_MARGIN && e.x <= m.x
                + MUSHROOM_PICKUP_MARGIN {
                w.sounds.push(Sound::PowerUp);
                w.mushrooms.set(j, MagicMushroom { visible: false, ..m });
                w.super_mario_events.push(MarioChangedAsSuperMarioEvent { x: e.x, y: e.y });
            }
        }
        proof {
            assert(pickup_fold(w.mushrooms@, w.super_mario_events@, w.sounds@, es0, i + 1 as int)
                == pickup_fold(ms0, evs0, snds0, es0, 0));
        }
    }
    w.mario_move_events.clear();
    proof {
        let t = pickup_fold(ms0, evs0, snds0, es0, 0);
        lemma_pickup_fold_props(ms0, evs0, snds0, es0, 0);
        assert forall|k: int| 0 <= k < w.mushrooms@.len() implies {
            let m = #[trigger] w.mushrooms@[k];
            &&& MUSHROOM_X_MIN <= m.x <= MUSHROOM_X_MAX
            &&& MUSHROOM_Y_MIN <= m.y <= MUSHROOM_RISE_DONE_Y + MUSHROOM_RISE_DY
            &&& !m.is_released ==> m.y <= MUSHROOM_RISE_DONE_Y
        } by {
            assert(w.mushrooms@[k] == ms0[k] || w.mushrooms@[k] == mushroom_hidden(ms0[k]));
        }
        if old(w).wf_event_queues() {
            assert forall|k: int| 0 <= k < w.super_mario_events@.len() implies {
                let ev = #[trigger] w.super_mario_events@[k];
                LEVEL_X_MIN <= ev.x <= LEVEL_X_MAX && SMALL_MIN_Y <= ev.y <= PLAYER_Y_MAX
            } by {
                if k >= evs0.len() {
                    let i2 = choose|i2: int|
                        0 <= i2 < es0.len() && #[trigger] t.1[k]
                            == (MarioChangedAsSuperMarioEvent { x: es0[i2].x, y: es0[i2].y });
                    assert(LEVEL_X_MIN <= es0[i2].x <= LEVEL_X_MAX);
                }
            }
        }
    }
}

/// Size-transition stage: when the player picked up the power-up this tick,
/// the small player identity is destroyed and a super one is spawned 7.0
/// units above the pickup position, with the settle lock disengaged.  Only
/// the first became-super event of a tick is honoured; the queue is drained.
pub fn mario_changed_as_supermario_event_read(w: &mut World)
    requires
        old(w).wf_player(),
        old(w).wf_event_queues(),
        old(w).next_id < u64::MAX,
    ensures
        *final(w) == (World {
            mario: final(w).mario,
            next_id: final(w).next_id,
            super_mario_events: final(w).super_mario_events,
            ..*old(w)
        }),
        final(w).super_mario_events@.len() == 0,
        (old(w).mario is None || old(w).super_mario_events@.len() == 0) ==> {
            &&& final(w).mario == old(w).mario
            &&& final(w).next_id == old(w).next_id
        },
        (old(w).mario is Some && old(w).super_mario_events@.len() > 0) ==> {
            let e = old(w).super_mario_events@[0];
            &&& final(w).mario == Some(
                Mario {
                    id: old(w).next_id,
                    x: e.x,
                    y: (e.y + SUPER_SPAWN_DY) as i64,
                    dont_go_up_until_settle: false,
                    is_super_mario: true,
                },
            )
            &&& final(w).next_id == old(w).next_id + 1
        },
        final(w).wf_player(),
        final(w).wf_event_queues(),
{
    if w.mario.is_none() || w.super_mario_events.len() == 0 {
        w.super_mario_events.clear();
        return ;
    }
    let e = w.super_mario_events[0];
    assert(LEVEL_X_MIN <= e.x <= LEVEL_X_MAX && SMALL_MIN_Y <= e.y <= PLAYER_Y_MAX);
    let id = w.next_id;
    w.next_id = w.next_id + 1;
    w.mario = Some(
        Mario {
            id,
            x: e.x,
            y: e.y + SUPER_SPAWN_DY,
            dont_go_up_until_settle: false,
            is_super_mario: true,
        },
    );
    w.super_mario_events.clear();
}

/// Death-animation stage: with no dead player this is a no-op, otherwise the
/// remains rise until they reach the turning height, then fall.
pub fn handle_mario_dead_event(w: &mut World)
    requires
        old(w).wf_player(),
    ensures
        eq_except_mario_dead(*old(w), *final(w)),
        old(w).mario_dead is None ==> *final(w) == *old(w),
        final(w).mario_dead is Some <==> old(w).mario_dead is Some,
        old(w).mario_dead matches Some(d0) ==> final(w).mario_dead matches Some(d1)
            && dead_mario_stepped(d0, d1),
        final(w).wf_player(),
{
    let d0 = match &w.mario_dead {
        None => {
            return ;
        },
        Some(d) => *d,
    };
    if d0.go_up {
        let ny = d0.y + DEAD_RISE_DY;
        let still_up = ny < DEAD_RISE_TOP;
        w.mario_dead = Some(MarioDead { y: ny, go_up: still_up, ..d0 });
    } else {
        let ny = if d0.y >= i64::MIN + DEAD_FALL_DY {
            d0.y - DEAD_FALL_DY
        } else {
            i64::MIN
        };
        w.mario_dead = Some(MarioDead { y: ny, go_up: false, ..d0 });
    }
}

} // verus!
