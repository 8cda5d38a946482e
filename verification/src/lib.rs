//! Gameplay simulation core of a small 2D side-scrolling platformer.
//!
//! The world is a set of actor records (player, enemies, reward blocks,
//! empty placeholders, a power-up mushroom, decorative fireworks) advanced by
//! a fixed pipeline of stages once per tick.  Stages communicate through
//! tick-scoped event queues: a producer stage appends, the consumer stage
//! drains them before the tick ends.
//!
//! Coordinates are stored in tenths of a world unit, so every per-tick delta
//! of the game's rules is an exact integer (a step of 1.2 units is 12).

use vstd::prelude::*;

pub mod enemy;
pub mod firework;
pub mod mario;
pub mod mushroom;
pub mod question_block;

use crate::enemy::{Enemy, EnemyDead, EnemyMoveEvent};
use crate::firework::Firework;
use crate::mario::{Mario, MarioChangedAsSuperMarioEvent, MarioDead, MarioMoveEvent};
use crate::mushroom::{MagicMushroom, MagicMushroomReleaseEvent};
use crate::question_block::{EmptyBlock, QuestionBlock};

verus! {

// Level bounds shared by the player and the enemies, in tenths of a unit.
pub const LEVEL_X_MIN: i64 = -2500;
pub const LEVEL_X_MAX: i64 = 1800;

// Player vertical bounds: the ceiling, and the ground for each size state.
pub const PLAYER_Y_MAX: i64 = -100;
pub const SMALL_MIN_Y: i64 = -780;
pub const SUPER_MIN_Y: i64 = -700;

// Per-tick movement deltas.
pub const PLAYER_DX: i64 = 12;
pub const PLAYER_DY: i64 = 15;
pub const ENEMY_DX: i64 = 5;

// An enemy collision at or below this height kills the player; above it the
// player stomps the enemy instead.
pub const SMALL_KILL_Y: i64 = -740;
pub const SUPER_KILL_Y: i64 = -700;

// Hit-test margins (axis-aligned, inclusive).
pub const ENEMY_HIT_MARGIN_X: i64 = 50;
pub const ENEMY_HIT_MARGIN_Y: i64 = 80;
pub const BLOCK_HIT_MARGIN: i64 = 50;
pub const MUSHROOM_PICKUP_MARGIN: i64 = 100;

// Power-up mushroom movement.
pub const MUSHROOM_RISE_DY: i64 = 4;
pub const MUSHROOM_RISE_DONE_Y: i64 = -110;
pub const MUSHROOM_ROLL_DX: i64 = 5;
pub const MUSHROOM_ROLL_DY_SLOW: i64 = 1;
pub const MUSHROOM_ROLL_DY_FAST: i64 = 5;
pub const MUSHROOM_LEDGE_X: i64 = 120;
pub const MUSHROOM_X_MIN: i64 = -2800;
pub const MUSHROOM_X_MAX: i64 = 1800;
pub const MUSHROOM_Y_MIN: i64 = -780;
pub const MUSHROOM_Y_MAX: i64 = -120;

// Player replacement rules.
pub const SUPER_SPAWN_DY: i64 = 70;
pub const POWERDOWN_DX: i64 = 500;
pub const POWERDOWN_Y: i64 = -740;

// Dead-player animation: rise until this height, then fall.
pub const DEAD_RISE_DY: i64 = 20;
pub const DEAD_RISE_TOP: i64 = -300;
pub const DEAD_FALL_DY: i64 = 15;

// Victory fireworks: count and spawn rectangle (x and y upper bounds are
// exclusive).
pub const FIREWORK_COUNT: usize = 7;
pub const FIREWORK_X_MIN: i64 = -2500;
pub const FIREWORK_X_MAX: i64 = 1800;
pub const FIREWORK_Y_MIN: i64 = 100;
pub const FIREWORK_Y_MAX: i64 = 1100;
pub const FIREWORK_LAST_FRAME: u64 = 15;

/// Directional intent held this tick, already debounced by the input layer.
#[derive(Clone, Copy, Debug)]
pub struct Intent {
    pub left: bool,
    pub right: bool,
    pub up: bool,
}

/// Sound effects requested from the presentation layer.
#[derive(Clone, Copy, Debug, PartialEq, Eq, Structural)]
pub enum Sound {
    MarioJump,
    SuperMarioJump,
    Stomp,
    MarioDie,
    PowerDown,
    PowerUp,
    MushroomAppears,
    Coin,
    StageClear,
    Firework,
}

/// The actor state store plus the tick-scoped event queues and the sound
/// requests of the current tick.
pub struct World {
    /// Source of fresh actor identities.
    pub next_id: u64,
    /// The live player, if any.
    pub mario: Option<Mario>,
    /// The dead-player remains, if any.
    pub mario_dead: Option<MarioDead>,
    pub enemies: Vec<Enemy>,
    pub mushrooms: Vec<MagicMushroom>,
    pub question_blocks: Vec<QuestionBlock>,
    pub empty_blocks: Vec<EmptyBlock>,
    pub fireworks: Vec<Firework>,
    /// Background music keeps playing until the player dies or the level is
    /// cleared.
    pub music_playing: bool,
    /// Sounds requested during the current tick, in order.
    pub sounds: Vec<Sound>,
    // Tick-scoped event queues, empty between ticks.
    pub mario_move_events: Vec<MarioMoveEvent>,
    pub enemy_move_events: Vec<EnemyMoveEvent>,
    pub enemy_dead_events: Vec<EnemyDead>,
    pub mushroom_release_events: Vec<MagicMushroomReleaseEvent>,
    pub super_mario_events: Vec<MarioChangedAsSuperMarioEvent>,
}

impl World {
    /// Exactly one player entity exists: either the live player or the
    /// dead-player remains, never both and never neither.  The live player's
    /// position stays inside the reachable region: movement clamps x to the
    /// level bounds, and the only transition that escapes them is the
    /// power-down replacement, which shifts x by at most `POWERDOWN_DX`.
    pub open spec fn wf_player(self) -> bool {
        &&& (self.mario is Some) <==> (self.mario_dead is None)
        &&& (self.mario matches Some(m) ==> {
            &&& LEVEL_X_MIN <= m.x <= LEVEL_X_MAX + POWERDOWN_DX
            &&& m.is_super_mario ==> m.x <= LEVEL_X_MAX
            &&& SMALL_MIN_Y <= m.y <= PLAYER_Y_MAX + SUPER_SPAWN_DY
        })
        &&& (self.mario_dead matches Some(d) ==> {
            &&& LEVEL_X_MIN <= d.x <= LEVEL_X_MAX + POWERDOWN_DX
            &&& d.y <= PLAYER_Y_MAX + SUPER_SPAWN_DY + DEAD_RISE_DY
            &&& d.go_up ==> d.y <= PLAYER_Y_MAX + SUPER_SPAWN_DY
        })
    }

    /// Enemies patrol inside the level bounds and have pairwise distinct
    /// identities, so a stomp removes exactly one of them.
    pub open spec fn wf_enemies(self) -> bool {
        &&& forall|i: int|
            0 <= i < self.enemies@.len() ==> LEVEL_X_MIN <= (#[trigger] self.enemies@[i]).x
                <= LEVEL_X_MAX
        &&& forall|i: int, j: int|
            0 <= i < j < self.enemies@.len() ==> (#[trigger] self.enemies@[i]).id
                != (#[trigger] self.enemies@[j]).id
    }

    /// A mushroom sits in the roll bounds horizontally; vertically it never
    /// climbs past the point where the rise phase hands over to rolling.
    pub open spec fn wf_mushrooms(self) -> bool {
        forall|i: int|
            0 <= i < self.mushrooms@.len() ==> {
                let m = #[trigger] self.mushrooms@[i];
                &&& MUSHROOM_X_MIN <= m.x <= MUSHROOM_X_MAX
                &&& MUSHROOM_Y_MIN <= m.y <= MUSHROOM_RISE_DONE_Y + MUSHROOM_RISE_DY
                &&& !m.is_released ==> m.y <= MUSHROOM_RISE_DONE_Y
            }
    }

    /// A stored firework has not yet reached its final animation frame;
    /// reaching it despawns the firework within the same stage.
    pub open spec fn wf_fireworks(self) -> bool {
        forall|i: int|
            0 <= i < self.fireworks@.len() ==> (#[trigger] self.fireworks@[i]).frame
                < FIREWORK_LAST_FRAME
    }

    /// Player-position events only ever carry clamped player positions.
    pub open spec fn wf_event_queues(self) -> bool {
        &&& forall|i: int|
            0 <= i < self.mario_move_events@.len() ==> {
                let e = #[trigger] self.mario_move_events@[i];
                LEVEL_X_MIN <= e.x <= LEVEL_X_MAX && SMALL_MIN_Y <= e.y <= PLAYER_Y_MAX
            }
        &&& forall|i: int|
            0 <= i < self.super_mario_events@.len() ==> {
                let e = #[trigger] self.super_mario_events@[i];
                LEVEL_X_MIN <= e.x <= LEVEL_X_MAX && SMALL_MIN_Y <= e.y <= PLAYER_Y_MAX
            }
    }

    /// Well-formedness of the whole store: established by level setup and
    /// preserved by every stage of the pipeline.
    pub open spec fn wf(self) -> bool {
        &&& self.wf_player()
        &&& self.wf_enemies()
        &&& self.wf_mushrooms()
        &&& self.wf_fireworks()
        &&& self.wf_event_queues()
    }

    /// Between ticks every event queue is empty: events are tick-scoped
    /// mailboxes, drained by their consumer stage in the tick that filled
    /// them.
    pub open spec fn queues_empty(self) -> bool {
        &&& self.mario_move_events@.len() == 0
        &&& self.enemy_move_events@.len() == 0
        &&& self.enemy_dead_events@.len() == 0
        &&& self.mushroom_release_events@.len() == 0
        &&& self.super_mario_events@.len() == 0
    }

    /// One-shot pairing of reward blocks and placeholders: wherever a block
    /// is consumed, every placeholder at exactly its coordinates is visible.
    pub open spec fn block_pairing_ok(self) -> bool {
        forall|i: int, j: int|
            0 <= i < self.question_blocks@.len() && 0 <= j < self.empty_blocks@.len()
                && (#[trigger] self.question_blocks@[i]).consumed
                && (#[trigger] self.empty_blocks@[j]).x == self.question_blocks@[i].x
                && self.empty_blocks@[j].y == self.question_blocks@[i].y
                ==> self.empty_blocks@[j].visible
    }
}

/// Clamp an integer to an inclusive range (mathematical form).
pub open spec fn clamp_spec(v: int, lo: int, hi: int) -> int {
    if v < lo {
        lo
    } else if v > hi {
        hi
    } else {
        v
    }
}

/// Clamp a coordinate to an inclusive range.
pub fn clamp_i64(v: i64, lo: i64, hi: i64) -> (r: i64)
    requires
        lo <= hi,
    ensures
        r == clamp_spec(v as int, lo as int, hi as int),
{
    if v < lo {
        lo
    } else if v > hi {
        hi
    } else {
        v
    }
}

/// Build the fixed level of the game: two enemies patrolling leftwards, one
/// hidden power-up mushroom, four reward blocks (the leftmost holding the
/// mushroom, the others coins) each paired with a hidden placeholder at
/// exactly its position, and a small player at the left edge of the level
/// standing on the ground.
pub fn setup() -> (w: World)
    ensures
        w.wf(),
        w.queues_empty(),
        w.block_pairing_ok(),
        w.sounds@.len() == 0,
        w.fireworks@.len() == 0,
        w.music_playing,
        w.next_id == 12,
        w.mario == Some(
            Mario { id: 11, x: -2500i64, y: -780i64, dont_go_up_until_settle: false, is_super_mario: false },
        ),
        w.mario_dead is None,
        w.enemies@ == seq![
            Enemy { id: 0, x: 1750, y: -780i64, go_right: false, enemy_type: crate::enemy::EnemyType::Goomba },
            Enemy { id: 1, x: 1000, y: -740i64, go_right: false, enemy_type: crate::enemy::EnemyType::Turtle },
        ],
        w.mushrooms@ == seq![
            MagicMushroom { id: 2, x: 20, y: -295i64, visible: false, is_released: false, x_reached_max: false },
        ],
        w.question_blocks@ == seq![
            QuestionBlock { id: 4, x: 20, y: -295i64, is_mushroom: true, consumed: false },
            QuestionBlock { id: 6, x: 825, y: -295i64, is_mushroom: false, consumed: false },
            QuestionBlock { id: 8, x: 1145, y: -295i64, is_mushroom: false, consumed: false },
            QuestionBlock { id: 10, x: 982, y: 340, is_mushroom: false, consumed: false },
        ],
        w.empty_blocks@ == seq![
            EmptyBlock { id: 3, x: 20, y: -295i64, visible: false },
            EmptyBlock { id: 5, x: 825, y: -295i64, visible: false },
            EmptyBlock { id: 7, x: 1145, y: -295i64, visible: false },
            EmptyBlock { id: 9, x: 982, y: 340, visible: false },
        ],
{
    let mut enemies: Vec<Enemy> = Vec::new();
    enemies.push(
        Enemy { id: 0, x: 1750, y: -780i64, go_right: false, enemy_type: crate::enemy::EnemyType::Goomba },
    );
    enemies.push(
        Enemy { id: 1, x: 1000, y: -740i64, go_right: false, enemy_type: crate::enemy::EnemyType::Turtle },
    );
    let mut mushrooms: Vec<MagicMushroom> = Vec::new();
    mushrooms.push(
        MagicMushroom { id: 2, x: 20, y: -295i64, visible: false, is_released: false, x_reached_max: false },
    );
    let mut question_blocks: Vec<QuestionBlock> = Vec::new();
    question_blocks.push(QuestionBlock { id: 4, x: 20, y: -295i64, is_mushroom: true, consumed: false });
    question_blocks.push(
        QuestionBlock { id: 6, x: 825, y: -295i64, is_mushroom: false, consumed: false },
    );
    question_blocks.push(
        QuestionBlock { id: 8, x: 1145, y: -295i64, is_mushroom: false, consumed: false },
    );
    question_blocks.push(
        QuestionBlock { id: 10, x: 982, y: 340, is_mushroom: false, consumed: false },
    );
    let mut empty_blocks: Vec<EmptyBlock> = Vec::new();
    empty_blocks.push(EmptyBlock { id: 3, x: 20, y: -295i64, visible: false });
    empty_blocks.push(EmptyBlock { id: 5, x: 825, y: -295i64, visible: false });
    empty_blocks.push(EmptyBlock { id: 7, x: 1145, y: -295i64, visible: false });
    empty_blocks.push(EmptyBlock { id: 9, x: 982, y: 340, visible: false });
    let w = World {
        next_id: 12,
        mario: Some(
            Mario { id: 11, x: -2500, y: -780, dont_go_up_until_settle: false, is_super_mario: false },
        ),
        mario_dead: None,
        enemies,
        mushrooms,
        question_blocks,
        empty_blocks,
        fireworks: Vec::new(),
        music_playing: true,
        sounds: Vec::new(),
        mario_move_events: Vec::new(),
        enemy_move_events: Vec::new(),
        enemy_dead_events: Vec::new(),
        mushroom_release_events: Vec::new(),
        super_mario_events: Vec::new(),
    };
    proof {
        assert(w.enemies@ =~= seq![
            Enemy { id: 0, x: 1750, y: -780i64, go_right: false, enemy_type: crate::enemy::EnemyType::Goomba },
            Enemy { id: 1, x: 1000, y: -740i64, go_right: false, enemy_type: crate::enemy::EnemyType::Turtle },
        ]);
        assert(w.mushrooms@ =~= seq![
            MagicMushroom { id: 2, x: 20, y: -295i64, visible: false, is_released: false, x_reached_max: false },
        ]);
        assert(w.question_blocks@ =~= seq![
            QuestionBlock { id: 4, x: 20, y: -295i64, is_mushroom: true, consumed: false },
            QuestionBlock { id: 6, x: 825, y: -295i64, is_mushroom: false, consumed: false },
            QuestionBlock { id: 8, x: 1145, y: -295i64, is_mushroom: false, consumed: false },
            QuestionBlock { id: 10, x: 982, y: 340, is_mushroom: false, consumed: false },
        ]);
        assert(w.empty_blocks@ =~= seq![
            EmptyBlock { id: 3, x: 20, y: -295i64, visible: false },
            EmptyBlock { id: 5, x: 825, y: -295i64, visible: false },
            EmptyBlock { id: 7, x: 1145, y: -295i64, visible: false },
            EmptyBlock { id: 9, x: 982, y: 340, visible: false },
        ]);
    }
    w
}

/// Advance the simulation by one tick under the held directional intent.
///
/// The stages run in a fixed order that respects every producer/consumer
/// dependency between them: the movement stages emit position
/// events, the interaction stages consume them within the same tick, the
/// state-transition stages resolve pickups and collisions, and the victory
/// stage fires the moment the last enemy was stomped.  All queues are
/// drained before the tick ends, and `sounds` holds exactly the sounds
/// requested during this tick.
#[verifier::rlimit(100)]
pub fn tick(w: &mut World, intent: Intent)
    requires
        old(w).wf(),
        old(w).queues_empty(),
        old(w).next_id <= u64::MAX - 16,
    ensures
        final(w).wf(),
        final(w).queues_empty(),
        // Exactly one player entity exists after every transition.
        final(w).mario is Some <==> final(w).mario_dead is None,
        // The collision detector keeps only the last overlapping hit, so at
        // most one enemy dies per tick.
        final(w).enemies@.len() == old(w).enemies@.len() || final(w).enemies@.len() + 1 == old(
            w,
        ).enemies@.len(),
        // Enemies stay inside the level bounds.
        forall|i: int|
            0 <= i < final(w).enemies@.len() ==> LEVEL_X_MIN
                <= (#[trigger] final(w).enemies@[i]).x <= LEVEL_X_MAX,
        // Reward blocks are one-shot: a block only ever moves from full to
        // consumed, and a visible placeholder never disappears.
        final(w).question_blocks@.len() == old(w).question_blocks@.len(),
        forall|i: int|
            0 <= i < old(w).question_blocks@.len() ==> #[trigger] final(w).question_blocks@[i]
                == old(w).question_blocks@[i] || final(w).question_blocks@[i]
                == crate::question_block::block_consumed(old(w).question_blocks@[i]),
        final(w).empty_blocks@.len() == old(w).empty_blocks@.len(),
        forall|j: int|
            0 <= j < old(w).empty_blocks@.len() ==> #[trigger] final(w).empty_blocks@[j] == old(
                w,
            ).empty_blocks@[j] || final(w).empty_blocks@[j]
                == crate::question_block::empty_block_shown(old(w).empty_blocks@[j]),
        old(w).block_pairing_ok() ==> final(w).block_pairing_ok(),
        // Victory fires exactly once, on the tick the last enemy dies:
        // seven bursts spawn inside the celebration rectangle and the music
        // stops.
        (old(w).enemies@.len() > 0 && final(w).enemies@.len() == 0 && old(w).fireworks@.len()
            == 0) ==> {
            &&& final(w).fireworks@.len() == FIREWORK_COUNT
            &&& forall|k: int|
                0 <= k < final(w).fireworks@.len() ==> {
                    let f = #[trigger] final(w).fireworks@[k];
                    &&& FIREWORK_X_MIN <= f.x < FIREWORK_X_MAX
                    &&& FIREWORK_Y_MIN <= f.y < FIREWORK_Y_MAX
                }
            &&& !final(w).music_playing
        },
        // Victory cannot fire twice: with no enemy left, no enemy-dead
        // event can arise, so no new bursts ever spawn.
        old(w).enemies@.len() == 0 ==> final(w).fireworks@.len() <= old(w).fireworks@.len(),
        // A tick whose sound log records no pickup, death, or power-down
        // left the player's identity alone: the player moved exactly one
        // step under the held intent.
        old(w).mario matches Some(m0) ==> ((!final(w).sounds@.contains(Sound::PowerUp)
            && !final(w).sounds@.contains(Sound::MarioDie)
            && !final(w).sounds@.contains(Sound::PowerDown)) ==> (final(w).mario matches Some(m1)
            && crate::mario::mario_stepped(m0, m1, intent))),
        // Absent a power-down (which displaces the replacement 50 units to
        // the right), the player ends every tick inside the level x-bounds.
        final(w).mario matches Some(m) ==> (!final(w).sounds@.contains(Sound::PowerDown)
            ==> LEVEL_X_MIN <= m.x <= LEVEL_X_MAX),
        // A tick whose sound log records no stomp moved every enemy exactly
        // one patrol step.
        !final(w).sounds@.contains(Sound::Stomp) ==> {
            &&& final(w).enemies@.len() == old(w).enemies@.len()
            &&& forall|i: int|
                0 <= i < final(w).enemies@.len() ==> crate::enemy::enemy_stepped(
                    old(w).enemies@[i],
                    #[trigger] final(w).enemies@[i],
                )
        },
        // A tick whose sound log records neither a mushroom reveal nor a
        // pickup moved every mushroom exactly one step of its phase machine.
        (!final(w).sounds@.contains(Sound::MushroomAppears) && !final(w).sounds@.contains(
            Sound::PowerUp,
        )) ==> {
            &&& final(w).mushrooms@.len() == old(w).mushrooms@.len()
            &&& forall|i: int|
                0 <= i < final(w).mushrooms@.len() ==> crate::mushroom::mushroom_stepped(
                    old(w).mushrooms@[i],
                    #[trigger] final(w).mushrooms@[i],
                )
        },
{
    w.sounds.clear();
    let ghost w0 = *w;
    crate::mario::move_mario(w, intent);
    let ghost w1 = *w;
    crate::enemy::move_enemy(w);
    let ghost w2 = *w;
    crate::question_block::hit_questionblock_by_mario(w);
    let ghost w3 = *w;
    crate::mushroom::magic_mushroom_event_read(w);
    let ghost w4 = *w;
    crate::mushroom::move_mushroom(w);
    let ghost w5 = *w;
    crate::mario::mario_move_event_read(w);
    let ghost w6 = *w;
    crate::mario::mario_changed_as_supermario_event_read(w);
    let ghost w7 = *w;
    crate::enemy::enemy_move_event_read_for_mario(w);
    let ghost w8 = *w;
    crate::mario::handle_mario_dead_event(w);
    let ghost w9 = *w;
    crate::enemy::enemy_dead_event_read(w);
    let ghost w10 = *w;
    crate::firework::show_fireworks(w);
    let ghost w11 = *w;
    crate::firework::animate_fireworks(w);
    proof {
        lemma_tick_blocks(w0, w2, w3, *w);
        lemma_tick_victory(w0, w2, w7, w8, w9, w10, w11, *w);
        assert(w.enemies@.len() == w8.enemies@.len());
        assert(w8.enemies@.len() == w7.enemies@.len() || w8.enemies@.len() + 1
            == w7.enemies@.len()) by {
            if w7.mario is Some {
                let m = w7.mario->Some_0;
                let hit = crate::enemy::last_hit(w7.enemy_move_events@, m.x as int, m.y as int);
                if hit is Some && m.y > crate::enemy::kill_threshold(m.is_super_mario) {
                    if exists|i: int|
                        0 <= i < w7.enemies@.len() && (#[trigger] w7.enemies@[i]).id
                            == hit->Some_0 {
                        let i = choose|i: int|
                            0 <= i < w7.enemies@.len() && (#[trigger] w7.enemies@[i]).id
                                == hit->Some_0 && w8.enemies@ == w7.enemies@.remove(i);
                        assert(w8.enemies@.len() + 1 == w7.enemies@.len());
                    } else {
                        assert(w8.enemies@ == w7.enemies@);
                    }
                }
            }
        }
        // The sound log only grows from stage to stage.
        crate::mario::lemma_pickup_fold_props(
            w5.mushrooms@,
            w5.super_mario_events@,
            w5.sounds@,
            w5.mario_move_events@,
            0,
        );
        if w2.mario is Some {
            crate::question_block::lemma_blocks_fold_props(
                w2.question_blocks@,
                w2.empty_blocks@,
                w2.mushroom_release_events@,
                w2.sounds@,
                w2.mario->Some_0.x as int,
                w2.mario->Some_0.y as int,
                0,
            );
        }
        lemma_extends_is_prefix(w0.sounds@, w1.sounds@);
        lemma_extends_is_prefix(w1.sounds@, w2.sounds@);
        lemma_extends_is_prefix(w2.sounds@, w3.sounds@);
        lemma_extends_is_prefix(w3.sounds@, w4.sounds@);
        lemma_extends_is_prefix(w4.sounds@, w5.sounds@);
        lemma_extends_is_prefix(w5.sounds@, w6.sounds@);
        lemma_extends_is_prefix(w6.sounds@, w7.sounds@);
        lemma_extends_is_prefix(w7.sounds@, w8.sounds@);
        lemma_extends_is_prefix(w8.sounds@, w9.sounds@);
        lemma_extends_is_prefix(w9.sounds@, w10.sounds@);
        lemma_extends_is_prefix(w10.sounds@, w11.sounds@);
        lemma_extends_is_prefix(w11.sounds@, w.sounds@);
        lemma_prefix_trans(w6.sounds@, w7.sounds@, w8.sounds@);
        lemma_prefix_trans(w6.sounds@, w8.sounds@, w9.sounds@);
        lemma_prefix_trans(w6.sounds@, w9.sounds@, w10.sounds@);
        lemma_prefix_trans(w6.sounds@, w10.sounds@, w11.sounds@);
        lemma_prefix_trans(w6.sounds@, w11.sounds@, w.sounds@);
        lemma_prefix_trans(w8.sounds@, w9.sounds@, w10.sounds@);
        lemma_prefix_trans(w8.sounds@, w10.sounds@, w11.sounds@);
        lemma_prefix_trans(w8.sounds@, w11.sounds@, w.sounds@);
        lemma_prefix_trans(w3.sounds@, w4.sounds@, w5.sounds@);
        lemma_prefix_trans(w3.sounds@, w5.sounds@, w6.sounds@);
        lemma_prefix_trans(w3.sounds@, w6.sounds@, w7.sounds@);
        lemma_prefix_trans(w3.sounds@, w7.sounds@, w8.sounds@);
        lemma_prefix_trans(w3.sounds@, w8.sounds@, w9.sounds@);
        lemma_prefix_trans(w3.sounds@, w9.sounds@, w10.sounds@);
        lemma_prefix_trans(w3.sounds@, w10.sounds@, w11.sounds@);
        lemma_prefix_trans(w3.sounds@, w11.sounds@, w.sounds@);
        // Quiet-tick laws: absent transition sounds, the player and the
        // enemies took exactly their movement steps and nothing more.
        if old(w).mario is Some && !w.sounds@.contains(Sound::PowerUp) && !w.sounds@.contains(
            Sound::MarioDie,
        ) && !w.sounds@.contains(Sound::PowerDown) {
            // No pickup fired, else the pickup sound would be on the log.
            assert(w5.super_mario_events@.len() == 0);
            if w6.super_mario_events@.len() > 0 {
                assert(w6.sounds@[w5.sounds@.len() as int] == Sound::PowerUp);
                assert(w6.sounds@.contains(Sound::PowerUp));
                lemma_prefix_contains(w6.sounds@, w.sounds@, Sound::PowerUp);
                assert(false);
            }
            assert(w7.mario == w6.mario);
            // The collision stage did not replace the player either: a
            // death or power-down would have put its sound on the log.
            if w8.mario != w7.mario {
                assert(w8.sounds@ == w7.sounds@.push(Sound::MarioDie) || w8.sounds@
                    == w7.sounds@.push(Sound::PowerDown));
                if w8.sounds@ == w7.sounds@.push(Sound::MarioDie) {
                    assert(w8.sounds@[w7.sounds@.len() as int] == Sound::MarioDie);
                    assert(w8.sounds@.contains(Sound::MarioDie));
                    lemma_prefix_contains(w8.sounds@, w.sounds@, Sound::MarioDie);
                } else {
                    assert(w8.sounds@[w7.sounds@.len() as int] == Sound::PowerDown);
                    assert(w8.sounds@.contains(Sound::PowerDown));
                    lemma_prefix_contains(w8.sounds@, w.sounds@, Sound::PowerDown);
                }
                assert(false);
            }
            assert(w.mario == w8.mario);
        }
        if old(w).enemies@.len() == 0 {
            // An empty enemy set emits no events, so no hit, no enemy-dead
            // event, and no victory spawn; the animation stage only ever
            // shortens the burst list.
            assert(w2.enemy_move_events@.len() == 0);
            if w7.mario is Some {
                let m = w7.mario->Some_0;
                assert(crate::enemy::last_hit(w7.enemy_move_events@, m.x as int, m.y as int)
                    is None);
            }
            assert(w9.enemy_dead_events@.len() == 0);
            assert(w10.fireworks@ == w9.fireworks@);
            assert(w11.fireworks@.len() == w0.fireworks@.len());
            crate::firework::lemma_fireworks_animated_props(w11.fireworks@, 0);
        }
        if w.mario is Some && !w.sounds@.contains(Sound::PowerDown) {
            // The live player at the end of the tick is the moved player or
            // the super replacement of a pickup; both sit inside the level
            // x-bounds.  A power-down would have left its sound on the log,
            // and a death leaves no live player at all.
            assert(w.mario == w8.mario);
            if w8.mario != w7.mario {
                assert(w8.mario is Some);
                assert(w8.sounds@ == w7.sounds@.push(Sound::PowerDown));
                assert(w8.sounds@[w7.sounds@.len() as int] == Sound::PowerDown);
                assert(w8.sounds@.contains(Sound::PowerDown));
                lemma_prefix_contains(w8.sounds@, w.sounds@, Sound::PowerDown);
                assert(false);
            }
            if w7.mario == w6.mario {
                assert(w6.mario == w1.mario);
            } else {
                assert(w7.mario->Some_0.is_super_mario);
            }
        }
        if !w.sounds@.contains(Sound::Stomp) {
            // The collision stage did not stomp: the enemies kept their
            // patrol steps from the movement stage.
            if w8.enemies@ != w7.enemies@ {
                assert(w8.sounds@ == w7.sounds@.push(Sound::Stomp));
                assert(w8.sounds@[w7.sounds@.len() as int] == Sound::Stomp);
                assert(w8.sounds@.contains(Sound::Stomp));
                lemma_prefix_contains(w8.sounds@, w.sounds@, Sound::Stomp);
                assert(false);
            }
            assert(w.enemies@ == w2.enemies@);
        }
        if !w.sounds@.contains(Sound::MushroomAppears) && !w.sounds@.contains(Sound::PowerUp) {
            // No mushroom block was consumed, so the release stage saw an
            // empty queue and revealed nothing.
            if w3.mushroom_release_events@.len() > 0 {
                let k = choose|k: int|
                    w2.sounds@.len() <= k < w3.sounds@.len() && #[trigger] w3.sounds@[k]
                        == Sound::MushroomAppears;
                assert(w3.sounds@.contains(Sound::MushroomAppears));
                lemma_prefix_contains(w3.sounds@, w.sounds@, Sound::MushroomAppears);
                assert(false);
            }
            assert forall|i: int| 0 <= i < w4.mushrooms@.len() implies #[trigger] w4.mushrooms@[i]
                == w3.mushrooms@[i] by {
                let m0 = w3.mushrooms@[i];
                assert(!crate::mushroom::has_release_match(
                    w3.mushroom_release_events@,
                    m0.x as int,
                    m0.y as int,
                ));
                assert(w4.mushrooms@[i] == (MagicMushroom { visible: m0.visible, ..m0 }));
            }
            assert(w4.mushrooms@ =~= w3.mushrooms@);
            // And no pickup fired, else the pickup sound would be on the log.
            if w6.sounds@.len() > w5.sounds@.len() {
                assert(w6.sounds@[w5.sounds@.len() as int] == Sound::PowerUp);
                assert(w6.sounds@.contains(Sound::PowerUp));
                lemma_prefix_contains(w6.sounds@, w.sounds@, Sound::PowerUp);
                assert(false);
            }
            assert(w6.mushrooms@ == w5.mushrooms@);
            assert(w.mushrooms@ == w6.mushrooms@);
        }
    }
}

/// `q` extends `p` element for element, so `p` is a prefix of `q`.
proof fn lemma_extends_is_prefix(p: Seq<Sound>, q: Seq<Sound>)
    requires
        p.len() <= q.len(),
        forall|k: int| 0 <= k < p.len() ==> #[trigger] q[k] == p[k],
    ensures
        p.is_prefix_of(q),
{
    assert(p =~= q.subrange(0, p.len() as int));
}

proof fn lemma_prefix_trans(a: Seq<Sound>, b: Seq<Sound>, c: Seq<Sound>)
    requires
        a.is_prefix_of(b),
        b.is_prefix_of(c),
    ensures
        a.is_prefix_of(c),
{
    assert forall|k: int| 0 <= k < a.len() implies #[trigger] c[k] == a[k] by {
        assert(a[k] == b.subrange(0, a.len() as int)[k]);
        assert(b[k] == c.subrange(0, b.len() as int)[k]);
    }
    assert(a =~= c.subrange(0, a.len() as int));
}

/// A sound once requested stays on the log: later stages only append.
proof fn lemma_prefix_contains(p: Seq<Sound>, q: Seq<Sound>, s: Sound)
    requires
        p.is_prefix_of(q),
        p.contains(s),
    ensures
        q.contains(s),
{
    let i = choose|i: int| 0 <= i < p.len() && p[i] == s;
    assert(p[i] == q.subrange(0, p.len() as int)[i]);
    assert(q[i] == s);
}

/// The reward blocks and placeholders change only in the interaction stage,
/// and only monotonically; pairing is preserved.
proof fn lemma_tick_blocks(w0: World, w2: World, w3: World, wf_: World)
    requires
        w2.question_blocks == w0.question_blocks,
        w2.empty_blocks == w0.empty_blocks,
        w2.mario is Some ==> crate::question_block::block_stage_rel(
            w2,
            w3,
            w2.mario->Some_0.x as int,
            w2.mario->Some_0.y as int,
        ),
        w2.mario is None ==> w3 == w2,
        wf_.question_blocks == w3.question_blocks,
        wf_.empty_blocks == w3.empty_blocks,
    ensures
        wf_.question_blocks@.len() == w0.question_blocks@.len(),
        forall|i: int|
            0 <= i < w0.question_blocks@.len() ==> #[trigger] wf_.question_blocks@[i]
                == w0.question_blocks@[i] || wf_.question_blocks@[i]
                == crate::question_block::block_consumed(w0.question_blocks@[i]),
        wf_.empty_blocks@.len() == w0.empty_blocks@.len(),
        forall|j: int|
            0 <= j < w0.empty_blocks@.len() ==> #[trigger] wf_.empty_blocks@[j]
                == w0.empty_blocks@[j] || wf_.empty_blocks@[j]
                == crate::question_block::empty_block_shown(w0.empty_blocks@[j]),
        w0.block_pairing_ok() ==> wf_.block_pairing_ok(),
{
    if w2.mario is Some {
        let mx = w2.mario->Some_0.x as int;
        let my = w2.mario->Some_0.y as int;
        let bs = w0.question_blocks@;
        let ebs = w0.empty_blocks@;
        let evs = w2.mushroom_release_events@;
        let snds = w2.sounds@;
        crate::question_block::lemma_blocks_fold_props(bs, ebs, evs, snds, mx, my, 0);
        let t = crate::question_block::blocks_fold(bs, ebs, evs, snds, mx, my, 0);
        if w0.block_pairing_ok() {
            assert forall|i: int, j: int|
                0 <= i < wf_.question_blocks@.len() && 0 <= j < wf_.empty_blocks@.len()
                    && (#[trigger] wf_.question_blocks@[i]).consumed
                    && (#[trigger] wf_.empty_blocks@[j]).x == wf_.question_blocks@[i].x
                    && wf_.empty_blocks@[j].y == wf_.question_blocks@[i].y
                implies wf_.empty_blocks@[j].visible by {
                assert(t.0[i] == bs[i] || (crate::question_block::block_hit(bs[i], mx, my)
                    && t.0[i] == crate::question_block::block_consumed(bs[i])));
                assert(t.1[j] == ebs[j] || t.1[j] == crate::question_block::empty_block_shown(
                    ebs[j],
                ));
                if t.0[i] == bs[i] {
                    // The block was already consumed before the tick; its
                    // paired placeholder was already visible.
                    assert(ebs[j].visible);
                } else {
                    crate::question_block::lemma_blocks_fold_shows_pair(
                        bs,
                        ebs,
                        evs,
                        snds,
                        mx,
                        my,
                        0,
                        i,
                        j,
                    );
                }
            }
        }
    }
}

/// Fireworks exist only after the victory stage fired; on the tick the last
/// enemy dies, exactly seven spawn inside the celebration rectangle, and the
/// reveal and animation stages of the same tick keep all seven alive.
#[verifier::rlimit(30)]
proof fn lemma_tick_victory(
    w0: World,
    w2: World,
    w7: World,
    w8: World,
    w9: World,
    w10: World,
    w11: World,
    wf_: World,
)
    requires
        w0.queues_empty(),
        w2.enemies@.len() == w0.enemies@.len(),
        w7.enemies == w2.enemies,
        w7.enemy_dead_events == w0.enemy_dead_events,
        w7.fireworks == w0.fireworks,
        // The collision stage either leaves the enemies alone or stomps,
        // pushing one enemy-dead event.
        w8.enemies@ == w7.enemies@ || w8.enemy_dead_events@ == w7.enemy_dead_events@.push(
            crate::enemy::EnemyDead,
        ),
        w8.fireworks == w7.fireworks,
        w9.enemies == w8.enemies,
        w9.enemy_dead_events == w8.enemy_dead_events,
        w9.fireworks == w8.fireworks,
        w10.enemies == w9.enemies,
        (w9.enemy_dead_events@.len() > 0 && w9.enemies@.len() == 0) ==> {
            &&& w10.fireworks@.len() == w9.fireworks@.len() + FIREWORK_COUNT
            &&& !w10.music_playing
            &&& forall|k: int|
                w9.fireworks@.len() <= k < w10.fireworks@.len() ==> {
                    let f = #[trigger] w10.fireworks@[k];
                    &&& FIREWORK_X_MIN <= f.x < FIREWORK_X_MAX
                    &&& FIREWORK_Y_MIN <= f.y < FIREWORK_Y_MAX
                    &&& !f.visible
                    &&& f.frame == 0
                }
        },
        w11.enemies == w10.enemies,
        w11.music_playing == w10.music_playing,
        w10.fireworks@.len() > 0 && !w10.fireworks@[0].visible ==> w11.fireworks@
            == w10.fireworks@.update(
            0,
            crate::firework::Firework { visible: true, ..w10.fireworks@[0] },
        ),
        !(w10.fireworks@.len() > 0 && !w10.fireworks@[0].visible) ==> w11.fireworks
            == w10.fireworks,
        wf_.enemies == w11.enemies,
        wf_.music_playing == w11.music_playing,
        wf_.fireworks@ == crate::firework::fireworks_animated(w11.fireworks@, 0),
    ensures
        (w0.enemies@.len() > 0 && wf_.enemies@.len() == 0 && w0.fireworks@.len() == 0) ==> {
            &&& wf_.fireworks@.len() == FIREWORK_COUNT
            &&& forall|k: int|
                0 <= k < wf_.fireworks@.len() ==> {
                    let f = #[trigger] wf_.fireworks@[k];
                    &&& FIREWORK_X_MIN <= f.x < FIREWORK_X_MAX
                    &&& FIREWORK_Y_MIN <= f.y < FIREWORK_Y_MAX
                }
            &&& !wf_.music_playing
        },
{
    if w0.enemies@.len() > 0 && wf_.enemies@.len() == 0 && w0.fireworks@.len() == 0 {
        // The enemy set shrank, so the collision stage stomped and pushed
        // the enemy-dead event that the victory stage consumes.
        assert(w8.enemies@.len() == 0 && w7.enemies@.len() > 0);
        assert(w8.enemies@ != w7.enemies@);
        assert(w9.enemy_dead_events@.len() > 0);
        assert(w9.enemies@.len() == 0);
        assert(w10.fireworks@.len() == FIREWORK_COUNT);
        // The reveal stage turns the front burst visible; the animation
        // stage advances it from frame 0 to 1, despawning nothing.
        assert(w11.fireworks@.len() == FIREWORK_COUNT);
        assert forall|k: int|
            0 <= k < w11.fireworks@.len() && (#[trigger] w11.fireworks@[k]).visible
            implies w11.fireworks@[k].frame + 1 != FIREWORK_LAST_FRAME by {
            if k == 0 {
            } else {
                assert(w11.fireworks@[k] == w10.fireworks@[k]);
            }
        }
        crate::firework::lemma_fireworks_animated_no_despawn(w11.fireworks@, 0);
        assert(wf_.fireworks@.len() == FIREWORK_COUNT);
        assert forall|k: int| 0 <= k < wf_.fireworks@.len() implies {
            let f = #[trigger] wf_.fireworks@[k];
            &&& FIREWORK_X_MIN <= f.x < FIREWORK_X_MAX
            &&& FIREWORK_Y_MIN <= f.y < FIREWORK_Y_MAX
        } by {
            assert(wf_.fireworks@[k] == crate::firework::fireworks_animated(w11.fireworks@, 0)[
                k - 0]);
            let f11 = w11.fireworks@[k];
            assert(FIREWORK_X_MIN <= f11.x < FIREWORK_X_MAX && FIREWORK_Y_MIN <= f11.y
                < FIREWORK_Y_MAX) by {
                if k == 0 {
                } else {
                    assert(w11.fireworks@[k] == w10.fireworks@[k]);
                }
            }
        }
    }
}

} // verus!
