//! Reward blocks and their paired empty placeholders.  A block is consumed
//! by the first hit; the placeholder at exactly the same position becomes
//! visible in its stead and stays visible forever.

use vstd::prelude::*;

use crate::mushroom::MagicMushroomReleaseEvent;
use crate::{
    Sound, World, BLOCK_HIT_MARGIN, DEAD_RISE_DY, LEVEL_X_MAX, LEVEL_X_MIN, PLAYER_Y_MAX,
    POWERDOWN_DX, SMALL_MIN_Y, SUPER_SPAWN_DY,
};

verus! {

/// A reward block: holds either a mushroom or a coin until consumed.
#[derive(Clone, Copy, Debug)]
pub struct QuestionBlock {
    pub id: u64,
    pub x: i64,
    pub y: i64,
    pub is_mushroom: bool,
    pub consumed: bool,
}

/// The placeholder shown where a consumed reward block used to be.
#[derive(Clone, Copy, Debug)]
pub struct EmptyBlock {
    pub id: u64,
    pub x: i64,
    pub y: i64,
    pub visible: bool,
}

/// Whether the player at `(mx, my)` hits this block: the block must still be
/// full, and both coordinates within 5.0 units.
pub open spec fn block_hit(b: QuestionBlock, mx: int, my: int) -> bool {
    &&& !b.consumed
    &&& b.x - BLOCK_HIT_MARGIN <= mx <= b.x + BLOCK_HIT_MARGIN
    &&& b.y - BLOCK_HIT_MARGIN <= my <= b.y + BLOCK_HIT_MARGIN
}

/// `b` with its contents consumed.
pub open spec fn block_consumed(b: QuestionBlock) -> QuestionBlock {
    QuestionBlock { consumed: true, ..b }
}

/// `e` made visible.
pub open spec fn empty_block_shown(e: EmptyBlock) -> EmptyBlock {
    EmptyBlock { visible: true, ..e }
}

/// Result of consuming block `b`, scanning the placeholders from index `j`
/// on: every placeholder at exactly the block's position becomes visible,
/// and per matching placeholder either the mushroom-release event fires with
/// its reveal sound, or the coin sound plays.
pub open spec fn consume_one_block(
    ebs: Seq<EmptyBlock>,
    evs: Seq<MagicMushroomReleaseEvent>,
    snds: Seq<Sound>,
    b: QuestionBlock,
    j: int,
) -> (Seq<EmptyBlock>, Seq<MagicMushroomReleaseEvent>, Seq<Sound>)
    decreases ebs.len() - j,
{
    if j < 0 || j >= ebs.len() {
        (ebs, evs, snds)
    } else if ebs[j].x == b.x && ebs[j].y == b.y {
        let shown = ebs.update(j, empty_block_shown(ebs[j]));
        if b.is_mushroom {
            consume_one_block(
                shown,
                evs.push(MagicMushroomReleaseEvent { x: ebs[j].x, y: ebs[j].y }),
                snds.push(Sound::MushroomAppears),
                b,
                j + 1,
            )
        } else {
            consume_one_block(shown, evs, snds.push(Sound::Coin), b, j + 1)
        }
    } else {
        consume_one_block(ebs, evs, snds, b, j + 1)
    }
}

/// Result of hit-testing the player against the blocks from index `i` on:
/// each full block the player overlaps is consumed, and its placeholders are
/// revealed as in `consume_one_block`.
pub open spec fn blocks_fold(
    bs: Seq<QuestionBlock>,
    ebs: Seq<EmptyBlock>,
    evs: Seq<MagicMushroomReleaseEvent>,
    snds: Seq<Sound>,
    mx: int,
    my: int,
    i: int,
) -> (Seq<QuestionBlock>, Seq<EmptyBlock>, Seq<MagicMushroomReleaseEvent>, Seq<Sound>)
    decreases bs.len() - i,
{
    if i < 0 || i >= bs.len() {
        (bs, ebs, evs, snds)
    } else if block_hit(bs[i], mx, my) {
        let t = consume_one_block(ebs, evs, snds, bs[i], 0);
        blocks_fold(bs.update(i, block_consumed(bs[i])), t.0, t.1, t.2, mx, my, i + 1)
    } else {
        blocks_fold(bs, ebs, evs, snds, mx, my, i + 1)
    }
}

proof fn lemma_consume_one_props(
    ebs: Seq<EmptyBlock>,
    evs: Seq<MagicMushroomReleaseEvent>,
    snds: Seq<Sound>,
    b: QuestionBlock,
    j: int,
)
    requires
        0 <= j,
    ensures
        ({
            let t = consume_one_block(ebs, evs, snds, b, j);
            &&& t.0.len() == ebs.len()
            &&& forall|k: int|
                0 <= k < ebs.len() ==> #[trigger] t.0[k] == ebs[k] || t.0[k] == empty_block_shown(
                    ebs[k],
                )
            &&& forall|k: int| 0 <= k < j && 0 <= k < ebs.len() ==> #[trigger] t.0[k] == ebs[k]
            &&& forall|k: int|
                j <= k < ebs.len() && ebs[k].x == b.x && ebs[k].y == b.y ==> (#[trigger] t.0[k])
                    == empty_block_shown(ebs[k])
            &&& t.1.len() >= evs.len()
            &&& forall|k: int| 0 <= k < evs.len() ==> #[trigger] t.1[k] == evs[k]
            &&& forall|k: int|
                evs.len() <= k < t.1.len() ==> #[trigger] t.1[k] == (MagicMushroomReleaseEvent {
                    x: b.x,
                    y: b.y,
                })
            &&& b.is_mushroom ==> t.2.len() == snds.len() + t.1.len() - evs.len()
            &&& b.is_mushroom ==> forall|k: int|
                snds.len() <= k < t.2.len() ==> #[trigger] t.2[k] == Sound::MushroomAppears
            &&& !b.is_mushroom ==> t.1.len() == evs.len()
            &&& t.2.len() >= snds.len()
            &&& forall|k: int| 0 <= k < snds.len() ==> #[trigger] t.2[k] == snds[k]
        }),
    decreases ebs.len() - j,
{
    if j < 0 || j >= ebs.len() {
    } else if ebs[j].x == b.x && ebs[j].y == b.y {
        let shown = ebs.update(j, empty_block_shown(ebs[j]));
        if b.is_mushroom {
            lemma_consume_one_props(
                shown,
                evs.push(MagicMushroomReleaseEvent { x: ebs[j].x, y: ebs[j].y }),
                snds.push(Sound::MushroomAppears),
                b,
                j + 1,
            );
        } else {
            lemma_consume_one_props(shown, evs, snds.push(Sound::Coin), b, j + 1);
        }
        let t = consume_one_block(ebs, evs, snds, b, j);
        assert forall|k: int|
            0 <= k < ebs.len() implies #[trigger] t.0[k] == ebs[k] || t.0[k] == empty_block_shown(
            ebs[k],
        ) by {
            assert(t.0[k] == shown[k] || t.0[k] == empty_block_shown(shown[k]));
            if k != j {
                assert(shown[k] == ebs[k]);
            }
        }
        assert forall|k: int|
            j <= k < ebs.len() && ebs[k].x == b.x && ebs[k].y == b.y implies (#[trigger] t.0[k])
            == empty_block_shown(ebs[k]) by {
            if k == j {
                assert(t.0[k] == shown[k]);
            } else {
                assert(shown[k] == ebs[k]);
            }
        }
    } else {
        lemma_consume_one_props(ebs, evs, snds, b, j + 1);
    }
}

/// Frame facts about the block stage fold: blocks only ever become
/// consumed (coordinates and contents untouched), placeholders only ever
/// become visible, and earlier events and sounds are preserved.
pub proof fn lemma_blocks_fold_props(
    bs: Seq<QuestionBlock>,
    ebs: Seq<EmptyBlock>,
    evs: Seq<MagicMushroomReleaseEvent>,
    snds: Seq<Sound>,
    mx: int,
    my: int,
    i: int,
)
    requires
        0 <= i,
    ensures
        ({
            let t = blocks_fold(bs, ebs, evs, snds, mx, my, i);
            &&& t.0.len() == bs.len()
            &&& forall|k: int|
                0 <= k < bs.len() ==> #[trigger] t.0[k] == bs[k] || (block_hit(bs[k], mx, my)
                    && t.0[k] == block_consumed(bs[k]))
            &&& forall|k: int|
                i <= k < bs.len() && block_hit(bs[k], mx, my) ==> (#[trigger] t.0[k])
                    == block_consumed(bs[k])
            &&& t.1.len() == ebs.len()
            &&& forall|k: int|
                0 <= k < ebs.len() ==> #[trigger] t.1[k] == ebs[k] || t.1[k] == empty_block_shown(
                    ebs[k],
                )
            &&& t.2.len() >= evs.len()
            &&& forall|k: int| 0 <= k < evs.len() ==> #[trigger] t.2[k] == evs[k]
            &&& t.3.len() >= snds.len()
            &&& forall|k: int| 0 <= k < snds.len() ==> #[trigger] t.3[k] == snds[k]
            &&& t.2.len() > evs.len() ==> exists|k: int|
                snds.len() <= k < t.3.len() && #[trigger] t.3[k] == Sound::MushroomAppears
        }),
    decreases bs.len() - i,
{
    if i < 0 || i >= bs.len() {
    } else if block_hit(bs[i], mx, my) {
        let bs1 = bs.update(i, block_consumed(bs[i]));
        let t1 = consume_one_block(ebs, evs, snds, bs[i], 0);
        lemma_consume_one_props(ebs, evs, snds, bs[i], 0);
        lemma_blocks_fold_props(bs1, t1.0, t1.1, t1.2, mx, my, i + 1);
        let t = blocks_fold(bs, ebs, evs, snds, mx, my, i);
        assert forall|k: int|
            0 <= k < bs.len() implies #[trigger] t.0[k] == bs[k] || (block_hit(bs[k], mx, my)
            && t.0[k] == block_consumed(bs[k])) by {
            assert(t.0[k] == bs1[k] || (block_hit(bs1[k], mx, my) && t.0[k] == block_consumed(
                bs1[k],
            )));
            if k == i {
                assert(bs1[k] == block_consumed(bs[k]));
                assert(!block_hit(bs1[k], mx, my));
            } else {
                assert(bs1[k] == bs[k]);
            }
        }
        assert forall|k: int|
            i <= k < bs.len() && block_hit(bs[k], mx, my) implies (#[trigger] t.0[k])
            == block_consumed(bs[k]) by {
            if k == i {
                assert(t.0[k] == bs1[k] || t.0[k] == block_consumed(bs1[k]));
                assert(bs1[k] == block_consumed(bs[k]));
                assert(block_consumed(bs1[k]) == block_consumed(bs[k]));
            } else {
                assert(bs1[k] == bs[k]);
                assert(t.0[k] == block_consumed(bs1[k]));
            }
        }
        assert forall|k: int|
            0 <= k < ebs.len() implies #[trigger] t.1[k] == ebs[k] || t.1[k] == empty_block_shown(
            ebs[k],
        ) by {
            assert(t.1[k] == t1.0[k] || t.1[k] == empty_block_shown(t1.0[k]));
            assert(t1.0[k] == ebs[k] || t1.0[k] == empty_block_shown(ebs[k]));
        }
        if t.2.len() > evs.len() {
            if t1.1.len() > evs.len() {
                assert(bs[i].is_mushroom);
                assert(t1.2[snds.len() as int] == Sound::MushroomAppears);
                assert(t.3[snds.len() as int] == t1.2[snds.len() as int]);
                assert(snds.len() <= snds.len() < t.3.len() && t.3[snds.len() as int]
                    == Sound::MushroomAppears);
            } else {
                let k = choose|k: int|
                    t1.2.len() <= k < t.3.len() && #[trigger] t.3[k] == Sound::MushroomAppears;
                assert(snds.len() <= k < t.3.len() && t.3[k] == Sound::MushroomAppears);
            }
        }
    } else {
        lemma_blocks_fold_props(bs, ebs, evs, snds, mx, my, i + 1);
    }
}

/// One-shot law: a consumed reward block never produces another event or
/// sound, and nothing else changes.  If the player overlaps no full block,
/// the whole stage is a no-op.
pub proof fn lemma_blocks_fold_no_hit(
    bs: Seq<QuestionBlock>,
    ebs: Seq<EmptyBlock>,
    evs: Seq<MagicMushroomReleaseEvent>,
    snds: Seq<Sound>,
    mx: int,
    my: int,
    i: int,
)
    requires
        forall|k: int| 0 <= k < bs.len() ==> !block_hit(#[trigger] bs[k], mx, my),
    ensures
        blocks_fold(bs, ebs, evs, snds, mx, my, i) == (bs, ebs, evs, snds),
    decreases bs.len() - i,
{
    if i < 0 || i >= bs.len() {
    } else {
        lemma_blocks_fold_no_hit(bs, ebs, evs, snds, mx, my, i + 1);
    }
}

/// Pairing law: when the player hits a full block, every placeholder at
/// exactly the block's coordinates is visible after the stage.
pub proof fn lemma_blocks_fold_shows_pair(
    bs: Seq<QuestionBlock>,
    ebs: Seq<EmptyBlock>,
    evs: Seq<MagicMushroomReleaseEvent>,
    snds: Seq<Sound>,
    mx: int,
    my: int,
    i: int,
    bi: int,
    ej: int,
)
    requires
        0 <= i <= bi < bs.len(),
        block_hit(bs[bi], mx, my),
        0 <= ej < ebs.len(),
        ebs[ej].x == bs[bi].x,
        ebs[ej].y == bs[bi].y,
    ensures
        blocks_fold(bs, ebs, evs, snds, mx, my, i).1[ej].visible,
    decreases bs.len() - i,
{
    if i == bi {
        let t1 = consume_one_block(ebs, evs, snds, bs[i], 0);
        lemma_consume_one_props(ebs, evs, snds, bs[i], 0);
        assert(t1.0[ej] == empty_block_shown(ebs[ej]));
        let bs1 = bs.update(i, block_consumed(bs[i]));
        lemma_blocks_fold_props(bs1, t1.0, t1.1, t1.2, mx, my, i + 1);
        let t = blocks_fold(bs, ebs, evs, snds, mx, my, i);
        assert(t.1[ej] == t1.0[ej] || t.1[ej] == empty_block_shown(t1.0[ej]));
    } else if block_hit(bs[i], mx, my) {
        let t1 = consume_one_block(ebs, evs, snds, bs[i], 0);
        lemma_consume_one_props(ebs, evs, snds, bs[i], 0);
        let bs1 = bs.update(i, block_consumed(bs[i]));
        assert(t1.0[ej] == ebs[ej] || t1.0[ej] == empty_block_shown(ebs[ej]));
        assert(bs1[bi] == bs[bi]);
        if t1.0[ej] == ebs[ej] {
            lemma_blocks_fold_shows_pair(bs1, t1.0, t1.1, t1.2, mx, my, i + 1, bi, ej);
        } else {
            lemma_blocks_fold_shows_pair(bs1, t1.0, t1.1, t1.2, mx, my, i + 1, bi, ej);
        }
    } else {
        lemma_blocks_fold_shows_pair(bs, ebs, evs, snds, mx, my, i + 1, bi, ej);
    }
}

/// The block stage relates `a` to `b` for a player standing at `(mx, my)`:
/// exactly the fold over all blocks, and nothing else changed.
pub open spec fn block_stage_rel(a: World, b: World, mx: int, my: int) -> bool {
    let t = blocks_fold(
        a.question_blocks@,
        a.empty_blocks@,
        a.mushroom_release_events@,
        a.sounds@,
        mx,
        my,
        0,
    );
    &&& b == (World {
        question_blocks: b.question_blocks,
        empty_blocks: b.empty_blocks,
        mushroom_release_events: b.mushroom_release_events,
        sounds: b.sounds,
        ..a
    })
    &&& b.question_blocks@ == t.0
    &&& b.empty_blocks@ == t.1
    &&& b.mushroom_release_events@ == t.2
    &&& b.sounds@ == t.3
}

/// Interaction stage for reward blocks, for a player at `(mx, my)`: every
/// full block the player overlaps (both axes within 5.0 units) is consumed;
/// each placeholder at exactly the block's coordinates becomes visible; a
/// mushroom block fires the release event with its reveal sound, a coin
/// block plays the coin sound.
pub fn handle_hit_questionblock(w: &mut World, mx: i64, my: i64)
    requires
        LEVEL_X_MIN <= mx <= LEVEL_X_MAX + POWERDOWN_DX,
        SMALL_MIN_Y <= my <= PLAYER_Y_MAX + SUPER_SPAWN_DY + DEAD_RISE_DY,
    ensures
        block_stage_rel(*old(w), *final(w), mx as int, my as int),
{
    let nb = w.question_blocks.len();
    let ghost bs0 = w.question_blocks@;
    let ghost ebs0 = w.empty_blocks@;
    let ghost evs0 = w.mushroom_release_events@;
    let ghost snds0 = w.sounds@;
    for i in 0..nb
        invariant
            nb == bs0.len(),
            nb == w.question_blocks@.len(),
            LEVEL_X_MIN <= mx <= LEVEL_X_MAX + POWERDOWN_DX,
            SMALL_MIN_Y <= my <= PLAYER_Y_MAX + SUPER_SPAWN_DY + DEAD_RISE_DY,
            *w == (World {
                question_blocks: w.question_blocks,
                empty_blocks: w.empty_blocks,
                mushroom_release_events: w.mushroom_release_events,
                sounds: w.sounds,
                ..*old(w)
            }),
            blocks_fold(
                w.question_blocks@,
                w.empty_blocks@,
                w.mushroom_release_events@,
                w.sounds@,
                mx as int,
                my as int,
                i as int,
            ) == blocks_fold(bs0, ebs0, evs0, snds0, mx as int, my as int, 0),
            bs0 == old(w).question_blocks@,
            ebs0 == old(w).empty_blocks@,
            evs0 == old(w).mushroom_release_events@,
            snds0 == old(w).sounds@,
    {
        let b = w.question_blocks[i];
        let ghost bs_entry = w.question_blocks@;
        if !b.consumed && (mx - BLOCK_HIT_MARGIN <= b.x && b.x <= mx + BLOCK_HIT_MARGIN) && (my
            - BLOCK_HIT_MARGIN <= b.y && b.y <= my + BLOCK_HIT_MARGIN) {
            assert(block_hit(b, mx as int, my as int));
            let ghost ebs_entry = w.empty_blocks@;
            let ghost evs_entry = w.mushroom_release_events@;
            let ghost snds_entry = w.sounds@;
            let ne = w.empty_blocks.len();
            for j in 0..ne
                invariant
                    ne == w.empty_blocks@.len(),
                    ne == ebs_entry.len(),
                    i < nb,
                    nb == w.question_blocks@.len(),
                    b == w.question_blocks@[i as int],
                    w.question_blocks@ == bs_entry,
                    *w == (World {
                        question_blocks: w.question_blocks,
                        empty_blocks: w.empty_blocks,
                        mushroom_release_events: w.mushroom_release_events,
                        sounds: w.sounds,
                        ..*old(w)
                    }),
                    consume_one_block(
                        w.empty_blocks@,
                        w.mushroom_release_events@,
                        w.sounds@,
                        b,
                        j as int,
                    ) == consume_one_block(ebs_entry, evs_entry, snds_entry, b, 0),
            {
                let eb = w.empty_blocks[j];
                if b.x == eb.x && b.y == eb.y {
                    w.empty_blocks.set(j, EmptyBlock { visible: true, ..eb });
                    if b.is_mushroom {
                        w.sounds.push(Sound::MushroomAppears);
                        w.mushroom_release_events.push(
                            MagicMushroomReleaseEvent { x: eb.x, y: eb.y },
                        );
                    } else {
                        w.sounds.push(Sound::Coin);
                    }
                }
            }
            proof {
                assert(consume_one_block(
                    w.empty_blocks@,
                    w.mushroom_release_events@,
                    w.sounds@,
                    b,
                    ne as int,
                ) == (w.empty_blocks@, w.mushroom_release_events@, w.sounds@));
            }
            w.question_blocks.set(i, QuestionBlock { consumed: true, ..b });
            proof {
                let t = consume_one_block(ebs_entry, evs_entry, snds_entry, b, 0);
                assert(w.empty_blocks@ == t.0);
                assert(w.mushroom_release_events@ == t.1);
                assert(w.sounds@ == t.2);
                assert(w.question_blocks@ == bs_entry.update(i as int, block_consumed(b)));
                assert(blocks_fold(
                    bs_entry,
                    ebs_entry,
                    evs_entry,
                    snds_entry,
                    mx as int,
                    my as int,
                    i as int,
                ) == blocks_fold(
                    w.question_blocks@,
                    w.empty_blocks@,
                    w.mushroom_release_events@,
                    w.sounds@,
                    mx as int,
                    my as int,
                    i + 1 as int,
                ));
            }
        } else {
            proof {
                assert(!block_hit(b, mx as int, my as int));
                assert(blocks_fold(
                    bs_entry,
                    w.empty_blocks@,
                    w.mushroom_release_events@,
                    w.sounds@,
                    mx as int,
                    my as int,
                    i as int,
                ) == blocks_fold(
                    bs_entry,
                    w.empty_blocks@,
                    w.mushroom_release_events@,
                    w.sounds@,
                    mx as int,
                    my as int,
                    i + 1 as int,
                ));
            }
        }
    }
}

/// Interaction stage entry for reward blocks: with no live player nothing
/// happens; otherwise the blocks are hit-tested against the player's
/// position.
pub fn hit_questionblock_by_mario(w: &mut World)
    requires
        old(w).wf_player(),
    ensures
        old(w).mario is None ==> *final(w) == *old(w),
        old(w).mario matches Some(m) ==> block_stage_rel(
            *old(w),
            *final(w),
            m.x as int,
            m.y as int,
        ),
{
    let m = match &w.mario {
        None => {
            return ;
        },
        Some(m) => *m,
    };
    handle_hit_questionblock(w, m.x, m.y);
}

} // verus!
