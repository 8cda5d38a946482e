//! The power-up mushroom: hidden inside a reward block, it rises out of the
//! block when released, then rolls across the level until it is picked up or
//! leaves the playfield.

use vstd::prelude::*;

use crate::{
    clamp_i64, clamp_spec, World, MUSHROOM_LEDGE_X, MUSHROOM_RISE_DONE_Y, MUSHROOM_RISE_DY,
    MUSHROOM_ROLL_DX, MUSHROOM_ROLL_DY_FAST, MUSHROOM_ROLL_DY_SLOW, MUSHROOM_X_MAX, MUSHROOM_X_MIN,
    MUSHROOM_Y_MAX, MUSHROOM_Y_MIN,
};

verus! {

/// The power-up mushroom.
///
/// Its phase is encoded by two flags and visibility: hidden and not released
/// means waiting inside the block; visible and not released means rising;
/// visible and released means rolling; hidden and released means it left the
/// playfield uncollected.
#[derive(Clone, Copy, Debug)]
pub struct MagicMushroom {
    pub id: u64,
    pub x: i64,
    pub y: i64,
    pub visible: bool,
    pub is_released: bool,
    pub x_reached_max: bool,
}

/// A reward block containing a mushroom was consumed at this position.
#[derive(Clone, Copy, Debug)]
pub struct MagicMushroomReleaseEvent {
    pub x: i64,
    pub y: i64,
}

/// `m1` is `m0` one movement tick later.  A hidden mushroom does not move.
/// A visible unreleased one rises by 0.4 units until it clears the release
/// height, then rolls: 0.5 units sideways (turning at the right bound),
/// drifting down 0.1 per tick, or 0.5 once past the ledge; reaching the left
/// roll bound takes it off the playfield.
pub open spec fn mushroom_stepped(m0: MagicMushroom, m1: MagicMushroom) -> bool {
    if !m0.visible {
        m1 == m0
    } else if !m0.is_released {
        &&& m1.y == m0.y + MUSHROOM_RISE_DY
        &&& m1.is_released == (m1.y >= MUSHROOM_RISE_DONE_Y)
        &&& m1.x == m0.x
        &&& m1.visible == m0.visible
        &&& m1.x_reached_max == m0.x_reached_max
        &&& m1.id == m0.id
    } else {
        let dx: int = if m0.x_reached_max {
            -(MUSHROOM_ROLL_DX as int)
        } else {
            MUSHROOM_ROLL_DX as int
        };
        let dy: int = if m0.x >= MUSHROOM_LEDGE_X {
            MUSHROOM_ROLL_DY_FAST as int
        } else {
            MUSHROOM_ROLL_DY_SLOW as int
        };
        &&& m1.x == clamp_spec(m0.x + dx, MUSHROOM_X_MIN as int, MUSHROOM_X_MAX as int)
        &&& m1.y == clamp_spec(m0.y - dy, MUSHROOM_Y_MIN as int, MUSHROOM_Y_MAX as int)
        &&& m1.x_reached_max == (m0.x_reached_max || m1.x == MUSHROOM_X_MAX)
        &&& m1.visible == (m1.x != MUSHROOM_X_MIN)
        &&& m1.is_released == m0.is_released
        &&& m1.id == m0.id
    }
}

/// Movement stage for the power-up: every mushroom advances one step of its
/// phase machine; everything else in the world is untouched.
pub fn move_mushroom(w: &mut World)
    requires
        old(w).wf_mushrooms(),
    ensures
        *final(w) == (World { mushrooms: final(w).mushrooms, ..*old(w) }),
        final(w).mushrooms@.len() == old(w).mushrooms@.len(),
        forall|i: int|
            0 <= i < final(w).mushrooms@.len() ==> mushroom_stepped(
                old(w).mushrooms@[i],
                #[trigger] final(w).mushrooms@[i],
            ),
        final(w).wf_mushrooms(),
{
    let n = w.mushrooms.len();
    for i in 0..n
        invariant
            n == w.mushrooms@.len(),
            n == old(w).mushrooms@.len(),
            *w == (World { mushrooms: w.mushrooms, ..*old(w) }),
            old(w).wf_mushrooms(),
            forall|j: int|
                0 <= j < i ==> mushroom_stepped(old(w).mushrooms@[j], #[trigger] w.mushrooms@[j]),
            forall|j: int| i <= j < n ==> #[trigger] w.mushrooms@[j] == old(w).mushrooms@[j],
    {
        let m = w.mushrooms[i];
        assert(MUSHROOM_X_MIN <= m.x <= MUSHROOM_X_MAX);
        assert(MUSHROOM_Y_MIN <= m.y <= MUSHROOM_RISE_DONE_Y + MUSHROOM_RISE_DY);
        if m.visible {
            if !m.is_released {
                let ny = m.y + MUSHROOM_RISE_DY;
                let released = ny >= MUSHROOM_RISE_DONE_Y;
                w.mushrooms.set(i, MagicMushroom { y: ny, is_released: released, ..m });
            } else {
                let direction_x: i64 = if m.x_reached_max {
                    -MUSHROOM_ROLL_DX
                } else {
                    MUSHROOM_ROLL_DX
                };
                let direction_y: i64 = if m.x >= MUSHROOM_LEDGE_X {
                    MUSHROOM_ROLL_DY_FAST
                } else {
                    MUSHROOM_ROLL_DY_SLOW
                };
                let nx = clamp_i64(m.x + direction_x, MUSHROOM_X_MIN, MUSHROOM_X_MAX);
                let ny = clamp_i64(m.y - direction_y, MUSHROOM_Y_MIN, MUSHROOM_Y_MAX);
                let reached_max = m.x_reached_max || nx == MUSHROOM_X_MAX;
                let still_visible = nx != MUSHROOM_X_MIN;
                w.mushrooms.set(
                    i,
                    MagicMushroom {
                        x: nx,
                        y: ny,
                        x_reached_max: reached_max,
                        visible: still_visible,
                        ..m
                    },
                );
            }
        }
    }
    assert forall|i: int| 0 <= i < w.mushrooms@.len() implies {
        let m = #[trigger] w.mushrooms@[i];
        &&& MUSHROOM_X_MIN <= m.x <= MUSHROOM_X_MAX
        &&& MUSHROOM_Y_MIN <= m.y <= MUSHROOM_RISE_DONE_Y + MUSHROOM_RISE_DY
        &&& !m.is_released ==> m.y <= MUSHROOM_RISE_DONE_Y
    } by {
        assert(mushroom_stepped(old(w).mushrooms@[i], w.mushrooms@[i]));
    }
}

/// Whether some release event of this tick sits at exactly this position.
pub open spec fn has_release_match(
    es: Seq<MagicMushroomReleaseEvent>,
    x: int,
    y: int,
) -> bool {
    exists|i: int| 0 <= i < es.len() && (#[trigger] es[i]).x == x && es[i].y == y
}

fn has_release_at(es: &Vec<MagicMushroomReleaseEvent>, x: i64, y: i64) -> (r: bool)
    ensures
        r == has_release_match(es@, x as int, y as int),
{
    let n = es.len();
    for i in 0..n
        invariant
            n == es@.len(),
            !has_release_match(es@.take(i as int), x as int, y as int),
    {
        let e = es[i];
        proof {
            assert(es@.take(i + 1 as int).drop_last() =~= es@.take(i as int));
        }
        if e.x == x && e.y == y {
            assert(es@.take(i + 1 as int)[i as int] == es@[i as int]);
            assert(has_release_match(es@, x as int, y as int));
            return true;
        }
        proof {
            if has_release_match(es@.take(i + 1 as int), x as int, y as int) {
                let k = choose|k: int|
                    0 <= k < es@.take(i + 1 as int).len() && (#[trigger] es@.take(
                        i + 1 as int,
                    )[k]).x == x && es@.take(i + 1 as int)[k].y == y;
                assert(es@.take(i + 1 as int)[k] == es@[k]);
                assert(k == i as int || 0 <= k < i as int && es@.take(i as int)[k] == es@[k]);
                assert(false);
            }
        }
    }
    proof {
        assert(es@.take(n as int) =~= es@);
    }
    false
}

/// Release stage: a reward block holding a mushroom was consumed this tick;
/// the mushroom at exactly the event's position becomes visible (and starts
/// to rise).  Pairing is by exact coordinate equality.  The release queue is
/// drained.
pub fn magic_mushroom_event_read(w: &mut World)
    ensures
        *final(w) == (World {
            mushrooms: final(w).mushrooms,
            mushroom_release_events: final(w).mushroom_release_events,
            ..*old(w)
        }),
        final(w).mushroom_release_events@.len() == 0,
        final(w).mushrooms@.len() == old(w).mushrooms@.len(),
        forall|i: int|
            0 <= i < final(w).mushrooms@.len() ==> {
                let m0 = old(w).mushrooms@[i];
                let m1 = #[trigger] final(w).mushrooms@[i];
                m1 == (MagicMushroom {
                    visible: m0.visible || has_release_match(
                        old(w).mushroom_release_events@,
                        m0.x as int,
                        m0.y as int,
                    ),
                    ..m0
                })
            },
        old(w).wf_mushrooms() ==> final(w).wf_mushrooms(),
{
    let n = w.mushrooms.len();
    for i in 0..n
        invariant
            n == w.mushrooms@.len(),
            n == old(w).mushrooms@.len(),
            *w == (World { mushrooms: w.mushrooms, ..*old(w) }),
            forall|j: int|
                0 <= j < i ==> {
                    let m0 = old(w).mushrooms@[j];
                    #[trigger] w.mushrooms@[j] == (MagicMushroom {
                        visible: m0.visible || has_release_match(
                            old(w).mushroom_release_events@,
                            m0.x as int,
                            m0.y as int,
                        ),
                        ..m0
                    })
                },
            forall|j: int| i <= j < n ==> #[trigger] w.mushrooms@[j] == old(w).mushrooms@[j],
    {
        let m = w.mushrooms[i];
        if !m.visible {
            if has_release_at(&w.mushroom_release_events, m.x, m.y) {
                w.mushrooms.set(i, MagicMushroom { visible: true, ..m });
            }
        }
    }
    w.mushroom_release_events.clear();
}

} // verus!
