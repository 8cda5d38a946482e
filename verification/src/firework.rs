//! Decorative fireworks spawned by the victory sequence.  They reveal one at
//! a time, in order, and each despawns when its animation ends.

use vstd::prelude::*;

use crate::{Sound, World, FIREWORK_LAST_FRAME};

verus! {

/// One firework burst.
#[derive(Clone, Copy, Debug)]
pub struct Firework {
    pub id: u64,
    pub x: i64,
    pub y: i64,
    pub visible: bool,
    pub frame: u64,
}

/// Reveal stage: the front firework, if there is one and it is still
/// hidden, becomes visible with its bang sound.  Later fireworks stay
/// hidden until the despawn of their predecessors moves them to the front,
/// which staggers the display.
pub fn show_fireworks(w: &mut World)
    ensures
        *final(w) == (World { fireworks: final(w).fireworks, sounds: final(w).sounds, ..*old(w) }),
        old(w).fireworks@.len() > 0 && !old(w).fireworks@[0].visible ==> {
            &&& final(w).fireworks@ == old(w).fireworks@.update(
                0,
                Firework { visible: true, ..old(w).fireworks@[0] },
            )
            &&& final(w).sounds@ == old(w).sounds@.push(Sound::Firework)
        },
        !(old(w).fireworks@.len() > 0 && !old(w).fireworks@[0].visible) ==> *final(w) == *old(w),
        old(w).wf_fireworks() ==> final(w).wf_fireworks(),
{
    if w.fireworks.len() == 0 {
        return ;
    }
    let f = w.fireworks[0];
    if !f.visible {
        w.fireworks.set(0, Firework { visible: true, ..f });
        w.sounds.push(Sound::Firework);
    }
    proof {
        if old(w).wf_fireworks() {
            assert forall|i: int|
                0 <= i < w.fireworks@.len() implies (#[trigger] w.fireworks@[i]).frame
                < FIREWORK_LAST_FRAME by {
                assert(w.fireworks@[i] == old(w).fireworks@[i] || i == 0);
            }
        }
    }
}

/// The fireworks from index `i` on, one animation tick later: each visible
/// firework advances one frame, and one that reaches the final frame
/// despawns; hidden fireworks are untouched.
pub open spec fn fireworks_animated(fs: Seq<Firework>, i: int) -> Seq<Firework>
    decreases fs.len() - i,
{
    if i < 0 || i >= fs.len() {
        Seq::empty()
    } else {
        let rest = fireworks_animated(fs, i + 1);
        let f = fs[i];
        if f.visible {
            if f.frame + 1 == FIREWORK_LAST_FRAME {
                rest
            } else {
                seq![Firework { frame: (f.frame + 1) as u64, ..f }] + rest
            }
        } else {
            seq![f] + rest
        }
    }
}

/// Every animated firework is one of the input fireworks, either untouched
/// or advanced by one frame; in particular positions are never changed and
/// frames stay below the final frame.
pub proof fn lemma_fireworks_animated_props(fs: Seq<Firework>, i: int)
    requires
        0 <= i <= fs.len(),
        forall|k: int| 0 <= k < fs.len() ==> (#[trigger] fs[k]).frame < FIREWORK_LAST_FRAME,
    ensures
        fireworks_animated(fs, i).len() <= fs.len() - i,
        forall|m: int|
            0 <= m < fireworks_animated(fs, i).len() ==> exists|k: int|
                0 <= k < fs.len() && (#[trigger] fireworks_animated(fs, i)[m] == fs[k]
                    || fireworks_animated(fs, i)[m] == (Firework {
                    frame: (fs[k].frame + 1) as u64,
                    ..fs[k]
                })),
        forall|m: int|
            0 <= m < fireworks_animated(fs, i).len() ==> (#[trigger] fireworks_animated(
                fs,
                i,
            )[m]).frame < FIREWORK_LAST_FRAME,
    decreases fs.len() - i,
{
    if i < 0 || i >= fs.len() {
    } else {
        lemma_fireworks_animated_props(fs, i + 1);
        let rest = fireworks_animated(fs, i + 1);
        let cur = fireworks_animated(fs, i);
        let f = fs[i];
        assert forall|m: int| 0 <= m < cur.len() implies exists|k: int|
            0 <= k < fs.len() && (#[trigger] cur[m] == fs[k] || cur[m] == (Firework {
                frame: (fs[k].frame + 1) as u64,
                ..fs[k]
            })) by {
            if f.visible && f.frame + 1 == FIREWORK_LAST_FRAME {
                assert(cur[m] == rest[m]);
            } else if m == 0 {
                assert(cur[m] == fs[i] || cur[m] == (Firework {
                    frame: (fs[i].frame + 1) as u64,
                    ..fs[i]
                }));
            } else {
                assert(cur[m] == rest[m - 1]);
            }
        }
        assert forall|m: int| 0 <= m < cur.len() implies (#[trigger] cur[m]).frame
            < FIREWORK_LAST_FRAME by {
            if f.visible && f.frame + 1 == FIREWORK_LAST_FRAME {
                assert(cur[m] == rest[m]);
            } else if m == 0 {
            } else {
                assert(cur[m] == rest[m - 1]);
            }
        }
    }
}

/// When no visible firework is about to reach its final frame, the
/// animation step despawns nothing: every firework survives, advanced by
/// one frame if visible.
pub proof fn lemma_fireworks_animated_no_despawn(fs: Seq<Firework>, i: int)
    requires
        0 <= i <= fs.len(),
        forall|k: int|
            0 <= k < fs.len() ==> ((#[trigger] fs[k]).visible ==> fs[k].frame + 1
                != FIREWORK_LAST_FRAME),
    ensures
        fireworks_animated(fs, i).len() == fs.len() - i,
        forall|m: int|
            i <= m < fs.len() ==> #[trigger] fireworks_animated(fs, i)[m - i] == (if fs[m].visible {
                Firework { frame: (fs[m].frame + 1) as u64, ..fs[m] }
            } else {
                fs[m]
            }),
    decreases fs.len() - i,
{
    if i >= fs.len() {
    } else {
        lemma_fireworks_animated_no_despawn(fs, i + 1);
        let rest = fireworks_animated(fs, i + 1);
        let cur = fireworks_animated(fs, i);
        assert forall|m: int| i <= m < fs.len() implies #[trigger] cur[m - i] == (if fs[m].visible {
            Firework { frame: (fs[m].frame + 1) as u64, ..fs[m] }
        } else {
            fs[m]
        }) by {
            if m == i {
            } else {
                assert(cur[m - i] == rest[m - (i + 1)]);
            }
        }
    }
}

/// Animation stage: every visible firework advances one frame; reaching the
/// final frame despawns it, which lets `show_fireworks` reveal the next one
/// on a later tick.
pub fn animate_fireworks(w: &mut World)
    requires
        old(w).wf_fireworks(),
    ensures
        *final(w) == (World { fireworks: final(w).fireworks, ..*old(w) }),
        final(w).fireworks@ == fireworks_animated(old(w).fireworks@, 0),
        final(w).wf_fireworks(),
{
    let n = w.fireworks.len();
    let mut out: Vec<Firework> = Vec::new();
    let ghost fs = w.fireworks@;
    for i in 0..n
        invariant
            n == fs.len(),
            w.fireworks@ == fs,
            *w == *old(w),
            old(w).wf_fireworks(),
            fireworks_animated(fs, 0) == out@ + fireworks_animated(fs, i as int),
    {
        let f = w.fireworks[i];
        assert(f.frame < FIREWORK_LAST_FRAME);
        let ghost out_pre = out@;
        if f.visible {
            let nf = f.frame + 1;
            if nf != FIREWORK_LAST_FRAME {
                out.push(Firework { frame: nf, ..f });
                proof {
                    assert(fireworks_animated(fs, i as int) == seq![
                        Firework { frame: nf, ..f },
                    ] + fireworks_animated(fs, i + 1 as int));
                    assert(out@ + fireworks_animated(fs, i + 1 as int) =~= out_pre
                        + fireworks_animated(fs, i as int));
                }
            } else {
                proof {
                    assert(fireworks_animated(fs, i as int) == fireworks_animated(
                        fs,
                        i + 1 as int,
                    ));
                }
            }
        } else {
            out.push(f);
            proof {
                assert(fireworks_animated(fs, i as int) == seq![f] + fireworks_animated(
                    fs,
                    i + 1 as int,
                ));
                assert(out@ + fireworks_animated(fs, i + 1 as int) =~= out_pre
                    + fireworks_animated(fs, i as int));
            }
        }
    }
    proof {
        assert(fireworks_animated(fs, n as int) =~= Seq::<Firework>::empty());
        assert(fireworks_animated(fs, 0) =~= out@ + fireworks_animated(fs, n as int));
        assert(out@ + Seq::<Firework>::empty() =~= out@);
    }
    w.fireworks = out;
    proof {
        lemma_fireworks_animated_props(fs, 0);
    }
}

} // verus!
