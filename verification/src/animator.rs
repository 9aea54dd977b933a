//! The flash-in animator: a per-object, time-driven state machine sweeping
//! the referenced material's dissolve amount from 0 to `FIXED_ONE` over a
//! configured duration, then detaching itself from its object.
//!
//! Time is measured in the caller's integer units (for example
//! microseconds); a frame hands the whole pass one `dt`, the elapsed time
//! since the previous frame.

use vstd::prelude::*;
use vstd::arithmetic::div_mod::lemma_div_is_ordered;
use vstd::arithmetic::div_mod::lemma_div_multiples_vanish;
use vstd::arithmetic::div_mod::lemma_div_pos_is_pos;
use vstd::arithmetic::div_mod::lemma_multiply_divide_lt;
use crate::material::Dissolve2DMaterial;
use crate::params::FIXED_ONE;
use crate::registry::MaterialHandle;
use crate::registry::MaterialRegistry;
use crate::registry::lemma_write_dissolve_overwrite;
use crate::registry::material_seen;
use crate::registry::write_dissolve_spec;

verus! {

/// A flash-in animation attached to one drawable object. While attached,
/// each tick accumulates `dt` into `elapsed` and writes
/// `min(elapsed / duration, 1)` — in fixed-point units — into the dissolve
/// amount of the material the object references; once that progress reaches
/// full, the animator detaches in the same step and no further ticks occur.
#[derive(Clone, Copy, Debug, PartialEq, Eq)]
pub struct FlashIn {
    /// The configured sweep length, in time units. Zero stands for every
    /// non-positive duration a caller could ask for and means "complete
    /// immediately on the first tick".
    pub duration: u64,
    /// Monotonically increasing accumulator of ticked time; starts at 0.
    pub elapsed: u64,
}

impl FlashIn {
    /// A fresh animator over `duration` time units, nothing elapsed yet.
    pub fn new(duration: u64) -> (f: Self)
        ensures
            f.duration == duration,
            f.elapsed == 0,
    {
        FlashIn { duration, elapsed: 0 }
    }
}

/// The animator's progress after `elapsed` time units of a sweep over
/// `duration`, in fixed-point units: `min(elapsed / duration, 1)` scaled by
/// `FIXED_ONE`, with a zero duration counting as complete immediately.
pub open spec fn progress_of(duration: u64, elapsed: int) -> int {
    if duration == 0 {
        FIXED_ONE as int
    } else if elapsed * (FIXED_ONE as int) / (duration as int) >= FIXED_ONE as int {
        FIXED_ONE as int
    } else {
        elapsed * (FIXED_ONE as int) / (duration as int)
    }
}

/// Computes [`progress_of`]: the fixed-point dissolve amount a sweep of
/// `duration` has reached after `elapsed` time units.
pub fn compute_progress(duration: u64, elapsed: u64) -> (p: u32)
    ensures
        p == progress_of(duration, elapsed as int),
        p <= FIXED_ONE,
{
    if duration == 0 {
        FIXED_ONE
    } else {
        proof {
            assert(elapsed * FIXED_ONE <= u64::MAX * (FIXED_ONE as int)) by (nonlinear_arith)
                requires
                    elapsed <= u64::MAX,
            ;
        }
        let scaled: u128 = (elapsed as u128) * (FIXED_ONE as u128);
        let q: u128 = scaled / (duration as u128);
        if q >= FIXED_ONE as u128 {
            FIXED_ONE
        } else {
            q as u32
        }
    }
}

/// A drawable object as this effect sees it: the handle of the material it
/// renders with, and its animation state — `None`, or an attached flash-in.
#[derive(Clone, Copy, Debug, PartialEq, Eq)]
pub struct DrawableObject {
    /// The shared material this object renders with.
    pub material: MaterialHandle,
    /// The attached flash-in animation, if any.
    pub flash_in: Option<FlashIn>,
}

/// One animator tick on one object: an object without an animator is left
/// alone; otherwise the animator accumulates `dt`, its progress is written
/// into the referenced material (a dead handle skips the write, as the
/// store ignores it), and the animator detaches exactly when progress
/// reaches full.
pub open spec fn step_object(
    o: DrawableObject,
    mats: Seq<Dissolve2DMaterial>,
    dt: u64,
) -> (DrawableObject, Seq<Dissolve2DMaterial>) {
    match o.flash_in {
        None => (o, mats),
        Some(f) => {
            let elapsed2: int = f.elapsed + dt;
            let p: int = progress_of(f.duration, elapsed2);
            let mats2 = write_dissolve_spec(mats, o.material, p as u32);
            let flash2 = if p == FIXED_ONE as int {
                None
            } else {
                Some(FlashIn { duration: f.duration, elapsed: elapsed2 as u64 })
            };
            (DrawableObject { material: o.material, flash_in: flash2 }, mats2)
        },
    }
}

/// One whole animator pass over a frame: every object is stepped once, in
/// order, against the store as the previous steps left it.
pub open spec fn flash_in_pass(
    objects: Seq<DrawableObject>,
    mats: Seq<Dissolve2DMaterial>,
    dt: u64,
) -> (Seq<DrawableObject>, Seq<Dissolve2DMaterial>)
    decreases objects.len(),
{
    if objects.len() == 0 {
        (objects, mats)
    } else {
        let (first, mats2) = step_object(objects[0], mats, dt);
        let (rest, mats3) = flash_in_pass(objects.drop_first(), mats2, dt);
        (seq![first] + rest, mats3)
    }
}

/// A run of whole frames: the animator pass applied once per entry of
/// `dts`, each frame seeing the state the previous frame left.
pub open spec fn run_frames(
    objects: Seq<DrawableObject>,
    mats: Seq<Dissolve2DMaterial>,
    dts: Seq<u64>,
) -> (Seq<DrawableObject>, Seq<Dissolve2DMaterial>)
    decreases dts.len(),
{
    if dts.len() == 0 {
        (objects, mats)
    } else {
        let (objects2, mats2) = flash_in_pass(objects, mats, dts[0]);
        run_frames(objects2, mats2, dts.drop_first())
    }
}

/// Law: the animator pass never adds or removes objects or materials, and
/// never retargets an object — every object keeps its material handle.
pub proof fn lemma_pass_preserves_shape(
    objects: Seq<DrawableObject>,
    mats: Seq<Dissolve2DMaterial>,
    dt: u64,
)
    ensures
        flash_in_pass(objects, mats, dt).0.len() == objects.len(),
        flash_in_pass(objects, mats, dt).1.len() == mats.len(),
        forall|k: int|
            0 <= k < objects.len()
                ==> flash_in_pass(objects, mats, dt).0[k].material == objects[k].material,
    decreases objects.len(),
{
    if objects.len() > 0 {
        let (first, mats2) = step_object(objects[0], mats, dt);
        assert(mats2.len() == mats.len());
        lemma_pass_preserves_shape(objects.drop_first(), mats2, dt);
        let (rest, mats3) = flash_in_pass(objects.drop_first(), mats2, dt);
        assert forall|k: int|
            0 <= k < objects.len() implies flash_in_pass(objects, mats, dt).0[k].material
            == objects[k].material by {
            if k > 0 {
                assert(rest[k - 1].material == objects.drop_first()[k - 1].material);
            }
        };
    }
}

/// The per-frame animator pass: advances every attached flash-in by `dt`,
/// writes each one's progress into the material its object references, and
/// removes every animator whose progress reached full.
pub fn animate_flash_in(
    objects: &mut Vec<DrawableObject>,
    registry: &mut MaterialRegistry,
    dt: u64,
)
    requires
        forall|j: int|
            0 <= j < old(objects)@.len() && old(objects)@[j].flash_in is Some
                ==> old(objects)@[j].flash_in->Some_0.elapsed + dt <= u64::MAX,
    ensures
        (final(objects)@, final(registry)@) == flash_in_pass(old(objects)@, old(registry)@, dt),
{
    let ghost objects0 = objects@;
    let ghost mats0 = registry@;
    let ghost outcome = flash_in_pass(objects0, mats0, dt);
    proof {
        lemma_pass_preserves_shape(objects0, mats0, dt);
        assert(objects0.skip(0) =~= objects0);
        assert(outcome.0.skip(0) =~= outcome.0);
        assert(objects0.take(0) =~= outcome.0.take(0));
    }
    let n: usize = objects.len();
    let mut i: usize = 0;
    while i < n
        invariant
            n == objects0.len(),
            outcome == flash_in_pass(objects0, mats0, dt),
            outcome.0.len() == n,
            i <= n,
            objects@.len() == n,
            forall|j: int| i <= j < n ==> objects@[j] == objects0[j],
            forall|j: int|
                0 <= j < n && objects0[j].flash_in is Some
                    ==> objects0[j].flash_in->Some_0.elapsed + dt <= u64::MAX,
            flash_in_pass(objects0.skip(i as int), registry@, dt)
                == (outcome.0.skip(i as int), outcome.1),
            objects@.take(i as int) == outcome.0.take(i as int),
        decreases n - i,
    {
        let ghost mats_before = registry@;
        let ghost stepped_pair = step_object(objects0[i as int], mats_before, dt);
        let ghost stepped = stepped_pair.0;
        let ghost mats_stepped = stepped_pair.1;
        let o = objects[i];
        match o.flash_in {
            None => {
                proof {
                    assert(stepped == o);
                    assert(mats_stepped == mats_before);
                }
            },
            Some(f) => {
                let elapsed2: u64 = f.elapsed + dt;
                let p: u32 = compute_progress(f.duration, elapsed2);
                registry.write_dissolve(o.material, p);
                let flash2 = if p == FIXED_ONE {
                    None
                } else {
                    Some(FlashIn { duration: f.duration, elapsed: elapsed2 })
                };
                objects.set(i, DrawableObject { material: o.material, flash_in: flash2 });
                proof {
                    assert(stepped == objects@[i as int]);
                    assert(mats_stepped == registry@);
                }
            },
        }
        proof {
            let suffix = objects0.skip(i as int);
            assert(suffix[0] == objects0[i as int]);
            assert(suffix.drop_first() =~= objects0.skip(i as int + 1));
            let x = flash_in_pass(objects0.skip(i as int + 1), mats_stepped, dt);
            assert(flash_in_pass(suffix, mats_before, dt) == (seq![stepped] + x.0, x.1));
            assert(seq![stepped] + x.0 == outcome.0.skip(i as int));
            assert(x.1 == outcome.1);
            assert((seq![stepped] + x.0).drop_first() =~= x.0);
            assert(outcome.0.skip(i as int).drop_first() =~= outcome.0.skip(i as int + 1));
            assert(x.0 == outcome.0.skip(i as int + 1));
            assert(outcome.0.skip(i as int)[0] == stepped);
            assert(outcome.0[i as int] == stepped);
            assert(objects@[i as int] == stepped);
            assert(objects@.take(i as int + 1) =~= outcome.0.take(i as int + 1));
        }
        i = i + 1;
    }
    proof {
        assert(objects0.skip(n as int) =~= Seq::<DrawableObject>::empty());
        assert(registry@ == outcome.1);
        assert(objects@ =~= objects@.take(n as int));
        assert(outcome.0 =~= outcome.0.take(n as int));
        assert(objects@ == outcome.0);
    }
}

/// Bounds on a positive-duration sweep's progress: it is never negative,
/// never above full, equals the exact fixed-point ratio while elapsed time
/// is still below the duration — strictly below full — and is exactly full
/// from the duration on.
pub proof fn lemma_progress_bounds(duration: u64, elapsed: int)
    requires
        duration > 0,
        0 <= elapsed,
    ensures
        0 <= progress_of(duration, elapsed),
        progress_of(duration, elapsed) <= FIXED_ONE,
        elapsed < duration ==> progress_of(duration, elapsed) == elapsed * (FIXED_ONE as int)
            / (duration as int),
        elapsed < duration ==> progress_of(duration, elapsed) < FIXED_ONE,
        elapsed >= duration ==> progress_of(duration, elapsed) == FIXED_ONE,
{
    let u = FIXED_ONE as int;
    let d = duration as int;
    assert(0 <= elapsed * u) by (nonlinear_arith)
        requires
            0 <= elapsed,
            0 < u,
    ;
    lemma_div_pos_is_pos(elapsed * u, d);
    if elapsed < d {
        assert(elapsed * u < d * u) by (nonlinear_arith)
            requires
                elapsed < d,
                0 < u,
        ;
        lemma_multiply_divide_lt(elapsed * u, d, u);
    } else {
        lemma_div_multiples_vanish(u, d);
        assert(d * u <= elapsed * u) by (nonlinear_arith)
            requires
                d <= elapsed,
                0 < u,
        ;
        lemma_div_is_ordered(d * u, elapsed * u, d);
    }
}

/// Law: progress is monotone in elapsed time — ticking can only raise the
/// dissolve amount the animator writes, never lower it.
pub proof fn lemma_progress_monotonic(duration: u64, e1: int, e2: int)
    requires
        0 <= e1 <= e2,
    ensures
        progress_of(duration, e1) <= progress_of(duration, e2),
{
    if duration != 0 {
        let u = FIXED_ONE as int;
        let d = duration as int;
        assert(e1 * u <= e2 * u) by (nonlinear_arith)
            requires
                e1 <= e2,
                0 < u,
        ;
        lemma_div_is_ordered(e1 * u, e2 * u, d);
    }
}

/// The total time of a run of frames: the sum of its per-frame `dt`s.
pub open spec fn total_time(dts: Seq<u64>) -> int
    decreases dts.len(),
{
    if dts.len() == 0 {
        0
    } else {
        dts[0] + total_time(dts.drop_first())
    }
}

/// Frame times are non-negative, so so is any run's total time.
pub proof fn lemma_total_time_nonneg(dts: Seq<u64>)
    ensures
        total_time(dts) >= 0,
    decreases dts.len(),
{
    if dts.len() > 0 {
        lemma_total_time_nonneg(dts.drop_first());
    }
}

/// One frame of a one-object scene is exactly one object step.
pub proof fn lemma_pass_singleton(
    o: DrawableObject,
    mats: Seq<Dissolve2DMaterial>,
    dt: u64,
)
    ensures
        flash_in_pass(seq![o], mats, dt) == (
            seq![step_object(o, mats, dt).0],
            step_object(o, mats, dt).1,
        ),
{
    let s = seq![o];
    let stepped = step_object(o, mats, dt);
    assert(s[0] == o);
    assert(s.drop_first().len() == 0);
    assert(flash_in_pass(s.drop_first(), stepped.1, dt) == (s.drop_first(), stepped.1));
    assert(seq![stepped.0] + s.drop_first() =~= seq![stepped.0]);
    assert(flash_in_pass(s, mats, dt) == (seq![stepped.0] + s.drop_first(), stepped.1));
}

/// Law: a detached object is never ticked again — any number of further
/// frames leaves an object without an animator, and the whole store,
/// unchanged.
pub proof fn lemma_run_frames_detached(
    o: DrawableObject,
    mats: Seq<Dissolve2DMaterial>,
    dts: Seq<u64>,
)
    requires
        o.flash_in is None,
    ensures
        run_frames(seq![o], mats, dts) == (seq![o], mats),
    decreases dts.len(),
{
    if dts.len() > 0 {
        lemma_pass_singleton(o, mats, dts[0]);
        assert(step_object(o, mats, dts[0]) == (o, mats));
        lemma_run_frames_detached(o, mats, dts.drop_first());
    }
}

/// An attached animator that still has `duration - elapsed` of total frame
/// time ahead of it finishes the run fully dissolved and detached, with the
/// store as if `FIXED_ONE` alone had been written through its handle.
proof fn lemma_run_frames_active_completes(
    h: MaterialHandle,
    duration: u64,
    e: u64,
    mats: Seq<Dissolve2DMaterial>,
    dts: Seq<u64>,
)
    requires
        duration > 0,
        e < duration,
        e + total_time(dts) == duration,
        h.index < mats.len(),
    ensures
        run_frames(
            seq![DrawableObject { material: h, flash_in: Some(FlashIn { duration, elapsed: e }) }],
            mats,
            dts,
        ) == (
            seq![DrawableObject { material: h, flash_in: None::<FlashIn> }],
            write_dissolve_spec(mats, h, FIXED_ONE),
        ),
    decreases dts.len(),
{
    lemma_total_time_nonneg(dts);
    assert(dts.len() > 0);
    let dt = dts[0];
    lemma_total_time_nonneg(dts.drop_first());
    let e2: int = e + dt;
    assert(e2 <= duration);
    let o = DrawableObject { material: h, flash_in: Some(FlashIn { duration, elapsed: e }) };
    lemma_progress_bounds(duration, e2);
    let p = progress_of(duration, e2);
    let mats2 = write_dissolve_spec(mats, h, p as u32);
    let stepped = step_object(o, mats, dt).0;
    lemma_pass_singleton(o, mats, dt);
    assert(step_object(o, mats, dt).1 == mats2);
    assert(mats2.len() == mats.len());
    if e2 == duration {
        assert(p == FIXED_ONE);
        assert(stepped == DrawableObject { material: h, flash_in: None::<FlashIn> });
        assert(total_time(dts.drop_first()) == 0);
        lemma_run_frames_detached(stepped, mats2, dts.drop_first());
    } else {
        assert(p < FIXED_ONE);
        assert(stepped == DrawableObject {
            material: h,
            flash_in: Some(FlashIn { duration, elapsed: e2 as u64 }),
        });
        lemma_run_frames_active_completes(h, duration, e2 as u64, mats2, dts.drop_first());
        lemma_write_dissolve_overwrite(mats, h, p as u32, FIXED_ONE);
    }
}

/// Law: a fresh animator over a positive duration, ticked with frame times
/// summing to exactly that duration, ends with the material fully dissolved
/// — `FIXED_ONE` written through its handle — and the animator detached.
pub proof fn lemma_flash_in_completes(
    h: MaterialHandle,
    duration: u64,
    mats: Seq<Dissolve2DMaterial>,
    dts: Seq<u64>,
)
    requires
        duration > 0,
        total_time(dts) == duration,
        h.index < mats.len(),
    ensures
        run_frames(
            seq![DrawableObject { material: h, flash_in: Some(FlashIn { duration, elapsed: 0 }) }],
            mats,
            dts,
        ) == (
            seq![DrawableObject { material: h, flash_in: None::<FlashIn> }],
            write_dissolve_spec(mats, h, FIXED_ONE),
        ),
{
    lemma_run_frames_active_completes(h, duration, 0, mats, dts);
}

/// Law: linearity below the duration — one tick of size `t < duration` on a
/// fresh animator leaves it attached with `elapsed == t` and writes exactly
/// the fixed-point value of `t / duration` through its handle.
pub proof fn lemma_flash_in_linear(
    h: MaterialHandle,
    duration: u64,
    t: u64,
    mats: Seq<Dissolve2DMaterial>,
)
    requires
        duration > 0,
        t < duration,
        h.index < mats.len(),
    ensures
        flash_in_pass(
            seq![DrawableObject { material: h, flash_in: Some(FlashIn { duration, elapsed: 0 }) }],
            mats,
            t,
        ) == (
            seq![DrawableObject { material: h, flash_in: Some(FlashIn { duration, elapsed: t }) }],
            write_dissolve_spec(
                mats,
                h,
                ((t as int) * (FIXED_ONE as int) / (duration as int)) as u32,
            ),
        ),
{
    let o = DrawableObject { material: h, flash_in: Some(FlashIn { duration, elapsed: 0 }) };
    lemma_progress_bounds(duration, t as int);
    lemma_pass_singleton(o, mats, t);
}

/// An attached animator whose run of frames stays short of its duration is
/// still attached afterwards, with the exact fixed-point ratio of its total
/// elapsed time to the duration written through its handle.
proof fn lemma_run_frames_active_partial(
    h: MaterialHandle,
    duration: u64,
    e: u64,
    mats: Seq<Dissolve2DMaterial>,
    dts: Seq<u64>,
)
    requires
        duration > 0,
        e + total_time(dts) < duration,
        dts.len() > 0,
        h.index < mats.len(),
    ensures
        run_frames(
            seq![DrawableObject { material: h, flash_in: Some(FlashIn { duration, elapsed: e }) }],
            mats,
            dts,
        ) == (
            seq![DrawableObject {
                material: h,
                flash_in: Some(FlashIn { duration, elapsed: (e + total_time(dts)) as u64 }),
            }],
            write_dissolve_spec(
                mats,
                h,
                ((e + total_time(dts)) * (FIXED_ONE as int) / (duration as int)) as u32,
            ),
        ),
    decreases dts.len(),
{
    lemma_total_time_nonneg(dts.drop_first());
    let dt = dts[0];
    let e2: int = e + dt;
    let o = DrawableObject { material: h, flash_in: Some(FlashIn { duration, elapsed: e }) };
    lemma_progress_bounds(duration, e2);
    let p = progress_of(duration, e2);
    let mats2 = write_dissolve_spec(mats, h, p as u32);
    lemma_pass_singleton(o, mats, dt);
    let stepped = step_object(o, mats, dt).0;
    assert(step_object(o, mats, dt).1 == mats2);
    assert(mats2.len() == mats.len());
    assert(p < FIXED_ONE);
    assert(stepped == DrawableObject {
        material: h,
        flash_in: Some(FlashIn { duration, elapsed: e2 as u64 }),
    });
    if dts.drop_first().len() == 0 {
        assert(total_time(dts) == dt);
        assert(run_frames(seq![stepped], mats2, dts.drop_first()) == (seq![stepped], mats2));
    } else {
        lemma_run_frames_active_partial(h, duration, e2 as u64, mats2, dts.drop_first());
        let total: int = e + total_time(dts);
        lemma_progress_bounds(duration, total);
        lemma_write_dissolve_overwrite(
            mats,
            h,
            p as u32,
            (total * (FIXED_ONE as int) / (duration as int)) as u32,
        );
    }
}

/// Law: linearity over any run that stays short of the duration — a fresh
/// animator ticked with frame times of total `t < duration` is still
/// attached, has `elapsed == t`, and the material behind its handle holds
/// exactly the fixed-point value of `t / duration`.
pub proof fn lemma_flash_in_linear_run(
    h: MaterialHandle,
    duration: u64,
    mats: Seq<Dissolve2DMaterial>,
    dts: Seq<u64>,
)
    requires
        duration > 0,
        total_time(dts) < duration,
        dts.len() > 0,
        h.index < mats.len(),
    ensures
        run_frames(
            seq![DrawableObject { material: h, flash_in: Some(FlashIn { duration, elapsed: 0 }) }],
            mats,
            dts,
        ) == (
            seq![DrawableObject {
                material: h,
                flash_in: Some(FlashIn { duration, elapsed: total_time(dts) as u64 }),
            }],
            write_dissolve_spec(
                mats,
                h,
                (total_time(dts) * (FIXED_ONE as int) / (duration as int)) as u32,
            ),
        ),
{
    lemma_total_time_nonneg(dts);
    lemma_run_frames_active_partial(h, duration, 0, mats, dts);
}

/// Law: a zero duration — the stand-in for every non-positive duration —
/// completes on the first tick of any size: full dissolve written through
/// the handle, and the animator detached in the same step.
pub proof fn lemma_zero_duration_completes(
    h: MaterialHandle,
    mats: Seq<Dissolve2DMaterial>,
    dt: u64,
)
    requires
        h.index < mats.len(),
    ensures
        flash_in_pass(
            seq![DrawableObject {
                material: h,
                flash_in: Some(FlashIn { duration: 0, elapsed: 0 }),
            }],
            mats,
            dt,
        ) == (
            seq![DrawableObject { material: h, flash_in: None::<FlashIn> }],
            write_dissolve_spec(mats, h, FIXED_ONE),
        ),
{
    let o = DrawableObject { material: h, flash_in: Some(FlashIn { duration: 0, elapsed: 0 }) };
    lemma_pass_singleton(o, mats, dt);
}

/// Law: drawable objects sharing one material handle observe identical
/// material state — in particular the same dissolve value — after any
/// animator pass: the pass keeps every object's handle, and what a reader
/// sees through a handle is a function of the store and the handle alone.
pub proof fn lemma_shared_handle_same_observation(
    objects: Seq<DrawableObject>,
    mats: Seq<Dissolve2DMaterial>,
    dt: u64,
    i: int,
    j: int,
)
    requires
        0 <= i < objects.len(),
        0 <= j < objects.len(),
        objects[i].material == objects[j].material,
    ensures
        ({
            let (objects2, mats2) = flash_in_pass(objects, mats, dt);
            &&& objects2[i].material == objects[i].material
            &&& objects2[j].material == objects[j].material
            &&& material_seen(mats2, objects2[i].material) == material_seen(
                mats2,
                objects2[j].material,
            )
        }),
{
    lemma_pass_preserves_shape(objects, mats, dt);
}

} // verus!

