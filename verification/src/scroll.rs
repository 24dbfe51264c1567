//! The scroll-and-wrap updater: once per frame every background strip moves
//! left by `speed * elapsed_ms` and, when its coordinate reaches or passes
//! zero, snaps back to the strip's loop position.

use vstd::prelude::*;

verus! {

use crate::scene::Background;

/// How far a strip travels in `elapsed_ms` milliseconds, in milliunits.
/// Speeds are milliunits per millisecond, so the product is exact.
pub open spec fn displacement(speed: int, elapsed_ms: int) -> int {
    speed * elapsed_ms
}

/// The single-entity scroll-and-wrap rule: move left by the displacement;
/// a result at or below zero snaps to `loop_position` exactly (no overshoot
/// compensation, matching the hard-reset behavior of the update rule).
pub open spec fn scrolled(coordinate: int, speed: int, loop_position: int, elapsed_ms: int) -> int {
    let moved = coordinate - displacement(speed, elapsed_ms);
    if moved <= 0 {
        loop_position
    } else {
        moved
    }
}

/// The ranges in which one scroll step stays within `i64`: a forward travel
/// speed, a non-negative elapsed time, and a displacement small enough that
/// the product and the subtraction cannot overflow.
pub open spec fn step_fits(coordinate: int, speed: int, elapsed_ms: int) -> bool {
    &&& 0 <= speed
    &&& 0 <= elapsed_ms
    &&& speed * elapsed_ms <= i64::MAX
    &&& i64::MIN <= coordinate - speed * elapsed_ms
}

impl Background {
    /// One frame's update of this strip's horizontal coordinate.
    pub fn step(&self, coordinate: i64, elapsed_ms: i64) -> (updated: i64)
        requires
            step_fits(coordinate as int, self.speed as int, elapsed_ms as int),
        ensures
            updated == scrolled(
                coordinate as int,
                self.speed as int,
                self.loop_position as int,
                elapsed_ms as int,
            ),
    {
        proof {
            assert(0 <= self.speed * elapsed_ms) by (nonlinear_arith)
                requires
                    0 <= self.speed,
                    0 <= elapsed_ms,
            ;
        }
        let moved: i64 = coordinate - self.speed * elapsed_ms;
        if moved <= 0 {
            self.loop_position
        } else {
            moved
        }
    }
}

/// Per-frame system: applies the scroll-and-wrap rule to every strip.
pub struct MoveBackgroundSystem;

impl MoveBackgroundSystem {
    /// Advance every (strip, coordinate) pair by one frame of `elapsed_ms`.
    /// Each pair's new coordinate is the single-entity rule applied to that
    /// pair alone, so entities are independent and the processing order
    /// across them cannot matter.
    pub fn run(&self, entities: &mut Vec<(Background, i64)>, elapsed_ms: i64)
        requires
            0 <= elapsed_ms,
            forall|i: int|
                0 <= i < old(entities)@.len() ==> #[trigger] step_fits(
                    old(entities)@[i].1 as int,
                    old(entities)@[i].0.speed as int,
                    elapsed_ms as int,
                ),
        ensures
            final(entities)@.len() == old(entities)@.len(),
            forall|i: int|
                0 <= i < old(entities)@.len() ==> (#[trigger] final(entities)@[i]).0 == old(
                    entities,
                )@[i].0,
            forall|i: int|
                0 <= i < old(entities)@.len() ==> (#[trigger] final(entities)@[i]).1 == scrolled(
                    old(entities)@[i].1 as int,
                    old(entities)@[i].0.speed as int,
                    old(entities)@[i].0.loop_position as int,
                    elapsed_ms as int,
                ),
    {
        let n: usize = entities.len();
        let mut idx: usize = 0;
        while idx < n
            invariant
                n == entities@.len(),
                entities@.len() == old(entities)@.len(),
                idx <= n,
                0 <= elapsed_ms,
                forall|i: int|
                    0 <= i < n ==> #[trigger] step_fits(
                        old(entities)@[i].1 as int,
                        old(entities)@[i].0.speed as int,
                        elapsed_ms as int,
                    ),
                forall|i: int| idx <= i < n ==> #[trigger] entities@[i] == old(entities)@[i],
                forall|i: int|
                    0 <= i < idx ==> (#[trigger] entities@[i]).0 == old(entities)@[i].0,
                forall|i: int|
                    0 <= i < idx ==> (#[trigger] entities@[i]).1 == scrolled(
                        old(entities)@[i].1 as int,
                        old(entities)@[i].0.speed as int,
                        old(entities)@[i].0.loop_position as int,
                        elapsed_ms as int,
                    ),
            decreases n - idx,
        {
            let (bg, coordinate): (Background, i64) = entities[idx];
            let updated: i64 = bg.step(coordinate, elapsed_ms);
            entities.set(idx, (bg, updated));
            idx = idx + 1;
        }
    }
}

/// Law: monotonic decrease between wraps, for a single step. A step of a
/// strip with positive speed over a positive elapsed time strictly lowers
/// the coordinate, provided the step leaves it above zero.
pub proof fn lemma_step_strictly_decreases(
    coordinate: int,
    speed: int,
    loop_position: int,
    elapsed_ms: int,
)
    requires
        0 < speed,
        0 < elapsed_ms,
        0 < coordinate - displacement(speed, elapsed_ms),
    ensures
        scrolled(coordinate, speed, loop_position, elapsed_ms) < coordinate,
{
    assert(0 < speed * elapsed_ms) by (nonlinear_arith)
        requires
            0 < speed,
            0 < elapsed_ms,
    ;
}

/// The coordinate of a strip after a whole sequence of frame steps, each
/// entry one frame's elapsed milliseconds.
pub open spec fn coordinate_after(
    coordinate: int,
    speed: int,
    loop_position: int,
    steps: Seq<int>,
) -> int
    decreases steps.len(),
{
    if steps.len() == 0 {
        coordinate
    } else {
        scrolled(
            coordinate_after(coordinate, speed, loop_position, steps.drop_last()),
            speed,
            loop_position,
            steps.last(),
        )
    }
}

/// Law: monotonic decrease between wraps. Over any sequence of positive
/// elapsed-time steps that keeps the coordinate above zero, the coordinate
/// of a strip with positive speed strictly decreases at every step.
pub proof fn lemma_monotonic_decrease_between_wraps(
    coordinate: int,
    speed: int,
    loop_position: int,
    steps: Seq<int>,
    i: int,
)
    requires
        0 < speed,
        forall|j: int| 0 <= j < steps.len() ==> 0 < #[trigger] steps[j],
        forall|j: int|
            0 <= j < steps.len() ==> 0 < coordinate_after(
                coordinate,
                speed,
                loop_position,
                #[trigger] steps.take(j),
            ) - displacement(speed, steps[j]),
        0 <= i < steps.len(),
    ensures
        coordinate_after(coordinate, speed, loop_position, steps.take(i + 1)) < coordinate_after(
            coordinate,
            speed,
            loop_position,
            steps.take(i),
        ),
{
    assert(steps.take(i + 1).drop_last() =~= steps.take(i));
    assert(steps.take(i + 1).last() == steps[i]);
    lemma_step_strictly_decreases(
        coordinate_after(coordinate, speed, loop_position, steps.take(i)),
        speed,
        loop_position,
        steps[i],
    );
}

/// Law: boundary wrap. A coordinate already at or below zero snaps to the
/// loop position regardless of the elapsed time, even zero; in particular a
/// coordinate exactly at the origin wraps for any positive speed.
pub proof fn lemma_wrap_at_origin(
    coordinate: int,
    speed: int,
    loop_position: int,
    elapsed_ms: int,
)
    requires
        coordinate <= 0,
        0 <= speed,
        0 <= elapsed_ms,
    ensures
        scrolled(coordinate, speed, loop_position, elapsed_ms) == loop_position,
{
    assert(0 <= speed * elapsed_ms) by (nonlinear_arith)
        requires
            0 <= speed,
            0 <= elapsed_ms,
    ;
}

/// Law: a zero elapsed-time step leaves a positive coordinate unchanged.
pub proof fn lemma_zero_elapsed_identity(coordinate: int, speed: int, loop_position: int)
    requires
        0 < coordinate,
    ensures
        scrolled(coordinate, speed, loop_position, 0) == coordinate,
{
}

/// A strip that starts at or below its loop position stays at or below it:
/// the step either moves it further left or snaps it exactly to the loop
/// position.
pub proof fn lemma_coordinate_bounded(
    coordinate: int,
    speed: int,
    loop_position: int,
    elapsed_ms: int,
)
    requires
        coordinate <= loop_position,
        0 <= speed,
        0 <= elapsed_ms,
    ensures
        scrolled(coordinate, speed, loop_position, elapsed_ms) <= loop_position,
{
    assert(0 <= speed * elapsed_ms) by (nonlinear_arith)
        requires
            0 <= speed,
            0 <= elapsed_ms,
    ;
}

} // verus!
