use vstd::prelude::*;
use crate::geometry::Fixed3;

verus! {

/// The player's ball.
#[derive(Clone, Copy, Debug, PartialEq, Eq, Structural)]
pub struct Ball {
    /// Radius in millionths of a world unit.
    pub radius: u64,
    /// False from the tick the ball fell below the threshold until the next
    /// restart.
    pub is_in_bounds: bool,
    /// Where a restart puts the ball, fixed when it is spawned.
    pub restart_position: Fixed3,
}

/// The live physical state of a ball, as the physics engine holds it.
#[derive(Clone, Copy, Debug, PartialEq, Eq, Structural)]
pub struct BallMotion {
    pub position: Fixed3,
    pub linvel: Fixed3,
    pub angvel: Fixed3,
}

/// Whether a ball at height `y` counts as falling now.
pub open spec fn falls_now(in_bounds: bool, y: i64, bottom: i64) -> bool {
    in_bounds && y < bottom
}

/// Whether the ball is still in bounds after a tick at height `y`.
pub open spec fn in_bounds_after(in_bounds: bool, y: i64, bottom: i64) -> bool {
    in_bounds && !(y < bottom)
}

/// The ball after a tick at height `y`.
pub open spec fn after_check(b: Ball, y: i64, bottom: i64) -> Ball {
    Ball { is_in_bounds: in_bounds_after(b.is_in_bounds, y, bottom), ..b }
}

/// The motion that a restart gives a ball.
pub open spec fn restart_motion(b: Ball) -> BallMotion {
    BallMotion { position: b.restart_position, linvel: Fixed3 { x: 0, y: 0, z: 0 }, angvel: Fixed3 { x: 0, y: 0, z: 0 } }
}

impl Ball {
    /// A ball in bounds, with its restart position.
    pub fn new(radius: u64, restart_position: Fixed3) -> (r: Ball)
        ensures
            r.radius == radius,
            r.is_in_bounds,
            r.restart_position == restart_position,
    {
        Ball { radius, is_in_bounds: true, restart_position }
    }

    /// Compares the ball's height with the fall threshold: the first tick
    /// below it while in bounds marks the ball out of bounds and returns
    /// true; later ticks return false until a restart.
    pub fn check_fall(&mut self, y: i64, bottom: i64) -> (fell: bool)
        ensures
            fell == falls_now(old(self).is_in_bounds, y, bottom),
            *final(self) == after_check(*old(self), y, bottom),
    {
        if y < bottom && self.is_in_bounds {
            self.is_in_bounds = false;
            true
        } else {
            false
        }
    }

    /// Puts the ball back in bounds and returns the motion to give it: at its
    /// restart position, with no linear or angular velocity.
    pub fn restart(&mut self) -> (m: BallMotion)
        ensures
            final(self).is_in_bounds,
            final(self).radius == old(self).radius,
            final(self).restart_position == old(self).restart_position,
            m == restart_motion(*old(self)),
            m.linvel.is_zero() && m.angvel.is_zero(),
    {
        self.is_in_bounds = true;
        BallMotion { position: self.restart_position, linvel: Fixed3::zero(), angvel: Fixed3::zero() }
    }
}

/// Whether some height of `ys` lies below `bottom`.
pub open spec fn ever_below(ys: Seq<i64>, bottom: i64) -> bool {
    exists|i: int| 0 <= i < ys.len() && ys[i] < bottom
}

/// Whether a ball that starts with `in_bounds` is in bounds after the ticks
/// at the heights `ys`.
pub open spec fn in_bounds_after_all(in_bounds: bool, ys: Seq<i64>, bottom: i64) -> bool
    decreases ys.len(),
{
    if ys.len() == 0 {
        in_bounds
    } else {
        in_bounds_after(in_bounds_after_all(in_bounds, ys.drop_last(), bottom), ys.last(), bottom)
    }
}

/// How many of the ticks at the heights `ys` report a fall.
pub open spec fn falls_over(in_bounds: bool, ys: Seq<i64>, bottom: i64) -> nat
    decreases ys.len(),
{
    if ys.len() == 0 {
        0
    } else {
        let before = in_bounds_after_all(in_bounds, ys.drop_last(), bottom);
        falls_over(in_bounds, ys.drop_last(), bottom) + if falls_now(before, ys.last(), bottom) {
            1nat
        } else {
            0nat
        }
    }
}

/// A ball that starts in bounds and is watched over any run of ticks leaves
/// bounds exactly when some tick finds it below the threshold, and then
/// reports its fall exactly once, however long it stays below; otherwise it
/// reports none.
pub proof fn lemma_falls_once(ys: Seq<i64>, bottom: i64)
    ensures
        in_bounds_after_all(true, ys, bottom) == !ever_below(ys, bottom),
        falls_over(true, ys, bottom) == if ever_below(ys, bottom) { 1nat } else { 0nat },
    decreases ys.len(),
{
    if ys.len() > 0 {
        let init = ys.drop_last();
        lemma_falls_once(init, bottom);
        if ever_below(init, bottom) {
            let i = choose|i: int| 0 <= i < init.len() && init[i] < bottom;
            assert(ys[i] == init[i]);
        }
        if ever_below(ys, bottom) && !ever_below(init, bottom) {
            let i = choose|i: int| 0 <= i < ys.len() && ys[i] < bottom;
            if i < init.len() {
                assert(init[i] == ys[i]);
            }
        }
        if ys.last() < bottom {
            assert(ys[ys.len() - 1] < bottom);
        }
    }
}

} // verus!
