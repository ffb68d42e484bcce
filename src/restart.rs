use vstd::prelude::*;
use crate::ball::{restart_motion, Ball, BallMotion};
use crate::overlay::{fall_ids, shows_fall, without_falls, Banner, BannerKind, Overlay};

verus! {

/// What a restart asks of the engine.
#[derive(Debug)]
pub struct RestartOrders {
    /// The motion to give ball `i`, in the order of the balls.
    pub motions: Vec<BallMotion>,
    /// The banners to take off screen.
    pub despawn: Vec<u64>,
}

pub open spec fn restarted(b: Ball) -> Ball {
    Ball { is_in_bounds: true, ..b }
}

/// Restarts the game: every ball is back in bounds, at its restart position
/// and at rest, and every fall banner leaves the screen while a win banner
/// stays. Restarting again changes nothing more.
pub fn restart(balls: &mut Vec<Ball>, overlay: &mut Overlay) -> (r: RestartOrders)
    ensures
        final(balls)@.len() == old(balls)@.len(),
        r.motions@.len() == old(balls)@.len(),
        forall|i: int|
            0 <= i < old(balls)@.len() ==> #[trigger] final(balls)@[i] == restarted(old(balls)@[i])
                && r.motions@[i] == restart_motion(old(balls)@[i]),
        final(overlay).banners@ == without_falls(old(overlay).banners@),
        r.despawn@ == fall_ids(old(overlay).banners@),
        !shows_fall(final(overlay).banners@),
{
    let mut motions: Vec<BallMotion> = Vec::new();
    let mut i: usize = 0;
    while i < balls.len()
        invariant
            i <= balls@.len(),
            balls@.len() == old(balls)@.len(),
            motions@.len() == i,
            forall|j: int|
                0 <= j < i ==> #[trigger] balls@[j] == restarted(old(balls)@[j]) && motions@[j]
                    == restart_motion(old(balls)@[j]),
            forall|j: int| i <= j < balls@.len() ==> #[trigger] balls@[j] == old(balls)@[j],
        decreases balls@.len() - i,
    {
        let mut ball = balls[i];
        let m = ball.restart();
        balls.set(i, ball);
        motions.push(m);
        i = i + 1;
    }
    let despawn = overlay.remove_falls();
    RestartOrders { motions, despawn }
}

/// Restarting a second time changes no ball and no banner, and takes no
/// banner off screen.
pub proof fn lemma_restart_idempotent(b: Ball, bs: Seq<Banner>)
    ensures
        restarted(restarted(b)) == restarted(b),
        restart_motion(restarted(b)) == restart_motion(b),
        without_falls(without_falls(bs)) == without_falls(bs),
        fall_ids(without_falls(bs)).len() == 0,
    decreases bs.len(),
{
    if bs.len() > 0 {
        lemma_restart_idempotent(b, bs.drop_last());
        let rest = without_falls(bs.drop_last());
        if bs.last().kind != BannerKind::Fall {
            assert(rest.push(bs.last()).drop_last() == rest);
        }
    }
}
} // verus!
