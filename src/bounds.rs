use vstd::prelude::*;
use crate::ball::{after_check, falls_now, Ball};
use crate::colliders::{lemma_bottom_role, node_role, NodeRole, BOTTOM_NAME};
use crate::scene::LoadEvent;

verus! {

/// Whether the fall check runs, as the load lifecycle leaves it.
#[derive(Clone, Copy, Debug, PartialEq, Eq, Structural)]
pub enum BoundsWatch {
    /// No level is loaded, or a reload began.
    Waiting,
    /// A level is loaded; the check runs every tick.
    Watching,
    /// The level has no threshold node; the check rests until the next load.
    Disabled,
}

/// What one tick of the fall check did.
#[derive(Debug)]
pub enum BoundsReport {
    /// The check did not run.
    Inactive,
    /// The level has no threshold node; this is reported once per load.
    MissingBottom,
    /// The check ran; entry `i` is true when ball `i` fell this tick.
    Checked(Vec<bool>),
}

/// The fall check of the level.
#[derive(Clone, Copy, Debug, PartialEq, Eq, Structural)]
pub struct BoundsMonitor {
    pub watch: BoundsWatch,
}

pub open spec fn watch_after_event(w: BoundsWatch, e: LoadEvent) -> BoundsWatch {
    match e {
        LoadEvent::Reloading => BoundsWatch::Waiting,
        LoadEvent::Loaded => BoundsWatch::Watching,
        LoadEvent::Other => w,
    }
}

pub open spec fn watch_after_events(w: BoundsWatch, es: Seq<LoadEvent>) -> BoundsWatch
    decreases es.len(),
{
    if es.len() == 0 {
        w
    } else {
        watch_after_event(watch_after_events(w, es.drop_last()), es.last())
    }
}

/// The height of the first node named as the threshold, if there is one.
pub open spec fn threshold_of(names: Seq<String>, ys: Seq<i64>) -> Option<i64>
    decreases names.len(),
{
    if names.len() == 0 || ys.len() == 0 {
        None
    } else if names[0]@ == BOTTOM_NAME@ {
        Some(ys[0])
    } else {
        threshold_of(names.drop_first(), ys.drop_first())
    }
}

/// Looks for the node named `bottom` among nodes with the given names and
/// heights, and returns the height of the first one.
pub fn find_bottom(names: &Vec<String>, heights: &Vec<i64>) -> (r: Option<i64>)
    requires
        names@.len() == heights@.len(),
    ensures
        r == threshold_of(names@, heights@),
        r is None <==> forall|i: int| 0 <= i < names@.len() ==> names@[i]@ != BOTTOM_NAME@,
{
    let mut i: usize = 0;
    proof {
        assert(names@.subrange(0, names@.len() as int) == names@);
        assert(heights@.subrange(0, heights@.len() as int) == heights@);
    }
    while i < names.len()
        invariant
            i <= names@.len(),
            names@.len() == heights@.len(),
            threshold_of(names@, heights@) == threshold_of(
                names@.subrange(i as int, names@.len() as int),
                heights@.subrange(i as int, heights@.len() as int),
            ),
            forall|j: int| 0 <= j < i ==> names@[j]@ != BOTTOM_NAME@,
        decreases names@.len() - i,
    {
        proof {
            let ns = names@.subrange(i as int, names@.len() as int);
            let hs = heights@.subrange(i as int, heights@.len() as int);
            assert(ns.drop_first() == names@.subrange(i + 1, names@.len() as int));
            assert(hs.drop_first() == heights@.subrange(i + 1, heights@.len() as int));
            assert(ns[0] == names@[i as int]);
        }
        if node_role(names[i].as_str()) == NodeRole::Bottom {
            return Some(heights[i]);
        }
        proof {
            if names@[i as int]@ == BOTTOM_NAME@ {
                lemma_bottom_role();
            }
        }
        i = i + 1;
    }
    proof {
        assert(names@.subrange(i as int, names@.len() as int).len() == 0);
    }
    None
}

impl BoundsMonitor {
    pub fn new() -> (r: BoundsMonitor)
        ensures
            r.watch == BoundsWatch::Waiting,
    {
        BoundsMonitor { watch: BoundsWatch::Waiting }
    }

    /// Runs one tick of the fall check. The tick's lifecycle events come
    /// first: a reload stops the check and a finished load starts it. The
    /// check itself runs only while the level's colliders are in place: with
    /// no threshold it reports that once and rests until the next load;
    /// otherwise it compares each ball's height `heights[i]` with the
    /// threshold and reports the balls that fell.
    pub fn tick(
        &mut self,
        events: &Vec<LoadEvent>,
        colliders_ready: bool,
        bottom: Option<i64>,
        balls: &mut Vec<Ball>,
        heights: &Vec<i64>,
    ) -> (r: BoundsReport)
        requires
            old(balls)@.len() == heights@.len(),
        ensures
            ({
                let w = watch_after_events(old(self).watch, events@);
                if w != BoundsWatch::Watching || !colliders_ready {
                    &&& r is Inactive
                    &&& final(self).watch == w
                    &&& final(balls)@ == old(balls)@
                } else if bottom is None {
                    &&& r is MissingBottom
                    &&& final(self).watch == BoundsWatch::Disabled
                    &&& final(balls)@ == old(balls)@
                } else {
                    &&& final(self).watch == w
                    &&& r matches BoundsReport::Checked(fell) && fell@.len() == heights@.len()
                        && final(balls)@.len() == old(balls)@.len() && forall|i: int|
                        0 <= i < heights@.len() ==> {
                            &&& fell@[i] == falls_now(
                                old(balls)@[i].is_in_bounds,
                                heights@[i],
                                bottom->0,
                            )
                            &&& #[trigger] final(balls)@[i] == after_check(old(balls)@[i], heights@[i], bottom->0)
                        }
                }
            }),
    {
        let mut w = self.watch;
        let mut k: usize = 0;
        while k < events.len()
            invariant
                k <= events@.len(),
                w == watch_after_events(self.watch, events@.subrange(0, k as int)),
            decreases events@.len() - k,
        {
            proof {
                assert(events@.subrange(0, k + 1).drop_last() == events@.subrange(0, k as int));
            }
            w = match events[k] {
                LoadEvent::Reloading => BoundsWatch::Waiting,
                LoadEvent::Loaded => BoundsWatch::Watching,
                LoadEvent::Other => w,
            };
            k = k + 1;
        }
        proof {
            assert(events@.subrange(0, events@.len() as int) == events@);
        }
        self.watch = w;
        if w != BoundsWatch::Watching || !colliders_ready {
            return BoundsReport::Inactive;
        }
        let b = match bottom {
            None => {
                self.watch = BoundsWatch::Disabled;
                return BoundsReport::MissingBottom;
            },
            Some(b) => b,
        };
        let mut fell: Vec<bool> = Vec::new();
        let mut i: usize = 0;
        while i < balls.len()
            invariant
                i <= balls@.len(),
                balls@.len() == old(balls)@.len(),
                old(balls)@.len() == heights@.len(),
                fell@.len() == i,
                forall|j: int|
                    0 <= j < i ==> #[trigger] fell@[j] == falls_now(
                        old(balls)@[j].is_in_bounds,
                        heights@[j],
                        b,
                    ),
                forall|j: int|
                    0 <= j < i ==> #[trigger] balls@[j] == after_check(old(balls)@[j], heights@[j], b),
                forall|j: int| i <= j < balls@.len() ==> #[trigger] balls@[j] == old(balls)@[j],
            decreases balls@.len() - i,
        {
            let mut ball = balls[i];
            let f = ball.check_fall(heights[i], b);
            balls.set(i, ball);
            fell.push(f);
            i = i + 1;
        }
        proof {
            assert forall|j: int| 0 <= j < heights@.len() implies {
                &&& fell@[j] == falls_now(old(balls)@[j].is_in_bounds, heights@[j], b)
                &&& #[trigger] balls@[j] == after_check(old(balls)@[j], heights@[j], b)
            } by {
                assert(fell@[j] == falls_now(old(balls)@[j].is_in_bounds, heights@[j], b));
            }
        }
        BoundsReport::Checked(fell)
    }
}

} // verus!
