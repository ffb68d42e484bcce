use vstd::prelude::*;

verus! {

/// What the level asset reports in one event of its load lifecycle.
#[derive(Clone, Copy, Debug, PartialEq, Eq, Structural)]
pub enum LoadEvent {
    /// The asset changed on disk and is being loaded again.
    Reloading,
    /// The asset and everything it depends on finished loading.
    Loaded,
    /// Any other lifecycle event; it leaves the state alone.
    Other,
}

/// Where the level stands with respect to the collider conversion pass.
#[derive(Clone, Copy, Debug, PartialEq, Eq, Structural)]
pub enum SceneLoadState {
    /// Nothing loaded yet, or a reload began since.
    Pending,
    /// The level finished loading in an earlier tick; the pass runs at the
    /// start of the next tick.
    LoadedAwaitingAttach,
    /// The pass ran for the current load.
    Attached,
}

/// The state after one lifecycle event.
pub open spec fn after_event(s: SceneLoadState, e: LoadEvent) -> SceneLoadState {
    match e {
        LoadEvent::Reloading => SceneLoadState::Pending,
        LoadEvent::Loaded => SceneLoadState::LoadedAwaitingAttach,
        LoadEvent::Other => s,
    }
}

/// The state after the events of `es`, taken in order.
pub open spec fn after_events(s: SceneLoadState, es: Seq<LoadEvent>) -> SceneLoadState
    decreases es.len(),
{
    if es.len() == 0 {
        s
    } else {
        after_event(after_events(s, es.drop_last()), es.last())
    }
}

/// Whether the conversion pass runs in a tick that starts in state `s`.
pub open spec fn attaches_in(s: SceneLoadState) -> bool {
    s == SceneLoadState::LoadedAwaitingAttach
}

/// The state at the end of a tick that starts in `s` and sees the events `es`:
/// a pending pass runs first, then the events are taken in order.
pub open spec fn after_tick(s: SceneLoadState, es: Seq<LoadEvent>) -> SceneLoadState {
    after_events(if attaches_in(s) { SceneLoadState::Attached } else { s }, es)
}

/// Whether the last event of `es` that is not `Other` reports a finished load.
pub open spec fn ends_loaded(es: Seq<LoadEvent>) -> bool
    decreases es.len(),
{
    if es.len() == 0 {
        false
    } else {
        match es.last() {
            LoadEvent::Loaded => true,
            LoadEvent::Reloading => false,
            LoadEvent::Other => ends_loaded(es.drop_last()),
        }
    }
}

/// For each tick of `ticks`, run from `s`, whether the conversion pass ran in it.
pub open spec fn attach_passes(s: SceneLoadState, ticks: Seq<Seq<LoadEvent>>) -> Seq<bool>
    decreases ticks.len(),
{
    if ticks.len() == 0 {
        Seq::empty()
    } else {
        seq![attaches_in(s)] + attach_passes(after_tick(s, ticks[0]), ticks.drop_first())
    }
}

impl SceneLoadState {
    /// Runs one tick of the load watcher: reports whether the collider
    /// conversion pass runs now, and returns the state for the next tick.
    pub fn tick(self, events: &Vec<LoadEvent>) -> (r: (SceneLoadState, bool))
        ensures
            r.1 == attaches_in(self),
            r.0 == after_tick(self, events@),
    {
        let attach = self == SceneLoadState::LoadedAwaitingAttach;
        let mut state = if attach {
            SceneLoadState::Attached
        } else {
            self
        };
        let ghost start = state;
        let mut i: usize = 0;
        while i < events.len()
            invariant
                i <= events@.len(),
                state == after_events(start, events@.subrange(0, i as int)),
            decreases events@.len() - i,
        {
            proof {
                assert(events@.subrange(0, i + 1).drop_last() == events@.subrange(0, i as int));
            }
            state = match events[i] {
                LoadEvent::Reloading => SceneLoadState::Pending,
                LoadEvent::Loaded => SceneLoadState::LoadedAwaitingAttach,
                LoadEvent::Other => state,
            };
            i = i + 1;
        }
        proof {
            assert(events@.subrange(0, events@.len() as int) == events@);
        }
        (state, attach)
    }
}

/// A tick that does not start with a pending pass ends with one pending
/// exactly when its last lifecycle event reports a finished load.
proof fn lemma_pending_after(s: SceneLoadState, es: Seq<LoadEvent>)
    requires
        s != SceneLoadState::LoadedAwaitingAttach,
    ensures
        attaches_in(after_events(s, es)) == ends_loaded(es),
    decreases es.len(),
{
    if es.len() > 0 {
        lemma_pending_after(s, es.drop_last());
    }
}

/// The conversion pass runs in a tick exactly when the tick before it ended
/// with a finished load, whatever came earlier: once for each load that no
/// reload followed within its tick, in the tick after it, and never again
/// until another load finishes.
pub proof fn lemma_attach_follows_load(s: SceneLoadState, ticks: Seq<Seq<LoadEvent>>, k: int)
    requires
        0 < k < ticks.len(),
    ensures
        attach_passes(s, ticks).len() == ticks.len(),
        attach_passes(s, ticks)[k] == ends_loaded(ticks[k - 1]),
    decreases ticks.len(),
{
    lemma_passes_len(s, ticks);
    let next = after_tick(s, ticks[0]);
    let rest = ticks.drop_first();
    lemma_passes_len(next, rest);
    if k == 1 {
        let start = if attaches_in(s) { SceneLoadState::Attached } else { s };
        lemma_pending_after(start, ticks[0]);
        if rest.len() > 0 {
            assert(attach_passes(next, rest)[0] == attaches_in(next));
        }
    } else {
        lemma_attach_follows_load(next, rest, k - 1);
    }
}

proof fn lemma_passes_len(s: SceneLoadState, ticks: Seq<Seq<LoadEvent>>)
    ensures
        attach_passes(s, ticks).len() == ticks.len(),
    decreases ticks.len(),
{
    if ticks.len() > 0 {
        lemma_passes_len(after_tick(s, ticks[0]), ticks.drop_first());
    }
}

} // verus!
