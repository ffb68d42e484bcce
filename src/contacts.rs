use vstd::prelude::*;

verus! {

/// A contact reported by the physics engine between two bodies.
#[derive(Clone, Copy, Debug, PartialEq, Eq, Structural)]
pub enum ContactEvent {
    Started(u64, u64),
    Stopped(u64, u64),
}

/// What a contact means to the game.
#[derive(Clone, Copy, Debug, PartialEq, Eq, Structural)]
pub enum Contact {
    /// A body touched the goal: the player wins.
    GoalEntered,
    /// The ball, named here, touched a surface.
    BallContactBegin(u64),
    /// The ball, named here, left a surface.
    BallContactEnd(u64),
    /// Nothing the game reacts to.
    Irrelevant,
}

/// The state of a ball's rolling sound.
#[derive(Clone, Copy, Debug, PartialEq, Eq, Structural)]
pub enum RollingSound {
    /// No sound loop is attached to the ball yet.
    Absent,
    /// The loop is attached and silent.
    Muted,
    /// The loop is attached and plays.
    Audible,
}

/// What to do to a ball's rolling sound.
#[derive(Clone, Copy, Debug, PartialEq, Eq, Structural)]
pub enum SoundAction {
    /// Attach a playing loop to the ball.
    Attach,
    Unmute,
    Mute,
    /// Leave the sound as it is.
    Keep,
}

/// Rolling volume per unit of speed, as the fraction `ROLL_GAIN_NUM / ROLL_GAIN_DEN`.
pub const ROLL_GAIN_NUM: u64 = 2;

pub const ROLL_GAIN_DEN: u64 = 5;

/// The meaning of a contact, given the goal bodies and the balls. A contact
/// with the goal, which is a sensor, counts for winning only and never for
/// the rolling sound; a stopped contact with it means nothing.
pub open spec fn classification(e: ContactEvent, goals: Seq<u64>, balls: Seq<u64>) -> Contact {
    let (a, b, started) = match e {
        ContactEvent::Started(a, b) => (a, b, true),
        ContactEvent::Stopped(a, b) => (a, b, false),
    };
    if goals.contains(a) || goals.contains(b) {
        if started {
            Contact::GoalEntered
        } else {
            Contact::Irrelevant
        }
    } else if balls.contains(a) {
        if started {
            Contact::BallContactBegin(a)
        } else {
            Contact::BallContactEnd(a)
        }
    } else if balls.contains(b) {
        if started {
            Contact::BallContactBegin(b)
        } else {
            Contact::BallContactEnd(b)
        }
    } else {
        Contact::Irrelevant
    }
}

/// The next state of a ball's rolling sound and what to do to it, when the
/// ball touches a surface (`begin`) or leaves one.
pub open spec fn sound_step(s: RollingSound, begin: bool) -> (RollingSound, SoundAction) {
    if begin {
        match s {
            RollingSound::Absent => (RollingSound::Audible, SoundAction::Attach),
            RollingSound::Muted => (RollingSound::Audible, SoundAction::Unmute),
            RollingSound::Audible => (RollingSound::Audible, SoundAction::Keep),
        }
    } else {
        match s {
            RollingSound::Audible => (RollingSound::Muted, SoundAction::Mute),
            _ => (s, SoundAction::Keep),
        }
    }
}

fn contains_id(ids: &Vec<u64>, e: u64) -> (r: bool)
    ensures
        r == ids@.contains(e),
{
    let mut i: usize = 0;
    while i < ids.len()
        invariant
            i <= ids@.len(),
            forall|j: int| 0 <= j < i ==> ids@[j] != e,
        decreases ids@.len() - i,
    {
        if ids[i] == e {
            return true;
        }
        i = i + 1;
    }
    false
}

/// Classifies one contact.
pub fn classify(e: ContactEvent, goals: &Vec<u64>, balls: &Vec<u64>) -> (r: Contact)
    ensures
        r == classification(e, goals@, balls@),
{
    let (a, b, started) = match e {
        ContactEvent::Started(a, b) => (a, b, true),
        ContactEvent::Stopped(a, b) => (a, b, false),
    };
    if contains_id(goals, a) || contains_id(goals, b) {
        if started {
            Contact::GoalEntered
        } else {
            Contact::Irrelevant
        }
    } else if contains_id(balls, a) {
        if started {
            Contact::BallContactBegin(a)
        } else {
            Contact::BallContactEnd(a)
        }
    } else if contains_id(balls, b) {
        if started {
            Contact::BallContactBegin(b)
        } else {
            Contact::BallContactEnd(b)
        }
    } else {
        Contact::Irrelevant
    }
}

/// Classifies every contact of a tick, one result for each, in order.
pub fn classify_all(events: &Vec<ContactEvent>, goals: &Vec<u64>, balls: &Vec<u64>) -> (r: Vec<Contact>)
    ensures
        r@.len() == events@.len(),
        forall|i: int| 0 <= i < events@.len() ==> #[trigger] r@[i] == classification(events@[i], goals@, balls@),
{
    let mut out: Vec<Contact> = Vec::new();
    let mut i: usize = 0;
    while i < events.len()
        invariant
            i <= events@.len(),
            out@.len() == i,
            forall|j: int| 0 <= j < i ==> #[trigger] out@[j] == classification(events@[j], goals@, balls@),
        decreases events@.len() - i,
    {
        out.push(classify(events[i], goals, balls));
        i = i + 1;
    }
    out
}

/// How many contacts of `cs` are wins.
pub open spec fn wins_in(cs: Seq<Contact>) -> nat
    decreases cs.len(),
{
    if cs.len() == 0 {
        0
    } else {
        wins_in(cs.drop_last()) + if cs.last() == Contact::GoalEntered { 1nat } else { 0nat }
    }
}

/// Counts the wins among a tick's contacts: one banner and one sound each.
pub fn count_wins(cs: &Vec<Contact>) -> (n: usize)
    ensures
        n == wins_in(cs@),
{
    let mut n: usize = 0;
    let mut i: usize = 0;
    while i < cs.len()
        invariant
            i <= cs@.len(),
            n == wins_in(cs@.subrange(0, i as int)),
            n <= i,
        decreases cs@.len() - i,
    {
        proof {
            assert(cs@.subrange(0, i + 1).drop_last() == cs@.subrange(0, i as int));
        }
        if cs[i] == Contact::GoalEntered {
            n = n + 1;
        }
        i = i + 1;
    }
    proof {
        assert(cs@.subrange(0, cs@.len() as int) == cs@);
    }
    n
}

/// Moves a ball's rolling sound on when the ball touches a surface (`begin`)
/// or leaves one: touching unmutes the loop, attaching it first if needed;
/// leaving mutes it.
pub fn on_ball_contact(s: RollingSound, begin: bool) -> (r: (RollingSound, SoundAction))
    ensures
        r == sound_step(s, begin),
{
    if begin {
        match s {
            RollingSound::Absent => (RollingSound::Audible, SoundAction::Attach),
            RollingSound::Muted => (RollingSound::Audible, SoundAction::Unmute),
            RollingSound::Audible => (RollingSound::Audible, SoundAction::Keep),
        }
    } else {
        match s {
            RollingSound::Audible => (RollingSound::Muted, SoundAction::Mute),
            _ => (s, SoundAction::Keep),
        }
    }
}

/// The volume of a ball's rolling sound for this tick, in millionths, from
/// its speed in millionths of a world unit per second: the speed times the
/// rolling gain while the loop plays, and nothing to set otherwise.
pub fn rolling_volume(s: RollingSound, speed: u64) -> (r: Option<u64>)
    ensures
        s == RollingSound::Audible ==> r == Some((speed * ROLL_GAIN_NUM / (ROLL_GAIN_DEN as int)) as u64),
        s != RollingSound::Audible ==> r is None,
{
    if s == RollingSound::Audible {
        assert((speed as u128) * (ROLL_GAIN_NUM as u128) <= u64::MAX as u128 * 2) by (nonlinear_arith)
            requires
                ROLL_GAIN_NUM == 2,
        ;
        let v = (speed as u128) * (ROLL_GAIN_NUM as u128) / (ROLL_GAIN_DEN as u128);
        Some(v as u64)
    } else {
        None
    }
}

/// A contact that starts between a ball and a goal body, in either order,
/// is a win, and only one: it is classified once, as exactly one outcome.
pub proof fn lemma_goal_contact_wins(ball: u64, goal: u64, goals: Seq<u64>, balls: Seq<u64>)
    requires
        goals.contains(goal),
        balls.contains(ball),
    ensures
        classification(ContactEvent::Started(ball, goal), goals, balls) == Contact::GoalEntered,
        classification(ContactEvent::Started(goal, ball), goals, balls) == Contact::GoalEntered,
        wins_in(seq![classification(ContactEvent::Started(ball, goal), goals, balls)]) == 1,
{
    let s = seq![classification(ContactEvent::Started(ball, goal), goals, balls)];
    assert(s.drop_last().len() == 0);
    assert(wins_in(s.drop_last()) == 0);
    assert(s.last() == Contact::GoalEntered);
}

} // verus!
