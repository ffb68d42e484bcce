use creative_bevy::{
    classify, classify_all, count_wins, on_ball_contact, rolling_volume, Contact, ContactEvent,
    RollingSound, SoundAction,
};

const BALL: u64 = 1;
const GOAL: u64 = 2;
const FLOOR: u64 = 3;
const WALL: u64 = 4;

#[test]
fn ball_on_goal_is_one_win() {
    let goals = vec![GOAL];
    let balls = vec![BALL];
    let events = vec![ContactEvent::Started(BALL, GOAL)];
    let contacts = classify_all(&events, &goals, &balls);
    assert_eq!(contacts, vec![Contact::GoalEntered]);
    assert_eq!(count_wins(&contacts), 1);
}

#[test]
fn goal_on_either_side_wins() {
    let goals = vec![GOAL];
    let balls = vec![BALL];
    assert_eq!(classify(ContactEvent::Started(GOAL, BALL), &goals, &balls), Contact::GoalEntered);
    assert_eq!(classify(ContactEvent::Stopped(GOAL, BALL), &goals, &balls), Contact::Irrelevant);
}

#[test]
fn ball_contacts_begin_and_end() {
    let goals = vec![GOAL];
    let balls = vec![BALL];
    assert_eq!(classify(ContactEvent::Started(FLOOR, BALL), &goals, &balls), Contact::BallContactBegin(BALL));
    assert_eq!(classify(ContactEvent::Stopped(BALL, FLOOR), &goals, &balls), Contact::BallContactEnd(BALL));
    assert_eq!(classify(ContactEvent::Started(FLOOR, WALL), &goals, &balls), Contact::Irrelevant);
}

#[test]
fn each_goal_event_counts() {
    let goals = vec![GOAL];
    let balls = vec![BALL];
    let events = vec![
        ContactEvent::Started(BALL, GOAL),
        ContactEvent::Started(BALL, FLOOR),
        ContactEvent::Stopped(BALL, GOAL),
        ContactEvent::Started(GOAL, BALL),
    ];
    let contacts = classify_all(&events, &goals, &balls);
    assert_eq!(contacts.len(), 4);
    assert_eq!(count_wins(&contacts), 2);
    assert_eq!(count_wins(&Vec::new()), 0);
}

#[test]
fn rolling_sound_follows_contacts() {
    assert_eq!(on_ball_contact(RollingSound::Absent, true), (RollingSound::Audible, SoundAction::Attach));
    assert_eq!(on_ball_contact(RollingSound::Audible, false), (RollingSound::Muted, SoundAction::Mute));
    assert_eq!(on_ball_contact(RollingSound::Muted, true), (RollingSound::Audible, SoundAction::Unmute));
    assert_eq!(on_ball_contact(RollingSound::Audible, true), (RollingSound::Audible, SoundAction::Keep));
    assert_eq!(on_ball_contact(RollingSound::Muted, false), (RollingSound::Muted, SoundAction::Keep));
    assert_eq!(on_ball_contact(RollingSound::Absent, false), (RollingSound::Absent, SoundAction::Keep));
}

#[test]
fn volume_is_speed_times_gain_while_audible() {
    assert_eq!(rolling_volume(RollingSound::Audible, 2_500_000), Some(1_000_000));
    assert_eq!(rolling_volume(RollingSound::Audible, 7), Some(2));
    assert_eq!(rolling_volume(RollingSound::Audible, 0), Some(0));
    assert_eq!(rolling_volume(RollingSound::Audible, u64::MAX), Some(7_378_697_629_483_820_646));
    assert_eq!(rolling_volume(RollingSound::Muted, 2_500_000), None);
    assert_eq!(rolling_volume(RollingSound::Absent, 2_500_000), None);
}
