use levelbot::activity::{plan_activity, settle_activity, ActivityPlan, Settled};
use levelbot::notice::Notice;
use levelbot::progress::{ActivityOutcome, UserProgress};
use levelbot::reply::Reply;
use levelbot::store::{Fetched, StoreWrite, WriteResult};
use std::collections::HashMap;

fn stored(point: u64, level: u64) -> UserProgress {
    UserProgress { point, level }
}

/// A store that answers, kept in memory: it honours the condition of a write.
fn write(table: &mut HashMap<u64, UserProgress>, write: StoreWrite) -> WriteResult {
    let (user, record) = match write {
        StoreWrite::Insert { user, record } => (user, record),
        StoreWrite::Update { user, record, .. } => (user, record),
    };
    if !write.may_apply(table.get(&user).copied()) {
        return WriteResult::Conflict;
    }
    table.insert(user, record);
    WriteResult::Applied
}

fn read(table: &HashMap<u64, UserProgress>, user: u64) -> Fetched<UserProgress> {
    match table.get(&user) {
        Some(record) => Fetched::Found(*record),
        None => Fetched::Missing,
    }
}

/// Handles one activity event against the table, start to end.
fn handle(table: &mut HashMap<u64, UserProgress>, user: u64) -> Option<Reply> {
    loop {
        let plan = plan_activity(user, read(table, user)).unwrap();
        let answer = write(table, plan.write);
        match settle_activity(plan.outcome, answer).unwrap() {
            Settled::Done { reply } => return reply,
            Settled::ReadAgain => continue,
        }
    }
}

#[test]
fn new_user_is_inserted_at_level_one() {
    let plan = plan_activity(42, Fetched::Missing).unwrap();
    assert_eq!(
        plan,
        ActivityPlan {
            write: StoreWrite::Insert { user: 42, record: stored(0, 1) },
            outcome: ActivityOutcome { progress: stored(0, 1), leveled_up: false },
        }
    );
    assert_eq!(
        settle_activity(plan.outcome, WriteResult::Applied),
        Ok(Settled::Done { reply: None })
    );
}

#[test]
fn known_user_is_updated_on_condition_of_what_was_read() {
    let plan = plan_activity(42, Fetched::Found(stored(3, 2))).unwrap();
    assert_eq!(
        plan,
        ActivityPlan {
            write: StoreWrite::Update { user: 42, expected: stored(3, 2), record: stored(4, 2) },
            outcome: ActivityOutcome { progress: stored(4, 2), leveled_up: false },
        }
    );
    assert_eq!(
        settle_activity(plan.outcome, WriteResult::Applied),
        Ok(Settled::Done { reply: None })
    );
}

#[test]
fn level_up_is_announced_once_the_write_is_in() {
    let plan = plan_activity(42, Fetched::Found(stored(9, 1))).unwrap();
    assert_eq!(
        plan,
        ActivityPlan {
            write: StoreWrite::Update { user: 42, expected: stored(9, 1), record: stored(0, 2) },
            outcome: ActivityOutcome { progress: stored(0, 2), leveled_up: true },
        }
    );
    let settled = settle_activity(plan.outcome, WriteResult::Applied).unwrap();
    assert_eq!(settled, Settled::Done { reply: Some(Reply::LevelUp { level: 2 }) });
    match settled {
        Settled::Done { reply: Some(reply) } => {
            assert_eq!(reply.text(), "あなたはレベル2になりました。")
        }
        _ => unreachable!(),
    }
}

#[test]
fn refused_write_announces_nothing_and_starts_over() {
    let plan = plan_activity(42, Fetched::Found(stored(9, 1))).unwrap();
    assert_eq!(settle_activity(plan.outcome, WriteResult::Conflict), Ok(Settled::ReadAgain));
}

#[test]
fn silent_store_drops_the_event() {
    assert_eq!(plan_activity(42, Fetched::Unavailable), Err(Notice::StoreUnavailable));
    let plan = plan_activity(42, Fetched::Found(stored(9, 1))).unwrap();
    assert_eq!(
        settle_activity(plan.outcome, WriteResult::Unavailable),
        Err(Notice::StoreUnavailable)
    );
}

#[test]
fn full_counter_drops_the_event() {
    assert_eq!(
        plan_activity(42, Fetched::Found(stored(u64::MAX, u64::MAX))),
        Err(Notice::PointOverflow)
    );
}

#[test]
fn first_event_of_a_user_creates_the_record() {
    let mut table = HashMap::new();
    assert_eq!(handle(&mut table, 7), None);
    assert_eq!(table.get(&7), Some(&stored(0, 1)));
    assert_eq!(table.len(), 1);
}

#[test]
fn events_of_one_user_leave_the_others_alone() {
    let mut table = HashMap::new();
    table.insert(1, stored(5, 1));
    table.insert(2, stored(9, 1));
    assert_eq!(handle(&mut table, 2), Some(Reply::LevelUp { level: 2 }));
    assert_eq!(table.get(&1), Some(&stored(5, 1)));
    assert_eq!(table.get(&2), Some(&stored(0, 2)));
}

#[test]
fn two_handlers_on_one_read_do_not_lose_an_event() {
    let mut table = HashMap::new();
    table.insert(7, stored(3, 2));
    let first = plan_activity(7, read(&table, 7)).unwrap();
    let second = plan_activity(7, read(&table, 7)).unwrap();
    assert_eq!(write(&mut table, first.write), WriteResult::Applied);
    assert_eq!(write(&mut table, second.write), WriteResult::Conflict);
    assert_eq!(table.get(&7), Some(&stored(4, 2)));
    assert_eq!(settle_activity(second.outcome, WriteResult::Conflict), Ok(Settled::ReadAgain));
    let again = plan_activity(7, read(&table, 7)).unwrap();
    assert_eq!(write(&mut table, again.write), WriteResult::Applied);
    assert_eq!(table.get(&7), Some(&stored(5, 2)));
}

#[test]
fn two_handlers_on_a_new_user_do_not_lose_an_event() {
    let mut table = HashMap::new();
    let first = plan_activity(7, read(&table, 7)).unwrap();
    let second = plan_activity(7, read(&table, 7)).unwrap();
    assert_eq!(write(&mut table, first.write), WriteResult::Applied);
    assert_eq!(write(&mut table, second.write), WriteResult::Conflict);
    let again = plan_activity(7, read(&table, 7)).unwrap();
    assert_eq!(write(&mut table, again.write), WriteResult::Applied);
    assert_eq!(table.get(&7), Some(&stored(1, 1)));
}

#[test]
fn two_handlers_at_a_threshold_announce_the_level_once() {
    let mut table = HashMap::new();
    table.insert(7, stored(9, 1));
    let first = plan_activity(7, read(&table, 7)).unwrap();
    let second = plan_activity(7, read(&table, 7)).unwrap();
    let mut replies = Vec::new();
    for plan in [first, second] {
        let mut plan = plan;
        loop {
            let answer = write(&mut table, plan.write);
            match settle_activity(plan.outcome, answer).unwrap() {
                Settled::Done { reply } => {
                    replies.extend(reply);
                    break;
                }
                Settled::ReadAgain => plan = plan_activity(7, read(&table, 7)).unwrap(),
            }
        }
    }
    assert_eq!(replies, vec![Reply::LevelUp { level: 2 }]);
    assert_eq!(table.get(&7), Some(&stored(1, 2)));
}

#[test]
fn thirty_one_events_reach_level_three() {
    let mut table = HashMap::new();
    let mut replies = Vec::new();
    for _ in 0..31 {
        replies.extend(handle(&mut table, 9));
    }
    assert_eq!(replies, vec![Reply::LevelUp { level: 2 }, Reply::LevelUp { level: 3 }]);
    assert_eq!(table.get(&9), Some(&stored(0, 3)));
}

#[test]
fn insert_may_apply_only_where_there_is_no_record() {
    let insert = StoreWrite::Insert { user: 7, record: stored(0, 1) };
    assert!(insert.may_apply(None));
    assert!(!insert.may_apply(Some(stored(0, 1))));
    assert!(!insert.may_apply(Some(stored(5, 3))));
}

#[test]
fn update_may_apply_only_to_the_expected_record() {
    let update = StoreWrite::Update { user: 7, expected: stored(3, 2), record: stored(4, 2) };
    assert!(update.may_apply(Some(stored(3, 2))));
    assert!(!update.may_apply(Some(stored(4, 2))));
    assert!(!update.may_apply(Some(stored(3, 3))));
    assert!(!update.may_apply(None));
}
