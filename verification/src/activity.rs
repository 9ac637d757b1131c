//! Counting an activity event against the store.
//!
//! The caller reads the user's record, asks [`plan_activity`] what to write,
//! hands the write to the store, and asks [`settle_activity`] what the store's
//! answer means: done, with or without an announcement, or read again.

use crate::notice::Notice;
use crate::progress::{
    after_activity, events_counted, law_event_counts_once, law_replay_counts_twice, on_activity,
    ActivityOutcome, UserProgress,
};
use crate::reply::Reply;
use crate::store::{fetched_from, record_of, Fetched, ProgressTable, StoreWrite, WriteResult};
use vstd::prelude::*;

verus! {

/// The write that counts one activity event, and what the event did.
#[derive(Clone, Copy, Debug, PartialEq, Eq, Structural)]
pub struct ActivityPlan {
    pub write: StoreWrite,
    pub outcome: ActivityOutcome,
}

/// What remains to be done once the store has answered a planned write.
#[derive(Clone, Copy, Debug, PartialEq, Eq, Structural)]
pub enum Settled {
    /// The event is counted. `reply` is the announcement to send, if any.
    Done { reply: Option<Reply> },
    /// Somebody else wrote first: read the record again and plan anew.
    ReadAgain,
}

/// What [`plan_activity`] returns.
pub open spec fn planned(user: u64, fetched: Fetched<UserProgress>) -> Result<
    ActivityPlan,
    Notice,
> {
    match fetched {
        Fetched::Unavailable => Err(Notice::StoreUnavailable),
        Fetched::Missing => Ok(
            ActivityPlan {
                write: StoreWrite::Insert { user, record: after_activity(None) },
                outcome: ActivityOutcome { progress: after_activity(None), leveled_up: false },
            },
        ),
        Fetched::Found(record) => if record.can_advance() {
            Ok(
                ActivityPlan {
                    write: StoreWrite::Update {
                        user,
                        expected: record,
                        record: after_activity(Some(record)),
                    },
                    outcome: ActivityOutcome {
                        progress: after_activity(Some(record)),
                        leveled_up: record.levels_up(),
                    },
                },
            )
        } else {
            Err(Notice::PointOverflow)
        },
    }
}

/// What [`settle_activity`] returns.
pub open spec fn settled(outcome: ActivityOutcome, answer: WriteResult) -> Result<
    Settled,
    Notice,
> {
    match answer {
        WriteResult::Applied => Ok(
            Settled::Done {
                reply: if outcome.leveled_up {
                    Some(Reply::LevelUp { level: outcome.progress.level })
                } else {
                    None
                },
            },
        ),
        WriteResult::Conflict => Ok(Settled::ReadAgain),
        WriteResult::Unavailable => Err(Notice::StoreUnavailable),
    }
}

/// Decides what to write for one activity event of `user`, given what the
/// store returned for their record.
///
/// No record: insert one at level 1 with no points, and announce nothing.
/// A record: replace it by the advanced one, on condition that it is still
/// the record that was read. The event is dropped, with a notice, where the
/// store did not answer or the point counter cannot be incremented.
pub fn plan_activity(user: u64, fetched: Fetched<UserProgress>) -> (plan: Result<
    ActivityPlan,
    Notice,
>)
    ensures
        plan == planned(user, fetched),
        plan is Ok ==> plan->Ok_0.outcome.progress.well_formed(),
        plan is Ok ==> plan->Ok_0.write.user() == user && plan->Ok_0.write.record()
            == plan->Ok_0.outcome.progress,
{
    let prior = match fetched {
        Fetched::Unavailable => { return Err(Notice::StoreUnavailable); },
        Fetched::Missing => None,
        Fetched::Found(record) => Some(record),
    };
    match on_activity(prior) {
        Err(_) => Err(Notice::PointOverflow),
        Ok(outcome) => {
            let write = match prior {
                None => StoreWrite::Insert { user, record: outcome.progress },
                Some(expected) => StoreWrite::Update { user, expected, record: outcome.progress },
            };
            Ok(ActivityPlan { write, outcome })
        },
    }
}

/// Decides what the store's answer to a planned write means.
///
/// Applied: the event is counted, and a level-up is announced exactly once.
/// Conflict: nothing was written, so nothing is announced and the caller
/// starts over from the lookup. No answer: the event is dropped with a notice.
pub fn settle_activity(outcome: ActivityOutcome, answer: WriteResult) -> (next: Result<
    Settled,
    Notice,
>)
    ensures
        next == settled(outcome, answer),
{
    match answer {
        WriteResult::Applied => {
            let reply = if outcome.leveled_up {
                Some(Reply::LevelUp { level: outcome.progress.level })
            } else {
                None
            };
            Ok(Settled::Done { reply })
        },
        WriteResult::Conflict => Ok(Settled::ReadAgain),
        WriteResult::Unavailable => Err(Notice::StoreUnavailable),
    }
}

/// One activity event from the lookup to the announcement, on a store that
/// takes the write. A user without a record gets one at level 1 and hears
/// nothing. A user whose next point stays below the threshold gains that
/// point and hears nothing. A user whose next point reaches the threshold
/// rises a level, starts again without points, and hears of it once.
pub proof fn law_one_event_start_to_end(user: u64, fetched: Fetched<UserProgress>)
    requires
        planned(user, fetched) is Ok,
    ensures
        ({
            let plan = planned(user, fetched)->Ok_0;
            let end = settled(plan.outcome, WriteResult::Applied);
            &&& fetched is Missing ==> plan.write == (StoreWrite::Insert {
                user,
                record: UserProgress { point: 0, level: 1 },
            }) && end == Ok::<Settled, Notice>(Settled::Done { reply: None })
            &&& fetched matches Fetched::Found(record) ==> (record.point + 1 < record.level * 10
                ==> record.point + 1 <= u64::MAX && plan.write == (StoreWrite::Update {
                user,
                expected: record,
                record: UserProgress { point: (record.point + 1) as u64, level: record.level },
            }) && end == Ok::<Settled, Notice>(Settled::Done { reply: None }))
            &&& fetched matches Fetched::Found(record) ==> (record.point + 1 >= record.level * 10
                ==> record.level + 1 <= u64::MAX && plan.write == (StoreWrite::Update {
                user,
                expected: record,
                record: UserProgress { point: 0, level: (record.level + 1) as u64 },
            }) && end == Ok::<Settled, Notice>(
                Settled::Done { reply: Some(Reply::LevelUp { level: (record.level + 1) as u64 }) },
            ))
        }),
{
}

/// A write planned from what the table holds takes effect on that table, puts
/// the user one event further, and leaves every other user's record alone.
pub proof fn law_planned_write_applies(table: ProgressTable, user: u64)
    requires
        planned(user, fetched_from(table, user)) is Ok,
        record_of(table, user) is Some ==> record_of(table, user)->Some_0.well_formed(),
    ensures
        ({
            let plan = planned(user, fetched_from(table, user))->Ok_0;
            let after = plan.write.applied(table);
            &&& plan.write.answer(table) == WriteResult::Applied
            &&& record_of(after, user) == Some(after_activity(record_of(table, user)))
            &&& events_counted(record_of(after, user)) == events_counted(record_of(table, user))
                + 1
            &&& forall|other: u64| other != user ==> record_of(after, other) == record_of(
                table,
                other,
            )
        }),
{
    law_event_counts_once(record_of(table, user));
}

/// Two handlers that read the same state of a user cannot both write over it:
/// once the first write is in, the second is refused and changes nothing.
/// Planned again from what the table then holds, it takes effect, and the
/// user stands two events further: no event is lost and none is absorbed.
pub proof fn law_concurrent_events_both_count(table: ProgressTable, user: u64)
    requires
        planned(user, fetched_from(table, user)) is Ok,
        record_of(table, user) is Some ==> record_of(table, user)->Some_0.well_formed(),
        after_activity(record_of(table, user)).can_advance(),
    ensures
        ({
            let first = planned(user, fetched_from(table, user))->Ok_0;
            let second = first;
            let once = first.write.applied(table);
            let again = planned(user, fetched_from(once, user));
            &&& second.write.answer(once) == WriteResult::Conflict
            &&& second.write.applied(once) == once
            &&& settled(second.outcome, WriteResult::Conflict) == Ok::<Settled, Notice>(
                Settled::ReadAgain,
            )
            &&& again is Ok
            &&& again->Ok_0.write.answer(once) == WriteResult::Applied
            &&& events_counted(record_of(again->Ok_0.write.applied(once), user))
                == events_counted(record_of(table, user)) + 2
        }),
{
    let first = planned(user, fetched_from(table, user))->Ok_0;
    let once = first.write.applied(table);
    law_planned_write_applies(table, user);
    law_replay_counts_twice(record_of(table, user));
    law_planned_write_applies(once, user);
}

} // verus!
