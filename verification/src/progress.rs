//! Activity points and levels of one user.
//!
//! Every activity event adds one point. A user at level `L` leaves that level
//! when the points reach `L * 10`: the level rises by one and the points start
//! again at zero.

use vstd::prelude::*;

verus! {

/// Points that one level costs, per level already reached.
pub const POINTS_PER_LEVEL: u64 = 10;

/// The stored progress of one user.
///
/// The fields are public because records come from a store that this crate
/// does not control: every function here accepts any record, and every record
/// it hands out is [`UserProgress::well_formed`].
#[derive(Clone, Copy, Debug, PartialEq, Eq, Structural)]
pub struct UserProgress {
    pub point: u64,
    pub level: u64,
}

/// What one activity event did to a user's record.
#[derive(Clone, Copy, Debug, PartialEq, Eq, Structural)]
pub struct ActivityOutcome {
    /// The record to persist.
    pub progress: UserProgress,
    /// Whether the event carried the user into the next level.
    pub leveled_up: bool,
}

/// Why an activity event could not be counted.
#[derive(Clone, Copy, Debug, PartialEq, Eq, Structural)]
pub enum ProgressError {
    /// The point counter is at the largest value it can hold and the level's
    /// threshold lies beyond it.
    PointOverflow,
}

impl UserProgress {
    /// The number of points at which this record's level is left behind.
    pub open spec fn threshold(self) -> int {
        self.level * POINTS_PER_LEVEL
    }

    /// What holds of every record that an update has written.
    pub open spec fn well_formed(self) -> bool {
        self.level >= 1 && self.point < self.threshold()
    }

    /// Whether one more point reaches the threshold.
    pub open spec fn levels_up(self) -> bool {
        self.point + 1 >= self.threshold()
    }

    /// Whether one more activity event can be counted on this record.
    pub open spec fn can_advance(self) -> bool {
        self.levels_up() || self.point < u64::MAX
    }

    /// The record after one more activity event.
    pub open spec fn advanced(self) -> UserProgress {
        if self.levels_up() {
            UserProgress { point: 0, level: (self.level + 1) as u64 }
        } else {
            UserProgress { point: (self.point + 1) as u64, level: self.level }
        }
    }

    /// The number of activity events that a well-formed record stands for,
    /// the one that created it included: ten for each step of every level
    /// that was left behind, the points of the current level, and one.
    pub open spec fn events_counted(self) -> int {
        5 * self.level * (self.level - 1) + self.point + 1
    }

    /// The record that a user's first observed activity creates.
    pub fn first() -> (record: UserProgress)
        ensures
            record == (UserProgress { point: 0, level: 1 }),
            record.well_formed(),
    {
        UserProgress { point: 0, level: 1 }
    }

    /// Whether one more point reaches the threshold of this record's level.
    pub fn reaches_threshold(&self) -> (reached: bool)
        ensures
            reached == self.levels_up(),
    {
        match self.level.checked_mul(POINTS_PER_LEVEL) {
            Some(threshold) => self.point >= threshold || self.point + 1 >= threshold,
            None => false,
        }
    }

    /// Counts one activity event on an existing record.
    ///
    /// The event fails to count only where the incremented point counter would
    /// not fit its type: then `point` is `u64::MAX` and the threshold lies
    /// above it.
    pub fn advance(&self) -> (result: Result<ActivityOutcome, ProgressError>)
        ensures
            self.levels_up() ==> result == Ok::<ActivityOutcome, ProgressError>(
                ActivityOutcome {
                    progress: UserProgress { point: 0, level: (self.level + 1) as u64 },
                    leveled_up: true,
                },
            ),
            self.levels_up() ==> self.level + 1 <= u64::MAX,
            !self.levels_up() && self.point < u64::MAX ==> result == Ok::<
                ActivityOutcome,
                ProgressError,
            >(
                ActivityOutcome {
                    progress: UserProgress { point: (self.point + 1) as u64, level: self.level },
                    leveled_up: false,
                },
            ),
            !self.levels_up() && self.point == u64::MAX ==> result == Err::<
                ActivityOutcome,
                ProgressError,
            >(ProgressError::PointOverflow),
            result is Ok ==> result->Ok_0.progress == self.advanced(),
            result is Ok ==> result->Ok_0.progress.well_formed(),
    {
        if self.reaches_threshold() {
            Ok(
                ActivityOutcome {
                    progress: UserProgress { point: 0, level: self.level + 1 },
                    leveled_up: true,
                },
            )
        } else if self.point < u64::MAX {
            Ok(
                ActivityOutcome {
                    progress: UserProgress { point: self.point + 1, level: self.level },
                    leveled_up: false,
                },
            )
        } else {
            Err(ProgressError::PointOverflow)
        }
    }
}

/// What one activity event means for a user, given the record that the store
/// holds for them, if any.
pub open spec fn after_activity(prior: Option<UserProgress>) -> UserProgress {
    match prior {
        None => UserProgress { point: 0, level: 1 },
        Some(record) => record.advanced(),
    }
}

/// The number of activity events that a user's stored state stands for.
pub open spec fn events_counted(state: Option<UserProgress>) -> int {
    match state {
        None => 0,
        Some(record) => record.events_counted(),
    }
}

/// Counts one activity event for a user.
///
/// A user without a record gets a fresh one at level 1 and no level-up is
/// signalled. A user with a record gains a point; where that point reaches
/// the threshold of their level, they rise a level, start again without
/// points, and the level-up is signalled. The event is refused only where the
/// point counter is full and the threshold is out of its reach.
pub fn on_activity(prior: Option<UserProgress>) -> (result: Result<ActivityOutcome, ProgressError>)
    ensures
        prior is None ==> result == Ok::<ActivityOutcome, ProgressError>(
            ActivityOutcome { progress: UserProgress { point: 0, level: 1 }, leveled_up: false },
        ),
        prior matches Some(record) ==> (record.point + 1 < record.level * 10 && record.point
            < u64::MAX ==> result == Ok::<ActivityOutcome, ProgressError>(
            ActivityOutcome {
                progress: UserProgress { point: (record.point + 1) as u64, level: record.level },
                leveled_up: false,
            },
        )),
        prior matches Some(record) ==> (record.point + 1 >= record.level * 10 ==> result == Ok::<
            ActivityOutcome,
            ProgressError,
        >(
            ActivityOutcome {
                progress: UserProgress { point: 0, level: (record.level + 1) as u64 },
                leveled_up: true,
            },
        )),
        prior matches Some(record) ==> (record.point + 1 < record.level * 10 && record.point
            == u64::MAX ==> result == Err::<ActivityOutcome, ProgressError>(
            ProgressError::PointOverflow,
        )),
        result is Ok ==> result->Ok_0.progress == after_activity(prior),
        result is Ok ==> result->Ok_0.progress.well_formed(),
{
    match prior {
        None => Ok(ActivityOutcome { progress: UserProgress::first(), leveled_up: false }),
        Some(record) => record.advance(),
    }
}

/// Every record that an activity event leaves behind is well formed, whatever
/// was there before.
pub proof fn law_every_update_is_well_formed(state: Option<UserProgress>)
    requires
        state matches Some(record) ==> record.can_advance(),
    ensures
        after_activity(state).well_formed(),
{
}

/// Every activity event counts exactly once: the state after the event stands
/// for one event more than a well-formed state before it.
pub proof fn law_event_counts_once(state: Option<UserProgress>)
    requires
        state matches Some(record) ==> record.well_formed() && record.can_advance(),
    ensures
        events_counted(Some(after_activity(state))) == events_counted(state) + 1,
{
    match state {
        None => {
            let level = after_activity(state).level as int;
            assert(5 * level * (level - 1) == 0) by (nonlinear_arith)
                requires
                    level == 1,
            ;
        },
        Some(record) => {
            let level = record.level as int;
            let next = record.advanced();
            if record.levels_up() {
                assert(record.point + 1 == level * 10);
                assert(next.level == level + 1 && next.point == 0);
                assert(5 * (level + 1) * ((level + 1) - 1) == 5 * level * (level - 1) + level
                    * 10) by (nonlinear_arith);
                assert(next.events_counted() == record.events_counted() + 1);
            } else {
                assert(next.level == level && next.point == record.point + 1);
                assert(next.events_counted() == record.events_counted() + 1);
            }
        },
    }
}

/// The same activity event delivered twice counts twice. Whatever the state
/// before, the second delivery is not absorbed: it changes the state again
/// and adds one more event. From a well-formed state, or from none, the two
/// deliveries together add two.
pub proof fn law_replay_counts_twice(state: Option<UserProgress>)
    requires
        state matches Some(record) ==> record.can_advance(),
        after_activity(state).can_advance(),
    ensures
        after_activity(Some(after_activity(state))) != after_activity(state),
        events_counted(Some(after_activity(Some(after_activity(state))))) == events_counted(
            Some(after_activity(state)),
        ) + 1,
        (state matches Some(record) ==> record.well_formed()) ==> events_counted(
            Some(after_activity(Some(after_activity(state)))),
        ) == events_counted(state) + 2,
{
    law_every_update_is_well_formed(state);
    law_event_counts_once(Some(after_activity(state)));
    if state matches Some(record) ==> record.well_formed() {
        law_event_counts_once(state);
    }
}

/// The point counter cannot fill up below level 1844674407370955162: up to
/// there, every well-formed record can take the next event.
pub proof fn law_overflow_is_out_of_reach(record: UserProgress)
    requires
        record.well_formed(),
        record.level <= u64::MAX / 10,
    ensures
        record.can_advance(),
{
}

} // verus!
