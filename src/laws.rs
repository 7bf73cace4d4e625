//! Properties that relate the evaluation of tasks to their declarations.

use vstd::prelude::*;

use crate::report::{task_status, TaskStatus};
use crate::schedule::{schedule_of, weekdays_word, RawValueView, Schedule, ScheduleError, Weekday};

verus! {

/// A symbolic cadence other than `weekdays` makes a task misconfigured, an
/// outcome apart from being overdue, whatever the times and the day.
pub proof fn lemma_unknown_cadence_reported(s: Seq<char>, last: i64, now: i64, today: Weekday)
    requires
        s != weekdays_word(),
    ensures
        task_status(RawValueView::Text(s), Some(last), now, today) == TaskStatus::Misconfigured(
            ScheduleError::UnknownCadence,
        ),
        task_status(RawValueView::Text(s), Some(last), now, today) != TaskStatus::Overdue,
{
}

/// A task whose marker was touched less than a day before the evaluation is
/// satisfied, provided its cadence is `weekdays` or an interval of at least
/// one day.
pub proof fn lemma_touched_task_satisfied(v: RawValueView, touched: i64, now: i64, today: Weekday)
    requires
        schedule_of(v) is Ok,
        schedule_of(v)->Ok_0 is Interval ==> schedule_of(v)->Ok_0->days >= 1,
        now < touched + 86400,
    ensures
        task_status(v, Some(touched), now, today) == TaskStatus::Satisfied,
{
    let s = schedule_of(v)->Ok_0;
    if let Schedule::Interval { days } = s {
        assert(days * 86400 >= 86400) by (nonlinear_arith)
            requires
                days >= 1,
        ;
    }
}

} // verus!
