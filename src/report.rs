//! Evaluation of every task in a schedule store, and the lines reported.

use vstd::prelude::*;

use crate::clock::local_now;
use crate::schedule::{
    check_interval,
    elapsed_seconds,
    satisfied,
    schedule_of,
    RawValue,
    RawValueView,
    ScheduleError,
    Weekday,
};
use crate::store::ScheduleStore;

verus! {

/// The outcome for one task.
#[derive(Clone, Copy, Debug, PartialEq, Eq, Structural)]
pub enum TaskStatus {
    /// Completed within its cadence.
    Satisfied,
    /// Completed, but longer ago than its cadence allows.
    Overdue,
    /// Its marker file is absent: never completed.
    Missing,
    /// Its declared cadence is not a schedule.
    Misconfigured(ScheduleError),
}

/// The status of a task declared as `v` whose marker was last modified at
/// `last` (`None`: no marker), evaluated at `now` on a day that is `today`.
pub open spec fn task_status(v: RawValueView, last: Option<i64>, now: i64, today: Weekday) -> TaskStatus {
    match last {
        None => TaskStatus::Missing,
        Some(t) => match schedule_of(v) {
            Err(e) => TaskStatus::Misconfigured(e),
            Ok(s) => if satisfied(elapsed_seconds(t as int, now as int), s, today) {
                TaskStatus::Satisfied
            } else {
                TaskStatus::Overdue
            },
        },
    }
}

/// The status of every task of `store`, given the marker times `observed`
/// in the same order.
pub open spec fn statuses_of(
    store: Seq<(Seq<char>, RawValueView)>,
    observed: Seq<Option<i64>>,
    now: i64,
    today: Weekday,
) -> Seq<TaskStatus> {
    Seq::new(store.len(), |i: int| task_status(store[i].1, observed[i], now, today))
}

/// Every task is satisfied.
pub open spec fn all_ok(statuses: Seq<TaskStatus>) -> bool {
    forall|i: int| 0 <= i < statuses.len() ==> (#[trigger] statuses[i]) is Satisfied
}

/// The words that say why a cadence is not a schedule.
pub open spec fn error_reason(e: ScheduleError) -> Seq<char> {
    match e {
        ScheduleError::NegativeInterval => "negative interval"@,
        ScheduleError::IntervalOverflow => "interval too long"@,
        ScheduleError::UnknownCadence => "unknown cadence"@,
        ScheduleError::UnsupportedValue => "unsupported value"@,
    }
}

/// The line reported for one task.
pub open spec fn status_text(name: Seq<char>, status: TaskStatus) -> Seq<char> {
    match status {
        TaskStatus::Satisfied => name + ": ok"@,
        TaskStatus::Overdue => name + ": not_ok"@,
        TaskStatus::Missing => name + ": missing"@,
        TaskStatus::Misconfigured(e) => name + ": not_ok ("@ + error_reason(e) + ")"@,
    }
}

/// The final line: `ok` when every task is satisfied, else `not_ok`.
pub open spec fn summary_text(statuses: Seq<TaskStatus>) -> Seq<char> {
    if all_ok(statuses) {
        "ok"@
    } else {
        "not_ok"@
    }
}

/// Every line reported: one per task unless `quiet`, then the summary.
pub open spec fn report_text(
    store: Seq<(Seq<char>, RawValueView)>,
    statuses: Seq<TaskStatus>,
    quiet: bool,
) -> Seq<Seq<char>> {
    if quiet {
        seq![summary_text(statuses)]
    } else {
        Seq::new(store.len(), |i: int| status_text(store[i].0, statuses[i])).push(
            summary_text(statuses),
        )
    }
}

/// The strings of `lines` are those of `text`.
pub open spec fn lines_are(lines: Seq<String>, text: Seq<Seq<char>>) -> bool {
    lines.len() == text.len() && forall|i: int| 0 <= i < lines.len() ==> (#[trigger] lines[i])@
        == text[i]
}

/// Evaluates one task.
pub fn evaluate_task(v: &RawValue, last: Option<i64>, now: i64, today: Weekday) -> (r: TaskStatus)
    ensures
        r == task_status(v@, last, now, today),
{
    match last {
        None => TaskStatus::Missing,
        Some(t) => match check_interval(t, v, now, today) {
            Err(e) => TaskStatus::Misconfigured(e),
            Ok(true) => TaskStatus::Satisfied,
            Ok(false) => TaskStatus::Overdue,
        },
    }
}

/// Evaluates every task of `store`; `observed[i]` is the modification time
/// of the marker of task `i`, or `None` when it has none.
pub fn evaluate_all(store: &ScheduleStore, observed: &Vec<Option<i64>>, now: i64, today: Weekday) -> (r: Vec<TaskStatus>)
    requires
        observed@.len() == store@.len(),
    ensures
        r@ == statuses_of(store@, observed@, now, today),
{
    let n = store.len();
    let mut out: Vec<TaskStatus> = Vec::new();
    let mut i: usize = 0;
    while i < n
        invariant
            n == store@.len(),
            observed@.len() == n,
            i <= n,
            out@.len() == i,
            forall|j: int| 0 <= j < i ==> out@[j] == task_status(store@[j].1, observed@[j], now, today),
        decreases n - i,
    {
        let status = evaluate_task(store.value(i), observed[i], now, today);
        out.push(status);
        i = i + 1;
    }
    assert(out@ =~= statuses_of(store@, observed@, now, today));
    out
}

/// Tells whether every task is satisfied.
pub fn all_satisfied(statuses: &Vec<TaskStatus>) -> (r: bool)
    ensures
        r == all_ok(statuses@),
{
    let mut i: usize = 0;
    while i < statuses.len()
        invariant
            i <= statuses@.len(),
            forall|j: int| 0 <= j < i ==> (#[trigger] statuses@[j]) is Satisfied,
        decreases statuses@.len() - i,
    {
        match statuses[i] {
            TaskStatus::Satisfied => {},
            _ => {
                return false;
            },
        }
        i = i + 1;
    }
    true
}

/// The words that say why a cadence is not a schedule.
pub fn reason(e: ScheduleError) -> (r: String)
    ensures
        r@ == error_reason(e),
{
    match e {
        ScheduleError::NegativeInterval => String::from_str("negative interval"),
        ScheduleError::IntervalOverflow => String::from_str("interval too long"),
        ScheduleError::UnknownCadence => String::from_str("unknown cadence"),
        ScheduleError::UnsupportedValue => String::from_str("unsupported value"),
    }
}

/// The line reported for the task `name`.
pub fn status_line(name: &String, status: TaskStatus) -> (r: String)
    ensures
        r@ == status_text(name@, status),
{
    let mut line = name.clone();
    match status {
        TaskStatus::Satisfied => line.append(": ok"),
        TaskStatus::Overdue => line.append(": not_ok"),
        TaskStatus::Missing => line.append(": missing"),
        TaskStatus::Misconfigured(e) => {
            line.append(": not_ok (");
            let why = reason(e);
            line.append(why.as_str());
            line.append(")");
        },
    }
    line
}

/// Every line to report for `statuses`, the outcomes of the tasks of `store`
/// in its order. In quiet mode that is the summary alone.
pub fn report_lines(store: &ScheduleStore, statuses: &Vec<TaskStatus>, quiet: bool) -> (r: Vec<String>)
    requires
        statuses@.len() == store@.len(),
    ensures
        lines_are(r@, report_text(store@, statuses@, quiet)),
        quiet ==> r@.len() == 1 && (r@[0]@ == "ok"@ || r@[0]@ == "not_ok"@),
{
    let mut lines: Vec<String> = Vec::new();
    if !quiet {
        let mut i: usize = 0;
        while i < statuses.len()
            invariant
                statuses@.len() == store@.len(),
                i <= statuses@.len(),
                lines@.len() == i,
                forall|j: int| 0 <= j < i ==> (#[trigger] lines@[j])@ == status_text(store@[j].0, statuses@[j]),
            decreases statuses@.len() - i,
        {
            let line = status_line(store.name(i), statuses[i]);
            lines.push(line);
            i = i + 1;
        }
    }
    let summary = if all_satisfied(statuses) {
        String::from_str("ok")
    } else {
        String::from_str("not_ok")
    };
    lines.push(summary);
    lines
}

/// What one check of every task produced.
pub struct CheckOutcome {
    /// The lines to print, in order.
    pub lines: Vec<String>,
    /// Every task was satisfied.
    pub all_satisfied: bool,
}

/// Checks every task of `store` at the present instant, on the present local
/// day; `observed[i]` is the modification time of the marker of task `i`.
/// `None` when the clock cannot be read.
pub fn run_check(store: &ScheduleStore, observed: &Vec<Option<i64>>, quiet: bool) -> (r: Option<
    CheckOutcome,
>)
    requires
        observed@.len() == store@.len(),
    ensures
        match r {
            Some(outcome) => exists|now: i64, today: Weekday|
                {
                    let st = #[trigger] statuses_of(store@, observed@, now, today);
                    lines_are(outcome.lines@, report_text(store@, st, quiet))
                        && outcome.all_satisfied == all_ok(st)
                },
            None => true,
        },
{
    match local_now() {
        Some(present) => {
            let statuses = evaluate_all(store, observed, present.secs, present.weekday);
            let lines = report_lines(store, &statuses, quiet);
            let ok = all_satisfied(&statuses);
            Some(CheckOutcome { lines, all_satisfied: ok })
        },
        None => None,
    }
}

} // verus!
