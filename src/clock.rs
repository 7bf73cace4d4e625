//! The present instant and the local day of the week.

use vstd::prelude::*;

use crate::schedule::Weekday;

verus! {

/// An instant, in whole seconds since the Unix epoch, with the day of the
/// week that it falls on in the local time zone.
#[derive(Clone, Copy, Debug, PartialEq, Eq, Structural)]
pub struct LocalInstant {
    pub secs: i64,
    pub weekday: Weekday,
}

/// Relies on `SystemTime::now` measured from `UNIX_EPOCH`, then on chrono's
/// `DateTime::from_timestamp`, `with_timezone(&Local)` and
/// `Datelike::weekday`: the present instant and its local day of the week.
/// `None` when the clock reads before 1970 or past what chrono represents;
/// chrono's time-zone lookup succeeds on every instant that it represents.
/// Nothing more is promised: the result depends on the clock and the zone.
#[verifier::external_body]
pub(crate) fn local_now() -> (r: Option<LocalInstant>) {
    let since = std::time::SystemTime::now().duration_since(std::time::UNIX_EPOCH).ok()?;
    let utc = chrono::DateTime::from_timestamp(i64::try_from(since.as_secs()).ok()?, 0)?;
    let t = utc.with_timezone(&chrono::Local);
    let weekday = match chrono::Datelike::weekday(&t) {
        chrono::Weekday::Mon => Weekday::Mon,
        chrono::Weekday::Tue => Weekday::Tue,
        chrono::Weekday::Wed => Weekday::Wed,
        chrono::Weekday::Thu => Weekday::Thu,
        chrono::Weekday::Fri => Weekday::Fri,
        chrono::Weekday::Sat => Weekday::Sat,
        chrono::Weekday::Sun => Weekday::Sun,
    };
    Some(LocalInstant { secs: t.timestamp(), weekday })
}

} // verus!
