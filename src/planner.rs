//! The fetch range of an asset, from its watermark.

use vstd::prelude::*;
use crate::calendar::{days_earlier, Date, Timestamp};

verus! {

/// Days re-fetched before the watermark, to pick up late corrections.
pub const LOOKBACK_DAYS: u16 = 30;

/// The date `n` days before `d`, as the calendar gives it.
pub open spec fn date_before(d: Date, n: nat) -> Date {
    let t = days_earlier(d.year as int, d.month as int, d.day as int, n as int);
    Date { year: t.0 as i32, month: t.1 as u8, day: t.2 as u8 }
}

/// The range to fetch: none where the asset was never fetched (the provider's
/// default history) or is current; else from midnight UTC of the watermark
/// less the lookback, to `now`.
pub open spec fn planned_range(now: Timestamp, last_updated: Option<Date>) -> Option<(Timestamp, Timestamp)> {
    match last_updated {
        None => None,
        Some(d) => if d == now.date {
            None
        } else {
            Some((
                Timestamp {
                    date: date_before(d, LOOKBACK_DAYS as nat),
                    hour: 0,
                    minute: 0,
                    second: 0,
                    nanosecond: 0,
                    offset_minutes: 0,
                },
                now,
            ))
        },
    }
}

/// Plans the fetch range of an asset whose watermark is `last_updated`.
pub fn plan_range(now: Timestamp, last_updated: Option<Date>) -> (r: Option<(Timestamp, Timestamp)>)
    requires
        now.wf(),
        last_updated matches Some(d) ==> d.wf(),
    ensures
        r == planned_range(now, last_updated),
        r matches Some((from, to)) ==> from.wf() && to.wf(),
{
    let last = match last_updated {
        None => return None,
        Some(d) => d,
    };
    if last == now.date {
        return None;
    }
    let from = last.days_before(LOOKBACK_DAYS);
    Some((Timestamp::start_of_day(from), now))
}

} // verus!
