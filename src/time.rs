//! How long ago something happened, in the largest whole unit that fits.

use vstd::prelude::*;
use crate::text::{signed_decimal, signed_text};
use vstd::string::StringExecFns;

verus! {

/// A point in time, in milliseconds since the Unix epoch (UTC).
#[derive(Debug, Clone, Copy, PartialEq, Eq, Structural)]
pub struct Timestamp {
    pub millis: i64,
}

/// Relies on chrono's Utc::now (as milliseconds since the epoch): the
/// system clock; nothing is known of its value.
#[verifier::external_body]
fn clock_millis() -> i64 {
    chrono::Utc::now().timestamp_millis()
}

impl Timestamp {
    /// The current time.
    pub fn now() -> Timestamp {
        Timestamp { millis: clock_millis() }
    }
}

/// Whole seconds in `ms` milliseconds, rounded toward zero.
pub open spec fn whole_seconds(ms: int) -> int {
    if ms >= 0 {
        ms / 1000
    } else {
        -((-ms) / 1000)
    }
}

/// The text for an interval of `ms` milliseconds: seconds under a minute
/// (negative intervals included), then minutes, hours, days, and weeks
/// from seven days on.
pub open spec fn ago_text(ms: int) -> Seq<char> {
    let s = whole_seconds(ms);
    if s < 60 {
        signed_text(s) + "s ago"@
    } else if s / 60 < 60 {
        signed_text(s / 60) + "m ago"@
    } else if s / 3600 < 24 {
        signed_text(s / 3600) + "h ago"@
    } else if s / 86400 < 7 {
        signed_text(s / 86400) + "d ago"@
    } else {
        signed_text(s / 86400 / 7) + "w ago"@
    }
}

/// The text for the time from `then` to `now`, both in milliseconds.
pub open spec fn ago_since(then: int, now: int) -> Seq<char> {
    ago_text(now - then)
}

/// How long before `now` the time `then` was.
pub fn ago_between(then: Timestamp, now: Timestamp) -> (r: String)
    ensures
        r@ == ago_text(now.millis - then.millis),
{
    let ms: i128 = now.millis as i128 - then.millis as i128;
    let s: i128 = if ms >= 0 {
        ms / 1000
    } else {
        -((-ms) / 1000)
    };
    let (n, unit): (i128, &'static str) = if s < 60 {
        (s, "s ago")
    } else if s / 60 < 60 {
        (s / 60, "m ago")
    } else if s / 3600 < 24 {
        (s / 3600, "h ago")
    } else if s / 86400 < 7 {
        (s / 86400, "d ago")
    } else {
        (s / 86400 / 7, "w ago")
    };
    let mut text = signed_decimal(n as i64);
    text.append(unit);
    text
}

/// Shows a time as how long ago it was.
pub trait TimeDisplay {
    fn time_ago(&self) -> String;
}

impl TimeDisplay for Timestamp {
    fn time_ago(&self) -> String {
        ago_between(*self, Timestamp::now())
    }
}

/// How long ago `t` was, by the clock at the call.
pub fn time_ago(t: &Timestamp) -> (r: String)
    ensures
        exists|now: int| r@ == #[trigger] ago_since(t.millis as int, now),
{
    let now = Timestamp::now();
    let r = ago_between(*t, now);
    assert(r@ == ago_since(t.millis as int, now.millis as int));
    r
}

} // verus!
