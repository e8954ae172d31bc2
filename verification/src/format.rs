//! Human-readable renderings of a play time and of the time since the last
//! launch.

use vstd::prelude::*;
use vstd::string::StringExecFns;
use std::time::SystemTime;
use std::time::UNIX_EPOCH;
use crate::decimal::decimal;
use crate::decimal::push_decimal;

verus! {

/// The text for a play time of `seconds` seconds: hours and minutes from
/// one hour on, whole minutes from one minute on, seconds below that.
pub open spec fn duration_text(seconds: nat) -> Seq<char> {
    let hours = seconds / 3600;
    let minutes = (seconds % 3600) / 60;
    if hours > 0 {
        decimal(hours) + "h "@ + decimal(minutes) + "m"@
    } else if minutes > 0 {
        decimal(minutes) + "m"@
    } else {
        decimal(seconds) + "s"@
    }
}

/// The text for an instant `timestamp_ms`, seen at the time `now_ms`, both
/// in milliseconds since the Unix epoch. The whole seconds that have passed
/// are reported in the coarsest unit of days, hours and minutes that is not
/// zero. Less than a minute is "Just now"; an instant that lies ahead of
/// `now_ms` has no elapsed time and is reported as "Recently".
pub open spec fn relative_time_text(timestamp_ms: int, now_ms: int) -> Seq<char> {
    if now_ms < timestamp_ms {
        "Recently"@
    } else {
        let elapsed = (now_ms - timestamp_ms) / 1000;
        if elapsed / 86400 > 0 {
            decimal((elapsed / 86400) as nat) + " days ago"@
        } else if elapsed / 3600 > 0 {
            decimal((elapsed / 3600) as nat) + " hours ago"@
        } else if elapsed / 60 > 0 {
            decimal((elapsed / 60) as nat) + " minutes ago"@
        } else {
            "Just now"@
        }
    }
}

/// Renders a play time given in seconds.
pub fn format_duration(seconds: u64) -> (r: String)
    ensures
        r@ == duration_text(seconds as nat),
{
    let hours: u64 = seconds / 3600;
    let minutes: u64 = (seconds % 3600) / 60;
    let mut out = String::new();
    if hours > 0 {
        push_decimal(&mut out, hours as u128);
        out.append("h ");
        push_decimal(&mut out, minutes as u128);
        out.append("m");
    } else if minutes > 0 {
        push_decimal(&mut out, minutes as u128);
        out.append("m");
    } else {
        push_decimal(&mut out, seconds as u128);
        out.append("s");
    }
    out
}

/// Renders the instant `timestamp_ms` relative to the time `now_ms`, both
/// in milliseconds since the Unix epoch.
pub fn format_timestamp_at(timestamp_ms: u64, now_ms: u128) -> (r: String)
    ensures
        r@ == relative_time_text(timestamp_ms as int, now_ms as int),
{
    if now_ms < timestamp_ms as u128 {
        return "Recently".to_owned();
    }
    let elapsed: u128 = (now_ms - timestamp_ms as u128) / 1000;
    let days: u128 = elapsed / 86400;
    let hours: u128 = elapsed / 3600;
    let minutes: u128 = elapsed / 60;
    let mut out = String::new();
    if days > 0 {
        push_decimal(&mut out, days);
        out.append(" days ago");
    } else if hours > 0 {
        push_decimal(&mut out, hours);
        out.append(" hours ago");
    } else if minutes > 0 {
        push_decimal(&mut out, minutes);
        out.append(" minutes ago");
    } else {
        out.append("Just now");
    }
    out
}

/// Reads the system clock with `SystemTime::now` and measures it from
/// `UNIX_EPOCH` with `duration_since`. The result is the time in whole
/// milliseconds, or `None` where the clock stands before the epoch. Nothing
/// is claimed of the value.
#[verifier::external_body]
fn millis_since_epoch() -> Option<u128> {
    match SystemTime::now().duration_since(UNIX_EPOCH) {
        Ok(elapsed) => Some(elapsed.as_millis()),
        Err(_) => None,
    }
}

/// Renders the instant `timestamp_ms`, in milliseconds since the Unix
/// epoch, relative to the system clock. Whatever the clock reads, the
/// result is the text for some time of observation; a clock that stands
/// before the epoch counts as a time before every instant.
pub fn format_timestamp(timestamp_ms: u64) -> (r: String)
    ensures
        exists|now_ms: int| r@ == relative_time_text(timestamp_ms as int, now_ms),
{
    match millis_since_epoch() {
        Some(now_ms) => {
            let out = format_timestamp_at(timestamp_ms, now_ms);
            assert(out@ == relative_time_text(timestamp_ms as int, now_ms as int));
            out
        },
        None => {
            assert("Recently"@ == relative_time_text(timestamp_ms as int, -1));
            "Recently".to_owned()
        },
    }
}

} // verus!
