//! Call-duration display.

use vstd::prelude::*;
use crate::text::{pad2, push_pad2};

verus! {

/// `a / b` as Rust computes it on signed integers: rounded toward zero (`b > 0`).
pub open spec fn tdiv(a: int, b: int) -> int {
    if a >= 0 { a / b } else { -((-a) / b) }
}

/// `a % b` as Rust computes it on signed integers: it takes the sign of `a` (`b > 0`).
pub open spec fn trem(a: int, b: int) -> int {
    if a >= 0 { a % b } else { -((-a) % b) }
}

/// Whole hours of a span of `secs` seconds.
pub open spec fn clock_hours(secs: int) -> int {
    tdiv(secs, 3600)
}

/// Minutes past the whole hours.
pub open spec fn clock_minutes(secs: int) -> int {
    tdiv(trem(secs, 3600), 60)
}

/// Seconds past the whole minutes.
pub open spec fn clock_seconds(secs: int) -> int {
    trem(secs, 60)
}

/// The text shown for a span of `secs` seconds: `时间: HH:MM:SS` when it lasts
/// an hour or more, `时间: MM:SS` otherwise, each field as `{:02}` prints it.
pub open spec fn clock_text(secs: int) -> Seq<char> {
    let h = clock_hours(secs);
    let m = clock_minutes(secs);
    let s = clock_seconds(secs);
    if h > 0 {
        "时间: "@ + pad2(h) + ":"@ + pad2(m) + ":"@ + pad2(s)
    } else {
        "时间: "@ + pad2(m) + ":"@ + pad2(s)
    }
}

/// Whole seconds of a span of `millis` milliseconds, through
/// `chrono::Duration::milliseconds(millis).num_seconds()`.
///
/// Claimed of chrono: `milliseconds` accepts every value from `-i64::MAX` on (it
/// panics on `i64::MIN` only), and `num_seconds` gives the whole seconds rounded
/// toward zero.
#[verifier::external_body]
fn whole_seconds(millis: i64) -> (secs: i64)
    requires
        millis > i64::MIN,
    ensures
        secs as int == tdiv(millis as int, 1000),
{
    chrono::Duration::milliseconds(millis).num_seconds()
}

/// Formats a call duration given in milliseconds.
pub fn format_milliseconds(millis: i64) -> (text: String)
    requires
        millis > i64::MIN,
    ensures
        text@ == clock_text(tdiv(millis as int, 1000)),
{
    let secs = whole_seconds(millis);
    proof {
        assert(-10_000_000_000_000_000 < secs < 10_000_000_000_000_000);
    }
    let neg = secs < 0;
    let mag: u64 = if neg { (-secs) as u64 } else { secs as u64 };
    let h_mag: i64 = (mag / 3600) as i64;
    let m_mag: i64 = ((mag % 3600) / 60) as i64;
    let s_mag: i64 = (mag % 60) as i64;
    let hours: i64 = if neg { -h_mag } else { h_mag };
    let minutes: i64 = if neg { -m_mag } else { m_mag };
    let seconds: i64 = if neg { -s_mag } else { s_mag };
    proof {
        let si = secs as int;
        assert(hours as int == clock_hours(si));
        assert(minutes as int == clock_minutes(si));
        assert(seconds as int == clock_seconds(si));
        reveal_strlit("时间: ");
        reveal_strlit(":");
    }
    let mut text = String::new();
    text.append("时间: ");
    if hours > 0 {
        push_pad2(&mut text, hours);
        text.append(":");
    }
    push_pad2(&mut text, minutes);
    text.append(":");
    push_pad2(&mut text, seconds);
    text
}

/// The displayed fields add back up to the whole span, and each field below the
/// hours stays under 60 in size with the sign of the span.
pub proof fn law_clock_fields_recompose(secs: int)
    ensures
        3600 * clock_hours(secs) + 60 * clock_minutes(secs) + clock_seconds(secs) == secs,
        secs >= 0 ==> 0 <= clock_minutes(secs) < 60 && 0 <= clock_seconds(secs) < 60 && clock_hours(secs) >= 0,
        secs < 0 ==> -60 < clock_minutes(secs) <= 0 && -60 < clock_seconds(secs) <= 0 && clock_hours(secs) <= 0,
{
    let a = if secs >= 0 { secs } else { -secs };
    assert(3600 * (a / 3600) + 60 * ((a % 3600) / 60) + a % 60 == a) by (nonlinear_arith)
        requires a >= 0;
}

/// For a span of whole seconds the text reads `时间: MM:SS` under an hour and
/// `时间: HH:MM:SS` from an hour on: whole hours, minutes past them, seconds past those.
pub proof fn law_clock_text_layout(secs: int)
    requires
        secs >= 0,
    ensures
        secs < 3600 ==> clock_text(secs) == "时间: "@ + pad2(secs / 60) + ":"@ + pad2(secs % 60),
        secs >= 3600 ==> clock_text(secs) == "时间: "@ + pad2(secs / 3600) + ":"@ + pad2((secs % 3600) / 60)
            + ":"@ + pad2(secs % 60),
{
}

/// The text shown for `millis` milliseconds is that of its whole seconds, counted toward zero.
pub proof fn law_partial_seconds_are_dropped(millis: int)
    requires
        millis >= 0,
    ensures
        clock_text(tdiv(millis, 1000)) == clock_text(millis / 1000),
{
}

} // verus!
