use vstd::prelude::*;

verus! {

/// Nanoseconds in an hour.
pub const NANOS_PER_HOUR: i128 = 3600000000000;

/// `a / b` rounded toward zero, as Rust's integer division rounds.
pub open spec fn div_toward_zero(a: int, b: int) -> int {
    if a >= 0 {
        a / b
    } else {
        -((-a) / b)
    }
}

/// Whole hours from `started` to `now` (both in nanoseconds since the Unix
/// epoch), rounded toward zero, as chrono's `(now - started).num_hours()`
/// counts them.
pub fn elapsed_hours(now: i64, started: i64) -> (h: i64)
    ensures
        h == div_toward_zero(now - started, NANOS_PER_HOUR as int),
{
    let diff: i128 = (now as i128) - (started as i128);
    let magnitude: i128 = if diff >= 0 {
        diff
    } else {
        -diff
    };
    let whole: i128 = magnitude / NANOS_PER_HOUR;
    assert(whole <= magnitude) by (nonlinear_arith)
        requires
            whole == magnitude / 3600000000000i128,
            magnitude >= 0,
    ;
    let hours: i128 = if diff >= 0 {
        whole
    } else {
        -whole
    };
    hours as i64
}

/// The patterns with which the bot writes instants.
pub open spec fn known_pattern(pattern: Seq<char>) -> bool {
    pattern == "%Y-%m-%d at %H:%M:%S UTC+0"@ || pattern == "%Y-%m-%d %H:%M:%S UTC+0"@
}

/// The text that chrono writes for the UTC instant `nanos` (nanoseconds
/// since the Unix epoch) with the strftime `pattern`.
pub uninterp spec fn instant_text(nanos: int, pattern: Seq<char>) -> Seq<char>;

/// Writes the UTC instant `nanos` with one of the bot's patterns, through
/// `chrono::DateTime::<Utc>::from_timestamp_nanos(nanos).format(pattern)`.
/// The result is the one that `instant_text` names for these arguments;
/// what chrono writes for given values is not stated here. Only the bot's
/// own patterns are admitted: they are valid, so formatting cannot fail.
#[verifier::external_body]
pub(crate) fn format_instant(nanos: i64, pattern: &str) -> (s: String)
    requires
        known_pattern(pattern@),
    ensures
        s@ == instant_text(nanos as int, pattern@),
{
    chrono::DateTime::<chrono::Utc>::from_timestamp_nanos(nanos).format(pattern).to_string()
}

} // verus!
