//! The `HH:MM:SS.mmmmmm` time of day (UTC) that prefixes IP lines.
use vstd::prelude::*;
use crate::text::{padded, push_padded, push_text};

verus! {

#[verifier::external_type_specification]
#[verifier::external_body]
pub struct ExSystemTime(std::time::SystemTime);

/// Relies on std's `SystemTime::now`: reads the system clock; nothing is
/// known of the value.
pub assume_specification[ std::time::SystemTime::now ]() -> std::time::SystemTime;

/// Relies on std's `Duration::as_secs`: the whole seconds of the duration.
pub assume_specification[ core::time::Duration::as_secs ](d: &core::time::Duration) -> u64;

/// Relies on std's `Duration::subsec_micros`: the fractional part of the
/// duration in microseconds, always below one million.
pub assume_specification[ core::time::Duration::subsec_micros ](d: &core::time::Duration) -> (r:
    u32)
    ensures
        r < 1_000_000,
;

/// Relies on std's `SystemTime::duration_since`, taken from the Unix epoch:
/// an error (here `None`) when the time lies before it.
#[verifier::external_body]
fn since_unix_epoch(t: &std::time::SystemTime) -> (r: Option<core::time::Duration>) {
    t.duration_since(std::time::UNIX_EPOCH).ok()
}

/// Text of the time of day `secs` seconds and `micros` microseconds after
/// midnight of day zero: two-digit hour (modulo 24), minute and second,
/// then six digits of microseconds.
pub open spec fn clock_text(secs: nat, micros: nat) -> Seq<char> {
    padded(secs / 3600 % 24, 2) + ":"@ + padded(secs % 3600 / 60, 2) + ":"@ + padded(secs % 60, 2)
        + "."@ + padded(micros, 6)
}

/// Text shown when the clock cannot be read.
pub open spec fn clock_sentinel() -> Seq<char> {
    "00:00:00.000000"@
}

/// `HH:MM:SS.mmmmmm` for a time `secs` seconds and `micros` microseconds
/// after the Unix epoch.
pub fn format_clock(secs: u64, micros: u32) -> (r: String)
    ensures
        r@ == clock_text(secs as nat, micros as nat),
{
    let mut s = String::new();
    push_padded(&mut s, secs / 3600 % 24, 2);
    push_text(&mut s, ":");
    push_padded(&mut s, secs % 3600 / 60, 2);
    push_text(&mut s, ":");
    push_padded(&mut s, secs % 60, 2);
    push_text(&mut s, ".");
    push_padded(&mut s, micros as u64, 6);
    s
}

/// The current UTC time of day, or the all-zero sentinel when the system
/// clock reads before the Unix epoch.
pub fn timestamp() -> (r: String)
    ensures
        r@ == clock_sentinel() || exists|secs: u64, micros: u32|
            micros < 1_000_000 && r@ == clock_text(secs as nat, micros as nat),
{
    let now = std::time::SystemTime::now();
    match since_unix_epoch(&now) {
        Some(d) => {
            let secs = d.as_secs();
            let micros = d.subsec_micros();
            format_clock(secs, micros)
        },
        None => String::from_str("00:00:00.000000"),
    }
}

} // verus!
