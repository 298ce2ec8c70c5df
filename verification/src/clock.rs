//! The wall clock, read as an RFC 3339 timestamp in UTC.

use vstd::prelude::*;

verus! {

/// `std::time::SystemTime`, carried opaquely between the clock calls.
#[verifier::external_type_specification]
#[verifier::external_body]
pub struct ExSystemTime(std::time::SystemTime);

/// What chrono renders for the UTC moment `secs` seconds and `nanos`
/// nanoseconds after the Unix epoch: `DateTime::<Utc>::from_timestamp`
/// followed by `DateTime::to_rfc3339`, or `None` where `from_timestamp` finds
/// the moment out of its range.
pub uninterp spec fn chrono_rfc3339(secs: i64, nanos: u32) -> Option<Seq<char>>;

/// `t` is the RFC 3339 text that chrono gives for some UTC moment.
pub open spec fn is_rfc3339_stamp(t: Seq<char>) -> bool {
    exists|secs: i64, nanos: u32| #[trigger] chrono_rfc3339(secs, nanos) == Some(t)
}

/// Calls `std::time::SystemTime::now`: the current reading of the system
/// clock. It depends on the moment of the call, so nothing is claimed of it.
#[verifier::external_body]
fn system_time_now() -> std::time::SystemTime {
    std::time::SystemTime::now()
}

/// Calls `SystemTime::duration_since` with `UNIX_EPOCH`: the time from the
/// epoch to `t` as whole seconds and the nanoseconds beyond them, or `None`
/// where `t` lies before the epoch. Its documentation puts the nanoseconds of
/// a `Duration` below one second; nothing else is claimed, since `t` is a
/// reading of the clock.
#[verifier::external_body]
fn since_unix_epoch(t: &std::time::SystemTime) -> (r: Option<(u64, u32)>)
    ensures
        r matches Some((_, nanos)) ==> nanos < 1_000_000_000,
{
    match t.duration_since(std::time::UNIX_EPOCH) {
        Ok(d) => Some((d.as_secs(), d.subsec_nanos())),
        Err(_) => None,
    }
}

/// Calls `chrono::DateTime::<Utc>::from_timestamp(secs, nanos)` and renders
/// the moment with `DateTime::to_rfc3339`; `None` where `from_timestamp`
/// refuses the moment. The text depends on the two numbers alone, and the
/// contract names it `chrono_rfc3339`.
#[verifier::external_body]
fn rfc3339_from_timestamp(secs: i64, nanos: u32) -> (r: Option<String>)
    ensures
        match r {
            Some(t) => chrono_rfc3339(secs, nanos) == Some(t@),
            None => chrono_rfc3339(secs, nanos) is None,
        },
{
    match chrono::DateTime::<chrono::Utc>::from_timestamp(secs, nanos) {
        Some(d) => Some(d.to_rfc3339()),
        None => None,
    }
}

/// The current time in UTC as an RFC 3339 timestamp, or `None` where the
/// system clock reads before the Unix epoch or beyond what chrono can
/// represent. Which moment is read depends on when the call is made, so the
/// contract says only that the text is chrono's rendering of some moment.
pub fn now_rfc3339() -> (r: Option<String>)
    ensures
        r matches Some(t) ==> is_rfc3339_stamp(t@),
{
    let now = system_time_now();
    match since_unix_epoch(&now) {
        Some((secs, nanos)) => {
            if secs <= 0x7fff_ffff_ffff_ffffu64 {
                let r = rfc3339_from_timestamp(secs as i64, nanos);
                proof {
                    if r is Some {
                        assert(chrono_rfc3339(secs as i64, nanos) == Some(r->0@));
                    }
                }
                r
            } else {
                None
            }
        },
        None => None,
    }
}

} // verus!
