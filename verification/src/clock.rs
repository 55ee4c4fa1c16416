//! The moments that a shim notes.
use vstd::prelude::*;

use crate::sandbox::Timestamp;
use crate::text::{after_prefix, fails_with};

verus! {

/// A reading of the system's clock, as std has it.
#[verifier::external_type_specification]
#[verifier::external_body]
pub struct ExSystemTime(std::time::SystemTime);

/// `std::time::SystemTime::now` reads the system's clock: nothing is claimed of
/// what it shows.
pub assume_specification[ std::time::SystemTime::now ]() -> std::time::SystemTime;

/// `std::time::Duration::as_secs` gives the whole seconds of a duration, which
/// depend on what the clock showed: nothing is claimed of them.
pub assume_specification[ std::time::Duration::as_secs ](duration: &std::time::Duration) -> u64;

/// `std::time::Duration::subsec_nanos` gives the part of a duration below a
/// second: it is less than one billion nanoseconds.
pub assume_specification[ std::time::Duration::subsec_nanos ](duration: &std::time::Duration) -> (nanos:
    u32)
    ensures
        nanos < 1_000_000_000,
;

/// `std::time::Duration::as_millis` gives the whole milliseconds of a duration,
/// which depend on what the clock showed: nothing is claimed of them.
pub assume_specification[ std::time::Duration::as_millis ](
    duration: &std::time::Duration,
) -> u128;

/// Calls `std::time::SystemTime::duration_since` with the beginning of 1970; the
/// error, shown by its `Display`, stands for a clock that shows an earlier
/// moment. Which of the two it is depends on the clock: nothing is claimed of
/// it.
#[verifier::external_body]
fn since_epoch(moment: &std::time::SystemTime) -> (r: Result<std::time::Duration, String>) {
    moment.duration_since(std::time::UNIX_EPOCH).map_err(|error| error.to_string())
}

/// The milliseconds since the beginning of 1970, or what a clock that shows an
/// earlier moment is answered.
pub fn elapsed_ms(elapsed: Result<u128, String>) -> (r: Result<u128, String>)
    ensures
        match elapsed {
            Ok(ms) => r == Ok::<u128, String>(ms),
            Err(message) => fails_with(r, "system clock is before UNIX epoch: "@ + message@),
        },
{
    match elapsed {
        Ok(ms) => Ok(ms),
        Err(message) => Err(
            "system clock is before UNIX epoch: ".to_owned().concat(message.as_str()),
        ),
    }
}

/// The milliseconds since the beginning of 1970 that the system's clock shows.
/// What it shows is left open; a clock before that moment is an error that
/// says so.
pub fn unix_time_ms() -> (r: Result<u128, String>)
    ensures
        r matches Err(message) ==> after_prefix(
            message@,
            "system clock is before UNIX epoch: "@,
        ) is Some,
{
    let now = std::time::SystemTime::now();
    match since_epoch(&now) {
        Ok(duration) => elapsed_ms(Ok(duration.as_millis())),
        Err(message) => {
            proof {
                let prefix = "system clock is before UNIX epoch: "@;
                assert((prefix + message@).subrange(0, prefix.len() as int) =~= prefix);
                assert((prefix + message@).take(prefix.len() as int) =~= prefix);
            }
            elapsed_ms(Err(message))
        },
    }
}

/// The moment that lies so many seconds and nanoseconds after the beginning of
/// 1970.
pub fn timestamp(seconds: u64, nanos: u32) -> (moment: Timestamp)
    ensures
        moment.seconds == seconds as i64,
        moment.nanos == nanos as i32,
        seconds <= i64::MAX ==> moment.seconds == seconds,
        nanos <= i32::MAX ==> moment.nanos == nanos,
{
    Timestamp {
        seconds: #[verifier::truncate] (seconds as i64),
        nanos: #[verifier::truncate] (nanos as i32),
    }
}

/// The moment that the system's clock shows; the beginning of 1970 where it
/// shows an earlier one.
pub fn now_timestamp() -> (moment: Timestamp)
    ensures
        0 <= moment.nanos < 1_000_000_000,
{
    let now = std::time::SystemTime::now();
    match since_epoch(&now) {
        Ok(duration) => elapsed_timestamp(Ok((duration.as_secs(), duration.subsec_nanos()))),
        Err(message) => elapsed_timestamp(Err(message)),
    }
}

/// The moment that lies so many seconds and nanoseconds after the beginning of
/// 1970; that beginning itself for a clock that shows an earlier moment.
pub fn elapsed_timestamp(elapsed: Result<(u64, u32), String>) -> (moment: Timestamp)
    ensures
        match elapsed {
            Ok((seconds, nanos)) => moment.seconds == seconds as i64 && moment.nanos == nanos as i32,
            Err(_) => moment.seconds == 0 && moment.nanos == 0,
        },
{
    match elapsed {
        Ok((seconds, nanos)) => timestamp(seconds, nanos),
        Err(_) => timestamp(0, 0),
    }
}

} // verus!
