use vstd::prelude::*;

verus! {

/// `std::time::SystemTime::now`: the current system time. It depends on the
/// clock; nothing is stated of it.
#[verifier::external_body]
fn system_now() -> std::time::SystemTime {
    std::time::SystemTime::now()
}

/// `SystemTime::duration_since(UNIX_EPOCH)`: how long after the epoch `t`
/// is, or, as the error, how long before it.
#[verifier::external_body]
fn since_epoch(
    t: &std::time::SystemTime,
) -> Result<core::time::Duration, std::time::SystemTimeError> {
    t.duration_since(std::time::UNIX_EPOCH)
}

/// `SystemTimeError::duration`: how far the time lies before the epoch.
#[verifier::external_body]
fn before_epoch(e: &std::time::SystemTimeError) -> core::time::Duration {
    e.duration()
}

/// `Duration::as_secs`: the whole seconds of `d`.
#[verifier::external_body]
fn whole_secs(d: &core::time::Duration) -> u64 {
    d.as_secs()
}

/// `Duration::subsec_nanos`: the nanoseconds of `d` beyond its whole seconds.
#[verifier::external_body]
fn subsec_nanos(d: &core::time::Duration) -> u32 {
    d.subsec_nanos()
}

/// Whole seconds since the epoch, rounded down, of a time `secs` seconds and
/// `nanos` nanoseconds after the epoch, or before it when `before` holds;
/// clamped to the range of `i64`.
pub open spec fn unix_seconds_spec(before: bool, secs: u64, nanos: u32) -> int {
    let exact: int = if before {
        -(secs as int) - (if nanos > 0 {
            1int
        } else {
            0int
        })
    } else {
        secs as int
    };
    if exact > i64::MAX {
        i64::MAX as int
    } else if exact < i64::MIN {
        i64::MIN as int
    } else {
        exact
    }
}

/// The timestamp, in whole seconds since the epoch rounded down, of a time
/// `secs` seconds and `nanos` nanoseconds after the epoch, or before it when
/// `before` holds; clamped to the range of `i64`.
pub fn unix_seconds(before: bool, secs: u64, nanos: u32) -> (r: i64)
    ensures
        r == unix_seconds_spec(before, secs, nanos),
{
    if before {
        if secs > 9223372036854775807u64 {
            i64::MIN
        } else {
            let neg: i64 = -(secs as i64);
            if nanos > 0 {
                neg - 1
            } else {
                neg
            }
        }
    } else if secs > 9223372036854775807u64 {
        i64::MAX
    } else {
        secs as i64
    }
}

/// The current UTC time in whole seconds since the epoch, rounded down.
///
/// It depends on the clock; what it is for each reading of the clock is
/// [`unix_seconds`]. It never panics, also for a clock set before 1970.
pub fn timestamp_sec() -> i64 {
    let now = system_now();
    match since_epoch(&now) {
        Ok(d) => unix_seconds(false, whole_secs(&d), subsec_nanos(&d)),
        Err(e) => {
            let d = before_epoch(&e);
            unix_seconds(true, whole_secs(&d), subsec_nanos(&d))
        },
    }
}

/// The readings of the system clock taken through this log, in order, each
/// in whole seconds since the epoch as [`timestamp_sec`] gives it. Only
/// [`ClockLog::read`] adds to it.
pub struct ClockLog {
    readings: Ghost<Seq<i64>>,
}

impl ClockLog {
    /// The readings taken so far, oldest first.
    pub closed spec fn readings(&self) -> Seq<i64> {
        self.readings@
    }

    /// A log with no reading.
    pub fn new() -> (r: Self)
        ensures
            r.readings() == Seq::<i64>::empty(),
    {
        ClockLog { readings: Ghost(Seq::empty()) }
    }

    /// Read the clock, as [`timestamp_sec`] does, and log the reading.
    pub fn read(&mut self) -> (t: i64)
        ensures
            final(self).readings() == old(self).readings().push(t),
    {
        let t = timestamp_sec();
        proof {
            self.readings@ = self.readings@.push(t);
        }
        t
    }
}

} // verus!
