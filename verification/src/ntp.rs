//! Clock-skew correction.
//!
//! An NTP collaborator measures the signed offset (network time minus
//! local time) in nanoseconds and hands it to this module as a plain
//! `i64`.  A corrected timestamp is the local wall-clock reading
//! (nanoseconds since the Unix epoch, unsigned 64-bit) plus that
//! offset, computed in a wider signed intermediate and clamped into
//! the representable range, never below zero.

use vstd::prelude::*;

verus! {

/// The corrected timestamp for a wall-clock reading and an offset:
/// the sum in unbounded integers, clamped to the `u64` range.
pub open spec fn corrected_ns(wall_ns: u64, offset_ns: i64) -> u64 {
    let sum = wall_ns as int + offset_ns as int;
    if sum < 0 {
        0u64
    } else if sum > u64::MAX as int {
        u64::MAX
    } else {
        sum as u64
    }
}

/// Adds the signed offset to the wall-clock reading using a wider
/// signed intermediate, clamping the result into `0 ..= u64::MAX`.
pub fn corrected_timestamp_ns(wall_ns: u64, offset_ns: i64) -> (t: u64)
    ensures
        t == corrected_ns(wall_ns, offset_ns),
{
    let wide: i128 = wall_ns as i128 + offset_ns as i128;
    if wide < 0 {
        0
    } else if wide > u64::MAX as i128 {
        u64::MAX
    } else {
        wide as u64
    }
}

/// Raised when the local wall clock cannot be read relative to the
/// Unix epoch.  A local environment fault, distinct from the transport
/// errors the synchronizer retries on.
#[derive(Clone, Copy, PartialEq, Eq, Structural, Debug)]
pub enum ClockFault {
    /// The system clock reports an instant before the epoch.
    BeforeEpoch,
    /// The system clock reports an instant too far past the epoch for
    /// unsigned 64-bit nanoseconds (several centuries away).
    BeyondRange,
}

#[verifier::external_type_specification]
#[verifier::external_body]
pub struct ExSystemTime(std::time::SystemTime);

#[verifier::external_type_specification]
#[verifier::external_body]
pub struct ExSystemTimeError(std::time::SystemTimeError);

/// Relies on `std::time::SystemTime::now`: the wall clock at the
/// moment of the call.  The reading depends on the environment, so
/// nothing relates two calls.
pub assume_specification[ std::time::SystemTime::now ]() -> std::time::SystemTime;

/// Relies on `std::time::SystemTime::duration_since`: the elapsed
/// time from `earlier` to `t`, an error when `earlier` is later.
pub assume_specification[ std::time::SystemTime::duration_since ](
    t: &std::time::SystemTime,
    earlier: std::time::SystemTime,
) -> Result<core::time::Duration, std::time::SystemTimeError>;

/// Relies on `core::time::Duration::as_nanos`: the total number of
/// whole nanoseconds the duration holds.
pub assume_specification[ core::time::Duration::as_nanos ](d: &core::time::Duration) -> (r:
    u128)
    ensures
        r == crate::duration_nanos(*d),
;

/// Relies on `std::time::SystemTime::UNIX_EPOCH`: the fixed epoch
/// every wall-clock reading is taken relative to.
#[verifier::external_body]
fn unix_epoch() -> (t: std::time::SystemTime) {
    std::time::SystemTime::UNIX_EPOCH
}

/// Turns one raw clock reading — elapsed time since the epoch, or the
/// error saying the clock sits before it — into nanoseconds or the
/// matching [`ClockFault`]: success exactly when the reading exists
/// and its nanoseconds fit an unsigned 64-bit value.
pub fn classify_reading(d: Result<core::time::Duration, std::time::SystemTimeError>) -> (r:
    Result<u64, ClockFault>)
    ensures
        d is Err ==> r == Result::<u64, ClockFault>::Err(ClockFault::BeforeEpoch),
        d is Ok ==> (r is Ok <==> crate::duration_nanos(d->Ok_0) <= u64::MAX as nat),
        d is Ok && r is Ok ==> r->Ok_0 == crate::duration_nanos(d->Ok_0),
        d is Ok && crate::duration_nanos(d->Ok_0) > u64::MAX as nat ==> r == Result::<
            u64,
            ClockFault,
        >::Err(ClockFault::BeyondRange),
{
    match d {
        Ok(elapsed) => {
            let n = elapsed.as_nanos();
            if n > u64::MAX as u128 {
                Err(ClockFault::BeyondRange)
            } else {
                Ok(n as u64)
            }
        },
        Err(_) => Err(ClockFault::BeforeEpoch),
    }
}

/// Reads the local wall clock as whole nanoseconds since the Unix
/// epoch; what the reading becomes is decided by the exactly
/// specified [`classify_reading`], so a fault comes back if and only
/// if the clock sits before the epoch or past the unsigned 64-bit
/// range.
pub fn read_wall_clock_ns() -> (r: Result<u64, ClockFault>)
    ensures
        r is Err ==> r->Err_0 == ClockFault::BeforeEpoch || r->Err_0 == ClockFault::BeyondRange,
{
    let now = std::time::SystemTime::now();
    classify_reading(now.duration_since(unix_epoch()))
}

/// The current instant corrected by the given offset: the wall clock
/// is read once and [`corrected_ns`] applied to the reading.  Fails
/// only on a local clock fault.
pub fn corrected_now(offset_ns: i64) -> (r: Result<u64, ClockFault>)
    ensures
        r is Ok ==> exists|w: u64| r->Ok_0 == corrected_ns(w, offset_ns),
        r is Err ==> r->Err_0 == ClockFault::BeforeEpoch || r->Err_0 == ClockFault::BeyondRange,
{
    match read_wall_clock_ns() {
        Ok(w) => {
            let t = corrected_timestamp_ns(w, offset_ns);
            Ok(t)
        },
        Err(e) => Err(e),
    }
}

/// With the offset held fixed, a later wall-clock reading never yields
/// an earlier corrected timestamp.
pub proof fn lemma_corrected_monotonic(w1: u64, w2: u64, offset_ns: i64)
    requires
        w1 <= w2,
    ensures
        corrected_ns(w1, offset_ns) <= corrected_ns(w2, offset_ns),
{
}

/// Applying an offset and then its negation to the same base reading
/// returns the reading exactly, whenever the first correction was not
/// clamped (the true sum stayed inside the `u64` range).
pub proof fn lemma_offset_round_trip(wall_ns: u64, offset_ns: i64, back_ns: i64)
    requires
        offset_ns + back_ns == 0,
        0 <= wall_ns as int + offset_ns as int <= u64::MAX as int,
    ensures
        corrected_ns(corrected_ns(wall_ns, offset_ns), back_ns) == wall_ns,
{
}

/// Latest clock-skew measurement; last write wins.
pub struct ClockOffset {
    /// Signed nanosecond delta: network time minus local time.
    pub offset_ns: i64,
}

impl ClockOffset {
    /// A fresh holder with no measured skew.
    pub fn new() -> (c: ClockOffset)
        ensures
            c.offset_ns == 0,
    {
        ClockOffset { offset_ns: 0 }
    }

    /// Replaces the stored offset with a fresh measurement.
    pub fn update(&mut self, offset_ns: i64)
        ensures
            final(self).offset_ns == offset_ns,
    {
        self.offset_ns = offset_ns;
    }

    /// The stored offset.
    pub fn offset_ns(&self) -> (o: i64)
        ensures
            o == self.offset_ns,
    {
        self.offset_ns
    }

    /// The corrected timestamp for a wall-clock reading under the
    /// stored offset.
    pub fn corrected(&self, wall_ns: u64) -> (t: u64)
        ensures
            t == corrected_ns(wall_ns, self.offset_ns),
    {
        corrected_timestamp_ns(wall_ns, self.offset_ns)
    }
}

} // verus!
