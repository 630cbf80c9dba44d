//! RPC synchronization layer of a host-resident monitoring agent.
//!
//! The library keeps a logical session with a remote backend, corrects
//! local timestamps for clock skew using a network-time offset, and
//! exposes a gated remote-execution capability driven by backend
//! commands.  Transport I/O, process spawning and NTP polling are
//! collaborators outside this crate: they hand plain values (connect
//! outcomes, exchange outcomes, spawn outcomes, clock readings) to the
//! verified state machines defined here.

use vstd::prelude::*;

mod ntp;
mod remote_exec;
mod session;
mod synchronizer;

pub use remote_exec::CompletedExecution;
pub use remote_exec::ExecError;
pub use remote_exec::ExecutionOutcome;
pub use remote_exec::ExecutionRequest;
pub use remote_exec::ExecutionResult;
pub use remote_exec::Executor;
pub use remote_exec::MAX_OUTPUT_BYTES;
pub use remote_exec::PendingExecution;
pub use remote_exec::SpawnOutcome;
pub use remote_exec::matches_report;

pub use synchronizer::Action;
pub use synchronizer::StaticConfig;
pub use synchronizer::Status;
pub use synchronizer::Synchronizer;

pub use session::ConnectError;
pub use session::ConnectOutcome;
pub use session::DEFAULT_TIMEOUT;
pub use session::ExchangeOutcome;
pub use session::Session;
pub use session::SessionError;
pub use session::SessionState;

pub use ntp::ClockFault;
pub use ntp::ClockOffset;
pub use ntp::classify_reading;
pub use ntp::corrected_now;
pub use ntp::corrected_ns;
pub use ntp::corrected_timestamp_ns;
pub use ntp::read_wall_clock_ns;

verus! {

/// Nanoseconds the synchronizer waits after an unrecoverable transport
/// failure before the next connection attempt.
pub const RPC_RETRY_INTERVAL_NS: u64 = 60_000_000_000;

/// The whole nanoseconds a `Duration` holds.
pub uninterp spec fn duration_nanos(d: core::time::Duration) -> nat;

/// Relies on `core::time::Duration::from_nanos`: the resulting
/// duration holds exactly the given number of nanoseconds.
pub assume_specification[ core::time::Duration::from_nanos ](nanos: u64) -> (d: core::time::Duration)
    ensures
        duration_nanos(d) == nanos as nat,
;

/// The current instant corrected by the NTP offset, as a duration
/// since the Unix epoch.  When the local clock cannot be read relative
/// to the epoch, the reading is taken as the epoch itself, so the
/// result is still a corrected timestamp; callers that must tell a
/// clock fault apart use [`corrected_now`].
pub fn get_timestamp(ntp_diff: i64) -> (d: core::time::Duration)
    ensures
        exists|w: u64| duration_nanos(d) == corrected_ns(w, ntp_diff) as nat,
{
    let wall: u64 = match read_wall_clock_ns() {
        Ok(w) => w,
        Err(_) => 0,
    };
    let t = corrected_timestamp_ns(wall, ntp_diff);
    core::time::Duration::from_nanos(t)
}

} // verus!
