//! Retry-driven owner of the session lifecycle and connectivity
//! status.
//!
//! The synchronizer is a state machine: the host agent's driver loop
//! asks it what to do next ([`Synchronizer::poll`]) and reports what
//! the transport did ([`Synchronizer::on_connect_outcome`],
//! [`Synchronizer::exchange`]).  Every transition is observable
//! through [`Synchronizer::status`], transport failures are absorbed
//! into retry bookkeeping and never propagate as errors to status
//! readers, and a session that failed an exchange is never given
//! another request.

use vstd::prelude::*;

use crate::session::ConnectError;
use crate::session::ConnectOutcome;
use crate::session::ExchangeOutcome;
use crate::session::Session;
use crate::session::SessionError;

verus! {

/// Connectivity as reported to health checks.
#[derive(Clone, Copy, PartialEq, Eq, Structural, Debug)]
pub enum Status {
    /// No session; the next attempt waits out the retry interval.
    Disconnected,
    /// A first connection attempt is in flight.
    Connecting,
    /// A usable session is established.
    Connected,
    /// The session failed an exchange; a replacement is attempted
    /// without tearing the synchronizer down.
    Degraded,
    /// Terminal; never entered by the synchronizer itself, only by an
    /// operator through [`Synchronizer::mark_failed`].
    Failed,
}

/// Immutable configuration snapshot fixed at synchronizer
/// construction; changing any of it requires a new synchronizer.
pub struct StaticConfig {
    /// Where the backend listens; handed to the transport collaborator
    /// on every connection attempt.
    pub backend_addr: String,
    /// Nanoseconds to wait after an unrecoverable failure before the
    /// next connection attempt.
    pub retry_interval_ns: u64,
    /// Nanoseconds each session allows for a connect or a response.
    pub session_timeout_ns: u64,
    /// Whether backend-directed command execution is available on this
    /// host.
    pub remote_exec_enabled: bool,
}

impl StaticConfig {
    /// A snapshot with the standard retry interval and session
    /// timeout.
    pub fn new(backend_addr: String, remote_exec_enabled: bool) -> (c: StaticConfig)
        ensures
            c.backend_addr@ == backend_addr@,
            c.retry_interval_ns == crate::RPC_RETRY_INTERVAL_NS,
            c.session_timeout_ns == crate::session::DEFAULT_TIMEOUT,
            c.remote_exec_enabled == remote_exec_enabled,
    {
        StaticConfig {
            backend_addr,
            retry_interval_ns: crate::RPC_RETRY_INTERVAL_NS,
            session_timeout_ns: crate::session::DEFAULT_TIMEOUT,
            remote_exec_enabled,
        }
    }
}

/// What the driver loop must do next.
#[derive(Clone, Copy, PartialEq, Eq, Structural, Debug)]
pub enum Action {
    /// Nothing to do right now.
    Idle,
    /// Wait this many nanoseconds (or until woken) before polling
    /// again.
    Wait(u64),
    /// Attempt one transport connection to the configured address and
    /// report the outcome through `on_connect_outcome`.
    Connect,
}

/// Orchestrates connection attempts, owns the session, tracks
/// [`Status`], and retries on a fixed interval after failure.
pub struct Synchronizer {
    /// Fixed at construction.
    pub config: StaticConfig,
    /// Between `start` and `stop`; nothing happens while false.
    pub running: bool,
    /// Authoritative connectivity value.
    pub status: Status,
    /// A connection attempt was handed out and its outcome has not
    /// come back yet.
    pub attempt_in_flight: bool,
    /// The owned session, if any; replaced, never mutated back to
    /// usable, after it fails.
    pub session: Option<Session>,
    /// Instant (nanoseconds) before which no new connection attempt
    /// may start; `None` when an attempt may start at once.
    pub next_retry_at: Option<u64>,
    /// Identity for the next session; strictly larger than the
    /// identity of every session created so far.
    pub next_session_id: u64,
}

impl Synchronizer {
    /// Internal consistency: status, session and bookkeeping agree.
    pub open spec fn wf(self) -> bool {
        &&& self.status is Connected ==> {
            &&& self.session is Some
            &&& self.session->0.usable()
            &&& !self.attempt_in_flight
            &&& self.next_retry_at is None
        }
        &&& self.status is Connecting ==> self.attempt_in_flight && self.session is None
        &&& self.status is Disconnected ==> !self.attempt_in_flight && self.session is None
        &&& self.status is Degraded ==> {
            &&& self.session is Some
            &&& !self.session->0.usable()
            &&& self.next_retry_at is None
        }
        &&& !(self.status is Failed)
        &&& !self.running ==> self.status is Disconnected && !self.attempt_in_flight
        &&& self.session is Some ==> self.session->0.id < self.next_session_id
    }

    /// A synchronizer that has never run: disconnected, no session,
    /// ready for `start`.
    pub fn new(config: StaticConfig) -> (s: Synchronizer)
        ensures
            s.wf(),
            !s.running,
            s.status is Disconnected,
            s.session is None,
            s.next_retry_at is None,
            s.next_session_id == 0,
            s.config == config,
    {
        Synchronizer {
            config,
            running: false,
            status: Status::Disconnected,
            attempt_in_flight: false,
            session: None,
            next_retry_at: None,
            next_session_id: 0,
        }
    }

    /// Non-blocking snapshot of connectivity.
    pub fn status(&self) -> (r: Status)
        ensures
            r == self.status,
    {
        self.status
    }

    /// Begins the connect/retry loop.  Idempotent: while already
    /// running, nothing changes; otherwise the first `poll` may
    /// connect at once.
    pub fn start(&mut self)
        requires
            old(self).wf(),
        ensures
            final(self).wf(),
            final(self).running,
            old(self).running ==> *final(self) == *old(self),
            !old(self).running ==> *final(self) == (Synchronizer {
                running: true,
                next_retry_at: None,
                ..*old(self)
            }),
    {
        if !self.running {
            self.running = true;
            self.next_retry_at = None;
        }
    }

    /// Signals cancellation: the owned session is released, status
    /// drops to `Disconnected`, and no retry fires until `start` runs
    /// again.
    pub fn stop(&mut self)
        requires
            old(self).wf(),
        ensures
            final(self).wf(),
            *final(self) == (Synchronizer {
                running: false,
                status: Status::Disconnected,
                attempt_in_flight: false,
                session: None,
                next_retry_at: None,
                ..*old(self)
            }),
    {
        self.running = false;
        self.status = Status::Disconnected;
        self.attempt_in_flight = false;
        self.session = None;
        self.next_retry_at = None;
    }

    /// Decides the next step.  While stopped, or while an attempt is
    /// in flight, or while connected, there is nothing to do; while
    /// disconnected an attempt starts only once the retry instant has
    /// passed; while degraded a replacement attempt starts at once.
    pub fn poll(&mut self, now_ns: u64) -> (a: Action)
        requires
            old(self).wf(),
        ensures
            final(self).wf(),
            !old(self).running ==> *final(self) == *old(self) && a == Action::Idle,
            old(self).running && (old(self).status is Connected || old(self).status is Connecting)
                ==> *final(self) == *old(self) && a == Action::Idle,
            old(self).running && old(self).status is Degraded ==> {
                if old(self).attempt_in_flight {
                    *final(self) == *old(self) && a == Action::Idle
                } else {
                    a == Action::Connect && *final(self) == (Synchronizer {
                        attempt_in_flight: true,
                        ..*old(self)
                    })
                }
            },
            old(self).running && old(self).status is Disconnected ==> {
                if old(self).next_retry_at is None || old(self).next_retry_at->0 <= now_ns {
                    a == Action::Connect && *final(self) == (Synchronizer {
                        status: Status::Connecting,
                        attempt_in_flight: true,
                        next_retry_at: None,
                        ..*old(self)
                    })
                } else {
                    a == Action::Wait((old(self).next_retry_at->0 - now_ns) as u64)
                        && *final(self) == *old(self)
                }
            },
            a is Connect && old(self).next_retry_at is Some ==> now_ns >= old(self).next_retry_at->0,
    {
        if !self.running {
            return Action::Idle;
        }
        match self.status {
            Status::Connected => Action::Idle,
            Status::Connecting => Action::Idle,
            Status::Failed => Action::Idle,
            Status::Degraded => {
                if self.attempt_in_flight {
                    Action::Idle
                } else {
                    self.attempt_in_flight = true;
                    Action::Connect
                }
            },
            Status::Disconnected => {
                let due = match self.next_retry_at {
                    None => true,
                    Some(t) => t <= now_ns,
                };
                if due {
                    self.status = Status::Connecting;
                    self.attempt_in_flight = true;
                    self.next_retry_at = None;
                    Action::Connect
                } else {
                    let t = match self.next_retry_at {
                        Some(t) => t,
                        None => 0,
                    };
                    Action::Wait(t - now_ns)
                }
            },
        }
    }

    /// Consumes the outcome of the connection attempt handed out by
    /// `poll`.  Success installs a fresh session — its identity larger
    /// than every earlier one — and resets the retry bookkeeping;
    /// failure discards any poisoned session and schedules the next
    /// attempt one retry interval after `now_ns`.
    pub fn on_connect_outcome(&mut self, now_ns: u64, outcome: ConnectOutcome) -> (r: Result<(), ConnectError>)
        requires
            old(self).wf(),
            old(self).attempt_in_flight,
            now_ns as int + old(self).config.retry_interval_ns as int <= u64::MAX as int,
            old(self).next_session_id < u64::MAX,
        ensures
            final(self).wf(),
            r is Ok <==> outcome is Established,
            outcome is Established ==> *final(self) == (Synchronizer {
                status: Status::Connected,
                attempt_in_flight: false,
                session: Some(Session {
                    id: old(self).next_session_id,
                    timeout_ns: old(self).config.session_timeout_ns,
                    state: crate::session::SessionState::Open,
                    requests_done: 0,
                }),
                next_retry_at: None,
                next_session_id: (old(self).next_session_id + 1) as u64,
                ..*old(self)
            }),
            !(outcome is Established) ==> *final(self) == (Synchronizer {
                status: Status::Disconnected,
                attempt_in_flight: false,
                session: None,
                next_retry_at: Some((now_ns + old(self).config.retry_interval_ns) as u64),
                ..*old(self)
            }),
            outcome is Refused ==> r == Result::<(), ConnectError>::Err(ConnectError::ConnectFailed),
            outcome is TimedOut ==> r == Result::<(), ConnectError>::Err(ConnectError::Timeout),
    {
        match Session::open(self.next_session_id, self.config.session_timeout_ns, outcome) {
            Ok(sess) => {
                self.session = Some(sess);
                self.next_session_id = self.next_session_id + 1;
                self.status = Status::Connected;
                self.attempt_in_flight = false;
                self.next_retry_at = None;
                Ok(())
            },
            Err(e) => {
                self.status = Status::Disconnected;
                self.attempt_in_flight = false;
                self.session = None;
                self.next_retry_at = Some(now_ns + self.config.retry_interval_ns);
                Err(e)
            },
        }
    }

    /// Carries one request on the owned session and consumes the
    /// transport's outcome.  A response keeps the synchronizer
    /// connected; a timeout or closure poisons the session and drops
    /// to `Degraded`, so the next request can only happen on a
    /// replacement session with a strictly larger identity.
    pub fn exchange(&mut self, outcome: ExchangeOutcome) -> (r: Result<Vec<u8>, SessionError>)
        requires
            old(self).wf(),
            old(self).status is Connected,
        ensures
            final(self).wf(),
            final(self).next_session_id == old(self).next_session_id,
            final(self).running == old(self).running,
            final(self).attempt_in_flight == old(self).attempt_in_flight,
            final(self).next_retry_at == old(self).next_retry_at,
            final(self).config == old(self).config,
            final(self).session is Some,
            final(self).session->0.id == old(self).session->0.id,
            outcome is Response ==> r is Ok
                && r->Ok_0@ == outcome->Response_0@
                && final(self).status is Connected
                && final(self).session->0 == (Session {
                    requests_done: (if old(self).session->0.requests_done < u64::MAX {
                        (old(self).session->0.requests_done + 1) as u64
                    } else {
                        u64::MAX
                    }),
                    ..old(self).session->0
                }),
            outcome is TimedOut ==> r == Result::<Vec<u8>, SessionError>::Err(SessionError::Timeout),
            outcome is Closed ==> r == Result::<Vec<u8>, SessionError>::Err(SessionError::Closed),
            r is Err ==> final(self).status is Degraded && final(self).session->0 == (Session {
                state: crate::session::SessionState::Poisoned,
                ..old(self).session->0
            }),
    {
        let result = match &mut self.session {
            Some(sess) => sess.exchange(outcome),
            None => {
                // Unreachable while connected; the invariant
                // guarantees an owned usable session.
                proof {
                    assert(false);
                }
                Err(SessionError::Closed)
            },
        };
        if result.is_err() {
            self.status = Status::Degraded;
        }
        result
    }

    /// Operator-driven terminal transition: gives retrying up until a
    /// new synchronizer is built.  The synchronizer itself never
    /// enters `Failed`.
    pub fn mark_failed(&mut self)
        requires
            old(self).wf(),
        ensures
            final(self).status is Failed,
            final(self).session is None,
            !final(self).running,
    {
        self.running = false;
        self.status = Status::Failed;
        self.attempt_in_flight = false;
        self.session = None;
        self.next_retry_at = None;
    }

    /// Shutdown is quiet and idempotent: any well-formed synchronizer
    /// that is not running — as every one is after `stop` — reports
    /// `Disconnected` and holds no session or connection attempt, and
    /// `poll` leaves such a synchronizer untouched, so no retry fires
    /// until `start` runs again.
    pub proof fn lemma_stopped_synchronizer_is_quiet(self)
        requires
            self.wf(),
            !self.running,
        ensures
            self.status is Disconnected,
            self.session is None,
            !self.attempt_in_flight,
    {
    }

    /// A session that failed an exchange is never reused: a
    /// well-formed synchronizer holding an unusable session is not
    /// `Connected`, and `exchange` demands `Connected` — so the next
    /// request can only go out after `on_connect_outcome` installs a
    /// replacement session, whose identity is strictly larger than
    /// every identity handed out before.
    pub proof fn lemma_poisoned_session_never_reused(self)
        requires
            self.wf(),
            self.session is Some,
            !self.session->0.usable(),
        ensures
            !(self.status is Connected),
            self.session->0.id < self.next_session_id,
    {
    }

    /// Identity of the owned session, if one exists.
    pub fn current_session_id(&self) -> (r: Option<u64>)
        ensures
            r is Some <==> self.session is Some,
            r is Some ==> r->0 == self.session->0.id,
    {
        match &self.session {
            Some(sess) => Some(sess.id),
            None => None,
        }
    }
}

} // verus!
