//! One logical, timeout-bounded connection to the backend.
//!
//! The transport collaborator performs the actual connect, send and
//! receive; it reports each attempt back as a plain outcome value.
//! The session tracks whether it may still carry requests: once an
//! exchange reports a timeout or a closure, the session is poisoned
//! and can never carry another request — the synchronizer must open a
//! replacement.

use vstd::prelude::*;

verus! {

/// Nanoseconds a session waits for a connect or a response when the
/// configuration does not override it.
pub const DEFAULT_TIMEOUT: u64 = 30_000_000_000;

/// Why a connection attempt produced no session.
#[derive(Clone, Copy, PartialEq, Eq, Structural, Debug)]
pub enum ConnectError {
    /// The transport refused or could not reach the address.
    ConnectFailed,
    /// No connection was established within the timeout.
    Timeout,
}

/// Why an exchange produced no response.  Either way the session is no
/// longer usable.
#[derive(Clone, Copy, PartialEq, Eq, Structural, Debug)]
pub enum SessionError {
    /// No matching response arrived within the timeout.
    Timeout,
    /// Peer or local closure was detected.
    Closed,
}

/// What the transport reported for one connection attempt.
#[derive(Clone, Copy, PartialEq, Eq, Structural, Debug)]
pub enum ConnectOutcome {
    /// The transport-level connection is up.
    Established,
    /// The transport refused or could not reach the address.
    Refused,
    /// The attempt did not finish within the timeout.
    TimedOut,
}

/// What the transport reported for one request/response exchange.
#[derive(PartialEq, Eq, Debug)]
pub enum ExchangeOutcome {
    /// The matching response arrived in time.
    Response(Vec<u8>),
    /// No matching response arrived within the timeout.
    TimedOut,
    /// Peer or local closure was detected.
    Closed,
}

/// Lifecycle of one session's transport resources.
#[derive(Clone, Copy, PartialEq, Eq, Structural, Debug)]
pub enum SessionState {
    /// Usable: requests may be exchanged.
    Open,
    /// Unusable after a timeout or closure; transport resources are
    /// still held until [`Session::close`] runs.
    Poisoned,
    /// Transport resources have been released.
    Closed,
}

/// One logical connection to the backend.
#[derive(PartialEq, Eq, Debug)]
pub struct Session {
    /// Distinguishes this session from every earlier and later one;
    /// the synchronizer hands out strictly increasing identities.
    pub id: u64,
    /// Nanoseconds allowed for a connect or a response.
    pub timeout_ns: u64,
    /// Whether the session may still carry requests.
    pub state: SessionState,
    /// Requests carried so far; the next request is processed after
    /// all of these, in submission order.
    pub requests_done: u64,
}

impl Session {
    /// Whether the session may carry a request.
    pub open spec fn usable(self) -> bool {
        self.state is Open
    }

    /// Establishes a session from one transport connection attempt:
    /// a session exists exactly when the transport reported success,
    /// and each failure maps to its own error.
    pub fn open(id: u64, timeout_ns: u64, outcome: ConnectOutcome) -> (r: Result<Session, ConnectError>)
        ensures
            r is Ok <==> outcome is Established,
            r is Ok ==> r->Ok_0 == (Session {
                id,
                timeout_ns,
                state: SessionState::Open,
                requests_done: 0,
            }),
            outcome is Refused ==> r == Result::<Session, ConnectError>::Err(ConnectError::ConnectFailed),
            outcome is TimedOut ==> r == Result::<Session, ConnectError>::Err(ConnectError::Timeout),
    {
        match outcome {
            ConnectOutcome::Established => Ok(Session {
                id,
                timeout_ns,
                state: SessionState::Open,
                requests_done: 0,
            }),
            ConnectOutcome::Refused => Err(ConnectError::ConnectFailed),
            ConnectOutcome::TimedOut => Err(ConnectError::Timeout),
        }
    }

    /// Carries one request and consumes the transport's outcome for
    /// it.  A response keeps the session usable and is handed back; a
    /// timeout or a closure poisons the session, so no later request
    /// can ever be carried by it.
    pub fn exchange(&mut self, outcome: ExchangeOutcome) -> (r: Result<Vec<u8>, SessionError>)
        requires
            old(self).usable(),
        ensures
            final(self).id == old(self).id,
            final(self).timeout_ns == old(self).timeout_ns,
            outcome is Response ==> r is Ok
                && r->Ok_0@ == outcome->Response_0@
                && final(self).usable()
                && final(self).requests_done == (if old(self).requests_done < u64::MAX {
                    (old(self).requests_done + 1) as u64
                } else {
                    u64::MAX
                }),
            outcome is TimedOut ==> r == Result::<Vec<u8>, SessionError>::Err(SessionError::Timeout),
            outcome is Closed ==> r == Result::<Vec<u8>, SessionError>::Err(SessionError::Closed),
            r is Err ==> final(self).state is Poisoned
                && final(self).requests_done == old(self).requests_done,
    {
        match outcome {
            ExchangeOutcome::Response(data) => {
                if self.requests_done < u64::MAX {
                    self.requests_done = self.requests_done + 1;
                }
                Ok(data)
            },
            ExchangeOutcome::TimedOut => {
                self.state = SessionState::Poisoned;
                Err(SessionError::Timeout)
            },
            ExchangeOutcome::Closed => {
                self.state = SessionState::Poisoned;
                Err(SessionError::Closed)
            },
        }
    }

    /// Scoped release: the caller must free the underlying transport
    /// exactly when `true` comes back, which happens on the first call
    /// only, however often `close` runs and in whatever state.
    pub fn close(&mut self) -> (release_now: bool)
        ensures
            final(self).state is Closed,
            final(self).id == old(self).id,
            final(self).timeout_ns == old(self).timeout_ns,
            final(self).requests_done == old(self).requests_done,
            release_now == !(old(self).state is Closed),
    {
        let was_closed = match self.state {
            SessionState::Closed => true,
            SessionState::Open => false,
            SessionState::Poisoned => false,
        };
        self.state = SessionState::Closed;
        !was_closed
    }

    /// Whether the session may still carry requests.
    pub fn is_usable(&self) -> (r: bool)
        ensures
            r == self.usable(),
    {
        match self.state {
            SessionState::Open => true,
            SessionState::Poisoned => false,
            SessionState::Closed => false,
        }
    }
}

} // verus!
