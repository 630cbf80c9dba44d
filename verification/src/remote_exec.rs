//! Gated remote-execution capability.
//!
//! Backend commands arrive through an established session; the
//! executor accepts them only when they carry the identity of the
//! session that is currently authorized, hands each accepted command
//! to the process collaborator under a fresh handle, and turns
//! whatever that collaborator reports — including a command that
//! could not start — into a determinate [`ExecutionResult`] tagged
//! with the originating request identity.  Each request identity runs
//! at most once.  Hosts without the required process-control
//! primitives simply never construct an [`Executor`].

use vstd::prelude::*;

verus! {

/// Bytes of captured command output kept per execution; anything
/// beyond is cut off.
pub const MAX_OUTPUT_BYTES: usize = 1_048_576;

/// One backend-directed command, tagged with where it came from.
#[derive(PartialEq, Eq, Debug)]
pub struct ExecutionRequest {
    /// Backend-chosen identity used to correlate the eventual result.
    pub request_id: u64,
    /// Identity of the session the request arrived on.
    pub session_id: u64,
    /// Program to run.
    pub command: String,
    /// Arguments handed to the program.
    pub args: Vec<String>,
}

/// Why the executor refused a request or a report.
#[derive(Clone, Copy, PartialEq, Eq, Structural, Debug)]
pub enum ExecError {
    /// The request did not arrive on the currently authorized session.
    Unauthorized,
    /// The request identity already ran or is still running.
    DuplicateRequest,
    /// No execution with this handle is awaiting a report.
    UnknownHandle,
}

/// What the process collaborator reports for one spawned command.
#[derive(PartialEq, Eq, Debug)]
pub enum SpawnOutcome {
    /// The process ran to an exit; output is whatever was captured.
    Exited { exit_code: i64, output: Vec<u8> },
    /// The command never started (missing binary, permission denied).
    CouldNotStart { message: String },
}

/// How one execution ended, reported as data, never thrown.
#[derive(PartialEq, Eq, Debug)]
pub enum ExecutionOutcome {
    /// The process exited; output is capped at [`MAX_OUTPUT_BYTES`].
    Completed { exit_code: i64, output: Vec<u8> },
    /// The command could not run; the message says why.
    ExecutionFailure { message: String },
}

/// Determinate outcome of one request, correlated by its identity.
#[derive(PartialEq, Eq, Debug)]
pub struct ExecutionResult {
    /// Identity of the request this result answers.
    pub request_id: u64,
    /// How the execution ended.
    pub outcome: ExecutionOutcome,
}

/// An accepted request whose process has not reported back yet.
#[derive(PartialEq, Eq, Debug)]
pub struct PendingExecution {
    /// Handle under which the outcome will be reported.
    pub handle: u64,
    /// The accepted request.
    pub request: ExecutionRequest,
}

/// A finished execution awaiting relay over the session.
#[derive(PartialEq, Eq, Debug)]
pub struct CompletedExecution {
    /// Handle the execution ran under.
    pub handle: u64,
    /// The determinate outcome.
    pub result: ExecutionResult,
}

/// What the determinate result of an execution report must hold: the
/// identity of the request it answers, and — for a process that ran —
/// its exit code and output capped at [`MAX_OUTPUT_BYTES`], or — for a
/// command that never started — the failure kind with the reason.
pub open spec fn matches_report(
    result: ExecutionResult,
    request_id: u64,
    outcome: SpawnOutcome,
) -> bool {
    &&& result.request_id == request_id
    &&& match outcome {
        SpawnOutcome::Exited { exit_code, output } => {
            &&& result.outcome is Completed
            &&& result.outcome->Completed_exit_code == exit_code
            &&& result.outcome->Completed_output@ == (if output@.len() <= MAX_OUTPUT_BYTES {
                output@
            } else {
                output@.subrange(0, MAX_OUTPUT_BYTES as int)
            })
        },
        SpawnOutcome::CouldNotStart { message } => {
            &&& result.outcome is ExecutionFailure
            &&& result.outcome->ExecutionFailure_message@ == message@
        },
    }
}

/// Accepts authenticated execution requests and pairs each with the
/// outcome the process collaborator reports.
pub struct Executor {
    /// The one session whose requests are currently accepted, if any.
    pub authorized_session: Option<u64>,
    /// Accepted requests whose processes have not reported back.
    pub pending: Vec<PendingExecution>,
    /// Finished executions awaiting relay.
    pub completed: Vec<CompletedExecution>,
    /// Handle for the next accepted request; larger than every handle
    /// handed out so far.
    pub next_handle: u64,
}

impl Executor {
    /// Some pending execution runs under this handle.
    pub open spec fn pending_has_handle(self, h: u64) -> bool {
        exists|i: int| 0 <= i < self.pending@.len() && (#[trigger] self.pending@[i]).handle == h
    }

    /// Some finished execution ran under this handle.
    pub open spec fn completed_has_handle(self, h: u64) -> bool {
        exists|i: int|
            0 <= i < self.completed@.len() && (#[trigger] self.completed@[i]).handle == h
    }

    /// The request identity is running or already ran.
    pub open spec fn knows_request_id(self, id: u64) -> bool {
        ||| exists|i: int|
            0 <= i < self.pending@.len() && (#[trigger] self.pending@[i]).request.request_id == id
        ||| exists|i: int|
            0 <= i < self.completed@.len() && (#[trigger] self.completed@[i]).result.request_id
                == id
    }

    /// Internal consistency: handles are unique and below
    /// `next_handle`, and no request identity appears twice anywhere —
    /// the shape that makes "at most one execution per request
    /// identity" hold.
    pub open spec fn wf(self) -> bool {
        &&& forall|i: int|
            0 <= i < self.pending@.len() ==> (#[trigger] self.pending@[i]).handle
                < self.next_handle
        &&& forall|i: int|
            0 <= i < self.completed@.len() ==> (#[trigger] self.completed@[i]).handle
                < self.next_handle
        &&& forall|i: int, j: int|
            0 <= i < self.pending@.len() && 0 <= j < self.pending@.len() && i != j
                ==> (#[trigger] self.pending@[i]).handle != (#[trigger] self.pending@[j]).handle
        &&& forall|i: int, j: int|
            0 <= i < self.completed@.len() && 0 <= j < self.completed@.len() && i != j
                ==> (#[trigger] self.completed@[i]).handle
                != (#[trigger] self.completed@[j]).handle
        &&& forall|i: int, j: int|
            0 <= i < self.pending@.len() && 0 <= j < self.completed@.len()
                ==> (#[trigger] self.pending@[i]).handle
                != (#[trigger] self.completed@[j]).handle
        &&& forall|i: int, j: int|
            0 <= i < self.pending@.len() && 0 <= j < self.pending@.len() && i != j
                ==> (#[trigger] self.pending@[i]).request.request_id
                != (#[trigger] self.pending@[j]).request.request_id
        &&& forall|i: int, j: int|
            0 <= i < self.completed@.len() && 0 <= j < self.completed@.len() && i != j
                ==> (#[trigger] self.completed@[i]).result.request_id
                != (#[trigger] self.completed@[j]).result.request_id
        &&& forall|i: int, j: int|
            0 <= i < self.pending@.len() && 0 <= j < self.completed@.len()
                ==> (#[trigger] self.pending@[i]).request.request_id
                != (#[trigger] self.completed@[j]).result.request_id
    }

    /// An executor with no authorized session and no work.
    pub fn new() -> (e: Executor)
        ensures
            e.wf(),
            e.authorized_session is None,
            e.pending@.len() == 0,
            e.completed@.len() == 0,
            e.next_handle == 0,
    {
        Executor {
            authorized_session: None,
            pending: Vec::new(),
            completed: Vec::new(),
            next_handle: 0,
        }
    }

    /// Makes the given session the one whose requests are accepted,
    /// replacing any earlier authorization.
    pub fn authorize(&mut self, session_id: u64)
        requires
            old(self).wf(),
        ensures
            final(self).wf(),
            *final(self) == (Executor {
                authorized_session: Some(session_id),
                ..*old(self)
            }),
    {
        self.authorized_session = Some(session_id);
    }

    /// Withdraws authorization; every later request is rejected until
    /// a session is authorized again.
    pub fn revoke(&mut self)
        requires
            old(self).wf(),
        ensures
            final(self).wf(),
            *final(self) == (Executor { authorized_session: None, ..*old(self) }),
    {
        self.authorized_session = None;
    }

    /// Accepts a request exactly when it arrived on the authorized
    /// session and its identity has not been seen: the request joins
    /// the pending work under a fresh handle and nothing else changes.
    /// An unauthenticated or duplicate request changes nothing — in
    /// particular, no process is started for it.
    pub fn submit(&mut self, request: ExecutionRequest) -> (r: Result<u64, ExecError>)
        requires
            old(self).wf(),
            old(self).next_handle < u64::MAX,
        ensures
            final(self).wf(),
            r is Ok <==> old(self).authorized_session == Some(request.session_id)
                && !old(self).knows_request_id(request.request_id),
            r is Ok ==> r->Ok_0 == old(self).next_handle && *final(self) == (Executor {
                pending: final(self).pending,
                next_handle: (old(self).next_handle + 1) as u64,
                ..*old(self)
            }) && final(self).pending@ == old(self).pending@.push(PendingExecution {
                handle: old(self).next_handle,
                request,
            }) && final(self).pending_has_handle(old(self).next_handle),
            r is Err ==> *final(self) == *old(self),
            old(self).authorized_session != Some(request.session_id)
                ==> r == Result::<u64, ExecError>::Err(ExecError::Unauthorized),
            old(self).authorized_session == Some(request.session_id)
                && old(self).knows_request_id(request.request_id)
                ==> r == Result::<u64, ExecError>::Err(ExecError::DuplicateRequest),
    {
        let authorized = match self.authorized_session {
            Some(sid) => sid == request.session_id,
            None => false,
        };
        if !authorized {
            return Err(ExecError::Unauthorized);
        }
        if self.knows_request_id_exec(request.request_id) {
            return Err(ExecError::DuplicateRequest);
        }
        let handle = self.next_handle;
        self.pending.push(PendingExecution { handle, request });
        self.next_handle = self.next_handle + 1;
        proof {
            assert((#[trigger] self.pending@[self.pending@.len() - 1]).handle == handle);
        }
        Ok(handle)
    }

    /// Whether the request identity is running or already ran.
    pub fn knows_request_id_exec(&self, id: u64) -> (r: bool)
        ensures
            r == self.knows_request_id(id),
    {
        let mut i: usize = 0;
        while i < self.pending.len()
            invariant
                0 <= i <= self.pending@.len(),
                forall|k: int| 0 <= k < i ==> (#[trigger] self.pending@[k]).request.request_id != id,
            decreases self.pending@.len() - i,
        {
            if self.pending[i].request.request_id == id {
                return true;
            }
            i = i + 1;
        }
        let mut j: usize = 0;
        while j < self.completed.len()
            invariant
                0 <= j <= self.completed@.len(),
                forall|k: int|
                    0 <= k < j ==> (#[trigger] self.completed@[k]).result.request_id != id,
            decreases self.completed@.len() - j,
        {
            if self.completed[j].result.request_id == id {
                return true;
            }
            j = j + 1;
        }
        false
    }

    /// Index of the pending execution under this handle, if any.
    fn find_pending(&self, handle: u64) -> (r: Option<usize>)
        ensures
            r is Some <==> self.pending_has_handle(handle),
            r is Some ==> 0 <= r->0 < self.pending@.len()
                && self.pending@[r->0 as int].handle == handle,
    {
        let mut i: usize = 0;
        while i < self.pending.len()
            invariant
                0 <= i <= self.pending@.len(),
                forall|k: int| 0 <= k < i ==> (#[trigger] self.pending@[k]).handle != handle,
            decreases self.pending@.len() - i,
        {
            if self.pending[i].handle == handle {
                return Some(i);
            }
            i = i + 1;
        }
        None
    }

    /// The command a pending execution must run, by its handle.
    pub fn pending_command(&self, handle: u64) -> (r: Option<&ExecutionRequest>)
        ensures
            r is Some <==> self.pending_has_handle(handle),
            r is Some ==> exists|i: int|
                0 <= i < self.pending@.len() && (#[trigger] self.pending@[i]).handle == handle
                    && *r->0 == self.pending@[i].request,
    {
        match self.find_pending(handle) {
            Some(i) => Some(&self.pending[i].request),
            None => None,
        }
    }

    /// Consumes the process collaborator's report for a pending
    /// execution: the pending entry leaves, and a determinate result —
    /// tagged with the original request identity, output capped —
    /// joins the finished work.  A handle nothing runs under is
    /// refused and changes nothing.
    pub fn complete(&mut self, handle: u64, outcome: SpawnOutcome) -> (r: Result<(), ExecError>)
        requires
            old(self).wf(),
        ensures
            final(self).wf(),
            r is Ok <==> old(self).pending_has_handle(handle),
            r is Err ==> *final(self) == *old(self)
                && r == Result::<(), ExecError>::Err(ExecError::UnknownHandle),
            r is Ok ==> final(self).completed@.len() == old(self).completed@.len() + 1
                && final(self).completed@.drop_last() == old(self).completed@
                && final(self).completed@.last().handle == handle,
            r is Ok ==> exists|i: int|
                {
                    &&& 0 <= i < old(self).pending@.len()
                    &&& (#[trigger] old(self).pending@[i]).handle == handle
                    &&& final(self).pending@ == old(self).pending@.remove(i)
                    &&& matches_report(
                        final(self).completed@.last().result,
                        old(self).pending@[i].request.request_id,
                        outcome,
                    )
                },
            final(self).authorized_session == old(self).authorized_session,
            final(self).next_handle == old(self).next_handle,
    {
        let idx = match self.find_pending(handle) {
            Some(i) => i,
            None => {
                return Err(ExecError::UnknownHandle);
            },
        };
        let ghost outcome0 = outcome;
        let entry = self.pending.remove(idx);
        let result = match outcome {
            SpawnOutcome::Exited { exit_code, mut output } => {
                let ghost output0 = output;
                output.truncate(MAX_OUTPUT_BYTES);
                proof {
                    if output0@.len() <= MAX_OUTPUT_BYTES {
                        assert(output@ =~= output0@);
                    } else {
                        assert(output@ =~= output0@.subrange(0, MAX_OUTPUT_BYTES as int));
                    }
                }
                ExecutionResult {
                    request_id: entry.request.request_id,
                    outcome: ExecutionOutcome::Completed { exit_code, output },
                }
            },
            SpawnOutcome::CouldNotStart { message } => ExecutionResult {
                request_id: entry.request.request_id,
                outcome: ExecutionOutcome::ExecutionFailure { message },
            },
        };
        self.completed.push(CompletedExecution { handle, result });
        proof {
            let i = idx as int;
            assert((#[trigger] old(self).pending@[i]).handle == handle);
            assert(self.pending@ == old(self).pending@.remove(i));
            assert(matches_report(
                self.completed@.last().result,
                old(self).pending@[i].request.request_id,
                outcome0,
            ));
        }
        Ok(())
    }

    /// Hands a finished execution out for relay, at most once: the
    /// entry leaves the finished work with its result.
    pub fn take_result(&mut self, handle: u64) -> (r: Option<ExecutionResult>)
        requires
            old(self).wf(),
        ensures
            final(self).wf(),
            r is Some <==> old(self).completed_has_handle(handle),
            r is None ==> *final(self) == *old(self),
            r is Some ==> exists|i: int|
                {
                    &&& 0 <= i < old(self).completed@.len()
                    &&& (#[trigger] old(self).completed@[i]).handle == handle
                    &&& r->0 == old(self).completed@[i].result
                    &&& final(self).completed@ == old(self).completed@.remove(i)
                },
            final(self).pending@ == old(self).pending@,
            final(self).authorized_session == old(self).authorized_session,
            final(self).next_handle == old(self).next_handle,
    {
        let mut i: usize = 0;
        while i < self.completed.len()
            invariant
                *self == *old(self),
                self.wf(),
                0 <= i <= self.completed@.len(),
                forall|k: int| 0 <= k < i ==> (#[trigger] self.completed@[k]).handle != handle,
            decreases self.completed@.len() - i,
        {
            if self.completed[i].handle == handle {
                let entry = self.completed.remove(i);
                proof {
                    let oc = old(self).completed@;
                    let nc = self.completed@;
                    oc.remove_ensures(i as int);
                    assert((#[trigger] oc[i as int]).handle == handle);
                    assert forall|a: int| 0 <= a < nc.len() implies #[trigger] nc[a] == (if a
                        < i as int {
                        oc[a]
                    } else {
                        oc[a + 1]
                    }) by {
                        assert(nc == oc.remove(i as int));
                    }
                }
                return Some(entry.result);
            }
            i = i + 1;
        }
        None
    }
}

} // verus!
