use rpc_sync::ExecError;
use rpc_sync::ExecutionOutcome;
use rpc_sync::ExecutionRequest;
use rpc_sync::Executor;
use rpc_sync::MAX_OUTPUT_BYTES;
use rpc_sync::SpawnOutcome;

fn request(request_id: u64, session_id: u64) -> ExecutionRequest {
    ExecutionRequest {
        request_id,
        session_id,
        command: String::from("/usr/bin/uname"),
        args: vec![String::from("-a")],
    }
}

#[test]
fn unauthenticated_request_is_rejected_and_nothing_starts() {
    let mut ex = Executor::new();
    // No session is authorized at all.
    assert_eq!(ex.submit(request(1, 7)), Err(ExecError::Unauthorized));
    // A different session is authorized.
    ex.authorize(5);
    assert_eq!(ex.submit(request(1, 7)), Err(ExecError::Unauthorized));
    // Nothing was accepted, so no command is pending anywhere.
    assert!(ex.pending_command(0).is_none());
    assert!(!ex.knows_request_id_exec(1));
}

#[test]
fn revoked_authorization_rejects_later_requests() {
    let mut ex = Executor::new();
    ex.authorize(7);
    ex.revoke();
    assert_eq!(ex.submit(request(1, 7)), Err(ExecError::Unauthorized));
}

#[test]
fn missing_binary_yields_a_failure_result() {
    let mut ex = Executor::new();
    ex.authorize(7);
    let handle = ex.submit(request(11, 7)).unwrap();
    // The process collaborator finds no such binary; the executor
    // still produces a determinate result.
    let report = SpawnOutcome::CouldNotStart {
        message: String::from("no such file or directory"),
    };
    assert_eq!(ex.complete(handle, report), Ok(()));
    let result = ex.take_result(handle).unwrap();
    assert_eq!(result.request_id, 11);
    match result.outcome {
        ExecutionOutcome::ExecutionFailure { message } => {
            assert_eq!(message, "no such file or directory");
        }
        ExecutionOutcome::Completed { .. } => panic!("a command that never started completed"),
    }
}

#[test]
fn exit_and_output_are_captured() {
    let mut ex = Executor::new();
    ex.authorize(3);
    let handle = ex.submit(request(21, 3)).unwrap();
    let cmd = ex.pending_command(handle).unwrap();
    assert_eq!(cmd.request_id, 21);
    assert_eq!(cmd.command, "/usr/bin/uname");

    let report = SpawnOutcome::Exited {
        exit_code: 2,
        output: vec![104, 105],
    };
    assert_eq!(ex.complete(handle, report), Ok(()));
    assert!(ex.pending_command(handle).is_none());

    let result = ex.take_result(handle).unwrap();
    assert_eq!(result.request_id, 21);
    match result.outcome {
        ExecutionOutcome::Completed { exit_code, output } => {
            assert_eq!(exit_code, 2);
            assert_eq!(output, vec![104, 105]);
        }
        ExecutionOutcome::ExecutionFailure { .. } => panic!("the process did exit"),
    }
}

#[test]
fn captured_output_is_capped() {
    let mut ex = Executor::new();
    ex.authorize(3);
    let handle = ex.submit(request(31, 3)).unwrap();
    let big = vec![0u8; MAX_OUTPUT_BYTES + 4096];
    let report = SpawnOutcome::Exited { exit_code: 0, output: big };
    assert_eq!(ex.complete(handle, report), Ok(()));
    let result = ex.take_result(handle).unwrap();
    match result.outcome {
        ExecutionOutcome::Completed { output, .. } => {
            assert_eq!(output.len(), MAX_OUTPUT_BYTES);
        }
        ExecutionOutcome::ExecutionFailure { .. } => panic!("the process did exit"),
    }
}

#[test]
fn a_request_identity_runs_at_most_once() {
    let mut ex = Executor::new();
    ex.authorize(9);
    let handle = ex.submit(request(41, 9)).unwrap();
    // While it is still running.
    assert_eq!(ex.submit(request(41, 9)), Err(ExecError::DuplicateRequest));
    let report = SpawnOutcome::Exited { exit_code: 0, output: vec![] };
    assert_eq!(ex.complete(handle, report), Ok(()));
    // And after it finished, until the result is relayed.
    assert_eq!(ex.submit(request(41, 9)), Err(ExecError::DuplicateRequest));
    // A fresh identity is welcome.
    assert!(ex.submit(request(42, 9)).is_ok());
}

#[test]
fn unknown_handles_are_refused() {
    let mut ex = Executor::new();
    ex.authorize(1);
    let report = SpawnOutcome::Exited { exit_code: 0, output: vec![] };
    assert_eq!(ex.complete(99, report), Err(ExecError::UnknownHandle));
    assert!(ex.take_result(99).is_none());
}

#[test]
fn a_result_is_handed_out_once() {
    let mut ex = Executor::new();
    ex.authorize(1);
    let handle = ex.submit(request(51, 1)).unwrap();
    let report = SpawnOutcome::Exited { exit_code: 0, output: vec![] };
    assert_eq!(ex.complete(handle, report), Ok(()));
    assert!(ex.take_result(handle).is_some());
    assert!(ex.take_result(handle).is_none());
}

#[test]
fn handles_are_distinct_across_requests() {
    let mut ex = Executor::new();
    ex.authorize(1);
    let h1 = ex.submit(request(61, 1)).unwrap();
    let h2 = ex.submit(request(62, 1)).unwrap();
    assert_ne!(h1, h2);
    assert_eq!(ex.pending_command(h1).unwrap().request_id, 61);
    assert_eq!(ex.pending_command(h2).unwrap().request_id, 62);
}
