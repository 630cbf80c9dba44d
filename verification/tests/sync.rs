use rpc_sync::Action;
use rpc_sync::ConnectError;
use rpc_sync::ConnectOutcome;
use rpc_sync::ExchangeOutcome;
use rpc_sync::RPC_RETRY_INTERVAL_NS;
use rpc_sync::Session;
use rpc_sync::SessionError;
use rpc_sync::StaticConfig;
use rpc_sync::Status;
use rpc_sync::Synchronizer;

fn config() -> StaticConfig {
    StaticConfig::new(String::from("backend.example:4433"), true)
}

#[test]
fn config_carries_the_standard_intervals() {
    let c = config();
    assert_eq!(c.retry_interval_ns, RPC_RETRY_INTERVAL_NS);
    assert_eq!(c.retry_interval_ns, 60_000_000_000);
    assert_eq!(c.session_timeout_ns, rpc_sync::DEFAULT_TIMEOUT);
}

#[test]
fn unreachable_backend_retries_no_earlier_than_the_interval() {
    let t0: u64 = 1_000_000;
    let mut s = Synchronizer::new(config());
    assert_eq!(s.status(), Status::Disconnected);

    s.start();
    assert_eq!(s.status(), Status::Disconnected);
    assert_eq!(s.poll(t0), Action::Connect);
    assert_eq!(s.status(), Status::Connecting);

    // The address is unreachable: the attempt fails.
    assert_eq!(s.on_connect_outcome(t0, ConnectOutcome::Refused), Err(ConnectError::ConnectFailed));
    assert_eq!(s.status(), Status::Disconnected);

    // No new attempt before sixty seconds have passed.
    assert_eq!(s.poll(t0 + 1), Action::Wait(RPC_RETRY_INTERVAL_NS - 1));
    assert_eq!(s.status(), Status::Disconnected);
    assert_eq!(
        s.poll(t0 + RPC_RETRY_INTERVAL_NS - 1),
        Action::Wait(1),
    );

    // Exactly at the retry instant the next attempt starts.
    assert_eq!(s.poll(t0 + RPC_RETRY_INTERVAL_NS), Action::Connect);
    assert_eq!(s.status(), Status::Connecting);
}

#[test]
fn stop_quiesces_until_started_again() {
    let t0: u64 = 500;
    let mut s = Synchronizer::new(config());
    s.start();
    assert_eq!(s.poll(t0), Action::Connect);
    assert_eq!(s.on_connect_outcome(t0, ConnectOutcome::Established), Ok(()));
    assert_eq!(s.status(), Status::Connected);

    s.stop();
    assert_eq!(s.status(), Status::Disconnected);
    assert_eq!(s.current_session_id(), None);

    // No background retry fires while stopped, however often we poll.
    for dt in 0..5u64 {
        assert_eq!(s.poll(t0 + dt * RPC_RETRY_INTERVAL_NS), Action::Idle);
        assert_eq!(s.status(), Status::Disconnected);
    }

    // Stopping again changes nothing.
    s.stop();
    assert_eq!(s.status(), Status::Disconnected);

    s.start();
    assert_eq!(s.poll(t0), Action::Connect);
    assert_eq!(s.status(), Status::Connecting);
}

#[test]
fn start_is_idempotent() {
    let mut s = Synchronizer::new(config());
    s.start();
    assert_eq!(s.poll(0), Action::Connect);
    // A second start while running must not disturb the attempt.
    s.start();
    assert_eq!(s.status(), Status::Connecting);
}

#[test]
fn failed_exchange_forces_a_replacement_session() {
    let t0: u64 = 42;
    let mut s = Synchronizer::new(config());
    s.start();
    assert_eq!(s.poll(t0), Action::Connect);
    assert_eq!(s.on_connect_outcome(t0, ConnectOutcome::Established), Ok(()));
    let first_id = s.current_session_id().unwrap();

    // One request times out: the session is poisoned, never reused.
    assert_eq!(
        s.exchange(ExchangeOutcome::TimedOut),
        Err(SessionError::Timeout)
    );
    assert_eq!(s.status(), Status::Degraded);

    // The replacement attempt starts at once, and its success installs
    // a session with a strictly larger identity.
    assert_eq!(s.poll(t0 + 1), Action::Connect);
    assert_eq!(s.status(), Status::Degraded);
    assert_eq!(s.on_connect_outcome(t0 + 1, ConnectOutcome::Established), Ok(()));
    assert_eq!(s.status(), Status::Connected);
    let second_id = s.current_session_id().unwrap();
    assert!(second_id > first_id);

    // The fresh session carries requests again.
    let reply = s.exchange(ExchangeOutcome::Response(vec![1, 2, 3]));
    assert_eq!(reply, Ok(vec![1, 2, 3]));
    assert_eq!(s.status(), Status::Connected);
}

#[test]
fn degraded_attempt_that_fails_drops_to_disconnected() {
    let t0: u64 = 7;
    let mut s = Synchronizer::new(config());
    s.start();
    assert_eq!(s.poll(t0), Action::Connect);
    assert_eq!(s.on_connect_outcome(t0, ConnectOutcome::Established), Ok(()));
    assert_eq!(s.exchange(ExchangeOutcome::Closed), Err(SessionError::Closed));
    assert_eq!(s.status(), Status::Degraded);

    assert_eq!(s.poll(t0), Action::Connect);
    assert_eq!(
        s.on_connect_outcome(t0, ConnectOutcome::TimedOut),
        Err(ConnectError::Timeout)
    );
    assert_eq!(s.status(), Status::Disconnected);
    assert_eq!(s.current_session_id(), None);
    assert_eq!(s.poll(t0 + 1), Action::Wait(RPC_RETRY_INTERVAL_NS - 1));
}

#[test]
fn operator_failure_is_terminal_and_observable() {
    let mut s = Synchronizer::new(config());
    s.start();
    assert_eq!(s.poll(0), Action::Connect);
    assert_eq!(s.on_connect_outcome(0, ConnectOutcome::Established), Ok(()));
    s.mark_failed();
    assert_eq!(s.status(), Status::Failed);
    assert_eq!(s.current_session_id(), None);
}

#[test]
fn session_open_maps_each_failure_to_its_error() {
    assert!(Session::open(0, 100, ConnectOutcome::Established).is_ok());
    assert_eq!(
        Session::open(0, 100, ConnectOutcome::Refused).unwrap_err(),
        ConnectError::ConnectFailed
    );
    assert_eq!(
        Session::open(0, 100, ConnectOutcome::TimedOut).unwrap_err(),
        ConnectError::Timeout
    );
}

#[test]
fn session_exchange_poisons_on_timeout() {
    let mut sess = Session::open(3, 100, ConnectOutcome::Established).unwrap();
    assert!(sess.is_usable());
    let data = sess.exchange(ExchangeOutcome::Response(vec![9])).unwrap();
    assert_eq!(data, vec![9]);
    assert!(sess.is_usable());
    assert_eq!(
        sess.exchange(ExchangeOutcome::TimedOut),
        Err(SessionError::Timeout)
    );
    assert!(!sess.is_usable());
}

#[test]
fn session_exchange_poisons_on_closure() {
    let mut sess = Session::open(4, 100, ConnectOutcome::Established).unwrap();
    assert_eq!(
        sess.exchange(ExchangeOutcome::Closed),
        Err(SessionError::Closed)
    );
    assert!(!sess.is_usable());
}

#[test]
fn session_close_releases_exactly_once() {
    let mut sess = Session::open(5, 100, ConnectOutcome::Established).unwrap();
    assert!(sess.close());
    assert!(!sess.close());
    assert!(!sess.close());
    assert!(!sess.is_usable());
}
