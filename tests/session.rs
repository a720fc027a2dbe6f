use superviper::{
    Endpoint, Ipv4Address, SessionAction, SessionConfig, SessionDriver, SessionEnd, SessionEvent,
    SessionPhase, COOLDOWN_MS, PACING_MS, POLL_INTERVAL_MS, SOCKET_TIMEOUT_MS,
};

fn remote() -> Endpoint {
    Endpoint { addr: Ipv4Address { a: 142, b: 250, c: 185, d: 115 }, port: 80 }
}

fn local() -> Ipv4Address {
    Ipv4Address { a: 192, b: 168, c: 1, d: 20 }
}

fn fast_config() -> SessionConfig {
    SessionConfig { pacing_ms: 0, ..SessionConfig::standard(remote()) }
}

/// A scripted environment: the stack's readiness over polls, and one outcome
/// per connect, write and read call.
struct Mock {
    link_polls_down: usize,
    address_polls_missing: usize,
    connects: Vec<bool>,
    writes: Vec<bool>,
    reads: Vec<Result<usize, ()>>,
}

/// Everything the driver asked for, in order.
fn drive(driver: &mut SessionDriver, mock: &mut Mock, steps: usize) -> Vec<SessionAction> {
    let mut log = Vec::new();
    let mut action = driver.pending();
    for _ in 0..steps {
        log.push(action);
        let event = match action {
            SessionAction::PollLink => {
                if mock.link_polls_down > 0 {
                    mock.link_polls_down -= 1;
                    SessionEvent::Link(false)
                } else {
                    SessionEvent::Link(true)
                }
            }
            SessionAction::PollAddress => {
                if mock.address_polls_missing > 0 {
                    mock.address_polls_missing -= 1;
                    SessionEvent::Address(None)
                } else {
                    SessionEvent::Address(Some(local()))
                }
            }
            SessionAction::Sleep(_) => SessionEvent::Elapsed,
            SessionAction::OpenSocket(_) => SessionEvent::Opened,
            SessionAction::Connect(_) => {
                if mock.connects.is_empty() || mock.connects.remove(0) {
                    SessionEvent::Connected
                } else {
                    SessionEvent::ConnectFailed
                }
            }
            SessionAction::WriteRequest => {
                if mock.writes.is_empty() || mock.writes.remove(0) {
                    SessionEvent::Written
                } else {
                    SessionEvent::WriteFailed
                }
            }
            SessionAction::Read => {
                if mock.reads.is_empty() {
                    SessionEvent::Received(0)
                } else {
                    match mock.reads.remove(0) {
                        Ok(n) => SessionEvent::Received(n),
                        Err(()) => SessionEvent::ReadFailed,
                    }
                }
            }
            SessionAction::Deliver(_) => SessionEvent::Delivered,
            SessionAction::Close(_) => SessionEvent::Closed,
            SessionAction::Hold => panic!("the mock always answers the pending request"),
        };
        action = driver.step(event);
    }
    log
}

fn quiet_mock() -> Mock {
    Mock {
        link_polls_down: 0,
        address_polls_missing: 0,
        connects: vec![],
        writes: vec![],
        reads: vec![],
    }
}

fn count(log: &[SessionAction], pred: fn(&SessionAction) -> bool) -> usize {
    log.iter().filter(|a| pred(a)).count()
}

fn is_socket_op(a: &SessionAction) -> bool {
    matches!(
        a,
        SessionAction::OpenSocket(_)
            | SessionAction::Connect(_)
            | SessionAction::WriteRequest
            | SessionAction::Read
            | SessionAction::Close(_)
    )
}

#[test]
fn scenario_connect_error_then_clean_exchange() {
    let mut d = SessionDriver::new(fast_config());
    let mut mock = Mock {
        connects: vec![false, true],
        reads: vec![Ok(3), Ok(0)],
        ..quiet_mock()
    };
    let log = drive(&mut d, &mut mock, 20);
    let expected = vec![
        SessionAction::PollLink,
        SessionAction::PollAddress,
        SessionAction::Sleep(0),
        // attempt 1
        SessionAction::OpenSocket(SOCKET_TIMEOUT_MS),
        SessionAction::Connect(remote()),
        SessionAction::Close(SessionEnd::ConnectError),
        SessionAction::Sleep(0),
        // attempt 2
        SessionAction::OpenSocket(SOCKET_TIMEOUT_MS),
        SessionAction::Connect(remote()),
        SessionAction::WriteRequest,
        SessionAction::Read,
        SessionAction::Deliver(3),
        SessionAction::Read,
        SessionAction::Close(SessionEnd::Eof),
        SessionAction::Sleep(COOLDOWN_MS),
        SessionAction::Sleep(0),
        // attempt 3
        SessionAction::OpenSocket(SOCKET_TIMEOUT_MS),
        SessionAction::Connect(remote()),
        SessionAction::WriteRequest,
        SessionAction::Read,
    ];
    assert_eq!(log, expected);
    // attempt 1 made no write or read; attempt 2 one write and two reads
    assert_eq!(count(&log[..7], |a| matches!(a, SessionAction::WriteRequest)), 0);
    assert_eq!(count(&log[7..15], |a| matches!(a, SessionAction::WriteRequest)), 1);
    assert_eq!(count(&log[7..15], |a| matches!(a, SessionAction::Read)), 2);
}

#[test]
fn standard_config_timings() {
    let c = SessionConfig::standard(remote());
    assert_eq!(c.poll_ms, 500);
    assert_eq!(c.pacing_ms, 1000);
    assert_eq!(c.cooldown_ms, 3000);
    assert_eq!(c.socket_timeout_ms, 10_000);
    assert_eq!(c.remote, remote());
    assert_eq!((POLL_INTERVAL_MS, PACING_MS), (500, 1000));
}

#[test]
fn every_exit_path_releases_its_socket() {
    let mut d = SessionDriver::new(SessionConfig::standard(remote()));
    let mut mock = Mock {
        connects: vec![false, true, true, true],
        writes: vec![false, true, true],
        reads: vec![Err(()), Ok(5), Ok(0)],
        ..quiet_mock()
    };
    let log = drive(&mut d, &mut mock, 60);
    let mut open = 0i32;
    for a in &log {
        match a {
            SessionAction::OpenSocket(_) => open += 1,
            SessionAction::Close(_) => open -= 1,
            _ => {}
        }
        assert!(open == 0 || open == 1);
    }
    let ends: Vec<SessionEnd> = log
        .iter()
        .filter_map(|a| match a {
            SessionAction::Close(e) => Some(*e),
            _ => None,
        })
        .collect();
    assert_eq!(
        &ends[..4],
        &[SessionEnd::ConnectError, SessionEnd::WriteError, SessionEnd::ReadError, SessionEnd::Eof]
    );
}

#[test]
fn immediate_connect_failures_stay_paced() {
    let cfg = SessionConfig::standard(remote());
    let mut d = SessionDriver::new(cfg);
    let mut mock = Mock { connects: vec![false; 10], ..quiet_mock() };
    let log = drive(&mut d, &mut mock, 40);
    let mut opens = 0;
    for (j, a) in log.iter().enumerate() {
        if let SessionAction::OpenSocket(_) = a {
            opens += 1;
            assert_eq!(log[j - 1], SessionAction::Sleep(PACING_MS));
        }
    }
    assert!(opens >= 5);
}

#[test]
fn no_socket_operation_before_link_and_address() {
    let mut d = SessionDriver::new(SessionConfig::standard(remote()));
    let mut mock = Mock { link_polls_down: 3, address_polls_missing: 2, ..quiet_mock() };
    let log = drive(&mut d, &mut mock, 30);
    let link_up = 2 * 3; // three failed polls, each followed by a pause
    assert_eq!(log[link_up], SessionAction::PollLink);
    let address = link_up + 1 + 2 * 2;
    assert_eq!(log[address], SessionAction::PollAddress);
    assert_eq!(log[address - 1], SessionAction::Sleep(POLL_INTERVAL_MS));
    let first_op = log.iter().position(is_socket_op).unwrap();
    assert!(first_op > address);
    assert_eq!(log[first_op], SessionAction::OpenSocket(SOCKET_TIMEOUT_MS));
}

#[test]
fn connect_retried_until_it_succeeds() {
    let k = 4;
    let mut connects = vec![false; k];
    connects.push(true);
    let mut mock = Mock { connects, ..quiet_mock() };
    let log = drive(&mut SessionDriver::new(fast_config()), &mut mock, 100);
    let first_write = log.iter().position(|a| *a == SessionAction::WriteRequest).unwrap();
    let before = &log[..first_write];
    assert_eq!(count(before, |a| matches!(a, SessionAction::Connect(_))), k + 1);
    assert_eq!(log[first_write - 1], SessionAction::Connect(remote()));
}

#[test]
fn eof_after_two_reads_ends_cleanly() {
    let mut d = SessionDriver { config: fast_config(), phase: SessionPhase::Reading };
    assert_eq!(d.step(SessionEvent::Received(7)), SessionAction::Deliver(7));
    assert_eq!(d.step(SessionEvent::Delivered), SessionAction::Read);
    assert_eq!(d.step(SessionEvent::Received(2)), SessionAction::Deliver(2));
    assert_eq!(d.step(SessionEvent::Delivered), SessionAction::Read);
    assert_eq!(d.step(SessionEvent::Received(0)), SessionAction::Close(SessionEnd::Eof));
    assert_eq!(d.step(SessionEvent::Closed), SessionAction::Sleep(COOLDOWN_MS));
    assert_eq!(d.phase, SessionPhase::CoolingDown);
}

#[test]
fn write_and_read_errors_end_the_attempt() {
    let mut d = SessionDriver { config: fast_config(), phase: SessionPhase::Writing };
    assert_eq!(d.step(SessionEvent::WriteFailed), SessionAction::Close(SessionEnd::WriteError));
    assert_eq!(d.step(SessionEvent::Closed), SessionAction::Sleep(COOLDOWN_MS));
    let mut d = SessionDriver { config: fast_config(), phase: SessionPhase::Reading };
    assert_eq!(d.step(SessionEvent::ReadFailed), SessionAction::Close(SessionEnd::ReadError));
    assert_eq!(d.step(SessionEvent::Closed), SessionAction::Sleep(COOLDOWN_MS));
}

#[test]
fn connect_error_skips_the_cooldown() {
    let mut d = SessionDriver { config: fast_config(), phase: SessionPhase::Connecting };
    assert_eq!(d.step(SessionEvent::ConnectFailed), SessionAction::Close(SessionEnd::ConnectError));
    assert_eq!(d.step(SessionEvent::Closed), SessionAction::Sleep(0));
    assert_eq!(d.phase, SessionPhase::Pacing);
}

#[test]
fn unrelated_event_holds() {
    let mut d = SessionDriver::new(fast_config());
    assert_eq!(d.step(SessionEvent::Closed), SessionAction::Hold);
    assert_eq!(d.phase, SessionPhase::AwaitLink);
    assert_eq!(d.pending(), SessionAction::PollLink);
    let mut d = SessionDriver { config: fast_config(), phase: SessionPhase::Opening };
    assert_eq!(d.step(SessionEvent::Elapsed), SessionAction::Hold);
    assert_eq!(d.pending(), SessionAction::OpenSocket(SOCKET_TIMEOUT_MS));
}
