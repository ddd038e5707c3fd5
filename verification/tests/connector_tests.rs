use ekf_connector::ad_client::ADClient;
use ekf_connector::command::{Command, CommandResult, Outcome, Request};
use ekf_connector::connector::{
    Connector, ConnectorState, Frame, Probe, SessionAction, SessionError, SessionEvent,
    SessionPhase,
};
use ekf_connector::ews_client::EWSClient;

fn connector() -> Connector {
    Connector::new(
        "wss://backend.example.com/ws/connector",
        "SECRET-REDACTED",
        ADClient::new("dc.example.com", 389, false, "svc", "pw", "DC=example,DC=com"),
        EWSClient::new("https://mail.example.com/EWS/Exchange.asmx", "svc", "pw"),
    )
}

fn state(running: bool, connected: bool, ad: bool, exchange: bool, error: Option<&str>) -> ConnectorState {
    ConnectorState {
        running,
        connected,
        ad_connected: ad,
        exchange_connected: exchange,
        last_error: error.map(|e| e.to_string()),
    }
}

fn at(c: &mut Connector, event: SessionEvent) -> SessionAction {
    c.on_event_at(event, "10:00:00", "NOW".to_string(), "STAMP".to_string())
}

fn running(c: &mut Connector) {
    c.start_at("10:00:00").unwrap();
    at(c, SessionEvent::DirectoryProbed(Probe::Reachable));
    at(c, SessionEvent::CalendarProbed(Probe::Reachable));
    at(c, SessionEvent::ChannelOpened);
}

fn ping() -> Command {
    Command { command: "ping".to_string(), request_id: "r1".to_string(), params: None }
}

#[test]
fn a_new_session_has_every_flag_false() {
    let c = connector();
    assert_eq!(c.get_state(), state(false, false, false, false, None));
    assert_eq!(c.phase(), SessionPhase::Idle);
    assert!(c.logs().is_empty());
    assert_eq!(c.channel_url(), "wss://backend.example.com/ws/connector?token=SECRET-REDACTED");
    assert_eq!(c.ad_client().url(), "ldap://dc.example.com:389");
    assert_eq!(c.ews_client().url(), "https://mail.example.com/EWS/Exchange.asmx");
}

#[test]
fn a_session_starts_probes_and_connects() {
    let mut c = connector();
    assert_eq!(c.start_at("09:59:59"), Ok(SessionAction::ProbeDirectory));
    assert_eq!(c.get_state(), state(true, false, false, false, None));
    assert_eq!(c.phase(), SessionPhase::ProbingDirectory);
    assert_eq!(
        at(&mut c, SessionEvent::DirectoryProbed(Probe::Reachable)),
        SessionAction::ProbeCalendar
    );
    assert_eq!(c.get_state(), state(true, false, true, false, None));
    assert_eq!(
        at(&mut c, SessionEvent::CalendarProbed(Probe::Unreachable("EWS returned 503".to_string()))),
        SessionAction::OpenChannel {
            url: "wss://backend.example.com/ws/connector?token=SECRET-REDACTED".to_string()
        }
    );
    assert_eq!(c.get_state(), state(true, false, true, false, None));
    assert_eq!(c.phase(), SessionPhase::Opening);
    assert_eq!(at(&mut c, SessionEvent::ChannelOpened), SessionAction::ReadFrame);
    assert_eq!(c.get_state(), state(true, true, true, false, None));
    assert_eq!(c.phase(), SessionPhase::Reading);
    assert_eq!(
        c.logs(),
        vec![
            "[09:59:59] Starting connector...",
            "[09:59:59] Testing AD connection...",
            "[10:00:00] AD connection OK",
            "[10:00:00] Testing Exchange connection...",
            "[10:00:00] Exchange connection failed: EWS returned 503",
            "[10:00:00] Connecting to backend...",
            "[10:00:00] Connected to backend",
        ]
    );
}

#[test]
fn a_failed_probe_does_not_abort_the_start() {
    let mut c = connector();
    c.start_at("10:00:00").unwrap();
    assert_eq!(
        at(&mut c, SessionEvent::DirectoryProbed(Probe::Unreachable("Bind failed: rc=49".to_string()))),
        SessionAction::ProbeCalendar
    );
    assert_eq!(c.get_state(), state(true, false, false, false, None));
    assert_eq!(c.logs()[2], "[10:00:00] AD connection failed: Bind failed: rc=49");
    at(&mut c, SessionEvent::CalendarProbed(Probe::Reachable));
    assert_eq!(c.get_state(), state(true, false, false, true, None));
    assert_eq!(c.logs()[4], "[10:00:00] Exchange connection OK");
}

#[test]
fn start_while_running_is_refused_and_changes_nothing() {
    let mut c = connector();
    running(&mut c);
    let before_state = c.get_state();
    let before_logs = c.logs();
    let before_phase = c.phase();
    assert_eq!(c.start_at("11:00:00"), Err(SessionError::AlreadyRunning));
    assert_eq!(c.start(), Err(SessionError::AlreadyRunning));
    assert_eq!(c.get_state(), before_state);
    assert_eq!(c.logs(), before_logs);
    assert_eq!(c.phase(), before_phase);
    assert_eq!(SessionError::AlreadyRunning.message(), "Already running");
}

#[test]
fn stop_twice_is_stop_once() {
    let mut once = connector();
    running(&mut once);
    let mut twice = connector();
    running(&mut twice);
    once.stop();
    twice.stop();
    twice.stop();
    assert_eq!(once.get_state(), twice.get_state());
    assert_eq!(once.logs(), twice.logs());
    assert_eq!(once.phase(), twice.phase());
    assert_eq!(once.get_state(), state(false, false, true, true, None));
    assert_eq!(once.phase(), SessionPhase::Stopped);
}

#[test]
fn stop_clears_running_whatever_the_state() {
    let mut idle = connector();
    idle.stop();
    assert_eq!(idle.get_state(), state(false, false, false, false, None));
    let mut probing = connector();
    probing.start_at("10:00:00").unwrap();
    probing.stop();
    assert_eq!(probing.get_state(), state(false, false, false, false, None));
    assert_eq!(at(&mut probing, SessionEvent::DirectoryProbed(Probe::Reachable)), SessionAction::Leave);
    assert_eq!(probing.get_state(), state(false, false, false, false, None));
    assert_eq!(probing.start_at("10:00:01"), Ok(SessionAction::ProbeDirectory));
    assert_eq!(probing.get_state(), state(true, false, false, false, None));
}

#[test]
fn a_channel_that_cannot_be_opened_leaves_the_session_running() {
    let mut c = connector();
    c.start_at("10:00:00").unwrap();
    at(&mut c, SessionEvent::DirectoryProbed(Probe::Reachable));
    at(&mut c, SessionEvent::CalendarProbed(Probe::Reachable));
    assert_eq!(
        at(&mut c, SessionEvent::ChannelFailed("URL error: bad scheme".to_string())),
        SessionAction::Fail("Failed to connect to backend: URL error: bad scheme".to_string())
    );
    assert_eq!(
        c.get_state(),
        state(true, false, true, true, Some("Failed to connect to backend: URL error: bad scheme"))
    );
    assert_eq!(c.phase(), SessionPhase::Ended);
    assert_eq!(
        c.logs().last().unwrap(),
        "[10:00:00] Failed to connect to backend: URL error: bad scheme"
    );
    assert_eq!(c.start_at("10:00:01"), Err(SessionError::AlreadyRunning));
    c.stop();
    assert_eq!(c.start_at("10:00:02"), Ok(SessionAction::ProbeDirectory));
}

#[test]
fn a_ping_command_is_answered() {
    let mut c = connector();
    running(&mut c);
    assert_eq!(
        at(&mut c, SessionEvent::Frame(Frame::Command(ping()))),
        SessionAction::Execute(Request::Ping)
    );
    assert_eq!(c.phase(), SessionPhase::Executing);
    assert_eq!(c.logs().last().unwrap(), "[10:00:00] Command: ping");
    let lines = c.logs().len();
    let action = at(&mut c, SessionEvent::Completed(Outcome::Pong));
    match action {
        SessionAction::Send(response) => {
            assert_eq!(response.kind, "response");
            assert_eq!(response.request_id, "r1");
            assert_eq!(response.command, "ping");
            assert!(response.success);
            assert_eq!(response.error, None);
            assert_eq!(
                response.result,
                CommandResult::Pong { pong: true, timestamp: "NOW".to_string() }
            );
            assert_eq!(response.timestamp, "STAMP");
        }
        other => panic!("unexpected action {:?}", other),
    }
    assert_eq!(c.phase(), SessionPhase::Reading);
    assert_eq!(c.logs().len(), lines);
    assert_eq!(c.get_state(), state(true, true, true, true, None));
}

#[test]
fn the_session_goes_on_after_a_sync_that_timed_out() {
    let mut c = connector();
    running(&mut c);
    let sync = Command { command: "sync_users".to_string(), request_id: "r2".to_string(), params: None };
    assert_eq!(
        at(&mut c, SessionEvent::Frame(Frame::Command(sync))),
        SessionAction::Execute(Request::SyncUsers {
            require_department: true,
            require_email: true,
            include_photo: true
        })
    );
    match at(&mut c, SessionEvent::Completed(Outcome::SyncTimedOut)) {
        SessionAction::Send(response) => {
            assert_eq!(response.result, CommandResult::Error("Sync timed out".to_string()));
            assert!(!response.success);
            assert_eq!(response.request_id, "r2");
        }
        other => panic!("unexpected action {:?}", other),
    }
    assert_eq!(c.logs().last().unwrap(), "[10:00:00] Sync timed out");
    assert_eq!(c.phase(), SessionPhase::Reading);
    assert_eq!(c.get_state(), state(true, true, true, true, None));
    assert_eq!(
        at(&mut c, SessionEvent::Frame(Frame::Command(ping()))),
        SessionAction::Execute(Request::Ping)
    );
}

#[test]
fn a_failed_calendar_fetch_is_answered_with_the_error() {
    let mut c = connector();
    running(&mut c);
    let fetch = Command {
        command: "get_calendar".to_string(),
        request_id: "r3".to_string(),
        params: None,
    };
    assert_eq!(
        at(&mut c, SessionEvent::Frame(Frame::Command(fetch))),
        SessionAction::Execute(Request::GetCalendar {
            email: String::new(),
            days_back: 7,
            days_forward: 30
        })
    );
    let failure = Outcome::CalendarFailed("EWS request failed: timed out".to_string());
    match at(&mut c, SessionEvent::Completed(failure)) {
        SessionAction::Send(response) => {
            assert!(!response.success);
            assert_eq!(response.error.as_deref(), Some("EWS request failed: timed out"));
            assert_eq!(
                response.result,
                CommandResult::Error("EWS request failed: timed out".to_string())
            );
            assert_eq!(response.request_id, "r3");
        }
        other => panic!("unexpected action {:?}", other),
    }
    assert_eq!(
        c.logs().last().unwrap(),
        "[10:00:00] Calendar fetch failed: EWS request failed: timed out"
    );
    assert_eq!(c.phase(), SessionPhase::Reading);
}

#[test]
fn malformed_and_other_frames_are_passed_over() {
    let mut c = connector();
    running(&mut c);
    let logs = c.logs();
    assert_eq!(at(&mut c, SessionEvent::Frame(Frame::Malformed)), SessionAction::ReadFrame);
    assert_eq!(at(&mut c, SessionEvent::Frame(Frame::Other)), SessionAction::ReadFrame);
    assert_eq!(
        at(&mut c, SessionEvent::Frame(Frame::Ping(vec![1, 2, 3]))),
        SessionAction::SendPong(vec![1, 2, 3])
    );
    assert_eq!(c.logs(), logs);
    assert_eq!(c.phase(), SessionPhase::Reading);
    assert_eq!(c.get_state(), state(true, true, true, true, None));
}

#[test]
fn a_close_frame_ends_the_loop_and_leaves_running_as_it_was() {
    let mut c = connector();
    running(&mut c);
    assert_eq!(at(&mut c, SessionEvent::Frame(Frame::Close)), SessionAction::Finish);
    assert_eq!(c.get_state(), state(true, false, true, true, None));
    assert_eq!(c.phase(), SessionPhase::Ended);
    assert_eq!(c.logs().last().unwrap(), "[10:00:00] Backend closed connection");
    assert_eq!(at(&mut c, SessionEvent::Frame(Frame::Close)), SessionAction::Leave);
}

#[test]
fn a_transport_error_ends_the_loop_without_a_line() {
    let mut c = connector();
    running(&mut c);
    let logs = c.logs();
    assert_eq!(at(&mut c, SessionEvent::TransportFailed), SessionAction::Finish);
    assert_eq!(c.get_state(), state(true, false, true, true, None));
    assert_eq!(c.logs(), logs);
    let mut d = connector();
    running(&mut d);
    assert_eq!(at(&mut d, SessionEvent::ChannelEnded), SessionAction::Finish);
    assert_eq!(d.get_state(), state(true, false, true, true, None));
}

#[test]
fn events_out_of_turn_change_nothing() {
    let mut c = connector();
    assert_eq!(at(&mut c, SessionEvent::ChannelOpened), SessionAction::Leave);
    assert_eq!(at(&mut c, SessionEvent::Completed(Outcome::Pong)), SessionAction::Leave);
    assert_eq!(c.get_state(), state(false, false, false, false, None));
    assert!(c.logs().is_empty());
    running(&mut c);
    let logs = c.logs();
    assert_eq!(at(&mut c, SessionEvent::ChannelOpened), SessionAction::Leave);
    assert_eq!(at(&mut c, SessionEvent::Completed(Outcome::Pong)), SessionAction::Leave);
    assert_eq!(at(&mut c, SessionEvent::DirectoryProbed(Probe::Reachable)), SessionAction::Leave);
    assert_eq!(c.logs(), logs);
    assert_eq!(c.phase(), SessionPhase::Reading);
    at(&mut c, SessionEvent::Frame(Frame::Command(ping())));
    assert_eq!(at(&mut c, SessionEvent::Frame(Frame::Close)), SessionAction::Leave);
    assert_eq!(c.phase(), SessionPhase::Executing);
}

#[test]
fn stop_while_a_command_runs_drops_it() {
    let mut c = connector();
    running(&mut c);
    at(&mut c, SessionEvent::Frame(Frame::Command(ping())));
    c.stop();
    assert_eq!(at(&mut c, SessionEvent::Completed(Outcome::Pong)), SessionAction::Leave);
    assert_eq!(c.get_state(), state(false, false, true, true, None));
}

#[test]
fn the_session_log_is_a_ring_of_100_lines() {
    let mut c = connector();
    running(&mut c);
    for _ in 0..120 {
        at(&mut c, SessionEvent::Frame(Frame::Command(ping())));
        at(&mut c, SessionEvent::Completed(Outcome::Pong));
        assert!(c.logs().len() <= 100);
    }
    let logs = c.logs();
    assert_eq!(logs.len(), 100);
    assert!(logs.iter().all(|l| l == "[10:00:00] Command: ping"));
    c.clear_logs();
    assert!(c.logs().is_empty());
    assert_eq!(c.get_state(), state(true, true, true, true, None));
}

#[test]
fn the_session_stamps_its_lines_with_the_time_of_day() {
    let mut c = connector();
    assert_eq!(c.start(), Ok(SessionAction::ProbeDirectory));
    let logs = c.logs();
    assert_eq!(logs.len(), 2);
    assert!(logs[0].ends_with("] Starting connector..."));
    assert_eq!(logs[0].len(), "[00:00:00] Starting connector...".len());
    assert_eq!(&logs[0][..1], "[");
    assert_eq!(&logs[0][3..4], ":");
    assert_eq!(c.on_event(SessionEvent::DirectoryProbed(Probe::Reachable)), SessionAction::ProbeCalendar);
    c.on_event(SessionEvent::CalendarProbed(Probe::Reachable));
    c.on_event(SessionEvent::ChannelOpened);
    c.on_event(SessionEvent::Frame(Frame::Command(ping())));
    match c.on_event(SessionEvent::Completed(Outcome::Pong)) {
        SessionAction::Send(response) => {
            assert!(response.success);
            assert!(response.timestamp.contains('T'));
            assert!(response.timestamp.ends_with("+00:00"));
            match response.result {
                CommandResult::Pong { pong, timestamp } => {
                    assert!(pong);
                    assert!(timestamp.ends_with("+00:00"));
                }
                other => panic!("unexpected result {:?}", other),
            }
        }
        other => panic!("unexpected action {:?}", other),
    }
}
