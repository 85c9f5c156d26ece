use ipc::channel::{ping, read_line, send, ReadOutcome, PING};
use ipc::error::IoError;
use ipc::event::{EventType, ParseError};
use ipc::listener::{ConnectionHandler, ListenAction, ListenerState};

const CONNECTED: &str = "{\"event_type\":\"connected\",\"timestamp\":\"t\",\"source\":\"s\",\"data\":null,\"message\":null,\"metadata\":null}";

/// Runs the loop over reads that all time out; `fail_at` is the probe that
/// cannot be sent. Gives the number of probes and the error.
fn run_idle(rounds: usize, fail_at: Option<usize>) -> (usize, Option<String>, ListenerState) {
    let mut handler = ConnectionHandler::new();
    handler.start();
    let mut pings = 0;
    for round in 0..rounds {
        if !handler.is_running() {
            break;
        }
        match handler.on_read(read_line(ReadOutcome::TimedOut)) {
            ListenAction::Ping => {
                pings += 1;
                let written = if fail_at == Some(round) {
                    send(Err("broken pipe".to_string()))
                } else {
                    send(Ok(()))
                };
                if let Err(e) = handler.on_ping(ping(written)) {
                    return (pings, Some(e.message), handler.state());
                }
            }
            other => panic!("{:?}", other),
        }
    }
    (pings, None, handler.state())
}

#[test]
fn one_probe_for_each_read_that_timed_out() {
    assert_eq!(run_idle(0, None), (0, None, ListenerState::Running));
    assert_eq!(run_idle(7, None), (7, None, ListenerState::Running));
}

#[test]
fn a_probe_that_cannot_be_sent_ends_the_listening() {
    let (pings, error, state) = run_idle(7, Some(3));
    assert_eq!(pings, 4);
    assert_eq!(
        error,
        Some("Failed to send ping (Failed to send line (broken pipe))".to_string())
    );
    assert_eq!(state, ListenerState::Faulted);
}

#[test]
fn the_probe_is_the_ping_command() {
    assert_eq!(PING, "{\"command\": \"ping\"}");
}

#[test]
fn a_listener_starts_stopped_and_stops_when_asked() {
    let mut handler = ConnectionHandler::new();
    assert_eq!(handler.state(), ListenerState::Stopped);
    assert!(!handler.is_running());
    handler.stop();
    assert_eq!(handler.state(), ListenerState::Stopped);
    handler.start();
    assert!(handler.is_running());
    handler.stop();
    assert!(!handler.is_running());
    assert_eq!(handler.state(), ListenerState::Stopped);
}

#[test]
fn a_notification_is_delivered() {
    let mut handler = ConnectionHandler::new();
    handler.start();
    match handler.on_read(Ok(Some(CONNECTED.to_string()))) {
        ListenAction::Deliver(event) => assert_eq!(event.event_type, EventType::Connected),
        other => panic!("{:?}", other),
    }
    assert!(handler.is_running());
}

#[test]
fn a_line_that_is_no_notification_is_skipped() {
    let mut handler = ConnectionHandler::new();
    handler.start();
    match handler.on_read(Ok(Some("not json".to_string()))) {
        ListenAction::Skip(line, e) => {
            assert_eq!(line, "not json");
            assert_eq!(e, ParseError::NotJson);
        }
        other => panic!("{:?}", other),
    }
    assert!(handler.is_running());
}

#[test]
fn a_failed_read_ends_the_listening() {
    let mut handler = ConnectionHandler::new();
    handler.start();
    let read = read_line(ReadOutcome::Failed("connection reset".to_string()));
    match handler.on_read(read) {
        ListenAction::Fail(e) => assert_eq!(e.message, "Failed to read line (connection reset)"),
        other => panic!("{:?}", other),
    }
    assert_eq!(handler.state(), ListenerState::Faulted);
    assert!(!handler.is_running());
    handler.stop();
    assert_eq!(handler.state(), ListenerState::Faulted);
}

#[test]
fn a_stop_during_a_round_is_kept() {
    let mut handler = ConnectionHandler::new();
    handler.start();
    handler.stop();
    match handler.on_read(Ok(None)) {
        ListenAction::Ping => {}
        other => panic!("{:?}", other),
    }
    assert!(handler.on_ping(Ok(())).is_ok());
    assert_eq!(handler.state(), ListenerState::Stopped);
}

#[test]
fn what_a_read_amounts_to() {
    assert_eq!(read_line(ReadOutcome::Line("x".to_string())).unwrap(), Some("x".to_string()));
    assert_eq!(read_line(ReadOutcome::TimedOut).unwrap(), None);
    assert_eq!(read_line(ReadOutcome::Closed).unwrap(), None);
    assert_eq!(
        read_line(ReadOutcome::Failed("eof".to_string())).unwrap_err().message,
        "Failed to read line (eof)"
    );
}

#[test]
fn what_a_write_amounts_to() {
    assert!(send(Ok(())).is_ok());
    assert_eq!(send(Err("full".to_string())).unwrap_err().message, "Failed to send line (full)");
    assert!(ping(Ok(())).is_ok());
    assert_eq!(
        ping(Err(IoError::new("x".to_string()))).unwrap_err().to_string(),
        "Failed to send ping (x)"
    );
    assert_eq!(IoError::wrap("a", "b").message, "a (b)");
}

fn idle(sent: Result<(), IoError>) -> ipc::listener::ChannelRound {
    ipc::listener::ChannelRound { read: Ok(None), sent }
}

#[test]
fn a_replay_over_a_quiet_channel_probes_once_a_round() {
    let mut handler = ConnectionHandler::new();
    let report = handler.replay(vec![idle(Ok(())), idle(Ok(())), idle(Ok(()))]);
    assert_eq!(report.pings, 3);
    assert!(report.delivered.is_empty());
    assert!(report.result.is_ok());
    assert!(handler.is_running());
}

#[test]
fn a_replay_ends_with_the_probe_that_cannot_be_sent() {
    let mut handler = ConnectionHandler::new();
    let broken = ping(send(Err("broken pipe".to_string())));
    let report = handler.replay(vec![idle(Ok(())), idle(broken), idle(Ok(())), idle(Ok(()))]);
    assert_eq!(report.pings, 2);
    assert_eq!(
        report.result.unwrap_err().message,
        "Failed to send ping (Failed to send line (broken pipe))"
    );
    assert_eq!(handler.state(), ListenerState::Faulted);
}

#[test]
fn a_replay_delivers_in_the_order_of_arrival() {
    let line = |kind: &str| ipc::listener::ChannelRound {
        read: Ok(Some(format!(
            "{{\"event_type\":\"{}\",\"timestamp\":\"t\",\"source\":\"s\"}}",
            kind
        ))),
        sent: Ok(()),
    };
    let garbled = ipc::listener::ChannelRound { read: Ok(Some("{".to_string())), sent: Ok(()) };
    let failed = ipc::listener::ChannelRound {
        read: read_line(ReadOutcome::Failed("reset".to_string())),
        sent: Ok(()),
    };
    let mut handler = ConnectionHandler::new();
    let report = handler.replay(vec![
        line("connected"),
        garbled,
        idle(Ok(())),
        line("otp_needed"),
        failed,
        line("disconnected"),
    ]);
    let kinds: Vec<EventType> = report.delivered.iter().map(|e| e.event_type).collect();
    assert_eq!(kinds, vec![EventType::Connected, EventType::OtpNeeded]);
    assert_eq!(report.pings, 1);
    assert_eq!(report.result.unwrap_err().message, "Failed to read line (reset)");
    assert!(!handler.is_running());
}

#[test]
fn a_replay_of_nothing_does_nothing() {
    let mut handler = ConnectionHandler::new();
    let report = handler.replay(Vec::new());
    assert_eq!(report.pings, 0);
    assert!(report.delivered.is_empty());
    assert!(report.result.is_ok());
}
