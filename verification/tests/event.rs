use ipc::event::{
    CommandEvent, CommandType, EventParser, EventType, Field, Member, NotificationEvent,
    ParseError, Parser, RawNotification, TypeToString,
};
use ipc::text::str_eq;
use ipc::handler::EventHandler;

fn text(s: &str) -> Option<Member> {
    Some(Member {
        json: serde_json::Value::String(s.to_string()).to_string(),
        text: Some(s.to_string()),
    })
}

fn json(s: &str) -> Option<Member> {
    Some(Member { json: s.to_string(), text: None })
}

fn raw() -> RawNotification {
    RawNotification {
        event_type: text("connected"),
        data: json("{\"a\":1}"),
        timestamp: text("t"),
        source: text("s"),
        message: text("hi"),
        metadata: json("null"),
    }
}

#[test]
fn a_connected_notification_is_recognized() {
    let input = "{\"event_type\":\"connected\",\"timestamp\":\"t\",\"source\":\"s\",\"data\":null,\"message\":null,\"metadata\":null}";
    let event = EventParser::parse_json(input).unwrap();
    assert_eq!(event.event_type, EventType::Connected);
    assert_eq!(event.timestamp, "t");
    assert_eq!(event.source, "s");
    assert_eq!(event.data, None);
    assert_eq!(event.message, None);
    assert_eq!(event.metadata, None);
}

#[test]
fn a_kind_that_is_not_known_is_other() {
    let input = "{\"event_type\":\"some_future_event\",\"timestamp\":\"t\",\"source\":\"s\",\"data\":null,\"message\":null,\"metadata\":null}";
    let event = EventParser::parse_json(input).unwrap();
    assert_eq!(event.event_type, EventType::Other);
}

#[test]
fn values_are_passed_on_in_their_shortest_form() {
    let input = "{ \"event_type\": \"status_update\", \"data\": { \"n\": [1, 2] }, \"timestamp\": \"2026\", \"source\": \"d\\u00e6mon\", \"message\": \"a \\\"b\\\"\", \"metadata\": \"m\", \"more\": 1 }";
    let event = EventParser::parse_json(input).unwrap();
    assert_eq!(event.event_type, EventType::StatusUpdate);
    assert_eq!(event.data, Some("{\"n\":[1,2]}".to_string()));
    assert_eq!(event.timestamp, "2026");
    assert_eq!(event.source, "d\u{e6}mon");
    assert_eq!(event.message, Some("a \"b\"".to_string()));
    assert_eq!(event.metadata, Some("\"m\"".to_string()));
}

#[test]
fn members_that_may_be_missing() {
    let event =
        EventParser::parse_json("{\"event_type\":\"pong\",\"timestamp\":\"t\",\"source\":\"s\"}")
            .unwrap();
    assert_eq!(event.event_type, EventType::Pong);
    assert_eq!(event.data, None);
    assert_eq!(event.message, None);
    assert_eq!(event.metadata, None);
}

#[test]
fn what_is_wrong_with_a_text() {
    let parse = |s: &str| EventParser::parse_json(s).map(|_| ()).unwrap_err();
    assert_eq!(parse("not json"), ParseError::NotJson);
    assert_eq!(parse(""), ParseError::NotJson);
    assert_eq!(parse("[1]"), ParseError::MissingField(Field::EventType));
    assert_eq!(
        parse("{\"timestamp\":\"t\",\"source\":\"s\"}"),
        ParseError::MissingField(Field::EventType)
    );
    assert_eq!(
        parse("{\"event_type\":null,\"timestamp\":\"t\",\"source\":\"s\"}"),
        ParseError::InvalidType(Field::EventType)
    );
    assert_eq!(
        parse("{\"event_type\":\"info\",\"source\":\"s\"}"),
        ParseError::MissingField(Field::Timestamp)
    );
    assert_eq!(
        parse("{\"event_type\":\"info\",\"timestamp\":5,\"source\":\"s\"}"),
        ParseError::InvalidType(Field::Timestamp)
    );
    assert_eq!(
        parse("{\"event_type\":\"info\",\"timestamp\":\"t\"}"),
        ParseError::MissingField(Field::Source)
    );
    assert_eq!(
        parse("{\"event_type\":\"info\",\"timestamp\":\"t\",\"source\":[]}"),
        ParseError::InvalidType(Field::Source)
    );
    assert_eq!(
        parse("{\"event_type\":\"info\",\"timestamp\":\"t\",\"source\":\"s\",\"message\":1}"),
        ParseError::InvalidType(Field::Message)
    );
}

#[test]
fn six_members_make_a_notification() {
    let event = NotificationEvent::from_members(raw()).unwrap();
    assert_eq!(event.event_type, EventType::Connected);
    assert_eq!(event.data, Some("{\"a\":1}".to_string()));
    assert_eq!(event.timestamp, "t");
    assert_eq!(event.source, "s");
    assert_eq!(event.message, Some("hi".to_string()));
    assert_eq!(event.metadata, None);
}

#[test]
fn the_first_thing_wrong_is_reported() {
    let fails = |raw: RawNotification| NotificationEvent::from_members(raw).map(|_| ()).unwrap_err();
    let mut r = raw();
    r.event_type = None;
    r.timestamp = None;
    assert_eq!(fails(r), ParseError::MissingField(Field::EventType));
    let mut r = raw();
    r.event_type = json("1");
    assert_eq!(fails(r), ParseError::InvalidType(Field::EventType));
    let mut r = raw();
    r.timestamp = json("null");
    r.source = None;
    assert_eq!(fails(r), ParseError::InvalidType(Field::Timestamp));
    let mut r = raw();
    r.source = None;
    r.message = json("1");
    assert_eq!(fails(r), ParseError::MissingField(Field::Source));
    let mut r = raw();
    r.message = json("{}");
    assert_eq!(fails(r), ParseError::InvalidType(Field::Message));
    let mut r = raw();
    r.message = json("null");
    r.data = None;
    let event = NotificationEvent::from_members(r).unwrap();
    assert_eq!(event.message, None);
    assert_eq!(event.data, None);
}

#[test]
fn names_on_the_wire() {
    assert_eq!(EventType::Connected.to_string(), "connected");
    assert_eq!(EventType::ServiceInitialized.to_string(), "service_initialized");
    assert_eq!(EventType::OtpNeeded.to_string(), "otp_needed");
    assert_eq!(EventType::SslHandshakeCompleted.to_string(), "ssl_handshake_completed");
    assert_eq!(EventType::NetworkQualityDegraded.to_string(), "network_quality_degraded");
    assert_eq!(EventType::Other.to_string(), "other");
    assert_eq!(CommandType::Ping.to_string(), "ping");
    assert_eq!(CommandType::CheckServerChoiceNeeded.to_string(), "check_server_choice_needed");
    assert_eq!(CommandType::EnableSsl.to_string(), "enable_ssl");
    assert_eq!(CommandType::SetOtp.to_string(), "set_otp");
}

#[test]
fn kinds_by_their_names() {
    assert_eq!(EventType::from_name("connected"), EventType::Connected);
    assert_eq!(EventType::from_name("command_error"), EventType::CommandError);
    assert_eq!(EventType::from_name("pong"), EventType::Pong);
    assert_eq!(EventType::from_name("other"), EventType::Other);
    assert_eq!(EventType::from_name("Connected"), EventType::Other);
    assert_eq!(EventType::from_name(""), EventType::Other);
    assert_eq!(CommandType::from_name("ping"), Some(CommandType::Ping));
    assert_eq!(CommandType::from_name("service_choice"), Some(CommandType::ServiceChoice));
    assert_eq!(CommandType::from_name("pong"), None);
}

#[test]
fn every_name_leads_back_to_its_kind() {
    let events = [
        EventType::ServiceInitialized,
        EventType::ServiceError,
        EventType::ConnectionError,
        EventType::ConnectionLost,
        EventType::DiscoveryTimeout,
        EventType::CertificateReceived,
        EventType::ClientUpdated,
        EventType::StreamsUpdated,
        EventType::ConfigError,
        EventType::ScreenTransitionCompleted,
        EventType::FileTransferFailed,
        EventType::NetworkQualityRestored,
        EventType::Test,
        EventType::CommandSuccess,
        EventType::Other,
    ];
    for kind in events {
        assert_eq!(EventType::from_name(kind.to_string()), kind);
    }
    let commands = [
        CommandType::ServiceChoice,
        CommandType::ClientStatus,
        CommandType::ReloadConfig,
        CommandType::GetStreams,
        CommandType::ListClients,
        CommandType::ReceiveCertificate,
        CommandType::CheckOtpNeeded,
        CommandType::DiscoverServices,
        CommandType::Shutdown,
    ];
    for command in commands {
        assert_eq!(CommandType::from_name(command.to_string()), Some(command));
    }
}

#[test]
fn a_command_as_text() {
    let ping = CommandEvent::empty(CommandType::Ping);
    assert_eq!(EventParser::serialize(&ping), "{\"command\":\"ping\",\"params\":null}");
    let with = CommandEvent::new(CommandType::SetOtp, Some("{\"otp\":\"1\"}".to_string()));
    assert_eq!(
        EventParser::serialize(&with),
        "{\"command\":\"set_otp\",\"params\":{\"otp\":\"1\"}}"
    );
    assert_eq!(with.command, CommandType::SetOtp);
}

#[test]
fn a_command_is_built_from_json() {
    let event = CommandEvent::build(CommandType::EnableStream, "{ \"stream_type\": 1 }");
    assert_eq!(event.command, CommandType::EnableStream);
    assert_eq!(event.params, Some("{\"stream_type\":1}".to_string()));
    assert_eq!(CommandEvent::build(CommandType::Status, "").params, None);
    assert_eq!(CommandEvent::build(CommandType::Status, "{ broken").params, None);
    assert_eq!(CommandEvent::build(CommandType::Status, "{}").params, Some("{}".to_string()));
    assert_eq!(CommandEvent::build(CommandType::Status, "null").params, Some("null".to_string()));
}

#[test]
fn what_is_written_is_what_serde_json_reads() {
    let event = CommandEvent::build(CommandType::AddClient, "{\"hostname\":\"h\",\"n\":[1,2.5,true]}");
    let value: serde_json::Value = serde_json::from_str(&EventParser::serialize(&event)).unwrap();
    assert_eq!(value["command"], "add_client");
    assert_eq!(value["params"]["hostname"], "h");
    assert_eq!(value["params"]["n"][1], 2.5);
}

#[test]
fn the_answer_to_the_probe_is_not_passed_on() {
    let mut event = NotificationEvent::from_members(raw()).unwrap();
    let handler = EventHandler::new(event.clone());
    assert_eq!(handler.emit_name(), Some("connected"));
    assert_eq!(handler.event().timestamp, "t");
    event.event_type = EventType::Pong;
    assert_eq!(EventHandler::new(event.clone()).emit_name(), None);
    event.event_type = EventType::Other;
    assert_eq!(EventHandler::new(event).emit_name(), Some("other"));
}

#[test]
fn a_command_is_read_from_text() {
    let event = EventParser::parse_command("{ \"command\": \"set_otp\", \"params\": { \"otp\": \"1\" } }")
        .unwrap();
    assert_eq!(event.command, CommandType::SetOtp);
    assert_eq!(event.params, Some("{\"otp\":\"1\"}".to_string()));
    let ping = EventParser::parse_command("{\"command\": \"ping\"}").unwrap();
    assert_eq!(ping.command, CommandType::Ping);
    assert_eq!(ping.params, None);
    let null = EventParser::parse_command("{\"command\":\"status\",\"params\":null}").unwrap();
    assert_eq!(null.params, None);
}

#[test]
fn what_is_wrong_with_a_command() {
    let parse = |s: &str| EventParser::parse_command(s).map(|_| ()).unwrap_err();
    assert_eq!(parse("{"), ParseError::NotJson);
    assert_eq!(parse("{\"params\":{}}"), ParseError::MissingField(Field::Command));
    assert_eq!(parse("{\"command\":7}"), ParseError::InvalidType(Field::Command));
    assert_eq!(parse("{\"command\":\"pong\"}"), ParseError::UnknownCommand);
    let from = |c: Option<Member>, p: Option<Member>| {
        CommandEvent::from_members(c, p).map(|e| (e.command, e.params))
    };
    assert_eq!(from(None, json("{}")), Err(ParseError::MissingField(Field::Command)));
    assert_eq!(from(json("1"), None), Err(ParseError::InvalidType(Field::Command)));
    assert_eq!(from(text("nothing"), None), Err(ParseError::UnknownCommand));
    assert_eq!(
        from(text("add_client"), json("{\"a\":1}")),
        Ok((CommandType::AddClient, Some("{\"a\":1}".to_string())))
    );
    assert_eq!(from(text("ping"), json("null")), Ok((CommandType::Ping, None)));
}

#[test]
fn a_notification_as_text() {
    let event = NotificationEvent {
        event_type: EventType::OtpNeeded,
        data: Some("{\"n\":1}".to_string()),
        timestamp: "t".to_string(),
        source: "a \"b\"\n".to_string(),
        message: Some("gr\u{fc}n".to_string()),
        metadata: None,
    };
    let written = EventParser::serialize_notification(&event);
    assert_eq!(
        written,
        "{\"event_type\":\"otp_needed\",\"data\":{\"n\":1},\"timestamp\":\"t\",\"source\":\"a \\\"b\\\"\\n\",\"message\":\"gr\u{fc}n\",\"metadata\":null}"
    );
    let back = EventParser::parse_json(&written).unwrap();
    assert_eq!(back.event_type, event.event_type);
    assert_eq!(back.data, event.data);
    assert_eq!(back.timestamp, event.timestamp);
    assert_eq!(back.source, event.source);
    assert_eq!(back.message, event.message);
    assert_eq!(back.metadata, event.metadata);
}

#[test]
fn a_command_written_is_read_back() {
    let event = CommandEvent::build(CommandType::ChooseServer, "{\"uid\":\"x\"}");
    let back = EventParser::parse_command(&EventParser::serialize(&event)).unwrap();
    assert_eq!(back.command, event.command);
    assert_eq!(back.params, event.params);
}

#[test]
fn the_parser_of_each_envelope() {
    let command: CommandEvent =
        <EventParser as Parser<CommandEvent>>::parse_json("{\"command\":\"ping\"}").unwrap();
    assert_eq!(
        <EventParser as Parser<CommandEvent>>::serialize(&command),
        "{\"command\":\"ping\",\"params\":null}"
    );
    let notification: NotificationEvent = <EventParser as Parser<NotificationEvent>>::parse_json(
        "{\"event_type\":\"info\",\"timestamp\":\"t\",\"source\":\"s\"}",
    )
    .unwrap();
    assert_eq!(
        <EventParser as Parser<NotificationEvent>>::serialize(&notification),
        "{\"event_type\":\"info\",\"data\":null,\"timestamp\":\"t\",\"source\":\"s\",\"message\":null,\"metadata\":null}"
    );
}

#[test]
fn texts_are_equal_when_their_characters_are() {
    assert!(str_eq("", ""));
    assert!(str_eq("gr\u{fc}n", "gr\u{fc}n"));
    assert!(!str_eq("a", "b"));
    assert!(!str_eq("a", "ab"));
    assert!(!str_eq("ab", "a"));
}
