use ipc::commands::{
    add_client, choose_server, disable_stream, enable_stream, handle_string_param, remove_client,
    send_failed, service_choice, set_client_config, set_otp, set_server_config,
    share_certificate, shutdown, start_client, start_server, status, stop_client, stop_server,
};
use ipc::event::CommandType;
use ipc::text::{append_bool, append_decimal};

fn decimal(n: i64) -> String {
    let mut out = String::new();
    append_decimal(&mut out, n);
    out
}

#[test]
fn a_parameter_that_may_be_left_out() {
    assert_eq!(handle_string_param(String::new()), "null");
    assert_eq!(handle_string_param("left".to_string()), "\"left\"");
}

#[test]
fn commands_without_parameters() {
    assert_eq!(start_server(), "{\"command\":\"start_server\",\"params\":{}}");
    assert_eq!(stop_server(), "{\"command\":\"stop_server\",\"params\":{}}");
    assert_eq!(start_client(), "{\"command\":\"start_client\",\"params\":{}}");
    assert_eq!(stop_client(), "{\"command\":\"stop_client\",\"params\":{}}");
    assert_eq!(status(), "{\"command\":\"status\",\"params\":{}}");
    assert_eq!(shutdown(), "{\"command\":\"shutdown\",\"params\":{}}");
}

#[test]
fn the_service_is_chosen() {
    assert_eq!(
        service_choice("server".to_string()),
        "{\"command\":\"service_choice\",\"params\":{\"service\":\"server\"}}"
    );
    assert_eq!(
        service_choice(String::new()),
        "{\"command\":\"service_choice\",\"params\":{\"service\":null}}"
    );
}

#[test]
fn a_client_is_added() {
    assert_eq!(
        add_client("mac".to_string(), String::new(), "left".to_string()),
        Ok("{\"command\":\"add_client\",\"params\":{\"hostname\":\"mac\",\"ip_address\":null,\"screen_position\":\"left\"}}".to_string())
    );
    assert_eq!(
        add_client(String::new(), String::new(), "left".to_string()),
        Err("Either hostname or ip address must be provided".to_string())
    );
    assert_eq!(
        add_client(String::new(), "10.0.0.2".to_string(), String::new()),
        Err("Screen position must be provided".to_string())
    );
    assert_eq!(
        add_client(String::new(), String::new(), String::new()),
        Err("Either hostname or ip address must be provided".to_string())
    );
}

#[test]
fn a_client_is_removed() {
    assert_eq!(
        remove_client(String::new(), "10.0.0.2".to_string()),
        Ok("{\"command\":\"remove_client\",\"params\":{\"hostname\":null,\"ip_address\":\"10.0.0.2\"}}".to_string())
    );
    assert_eq!(
        remove_client(String::new(), String::new()),
        Err("Either hostname or ip address must be provided".to_string())
    );
}

#[test]
fn streams_are_switched() {
    assert_eq!(enable_stream(1), "{\"command\":\"enable_stream\",\"params\":{\"stream_type\":1}}");
    assert_eq!(
        disable_stream(-128),
        "{\"command\":\"disable_stream\",\"params\":{\"stream_type\":-128}}"
    );
}

#[test]
fn the_server_is_configured() {
    assert_eq!(
        set_server_config("0.0.0.0".to_string(), 55655, true),
        "{\"command\":\"set_server_config\",\"params\":{\"host\":\"0.0.0.0\",\"port\":55655,\"ssl_enabled\":true}}"
    );
}

#[test]
fn the_client_is_configured() {
    assert_eq!(
        set_client_config("10.0.0.1".to_string(), "mac".to_string(), 55655, false, true),
        "{\"command\":\"set_client_config\",\"params\":{\"auto_reconnect\":true,\"server_host\":\"10.0.0.1\",\"server_hostname\":\"mac\",\"server_port\":55655,\"ssl_enabled\":false}}"
    );
}

#[test]
fn the_rest_of_the_commands() {
    assert_eq!(
        share_certificate(30),
        "{\"command\":\"share_certificate\",\"params\":{\"timeout\":30}}"
    );
    assert_eq!(set_otp("123456".to_string()), "{\"command\":\"set_otp\",\"params\":{\"otp\":\"123456\"}}");
    assert_eq!(
        choose_server("ab-1".to_string()),
        "{\"command\":\"choose_server\",\"params\":{\"uid\":\"ab-1\"}}"
    );
}

#[test]
fn what_breaks_the_json_leaves_the_command_without_parameters() {
    assert_eq!(set_otp("1\"2".to_string()), "{\"command\":\"set_otp\",\"params\":null}");
}

#[test]
fn a_command_that_could_not_be_sent() {
    assert_eq!(
        send_failed(CommandType::AddClient, "Failed to send line (broken pipe)"),
        "Failed to send add_client command (Failed to send line (broken pipe))"
    );
}

#[test]
fn numbers_in_base_ten() {
    assert_eq!(decimal(0), "0");
    assert_eq!(decimal(7), "7");
    assert_eq!(decimal(10), "10");
    assert_eq!(decimal(-1), "-1");
    assert_eq!(decimal(9080706050), "9080706050");
    assert_eq!(decimal(1234567890), "1234567890");
    assert_eq!(decimal(i32::MIN as i64), "-2147483648");
    assert_eq!(decimal(i64::MAX), "9223372036854775807");
    assert_eq!(decimal(i64::MIN), "-9223372036854775808");
    let mut out = "n=".to_string();
    append_decimal(&mut out, 42);
    append_bool(&mut out, true);
    append_bool(&mut out, false);
    assert_eq!(out, "n=42truefalse");
}
