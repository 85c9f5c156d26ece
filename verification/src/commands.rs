//! The commands of the front-end, as the texts that are sent for them.
//!
//! Each function takes what the user entered and gives the text to send: the
//! command's envelope, with the parameters written into a JSON object.
//! Sending is the caller's part.
//!
//! The parameters are written as they are, without escapes. Where what was
//! entered breaks the JSON, the envelope goes out without parameters.

use crate::event::{command_text, CommandEvent, CommandType, EventParser, TypeToString};
use crate::json::json_compact;
use crate::text::{append_bool, append_decimal, bool_text, decimal_text};
use vstd::prelude::*;

verus! {

/// The text of a parameter that may be left out: `null` for nothing, the
/// text in double quotes otherwise.
pub open spec fn string_param(param: Seq<char>) -> Seq<char> {
    if param.len() == 0 {
        "null"@
    } else {
        "\""@ + param + "\""@
    }
}

/// The text that goes out for `command` when `params` is what was written
/// for its parameters.
pub open spec fn sent_for(command: CommandType, params: Seq<char>) -> Seq<char> {
    command_text(
        command,
        if params.len() == 0 {
            None
        } else {
            json_compact(params)
        },
    )
}

/// What is reported when a command could not be sent.
pub open spec fn send_failure(command: CommandType, cause: Seq<char>) -> Seq<char> {
    "Failed to send "@ + command.wire_name() + " command ("@ + cause + ")"@
}

/// A parameter that may be left out, as JSON.
pub fn handle_string_param(param: String) -> (text: String)
    ensures
        text@ == string_param(param@),
{
    if param.as_str().is_empty() {
        "null".to_owned()
    } else {
        let mut text = "\"".to_owned();
        text.append(param.as_str());
        text.append("\"");
        text
    }
}

/// What is reported when `command` could not be sent because of `cause`.
pub fn send_failed(command: CommandType, cause: &str) -> (text: String)
    ensures
        text@ == send_failure(command, cause@),
{
    let mut text = "Failed to send ".to_owned();
    text.append(command.to_string());
    text.append(" command (");
    text.append(cause);
    text.append(")");
    text
}

fn envelope(command: CommandType, params: &str) -> (text: String)
    ensures
        text@ == sent_for(command, params@),
{
    let event = CommandEvent::build(command, params);
    EventParser::serialize(&event)
}

/// The parameters of `service_choice`.
pub open spec fn service_choice_params(service: Seq<char>) -> Seq<char> {
    "{ \"service\": "@ + string_param(service) + " }"@
}

/// Chooses the service to run.
pub fn service_choice(service: String) -> (text: String)
    ensures
        text@ == sent_for(CommandType::ServiceChoice, service_choice_params(service@)),
{
    let mut params = "{ \"service\": ".to_owned();
    params.append(handle_string_param(service).as_str());
    params.append(" }");
    envelope(CommandType::ServiceChoice, params.as_str())
}

/// Starts the server.
pub fn start_server() -> (text: String)
    ensures
        text@ == sent_for(CommandType::StartServer, "{}"@),
{
    envelope(CommandType::StartServer, "{}")
}

/// Stops the server.
pub fn stop_server() -> (text: String)
    ensures
        text@ == sent_for(CommandType::StopServer, "{}"@),
{
    envelope(CommandType::StopServer, "{}")
}

/// The parameters of `add_client`.
pub open spec fn add_client_params(
    hostname: Seq<char>,
    ip_address: Seq<char>,
    screen_position: Seq<char>,
) -> Seq<char> {
    "{ \"hostname\": "@ + string_param(hostname) + ", \"ip_address\": "@ + string_param(ip_address)
        + ", \"screen_position\": "@ + string_param(screen_position) + " }"@
}

/// What a result of text is, as mathematics.
pub open spec fn text_result(res: Result<String, String>) -> Result<Seq<char>, Seq<char>> {
    match res {
        Ok(text) => Ok(text@),
        Err(text) => Err(text@),
    }
}

/// Adds a client to the server. A client needs a host name or an address,
/// and a position on the screen.
pub fn add_client(hostname: String, ip_address: String, screen_position: String) -> (res: Result<
    String,
    String,
>)
    ensures
        text_result(res) == if hostname@.len() == 0 && ip_address@.len() == 0 {
            Err::<Seq<char>, Seq<char>>("Either hostname or ip address must be provided"@)
        } else if screen_position@.len() == 0 {
            Err("Screen position must be provided"@)
        } else {
            Ok(
                sent_for(
                    CommandType::AddClient,
                    add_client_params(hostname@, ip_address@, screen_position@),
                ),
            )
        },
{
    if hostname.as_str().is_empty() && ip_address.as_str().is_empty() {
        return Err("Either hostname or ip address must be provided".to_owned());
    }
    if screen_position.as_str().is_empty() {
        return Err("Screen position must be provided".to_owned());
    }
    let mut params = "{ \"hostname\": ".to_owned();
    params.append(handle_string_param(hostname).as_str());
    params.append(", \"ip_address\": ");
    params.append(handle_string_param(ip_address).as_str());
    params.append(", \"screen_position\": ");
    params.append(handle_string_param(screen_position).as_str());
    params.append(" }");
    Ok(envelope(CommandType::AddClient, params.as_str()))
}

/// The parameters of `remove_client`.
pub open spec fn remove_client_params(hostname: Seq<char>, ip_address: Seq<char>) -> Seq<char> {
    "{ \"hostname\": "@ + string_param(hostname) + ", \"ip_address\": "@ + string_param(ip_address)
        + " }"@
}

/// Removes a client from the server. The client is named by its host name or
/// its address.
pub fn remove_client(hostname: String, ip_address: String) -> (res: Result<String, String>)
    ensures
        text_result(res) == if hostname@.len() == 0 && ip_address@.len() == 0 {
            Err::<Seq<char>, Seq<char>>("Either hostname or ip address must be provided"@)
        } else {
            Ok(sent_for(CommandType::RemoveClient, remove_client_params(hostname@, ip_address@)))
        },
{
    if hostname.as_str().is_empty() && ip_address.as_str().is_empty() {
        return Err("Either hostname or ip address must be provided".to_owned());
    }
    let mut params = "{ \"hostname\": ".to_owned();
    params.append(handle_string_param(hostname).as_str());
    params.append(", \"ip_address\": ");
    params.append(handle_string_param(ip_address).as_str());
    params.append(" }");
    Ok(envelope(CommandType::RemoveClient, params.as_str()))
}

/// The parameters of `enable_stream` and `disable_stream`.
pub open spec fn stream_params(stream_type: i8) -> Seq<char> {
    "{ \"stream_type\": "@ + decimal_text(stream_type as int) + " }"@
}

fn stream_params_text(stream_type: i8) -> (params: String)
    ensures
        params@ == stream_params(stream_type),
{
    let mut params = "{ \"stream_type\": ".to_owned();
    append_decimal(&mut params, stream_type as i64);
    params.append(" }");
    params
}

/// Switches a stream on.
pub fn enable_stream(stream_type: i8) -> (text: String)
    ensures
        text@ == sent_for(CommandType::EnableStream, stream_params(stream_type)),
{
    envelope(CommandType::EnableStream, stream_params_text(stream_type).as_str())
}

/// Switches a stream off.
pub fn disable_stream(stream_type: i8) -> (text: String)
    ensures
        text@ == sent_for(CommandType::DisableStream, stream_params(stream_type)),
{
    envelope(CommandType::DisableStream, stream_params_text(stream_type).as_str())
}

/// The parameters of `set_server_config`.
pub open spec fn server_config_params(host: Seq<char>, port: i32, ssl_enabled: bool) -> Seq<char> {
    "{ \"host\": \""@ + host + "\", \"port\": "@ + decimal_text(port as int)
        + ", \"ssl_enabled\": "@ + bool_text(ssl_enabled) + " }"@
}

/// Configures the server.
pub fn set_server_config(host: String, port: i32, ssl_enabled: bool) -> (text: String)
    ensures
        text@ == sent_for(
            CommandType::SetServerConfig,
            server_config_params(host@, port, ssl_enabled),
        ),
{
    let mut params = "{ \"host\": \"".to_owned();
    params.append(host.as_str());
    params.append("\", \"port\": ");
    append_decimal(&mut params, port as i64);
    params.append(", \"ssl_enabled\": ");
    append_bool(&mut params, ssl_enabled);
    params.append(" }");
    envelope(CommandType::SetServerConfig, params.as_str())
}

/// The parameters of `share_certificate`.
pub open spec fn share_certificate_params(timeout: i32) -> Seq<char> {
    "{ \"timeout\": "@ + decimal_text(timeout as int) + " }"@
}

/// Offers the server's certificate for `timeout` seconds.
pub fn share_certificate(timeout: i32) -> (text: String)
    ensures
        text@ == sent_for(CommandType::ShareCertificate, share_certificate_params(timeout)),
{
    let mut params = "{ \"timeout\": ".to_owned();
    append_decimal(&mut params, timeout as i64);
    params.append(" }");
    envelope(CommandType::ShareCertificate, params.as_str())
}

/// Starts the client.
pub fn start_client() -> (text: String)
    ensures
        text@ == sent_for(CommandType::StartClient, "{}"@),
{
    envelope(CommandType::StartClient, "{}")
}

/// Stops the client.
pub fn stop_client() -> (text: String)
    ensures
        text@ == sent_for(CommandType::StopClient, "{}"@),
{
    envelope(CommandType::StopClient, "{}")
}

/// The parameters of `set_otp`.
pub open spec fn otp_params(otp: Seq<char>) -> Seq<char> {
    "{ \"otp\": \""@ + otp + "\" }"@
}

/// Hands the one-time password to the client.
pub fn set_otp(otp: String) -> (text: String)
    ensures
        text@ == sent_for(CommandType::SetOtp, otp_params(otp@)),
{
    let mut params = "{ \"otp\": \"".to_owned();
    params.append(otp.as_str());
    params.append("\" }");
    envelope(CommandType::SetOtp, params.as_str())
}

/// The parameters of `choose_server`.
pub open spec fn choose_server_params(uid: Seq<char>) -> Seq<char> {
    "{ \"uid\": \""@ + uid + "\" }"@
}

/// Picks one of the servers that were found.
pub fn choose_server(uid: String) -> (text: String)
    ensures
        text@ == sent_for(CommandType::ChooseServer, choose_server_params(uid@)),
{
    let mut params = "{ \"uid\": \"".to_owned();
    params.append(uid.as_str());
    params.append("\" }");
    envelope(CommandType::ChooseServer, params.as_str())
}

/// The parameters of `set_client_config`.
pub open spec fn client_config_params(
    server_host: Seq<char>,
    server_hostname: Seq<char>,
    server_port: i32,
    ssl_enabled: bool,
    auto_reconnect: bool,
) -> Seq<char> {
    "{ \"server_host\": \""@ + server_host + "\", \"server_hostname\": \""@ + server_hostname
        + "\", \"server_port\": "@ + decimal_text(server_port as int) + ", \"ssl_enabled\": "@
        + bool_text(ssl_enabled) + ", \"auto_reconnect\": "@ + bool_text(auto_reconnect) + " }"@
}

/// Configures the client.
pub fn set_client_config(
    server_host: String,
    server_hostname: String,
    server_port: i32,
    ssl_enabled: bool,
    auto_reconnect: bool,
) -> (text: String)
    ensures
        text@ == sent_for(
            CommandType::SetClientConfig,
            client_config_params(
                server_host@,
                server_hostname@,
                server_port,
                ssl_enabled,
                auto_reconnect,
            ),
        ),
{
    let mut params = "{ \"server_host\": \"".to_owned();
    params.append(server_host.as_str());
    params.append("\", \"server_hostname\": \"");
    params.append(server_hostname.as_str());
    params.append("\", \"server_port\": ");
    append_decimal(&mut params, server_port as i64);
    params.append(", \"ssl_enabled\": ");
    append_bool(&mut params, ssl_enabled);
    params.append(", \"auto_reconnect\": ");
    append_bool(&mut params, auto_reconnect);
    params.append(" }");
    envelope(CommandType::SetClientConfig, params.as_str())
}

/// Asks for the service's status.
pub fn status() -> (text: String)
    ensures
        text@ == sent_for(CommandType::Status, "{}"@),
{
    envelope(CommandType::Status, "{}")
}

/// Shuts the service down.
pub fn shutdown() -> (text: String)
    ensures
        text@ == sent_for(CommandType::Shutdown, "{}"@),
{
    envelope(CommandType::Shutdown, "{}")
}

} // verus!
